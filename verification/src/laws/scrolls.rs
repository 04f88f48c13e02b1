//! Which way a page scroll goes.
use vstd::prelude::*;

use crate::contracts::ScrollDirection;
use crate::driver::actions::scroll;
use crate::driver::elements;
use crate::text;

verus! {

/// Up and left go towards the beginning.
pub open spec fn backwards(direction: ScrollDirection) -> bool {
    direction == ScrollDirection::Up || direction == ScrollDirection::Left
}

/// Up and down go along the vertical axis.
pub open spec fn vertical(direction: ScrollDirection) -> bool {
    direction == ScrollDirection::Up || direction == ScrollDirection::Down
}

/// The page action of an element goes the way that was asked for: its own action
/// of that direction where it has one, else the relative action of its axis,
/// which decrements towards the beginning and increments towards the end.
pub proof fn a_page_action_goes_the_way_that_was_asked_for(
    direction: ScrollDirection,
    actions: Seq<Seq<char>>,
    orientation: Option<Seq<char>>,
)
    ensures
        ({
            let route = scroll::page_route(direction, actions, orientation);
            let own = match direction {
                ScrollDirection::Up => "AXPageUp"@,
                ScrollDirection::Down => "AXPageDown"@,
                ScrollDirection::Left => "AXPageLeft"@,
                ScrollDirection::Right => "AXPageRight"@,
            };
            let relative = if backwards(direction) {
                "AXDecrementPage"@
            } else {
                "AXIncrementPage"@
            };
            let along = orientation == Some(
                if vertical(direction) {
                    "AXVerticalOrientation"@
                } else {
                    "AXHorizontalOrientation"@
                },
            );
            &&& actions.contains(own) ==> route == Some(own)
            &&& !actions.contains(own) && along && actions.contains(relative) ==> route == Some(
                relative,
            )
            &&& !actions.contains(own) && !(along && actions.contains(relative)) ==> route is None
        }),
{
}

/// Opposite directions never use one action.
pub proof fn opposite_directions_use_different_actions(
    actions: Seq<Seq<char>>,
    orientation: Option<Seq<char>>,
    left: ScrollDirection,
    right: ScrollDirection,
)
    requires
        left != right,
        scroll::page_route(left, actions, orientation) is Some,
    ensures
        scroll::page_route(left, actions, orientation) != scroll::page_route(
            right,
            actions,
            orientation,
        ),
{
    reveal_strlit("AXPageUp");
    reveal_strlit("AXPageDown");
    reveal_strlit("AXPageLeft");
    reveal_strlit("AXPageRight");
    reveal_strlit("AXDecrementPage");
    reveal_strlit("AXIncrementPage");
    reveal_strlit("AXVerticalOrientation");
    reveal_strlit("AXHorizontalOrientation");
    assert("AXPageUp"@.len() == 8);
    assert("AXPageDown"@.len() == 10);
    assert("AXPageLeft"@.len() == 10);
    assert("AXPageRight"@.len() == 11);
    assert("AXDecrementPage"@.len() == 15);
    assert("AXIncrementPage"@.len() == 15);
    assert("AXVerticalOrientation"@.len() == 21);
    assert("AXHorizontalOrientation"@.len() == 23);
    assert("AXDecrementPage"@[2] == 'D');
    assert("AXIncrementPage"@[2] == 'I');
    assert("AXPageDown"@[6] == 'D');
    assert("AXPageLeft"@[6] == 'L');
}

/// The part of a scroll bar that pages is the one of the way that was asked for:
/// it decrements towards the beginning and increments towards the end, can be
/// pressed, belongs to the window of its container, and its bar lies along the
/// direction and below the container.
pub proof fn a_page_part_goes_the_way_that_was_asked_for(
    states: Seq<elements::RegisteredView>,
    root: elements::RegisteredView,
    direction: ScrollDirection,
    i: int,
)
    requires
        scroll::page_child(states, root, direction, i),
    ensures
        0 <= i < states.len(),
        states[i].subrole == Some(
            if backwards(direction) {
                "AXDecrementPage"@
            } else {
                "AXIncrementPage"@
            },
        ),
        states[i].actions.contains("AXPress"@),
        states[i].owner == root.owner,
        exists|bar: int|
            0 <= bar < states.len() && Some((#[trigger] states[bar]).element.identity) == (
            match states[i].parent {
                Some(parent) => Some(parent.identity),
                None => None,
            }) && states[bar].role == "AXScrollBar"@ && states[bar].orientation == Some(
                if vertical(direction) {
                    "AXVerticalOrientation"@
                } else {
                    "AXHorizontalOrientation"@
                },
            ) && scroll::descends(states, states[bar], root),
{
    let bar = choose|bar: int| #[trigger]
        scroll::scroll_bar_of(states, root, direction, states[i].parent->0.identity, bar);
    assert(states[bar].role == "AXScrollBar"@);
}

/// Every such part of a bar counts, so one that is alone is found.
pub proof fn every_page_part_counts(
    states: Seq<elements::RegisteredView>,
    root: elements::RegisteredView,
    direction: ScrollDirection,
    i: int,
    bar: int,
)
    requires
        0 <= i < states.len(),
        states[i].subrole == Some(
            if backwards(direction) {
                "AXDecrementPage"@
            } else {
                "AXIncrementPage"@
            },
        ),
        states[i].actions.contains("AXPress"@),
        states[i].owner == root.owner,
        states[i].parent is Some,
        0 <= bar < states.len(),
        states[bar].element.identity == states[i].parent->0.identity,
        states[bar].role == "AXScrollBar"@,
        states[bar].orientation == Some(
            if vertical(direction) {
                "AXVerticalOrientation"@
            } else {
                "AXHorizontalOrientation"@
            },
        ),
        scroll::descends(states, states[bar], root),
    ensures
        scroll::page_child(states, root, direction, i),
{
    assert(scroll::scroll_bar_of(states, root, direction, states[i].parent->0.identity, bar));
}

/// No part pages both ways.
pub proof fn no_part_pages_both_ways(
    states: Seq<elements::RegisteredView>,
    root: elements::RegisteredView,
    left: ScrollDirection,
    right: ScrollDirection,
    i: int,
)
    requires
        backwards(left) != backwards(right),
        scroll::page_child(states, root, left, i),
    ensures
        !scroll::page_child(states, root, right, i),
{
    reveal_strlit("AXDecrementPage");
    reveal_strlit("AXIncrementPage");
    assert("AXDecrementPage"@[2] == 'D');
    assert("AXIncrementPage"@[2] == 'I');
}

/// An element lies below itself, below its parent, and no further up than the
/// ancestry leads.
pub proof fn elements_lie_below_their_parents(
    states: Seq<elements::RegisteredView>,
    candidate: elements::RegisteredView,
    root: elements::RegisteredView,
)
    ensures
        scroll::descends(states, candidate, candidate),
        states.len() > 0 && candidate.parent is Some && candidate.parent->0.identity
            == root.element.identity ==> scroll::descends(states, candidate, root),
        candidate.parent is None && candidate.element.identity != root.element.identity
            ==> !scroll::descends(states, candidate, root),
{
}

/// The action that is handed out for a direction goes that way: the action of the
/// direction itself where the element has it, else the relative action of an
/// element that lies along the direction, towards the beginning for up and left.
pub proof fn a_direct_page_action_goes_the_way_that_was_asked_for(
    direction: ScrollDirection,
    actions: &Vec<String>,
    orientation: &Option<String>,
    action: Option<&'static str>,
)
    requires
        call_ensures(scroll::direct_page_action, (direction, actions, orientation), action),
    ensures
        action is Some ==> text::texts(actions@).contains(action->0@),
        action is Some ==> match direction {
            ScrollDirection::Up => action->0@ == "AXPageUp"@ || action->0@ == "AXDecrementPage"@,
            ScrollDirection::Left => action->0@ == "AXPageLeft"@ || action->0@
                == "AXDecrementPage"@,
            ScrollDirection::Down => action->0@ == "AXPageDown"@ || action->0@
                == "AXIncrementPage"@,
            ScrollDirection::Right => action->0@ == "AXPageRight"@ || action->0@
                == "AXIncrementPage"@,
        },
        direction == ScrollDirection::Up && text::texts(actions@).contains("AXPageUp"@)
            ==> action is Some && action->0@ == "AXPageUp"@,
        direction == ScrollDirection::Down && text::texts(actions@).contains("AXPageDown"@)
            ==> action is Some && action->0@ == "AXPageDown"@,
        direction == ScrollDirection::Left && text::texts(actions@).contains("AXPageLeft"@)
            ==> action is Some && action->0@ == "AXPageLeft"@,
        direction == ScrollDirection::Right && text::texts(actions@).contains("AXPageRight"@)
            ==> action is Some && action->0@ == "AXPageRight"@,
        backwards(direction) && text::texts(actions@).contains("AXDecrementPage"@)
            && text::optional_text(*orientation) == Some(
            if vertical(direction) {
                "AXVerticalOrientation"@
            } else {
                "AXHorizontalOrientation"@
            },
        ) ==> action is Some,
        !backwards(direction) && text::texts(actions@).contains("AXIncrementPage"@)
            && text::optional_text(*orientation) == Some(
            if vertical(direction) {
                "AXVerticalOrientation"@
            } else {
                "AXHorizontalOrientation"@
            },
        ) ==> action is Some,
{
}

} // verus!
