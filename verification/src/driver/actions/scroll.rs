//! Semantic page scrolling: a page action of the element itself, or the page
//! child of exactly one scroll bar.
use vstd::prelude::*;

use crate::contracts::ScrollDirection;
use crate::driver::elements;
use crate::driver::elements::RegisteredElementSnapshot;
use crate::driver::snapshot::RetainedAxElement;
use crate::text;
use crate::text::{holds_text, same_text};

verus! {

/// The AX action of a plain click.
pub const AX_PRESS: &'static str = "AXPress";

pub open spec fn page_action(direction: ScrollDirection) -> Seq<char> {
    match direction {
        ScrollDirection::Up => "AXPageUp"@,
        ScrollDirection::Down => "AXPageDown"@,
        ScrollDirection::Left => "AXPageLeft"@,
        ScrollDirection::Right => "AXPageRight"@,
    }
}

pub open spec fn scroll_orientation(direction: ScrollDirection) -> Seq<char> {
    match direction {
        ScrollDirection::Up | ScrollDirection::Down => "AXVerticalOrientation"@,
        ScrollDirection::Left | ScrollDirection::Right => "AXHorizontalOrientation"@,
    }
}

/// Towards the beginning or towards the end.
pub open spec fn relative_page_action(direction: ScrollDirection) -> Seq<char> {
    match direction {
        ScrollDirection::Up | ScrollDirection::Left => "AXDecrementPage"@,
        ScrollDirection::Down | ScrollDirection::Right => "AXIncrementPage"@,
    }
}

/// The action that scrolls an element by a page: the one of the direction
/// itself, else the relative one of an element that is oriented along it.
pub open spec fn page_route(
    direction: ScrollDirection,
    actions: Seq<Seq<char>>,
    orientation: Option<Seq<char>>,
) -> Option<Seq<char>> {
    if actions.contains(page_action(direction)) {
        Some(page_action(direction))
    } else if orientation == Some(scroll_orientation(direction)) && actions.contains(
        relative_page_action(direction),
    ) {
        Some(relative_page_action(direction))
    } else {
        None
    }
}

fn orientation_name(direction: ScrollDirection) -> (name: &'static str)
    ensures
        name@ == scroll_orientation(direction),
{
    match direction {
        ScrollDirection::Up | ScrollDirection::Down => "AXVerticalOrientation",
        ScrollDirection::Left | ScrollDirection::Right => "AXHorizontalOrientation",
    }
}

fn relative_name(direction: ScrollDirection) -> (name: &'static str)
    ensures
        name@ == relative_page_action(direction),
{
    match direction {
        ScrollDirection::Up | ScrollDirection::Left => "AXDecrementPage",
        ScrollDirection::Down | ScrollDirection::Right => "AXIncrementPage",
    }
}

fn is_text(value: &Option<String>, wanted: &str) -> (same: bool)
    ensures
        same == (text::optional_text(*value) == Some(wanted@)),
{
    match value {
        Some(value) => same_text(value.as_str(), wanted),
        None => false,
    }
}

pub fn direct_page_action(
    direction: ScrollDirection,
    actions: &Vec<String>,
    orientation: &Option<String>,
) -> (action: Option<&'static str>)
    ensures
        match action {
            Some(action) => page_route(
                direction,
                text::texts(actions@),
                text::optional_text(*orientation),
            ) == Some(action@),
            None => page_route(
                direction,
                text::texts(actions@),
                text::optional_text(*orientation),
            ) is None,
        },
{
    let directional: &'static str = match direction {
        ScrollDirection::Up => "AXPageUp",
        ScrollDirection::Down => "AXPageDown",
        ScrollDirection::Left => "AXPageLeft",
        ScrollDirection::Right => "AXPageRight",
    };
    if holds_text(actions, directional) {
        return Some(directional);
    }
    let relative: &'static str = relative_name(direction);
    if is_text(orientation, orientation_name(direction)) && holds_text(actions, relative) {
        Some(relative)
    } else {
        None
    }
}

/// The parent of the first element with an identity.
pub open spec fn parent_of(states: Seq<elements::RegisteredView>, identity: u64) -> Option<
    RetainedAxElement,
>
    decreases states.len(),
{
    if states.len() == 0 {
        None
    } else if states[0].element.identity == identity {
        states[0].parent
    } else {
        parent_of(states.drop_first(), identity)
    }
}

/// Whether an ancestor within a number of steps has an identity.
pub open spec fn reaches(
    states: Seq<elements::RegisteredView>,
    parent: Option<RetainedAxElement>,
    root: u64,
    steps: nat,
) -> bool
    decreases steps,
{
    if steps == 0 {
        false
    } else {
        match parent {
            None => false,
            Some(parent) => parent.identity == root || reaches(
                states,
                parent_of(states, parent.identity),
                root,
                (steps - 1) as nat,
            ),
        }
    }
}

/// How many steps an ancestry is followed.
pub open spec fn ancestry_steps(count: nat) -> nat {
    if count < 64 {
        count
    } else {
        64
    }
}

pub open spec fn descends(
    states: Seq<elements::RegisteredView>,
    candidate: elements::RegisteredView,
    root: elements::RegisteredView,
) -> bool {
    candidate.element.identity == root.element.identity || reaches(
        states,
        candidate.parent,
        root.element.identity,
        ancestry_steps(states.len()),
    )
}

fn find_parent(list: &Vec<RegisteredElementSnapshot>, identity: u64) -> (parent: Option<
    RetainedAxElement,
>)
    ensures
        parent == parent_of(elements::states_view(list@), identity),
{
    let ghost states = elements::states_view(list@);
    let mut index: usize = 0;
    assert(states.skip(0) =~= states);
    while index < list.len()
        invariant
            index <= list.len(),
            states == elements::states_view(list@),
            parent_of(states, identity) == parent_of(states.skip(index as int), identity),
        decreases list.len() - index,
    {
        assert(states.skip(index as int).drop_first() =~= states.skip(index as int + 1));
        assert(states.skip(index as int)[0] == list@[index as int]@);
        if list[index].element.identity == identity {
            return list[index].parent;
        }
        index = index + 1;
    }
    None
}

/// Whether an element is another or lies below it.
pub fn is_descendant_or_same(
    candidate: &RegisteredElementSnapshot,
    root: &RegisteredElementSnapshot,
    list: &Vec<RegisteredElementSnapshot>,
) -> (below: bool)
    ensures
        below == descends(elements::states_view(list@), candidate@, root@),
{
    if candidate.element.same_identity(&root.element) {
        return true;
    }
    let ghost states = elements::states_view(list@);
    let mut current: Option<RetainedAxElement> = candidate.parent;
    let mut left: usize = if list.len() < 64 {
        list.len()
    } else {
        64
    };
    while left > 0
        invariant
            states == elements::states_view(list@),
            candidate.element.identity != root.element.identity,
            descends(states, candidate@, root@) == reaches(
                states,
                current,
                root.element.identity,
                left as nat,
            ),
        decreases left,
    {
        let parent: RetainedAxElement = match current {
            Some(parent) => parent,
            None => {
                return false;
            },
        };
        if parent.same_identity(&root.element) {
            return true;
        }
        current = find_parent(list, parent.identity);
        left = left - 1;
    }
    false
}

/// A scroll bar of a direction that belongs to a container.
pub open spec fn scroll_bar_of(
    states: Seq<elements::RegisteredView>,
    root: elements::RegisteredView,
    direction: ScrollDirection,
    identity: u64,
    bar: int,
) -> bool {
    &&& 0 <= bar < states.len()
    &&& states[bar].element.identity == identity
    &&& states[bar].role == "AXScrollBar"@
    &&& states[bar].orientation == Some(scroll_orientation(direction))
    &&& descends(states, states[bar], root)
}

/// A pressable page part of a scroll bar of a container.
pub open spec fn page_child(
    states: Seq<elements::RegisteredView>,
    root: elements::RegisteredView,
    direction: ScrollDirection,
    i: int,
) -> bool {
    &&& 0 <= i < states.len()
    &&& states[i].subrole == Some(relative_page_action(direction))
    &&& states[i].actions.contains(AX_PRESS@)
    &&& states[i].owner == root.owner
    &&& states[i].parent matches Some(parent) && exists|bar: int| #[trigger]
        scroll_bar_of(states, root, direction, parent.identity, bar)
}

fn has_scroll_bar(
    list: &Vec<RegisteredElementSnapshot>,
    root: &RegisteredElementSnapshot,
    direction: ScrollDirection,
    parent: &RetainedAxElement,
) -> (found: bool)
    ensures
        found == exists|bar: int| #[trigger]
            scroll_bar_of(
                elements::states_view(list@),
                root@,
                direction,
                parent.identity,
                bar,
            ),
{
    let ghost states = elements::states_view(list@);
    let mut index: usize = 0;
    while index < list.len()
        invariant
            index <= list.len(),
            states == elements::states_view(list@),
            forall|bar: int|
                bar < index ==> !#[trigger] scroll_bar_of(
                    states,
                    root@,
                    direction,
                    parent.identity,
                    bar,
                ),
        decreases list.len() - index,
    {
        assert(states[index as int] == list@[index as int]@);
        if list[index].element.same_identity(parent) && same_text(
            list[index].role.as_str(),
            "AXScrollBar",
        ) && is_text(&list[index].orientation, orientation_name(direction))
            && is_descendant_or_same(&list[index], root, list) {
            assert(scroll_bar_of(states, root@, direction, parent.identity, index as int));
            return true;
        }
        index = index + 1;
    }
    false
}

/// Whether an element is the one page child of a container in a direction; none is
/// where there are several.
pub open spec fn is_the_page_child(
    states: Seq<elements::RegisteredView>,
    root: elements::RegisteredView,
    direction: ScrollDirection,
    child: Option<RegisteredElementSnapshot>,
) -> bool {
    match child {
        Some(child) => exists|i: int|
            {
                &&& #[trigger] page_child(states, root, direction, i)
                &&& child@ == states[i]
                &&& forall|j: int| #[trigger] page_child(states, root, direction, j) ==> j == i
            },
        None => (forall|i: int| !#[trigger] page_child(states, root, direction, i)) || (exists|
            i: int,
            j: int,
        |
            i != j && #[trigger] page_child(states, root, direction, i)
                && #[trigger] page_child(states, root, direction, j)),
    }
}

/// The one page child of a container in a direction; none where there are
/// several.
pub fn page_child_snapshot(
    root: &RegisteredElementSnapshot,
    list: &Vec<RegisteredElementSnapshot>,
    direction: ScrollDirection,
) -> (child: Option<RegisteredElementSnapshot>)
    ensures
        is_the_page_child(elements::states_view(list@), root@, direction, child),
{
    let ghost states = elements::states_view(list@);
    let mut found: Option<usize> = None;
    let mut index: usize = 0;
    while index < list.len()
        invariant
            index <= list.len(),
            states == elements::states_view(list@),
            match found {
                Some(at) => at < index && page_child(states, root@, direction, at as int)
                    && forall|i: int|
                    i < index && i != at ==> !#[trigger] page_child(states, root@, direction, i),
                None => forall|i: int|
                    i < index ==> !#[trigger] page_child(states, root@, direction, i),
            },
        decreases list.len() - index,
    {
        assert(states[index as int] == list@[index as int]@);
        let under_bar: bool = match &list[index].parent {
            Some(parent) => has_scroll_bar(list, root, direction, parent),
            None => false,
        };
        if under_bar && is_text(&list[index].subrole, relative_name(direction)) && holds_text(
            &list[index].actions,
            AX_PRESS,
        ) && list[index].owner.same(&root.owner) {
            assert(page_child(states, root@, direction, index as int));
            if found.is_some() {
                return None;
            }
            found = Some(index);
        } else {
            assert(!page_child(states, root@, direction, index as int));
        }
        index = index + 1;
    }
    match found {
        Some(at) => {
            assert(states[at as int] == list@[at as int]@);
            Some(list[at].clone())
        },
        None => None,
    }
}

} // verus!
