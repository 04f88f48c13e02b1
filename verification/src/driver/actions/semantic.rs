//! Semantic actions on exact AX elements: which element an action may touch,
//! what is asked of it, and what the outcome proves.
use vstd::prelude::*;

use crate::ax::bindings::{AxCfRange, AX_ERROR_ATTRIBUTE_UNSUPPORTED, AX_ERROR_SUCCESS};
use crate::contracts;
use crate::contracts::{
    ActionShape, ClickSpec, MouseButton, ResolvedWindowStamp, Route, ScrollDirection,
    SettlementSignal, VerificationLevel,
};
use crate::driver::actions;
use crate::driver::actions::scroll;
use crate::driver::actions::scroll::{direct_page_action, page_child_snapshot, AX_PRESS};
use crate::driver::actions::selection;
use crate::driver::actions::selection::{resolve_selection_range, SelectionSpec, SelectionType};
use crate::driver::actions::{begin_evidence, NativeDispatch};
use crate::driver::elements;
use crate::driver::elements::{MacElementRegistry, RegisteredElementSnapshot};
use crate::driver::interaction::MenuMutationIntent;
use crate::driver::menu::NativeMenuIdentity;
use crate::driver::snapshot::{same_ranges, RetainedAxElement, ValueRead};
use crate::errors;
use crate::errors::{ErrorCode, ErrorPhase, NativeError};
use crate::evidence;
use crate::evidence::{Detail, Fields};
use crate::text;
use crate::text::{holds_text, same_optional_text, same_text};

verus! {

pub const AX_SHOW_MENU: &'static str = "AXShowMenu";

pub const AX_OPEN: &'static str = "AXOpen";

/// How many ancestors an owner is looked for in.
pub const MAX_OWNER_DEPTH: usize = 64;

/// Nanoseconds between two looks for a menu that should open.
pub const MENU_POLL: u64 = 20_000_000;

/// Nanoseconds that a menu gets to react to one of its items.
pub const MENU_REACTION: u64 = 50_000_000;

/// Nanoseconds between two looks at a title that should change.
pub const OPEN_POLL: u64 = 10_000_000;

/// The semantic action provider, over a registry of windows.
#[derive(Debug)]
pub struct MacSemanticActions<W> {
    pub windows: W,
}

impl<W> MacSemanticActions<W> {
    pub fn new(windows: W) -> (provider: MacSemanticActions<W>)
        ensures
            provider.windows == windows,
    {
        MacSemanticActions { windows }
    }
}

/// An element as a request names it.
#[derive(Debug)]
pub struct ResolvedElement {
    pub window: ResolvedWindowStamp,
    pub owner: ResolvedWindowStamp,
    pub native: String,
    pub element_id: String,
    pub role: Option<String>,
    pub actions: Vec<String>,
}

pub open spec fn element_stale(message: Seq<char>) -> errors::ErrorView {
    errors::ErrorView::stale(ErrorCode::ElementStale, message)
}

fn stale_element(message: &str) -> (error: NativeError)
    ensures
        error@ == element_stale(message@),
{
    NativeError::stale(ErrorCode::ElementStale, message)
}

/// Every string of one list occurs in another.
pub open spec fn covered(left: Seq<Seq<char>>, right: Seq<Seq<char>>) -> bool {
    forall|i: int| 0 <= i < left.len() ==> right.contains(#[trigger] left[i])
}

/// The same strings, whatever their order and number.
pub open spec fn same_set(left: Seq<Seq<char>>, right: Seq<Seq<char>>) -> bool {
    covered(left, right) && covered(right, left)
}

fn covers(left: &Vec<String>, right: &Vec<String>) -> (all: bool)
    ensures
        all == covered(text::texts(left@), text::texts(right@)),
{
    let mut index: usize = 0;
    while index < left.len()
        invariant
            index <= left.len(),
            forall|i: int|
                0 <= i < index ==> text::texts(right@).contains(
                    #[trigger] text::texts(left@)[i],
                ),
        decreases left.len() - index,
    {
        assert(text::texts(left@)[index as int] == left@[index as int]@);
        if !holds_text(right, left[index].as_str()) {
            return false;
        }
        index = index + 1;
    }
    true
}

pub fn same_actions(left: &Vec<String>, right: &Vec<String>) -> (same: bool)
    ensures
        same == same_set(text::texts(left@), text::texts(right@)),
{
    covers(left, right) && covers(right, left)
}

/// Whether both values are absent, or both are the same value.
pub fn same_values(left: Option<u64>, right: Option<u64>) -> (same: bool)
    ensures
        same == (left == right),
{
    match (left, right) {
        (None, None) => true,
        (Some(left), Some(right)) => left == right,
        _ => false,
    }
}

/// Exact comparison of a string readback, without any normalization.
pub fn exact_typed_cfstring_readback_matches(readback: &Option<String>, expected: &str) -> (same:
    bool)
    ensures
        same == (text::optional_text(*readback) == Some(expected@)),
{
    match readback {
        Some(readback) => same_text(readback.as_str(), expected),
        None => false,
    }
}

/// Exact comparison of a selection readback: range and text.
pub fn exact_typed_selection_readback_matches(
    range_readback: Option<AxCfRange>,
    text_readback: &Option<String>,
    expected_range: AxCfRange,
    expected_text: &str,
) -> (same: bool)
    ensures
        same == (range_readback == Some(expected_range) && text::optional_text(*text_readback)
            == Some(expected_text@)),
{
    same_ranges(range_readback, Some(expected_range)) && exact_typed_cfstring_readback_matches(
        text_readback,
        expected_text,
    )
}

/// The title changed, and to the expected one.
pub fn ax_open_title_transition_matches(
    prior_title: &str,
    current_title: &str,
    expected_title: &str,
) -> (matched: bool)
    ensures
        matched == (current_title@ != prior_title@ && current_title@ == expected_title@),
{
    !same_text(current_title, prior_title) && same_text(current_title, expected_title)
}

pub open spec fn scroll_container(role: Seq<char>) -> bool {
    role == "AXScrollArea"@ || role == "AXWebArea"@ || role == "AXList"@ || role == "AXTable"@
        || role == "AXOutline"@ || role == "AXBrowser"@ || role == "AXTextArea"@
}

pub fn is_scroll_container_role(role: &str) -> (container: bool)
    ensures
        container == scroll_container(role@),
{
    same_text(role, "AXScrollArea") || same_text(role, "AXWebArea") || same_text(role, "AXList")
        || same_text(role, "AXTable") || same_text(role, "AXOutline") || same_text(
        role,
        "AXBrowser",
    ) || same_text(role, "AXTextArea")
}

/// The AX action of a click, or why there is none.
pub open spec fn action_of_click(click: ClickSpec) -> Result<Seq<char>, errors::ErrorView> {
    if click.click_count != 1 || click.modifiers@.len() > 0 {
        Err(
            errors::ErrorView::unsupported(
                "semantic macOS click supports exactly one click with no modifiers"@,
            ),
        )
    } else {
        match click.button {
            MouseButton::Left => Ok(AX_PRESS@),
            MouseButton::Right => Ok(AX_SHOW_MENU@),
            MouseButton::Middle => Err(
                errors::ErrorView::unsupported(
                    "semantic macOS click has no exact middle-button route"@,
                ),
            ),
        }
    }
}

/// The role and the subrole of the element play no part.
pub fn click_action(_role: &str, _subrole: &Option<String>, click: &ClickSpec) -> (action: Result<
    &'static str,
    NativeError,
>)
    ensures
        match action {
            Ok(action) => action_of_click(*click) == Ok::<_, errors::ErrorView>(action@),
            Err(error) => action_of_click(*click) == Err::<Seq<char>, _>(error@),
        },
{
    if click.click_count != 1 || click.modifiers.len() > 0 {
        return Err(
            NativeError::unsupported(
                "semantic macOS click supports exactly one click with no modifiers",
            ),
        );
    }
    match click.button {
        MouseButton::Left => Ok(AX_PRESS),
        MouseButton::Right => Ok(AX_SHOW_MENU),
        MouseButton::Middle => Err(
            NativeError::unsupported("semantic macOS click has no exact middle-button route"),
        ),
    }
}

pub open spec fn missing_action(action: Seq<char>) -> errors::ErrorView {
    errors::ErrorView::unsupported(
        "live macOS AX element does not expose exact action "@ + action,
    )
}

pub fn require_exact_action(actions: &Vec<String>, action: &str) -> (outcome: Result<
    (),
    NativeError,
>)
    ensures
        outcome is Ok <==> text::texts(actions@).contains(action@),
        outcome matches Err(error) ==> error@ == missing_action(action@),
{
    if holds_text(actions, action) {
        Ok(())
    } else {
        let mut message: String =
            "live macOS AX element does not expose exact action ".to_owned();
        message.push_str(action);
        Err(NativeError::unsupported(message.as_str()))
    }
}

/// A semantic action has to run in its own locked scope.
pub fn preflight_scope(
    target: &ResolvedWindowStamp,
    route: Route,
    owner: &ResolvedWindowStamp,
    window: &ResolvedWindowStamp,
    element_window: &ResolvedWindowStamp,
) -> (outcome: Result<(), NativeError>)
    ensures
        outcome is Ok <==> route is Semantic && owner@ == target@ && window@ == target@
            && element_window@ == target@,
        outcome matches Err(error) ==> error@ == errors::ErrorView::new(
            ErrorCode::Internal,
            ErrorPhase::Preflight,
            false,
            "semantic AX action entered without the exact locked interaction scope"@,
        ),
{
    if route != Route::Semantic || !owner.same(target) || !window.same(target)
        || !element_window.same(target) {
        return Err(
            NativeError::new(
                ErrorCode::Internal,
                ErrorPhase::Preflight,
                false,
                "semantic AX action entered without the exact locked interaction scope",
            ),
        );
    }
    Ok(())
}

/// What a request says of an element has to be what was registered of it.
pub open spec fn metadata_agrees(
    state: elements::RegisteredView,
    element: ResolvedElement,
) -> bool {
    &&& state.owner == element.owner@
    &&& text::optional_text(element.role) == Some(state.role)
    &&& same_set(state.actions, text::texts(element.actions@))
}

/// The first entry of a registry that has an element's names.
pub open spec fn named_first(
    registry: Seq<elements::EntryView>,
    element: ResolvedElement,
    i: int,
) -> bool {
    &&& elements::names(registry, i, element.native@, element.element_id@)
    &&& forall|j: int|
        0 <= j < i ==> !#[trigger] elements::names(
            registry,
            j,
            element.native@,
            element.element_id@,
        )
}

/// The state under which a registry has an element.
pub open spec fn registered_as(
    registry: Seq<elements::EntryView>,
    element: ResolvedElement,
    state: elements::RegisteredView,
) -> bool {
    exists|i: int| #[trigger]
        named_first(registry, element, i) && registry[i].state == state
}

/// Why an element is not resolved by its registration.
pub open spec fn registration_error(
    registry: Seq<elements::EntryView>,
    invalidated: bool,
    target: contracts::StampView,
    element: ResolvedElement,
    error: errors::ErrorView,
) -> bool {
    if invalidated {
        error == element_stale("macOS target invalidated before semantic element refetch"@)
    } else if target != element.window@ {
        error == element_stale(
            "resolved element target stamp no longer matches the locked macOS target"@,
        )
    } else {
        ||| {
            &&& forall|i: int|
                !#[trigger] elements::names(registry, i, element.native@, element.element_id@)
            &&& error == element_stale(
                "resolved element has no exact retained macOS AX identity"@,
            )
        }
        ||| {
            &&& exists|i: int| #[trigger]
                named_first(registry, element, i) && !metadata_agrees(
                    registry[i].state,
                    element,
                )
            &&& error == element_stale(
                "resolved element metadata disagrees with its retained macOS AX snapshot"@,
            )
        }
    }
}

/// The registered state of a requested element.
pub fn registered_exact(
    registry: &MacElementRegistry,
    invalidated: bool,
    target: &ResolvedWindowStamp,
    element: &ResolvedElement,
) -> (state: Result<RegisteredElementSnapshot, NativeError>)
    ensures
        match state {
            Ok(state) => {
                &&& !invalidated
                &&& target@ == element.window@
                &&& registered_as(registry@, *element, state@)
                &&& metadata_agrees(state@, *element)
            },
            Err(error) => registration_error(registry@, invalidated, target@, *element, error@),
        },
{
    if invalidated {
        return Err(stale_element("macOS target invalidated before semantic element refetch"));
    }
    if !target.same(&element.window) {
        return Err(
            stale_element(
                "resolved element target stamp no longer matches the locked macOS target",
            ),
        );
    }
    let state: RegisteredElementSnapshot = match registry.registered(
        element.native.as_str(),
        element.element_id.as_str(),
    ) {
        Some(state) => state,
        None => {
            return Err(stale_element("resolved element has no exact retained macOS AX identity"));
        },
    };
    proof {
        let at = choose|i: int|
            {
                &&& #[trigger] elements::names(registry@, i, element.native@, element.element_id@)
                &&& registry@[i].state == state@
                &&& forall|j: int|
                    0 <= j < i ==> !#[trigger] elements::names(
                        registry@,
                        j,
                        element.native@,
                        element.element_id@,
                    )
            };
        assert(named_first(registry@, *element, at));
    }
    let same_role: bool = match &element.role {
        Some(role) => same_text(role.as_str(), state.role.as_str()),
        None => false,
    };
    if !state.owner.same(&element.owner) || !same_role || !same_actions(
        &state.actions,
        &element.actions,
    ) {
        return Err(
            stale_element(
                "resolved element metadata disagrees with its retained macOS AX snapshot",
            ),
        );
    }
    Ok(state)
}

/// The states of an identity, in order.
pub open spec fn matching(states: Seq<elements::RegisteredView>, identity: u64) -> Seq<
    elements::RegisteredView,
>
    decreases states.len(),
{
    if states.len() == 0 {
        Seq::empty()
    } else if states.last().element.identity == identity {
        matching(states.drop_last(), identity).push(states.last())
    } else {
        matching(states.drop_last(), identity)
    }
}

pub open spec fn holds_identity(states: Seq<elements::RegisteredView>, identity: u64) -> bool {
    exists|i: int| 0 <= i < states.len() && (#[trigger] states[i]).element.identity == identity
}

/// Follows registered parents from the end of a chain.
pub open spec fn ancestors(
    states: Seq<elements::RegisteredView>,
    chain: Seq<elements::RegisteredView>,
    parent: Option<RetainedAxElement>,
    owner: contracts::StampView,
    steps: nat,
) -> Result<Seq<elements::RegisteredView>, errors::ErrorView>
    decreases steps,
{
    match parent {
        None => Ok(chain),
        Some(parent) => if steps == 0 {
            Err(
                element_stale(
                    "retained AX scroll ancestor chain exceeded its bounded identity proof"@,
                ),
            )
        } else if holds_identity(chain, parent.identity) {
            Err(
                element_stale("retained AX scroll ancestor chain contains an identity cycle"@),
            )
        } else {
            let found = matching(states, parent.identity);
            if found.len() == 0 {
                Ok(chain)
            } else if found.len() > 1 || found[0].owner != owner {
                Err(
                    element_stale(
                        "retained AX scroll ancestor identity was not unique in the exact owner"@,
                    ),
                )
            } else {
                ancestors(
                    states,
                    chain.push(found[0]),
                    found[0].parent,
                    owner,
                    (steps - 1) as nat,
                )
            }
        },
    }
}

/// The first state of an identity, and whether there is another.
fn find_matching(list: &Vec<RegisteredElementSnapshot>, identity: u64) -> (found: (
    Option<usize>,
    bool,
))
    ensures
        ({
            let states = matching(elements::states_view(list@), identity);
            match found.0 {
                Some(at) => at < list@.len() && states.len() >= 1 && states[0] == list@[at as int]@
                    && found.1 == (states.len() > 1),
                None => states.len() == 0,
            }
        }),
{
    let ghost all = elements::states_view(list@);
    let mut first: Option<usize> = None;
    let mut more: bool = false;
    let mut index: usize = 0;
    while index < list.len()
        invariant
            index <= list.len(),
            all == elements::states_view(list@),
            ({
                let states = matching(all.take(index as int), identity);
                match first {
                    Some(at) => at < index && states.len() >= 1 && states[0] == list@[at as int]@
                        && more == (states.len() > 1),
                    None => states.len() == 0 && !more,
                }
            }),
        decreases list.len() - index,
    {
        assert(all.take(index as int + 1).drop_last() =~= all.take(index as int));
        assert(all.take(index as int + 1).last() == list@[index as int]@);
        if list[index].element.identity == identity {
            if first.is_some() {
                more = true;
            } else {
                first = Some(index);
            }
        }
        index = index + 1;
    }
    assert(all.take(index as int) =~= all);
    (first, more)
}

fn has_identity(list: &Vec<RegisteredElementSnapshot>, identity: u64) -> (found: bool)
    ensures
        found == holds_identity(elements::states_view(list@), identity),
{
    let ghost states = elements::states_view(list@);
    let mut index: usize = 0;
    while index < list.len()
        invariant
            index <= list.len(),
            states == elements::states_view(list@),
            forall|i: int|
                0 <= i < index ==> (#[trigger] states[i]).element.identity != identity,
        decreases list.len() - index,
    {
        assert(states[index as int] == list@[index as int]@);
        if list[index].element.identity == identity {
            return true;
        }
        index = index + 1;
    }
    false
}

/// An element with its registered ancestors, nearest first.
pub open spec fn ancestor_chain(
    requested: elements::RegisteredView,
    states: Seq<elements::RegisteredView>,
) -> Result<Seq<elements::RegisteredView>, errors::ErrorView> {
    ancestors(
        states,
        seq![requested],
        requested.parent,
        requested.owner,
        MAX_OWNER_DEPTH as nat,
    )
}

pub fn retained_ancestor_chain(
    requested: &RegisteredElementSnapshot,
    list: &Vec<RegisteredElementSnapshot>,
) -> (chain: Result<Vec<RegisteredElementSnapshot>, NativeError>)
    ensures
        match chain {
            Ok(chain) => ancestor_chain(requested@, elements::states_view(list@)) == Ok::<
                _,
                errors::ErrorView,
            >(elements::states_view(chain@)),
            Err(error) => ancestor_chain(requested@, elements::states_view(list@)) == Err::<
                Seq<elements::RegisteredView>,
                _,
            >(error@),
        },
{
    let ghost states = elements::states_view(list@);
    let mut chain: Vec<RegisteredElementSnapshot> = Vec::new();
    chain.push(requested.clone());
    assert(elements::states_view(chain@) =~= seq![requested@]);
    let mut parent: Option<RetainedAxElement> = requested.parent;
    let mut left: usize = MAX_OWNER_DEPTH;
    while left > 0
        invariant
            left <= MAX_OWNER_DEPTH,
            states == elements::states_view(list@),
            ancestor_chain(requested@, states) == ancestors(
                states,
                elements::states_view(chain@),
                parent,
                requested@.owner,
                left as nat,
            ),
        decreases left,
    {
        let identity: u64 = match parent {
            Some(parent) => parent.identity,
            None => {
                return Ok(chain);
            },
        };
        if has_identity(&chain, identity) {
            return Err(
                stale_element("retained AX scroll ancestor chain contains an identity cycle"),
            );
        }
        let (first, more): (Option<usize>, bool) = find_matching(list, identity);
        let at: usize = match first {
            Some(at) => at,
            None => {
                return Ok(chain);
            },
        };
        if more || !list[at].owner.same(&requested.owner) {
            return Err(
                stale_element(
                    "retained AX scroll ancestor identity was not unique in the exact owner",
                ),
            );
        }
        let ghost before = elements::states_view(chain@);
        parent = list[at].parent;
        chain.push(list[at].clone());
        assert(elements::states_view(chain@) =~= before.push(list@[at as int]@));
        left = left - 1;
    }
    if parent.is_some() {
        return Err(
            stale_element("retained AX scroll ancestor chain exceeded its bounded identity proof"),
        );
    }
    Ok(chain)
}

/// Whether an action can take the semantic route.
#[derive(Debug)]
pub enum Candidate {
    Prepared,
    NotApplicable { reason: &'static str },
}

/// Whether a click on a live element can be an AX press.
pub fn element_click_candidate(live: &RegisteredElementSnapshot, click: &ClickSpec) -> (candidate:
    Candidate)
    ensures
        match action_of_click(*click) {
            Err(_) => candidate matches Candidate::NotApplicable { reason } && reason@
                == "element click shape has no exact semantic primitive"@,
            Ok(action) => if action == AX_PRESS@ && live@.actions.contains(AX_PRESS@) {
                candidate is Prepared
            } else {
                candidate matches Candidate::NotApplicable { reason } && reason@
                    == "element does not retain an exact usable AXPress action"@
            },
        },
{
    match click_action(live.role.as_str(), &live.subrole, click) {
        Err(_) => Candidate::NotApplicable {
            reason: "element click shape has no exact semantic primitive",
        },
        Ok(action) => if same_text(action, AX_PRESS) && holds_text(&live.actions, AX_PRESS) {
            Candidate::Prepared
        } else {
            Candidate::NotApplicable {
                reason: "element does not retain an exact usable AXPress action",
            }
        },
    }
}

/// Where a page scroll goes.
#[derive(Debug)]
pub struct PageRoute {
    pub element: RegisteredElementSnapshot,
    pub action: &'static str,
    /// The page child of a scroll bar, rather than the element itself.
    pub scrollbar_child: bool,
}

/// One container has exactly one page child in a direction.
pub open spec fn only_page_child(
    states: Seq<elements::RegisteredView>,
    root: elements::RegisteredView,
    direction: ScrollDirection,
    i: int,
) -> bool {
    scroll::page_child(states, root, direction, i) && forall|j: int| #[trigger]
        scroll::page_child(states, root, direction, j) ==> j == i
}

/// An element that a page scroll can use: by its own action, or as a container
/// by its one page child.
pub open spec fn scrolls(
    states: Seq<elements::RegisteredView>,
    candidate: elements::RegisteredView,
    direction: ScrollDirection,
) -> bool {
    scroll::page_route(direction, candidate.actions, candidate.orientation) is Some || (
    scroll_container(candidate.role) && exists|i: int| #[trigger]
        only_page_child(states, candidate, direction, i))
}

/// What a page scroll through an element uses.
pub open spec fn routes_to(
    states: Seq<elements::RegisteredView>,
    candidate: elements::RegisteredView,
    direction: ScrollDirection,
    route: PageRoute,
) -> bool {
    match scroll::page_route(direction, candidate.actions, candidate.orientation) {
        Some(action) => !route.scrollbar_child && route.action@ == action && route.element@
            == candidate,
        None => route.scrollbar_child && route.action@ == AX_PRESS@ && scroll_container(
            candidate.role,
        ) && exists|i: int| #[trigger]
            only_page_child(states, candidate, direction, i) && states[i] == route.element@,
    }
}

/// The first link of a chain that a page scroll can use.
pub open spec fn first_scrolling(
    states: Seq<elements::RegisteredView>,
    chain: Seq<elements::RegisteredView>,
    direction: ScrollDirection,
    at: int,
) -> bool {
    &&& 0 <= at < chain.len()
    &&& scrolls(states, chain[at], direction)
    &&& forall|i: int| 0 <= i < at ==> !scrolls(states, #[trigger] chain[i], direction)
}

/// No link of a chain can be used by a page scroll.
pub open spec fn none_scrolls(
    states: Seq<elements::RegisteredView>,
    chain: Seq<elements::RegisteredView>,
    direction: ScrollDirection,
) -> bool {
    forall|i: int| 0 <= i < chain.len() ==> !scrolls(states, #[trigger] chain[i], direction)
}

/// Some link of a chain can be used by a page scroll.
pub open spec fn can_scroll(
    states: Seq<elements::RegisteredView>,
    chain: Seq<elements::RegisteredView>,
    direction: ScrollDirection,
) -> bool {
    exists|at: int| #[trigger] first_scrolling(states, chain, direction, at)
}

/// A route goes through the first link that a page scroll can use.
pub open spec fn takes_first(
    states: Seq<elements::RegisteredView>,
    chain: Seq<elements::RegisteredView>,
    direction: ScrollDirection,
    route: PageRoute,
) -> bool {
    exists|at: int| #[trigger]
        first_scrolling(states, chain, direction, at) && routes_to(
            states,
            chain[at],
            direction,
            route,
        )
}

/// The route of a page scroll along a chain of ancestors.
pub fn scroll_route(
    chain: &Vec<RegisteredElementSnapshot>,
    list: &Vec<RegisteredElementSnapshot>,
    direction: ScrollDirection,
) -> (route: Option<PageRoute>)
    ensures
        ({
            let states = elements::states_view(list@);
            let links = elements::states_view(chain@);
            match route {
                Some(route) => takes_first(states, links, direction, route),
                None => none_scrolls(states, links, direction),
            }
        }),
{
    let ghost states = elements::states_view(list@);
    let ghost links = elements::states_view(chain@);
    let mut index: usize = 0;
    while index < chain.len()
        invariant
            index <= chain.len(),
            states == elements::states_view(list@),
            links == elements::states_view(chain@),
            forall|i: int| 0 <= i < index ==> !scrolls(states, #[trigger] links[i], direction),
        decreases chain.len() - index,
    {
        assert(links[index as int] == chain@[index as int]@);
        if let Some(action) = direct_page_action(
            direction,
            &chain[index].actions,
            &chain[index].orientation,
        ) {
            assert(first_scrolling(states, links, direction, index as int));
            return Some(
                PageRoute { element: chain[index].clone(), action, scrollbar_child: false },
            );
        }
        if is_scroll_container_role(chain[index].role.as_str()) {
            if let Some(child) = page_child_snapshot(&chain[index], list, direction) {
                proof {
                    let i = choose|i: int|
                        {
                            &&& #[trigger] scroll::page_child(
                                states,
                                links[index as int],
                                direction,
                                i,
                            )
                            &&& child@ == states[i]
                            &&& forall|j: int| #[trigger]
                                scroll::page_child(states, links[index as int], direction, j)
                                    ==> j == i
                        };
                    assert(only_page_child(states, links[index as int], direction, i));
                    assert(first_scrolling(states, links, direction, index as int));
                }
                return Some(PageRoute { element: child, action: AX_PRESS, scrollbar_child: true });
            }
            assert(!scrolls(states, links[index as int], direction)) by {
                assert forall|i: int|
                    !#[trigger] only_page_child(states, links[index as int], direction, i) by {
                    if scroll::page_child(states, links[index as int], direction, i) {
                        let (a, b) = choose|a: int, b: int|
                            a != b && #[trigger] scroll::page_child(
                                states,
                                links[index as int],
                                direction,
                                a,
                            ) && #[trigger] scroll::page_child(
                                states,
                                links[index as int],
                                direction,
                                b,
                            );
                        assert(a != i || b != i);
                    }
                }
            }
        }
        index = index + 1;
    }
    None
}

/// Whether a page scroll can be semantic. `pages` is the page count where it is
/// a positive whole number that fits.
pub fn element_scroll_candidate(
    pages: Option<u16>,
    requested: &RegisteredElementSnapshot,
    list: &Vec<RegisteredElementSnapshot>,
    direction: ScrollDirection,
) -> (candidate: Result<Candidate, NativeError>)
    ensures
        pages is None ==> (candidate matches Ok(Candidate::NotApplicable { reason }) && reason@
            == "fractional or oversized page count requires targeted page scroll"@),
        pages is Some ==> match ancestor_chain(requested@, elements::states_view(list@)) {
            Err(cycle) => candidate matches Err(error) && error@ == cycle,
            Ok(links) => candidate is Ok && (candidate->Ok_0 is Prepared <==> can_scroll(
                elements::states_view(list@),
                links,
                direction,
            )),
        },
        pages is Some ==> (candidate matches Ok(Candidate::NotApplicable { reason }) ==> reason@
            == "element and retained ancestors expose no exact semantic page action"@),
{
    if pages.is_none() {
        return Ok(
            Candidate::NotApplicable {
                reason: "fractional or oversized page count requires targeted page scroll",
            },
        );
    }
    let chain: Vec<RegisteredElementSnapshot> = match retained_ancestor_chain(requested, list) {
        Ok(chain) => chain,
        Err(error) => {
            return Err(error);
        },
    };
    let ghost links = elements::states_view(chain@);
    let ghost states = elements::states_view(list@);
    assert(ancestor_chain(requested@, states) == Ok::<_, errors::ErrorView>(links));
    match scroll_route(&chain, list, direction) {
        Some(route) => {
            let ghost at = choose|at: int| #[trigger]
                first_scrolling(states, links, direction, at) && routes_to(
                    states,
                    links[at],
                    direction,
                    route,
                );
            assert(first_scrolling(states, links, direction, at));
            assert(can_scroll(states, links, direction));
            Ok(Candidate::Prepared)
        },
        None => {
            assert forall|at: int| !#[trigger] first_scrolling(states, links, direction, at) by {
                if first_scrolling(states, links, direction, at) {
                    assert(scrolls(states, links[at], direction));
                }
            }
            assert(!can_scroll(states, links, direction));
            Ok(
                Candidate::NotApplicable {
                    reason: "element and retained ancestors expose no exact semantic page action",
                },
            )
        },
    }
}

pub open spec fn direction_text(direction: ScrollDirection) -> Seq<char> {
    match direction {
        ScrollDirection::Up => "Up"@,
        ScrollDirection::Down => "Down"@,
        ScrollDirection::Left => "Left"@,
        ScrollDirection::Right => "Right"@,
    }
}

fn direction_name(direction: ScrollDirection) -> (name: &'static str)
    ensures
        name@ == direction_text(direction),
{
    match direction {
        ScrollDirection::Up => "Up",
        ScrollDirection::Down => "Down",
        ScrollDirection::Left => "Left",
        ScrollDirection::Right => "Right",
    }
}

/// No element on the way up can scroll by a page.
pub fn unsupported_scroll(direction: ScrollDirection) -> (error: NativeError)
    ensures
        error@ == errors::ErrorView::unsupported(
            "macOS element exposes neither an exact "@ + direction_text(direction)
                + " page action nor one unique exact scrollbar page child"@,
        ),
{
    let mut message: String = "macOS element exposes neither an exact ".to_owned();
    message.push_str(direction_name(direction));
    message.push_str(" page action nor one unique exact scrollbar page child");
    NativeError::unsupported(message.as_str())
}

/// The route that a page scroll is prepared with, before its element is
/// fetched again.
pub fn prepare_scroll_route(
    requested: &RegisteredElementSnapshot,
    list: &Vec<RegisteredElementSnapshot>,
    direction: ScrollDirection,
) -> (route: Result<PageRoute, NativeError>)
    ensures
        match ancestor_chain(requested@, elements::states_view(list@)) {
            Err(cycle) => route matches Err(error) && error@ == cycle,
            Ok(links) => route is Ok <==> can_scroll(
                elements::states_view(list@),
                links,
                direction,
            ),
        },
        route matches Ok(route) ==> takes_first(
            elements::states_view(list@),
            ancestor_chain(requested@, elements::states_view(list@))->Ok_0,
            direction,
            route,
        ),
        route is Err && ancestor_chain(requested@, elements::states_view(list@)) is Ok
            ==> route->Err_0@ == errors::ErrorView::unsupported(
            "macOS element exposes neither an exact "@ + direction_text(direction)
                + " page action nor one unique exact scrollbar page child"@,
        ),
{
    let chain: Vec<RegisteredElementSnapshot> = match retained_ancestor_chain(requested, list) {
        Ok(chain) => chain,
        Err(error) => {
            return Err(error);
        },
    };
    let ghost links = elements::states_view(chain@);
    let ghost states = elements::states_view(list@);
    assert(ancestor_chain(requested@, states) == Ok::<_, errors::ErrorView>(links));
    match scroll_route(&chain, list, direction) {
        Some(route) => {
            let ghost at = choose|at: int| #[trigger]
                first_scrolling(states, links, direction, at) && routes_to(
                    states,
                    links[at],
                    direction,
                    route,
                );
            assert(first_scrolling(states, links, direction, at));
            assert(can_scroll(states, links, direction));
            Ok(route)
        },
        None => {
            assert forall|at: int| !#[trigger] first_scrolling(states, links, direction, at) by {
                if first_scrolling(states, links, direction, at) {
                    assert(scrolls(states, links[at], direction));
                }
            }
            assert(!can_scroll(states, links, direction));
            Err(unsupported_scroll(direction))
        },
    }
}

/// A page scroll finds a way up a chain exactly when some link of it scrolls.
pub proof fn any_scrolling_link_is_found(
    states: Seq<elements::RegisteredView>,
    chain: Seq<elements::RegisteredView>,
    direction: ScrollDirection,
)
    ensures
        can_scroll(states, chain, direction) <==> exists|i: int|
            0 <= i < chain.len() && scrolls(states, #[trigger] chain[i], direction),
{
    if exists|i: int| 0 <= i < chain.len() && scrolls(states, #[trigger] chain[i], direction) {
        let i = choose|i: int|
            0 <= i < chain.len() && scrolls(states, #[trigger] chain[i], direction);
        nearest_scrolling_link(states, chain, direction, i);
    }
    if can_scroll(states, chain, direction) {
        let at = choose|at: int| #[trigger] first_scrolling(states, chain, direction, at);
        assert(scrolls(states, chain[at], direction));
    }
}

proof fn nearest_scrolling_link(
    states: Seq<elements::RegisteredView>,
    chain: Seq<elements::RegisteredView>,
    direction: ScrollDirection,
    i: int,
)
    requires
        0 <= i < chain.len(),
        scrolls(states, chain[i], direction),
    ensures
        can_scroll(states, chain, direction),
    decreases i,
{
    if exists|j: int| 0 <= j < i && scrolls(states, #[trigger] chain[j], direction) {
        let j = choose|j: int| 0 <= j < i && scrolls(states, #[trigger] chain[j], direction);
        nearest_scrolling_link(states, chain, direction, j);
    } else {
        assert(first_scrolling(states, chain, direction, i));
    }
}

/// The positions of an identity among some elements.
pub open spec fn identity_at(list: Seq<RetainedAxElement>, identity: u64, i: int) -> bool {
    0 <= i < list.len() && list[i].identity == identity
}

/// Exactly one of some elements has an identity, and it is this one.
pub open spec fn sole_child(
    list: Seq<RetainedAxElement>,
    identity: u64,
    element: RetainedAxElement,
) -> bool {
    exists|i: int|
        {
            &&& #[trigger] identity_at(list, identity, i)
            &&& list[i] == element
            &&& forall|j: int| #[trigger] identity_at(list, identity, j) ==> j == i
        }
}

pub open spec fn no_child(list: Seq<RetainedAxElement>, identity: u64) -> bool {
    forall|i: int| !#[trigger] identity_at(list, identity, i)
}

pub open spec fn several_children(list: Seq<RetainedAxElement>, identity: u64) -> bool {
    exists|i: int, j: int|
        i != j && #[trigger] identity_at(list, identity, i) && #[trigger] identity_at(
            list,
            identity,
            j,
        )
}

/// An element has to be exactly one of its parent's children.
pub fn exact_child_of(children: &Vec<RetainedAxElement>, expected: &RetainedAxElement) -> (child:
    Result<RetainedAxElement, NativeError>)
    ensures
        match child {
            Ok(child) => sole_child(children@, expected.identity, child),
            Err(error) => {
                ||| {
                    &&& no_child(children@, expected.identity)
                    &&& error@ == element_stale(
                        "retained AX element is no longer an exact child of its observed parent"@,
                    )
                }
                ||| {
                    &&& several_children(children@, expected.identity)
                    &&& error@ == element_stale(
                        "AX parent returned duplicate CFEqual child identities"@,
                    )
                }
            },
        },
{
    let mut found: Option<usize> = None;
    let mut index: usize = 0;
    while index < children.len()
        invariant
            index <= children.len(),
            match found {
                Some(at) => at < index && identity_at(children@, expected.identity, at as int)
                    && forall|i: int|
                    i < index && i != at ==> !#[trigger] identity_at(
                        children@,
                        expected.identity,
                        i,
                    ),
                None => forall|i: int|
                    i < index ==> !#[trigger] identity_at(children@, expected.identity, i),
            },
        decreases children.len() - index,
    {
        if children[index].same_identity(expected) {
            assert(identity_at(children@, expected.identity, index as int));
            if found.is_some() {
                return Err(stale_element("AX parent returned duplicate CFEqual child identities"));
            }
            found = Some(index);
        }
        index = index + 1;
    }
    match found {
        Some(at) => Ok(children[at]),
        None => Err(
            stale_element("retained AX element is no longer an exact child of its observed parent"),
        ),
    }
}

/// A window of an application with its native id.
#[derive(Debug, Clone, Copy, PartialEq, Eq, Structural)]
pub struct ApplicationWindow {
    pub element: RetainedAxElement,
    pub window_id: Option<u32>,
}

pub open spec fn window_at(windows: Seq<ApplicationWindow>, window_id: u32, i: int) -> bool {
    0 <= i < windows.len() && windows[i].window_id == Some(window_id)
}

/// Exactly one of some windows has a native id, and it is this one.
pub open spec fn sole_window(
    windows: Seq<ApplicationWindow>,
    window_id: u32,
    element: RetainedAxElement,
) -> bool {
    exists|i: int|
        {
            &&& #[trigger] window_at(windows, window_id, i)
            &&& windows[i].element == element
            &&& forall|j: int| #[trigger] window_at(windows, window_id, j) ==> j == i
        }
}

pub open spec fn no_window(windows: Seq<ApplicationWindow>, window_id: u32) -> bool {
    forall|i: int| !#[trigger] window_at(windows, window_id, i)
}

pub open spec fn several_windows(windows: Seq<ApplicationWindow>, window_id: u32) -> bool {
    exists|i: int, j: int|
        i != j && #[trigger] window_at(windows, window_id, i) && #[trigger] window_at(
            windows,
            window_id,
            j,
        )
}

/// The one AX window of a native window.
pub fn exact_ax_window(
    application_available: bool,
    windows: &Vec<ApplicationWindow>,
    window_id: u32,
) -> (window: Result<RetainedAxElement, NativeError>)
    ensures
        match window {
            Ok(window) => application_available && sole_window(windows@, window_id, window),
            Err(error) => if !application_available {
                error@ == element_stale(
                    "macOS AX application root disappeared during exact refetch"@,
                )
            } else {
                ||| {
                    &&& no_window(windows@, window_id)
                    &&& error@ == element_stale(
                        "exact macOS AX owner window disappeared during refetch"@,
                    )
                }
                ||| {
                    &&& several_windows(windows@, window_id)
                    &&& error@ == element_stale(
                        "macOS AX returned multiple windows for one exact WindowServer id"@,
                    )
                }
            },
        },
{
    if !application_available {
        return Err(stale_element("macOS AX application root disappeared during exact refetch"));
    }
    let mut found: Option<usize> = None;
    let mut index: usize = 0;
    while index < windows.len()
        invariant
            index <= windows.len(),
            application_available,
            match found {
                Some(at) => at < index && window_at(windows@, window_id, at as int) && forall|
                    i: int,
                |
                    i < index && i != at ==> !#[trigger] window_at(windows@, window_id, i),
                None => forall|i: int|
                    i < index ==> !#[trigger] window_at(windows@, window_id, i),
            },
        decreases windows.len() - index,
    {
        let wanted: bool = match windows[index].window_id {
            Some(id) => id == window_id,
            None => false,
        };
        if wanted {
            assert(window_at(windows@, window_id, index as int));
            if found.is_some() {
                return Err(
                    stale_element(
                        "macOS AX returned multiple windows for one exact WindowServer id",
                    ),
                );
            }
            found = Some(index);
        }
        index = index + 1;
    }
    match found {
        Some(at) => Ok(windows[at].element),
        None => Err(stale_element("exact macOS AX owner window disappeared during refetch")),
    }
}

pub open spec fn ax_stale(operation: Seq<char>, status: i32) -> errors::ErrorView {
    element_stale(operation + " failed while proving exact macOS AX identity"@).with(
        "ax_error"@,
        evidence::DetailView::Int(status as int),
    )
}

pub fn ax_stale_error(operation: &str, status: i32) -> (error: NativeError)
    ensures
        error@ == ax_stale(operation@, status),
{
    let mut message: String = operation.to_owned();
    message.push_str(" failed while proving exact macOS AX identity");
    stale_element(message.as_str()).with_int("ax_error", status as i128)
}

/// The walk from a live element to the window that owns it.
#[derive(Debug, Clone, Copy, PartialEq, Eq, Structural)]
pub struct OwnerWalk {
    pub current: RetainedAxElement,
    pub steps: usize,
}

impl OwnerWalk {
    pub fn begin(element: RetainedAxElement) -> (walk: OwnerWalk)
        ensures
            walk.current == element,
            walk.steps == 0,
    {
        OwnerWalk { current: element, steps: 0 }
    }

    /// Follows the parent of an element that has no window of its own.
    pub fn ascend(&mut self, parent: Result<Option<RetainedAxElement>, i32>) -> (outcome: Result<
        (),
        NativeError,
    >)
        requires
            old(self).steps < MAX_OWNER_DEPTH,
        ensures
            match parent {
                Err(status) => outcome matches Err(error) && error@ == ax_stale(
                    "AX owner parent-chain refetch"@,
                    status,
                ),
                Ok(None) => outcome matches Err(error) && error@ == element_stale(
                    "live AX parent chain ended before an exact owner window"@,
                ),
                Ok(Some(parent)) => if parent.identity == old(self).current.identity {
                    outcome matches Err(error) && error@ == element_stale(
                        "live AX parent chain contains an identity cycle"@,
                    )
                } else {
                    &&& final(self).current == parent
                    &&& final(self).steps == old(self).steps + 1
                    &&& match outcome {
                        Ok(_) => final(self).steps < MAX_OWNER_DEPTH,
                        Err(error) => final(self).steps == MAX_OWNER_DEPTH && error@
                            == element_stale(
                            "live AX parent chain exceeded the bounded owner-depth proof"@,
                        ),
                    }
                },
            },
    {
        match parent {
            Err(status) => Err(ax_stale_error("AX owner parent-chain refetch", status)),
            Ok(None) => Err(
                stale_element("live AX parent chain ended before an exact owner window"),
            ),
            Ok(Some(parent)) => {
                if parent.same_identity(&self.current) {
                    return Err(stale_element("live AX parent chain contains an identity cycle"));
                }
                self.current = parent;
                self.steps = self.steps + 1;
                if self.steps >= MAX_OWNER_DEPTH {
                    return Err(
                        stale_element("live AX parent chain exceeded the bounded owner-depth proof"),
                    );
                }
                Ok(())
            },
        }
    }
}

/// What a live element says of itself.
#[derive(Debug)]
pub struct LiveElement {
    /// `None` where the role could not be read exactly.
    pub role: Option<String>,
    pub subrole: Option<String>,
    pub orientation: Option<String>,
    pub value: ValueRead,
    pub value_settable: Option<bool>,
    pub selected_text_range: Option<AxCfRange>,
    pub selected_text_range_settable: Option<bool>,
    /// `None` where the actions could not be read exactly.
    pub actions: Option<Vec<String>>,
}

impl LiveElement {
    pub open spec fn value_proof(&self) -> Option<u64> {
        match self.value {
            ValueRead::Present { proof, .. } => Some(proof),
            _ => None,
        }
    }

    pub open spec fn string_value(&self) -> Option<Seq<char>> {
        match self.value {
            ValueRead::Present { text, .. } => text::optional_text(text),
            _ => None,
        }
    }

    /// The selection counts only where there is a string.
    pub open spec fn range(&self) -> Option<AxCfRange> {
        if self.string_value() is Some {
            self.selected_text_range
        } else {
            None
        }
    }

    /// The live element is what was registered of it.
    pub open spec fn proves(&self, state: elements::RegisteredView) -> bool {
        &&& state.role_proven
        &&& text::optional_text(self.role) == Some(state.role)
        &&& text::optional_text(self.subrole) == state.subrole
        &&& text::optional_text(self.orientation) == state.orientation
        &&& state.value_query_proven
        &&& !(self.value is Failed)
        &&& self.value_proof() == state.value_proof
        &&& self.string_value() == state.string_value
        &&& state.value_settable == if self.value_proof() is Some {
            self.value_settable
        } else {
            None
        }
        &&& self.range() == state.selected_text_range
        &&& state.selected_text_range_settable == if self.range() is Some {
            self.selected_text_range_settable
        } else {
            None
        }
        &&& state.actions_proven
        &&& self.actions matches Some(actions) && same_set(text::texts(actions@), state.actions)
    }

    fn matches_state(&self, state: &RegisteredElementSnapshot) -> (proved: bool)
        ensures
            proved == self.proves(state@),
    {
        let (value_proof, read, string_value): (Option<u64>, bool, Option<&String>) =
            match &self.value {
            ValueRead::Failed => (None, false, None),
            ValueRead::Absent => (None, true, None),
            ValueRead::Present { proof, text } => (Some(*proof), true, text.as_ref()),
        };
        let same_role: bool = match &self.role {
            Some(role) => same_text(role.as_str(), state.role.as_str()),
            None => false,
        };
        let same_string: bool = match (string_value, &state.string_value) {
            (Some(left), Some(right)) => same_text(left.as_str(), right.as_str()),
            (None, None) => true,
            _ => false,
        };
        let value_settable: Option<bool> = if value_proof.is_some() {
            self.value_settable
        } else {
            None
        };
        let range: Option<AxCfRange> = if string_value.is_some() {
            self.selected_text_range
        } else {
            None
        };
        let range_settable: Option<bool> = if range.is_some() {
            self.selected_text_range_settable
        } else {
            None
        };
        let same_names: bool = match &self.actions {
            Some(actions) => same_actions(actions, &state.actions),
            None => false,
        };
        state.role_proven && same_role && same_optional_text(&self.subrole, &state.subrole)
            && same_optional_text(&self.orientation, &state.orientation)
            && state.value_query_proven && read && same_values(value_proof, state.value_proof)
            && same_string && same_flags(value_settable, state.value_settable) && same_ranges(
            range,
            state.selected_text_range,
        ) && same_flags(range_settable, state.selected_text_range_settable) && state.actions_proven
            && same_names
    }
}

fn same_flags(left: Option<bool>, right: Option<bool>) -> (same: bool)
    ensures
        same == (left == right),
{
    match (left, right) {
        (Some(left), Some(right)) => left == right,
        (None, None) => true,
        _ => false,
    }
}

/// What was read to fetch a registered element again.
#[derive(Debug)]
pub struct RefetchReads {
    /// The native id of the window that the registry gives for the owner.
    pub owner_window_id: u32,
    /// The live parent, where one was registered.
    pub parent: Result<Option<RetainedAxElement>, i32>,
    /// The children of the live parent.
    pub children: Vec<RetainedAxElement>,
    pub application_available: bool,
    /// The windows of the application, where no parent was registered.
    pub windows: Vec<ApplicationWindow>,
    /// The window that the live element's ancestry reaches.
    pub live_owner: Result<u32, NativeError>,
    pub live: LiveElement,
}

/// Fetches a registered element by its place: through its registered parent, or
/// as the window itself.
fn refetch_place(state: &RegisteredElementSnapshot, reads: &RefetchReads) -> (place: Result<
    RetainedAxElement,
    NativeError,
>)
    ensures
        match place {
            Ok(element) => found_in_place(state@, *reads, element),
            Err(error) => lost_place(state@, *reads, error@),
        },
{
    match &state.parent {
        Some(expected) => {
            let current: RetainedAxElement = match &reads.parent {
                Err(status) => {
                    return Err(ax_stale_error("AXParent refetch", *status));
                },
                Ok(None) => {
                    return Err(stale_element("retained AX element lost its observed parent"));
                },
                Ok(Some(parent)) => *parent,
            };
            if !current.same_identity(expected) {
                return Err(stale_element("retained AX element parent identity changed"));
            }
            exact_child_of(&reads.children, &state.element)
        },
        None => {
            let window: RetainedAxElement = match exact_ax_window(
                reads.application_available,
                &reads.windows,
                reads.owner_window_id,
            ) {
                Ok(window) => window,
                Err(error) => {
                    return Err(error);
                },
            };
            if !window.same_identity(&state.element) {
                return Err(
                    stale_element(
                        "retained root AX identity no longer matches the exact owner window",
                    ),
                );
            }
            Ok(window)
        },
    }
}

/// The element stands where it was registered: it is the one child of its
/// registered parent, or the one window of its owner.
pub open spec fn found_in_place(
    state: elements::RegisteredView,
    reads: RefetchReads,
    element: RetainedAxElement,
) -> bool {
    match state.parent {
        Some(expected) => {
            &&& reads.parent matches Ok(Some(parent)) && parent.identity == expected.identity
            &&& sole_child(reads.children@, state.element.identity, element)
        },
        None => {
            &&& reads.application_available
            &&& element.identity == state.element.identity
            &&& sole_window(reads.windows@, reads.owner_window_id, element)
        },
    }
}

/// Why an element does not stand where it was registered.
pub open spec fn lost_place(
    state: elements::RegisteredView,
    reads: RefetchReads,
    error: errors::ErrorView,
) -> bool {
    match state.parent {
        Some(expected) => match reads.parent {
            Err(status) => error == ax_stale("AXParent refetch"@, status),
            Ok(None) => error == element_stale("retained AX element lost its observed parent"@),
            Ok(Some(parent)) => if parent.identity != expected.identity {
                error == element_stale("retained AX element parent identity changed"@)
            } else {
                ||| {
                    &&& no_child(reads.children@, state.element.identity)
                    &&& error == element_stale(
                        "retained AX element is no longer an exact child of its observed parent"@,
                    )
                }
                ||| {
                    &&& several_children(reads.children@, state.element.identity)
                    &&& error == element_stale(
                        "AX parent returned duplicate CFEqual child identities"@,
                    )
                }
            },
        },
        None => if !reads.application_available {
            error == element_stale(
                "macOS AX application root disappeared during exact refetch"@,
            )
        } else {
            ||| {
                &&& no_window(reads.windows@, reads.owner_window_id)
                &&& error == element_stale(
                    "exact macOS AX owner window disappeared during refetch"@,
                )
            }
            ||| {
                &&& several_windows(reads.windows@, reads.owner_window_id)
                &&& error == element_stale(
                    "macOS AX returned multiple windows for one exact WindowServer id"@,
                )
            }
            ||| {
                &&& exists|window: RetainedAxElement| #[trigger]
                    sole_window(reads.windows@, reads.owner_window_id, window) && window.identity
                        != state.element.identity
                &&& error == element_stale(
                    "retained root AX identity no longer matches the exact owner window"@,
                )
            }
        },
    }
}

/// Whether a registered element was found where it was registered.
pub open spec fn has_place(state: elements::RegisteredView, reads: RefetchReads) -> bool {
    exists|element: RetainedAxElement| #[trigger] found_in_place(state, reads, element)
}

/// Fetches a registered element again and proves that it is still what was
/// registered: the same identity, in the same place, of the same owner, with
/// the same role, actions, value and selection.
pub fn refetch_registered_exact(state: &RegisteredElementSnapshot, reads: &RefetchReads) -> (live:
    Result<RetainedAxElement, NativeError>)
    ensures
        match live {
            Ok(element) => {
                &&& reads.owner_window_id == state.owner_window_id
                &&& found_in_place(state@, *reads, element)
                &&& element.identity == state.element.identity
                &&& reads.live_owner == Ok::<u32, NativeError>(reads.owner_window_id)
                &&& reads.live.proves(state@)
            },
            Err(error) => if reads.owner_window_id != state.owner_window_id {
                error@ == element_stale(
                    "retained AX element owner window no longer matches its exact observation owner"@,
                )
            } else {
                ||| lost_place(state@, *reads, error@)
                ||| {
                    &&& has_place(state@, *reads)
                    &&& match reads.live_owner {
                        Err(failure) => error@ == failure@,
                        Ok(owner) => if owner != reads.owner_window_id {
                            error@ == element_stale(
                                "live AX parent chain no longer reaches the observed owner window"@,
                            )
                        } else {
                            !reads.live.proves(state@) && error@ == element_stale(
                                "live macOS AX role/actions/value/settable/parent/selection proof changed"@,
                            )
                        },
                    }
                }
            },
        },
{
    if reads.owner_window_id != state.owner_window_id {
        return Err(
            stale_element(
                "retained AX element owner window no longer matches its exact observation owner",
            ),
        );
    }
    let element: RetainedAxElement = match refetch_place(state, reads) {
        Ok(element) => element,
        Err(error) => {
            return Err(error);
        },
    };
    match &reads.live_owner {
        Err(error) => {
            return Err(error.clone());
        },
        Ok(owner) => {
            if *owner != reads.owner_window_id {
                return Err(
                    stale_element(
                        "live AX parent chain no longer reaches the observed owner window",
                    ),
                );
            }
        },
    }
    if !reads.live.matches_state(state) {
        return Err(
            stale_element(
                "live macOS AX role/actions/value/settable/parent/selection proof changed",
            ),
        );
    }
    Ok(element)
}

/// What a request asks of one element.
#[derive(Debug)]
pub enum SemanticRequest {
    Click { spec: ClickSpec },
    SetValue { value: String },
    SelectText { selection: SelectionSpec },
    Secondary { action: String },
}

/// How an open action is proved that reported an error.
#[derive(Debug)]
pub struct AxOpenVerification {
    pub pid: i32,
    pub owner_window_id: u32,
    pub prior_title: String,
    pub expected_title: String,
}

/// A semantic action that is ready to be dispatched.
#[derive(Debug)]
pub enum PreparedKind {
    AxAction {
        element: RegisteredElementSnapshot,
        action: String,
        primitive: &'static str,
        opens_menu: bool,
        open_verification: Option<AxOpenVerification>,
    },
    PageScroll { route: PageRoute, direction: ScrollDirection, pages: u16 },
    SetValue { element: RegisteredElementSnapshot, value: String },
    SelectText { element: RegisteredElementSnapshot, range: AxCfRange, expected_text: String },
}

impl PreparedKind {
    pub open spec fn acted_on(self) -> RegisteredElementSnapshot {
        match self {
            PreparedKind::AxAction { element, .. } => element,
            PreparedKind::PageScroll { route, .. } => route.element,
            PreparedKind::SetValue { element, .. } => element,
            PreparedKind::SelectText { element, .. } => element,
        }
    }

    /// The element that is acted on.
    pub fn element(&self) -> (element: &RegisteredElementSnapshot)
        ensures
            *element == self.acted_on(),
    {
        match self {
            PreparedKind::AxAction { element, .. } => element,
            PreparedKind::PageScroll { route, .. } => &route.element,
            PreparedKind::SetValue { element, .. } => element,
            PreparedKind::SelectText { element, .. } => element,
        }
    }
}

#[derive(Debug)]
pub struct MacPreparedSemanticAction {
    pub kind: PreparedKind,
    pub signal_epoch: u64,
}

/// Actions of these forms have no semantic route.
pub fn refuse_shape(shape: &ActionShape) -> (refusal: Option<NativeError>)
    ensures
        match *shape {
            ActionShape::DeltaScroll => refusal matches Some(error) && error@
                == errors::ErrorView::unsupported(
                "platform has no exact semantic delta-scroll route"@,
            ),
            ActionShape::TypeText => refusal matches Some(error) && error@
                == errors::ErrorView::unsupported(
                "platform has no semantic insertion-preserving text route"@,
            ),
            ActionShape::PointClick { .. }
            | ActionShape::Drag
            | ActionShape::PressKey => refusal matches Some(error) && error@
                == errors::ErrorView::new(
                ErrorCode::Internal,
                ErrorPhase::Preflight,
                false,
                "non-semantic action reached macOS semantic prepare"@,
            ),
            _ => refusal is None,
        },
{
    match shape {
        ActionShape::DeltaScroll => Some(
            NativeError::unsupported("platform has no exact semantic delta-scroll route"),
        ),
        ActionShape::TypeText => Some(
            NativeError::unsupported("platform has no semantic insertion-preserving text route"),
        ),
        ActionShape::PointClick { .. } | ActionShape::Drag | ActionShape::PressKey => Some(
            NativeError::new(
                ErrorCode::Internal,
                ErrorPhase::Preflight,
                false,
                "non-semantic action reached macOS semantic prepare",
            ),
        ),
        _ => None,
    }
}

/// The action that a request performs on its element, or why it cannot.
pub open spec fn requested_action(
    request: SemanticRequest,
    live: elements::RegisteredView,
) -> Result<Seq<char>, errors::ErrorView> {
    let wanted = match request {
        SemanticRequest::Click { spec } => action_of_click(spec),
        SemanticRequest::Secondary { action } => Ok(action@),
        _ => Ok(Seq::empty()),
    };
    match wanted {
        Err(error) => Err(error),
        Ok(action) => if live.actions.contains(action) {
            Ok(action)
        } else {
            Err(missing_action(action))
        },
    }
}

/// A request performs an AX action of its element.
pub open spec fn prepares_action(
    request: SemanticRequest,
    live: elements::RegisteredView,
    opening: Option<AxOpenVerification>,
    prepared: PreparedKind,
) -> bool {
    &&& requested_action(request, live) matches Ok(wanted)
    &&& prepared matches PreparedKind::AxAction {
        element,
        action,
        primitive,
        opens_menu,
        open_verification,
    }
    &&& element@ == live
    &&& action@ == wanted
    &&& opens_menu == (wanted == AX_SHOW_MENU@)
    &&& primitive@ == if wanted == AX_SHOW_MENU@ {
        "macos_ax_show_menu"@
    } else if request is Click {
        "macos_ax_press"@
    } else {
        "macos_ax_secondary_action"@
    }
    &&& open_verification == if request is Secondary && wanted == AX_OPEN@ {
        opening
    } else {
        None
    }
}

/// A request sets the string value of its element.
pub open spec fn value_writable(live: elements::RegisteredView) -> bool {
    live.value_settable == Some(true) && live.string_value is Some
}

/// The selection of an element can be written.
pub open spec fn selection_writable(live: elements::RegisteredView) -> bool {
    live.selected_text_range_settable == Some(true) && live.selected_text_range is Some
}

pub open spec fn expected_selection_text(spec: SelectionSpec) -> Seq<char> {
    match spec.selection_type {
        SelectionType::Text => spec.text@,
        _ => Seq::empty(),
    }
}

fn is_true(value: Option<bool>) -> (yes: bool)
    ensures
        yes == (value == Some(true)),
{
    match value {
        Some(value) => value,
        None => false,
    }
}

/// What a request prepares on a live element, or why it does not.
pub open spec fn prepares(
    request: SemanticRequest,
    live: RegisteredElementSnapshot,
    opening: Option<AxOpenVerification>,
    prepared: Result<PreparedKind, errors::ErrorView>,
) -> bool {
    match request {
        SemanticRequest::Click { .. } | SemanticRequest::Secondary { .. } => match prepared {
            Ok(prepared) => prepares_action(request, live@, opening, prepared),
            Err(error) => requested_action(request, live@) == Err::<Seq<char>, _>(error),
        },
        SemanticRequest::SetValue { value: wanted } => match prepared {
            Ok(prepared) => {
                &&& value_writable(live@)
                &&& prepared matches PreparedKind::SetValue { element, value }
                &&& element == live
                &&& value == wanted
            },
            Err(error) => !value_writable(live@) && error == errors::ErrorView::unsupported(
                "macOS AXValue is not both settable and a CFString"@,
            ),
        },
        SemanticRequest::SelectText { selection: spec } => match prepared {
            Ok(prepared) => {
                &&& selection_writable(live@)
                &&& live@.string_value is Some
                &&& prepared matches PreparedKind::SelectText { element, range, expected_text }
                &&& element == live
                &&& selection::is_range_of(live@.string_value->0, spec, range)
                &&& expected_text@ == expected_selection_text(spec)
            },
            Err(error) => if !selection_writable(live@) {
                error == errors::ErrorView::unsupported(
                    "macOS element has no exact writable AXSelectedTextRange route; text-marker-only selection is refused"@,
                )
            } else {
                match live@.string_value {
                    None => error == errors::ErrorView::unsupported(
                        "macOS text selection requires an exact CFString AXValue snapshot"@,
                    ),
                    Some(document) => selection::has_no_range(document, spec, error),
                }
            },
        },
    }
}

/// Prepares what a request does to a live element. `opening` is how an open
/// action would be proved.
pub fn prepare_action(
    request: SemanticRequest,
    live: RegisteredElementSnapshot,
    opening: Option<AxOpenVerification>,
) -> (prepared: Result<PreparedKind, NativeError>)
    ensures
        prepares(
            request,
            live,
            opening,
            match prepared {
                Ok(prepared) => Ok(prepared),
                Err(error) => Err(error@),
            },
        ),
{
    match request {
        SemanticRequest::Click { spec } => {
            let action: &'static str = match click_action(
                live.role.as_str(),
                &live.subrole,
                &spec,
            ) {
                Ok(action) => action,
                Err(error) => {
                    return Err(error);
                },
            };
            if let Err(error) = require_exact_action(&live.actions, action) {
                return Err(error);
            }
            let shows_menu: bool = same_text(action, AX_SHOW_MENU);
            Ok(
                PreparedKind::AxAction {
                    element: live,
                    action: action.to_owned(),
                    primitive: if shows_menu {
                        "macos_ax_show_menu"
                    } else {
                        "macos_ax_press"
                    },
                    opens_menu: shows_menu,
                    open_verification: None,
                },
            )
        },
        SemanticRequest::Secondary { action } => {
            if let Err(error) = require_exact_action(&live.actions, action.as_str()) {
                return Err(error);
            }
            let shows_menu: bool = same_text(action.as_str(), AX_SHOW_MENU);
            let open_verification: Option<AxOpenVerification> = if same_text(
                action.as_str(),
                AX_OPEN,
            ) {
                opening
            } else {
                None
            };
            Ok(
                PreparedKind::AxAction {
                    element: live,
                    action,
                    primitive: if shows_menu {
                        "macos_ax_show_menu"
                    } else {
                        "macos_ax_secondary_action"
                    },
                    opens_menu: shows_menu,
                    open_verification,
                },
            )
        },
        SemanticRequest::SetValue { value } => {
            if !is_true(live.value_settable) || live.string_value.is_none() {
                return Err(
                    NativeError::unsupported("macOS AXValue is not both settable and a CFString"),
                );
            }
            Ok(PreparedKind::SetValue { element: live, value })
        },
        SemanticRequest::SelectText { selection } => {
            if !is_true(live.selected_text_range_settable) || live.selected_text_range.is_none() {
                return Err(
                    NativeError::unsupported(
                        "macOS element has no exact writable AXSelectedTextRange route; text-marker-only selection is refused",
                    ),
                );
            }
            let range: AxCfRange = match &live.string_value {
                None => {
                    return Err(
                        NativeError::unsupported(
                            "macOS text selection requires an exact CFString AXValue snapshot",
                        ),
                    );
                },
                Some(document) => match resolve_selection_range(document.as_str(), &selection) {
                    Ok(range) => range,
                    Err(error) => {
                        return Err(error);
                    },
                },
            };
            let expected_text: String = match selection.selection_type {
                SelectionType::Text => selection.text.clone(),
                SelectionType::CursorBefore | SelectionType::CursorAfter => String::new(),
            };
            assert(expected_text@ =~= expected_selection_text(selection));
            Ok(PreparedKind::SelectText { element: live, range, expected_text })
        },
    }
}

/// A semantic page scroll needs a whole number of pages.
pub fn semantic_pages(pages: Option<u16>) -> (count: Result<u16, NativeError>)
    ensures
        match pages {
            Some(pages) => count == Ok::<u16, NativeError>(pages),
            None => count matches Err(error) && error@ == errors::ErrorView::unsupported(
                "semantic page scroll requires an integral page count within u16"@,
            ),
        },
{
    match pages {
        Some(pages) => Ok(pages),
        None => Err(
            NativeError::unsupported(
                "semantic page scroll requires an integral page count within u16",
            ),
        ),
    }
}

/// The proof of an open action needs an expected title, the exact owner window
/// and its title before. `owner` is the process and the native id of the owner.
pub fn prepare_ax_open_verification(
    expected_title: Option<String>,
    owner: Option<(i32, u32)>,
    observed_owner_window_id: u32,
    prior_title: Option<String>,
) -> (verification: Option<AxOpenVerification>)
    ensures
        match verification {
            Some(verification) => {
                &&& expected_title == Some(verification.expected_title)
                &&& verification.expected_title@.len() > 0
                &&& owner == Some((verification.pid, verification.owner_window_id))
                &&& verification.owner_window_id == observed_owner_window_id
                &&& prior_title == Some(verification.prior_title)
            },
            None => !(expected_title matches Some(title) && title@.len() > 0) || !(owner matches Some(
                owner,
            ) && owner.1 == observed_owner_window_id) || prior_title is None,
        },
{
    match (expected_title, owner, prior_title) {
        (Some(expected_title), Some((pid, owner_window_id)), Some(prior_title)) => {
            if text::characters(expected_title.as_str()).len() == 0 || owner_window_id
                != observed_owner_window_id {
                None
            } else {
                Some(AxOpenVerification { pid, owner_window_id, prior_title, expected_title })
            }
        },
        _ => None,
    }
}

/// Whether the owner window now shows what an open action should have opened.
pub fn verified_ax_open_transition(
    verification: &AxOpenVerification,
    current_title: &Option<String>,
) -> (verified: bool)
    ensures
        verified == (current_title matches Some(title) && title@ != verification.prior_title@
            && title@ == verification.expected_title@),
{
    match current_title {
        Some(title) => ax_open_title_transition_matches(
            verification.prior_title.as_str(),
            title.as_str(),
            verification.expected_title.as_str(),
        ),
        None => false,
    }
}

/// What a dispatch leaves behind: the signals to record, and its result.
#[derive(Debug)]
pub struct DispatchOutcome {
    pub signals: Vec<SettlementSignal>,
    pub result: Result<NativeDispatch, NativeError>,
}

pub open spec fn ax_dispatch_failure(operation: Seq<char>, status: i32) -> errors::ErrorView {
    errors::ErrorView::new(
        ErrorCode::DispatchFailed,
        ErrorPhase::Dispatch,
        false,
        operation + " failed"@,
    ).with("ax_error"@, evidence::DetailView::Int(status as int))
}

pub fn ax_dispatch_error(operation: &str, status: i32) -> (error: NativeError)
    ensures
        error@ == ax_dispatch_failure(operation@, status),
{
    let mut message: String = operation.to_owned();
    message.push_str(" failed");
    NativeError::new(
        ErrorCode::DispatchFailed,
        ErrorPhase::Dispatch,
        false,
        message.as_str(),
    ).with_int("ax_error", status as i128)
}

pub open spec fn verification_failure(message: Seq<char>) -> errors::ErrorView {
    errors::ErrorView::new(ErrorCode::VerificationFailed, ErrorPhase::Verify, true, message)
}

pub fn verification_error(message: &str) -> (error: NativeError)
    ensures
        error@ == verification_failure(message@),
{
    NativeError::new(ErrorCode::VerificationFailed, ErrorPhase::Verify, true, message)
}

pub fn ax_verification_error(operation: &str, status: i32) -> (error: NativeError)
    ensures
        error@ == verification_failure(operation@ + " failed"@).with(
            "ax_error"@,
            evidence::DetailView::Int(status as int),
        ),
{
    let mut message: String = operation.to_owned();
    message.push_str(" failed");
    verification_error(message.as_str()).with_int("ax_error", status as i128)
}

/// Whether the effect of a failed open action is looked for.
pub fn needs_open_readback(status: i32, verification: &Option<AxOpenVerification>) -> (needed: bool)
    ensures
        needed == (status == AX_ERROR_ATTRIBUTE_UNSUPPORTED && verification is Some),
{
    status == AX_ERROR_ATTRIBUTE_UNSUPPORTED && verification.is_some()
}

/// The evidence of a performed AX action.
pub open spec fn ax_action_fields(
    action: Seq<char>,
    primitive: Seq<char>,
    status: i32,
    attempts: Option<u32>,
) -> Map<Seq<char>, evidence::DetailView> {
    let fields = actions::primitive_fields(primitive).insert(
        "ax_action"@,
        evidence::DetailView::Text(action),
    ).insert("ax_return_code"@, evidence::DetailView::Int(status as int)).insert(
        "post_error_effect_verified"@,
        evidence::DetailView::Bool(attempts is Some),
    ).insert(
        "post_error_readback_attempts"@,
        evidence::DetailView::Int(
            match attempts {
                Some(attempts) => attempts as int,
                None => 0,
            },
        ),
    );
    if attempts is Some {
        fields.insert("owner_window_identity_preserved"@, evidence::DetailView::Bool(true)).insert(
            "destination_title_matched"@,
            evidence::DetailView::Bool(true),
        )
    } else {
        fields
    }
}

/// What a performed AX action amounts to. `attempts` counts the looks after
/// which the effect of a failed open was verified.
pub fn finish_ax_action(action: &str, primitive: &str, status: i32, attempts: Option<u32>) -> (outcome:
    DispatchOutcome)
    ensures
        if status != AX_ERROR_SUCCESS && attempts is None {
            &&& outcome.signals@ == Seq::<SettlementSignal>::empty()
            &&& outcome.result matches Err(error)
            &&& error@ == ax_dispatch_failure("exact AX action"@, status)
        } else {
            &&& outcome.signals@ == if attempts is Some {
                seq![SettlementSignal::AxAction, SettlementSignal::VerificationReadbackComplete]
            } else {
                seq![SettlementSignal::AxAction]
            }
            &&& outcome.result matches Ok(dispatch)
            &&& dispatch@ == (actions::DispatchView {
                verification: if attempts is Some {
                    VerificationLevel::EffectVerified
                } else {
                    VerificationLevel::DispatchVerified
                },
                fields: ax_action_fields(action@, primitive@, status, attempts),
            })
        },
{
    if status != AX_ERROR_SUCCESS && attempts.is_none() {
        return DispatchOutcome {
            signals: Vec::new(),
            result: Err(ax_dispatch_error("exact AX action", status)),
        };
    }
    let mut signals: Vec<SettlementSignal> = vec![SettlementSignal::AxAction];
    let mut fields: Fields = begin_evidence(primitive);
    fields.insert("ax_action", Detail::text(action));
    fields.insert("ax_return_code", Detail::Int(status as i128));
    fields.insert("post_error_effect_verified", Detail::Bool(attempts.is_some()));
    let count: u32 = match attempts {
        Some(attempts) => attempts,
        None => 0,
    };
    fields.insert("post_error_readback_attempts", Detail::Int(count as i128));
    if attempts.is_some() {
        signals.push(SettlementSignal::VerificationReadbackComplete);
        fields.insert("owner_window_identity_preserved", Detail::Bool(true));
        fields.insert("destination_title_matched", Detail::Bool(true));
        assert(signals@ =~= seq![
            SettlementSignal::AxAction,
            SettlementSignal::VerificationReadbackComplete,
        ]);
    } else {
        assert(signals@ =~= seq![SettlementSignal::AxAction]);
    }
    let verification: VerificationLevel = if attempts.is_some() {
        VerificationLevel::EffectVerified
    } else {
        VerificationLevel::DispatchVerified
    };
    DispatchOutcome { signals, result: Ok(NativeDispatch { verification, fields }) }
}

/// A menu suppression that could not be armed after the action was performed.
pub fn arming_failed(error: NativeError) -> (reported: NativeError)
    ensures
        reported@ == error@.with(
            "native_side_effect_started"@,
            evidence::DetailView::Bool(true),
        ),
{
    error.with_bool("native_side_effect_started", true)
}

/// What a performed action has to find out about menus.
#[derive(Debug, Clone, Copy, PartialEq, Eq, Structural)]
pub enum MenuStep {
    Nothing,
    WaitForOpened,
    AwaitReaction,
}

/// The menu step of an action and the intent that its scope is bound to.
pub fn menu_step(intent: &Option<MenuMutationIntent>, opens_menu: bool) -> (step: Result<
    MenuStep,
    NativeError,
>)
    ensures
        match *intent {
            None => step == Ok::<MenuStep, NativeError>(MenuStep::Nothing),
            Some(MenuMutationIntent::Dismissing { .. }) => step matches Err(error) && error@
                == errors::ErrorView::new(
                ErrorCode::Internal,
                ErrorPhase::Dispatch,
                false,
                "semantic AX action cannot satisfy a point-menu dismissal intent"@,
            ),
            Some(intent) => if intent is Opening && opens_menu {
                step == Ok::<MenuStep, NativeError>(MenuStep::WaitForOpened)
            } else if intent is Targeting && !opens_menu {
                step == Ok::<MenuStep, NativeError>(MenuStep::AwaitReaction)
            } else {
                step matches Err(error) && error@ == errors::ErrorView::stale(
                    ErrorCode::MenuStateStale,
                    "semantic menu action and bound lifecycle intent disagree"@,
                ).with("native_side_effect_started"@, evidence::DetailView::Bool(true))
            },
        },
{
    match intent {
        None => Ok(MenuStep::Nothing),
        Some(MenuMutationIntent::Opening { .. }) if opens_menu => Ok(MenuStep::WaitForOpened),
        Some(MenuMutationIntent::Targeting { .. }) if !opens_menu => Ok(MenuStep::AwaitReaction),
        Some(MenuMutationIntent::Dismissing { .. }) => Err(
            NativeError::new(
                ErrorCode::Internal,
                ErrorPhase::Dispatch,
                false,
                "semantic AX action cannot satisfy a point-menu dismissal intent",
            ),
        ),
        Some(_) => Err(
            NativeError::stale(
                ErrorCode::MenuStateStale,
                "semantic menu action and bound lifecycle intent disagree",
            ).with_bool("native_side_effect_started", true),
        ),
    }
}

/// What became of a menu.
#[derive(Debug, Clone, Copy, PartialEq, Eq, Structural)]
pub enum MenuOutcome {
    Opened,
    Targeted,
    Dismissed,
}

impl MenuOutcome {
    /// The signal that a menu outcome is.
    pub fn signal(self) -> (signal: Option<SettlementSignal>)
        ensures
            signal == match self {
                MenuOutcome::Opened => Some(SettlementSignal::MenuOpened),
                MenuOutcome::Targeted => None,
                MenuOutcome::Dismissed => Some(SettlementSignal::MenuDismissed),
            },
    {
        match self {
            MenuOutcome::Opened => Some(SettlementSignal::MenuOpened),
            MenuOutcome::Targeted => None,
            MenuOutcome::Dismissed => Some(SettlementSignal::MenuDismissed),
        }
    }
}

/// Whether a look for an opened menu ends the wait; `Ok(false)` is to look
/// again.
pub fn wait_for_opened_menu(found: bool, now: u64, deadline: u64) -> (opened: Result<
    bool,
    NativeError,
>)
    ensures
        if found {
            opened == Ok::<bool, NativeError>(true)
        } else if now >= deadline {
            opened matches Err(error) && error@ == errors::ErrorView::stale(
                ErrorCode::MenuStateStale,
                "AXShowMenu dispatched but no exact native menu identity arrived before the action deadline"@,
            ).with("native_side_effect_started"@, evidence::DetailView::Bool(true))
        } else {
            opened == Ok::<bool, NativeError>(false)
        },
{
    if found {
        return Ok(true);
    }
    if now >= deadline {
        return Err(
            NativeError::stale(
                ErrorCode::MenuStateStale,
                "AXShowMenu dispatched but no exact native menu identity arrived before the action deadline",
            ).with_bool("native_side_effect_started", true),
        );
    }
    Ok(false)
}

/// What became of a menu one of whose items was acted on: a menu that is still
/// there was targeted, otherwise the earlier one was dismissed.
pub fn menu_outcome_after_target(
    found: Option<NativeMenuIdentity>,
    prior: NativeMenuIdentity,
) -> (outcome: (MenuOutcome, NativeMenuIdentity))
    ensures
        outcome == match found {
            Some(identity) => (MenuOutcome::Targeted, identity),
            None => (MenuOutcome::Dismissed, prior),
        },
{
    match found {
        Some(identity) => (MenuOutcome::Targeted, identity),
        None => (MenuOutcome::Dismissed, prior),
    }
}

/// A menu discovery that did not finish.
pub fn menu_discovery_failed(cause: &str) -> (error: NativeError)
    ensures
        error@ == errors::ErrorView::new(
            ErrorCode::MenuStateStale,
            ErrorPhase::Dispatch,
            false,
            "native menu discovery task failed: "@ + cause@,
        ),
{
    let mut message: String = "native menu discovery task failed: ".to_owned();
    message.push_str(cause);
    NativeError::new(
        ErrorCode::MenuStateStale,
        ErrorPhase::Dispatch,
        false,
        message.as_str(),
    )
}

/// A prepared action still has its target, in its scope, at its epoch.
pub fn revalidate_prepared(
    invalidated: bool,
    target: &ResolvedWindowStamp,
    scope_owner: &ResolvedWindowStamp,
    scope_window: &ResolvedWindowStamp,
    epoch: u64,
    prepared_epoch: u64,
) -> (outcome: Result<(), NativeError>)
    ensures
        ({
            let same_target = !invalidated && scope_owner@ == target@ && scope_window@ == target@;
            match outcome {
                Ok(_) => same_target && epoch == prepared_epoch,
                Err(error) => if !same_target {
                    error@ == errors::ErrorView::stale(
                        ErrorCode::WindowIdentityChanged,
                        "semantic target identity changed after native action preparation"@,
                    )
                } else {
                    epoch != prepared_epoch && error@ == errors::ErrorView::stale(
                        ErrorCode::ObservationRaced,
                        "semantic AX/content notification raced the final native validation"@,
                    )
                },
            }
        }),
{
    if invalidated || !scope_owner.same(target) || !scope_window.same(target) {
        return Err(
            NativeError::stale(
                ErrorCode::WindowIdentityChanged,
                "semantic target identity changed after native action preparation",
            ),
        );
    }
    if epoch != prepared_epoch {
        return Err(
            NativeError::stale(
                ErrorCode::ObservationRaced,
                "semantic AX/content notification raced the final native validation",
            ),
        );
    }
    Ok(())
}

/// Nothing may be signalled while a prepared action's element is fetched again.
pub fn revalidate_refetch_epoch(before: u64, after: u64) -> (outcome: Result<(), NativeError>)
    ensures
        outcome is Ok <==> before == after,
        outcome matches Err(error) ==> error@ == errors::ErrorView::stale(
            ErrorCode::ObservationRaced,
            "semantic AX/content notification raced the exact dispatch refetch"@,
        ),
{
    if before == after {
        Ok(())
    } else {
        Err(
            NativeError::stale(
                ErrorCode::ObservationRaced,
                "semantic AX/content notification raced the exact dispatch refetch",
            ),
        )
    }
}

/// A page scroll in progress.
#[derive(Debug, Clone, Copy, PartialEq, Eq, Structural)]
pub struct PageScrollRun {
    pub pages: u16,
    pub completed: u16,
    pub scrollbar_child: bool,
}

pub open spec fn route_text(scrollbar_child: bool) -> Seq<char> {
    if scrollbar_child {
        "nearest_container_scrollbar_page_child"@
    } else {
        "nearest_direct_page_action"@
    }
}

fn route_name(scrollbar_child: bool) -> (name: &'static str)
    ensures
        name@ == route_text(scrollbar_child),
{
    if scrollbar_child {
        "nearest_container_scrollbar_page_child"
    } else {
        "nearest_direct_page_action"
    }
}

pub open spec fn direction_lower(direction: ScrollDirection) -> Seq<char> {
    match direction {
        ScrollDirection::Up => "up"@,
        ScrollDirection::Down => "down"@,
        ScrollDirection::Left => "left"@,
        ScrollDirection::Right => "right"@,
    }
}

impl PageScrollRun {
    pub open spec fn wf(&self) -> bool {
        self.completed <= self.pages
    }

    /// Starts a page scroll and reports it in the scope's evidence.
    pub fn begin(pages: u16, direction: ScrollDirection, scrollbar_child: bool, scope: &mut Fields) -> (run:
        PageScrollRun)
        ensures
            run.wf(),
            run == (PageScrollRun { pages, completed: 0, scrollbar_child }),
            final(scope)@ == old(scope)@.insert(
                "semantic_scroll_requested_pages"@,
                evidence::DetailView::Int(pages as int),
            ).insert(
                "semantic_scroll_direction"@,
                evidence::DetailView::Text(direction_lower(direction)),
            ).insert(
                "semantic_scroll_route"@,
                evidence::DetailView::Text(route_text(scrollbar_child)),
            ).insert("semantic_scroll_completed_pages"@, evidence::DetailView::Int(0)),
    {
        let lower: &'static str = match direction {
            ScrollDirection::Up => "up",
            ScrollDirection::Down => "down",
            ScrollDirection::Left => "left",
            ScrollDirection::Right => "right",
        };
        scope.insert("semantic_scroll_requested_pages", Detail::Int(pages as i128));
        scope.insert("semantic_scroll_direction", Detail::text(lower));
        scope.insert("semantic_scroll_route", Detail::text(route_name(scrollbar_child)));
        scope.insert("semantic_scroll_completed_pages", Detail::Int(0));
        PageScrollRun { pages, completed: 0, scrollbar_child }
    }

    /// Whether another page has to be scrolled.
    pub fn pending(&self) -> (pending: bool)
        ensures
            pending == (self.completed < self.pages),
    {
        self.completed < self.pages
    }

    /// Counts one page; a failed page ends the scroll with what was done.
    pub fn page_done(&mut self, status: i32, scope: &mut Fields) -> (outcome: Result<
        SettlementSignal,
        NativeError,
    >)
        requires
            old(self).wf(),
            old(self).completed < old(self).pages,
        ensures
            final(self).wf(),
            final(self).pages == old(self).pages,
            final(self).scrollbar_child == old(self).scrollbar_child,
            if status == AX_ERROR_SUCCESS {
                &&& outcome == Ok::<SettlementSignal, NativeError>(SettlementSignal::AxAction)
                &&& final(self).completed == old(self).completed + 1
                &&& final(scope)@ == old(scope)@.insert(
                    "semantic_scroll_completed_pages"@,
                    evidence::DetailView::Int(final(self).completed as int),
                )
            } else {
                &&& final(self).completed == old(self).completed
                &&& final(scope)@ == old(scope)@
                &&& outcome matches Err(error)
                &&& error@ == errors::ErrorView::new(
                    ErrorCode::DispatchFailed,
                    ErrorPhase::Dispatch,
                    false,
                    "exact macOS AX page-scroll action failed after a partial dispatch"@,
                ).with("ax_error"@, evidence::DetailView::Int(status as int)).with(
                    "completed_pages"@,
                    evidence::DetailView::Int(old(self).completed as int),
                ).with(
                    "requested_pages"@,
                    evidence::DetailView::Int(old(self).pages as int),
                ).with(
                    "route"@,
                    evidence::DetailView::Text(route_text(old(self).scrollbar_child)),
                )
            },
    {
        if status != AX_ERROR_SUCCESS {
            return Err(
                NativeError::new(
                    ErrorCode::DispatchFailed,
                    ErrorPhase::Dispatch,
                    false,
                    "exact macOS AX page-scroll action failed after a partial dispatch",
                ).with_int("ax_error", status as i128).with_int(
                    "completed_pages",
                    self.completed as i128,
                ).with_int("requested_pages", self.pages as i128).with_text(
                    "route",
                    route_name(self.scrollbar_child),
                ),
            );
        }
        self.completed = self.completed + 1;
        scope.insert("semantic_scroll_completed_pages", Detail::Int(self.completed as i128));
        Ok(SettlementSignal::AxAction)
    }

    /// The report of a finished page scroll.
    pub fn finish(&self) -> (dispatch: NativeDispatch)
        ensures
            dispatch@ == (actions::DispatchView {
                verification: VerificationLevel::DispatchVerified,
                fields: actions::primitive_fields("macos_ax_page_scroll"@).insert(
                    "route"@,
                    evidence::DetailView::Text(route_text(self.scrollbar_child)),
                ).insert("completed_pages"@, evidence::DetailView::Int(self.completed as int)),
            }),
    {
        let mut fields: Fields = begin_evidence("macos_ax_page_scroll");
        fields.insert("route", Detail::text(route_name(self.scrollbar_child)));
        fields.insert("completed_pages", Detail::Int(self.completed as i128));
        NativeDispatch { verification: VerificationLevel::DispatchVerified, fields }
    }
}

pub open spec fn exact_readback(primitive: Seq<char>) -> actions::DispatchView {
    actions::DispatchView {
        verification: VerificationLevel::EffectVerified,
        fields: actions::primitive_fields(primitive).insert(
            "exact_typed_readback"@,
            evidence::DetailView::Bool(true),
        ),
    }
}

fn read_back(primitive: &str) -> (dispatch: NativeDispatch)
    ensures
        dispatch@ == exact_readback(primitive@),
{
    let mut fields: Fields = begin_evidence(primitive);
    fields.insert("exact_typed_readback", Detail::Bool(true));
    NativeDispatch { verification: VerificationLevel::EffectVerified, fields }
}

fn readback_outcome(result: Result<NativeDispatch, NativeError>) -> (outcome: DispatchOutcome)
    ensures
        outcome.signals@ == seq![SettlementSignal::VerificationReadbackComplete],
        outcome.result == result,
{
    let signals: Vec<SettlementSignal> = vec![SettlementSignal::VerificationReadbackComplete];
    assert(signals@ =~= seq![SettlementSignal::VerificationReadbackComplete]);
    DispatchOutcome { signals, result }
}

/// What a value write amounts to: its effect is verified exactly when the
/// value reads back as it was requested. The readback counts only after an
/// accepted write.
pub fn finish_set_value(status: i32, readback: Result<Option<String>, i32>, value: &str) -> (outcome:
    DispatchOutcome)
    ensures
        if status != AX_ERROR_SUCCESS {
            &&& outcome.signals@ == Seq::<SettlementSignal>::empty()
            &&& outcome.result matches Err(error)
            &&& error@ == ax_dispatch_failure("AXValue write"@, status)
        } else {
            &&& outcome.signals@ == seq![SettlementSignal::VerificationReadbackComplete]
            &&& match readback {
                Err(status) => outcome.result matches Err(error) && error@
                    == verification_failure("typed CFString AXValue readback"@ + " failed"@).with(
                    "ax_error"@,
                    evidence::DetailView::Int(status as int),
                ),
                Ok(readback) => if text::optional_text(readback) == Some(value@) {
                    outcome.result matches Ok(dispatch) && dispatch@ == exact_readback(
                        "macos_ax_string_value"@,
                    )
                } else {
                    outcome.result matches Err(error) && error@ == verification_failure(
                        "macOS typed CFString AXValue readback did not exactly match the requested string"@,
                    )
                },
            }
        },
{
    if status != AX_ERROR_SUCCESS {
        return DispatchOutcome {
            signals: Vec::new(),
            result: Err(ax_dispatch_error("AXValue write", status)),
        };
    }
    match readback {
        Err(status) => readback_outcome(
            Err(ax_verification_error("typed CFString AXValue readback", status)),
        ),
        Ok(readback) => if exact_typed_cfstring_readback_matches(&readback, value) {
            readback_outcome(Ok(read_back("macos_ax_string_value")))
        } else {
            readback_outcome(
                Err(
                    verification_error(
                        "macOS typed CFString AXValue readback did not exactly match the requested string",
                    ),
                ),
            )
        },
    }
}

/// What a selection write amounts to: its effect is verified exactly when both
/// the range and the selected text read back as they were requested.
pub fn finish_select_text(
    status: i32,
    range_readback: Result<Option<AxCfRange>, i32>,
    text_readback: Result<Option<String>, i32>,
    range: AxCfRange,
    expected_text: &str,
) -> (outcome: DispatchOutcome)
    ensures
        if status != AX_ERROR_SUCCESS {
            &&& outcome.signals@ == Seq::<SettlementSignal>::empty()
            &&& outcome.result matches Err(error)
            &&& error@ == ax_dispatch_failure("AXSelectedTextRange write"@, status)
        } else {
            &&& outcome.signals@ == seq![SettlementSignal::VerificationReadbackComplete]
            &&& match (range_readback, text_readback) {
                (Err(status), _) => outcome.result matches Err(error) && error@
                    == verification_failure("typed AXSelectedTextRange readback"@ + " failed"@).with(
                    "ax_error"@,
                    evidence::DetailView::Int(status as int),
                ),
                (Ok(_), Err(status)) => outcome.result matches Err(error) && error@
                    == verification_failure("typed AXSelectedText readback"@ + " failed"@).with(
                    "ax_error"@,
                    evidence::DetailView::Int(status as int),
                ),
                (Ok(read_range), Ok(read_text)) => if read_range == Some(range)
                    && text::optional_text(read_text) == Some(expected_text@) {
                    outcome.result matches Ok(dispatch) && dispatch@ == exact_readback(
                        "macos_ax_utf16_selection"@,
                    )
                } else {
                    outcome.result matches Err(error) && error@ == verification_failure(
                        "macOS typed text selection range/text readback did not exactly match the requested selection"@,
                    )
                },
            }
        },
{
    if status != AX_ERROR_SUCCESS {
        return DispatchOutcome {
            signals: Vec::new(),
            result: Err(ax_dispatch_error("AXSelectedTextRange write", status)),
        };
    }
    match (range_readback, text_readback) {
        (Err(status), _) => readback_outcome(
            Err(ax_verification_error("typed AXSelectedTextRange readback", status)),
        ),
        (Ok(_), Err(status)) => readback_outcome(
            Err(ax_verification_error("typed AXSelectedText readback", status)),
        ),
        (Ok(read_range), Ok(read_text)) => if exact_typed_selection_readback_matches(
            read_range,
            &read_text,
            range,
            expected_text,
        ) {
            readback_outcome(Ok(read_back("macos_ax_utf16_selection")))
        } else {
            readback_outcome(
                Err(
                    verification_error(
                        "macOS typed text selection range/text readback did not exactly match the requested selection",
                    ),
                ),
            )
        },
    }
}

/// Resolves the element of a request in its locked scope.
pub fn admit_element(
    registry: &MacElementRegistry,
    invalidated: bool,
    target: &ResolvedWindowStamp,
    route: Route,
    scope_owner: &ResolvedWindowStamp,
    scope_window: &ResolvedWindowStamp,
    element: &ResolvedElement,
) -> (state: Result<RegisteredElementSnapshot, NativeError>)
    ensures
        ({
            let locked = route is Semantic && scope_owner@ == target@ && scope_window@ == target@
                && element.window@ == target@;
            match state {
                Ok(state) => {
                    &&& locked
                    &&& !invalidated
                    &&& registered_as(registry@, *element, state@)
                    &&& metadata_agrees(state@, *element)
                },
                Err(error) => if !locked {
                    error@ == errors::ErrorView::new(
                        ErrorCode::Internal,
                        ErrorPhase::Preflight,
                        false,
                        "semantic AX action entered without the exact locked interaction scope"@,
                    )
                } else {
                    registration_error(registry@, invalidated, target@, *element, error@)
                },
            }
        }),
{
    match preflight_scope(target, route, scope_owner, scope_window, &element.window) {
        Err(error) => Err(error),
        Ok(_) => registered_exact(registry, invalidated, target, element),
    }
}

/// Prepares a request on an element that was fetched again. What is prepared
/// acts on the element that was found.
pub fn prepare_element(
    request: SemanticRequest,
    state: RegisteredElementSnapshot,
    found: Result<RetainedAxElement, NativeError>,
    opening: Option<AxOpenVerification>,
    epoch: u64,
) -> (prepared: Result<MacPreparedSemanticAction, NativeError>)
    ensures
        match found {
            Err(failure) => prepared matches Err(error) && error == failure,
            Ok(element) => {
                &&& prepares(
                    request,
                    RegisteredElementSnapshot { element, ..state },
                    opening,
                    match prepared {
                        Ok(prepared) => Ok(prepared.kind),
                        Err(error) => Err(error@),
                    },
                )
                &&& prepared matches Ok(prepared) ==> prepared.signal_epoch == epoch
            },
        },
{
    let element: RetainedAxElement = match found {
        Err(error) => {
            return Err(error);
        },
        Ok(element) => element,
    };
    let mut live: RegisteredElementSnapshot = state;
    live.element = element;
    match prepare_action(request, live, opening) {
        Err(error) => Err(error),
        Ok(kind) => Ok(MacPreparedSemanticAction { kind, signal_epoch: epoch }),
    }
}

/// Prepares a page scroll whose element was fetched again.
pub fn prepare_page_scroll(
    route: PageRoute,
    direction: ScrollDirection,
    pages: u16,
    found: Result<RetainedAxElement, NativeError>,
    epoch: u64,
) -> (prepared: Result<MacPreparedSemanticAction, NativeError>)
    ensures
        match found {
            Err(failure) => prepared matches Err(error) && error == failure,
            Ok(element) => if route.scrollbar_child && !route.element@.actions.contains(AX_PRESS@) {
                prepared matches Err(error) && error@ == missing_action(AX_PRESS@)
            } else {
                &&& prepared matches Ok(prepared)
                &&& prepared.signal_epoch == epoch
                &&& prepared.kind == (PreparedKind::PageScroll {
                    route: PageRoute {
                        element: RegisteredElementSnapshot { element, ..route.element },
                        ..route
                    },
                    direction,
                    pages,
                })
            },
        },
{
    let element: RetainedAxElement = match found {
        Err(error) => {
            return Err(error);
        },
        Ok(element) => element,
    };
    if route.scrollbar_child {
        if let Err(error) = require_exact_action(&route.element.actions, AX_PRESS) {
            return Err(error);
        }
    }
    let mut route: PageRoute = route;
    route.element.element = element;
    Ok(
        MacPreparedSemanticAction {
            kind: PreparedKind::PageScroll { route, direction, pages },
            signal_epoch: epoch,
        },
    )
}

} // verus!
