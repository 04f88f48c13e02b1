//! What the actions on elements do and report.
use vstd::prelude::*;

use crate::ax::bindings::AxCfRange;
use crate::contracts::{ClickSpec, MouseButton, ResolvedWindowStamp, Route, SettlementSignal,
    VerificationLevel};
use crate::driver::actions::scroll;
use crate::driver::actions::selection::{SelectionSpec, SelectionType};
use crate::driver::actions::selection;
use crate::driver::actions::semantic;
use crate::driver::actions::semantic::{
    ApplicationWindow, AxOpenVerification, DispatchOutcome, MacPreparedSemanticAction, MenuOutcome,
    MenuStep, PageRoute, PageScrollRun, PreparedKind, RefetchReads, ResolvedElement,
    SemanticRequest,
};
use crate::driver::elements::{MacElementRegistry, RegisteredElementSnapshot};
use crate::driver::interaction::MenuMutationIntent;
use crate::driver::menu::NativeMenuIdentity;
use crate::driver::snapshot::RetainedAxElement;
use crate::errors::{ErrorCode, ErrorPhase, NativeError};
use crate::evidence::Fields;
use crate::text;

verus! {

/// A value is reported as written exactly where the write was taken and what was
/// read back is the value that was asked for. Whatever was read back, the reading
/// is signalled; a write that was not taken signals nothing.
pub proof fn a_value_is_written_where_it_reads_back(
    status: i32,
    readback: Result<Option<String>, i32>,
    value: &str,
    outcome: DispatchOutcome,
)
    requires
        call_ensures(semantic::finish_set_value, (status, readback, value), outcome),
    ensures
        outcome.result is Ok <==> status == 0 && readback is Ok && text::optional_text(
            readback->Ok_0,
        ) == Some(value@),
        outcome.result is Ok ==> outcome.result->Ok_0@.verification
            == VerificationLevel::EffectVerified,
        status == 0 ==> outcome.signals@ == seq![SettlementSignal::VerificationReadbackComplete],
        status != 0 ==> outcome.signals@.len() == 0,
        status != 0 ==> outcome.result->Err_0.phase == ErrorPhase::Dispatch,
        status == 0 && outcome.result is Err ==> outcome.result->Err_0.phase == ErrorPhase::Verify
            && outcome.result->Err_0.retryable,
{
}

/// A selection is reported as made exactly where the write was taken and both the
/// range and the text that were read back are those that were asked for.
pub proof fn a_selection_is_made_where_it_reads_back(
    status: i32,
    range_readback: Result<Option<AxCfRange>, i32>,
    text_readback: Result<Option<String>, i32>,
    range: AxCfRange,
    expected_text: &str,
    outcome: DispatchOutcome,
)
    requires
        call_ensures(
            semantic::finish_select_text,
            (status, range_readback, text_readback, range, expected_text),
            outcome,
        ),
    ensures
        outcome.result is Ok <==> status == 0 && range_readback == Ok::<_, i32>(Some(range))
            && text_readback is Ok && text::optional_text(text_readback->Ok_0) == Some(
            expected_text@,
        ),
        outcome.result is Ok ==> outcome.result->Ok_0@.verification
            == VerificationLevel::EffectVerified,
        status == 0 ==> outcome.signals@ == seq![SettlementSignal::VerificationReadbackComplete],
        status != 0 ==> outcome.signals@.len() == 0,
{
}

/// An action is reported as done where it was taken, or where its effect was seen
/// in spite of the status. Only an effect that was seen counts as verified.
pub proof fn an_action_is_done_where_it_was_taken_or_seen(
    action: &str,
    primitive: &str,
    status: i32,
    attempts: Option<u32>,
    outcome: DispatchOutcome,
)
    requires
        call_ensures(semantic::finish_ax_action, (action, primitive, status, attempts), outcome),
    ensures
        outcome.result is Ok <==> status == 0 || attempts is Some,
        outcome.result is Ok ==> {
            &&& outcome.signals@.len() > 0 && outcome.signals@[0] == SettlementSignal::AxAction
            &&& outcome.signals@.contains(SettlementSignal::VerificationReadbackComplete)
                <==> attempts is Some
            &&& outcome.result->Ok_0@.verification == VerificationLevel::EffectVerified
                <==> attempts is Some
            &&& outcome.result->Ok_0@.verification == VerificationLevel::DispatchVerified
                <==> attempts is None
        },
        outcome.result is Err ==> outcome.signals@.len() == 0,
{
    if outcome.result is Ok {
        if attempts is Some {
            assert(outcome.signals@[1] == SettlementSignal::VerificationReadbackComplete);
        }
    }
}

/// A failed open is looked at again only where the action is said to be
/// unsupported and there is a title to look for.
pub proof fn only_unsupported_opens_are_looked_at_again(
    status: i32,
    verification: &Option<AxOpenVerification>,
    needed: bool,
)
    requires
        call_ensures(semantic::needs_open_readback, (status, verification), needed),
    ensures
        needed <==> status == -25205 && verification is Some,
{
}

/// An open is seen where the window has taken the expected title and did not have
/// it before.
pub proof fn an_open_is_seen_by_a_new_title(
    verification: &AxOpenVerification,
    current: &Option<String>,
    seen: bool,
)
    requires
        call_ensures(semantic::verified_ax_open_transition, (verification, current), seen),
    ensures
        seen ==> text::optional_text(*current) == Some(verification.expected_title@),
        seen ==> verification.expected_title@ != verification.prior_title@,
        verification.expected_title@ != verification.prior_title@ && text::optional_text(*current)
            == Some(verification.expected_title@) ==> seen,
{
}

/// A left click presses and a right click opens the menu; no click with
/// modifiers, with another count or with the middle button has an action.
pub proof fn clicks_press_or_open_a_menu(click: ClickSpec)
    ensures
        semantic::action_of_click(click) is Ok <==> click.click_count == 1 && click.modifiers@.len()
            == 0 && click.button != MouseButton::Middle,
        semantic::action_of_click(click) is Ok && click.button == MouseButton::Left
            ==> semantic::action_of_click(click)->Ok_0 == "AXPress"@,
        semantic::action_of_click(click) is Ok && click.button == MouseButton::Right
            ==> semantic::action_of_click(click)->Ok_0 == "AXShowMenu"@,
{
}

/// What is prepared for a request acts on the very element, does what was asked
/// for, and is something that the element offers.
pub proof fn what_is_prepared_does_what_was_asked(
    request: SemanticRequest,
    live: RegisteredElementSnapshot,
    opening: Option<AxOpenVerification>,
    prepared: Result<PreparedKind, NativeError>,
)
    requires
        call_ensures(semantic::prepare_action, (request, live, opening), prepared),
    ensures
        prepared is Ok ==> prepared->Ok_0.acted_on()@ == live@,
        prepared is Ok ==> match request {
            SemanticRequest::Click { spec } => prepared->Ok_0 is AxAction && live@.actions.contains(
                prepared->Ok_0->action@,
            ) && prepared->Ok_0->action@ == if spec.button == MouseButton::Left {
                "AXPress"@
            } else {
                "AXShowMenu"@
            },
            SemanticRequest::Secondary { action } => prepared->Ok_0 is AxAction
                && prepared->Ok_0->action@ == action@ && live@.actions.contains(action@),
            SemanticRequest::SetValue { value } => prepared->Ok_0 is SetValue
                && prepared->Ok_0->value == value && live@.value_settable == Some(true),
            SemanticRequest::SelectText { selection } => prepared->Ok_0 is SelectText
                && live@.selected_text_range_settable == Some(true),
        },
        prepared is Ok && prepared->Ok_0 is AxAction ==> (prepared->Ok_0->opens_menu
            <==> prepared->Ok_0->action@ == "AXShowMenu"@),
        prepared is Ok && prepared->Ok_0 is AxAction && prepared->Ok_0->open_verification is Some
            ==> prepared->Ok_0->open_verification == opening && prepared->Ok_0->action@
            == "AXOpen"@ && request is Secondary,
        request is Secondary && request->action@ == "AXOpen"@ && prepared is Ok
            ==> prepared->Ok_0->open_verification == opening,
        // What the element offers is never refused.
        request is Secondary && live@.actions.contains(request->action@) ==> prepared is Ok,
        request is SetValue ==> (prepared is Ok <==> live@.value_settable == Some(true)
            && live@.string_value is Some),
{
}

/// The text that a selection is checked against is the requested text where that
/// is selected, and nothing where only the cursor is placed.
pub proof fn a_selected_text_is_the_requested_one(
    selection: SelectionSpec,
    live: RegisteredElementSnapshot,
    prepared: Result<PreparedKind, NativeError>,
)
    requires
        call_ensures(
            semantic::prepare_action,
            (SemanticRequest::SelectText { selection }, live, None),
            prepared,
        ),
        prepared is Ok,
    ensures
        prepared->Ok_0 is SelectText,
        selection.selection_type is Text ==> prepared->Ok_0->expected_text@ == selection.text@,
        !(selection.selection_type is Text) ==> prepared->Ok_0->expected_text@.len() == 0
            && prepared->Ok_0->range.length == 0,
        selection.selection_type is Text ==> prepared->Ok_0->range.length == text::utf16_len(
            selection.text@,
        ),
{
}

/// Every page that was taken counts once; one that was not taken counts not at all
/// and ends the run with the pages that were.
pub proof fn a_page_counts_where_it_was_taken(
    run: &mut PageScrollRun,
    status: i32,
    scope: &mut Fields,
    outcome: Result<SettlementSignal, NativeError>,
)
    requires
        call_ensures(PageScrollRun::page_done, (run, status, scope), outcome),
    ensures
        outcome is Ok <==> status == 0,
        final(run).completed == old(run).completed + if status == 0 {
            1int
        } else {
            0int
        },
        final(run).pages == old(run).pages,
        outcome is Ok ==> outcome->Ok_0 == SettlementSignal::AxAction,
        outcome is Err ==> outcome->Err_0.phase == ErrorPhase::Dispatch,
{
}

/// A run is over exactly when as many pages were taken as were asked for.
pub proof fn a_scroll_ends_with_its_last_page(run: &PageScrollRun, pending: bool)
    requires
        call_ensures(PageScrollRun::pending, (run,), pending),
        run.wf(),
    ensures
        !pending <==> run.completed == run.pages,
{
}

/// A page scroll moves by the pages and the direction that were asked for, by the
/// action of the route, and presses only what can be pressed.
pub proof fn a_page_scroll_keeps_its_request(
    route: PageRoute,
    direction: crate::contracts::ScrollDirection,
    pages: u16,
    found: Result<RetainedAxElement, NativeError>,
    epoch: u64,
    prepared: Result<MacPreparedSemanticAction, NativeError>,
)
    requires
        call_ensures(
            semantic::prepare_page_scroll,
            (route, direction, pages, found, epoch),
            prepared,
        ),
    ensures
        prepared is Ok <==> found is Ok && (!route.scrollbar_child
            || route.element@.actions.contains("AXPress"@)),
        prepared is Ok ==> {
            &&& prepared->Ok_0.signal_epoch == epoch
            &&& prepared->Ok_0.kind is PageScroll
            &&& prepared->Ok_0.kind->pages == pages
            &&& prepared->Ok_0.kind->direction == direction
            &&& prepared->Ok_0.kind->route.action == route.action
            &&& prepared->Ok_0.kind.acted_on().element == found->Ok_0
        },
{
}

/// The element that a request is carried out on is the one that was observed: with
/// the same identity, the same owner window and the same state.
pub proof fn only_the_observed_element_is_found_again(
    state: &RegisteredElementSnapshot,
    reads: &RefetchReads,
    live: Result<RetainedAxElement, NativeError>,
)
    requires
        call_ensures(semantic::refetch_registered_exact, (state, reads), live),
        live is Ok,
    ensures
        live->Ok_0.identity == state@.element.identity,
        reads.owner_window_id == state.owner_window_id,
        reads.live_owner == Ok::<u32, NativeError>(state.owner_window_id),
        text::optional_text(reads.live.role) == Some(state@.role),
        text::optional_text(reads.live.subrole) == state@.subrole,
        reads.live.actions is Some,
        forall|action: Seq<char>| #[trigger]
            text::texts(reads.live.actions->0@).contains(action) <==> state@.actions.contains(
                action,
            ),
        reads.live.string_value() == state@.string_value,
        state@.parent is Some ==> reads.parent is Ok && reads.parent->Ok_0 is Some
            && reads.parent->Ok_0->0.identity == state@.parent->0.identity,
{
    let listed = text::texts(reads.live.actions->0@);
    assert forall|action: Seq<char>| #[trigger] listed.contains(action) implies state@.actions.contains(
        action,
    ) by {
        let i = choose|i: int| 0 <= i < listed.len() && listed[i] == action;
        assert(state@.actions.contains(listed[i]));
    }
    assert forall|action: Seq<char>| state@.actions.contains(action) implies #[trigger] listed.contains(
        action,
    ) by {
        let i = choose|i: int| 0 <= i < state@.actions.len() && state@.actions[i] == action;
        assert(listed.contains(state@.actions[i]));
    }
}

/// A child is found where exactly one of the children has its identity.
pub proof fn a_child_is_found_where_it_is_the_only_one(
    children: &Vec<RetainedAxElement>,
    expected: &RetainedAxElement,
    child: Result<RetainedAxElement, NativeError>,
)
    requires
        call_ensures(semantic::exact_child_of, (children, expected), child),
    ensures
        child is Ok ==> child->Ok_0.identity == expected.identity && children@.contains(
            child->Ok_0,
        ),
        child is Ok ==> forall|i: int, j: int|
            0 <= i < children@.len() && 0 <= j < children@.len() && (#[trigger]
            children@[i]).identity == expected.identity && (#[trigger] children@[j]).identity
                == expected.identity ==> i == j,
        child is Err ==> child->Err_0.code == ErrorCode::ElementStale && child->Err_0.retryable,
{
    if child is Ok {
        let element = child->Ok_0;
        let at = choose|i: int|
            {
                &&& #[trigger] semantic::identity_at(children@, expected.identity, i)
                &&& children@[i] == element
                &&& forall|j: int| #[trigger]
                    semantic::identity_at(children@, expected.identity, j) ==> j == i
            };
        assert(children@[at] == element);
        assert forall|i: int, j: int|
            0 <= i < children@.len() && 0 <= j < children@.len() && (#[trigger]
            children@[i]).identity == expected.identity && (#[trigger] children@[j]).identity
                == expected.identity implies i == j by {
            assert(semantic::identity_at(children@, expected.identity, i));
            assert(semantic::identity_at(children@, expected.identity, j));
        }
    }
}

/// An owner window is found where exactly one window of the application has its
/// number.
pub proof fn an_owner_window_is_found_by_its_number(
    available: bool,
    windows: &Vec<ApplicationWindow>,
    window_id: u32,
    window: Result<RetainedAxElement, NativeError>,
)
    requires
        call_ensures(semantic::exact_ax_window, (available, windows, window_id), window),
    ensures
        window is Ok ==> available && exists|i: int|
            0 <= i < windows@.len() && (#[trigger] windows@[i]).window_id == Some(window_id)
                && windows@[i].element == window->Ok_0,
        !available ==> window is Err,
{
    if window is Ok {
        let at = choose|i: int|
            {
                &&& #[trigger] semantic::window_at(windows@, window_id, i)
                &&& windows@[i].element == window->Ok_0
                &&& forall|j: int| #[trigger] semantic::window_at(windows@, window_id, j) ==> j == i
            };
        assert(windows@[at].window_id == Some(window_id));
    }
}

/// An action runs only on the window that it was prepared for, and only while
/// nothing has been signalled since.
pub proof fn only_an_undisturbed_target_is_acted_on(
    invalidated: bool,
    target: &ResolvedWindowStamp,
    owner: &ResolvedWindowStamp,
    window: &ResolvedWindowStamp,
    epoch: u64,
    prepared_epoch: u64,
    outcome: Result<(), NativeError>,
)
    requires
        call_ensures(
            semantic::revalidate_prepared,
            (invalidated, target, owner, window, epoch, prepared_epoch),
            outcome,
        ),
    ensures
        outcome is Ok <==> !invalidated && owner@ == target@ && window@ == target@ && epoch
            == prepared_epoch,
        outcome is Err && !invalidated && owner@ == target@ && window@ == target@
            ==> outcome->Err_0.code == ErrorCode::ObservationRaced,
        outcome is Err && (invalidated || owner@ != target@ || window@ != target@)
            ==> outcome->Err_0.code == ErrorCode::WindowIdentityChanged,
        outcome is Err ==> outcome->Err_0.retryable,
{
}

/// An element is admitted only for a semantic action, inside the locked target,
/// and as it was registered.
pub proof fn only_registered_elements_are_admitted(
    registry: &MacElementRegistry,
    invalidated: bool,
    target: &ResolvedWindowStamp,
    route: Route,
    owner: &ResolvedWindowStamp,
    window: &ResolvedWindowStamp,
    element: &ResolvedElement,
    state: Result<RegisteredElementSnapshot, NativeError>,
)
    requires
        call_ensures(
            semantic::admit_element,
            (registry, invalidated, target, route, owner, window, element),
            state,
        ),
        state is Ok,
    ensures
        route == Route::Semantic,
        !invalidated,
        owner@ == target@ && window@ == target@ && element.window@ == target@,
        state->Ok_0@.owner == element.owner@,
        Some(state->Ok_0@.role) == text::optional_text(element.role),
        exists|i: int|
            0 <= i < registry@.len() && (#[trigger] registry@[i]).state == state->Ok_0@,
{
    let i = choose|i: int| #[trigger]
        semantic::named_first(registry@, *element, i) && registry@[i].state == state->Ok_0@;
    assert(registry@[i].state == state->Ok_0@);
}

/// Opening a menu waits for it, acting in one waits for its reaction, and nothing
/// else is in step with a menu.
pub proof fn menus_are_waited_for(
    intent: &Option<MenuMutationIntent>,
    opens_menu: bool,
    step: Result<MenuStep, NativeError>,
)
    requires
        call_ensures(semantic::menu_step, (intent, opens_menu), step),
    ensures
        *intent is None ==> step is Ok && step->Ok_0 is Nothing,
        *intent is Some && intent->0 is Opening ==> if opens_menu {
            step is Ok && step->Ok_0 is WaitForOpened
        } else {
            step is Err
        },
        *intent is Some && intent->0 is Targeting ==> if opens_menu {
            step is Err
        } else {
            step is Ok && step->Ok_0 is AwaitReaction
        },
        *intent is Some && intent->0 is Dismissing ==> step is Err,
{
}

/// A menu that was acted in is still open where one is found, and dismissed where
/// none is.
pub proof fn a_menu_is_dismissed_where_none_is_found(
    found: Option<NativeMenuIdentity>,
    prior: NativeMenuIdentity,
    outcome: (MenuOutcome, NativeMenuIdentity),
)
    requires
        call_ensures(semantic::menu_outcome_after_target, (found, prior), outcome),
    ensures
        outcome.0 is Dismissed <==> found is None,
        outcome.0 is Targeted <==> found is Some,
        outcome.1 == if found is Some {
            found->0
        } else {
            prior
        },
{
}

/// A menu that opens and one that closes are signalled as what they are.
pub proof fn menu_outcomes_signal_themselves(
    outcome: MenuOutcome,
    signal: Option<SettlementSignal>,
)
    requires
        call_ensures(MenuOutcome::signal, (outcome,), signal),
    ensures
        signal == Some(SettlementSignal::MenuOpened) <==> outcome is Opened,
        signal == Some(SettlementSignal::MenuDismissed) <==> outcome is Dismissed,
        signal is None <==> outcome is Targeted,
{
}

/// The wait for a menu ends well only with the menu, and with an error only when
/// time is up.
pub proof fn a_menu_is_waited_for_until_the_deadline(
    found: bool,
    now: u64,
    deadline: u64,
    opened: Result<bool, NativeError>,
)
    requires
        call_ensures(semantic::wait_for_opened_menu, (found, now, deadline), opened),
    ensures
        opened == Ok::<bool, NativeError>(true) <==> found,
        opened is Err <==> !found && now >= deadline,
{
}

/// A page route is the first link that can scroll: an element that scrolls itself
/// by its own action, a container by pressing its only page part.
pub proof fn a_scroll_goes_by_the_nearest_link(
    chain: &Vec<RegisteredElementSnapshot>,
    list: &Vec<RegisteredElementSnapshot>,
    direction: crate::contracts::ScrollDirection,
    route: Option<PageRoute>,
)
    requires
        call_ensures(semantic::scroll_route, (chain, list, direction), route),
    ensures
        route is Some ==> exists|at: int|
            {
                &&& 0 <= at < chain@.len()
                &&& if route->0.scrollbar_child {
                    route->0.action@ == "AXPress"@ && scroll::page_route(
                        direction,
                        (#[trigger] chain@[at])@.actions,
                        chain@[at]@.orientation,
                    ) is None
                } else {
                    route->0.element@ == chain@[at]@ && scroll::page_route(
                        direction,
                        chain@[at]@.actions,
                        chain@[at]@.orientation,
                    ) == Some(route->0.action@)
                }
                &&& forall|i: int|
                    0 <= i < at ==> scroll::page_route(
                        direction,
                        (#[trigger] chain@[i])@.actions,
                        chain@[i]@.orientation,
                    ) is None
            },
        route is None ==> forall|i: int|
            0 <= i < chain@.len() ==> scroll::page_route(
                direction,
                (#[trigger] chain@[i])@.actions,
                chain@[i]@.orientation,
            ) is None,
{
    let states = crate::driver::elements::states_view(list@);
    let links = crate::driver::elements::states_view(chain@);
    if route is Some {
        let at = choose|at: int| #[trigger]
            semantic::first_scrolling(states, links, direction, at) && semantic::routes_to(
                states,
                links[at],
                direction,
                route->0,
            );
        assert(links[at] == chain@[at]@);
        assert forall|i: int| 0 <= i < at implies scroll::page_route(
            direction,
            (#[trigger] chain@[i])@.actions,
            chain@[i]@.orientation,
        ) is None by {
            assert(links[i] == chain@[i]@);
            assert(!semantic::scrolls(states, links[i], direction));
        }
    } else {
        assert(links.len() == chain@.len());
        assert forall|i: int| 0 <= i < chain@.len() implies scroll::page_route(
            direction,
            (#[trigger] chain@[i])@.actions,
            chain@[i]@.orientation,
        ) is None by {
            assert(links[i] == chain@[i]@);
            assert(!semantic::scrolls(states, links[i], direction));
        }
    }
}

/// A range is resolved for the text that was asked for: cutting the document there
/// gives the text, and the context lies right beside it.
pub proof fn a_resolved_range_lies_on_the_text(
    document: &str,
    selection: &SelectionSpec,
    range: Result<AxCfRange, NativeError>,
)
    requires
        call_ensures(selection::resolve_selection_range, (document, selection), range),
        range is Ok,
    ensures
        exists|head: Seq<char>, tail: Seq<char>|
            {
                &&& document@ == #[trigger] (head + selection.text@ + tail)
                &&& selection.prefix is Some ==> selection.prefix->0@.len() <= head.len()
                    && head.skip(head.len() - selection.prefix->0@.len()) == selection.prefix->0@
                &&& selection.suffix is Some ==> selection.suffix->0@.len() <= tail.len()
                    && tail.take(selection.suffix->0@.len() as int) == selection.suffix->0@
                &&& match selection.selection_type {
                    SelectionType::Text => range->Ok_0.location == text::utf16_len(head)
                        && range->Ok_0.length == text::utf16_len(selection.text@),
                    SelectionType::CursorBefore => range->Ok_0.location == text::utf16_len(head)
                        && range->Ok_0.length == 0,
                    SelectionType::CursorAfter => range->Ok_0.location == text::utf16_len(head)
                        + text::utf16_len(selection.text@) && range->Ok_0.length == 0,
                }
            },
{
    let chosen = range->Ok_0;
    let at = choose|at: int|
        {
            &&& #[trigger] selection::only_place(document@, *selection, at)
            &&& chosen.location == selection::selection_location(document@, *selection, at)
            &&& chosen.length == selection::selection_length(*selection)
        };
    let wanted = selection.text@;
    let head = document@.take(at);
    let tail = document@.skip(at + wanted.len());
    selection::a_resolved_range_covers_its_text(document@, *selection, at);
    assert(document@ == head + wanted + tail);
    if selection.prefix is Some {
        let prefix = selection.prefix->0@;
        assert(head.skip(head.len() - prefix.len()) =~= prefix);
    }
    if selection.suffix is Some {
        let suffix = selection.suffix->0@;
        assert(tail.take(suffix.len() as int) =~= suffix);
    }
}

} // verus!
