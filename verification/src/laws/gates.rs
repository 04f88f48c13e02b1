//! What stands in the way of an action, and what does not.
use vstd::prelude::*;

use crate::ax::bindings::AxCfRange;
use crate::contracts::{
    ActionShape, ClickSpec, MouseButton, ResolvedWindowStamp, Route, ScrollDirection,
};
use crate::driver::actions::click;
use crate::driver::actions::click::{ClipStep, ClipWalk, HitContainment, ParentWalk, WebContext};
use crate::driver::actions::pointer;
use crate::driver::actions::pointer::{
    CleanupResult, FailurePlan, PointerRun, PreparedSequence, ResolvedPoint,
};
use crate::driver::actions::scroll;
use crate::driver::actions::semantic;
use crate::driver::actions::semantic::{
    AxOpenVerification, Candidate, MacPreparedSemanticAction, OwnerWalk, PageRoute, PageScrollRun,
    SemanticRequest,
};
use crate::driver::actions::NativeDispatch;
use crate::driver::elements;
use crate::driver::elements::{MacElementRegistry, RegisteredElementSnapshot};
use crate::driver::snapshot::RetainedAxElement;
use crate::errors::{ErrorCode, ErrorPhase, NativeError};
use crate::evidence;
use crate::evidence::Fields;
use crate::text;

verus! {

/// Action lists are the same where they have the same members, in any order.
pub proof fn action_lists_have_no_order(
    left: &Vec<String>,
    right: &Vec<String>,
    same: bool,
    back: bool,
    i: int,
)
    requires
        call_ensures(semantic::same_actions, (left, right), same),
        call_ensures(semantic::same_actions, (right, left), back),
    ensures
        same == back,
        same && 0 <= i < left@.len() ==> text::texts(right@).contains(left@[i]@),
        same && 0 <= i < right@.len() ==> text::texts(left@).contains(right@[i]@),
        text::texts(left@) == text::texts(right@) ==> same,
{
    let l = text::texts(left@);
    let r = text::texts(right@);
    if same && 0 <= i < left@.len() {
        assert(l[i] == left@[i]@);
    }
    if same && 0 <= i < right@.len() {
        assert(r[i] == right@[i]@);
    }
}

/// What was read back is what was written where it is there and the same.
pub proof fn what_is_read_back_is_the_same(
    readback: &Option<String>,
    expected: &str,
    typed: bool,
    range: Option<AxCfRange>,
    expected_range: AxCfRange,
    selected: bool,
    left: Option<u64>,
    right: Option<u64>,
    values: bool,
)
    requires
        call_ensures(
            semantic::exact_typed_cfstring_readback_matches,
            (readback, expected),
            typed,
        ),
        call_ensures(
            semantic::exact_typed_selection_readback_matches,
            (range, readback, expected_range, expected),
            selected,
        ),
        call_ensures(semantic::same_values, (left, right), values),
    ensures
        typed <==> *readback is Some && readback->0@ == expected@,
        selected <==> typed && range is Some && range->0 == expected_range,
        values <==> left == right,
{
}

/// A title was opened where it is new and the expected one.
pub proof fn a_title_was_opened_where_it_is_new(
    prior: &str,
    current: &str,
    expected: &str,
    opened: bool,
)
    requires
        call_ensures(semantic::ax_open_title_transition_matches, (prior, current, expected), opened),
    ensures
        opened ==> current@ == expected@ && current@ != prior@,
        current@ == expected@ && prior@ != expected@ ==> opened,
        prior@ == expected@ ==> !opened,
{
}

/// Scroll areas, web areas, lists, tables, outlines, browsers and text areas scroll.
pub proof fn containers_scroll(role: &str, container: bool)
    requires
        call_ensures(semantic::is_scroll_container_role, (role,), container),
    ensures
        role@ == "AXScrollArea"@ || role@ == "AXWebArea"@ || role@ == "AXList"@ || role@
            == "AXTable"@ || role@ == "AXOutline"@ || role@ == "AXBrowser"@ || role@
            == "AXTextArea"@ <==> container,
{
}

/// A plain left click presses, a plain right click opens a menu, and nothing else is
/// an action of an element.
pub proof fn plain_clicks_are_actions(
    role: &str,
    subrole: &Option<String>,
    click: &ClickSpec,
    action: Result<&'static str, NativeError>,
)
    requires
        call_ensures(semantic::click_action, (role, subrole, click), action),
    ensures
        action is Ok <==> click.click_count == 1 && click.modifiers@.len() == 0 && click.button
            != MouseButton::Middle,
        action is Ok && click.button == MouseButton::Left ==> action->Ok_0@ == "AXPress"@,
        action is Ok && click.button == MouseButton::Right ==> action->Ok_0@ == "AXShowMenu"@,
        action is Err ==> action->Err_0.code == ErrorCode::UnsupportedInBackground
            && !action->Err_0.retryable,
{
    if action is Err {
        assert(action->Err_0@.code == action->Err_0.code);
    }
}

/// An action is required by its own name.
pub proof fn an_action_is_required_by_name(
    actions: &Vec<String>,
    action: &str,
    outcome: Result<(), NativeError>,
    i: int,
)
    requires
        call_ensures(semantic::require_exact_action, (actions, action), outcome),
    ensures
        0 <= i < actions@.len() && actions@[i]@ == action@ ==> outcome is Ok,
        actions@.len() == 0 ==> outcome is Err,
        outcome is Err ==> outcome->Err_0.code == ErrorCode::UnsupportedInBackground,
{
    let listed = text::texts(actions@);
    assert(listed.len() == actions@.len());
    if 0 <= i < actions@.len() {
        assert(listed[i] == actions@[i]@);
    }
    if outcome is Err {
        assert(outcome->Err_0@.code == outcome->Err_0.code);
    }
}

/// A semantic action enters under the semantic route and its own window, all through.
pub proof fn a_semantic_scope_is_exact(
    target: &ResolvedWindowStamp,
    route: Route,
    owner: &ResolvedWindowStamp,
    window: &ResolvedWindowStamp,
    element_window: &ResolvedWindowStamp,
    outcome: Result<(), NativeError>,
)
    requires
        call_ensures(
            semantic::preflight_scope,
            (target, route, owner, window, element_window),
            outcome,
        ),
    ensures
        route != Route::Semantic ==> outcome is Err,
        owner@ != target@ || window@ != target@ || element_window@ != target@ ==> outcome is Err,
        route == Route::Semantic && owner@ == target@ && window@ == target@ && element_window@
            == target@ ==> outcome is Ok,
        outcome is Err ==> outcome->Err_0.code == ErrorCode::Internal && !outcome->Err_0.retryable,
{
    if outcome is Err {
        assert(outcome->Err_0@.code == outcome->Err_0.code);
    }
}

/// An element that can be pressed can be clicked, with one plain left click.
pub proof fn pressable_elements_can_be_clicked(
    live: &RegisteredElementSnapshot,
    click: &ClickSpec,
    candidate: Candidate,
)
    requires
        call_ensures(semantic::element_click_candidate, (live, click), candidate),
    ensures
        candidate is Prepared <==> click.click_count == 1 && click.modifiers@.len() == 0
            && click.button == MouseButton::Left && live@.actions.contains("AXPress"@),
{
    reveal_strlit("AXPress");
    reveal_strlit("AXShowMenu");
    assert("AXPress"@.len() != "AXShowMenu"@.len());
}

/// A scroll by parts of a page is none of an element's own.
pub proof fn whole_pages_scroll_elements(
    pages: Option<u16>,
    requested: &RegisteredElementSnapshot,
    list: &Vec<RegisteredElementSnapshot>,
    direction: ScrollDirection,
    candidate: Result<Candidate, NativeError>,
    route: Result<PageRoute, NativeError>,
)
    requires
        call_ensures(
            semantic::element_scroll_candidate,
            (pages, requested, list, direction),
            candidate,
        ),
        call_ensures(semantic::prepare_scroll_route, (requested, list, direction), route),
    ensures
        pages is None ==> candidate is Ok && candidate->Ok_0 is NotApplicable,
        pages is Some ==> (route is Ok <==> candidate is Ok && candidate->Ok_0 is Prepared),
        candidate is Err ==> route is Err,
{
}

/// A chain of ancestors starts with the element itself.
pub proof fn a_chain_starts_with_its_element(
    requested: &RegisteredElementSnapshot,
    list: &Vec<RegisteredElementSnapshot>,
    chain: Result<Vec<RegisteredElementSnapshot>, NativeError>,
)
    requires
        call_ensures(semantic::retained_ancestor_chain, (requested, list), chain),
    ensures
        chain is Ok ==> chain->Ok_0@.len() > 0 && chain->Ok_0@[0]@ == requested@,
        requested@.parent is None ==> chain is Ok && chain->Ok_0@.len() == 1,
        chain is Err ==> chain->Err_0.code == ErrorCode::ElementStale,
{
    let states = elements::states_view(list@);
    chain_keeps_its_start(
        states,
        seq![requested@],
        requested@.parent,
        requested@.owner,
        semantic::MAX_OWNER_DEPTH as nat,
    );
    if chain is Ok {
        let links = elements::states_view(chain->Ok_0@);
        assert(links.len() == chain->Ok_0@.len());
        assert(links[0] == chain->Ok_0@[0]@);
    } else {
        assert(chain->Err_0@.code == chain->Err_0.code);
    }
}

proof fn chain_keeps_its_start(
    states: Seq<elements::RegisteredView>,
    chain: Seq<elements::RegisteredView>,
    parent: Option<RetainedAxElement>,
    owner: crate::contracts::StampView,
    steps: nat,
)
    requires
        chain.len() > 0,
    ensures
        ({
            let links = semantic::ancestors(states, chain, parent, owner, steps);
            match links {
                Ok(links) => links.len() >= chain.len() && links[0] == chain[0],
                Err(error) => error.code == ErrorCode::ElementStale,
            }
        }),
    decreases steps,
{
    if parent is Some && steps > 0 && !semantic::holds_identity(chain, parent->0.identity) {
        let found = semantic::matching(states, parent->0.identity);
        if found.len() == 1 && found[0].owner == owner {
            chain_keeps_its_start(
                states,
                chain.push(found[0]),
                found[0].parent,
                owner,
                (steps - 1) as nat,
            );
        }
    }
}

/// An owner is looked for upwards, never twice at the same element, and not for ever.
pub proof fn an_owner_is_looked_for_upwards(
    walk: &mut OwnerWalk,
    parent: Result<Option<RetainedAxElement>, i32>,
    outcome: Result<(), NativeError>,
)
    requires
        call_ensures(OwnerWalk::ascend, (walk, parent), outcome),
        old(walk).steps < 64,
    ensures
        parent is Err ==> outcome is Err,
        parent is Ok && parent->Ok_0 is None ==> outcome is Err,
        parent is Ok && parent->Ok_0 is Some && parent->Ok_0->0.identity
            == old(walk).current.identity ==> outcome is Err,
        outcome is Ok ==> final(walk).current == parent->Ok_0->0 && final(walk).steps
            == old(walk).steps + 1,
        parent is Ok && parent->Ok_0 is Some && parent->Ok_0->0.identity
            != old(walk).current.identity ==> (outcome is Ok <==> old(walk).steps + 1 < 64),
        outcome is Err ==> outcome->Err_0.code == ErrorCode::ElementStale
            && outcome->Err_0.retryable,
{
    if outcome is Err {
        assert(outcome->Err_0@.code == outcome->Err_0.code);
    }
}

/// Shapes without a semantic way are refused.
pub proof fn shapes_without_a_semantic_way_are_refused(
    shape: &ActionShape,
    refusal: Option<NativeError>,
)
    requires
        call_ensures(semantic::refuse_shape, (shape,), refusal),
    ensures
        refusal is Some <==> *shape is DeltaScroll || *shape is TypeText || *shape is PointClick
            || *shape is Drag || *shape is PressKey,
        *shape is DeltaScroll || *shape is TypeText ==> refusal->0.code
            == ErrorCode::UnsupportedInBackground,
        *shape is PointClick || *shape is Drag || *shape is PressKey ==> refusal->0.code
            == ErrorCode::Internal,
{
    if refusal is Some {
        assert(refusal->0@.code == refusal->0.code);
    }
}

/// Whole pages are scrolled as they are, and others refused.
pub proof fn whole_pages_are_scrolled_as_they_are(
    pages: Option<u16>,
    count: Result<u16, NativeError>,
)
    requires
        call_ensures(semantic::semantic_pages, (pages,), count),
    ensures
        pages is Some ==> count is Ok && count->Ok_0 == pages->0,
        pages is None ==> count is Err && count->Err_0.code == ErrorCode::UnsupportedInBackground,
{
    if count is Err {
        assert(count->Err_0@.code == count->Err_0.code);
    }
}

/// An open is looked after where a title is expected, the window is the observed one
/// and it had a title before.
pub proof fn an_open_is_looked_after_in_its_own_window(
    expected: Option<String>,
    owner: Option<(i32, u32)>,
    observed: u32,
    prior: Option<String>,
    verification: Option<AxOpenVerification>,
)
    requires
        call_ensures(
            semantic::prepare_ax_open_verification,
            (expected, owner, observed, prior),
            verification,
        ),
    ensures
        verification is Some <==> expected is Some && expected->0@.len() > 0 && prior is Some && (
        owner matches Some((pid, window)) && window == observed),
        verification is Some ==> verification->0.expected_title@ == expected->0@
            && verification->0.prior_title@ == prior->0@ && verification->0.owner_window_id
            == observed,
        verification is Some ==> (owner matches Some((pid, window)) && verification->0.pid == pid),
{
}

/// A dispatch that the system refused is not tried again; a failed look is.
pub proof fn refused_dispatches_are_not_tried_again(
    operation: &str,
    status: i32,
    dispatch: NativeError,
    stale: NativeError,
    looked: NativeError,
    verified: NativeError,
)
    requires
        call_ensures(semantic::ax_dispatch_error, (operation, status), dispatch),
        call_ensures(semantic::ax_stale_error, (operation, status), stale),
        call_ensures(semantic::ax_verification_error, (operation, status), looked),
        call_ensures(semantic::verification_error, (operation,), verified),
    ensures
        dispatch.code == ErrorCode::DispatchFailed && dispatch.phase == ErrorPhase::Dispatch
            && !dispatch.retryable,
        stale.code == ErrorCode::ElementStale && stale.phase == ErrorPhase::Preflight
            && stale.retryable,
        looked.code == ErrorCode::VerificationFailed && looked.phase == ErrorPhase::Verify
            && looked.retryable,
        verified.code == ErrorCode::VerificationFailed && verified.phase == ErrorPhase::Verify
            && verified.retryable && verified.message@ == operation@,
        dispatch@.details["ax_error"@] == evidence::DetailView::Int(status as int),
        stale@.details["ax_error"@] == evidence::DetailView::Int(status as int),
        looked@.details["ax_error"@] == evidence::DetailView::Int(status as int),
{
    assert(dispatch@.code == dispatch.code);
    assert(stale@.code == stale.code);
    assert(looked@.code == looked.code);
    assert(verified@.code == verified.code);
}

/// A refetch holds where nothing was heard meanwhile.
pub proof fn a_refetch_holds_where_nothing_was_heard(
    before: u64,
    after: u64,
    outcome: Result<(), NativeError>,
)
    requires
        call_ensures(semantic::revalidate_refetch_epoch, (before, after), outcome),
    ensures
        outcome is Ok <==> before == after,
        outcome is Err ==> outcome->Err_0.code == ErrorCode::ObservationRaced
            && outcome->Err_0.retryable,
{
    if outcome is Err {
        assert(outcome->Err_0@.code == outcome->Err_0.code);
    }
}

/// A page scroll starts with nothing done, and says how far it came.
pub proof fn a_page_scroll_starts_with_nothing_done(
    pages: u16,
    direction: ScrollDirection,
    child: bool,
    scope: &mut Fields,
    run: PageScrollRun,
)
    requires
        call_ensures(PageScrollRun::begin, (pages, direction, child, scope), run),
    ensures
        run.pages == pages,
        run.completed == 0,
        run.scrollbar_child == child,
        final(scope)@["semantic_scroll_requested_pages"@] == evidence::DetailView::Int(
            pages as int,
        ),
        final(scope)@["semantic_scroll_completed_pages"@] == evidence::DetailView::Int(0),
{
    reveal_strlit("semantic_scroll_requested_pages");
    reveal_strlit("semantic_scroll_direction");
    reveal_strlit("semantic_scroll_route");
    reveal_strlit("semantic_scroll_completed_pages");
    assert("semantic_scroll_requested_pages"@.len() == 31);
    assert("semantic_scroll_completed_pages"@.len() == 31);
    assert("semantic_scroll_direction"@.len() == 25);
    assert("semantic_scroll_route"@.len() == 21);
    assert("semantic_scroll_requested_pages"@[16] == 'r');
    assert("semantic_scroll_completed_pages"@[16] == 'c');
}

/// An element that was not found again is not acted on; one that was is acted on at
/// the epoch it was found at.
pub proof fn only_elements_found_again_are_prepared(
    request: SemanticRequest,
    state: RegisteredElementSnapshot,
    found: Result<RetainedAxElement, NativeError>,
    opening: Option<AxOpenVerification>,
    epoch: u64,
    prepared: Result<MacPreparedSemanticAction, NativeError>,
)
    requires
        call_ensures(
            semantic::prepare_element,
            (request, state, found, opening, epoch),
            prepared,
        ),
    ensures
        found is Err ==> prepared is Err && prepared->Err_0 == found->Err_0,
        prepared is Ok ==> prepared->Ok_0.signal_epoch == epoch,
        request is SetValue && found is Ok ==> (prepared is Ok <==> state@.value_settable == Some(
            true,
        ) && state@.string_value is Some),
        request is SetValue && prepared is Ok ==> prepared->Ok_0.kind is SetValue
            && prepared->Ok_0.kind->value@ == request->value@,
        request is Click && prepared is Ok ==> prepared->Ok_0.kind is AxAction,
{
}

/// A point holds where it is of the target, its geometry and its transform.
pub proof fn a_point_holds_on_its_own_target(
    target: &ResolvedWindowStamp,
    scope_owner: &ResolvedWindowStamp,
    point: &ResolvedPoint,
    outcome: Result<(), NativeError>,
)
    requires
        call_ensures(pointer::ensure_point_matches_target, (target, scope_owner, point), outcome),
    ensures
        outcome is Ok <==> point.window@ == target@ && scope_owner@ == target@
            && point.geometry_revision@ == target@.geometry_revision && point.transform_agrees,
        outcome is Err ==> outcome->Err_0.code == ErrorCode::SurfaceStale,
{
    if outcome is Err {
        assert(outcome->Err_0@.code == outcome->Err_0.code);
    }
}

/// Whole deltas are scrolled as they are, and page scrolls need bounds.
pub proof fn scrolls_need_whole_deltas_and_bounds(
    value: Option<i32>,
    field: &str,
    delta: Result<i32, NativeError>,
    has_bounds: bool,
    outcome: Result<(), NativeError>,
)
    requires
        call_ensures(pointer::validate_integral_scroll_delta, (value, field), delta),
        call_ensures(pointer::page_scroll_bounds, (has_bounds,), outcome),
    ensures
        value is Some ==> delta is Ok && delta->Ok_0 == value->0,
        value is None ==> delta is Err && delta->Err_0.code == ErrorCode::UnsupportedInBackground
            && !delta->Err_0.retryable,
        outcome is Ok <==> has_bounds,
        outcome is Err ==> outcome->Err_0.code == ErrorCode::UnsupportedInBackground,
{
    if delta is Err {
        assert(delta->Err_0@.code == delta->Err_0.code);
    }
    if outcome is Err {
        assert(outcome->Err_0@.code == outcome->Err_0.code);
    }
}

/// Events are posted in order, from the first, each once.
pub proof fn events_are_posted_one_by_one(
    run: &PointerRun,
    sequence: &PreparedSequence,
    index: Option<usize>,
)
    requires
        call_ensures(PointerRun::next, (run, sequence), index),
        run.evidence.completed_events <= sequence.events@.len(),
    ensures
        index is Some <==> run.evidence.completed_events < sequence.events@.len(),
        index is Some ==> index->0 == run.evidence.completed_events,
{
}

/// A run starts with nothing posted and nothing pressed.
pub proof fn a_pointer_run_starts_with_nothing_posted(
    now: u64,
    deadline: u64,
    sequence: &PreparedSequence,
    run: PointerRun,
)
    requires
        call_ensures(PointerRun::begin, (now, deadline, sequence), run),
    ensures
        run.started_at == now,
        run.deadline == deadline,
        !run.posting,
        run.pressed is None,
        run.evidence.completed_events == 0,
        !run.evidence.may_have_partially_landed,
        !run.evidence.cleanup_attempted,
{
}

/// A failed run says whether something is still pressed: only a release that failed
/// keeps it from being tried again.
pub proof fn a_failed_run_says_what_was_released(
    run: &mut PointerRun,
    plan: FailurePlan,
    released: bool,
    error: NativeError,
    reported: NativeError,
)
    requires
        call_ensures(PointerRun::fail, (run, plan, released, error), reported),
    ensures
        final(run).pressed is None,
        final(run).evidence.cleanup_attempted <==> plan.release is Some,
        final(run).evidence.cleanup_succeeded <==> plan.release is None || released,
        final(run).evidence.may_have_partially_landed == plan.dispatch_started,
        final(run).evidence.completed_events == old(run).evidence.completed_events,
        reported.code == error.code,
        reported.message@ == error.message@,
        plan.release is Some && !released ==> !reported.retryable,
        plan.release is None || released ==> reported.retryable == error.retryable,
{
    assert(reported@.code == reported.code);
    assert(error@.code == error.code);
}

/// A run that is over has landed whole.
pub proof fn a_finished_run_has_landed(run: &mut PointerRun, sequence: &PreparedSequence)
    requires
        call_ensures(PointerRun::finish, (run, sequence), ()),
    ensures
        !final(run).evidence.may_have_partially_landed,
        final(run).evidence.cleanup_succeeded,
        final(run).evidence.modifiers_cleared,
        final(run).evidence.completed_events == old(run).evidence.completed_events,
        final(run).evidence.cleanup_attempted == old(run).evidence.cleanup_attempted,
{
}

/// Cleanup that was not needed did not fail.
pub proof fn cleanup_that_was_not_needed_did_not_fail(
    result: CleanupResult,
    error: NativeError,
    cleanup: CleanupResult,
    completed: usize,
    reported: NativeError,
)
    requires
        call_ensures(CleanupResult::not_needed, (), result),
        call_ensures(pointer::error_with_cleanup, (error, cleanup, completed), reported),
    ensures
        !result.attempted && result.succeeded,
        reported.code == error.code && reported.phase == error.phase && reported.message@
            == error.message@,
        cleanup.attempted && !cleanup.succeeded ==> !reported.retryable,
        !cleanup.attempted || cleanup.succeeded ==> reported.retryable == error.retryable,
{
    assert(reported@.code == reported.code);
    assert(error@.code == error.code);
}

/// Web content is known by the browser or by what stands above the element.
pub proof fn web_content_is_known_by_browser_or_ancestry(
    bundle_id: &Option<String>,
    ancestry: Result<bool, String>,
    context: WebContext,
)
    requires
        call_ensures(click::web_context, (bundle_id, ancestry), context),
    ensures
        *bundle_id is Some && bundle_id->0@ == "com.openai.atlas"@ ==> context is Web,
        *bundle_id is None && ancestry is Ok ==> (context is Web <==> ancestry->Ok_0),
        *bundle_id is None && ancestry is Ok && !ancestry->Ok_0 ==> context is Native,
        *bundle_id is None && ancestry is Err ==> context is NotProven && context->NotProven_0@
            == ancestry->Err_0@,
        *bundle_id is Some && bundle_id->0@ != "com.openai.atlas"@ && ancestry is Ok
            ==> (context is Web <==> ancestry->Ok_0),
{
}

/// What was hit is walked up from; without it nothing is proven.
pub proof fn what_was_hit_is_walked_up_from(
    available: bool,
    hit: Result<Option<RetainedAxElement>, i32>,
    walk: Result<ParentWalk, HitContainment>,
)
    requires
        call_ensures(click::hit_element, (available, hit), walk),
    ensures
        walk is Ok <==> available && hit is Ok && hit->Ok_0 is Some,
        walk is Ok ==> walk->Ok_0.current == hit->Ok_0->0 && walk->Ok_0.seen@.len() == 0,
        walk is Err ==> walk->Err_0 is NotProven,
{
}

/// A clip is walked up to the root, once through each element, and not for ever.
pub proof fn a_clip_is_walked_up_to_the_root(
    walk: &ClipWalk,
    parent: Result<Option<RetainedAxElement>, i32>,
    step: Result<ClipStep, NativeError>,
)
    requires
        call_ensures(ClipWalk::ascend, (walk, parent), step),
    ensures
        parent is Err ==> step is Err,
        parent is Ok && parent->Ok_0 is None && walk.seen@.len() < 300 ==> step is Ok
            && step->Ok_0 is Finished,
        parent is Ok && parent->Ok_0 is Some && walk.seen@.contains(parent->Ok_0->0.identity)
            ==> step is Err,
        parent is Ok && parent->Ok_0 is Some && !walk.seen@.contains(parent->Ok_0->0.identity)
            ==> step is Ok && step->Ok_0 is ReadRole,
        step is Err ==> step->Err_0.code == ErrorCode::ElementStale && step->Err_0.retryable,
{
    if step is Err {
        assert(step->Err_0@.code == step->Err_0.code);
    }
}

/// An element that was passed is remembered.
pub proof fn a_passed_element_is_remembered(
    walk: &mut ClipWalk,
    ancestor: &RetainedAxElement,
    outcome: Result<(), NativeError>,
    begun: ClipWalk,
)
    requires
        call_ensures(ClipWalk::pass, (walk, ancestor), outcome),
        call_ensures(ClipWalk::begin, (ancestor,), begun),
    ensures
        final(walk).seen@.last() == ancestor.identity,
        final(walk).seen@.len() == old(walk).seen@.len() + 1,
        outcome is Err ==> final(walk).seen@.len() > 300,
        begun.seen@ == seq![ancestor.identity],
{
}

/// What cannot be clicked says why.
pub proof fn what_cannot_be_clicked_says_why(
    message: &str,
    status: i32,
    stale: NativeError,
    geometry: NativeError,
    offscreen: NativeError,
)
    requires
        call_ensures(click::stale_ax, (message, status), stale),
        call_ensures(click::stale_geometry, (message,), geometry),
        call_ensures(click::offscreen_error, (), offscreen),
    ensures
        stale.code == ErrorCode::ElementStale && stale.retryable,
        geometry.code == ErrorCode::ElementStale && geometry.retryable && geometry.message@
            == message@,
        offscreen.code == ErrorCode::UnsupportedInBackground && !offscreen.retryable,
{
    assert(stale@.code == stale.code);
    assert(geometry@.code == geometry.code);
    assert(offscreen@.code == offscreen.code);
}

/// The one part that pages is found where it is the only one.
pub proof fn the_only_paging_part_is_found(
    root: &RegisteredElementSnapshot,
    list: &Vec<RegisteredElementSnapshot>,
    direction: ScrollDirection,
    child: Option<RegisteredElementSnapshot>,
    i: int,
    j: int,
)
    requires
        call_ensures(scroll::page_child_snapshot, (root, list, direction), child),
        scroll::page_child(elements::states_view(list@), root@, direction, i),
    ensures
        (forall|k: int| #[trigger]
            scroll::page_child(elements::states_view(list@), root@, direction, k) ==> k == i)
            ==> child is Some && child->0@ == list@[i]@,
        i != j && scroll::page_child(elements::states_view(list@), root@, direction, j)
            ==> child is None,
{
    let states = elements::states_view(list@);
    assert(states[i] == list@[i]@);
}

/// An element lies below itself.
pub proof fn an_element_lies_below_itself(
    candidate: &RegisteredElementSnapshot,
    root: &RegisteredElementSnapshot,
    list: &Vec<RegisteredElementSnapshot>,
    below: bool,
)
    requires
        call_ensures(scroll::is_descendant_or_same, (candidate, root, list), below),
    ensures
        candidate@.element.identity == root@.element.identity ==> below,
        candidate@.element.identity != root@.element.identity && candidate@.parent is None
            ==> !below,
        list@.len() > 0 && candidate@.parent is Some && candidate@.parent->0.identity
            == root@.element.identity ==> below,
{
    assert(elements::states_view(list@).len() == list@.len());
}

/// An element is registered where the target is live and the element its own.
pub proof fn only_live_targets_have_registered_elements(
    registry: &MacElementRegistry,
    invalidated: bool,
    target: &ResolvedWindowStamp,
    element: &semantic::ResolvedElement,
    state: Result<RegisteredElementSnapshot, NativeError>,
)
    requires
        call_ensures(semantic::registered_exact, (registry, invalidated, target, element), state),
    ensures
        invalidated ==> state is Err,
        target@ != element.window@ ==> state is Err,
        state is Ok ==> state->Ok_0@.owner == element.owner@,
        state is Ok ==> element.role is Some && element.role->0@ == state->Ok_0@.role,
        state is Err ==> state->Err_0.code == ErrorCode::ElementStale && state->Err_0.retryable,
{
    if state is Err {
        assert(state->Err_0@.code == state->Err_0.code);
    }
}

/// A page scroll that is over tells how many pages were done.
pub proof fn a_finished_page_scroll_counts_its_pages(run: &PageScrollRun, dispatch: NativeDispatch)
    requires
        call_ensures(PageScrollRun::finish, (run,), dispatch),
    ensures
        dispatch@.fields["completed_pages"@] == evidence::DetailView::Int(run.completed as int),
        dispatch@.verification == crate::contracts::VerificationLevel::DispatchVerified,
{
}

/// The parent of an element is the next link of its chain.
pub proof fn a_parent_is_the_next_link(
    requested: &RegisteredElementSnapshot,
    list: &Vec<RegisteredElementSnapshot>,
    chain: Result<Vec<RegisteredElementSnapshot>, NativeError>,
)
    requires
        call_ensures(semantic::retained_ancestor_chain, (requested, list), chain),
        requested@.parent is Some,
        requested@.parent->0.identity != requested@.element.identity,
        list@.len() == 1,
        list@[0]@.element.identity == requested@.parent->0.identity,
        list@[0]@.parent is None,
    ensures
        list@[0]@.owner == requested@.owner ==> chain is Ok && chain->Ok_0@.len() == 2
            && chain->Ok_0@[1]@ == list@[0]@,
        list@[0]@.owner != requested@.owner ==> chain is Err,
{
    let states = elements::states_view(list@);
    assert(states.len() == 1);
    assert(states[0] == list@[0]@);
    assert(states.last() == states[0]);
    assert(states.drop_last() =~= Seq::empty());
    reveal_with_fuel(semantic::matching, 3);
    reveal_with_fuel(semantic::ancestors, 3);
    let found = semantic::matching(states, requested@.parent->0.identity);
    assert(found =~= seq![states[0]]);
    assert(!semantic::holds_identity(seq![requested@], requested@.parent->0.identity));
    if chain is Ok {
        let links = elements::states_view(chain->Ok_0@);
        assert(links.len() == chain->Ok_0@.len());
        if links.len() == 2 {
            assert(links[1] == chain->Ok_0@[1]@);
        }
    }
}

} // verus!
