//! When things end, what they are called, and what they start with.
use vstd::prelude::*;

use crate::ax::tree_provider::ObserverState;
use crate::contracts::{ActionShape, ResolvedWindowStamp};
use crate::driver::actions::keyboard;
use crate::driver::actions::keyboard::{ExpectedInsertion, KeyboardWalk, ResolvedFocus, TargetedKeyEventKind};
use crate::driver::actions::pointer;
use crate::driver::actions::pointer::{
    EventPoint, PointerRun, PreparedPointerEvent, PreparedSequence, ResolvedPoint, SurfaceOwner,
};
use crate::driver::actions::semantic;
use crate::driver::attempt::ObservationAttempt;
use crate::driver::elements::RegisteredElementSnapshot;
use crate::driver::focus;
use crate::driver::frames::{FrameStatus, MacFrameHistory};
use crate::driver::observation;
use crate::driver::observation::{MacWindowFacts, TargetSettle, TemporaryArtifact};
use crate::driver::snapshot;
use crate::driver::snapshot::RetainedAxElement;
use crate::errors::{ErrorCode, ErrorPhase, NativeError};
use crate::evidence;
use crate::text;

verus! {

/// A sequence fits where its last event comes no later than the deadline.
pub proof fn a_sequence_fits_where_its_last_event_does(
    sequence: &PreparedSequence,
    now: u64,
    deadline: u64,
    outcome: Result<(), NativeError>,
    last: u64,
)
    requires
        call_ensures(pointer::ensure_sequence_fits_deadline, (sequence, now, deadline), outcome),
        sequence.events@.len() > 0,
        call_ensures(PreparedPointerEvent::scheduled_after, (&sequence.events@.last(),), last),
    ensures
        outcome is Ok <==> now + last * 1_000_000 <= deadline,
        outcome is Err ==> outcome->Err_0.code == ErrorCode::DispatchFailed
            && outcome->Err_0.phase == ErrorPhase::Preflight,
        outcome is Err && now + last * 1_000_000 <= u64::MAX ==> outcome->Err_0.retryable,
{
    let events = pointer::events_view(sequence.events@);
    assert(events.len() == sequence.events@.len());
    assert(events.last() == sequence.events@.last()@);
    if outcome is Err {
        assert(outcome->Err_0@.code == outcome->Err_0.code);
    }
}

/// An event waits for its own time, and not past the deadline.
pub proof fn an_event_waits_for_its_time(
    run: &PointerRun,
    sequence: &PreparedSequence,
    now: u64,
    wait: Result<u64, NativeError>,
    after: u64,
)
    requires
        call_ensures(PointerRun::schedule, (run, sequence, now), wait),
        run.evidence.completed_events < sequence.events@.len(),
        call_ensures(
            PreparedPointerEvent::scheduled_after,
            (&sequence.events@[run.evidence.completed_events as int],),
            after,
        ),
    ensures
        wait is Ok <==> now <= run.deadline && run.started_at + after * 1_000_000 <= run.deadline,
        wait is Ok && run.started_at + after * 1_000_000 > now ==> now + wait->Ok_0
            == run.started_at + after * 1_000_000,
        wait is Ok && run.started_at + after * 1_000_000 <= now ==> wait->Ok_0 == 0,
{
    let events = pointer::events_view(sequence.events@);
    assert(events[run.evidence.completed_events as int]
        == sequence.events@[run.evidence.completed_events as int]@);
}

/// Only the first post begins a dispatch.
pub proof fn only_the_first_post_begins(
    run: &mut PointerRun,
    sequence: &PreparedSequence,
    first: bool,
)
    requires
        call_ensures(PointerRun::enter_post, (run, sequence), first),
    ensures
        first <==> old(run).evidence.completed_events == 0,
        final(run).posting,
        final(run).evidence == old(run).evidence,
        final(run).deadline == old(run).deadline,
        final(run).started_at == old(run).started_at,
{
}

/// Events are where and when they are.
pub proof fn events_are_where_and_when_they_are(
    event: &PreparedPointerEvent,
    at: EventPoint,
    after: u64,
)
    requires
        call_ensures(PreparedPointerEvent::point, (event,), at),
        call_ensures(PreparedPointerEvent::scheduled_after, (event,), after),
    ensures
        *event matches PreparedPointerEvent::Mouse(mouse) ==> at == mouse.at && after
            == mouse.scheduled_after_ms,
        *event matches PreparedPointerEvent::PixelScroll {
            at: place,
            delta_x,
            delta_y,
            scheduled_after_ms,
        } ==> at == place && after == scheduled_after_ms,
{
}

/// A surface belongs to its owner, and a stale one says which it was.
pub proof fn a_surface_belongs_to_its_owner(
    owner: &SurfaceOwner,
    stamp: &ResolvedWindowStamp,
    point: &ResolvedPoint,
    message: &str,
    error: NativeError,
)
    requires
        call_ensures(pointer::surface_owner_stamp, (owner,), stamp),
        call_ensures(pointer::stale_surface, (point, message), error),
    ensures
        *owner matches SurfaceOwner::Target(window) ==> stamp@ == window@,
        *owner matches SurfaceOwner::RelatedTransient { owner: window, parent } ==> stamp@
            == window@,
        error.code == ErrorCode::SurfaceStale && error.retryable && error.message@ == message@,
{
    assert(error@.code == error.code);
}

/// A pause is short, and ends with the time there is.
pub proof fn a_pause_ends_with_the_time_there_is(now: u64, limit: u64, pause: u64)
    requires
        call_ensures(focus::acknowledgement_pause, (now, limit), pause),
    ensures
        pause <= 10_000_000,
        now < limit ==> now + pause <= limit && pause > 0,
        now + 10_000_000 <= limit ==> pause == 10_000_000,
{
}

/// A slice is the last one where all has settled or the time is up.
pub proof fn a_slice_is_the_last_where_all_has_settled(
    settled: bool,
    slice: u64,
    deadline: u64,
    last: bool,
    may_disappear: bool,
    settle: TargetSettle,
)
    requires
        call_ensures(observation::slice_is_final, (settled, slice, deadline), last),
        call_ensures(TargetSettle::begin, (may_disappear, deadline), settle),
    ensures
        settled ==> last,
        !settled ==> (last <==> slice == deadline),
        settle.deadline == deadline,
        may_disappear ==> settle.stage is Probe,
        !may_disappear ==> settle.stage is Settle,
        settle.result is None,
{
}

/// A capture that ran out of time is tried again; one that cannot be done is not
/// supported.
pub proof fn captures_that_ran_out_of_time_are_tried_again(
    message: &str,
    error: NativeError,
    window_id: u32,
    late: NativeError,
)
    requires
        call_ensures(observation::capture_error, (message,), error),
        call_ensures(observation::capture_deadline_error, (window_id,), late),
    ensures
        text::occurs(message@, "sample deadline elapsed"@) ==> error.code
            == ErrorCode::SurfaceStale,
        error.code == ErrorCode::SurfaceStale || error.code == ErrorCode::UnsupportedInBackground,
        error.retryable,
        late.code == ErrorCode::SurfaceStale && late.retryable,
        late@.details["cg_window_id"@] == evidence::DetailView::Int(window_id as int),
{
    assert(error@.code == error.code);
    assert(late@.code == late.code);
}

/// Workers and files that fail are internal failures, and may be tried again.
pub proof fn failed_workers_are_internal_failures(
    cause: &str,
    operation: &str,
    artifact: NativeError,
    joined: NativeError,
    unsupported: NativeError,
)
    requires
        call_ensures(observation::artifact_error, (cause,), artifact),
        call_ensures(observation::join_error, (operation, cause), joined),
        call_ensures(snapshot::ax_error, (cause,), unsupported),
    ensures
        artifact.code == ErrorCode::Internal && artifact.phase == ErrorPhase::Verify
            && artifact.retryable,
        joined.code == ErrorCode::Internal && joined.phase == ErrorPhase::Preflight
            && joined.retryable,
        unsupported.code == ErrorCode::UnsupportedInBackground && unsupported.phase
            == ErrorPhase::Preflight && unsupported.retryable && unsupported.message@ == cause@,
{
    assert(artifact@.code == artifact.code);
    assert(joined@.code == joined.code);
    assert(unsupported@.code == unsupported.code);
}

/// Artifacts are named after their window, and partial ones apart.
pub proof fn artifacts_are_named_after_their_window(
    window_id: u32,
    unique: &str,
    name: String,
    partial: String,
)
    requires
        call_ensures(observation::artifact_name, (window_id, unique), name),
        call_ensures(observation::partial_artifact_name, (window_id, unique), partial),
    ensures
        name@ == "observation-"@ + text::decimal(window_id as nat) + "-"@ + unique@ + ".png"@,
        partial@ == ".observation-"@ + text::decimal(window_id as nat) + "-"@ + unique@
            + ".partial"@,
        name@ != partial@,
{
    reveal_strlit("observation-");
    reveal_strlit(".observation-");
    assert("observation-"@[0] == 'o');
    assert(".observation-"@[0] == '.');
    assert(name@[0] == 'o');
    assert(partial@[0] == '.');
}

/// A temporary artifact is there until it is let go, and a clock does not run over.
pub proof fn a_temporary_artifact_is_there_until_it_is_let_go(
    path: String,
    artifact: TemporaryArtifact,
    kept: &mut TemporaryArtifact,
    millis: u128,
    clamped: u64,
)
    requires
        call_ensures(TemporaryArtifact::new, (path,), artifact),
        call_ensures(TemporaryArtifact::disarm, (kept,), ()),
        call_ensures(observation::now_unix_ms, (millis,), clamped),
    ensures
        artifact.path == Some(path),
        final(kept).path is None,
        millis <= u64::MAX ==> clamped == millis,
        millis > u64::MAX ==> clamped == u64::MAX,
{
}

/// Facts are the same where every part of them is.
pub proof fn facts_are_the_same_where_every_part_is(
    left: &MacWindowFacts,
    right: &MacWindowFacts,
    same: bool,
    lefts: &Vec<MacWindowFacts>,
    rights: &Vec<MacWindowFacts>,
    all: bool,
)
    requires
        call_ensures(MacWindowFacts::same, (left, right), same),
        call_ensures(observation::same_facts, (lefts, rights), all),
    ensures
        same ==> left.stamp@ == right.stamp@ && left.pid == right.pid && left.cg_window_id
            == right.cg_window_id && left.bounds == right.bounds && left.state == right.state
            && left.scale_factor == right.scale_factor && left.minimized == right.minimized,
        left@ == right@ ==> same,
        all ==> lefts@.len() == rights@.len(),
        lefts@.len() == 0 && rights@.len() == 0 ==> all,
{
    assert(observation::facts_view(lefts@).len() == lefts@.len());
    assert(observation::facts_view(rights@).len() == rights@.len());
    if lefts@.len() == 0 && rights@.len() == 0 {
        assert(observation::facts_view(lefts@) =~= observation::facts_view(rights@));
    }
    if same {
        assert(left@.stamp == right@.stamp);
        assert(left@.pid == right@.pid);
        assert(left@.bounds == right@.bounds);
    }
}

/// An attempt starts with the facts of its target.
pub proof fn an_attempt_starts_with_the_facts(
    target: &ResolvedWindowStamp,
    screenshots: bool,
    epoch: u64,
    attempt: ObservationAttempt,
)
    requires
        call_ensures(ObservationAttempt::begin, (target, screenshots, epoch), attempt),
    ensures
        attempt@.stage is Facts,
        attempt@.target == target@,
        attempt@.include_screenshots == screenshots,
        attempt@.epoch == epoch,
        attempt@.result is None,
        attempt@.captured == 0 && !attempt@.window_captured,
{
}

/// Semantic insertions need a control that takes them, with a value and a selection.
pub proof fn semantic_insertions_need_value_and_selection(
    state: &RegisteredElementSnapshot,
    inserted: &str,
    expected: Result<ExpectedInsertion, NativeError>,
)
    requires
        call_ensures(keyboard::prepare_semantic_insertion, (state, inserted), expected),
    ensures
        state@.selected_text_settable != Some(true) ==> expected is Err && expected->Err_0.code
            == ErrorCode::UnsupportedInBackground,
        state@.string_value is None || state@.selected_text_range is None ==> expected is Err,
        expected is Ok ==> expected->Ok_0.selection.length == 0
            && expected->Ok_0.selection.location == state@.selected_text_range->0.location
            + text::utf16_len(inserted@),
{
    if expected is Err {
        assert(expected->Err_0@.code == expected->Err_0.code);
    }
}

/// Typed insertions are expected where value and selection are known.
pub proof fn typed_insertions_are_expected_where_all_is_known(
    state: &RegisteredElementSnapshot,
    inserted: &str,
    expected: Result<Option<ExpectedInsertion>, NativeError>,
)
    requires
        call_ensures(keyboard::prepare_unicode_insertion, (state, inserted), expected),
    ensures
        state@.string_value is None || state@.selected_text_range is None ==> expected is Ok
            && expected->Ok_0 is None,
        state@.string_value is Some && state@.selected_text_range is Some && expected is Ok
            ==> expected->Ok_0 is Some && expected->Ok_0->0.selection.length == 0
            && expected->Ok_0->0.selection.location == state@.selected_text_range->0.location
            + text::utf16_len(inserted@),
{
}

/// Keys go to the observed focus, and nowhere without one.
pub proof fn keys_need_an_observed_focus(
    focus: &ResolvedFocus,
    id: Result<&String, NativeError>,
    pid: i32,
    element: RetainedAxElement,
    walk: KeyboardWalk,
)
    requires
        call_ensures(keyboard::focus_element_id, (focus,), id),
        call_ensures(KeyboardWalk::begin, (pid, element), walk),
    ensures
        id is Ok <==> focus.focused_element is Some,
        id is Ok ==> id->Ok_0@ == focus.focused_element->0@,
        id is Err ==> id->Err_0.code == ErrorCode::UnsupportedInBackground,
        walk.application_pid == pid && walk.focused == element && walk.current == element
            && walk.steps == 0,
{
    if id is Err {
        assert(id->Err_0@.code == id->Err_0.code);
    }
}

/// Focus that drifted may be looked at again.
pub proof fn drifted_focus_may_be_looked_at_again(
    message: &str,
    status: i32,
    pid: i32,
    drift: NativeError,
    failed: NativeError,
    unproved: NativeError,
    unread: NativeError,
)
    requires
        call_ensures(keyboard::focus_drift, (message,), drift),
        call_ensures(keyboard::ax_focus_error, (message, status), failed),
        call_ensures(keyboard::effective_pid_error, (pid, status), unproved),
        call_ensures(keyboard::ax_readback_error, (message, status), unread),
    ensures
        drift.code == ErrorCode::AxRevisionMismatch && drift.retryable && drift.message@
            == message@,
        failed.code == ErrorCode::AxRevisionMismatch && failed.retryable,
        unproved.code == ErrorCode::UnsupportedInBackground && !unproved.retryable,
        unread.code == ErrorCode::VerificationFailed && unread.phase == ErrorPhase::Verify
            && unread.retryable,
{
    assert(drift@.code == drift.code);
    assert(failed@.code == failed.code);
    assert(unproved@.code == unproved.code);
    assert(unread@.code == unread.code);
}

/// A sequence that could not be built may be tried again where nothing was done yet.
pub proof fn an_unbuilt_sequence_may_be_tried_again(
    error: NativeError,
    started: bool,
    reported: NativeError,
)
    requires
        call_ensures(keyboard::sequence_construction_error, (error, started), reported),
    ensures
        reported.code == error.code && reported.message@ == error.message@,
        reported.retryable <==> !started,
        started ==> reported.phase == ErrorPhase::Dispatch,
        !started ==> reported.phase == ErrorPhase::Preflight,
{
    assert(reported@.code == reported.code);
    assert(error@.code == error.code);
}

/// Key events have their names.
pub proof fn key_events_have_their_names(kind: TargetedKeyEventKind, name: &'static str)
    requires
        call_ensures(keyboard::event_kind_name, (kind,), name),
    ensures
        kind is FlagsChangedRequested ==> name@ == "flags_changed_requested"@,
        kind is KeyDown ==> name@ == "key_down"@,
        kind is KeyUp ==> name@ == "key_up"@,
        kind is FlagsChangedRestore ==> name@ == "flags_changed_restore"@,
        kind is UnicodeDown ==> name@ == "unicode_down"@,
        kind is UnicodeUp ==> name@ == "unicode_up"@,
{
}

/// Shapes have their names.
pub proof fn shapes_have_their_names(shape: &ActionShape, name: &'static str)
    requires
        call_ensures(ActionShape::name, (shape,), name),
    ensures
        *shape is ElementClick ==> name@ == "element_click"@,
        *shape is PointClick ==> name@ == "point_click"@,
        *shape is Drag ==> name@ == "drag"@,
        *shape is ElementScroll ==> name@ == "element_scroll"@,
        *shape is DeltaScroll ==> name@ == "delta_scroll"@,
        *shape is PressKey ==> name@ == "press_key"@,
        *shape is TypeText ==> name@ == "type_text"@,
{
}

/// Frames have the names of their states.
pub proof fn frames_have_the_names_of_their_states(
    status: FrameStatus,
    name: String,
    history: MacFrameHistory,
    window_id: u32,
)
    requires
        call_ensures(FrameStatus::name, (status,), name),
        call_ensures(MacFrameHistory::new, (), history),
    ensures
        status is Complete ==> name@ == "Complete"@,
        status is Idle ==> name@ == "Idle"@,
        status is Blank ==> name@ == "Blank"@,
        status is Suspended ==> name@ == "Suspended"@,
        status is Started ==> name@ == "Started"@,
        status is Stopped ==> name@ == "Stopped"@,
        !history@.contains_key(window_id),
{
}

/// An armed menu that failed had an effect; a menu that was not found did not keep its
/// state.
pub proof fn menus_that_failed_say_so(
    error: NativeError,
    reported: NativeError,
    cause: &str,
    missing: NativeError,
)
    requires
        call_ensures(semantic::arming_failed, (error,), reported),
        call_ensures(semantic::menu_discovery_failed, (cause,), missing),
    ensures
        reported.code == error.code && reported.retryable == error.retryable,
        reported@.details["native_side_effect_started"@] == evidence::DetailView::Bool(true),
        missing.code == ErrorCode::MenuStateStale && missing.phase == ErrorPhase::Dispatch
            && !missing.retryable,
{
    assert(reported@.code == reported.code);
    assert(error@.code == error.code);
    assert(missing@.code == missing.code);
}

/// A new observer has heard nothing.
pub proof fn a_new_observer_has_heard_nothing(
    state: ObserverState,
    looked: &ObserverState,
    epoch: u64,
)
    requires
        call_ensures(ObserverState::new, (), state),
        call_ensures(ObserverState::epoch, (looked,), epoch),
    ensures
        state.epoch == 0 && state.events@.len() == 0,
        epoch == looked.epoch,
{
}

} // verus!
