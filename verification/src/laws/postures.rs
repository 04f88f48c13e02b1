//! When the user's posture counts as kept.
use vstd::prelude::*;

use crate::driver::posture;
use crate::driver::posture::{
    FocusStreamFacts, HidReceipt, ObserverControl, PostureProofState, PostureResult, PostureSample,
    PostureStream, StreamBarriers, SuppressionCloseOutcome, WorkspaceReceipt,
};
use crate::driver::target::WorkspaceEventKind;
use crate::errors::{ErrorCode, NativeError};
use crate::evidence::Fields;

verus! {

/// Posture is kept exactly where every stream was complete and nothing was seen to
/// change; what was restored had changed.
pub proof fn posture_is_kept_where_nothing_changed(
    state: &PostureProofState,
    baseline: PostureSample,
    last: PostureSample,
    result: PostureResult,
)
    requires
        call_ensures(PostureProofState::posture, (state, baseline, last), result),
    ensures
        result.held <==> {
            &&& state.workspace_stream_complete
            &&& state.ax_stream_complete
            &&& state.hid_stream_complete
            &&& state.containment_stream_complete
            &&& !state.frontmost_changed
            &&& !state.key_window_changed
            &&& !state.physical_cursor_moved
        },
        result.frontmost_changed == state.frontmost_changed,
        result.key_window_changed == state.key_window_changed,
        result.physical_cursor_moved == state.physical_cursor_moved,
        result.restored_after_violation ==> !result.held && baseline.frontmost == last.frontmost,
{
}

/// The activation of another application changes the posture; that of the one in
/// front does not.
pub proof fn another_application_in_front_is_a_change(
    state: &mut PostureProofState,
    pid: i32,
    frontmost: i32,
    again: bool,
)
    requires
        call_ensures(
            PostureProofState::observe_workspace,
            (
                state,
                WorkspaceReceipt::Event { kind: WorkspaceEventKind::Activated, pid },
                frontmost,
            ),
            again,
        ),
    ensures
        again,
        final(state).frontmost_changed <==> old(state).frontmost_changed || pid != frontmost,
        pid != frontmost ==> final(state).activation_pids@ == old(state).activation_pids@.push(pid),
        pid == frontmost ==> final(state).activation_pids@ == old(state).activation_pids@,
        final(state).proof_view().workspace_complete == old(state).proof_view().workspace_complete,
{
}

/// A stream that lost events or was closed is not complete.
pub proof fn a_lossy_stream_is_incomplete(
    state: &mut PostureProofState,
    receipt: WorkspaceReceipt,
    frontmost: i32,
    again: bool,
)
    requires
        call_ensures(PostureProofState::observe_workspace, (state, receipt, frontmost), again),
    ensures
        receipt is Lagged || receipt is Closed ==> !final(state).proof_view().workspace_complete,
        receipt is Empty ==> final(state).proof_view() == old(state).proof_view() && !again,
        receipt is Closed ==> !again,
        receipt is Lagged ==> again,
        final(state).proof_view().key_window_changed == old(state).proof_view().key_window_changed,
        final(state).proof_view().physical_cursor_moved
            == old(state).proof_view().physical_cursor_moved,
{
}

/// A change of focus changes the posture; other notifications do not.
pub proof fn a_change_of_focus_is_a_change(state: &mut PostureProofState, name: &str)
    requires
        call_ensures(PostureProofState::observe_ax, (state, name), ()),
    ensures
        name@ == "AXFocusedWindowChanged"@ || name@ == "AXFocusedUIElementChanged"@
            ==> final(state).key_window_changed,
        name@ != "AXFocusedWindowChanged"@ && name@ != "AXFocusedUIElementChanged"@
            ==> final(state).proof_view() == old(state).proof_view(),
{
}

/// A cursor that moves changes the posture; a tap that is disabled proves nothing
/// any more.
pub proof fn a_moving_cursor_is_a_change(state: &mut PostureProofState, receipt: HidReceipt)
    requires
        call_ensures(PostureProofState::observe_hid, (state, receipt), ()),
    ensures
        final(state).physical_cursor_moved <==> old(state).physical_cursor_moved
            || receipt is CursorMoved,
        receipt is TapDisabled ==> !final(state).proof_view().hid_complete,
        !(receipt is TapDisabled) ==> final(state).proof_view().hid_complete
            == old(state).proof_view().hid_complete,
        final(state).proof_view().frontmost_changed == old(state).proof_view().frontmost_changed,
{
}

/// What the last look shows to be different has changed; a last look that cannot be
/// read proves nothing.
pub proof fn the_last_look_counts(
    state: &mut PostureProofState,
    baseline: PostureSample,
    last: PostureSample,
)
    requires
        call_ensures(PostureProofState::observe_final_sample, (state, baseline, last), ()),
    ensures
        baseline.frontmost is Some && last.frontmost is Some && baseline.frontmost
            != last.frontmost ==> final(state).frontmost_changed,
        baseline.key_window is Ok && last.key_window is Ok && baseline.key_window
            != last.key_window ==> final(state).key_window_changed,
        baseline.cursor is Ok && last.cursor is Ok && baseline.cursor != last.cursor
            ==> final(state).physical_cursor_moved,
        last.frontmost is None || last.key_window is Err || last.cursor is Err
            ==> !final(state).proof_view().held(),
        baseline == last && baseline.frontmost is Some && baseline.key_window is Ok
            && baseline.cursor is Ok ==> final(state).proof_view() == old(state).proof_view(),
{
}

/// At the end posture was kept only where every stream was drained and no
/// application had to be put back.
pub proof fn posture_ends_kept_where_all_was_drained(
    state: &mut PostureProofState,
    baseline: PostureSample,
    last: PostureSample,
    target: Option<i32>,
    barriers: StreamBarriers,
    containment: SuppressionCloseOutcome,
    finished: (PostureResult, Fields),
)
    requires
        call_ensures(
            PostureProofState::finish,
            (state, baseline, last, target, barriers, containment),
            finished,
        ),
    ensures
        finished.0.held ==> {
            &&& old(state).proof_view().held()
            &&& barriers.workspace && barriers.ax && barriers.hid
            &&& containment.callback_queue_drained
            &&& containment.evidence.activations == 0
            &&& last.frontmost is Some && last.key_window is Ok && last.cursor is Ok
        },
        old(state).proof_view().held() && barriers.workspace && barriers.ax && barriers.hid
            && containment.callback_queue_drained && containment.evidence.activations == 0
            && last.frontmost is Some && last.key_window is Ok && last.cursor is Ok && baseline
            == last ==> finished.0.held,
        containment.evidence.activations > 0 ==> finished.0.frontmost_changed,
{
}

/// A witness is admitted on a readable baseline of the application in front, with
/// nothing changed meanwhile.
pub proof fn a_witness_starts_on_a_readable_baseline(
    frontmost: i32,
    baseline: PostureSample,
    state: &PostureProofState,
    outcome: Result<(), NativeError>,
)
    requires
        call_ensures(posture::admit_witness, (frontmost, baseline, state), outcome),
    ensures
        outcome is Ok <==> {
            &&& baseline.frontmost == Some(frontmost)
            &&& baseline.key_window is Ok
            &&& baseline.cursor is Ok
            &&& state.proof_view().held()
        },
        outcome is Err ==> outcome->Err_0.code == ErrorCode::PostureUnverifiable
            && outcome->Err_0.retryable,
{
}

/// Without an application in front there is no baseline.
pub proof fn a_baseline_needs_an_application_in_front(
    frontmost: Option<i32>,
    launching: bool,
    outcome: Result<i32, NativeError>,
)
    requires
        call_ensures(posture::baseline_frontmost, (frontmost, launching), outcome),
    ensures
        outcome is Ok <==> frontmost is Some,
        outcome is Ok ==> outcome->Ok_0 == frontmost->0,
{
}

/// A launch needs the queues of both streams, an interaction that of the workspace.
pub proof fn launches_need_both_queues(
    workspace: bool,
    containment: bool,
    launching: bool,
    outcome: Result<(), NativeError>,
)
    requires
        call_ensures(posture::admit_barriers, (workspace, containment, launching), outcome),
    ensures
        launching ==> (outcome is Ok <==> workspace && containment),
        !launching ==> (outcome is Ok <==> workspace),
{
}

/// A containment that could not be narrowed to its process proves nothing.
pub proof fn a_wide_containment_proves_nothing(
    state: &mut PostureProofState,
    narrowed: bool,
    outcome: Result<(), NativeError>,
)
    requires
        call_ensures(PostureProofState::set_target, (state, narrowed), outcome),
    ensures
        outcome is Ok <==> narrowed,
        !narrowed ==> !final(state).proof_view().held(),
        narrowed ==> final(state).proof_view() == old(state).proof_view(),
{
}

/// What is left of the time is never more than the maximum, and nothing past the
/// deadline.
pub proof fn what_is_left_ends_at_the_deadline(deadline: u64, now: u64, maximum: u64, left: u64)
    requires
        call_ensures(posture::remaining_until, (deadline, now, maximum), left),
    ensures
        left <= maximum,
        now >= deadline ==> left == 0,
        now < deadline && deadline - now <= maximum ==> now + left == deadline,
        now < deadline && deadline - now > maximum ==> left == maximum,
{
}

/// An observer is closed once.
pub proof fn an_observer_is_closed_once(
    control: &mut ObserverControl,
    now: u64,
    timeout: u64,
    drain: Option<u64>,
)
    requires
        call_ensures(ObserverControl::begin_close, (control, now, timeout), drain),
    ensures
        final(control).closed,
        drain is Some <==> !old(control).closed,
        drain is Some && now + timeout <= u64::MAX && timeout >= 10_000_000 ==> drain->0 == now
            + timeout - 10_000_000,
{
}

/// A focused window is read exactly, as none, or not at all.
pub proof fn a_focused_window_is_read_exactly(
    status: i32,
    window: Option<u32>,
    read: Result<Option<u32>, ()>,
)
    requires
        call_ensures(posture::focused_window, (status, window), read),
    ensures
        status == -25212 ==> read == Ok::<Option<u32>, ()>(None),
        status == 0 && window is Some ==> read == Ok::<Option<u32>, ()>(window),
        status == 0 && window is None ==> read is Err,
        status != 0 && status != -25212 ==> read is Err,
{
}

/// The streams of a witness are admitted whole.
pub proof fn a_witness_needs_whole_streams(
    facts: FocusStreamFacts,
    tap: bool,
    source: bool,
    focus: Result<(), NativeError>,
    cursor: Result<(), NativeError>,
)
    requires
        call_ensures(posture::admit_focus_stream, (facts,), focus),
        call_ensures(posture::admit_cursor_stream, (tap, source), cursor),
    ensures
        focus is Ok <==> facts.application && facts.create_status == 0 && facts.created
            && facts.registered == 2 && facts.source,
        cursor is Ok <==> tap && source,
{
}

/// A stream is there once it has said so.
pub proof fn a_stream_is_there_once_it_says_so(
    stream: PostureStream,
    heard: Option<Result<(), NativeError>>,
    outcome: Result<(), NativeError>,
)
    requires
        call_ensures(posture::stream_handshake, (stream, heard), outcome),
    ensures
        outcome is Ok <==> heard is Some && heard->0 is Ok,
        heard is Some && heard->0 is Err ==> outcome->Err_0@ == heard->0->Err_0@,
{
}

} // verus!
