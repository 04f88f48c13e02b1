//! What is told of what was done: each fact under its own name.
use vstd::prelude::*;

use crate::ax::enablement::{AxEnablementLease, EnablementAttribute};
use crate::ax::minimized_recovery::RecoveryEvidence;
use crate::contracts::{SettlementSignal, VerificationLevel};
use crate::driver::actions::keyboard;
use crate::driver::actions::keyboard::{
    MacApplicationKeyboardTarget, MacKeyboardEventTarget, TargetedKeyEventKind,
};
use crate::driver::actions::pointer::PointerDispatchEvidence;
use crate::driver::actions::semantic;
use crate::driver::actions::semantic::DispatchOutcome;
use crate::driver::actions::NativeDispatch;
use crate::driver::focus::{FocusPreparation, HostRecipeContext, MacScopeRecipe};
use crate::driver::interaction::{ScopeAcquisition, ScopeLeaseAcquisition};
use crate::driver::menu::SystemMenuSuppressionResource;
use crate::driver::posture;
use crate::driver::posture::{PostureProofState, PostureSample, SuppressionCloseOutcome};
use crate::driver::target::MacFocusState;
use crate::errors::NativeError;
use crate::evidence;
use crate::evidence::{Fields, Scalar};

verus! {

/// What is told of a posture: where it was before and where it is at last, each
/// under its own name, and which streams were whole.
pub proof fn a_posture_is_told_before_and_after(
    state: &PostureProofState,
    baseline: PostureSample,
    last: PostureSample,
    target_pid: Option<i32>,
    containment: SuppressionCloseOutcome,
    fields: Fields,
)
    requires
        call_ensures(
            posture::posture_evidence,
            (state, baseline, last, target_pid, containment),
            fields,
        ),
    ensures
        baseline.frontmost is Some ==> fields@["prior_frontmost_pid"@]
            == evidence::DetailView::Int(baseline.frontmost->0 as int),
        baseline.frontmost is None ==> fields@["prior_frontmost_pid"@]
            == evidence::DetailView::Null,
        last.frontmost is Some ==> fields@["final_frontmost_pid"@]
            == evidence::DetailView::Int(last.frontmost->0 as int),
        last.frontmost is None ==> fields@["final_frontmost_pid"@] == evidence::DetailView::Null,
        baseline.key_window is Ok && baseline.key_window->Ok_0 is Some
            ==> fields@["prior_key_window_id"@]
            == evidence::DetailView::Int(baseline.key_window->Ok_0->0 as int),
        last.key_window is Ok && last.key_window->Ok_0 is Some
            ==> fields@["final_key_window_id"@]
            == evidence::DetailView::Int(last.key_window->Ok_0->0 as int),
        baseline.cursor is Ok ==> fields@["prior_physical_cursor"@]
            == evidence::DetailView::Reals(seq![baseline.cursor->Ok_0.x, baseline.cursor->Ok_0.y]),
        last.cursor is Ok ==> fields@["final_physical_cursor"@]
            == evidence::DetailView::Reals(seq![last.cursor->Ok_0.x, last.cursor->Ok_0.y]),
        target_pid is Some ==> fields@["target_pid"@]
            == evidence::DetailView::Int(target_pid->0 as int),
        target_pid is None ==> fields@["target_pid"@] == evidence::DetailView::Null,
        fields@["workspace_event_stream_complete"@]
            == evidence::DetailView::Bool(state.workspace_stream_complete),
        fields@["ax_focus_event_stream_complete"@]
            == evidence::DetailView::Bool(state.ax_stream_complete),
        fields@["hid_cursor_event_stream_complete"@]
            == evidence::DetailView::Bool(state.hid_stream_complete),
        fields@["containment_event_stream_complete"@]
            == evidence::DetailView::Bool(state.containment_stream_complete),
        fields@["workspace_event_lagged_count"@]
            == evidence::DetailView::Int(state.workspace_lagged_events as int),
        fields@["ax_focus_event_count"@] == evidence::DetailView::Int(state.ax_focus_events as int),
        fields@["hid_cursor_event_count"@]
            == evidence::DetailView::Int(state.hid_cursor_events as int),
        fields@["containment_activations"@]
            == evidence::DetailView::Int(containment.evidence.activations as int),
        fields@["containment_restore_attempts"@]
            == evidence::DetailView::Int(containment.evidence.restore_attempts as int),
        fields@["containment_restore_failures"@]
            == evidence::DetailView::Int(containment.evidence.restore_failures as int),
        fields@["containment_callback_queue_drained"@]
            == evidence::DetailView::Bool(containment.callback_queue_drained),
{
    reveal_strlit("prior_frontmost_pid");
    reveal_strlit("final_frontmost_pid");
    reveal_strlit("prior_key_window_id");
    reveal_strlit("final_key_window_id");
    reveal_strlit("prior_physical_cursor");
    reveal_strlit("final_physical_cursor");
    reveal_strlit("activation_pids");
    reveal_strlit("target_pid");
    reveal_strlit("workspace_event_stream_complete");
    reveal_strlit("ax_focus_event_stream_complete");
    reveal_strlit("hid_cursor_event_stream_complete");
    reveal_strlit("containment_event_stream_complete");
    reveal_strlit("workspace_event_lagged_count");
    reveal_strlit("ax_focus_event_count");
    reveal_strlit("hid_cursor_event_count");
    reveal_strlit("containment_callback_queue_drained");
    reveal_strlit("containment_activations");
    reveal_strlit("containment_restore_attempts");
    reveal_strlit("containment_restore_failures");
    assert("prior_frontmost_pid"@.len() == 19);
    assert("final_frontmost_pid"@.len() == 19);
    assert("prior_key_window_id"@.len() == 19);
    assert("final_key_window_id"@.len() == 19);
    assert("prior_physical_cursor"@.len() == 21);
    assert("final_physical_cursor"@.len() == 21);
    assert("activation_pids"@.len() == 15);
    assert("target_pid"@.len() == 10);
    assert("workspace_event_stream_complete"@.len() == 31);
    assert("ax_focus_event_stream_complete"@.len() == 30);
    assert("hid_cursor_event_stream_complete"@.len() == 32);
    assert("containment_event_stream_complete"@.len() == 33);
    assert("workspace_event_lagged_count"@.len() == 28);
    assert("ax_focus_event_count"@.len() == 20);
    assert("hid_cursor_event_count"@.len() == 22);
    assert("containment_callback_queue_drained"@.len() == 34);
    assert("containment_activations"@.len() == 23);
    assert("containment_restore_attempts"@.len() == 28);
    assert("containment_restore_failures"@.len() == 28);
    assert("prior_frontmost_pid"@[0] == 'p');
    assert("final_frontmost_pid"@[0] == 'f');
    assert("prior_frontmost_pid"@[6] == 'f');
    assert("prior_key_window_id"@[6] == 'k');
    assert("final_key_window_id"@[0] == 'f');
    assert("prior_key_window_id"@[0] == 'p');
    assert("final_frontmost_pid"@[6] == 'f');
    assert("final_key_window_id"@[6] == 'k');
    assert("prior_physical_cursor"@[0] == 'p');
    assert("final_physical_cursor"@[0] == 'f');
    assert("workspace_event_lagged_count"@[0] == 'w');
    assert("containment_restore_attempts"@[0] == 'c');
    assert("containment_restore_failures"@[0] == 'c');
    assert("containment_restore_attempts"@[20] == 'a');
    assert("containment_restore_failures"@[20] == 'f');
}

/// What is told of posted keys: how many, to whom, and that nobody acknowledged
/// them.
pub proof fn posted_keys_are_counted(
    application_pid: i32,
    dispatch_pid: i32,
    kinds: &Vec<TargetedKeyEventKind>,
    focus_write: bool,
    fields: Fields,
)
    requires
        call_ensures(
            keyboard::sequence_evidence,
            (application_pid, dispatch_pid, kinds, focus_write),
            fields,
        ),
    ensures
        fields@["event_count_attempted"@] == evidence::DetailView::Int(kinds@.len() as int),
        fields@["event_count_posted"@] == evidence::DetailView::Int(kinds@.len() as int),
        fields@["application_pid"@] == evidence::DetailView::Int(application_pid as int),
        fields@["dispatch_pid"@] == evidence::DetailView::Int(dispatch_pid as int),
        fields@["out_of_process_target"@]
            == evidence::DetailView::Bool(application_pid != dispatch_pid),
        fields@["field_focus_write_attempted"@] == evidence::DetailView::Bool(focus_write),
        fields@["delivery_acknowledged"@] == evidence::DetailView::Bool(false),
        fields@["clipboard_used"@] == evidence::DetailView::Bool(false),
{
    reveal_strlit("event_count_attempted");
    reveal_strlit("event_count_posted");
    reveal_strlit("event_sequence");
    reveal_strlit("post_primitives");
    reveal_strlit("application_pid");
    reveal_strlit("dispatch_pid");
    reveal_strlit("out_of_process_target");
    reveal_strlit("field_focus_write_attempted");
    reveal_strlit("delivery_acknowledged");
    reveal_strlit("clipboard_used");
    assert("event_count_attempted"@.len() == 21);
    assert("event_count_posted"@.len() == 18);
    assert("event_sequence"@.len() == 14);
    assert("post_primitives"@.len() == 15);
    assert("application_pid"@.len() == 15);
    assert("dispatch_pid"@.len() == 12);
    assert("out_of_process_target"@.len() == 21);
    assert("field_focus_write_attempted"@.len() == 27);
    assert("delivery_acknowledged"@.len() == 21);
    assert("clipboard_used"@.len() == 14);
    assert("event_count_attempted"@[0] == 'e');
    assert("out_of_process_target"@[0] == 'o');
    assert("delivery_acknowledged"@[0] == 'd');
    assert("event_sequence"@[0] == 'e');
    assert("clipboard_used"@[0] == 'c');
    assert("post_primitives"@[0] == 'p');
    assert("application_pid"@[0] == 'a');
}

/// What is told of a focus: its revision, its observation and its processes.
pub proof fn a_focus_is_told_with_its_processes(
    target: &MacKeyboardEventTarget,
    fields: Fields,
)
    requires
        call_ensures(keyboard::focus_evidence, (target,), fields),
    ensures
        fields@["focus_ax_revision"@] == evidence::DetailView::Text(target.ax_revision@),
        fields@["focus_observation_id"@] == evidence::DetailView::Text(target.observation_id@),
        fields@["focus_identity_revalidated"@] == evidence::DetailView::Bool(true),
        fields@["application_pid"@] == evidence::DetailView::Int(target.application_pid as int),
        fields@["dispatch_pid"@] == evidence::DetailView::Int(target.dispatch_pid as int),
        fields@["out_of_process_target"@]
            == evidence::DetailView::Bool(target.application_pid != target.dispatch_pid),
{
    reveal_strlit("focus_ax_revision");
    reveal_strlit("focus_observation_id");
    reveal_strlit("focus_identity_revalidated");
    reveal_strlit("application_pid");
    reveal_strlit("dispatch_pid");
    reveal_strlit("out_of_process_target");
    assert("focus_ax_revision"@.len() == 17);
    assert("focus_observation_id"@.len() == 20);
    assert("focus_identity_revalidated"@.len() == 26);
    assert("application_pid"@.len() == 15);
    assert("dispatch_pid"@.len() == 12);
    assert("out_of_process_target"@.len() == 21);
}

/// A dispatch that nobody acknowledged is unverified, and says how it was done.
pub proof fn an_unacknowledged_dispatch_is_unverified(
    primitive: &str,
    target: &MacKeyboardEventTarget,
    fields: Fields,
    dispatch: NativeDispatch,
)
    requires
        call_ensures(
            keyboard::dispatch_unverified,
            (primitive, target, fields),
            dispatch,
        ),
    ensures
        dispatch@.verification == VerificationLevel::DispatchUnverified,
        dispatch@.fields["primitive"@] == evidence::DetailView::Text(primitive@),
        dispatch@.fields["dispatch_pid"@] == evidence::DetailView::Int(target.dispatch_pid as int),
        dispatch@.fields["application_pid"@]
            == evidence::DetailView::Int(target.application_pid as int),
{
    reveal_strlit("focus_ax_revision");
    reveal_strlit("focus_observation_id");
    reveal_strlit("focus_identity_revalidated");
    reveal_strlit("application_pid");
    reveal_strlit("dispatch_pid");
    reveal_strlit("out_of_process_target");
    reveal_strlit("primitive");
    assert("focus_ax_revision"@.len() == 17);
    assert("focus_observation_id"@.len() == 20);
    assert("focus_identity_revalidated"@.len() == 26);
    assert("application_pid"@.len() == 15);
    assert("dispatch_pid"@.len() == 12);
    assert("out_of_process_target"@.len() == 21);
    assert("primitive"@.len() == 9);
}

/// A dispatch to an application as a whole says that no focus was looked at.
pub proof fn an_application_dispatch_says_so(
    primitive: &str,
    target: &MacApplicationKeyboardTarget,
    fields: Fields,
    dispatch: NativeDispatch,
)
    requires
        call_ensures(
            keyboard::dispatch_unverified_application,
            (primitive, target, fields),
            dispatch,
        ),
    ensures
        dispatch@.verification == VerificationLevel::DispatchUnverified,
        dispatch@.fields["primitive"@] == evidence::DetailView::Text(primitive@),
        dispatch@.fields["focus_identity_revalidated"@] == evidence::DetailView::Bool(false),
        dispatch@.fields["application_scoped_chord"@] == evidence::DetailView::Bool(true),
        dispatch@.fields["dispatch_pid"@]
            == evidence::DetailView::Int(target.application_pid as int),
{
    reveal_strlit("focus_ax_revision");
    reveal_strlit("focus_observation_id");
    reveal_strlit("focus_identity_revalidated");
    reveal_strlit("application_scoped_chord");
    reveal_strlit("application_pid");
    reveal_strlit("dispatch_pid");
    reveal_strlit("out_of_process_target");
    reveal_strlit("primitive");
    assert("focus_ax_revision"@.len() == 17);
    assert("focus_observation_id"@.len() == 20);
    assert("focus_identity_revalidated"@.len() == 26);
    assert("application_scoped_chord"@.len() == 24);
    assert("application_pid"@.len() == 15);
    assert("dispatch_pid"@.len() == 12);
    assert("out_of_process_target"@.len() == 21);
    assert("primitive"@.len() == 9);
}

/// What was read back of typed text is told as it is, and signalled where it could
/// be read.
pub proof fn what_was_read_back_of_typed_text_is_told(
    target: &MacKeyboardEventTarget,
    fields: Fields,
    readback: Option<Result<bool, NativeError>>,
    outcome: (NativeDispatch, Option<SettlementSignal>),
)
    requires
        call_ensures(keyboard::finish_unicode, (target, fields, readback), outcome),
    ensures
        outcome.0@.fields["exact_readback_available"@]
            == evidence::DetailView::Bool(readback is Some),
        readback is None ==> outcome.0@.fields["exact_readback_matched"@]
            == evidence::DetailView::Bool(false),
        readback is Some && readback->0 is Ok
            ==> outcome.0@.fields["exact_readback_matched"@]
            == evidence::DetailView::Bool(readback->0->Ok_0),
        readback is Some && readback->0 is Err
            ==> outcome.0@.fields["exact_readback_matched"@] == evidence::DetailView::Bool(false),
        readback is Some && readback->0 is Err ==> outcome.0@.fields["exact_readback_error"@]
            == evidence::DetailView::Text(readback->0->Err_0.message@),
        outcome.1 is Some <==> readback is Some && readback->0 is Ok,
{
    reveal_strlit("exact_readback_error");
    reveal_strlit("exact_readback_available");
    reveal_strlit("exact_readback_matched");
    reveal_strlit("focus_ax_revision");
    reveal_strlit("focus_observation_id");
    reveal_strlit("focus_identity_revalidated");
    reveal_strlit("application_pid");
    reveal_strlit("dispatch_pid");
    reveal_strlit("out_of_process_target");
    reveal_strlit("primitive");
    assert("exact_readback_error"@.len() == 20);
    assert("exact_readback_available"@.len() == 24);
    assert("exact_readback_matched"@.len() == 22);
    assert("focus_ax_revision"@.len() == 17);
    assert("focus_observation_id"@.len() == 20);
    assert("focus_identity_revalidated"@.len() == 26);
    assert("application_pid"@.len() == 15);
    assert("dispatch_pid"@.len() == 12);
    assert("out_of_process_target"@.len() == 21);
    assert("primitive"@.len() == 9);
    assert("exact_readback_error"@[0] == 'e');
    assert("focus_observation_id"@[0] == 'f');
}

/// What is told of a pointer dispatch is what is known of it.
pub proof fn a_pointer_dispatch_is_told_as_it_went(
    evidence: &PointerDispatchEvidence,
    fields: &mut Fields,
)
    requires
        call_ensures(PointerDispatchEvidence::merge_into, (evidence, fields), ()),
    ensures
        final(fields)@["pointer_completed_events"@]
            == evidence::DetailView::Int(evidence.completed_events as int),
        final(fields)@["pointer_cleanup_attempted"@]
            == evidence::DetailView::Bool(evidence.cleanup_attempted),
        final(fields)@["pointer_cleanup_succeeded"@]
            == evidence::DetailView::Bool(evidence.cleanup_succeeded),
        final(fields)@["pointer_modifiers_cleared"@]
            == evidence::DetailView::Bool(evidence.modifiers_cleared),
        final(fields)@["pointer_dispatch_may_have_partially_landed"@]
            == evidence::DetailView::Bool(evidence.may_have_partially_landed),
        final(fields)@["hardware_cursor_warp_attempted"@]
            == evidence::DetailView::Bool(evidence.hardware_cursor_warp_attempted),
{
    reveal_strlit("pointer_completed_events");
    reveal_strlit("pointer_cleanup_attempted");
    reveal_strlit("pointer_cleanup_succeeded");
    reveal_strlit("pointer_modifiers_cleared");
    reveal_strlit("pointer_dispatch_may_have_partially_landed");
    reveal_strlit("hardware_cursor_warp_attempted");
    assert("pointer_completed_events"@.len() == 24);
    assert("pointer_cleanup_attempted"@.len() == 25);
    assert("pointer_cleanup_succeeded"@.len() == 25);
    assert("pointer_modifiers_cleared"@.len() == 25);
    assert("pointer_dispatch_may_have_partially_landed"@.len() == 42);
    assert("hardware_cursor_warp_attempted"@.len() == 30);
    assert("pointer_cleanup_attempted"@[16] == 'a');
    assert("pointer_cleanup_succeeded"@[16] == 's');
    assert("pointer_cleanup_attempted"@[8] == 'c');
    assert("pointer_modifiers_cleared"@[8] == 'm');
    assert("pointer_cleanup_succeeded"@[8] == 'c');
}

/// What is told of a lease is what it found, whether it changed it, and whether it
/// gave it back.
pub proof fn a_lease_tells_what_it_found(
    lease: &AxEnablementLease,
    succeeded: bool,
    fields: Fields,
    prior: bool,
    changed: bool,
    attribute: EnablementAttribute,
)
    requires
        call_ensures(AxEnablementLease::release_evidence, (lease, succeeded), fields),
        call_ensures(AxEnablementLease::prior, (lease,), prior),
        call_ensures(AxEnablementLease::changed, (lease,), changed),
        call_ensures(AxEnablementLease::attribute, (lease,), attribute),
    ensures
        fields@["ax_attribute"@] == evidence::DetailView::Text(lease.on().text()),
        fields@["ax_prior_value"@] == evidence::DetailView::Bool(lease.was()),
        fields@["ax_state_changed"@] == evidence::DetailView::Bool(lease.wrote()),
        fields@["ax_release_succeeded"@] == evidence::DetailView::Bool(succeeded),
        prior == lease.was(),
        changed == lease.wrote(),
        attribute == lease.on(),
{
    reveal_strlit("ax_attribute");
    reveal_strlit("ax_prior_value");
    reveal_strlit("ax_state_changed");
    reveal_strlit("ax_release_succeeded");
    assert("ax_attribute"@.len() == 12);
    assert("ax_prior_value"@.len() == 14);
    assert("ax_state_changed"@.len() == 16);
    assert("ax_release_succeeded"@.len() == 20);
}

/// What is told of a recovery: that it had an effect, on which window, and who was in
/// front before and after.
pub proof fn a_recovery_tells_who_was_in_front(
    recovery: &RecoveryEvidence,
    structured: Fields,
    decorated: Fields,
    record: Vec<(String, Scalar)>,
)
    requires
        call_ensures(RecoveryEvidence::decorate_error, (recovery, structured), decorated),
        call_ensures(RecoveryEvidence::structured, (recovery,), record),
    ensures
        decorated@["effect_may_have_occurred"@] == evidence::DetailView::Bool(true),
        decorated@["native_side_effect_started"@] == evidence::DetailView::Bool(true),
        decorated@["minimized_recovery"@] is Record,
        record@.len() == 8,
        record@[1].0@ == "pid"@ && record@[1].1@ == evidence::ScalarView::Int(recovery.pid as int),
        record@[2].0@ == "window_id"@ && record@[2].1@
            == evidence::ScalarView::Int(recovery.window_id as int),
        record@[5].0@ == "frontmost_pid_before"@,
        record@[6].0@ == "frontmost_pid_after"@,
        recovery.frontmost_pid_before is Some ==> record@[5].1@
            == evidence::ScalarView::Int(recovery.frontmost_pid_before->0 as int),
        recovery.frontmost_pid_after is Some ==> record@[6].1@
            == evidence::ScalarView::Int(recovery.frontmost_pid_after->0 as int),
        record@[7].1@ == evidence::ScalarView::Bool(recovery.target_activation_observed),
{
    reveal_strlit("effect_may_have_occurred");
    reveal_strlit("native_side_effect_started");
    reveal_strlit("minimized_recovery");
    assert("effect_may_have_occurred"@.len() == 24);
    assert("native_side_effect_started"@.len() == 26);
    assert("minimized_recovery"@.len() == 18);
    let view = evidence::record_view(record@);
    assert(view.len() == record@.len());
    assert(view[1] == (record@[1].0@, record@[1].1@));
    assert(view[2] == (record@[2].0@, record@[2].1@));
    assert(view[5] == (record@[5].0@, record@[5].1@));
    assert(view[6] == (record@[6].0@, record@[6].1@));
    assert(view[7] == (record@[7].0@, record@[7].1@));
}

/// What is told of a prepared focus is what was posted for it.
pub proof fn a_prepared_focus_tells_what_was_posted(
    preparation: FocusPreparation,
    count: usize,
    acknowledged: bool,
    outcome: Result<Fields, NativeError>,
)
    requires
        call_ensures(FocusPreparation::finish, (preparation, count, acknowledged), outcome),
    ensures
        outcome is Ok <==> acknowledged,
        outcome is Ok ==> outcome->Ok_0@["target_application_was_active"@]
            == evidence::DetailView::Bool(preparation.application_is_active),
        outcome is Ok ==> outcome->Ok_0@["target_focus_notification_posted"@]
            == evidence::DetailView::Bool(preparation.post_key_focus_returned),
        outcome is Ok ==> outcome->Ok_0@["target_app_activation_posted"@]
            == evidence::DetailView::Bool(preparation.post_app_activated),
        outcome is Ok ==> outcome->Ok_0@["target_app_activation_event_count"@]
            == evidence::DetailView::Int(count as int),
{
    reveal_strlit("target_application_was_active");
    reveal_strlit("target_focus_notification_posted");
    reveal_strlit("target_focus_notification");
    reveal_strlit("target_app_activation_posted");
    reveal_strlit("target_app_activation_event_count");
    reveal_strlit("target_ax_frontmost_acknowledged");
    reveal_strlit("target_focus_lifetime");
    reveal_strlit("target_focus_event_taps");
    assert("target_application_was_active"@.len() == 29);
    assert("target_focus_notification_posted"@.len() == 32);
    assert("target_focus_notification"@.len() == 25);
    assert("target_app_activation_posted"@.len() == 28);
    assert("target_app_activation_event_count"@.len() == 33);
    assert("target_ax_frontmost_acknowledged"@.len() == 32);
    assert("target_focus_lifetime"@.len() == 21);
    assert("target_focus_event_taps"@.len() == 23);
    assert("target_focus_notification_posted"@[7] == 'f');
    assert("target_ax_frontmost_acknowledged"@[7] == 'a');
}

/// What is told of a scope is its target and its host, and that nothing was brought
/// to the front.
pub proof fn a_scope_tells_its_target_and_host(
    scope: &ScopeAcquisition,
    recipe: MacScopeRecipe,
    host: &HostRecipeContext,
    acquired: (ScopeLeaseAcquisition, Fields),
)
    requires
        call_ensures(ScopeAcquisition::acquired, (scope, recipe, host), acquired),
        scope.belief is None,
    ensures
        acquired.1@["os_version"@] == evidence::DetailView::Text(host.os_version@),
        acquired.1@["architecture"@] == evidence::DetailView::Text(host.architecture@),
        acquired.1@["pid"@] == evidence::DetailView::Int(scope.cleanup.target_pid as int),
        acquired.1@["cg_window_id"@]
            == evidence::DetailView::Int(scope.cleanup.target_window_id as int),
        acquired.1@["activation_requested"@] == evidence::DetailView::Bool(false),
        acquired.1@["hardware_cursor_warp_attempted"@] == evidence::DetailView::Bool(false),
        scope.cleanup.frontmost_pid_before is Some ==> acquired.1@["frontmost_pid_before"@]
            == evidence::DetailView::Int(scope.cleanup.frontmost_pid_before->0 as int),
        scope.cleanup.frontmost_pid_before is None ==> acquired.1@["frontmost_pid_before"@]
            == evidence::DetailView::Null,
{
    reveal_strlit("interaction_recipe");
    reveal_strlit("os_version");
    reveal_strlit("architecture");
    reveal_strlit("pid");
    reveal_strlit("cg_window_id");
    reveal_strlit("frontmost_pid_before");
    reveal_strlit("key_window_before");
    reveal_strlit("activation_requested");
    reveal_strlit("hardware_cursor_warp_attempted");
    reveal_strlit("user_intervention_signal");
    assert("interaction_recipe"@.len() == 18);
    assert("os_version"@.len() == 10);
    assert("architecture"@.len() == 12);
    assert("pid"@.len() == 3);
    assert("cg_window_id"@.len() == 12);
    assert("frontmost_pid_before"@.len() == 20);
    assert("key_window_before"@.len() == 17);
    assert("activation_requested"@.len() == 20);
    assert("hardware_cursor_warp_attempted"@.len() == 30);
    assert("user_intervention_signal"@.len() == 24);
    assert("architecture"@[0] == 'a');
    assert("cg_window_id"@[0] == 'c');
    assert("frontmost_pid_before"@[0] == 'f');
    assert("activation_requested"@[0] == 'a');
}

/// What is told of a released suppression is what it was for and what it did.
pub proof fn a_released_suppression_tells_what_it_did(
    resource: &mut SystemMenuSuppressionResource,
    state: &mut MacFocusState,
    fields: Fields,
)
    requires
        call_ensures(SystemMenuSuppressionResource::release, (resource, state), fields),
        !old(resource).released,
    ensures
        fields@["menu_suppression_target_pid"@]
            == evidence::DetailView::Int(old(resource).target_pid as int),
        fields@["menu_suppression_menu_id"@] == evidence::DetailView::Text(old(resource).menu_id@),
        fields@["menu_suppression_action_id"@]
            == evidence::DetailView::Text(old(resource).action_id@),
        fields@["menu_suppression_armed_after_dispatch"@]
            == evidence::DetailView::Bool(old(state).menu().was_armed),
        fields@["menu_suppression_suppressed_event_count"@]
            == evidence::DetailView::Int(old(state).menu().suppressed as int),
        fields@["menu_suppression_active_after_release"@] == evidence::DetailView::Bool(false),
        old(resource).menu_pid is Some ==> fields@["menu_suppression_menu_pid"@]
            == evidence::DetailView::Int(old(resource).menu_pid->0 as int),
        old(resource).menu_pid is None ==> fields@["menu_suppression_menu_pid"@]
            == evidence::DetailView::Null,
        old(state).menu().last_source is Some
            ==> fields@["menu_suppression_last_suppressed_source_pid"@]
            == evidence::DetailView::Int(old(state).menu().last_source->0 as int),
        old(state).menu().last_source is None
            ==> fields@["menu_suppression_last_suppressed_source_pid"@]
            == evidence::DetailView::Null,
{
    reveal_strlit("menu_suppression_target_pid");
    reveal_strlit("menu_suppression_menu_pid");
    reveal_strlit("menu_suppression_menu_id");
    reveal_strlit("menu_suppression_action_id");
    reveal_strlit("menu_suppression_predicate");
    reveal_strlit("menu_suppression_event_mask");
    reveal_strlit("menu_suppression_armed_after_dispatch");
    reveal_strlit("menu_suppression_suppressed_event_count");
    reveal_strlit("menu_suppression_last_suppressed_source_pid");
    reveal_strlit("menu_suppression_active_after_release");
    assert("menu_suppression_target_pid"@.len() == 27);
    assert("menu_suppression_menu_pid"@.len() == 25);
    assert("menu_suppression_menu_id"@.len() == 24);
    assert("menu_suppression_action_id"@.len() == 26);
    assert("menu_suppression_predicate"@.len() == 26);
    assert("menu_suppression_event_mask"@.len() == 27);
    assert("menu_suppression_armed_after_dispatch"@.len() == 37);
    assert("menu_suppression_suppressed_event_count"@.len() == 39);
    assert("menu_suppression_last_suppressed_source_pid"@.len() == 43);
    assert("menu_suppression_active_after_release"@.len() == 37);
    assert("menu_suppression_target_pid"@[17] == 't');
    assert("menu_suppression_event_mask"@[17] == 'e');
    assert("menu_suppression_action_id"@[17] == 'a');
    assert("menu_suppression_predicate"@[17] == 'p');
    assert("menu_suppression_armed_after_dispatch"@[18] == 'r');
    assert("menu_suppression_active_after_release"@[18] == 'c');
}

/// What is told of an action is its name, what the system said, and whether its
/// effect was seen.
pub proof fn an_action_tells_what_the_system_said(
    action: &str,
    primitive: &str,
    status: i32,
    attempts: Option<u32>,
    outcome: DispatchOutcome,
)
    requires
        call_ensures(
            semantic::finish_ax_action,
            (action, primitive, status, attempts),
            outcome,
        ),
    ensures
        outcome.result is Ok ==> outcome.result->Ok_0@.fields["ax_action"@]
            == evidence::DetailView::Text(action@),
        outcome.result is Ok ==> outcome.result->Ok_0@.fields["ax_return_code"@]
            == evidence::DetailView::Int(status as int),
        outcome.result is Ok ==> outcome.result->Ok_0@.fields["post_error_effect_verified"@]
            == evidence::DetailView::Bool(attempts is Some),
        outcome.result is Ok ==> outcome.result->Ok_0@.fields["primitive"@]
            == evidence::DetailView::Text(primitive@),
        outcome.result is Ok && attempts is Some
            ==> outcome.result->Ok_0@.fields["post_error_readback_attempts"@]
            == evidence::DetailView::Int(attempts->0 as int),
{
    reveal_strlit("primitive");
    reveal_strlit("ax_action");
    reveal_strlit("ax_return_code");
    reveal_strlit("post_error_effect_verified");
    reveal_strlit("post_error_readback_attempts");
    reveal_strlit("owner_window_identity_preserved");
    reveal_strlit("destination_title_matched");
    assert("primitive"@.len() == 9);
    assert("ax_action"@.len() == 9);
    assert("ax_return_code"@.len() == 14);
    assert("post_error_effect_verified"@.len() == 26);
    assert("post_error_readback_attempts"@.len() == 28);
    assert("owner_window_identity_preserved"@.len() == 31);
    assert("destination_title_matched"@.len() == 25);
    assert("primitive"@[0] == 'p');
    assert("ax_action"@[0] == 'a');
}

} // verus!
