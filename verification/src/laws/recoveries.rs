//! How minimized windows come back.
use vstd::prelude::*;

use crate::ax::minimized_recovery;
use crate::ax::minimized_recovery::{
    ExactAxWindowFacts, RecoveryCandidate, RecoveryEvent, RecoveryEvidence, RecoveryFailure,
    RecoveryReadback, RecoveryReport, RecoveryRun, RecoverySettle, RecoveryStart, ServerWindow,
};
use crate::text;

verus! {

/// A standard window can be recovered, and a dialog that is known to be minimized.
pub proof fn standard_windows_can_be_recovered(facts: &ExactAxWindowFacts, recoverable: bool)
    requires
        call_ensures(ExactAxWindowFacts::is_recoverable_standard, (facts,), recoverable),
    ensures
        recoverable <==> text::optional_text(facts.subrole) == Some("AXStandardWindow"@) || (
        text::optional_text(facts.subrole) == Some("AXDialog"@) && facts.minimized == Some(true)),
{
}

/// A window is to be restored where it is minimized and can be recovered; one that
/// is minimized and cannot be is refused, and any other is left alone.
pub proof fn only_minimized_windows_are_restored(
    pid: i32,
    window: u32,
    initial: Option<ExactAxWindowFacts>,
    required: Result<bool, RecoveryFailure>,
)
    requires
        call_ensures(minimized_recovery::restore_required, (pid, window, initial), required),
    ensures
        initial is None || initial->0.minimized != Some(true) ==> required == Ok::<
            bool,
            RecoveryFailure,
        >(false),
        initial is Some && initial->0.minimized == Some(true) ==> {
            let subrole = text::optional_text(initial->0.subrole);
            let known = subrole == Some("AXStandardWindow"@) || subrole == Some("AXDialog"@);
            &&& known ==> required == Ok::<bool, RecoveryFailure>(true)
            &&& !known ==> required is Err && required->Err_0.retryable
                && !required->Err_0.effect_may_have_occurred
        },
{
}

/// A window is written exactly where it is on the current space, its application is
/// known to be shown, and it is minimized, of a recoverable kind and writable. What
/// is refused before that had no effect and may be tried again.
pub proof fn a_window_is_restored_where_it_may_be(
    pid: i32,
    window: u32,
    server: Option<ServerWindow>,
    hidden: Option<bool>,
    candidate: Option<RecoveryCandidate>,
    outcome: Result<RecoveryStart, RecoveryFailure>,
)
    requires
        call_ensures(
            minimized_recovery::recovery_preflight,
            (pid, window, server, hidden, candidate),
            outcome,
        ),
    ensures
        ({
            let reachable = server is Some && server->0.on_current_space == Some(true) && hidden
                == Some(false) && candidate is Some;
            let subrole = text::optional_text(candidate->0.subrole);
            let writable = candidate->0.minimized == Some(true) && candidate->0.settable && (
            subrole == Some("AXStandardWindow"@) || subrole == Some("AXDialog"@));
            &&& outcome is Ok && outcome->Ok_0 is Write <==> reachable && writable
            &&& outcome is Ok && outcome->Ok_0 is AlreadyRestored <==> reachable
                && candidate->0.minimized == Some(false)
        }),
        outcome is Err ==> outcome->Err_0.retryable && !outcome->Err_0.effect_may_have_occurred,
        server is None ==> outcome is Err && outcome->Err_0.code@ == "window_not_found"@,
{
}

/// A write counts where it was taken; one that was not may have had an effect.
pub proof fn a_failed_restore_may_have_had_an_effect(
    pid: i32,
    window: u32,
    status: i32,
    outcome: Result<(), RecoveryFailure>,
)
    requires
        call_ensures(minimized_recovery::recovery_write_outcome, (pid, window, status), outcome),
    ensures
        outcome is Ok <==> status == 0,
        outcome is Err ==> !outcome->Err_0.retryable && outcome->Err_0.effect_may_have_occurred,
{
}

/// A window is restored once it is seen again: not minimized, on the screen, on the
/// current space and of an application that is shown.
pub proof fn a_window_is_restored_once_it_is_seen(
    readback: RecoveryReadback,
    now: u64,
    deadline: u64,
    step: RecoverySettle,
)
    requires
        call_ensures(minimized_recovery::recovery_settle, (readback, now, deadline), step),
    ensures
        step is Restored <==> readback.ax_minimized == Some(false) && readback.server is Some
            && readback.server->0.is_on_screen && readback.server->0.on_current_space == Some(true)
            && readback.hidden == Some(false),
        step is Wait ==> now < deadline,
        step is GiveUp ==> now >= deadline,
{
}

/// A restored window has three seconds to appear.
pub proof fn a_restored_window_has_three_seconds(now: u64, deadline: u64)
    requires
        call_ensures(minimized_recovery::recovery_deadline, (now,), deadline),
        now <= u64::MAX - 3_000_000_000,
    ensures
        deadline == now + 3_000_000_000,
{
}

/// A window that did not appear is reported as it was last read.
pub proof fn a_recovery_that_timed_out_is_not_retried(
    pid: i32,
    window: u32,
    report: RecoveryReport,
    failure: RecoveryFailure,
)
    requires
        call_ensures(minimized_recovery::recovery_timed_out, (pid, window, report), failure),
    ensures
        !failure.retryable && failure.effect_may_have_occurred,
        failure.code@ == "ui_not_settled"@,
        failure.details@["ax_minimized"@] == crate::evidence::DetailView::optional_bool(
            report.ax_minimized,
        ),
        failure.details@["windowserver_on_screen"@]
            == crate::evidence::DetailView::optional_bool(report.on_screen),
        failure.details@["windowserver_on_current_space"@]
            == crate::evidence::DetailView::optional_bool(report.on_current_space),
{
    reveal_strlit("ax_minimized");
    reveal_strlit("windowserver_on_screen");
    reveal_strlit("windowserver_on_current_space");
    assert("ax_minimized"@.len() == 12);
    assert("windowserver_on_screen"@.len() == 22);
    assert("windowserver_on_current_space"@.len() == 29);
}

/// A recovery reads, writes once, and is done when the window is seen again.
pub proof fn a_recovery_goes_step_by_step(run: &mut RecoveryRun, event: RecoveryEvent)
    requires
        call_ensures(RecoveryRun::advance, (run, event), ()),
        old(run)@.wf(),
    ensures
        old(run).stage is Write && event is Written && event->status == 0
            ==> final(run)@.stage is Settle && final(run)@.result is None,
        old(run).stage is Write && event is Written && event->status != 0
            ==> final(run)@.result is Some && final(run)@.result->0 is Err,
        old(run).stage is Settle && event is ReadBack && event->readback.settled()
            ==> final(run)@.result == Some(Ok::<bool, minimized_recovery::FailureView>(true)),
        old(run).stage is Settle && event is ReadBack && !event->readback.settled()
            && event->ReadBack_now < old(run).stage->deadline ==> final(run)@.stage is Settle,
        old(run).stage is Settle && event is ReadBack && !event->readback.settled()
            && event->ReadBack_now >= old(run).stage->deadline ==> final(run)@.stage is Report,
        old(run).stage is Report && event is Reported ==> final(run)@.result is Some
            && final(run)@.result->0 is Err,
        old(run).stage is Done ==> final(run)@ == old(run)@,
{
}

/// The application that is put back in front is the one that was there, unless it
/// is the target itself.
pub proof fn the_prior_application_is_put_back(
    pid: i32,
    frontmost: Option<i32>,
    prior: Option<i32>,
)
    requires
        call_ensures(minimized_recovery::suppression_prior, (pid, frontmost), prior),
    ensures
        prior is Some ==> prior == frontmost && prior->0 != pid,
        frontmost is Some && frontmost->0 != pid ==> prior == frontmost,
        frontmost == Some(pid) ==> prior is None,
{
}

/// A recovery that left the background failed, though the window is back; one that
/// wrote nothing has no evidence.
pub proof fn a_recovery_stays_in_the_background(
    evidence: RecoveryEvidence,
    recovery: Result<bool, RecoveryFailure>,
    outcome: Result<Option<RecoveryEvidence>, RecoveryFailure>,
)
    requires
        call_ensures(minimized_recovery::restore_if_minimized, (evidence, recovery), outcome),
    ensures
        recovery is Err ==> outcome is Err && outcome->Err_0 == recovery->Err_0,
        recovery == Ok::<bool, RecoveryFailure>(false) ==> outcome is Ok && outcome->Ok_0 is None,
        recovery == Ok::<bool, RecoveryFailure>(true) ==> (outcome is Ok
            <==> !evidence.target_activation_observed && (evidence.frontmost_pid_after != Some(
            evidence.pid,
        ) || evidence.frontmost_pid_before == Some(evidence.pid))),
        recovery == Ok::<bool, RecoveryFailure>(true) && outcome is Ok ==> outcome->Ok_0 == Some(
            evidence,
        ),
        recovery == Ok::<bool, RecoveryFailure>(true) && outcome is Err
            ==> !outcome->Err_0.retryable && outcome->Err_0.effect_may_have_occurred,
{
}

/// A task that broke down says whether the write had begun.
pub proof fn a_broken_task_says_how_far_it_was(
    pid: i32,
    window: u32,
    started: bool,
    error: &str,
    failure: RecoveryFailure,
)
    requires
        call_ensures(
            minimized_recovery::recovery_task_failure,
            (pid, window, started, error),
            failure,
        ),
    ensures
        failure.effect_may_have_occurred <==> started,
        failure.retryable <==> !started,
{
}

} // verus!
