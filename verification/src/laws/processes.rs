//! Which running application a launch stands for, and how it is spoken of.
use vstd::prelude::*;

use crate::driver::lifecycle;
use crate::driver::lifecycle::{
    AppRef, AppSelector, CatalogFacts, LaunchMode, LaunchPostureScope, LaunchRun, LaunchStage,
    LaunchWake, LaunchWindowStability, PendingLaunch, ResolvedLaunch, RunningApplicationInfo,
    WindowRef,
};
use crate::contracts::SettlementSignal;
use crate::errors::{ErrorCode, ErrorPhase, NativeError};
use crate::text;

verus! {

/// What a running application is looked at as holds what it holds.
pub proof fn a_running_application_is_what_it_holds(application: RunningApplicationInfo)
    ensures
        application@.pid == application.pid,
        application.name is Some ==> application@.name == Some(application.name->0@),
        application.name is None ==> application@.name is None,
        application.bundle_id is Some ==> application@.bundle_id == Some(application.bundle_id->0@),
        application.bundle_id is None ==> application@.bundle_id is None,
        application.executable_path is Some ==> application@.executable_path == Some(
            application.executable_path->0@,
        ),
        application.executable_path is None ==> application@.executable_path is None,
        application@.process_generation == application.process_generation,
        application@.active == application.active,
        application@.hidden == application.hidden,
        application@.finished_launching == application.finished_launching,
        application@.regular == application.regular,
{
}

/// What a listed application and a listed window are looked at as holds what they
/// hold.
pub proof fn a_listed_application_is_what_it_holds(app: AppRef, window: WindowRef)
    ensures
        app@.id == app.id@,
        app.name is Some ==> app@.name == Some(app.name->0@),
        app.name is None ==> app@.name is None,
        app@.pid == app.pid,
        app@.running == app.running,
        window@.id == window.id@,
        window@.app == window.app@,
        window.title is Some ==> window@.title == Some(window.title->0@),
        window.title is None ==> window@.title is None,
{
}

/// The application that is found is the first one that the launch stands for, and
/// none is found where none is.
pub proof fn the_first_standing_application_is_found(
    resolved: &ResolvedLaunch,
    running: &Vec<RunningApplicationInfo>,
    found: Option<usize>,
    at: int,
    stands: bool,
)
    requires
        call_ensures(lifecycle::find_preexisting, (resolved, running), found),
        0 <= at < running@.len(),
        call_ensures(ResolvedLaunch::matches, (resolved, &running@[at]), stands),
    ensures
        stands ==> found is Some && found->0 <= at,
        found is Some && found->0 == at ==> stands,
        found is Some ==> found->0 < running@.len(),
{
}

/// A launch stands for the application of its bundle id alone, where it has one.
pub proof fn a_launch_stands_for_its_bundle(
    resolved: &ResolvedLaunch,
    application: &RunningApplicationInfo,
    stands: bool,
)
    requires
        call_ensures(ResolvedLaunch::matches, (resolved, application), stands),
    ensures
        resolved.bundle_id is Some ==> (stands <==> application.bundle_id is Some
            && application.bundle_id->0@ == resolved.bundle_id->0@),
        resolved.bundle_id is None && resolved.executable_path is None && resolved.name is None
            ==> !stands,
        stands && resolved.bundle_id is None && resolved.executable_path is Some
            ==> application.executable_path is Some,
{
}

/// A name that one running application carries stands for that application; a name
/// that no running application carries is looked up, and so is a bundle id.
pub proof fn a_launch_resolves_to_what_runs(
    selector: AppSelector,
    applications: &Vec<RunningApplicationInfo>,
    facts: CatalogFacts,
    outcome: Result<ResolvedLaunch, NativeError>,
    at: int,
)
    requires
        call_ensures(lifecycle::resolve_launch, (selector, applications, facts), outcome),
    ensures
        selector matches AppSelector::BundleId { bundle_id } ==> (outcome is Ok
            <==> facts.bundle_exists && !text::blank(bundle_id@)),
        selector matches AppSelector::BundleId { bundle_id } ==> (outcome is Ok
            ==> outcome->Ok_0.bundle_id is Some && outcome->Ok_0.bundle_id->0@ == bundle_id@
            && outcome->Ok_0.arguments@.len() == 0),
        selector matches AppSelector::Name { name } ==> (text::blank(name@) ==> outcome is Err
            && outcome->Err_0.code == ErrorCode::InvalidRequest),
        selector matches AppSelector::Name { name } ==> (applications@.len() == 0 && !text::blank(
            name@,
        ) ==> (outcome is Ok <==> facts.located is Some)),
        selector matches AppSelector::Name { name } ==> (outcome is Ok && 0 <= at
            < applications@.len() && applications@[at].name is Some && applications@[at].name->0@
            == name@ && !text::blank(name@) ==> outcome->Ok_0@.bundle_id
            == applications@[at]@.bundle_id && outcome->Ok_0@.executable_path
            == applications@[at]@.executable_path),
{
    if selector is BundleId {
        if outcome is Ok {
            assert(outcome->Ok_0@.bundle_id is Some);
            assert(outcome->Ok_0@.arguments.len() == outcome->Ok_0.arguments@.len());
        }
    }
    if let AppSelector::Name { name } = selector {
        if text::blank(name@) {
            assert(outcome is Err ==> outcome->Err_0@.code == ErrorCode::InvalidRequest);
        } else {
            if applications@.len() == 0 {
                assert(lifecycle::named_pids(applications@, name@).len() == 0);
            }
            if outcome is Ok && 0 <= at < applications@.len() && applications@[at].name is Some
                && applications@[at].name->0@ == name@ {
                assert(lifecycle::carries_name(applications@[at]@, name@));
                let k = choose|k: int|
                    #![trigger lifecycle::only_named(applications@, name@, k)]
                    lifecycle::only_named(applications@, name@, k) && outcome->Ok_0@.bundle_id
                        == applications@[k]@.bundle_id && outcome->Ok_0@.executable_path
                        == applications@[k]@.executable_path;
                assert(k == at);
            }
        }
    }
}

/// A running application is spoken of with its own name and process, as running.
pub proof fn a_running_application_is_listed_as_itself(
    application: &RunningApplicationInfo,
    app: AppRef,
)
    requires
        call_ensures(lifecycle::app_ref_for_running, (application,), app),
    ensures
        app.running,
        app@.name == application@.name,
        application.pid >= 0 ==> app.pid is Some && app.pid->0 == application.pid,
        application.pid < 0 ==> app.pid is None,
        application.process_generation is None && application.bundle_id is Some ==> app.id@
            == "macos:bundle:"@ + application.bundle_id->0@,
        application.process_generation is Some ==> app.id@ == "macos:process:"@
            + text::signed_decimal(application.pid as int) + ":"@ + text::hex(
            application.process_generation->0 as nat,
            16,
        ),
{
    reveal_strlit(":");
    assert(":"@ =~= seq![':']);
    assert(app@.running);
    assert(app@.id == app.id@);
}

/// An application goes by its process, else by its bundle, else by its path.
pub proof fn an_application_goes_by_its_process_first(
    bundle_id: &Option<String>,
    executable_path: &Option<String>,
    process: Option<(i32, u64)>,
    id: String,
)
    requires
        call_ensures(lifecycle::app_id, (bundle_id, executable_path, process), id),
    ensures
        process matches Some((pid, generation)) ==> id@ == "macos:process:"@ + text::signed_decimal(
            pid as int,
        ) + ":"@ + text::hex(generation as nat, 16),
        process is None && *bundle_id is Some ==> id@ == "macos:bundle:"@ + bundle_id->0@,
        process is None && *bundle_id is None && *executable_path is Some ==> id@
            == "macos:executable:"@ + executable_path->0@,
        process is None && *bundle_id is None && *executable_path is None ==> id@
            == "macos:unknown"@,
{
    reveal_strlit(":");
    assert(":"@ =~= seq![':']);
}

/// The ids of windows are all there, in order.
pub proof fn the_ids_of_windows_are_all_there(
    windows: &Vec<WindowRef>,
    ids: Vec<String>,
    i: int,
    j: int,
    k: int,
)
    requires
        call_ensures(lifecycle::window_ids, (windows,), ids),
    ensures
        ids@.len() == windows@.len(),
        0 <= i < windows@.len() ==> text::texts(ids@).contains(windows@[i].id@),
        0 <= j < k < ids@.len() ==> text::text_le(ids@[j]@, ids@[k]@),
{
    let listed = text::texts(ids@);
    let all = lifecycle::ids_of(windows@);
    all.to_multiset_ensures();
    listed.to_multiset_ensures();
    assert(all.len() == windows@.len());
    assert(listed.len() == ids@.len());
    if 0 <= i < windows@.len() {
        assert(all[i] == windows@[i].id@);
        assert(all.contains(windows@[i].id@));
        assert(all.to_multiset().count(windows@[i].id@) > 0);
        assert(listed.contains(windows@[i].id@));
    }
    if 0 <= j < k < ids@.len() {
        assert(listed[j] == ids@[j]@);
        assert(listed[k] == ids@[k]@);
    }
}

/// A scope starts with nothing but its action.
pub proof fn a_launch_scope_starts_empty(action_id: Option<String>, scope: LaunchPostureScope)
    requires
        call_ensures(LaunchPostureScope::for_action, (action_id,), scope),
    ensures
        scope@.action_id == text::optional_text(action_id),
        !scope.side_effect_started,
        scope.partial_app is None,
        scope.partial_windows@.len() == 0,
        scope.posture is None,
        scope.pending_settlement is None,
{
    assert(scope@.partial_windows.len() == scope.partial_windows@.len());
    assert(scope@.side_effect_started == scope.side_effect_started);
    assert(scope@.partial_app is None);
    assert(scope@.posture == scope.posture);
    assert(scope@.pending_settlement is None);
}

/// What is pending is kept beside everything else, and so is the beginning of a
/// launch.
pub proof fn what_is_pending_is_kept(
    scope: &mut LaunchPostureScope,
    pending: PendingLaunch,
    begun: &mut LaunchPostureScope,
)
    requires
        call_ensures(LaunchPostureScope::set_pending, (scope, pending), ()),
        call_ensures(LaunchPostureScope::begin_launch, (begun,), ()),
    ensures
        final(scope)@.pending_settlement == Some(pending@),
        final(scope)@.side_effect_started == old(scope)@.side_effect_started,
        final(scope)@.partial_app == old(scope)@.partial_app,
        final(scope)@.partial_windows == old(scope)@.partial_windows,
        final(begun).side_effect_started,
        final(begun)@.pending_settlement == old(begun)@.pending_settlement,
        final(begun)@.partial_app == old(begun)@.partial_app,
{
    assert(final(begun)@.side_effect_started);
}

/// What is pending tells the action, the time and the signals it was given.
pub proof fn what_is_pending_tells_what_it_was_given(
    action_id: &str,
    profile: &'static str,
    started: u64,
    now: u64,
    observed: Vec<SettlementSignal>,
    missing: Vec<SettlementSignal>,
    pending: PendingLaunch,
)
    requires
        call_ensures(
            lifecycle::pending_launch_evidence,
            (action_id, profile, started, now, observed, missing),
            pending,
        ),
    ensures
        pending.trigger_action_id@ == action_id@,
        pending.profile@ == profile@,
        started <= now ==> pending.elapsed_ms == (now - started) / 1_000_000,
        now <= started ==> pending.elapsed_ms == 0,
        pending.observed_signals@ == observed@,
        pending.missing_signals@ == missing@,
{
    assert(pending@.trigger_action_id == action_id@);
    assert(pending@.observed_signals == pending.observed_signals@);
    assert(pending@.missing_signals == pending.missing_signals@);
}

/// Launches that fail say so, and when.
pub proof fn launch_failures_say_when(
    message: &str,
    dispatched: NativeError,
    settled: NativeError,
    joined: NativeError,
    pid: i32,
    now: u64,
    deadline: u64,
    outcome: Result<(), NativeError>,
)
    requires
        call_ensures(lifecycle::launch_error, (message,), dispatched),
        call_ensures(lifecycle::launch_settle_error, (message,), settled),
        call_ensures(lifecycle::join_error, (message,), joined),
        call_ensures(lifecycle::stable_windows_deadline, (pid, now, deadline), outcome),
    ensures
        dispatched.code == ErrorCode::AppLaunchFailed && dispatched.phase == ErrorPhase::Dispatch
            && dispatched.retryable && dispatched.message@ == message@,
        settled.code == ErrorCode::AppLaunchFailed && settled.phase == ErrorPhase::Settle
            && settled.retryable && settled.message@ == message@,
        joined.code == ErrorCode::Internal && joined.phase == ErrorPhase::Preflight
            && joined.retryable,
        outcome is Err <==> deadline <= now,
        outcome is Err ==> outcome->Err_0.code == ErrorCode::AppLaunchFailed
            && outcome->Err_0.phase == ErrorPhase::Settle && outcome->Err_0.retryable,
{
    assert(dispatched@.code == dispatched.code);
    assert(settled@.code == settled.code);
    assert(joined@.code == joined.code);
    if outcome is Err {
        assert(outcome->Err_0@.code == outcome->Err_0.code);
    }
}

/// A launch that is used again looks at the windows of the application that runs.
pub proof fn a_launch_used_again_is_of_what_runs(
    action_id: &str,
    resolved: ResolvedLaunch,
    application: &RunningApplicationInfo,
    generation: u64,
    started: u64,
    now: u64,
    scope: &mut LaunchPostureScope,
    run: LaunchRun,
)
    requires
        call_ensures(
            LaunchRun::reuse,
            (action_id, resolved, application, generation, started, now, scope),
            run,
        ),
    ensures
        run.reused,
        run.stage == (LaunchStage::Windows { pid: application.pid, generation }),
        run.started == started,
        run.action_id@ == action_id@,
        run.failure is None,
        run.app is Some && run.app->0.running && run.app->0@.name == application@.name,
        final(scope)@.side_effect_started == old(scope)@.side_effect_started,
        final(scope)@.partial_app == Some(run.app->0@),
        final(scope)@.pending_settlement is Some
            && final(scope)@.pending_settlement->0.missing_signals.len() == 0,
{
    assert(run.app->0@.running == run.app->0.running);
}

/// A launch that was sent waits for its dispatch to be done.
pub proof fn a_launch_that_was_sent_waits_for_its_dispatch(
    action_id: &str,
    resolved: ResolvedLaunch,
    preexisting: Option<RunningApplicationInfo>,
    baseline: Vec<WindowRef>,
    started: u64,
    now: u64,
    scope: &mut LaunchPostureScope,
    run: LaunchRun,
)
    requires
        call_ensures(
            LaunchRun::dispatch,
            (action_id, resolved, preexisting, baseline, started, now, scope),
            run,
        ),
    ensures
        !run.reused,
        run.stage is Dispatch,
        run.started == started,
        run.resolved == resolved,
        run.preexisting == preexisting,
        run.baseline_windows == baseline,
        run.app is None && run.failure is None,
        final(scope)@.pending_settlement is Some
            && final(scope)@.pending_settlement->0.missing_signals.contains(
            SettlementSignal::DispatchComplete,
        ),
        final(scope)@.pending_settlement->0.observed_signals.contains(
            SettlementSignal::DispatchStarted,
        ),
        final(scope)@.partial_app == old(scope)@.partial_app,
{
    let pending = final(scope)@.pending_settlement->0;
    assert(pending.missing_signals[0] == SettlementSignal::DispatchComplete);
    assert(pending.observed_signals[0] == SettlementSignal::DispatchStarted);
}

/// A narrowed launch goes on with the process it was narrowed to; one that could not
/// be narrowed fails with the reason.
pub proof fn a_narrowed_launch_goes_on_with_its_process(
    run: &mut LaunchRun,
    result: Result<(), NativeError>,
    now: u64,
    scope: &mut LaunchPostureScope,
)
    requires
        call_ensures(LaunchRun::narrowed, (run, result, now, scope), ()),
        old(run).stage is Narrowing,
    ensures
        result is Ok ==> final(run).stage == (LaunchStage::Generation {
            pid: old(run).stage->Narrowing_pid,
        }) && final(run).failure == old(run).failure,
        result is Ok ==> final(scope)@.pending_settlement is Some
            && final(scope)@.pending_settlement->0.missing_signals.len() == 0
            && final(scope)@.pending_settlement->0.observed_signals.contains(
            SettlementSignal::DispatchComplete,
        ),
        result is Err ==> final(run).stage is Done && final(run).failure == Some(result->Err_0)
            && final(scope)@ == old(scope)@,
{
    if result is Ok {
        let pending = final(scope)@.pending_settlement->0;
        assert(pending.observed_signals[1] == SettlementSignal::DispatchComplete);
    }
}

/// A launch that is waited for is looked for again, unless its application ended, its
/// events ended or its time is up.
pub proof fn a_woken_launch_looks_again(run: &mut LaunchRun, wake: &LaunchWake)
    requires
        call_ensures(LaunchRun::woken, (run, wake), ()),
        old(run).stage is Registration || old(run).stage is Windows,
    ensures
        *wake is Tick || *wake is Lagged ==> final(run).stage == old(run).stage
            && final(run).failure == old(run).failure && (final(run).need is Look
                || final(run).need is Process),
        *wake is Closed || *wake is DeadlineElapsed ==> final(run).stage is Done
            && final(run).failure is Some,
        *wake is Tick && old(run).stage is Registration ==> final(run).need is Look,
        *wake is Tick && old(run).stage is Windows ==> final(run).need is Process,
{
}

/// A launch whose application is not there yet goes on waiting until its time is up.
pub proof fn an_unregistered_launch_waits_until_its_deadline(
    run: &mut LaunchRun,
    now: u64,
    scope: &mut LaunchPostureScope,
)
    requires
        call_ensures(
            LaunchRun::sighted,
            (run, None::<&RunningApplicationInfo>, now, scope),
            (),
        ),
        old(run).stage is Registration,
    ensures
        final(scope)@ == old(scope)@,
        final(run).need is Wake && final(run).stage == old(run).stage || final(run).stage is Done
            && final(run).failure is Some,
        old(run).started + 12_000_000_000 <= u64::MAX ==> (final(run).stage is Done <==> now
            >= old(run).started + 12_000_000_000),
{
}

/// The windows that cannot be listed end a launch, with the reason.
pub proof fn a_launch_ends_where_its_windows_cannot_be_listed(
    run: &mut LaunchRun,
    error: NativeError,
    now: u64,
    scope: &mut LaunchPostureScope,
)
    requires
        call_ensures(
            LaunchRun::listed,
            (run, Err::<Vec<WindowRef>, NativeError>(error), now, scope),
            (),
        ),
    ensures
        final(run).stage is Done,
        final(run).failure == Some(error),
        final(scope)@ == old(scope)@,
{
}

/// The windows that were there before are kept for comparison, and reported so far.
pub proof fn the_windows_before_are_kept(
    run: &mut LaunchRun,
    windows: Vec<WindowRef>,
    scope: &mut LaunchPostureScope,
)
    requires
        call_ensures(LaunchRun::baseline, (run, windows, scope), ()),
        old(run).app is Some,
    ensures
        final(run).baseline_windows == windows,
        final(run).stage == old(run).stage,
        final(run).app == old(run).app,
        final(scope)@.partial_windows == lifecycle::windows_view(windows@),
        final(scope)@.partial_app == Some(old(run).app->0@),
        final(scope)@.side_effect_started == old(scope)@.side_effect_started,
{
}

/// A failed launch is done, for the reason it failed.
pub proof fn a_failed_run_is_done(run: &mut LaunchRun, error: NativeError)
    requires
        call_ensures(LaunchRun::fail, (run, error), ()),
    ensures
        final(run).stage is Done,
        final(run).failure == Some(error),
        final(run).started == old(run).started,
        final(run).resolved == old(run).resolved,
{
}

/// Launches have the names of how they went about it.
pub proof fn launches_have_profiles(mode: LaunchMode, profile: &'static str)
    requires
        call_ensures(LaunchMode::profile, (mode,), profile),
    ensures
        mode is Reuse ==> profile@ == "macos_launch_reuse"@,
        mode is Dispatch ==> profile@ == "macos_background_launch"@,
{
}

/// A new watch over windows has seen none, and counts from now.
pub proof fn a_new_watch_has_seen_nothing(now: u64, stability: LaunchWindowStability)
    requires
        call_ensures(LaunchWindowStability::new, (now,), stability),
    ensures
        stability.prior() is None,
        stability.since() == now,
{
}

/// A version is told by its two numbers.
pub proof fn a_version_has_two_numbers(major: u32, minor: u32, version: String)
    requires
        call_ensures(lifecycle::protocol_version, (major, minor), version),
    ensures
        version@ == text::decimal(major as nat) + "."@ + text::decimal(minor as nat),
{
    reveal_strlit(".");
    assert("."@ =~= seq!['.']);
}

} // verus!
