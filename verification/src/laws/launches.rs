//! How applications are found, launched and awaited.
use vstd::prelude::*;

use crate::contracts::SettlementSignal;
use crate::driver::lifecycle;
use crate::driver::lifecycle::{
    AppRef, AppSelector, CapabilityManifest, CatalogFacts, LaunchNeed, LaunchPostureScope,
    LaunchRun, LaunchSettlement, LaunchStage, LaunchWaitKind, LaunchWake, LaunchWindowStability,
    NativeLaunch, Readiness, RegistrationStep, ResolvedLaunch, RunningApplicationInfo, SystemFacts,
    WindowRef,
};
use crate::driver::posture::PostureResult;
use crate::driver::target::WorkspaceEvent;
use crate::errors::{ErrorCode, ErrorPhase, NativeError};
use crate::evidence::Fields;
use crate::paths;
use crate::text;

verus! {

/// A process is the same where both its number and its generation are; one of
/// unknown generation is never the same.
pub proof fn processes_are_told_apart_by_generation(
    left: &RunningApplicationInfo,
    right: &RunningApplicationInfo,
    same: bool,
    back: bool,
)
    requires
        call_ensures(lifecycle::same_process_identity, (left, right), same),
        call_ensures(lifecycle::same_process_identity, (right, left), back),
    ensures
        same == back,
        same ==> left.pid == right.pid,
        left.process_generation is None || right.process_generation is None ==> !same,
        left.pid == right.pid && left.process_generation is Some && right.process_generation is Some
            ==> (same <==> left.process_generation->0 == right.process_generation->0),
{
}

/// An application is compared by its bundle id where one was asked for, else by its
/// executable, else by its name without regard to case. A running application that
/// lacks what is compared is neither the one nor another.
pub proof fn a_bundle_id_decides_before_the_rest(
    resolved: &ResolvedLaunch,
    application: &RunningApplicationInfo,
    comparison: Option<bool>,
)
    requires
        call_ensures(ResolvedLaunch::compares_to, (resolved, application), comparison),
    ensures
        resolved.bundle_id is Some && application.bundle_id is Some ==> comparison == Some(
            resolved.bundle_id->0@ == application.bundle_id->0@,
        ),
        resolved.bundle_id is Some && application.bundle_id is None ==> comparison is None,
        resolved.bundle_id is None && resolved.executable_path is Some
            && application.executable_path is Some ==> comparison == Some(
            paths::same_components(
                application.executable_path->0@,
                resolved.executable_path->0@,
            ),
        ),
        resolved.bundle_id is None && resolved.executable_path is Some
            && application.executable_path is None ==> comparison is None,
        resolved.bundle_id is None && resolved.executable_path is None && resolved.name is Some
            && application.name is Some && resolved.name->0@ == application.name->0@
            ==> comparison == Some(true),
        resolved.bundle_id is None && resolved.executable_path is None && resolved.name is None
            ==> comparison is None,
{
}

/// A running application is reused only where it is the one that was asked for, its
/// generation is known and no arguments were given.
pub proof fn only_the_same_application_is_reused(
    resolved: &ResolvedLaunch,
    application: Option<&RunningApplicationInfo>,
    comparison: Option<bool>,
    reuse: bool,
)
    requires
        call_ensures(lifecycle::reusable_existing_launch, (resolved, application), reuse),
        application is Some ==> call_ensures(
            ResolvedLaunch::compares_to,
            (resolved, application->0),
            comparison,
        ),
    ensures
        application is None ==> !reuse,
        application is Some ==> (reuse <==> resolved.arguments@.len() == 0 && comparison == Some(
            true,
        ) && application->0.process_generation is Some),
{
}

/// What is resolved for a selector is what the selector names, and a selector that
/// names nothing is refused.
pub proof fn a_selector_resolves_to_what_it_names(
    selector: AppSelector,
    facts: CatalogFacts,
    outcome: Result<ResolvedLaunch, NativeError>,
)
    requires
        call_ensures(lifecycle::resolve_launch_with_catalog, (selector, facts), outcome),
    ensures
        match selector {
            AppSelector::BundleId { bundle_id } => {
                &&& outcome is Ok <==> !text::blank(bundle_id@) && facts.bundle_exists
                &&& outcome is Ok ==> {
                    &&& outcome->Ok_0.app_ref@ == bundle_id@
                    &&& outcome->Ok_0.bundle_id is Some
                    &&& outcome->Ok_0.bundle_id->0@ == bundle_id@
                    &&& outcome->Ok_0.arguments@.len() == 0
                }
                &&& outcome is Err && !text::blank(bundle_id@) ==> outcome->Err_0.code
                    == ErrorCode::AppNotFound
            },
            AppSelector::Name { name } => {
                &&& outcome is Ok <==> !text::blank(name@) && facts.located is Some
                &&& outcome is Ok ==> {
                    &&& outcome->Ok_0.name is Some
                    &&& outcome->Ok_0.name->0@ == name@
                    &&& outcome->Ok_0.arguments@.len() == 0
                    &&& facts.located matches Some((reference, bundle)) && outcome->Ok_0.app_ref@
                        == reference@ && text::optional_text(outcome->Ok_0.bundle_id)
                        == text::optional_text(bundle)
                }
                &&& outcome is Err && !text::blank(name@) ==> outcome->Err_0.code
                    == ErrorCode::AppNotFound
            },
            AppSelector::Executable { path, arguments } => {
                &&& outcome is Ok ==> !text::blank(path@) && facts.canonical_path is Some
                &&& outcome is Ok ==> {
                    &&& text::optional_text(outcome->Ok_0.executable_path) == text::optional_text(
                        facts.canonical_path,
                    )
                    &&& text::texts(outcome->Ok_0.arguments@) == text::texts(arguments@)
                    &&& text::optional_text(outcome->Ok_0.bundle_id) == text::optional_text(
                        facts.path_bundle_id,
                    )
                }
                &&& !text::blank(path@) && facts.canonical_path is None ==> outcome is Err
                    && outcome->Err_0.code == ErrorCode::AppNotFound
            },
        },
{
    if outcome is Ok {
        let listed = outcome->Ok_0.arguments@;
        assert(text::texts(listed).len() == listed.len());
    }
}

/// A name that one running application carries stands for that application; one
/// that several carry is refused.
pub proof fn a_running_name_stands_for_its_application(
    name: &str,
    applications: &Vec<RunningApplicationInfo>,
    outcome: Result<Option<ResolvedLaunch>, NativeError>,
    at: int,
)
    requires
        call_ensures(lifecycle::resolve_running_name, (name, applications), outcome),
        0 <= at < applications@.len(),
        applications@[at].name is Some,
        text::ascii_lower_all(applications@[at].name->0@) == text::ascii_lower_all(name@),
    ensures
        outcome is Ok ==> outcome->Ok_0 is Some,
        outcome is Ok ==> {
            let resolved = outcome->Ok_0->0;
            &&& text::optional_text(resolved.bundle_id) == text::optional_text(
                applications@[at].bundle_id,
            )
            &&& text::optional_text(resolved.executable_path) == text::optional_text(
                applications@[at].executable_path,
            )
            &&& resolved.arguments@.len() == 0
        },
        outcome is Ok ==> forall|other: int|
            0 <= other < applications@.len() && other != at && (#[trigger]
            applications@[other]).name is Some ==> text::ascii_lower_all(
                applications@[other].name->0@,
            ) != text::ascii_lower_all(name@),
{
    assert(lifecycle::carries_name(applications@[at]@, name@));
    if outcome is Ok {
        let resolved = outcome->Ok_0->0;
        let only = choose|only: int|
            #![trigger lifecycle::only_named(applications@, name@, only)]
            {
                let application = applications@[only]@;
                &&& lifecycle::only_named(applications@, name@, only)
                &&& application.bundle_id is Some || application.executable_path is Some
                &&& resolved@ == lifecycle::LaunchView {
                    app_ref: match application.bundle_id {
                        Some(bundle_id) => bundle_id,
                        None => application.executable_path->0,
                    },
                    bundle_id: application.bundle_id,
                    executable_path: application.executable_path,
                    name: Some(name@),
                    arguments: Seq::empty(),
                }
            };
        assert(only == at);
        let listed = resolved.arguments@;
        assert(text::texts(listed).len() == listed.len());
        assert forall|other: int|
            0 <= other < applications@.len() && other != at && (#[trigger]
            applications@[other]).name is Some implies text::ascii_lower_all(
            applications@[other].name->0@,
        ) != text::ascii_lower_all(name@) by {
            if text::ascii_lower_all(applications@[other].name->0@) == text::ascii_lower_all(
                name@,
            ) {
                assert(lifecycle::carries_name(applications@[other]@, name@));
            }
        }
    }
}

/// A launch is held against the posture that was kept: a change of it is a
/// violation, a posture that could not be read may be tried again.
pub proof fn a_launch_fails_where_its_posture_was_not_kept(
    posture: PostureResult,
    app: &Option<AppRef>,
    windows: &Vec<WindowRef>,
    failure: Option<NativeError>,
)
    requires
        call_ensures(lifecycle::posture_failure, (posture, app, windows), failure),
    ensures
        failure is None <==> posture.held,
        failure is Some && (posture.frontmost_changed || posture.key_window_changed
            || posture.physical_cursor_moved || posture.restored_after_violation)
            ==> failure->0.code == ErrorCode::PostureViolated && !failure->0.retryable,
        failure is Some && !posture.frontmost_changed && !posture.key_window_changed
            && !posture.physical_cursor_moved && !posture.restored_after_violation
            ==> failure->0.code == ErrorCode::PostureUnverifiable && failure->0.retryable,
{
}

/// The windows are stable once the same ones were seen, in the same order, for as
/// long as the quiet window, and the application has finished launching.
pub proof fn windows_are_stable_after_a_quiet_time(
    stability: &mut LaunchWindowStability,
    windows: &Vec<WindowRef>,
    now: u64,
    finished: bool,
    stable: bool,
)
    requires
        call_ensures(LaunchWindowStability::observe, (stability, windows, now, finished), stable),
    ensures
        stable ==> finished && old(stability).prior() == Some(lifecycle::ids_of(windows@)) && now
            >= old(stability).since() + 100_000_000,
        finished && old(stability).prior() == Some(lifecycle::ids_of(windows@)) && now
            >= old(stability).since() + 100_000_000 ==> stable,
        old(stability).prior() != Some(lifecycle::ids_of(windows@)) ==> final(stability).since()
            == now,
        old(stability).prior() == Some(lifecycle::ids_of(windows@)) ==> final(stability).since()
            == old(stability).since(),
{
}

/// The end of the very application that is awaited ends the launch; that of
/// another does not.
pub proof fn only_its_own_end_ends_a_launch(
    pid: i32,
    event: &WorkspaceEvent,
    failure: Option<NativeError>,
)
    requires
        call_ensures(lifecycle::launch_event_failure, (pid, event), failure),
    ensures
        failure is Some <==> event.kind is Terminated && event.pid == pid,
        failure is Some ==> failure->0.code == ErrorCode::AppLaunchFailed,
{
}

/// A launch goes on through ticks and lost events, and ends where the stream is
/// closed or time is up.
pub proof fn a_launch_waits_through_ticks(
    pid: i32,
    waiting: LaunchWaitKind,
    wake: &LaunchWake,
    failure: Option<NativeError>,
)
    requires
        call_ensures(lifecycle::launch_wake_failure, (pid, waiting, wake), failure),
    ensures
        wake is Tick || wake is Lagged ==> failure is None,
        wake is Closed || wake is DeadlineElapsed ==> failure is Some,
        *wake matches LaunchWake::Event(event) ==> (failure is Some <==> event.kind is Terminated
            && event.pid == pid),
        failure is Some ==> failure->0.code == ErrorCode::AppLaunchFailed && failure->0.phase
            == ErrorPhase::Settle && failure->0.retryable,
{
}

/// An application has registered once it runs in the expected generation, has
/// finished launching and is the one that was asked for.
pub proof fn an_application_registers_as_itself(
    pid: i32,
    generation: u64,
    resolved: &ResolvedLaunch,
    sighting: Option<&RunningApplicationInfo>,
    now: u64,
    deadline: u64,
    step: RegistrationStep,
    comparison: Option<bool>,
)
    requires
        call_ensures(
            lifecycle::wait_for_registered_application,
            (pid, generation, resolved, sighting, now, deadline),
            step,
        ),
        sighting is Some ==> call_ensures(
            ResolvedLaunch::compares_to,
            (resolved, sighting->0),
            comparison,
        ),
    ensures
        step is Registered <==> sighting is Some && comparison == Some(true)
            && sighting->0.process_generation == Some(generation) && sighting->0.finished_launching,
        step is Wait ==> now < deadline,
        sighting is None && now < deadline ==> step is Wait,
        sighting is None && now >= deadline ==> step is Failed,
        sighting is Some && comparison == Some(false) ==> step is Failed,
        sighting is Some && sighting->0.process_generation is Some
            && sighting->0.process_generation->0 != generation ==> step is Failed,
{
}

/// A launched process is alive while it runs in its generation.
pub proof fn a_process_lives_in_its_generation(
    pid: i32,
    generation: u64,
    sighting: Option<&RunningApplicationInfo>,
    outcome: Result<(), NativeError>,
)
    requires
        call_ensures(lifecycle::launched_process_alive, (pid, generation, sighting), outcome),
    ensures
        outcome is Ok <==> sighting is Some && sighting->0.process_generation == Some(generation),
{
}

/// A launch has twelve seconds.
pub proof fn a_launch_has_twelve_seconds(started: u64, deadline: u64)
    requires
        call_ensures(lifecycle::launch_deadline, (started,), deadline),
        started <= u64::MAX - 12_000_000_000,
    ensures
        deadline - started == 12_000_000_000,
{
}

/// A launch succeeds exactly where it reached its stable windows and the posture
/// was kept. It hands out those windows, and says whether the application ran
/// before.
pub proof fn a_launch_succeeds_where_nothing_failed(
    run: LaunchRun,
    posture: PostureResult,
    native_evidence: Fields,
    now: u64,
    scope: &mut LaunchPostureScope,
    outcome: Result<NativeLaunch, Vec<NativeError>>,
)
    requires
        call_ensures(LaunchRun::finish, (run, posture, native_evidence, now, scope), outcome),
        run.wf(),
        run.stage is Done,
    ensures
        outcome is Ok <==> run.stable is Some && posture.held,
        outcome is Ok ==> {
            &&& outcome->Ok_0.app@ == run.app->0@
            &&& lifecycle::windows_view(outcome->Ok_0.windows@) == lifecycle::windows_view(
                run.stable->0.windows@,
            )
            &&& outcome->Ok_0.reused_running_app == run.reused
            &&& outcome->Ok_0.posture == posture
            &&& outcome->Ok_0.settlement.observed_signals@.contains(
                SettlementSignal::DispatchComplete,
            ) <==> run.mode is Dispatch
            &&& outcome->Ok_0.settlement.observed_signals@.contains(
                SettlementSignal::WindowListChanged,
            ) <==> run.stable->0.window_list_changed
        },
        run.failure is None ==> final(scope)@.pending_settlement is None,
        run.failure is Some ==> final(scope)@.pending_settlement
            == old(scope)@.pending_settlement,
        final(scope)@.posture == Some(posture),
{
    if outcome is Ok {
        let signals = outcome->Ok_0.settlement.observed_signals@;
        if run.mode is Dispatch {
            assert(signals[0] == SettlementSignal::DispatchComplete);
        }
        if run.stable->0.window_list_changed {
            assert(signals.last() == SettlementSignal::WindowListChanged);
        }
    }
}

/// A launch that failed before it could settle says why it did.
pub proof fn a_failed_launch_keeps_its_failure(
    run: LaunchRun,
    posture: PostureResult,
    native_evidence: Fields,
    now: u64,
    scope: &mut LaunchPostureScope,
    outcome: Result<NativeLaunch, Vec<NativeError>>,
)
    requires
        call_ensures(LaunchRun::finish, (run, posture, native_evidence, now, scope), outcome),
        run.wf(),
        run.stage is Done,
        run.failure is Some,
    ensures
        outcome is Err,
        outcome->Err_0@.len() == if posture.held {
            1int
        } else {
            2int
        },
        outcome->Err_0@[0]@ == run.failure->0@,
{
    let views = outcome->Err_0@.map_values(|error: NativeError| error@);
    assert(views.len() == outcome->Err_0@.len());
    assert(views[0] == run.failure->0@);
}

/// A launch that was dispatched goes on with the process that it was given, in the
/// generation that it was given.
pub proof fn a_launch_follows_its_own_process(
    run: &mut LaunchRun,
    next: &mut LaunchRun,
    pid: i32,
    generation: u64,
)
    requires
        call_ensures(LaunchRun::dispatched, (run, Ok::<i32, String>(pid)), ()),
        call_ensures(LaunchRun::generation, (next, Some(generation)), ()),
        old(next).stage == (LaunchStage::Generation { pid }),
    ensures
        final(run).stage == (LaunchStage::Narrowing { pid }),
        final(next).stage == (LaunchStage::Registration { pid, generation }),
        final(run).failure == old(run).failure,
        final(next).failure == old(next).failure,
{
}

/// A dispatch that was refused, and a process without a generation, fail the
/// launch.
pub proof fn a_refused_dispatch_fails_the_launch(
    run: &mut LaunchRun,
    next: &mut LaunchRun,
    message: String,
)
    requires
        call_ensures(LaunchRun::dispatched, (run, Err::<i32, String>(message)), ()),
        call_ensures(LaunchRun::generation, (next, None), ()),
    ensures
        final(run).stage is Done && final(run).failure is Some,
        final(run).failure->0.message@ == message@,
        final(run).failure->0.code == ErrorCode::AppLaunchFailed,
        final(next).stage is Done && final(next).failure is Some,
{
}

/// An application that registered is the one that counts as launched; it counts as
/// reused exactly where the very process ran before.
pub proof fn a_registered_application_is_the_launched_one(
    run: &mut LaunchRun,
    application: &RunningApplicationInfo,
    now: u64,
    scope: &mut LaunchPostureScope,
)
    requires
        call_ensures(LaunchRun::registered_as, (run, application, now, scope), ()),
        old(run).stage is Registration,
    ensures
        final(run).stage == (LaunchStage::Windows {
            pid: old(run).stage->Registration_pid,
            generation: old(run).stage->Registration_generation,
        }),
        final(run).app is Some && final(run).app->0@ == lifecycle::running_app(application@),
        final(scope)@.partial_app == Some(lifecycle::running_app(application@)),
        final(run).reused <==> old(run).preexisting is Some && old(run).preexisting->0.pid
            == application.pid && application.process_generation is Some
            && old(run).preexisting->0.process_generation == application.process_generation,
{
}

/// Windows that are seen end the launch once they are stable, and are those that it
/// hands out.
pub proof fn the_windows_seen_last_are_the_launched_ones(
    run: &mut LaunchRun,
    windows: Vec<WindowRef>,
    finished: bool,
    now: u64,
    scope: &mut LaunchPostureScope,
)
    requires
        call_ensures(LaunchRun::observe_windows, (run, windows, finished, now, scope), ()),
        old(run).wf(),
        old(run).stage is Windows,
    ensures
        final(run).stage is Done <==> finished && old(run).stability.prior() == Some(
            lifecycle::ids_of(windows@),
        ) && now >= old(run).stability.since() + 100_000_000,
        final(run).stable is Some <==> final(run).stage is Done,
        final(run).stable is Some ==> lifecycle::windows_view(final(run).stable->0.windows@)
            == lifecycle::windows_view(windows@) && (final(run).stable->0.windows_empty
            <==> windows@.len() == 0),
        final(scope)@.partial_windows == lifecycle::windows_view(windows@),
        final(run).app == old(run).app && final(run).reused == old(run).reused,
        final(run).failure == old(run).failure,
{
}

/// The clock lets a launch wait until its deadline and then fails it.
pub proof fn the_clock_ends_a_launch(run: &mut LaunchRun, now: u64)
    requires
        call_ensures(LaunchRun::clock, (run, now), ()),
        old(run).wf(),
        old(run).stage is Windows,
        old(run).started <= u64::MAX - 12_000_000_000,
    ensures
        final(run).failure is Some <==> now >= old(run).started + 12_000_000_000,
        final(run).failure is None ==> final(run).need is Wake && final(run).stage
            == old(run).stage,
{
}

/// A launch goes on with a process that is alive and fails with one that is not.
pub proof fn a_lost_process_fails_the_launch(
    run: &mut LaunchRun,
    sighting: Option<&RunningApplicationInfo>,
)
    requires
        call_ensures(LaunchRun::process, (run, sighting), ()),
        old(run).wf(),
        old(run).stage is Windows,
    ensures
        final(run).failure is None <==> sighting is Some && sighting->0.process_generation == Some(
            old(run).stage->Windows_generation,
        ),
        final(run).failure is None ==> final(run).need == (LaunchNeed::Windows {
            finished_launching: sighting->0.finished_launching,
        }),
{
}

/// A launch may begin exactly where its witness does; only then has it had an
/// effect.
pub proof fn nothing_is_launched_without_a_witness(
    scope: &mut LaunchPostureScope,
    witness: Result<(), NativeError>,
    outcome: Result<(), NativeError>,
)
    requires
        call_ensures(lifecycle::begin_launch_after_witness, (scope, witness), outcome),
        !old(scope)@.side_effect_started,
    ensures
        outcome is Ok <==> witness is Ok,
        final(scope)@.side_effect_started <==> witness is Ok,
        outcome is Err ==> final(scope)@ == old(scope)@,
{
}

/// What a launch has reached so far is what is kept of it.
pub proof fn a_partial_launch_is_kept(
    scope: &mut LaunchPostureScope,
    app: &AppRef,
    windows: &Vec<WindowRef>,
)
    requires
        call_ensures(LaunchPostureScope::record_partial_result, (scope, app, windows), ()),
    ensures
        final(scope)@.partial_app == Some(app@),
        final(scope)@.partial_windows == lifecycle::windows_view(windows@),
        final(scope)@.side_effect_started == old(scope)@.side_effect_started,
        final(scope)@.posture == old(scope)@.posture,
{
}

/// A settled launch tells the windows from none at all.
pub proof fn a_settled_launch_says_how_it_ended(
    profile: &'static str,
    started: u64,
    now: u64,
    dispatched: bool,
    changed: bool,
    empty: bool,
    settlement: LaunchSettlement,
)
    requires
        call_ensures(
            lifecycle::launch_settlement,
            (profile, started, now, dispatched, changed, empty),
            settlement,
        ),
    ensures
        settlement.terminal_signal@ == "stable_window_set"@ <==> !empty,
        settlement.terminal_signal@ == "application_finished_without_windows"@ <==> empty,
        settlement.observed_signals@.contains(SettlementSignal::DispatchComplete) <==> dispatched,
        settlement.observed_signals@.contains(SettlementSignal::WindowListChanged) <==> changed,
{
    reveal_strlit("stable_window_set");
    reveal_strlit("application_finished_without_windows");
    assert("stable_window_set"@.len() == 17);
    assert("application_finished_without_windows"@.len() == 36);
    let signals = settlement.observed_signals@;
    if dispatched {
        assert(signals[0] == SettlementSignal::DispatchComplete);
    }
    if changed {
        assert(signals.last() == SettlementSignal::WindowListChanged);
    }
}

/// The driver is ready exactly where it may look, may record, and has everything
/// that it calls.
pub proof fn the_driver_is_ready_with_everything(facts: &SystemFacts, readiness: Readiness)
    requires
        call_ensures(lifecycle::readiness_snapshot, (facts,), readiness),
    ensures
        readiness.ready ==> facts.accessibility && facts.screen_live && facts.targeted_events
            && facts.slps_make_key && facts.space_query,
        facts.accessibility && facts.screen_live && facts.targeted_events && facts.slps_make_key
            && facts.space_query ==> readiness.ready,
        readiness.accessibility is Granted <==> facts.accessibility,
        readiness.screen_recording is Granted <==> facts.screen_live,
{
}

/// The manifest says what was granted, for which driver and which protocol.
pub proof fn a_manifest_says_what_was_granted(
    readiness: &Readiness,
    driver: &str,
    major: u32,
    minor: u32,
    manifest: CapabilityManifest,
)
    requires
        call_ensures(lifecycle::capability_manifest, (readiness, driver, major, minor), manifest),
    ensures
        manifest.accessibility <==> readiness.accessibility is Granted,
        manifest.screen_recording <==> readiness.screen_recording is Granted,
        manifest.driver_version@ == driver@,
        manifest.platform is Macos,
        manifest.protocol_version@ == text::decimal(major as nat) + "."@ + text::decimal(
            minor as nat,
        ),
{
    reveal_strlit(".");
    assert("."@ =~= seq!['.']);
}

/// Nothing is launched without the permission to look.
pub proof fn a_launch_needs_accessibility(granted: bool, outcome: Result<(), NativeError>)
    requires
        call_ensures(lifecycle::launch_permission, (granted,), outcome),
    ensures
        outcome is Ok <==> granted,
        outcome is Err ==> outcome->Err_0.code == ErrorCode::PermissionDenied,
{
}

/// Window sets are compared without regard to order.
pub proof fn window_sets_have_no_order(
    left: &Vec<WindowRef>,
    right: &Vec<WindowRef>,
    same: bool,
    id: Seq<char>,
)
    requires
        call_ensures(lifecycle::same_window_set, (left, right), same),
    ensures
        same ==> lifecycle::ids_of(left@).to_multiset().count(id) == lifecycle::ids_of(
            right@,
        ).to_multiset().count(id),
        same ==> left@.len() == right@.len(),
        lifecycle::ids_of(left@) == lifecycle::ids_of(right@) ==> same,
{
    broadcast use vstd::seq_lib::group_to_multiset_ensures;

    assert(lifecycle::ids_of(left@).to_multiset().len() == lifecycle::ids_of(left@).len());
    assert(lifecycle::ids_of(right@).to_multiset().len() == lifecycle::ids_of(right@).len());
    assert(lifecycle::ids_of(left@).len() == left@.len());
    assert(lifecycle::ids_of(right@).len() == right@.len());
}

} // verus!
