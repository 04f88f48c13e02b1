use platform_macos::driver::lifecycle::{
    app_id, app_ref_for_running, begin_launch_after_witness, find_preexisting, join_error, launch_deadline,
    launch_event_failure, launch_permission, launch_settlement, launch_wake_failure, launched_process_alive,
    capability_manifest, list_apps_native, posture_failure, protocol_version, readiness_snapshot,
    resolve_launch, resolve_launch_with_catalog, resolve_running_name, reusable_existing_launch,
    same_process_identity, same_window_set, wait_for_registered_application, window_ids, AppQuery,
    AppRef, AppSelector, CatalogFacts, InstalledApp, LaunchNeed, LaunchPostureScope, LaunchRun, LaunchStage,
    LaunchWaitKind, LaunchWake, LaunchWindowStability, PermissionState, RegistrationStep,
    ResolvedLaunch, RunningApplicationInfo, SystemFacts, WindowRef, WINDOW_QUIET_WINDOW_NS,
};
use platform_macos::contracts::SettlementSignal;
use platform_macos::driver::posture::PostureResult;
use platform_macos::driver::target::{WorkspaceEvent, WorkspaceEventKind};
use platform_macos::errors::{ErrorCode, ErrorPhase, NativeError};
use platform_macos::evidence::{Detail, Entry, Fields, Scalar};

const MS: u64 = 1_000_000;

fn catalog(selector: &AppSelector) -> CatalogFacts {
    let mut facts = CatalogFacts {
        bundle_exists: false,
        located: None,
        canonical_path: None,
        path_bundle_id: None,
    };
    match selector {
        AppSelector::BundleId { bundle_id } => {
            facts.bundle_exists = bundle_id == "com.example.fixture";
        }
        AppSelector::Name { name } => {
            if name == "Fixture" {
                facts.located = Some((
                    "/Applications/Fixture.app".to_owned(),
                    Some("com.example.fixture".to_owned()),
                ));
            }
        }
        AppSelector::Executable { path, .. } => {
            facts.canonical_path = Some(path.clone());
            facts.path_bundle_id = Some("com.example.executable".to_owned());
        }
    }
    facts
}

fn resolve(selector: AppSelector) -> Result<ResolvedLaunch, NativeError> {
    let facts = catalog(&selector);
    resolve_launch_with_catalog(selector, facts)
}

fn running_fixture() -> RunningApplicationInfo {
    RunningApplicationInfo {
        pid: 120,
        name: Some("Fixture".to_owned()),
        bundle_id: Some("com.example.fixture".to_owned()),
        executable_path: Some("/Applications/Fixture.app/Contents/MacOS/fixture".to_owned()),
        process_generation: Some(7),
        active: false,
        hidden: false,
        finished_launching: true,
        regular: true,
    }
}

fn window(id: &str) -> WindowRef {
    WindowRef {
        id: id.to_owned(),
        app: AppRef {
            id: "macos:bundle:com.example.fixture".to_owned(),
            name: Some("Fixture".to_owned()),
            pid: Some(120),
            running: true,
        },
        title: None,
    }
}

fn launch() -> ResolvedLaunch {
    ResolvedLaunch {
        app_ref: "com.example.fixture".to_owned(),
        bundle_id: Some("com.example.fixture".to_owned()),
        executable_path: None,
        name: None,
        arguments: Vec::new(),
    }
}

#[test]
fn all_launch_selector_shapes_preserve_native_dispatch_inputs() {
    let bundle = resolve(AppSelector::BundleId {
        bundle_id: "com.example.fixture".to_owned(),
    })
    .unwrap();
    assert_eq!(bundle.app_ref, "com.example.fixture");
    assert_eq!(bundle.bundle_id.as_deref(), Some("com.example.fixture"));

    let named = resolve(AppSelector::Name {
        name: "Fixture".to_owned(),
    })
    .unwrap();
    assert_eq!(named.app_ref, "/Applications/Fixture.app");
    assert_eq!(named.name.as_deref(), Some("Fixture"));

    let bundle_path = "/tmp/selector/Executable.app";
    let executable = resolve(AppSelector::Executable {
        path: bundle_path.to_owned(),
        arguments: vec!["--fixture".to_owned()],
    })
    .unwrap();
    assert_eq!(executable.arguments, vec!["--fixture"]);
    assert_eq!(
        executable.bundle_id.as_deref(),
        Some("com.example.executable")
    );
    assert_eq!(executable.executable_path.as_deref(), Some(bundle_path));
    assert_eq!(executable.app_ref, bundle_path);
}

#[test]
fn an_executable_inside_a_bundle_names_the_bundle() {
    let inner = "/Applications/Tool.app/Contents/MacOS/tool";
    let executable = resolve(AppSelector::Executable {
        path: inner.to_owned(),
        arguments: Vec::new(),
    })
    .unwrap();
    assert_eq!(executable.app_ref, "/Applications/Tool.app");
    assert_eq!(executable.executable_path.as_deref(), Some(inner));
    let error = resolve(AppSelector::Executable {
        path: "/usr/bin/true".to_owned(),
        arguments: Vec::new(),
    })
    .unwrap_err();
    assert_eq!(error.code, ErrorCode::InvalidRequest);
}

#[test]
fn malformed_and_unresolvable_selectors_fail_before_launch() {
    for selector in [
        AppSelector::BundleId {
            bundle_id: " ".to_owned(),
        },
        AppSelector::Name {
            name: "".to_owned(),
        },
        AppSelector::Executable {
            path: " ".to_owned(),
            arguments: Vec::new(),
        },
    ] {
        let error = resolve(selector).unwrap_err();
        assert_eq!(error.code, ErrorCode::InvalidRequest);
        assert_eq!(error.phase, ErrorPhase::Validate);
    }

    let error = resolve(AppSelector::BundleId {
        bundle_id: "com.example.missing".to_owned(),
    })
    .unwrap_err();
    assert_eq!(error.code, ErrorCode::AppNotFound);
}

#[test]
fn reuse_is_exact_and_executable_arguments_force_a_launch_dispatch() {
    let application = running_fixture();
    let mut resolved = launch();
    assert!(reusable_existing_launch(&resolved, Some(&application)));

    resolved.arguments.push("--new-document".to_owned());
    assert!(!reusable_existing_launch(&resolved, Some(&application)));
    resolved.arguments.clear();
    resolved.bundle_id = Some("com.example.other".to_owned());
    assert!(!reusable_existing_launch(&resolved, Some(&application)));

    let mut generation_unknown = running_fixture();
    generation_unknown.process_generation = None;
    resolved.bundle_id = Some("com.example.fixture".to_owned());
    assert!(!reusable_existing_launch(
        &resolved,
        Some(&generation_unknown)
    ));
}

#[test]
fn reused_running_app_requires_the_returned_exact_process_identity() {
    let prior = running_fixture();
    let mut same = prior.clone();
    assert!(same_process_identity(&prior, &same));

    same.process_generation = Some(8);
    assert!(!same_process_identity(&prior, &same));
    same.process_generation = Some(7);
    same.pid = 121;
    assert!(!same_process_identity(&prior, &same));
}

#[test]
fn running_name_resolution_handles_core_services_and_rejects_ambiguity() {
    let mut finder = running_fixture();
    finder.name = Some("Finder".to_owned());
    finder.bundle_id = Some("com.apple.finder".to_owned());
    finder.executable_path =
        Some("/System/Library/CoreServices/Finder.app/Contents/MacOS/Finder".to_owned());
    let resolved = resolve_running_name("finder", &vec![finder.clone()])
        .unwrap()
        .unwrap();
    assert_eq!(resolved.app_ref, "com.apple.finder");
    assert_eq!(resolved.bundle_id.as_deref(), Some("com.apple.finder"));

    let mut duplicate = finder.clone();
    duplicate.pid += 1;
    duplicate.process_generation = Some(8);
    let error = resolve_running_name("Finder", &vec![finder, duplicate]).unwrap_err();
    assert_eq!(error.code, ErrorCode::InvalidRequest);
    assert_eq!(error.phase, ErrorPhase::Validate);
    assert!(resolve_running_name("Nobody", &vec![running_fixture()])
        .unwrap()
        .is_none());
}

#[test]
fn cold_launch_waits_for_registry_publication_and_finished_state() {
    let resolved = launch();
    let deadline = 250 * MS;
    let mut lookups = 0;
    let application = loop {
        lookups += 1;
        let sighting = match lookups {
            1 => None,
            2 => {
                let mut application = running_fixture();
                application.bundle_id = None;
                application.finished_launching = false;
                Some(application)
            }
            _ => Some(running_fixture()),
        };
        match wait_for_registered_application(
            120,
            7,
            &resolved,
            sighting.as_ref(),
            lookups * MS,
            deadline,
        ) {
            RegistrationStep::Registered => break sighting.unwrap(),
            RegistrationStep::Wait => {}
            RegistrationStep::Failed(error) => panic!("{}", error.message),
        }
    };
    assert_eq!(lookups, 3);
    assert!(application.finished_launching);
    assert_eq!(application.process_generation, Some(7));
}

#[test]
fn registration_refuses_another_process_and_the_deadline() {
    let resolved = launch();
    let mut reborn = running_fixture();
    reborn.process_generation = Some(8);
    assert!(matches!(
        wait_for_registered_application(120, 7, &resolved, Some(&reborn), 1, 10),
        RegistrationStep::Failed(_)
    ));
    assert!(matches!(
        wait_for_registered_application(120, 7, &resolved, None, 10, 10),
        RegistrationStep::Failed(_)
    ));
    assert!(launched_process_alive(120, 7, Some(&running_fixture())).is_ok());
    assert!(launched_process_alive(120, 8, Some(&running_fixture())).is_err());
    assert!(launched_process_alive(120, 7, None).is_err());
}

#[test]
fn settlement_reports_only_signals_that_were_observed() {
    let started = 5;
    let empty_dispatch =
        launch_settlement("macos_background_launch", started, started, true, false, true);
    assert_eq!(
        empty_dispatch.observed_signals,
        vec![SettlementSignal::DispatchComplete]
    );

    let reused = launch_settlement("macos_launch_reuse", started, started, false, false, false);
    assert!(reused.observed_signals.is_empty());
    assert_eq!(
        window_ids(&vec![window("one"), window("two")]),
        window_ids(&vec![window("two"), window("one")])
    );
    assert!(same_window_set(
        &vec![window("one"), window("two")],
        &vec![window("two"), window("one")]
    ));
}

#[test]
fn settlement_quiet_window_restarts_for_each_window_set_change() {
    let start = 1_000 * MS;
    let mut tracker = LaunchWindowStability::new(start);
    assert!(!tracker.observe(&vec![], start, true));
    assert!(!tracker.observe(&vec![window("one")], start + 80 * MS, true));
    assert!(!tracker.observe(&vec![window("one"), window("two")], start + 160 * MS, true));
    assert!(!tracker.observe(&vec![window("one"), window("two")], start + 259 * MS, true));
    assert!(tracker.observe(&vec![window("one"), window("two")], start + 260 * MS, true));
}

#[test]
fn finished_app_with_no_windows_is_a_stable_success_shape() {
    let start = 1_000 * MS;
    let mut tracker = LaunchWindowStability::new(start);
    assert!(!tracker.observe(&vec![], start, true));
    assert!(tracker.observe(&vec![], start + WINDOW_QUIET_WINDOW_NS, true));
}

#[test]
fn only_target_termination_aborts_launch_settlement() {
    let unrelated = WorkspaceEvent {
        kind: WorkspaceEventKind::Terminated,
        pid: 121,
        bundle_id: Some("com.example.other".to_owned()),
        process_generation: Some(8),
    };
    assert!(launch_event_failure(120, &unrelated).is_none());

    let target = WorkspaceEvent {
        pid: 120,
        ..unrelated
    };
    let error = launch_event_failure(120, &target).unwrap();
    assert_eq!(error.code, ErrorCode::AppLaunchFailed);
    assert_eq!(error.phase, ErrorPhase::Settle);
    assert!(launch_wake_failure(120, LaunchWaitKind::Registration, &LaunchWake::Tick).is_none());
    assert!(launch_wake_failure(120, LaunchWaitKind::Registration, &LaunchWake::Lagged).is_none());
    assert!(launch_wake_failure(120, LaunchWaitKind::StableWindows, &LaunchWake::Closed).is_some());
    assert!(
        launch_wake_failure(120, LaunchWaitKind::Registration, &LaunchWake::DeadlineElapsed)
            .is_some()
    );
}

fn posture(held: bool, frontmost_changed: bool) -> PostureResult {
    PostureResult {
        held,
        frontmost_changed,
        key_window_changed: false,
        physical_cursor_moved: false,
        restored_after_violation: frontmost_changed,
    }
}

#[test]
fn launch_posture_distinguishes_unverifiable_witness_from_observed_excursion() {
    let unverifiable = posture_failure(posture(false, false), &None, &Vec::new()).unwrap();
    assert_eq!(unverifiable.code, ErrorCode::PostureUnverifiable);

    let violated = posture_failure(posture(false, true), &None, &Vec::new()).unwrap();
    assert_eq!(violated.code, ErrorCode::PostureViolated);
    assert!(posture_failure(posture(true, false), &None, &Vec::new()).is_none());
}

#[test]
fn failed_witness_acquisition_refuses_before_launch_side_effect_is_marked() {
    let mut scope = LaunchPostureScope::for_action(Some("action".to_owned()));
    let error = begin_launch_after_witness(
        &mut scope,
        Err(NativeError::new(
            ErrorCode::PostureUnverifiable,
            ErrorPhase::Preflight,
            true,
            "injected witness acquisition failure",
        )),
    )
    .unwrap_err();
    assert_eq!(error.code, ErrorCode::PostureUnverifiable);
    assert!(!scope.side_effect_started);
}

#[test]
fn a_dispatched_launch_ends_with_its_windows() {
    let mut scope = LaunchPostureScope::for_action(Some("action".to_owned()));
    begin_launch_after_witness(&mut scope, Ok(())).unwrap();
    assert!(scope.side_effect_started);
    let mut run = LaunchRun::dispatch("action", launch(), None, Vec::new(), 0, 0, &mut scope);
    run.dispatched(Ok(120));
    assert_eq!(run.stage, LaunchStage::Narrowing { pid: 120 });
    run.narrowed(Ok(()), MS, &mut scope);
    assert_eq!(run.stage, LaunchStage::Generation { pid: 120 });
    run.generation(Some(7));
    assert_eq!(
        run.stage,
        LaunchStage::Registration {
            pid: 120,
            generation: 7
        }
    );
    let mut unfinished = running_fixture();
    unfinished.finished_launching = false;
    run.sighted(Some(&unfinished), MS, &mut scope);
    assert_eq!(run.need, LaunchNeed::Wake);
    run.woken(&LaunchWake::Lagged);
    assert_eq!(run.need, LaunchNeed::Look);
    assert!(scope.partial_app.is_none());
    run.sighted(Some(&running_fixture()), 2 * MS, &mut scope);
    assert!(scope.partial_app.is_some());
    for now in [3 * MS, 103 * MS] {
        assert_eq!(
            run.stage,
            LaunchStage::Windows {
                pid: 120,
                generation: 7
            }
        );
        run.clock(now);
        assert_eq!(run.need, LaunchNeed::Wake);
        run.woken(&LaunchWake::Tick);
        assert_eq!(run.need, LaunchNeed::Process);
        run.process(Some(&running_fixture()));
        assert_eq!(
            run.need,
            LaunchNeed::Windows {
                finished_launching: true
            }
        );
        run.listed(Ok(vec![window("one")]), now, &mut scope);
    }
    assert_eq!(run.stage, LaunchStage::Done);
    let launched = run
        .finish(posture(true, false), Fields::new(), 104 * MS, &mut scope)
        .unwrap();
    assert_eq!(launched.windows.len(), 1);
    assert!(!launched.reused_running_app);
    assert_eq!(launched.app.id, "macos:process:120:0000000000000007");
    assert_eq!(launched.settlement.elapsed_ms, 104);
    assert_eq!(launched.settlement.quiet_window_ms, 100);
    assert!(launched
        .settlement
        .observed_signals
        .contains(&SettlementSignal::WindowListChanged));
}

#[test]
fn a_launch_is_given_up_where_it_cannot_settle() {
    let registering = || {
        let mut scope = LaunchPostureScope::for_action(Some("action".to_owned()));
        begin_launch_after_witness(&mut scope, Ok(())).unwrap();
        let mut run = LaunchRun::dispatch("action", launch(), None, Vec::new(), 0, 0, &mut scope);
        run.dispatched(Ok(120));
        run.narrowed(Ok(()), MS, &mut scope);
        run.generation(Some(7));
        (run, scope)
    };
    let settling = || {
        let (mut run, mut scope) = registering();
        run.sighted(Some(&running_fixture()), MS, &mut scope);
        (run, scope)
    };
    let message = |run: LaunchRun| {
        assert_eq!(run.stage, LaunchStage::Done);
        run.failure.unwrap().message
    };
    let (mut late, mut scope) = registering();
    late.sighted(None, launch_deadline(0), &mut scope);
    assert_eq!(
        message(late),
        "launched app did not register and finish launching before its deadline"
    );
    let (mut other, mut scope) = registering();
    let mut stranger = running_fixture();
    stranger.process_generation = Some(8);
    other.sighted(Some(&stranger), MS, &mut scope);
    assert_eq!(
        message(other),
        "launched process identity changed before registration completed"
    );
    let (mut restless, _) = settling();
    restless.clock(launch_deadline(0));
    assert_eq!(
        message(restless),
        "app launch did not reach a stable window set before its deadline"
    );
    let (mut deaf, _) = settling();
    deaf.clock(MS);
    deaf.woken(&LaunchWake::Closed);
    assert_eq!(
        message(deaf),
        "workspace lifecycle event stream closed during launch"
    );
    let (mut gone, _) = settling();
    gone.clock(MS);
    gone.woken(&LaunchWake::Tick);
    gone.process(None);
    assert_eq!(
        message(gone),
        "app disappeared before launch settlement completed"
    );
    let (mut blind, mut scope) = settling();
    blind.clock(MS);
    blind.woken(&LaunchWake::Tick);
    blind.process(Some(&running_fixture()));
    blind.listed(
        Err(NativeError::unsupported("no windows")),
        2 * MS,
        &mut scope,
    );
    assert_eq!(message(blind), "no windows");
    assert_eq!(launch_deadline(u64::MAX), u64::MAX);
}

#[test]
fn a_launch_without_its_posture_fails() {
    let mut scope = LaunchPostureScope::for_action(Some("action".to_owned()));
    begin_launch_after_witness(&mut scope, Ok(())).unwrap();
    let mut run = LaunchRun::dispatch("action", launch(), None, Vec::new(), 0, 0, &mut scope);
    run.dispatched(Err("refused".to_owned()));
    assert_eq!(run.stage, LaunchStage::Done);
    let failures = run
        .finish(posture(false, true), Fields::new(), MS, &mut scope)
        .unwrap_err();
    assert_eq!(failures.len(), 2);
    assert!(failures
        .iter()
        .any(|error| error.code == ErrorCode::AppLaunchFailed));
    assert!(failures
        .iter()
        .any(|error| error.code == ErrorCode::PostureViolated));
}

#[test]
fn applications_are_listed_in_order_and_filtered_without_case() {
    let mut second = running_fixture();
    second.pid = 121;
    second.name = Some("Alpha".to_owned());
    second.bundle_id = Some("com.example.alpha".to_owned());
    let installed = vec![
        InstalledApp {
            name: "Fixture".to_owned(),
            bundle_id: Some("com.example.fixture".to_owned()),
            launch_path: None,
        },
        InstalledApp {
            name: "Zulu".to_owned(),
            bundle_id: Some("com.example.zulu".to_owned()),
            launch_path: None,
        },
    ];
    let all = AppQuery {
        running: None,
        name_contains: None,
    };
    let running = vec![running_fixture(), second];
    let apps = list_apps_native(&running, &installed, &all);
    let names: Vec<_> = apps.iter().map(|app| app.name.clone().unwrap()).collect();
    assert_eq!(names, vec!["Alpha", "Fixture", "Zulu"]);
    let wanted = AppQuery {
        running: None,
        name_contains: Some("FIX".to_owned()),
    };
    let apps = list_apps_native(&running, &installed, &wanted);
    assert_eq!(apps.len(), 1);
    assert_eq!(apps[0].name.as_deref(), Some("Fixture"));
    let stopped = AppQuery {
        running: Some(false),
        name_contains: None,
    };
    let apps = list_apps_native(&running, &installed, &stopped);
    assert_eq!(apps.len(), 1);
    assert_eq!(apps[0].name.as_deref(), Some("Zulu"));
}

#[test]
fn application_ids_prefer_the_process_then_the_bundle() {
    let bundle = Some("com.example.fixture".to_owned());
    let path = Some("/opt/tool".to_owned());
    assert_eq!(
        app_id(&bundle, &path, Some((120, 7))),
        "macos:process:120:0000000000000007"
    );
    assert_eq!(
        app_id(&bundle, &path, None),
        "macos:bundle:com.example.fixture"
    );
    assert_eq!(app_id(&None, &path, None), "macos:executable:/opt/tool");
    assert_eq!(app_id(&None, &None, None), "macos:unknown");
    let app = app_ref_for_running(&running_fixture());
    assert_eq!(app.pid, Some(120));
    assert!(app.running);
    assert_eq!(find_preexisting(&launch(), &vec![running_fixture()]), Some(0));
}

#[test]
fn readiness_needs_both_permissions() {
    let facts = |accessibility, screen| SystemFacts {
        accessibility,
        screen_preflight: screen,
        screen_live: screen,
        targeted_events: true,
        slps_make_key: true,
        space_query: true,
        os_version: "26.5.1".to_owned(),
    };
    let ready = readiness_snapshot(&facts(true, true));
    assert!(ready.ready);
    assert_eq!(ready.accessibility, PermissionState::Granted);
    let blind = readiness_snapshot(&facts(true, false));
    assert!(!blind.ready);
    assert_eq!(blind.screen_recording, PermissionState::Denied);
    assert!(launch_permission(true).is_ok());
    assert_eq!(
        launch_permission(false).unwrap_err().code,
        ErrorCode::PermissionDenied
    );
    assert_eq!(protocol_version(1, 20), "1.20");
    let manifest = capability_manifest(&blind, "0.4.1", 2, 0);
    assert_eq!(manifest.driver_version, "0.4.1");
    assert_eq!(manifest.protocol_version, "2.0");
    assert!(manifest.accessibility && !manifest.screen_recording);
    assert!(manifest.cells.is_empty());
}

#[test]
fn a_running_name_comes_before_the_catalog() {
    let mut finder = running_fixture();
    finder.name = Some("Fixture".to_owned());
    finder.bundle_id = Some("com.example.running".to_owned());
    let named = || AppSelector::Name {
        name: "Fixture".to_owned(),
    };
    let running = resolve_launch(named(), &vec![finder], catalog(&named())).unwrap();
    assert_eq!(running.app_ref, "com.example.running");
    let located = resolve_launch(named(), &Vec::new(), catalog(&named())).unwrap();
    assert_eq!(located.app_ref, "/Applications/Fixture.app");
    let blank = AppSelector::Name {
        name: " ".to_owned(),
    };
    let facts = catalog(&blank);
    assert_eq!(
        resolve_launch(blank, &Vec::new(), facts)
            .unwrap_err()
            .message,
        "app name cannot be empty"
    );
}

#[test]
fn a_posture_failure_names_what_was_launched() {
    let app = AppRef {
        id: "com.example.app".to_owned(),
        name: None,
        pid: Some(41),
        running: true,
    };
    let window = WindowRef {
        id: "w2".to_owned(),
        app: AppRef {
            id: "com.example.app".to_owned(),
            name: None,
            pid: Some(41),
            running: true,
        },
        title: None,
    };
    let error = posture_failure(posture(false, true), &Some(app), &vec![window]).unwrap();
    match error.details.get("windows") {
        Some(Detail::Records(windows)) => {
            assert_eq!(windows.len(), 1);
            assert_eq!(windows[0].len(), 3);
            assert!(matches!(
                &windows[0][0],
                (name, Entry::Plain(Scalar::Text(id))) if name == "id" && id == "w2"
            ));
            match &windows[0][1] {
                (name, Entry::Record(app)) => {
                    assert_eq!(name, "app");
                    assert!(matches!(&app[2], (name, Scalar::Int(41)) if name == "pid"));
                }
                other => panic!("unexpected entry {other:?}"),
            }
            assert!(matches!(
                &windows[0][2],
                (name, Entry::Plain(Scalar::Null)) if name == "title"
            ));
        }
        other => panic!("unexpected detail {other:?}"),
    }
    match error.details.get("app") {
        Some(Detail::Record(entries)) => {
            assert_eq!(entries.len(), 4);
            assert!(matches!(&entries[2], (name, Scalar::Int(41)) if name == "pid"));
        }
        other => panic!("unexpected detail {other:?}"),
    }
    match error.details.get("posture") {
        Some(Detail::Record(entries)) => {
            assert!(matches!(&entries[1], (name, Scalar::Bool(true)) if name == "frontmost_changed"));
        }
        other => panic!("unexpected detail {other:?}"),
    }
}

#[test]
fn a_reused_application_is_pending_since_its_request() {
    let mut scope = LaunchPostureScope::for_action(Some("action".to_owned()));
    let mut run = LaunchRun::reuse(
        "action",
        launch(),
        &running_fixture(),
        7,
        2 * MS,
        32 * MS,
        &mut scope,
    );
    let pending = scope.pending_settlement.as_ref().unwrap();
    assert_eq!(pending.elapsed_ms, 30);
    assert_eq!(pending.profile, "macos_launch_reuse");
    assert_eq!(run.resolved.app_ref, "com.example.fixture");
    assert_eq!(run.preexisting.as_ref().map(|prior| prior.pid), Some(120));
    run.baseline(vec![window("one")], &mut scope);
    run.observe_windows(vec![window("one")], true, 33 * MS, &mut scope);
    assert_eq!(run.started, 2 * MS);
    assert!(run.stable.is_none());
    run.observe_windows(vec![window("one")], true, 133 * MS, &mut scope);
    assert_eq!(run.stage, LaunchStage::Done);
    let launched = run
        .finish(posture(true, false), Fields::new(), 134 * MS, &mut scope)
        .unwrap();
    assert!(launched.reused_running_app);
    assert_eq!(launched.windows.len(), 1);
}

#[test]
fn a_lifecycle_task_that_fails_says_so() {
    let error = join_error("cancelled");
    assert_eq!(error.code, ErrorCode::Internal);
    assert_eq!(error.phase, ErrorPhase::Preflight);
    assert!(error.retryable);
    assert_eq!(error.message, "macOS lifecycle task failed: cancelled");
}
