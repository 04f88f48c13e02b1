use platform_macos::contracts::{
    ActionShape, ClickSpec, Framework, MouseButton, ResolvedWindowStamp, Route, ScopeRequirements,
    WindowStateKind,
};
use platform_macos::driver::focus::{
    acknowledgement_deadline, acknowledgement_pause, architecture_name, awaits_acknowledgement,
    begin_target_focus, select_scope_recipe, AccessibilityRecipe, FocusEvent, FocusStage,
    HostRecipeContext, MacScopeRecipe, MenuSuppressionRecipe, TargetBeliefRecipe, TargetFocusRun,
};
use platform_macos::driver::interaction::{
    acquisition_failures, ensure_actionable_window_state, ensure_facts_unchanged,
    ensure_native_facts_match, ensure_target_live, plan_menu_suppression, AcquireRequest, Lease,
    LeaseDecision, LeaseTeardownStatus, MacInteractionProvider, MacScopeCleanup,
    MenuMutationIntent, ScopeAcquisition, ScopeTarget,
};
use platform_macos::driver::menu::{
    acquire_production, resolve_menu_identity, MenuSuppressionPlan, NativeMenuIdentity,
};
use platform_macos::driver::observation::{BackingScale, MacWindowFacts};
use platform_macos::driver::posture::{
    admit_barriers, admit_cursor_stream, admit_focus_stream, admit_witness, baseline_frontmost,
    focused_window, remaining_until, stream_handshake, CursorPosition, FocusStreamFacts,
    HidReceipt, ObserverControl, PostureProofState, PostureSample, PostureStream, StreamBarriers,
    SuppressionCloseOutcome, WorkspaceReceipt,
};
use platform_macos::driver::snapshot::AxBounds;
use platform_macos::driver::target::{
    arm_menu_suppression, MacFocusState, MacFocusStateRegistry, WorkspaceEventKind,
};
use platform_macos::errors::{ErrorCode, ErrorPhase, NativeError};
use platform_macos::evidence::{Detail, Fields};

fn point_click(button: MouseButton, click_count: u8) -> ActionShape {
    ActionShape::PointClick {
        spec: ClickSpec {
            button,
            click_count,
            modifiers: Vec::new(),
        },
    }
}

fn host() -> HostRecipeContext {
    HostRecipeContext {
        os_version: "26.5.1".to_owned(),
        architecture: "arm64".to_owned(),
    }
}

fn pointer_requirements() -> ScopeRequirements {
    ScopeRequirements {
        accessibility: true,
        menu_dismissal: false,
        target_belief: true,
    }
}

#[test]
fn recipe_selector_uses_exact_host_and_action_facts_not_framework_guessing() {
    let requirements = pointer_requirements();
    for framework in [Framework::Unknown, Framework::Chromium, Framework::Electron] {
        let recipe = select_scope_recipe(
            &host(),
            framework,
            Route::TargetedPointer,
            &point_click(MouseButton::Left, 1),
            requirements,
        )
        .unwrap();
        assert_eq!(
            recipe.target_belief,
            TargetBeliefRecipe::SwiftCoordinateClick
        );
    }
    let catalyst_error = select_scope_recipe(
        &host(),
        Framework::Catalyst,
        Route::TargetedPointer,
        &point_click(MouseButton::Left, 1),
        requirements,
    )
    .unwrap_err();
    assert_eq!(catalyst_error.code, ErrorCode::UnsupportedInBackground);
    let error = select_scope_recipe(
        &host(),
        Framework::Unknown,
        Route::TargetedPointer,
        &point_click(MouseButton::Right, 1),
        requirements,
    )
    .unwrap_err();
    assert_eq!(error.code, ErrorCode::UnsupportedInBackground);
}

#[test]
fn hosts_are_named_as_reported() {
    assert_eq!(architecture_name("aarch64"), "arm64");
    assert_eq!(architecture_name("x86_64"), "x86_64");
    let known = HostRecipeContext::from_reported(Some("26.5.1".to_owned()), "aarch64");
    assert_eq!(known.os_version, "26.5.1");
    assert_eq!(known.architecture, "arm64");
}

#[test]
fn focus_belief_posts_once_and_remains_owned_by_the_target_controller() {
    let mut state = MacFocusState::new(44, 99, None);
    let mut posts = Vec::new();
    let mut frontmost = std::collections::VecDeque::from([Some(false), Some(true)]);
    let mut now = 0;
    for _ in 0..2 {
        let mut run =
            TargetFocusRun::begin(&mut state, 44, 99, false, now + 1_000_000_000).unwrap();
        while run.result.is_none() {
            let event = match run.stage {
                FocusStage::PostKeyFocus => {
                    posts.push(("key_focus_returned", 44));
                    FocusEvent::KeyFocusPosted(Ok(()))
                }
                FocusStage::PostActivation => {
                    posts.push(("app_activated", 44));
                    FocusEvent::ActivationPosted(Ok(1))
                }
                FocusStage::Clock => FocusEvent::Clock { now },
                FocusStage::Acknowledge { .. } | FocusStage::Done => {
                    now += 1;
                    FocusEvent::Looked {
                        believed: frontmost.pop_front().unwrap_or(Some(true)),
                        now,
                    }
                }
            };
            run.advance(&mut state, event);
        }
        run.result.unwrap().unwrap();
    }
    assert!(frontmost.is_empty());

    assert_eq!(posts, [("key_focus_returned", 44), ("app_activated", 44)]);
    assert!(state.application_believes_it_is_active);
    assert!(state.application_believes_it_has_focus);
    assert!(!state.application_is_active);
}

#[test]
fn an_active_application_is_sent_nothing() {
    let mut state = MacFocusState::new(44, 99, Some(44));
    let preparation = begin_target_focus(&mut state, 44, 99, true).unwrap();
    assert!(!preparation.post_key_focus_returned);
    assert!(!preparation.post_app_activated);
    assert!(begin_target_focus(&mut state, 45, 99, true).is_err());
    state.shutdown = true;
    assert_eq!(
        begin_target_focus(&mut state, 44, 99, true)
            .unwrap_err()
            .code,
        ErrorCode::WindowIdentityChanged
    );
    assert!(preparation.finish(0, false).is_err());
    assert_eq!(acknowledgement_deadline(5, 0), 5);
    assert_eq!(acknowledgement_deadline(u64::MAX, 1), 2_000_000_001);
    assert!(awaits_acknowledgement(false, 1, 5));
    assert!(!awaits_acknowledgement(true, 1, 5));
    assert_eq!(acknowledgement_pause(1, 5), 4);
}

struct LoggingHooks {
    log: Vec<&'static str>,
    fail_at: Option<&'static str>,
}

impl LoggingHooks {
    fn acquire(&mut self, name: &'static str) -> Result<(), NativeError> {
        self.log.push(name);
        if self.fail_at == Some(name) {
            Err(NativeError::new(
                ErrorCode::Internal,
                ErrorPhase::Preflight,
                false,
                "injected acquisition failure",
            ))
        } else {
            Ok(())
        }
    }

    fn release_all(&mut self, cleanup: &mut MacScopeCleanup, fail: Option<Lease>) {
        while let Some(lease) = cleanup.next_release() {
            let name = match lease {
                Lease::Accessibility => "ax-",
                Lease::Menu => "menu-",
            };
            self.log.push(name);
            let mut evidence = Fields::new();
            evidence.insert(&format!("{name}_attempted"), Detail::Bool(true));
            let failure = if fail == Some(lease) {
                Some(NativeError::new(
                    ErrorCode::Internal,
                    ErrorPhase::Verify,
                    false,
                    "injected release failure",
                ))
            } else {
                None
            };
            cleanup.release_lease(&evidence, failure);
        }
    }

    fn acquire_resources(&mut self) -> Result<ScopeAcquisition, Vec<NativeError>> {
        let mut scope = ScopeAcquisition::begin(44, 99, Some(7), Some(false));
        loop {
            let outcome = match scope.pending {
                None => return Ok(scope),
                Some(AcquireRequest::Accessibility) => self.acquire("ax+").map(|_| {
                    scope.accessibility_acquired(true);
                }),
                Some(AcquireRequest::Menu) => self.acquire("menu+").map(|_| {
                    scope.menu_acquired(true);
                }),
                Some(AcquireRequest::TargetBelief) => self.acquire("belief+").map(|_| {
                    scope.belief_prepared(Some(Fields::new()));
                }),
            };
            if let Err(primary) = outcome {
                self.release_all(&mut scope.cleanup, None);
                let teardown = scope.cleanup.cleanup(Some(7), Some(false));
                return Err(acquisition_failures(primary, teardown.failures));
            }
        }
    }
}

#[test]
fn fake_hooks_prove_exact_acquisition_and_reverse_release_order() {
    let mut hooks = LoggingHooks {
        log: Vec::new(),
        fail_at: None,
    };
    let mut acquired = hooks.acquire_resources().unwrap();
    let recipe = MacScopeRecipe {
        accessibility: AccessibilityRecipe::ChromiumPriorStatePreserving,
        menu: MenuSuppressionRecipe::NotApplicable,
        target_belief: TargetBeliefRecipe::SwiftCoordinateClick,
    };
    let (leases, _) = acquired.acquired(recipe, &host());
    assert_eq!(leases.accessibility, LeaseDecision::Acquired);
    assert_eq!(leases.menu_dismissal, LeaseDecision::Acquired);
    assert_eq!(leases.target_belief, LeaseDecision::Acquired);
    hooks.release_all(&mut acquired.cleanup, None);
    let outcome = acquired.cleanup.cleanup(Some(7), Some(false));
    assert!(outcome.failures.is_empty());
    assert_eq!(hooks.log, vec!["ax+", "menu+", "belief+", "menu-", "ax-"]);
}

#[test]
fn acquisition_failure_unwinds_every_earlier_lease_in_reverse_order() {
    for (fail_at, expected) in [
        ("ax+", vec!["ax+"]),
        ("menu+", vec!["ax+", "menu+", "ax-"]),
        ("belief+", vec!["ax+", "menu+", "belief+", "menu-", "ax-"]),
    ] {
        let mut hooks = LoggingHooks {
            log: Vec::new(),
            fail_at: Some(fail_at),
        };
        let failures = hooks.acquire_resources().unwrap_err();
        assert_eq!(failures.len(), 1);
        assert_eq!(failures[0].phase, ErrorPhase::Preflight);
        assert_eq!(hooks.log, expected, "failure at {fail_at}");
    }
}

#[test]
fn every_release_is_attempted_after_an_earlier_cleanup_failure() {
    let mut hooks = LoggingHooks {
        log: Vec::new(),
        fail_at: None,
    };
    let mut cleanup = MacScopeCleanup::new(44, 99, Some(7), Some(false));
    cleanup.menu = true;
    cleanup.accessibility = true;

    hooks.release_all(&mut cleanup, Some(Lease::Menu));
    let outcome = cleanup.cleanup(Some(7), Some(false));
    assert_eq!(hooks.log, vec!["menu-", "ax-"]);
    assert_eq!(outcome.leases.menu_dismissal, LeaseTeardownStatus::Failed);
    assert_eq!(
        outcome.leases.target_belief,
        LeaseTeardownStatus::NotApplicable
    );
    assert!(matches!(
        outcome.native_evidence.get("menu-_attempted"),
        Some(Detail::Bool(true))
    ));
    assert!(outcome.target_poisoned);
    assert_eq!(outcome.failures.len(), 1);
    let again = cleanup.cleanup(None, None);
    assert_eq!(again.failures.len(), 1);
}

#[test]
fn exact_suppression_acquires_and_releases_the_shared_predicate_state() {
    let mut state = MacFocusState::new(44, 9, None);
    let plan = MenuSuppressionPlan::ExactSourcePidPredicate {
        target_pid: 44,
        menu_pid: Some(55),
        menu_id: "menu".to_owned(),
        action_id: "action".to_owned(),
    };
    let mut resource = acquire_production(&plan, &mut state).unwrap().unwrap();
    assert!(!state.menu_dismissal_suppression_enabled);
    assert_eq!(state.menu_pid, Some(55));
    assert_eq!(state.menu_suppression_action_id.as_deref(), Some("action"));
    assert_eq!(state.menu_suppression_menu_id.as_deref(), Some("menu"));
    let evidence = resource.release(&mut state);
    assert!(matches!(
        evidence.get("menu_suppression_active_after_release"),
        Some(Detail::Bool(false))
    ));
    assert!(!state.menu_dismissal_suppression_enabled);
    assert_eq!(state.menu_pid, None);
    let again = resource.release(&mut state);
    assert!(matches!(
        again.get("menu_suppression_release_idempotent"),
        Some(Detail::Bool(true))
    ));
}

#[test]
fn suppression_is_armed_for_its_own_action_only() {
    let mut state = MacFocusState::new(44, 9, None);
    let plan = MenuSuppressionPlan::ExactSourcePidPredicate {
        target_pid: 44,
        menu_pid: Some(55),
        menu_id: "menu".to_owned(),
        action_id: "action".to_owned(),
    };
    acquire_production(&plan, &mut state).unwrap();
    assert!(arm_menu_suppression(Some(&mut state), "other", "menu").is_err());
    arm_menu_suppression(Some(&mut state), "action", "menu").unwrap();
    assert!(state.menu_dismissal_suppression_enabled);
    assert!(arm_menu_suppression(None, "action", "menu").is_err());
    assert!(acquire_production(&plan, &mut state).is_err());
    assert!(acquire_production(&MenuSuppressionPlan::NotApplicable, &mut state)
        .unwrap()
        .is_none());
}

fn stamp() -> ResolvedWindowStamp {
    ResolvedWindowStamp {
        app_id: "app".to_owned(),
        window_id: "window".to_owned(),
        generation: 1,
        geometry_revision: "geometry".to_owned(),
        native_window: "native-window".to_owned(),
        process: "native-process".to_owned(),
    }
}

fn facts() -> MacWindowFacts {
    MacWindowFacts {
        stamp: stamp(),
        pid: 44,
        process_generation: 1,
        cg_window_id: 99,
        owner_name: "Fixture".to_owned(),
        layer: 0,
        bounds: AxBounds {
            x: 0,
            y: 0,
            width: 100,
            height: 100,
        },
        activation_point: Some((10, 16)),
        scale_factor: Some(BackingScale {
            code: 2,
            usable: true,
        }),
        state: WindowStateKind::Visible,
        is_on_screen: true,
        on_current_space: Some(true),
        space_ids: Some(vec![1]),
        minimized: Some(false),
    }
}

#[test]
fn a_scope_plan_is_bound_to_unchanged_facts() {
    let provider = MacInteractionProvider::new(host());
    let (target, window) = (stamp(), stamp());
    let asked = ScopeTarget {
        invalidated: false,
        focus_shutdown: false,
        target: &target,
        window: &window,
    };
    assert!(asked.ensure_live().is_ok());
    let mut other = stamp();
    other.window_id = "other-window".to_owned();
    let stranger = ScopeTarget {
        window: &other,
        ..asked
    };
    assert_eq!(
        stranger.ensure_live().unwrap_err().code,
        ErrorCode::WindowIdentityChanged
    );
    let asked = ScopeTarget {
        window: &window,
        ..stranger
    };
    let plan = |facts: MacWindowFacts| {
        provider.preflight(
            &asked,
            facts,
            None,
            Framework::Chromium,
            Route::TargetedPointer,
            &point_click(MouseButton::Left, 1),
            pointer_requirements(),
        )
    };
    let bound = plan(facts())
        .unwrap()
        .bind(&asked, &facts(), &None, "action", false)
        .unwrap();
    assert!(matches!(bound.menu, MenuSuppressionPlan::NotApplicable));
    let mut moved = facts();
    moved.bounds.x = 3;
    assert!(plan(facts())
        .unwrap()
        .bind(&asked, &moved, &None, "action", false)
        .is_err());
    let mut hidden = facts();
    hidden.state = WindowStateKind::Minimized;
    assert!(plan(hidden).is_err());
    assert!(ensure_actionable_window_state(WindowStateKind::Visible).is_ok());
    assert!(ensure_target_live(true, false, &stamp(), &stamp()).is_err());
    assert!(ensure_target_live(false, false, &stamp(), &stamp()).is_ok());
    assert!(ensure_native_facts_match(&stamp(), &stamp(), &stamp()).is_ok());
    assert!(ensure_facts_unchanged(false).is_err());
}

#[test]
fn menu_plans_name_the_menu_process() {
    let opening = Some(MenuMutationIntent::Opening {
        menu_id: "menu".to_owned(),
    });
    assert!(matches!(
        plan_menu_suppression(&opening, 44, "native-process", "action", true).unwrap(),
        MenuSuppressionPlan::ExactSourcePidPredicate {
            target_pid: 44,
            menu_pid: None,
            ..
        }
    ));
    assert_eq!(
        plan_menu_suppression(&opening, 44, "native-process", "action", false)
            .unwrap_err()
            .code,
        ErrorCode::Internal
    );
    let targeting = Some(MenuMutationIntent::Targeting {
        menu_id: "menu".to_owned(),
        identity: NativeMenuIdentity {
            process: "native-process".to_owned(),
            window: "native-window".to_owned(),
            generation: 1,
        },
    });
    assert!(plan_menu_suppression(&targeting, 44, "other-process", "action", true).is_err());
    let plan = plan_menu_suppression(&targeting, 44, "native-process", "action", true).unwrap();
    assert!(matches!(
        plan,
        MenuSuppressionPlan::ExactSourcePidPredicate {
            target_pid: 44,
            menu_pid: Some(44),
            ..
        }
    ));
    let own = resolve_menu_identity(&stamp(), 99, 99, &vec![]).unwrap();
    assert_eq!(own.window, "native-window");
    assert!(resolve_menu_identity(&stamp(), 99, 98, &vec![]).is_err());
}

fn sample() -> PostureSample {
    PostureSample {
        frontmost: Some(10),
        key_window: Ok(Some(100)),
        cursor: Ok(CursorPosition { x: 5, y: 6 }),
    }
}

#[test]
fn ordered_event_excursion_remains_a_violation_after_exact_restoration() {
    let baseline = sample();
    let mut state = PostureProofState::new();
    state.frontmost_changed = true;
    state.activation_pids.extend([20, 10]);
    let posture = state.posture(baseline, baseline);
    assert!(!posture.held);
    assert!(posture.frontmost_changed);
    assert!(posture.restored_after_violation);
}

#[test]
fn each_incomplete_native_stream_refuses_a_clean_posture_claim() {
    for stream in ["workspace", "ax", "hid", "containment"] {
        let baseline = sample();
        let mut state = PostureProofState::new();
        match stream {
            "workspace" => state.workspace_stream_complete = false,
            "ax" => state.ax_stream_complete = false,
            "hid" => state.hid_stream_complete = false,
            "containment" => state.containment_stream_complete = false,
            _ => unreachable!(),
        }
        assert!(!state.posture(baseline, baseline).held, "{stream}");
    }
}

#[test]
fn ax_and_hid_events_are_primary_transient_proof_not_polling_samples() {
    let baseline = sample();
    let mut state = PostureProofState::new();
    state.key_window_changed = true;
    state.ax_focus_events = 1;
    state.physical_cursor_moved = true;
    state.hid_cursor_events = 1;
    let posture = state.posture(baseline, baseline);
    assert!(!posture.held);
    assert!(posture.key_window_changed);
    assert!(posture.physical_cursor_moved);
    assert!(posture.restored_after_violation);
}

#[test]
fn unreadable_final_diagnostic_marks_all_corresponding_streams_unverifiable() {
    let baseline = sample();
    let mut state = PostureProofState::new();
    state.observe_final_sample(
        baseline,
        PostureSample {
            frontmost: None,
            key_window: Err(()),
            cursor: Err(()),
        },
    );
    assert!(!state.complete());
    assert!(!state.posture(baseline, baseline).held);
}

#[test]
fn streams_report_what_they_saw() {
    let mut state = PostureProofState::new();
    assert!(state.observe_workspace(
        WorkspaceReceipt::Event {
            kind: WorkspaceEventKind::Activated,
            pid: 20
        },
        10
    ));
    assert!(state.frontmost_changed);
    assert!(state.observe_workspace(WorkspaceReceipt::Lagged(3), 10));
    assert!(!state.workspace_stream_complete);
    assert_eq!(state.workspace_lagged_events, 3);
    assert!(!state.observe_workspace(WorkspaceReceipt::Empty, 10));
    state.observe_hid(HidReceipt::CursorMoved);
    assert!(state.physical_cursor_moved);
    state.observe_hid(HidReceipt::TapDisabled);
    assert!(!state.hid_stream_complete);
    state.observe_ax("AXFocusedWindowChanged");
    assert_eq!(state.ax_focus_events, 1);
    let mut quiet = PostureProofState::new();
    let (posture, fields) = quiet.finish(
        sample(),
        sample(),
        Some(44),
        StreamBarriers {
            workspace: true,
            ax: true,
            hid: true,
        },
        SuppressionCloseOutcome::none(),
    );
    assert!(posture.held);
    assert!(!fields.entries.is_empty());
    assert!(quiet.set_target(true).is_ok());
    assert!(quiet.set_target(false).is_err());
}

#[test]
fn witnesses_need_a_complete_baseline() {
    assert!(admit_witness(10, sample(), &PostureProofState::new()).is_ok());
    assert!(admit_witness(11, sample(), &PostureProofState::new()).is_err());
    assert_eq!(baseline_frontmost(Some(10), true).unwrap(), 10);
    assert_eq!(
        baseline_frontmost(None, false).unwrap_err().code,
        ErrorCode::PostureUnverifiable
    );
    assert!(admit_barriers(true, true, false).is_ok());
    assert!(admit_barriers(false, true, false).is_err());
    assert_eq!(remaining_until(10, 4, 100), 6);
    assert_eq!(remaining_until(10, 4, 3), 3);
    assert_eq!(remaining_until(4, 10, 3), 0);
    let mut control = ObserverControl { closed: false };
    assert_eq!(control.begin_close(5, 10_000_010), Some(15));
    assert_eq!(control.begin_close(5, 10), None);
    assert_eq!(focused_window(0, Some(4)), Ok(Some(4)));
    assert_eq!(focused_window(-1, Some(4)), Err(()));
}

#[test]
fn posture_streams_are_admitted_whole() {
    let whole = FocusStreamFacts {
        application: true,
        create_status: 0,
        created: true,
        registered: 2,
        source: true,
    };
    assert!(admit_focus_stream(whole).is_ok());
    assert_eq!(
        admit_focus_stream(FocusStreamFacts {
            application: false,
            ..whole
        })
        .unwrap_err()
        .message,
        "foreground AX application element is unavailable"
    );
    assert_eq!(
        admit_focus_stream(FocusStreamFacts {
            create_status: -25_204,
            ..whole
        })
        .unwrap_err()
        .message,
        "foreground AX posture observer creation failed with -25204"
    );
    let incomplete = admit_focus_stream(FocusStreamFacts {
        registered: 1,
        ..whole
    })
    .unwrap_err();
    assert_eq!(incomplete.code, ErrorCode::PostureUnverifiable);
    assert!(admit_cursor_stream(true, true).is_ok());
    assert!(admit_cursor_stream(false, true).is_err());
    assert!(admit_cursor_stream(true, false).is_err());
    assert!(stream_handshake(PostureStream::Focus, Some(Ok(()))).is_ok());
    assert_eq!(
        stream_handshake(PostureStream::Cursor, None)
            .unwrap_err()
            .message,
        "HID cursor stream registration exceeded its bounded deadline"
    );
    assert_eq!(
        stream_handshake(
            PostureStream::Focus,
            Some(Err(NativeError::invalid("fixture")))
        )
        .unwrap_err()
        .message,
        "fixture"
    );
}

#[test]
fn focus_states_are_reached_by_their_slot() {
    let mut registry = MacFocusStateRegistry::new();
    let first = registry.state_for("process-1", 44, 99, None);
    let other = registry.state_for("process-2", 45, 101, None);
    registry.state_at(first).menu_suppressed_event_count = 3;
    assert_eq!(registry.state_for("process-1", 44, 100, None), first);
    assert_eq!(registry.state_at(first).menu_suppressed_event_count, 3);
    assert_eq!(registry.state_at(first).cg_window_id, 99);
    assert_eq!(registry.state_at(other).menu_suppressed_event_count, 0);
}

#[test]
fn posture_evidence_names_both_cursor_positions() {
    let moved = PostureSample {
        cursor: Err(()),
        ..sample()
    };
    let mut state = PostureProofState::new();
    let (_, evidence) = state.finish(
        sample(),
        moved,
        None,
        StreamBarriers {
            workspace: true,
            ax: true,
            hid: true,
        },
        SuppressionCloseOutcome::none(),
    );
    assert!(matches!(
        evidence.get("prior_physical_cursor"),
        Some(Detail::Reals(at)) if at == &vec![5, 6]
    ));
    assert!(matches!(
        evidence.get("final_physical_cursor"),
        Some(Detail::Null)
    ));
}

#[test]
fn a_refused_recipe_says_why() {
    let refused = |framework, menu_dismissal| {
        select_scope_recipe(
            &host(),
            framework,
            Route::TargetedPointer,
            &point_click(MouseButton::Left, 1),
            ScopeRequirements {
                menu_dismissal,
                ..pointer_requirements()
            },
        )
        .unwrap_err()
        .message
    };
    assert_eq!(
        refused(Framework::Catalyst, false),
        "recipe_unproven: the helper's Catalyst preparation and focus reassertion branch is not ported"
    );
    assert_eq!(
        refused(Framework::Catalyst, true),
        "recipe_unproven: exact per-pid and per-menu event-tap predicate is not proved"
    );
}
