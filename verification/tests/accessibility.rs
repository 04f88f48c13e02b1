use platform_macos::ax::bindings::{
    chromium_after_manual, copy_action_names_exact, element_pid, enable_chromium_accessibility,
    exact_attribute, is_attribute_settable, lenient_attribute, AxCfRange, AxRead,
    ChromiumEnablement, AX_ERROR_API_DISABLED, AX_ERROR_ATTRIBUTE_UNSUPPORTED, AX_ERROR_FAILURE,
    AX_ERROR_INVALID_UI_ELEMENT, AX_ERROR_NO_VALUE, AX_ERROR_SUCCESS,
};
use platform_macos::ax::enablement::{
    read_attribute, write_outcome, AxEnablementLease, EnablementAttribute, EnablementStep,
};
use platform_macos::ax::minimized_recovery::{
    ax_window_facts_for_pid, exact_ax_window, exact_ax_window_facts, exact_server_window, recovery_deadline,
    recovery_preflight, recovery_settle, recovery_timed_out, recovery_write_outcome, restore_if_minimized,
    restore_required, suppression_prior, ExactAxWindowFacts, MappedAxWindow, RecoveryCandidate,
    RecoveryEvidence, RecoveryFailure, RecoveryReadback, RecoveryReport, RecoverySettle, RecoveryStart,
    ServerWindow,
};
use platform_macos::ax::refetch::{
    reacquire, ElementIdentity, ElementLocator, RefetchFailure, RefetchWalk, WalkedNode,
};
use platform_macos::ax::tree_observation::{TreeEvent, TreeObservation, TreeStage};
use platform_macos::ax::tree_provider::{
    apply_invalidations, element_cache_update, invalidating_notifications, kind_for_notification,
    observes_reliably, refresh_plan,
    CachedWindowTree, DirtyElement,
    ElementCacheUpdate, InvalidationSince, MacAxTreeProvider, ObserverEvent, ObserverEventKind,
    ObserverState, TreeNode, TreeRequest, TreeReuse, TreeWalkResult, WindowScope,
};
use platform_macos::errors::{ErrorCode, ErrorPhase, NativeError};
use platform_macos::evidence::{Detail, Fields};

struct FakeAccess {
    manual: Option<bool>,
    enhanced: Option<bool>,
    writes: Vec<(&'static str, bool)>,
}

impl FakeAccess {
    fn acquire(&mut self, pid: i32) -> Result<AxEnablementLease, NativeError> {
        let mut step = AxEnablementLease::begin();
        loop {
            match step {
                EnablementStep::Read(attribute) => {
                    let read = match attribute {
                        EnablementAttribute::ManualAccessibility => self.manual,
                        EnablementAttribute::EnhancedUserInterface => self.enhanced,
                    };
                    step = AxEnablementLease::after_read(pid, attribute, Ok(read));
                }
                EnablementStep::Enable(lease) => {
                    self.writes.push((lease.attribute().name(), true));
                    return Ok(lease);
                }
                EnablementStep::Acquired(lease) => return Ok(lease),
                EnablementStep::Failed(error) => return Err(error),
            }
        }
    }

    fn release(&mut self, lease: &mut AxEnablementLease) -> Result<(), NativeError> {
        if let Some(value) = lease.restoration() {
            self.writes.push((lease.attribute().name(), value));
        }
        lease.release(Ok(()))
    }
}

fn access(manual: Option<bool>, enhanced: Option<bool>) -> FakeAccess {
    FakeAccess {
        manual,
        enhanced,
        writes: Vec::new(),
    }
}

#[test]
fn enablement_restores_the_exact_prior_attribute_value() {
    let mut access = access(Some(false), None);
    let mut lease = access.acquire(42).unwrap();
    assert!(lease.changed());
    assert!(!lease.prior());
    access.release(&mut lease).unwrap();
    assert_eq!(
        access.writes,
        vec![
            ("AXManualAccessibility", true),
            ("AXManualAccessibility", false)
        ]
    );
    access.release(&mut lease).unwrap();
    assert_eq!(access.writes.len(), 2);
}

#[test]
fn already_enabled_state_is_observed_without_a_write_or_clear() {
    let mut access = access(Some(true), None);
    let mut lease = access.acquire(42).unwrap();
    assert!(!lease.changed());
    access.release(&mut lease).unwrap();
    assert!(access.writes.is_empty());
}

#[test]
fn the_legacy_attribute_is_tried_only_when_the_modern_one_is_absent() {
    let mut legacy = access(None, Some(false));
    let lease = legacy.acquire(42).unwrap();
    assert_eq!(lease.attribute().name(), "AXEnhancedUserInterface");
    assert_eq!(legacy.writes, vec![("AXEnhancedUserInterface", true)]);
    let error = access(None, None).acquire(42).unwrap_err();
    assert_eq!(error.code, ErrorCode::UnsupportedInBackground);
}

#[test]
fn enablement_reads_and_writes_report_native_failures() {
    let attribute = EnablementAttribute::ManualAccessibility;
    assert_eq!(
        read_attribute(42, attribute, Some((AX_ERROR_SUCCESS, AxRead::Value(true)))).unwrap(),
        Some(true)
    );
    assert_eq!(
        read_attribute(42, attribute, Some((AX_ERROR_NO_VALUE, AxRead::Null))).unwrap(),
        None
    );
    let unreadable =
        read_attribute(42, attribute, Some((AX_ERROR_FAILURE, AxRead::Null))).unwrap_err();
    assert!(unreadable.retryable);
    let odd =
        read_attribute(42, attribute, Some((AX_ERROR_SUCCESS, AxRead::WrongType))).unwrap_err();
    assert!(!odd.retryable);
    assert!(read_attribute(42, attribute, None).unwrap_err().retryable);
    assert!(write_outcome(42, attribute, ErrorPhase::Verify, Some(AX_ERROR_SUCCESS)).is_ok());
    let refused =
        write_outcome(42, attribute, ErrorPhase::Verify, Some(AX_ERROR_FAILURE)).unwrap_err();
    assert_eq!(refused.phase, ErrorPhase::Verify);
}

#[test]
fn a_failed_restoration_keeps_the_lease() {
    let mut access = access(Some(false), None);
    let mut lease = access.acquire(42).unwrap();
    let failed = Err(NativeError::new(
        ErrorCode::Internal,
        ErrorPhase::Verify,
        false,
        "fixture",
    ));
    assert!(lease.release(failed).is_err());
    assert_eq!(lease.restoration(), Some(false));
    assert!(lease.release(Ok(())).is_ok());
    assert_eq!(lease.restoration(), None);
}

#[test]
fn attribute_reads_tell_absence_from_failure() {
    assert_eq!(
        exact_attribute(AX_ERROR_SUCCESS, AxRead::Value(4)),
        Ok(Some(4))
    );
    assert_eq!(
        exact_attribute::<i32>(AX_ERROR_NO_VALUE, AxRead::Null),
        Ok(None)
    );
    assert_eq!(
        exact_attribute::<i32>(AX_ERROR_ATTRIBUTE_UNSUPPORTED, AxRead::Null),
        Ok(None)
    );
    assert_eq!(
        exact_attribute::<i32>(AX_ERROR_INVALID_UI_ELEMENT, AxRead::Null),
        Err(AX_ERROR_INVALID_UI_ELEMENT)
    );
    assert_eq!(
        lenient_attribute::<i32>(AX_ERROR_INVALID_UI_ELEMENT, AxRead::Null),
        None
    );
    assert_eq!(
        lenient_attribute(AX_ERROR_SUCCESS, AxRead::Value(4)),
        Some(4)
    );
    assert_eq!(element_pid(AX_ERROR_SUCCESS, 12), Ok(12));
    assert_eq!(is_attribute_settable(AX_ERROR_SUCCESS, 1), Ok(true));
    assert_eq!(is_attribute_settable(AX_ERROR_SUCCESS, 0), Ok(false));
    assert_eq!(
        copy_action_names_exact(AX_ERROR_SUCCESS, Some(vec!["AXPress".to_owned()])),
        Ok(vec!["AXPress".to_owned()])
    );
}

#[test]
fn chromium_enablement_falls_back_once() {
    assert_eq!(
        chromium_after_manual(AX_ERROR_SUCCESS),
        ChromiumEnablement::Enabled
    );
    assert_eq!(
        chromium_after_manual(AX_ERROR_ATTRIBUTE_UNSUPPORTED),
        ChromiumEnablement::TryLegacy
    );
    assert_eq!(
        chromium_after_manual(AX_ERROR_API_DISABLED),
        ChromiumEnablement::NotEnabled
    );
    assert!(enable_chromium_accessibility(
        AX_ERROR_ATTRIBUTE_UNSUPPORTED,
        AX_ERROR_SUCCESS
    ));
    assert!(!enable_chromium_accessibility(
        AX_ERROR_API_DISABLED,
        AX_ERROR_SUCCESS
    ));
}

#[test]
fn ranges_refuse_offsets_the_platform_cannot_hold() {
    assert_eq!(
        AxCfRange::from_utf16(3, 4),
        Some(AxCfRange {
            location: 3,
            length: 4
        })
    );
    assert_eq!(AxCfRange::from_utf16(usize::MAX, 1), None);
    assert_eq!(AxCfRange::from_utf16(1, usize::MAX), None);
}

#[test]
fn only_standard_or_minimized_dialog_facts_are_recoverable() {
    let standard = ExactAxWindowFacts {
        minimized: Some(true),
        subrole: Some("AXStandardWindow".into()),
        is_main: Some(true),
    };
    let minimized_dialog = ExactAxWindowFacts {
        minimized: Some(true),
        subrole: Some("AXDialog".into()),
        is_main: Some(false),
    };
    let visible_dialog = ExactAxWindowFacts {
        minimized: Some(false),
        subrole: Some("AXDialog".into()),
        is_main: Some(false),
    };
    assert!(standard.is_recoverable_standard());
    assert!(minimized_dialog.is_recoverable_standard());
    assert!(!visible_dialog.is_recoverable_standard());
}

#[test]
fn post_write_failure_is_non_retryable_and_truthful() {
    let mut details = Fields::new();
    details.insert("window_id", Detail::Int(7));
    let failure = RecoveryFailure::after_write("ui_not_settled", "settle", "fixture", details);
    assert!(!failure.retryable);
    assert!(failure.effect_may_have_occurred);
    assert!(matches!(
        failure.structured().get("native_side_effect_started"),
        Some(Detail::Bool(true))
    ));
    assert!(matches!(
        failure.structured().get("window_id"),
        Some(Detail::Int(7))
    ));
}

fn server() -> ServerWindow {
    ServerWindow {
        pid: 9,
        window_id: 7,
        is_on_screen: false,
        on_current_space: Some(true),
    }
}

fn candidate(minimized: Option<bool>, subrole: &str, settable: bool) -> RecoveryCandidate {
    RecoveryCandidate {
        minimized,
        subrole: Some(subrole.to_owned()),
        settable,
    }
}

#[test]
fn recovery_preflight_writes_only_on_exact_facts() {
    let ready = candidate(Some(true), "AXStandardWindow", true);
    assert_eq!(
        recovery_preflight(9, 7, Some(server()), Some(false), Some(ready)).unwrap(),
        RecoveryStart::Write
    );
    let restored = candidate(Some(false), "AXStandardWindow", true);
    assert_eq!(
        recovery_preflight(9, 7, Some(server()), Some(false), Some(restored)).unwrap(),
        RecoveryStart::AlreadyRestored
    );
    let off_space = ServerWindow {
        on_current_space: None,
        ..server()
    };
    for (server_window, hidden, found, code) in [
        (
            None,
            Some(false),
            Some(candidate(Some(true), "AXDialog", true)),
            "window_not_found",
        ),
        (
            Some(off_space),
            Some(false),
            Some(candidate(Some(true), "AXDialog", true)),
            "unsupported_in_background",
        ),
        (
            Some(server()),
            None,
            Some(candidate(Some(true), "AXDialog", true)),
            "unsupported_in_background",
        ),
        (Some(server()), Some(false), None, "observation_stale"),
        (
            Some(server()),
            Some(false),
            Some(candidate(Some(true), "AXSheet", true)),
            "unsupported_in_background",
        ),
        (
            Some(server()),
            Some(false),
            Some(candidate(Some(true), "AXDialog", false)),
            "unsupported_in_background",
        ),
    ] {
        let failure = recovery_preflight(9, 7, server_window, hidden, found).unwrap_err();
        assert_eq!(failure.code, code);
        assert!(failure.retryable);
        assert!(!failure.effect_may_have_occurred);
    }
}

#[test]
fn recovery_settles_on_one_coherent_readback_or_times_out() {
    let visible = ServerWindow {
        is_on_screen: true,
        ..server()
    };
    let settled = RecoveryReadback {
        ax_minimized: Some(false),
        server: Some(visible),
        hidden: Some(false),
    };
    assert!(matches!(
        recovery_settle(settled, 5, 5),
        RecoverySettle::Restored
    ));
    let pending = RecoveryReadback {
        ax_minimized: Some(true),
        ..settled
    };
    assert!(matches!(
        recovery_settle(pending, 4, 5),
        RecoverySettle::Wait
    ));
    assert_eq!(recovery_settle(pending, 5, 5), RecoverySettle::GiveUp);
    let failure = recovery_timed_out(
        9,
        7,
        RecoveryReport {
            ax_minimized: Some(false),
            on_screen: Some(true),
            on_current_space: None,
        },
    );
    assert!(matches!(
        failure.details.get("ax_minimized"),
        Some(Detail::Bool(false))
    ));
    assert!(matches!(
        failure.details.get("windowserver_on_screen"),
        Some(Detail::Bool(true))
    ));
    assert!(matches!(
        failure.details.get("windowserver_on_current_space"),
        Some(Detail::Null)
    ));
    assert_eq!(failure.code, "ui_not_settled");
    assert!(failure.effect_may_have_occurred);
    assert_eq!(recovery_deadline(1), 3_000_000_001);
    assert!(recovery_write_outcome(9, 7, AX_ERROR_SUCCESS).is_ok());
    assert!(recovery_write_outcome(9, 7, AX_ERROR_FAILURE).is_err());
}

#[test]
fn recovery_is_asked_for_minimized_windows_alone() {
    let facts = |minimized, subrole: &str| {
        Some(ExactAxWindowFacts {
            minimized,
            subrole: Some(subrole.to_owned()),
            is_main: None,
        })
    };
    assert!(!restore_required(9, 7, None).unwrap());
    assert!(!restore_required(9, 7, facts(Some(false), "AXStandardWindow")).unwrap());
    assert!(restore_required(9, 7, facts(Some(true), "AXStandardWindow")).unwrap());
    assert_eq!(
        restore_required(9, 7, facts(Some(true), "AXSheet"))
            .unwrap_err()
            .code,
        "unsupported_in_background"
    );
    assert_eq!(suppression_prior(9, Some(9)), None);
    assert_eq!(suppression_prior(9, Some(8)), Some(8));
}

#[test]
fn a_recovery_that_left_the_background_is_refused() {
    let quiet = RecoveryEvidence {
        pid: 9,
        window_id: 7,
        frontmost_pid_before: Some(8),
        frontmost_pid_after: Some(8),
        target_activation_observed: false,
    };
    assert_eq!(
        restore_if_minimized(quiet, Ok(true)).unwrap().unwrap(),
        quiet
    );
    let raised = RecoveryEvidence {
        frontmost_pid_after: Some(9),
        target_activation_observed: true,
        ..quiet
    };
    let failure = restore_if_minimized(raised, Ok(true)).unwrap_err();
    assert!(failure.effect_may_have_occurred);
    let decorated = quiet.decorate_error(Fields::new());
    assert!(!decorated.entries.is_empty());
}

#[test]
fn exact_window_lookups_refuse_ambiguity() {
    let mapped = |window_id| MappedAxWindow {
        window_id,
        facts: ExactAxWindowFacts {
            minimized: Some(true),
            subrole: None,
            is_main: None,
        },
    };
    let windows = vec![mapped(Some(7)), mapped(Some(8)), mapped(Some(8)), mapped(None)];
    assert!(exact_ax_window_facts(&windows, 7).is_some());
    assert!(exact_ax_window_facts(&windows, 8).is_none());
    let ids = vec![Some(7), Some(8), Some(8), None];
    assert_eq!(exact_ax_window(&ids, 7), Some(0));
    assert_eq!(exact_ax_window(&ids, 8), None);
    assert_eq!(exact_ax_window(&ids, 9), None);
    let facts = ax_window_facts_for_pid(&windows);
    assert_eq!(facts.len(), 1);
    assert_eq!(facts.get(&7).unwrap().minimized, Some(true));
    let listed = vec![server(), ServerWindow { pid: 3, ..server() }];
    assert_eq!(exact_server_window(&listed, 9, 7), Some(server()));
    assert_eq!(exact_server_window(&listed, 4, 7), None);
}

fn identity(role: &str, title: &str) -> ElementIdentity {
    ElementIdentity {
        role: role.to_owned(),
        subrole: None,
        title: Some(title.to_owned()),
        description: None,
        identifier: None,
    }
}

#[test]
fn locator_identity_includes_collapsed_parent_path() {
    let alice = ElementLocator {
        ancestors: vec![identity("AXGroup", "Alice")],
        target: identity("AXButton", "Delete"),
    };
    let bob = ElementLocator {
        ancestors: vec![identity("AXGroup", "Bob")],
        target: identity("AXButton", "Delete"),
    };
    assert!(!alice.same(&bob));
    assert!(alice.same(&alice));
}

fn walk(titles: &[&str], truncated: bool) -> RefetchWalk {
    let mut locators = Vec::new();
    let mut nodes = Vec::new();
    for (index, title) in titles.iter().enumerate() {
        locators.push(ElementLocator {
            ancestors: Vec::new(),
            target: identity("AXButton", title),
        });
        nodes.push(WalkedNode {
            element_index: Some(index),
            element: 100 + index as u64,
            window_id: Some(7),
        });
    }
    RefetchWalk {
        truncated,
        window_matched: true,
        element_locators: locators,
        nodes,
    }
}

#[test]
fn a_stale_element_is_found_again_only_when_it_is_the_only_one() {
    let wanted = ElementLocator {
        ancestors: Vec::new(),
        target: identity("AXButton", "Save"),
    };
    assert_eq!(reacquire(&walk(&["Open", "Save"], false), 7, &wanted), Ok(101));
    assert_eq!(
        reacquire(&walk(&["Open"], false), 7, &wanted),
        Err(RefetchFailure::Missing)
    );
    assert_eq!(
        reacquire(&walk(&["Save", "Save"], false), 7, &wanted),
        Err(RefetchFailure::Ambiguous)
    );
    assert_eq!(
        reacquire(&walk(&["Save"], true), 7, &wanted),
        Err(RefetchFailure::Incomplete)
    );
    assert_ne!(
        RefetchFailure::Missing.reason(),
        RefetchFailure::Ambiguous.reason()
    );
}

#[test]
fn notification_lineage_targets_only_contiguous_value_events() {
    let mut state = ObserverState::new();
    assert!(matches!(
        state.invalidations_since(0),
        InvalidationSince::Clean
    ));

    state.events.push_back(ObserverEvent {
        epoch: 1,
        kind: ObserverEventKind::Targeted,
        render_id: Some(42),
        element_ptr: 0,
    });
    state.epoch = 1;
    assert!(matches!(
        state.invalidations_since(0),
        InvalidationSince::Targeted {
            through_epoch: 1,
            ref elements
        } if elements.len() == 1 && elements[0].render_id == 42
    ));

    state.events.push_back(ObserverEvent {
        epoch: 2,
        kind: ObserverEventKind::FullResync,
        render_id: Some(43),
        element_ptr: 0,
    });
    state.epoch = 2;
    assert!(matches!(
        state.invalidations_since(1),
        InvalidationSince::Targeted {
            through_epoch: 2,
            ref elements
        } if elements.len() == 1 && elements[0].kind == ObserverEventKind::FullResync
    ));

    state.events.push_back(ObserverEvent {
        epoch: 3,
        kind: ObserverEventKind::FullResync,
        render_id: None,
        element_ptr: 0,
    });
    state.epoch = 3;
    assert!(matches!(
        state.invalidations_since(2),
        InvalidationSince::FullResync
    ));

    state.events.clear();
    state.events.push_back(ObserverEvent {
        epoch: 4,
        kind: ObserverEventKind::Targeted,
        render_id: Some(42),
        element_ptr: 0,
    });
    state.epoch = 4;
    assert!(matches!(
        state.invalidations_since(2),
        InvalidationSince::FullResync
    ));
}

fn tree() -> TreeWalkResult {
    TreeWalkResult {
        tree_markdown: String::new(),
        nodes: Vec::new(),
        truncated: false,
        window_scope: Some(WindowScope::Matched),
    }
}

#[test]
fn cached_window_read_releases_map_before_publish() {
    let mut provider = MacAxTreeProvider::new();
    provider.insert(
        7,
        11,
        CachedWindowTree {
            result: tree(),
            observer_epoch: 1,
            action_borrow_epoch: 2,
        },
    );

    let cached = provider.cached_window(7, 11).expect("cached window");
    provider.insert(7, 11, cached);
    let again = provider.cached_window(7, 11).expect("cached window");
    assert_eq!(again.observer_epoch, 1);
    assert_eq!(again.action_borrow_epoch, 2);
    provider.remove(7, 11);
    assert!(provider.cached_window(7, 11).is_none());
}

#[test]
fn structural_event_from_another_window_does_not_evict_exact_cache() {
    let event = DirtyElement {
        kind: ObserverEventKind::FullResync,
        render_id: 99,
        element_ptr: 0,
    };

    let plan = refresh_plan(&tree().nodes, &vec![event]);
    assert_eq!(apply_invalidations(&plan, &Vec::new()), Ok(false));
}

#[test]
fn invalidations_refresh_known_nodes_and_resync_on_structure() {
    let nodes = vec![TreeNode {
        render_id: 99,
        element_index: Some(0),
        element_ptr: 5,
    }];
    let value = DirtyElement {
        kind: ObserverEventKind::Targeted,
        render_id: 99,
        element_ptr: 5,
    };
    let plan = refresh_plan(&nodes, &vec![value]);
    assert_eq!(plan.refreshes, vec![(0, 5)]);
    assert_eq!(apply_invalidations(&plan, &vec![true]), Ok(true));
    assert_eq!(apply_invalidations(&plan, &vec![false]), Err(()));
    let structure = DirtyElement {
        kind: ObserverEventKind::FullResync,
        ..value
    };
    let plan = refresh_plan(&nodes, &vec![structure]);
    assert!(plan.resync);
    assert_eq!(apply_invalidations(&plan, &Vec::new()), Err(()));
}

#[test]
fn the_event_log_drops_its_oldest_entry_and_forces_a_walk() {
    let mut state = ObserverState::new();
    for _ in 0..513 {
        state.record("AXValueChanged", Some((4, 40)));
    }
    assert_eq!(state.epoch(), 513);
    assert_eq!(state.events.len(), 512);
    assert!(matches!(
        state.invalidations_since(0),
        InvalidationSince::FullResync
    ));
    assert!(matches!(
        state.invalidations_since(512),
        InvalidationSince::Targeted {
            through_epoch: 513,
            ..
        }
    ));
    assert_eq!(
        kind_for_notification("AXValueChanged"),
        ObserverEventKind::Targeted
    );
}

#[test]
fn a_published_tree_is_reused_until_something_happens() {
    let request = TreeRequest {
        pid: 7,
        window_id: 11,
        has_query: false,
        default_limits: true,
        allow_cache_reuse: true,
        observation_only: false,
    };
    let mut provider = MacAxTreeProvider::new();
    assert_eq!(
        element_cache_update(request, &tree()),
        ElementCacheUpdate::ReplaceWithWalk
    );
    let published = provider.publish(request, tree(), Some(0), 3);
    assert_eq!(published.cache_status, "full_walk");
    let mut observer = Some(ObserverState::new());
    assert!(matches!(
        provider.reuse(request, &observer, true, 3),
        TreeReuse::Clean(_)
    ));
    assert!(matches!(
        provider.reuse(request, &observer, true, 4),
        TreeReuse::Walk
    ));
    if let Some(state) = observer.as_mut() {
        state.record("AXValueChanged", Some((4, 40)));
    }
    assert!(matches!(
        provider.reuse(request, &observer, true, 3),
        TreeReuse::Refresh {
            through_epoch: 1,
            ..
        }
    ));
    let searched = TreeRequest {
        has_query: true,
        ..request
    };
    assert!(matches!(
        provider.reuse(searched, &observer, true, 3),
        TreeReuse::Walk
    ));
    let unmatched = TreeWalkResult {
        window_scope: Some(WindowScope::Unmatched),
        ..tree()
    };
    assert_eq!(
        element_cache_update(request, &unmatched),
        ElementCacheUpdate::Clear
    );
    assert_eq!(
        element_cache_update(
            TreeRequest {
                observation_only: true,
                ..request
            },
            &unmatched
        ),
        ElementCacheUpdate::Keep
    );
    provider.publish(request, unmatched, Some(1), 3);
    assert!(provider.cached_window(7, 11).is_none());
}

fn rendered() -> TreeWalkResult {
    TreeWalkResult {
        nodes: vec![TreeNode {
            render_id: 5,
            element_index: Some(0),
            element_ptr: 30,
        }],
        ..tree()
    }
}

fn tree_request() -> TreeRequest {
    TreeRequest {
        pid: 7,
        window_id: 11,
        has_query: false,
        default_limits: true,
        allow_cache_reuse: true,
        observation_only: false,
    }
}

fn observed(events: &[(&str, usize)]) -> ObserverState {
    let mut state = ObserverState::new();
    for (name, render_id) in events {
        state.record(name, Some((*render_id, 40)));
    }
    state
}

#[test]
fn a_walk_is_kept_and_served_until_something_moves() {
    let mut provider = MacAxTreeProvider::new();
    let quiet = Some(observed(&[]));
    let mut walk = TreeObservation::begin(&provider, tree_request(), &quiet, true, 3);
    assert_eq!(walk.stage, TreeStage::Walk);
    walk.advance(
        &mut provider,
        TreeEvent::Walked {
            tree: rendered(),
            observer: Some(observed(&[])),
            reliable: true,
        },
    );
    assert_eq!(
        walk.stage,
        TreeStage::Update {
            update: ElementCacheUpdate::ReplaceWithWalk
        }
    );
    walk.advance(
        &mut provider,
        TreeEvent::Updated {
            action_borrow_epoch: 3,
        },
    );
    assert_eq!(walk.served.unwrap().cache_status, "full_walk");
    assert!(provider.cached_window(7, 11).is_some());

    let mut clean = TreeObservation::begin(&provider, tree_request(), &quiet, true, 3);
    assert_eq!(clean.stage, TreeStage::Confirm);
    clean.advance(
        &mut provider,
        TreeEvent::Confirmed {
            observer_epoch: 0,
            action_borrow_epoch: 3,
        },
    );
    assert_eq!(clean.served.unwrap().cache_status, "clean_cache");

    let mut moved = TreeObservation::begin(&provider, tree_request(), &quiet, true, 3);
    moved.advance(
        &mut provider,
        TreeEvent::Confirmed {
            observer_epoch: 1,
            action_borrow_epoch: 3,
        },
    );
    assert_eq!(moved.stage, TreeStage::Walk);

    let changed = Some(observed(&[("AXValueChanged", 5)]));
    let mut refresh = TreeObservation::begin(&provider, tree_request(), &changed, true, 3);
    assert_eq!(refresh.stage, TreeStage::Refresh { through_epoch: 1 });
    assert_eq!(refresh.plan.refreshes, vec![(0, 40)]);
    refresh.advance(
        &mut provider,
        TreeEvent::Refreshed {
            tree: rendered(),
            refreshed: vec![true],
            observer_epoch: 1,
            action_borrow_epoch: 3,
        },
    );
    assert_eq!(refresh.served.unwrap().cache_status, "targeted_refetch");
    assert_eq!(provider.cached_window(7, 11).unwrap().observer_epoch, 1);

    let structural = Some(observed(&[
        ("AXValueChanged", 1),
        ("AXLayoutChanged", 5),
    ]));
    let mut failed = TreeObservation::begin(&provider, tree_request(), &structural, true, 3);
    failed.advance(
        &mut provider,
        TreeEvent::Refreshed {
            tree: rendered(),
            refreshed: Vec::new(),
            observer_epoch: 2,
            action_borrow_epoch: 3,
        },
    );
    assert_eq!(failed.stage, TreeStage::Walk);
}

#[test]
fn a_walk_follows_what_changed_meanwhile() {
    let mut provider = MacAxTreeProvider::new();
    let quiet = Some(observed(&[]));
    for (observer_epoch, kept) in [(1, true), (2, false)] {
        let mut walk = TreeObservation::begin(&provider, tree_request(), &quiet, true, 3);
        walk.advance(
            &mut provider,
            TreeEvent::Walked {
                tree: rendered(),
                observer: Some(observed(&[(
                    "AXTitleChanged",
                    5,
                )])),
                reliable: true,
            },
        );
        assert_eq!(walk.stage, TreeStage::Follow { through_epoch: 1 });
        walk.advance(
            &mut provider,
            TreeEvent::Followed {
                tree: rendered(),
                refreshed: vec![true],
                observer_epoch,
            },
        );
        walk.advance(
            &mut provider,
            TreeEvent::Updated {
                action_borrow_epoch: 4,
            },
        );
        assert_eq!(walk.served.unwrap().cache_status, "full_walk");
        assert_eq!(provider.cached_window(7, 11).is_some(), kept);
        provider.remove(7, 11);
    }
    let mut unobserved = TreeObservation::begin(&provider, tree_request(), &None, true, 3);
    unobserved.advance(
        &mut provider,
        TreeEvent::Walked {
            tree: rendered(),
            observer: None,
            reliable: false,
        },
    );
    unobserved.advance(
        &mut provider,
        TreeEvent::Updated {
            action_borrow_epoch: 3,
        },
    );
    assert!(provider.cached_window(7, 11).is_none());
}

#[test]
fn an_observer_vouches_with_every_notification() {
    assert_eq!(invalidating_notifications().len(), 10);
    assert!(observes_reliably(&vec![AX_ERROR_SUCCESS, -25_209]));
    assert!(!observes_reliably(&vec![AX_ERROR_SUCCESS, AX_ERROR_FAILURE]));
}

#[test]
fn a_release_reports_its_attribute() {
    let mut access = FakeAccess {
        manual: Some(false),
        enhanced: None,
        writes: Vec::new(),
    };
    let lease = access.acquire(7).unwrap();
    let evidence = lease.release_evidence(true);
    assert!(matches!(
        evidence.get("ax_attribute"),
        Some(Detail::Text(name)) if name == "AXManualAccessibility"
    ));
    assert!(matches!(
        evidence.get("ax_prior_value"),
        Some(Detail::Bool(false))
    ));
    assert!(matches!(
        evidence.get("ax_state_changed"),
        Some(Detail::Bool(true))
    ));
    assert!(matches!(
        evidence.get("ax_release_succeeded"),
        Some(Detail::Bool(true))
    ));
}

#[test]
fn a_truncated_walk_is_never_served_from_the_cache() {
    let mut provider = MacAxTreeProvider::new();
    let quiet = Some(observed(&[]));
    let mut walk = TreeObservation::begin(&provider, tree_request(), &quiet, true, 3);
    walk.advance(
        &mut provider,
        TreeEvent::Walked {
            tree: TreeWalkResult {
                truncated: true,
                ..rendered()
            },
            observer: Some(observed(&[("AXTitleChanged", 5)])),
            reliable: true,
        },
    );
    assert_eq!(walk.stage, TreeStage::Follow { through_epoch: 1 });
    // What is read again does not complete the walk.
    walk.advance(
        &mut provider,
        TreeEvent::Followed {
            tree: rendered(),
            refreshed: vec![true],
            observer_epoch: 1,
        },
    );
    walk.advance(
        &mut provider,
        TreeEvent::Updated {
            action_borrow_epoch: 3,
        },
    );
    let served = walk.served.unwrap();
    assert_eq!(served.cache_status, "full_walk");
    assert!(served.result.truncated);
    assert!(provider.cached_window(7, 11).is_none());
    let again = TreeObservation::begin(&provider, tree_request(), &quiet, true, 3);
    assert_eq!(again.stage, TreeStage::Walk);
}
