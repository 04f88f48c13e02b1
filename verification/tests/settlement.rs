use std::cell::Cell;

use platform_macos::contracts::{ResolvedWindowStamp, SettlementSignal};
use platform_macos::driver::observer::{
    application_notifications, descendant_notifications, registration_handshake,
    replacement_outcome, target_notifications, AxObserverRun, Handshake, ObserverReport,
    ObserverStage,
};
use platform_macos::driver::observation::{SettleStage, TargetSettle};
use platform_macos::driver::settlement::{
    descendant_outcome, event_for_notification, latest_relevant_signal, registration_outcome,
    same_observed_elements, DirtyState, MacAxEvent, MacSignalJournal, ObserverContext,
    RecordedSignal, SettleStep, SettlementProfile, SignalSet,
};
use platform_macos::driver::target::{
    invalidation_reason, observation_changed, process_handle, InvalidationReason,
    MacFocusStateRegistry, MacInvalidationSubscription, MacTargetState, RegistryReceived,
    TargetInvalidation, WorkspaceEvent, WorkspaceEventKind, WorkspaceReceived,
};

use platform_macos::errors::{ErrorCode, NativeError};

const MS: u64 = 1_000_000;

fn set(signals: &[SettlementSignal]) -> SignalSet {
    let mut set = SignalSet::new();
    for signal in signals {
        set.insert(*signal);
    }
    set
}

fn profile(name: &str, required: &[SettlementSignal], quiet_window_ms: u64) -> SettlementProfile {
    SettlementProfile {
        name: name.to_owned(),
        required_terminal_signals: set(required),
        quiet_window_ms,
    }
}

fn dirty(profile: SettlementProfile) -> DirtyState {
    DirtyState {
        action_id: "action".to_owned(),
        profile,
        since: 0,
        observed_signals: set(&[
            SettlementSignal::DispatchStarted,
            SettlementSignal::DispatchComplete,
        ]),
        resumed_from_prior_call: false,
    }
}

#[test]
fn notification_mapping_contains_no_ax_content() {
    assert_eq!(
        event_for_notification("AXSelectedTextChanged"),
        Some(MacAxEvent::ContentChanged)
    );
    assert_eq!(event_for_notification("secret document text"), None);
}

#[test]
fn epoch_gate_refuses_publication_after_a_native_signal_race() {
    let mut journal = MacSignalJournal::new();
    let epoch = journal.epoch();
    journal.record(SettlementSignal::WindowGeometryChanged, 1);
    let published = Cell::new(false);

    let result = journal
        .commit_if_epoch(epoch, || {
            published.set(true);
            Ok(())
        })
        .unwrap();

    assert!(result.is_none());
    assert!(!published.get());

    let result = journal.commit_if_epoch(journal.epoch(), || Ok(4)).unwrap();
    assert_eq!(result, Some(4));
}

#[test]
fn relevant_signal_resets_quiet_window() {
    let mut journal = MacSignalJournal::new();
    let dirty = dirty(profile("click", &[SettlementSignal::DispatchComplete], 25));
    let relevant = set(&[SettlementSignal::AxValueChanged]);
    let deadline = 200 * MS;

    let SettleStep::Wait {
        eligible_since,
        wake_at,
    } = journal.settle(&dirty, &relevant, None, 0, deadline)
    else {
        panic!("expected to wait");
    };
    assert_eq!(wake_at, 25 * MS);

    journal.record(SettlementSignal::FreshFrame, 0);
    journal.record(SettlementSignal::AxValueChanged, 10 * MS);
    let SettleStep::Wait {
        eligible_since,
        wake_at,
    } = journal.settle(&dirty, &relevant, eligible_since, 25 * MS, deadline)
    else {
        panic!("expected to wait");
    };
    assert_eq!(wake_at, 35 * MS);

    let SettleStep::Settled(evidence) =
        journal.settle(&dirty, &relevant, eligible_since, 35 * MS, deadline)
    else {
        panic!("expected settled evidence");
    };
    assert!(evidence
        .observed_signals
        .contains(&SettlementSignal::AxValueChanged));
    assert_eq!(evidence.elapsed_ms, 35);
}

#[test]
fn unrelated_signals_are_excluded_from_the_quiet_window_clock() {
    let started = 1_000 * MS;
    let records = vec![
        RecordedSignal {
            at: started + 10 * MS,
            signal: SettlementSignal::AxValueChanged,
        },
        RecordedSignal {
            at: started + 20 * MS,
            signal: SettlementSignal::FreshFrame,
        },
    ];
    assert_eq!(
        latest_relevant_signal(&records, &set(&[SettlementSignal::AxValueChanged])),
        Some(started + 10 * MS)
    );
}

#[test]
fn timeout_returns_accumulated_progress() {
    let mut journal = MacSignalJournal::new();
    let dirty = dirty(profile("menu", &[SettlementSignal::MenuDismissed], 0));
    journal.record(SettlementSignal::AxAction, 1);
    let relevant = set(&[SettlementSignal::MenuDismissed]);
    assert!(matches!(
        journal.settle(&dirty, &relevant, None, 2, 5 * MS),
        SettleStep::Wait {
            eligible_since: None,
            wake_at: 5_000_000
        }
    ));
    let SettleStep::Pending(pending) = journal.settle(&dirty, &relevant, None, 5 * MS, 5 * MS)
    else {
        panic!("expected pending settlement");
    };
    assert!(pending
        .observed_signals
        .contains(&SettlementSignal::AxAction));
    assert!(pending
        .missing_signals
        .contains(&SettlementSignal::MenuDismissed));
    assert_eq!(
        pending.missing_signals,
        vec![SettlementSignal::MenuDismissed]
    );
    assert_eq!(pending.elapsed_ms, 5);
}

#[test]
fn the_journal_is_bounded_and_its_epoch_counts_every_signal() {
    let mut journal = MacSignalJournal::new();
    for index in 0..600 {
        journal.record(SettlementSignal::FreshFrame, index);
    }
    assert_eq!(journal.epoch(), 600);
    assert_eq!(journal.snapshot_since(0).len(), 512);
    assert_eq!(journal.snapshot_since(590).len(), 10);
    assert_eq!(journal.latest_signal(), Some(SettlementSignal::FreshFrame));
}

#[test]
fn observers_accept_the_focus_of_their_window_alone() {
    let mut context = ObserverContext {
        target_window_id: 9,
        focused_target: false,
    };
    assert_eq!(
        context.accept("AXFocusedUIElementChanged", Some(9)),
        Some(MacAxEvent::FocusChanged)
    );
    assert!(context.focused_target);
    assert_eq!(context.accept("unknown", Some(9)), None);
    assert_eq!(
        MacAxEvent::MenuOpened.settlement_signal(),
        SettlementSignal::MenuOpened
    );
    assert!(same_observed_elements(&vec![1, 2], &vec![1, 2]));
    assert!(!same_observed_elements(&vec![1, 2], &vec![1, 3]));
    assert!(registration_outcome(1, 1).is_ok());
    assert!(registration_outcome(0, 1).is_err());
    assert!(registration_outcome(1, 0).is_err());
    assert!(descendant_outcome(0, 0).is_ok());
    assert!(descendant_outcome(2, 0).is_err());
}

#[test]
fn focus_registry_reuses_state_per_process_across_exact_windows() {
    let mut registry = MacFocusStateRegistry::new();
    let first_window = registry.state_for("process-1", 44, 99, None);
    let replacement_window = registry.state_for("process-1", 44, 100, None);
    let other = registry.state_for("process-2", 45, 101, None);

    assert_eq!(first_window, replacement_window);
    assert_ne!(first_window, other);
}

fn stamp() -> ResolvedWindowStamp {
    ResolvedWindowStamp {
        app_id: "app".to_owned(),
        window_id: "window".to_owned(),
        generation: 1,
        geometry_revision: "geometry".to_owned(),
        native_window: "native-window".to_owned(),
        process: "native-process".to_owned(),
    }
}

#[test]
fn invalidations_pass_until_both_sources_close() {
    let mut subscription = MacInvalidationSubscription::new();
    let changed = observation_changed(&stamp(), InvalidationReason::ContentChanged);
    assert!(matches!(
        subscription.on_registry(RegistryReceived::Invalidation(changed)),
        Some(TargetInvalidation::ObservationChanged { generation: 1, .. })
    ));
    assert!(matches!(
        subscription.on_registry(RegistryReceived::Lagged),
        Some(TargetInvalidation::NativeStateResyncRequired)
    ));
    let exit = WorkspaceEvent {
        kind: WorkspaceEventKind::Terminated,
        pid: 12,
        bundle_id: None,
        process_generation: Some(7),
    };
    let Some(TargetInvalidation::ProcessExited { process }) =
        subscription.on_workspace(WorkspaceReceived::Event(exit))
    else {
        panic!("expected a process exit");
    };
    assert_eq!(process, process_handle(12, 7));
    subscription.on_registry(RegistryReceived::Closed);
    assert!(!subscription.finished());
    subscription.on_workspace(WorkspaceReceived::Closed);
    assert!(subscription.finished());
    assert_eq!(
        invalidation_reason(MacAxEvent::WindowDestroyed),
        InvalidationReason::AccessibilityInvalidated
    );
}

#[test]
fn an_invalidated_target_stays_invalidated() {
    let mut target = MacTargetState::new(stamp());
    assert!(!target.invalidated());
    assert!(target.observes_descendants().is_ok());
    target.invalidate();
    assert!(target.observes_descendants().is_err());
    assert!(target.invalidated());
}

fn serving() -> AxObserverRun {
    let mut run = AxObserverRun::begin(20);
    for report in [
        ObserverReport::Application { available: true },
        ObserverReport::Windows(vec![None, Some(19), Some(20), Some(20)]),
        ObserverReport::Created {
            status: 0,
            present: true,
            focused_window: Some(20),
        },
        ObserverReport::Registered {
            target: 1,
            focus: 2,
        },
        ObserverReport::Source { present: true },
        ObserverReport::Announced { heard: true },
    ] {
        assert!(run.advance(report).is_none());
    }
    run
}

#[test]
fn an_observer_serves_the_exact_window() {
    let run = serving();
    assert_eq!(run.stage, ObserverStage::Serving);
    assert_eq!(run.target, Some(2));
    assert!(run.context.unwrap().focused_target);
    let failed = |reports: Vec<ObserverReport>| {
        let mut run = AxObserverRun::begin(20);
        for report in reports {
            run.advance(report);
        }
        assert_eq!(run.stage, ObserverStage::Done);
        run.failure.unwrap().message
    };
    assert_eq!(
        failed(vec![ObserverReport::Application { available: false }]),
        "AX application element is unavailable"
    );
    assert_eq!(
        failed(vec![
            ObserverReport::Application { available: true },
            ObserverReport::Windows(vec![Some(19)]),
        ]),
        "exact target AX window is unavailable"
    );
    assert_eq!(
        failed(vec![
            ObserverReport::Application { available: true },
            ObserverReport::Windows(vec![Some(20)]),
            ObserverReport::Created {
                status: -25_200,
                present: false,
                focused_window: None,
            },
        ]),
        "AXObserverCreate failed with -25200"
    );
    assert!(matches!(registration_handshake(Handshake::Registered), Ok(())));
    assert_eq!(
        registration_handshake(Handshake::Disconnected)
            .unwrap_err()
            .message,
        "AX observer exited before registration"
    );
    assert_eq!(
        registration_handshake(Handshake::TimedOut)
            .unwrap_err()
            .message,
        "AX observer registration exceeded its bounded deadline"
    );
    assert_eq!(
        registration_handshake(Handshake::Failed(NativeError::invalid("fixture")))
            .unwrap_err()
            .message,
        "fixture"
    );
}

#[test]
fn the_elements_asked_for_last_are_watched() {
    let mut run = serving();
    assert!(matches!(
        run.advance(ObserverReport::Replace {
            elements: Vec::new()
        }),
        Some(Ok(()))
    ));
    assert!(run
        .advance(ObserverReport::Replace {
            elements: vec![1, 2]
        })
        .is_none());
    assert_eq!(run.stage, ObserverStage::Replacing);
    assert!(matches!(
        run.advance(ObserverReport::Replaced { registered: 3 }),
        Some(Ok(()))
    ));
    assert_eq!(run.watched, vec![1, 2]);
    run.advance(ObserverReport::Replace { elements: vec![3] });
    assert!(matches!(
        run.advance(ObserverReport::Replaced { registered: 0 }),
        Some(Err(_))
    ));
    assert_eq!(run.watched, vec![3]);
    run.advance(ObserverReport::Stop);
    assert_eq!(run.stage, ObserverStage::Done);
    assert!(run.failure.is_none());
    assert!(replacement_outcome(true, Some(Ok(()))).is_ok());
    assert_eq!(
        replacement_outcome(false, None).unwrap_err().message,
        "AX observer stopped before descendant registration"
    );
    assert_eq!(
        replacement_outcome(true, None).unwrap_err().message,
        "AX descendant registration exceeded its bounded deadline"
    );
}

#[test]
fn every_registered_name_is_mapped() {
    for name in target_notifications()
        .into_iter()
        .chain(application_notifications())
        .chain(descendant_notifications())
    {
        assert!(event_for_notification(name).is_some());
    }
    assert_eq!(descendant_notifications().len(), 10);
}

#[test]
fn a_required_completion_is_listed_beside_the_owed_one() {
    let mut journal = MacSignalJournal::new();
    let required = [SettlementSignal::DispatchComplete, SettlementSignal::FreshFrame];
    let dirty = DirtyState {
        observed_signals: set(&[SettlementSignal::DispatchStarted]),
        ..dirty(profile("dispatch", &required, 0))
    };
    journal.record(SettlementSignal::FreshFrame, 1);
    let relevant = set(&[SettlementSignal::FreshFrame]);
    let SettleStep::Pending(pending) = journal.settle(&dirty, &relevant, None, 5 * MS, 5 * MS)
    else {
        panic!("expected pending settlement");
    };
    assert_eq!(
        pending.missing_signals,
        vec![
            SettlementSignal::DispatchComplete,
            SettlementSignal::DispatchComplete
        ]
    );
}

#[test]
fn a_signal_set_holds_each_signal_once() {
    let mut signals = set(&[SettlementSignal::FreshFrame, SettlementSignal::AxAction]);
    signals.insert(SettlementSignal::FreshFrame);
    assert_eq!(
        signals.list(),
        vec![SettlementSignal::AxAction, SettlementSignal::FreshFrame]
    );
}

#[test]
fn the_order_of_arrival_does_not_show_in_the_evidence() {
    let required = [
        SettlementSignal::MenuDismissed,
        SettlementSignal::AxValueChanged,
        SettlementSignal::AxAction,
    ];
    let relevant = set(&[]);
    let mut listings = Vec::new();
    for arrivals in [
        [SettlementSignal::FreshFrame, SettlementSignal::AxAction],
        [SettlementSignal::AxAction, SettlementSignal::FreshFrame],
    ] {
        let mut journal = MacSignalJournal::new();
        for signal in arrivals {
            journal.record(signal, 1);
        }
        let dirty = dirty(profile("menu", &required, 0));
        let SettleStep::Pending(pending) = journal.settle(&dirty, &relevant, None, 5, 5) else {
            panic!("expected pending settlement");
        };
        listings.push((pending.observed_signals, pending.missing_signals));
    }
    assert_eq!(listings[0], listings[1]);
    assert_eq!(
        listings[0].0,
        vec![
            SettlementSignal::DispatchStarted,
            SettlementSignal::DispatchComplete,
            SettlementSignal::AxAction,
            SettlementSignal::FreshFrame
        ]
    );
    assert_eq!(
        listings[0].1,
        vec![
            SettlementSignal::AxValueChanged,
            SettlementSignal::MenuDismissed
        ]
    );
}

#[test]
fn a_target_that_may_disappear_is_looked_for_between_slices() {
    let pending = || {
        let journal = MacSignalJournal::new();
        let dirty = dirty(profile("menu", &[SettlementSignal::MenuDismissed], 0));
        journal.settle(&dirty, &set(&[]), None, 5, 5)
    };
    let mut run = TargetSettle::begin(true, 100 * MS);
    assert_eq!(run.stage, SettleStage::Probe);
    assert!(run.probed(Ok(()), 5 * MS).is_none());
    assert_eq!(run.stage, SettleStage::Settle { until: 25 * MS });
    run.settled(pending());
    assert_eq!(run.stage, SettleStage::Probe);
    assert!(run.probed(Ok(()), 90 * MS).is_none());
    assert_eq!(run.stage, SettleStage::Settle { until: 100 * MS });
    run.settled(pending());
    assert!(matches!(run.result, Some(Ok(SettleStep::Pending(_)))));

    let mut gone = TargetSettle::begin(true, 100 * MS);
    let missing = NativeError::stale(ErrorCode::WindowNotFound, "gone");
    assert_eq!(
        gone.probed(Err(missing), 5 * MS),
        Some(SettlementSignal::WindowListChanged)
    );
    assert_eq!(gone.stage, SettleStage::Settle { until: 100 * MS });

    let mut broken = TargetSettle::begin(true, 100 * MS);
    assert!(broken
        .probed(Err(NativeError::invalid("fixture")), 5 * MS)
        .is_none());
    assert!(matches!(broken.result, Some(Err(_))));

    let mut plain = TargetSettle::begin(false, 100 * MS);
    assert_eq!(plain.stage, SettleStage::Settle { until: 100 * MS });
    plain.settled(pending());
    assert_eq!(plain.stage, SettleStage::Done);
}
