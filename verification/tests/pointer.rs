use platform_macos::contracts::{
    ActionShape, ClickSpec, Modifier, MouseButton, ResolvedWindowStamp, Route, SettlementSignal,
};
use platform_macos::driver::actions::pointer::{
    begin_prepare, build_click, build_delta_scroll, build_drag, check_point_owner, cleanup_event,
    commit_first_post, ensure_dispatch_epoch, ensure_point_matches_target, ensure_same_drag_surface,
    ensure_sequence_fits_deadline, finish_dispatch, pointer_menu_step, prepare_point,
    prepare_sequence, revalidate_sequence_scope, revalidate_sequence_target,
    validate_integral_scroll_delta, wait_for_dismissed_menu, wait_for_opened_menu, wait_until,
    EventPoint, LiveOwner, NativePoint, PointBits, PointFacts, PointerDispatchEvidence, PointerMenuStep,
    PointerRun, PreparedMouseEvent, PreparedMouseEventKind, PreparedPointerEvent,
    PreparedSequence, ResolvedPoint, SurfaceOwner,
};
use platform_macos::driver::interaction::MenuMutationIntent;
use platform_macos::driver::menu::NativeMenuIdentity;
use platform_macos::driver::settlement::MacSignalJournal;
use platform_macos::driver::snapshot::AxBounds;
use platform_macos::errors::{ErrorCode, ErrorPhase, NativeError};
use platform_macos::evidence::{Detail, Fields};

const MS: u64 = 1_000_000;

fn stamp() -> ResolvedWindowStamp {
    ResolvedWindowStamp {
        app_id: "app".to_owned(),
        window_id: "window".to_owned(),
        generation: 1,
        geometry_revision: "geometry".to_owned(),
        native_window: "native".to_owned(),
        process: "process".to_owned(),
    }
}

fn menu_identity() -> NativeMenuIdentity {
    NativeMenuIdentity {
        process: "process".to_owned(),
        window: "native".to_owned(),
        generation: 1,
    }
}

fn bounds() -> AxBounds {
    AxBounds {
        x: 0,
        y: 0,
        width: 1_000,
        height: 1_000,
    }
}

fn point() -> NativePoint {
    NativePoint {
        screen: PointBits { x: 40, y: 50 },
        window_local: PointBits { x: 4, y: 5 },
        pid: 10,
        cg_window_id: 20,
        owner_bounds: bounds(),
        owner: stamp(),
        surface_id: "surface".to_owned(),
        capture_revision: "capture".to_owned(),
        geometry_revision: "geometry".to_owned(),
        observation_epoch: 0,
    }
}

fn as_mouse(event: &PreparedPointerEvent) -> &PreparedMouseEvent {
    match event {
        PreparedPointerEvent::Mouse(event) => event,
        PreparedPointerEvent::PixelScroll { .. } => panic!("expected a prepared mouse event"),
    }
}

#[test]
fn click_sequence_preserves_button_modifiers_and_incrementing_click_state() {
    let sequence = build_click(point(), MouseButton::Middle, 3, &vec![Modifier::Shift]);
    assert_eq!(sequence.events.len(), 6);
    let events: Vec<_> = sequence.events.iter().map(as_mouse).collect();
    assert_eq!(events[0].kind, PreparedMouseEventKind::Down);
    assert_eq!(events[1].kind, PreparedMouseEventKind::Up);
    assert_eq!(events[0].scheduled_after_ms, 0);
    assert_eq!(events[1].scheduled_after_ms, 100);
    assert!(events.iter().all(|event| {
        event.button == MouseButton::Middle && event.modifiers == [Modifier::Shift]
    }));
    assert_eq!(
        events
            .chunks_exact(2)
            .map(|pair| (pair[0].click_state, pair[1].click_state))
            .collect::<Vec<_>>(),
        vec![(1, 1), (2, 2), (3, 3)]
    );
}

#[test]
fn drag_sequence_contains_real_start_midpoint_and_destination_motion() {
    let sequence = build_drag(
        point(),
        point(),
        MouseButton::Right,
        &vec![Modifier::Alt],
        300,
    );
    let events: Vec<_> = sequence.events.iter().map(as_mouse).collect();
    assert_eq!(events.len(), 5);
    assert_eq!(
        events.iter().map(|event| event.kind).collect::<Vec<_>>(),
        vec![
            PreparedMouseEventKind::Down,
            PreparedMouseEventKind::Dragged,
            PreparedMouseEventKind::Dragged,
            PreparedMouseEventKind::Dragged,
            PreparedMouseEventKind::Up,
        ]
    );
    assert_eq!(events[2].at, EventPoint::Midpoint);
    assert_eq!(events[2].scheduled_after_ms, 150);
    assert_eq!(events[3].scheduled_after_ms, 300);
    assert_eq!(events[4].scheduled_after_ms, 300);
    assert!(events.iter().all(|event| {
        event.button == MouseButton::Right && event.modifiers == [Modifier::Alt]
    }));
}

fn describe(event: &PreparedPointerEvent) -> (PreparedMouseEventKind, usize) {
    let event = as_mouse(event);
    (event.kind, event.modifiers.len())
}

struct FakeSink {
    events: Vec<(PreparedMouseEventKind, usize)>,
    fail_at: usize,
    signal_after_first: bool,
    boundary_started: bool,
}

impl FakeSink {
    fn new(fail_at: usize, signal_after_first: bool) -> FakeSink {
        FakeSink {
            events: Vec::new(),
            fail_at,
            signal_after_first,
            boundary_started: false,
        }
    }

    fn post(
        &mut self,
        event: &PreparedPointerEvent,
        epoch: Option<(&MacSignalJournal, u64)>,
    ) -> Result<usize, NativeError> {
        let events = &mut self.events;
        let boundary = &mut self.boundary_started;
        let fail_at = self.fail_at;
        let mut post = || {
            *boundary = true;
            let index = events.len();
            events.push(describe(event));
            if index == fail_at {
                Err(NativeError::new(
                    ErrorCode::DispatchFailed,
                    ErrorPhase::Dispatch,
                    false,
                    "injected pointer post failure",
                ))
            } else {
                Ok(index)
            }
        };
        match epoch {
            Some((journal, expected)) => commit_first_post(journal, expected, post),
            None => post(),
        }
    }

    fn dispatch(
        &mut self,
        sequence: &PreparedSequence,
        journal: &mut MacSignalJournal,
        expected: u64,
    ) -> (PointerDispatchEvidence, Result<(), NativeError>) {
        let mut now = 0;
        let mut run = PointerRun::begin(now, 1_000 * MS, sequence);
        let mut failed = None;
        while let Some(index) = run.next(sequence) {
            match run.schedule(sequence, now) {
                Ok(wait) => now += wait,
                Err(error) => {
                    failed = Some(error);
                    break;
                }
            }
            let first = run.enter_post(sequence);
            let epoch = if first {
                Some((&*journal, expected))
            } else {
                None
            };
            match self.post(&sequence.events[index], epoch) {
                Ok(posted) => {
                    run.posted(sequence);
                    if posted == 0 && self.signal_after_first {
                        journal.record(SettlementSignal::FocusChanged, now);
                    }
                }
                Err(error) => {
                    failed = Some(error);
                    break;
                }
            }
        }
        if let Some(error) = failed {
            let plan = run.failure(self.boundary_started);
            let released = match plan.release {
                Some((button, at)) => self.post(&cleanup_event(button, at), None).is_ok(),
                None => false,
            };
            let reported = run.fail(plan, released, error);
            return (run.evidence, Err(reported));
        }
        run.finish(sequence);
        (run.evidence, Ok(()))
    }
}

#[test]
fn failed_up_posts_targeted_button_cleanup_without_cursor_warp() {
    let sequence = build_click(point(), MouseButton::Left, 1, &vec![]);
    let mut sink = FakeSink::new(1, false);
    let mut journal = MacSignalJournal::new();
    let expected = journal.epoch();
    let (evidence, outcome) = sink.dispatch(&sequence, &mut journal, expected);
    let error = outcome.unwrap_err();
    assert_eq!(error.code, ErrorCode::DispatchFailed);
    assert!(evidence.cleanup_attempted);
    assert!(evidence.cleanup_succeeded);
    assert!(evidence.modifiers_cleared);
    assert!(!evidence.hardware_cursor_warp_attempted);
    let (kind, modifiers) = *sink.events.last().unwrap();
    assert_eq!(kind, PreparedMouseEventKind::Up);
    assert_eq!(modifiers, 0);
    assert_eq!(sink.events.len(), 3);
    let cleanup = cleanup_event(MouseButton::Left, EventPoint::End);
    assert_eq!(cleanup.point(), EventPoint::End);
}

#[test]
fn advanced_observation_epoch_refuses_before_the_first_pointer_post() {
    let sequence = build_click(point(), MouseButton::Left, 1, &vec![]);
    let mut sink = FakeSink::new(usize::MAX, false);
    let mut journal = MacSignalJournal::new();
    let expected = journal.epoch();
    journal.record(SettlementSignal::FocusChanged, 0);
    let (evidence, outcome) = sink.dispatch(&sequence, &mut journal, expected);
    let error = outcome.unwrap_err();
    assert_eq!(error.code, ErrorCode::ObservationRaced);
    assert!(error.retryable);
    assert!(!sink.boundary_started);
    assert!(!evidence.cleanup_attempted);
    assert!(!evidence.may_have_partially_landed);
    assert!(sink.events.is_empty());
}

#[test]
fn signal_from_first_post_does_not_abort_the_owned_pointer_sequence() {
    let sequence = build_click(point(), MouseButton::Left, 1, &vec![]);
    let mut journal = MacSignalJournal::new();
    let mut sink = FakeSink::new(usize::MAX, true);
    let expected = journal.epoch();
    let (evidence, outcome) = sink.dispatch(&sequence, &mut journal, expected);
    outcome.unwrap();

    assert_eq!(journal.epoch(), expected + 1);
    assert_eq!(sink.events.len(), sequence.events.len());
    assert_eq!(evidence.completed_events, sequence.events.len());
}

#[test]
fn an_interrupted_drag_lets_the_button_go() {
    let sequence = build_drag(point(), point(), MouseButton::Left, &vec![], 100);
    let mut sink = FakeSink::new(2, false);
    let mut journal = MacSignalJournal::new();
    let (evidence, outcome) = sink.dispatch(&sequence, &mut journal, 0);
    assert!(outcome.is_err());
    assert_eq!(evidence.completed_events, 2);
    assert!(evidence.may_have_partially_landed);
    assert_eq!(
        sink.events.last().unwrap().0,
        PreparedMouseEventKind::Up
    );
    let mut fields = Fields::new();
    evidence.merge_into(&mut fields);
    assert!(matches!(
        fields.get("pointer_cleanup_attempted"),
        Some(Detail::Bool(true))
    ));
    assert!(matches!(
        fields.get("hardware_cursor_warp_attempted"),
        Some(Detail::Bool(false))
    ));
    assert!(!evidence.poisons_target());
}

#[test]
fn sequences_have_to_end_before_their_deadline() {
    let sequence = build_click(point(), MouseButton::Left, 1, &vec![]);
    assert!(ensure_sequence_fits_deadline(&sequence, 0, 100 * MS).is_ok());
    let late = ensure_sequence_fits_deadline(&sequence, 1, 100 * MS).unwrap_err();
    assert_eq!(late.code, ErrorCode::DispatchFailed);
    assert!(late.retryable);
    let never = ensure_sequence_fits_deadline(&sequence, u64::MAX, u64::MAX).unwrap_err();
    assert!(!never.retryable);
    assert!(prepare_sequence(sequence, "click", 0, 100 * MS).is_ok());
    assert_eq!(wait_until(50, 20, 60).unwrap(), 30);
    assert_eq!(wait_until(10, 20, 60).unwrap(), 0);
    assert!(wait_until(70, 20, 60).is_err());
    assert!(wait_until(10, 61, 60).is_err());
}

fn resolved(owner: SurfaceOwner) -> ResolvedPoint {
    ResolvedPoint {
        window: stamp(),
        geometry_revision: "geometry".to_owned(),
        surface_owner: owner,
        surface_id: "surface".to_owned(),
        capture_revision: "capture".to_owned(),
        observation_epoch: Some(4),
        transform_agrees: true,
    }
}

fn point_facts() -> PointFacts {
    PointFacts {
        screen: PointBits { x: 40, y: 50 },
        window_local: PointBits { x: 4, y: 5 },
        stamp: stamp(),
        pid: 10,
        cg_window_id: 20,
        bounds: bounds(),
        contains_point: true,
        reproduces_point: true,
    }
}

#[test]
fn points_stay_on_the_surface_they_were_observed_on() {
    let target = stamp();
    let moved = ResolvedWindowStamp {
        geometry_revision: "later".to_owned(),
        ..stamp()
    };
    let on_target = resolved(SurfaceOwner::Target(stamp()));
    assert!(ensure_point_matches_target(&target, &stamp(), &on_target).is_ok());
    assert!(check_point_owner(&target, &stamp(), &on_target).is_ok());
    assert!(ensure_point_matches_target(&moved, &stamp(), &on_target).is_err());
    let native = prepare_point(&on_target, &point_facts()).unwrap();
    assert_eq!(native.observation_epoch, 4);
    assert_eq!(native.pid, 10);
    assert_eq!(native.window_local, PointBits { x: 4, y: 5 });
    let mut outside = point_facts();
    outside.contains_point = false;
    assert_eq!(
        prepare_point(&on_target, &outside).unwrap_err().code,
        ErrorCode::SurfaceStale
    );
    let mut unobserved = resolved(SurfaceOwner::Target(stamp()));
    unobserved.observation_epoch = None;
    assert!(prepare_point(&unobserved, &point_facts()).is_err());
    assert!(ensure_same_drag_surface(&point(), &point()).is_ok());
    let elsewhere = NativePoint {
        surface_id: "other".to_owned(),
        ..point()
    };
    assert!(ensure_same_drag_surface(&point(), &elsewhere).is_err());
    let further = NativePoint {
        screen: PointBits { x: 41, y: 51 },
        ..point()
    };
    assert!(ensure_same_drag_surface(&point(), &further).is_ok());
}

#[test]
fn a_prepared_sequence_is_validated_again_before_dispatch() {
    let down = (-120.0_f64).to_bits() as i64;
    let sequence = build_delta_scroll(point(), 0.0_f64.to_bits() as i64, down);
    assert!(ensure_dispatch_epoch(false, &stamp(), &stamp(), 0, &sequence).is_ok());
    assert!(ensure_dispatch_epoch(true, &stamp(), &stamp(), 0, &sequence).is_err());
    let raced = ensure_dispatch_epoch(false, &stamp(), &stamp(), 1, &sequence).unwrap_err();
    assert_eq!(raced.code, ErrorCode::ObservationRaced);
    assert!(revalidate_sequence_scope(&stamp(), &stamp(), &stamp(), &sequence).is_ok());
    let owner = LiveOwner {
        pid: 10,
        cg_window_id: 20,
        bounds: bounds(),
        stamp: stamp(),
    };
    assert!(revalidate_sequence_target(&sequence, &owner, true).is_ok());
    assert!(revalidate_sequence_target(&sequence, &owner, false).is_err());
    let moved = LiveOwner {
        bounds: AxBounds { x: 5, ..bounds() },
        ..owner
    };
    assert!(revalidate_sequence_target(&sequence, &moved, true).is_err());
    let (dispatch, signal) = finish_dispatch(&sequence, "scroll");
    assert_eq!(signal, SettlementSignal::PointerSequenceComplete);
    let real = |name: &str| match dispatch.fields.get(name) {
        Some(Detail::Real(bits)) => f64::from_bits(*bits as u64),
        other => panic!("unexpected detail {other:?}"),
    };
    assert_eq!(real("scroll_requested_delta_y"), -120.0);
    assert_eq!(real("scroll_posted_delta_y"), 120.0);
    assert!(real("scroll_posted_delta_x").is_sign_negative());
    assert!(matches!(
        dispatch.fields.get("pointer_screen_x"),
        Some(Detail::Real(40))
    ));
    assert!(matches!(
        dispatch.fields.get("pointer_window_y"),
        Some(Detail::Real(5))
    ));
}

#[test]
fn pointer_requests_are_checked_before_anything_is_prepared() {
    let click = ActionShape::PointClick {
        spec: ClickSpec {
            button: MouseButton::Left,
            click_count: 1,
            modifiers: vec![],
        },
    };
    assert!(begin_prepare(false, Route::TargetedPointer, &click, true).is_ok());
    assert!(begin_prepare(true, Route::TargetedPointer, &click, true).is_err());
    assert!(begin_prepare(false, Route::Semantic, &click, true).is_err());
    assert_eq!(
        begin_prepare(false, Route::TargetedPointer, &ActionShape::TypeText, true)
            .unwrap_err()
            .code,
        ErrorCode::Internal
    );
    assert_eq!(validate_integral_scroll_delta(Some(-3), "delta_y").unwrap(), -3);
    assert!(validate_integral_scroll_delta(None, "delta_y").is_err());
    assert_eq!(pointer_menu_step(&None), PointerMenuStep::Nothing);
    let opening = Some(MenuMutationIntent::Opening {
        menu_id: "menu".to_owned(),
    });
    assert_eq!(pointer_menu_step(&opening), PointerMenuStep::WaitForOpened);
    let dismissing = Some(MenuMutationIntent::Dismissing {
        menu_id: "menu".to_owned(),
        identity: menu_identity(),
    });
    assert_eq!(
        pointer_menu_step(&dismissing),
        PointerMenuStep::WaitForDismissed
    );
    assert!(wait_for_opened_menu(true, 0, 10).unwrap());
    assert!(!wait_for_opened_menu(false, 0, 10).unwrap());
    assert!(wait_for_opened_menu(false, 10, 10).is_err());
    assert!(wait_for_dismissed_menu(false, 0, 10).unwrap());
    assert!(!wait_for_dismissed_menu(true, 0, 10).unwrap());
    assert!(wait_for_dismissed_menu(true, 10, 10).is_err());
}
