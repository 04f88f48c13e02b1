use platform_macos::ax::bindings::{
    AxCfRange, AX_ERROR_ATTRIBUTE_UNSUPPORTED, AX_ERROR_FAILURE, AX_ERROR_SUCCESS,
};
use platform_macos::ax::minimized_recovery::{
    RecoveryCandidate, RecoveryEvent, RecoveryReadback, RecoveryReport, RecoveryRun, RecoveryStage, ServerWindow,
};
use platform_macos::contracts::{
    MouseButton, ResolvedWindowStamp, Route, ScrollDirection, SettlementSignal, SurfaceKind,
    VerificationLevel, WindowStateKind,
};
use platform_macos::driver::actions::keyboard::{
    ExpectedInsertion, MacApplicationKeyboardTarget, MacKeyboardEventTarget,
    MacPreparedKeyboardAction, TargetedKeyEventKind,
};
use platform_macos::driver::actions::keyboard_dispatch::{
    KeyboardDispatch, KeyboardEvent, KeyboardStage,
};
use platform_macos::driver::actions::pointer::{
    build_click, build_drag, EventPoint, MacPreparedPointerAction, NativePoint, PointBits,
    SurfaceOwner,
};
use platform_macos::driver::actions::pointer_dispatch::{
    PointerDispatch, PointerEvent, PointerStage,
};
use platform_macos::driver::actions::semantic::{
    admit_element, prepare_element, prepare_page_scroll, AxOpenVerification,
    MacPreparedSemanticAction, MenuOutcome, PageRoute, PreparedKind, ResolvedElement,
    SemanticRequest,
};
use platform_macos::driver::actions::semantic_dispatch::{
    SemanticDispatch, SemanticEvent, SemanticStage,
};
use platform_macos::driver::attempt::{
    AttemptEvent, AttemptStage, CapturedSurface, ObservationAttempt, Publication,
};
use platform_macos::driver::elements::{
    MacElementRegistry, RegisteredElement, RegisteredElementSnapshot,
};
use platform_macos::driver::focus::{FocusEvent, FocusStage, TargetFocusRun};
use platform_macos::driver::frames::{
    CaptureFreshness, ContentFacts, FrameStatus, ScaleFacts, WindowFrameEvidence,
    WindowFrameMetadata, WindowFrameSample,
};
use platform_macos::driver::interaction::MenuMutationIntent;
use platform_macos::driver::menu::NativeMenuIdentity;
use platform_macos::driver::observation::{
    AttemptError, BackingScale, MacWindowFacts, ResolvedWindow,
};
use platform_macos::driver::snapshot::{
    AxBounds, RawAxNode, RawAxSnapshot, RawRelatedWindow, RetainedAxElement,
};
use platform_macos::driver::target::{MacFocusState, MacTargetState};
use platform_macos::errors::{ErrorCode, ErrorPhase, NativeError};
use platform_macos::evidence::Detail;

const MS: u64 = 1_000_000;

fn stamp() -> ResolvedWindowStamp {
    ResolvedWindowStamp {
        app_id: "app".to_owned(),
        window_id: "window".to_owned(),
        generation: 1,
        geometry_revision: "geometry".to_owned(),
        native_window: "native".to_owned(),
        process: "process".to_owned(),
    }
}

fn other_stamp() -> ResolvedWindowStamp {
    ResolvedWindowStamp {
        native_window: "replacement".to_owned(),
        ..stamp()
    }
}

fn element(identity: u64) -> RetainedAxElement {
    RetainedAxElement {
        address: 1_000 + identity as usize,
        identity,
    }
}

fn state(identity: u64, actions: &[&str]) -> RegisteredElementSnapshot {
    RegisteredElementSnapshot {
        element: element(identity),
        parent: None,
        owner: stamp(),
        owner_window_id: 20,
        role: "AXTextField".to_owned(),
        role_proven: true,
        subrole: None,
        orientation: None,
        label: None,
        value_proof: Some(1),
        value_query_proven: true,
        string_value: Some("ab".to_owned()),
        value_settable: Some(true),
        selected_text_range: Some(AxCfRange {
            location: 2,
            length: 0,
        }),
        selected_text_range_settable: Some(true),
        selected_text_settable: Some(true),
        actions: actions.iter().map(|name| name.to_string()).collect(),
        actions_proven: true,
    }
}

fn menu_identity(window: &str) -> NativeMenuIdentity {
    NativeMenuIdentity {
        process: "process".to_owned(),
        window: window.to_owned(),
        generation: 1,
    }
}

fn refusal() -> NativeError {
    NativeError::invalid("fixture")
}

fn started(kind: PreparedKind, intent: Option<MenuMutationIntent>) -> SemanticDispatch {
    SemanticDispatch::begin(
        MacPreparedSemanticAction {
            kind,
            signal_epoch: 4,
        },
        false,
        &stamp(),
        &stamp(),
        &stamp(),
        4,
        intent,
        100 * MS,
    )
    .unwrap()
}

fn enter_boundary(run: &mut SemanticDispatch) {
    assert_eq!(run.stage, SemanticStage::Boundary);
    run.advance(SemanticEvent::BoundaryEntered(Ok(())));
    assert_eq!(run.stage, SemanticStage::Native);
}

fn to_native(run: &mut SemanticDispatch) {
    assert_eq!(run.stage, SemanticStage::Refetch);
    run.advance(SemanticEvent::Refetched {
        element: Ok(element(3)),
        epoch: 4,
    });
    enter_boundary(run);
}

fn press(opens_menu: bool, open_verification: Option<AxOpenVerification>) -> PreparedKind {
    PreparedKind::AxAction {
        element: state(3, &["AXPress"]),
        action: "AXPress".to_owned(),
        primitive: "macos_ax_press",
        opens_menu,
        open_verification,
    }
}

#[test]
fn a_semantic_action_is_performed_behind_its_checks() {
    let stale = SemanticDispatch::begin(
        MacPreparedSemanticAction {
            kind: press(false, None),
            signal_epoch: 4,
        },
        false,
        &stamp(),
        &stamp(),
        &other_stamp(),
        4,
        None,
        100 * MS,
    )
    .unwrap_err();
    assert_eq!(stale.code, ErrorCode::WindowIdentityChanged);
    let raced = SemanticDispatch::begin(
        MacPreparedSemanticAction {
            kind: press(false, None),
            signal_epoch: 4,
        },
        false,
        &stamp(),
        &stamp(),
        &stamp(),
        5,
        None,
        100 * MS,
    )
    .unwrap_err();
    assert_eq!(raced.code, ErrorCode::ObservationRaced);

    let mut run = started(press(false, None), None);
    run.advance(SemanticEvent::Performed {
        status: AX_ERROR_SUCCESS,
    });
    assert_eq!(run.stage, SemanticStage::Refetch);
    to_native(&mut run);
    let signals = run.advance(SemanticEvent::Performed {
        status: AX_ERROR_SUCCESS,
    });
    assert_eq!(signals, vec![SettlementSignal::AxAction]);
    assert_eq!(run.stage, SemanticStage::Done);
    assert_eq!(
        run.result.as_ref().unwrap().as_ref().unwrap().verification,
        VerificationLevel::DispatchVerified
    );
    let after = run.advance(SemanticEvent::BoundaryEntered(Err(refusal())));
    assert!(after.is_empty());
    assert!(matches!(run.result, Some(Ok(_))));

    let mut failed = started(press(false, None), None);
    to_native(&mut failed);
    let signals = failed.advance(SemanticEvent::Performed {
        status: AX_ERROR_FAILURE,
    });
    assert!(signals.is_empty());
    assert_eq!(
        failed.result.unwrap().unwrap_err().code,
        ErrorCode::DispatchFailed
    );

    let mut raced = started(press(false, None), None);
    raced.advance(SemanticEvent::Refetched {
        element: Ok(element(3)),
        epoch: 5,
    });
    assert_eq!(
        raced.result.unwrap().unwrap_err().code,
        ErrorCode::ObservationRaced
    );
}

#[test]
fn a_page_scroll_enters_the_boundary_for_each_page() {
    let kind = PreparedKind::PageScroll {
        route: PageRoute {
            element: state(1, &["AXPageDown"]),
            action: "AXPageDown",
            scrollbar_child: false,
        },
        direction: ScrollDirection::Down,
        pages: 2,
    };
    let mut run = started(kind, None);
    to_native(&mut run);
    let signals = run.advance(SemanticEvent::Performed {
        status: AX_ERROR_SUCCESS,
    });
    assert_eq!(signals, vec![SettlementSignal::AxAction]);
    assert_eq!(run.completed, 1);
    assert!(run.result.is_none());
    enter_boundary(&mut run);
    run.advance(SemanticEvent::Performed {
        status: AX_ERROR_SUCCESS,
    });
    assert_eq!(run.completed, 2);
    assert!(matches!(run.result, Some(Ok(_))));
    assert!(matches!(
        run.scope_fields.get("semantic_scroll_completed_pages"),
        Some(Detail::Int(2))
    ));
}

#[test]
fn a_page_that_fails_reports_the_pages_before_it() {
    let kind = PreparedKind::PageScroll {
        route: PageRoute {
            element: state(1, &["AXPageDown"]),
            action: "AXPageDown",
            scrollbar_child: false,
        },
        direction: ScrollDirection::Down,
        pages: 3,
    };
    assert_eq!(kind.element().element, state(1, &[]).element);
    let mut run = started(kind, None);
    to_native(&mut run);
    run.advance(SemanticEvent::Performed {
        status: AX_ERROR_SUCCESS,
    });
    enter_boundary(&mut run);
    run.advance(SemanticEvent::Performed {
        status: AX_ERROR_FAILURE,
    });
    let error = run.result.unwrap().unwrap_err();
    assert_eq!(error.code, ErrorCode::DispatchFailed);
    assert!(matches!(
        error.details.get("completed_pages"),
        Some(Detail::Int(1))
    ));
    assert!(matches!(
        run.scope_fields.get("semantic_scroll_completed_pages"),
        Some(Detail::Int(1))
    ));
}

#[test]
fn a_written_value_counts_once_it_is_read_back() {
    let kind = || PreparedKind::SetValue {
        element: state(3, &[]),
        value: "new".to_owned(),
    };
    let mut run = started(kind(), None);
    to_native(&mut run);
    let signals = run.advance(SemanticEvent::ValueWritten {
        status: AX_ERROR_SUCCESS,
        readback: Ok(Some("new".to_owned())),
    });
    assert_eq!(
        signals,
        vec![SettlementSignal::VerificationReadbackComplete]
    );
    assert_eq!(
        run.result.unwrap().unwrap().verification,
        VerificationLevel::EffectVerified
    );
    let mut unread = started(kind(), None);
    to_native(&mut unread);
    unread.advance(SemanticEvent::ValueWritten {
        status: AX_ERROR_SUCCESS,
        readback: Ok(Some("old".to_owned())),
    });
    assert_eq!(
        unread.result.unwrap().unwrap_err().code,
        ErrorCode::VerificationFailed
    );

    let mut selected = started(
        PreparedKind::SelectText {
            element: state(3, &[]),
            range: AxCfRange {
                location: 0,
                length: 1,
            },
            expected_text: "a".to_owned(),
        },
        None,
    );
    to_native(&mut selected);
    selected.advance(SemanticEvent::SelectionWritten {
        status: AX_ERROR_SUCCESS,
        range: Ok(Some(AxCfRange {
            location: 0,
            length: 1,
        })),
        text: Ok(Some("a".to_owned())),
    });
    assert!(matches!(selected.result, Some(Ok(_))));
}

#[test]
fn a_failed_open_is_proved_by_the_title() {
    let opening = || AxOpenVerification {
        pid: 10,
        owner_window_id: 20,
        prior_title: "before".to_owned(),
        expected_title: "after".to_owned(),
    };
    let mut run = started(press(false, Some(opening())), None);
    to_native(&mut run);
    run.advance(SemanticEvent::Performed {
        status: AX_ERROR_ATTRIBUTE_UNSUPPORTED,
    });
    assert_eq!(
        run.stage,
        SemanticStage::OpenTitle {
            status: AX_ERROR_ATTRIBUTE_UNSUPPORTED,
            attempts: 0
        }
    );
    run.advance(SemanticEvent::Title {
        title: Some("before".to_owned()),
        now: 1,
    });
    let signals = run.advance(SemanticEvent::Title {
        title: Some("after".to_owned()),
        now: 2,
    });
    assert_eq!(
        signals,
        vec![
            SettlementSignal::AxAction,
            SettlementSignal::VerificationReadbackComplete
        ]
    );
    assert_eq!(
        run.result.unwrap().unwrap().verification,
        VerificationLevel::EffectVerified
    );
    let mut late = started(press(false, Some(opening())), None);
    to_native(&mut late);
    late.advance(SemanticEvent::Performed {
        status: AX_ERROR_ATTRIBUTE_UNSUPPORTED,
    });
    late.advance(SemanticEvent::Title {
        title: None,
        now: 100 * MS,
    });
    assert!(matches!(late.result, Some(Err(_))));
}

#[test]
fn a_semantic_menu_action_looks_after_its_menu() {
    let opening = || {
        Some(MenuMutationIntent::Opening {
            menu_id: "menu".to_owned(),
        })
    };
    let mut run = started(press(true, None), opening());
    to_native(&mut run);
    run.advance(SemanticEvent::Performed {
        status: AX_ERROR_SUCCESS,
    });
    assert_eq!(run.stage, SemanticStage::Arm);
    run.advance(SemanticEvent::Armed(Ok(())));
    assert_eq!(run.stage, SemanticStage::OpenedMenu);
    run.advance(SemanticEvent::MenuLooked {
        found: Ok(None),
        now: 1,
    });
    assert!(run.result.is_none());
    let signals = run.advance(SemanticEvent::MenuLooked {
        found: Ok(Some(menu_identity("menu"))),
        now: 2,
    });
    assert_eq!(signals, vec![SettlementSignal::MenuOpened]);
    let (outcome, identity) = run.menu.unwrap();
    assert_eq!(outcome, MenuOutcome::Opened);
    assert_eq!(identity.window, "menu");
    assert!(matches!(run.result, Some(Ok(_))));

    let mut unarmed = started(press(true, None), opening());
    to_native(&mut unarmed);
    unarmed.advance(SemanticEvent::Performed {
        status: AX_ERROR_SUCCESS,
    });
    unarmed.advance(SemanticEvent::Armed(Err(refusal())));
    assert!(unarmed.invalidates_target);
    let error = unarmed.result.unwrap().unwrap_err();
    assert!(matches!(
        error.details.get("native_side_effect_started"),
        Some(Detail::Bool(true))
    ));

    let mut targeted = started(
        press(false, None),
        Some(MenuMutationIntent::Targeting {
            menu_id: "menu".to_owned(),
            identity: menu_identity("menu"),
        }),
    );
    to_native(&mut targeted);
    targeted.advance(SemanticEvent::Performed {
        status: AX_ERROR_SUCCESS,
    });
    targeted.advance(SemanticEvent::Armed(Ok(())));
    assert_eq!(targeted.stage, SemanticStage::MenuReaction);
    let signals = targeted.advance(SemanticEvent::MenuLooked {
        found: Ok(None),
        now: 1,
    });
    assert_eq!(signals, vec![SettlementSignal::MenuDismissed]);
    assert_eq!(targeted.menu.unwrap().0, MenuOutcome::Dismissed);

    let mut timed_out = started(press(true, None), opening());
    to_native(&mut timed_out);
    timed_out.advance(SemanticEvent::Performed {
        status: AX_ERROR_SUCCESS,
    });
    timed_out.advance(SemanticEvent::Armed(Ok(())));
    timed_out.advance(SemanticEvent::MenuLooked {
        found: Ok(None),
        now: 100 * MS,
    });
    assert_eq!(
        timed_out.result.unwrap().unwrap_err().code,
        ErrorCode::MenuStateStale
    );
}

#[test]
fn elements_are_admitted_and_prepared_exactly() {
    let mut registry = MacElementRegistry::new();
    registry.elements.push(RegisteredElement {
        id: "element".to_owned(),
        native: "handle".to_owned(),
        state: state(3, &["AXPress"]),
    });
    let asked = ResolvedElement {
        window: stamp(),
        owner: stamp(),
        native: "handle".to_owned(),
        element_id: "element".to_owned(),
        role: Some("AXTextField".to_owned()),
        actions: vec!["AXPress".to_owned()],
    };
    let found = admit_element(
        &registry,
        false,
        &stamp(),
        Route::Semantic,
        &stamp(),
        &stamp(),
        &asked,
    )
    .unwrap();
    assert_eq!(found.element.identity, 3);
    assert!(admit_element(
        &registry,
        false,
        &stamp(),
        Route::TargetedPointer,
        &stamp(),
        &stamp(),
        &asked,
    )
    .is_err());
    let prepared = prepare_element(
        SemanticRequest::Secondary {
            action: "AXPress".to_owned(),
        },
        found,
        Ok(element(3)),
        None,
        9,
    )
    .unwrap();
    assert_eq!(prepared.signal_epoch, 9);
    assert!(matches!(prepared.kind, PreparedKind::AxAction { .. }));
    let lost = prepare_element(
        SemanticRequest::SetValue {
            value: "x".to_owned(),
        },
        state(3, &[]),
        Err(NativeError::stale(ErrorCode::ElementStale, "gone")),
        None,
        9,
    )
    .unwrap_err();
    assert_eq!(lost.code, ErrorCode::ElementStale);
    let scroll = prepare_page_scroll(
        PageRoute {
            element: state(1, &["AXPageDown"]),
            action: "AXPageDown",
            scrollbar_child: false,
        },
        ScrollDirection::Down,
        3,
        Ok(element(1)),
        9,
    )
    .unwrap();
    let PreparedKind::PageScroll { pages, .. } = scroll.kind else {
        panic!("expected a page scroll");
    };
    assert_eq!(pages, 3);
}

fn key_target() -> MacKeyboardEventTarget {
    MacKeyboardEventTarget {
        application_pid: 41,
        dispatch_pid: 42,
        element: element(3),
        snapshot: state(3, &[]),
        ax_revision: "revision".to_owned(),
        observation_id: "observation".to_owned(),
        signal_epoch: 4,
    }
}

fn chord_kinds() -> Vec<TargetedKeyEventKind> {
    vec![TargetedKeyEventKind::KeyDown, TargetedKeyEventKind::KeyUp]
}

#[test]
fn a_chord_focuses_its_field_before_it_is_posted() {
    let mut run = KeyboardDispatch::begin(
        MacPreparedKeyboardAction::FocusedChord {
            target: key_target(),
        },
        100 * MS,
    );
    run.advance(KeyboardEvent::Posted);
    assert_eq!(run.stage, KeyboardStage::Validate);
    run.advance(KeyboardEvent::Validated(Ok(())));
    run.advance(KeyboardEvent::SequenceBuilt {
        kinds: Ok(chord_kinds()),
        now: 1,
    });
    assert_eq!(run.stage, KeyboardStage::FieldFocus);
    run.advance(KeyboardEvent::FieldFocused(Ok(Some(false))));
    run.advance(KeyboardEvent::FieldSettable(Ok(true)));
    assert!(!run.started);
    run.advance(KeyboardEvent::BoundaryEntered(Ok(())));
    assert!(run.started);
    assert_eq!(run.stage, KeyboardStage::FieldWrite);
    run.advance(KeyboardEvent::FieldWritten {
        status: AX_ERROR_SUCCESS,
        restored: Ok(Some(true)),
    });
    assert_eq!(run.stage, KeyboardStage::PostBoundary);
    run.advance(KeyboardEvent::BoundaryEntered(Ok(())));
    let signal = run.advance(KeyboardEvent::Posted);
    assert!(signal.is_none());
    let dispatch = run.result.unwrap().unwrap();
    assert_eq!(dispatch.verification, VerificationLevel::DispatchUnverified);

    let mut fixed = KeyboardDispatch::begin(
        MacPreparedKeyboardAction::FocusedChord {
            target: key_target(),
        },
        100 * MS,
    );
    fixed.advance(KeyboardEvent::Validated(Ok(())));
    fixed.advance(KeyboardEvent::SequenceBuilt {
        kinds: Ok(chord_kinds()),
        now: 1,
    });
    fixed.advance(KeyboardEvent::FieldFocused(Ok(Some(false))));
    fixed.advance(KeyboardEvent::FieldSettable(Ok(false)));
    assert_eq!(
        fixed.result.unwrap().unwrap_err().code,
        ErrorCode::UnsupportedInBackground
    );
}

#[test]
fn an_application_chord_needs_no_field() {
    let mut run = KeyboardDispatch::begin(
        MacPreparedKeyboardAction::ApplicationChord {
            application: MacApplicationKeyboardTarget {
                application_pid: 41,
                cg_window_id: 20,
                ax_revision: "revision".to_owned(),
                observation_id: "observation".to_owned(),
                signal_epoch: 4,
            },
        },
        100 * MS,
    );
    run.advance(KeyboardEvent::Validated(Ok(())));
    run.advance(KeyboardEvent::SequenceBuilt {
        kinds: Ok(chord_kinds()),
        now: 1,
    });
    assert_eq!(run.stage, KeyboardStage::PostBoundary);
    run.advance(KeyboardEvent::BoundaryEntered(Err(refusal())));
    assert!(!run.started);
    assert_eq!(run.result.unwrap().unwrap_err().message, "fixture");
}

fn expected() -> ExpectedInsertion {
    ExpectedInsertion {
        value: "abc".to_owned(),
        selection: AxCfRange {
            location: 3,
            length: 0,
        },
    }
}

#[test]
fn typed_text_is_read_back_without_a_negative_acknowledgement() {
    let begin = || {
        KeyboardDispatch::begin(
            MacPreparedKeyboardAction::UnicodeInsertion {
                target: key_target(),
                text: "c".to_owned(),
                readback: Some(expected()),
            },
            100 * MS,
        )
    };
    let mut run = begin();
    run.advance(KeyboardEvent::Validated(Ok(())));
    assert_eq!(run.stage, KeyboardStage::FieldFocus);
    run.advance(KeyboardEvent::FieldFocused(Ok(Some(true))));
    run.advance(KeyboardEvent::SequenceBuilt {
        kinds: Ok(vec![
            TargetedKeyEventKind::UnicodeDown,
            TargetedKeyEventKind::UnicodeUp,
        ]),
        now: 1,
    });
    run.advance(KeyboardEvent::BoundaryEntered(Ok(())));
    run.advance(KeyboardEvent::Posted);
    assert_eq!(run.stage, KeyboardStage::ReadBack);
    let signal = run.advance(KeyboardEvent::ReadBack {
        value: Ok(Some("ab".to_owned())),
        selection: Ok(None),
    });
    assert_eq!(
        signal,
        Some(SettlementSignal::VerificationReadbackComplete)
    );
    assert!(matches!(run.result, Some(Ok(_))));
    assert!(run.advance(KeyboardEvent::Posted).is_none());
    assert!(matches!(run.result, Some(Ok(_))));

    let mut late = begin();
    late.advance(KeyboardEvent::Validated(Ok(())));
    late.advance(KeyboardEvent::FieldFocused(Ok(Some(true))));
    late.advance(KeyboardEvent::SequenceBuilt {
        kinds: Ok(Vec::new()),
        now: 100 * MS,
    });
    assert!(matches!(late.result, Some(Err(_))));
}

#[test]
fn an_exact_insertion_succeeds_with_its_readback_alone() {
    let begin = || {
        KeyboardDispatch::begin(
            MacPreparedKeyboardAction::SemanticInsertion {
                target: key_target(),
                text: "c".to_owned(),
                expected: expected(),
            },
            100 * MS,
        )
    };
    let mut run = begin();
    run.advance(KeyboardEvent::Validated(Ok(())));
    run.advance(KeyboardEvent::BoundaryEntered(Ok(())));
    run.advance(KeyboardEvent::TextWritten {
        status: AX_ERROR_SUCCESS,
    });
    assert!(run.result.is_none());
    let signal = run.advance(KeyboardEvent::ReadBack {
        value: Ok(Some("abc".to_owned())),
        selection: Ok(Some(expected().selection)),
    });
    assert!(signal.is_some());
    assert_eq!(
        run.result.unwrap().unwrap().verification,
        VerificationLevel::EffectVerified
    );

    let mut wrong = begin();
    wrong.advance(KeyboardEvent::Validated(Ok(())));
    wrong.advance(KeyboardEvent::BoundaryEntered(Ok(())));
    wrong.advance(KeyboardEvent::TextWritten {
        status: AX_ERROR_SUCCESS,
    });
    wrong.advance(KeyboardEvent::ReadBack {
        value: Ok(Some("ab".to_owned())),
        selection: Ok(Some(expected().selection)),
    });
    let error = wrong.result.unwrap().unwrap_err();
    assert_eq!(error.code, ErrorCode::VerificationFailed);
    assert_eq!(error.phase, ErrorPhase::Verify);

    let mut refused = begin();
    refused.advance(KeyboardEvent::Validated(Ok(())));
    refused.advance(KeyboardEvent::BoundaryEntered(Ok(())));
    refused.advance(KeyboardEvent::TextWritten {
        status: AX_ERROR_FAILURE,
    });
    assert_eq!(
        refused.result.unwrap().unwrap_err().code,
        ErrorCode::DispatchFailed
    );
}

fn point() -> NativePoint {
    NativePoint {
        screen: PointBits { x: 40, y: 50 },
        window_local: PointBits { x: 4, y: 5 },
        pid: 10,
        cg_window_id: 20,
        owner_bounds: AxBounds {
            x: 0,
            y: 0,
            width: 1_000,
            height: 1_000,
        },
        owner: stamp(),
        surface_id: "surface".to_owned(),
        capture_revision: "capture".to_owned(),
        geometry_revision: "geometry".to_owned(),
        observation_epoch: 0,
    }
}

fn pointer(intent: Option<MenuMutationIntent>) -> PointerDispatch {
    PointerDispatch::begin(
        MacPreparedPointerAction {
            sequence: build_click(point(), MouseButton::Left, 1, &Vec::new()),
            route_name: "targeted_click",
        },
        false,
        &stamp(),
        &stamp(),
        intent,
        1_000 * MS,
    )
    .unwrap()
}

fn post_all(run: &mut PointerDispatch) -> Vec<SettlementSignal> {
    let mut signals = run.advance(PointerEvent::Validated {
        outcome: Ok(()),
        now: 0,
    });
    let mut now: u64 = 0;
    while run.stage == PointerStage::Schedule {
        run.advance(PointerEvent::Clock { now });
        let PointerStage::Post { wait } = run.stage else {
            panic!("expected an event to post");
        };
        now += wait;
        signals = run.advance(PointerEvent::Posted {
            outcome: Ok(()),
            boundary_started: true,
        });
    }
    signals
}

#[test]
fn a_pointer_sequence_is_posted_on_schedule() {
    let mut run = pointer(None);
    run.advance(PointerEvent::Validated {
        outcome: Ok(()),
        now: 5,
    });
    run.advance(PointerEvent::Clock { now: 5 });
    assert_eq!(run.stage, PointerStage::Post { wait: 0 });
    run.advance(PointerEvent::Posted {
        outcome: Ok(()),
        boundary_started: true,
    });
    run.advance(PointerEvent::Clock { now: 5 });
    assert_eq!(run.stage, PointerStage::Post { wait: 100 * MS });
    let signals = run.advance(PointerEvent::Posted {
        outcome: Ok(()),
        boundary_started: true,
    });
    assert_eq!(signals, vec![SettlementSignal::PointerSequenceComplete]);
    assert_eq!(run.cursor, Some(EventPoint::End));
    assert!(matches!(run.result, Some(Ok(_))));
    assert!(run.advance(PointerEvent::Clock { now: 6 }).is_empty());
    assert!(matches!(run.result, Some(Ok(_))));

    let stale = PointerDispatch::begin(
        MacPreparedPointerAction {
            sequence: build_click(point(), MouseButton::Left, 1, &Vec::new()),
            route_name: "targeted_click",
        },
        false,
        &stamp(),
        &other_stamp(),
        None,
        0,
    )
    .unwrap_err();
    assert_eq!(stale.code, ErrorCode::WindowIdentityChanged);
}

#[test]
fn a_broken_drag_lets_its_button_go() {
    let begin = || {
        let mut run = PointerDispatch::begin(
            MacPreparedPointerAction {
                sequence: build_drag(point(), point(), MouseButton::Right, &Vec::new(), 300),
                route_name: "targeted_drag",
            },
            false,
            &stamp(),
            &stamp(),
            None,
            1_000 * MS,
        )
        .unwrap();
        run.advance(PointerEvent::Validated {
            outcome: Ok(()),
            now: 0,
        });
        run.advance(PointerEvent::Clock { now: 0 });
        run.advance(PointerEvent::Posted {
            outcome: Ok(()),
            boundary_started: true,
        });
        run.advance(PointerEvent::Clock { now: 2_000 * MS });
        run
    };
    for posted in [true, false] {
        let mut run = begin();
        assert_eq!(
            run.stage,
            PointerStage::Release {
                button: MouseButton::Right,
                at: EventPoint::Start
            }
        );
        assert!(run.result.is_none());
        run.advance(PointerEvent::Released { posted });
        assert_eq!(run.invalidates_target, !posted);
        assert!(matches!(run.result, Some(Err(_))));
        assert!(run.run.pressed.is_none());
        assert!(run.error_carries_evidence());
    }

    let mut unstarted = pointer(None);
    unstarted.advance(PointerEvent::Validated {
        outcome: Ok(()),
        now: 0,
    });
    unstarted.advance(PointerEvent::Clock { now: 0 });
    unstarted.advance(PointerEvent::Posted {
        outcome: Err(refusal()),
        boundary_started: false,
    });
    assert_eq!(unstarted.stage, PointerStage::Done);
    assert!(!unstarted.invalidates_target);
    assert!(unstarted.error_carries_evidence());

    let mut refused = pointer(None);
    refused.advance(PointerEvent::Validated {
        outcome: Err(refusal()),
        now: 0,
    });
    assert!(matches!(refused.result, Some(Err(_))));
    assert!(!refused.error_carries_evidence());

    let mut unarmed = pointer(Some(MenuMutationIntent::Opening {
        menu_id: "menu".to_owned(),
    }));
    assert_eq!(unarmed.intent.as_ref().unwrap().menu_id(), "menu");
    post_all(&mut unarmed);
    unarmed.advance(PointerEvent::Armed(Err(refusal())));
    assert!(matches!(unarmed.result, Some(Err(_))));
    assert!(!unarmed.error_carries_evidence());
}

#[test]
fn a_pointer_sequence_looks_after_its_menu() {
    let mut dismissing = pointer(Some(MenuMutationIntent::Dismissing {
        menu_id: "menu".to_owned(),
        identity: menu_identity("menu"),
    }));
    assert!(post_all(&mut dismissing).is_empty());
    assert_eq!(dismissing.stage, PointerStage::DismissedMenu);
    dismissing.advance(PointerEvent::MenuLooked {
        found: Ok(Some(menu_identity("menu"))),
        now: 1,
    });
    let signals = dismissing.advance(PointerEvent::MenuLooked {
        found: Ok(None),
        now: 2,
    });
    assert_eq!(
        signals,
        vec![
            SettlementSignal::MenuDismissed,
            SettlementSignal::PointerSequenceComplete
        ]
    );
    assert_eq!(dismissing.menu.unwrap().0, MenuOutcome::Dismissed);

    let mut opening = pointer(Some(MenuMutationIntent::Opening {
        menu_id: "menu".to_owned(),
    }));
    post_all(&mut opening);
    assert_eq!(opening.stage, PointerStage::Arm);
    opening.advance(PointerEvent::Armed(Ok(())));
    opening.advance(PointerEvent::MenuLooked {
        found: Ok(None),
        now: 1_000 * MS,
    });
    assert_eq!(
        opening.result.unwrap().unwrap_err().code,
        ErrorCode::MenuStateStale
    );
}

fn facts(geometry: &str) -> MacWindowFacts {
    MacWindowFacts {
        stamp: ResolvedWindowStamp {
            geometry_revision: geometry.to_owned(),
            ..stamp()
        },
        pid: 42,
        process_generation: 9,
        cg_window_id: 1,
        owner_name: "Fixture".to_owned(),
        layer: 0,
        bounds: AxBounds {
            x: 0,
            y: 0,
            width: 100,
            height: 50,
        },
        activation_point: Some((10, 16)),
        scale_factor: Some(BackingScale {
            code: 2,
            usable: true,
        }),
        state: WindowStateKind::Visible,
        is_on_screen: true,
        on_current_space: Some(true),
        space_ids: Some(vec![1]),
        minimized: Some(false),
    }
}

fn snapshot(label: &str) -> RawAxSnapshot {
    RawAxSnapshot {
        nodes: vec![RawAxNode {
            element: element(1),
            parent: None,
            depth: 0,
            owner_window_id: 1,
            role: "AXButton".to_owned(),
            role_proven: true,
            subrole: None,
            orientation: None,
            label: Some(label.to_owned()),
            value: None,
            value_proof: None,
            value_query_proven: true,
            string_value: None,
            value_settable: Some(false),
            selected_text_range: None,
            selected_text_range_settable: Some(false),
            selected_text_settable: Some(false),
            bounds: None,
            actions: vec!["AXPress".to_owned()],
            actions_proven: true,
            selected: false,
        }],
        focused: None,
        selected_text: None,
        document_text: None,
        related_windows: Vec::new(),
        truncated: false,
    }
}

fn attempt(include_screenshots: bool) -> ObservationAttempt {
    attempt_with(include_screenshots, snapshot("x"))
}

fn attempt_with(include_screenshots: bool, first: RawAxSnapshot) -> ObservationAttempt {
    let mut run = ObservationAttempt::begin(&stamp(), include_screenshots, 4);
    run.advance(AttemptEvent::Facts(Ok(facts("geometry"))));
    run.advance(AttemptEvent::Snapshot(Ok(first)));
    run
}

fn popover() -> MacWindowFacts {
    MacWindowFacts {
        cg_window_id: 9,
        ..facts("popover")
    }
}

fn snapshot_with_popover() -> RawAxSnapshot {
    RawAxSnapshot {
        related_windows: vec![RawRelatedWindow {
            window_id: 9,
            kind: SurfaceKind::Popover,
            element: element(9),
        }],
        ..snapshot("x")
    }
}

#[test]
fn an_attempt_captures_every_surface() {
    let mut run = attempt_with(true, snapshot_with_popover());
    run.advance(AttemptEvent::Related(Ok(vec![popover()])));
    assert_eq!(run.kinds, vec![SurfaceKind::Popover]);
    assert_eq!(run.stage, AttemptStage::Capture);
    run.advance(AttemptEvent::Captured(Ok(())));
    assert_eq!(run.stage, AttemptStage::Capture);
    run.advance(AttemptEvent::Captured(Ok(())));
    assert_eq!(run.stage, AttemptStage::SnapshotAgain);
    run.advance(AttemptEvent::Snapshot(Ok(snapshot_with_popover())));
    run.advance(AttemptEvent::RelatedAgain(Ok(vec![popover()])));
    run.advance(AttemptEvent::FactsAgain {
        again: Ok(facts("geometry")),
        epoch: 5,
    });
    assert!(matches!(run.result, Some(Ok(5))));
    run.advance(AttemptEvent::Captured(Err(refusal())));
    assert!(matches!(run.result, Some(Ok(5))));

    let mut failed = attempt(true);
    failed.advance(AttemptEvent::Related(Ok(Vec::new())));
    failed.advance(AttemptEvent::Captured(Err(refusal())));
    assert!(matches!(failed.result, Some(Err(_))));
}

#[test]
fn an_attempt_races_with_whatever_changes() {
    let raced = |run: &ObservationAttempt, expected: &str| {
        matches!(&run.result, Some(Err(AttemptError::Raced { stage })) if *stage == expected)
    };
    let seen = |label: &str| {
        let mut run = attempt(false);
        run.advance(AttemptEvent::Related(Ok(Vec::new())));
        assert_eq!(run.stage, AttemptStage::SnapshotAgain);
        run.advance(AttemptEvent::Snapshot(Ok(snapshot(label))));
        run.advance(AttemptEvent::RelatedAgain(Ok(Vec::new())));
        run
    };
    let mut moved = seen("x");
    moved.advance(AttemptEvent::FactsAgain {
        again: Ok(facts("moved")),
        epoch: 4,
    });
    assert!(raced(&moved, "window_facts_bracket"));
    let mut quiet = seen("y");
    quiet.advance(AttemptEvent::FactsAgain {
        again: Ok(facts("geometry")),
        epoch: 4,
    });
    assert!(matches!(quiet.result, Some(Ok(4))));
    let mut changed = seen("y");
    changed.advance(AttemptEvent::FactsAgain {
        again: Ok(facts("geometry")),
        epoch: 5,
    });
    assert!(matches!(
        changed.result,
        Some(Err(AttemptError::Raced { .. }))
    ));
    let mut related = attempt(false);
    related.advance(AttemptEvent::Related(Ok(Vec::new())));
    related.advance(AttemptEvent::Snapshot(Ok(RawAxSnapshot {
        related_windows: vec![RawRelatedWindow {
            window_id: 9,
            kind: SurfaceKind::Sheet,
            element: element(9),
        }],
        ..snapshot("x")
    })));
    assert!(raced(&related, "related_ax_identity_revalidation"));
    let mut registry = attempt(false);
    registry.advance(AttemptEvent::Related(Ok(Vec::new())));
    registry.advance(AttemptEvent::Snapshot(Ok(snapshot("x"))));
    registry.advance(AttemptEvent::RelatedAgain(Ok(vec![popover()])));
    assert!(raced(&registry, "related_window_registry_revalidation"));
    let mut shifted = attempt_with(false, snapshot_with_popover());
    shifted.advance(AttemptEvent::Related(Ok(vec![popover()])));
    shifted.advance(AttemptEvent::Snapshot(Ok(snapshot_with_popover())));
    shifted.advance(AttemptEvent::RelatedAgain(Ok(vec![MacWindowFacts {
        layer: 3,
        ..popover()
    }])));
    assert!(raced(&shifted, "related_window_registry_revalidation"));
    let mut unowned = attempt(false);
    unowned.advance(AttemptEvent::Related(Ok(vec![popover()])));
    assert!(matches!(unowned.result, Some(Err(_))));
    let mut minimized = ObservationAttempt::begin(&stamp(), false, 4);
    minimized.advance(AttemptEvent::Facts(Ok(MacWindowFacts {
        state: WindowStateKind::Minimized,
        minimized: Some(true),
        ..facts("geometry")
    })));
    assert!(matches!(
        minimized.result,
        Some(Err(AttemptError::Fatal(_)))
    ));
}

fn frame(completion: u64) -> WindowFrameSample {
    WindowFrameSample {
        png_bytes: vec![1, 2, 3],
        evidence: WindowFrameEvidence::StreamAttachments,
        metadata: WindowFrameMetadata {
            completion_unix_ms: completion,
            display_time: Some(completion),
            frame_status: Some(FrameStatus::Complete),
            scale_factor: Some(ScaleFacts {
                positive: true,
                as_expected: true,
            }),
            content_scale: Some(true),
            content_rect: Some(ContentFacts {
                placed: true,
                sized: true,
            }),
        },
    }
}

#[test]
fn a_publication_refreshes_the_target() {
    let mut target = MacTargetState::new(stamp());
    let prior = ResolvedWindow {
        stamp: stamp(),
        bounds: facts("geometry").bounds,
        scale_factor: BackingScale {
            code: 1,
            usable: true,
        },
        state: WindowStateKind::Visible,
    };
    let ids = vec!["id-1".to_owned()];
    let mut publication = Publication::begin(
        &mut target,
        &prior,
        &facts("fresh"),
        snapshot("x"),
        &Vec::new(),
        &ids,
        3,
        7,
    )
    .unwrap();
    assert_eq!(publication.window.scale_factor.code, 2);
    let surface = |related_owner: Option<ResolvedWindowStamp>, cg_window_id: u32| CapturedSurface {
        cg_window_id,
        kind: SurfaceKind::Window,
        related_owner,
        pixel_width: 20,
        pixel_height: 10,
        sample: frame(10),
    };
    let freshness = publication.surface(&mut target, &surface(None, 1)).unwrap();
    assert_eq!(freshness, CaptureFreshness::Fresh);
    assert!(publication.surface(&mut target, &surface(None, 1)).is_err());
    publication
        .surface(&mut target, &surface(Some(other_stamp()), 2))
        .unwrap();
    let update = publication.finish(&mut target);
    assert_eq!(update.surfaces.len(), 2);
    assert_eq!(update.surfaces[0].observation_epoch, Some(3));
    assert_eq!(update.surfaces[0].approximate_bytes, 3);
    assert!(matches!(
        &update.surfaces[0].owner,
        SurfaceOwner::Target(owner) if owner.geometry_revision == "fresh"
    ));
    assert!(matches!(
        &update.surfaces[1].owner,
        SurfaceOwner::RelatedTransient { owner, parent }
            if owner.same(&other_stamp()) && parent.geometry_revision == "fresh"
    ));
    assert_eq!(update.captured_at_unix_ms, 10);
    assert_eq!(update.accessibility.elements[0].id, "id-1");
    assert!(update.warnings.is_empty());
    assert_eq!(target.window.geometry_revision, "fresh");

    let replaced = MacWindowFacts {
        stamp: other_stamp(),
        ..facts("fresh")
    };
    assert_eq!(
        Publication::begin(
            &mut target,
            &prior,
            &replaced,
            snapshot("x"),
            &Vec::new(),
            &ids,
            3,
            7,
        )
        .unwrap_err()
        .code,
        ErrorCode::WindowIdentityChanged
    );
}

#[test]
fn a_focus_run_posts_each_notification_once() {
    let mut state = MacFocusState::new(44, 99, None);
    let mut posts: Vec<&str> = Vec::new();
    for _ in 0..2 {
        let mut run = TargetFocusRun::begin(&mut state, 44, 99, false, 50 * MS).unwrap();
        while run.stage != FocusStage::Done {
            let event = match run.stage {
                FocusStage::PostKeyFocus => {
                    posts.push("key_focus_returned");
                    FocusEvent::KeyFocusPosted(Ok(()))
                }
                FocusStage::PostActivation => {
                    posts.push("app_activated");
                    FocusEvent::ActivationPosted(Ok(2))
                }
                FocusStage::Clock => FocusEvent::Clock { now: 1 },
                _ => FocusEvent::Looked {
                    believed: Some(true),
                    now: 2,
                },
            };
            run.advance(&mut state, event);
        }
        assert!(matches!(run.result, Some(Ok(_))));
    }
    assert_eq!(posts, vec!["key_focus_returned", "app_activated"]);

    let mut unheard = TargetFocusRun::begin(&mut state, 44, 99, false, 50 * MS).unwrap();
    unheard.advance(&mut state, FocusEvent::Clock { now: 1 });
    assert_eq!(unheard.stage, FocusStage::Acknowledge { limit: 50 * MS });
    unheard.advance(
        &mut state,
        FocusEvent::Looked {
            believed: Some(false),
            now: 50 * MS,
        },
    );
    assert!(unheard.result.is_none());
    unheard.advance(
        &mut state,
        FocusEvent::Looked {
            believed: Some(true),
            now: 50 * MS + 1,
        },
    );
    assert!(matches!(unheard.result, Some(Err(_))));

    let mut fresh = MacFocusState::new(44, 99, None);
    let mut failed = TargetFocusRun::begin(&mut fresh, 44, 99, false, 50 * MS).unwrap();
    failed.advance(&mut fresh, FocusEvent::KeyFocusPosted(Err(refusal())));
    assert!(matches!(failed.result, Some(Err(_))));
    assert!(!fresh.application_believes_it_has_focus);

    let mut active = MacFocusState::new(44, 99, Some(44));
    let mut run = TargetFocusRun::begin(&mut active, 44, 99, true, 50 * MS).unwrap();
    assert_eq!(run.stage, FocusStage::Clock);
    run.advance(&mut active, FocusEvent::Clock { now: 1 });
    assert!(matches!(run.result, Some(Ok(_))));
    assert!(TargetFocusRun::begin(&mut active, 45, 99, true, 0).is_err());
}

fn server() -> ServerWindow {
    ServerWindow {
        pid: 7,
        window_id: 11,
        is_on_screen: true,
        on_current_space: Some(true),
    }
}

fn read(minimized: Option<bool>) -> RecoveryEvent {
    RecoveryEvent::Read {
        server: Some(server()),
        hidden: Some(false),
        candidate: Some(RecoveryCandidate {
            minimized,
            subrole: Some("AXStandardWindow".to_owned()),
            settable: true,
        }),
    }
}

fn readback(ax_minimized: bool) -> RecoveryReadback {
    RecoveryReadback {
        ax_minimized: Some(ax_minimized),
        server: Some(server()),
        hidden: Some(false),
    }
}

#[test]
fn a_recovery_writes_once_and_says_so() {
    let mut run = RecoveryRun::begin(7, 11);
    run.advance(read(Some(true)));
    assert_eq!(run.stage, RecoveryStage::Write);
    assert!(run.write_started);
    run.advance(read(Some(true)));
    assert_eq!(run.stage, RecoveryStage::Write);
    run.advance(RecoveryEvent::Written {
        status: AX_ERROR_SUCCESS,
        now: 1,
    });
    assert_eq!(
        run.stage,
        RecoveryStage::Settle {
            deadline: 3_000_000_001
        }
    );
    run.advance(RecoveryEvent::ReadBack {
        readback: readback(true),
        now: 2,
    });
    assert!(run.result.is_none());
    run.advance(RecoveryEvent::ReadBack {
        readback: readback(false),
        now: 3,
    });
    assert!(matches!(run.result, Some(Ok(true))));

    let mut restored = RecoveryRun::begin(7, 11);
    restored.advance(read(Some(false)));
    assert!(matches!(restored.result, Some(Ok(false))));
    assert!(!restored.write_started);

    let mut refused = RecoveryRun::begin(7, 11);
    refused.advance(read(None));
    let failure = refused.result.unwrap().unwrap_err();
    assert!(failure.retryable && !failure.effect_may_have_occurred);

    let mut late = RecoveryRun::begin(7, 11);
    late.advance(read(Some(true)));
    late.advance(RecoveryEvent::Written {
        status: AX_ERROR_SUCCESS,
        now: 0,
    });
    late.advance(RecoveryEvent::ReadBack {
        readback: readback(true),
        now: 3_000_000_000,
    });
    assert_eq!(late.stage, RecoveryStage::Report);
    assert!(late.result.is_none());
    late.advance(RecoveryEvent::Reported {
        report: RecoveryReport {
            ax_minimized: Some(false),
            on_screen: None,
            on_current_space: None,
        },
    });
    let failure = late.result.unwrap().unwrap_err();
    assert_eq!(failure.code, "ui_not_settled");
    assert!(!failure.retryable && failure.effect_may_have_occurred);

    let mut unwritten = RecoveryRun::begin(7, 11);
    unwritten.advance(read(Some(true)));
    unwritten.advance(RecoveryEvent::Written {
        status: AX_ERROR_FAILURE,
        now: 0,
    });
    assert_eq!(
        unwritten.result.unwrap().unwrap_err().code,
        "dispatch_failed"
    );
}

#[test]
fn a_sequence_without_events_still_moves_the_logical_cursor() {
    let mut run = PointerDispatch::begin(
        MacPreparedPointerAction {
            sequence: build_click(point(), MouseButton::Left, 0, &Vec::new()),
            route_name: "targeted_click",
        },
        false,
        &stamp(),
        &stamp(),
        None,
        MS,
    )
    .unwrap();
    assert!(run.sequence.events.is_empty());
    let signals = run.advance(PointerEvent::Validated {
        outcome: Ok(()),
        now: 5,
    });
    assert_eq!(signals, vec![SettlementSignal::PointerSequenceComplete]);
    assert!(matches!(run.result, Some(Ok(_))));
    assert_eq!(run.cursor, Some(EventPoint::End));

    let mut refused = pointer(None);
    refused.advance(PointerEvent::Validated {
        outcome: Err(refusal()),
        now: 5,
    });
    assert_eq!(refused.cursor, None);
}
