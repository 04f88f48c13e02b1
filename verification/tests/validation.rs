use platform_macos::ax::bindings::{ax_get_window_id, AxCfRange, AX_ERROR_FAILURE, AX_ERROR_SUCCESS};
use platform_macos::ax::minimized_recovery::{preflight_task_failure, recovery_task_failure};
use platform_macos::contracts::{
    ActionShape, ClickSpec, Framework, MouseButton, ResolvedWindowStamp,
};
use platform_macos::driver::actions::click::{HitContainment, ParentWalk, WalkStep};
use platform_macos::driver::actions::keyboard::{
    final_application_validation, final_focus_validation, semantic_type_text_candidate, FocusProof,
    FocusReads, LiveText, MacApplicationKeyboardTarget, MacKeyboardEventTarget, TargetFacts,
};
use platform_macos::driver::actions::pointer::page_scroll_bounds;
use platform_macos::driver::actions::semantic::{
    element_click_candidate, menu_discovery_failed, refetch_registered_exact, refuse_shape,
    ApplicationWindow, Candidate, LiveElement, OwnerWalk, RefetchReads, MAX_OWNER_DEPTH,
};
use platform_macos::driver::elements::RegisteredElementSnapshot;
use platform_macos::driver::lifecycle::stable_windows_deadline;
use platform_macos::driver::snapshot::{RetainedAxElement, ValueRead};
use platform_macos::errors::{ErrorCode, NativeError};

fn stamp(window: &str) -> ResolvedWindowStamp {
    ResolvedWindowStamp {
        app_id: "app".to_owned(),
        window_id: window.to_owned(),
        generation: 1,
        geometry_revision: "geometry".to_owned(),
        native_window: window.to_owned(),
        process: "process".to_owned(),
    }
}

fn element(identity: u64) -> RetainedAxElement {
    RetainedAxElement {
        address: 1_000 + identity as usize,
        identity,
    }
}

fn caret() -> AxCfRange {
    AxCfRange {
        location: 2,
        length: 0,
    }
}

fn state(parent: Option<u64>) -> RegisteredElementSnapshot {
    RegisteredElementSnapshot {
        element: element(3),
        parent: parent.map(element),
        owner: stamp("window"),
        owner_window_id: 20,
        role: "AXTextField".to_owned(),
        role_proven: true,
        subrole: None,
        orientation: None,
        label: None,
        value_proof: Some(1),
        value_query_proven: true,
        string_value: Some("ab".to_owned()),
        value_settable: Some(true),
        selected_text_range: Some(caret()),
        selected_text_range_settable: Some(true),
        selected_text_settable: Some(true),
        actions: vec!["AXPress".to_owned()],
        actions_proven: true,
    }
}

fn live() -> LiveElement {
    LiveElement {
        role: Some("AXTextField".to_owned()),
        subrole: None,
        orientation: None,
        value: ValueRead::Present {
            proof: 1,
            text: Some("ab".to_owned()),
        },
        value_settable: Some(true),
        selected_text_range: Some(caret()),
        selected_text_range_settable: Some(true),
        actions: Some(vec!["AXPress".to_owned()]),
    }
}

fn reads() -> RefetchReads {
    RefetchReads {
        owner_window_id: 20,
        parent: Ok(Some(element(2))),
        children: vec![element(4), element(3)],
        application_available: true,
        windows: vec![
            ApplicationWindow {
                element: element(7),
                window_id: Some(19),
            },
            ApplicationWindow {
                element: element(3),
                window_id: Some(20),
            },
        ],
        live_owner: Ok(20),
        live: live(),
    }
}

fn lost(state: &RegisteredElementSnapshot, reads: &RefetchReads) -> String {
    let error = refetch_registered_exact(state, reads).unwrap_err();
    assert_eq!(error.code, ErrorCode::ElementStale);
    error.message
}

#[test]
fn an_element_is_fetched_again_only_as_it_was() {
    let child = state(Some(2));
    let root = state(None);
    assert_eq!(refetch_registered_exact(&child, &reads()).unwrap(), element(3));
    assert_eq!(refetch_registered_exact(&root, &reads()).unwrap(), element(3));

    let mut moved = reads();
    moved.owner_window_id = 21;
    assert_eq!(
        lost(&child, &moved),
        "retained AX element owner window no longer matches its exact observation owner"
    );
    let mut orphan = reads();
    orphan.parent = Ok(None);
    assert_eq!(
        lost(&child, &orphan),
        "retained AX element lost its observed parent"
    );
    orphan.parent = Ok(Some(element(9)));
    assert_eq!(
        lost(&child, &orphan),
        "retained AX element parent identity changed"
    );
    let mut twins = reads();
    twins.children.push(element(3));
    assert_eq!(
        lost(&child, &twins),
        "AX parent returned duplicate CFEqual child identities"
    );
    twins.children.clear();
    assert_eq!(
        lost(&child, &twins),
        "retained AX element is no longer an exact child of its observed parent"
    );
}

#[test]
fn a_root_is_fetched_again_as_the_one_window() {
    let root = state(None);
    let mut gone = reads();
    gone.application_available = false;
    assert_eq!(
        lost(&root, &gone),
        "macOS AX application root disappeared during exact refetch"
    );
    let mut closed = reads();
    closed.windows.pop();
    assert_eq!(
        lost(&root, &closed),
        "exact macOS AX owner window disappeared during refetch"
    );
    let mut doubled = reads();
    doubled.windows[0].window_id = Some(20);
    assert_eq!(
        lost(&root, &doubled),
        "macOS AX returned multiple windows for one exact WindowServer id"
    );
    let mut replaced = reads();
    replaced.windows[1].element = element(8);
    assert_eq!(
        lost(&root, &replaced),
        "retained root AX identity no longer matches the exact owner window"
    );
}

#[test]
fn a_fetched_element_has_its_owner_and_its_state() {
    let child = state(Some(2));
    let mut elsewhere = reads();
    elsewhere.live_owner = Ok(22);
    assert_eq!(
        lost(&child, &elsewhere),
        "live AX parent chain no longer reaches the observed owner window"
    );
    elsewhere.live_owner = Err(NativeError::stale(ErrorCode::ElementStale, "no owner"));
    assert_eq!(lost(&child, &elsewhere), "no owner");

    let changed = "live macOS AX role/actions/value/settable/parent/selection proof changed";
    let mut role = reads();
    role.live.role = Some("AXButton".to_owned());
    assert_eq!(lost(&child, &role), changed);
    let mut value = reads();
    value.live.value = ValueRead::Present {
        proof: 2,
        text: Some("abc".to_owned()),
    };
    assert_eq!(lost(&child, &value), changed);
    let mut settable = reads();
    settable.live.value_settable = Some(false);
    assert_eq!(lost(&child, &settable), changed);
    let mut actions = reads();
    actions.live.actions = None;
    assert_eq!(lost(&child, &actions), changed);
    let mut selection = reads();
    selection.live.selected_text_range = None;
    assert_eq!(lost(&child, &selection), changed);
}

#[test]
fn an_owner_walk_is_bounded() {
    let mut walk = OwnerWalk::begin(element(1));
    for step in 1..MAX_OWNER_DEPTH as u64 {
        walk.ascend(Ok(Some(element(1 + step)))).unwrap();
    }
    assert_eq!(
        walk.ascend(Ok(Some(element(500)))).unwrap_err().message,
        "live AX parent chain exceeded the bounded owner-depth proof"
    );
    let mut walk = OwnerWalk::begin(element(1));
    assert_eq!(
        walk.ascend(Ok(Some(element(1)))).unwrap_err().message,
        "live AX parent chain contains an identity cycle"
    );
    assert_eq!(
        walk.ascend(Ok(None)).unwrap_err().message,
        "live AX parent chain ended before an exact owner window"
    );
}

fn keyboard_target() -> MacKeyboardEventTarget {
    MacKeyboardEventTarget {
        application_pid: 41,
        dispatch_pid: 42,
        element: element(5),
        snapshot: state(Some(2)),
        ax_revision: "revision".to_owned(),
        observation_id: "observation".to_owned(),
        signal_epoch: 4,
    }
}

fn focus_reads() -> FocusReads {
    FocusReads {
        live: Some(element(3)),
        live_window_id: Some(20),
        live_role: Ok(Some("AXTextField".to_owned())),
        text: LiveText {
            value: Ok(Some("ab".to_owned())),
            selected_text_range: Ok(Some(caret())),
            selected_text_settable: Ok(true),
        },
        epoch_before: 4,
        epoch_after: 4,
        effective: Ok((element(5), 42)),
    }
}

fn facts() -> TargetFacts {
    TargetFacts {
        pid: 41,
        cg_window_id: 20,
    }
}

fn validate(proof: FocusProof, reads: &FocusReads) -> Result<(), NativeError> {
    let window = stamp("window");
    final_focus_validation(
        &keyboard_target(),
        false,
        &window,
        &window,
        &window,
        facts(),
        proof,
        reads,
    )
}

#[test]
fn key_events_are_validated_against_the_live_focus() {
    assert!(validate(FocusProof::TextState, &focus_reads()).is_ok());
    let mut typed = focus_reads();
    typed.text.value = Ok(Some("abc".to_owned()));
    assert!(validate(FocusProof::TextState, &typed).is_err());
    assert!(validate(FocusProof::IdentityOnly, &typed).is_ok());

    let mut before = focus_reads();
    before.epoch_before = 5;
    assert_eq!(
        validate(FocusProof::IdentityOnly, &before)
            .unwrap_err()
            .message,
        "focus/content notification raced keyboard action preparation"
    );
    let mut after = focus_reads();
    after.epoch_after = 5;
    assert_eq!(
        validate(FocusProof::IdentityOnly, &after)
            .unwrap_err()
            .message,
        "focus/content notification raced final keyboard validation"
    );
    let mut lost = focus_reads();
    lost.live = None;
    assert_eq!(
        validate(FocusProof::IdentityOnly, &lost)
            .unwrap_err()
            .message,
        "target process lost its exact focused AX element"
    );
    let mut other = focus_reads();
    other.effective = Ok((element(5), 43));
    assert_eq!(
        validate(FocusProof::IdentityOnly, &other)
            .unwrap_err()
            .message,
        "effective keyboard event target changed before native dispatch"
    );
    let window = stamp("window");
    assert!(final_focus_validation(
        &keyboard_target(),
        false,
        &window,
        &stamp("other"),
        &window,
        facts(),
        FocusProof::IdentityOnly,
        &focus_reads(),
    )
    .is_err());
}

#[test]
fn application_key_events_are_validated_against_the_epoch() {
    let window = stamp("window");
    let prepared = MacApplicationKeyboardTarget {
        application_pid: 41,
        cg_window_id: 20,
        ax_revision: "revision".to_owned(),
        observation_id: "observation".to_owned(),
        signal_epoch: 4,
    };
    let validate = |invalidated: bool, facts: TargetFacts, epoch: u64| {
        final_application_validation(
            &prepared,
            invalidated,
            &window,
            &window,
            &window,
            facts,
            epoch,
        )
    };
    assert!(validate(false, facts(), 4).is_ok());
    assert!(validate(true, facts(), 4).is_err());
    assert_eq!(
        validate(false, facts(), 5).unwrap_err().message,
        "focus/content notification raced application keyboard action preparation"
    );
    let moved = TargetFacts {
        cg_window_id: 21,
        ..facts()
    };
    assert_eq!(
        validate(false, moved, 4).unwrap_err().message,
        "application keyboard pid/window identity changed before native dispatch"
    );
}

#[test]
fn routes_are_offered_only_where_they_are_exact() {
    let plain = ClickSpec {
        button: MouseButton::Left,
        click_count: 1,
        modifiers: Vec::new(),
    };
    let double = ClickSpec {
        click_count: 2,
        ..plain.clone()
    };
    let mut field = state(Some(2));
    assert!(matches!(
        element_click_candidate(&field, &plain),
        Candidate::Prepared
    ));
    assert!(matches!(
        element_click_candidate(&field, &double),
        Candidate::NotApplicable {
            reason: "element click shape has no exact semantic primitive"
        }
    ));
    field.actions.clear();
    assert!(matches!(
        element_click_candidate(&field, &plain),
        Candidate::NotApplicable {
            reason: "element does not retain an exact usable AXPress action"
        }
    ));
    assert!(matches!(
        semantic_type_text_candidate(Framework::AppKit, &field),
        Candidate::Prepared
    ));
    field.string_value = None;
    assert!(matches!(
        semantic_type_text_candidate(Framework::AppKit, &field),
        Candidate::NotApplicable { .. }
    ));
    assert!(refuse_shape(&ActionShape::ElementClick).is_none());
    assert_eq!(
        refuse_shape(&ActionShape::DeltaScroll).unwrap().code,
        ErrorCode::UnsupportedInBackground
    );
    assert_eq!(
        refuse_shape(&ActionShape::PressKey).unwrap().code,
        ErrorCode::Internal
    );
    assert!(page_scroll_bounds(true).is_ok());
    assert_eq!(
        page_scroll_bounds(false).unwrap_err().code,
        ErrorCode::UnsupportedInBackground
    );
}

#[test]
fn a_hit_walk_looks_for_its_target() {
    let target = element(9);
    let mut walk = ParentWalk::begin(element(1));
    assert!(matches!(walk.hit(&target), WalkStep::Visit));
    assert!(matches!(
        walk.hit_parent(&target, Ok(Some(element(2)))),
        WalkStep::Visit
    ));
    assert!(matches!(
        walk.hit_parent(&target, Ok(Some(element(9)))),
        WalkStep::Done(HitContainment::Contains)
    ));
    let mut walk = ParentWalk::begin(element(1));
    assert!(matches!(
        walk.hit_parent(&target, Ok(None)),
        WalkStep::Done(HitContainment::Outside)
    ));
    match walk.hit_parent(&target, Err(AX_ERROR_FAILURE)) {
        WalkStep::Done(HitContainment::NotProven(reason)) => {
            assert_eq!(reason, "ax_hit_parent_query_failed:-25200")
        }
        other => panic!("unexpected step {other:?}"),
    }
    match walk.hit_parent(&target, Ok(Some(element(1)))) {
        WalkStep::Done(HitContainment::NotProven(reason)) => {
            assert_eq!(reason, "ax_hit_parent_identity_cycle")
        }
        other => panic!("unexpected step {other:?}"),
    }
}

#[test]
fn failed_tasks_say_what_was_left_undone() {
    let early = recovery_task_failure(41, 20, false, "gone");
    assert_eq!(early.message, "minimized-window recovery task failed: gone");
    assert!(early.retryable);
    let late = recovery_task_failure(41, 20, true, "gone");
    assert_eq!(
        late.message,
        "minimized-window recovery task failed after dispatch: gone"
    );
    assert!(!late.retryable);
    assert_eq!(
        preflight_task_failure(41, 20, "gone").message,
        "minimized-window AX preflight task failed: gone"
    );
    assert_eq!(
        menu_discovery_failed("gone").message,
        "native menu discovery task failed: gone"
    );
    assert!(stable_windows_deadline(41, 9, 10).is_ok());
    assert_eq!(
        stable_windows_deadline(41, 10, 10).unwrap_err().message,
        "app launch did not reach a stable window set before its deadline"
    );
    assert_eq!(ax_get_window_id(AX_ERROR_SUCCESS, 20), Some(20));
    assert_eq!(ax_get_window_id(AX_ERROR_SUCCESS, 0), None);
    assert_eq!(ax_get_window_id(AX_ERROR_FAILURE, 20), None);
}
