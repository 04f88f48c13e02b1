use platform_macos::ax::bindings::{
    AxCfRange, AX_ERROR_ATTRIBUTE_UNSUPPORTED, AX_ERROR_FAILURE, AX_ERROR_SUCCESS,
};
use platform_macos::contracts::{
    ActionKind, ActionShape, AddressingMode, ClickSpec, Framework, Modifier, MouseButton,
    ResolvedWindowStamp, Route, RouteDecision, ScrollDirection, SettlementSignal,
    VerificationLevel, WindowStateKind,
};
use platform_macos::driver::actions::click::{
    clipping_ancestor, clipping_group, hit_element, ordered_semantic_action,
    pointer_required_by_shape, select_click_route, web_context, ClickFacts, ClickRoute, ClipStep,
    ClipWalk, Clipping, HitContainment, ParentWalk, WalkStep, WebContext, AX_PICK,
};
use platform_macos::driver::actions::keyboard::{
    apply_insertion, exact_insertion_readback, finish_semantic_insertion, keyboard_capability_cells,
    plan_action, post_sequence, prepare_application_keyboard_target, prepare_keyboard_target,
    prepare_text, sequence_evidence, should_use_exact_focused_insertion, unicode_deadline,
    validate_focus_identity_proof, ExpectedInsertion, FocusProof, FocusReads, KeyboardPlan,
    KeyboardScope, KeyboardStep, KeyboardWalk, LiveText, MacPreparedKeyboardAction, ResolvedFocus,
    TargetFacts, TargetedKeyEventKind,
};
use platform_macos::driver::actions::scroll::{
    direct_page_action, is_descendant_or_same, page_child_snapshot, AX_PRESS,
};
use platform_macos::driver::actions::selection::{
    resolve_selection_range, SelectionSpec, SelectionType,
};
use platform_macos::driver::actions::semantic::{
    ax_open_title_transition_matches, click_action, element_scroll_candidate, exact_child_of,
    exact_typed_cfstring_readback_matches, exact_typed_selection_readback_matches,
    finish_ax_action, finish_set_value, menu_step, needs_open_readback, prepare_action,
    prepare_ax_open_verification, prepare_scroll_route, registered_exact, require_exact_action,
    retained_ancestor_chain, revalidate_prepared, same_actions, semantic_pages,
    verified_ax_open_transition, Candidate, MenuStep, PageScrollRun,
    PreparedKind, ResolvedElement, SemanticRequest, AX_SHOW_MENU,
};
use platform_macos::driver::actions::{pointer_capability_cells, semantic_capability_cells};
use platform_macos::driver::elements::{
    MacElementRegistry, RegisteredElement, RegisteredElementSnapshot,
};
use platform_macos::driver::interaction::{LeaseDecision, MenuMutationIntent};
use platform_macos::driver::snapshot::RetainedAxElement;
use platform_macos::driver::MacDriver;
use platform_macos::errors::{ErrorCode, ErrorPhase};
use platform_macos::evidence::{Detail, Fields};

fn click(button: MouseButton, click_count: u8, modifiers: Vec<Modifier>) -> ClickSpec {
    ClickSpec {
        button,
        click_count,
        modifiers,
    }
}

#[test]
fn ordered_actions_preserve_the_signed_contract() {
    assert_eq!(
        ordered_semantic_action(&vec![AX_PICK.to_owned(), AX_PRESS.to_owned()]),
        Some(AX_PRESS)
    );
    assert_eq!(
        ordered_semantic_action(&vec![AX_PICK.to_owned()]),
        Some(AX_PICK)
    );
    assert_eq!(ordered_semantic_action(&vec![]), None);
}

#[test]
fn double_secondary_middle_and_modified_clicks_require_pointer_delivery() {
    assert!(!pointer_required_by_shape(&click(
        MouseButton::Left,
        1,
        vec![]
    )));
    for spec in [
        click(MouseButton::Left, 2, vec![]),
        click(MouseButton::Right, 1, vec![]),
        click(MouseButton::Middle, 1, vec![]),
        click(MouseButton::Left, 1, vec![Modifier::Shift]),
    ] {
        assert!(pointer_required_by_shape(&spec));
    }
}

fn route(context: WebContext, hit: HitContainment) -> ClickRoute {
    select_click_route(
        &vec![AX_PRESS.to_owned()],
        &click(MouseButton::Left, 1, vec![]),
        ClickFacts {
            point_error: None,
            context,
            hit,
        },
    )
    .unwrap()
}

#[test]
fn click_routes_follow_the_live_context() {
    let ClickRoute::Semantic { action, reason } =
        route(WebContext::Native, HitContainment::Outside)
    else {
        panic!("expected a semantic click");
    };
    assert_eq!(action, AX_PRESS);
    assert_eq!(reason, "signed_native_ordered_ax_action");
    assert!(matches!(
        route(WebContext::Web, HitContainment::Contains),
        ClickRoute::TargetedPointer { .. }
    ));
    let ClickRoute::Semantic { reason, .. } = route(
        WebContext::Web,
        HitContainment::NotProven("why".to_owned()),
    ) else {
        panic!("expected a semantic click");
    };
    assert_eq!(
        reason,
        "signed_web_click_containment_not_proven_uses_semantic:why"
    );
    assert!(matches!(
        web_context(&Some("com.openai.atlas".to_owned()), Ok(false)),
        WebContext::Web
    ));
    assert!(matches!(web_context(&None, Ok(true)), WebContext::Web));
    assert!(matches!(web_context(&None, Ok(false)), WebContext::Native));
    assert!(matches!(
        web_context(&None, Err("x".to_owned())),
        WebContext::NotProven(_)
    ));
}

fn element(identity: u64) -> RetainedAxElement {
    RetainedAxElement {
        address: 1_000 + identity as usize,
        identity,
    }
}

#[test]
fn parent_walks_stop_at_the_answer_the_root_or_a_cycle() {
    let mut walk = ParentWalk::begin(element(1));
    assert!(walk.web_role(Ok(Some("AXButton".to_owned()))).is_none());
    assert!(matches!(
        walk.web_parent(Ok(Some(element(2)))),
        WalkStep::Visit
    ));
    assert_eq!(walk.current.identity, 2);
    assert!(matches!(
        walk.web_role(Ok(Some("AXWebArea".to_owned()))),
        Some(Ok(true))
    ));
    assert!(matches!(
        walk.web_parent(Ok(None)),
        WalkStep::Done(Ok(false))
    ));
    let mut walk = ParentWalk::begin(element(1));
    assert!(matches!(
        walk.web_parent(Ok(Some(element(1)))),
        WalkStep::Done(Err(_))
    ));
    let walk = hit_element(true, Ok(Some(element(3)))).unwrap();
    assert!(matches!(
        walk.hit(&element(3)),
        WalkStep::Done(HitContainment::Contains)
    ));
    assert!(matches!(
        hit_element(false, Ok(None)),
        Err(HitContainment::NotProven(_))
    ));
}

#[test]
fn only_clipping_ancestors_clip() {
    let named = |role: &str| clipping_ancestor(Ok(Some(role.to_owned()))).unwrap();
    assert_eq!(named("AXApplication"), Clipping::Top);
    assert_eq!(named("AXScrollArea"), Clipping::Clips);
    assert_eq!(named("AXGroup"), Clipping::AskActions);
    assert_eq!(named("AXButton"), Clipping::Passes);
    assert!(clipping_ancestor(Err(AX_ERROR_FAILURE)).is_err());
    assert!(clipping_group(Ok(vec!["AXScrollDownByPage".to_owned()])).unwrap());
    assert!(!clipping_group(Ok(vec!["AXPress".to_owned()])).unwrap());
    let mut walk = ClipWalk::begin(&element(1));
    assert!(matches!(
        walk.ascend(Ok(Some(element(2)))).unwrap(),
        ClipStep::ReadRole(_)
    ));
    walk.pass(&element(2)).unwrap();
    assert!(matches!(
        walk.ascend(Ok(None)).unwrap(),
        ClipStep::Finished
    ));
    assert!(walk.ascend(Ok(Some(element(1)))).is_err());
}

#[test]
fn direct_page_actions_are_exact_and_case_sensitive() {
    assert_eq!(
        direct_page_action(
            ScrollDirection::Down,
            &vec!["AXPageDown".to_owned()],
            &None,
        ),
        Some("AXPageDown")
    );
    assert_eq!(
        direct_page_action(
            ScrollDirection::Down,
            &vec!["axpagedown".to_owned()],
            &None,
        ),
        None
    );
    assert_eq!(
        direct_page_action(
            ScrollDirection::Down,
            &vec!["AXIncrement".to_owned()],
            &Some("AXVerticalOrientation".to_owned()),
        ),
        None
    );
    assert_eq!(
        direct_page_action(
            ScrollDirection::Right,
            &vec!["AXIncrementPage".to_owned()],
            &Some("AXHorizontalOrientation".to_owned()),
        ),
        Some("AXIncrementPage")
    );
    assert_eq!(
        direct_page_action(
            ScrollDirection::Right,
            &vec!["AXIncrementPage".to_owned()],
            &Some("AXVerticalOrientation".to_owned()),
        ),
        None
    );
}

#[test]
fn semantic_click_maps_exact_menu_actions_and_refuses_nonsemantic_shapes() {
    assert_eq!(
        click_action("AXButton", &None, &click(MouseButton::Left, 1, vec![])).unwrap(),
        AX_PRESS
    );
    assert_eq!(
        click_action("AXButton", &None, &click(MouseButton::Right, 1, vec![])).unwrap(),
        AX_SHOW_MENU
    );
    for (role, subrole) in [
        ("AXPopUpButton", None),
        ("AXMenuButton", None),
        ("AXMenu", None),
        ("AXMenuItem", None),
        ("AXMenuBar", None),
        ("AXMenuBarItem", None),
        ("AXButton", Some("AXMenuButton")),
    ] {
        assert_eq!(
            click_action(
                role,
                &subrole.map(str::to_owned),
                &click(MouseButton::Left, 1, vec![]),
            )
            .unwrap(),
            AX_PRESS
        );
    }
    for spec in [
        click(MouseButton::Middle, 1, vec![]),
        click(MouseButton::Left, 2, vec![]),
        click(MouseButton::Left, 1, vec![Modifier::Shift]),
    ] {
        assert_eq!(
            click_action("AXButton", &None, &spec).unwrap_err().code,
            ErrorCode::UnsupportedInBackground
        );
    }
}

#[test]
fn secondary_action_names_are_exact_and_case_sensitive() {
    let actions = vec!["AXConfirm".to_owned()];
    assert!(require_exact_action(&actions, "AXConfirm").is_ok());
    assert_eq!(
        require_exact_action(&actions, "axconfirm")
            .unwrap_err()
            .code,
        ErrorCode::UnsupportedInBackground
    );
}

#[test]
fn ax_open_post_error_proof_requires_an_exact_title_transition() {
    assert!(ax_open_title_transition_matches("root", "alpha", "alpha"));
    assert!(!ax_open_title_transition_matches("root", "beta", "alpha"));
    assert!(!ax_open_title_transition_matches("alpha", "alpha", "alpha"));
    assert!(!ax_open_title_transition_matches("root", "", "alpha"));
}

fn selection(
    text: &str,
    prefix: Option<&str>,
    suffix: Option<&str>,
    selection_type: SelectionType,
) -> SelectionSpec {
    SelectionSpec {
        text: text.to_owned(),
        prefix: prefix.map(str::to_owned),
        suffix: suffix.map(str::to_owned),
        selection_type,
    }
}

#[test]
fn selection_requires_one_contextual_match_and_uses_utf16_offsets() {
    let document = "😀 alpha target omega / target";
    let exact = selection(
        "target",
        Some("alpha "),
        Some(" omega"),
        SelectionType::Text,
    );
    assert_eq!(
        resolve_selection_range(document, &exact).unwrap(),
        AxCfRange {
            location: 9,
            length: 6
        }
    );
    let before = selection(
        "target",
        Some("alpha "),
        Some(" omega"),
        SelectionType::CursorBefore,
    );
    assert_eq!(
        resolve_selection_range(document, &before).unwrap(),
        AxCfRange {
            location: 9,
            length: 0
        }
    );
    let after = selection(
        "target",
        Some("alpha "),
        Some(" omega"),
        SelectionType::CursorAfter,
    );
    assert_eq!(
        resolve_selection_range(document, &after).unwrap(),
        AxCfRange {
            location: 15,
            length: 0
        }
    );
    assert_eq!(
        resolve_selection_range(
            document,
            &selection("target", None, None, SelectionType::Text),
        )
        .unwrap_err()
        .code,
        ErrorCode::InvalidRequest
    );
}

#[test]
fn overlapping_matches_are_not_silently_collapsed() {
    assert_eq!(
        resolve_selection_range("aaa", &selection("aa", None, None, SelectionType::Text))
            .unwrap_err()
            .code,
        ErrorCode::InvalidRequest
    );
}

#[test]
fn typed_readback_is_exact_not_unicode_normalized_or_range_only() {
    assert!(exact_typed_cfstring_readback_matches(
        &Some("é".to_owned()),
        "é"
    ));
    assert!(!exact_typed_cfstring_readback_matches(
        &Some("e\u{301}".to_owned()),
        "é"
    ));
    let expected = AxCfRange {
        location: 2,
        length: 1,
    };
    assert!(exact_typed_selection_readback_matches(
        Some(expected),
        &Some("x".to_owned()),
        expected,
        "x"
    ));
    assert!(!exact_typed_selection_readback_matches(
        Some(expected),
        &Some("y".to_owned()),
        expected,
        "x"
    ));
}

#[test]
fn prepared_chord_posts_once_per_event_to_the_effective_pid() {
    let kinds = vec![
        TargetedKeyEventKind::FlagsChangedRequested,
        TargetedKeyEventKind::KeyDown,
        TargetedKeyEventKind::KeyUp,
        TargetedKeyEventKind::FlagsChangedRestore,
    ];
    let posts = post_sequence(42, &kinds);
    let evidence = sequence_evidence(41, 42, &kinds, false);
    assert_eq!(
        posts
            .iter()
            .map(|post| (post.pid, post.kind))
            .collect::<Vec<_>>(),
        vec![
            (42, TargetedKeyEventKind::FlagsChangedRequested),
            (42, TargetedKeyEventKind::KeyDown),
            (42, TargetedKeyEventKind::KeyUp),
            (42, TargetedKeyEventKind::FlagsChangedRestore),
        ]
    );
    assert!(matches!(
        evidence.get("application_pid"),
        Some(Detail::Int(41))
    ));
    assert!(matches!(
        evidence.get("dispatch_pid"),
        Some(Detail::Int(42))
    ));
    assert!(matches!(
        evidence.get("out_of_process_target"),
        Some(Detail::Bool(true))
    ));
    assert!(matches!(
        evidence.get("delivery_acknowledged"),
        Some(Detail::Bool(false))
    ));
    assert!(matches!(
        evidence.get("post_primitives"),
        Some(Detail::Texts(names)) if names.as_slice() == ["core_graphics_pid"]
    ));
}

#[test]
fn insertion_replaces_only_the_observed_utf16_selection() {
    let before = "ab😀cd";
    let inserted = apply_insertion(before, AxCfRange::from_utf16(2, 2).unwrap(), "Z").unwrap();
    assert_eq!(inserted.value, "abZcd");
    assert_eq!(inserted.selection, AxCfRange::from_utf16(3, 0).unwrap());

    let inserted = apply_insertion(before, AxCfRange::from_utf16(4, 0).unwrap(), "!").unwrap();
    assert_eq!(inserted.value, "ab😀!cd");
    assert_eq!(inserted.selection, AxCfRange::from_utf16(5, 0).unwrap());

    let error = apply_insertion(before, AxCfRange::from_utf16(3, 0).unwrap(), "x").unwrap_err();
    assert_eq!(error.code, ErrorCode::AxRevisionMismatch);
}

#[test]
fn type_text_uses_exact_focused_insertion_before_framework_exceptions() {
    for framework in [Framework::Unknown, Framework::AppKit, Framework::WebKit] {
        assert!(should_use_exact_focused_insertion(
            framework,
            Some(true),
            true
        ));
    }
    for framework in [Framework::Chromium, Framework::Electron] {
        assert!(!should_use_exact_focused_insertion(
            framework,
            Some(true),
            true
        ));
    }
    assert!(!should_use_exact_focused_insertion(
        Framework::Unknown,
        Some(false),
        true
    ));
    assert!(!should_use_exact_focused_insertion(
        Framework::Unknown,
        Some(true),
        false
    ));
}

#[test]
fn changed_focused_element_or_owner_window_refuses_before_dispatch() {
    let changed_element = validate_focus_identity_proof(true, 7, false, Some(7), 7).unwrap_err();
    assert_eq!(changed_element.code, ErrorCode::AxRevisionMismatch);
    assert_eq!(changed_element.phase, ErrorPhase::Preflight);

    let changed_owner = validate_focus_identity_proof(true, 8, true, Some(8), 7).unwrap_err();
    assert_eq!(changed_owner.code, ErrorCode::AxRevisionMismatch);
    assert_eq!(changed_owner.phase, ErrorPhase::Preflight);
}

#[test]
fn capabilities_publish_generic_targeted_keyboard_including_unknown() {
    let cells = keyboard_capability_cells("fixture");
    assert!(cells
        .iter()
        .filter(|cell| cell.key.action == ActionKind::PressKey)
        .all(|cell| {
            matches!(
                (&cell.key.window_state, &cell.decision),
                (
                    WindowStateKind::Visible | WindowStateKind::Occluded,
                    RouteDecision::Supported {
                        route: Route::TargetedKeyboard
                    }
                ) | (
                    WindowStateKind::Minimized
                        | WindowStateKind::OffSpace
                        | WindowStateKind::Unknown,
                    RouteDecision::Unsupported { .. }
                )
            )
        }));
    let unknown = cells
        .iter()
        .find(|cell| {
            cell.key.action == ActionKind::PressKey
                && cell.key.framework == Framework::Unknown
                && cell.key.window_state == WindowStateKind::Visible
        })
        .unwrap();
    assert!(matches!(
        unknown.decision,
        RouteDecision::Supported {
            route: Route::TargetedKeyboard
        }
    ));

    let chromium_text = cells
        .iter()
        .find(|cell| {
            cell.key.action == ActionKind::TypeText
                && cell.key.framework == Framework::Chromium
                && cell.key.window_state == WindowStateKind::Visible
        })
        .unwrap();
    assert!(matches!(
        chromium_text.decision,
        RouteDecision::Supported {
            route: Route::TargetedKeyboard
        }
    ));

    let appkit_text = cells
        .iter()
        .find(|cell| {
            cell.key.action == ActionKind::TypeText
                && cell.key.framework == Framework::AppKit
                && cell.key.window_state == WindowStateKind::Visible
        })
        .unwrap();
    assert!(matches!(
        appkit_text.decision,
        RouteDecision::Supported {
            route: Route::Semantic
        }
    ));
}

#[test]
fn capability_cells_are_semantic_element_only_and_state_explicit() {
    let cells = semantic_capability_cells("fixture");
    assert_eq!(cells.len(), 100);
    assert!(cells.iter().all(|cell| {
        cell.key.addressing == AddressingMode::Element
            && !matches!(
                cell.key.action,
                ActionKind::Drag | ActionKind::PressKey | ActionKind::TypeText
            )
    }));
    assert_eq!(
        cells
            .iter()
            .filter(|cell| matches!(cell.decision, RouteDecision::Supported { .. }))
            .count(),
        40
    );
    assert!(cells
        .iter()
        .filter(|cell| matches!(
            cell.key.window_state,
            WindowStateKind::Minimized | WindowStateKind::OffSpace | WindowStateKind::Unknown
        ))
        .all(|cell| matches!(cell.decision, RouteDecision::Unsupported { .. })));
    assert!(!cells.iter().any(|cell| matches!(
        cell.key.framework,
        Framework::Electron | Framework::Catalyst
    )));
}

#[test]
fn targeted_pointer_cells_publish_one_generic_visible_pointer_family() {
    for architecture in ["aarch64", "x86_64"] {
        let cells = pointer_capability_cells("26.5.1", architecture);
        assert_eq!(cells.len(), 90);
        let supported: Vec<_> = cells
            .iter()
            .filter(|cell| matches!(cell.decision, RouteDecision::Supported { .. }))
            .collect();
        if architecture == "aarch64" {
            assert_eq!(supported.len(), 18);
            assert!(supported.iter().all(|cell| {
                cell.key.addressing == AddressingMode::CapturedPoint
                    && cell.key.window_state == WindowStateKind::Visible
                    && matches!(
                        cell.decision,
                        RouteDecision::Supported {
                            route: Route::TargetedPointer
                        }
                    )
            }));
            assert!(supported
                .iter()
                .any(|cell| cell.key.framework == Framework::Unknown));
            assert!(supported
                .iter()
                .any(|cell| cell.key.framework == Framework::Catalyst));
            assert!(cells.iter().any(|cell| {
                cell.key.action == ActionKind::Click
                    && cell.key.framework == Framework::Chromium
                    && cell.key.window_state == WindowStateKind::Occluded
                    && matches!(cell.decision, RouteDecision::Unsupported { .. })
            }));
        } else {
            assert!(supported.is_empty());
        }
        assert!(cells
            .iter()
            .filter(|cell| {
                matches!(cell.key.action, ActionKind::Drag | ActionKind::Scroll)
                    && cell.key.window_state != WindowStateKind::Visible
            })
            .all(|cell| matches!(cell.decision, RouteDecision::Unsupported { .. })));
    }
}

#[test]
fn the_driver_publishes_every_family() {
    let cells = MacDriver::new("aarch64").capability_cells("26.5.1");
    assert_eq!(cells.len(), 250);
    assert!(cells.iter().all(|cell| cell.key.os_version == "26.5.1"));
}

fn stamp() -> ResolvedWindowStamp {
    ResolvedWindowStamp {
        app_id: "app".to_owned(),
        window_id: "window".to_owned(),
        generation: 1,
        geometry_revision: "geometry".to_owned(),
        native_window: "native".to_owned(),
        process: "process".to_owned(),
    }
}

fn state(identity: u64, parent: Option<u64>, role: &str, actions: &[&str]) -> RegisteredElementSnapshot {
    RegisteredElementSnapshot {
        element: element(identity),
        parent: parent.map(element),
        owner: stamp(),
        owner_window_id: 20,
        role: role.to_owned(),
        role_proven: true,
        subrole: None,
        orientation: None,
        label: None,
        value_proof: Some(1),
        value_query_proven: true,
        string_value: Some("ab".to_owned()),
        value_settable: Some(true),
        selected_text_range: Some(AxCfRange {
            location: 2,
            length: 0,
        }),
        selected_text_range_settable: Some(true),
        selected_text_settable: Some(true),
        actions: actions.iter().map(|name| name.to_string()).collect(),
        actions_proven: true,
    }
}

#[test]
fn scrolling_takes_the_first_ancestor_that_can() {
    let list = vec![
        state(1, None, "AXScrollArea", &["AXPageDown"]),
        state(2, Some(1), "AXGroup", &[]),
        state(3, Some(2), "AXButton", &["AXPress"]),
    ];
    let chain = retained_ancestor_chain(&list[2], &list).unwrap();
    let order: Vec<_> = chain.iter().map(|link| link.element.identity).collect();
    assert_eq!(order, vec![3, 2, 1]);
    let route = prepare_scroll_route(&list[2], &list, ScrollDirection::Down).unwrap();
    assert_eq!(route.element.element.identity, 1);
    assert_eq!(route.action, "AXPageDown");
    assert!(!route.scrollbar_child);
    assert!(prepare_scroll_route(&list[2], &list, ScrollDirection::Up).is_err());
    assert!(matches!(
        element_scroll_candidate(Some(1), &list[2], &list, ScrollDirection::Down).unwrap(),
        Candidate::Prepared
    ));
    assert!(matches!(
        element_scroll_candidate(Some(1), &list[2], &list, ScrollDirection::Left).unwrap(),
        Candidate::NotApplicable { .. }
    ));
    assert!(is_descendant_or_same(&list[2], &list[0], &list));
    assert!(!is_descendant_or_same(&list[0], &list[2], &list));
    assert!(page_child_snapshot(&list[0], &list, ScrollDirection::Down).is_none());
}

#[test]
fn a_scroll_bar_offers_its_page_child() {
    let mut bar = state(2, Some(1), "AXScrollBar", &[]);
    bar.orientation = Some("AXVerticalOrientation".to_owned());
    let mut page = state(3, Some(2), "AXButton", &["AXPress"]);
    page.subrole = Some("AXIncrementPage".to_owned());
    let list = vec![state(1, None, "AXScrollArea", &[]), bar, page];
    let child = page_child_snapshot(&list[0], &list, ScrollDirection::Down).unwrap();
    assert_eq!(child.element.identity, 3);
    assert!(page_child_snapshot(&list[0], &list, ScrollDirection::Right).is_none());
    let route = prepare_scroll_route(&list[0], &list, ScrollDirection::Down).unwrap();
    assert!(route.scrollbar_child);
    assert_eq!(route.action, AX_PRESS);
}

fn registry() -> MacElementRegistry {
    let mut registry = MacElementRegistry::new();
    registry.elements.push(RegisteredElement {
        id: "element".to_owned(),
        native: "handle".to_owned(),
        state: state(3, None, "AXTextField", &["AXPress", "AXConfirm"]),
    });
    registry
}

fn resolved_element() -> ResolvedElement {
    ResolvedElement {
        window: stamp(),
        owner: stamp(),
        native: "handle".to_owned(),
        element_id: "element".to_owned(),
        role: Some("AXTextField".to_owned()),
        actions: vec!["AXPress".to_owned(), "AXConfirm".to_owned()],
    }
}

#[test]
fn observed_elements_resolve_to_the_exact_registration() {
    let registry = registry();
    let found = registered_exact(&registry, false, &stamp(), &resolved_element()).unwrap();
    assert_eq!(found.element.identity, 3);
    assert!(registered_exact(&registry, true, &stamp(), &resolved_element()).is_err());
    let mut renamed = resolved_element();
    renamed.role = Some("AXButton".to_owned());
    assert_eq!(
        registered_exact(&registry, false, &stamp(), &renamed)
            .unwrap_err()
            .code,
        ErrorCode::ElementStale
    );
    assert!(same_actions(
        &vec!["a".to_owned(), "b".to_owned()],
        &vec!["b".to_owned(), "a".to_owned()]
    ));
    assert_eq!(
        exact_child_of(&vec![element(1), element(2)], &element(2))
            .unwrap()
            .identity,
        2
    );
    assert!(exact_child_of(&vec![element(1)], &element(2)).is_err());
}

#[test]
fn semantic_requests_prepare_exact_actions() {
    let live = || state(3, None, "AXTextField", &["AXPress", "AXConfirm"]);
    let PreparedKind::AxAction { action, .. } = prepare_action(
        SemanticRequest::Secondary {
            action: "AXConfirm".to_owned(),
        },
        live(),
        None,
    )
    .unwrap() else {
        panic!("expected an action");
    };
    assert_eq!(action, "AXConfirm");
    assert!(matches!(
        prepare_action(
            SemanticRequest::SetValue {
                value: "x".to_owned()
            },
            live(),
            None
        )
        .unwrap(),
        PreparedKind::SetValue { .. }
    ));
    let mut fixed = live();
    fixed.value_settable = Some(false);
    assert!(prepare_action(
        SemanticRequest::SetValue {
            value: "x".to_owned()
        },
        fixed,
        None
    )
    .is_err());
    let PreparedKind::SelectText { range, .. } = prepare_action(
        SemanticRequest::SelectText {
            selection: selection("b", None, None, SelectionType::Text),
        },
        live(),
        None,
    )
    .unwrap() else {
        panic!("expected a selection");
    };
    assert_eq!(
        range,
        AxCfRange {
            location: 1,
            length: 1
        }
    );
    assert_eq!(semantic_pages(Some(3)).unwrap(), 3);
    assert!(semantic_pages(None).is_err());
    assert!(revalidate_prepared(false, &stamp(), &stamp(), &stamp(), 4, 4).is_ok());
    assert!(revalidate_prepared(false, &stamp(), &stamp(), &stamp(), 5, 4).is_err());
}

#[test]
fn dispatch_reports_what_was_verified() {
    let outcome = finish_ax_action("AXPress", "ax", AX_ERROR_SUCCESS, None);
    assert_eq!(outcome.signals, vec![SettlementSignal::AxAction]);
    assert_eq!(
        outcome.result.unwrap().verification,
        VerificationLevel::DispatchVerified
    );
    let failed = finish_ax_action("AXPress", "ax", AX_ERROR_FAILURE, None);
    assert!(failed.signals.is_empty());
    assert!(failed.result.is_err());
    let recovered = finish_ax_action("AXOpen", "ax", AX_ERROR_FAILURE, Some(2));
    assert_eq!(
        recovered.result.unwrap().verification,
        VerificationLevel::EffectVerified
    );
    let value = finish_set_value(AX_ERROR_SUCCESS, Ok(Some("x".to_owned())), "x");
    assert_eq!(
        value.result.unwrap().verification,
        VerificationLevel::EffectVerified
    );
    assert!(finish_set_value(AX_ERROR_SUCCESS, Ok(Some("y".to_owned())), "x")
        .result
        .is_err());
    assert!(finish_set_value(AX_ERROR_FAILURE, Ok(None), "x")
        .result
        .is_err());
    let mut fields = Fields::new();
    let mut run = PageScrollRun::begin(2, ScrollDirection::Down, false, &mut fields);
    assert!(run.pending());
    run.page_done(AX_ERROR_SUCCESS, &mut fields).unwrap();
    assert!(run.page_done(AX_ERROR_FAILURE, &mut fields).is_err());
    assert_eq!(run.completed, 1);
}

#[test]
fn an_opening_is_proved_by_its_title() {
    let verification = prepare_ax_open_verification(
        Some("alpha".to_owned()),
        Some((10, 20)),
        20,
        Some("root".to_owned()),
    );
    assert!(needs_open_readback(AX_ERROR_ATTRIBUTE_UNSUPPORTED, &verification));
    assert!(!needs_open_readback(AX_ERROR_ATTRIBUTE_UNSUPPORTED, &None));
    let verification = verification.unwrap();
    assert!(verified_ax_open_transition(
        &verification,
        &Some("alpha".to_owned())
    ));
    assert!(!verified_ax_open_transition(&verification, &None));
    assert!(prepare_ax_open_verification(
        Some("alpha".to_owned()),
        Some((10, 21)),
        20,
        Some("root".to_owned())
    )
    .is_none());
}

#[test]
fn menu_actions_agree_with_their_intent() {
    let opening = Some(MenuMutationIntent::Opening {
        menu_id: "menu".to_owned(),
    });
    assert_eq!(menu_step(&None, false).unwrap(), MenuStep::Nothing);
    assert_eq!(menu_step(&opening, true).unwrap(), MenuStep::WaitForOpened);
    assert_eq!(
        menu_step(&opening, false).unwrap_err().code,
        ErrorCode::MenuStateStale
    );
}

fn focus() -> ResolvedFocus {
    ResolvedFocus {
        window: stamp(),
        ax_revision: Some("revision".to_owned()),
        focused_element: Some("element".to_owned()),
        observation_id: "observation".to_owned(),
    }
}

fn reads(live: Option<u64>) -> FocusReads {
    FocusReads {
        live: live.map(element),
        live_window_id: Some(20),
        live_role: Ok(Some("AXTextField".to_owned())),
        text: LiveText {
            value: Ok(Some("ab".to_owned())),
            selected_text_range: Ok(Some(AxCfRange {
                location: 2,
                length: 0,
            })),
            selected_text_settable: Ok(true),
        },
        epoch_before: 4,
        epoch_after: 4,
        effective: Ok((element(3), 42)),
    }
}

#[test]
fn key_events_need_the_observed_focus() {
    let registry = registry();
    let facts = TargetFacts {
        pid: 41,
        cg_window_id: 20,
    };
    let target = prepare_keyboard_target(
        &registry,
        false,
        &stamp(),
        &focus(),
        facts,
        FocusProof::TextState,
        &reads(Some(3)),
    )
    .unwrap();
    assert_eq!(target.application_pid, 41);
    assert_eq!(target.dispatch_pid, 42);
    assert_eq!(target.signal_epoch, 4);
    let MacPreparedKeyboardAction::SemanticInsertion { expected, .. } =
        prepare_text(target, true, "c".to_owned()).unwrap()
    else {
        panic!("expected a semantic insertion");
    };
    assert_eq!(expected.value, "abc");
    for wrong in [None, Some(9)] {
        assert!(prepare_keyboard_target(
            &registry,
            false,
            &stamp(),
            &focus(),
            facts,
            FocusProof::IdentityOnly,
            &reads(wrong),
        )
        .is_err());
    }
    assert!(prepare_application_keyboard_target(false, &stamp(), &focus(), facts, 4).is_err());
    let unfocused = ResolvedFocus {
        focused_element: None,
        ..focus()
    };
    let application =
        prepare_application_keyboard_target(false, &stamp(), &unfocused, facts, 4).unwrap();
    assert_eq!(application.application_pid, 41);
}

#[test]
fn keyboard_walks_find_the_process_that_takes_keys() {
    let mut walk = KeyboardWalk::begin(41, element(3));
    assert_eq!(
        walk.focused_pid(Ok(42)).unwrap(),
        KeyboardStep::Done {
            element: element(3),
            pid: 42
        }
    );
    assert_eq!(
        walk.focused_pid(Ok(41)).unwrap(),
        KeyboardStep::ReadParent
    );
    assert_eq!(
        walk.parent(Ok(Some(element(2)))).unwrap(),
        KeyboardStep::ReadPid(element(2))
    );
    assert_eq!(
        walk.ancestor_pid(element(2), Ok(41)).unwrap(),
        KeyboardStep::ReadParent
    );
    assert_eq!(
        walk.ancestor_pid(element(1), Ok(42)).unwrap(),
        KeyboardStep::Done {
            element: element(1),
            pid: 42
        }
    );
    assert_eq!(
        walk.parent(Ok(None)).unwrap(),
        KeyboardStep::Done {
            element: element(3),
            pid: 41
        }
    );
    assert!(walk.parent(Ok(Some(walk.current))).is_err());
    assert!(walk.focused_pid(Err(AX_ERROR_FAILURE)).is_err());
}

#[test]
fn insertions_are_read_back_exactly() {
    let expected = ExpectedInsertion {
        value: "abc".to_owned(),
        selection: AxCfRange {
            location: 3,
            length: 0,
        },
    };
    assert!(exact_insertion_readback(
        Ok(Some("abc".to_owned())),
        Ok(Some(expected.selection)),
        &expected
    )
    .unwrap());
    assert!(!exact_insertion_readback(
        Ok(Some("ab".to_owned())),
        Ok(Some(expected.selection)),
        &expected
    )
    .unwrap());
    assert!(exact_insertion_readback(Err(AX_ERROR_FAILURE), Ok(None), &expected).is_err());
    let registry = registry();
    let target = prepare_keyboard_target(
        &registry,
        false,
        &stamp(),
        &focus(),
        TargetFacts {
            pid: 41,
            cg_window_id: 20,
        },
        FocusProof::TextState,
        &reads(Some(3)),
    )
    .unwrap();
    let (outcome, signal) = finish_semantic_insertion(&target, "c\u{1f600}", Ok(true));
    let dispatch = outcome.unwrap();
    assert_eq!(dispatch.verification, VerificationLevel::EffectVerified);
    assert!(matches!(
        dispatch.fields.get("inserted_utf16_units"),
        Some(Detail::Int(3))
    ));
    assert!(signal.is_some());
    let (outcome, _) = finish_semantic_insertion(&target, "c", Ok(false));
    assert!(outcome.is_err());
    assert!(unicode_deadline(5, 10, false, false).is_ok());
    assert!(unicode_deadline(10, 10, true, false).is_err());
}

#[test]
fn keyboard_plans_follow_shape_and_route() {
    let scope = |route, target_belief| KeyboardScope {
        route,
        owner: stamp(),
        window: stamp(),
        target_belief,
    };
    assert_eq!(
        plan_action(
            &ActionShape::TypeText,
            true,
            &stamp(),
            &scope(Route::Semantic, LeaseDecision::NotApplicable)
        )
        .unwrap(),
        KeyboardPlan::SemanticInsertion
    );
    assert!(plan_action(
        &ActionShape::SetValue,
        true,
        &stamp(),
        &scope(Route::Semantic, LeaseDecision::NotApplicable)
    )
    .is_err());
}

#[test]
fn an_insertion_is_undone_by_what_it_replaced() {
    let before = "ab😀cd";
    let selection = AxCfRange::from_utf16(2, 2).unwrap();
    let inserted = apply_insertion(before, selection, "Zöe").unwrap();
    assert_eq!(inserted.value, "abZöecd");
    let back = AxCfRange::from_utf16(2, 3).unwrap();
    let restored = apply_insertion(&inserted.value, back, "😀").unwrap();
    assert_eq!(restored.value, before);
    assert_eq!(restored.selection, AxCfRange::from_utf16(4, 0).unwrap());
}
