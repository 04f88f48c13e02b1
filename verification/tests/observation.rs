use platform_macos::ax::bindings::AxCfRange;
use platform_macos::contracts::{
    same_stable_identity, ResolvedWindowStamp, SurfaceKind, WindowStateKind,
};
use platform_macos::driver::elements::{
    render_ax_line, sanitize, AxPublication, MacElementRegistry, RelatedOwner,
};
use platform_macos::driver::frames::{
    CaptureFreshness, ContentFacts, FrameStatus, MacFrameHistory, ScaleFacts, WindowFrameEvidence,
    WindowFrameMetadata, WindowFrameSample,
};
use platform_macos::driver::observation::{
    artifact_error, artifact_name, capture_deadline_error, capture_error, capture_timeout,
    classify_capture_error, classify_stamp_error, coherent_window_bracket, committed, fresh_ids,
    join_error,
    new_artifact_names, now_unix_ms, partial_artifact_name, publication_warnings, related_surfaces,
    resolved_from_facts, same_facts, settle_probe, slice_deadline, slice_is_final, surface_scaling,
    validate_observable, AttemptError, BackingScale, Bracket, MacObservationProvider, MacWindowFacts, ObservationLoop,
    ResolvedWindow, SettleProbe, SurfaceGeometry, SurfaceScaling, TemporaryArtifact,
};
use platform_macos::driver::snapshot::{
    ax_snapshot_contract_difference, capture_target, dead_menus, discover_native_menu,
    proxy_replacement, related_candidates, related_kind, same_optional_ax_identity,
    structural_owner_window_id, transient_kind, AxBounds, AxWalk, ElementFacts, RawAxNode,
    RawAxSnapshot, RawRelatedWindow, RetainedAxElement, ValueRead, MAX_NOTIFICATION_ELEMENTS,
};
use platform_macos::errors::{ErrorCode, ErrorPhase, NativeError};
use platform_macos::evidence::Detail;

fn sample(status: FrameStatus, completion: u64, bytes: &[u8]) -> WindowFrameSample {
    WindowFrameSample {
        png_bytes: bytes.to_vec(),
        evidence: WindowFrameEvidence::StreamAttachments,
        metadata: WindowFrameMetadata {
            completion_unix_ms: completion,
            display_time: Some(completion),
            frame_status: Some(status),
            scale_factor: Some(ScaleFacts {
                positive: true,
                as_expected: true,
            }),
            content_scale: Some(true),
            content_rect: Some(ContentFacts {
                placed: true,
                sized: true,
            }),
        },
    }
}

#[test]
fn static_pixels_require_fresh_completion_metadata() {
    let mut history = MacFrameHistory::new();
    assert_eq!(
        history
            .classify_and_commit(1, &sample(FrameStatus::Complete, 10, b"same"))
            .unwrap(),
        CaptureFreshness::Fresh
    );
    assert_eq!(
        history
            .classify_and_commit(1, &sample(FrameStatus::Idle, 11, b"same"))
            .unwrap(),
        CaptureFreshness::ReusedWithFreshCompletion
    );
    assert_eq!(
        history
            .classify_and_commit(1, &sample(FrameStatus::Idle, 11, b"same"))
            .unwrap(),
        CaptureFreshness::Frozen
    );
    assert!(CaptureFreshness::Fresh.action_safe());
    assert!(!CaptureFreshness::Frozen.action_safe());
}

#[test]
fn missing_same_sample_metadata_is_not_action_safe() {
    let mut history = MacFrameHistory::new();
    let mut incomplete = sample(FrameStatus::Complete, 10, b"pixels");
    incomplete.metadata.display_time = None;
    let refusal = history.classify_and_commit(1, &incomplete).unwrap_err();
    let error = refusal.error;
    assert_eq!(error.code, ErrorCode::SurfaceStale);
    assert!(matches!(
        error.details.get("missing_fields"),
        Some(Detail::Texts(fields)) if fields.as_slice() == ["display_time"]
    ));
    assert!(matches!(
        error.details.get("invalid_fields"),
        Some(Detail::Texts(fields)) if fields.is_empty()
    ));
}

#[test]
fn frames_without_content_or_scale_are_refused() {
    let mut history = MacFrameHistory::new();
    let mut odd = sample(FrameStatus::Complete, 10, b"pixels");
    odd.metadata.scale_factor = Some(ScaleFacts {
        positive: true,
        as_expected: false,
    });
    assert!(history.classify_and_commit(1, &odd).is_err());
    assert!(FrameStatus::Started.has_content());
    assert!(!FrameStatus::Idle.has_content());
    assert!(!FrameStatus::Blank.has_content());
    let mut snapshot = sample(FrameStatus::Complete, 10, b"pixels");
    snapshot.evidence = WindowFrameEvidence::WindowServerFallback;
    assert_eq!(
        history.classify_and_commit(2, &snapshot).unwrap(),
        CaptureFreshness::FreshSnapshot
    );
    assert_eq!(
        history.classify_and_commit(2, &snapshot).unwrap(),
        CaptureFreshness::Frozen
    );
    snapshot.metadata.completion_unix_ms = 0;
    assert!(history.classify_and_commit(2, &snapshot).is_err());
}

#[test]
fn incoherent_capture_geometry_is_retried_inside_the_observation() {
    let error = NativeError::stale(
        ErrorCode::SurfaceStale,
        "fixture ScreenCaptureKit geometry raced",
    );
    assert!(matches!(
        classify_capture_error(error),
        AttemptError::Raced {
            stage: "capture_geometry_revalidation"
        }
    ));
}

#[test]
fn screen_capture_sample_deadline_is_retryable_surface_staleness() {
    let error = capture_error("ScreenCaptureKit window 42 sample deadline elapsed");
    assert_eq!(error.code, ErrorCode::SurfaceStale);
    assert_eq!(error.phase, ErrorPhase::Preflight);
    assert!(error.retryable);
    let refused = capture_error("no permission");
    assert_eq!(refused.code, ErrorCode::UnsupportedInBackground);
    assert_eq!(
        refused.message,
        "native window capture unavailable: no permission"
    );
    assert_eq!(
        artifact_error("disk full").message,
        "observation artifact I/O failed: disk full"
    );
    assert_eq!(
        join_error("capture", "panic").message,
        "capture worker failed: panic"
    );
    assert_eq!(capture_deadline_error(4).code, ErrorCode::SurfaceStale);
}

fn element(identity: u64) -> RetainedAxElement {
    RetainedAxElement {
        address: 1_000 + identity as usize,
        identity,
    }
}

fn raw_node(identity: u64, label: &str) -> RawAxNode {
    RawAxNode {
        element: element(identity),
        parent: None,
        depth: 0,
        owner_window_id: 1,
        role: "AXButton".to_owned(),
        role_proven: true,
        subrole: None,
        orientation: None,
        label: Some(label.to_owned()),
        value: None,
        value_proof: None,
        value_query_proven: true,
        string_value: None,
        value_settable: Some(false),
        selected_text_range: None,
        selected_text_range_settable: Some(false),
        selected_text_settable: Some(false),
        bounds: None,
        actions: vec!["AXPress".to_owned()],
        actions_proven: true,
        selected: false,
    }
}

fn raw_snapshot(identity: u64, label: &str) -> RawAxSnapshot {
    RawAxSnapshot {
        nodes: vec![raw_node(identity, label)],
        focused: None,
        selected_text: None,
        document_text: None,
        related_windows: Vec::new(),
        truncated: false,
    }
}

#[test]
fn rendered_tree_exposes_exact_subrole_for_safe_model_targeting() {
    let mut snapshot = raw_snapshot(1, "");
    snapshot.nodes[0].label = None;
    snapshot.nodes[0].subrole = Some("AXCloseButton".to_owned());

    let line = render_ax_line(0, "close-button", &snapshot.nodes[0]);

    assert_eq!(
        line,
        r#"- [close-button] AXButton subrole="AXCloseButton" actions=["AXPress"]"#
    );
}

#[test]
fn rendered_text_is_quoted_and_free_of_line_breaks() {
    let mut node = raw_node(1, "two\nlines \"quoted\"");
    node.value = Some("v".to_owned());
    let line = render_ax_line(1, "id", &node);
    assert!(line.starts_with("  - [id] AXButton"));
    assert!(line.contains("\\\"quoted\\\""));
    assert!(!line.contains('\n'));
    assert!(!sanitize("a\nb").contains('\n'));
}

fn ids(names: &[&str]) -> Vec<String> {
    names.iter().map(|name| name.to_string()).collect()
}

fn publish(
    registry: &mut MacElementRegistry,
    snapshot: RawAxSnapshot,
    fresh: &[&str],
) -> AxPublication {
    registry
        .reconcile(
            snapshot,
            1,
            &stamp("geometry", "native"),
            &Vec::new(),
            &ids(fresh),
        )
        .unwrap()
}

#[test]
fn stable_ids_use_native_cf_identity_not_label_or_index() {
    let mut registry = MacElementRegistry::new();
    let first = publish(&mut registry, raw_snapshot(1, "Same label"), &["id-1"]);
    let stable = publish(&mut registry, raw_snapshot(1, "Renamed"), &["id-2"]);
    let replacement = publish(&mut registry, raw_snapshot(2, "Same label"), &["id-3"]);

    assert_eq!(first.elements[0].id, stable.elements[0].id);
    assert_ne!(stable.elements[0].id, replacement.elements[0].id);
    let native = replacement.elements[0].native.clone();
    let id = replacement.elements[0].id.clone();
    assert!(registry.registered(&native, &id).is_some());
    assert!(registry.registered(&native, "id-1").is_none());
    assert!(registry.registered_by_id(&id).is_some());
    assert_eq!(registry.registered_snapshots().len(), 1);
}

#[test]
fn elements_of_unknown_windows_are_refused() {
    let mut registry = MacElementRegistry::new();
    let mut snapshot = raw_snapshot(1, "x");
    snapshot.nodes[0].owner_window_id = 5;
    let owner = stamp("geometry", "native");
    let error = registry
        .reconcile(snapshot, 1, &owner, &Vec::new(), &ids(&["a"]))
        .unwrap_err();
    assert_eq!(error.code, ErrorCode::ElementStale);
    let mut snapshot = raw_snapshot(1, "x");
    snapshot.nodes[0].owner_window_id = 5;
    let related = vec![RelatedOwner {
        cg_window_id: 5,
        stamp: stamp("geometry", "other"),
    }];
    let publication = registry
        .reconcile(snapshot, 1, &owner, &related, &ids(&["a"]))
        .unwrap();
    assert_eq!(publication.elements[0].owner.native_window, "other");
}

#[test]
fn notification_watch_set_is_bounded_and_keeps_high_signal_elements() {
    let mut snapshot = raw_snapshot(0, "0");
    snapshot.nodes.clear();
    for index in 0..40u64 {
        snapshot.nodes.push(raw_node(index, &index.to_string()));
    }
    snapshot.focused = Some(snapshot.nodes[35].element);
    snapshot.nodes[35].selected = true;
    snapshot.nodes[36].selected = true;
    snapshot.nodes[37].value_settable = Some(true);
    snapshot.nodes[38].role = "AXWindow".to_owned();

    let watched = snapshot.notification_elements();

    assert_eq!(watched.len(), MAX_NOTIFICATION_ELEMENTS);
    for expected in [35, 36, 37, 38] {
        assert!(watched
            .iter()
            .any(|element| element.same_identity(&snapshot.nodes[expected].element)));
    }
    assert_eq!(
        watched
            .iter()
            .filter(|element| element.same_identity(&snapshot.nodes[35].element))
            .count(),
        1
    );
}

fn stamp(geometry: &str, native: &str) -> ResolvedWindowStamp {
    ResolvedWindowStamp {
        app_id: "app".to_owned(),
        window_id: "window".to_owned(),
        generation: 7,
        geometry_revision: geometry.to_owned(),
        native_window: native.to_owned(),
        process: "process".to_owned(),
    }
}

fn fake_facts(geometry: &str, x: i64) -> MacWindowFacts {
    MacWindowFacts {
        stamp: stamp(geometry, "native"),
        pid: 42,
        process_generation: 9,
        cg_window_id: 7,
        owner_name: "Fixture".to_owned(),
        layer: 0,
        bounds: AxBounds {
            x,
            y: 0,
            width: 100,
            height: 50,
        },
        activation_point: Some((x + 10, 16)),
        scale_factor: Some(BackingScale {
            code: 2,
            usable: true,
        }),
        state: WindowStateKind::Visible,
        is_on_screen: true,
        on_current_space: Some(true),
        space_ids: Some(vec![1]),
        minimized: Some(false),
    }
}

#[test]
fn fake_stamp_or_epoch_race_invalidates_the_observation_bracket() {
    let target = stamp("geometry-a", "native");
    let facts_a = fake_facts("geometry-a", 0);
    assert!(coherent_window_bracket(&target, &facts_a, &facts_a, 4, 4));
    assert!(!coherent_window_bracket(
        &target,
        &facts_a,
        &fake_facts("geometry-b", 1),
        4,
        4
    ));
    assert!(!coherent_window_bracket(&target, &facts_a, &facts_a, 4, 5));
}

#[test]
fn refreshed_geometry_preserves_stable_identity_but_native_reuse_does_not() {
    assert!(same_stable_identity(
        &stamp("geometry-a", "native"),
        &stamp("geometry-b", "native")
    ));
    assert!(!same_stable_identity(
        &stamp("geometry-a", "native"),
        &stamp("geometry-b", "replacement")
    ));
}

#[test]
fn embedded_remote_ax_children_inherit_target_ownership_but_transients_do_not() {
    assert_eq!(structural_owner_window_id(Some(99), None, 1, 1), 1);
    assert_eq!(
        structural_owner_window_id(Some(99), Some(SurfaceKind::Popover), 1, 1),
        99
    );
}

#[test]
fn a_publication_needs_an_unbroken_bracket() {
    let target = stamp("geometry-a", "native");
    let facts = fake_facts("geometry-a", 0);
    let before = raw_snapshot(1, "x");
    let after = raw_snapshot(1, "x");
    let bracket = Bracket {
        related_unchanged: true,
        facts_a: &facts,
        facts_b: &facts,
        target: &target,
        epoch_a: 4,
        epoch_b: 4,
        snapshot_a: &before,
        snapshot_b: &after,
    };
    assert_eq!(bracket.publish_epoch().unwrap(), 4);
    let moved = raw_snapshot(1, "y");
    let raced = Bracket {
        epoch_b: 5,
        snapshot_b: &moved,
        ..bracket
    };
    assert!(matches!(
        raced.publish_epoch(),
        Err(AttemptError::Raced { .. })
    ));
    assert!(matches!(
        committed::<u8>(Ok(None)),
        Err(AttemptError::Raced { .. })
    ));
    assert!(matches!(committed(Ok(Some(3))), Ok(3)));
    assert!(ax_snapshot_contract_difference(&before, &after).is_none());
    assert!(ax_snapshot_contract_difference(&before, &moved).is_some());
}

#[test]
fn races_are_retried_until_the_deadline() {
    assert!(ObservationLoop::begin(true, 0).is_err());
    let mut attempts = ObservationLoop::begin(false, 5).unwrap();
    assert_eq!(attempts.deadline, 10_000_000_005);
    attempts
        .retry(AttemptError::Raced { stage: "stamp" })
        .unwrap();
    assert_eq!(attempts.race_count, 1);
    assert!(attempts.another_attempt(6).is_ok());
    let raced = attempts.another_attempt(10_000_000_005).unwrap_err();
    assert_eq!(raced.code, ErrorCode::ObservationRaced);
    let fatal = NativeError::invalid("fixture");
    assert_eq!(
        attempts
            .retry(AttemptError::Fatal(fatal))
            .unwrap_err()
            .message,
        "fixture"
    );
    assert!(matches!(
        classify_stamp_error(NativeError::invalid("fixture")),
        AttemptError::Fatal(_)
    ));
    assert_eq!(capture_timeout(4, 1_100_000_000, 0).unwrap(), 1_000_000_000);
    assert!(capture_timeout(4, 100_000_000, 0).is_err());
    assert_eq!(slice_deadline(5, 100_000_000), 20_000_005);
    assert_eq!(slice_deadline(5, 10), 10);
    assert!(slice_is_final(false, 10, 10));
    assert!(!slice_is_final(false, 9, 10));
    assert!(matches!(settle_probe(Ok(())), SettleProbe::Present));
    assert!(matches!(
        settle_probe(Err(NativeError::stale(ErrorCode::WindowNotFound, "gone"))),
        SettleProbe::Vanished
    ));
    assert!(matches!(
        settle_probe(Err(NativeError::invalid("fixture"))),
        SettleProbe::Failed(_)
    ));
}

#[test]
fn only_visible_scaled_windows_are_observable() {
    assert!(validate_observable(&fake_facts("geometry-a", 0)).is_ok());
    let mut minimized = fake_facts("geometry-a", 0);
    minimized.state = WindowStateKind::Minimized;
    minimized.minimized = Some(true);
    minimized.is_on_screen = false;
    assert!(validate_observable(&minimized).is_err());
    let prior = ResolvedWindow {
        stamp: stamp("geometry-a", "native"),
        bounds: fake_facts("geometry-a", 0).bounds,
        scale_factor: BackingScale {
            code: 1,
            usable: true,
        },
        state: WindowStateKind::Unknown,
    };
    let resolved = resolved_from_facts(&prior, &fake_facts("geometry-b", 3)).unwrap();
    assert_eq!(resolved.bounds.x, 3);
    assert_eq!(resolved.scale_factor.code, 2);
    let mut unscaled = fake_facts("geometry-b", 3);
    unscaled.scale_factor = None;
    assert!(resolved_from_facts(&prior, &unscaled).is_err());
}

#[test]
fn artifact_names_are_unique_and_hidden_until_complete() {
    assert_ne!(artifact_name(7, "u"), partial_artifact_name(7, "u"));
    assert!(partial_artifact_name(7, "u").ends_with(".partial"));
    assert!(artifact_name(7, "u").contains('7'));
    let (name, partial) = new_artifact_names(7);
    let (other, _) = new_artifact_names(7);
    assert_ne!(name, other);
    assert!(partial.ends_with(".partial"));
    assert!(name.len() > 36);
    let mut artifact = TemporaryArtifact::new("/tmp/a".to_owned());
    assert_eq!(artifact.path.as_deref(), Some("/tmp/a"));
    artifact.disarm();
    assert_eq!(artifact.path, None);
    assert_eq!(now_unix_ms(5), 5);
    assert_eq!(now_unix_ms(u128::MAX), u64::MAX);
    let provider = MacObservationProvider::new((), 77);
    assert!(provider.artifact_directory.contains("77"));
    assert!(publication_warnings(false).is_empty());
    assert_eq!(publication_warnings(true).len(), 1);
}

fn facts(role: &str, native_window_id: Option<u32>) -> ElementFacts {
    ElementFacts {
        role: Some(role.to_owned()),
        subrole: None,
        orientation: None,
        title: Some(role.to_owned()),
        description: None,
        value: ValueRead::Present {
            proof: 3,
            text: Some("text".to_owned()),
        },
        placeholder: None,
        value_settable: Some(true),
        selected_text_range: Some(AxCfRange {
            location: 0,
            length: 0,
        }),
        selected_text_range_settable: Some(true),
        selected_text_settable: Some(true),
        bounds: None,
        native_window_id,
        actions: Some(Vec::new()),
        selected: None,
    }
}

#[test]
fn a_walk_reads_parents_before_children_and_each_element_once() {
    let mut walk = AxWalk::new(1);
    walk.begin(element(1), 1);
    assert_eq!(walk.next().unwrap().element.identity, 1);
    walk.record(facts("AXWindow", Some(1)), &vec![element(2), element(3)]);
    assert_eq!(walk.next().unwrap().element.identity, 2);
    walk.record(facts("AXTextArea", None), &vec![element(1)]);
    assert_eq!(walk.next().unwrap().element.identity, 3);
    walk.record(facts("AXMenu", Some(9)), &Vec::new());
    assert!(walk.next().is_none());
    let snapshot = walk
        .finish(Some(element(2)), Some("sel".to_owned()), true)
        .unwrap();
    assert_eq!(snapshot.nodes.len(), 3);
    assert_eq!(snapshot.nodes[0].depth, 0);
    assert_eq!(snapshot.nodes[1].depth, 1);
    assert_eq!(snapshot.nodes[2].owner_window_id, 9);
    assert_eq!(snapshot.related_windows.len(), 1);
    assert!(!snapshot.truncated);
    assert!(same_optional_ax_identity(
        snapshot.focused.as_ref(),
        Some(&element(2))
    ));
    assert_eq!(related_kind(&snapshot.related_windows, 9), Some(SurfaceKind::Menu));
    assert_eq!(related_candidates(&snapshot.related_windows).len(), 1);
    assert!(dead_menus(&snapshot.related_windows, &vec![9]).is_empty());
    assert_eq!(dead_menus(&snapshot.related_windows, &vec![]), vec![9]);
    assert_eq!(
        proxy_replacement(&snapshot.related_windows, element(1), element(7), Some(9)),
        Some(SurfaceKind::Menu)
    );
    assert_eq!(
        discover_native_menu(&snapshot).unwrap().unwrap().identity,
        3
    );
}

#[test]
fn capture_needs_exactly_the_target_window() {
    assert_eq!(
        capture_target(true, &vec![Some(4), None, Some(7)], 7).unwrap(),
        2
    );
    assert!(capture_target(true, &vec![Some(4)], 7).is_err());
    assert!(capture_target(false, &vec![Some(7)], 7).is_err());
    assert_eq!(transient_kind("AXSheet"), Some(SurfaceKind::Sheet));
    assert_eq!(transient_kind("AXButton"), None);
}

#[test]
fn related_surfaces_follow_registered_windows() {
    let related = vec![RawRelatedWindow {
        window_id: 9,
        kind: SurfaceKind::Menu,
        element: element(3),
    }];
    let window = |cg_window_id: u32, is_on_screen: bool| MacWindowFacts {
        cg_window_id,
        is_on_screen,
        ..fake_facts("geometry", 0)
    };
    let registered = vec![window(9, true)];
    assert_eq!(
        related_surfaces(&registered, &related).unwrap(),
        vec![SurfaceKind::Menu]
    );
    let unknown = vec![window(9, true), window(8, true)];
    assert_eq!(
        related_surfaces(&unknown, &related).unwrap_err().code,
        ErrorCode::SurfaceStale
    );
    let hidden = vec![window(9, false), window(8, true)];
    assert_eq!(
        related_surfaces(&hidden, &related).unwrap_err().message,
        "related AX surface 9 is not on-screen"
    );
    assert!(same_facts(&registered, &vec![window(9, true)]));
    assert!(!same_facts(&registered, &hidden));
    assert!(!same_facts(&registered, &vec![window(9, false)]));
    let ids = fresh_ids(3);
    assert_eq!(ids.len(), 3);
    assert!(ids.iter().all(|id| id.len() == 36));
    assert_ne!(ids[0], ids[1]);
}

#[test]
fn a_surface_maps_only_where_its_geometry_agrees() {
    let agreeing = SurfaceGeometry {
        pixel_width: 200,
        pixel_height: 100,
        frame_agrees: true,
        raster_scale_agrees: true,
        stream_scale_agrees: true,
        content_agrees: true,
    };
    let mut metadata = sample(FrameStatus::Complete, 10, b"frame").metadata;
    let stream = WindowFrameEvidence::StreamAttachments;
    let screenshot = WindowFrameEvidence::ScreenshotCompletion;
    assert_eq!(
        surface_scaling(stream, &metadata, agreeing).unwrap(),
        SurfaceScaling::Content
    );
    assert_eq!(
        surface_scaling(screenshot, &metadata, agreeing).unwrap(),
        SurfaceScaling::Raster
    );
    let cropped = SurfaceGeometry {
        content_agrees: false,
        ..agreeing
    };
    assert_eq!(
        surface_scaling(stream, &metadata, cropped)
            .unwrap_err()
            .message,
        "ScreenCaptureKit source frame, content rectangle and raster geometry disagree"
    );
    let empty = SurfaceGeometry {
        pixel_width: 0,
        ..agreeing
    };
    assert_eq!(
        surface_scaling(WindowFrameEvidence::WindowServerFallback, &metadata, empty)
            .unwrap_err()
            .message,
        "ScreenCaptureKit screenshot geometry disagrees with the bracketed window"
    );
    metadata.content_rect = None;
    let missing = surface_scaling(stream, &metadata, agreeing).unwrap_err();
    assert!(matches!(
        missing.details.get("missing_fields"),
        Some(Detail::Texts(names)) if names == &vec!["content_rect".to_owned()]
    ));
    assert!(surface_scaling(screenshot, &metadata, agreeing).is_ok());
}

#[test]
fn ids_agree_exactly_for_one_native_element() {
    let of = |elements: &[(u64, &str)]| {
        let mut snapshot = raw_snapshot(0, "0");
        snapshot.nodes.clear();
        for (identity, label) in elements {
            snapshot.nodes.push(raw_node(*identity, label));
        }
        snapshot
    };
    let mut registry = MacElementRegistry::new();
    let first = publish(&mut registry, of(&[(1, "a"), (2, "a")]), &["i", "j"]);
    let second = publish(
        &mut registry,
        of(&[(2, "b"), (3, "a"), (1, "c")]),
        &["k", "l", "m"],
    );
    let ids = |publication: &AxPublication| {
        let elements = &publication.elements;
        elements.iter().map(|element| element.id.clone()).collect::<Vec<_>>()
    };
    assert_eq!(ids(&first), ["i", "j"]);
    assert_eq!(ids(&second), ["j", "l", "i"]);
}
