use platform_macos::background_mutation::{held_by_current_task, DispatchRegistry, DispatchScope};

#[test]
fn same_process_conflicts_immediately_and_drop_releases_it() {
    let mut registry = DispatchRegistry::new();
    let first = registry
        .try_acquire(DispatchScope::Process(-91_001))
        .unwrap();
    let conflict = registry
        .try_acquire(DispatchScope::Process(-91_001))
        .unwrap_err();
    assert_eq!(conflict.requested, DispatchScope::Process(-91_001));
    assert_eq!(conflict.held, DispatchScope::Process(-91_001));

    registry.release(first);
    registry
        .try_acquire(DispatchScope::Process(-91_001))
        .unwrap();
}

#[test]
fn different_targets_in_one_process_may_overlap() {
    let mut registry = DispatchRegistry::new();
    let _first = registry
        .try_acquire(DispatchScope::Target {
            pid: -91_002,
            window_id: 7,
        })
        .unwrap();
    let _second = registry
        .try_acquire(DispatchScope::Target {
            pid: -91_002,
            window_id: 8,
        })
        .unwrap();
}

#[test]
fn process_scope_conflicts_with_target_scope_for_that_process_only() {
    let mut registry = DispatchRegistry::new();
    let _target = registry
        .try_acquire(DispatchScope::Target {
            pid: -91_003,
            window_id: 7,
        })
        .unwrap();
    assert!(registry
        .try_acquire(DispatchScope::Process(-91_003))
        .is_err());
    registry
        .try_acquire(DispatchScope::Process(-91_004))
        .unwrap();
}

#[test]
fn desktop_scope_conflicts_with_every_native_dispatch() {
    let mut registry = DispatchRegistry::new();
    let _desktop = registry.try_acquire(DispatchScope::Desktop).unwrap();
    assert!(registry
        .try_acquire(DispatchScope::Target {
            pid: -91_005,
            window_id: 7,
        })
        .is_err());
    assert!(registry
        .try_acquire(DispatchScope::Process(-91_006))
        .is_err());
}

#[test]
fn nested_lease_proof_is_task_local_and_pid_bound() {
    assert!(!held_by_current_task(None, -91_007));
    assert!(held_by_current_task(Some(-91_007), -91_007));
    assert!(!held_by_current_task(Some(-91_007), -91_008));
    assert!(!held_by_current_task(None, -91_007));
}

#[test]
fn a_refused_request_leaves_the_registry_as_it_was() {
    let mut registry = DispatchRegistry::new();
    let held = registry
        .try_acquire(DispatchScope::Target {
            pid: 4,
            window_id: 1,
        })
        .unwrap();
    assert!(registry.try_acquire(DispatchScope::Desktop).is_err());
    registry.release(held);
    registry.try_acquire(DispatchScope::Desktop).unwrap();
}

#[test]
fn conflicts_are_symmetric_and_reflexive() {
    let scopes = [
        DispatchScope::Desktop,
        DispatchScope::Process(5),
        DispatchScope::Process(6),
        DispatchScope::Target {
            pid: 5,
            window_id: 1,
        },
        DispatchScope::Target {
            pid: 5,
            window_id: 2,
        },
    ];
    for left in scopes {
        assert!(left.conflicts_with(left));
        for right in scopes {
            assert_eq!(left.conflicts_with(right), right.conflicts_with(left));
        }
    }
}

#[test]
fn scopes_have_stable_names() {
    let target = DispatchScope::Target {
        pid: -5,
        window_id: 77,
    };
    assert_eq!(target.kind(), "target");
    assert_eq!(target.identity(), "-5:77");
    assert_eq!(DispatchScope::Process(-9).kind(), "process");
    assert_eq!(DispatchScope::Process(-9).identity(), "-9");
    assert_eq!(DispatchScope::Desktop.kind(), "desktop");
    assert_eq!(DispatchScope::Desktop.identity(), "desktop");
}

#[test]
fn a_permit_names_the_scope_it_owns() {
    let mut registry = DispatchRegistry::new();
    let permit = registry.try_acquire(DispatchScope::Process(7)).unwrap();
    assert_eq!(permit.scope(), DispatchScope::Process(7));
    registry.release(permit);
    assert!(registry.try_acquire(DispatchScope::Process(7)).is_ok());
}
