//! Exact action-bounded native-menu dismissal suppression.
//!
//! Acquisition only switches the small predicate state of the target's event
//! tap on for the current menu mutation. The predicate permits events whose
//! source process is the target or the native menu process and rejects other
//! mouse events as delivered to the target tap.
use vstd::prelude::*;

use crate::contracts;
use crate::contracts::ResolvedWindowStamp;
use crate::driver::target;
use crate::driver::target::MacFocusState;
use crate::errors;
use crate::errors::{ErrorCode, ErrorPhase, NativeError};
use crate::evidence;
use crate::evidence::{Detail, Fields};

verus! {

#[derive(Debug)]
pub enum MenuSuppressionPlan {
    NotApplicable,
    ExactSourcePidPredicate {
        target_pid: i32,
        menu_pid: Option<i32>,
        menu_id: String,
        action_id: String,
    },
}

/// The exact native identity of a menu.
#[derive(Debug)]
pub struct NativeMenuIdentity {
    pub process: String,
    pub window: String,
    pub generation: u64,
}

impl NativeMenuIdentity {
    pub open spec fn is_of(&self, stamp: contracts::StampView) -> bool {
        self.process@ == stamp.process && self.window@ == stamp.native_window && self.generation
            == stamp.generation
    }
}

impl Clone for NativeMenuIdentity {
    fn clone(&self) -> (copy: Self)
        ensures
            copy == *self,
    {
        NativeMenuIdentity {
            process: self.process.clone(),
            window: self.window.clone(),
            generation: self.generation,
        }
    }
}

fn identity_of(stamp: &ResolvedWindowStamp) -> (identity: NativeMenuIdentity)
    ensures
        identity.is_of(stamp@),
{
    NativeMenuIdentity {
        process: stamp.process.clone(),
        window: stamp.native_window.clone(),
        generation: stamp.generation,
    }
}

/// The identity of a menu: that of its parent where the menu shares the
/// parent's window, and otherwise that of the one related window which the
/// registry returned for it.
pub fn resolve_menu_identity(
    parent: &ResolvedWindowStamp,
    parent_window_id: u32,
    menu_window_id: u32,
    related: &Vec<ResolvedWindowStamp>,
) -> (outcome: Result<NativeMenuIdentity, NativeError>)
    ensures
        outcome is Ok <==> menu_window_id == parent_window_id || related@.len() == 1,
        match outcome {
            Ok(identity) => identity.is_of(
                if menu_window_id == parent_window_id {
                    parent@
                } else {
                    related@[0]@
                },
            ),
            Err(error) => error@ == errors::ErrorView::stale(
                ErrorCode::MenuStateStale,
                "native menu discovery did not register exactly one related window"@,
            ),
        },
{
    if menu_window_id == parent_window_id {
        return Ok(identity_of(parent));
    }
    if related.len() != 1 {
        return Err(
            NativeError::stale(
                ErrorCode::MenuStateStale,
                "native menu discovery did not register exactly one related window",
            ),
        );
    }
    Ok(identity_of(&related[0]))
}

/// Ownership of one target's menu suppression.
#[derive(Debug)]
pub struct SystemMenuSuppressionResource {
    pub target_pid: i32,
    pub menu_pid: Option<i32>,
    pub menu_id: String,
    pub action_id: String,
    pub released: bool,
}

/// Reserves a menu suppression for one action. Nothing is suppressed until the
/// reservation is armed after the dispatch.
pub fn acquire_production(plan: &MenuSuppressionPlan, state: &mut MacFocusState) -> (outcome: Result<
    Option<SystemMenuSuppressionResource>,
    NativeError,
>)
    ensures
        final(state).belief() == old(state).belief(),
        match *plan {
            MenuSuppressionPlan::NotApplicable => outcome == Ok::<
                Option<SystemMenuSuppressionResource>,
                NativeError,
            >(None) && final(state).menu() == old(state).menu(),
            MenuSuppressionPlan::ExactSourcePidPredicate {
                target_pid,
                menu_pid,
                menu_id,
                action_id,
            } => {
                let before = old(state).menu();
                let busy = before.action_id is Some || before.menu_id is Some;
                &&& outcome is Ok <==> old(state).pid == target_pid && !busy
                &&& match outcome {
                    Ok(Some(resource)) => {
                        &&& resource.target_pid == target_pid
                        &&& resource.menu_pid == menu_pid
                        &&& resource.menu_id@ == menu_id@
                        &&& resource.action_id@ == action_id@
                        &&& !resource.released
                        &&& final(state).menu() == target::MenuStateView {
                            enabled: false,
                            menu_pid,
                            action_id: Some(action_id@),
                            menu_id: Some(menu_id@),
                            was_armed: false,
                            suppressed: 0,
                            last_source: None,
                        }
                    },
                    Ok(None) => false,
                    Err(error) => final(state).menu() == before && error@ == if old(state).pid
                        != target_pid {
                        errors::ErrorView::stale(
                            ErrorCode::WindowIdentityChanged,
                            "menu suppression target PID no longer matches the focus coordinator"@,
                        )
                    } else {
                        errors::ErrorView::new(
                            ErrorCode::TargetBusy,
                            ErrorPhase::Preflight,
                            true,
                            "a menu dismissal suppression scope is already active for this target"@,
                        )
                    },
                }
            },
        },
{
    match plan {
        MenuSuppressionPlan::NotApplicable => Ok(None),
        MenuSuppressionPlan::ExactSourcePidPredicate {
            target_pid,
            menu_pid,
            menu_id,
            action_id,
        } => {
            if state.pid != *target_pid {
                return Err(
                    NativeError::stale(
                        ErrorCode::WindowIdentityChanged,
                        "menu suppression target PID no longer matches the focus coordinator",
                    ),
                );
            }
            if state.menu_suppression_action_id.is_some()
                || state.menu_suppression_menu_id.is_some() {
                return Err(
                    NativeError::new(
                        ErrorCode::TargetBusy,
                        ErrorPhase::Preflight,
                        true,
                        "a menu dismissal suppression scope is already active for this target",
                    ),
                );
            }
            state.menu_pid = *menu_pid;
            state.menu_suppression_action_id = Some(action_id.clone());
            state.menu_suppression_menu_id = Some(menu_id.clone());
            state.menu_suppression_was_armed = false;
            state.menu_suppressed_event_count = 0;
            state.menu_last_suppressed_source_pid = None;
            state.menu_dismissal_suppression_enabled = false;
            Ok(
                Some(
                    SystemMenuSuppressionResource {
                        target_pid: *target_pid,
                        menu_pid: *menu_pid,
                        menu_id: menu_id.clone(),
                        action_id: action_id.clone(),
                        released: false,
                    },
                ),
            )
        },
    }
}

impl SystemMenuSuppressionResource {
    /// The evidence of a release from a state.
    pub open spec fn release_evidence(
        &self,
        before: target::MenuStateView,
    ) -> Map<Seq<char>, evidence::DetailView> {
        Map::<Seq<char>, evidence::DetailView>::empty().insert(
            "menu_suppression_target_pid"@,
            evidence::DetailView::Int(self.target_pid as int),
        ).insert(
            "menu_suppression_menu_pid"@,
            evidence::DetailView::optional_int(
                match self.menu_pid {
                    Some(pid) => Some(pid as int),
                    None => None,
                },
            ),
        ).insert(
            "menu_suppression_menu_id"@,
            evidence::DetailView::Text(self.menu_id@),
        ).insert(
            "menu_suppression_action_id"@,
            evidence::DetailView::Text(self.action_id@),
        ).insert(
            "menu_suppression_predicate"@,
            evidence::DetailView::Text("source_pid_is_target_or_menu"@),
        ).insert(
            "menu_suppression_event_mask"@,
            evidence::DetailView::Text("left_right_other_down_up_dragged"@),
        ).insert(
            "menu_suppression_armed_after_dispatch"@,
            evidence::DetailView::Bool(before.was_armed),
        ).insert(
            "menu_suppression_suppressed_event_count"@,
            evidence::DetailView::Int(before.suppressed as int),
        ).insert(
            "menu_suppression_last_suppressed_source_pid"@,
            evidence::DetailView::optional_int(
                match before.last_source {
                    Some(pid) => Some(pid as int),
                    None => None,
                },
            ),
        ).insert(
            "menu_suppression_active_after_release"@,
            evidence::DetailView::Bool(false),
        )
    }

    /// Ends the suppression and reports what it did. A second release changes
    /// nothing and says so.
    pub fn release(&mut self, state: &mut MacFocusState) -> (fields: Fields)
        ensures
            *final(self) == (SystemMenuSuppressionResource { released: true, ..*old(self) }),
            final(state).belief() == old(state).belief(),
            old(self).released ==> {
                &&& final(state).menu() == old(state).menu()
                &&& fields@ == Map::<Seq<char>, evidence::DetailView>::empty().insert(
                    "menu_suppression_release_idempotent"@,
                    evidence::DetailView::Bool(true),
                )
            },
            !old(self).released ==> {
                &&& final(state).menu() == target::MenuStateView {
                    enabled: false,
                    menu_pid: None,
                    action_id: None,
                    menu_id: None,
                    ..old(state).menu()
                }
                &&& fields@ == old(self).release_evidence(old(state).menu())
            },
    {
        let mut fields: Fields = Fields::new();
        if self.released {
            fields.insert("menu_suppression_release_idempotent", Detail::Bool(true));
            return fields;
        }
        state.menu_dismissal_suppression_enabled = false;
        state.menu_pid = None;
        state.menu_suppression_action_id = None;
        state.menu_suppression_menu_id = None;
        self.released = true;
        fields.insert("menu_suppression_target_pid", Detail::Int(self.target_pid as i128));
        fields.insert("menu_suppression_menu_pid", Detail::optional_i32(self.menu_pid));
        fields.insert("menu_suppression_menu_id", Detail::Text(self.menu_id.clone()));
        fields.insert("menu_suppression_action_id", Detail::Text(self.action_id.clone()));
        fields.insert("menu_suppression_predicate", Detail::text("source_pid_is_target_or_menu"));
        fields.insert(
            "menu_suppression_event_mask",
            Detail::text("left_right_other_down_up_dragged"),
        );
        fields.insert(
            "menu_suppression_armed_after_dispatch",
            Detail::Bool(state.menu_suppression_was_armed),
        );
        fields.insert(
            "menu_suppression_suppressed_event_count",
            Detail::Int(state.menu_suppressed_event_count as i128),
        );
        fields.insert(
            "menu_suppression_last_suppressed_source_pid",
            Detail::optional_i32(state.menu_last_suppressed_source_pid),
        );
        fields.insert("menu_suppression_active_after_release", Detail::Bool(false));
        fields
    }
}

/// A suppression that was reserved, and perhaps armed, is over after its
/// release: the target can reserve the next one.
pub proof fn release_makes_the_target_free(before: target::MenuStateView)
    ensures
        (target::MenuStateView {
            enabled: false,
            menu_pid: None,
            action_id: None,
            menu_id: None,
            ..before
        }).idle(),
{
}

} // verus!
