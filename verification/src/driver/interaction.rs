//! Complete per-mutation macOS interaction scope acquisition and teardown.
//!
//! A scope takes its leases in one order and gives them back in the reverse
//! order; a failed acquisition gives back whatever was taken before it. Every
//! release is attempted, whatever an earlier one said.
use vstd::prelude::*;

use crate::contracts::{
    ActionShape, Framework, ResolvedWindowStamp, Route, ScopeRequirements, WindowStateKind,
};
use crate::driver::focus;
use crate::driver::focus::{select_scope_recipe, HostRecipeContext, MacScopeRecipe};
use crate::driver::menu::{MenuSuppressionPlan, NativeMenuIdentity};
use crate::driver::observation::MacWindowFacts;
use crate::errors;
use crate::errors::{ErrorCode, ErrorPhase, NativeError};
use crate::evidence;
use crate::evidence::{Detail, Fields};
use crate::text::same_text;

verus! {

/// Why the state of a window rules background actions out.
pub open spec fn inactionable(state: WindowStateKind) -> Option<errors::ErrorView> {
    match state {
        WindowStateKind::Visible | WindowStateKind::Occluded => None,
        WindowStateKind::Minimized => Some(
            errors::ErrorView::unsupported(
                "macOS background actions refuse an exact minimized target window"@,
            ).with("window_state"@, evidence::DetailView::Text("minimized"@)),
        ),
        WindowStateKind::OffSpace => Some(
            errors::ErrorView::unsupported(
                "macOS background actions refuse an exact off-Space target window"@,
            ).with("window_state"@, evidence::DetailView::Text("off_space"@)),
        ),
        WindowStateKind::Unknown => Some(
            errors::ErrorView::unsupported(
                "macOS background actions require an exact current window-state classification"@,
            ).with("window_state"@, evidence::DetailView::Text("unknown"@)),
        ),
    }
}

/// Background actions need a window that is visible or occluded.
pub fn ensure_actionable_window_state(state: WindowStateKind) -> (outcome: Result<(), NativeError>)
    ensures
        match outcome {
            Ok(_) => inactionable(state) is None,
            Err(error) => inactionable(state) == Some(error@),
        },
{
    match state {
        WindowStateKind::Visible | WindowStateKind::Occluded => Ok(()),
        WindowStateKind::Minimized => Err(
            NativeError::unsupported(
                "macOS background actions refuse an exact minimized target window",
            ).with_text("window_state", "minimized"),
        ),
        WindowStateKind::OffSpace => Err(
            NativeError::unsupported(
                "macOS background actions refuse an exact off-Space target window",
            ).with_text("window_state", "off_space"),
        ),
        WindowStateKind::Unknown => Err(
            NativeError::unsupported(
                "macOS background actions require an exact current window-state classification",
            ).with_text("window_state", "unknown"),
        ),
    }
}

/// The target controller must be live and for exactly this window.
pub fn ensure_target_live(
    invalidated: bool,
    shutdown: bool,
    target: &ResolvedWindowStamp,
    window: &ResolvedWindowStamp,
) -> (outcome: Result<(), NativeError>)
    ensures
        outcome is Ok <==> !invalidated && !shutdown && target@ == window@,
        outcome matches Err(error) ==> error@ == errors::ErrorView::stale(
            ErrorCode::WindowIdentityChanged,
            "interaction target no longer matches the live target controller"@,
        ),
{
    if invalidated || shutdown || !target.same(window) {
        return Err(
            NativeError::stale(
                ErrorCode::WindowIdentityChanged,
                "interaction target no longer matches the live target controller",
            ),
        );
    }
    Ok(())
}

/// Native facts must be those of the exact target owner.
pub fn ensure_native_facts_match(
    facts: &ResolvedWindowStamp,
    target: &ResolvedWindowStamp,
    window: &ResolvedWindowStamp,
) -> (outcome: Result<(), NativeError>)
    ensures
        outcome is Ok <==> facts@ == target@ && facts@ == window@,
        outcome matches Err(error) ==> error@ == errors::ErrorView::stale(
            ErrorCode::WindowIdentityChanged,
            "revalidated native facts do not match the exact target owner"@,
        ),
{
    if !facts.same(target) || !facts.same(window) {
        return Err(
            NativeError::stale(
                ErrorCode::WindowIdentityChanged,
                "revalidated native facts do not match the exact target owner",
            ),
        );
    }
    Ok(())
}

/// The facts that a plan was made on must still hold when its leases are taken.
pub fn ensure_facts_unchanged(unchanged: bool) -> (outcome: Result<(), NativeError>)
    ensures
        outcome is Ok <==> unchanged,
        outcome matches Err(error) ==> error@ == errors::ErrorView::stale(
            ErrorCode::WindowIdentityChanged,
            "native window facts changed between interaction preflight and lease acquisition"@,
        ),
{
    if unchanged {
        Ok(())
    } else {
        Err(
            NativeError::stale(
                ErrorCode::WindowIdentityChanged,
                "native window facts changed between interaction preflight and lease acquisition",
            ),
        )
    }
}

/// What an action means to do to a menu.
#[derive(Debug)]
pub enum MenuMutationIntent {
    Opening { menu_id: String },
    Targeting { menu_id: String, identity: NativeMenuIdentity },
    Dismissing { menu_id: String, identity: NativeMenuIdentity },
}

impl MenuMutationIntent {
    pub open spec fn menu(self) -> Seq<char> {
        match self {
            MenuMutationIntent::Opening { menu_id } => menu_id@,
            MenuMutationIntent::Targeting { menu_id, .. } => menu_id@,
            MenuMutationIntent::Dismissing { menu_id, .. } => menu_id@,
        }
    }

    /// The menu that is opened, used or dismissed.
    pub fn menu_id(&self) -> (id: &str)
        ensures
            id@ == self.menu(),
    {
        match self {
            MenuMutationIntent::Opening { menu_id } => menu_id.as_str(),
            MenuMutationIntent::Targeting { menu_id, .. } => menu_id.as_str(),
            MenuMutationIntent::Dismissing { menu_id, .. } => menu_id.as_str(),
        }
    }
}

pub open spec fn crosses_process(
    intent: Option<MenuMutationIntent>,
    live_process: Seq<char>,
) -> bool {
    intent matches Some(MenuMutationIntent::Targeting { identity, .. }) && identity.process@
        != live_process
}

/// Plans the menu suppression of a scope. An explicit outside click or Escape
/// is the dismissal event itself: arming a suppression there would prevent the
/// exact effect the caller requested.
pub fn plan_menu_suppression(
    intent: &Option<MenuMutationIntent>,
    live_pid: i32,
    live_process: &str,
    action_id: &str,
    menu_dismissal_required: bool,
) -> (outcome: Result<MenuSuppressionPlan, NativeError>)
    ensures
        match outcome {
            Ok(plan) => {
                &&& !crosses_process(*intent, live_process@)
                &&& menu_dismissal_required == (intent is Some)
                &&& match *intent {
                    None => plan is NotApplicable,
                    Some(MenuMutationIntent::Dismissing { .. }) => plan is NotApplicable,
                    Some(MenuMutationIntent::Opening { menu_id: id }) => plan matches
                        MenuSuppressionPlan::ExactSourcePidPredicate {
                        target_pid,
                        menu_pid,
                        menu_id,
                        action_id: action,
                    } && target_pid == live_pid && menu_pid is None && menu_id@ == id@ && action@
                        == action_id@,
                    Some(MenuMutationIntent::Targeting { menu_id: id, .. }) => plan matches
                        MenuSuppressionPlan::ExactSourcePidPredicate {
                        target_pid,
                        menu_pid,
                        menu_id,
                        action_id: action,
                    } && target_pid == live_pid && menu_pid == Some(live_pid) && menu_id@ == id@
                        && action@ == action_id@,
                }
            },
            Err(error) => if crosses_process(*intent, live_process@) {
                error@ == errors::ErrorView::unsupported(
                    "cross-process native menu suppression requires a second exact per-menu PID tap"@,
                ).with(
                    "recipe_status"@,
                    evidence::DetailView::Text("cross_process_menu_tap_unavailable"@),
                )
            } else {
                &&& menu_dismissal_required != (intent is Some)
                &&& error@ == errors::ErrorView::new(
                    ErrorCode::Internal,
                    ErrorPhase::Preflight,
                    false,
                    "menu suppression requirement and bound menu intent disagree"@,
                )
            },
        },
{
    let plan: MenuSuppressionPlan = match intent {
        None => MenuSuppressionPlan::NotApplicable,
        Some(MenuMutationIntent::Dismissing { .. }) => MenuSuppressionPlan::NotApplicable,
        Some(MenuMutationIntent::Opening { menu_id }) => MenuSuppressionPlan::ExactSourcePidPredicate {
            target_pid: live_pid,
            menu_pid: None,
            menu_id: menu_id.clone(),
            action_id: action_id.to_owned(),
        },
        Some(MenuMutationIntent::Targeting { menu_id, identity }) => {
            if !same_text(identity.process.as_str(), live_process) {
                return Err(
                    NativeError::unsupported(
                        "cross-process native menu suppression requires a second exact per-menu PID tap",
                    ).with_text("recipe_status", "cross_process_menu_tap_unavailable"),
                );
            }
            MenuSuppressionPlan::ExactSourcePidPredicate {
                target_pid: live_pid,
                menu_pid: Some(live_pid),
                menu_id: menu_id.clone(),
                action_id: action_id.to_owned(),
            }
        },
    };
    if menu_dismissal_required != intent.is_some() {
        return Err(
            NativeError::new(
                ErrorCode::Internal,
                ErrorPhase::Preflight,
                false,
                "menu suppression requirement and bound menu intent disagree",
            ),
        );
    }
    Ok(plan)
}

/// A scope that passed its preflight.
#[derive(Debug)]
pub struct MacNativeScopePlan {
    pub facts: MacWindowFacts,
    pub recipe: MacScopeRecipe,
    pub menu: MenuSuppressionPlan,
}

/// Who asks for a scope, and for which window.
#[derive(Debug)]
pub struct ScopeTarget<'a> {
    pub invalidated: bool,
    pub focus_shutdown: bool,
    pub target: &'a ResolvedWindowStamp,
    pub window: &'a ResolvedWindowStamp,
}

impl<'a> ScopeTarget<'a> {
    /// Why the live target is not the one that is asked for.
    pub open spec fn refusal(&self, facts: MacWindowFacts) -> Option<errors::ErrorView> {
        if self.invalidated || self.focus_shutdown || self.target@ != self.window@ {
            Some(
                errors::ErrorView::stale(
                    ErrorCode::WindowIdentityChanged,
                    "interaction target no longer matches the live target controller"@,
                ),
            )
        } else if facts.stamp@ != self.target@ {
            Some(
                errors::ErrorView::stale(
                    ErrorCode::WindowIdentityChanged,
                    "revalidated native facts do not match the exact target owner"@,
                ),
            )
        } else {
            None
        }
    }

    /// Whether the live target is the one that is asked for: this comes before
    /// its native facts are read.
    pub fn ensure_live(&self) -> (outcome: Result<(), NativeError>)
        ensures
            outcome is Ok <==> !self.invalidated && !self.focus_shutdown && self.target@
                == self.window@,
            outcome matches Err(error) ==> forall|facts: MacWindowFacts| #[trigger]
                self.refusal(facts) == Some(error@),
    {
        ensure_target_live(self.invalidated, self.focus_shutdown, self.target, self.window)
    }
}

/// Takes interaction scopes for actions on one host.
#[derive(Debug)]
pub struct MacInteractionProvider {
    pub host: HostRecipeContext,
}

impl MacInteractionProvider {
    pub fn new(host: HostRecipeContext) -> (provider: MacInteractionProvider)
        ensures
            provider.host == host,
    {
        MacInteractionProvider { host }
    }

    /// Plans the scope of an action before anything is leased. `chord_error`
    /// is why the keys of a key action make no chord.
    pub fn preflight(
        &self,
        asked: &ScopeTarget<'_>,
        facts: MacWindowFacts,
        chord_error: Option<NativeError>,
        framework: Framework,
        route: Route,
        action: &ActionShape,
        requirements: ScopeRequirements,
    ) -> (plan: Result<MacNativeScopePlan, NativeError>)
        ensures
            match plan {
                Ok(plan) => {
                    &&& asked.refusal(facts) is None
                    &&& inactionable(facts.state) is None
                    &&& chord_error is None
                    &&& focus::unproven_reason(
                        self.host,
                        framework,
                        route,
                        *action,
                        requirements,
                    ) is None
                    &&& plan.facts == facts
                    &&& plan.menu is NotApplicable
                    &&& plan.recipe == focus::proven_recipe(framework, route, requirements)
                },
                Err(error) => match (asked.refusal(facts), inactionable(facts.state), chord_error) {
                    (Some(refusal), _, _) => error@ == refusal,
                    (None, Some(refusal), _) => error@ == refusal,
                    (None, None, Some(failure)) => error@ == failure@,
                    (None, None, None) => focus::unproven_reason(
                        self.host,
                        framework,
                        route,
                        *action,
                        requirements,
                    ) matches Some(reason) && error@ == focus::recipe_unproven_view(
                        self.host,
                        framework,
                        route,
                        *action,
                        reason,
                    ),
                },
            },
    {
        if let Err(error) = asked.ensure_live() {
            return Err(error);
        }
        if let Err(error) = ensure_native_facts_match(&facts.stamp, asked.target, asked.window) {
            return Err(error);
        }
        if let Err(error) = ensure_actionable_window_state(facts.state) {
            return Err(error);
        }
        if let Some(error) = chord_error {
            return Err(error);
        }
        match select_scope_recipe(&self.host, framework, route, action, requirements) {
            Ok(recipe) => Ok(
                MacNativeScopePlan { facts, recipe, menu: MenuSuppressionPlan::NotApplicable },
            ),
            Err(error) => Err(error),
        }
    }
}

impl MacNativeScopePlan {
    /// Holds a plan to the live facts when its leases are taken, and adds what
    /// its menu intent asks for.
    pub fn bind(
        self,
        asked: &ScopeTarget<'_>,
        live_facts: &MacWindowFacts,
        intent: &Option<MenuMutationIntent>,
        action_id: &str,
        menu_dismissal_required: bool,
    ) -> (bound: Result<MacNativeScopePlan, NativeError>)
        ensures
            match bound {
                Ok(bound) => {
                    &&& asked.refusal(*live_facts) is None
                    &&& live_facts@ == self.facts@
                    &&& bound.facts == self.facts
                    &&& bound.recipe == self.recipe
                    &&& menu_dismissal_required == (intent is Some)
                    &&& !crosses_process(*intent, live_facts.stamp@.process)
                    &&& match *intent {
                        Some(MenuMutationIntent::Opening { menu_id: id }) => bound.menu matches
                            MenuSuppressionPlan::ExactSourcePidPredicate {
                            target_pid,
                            menu_pid,
                            menu_id,
                            action_id: action,
                        } && target_pid == live_facts.pid && menu_pid is None && menu_id@ == id@
                            && action@ == action_id@,
                        Some(MenuMutationIntent::Targeting { menu_id: id, .. }) => bound.menu matches
                            MenuSuppressionPlan::ExactSourcePidPredicate {
                            target_pid,
                            menu_pid,
                            menu_id,
                            action_id: action,
                        } && target_pid == live_facts.pid && menu_pid == Some(live_facts.pid)
                            && menu_id@ == id@ && action@ == action_id@,
                        _ => bound.menu is NotApplicable,
                    }
                },
                Err(error) => if asked.invalidated || asked.focus_shutdown || asked.target@
                    != asked.window@ {
                    error@ == errors::ErrorView::stale(
                        ErrorCode::WindowIdentityChanged,
                        "interaction target no longer matches the live target controller"@,
                    )
                } else if live_facts@ != self.facts@ {
                    error@ == errors::ErrorView::stale(
                        ErrorCode::WindowIdentityChanged,
                        "native window facts changed between interaction preflight and lease acquisition"@,
                    )
                } else if live_facts.stamp@ != asked.target@ {
                    error@ == errors::ErrorView::stale(
                        ErrorCode::WindowIdentityChanged,
                        "revalidated native facts do not match the exact target owner"@,
                    )
                } else if crosses_process(*intent, live_facts.stamp@.process) {
                    error@ == errors::ErrorView::unsupported(
                        "cross-process native menu suppression requires a second exact per-menu PID tap"@,
                    ).with(
                        "recipe_status"@,
                        evidence::DetailView::Text("cross_process_menu_tap_unavailable"@),
                    )
                } else {
                    menu_dismissal_required != (intent is Some) && error@ == errors::ErrorView::new(
                        ErrorCode::Internal,
                        ErrorPhase::Preflight,
                        false,
                        "menu suppression requirement and bound menu intent disagree"@,
                    )
                },
            },
    {
        if let Err(error) = ensure_target_live(
            asked.invalidated,
            asked.focus_shutdown,
            asked.target,
            asked.window,
        ) {
            return Err(error);
        }
        if let Err(error) = ensure_facts_unchanged(live_facts.same(&self.facts)) {
            return Err(error);
        }
        if let Err(error) = ensure_native_facts_match(
            &live_facts.stamp,
            asked.target,
            asked.window,
        ) {
            return Err(error);
        }
        match plan_menu_suppression(
            intent,
            live_facts.pid,
            live_facts.stamp.process.as_str(),
            action_id,
            menu_dismissal_required,
        ) {
            Ok(menu) => Ok(MacNativeScopePlan { facts: self.facts, recipe: self.recipe, menu }),
            Err(error) => Err(error),
        }
    }
}

/// A resource that a scope holds until its teardown.
#[derive(Debug, Clone, Copy, PartialEq, Eq, Structural)]
pub enum Lease {
    Accessibility,
    Menu,
}

#[derive(Debug, Clone, Copy, PartialEq, Eq, Structural)]
pub enum LeaseDecision {
    NotApplicable,
    Acquired,
}

#[derive(Debug, Clone, Copy, PartialEq, Eq, Structural)]
pub enum LeaseTeardownStatus {
    NotApplicable,
    Released,
    Failed,
}

#[derive(Debug, Clone, Copy, PartialEq, Eq, Structural)]
pub struct ScopeLeaseAcquisition {
    pub accessibility: LeaseDecision,
    pub menu_dismissal: LeaseDecision,
    pub target_belief: LeaseDecision,
}

#[derive(Debug, Clone, Copy, PartialEq, Eq, Structural)]
pub struct ScopeLeaseTeardown {
    pub accessibility: LeaseTeardownStatus,
    pub menu_dismissal: LeaseTeardownStatus,
    pub target_belief: LeaseTeardownStatus,
}

pub open spec fn errors_view(list: Seq<NativeError>) -> Seq<errors::ErrorView> {
    list.map_values(|error: NativeError| error@)
}

fn clone_errors(list: &Vec<NativeError>) -> (copy: Vec<NativeError>)
    ensures
        errors_view(copy@) == errors_view(list@),
{
    let mut copy: Vec<NativeError> = Vec::new();
    let mut index: usize = 0;
    while index < list.len()
        invariant
            index <= list.len(),
            copy.len() == index,
            forall|i: int| 0 <= i < index ==> (#[trigger] copy@[i])@ == list@[i]@,
        decreases list.len() - index,
    {
        copy.push(list[index].clone());
        index = index + 1;
    }
    assert(errors_view(copy@) =~= errors_view(list@));
    copy
}

/// How a scope ended.
#[derive(Debug)]
pub struct ScopeTeardownOutcome {
    pub native_evidence: Fields,
    pub leases: ScopeLeaseTeardown,
    pub failures: Vec<NativeError>,
    /// A failed release leaves the target unfit for further mutations.
    pub target_poisoned: bool,
}

#[verifier::ext_equal]
pub ghost struct TeardownView {
    pub native_evidence: Map<Seq<char>, evidence::DetailView>,
    pub leases: ScopeLeaseTeardown,
    pub failures: Seq<errors::ErrorView>,
    pub target_poisoned: bool,
}

impl View for ScopeTeardownOutcome {
    type V = TeardownView;

    open spec fn view(&self) -> TeardownView {
        TeardownView {
            native_evidence: self.native_evidence@,
            leases: self.leases,
            failures: errors_view(self.failures@),
            target_poisoned: self.target_poisoned,
        }
    }
}

impl Clone for ScopeTeardownOutcome {
    fn clone(&self) -> (copy: Self)
        ensures
            copy@ == self@,
    {
        ScopeTeardownOutcome {
            native_evidence: self.native_evidence.clone(),
            leases: self.leases,
            failures: clone_errors(&self.failures),
            target_poisoned: self.target_poisoned,
        }
    }
}

/// The teardown of one scope: what it still holds, and how far its release has
/// come.
#[derive(Debug)]
pub struct MacScopeCleanup {
    pub target_pid: i32,
    pub target_window_id: u32,
    pub frontmost_pid_before: Option<i32>,
    pub key_window_before: Option<bool>,
    pub accessibility: bool,
    pub menu: bool,
    pub evidence: Fields,
    pub leases: ScopeLeaseTeardown,
    pub failures: Vec<NativeError>,
    pub outcome: Option<ScopeTeardownOutcome>,
}

/// What is held, in the order of release.
pub open spec fn release_order(accessibility: bool, menu: bool) -> Seq<Lease> {
    let first = if menu {
        seq![Lease::Menu]
    } else {
        Seq::empty()
    };
    if accessibility {
        first.push(Lease::Accessibility)
    } else {
        first
    }
}

impl MacScopeCleanup {
    pub open spec fn held(&self) -> Seq<Lease> {
        release_order(self.accessibility, self.menu)
    }

    pub fn new(
        target_pid: i32,
        target_window_id: u32,
        frontmost_pid_before: Option<i32>,
        key_window_before: Option<bool>,
    ) -> (cleanup: MacScopeCleanup)
        ensures
            cleanup.target_pid == target_pid,
            cleanup.target_window_id == target_window_id,
            cleanup.frontmost_pid_before == frontmost_pid_before,
            cleanup.key_window_before == key_window_before,
            !cleanup.accessibility,
            !cleanup.menu,
            cleanup.evidence@ == Map::<Seq<char>, evidence::DetailView>::empty(),
            cleanup.leases == (ScopeLeaseTeardown {
                accessibility: LeaseTeardownStatus::NotApplicable,
                menu_dismissal: LeaseTeardownStatus::NotApplicable,
                target_belief: LeaseTeardownStatus::NotApplicable,
            }),
            cleanup.failures@.len() == 0,
            cleanup.outcome is None,
    {
        MacScopeCleanup {
            target_pid,
            target_window_id,
            frontmost_pid_before,
            key_window_before,
            accessibility: false,
            menu: false,
            evidence: Fields::new(),
            leases: ScopeLeaseTeardown {
                accessibility: LeaseTeardownStatus::NotApplicable,
                menu_dismissal: LeaseTeardownStatus::NotApplicable,
                target_belief: LeaseTeardownStatus::NotApplicable,
            },
            failures: Vec::new(),
            outcome: None,
        }
    }

    /// The lease to release next; none is left once the scope is torn down.
    pub fn next_release(&self) -> (lease: Option<Lease>)
        ensures
            match lease {
                Some(lease) => self.held().len() > 0 && self.held()[0] == lease,
                None => self.held().len() == 0,
            },
    {
        if self.menu {
            Some(Lease::Menu)
        } else if self.accessibility {
            Some(Lease::Accessibility)
        } else {
            None
        }
    }

    /// Records the release of the next lease: the lease is gone in any case,
    /// its evidence is kept and a failure is remembered.
    pub fn release_lease(&mut self, evidence: &Fields, failure: Option<NativeError>)
        requires
            old(self).held().len() > 0,
        ensures
            final(self).target_pid == old(self).target_pid,
            final(self).target_window_id == old(self).target_window_id,
            final(self).frontmost_pid_before == old(self).frontmost_pid_before,
            final(self).key_window_before == old(self).key_window_before,
            final(self).outcome == old(self).outcome,
            final(self).held() == old(self).held().drop_first(),
            final(self).evidence@ == old(self).evidence@.union_prefer_right(evidence@),
            errors_view(final(self).failures@) == match failure {
                Some(error) => errors_view(old(self).failures@).push(error@),
                None => errors_view(old(self).failures@),
            },
            ({
                let status = match failure {
                    Some(_) => LeaseTeardownStatus::Failed,
                    None => LeaseTeardownStatus::Released,
                };
                final(self).leases == match old(self).held()[0] {
                    Lease::Menu => ScopeLeaseTeardown {
                        menu_dismissal: status,
                        ..old(self).leases
                    },
                    Lease::Accessibility => ScopeLeaseTeardown {
                        accessibility: status,
                        ..old(self).leases
                    },
                }
            }),
    {
        self.evidence.extend(evidence);
        let status: LeaseTeardownStatus = match failure {
            Some(error) => {
                self.failures.push(error);
                assert(errors_view(self.failures@) =~= errors_view(old(self).failures@).push(
                    error@,
                ));
                LeaseTeardownStatus::Failed
            },
            None => LeaseTeardownStatus::Released,
        };
        if self.menu {
            self.menu = false;
            self.leases.menu_dismissal = status;
        } else {
            self.accessibility = false;
            self.leases.accessibility = status;
        }
        assert(self.held() =~= old(self).held().drop_first());
    }

    pub open spec fn outcome_view(
        &self,
        frontmost_pid_after: Option<i32>,
        key_window_after: Option<bool>,
    ) -> TeardownView {
        let as_int = |pid: Option<i32>|
            evidence::DetailView::optional_int(
                match pid {
                    Some(pid) => Some(pid as int),
                    None => None,
                },
            );
        let base = self.evidence@.insert(
            "frontmost_pid_before"@,
            as_int(self.frontmost_pid_before),
        ).insert("frontmost_pid_after"@, as_int(frontmost_pid_after)).insert(
            "target_became_frontmost"@,
            evidence::DetailView::Bool(
                self.frontmost_pid_before != Some(self.target_pid) && frontmost_pid_after == Some(
                    self.target_pid,
                ),
            ),
        ).insert(
            "key_window_before"@,
            evidence::DetailView::optional_bool(self.key_window_before),
        ).insert("key_window_after"@, evidence::DetailView::optional_bool(key_window_after));
        let failed = self.failures@.len() > 0;
        TeardownView {
            native_evidence: if failed {
                base.insert("target_poisoned"@, evidence::DetailView::Bool(true))
            } else {
                base
            },
            leases: self.leases,
            failures: errors_view(self.failures@),
            target_poisoned: failed,
        }
    }

    /// Ends the teardown once nothing is held. A second cleanup reports the
    /// first one's outcome.
    pub fn cleanup(&mut self, frontmost_pid_after: Option<i32>, key_window_after: Option<bool>) -> (outcome:
        ScopeTeardownOutcome)
        requires
            old(self).held().len() == 0,
        ensures
            *final(self) == (MacScopeCleanup { outcome: final(self).outcome, ..*old(self) }),
            final(self).outcome matches Some(kept) && kept@ == outcome@,
            outcome@ == match old(self).outcome {
                Some(kept) => kept@,
                None => old(self).outcome_view(frontmost_pid_after, key_window_after),
            },
    {
        if let Some(kept) = &self.outcome {
            return kept.clone();
        }
        let mut fields: Fields = self.evidence.clone();
        fields.insert("frontmost_pid_before", Detail::optional_i32(self.frontmost_pid_before));
        fields.insert("frontmost_pid_after", Detail::optional_i32(frontmost_pid_after));
        let became_frontmost: bool = self.frontmost_pid_before != Some(self.target_pid)
            && frontmost_pid_after == Some(self.target_pid);
        fields.insert("target_became_frontmost", Detail::Bool(became_frontmost));
        fields.insert("key_window_before", Detail::optional_bool(self.key_window_before));
        fields.insert("key_window_after", Detail::optional_bool(key_window_after));
        let failed: bool = self.failures.len() > 0;
        if failed {
            fields.insert("target_poisoned", Detail::Bool(true));
        }
        let outcome = ScopeTeardownOutcome {
            native_evidence: fields,
            leases: self.leases,
            failures: clone_errors(&self.failures),
            target_poisoned: failed,
        };
        self.outcome = Some(outcome.clone());
        outcome
    }
}

/// What a scope asks for while it is acquired.
#[derive(Debug, Clone, Copy, PartialEq, Eq, Structural)]
pub enum AcquireRequest {
    Accessibility,
    Menu,
    TargetBelief,
}

/// A scope whose leases are being taken, one after the other.
#[derive(Debug)]
pub struct ScopeAcquisition {
    pub cleanup: MacScopeCleanup,
    /// What is asked for now; `None` once everything was acquired.
    pub pending: Option<AcquireRequest>,
    pub belief: Option<Fields>,
}

impl ScopeAcquisition {
    /// Only what was asked for before the pending request can be held.
    pub open spec fn wf(&self) -> bool {
        &&& self.cleanup.outcome is None
        &&& self.cleanup.failures@.len() == 0
        &&& match self.pending {
            Some(AcquireRequest::Accessibility) => !self.cleanup.accessibility && !self.cleanup.menu
                && self.belief is None,
            Some(AcquireRequest::Menu) => !self.cleanup.menu && self.belief is None,
            Some(AcquireRequest::TargetBelief) => self.belief is None,
            None => true,
        }
    }

    pub fn begin(
        target_pid: i32,
        target_window_id: u32,
        frontmost_pid_before: Option<i32>,
        key_window_before: Option<bool>,
    ) -> (scope: ScopeAcquisition)
        ensures
            scope.wf(),
            scope.pending == Some(AcquireRequest::Accessibility),
            scope.belief is None,
            scope.cleanup.held().len() == 0,
            scope.cleanup.target_pid == target_pid,
            scope.cleanup.target_window_id == target_window_id,
            scope.cleanup.frontmost_pid_before == frontmost_pid_before,
            scope.cleanup.key_window_before == key_window_before,
            scope.cleanup.evidence@ == Map::<Seq<char>, evidence::DetailView>::empty(),
            scope.cleanup.leases == (ScopeLeaseTeardown {
                accessibility: LeaseTeardownStatus::NotApplicable,
                menu_dismissal: LeaseTeardownStatus::NotApplicable,
                target_belief: LeaseTeardownStatus::NotApplicable,
            }),
            scope.cleanup.failures@.len() == 0,
            scope.cleanup.outcome is None,
    {
        ScopeAcquisition {
            cleanup: MacScopeCleanup::new(
                target_pid,
                target_window_id,
                frontmost_pid_before,
                key_window_before,
            ),
            pending: Some(AcquireRequest::Accessibility),
            belief: None,
        }
    }

    /// Records whether the accessibility lease was taken, and asks for the
    /// menu's.
    pub fn accessibility_acquired(&mut self, acquired: bool)
        requires
            old(self).wf(),
            old(self).pending == Some(AcquireRequest::Accessibility),
        ensures
            final(self).wf(),
            final(self).pending == Some(AcquireRequest::Menu),
            final(self).cleanup == (MacScopeCleanup { accessibility: acquired, ..old(self).cleanup }),
    {
        self.cleanup.accessibility = acquired;
        self.pending = Some(AcquireRequest::Menu);
    }

    /// Records whether the menu lease was taken, and asks for the target belief.
    pub fn menu_acquired(&mut self, acquired: bool)
        requires
            old(self).wf(),
            old(self).pending == Some(AcquireRequest::Menu),
        ensures
            final(self).wf(),
            final(self).pending == Some(AcquireRequest::TargetBelief),
            final(self).cleanup == (MacScopeCleanup { menu: acquired, ..old(self).cleanup }),
    {
        self.cleanup.menu = acquired;
        self.pending = Some(AcquireRequest::TargetBelief);
    }

    /// Records the evidence of a prepared target belief; the scope is complete.
    pub fn belief_prepared(&mut self, evidence: Option<Fields>)
        requires
            old(self).wf(),
            old(self).pending == Some(AcquireRequest::TargetBelief),
        ensures
            final(self).wf(),
            final(self).pending is None,
            final(self).cleanup == old(self).cleanup,
            final(self).belief == evidence,
    {
        self.belief = evidence;
        self.pending = None;
    }

    pub open spec fn decisions(&self) -> ScopeLeaseAcquisition {
        ScopeLeaseAcquisition {
            accessibility: if self.cleanup.accessibility {
                LeaseDecision::Acquired
            } else {
                LeaseDecision::NotApplicable
            },
            menu_dismissal: if self.cleanup.menu {
                LeaseDecision::Acquired
            } else {
                LeaseDecision::NotApplicable
            },
            target_belief: if self.belief is Some {
                LeaseDecision::Acquired
            } else {
                LeaseDecision::NotApplicable
            },
        }
    }

    pub open spec fn evidence_map(
        &self,
        recipe: MacScopeRecipe,
        host: HostRecipeContext,
    ) -> Map<Seq<char>, evidence::DetailView> {
        let base = Map::<Seq<char>, evidence::DetailView>::empty().insert(
            "interaction_recipe"@,
            evidence::DetailView::Text(recipe.evidence_text()),
        ).insert("os_version"@, evidence::DetailView::Text(host.os_version@)).insert(
            "architecture"@,
            evidence::DetailView::Text(host.architecture@),
        ).insert("pid"@, evidence::DetailView::Int(self.cleanup.target_pid as int)).insert(
            "cg_window_id"@,
            evidence::DetailView::Int(self.cleanup.target_window_id as int),
        ).insert(
            "frontmost_pid_before"@,
            evidence::DetailView::optional_int(
                match self.cleanup.frontmost_pid_before {
                    Some(pid) => Some(pid as int),
                    None => None,
                },
            ),
        ).insert(
            "key_window_before"@,
            evidence::DetailView::optional_bool(self.cleanup.key_window_before),
        ).insert("activation_requested"@, evidence::DetailView::Bool(false)).insert(
            "hardware_cursor_warp_attempted"@,
            evidence::DetailView::Bool(false),
        ).insert("user_intervention_signal"@, evidence::DetailView::Null);
        match self.belief {
            Some(belief) => base.union_prefer_right(belief@),
            None => base,
        }
    }

    /// What a complete scope holds, and the evidence of its acquisition.
    pub fn acquired(&self, recipe: MacScopeRecipe, host: &HostRecipeContext) -> (acquired: (
        ScopeLeaseAcquisition,
        Fields,
    ))
        requires
            self.pending is None,
        ensures
            acquired.0 == self.decisions(),
            acquired.1@ == self.evidence_map(recipe, *host),
    {
        let mut fields: Fields = Fields::new();
        fields.insert("interaction_recipe", Detail::text(recipe.evidence_name()));
        fields.insert("os_version", Detail::text(host.os_version.as_str()));
        fields.insert("architecture", Detail::text(host.architecture.as_str()));
        fields.insert("pid", Detail::Int(self.cleanup.target_pid as i128));
        fields.insert("cg_window_id", Detail::Int(self.cleanup.target_window_id as i128));
        fields.insert(
            "frontmost_pid_before",
            Detail::optional_i32(self.cleanup.frontmost_pid_before),
        );
        fields.insert("key_window_before", Detail::optional_bool(self.cleanup.key_window_before));
        fields.insert("activation_requested", Detail::Bool(false));
        fields.insert("hardware_cursor_warp_attempted", Detail::Bool(false));
        fields.insert("user_intervention_signal", Detail::Null);
        if let Some(belief) = &self.belief {
            fields.extend(belief);
        }
        let decisions = ScopeLeaseAcquisition {
            accessibility: decision(self.cleanup.accessibility),
            menu_dismissal: decision(self.cleanup.menu),
            target_belief: decision(self.belief.is_some()),
        };
        (decisions, fields)
    }
}

fn decision(acquired: bool) -> (decision: LeaseDecision)
    ensures
        decision is Acquired == acquired,
{
    if acquired {
        LeaseDecision::Acquired
    } else {
        LeaseDecision::NotApplicable
    }
}

/// All failures of a refused acquisition: its own first, then those of the
/// teardown that followed.
pub fn acquisition_failures(primary: NativeError, teardown: Vec<NativeError>) -> (failures: Vec<
    NativeError,
>)
    ensures
        failures@ == seq![primary] + teardown@,
{
    let mut failures: Vec<NativeError> = Vec::new();
    failures.push(primary);
    let mut rest: Vec<NativeError> = teardown;
    failures.append(&mut rest);
    assert(failures@ =~= seq![primary] + teardown@);
    failures
}

/// What a scope acquires, in the order in which it asks.
pub open spec fn acquire_order(accessibility: bool, menu: bool) -> Seq<Lease> {
    let first = if accessibility {
        seq![Lease::Accessibility]
    } else {
        Seq::empty()
    };
    if menu {
        first.push(Lease::Menu)
    } else {
        first
    }
}

/// Leases are given back in exactly the reverse of the order they were taken.
pub proof fn release_reverses_acquisition(accessibility: bool, menu: bool)
    ensures
        release_order(accessibility, menu) == acquire_order(accessibility, menu).reverse(),
{
    assert(release_order(accessibility, menu) =~= acquire_order(accessibility, menu).reverse());
}

/// A teardown poisons its target exactly if some release failed, and then says
/// so in its evidence.
pub proof fn a_failed_release_poisons_the_target(
    cleanup: MacScopeCleanup,
    frontmost: Option<i32>,
    key_window: Option<bool>,
)
    ensures
        ({
            let outcome = cleanup.outcome_view(frontmost, key_window);
            &&& outcome.target_poisoned == (outcome.failures.len() > 0)
            &&& outcome.target_poisoned ==> outcome.native_evidence["target_poisoned"@]
                == evidence::DetailView::Bool(true)
        }),
{
}

} // verus!
