//! Who may act where, and what is held meanwhile.
use vstd::prelude::*;

use crate::background_mutation::{DispatchPermit, DispatchRegistry, DispatchScope};
use crate::contracts::{ActionShape, Framework, MouseButton, ResolvedWindowStamp, Route,
    ScopeRequirements, WindowStateKind};
use crate::driver::focus;
use crate::driver::focus::{
    AccessibilityRecipe, FocusEvent, FocusPreparation, HostRecipeContext, MacScopeRecipe,
    TargetBeliefRecipe, TargetFocusRun,
};
use crate::driver::interaction;
use crate::driver::interaction::{
    AcquireRequest, Lease, LeaseDecision, LeaseTeardownStatus, MacInteractionProvider,
    MacNativeScopePlan, MacScopeCleanup, MenuMutationIntent, ScopeAcquisition,
    ScopeLeaseAcquisition, ScopeTarget, ScopeTeardownOutcome,
};
use crate::driver::menu::MenuSuppressionPlan;
use crate::driver::observation::MacWindowFacts;
use crate::driver::target::MacFocusState;
use crate::errors::{ErrorCode, NativeError};
use crate::evidence::Fields;

verus! {

/// Two windows of one process may be acted on at once, one window may not; whoever
/// acts on a process excludes its windows, and whoever acts on the desktop excludes
/// everyone.
pub proof fn scopes_conflict_where_they_meet(
    left: DispatchScope,
    right: DispatchScope,
    conflict: bool,
)
    requires
        call_ensures(DispatchScope::conflicts_with, (left, right), conflict),
    ensures
        left is Desktop || right is Desktop ==> conflict,
        left is Process && right is Process ==> (conflict <==> left->Process_0
            == right->Process_0),
        left is Process && right is Target ==> (conflict <==> left->Process_0
            == right->Target_pid),
        left is Target && right is Process ==> (conflict <==> left->Target_pid
            == right->Process_0),
        left is Target && right is Target ==> (conflict <==> left->Target_pid == right->Target_pid
            && left->window_id == right->window_id),
{
    if left is Desktop {
        match right {
            DispatchScope::Desktop => {
                assert(left.covers(0, 0) && right.covers(0, 0));
            },
            DispatchScope::Process(pid) => {
                assert(left.covers(pid, 0) && right.covers(pid, 0));
            },
            DispatchScope::Target { pid, window_id } => {
                assert(left.covers(pid, window_id) && right.covers(pid, window_id));
            },
        }
    } else if right is Desktop {
        match left {
            DispatchScope::Process(pid) => {
                assert(left.covers(pid, 0) && right.covers(pid, 0));
            },
            DispatchScope::Target { pid, window_id } => {
                assert(left.covers(pid, window_id) && right.covers(pid, window_id));
            },
            _ => {},
        }
    } else {
        match left {
            DispatchScope::Process(pid) => match right {
                DispatchScope::Process(other) => {
                    if pid == other {
                        assert(left.covers(pid, 0) && right.covers(pid, 0));
                    }
                },
                DispatchScope::Target { pid: other, window_id } => {
                    if pid == other {
                        assert(left.covers(pid, window_id) && right.covers(pid, window_id));
                    }
                },
                _ => {},
            },
            DispatchScope::Target { pid, window_id } => {
                if right.covers(pid, window_id) {
                    assert(left.covers(pid, window_id) && right.covers(pid, window_id));
                }
            },
            _ => {},
        }
    }
}

/// What is released is free again, and nothing else is.
pub proof fn a_released_scope_is_free(
    registry: &mut DispatchRegistry,
    permit: DispatchPermit,
    other: DispatchScope,
)
    requires
        call_ensures(DispatchRegistry::release, (registry, permit), ()),
    ensures
        !final(registry)@.contains(permit.owned()),
        other != permit.owned() ==> (final(registry)@.contains(other) <==> old(registry)@.contains(
            other,
        )),
{
}

/// Only the version and the architecture that were proved count as proved.
pub proof fn one_host_is_proved(host: HostRecipeContext)
    ensures
        host.proven() <==> host.os_version@ == "26.5.1"@ && host.architecture@ == "arm64"@,
{
}

/// A host without a version has an unknown one; the architecture goes by one name.
pub proof fn a_host_is_described_as_reported(
    version: Option<String>,
    architecture: &str,
    host: HostRecipeContext,
)
    requires
        call_ensures(HostRecipeContext::from_reported, (version, architecture), host),
    ensures
        version is Some && version->0@.len() > 0 ==> host.os_version@ == version->0@,
        version is None || version->0@.len() == 0 ==> host.os_version@ == "unknown"@,
        architecture@ == "aarch64"@ ==> host.architecture@ == "arm64"@,
        architecture@ != "aarch64"@ ==> host.architecture@ == architecture@,
{
}

/// A semantic action needs no belief and has a recipe; a pointer action has one only
/// for a plain click on the host that was proved, with the belief, and never where a
/// menu is to be dismissed or the framework is Catalyst.
pub proof fn only_proved_recipes_are_used(
    host: &HostRecipeContext,
    framework: Framework,
    route: Route,
    action: &ActionShape,
    requirements: ScopeRequirements,
    outcome: Result<MacScopeRecipe, NativeError>,
)
    requires
        call_ensures(
            focus::select_scope_recipe,
            (host, framework, route, action, requirements),
            outcome,
        ),
    ensures
        route == Route::Semantic ==> (outcome is Ok <==> !requirements.menu_dismissal
            && !requirements.target_belief),
        route == Route::TargetedKeyboard ==> outcome is Err,
        route == Route::TargetedPointer ==> (outcome is Ok <==> {
            &&& !requirements.menu_dismissal
            &&& !(framework is Catalyst)
            &&& requirements.target_belief
            &&& host.os_version@ == "26.5.1"@
            &&& host.architecture@ == "arm64"@
            &&& *action is PointClick
            &&& action->spec.button == MouseButton::Left
            &&& action->spec.click_count == 1
            &&& action->spec.modifiers@.len() == 0
        }),
        outcome is Ok ==> (outcome->Ok_0.target_belief == TargetBeliefRecipe::NotApplicable
            <==> route == Route::Semantic),
        outcome is Ok ==> (outcome->Ok_0.accessibility
            == AccessibilityRecipe::ChromiumPriorStatePreserving <==> requirements.accessibility
            && framework is Chromium),
        outcome is Err ==> outcome->Err_0.code == ErrorCode::UnsupportedInBackground,
{
}

/// What an application is told of is what it does not believe yet: nothing where it
/// is in front.
pub proof fn an_application_is_told_what_it_does_not_believe(
    state: &mut MacFocusState,
    pid: i32,
    window: u32,
    active: bool,
    outcome: Result<FocusPreparation, NativeError>,
)
    requires
        call_ensures(focus::begin_target_focus, (state, pid, window, active), outcome),
    ensures
        outcome is Ok <==> !old(state).shutdown && old(state).pid == pid
            && old(state).cg_window_id == window,
        outcome is Ok && active ==> !outcome->Ok_0.post_key_focus_returned
            && !outcome->Ok_0.post_app_activated,
        outcome is Ok && !active
            ==> (outcome->Ok_0.post_key_focus_returned <==> !old(state).application_believes_it_has_focus),
        outcome is Ok && !active
            ==> (outcome->Ok_0.post_app_activated <==> !old(state).application_believes_it_is_active),
        outcome is Ok ==> outcome->Ok_0.pid == pid && outcome->Ok_0.cg_window_id == window
            && outcome->Ok_0.application_is_active == active,
        outcome is Err ==> final(state).belief() == old(state).belief(),
{
}

/// What was posted is believed from then on.
pub proof fn what_was_posted_is_believed(keyed: &mut MacFocusState, activated: &mut MacFocusState)
    requires
        call_ensures(focus::key_focus_returned_posted, (keyed,), ()),
        call_ensures(focus::app_activated_posted, (activated,), ()),
    ensures
        final(keyed).belief().believes_focus,
        final(keyed).belief().believes_active == old(keyed).belief().believes_active,
        final(activated).belief().believes_active,
        final(activated).belief().believes_focus == old(activated).belief().believes_focus,
{
}

/// An acknowledgement is awaited for two seconds, or until the deadline.
pub proof fn an_acknowledgement_is_awaited_for_two_seconds(
    deadline: u64,
    now: u64,
    limit: u64,
    acknowledged: bool,
    read: bool,
)
    requires
        call_ensures(focus::acknowledgement_deadline, (deadline, now), limit),
        call_ensures(focus::awaits_acknowledgement, (acknowledged, now, limit), read),
    ensures
        limit <= deadline,
        limit == deadline || limit == now + 2_000_000_000,
        now + 2_000_000_000 < deadline ==> limit == now + 2_000_000_000,
        read <==> !acknowledged && now <= limit,
{
}

/// A focus is prepared where it was acknowledged.
pub proof fn a_focus_is_prepared_where_it_was_acknowledged(
    preparation: FocusPreparation,
    count: usize,
    acknowledged: bool,
    outcome: Result<Fields, NativeError>,
)
    requires
        call_ensures(FocusPreparation::finish, (preparation, count, acknowledged), outcome),
    ensures
        outcome is Ok <==> acknowledged,
        outcome is Err ==> outcome->Err_0.code == ErrorCode::DispatchFailed
            && outcome->Err_0.retryable,
{
}

/// An application that is in front needs no acknowledgement; another is asked until
/// it believes what it was told or time is up.
pub proof fn a_belief_is_acknowledged_or_refused(
    run: &mut TargetFocusRun,
    state: &mut MacFocusState,
    believed: Option<bool>,
    now: u64,
)
    requires
        call_ensures(
            TargetFocusRun::advance,
            (run, state, FocusEvent::Looked { believed, now }),
            (),
        ),
        old(run).stage is Acknowledge,
        old(run)@.result is None,
    ensures
        now > old(run).stage->limit ==> final(run)@.result is Some && final(run)@.result->0 is Err,
        now <= old(run).stage->limit ==> (final(run)@.result is Some <==> believed == Some(true)),
        now <= old(run).stage->limit && final(run)@.result is Some ==> final(run)@.result->0 is Ok,
        final(state).belief() == old(state).belief(),
{
}

/// The clock starts the wait, unless the application is in front already.
pub proof fn an_application_in_front_is_not_waited_for(
    run: &mut TargetFocusRun,
    state: &mut MacFocusState,
    now: u64,
)
    requires
        call_ensures(TargetFocusRun::advance, (run, state, FocusEvent::Clock { now }), ()),
        old(run).stage is Clock,
        old(run)@.result is None,
    ensures
        old(run).preparation.application_is_active ==> final(run)@.stage is Done
            && final(run)@.result->0 is Ok,
        !old(run).preparation.application_is_active ==> final(run)@.stage is Acknowledge
            && final(run)@.stage->limit <= old(run).deadline && final(run)@.result is None,
{
}

/// A notification that could not be posted ends the preparation; one that was is
/// believed, and leads on to the next that is needed.
pub proof fn a_notification_leads_to_the_next(
    run: &mut TargetFocusRun,
    state: &mut MacFocusState,
    posted: Result<(), NativeError>,
)
    requires
        call_ensures(
            TargetFocusRun::advance,
            (run, state, FocusEvent::KeyFocusPosted(posted)),
            (),
        ),
        old(run).stage is PostKeyFocus,
        old(run)@.result is None,
    ensures
        posted is Err ==> final(run)@.stage is Done && final(run)@.result->0 is Err
            && final(run)@.result->0->Err_0 == posted->Err_0@,
        posted is Ok ==> final(state).belief().believes_focus && final(run)@.result is None,
        posted is Ok && old(run).preparation.post_app_activated
            ==> final(run)@.stage is PostActivation,
        posted is Ok && !old(run).preparation.post_app_activated ==> final(run)@.stage is Clock,
{
}

/// A window is acted on where it is visible or only covered.
pub proof fn only_a_window_in_sight_is_acted_on(
    state: WindowStateKind,
    outcome: Result<(), NativeError>,
)
    requires
        call_ensures(interaction::ensure_actionable_window_state, (state,), outcome),
    ensures
        outcome is Ok <==> state is Visible || state is Occluded,
        outcome is Err ==> outcome->Err_0.code == ErrorCode::UnsupportedInBackground,
{
}

/// A target is live while nothing has poisoned it, its coordinator runs and its
/// window is the one that was asked for.
pub proof fn a_target_is_live_while_nothing_changed(
    invalidated: bool,
    shutdown: bool,
    target: &ResolvedWindowStamp,
    window: &ResolvedWindowStamp,
    facts: &ResolvedWindowStamp,
    live: Result<(), NativeError>,
    matched: Result<(), NativeError>,
)
    requires
        call_ensures(
            interaction::ensure_target_live,
            (invalidated, shutdown, target, window),
            live,
        ),
        call_ensures(interaction::ensure_native_facts_match, (facts, target, window), matched),
    ensures
        live is Ok <==> !invalidated && !shutdown && target@ == window@,
        matched is Ok <==> facts@ == target@ && facts@ == window@,
        live is Err ==> live->Err_0.code == ErrorCode::WindowIdentityChanged,
        matched is Err ==> matched->Err_0.code == ErrorCode::WindowIdentityChanged,
{
}

/// A suppression is planned for what opens a menu and for what acts in one of the
/// same process; its menu process is known only for the latter.
pub proof fn a_suppression_is_planned_for_menus(
    intent: &Option<MenuMutationIntent>,
    pid: i32,
    process: &str,
    action_id: &str,
    required: bool,
    outcome: Result<MenuSuppressionPlan, NativeError>,
)
    requires
        call_ensures(
            interaction::plan_menu_suppression,
            (intent, pid, process, action_id, required),
            outcome,
        ),
    ensures
        outcome is Ok ==> required == (intent is Some),
        intent is None && !required ==> outcome is Ok && outcome->Ok_0 is NotApplicable,
        outcome is Ok && intent is Some && intent->0 is Dismissing
            ==> outcome->Ok_0 is NotApplicable,
        outcome is Ok && intent is Some && !(intent->0 is Dismissing) ==> {
            &&& outcome->Ok_0 is ExactSourcePidPredicate
            &&& outcome->Ok_0->target_pid == pid
            &&& outcome->Ok_0->ExactSourcePidPredicate_action_id@ == action_id@
            &&& outcome->Ok_0->ExactSourcePidPredicate_menu_id@ == intent->0.menu()
            &&& outcome->Ok_0->ExactSourcePidPredicate_menu_pid == if intent->0 is Targeting {
                Some(pid)
            } else {
                None
            }
        },
        intent is Some && intent->0 is Targeting && intent->0->Targeting_identity.process@
            != process@ ==> outcome is Err,
        intent is Some && intent->0 is Opening && required ==> outcome is Ok,
{
}

/// An interaction is planned only on a live window in sight, with a proved recipe
/// and without an error of the keys.
pub proof fn an_interaction_is_planned_where_it_may_run(
    provider: &MacInteractionProvider,
    asked: &ScopeTarget<'_>,
    facts: MacWindowFacts,
    chord: Option<NativeError>,
    framework: Framework,
    route: Route,
    action: &ActionShape,
    requirements: ScopeRequirements,
    plan: Result<MacNativeScopePlan, NativeError>,
)
    requires
        call_ensures(
            MacInteractionProvider::preflight,
            (provider, asked, facts, chord, framework, route, action, requirements),
            plan,
        ),
    ensures
        plan is Ok ==> {
            &&& !asked.invalidated && !asked.focus_shutdown
            &&& asked.target@ == asked.window@ && facts.stamp@ == asked.target@
            &&& facts.state is Visible || facts.state is Occluded
            &&& chord is None
            &&& plan->Ok_0.facts == facts
            &&& plan->Ok_0.menu is NotApplicable
            &&& plan->Ok_0.recipe.target_belief == TargetBeliefRecipe::NotApplicable <==> route
                == Route::Semantic
        },
        !asked.invalidated && !asked.focus_shutdown && asked.target@ == asked.window@
            && facts.stamp@ == asked.target@ && (facts.state is Visible || facts.state is Occluded)
            && chord is None && route == Route::Semantic && !requirements.menu_dismissal
            && !requirements.target_belief ==> plan is Ok,
{
}

/// Leases are given back in the opposite order: the menu before accessibility.
pub proof fn the_menu_is_given_back_first(cleanup: &MacScopeCleanup, lease: Option<Lease>)
    requires
        call_ensures(MacScopeCleanup::next_release, (cleanup,), lease),
    ensures
        cleanup.menu ==> lease == Some(Lease::Menu),
        !cleanup.menu && cleanup.accessibility ==> lease == Some(Lease::Accessibility),
        !cleanup.menu && !cleanup.accessibility ==> lease is None,
{
}

/// A lease that was given back says so, one that was not says that; the other lease
/// stays what it was.
pub proof fn a_lease_says_how_it_was_given_back(
    cleanup: &mut MacScopeCleanup,
    fields: &Fields,
    failure: Option<NativeError>,
)
    requires
        call_ensures(MacScopeCleanup::release_lease, (cleanup, fields, failure), ()),
        old(cleanup).menu,
    ensures
        final(cleanup).leases.menu_dismissal == if failure is Some {
            LeaseTeardownStatus::Failed
        } else {
            LeaseTeardownStatus::Released
        },
        final(cleanup).leases.accessibility == old(cleanup).leases.accessibility,
        final(cleanup).failures@.len() == old(cleanup).failures@.len() + if failure is Some {
            1int
        } else {
            0int
        },
        final(cleanup).held().len() == old(cleanup).held().len() - 1,
{
    assert(interaction::errors_view(final(cleanup).failures@).len()
        == final(cleanup).failures@.len());
    assert(interaction::errors_view(old(cleanup).failures@).len() == old(cleanup).failures@.len());
}

/// A failed release poisons the target; a clean one does not.
pub proof fn only_a_failed_release_poisons(
    cleanup: &mut MacScopeCleanup,
    frontmost: Option<i32>,
    key: Option<bool>,
    outcome: ScopeTeardownOutcome,
)
    requires
        call_ensures(MacScopeCleanup::cleanup, (cleanup, frontmost, key), outcome),
        old(cleanup).outcome is None,
    ensures
        outcome@.target_poisoned <==> old(cleanup).failures@.len() > 0,
        outcome@.leases == old(cleanup).leases,
        outcome@.failures.len() == old(cleanup).failures@.len(),
{
}

/// Accessibility is acquired first, then the menu, then the belief; each is held
/// exactly where it was acquired.
pub proof fn leases_are_acquired_in_order(
    first: &mut ScopeAcquisition,
    second: &mut ScopeAcquisition,
    third: &mut ScopeAcquisition,
    accessibility: bool,
    menu: bool,
    belief: Option<Fields>,
)
    requires
        call_ensures(ScopeAcquisition::accessibility_acquired, (first, accessibility), ()),
        call_ensures(ScopeAcquisition::menu_acquired, (second, menu), ()),
        call_ensures(ScopeAcquisition::belief_prepared, (third, belief), ()),
    ensures
        final(first).pending == Some(AcquireRequest::Menu),
        final(first).cleanup.accessibility == accessibility,
        final(first).cleanup.menu == old(first).cleanup.menu,
        final(second).pending == Some(AcquireRequest::TargetBelief),
        final(second).cleanup.menu == menu,
        final(second).cleanup.accessibility == old(second).cleanup.accessibility,
        final(third).pending is None,
        final(third).belief == belief,
{
}

/// What was acquired is what is reported as acquired.
pub proof fn acquired_leases_are_reported(
    scope: &ScopeAcquisition,
    recipe: MacScopeRecipe,
    host: &HostRecipeContext,
    acquired: (ScopeLeaseAcquisition, Fields),
)
    requires
        call_ensures(ScopeAcquisition::acquired, (scope, recipe, host), acquired),
    ensures
        acquired.0.accessibility == LeaseDecision::Acquired <==> scope.cleanup.accessibility,
        acquired.0.menu_dismissal == LeaseDecision::Acquired <==> scope.cleanup.menu,
        acquired.0.target_belief == LeaseDecision::Acquired <==> scope.belief is Some,
{
}

/// The cause of a failed acquisition comes before what failed while giving back.
pub proof fn the_cause_comes_first(
    primary: NativeError,
    teardown: Vec<NativeError>,
    failures: Vec<NativeError>,
)
    requires
        call_ensures(interaction::acquisition_failures, (primary, teardown), failures),
    ensures
        failures@.len() == teardown@.len() + 1,
        failures@[0] == primary,
        forall|i: int| 0 <= i < teardown@.len() ==> failures@[i + 1] == #[trigger] teardown@[i],
{
}

} // verus!
