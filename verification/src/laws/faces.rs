//! What values are looked at as: what they hold, each part under its own name.
use vstd::prelude::*;

use crate::ax::minimized_recovery::{ExactAxWindowFacts, RecoveryFailure, RecoveryRun};
use crate::ax::refetch::{ElementIdentity, ElementLocator};
use crate::ax::tree_observation::TreeObservation;
use crate::ax::tree_provider::{CachedWindowTree, TreeWalkResult};
use crate::contracts::ResolvedWindowStamp;
use crate::driver::actions::click::ClickRoute;
use crate::driver::actions::keyboard_dispatch::KeyboardDispatch;
use crate::driver::actions::pointer::{NativePoint, PreparedPointerEvent};
use crate::driver::actions::pointer_dispatch::PointerDispatch;
use crate::driver::actions::semantic_dispatch::SemanticDispatch;
use crate::driver::actions::NativeDispatch;
use crate::driver::attempt::ObservationAttempt;
use crate::driver::elements::PublishedElement;
use crate::driver::focus::TargetFocusRun;
use crate::driver::frames::PreviousFrame;
use crate::driver::interaction::ScopeTeardownOutcome;
use crate::driver::lifecycle::{LaunchPostureScope, PendingLaunch, ResolvedLaunch};
use crate::driver::observation::{AttemptError, MacWindowFacts};
use crate::driver::observer::AxObserverRun;
use crate::driver::snapshot::RawAxSnapshot;
use crate::errors::NativeError;
use crate::evidence::{Detail, Scalar};

verus! {

/// A window stamp is its parts.
pub proof fn a_stamp_is_its_parts(stamp: ResolvedWindowStamp)
    ensures
        stamp@.app_id == stamp.app_id@,
        stamp@.window_id == stamp.window_id@,
        stamp@.generation == stamp.generation,
        stamp@.geometry_revision == stamp.geometry_revision@,
        stamp@.native_window == stamp.native_window@,
        stamp@.process == stamp.process@,
{
}

/// An error is its parts.
pub proof fn an_error_is_its_parts(error: NativeError)
    ensures
        error@.code == error.code,
        error@.phase == error.phase,
        error@.retryable == error.retryable,
        error@.message == error.message@,
        error@.details == error.details@,
{
}

/// A published element is its parts.
pub proof fn a_published_element_is_its_parts(element: PublishedElement, i: int)
    ensures
        element@.id == element.id@,
        element@.native == element.native@,
        element@.owner == element.owner@,
        element@.role == element.role@,
        element.subrole is Some ==> element@.subrole == Some(element.subrole->0@),
        element.subrole is None ==> element@.subrole is None,
        element.label is Some ==> element@.label == Some(element.label->0@),
        element.label is None ==> element@.label is None,
        element.value is Some ==> element@.value == Some(element.value->0@),
        element.value is None ==> element@.value is None,
        element@.bounds == element.bounds,
        0 <= i < element.actions@.len() ==> element@.actions[i] == element.actions@[i]@,
        element@.actions.len() == element.actions@.len(),
{
}

/// Window facts are their parts.
pub proof fn window_facts_are_their_parts(facts: MacWindowFacts)
    ensures
        facts@.stamp == facts.stamp@,
        facts@.pid == facts.pid,
        facts@.process_generation == facts.process_generation,
        facts@.cg_window_id == facts.cg_window_id,
        facts@.owner_name == facts.owner_name@,
        facts@.layer == facts.layer,
        facts@.bounds == facts.bounds,
        facts@.activation_point == facts.activation_point,
        facts@.scale_factor == facts.scale_factor,
        facts@.state == facts.state,
        facts@.is_on_screen == facts.is_on_screen,
        facts@.on_current_space == facts.on_current_space,
        facts@.minimized == facts.minimized,
{
}

/// A snapshot is its parts.
pub proof fn a_snapshot_is_its_parts(snapshot: RawAxSnapshot, i: int)
    ensures
        snapshot@.nodes.len() == snapshot.nodes@.len(),
        0 <= i < snapshot.nodes@.len() ==> snapshot@.nodes[i] == snapshot.nodes@[i]@,
        snapshot.focused is Some ==> snapshot@.focused == Some(snapshot.focused->0.identity),
        snapshot.focused is None ==> snapshot@.focused is None,
        snapshot.selected_text is Some ==> snapshot@.selected_text == Some(
            snapshot.selected_text->0@,
        ),
        snapshot.document_text is Some ==> snapshot@.document_text == Some(
            snapshot.document_text->0@,
        ),
        snapshot@.truncated == snapshot.truncated,
{
}

/// A native point is its parts.
pub proof fn a_native_point_is_its_parts(point: NativePoint)
    ensures
        point@.screen == point.screen,
        point@.window_local == point.window_local,
        point@.pid == point.pid,
        point@.cg_window_id == point.cg_window_id,
        point@.owner_bounds == point.owner_bounds,
        point@.owner == point.owner@,
        point@.surface_id == point.surface_id@,
        point@.capture_revision == point.capture_revision@,
        point@.geometry_revision == point.geometry_revision@,
        point@.observation_epoch == point.observation_epoch,
{
}

/// An event is its parts.
pub proof fn an_event_is_its_parts(event: PreparedPointerEvent)
    ensures
        event matches PreparedPointerEvent::Mouse(mouse) ==> event@ is Mouse && event@->Mouse_0.kind
            == mouse.kind && event@->Mouse_0.at == mouse.at && event@->Mouse_0.button
            == mouse.button && event@->Mouse_0.click_state == mouse.click_state
            && event@->Mouse_0.modifiers == mouse.modifiers@
            && event@->Mouse_0.scheduled_after_ms == mouse.scheduled_after_ms,
        event matches PreparedPointerEvent::PixelScroll {
            at,
            delta_x,
            delta_y,
            scheduled_after_ms,
        } ==> event@ is PixelScroll && event@->at == at && event@->delta_x == delta_x
            && event@->delta_y == delta_y && event@->scheduled_after_ms == scheduled_after_ms,
{
}

/// A route, a dispatch and an earlier frame are their parts.
pub proof fn routes_dispatches_and_frames_are_their_parts(
    route: ClickRoute,
    dispatch: NativeDispatch,
    frame: PreviousFrame,
)
    ensures
        route is Semantic ==> route@ is Semantic && route@->action == route->action@
            && route@->Semantic_reason == route->Semantic_reason@,
        route is TargetedPointer ==> route@ is TargetedPointer && route@->TargetedPointer_reason
            == route->TargetedPointer_reason@,
        dispatch@.verification == dispatch.verification,
        dispatch@.fields == dispatch.fields@,
        frame@.png == frame.png@,
        frame@.completion_unix_ms == frame.completion_unix_ms,
        frame@.display_time == frame.display_time,
{
}

/// A resolved launch is its parts.
pub proof fn a_resolved_launch_is_its_parts(launch: ResolvedLaunch)
    ensures
        launch@.app_ref == launch.app_ref@,
        launch.bundle_id is Some ==> launch@.bundle_id == Some(launch.bundle_id->0@),
        launch.bundle_id is None ==> launch@.bundle_id is None,
        launch.executable_path is Some ==> launch@.executable_path == Some(
            launch.executable_path->0@,
        ),
        launch.executable_path is None ==> launch@.executable_path is None,
        launch.name is Some ==> launch@.name == Some(launch.name->0@),
        launch.name is None ==> launch@.name is None,
        launch@.arguments.len() == launch.arguments@.len(),
{
}

/// A launch scope and what it waits for are their parts.
pub proof fn a_launch_scope_is_its_parts(scope: LaunchPostureScope, pending: PendingLaunch)
    ensures
        scope.action_id is Some ==> scope@.action_id == Some(scope.action_id->0@),
        scope@.side_effect_started == scope.side_effect_started,
        scope.partial_app is Some ==> scope@.partial_app == Some(scope.partial_app->0@),
        scope.partial_app is None ==> scope@.partial_app is None,
        scope@.partial_windows.len() == scope.partial_windows@.len(),
        scope@.posture == scope.posture,
        scope@.native_evidence == scope.native_evidence@,
        scope.pending_settlement is Some ==> scope@.pending_settlement == Some(
            scope.pending_settlement->0@,
        ),
        pending@.trigger_action_id == pending.trigger_action_id@,
        pending@.profile == pending.profile@,
        pending@.elapsed_ms == pending.elapsed_ms,
        pending@.observed_signals == pending.observed_signals@,
        pending@.missing_signals == pending.missing_signals@,
{
}

/// The end of a scope is its parts.
pub proof fn the_end_of_a_scope_is_its_parts(outcome: ScopeTeardownOutcome)
    ensures
        outcome@.native_evidence == outcome.native_evidence@,
        outcome@.leases == outcome.leases,
        outcome@.failures.len() == outcome.failures@.len(),
        outcome@.target_poisoned == outcome.target_poisoned,
{
}

/// Details are what they say.
pub proof fn details_are_what_they_say(detail: Detail, scalar: Scalar)
    ensures
        detail is Null <==> detail@ is Null,
        detail is Bool ==> detail@ is Bool && detail@->Bool_0 == detail->Bool_0,
        detail is Int ==> detail@ is Int && detail@->Int_0 == detail->Int_0,
        detail is Text ==> detail@ is Text && detail@->Text_0 == detail->Text_0@,
        detail is Texts ==> detail@ is Texts && detail@->Texts_0.len() == detail->Texts_0@.len(),
        detail is Ints ==> detail@ is Ints && detail@->Ints_0.len() == detail->Ints_0@.len(),
        detail is Real ==> detail@ is Real && detail@->Real_0 == detail->Real_0,
        scalar is Null <==> scalar@ is Null,
        scalar is Bool ==> scalar@ is Bool && scalar@->Bool_0 == scalar->Bool_0,
        scalar is Int ==> scalar@ is Int && scalar@->Int_0 == scalar->Int_0,
        scalar is Text ==> scalar@ is Text && scalar@->Text_0 == scalar->Text_0@,
{
}

/// Elements of a tree, their places and their windows are their parts.
pub proof fn places_in_trees_are_their_parts(
    identity: ElementIdentity,
    locator: ElementLocator,
    facts: ExactAxWindowFacts,
    i: int,
)
    ensures
        identity@.role == identity.role@,
        identity.subrole is Some ==> identity@.subrole == Some(identity.subrole->0@),
        identity.title is Some ==> identity@.title == Some(identity.title->0@),
        identity.title is None ==> identity@.title is None,
        identity.description is Some ==> identity@.description == Some(identity.description->0@),
        identity.identifier is Some ==> identity@.identifier == Some(identity.identifier->0@),
        identity.identifier is None ==> identity@.identifier is None,
        locator@.target == locator.target@,
        locator@.ancestors.len() == locator.ancestors@.len(),
        0 <= i < locator.ancestors@.len() ==> locator@.ancestors[i] == locator.ancestors@[i]@,
        facts@.minimized == facts.minimized,
        facts.subrole is Some ==> facts@.subrole == Some(facts.subrole->0@),
        facts.subrole is None ==> facts@.subrole is None,
        facts@.is_main == facts.is_main,
{
}

/// Trees and failed recoveries are their parts.
pub proof fn trees_and_failures_are_their_parts(
    tree: TreeWalkResult,
    cached: CachedWindowTree,
    failure: RecoveryFailure,
    attempt: AttemptError,
)
    ensures
        tree@.tree_markdown == tree.tree_markdown@,
        tree@.nodes == tree.nodes@,
        tree@.truncated == tree.truncated,
        tree@.window_scope == tree.window_scope,
        cached@.result == cached.result@,
        cached@.observer_epoch == cached.observer_epoch,
        cached@.action_borrow_epoch == cached.action_borrow_epoch,
        failure@.code == failure.code@,
        failure@.phase == failure.phase@,
        failure@.message == failure.message@,
        failure@.retryable == failure.retryable,
        failure@.effect_may_have_occurred == failure.effect_may_have_occurred,
        failure@.details == failure.details@,
        attempt is Raced ==> attempt@ is Raced && attempt@->stage == attempt->stage@,
        attempt is Fatal ==> attempt@ is Fatal && attempt@->Fatal_0 == attempt->Fatal_0@,
{
}

/// The dispatches are their parts.
pub proof fn dispatches_are_their_parts(
    keys: KeyboardDispatch,
    semantic: SemanticDispatch,
    pointer: PointerDispatch,
)
    ensures
        keys@.action == keys.action,
        keys@.deadline == keys.deadline,
        keys@.stage == keys.stage,
        keys@.kinds == keys.kinds@,
        keys@.focus_write == keys.focus_write,
        keys@.started == keys.started,
        keys@.result is Some <==> keys.result is Some,
        keys.result is Some ==> (keys@.result->0 is Ok <==> keys.result->0 is Ok),
        semantic@.kind == semantic.kind,
        semantic@.intent == semantic.intent,
        semantic@.deadline == semantic.deadline,
        semantic@.epoch == semantic.epoch,
        semantic@.stage == semantic.stage,
        semantic@.completed == semantic.completed,
        semantic@.scope_fields == semantic.scope_fields@,
        semantic@.menu == semantic.menu,
        semantic@.invalidates_target == semantic.invalidates_target,
        semantic@.result is Some <==> semantic.result is Some,
        semantic.result is Some ==> (semantic@.result->0 is Ok <==> semantic.result->0 is Ok),
        pointer@.sequence == pointer.sequence,
        pointer@.intent == pointer.intent,
        pointer@.deadline == pointer.deadline,
        pointer@.stage == pointer.stage,
        pointer@.run == pointer.run,
        pointer@.boundary_started == pointer.boundary_started,
        pointer@.post_failed == pointer.post_failed,
        pointer@.cursor == pointer.cursor,
        pointer@.menu == pointer.menu,
        pointer@.invalidates_target == pointer.invalidates_target,
        pointer@.result is Some <==> pointer.result is Some,
        pointer.result is Some ==> (pointer@.result->0 is Ok <==> pointer.result->0 is Ok),
{
}

/// The runs are their parts.
pub proof fn runs_are_their_parts(
    attempt: ObservationAttempt,
    focus: TargetFocusRun,
    observer: AxObserverRun,
    recovery: RecoveryRun,
    tree: TreeObservation,
)
    ensures
        attempt@.target == attempt.target@,
        attempt@.include_screenshots == attempt.include_screenshots,
        attempt@.epoch == attempt.epoch,
        attempt@.stage == attempt.stage,
        attempt@.snapshot == attempt.snapshot,
        attempt@.kinds == attempt.kinds@,
        attempt@.window_captured == attempt.window_captured,
        attempt@.captured == attempt.captured,
        attempt@.snapshot_again == attempt.snapshot_again,
        attempt.result is Some ==> (attempt@.result->0 is Ok <==> attempt.result->0 is Ok),
        focus@.preparation == focus.preparation,
        focus@.deadline == focus.deadline,
        focus@.stage == focus.stage,
        focus@.event_count == focus.event_count,
        focus.result is Some ==> (focus@.result->0 is Ok <==> focus.result->0 is Ok),
        observer@.target_window_id == observer.target_window_id,
        observer@.stage == observer.stage,
        observer@.target == observer.target,
        observer@.watched == observer.watched@,
        observer@.failure is Some <==> observer.failure is Some,
        recovery@.pid == recovery.pid,
        recovery@.window_id == recovery.window_id,
        recovery@.stage == recovery.stage,
        recovery@.write_started == recovery.write_started,
        recovery.result is Some ==> (recovery@.result->0 is Ok <==> recovery.result->0 is Ok),
        tree@.request == tree.request,
        tree@.observer_epoch == tree.observer_epoch,
        tree@.action_borrow_epoch == tree.action_borrow_epoch,
        tree@.stage == tree.stage,
        tree@.dirty == tree.dirty@,
        tree@.cache_epoch == tree.cache_epoch,
        tree@.served is Some <==> tree.served is Some,
{
}

} // verus!
