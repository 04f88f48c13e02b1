//! Exact macOS interaction recipes and durable synthetic app-focus belief.
use vstd::prelude::*;

use crate::contracts::{ActionShape, Framework, MouseButton, Route, ScopeRequirements};
use crate::driver::target;
use crate::driver::target::MacFocusState;
use crate::errors;
use crate::errors::{ErrorCode, ErrorPhase, NativeError};
use crate::evidence;
use crate::evidence::{Detail, Fields};
use crate::text::same_text;

verus! {

/// How long a target may take to acknowledge a synthetic focus belief.
pub const BELIEF_ACK_TIMEOUT_NS: u64 = 2_000_000_000;

pub const BELIEF_ACK_TIMEOUT_MS: u64 = 2_000;

pub const BELIEF_ACK_POLL_INTERVAL_NS: u64 = 10_000_000;

#[derive(Debug)]
pub struct HostRecipeContext {
    pub os_version: String,
    pub architecture: String,
}

impl HostRecipeContext {
    /// The host as the system reports it. `os_version` is the trimmed product
    /// version where it could be read.
    pub fn from_reported(os_version: Option<String>, architecture: &str) -> (host: HostRecipeContext)
        ensures
            host.os_version@ == match os_version {
                Some(version) if version@.len() > 0 => version@,
                _ => "unknown"@,
            },
            host.architecture@ == architecture_text(architecture@),
    {
        let os_version: String = match os_version {
            Some(version) => if version.as_str().is_empty() {
                "unknown".to_owned()
            } else {
                version
            },
            None => "unknown".to_owned(),
        };
        HostRecipeContext { os_version, architecture: architecture_name(architecture).to_owned() }
    }

    /// The host on which the targeted pointer recipe is proved.
    pub open spec fn proven(&self) -> bool {
        self.os_version@ == "26.5.1"@ && self.architecture@ == "arm64"@
    }
}

impl Clone for HostRecipeContext {
    fn clone(&self) -> (copy: Self)
        ensures
            copy.os_version@ == self.os_version@,
            copy.architecture@ == self.architecture@,
    {
        HostRecipeContext {
            os_version: self.os_version.clone(),
            architecture: self.architecture.clone(),
        }
    }
}

/// The name that macOS gives an architecture.
pub open spec fn architecture_text(reported: Seq<char>) -> Seq<char> {
    if reported == "aarch64"@ {
        "arm64"@
    } else {
        reported
    }
}

pub fn architecture_name(reported: &str) -> (name: &str)
    ensures
        name@ == architecture_text(reported@),
{
    if same_text(reported, "aarch64") {
        "arm64"
    } else {
        reported
    }
}

#[derive(Debug, Clone, Copy, PartialEq, Eq, Structural)]
pub enum AccessibilityRecipe {
    NotApplicable,
    ChromiumPriorStatePreserving,
}

#[derive(Debug, Clone, Copy, PartialEq, Eq, Structural)]
pub enum MenuSuppressionRecipe {
    NotApplicable,
}

#[derive(Debug, Clone, Copy, PartialEq, Eq, Structural)]
pub enum TargetBeliefRecipe {
    NotApplicable,
    SwiftCoordinateClick,
}

#[derive(Debug, Clone, Copy, PartialEq, Eq, Structural)]
pub struct MacScopeRecipe {
    pub accessibility: AccessibilityRecipe,
    pub menu: MenuSuppressionRecipe,
    pub target_belief: TargetBeliefRecipe,
}

impl MacScopeRecipe {
    pub open spec fn evidence_text(self) -> Seq<char> {
        match self.target_belief {
            TargetBeliefRecipe::NotApplicable => "semantic_no_target_belief"@,
            TargetBeliefRecipe::SwiftCoordinateClick =>
            "swift_coordinate_click_cps_key_focus_returned_macos_26_5_1_arm64"@,
        }
    }

    pub fn evidence_name(self) -> (name: &'static str)
        ensures
            name@ == self.evidence_text(),
    {
        match self.target_belief {
            TargetBeliefRecipe::NotApplicable => "semantic_no_target_belief",
            TargetBeliefRecipe::SwiftCoordinateClick =>
            "swift_coordinate_click_cps_key_focus_returned_macos_26_5_1_arm64",
        }
    }
}

/// The one click that the targeted pointer recipe is proved for.
pub open spec fn proven_point_click(action: ActionShape) -> bool {
    action matches ActionShape::PointClick { spec } && spec.button is Left && spec.click_count == 1
        && spec.modifiers@.len() == 0
}

fn is_exact_proven_point_click(action: &ActionShape) -> (proven: bool)
    ensures
        proven == proven_point_click(*action),
{
    match action {
        ActionShape::PointClick { spec } => spec.button == MouseButton::Left && spec.click_count
            == 1 && spec.modifiers.len() == 0,
        _ => false,
    }
}

pub open spec fn recipe_unproven_view(
    host: HostRecipeContext,
    framework: Framework,
    route: Route,
    action: ActionShape,
    reason: Seq<char>,
) -> errors::ErrorView {
    errors::ErrorView::unsupported("recipe_unproven: "@ + reason).with(
        "recipe_status"@,
        evidence::DetailView::Text("recipe_unproven"@),
    ).with("os_version"@, evidence::DetailView::Text(host.os_version@)).with(
        "architecture"@,
        evidence::DetailView::Text(host.architecture@),
    ).with("framework"@, evidence::DetailView::Text(framework.text())).with(
        "route"@,
        evidence::DetailView::Text(route.text()),
    ).with("action"@, evidence::DetailView::Text(action.text()))
}

fn recipe_unproven(
    host: &HostRecipeContext,
    framework: Framework,
    route: Route,
    action: &ActionShape,
    reason: &str,
) -> (error: NativeError)
    ensures
        error@ == recipe_unproven_view(*host, framework, route, *action, reason@),
{
    let mut message: String = "recipe_unproven: ".to_owned();
    message.push_str(reason);
    NativeError::unsupported(message.as_str()).with_text("recipe_status", "recipe_unproven").with_text(
        "os_version",
        host.os_version.as_str(),
    ).with_text("architecture", host.architecture.as_str()).with_text(
        "framework",
        framework.name(),
    ).with_text("route", route.name()).with_text("action", action.name())
}

/// Why no recipe serves a request, if none does.
pub open spec fn unproven_reason(
    host: HostRecipeContext,
    framework: Framework,
    route: Route,
    action: ActionShape,
    requirements: ScopeRequirements,
) -> Option<Seq<char>> {
    if requirements.menu_dismissal {
        Some("exact per-pid and per-menu event-tap predicate is not proved"@)
    } else if route is TargetedPointer && framework is Catalyst {
        Some("the helper's Catalyst preparation and focus reassertion branch is not ported"@)
    } else if (route is Semantic && !requirements.target_belief) || (route is TargetedPointer
        && requirements.target_belief && host.proven() && proven_point_click(action)) {
        None
    } else {
        Some("no exact target-belief recipe is proved for this host/action cell"@)
    }
}

/// The recipe of a proved cell.
pub open spec fn proven_recipe(
    framework: Framework,
    route: Route,
    requirements: ScopeRequirements,
) -> MacScopeRecipe {
    MacScopeRecipe {
        accessibility: if requirements.accessibility && framework is Chromium {
            AccessibilityRecipe::ChromiumPriorStatePreserving
        } else {
            AccessibilityRecipe::NotApplicable
        },
        menu: MenuSuppressionRecipe::NotApplicable,
        target_belief: if route is Semantic {
            TargetBeliefRecipe::NotApplicable
        } else {
            TargetBeliefRecipe::SwiftCoordinateClick
        },
    }
}

/// Selects the recipe of an interaction scope from exact host and action
/// facts; a cell that was not proved is refused.
pub fn select_scope_recipe(
    host: &HostRecipeContext,
    framework: Framework,
    route: Route,
    action: &ActionShape,
    requirements: ScopeRequirements,
) -> (outcome: Result<MacScopeRecipe, NativeError>)
    ensures
        match unproven_reason(*host, framework, route, *action, requirements) {
            Some(reason) => outcome matches Err(error) && error@ == recipe_unproven_view(
                *host,
                framework,
                route,
                *action,
                reason,
            ),
            None => outcome == Ok::<MacScopeRecipe, NativeError>(
                proven_recipe(framework, route, requirements),
            ),
        },
{
    if requirements.menu_dismissal {
        return Err(
            recipe_unproven(
                host,
                framework,
                route,
                action,
                "exact per-pid and per-menu event-tap predicate is not proved",
            ),
        );
    }
    if route == Route::TargetedPointer && framework == Framework::Catalyst {
        return Err(
            recipe_unproven(
                host,
                framework,
                route,
                action,
                "the helper's Catalyst preparation and focus reassertion branch is not ported",
            ),
        );
    }
    let accessibility: AccessibilityRecipe = if requirements.accessibility && framework
        == Framework::Chromium {
        AccessibilityRecipe::ChromiumPriorStatePreserving
    } else {
        AccessibilityRecipe::NotApplicable
    };
    let target_belief: TargetBeliefRecipe = if route == Route::Semantic
        && !requirements.target_belief {
        TargetBeliefRecipe::NotApplicable
    } else if route == Route::TargetedPointer && requirements.target_belief && same_text(
        host.os_version.as_str(),
        "26.5.1",
    ) && same_text(host.architecture.as_str(), "arm64") && is_exact_proven_point_click(action) {
        TargetBeliefRecipe::SwiftCoordinateClick
    } else {
        return Err(
            recipe_unproven(
                host,
                framework,
                route,
                action,
                "no exact target-belief recipe is proved for this host/action cell",
            ),
        );
    };
    Ok(MacScopeRecipe { accessibility, menu: MenuSuppressionRecipe::NotApplicable, target_belief })
}

/// The framework alone never decides whether a point click is served: every
/// framework but Catalyst gets the same verdict.
pub proof fn recipes_do_not_guess_by_framework(
    host: HostRecipeContext,
    left: Framework,
    right: Framework,
    route: Route,
    action: ActionShape,
    requirements: ScopeRequirements,
)
    requires
        !(left is Catalyst),
        !(right is Catalyst),
    ensures
        unproven_reason(host, left, route, action, requirements) == unproven_reason(
            host,
            right,
            route,
            action,
            requirements,
        ),
{
}

/// What is to be posted so that a target believes it has focus.
#[derive(Debug, Clone, Copy, PartialEq, Eq, Structural)]
pub struct FocusPreparation {
    pub pid: i32,
    pub cg_window_id: u32,
    pub application_is_active: bool,
    pub post_key_focus_returned: bool,
    pub post_app_activated: bool,
}

/// The belief after the activity of the application was read.
pub open spec fn refreshed_belief(
    before: target::BeliefView,
    active: bool,
) -> target::BeliefView {
    target::BeliefView {
        active,
        believes_active: active || before.believes_active,
        believes_focus: active || before.believes_focus,
        ..before
    }
}

/// Starts the preparation of a target's focus: the coordinator must be live
/// and for this exact window, and only what the application does not believe
/// yet is posted.
pub fn begin_target_focus(
    state: &mut MacFocusState,
    pid: i32,
    cg_window_id: u32,
    application_is_active: bool,
) -> (outcome: Result<FocusPreparation, NativeError>)
    ensures
        final(state).menu() == old(state).menu(),
        match outcome {
            Err(error) => {
                &&& final(state).belief() == old(state).belief()
                &&& old(state).shutdown || old(state).pid != pid || old(state).cg_window_id
                    != cg_window_id
                &&& error@ == errors::ErrorView::stale(
                    ErrorCode::WindowIdentityChanged,
                    if old(state).shutdown {
                        "target focus coordinator is shut down"@
                    } else {
                        "target focus coordinator identity no longer matches the interaction target"@
                    },
                )
            },
            Ok(preparation) => {
                let after = refreshed_belief(old(state).belief(), application_is_active);
                &&& !old(state).shutdown && old(state).pid == pid && old(state).cg_window_id
                    == cg_window_id
                &&& final(state).belief() == after
                &&& preparation == FocusPreparation {
                    pid,
                    cg_window_id,
                    application_is_active,
                    post_key_focus_returned: !after.believes_focus,
                    post_app_activated: !after.believes_active,
                }
            },
        },
{
    if state.shutdown {
        return Err(
            NativeError::stale(
                ErrorCode::WindowIdentityChanged,
                "target focus coordinator is shut down",
            ),
        );
    }
    if state.pid != pid || state.cg_window_id != cg_window_id {
        return Err(
            NativeError::stale(
                ErrorCode::WindowIdentityChanged,
                "target focus coordinator identity no longer matches the interaction target",
            ),
        );
    }
    state.application_is_active = application_is_active;
    if application_is_active {
        state.application_believes_it_is_active = true;
        state.application_believes_it_has_focus = true;
    }
    Ok(
        FocusPreparation {
            pid,
            cg_window_id,
            application_is_active,
            post_key_focus_returned: !application_is_active
                && !state.application_believes_it_has_focus,
            post_app_activated: !application_is_active && !state.application_believes_it_is_active,
        },
    )
}

/// Records that the key-focus notification was posted.
pub fn key_focus_returned_posted(state: &mut MacFocusState)
    ensures
        final(state).menu() == old(state).menu(),
        final(state).belief() == (target::BeliefView {
            believes_focus: true,
            ..old(state).belief()
        }),
{
    state.application_believes_it_has_focus = true;
}

/// Records that the application-activated notification was posted.
pub fn app_activated_posted(state: &mut MacFocusState)
    ensures
        final(state).menu() == old(state).menu(),
        final(state).belief() == (target::BeliefView {
            believes_active: true,
            ..old(state).belief()
        }),
{
    state.application_believes_it_is_active = true;
}

/// The time by which an acknowledgement must have come.
pub fn acknowledgement_deadline(deadline: u64, now: u64) -> (limit: u64)
    ensures
        limit == if now + BELIEF_ACK_TIMEOUT_NS < deadline {
            now + BELIEF_ACK_TIMEOUT_NS
        } else {
            deadline as int
        },
{
    let limit: u64 = now.saturating_add(BELIEF_ACK_TIMEOUT_NS);
    if limit < deadline {
        limit
    } else {
        deadline
    }
}

/// Whether to read `AXFrontmost` once more.
pub fn awaits_acknowledgement(acknowledged: bool, now: u64, limit: u64) -> (read: bool)
    ensures
        read == (!acknowledged && now <= limit),
{
    !acknowledged && now <= limit
}

/// How long to pause before the next read: never past the limit.
pub fn acknowledgement_pause(now: u64, limit: u64) -> (pause: u64)
    ensures
        pause <= BELIEF_ACK_POLL_INTERVAL_NS,
        now + pause <= limit || pause == 0,
        pause == BELIEF_ACK_POLL_INTERVAL_NS || pause == limit - now || limit <= now,
{
    let left: u64 = limit.saturating_sub(now);
    if left < BELIEF_ACK_POLL_INTERVAL_NS {
        left
    } else {
        BELIEF_ACK_POLL_INTERVAL_NS
    }
}

impl FocusPreparation {
    pub open spec fn refusal(self, event_count: usize) -> errors::ErrorView {
        errors::ErrorView::new(
            ErrorCode::DispatchFailed,
            ErrorPhase::Preflight,
            true,
            "target did not acknowledge the synthetic focus belief through AXFrontmost"@,
        ).with("pid"@, evidence::DetailView::Int(self.pid as int)).with(
            "cg_window_id"@,
            evidence::DetailView::Int(self.cg_window_id as int),
        ).with(
            "cps_key_focus_returned_posted"@,
            evidence::DetailView::Bool(self.post_key_focus_returned),
        ).with(
            "app_activated_posted"@,
            evidence::DetailView::Bool(self.post_app_activated),
        ).with(
            "app_activation_event_count"@,
            evidence::DetailView::Int(event_count as int),
        ).with(
            "belief_ack_timeout_ms"@,
            evidence::DetailView::Int(BELIEF_ACK_TIMEOUT_MS as int),
        )
    }

    pub open spec fn evidence(self, event_count: usize) -> Map<Seq<char>, evidence::DetailView> {
        Map::<Seq<char>, evidence::DetailView>::empty().insert(
            "target_application_was_active"@,
            evidence::DetailView::Bool(self.application_is_active),
        ).insert(
            "target_focus_notification_posted"@,
            evidence::DetailView::Bool(self.post_key_focus_returned),
        ).insert(
            "target_focus_notification"@,
            evidence::DetailView::Text("cps_key_focus_returned"@),
        ).insert(
            "target_app_activation_posted"@,
            evidence::DetailView::Bool(self.post_app_activated),
        ).insert(
            "target_app_activation_event_count"@,
            evidence::DetailView::Int(event_count as int),
        ).insert(
            "target_ax_frontmost_acknowledged"@,
            evidence::DetailView::Bool(true),
        ).insert(
            "target_focus_lifetime"@,
            evidence::DetailView::Text("target_controller"@),
        ).insert(
            "target_focus_event_taps"@,
            evidence::DetailView::Text(
                "process_notification,target_mouse,view_bridge_keyboard_when_present"@,
            ),
        )
    }

    /// Ends the preparation: without an acknowledgement it is refused.
    pub fn finish(self, event_count: usize, acknowledged: bool) -> (outcome: Result<
        Fields,
        NativeError,
    >)
        ensures
            match outcome {
                Ok(fields) => acknowledged && fields@ == self.evidence(event_count),
                Err(error) => !acknowledged && error@ == self.refusal(event_count),
            },
    {
        if !acknowledged {
            return Err(
                NativeError::new(
                    ErrorCode::DispatchFailed,
                    ErrorPhase::Preflight,
                    true,
                    "target did not acknowledge the synthetic focus belief through AXFrontmost",
                ).with_int("pid", self.pid as i128).with_int(
                    "cg_window_id",
                    self.cg_window_id as i128,
                ).with_bool(
                    "cps_key_focus_returned_posted",
                    self.post_key_focus_returned,
                ).with_bool("app_activated_posted", self.post_app_activated).with_int(
                    "app_activation_event_count",
                    event_count as i128,
                ).with_int("belief_ack_timeout_ms", BELIEF_ACK_TIMEOUT_MS as i128),
            );
        }
        let mut fields: Fields = Fields::new();
        fields.insert("target_application_was_active", Detail::Bool(self.application_is_active));
        fields.insert(
            "target_focus_notification_posted",
            Detail::Bool(self.post_key_focus_returned),
        );
        fields.insert("target_focus_notification", Detail::text("cps_key_focus_returned"));
        fields.insert("target_app_activation_posted", Detail::Bool(self.post_app_activated));
        fields.insert("target_app_activation_event_count", Detail::Int(event_count as i128));
        fields.insert("target_ax_frontmost_acknowledged", Detail::Bool(true));
        fields.insert("target_focus_lifetime", Detail::text("target_controller"));
        fields.insert(
            "target_focus_event_taps",
            Detail::text("process_notification,target_mouse,view_bridge_keyboard_when_present"),
        );
        Ok(fields)
    }
}

/// What a preparation awaits.
#[derive(Debug, Clone, Copy, PartialEq, Eq, Structural)]
pub enum FocusStage {
    /// The key-focus notification is posted.
    PostKeyFocus,
    /// The application-activated notification is posted.
    PostActivation,
    /// The clock is read: the acknowledgement is awaited from now on.
    Clock,
    /// `AXFrontmost` is read until the limit.
    Acknowledge { limit: u64 },
    Done,
}

/// What the host reports to a preparation.
#[derive(Debug)]
pub enum FocusEvent {
    KeyFocusPosted(Result<(), NativeError>),
    /// With the number of events that were posted.
    ActivationPosted(Result<usize, NativeError>),
    Clock { now: u64 },
    /// What was read after `now`.
    Looked { believed: Option<bool>, now: u64 },
}

/// A preparation in progress.
#[derive(Debug)]
pub struct TargetFocusRun {
    pub preparation: FocusPreparation,
    pub deadline: u64,
    pub stage: FocusStage,
    pub event_count: usize,
    pub result: Option<Result<Fields, NativeError>>,
}

pub ghost struct FocusRunView {
    pub preparation: FocusPreparation,
    pub deadline: u64,
    pub stage: FocusStage,
    pub event_count: usize,
    pub result: Option<Result<Map<Seq<char>, evidence::DetailView>, errors::ErrorView>>,
}

impl View for TargetFocusRun {
    type V = FocusRunView;

    open spec fn view(&self) -> FocusRunView {
        FocusRunView {
            preparation: self.preparation,
            deadline: self.deadline,
            stage: self.stage,
            event_count: self.event_count,
            result: match self.result {
                Some(Ok(fields)) => Some(Ok(fields@)),
                Some(Err(error)) => Some(Err(error@)),
                None => None,
            },
        }
    }
}

impl FocusRunView {
    pub open spec fn failed(self, error: errors::ErrorView) -> FocusRunView {
        FocusRunView { stage: FocusStage::Done, result: Some(Err(error)), ..self }
    }

    pub open spec fn acknowledged(self, acknowledged: bool) -> FocusRunView {
        FocusRunView {
            stage: FocusStage::Done,
            result: Some(
                if acknowledged {
                    Ok(self.preparation.evidence(self.event_count))
                } else {
                    Err(self.preparation.refusal(self.event_count))
                },
            ),
            ..self
        }
    }

    /// What is posted after the key-focus notification.
    pub open spec fn activation_next(self) -> FocusRunView {
        FocusRunView {
            stage: if self.preparation.post_app_activated {
                FocusStage::PostActivation
            } else {
                FocusStage::Clock
            },
            ..self
        }
    }

    /// A preparation that was admitted to its coordinator.
    pub open spec fn starting(preparation: FocusPreparation, deadline: u64) -> FocusRunView {
        let run = FocusRunView {
            preparation,
            deadline,
            stage: FocusStage::PostKeyFocus,
            event_count: 0,
            result: None,
        };
        if preparation.post_key_focus_returned {
            run
        } else {
            run.activation_next()
        }
    }

    /// What an event leads to; an event that is not awaited changes nothing.
    pub open spec fn after(self, event: FocusEvent) -> FocusRunView {
        match (self.stage, event) {
            (FocusStage::PostKeyFocus, FocusEvent::KeyFocusPosted(posted)) => match posted {
                Err(error) => self.failed(error@),
                Ok(_) => self.activation_next(),
            },
            (FocusStage::PostActivation, FocusEvent::ActivationPosted(posted)) => match posted {
                Err(error) => self.failed(error@),
                Ok(event_count) => FocusRunView { stage: FocusStage::Clock, event_count, ..self },
            },
            (FocusStage::Clock, FocusEvent::Clock { now }) => if self.preparation.application_is_active {
                self.acknowledged(true)
            } else {
                FocusRunView {
                    stage: FocusStage::Acknowledge {
                        limit: if now + BELIEF_ACK_TIMEOUT_NS < self.deadline {
                            (now + BELIEF_ACK_TIMEOUT_NS) as u64
                        } else {
                            self.deadline
                        },
                    },
                    ..self
                }
            },
            (FocusStage::Acknowledge { limit }, FocusEvent::Looked { believed, now }) => if now
                > limit {
                self.acknowledged(false)
            } else if believed == Some(true) {
                self.acknowledged(true)
            } else {
                self
            },
            _ => self,
        }
    }

    /// What the coordinator believes of the application once an event arrived.
    pub open spec fn belief_after(
        self,
        belief: target::BeliefView,
        event: FocusEvent,
    ) -> target::BeliefView {
        match (self.stage, event) {
            (FocusStage::PostKeyFocus, FocusEvent::KeyFocusPosted(Ok(_))) => target::BeliefView {
                believes_focus: true,
                ..belief
            },
            (FocusStage::PostActivation, FocusEvent::ActivationPosted(Ok(_)))
            => target::BeliefView { believes_active: true, ..belief },
            _ => belief,
        }
    }
}

impl TargetFocusRun {
    /// Admits a preparation: only what the application does not believe yet is
    /// posted.
    pub fn begin(
        state: &mut MacFocusState,
        pid: i32,
        cg_window_id: u32,
        application_is_active: bool,
        deadline: u64,
    ) -> (run: Result<TargetFocusRun, NativeError>)
        ensures
            final(state).menu() == old(state).menu(),
            match run {
                Err(error) => {
                    &&& final(state).belief() == old(state).belief()
                    &&& old(state).shutdown || old(state).pid != pid || old(state).cg_window_id
                        != cg_window_id
                    &&& error@ == errors::ErrorView::stale(
                        ErrorCode::WindowIdentityChanged,
                        if old(state).shutdown {
                            "target focus coordinator is shut down"@
                        } else {
                            "target focus coordinator identity no longer matches the interaction target"@
                        },
                    )
                },
                Ok(run) => {
                    let believed = refreshed_belief(old(state).belief(), application_is_active);
                    &&& !old(state).shutdown && old(state).pid == pid && old(state).cg_window_id
                        == cg_window_id
                    &&& final(state).belief() == believed
                    &&& run@ == FocusRunView::starting(
                        FocusPreparation {
                            pid,
                            cg_window_id,
                            application_is_active,
                            post_key_focus_returned: !believed.believes_focus,
                            post_app_activated: !believed.believes_active,
                        },
                        deadline,
                    )
                },
            },
    {
        match begin_target_focus(state, pid, cg_window_id, application_is_active) {
            Err(error) => Err(error),
            Ok(preparation) => {
                let mut run: TargetFocusRun = TargetFocusRun {
                    preparation,
                    deadline,
                    stage: FocusStage::PostKeyFocus,
                    event_count: 0,
                    result: None,
                };
                if !preparation.post_key_focus_returned {
                    run.activation_next();
                }
                Ok(run)
            },
        }
    }

    fn activation_next(&mut self)
        ensures
            final(self)@ == old(self)@.activation_next(),
    {
        self.stage = if self.preparation.post_app_activated {
            FocusStage::PostActivation
        } else {
            FocusStage::Clock
        };
    }

    fn fail(&mut self, error: NativeError)
        ensures
            final(self)@ == old(self)@.failed(error@),
    {
        self.stage = FocusStage::Done;
        self.result = Some(Err(error));
    }

    fn acknowledge(&mut self, acknowledged: bool)
        ensures
            final(self)@ == old(self)@.acknowledged(acknowledged),
    {
        self.stage = FocusStage::Done;
        self.result = Some(self.preparation.finish(self.event_count, acknowledged));
    }

    /// Takes an event and moves on, and records what the application was told.
    pub fn advance(&mut self, state: &mut MacFocusState, event: FocusEvent)
        ensures
            final(self)@ == old(self)@.after(event),
            final(state).belief() == old(self)@.belief_after(old(state).belief(), event),
            final(state).menu() == old(state).menu(),
    {
        match (self.stage, event) {
            (FocusStage::PostKeyFocus, FocusEvent::KeyFocusPosted(posted)) => match posted {
                Err(error) => self.fail(error),
                Ok(_) => {
                    key_focus_returned_posted(state);
                    self.activation_next();
                },
            },
            (FocusStage::PostActivation, FocusEvent::ActivationPosted(posted)) => match posted {
                Err(error) => self.fail(error),
                Ok(event_count) => {
                    app_activated_posted(state);
                    self.event_count = event_count;
                    self.stage = FocusStage::Clock;
                },
            },
            (FocusStage::Clock, FocusEvent::Clock { now }) => {
                if self.preparation.application_is_active {
                    self.acknowledge(true);
                } else {
                    self.stage = FocusStage::Acknowledge {
                        limit: acknowledgement_deadline(self.deadline, now),
                    };
                }
            },
            (FocusStage::Acknowledge { limit }, FocusEvent::Looked { believed, now }) => {
                if !awaits_acknowledgement(false, now, limit) {
                    self.acknowledge(false);
                } else if believed == Some(true) {
                    self.acknowledge(true);
                }
            },
            _ => {},
        }
    }
}

/// A notification is posted only to an application that does not believe it
/// yet, and is believed as soon as it was posted: no later preparation posts it
/// again.
pub proof fn a_posted_notification_is_not_posted_again(
    run: FocusRunView,
    belief: target::BeliefView,
    event: FocusEvent,
    active: bool,
)
    ensures
        ({
            let later = refreshed_belief(run.belief_after(belief, event), active);
            &&& run.stage is PostKeyFocus && (event matches FocusEvent::KeyFocusPosted(posted)
                && posted is Ok) ==> later.believes_focus
            &&& run.stage is PostActivation && (event matches FocusEvent::ActivationPosted(posted)
                && posted is Ok) ==> later.believes_active
            &&& belief.believes_focus ==> later.believes_focus
            &&& belief.believes_active ==> later.believes_active
        }),
{
}

/// Each notification is posted at most once in the life of a target: after
/// both were posted, a later preparation posts neither, whether or not the
/// application has been active in between.
pub proof fn focus_belief_is_posted_once(before: target::BeliefView, active: bool)
    requires
        before.believes_active,
        before.believes_focus,
    ensures
        refreshed_belief(before, active).believes_active,
        refreshed_belief(before, active).believes_focus,
{
}

/// An active application is told nothing.
pub proof fn an_active_application_is_told_nothing(before: target::BeliefView)
    ensures
        refreshed_belief(before, true).believes_active,
        refreshed_belief(before, true).believes_focus,
{
}

} // verus!
