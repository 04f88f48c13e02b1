//! Click routing: which clicks an AX action can do, and which need a pointer.
use vstd::prelude::*;

use crate::contracts::{ClickSpec, MouseButton};
use crate::driver::actions::scroll::AX_PRESS;
use crate::driver::snapshot::RetainedAxElement;
use crate::errors;
use crate::errors::{ErrorCode, NativeError};
use crate::evidence;
use crate::text;
use crate::text::{holds_text, push_signed_decimal, same_text};

verus! {

pub const AX_PICK: &'static str = "AXPick";

/// How many ancestors are followed.
pub const MAX_AX_WALK_DEPTH: usize = 300;

pub const ATLAS_BUNDLE_ID: &'static str = "com.openai.atlas";

/// How a click is delivered.
#[derive(Debug)]
pub enum ClickRoute {
    Semantic { action: &'static str, reason: String },
    /// At the element's clickable point.
    TargetedPointer { reason: String },
}

pub ghost enum ClickRouteView {
    Semantic { action: Seq<char>, reason: Seq<char> },
    TargetedPointer { reason: Seq<char> },
}

impl View for ClickRoute {
    type V = ClickRouteView;

    open spec fn view(&self) -> ClickRouteView {
        match self {
            ClickRoute::Semantic { action, reason } => ClickRouteView::Semantic {
                action: action@,
                reason: reason@,
            },
            ClickRoute::TargetedPointer { reason } => ClickRouteView::TargetedPointer {
                reason: reason@,
            },
        }
    }
}

/// Whether an element belongs to web content.
#[derive(Debug)]
pub enum WebContext {
    Native,
    Web,
    NotProven(String),
}

/// Whether the element under a point is the target or lies in it.
#[derive(Debug)]
pub enum HitContainment {
    Contains,
    Outside,
    NotProven(String),
}

/// Anything but one plain left click.
pub open spec fn needs_pointer(click: ClickSpec) -> bool {
    click.button != MouseButton::Left || click.click_count != 1 || click.modifiers@.len() > 0
}

pub fn pointer_required_by_shape(click: &ClickSpec) -> (required: bool)
    ensures
        required == needs_pointer(*click),
{
    click.button != MouseButton::Left || click.click_count != 1 || click.modifiers.len() > 0
}

/// The semantic action of a click: a press if there is one, else a pick.
pub open spec fn semantic_action(actions: Seq<Seq<char>>) -> Option<Seq<char>> {
    if actions.contains(AX_PRESS@) {
        Some(AX_PRESS@)
    } else if actions.contains(AX_PICK@) {
        Some(AX_PICK@)
    } else {
        None
    }
}

pub fn ordered_semantic_action(actions: &Vec<String>) -> (action: Option<&'static str>)
    ensures
        match action {
            Some(action) => semantic_action(text::texts(actions@)) == Some(action@),
            None => semantic_action(text::texts(actions@)) is None,
        },
{
    if holds_text(actions, AX_PRESS) {
        Some(AX_PRESS)
    } else if holds_text(actions, AX_PICK) {
        Some(AX_PICK)
    } else {
        None
    }
}

/// What is known of a click's target besides its actions.
#[derive(Debug)]
pub struct ClickFacts {
    /// Why the element has no clickable point, where it has none.
    pub point_error: Option<NativeError>,
    pub context: WebContext,
    pub hit: HitContainment,
}

pub open spec fn pointer_at(point_error: Option<NativeError>, reason: Seq<char>) -> Result<
    ClickRouteView,
    errors::ErrorView,
> {
    match point_error {
        Some(error) => Err(error@),
        None => Ok(ClickRouteView::TargetedPointer { reason }),
    }
}

/// How a click is routed: plain clicks on native elements use the element's own
/// action; in web content the pointer is used where it would hit the target.
pub open spec fn click_route(
    actions: Seq<Seq<char>>,
    click: ClickSpec,
    facts: ClickFacts,
) -> Result<ClickRouteView, errors::ErrorView> {
    match semantic_action(actions) {
        _ if needs_pointer(click) => pointer_at(
            facts.point_error,
            "signed_click_shape_requires_targeted_pointer"@,
        ),
        None => pointer_at(
            facts.point_error,
            "signed_no_semantic_action_requires_targeted_pointer"@,
        ),
        Some(action) => Ok(
            match (facts.context, facts.point_error, facts.hit) {
                (WebContext::Native, _, _) => ClickRouteView::Semantic {
                    action,
                    reason: "signed_native_ordered_ax_action"@,
                },
                (WebContext::NotProven(reason), _, _) => ClickRouteView::Semantic {
                    action,
                    reason: "signed_web_context_not_proven_uses_semantic:"@ + reason@,
                },
                (WebContext::Web, Some(error), _) => ClickRouteView::Semantic {
                    action,
                    reason: "signed_web_click_point_not_proven_uses_semantic:"@ + error.message@,
                },
                (WebContext::Web, None, HitContainment::Contains)
                => ClickRouteView::TargetedPointer {
                    reason: "signed_web_click_hit_requires_targeted_pointer"@,
                },
                (WebContext::Web, None, HitContainment::Outside) => ClickRouteView::Semantic {
                    action,
                    reason: "signed_web_click_hit_outside_target_uses_semantic"@,
                },
                (WebContext::Web, None, HitContainment::NotProven(reason))
                => ClickRouteView::Semantic {
                    action,
                    reason: "signed_web_click_containment_not_proven_uses_semantic:"@ + reason@,
                },
            },
        ),
    }
}

fn semantic_route(action: &'static str, prefix: &str, cause: &str) -> (route: ClickRoute)
    ensures
        route@ == (ClickRouteView::Semantic { action: action@, reason: prefix@ + cause@ }),
{
    let mut reason: String = prefix.to_owned();
    reason.push_str(cause);
    ClickRoute::Semantic { action, reason }
}

fn pointer_route(point_error: Option<NativeError>, reason: &str) -> (route: Result<
    ClickRoute,
    NativeError,
>)
    ensures
        match route {
            Ok(route) => pointer_at(point_error, reason@) == Ok::<_, errors::ErrorView>(route@),
            Err(error) => pointer_at(point_error, reason@) == Err::<ClickRouteView, _>(error@),
        },
{
    match point_error {
        Some(error) => Err(error),
        None => Ok(ClickRoute::TargetedPointer { reason: reason.to_owned() }),
    }
}

pub fn select_click_route(actions: &Vec<String>, click: &ClickSpec, facts: ClickFacts) -> (route:
    Result<ClickRoute, NativeError>)
    ensures
        match route {
            Ok(route) => click_route(text::texts(actions@), *click, facts) == Ok::<
                _,
                errors::ErrorView,
            >(route@),
            Err(error) => click_route(text::texts(actions@), *click, facts) == Err::<
                ClickRouteView,
                _,
            >(error@),
        },
{
    let action: Option<&'static str> = ordered_semantic_action(actions);
    if pointer_required_by_shape(click) {
        return pointer_route(
            facts.point_error,
            "signed_click_shape_requires_targeted_pointer",
        );
    }
    let action: &'static str = match action {
        Some(action) => action,
        None => {
            return pointer_route(
                facts.point_error,
                "signed_no_semantic_action_requires_targeted_pointer",
            );
        },
    };
    match facts.context {
        WebContext::Native => Ok(
            ClickRoute::Semantic { action, reason: "signed_native_ordered_ax_action".to_owned() },
        ),
        WebContext::NotProven(reason) => Ok(
            semantic_route(
                action,
                "signed_web_context_not_proven_uses_semantic:",
                reason.as_str(),
            ),
        ),
        WebContext::Web => match facts.point_error {
            Some(error) => Ok(
                semantic_route(
                    action,
                    "signed_web_click_point_not_proven_uses_semantic:",
                    error.message.as_str(),
                ),
            ),
            None => match facts.hit {
                HitContainment::Contains => Ok(
                    ClickRoute::TargetedPointer {
                        reason: "signed_web_click_hit_requires_targeted_pointer".to_owned(),
                    },
                ),
                HitContainment::Outside => Ok(
                    ClickRoute::Semantic {
                        action,
                        reason: "signed_web_click_hit_outside_target_uses_semantic".to_owned(),
                    },
                ),
                HitContainment::NotProven(reason) => Ok(
                    semantic_route(
                        action,
                        "signed_web_click_containment_not_proven_uses_semantic:",
                        reason.as_str(),
                    ),
                ),
            },
        },
    }
}

/// A semantic click uses an action that the element has, and never stands in
/// for a click of another shape.
pub proof fn semantic_clicks_are_plain_and_exact(
    actions: Seq<Seq<char>>,
    click: ClickSpec,
    facts: ClickFacts,
)
    ensures
        click_route(actions, click, facts) matches Ok(ClickRouteView::Semantic { action, .. })
            ==> actions.contains(action) && !needs_pointer(click),
{
}

pub open spec fn web_context_of(bundle_is_atlas: bool, ancestry: Result<bool, Seq<char>>) -> Result<
    bool,
    Seq<char>,
> {
    if bundle_is_atlas {
        Ok(true)
    } else {
        ancestry
    }
}

/// The web context of an element: one browser is web content throughout,
/// elsewhere the ancestry decides.
pub fn web_context(bundle_id: &Option<String>, ancestry: Result<bool, String>) -> (context:
    WebContext)
    ensures
        ({
            let proved = web_context_of(
                text::optional_text(*bundle_id) == Some(ATLAS_BUNDLE_ID@),
                match ancestry {
                    Ok(web) => Ok(web),
                    Err(reason) => Err(reason@),
                },
            );
            match context {
                WebContext::Web => proved == Ok::<bool, Seq<char>>(true),
                WebContext::Native => proved == Ok::<bool, Seq<char>>(false),
                WebContext::NotProven(reason) => proved == Err::<bool, Seq<char>>(reason@),
            }
        }),
{
    let atlas: bool = match bundle_id {
        Some(bundle_id) => same_text(bundle_id.as_str(), ATLAS_BUNDLE_ID),
        None => false,
    };
    if atlas {
        return WebContext::Web;
    }
    match ancestry {
        Ok(true) => WebContext::Web,
        Ok(false) => WebContext::Native,
        Err(reason) => WebContext::NotProven(reason),
    }
}

fn failed_query(query: &str, status: i32) -> (reason: String)
    ensures
        reason@ == query@ + text::signed_decimal(status as int),
{
    let mut reason: String = query.to_owned();
    push_signed_decimal(&mut reason, status as i64);
    reason
}

pub open spec fn was_seen(seen: Seq<u64>, identity: u64) -> bool {
    seen.contains(identity)
}

fn seen_before(seen: &Vec<u64>, identity: u64) -> (found: bool)
    ensures
        found == was_seen(seen@, identity),
{
    let mut index: usize = 0;
    while index < seen.len()
        invariant
            index <= seen.len(),
            forall|i: int| 0 <= i < index ==> #[trigger] seen@[i] != identity,
        decreases seen.len() - index,
    {
        if seen[index] == identity {
            assert(seen@[index as int] == identity);
            return true;
        }
        index = index + 1;
    }
    false
}

/// A bounded walk from an element towards its application.
#[derive(Debug)]
pub struct ParentWalk {
    pub current: RetainedAxElement,
    /// The identities that the walk has left behind.
    pub seen: Vec<u64>,
}

/// What a walk does next.
#[derive(Debug)]
pub enum WalkStep<T> {
    /// Look at the current element.
    Visit,
    Done(T),
}

impl ParentWalk {
    pub open spec fn wf(&self) -> bool {
        self.seen@.len() < MAX_AX_WALK_DEPTH
    }

    pub fn begin(element: RetainedAxElement) -> (walk: ParentWalk)
        ensures
            walk.wf(),
            walk.current == element,
            walk.seen@ == Seq::<u64>::empty(),
    {
        ParentWalk { current: element, seen: Vec::new() }
    }

    /// What the role of the current element says of its web ancestry; nothing
    /// where the parent has to be asked.
    pub fn web_role(&self, role: Result<Option<String>, i32>) -> (verdict: Option<
        Result<bool, String>,
    >)
        ensures
            match role {
                Err(status) => verdict matches Some(Err(reason)) && reason@
                    == "ax_role_query_failed:"@ + text::signed_decimal(status as int),
                Ok(role) => if text::optional_text(role) == Some("AXWebArea"@) {
                    verdict == Some(Ok::<bool, String>(true))
                } else if text::optional_text(role) == Some("AXApplication"@) {
                    verdict == Some(Ok::<bool, String>(false))
                } else {
                    verdict is None
                },
            },
    {
        match role {
            Err(status) => Some(Err(failed_query("ax_role_query_failed:", status))),
            Ok(None) => None,
            Ok(Some(role)) => if same_text(role.as_str(), "AXWebArea") {
                Some(Ok(true))
            } else if same_text(role.as_str(), "AXApplication") {
                proof {
                    reveal_strlit("AXWebArea");
                    reveal_strlit("AXApplication");
                }
                Some(Ok(false))
            } else {
                None
            },
        }
    }

    /// Follows the parent of an element whose role did not settle whether it is
    /// web content. The top without a web area is native; a cycle or too long a
    /// way proves nothing.
    pub fn web_parent(&mut self, parent: Result<Option<RetainedAxElement>, i32>) -> (step: WalkStep<
        Result<bool, String>,
    >)
        requires
            old(self).wf(),
        ensures
            ({
                let longer = old(self).seen@.push(old(self).current.identity);
                match parent {
                    Err(status) => {
                        &&& step matches WalkStep::Done(Err(reason))
                        &&& reason@ == "ax_parent_query_failed:"@ + text::signed_decimal(
                            status as int,
                        )
                    },
                    Ok(None) => step == WalkStep::Done(Ok::<bool, String>(false)),
                    Ok(Some(parent)) => {
                        &&& final(self).current == parent
                        &&& final(self).seen@ == longer
                        &&& match step {
                            WalkStep::Visit => final(self).wf() && !was_seen(
                                longer,
                                parent.identity,
                            ),
                            WalkStep::Done(outcome) => outcome matches Err(reason) && reason@
                                == if longer.len() >= MAX_AX_WALK_DEPTH {
                                "ax_parent_walk_limit_exhausted"@
                            } else {
                                "ax_parent_identity_cycle"@
                            } && (longer.len() >= MAX_AX_WALK_DEPTH || was_seen(
                                longer,
                                parent.identity,
                            )),
                        }
                    },
                }
            }),
    {
        match parent {
            Err(status) => WalkStep::Done(Err(failed_query("ax_parent_query_failed:", status))),
            Ok(None) => WalkStep::Done(Ok(false)),
            Ok(Some(parent)) => {
                self.seen.push(self.current.identity);
                self.current = parent;
                if self.seen.len() >= MAX_AX_WALK_DEPTH {
                    return WalkStep::Done(Err("ax_parent_walk_limit_exhausted".to_owned()));
                }
                if seen_before(&self.seen, parent.identity) {
                    return WalkStep::Done(Err("ax_parent_identity_cycle".to_owned()));
                }
                WalkStep::Visit
            },
        }
    }

    /// Whether the element under the point is the target itself.
    pub fn hit(&self, target: &RetainedAxElement) -> (step: WalkStep<HitContainment>)
        ensures
            match step {
                WalkStep::Done(hit) => hit is Contains && self.current.identity
                    == target.identity,
                WalkStep::Visit => self.current.identity != target.identity,
            },
    {
        if self.current.same_identity(target) {
            WalkStep::Done(HitContainment::Contains)
        } else {
            WalkStep::Visit
        }
    }

    /// Follows the parent of an element under the point that is not the target.
    pub fn hit_parent(
        &mut self,
        target: &RetainedAxElement,
        parent: Result<Option<RetainedAxElement>, i32>,
    ) -> (step: WalkStep<HitContainment>)
        requires
            old(self).wf(),
        ensures
            ({
                let longer = old(self).seen@.push(old(self).current.identity);
                match parent {
                    Err(status) => {
                        &&& step matches WalkStep::Done(HitContainment::NotProven(reason))
                        &&& reason@ == "ax_hit_parent_query_failed:"@ + text::signed_decimal(
                            status as int,
                        )
                    },
                    Ok(None) => step == WalkStep::Done(HitContainment::Outside),
                    Ok(Some(parent)) => {
                        &&& final(self).current == parent
                        &&& final(self).seen@ == longer
                        &&& if longer.len() >= MAX_AX_WALK_DEPTH {
                            step matches WalkStep::Done(HitContainment::NotProven(reason))
                                && reason@ == "ax_hit_parent_walk_limit_exhausted"@
                        } else if parent.identity == target.identity {
                            step == WalkStep::Done(HitContainment::Contains)
                        } else if was_seen(longer, parent.identity) {
                            step matches WalkStep::Done(HitContainment::NotProven(reason))
                                && reason@ == "ax_hit_parent_identity_cycle"@
                        } else {
                            step is Visit && final(self).wf()
                        }
                    },
                }
            }),
    {
        match parent {
            Err(status) => WalkStep::Done(
                HitContainment::NotProven(failed_query("ax_hit_parent_query_failed:", status)),
            ),
            Ok(None) => WalkStep::Done(HitContainment::Outside),
            Ok(Some(parent)) => {
                self.seen.push(self.current.identity);
                self.current = parent;
                if self.seen.len() >= MAX_AX_WALK_DEPTH {
                    return WalkStep::Done(
                        HitContainment::NotProven("ax_hit_parent_walk_limit_exhausted".to_owned()),
                    );
                }
                if parent.same_identity(target) {
                    return WalkStep::Done(HitContainment::Contains);
                }
                if seen_before(&self.seen, parent.identity) {
                    return WalkStep::Done(
                        HitContainment::NotProven("ax_hit_parent_identity_cycle".to_owned()),
                    );
                }
                WalkStep::Visit
            },
        }
    }
}

/// The start of a hit test: the element that the application reports under a
/// point.
pub fn hit_element(
    application_available: bool,
    hit: Result<Option<RetainedAxElement>, i32>,
) -> (walk: Result<ParentWalk, HitContainment>)
    ensures
        match walk {
            Ok(walk) => application_available && hit == Ok::<_, i32>(Some(walk.current))
                && walk.wf() && walk.seen@.len() == 0,
            Err(outcome) => outcome matches HitContainment::NotProven(reason) && if !application_available {
                reason@ == "ax_application_root_unavailable"@
            } else {
                match hit {
                    Ok(Some(_)) => false,
                    Ok(None) => reason@ == "ax_hit_element_missing"@,
                    Err(status) => reason@ == "ax_hit_test_failed:"@ + text::signed_decimal(
                        status as int,
                    ),
                }
            },
        },
{
    if !application_available {
        return Err(HitContainment::NotProven("ax_application_root_unavailable".to_owned()));
    }
    match hit {
        Ok(Some(element)) => Ok(ParentWalk::begin(element)),
        Ok(None) => Err(HitContainment::NotProven("ax_hit_element_missing".to_owned())),
        Err(status) => Err(
            HitContainment::NotProven(failed_query("ax_hit_test_failed:", status)),
        ),
    }
}

pub open spec fn stale_ax_view(operation: Seq<char>, status: i32) -> errors::ErrorView {
    errors::ErrorView::stale(
        ErrorCode::ElementStale,
        operation + " failed during live click routing"@,
    ).with("ax_error"@, evidence::DetailView::Int(status as int))
}

/// A failed AX query on the way to a route.
pub fn stale_ax(operation: &str, status: i32) -> (error: NativeError)
    ensures
        error@ == stale_ax_view(operation@, status),
{
    let mut message: String = operation.to_owned();
    message.push_str(" failed during live click routing");
    NativeError::stale(ErrorCode::ElementStale, message.as_str()).with_int(
        "ax_error",
        status as i128,
    )
}

/// Geometry that is absent or makes no sense.
pub fn stale_geometry(message: &str) -> (error: NativeError)
    ensures
        error@ == errors::ErrorView::stale(ErrorCode::ElementStale, message@),
{
    NativeError::stale(ErrorCode::ElementStale, message)
}

/// An element whose center its ancestors clip away.
pub fn offscreen_error() -> (error: NativeError)
    ensures
        error@ == errors::ErrorView::unsupported(
            "element center lies outside its visible AX ancestor clip"@,
        ).with(
            "reason"@,
            evidence::DetailView::Text("element_center_outside_visible_ancestor_clip"@),
        ),
{
    NativeError::unsupported("element center lies outside its visible AX ancestor clip").with_text(
        "reason",
        "element_center_outside_visible_ancestor_clip",
    )
}

/// The walk over the ancestors that may clip an element.
#[derive(Debug)]
pub struct ClipWalk {
    /// The identities of the element and of the ancestors passed so far.
    pub seen: Vec<u64>,
}

/// What is known of a walk over clipping ancestors.
#[derive(Debug)]
pub enum ClipStep {
    /// Read the role of this ancestor.
    ReadRole(RetainedAxElement),
    /// No further ancestor clips.
    Finished,
}

/// How an ancestor clips.
#[derive(Debug, Clone, Copy, PartialEq, Eq, Structural)]
pub enum Clipping {
    /// The ancestor is the application: nothing above it clips.
    Top,
    Clips,
    Passes,
    /// A group clips if it can scroll by pages.
    AskActions,
}

pub open spec fn clipping_role(role: Seq<char>) -> Clipping {
    if role == "AXApplication"@ {
        Clipping::Top
    } else if role == "AXScrollArea"@ || role == "AXWindow"@ || role == "AXSheet"@ || role
        == "AXMenu"@ || role == "AXPopover"@ {
        Clipping::Clips
    } else if role == "AXGroup"@ {
        Clipping::AskActions
    } else {
        Clipping::Passes
    }
}

pub open spec fn scrolls_by_pages(actions: Seq<Seq<char>>) -> bool {
    actions.contains("AXScrollLeftByPage"@) || actions.contains("AXScrollRightByPage"@)
        || actions.contains("AXScrollUpByPage"@) || actions.contains("AXScrollDownByPage"@)
}

/// Whether an ancestor clips, by its role.
pub fn clipping_ancestor(role: Result<Option<String>, i32>) -> (clipping: Result<
    Clipping,
    NativeError,
>)
    ensures
        match clipping {
            Ok(clipping) => role matches Ok(Some(role)) && clipping == clipping_role(role@),
            Err(error) => match role {
                Ok(Some(_)) => false,
                Ok(None) => error@ == errors::ErrorView::stale(
                    ErrorCode::ElementStale,
                    "live AX clickable-point ancestor has no exact role"@,
                ),
                Err(status) => error@ == stale_ax_view(
                    "AXRole query for clickable point"@,
                    status,
                ),
            },
        },
{
    let role: String = match role {
        Err(status) => {
            return Err(stale_ax("AXRole query for clickable point", status));
        },
        Ok(None) => {
            return Err(
                NativeError::stale(
                    ErrorCode::ElementStale,
                    "live AX clickable-point ancestor has no exact role",
                ),
            );
        },
        Ok(Some(role)) => role,
    };
    let role: &str = role.as_str();
    if same_text(role, "AXApplication") {
        Ok(Clipping::Top)
    } else if same_text(role, "AXScrollArea") || same_text(role, "AXWindow") || same_text(
        role,
        "AXSheet",
    ) || same_text(role, "AXMenu") || same_text(role, "AXPopover") {
        Ok(Clipping::Clips)
    } else if same_text(role, "AXGroup") {
        Ok(Clipping::AskActions)
    } else {
        Ok(Clipping::Passes)
    }
}

/// Whether a group clips, by its actions.
pub fn clipping_group(actions: Result<Vec<String>, i32>) -> (clips: Result<bool, NativeError>)
    ensures
        match actions {
            Ok(actions) => clips == Ok::<bool, NativeError>(
                scrolls_by_pages(text::texts(actions@)),
            ),
            Err(status) => clips matches Err(error) && error@ == stale_ax_view(
                "AXGroup action query for clickable point"@,
                status,
            ),
        },
{
    match actions {
        Ok(actions) => Ok(
            holds_text(&actions, "AXScrollLeftByPage") || holds_text(
                &actions,
                "AXScrollRightByPage",
            ) || holds_text(&actions, "AXScrollUpByPage") || holds_text(
                &actions,
                "AXScrollDownByPage",
            ),
        ),
        Err(status) => Err(stale_ax("AXGroup action query for clickable point", status)),
    }
}

pub open spec fn clip_walk_exceeded() -> errors::ErrorView {
    errors::ErrorView::stale(
        ErrorCode::ElementStale,
        "live AX clickable-point parent walk exceeded its bound"@,
    )
}

fn clip_bound_error() -> (error: NativeError)
    ensures
        error@ == clip_walk_exceeded(),
{
    NativeError::stale(
        ErrorCode::ElementStale,
        "live AX clickable-point parent walk exceeded its bound",
    )
}

impl ClipWalk {
    pub open spec fn wf(&self) -> bool {
        1 <= self.seen@.len() <= MAX_AX_WALK_DEPTH
    }

    pub fn begin(element: &RetainedAxElement) -> (walk: ClipWalk)
        ensures
            walk.wf(),
            walk.seen@ == seq![element.identity],
    {
        let walk: ClipWalk = ClipWalk { seen: vec![element.identity] };
        assert(walk.seen@ =~= seq![element.identity]);
        walk
    }

    /// The next ancestor, as its child reports it.
    pub fn ascend(&self, parent: Result<Option<RetainedAxElement>, i32>) -> (step: Result<
        ClipStep,
        NativeError,
    >)
        requires
            self.wf(),
        ensures
            match parent {
                Err(status) => step matches Err(error) && error@ == stale_ax_view(
                    "AXParent query for clickable point"@,
                    status,
                ),
                Ok(None) => if self.seen@.len() >= MAX_AX_WALK_DEPTH {
                    step matches Err(error) && error@ == clip_walk_exceeded()
                } else {
                    step matches Ok(step) && step is Finished
                },
                Ok(Some(parent)) => if was_seen(self.seen@, parent.identity) {
                    step matches Err(error) && error@ == errors::ErrorView::stale(
                        ErrorCode::ElementStale,
                        "live AX clickable-point parent chain contains an identity cycle"@,
                    )
                } else {
                    step matches Ok(ClipStep::ReadRole(next)) && next == parent
                },
            },
    {
        match parent {
            Err(status) => Err(stale_ax("AXParent query for clickable point", status)),
            Ok(None) => if self.seen.len() >= MAX_AX_WALK_DEPTH {
                Err(clip_bound_error())
            } else {
                Ok(ClipStep::Finished)
            },
            Ok(Some(parent)) => if seen_before(&self.seen, parent.identity) {
                Err(
                    NativeError::stale(
                        ErrorCode::ElementStale,
                        "live AX clickable-point parent chain contains an identity cycle",
                    ),
                )
            } else {
                Ok(ClipStep::ReadRole(parent))
            },
        }
    }

    /// Leaves an ancestor behind.
    pub fn pass(&mut self, ancestor: &RetainedAxElement) -> (outcome: Result<(), NativeError>)
        requires
            old(self).wf(),
        ensures
            final(self).seen@ == old(self).seen@.push(ancestor.identity),
            match outcome {
                Ok(_) => final(self).wf(),
                Err(error) => final(self).seen@.len() > MAX_AX_WALK_DEPTH && error@
                    == clip_walk_exceeded(),
            },
    {
        self.seen.push(ancestor.identity);
        if self.seen.len() > MAX_AX_WALK_DEPTH {
            Err(clip_bound_error())
        } else {
            Ok(())
        }
    }
}

} // verus!
