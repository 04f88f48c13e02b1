//! How clicks are delivered.
use vstd::prelude::*;

use crate::contracts::{ClickSpec, MouseButton};
use crate::driver::actions::click;
use crate::driver::actions::click::{
    ClickFacts, ClickRoute, HitContainment, ParentWalk, WalkStep, WebContext,
};
use crate::driver::snapshot::RetainedAxElement;
use crate::errors::NativeError;
use crate::text;

verus! {

/// One unmodified left click.
pub open spec fn plain(click: ClickSpec) -> bool {
    click.button == MouseButton::Left && click.click_count == 1 && click.modifiers@.len() == 0
}

/// A plain click on an element that can be pressed or picked is never refused. It
/// uses that action, a press before a pick, but for web content where a point is
/// known and the pointer would hit the element there.
pub proof fn a_plain_click_on_a_pressable_element_is_never_refused(
    actions: Seq<Seq<char>>,
    click: ClickSpec,
    facts: ClickFacts,
)
    requires
        plain(click),
        actions.contains("AXPress"@) || actions.contains("AXPick"@),
    ensures
        click::click_route(actions, click, facts) is Ok,
        ({
            let route = click::click_route(actions, click, facts)->Ok_0;
            if facts.context is Web && facts.point_error is None && facts.hit is Contains {
                route is TargetedPointer
            } else {
                &&& route is Semantic
                &&& route->action == if actions.contains("AXPress"@) {
                    "AXPress"@
                } else {
                    "AXPick"@
                }
            }
        }),
{
}

/// Any other click, and a click on an element without such an action, needs the
/// pointer: it is refused exactly where the element has no clickable point, with
/// the reason for that.
pub proof fn other_clicks_need_a_clickable_point(
    actions: Seq<Seq<char>>,
    click: ClickSpec,
    facts: ClickFacts,
)
    requires
        !plain(click) || (!actions.contains("AXPress"@) && !actions.contains("AXPick"@)),
    ensures
        facts.point_error is None ==> (click::click_route(actions, click, facts) is Ok
            && click::click_route(actions, click, facts)->Ok_0 is TargetedPointer),
        facts.point_error matches Some(error) ==> click::click_route(actions, click, facts)
            == Err::<
            click::ClickRouteView,
            crate::errors::ErrorView,
        >(error@),
{
}

/// A route by the semantic action says why, with the cause where there is one.
pub proof fn semantic_clicks_say_why(
    actions: Seq<Seq<char>>,
    click: ClickSpec,
    facts: ClickFacts,
)
    requires
        click::click_route(actions, click, facts) is Ok,
        click::click_route(actions, click, facts)->Ok_0 is Semantic,
    ensures
        ({
            let reason = click::click_route(actions, click, facts)->Ok_0->Semantic_reason;
            match facts.context {
                WebContext::Native => reason == "signed_native_ordered_ax_action"@,
                WebContext::NotProven(cause) => reason
                    == "signed_web_context_not_proven_uses_semantic:"@ + cause@,
                WebContext::Web => match facts.point_error {
                    Some(error) => reason == "signed_web_click_point_not_proven_uses_semantic:"@
                        + error.message@,
                    None => match facts.hit {
                        HitContainment::Contains => false,
                        HitContainment::Outside => reason
                            == "signed_web_click_hit_outside_target_uses_semantic"@,
                        HitContainment::NotProven(cause) => reason
                            == "signed_web_click_containment_not_proven_uses_semantic:"@ + cause@,
                    },
                },
            }
        }),
{
}

/// One browser is web content throughout; everywhere else the ancestry decides,
/// and a failure to read it proves nothing.
pub proof fn the_ancestry_decides_but_in_one_browser(ancestry: Result<bool, Seq<char>>)
    ensures
        click::web_context_of(true, ancestry) == Ok::<bool, Seq<char>>(true),
        click::web_context_of(false, ancestry) == ancestry,
        click::ATLAS_BUNDLE_ID@ == "com.openai.atlas"@,
{
}

/// What clips an element: scroll areas, windows, sheets, menus and popovers do,
/// groups may, nothing above the application does, and no other role does.
pub proof fn only_containers_clip(role: Seq<char>)
    ensures
        click::clipping_role(role) == click::Clipping::Top <==> role == "AXApplication"@,
        click::clipping_role(role) == click::Clipping::AskActions <==> role == "AXGroup"@,
        click::clipping_role(role) == click::Clipping::Clips <==> (role == "AXScrollArea"@ || role
            == "AXWindow"@ || role == "AXSheet"@ || role == "AXMenu"@ || role == "AXPopover"@),
{
    reveal_strlit("AXApplication");
    reveal_strlit("AXGroup");
    reveal_strlit("AXScrollArea");
    reveal_strlit("AXWindow");
    reveal_strlit("AXSheet");
    reveal_strlit("AXMenu");
    reveal_strlit("AXPopover");
    assert("AXApplication"@.len() == 13);
    assert("AXScrollArea"@.len() == 12);
    assert("AXPopover"@.len() == 9);
    assert("AXWindow"@.len() == 8);
    assert("AXGroup"@.len() == 7);
    assert("AXSheet"@.len() == 7);
    assert("AXMenu"@.len() == 6);
    assert("AXGroup"@[2] == 'G');
    assert("AXSheet"@[2] == 'S');
}

/// A group clips exactly where it scrolls by pages, in whichever direction.
pub proof fn groups_that_scroll_by_pages_clip(actions: Seq<Seq<char>>, action: Seq<char>)
    ensures
        actions.contains(action) && (action == "AXScrollLeftByPage"@ || action
            == "AXScrollRightByPage"@ || action == "AXScrollUpByPage"@ || action
            == "AXScrollDownByPage"@) ==> click::scrolls_by_pages(actions),
        click::scrolls_by_pages(actions) ==> (actions.contains("AXScrollLeftByPage"@)
            || actions.contains("AXScrollRightByPage"@) || actions.contains("AXScrollUpByPage"@)
            || actions.contains("AXScrollDownByPage"@)),
{
}

/// A plain click on an element that can be pressed or picked always has a route:
/// by that action, but for web content that the pointer would hit.
pub proof fn a_plain_click_is_always_routed(
    actions: &Vec<String>,
    click: &ClickSpec,
    facts: ClickFacts,
    route: Result<ClickRoute, NativeError>,
)
    requires
        call_ensures(click::select_click_route, (actions, click, facts), route),
        plain(*click),
        text::texts(actions@).contains("AXPress"@) || text::texts(actions@).contains("AXPick"@),
    ensures
        route is Ok,
        route->Ok_0@ is TargetedPointer <==> facts.context is Web && facts.point_error is None
            && facts.hit is Contains,
        route->Ok_0@ is Semantic ==> text::texts(actions@).contains(route->Ok_0@->action),
        route->Ok_0@ is Semantic && text::texts(actions@).contains("AXPress"@)
            ==> route->Ok_0@->action == "AXPress"@,
        route->Ok_0@ is Semantic && !text::texts(actions@).contains("AXPress"@)
            ==> route->Ok_0@->action == "AXPick"@,
{
}

/// Every other click goes by the pointer, and is refused exactly where there is no
/// point to click at.
pub proof fn any_other_click_goes_by_the_pointer(
    actions: &Vec<String>,
    click: &ClickSpec,
    facts: ClickFacts,
    route: Result<ClickRoute, NativeError>,
)
    requires
        call_ensures(click::select_click_route, (actions, click, facts), route),
        !plain(*click) || (!text::texts(actions@).contains("AXPress"@) && !text::texts(
            actions@,
        ).contains("AXPick"@)),
    ensures
        route is Ok <==> facts.point_error is None,
        route is Ok ==> route->Ok_0@ is TargetedPointer,
        route is Err ==> route->Err_0@ == facts.point_error->0@,
{
}

/// A click with another button, another count or modifiers needs the pointer.
pub proof fn unusual_clicks_need_the_pointer(click: &ClickSpec, required: bool)
    requires
        call_ensures(click::pointer_required_by_shape, (click,), required),
    ensures
        required <==> !plain(*click),
{
}

/// The action for a click is a press where the element has one, else a pick.
pub proof fn a_press_comes_before_a_pick(actions: &Vec<String>, action: Option<&'static str>)
    requires
        call_ensures(click::ordered_semantic_action, (actions,), action),
    ensures
        text::texts(actions@).contains("AXPress"@) ==> action is Some && action->0@ == "AXPress"@,
        !text::texts(actions@).contains("AXPress"@) && text::texts(actions@).contains("AXPick"@)
            ==> action is Some && action->0@ == "AXPick"@,
        action is Some ==> text::texts(actions@).contains(action->0@),
{
}

/// An element that was hit contains the target where it is the target, and the
/// search goes up to its parent where it is not.
pub proof fn the_target_itself_is_hit(
    walk: &ParentWalk,
    target: &RetainedAxElement,
    step: WalkStep<HitContainment>,
)
    requires
        call_ensures(ParentWalk::hit, (walk, target), step),
    ensures
        step == WalkStep::Done(HitContainment::Contains) <==> walk.current.identity
            == target.identity,
{
}

/// What clips an element is decided by its role, and by the actions of a group.
pub proof fn clipping_is_decided_by_roles(
    role: Result<Option<String>, i32>,
    clipping: Result<click::Clipping, NativeError>,
    actions: Result<Vec<String>, i32>,
    clips: Result<bool, NativeError>,
)
    requires
        call_ensures(click::clipping_ancestor, (role,), clipping),
        call_ensures(click::clipping_group, (actions,), clips),
    ensures
        clips is Ok <==> actions is Ok,
        clips is Ok ==> (clips->Ok_0 <==> text::texts(actions->Ok_0@).contains(
            "AXScrollLeftByPage"@,
        ) || text::texts(actions->Ok_0@).contains("AXScrollRightByPage"@) || text::texts(
            actions->Ok_0@,
        ).contains("AXScrollUpByPage"@) || text::texts(actions->Ok_0@).contains(
            "AXScrollDownByPage"@,
        )),
{
}

/// An element is web content where it lies in a web area, and is not where the
/// application is reached first; a role that cannot be read proves neither.
pub proof fn a_web_area_makes_web_content(
    walk: &ParentWalk,
    role: Result<Option<String>, i32>,
    verdict: Option<Result<bool, String>>,
)
    requires
        call_ensures(ParentWalk::web_role, (walk, role), verdict),
    ensures
        role is Err ==> verdict is Some && verdict->0 is Err,
        verdict == Some(Ok::<bool, String>(true)) <==> role is Ok && text::optional_text(
            role->Ok_0,
        ) == Some("AXWebArea"@),
        verdict == Some(Ok::<bool, String>(false)) <==> role is Ok && text::optional_text(
            role->Ok_0,
        ) == Some("AXApplication"@),
{
    reveal_strlit("AXWebArea");
    reveal_strlit("AXApplication");
    assert("AXWebArea"@.len() == 9);
    assert("AXApplication"@.len() == 13);
}

/// Above the last parent there is no web area and no target.
pub proof fn the_search_ends_above_the_last_parent(
    web: &mut ParentWalk,
    hit: &mut ParentWalk,
    target: &RetainedAxElement,
    web_step: WalkStep<Result<bool, String>>,
    hit_step: WalkStep<HitContainment>,
)
    requires
        call_ensures(
            ParentWalk::web_parent,
            (web, Ok::<Option<RetainedAxElement>, i32>(None)),
            web_step,
        ),
        call_ensures(
            ParentWalk::hit_parent,
            (hit, target, Ok::<Option<RetainedAxElement>, i32>(None)),
            hit_step,
        ),
    ensures
        web_step == WalkStep::Done(Ok::<bool, String>(false)),
        hit_step == WalkStep::Done(HitContainment::Outside),
{
}

/// A parent that is the target contains the hit; the search goes on from any other
/// parent, and never says that the target was missed while there is one.
pub proof fn the_search_goes_up_to_the_target(
    walk: &mut ParentWalk,
    target: &RetainedAxElement,
    parent: RetainedAxElement,
    step: WalkStep<HitContainment>,
)
    requires
        call_ensures(
            ParentWalk::hit_parent,
            (walk, target, Ok::<Option<RetainedAxElement>, i32>(Some(parent))),
            step,
        ),
        old(walk).wf(),
    ensures
        final(walk).current == parent,
        step == WalkStep::Done(HitContainment::Contains) ==> parent.identity == target.identity,
        step is Visit ==> parent.identity != target.identity,
        step != WalkStep::Done(HitContainment::Outside),
{
}

} // verus!
