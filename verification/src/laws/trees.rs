//! When a tree that was read before is handed out again.
use vstd::prelude::*;

use crate::ax::refetch;
use crate::ax::refetch::{ElementIdentity, RefetchFailure};
use crate::ax::tree_observation::{TreeEvent, TreeObservation};
use crate::ax::tree_provider;
use crate::ax::tree_provider::{
    CachedWindowTree, ElementCacheUpdate, InvalidationSince, MacAxTreeProvider, ObserverEventKind,
    ObserverState, ProviderTree, TreeRequest, TreeReuse, TreeWalkResult, WindowScope,
};

verus! {

/// A changed value or title touches its element, a changed focus nothing, and any
/// other notification the whole tree.
pub proof fn notifications_touch_what_they_name(name: &str, kind: ObserverEventKind)
    requires
        call_ensures(tree_provider::kind_for_notification, (name,), kind),
    ensures
        name@ == "AXValueChanged"@ || name@ == "AXTitleChanged"@ ==> kind is Targeted,
        kind is Targeted ==> name@ == "AXValueChanged"@ || name@ == "AXTitleChanged"@,
        kind is Ignored <==> name@ == "AXFocusedUIElementChanged"@,
{
    reveal_strlit("AXValueChanged");
    reveal_strlit("AXTitleChanged");
    reveal_strlit("AXFocusedUIElementChanged");
    assert("AXValueChanged"@.len() == 14);
    assert("AXTitleChanged"@.len() == 14);
    assert("AXFocusedUIElementChanged"@.len() == 25);
}

/// Every notification moves the epoch by one and is kept last.
pub proof fn every_notification_is_kept(
    state: &mut ObserverState,
    name: &str,
    element: Option<(usize, usize)>,
)
    requires
        call_ensures(ObserverState::record, (state, name, element), ()),
        old(state).wf(),
        old(state).epoch < u64::MAX,
    ensures
        final(state).epoch == old(state).epoch + 1,
        final(state).events@.len() > 0,
        final(state).events@.last().epoch == final(state).epoch,
        final(state).events@.len() <= 512,
        name@ == "AXValueChanged"@ ==> final(state).events@.last().kind is Targeted,
        element is None ==> final(state).events@.last().render_id is None,
{
}

/// Nothing has changed exactly where the epoch is the same.
pub proof fn nothing_changed_where_the_epoch_is_the_same(
    state: &ObserverState,
    since: u64,
    outcome: InvalidationSince,
)
    requires
        call_ensures(ObserverState::invalidations_since, (state, since), outcome),
    ensures
        outcome is Clean <==> since == state.epoch,
        outcome is Targeted ==> outcome->through_epoch == state.epoch,
{
}

/// What is known of the changes is all of them, in order: one for each epoch.
pub proof fn targeted_changes_are_all_changes(
    state: &ObserverState,
    since: u64,
    outcome: InvalidationSince,
)
    requires
        call_ensures(ObserverState::invalidations_since, (state, since), outcome),
        state.wf(),
        since < state.epoch,
        outcome is Targeted,
    ensures
        outcome->elements@.len() == state.epoch - since,
{
    tree_provider::targeted_answers_miss_no_notification(*state, since);
}

/// A tree is kept only of a whole request: without a query, with the default
/// limits, and not for mere observation.
pub proof fn only_whole_requests_are_kept(request: TreeRequest, cacheable: bool)
    requires
        call_ensures(TreeRequest::cache_shape, (request,), cacheable),
    ensures
        cacheable <==> !request.has_query && request.default_limits && !request.observation_only,
{
}

/// A tree is used again only where that was allowed, the observer is reliable and no
/// action has borrowed its elements since; as it is only where nothing changed.
pub proof fn a_tree_is_used_again_where_it_may_be(
    provider: &MacAxTreeProvider,
    request: TreeRequest,
    observer: &Option<ObserverState>,
    reliable: bool,
    borrow: u64,
    reuse: TreeReuse,
)
    requires
        call_ensures(MacAxTreeProvider::reuse, (provider, request, observer, reliable, borrow), reuse),
    ensures
        !(reuse is Walk) ==> {
            &&& !request.has_query && request.default_limits && !request.observation_only
            &&& request.allow_cache_reuse
            &&& observer is Some && reliable
            &&& provider@.contains_key((request.pid, request.window_id))
            &&& provider@[(request.pid, request.window_id)].action_borrow_epoch == borrow
        },
        reuse matches TreeReuse::Clean(tree) ==> tree@ == provider@[(
            request.pid,
            request.window_id,
        )] && observer->0.epoch == tree@.observer_epoch,
        reuse is Refresh ==> reuse->cached@ == provider@[(request.pid, request.window_id)]
            && reuse->Refresh_through_epoch == observer->0.epoch,
{
}

/// A clean tree is handed out as it is, where neither epoch has moved.
pub proof fn a_clean_tree_is_handed_out_as_it_is(
    provider: &MacAxTreeProvider,
    cached: CachedWindowTree,
    epoch: u64,
    borrow: u64,
    borrow_now: u64,
    served: Option<ProviderTree>,
)
    requires
        call_ensures(
            MacAxTreeProvider::serve_clean,
            (provider, cached, epoch, borrow, borrow_now),
            served,
        ),
    ensures
        served is Some <==> epoch == cached.observer_epoch && borrow_now == borrow,
        served is Some ==> served->0.result@ == cached.result@ && served->0.cache_status@
            == "clean_cache"@,
{
}

/// A refreshed tree is handed out where every refresh went well and neither epoch
/// has moved; it is kept at the epoch that it was refreshed to.
pub proof fn a_refreshed_tree_is_handed_out_where_all_went_well(
    provider: &mut MacAxTreeProvider,
    request: TreeRequest,
    cached: CachedWindowTree,
    refreshed: Result<bool, ()>,
    through: u64,
    epoch: u64,
    borrow: u64,
    borrow_now: u64,
    served: Option<ProviderTree>,
)
    requires
        call_ensures(
            MacAxTreeProvider::serve_refreshed,
            (provider, request, cached, refreshed, through, epoch, borrow, borrow_now),
            served,
        ),
    ensures
        served is Some <==> refreshed is Ok && epoch == through && borrow_now == borrow,
        served is Some ==> served->0.result@ == cached.result@ && (served->0.cache_status@
            == "targeted_refetch"@ <==> refreshed->Ok_0),
        served is Some ==> final(provider)@.contains_key((request.pid, request.window_id))
            && final(provider)@[(request.pid, request.window_id)].observer_epoch == through,
        served is None ==> final(provider)@ == old(provider)@,
{
    reveal_strlit("targeted_refetch");
    reveal_strlit("clean_cache");
    assert("targeted_refetch"@.len() == 16);
    assert("clean_cache"@.len() == 11);
}

/// A walk is handed out as it is. It is kept exactly where the request was whole, the
/// walk was of the very window and complete, and its epoch is known; where it is not
/// kept, nothing of the window is.
pub proof fn only_exact_walks_are_kept(
    provider: &mut MacAxTreeProvider,
    request: TreeRequest,
    result: TreeWalkResult,
    epoch: Option<u64>,
    borrow: u64,
    published: ProviderTree,
)
    requires
        call_ensures(
            MacAxTreeProvider::publish,
            (provider, request, result, epoch, borrow),
            published,
        ),
    ensures
        published.result@ == result@,
        published.cache_status@ == "full_walk"@,
        final(provider)@.contains_key((request.pid, request.window_id)) <==> {
            &&& !request.has_query && request.default_limits && !request.observation_only
            &&& result.window_scope == Some(WindowScope::Matched)
            &&& !result.truncated
            &&& epoch is Some
        },
        final(provider)@.contains_key((request.pid, request.window_id)) ==> {
            let kept = final(provider)@[(request.pid, request.window_id)];
            kept.result == result@ && kept.observer_epoch == epoch->0 && kept.action_borrow_epoch
                == borrow
        },
{
}

/// The trees of other windows stay what they were.
pub proof fn trees_of_other_windows_stay(
    provider: &mut MacAxTreeProvider,
    request: TreeRequest,
    result: TreeWalkResult,
    epoch: Option<u64>,
    borrow: u64,
    published: ProviderTree,
    other: (i32, u32),
)
    requires
        call_ensures(
            MacAxTreeProvider::publish,
            (provider, request, result, epoch, borrow),
            published,
        ),
        other != (request.pid, request.window_id),
    ensures
        final(provider)@.contains_key(other) <==> old(provider)@.contains_key(other),
        old(provider)@.contains_key(other) ==> final(provider)@[other] == old(provider)@[other],
{
}

/// The elements that actions are served from are those of a walk of the very window;
/// a mere observation leaves them alone.
pub proof fn elements_are_replaced_by_exact_walks(
    request: TreeRequest,
    result: &TreeWalkResult,
    update: ElementCacheUpdate,
)
    requires
        call_ensures(tree_provider::element_cache_update, (request, result), update),
    ensures
        update is Keep <==> request.observation_only,
        update is ReplaceWithWalk <==> !request.observation_only && result.window_scope == Some(
            WindowScope::Matched,
        ),
        update is Clear <==> !request.observation_only && result.window_scope != Some(
            WindowScope::Matched,
        ),
{
}

/// A cached tree is confirmed where neither epoch has moved, and walked again where
/// one has.
pub proof fn a_cached_tree_is_confirmed_or_walked(
    observation: &mut TreeObservation,
    provider: &mut MacAxTreeProvider,
    epoch: u64,
    borrow: u64,
)
    requires
        call_ensures(
            TreeObservation::advance,
            (
                observation,
                provider,
                TreeEvent::Confirmed { observer_epoch: epoch, action_borrow_epoch: borrow },
            ),
            (),
        ),
        old(observation).wf(),
        old(observation).stage is Confirm,
    ensures
        final(observation)@.served is Some <==> epoch == old(observation)@.tree->0.observer_epoch
            && borrow == old(observation)@.action_borrow_epoch,
        final(observation)@.served is Some ==> final(observation)@.served->0.result
            == old(observation)@.tree->0.result && final(observation)@.stage is Done,
        final(observation)@.served is None ==> final(observation)@.stage is Walk,
        final(provider)@ == old(provider)@,
{
}

/// A walk is always what is served at its end, with its own epoch only where nothing
/// moved meanwhile.
pub proof fn a_walk_ends_in_its_own_tree(
    observation: &mut TreeObservation,
    provider: &mut MacAxTreeProvider,
    tree: TreeWalkResult,
    observer: Option<ObserverState>,
    reliable: bool,
)
    requires
        call_ensures(
            TreeObservation::advance,
            (observation, provider, TreeEvent::Walked { tree, observer, reliable }),
            (),
        ),
        old(observation).wf(),
        old(observation).stage is Walk,
    ensures
        final(observation)@.stage is Update || final(observation)@.stage is Follow,
        final(observation)@.tree is Some && final(observation)@.tree->0.result == tree@,
        final(observation)@.stage is Update && final(observation)@.cache_epoch is Some
            ==> observer is Some && reliable && observer->0.epoch
                == old(observation)@.observer_epoch && final(observation)@.cache_epoch->0
                == observer->0.epoch,
        observer is None || !reliable ==> final(observation)@.stage is Update
            && final(observation)@.cache_epoch is None,
        final(observation)@.served is None,
{
}

/// Two elements are the same where all that identifies them is.
pub proof fn elements_are_the_same_where_all_agrees(
    left: &ElementIdentity,
    right: &ElementIdentity,
    same: bool,
)
    requires
        call_ensures(ElementIdentity::same, (left, right), same),
    ensures
        same ==> left@.role == right@.role && left@.subrole == right@.subrole && left@.title
            == right@.title && left@.description == right@.description && left@.identifier
            == right@.identifier,
        left@.role == right@.role && left@.subrole == right@.subrole && left@.title == right@.title
            && left@.description == right@.description && left@.identifier == right@.identifier
            ==> same,
{
}

/// A refetch that fails says how.
pub proof fn a_failed_refetch_says_how(failure: RefetchFailure, reason: &'static str)
    requires
        call_ensures(RefetchFailure::reason, (failure,), reason),
    ensures
        failure is Missing ==> reason@ == "refetch_missing"@,
        failure is Ambiguous ==> reason@ == "refetch_ambiguous"@,
        failure is Incomplete ==> reason@ == "refetch_incomplete"@,
{
}

} // verus!
