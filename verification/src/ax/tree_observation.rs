//! One observation of a window tree: served from the cache where nothing has
//! moved, followed through named changes, or walked anew.
//!
//! The host reads epochs, refreshes single nodes and walks; the observation
//! decides what to serve and what to keep.
use vstd::prelude::*;

use crate::ax::tree_provider;
use crate::ax::tree_provider::{
    apply_invalidations, element_cache_update, refresh_plan, CachedWindowTree, DirtyElement,
    ElementCacheUpdate, InvalidationSince, MacAxTreeProvider, ObserverState,
    ProviderTree, RefreshPlan, TreeNode, TreeRequest, TreeReuse, TreeWalkResult,
};

verus! {

/// What an observation awaits.
#[derive(Clone, Copy, Debug, PartialEq, Eq, Structural)]
pub enum TreeStage {
    /// Both epochs are read once more before the cached tree is served.
    Confirm,
    /// The nodes of the cached tree that have changed are read again.
    Refresh { through_epoch: u64 },
    /// The window is walked.
    Walk,
    /// The nodes that changed during the walk are read again.
    Follow { through_epoch: u64 },
    /// The elements that actions are served from are updated.
    Update { update: ElementCacheUpdate },
    Done,
}

/// What the host reports to an observation.
#[derive(Debug)]
pub enum TreeEvent {
    Confirmed { observer_epoch: u64, action_borrow_epoch: u64 },
    /// The refreshed tree and how each planned refresh went.
    Refreshed {
        tree: TreeWalkResult,
        refreshed: Vec<bool>,
        observer_epoch: u64,
        action_borrow_epoch: u64,
    },
    /// A walk, and the observer after it.
    Walked { tree: TreeWalkResult, observer: Option<ObserverState>, reliable: bool },
    /// The walked tree with its refreshes, and how each of them went.
    Followed { tree: TreeWalkResult, refreshed: Vec<bool>, observer_epoch: u64 },
    Updated { action_borrow_epoch: u64 },
}

/// An observation in progress.
#[derive(Debug)]
pub struct TreeObservation {
    pub request: TreeRequest,
    /// The epoch of the observer before the walk.
    pub observer_epoch: u64,
    pub action_borrow_epoch: u64,
    pub stage: TreeStage,
    /// The tree that is looked at.
    pub tree: Option<CachedWindowTree>,
    /// What has changed of it, as far as it can be followed.
    pub dirty: Vec<DirtyElement>,
    /// The refreshes that the changes ask for.
    pub plan: RefreshPlan,
    /// The epoch under which a walked tree may be kept.
    pub cache_epoch: Option<u64>,
    pub served: Option<ProviderTree>,
}

#[verifier::ext_equal]
pub ghost struct ServedView {
    pub result: tree_provider::TreeView,
    pub cache_status: Seq<char>,
}

#[verifier::ext_equal]
pub ghost struct ObservationView {
    pub request: TreeRequest,
    pub observer_epoch: u64,
    pub action_borrow_epoch: u64,
    pub stage: TreeStage,
    pub tree: Option<tree_provider::CachedView>,
    pub dirty: Seq<DirtyElement>,
    pub cache_epoch: Option<u64>,
    pub served: Option<ServedView>,
}

impl View for TreeObservation {
    type V = ObservationView;

    open spec fn view(&self) -> ObservationView {
        ObservationView {
            request: self.request,
            observer_epoch: self.observer_epoch,
            action_borrow_epoch: self.action_borrow_epoch,
            stage: self.stage,
            tree: match self.tree {
                Some(tree) => Some(tree@),
                None => None,
            },
            dirty: self.dirty@,
            cache_epoch: self.cache_epoch,
            served: match self.served {
                Some(served) => Some(
                    ServedView { result: served.result@, cache_status: served.cache_status@ },
                ),
                None => None,
            },
        }
    }
}

pub open spec fn all_hold(flags: Seq<bool>) -> bool {
    forall|i: int| 0 <= i < flags.len() ==> #[trigger] flags[i]
}

/// Whether a tree has followed its changes: no structural one touches it, and
/// every refresh it asks for succeeded.
pub open spec fn followed(
    nodes: Seq<TreeNode>,
    dirty: Seq<DirtyElement>,
    refreshed: Seq<bool>,
) -> bool {
    &&& !tree_provider::any_resync(nodes, dirty)
    &&& refreshed.len() == tree_provider::refresh_elements(nodes, dirty).len()
    &&& all_hold(refreshed)
}

/// A tree with nodes that were read again: how far the walk went stays as it
/// was.
pub open spec fn reread(
    walked: tree_provider::TreeView,
    tree: tree_provider::TreeView,
) -> tree_provider::TreeView {
    tree_provider::TreeView {
        truncated: walked.truncated,
        window_scope: walked.window_scope,
        ..tree
    }
}

/// The changes that an observer names since an epoch.
pub open spec fn named_since(state: ObserverState, since: u64) -> Seq<DirtyElement> {
    state.since(since).map_values(
        |event: tree_provider::ObserverEvent| tree_provider::dirty_of(event),
    )
}

impl ObservationView {
    pub open spec fn key(self) -> (i32, u32) {
        (self.request.pid, self.request.window_id)
    }

    pub open spec fn at(self, stage: TreeStage) -> ObservationView {
        ObservationView { stage, ..self }
    }

    /// An observation that has to walk.
    pub open spec fn walking(self) -> ObservationView {
        ObservationView {
            stage: TreeStage::Walk,
            tree: None,
            dirty: Seq::empty(),
            ..self
        }
    }

    pub open spec fn serving(
        self,
        result: tree_provider::TreeView,
        cache_status: Seq<char>,
    ) -> ObservationView {
        ObservationView {
            stage: TreeStage::Done,
            tree: None,
            served: Some(ServedView { result, cache_status }),
            ..self
        }
    }

    /// A walked tree, under the epoch that it may be kept under.
    pub open spec fn walked(
        self,
        tree: tree_provider::TreeView,
        cache_epoch: Option<u64>,
    ) -> ObservationView {
        ObservationView {
            stage: TreeStage::Update {
                update: if self.request.observation_only {
                    ElementCacheUpdate::Keep
                } else if tree.matched() {
                    ElementCacheUpdate::ReplaceWithWalk
                } else {
                    ElementCacheUpdate::Clear
                },
            },
            tree: Some(self.cached(tree)),
            cache_epoch,
            ..self
        }
    }

    pub open spec fn cached(self, tree: tree_provider::TreeView) -> tree_provider::CachedView {
        tree_provider::CachedView {
            result: tree,
            observer_epoch: self.observer_epoch,
            action_borrow_epoch: self.action_borrow_epoch,
        }
    }

    /// What the start of an observation finds in the cache.
    pub open spec fn starting(
        provider: MacAxTreeProvider,
        request: TreeRequest,
        observer: Option<ObserverState>,
        reliable: bool,
        action_borrow_epoch: u64,
    ) -> ObservationView {
        let fresh = ObservationView {
            request,
            observer_epoch: match observer {
                Some(state) => state.epoch,
                None => 0,
            },
            action_borrow_epoch,
            stage: TreeStage::Walk,
            tree: None,
            dirty: Seq::empty(),
            cache_epoch: None,
            served: None,
        };
        let cached = provider@[fresh.key()];
        let state = observer->0;
        if !provider.usable(request, observer, reliable, action_borrow_epoch) {
            fresh
        } else if state.epoch == cached.observer_epoch {
            (ObservationView { tree: Some(cached), ..fresh }).at(TreeStage::Confirm)
        } else if tree_provider::unbroken(
            state.since(cached.observer_epoch),
            cached.observer_epoch,
            state.epoch,
        ) {
            (ObservationView {
                tree: Some(cached),
                dirty: named_since(state, cached.observer_epoch),
                ..fresh
            }).at(TreeStage::Refresh { through_epoch: state.epoch })
        } else {
            fresh
        }
    }

    /// Where a finished walk leads.
    pub open spec fn after_walk(
        self,
        tree: tree_provider::TreeView,
        observer: Option<ObserverState>,
        reliable: bool,
    ) -> ObservationView {
        if !self.request.cacheable() || observer is None || !reliable {
            self.walked(tree, None)
        } else {
            let state = observer->0;
            if state.epoch == self.observer_epoch {
                self.walked(tree, Some(state.epoch))
            } else if tree_provider::unbroken(
                state.since(self.observer_epoch),
                self.observer_epoch,
                state.epoch,
            ) {
                (ObservationView {
                    tree: Some(self.cached(tree)),
                    dirty: named_since(state, self.observer_epoch),
                    ..self
                }).at(TreeStage::Follow { through_epoch: state.epoch })
            } else {
                self.walked(tree, None)
            }
        }
    }

    /// What an event leads to; an event that is not awaited changes nothing.
    pub open spec fn after(self, event: TreeEvent) -> ObservationView {
        match (self.stage, event) {
            (
                TreeStage::Confirm,
                TreeEvent::Confirmed { observer_epoch, action_borrow_epoch },
            ) => if observer_epoch == self.tree->0.observer_epoch && action_borrow_epoch
                == self.action_borrow_epoch {
                self.serving(self.tree->0.result, "clean_cache"@)
            } else {
                self.walking()
            },
            (
                TreeStage::Refresh { through_epoch },
                TreeEvent::Refreshed { tree, refreshed, observer_epoch, action_borrow_epoch },
            ) => if followed(self.tree->0.result.nodes, self.dirty, refreshed@) && observer_epoch
                == through_epoch && action_borrow_epoch == self.action_borrow_epoch {
                self.serving(
                    reread(self.tree->0.result, tree@),
                    if refreshed@.len() > 0 {
                        "targeted_refetch"@
                    } else {
                        "clean_cache"@
                    },
                )
            } else {
                self.walking()
            },
            (TreeStage::Walk, TreeEvent::Walked { tree, observer, reliable }) => self.after_walk(
                tree@,
                observer,
                reliable,
            ),
            (
                TreeStage::Follow { through_epoch },
                TreeEvent::Followed { tree, refreshed, observer_epoch },
            ) => self.walked(
                reread(self.tree->0.result, tree@),
                if followed(self.tree->0.result.nodes, self.dirty, refreshed@) && observer_epoch
                    == through_epoch {
                    Some(through_epoch)
                } else {
                    None
                },
            ),
            (TreeStage::Update { .. }, TreeEvent::Updated { .. }) => self.serving(
                self.tree->0.result,
                "full_walk"@,
            ),
            _ => self,
        }
    }

    /// What is kept once an event arrived.
    pub open spec fn kept(
        self,
        windows: Map<(i32, u32), tree_provider::CachedView>,
        event: TreeEvent,
    ) -> Map<(i32, u32), tree_provider::CachedView> {
        match (self.stage, event) {
            (
                TreeStage::Refresh { through_epoch },
                TreeEvent::Refreshed { tree, .. },
            ) => if self.after(event).served is Some {
                windows.insert(
                    self.key(),
                    tree_provider::CachedView {
                        result: reread(self.tree->0.result, tree@),
                        observer_epoch: through_epoch,
                        action_borrow_epoch: self.tree->0.action_borrow_epoch,
                    },
                )
            } else {
                windows
            },
            (TreeStage::Update { .. }, TreeEvent::Updated { action_borrow_epoch }) => {
                let tree = self.tree->0.result;
                if self.request.cacheable() && tree.matched() && !tree.truncated
                    && self.cache_epoch is Some {
                    windows.insert(
                        self.key(),
                        tree_provider::CachedView {
                            result: tree,
                            observer_epoch: self.cache_epoch->0,
                            action_borrow_epoch,
                        },
                    )
                } else {
                    windows.remove(self.key())
                }
            },
            _ => windows,
        }
    }

    /// A tree is at hand in every stage that looks at one, one out of the cache
    /// is complete and exact, and what is served ends the observation.
    pub open spec fn wf(self) -> bool {
        &&& self.stage is Done <==> self.served is Some
        &&& self.stage is Confirm || self.stage is Refresh || self.stage is Follow
            || self.stage is Update ==> self.tree is Some
        &&& self.stage is Confirm || self.stage is Refresh ==> self.tree->0.result.exact()
    }
}

/// A plan that fits the changes of a tree.
pub open spec fn plan_fits(
    plan: RefreshPlan,
    nodes: Seq<TreeNode>,
    dirty: Seq<DirtyElement>,
) -> bool {
    &&& plan.resync == tree_provider::any_resync(nodes, dirty)
    &&& !plan.resync ==> plan.refreshes@.len() == tree_provider::refresh_elements(nodes, dirty).len()
    &&& !plan.resync ==> forall|i: int|
        0 <= i < plan.refreshes@.len() ==> {
            let wanted = tree_provider::refresh_elements(nodes, dirty)[i];
            &&& tree_provider::node_with(
                nodes,
                wanted.render_id,
                (#[trigger] plan.refreshes@[i]).0 as int,
            )
            &&& plan.refreshes@[i].1 == wanted.element_ptr
        }
}

impl TreeObservation {
    /// The observation fits its stage, and its plan fits what has changed.
    pub open spec fn wf(&self) -> bool {
        &&& self@.wf()
        &&& self.stage is Refresh || self.stage is Follow ==> plan_fits(
            self.plan,
            self@.tree->0.result.nodes,
            self.dirty@,
        )
    }

    /// Starts an observation. `observer` is the state of the process observer,
    /// where one could be started.
    pub fn begin(
        provider: &MacAxTreeProvider,
        request: TreeRequest,
        observer: &Option<ObserverState>,
        reliable: bool,
        action_borrow_epoch: u64,
    ) -> (observation: TreeObservation)
        requires
            provider.wf(),
        ensures
            observation@ == ObservationView::starting(
                *provider,
                request,
                *observer,
                reliable,
                action_borrow_epoch,
            ),
            observation.wf(),
    {
        let observer_epoch: u64 = match observer {
            Some(state) => state.epoch(),
            None => 0,
        };
        let mut observation = TreeObservation {
            request,
            observer_epoch,
            action_borrow_epoch,
            stage: TreeStage::Walk,
            tree: None,
            dirty: Vec::new(),
            plan: RefreshPlan { refreshes: Vec::new(), resync: false },
            cache_epoch: None,
            served: None,
        };
        match provider.reuse(request, observer, reliable, action_borrow_epoch) {
            TreeReuse::Walk => {},
            TreeReuse::Clean(cached) => {
                observation.tree = Some(cached);
                observation.stage = TreeStage::Confirm;
            },
            TreeReuse::Refresh { cached, through_epoch, elements } => {
                observation.plan = refresh_plan(&cached.result.nodes, &elements);
                observation.tree = Some(cached);
                observation.dirty = elements;
                observation.stage = TreeStage::Refresh { through_epoch };
            },
        }
        observation
    }

    fn walk(&mut self)
        ensures
            final(self)@ == old(self)@.walking(),
    {
        self.stage = TreeStage::Walk;
        self.tree = None;
        self.dirty = Vec::new();
    }

    fn serve(&mut self, served: ProviderTree)
        ensures
            final(self)@ == old(self)@.serving(served.result@, served.cache_status@),
    {
        self.stage = TreeStage::Done;
        self.tree = None;
        self.served = Some(served);
    }

    fn keep_walk(&mut self, tree: TreeWalkResult, epoch: Option<u64>)
        ensures
            final(self)@ == old(self)@.walked(tree@, epoch),
    {
        self.stage = TreeStage::Update { update: element_cache_update(self.request, &tree) };
        self.tree = Some(
            CachedWindowTree {
                result: tree,
                observer_epoch: self.observer_epoch,
                action_borrow_epoch: self.action_borrow_epoch,
            },
        );
        self.cache_epoch = epoch;
    }

    fn confirmed(
        &mut self,
        provider: &MacAxTreeProvider,
        observer_epoch: u64,
        action_borrow_epoch: u64,
    )
        requires
            old(self).wf(),
            old(self).stage is Confirm,
        ensures
            final(self)@ == old(self)@.after(
                (TreeEvent::Confirmed { observer_epoch, action_borrow_epoch }),
            ),
            final(self).wf(),
    {
        let held: Option<CachedWindowTree> = self.tree.take();
        match held {
            Some(cached) => {
                match provider.serve_clean(
                    cached,
                    observer_epoch,
                    self.action_borrow_epoch,
                    action_borrow_epoch,
                ) {
                    Some(served) => self.serve(served),
                    None => self.walk(),
                }
            },
            None => {},
        }
    }

    fn refreshed(
        &mut self,
        provider: &mut MacAxTreeProvider,
        through_epoch: u64,
        tree: TreeWalkResult,
        refreshed: Vec<bool>,
        observer_epoch: u64,
        action_borrow_epoch: u64,
    )
        requires
            old(self).wf(),
            old(provider).wf(),
            old(self).stage == (TreeStage::Refresh { through_epoch }),
        ensures
            ({
                let event = TreeEvent::Refreshed {
                    tree,
                    refreshed,
                    observer_epoch,
                    action_borrow_epoch,
                };
                &&& final(self)@ == old(self)@.after(event)
                &&& final(provider)@ == old(self)@.kept(old(provider)@, event)
            }),
            final(self).wf(),
            final(provider).wf(),
    {
        let outcome: Result<bool, ()> = apply_invalidations(&self.plan, &refreshed);
        assert(outcome is Ok <==> followed(self@.tree->0.result.nodes, self.dirty@, refreshed@));
        let held: Option<CachedWindowTree> = self.tree.take();
        match held {
            Some(cached) => {
                let fresh = CachedWindowTree {
                    result: TreeWalkResult {
                        tree_markdown: tree.tree_markdown,
                        nodes: tree.nodes,
                        truncated: cached.result.truncated,
                        window_scope: cached.result.window_scope,
                    },
                    observer_epoch: cached.observer_epoch,
                    action_borrow_epoch: cached.action_borrow_epoch,
                };
                match provider.serve_refreshed(
                    self.request,
                    fresh,
                    outcome,
                    through_epoch,
                    observer_epoch,
                    self.action_borrow_epoch,
                    action_borrow_epoch,
                ) {
                    Some(served) => self.serve(served),
                    None => self.walk(),
                }
            },
            None => {},
        }
    }

    fn walked(&mut self, tree: TreeWalkResult, observer: Option<ObserverState>, reliable: bool)
        requires
            old(self).wf(),
            old(self).stage is Walk,
        ensures
            final(self)@ == old(self)@.after((TreeEvent::Walked { tree, observer, reliable })),
            final(self).wf(),
    {
        let state: ObserverState = match observer {
            Some(state) => state,
            None => {
                self.keep_walk(tree, None);
                return ;
            },
        };
        if !self.request.cache_shape() || !reliable {
            self.keep_walk(tree, None);
            return ;
        }
        match state.invalidations_since(self.observer_epoch) {
            InvalidationSince::Targeted { through_epoch, elements } => {
                self.plan = refresh_plan(&tree.nodes, &elements);
                self.tree = Some(
                    CachedWindowTree {
                        result: tree,
                        observer_epoch: self.observer_epoch,
                        action_borrow_epoch: self.action_borrow_epoch,
                    },
                );
                self.dirty = elements;
                self.stage = TreeStage::Follow { through_epoch };
            },
            InvalidationSince::Clean => self.keep_walk(tree, Some(state.epoch())),
            InvalidationSince::FullResync => self.keep_walk(tree, None),
        }
    }

    fn caught_up(
        &mut self,
        through_epoch: u64,
        tree: TreeWalkResult,
        refreshed: Vec<bool>,
        observer_epoch: u64,
    )
        requires
            old(self).wf(),
            old(self).stage == (TreeStage::Follow { through_epoch }),
        ensures
            final(self)@ == old(self)@.after(
                (TreeEvent::Followed { tree, refreshed, observer_epoch }),
            ),
            final(self).wf(),
    {
        let outcome: Result<bool, ()> = apply_invalidations(&self.plan, &refreshed);
        assert(outcome is Ok <==> followed(self@.tree->0.result.nodes, self.dirty@, refreshed@));
        let epoch: Option<u64> = if outcome.is_ok() && observer_epoch == through_epoch {
            Some(through_epoch)
        } else {
            None
        };
        let held: Option<CachedWindowTree> = self.tree.take();
        match held {
            Some(walked) => {
                let result = TreeWalkResult {
                    tree_markdown: tree.tree_markdown,
                    nodes: tree.nodes,
                    truncated: walked.result.truncated,
                    window_scope: walked.result.window_scope,
                };
                self.keep_walk(result, epoch);
            },
            None => {},
        }
    }

    fn updated(&mut self, provider: &mut MacAxTreeProvider, action_borrow_epoch: u64)
        requires
            old(self).wf(),
            old(provider).wf(),
            old(self).stage is Update,
        ensures
            ({
                let event = TreeEvent::Updated { action_borrow_epoch };
                &&& final(self)@ == old(self)@.after(event)
                &&& final(provider)@ == old(self)@.kept(old(provider)@, event)
            }),
            final(self).wf(),
            final(provider).wf(),
    {
        let held: Option<CachedWindowTree> = self.tree.take();
        match held {
            Some(walked) => {
                let served: ProviderTree = provider.publish(
                    self.request,
                    walked.result,
                    self.cache_epoch,
                    action_borrow_epoch,
                );
                self.serve(served);
            },
            None => {},
        }
    }

    /// Takes an event and moves on, and keeps in the provider what may be kept.
    pub fn advance(&mut self, provider: &mut MacAxTreeProvider, event: TreeEvent)
        requires
            old(self).wf(),
            old(provider).wf(),
        ensures
            final(self)@ == old(self)@.after(event),
            final(provider)@ == old(self)@.kept(old(provider)@, event),
            final(self).wf(),
            final(provider).wf(),
    {
        match (self.stage, event) {
            (
                TreeStage::Confirm,
                TreeEvent::Confirmed { observer_epoch, action_borrow_epoch },
            ) => self.confirmed(provider, observer_epoch, action_borrow_epoch),
            (
                TreeStage::Refresh { through_epoch },
                TreeEvent::Refreshed { tree, refreshed, observer_epoch, action_borrow_epoch },
            ) => self.refreshed(
                provider,
                through_epoch,
                tree,
                refreshed,
                observer_epoch,
                action_borrow_epoch,
            ),
            (TreeStage::Walk, TreeEvent::Walked { tree, observer, reliable }) => self.walked(
                tree,
                observer,
                reliable,
            ),
            (
                TreeStage::Follow { through_epoch },
                TreeEvent::Followed { tree, refreshed, observer_epoch },
            ) => self.caught_up(through_epoch, tree, refreshed, observer_epoch),
            (TreeStage::Update { .. }, TreeEvent::Updated { action_borrow_epoch }) => self.updated(
                provider,
                action_borrow_epoch,
            ),
            _ => {},
        }
    }
}

/// A cached tree is served only where every change since its epoch was
/// followed and nothing moved meanwhile; anything else is walked anew.
pub proof fn cached_trees_are_served_unmoved(state: ObservationView, event: TreeEvent)
    requires
        state.wf(),
        state.stage is Confirm || state.stage is Refresh,
    ensures
        state.after(event).served is Some ==> match event {
            TreeEvent::Confirmed { observer_epoch, action_borrow_epoch } => observer_epoch
                == state.tree->0.observer_epoch && action_borrow_epoch
                == state.action_borrow_epoch,
            TreeEvent::Refreshed { refreshed, observer_epoch, action_borrow_epoch, .. } => {
                &&& state.stage == TreeStage::Refresh { through_epoch: observer_epoch }
                &&& action_borrow_epoch == state.action_borrow_epoch
                &&& followed(state.tree->0.result.nodes, state.dirty, refreshed@)
            },
            _ => false,
        },
        state.after(event).served is None && state.after(event) != state ==> state.after(
            event,
        ).stage is Walk,
{
}

/// Only complete walks of the exact window are kept, and only under an epoch
/// that the observer vouches for; any other walk evicts the window.
pub proof fn only_exact_walks_are_kept(
    state: ObservationView,
    windows: Map<(i32, u32), tree_provider::CachedView>,
    event: TreeEvent,
)
    requires
        state.wf(),
        state.stage is Update,
        event is Updated,
    ensures
        state.kept(windows, event).contains_key(state.key()) ==> {
            &&& state.request.cacheable()
            &&& state.tree->0.result.matched()
            &&& !state.tree->0.result.truncated
            &&& state.cache_epoch is Some
            &&& state.kept(windows, event)[state.key()].result == state.tree->0.result
            &&& state.kept(windows, event)[state.key()].observer_epoch == state.cache_epoch->0
        },
{
}

impl ObservationView {
    /// The observation and the kept trees after some events.
    pub open spec fn run(
        self,
        windows: Map<(i32, u32), tree_provider::CachedView>,
        events: Seq<TreeEvent>,
    ) -> (ObservationView, Map<(i32, u32), tree_provider::CachedView>)
        decreases events.len(),
    {
        if events.len() == 0 {
            (self, windows)
        } else {
            let (state, kept) = self.run(windows, events.drop_last());
            (state.after(events.last()), state.kept(kept, events.last()))
        }
    }

    /// What is looked at or served out of the cache is complete and exact.
    spec fn exact(self) -> bool {
        &&& self.stage is Confirm || self.stage is Refresh ==> self.tree->0.result.exact()
        &&& self.served matches Some(served) ==> served.cache_status != "full_walk"@
            ==> served.result.exact()
    }

    /// Nothing is looked at or served out of the cache.
    spec fn uncached(self) -> bool {
        &&& !(self.stage is Confirm) && !(self.stage is Refresh)
        &&& self.served matches Some(served) ==> served.cache_status == "full_walk"@
    }
}

proof fn exactness_lasts(
    start: ObservationView,
    windows: Map<(i32, u32), tree_provider::CachedView>,
    events: Seq<TreeEvent>,
)
    requires
        start.exact(),
        tree_provider::exact_cache(windows),
    ensures
        start.run(windows, events).0.exact(),
        tree_provider::exact_cache(start.run(windows, events).1),
    decreases events.len(),
{
    if events.len() > 0 {
        exactness_lasts(start, windows, events.drop_last());
    }
}

proof fn walks_stay_walks(
    start: ObservationView,
    windows: Map<(i32, u32), tree_provider::CachedView>,
    events: Seq<TreeEvent>,
)
    requires
        start.uncached(),
    ensures
        start.run(windows, events).0.uncached(),
    decreases events.len(),
{
    if events.len() > 0 {
        walks_stay_walks(start, windows, events.drop_last());
    }
}

/// Out of the cache come only complete walks of the exact window, and only for
/// requests of the default shape that may reuse it; and nothing else is ever
/// kept, whatever the host reports.
pub proof fn the_cache_serves_only_complete_exact_walks(
    provider: MacAxTreeProvider,
    request: TreeRequest,
    observer: Option<ObserverState>,
    reliable: bool,
    action_borrow_epoch: u64,
    events: Seq<TreeEvent>,
)
    requires
        provider.wf(),
    ensures
        ({
            let start = ObservationView::starting(
                provider,
                request,
                observer,
                reliable,
                action_borrow_epoch,
            );
            let (state, kept) = start.run(provider@, events);
            &&& tree_provider::exact_cache(kept)
            &&& state.served matches Some(served) ==> served.cache_status != "full_walk"@ ==> {
                &&& provider.usable(request, observer, reliable, action_borrow_epoch)
                &&& served.result.exact()
            }
        }),
{
    let start = ObservationView::starting(
        provider,
        request,
        observer,
        reliable,
        action_borrow_epoch,
    );
    exactness_lasts(start, provider@, events);
    if !provider.usable(request, observer, reliable, action_borrow_epoch) {
        walks_stay_walks(start, provider@, events);
    }
}

proof fn inexact_walks_evict(
    start: ObservationView,
    windows: Map<(i32, u32), tree_provider::CachedView>,
    events: Seq<TreeEvent>,
)
    requires
        start.wf(),
        start.served is None,
        start.stage is Confirm || start.stage is Refresh ==> start.request.cacheable(),
    ensures
        ({
            let (state, kept) = start.run(windows, events);
            &&& state.wf()
            &&& state.request == start.request
            &&& state.stage is Confirm || state.stage is Refresh ==> state.request.cacheable()
            &&& state.served is Some && !(state.request.cacheable()
                && state.served->0.result.exact()) ==> !kept.contains_key(start.key())
        }),
    decreases events.len(),
{
    if events.len() > 0 {
        inexact_walks_evict(start, windows, events.drop_last());
    }
}

/// One observation of a window after another: where the first had another shape
/// or served a tree that was truncated or missed the exact window, or where the
/// second has another shape or may not reuse the cache, the second walks. What
/// other windows do in between makes no difference.
pub proof fn only_complete_exact_walks_are_served_again(
    provider: MacAxTreeProvider,
    request: TreeRequest,
    observer: Option<ObserverState>,
    reliable: bool,
    action_borrow_epoch: u64,
    events: Seq<TreeEvent>,
    next_provider: MacAxTreeProvider,
    next_request: TreeRequest,
    next_observer: Option<ObserverState>,
    next_reliable: bool,
    next_action_borrow_epoch: u64,
    next_events: Seq<TreeEvent>,
)
    requires
        provider.wf(),
        next_provider.wf(),
        next_request.pid == request.pid,
        next_request.window_id == request.window_id,
        ({
            let (state, kept) = ObservationView::starting(
                provider,
                request,
                observer,
                reliable,
                action_borrow_epoch,
            ).run(provider@, events);
            let key = (request.pid, request.window_id);
            &&& state.served is Some
            &&& next_provider@.contains_key(key) ==> kept.contains_key(key)
            &&& {
                ||| !request.cacheable()
                ||| !state.served->0.result.exact()
                ||| !next_request.cacheable()
                ||| !next_request.allow_cache_reuse
            }
        }),
    ensures
        ObservationView::starting(
            next_provider,
            next_request,
            next_observer,
            next_reliable,
            next_action_borrow_epoch,
        ).run(next_provider@, next_events).0.served matches Some(served) ==> served.cache_status
            == "full_walk"@,
{
    let start = ObservationView::starting(
        provider,
        request,
        observer,
        reliable,
        action_borrow_epoch,
    );
    inexact_walks_evict(start, provider@, events);
    let next = ObservationView::starting(
        next_provider,
        next_request,
        next_observer,
        next_reliable,
        next_action_borrow_epoch,
    );
    walks_stay_walks(next, next_provider@, next_events);
}

} // verus!
