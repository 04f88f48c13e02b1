//! Retained macOS AX trees with fail-closed notification invalidation.
//!
//! The provider deliberately caches only complete, exact-window walks.
//! Value/title notifications may refresh the exact retained callback element;
//! structural notifications and any event-log uncertainty require a complete
//! resynchronization.
use std::collections::VecDeque;
use vstd::prelude::*;

use crate::ax::bindings::AX_ERROR_SUCCESS;
use crate::text::same_text;

verus! {

/// How many notifications the event log keeps.
pub const EVENT_LOG_CAPACITY: usize = 512;

#[derive(Clone, Copy, Debug, PartialEq, Eq, Structural)]
pub enum ObserverEventKind {
    Targeted,
    FullResync,
    Ignored,
}

/// One recorded notification. `element_ptr` is zero where no element is
/// retained for a refresh.
#[derive(Clone, Copy, Debug, PartialEq, Eq, Structural)]
pub struct ObserverEvent {
    pub epoch: u64,
    pub kind: ObserverEventKind,
    pub render_id: Option<usize>,
    pub element_ptr: usize,
}

#[derive(Clone, Copy, Debug, PartialEq, Eq, Structural)]
pub struct DirtyElement {
    pub kind: ObserverEventKind,
    pub render_id: usize,
    pub element_ptr: usize,
}

#[derive(Debug)]
pub enum InvalidationSince {
    Clean,
    Targeted { through_epoch: u64, elements: Vec<DirtyElement> },
    FullResync,
}

pub open spec fn notification_kind(name: Seq<char>) -> ObserverEventKind {
    if name == "AXValueChanged"@ || name == "AXTitleChanged"@ {
        ObserverEventKind::Targeted
    } else if name == "AXFocusedUIElementChanged"@ {
        ObserverEventKind::Ignored
    } else {
        ObserverEventKind::FullResync
    }
}

/// What a notification asks of a cached tree.
pub fn kind_for_notification(name: &str) -> (kind: ObserverEventKind)
    ensures
        kind == notification_kind(name@),
{
    if same_text(name, "AXValueChanged") || same_text(name, "AXTitleChanged") {
        ObserverEventKind::Targeted
    } else if same_text(name, "AXFocusedUIElementChanged") {
        ObserverEventKind::Ignored
    } else {
        ObserverEventKind::FullResync
    }
}

/// The events after an epoch, in order.
pub open spec fn events_after(events: Seq<ObserverEvent>, since: u64) -> Seq<ObserverEvent>
    decreases events.len(),
{
    if events.len() == 0 {
        Seq::empty()
    } else if events.last().epoch > since {
        events_after(events.drop_last(), since).push(events.last())
    } else {
        events_after(events.drop_last(), since)
    }
}

pub open spec fn dirty_of(event: ObserverEvent) -> DirtyElement {
    DirtyElement {
        kind: event.kind,
        render_id: event.render_id->0,
        element_ptr: event.element_ptr,
    }
}

/// Whether a list of events is an unbroken lineage from one epoch to another
/// in which every event names the element it is about.
pub open spec fn unbroken(events: Seq<ObserverEvent>, since: u64, through: u64) -> bool {
    &&& events.len() > 0
    &&& events[0].epoch == since + 1
    &&& events.last().epoch == through
    &&& forall|i: int| 0 <= i < events.len() ==> (#[trigger] events[i]).render_id is Some
}

/// The notifications of one process that the provider has received.
#[derive(Debug)]
pub struct ObserverState {
    pub epoch: u64,
    pub events: VecDeque<ObserverEvent>,
}

impl ObserverState {
    /// The log holds the most recent notifications without a gap.
    pub open spec fn wf(&self) -> bool {
        &&& self.events@.len() <= EVENT_LOG_CAPACITY
        &&& self.events@.len() <= self.epoch
        &&& forall|i: int|
            0 <= i < self.events@.len() ==> (#[trigger] self.events@[i]).epoch == self.epoch - (
            self.events@.len() - 1 - i)
    }

    pub fn new() -> (state: ObserverState)
        ensures
            state.wf(),
            state.epoch == 0,
            state.events@.len() == 0,
    {
        ObserverState { epoch: 0, events: VecDeque::new() }
    }

    pub fn epoch(&self) -> (epoch: u64)
        ensures
            epoch == self.epoch,
    {
        self.epoch
    }

    pub open spec fn event_for(
        epoch: u64,
        name: Seq<char>,
        element: Option<(usize, usize)>,
    ) -> ObserverEvent {
        let kind = notification_kind(name);
        ObserverEvent {
            epoch,
            kind,
            render_id: match element {
                Some((hash, _)) if name != "AXCreated"@ => Some(hash),
                _ => None,
            },
            element_ptr: match element {
                Some((_, ptr)) if kind is Targeted => ptr,
                _ => 0,
            },
        }
    }

    /// Records one notification about an element, given by its identity hash
    /// and its reference. A creation names no element that a cached tree could
    /// hold, so it leaves the whole tree uncertain. The oldest event leaves a
    /// full log.
    pub fn record(&mut self, name: &str, element: Option<(usize, usize)>)
        requires
            old(self).epoch < u64::MAX,
        ensures
            final(self).epoch == old(self).epoch + 1,
            final(self).events@ == {
                let longer = old(self).events@.push(
                    ObserverState::event_for(final(self).epoch, name@, element),
                );
                if longer.len() > EVENT_LOG_CAPACITY {
                    longer.drop_first()
                } else {
                    longer
                }
            },
            old(self).wf() ==> final(self).wf(),
    {
        let epoch: u64 = self.epoch + 1;
        let kind: ObserverEventKind = kind_for_notification(name);
        let globally_uncertain: bool = same_text(name, "AXCreated");
        let render_id: Option<usize> = match element {
            Some((hash, _)) => if globally_uncertain {
                None
            } else {
                Some(hash)
            },
            None => None,
        };
        let element_ptr: usize = match element {
            Some((_, ptr)) => match kind {
                ObserverEventKind::Targeted => ptr,
                _ => 0,
            },
            None => 0,
        };
        self.epoch = epoch;
        self.events.push_back(ObserverEvent { epoch, kind, render_id, element_ptr });
        if self.events.len() > EVENT_LOG_CAPACITY {
            let ghost longer = self.events@;
            self.events.pop_front();
            assert(self.events@ =~= longer.drop_first());
        }
    }

    pub open spec fn since(&self, since: u64) -> Seq<ObserverEvent> {
        events_after(self.events@, since)
    }

    /// What has happened since an epoch: nothing, an unbroken list of named
    /// elements, or something that only a full walk can resolve.
    pub fn invalidations_since(&self, since_epoch: u64) -> (outcome: InvalidationSince)
        ensures
            match outcome {
                InvalidationSince::Clean => since_epoch == self.epoch,
                InvalidationSince::Targeted { through_epoch, elements } => {
                    &&& since_epoch != self.epoch
                    &&& through_epoch == self.epoch
                    &&& unbroken(self.since(since_epoch), since_epoch, self.epoch)
                    &&& elements@ == self.since(since_epoch).map_values(
                        |event: ObserverEvent| dirty_of(event),
                    )
                },
                InvalidationSince::FullResync => since_epoch != self.epoch && !unbroken(
                    self.since(since_epoch),
                    since_epoch,
                    self.epoch,
                ),
            },
    {
        if since_epoch == self.epoch {
            return InvalidationSince::Clean;
        }
        let mut relevant: Vec<ObserverEvent> = Vec::new();
        let mut index: usize = 0;
        while index < self.events.len()
            invariant
                index <= self.events.len(),
                relevant@ == events_after(self.events@.take(index as int), since_epoch),
                forall|i: int| 0 <= i < relevant@.len() ==> (#[trigger] relevant@[i]).epoch
                    > since_epoch,
            decreases self.events.len() - index,
        {
            let ghost longer = self.events@.take(index as int + 1);
            assert(longer.drop_last() =~= self.events@.take(index as int));
            if self.events[index].epoch > since_epoch {
                relevant.push(self.events[index]);
            }
            index = index + 1;
        }
        assert(self.events@.take(index as int) =~= self.events@);
        if relevant.len() == 0 {
            return InvalidationSince::FullResync;
        }
        if relevant[0].epoch != since_epoch + 1 || relevant[relevant.len() - 1].epoch
            != self.epoch {
            return InvalidationSince::FullResync;
        }
        let mut elements: Vec<DirtyElement> = Vec::new();
        let mut index: usize = 0;
        while index < relevant.len()
            invariant
                index <= relevant.len(),
                since_epoch != self.epoch,
                relevant@ == self.since(since_epoch),
                elements@.len() == index,
                forall|i: int|
                    0 <= i < index ==> (#[trigger] relevant@[i]).render_id is Some && elements@[i]
                        == dirty_of(relevant@[i]),
            decreases relevant.len() - index,
        {
            match relevant[index].render_id {
                Some(render_id) => elements.push(
                    DirtyElement {
                        kind: relevant[index].kind,
                        render_id,
                        element_ptr: relevant[index].element_ptr,
                    },
                ),
                None => return InvalidationSince::FullResync,
            }
            index = index + 1;
        }
        assert(elements@ =~= relevant@.map_values(|event: ObserverEvent| dirty_of(event)));
        InvalidationSince::Targeted { through_epoch: self.epoch, elements }
    }
}

proof fn suffix_after(events: Seq<ObserverEvent>, epoch: int, since: u64)
    requires
        forall|i: int|
            0 <= i < events.len() ==> (#[trigger] events[i]).epoch == epoch - (events.len() - 1
                - i),
        since <= epoch,
    ensures
        events_after(events, since) == if epoch - since >= events.len() {
            events
        } else {
            events.subrange(events.len() - (epoch - since), events.len() as int)
        },
    decreases events.len(),
{
    if events.len() > 0 {
        let shorter = events.drop_last();
        assert forall|i: int| 0 <= i < shorter.len() implies (#[trigger] shorter[i]).epoch == (epoch
            - 1) - (shorter.len() - 1 - i) by {
            assert(shorter[i] == events[i]);
        }
        assert(events.last() == events[events.len() - 1]);
        if epoch == since {
            assert forall|i: int| 0 <= i < shorter.len() implies (#[trigger] shorter[i]).epoch
                <= since by {}
            nothing_after(shorter, since);
            assert(events_after(events, since) =~= events.subrange(
                events.len() as int,
                events.len() as int,
            ));
        } else {
            suffix_after(shorter, epoch - 1, since);
            if epoch - since >= events.len() {
                assert(shorter.push(events.last()) =~= events);
            } else {
                assert(events_after(events, since) =~= events.subrange(
                    events.len() - (epoch - since),
                    events.len() as int,
                ));
            }
        }
    }
}

proof fn nothing_after(events: Seq<ObserverEvent>, since: u64)
    requires
        forall|i: int| 0 <= i < events.len() ==> (#[trigger] events[i]).epoch <= since,
    ensures
        events_after(events, since).len() == 0,
    decreases events.len(),
{
    if events.len() > 0 {
        nothing_after(events.drop_last(), since);
    }
}

/// No notification is ever missed: a log that answers with named elements has
/// kept exactly the notifications since that epoch, one for each epoch step.
pub proof fn targeted_answers_miss_no_notification(state: ObserverState, since: u64)
    requires
        state.wf(),
        since < state.epoch,
        unbroken(state.since(since), since, state.epoch),
    ensures
        state.since(since).len() == state.epoch - since,
        forall|i: int|
            0 <= i < state.since(since).len() ==> (#[trigger] state.since(since)[i]).epoch == since
                + 1 + i,
{
    suffix_after(state.events@, state.epoch as int, since);
}

/// A log that has dropped a notification since an epoch never answers with
/// named elements for it.
pub proof fn a_dropped_notification_forces_a_full_walk(state: ObserverState, since: u64)
    requires
        state.wf(),
        state.epoch - since > state.events@.len(),
    ensures
        !unbroken(state.since(since), since, state.epoch),
{
    suffix_after(state.events@, state.epoch as int, since);
}

/// AX status: the notification is registered already.
pub const AX_ERROR_NOTIFICATION_ALREADY_REGISTERED: i32 = -25209;

/// The notifications that can make a cached tree wrong.
pub open spec fn invalidating_names() -> Seq<Seq<char>> {
    seq![
        "AXValueChanged"@,
        "AXTitleChanged"@,
        "AXUIElementDestroyed"@,
        "AXFocusedUIElementChanged"@,
        "AXSelectedChildrenChanged"@,
        "AXRowCountChanged"@,
        "AXLayoutChanged"@,
        "AXCreated"@,
        "AXMoved"@,
        "AXResized"@,
    ]
}

/// The notifications that a process observer registers for.
pub fn invalidating_notifications() -> (names: Vec<&'static str>)
    ensures
        names@.map_values(|name: &'static str| name@) == invalidating_names(),
{
    let names: Vec<&'static str> = vec![
        "AXValueChanged",
        "AXTitleChanged",
        "AXUIElementDestroyed",
        "AXFocusedUIElementChanged",
        "AXSelectedChildrenChanged",
        "AXRowCountChanged",
        "AXLayoutChanged",
        "AXCreated",
        "AXMoved",
        "AXResized",
    ];
    assert(names@.map_values(|name: &'static str| name@) =~= invalidating_names());
    names
}

pub open spec fn takes_hold(status: i32) -> bool {
    status == AX_ERROR_SUCCESS || status == AX_ERROR_NOTIFICATION_ALREADY_REGISTERED
}

pub open spec fn all_take_hold(statuses: Seq<i32>) -> bool {
    forall|i: int| 0 <= i < statuses.len() ==> takes_hold(#[trigger] statuses[i])
}

/// Whether an observer can vouch for a tree: every notification took hold.
pub fn observes_reliably(statuses: &Vec<i32>) -> (reliable: bool)
    ensures
        reliable == all_take_hold(statuses@),
{
    let mut index: usize = 0;
    while index < statuses.len()
        invariant
            index <= statuses.len(),
            forall|i: int| 0 <= i < index ==> takes_hold(#[trigger] statuses@[i]),
        decreases statuses.len() - index,
    {
        let status: i32 = statuses[index];
        if status != AX_ERROR_SUCCESS && status != AX_ERROR_NOTIFICATION_ALREADY_REGISTERED {
            assert(!takes_hold(statuses@[index as int]));
            return false;
        }
        index = index + 1;
    }
    true
}

/// One node of a rendered tree.
#[derive(Clone, Copy, Debug, PartialEq, Eq, Structural)]
pub struct TreeNode {
    pub render_id: usize,
    pub element_index: Option<usize>,
    pub element_ptr: usize,
}

#[derive(Clone, Copy, Debug, PartialEq, Eq, Structural)]
pub enum WindowScope {
    /// The walk covered exactly the requested window.
    Matched,
    Unmatched,
}

#[derive(Debug)]
pub struct TreeWalkResult {
    pub tree_markdown: String,
    pub nodes: Vec<TreeNode>,
    pub truncated: bool,
    pub window_scope: Option<WindowScope>,
}

#[verifier::ext_equal]
pub ghost struct TreeView {
    pub tree_markdown: Seq<char>,
    pub nodes: Seq<TreeNode>,
    pub truncated: bool,
    pub window_scope: Option<WindowScope>,
}

impl View for TreeWalkResult {
    type V = TreeView;

    open spec fn view(&self) -> TreeView {
        TreeView {
            tree_markdown: self.tree_markdown@,
            nodes: self.nodes@,
            truncated: self.truncated,
            window_scope: self.window_scope,
        }
    }
}

impl TreeView {
    pub open spec fn matched(self) -> bool {
        self.window_scope == Some(WindowScope::Matched)
    }

    /// A complete walk of the exact window.
    pub open spec fn exact(self) -> bool {
        self.matched() && !self.truncated
    }
}

impl TreeWalkResult {
    fn is_matched(&self) -> (matched: bool)
        ensures
            matched == self@.matched(),
    {
        match self.window_scope {
            Some(WindowScope::Matched) => true,
            _ => false,
        }
    }
}

impl Clone for TreeWalkResult {
    fn clone(&self) -> (copy: Self)
        ensures
            copy@ == self@,
    {
        let mut nodes: Vec<TreeNode> = Vec::new();
        let mut index: usize = 0;
        while index < self.nodes.len()
            invariant
                index <= self.nodes.len(),
                nodes@ == self.nodes@.take(index as int),
            decreases self.nodes.len() - index,
        {
            nodes.push(self.nodes[index]);
            index = index + 1;
            assert(self.nodes@.take(index as int) =~= self.nodes@.take(index as int - 1).push(
                self.nodes@[index as int - 1],
            ));
        }
        assert(self.nodes@.take(index as int) =~= self.nodes@);
        TreeWalkResult {
            tree_markdown: self.tree_markdown.clone(),
            nodes,
            truncated: self.truncated,
            window_scope: self.window_scope,
        }
    }
}

/// The first node of a tree with a render id.
pub open spec fn node_with(nodes: Seq<TreeNode>, render_id: usize, at: int) -> bool {
    &&& 0 <= at < nodes.len()
    &&& nodes[at].render_id == render_id
    &&& forall|i: int| 0 <= i < at ==> (#[trigger] nodes[i]).render_id != render_id
}

pub open spec fn holds_node(nodes: Seq<TreeNode>, render_id: usize) -> bool {
    exists|at: int| #[trigger] node_with(nodes, render_id, at)
}

fn find_node(nodes: &Vec<TreeNode>, render_id: usize) -> (found: Option<usize>)
    ensures
        found matches Some(at) ==> node_with(nodes@, render_id, at as int),
        found is Some <==> holds_node(nodes@, render_id),
{
    let mut index: usize = 0;
    while index < nodes.len()
        invariant
            index <= nodes.len(),
            forall|i: int| 0 <= i < index ==> (#[trigger] nodes@[i]).render_id != render_id,
        decreases nodes.len() - index,
    {
        if nodes[index].render_id == render_id {
            assert(node_with(nodes@, render_id, index as int));
            return Some(index);
        }
        index = index + 1;
    }
    None
}

/// What a list of dirty elements asks of a tree.
#[derive(Debug)]
pub struct RefreshPlan {
    /// The nodes to refresh, each from the element reference beside it, in order.
    pub refreshes: Vec<(usize, usize)>,
    /// A structural change touches this tree: it cannot be refreshed.
    pub resync: bool,
}

/// Whether a dirty element asks for a refresh of a node of the tree.
pub open spec fn asks_refresh(nodes: Seq<TreeNode>, dirty: DirtyElement) -> bool {
    dirty.kind is Targeted && holds_node(nodes, dirty.render_id)
}

/// Whether a dirty element makes a refresh of the tree impossible. A structural
/// change of another window's element does not.
pub open spec fn asks_resync(nodes: Seq<TreeNode>, dirty: DirtyElement) -> bool {
    dirty.kind is FullResync && holds_node(nodes, dirty.render_id)
}

pub open spec fn any_resync(nodes: Seq<TreeNode>, elements: Seq<DirtyElement>) -> bool {
    exists|i: int| 0 <= i < elements.len() && asks_resync(nodes, #[trigger] elements[i])
}

/// The elements that ask for a refresh, in order.
pub open spec fn refresh_elements(
    nodes: Seq<TreeNode>,
    elements: Seq<DirtyElement>,
) -> Seq<DirtyElement>
    decreases elements.len(),
{
    if elements.len() == 0 {
        Seq::empty()
    } else if asks_refresh(nodes, elements.last()) {
        refresh_elements(nodes, elements.drop_last()).push(elements.last())
    } else {
        refresh_elements(nodes, elements.drop_last())
    }
}

/// Whether a plan refreshes the nodes of the elements that ask for it, in order.
pub open spec fn refreshes_in_order(
    nodes: Seq<TreeNode>,
    elements: Seq<DirtyElement>,
    plan: RefreshPlan,
) -> bool {
    &&& plan.refreshes@.len() == refresh_elements(nodes, elements).len()
    &&& forall|i: int|
        0 <= i < plan.refreshes@.len() ==> {
            &&& node_with(
                nodes,
                refresh_elements(nodes, elements)[i].render_id,
                (#[trigger] plan.refreshes@[i]).0 as int,
            )
            &&& plan.refreshes@[i].1 == refresh_elements(nodes, elements)[i].element_ptr
        }
}

/// Plans how a tree follows its dirty elements. The plan stops at the first
/// structural change that touches the tree.
pub fn refresh_plan(nodes: &Vec<TreeNode>, elements: &Vec<DirtyElement>) -> (plan: RefreshPlan)
    ensures
        plan.resync == any_resync(nodes@, elements@),
        !plan.resync ==> refreshes_in_order(nodes@, elements@, plan),
        plan.refreshes@.len() <= elements@.len(),
{
    let mut refreshes: Vec<(usize, usize)> = Vec::new();
    let mut index: usize = 0;
    while index < elements.len()
        invariant
            index <= elements.len(),
            refreshes@.len() <= index,
            forall|i: int| 0 <= i < index ==> !asks_resync(nodes@, #[trigger] elements@[i]),
            refreshes@.len() == refresh_elements(nodes@, elements@.take(index as int)).len(),
            forall|i: int|
                0 <= i < refreshes@.len() ==> {
                    let wanted = refresh_elements(nodes@, elements@.take(index as int))[i];
                    &&& node_with(nodes@, wanted.render_id, (#[trigger] refreshes@[i]).0 as int)
                    &&& refreshes@[i].1 == wanted.element_ptr
                },
        decreases elements.len() - index,
    {
        let ghost longer = elements@.take(index as int + 1);
        assert(longer.drop_last() =~= elements@.take(index as int));
        assert(longer.last() == elements@[index as int]);
        let dirty: DirtyElement = elements[index];
        if let Some(node) = find_node(nodes, dirty.render_id) {
            match dirty.kind {
                ObserverEventKind::Ignored => {},
                ObserverEventKind::FullResync => {
                    assert(asks_resync(nodes@, elements@[index as int]));
                    return RefreshPlan { refreshes, resync: true };
                },
                ObserverEventKind::Targeted => {
                    refreshes.push((node, dirty.element_ptr));
                },
            }
        }
        index = index + 1;
    }
    assert(elements@.take(index as int) =~= elements@);
    RefreshPlan { refreshes, resync: false }
}

pub open spec fn all_refreshed(refreshed: Seq<bool>) -> bool {
    forall|i: int| 0 <= i < refreshed.len() ==> #[trigger] refreshed[i]
}

/// Reads how the planned refreshes went, given the results of those that were
/// tried: `Ok` says whether the tree has changed, `Err` that it cannot be kept.
pub fn apply_invalidations(plan: &RefreshPlan, refreshed: &Vec<bool>) -> (outcome: Result<bool, ()>)
    ensures
        outcome is Ok <==> !plan.resync && refreshed@.len() == plan.refreshes@.len()
            && all_refreshed(refreshed@),
        outcome matches Ok(changed) ==> changed == (plan.refreshes@.len() > 0),
{
    if plan.resync || refreshed.len() != plan.refreshes.len() {
        return Err(());
    }
    let mut index: usize = 0;
    while index < refreshed.len()
        invariant
            index <= refreshed.len(),
            forall|i: int| 0 <= i < index ==> #[trigger] refreshed@[i],
        decreases refreshed.len() - index,
    {
        if !refreshed[index] {
            return Err(());
        }
        index = index + 1;
    }
    Ok(plan.refreshes.len() > 0)
}

#[derive(Debug)]
pub struct CachedWindowTree {
    pub result: TreeWalkResult,
    pub observer_epoch: u64,
    pub action_borrow_epoch: u64,
}

#[verifier::ext_equal]
pub ghost struct CachedView {
    pub result: TreeView,
    pub observer_epoch: u64,
    pub action_borrow_epoch: u64,
}

impl View for CachedWindowTree {
    type V = CachedView;

    open spec fn view(&self) -> CachedView {
        CachedView {
            result: self.result@,
            observer_epoch: self.observer_epoch,
            action_borrow_epoch: self.action_borrow_epoch,
        }
    }
}

impl Clone for CachedWindowTree {
    fn clone(&self) -> (copy: Self)
        ensures
            copy@ == self@,
    {
        CachedWindowTree {
            result: self.result.clone(),
            observer_epoch: self.observer_epoch,
            action_borrow_epoch: self.action_borrow_epoch,
        }
    }
}

#[derive(Debug)]
pub struct ProviderTree {
    pub result: TreeWalkResult,
    pub cache_status: &'static str,
}

/// The shape of one observation request.
#[derive(Clone, Copy, Debug, PartialEq, Eq, Structural)]
pub struct TreeRequest {
    pub pid: i32,
    pub window_id: u32,
    pub has_query: bool,
    /// Whether the walk limits are the default ones.
    pub default_limits: bool,
    pub allow_cache_reuse: bool,
    pub observation_only: bool,
}

impl TreeRequest {
    /// Only an unfiltered walk with the default limits that also serves actions
    /// may use or fill the cache.
    pub open spec fn cacheable(self) -> bool {
        !self.has_query && self.default_limits && !self.observation_only
    }

    pub fn cache_shape(self) -> (cacheable: bool)
        ensures
            cacheable == self.cacheable(),
    {
        !self.has_query && self.default_limits && !self.observation_only
    }
}

/// What a request can take from the cache.
#[derive(Debug)]
pub enum TreeReuse {
    Walk,
    Clean(CachedWindowTree),
    Refresh { cached: CachedWindowTree, through_epoch: u64, elements: Vec<DirtyElement> },
}

/// What becomes of the elements that actions may address.
#[derive(Clone, Copy, Debug, PartialEq, Eq, Structural)]
pub enum ElementCacheUpdate {
    Keep,
    ReplaceWithWalk,
    Clear,
}

struct WindowEntry {
    pid: i32,
    window_id: u32,
    tree: CachedWindowTree,
}

/// The cached trees of exact windows.
pub struct MacAxTreeProvider {
    windows: Vec<WindowEntry>,
}

impl View for MacAxTreeProvider {
    type V = Map<(i32, u32), CachedView>;

    closed spec fn view(&self) -> Map<(i32, u32), CachedView> {
        Map::new(
            |key: (i32, u32)| exists|i: int| self.at(i, key),
            |key: (i32, u32)| self.windows@[choose|i: int| self.at(i, key)].tree@,
        )
    }
}

/// Every kept tree is a complete walk of the exact window.
pub open spec fn exact_cache(windows: Map<(i32, u32), CachedView>) -> bool {
    forall|key: (i32, u32)| #[trigger]
        windows.contains_key(key) ==> windows[key].result.exact()
}

impl MacAxTreeProvider {
    spec fn at(&self, i: int, key: (i32, u32)) -> bool {
        0 <= i < self.windows@.len() && self.windows@[i].pid == key.0 && self.windows@[i].window_id
            == key.1
    }

    /// Every window has at most one cached tree.
    pub closed spec fn one_each(&self) -> bool {
        forall|i: int, j: int, key: (i32, u32)| #[trigger]
            self.at(i, key) && #[trigger] self.at(j, key) ==> i == j
    }

    /// Every window has at most one cached tree, a complete walk of the exact
    /// window.
    pub open spec fn wf(&self) -> bool {
        self.one_each() && exact_cache(self@)
    }

    pub fn new() -> (provider: MacAxTreeProvider)
        ensures
            provider.wf(),
            provider@ == Map::<(i32, u32), CachedView>::empty(),
    {
        let provider = MacAxTreeProvider { windows: Vec::new() };
        assert(provider@ =~= Map::<(i32, u32), CachedView>::empty());
        provider
    }

    fn find(&self, pid: i32, window_id: u32) -> (found: Option<usize>)
        ensures
            match found {
                Some(i) => self.at(i as int, (pid, window_id)),
                None => forall|i: int| !#[trigger] self.at(i, (pid, window_id)),
            },
    {
        let mut index: usize = 0;
        while index < self.windows.len()
            invariant
                index <= self.windows.len(),
                forall|i: int| i < index ==> !#[trigger] self.at(i, (pid, window_id)),
            decreases self.windows.len() - index,
        {
            if self.windows[index].pid == pid && self.windows[index].window_id == window_id {
                return Some(index);
            }
            index = index + 1;
        }
        None
    }

    pub fn cached_window(&self, pid: i32, window_id: u32) -> (cached: Option<CachedWindowTree>)
        requires
            self.wf(),
        ensures
            match cached {
                Some(cached) => self@.contains_key((pid, window_id)) && self@[(pid, window_id)]
                    == cached@,
                None => !self@.contains_key((pid, window_id)),
            },
    {
        match self.find(pid, window_id) {
            Some(index) => {
                assert(self.at(index as int, (pid, window_id)));
                Some(self.windows[index].tree.clone())
            },
            None => None,
        }
    }

    pub fn remove(&mut self, pid: i32, window_id: u32)
        requires
            old(self).wf(),
        ensures
            final(self).wf(),
            final(self)@ == old(self)@.remove((pid, window_id)),
    {
        match self.find(pid, window_id) {
            Some(index) => {
                self.windows.remove(index);
                proof {
                    let key = (pid, window_id);
                    assert forall|i: int, k: (i32, u32)| self.at(i, k) == (old(self).at(
                        if i < index {
                            i
                        } else {
                            i + 1
                        },
                        k,
                    ) && i < self.windows@.len()) by {}
                    assert(self.one_each()) by {
                        assert forall|i: int, j: int, k: (i32, u32)| #[trigger]
                            self.at(i, k) && #[trigger] self.at(j, k) implies i == j by {
                            let i0 = if i < index {
                                i
                            } else {
                                i + 1
                            };
                            let j0 = if j < index {
                                j
                            } else {
                                j + 1
                            };
                            assert(old(self).at(i0, k) && old(self).at(j0, k));
                        }
                    }
                    assert forall|k: (i32, u32)| #[trigger] self@.contains_key(k) == old(
                        self,
                    )@.remove(key).contains_key(k) by {
                        if self@.contains_key(k) {
                            let i = choose|i: int| self.at(i, k);
                            let i0 = if i < index {
                                i
                            } else {
                                i + 1
                            };
                            assert(old(self).at(i0, k));
                            assert(old(self).at(index as int, key));
                        }
                        if old(self)@.remove(key).contains_key(k) {
                            let i0 = choose|i: int| old(self).at(i, k);
                            assert(i0 != index);
                            let i = if i0 < index {
                                i0
                            } else {
                                i0 - 1
                            };
                            assert(self.at(i, k));
                        }
                    }
                    assert forall|k: (i32, u32)| #[trigger] self@.contains_key(k) implies self@[k]
                        == old(self)@[k] by {
                        let i = choose|i: int| self.at(i, k);
                        let i0 = if i < index {
                            i
                        } else {
                            i + 1
                        };
                        assert(old(self).at(i0, k));
                        let j = choose|i: int| old(self).at(i, k);
                        assert(j == i0);
                    }
                    assert(self@ =~= old(self)@.remove(key));
                }
            },
            None => {
                assert(self@ =~= old(self)@.remove((pid, window_id)));
            },
        }
    }

    /// Keeps a complete walk of the exact window.
    pub fn insert(&mut self, pid: i32, window_id: u32, tree: CachedWindowTree)
        requires
            old(self).wf(),
            tree.result@.exact(),
        ensures
            final(self).wf(),
            final(self)@ == old(self)@.insert((pid, window_id), tree@),
    {
        self.remove(pid, window_id);
        let ghost before = *self;
        let ghost key = (pid, window_id);
        assert(!before@.contains_key(key));
        self.windows.push(WindowEntry { pid, window_id, tree });
        proof {
            let last = before.windows@.len() as int;
            assert forall|i: int, k: (i32, u32)| #[trigger]
                self.at(i, k) implies before.at(i, k) || (i == last && k == key) by {}
            assert forall|i: int, k: (i32, u32)| #[trigger] before.at(i, k) implies self.at(i, k) by {}
            assert forall|i: int| !before.at(i, key) by {}
            assert(self.one_each()) by {
                assert forall|i: int, j: int, k: (i32, u32)| #[trigger]
                    self.at(i, k) && #[trigger] self.at(j, k) implies i == j by {
                    if k == key {
                        assert(!before.at(i, key) && !before.at(j, key));
                    } else {
                        assert(before.at(i, k) && before.at(j, k));
                    }
                }
            }
            assert(self.at(last, key));
            assert forall|k: (i32, u32)| #[trigger] self@.contains_key(k) == before@.insert(
                key,
                tree@,
            ).contains_key(k) by {
                if before@.contains_key(k) {
                    let i = choose|i: int| before.at(i, k);
                    assert(self.at(i, k));
                }
                if self@.contains_key(k) && k != key {
                    let i = choose|i: int| self.at(i, k);
                    assert(before.at(i, k));
                }
            }
            assert forall|k: (i32, u32)| #[trigger] self@.contains_key(k) implies self@[k]
                == before@.insert(key, tree@)[k] by {
                let i = choose|i: int| self.at(i, k);
                if k == key {
                    assert(i == last);
                } else {
                    let j = choose|i: int| before.at(i, k);
                    assert(before.at(i, k));
                    assert(j == i);
                }
            }
            assert(self@ =~= before@.insert(key, tree@));
            assert(self@ =~= old(self)@.insert(key, tree@));
        }
    }

    /// Whether the cache may answer a request at all: the request has the shape
    /// of a cached walk, the observer that vouches for the tree is reliable and no
    /// action has borrowed elements since.
    pub open spec fn usable(
        &self,
        request: TreeRequest,
        observer: Option<ObserverState>,
        reliable: bool,
        action_borrow_epoch: u64,
    ) -> bool {
        &&& request.cacheable()
        &&& request.allow_cache_reuse
        &&& observer is Some
        &&& reliable
        &&& self@.contains_key((request.pid, request.window_id))
        &&& self@[(request.pid, request.window_id)].action_borrow_epoch == action_borrow_epoch
    }

    /// What a request can take from the cache. `observer` is the state of the
    /// process observer, where one could be started.
    pub fn reuse(
        &self,
        request: TreeRequest,
        observer: &Option<ObserverState>,
        reliable: bool,
        action_borrow_epoch: u64,
    ) -> (reuse: TreeReuse)
        requires
            self.wf(),
        ensures
            ({
                let usable = self.usable(request, *observer, reliable, action_borrow_epoch);
                let cached = self@[(request.pid, request.window_id)];
                let state = observer->0;
                match reuse {
                    TreeReuse::Clean(tree) => usable && tree@ == cached && state.epoch
                        == cached.observer_epoch,
                    TreeReuse::Refresh { cached: tree, through_epoch, elements } => {
                        &&& usable
                        &&& tree@ == cached
                        &&& state.epoch != cached.observer_epoch
                        &&& through_epoch == state.epoch
                        &&& unbroken(
                            state.since(cached.observer_epoch),
                            cached.observer_epoch,
                            state.epoch,
                        )
                        &&& elements@ == state.since(cached.observer_epoch).map_values(
                            |event: ObserverEvent| dirty_of(event),
                        )
                    },
                    TreeReuse::Walk => usable ==> state.epoch != cached.observer_epoch && !unbroken(
                        state.since(cached.observer_epoch),
                        cached.observer_epoch,
                        state.epoch,
                    ),
                }
            }),
    {
        if !request.cache_shape() || !request.allow_cache_reuse || !reliable {
            return TreeReuse::Walk;
        }
        let state = match observer {
            Some(state) => state,
            None => return TreeReuse::Walk,
        };
        let cached = match self.cached_window(request.pid, request.window_id) {
            Some(cached) => cached,
            None => return TreeReuse::Walk,
        };
        if cached.action_borrow_epoch != action_borrow_epoch {
            return TreeReuse::Walk;
        }
        match state.invalidations_since(cached.observer_epoch) {
            InvalidationSince::Clean => TreeReuse::Clean(cached),
            InvalidationSince::Targeted { through_epoch, elements } => TreeReuse::Refresh {
                cached,
                through_epoch,
                elements,
            },
            InvalidationSince::FullResync => TreeReuse::Walk,
        }
    }

    /// Serves a clean cached tree if nothing moved while it was read; otherwise
    /// the window has to be walked.
    pub fn serve_clean(
        &self,
        cached: CachedWindowTree,
        observer_epoch: u64,
        action_borrow_epoch: u64,
        action_borrow_epoch_now: u64,
    ) -> (served: Option<ProviderTree>)
        ensures
            served is Some <==> observer_epoch == cached.observer_epoch && action_borrow_epoch_now
                == action_borrow_epoch,
            served matches Some(tree) ==> tree.result@ == cached.result@ && tree.cache_status@
                == "clean_cache"@,
    {
        if observer_epoch == cached.observer_epoch && action_borrow_epoch_now
            == action_borrow_epoch {
            Some(ProviderTree { result: cached.result, cache_status: "clean_cache" })
        } else {
            None
        }
    }

    /// Serves a refreshed tree, and keeps it under the epoch it reaches, if the
    /// refreshes succeeded and nothing moved meanwhile.
    pub fn serve_refreshed(
        &mut self,
        request: TreeRequest,
        cached: CachedWindowTree,
        refreshed: Result<bool, ()>,
        through_epoch: u64,
        observer_epoch: u64,
        action_borrow_epoch: u64,
        action_borrow_epoch_now: u64,
    ) -> (served: Option<ProviderTree>)
        requires
            old(self).wf(),
            cached.result@.exact(),
        ensures
            final(self).wf(),
            served is Some <==> refreshed is Ok && observer_epoch == through_epoch
                && action_borrow_epoch_now == action_borrow_epoch,
            served matches Some(tree) ==> {
                &&& tree.result@ == cached.result@
                &&& tree.cache_status@ == if refreshed->Ok_0 {
                    "targeted_refetch"@
                } else {
                    "clean_cache"@
                }
                &&& final(self)@ == old(self)@.insert(
                    (request.pid, request.window_id),
                    CachedView { observer_epoch: through_epoch, ..cached@ },
                )
            },
            served is None ==> final(self)@ == old(self)@,
    {
        match refreshed {
            Ok(changed) => if observer_epoch == through_epoch && action_borrow_epoch_now
                == action_borrow_epoch {
                let result: TreeWalkResult = cached.result.clone();
                let mut kept: CachedWindowTree = cached;
                kept.observer_epoch = through_epoch;
                self.insert(request.pid, request.window_id, kept);
                let cache_status: &'static str = if changed {
                    "targeted_refetch"
                } else {
                    "clean_cache"
                };
                Some(ProviderTree { result, cache_status })
            } else {
                None
            },
            Err(_) => None,
        }
    }

    /// Publishes a full walk: a complete, exact walk of a cacheable request is
    /// kept where the observer vouches for an epoch; anything else evicts the
    /// window. `action_borrow_epoch` is read once the elements that actions are
    /// served from were updated.
    pub fn publish(
        &mut self,
        request: TreeRequest,
        result: TreeWalkResult,
        cache_epoch: Option<u64>,
        action_borrow_epoch: u64,
    ) -> (published: ProviderTree)
        requires
            old(self).wf(),
        ensures
            final(self).wf(),
            published.result@ == result@,
            published.cache_status@ == "full_walk"@,
            final(self)@ == if request.cacheable() && result@.matched() && !result.truncated
                && cache_epoch is Some {
                old(self)@.insert(
                    (request.pid, request.window_id),
                    CachedView {
                        result: result@,
                        observer_epoch: cache_epoch->0,
                        action_borrow_epoch,
                    },
                )
            } else {
                old(self)@.remove((request.pid, request.window_id))
            },
    {
        let kept: Option<u64> = if request.cache_shape() && result.is_matched()
            && !result.truncated {
            cache_epoch
        } else {
            None
        };
        match kept {
            Some(observer_epoch) => self.insert(
                request.pid,
                request.window_id,
                CachedWindowTree { result: result.clone(), observer_epoch, action_borrow_epoch },
            ),
            None => self.remove(request.pid, request.window_id),
        }
        ProviderTree { result, cache_status: "full_walk" }
    }
}

/// What a full walk does to the elements that actions are served from: they
/// come only from an exact window, and a mere observation leaves them alone.
pub fn element_cache_update(request: TreeRequest, result: &TreeWalkResult) -> (update:
    ElementCacheUpdate)
    ensures
        update == if request.observation_only {
            ElementCacheUpdate::Keep
        } else if result@.matched() {
            ElementCacheUpdate::ReplaceWithWalk
        } else {
            ElementCacheUpdate::Clear
        },
{
    if request.observation_only {
        ElementCacheUpdate::Keep
    } else if result.is_matched() {
        ElementCacheUpdate::ReplaceWithWalk
    } else {
        ElementCacheUpdate::Clear
    }
}

} // verus!
