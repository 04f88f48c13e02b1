//! The accessibility (AX) tree of one window: how it is walked, what of it is
//! watched, and when two looks at it are the same.
use std::collections::HashSet;
use vstd::prelude::*;

use crate::ax::bindings::AxCfRange;
use crate::contracts::SurfaceKind;
use crate::errors;
use crate::errors::{ErrorCode, ErrorPhase, NativeError};
use crate::text;
use crate::text::{is_blank, same_optional_text, same_text, same_texts};

verus! {

pub const MAX_AX_ELEMENTS: usize = 2_000;

pub const MAX_AX_DEPTH: usize = 64;

pub const MAX_NOTIFICATION_ELEMENTS: usize = 8;

/// A held AX element: the address of the reference, and the identity of the
/// native element behind it. Two references to one element agree in identity.
#[derive(Debug, Clone, Copy, PartialEq, Eq, Structural)]
pub struct RetainedAxElement {
    pub address: usize,
    pub identity: u64,
}

impl RetainedAxElement {
    pub fn same_identity(&self, other: &RetainedAxElement) -> (same: bool)
        ensures
            same == (self.identity == other.identity),
    {
        self.identity == other.identity
    }
}

pub open spec fn identity_of(element: Option<RetainedAxElement>) -> Option<u64> {
    match element {
        Some(element) => Some(element.identity),
        None => None,
    }
}

pub fn same_optional_ax_identity(
    left: Option<&RetainedAxElement>,
    right: Option<&RetainedAxElement>,
) -> (same: bool)
    ensures
        same == match (left, right) {
            (Some(left), Some(right)) => left.identity == right.identity,
            (None, None) => true,
            _ => false,
        },
{
    match (left, right) {
        (Some(left), Some(right)) => left.same_identity(right),
        (None, None) => true,
        _ => false,
    }
}

/// A rectangle by the bits of its coordinates; equal rectangles have equal
/// bits.
#[derive(Debug, Clone, Copy, PartialEq, Eq, Structural)]
pub struct AxBounds {
    pub x: i64,
    pub y: i64,
    pub width: i64,
    pub height: i64,
}

#[derive(Debug)]
pub struct RawAxNode {
    pub element: RetainedAxElement,
    pub parent: Option<RetainedAxElement>,
    pub depth: usize,
    pub owner_window_id: u32,
    pub role: String,
    pub role_proven: bool,
    pub subrole: Option<String>,
    pub orientation: Option<String>,
    pub label: Option<String>,
    pub value: Option<String>,
    /// The identity of the value object that was read.
    pub value_proof: Option<u64>,
    pub value_query_proven: bool,
    pub string_value: Option<String>,
    pub value_settable: Option<bool>,
    pub selected_text_range: Option<AxCfRange>,
    pub selected_text_range_settable: Option<bool>,
    pub selected_text_settable: Option<bool>,
    pub bounds: Option<AxBounds>,
    pub actions: Vec<String>,
    pub actions_proven: bool,
    pub selected: bool,
}

/// The public contract of a node: everything but the identity of its value.
#[verifier::ext_equal]
pub ghost struct NodeView {
    pub element: u64,
    pub parent: Option<u64>,
    pub depth: usize,
    pub owner_window_id: u32,
    pub role: Seq<char>,
    pub role_proven: bool,
    pub subrole: Option<Seq<char>>,
    pub orientation: Option<Seq<char>>,
    pub label: Option<Seq<char>>,
    pub value: Option<Seq<char>>,
    pub value_query_proven: bool,
    pub string_value: Option<Seq<char>>,
    pub value_settable: Option<bool>,
    pub selected_text_range: Option<AxCfRange>,
    pub selected_text_range_settable: Option<bool>,
    pub selected_text_settable: Option<bool>,
    pub bounds: Option<AxBounds>,
    pub actions: Seq<Seq<char>>,
    pub actions_proven: bool,
    pub selected: bool,
}

impl View for RawAxNode {
    type V = NodeView;

    open spec fn view(&self) -> NodeView {
        NodeView {
            element: self.element.identity,
            parent: identity_of(self.parent),
            depth: self.depth,
            owner_window_id: self.owner_window_id,
            role: self.role@,
            role_proven: self.role_proven,
            subrole: text::optional_text(self.subrole),
            orientation: text::optional_text(self.orientation),
            label: text::optional_text(self.label),
            value: text::optional_text(self.value),
            value_query_proven: self.value_query_proven,
            string_value: text::optional_text(self.string_value),
            value_settable: self.value_settable,
            selected_text_range: self.selected_text_range,
            selected_text_range_settable: self.selected_text_range_settable,
            selected_text_settable: self.selected_text_settable,
            bounds: self.bounds,
            actions: text::texts(self.actions@),
            actions_proven: self.actions_proven,
            selected: self.selected,
        }
    }
}

pub open spec fn nodes_view(nodes: Seq<RawAxNode>) -> Seq<NodeView> {
    nodes.map_values(|node: RawAxNode| node@)
}

/// A transient window that belongs to the walked one.
#[derive(Debug, Clone, Copy, PartialEq, Eq, Structural)]
pub struct RawRelatedWindow {
    pub window_id: u32,
    pub kind: SurfaceKind,
    pub element: RetainedAxElement,
}

#[derive(Debug)]
pub struct RawAxSnapshot {
    pub nodes: Vec<RawAxNode>,
    pub focused: Option<RetainedAxElement>,
    pub selected_text: Option<String>,
    pub document_text: Option<String>,
    pub related_windows: Vec<RawRelatedWindow>,
    pub truncated: bool,
}

/// The public contract of a snapshot.
#[verifier::ext_equal]
pub ghost struct SnapshotView {
    pub nodes: Seq<NodeView>,
    pub focused: Option<u64>,
    pub selected_text: Option<Seq<char>>,
    pub document_text: Option<Seq<char>>,
    pub truncated: bool,
}

impl View for RawAxSnapshot {
    type V = SnapshotView;

    open spec fn view(&self) -> SnapshotView {
        SnapshotView {
            nodes: nodes_view(self.nodes@),
            focused: identity_of(self.focused),
            selected_text: text::optional_text(self.selected_text),
            document_text: text::optional_text(self.document_text),
            truncated: self.truncated,
        }
    }
}

pub open spec fn surface_for(role: Seq<char>) -> Option<SurfaceKind> {
    if role == "AXMenu"@ {
        Some(SurfaceKind::Menu)
    } else if role == "AXPopover"@ {
        Some(SurfaceKind::Popover)
    } else if role == "AXSheet"@ {
        Some(SurfaceKind::Sheet)
    } else {
        None
    }
}

/// The kind of transient surface that a role stands for.
pub fn transient_kind(role: &str) -> (kind: Option<SurfaceKind>)
    ensures
        kind == surface_for(role@),
{
    if same_text(role, "AXMenu") {
        Some(SurfaceKind::Menu)
    } else if same_text(role, "AXPopover") {
        Some(SurfaceKind::Popover)
    } else if same_text(role, "AXSheet") {
        Some(SurfaceKind::Sheet)
    } else {
        None
    }
}

pub open spec fn structural_owner(
    native_window_id: Option<u32>,
    transient: Option<SurfaceKind>,
    target_window_id: u32,
    inherited_owner_window_id: u32,
) -> u32 {
    match (native_window_id, transient) {
        (Some(window_id), Some(_)) if window_id != target_window_id => window_id,
        _ => inherited_owner_window_id,
    }
}

/// The window that structurally owns an element: embedded remote children
/// inherit their owner, transients of another window own themselves.
pub fn structural_owner_window_id(
    native_window_id: Option<u32>,
    transient: Option<SurfaceKind>,
    target_window_id: u32,
    inherited_owner_window_id: u32,
) -> (owner: u32)
    ensures
        owner == structural_owner(
            native_window_id,
            transient,
            target_window_id,
            inherited_owner_window_id,
        ),
{
    match (native_window_id, transient) {
        (Some(window_id), Some(_)) => if window_id != target_window_id {
            window_id
        } else {
            inherited_owner_window_id
        },
        _ => inherited_owner_window_id,
    }
}

/// How the value of an element read.
#[derive(Debug)]
pub enum ValueRead {
    Failed,
    Absent,
    /// A value object; `text` is present where it is a string.
    Present { proof: u64, text: Option<String> },
}

/// What was read of one element.
#[derive(Debug)]
pub struct ElementFacts {
    /// `None` where the role could not be read exactly.
    pub role: Option<String>,
    pub subrole: Option<String>,
    pub orientation: Option<String>,
    pub title: Option<String>,
    pub description: Option<String>,
    pub value: ValueRead,
    pub placeholder: Option<String>,
    pub value_settable: Option<bool>,
    pub selected_text_range: Option<AxCfRange>,
    pub selected_text_range_settable: Option<bool>,
    pub selected_text_settable: Option<bool>,
    pub bounds: Option<AxBounds>,
    pub native_window_id: Option<u32>,
    /// `None` where the actions could not be read exactly.
    pub actions: Option<Vec<String>>,
    pub selected: Option<bool>,
}

/// An element that is about to be read.
#[derive(Debug, Clone, Copy, PartialEq, Eq, Structural)]
pub struct WalkFrame {
    pub element: RetainedAxElement,
    pub parent: Option<RetainedAxElement>,
    pub depth: usize,
    pub inherited_owner_window_id: u32,
}

/// The label of an element: a title that says something, else a description
/// that does.
pub open spec fn label_of(title: Option<Seq<char>>, description: Option<Seq<char>>) -> Option<
    Seq<char>,
> {
    match (title, description) {
        (Some(title), _) if !text::blank(title) => Some(title),
        (_, Some(description)) if !text::blank(description) => Some(description),
        _ => None,
    }
}

fn pick_label(title: Option<String>, description: Option<String>) -> (label: Option<String>)
    ensures
        text::optional_text(label) == label_of(
            text::optional_text(title),
            text::optional_text(description),
        ),
{
    if let Some(title) = title {
        if !is_blank(title.as_str()) {
            return Some(title);
        }
    }
    if let Some(description) = description {
        if !is_blank(description.as_str()) {
            return Some(description);
        }
    }
    None
}

impl ElementFacts {
    pub open spec fn role_text(&self) -> Seq<char> {
        match self.role {
            Some(role) => role@,
            None => "AXUnknown"@,
        }
    }

    pub open spec fn string_value(&self) -> Option<Seq<char>> {
        match self.value {
            ValueRead::Present { text, .. } => text::optional_text(text),
            _ => None,
        }
    }

    /// The node that an element becomes. What depends on a string value counts
    /// only where there is one.
    pub open spec fn node(&self, frame: WalkFrame, target_window_id: u32) -> NodeView {
        let string_value = self.string_value();
        let range = if string_value is Some {
            self.selected_text_range
        } else {
            None
        };
        NodeView {
            element: frame.element.identity,
            parent: identity_of(frame.parent),
            depth: frame.depth,
            owner_window_id: structural_owner(
                self.native_window_id,
                surface_for(self.role_text()),
                target_window_id,
                frame.inherited_owner_window_id,
            ),
            role: self.role_text(),
            role_proven: self.role is Some,
            subrole: text::optional_text(self.subrole),
            orientation: text::optional_text(self.orientation),
            label: label_of(
                text::optional_text(self.title),
                text::optional_text(self.description),
            ),
            value: match string_value {
                Some(value) => Some(value),
                None => text::optional_text(self.placeholder),
            },
            value_query_proven: !(self.value is Failed),
            string_value,
            value_settable: if string_value is Some {
                self.value_settable
            } else {
                None
            },
            selected_text_range: range,
            selected_text_range_settable: if range is Some {
                self.selected_text_range_settable
            } else {
                None
            },
            selected_text_settable: if range is Some {
                self.selected_text_settable
            } else {
                None
            },
            bounds: self.bounds,
            actions: match self.actions {
                Some(actions) => text::texts(actions@),
                None => Seq::empty(),
            },
            actions_proven: self.actions is Some,
            selected: self.selected == Some(true),
        }
    }

    pub open spec fn proof_id(&self) -> Option<u64> {
        match self.value {
            ValueRead::Present { proof, .. } => Some(proof),
            _ => None,
        }
    }
}

fn node_from(frame: WalkFrame, facts: ElementFacts, target_window_id: u32) -> (node: RawAxNode)
    ensures
        node@ == facts.node(frame, target_window_id),
        node.element == frame.element,
        node.parent == frame.parent,
        node.value_proof == facts.proof_id(),
{
    let role_proven: bool = facts.role.is_some();
    let role: String = match facts.role {
        Some(role) => role,
        None => "AXUnknown".to_owned(),
    };
    let owner_window_id: u32 = structural_owner_window_id(
        facts.native_window_id,
        transient_kind(role.as_str()),
        target_window_id,
        frame.inherited_owner_window_id,
    );
    let (value_proof, value_query_proven, string_value): (Option<u64>, bool, Option<String>) =
        match facts.value {
        ValueRead::Failed => (None, false, None),
        ValueRead::Absent => (None, true, None),
        ValueRead::Present { proof, text } => (Some(proof), true, text),
    };
    let has_string: bool = string_value.is_some();
    let value: Option<String> = match &string_value {
        Some(value) => Some(value.clone()),
        None => facts.placeholder,
    };
    let selected_text_range: Option<AxCfRange> = if has_string {
        facts.selected_text_range
    } else {
        None
    };
    let has_range: bool = selected_text_range.is_some();
    let actions_proven: bool = facts.actions.is_some();
    let actions: Vec<String> = match facts.actions {
        Some(actions) => actions,
        None => Vec::new(),
    };
    assert(!actions_proven ==> text::texts(actions@) =~= Seq::<Seq<char>>::empty());
    RawAxNode {
        element: frame.element,
        parent: frame.parent,
        depth: frame.depth,
        owner_window_id,
        role,
        role_proven,
        subrole: facts.subrole,
        orientation: facts.orientation,
        label: pick_label(facts.title, facts.description),
        value,
        value_proof,
        value_query_proven,
        string_value,
        value_settable: if has_string {
            facts.value_settable
        } else {
            None
        },
        selected_text_range,
        selected_text_range_settable: if has_range {
            facts.selected_text_range_settable
        } else {
            None
        },
        selected_text_settable: if has_range {
            facts.selected_text_settable
        } else {
            None
        },
        bounds: facts.bounds,
        actions,
        actions_proven,
        selected: match facts.selected {
            Some(selected) => selected,
            None => false,
        },
    }
}

/// A bounded depth-first walk over one window's AX tree. Elements are read one
/// by one as the walk asks for them.
#[derive(Debug)]
pub struct AxWalk {
    pub target_window_id: u32,
    pub nodes: Vec<RawAxNode>,
    pub related_windows: Vec<RawRelatedWindow>,
    pub visited: HashSet<usize>,
    /// What is still to be read, the next element last.
    pub pending: Vec<WalkFrame>,
    /// The element that is being read.
    pub current: Option<WalkFrame>,
    /// Whether related windows that come up now count.
    pub collects_related: bool,
    pub truncated: bool,
}

pub open spec fn holds_address(nodes: Seq<RawAxNode>, address: usize) -> bool {
    exists|i: int| 0 <= i < nodes.len() && (#[trigger] nodes[i]).element.address == address
}

/// The frames of an element's children, the first child last.
pub open spec fn child_frames(
    parent: RetainedAxElement,
    children: Seq<RetainedAxElement>,
    depth: usize,
    owner: u32,
) -> Seq<WalkFrame> {
    Seq::new(
        children.len(),
        |i: int|
            WalkFrame {
                element: children[children.len() - 1 - i],
                parent: Some(parent),
                depth,
                inherited_owner_window_id: owner,
            },
    )
}

impl AxWalk {
    /// No element is read twice, no node lies too deep, and there are never
    /// more nodes than the bound.
    pub open spec fn wf(&self) -> bool {
        &&& self.nodes@.len() <= MAX_AX_ELEMENTS
        &&& forall|i: int|
            0 <= i < self.nodes@.len() ==> (#[trigger] self.nodes@[i]).depth <= MAX_AX_DEPTH
                && self.visited@.contains(self.nodes@[i].element.address)
        &&& forall|i: int, j: int|
            0 <= i < j < self.nodes@.len() ==> (#[trigger] self.nodes@[i]).element.address != (
            #[trigger] self.nodes@[j]).element.address
        &&& forall|i: int|
            0 <= i < self.pending@.len() ==> (#[trigger] self.pending@[i]).depth <= MAX_AX_DEPTH + 1
        &&& self.current matches Some(frame) ==> {
            &&& frame.depth <= MAX_AX_DEPTH
            &&& self.nodes@.len() < MAX_AX_ELEMENTS
            &&& self.visited@.contains(frame.element.address)
            &&& !holds_address(self.nodes@, frame.element.address)
        }
    }

    pub fn new(target_window_id: u32) -> (walk: AxWalk)
        ensures
            walk.wf(),
            walk.target_window_id == target_window_id,
            walk.nodes@.len() == 0,
            walk.related_windows@.len() == 0,
            walk.visited@ == Set::<usize>::empty(),
            walk.pending@.len() == 0,
            walk.current is None,
            walk.collects_related,
            !walk.truncated,
    {
        AxWalk {
            target_window_id,
            nodes: Vec::new(),
            related_windows: Vec::new(),
            visited: HashSet::new(),
            pending: Vec::new(),
            current: None,
            collects_related: true,
            truncated: false,
        }
    }

    /// Starts to walk from a root that a window owns.
    pub fn begin(&mut self, root: RetainedAxElement, owner_window_id: u32)
        requires
            old(self).wf(),
            old(self).current is None,
        ensures
            final(self).wf(),
            final(self).pending@ == old(self).pending@.push(
                WalkFrame {
                    element: root,
                    parent: None,
                    depth: 0,
                    inherited_owner_window_id: owner_window_id,
                },
            ),
            *final(self) == (AxWalk { pending: final(self).pending, ..*old(self) }),
    {
        self.pending.push(
            WalkFrame {
                element: root,
                parent: None,
                depth: 0,
                inherited_owner_window_id: owner_window_id,
            },
        );
    }

    /// Whether a pending frame is read: it lies within the bounds, and its
    /// element was not read before.
    pub open spec fn admits(&self, frame: WalkFrame) -> bool {
        &&& frame.depth <= MAX_AX_DEPTH
        &&& self.nodes@.len() < MAX_AX_ELEMENTS
        &&& !self.visited@.contains(frame.element.address)
    }

    /// Whether a pending frame lies beyond the bounds.
    pub open spec fn beyond(&self, frame: WalkFrame) -> bool {
        frame.depth > MAX_AX_DEPTH || self.nodes@.len() >= MAX_AX_ELEMENTS
    }

    /// Whether every pending frame from a place on is passed over.
    pub open spec fn passes_over(&self, from: int) -> bool {
        forall|i: int| from <= i < self.pending@.len() ==> !self.admits(#[trigger] self.pending@[i])
    }

    /// Whether a pending frame from a place on lies beyond the bounds.
    pub open spec fn reaches_beyond(&self, from: int) -> bool {
        exists|i: int| from <= i < self.pending@.len() && self.beyond(#[trigger] self.pending@[i])
    }

    /// The next element to read; none once the walk is over. Elements beyond
    /// the bounds are passed over and mark the walk as truncated, elements that
    /// were read before are passed over.
    pub fn next(&mut self) -> (frame: Option<WalkFrame>)
        requires
            old(self).wf(),
            old(self).current is None,
        ensures
            final(self).wf(),
            final(self).current == frame,
            final(self).nodes == old(self).nodes,
            final(self).related_windows == old(self).related_windows,
            final(self).target_window_id == old(self).target_window_id,
            final(self).collects_related == old(self).collects_related,
            final(self).pending@.len() <= old(self).pending@.len(),
            final(self).pending@ == old(self).pending@.take(final(self).pending@.len() as int),
            match frame {
                Some(frame) => {
                    let at = final(self).pending@.len() as int;
                    &&& at < old(self).pending@.len()
                    &&& old(self).pending@[at] == frame
                    &&& old(self).admits(frame)
                    &&& final(self).visited@ == old(self).visited@.insert(frame.element.address)
                },
                None => final(self).pending@.len() == 0 && final(self).visited@ == old(
                    self,
                ).visited@,
            },
            old(self).passes_over(
                final(self).pending@.len() + (if frame is Some {
                    1int
                } else {
                    0
                }),
            ),
            final(self).truncated == (old(self).truncated || old(self).reaches_beyond(
                final(self).pending@.len() as int,
            )),
    {
        broadcast use vstd::std_specs::hash::group_hash_axioms;

        loop
            invariant
                self.wf(),
                self.current is None,
                self.nodes == old(self).nodes,
                self.related_windows == old(self).related_windows,
                self.target_window_id == old(self).target_window_id,
                self.collects_related == old(self).collects_related,
                self.visited == old(self).visited,
                self.pending@.len() <= old(self).pending@.len(),
                self.pending@ == old(self).pending@.take(self.pending@.len() as int),
                forall|i: int|
                    self.pending@.len() <= i < old(self).pending@.len() ==> !old(self).admits(
                        #[trigger] old(self).pending@[i],
                    ),
                self.truncated == (old(self).truncated || exists|i: int|
                    self.pending@.len() <= i < old(self).pending@.len() && old(self).beyond(
                        #[trigger] old(self).pending@[i],
                    )),
            decreases self.pending@.len(),
        {
            broadcast use vstd::std_specs::hash::group_hash_axioms;

            let ghost before = self.pending@;
            let frame: WalkFrame = match self.pending.pop() {
                Some(frame) => frame,
                None => return None,
            };
            proof {
                let at = self.pending@.len() as int;
                assert(old(self).pending@[at] == frame);
                assert(self.pending@ =~= old(self).pending@.take(at));
                assert forall|i: int| 0 <= i < self.pending@.len() implies (
                #[trigger] self.pending@[i]).depth <= MAX_AX_DEPTH + 1 by {
                    assert(before[i] == self.pending@[i]);
                }
            }
            if frame.depth > MAX_AX_DEPTH || self.nodes.len() >= MAX_AX_ELEMENTS {
                self.truncated = true;
                assert(old(self).beyond(old(self).pending@[self.pending@.len() as int]));
                continue;
            }
            if self.visited.contains(&frame.element.address) {
                continue;
            }
            assert(old(self).admits(frame));
            self.visited.insert(frame.element.address);
            self.current = Some(frame);
            return Some(frame);
        }
    }

    /// Records what was read of the current element. Its children are walked
    /// next, unless the node budget is exhausted: then the walk is over, and it
    /// is truncated if children were left.
    pub fn record(&mut self, facts: ElementFacts, children: &Vec<RetainedAxElement>)
        requires
            old(self).wf(),
            old(self).current is Some,
        ensures
            final(self).wf(),
            final(self).current is None,
            final(self).target_window_id == old(self).target_window_id,
            final(self).visited == old(self).visited,
            final(self).collects_related == old(self).collects_related,
            ({
                let frame = old(self).current->0;
                let node = facts.node(frame, old(self).target_window_id);
                let full = final(self).nodes@.len() == MAX_AX_ELEMENTS;
                &&& final(self).nodes@.len() == old(self).nodes@.len() + 1
                &&& final(self).nodes@.drop_last() == old(self).nodes@
                &&& final(self).nodes@.last()@ == node
                &&& nodes_view(final(self).nodes@) == nodes_view(old(self).nodes@).push(node)
                &&& final(self).nodes@.last().element == frame.element
                &&& final(self).nodes@.last().parent == frame.parent
                &&& final(self).nodes@.last().value_proof == facts.proof_id()
                &&& final(self).pending@ == if full {
                    Seq::<WalkFrame>::empty()
                } else {
                    old(self).pending@ + child_frames(
                        frame.element,
                        children@,
                        (frame.depth + 1) as usize,
                        node.owner_window_id,
                    )
                }
                &&& final(self).truncated == (old(self).truncated || (full && children@.len() > 0))
                &&& final(self).related_windows@ == if old(self).collects_related
                    && facts.native_window_id is Some && surface_for(facts.role_text()) is Some
                    && facts.native_window_id->0 != old(self).target_window_id {
                    old(self).related_windows@.push(
                        RawRelatedWindow {
                            window_id: facts.native_window_id->0,
                            kind: surface_for(facts.role_text())->0,
                            element: frame.element,
                        },
                    )
                } else {
                    old(self).related_windows@
                }
            }),
    {
        let frame: WalkFrame = match self.current {
            Some(frame) => frame,
            None => return ,
        };
        self.current = None;
        let kind: Option<SurfaceKind> = match &facts.role {
            Some(role) => transient_kind(role.as_str()),
            None => transient_kind("AXUnknown"),
        };
        if self.collects_related {
            if let (Some(window_id), Some(kind)) = (facts.native_window_id, kind) {
                if window_id != self.target_window_id {
                    self.related_windows.push(
                        RawRelatedWindow { window_id, kind, element: frame.element },
                    );
                }
            }
        }
        let ghost before = self.nodes@;
        let node: RawAxNode = node_from(frame, facts, self.target_window_id);
        let owner: u32 = node.owner_window_id;
        self.nodes.push(node);
        proof {
            assert(nodes_view(self.nodes@) =~= nodes_view(before).push(node@));
            assert(self.nodes@.drop_last() =~= before);
            assert forall|i: int, j: int| 0 <= i < j < self.nodes@.len() implies (
            #[trigger] self.nodes@[i]).element.address != (
            #[trigger] self.nodes@[j]).element.address by {
                if j == before.len() {
                    assert(before[i].element.address != frame.element.address);
                }
            }
        }
        if self.nodes.len() >= MAX_AX_ELEMENTS {
            if children.len() > 0 {
                self.truncated = true;
            }
            self.pending = Vec::new();
        } else {
            let ghost stacked = self.pending@;
            let ghost frames = child_frames(
                frame.element,
                children@,
                (frame.depth + 1) as usize,
                owner,
            );
            let mut left: usize = children.len();
            assert(self.pending@ =~= stacked + frames.take(0));
            while left > 0
                invariant
                    left <= children.len(),
                    frame.depth <= MAX_AX_DEPTH,
                    frames == child_frames(
                        frame.element,
                        children@,
                        (frame.depth + 1) as usize,
                        owner,
                    ),
                    self.pending@ == stacked + frames.take(children@.len() - left),
                    forall|i: int|
                        0 <= i < stacked.len() ==> (#[trigger] stacked[i]).depth <= MAX_AX_DEPTH
                            + 1,
                    self.target_window_id == old(self).target_window_id,
                    self.visited == old(self).visited,
                    self.collects_related == old(self).collects_related,
                    self.truncated == old(self).truncated,
                    self.current is None,
                    self.nodes@ == before.push(node),
                    self.related_windows@ == if old(self).collects_related
                        && facts.native_window_id is Some && surface_for(facts.role_text()) is Some
                        && facts.native_window_id->0 != old(self).target_window_id {
                        old(self).related_windows@.push(
                            RawRelatedWindow {
                                window_id: facts.native_window_id->0,
                                kind: surface_for(facts.role_text())->0,
                                element: frame.element,
                            },
                        )
                    } else {
                        old(self).related_windows@
                    },
                decreases left,
            {
                left = left - 1;
                self.pending.push(
                    WalkFrame {
                        element: children[left],
                        parent: Some(frame.element),
                        depth: frame.depth + 1,
                        inherited_owner_window_id: owner,
                    },
                );
                assert(self.pending@ =~= stacked + frames.take(children@.len() - left));
            }
            assert(frames.take(children@.len() as int) =~= frames);
            assert forall|i: int| 0 <= i < self.pending@.len() implies (
            #[trigger] self.pending@[i]).depth <= MAX_AX_DEPTH + 1 by {
                if i < stacked.len() {
                    assert(self.pending@[i] == stacked[i]);
                } else {
                    assert(self.pending@[i] == frames[i - stacked.len()]);
                }
            }
        }
    }

    /// Removes every node and related window of some native windows.
    pub fn drop_windows(&mut self, gone: &Vec<u32>)
        requires
            old(self).wf(),
            old(self).current is None,
        ensures
            final(self).wf(),
            *final(self) == (AxWalk {
                nodes: final(self).nodes,
                related_windows: final(self).related_windows,
                ..*old(self)
            }),
            final(self).nodes@ == kept_nodes(old(self).nodes@, gone@),
            final(self).related_windows@ == kept_related(old(self).related_windows@, gone@),
    {
        let mut index: usize = 0;
        let ghost all = self.nodes@;
        let ghost mut rest = 0int;
        assert(kept_nodes(all.take(0), gone@) =~= Seq::<RawAxNode>::empty());
        assert(self.nodes@.skip(0) =~= all.skip(0));
        while index < self.nodes.len()
            invariant
                index <= self.nodes@.len(),
                0 <= rest <= all.len(),
                self.nodes@.take(index as int) == kept_nodes(all.take(rest), gone@),
                self.nodes@.skip(index as int) == all.skip(rest),
                *self == (AxWalk { nodes: self.nodes, ..*old(self) }),
                self.current is None,
            decreases self.nodes@.len() - index,
        {
            assert(self.nodes@.skip(index as int).len() == all.skip(rest).len());
            assert(self.nodes@.skip(index as int)[0] == all.skip(rest)[0]);
            assert(all.take(rest + 1).drop_last() =~= all.take(rest));
            assert(self.nodes@[index as int] == all[rest]);
            let ghost prefix = self.nodes@.take(index as int);
            let ghost current = self.nodes@;
            if holds_id(gone, self.nodes[index].owner_window_id) {
                self.nodes.remove(index);
                assert(self.nodes@.take(index as int) =~= prefix);
                assert(self.nodes@.skip(index as int) =~= current.skip(index as int).drop_first());
                assert(all.skip(rest + 1) =~= all.skip(rest).drop_first());
            } else {
                index = index + 1;
                assert(current.take(index as int) =~= prefix.push(all[rest]));
                assert(current.skip(index as int) =~= current.skip(index as int - 1).drop_first());
                assert(all.skip(rest + 1) =~= all.skip(rest).drop_first());
            }
            proof {
                rest = rest + 1;
            }
        }
        assert(self.nodes@.skip(index as int).len() == 0);
        assert(all.skip(rest).len() == 0);
        assert(all.take(rest) =~= all);
        assert(self.nodes@.take(index as int) =~= self.nodes@);
        let mut kept: Vec<RawRelatedWindow> = Vec::new();
        let mut index: usize = 0;
        while index < self.related_windows.len()
            invariant
                index <= self.related_windows@.len(),
                kept@ == kept_related(self.related_windows@.take(index as int), gone@),
            decreases self.related_windows@.len() - index,
        {
            assert(self.related_windows@.take(index as int + 1).drop_last()
                =~= self.related_windows@.take(index as int));
            if !holds_id(gone, self.related_windows[index].window_id) {
                kept.push(self.related_windows[index]);
            }
            index = index + 1;
        }
        assert(self.related_windows@.take(index as int) =~= self.related_windows@);
        self.related_windows = kept;
        proof {
            kept_nodes_are_nodes(all, gone@);
        }
    }

    /// Starts to replace the inert proxy tree of a transient window by its live
    /// one: the proxy's nodes leave, and the live tree is walked without
    /// collecting further related windows.
    pub fn begin_replacement(&mut self, window_id: u32, root: RetainedAxElement)
        requires
            old(self).wf(),
            old(self).current is None,
        ensures
            final(self).wf(),
            !final(self).collects_related,
            final(self).current is None,
            final(self).truncated == old(self).truncated,
            final(self).target_window_id == old(self).target_window_id,
            final(self).visited == old(self).visited,
            final(self).nodes@ == kept_nodes(old(self).nodes@, seq![window_id]),
            final(self).related_windows@ == kept_related(old(self).related_windows@, seq![window_id]),
            final(self).pending@ == old(self).pending@.push(
                WalkFrame {
                    element: root,
                    parent: None,
                    depth: 0,
                    inherited_owner_window_id: window_id,
                },
            ),
    {
        let gone: Vec<u32> = vec![window_id];
        assert(gone@ =~= seq![window_id]);
        self.drop_windows(&gone);
        self.collects_related = false;
        self.begin(root, window_id);
    }

    /// Ends a replacement: the live window itself is the related one.
    pub fn end_replacement(&mut self, window_id: u32, kind: SurfaceKind, root: RetainedAxElement)
        requires
            old(self).wf(),
        ensures
            final(self).wf(),
            *final(self) == (AxWalk {
                related_windows: final(self).related_windows,
                collects_related: true,
                ..*old(self)
            }),
            final(self).related_windows@ == old(self).related_windows@.push(
                RawRelatedWindow { window_id, kind, element: root },
            ),
    {
        self.collects_related = true;
        self.related_windows.push(RawRelatedWindow { window_id, kind, element: root });
    }
}

pub fn holds_id(list: &Vec<u32>, wanted: u32) -> (found: bool)
    ensures
        found == list@.contains(wanted),
{
    let mut index: usize = 0;
    while index < list.len()
        invariant
            index <= list.len(),
            forall|i: int| 0 <= i < index ==> #[trigger] list@[i] != wanted,
        decreases list.len() - index,
    {
        if list[index] == wanted {
            assert(list@[index as int] == wanted);
            return true;
        }
        index = index + 1;
    }
    false
}

/// The nodes that no window of a list owns, in order.
pub open spec fn kept_nodes(nodes: Seq<RawAxNode>, gone: Seq<u32>) -> Seq<RawAxNode>
    decreases nodes.len(),
{
    if nodes.len() == 0 {
        Seq::empty()
    } else if !gone.contains(nodes.last().owner_window_id) {
        kept_nodes(nodes.drop_last(), gone).push(nodes.last())
    } else {
        kept_nodes(nodes.drop_last(), gone)
    }
}

/// The related windows that a list does not hold, in order.
pub open spec fn kept_related(related: Seq<RawRelatedWindow>, gone: Seq<u32>) -> Seq<
    RawRelatedWindow,
>
    decreases related.len(),
{
    if related.len() == 0 {
        Seq::empty()
    } else if !gone.contains(related.last().window_id) {
        kept_related(related.drop_last(), gone).push(related.last())
    } else {
        kept_related(related.drop_last(), gone)
    }
}

/// Where a kept node stood before.
spec fn origin(nodes: Seq<RawAxNode>, gone: Seq<u32>, i: int) -> int
    decreases nodes.len(),
{
    if nodes.len() == 0 {
        0
    } else {
        let before = kept_nodes(nodes.drop_last(), gone);
        if i < before.len() {
            origin(nodes.drop_last(), gone, i)
        } else {
            nodes.len() - 1
        }
    }
}

proof fn origin_is_increasing(nodes: Seq<RawAxNode>, gone: Seq<u32>)
    ensures
        kept_nodes(nodes, gone).len() <= nodes.len(),
        forall|i: int|
            0 <= i < kept_nodes(nodes, gone).len() ==> {
                &&& 0 <= #[trigger] origin(nodes, gone, i) < nodes.len()
                &&& kept_nodes(nodes, gone)[i] == nodes[origin(nodes, gone, i)]
            },
        forall|i: int, j: int|
            0 <= i < j < kept_nodes(nodes, gone).len() ==> #[trigger] origin(
                nodes,
                gone,
                i,
            ) < #[trigger] origin(nodes, gone, j),
    decreases nodes.len(),
{
    if nodes.len() > 0 {
        let before = kept_nodes(nodes.drop_last(), gone);
        origin_is_increasing(nodes.drop_last(), gone);
        assert forall|i: int| 0 <= i < kept_nodes(nodes, gone).len() implies {
            &&& 0 <= #[trigger] origin(nodes, gone, i) < nodes.len()
            &&& kept_nodes(nodes, gone)[i] == nodes[origin(nodes, gone, i)]
            &&& i < before.len() ==> origin(nodes, gone, i) == origin(
                nodes.drop_last(),
                gone,
                i,
            )
        } by {
            if i < before.len() {
                let k = origin(nodes.drop_last(), gone, i);
                assert(before[i] == nodes.drop_last()[k]);
            }
        }
    }
}

proof fn kept_nodes_are_nodes(nodes: Seq<RawAxNode>, gone: Seq<u32>)
    ensures
        kept_nodes(nodes, gone).len() <= nodes.len(),
        forall|i: int|
            0 <= i < kept_nodes(nodes, gone).len() ==> exists|k: int|
                0 <= k < nodes.len() && nodes[k] == #[trigger] kept_nodes(nodes, gone)[i],
        (forall|i: int, j: int|
            0 <= i < j < nodes.len() ==> (#[trigger] nodes[i]).element.address != (
            #[trigger] nodes[j]).element.address) ==> (forall|i: int, j: int|
            0 <= i < j < kept_nodes(nodes, gone).len() ==> (#[trigger] kept_nodes(
                nodes,
                gone,
            )[i]).element.address != (#[trigger] kept_nodes(
                nodes,
                gone,
            )[j]).element.address),
{
    origin_is_increasing(nodes, gone);
    let kept = kept_nodes(nodes, gone);
    assert forall|i: int| 0 <= i < kept.len() implies exists|k: int|
        0 <= k < nodes.len() && nodes[k] == #[trigger] kept[i] by {
        assert(nodes[origin(nodes, gone, i)] == kept[i]);
    }
    if forall|i: int, j: int|
        0 <= i < j < nodes.len() ==> (#[trigger] nodes[i]).element.address != (
        #[trigger] nodes[j]).element.address {
        assert forall|i: int, j: int| 0 <= i < j < kept.len() implies (
        #[trigger] kept[i]).element.address != (#[trigger] kept[j]).element.address by {
            let a = origin(nodes, gone, i);
            let b = origin(nodes, gone, j);
            assert(nodes[a].element.address != nodes[b].element.address);
        }
    }
}

/// The kind that a list of related windows gives to a window: the last entry
/// counts.
pub open spec fn last_kind(related: Seq<RawRelatedWindow>, window_id: u32) -> Option<SurfaceKind>
    decreases related.len(),
{
    if related.len() == 0 {
        None
    } else if related.last().window_id == window_id {
        Some(related.last().kind)
    } else {
        last_kind(related.drop_last(), window_id)
    }
}

pub fn related_kind(related: &Vec<RawRelatedWindow>, window_id: u32) -> (kind: Option<SurfaceKind>)
    ensures
        kind == last_kind(related@, window_id),
{
    let mut index: usize = related.len();
    assert(related@.take(index as int) =~= related@);
    while index > 0
        invariant
            index <= related.len(),
            last_kind(related@, window_id) == last_kind(related@.take(index as int), window_id),
        decreases index,
    {
        index = index - 1;
        assert(related@.take(index as int + 1).drop_last() =~= related@.take(index as int));
        if related[index].window_id == window_id {
            return Some(related[index].kind);
        }
    }
    None
}

/// The kind of the proxy that a live application window replaces: any window
/// but the target whose native id a proxy has.
pub fn proxy_replacement(
    proxies: &Vec<RawRelatedWindow>,
    target: RetainedAxElement,
    window: RetainedAxElement,
    window_id: Option<u32>,
) -> (kind: Option<SurfaceKind>)
    ensures
        kind == match window_id {
            Some(window_id) if window.address != target.address => last_kind(proxies@, window_id),
            _ => None,
        },
{
    if window.address == target.address {
        return None;
    }
    match window_id {
        Some(window_id) => related_kind(proxies, window_id),
        None => None,
    }
}

/// Whether a list has the menus that are not live, and nothing else.
pub open spec fn are_dead_menus(
    proxies: Seq<RawRelatedWindow>,
    live: Seq<u32>,
    dead: Seq<u32>,
) -> bool {
    forall|window_id: u32| #[trigger]
        dead.contains(window_id) <==> last_kind(proxies, window_id) == Some(SurfaceKind::Menu)
            && !live.contains(window_id)
}

/// The menu proxies that no live window backs: they are no open menus.
pub fn dead_menus(proxies: &Vec<RawRelatedWindow>, live: &Vec<u32>) -> (dead: Vec<u32>)
    ensures
        are_dead_menus(proxies@, live@, dead@),
{
    let mut dead: Vec<u32> = Vec::new();
    let mut index: usize = 0;
    while index < proxies.len()
        invariant
            index <= proxies.len(),
            forall|i: int|
                0 <= i < dead@.len() ==> last_kind(proxies@, #[trigger] dead@[i]) == Some(
                    SurfaceKind::Menu,
                ) && !live@.contains(dead@[i]),
            forall|i: int|
                0 <= i < index && last_kind(proxies@, (#[trigger] proxies@[i]).window_id) == Some(
                    SurfaceKind::Menu,
                ) && !live@.contains(proxies@[i].window_id) ==> dead@.contains(
                    proxies@[i].window_id,
                ),
        decreases proxies.len() - index,
    {
        let window_id: u32 = proxies[index].window_id;
        let menu: bool = match related_kind(proxies, window_id) {
            Some(SurfaceKind::Menu) => true,
            _ => false,
        };
        if menu && !holds_id(live, window_id) {
            let ghost before = dead@;
            dead.push(window_id);
            proof {
                assert(dead@[before.len() as int] == window_id);
                assert forall|i: int|
                    0 <= i < index && last_kind(proxies@, (#[trigger] proxies@[i]).window_id)
                        == Some(SurfaceKind::Menu) && !live@.contains(
                        proxies@[i].window_id,
                    ) implies dead@.contains(proxies@[i].window_id) by {
                    let k = choose|k: int|
                        0 <= k < before.len() && before[k] == proxies@[i].window_id;
                    assert(dead@[k] == proxies@[i].window_id);
                }
            }
        }
        index = index + 1;
    }
    proof {
        assert forall|window_id: u32|
            last_kind(proxies@, window_id) == Some(SurfaceKind::Menu) && !live@.contains(
                window_id,
            ) implies #[trigger] dead@.contains(window_id) by {
            let i = last_kind_index(proxies@, window_id);
            assert(proxies@[i].window_id == window_id);
        }
    }
    dead
}

proof fn last_kind_index(related: Seq<RawRelatedWindow>, window_id: u32) -> (i: int)
    requires
        last_kind(related, window_id) is Some,
    ensures
        0 <= i < related.len(),
        related[i].window_id == window_id,
    decreases related.len(),
{
    if related.last().window_id == window_id {
        related.len() - 1
    } else {
        last_kind_index(related.drop_last(), window_id)
    }
}

/// The native id and the AX reference of every related window, in order.
pub fn related_candidates(related: &Vec<RawRelatedWindow>) -> (candidates: Vec<(u32, usize)>)
    ensures
        candidates@ == related@.map_values(
            |window: RawRelatedWindow| (window.window_id, window.element.address),
        ),
{
    let mut candidates: Vec<(u32, usize)> = Vec::new();
    let mut index: usize = 0;
    while index < related.len()
        invariant
            index <= related.len(),
            candidates@ == related@.take(index as int).map_values(
                |window: RawRelatedWindow| (window.window_id, window.element.address),
            ),
        decreases related.len() - index,
    {
        candidates.push((related[index].window_id, related[index].element.address));
        index = index + 1;
        assert(candidates@ =~= related@.take(index as int).map_values(
            |window: RawRelatedWindow| (window.window_id, window.element.address),
        ));
    }
    assert(related@.take(index as int) =~= related@);
    candidates
}

pub open spec fn same_related(left: RawRelatedWindow, right: RawRelatedWindow) -> bool {
    left.window_id == right.window_id && left.kind == right.kind && left.element.identity
        == right.element.identity
}

/// Whether a list holds a related window of the same identity.
pub open spec fn holds_related(list: Seq<RawRelatedWindow>, wanted: RawRelatedWindow) -> bool {
    exists|i: int| 0 <= i < list.len() && same_related(wanted, #[trigger] list[i])
}

fn finds_related(list: &Vec<RawRelatedWindow>, wanted: &RawRelatedWindow) -> (found: bool)
    ensures
        found == holds_related(list@, *wanted),
{
    let mut index: usize = 0;
    while index < list.len()
        invariant
            index <= list.len(),
            forall|i: int| 0 <= i < index ==> !same_related(*wanted, #[trigger] list@[i]),
        decreases list.len() - index,
    {
        if wanted.window_id == list[index].window_id && wanted.kind == list[index].kind
            && wanted.element.same_identity(&list[index].element) {
            assert(same_related(*wanted, list@[index as int]));
            return true;
        }
        index = index + 1;
    }
    false
}

/// Whether a list holds every window of another.
pub open spec fn holds_all_related(
    list: Seq<RawRelatedWindow>,
    wanted: Seq<RawRelatedWindow>,
) -> bool {
    forall|i: int| 0 <= i < wanted.len() ==> holds_related(list, #[trigger] wanted[i])
}

/// As many related windows as before, and each of them is there again.
pub fn same_related_identities(
    left: &Vec<RawRelatedWindow>,
    right: &Vec<RawRelatedWindow>,
) -> (same: bool)
    ensures
        same <==> left@.len() == right@.len() && holds_all_related(right@, left@),
{
    if left.len() != right.len() {
        return false;
    }
    let mut index: usize = 0;
    while index < left.len()
        invariant
            index <= left.len(),
            forall|i: int| 0 <= i < index ==> holds_related(right@, #[trigger] left@[i]),
        decreases left.len() - index,
    {
        if !finds_related(right, &left[index]) {
            assert(!holds_related(right@, left@[index as int]));
            return false;
        }
        index = index + 1;
    }
    true
}

/// What a list of watched elements becomes when one more is offered.
pub open spec fn watched_with(
    watched: Seq<RetainedAxElement>,
    element: RetainedAxElement,
) -> Seq<RetainedAxElement> {
    if watched.len() < MAX_NOTIFICATION_ELEMENTS && forall|i: int|
        0 <= i < watched.len() ==> (#[trigger] watched[i]).identity != element.identity {
        watched.push(element)
    } else {
        watched
    }
}

/// What a list of watched elements becomes when more are offered in turn.
pub open spec fn watched_after(
    watched: Seq<RetainedAxElement>,
    offered: Seq<RetainedAxElement>,
) -> Seq<RetainedAxElement>
    decreases offered.len(),
{
    if offered.len() == 0 {
        watched
    } else {
        watched_with(watched_after(watched, offered.drop_last()), offered.last())
    }
}

/// Reasons to watch an element, the strongest first.
#[derive(Debug, Clone, Copy, PartialEq, Eq, Structural)]
pub enum WatchClass {
    Editable,
    Container,
    Any,
}

impl WatchClass {
    pub open spec fn covers(self, node: NodeView) -> bool {
        match self {
            WatchClass::Editable => node.selected || node.value_settable == Some(true)
                || node.selected_text_settable == Some(true) || node.selected_text_range_settable
                == Some(true),
            WatchClass::Container => node.role == "AXWindow"@ || node.role == "AXMenu"@
                || node.role == "AXScrollArea"@ || node.role == "AXScrollBar"@ || node.role
                == "AXTextArea"@ || node.role == "AXTextField"@,
            WatchClass::Any => true,
        }
    }

    fn includes(self, node: &RawAxNode) -> (included: bool)
        ensures
            included == self.covers(node@),
    {
        match self {
            WatchClass::Editable => node.selected || is_true(node.value_settable) || is_true(
                node.selected_text_settable,
            ) || is_true(node.selected_text_range_settable),
            WatchClass::Container => {
                let role: &str = node.role.as_str();
                same_text(role, "AXWindow") || same_text(role, "AXMenu") || same_text(
                    role,
                    "AXScrollArea",
                ) || same_text(role, "AXScrollBar") || same_text(role, "AXTextArea") || same_text(
                    role,
                    "AXTextField",
                )
            },
            WatchClass::Any => true,
        }
    }
}

/// The elements of a class, in order.
pub open spec fn elements_of(nodes: Seq<RawAxNode>, class: WatchClass) -> Seq<RetainedAxElement>
    decreases nodes.len(),
{
    if nodes.len() == 0 {
        Seq::empty()
    } else if class.covers(nodes.last()@) {
        elements_of(nodes.drop_last(), class).push(nodes.last().element)
    } else {
        elements_of(nodes.drop_last(), class)
    }
}

pub fn is_true(value: Option<bool>) -> (yes: bool)
    ensures
        yes == (value == Some(true)),
{
    match value {
        Some(value) => value,
        None => false,
    }
}

fn offer(watched: &mut Vec<RetainedAxElement>, element: RetainedAxElement)
    ensures
        final(watched)@ == watched_with(old(watched)@, element),
{
    if watched.len() >= MAX_NOTIFICATION_ELEMENTS {
        return ;
    }
    let mut index: usize = 0;
    while index < watched.len()
        invariant
            index <= watched.len(),
            watched@ == old(watched)@,
            watched.len() < MAX_NOTIFICATION_ELEMENTS,
            forall|i: int|
                0 <= i < index ==> (#[trigger] watched@[i]).identity != element.identity,
        decreases watched.len() - index,
    {
        if watched[index].same_identity(&element) {
            assert(old(watched)@[index as int].identity == element.identity);
            return ;
        }
        index = index + 1;
    }
    watched.push(element);
}

fn offer_class(watched: &mut Vec<RetainedAxElement>, nodes: &Vec<RawAxNode>, class: WatchClass)
    ensures
        final(watched)@ == watched_after(old(watched)@, elements_of(nodes@, class)),
{
    let mut index: usize = 0;
    while index < nodes.len()
        invariant
            index <= nodes.len(),
            watched@ == watched_after(
                old(watched)@,
                elements_of(nodes@.take(index as int), class),
            ),
        decreases nodes.len() - index,
    {
        let ghost before = elements_of(nodes@.take(index as int), class);
        assert(nodes@.take(index as int + 1).drop_last() =~= nodes@.take(index as int));
        if class.includes(&nodes[index]) {
            offer(watched, nodes[index].element);
            assert(before.push(nodes@[index as int].element).drop_last() =~= before);
        }
        index = index + 1;
    }
    assert(nodes@.take(index as int) =~= nodes@);
}

impl RawAxSnapshot {
    /// The elements whose notifications are watched: the focus, then what can
    /// be edited, then containers, then anything else, up to the bound.
    pub open spec fn watch_set(&self) -> Seq<RetainedAxElement> {
        let focused = match self.focused {
            Some(focused) => seq![focused],
            None => Seq::empty(),
        };
        let editable = watched_after(focused, elements_of(self.nodes@, WatchClass::Editable));
        let containers = watched_after(editable, elements_of(self.nodes@, WatchClass::Container));
        watched_after(containers, elements_of(self.nodes@, WatchClass::Any))
    }

    pub fn notification_elements(&self) -> (elements: Vec<RetainedAxElement>)
        ensures
            elements@ == self.watch_set(),
    {
        let mut elements: Vec<RetainedAxElement> = Vec::new();
        if let Some(focused) = self.focused {
            elements.push(focused);
            assert(elements@ =~= seq![focused]);
        }
        offer_class(&mut elements, &self.nodes, WatchClass::Editable);
        offer_class(&mut elements, &self.nodes, WatchClass::Container);
        offer_class(&mut elements, &self.nodes, WatchClass::Any);
        elements
    }
}

pub open spec fn distinct_identities(list: Seq<RetainedAxElement>) -> bool {
    forall|i: int, j: int|
        0 <= i < j < list.len() ==> (#[trigger] list[i]).identity != (#[trigger] list[j]).identity
}

proof fn watching_keeps_bounds(watched: Seq<RetainedAxElement>, offered: Seq<RetainedAxElement>)
    requires
        watched.len() <= MAX_NOTIFICATION_ELEMENTS,
        distinct_identities(watched),
    ensures
        watched_after(watched, offered).len() <= MAX_NOTIFICATION_ELEMENTS,
        distinct_identities(watched_after(watched, offered)),
        watched.len() <= watched_after(watched, offered).len(),
        forall|i: int|
            0 <= i < watched.len() ==> #[trigger] watched_after(watched, offered)[i] == watched[i],
    decreases offered.len(),
{
    if offered.len() > 0 {
        watching_keeps_bounds(watched, offered.drop_last());
    }
}

/// The watch set is bounded, names no element twice, and begins with the
/// focused element where there is one.
pub proof fn watch_set_is_bounded_and_distinct(snapshot: RawAxSnapshot)
    ensures
        snapshot.watch_set().len() <= MAX_NOTIFICATION_ELEMENTS,
        distinct_identities(snapshot.watch_set()),
        snapshot.focused matches Some(focused) ==> snapshot.watch_set().len() > 0
            && snapshot.watch_set()[0] == focused,
{
    let focused = match snapshot.focused {
        Some(focused) => seq![focused],
        None => Seq::empty(),
    };
    let editable = elements_of(snapshot.nodes@, WatchClass::Editable);
    let containers = elements_of(snapshot.nodes@, WatchClass::Container);
    let any = elements_of(snapshot.nodes@, WatchClass::Any);
    watching_keeps_bounds(focused, editable);
    watching_keeps_bounds(watched_after(focused, editable), containers);
    watching_keeps_bounds(watched_after(watched_after(focused, editable), containers), any);
}

/// The first difference between two nodes' contracts.
pub open spec fn node_difference(left: NodeView, right: NodeView) -> Option<Seq<char>> {
    if left.element != right.element {
        Some("ax_snapshot_element_identity_changed"@)
    } else if left.parent != right.parent {
        Some("ax_snapshot_parent_identity_changed"@)
    } else if left.depth != right.depth || left.owner_window_id != right.owner_window_id {
        Some("ax_snapshot_ownership_changed"@)
    } else if left.role != right.role || left.role_proven != right.role_proven || left.subrole
        != right.subrole || left.orientation != right.orientation {
        Some("ax_snapshot_role_changed"@)
    } else if left.label != right.label {
        Some("ax_snapshot_label_changed"@)
    } else if left.value != right.value || left.value_query_proven != right.value_query_proven
        || left.string_value != right.string_value || left.value_settable != right.value_settable {
        Some("ax_snapshot_value_changed"@)
    } else if left.selected_text_range != right.selected_text_range
        || left.selected_text_range_settable != right.selected_text_range_settable
        || left.selected_text_settable != right.selected_text_settable || left.selected
        != right.selected {
        Some("ax_snapshot_selection_changed"@)
    } else if left.bounds != right.bounds {
        Some("ax_snapshot_bounds_changed"@)
    } else if left.actions != right.actions || left.actions_proven != right.actions_proven {
        Some("ax_snapshot_actions_changed"@)
    } else {
        None
    }
}

/// The first difference between nodes that stand at the same place.
pub open spec fn nodes_difference(left: Seq<NodeView>, right: Seq<NodeView>) -> Option<Seq<char>>
    decreases left.len(),
{
    if left.len() == 0 || right.len() == 0 {
        None
    } else {
        match node_difference(left[0], right[0]) {
            Some(difference) => Some(difference),
            None => nodes_difference(left.drop_first(), right.drop_first()),
        }
    }
}

/// The first difference between two snapshots' contracts.
pub open spec fn snapshot_difference(left: SnapshotView, right: SnapshotView) -> Option<Seq<char>> {
    if left.truncated != right.truncated {
        Some("ax_snapshot_truncation_changed"@)
    } else if left.nodes.len() != right.nodes.len() {
        Some("ax_snapshot_node_count_changed"@)
    } else {
        match nodes_difference(left.nodes, right.nodes) {
            Some(difference) => Some(difference),
            None => if left.focused != right.focused {
                Some("ax_snapshot_focus_changed"@)
            } else if left.selected_text != right.selected_text {
                Some("ax_snapshot_selected_text_changed"@)
            } else if left.document_text != right.document_text {
                Some("ax_snapshot_document_text_changed"@)
            } else {
                None
            },
        }
    }
}

fn same_flags(left: Option<bool>, right: Option<bool>) -> (same: bool)
    ensures
        same == (left == right),
{
    match (left, right) {
        (Some(left), Some(right)) => left == right,
        (None, None) => true,
        _ => false,
    }
}

pub fn same_ranges(left: Option<AxCfRange>, right: Option<AxCfRange>) -> (same: bool)
    ensures
        same == (left == right),
{
    match (left, right) {
        (Some(left), Some(right)) => left == right,
        (None, None) => true,
        _ => false,
    }
}

fn same_bounds(left: Option<AxBounds>, right: Option<AxBounds>) -> (same: bool)
    ensures
        same == (left == right),
{
    match (left, right) {
        (Some(left), Some(right)) => left == right,
        (None, None) => true,
        _ => false,
    }
}

fn same_optional_identity(
    left: &Option<RetainedAxElement>,
    right: &Option<RetainedAxElement>,
) -> (same: bool)
    ensures
        same == (identity_of(*left) == identity_of(*right)),
{
    same_optional_ax_identity(left.as_ref(), right.as_ref())
}

fn difference_between(left: &RawAxNode, right: &RawAxNode) -> (difference: Option<&'static str>)
    ensures
        match difference {
            Some(difference) => node_difference(left@, right@) == Some(difference@),
            None => node_difference(left@, right@) is None,
        },
{
    if !left.element.same_identity(&right.element) {
        return Some("ax_snapshot_element_identity_changed");
    }
    if !same_optional_identity(&left.parent, &right.parent) {
        return Some("ax_snapshot_parent_identity_changed");
    }
    if left.depth != right.depth || left.owner_window_id != right.owner_window_id {
        return Some("ax_snapshot_ownership_changed");
    }
    if !same_text(left.role.as_str(), right.role.as_str()) || left.role_proven != right.role_proven
        || !same_optional_text(&left.subrole, &right.subrole) || !same_optional_text(
        &left.orientation,
        &right.orientation,
    ) {
        return Some("ax_snapshot_role_changed");
    }
    if !same_optional_text(&left.label, &right.label) {
        return Some("ax_snapshot_label_changed");
    }
    if !same_optional_text(&left.value, &right.value) || left.value_query_proven
        != right.value_query_proven || !same_optional_text(&left.string_value, &right.string_value)
        || !same_flags(left.value_settable, right.value_settable) {
        return Some("ax_snapshot_value_changed");
    }
    if !same_ranges(left.selected_text_range, right.selected_text_range) || !same_flags(
        left.selected_text_range_settable,
        right.selected_text_range_settable,
    ) || !same_flags(left.selected_text_settable, right.selected_text_settable) || left.selected
        != right.selected {
        return Some("ax_snapshot_selection_changed");
    }
    if !same_bounds(left.bounds, right.bounds) {
        return Some("ax_snapshot_bounds_changed");
    }
    if !same_texts(&left.actions, &right.actions) || left.actions_proven != right.actions_proven {
        return Some("ax_snapshot_actions_changed");
    }
    None
}

fn difference_between_nodes(left: &Vec<RawAxNode>, right: &Vec<RawAxNode>) -> (difference: Option<
    &'static str,
>)
    requires
        left@.len() == right@.len(),
    ensures
        match difference {
            Some(difference) => nodes_difference(nodes_view(left@), nodes_view(right@)) == Some(
                difference@,
            ),
            None => nodes_difference(nodes_view(left@), nodes_view(right@)) is None,
        },
{
    let ghost all_left = nodes_view(left@);
    let ghost all_right = nodes_view(right@);
    let mut index: usize = 0;
    assert(all_left.skip(0) =~= all_left);
    assert(all_right.skip(0) =~= all_right);
    while index < left.len()
        invariant
            index <= left.len(),
            left@.len() == right@.len(),
            all_left == nodes_view(left@),
            all_right == nodes_view(right@),
            nodes_difference(all_left, all_right) == nodes_difference(
                all_left.skip(index as int),
                all_right.skip(index as int),
            ),
        decreases left.len() - index,
    {
        assert(all_left.skip(index as int).drop_first() =~= all_left.skip(index as int + 1));
        assert(all_right.skip(index as int).drop_first() =~= all_right.skip(index as int + 1));
        if let Some(difference) = difference_between(&left[index], &right[index]) {
            return Some(difference);
        }
        index = index + 1;
    }
    None
}

/// The first difference between two snapshots that the published contract
/// would show; none if they are the same.
pub fn ax_snapshot_contract_difference(
    left: &RawAxSnapshot,
    right: &RawAxSnapshot,
) -> (difference: Option<&'static str>)
    ensures
        match difference {
            Some(difference) => snapshot_difference(left@, right@) == Some(difference@),
            None => snapshot_difference(left@, right@) is None,
        },
{
    if left.truncated != right.truncated {
        return Some("ax_snapshot_truncation_changed");
    }
    if left.nodes.len() != right.nodes.len() {
        return Some("ax_snapshot_node_count_changed");
    }
    if let Some(difference) = difference_between_nodes(&left.nodes, &right.nodes) {
        return Some(difference);
    }
    if !same_optional_identity(&left.focused, &right.focused) {
        return Some("ax_snapshot_focus_changed");
    }
    if !same_optional_text(&left.selected_text, &right.selected_text) {
        return Some("ax_snapshot_selected_text_changed");
    }
    if !same_optional_text(&left.document_text, &right.document_text) {
        return Some("ax_snapshot_document_text_changed");
    }
    None
}

proof fn equal_nodes_have_no_difference(left: Seq<NodeView>, right: Seq<NodeView>)
    requires
        left.len() == right.len(),
    ensures
        nodes_difference(left, right) is None <==> left == right,
    decreases left.len(),
{
    if left.len() > 0 {
        equal_nodes_have_no_difference(left.drop_first(), right.drop_first());
        assert(node_difference(left[0], right[0]) is None <==> left[0] == right[0]);
        assert(left =~= seq![left[0]] + left.drop_first());
        assert(right =~= seq![right[0]] + right.drop_first());
    } else {
        assert(left =~= right);
    }
}

/// Two snapshots have no named difference exactly when they agree in every
/// identity and every published value.
pub proof fn no_difference_means_the_same_contract(left: SnapshotView, right: SnapshotView)
    ensures
        snapshot_difference(left, right) is None <==> left == right,
{
    if left.nodes.len() == right.nodes.len() {
        equal_nodes_have_no_difference(left.nodes, right.nodes);
    }
}

/// A role whose value is document text.
pub open spec fn holds_document_text(role: Seq<char>) -> bool {
    role == "AXStaticText"@ || role == "AXTextArea"@ || role == "AXWebArea"@ || role
        == "AXDocument"@
}

/// The values of the document nodes, in order.
pub open spec fn document_values(nodes: Seq<NodeView>) -> Seq<Seq<char>>
    decreases nodes.len(),
{
    if nodes.len() == 0 {
        Seq::empty()
    } else if holds_document_text(nodes.last().role) && nodes.last().value is Some {
        document_values(nodes.drop_last()).push(nodes.last().value->0)
    } else {
        document_values(nodes.drop_last())
    }
}

fn document_text_of(nodes: &Vec<RawAxNode>) -> (document: String)
    ensures
        document@ == text::joined(document_values(nodes_view(nodes@)), "\n"@),
{
    let mut values: Vec<String> = Vec::new();
    let mut index: usize = 0;
    let ghost all = nodes_view(nodes@);
    assert(text::texts(values@) =~= document_values(all.take(0)));
    while index < nodes.len()
        invariant
            index <= nodes.len(),
            all == nodes_view(nodes@),
            text::texts(values@) == document_values(all.take(index as int)),
        decreases nodes.len() - index,
    {
        let ghost before = values@;
        assert(all.take(index as int + 1).drop_last() =~= all.take(index as int));
        assert(all.take(index as int + 1).last() == nodes@[index as int]@);
        let role: &str = nodes[index].role.as_str();
        if same_text(role, "AXStaticText") || same_text(role, "AXTextArea") || same_text(
            role,
            "AXWebArea",
        ) || same_text(role, "AXDocument") {
            if let Some(value) = &nodes[index].value {
                values.push(value.clone());
                assert(text::texts(values@) =~= text::texts(before).push(value@));
            }
        }
        index = index + 1;
    }
    assert(all.take(index as int) =~= all);
    text::join_texts(&values, "\n")
}

pub open spec fn ax_error_view(message: Seq<char>) -> errors::ErrorView {
    errors::ErrorView::new(
        ErrorCode::UnsupportedInBackground,
        ErrorPhase::Preflight,
        true,
        message,
    )
}

/// The accessibility interface cannot give what an observation needs now.
pub fn ax_error(message: &str) -> (error: NativeError)
    ensures
        error@ == ax_error_view(message@),
{
    NativeError::new(
        ErrorCode::UnsupportedInBackground,
        ErrorPhase::Preflight,
        true,
        message,
    )
}

/// The position of the first application window with the target's native id.
pub fn capture_target(
    application_available: bool,
    window_ids: &Vec<Option<u32>>,
    target_window_id: u32,
) -> (target: Result<usize, NativeError>)
    ensures
        match target {
            Ok(at) => {
                &&& application_available
                &&& at < window_ids@.len()
                &&& window_ids@[at as int] == Some(target_window_id)
                &&& forall|i: int| 0 <= i < at ==> window_ids@[i] != Some(target_window_id)
            },
            Err(error) => if !application_available {
                error@ == ax_error_view("AX application root is unavailable"@)
            } else {
                &&& error@ == ax_error_view("exact AX target window is unavailable"@)
                &&& !window_ids@.contains(Some(target_window_id))
            },
        },
{
    if !application_available {
        return Err(ax_error("AX application root is unavailable"));
    }
    let mut index: usize = 0;
    while index < window_ids.len()
        invariant
            index <= window_ids.len(),
            application_available,
            forall|i: int| 0 <= i < index ==> window_ids@[i] != Some(target_window_id),
        decreases window_ids.len() - index,
    {
        if let Some(window_id) = window_ids[index] {
            if window_id == target_window_id {
                return Ok(index);
            }
        }
        index = index + 1;
    }
    Err(ax_error("exact AX target window is unavailable"))
}

/// A window element alone, with neither actions nor a value: the application
/// has not built its tree.
pub open spec fn unmaterialized(nodes: Seq<NodeView>) -> bool {
    nodes.len() == 1 && nodes[0].role == "AXWindow"@ && nodes[0].actions.len() == 0
        && nodes[0].value is None
}

pub open spec fn among(nodes: Seq<NodeView>, identity: u64) -> bool {
    exists|i: int| 0 <= i < nodes.len() && (#[trigger] nodes[i]).element == identity
}

fn is_among(nodes: &Vec<RawAxNode>, element: &RetainedAxElement) -> (found: bool)
    ensures
        found == among(nodes_view(nodes@), element.identity),
{
    let mut index: usize = 0;
    while index < nodes.len()
        invariant
            index <= nodes.len(),
            forall|i: int|
                0 <= i < index ==> (#[trigger] nodes_view(nodes@)[i]).element != element.identity,
        decreases nodes.len() - index,
    {
        if nodes[index].element.same_identity(element) {
            assert(nodes_view(nodes@)[index as int].element == element.identity);
            return true;
        }
        assert(nodes_view(nodes@)[index as int].element != element.identity);
        index = index + 1;
    }
    false
}

impl AxWalk {
    /// The snapshot that a finished walk makes. The focus counts only where it
    /// is one of the nodes, and selected text only where the focus does.
    pub fn finish(
        self,
        focused: Option<RetainedAxElement>,
        selected_text: Option<String>,
        include_text: bool,
    ) -> (snapshot: Result<RawAxSnapshot, NativeError>)
        ensures
            ({
                let nodes = nodes_view(self.nodes@);
                let kept = focused is Some && among(nodes, focused->0.identity);
                match snapshot {
                    Err(error) => unmaterialized(nodes) && error@ == ax_error_view(
                        "target AX tree is not materialized; Plan003 observation is read-only and will not durably enable application accessibility"@,
                    ),
                    Ok(snapshot) => {
                        &&& !unmaterialized(nodes)
                        &&& snapshot.nodes == self.nodes
                        &&& snapshot.related_windows == self.related_windows
                        &&& snapshot.truncated == self.truncated
                        &&& snapshot.focused == if kept {
                            focused
                        } else {
                            None
                        }
                        &&& text::optional_text(snapshot.selected_text) == if kept {
                            text::optional_text(selected_text)
                        } else {
                            None
                        }
                        &&& text::optional_text(snapshot.document_text) == if include_text {
                            Some(text::joined(document_values(nodes), "\n"@))
                        } else {
                            None
                        }
                    },
                }
            }),
    {
        if self.nodes.len() == 1 && same_text(self.nodes[0].role.as_str(), "AXWindow")
            && self.nodes[0].actions.len() == 0 && self.nodes[0].value.is_none() {
            assert(nodes_view(self.nodes@)[0] == self.nodes@[0]@);
            return Err(
                ax_error(
                    "target AX tree is not materialized; Plan003 observation is read-only and will not durably enable application accessibility",
                ),
            );
        }
        let kept: Option<RetainedAxElement> = match focused {
            Some(focused) => if is_among(&self.nodes, &focused) {
                Some(focused)
            } else {
                None
            },
            None => None,
        };
        let selected_text: Option<String> = if kept.is_some() {
            selected_text
        } else {
            None
        };
        let document_text: Option<String> = if include_text {
            Some(document_text_of(&self.nodes))
        } else {
            None
        };
        Ok(
            RawAxSnapshot {
                nodes: self.nodes,
                focused: kept,
                selected_text,
                document_text,
                related_windows: self.related_windows,
                truncated: self.truncated,
            },
        )
    }
}

/// A menu element that no other lies above.
pub open spec fn outermost_menu(nodes: Seq<RawAxNode>, i: int) -> bool {
    &&& 0 <= i < nodes.len()
    &&& nodes[i].role@ == "AXMenu"@
    &&& forall|j: int|
        0 <= j < nodes.len() && (#[trigger] nodes[j]).role@ == "AXMenu"@ ==> nodes[i].depth
            <= nodes[j].depth
}

/// Whether an element is the one outermost menu of some nodes; none is where there is no
/// menu, and an error where there are several.
pub open spec fn is_the_open_menu(
    nodes: Seq<RawAxNode>,
    menu: Result<Option<RetainedAxElement>, NativeError>,
) -> bool {
    match menu {
        Ok(None) => forall|i: int|
            0 <= i < nodes.len() ==> (#[trigger] nodes[i]).role@ != "AXMenu"@,
        Ok(Some(element)) => exists|i: int|
            {
                &&& #[trigger] outermost_menu(nodes, i)
                &&& nodes[i].element == element
                &&& forall|j: int| #[trigger] outermost_menu(nodes, j) ==> j == i
            },
        Err(error) => {
            &&& error@ == errors::ErrorView::stale(
                ErrorCode::MenuStateStale,
                "more than one outermost native menu element was attributable to the target action"@,
            )
            &&& exists|i: int, j: int|
                i != j && #[trigger] outermost_menu(nodes, i) && #[trigger] outermost_menu(nodes, j)
        },
    }
}

/// The open native menu of a snapshot: its one outermost menu element.
pub fn discover_native_menu(snapshot: &RawAxSnapshot) -> (menu: Result<
    Option<RetainedAxElement>,
    NativeError,
>)
    ensures
        is_the_open_menu(snapshot.nodes@, menu),
{
    let nodes: &Vec<RawAxNode> = &snapshot.nodes;
    let mut least: Option<usize> = None;
    let mut first: usize = 0;
    let mut second: Option<usize> = None;
    let mut index: usize = 0;
    while index < nodes.len()
        invariant
            index <= nodes.len(),
            nodes == &snapshot.nodes,
            match least {
                None => forall|i: int|
                    0 <= i < index ==> (#[trigger] nodes@[i]).role@ != "AXMenu"@,
                Some(depth) => {
                    &&& first < index
                    &&& nodes@[first as int].role@ == "AXMenu"@
                    &&& nodes@[first as int].depth == depth
                    &&& forall|i: int|
                        0 <= i < index && (#[trigger] nodes@[i]).role@ == "AXMenu"@ ==> depth
                            <= nodes@[i].depth
                    &&& match second {
                        Some(second) => first < second < index && nodes@[second as int].role@
                            == "AXMenu"@ && nodes@[second as int].depth == depth,
                        None => forall|i: int|
                            0 <= i < index && i != first && (#[trigger] nodes@[i]).role@
                                == "AXMenu"@ ==> depth < nodes@[i].depth,
                    }
                },
            },
        decreases nodes.len() - index,
    {
        if same_text(nodes[index].role.as_str(), "AXMenu") {
            let depth: usize = nodes[index].depth;
            match least {
                Some(least_depth) => {
                    if depth < least_depth {
                        least = Some(depth);
                        first = index;
                        second = None;
                    } else if depth == least_depth && second.is_none() {
                        second = Some(index);
                    }
                },
                None => {
                    least = Some(depth);
                    first = index;
                    second = None;
                },
            }
        }
        index = index + 1;
    }
    if least.is_none() {
        return Ok(None);
    }
    assert(outermost_menu(snapshot.nodes@, first as int));
    if let Some(second) = second {
        assert(outermost_menu(snapshot.nodes@, second as int));
        return Err(
            NativeError::stale(
                ErrorCode::MenuStateStale,
                "more than one outermost native menu element was attributable to the target action",
            ),
        );
    }
    Ok(Some(nodes[first].element))
}

} // verus!
