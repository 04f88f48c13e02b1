//! Fail-closed reacquisition of an AppKit element replaced after observation.
use vstd::prelude::*;

use crate::text;
use crate::text::{same_optional_text, same_text};

verus! {

#[derive(Debug, Clone, Copy, PartialEq, Eq, Structural)]
pub enum RefetchFailure {
    Missing,
    Ambiguous,
    Incomplete,
}

impl RefetchFailure {
    pub fn reason(self) -> (reason: &'static str)
        ensures
            reason@ == match self {
                RefetchFailure::Missing => "refetch_missing"@,
                RefetchFailure::Ambiguous => "refetch_ambiguous"@,
                RefetchFailure::Incomplete => "refetch_incomplete"@,
            },
    {
        match self {
            RefetchFailure::Missing => "refetch_missing",
            RefetchFailure::Ambiguous => "refetch_ambiguous",
            RefetchFailure::Incomplete => "refetch_incomplete",
        }
    }
}

/// What makes one AX element recognisable among its siblings.
#[derive(Debug)]
pub struct ElementIdentity {
    pub role: String,
    pub subrole: Option<String>,
    pub title: Option<String>,
    pub description: Option<String>,
    pub identifier: Option<String>,
}

pub ghost struct IdentityView {
    pub role: Seq<char>,
    pub subrole: Option<Seq<char>>,
    pub title: Option<Seq<char>>,
    pub description: Option<Seq<char>>,
    pub identifier: Option<Seq<char>>,
}

impl View for ElementIdentity {
    type V = IdentityView;

    open spec fn view(&self) -> IdentityView {
        IdentityView {
            role: self.role@,
            subrole: text::optional_text(self.subrole),
            title: text::optional_text(self.title),
            description: text::optional_text(self.description),
            identifier: text::optional_text(self.identifier),
        }
    }
}

impl ElementIdentity {
    pub fn same(&self, other: &ElementIdentity) -> (same: bool)
        ensures
            same == (self@ == other@),
    {
        same_text(self.role.as_str(), other.role.as_str()) && same_optional_text(
            &self.subrole,
            &other.subrole,
        ) && same_optional_text(&self.title, &other.title) && same_optional_text(
            &self.description,
            &other.description,
        ) && same_optional_text(&self.identifier, &other.identifier)
    }
}

/// An element together with the whole path of its ancestors.
#[derive(Debug)]
pub struct ElementLocator {
    pub ancestors: Vec<ElementIdentity>,
    pub target: ElementIdentity,
}

pub ghost struct LocatorView {
    pub ancestors: Seq<IdentityView>,
    pub target: IdentityView,
}

pub open spec fn identities(list: Seq<ElementIdentity>) -> Seq<IdentityView> {
    list.map_values(|identity: ElementIdentity| identity@)
}

impl View for ElementLocator {
    type V = LocatorView;

    open spec fn view(&self) -> LocatorView {
        LocatorView { ancestors: identities(self.ancestors@), target: self.target@ }
    }
}

impl ElementLocator {
    pub fn same(&self, other: &ElementLocator) -> (same: bool)
        ensures
            same == (self@ == other@),
    {
        let ghost left = identities(self.ancestors@);
        let ghost right = identities(other.ancestors@);
        if self.ancestors.len() != other.ancestors.len() {
            assert(left.len() != right.len());
            return false;
        }
        let mut index: usize = 0;
        while index < self.ancestors.len()
            invariant
                index <= self.ancestors.len(),
                self.ancestors.len() == other.ancestors.len(),
                left == identities(self.ancestors@),
                right == identities(other.ancestors@),
                forall|i: int| 0 <= i < index ==> #[trigger] left[i] == right[i],
            decreases self.ancestors.len() - index,
        {
            if !self.ancestors[index].same(&other.ancestors[index]) {
                assert(left[index as int] != right[index as int]);
                return false;
            }
            index = index + 1;
        }
        assert(left =~= right);
        self.target.same(&other.target)
    }
}

/// One node of a bounded walk over the exact window.
#[derive(Debug, Clone, Copy, PartialEq, Eq, Structural)]
pub struct WalkedNode {
    /// The position of the node's locator, where the node is actionable.
    pub element_index: Option<usize>,
    pub element: u64,
    /// The WindowServer id that the element belongs to.
    pub window_id: Option<u32>,
}

/// A bounded walk over one AX window.
#[derive(Debug)]
pub struct RefetchWalk {
    pub truncated: bool,
    pub window_matched: bool,
    pub element_locators: Vec<ElementLocator>,
    pub nodes: Vec<WalkedNode>,
}

impl RefetchWalk {
    /// Only a walk that saw the whole exact window proves uniqueness.
    pub open spec fn complete(&self) -> bool {
        !self.truncated && self.window_matched
    }

    /// The position of the node that carries a locator.
    pub open spec fn carries(&self, node: int, locator: int) -> bool {
        &&& 0 <= node < self.nodes@.len()
        &&& self.nodes@[node].element_index matches Some(index) && index == locator
        &&& forall|earlier: int|
            0 <= earlier < node ==> (#[trigger] self.nodes@[earlier]).element_index != Some(
                locator as usize,
            )
    }

    /// Whether the locator at a position is the wanted one, on an element of
    /// the exact window.
    pub open spec fn matches(
        &self,
        locator: int,
        node: int,
        wanted: LocatorView,
        window_id: u32,
    ) -> bool {
        &&& 0 <= locator < self.element_locators@.len()
        &&& self.element_locators@[locator]@ == wanted
        &&& self.carries(node, locator)
        &&& self.nodes@[node].window_id == Some(window_id)
    }

    fn node_for(&self, locator: usize) -> (found: Option<usize>)
        ensures
            match found {
                Some(node) => self.carries(node as int, locator as int),
                None => forall|node: int| !#[trigger] self.carries(node, locator as int),
            },
    {
        let mut index: usize = 0;
        while index < self.nodes.len()
            invariant
                index <= self.nodes.len(),
                forall|i: int|
                    0 <= i < index ==> (#[trigger] self.nodes@[i]).element_index != Some(locator),
            decreases self.nodes.len() - index,
        {
            if let Some(found) = self.nodes[index].element_index {
                if found == locator {
                    return Some(index);
                }
            }
            index = index + 1;
        }
        None
    }
}

/// Whether an element is the one that a locator matches in a complete walk, and a
/// failure why there is none.
pub open spec fn reacquires(
    walk: RefetchWalk,
    window_id: u32,
    locator: ElementLocator,
    outcome: Result<u64, RefetchFailure>,
) -> bool {
    match outcome {
        Ok(element) => walk.complete() && exists|found: int, node: int|
            #![trigger walk.matches(found, node, locator@, window_id)]
            {
                &&& walk.matches(found, node, locator@, window_id)
                &&& walk.nodes@[node].element == element
                &&& forall|other: int, other_node: int| #[trigger]
                    walk.matches(other, other_node, locator@, window_id) ==> other == found
            },
        Err(RefetchFailure::Incomplete) => !walk.complete(),
        Err(RefetchFailure::Missing) => walk.complete() && forall|found: int, node: int|
            !#[trigger] walk.matches(found, node, locator@, window_id),
        Err(RefetchFailure::Ambiguous) => walk.complete() && exists|
            first: int,
            first_node: int,
            second: int,
            second_node: int,
        |
            #![trigger walk.matches(first, first_node, locator@, window_id), walk.matches(second, second_node, locator@, window_id)]
            first != second && walk.matches(first, first_node, locator@, window_id)
                && walk.matches(second, second_node, locator@, window_id),
    }
}

/// Searches one exact AX window for one exact captured locator. The full
/// bounded walk is required to prove uniqueness; a partial walk is never
/// interpreted as "one match" because another identical row may lie beyond the
/// boundary.
pub fn reacquire(walk: &RefetchWalk, window_id: u32, locator: &ElementLocator) -> (outcome: Result<
    u64,
    RefetchFailure,
>)
    ensures
        reacquires(*walk, window_id, *locator, outcome),
{
    if walk.truncated || !walk.window_matched {
        return Err(RefetchFailure::Incomplete);
    }
    let mut selected: Option<u64> = None;
    let ghost mut at: (int, int) = (0, 0);
    let mut index: usize = 0;
    while index < walk.element_locators.len()
        invariant
            index <= walk.element_locators.len(),
            walk.complete(),
            selected is None ==> forall|found: int, node: int|
                found < index ==> !#[trigger] walk.matches(found, node, locator@, window_id),
            selected matches Some(element) ==> {
                &&& at.0 < index
                &&& walk.matches(at.0, at.1, locator@, window_id)
                &&& walk.nodes@[at.1].element == element
                &&& forall|other: int, other_node: int|
                    other < index && #[trigger] walk.matches(other, other_node, locator@, window_id)
                        ==> other == at.0
            },
        decreases walk.element_locators.len() - index,
    {
        if walk.element_locators[index].same(locator) {
            if let Some(node) = walk.node_for(index) {
                let exact_window: bool = match walk.nodes[node].window_id {
                    Some(owner) => owner == window_id,
                    None => false,
                };
                if exact_window {
                    assert(walk.matches(index as int, node as int, locator@, window_id));
                    if selected.is_some() {
                        assert(walk.matches(at.0, at.1, locator@, window_id));
                        return Err(RefetchFailure::Ambiguous);
                    }
                    selected = Some(walk.nodes[node].element);
                    proof {
                        at = (index as int, node as int);
                    }
                } else {
                    assert forall|other_node: int| !#[trigger]
                        walk.matches(index as int, other_node, locator@, window_id) by {
                        if walk.carries(other_node, index as int) {
                            assert(other_node == node);
                        }
                    }
                }
            }
        }
        index = index + 1;
    }
    match selected {
        Some(element) => Ok(element),
        None => Err(RefetchFailure::Missing),
    }
}

/// Two locators of one target under different ancestors are different: the
/// collapsed parent path is part of an element's identity.
pub proof fn ancestors_are_part_of_identity(left: ElementLocator, right: ElementLocator)
    requires
        identities(left.ancestors@) != identities(right.ancestors@),
    ensures
        left@ != right@,
{
}

} // verus!
