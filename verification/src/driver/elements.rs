//! The registry of published elements: an element keeps its public id for as
//! long as its native identity lasts, whatever its label or place.
use vstd::prelude::*;

use crate::ax::bindings::AxCfRange;
use crate::contracts;
use crate::contracts::ResolvedWindowStamp;
use crate::driver::snapshot;
use crate::driver::snapshot::{AxBounds, RawAxNode, RawAxSnapshot, RetainedAxElement};
use crate::errors;
use crate::errors::{ErrorCode, NativeError};
use crate::evidence;
use crate::text;
use crate::text::{clone_optional_text, clone_texts, push_decimal, same_text};

verus! {

/// The characters of Unicode's category for control codes.
pub open spec fn control(character: char) -> bool {
    let code = character as u32;
    code <= 0x1f || 0x7f <= code <= 0x9f
}

pub open spec fn sanitized(source: Seq<char>) -> Seq<char> {
    source.map_values(
        |character: char|
            if control(character) {
                ' '
            } else {
                character
            },
    )
}

/// The text with a space in place of each control character.
pub fn sanitize(value: &str) -> (clean: String)
    ensures
        clean@ == sanitized(value@),
{
    let list: Vec<char> = text::characters(value);
    let mut clean: String = String::new();
    let mut index: usize = 0;
    assert(clean@ =~= sanitized(value@).take(0));
    while index < list.len()
        invariant
            index <= list.len(),
            list@ == value@,
            clean@ == sanitized(value@).take(index as int),
        decreases list.len() - index,
    {
        let code: u32 = list[index] as u32;
        if code <= 0x1f || (0x7f <= code && code <= 0x9f) {
            clean.push(' ');
        } else {
            clean.push(list[index]);
        }
        index = index + 1;
        assert(clean@ =~= sanitized(value@).take(index as int));
    }
    assert(sanitized(value@).take(index as int) =~= sanitized(value@));
    clean
}

/// What the `Debug` form of a string is.
pub uninterp spec fn quoted(source: Seq<char>) -> Seq<char>;

/// `format!("{:?}", ..)` of a string: its quoted form with escapes, a function
/// of its characters alone.
#[verifier::external_body]
pub(crate) fn quote(source: &str) -> (form: String)
    ensures
        form@ == quoted(source@),
{
    format!("{:?}", source)
}

/// A list of quoted strings in square brackets.
pub open spec fn quoted_list(list: Seq<Seq<char>>) -> Seq<char> {
    "["@ + text::joined(list.map_values(|item: Seq<char>| quoted(item)), ", "@) + "]"@
}

fn quote_list(list: &Vec<String>) -> (form: String)
    ensures
        form@ == quoted_list(text::texts(list@)),
{
    let ghost wanted = text::texts(list@).map_values(|item: Seq<char>| quoted(item));
    let mut forms: Vec<String> = Vec::new();
    let mut index: usize = 0;
    while index < list.len()
        invariant
            index <= list.len(),
            wanted == text::texts(list@).map_values(|item: Seq<char>| quoted(item)),
            text::texts(forms@) == wanted.take(index as int),
        decreases list.len() - index,
    {
        let ghost before = forms@;
        forms.push(quote(list[index].as_str()));
        assert(text::texts(list@)[index as int] == list@[index as int]@);
        assert(text::texts(forms@) =~= text::texts(before).push(quoted(list@[index as int]@)));
        index = index + 1;
        assert(text::texts(forms@) =~= wanted.take(index as int));
    }
    assert(wanted.take(index as int) =~= wanted);
    let mut form: String = "[".to_owned();
    form.push_str(text::join_texts(&forms, ", ").as_str());
    form.push_str("]");
    form
}

pub open spec fn repeated(unit: Seq<char>, count: nat) -> Seq<char>
    decreases count,
{
    if count == 0 {
        Seq::empty()
    } else {
        repeated(unit, (count - 1) as nat) + unit
    }
}

/// A named optional value of a rendered line.
pub open spec fn attribute(name: Seq<char>, value: Option<Seq<char>>) -> Seq<char> {
    match value {
        Some(value) => name + quoted(sanitized(value)),
        None => Seq::empty(),
    }
}

/// How a node reads in the published tree.
pub open spec fn ax_line(id: Seq<char>, node: snapshot::NodeView) -> Seq<char> {
    repeated("  "@, node.depth as nat) + "- ["@ + id + "] "@ + sanitized(node.role) + attribute(
        " subrole="@,
        node.subrole,
    ) + attribute(" label="@, node.label) + attribute(" value="@, node.value) + if node.actions.len()
        > 0 {
        " actions="@ + quoted_list(node.actions)
    } else {
        Seq::empty()
    }
}

fn push_attribute(line: &mut String, name: &str, value: &Option<String>)
    ensures
        final(line)@ == old(line)@ + attribute(name@, text::optional_text(*value)),
{
    if let Some(value) = value {
        line.push_str(name);
        let clean: String = sanitize(value.as_str());
        line.push_str(quote(clean.as_str()).as_str());
        assert(line@ =~= old(line)@ + attribute(name@, Some(value@)));
    } else {
        assert(line@ =~= old(line)@ + attribute(name@, None));
    }
}

pub fn render_ax_line(depth: usize, id: &str, node: &RawAxNode) -> (line: String)
    ensures
        line@ == ax_line(id@, (snapshot::NodeView { depth, ..node@ })),
{
    let mut line: String = String::new();
    let mut index: usize = 0;
    while index < depth
        invariant
            index <= depth,
            line@ == repeated("  "@, index as nat),
        decreases depth - index,
    {
        line.push_str("  ");
        index = index + 1;
    }
    line.push_str("- [");
    line.push_str(id);
    line.push_str("] ");
    line.push_str(sanitize(node.role.as_str()).as_str());
    push_attribute(&mut line, " subrole=", &node.subrole);
    push_attribute(&mut line, " label=", &node.label);
    push_attribute(&mut line, " value=", &node.value);
    if node.actions.len() > 0 {
        let ghost before = line@;
        line.push_str(" actions=");
        line.push_str(quote_list(&node.actions).as_str());
        assert(line@ =~= before + (" actions="@ + quoted_list(node@.actions)));
    } else {
        assert(line@ =~= line@ + Seq::<char>::empty());
    }
    line
}

/// What is kept of a published element for the actions that name it.
#[derive(Debug)]
pub struct RegisteredElementSnapshot {
    pub element: RetainedAxElement,
    pub parent: Option<RetainedAxElement>,
    pub owner: ResolvedWindowStamp,
    pub owner_window_id: u32,
    pub role: String,
    pub role_proven: bool,
    pub subrole: Option<String>,
    pub orientation: Option<String>,
    pub label: Option<String>,
    pub value_proof: Option<u64>,
    pub value_query_proven: bool,
    pub string_value: Option<String>,
    pub value_settable: Option<bool>,
    pub selected_text_range: Option<AxCfRange>,
    pub selected_text_range_settable: Option<bool>,
    pub selected_text_settable: Option<bool>,
    pub actions: Vec<String>,
    pub actions_proven: bool,
}

#[verifier::ext_equal]
pub ghost struct RegisteredView {
    pub element: RetainedAxElement,
    pub parent: Option<RetainedAxElement>,
    pub owner: contracts::StampView,
    pub owner_window_id: u32,
    pub role: Seq<char>,
    pub role_proven: bool,
    pub subrole: Option<Seq<char>>,
    pub orientation: Option<Seq<char>>,
    pub label: Option<Seq<char>>,
    pub value_proof: Option<u64>,
    pub value_query_proven: bool,
    pub string_value: Option<Seq<char>>,
    pub value_settable: Option<bool>,
    pub selected_text_range: Option<AxCfRange>,
    pub selected_text_range_settable: Option<bool>,
    pub selected_text_settable: Option<bool>,
    pub actions: Seq<Seq<char>>,
    pub actions_proven: bool,
}

impl View for RegisteredElementSnapshot {
    type V = RegisteredView;

    open spec fn view(&self) -> RegisteredView {
        RegisteredView {
            element: self.element,
            parent: self.parent,
            owner: self.owner@,
            owner_window_id: self.owner_window_id,
            role: self.role@,
            role_proven: self.role_proven,
            subrole: text::optional_text(self.subrole),
            orientation: text::optional_text(self.orientation),
            label: text::optional_text(self.label),
            value_proof: self.value_proof,
            value_query_proven: self.value_query_proven,
            string_value: text::optional_text(self.string_value),
            value_settable: self.value_settable,
            selected_text_range: self.selected_text_range,
            selected_text_range_settable: self.selected_text_range_settable,
            selected_text_settable: self.selected_text_settable,
            actions: text::texts(self.actions@),
            actions_proven: self.actions_proven,
        }
    }
}

pub open spec fn states_view(states: Seq<RegisteredElementSnapshot>) -> Seq<RegisteredView> {
    states.map_values(|state: RegisteredElementSnapshot| state@)
}

impl Clone for RegisteredElementSnapshot {
    fn clone(&self) -> (copy: Self)
        ensures
            copy@ == self@,
    {
        RegisteredElementSnapshot {
            element: self.element,
            parent: self.parent,
            owner: self.owner.clone(),
            owner_window_id: self.owner_window_id,
            role: self.role.clone(),
            role_proven: self.role_proven,
            subrole: clone_optional_text(&self.subrole),
            orientation: clone_optional_text(&self.orientation),
            label: clone_optional_text(&self.label),
            value_proof: self.value_proof,
            value_query_proven: self.value_query_proven,
            string_value: clone_optional_text(&self.string_value),
            value_settable: self.value_settable,
            selected_text_range: self.selected_text_range,
            selected_text_range_settable: self.selected_text_range_settable,
            selected_text_settable: self.selected_text_settable,
            actions: clone_texts(&self.actions),
            actions_proven: self.actions_proven,
        }
    }
}

/// What a node registers under an owner.
pub open spec fn registered_as(node: RawAxNode, owner: contracts::StampView) -> RegisteredView {
    RegisteredView {
        element: node.element,
        parent: node.parent,
        owner,
        owner_window_id: node.owner_window_id,
        role: node.role@,
        role_proven: node.role_proven,
        subrole: text::optional_text(node.subrole),
        orientation: text::optional_text(node.orientation),
        label: text::optional_text(node.label),
        value_proof: node.value_proof,
        value_query_proven: node.value_query_proven,
        string_value: text::optional_text(node.string_value),
        value_settable: node.value_settable,
        selected_text_range: node.selected_text_range,
        selected_text_range_settable: node.selected_text_range_settable,
        selected_text_settable: node.selected_text_settable,
        actions: text::texts(node.actions@),
        actions_proven: node.actions_proven,
    }
}

fn register_node(node: &RawAxNode, owner: ResolvedWindowStamp) -> (state: RegisteredElementSnapshot)
    ensures
        state@ == registered_as(*node, owner@),
{
    RegisteredElementSnapshot {
        element: node.element,
        parent: node.parent,
        owner,
        owner_window_id: node.owner_window_id,
        role: node.role.clone(),
        role_proven: node.role_proven,
        subrole: clone_optional_text(&node.subrole),
        orientation: clone_optional_text(&node.orientation),
        label: clone_optional_text(&node.label),
        value_proof: node.value_proof,
        value_query_proven: node.value_query_proven,
        string_value: clone_optional_text(&node.string_value),
        value_settable: node.value_settable,
        selected_text_range: node.selected_text_range,
        selected_text_range_settable: node.selected_text_range_settable,
        selected_text_settable: node.selected_text_settable,
        actions: clone_texts(&node.actions),
        actions_proven: node.actions_proven,
    }
}

#[derive(Debug)]
pub struct RegisteredElement {
    pub id: String,
    pub native: String,
    pub state: RegisteredElementSnapshot,
}

pub ghost struct EntryView {
    pub id: Seq<char>,
    pub native: Seq<char>,
    pub state: RegisteredView,
}

impl View for RegisteredElement {
    type V = EntryView;

    open spec fn view(&self) -> EntryView {
        EntryView { id: self.id@, native: self.native@, state: self.state@ }
    }
}

#[derive(Debug)]
pub struct MacElementRegistry {
    pub elements: Vec<RegisteredElement>,
}

impl View for MacElementRegistry {
    type V = Seq<EntryView>;

    open spec fn view(&self) -> Seq<EntryView> {
        self.elements@.map_values(|element: RegisteredElement| element@)
    }
}

/// A registered window that is related to the target.
#[derive(Debug)]
pub struct RelatedOwner {
    pub cg_window_id: u32,
    pub stamp: ResolvedWindowStamp,
}

/// The stamp of the first related window with a native id.
pub open spec fn related_stamp(related: Seq<RelatedOwner>, window_id: u32) -> Option<
    contracts::StampView,
>
    decreases related.len(),
{
    if related.len() == 0 {
        None
    } else if related[0].cg_window_id == window_id {
        Some(related[0].stamp@)
    } else {
        related_stamp(related.drop_first(), window_id)
    }
}

/// The owner of the nodes that a window holds.
pub open spec fn owner_of(
    owner_window_id: u32,
    window_id: u32,
    target: contracts::StampView,
    related: Seq<RelatedOwner>,
) -> Option<contracts::StampView> {
    if owner_window_id == window_id {
        Some(target)
    } else {
        related_stamp(related, owner_window_id)
    }
}

fn find_owner(
    owner_window_id: u32,
    window_id: u32,
    target: &ResolvedWindowStamp,
    related: &Vec<RelatedOwner>,
) -> (owner: Option<ResolvedWindowStamp>)
    ensures
        match owner {
            Some(owner) => owner_of(owner_window_id, window_id, target@, related@) == Some(owner@),
            None => owner_of(owner_window_id, window_id, target@, related@) is None,
        },
{
    if owner_window_id == window_id {
        return Some(target.clone());
    }
    let mut index: usize = 0;
    assert(related@.skip(0) =~= related@);
    while index < related.len()
        invariant
            index <= related.len(),
            related_stamp(related@, owner_window_id) == related_stamp(
                related@.skip(index as int),
                owner_window_id,
            ),
            owner_window_id != window_id,
        decreases related.len() - index,
    {
        assert(related@.skip(index as int).drop_first() =~= related@.skip(index as int + 1));
        if related[index].cg_window_id == owner_window_id {
            return Some(related[index].stamp.clone());
        }
        index = index + 1;
    }
    None
}

/// The first entry from a position on with an identity that is not taken yet.
pub open spec fn first_free(
    entries: Seq<EntryView>,
    taken: Seq<Option<int>>,
    identity: u64,
    from: int,
) -> Option<int>
    decreases entries.len() - from,
{
    if from < 0 || from >= entries.len() {
        None
    } else if entries[from].state.element.identity == identity && !taken.contains(Some(from)) {
        Some(from)
    } else {
        first_free(entries, taken, identity, from + 1)
    }
}

/// The earlier entry that each of some identities takes over, in turn.
pub open spec fn takeovers(entries: Seq<EntryView>, identities: Seq<u64>) -> Seq<Option<int>>
    decreases identities.len(),
{
    if identities.len() == 0 {
        Seq::empty()
    } else {
        let before = takeovers(entries, identities.drop_last());
        before.push(first_free(entries, before, identities.last(), 0))
    }
}

pub open spec fn identities(nodes: Seq<RawAxNode>) -> Seq<u64> {
    nodes.map_values(|node: RawAxNode| node.element.identity)
}

proof fn takeovers_of_a_prefix(entries: Seq<EntryView>, identities: Seq<u64>, count: int)
    requires
        0 <= count <= identities.len(),
    ensures
        takeovers(entries, identities).len() == identities.len(),
        takeovers(entries, identities.take(count)) == takeovers(entries, identities).take(count),
    decreases identities.len(),
{
    if identities.len() > 0 {
        let shorter = identities.drop_last();
        if count < identities.len() {
            takeovers_of_a_prefix(entries, shorter, count);
            assert(shorter.take(count) =~= identities.take(count));
            assert(takeovers(entries, identities).take(count) =~= takeovers(
                entries,
                shorter,
            ).take(count));
        } else {
            takeovers_of_a_prefix(entries, shorter, shorter.len() as int);
            assert(identities.take(count) =~= identities);
            assert(takeovers(entries, identities).take(count) =~= takeovers(entries, identities));
        }
    } else {
        assert(identities.take(count) =~= identities);
        assert(takeovers(entries, identities).take(count) =~= takeovers(entries, identities));
    }
}

/// The native handle of a new element.
pub open spec fn native_handle(window_id: u32, id: Seq<char>) -> Seq<char> {
    "macos-ax:"@ + text::decimal(window_id as nat) + ":"@ + id
}

fn new_native_handle(window_id: u32, id: &str) -> (handle: String)
    ensures
        handle@ == native_handle(window_id, id@),
{
    let mut handle: String = "macos-ax:".to_owned();
    push_decimal(&mut handle, window_id as u64);
    handle.push_str(":");
    handle.push_str(id);
    handle
}

/// One element of a published observation; its bounds are those of its node.
#[derive(Debug)]
pub struct PublishedElement {
    pub id: String,
    pub native: String,
    pub owner: ResolvedWindowStamp,
    pub role: String,
    pub subrole: Option<String>,
    pub label: Option<String>,
    pub value: Option<String>,
    pub bounds: Option<AxBounds>,
    pub actions: Vec<String>,
}

#[verifier::ext_equal]
pub ghost struct PublishedView {
    pub id: Seq<char>,
    pub native: Seq<char>,
    pub owner: contracts::StampView,
    pub role: Seq<char>,
    pub subrole: Option<Seq<char>>,
    pub label: Option<Seq<char>>,
    pub value: Option<Seq<char>>,
    pub bounds: Option<AxBounds>,
    pub actions: Seq<Seq<char>>,
}

impl View for PublishedElement {
    type V = PublishedView;

    open spec fn view(&self) -> PublishedView {
        PublishedView {
            id: self.id@,
            native: self.native@,
            owner: self.owner@,
            role: self.role@,
            subrole: text::optional_text(self.subrole),
            label: text::optional_text(self.label),
            value: text::optional_text(self.value),
            bounds: self.bounds,
            actions: text::texts(self.actions@),
        }
    }
}

/// What one observation publishes of a window's AX tree.
#[derive(Debug)]
pub struct AxPublication {
    pub normalized_tree: String,
    pub elements: Vec<PublishedElement>,
    pub focused_element: Option<String>,
    pub selected_text: Option<String>,
    pub selected_elements: Vec<String>,
    pub document_text: Option<String>,
    pub truncated: bool,
}

/// What a reconciliation is made from.
pub ghost struct Reconciliation {
    pub entries: Seq<EntryView>,
    pub nodes: Seq<RawAxNode>,
    pub fresh_ids: Seq<Seq<char>>,
    pub window_id: u32,
    pub target: contracts::StampView,
    pub related: Seq<RelatedOwner>,
}

impl Reconciliation {
    pub open spec fn takeover(self, i: int) -> Option<int> {
        takeovers(self.entries, identities(self.nodes))[i]
    }

    /// The public id of a node: that of the entry it takes over, else a fresh
    /// one.
    pub open spec fn id(self, i: int) -> Seq<char> {
        match self.takeover(i) {
            Some(entry) => self.entries[entry].id,
            None => self.fresh_ids[i],
        }
    }

    pub open spec fn native(self, i: int) -> Seq<char> {
        match self.takeover(i) {
            Some(entry) => self.entries[entry].native,
            None => native_handle(self.window_id, self.fresh_ids[i]),
        }
    }

    pub open spec fn owner(self, i: int) -> Option<contracts::StampView> {
        owner_of(self.nodes[i].owner_window_id, self.window_id, self.target, self.related)
    }

    /// Every node belongs to a registered window.
    pub open spec fn owned(self) -> bool {
        forall|i: int| 0 <= i < self.nodes.len() ==> #[trigger] self.owner(i) is Some
    }

    /// A node with no registered owner that no other comes before.
    pub open spec fn first_unowned(self, i: int) -> bool {
        &&& 0 <= i < self.nodes.len()
        &&& self.owner(i) is None
        &&& forall|j: int| 0 <= j < i ==> #[trigger] self.owner(j) is Some
    }

    pub open spec fn entry(self, i: int) -> EntryView {
        EntryView {
            id: self.id(i),
            native: self.native(i),
            state: registered_as(self.nodes[i], self.owner(i)->0),
        }
    }

    pub open spec fn published(self, i: int) -> PublishedView {
        let node = self.nodes[i]@;
        PublishedView {
            id: self.id(i),
            native: self.native(i),
            owner: self.owner(i)->0,
            role: node.role,
            subrole: node.subrole,
            label: node.label,
            value: node.value,
            bounds: node.bounds,
            actions: node.actions,
        }
    }

    pub open spec fn line(self, i: int) -> Seq<char> {
        ax_line(self.id(i), self.nodes[i]@)
    }

    /// The registry afterwards.
    pub open spec fn registry(self) -> Seq<EntryView> {
        Seq::new(self.nodes.len(), |i: int| self.entry(i))
    }

    pub open spec fn manifest(self) -> Seq<PublishedView> {
        Seq::new(self.nodes.len(), |i: int| self.published(i))
    }

    pub open spec fn lines(self) -> Seq<Seq<char>> {
        Seq::new(self.nodes.len(), |i: int| self.line(i))
    }

    /// The id of the last node among the first few with the focused identity.
    pub open spec fn focus_among(self, focused: Option<u64>, count: int) -> Option<Seq<char>>
        decreases count,
    {
        if count <= 0 {
            None
        } else if focused == Some(self.nodes[count - 1].element.identity) {
            Some(self.id(count - 1))
        } else {
            self.focus_among(focused, count - 1)
        }
    }

    /// The ids of the selected nodes among the first few, in order.
    pub open spec fn selected_among(self, count: int) -> Seq<Seq<char>>
        decreases count,
    {
        if count <= 0 {
            Seq::empty()
        } else if self.nodes[count - 1].selected {
            self.selected_among(count - 1).push(self.id(count - 1))
        } else {
            self.selected_among(count - 1)
        }
    }
}

pub open spec fn published_view(elements: Seq<PublishedElement>) -> Seq<PublishedView> {
    elements.map_values(|element: PublishedElement| element@)
}

/// What a reconciliation publishes and leaves registered, or why it refuses.
pub open spec fn reconciles(
    work: Reconciliation,
    snapshot: RawAxSnapshot,
    publication: Result<AxPublication, NativeError>,
    registered: Seq<EntryView>,
) -> bool {
    match publication {
        Ok(publication) => {
            &&& work.owned()
            &&& registered == work.registry()
            &&& publication.normalized_tree@ == text::joined(work.lines(), "\n"@)
            &&& published_view(publication.elements@) == work.manifest()
            &&& text::optional_text(publication.focused_element) == work.focus_among(
                snapshot::identity_of(snapshot.focused),
                work.nodes.len() as int,
            )
            &&& text::texts(publication.selected_elements@) == work.selected_among(
                work.nodes.len() as int,
            )
            &&& publication.selected_text == snapshot.selected_text
            &&& publication.document_text == snapshot.document_text
            &&& publication.truncated == snapshot.truncated
        },
        Err(error) => {
            &&& registered == Seq::<EntryView>::empty()
            &&& exists|i: int|
                {
                    &&& #[trigger] work.first_unowned(i)
                    &&& error@ == errors::ErrorView::stale(
                        ErrorCode::ElementStale,
                        "AX element belongs to an unregistered native window"@,
                    ).with(
                        "cg_window_id"@,
                        evidence::DetailView::Int(work.nodes[i].owner_window_id as int),
                    )
                }
        },
    }
}

fn find_free(entries: &Vec<RegisteredElement>, used: &Vec<bool>, identity: u64, Ghost(taken): Ghost<
    Seq<Option<int>>,
>) -> (found: Option<usize>)
    requires
        used@.len() == entries@.len(),
        forall|k: int|
            0 <= k < used@.len() ==> #[trigger] used@[k] == taken.contains(Some(k)),
    ensures
        match found {
            Some(at) => first_free(
                entries@.map_values(|element: RegisteredElement| element@),
                taken,
                identity,
                0,
            ) == Some(at as int) && at < entries@.len(),
            None => first_free(
                entries@.map_values(|element: RegisteredElement| element@),
                taken,
                identity,
                0,
            ) is None,
        },
{
    let ghost views = entries@.map_values(|element: RegisteredElement| element@);
    let mut index: usize = 0;
    while index < entries.len()
        invariant
            index <= entries.len(),
            used@.len() == entries@.len(),
            views == entries@.map_values(|element: RegisteredElement| element@),
            forall|k: int|
                0 <= k < used@.len() ==> #[trigger] used@[k] == taken.contains(Some(k)),
            first_free(views, taken, identity, 0) == first_free(
                views,
                taken,
                identity,
                index as int,
            ),
        decreases entries.len() - index,
    {
        assert(views[index as int] == entries@[index as int]@);
        assert(used@[index as int] == taken.contains(Some(index as int)));
        if !used[index] && entries[index].state.element.identity == identity {
            return Some(index);
        }
        index = index + 1;
    }
    None
}

impl MacElementRegistry {
    pub fn new() -> (registry: MacElementRegistry)
        ensures
            registry@ == Seq::<EntryView>::empty(),
    {
        let registry: MacElementRegistry = MacElementRegistry { elements: Vec::new() };
        assert(registry@ =~= Seq::<EntryView>::empty());
        registry
    }

    /// Publishes a snapshot: nodes take over the entries of their identities,
    /// and the registry becomes what was published. A node of an unregistered
    /// window is refused, and the registry is then empty.
    pub fn reconcile(
        &mut self,
        snapshot: RawAxSnapshot,
        window_id: u32,
        target_owner: &ResolvedWindowStamp,
        related_windows: &Vec<RelatedOwner>,
        fresh_ids: &Vec<String>,
    ) -> (publication: Result<AxPublication, NativeError>)
        requires
            fresh_ids@.len() >= snapshot.nodes@.len(),
        ensures
            reconciles(
                Reconciliation {
                    entries: old(self)@,
                    nodes: snapshot.nodes@,
                    fresh_ids: text::texts(fresh_ids@),
                    window_id,
                    target: target_owner@,
                    related: related_windows@,
                },
                snapshot,
                publication,
                final(self)@,
            ),
    {
        let mut entries: Vec<RegisteredElement> = Vec::new();
        std::mem::swap(&mut entries, &mut self.elements);
        assert(self@ =~= Seq::<EntryView>::empty());
        let ghost work = Reconciliation {
            entries: entries@.map_values(|element: RegisteredElement| element@),
            nodes: snapshot.nodes@,
            fresh_ids: text::texts(fresh_ids@),
            window_id,
            target: target_owner@,
            related: related_windows@,
        };
        let ghost keys = identities(snapshot.nodes@);
        let ghost mut taken: Seq<Option<int>> = Seq::empty();
        let mut used: Vec<bool> = Vec::new();
        while used.len() < entries.len()
            invariant
                used@.len() <= entries@.len(),
                forall|k: int| 0 <= k < used@.len() ==> !#[trigger] used@[k],
            decreases entries@.len() - used@.len(),
        {
            used.push(false);
        }
        let mut next: Vec<RegisteredElement> = Vec::new();
        let mut manifest: Vec<PublishedElement> = Vec::new();
        let mut lines: Vec<String> = Vec::new();
        let mut focused_element: Option<String> = None;
        let mut selected_elements: Vec<String> = Vec::new();
        let mut index: usize = 0;
        proof {
            assert(keys.take(0) =~= Seq::<u64>::empty());
            assert(text::texts(selected_elements@) =~= Seq::<Seq<char>>::empty());
        }
        while index < snapshot.nodes.len()
            invariant
                index <= snapshot.nodes@.len(),
                fresh_ids@.len() >= snapshot.nodes@.len(),
                self@ == Seq::<EntryView>::empty(),
                work == (Reconciliation {
                    entries: entries@.map_values(|element: RegisteredElement| element@),
                    nodes: snapshot.nodes@,
                    fresh_ids: text::texts(fresh_ids@),
                    window_id,
                    target: target_owner@,
                    related: related_windows@,
                }),
                work.entries == old(self)@,
                keys == identities(snapshot.nodes@),
                taken == takeovers(work.entries, keys.take(index as int)),
                used@.len() == entries@.len(),
                forall|k: int|
                    0 <= k < used@.len() ==> #[trigger] used@[k] == taken.contains(Some(k)),
                next@.len() == index,
                manifest@.len() == index,
                lines@.len() == index,
                forall|i: int| 0 <= i < index ==> #[trigger] work.owner(i) is Some,
                forall|i: int| 0 <= i < index ==> (#[trigger] next@[i])@ == work.entry(i),
                forall|i: int| 0 <= i < index ==> (#[trigger] manifest@[i])@ == work.published(i),
                forall|i: int| 0 <= i < index ==> (#[trigger] lines@[i])@ == work.line(i),
                text::optional_text(focused_element) == work.focus_among(
                    snapshot::identity_of(snapshot.focused),
                    index as int,
                ),
                text::texts(selected_elements@) == work.selected_among(index as int),
            decreases snapshot.nodes@.len() - index,
        {
            let node: &RawAxNode = &snapshot.nodes[index];
            let prior: Option<usize> = find_free(
                &entries,
                &used,
                node.element.identity,
                Ghost(taken),
            );
            proof {
                let longer = keys.take(index as int + 1);
                assert(longer.drop_last() =~= keys.take(index as int));
                assert(longer.last() == node.element.identity);
                takeovers_of_a_prefix(work.entries, keys, index as int + 1);
                takeovers_of_a_prefix(work.entries, keys.take(index as int), 0);
                let whole = takeovers(work.entries, keys);
                assert(whole.take(index as int + 1)[index as int] == whole[index as int]);
            }
            let (id, native): (String, String) = match prior {
                Some(at) => {
                    assert(work.takeover(index as int) == Some(at as int));
                    assert(work.entries[at as int] == entries@[at as int]@);
                    (entries[at].id.clone(), entries[at].native.clone())
                },
                None => {
                    assert(work.takeover(index as int) is None);
                    assert(work.fresh_ids[index as int] == fresh_ids@[index as int]@);
                    let id: String = fresh_ids[index].clone();
                    let native: String = new_native_handle(window_id, id.as_str());
                    (id, native)
                },
            };
            assert(id@ == work.id(index as int));
            assert(native@ == work.native(index as int));
            let ghost before = taken;
            if let Some(at) = prior {
                let ghost marks = used@;
                used.set(at, true);
                proof {
                    taken = taken.push(Some(at as int));
                    assert(taken[before.len() as int] == Some(at as int));
                    assert forall|k: int| 0 <= k < used@.len() implies #[trigger] used@[k]
                        == taken.contains(Some(k)) by {
                        assert(marks[k] == before.contains(Some(k)));
                        if before.contains(Some(k)) {
                            let m = choose|m: int| 0 <= m < before.len() && before[m] == Some(k);
                            assert(taken[m] == Some(k));
                        }
                        if taken.contains(Some(k)) && k != at {
                            let m = choose|m: int| 0 <= m < taken.len() && taken[m] == Some(k);
                            assert(before[m] == Some(k));
                        }
                    }
                }
            } else {
                proof {
                    taken = taken.push(None);
                    assert forall|k: int| 0 <= k < used@.len() implies #[trigger] used@[k]
                        == taken.contains(Some(k)) by {
                        if before.contains(Some(k)) {
                            let m = choose|m: int| 0 <= m < before.len() && before[m] == Some(k);
                            assert(taken[m] == Some(k));
                        }
                        if taken.contains(Some(k)) {
                            let m = choose|m: int| 0 <= m < taken.len() && taken[m] == Some(k);
                            assert(before[m] == Some(k));
                        }
                    }
                }
            }
            if let Some(focused) = &snapshot.focused {
                if focused.same_identity(&node.element) {
                    focused_element = Some(id.clone());
                }
            }
            if node.selected {
                let ghost chosen = selected_elements@;
                selected_elements.push(id.clone());
                assert(text::texts(selected_elements@) =~= text::texts(chosen).push(id@));
            }
            let owner: ResolvedWindowStamp = match find_owner(
                node.owner_window_id,
                window_id,
                target_owner,
                related_windows,
            ) {
                Some(owner) => owner,
                None => {
                    assert(work.first_unowned(index as int));
                    return Err(
                        NativeError::stale(
                            ErrorCode::ElementStale,
                            "AX element belongs to an unregistered native window",
                        ).with_int("cg_window_id", node.owner_window_id as i128),
                    );
                },
            };
            lines.push(render_ax_line(node.depth, id.as_str(), node));
            manifest.push(
                PublishedElement {
                    id: id.clone(),
                    native: native.clone(),
                    owner: owner.clone(),
                    role: node.role.clone(),
                    subrole: clone_optional_text(&node.subrole),
                    label: clone_optional_text(&node.label),
                    value: clone_optional_text(&node.value),
                    bounds: node.bounds,
                    actions: clone_texts(&node.actions),
                },
            );
            next.push(RegisteredElement { id, native, state: register_node(node, owner) });
            index = index + 1;
        }
        self.elements = next;
        proof {
            assert(keys.take(index as int) =~= keys);
            assert(self@ =~= work.registry());
            assert(published_view(manifest@) =~= work.manifest());
            assert(text::texts(lines@) =~= work.lines());
        }
        let normalized_tree: String = text::join_texts(&lines, "\n");
        Ok(
            AxPublication {
                normalized_tree,
                elements: manifest,
                focused_element,
                selected_text: snapshot.selected_text,
                selected_elements,
                document_text: snapshot.document_text,
                truncated: snapshot.truncated,
            },
        )
    }
}

impl MacElementRegistry {
    /// Whether what is found is the first entry with a native identity and an id.
    pub open spec fn finds(
        &self,
        native: Seq<char>,
        id: Seq<char>,
        found: Option<RegisteredElementSnapshot>,
    ) -> bool {
        match found {
            Some(found) => exists|i: int|
                {
                    &&& #[trigger] names(self@, i, native, id)
                    &&& self@[i].state == found@
                    &&& forall|j: int| 0 <= j < i ==> !#[trigger] names(self@, j, native, id)
                },
            None => forall|i: int| !#[trigger] names(self@, i, native, id),
        }
    }

    /// The entry with a native handle and an id: the first one.
    pub fn registered(&self, native: &str, id: &str) -> (found: Option<RegisteredElementSnapshot>)
        ensures
            self.finds(native@, id@, found),
    {
        let mut index: usize = 0;
        while index < self.elements.len()
            invariant
                index <= self.elements.len(),
                forall|j: int| 0 <= j < index ==> !#[trigger] names(self@, j, native@, id@),
            decreases self.elements.len() - index,
        {
            assert(self@[index as int] == self.elements@[index as int]@);
            if same_text(self.elements[index].native.as_str(), native) && same_text(
                self.elements[index].id.as_str(),
                id,
            ) {
                assert(names(self@, index as int, native@, id@));
                return Some(self.elements[index].state.clone());
            }
            index = index + 1;
        }
        None
    }

    /// The one entry with an id; none where several have it.
    pub fn registered_by_id(&self, id: &str) -> (found: Option<RegisteredElementSnapshot>)
        ensures
            match found {
                Some(found) => sole_entry(self@, id@, found@),
                None => no_sole_entry(self@, id@),
            },
    {
        let mut found: Option<usize> = None;
        let mut index: usize = 0;
        while index < self.elements.len()
            invariant
                index <= self.elements.len(),
                match found {
                    Some(at) => at < index && named(self@, at as int, id@) && forall|j: int|
                        0 <= j < index && j != at ==> !#[trigger] named(self@, j, id@),
                    None => forall|j: int| 0 <= j < index ==> !#[trigger] named(self@, j, id@),
                },
            decreases self.elements.len() - index,
        {
            assert(self@[index as int] == self.elements@[index as int]@);
            if same_text(self.elements[index].id.as_str(), id) {
                assert(named(self@, index as int, id@));
                if found.is_some() {
                    return None;
                }
                found = Some(index);
            }
            index = index + 1;
        }
        match found {
            Some(at) => {
                assert(self@[at as int] == self.elements@[at as int]@);
                Some(self.elements[at].state.clone())
            },
            None => None,
        }
    }

    /// The state of every entry, in order.
    pub fn registered_snapshots(&self) -> (states: Vec<RegisteredElementSnapshot>)
        ensures
            states@.len() == self@.len(),
            forall|i: int| 0 <= i < states@.len() ==> (#[trigger] states@[i])@ == self@[i].state,
    {
        let mut states: Vec<RegisteredElementSnapshot> = Vec::new();
        let mut index: usize = 0;
        while index < self.elements.len()
            invariant
                index <= self.elements.len(),
                states@.len() == index,
                forall|i: int|
                    0 <= i < states@.len() ==> (#[trigger] states@[i])@ == self@[i].state,
            decreases self.elements.len() - index,
        {
            states.push(self.elements[index].state.clone());
            index = index + 1;
        }
        states
    }
}

pub open spec fn named(entries: Seq<EntryView>, i: int, id: Seq<char>) -> bool {
    0 <= i < entries.len() && entries[i].id == id
}

/// Exactly one entry has an id, and this is its state.
pub open spec fn sole_entry(entries: Seq<EntryView>, id: Seq<char>, state: RegisteredView) -> bool {
    exists|i: int|
        {
            &&& #[trigger] named(entries, i, id)
            &&& entries[i].state == state
            &&& forall|j: int| #[trigger] named(entries, j, id) ==> j == i
        }
}

/// No entry has an id, or several have.
pub open spec fn no_sole_entry(entries: Seq<EntryView>, id: Seq<char>) -> bool {
    (forall|i: int| !#[trigger] named(entries, i, id)) || exists|i: int, j: int|
        i != j && #[trigger] named(entries, i, id) && #[trigger] named(entries, j, id)
}

pub open spec fn names(entries: Seq<EntryView>, i: int, native: Seq<char>, id: Seq<char>) -> bool {
    0 <= i < entries.len() && entries[i].native == native && entries[i].id == id
}

/// No two entries have one native identity.
pub open spec fn distinct_entries(entries: Seq<EntryView>) -> bool {
    forall|i: int, j: int|
        0 <= i < j < entries.len() ==> (#[trigger] entries[i]).state.element.identity != (
        #[trigger] entries[j]).state.element.identity
}

proof fn free_entries_match(
    entries: Seq<EntryView>,
    taken: Seq<Option<int>>,
    identity: u64,
    from: int,
)
    requires
        0 <= from,
    ensures
        first_free(entries, taken, identity, from) matches Some(k) ==> from <= k < entries.len()
            && entries[k].state.element.identity == identity,
        first_free(entries, taken, identity, from) is None ==> forall|k: int|
            from <= k < entries.len() && (#[trigger] entries[k]).state.element.identity == identity
                ==> taken.contains(Some(k)),
    decreases entries.len() - from,
{
    if from < entries.len() {
        free_entries_match(entries, taken, identity, from + 1);
    }
}

proof fn takeovers_match(entries: Seq<EntryView>, keys: Seq<u64>, i: int)
    requires
        0 <= i < keys.len(),
    ensures
        takeovers(entries, keys).len() == keys.len(),
        takeovers(entries, keys)[i] matches Some(k) ==> 0 <= k < entries.len()
            && entries[k].state.element.identity == keys[i],
        takeovers(entries, keys)[i] is None ==> forall|k: int|
            0 <= k < entries.len() && (#[trigger] entries[k]).state.element.identity == keys[i]
                ==> exists|j: int| 0 <= j < i && takeovers(entries, keys)[j] == Some(k),
    decreases keys.len(),
{
    takeovers_of_a_prefix(entries, keys, i + 1);
    takeovers_of_a_prefix(entries, keys, i);
    let upto = keys.take(i + 1);
    let whole = takeovers(entries, keys);
    assert(upto.drop_last() =~= keys.take(i));
    let before = takeovers(entries, keys.take(i));
    free_entries_match(entries, before, keys[i], 0);
    assert(takeovers(entries, upto)[i] == whole[i]);
    takeovers_of_a_prefix(entries, keys.take(i), i);
    if whole[i] is None {
        assert forall|k: int|
            0 <= k < entries.len() && (#[trigger] entries[k]).state.element.identity
                == keys[i] implies exists|j: int| 0 <= j < i && whole[j] == Some(k) by {
            let j = choose|j: int| 0 <= j < before.len() && before[j] == Some(k);
            assert(whole.take(i)[j] == whole[j]);
        }
    }
}

/// Ids follow native identity: in a snapshot that names no element twice, a
/// node whose identity was registered keeps the id and the handle of that
/// entry, and a node of a new identity gets a fresh id.
pub proof fn ids_follow_native_identity(work: Reconciliation, i: int)
    requires
        distinct_entries(work.entries),
        0 <= i < work.nodes.len(),
        distinct_nodes(work.nodes),
    ensures
        forall|k: int|
            0 <= k < work.entries.len() && (#[trigger] work.entries[k]).state.element.identity
                == work.nodes[i].element.identity ==> work.id(i) == work.entries[k].id
                && work.native(i) == work.entries[k].native,
        (forall|k: int|
            0 <= k < work.entries.len() ==> (#[trigger] work.entries[k]).state.element.identity
                != work.nodes[i].element.identity) ==> work.id(i) == work.fresh_ids[i]
            && work.native(i) == native_handle(work.window_id, work.fresh_ids[i]),
{
    let keys = identities(work.nodes);
    takeovers_match(work.entries, keys, i);
    assert(keys[i] == work.nodes[i].element.identity);
    assert forall|k: int|
        0 <= k < work.entries.len() && (#[trigger] work.entries[k]).state.element.identity
            == work.nodes[i].element.identity implies work.takeover(i) == Some(k) by {
        match work.takeover(i) {
            Some(m) => {
                assert(work.entries[m].state.element.identity == keys[i]);
                if m < k {
                    assert(work.entries[m].state.element.identity
                        != work.entries[k].state.element.identity);
                }
                if k < m {
                    assert(work.entries[k].state.element.identity
                        != work.entries[m].state.element.identity);
                }
            },
            None => {
                let j = choose|j: int|
                    0 <= j < i && takeovers(work.entries, keys)[j] == Some(k);
                takeovers_match(work.entries, keys, j);
                assert(keys[j] == work.nodes[j].element.identity);
                assert(work.nodes[j].element.identity != work.nodes[i].element.identity);
            },
        }
    }
}

/// A registry that was published from a snapshot without repeated elements
/// names no element twice.
pub proof fn publication_keeps_entries_distinct(work: Reconciliation)
    requires
        distinct_nodes(work.nodes),
    ensures
        distinct_entries(work.registry()),
{
    let entries = work.registry();
    assert forall|a: int, b: int| 0 <= a < b < entries.len() implies (
    #[trigger] entries[a]).state.element.identity != (
    #[trigger] entries[b]).state.element.identity by {
        assert(work.nodes[a].element.identity != work.nodes[b].element.identity);
    }
}

/// No two nodes are one native element.
pub open spec fn distinct_nodes(nodes: Seq<RawAxNode>) -> bool {
    forall|a: int, b: int|
        0 <= a < b < nodes.len() ==> (#[trigger] nodes[a]).element.identity != (
        #[trigger] nodes[b]).element.identity
}

/// No two entries share a public id.
pub open spec fn distinct_ids(entries: Seq<EntryView>) -> bool {
    forall|i: int, j: int|
        0 <= i < j < entries.len() ==> (#[trigger] entries[i]).id != (#[trigger] entries[j]).id
}

impl Reconciliation {
    /// The ids at hand for new elements are new: none is used twice and none is
    /// that of an entry.
    pub open spec fn fresh(self) -> bool {
        &&& self.fresh_ids.len() >= self.nodes.len()
        &&& forall|i: int, j: int|
            0 <= i < j < self.nodes.len() ==> #[trigger] self.fresh_ids[i]
                != #[trigger] self.fresh_ids[j]
        &&& forall|i: int, k: int|
            0 <= i < self.nodes.len() && 0 <= k < self.entries.len()
                ==> #[trigger] self.fresh_ids[i] != (#[trigger] self.entries[k]).id
    }
}

/// The entry that a node takes over; none where no entry has its identity.
proof fn entry_of_a_node(work: Reconciliation, i: int) -> (k: Option<int>)
    requires
        distinct_nodes(work.nodes),
        0 <= i < work.nodes.len(),
    ensures
        match k {
            Some(k) => 0 <= k < work.entries.len() && work.entries[k].state.element.identity
                == work.nodes[i].element.identity && work.id(i) == work.entries[k].id,
            None => work.id(i) == work.fresh_ids[i] && forall|k: int|
                0 <= k < work.entries.len() ==> (#[trigger] work.entries[k]).state.element.identity
                    != work.nodes[i].element.identity,
        },
{
    let keys = identities(work.nodes);
    takeovers_match(work.entries, keys, i);
    assert(keys[i] == work.nodes[i].element.identity);
    if work.takeover(i) is None {
        assert forall|k: int| 0 <= k < work.entries.len() implies (
        #[trigger] work.entries[k]).state.element.identity != work.nodes[i].element.identity by {
            if work.entries[k].state.element.identity == work.nodes[i].element.identity {
                let j = choose|j: int|
                    0 <= j < i && takeovers(work.entries, keys)[j] == Some(k);
                takeovers_match(work.entries, keys, j);
                assert(keys[j] == work.nodes[j].element.identity);
                assert(work.nodes[j].element.identity != work.nodes[i].element.identity);
            }
        }
    }
    work.takeover(i)
}

/// Distinct native elements get distinct public ids: a publication whose new
/// ids are new names no two elements alike.
pub proof fn distinct_elements_get_distinct_ids(work: Reconciliation)
    requires
        distinct_ids(work.entries),
        distinct_nodes(work.nodes),
        work.fresh(),
    ensures
        distinct_ids(work.registry()),
        forall|i: int, j: int|
            0 <= i < j < work.manifest().len() ==> (#[trigger] work.manifest()[i]).id != (
            #[trigger] work.manifest()[j]).id,
{
    assert forall|i: int, j: int| 0 <= i < j < work.nodes.len() implies #[trigger] work.id(i)
        != #[trigger] work.id(j) by {
        let left = entry_of_a_node(work, i);
        let right = entry_of_a_node(work, j);
        assert(work.nodes[i].element.identity != work.nodes[j].element.identity);
        match (left, right) {
            (Some(a), Some(b)) => {
                if a < b {
                    assert(work.entries[a].id != work.entries[b].id);
                } else if b < a {
                    assert(work.entries[b].id != work.entries[a].id);
                }
            },
            (Some(a), None) => {
                assert(work.fresh_ids[j] != work.entries[a].id);
            },
            (None, Some(b)) => {
                assert(work.fresh_ids[i] != work.entries[b].id);
            },
            (None, None) => {
                assert(work.fresh_ids[i] != work.fresh_ids[j]);
            },
        }
    }
    let entries = work.registry();
    assert forall|i: int, j: int| 0 <= i < j < entries.len() implies (#[trigger] entries[i]).id != (
    #[trigger] entries[j]).id by {
        assert(work.id(i) != work.id(j));
    }
    let manifest = work.manifest();
    assert forall|i: int, j: int| 0 <= i < j < manifest.len() implies (#[trigger] manifest[i]).id
        != (#[trigger] manifest[j]).id by {
        assert(work.id(i) != work.id(j));
    }
}

/// Over two publications in a row, two elements have one public id exactly
/// where they are one native element, whatever its label or place has become.
pub proof fn ids_agree_exactly_for_one_element(
    first: Reconciliation,
    second: Reconciliation,
    i: int,
    j: int,
)
    requires
        distinct_ids(first.entries),
        distinct_nodes(first.nodes),
        first.fresh(),
        second.entries == first.registry(),
        distinct_nodes(second.nodes),
        second.fresh(),
        0 <= i < first.nodes.len(),
        0 <= j < second.nodes.len(),
    ensures
        first.manifest().len() == first.nodes.len(),
        second.manifest().len() == second.nodes.len(),
        first.manifest()[i].id == second.manifest()[j].id <==> first.nodes[i].element.identity
            == second.nodes[j].element.identity,
{
    publication_keeps_entries_distinct(first);
    distinct_elements_get_distinct_ids(first);
    assert(second.entries[i].id == first.id(i));
    assert(second.entries[i].state.element.identity == first.nodes[i].element.identity);
    match entry_of_a_node(second, j) {
        Some(k) => {
            if k < i {
                assert(second.entries[k].id != second.entries[i].id);
                assert(second.entries[k].state.element.identity
                    != second.entries[i].state.element.identity);
            } else if i < k {
                assert(second.entries[i].id != second.entries[k].id);
                assert(second.entries[i].state.element.identity
                    != second.entries[k].state.element.identity);
            }
        },
        None => {
            assert(second.fresh_ids[j] != second.entries[i].id);
        },
    }
}

} // verus!
