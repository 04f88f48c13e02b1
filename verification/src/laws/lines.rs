//! How an element reads in the published tree.
use vstd::prelude::*;

use crate::driver::elements;
use crate::driver::snapshot;
use crate::driver::snapshot::RawAxNode;
use crate::text;

verus! {

/// Text is shown character by character; only a control character is shown as a
/// space.
pub proof fn shown_text_keeps_its_characters(source: Seq<char>, i: int)
    requires
        0 <= i < source.len(),
    ensures
        elements::sanitized(source).len() == source.len(),
        elements::sanitized(source)[i] == if (source[i] as u32) < 0x20 || (0x7f <= (
        source[i] as u32) && (source[i] as u32) < 0xa0) {
            ' '
        } else {
            source[i]
        },
{
}

/// A node without anything else reads as its id and its role.
pub proof fn a_bare_node_reads_as_its_id_and_role(id: Seq<char>, node: snapshot::NodeView)
    requires
        node.depth == 0,
        node.subrole is None,
        node.label is None,
        node.value is None,
        node.actions.len() == 0,
    ensures
        elements::ax_line(id, node) == "- ["@ + id + "] "@ + elements::sanitized(node.role),
{
    let line = elements::ax_line(id, node);
    assert(line =~= "- ["@ + id + "] "@ + elements::sanitized(node.role));
}

proof fn one_more_level(unit: Seq<char>, count: nat)
    ensures
        elements::repeated(unit, count + 1) == unit + elements::repeated(unit, count),
    decreases count,
{
    if count > 0 {
        one_more_level(unit, (count - 1) as nat);
        assert(elements::repeated(unit, count + 1) == elements::repeated(unit, count) + unit);
        assert(unit + elements::repeated(unit, (count - 1) as nat) + unit =~= unit + (
        elements::repeated(unit, (count - 1) as nat) + unit));
    } else {
        assert(elements::repeated(unit, 1) =~= unit + elements::repeated(unit, 0)) by {
            assert(elements::repeated(unit, 1) == elements::repeated(unit, 0) + unit);
        }
    }
}

/// A node one level further down is indented by two spaces more, and reads the
/// same otherwise.
pub proof fn a_deeper_node_is_indented(id: Seq<char>, node: snapshot::NodeView)
    requires
        node.depth < usize::MAX,
    ensures
        elements::ax_line(
            id,
            (snapshot::NodeView { depth: (node.depth + 1) as usize, ..node }),
        ) == "  "@ + elements::ax_line(id, node),
{
    one_more_level("  "@, node.depth as nat);
    let deeper = snapshot::NodeView { depth: (node.depth + 1) as usize, ..node };
    assert(elements::ax_line(id, deeper) =~= "  "@ + elements::ax_line(id, node));
}

/// A subrole, where the node has one, follows the role, and nothing follows it
/// but what else the node has.
pub proof fn a_line_shows_the_subrole(id: Seq<char>, node: snapshot::NodeView, subrole: Seq<char>)
    requires
        node.subrole is None,
        node.label is None,
        node.value is None,
        node.actions.len() == 0,
    ensures
        elements::ax_line(id, (snapshot::NodeView { subrole: Some(subrole), ..node }))
            == elements::ax_line(id, node) + (" subrole="@ + elements::quoted(
            elements::sanitized(subrole),
        )),
{
    assert(elements::ax_line(id, (snapshot::NodeView { subrole: Some(subrole), ..node }))
        =~= elements::ax_line(id, node) + (" subrole="@ + elements::quoted(
        elements::sanitized(subrole),
    )));
}

/// A label, where the node has one, follows role and subrole.
pub proof fn a_line_shows_the_label(id: Seq<char>, node: snapshot::NodeView, label: Seq<char>)
    requires
        node.label is None,
        node.value is None,
        node.actions.len() == 0,
    ensures
        elements::ax_line(id, (snapshot::NodeView { label: Some(label), ..node }))
            == elements::ax_line(id, node) + (" label="@ + elements::quoted(
            elements::sanitized(label),
        )),
{
    assert(elements::ax_line(id, (snapshot::NodeView { label: Some(label), ..node }))
        =~= elements::ax_line(id, node) + (" label="@ + elements::quoted(
        elements::sanitized(label),
    )));
}

/// The value, where the node has one, is shown behind whatever role, subrole and
/// label there are: the line of a node with a value is that of the node without,
/// and the value behind it.
pub proof fn a_line_shows_the_value(id: Seq<char>, node: snapshot::NodeView, value: Seq<char>)
    requires
        node.value is None,
        node.actions.len() == 0,
    ensures
        elements::ax_line(id, (snapshot::NodeView { value: Some(value), ..node }))
            == elements::ax_line(id, node) + (" value="@ + elements::quoted(
            elements::sanitized(value),
        )),
{
    assert(elements::ax_line(id, (snapshot::NodeView { value: Some(value), ..node }))
        =~= elements::ax_line(id, node) + (" value="@ + elements::quoted(
        elements::sanitized(value),
    )));
}

/// Lines of nodes that differ in nothing but their values differ where the
/// values do as they are quoted.
pub proof fn different_values_read_differently(
    id: Seq<char>,
    node: snapshot::NodeView,
    left: Seq<char>,
    right: Seq<char>,
)
    requires
        elements::quoted(elements::sanitized(left)) != elements::quoted(
            elements::sanitized(right),
        ),
    ensures
        elements::ax_line(id, (snapshot::NodeView { value: Some(left), ..node }))
            != elements::ax_line(id, (snapshot::NodeView { value: Some(right), ..node })),
{
    let none = Seq::<Seq<char>>::empty();
    let bare = snapshot::NodeView { value: None, actions: none, ..node };
    let front = elements::ax_line(id, bare) + " value="@;
    let a = elements::quoted(elements::sanitized(left));
    let b = elements::quoted(elements::sanitized(right));
    let tail = if node.actions.len() > 0 {
        " actions="@ + elements::quoted_list(node.actions)
    } else {
        Seq::empty()
    };
    let la = elements::ax_line(id, (snapshot::NodeView { value: Some(left), ..node }));
    let lb = elements::ax_line(id, (snapshot::NodeView { value: Some(right), ..node }));
    assert(la =~= front + a + tail);
    assert(lb =~= front + b + tail);
    if la == lb {
        assert(a.len() == b.len());
        assert forall|i: int| 0 <= i < a.len() implies a[i] == b[i] by {
            assert(la[front.len() + i] == a[i]);
            assert(lb[front.len() + i] == b[i]);
        }
        assert(a =~= b);
    }
}

/// The actions come last, in a list, where the node has any.
pub proof fn a_line_ends_with_the_actions(
    id: Seq<char>,
    node: snapshot::NodeView,
    actions: Seq<Seq<char>>,
)
    requires
        node.actions.len() == 0,
        actions.len() > 0,
    ensures
        elements::ax_line(id, (snapshot::NodeView { actions, ..node })) == elements::ax_line(
            id,
            node,
        ) + (" actions="@ + elements::quoted_list(actions)),
{
    assert(elements::ax_line(id, (snapshot::NodeView { actions, ..node })) =~= elements::ax_line(
        id,
        node,
    ) + (" actions="@ + elements::quoted_list(actions)));
}

/// A list shows each action in quotes, with commas between them.
pub proof fn a_list_of_actions_shows_each(first: Seq<char>, second: Seq<char>)
    ensures
        elements::quoted_list(seq![first]) == "["@ + elements::quoted(first) + "]"@,
        elements::quoted_list(seq![first, second]) == "["@ + elements::quoted(first) + ", "@
            + elements::quoted(second) + "]"@,
{
    let one = seq![first].map_values(|item: Seq<char>| elements::quoted(item));
    let two = seq![first, second].map_values(|item: Seq<char>| elements::quoted(item));
    assert(one =~= seq![elements::quoted(first)]);
    assert(two =~= seq![elements::quoted(first), elements::quoted(second)]);
    reveal_with_fuel(text::joined, 3);
    assert(two.drop_last() =~= one);
    assert(elements::quoted_list(seq![first]) =~= "["@ + elements::quoted(first) + "]"@);
    assert(elements::quoted_list(seq![first, second]) =~= "["@ + elements::quoted(first) + ", "@
        + elements::quoted(second) + "]"@);
}

/// The line of a node with a value is the line of the same node without one, and
/// the value behind it: whatever is handed out for the two.
pub proof fn a_rendered_line_shows_the_value(
    depth: usize,
    id: &str,
    without: &RawAxNode,
    with: &RawAxNode,
    value: Seq<char>,
    bare: String,
    line: String,
)
    requires
        call_ensures(elements::render_ax_line, (depth, id, without), bare),
        call_ensures(elements::render_ax_line, (depth, id, with), line),
        without@.value is None,
        without@.actions.len() == 0,
        with@ == (snapshot::NodeView { value: Some(value), ..without@ }),
    ensures
        line@ == bare@ + (" value="@ + elements::quoted(elements::sanitized(value))),
{
    a_line_shows_the_value(id@, (snapshot::NodeView { depth, ..without@ }), value);
}

/// So it is with the label.
pub proof fn a_rendered_line_shows_the_label(
    depth: usize,
    id: &str,
    without: &RawAxNode,
    with: &RawAxNode,
    label: Seq<char>,
    bare: String,
    line: String,
)
    requires
        call_ensures(elements::render_ax_line, (depth, id, without), bare),
        call_ensures(elements::render_ax_line, (depth, id, with), line),
        without@.label is None,
        without@.value is None,
        without@.actions.len() == 0,
        with@ == (snapshot::NodeView { label: Some(label), ..without@ }),
    ensures
        line@ == bare@ + (" label="@ + elements::quoted(elements::sanitized(label))),
{
    a_line_shows_the_label(id@, (snapshot::NodeView { depth, ..without@ }), label);
}

/// So it is with the subrole.
pub proof fn a_rendered_line_shows_the_subrole(
    depth: usize,
    id: &str,
    without: &RawAxNode,
    with: &RawAxNode,
    subrole: Seq<char>,
    bare: String,
    line: String,
)
    requires
        call_ensures(elements::render_ax_line, (depth, id, without), bare),
        call_ensures(elements::render_ax_line, (depth, id, with), line),
        without@.subrole is None,
        without@.label is None,
        without@.value is None,
        without@.actions.len() == 0,
        with@ == (snapshot::NodeView { subrole: Some(subrole), ..without@ }),
    ensures
        line@ == bare@ + (" subrole="@ + elements::quoted(elements::sanitized(subrole))),
{
    a_line_shows_the_subrole(id@, (snapshot::NodeView { depth, ..without@ }), subrole);
}

/// So it is with the actions, which come last.
pub proof fn a_rendered_line_shows_the_actions(
    depth: usize,
    id: &str,
    without: &RawAxNode,
    with: &RawAxNode,
    actions: Seq<Seq<char>>,
    bare: String,
    line: String,
)
    requires
        call_ensures(elements::render_ax_line, (depth, id, without), bare),
        call_ensures(elements::render_ax_line, (depth, id, with), line),
        without@.actions.len() == 0,
        actions.len() > 0,
        with@ == (snapshot::NodeView { actions, ..without@ }),
    ensures
        line@ == bare@ + (" actions="@ + elements::quoted_list(actions)),
{
    a_line_ends_with_the_actions(id@, (snapshot::NodeView { depth, ..without@ }), actions);
}

/// A node that has nothing but its role reads as its id and that, at the left edge.
pub proof fn a_rendered_line_starts_with_id_and_role(id: &str, node: &RawAxNode, line: String)
    requires
        call_ensures(elements::render_ax_line, (0, id, node), line),
        node@.subrole is None,
        node@.label is None,
        node@.value is None,
        node@.actions.len() == 0,
    ensures
        line@ == "- ["@ + id@ + "] "@ + elements::sanitized(node@.role),
{
    a_bare_node_reads_as_its_id_and_role(id@, (snapshot::NodeView { depth: 0, ..node@ }));
}

} // verus!
