//! Slash-separated paths read by their components: repeated and trailing
//! separators and inner `.` components do not count.
use vstd::prelude::*;

use crate::text;
use crate::text::{characters, push_characters, same_texts};

verus! {

/// How a path begins.
#[derive(Debug, Clone, Copy, PartialEq, Eq, Structural)]
pub enum PathRoot {
    Absolute,
    /// The path starts with the component `.`.
    Current,
    Plain,
}

pub open spec fn root_of(path: Seq<char>) -> PathRoot {
    if path.len() > 0 && path[0] == '/' {
        PathRoot::Absolute
    } else if path.len() > 0 && path[0] == '.' && (path.len() == 1 || path[1] == '/') {
        PathRoot::Current
    } else {
        PathRoot::Plain
    }
}

fn read_root(path: &Vec<char>) -> (root: PathRoot)
    ensures
        root == root_of(path@),
{
    if path.len() > 0 && path[0] == '/' {
        PathRoot::Absolute
    } else if path.len() > 0 && path[0] == '.' && (path.len() == 1 || path[1] == '/') {
        PathRoot::Current
    } else {
        PathRoot::Plain
    }
}

/// The length of the first segment of a path, up to a separator.
pub open spec fn segment_len(path: Seq<char>) -> nat
    decreases path.len(),
{
    if path.len() == 0 || path[0] == '/' {
        0
    } else {
        1 + segment_len(path.drop_first())
    }
}

proof fn segment_len_bound(path: Seq<char>)
    ensures
        segment_len(path) <= path.len(),
    decreases path.len(),
{
    if path.len() > 0 && path[0] != '/' {
        segment_len_bound(path.drop_first());
    }
}

/// Whether a segment counts as a component.
pub open spec fn counts(segment: Seq<char>) -> bool {
    segment.len() > 0 && !(segment.len() == 1 && segment[0] == '.')
}

/// The components of a path, in order.
pub open spec fn components(path: Seq<char>) -> Seq<Seq<char>>
    decreases path.len(),
{
    if path.len() == 0 {
        Seq::empty()
    } else {
        let end = segment_len(path) as int;
        let head = path.take(end);
        let rest = if 0 <= end < path.len() {
            components(path.skip(end + 1))
        } else {
            Seq::empty()
        };
        if counts(head) {
            seq![head] + rest
        } else {
            rest
        }
    }
}

fn components_from(path: &Vec<char>, from: usize) -> (list: Vec<String>)
    requires
        from <= path@.len(),
    ensures
        text::texts(list@) == components(path@.skip(from as int)),
    decreases path@.len() - from,
{
    let ghost tail = path@.skip(from as int);
    if from == path.len() {
        let list: Vec<String> = Vec::new();
        assert(text::texts(list@) =~= components(tail));
        return list;
    }
    let mut end: usize = from;
    proof {
        segment_len_bound(tail);
        assert(path@.skip(from as int) =~= tail);
    }
    while end < path.len() && path[end] != '/'
        invariant
            from <= end <= path@.len(),
            tail == path@.skip(from as int),
            segment_len(tail) == (end - from) + segment_len(path@.skip(end as int)),
        decreases path@.len() - end,
    {
        assert(path@.skip(end as int).drop_first() =~= path@.skip(end as int + 1));
        end = end + 1;
    }
    let ghost head = tail.take(end - from);
    assert(segment_len(tail) == end - from);
    assert(head =~= path@.subrange(from as int, end as int));
    let mut list: Vec<String> = if end < path.len() {
        assert(path@.skip(end as int + 1) =~= tail.skip(end - from + 1));
        components_from(path, end + 1)
    } else {
        Vec::new()
    };
    let ghost rest = text::texts(list@);
    assert(end == path@.len() ==> rest =~= Seq::<Seq<char>>::empty());
    let dot: bool = end - from == 1 && path[from] == '.';
    if end > from && !dot {
        let mut segment: String = String::new();
        push_characters(&mut segment, path, from, end);
        assert(segment@ =~= head);
        list.insert(0, segment);
        assert(text::texts(list@) =~= seq![head] + rest);
    }
    list
}

/// The components of a path.
pub fn path_components(path: &str) -> (list: Vec<String>)
    ensures
        text::texts(list@) == components(path@),
{
    let list: Vec<char> = characters(path);
    assert(path@.skip(0) =~= path@);
    components_from(&list, 0)
}

/// Whether two paths are the same by their components.
pub open spec fn same_components(left: Seq<char>, right: Seq<char>) -> bool {
    root_of(left) == root_of(right) && components(left) == components(right)
}

pub fn same_path(left: &str, right: &str) -> (same: bool)
    ensures
        same == same_components(left@, right@),
{
    let left_root: PathRoot = read_root(&characters(left));
    let right_root: PathRoot = read_root(&characters(right));
    left_root == right_root && same_texts(&path_components(left), &path_components(right))
}

/// Whether a file name has the extension `app`: a name that is nothing but the
/// extension has none.
pub open spec fn names_bundle(name: Seq<char>) -> bool {
    &&& name.len() > 4
    &&& name[name.len() - 4] == '.'
    &&& name[name.len() - 3] == 'a'
    &&& name[name.len() - 2] == 'p'
    &&& name[name.len() - 1] == 'p'
}

fn is_bundle_name(name: &str) -> (is: bool)
    ensures
        is == names_bundle(name@),
{
    let list: Vec<char> = characters(name);
    let len: usize = list.len();
    len > 4 && list[len - 4] == '.' && list[len - 3] == 'a' && list[len - 2] == 'p' && list[len - 1]
        == 'p'
}

/// A path from its root and components.
pub open spec fn joined(root: PathRoot, parts: Seq<Seq<char>>) -> Seq<char>
    decreases parts.len(),
{
    if parts.len() == 0 {
        match root {
            PathRoot::Absolute => seq!['/'],
            PathRoot::Current => seq!['.'],
            PathRoot::Plain => Seq::empty(),
        }
    } else {
        let before = joined(root, parts.drop_last());
        if before.len() == 0 || before.last() == '/' {
            before + parts.last()
        } else {
            before.push('/') + parts.last()
        }
    }
}

fn join_first(root: PathRoot, parts: &Vec<String>, count: usize) -> (path: String)
    requires
        count <= parts@.len(),
    ensures
        path@ == joined(root, text::texts(parts@).take(count as int)),
{
    let mut path: String = match root {
        PathRoot::Absolute => {
            let mut path: String = String::new();
            path.push('/');
            path
        },
        PathRoot::Current => {
            let mut path: String = String::new();
            path.push('.');
            path
        },
        PathRoot::Plain => String::new(),
    };
    let mut separated: bool = match root {
        PathRoot::Absolute => true,
        PathRoot::Current => false,
        PathRoot::Plain => true,
    };
    let mut index: usize = 0;
    let ghost views = text::texts(parts@);
    assert(views.take(0) =~= Seq::<Seq<char>>::empty());
    assert(path@ =~= joined(root, views.take(0)));
    while index < count
        invariant
            index <= count <= parts@.len(),
            views == text::texts(parts@),
            path@ == joined(root, views.take(index as int)),
            separated == (path@.len() == 0 || path@.last() == '/'),
        decreases count - index,
    {
        let ghost before = path@;
        if !separated {
            path.push('/');
        }
        path.push_str(parts[index].as_str());
        proof {
            assert(views.take(index as int + 1).drop_last() =~= views.take(index as int));
            assert(views.take(index as int + 1).last() == parts@[index as int]@);
            assert(path@ =~= joined(root, views.take(index as int + 1)));
        }
        separated = ends_separated(path.as_str());
        index = index + 1;
    }
    path
}

fn ends_separated(path: &str) -> (separated: bool)
    ensures
        separated == (path@.len() == 0 || path@.last() == '/'),
{
    let list: Vec<char> = characters(path);
    list.len() == 0 || list[list.len() - 1] == '/'
}

/// Whether the first `count` components of a path lead to the innermost
/// application bundle on it.
pub open spec fn bundle_ends(parts: Seq<Seq<char>>, count: int) -> bool {
    &&& 0 < count <= parts.len()
    &&& names_bundle(parts[count - 1])
    &&& forall|i: int| count <= i < parts.len() ==> !names_bundle(#[trigger] parts[i])
}

/// Whether a path is that of the innermost bundle of another, and none where no part of
/// it names one.
pub open spec fn is_innermost_bundle(path: Seq<char>, bundle: Option<String>) -> bool {
    match bundle {
        Some(bundle) => exists|count: int| #[trigger]
            bundle_ends(components(path), count) && bundle@ == joined(
                root_of(path),
                components(path).take(count),
            ),
        None => forall|i: int|
            0 <= i < components(path).len() ==> !names_bundle(#[trigger] components(path)[i]),
    }
}

/// The innermost application bundle that a canonical path names or lies in.
pub fn enclosing_app_bundle(path: &str) -> (bundle: Option<String>)
    ensures
        is_innermost_bundle(path@, bundle),
{
    let parts: Vec<String> = path_components(path);
    let ghost views = components(path@);
    let mut count: usize = parts.len();
    while count > 0
        invariant
            count <= parts@.len(),
            views == text::texts(parts@),
            views == components(path@),
            forall|i: int| count <= i < views.len() ==> !names_bundle(#[trigger] views[i]),
        decreases count,
    {
        assert(views[count as int - 1] == parts@[count as int - 1]@);
        if is_bundle_name(parts[count - 1].as_str()) {
            assert(bundle_ends(views, count as int));
            let root: PathRoot = read_root(&characters(path));
            return Some(join_first(root, &parts, count));
        }
        count = count - 1;
    }
    None
}

} // verus!
