//! Text selection by content and context: the requested text has to occur
//! exactly once, and its range is given in UTF-16 code units.
use vstd::prelude::*;

use crate::ax::bindings::AxCfRange;
use crate::errors;
use crate::errors::{ErrorCode, ErrorPhase, NativeError};
use crate::text;
use crate::text::{characters, matches_at, utf16_length};

verus! {

#[derive(Debug, Clone, Copy, PartialEq, Eq, Structural)]
pub enum SelectionType {
    Text,
    CursorBefore,
    CursorAfter,
}

#[derive(Debug)]
pub struct SelectionSpec {
    pub text: String,
    pub prefix: Option<String>,
    pub suffix: Option<String>,
    pub selection_type: SelectionType,
}

/// The text stands at a position, with the requested context around it.
pub open spec fn selects(document: Seq<char>, selection: SelectionSpec, at: int) -> bool {
    &&& 0 <= at < document.len()
    &&& text::occurs_at(document, selection.text@, at)
    &&& selection.prefix matches Some(prefix) ==> text::occurs_at(
        document.take(at),
        prefix@,
        at - prefix@.len(),
    )
    &&& selection.suffix matches Some(suffix) ==> text::occurs_at(
        document,
        suffix@,
        at + selection.text@.len(),
    )
}

/// Where the selection begins, in UTF-16 code units.
pub open spec fn selection_location(document: Seq<char>, selection: SelectionSpec, at: int) -> nat {
    match selection.selection_type {
        SelectionType::CursorAfter => text::utf16_len(document.take(at + selection.text@.len())),
        _ => text::utf16_len(document.take(at)),
    }
}

/// How long the selection is, in UTF-16 code units.
pub open spec fn selection_length(selection: SelectionSpec) -> nat {
    match selection.selection_type {
        SelectionType::Text => text::utf16_len(selection.text@),
        _ => 0,
    }
}

pub open spec fn representable(document: Seq<char>, selection: SelectionSpec, at: int) -> bool {
    selection_location(document, selection, at) <= isize::MAX && selection_length(selection)
        <= isize::MAX
}

fn in_context(
    document: &Vec<char>,
    selection: &SelectionSpec,
    wanted: &Vec<char>,
    prefix: &Option<Vec<char>>,
    suffix: &Option<Vec<char>>,
    at: usize,
) -> (found: bool)
    requires
        at < document@.len(),
        wanted@ == selection.text@,
        match (selection.prefix, *prefix) {
            (Some(text), Some(list)) => list@ == text@,
            (None, None) => true,
            _ => false,
        },
        match (selection.suffix, *suffix) {
            (Some(text), Some(list)) => list@ == text@,
            (None, None) => true,
            _ => false,
        },
    ensures
        found == selects(document@, *selection, at as int),
{
    if !matches_at(document, wanted, at) {
        return false;
    }
    if let Some(prefix) = prefix {
        if prefix.len() > at {
            return false;
        }
        let ghost window = document@.subrange(at - prefix@.len(), at as int);
        assert(document@.take(at as int).subrange(at - prefix@.len(), at as int) =~= window);
        if !matches_at(document, prefix, at - prefix.len()) {
            return false;
        }
    }
    if let Some(suffix) = suffix {
        assert(at + wanted.len() <= document.len());
        if !matches_at(document, suffix, at + wanted.len()) {
            return false;
        }
    }
    true
}

/// The one place where a selection stands.
pub open spec fn only_place(document: Seq<char>, selection: SelectionSpec, at: int) -> bool {
    selects(document, selection, at) && forall|other: int| #[trigger]
        selects(document, selection, other) ==> other == at
}

/// What a range has to be: that of the one place where the selection stands.
pub open spec fn is_range_of(
    document: Seq<char>,
    selection: SelectionSpec,
    range: AxCfRange,
) -> bool {
    exists|at: int|
        {
            &&& #[trigger] only_place(document, selection, at)
            &&& range.location == selection_location(document, selection, at)
            &&& range.length == selection_length(selection)
        }
}

/// Why a selection has no range: it stands nowhere, it stands in several
/// places, or its range is too large for the platform.
pub open spec fn has_no_range(
    document: Seq<char>,
    selection: SelectionSpec,
    error: errors::ErrorView,
) -> bool {
    ||| {
        &&& forall|at: int| !#[trigger] selects(document, selection, at)
        &&& error == errors::ErrorView::stale(
            ErrorCode::ElementStale,
            "requested text/context does not occur in the exact AXValue snapshot"@,
        )
    }
    ||| {
        &&& exists|left: int, right: int|
            left != right && #[trigger] selects(document, selection, left) && #[trigger] selects(
                document,
                selection,
                right,
            )
        &&& error == errors::ErrorView::new(
            ErrorCode::InvalidRequest,
            ErrorPhase::Preflight,
            false,
            "requested text/context is ambiguous in the exact AXValue snapshot"@,
        )
    }
    ||| {
        &&& exists|at: int| #[trigger]
            only_place(document, selection, at) && !representable(document, selection, at)
        &&& error == errors::ErrorView::unsupported(
            "requested UTF-16 text range exceeds macOS CFRange limits"@,
        )
    }
}

/// The range of a selection in a document.
pub fn resolve_selection_range(document: &str, selection: &SelectionSpec) -> (range: Result<
    AxCfRange,
    NativeError,
>)
    ensures
        match range {
            Ok(range) => is_range_of(document@, *selection, range),
            Err(error) => has_no_range(document@, *selection, error@),
        },
{
    let list: Vec<char> = characters(document);
    let wanted: Vec<char> = characters(selection.text.as_str());
    let prefix: Option<Vec<char>> = match &selection.prefix {
        Some(prefix) => Some(characters(prefix.as_str())),
        None => None,
    };
    let suffix: Option<Vec<char>> = match &selection.suffix {
        Some(suffix) => Some(characters(suffix.as_str())),
        None => None,
    };
    let mut found: Option<usize> = None;
    let mut index: usize = 0;
    while index < list.len()
        invariant
            index <= list.len(),
            list@ == document@,
            wanted@ == selection.text@,
            match (selection.prefix, prefix) {
                (Some(text), Some(list)) => list@ == text@,
                (None, None) => true,
                _ => false,
            },
            match (selection.suffix, suffix) {
                (Some(text), Some(list)) => list@ == text@,
                (None, None) => true,
                _ => false,
            },
            match found {
                Some(at) => at < index && selects(document@, *selection, at as int) && forall|
                    other: int,
                |
                    other < index && other != at ==> !#[trigger] selects(
                        document@,
                        *selection,
                        other,
                    ),
                None => forall|other: int|
                    other < index ==> !#[trigger] selects(document@, *selection, other),
            },
        decreases list.len() - index,
    {
        if in_context(&list, selection, &wanted, &prefix, &suffix, index) {
            if found.is_some() {
                return Err(
                    NativeError::new(
                        ErrorCode::InvalidRequest,
                        ErrorPhase::Preflight,
                        false,
                        "requested text/context is ambiguous in the exact AXValue snapshot",
                    ),
                );
            }
            found = Some(index);
        }
        index = index + 1;
    }
    let start: usize = match found {
        Some(at) => at,
        None => {
            return Err(
                NativeError::stale(
                    ErrorCode::ElementStale,
                    "requested text/context does not occur in the exact AXValue snapshot",
                ),
            );
        },
    };
    assert(only_place(document@, *selection, start as int));
    let end: usize = start + wanted.len();
    let upto: usize = match selection.selection_type {
        SelectionType::CursorAfter => end,
        _ => start,
    };
    assert(list@.subrange(0, upto as int) =~= document@.take(upto as int));
    assert(list@.subrange(start as int, end as int) == selection.text@);
    let location: Option<usize> = utf16_length(&list, 0, upto);
    let length: Option<usize> = match selection.selection_type {
        SelectionType::Text => utf16_length(&list, start, end),
        _ => Some(0),
    };
    if let (Some(location), Some(length)) = (location, length) {
        if let Some(range) = AxCfRange::from_utf16(location, length) {
            return Ok(range);
        }
    }
    assert(!representable(document@, *selection, start as int));
    Err(NativeError::unsupported("requested UTF-16 text range exceeds macOS CFRange limits"))
}

/// A resolved text range covers exactly the requested text: what comes before
/// it, the text, and what comes after it make up the document.
pub proof fn a_resolved_range_covers_its_text(
    document: Seq<char>,
    selection: SelectionSpec,
    at: int,
)
    requires
        selects(document, selection, at),
    ensures
        document == document.take(at) + selection.text@ + document.skip(
            at + selection.text@.len(),
        ),
        text::utf16_len(document.take(at + selection.text@.len())) == text::utf16_len(
            document.take(at),
        ) + text::utf16_len(selection.text@),
{
    let end = at + selection.text@.len();
    assert(document.subrange(at, end) == selection.text@);
    assert(document.take(end) =~= document.take(at) + selection.text@);
    assert(document =~= document.take(at) + selection.text@ + document.skip(end));
    text::utf16_len_of_parts(document.take(at), selection.text@);
}

} // verus!
