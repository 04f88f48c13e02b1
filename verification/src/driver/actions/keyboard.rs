//! Exact focused-control preparation and background-only keyboard routes.
use vstd::prelude::*;

use crate::ax::bindings::{AxCfRange, AX_ERROR_SUCCESS};
use crate::contracts;
use crate::contracts::{
    ActionKind, ActionShape, AddressingMode, CapabilityCell, CapabilityKey, Framework,
    PlatformName, ResolvedWindowStamp, Route, RouteDecision, SettlementSignal, VerificationLevel,
    WindowStateKind,
};
use crate::driver::actions;
use crate::driver::actions::semantic::Candidate;
use crate::driver::actions::{window_state, NativeDispatch};
use crate::driver::elements;
use crate::driver::elements::{MacElementRegistry, RegisteredElementSnapshot};
use crate::driver::interaction::LeaseDecision;
use crate::driver::snapshot::{same_ranges, RetainedAxElement};
use crate::errors;
use crate::errors::{ErrorCode, ErrorPhase, NativeError};
use crate::evidence;
use crate::evidence::{Detail, Fields};
use crate::text;
use crate::text::{
    characters, index_at_utf16, push_characters, push_signed_decimal, same_optional_text, same_text,
    utf16_count, utf16_length,
};

verus! {

/// How many ancestors are asked for the process that takes key events.
pub const MAX_KEYBOARD_ANCESTRY: usize = 64;

/// Nanoseconds between the groups of a key sequence.
pub const GROUP_PAUSE: u64 = 8_000_000;

/// The keyboard action provider, over a registry of windows.
#[derive(Debug)]
pub struct MacKeyboardActions<W> {
    pub windows: W,
}

impl<W> MacKeyboardActions<W> {
    pub fn new(windows: W) -> (provider: MacKeyboardActions<W>)
        ensures
            provider.windows == windows,
    {
        MacKeyboardActions { windows }
    }
}

pub open spec fn drift(message: Seq<char>) -> errors::ErrorView {
    errors::ErrorView::stale(ErrorCode::AxRevisionMismatch, message)
}

/// The focus or its text is no longer what was observed.
pub fn focus_drift(message: &str) -> (error: NativeError)
    ensures
        error@ == drift(message@),
{
    NativeError::stale(ErrorCode::AxRevisionMismatch, message)
}

/// What a text field holds after an insertion.
#[derive(Debug)]
pub struct ExpectedInsertion {
    pub value: String,
    pub selection: AxCfRange,
}

/// Some position has a number of UTF-16 code units before it.
pub open spec fn has_boundary(source: Seq<char>, units: nat) -> bool {
    exists|at: int| #[trigger] text::utf16_boundary(source, at, units)
}

/// Why an insertion at a selection has no exact outcome.
pub open spec fn insertion_refusal(
    before: Seq<char>,
    selection: AxCfRange,
    inserted: Seq<char>,
) -> Option<Seq<char>> {
    let location = selection.location as int;
    let end = selection.location + selection.length;
    let caret = location + text::utf16_len(inserted);
    if location < 0 {
        Some("selection location is negative"@)
    } else if selection.length < 0 {
        Some("selection length is negative"@)
    } else if end > usize::MAX {
        Some("selection range overflowed"@)
    } else if !has_boundary(before, location as nat) {
        Some("selection start is not a UTF-16 boundary"@)
    } else if !has_boundary(before, end as nat) {
        Some("selection end is not a UTF-16 boundary"@)
    } else if caret > usize::MAX {
        Some("inserted caret location overflowed"@)
    } else if caret > isize::MAX {
        Some("inserted caret exceeds CFRange"@)
    } else {
        None
    }
}

/// A selection covers the characters from one position to another.
pub open spec fn covers(before: Seq<char>, selection: AxCfRange, from: int, to: int) -> bool {
    &&& 0 <= selection.location
    &&& 0 <= selection.length
    &&& from <= to
    &&& text::utf16_boundary(before, from, selection.location as nat)
    &&& text::utf16_boundary(before, to, (selection.location + selection.length) as nat)
}

/// The selection is replaced, everything else is kept, and the caret stands
/// behind what was inserted.
pub open spec fn is_insertion(
    before: Seq<char>,
    selection: AxCfRange,
    inserted: Seq<char>,
    value: Seq<char>,
    caret: AxCfRange,
) -> bool {
    exists|from: int, to: int|
        {
            &&& #[trigger] covers(before, selection, from, to)
            &&& value == before.take(from) + inserted + before.skip(to)
            &&& caret.location == selection.location + text::utf16_len(inserted)
            &&& caret.length == 0
        }
}

/// Replaces a selection, given in UTF-16 code units, by a text.
pub fn apply_insertion(before: &str, selection: AxCfRange, inserted: &str) -> (outcome: Result<
    ExpectedInsertion,
    NativeError,
>)
    ensures
        match outcome {
            Ok(expected) => insertion_refusal(before@, selection, inserted@) is None
                && is_insertion(
                before@,
                selection,
                inserted@,
                expected.value@,
                expected.selection,
            ),
            Err(error) => insertion_refusal(before@, selection, inserted@) matches Some(message)
                && error@ == drift(message),
        },
{
    if selection.location < 0 {
        return Err(focus_drift("selection location is negative"));
    }
    if selection.length < 0 {
        return Err(focus_drift("selection length is negative"));
    }
    let location: usize = selection.location as usize;
    let length: usize = selection.length as usize;
    let end: usize = match location.checked_add(length) {
        Some(end) => end,
        None => {
            return Err(focus_drift("selection range overflowed"));
        },
    };
    let list: Vec<char> = characters(before);
    let from: usize = match index_at_utf16(&list, location) {
        Some(from) => from,
        None => {
            return Err(focus_drift("selection start is not a UTF-16 boundary"));
        },
    };
    assert(has_boundary(before@, location as nat)) by {
        assert(text::utf16_boundary(before@, from as int, location as nat));
    }
    let to: usize = match index_at_utf16(&list, end) {
        Some(to) => to,
        None => {
            return Err(focus_drift("selection end is not a UTF-16 boundary"));
        },
    };
    assert(has_boundary(before@, end as nat)) by {
        assert(text::utf16_boundary(before@, to as int, end as nat));
    }
    proof {
        if to < from {
            text::utf16_len_grows(before@, to as int, from as int);
        }
    }
    let addition: Vec<char> = characters(inserted);
    assert(addition@.subrange(0, addition@.len() as int) =~= inserted@);
    let units: usize = match utf16_length(&addition, 0, addition.len()) {
        Some(units) => units,
        None => {
            return Err(focus_drift("inserted caret location overflowed"));
        },
    };
    let caret: usize = match location.checked_add(units) {
        Some(caret) => caret,
        None => {
            return Err(focus_drift("inserted caret location overflowed"));
        },
    };
    let selection_after: AxCfRange = match AxCfRange::from_utf16(caret, 0) {
        Some(range) => range,
        None => {
            return Err(focus_drift("inserted caret exceeds CFRange"));
        },
    };
    let mut value: String = String::new();
    push_characters(&mut value, &list, 0, from);
    value.push_str(inserted);
    push_characters(&mut value, &list, to, list.len());
    assert(value@ =~= before@.take(from as int) + inserted@ + before@.skip(to as int));
    assert(covers(before@, selection, from as int, to as int));
    Ok(ExpectedInsertion { value, selection: selection_after })
}

/// An insertion replaces exactly the selected UTF-16 range: the text is the
/// part before the range, the range and the part after it, and only the range
/// is exchanged.
pub proof fn insertion_replaces_only_the_selection(
    before: Seq<char>,
    selection: AxCfRange,
    inserted: Seq<char>,
    value: Seq<char>,
    caret: AxCfRange,
)
    requires
        is_insertion(before, selection, inserted, value, caret),
    ensures
        exists|head: Seq<char>, selected: Seq<char>, tail: Seq<char>|
            {
                &&& before == #[trigger] (head + selected + tail)
                &&& value == head + inserted + tail
                &&& text::utf16_len(head) == selection.location
                &&& text::utf16_len(selected) == selection.length
            },
        text::utf16_len(value) == text::utf16_len(before) - selection.length + text::utf16_len(
            inserted,
        ),
{
    let (from, to) = choose|from: int, to: int|
        {
            &&& #[trigger] covers(before, selection, from, to)
            &&& value == before.take(from) + inserted + before.skip(to)
            &&& caret.location == selection.location + text::utf16_len(inserted)
            &&& caret.length == 0
        };
    let head = before.take(from);
    let selected = before.subrange(from, to);
    let tail = before.skip(to);
    assert(before =~= head + selected + tail);
    assert(before.take(to) =~= head + selected);
    text::utf16_len_of_parts(head, selected);
    text::utf16_len_of_parts(head + selected, tail);
    text::utf16_len_of_parts(head, inserted);
    text::utf16_len_of_parts(head + inserted, tail);
}

/// The characters that a selection covers.
pub open spec fn is_selected(
    before: Seq<char>,
    selection: AxCfRange,
    selected: Seq<char>,
) -> bool {
    exists|from: int, to: int| #[trigger]
        covers(before, selection, from, to) && selected == before.subrange(from, to)
}

/// What an insertion over the characters from one position to another leaves,
/// and where what was inserted stands in it.
proof fn insertion_over(
    before: Seq<char>,
    selection: AxCfRange,
    inserted: Seq<char>,
    value: Seq<char>,
    caret: AxCfRange,
    from: int,
    to: int,
)
    requires
        is_insertion(before, selection, inserted, value, caret),
        covers(before, selection, from, to),
    ensures
        value == before.take(from) + inserted + before.skip(to),
        text::utf16_boundary(value, from, selection.location as nat),
        text::utf16_boundary(value, from + inserted.len(), caret.location as nat),
        caret.location == selection.location + text::utf16_len(inserted),
        caret.length == 0,
        text::utf16_len(before.subrange(from, to)) == selection.length,
{
    let (first, last) = choose|first: int, last: int|
        {
            &&& #[trigger] covers(before, selection, first, last)
            &&& value == before.take(first) + inserted + before.skip(last)
            &&& caret.location == selection.location + text::utf16_len(inserted)
            &&& caret.length == 0
        };
    text::utf16_boundary_is_unique(before, from, first, selection.location as nat);
    text::utf16_boundary_is_unique(
        before,
        to,
        last,
        (selection.location + selection.length) as nat,
    );
    let head = before.take(from);
    assert(value.take(from) =~= head);
    assert(value.take(from + inserted.len()) =~= head + inserted);
    text::utf16_len_of_parts(head, inserted);
    assert(before.take(to) =~= head + before.subrange(from, to));
    text::utf16_len_of_parts(head, before.subrange(from, to));
}

proof fn parts_put_back(
    before: Seq<char>,
    from: int,
    to: int,
    inserted: Seq<char>,
    value: Seq<char>,
)
    requires
        0 <= from <= to <= before.len(),
        value == before.take(from) + inserted + before.skip(to),
    ensures
        value.take(from) + before.subrange(from, to) + value.skip(from + inserted.len()) == before,
{
    assert(value.take(from) =~= before.take(from));
    assert(value.skip(from + inserted.len()) =~= before.skip(to));
    assert(before.take(from) + before.subrange(from, to) + before.skip(to) =~= before);
}

/// An insertion is undone by inserting what was selected over what was
/// inserted: the text is as before, and the caret stands where the selection
/// ended.
pub proof fn an_insertion_is_undone(
    before: Seq<char>,
    selection: AxCfRange,
    selected: Seq<char>,
    inserted: Seq<char>,
    value: Seq<char>,
    caret: AxCfRange,
    back: AxCfRange,
    restored: Seq<char>,
    end: AxCfRange,
)
    requires
        is_selected(before, selection, selected),
        is_insertion(before, selection, inserted, value, caret),
        back.location == selection.location,
        back.length == text::utf16_len(inserted),
        is_insertion(value, back, selected, restored, end),
    ensures
        restored == before,
        end.location == selection.location + selection.length,
        end.length == 0,
{
    let (from, to) = choose|from: int, to: int| #[trigger]
        covers(before, selection, from, to) && selected == before.subrange(from, to);
    insertion_over(before, selection, inserted, value, caret, from, to);
    let stop = from + inserted.len();
    insertion_over(value, back, selected, restored, end, from, stop);
    parts_put_back(before, from, to, inserted, value);
}

/// The insertion that undoes another is accepted exactly while the end of the
/// selection, where its caret will be, fits a range.
pub proof fn an_undoing_insertion_is_accepted(
    before: Seq<char>,
    selection: AxCfRange,
    selected: Seq<char>,
    inserted: Seq<char>,
    value: Seq<char>,
    caret: AxCfRange,
    back: AxCfRange,
)
    requires
        is_selected(before, selection, selected),
        is_insertion(before, selection, inserted, value, caret),
        back.location == selection.location,
        back.length == text::utf16_len(inserted),
        insertion_refusal(before, selection, inserted) is None,
    ensures
        insertion_refusal(value, back, selected) is None <==> selection.location
            + selection.length <= isize::MAX,
{
    let (from, to) = choose|from: int, to: int| #[trigger]
        covers(before, selection, from, to) && selected == before.subrange(from, to);
    insertion_over(before, selection, inserted, value, caret, from, to);
    assert(text::utf16_boundary(value, from, back.location as nat));
    assert(text::utf16_boundary(
        value,
        from + inserted.len(),
        (back.location + back.length) as nat,
    ));
}

/// The observed focus is the live focus of the exact target window.
pub fn validate_focus_identity_proof(
    observed_owner_matches: bool,
    observed_window_id: u32,
    live_identity_matches: bool,
    live_window_id: Option<u32>,
    target_window_id: u32,
) -> (outcome: Result<(), NativeError>)
    ensures
        match outcome {
            Ok(_) => identity_refusal(
                observed_owner_matches,
                observed_window_id,
                live_identity_matches,
                live_window_id,
                target_window_id,
            ) is None,
            Err(error) => identity_refusal(
                observed_owner_matches,
                observed_window_id,
                live_identity_matches,
                live_window_id,
                target_window_id,
            ) == Some(error@),
        },
{
    if !observed_owner_matches {
        return Err(
            focus_drift(
                "observed focused control owner stamp no longer matches the exact target window",
            ).with_int("observed_window_id", observed_window_id as i128).with_int(
                "target_window_id",
                target_window_id as i128,
            ),
        );
    }
    if observed_window_id != target_window_id {
        return Err(
            focus_drift("observed focused control belongs to a different native window").with_int(
                "observed_window_id",
                observed_window_id as i128,
            ).with_int("target_window_id", target_window_id as i128),
        );
    }
    let live_here: bool = match live_window_id {
        Some(window_id) => window_id == target_window_id,
        None => false,
    };
    if !live_identity_matches || !live_here {
        return Err(
            focus_drift("live AX focus identity changed since the supplied observation"),
        );
    }
    Ok(())
}

pub open spec fn identity_refusal(
    observed_owner_matches: bool,
    observed_window_id: u32,
    live_identity_matches: bool,
    live_window_id: Option<u32>,
    target_window_id: u32,
) -> Option<errors::ErrorView> {
    if !observed_owner_matches {
        Some(
            drift(
                "observed focused control owner stamp no longer matches the exact target window"@,
            ).with(
                "observed_window_id"@,
                evidence::DetailView::Int(observed_window_id as int),
            ).with("target_window_id"@, evidence::DetailView::Int(target_window_id as int)),
        )
    } else if observed_window_id != target_window_id {
        Some(
            drift("observed focused control belongs to a different native window"@).with(
                "observed_window_id"@,
                evidence::DetailView::Int(observed_window_id as int),
            ).with("target_window_id"@, evidence::DetailView::Int(target_window_id as int)),
        )
    } else if !live_identity_matches || live_window_id != Some(target_window_id) {
        Some(drift("live AX focus identity changed since the supplied observation"@))
    } else {
        None
    }
}

pub open spec fn ax_focus_failure(attribute: Seq<char>, status: i32) -> errors::ErrorView {
    drift(
        "exact focused-control "@ + attribute + " revalidation failed with AX error "@
            + text::signed_decimal(status as int),
    )
}

pub fn ax_focus_error(attribute: &str, status: i32) -> (error: NativeError)
    ensures
        error@ == ax_focus_failure(attribute@, status),
{
    let mut message: String = "exact focused-control ".to_owned();
    message.push_str(attribute);
    message.push_str(" revalidation failed with AX error ");
    push_signed_decimal(&mut message, status as i64);
    focus_drift(message.as_str())
}

/// The text of the live focus.
#[derive(Debug)]
pub struct LiveText {
    pub value: Result<Option<String>, i32>,
    pub selected_text_range: Result<Option<AxCfRange>, i32>,
    pub selected_text_settable: Result<bool, i32>,
}

pub open spec fn value_refusal(live: LiveText, state: elements::RegisteredView) -> Option<
    errors::ErrorView,
> {
    if !state.value_query_proven {
        None
    } else {
        match live.value {
            Err(status) => Some(ax_focus_failure("AXValue"@, status)),
            Ok(value) => if text::optional_text(value) != state.string_value {
                Some(drift("focused-control value changed since the supplied observation"@))
            } else {
                None
            },
        }
    }
}

pub open spec fn range_refusal(live: LiveText, state: elements::RegisteredView) -> Option<
    errors::ErrorView,
> {
    match state.selected_text_range {
        None => None,
        Some(expected) => match live.selected_text_range {
            Err(status) => Some(ax_focus_failure("AXSelectedTextRange"@, status)),
            Ok(range) => if range != Some(expected) {
                Some(drift("focused-control selection changed since the supplied observation"@))
            } else {
                None
            },
        },
    }
}

pub open spec fn settable_refusal(live: LiveText, state: elements::RegisteredView) -> Option<
    errors::ErrorView,
> {
    match state.selected_text_settable {
        None => None,
        Some(expected) => match live.selected_text_settable {
            Err(status) => Some(ax_focus_failure("AXSelectedText settable"@, status)),
            Ok(settable) => if settable != expected {
                Some(drift("focused-control insertion capability changed since observation"@))
            } else {
                None
            },
        },
    }
}

/// What of the observed text state does not hold any more: the value, then the
/// selection, then whether text can be inserted.
pub open spec fn text_refusal(live: LiveText, state: elements::RegisteredView) -> Option<
    errors::ErrorView,
> {
    match value_refusal(live, state) {
        Some(error) => Some(error),
        None => match range_refusal(live, state) {
            Some(error) => Some(error),
            None => settable_refusal(live, state),
        },
    }
}

pub fn revalidate_text_state(live: &LiveText, state: &RegisteredElementSnapshot) -> (outcome:
    Result<(), NativeError>)
    ensures
        match outcome {
            Ok(_) => text_refusal(*live, state@) is None,
            Err(error) => text_refusal(*live, state@) == Some(error@),
        },
{
    if state.value_query_proven {
        match &live.value {
            Err(status) => {
                return Err(ax_focus_error("AXValue", *status));
            },
            Ok(value) => {
                if !same_optional_text(value, &state.string_value) {
                    return Err(
                        focus_drift("focused-control value changed since the supplied observation"),
                    );
                }
            },
        }
    }
    if let Some(expected) = state.selected_text_range {
        match live.selected_text_range {
            Err(status) => {
                return Err(ax_focus_error("AXSelectedTextRange", status));
            },
            Ok(range) => {
                if !same_ranges(range, Some(expected)) {
                    return Err(
                        focus_drift(
                            "focused-control selection changed since the supplied observation",
                        ),
                    );
                }
            },
        }
    }
    if let Some(expected) = state.selected_text_settable {
        match live.selected_text_settable {
            Err(status) => {
                return Err(ax_focus_error("AXSelectedText settable", status));
            },
            Ok(settable) => {
                if settable != expected {
                    return Err(
                        focus_drift("focused-control insertion capability changed since observation"),
                    );
                }
            },
        }
    }
    Ok(())
}

/// The focus that a request was resolved to.
#[derive(Debug)]
pub struct ResolvedFocus {
    pub window: ResolvedWindowStamp,
    pub ax_revision: Option<String>,
    pub focused_element: Option<String>,
    pub observation_id: String,
}

/// Why a focus cannot be acted on.
pub open spec fn focus_refusal(
    invalidated: bool,
    target: contracts::StampView,
    focus: ResolvedFocus,
) -> Option<errors::ErrorView> {
    if invalidated || focus.window@ != target {
        Some(drift("resolved focus target no longer matches the locked macOS target"@))
    } else if focus.ax_revision is None {
        Some(drift("keyboard action requires an exact observed AX focus revision"@))
    } else {
        None
    }
}

/// The revision of a focus that can be acted on.
pub fn focus_contract(invalidated: bool, target: &ResolvedWindowStamp, focus: &ResolvedFocus) -> (revision:
    Result<String, NativeError>)
    ensures
        match revision {
            Ok(revision) => focus_refusal(invalidated, target@, *focus) is None
                && text::optional_text(focus.ax_revision) == Some(revision@),
            Err(error) => focus_refusal(invalidated, target@, *focus) == Some(error@),
        },
{
    if invalidated || !focus.window.same(target) {
        return Err(focus_drift("resolved focus target no longer matches the locked macOS target"));
    }
    match &focus.ax_revision {
        Some(revision) => Ok(revision.clone()),
        None => Err(focus_drift("keyboard action requires an exact observed AX focus revision")),
    }
}

/// The focused element of a request that needs one.
pub fn focus_element_id(focus: &ResolvedFocus) -> (id: Result<&String, NativeError>)
    ensures
        match id {
            Ok(id) => text::optional_text(focus.focused_element) == Some(id@),
            Err(error) => focus.focused_element is None && error@ == errors::ErrorView::unsupported(
                "keyboard action requires an exact focused element in the current observation"@,
            ),
        },
{
    match &focus.focused_element {
        Some(id) => Ok(id),
        None => Err(
            NativeError::unsupported(
                "keyboard action requires an exact focused element in the current observation",
            ),
        ),
    }
}

/// What is known of the scope that an action runs in.
#[derive(Debug)]
pub struct KeyboardScope {
    pub route: Route,
    pub owner: ResolvedWindowStamp,
    pub window: ResolvedWindowStamp,
    pub target_belief: LeaseDecision,
}

/// A keyboard action has to run in its own locked scope, with or without the
/// target's belief that it is active.
pub fn require_scope(
    target: &ResolvedWindowStamp,
    scope: &KeyboardScope,
    route: Route,
    target_belief: bool,
) -> (outcome: Result<(), NativeError>)
    ensures
        outcome is Ok <==> scope.route == route && scope.owner@ == target@ && scope.window@
            == target@ && scope.target_belief == if target_belief {
            LeaseDecision::Acquired
        } else {
            LeaseDecision::NotApplicable
        },
        outcome matches Err(error) ==> error@ == errors::ErrorView::new(
            ErrorCode::Internal,
            ErrorPhase::Preflight,
            false,
            "keyboard action entered without its exact locked interaction scope"@,
        ),
{
    let belief_ok: bool = if target_belief {
        scope.target_belief == LeaseDecision::Acquired
    } else {
        scope.target_belief == LeaseDecision::NotApplicable
    };
    if scope.route != route || !scope.owner.same(target) || !scope.window.same(target)
        || !belief_ok {
        return Err(
            NativeError::new(
                ErrorCode::Internal,
                ErrorPhase::Preflight,
                false,
                "keyboard action entered without its exact locked interaction scope",
            ),
        );
    }
    Ok(())
}

pub open spec fn exact_insertion(
    framework: Framework,
    selected_text_settable: Option<bool>,
    exact_insertion_available: bool,
) -> bool {
    selected_text_settable == Some(true) && exact_insertion_available && framework
        != Framework::Chromium && framework != Framework::Electron
}

/// Whether text is inserted through the focused control itself. Chromium shows
/// a writable selection even where its renderer drops the write.
pub fn should_use_exact_focused_insertion(
    framework: Framework,
    selected_text_settable: Option<bool>,
    exact_insertion_available: bool,
) -> (exact: bool)
    ensures
        exact == exact_insertion(framework, selected_text_settable, exact_insertion_available),
{
    let settable: bool = match selected_text_settable {
        Some(settable) => settable,
        None => false,
    };
    settable && exact_insertion_available && framework != Framework::Chromium && framework
        != Framework::Electron
}

/// Whether text can be typed semantically into a validated focus.
pub fn semantic_type_text_candidate(framework: Framework, state: &RegisteredElementSnapshot) -> (candidate:
    Candidate)
    ensures
        if exact_insertion(
            framework,
            state@.selected_text_settable,
            state@.string_value is Some && state@.selected_text_range is Some,
        ) {
            candidate is Prepared
        } else {
            candidate matches Candidate::NotApplicable { reason } && reason@
                == "focused control has no verified exact AXSelectedText insertion route"@
        },
{
    let available: bool = state.string_value.is_some() && state.selected_text_range.is_some();
    if should_use_exact_focused_insertion(framework, state.selected_text_settable, available) {
        Candidate::Prepared
    } else {
        Candidate::NotApplicable {
            reason: "focused control has no verified exact AXSelectedText insertion route",
        }
    }
}

pub open spec fn effective_pid_failure(application_pid: i32, status: i32) -> errors::ErrorView {
    errors::ErrorView::unsupported(
        "effective keyboard dispatch pid could not be proved from the focused AX target"@,
    ).with("application_pid"@, evidence::DetailView::Int(application_pid as int)).with(
        "ax_error"@,
        evidence::DetailView::Int(status as int),
    )
}

pub fn effective_pid_error(application_pid: i32, status: i32) -> (error: NativeError)
    ensures
        error@ == effective_pid_failure(application_pid, status),
{
    NativeError::unsupported(
        "effective keyboard dispatch pid could not be proved from the focused AX target",
    ).with_int("application_pid", application_pid as i128).with_int("ax_error", status as i128)
}

/// What a search for the process that takes key events does next.
#[derive(Debug, Clone, Copy, PartialEq, Eq, Structural)]
pub enum KeyboardStep {
    /// Read the parent of the current element.
    ReadParent,
    /// Read the process of this ancestor.
    ReadPid(RetainedAxElement),
    /// Key events go to this element's process.
    Done { element: RetainedAxElement, pid: i32 },
}

/// The search for the process that takes the key events of a focused element:
/// that of the nearest ancestor outside of the application, if there is one.
#[derive(Debug, Clone, Copy, PartialEq, Eq, Structural)]
pub struct KeyboardWalk {
    pub application_pid: i32,
    pub focused: RetainedAxElement,
    pub current: RetainedAxElement,
    pub steps: usize,
}

impl KeyboardWalk {
    pub open spec fn wf(&self) -> bool {
        self.steps < MAX_KEYBOARD_ANCESTRY
    }

    pub fn begin(application_pid: i32, focused: RetainedAxElement) -> (walk: KeyboardWalk)
        ensures
            walk.wf(),
            walk == (KeyboardWalk { application_pid, focused, current: focused, steps: 0 }),
    {
        KeyboardWalk { application_pid, focused, current: focused, steps: 0 }
    }

    /// The process of the focused element itself.
    pub fn focused_pid(&self, pid: Result<i32, i32>) -> (step: Result<KeyboardStep, NativeError>)
        ensures
            match pid {
                Err(status) => step matches Err(error) && error@ == effective_pid_failure(
                    self.application_pid,
                    status,
                ),
                Ok(pid) => step == Ok::<KeyboardStep, NativeError>(
                    if pid != self.application_pid {
                        KeyboardStep::Done { element: self.focused, pid }
                    } else {
                        KeyboardStep::ReadParent
                    },
                ),
            },
    {
        match pid {
            Err(status) => Err(effective_pid_error(self.application_pid, status)),
            Ok(pid) => if pid != self.application_pid {
                Ok(KeyboardStep::Done { element: self.focused, pid })
            } else {
                Ok(KeyboardStep::ReadParent)
            },
        }
    }

    /// The parent of the current element.
    pub fn parent(&self, parent: Result<Option<RetainedAxElement>, i32>) -> (step: Result<
        KeyboardStep,
        NativeError,
    >)
        ensures
            match parent {
                Err(status) => step matches Err(error) && error@ == effective_pid_failure(
                    self.application_pid,
                    status,
                ),
                Ok(None) => step == Ok::<KeyboardStep, NativeError>(
                    KeyboardStep::Done { element: self.focused, pid: self.application_pid },
                ),
                Ok(Some(parent)) => if parent.identity == self.current.identity {
                    step matches Err(error) && error@ == errors::ErrorView::unsupported(
                        "effective keyboard target ancestry contains a cycle"@,
                    ).with(
                        "application_pid"@,
                        evidence::DetailView::Int(self.application_pid as int),
                    )
                } else {
                    step == Ok::<KeyboardStep, NativeError>(KeyboardStep::ReadPid(parent))
                },
            },
    {
        match parent {
            Err(status) => Err(effective_pid_error(self.application_pid, status)),
            Ok(None) => Ok(
                KeyboardStep::Done { element: self.focused, pid: self.application_pid },
            ),
            Ok(Some(parent)) => if parent.same_identity(&self.current) {
                Err(
                    NativeError::unsupported(
                        "effective keyboard target ancestry contains a cycle",
                    ).with_int("application_pid", self.application_pid as i128),
                )
            } else {
                Ok(KeyboardStep::ReadPid(parent))
            },
        }
    }

    /// The process of an ancestor.
    pub fn ancestor_pid(&mut self, ancestor: RetainedAxElement, pid: Result<i32, i32>) -> (step:
        Result<KeyboardStep, NativeError>)
        requires
            old(self).wf(),
        ensures
            final(self).application_pid == old(self).application_pid,
            final(self).focused == old(self).focused,
            match pid {
                Err(status) => step matches Err(error) && error@ == effective_pid_failure(
                    old(self).application_pid,
                    status,
                ),
                Ok(pid) => if pid != old(self).application_pid {
                    step == Ok::<KeyboardStep, NativeError>(
                        KeyboardStep::Done { element: ancestor, pid },
                    )
                } else {
                    &&& final(self).current == ancestor
                    &&& final(self).steps == old(self).steps + 1
                    &&& match step {
                        Ok(step) => step is ReadParent && final(self).wf(),
                        Err(error) => final(self).steps == MAX_KEYBOARD_ANCESTRY && error@
                            == errors::ErrorView::unsupported(
                            "effective keyboard target ancestry exceeded the bounded AX parent walk"@,
                        ).with(
                            "application_pid"@,
                            evidence::DetailView::Int(old(self).application_pid as int),
                        ),
                    }
                },
            },
    {
        match pid {
            Err(status) => Err(effective_pid_error(self.application_pid, status)),
            Ok(pid) => {
                if pid != self.application_pid {
                    return Ok(KeyboardStep::Done { element: ancestor, pid });
                }
                self.current = ancestor;
                self.steps = self.steps + 1;
                if self.steps >= MAX_KEYBOARD_ANCESTRY {
                    return Err(
                        NativeError::unsupported(
                            "effective keyboard target ancestry exceeded the bounded AX parent walk",
                        ).with_int("application_pid", self.application_pid as i128),
                    );
                }
                Ok(KeyboardStep::ReadParent)
            },
        }
    }
}

/// How much of a focus has to be proved.
#[derive(Debug, Clone, Copy, PartialEq, Eq, Structural)]
pub enum FocusProof {
    IdentityOnly,
    TextState,
}

/// Where key events for a focused element go.
#[derive(Debug)]
pub struct MacKeyboardEventTarget {
    pub application_pid: i32,
    pub dispatch_pid: i32,
    pub element: RetainedAxElement,
    pub snapshot: RegisteredElementSnapshot,
    pub ax_revision: String,
    pub observation_id: String,
    pub signal_epoch: u64,
}

/// Where key events for an application as a whole go.
#[derive(Debug)]
pub struct MacApplicationKeyboardTarget {
    pub application_pid: i32,
    pub cg_window_id: u32,
    pub ax_revision: String,
    pub observation_id: String,
    pub signal_epoch: u64,
}

/// What was read of the live focus.
#[derive(Debug)]
pub struct FocusReads {
    pub live: Option<RetainedAxElement>,
    pub live_window_id: Option<u32>,
    pub live_role: Result<Option<String>, i32>,
    pub text: LiveText,
    pub epoch_before: u64,
    pub epoch_after: u64,
    /// The element and the process that take key events.
    pub effective: Result<(RetainedAxElement, i32), NativeError>,
}

pub open spec fn earlier(
    first: Option<errors::ErrorView>,
    second: Option<errors::ErrorView>,
) -> Option<errors::ErrorView> {
    match first {
        Some(error) => Some(error),
        None => second,
    }
}

/// Why the live focus is not the registered element in its window.
pub open spec fn live_focus_refusal(
    state: elements::RegisteredView,
    target: contracts::StampView,
    target_window_id: u32,
    reads: FocusReads,
    lost: Seq<char>,
) -> Option<errors::ErrorView> {
    match reads.live {
        None => Some(drift(lost)),
        Some(live) => identity_refusal(
            state.owner == target,
            state.owner_window_id,
            live.identity == state.element.identity,
            reads.live_window_id,
            target_window_id,
        ),
    }
}

/// Why the live focus does not have the registered role.
pub open spec fn role_refusal(
    state: elements::RegisteredView,
    reads: FocusReads,
    changed: Seq<char>,
) -> Option<errors::ErrorView> {
    match reads.live_role {
        Err(status) => Some(ax_focus_failure("AXRole"@, status)),
        Ok(role) => if !state.role_proven || text::optional_text(role) != Some(state.role) {
            Some(drift(changed))
        } else {
            None
        },
    }
}

pub open spec fn required_text_refusal(
    required: FocusProof,
    state: elements::RegisteredView,
    reads: FocusReads,
) -> Option<errors::ErrorView> {
    if required is TextState {
        text_refusal(reads.text, state)
    } else {
        None
    }
}

pub open spec fn effective_refusal(reads: FocusReads) -> Option<errors::ErrorView> {
    match reads.effective {
        Err(error) => Some(error@),
        Ok(_) => None,
    }
}

pub open spec fn raced(message: Seq<char>) -> errors::ErrorView {
    errors::ErrorView::stale(ErrorCode::ObservationRaced, message)
}

/// Why a registered element is not the focus that key events can be prepared
/// for.
pub open spec fn preparation_refusal(
    state: elements::RegisteredView,
    target: contracts::StampView,
    target_window_id: u32,
    required: FocusProof,
    reads: FocusReads,
) -> Option<errors::ErrorView> {
    let epoch = if reads.epoch_after != reads.epoch_before {
        Some(raced("target focus/content notification raced keyboard preparation"@))
    } else {
        None
    };
    earlier(
        live_focus_refusal(
            state,
            target,
            target_window_id,
            reads,
            "target process has no exact focused AX element"@,
        ),
        earlier(
            role_refusal(
                state,
                reads,
                "live focused-control role changed since the supplied observation"@,
            ),
            earlier(
                required_text_refusal(required, state, reads),
                earlier(epoch, effective_refusal(reads)),
            ),
        ),
    )
}

fn check_live_focus(
    state: &RegisteredElementSnapshot,
    target: &ResolvedWindowStamp,
    target_window_id: u32,
    reads: &FocusReads,
    lost: &str,
) -> (outcome: Result<(), NativeError>)
    ensures
        match outcome {
            Ok(_) => live_focus_refusal(state@, target@, target_window_id, *reads, lost@) is None,
            Err(error) => live_focus_refusal(state@, target@, target_window_id, *reads, lost@)
                == Some(error@),
        },
{
    match reads.live {
        None => Err(focus_drift(lost)),
        Some(live) => validate_focus_identity_proof(
            state.owner.same(target),
            state.owner_window_id,
            live.same_identity(&state.element),
            reads.live_window_id,
            target_window_id,
        ),
    }
}

fn check_role(state: &RegisteredElementSnapshot, reads: &FocusReads, changed: &str) -> (outcome:
    Result<(), NativeError>)
    ensures
        match outcome {
            Ok(_) => role_refusal(state@, *reads, changed@) is None,
            Err(error) => role_refusal(state@, *reads, changed@) == Some(error@),
        },
{
    match &reads.live_role {
        Err(status) => Err(ax_focus_error("AXRole", *status)),
        Ok(role) => {
            let same: bool = match role {
                Some(role) => same_text(role.as_str(), state.role.as_str()),
                None => false,
            };
            if !state.role_proven || !same {
                Err(focus_drift(changed))
            } else {
                Ok(())
            }
        },
    }
}

fn check_text(required: FocusProof, state: &RegisteredElementSnapshot, reads: &FocusReads) -> (outcome:
    Result<(), NativeError>)
    ensures
        match outcome {
            Ok(_) => required_text_refusal(required, state@, *reads) is None,
            Err(error) => required_text_refusal(required, state@, *reads) == Some(error@),
        },
{
    match required {
        FocusProof::TextState => revalidate_text_state(&reads.text, state),
        FocusProof::IdentityOnly => Ok(()),
    }
}

/// Where the target's process and its window are.
#[derive(Debug, Clone, Copy, PartialEq, Eq, Structural)]
pub struct TargetFacts {
    pub pid: i32,
    pub cg_window_id: u32,
}

/// Prepares key events for the focused element of a request.
pub fn prepare_keyboard_target(
    registry: &MacElementRegistry,
    invalidated: bool,
    target: &ResolvedWindowStamp,
    focus: &ResolvedFocus,
    facts: TargetFacts,
    required: FocusProof,
    reads: &FocusReads,
) -> (prepared: Result<MacKeyboardEventTarget, NativeError>)
    ensures
        match prepared {
            Ok(prepared) => {
                &&& focus_refusal(invalidated, target@, *focus) is None
                &&& focus.focused_element is Some
                &&& elements::sole_entry(
                    registry@,
                    focus.focused_element->0@,
                    prepared.snapshot@,
                )
                &&& preparation_refusal(
                    prepared.snapshot@,
                    target@,
                    facts.cg_window_id,
                    required,
                    *reads,
                ) is None
                &&& prepared.application_pid == facts.pid
                &&& reads.effective == Ok::<_, NativeError>(
                    (prepared.element, prepared.dispatch_pid),
                )
                &&& text::optional_text(focus.ax_revision) == Some(prepared.ax_revision@)
                &&& prepared.observation_id@ == focus.observation_id@
                &&& prepared.signal_epoch == reads.epoch_before
            },
            Err(error) => match focus_refusal(invalidated, target@, *focus) {
                Some(refusal) => error@ == refusal,
                None => match focus.focused_element {
                    None => error@ == errors::ErrorView::unsupported(
                        "keyboard action requires an exact focused element in the current observation"@,
                    ),
                    Some(id) => {
                        ||| elements::no_sole_entry(registry@, id@) && error@ == drift(
                            "observed focused element is missing from the retained AX registry"@,
                        )
                        ||| refused_entry(
                            registry@,
                            id@,
                            target@,
                            facts.cg_window_id,
                            required,
                            *reads,
                            error@,
                        )
                    },
                },
            },
        },
{
    let ax_revision: String = match focus_contract(invalidated, target, focus) {
        Ok(revision) => revision,
        Err(error) => {
            return Err(error);
        },
    };
    let id: &String = match focus_element_id(focus) {
        Ok(id) => id,
        Err(error) => {
            return Err(error);
        },
    };
    let state: RegisteredElementSnapshot = match registry.registered_by_id(id.as_str()) {
        Some(state) => state,
        None => {
            return Err(
                focus_drift("observed focused element is missing from the retained AX registry"),
            );
        },
    };
    let refused: Result<(RetainedAxElement, i32), NativeError> = check_preparation(
        &state,
        target,
        facts.cg_window_id,
        required,
        reads,
    );
    let (element, dispatch_pid): (RetainedAxElement, i32) = match refused {
        Ok(effective) => effective,
        Err(error) => {
            assert(refused_entry(
                registry@,
                id@,
                target@,
                facts.cg_window_id,
                required,
                *reads,
                error@,
            ));
            return Err(error);
        },
    };
    Ok(
        MacKeyboardEventTarget {
            application_pid: facts.pid,
            dispatch_pid,
            element,
            snapshot: state,
            ax_revision,
            observation_id: focus.observation_id.clone(),
            signal_epoch: reads.epoch_before,
        },
    )
}

/// The one entry of an id is refused with an error.
pub open spec fn refused_entry(
    entries: Seq<elements::EntryView>,
    id: Seq<char>,
    target: contracts::StampView,
    target_window_id: u32,
    required: FocusProof,
    reads: FocusReads,
    error: errors::ErrorView,
) -> bool {
    exists|state: elements::RegisteredView| #[trigger]
        elements::sole_entry(entries, id, state) && preparation_refusal(
            state,
            target,
            target_window_id,
            required,
            reads,
        ) == Some(error)
}

fn check_preparation(
    state: &RegisteredElementSnapshot,
    target: &ResolvedWindowStamp,
    target_window_id: u32,
    required: FocusProof,
    reads: &FocusReads,
) -> (outcome: Result<(RetainedAxElement, i32), NativeError>)
    ensures
        match outcome {
            Ok(effective) => preparation_refusal(
                state@,
                target@,
                target_window_id,
                required,
                *reads,
            ) is None && reads.effective == Ok::<_, NativeError>(effective),
            Err(error) => preparation_refusal(state@, target@, target_window_id, required, *reads)
                == Some(error@),
        },
{
    if let Err(error) = check_live_focus(
        state,
        target,
        target_window_id,
        reads,
        "target process has no exact focused AX element",
    ) {
        return Err(error);
    }
    if let Err(error) = check_role(
        state,
        reads,
        "live focused-control role changed since the supplied observation",
    ) {
        return Err(error);
    }
    if let Err(error) = check_text(required, state, reads) {
        return Err(error);
    }
    if reads.epoch_after != reads.epoch_before {
        return Err(
            NativeError::stale(
                ErrorCode::ObservationRaced,
                "target focus/content notification raced keyboard preparation",
            ),
        );
    }
    match &reads.effective {
        Ok(effective) => Ok((effective.0, effective.1)),
        Err(error) => Err(error.clone()),
    }
}

/// Prepares key events for the application of a request without a focused
/// element.
pub fn prepare_application_keyboard_target(
    invalidated: bool,
    target: &ResolvedWindowStamp,
    focus: &ResolvedFocus,
    facts: TargetFacts,
    epoch: u64,
) -> (prepared: Result<MacApplicationKeyboardTarget, NativeError>)
    ensures
        match prepared {
            Ok(prepared) => {
                &&& focus_refusal(invalidated, target@, *focus) is None
                &&& focus.focused_element is None
                &&& prepared.application_pid == facts.pid
                &&& prepared.cg_window_id == facts.cg_window_id
                &&& text::optional_text(focus.ax_revision) == Some(prepared.ax_revision@)
                &&& prepared.observation_id@ == focus.observation_id@
                &&& prepared.signal_epoch == epoch
            },
            Err(error) => match focus_refusal(invalidated, target@, *focus) {
                Some(refusal) => error@ == refusal,
                None => focus.focused_element is Some && error@ == errors::ErrorView::new(
                    ErrorCode::Internal,
                    ErrorPhase::Preflight,
                    false,
                    "application keyboard target was prepared despite an exact focused element"@,
                ),
            },
        },
{
    let ax_revision: String = match focus_contract(invalidated, target, focus) {
        Ok(revision) => revision,
        Err(error) => {
            return Err(error);
        },
    };
    if focus.focused_element.is_some() {
        return Err(
            NativeError::new(
                ErrorCode::Internal,
                ErrorPhase::Preflight,
                false,
                "application keyboard target was prepared despite an exact focused element",
            ),
        );
    }
    Ok(
        MacApplicationKeyboardTarget {
            application_pid: facts.pid,
            cg_window_id: facts.cg_window_id,
            ax_revision,
            observation_id: focus.observation_id.clone(),
            signal_epoch: epoch,
        },
    )
}

/// The scope of a dispatch is that of the prepared target.
pub open spec fn scope_refusal(
    invalidated: bool,
    target: contracts::StampView,
    scope_owner: contracts::StampView,
    scope_window: contracts::StampView,
    message: Seq<char>,
) -> Option<errors::ErrorView> {
    if invalidated || scope_owner != target || scope_window != target {
        Some(errors::ErrorView::stale(ErrorCode::WindowIdentityChanged, message))
    } else {
        None
    }
}

/// Why prepared key events must not be posted any more.
pub open spec fn final_refusal(
    prepared: MacKeyboardEventTarget,
    target: contracts::StampView,
    facts: TargetFacts,
    required: FocusProof,
    reads: FocusReads,
) -> Option<errors::ErrorView> {
    let state = prepared.snapshot@;
    let identity = if facts.pid != prepared.application_pid || facts.cg_window_id
        != state.owner_window_id {
        Some(drift("keyboard pid/window identity changed before native dispatch"@))
    } else {
        None
    };
    let before = if reads.epoch_before != prepared.signal_epoch {
        Some(raced("focus/content notification raced keyboard action preparation"@))
    } else {
        None
    };
    let effective = match reads.effective {
        Err(error) => Some(error@),
        Ok((element, pid)) => if pid != prepared.dispatch_pid || element.identity
            != prepared.element.identity {
            Some(drift("effective keyboard event target changed before native dispatch"@))
        } else {
            None
        },
    };
    let after = if reads.epoch_after != prepared.signal_epoch {
        Some(raced("focus/content notification raced final keyboard validation"@))
    } else {
        None
    };
    earlier(
        identity,
        earlier(
            before,
            earlier(
                live_focus_refusal(
                    state,
                    target,
                    facts.cg_window_id,
                    reads,
                    "target process lost its exact focused AX element"@,
                ),
                earlier(
                    role_refusal(
                        state,
                        reads,
                        "focused-control role changed before native dispatch"@,
                    ),
                    earlier(
                        effective,
                        earlier(required_text_refusal(required, state, reads), after),
                    ),
                ),
            ),
        ),
    )
}

fn check_scope(
    invalidated: bool,
    target: &ResolvedWindowStamp,
    scope_owner: &ResolvedWindowStamp,
    scope_window: &ResolvedWindowStamp,
    message: &str,
) -> (outcome: Result<(), NativeError>)
    ensures
        match outcome {
            Ok(_) => scope_refusal(
                invalidated,
                target@,
                scope_owner@,
                scope_window@,
                message@,
            ) is None,
            Err(error) => scope_refusal(
                invalidated,
                target@,
                scope_owner@,
                scope_window@,
                message@,
            ) == Some(error@),
        },
{
    if invalidated || !scope_owner.same(target) || !scope_window.same(target) {
        return Err(NativeError::stale(ErrorCode::WindowIdentityChanged, message));
    }
    Ok(())
}

/// The last proof before key events are posted to a focused element: window,
/// process, epoch, focus, role, event target and text are as they were prepared.
pub fn final_focus_validation(
    prepared: &MacKeyboardEventTarget,
    invalidated: bool,
    target: &ResolvedWindowStamp,
    scope_owner: &ResolvedWindowStamp,
    scope_window: &ResolvedWindowStamp,
    facts: TargetFacts,
    required: FocusProof,
    reads: &FocusReads,
) -> (outcome: Result<(), NativeError>)
    ensures
        ({
            let refusal = earlier(
                scope_refusal(
                    invalidated,
                    target@,
                    scope_owner@,
                    scope_window@,
                    "keyboard target window changed after action preparation"@,
                ),
                final_refusal(*prepared, target@, facts, required, *reads),
            );
            match outcome {
                Ok(_) => refusal is None,
                Err(error) => refusal == Some(error@),
            }
        }),
{
    if let Err(error) = check_scope(
        invalidated,
        target,
        scope_owner,
        scope_window,
        "keyboard target window changed after action preparation",
    ) {
        return Err(error);
    }
    let state: &RegisteredElementSnapshot = &prepared.snapshot;
    if facts.pid != prepared.application_pid || facts.cg_window_id != state.owner_window_id {
        return Err(focus_drift("keyboard pid/window identity changed before native dispatch"));
    }
    if reads.epoch_before != prepared.signal_epoch {
        return Err(
            NativeError::stale(
                ErrorCode::ObservationRaced,
                "focus/content notification raced keyboard action preparation",
            ),
        );
    }
    if let Err(error) = check_live_focus(
        state,
        target,
        facts.cg_window_id,
        reads,
        "target process lost its exact focused AX element",
    ) {
        return Err(error);
    }
    if let Err(error) = check_role(
        state,
        reads,
        "focused-control role changed before native dispatch",
    ) {
        return Err(error);
    }
    match &reads.effective {
        Err(error) => {
            return Err(error.clone());
        },
        Ok(effective) => {
            if effective.1 != prepared.dispatch_pid || !effective.0.same_identity(
                &prepared.element,
            ) {
                return Err(
                    focus_drift("effective keyboard event target changed before native dispatch"),
                );
            }
        },
    }
    if let Err(error) = check_text(required, state, reads) {
        return Err(error);
    }
    if reads.epoch_after != prepared.signal_epoch {
        return Err(
            NativeError::stale(
                ErrorCode::ObservationRaced,
                "focus/content notification raced final keyboard validation",
            ),
        );
    }
    Ok(())
}

/// The last proof before key events are posted to an application.
pub fn final_application_validation(
    prepared: &MacApplicationKeyboardTarget,
    invalidated: bool,
    target: &ResolvedWindowStamp,
    scope_owner: &ResolvedWindowStamp,
    scope_window: &ResolvedWindowStamp,
    facts: TargetFacts,
    epoch: u64,
) -> (outcome: Result<(), NativeError>)
    ensures
        ({
            let refusal = earlier(
                scope_refusal(
                    invalidated,
                    target@,
                    scope_owner@,
                    scope_window@,
                    "application keyboard target window changed after action preparation"@,
                ),
                if facts.pid != prepared.application_pid || facts.cg_window_id
                    != prepared.cg_window_id {
                    Some(
                        drift(
                            "application keyboard pid/window identity changed before native dispatch"@,
                        ),
                    )
                } else if epoch != prepared.signal_epoch {
                    Some(
                        raced(
                            "focus/content notification raced application keyboard action preparation"@,
                        ),
                    )
                } else {
                    None
                },
            );
            match outcome {
                Ok(_) => refusal is None,
                Err(error) => refusal == Some(error@),
            }
        }),
{
    if let Err(error) = check_scope(
        invalidated,
        target,
        scope_owner,
        scope_window,
        "application keyboard target window changed after action preparation",
    ) {
        return Err(error);
    }
    if facts.pid != prepared.application_pid || facts.cg_window_id != prepared.cg_window_id {
        return Err(
            focus_drift("application keyboard pid/window identity changed before native dispatch"),
        );
    }
    if epoch != prepared.signal_epoch {
        return Err(
            NativeError::stale(
                ErrorCode::ObservationRaced,
                "focus/content notification raced application keyboard action preparation",
            ),
        );
    }
    Ok(())
}

/// Key events are posted only to the focus that was observed: if nothing
/// refuses them, the live focus has the registered identity and role, in the
/// target's own window, and no signal came since the preparation.
pub proof fn key_events_reach_the_observed_focus(
    prepared: MacKeyboardEventTarget,
    target: contracts::StampView,
    facts: TargetFacts,
    required: FocusProof,
    reads: FocusReads,
)
    requires
        final_refusal(prepared, target, facts, required, reads) is None,
    ensures
        reads.live matches Some(live) && live.identity == prepared.snapshot@.element.identity,
        prepared.snapshot@.owner == target,
        reads.live_window_id == Some(facts.cg_window_id),
        reads.live_role matches Ok(Some(role)) && role@ == prepared.snapshot@.role,
        reads.epoch_before == prepared.signal_epoch,
        reads.epoch_after == prepared.signal_epoch,
        required is TextState ==> text_refusal(reads.text, prepared.snapshot@) is None,
{
}

/// What a keyboard action does.
#[derive(Debug, Clone, Copy, PartialEq, Eq, Structural)]
pub enum KeyboardPlan {
    FocusedChord,
    ApplicationChord,
    SemanticInsertion,
    UnicodeInsertion,
}

impl KeyboardPlan {
    /// The route that the plan's scope has to have.
    pub open spec fn route(self) -> Route {
        match self {
            KeyboardPlan::SemanticInsertion => Route::Semantic,
            _ => Route::TargetedKeyboard,
        }
    }

    /// Whether the target has to believe that it is active.
    pub open spec fn belief(self) -> bool {
        !(self is SemanticInsertion)
    }
}

pub open spec fn plan_of(shape: ActionShape, route: Route, has_focus: bool) -> Result<
    KeyboardPlan,
    Seq<char>,
> {
    match shape {
        ActionShape::PressKey => Ok(
            if has_focus {
                KeyboardPlan::FocusedChord
            } else {
                KeyboardPlan::ApplicationChord
            },
        ),
        ActionShape::TypeText => match route {
            Route::Semantic => Ok(KeyboardPlan::SemanticInsertion),
            Route::TargetedKeyboard => Ok(KeyboardPlan::UnicodeInsertion),
            Route::TargetedPointer => Err("text action reached the targeted-pointer route"@),
        },
        _ => Err("non-keyboard action reached macOS keyboard preparation"@),
    }
}

/// Plans a keyboard action, and holds its scope to the plan.
pub fn plan_action(
    shape: &ActionShape,
    has_focus: bool,
    target: &ResolvedWindowStamp,
    scope: &KeyboardScope,
) -> (plan: Result<KeyboardPlan, NativeError>)
    ensures
        match plan_of(*shape, scope.route, has_focus) {
            Err(message) => plan matches Err(error) && error@ == errors::ErrorView::new(
                ErrorCode::Internal,
                ErrorPhase::Preflight,
                false,
                message,
            ),
            Ok(planned) => {
                let scoped = scope.route == planned.route() && scope.owner@ == target@
                    && scope.window@ == target@ && scope.target_belief == if planned.belief() {
                    LeaseDecision::Acquired
                } else {
                    LeaseDecision::NotApplicable
                };
                match plan {
                    Ok(plan) => scoped && plan == planned,
                    Err(error) => !scoped && error@ == errors::ErrorView::new(
                        ErrorCode::Internal,
                        ErrorPhase::Preflight,
                        false,
                        "keyboard action entered without its exact locked interaction scope"@,
                    ),
                }
            },
        },
{
    let plan: KeyboardPlan = match shape {
        ActionShape::PressKey => if has_focus {
            KeyboardPlan::FocusedChord
        } else {
            KeyboardPlan::ApplicationChord
        },
        ActionShape::TypeText => match scope.route {
            Route::Semantic => KeyboardPlan::SemanticInsertion,
            Route::TargetedKeyboard => KeyboardPlan::UnicodeInsertion,
            Route::TargetedPointer => {
                return Err(
                    NativeError::new(
                        ErrorCode::Internal,
                        ErrorPhase::Preflight,
                        false,
                        "text action reached the targeted-pointer route",
                    ),
                );
            },
        },
        _ => {
            return Err(
                NativeError::new(
                    ErrorCode::Internal,
                    ErrorPhase::Preflight,
                    false,
                    "non-keyboard action reached macOS keyboard preparation",
                ),
            );
        },
    };
    let scoped: Result<(), NativeError> = match plan {
        KeyboardPlan::SemanticInsertion => require_scope(target, scope, Route::Semantic, false),
        _ => require_scope(target, scope, Route::TargetedKeyboard, true),
    };
    match scoped {
        Ok(_) => Ok(plan),
        Err(error) => Err(error),
    }
}

/// Why text cannot be inserted through the focused control itself.
pub open spec fn semantic_insertion_refusal(
    state: elements::RegisteredView,
    inserted: Seq<char>,
) -> Option<errors::ErrorView> {
    if state.selected_text_settable != Some(true) {
        Some(
            errors::ErrorView::unsupported(
                "focused macOS control has no exact writable AXSelectedText insertion route"@,
            ),
        )
    } else if state.string_value is None {
        Some(
            errors::ErrorView::unsupported(
                "semantic text insertion requires an exact CFString AXValue snapshot"@,
            ),
        )
    } else if state.selected_text_range is None {
        Some(
            errors::ErrorView::unsupported(
                "semantic text insertion requires an exact AXSelectedTextRange snapshot"@,
            ),
        )
    } else {
        match insertion_refusal(state.string_value->0, state.selected_text_range->0, inserted) {
            Some(message) => Some(drift(message)),
            None => None,
        }
    }
}

/// What the focused control holds after text was inserted through it.
pub fn prepare_semantic_insertion(state: &RegisteredElementSnapshot, inserted: &str) -> (expected:
    Result<ExpectedInsertion, NativeError>)
    ensures
        match expected {
            Ok(expected) => semantic_insertion_refusal(state@, inserted@) is None && is_insertion(
                state@.string_value->0,
                state@.selected_text_range->0,
                inserted@,
                expected.value@,
                expected.selection,
            ),
            Err(error) => semantic_insertion_refusal(state@, inserted@) == Some(error@),
        },
{
    let settable: bool = match state.selected_text_settable {
        Some(settable) => settable,
        None => false,
    };
    if !settable {
        return Err(
            NativeError::unsupported(
                "focused macOS control has no exact writable AXSelectedText insertion route",
            ),
        );
    }
    let before: &String = match &state.string_value {
        Some(before) => before,
        None => {
            return Err(
                NativeError::unsupported(
                    "semantic text insertion requires an exact CFString AXValue snapshot",
                ),
            );
        },
    };
    let selection: AxCfRange = match state.selected_text_range {
        Some(selection) => selection,
        None => {
            return Err(
                NativeError::unsupported(
                    "semantic text insertion requires an exact AXSelectedTextRange snapshot",
                ),
            );
        },
    };
    apply_insertion(before.as_str(), selection, inserted)
}

/// What the focused control should hold after text was typed into it, where
/// that can be said.
pub fn prepare_unicode_insertion(state: &RegisteredElementSnapshot, inserted: &str) -> (expected:
    Result<Option<ExpectedInsertion>, NativeError>)
    ensures
        match (state@.string_value, state@.selected_text_range) {
            (Some(before), Some(selection)) => match expected {
                Ok(Some(expected)) => insertion_refusal(before, selection, inserted@) is None
                    && is_insertion(
                    before,
                    selection,
                    inserted@,
                    expected.value@,
                    expected.selection,
                ),
                Ok(None) => false,
                Err(error) => insertion_refusal(before, selection, inserted@) matches Some(message)
                    && error@ == drift(message),
            },
            _ => expected == Ok::<Option<ExpectedInsertion>, NativeError>(None),
        },
{
    match (&state.string_value, state.selected_text_range) {
        (Some(before), Some(selection)) => match apply_insertion(
            before.as_str(),
            selection,
            inserted,
        ) {
            Ok(expected) => Ok(Some(expected)),
            Err(error) => Err(error),
        },
        _ => Ok(None),
    }
}

/// A keyboard action that is ready to be dispatched.
#[derive(Debug)]
pub enum MacPreparedKeyboardAction {
    FocusedChord { target: MacKeyboardEventTarget },
    ApplicationChord { application: MacApplicationKeyboardTarget },
    SemanticInsertion { target: MacKeyboardEventTarget, text: String, expected: ExpectedInsertion },
    UnicodeInsertion {
        target: MacKeyboardEventTarget,
        text: String,
        readback: Option<ExpectedInsertion>,
    },
}

impl MacPreparedKeyboardAction {
    /// The focused element that the action goes to, and what is proved of its
    /// focus; none where the action goes to the application as a whole.
    pub open spec fn focused_target(self) -> Option<(MacKeyboardEventTarget, FocusProof)> {
        match self {
            MacPreparedKeyboardAction::FocusedChord { target } => Some(
                (target, FocusProof::IdentityOnly),
            ),
            MacPreparedKeyboardAction::ApplicationChord { .. } => None,
            MacPreparedKeyboardAction::SemanticInsertion { target, .. } => Some(
                (target, FocusProof::TextState),
            ),
            MacPreparedKeyboardAction::UnicodeInsertion { target, .. } => Some(
                (target, FocusProof::TextState),
            ),
        }
    }

    pub fn focused(&self) -> (focused: Option<(&MacKeyboardEventTarget, FocusProof)>)
        ensures
            match focused {
                Some((target, proof)) => self.focused_target() == Some((*target, proof)),
                None => self.focused_target() is None,
            },
    {
        match self {
            MacPreparedKeyboardAction::FocusedChord { target } => Some(
                (target, FocusProof::IdentityOnly),
            ),
            MacPreparedKeyboardAction::ApplicationChord { .. } => None,
            MacPreparedKeyboardAction::SemanticInsertion { target, .. } => Some(
                (target, FocusProof::TextState),
            ),
            MacPreparedKeyboardAction::UnicodeInsertion { target, .. } => Some(
                (target, FocusProof::TextState),
            ),
        }
    }

    /// The process of the application, and the process that takes the events.
    pub fn pids(&self) -> (pids: (i32, i32))
        ensures
            match self.focused_target() {
                Some((target, _)) => pids == (target.application_pid, target.dispatch_pid),
                None => *self matches MacPreparedKeyboardAction::ApplicationChord { application }
                    && pids == (application.application_pid, application.application_pid),
            },
    {
        match self {
            MacPreparedKeyboardAction::ApplicationChord { application } => (
                application.application_pid,
                application.application_pid,
            ),
            MacPreparedKeyboardAction::FocusedChord { target } => (
                target.application_pid,
                target.dispatch_pid,
            ),
            MacPreparedKeyboardAction::SemanticInsertion { target, .. } => (
                target.application_pid,
                target.dispatch_pid,
            ),
            MacPreparedKeyboardAction::UnicodeInsertion { target, .. } => (
                target.application_pid,
                target.dispatch_pid,
            ),
        }
    }

    /// The text that is inserted.
    pub fn text(&self) -> (inserted: Option<&String>)
        ensures
            match *self {
                MacPreparedKeyboardAction::SemanticInsertion { text, .. } => inserted
                    == Some(&text),
                MacPreparedKeyboardAction::UnicodeInsertion { text, .. } => inserted
                    == Some(&text),
                _ => inserted is None,
            },
    {
        match self {
            MacPreparedKeyboardAction::SemanticInsertion { text, .. } => Some(text),
            MacPreparedKeyboardAction::UnicodeInsertion { text, .. } => Some(text),
            _ => None,
        }
    }
}

/// Prepares the text of an insertion for its target. Semantic insertion needs
/// an exact outcome, typing does with what can be said.
pub fn prepare_text(target: MacKeyboardEventTarget, semantic: bool, inserted: String) -> (prepared:
    Result<MacPreparedKeyboardAction, NativeError>)
    ensures
        ({
            let state = target.snapshot@;
            match prepared {
                Ok(MacPreparedKeyboardAction::SemanticInsertion { target: to, text, expected }) => {
                    &&& semantic
                    &&& to == target
                    &&& text == inserted
                    &&& semantic_insertion_refusal(state, inserted@) is None
                    &&& is_insertion(
                        state.string_value->0,
                        state.selected_text_range->0,
                        inserted@,
                        expected.value@,
                        expected.selection,
                    )
                },
                Ok(MacPreparedKeyboardAction::UnicodeInsertion { target: to, text, readback }) => {
                    &&& !semantic
                    &&& to == target
                    &&& text == inserted
                    &&& match (state.string_value, state.selected_text_range, readback) {
                        (Some(before), Some(selection), Some(expected)) => is_insertion(
                            before,
                            selection,
                            inserted@,
                            expected.value@,
                            expected.selection,
                        ),
                        (Some(_), Some(_), None) => false,
                        _ => readback is None,
                    }
                },
                Ok(_) => false,
                Err(error) => if semantic {
                    semantic_insertion_refusal(state, inserted@) == Some(error@)
                } else {
                    &&& state.string_value is Some
                    &&& state.selected_text_range is Some
                    &&& insertion_refusal(
                        state.string_value->0,
                        state.selected_text_range->0,
                        inserted@,
                    ) matches Some(message)
                    &&& error@ == drift(message)
                },
            }
        }),
{
    if semantic {
        match prepare_semantic_insertion(&target.snapshot, inserted.as_str()) {
            Ok(expected) => Ok(
                MacPreparedKeyboardAction::SemanticInsertion { target, text: inserted, expected },
            ),
            Err(error) => Err(error),
        }
    } else {
        match prepare_unicode_insertion(&target.snapshot, inserted.as_str()) {
            Ok(readback) => Ok(
                MacPreparedKeyboardAction::UnicodeInsertion { target, text: inserted, readback },
            ),
            Err(error) => Err(error),
        }
    }
}

/// The kinds of a prepared key event.
#[derive(Debug, Clone, Copy, PartialEq, Eq, Structural)]
pub enum TargetedKeyEventKind {
    FlagsChangedRequested,
    KeyDown,
    KeyUp,
    FlagsChangedRestore,
    UnicodeDown,
    UnicodeUp,
}

impl TargetedKeyEventKind {
    pub open spec fn text(self) -> Seq<char> {
        match self {
            TargetedKeyEventKind::FlagsChangedRequested => "flags_changed_requested"@,
            TargetedKeyEventKind::KeyDown => "key_down"@,
            TargetedKeyEventKind::KeyUp => "key_up"@,
            TargetedKeyEventKind::FlagsChangedRestore => "flags_changed_restore"@,
            TargetedKeyEventKind::UnicodeDown => "unicode_down"@,
            TargetedKeyEventKind::UnicodeUp => "unicode_up"@,
        }
    }
}

pub fn event_kind_name(kind: TargetedKeyEventKind) -> (name: &'static str)
    ensures
        name@ == kind.text(),
{
    match kind {
        TargetedKeyEventKind::FlagsChangedRequested => "flags_changed_requested",
        TargetedKeyEventKind::KeyDown => "key_down",
        TargetedKeyEventKind::KeyUp => "key_up",
        TargetedKeyEventKind::FlagsChangedRestore => "flags_changed_restore",
        TargetedKeyEventKind::UnicodeDown => "unicode_down",
        TargetedKeyEventKind::UnicodeUp => "unicode_up",
    }
}

/// One event to post, and whether to pause behind it.
#[derive(Debug, Clone, Copy, PartialEq, Eq, Structural)]
pub struct KeyPost {
    pub pid: i32,
    pub kind: TargetedKeyEventKind,
    pub pause: bool,
}

/// How a sequence is posted: each event once, in order, to one process, with a
/// pause behind every group but the last.
pub open spec fn posts(pid: i32, kinds: Seq<TargetedKeyEventKind>) -> Seq<KeyPost> {
    Seq::new(
        kinds.len(),
        |i: int|
            KeyPost {
                pid,
                kind: kinds[i],
                pause: kinds[i] is FlagsChangedRestore && i + 1 < kinds.len(),
            },
    )
}

pub fn post_sequence(dispatch_pid: i32, kinds: &Vec<TargetedKeyEventKind>) -> (plan: Vec<KeyPost>)
    ensures
        plan@ == posts(dispatch_pid, kinds@),
{
    let mut plan: Vec<KeyPost> = Vec::new();
    let mut index: usize = 0;
    while index < kinds.len()
        invariant
            index <= kinds.len(),
            plan@ == posts(dispatch_pid, kinds@).take(index as int),
        decreases kinds.len() - index,
    {
        let kind: TargetedKeyEventKind = kinds[index];
        let last_of_group: bool = match kind {
            TargetedKeyEventKind::FlagsChangedRestore => true,
            _ => false,
        };
        plan.push(
            KeyPost { pid: dispatch_pid, kind, pause: last_of_group && index + 1 < kinds.len() },
        );
        index = index + 1;
        assert(plan@ =~= posts(dispatch_pid, kinds@).take(index as int));
    }
    assert(posts(dispatch_pid, kinds@).take(index as int) =~= posts(dispatch_pid, kinds@));
    plan
}

pub open spec fn kind_texts(kinds: Seq<TargetedKeyEventKind>) -> Seq<Seq<char>> {
    kinds.map_values(|kind: TargetedKeyEventKind| kind.text())
}

/// The evidence of a posted sequence.
pub open spec fn sequence_fields(
    application_pid: i32,
    dispatch_pid: i32,
    kinds: Seq<TargetedKeyEventKind>,
    field_focus_write: bool,
) -> Map<Seq<char>, evidence::DetailView> {
    Map::empty().insert(
        "event_count_attempted"@,
        evidence::DetailView::Int(kinds.len() as int),
    ).insert("event_count_posted"@, evidence::DetailView::Int(kinds.len() as int)).insert(
        "event_sequence"@,
        evidence::DetailView::Texts(kind_texts(kinds)),
    ).insert("post_primitives"@, evidence::DetailView::Texts(seq!["core_graphics_pid"@])).insert(
        "application_pid"@,
        evidence::DetailView::Int(application_pid as int),
    ).insert("dispatch_pid"@, evidence::DetailView::Int(dispatch_pid as int)).insert(
        "out_of_process_target"@,
        evidence::DetailView::Bool(application_pid != dispatch_pid),
    ).insert("field_focus_write_attempted"@, evidence::DetailView::Bool(field_focus_write)).insert(
        "delivery_acknowledged"@,
        evidence::DetailView::Bool(false),
    ).insert("clipboard_used"@, evidence::DetailView::Bool(false))
}

pub fn sequence_evidence(
    application_pid: i32,
    dispatch_pid: i32,
    kinds: &Vec<TargetedKeyEventKind>,
    field_focus_write: bool,
) -> (fields: Fields)
    ensures
        fields@ == sequence_fields(application_pid, dispatch_pid, kinds@, field_focus_write),
{
    let mut names: Vec<String> = Vec::new();
    let mut index: usize = 0;
    while index < kinds.len()
        invariant
            index <= kinds.len(),
            text::texts(names@) == kind_texts(kinds@).take(index as int),
        decreases kinds.len() - index,
    {
        let ghost before = names@;
        names.push(event_kind_name(kinds[index]).to_owned());
        assert(text::texts(names@) =~= text::texts(before).push(kinds@[index as int].text()));
        index = index + 1;
        assert(text::texts(names@) =~= kind_texts(kinds@).take(index as int));
    }
    assert(kind_texts(kinds@).take(index as int) =~= kind_texts(kinds@));
    let primitives: Vec<String> = vec!["core_graphics_pid".to_owned()];
    assert(text::texts(primitives@) =~= seq!["core_graphics_pid"@]);
    let count: i128 = kinds.len() as i128;
    let mut fields: Fields = Fields::new();
    fields.insert("event_count_attempted", Detail::Int(count));
    fields.insert("event_count_posted", Detail::Int(count));
    fields.insert("event_sequence", Detail::Texts(names));
    fields.insert("post_primitives", Detail::Texts(primitives));
    fields.insert("application_pid", Detail::Int(application_pid as i128));
    fields.insert("dispatch_pid", Detail::Int(dispatch_pid as i128));
    fields.insert("out_of_process_target", Detail::Bool(application_pid != dispatch_pid));
    fields.insert("field_focus_write_attempted", Detail::Bool(field_focus_write));
    fields.insert("delivery_acknowledged", Detail::Bool(false));
    fields.insert("clipboard_used", Detail::Bool(false));
    fields
}

/// The evidence of a revalidated focus.
pub open spec fn focus_fields(target: MacKeyboardEventTarget) -> Map<
    Seq<char>,
    evidence::DetailView,
> {
    Map::empty().insert(
        "focus_ax_revision"@,
        evidence::DetailView::Text(target.ax_revision@),
    ).insert("focus_observation_id"@, evidence::DetailView::Text(target.observation_id@)).insert(
        "focus_identity_revalidated"@,
        evidence::DetailView::Bool(true),
    ).insert("application_pid"@, evidence::DetailView::Int(target.application_pid as int)).insert(
        "dispatch_pid"@,
        evidence::DetailView::Int(target.dispatch_pid as int),
    ).insert(
        "out_of_process_target"@,
        evidence::DetailView::Bool(target.application_pid != target.dispatch_pid),
    )
}

pub fn focus_evidence(target: &MacKeyboardEventTarget) -> (fields: Fields)
    ensures
        fields@ == focus_fields(*target),
{
    let mut fields: Fields = Fields::new();
    fields.insert("focus_ax_revision", Detail::text(target.ax_revision.as_str()));
    fields.insert("focus_observation_id", Detail::text(target.observation_id.as_str()));
    fields.insert("focus_identity_revalidated", Detail::Bool(true));
    fields.insert("application_pid", Detail::Int(target.application_pid as i128));
    fields.insert("dispatch_pid", Detail::Int(target.dispatch_pid as i128));
    fields.insert(
        "out_of_process_target",
        Detail::Bool(target.application_pid != target.dispatch_pid),
    );
    fields
}

/// The report of key events whose effect the next observation shows.
pub fn dispatch_unverified(primitive: &str, target: &MacKeyboardEventTarget, fields: Fields) -> (dispatch:
    NativeDispatch)
    ensures
        dispatch@ == (actions::DispatchView {
            verification: VerificationLevel::DispatchUnverified,
            fields: fields@.union_prefer_right(focus_fields(*target)).insert(
                "primitive"@,
                evidence::DetailView::Text(primitive@),
            ),
        }),
{
    let mut fields: Fields = fields;
    fields.extend(&focus_evidence(target));
    fields.insert("primitive", Detail::text(primitive));
    NativeDispatch { verification: VerificationLevel::DispatchUnverified, fields }
}

/// The evidence of an application-wide chord.
pub open spec fn application_fields(target: MacApplicationKeyboardTarget) -> Map<
    Seq<char>,
    evidence::DetailView,
> {
    Map::empty().insert(
        "focus_ax_revision"@,
        evidence::DetailView::Text(target.ax_revision@),
    ).insert("focus_observation_id"@, evidence::DetailView::Text(target.observation_id@)).insert(
        "focus_identity_revalidated"@,
        evidence::DetailView::Bool(false),
    ).insert("application_scoped_chord"@, evidence::DetailView::Bool(true)).insert(
        "application_pid"@,
        evidence::DetailView::Int(target.application_pid as int),
    ).insert("dispatch_pid"@, evidence::DetailView::Int(target.application_pid as int)).insert(
        "out_of_process_target"@,
        evidence::DetailView::Bool(false),
    )
}

/// The report of a chord that was posted to an application.
pub fn dispatch_unverified_application(
    primitive: &str,
    target: &MacApplicationKeyboardTarget,
    fields: Fields,
) -> (dispatch: NativeDispatch)
    ensures
        dispatch@ == (actions::DispatchView {
            verification: VerificationLevel::DispatchUnverified,
            fields: fields@.union_prefer_right(application_fields(*target)).insert(
                "primitive"@,
                evidence::DetailView::Text(primitive@),
            ),
        }),
{
    let mut added: Fields = Fields::new();
    added.insert("focus_ax_revision", Detail::text(target.ax_revision.as_str()));
    added.insert("focus_observation_id", Detail::text(target.observation_id.as_str()));
    added.insert("focus_identity_revalidated", Detail::Bool(false));
    added.insert("application_scoped_chord", Detail::Bool(true));
    added.insert("application_pid", Detail::Int(target.application_pid as i128));
    added.insert("dispatch_pid", Detail::Int(target.application_pid as i128));
    added.insert("out_of_process_target", Detail::Bool(false));
    let mut fields: Fields = fields;
    fields.extend(&added);
    fields.insert("primitive", Detail::text(primitive));
    NativeDispatch { verification: VerificationLevel::DispatchUnverified, fields }
}

/// Whether the event target has to be focused before events are posted: only
/// where it says that it is not.
pub fn field_focus_needed(focused: Result<Option<bool>, i32>) -> (needed: Result<
    bool,
    NativeError,
>)
    ensures
        match focused {
            Err(status) => needed matches Err(error) && error@ == ax_focus_failure(
                "AXFocused"@,
                status,
            ),
            Ok(focused) => needed == Ok::<bool, NativeError>(focused == Some(false)),
        },
{
    match focused {
        Err(status) => Err(ax_focus_error("AXFocused", status)),
        Ok(Some(focused)) => Ok(!focused),
        Ok(None) => Ok(false),
    }
}

/// Whether the event target can be focused.
pub fn field_focus_writable(target: &MacKeyboardEventTarget, settable: Result<bool, i32>) -> (outcome:
    Result<(), NativeError>)
    ensures
        match settable {
            Err(status) => outcome matches Err(error) && error@ == ax_focus_failure(
                "AXFocused settable"@,
                status,
            ),
            Ok(true) => outcome is Ok,
            Ok(false) => outcome matches Err(error) && error@ == errors::ErrorView::unsupported(
                "exact keyboard target is not focused and AXFocused is not writable"@,
            ).with(
                "application_pid"@,
                evidence::DetailView::Int(target.application_pid as int),
            ).with("dispatch_pid"@, evidence::DetailView::Int(target.dispatch_pid as int)).with(
                "role"@,
                evidence::DetailView::Text(target.snapshot.role@),
            ),
        },
{
    match settable {
        Err(status) => Err(ax_focus_error("AXFocused settable", status)),
        Ok(true) => Ok(()),
        Ok(false) => Err(
            NativeError::unsupported(
                "exact keyboard target is not focused and AXFocused is not writable",
            ).with_int("application_pid", target.application_pid as i128).with_int(
                "dispatch_pid",
                target.dispatch_pid as i128,
            ).with_text("role", target.snapshot.role.as_str()),
        ),
    }
}

pub open spec fn focus_write_failure(
    target: MacKeyboardEventTarget,
    message: Seq<char>,
    status: Option<i32>,
) -> errors::ErrorView {
    let error = errors::ErrorView::new(
        ErrorCode::DispatchFailed,
        ErrorPhase::Dispatch,
        true,
        message,
    ).with("application_pid"@, evidence::DetailView::Int(target.application_pid as int)).with(
        "dispatch_pid"@,
        evidence::DetailView::Int(target.dispatch_pid as int),
    );
    let error = match status {
        Some(status) => error.with("ax_error"@, evidence::DetailView::Int(status as int)),
        None => error,
    };
    error.with("field_focus_write_attempted"@, evidence::DetailView::Bool(true)).with(
        "event_count_posted"@,
        evidence::DetailView::Int(0),
    ).with("possibly_partial_delivery"@, evidence::DetailView::Bool(true))
}

fn focus_write_error(target: &MacKeyboardEventTarget, message: &str, status: Option<i32>) -> (error:
    NativeError)
    ensures
        error@ == focus_write_failure(*target, message@, status),
{
    let error: NativeError = NativeError::new(
        ErrorCode::DispatchFailed,
        ErrorPhase::Dispatch,
        true,
        message,
    ).with_int("application_pid", target.application_pid as i128).with_int(
        "dispatch_pid",
        target.dispatch_pid as i128,
    );
    let error: NativeError = match status {
        Some(status) => error.with_int("ax_error", status as i128),
        None => error,
    };
    error.with_bool("field_focus_write_attempted", true).with_int(
        "event_count_posted",
        0,
    ).with_bool("possibly_partial_delivery", true)
}

/// Whether a focus write was accepted and shows.
pub fn field_focus_written(
    target: &MacKeyboardEventTarget,
    status: i32,
    restored: Result<Option<bool>, i32>,
) -> (outcome: Result<(), NativeError>)
    ensures
        if status != AX_ERROR_SUCCESS {
            outcome matches Err(error) && error@ == focus_write_failure(
                *target,
                "AXFocused restoration failed after entering the native side-effect boundary"@,
                Some(status),
            )
        } else {
            match restored {
                Err(status) => outcome matches Err(error) && error@ == focus_write_failure(
                    *target,
                    "AXFocused restoration could not be read back"@,
                    Some(status),
                ),
                Ok(restored) => if restored == Some(true) {
                    outcome is Ok
                } else {
                    outcome matches Err(error) && error@ == focus_write_failure(
                        *target,
                        "AXFocused restoration was not acknowledged by the exact keyboard target"@,
                        None,
                    )
                },
            }
        },
{
    if status != AX_ERROR_SUCCESS {
        return Err(
            focus_write_error(
                target,
                "AXFocused restoration failed after entering the native side-effect boundary",
                Some(status),
            ),
        );
    }
    match restored {
        Err(status) => Err(
            focus_write_error(
                target,
                "AXFocused restoration could not be read back",
                Some(status),
            ),
        ),
        Ok(Some(true)) => Ok(()),
        Ok(_) => Err(
            focus_write_error(
                target,
                "AXFocused restoration was not acknowledged by the exact keyboard target",
                None,
            ),
        ),
    }
}

/// A sequence that could not be built: trying again helps only where nothing
/// was done yet.
pub fn sequence_construction_error(error: NativeError, side_effect_started: bool) -> (reported:
    NativeError)
    ensures
        reported@ == (errors::ErrorView {
            retryable: !side_effect_started,
            phase: if side_effect_started {
                ErrorPhase::Dispatch
            } else {
                ErrorPhase::Preflight
            },
            ..error@
        }).with(
            "field_focus_side_effect_started"@,
            evidence::DetailView::Bool(side_effect_started),
        ).with("event_count_posted"@, evidence::DetailView::Int(0)).with(
            "possibly_partial_delivery"@,
            evidence::DetailView::Bool(side_effect_started),
        ),
{
    let mut error: NativeError = error;
    error.retryable = !side_effect_started;
    error.phase = if side_effect_started {
        ErrorPhase::Dispatch
    } else {
        ErrorPhase::Preflight
    };
    error.with_bool("field_focus_side_effect_started", side_effect_started).with_int(
        "event_count_posted",
        0,
    ).with_bool("possibly_partial_delivery", side_effect_started)
}

/// A sequence may be built only before the deadline of its action.
pub fn unicode_deadline(now: u64, deadline: u64, started: bool, focus_write: bool) -> (outcome:
    Result<(), NativeError>)
    ensures
        outcome is Ok <==> now < deadline,
        outcome matches Err(error) ==> error@ == errors::ErrorView::new(
            ErrorCode::DispatchFailed,
            if started {
                ErrorPhase::Dispatch
            } else {
                ErrorPhase::Preflight
            },
            true,
            "targeted Unicode sequence reached its controller deadline before construction"@,
        ).with("possibly_partial_delivery"@, evidence::DetailView::Bool(started)).with(
            "field_focus_write_attempted"@,
            evidence::DetailView::Bool(focus_write),
        ),
{
    if now < deadline {
        return Ok(());
    }
    let phase: ErrorPhase = if started {
        ErrorPhase::Dispatch
    } else {
        ErrorPhase::Preflight
    };
    Err(
        NativeError::new(
            ErrorCode::DispatchFailed,
            phase,
            true,
            "targeted Unicode sequence reached its controller deadline before construction",
        ).with_bool("possibly_partial_delivery", started).with_bool(
            "field_focus_write_attempted",
            focus_write,
        ),
    )
}

pub open spec fn readback_failure(attribute: Seq<char>, status: i32) -> errors::ErrorView {
    errors::ErrorView::new(
        ErrorCode::VerificationFailed,
        ErrorPhase::Verify,
        true,
        "exact "@ + attribute + " insertion readback failed with AX error "@
            + text::signed_decimal(status as int),
    )
}

pub fn ax_readback_error(attribute: &str, status: i32) -> (error: NativeError)
    ensures
        error@ == readback_failure(attribute@, status),
{
    let mut message: String = "exact ".to_owned();
    message.push_str(attribute);
    message.push_str(" insertion readback failed with AX error ");
    push_signed_decimal(&mut message, status as i64);
    NativeError::new(
        ErrorCode::VerificationFailed,
        ErrorPhase::Verify,
        true,
        message.as_str(),
    )
}

/// Whether value and caret read back exactly as expected, or why not.
pub open spec fn readback_of(
    value: Result<Option<String>, i32>,
    selection: Result<Option<AxCfRange>, i32>,
    expected: ExpectedInsertion,
) -> Result<bool, errors::ErrorView> {
    match (value, selection) {
        (Err(status), _) => Err(readback_failure("AXValue"@, status)),
        (Ok(_), Err(status)) => Err(readback_failure("AXSelectedTextRange"@, status)),
        (Ok(value), Ok(selection)) => Ok(
            text::optional_text(value) == Some(expected.value@) && selection == Some(
                expected.selection,
            ),
        ),
    }
}

pub fn exact_insertion_readback(
    value: Result<Option<String>, i32>,
    selection: Result<Option<AxCfRange>, i32>,
    expected: &ExpectedInsertion,
) -> (matched: Result<bool, NativeError>)
    ensures
        match matched {
            Ok(matched) => readback_of(value, selection, *expected) == Ok::<_, errors::ErrorView>(
                matched,
            ),
            Err(error) => readback_of(value, selection, *expected) == Err::<bool, _>(error@),
        },
{
    match (value, selection) {
        (Err(status), _) => Err(ax_readback_error("AXValue", status)),
        (Ok(_), Err(status)) => Err(ax_readback_error("AXSelectedTextRange", status)),
        (Ok(value), Ok(selection)) => {
            let same_value: bool = match &value {
                Some(value) => same_text(value.as_str(), expected.value.as_str()),
                None => false,
            };
            Ok(same_value && same_ranges(selection, Some(expected.selection)))
        },
    }
}

/// What the readback of typed text adds to the evidence.
pub open spec fn readback_fields(
    fields: Map<Seq<char>, evidence::DetailView>,
    readback: Option<Result<bool, NativeError>>,
) -> Map<Seq<char>, evidence::DetailView> {
    (match readback {
        Some(Err(error)) => fields.insert(
            "exact_readback_error"@,
            evidence::DetailView::Text(error.message@),
        ),
        _ => fields,
    }).insert("exact_readback_available"@, evidence::DetailView::Bool(readback is Some)).insert(
        "exact_readback_matched"@,
        evidence::DetailView::Bool(readback matches Some(Ok(true))),
    )
}

/// The report of typed text. A readback is evidence and never a refusal: an
/// asynchronous control may show its text later. A readback that worked is
/// signalled.
pub fn finish_unicode(
    target: &MacKeyboardEventTarget,
    fields: Fields,
    readback: Option<Result<bool, NativeError>>,
) -> (outcome: (NativeDispatch, Option<SettlementSignal>))
    ensures
        outcome.0@ == (actions::DispatchView {
            verification: VerificationLevel::DispatchUnverified,
            fields: readback_fields(fields@, readback).union_prefer_right(
                focus_fields(*target),
            ).insert("primitive"@, evidence::DetailView::Text("macos_targeted_unicode_events"@)),
        }),
        outcome.1 == if readback matches Some(Ok(_)) {
            Some(SettlementSignal::VerificationReadbackComplete)
        } else {
            None
        },
{
    let mut fields: Fields = fields;
    let mut signal: Option<SettlementSignal> = None;
    let mut matched: bool = false;
    let available: bool = readback.is_some();
    match &readback {
        Some(Ok(same)) => {
            matched = *same;
            signal = Some(SettlementSignal::VerificationReadbackComplete);
        },
        Some(Err(error)) => {
            fields.insert("exact_readback_error", Detail::text(error.message.as_str()));
        },
        None => {},
    }
    fields.insert("exact_readback_available", Detail::Bool(available));
    fields.insert("exact_readback_matched", Detail::Bool(matched));
    let dispatch: NativeDispatch = dispatch_unverified(
        "macos_targeted_unicode_events",
        target,
        fields,
    );
    (dispatch, signal)
}

/// A text write that was not accepted.
pub fn insertion_written(status: i32) -> (outcome: Result<(), NativeError>)
    ensures
        outcome is Ok <==> status == AX_ERROR_SUCCESS,
        outcome matches Err(error) ==> error@ == errors::ErrorView::new(
            ErrorCode::DispatchFailed,
            ErrorPhase::Dispatch,
            false,
            "AXSelectedText insertion failed after entering the dispatch boundary"@,
        ).with("ax_error"@, evidence::DetailView::Int(status as int)).with(
            "possibly_partial_delivery"@,
            evidence::DetailView::Bool(true),
        ),
{
    if status == AX_ERROR_SUCCESS {
        return Ok(());
    }
    Err(
        NativeError::new(
            ErrorCode::DispatchFailed,
            ErrorPhase::Dispatch,
            false,
            "AXSelectedText insertion failed after entering the dispatch boundary",
        ).with_int("ax_error", status as i128).with_bool("possibly_partial_delivery", true),
    )
}

/// The report of text that was inserted through the focused control. Its effect
/// is verified exactly when value and caret read back as they were expected.
pub fn finish_semantic_insertion(
    target: &MacKeyboardEventTarget,
    inserted: &str,
    readback: Result<bool, NativeError>,
) -> (outcome: (Result<NativeDispatch, NativeError>, Option<SettlementSignal>))
    ensures
        outcome.1 == if readback is Ok {
            Some(SettlementSignal::VerificationReadbackComplete)
        } else {
            None
        },
        match readback {
            Err(failure) => outcome.0 == Err::<NativeDispatch, NativeError>(failure),
            Ok(false) => outcome.0 matches Err(error) && error@ == errors::ErrorView::new(
                ErrorCode::VerificationFailed,
                ErrorPhase::Verify,
                true,
                "AXSelectedText insertion did not produce the exact value and caret readback"@,
            ).with("possibly_partial_delivery"@, evidence::DetailView::Bool(true)),
            Ok(true) => outcome.0 matches Ok(dispatch) && dispatch@ == (actions::DispatchView {
                verification: VerificationLevel::EffectVerified,
                fields: focus_fields(*target).insert(
                    "primitive"@,
                    evidence::DetailView::Text("macos_ax_selected_text_insertion"@),
                ).insert("clipboard_used"@, evidence::DetailView::Bool(false)).insert(
                    "exact_typed_readback"@,
                    evidence::DetailView::Bool(true),
                ).insert(
                    "inserted_utf16_units"@,
                    evidence::DetailView::Int(text::utf16_len(inserted@) as int),
                ),
            }),
        },
{
    match readback {
        Err(failure) => (Err(failure), None),
        Ok(false) => (
            Err(
                NativeError::new(
                    ErrorCode::VerificationFailed,
                    ErrorPhase::Verify,
                    true,
                    "AXSelectedText insertion did not produce the exact value and caret readback",
                ).with_bool("possibly_partial_delivery", true),
            ),
            Some(SettlementSignal::VerificationReadbackComplete),
        ),
        Ok(true) => {
            let mut fields: Fields = focus_evidence(target);
            fields.insert("primitive", Detail::text("macos_ax_selected_text_insertion"));
            fields.insert("clipboard_used", Detail::Bool(false));
            fields.insert("exact_typed_readback", Detail::Bool(true));
            fields.insert("inserted_utf16_units", Detail::Int(utf16_count(inserted)));
            (
                Ok(NativeDispatch { verification: VerificationLevel::EffectVerified, fields }),
                Some(SettlementSignal::VerificationReadbackComplete),
            )
        },
    }
}

/// The frameworks with keyboard cells, in order.
pub open spec fn keyboard_framework_at(i: int) -> Framework {
    if i == 0 {
        Framework::Unknown
    } else if i == 1 {
        Framework::AppKit
    } else if i == 2 {
        Framework::Chromium
    } else if i == 3 {
        Framework::WebKit
    } else if i == 4 {
        Framework::Electron
    } else {
        Framework::Catalyst
    }
}

fn keyboard_framework(i: usize) -> (framework: Framework)
    ensures
        framework == keyboard_framework_at(i as int),
{
    match i {
        0 => Framework::Unknown,
        1 => Framework::AppKit,
        2 => Framework::Chromium,
        3 => Framework::WebKit,
        4 => Framework::Electron,
        _ => Framework::Catalyst,
    }
}

/// How text is typed: into Chromium by key events, into other proved frameworks
/// through the focused control.
pub open spec fn type_text_decision(framework: Framework, state: WindowStateKind) -> contracts::DecisionView {
    if state is Visible || state is Occluded {
        match framework {
            Framework::Chromium => contracts::DecisionView::Supported {
                route: Route::TargetedKeyboard,
            },
            Framework::Unknown
            | Framework::AppKit
            | Framework::WebKit => contracts::DecisionView::Supported { route: Route::Semantic },
            _ => contracts::DecisionView::Unsupported {
                reason: "recipe_unproven: no exact background text recipe is published for this framework before manual host QA"@,
            },
        }
    } else {
        contracts::DecisionView::Unsupported {
            reason: "macOS keyboard/text actions require an exact current-Space non-minimized window state"@,
        }
    }
}

/// Keys are pressed in any framework, on windows that are visible or occluded.
pub open spec fn press_key_decision(state: WindowStateKind) -> contracts::DecisionView {
    if state is Visible || state is Occluded {
        contracts::DecisionView::Supported { route: Route::TargetedKeyboard }
    } else {
        contracts::DecisionView::Unsupported {
            reason: "macOS targeted keyboard actions require an exact current-Space non-minimized window state"@,
        }
    }
}

fn decide_type_text(framework: Framework, state: WindowStateKind) -> (decision: RouteDecision)
    ensures
        decision@ == type_text_decision(framework, state),
{
    match state {
        WindowStateKind::Visible | WindowStateKind::Occluded => match framework {
            Framework::Chromium => RouteDecision::Supported { route: Route::TargetedKeyboard },
            Framework::Unknown | Framework::AppKit | Framework::WebKit => RouteDecision::Supported {
                route: Route::Semantic,
            },
            _ => RouteDecision::Unsupported {
                reason:
                    "recipe_unproven: no exact background text recipe is published for this framework before manual host QA".to_owned(),
            },
        },
        _ => RouteDecision::Unsupported {
            reason:
                "macOS keyboard/text actions require an exact current-Space non-minimized window state".to_owned(),
        },
    }
}

fn decide_press_key(state: WindowStateKind) -> (decision: RouteDecision)
    ensures
        decision@ == press_key_decision(state),
{
    match state {
        WindowStateKind::Visible | WindowStateKind::Occluded => RouteDecision::Supported {
            route: Route::TargetedKeyboard,
        },
        _ => RouteDecision::Unsupported {
            reason:
                "macOS targeted keyboard actions require an exact current-Space non-minimized window state".to_owned(),
        },
    }
}

pub open spec fn keyboard_cell(os_version: Seq<char>, i: int) -> contracts::CellView {
    let framework = keyboard_framework_at(i / 10);
    let state = actions::state_at((i / 2) % 5);
    let types = i % 2 == 0;
    contracts::CellView {
        platform: PlatformName::Macos,
        os_version,
        action: if types {
            ActionKind::TypeText
        } else {
            ActionKind::PressKey
        },
        addressing: AddressingMode::ObservedFocus,
        framework,
        window_state: state,
        decision: if types {
            type_text_decision(framework, state)
        } else {
            press_key_decision(state)
        },
    }
}

/// A cell for typing and one for pressing keys, for every framework and window
/// state.
pub open spec fn keyboard_cells(os_version: Seq<char>) -> Seq<contracts::CellView> {
    Seq::new(60, |i: int| keyboard_cell(os_version, i))
}

pub fn keyboard_capability_cells(os_version: &str) -> (cells: Vec<CapabilityCell>)
    ensures
        contracts::cells_view(cells@) == keyboard_cells(os_version@),
{
    let mut cells: Vec<CapabilityCell> = Vec::new();
    let mut i: usize = 0;
    while i < 60
        invariant
            i <= 60,
            cells@.len() == i,
            forall|k: int| 0 <= k < i ==> (#[trigger] cells@[k])@ == keyboard_cell(os_version@, k),
        decreases 60 - i,
    {
        let framework: Framework = keyboard_framework(i / 10);
        let state: WindowStateKind = window_state((i / 2) % 5);
        let types: bool = i % 2 == 0;
        let action: ActionKind = if types {
            ActionKind::TypeText
        } else {
            ActionKind::PressKey
        };
        let decision: RouteDecision = if types {
            decide_type_text(framework, state)
        } else {
            decide_press_key(state)
        };
        cells.push(
            CapabilityCell {
                key: CapabilityKey {
                    platform: PlatformName::Macos,
                    os_version: os_version.to_owned(),
                    action,
                    addressing: AddressingMode::ObservedFocus,
                    framework,
                    window_state: state,
                },
                decision,
            },
        );
        i = i + 1;
    }
    assert(contracts::cells_view(cells@) =~= keyboard_cells(os_version@));
    cells
}

} // verus!
