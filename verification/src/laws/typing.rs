//! Where keys and text go.
use vstd::prelude::*;

use crate::ax::bindings::AxCfRange;
use crate::contracts::{
    ActionShape, Framework, ResolvedWindowStamp, Route, SettlementSignal,
    VerificationLevel,
};
use crate::driver::actions::NativeDispatch;
use crate::driver::actions::keyboard;
use crate::driver::actions::keyboard::{
    ExpectedInsertion, FocusProof, FocusReads, KeyPost, KeyboardPlan, KeyboardScope, KeyboardStep,
    KeyboardWalk, LiveText, MacApplicationKeyboardTarget, MacKeyboardEventTarget,
    MacPreparedKeyboardAction, ResolvedFocus, TargetFacts, TargetedKeyEventKind,
};
use crate::driver::actions::semantic::Candidate;
use crate::driver::interaction::LeaseDecision;
use crate::driver::elements::{MacElementRegistry, RegisteredElementSnapshot};
use crate::driver::snapshot::RetainedAxElement;
use crate::errors::{ErrorCode, ErrorPhase, NativeError};
use crate::evidence;
use crate::text;

verus! {

/// An insertion puts the text in the place of the selection, leaves what stands
/// before and behind it, and puts the cursor behind the text.
pub proof fn an_insertion_takes_the_place_of_the_selection(
    before: &str,
    selection: AxCfRange,
    inserted: &str,
    outcome: Result<ExpectedInsertion, NativeError>,
    head: Seq<char>,
    selected: Seq<char>,
    tail: Seq<char>,
)
    requires
        call_ensures(keyboard::apply_insertion, (before, selection, inserted), outcome),
        before@ == head + selected + tail,
        selection.location == text::utf16_len(head),
        selection.length == text::utf16_len(selected),
        text::utf16_len(head) + text::utf16_len(inserted@) <= isize::MAX,
    ensures
        outcome is Ok,
        outcome->Ok_0.value@ == head + inserted@ + tail,
        outcome->Ok_0.selection.location == text::utf16_len(head) + text::utf16_len(inserted@),
        outcome->Ok_0.selection.length == 0,
{
    let from = head.len() as int;
    let to = (head.len() + selected.len()) as int;
    assert(before@.take(from) =~= head);
    assert(before@.take(to) =~= head + selected);
    text::utf16_len_of_parts(head, selected);
    assert(text::utf16_boundary(before@, from, selection.location as nat));
    assert(text::utf16_boundary(before@, to, (selection.location + selection.length) as nat));
    assert(keyboard::has_boundary(before@, selection.location as nat));
    assert(keyboard::has_boundary(before@, (selection.location + selection.length) as nat));
    assert(outcome is Ok);
    let value = outcome->Ok_0.value@;
    let caret = outcome->Ok_0.selection;
    let (left, right) = choose|left: int, right: int|
        {
            &&& #[trigger] keyboard::covers(before@, selection, left, right)
            &&& value == before@.take(left) + inserted@ + before@.skip(right)
            &&& caret.location == selection.location + text::utf16_len(inserted@)
            &&& caret.length == 0
        };
    text::utf16_boundary_is_unique(before@, left, from, selection.location as nat);
    text::utf16_boundary_is_unique(
        before@,
        right,
        to,
        (selection.location + selection.length) as nat,
    );
    assert(before@.skip(to) =~= tail);
}

/// A selection that begins or ends outside the text, or inside of one character,
/// is not inserted at.
pub proof fn an_insertion_needs_a_selection_of_whole_characters(
    before: &str,
    selection: AxCfRange,
    inserted: &str,
    outcome: Result<ExpectedInsertion, NativeError>,
)
    requires
        call_ensures(keyboard::apply_insertion, (before, selection, inserted), outcome),
    ensures
        outcome is Ok ==> selection.location >= 0 && selection.length >= 0,
        outcome is Ok ==> exists|head: Seq<char>, selected: Seq<char>, tail: Seq<char>|
            {
                &&& before@ == #[trigger] (head + selected + tail)
                &&& selection.location == text::utf16_len(head)
                &&& selection.length == text::utf16_len(selected)
            },
        outcome is Err ==> outcome->Err_0.code == ErrorCode::AxRevisionMismatch
            && outcome->Err_0.retryable,
{
    if outcome is Ok {
        keyboard::insertion_replaces_only_the_selection(
            before@,
            selection,
            inserted@,
            outcome->Ok_0.value@,
            outcome->Ok_0.selection,
        );
        let value = outcome->Ok_0.value@;
        let (head, selected, tail) = choose|head: Seq<char>, selected: Seq<char>, tail: Seq<char>|
            {
                &&& before@ == #[trigger] (head + selected + tail)
                &&& value == head + inserted@ + tail
                &&& text::utf16_len(head) == selection.location
                &&& text::utf16_len(selected) == selection.length
            };
        assert(before@ == head + selected + tail);
    }
}

/// A character counts for two units exactly where it lies above the basic plane.
pub proof fn characters_count_in_units(left: Seq<char>, character: char)
    ensures
        text::utf16_len(left.push(character)) == text::utf16_len(left) + if character as u32
            > 0xffff {
            2int
        } else {
            1int
        },
        text::utf16_len(Seq::<char>::empty()) == 0,
{
    assert(left.push(character).drop_last() =~= left);
}

/// A focus is taken for the target's exactly where it was observed in the target's
/// window and is still there.
pub proof fn a_focus_is_the_observed_one(
    owner_matches: bool,
    observed: u32,
    identity_matches: bool,
    live: Option<u32>,
    target: u32,
    outcome: Result<(), NativeError>,
)
    requires
        call_ensures(
            keyboard::validate_focus_identity_proof,
            (owner_matches, observed, identity_matches, live, target),
            outcome,
        ),
    ensures
        outcome is Ok <==> owner_matches && identity_matches && observed == target && live == Some(
            target,
        ),
        outcome is Err ==> outcome->Err_0.code == ErrorCode::AxRevisionMismatch
            && outcome->Err_0.retryable,
{
}

/// The text of a control is taken as unchanged exactly where everything that was
/// observed of it reads the same.
pub proof fn a_text_is_unchanged_where_it_reads_the_same(
    live: &LiveText,
    state: &RegisteredElementSnapshot,
    outcome: Result<(), NativeError>,
)
    requires
        call_ensures(keyboard::revalidate_text_state, (live, state), outcome),
    ensures
        outcome is Ok <==> {
            &&& state@.value_query_proven ==> live.value is Ok && text::optional_text(
                live.value->Ok_0,
            ) == state@.string_value
            &&& state@.selected_text_range is Some ==> live.selected_text_range is Ok
                && live.selected_text_range->Ok_0 == state@.selected_text_range
            &&& state@.selected_text_settable is Some ==> live.selected_text_settable is Ok
                && live.selected_text_settable->Ok_0 == state@.selected_text_settable->0
        },
{
}

/// A focus that was resolved holds for its own window and at an observed revision.
pub proof fn a_resolved_focus_is_of_the_target(
    invalidated: bool,
    target: &ResolvedWindowStamp,
    focus: &ResolvedFocus,
    revision: Result<String, NativeError>,
)
    requires
        call_ensures(keyboard::focus_contract, (invalidated, target, focus), revision),
    ensures
        revision is Ok <==> !invalidated && focus.window@ == target@ && focus.ax_revision is Some,
        revision is Ok ==> focus.ax_revision->0@ == revision->Ok_0@,
{
}

/// A keyboard action runs in its own scope: on its route, for its window, and with
/// the belief lease exactly where it asks for one.
pub proof fn a_keyboard_scope_is_exact(
    target: &ResolvedWindowStamp,
    scope: &KeyboardScope,
    route: Route,
    belief: bool,
    outcome: Result<(), NativeError>,
)
    requires
        call_ensures(keyboard::require_scope, (target, scope, route, belief), outcome),
    ensures
        outcome is Ok ==> scope.route == route && scope.owner@ == target@ && scope.window@
            == target@,
        outcome is Ok && belief ==> scope.target_belief == LeaseDecision::Acquired,
        outcome is Ok && !belief ==> scope.target_belief == LeaseDecision::NotApplicable,
        scope.route == route && scope.owner@ == target@ && scope.window@ == target@ && belief
            && scope.target_belief == LeaseDecision::Acquired ==> outcome is Ok,
        scope.route == route && scope.owner@ == target@ && scope.window@ == target@ && !belief
            && scope.target_belief == LeaseDecision::NotApplicable ==> outcome is Ok,
{
}

/// Text is inserted through the control itself only where the control takes it,
/// its value and selection are known, and it is no Chromium control.
pub proof fn text_is_inserted_through_controls_that_take_it(
    framework: Framework,
    state: &RegisteredElementSnapshot,
    candidate: Candidate,
)
    requires
        call_ensures(keyboard::semantic_type_text_candidate, (framework, state), candidate),
    ensures
        candidate is Prepared <==> {
            &&& state@.selected_text_settable == Some(true)
            &&& state@.string_value is Some
            &&& state@.selected_text_range is Some
            &&& !(framework is Chromium)
            &&& !(framework is Electron)
        },
{
}

/// The same three things decide wherever the choice is made.
pub proof fn exact_insertions_are_for_other_frameworks(
    framework: Framework,
    settable: Option<bool>,
    available: bool,
    exact: bool,
)
    requires
        call_ensures(
            keyboard::should_use_exact_focused_insertion,
            (framework, settable, available),
            exact,
        ),
    ensures
        exact <==> settable == Some(true) && available && !(framework is Chromium) && !(
        framework is Electron),
{
}

/// Keys go to the focused element's own process where that is not the
/// application's.
pub proof fn keys_go_to_the_process_of_the_focus(
    walk: &KeyboardWalk,
    pid: i32,
    step: Result<KeyboardStep, NativeError>,
)
    requires
        call_ensures(KeyboardWalk::focused_pid, (walk, Ok::<i32, i32>(pid)), step),
    ensures
        step is Ok,
        pid == walk.application_pid <==> step->Ok_0 is ReadParent,
        pid != walk.application_pid ==> step->Ok_0 == (KeyboardStep::Done {
            element: walk.focused,
            pid,
        }),
{
}

/// Where the ancestry ends inside of the application, keys go to the application
/// and the focused element.
pub proof fn keys_go_to_the_application_at_last(
    walk: &KeyboardWalk,
    parent: Option<RetainedAxElement>,
    step: Result<KeyboardStep, NativeError>,
)
    requires
        call_ensures(
            KeyboardWalk::parent,
            (walk, Ok::<Option<RetainedAxElement>, i32>(parent)),
            step,
        ),
    ensures
        parent is None ==> step == Ok::<KeyboardStep, NativeError>(
            KeyboardStep::Done { element: walk.focused, pid: walk.application_pid },
        ),
        parent is Some ==> (step is Err <==> parent->0.identity == walk.current.identity),
        parent is Some && step is Ok ==> step->Ok_0 == KeyboardStep::ReadPid(parent->0),
{
}

/// The nearest ancestor of another process takes the keys; below it the walk goes
/// on from the ancestor.
pub proof fn keys_go_to_the_nearest_other_process(
    walk: &mut KeyboardWalk,
    ancestor: RetainedAxElement,
    pid: i32,
    step: Result<KeyboardStep, NativeError>,
)
    requires
        call_ensures(KeyboardWalk::ancestor_pid, (walk, ancestor, Ok::<i32, i32>(pid)), step),
    ensures
        pid != old(walk).application_pid ==> step == Ok::<KeyboardStep, NativeError>(
            KeyboardStep::Done { element: ancestor, pid },
        ),
        pid == old(walk).application_pid ==> final(walk).current == ancestor,
        final(walk).application_pid == old(walk).application_pid,
        final(walk).focused == old(walk).focused,
{
}

/// The target that is prepared for keys is the focus that was observed: its
/// element, its window and its process.
pub proof fn the_prepared_target_is_the_observed_focus(
    registry: &MacElementRegistry,
    invalidated: bool,
    target: &ResolvedWindowStamp,
    focus: &ResolvedFocus,
    facts: TargetFacts,
    required: FocusProof,
    reads: &FocusReads,
    prepared: Result<MacKeyboardEventTarget, NativeError>,
)
    requires
        call_ensures(
            keyboard::prepare_keyboard_target,
            (registry, invalidated, target, focus, facts, required, reads),
            prepared,
        ),
        prepared is Ok,
    ensures
        !invalidated && focus.window@ == target@,
        reads.live is Some && reads.live->0.identity == prepared->Ok_0.snapshot@.element.identity,
        reads.live_window_id == Some(facts.cg_window_id),
        prepared->Ok_0.snapshot@.owner == target@,
        prepared->Ok_0.snapshot@.owner_window_id == facts.cg_window_id,
        reads.live_role is Ok && text::optional_text(reads.live_role->Ok_0) == Some(
            prepared->Ok_0.snapshot@.role,
        ),
        reads.epoch_before == reads.epoch_after,
        prepared->Ok_0.signal_epoch == reads.epoch_before,
        prepared->Ok_0.application_pid == facts.pid,
        reads.effective == Ok::<_, NativeError>(
            (prepared->Ok_0.element, prepared->Ok_0.dispatch_pid),
        ),
        prepared->Ok_0.observation_id@ == focus.observation_id@,
        text::optional_text(focus.ax_revision) == Some(prepared->Ok_0.ax_revision@),
        required is TextState && prepared->Ok_0.snapshot@.value_query_proven
            ==> reads.text.value is Ok && text::optional_text(reads.text.value->Ok_0)
            == prepared->Ok_0.snapshot@.string_value,
{
}

/// Without a focused element, keys go to the application of the target.
pub proof fn keys_without_a_focus_go_to_the_application(
    invalidated: bool,
    target: &ResolvedWindowStamp,
    focus: &ResolvedFocus,
    facts: TargetFacts,
    epoch: u64,
    prepared: Result<MacApplicationKeyboardTarget, NativeError>,
)
    requires
        call_ensures(
            keyboard::prepare_application_keyboard_target,
            (invalidated, target, focus, facts, epoch),
            prepared,
        ),
    ensures
        prepared is Ok <==> !invalidated && focus.window@ == target@ && focus.ax_revision is Some
            && focus.focused_element is None,
        prepared is Ok ==> {
            &&& prepared->Ok_0.application_pid == facts.pid
            &&& prepared->Ok_0.cg_window_id == facts.cg_window_id
            &&& prepared->Ok_0.signal_epoch == epoch
            &&& prepared->Ok_0.observation_id@ == focus.observation_id@
        },
{
}

/// The last look before dispatch passes only where the process, the window, the
/// focus, the effective target and the epochs are those of the preparation.
pub proof fn nothing_changed_before_the_keys_go_out(
    prepared: &MacKeyboardEventTarget,
    invalidated: bool,
    target: &ResolvedWindowStamp,
    owner: &ResolvedWindowStamp,
    window: &ResolvedWindowStamp,
    facts: TargetFacts,
    required: FocusProof,
    reads: &FocusReads,
    outcome: Result<(), NativeError>,
)
    requires
        call_ensures(
            keyboard::final_focus_validation,
            (prepared, invalidated, target, owner, window, facts, required, reads),
            outcome,
        ),
        outcome is Ok,
    ensures
        !invalidated && owner@ == target@ && window@ == target@,
        facts.pid == prepared.application_pid,
        facts.cg_window_id == prepared.snapshot@.owner_window_id,
        prepared.snapshot@.owner == target@,
        reads.epoch_before == prepared.signal_epoch && reads.epoch_after == prepared.signal_epoch,
        reads.live is Some && reads.live->0.identity == prepared.snapshot@.element.identity,
        reads.live_window_id == Some(facts.cg_window_id),
        reads.live_role is Ok && text::optional_text(reads.live_role->Ok_0) == Some(
            prepared.snapshot@.role,
        ),
        reads.effective matches Ok((element, pid)) && element.identity
            == prepared.element.identity && pid == prepared.dispatch_pid,
        required is TextState && prepared.snapshot@.value_query_proven ==> reads.text.value is Ok
            && text::optional_text(reads.text.value->Ok_0) == prepared.snapshot@.string_value,
        required is TextState && prepared.snapshot@.selected_text_range is Some
            ==> reads.text.selected_text_range is Ok && reads.text.selected_text_range->Ok_0
            == prepared.snapshot@.selected_text_range,
{
}

/// For keys to the application the process, the window and the epoch are looked at.
pub proof fn nothing_changed_before_the_application_gets_keys(
    prepared: &MacApplicationKeyboardTarget,
    invalidated: bool,
    target: &ResolvedWindowStamp,
    owner: &ResolvedWindowStamp,
    window: &ResolvedWindowStamp,
    facts: TargetFacts,
    epoch: u64,
    outcome: Result<(), NativeError>,
)
    requires
        call_ensures(
            keyboard::final_application_validation,
            (prepared, invalidated, target, owner, window, facts, epoch),
            outcome,
        ),
    ensures
        outcome is Ok <==> !invalidated && owner@ == target@ && window@ == target@ && facts.pid
            == prepared.application_pid && facts.cg_window_id == prepared.cg_window_id && epoch
            == prepared.signal_epoch,
        outcome is Err ==> outcome->Err_0.retryable,
{
}

/// Keys are pressed at the focus where there is one and at the application where
/// there is none; text is typed by the route of the scope.
pub proof fn a_plan_is_for_the_action_that_was_asked_for(
    shape: &ActionShape,
    has_focus: bool,
    target: &ResolvedWindowStamp,
    scope: &KeyboardScope,
    plan: Result<KeyboardPlan, NativeError>,
)
    requires
        call_ensures(keyboard::plan_action, (shape, has_focus, target, scope), plan),
    ensures
        plan is Ok ==> scope.owner@ == target@ && scope.window@ == target@,
        plan is Ok ==> (*shape is PressKey || *shape is TypeText),
        plan is Ok && *shape is PressKey ==> {
            &&& plan->Ok_0 is FocusedChord <==> has_focus
            &&& plan->Ok_0 is ApplicationChord <==> !has_focus
            &&& scope.route == Route::TargetedKeyboard
            &&& scope.target_belief == LeaseDecision::Acquired
        },
        plan is Ok && *shape is TypeText ==> {
            &&& plan->Ok_0 is SemanticInsertion <==> scope.route == Route::Semantic
            &&& plan->Ok_0 is UnicodeInsertion <==> scope.route == Route::TargetedKeyboard
            &&& scope.target_belief == LeaseDecision::Acquired <==> plan->Ok_0 is UnicodeInsertion
        },
        *shape is PressKey && scope.route == Route::TargetedKeyboard && scope.owner@ == target@
            && scope.window@ == target@ && scope.target_belief == LeaseDecision::Acquired
            ==> plan is Ok,
{
}

/// What is prepared for typing carries the target and the text, and expects what
/// the insertion gives.
pub proof fn prepared_text_is_the_text(
    target: MacKeyboardEventTarget,
    semantic: bool,
    inserted: String,
    prepared: Result<MacPreparedKeyboardAction, NativeError>,
)
    requires
        call_ensures(keyboard::prepare_text, (target, semantic, inserted), prepared),
        prepared is Ok,
    ensures
        prepared->Ok_0 is SemanticInsertion <==> semantic,
        prepared->Ok_0 is UnicodeInsertion <==> !semantic,
        semantic ==> prepared->Ok_0->SemanticInsertion_target == target
            && prepared->Ok_0->SemanticInsertion_text == inserted
            && target.snapshot@.selected_text_settable == Some(true),
        !semantic ==> prepared->Ok_0->UnicodeInsertion_target == target
            && prepared->Ok_0->UnicodeInsertion_text == inserted,
        semantic ==> text::utf16_len(prepared->Ok_0->expected.value@) == text::utf16_len(
            target.snapshot@.string_value->0,
        ) - target.snapshot@.selected_text_range->0.length + text::utf16_len(inserted@),
        !semantic ==> (prepared->Ok_0->readback is Some <==> target.snapshot@.string_value is Some
            && target.snapshot@.selected_text_range is Some),
{
    if semantic {
        keyboard::insertion_replaces_only_the_selection(
            target.snapshot@.string_value->0,
            target.snapshot@.selected_text_range->0,
            inserted@,
            prepared->Ok_0->expected.value@,
            prepared->Ok_0->expected.selection,
        );
    }
}

/// Typing looks at the text of the control; a chord at its identity only.
pub proof fn typing_proves_the_text(
    action: &MacPreparedKeyboardAction,
    focused: Option<(&MacKeyboardEventTarget, FocusProof)>,
    pids: (i32, i32),
    inserted: Option<&String>,
)
    requires
        call_ensures(MacPreparedKeyboardAction::focused, (action,), focused),
        call_ensures(MacPreparedKeyboardAction::pids, (action,), pids),
        call_ensures(MacPreparedKeyboardAction::text, (action,), inserted),
    ensures
        focused is None <==> action is ApplicationChord,
        focused matches Some((target, proof)) ==> (proof is TextState <==> inserted is Some)
            && pids == (target.application_pid, target.dispatch_pid),
        focused is None ==> pids.0 == pids.1,
        inserted is Some <==> action is SemanticInsertion || action is UnicodeInsertion,
{
}

/// Every event is posted, in its order, to the process that takes the keys. A pause
/// follows each restoring of the flags but the last.
pub proof fn every_event_is_posted_in_order(
    pid: i32,
    kinds: &Vec<TargetedKeyEventKind>,
    plan: Vec<KeyPost>,
)
    requires
        call_ensures(keyboard::post_sequence, (pid, kinds), plan),
    ensures
        plan@.len() == kinds@.len(),
        forall|i: int|
            0 <= i < kinds@.len() ==> (#[trigger] plan@[i]).pid == pid && plan@[i].kind == kinds@[i]
                && (plan@[i].pause <==> kinds@[i] is FlagsChangedRestore && i != kinds@.len() - 1),
{
}

/// An insertion counts as seen where the value and the cursor read back as
/// expected.
pub proof fn an_insertion_is_seen_where_it_reads_back(
    value: Result<Option<String>, i32>,
    selection: Result<Option<AxCfRange>, i32>,
    expected: &ExpectedInsertion,
    matched: Result<bool, NativeError>,
)
    requires
        call_ensures(keyboard::exact_insertion_readback, (value, selection, expected), matched),
    ensures
        matched is Ok <==> value is Ok && selection is Ok,
        matched is Ok ==> (matched->Ok_0 <==> text::optional_text(value->Ok_0) == Some(
            expected.value@,
        ) && selection->Ok_0 == Some(expected.selection)),
        matched is Err ==> matched->Err_0.code == ErrorCode::VerificationFailed,
{
}

/// A semantic insertion succeeds only where it was seen, and then as verified.
pub proof fn a_semantic_insertion_succeeds_where_it_was_seen(
    target: &MacKeyboardEventTarget,
    inserted: &str,
    readback: Result<bool, NativeError>,
    outcome: (Result<NativeDispatch, NativeError>, Option<SettlementSignal>),
)
    requires
        call_ensures(keyboard::finish_semantic_insertion, (target, inserted, readback), outcome),
    ensures
        outcome.0 is Ok <==> readback == Ok::<bool, NativeError>(true),
        outcome.0 is Ok ==> outcome.0->Ok_0@.verification == VerificationLevel::EffectVerified,
        outcome.1 == Some(SettlementSignal::VerificationReadbackComplete) <==> readback is Ok,
{
}

/// Typed events are never taken as delivered, whatever was read back.
pub proof fn typed_events_stay_unverified(
    target: &MacKeyboardEventTarget,
    fields: evidence::Fields,
    readback: Option<Result<bool, NativeError>>,
    outcome: (NativeDispatch, Option<SettlementSignal>),
)
    requires
        call_ensures(keyboard::finish_unicode, (target, fields, readback), outcome),
    ensures
        outcome.0@.verification == VerificationLevel::DispatchUnverified,
        outcome.1 is Some <==> readback is Some && readback->0 is Ok,
        outcome.1 is Some ==> outcome.1->0 == SettlementSignal::VerificationReadbackComplete,
        outcome.0@.fields["primitive"@] == evidence::DetailView::Text(
            "macos_targeted_unicode_events"@,
        ),
{
}

/// The write of an insertion counts where it was taken.
pub proof fn an_insertion_is_written_where_it_was_taken(
    status: i32,
    outcome: Result<(), NativeError>,
)
    requires
        call_ensures(keyboard::insertion_written, (status,), outcome),
    ensures
        outcome is Ok <==> status == 0,
        outcome is Err ==> outcome->Err_0.phase == ErrorPhase::Dispatch
            && !outcome->Err_0.retryable,
{
}

/// Focus is written to a field exactly where the field says that it has none.
pub proof fn only_an_unfocused_field_is_focused(
    focused: Result<Option<bool>, i32>,
    needed: Result<bool, NativeError>,
)
    requires
        call_ensures(keyboard::field_focus_needed, (focused,), needed),
    ensures
        needed is Err <==> focused is Err,
        needed == Ok::<bool, NativeError>(true) <==> focused == Ok::<_, i32>(Some(false)),
{
}

/// A field counts as focused where the write was taken and it says so itself.
pub proof fn a_field_is_focused_where_it_says_so(
    target: &MacKeyboardEventTarget,
    status: i32,
    restored: Result<Option<bool>, i32>,
    outcome: Result<(), NativeError>,
)
    requires
        call_ensures(keyboard::field_focus_written, (target, status, restored), outcome),
    ensures
        outcome is Ok <==> status == 0 && restored == Ok::<_, i32>(Some(true)),
{
}

/// Where focus cannot be written there is an error.
pub proof fn focus_is_written_where_it_can_be(
    target: &MacKeyboardEventTarget,
    settable: Result<bool, i32>,
    outcome: Result<(), NativeError>,
)
    requires
        call_ensures(keyboard::field_focus_writable, (target, settable), outcome),
    ensures
        outcome is Ok <==> settable == Ok::<bool, i32>(true),
{
}

/// Typing goes on until the deadline and no longer.
pub proof fn typing_ends_at_the_deadline(
    now: u64,
    deadline: u64,
    started: bool,
    wrote: bool,
    outcome: Result<(), NativeError>,
)
    requires
        call_ensures(keyboard::unicode_deadline, (now, deadline, started, wrote), outcome),
    ensures
        outcome is Ok <==> now < deadline,
        outcome is Err ==> (outcome->Err_0.phase == ErrorPhase::Dispatch <==> started),
        outcome is Err ==> outcome->Err_0.retryable,
{
}

/// The published routes: text goes through the control, or as key events where the
/// framework is Chromium, and nowhere for the frameworks without a recipe; keys go
/// as events. A window that is not on the screen gets neither.
pub proof fn published_typing_routes(os_version: Seq<char>, i: int)
    requires
        0 <= i < keyboard::keyboard_cells(os_version).len(),
    ensures
        ({
            let cell = keyboard::keyboard_cells(os_version)[i];
            let shown = cell.window_state is Visible || cell.window_state is Occluded;
            &&& !shown ==> cell.decision is Unsupported
            &&& shown && cell.action is PressKey ==> cell.decision is Supported
                && cell.decision->route == Route::TargetedKeyboard
            &&& shown && cell.action is TypeText && cell.framework is Chromium
                ==> cell.decision is Supported && cell.decision->route == Route::TargetedKeyboard
            &&& shown && cell.action is TypeText && (cell.framework is Unknown
                || cell.framework is AppKit || cell.framework is WebKit)
                ==> cell.decision is Supported && cell.decision->route == Route::Semantic
            &&& cell.action is TypeText && (cell.framework is Electron
                || cell.framework is Catalyst) ==> cell.decision is Unsupported
            &&& cell.action is TypeText || cell.action is PressKey
            &&& cell.os_version == os_version
        }),
{
}

} // verus!
