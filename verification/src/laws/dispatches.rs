//! How actions are carried out, step by step.
use vstd::prelude::*;

use crate::ax::bindings::AxCfRange;
use crate::contracts::{ResolvedWindowStamp, SettlementSignal, VerificationLevel};
use crate::driver::actions::keyboard::{MacPreparedKeyboardAction, TargetedKeyEventKind};
use crate::driver::actions::keyboard_dispatch::{KeyboardDispatch, KeyboardEvent};
use crate::driver::actions::pointer;
use crate::driver::actions::pointer::{EventPoint, MacPreparedPointerAction};
use crate::driver::actions::pointer_dispatch::{PointerDispatch, PointerEvent};
use crate::driver::actions::semantic::{MacPreparedSemanticAction, MenuOutcome};
use crate::driver::actions::semantic_dispatch::{SemanticDispatch, SemanticEvent};
use crate::driver::interaction::MenuMutationIntent;
use crate::driver::menu::NativeMenuIdentity;
use crate::errors::NativeError;
use crate::text;

verus! {

/// Whatever fails on the way to the keys fails the action, with the same error.
pub proof fn a_failed_step_fails_the_keys(
    run: &mut KeyboardDispatch,
    error: NativeError,
    event: KeyboardEvent,
    signal: Option<SettlementSignal>,
)
    requires
        call_ensures(KeyboardDispatch::advance, (run, event), signal),
        event == KeyboardEvent::Validated(Err::<(), NativeError>(error))
            && old(run).stage is Validate || event == KeyboardEvent::BoundaryEntered(
            Err::<(), NativeError>(error),
        ) && (old(run).stage is FieldBoundary || old(run).stage is PostBoundary
            || old(run).stage is InsertBoundary),
    ensures
        final(run)@.stage is Done,
        final(run)@.result is Some && final(run)@.result->0 is Err,
        final(run)@.result->0->Err_0 == error@,
        final(run)@.started == old(run)@.started,
        signal is None,
{
}

/// A validated chord has its events built first; typing looks at its field first;
/// an insertion goes to its boundary.
pub proof fn a_validated_action_goes_its_way(
    run: &mut KeyboardDispatch,
    signal: Option<SettlementSignal>,
)
    requires
        call_ensures(
            KeyboardDispatch::advance,
            (run, KeyboardEvent::Validated(Ok::<(), NativeError>(()))),
            signal,
        ),
        old(run).stage is Validate,
    ensures
        old(run).action is FocusedChord || old(run).action is ApplicationChord
            ==> final(run)@.stage is Sequence,
        old(run).action is UnicodeInsertion ==> final(run)@.stage is FieldFocus,
        old(run).action is SemanticInsertion ==> final(run)@.stage is InsertBoundary,
        final(run)@.result == old(run)@.result,
        final(run)@.started == old(run)@.started,
{
}

/// The events that were built are those that are posted. Typing that is out of
/// time builds none.
pub proof fn built_events_are_the_posted_ones(
    run: &mut KeyboardDispatch,
    kinds: Result<Vec<TargetedKeyEventKind>, NativeError>,
    now: u64,
    signal: Option<SettlementSignal>,
)
    requires
        call_ensures(
            KeyboardDispatch::advance,
            (run, KeyboardEvent::SequenceBuilt { kinds, now }),
            signal,
        ),
        old(run)@.wf(),
        old(run).stage is Sequence,
    ensures
        kinds is Err ==> final(run)@.stage is Done && final(run)@.result->0 is Err,
        old(run).action is UnicodeInsertion && now >= old(run).deadline
            ==> final(run)@.stage is Done && final(run)@.result->0 is Err,
        kinds is Ok && !(old(run).action is UnicodeInsertion && now >= old(run).deadline) ==> {
            &&& final(run)@.kinds == kinds->Ok_0@
            &&& final(run)@.result is None
            &&& final(run)@.stage is FieldFocus <==> old(run).action is FocusedChord
            &&& final(run)@.stage is PostBoundary <==> !(old(run).action is FocusedChord)
        },
{
}

/// A field is focused only where it has no focus and can be given it.
pub proof fn a_field_gets_the_focus_where_it_has_none(
    run: &mut KeyboardDispatch,
    next: &mut KeyboardDispatch,
    focused: Option<bool>,
    settable: bool,
    signal: Option<SettlementSignal>,
)
    requires
        call_ensures(
            KeyboardDispatch::advance,
            (run, KeyboardEvent::FieldFocused(Ok::<_, i32>(focused))),
            signal,
        ),
        call_ensures(
            KeyboardDispatch::advance,
            (next, KeyboardEvent::FieldSettable(Ok::<bool, i32>(settable))),
            signal,
        ),
        old(run)@.wf() && old(next)@.wf(),
        old(run).stage is FieldFocus,
        old(next).stage is FieldSettable,
    ensures
        final(run)@.stage is FieldSettable <==> focused == Some(false),
        focused != Some(false) ==> if old(run).action is UnicodeInsertion {
            final(run)@.stage is Sequence
        } else {
            final(run)@.stage is PostBoundary
        },
        final(next)@.stage is FieldBoundary <==> settable,
        !settable ==> final(next)@.result is Some && final(next)@.result->0 is Err,
        final(run)@.result is None,
{
}

/// Where a native step may be taken, it is the one that was waited for, and only
/// then has the action begun to have an effect.
pub proof fn a_boundary_leads_to_its_step(
    run: &mut KeyboardDispatch,
    signal: Option<SettlementSignal>,
)
    requires
        call_ensures(
            KeyboardDispatch::advance,
            (run, KeyboardEvent::BoundaryEntered(Ok::<(), NativeError>(()))),
            signal,
        ),
        old(run).stage is FieldBoundary || old(run).stage is PostBoundary
            || old(run).stage is InsertBoundary,
    ensures
        final(run)@.started,
        old(run).stage is FieldBoundary ==> final(run)@.stage is FieldWrite,
        old(run).stage is PostBoundary ==> final(run)@.stage is Post,
        old(run).stage is InsertBoundary ==> final(run)@.stage is Insert,
        final(run)@.kinds == old(run)@.kinds,
        final(run)@.result is None == old(run)@.result is None,
{
}

/// A field that was focused is one whose write was taken and that says so.
pub proof fn a_written_focus_goes_on(
    run: &mut KeyboardDispatch,
    status: i32,
    restored: Result<Option<bool>, i32>,
    signal: Option<SettlementSignal>,
)
    requires
        call_ensures(
            KeyboardDispatch::advance,
            (run, KeyboardEvent::FieldWritten { status, restored }),
            signal,
        ),
        old(run)@.wf(),
        old(run).stage is FieldWrite,
    ensures
        final(run)@.result is None <==> status == 0 && restored == Ok::<_, i32>(Some(true)),
        final(run)@.result is None ==> final(run)@.focus_write
            && if old(run).action is UnicodeInsertion {
            final(run)@.stage is Sequence
        } else {
            final(run)@.stage is PostBoundary
        },
        final(run)@.result is Some ==> final(run)@.result->0 is Err,
{
}

/// Posted events end a chord well, without a claim that they arrived. Typed text is
/// read back first where that is possible.
pub proof fn posted_events_end_a_chord(
    run: &mut KeyboardDispatch,
    signal: Option<SettlementSignal>,
)
    requires
        call_ensures(KeyboardDispatch::advance, (run, KeyboardEvent::Posted), signal),
        old(run)@.wf(),
        old(run).stage is Post,
    ensures
        old(run).action is FocusedChord || old(run).action is ApplicationChord ==> {
            &&& final(run)@.stage is Done
            &&& final(run)@.result is Some && final(run)@.result->0 is Ok
            &&& final(run)@.result->0->Ok_0.verification == VerificationLevel::DispatchUnverified
        },
        old(run).action is UnicodeInsertion && old(run).action->readback is Some
            ==> final(run)@.stage is ReadBack && final(run)@.result is None,
        old(run).action is UnicodeInsertion && old(run).action->readback is None
            ==> final(run)@.stage is Done && final(run)@.result->0 is Ok,
        signal is None,
{
}

/// An insertion that was taken is read back; one that was not fails.
pub proof fn a_taken_insertion_is_read_back(
    run: &mut KeyboardDispatch,
    status: i32,
    signal: Option<SettlementSignal>,
)
    requires
        call_ensures(KeyboardDispatch::advance, (run, KeyboardEvent::TextWritten { status }), signal),
        old(run)@.wf(),
        old(run).stage is Insert,
    ensures
        status == 0 ==> final(run)@.stage is ReadBack && final(run)@.result is None,
        status != 0 ==> final(run)@.stage is Done && final(run)@.result->0 is Err,
{
}

/// An insertion through the control succeeds exactly where the value and the cursor
/// read back as expected.
pub proof fn an_insertion_ends_with_its_readback(
    run: &mut KeyboardDispatch,
    value: Result<Option<String>, i32>,
    selection: Result<Option<AxCfRange>, i32>,
    signal: Option<SettlementSignal>,
)
    requires
        call_ensures(
            KeyboardDispatch::advance,
            (run, KeyboardEvent::ReadBack { value, selection }),
            signal,
        ),
        old(run)@.wf(),
        old(run).stage is ReadBack,
        old(run).action is SemanticInsertion,
    ensures
        final(run)@.stage is Done,
        final(run)@.result is Some,
        final(run)@.result->0 is Ok <==> value is Ok && selection is Ok && text::optional_text(
            value->Ok_0,
        ) == Some(old(run).action->expected.value@) && selection->Ok_0 == Some(
            old(run).action->expected.selection,
        ),
        final(run)@.result->0 is Ok ==> final(run)@.result->0->Ok_0.verification
            == VerificationLevel::EffectVerified,
        signal is Some <==> value is Ok && selection is Ok,
{
}

/// Typed events end well whatever is read back, and stay unverified.
pub proof fn typed_text_ends_with_its_readback(
    run: &mut KeyboardDispatch,
    value: Result<Option<String>, i32>,
    selection: Result<Option<AxCfRange>, i32>,
    signal: Option<SettlementSignal>,
)
    requires
        call_ensures(
            KeyboardDispatch::advance,
            (run, KeyboardEvent::ReadBack { value, selection }),
            signal,
        ),
        old(run)@.wf(),
        old(run).stage is ReadBack,
        old(run).action is UnicodeInsertion,
    ensures
        final(run)@.stage is Done,
        final(run)@.result is Some && final(run)@.result->0 is Ok,
        final(run)@.result->0->Ok_0.verification == VerificationLevel::DispatchUnverified,
        signal is Some <==> value is Ok && selection is Ok,
{
}

/// An action starts with its validation, with nothing done.
pub proof fn keys_start_with_validation(
    action: MacPreparedKeyboardAction,
    deadline: u64,
    run: KeyboardDispatch,
)
    requires
        call_ensures(KeyboardDispatch::begin, (action, deadline), run),
    ensures
        run@.stage is Validate,
        run@.action == action && run@.deadline == deadline,
        !run@.started && !run@.focus_write && run@.result is None && run@.kinds.len() == 0,
{
}

/// An element that was found again is acted on only where nothing was signalled
/// since. A scroll of no pages is done at once.
pub proof fn a_refetched_element_is_acted_on(
    run: &mut SemanticDispatch,
    element: Result<crate::driver::snapshot::RetainedAxElement, NativeError>,
    epoch: u64,
    signals: Vec<SettlementSignal>,
)
    requires
        call_ensures(
            SemanticDispatch::advance,
            (run, SemanticEvent::Refetched { element, epoch }),
            signals,
        ),
        old(run)@.wf(),
        old(run).stage is Refetch,
    ensures
        element is Err ==> final(run)@.result == Some(
            Err::<crate::driver::actions::DispatchView, _>(element->Err_0@),
        ),
        element is Ok && epoch != old(run).epoch ==> final(run)@.result is Some
            && final(run)@.result->0 is Err,
        element is Ok && epoch == old(run).epoch && !(old(run).kind is PageScroll
            && old(run).kind->pages == 0) ==> final(run)@.stage is Boundary
            && final(run)@.result is None,
        element is Ok && epoch == old(run).epoch && old(run).kind is PageScroll
            && old(run).kind->pages == 0 ==> final(run)@.stage is Done
            && final(run)@.result->0 is Ok,
        signals@.len() == 0,
{
}

/// A boundary that was refused fails the action as it was refused.
pub proof fn a_refused_boundary_fails_the_action(
    run: &mut SemanticDispatch,
    entered: Result<(), NativeError>,
    signals: Vec<SettlementSignal>,
)
    requires
        call_ensures(
            SemanticDispatch::advance,
            (run, SemanticEvent::BoundaryEntered(entered)),
            signals,
        ),
        old(run).stage is Boundary,
    ensures
        entered is Ok ==> final(run)@.stage is Native && final(run)@.result == old(run)@.result,
        entered is Err ==> final(run)@.stage is Done && final(run)@.result == Some(
            Err::<crate::driver::actions::DispatchView, _>(entered->Err_0@),
        ),
        final(run)@.completed == old(run)@.completed,
{
}

/// An action that was taken and touches no menu is done; one that was refused
/// fails, but for an open whose title is looked at.
pub proof fn a_performed_action_is_done(
    run: &mut SemanticDispatch,
    status: i32,
    signals: Vec<SettlementSignal>,
)
    requires
        call_ensures(SemanticDispatch::advance, (run, SemanticEvent::Performed { status }), signals),
        old(run)@.wf(),
        old(run).stage is Native,
        old(run).kind is AxAction,
    ensures
        status == 0 && old(run).intent is None ==> final(run)@.stage is Done
            && final(run)@.result->0 is Ok && final(run)@.result->0->Ok_0.verification
            == VerificationLevel::DispatchVerified,
        status == 0 && old(run).intent is Some ==> final(run)@.stage is Arm
            && final(run)@.result is None,
        status == -25205 && old(run).kind->open_verification is Some
            ==> final(run)@.stage is OpenTitle && final(run)@.result is None,
        status != 0 && !(status == -25205 && old(run).kind->open_verification is Some)
            ==> final(run)@.stage is Done && final(run)@.result->0 is Err,
        signals@.contains(SettlementSignal::AxAction) <==> status == 0,
{
    if status == 0 {
        assert(signals@[0] == SettlementSignal::AxAction);
    }
}

/// A page that was taken is counted, and the last one ends the scroll well; one
/// that was refused fails it.
pub proof fn a_scroll_goes_on_page_by_page(
    run: &mut SemanticDispatch,
    status: i32,
    signals: Vec<SettlementSignal>,
)
    requires
        call_ensures(SemanticDispatch::advance, (run, SemanticEvent::Performed { status }), signals),
        old(run)@.wf(),
        old(run).stage is Native,
        old(run).kind is PageScroll,
    ensures
        status == 0 ==> final(run)@.completed == old(run)@.completed + 1,
        status != 0 ==> final(run)@.completed == old(run)@.completed
            && final(run)@.stage is Done && final(run)@.result->0 is Err,
        status == 0 && final(run)@.completed == old(run).kind->pages
            ==> final(run)@.stage is Done && final(run)@.result->0 is Ok,
        status == 0 && final(run)@.completed != old(run).kind->pages
            ==> final(run)@.stage is Boundary && final(run)@.result is None,
{
}

/// A value is written where it reads back, in the run of the action too.
pub proof fn a_written_value_ends_the_action(
    run: &mut SemanticDispatch,
    status: i32,
    readback: Result<Option<String>, i32>,
    signals: Vec<SettlementSignal>,
)
    requires
        call_ensures(
            SemanticDispatch::advance,
            (run, SemanticEvent::ValueWritten { status, readback }),
            signals,
        ),
        old(run)@.wf(),
        old(run).stage is Native,
        old(run).kind is SetValue,
    ensures
        final(run)@.stage is Done,
        final(run)@.result is Some,
        final(run)@.result->0 is Ok <==> status == 0 && readback is Ok && text::optional_text(
            readback->Ok_0,
        ) == Some(old(run).kind->value@),
        final(run)@.result->0 is Ok ==> final(run)@.result->0->Ok_0.verification
            == VerificationLevel::EffectVerified,
{
}

/// A selection is made where it reads back, in the run of the action too.
pub proof fn a_written_selection_ends_the_action(
    run: &mut SemanticDispatch,
    status: i32,
    range: Result<Option<AxCfRange>, i32>,
    selected: Result<Option<String>, i32>,
    signals: Vec<SettlementSignal>,
)
    requires
        call_ensures(
            SemanticDispatch::advance,
            (run, SemanticEvent::SelectionWritten { status, range, text: selected }),
            signals,
        ),
        old(run)@.wf(),
        old(run).stage is Native,
        old(run).kind is SelectText,
    ensures
        final(run)@.stage is Done,
        final(run)@.result is Some,
        final(run)@.result->0 is Ok <==> status == 0 && range == Ok::<_, i32>(
            Some(old(run).kind->range),
        ) && selected is Ok && text::optional_text(selected->Ok_0) == Some(
            old(run).kind->expected_text@,
        ),
{
}

/// A failed open succeeds after all where the expected title appears, and fails
/// when time is up.
pub proof fn an_open_may_show_by_its_title(
    run: &mut SemanticDispatch,
    title: Option<String>,
    now: u64,
    signals: Vec<SettlementSignal>,
)
    requires
        call_ensures(SemanticDispatch::advance, (run, SemanticEvent::Title { title, now }), signals),
        old(run)@.wf(),
        old(run).stage is OpenTitle,
        old(run).intent is None,
    ensures
        ({
            let verification = old(run).kind->open_verification->0;
            let seen = text::optional_text(title) == Some(verification.expected_title@)
                && verification.prior_title@ != verification.expected_title@;
            &&& final(run)@.result is Some <==> seen || now >= old(run).deadline
            &&& final(run)@.result is Some ==> (final(run)@.result->0 is Ok <==> seen)
            &&& final(run)@.result is None ==> final(run)@.stage is OpenTitle
        }),
{
}

/// A menu that could not be armed leaves a target that cannot be trusted.
pub proof fn an_unarmed_menu_ends_the_trust(
    run: &mut SemanticDispatch,
    armed: Result<(), NativeError>,
    signals: Vec<SettlementSignal>,
)
    requires
        call_ensures(SemanticDispatch::advance, (run, SemanticEvent::Armed(armed)), signals),
        old(run)@.wf(),
        old(run).stage is Arm,
    ensures
        armed is Err ==> final(run)@.stage is Done && final(run)@.invalidates_target
            && final(run)@.result->0 is Err && final(run)@.result->0->Err_0.message
            == armed->Err_0.message@,
        armed is Ok ==> final(run)@.invalidates_target == old(run)@.invalidates_target,
        armed is Ok && old(run).intent->0 is Opening && old(run).kind->opens_menu
            ==> final(run)@.stage is OpenedMenu,
        armed is Ok && old(run).intent->0 is Targeting && !old(run).kind->opens_menu
            ==> final(run)@.stage is MenuReaction,
        armed is Ok && (old(run).intent->0 is Opening) != old(run).kind->opens_menu
            ==> final(run)@.stage is Done && final(run)@.result->0 is Err,
{
}

/// A menu action ends with the menu that is found: opened, still there, or gone.
pub proof fn a_menu_action_ends_with_its_menu(
    run: &mut SemanticDispatch,
    found: Option<NativeMenuIdentity>,
    now: u64,
    signals: Vec<SettlementSignal>,
)
    requires
        call_ensures(
            SemanticDispatch::advance,
            (run, SemanticEvent::MenuLooked { found: Ok::<_, NativeError>(found), now }),
            signals,
        ),
        old(run)@.wf(),
        old(run).stage is OpenedMenu || old(run).stage is MenuReaction,
    ensures
        old(run).stage is OpenedMenu && found is Some ==> final(run)@.menu == Some(
            (MenuOutcome::Opened, found->0),
        ) && final(run)@.result->0 is Ok && signals@ == seq![SettlementSignal::MenuOpened],
        old(run).stage is OpenedMenu && found is None && now >= old(run).deadline
            ==> final(run)@.result->0 is Err,
        old(run).stage is OpenedMenu && found is None && now < old(run).deadline
            ==> final(run)@.stage is OpenedMenu && final(run)@.result is None,
        old(run).stage is MenuReaction && found is Some ==> final(run)@.menu == Some(
            (MenuOutcome::Targeted, found->0),
        ) && final(run)@.result->0 is Ok && signals@.len() == 0,
        old(run).stage is MenuReaction && found is None ==> final(run)@.menu is Some
            && final(run)@.result->0 is Ok && signals@ == seq![SettlementSignal::MenuDismissed],
{
}

/// An action is begun only on the target that it was prepared for, at the epoch
/// that it was prepared at.
pub proof fn an_action_begins_on_its_own_target(
    prepared: MacPreparedSemanticAction,
    invalidated: bool,
    target: &ResolvedWindowStamp,
    owner: &ResolvedWindowStamp,
    window: &ResolvedWindowStamp,
    epoch: u64,
    intent: Option<MenuMutationIntent>,
    deadline: u64,
    run: Result<SemanticDispatch, NativeError>,
)
    requires
        call_ensures(
            SemanticDispatch::begin,
            (prepared, invalidated, target, owner, window, epoch, intent, deadline),
            run,
        ),
    ensures
        run is Ok <==> !invalidated && owner@ == target@ && window@ == target@ && epoch
            == prepared.signal_epoch,
        run is Ok ==> {
            &&& run->Ok_0@.kind == prepared.kind
            &&& run->Ok_0@.intent == intent
            &&& run->Ok_0@.stage is Refetch
            &&& run->Ok_0@.completed == 0
            &&& run->Ok_0@.result is None
        },
{
}

/// A pointer sequence is begun only on the target that it was prepared for.
pub proof fn a_sequence_begins_on_its_own_target(
    prepared: MacPreparedPointerAction,
    invalidated: bool,
    target: &ResolvedWindowStamp,
    owner: &ResolvedWindowStamp,
    intent: Option<MenuMutationIntent>,
    deadline: u64,
    run: Result<PointerDispatch, NativeError>,
)
    requires
        call_ensures(
            PointerDispatch::begin,
            (prepared, invalidated, target, owner, intent, deadline),
            run,
        ),
    ensures
        run is Ok <==> !invalidated && owner@ == target@,
        run is Ok ==> {
            &&& run->Ok_0@.sequence == prepared.sequence
            &&& run->Ok_0@.stage is Validate
            &&& run->Ok_0@.result is None
            &&& !run->Ok_0@.boundary_started && !run->Ok_0@.invalidates_target
            &&& run->Ok_0@.cursor is None
        },
{
}

/// An event is posted at its time, counted from the start of the sequence, and not
/// at all where that is too late.
pub proof fn an_event_waits_for_its_time(
    run: &mut PointerDispatch,
    now: u64,
    signals: Vec<SettlementSignal>,
)
    requires
        call_ensures(PointerDispatch::advance, (run, PointerEvent::Clock { now }), signals),
        old(run)@.wf(),
        old(run).stage is Schedule,
    ensures
        ({
            let due = old(run)@.run.started_at + old(run)@.events()[old(run)@.completed() as int].after() * 1_000_000;
            &&& final(run)@.stage is Post <==> now <= old(run).deadline && due <= old(run).deadline
            &&& final(run)@.stage is Post && due > now ==> now + final(run)@.stage->wait == due
            &&& final(run)@.stage is Post && due <= now ==> final(run)@.stage->wait == 0
        }),
        signals@.len() == 0,
{
}

/// An event that was posted counts, and the last one completes the sequence.
pub proof fn posted_events_complete_the_sequence(
    run: &mut PointerDispatch,
    boundary_started: bool,
    signals: Vec<SettlementSignal>,
)
    requires
        call_ensures(
            PointerDispatch::advance,
            (run, PointerEvent::Posted { outcome: Ok::<(), NativeError>(()), boundary_started }),
            signals,
        ),
        old(run)@.wf(),
        old(run).stage is Post,
    ensures
        final(run)@.completed() == old(run)@.completed() + 1,
        final(run)@.completed() < old(run)@.events().len() ==> final(run)@.stage is Schedule
            && final(run)@.result is None,
        final(run)@.completed() == old(run)@.events().len() && old(run).intent is None
            ==> final(run)@.stage is Done && final(run)@.result->0 is Ok && signals@ == seq![
            SettlementSignal::PointerSequenceComplete,
        ],
        final(run)@.completed() == old(run)@.events().len() && old(run).intent is Some
            && old(run).intent->0 is Dismissing ==> final(run)@.stage is DismissedMenu,
        final(run)@.completed() == old(run)@.events().len() && old(run).intent is Some
            && !(old(run).intent->0 is Dismissing) ==> final(run)@.stage is Arm,
{
    assert(old(run).sequence.events.len() == old(run).sequence.events@.len());
    assert(old(run)@.events().len() == old(run).sequence.events@.len());
}

/// Where a post fails while a button may be down, the button is let go; where none
/// can be, the sequence fails as the post did.
pub proof fn a_failed_post_lets_the_button_go(
    run: &mut PointerDispatch,
    error: NativeError,
    boundary_started: bool,
    signals: Vec<SettlementSignal>,
)
    requires
        call_ensures(
            PointerDispatch::advance,
            (
                run,
                PointerEvent::Posted { outcome: Err::<(), NativeError>(error), boundary_started },
            ),
            signals,
        ),
        old(run)@.wf(),
        old(run).stage is Post,
    ensures
        final(run)@.stage is Release || final(run)@.stage is Done,
        final(run)@.stage is Release ==> final(run)@.failure == Some(error@) && (
        boundary_started || old(run)@.completed() > 0),
        final(run)@.stage is Done ==> final(run)@.result->0 is Err
            && final(run)@.result->0->Err_0.message == error@.message
            && final(run)@.result->0->Err_0.code == error@.code,
        !boundary_started && old(run)@.completed() == 0 ==> final(run)@.stage is Done,
        final(run)@.completed() == old(run)@.completed(),
        signals@.len() == 0,
{
}

/// A button that could not be let go leaves a target that cannot be trusted.
pub proof fn a_stuck_button_ends_the_trust(
    run: &mut PointerDispatch,
    posted: bool,
    signals: Vec<SettlementSignal>,
)
    requires
        call_ensures(PointerDispatch::advance, (run, PointerEvent::Released { posted }), signals),
        old(run)@.wf(),
        old(run).stage is Release,
    ensures
        final(run)@.stage is Done,
        final(run)@.result is Some && final(run)@.result->0 is Err,
        final(run)@.result->0->Err_0.message == old(run)@.failure->0.message,
        final(run)@.invalidates_target <==> !posted,
        final(run)@.run.pressed is None,
        signals@.len() == 0,
{
}

/// A pointer action that waits for a menu ends with what became of the menu.
pub proof fn a_pointer_action_ends_with_its_menu(
    run: &mut PointerDispatch,
    found: Option<NativeMenuIdentity>,
    now: u64,
    signals: Vec<SettlementSignal>,
)
    requires
        call_ensures(
            PointerDispatch::advance,
            (run, PointerEvent::MenuLooked { found: Ok::<_, NativeError>(found), now }),
            signals,
        ),
        old(run)@.wf(),
        old(run).stage is OpenedMenu || old(run).stage is MenuReaction
            || old(run).stage is DismissedMenu,
    ensures
        old(run).stage is OpenedMenu && found is Some ==> final(run)@.menu == Some(
            (MenuOutcome::Opened, found->0),
        ) && final(run)@.result->0 is Ok && signals@[0] == SettlementSignal::MenuOpened,
        old(run).stage is OpenedMenu && found is None ==> (final(run)@.result is Some
            <==> now >= old(run).deadline),
        old(run).stage is OpenedMenu && found is None && final(run)@.result is Some
            ==> final(run)@.result->0 is Err,
        old(run).stage is MenuReaction && found is Some ==> final(run)@.menu == Some(
            (MenuOutcome::Targeted, found->0),
        ) && final(run)@.result->0 is Ok,
        old(run).stage is MenuReaction && found is None ==> final(run)@.menu is Some
            && final(run)@.result->0 is Ok && signals@[0] == SettlementSignal::MenuDismissed,
        old(run).stage is DismissedMenu && found is None ==> final(run)@.result is Some
            && final(run)@.result->0 is Ok && signals@[0] == SettlementSignal::MenuDismissed,
        old(run).stage is DismissedMenu && found is Some ==> (final(run)@.result is Some
            <==> now >= old(run).deadline),
        old(run).stage is DismissedMenu && found is Some && final(run)@.result is Some
            ==> final(run)@.result->0 is Err,
        final(run)@.result is Some && final(run)@.result->0 is Ok ==> final(run)@.cursor == Some(
            EventPoint::End,
        ) && signals@.last() == SettlementSignal::PointerSequenceComplete,
{
}

/// Validation starts the clock of the sequence, or fails it.
pub proof fn validation_starts_the_sequence(
    run: &mut PointerDispatch,
    outcome: Result<(), NativeError>,
    now: u64,
    signals: Vec<SettlementSignal>,
)
    requires
        call_ensures(
            PointerDispatch::advance,
            (run, PointerEvent::Validated { outcome, now }),
            signals,
        ),
        old(run)@.wf(),
        old(run).stage is Validate,
    ensures
        outcome is Err ==> final(run)@.stage is Done && final(run)@.result == Some(
            Err::<crate::driver::actions::DispatchView, _>(outcome->Err_0@),
        ),
        outcome is Ok && old(run)@.events().len() > 0 ==> final(run)@.stage is Schedule
            && final(run)@.run.started_at == now && final(run)@.completed() == 0
            && final(run)@.run.pressed is None,
{
    assert(old(run)@.events().len() == old(run).sequence.events@.len());
}

} // verus!
