//! What is kept between calls: scopes, signals, focus states and targets.
use vstd::prelude::*;

use crate::background_mutation;
use crate::background_mutation::{
    DispatchConflict, DispatchPermit, DispatchRegistry, DispatchScope,
};
use crate::contracts::{ResolvedWindowStamp, SettlementSignal};
use crate::driver::focus::TargetFocusRun;
use crate::driver::interaction::{
    MacNativeScopePlan, MacScopeCleanup, MenuMutationIntent,
    ScopeAcquisition, ScopeTarget,
};
use crate::driver::interaction;
use crate::driver::observation::MacWindowFacts;
use crate::driver::observer;
use crate::driver::posture;
use crate::driver::posture::{PostureProofState, PostureSample, SuppressionCloseOutcome};
use crate::driver::settlement;
use crate::driver::settlement::{
    DirtyState, MacSignalJournal, PendingSettlementEvidence, RecordedSignal, SignalSet,
};
use crate::driver::snapshot::{AxWalk, RetainedAxElement, WalkFrame};
use crate::driver::target;
use crate::driver::target::{MacFocusState, MacFocusStateRegistry, MacTargetState};
use crate::errors::{ErrorCode, ErrorPhase, NativeError};
use crate::text;

verus! {

/// A scope is given where it meets none that is held, and a refusal names one that it
/// meets.
pub proof fn a_scope_is_given_where_it_meets_none(
    registry: &mut DispatchRegistry,
    scope: DispatchScope,
    outcome: Result<DispatchPermit, DispatchConflict>,
    held: DispatchScope,
)
    requires
        call_ensures(DispatchRegistry::try_acquire, (registry, scope), outcome),
    ensures
        old(registry)@.contains(held) && held.conflicts(scope) ==> outcome is Err,
        outcome is Ok ==> outcome->Ok_0.owned() == scope && final(registry)@.contains(scope),
        outcome is Ok && old(registry)@.contains(held) ==> final(registry)@.contains(held),
        outcome is Err ==> final(registry)@ == old(registry)@,
        outcome is Err ==> outcome->Err_0.requested == scope && old(registry)@.contains(
            outcome->Err_0.held,
        ) && outcome->Err_0.held.conflicts(scope),
{
}

/// A new register holds nothing, and a permit is of its own scope.
pub proof fn a_new_register_holds_nothing(
    registry: DispatchRegistry,
    permit: &DispatchPermit,
    scope: DispatchScope,
    held: DispatchScope,
)
    requires
        call_ensures(DispatchRegistry::new, (), registry),
        call_ensures(DispatchPermit::scope, (permit,), scope),
    ensures
        !registry@.contains(held),
        scope == permit.owned(),
{
}

/// Scopes say what they are and of whom.
pub proof fn scopes_say_what_they_are(scope: DispatchScope, kind: &'static str, identity: String)
    requires
        call_ensures(DispatchScope::kind, (scope,), kind),
        call_ensures(DispatchScope::identity, (scope,), identity),
    ensures
        scope is Target ==> kind@ == "target"@ && identity@ == text::signed_decimal(
            scope->pid as int,
        ) + ":"@ + text::decimal(scope->window_id as nat),
        scope is Process ==> kind@ == "process"@ && identity@ == text::signed_decimal(
            scope->Process_0 as int,
        ),
        scope is Desktop ==> kind@ == "desktop"@ && identity@ == "desktop"@,
{
    reveal_strlit(":");
    assert(":"@ =~= seq![':']);
}

/// A task holds the process that it holds and no other.
pub proof fn a_task_holds_its_own_process(held_pid: Option<i32>, pid: i32, held: bool)
    requires
        call_ensures(background_mutation::held_by_current_task, (held_pid, pid), held),
    ensures
        held <==> held_pid is Some && held_pid->0 == pid,
{
}

/// A set of signals has what was put in, and nothing else.
pub proof fn a_signal_set_has_what_was_put_in(
    set: &mut SignalSet,
    signal: SettlementSignal,
    other: SettlementSignal,
    empty: SignalSet,
    looked: &SignalSet,
    found: bool,
    whole: &SignalSet,
    subset: bool,
)
    requires
        call_ensures(SignalSet::insert, (set, signal), ()),
        call_ensures(SignalSet::new, (), empty),
        call_ensures(SignalSet::contains, (looked, signal), found),
        call_ensures(SignalSet::is_subset, (looked, whole), subset),
    ensures
        final(set)@.contains(signal),
        other != signal ==> (final(set)@.contains(other) <==> old(set)@.contains(other)),
        !empty@.contains(other),
        found <==> looked@.contains(signal),
        subset && found ==> whole@.contains(signal),
        looked@ == whole@ ==> subset,
{
}

/// A list of signals has the signals of the set, each once, in their order.
pub proof fn a_list_of_signals_has_those_of_the_set(
    set: &SignalSet,
    list: Vec<SettlementSignal>,
    i: int,
)
    requires
        call_ensures(SignalSet::list, (set,), list),
        0 <= i < list@.len(),
    ensures
        set@.contains(list@[i]),
        list@.len() <= 13,
{
    kept_signals_are_of_the_set(settlement::all_signals(), set@, i);
    assert(settlement::all_signals().len() == 13);
}

proof fn kept_signals_are_of_the_set(
    signals: Seq<SettlementSignal>,
    set: Set<SettlementSignal>,
    i: int,
)
    ensures
        0 <= i < settlement::kept(signals, set).len() ==> set.contains(
            settlement::kept(signals, set)[i],
        ),
        settlement::kept(signals, set).len() <= signals.len(),
    decreases signals.len(),
{
    if signals.len() > 0 {
        kept_signals_are_of_the_set(signals.drop_last(), set, i);
    }
}

/// A journal starts empty, and its latest signal is the last one recorded.
pub proof fn a_journal_tells_its_latest_signal(
    fresh: MacSignalJournal,
    journal: &MacSignalJournal,
    epoch: u64,
    latest: Option<SettlementSignal>,
)
    requires
        call_ensures(MacSignalJournal::new, (), fresh),
        call_ensures(MacSignalJournal::epoch, (journal,), epoch),
        call_ensures(MacSignalJournal::latest_signal, (journal,), latest),
    ensures
        fresh@.len() == 0,
        fresh.mutations() == 0,
        epoch == journal.mutations(),
        latest is Some <==> journal@.len() > 0,
        latest is Some ==> latest->0 == journal@.last().signal,
{
}

/// What is handed out since a time was recorded since that time.
pub proof fn records_since_a_time_are_no_older(
    journal: &MacSignalJournal,
    since: u64,
    records: Vec<RecordedSignal>,
    i: int,
)
    requires
        call_ensures(MacSignalJournal::snapshot_since, (journal, since), records),
    ensures
        0 <= i < records@.len() ==> records@[i].at >= since && journal@.contains(records@[i]),
        0 <= i < journal@.len() && journal@[i].at >= since ==> records@.contains(journal@[i]),
{
    since_keeps(journal@, since, i);
}

proof fn since_keeps(records: Seq<RecordedSignal>, since: u64, i: int)
    ensures
        ({
            let kept = settlement::records_since(records, since);
            &&& 0 <= i < kept.len() ==> kept[i].at >= since && records.contains(kept[i])
            &&& 0 <= i < records.len() && records[i].at >= since ==> kept.contains(records[i])
        }),
    decreases records.len(),
{
    if records.len() > 0 {
        let shorter = records.drop_last();
        let before = settlement::records_since(shorter, since);
        let kept = settlement::records_since(records, since);
        since_keeps(shorter, since, i);
        assert(records[records.len() - 1] == records.last());
        if 0 <= i < kept.len() {
            if i < before.len() {
                assert(kept[i] == before[i]);
                let k = choose|k: int| 0 <= k < shorter.len() && shorter[k] == before[i];
                assert(records[k] == before[i]);
            } else {
                assert(kept[i] == records.last());
            }
        }
        if 0 <= i < records.len() && records[i].at >= since {
            if i < shorter.len() {
                assert(shorter[i] == records[i]);
                let k = choose|k: int| 0 <= k < before.len() && before[k] == records[i];
                assert(kept[k] == records[i]);
            } else {
                assert(kept[kept.len() - 1] == records.last());
            }
        }
    }
}

/// The latest relevant signal is one, and none is later.
pub proof fn the_latest_relevant_signal_is_the_latest(
    records: &Vec<RecordedSignal>,
    relevant: &SignalSet,
    latest: Option<u64>,
    i: int,
)
    requires
        call_ensures(settlement::latest_relevant_signal, (records, relevant), latest),
        0 <= i < records@.len(),
        relevant@.contains(records@[i].signal),
    ensures
        latest is Some && records@[i].at <= latest->0,
{
}

/// What is pending tells whose it is, how long it took and what it still misses.
pub proof fn what_settles_tells_what_it_misses(
    dirty: &DirtyState,
    observed: SignalSet,
    now: u64,
    pending: PendingSettlementEvidence,
)
    requires
        call_ensures(settlement::pending_evidence, (dirty, observed, now), pending),
    ensures
        pending.trigger_action_id@ == dirty.action_id@,
        pending.profile@ == dirty.profile.name@,
        dirty.since <= now ==> pending.elapsed_ms == (now - dirty.since) / 1_000_000,
        !observed@.contains(SettlementSignal::DispatchComplete)
            ==> pending.missing_signals@.contains(SettlementSignal::DispatchComplete),
{
    if !observed@.contains(SettlementSignal::DispatchComplete) {
        let missing = pending.missing_signals@;
        assert(missing[missing.len() - 1] == SettlementSignal::DispatchComplete);
    }
}

/// Observed elements are the same where they are the same in the same order.
pub proof fn observed_elements_are_compared_in_order(
    left: &Vec<u64>,
    right: &Vec<u64>,
    same: bool,
    message: &str,
    error: NativeError,
)
    requires
        call_ensures(settlement::same_observed_elements, (left, right), same),
        call_ensures(settlement::observer_error, (message,), error),
    ensures
        same <==> left@ == right@,
        error.code == ErrorCode::Internal && error.phase == ErrorPhase::Preflight
            && error.retryable && error.message@ == message@,
{
    assert(error@.code == error.code);
}

/// All windows of a process share its one state; a new process gets a fresh one, and
/// the others stay as they are.
pub proof fn a_process_has_one_focus_state(
    registry: &mut MacFocusStateRegistry,
    process: &str,
    pid: i32,
    window: u32,
    frontmost: Option<i32>,
    slot: usize,
    i: int,
)
    requires
        call_ensures(
            MacFocusStateRegistry::state_for,
            (registry, process, pid, window, frontmost),
            slot,
        ),
        0 <= i < old(registry).len(),
    ensures
        final(registry).process(slot as int) == process@,
        final(registry).process(i) == old(registry).process(i),
        final(registry).state(i) == old(registry).state(i),
        old(registry).process(i) == process@ ==> final(registry).len() == old(registry).len(),
        final(registry).len() <= old(registry).len() + 1,
{
    assert(final(registry).process(i) == old(registry).process(i));
    if old(registry).process(i) == process@ {
        assert(old(registry).knows(process@));
    }
}

/// A fresh state believes of the application what is true of it.
pub proof fn a_fresh_process_gets_a_fresh_state(
    registry: &mut MacFocusStateRegistry,
    process: &str,
    pid: i32,
    window: u32,
    frontmost: Option<i32>,
    slot: usize,
)
    requires
        call_ensures(
            MacFocusStateRegistry::state_for,
            (registry, process, pid, window, frontmost),
            slot,
        ),
        old(registry).len() == 0,
    ensures
        slot == 0,
        final(registry).len() == 1,
        final(registry).state(0).belief().pid == pid,
        final(registry).state(0).belief().cg_window_id == window,
        final(registry).state(0).belief().active <==> frontmost is Some && frontmost->0 == pid,
        !final(registry).state(0).belief().shutdown,
        !final(registry).state(0).menu().enabled,
{
}

/// A new target has nothing recorded, nothing registered and nothing spoilt.
pub proof fn a_new_target_is_clean(
    window: ResolvedWindowStamp,
    state: MacTargetState,
    looked: &MacTargetState,
    invalidated: bool,
    outcome: Result<(), NativeError>,
)
    requires
        call_ensures(MacTargetState::new, (window,), state),
        call_ensures(MacTargetState::invalidated, (looked,), invalidated),
        call_ensures(MacTargetState::observes_descendants, (looked,), outcome),
    ensures
        state.window == window,
        state.observing && !state.poisoned,
        state.signals@.len() == 0 && state.elements@.len() == 0,
        invalidated <==> looked.poisoned,
        outcome is Ok <==> looked.observing,
        outcome is Err ==> outcome->Err_0.code == ErrorCode::WindowIdentityChanged
            && outcome->Err_0.retryable,
{
    if outcome is Err {
        assert(outcome->Err_0@.code == outcome->Err_0.code);
    }
}

/// A target is told of its focus where the state is its own and not shut down, and of
/// nothing that it believes already.
pub proof fn a_target_is_told_what_it_does_not_believe(
    state: &mut MacFocusState,
    pid: i32,
    window: u32,
    active: bool,
    deadline: u64,
    run: Result<TargetFocusRun, NativeError>,
)
    requires
        call_ensures(TargetFocusRun::begin, (state, pid, window, active, deadline), run),
    ensures
        run is Ok <==> !old(state).shutdown && old(state).pid == pid && old(state).cg_window_id
            == window,
        run is Err ==> run->Err_0.code == ErrorCode::WindowIdentityChanged && run->Err_0.retryable,
        run is Err ==> final(state).belief() == old(state).belief(),
        final(state).menu() == old(state).menu(),
{
    if run is Err {
        assert(run->Err_0@.code == run->Err_0.code);
    }
}

/// A scope is bound to a menu where the facts and the process are still the same, and
/// to the menu that was asked for.
pub proof fn a_scope_is_bound_to_its_menu(
    plan: MacNativeScopePlan,
    asked: &ScopeTarget<'_>,
    live: &MacWindowFacts,
    intent: &Option<MenuMutationIntent>,
    action_id: &str,
    required: bool,
    bound: Result<MacNativeScopePlan, NativeError>,
)
    requires
        call_ensures(
            MacNativeScopePlan::bind,
            (plan, asked, live, intent, action_id, required),
            bound,
        ),
    ensures
        bound is Ok ==> live@ == plan.facts@ && required == (*intent is Some),
        bound is Ok ==> !asked.invalidated && !asked.focus_shutdown && asked.target@
            == asked.window@ && live.stamp@ == asked.target@,
        bound is Ok ==> bound->Ok_0.facts == plan.facts && bound->Ok_0.recipe == plan.recipe,
        bound is Ok && *intent is None ==> bound->Ok_0.menu is NotApplicable,
        bound is Ok && *intent is Some && intent->0 is Opening
            ==> bound->Ok_0.menu is ExactSourcePidPredicate && bound->Ok_0.menu->target_pid
            == live.pid && bound->Ok_0.menu->menu_pid is None && bound->Ok_0.menu->menu_id@
            == intent->0->Opening_menu_id@ && bound->Ok_0.menu->action_id@ == action_id@,
        live@ != plan.facts@ ==> bound is Err,
        required != (*intent is Some) ==> bound is Err,
{
}

/// Facts that changed, and menus, are told of.
pub proof fn changed_facts_are_refused(
    unchanged: bool,
    outcome: Result<(), NativeError>,
    intent: &MenuMutationIntent,
    id: &str,
)
    requires
        call_ensures(interaction::ensure_facts_unchanged, (unchanged,), outcome),
        call_ensures(MenuMutationIntent::menu_id, (intent,), id),
    ensures
        outcome is Ok <==> unchanged,
        outcome is Err ==> outcome->Err_0.code == ErrorCode::WindowIdentityChanged
            && outcome->Err_0.retryable,
        *intent is Opening ==> id@ == intent->Opening_menu_id@,
        *intent is Targeting ==> id@ == intent->Targeting_menu_id@,
        *intent is Dismissing ==> id@ == intent->Dismissing_menu_id@,
{
    if outcome is Err {
        assert(outcome->Err_0@.code == outcome->Err_0.code);
    }
}

/// Acquiring a scope starts with accessibility, and with nothing to give back.
pub proof fn a_scope_starts_with_accessibility(
    pid: i32,
    window: u32,
    frontmost: Option<i32>,
    key: Option<bool>,
    scope: ScopeAcquisition,
    cleanup: MacScopeCleanup,
)
    requires
        call_ensures(ScopeAcquisition::begin, (pid, window, frontmost, key), scope),
        call_ensures(MacScopeCleanup::new, (pid, window, frontmost, key), cleanup),
    ensures
        scope.pending is Some && scope.pending->0 is Accessibility,
        scope.cleanup.held().len() == 0,
        scope.cleanup.target_pid == pid && scope.cleanup.target_window_id == window,
        !cleanup.accessibility && !cleanup.menu,
        cleanup.target_pid == pid && cleanup.target_window_id == window,
        cleanup.frontmost_pid_before == frontmost && cleanup.key_window_before == key,
        cleanup.failures@.len() == 0 && cleanup.outcome is None,
{
}

/// A posture is readable where all of it is, and a proof complete where every stream
/// is.
pub proof fn a_posture_is_complete_where_all_of_it_is(
    sample: PostureSample,
    readable: bool,
    state: &PostureProofState,
    complete: bool,
    fresh: PostureProofState,
    outcome: SuppressionCloseOutcome,
    message: &str,
    error: NativeError,
)
    requires
        call_ensures(PostureSample::complete, (sample,), readable),
        call_ensures(PostureProofState::complete, (state,), complete),
        call_ensures(PostureProofState::new, (), fresh),
        call_ensures(SuppressionCloseOutcome::none, (), outcome),
        call_ensures(posture::posture_preflight, (message,), error),
    ensures
        readable <==> sample.frontmost is Some && sample.key_window is Ok && sample.cursor is Ok,
        complete <==> state.workspace_stream_complete && state.ax_stream_complete
            && state.hid_stream_complete && state.containment_stream_complete,
        !fresh.frontmost_changed && !fresh.key_window_changed && !fresh.physical_cursor_moved,
        fresh.workspace_stream_complete && fresh.ax_stream_complete && fresh.hid_stream_complete
            && fresh.containment_stream_complete,
        fresh.activation_pids@.len() == 0,
        outcome.callback_queue_drained && outcome.evidence.activations == 0
            && outcome.evidence.restore_attempts == 0 && outcome.evidence.restore_failures == 0,
        error.code == ErrorCode::PostureUnverifiable && error.phase == ErrorPhase::Preflight
            && error.retryable,
{
    assert(error@.code == error.code);
}

/// The next element that is read was waiting, is within the bounds and was not read
/// before.
pub proof fn the_next_element_was_not_read_before(walk: &mut AxWalk, frame: Option<WalkFrame>)
    requires
        call_ensures(AxWalk::next, (walk,), frame),
    ensures
        frame is Some ==> old(walk).pending@.contains(frame->0),
        frame is Some ==> frame->0.depth <= 64 && old(walk).nodes@.len() < 2_000,
        frame is Some ==> !old(walk).visited@.contains(frame->0.element.address)
            && final(walk).visited@.contains(frame->0.element.address),
        frame is None ==> final(walk).pending@.len() == 0,
        old(walk).truncated ==> final(walk).truncated,
        final(walk).nodes == old(walk).nodes,
{
}

/// An element that waits last and lies within the bounds is read next; one beyond
/// them marks the walk as cut short.
pub proof fn the_last_waiting_element_is_read_next(walk: &mut AxWalk, frame: Option<WalkFrame>)
    requires
        call_ensures(AxWalk::next, (walk,), frame),
        old(walk).pending@.len() > 0,
    ensures
        ({
            let last = old(walk).pending@.last();
            let within = last.depth <= 64 && old(walk).nodes@.len() < 2_000;
            &&& within && !old(walk).visited@.contains(last.element.address) ==> frame == Some(last)
            &&& !within ==> final(walk).truncated
        }),
{
    let last = old(walk).pending@.len() - 1;
    assert(old(walk).pending@[last] == old(walk).pending@.last());
    if !(old(walk).pending@.last().depth <= 64 && old(walk).nodes@.len() < 2_000) {
        assert(old(walk).beyond(old(walk).pending@[last]));
        assert(!old(walk).admits(old(walk).pending@[last]));
    }
}

/// A walk starts empty, and at its root.
pub proof fn a_walk_starts_at_its_root(
    window: u32,
    fresh: AxWalk,
    walk: &mut AxWalk,
    root: RetainedAxElement,
    owner: u32,
)
    requires
        call_ensures(AxWalk::new, (window,), fresh),
        call_ensures(AxWalk::begin, (walk, root, owner), ()),
    ensures
        fresh.target_window_id == window,
        fresh.nodes@.len() == 0 && fresh.pending@.len() == 0 && !fresh.truncated,
        fresh.collects_related,
        final(walk).pending@.last().element == root,
        final(walk).pending@.last().depth == 0,
        final(walk).pending@.last().inherited_owner_window_id == owner,
        final(walk).pending@.last().parent is None,
        final(walk).nodes == old(walk).nodes,
{
}

/// A replaced surface is read anew, from its own root.
pub proof fn a_replaced_surface_is_read_anew(
    walk: &mut AxWalk,
    window: u32,
    root: RetainedAxElement,
    ended: &mut AxWalk,
    kind: crate::contracts::SurfaceKind,
)
    requires
        call_ensures(AxWalk::begin_replacement, (walk, window, root), ()),
        call_ensures(AxWalk::end_replacement, (ended, window, kind, root), ()),
    ensures
        !final(walk).collects_related,
        final(walk).pending@.last().element == root,
        final(walk).pending@.last().inherited_owner_window_id == window,
        final(ended).collects_related,
        final(ended).related_windows@.last().window_id == window,
        final(ended).related_windows@.last().kind == kind,
        final(ended).related_windows@.last().element == root,
        final(ended).related_windows@.len() == old(ended).related_windows@.len() + 1,
{
}

/// Every notification that is asked for has a name.
pub proof fn notifications_are_asked_for_by_name(
    of_target: Vec<&'static str>,
    of_application: Vec<&'static str>,
    of_descendants: Vec<&'static str>,
)
    requires
        call_ensures(observer::target_notifications, (), of_target),
        call_ensures(observer::application_notifications, (), of_application),
        call_ensures(observer::descendant_notifications, (), of_descendants),
    ensures
        observer::names_of(of_target@).contains("AXUIElementDestroyed"@),
        observer::names_of(of_target@).contains("AXMoved"@),
        observer::names_of(of_target@).contains("AXResized"@),
        observer::names_of(of_application@).contains("AXFocusedUIElementChanged"@),
        observer::names_of(of_application@).contains("AXFocusedWindowChanged"@),
        observer::names_of(of_descendants@).contains("AXValueChanged"@),
        observer::names_of(of_descendants@).contains("AXMenuOpened"@),
        observer::names_of(of_descendants@).contains("AXMenuClosed"@),
        observer::names_of(of_descendants@).contains("AXLayoutChanged"@),
        observer::names_of(of_descendants@).contains("AXTitleChanged"@),
{
    let t = observer::names_of(of_target@);
    assert(t[0] == "AXUIElementDestroyed"@ && t[1] == "AXMoved"@ && t[2] == "AXResized"@);
    let a = observer::names_of(of_application@);
    assert(a[0] == "AXFocusedUIElementChanged"@ && a[1] == "AXFocusedWindowChanged"@);
    let d = observer::names_of(of_descendants@);
    assert(d[0] == "AXValueChanged"@ && d[3] == "AXMenuOpened"@ && d[4] == "AXMenuClosed"@);
    assert(d[8] == "AXLayoutChanged"@ && d[9] == "AXTitleChanged"@);
}

/// A registration is replaced where it was sent and heard of.
pub proof fn a_registration_is_replaced_where_it_was_heard_of(
    sent: bool,
    answer: Option<Result<(), NativeError>>,
    outcome: Result<(), NativeError>,
)
    requires
        call_ensures(observer::replacement_outcome, (sent, answer), outcome),
    ensures
        !sent ==> outcome is Err,
        answer is None ==> outcome is Err,
        answer is Some ==> (outcome is Ok <==> sent && answer->0 is Ok),
        sent && answer is Some && answer->0 is Err ==> outcome->Err_0@ == answer->0->Err_0@,
{
}

} // verus!
