//! When a target has settled, and what its notifications mean.
use vstd::prelude::*;

use crate::contracts::{ResolvedWindowStamp, SettlementSignal};
use crate::driver::menu;
use crate::driver::menu::{
    MenuSuppressionPlan, NativeMenuIdentity, SystemMenuSuppressionResource,
};
use crate::driver::settlement;
use crate::driver::settlement::{
    DirtyState, MacAxEvent, MacSignalJournal, ObserverContext, RecordedSignal, SettleStep,
    SignalSet,
};
use crate::driver::target;
use crate::driver::target::{
    InvalidationReason, MacFocusState, MacInvalidationSubscription, MacTargetState,
    RegistryReceived, TargetInvalidation, WorkspaceReceived,
};
use crate::errors::{ErrorCode, NativeError};
use crate::evidence::Fields;

verus! {

/// A signal was recorded since a time.
pub open spec fn recorded_since(
    records: Seq<RecordedSignal>,
    since: u64,
    signal: SettlementSignal,
) -> bool {
    exists|i: int|
        0 <= i < records.len() && (#[trigger] records[i]).at >= since && records[i].signal == signal
}

proof fn records_since_are_those_since(records: Seq<RecordedSignal>, since: u64, record: RecordedSignal)
    ensures
        settlement::records_since(records, since).contains(record) <==> records.contains(record)
            && record.at >= since,
    decreases records.len(),
{
    if records.len() > 0 {
        let shorter = records.drop_last();
        let kept = settlement::records_since(shorter, since);
        records_since_are_those_since(shorter, since, record);
        assert(records =~= shorter.push(records.last()));
        if records.contains(record) {
            let i = choose|i: int| 0 <= i < records.len() && records[i] == record;
            if i < shorter.len() {
                assert(shorter[i] == record);
            }
        }
        if shorter.contains(record) {
            let i = choose|i: int| 0 <= i < shorter.len() && shorter[i] == record;
            assert(records[i] == record);
        }
        assert(records[records.len() - 1] == records.last());
        if records.last().at >= since {
            let longer = kept.push(records.last());
            assert(longer[kept.len() as int] == records.last());
            if kept.contains(record) {
                let i = choose|i: int| 0 <= i < kept.len() && kept[i] == record;
                assert(longer[i] == record);
            }
            if longer.contains(record) {
                let i = choose|i: int| 0 <= i < longer.len() && longer[i] == record;
                if i < kept.len() {
                    assert(kept[i] == record);
                }
            }
        }
    }
}

proof fn observed_is_what_was_recorded(
    dirty: DirtyState,
    journal: Seq<RecordedSignal>,
    signal: SettlementSignal,
)
    ensures
        settlement::observed(dirty, settlement::records_since(journal, dirty.since)).contains(signal)
            <==> dirty.observed_signals@.contains(signal) || recorded_since(
            journal,
            dirty.since,
            signal,
        ),
{
    let kept = settlement::records_since(journal, dirty.since);
    if settlement::signals_of(kept).contains(signal) {
        let i = choose|i: int| 0 <= i < kept.len() && (#[trigger] kept[i]).signal == signal;
        records_since_are_those_since(journal, dirty.since, kept[i]);
        assert(kept.contains(kept[i]));
        let j = choose|j: int| 0 <= j < journal.len() && journal[j] == kept[i];
        assert(journal[j].at >= dirty.since);
    }
    if recorded_since(journal, dirty.since, signal) {
        let j = choose|j: int|
            0 <= j < journal.len() && (#[trigger] journal[j]).at >= dirty.since
                && journal[j].signal == signal;
        records_since_are_those_since(journal, dirty.since, journal[j]);
        assert(journal.contains(journal[j]));
        let i = choose|i: int| 0 <= i < kept.len() && kept[i] == journal[j];
        assert(kept[i].signal == signal);
    }
}

/// A target settles only when its dispatch is complete, everything that its profile
/// requires was seen since it became dirty, and no relevant signal has come within
/// the quiet window.
pub proof fn a_target_settles_when_all_is_seen_and_quiet(
    journal: &MacSignalJournal,
    dirty: &DirtyState,
    relevant: &SignalSet,
    eligible_since: Option<u64>,
    now: u64,
    deadline: u64,
    step: SettleStep,
    i: int,
)
    requires
        call_ensures(
            MacSignalJournal::settle,
            (journal, dirty, relevant, eligible_since, now, deadline),
            step,
        ),
        step is Settled,
        0 <= i < journal@.len(),
        journal@[i].at >= dirty.since,
        dirty.profile.quiet_window_ms > 0,
    ensures
        dirty.observed_signals@.contains(SettlementSignal::DispatchComplete) || recorded_since(
            journal@,
            dirty.since,
            SettlementSignal::DispatchComplete,
        ),
        forall|signal: SettlementSignal| #[trigger]
            dirty.profile.required_terminal_signals@.contains(signal)
                ==> dirty.observed_signals@.contains(signal) || recorded_since(
                journal@,
                dirty.since,
                signal,
            ),
        relevant@.contains(journal@[i].signal) ==> now >= journal@[i].at
            + dirty.profile.quiet_window_ms * 1_000_000,
        step->Settled_0.profile@ == dirty.profile.name@,
        step->Settled_0.trigger_action_id is Some && step->Settled_0.trigger_action_id->0@
            == dirty.action_id@,
        step->Settled_0.resumed_from_prior_call == dirty.resumed_from_prior_call,
        step->Settled_0.observed_signals@.contains(journal@[i].signal),
{
    let records = settlement::records_since(journal@, dirty.since);
    observed_is_what_was_recorded(*dirty, journal@, SettlementSignal::DispatchComplete);
    assert forall|signal: SettlementSignal| #[trigger]
        dirty.profile.required_terminal_signals@.contains(
            signal,
        ) implies dirty.observed_signals@.contains(signal) || recorded_since(
        journal@,
        dirty.since,
        signal,
    ) by {
        observed_is_what_was_recorded(*dirty, journal@, signal);
    }
    let latest = choose|latest: Option<u64>|
        {
            &&& settlement::is_latest_relevant(records, relevant@, latest)
            &&& settlement::quiet_over(
                #[trigger] settlement::quiet_since(eligible_since, latest, now),
                dirty.profile.quiet_window_ms,
                now,
            )
        };
    assert(journal@.contains(journal@[i]));
    records_since_are_those_since(journal@, dirty.since, journal@[i]);
    let k = choose|k: int| 0 <= k < records.len() && records[k] == journal@[i];
    if relevant@.contains(journal@[i].signal) {
        settlement::a_relevant_signal_resets_the_quiet_window(
            records,
            relevant@,
            eligible_since,
            latest,
            dirty.profile.quiet_window_ms,
            now,
            k,
        );
    }
    settlement::a_listing_holds_each_signal_of_its_set_once(
        settlement::observed(*dirty, records),
        journal@[i].signal,
    );
    assert(records[k].signal == journal@[i].signal);
}

/// A target that is pending at its deadline says what it still misses: of what is
/// required, and the completion of the dispatch, whatever was not seen.
pub proof fn a_pending_target_says_what_it_misses(
    journal: &MacSignalJournal,
    dirty: &DirtyState,
    relevant: &SignalSet,
    eligible_since: Option<u64>,
    now: u64,
    deadline: u64,
    step: SettleStep,
    signal: SettlementSignal,
)
    requires
        call_ensures(
            MacSignalJournal::settle,
            (journal, dirty, relevant, eligible_since, now, deadline),
            step,
        ),
        step is Pending,
    ensures
        now >= deadline,
        step->Pending_0.missing_signals@.contains(signal) <==> {
            &&& signal == SettlementSignal::DispatchComplete
                || dirty.profile.required_terminal_signals@.contains(signal)
            &&& !dirty.observed_signals@.contains(signal)
            &&& !recorded_since(journal@, dirty.since, signal)
        },
        step->Pending_0.observed_signals@.contains(signal) <==> {
            ||| dirty.observed_signals@.contains(signal)
            ||| recorded_since(journal@, dirty.since, signal)
        },
        step->Pending_0.trigger_action_id@ == dirty.action_id@,
        step->Pending_0.profile@ == dirty.profile.name@,
{
    let records = settlement::records_since(journal@, dirty.since);
    let seen = settlement::observed(*dirty, records);
    observed_is_what_was_recorded(*dirty, journal@, signal);
    settlement::missing_is_what_was_not_observed(*dirty, seen, signal);
    settlement::a_listing_holds_each_signal_of_its_set_once(seen, signal);
}

/// A target waits no longer than its deadline, and only before it.
pub proof fn a_target_waits_until_its_deadline(
    journal: &MacSignalJournal,
    dirty: &DirtyState,
    relevant: &SignalSet,
    eligible_since: Option<u64>,
    now: u64,
    deadline: u64,
    step: SettleStep,
)
    requires
        call_ensures(
            MacSignalJournal::settle,
            (journal, dirty, relevant, eligible_since, now, deadline),
            step,
        ),
    ensures
        step is Wait ==> now < deadline && step->wake_at <= deadline,
        now >= deadline ==> !(step is Wait),
        !dirty.observed_signals@.contains(SettlementSignal::DispatchComplete) && !recorded_since(
            journal@,
            dirty.since,
            SettlementSignal::DispatchComplete,
        ) ==> !(step is Settled),
{
    observed_is_what_was_recorded(*dirty, journal@, SettlementSignal::DispatchComplete);
}

/// A target whose evidence is complete settles at once where nothing has been
/// relevant for long enough.
pub proof fn a_quiet_target_settles(
    journal: &MacSignalJournal,
    dirty: &DirtyState,
    relevant: &SignalSet,
    since: u64,
    now: u64,
    deadline: u64,
    step: SettleStep,
)
    requires
        call_ensures(
            MacSignalJournal::settle,
            (journal, dirty, relevant, Some(since), now, deadline),
            step,
        ),
        dirty.observed_signals@.contains(SettlementSignal::DispatchComplete) || recorded_since(
            journal@,
            dirty.since,
            SettlementSignal::DispatchComplete,
        ),
        forall|signal: SettlementSignal| #[trigger]
            dirty.profile.required_terminal_signals@.contains(signal)
                ==> dirty.observed_signals@.contains(signal) || recorded_since(
                journal@,
                dirty.since,
                signal,
            ),
        now >= since + dirty.profile.quiet_window_ms * 1_000_000,
        forall|i: int|
            0 <= i < journal@.len() && relevant@.contains((#[trigger] journal@[i]).signal) ==> now
                >= journal@[i].at + dirty.profile.quiet_window_ms * 1_000_000,
    ensures
        step is Settled,
{
    let records = settlement::records_since(journal@, dirty.since);
    observed_is_what_was_recorded(*dirty, journal@, SettlementSignal::DispatchComplete);
    assert forall|signal: SettlementSignal| #[trigger]
        dirty.profile.required_terminal_signals@.contains(
            signal,
        ) implies settlement::observed(*dirty, records).contains(signal) by {
        observed_is_what_was_recorded(*dirty, journal@, signal);
    }
    assert(settlement::terminal(*dirty, records));
    let latest = choose|latest: Option<u64>|
        {
            &&& settlement::is_latest_relevant(records, relevant@, latest)
            &&& step is Settled <==> settlement::quiet_over(
                #[trigger] settlement::quiet_since(Some(since), latest, now),
                dirty.profile.quiet_window_ms,
                now,
            )
        };
    if latest is Some {
        let k = choose|k: int|
            0 <= k < records.len() && relevant@.contains((#[trigger] records[k]).signal)
                && records[k].at == latest->0;
        assert(records.contains(records[k]));
        records_since_are_those_since(journal@, dirty.since, records[k]);
        let j = choose|j: int| 0 <= j < journal@.len() && journal@[j] == records[k];
        assert(relevant@.contains(journal@[j].signal));
    }
}

/// The journal keeps what is recorded last and moves its epoch with every signal.
pub proof fn the_journal_keeps_the_last_signals(
    journal: &mut MacSignalJournal,
    signal: SettlementSignal,
    at: u64,
)
    requires
        call_ensures(MacSignalJournal::record, (journal, signal, at), ()),
        old(journal).wf(),
    ensures
        final(journal)@.len() > 0,
        final(journal)@.last() == (RecordedSignal { at, signal }),
        final(journal)@.len() <= 512,
        old(journal)@.len() < 512 ==> final(journal)@.drop_last() == old(journal)@,
        final(journal).mutations() != old(journal).mutations(),
        old(journal).mutations() < u64::MAX ==> final(journal).mutations()
            == old(journal).mutations() + 1,
{
    assert(old(journal)@.push(RecordedSignal { at, signal }).drop_last() =~= old(journal)@);
}

/// Milliseconds are counted from the start, and there are none before it.
pub proof fn elapsed_time_is_counted_in_milliseconds(since: u64, now: u64, elapsed: u64)
    requires
        call_ensures(settlement::elapsed_ms, (since, now), elapsed),
    ensures
        now >= since ==> elapsed * 1_000_000 <= now - since < elapsed * 1_000_000 + 1_000_000,
        now < since ==> elapsed == 0,
{
    if now >= since {
        let whole = (now - since) as int;
        assert(whole / 1_000_000 * 1_000_000 <= whole < whole / 1_000_000 * 1_000_000 + 1_000_000);
    }
}

/// Each notification is signalled as what it says, and no two of them alike.
pub proof fn notifications_are_signalled_as_they_are(event: MacAxEvent, signal: SettlementSignal)
    requires
        call_ensures(MacAxEvent::settlement_signal, (event,), signal),
    ensures
        signal == SettlementSignal::FocusChanged <==> event is FocusChanged,
        signal == SettlementSignal::AxValueChanged <==> event is ContentChanged,
        signal == SettlementSignal::AxAction <==> event is TreeChanged,
        signal == SettlementSignal::WindowGeometryChanged <==> event is WindowGeometryChanged,
        signal == SettlementSignal::WindowListChanged <==> event is WindowDestroyed,
        signal == SettlementSignal::MenuOpened <==> event is MenuOpened,
        signal == SettlementSignal::MenuDismissed <==> event is MenuDismissed,
        signal == SettlementSignal::ScrollChanged <==> event is ScrollChanged,
{
}

/// What a notification says follows from its name.
pub proof fn notifications_say_what_they_are_called(name: &str, event: Option<MacAxEvent>)
    requires
        call_ensures(settlement::event_for_notification, (name,), event),
    ensures
        name@ == "AXFocusedUIElementChanged"@ || name@ == "AXFocusedWindowChanged"@ ==> event
            == Some(MacAxEvent::FocusChanged),
        event == Some(MacAxEvent::FocusChanged) ==> name@ == "AXFocusedUIElementChanged"@ || name@
            == "AXFocusedWindowChanged"@,
        event == Some(MacAxEvent::ContentChanged) ==> name@ == "AXValueChanged"@ || name@
            == "AXSelectedTextChanged"@ || name@ == "AXSelectedChildrenChanged"@ || name@
            == "AXTitleChanged"@,
        event == Some(MacAxEvent::WindowDestroyed) ==> name@ == "AXUIElementDestroyed"@,
        event == Some(MacAxEvent::WindowGeometryChanged) ==> name@ == "AXMoved"@ || name@
            == "AXResized"@,
        event == Some(MacAxEvent::MenuOpened) ==> name@ == "AXMenuOpened"@,
        event == Some(MacAxEvent::MenuDismissed) ==> name@ == "AXMenuClosed"@ || name@
            == "AXMenuItemSelected"@,
        event == Some(MacAxEvent::ScrollChanged) ==> name@ == "AXSelectedRowsChanged"@ || name@
            == "AXSelectedColumnsChanged"@,
        event == Some(MacAxEvent::TreeChanged) ==> name@ == "AXLayoutChanged"@,
        event is None ==> name@ != "AXMenuOpened"@ && name@ != "AXMenuClosed"@ && name@
            != "AXMenuItemSelected"@ && name@ != "AXValueChanged"@ && name@ != "AXTitleChanged"@
            && name@ != "AXSelectedTextChanged"@ && name@ != "AXSelectedChildrenChanged"@ && name@
            != "AXUIElementDestroyed"@ && name@ != "AXMoved"@ && name@ != "AXResized"@ && name@
            != "AXSelectedRowsChanged"@ && name@ != "AXSelectedColumnsChanged"@ && name@
            != "AXLayoutChanged"@,
{
}

/// A change of focus that neither comes from the target nor goes to it is not the
/// target's; every other notification is handed on.
pub proof fn only_the_targets_focus_counts(
    context: &mut ObserverContext,
    name: &str,
    focused: Option<u32>,
    event: Option<MacAxEvent>,
    named: Option<MacAxEvent>,
)
    requires
        call_ensures(ObserverContext::accept, (context, name, focused), event),
        call_ensures(settlement::event_for_notification, (name,), named),
    ensures
        ({
            let focus = name@ == "AXFocusedUIElementChanged"@ || name@
                == "AXFocusedWindowChanged"@;
            let comes = focused == Some(old(context).target_window_id);
            &&& !focus ==> event == named && final(context).focused_target
                == old(context).focused_target
            &&& focus ==> final(context).focused_target == comes
            &&& focus && !comes && !old(context).focused_target ==> event is None
            &&& focus && (comes || old(context).focused_target) ==> event == Some(
                MacAxEvent::FocusChanged,
            )
        }),
        final(context).target_window_id == old(context).target_window_id,
{
}

/// An observer needs both the notifications of its window and those of the focus.
pub proof fn observers_need_window_and_focus(
    windows: usize,
    focus: usize,
    outcome: Result<(), NativeError>,
    elements: usize,
    registered: usize,
    descendants: Result<(), NativeError>,
)
    requires
        call_ensures(settlement::registration_outcome, (windows, focus), outcome),
        call_ensures(settlement::descendant_outcome, (elements, registered), descendants),
    ensures
        outcome is Ok <==> windows > 0 && focus > 0,
        descendants is Err <==> elements > 0 && registered == 0,
{
}

/// What a notification makes stale: the tree where it or its window is gone, the
/// window where it moved, a transient that is gone, and else the content.
pub proof fn notifications_make_stale_what_changed(event: MacAxEvent, reason: InvalidationReason)
    requires
        call_ensures(target::invalidation_reason, (event,), reason),
    ensures
        reason is WindowChanged <==> event is WindowGeometryChanged,
        reason is TransientDismissed <==> event is MenuDismissed,
        reason is AccessibilityInvalidated <==> event is TreeChanged || event is WindowDestroyed,
        reason is ContentChanged <==> event is ContentChanged || event is FocusChanged
            || event is MenuOpened || event is ScrollChanged,
{
}

/// An invalidation is of the very window.
pub proof fn an_invalidation_names_its_window(
    window: &ResolvedWindowStamp,
    reason: InvalidationReason,
    invalidation: TargetInvalidation,
)
    requires
        call_ensures(target::observation_changed, (window, reason), invalidation),
    ensures
        invalidation is ObservationChanged,
        invalidation->app_id@ == window.app_id@,
        invalidation->window_id@ == window.window_id@,
        invalidation->ObservationChanged_generation == window.generation,
        invalidation->ObservationChanged_reason == reason,
{
}

/// What the registry says is handed on, lost events ask for a fresh look, and the
/// end of both streams ends the subscription.
pub proof fn a_subscription_hands_on_what_it_hears(
    subscription: &mut MacInvalidationSubscription,
    received: RegistryReceived,
    yielded: Option<TargetInvalidation>,
)
    requires
        call_ensures(MacInvalidationSubscription::on_registry, (subscription, received), yielded),
    ensures
        received is Invalidation ==> yielded == Some(received->0),
        received is Lagged ==> yielded == Some(TargetInvalidation::NativeStateResyncRequired),
        received is Closed ==> yielded is None && final(subscription).registry_closed,
        !(received is Closed) ==> final(subscription).registry_closed
            == old(subscription).registry_closed,
        final(subscription).workspace_closed == old(subscription).workspace_closed,
{
}

/// Of the workspace, only the end of a process of known generation counts.
pub proof fn only_the_end_of_a_known_process_counts(
    subscription: &mut MacInvalidationSubscription,
    received: WorkspaceReceived,
    yielded: Option<TargetInvalidation>,
)
    requires
        call_ensures(MacInvalidationSubscription::on_workspace, (subscription, received), yielded),
    ensures
        received is Event ==> (yielded is Some <==> received->0.kind is Terminated
            && received->0.process_generation is Some),
        received is Event && yielded is Some ==> yielded->0 is ProcessExited,
        received is Lagged ==> yielded == Some(TargetInvalidation::NativeStateResyncRequired),
        received is Closed ==> yielded is None && final(subscription).workspace_closed,
        final(subscription).registry_closed == old(subscription).registry_closed,
{
}

/// A subscription is over once both streams are.
pub proof fn a_subscription_ends_with_both_streams(
    subscription: MacInvalidationSubscription,
    finished: bool,
)
    requires
        call_ensures(MacInvalidationSubscription::finished, (subscription,), finished),
    ensures
        finished <==> subscription.registry_closed && subscription.workspace_closed,
{
}

/// A process is known to be in front where it is the frontmost one; nothing is
/// suppressed for it yet.
pub proof fn a_new_state_believes_what_is_true(
    pid: i32,
    window: u32,
    frontmost: Option<i32>,
    state: MacFocusState,
)
    requires
        call_ensures(MacFocusState::new, (pid, window, frontmost), state),
    ensures
        state.pid == pid && state.cg_window_id == window && !state.shutdown,
        state.application_is_active <==> frontmost == Some(pid),
        state.application_believes_it_is_active <==> frontmost == Some(pid),
        state.application_believes_it_has_focus <==> frontmost == Some(pid),
        !state.menu_dismissal_suppression_enabled && state.menu_pid is None,
        state.menu_suppressed_event_count == 0,
{
}

/// A target that was invalidated is poisoned for good and no longer observed; its
/// window stays what it was.
pub proof fn an_invalidated_target_is_poisoned(state: &mut MacTargetState)
    requires
        call_ensures(MacTargetState::invalidate, (state,), ()),
        old(state).wf(),
    ensures
        final(state).poisoned && !final(state).observing,
        final(state).window == old(state).window,
        final(state).signals == old(state).signals,
{
}

/// A menu is identified by the window that shows it: the target's own, or the one
/// related window.
pub proof fn a_menu_is_identified_by_its_window(
    parent: &ResolvedWindowStamp,
    parent_id: u32,
    menu_id: u32,
    related: &Vec<ResolvedWindowStamp>,
    outcome: Result<NativeMenuIdentity, NativeError>,
)
    requires
        call_ensures(menu::resolve_menu_identity, (parent, parent_id, menu_id, related), outcome),
    ensures
        outcome is Ok <==> menu_id == parent_id || related@.len() == 1,
        outcome is Ok && menu_id == parent_id ==> outcome->Ok_0.window@ == parent@.native_window
            && outcome->Ok_0.process@ == parent@.process && outcome->Ok_0.generation
            == parent@.generation,
        outcome is Ok && menu_id != parent_id ==> outcome->Ok_0.window@
            == related@[0]@.native_window
            && outcome->Ok_0.process@ == related@[0]@.process && outcome->Ok_0.generation
            == related@[0]@.generation,
{
}

/// A suppression is reserved for the process that it is planned for, one at a time,
/// and takes effect only once it is armed.
pub proof fn a_suppression_is_reserved_once(
    plan: &MenuSuppressionPlan,
    state: &mut MacFocusState,
    outcome: Result<Option<SystemMenuSuppressionResource>, NativeError>,
)
    requires
        call_ensures(menu::acquire_production, (plan, state), outcome),
    ensures
        plan is NotApplicable ==> outcome is Ok && outcome->Ok_0 is None && final(state).menu()
            == old(state).menu(),
        plan is ExactSourcePidPredicate ==> (outcome is Ok <==> old(state).pid == plan->target_pid
            && old(state).menu().action_id is None && old(state).menu().menu_id is None),
        plan is ExactSourcePidPredicate && outcome is Ok ==> {
            &&& outcome->Ok_0 is Some
            &&& outcome->Ok_0->0.target_pid == plan->target_pid
            &&& outcome->Ok_0->0.menu_pid == plan->ExactSourcePidPredicate_menu_pid
            &&& !outcome->Ok_0->0.released
            &&& !final(state).menu().enabled
            &&& final(state).menu().menu_pid == plan->ExactSourcePidPredicate_menu_pid
            &&& final(state).menu().action_id == Some(plan->ExactSourcePidPredicate_action_id@)
            &&& final(state).menu().menu_id == Some(plan->ExactSourcePidPredicate_menu_id@)
            &&& final(state).menu().suppressed == 0
        },
        outcome is Err ==> final(state).menu() == old(state).menu(),
        outcome is Err && old(state).pid == plan->target_pid ==> outcome->Err_0.code
            == ErrorCode::TargetBusy,
        final(state).belief() == old(state).belief(),
{
}

/// Releasing a suppression ends it, once.
pub proof fn a_released_suppression_is_over(
    resource: &mut SystemMenuSuppressionResource,
    state: &mut MacFocusState,
    fields: Fields,
)
    requires
        call_ensures(SystemMenuSuppressionResource::release, (resource, state), fields),
    ensures
        final(resource).released,
        !old(resource).released ==> {
            &&& !final(state).menu().enabled
            &&& final(state).menu().menu_pid is None
            &&& final(state).menu().action_id is None
            &&& final(state).menu().menu_id is None
            &&& final(state).menu().suppressed == old(state).menu().suppressed
        },
        old(resource).released ==> final(state).menu() == old(state).menu(),
        final(state).belief() == old(state).belief(),
{
}

} // verus!
