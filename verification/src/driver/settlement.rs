//! Native target signals and notification-driven post-action settlement.
//!
//! Times are nanoseconds on one monotonic clock.
use std::collections::VecDeque;
use vstd::prelude::*;

use crate::contracts::SettlementSignal;
use crate::errors;
use crate::errors::{ErrorCode, ErrorPhase, NativeError};
use crate::text::same_text;

verus! {

pub const SIGNAL_JOURNAL_CAPACITY: usize = 512;

pub const NANOS_PER_MILLI: u64 = 1_000_000;

#[derive(Debug, Clone, Copy, PartialEq, Eq, Structural)]
pub struct RecordedSignal {
    pub at: u64,
    pub signal: SettlementSignal,
}

/// Every settlement signal, in the one order in which signals are listed.
pub open spec fn all_signals() -> Seq<SettlementSignal> {
    seq![
        SettlementSignal::DispatchStarted,
        SettlementSignal::DispatchComplete,
        SettlementSignal::AxAction,
        SettlementSignal::AxValueChanged,
        SettlementSignal::FocusChanged,
        SettlementSignal::FreshFrame,
        SettlementSignal::MenuOpened,
        SettlementSignal::MenuDismissed,
        SettlementSignal::PointerSequenceComplete,
        SettlementSignal::ScrollChanged,
        SettlementSignal::VerificationReadbackComplete,
        SettlementSignal::WindowGeometryChanged,
        SettlementSignal::WindowListChanged,
    ]
}

fn every_signal() -> (signals: Vec<SettlementSignal>)
    ensures
        signals@ == all_signals(),
{
    let signals: Vec<SettlementSignal> = vec![
        SettlementSignal::DispatchStarted,
        SettlementSignal::DispatchComplete,
        SettlementSignal::AxAction,
        SettlementSignal::AxValueChanged,
        SettlementSignal::FocusChanged,
        SettlementSignal::FreshFrame,
        SettlementSignal::MenuOpened,
        SettlementSignal::MenuDismissed,
        SettlementSignal::PointerSequenceComplete,
        SettlementSignal::ScrollChanged,
        SettlementSignal::VerificationReadbackComplete,
        SettlementSignal::WindowGeometryChanged,
        SettlementSignal::WindowListChanged,
    ];
    assert(signals@ =~= all_signals());
    signals
}

/// The signals of a list that are in a set, in the order of the list.
pub open spec fn kept(
    signals: Seq<SettlementSignal>,
    set: Set<SettlementSignal>,
) -> Seq<SettlementSignal>
    decreases signals.len(),
{
    if signals.len() == 0 {
        Seq::empty()
    } else {
        let before = kept(signals.drop_last(), set);
        if set.contains(signals.last()) {
            before.push(signals.last())
        } else {
            before
        }
    }
}

/// The signals of a set, in the one order in which signals are listed.
pub open spec fn in_order(set: Set<SettlementSignal>) -> Seq<SettlementSignal> {
    kept(all_signals(), set)
}

/// A set of settlement signals.
#[derive(Debug)]
pub struct SignalSet {
    signals: Vec<SettlementSignal>,
}

impl View for SignalSet {
    type V = Set<SettlementSignal>;

    open spec fn view(&self) -> Set<SettlementSignal> {
        self.held().to_set()
    }
}

impl SignalSet {
    /// The signals as they are held.
    pub closed spec fn held(&self) -> Seq<SettlementSignal> {
        self.signals@
    }

    /// No signal occurs twice.
    pub open spec fn wf(&self) -> bool {
        self.held().no_duplicates()
    }

    pub fn new() -> (set: SignalSet)
        ensures
            set@ == Set::<SettlementSignal>::empty(),
            set.wf(),
    {
        let set = SignalSet { signals: Vec::new() };
        assert(set@ =~= Set::<SettlementSignal>::empty());
        set
    }

    pub fn contains(&self, signal: SettlementSignal) -> (found: bool)
        ensures
            found == self@.contains(signal),
    {
        let mut index: usize = 0;
        while index < self.signals.len()
            invariant
                index <= self.signals.len(),
                forall|i: int| 0 <= i < index ==> #[trigger] self.signals@[i] != signal,
            decreases self.signals.len() - index,
        {
            if self.signals[index] == signal {
                assert(self.signals@[index as int] == signal);
                return true;
            }
            index = index + 1;
        }
        false
    }

    /// The signals in order: sets of the same signals are listed alike, however
    /// the signals came.
    pub fn list(&self) -> (list: Vec<SettlementSignal>)
        ensures
            list@ == in_order(self@),
    {
        let signals: Vec<SettlementSignal> = every_signal();
        let mut list: Vec<SettlementSignal> = Vec::new();
        let mut index: usize = 0;
        while index < signals.len()
            invariant
                index <= signals.len(),
                list@ == kept(signals@.take(index as int), self@),
            decreases signals.len() - index,
        {
            assert(signals@.take(index as int + 1).drop_last() =~= signals@.take(index as int));
            if self.contains(signals[index]) {
                list.push(signals[index]);
            }
            index = index + 1;
        }
        assert(signals@.take(index as int) =~= signals@);
        list
    }

    /// Adds a signal.
    pub fn insert(&mut self, signal: SettlementSignal)
        requires
            old(self).wf(),
        ensures
            final(self).wf(),
            final(self)@ == old(self)@.insert(signal),
    {
        if self.contains(signal) {
            assert(self@ =~= old(self)@.insert(signal));
        } else {
            assert(!self.signals@.contains(signal));
            self.signals.push(signal);
            proof {
                let before = old(self).signals@;
                assert forall|held: SettlementSignal| self@.contains(held) == old(self)@.insert(
                    signal,
                ).contains(held) by {
                    if before.contains(held) {
                        let i = choose|i: int| 0 <= i < before.len() && before[i] == held;
                        assert(self.signals@[i] == held);
                    }
                    assert(self.signals@[before.len() as int] == signal);
                }
                assert(self@ =~= old(self)@.insert(signal));
            }
        }
    }

    pub fn is_subset(&self, other: &SignalSet) -> (subset: bool)
        ensures
            subset == self@.subset_of(other@),
    {
        let mut index: usize = 0;
        while index < self.signals.len()
            invariant
                index <= self.signals.len(),
                forall|i: int| 0 <= i < index ==> other@.contains(#[trigger] self.signals@[i]),
            decreases self.signals.len() - index,
        {
            if !other.contains(self.signals[index]) {
                assert(self@.contains(self.signals@[index as int]));
                return false;
            }
            index = index + 1;
        }
        true
    }
}

impl Clone for SignalSet {
    fn clone(&self) -> (copy: Self)
        ensures
            copy.held() == self.held(),
    {
        let mut signals: Vec<SettlementSignal> = Vec::new();
        let mut index: usize = 0;
        while index < self.signals.len()
            invariant
                index <= self.signals.len(),
                signals@ == self.signals@.take(index as int),
            decreases self.signals.len() - index,
        {
            signals.push(self.signals[index]);
            index = index + 1;
            assert(self.signals@.take(index as int) =~= self.signals@.take(index as int - 1).push(
                self.signals@[index as int - 1],
            ));
        }
        assert(self.signals@.take(index as int) =~= self.signals@);
        SignalSet { signals }
    }
}

/// Bounded, content-free native event journal for one target controller.
///
/// The journal intentionally stores only signal kinds and monotonic times. AX
/// values, selected text and screenshots belong to observations and artifacts,
/// never logs or the settlement channel.
#[derive(Debug)]
pub struct MacSignalJournal {
    signals: VecDeque<RecordedSignal>,
    epoch: u64,
}

impl View for MacSignalJournal {
    type V = Seq<RecordedSignal>;

    closed spec fn view(&self) -> Seq<RecordedSignal> {
        self.signals@
    }
}

/// The epoch after one more signal.
pub open spec fn next_epoch(epoch: u64) -> u64 {
    if epoch == u64::MAX {
        0
    } else {
        (epoch + 1) as u64
    }
}

/// The records at or after a time, in order.
pub open spec fn records_since(records: Seq<RecordedSignal>, since: u64) -> Seq<RecordedSignal>
    decreases records.len(),
{
    if records.len() == 0 {
        Seq::empty()
    } else if records.last().at >= since {
        records_since(records.drop_last(), since).push(records.last())
    } else {
        records_since(records.drop_last(), since)
    }
}

impl MacSignalJournal {
    /// At most the capacity is kept.
    pub open spec fn wf(&self) -> bool {
        self@.len() <= SIGNAL_JOURNAL_CAPACITY
    }

    /// How often the target has been touched, wrapping around.
    pub closed spec fn mutations(&self) -> u64 {
        self.epoch
    }

    pub fn new() -> (journal: MacSignalJournal)
        ensures
            journal.wf(),
            journal@ == Seq::<RecordedSignal>::empty(),
            journal.mutations() == 0,
    {
        MacSignalJournal { signals: VecDeque::new(), epoch: 0 }
    }

    /// Records a signal at a time; the oldest record leaves a full journal.
    pub fn record(&mut self, signal: SettlementSignal, at: u64)
        requires
            old(self).wf(),
        ensures
            final(self).wf(),
            final(self).mutations() == next_epoch(old(self).mutations()),
            final(self)@ == (if old(self)@.len() == SIGNAL_JOURNAL_CAPACITY {
                old(self)@.drop_first()
            } else {
                old(self)@
            }).push(RecordedSignal { at, signal }),
    {
        self.epoch = self.epoch.wrapping_add(1);
        if self.signals.len() == SIGNAL_JOURNAL_CAPACITY {
            self.signals.pop_front();
            assert(self.signals@ =~= old(self).signals@.drop_first());
        }
        self.signals.push_back(RecordedSignal { at, signal });
    }

    /// Monotonic target-mutation bracket for coherent observations.
    pub fn epoch(&self) -> (epoch: u64)
        ensures
            epoch == self.mutations(),
    {
        self.epoch
    }

    pub fn latest_signal(&self) -> (latest: Option<SettlementSignal>)
        ensures
            latest == if self@.len() == 0 {
                None
            } else {
                Some(self@.last().signal)
            },
    {
        if self.signals.len() == 0 {
            None
        } else {
            Some(self.signals[self.signals.len() - 1].signal)
        }
    }

    /// Runs a synchronous publication if nothing was recorded since the
    /// caller's A-side sample. `None` means evidence changed and no publication
    /// occurred: the publication may be called only where the epoch is the
    /// expected one.
    pub fn commit_if_epoch<T, F: FnOnce() -> Result<T, NativeError>>(
        &self,
        expected: u64,
        commit: F,
    ) -> (outcome: Result<Option<T>, NativeError>)
        requires
            self.mutations() == expected ==> commit.requires(()),
        ensures
            self.mutations() != expected ==> outcome == Ok::<Option<T>, NativeError>(None),
            self.mutations() == expected ==> match outcome {
                Ok(Some(value)) => commit.ensures((), Ok(value)),
                Ok(None) => false,
                Err(error) => commit.ensures((), Err(error)),
            },
    {
        if self.epoch != expected {
            return Ok(None);
        }
        match commit() {
            Ok(value) => Ok(Some(value)),
            Err(error) => Err(error),
        }
    }

    pub fn snapshot_since(&self, since: u64) -> (records: Vec<RecordedSignal>)
        ensures
            records@ == records_since(self@, since),
    {
        let mut records: Vec<RecordedSignal> = Vec::new();
        let mut index: usize = 0;
        while index < self.signals.len()
            invariant
                index <= self.signals.len(),
                records@ == records_since(self.signals@.take(index as int), since),
            decreases self.signals.len() - index,
        {
            assert(self.signals@.take(index as int + 1).drop_last() =~= self.signals@.take(
                index as int,
            ));
            if self.signals[index].at >= since {
                records.push(self.signals[index]);
            }
            index = index + 1;
        }
        assert(self.signals@.take(index as int) =~= self.signals@);
        records
    }
}

/// Recording any signal changes the epoch, so a publication bracketed by an
/// earlier epoch is refused.
pub proof fn a_recorded_signal_moves_the_epoch(epoch: u64)
    ensures
        next_epoch(epoch) != epoch,
{
}

/// What decides when an action has settled.
#[derive(Debug)]
pub struct SettlementProfile {
    pub name: String,
    pub required_terminal_signals: SignalSet,
    pub quiet_window_ms: u64,
}

/// A target that an action has touched and that has not settled yet.
#[derive(Debug)]
pub struct DirtyState {
    pub action_id: String,
    pub profile: SettlementProfile,
    pub since: u64,
    pub observed_signals: SignalSet,
    pub resumed_from_prior_call: bool,
}

impl DirtyState {
    pub open spec fn wf(&self) -> bool {
        self.observed_signals.wf() && self.profile.required_terminal_signals.wf()
    }
}

#[derive(Debug)]
pub struct SettlementEvidence {
    pub trigger_action_id: Option<String>,
    pub profile: String,
    pub elapsed_ms: u64,
    pub observed_signals: Vec<SettlementSignal>,
    pub terminal_signal: String,
    pub quiet_window_ms: u64,
    pub resumed_from_prior_call: bool,
}

#[derive(Debug)]
pub struct PendingSettlementEvidence {
    pub trigger_action_id: String,
    pub profile: String,
    pub elapsed_ms: u64,
    pub observed_signals: Vec<SettlementSignal>,
    pub missing_signals: Vec<SettlementSignal>,
}

#[derive(Debug)]
pub enum SettleStep {
    Settled(SettlementEvidence),
    Pending(PendingSettlementEvidence),
    /// Wait for the next signal, at most until `wake_at`.
    Wait { eligible_since: Option<u64>, wake_at: u64 },
}

/// Everything observed for a dirty target: what its action reported, and what
/// the journal recorded since.
pub open spec fn observed(dirty: DirtyState, records: Seq<RecordedSignal>) -> Set<
    SettlementSignal,
> {
    dirty.observed_signals@.union(signals_of(records))
}

pub open spec fn signals_of(records: Seq<RecordedSignal>) -> Set<SettlementSignal> {
    Set::new(
        |signal: SettlementSignal|
            exists|i: int| 0 <= i < records.len() && (#[trigger] records[i]).signal == signal,
    )
}

/// Whether every terminal signal has been observed.
pub open spec fn terminal(dirty: DirtyState, records: Seq<RecordedSignal>) -> bool {
    let seen = observed(dirty, records);
    seen.contains(SettlementSignal::DispatchComplete)
        && dirty.profile.required_terminal_signals@.subset_of(seen)
}

/// Whether a time is that of the latest relevant record.
pub open spec fn is_latest_relevant(
    records: Seq<RecordedSignal>,
    relevant: Set<SettlementSignal>,
    latest: Option<u64>,
) -> bool {
    match latest {
        Some(latest) => {
            &&& exists|i: int|
                0 <= i < records.len() && relevant.contains((#[trigger] records[i]).signal)
                    && records[i].at == latest
            &&& forall|i: int|
                0 <= i < records.len() && relevant.contains((#[trigger] records[i]).signal)
                    ==> records[i].at <= latest
        },
        None => forall|i: int|
            0 <= i < records.len() ==> !relevant.contains((#[trigger] records[i]).signal),
    }
}

/// The time of the latest record whose signal is relevant.
pub fn latest_relevant_signal(records: &Vec<RecordedSignal>, relevant_signals: &SignalSet) -> (latest:
    Option<u64>)
    ensures
        is_latest_relevant(records@, relevant_signals@, latest),
{
    let mut latest: Option<u64> = None;
    let mut index: usize = 0;
    while index < records.len()
        invariant
            index <= records.len(),
            is_latest_relevant(records@.take(index as int), relevant_signals@, latest),
        decreases records.len() - index,
    {
        let record: RecordedSignal = records[index];
        let ghost shorter = records@.take(index as int);
        let ghost longer = records@.take(index as int + 1);
        let ghost before = latest;
        assert(longer =~= shorter.push(record));
        if relevant_signals.contains(record.signal) {
            latest = match latest {
                Some(prior) => if record.at > prior {
                    Some(record.at)
                } else {
                    Some(prior)
                },
                None => Some(record.at),
            };
            proof {
                assert(longer[index as int] == record);
                if latest != Some(record.at) {
                    let i = choose|i: int|
                        0 <= i < shorter.len() && relevant_signals@.contains(
                            (#[trigger] shorter[i]).signal,
                        ) && shorter[i].at == before->0;
                    assert(longer[i] == shorter[i]);
                }
                assert forall|i: int|
                    0 <= i < longer.len() && relevant_signals@.contains(
                        (#[trigger] longer[i]).signal,
                    ) implies longer[i].at <= latest->0 by {
                    if i < shorter.len() {
                        assert(longer[i] == shorter[i]);
                        assert(before is Some);
                    }
                }
            }
        } else {
            proof {
                if let Some(prior) = latest {
                    let i = choose|i: int|
                        0 <= i < shorter.len() && relevant_signals@.contains(
                            (#[trigger] shorter[i]).signal,
                        ) && shorter[i].at == prior;
                    assert(longer[i] == shorter[i]);
                }
                assert forall|i: int|
                    0 <= i < longer.len() && relevant_signals@.contains(
                        (#[trigger] longer[i]).signal,
                    ) implies 0 <= i < shorter.len() && longer[i] == shorter[i] by {}
            }
        }
        index = index + 1;
    }
    assert(records@.take(index as int) =~= records@);
    latest
}

fn observed_signals(dirty: &DirtyState, records: &Vec<RecordedSignal>) -> (seen: SignalSet)
    requires
        dirty.observed_signals.wf(),
    ensures
        seen.wf(),
        seen@ == observed(*dirty, records@),
{
    let mut seen: SignalSet = dirty.observed_signals.clone();
    let mut index: usize = 0;
    assert(seen@ =~= observed(*dirty, records@.take(0)));
    while index < records.len()
        invariant
            index <= records.len(),
            seen.wf(),
            seen@ == observed(*dirty, records@.take(index as int)),
        decreases records.len() - index,
    {
        let ghost shorter = records@.take(index as int);
        let ghost longer = records@.take(index as int + 1);
        seen.insert(records[index].signal);
        proof {
            assert(longer =~= shorter.push(records@[index as int]));
            assert forall|signal: SettlementSignal| signals_of(longer).contains(signal) == (
            signals_of(shorter).contains(signal) || signal == records@[index as int].signal) by {
                if signals_of(shorter).contains(signal) {
                    let i = choose|i: int|
                        0 <= i < shorter.len() && (#[trigger] shorter[i]).signal == signal;
                    assert(longer[i].signal == signal);
                }
                assert(longer[index as int].signal == records@[index as int].signal);
                if signals_of(longer).contains(signal) {
                    let i = choose|i: int|
                        0 <= i < longer.len() && (#[trigger] longer[i]).signal == signal;
                    if i < shorter.len() {
                        assert(shorter[i].signal == signal);
                    }
                }
            }
            assert(seen@ =~= observed(*dirty, longer));
        }
        index = index + 1;
    }
    assert(records@.take(index as int) =~= records@);
    seen
}

/// The milliseconds from one time to a later one, rounded down.
pub open spec fn millis_between(since: u64, now: u64) -> u64 {
    if now >= since {
        ((now - since) / NANOS_PER_MILLI as int) as u64
    } else {
        0
    }
}

pub fn elapsed_ms(since: u64, now: u64) -> (elapsed: u64)
    ensures
        elapsed == millis_between(since, now),
{
    now.saturating_sub(since) / NANOS_PER_MILLI
}

/// The signals that a dirty target still waits for: in order the terminal ones
/// that were not seen, and behind them the completion of the dispatch, if it was
/// not, also where it is a terminal signal itself.
pub open spec fn missing(dirty: DirtyState, seen: Set<SettlementSignal>) -> Seq<SettlementSignal> {
    let required = in_order(dirty.profile.required_terminal_signals@.difference(seen));
    if seen.contains(SettlementSignal::DispatchComplete) {
        required
    } else {
        required.push(SettlementSignal::DispatchComplete)
    }
}

pub fn pending_evidence(dirty: &DirtyState, observed: SignalSet, now: u64) -> (pending:
    PendingSettlementEvidence)
    ensures
        pending.trigger_action_id@ == dirty.action_id@,
        pending.profile@ == dirty.profile.name@,
        pending.elapsed_ms == millis_between(dirty.since, now),
        pending.observed_signals@ == in_order(observed@),
        pending.missing_signals@ == missing(*dirty, observed@),
{
    let required: &SignalSet = &dirty.profile.required_terminal_signals;
    let signals: Vec<SettlementSignal> = every_signal();
    let mut missing_signals: Vec<SettlementSignal> = Vec::new();
    let mut index: usize = 0;
    while index < signals.len()
        invariant
            index <= signals.len(),
            missing_signals@ == kept(
                signals@.take(index as int),
                required@.difference(observed@),
            ),
        decreases signals.len() - index,
    {
        let signal: SettlementSignal = signals[index];
        assert(signals@.take(index as int + 1).drop_last() =~= signals@.take(index as int));
        if required.contains(signal) && !observed.contains(signal) {
            missing_signals.push(signal);
        }
        index = index + 1;
    }
    assert(signals@.take(index as int) =~= signals@);
    if !observed.contains(SettlementSignal::DispatchComplete) {
        missing_signals.push(SettlementSignal::DispatchComplete);
    }
    PendingSettlementEvidence {
        trigger_action_id: dirty.action_id.clone(),
        profile: dirty.profile.name.clone(),
        elapsed_ms: elapsed_ms(dirty.since, now),
        observed_signals: observed.list(),
        missing_signals,
    }
}

/// The time since which the target counts as quiet, once every terminal signal
/// is there: the moment it became eligible, or the latest relevant signal.
pub open spec fn quiet_since(eligible_since: Option<u64>, latest: Option<u64>, now: u64) -> u64 {
    let start = match eligible_since {
        Some(prior) => prior,
        None => now,
    };
    match latest {
        Some(latest) if latest > start => latest,
        _ => start,
    }
}

/// Whether the quiet window is over at a time.
pub open spec fn quiet_over(since: u64, quiet_window_ms: u64, now: u64) -> bool {
    let quiet = if now >= since {
        now - since
    } else {
        0
    };
    quiet >= quiet_window_ms * NANOS_PER_MILLI
}

/// What becomes of a dirty target at a given time: it has settled once its
/// terminal evidence is complete and the relevant signals have been quiet, it
/// stays pending at the deadline, and it waits before that.
pub open spec fn is_step(
    records: Seq<RecordedSignal>,
    dirty: DirtyState,
    relevant: Set<SettlementSignal>,
    eligible_since: Option<u64>,
    now: u64,
    deadline: u64,
    step: SettleStep,
) -> bool {
    let done = terminal(dirty, records);
    exists|latest: Option<u64>|
        #![trigger quiet_since(eligible_since, latest, now)]
        {
            let since = quiet_since(eligible_since, latest, now);
            &&& is_latest_relevant(records, relevant, latest)
            &&& step is Settled <==> done && quiet_over(
                since,
                dirty.profile.quiet_window_ms,
                now,
            )
            &&& step is Pending <==> !(step is Settled) && now >= deadline
            &&& step matches SettleStep::Wait { eligible_since: next, wake_at } ==> {
                &&& next == if done {
                    Some(since)
                } else {
                    None
                }
                &&& wake_at == if done && since + dirty.profile.quiet_window_ms
                    * NANOS_PER_MILLI < deadline {
                    since + dirty.profile.quiet_window_ms * NANOS_PER_MILLI
                } else {
                    deadline as int
                }
            }
        }
}

impl MacSignalJournal {
    /// Decides whether a dirty target has settled: terminal evidence exists and
    /// target-relevant native signals have been quiet for the profile window.
    /// The timer is not a fixed sleep: every relevant notification interrupts
    /// and resets it.
    pub fn settle(
        &self,
        dirty: &DirtyState,
        relevant_signals: &SignalSet,
        eligible_since: Option<u64>,
        now: u64,
        deadline: u64,
    ) -> (step: SettleStep)
        requires
            dirty.wf(),
        ensures
            is_step(
                records_since(self@, dirty.since),
                *dirty,
                relevant_signals@,
                eligible_since,
                now,
                deadline,
                step,
            ),
            match step {
                SettleStep::Settled(evidence) => {
                    &&& evidence.trigger_action_id matches Some(id) && id@ == dirty.action_id@
                    &&& evidence.profile@ == dirty.profile.name@
                    &&& evidence.elapsed_ms == millis_between(dirty.since, now)
                    &&& evidence.observed_signals@ == in_order(
                        observed(*dirty, records_since(self@, dirty.since)),
                    )
                    &&& evidence.terminal_signal@ == "target_notifications_quiet"@
                    &&& evidence.quiet_window_ms == dirty.profile.quiet_window_ms
                    &&& evidence.resumed_from_prior_call == dirty.resumed_from_prior_call
                },
                SettleStep::Pending(pending) => {
                    let seen = observed(*dirty, records_since(self@, dirty.since));
                    &&& pending.trigger_action_id@ == dirty.action_id@
                    &&& pending.profile@ == dirty.profile.name@
                    &&& pending.elapsed_ms == millis_between(dirty.since, now)
                    &&& pending.observed_signals@ == in_order(seen)
                    &&& pending.missing_signals@ == missing(*dirty, seen)
                },
                SettleStep::Wait { .. } => true,
            },
    {
        let records: Vec<RecordedSignal> = self.snapshot_since(dirty.since);
        let seen: SignalSet = observed_signals(dirty, &records);
        let done: bool = seen.contains(SettlementSignal::DispatchComplete)
            && dirty.profile.required_terminal_signals.is_subset(&seen);
        let latest: Option<u64> = latest_relevant_signal(&records, relevant_signals);
        let start: u64 = match eligible_since {
            Some(prior) => prior,
            None => now,
        };
        let since: u64 = match latest {
            Some(latest) => if latest > start {
                latest
            } else {
                start
            },
            None => start,
        };
        assert(since == quiet_since(eligible_since, latest, now));
        let window: u128 = dirty.profile.quiet_window_ms as u128 * 1_000_000u128;
        if done {
            if now.saturating_sub(since) as u128 >= window {
                return SettleStep::Settled(
                    SettlementEvidence {
                        trigger_action_id: Some(dirty.action_id.clone()),
                        profile: dirty.profile.name.clone(),
                        elapsed_ms: elapsed_ms(dirty.since, now),
                        observed_signals: seen.list(),
                        terminal_signal: "target_notifications_quiet".to_owned(),
                        quiet_window_ms: dirty.profile.quiet_window_ms,
                        resumed_from_prior_call: dirty.resumed_from_prior_call,
                    },
                );
            }
        }
        if now >= deadline {
            return SettleStep::Pending(pending_evidence(dirty, seen, now));
        }
        if done {
            let quiet_at: u128 = since as u128 + window;
            let wake_at: u64 = if quiet_at < deadline as u128 {
                quiet_at as u64
            } else {
                deadline
            };
            SettleStep::Wait { eligible_since: Some(since), wake_at }
        } else {
            SettleStep::Wait { eligible_since: None, wake_at: deadline }
        }
    }
}

/// A target never settles within the quiet window of a relevant signal that
/// the journal still holds.
pub proof fn a_relevant_signal_resets_the_quiet_window(
    records: Seq<RecordedSignal>,
    relevant: Set<SettlementSignal>,
    eligible_since: Option<u64>,
    latest: Option<u64>,
    quiet_window_ms: u64,
    now: u64,
    i: int,
)
    requires
        is_latest_relevant(records, relevant, latest),
        0 <= i < records.len(),
        relevant.contains(records[i].signal),
        quiet_window_ms > 0,
        quiet_over(quiet_since(eligible_since, latest, now), quiet_window_ms, now),
    ensures
        now >= records[i].at + quiet_window_ms * NANOS_PER_MILLI,
{
    assert(latest is Some);
    assert(records[i].at <= latest->0);
}

/// Signals that are not relevant leave the quiet window alone: dropping one
/// from the records changes neither the clock nor the verdict on it.
pub proof fn irrelevant_signals_leave_the_clock_alone(
    records: Seq<RecordedSignal>,
    relevant: Set<SettlementSignal>,
    record: RecordedSignal,
    latest: Option<u64>,
)
    requires
        !relevant.contains(record.signal),
        is_latest_relevant(records, relevant, latest),
    ensures
        is_latest_relevant(records.push(record), relevant, latest),
{
    let longer = records.push(record);
    if let Some(at) = latest {
        let i = choose|i: int|
            0 <= i < records.len() && relevant.contains((#[trigger] records[i]).signal)
                && records[i].at == at;
        assert(longer[i] == records[i]);
    }
    assert forall|i: int|
        0 <= i < longer.len() && relevant.contains((#[trigger] longer[i]).signal) implies 0 <= i
        < records.len() && longer[i] == records[i] by {}
}

proof fn kept_signals_are_those_of_both(
    signals: Seq<SettlementSignal>,
    set: Set<SettlementSignal>,
    signal: SettlementSignal,
)
    ensures
        kept(signals, set).contains(signal) == (signals.contains(signal) && set.contains(signal)),
    decreases signals.len(),
{
    if signals.len() > 0 {
        let shorter = signals.drop_last();
        kept_signals_are_those_of_both(shorter, set, signal);
        assert(signals =~= shorter.push(signals.last()));
        pushing_adds_one(shorter, signals.last(), signal);
        pushing_adds_one(kept(shorter, set), signals.last(), signal);
    }
}

proof fn pushing_adds_one(
    signals: Seq<SettlementSignal>,
    last: SettlementSignal,
    signal: SettlementSignal,
)
    ensures
        signals.push(last).contains(signal) == (signals.contains(signal) || signal == last),
{
    let longer = signals.push(last);
    if signals.contains(signal) {
        let i = choose|i: int| 0 <= i < signals.len() && signals[i] == signal;
        assert(longer[i] == signal);
    }
    assert(longer[signals.len() as int] == last);
}

proof fn kept_signals_are_kept_once(
    signals: Seq<SettlementSignal>,
    set: Set<SettlementSignal>,
)
    requires
        signals.no_duplicates(),
    ensures
        kept(signals, set).no_duplicates(),
    decreases signals.len(),
{
    if signals.len() > 0 {
        let shorter = signals.drop_last();
        kept_signals_are_kept_once(shorter, set);
        kept_signals_are_those_of_both(shorter, set, signals.last());
        if shorter.contains(signals.last()) {
            let i = choose|i: int| 0 <= i < shorter.len() && shorter[i] == signals.last();
            assert(signals[i] == signals[signals.len() - 1]);
        }
    }
}

proof fn all_signals_are_all(signal: SettlementSignal)
    ensures
        all_signals().contains(signal),
        all_signals().no_duplicates(),
{
    let all = all_signals();
    let at: int = match signal {
        SettlementSignal::DispatchStarted => 0,
        SettlementSignal::DispatchComplete => 1,
        SettlementSignal::AxAction => 2,
        SettlementSignal::AxValueChanged => 3,
        SettlementSignal::FocusChanged => 4,
        SettlementSignal::FreshFrame => 5,
        SettlementSignal::MenuOpened => 6,
        SettlementSignal::MenuDismissed => 7,
        SettlementSignal::PointerSequenceComplete => 8,
        SettlementSignal::ScrollChanged => 9,
        SettlementSignal::VerificationReadbackComplete => 10,
        SettlementSignal::WindowGeometryChanged => 11,
        SettlementSignal::WindowListChanged => 12,
    };
    assert(all[at] == signal);
}

/// A listing holds exactly the signals of its set, each once.
pub proof fn a_listing_holds_each_signal_of_its_set_once(
    set: Set<SettlementSignal>,
    signal: SettlementSignal,
)
    ensures
        in_order(set).no_duplicates(),
        in_order(set).contains(signal) <==> set.contains(signal),
{
    all_signals_are_all(signal);
    kept_signals_are_kept_once(all_signals(), set);
    kept_signals_are_those_of_both(all_signals(), set, signal);
}

/// A pending answer lists as missing exactly what is awaited and was not
/// observed, each signal once, but for the completion of a dispatch that is a
/// terminal signal itself.
pub proof fn missing_is_what_was_not_observed(
    dirty: DirtyState,
    seen: Set<SettlementSignal>,
    signal: SettlementSignal,
)
    ensures
        !dirty.profile.required_terminal_signals@.contains(SettlementSignal::DispatchComplete)
            ==> missing(dirty, seen).no_duplicates(),
        missing(dirty, seen).contains(signal) <==> !seen.contains(signal) && (signal
            == SettlementSignal::DispatchComplete
            || dirty.profile.required_terminal_signals@.contains(signal)),
{
    let required = dirty.profile.required_terminal_signals@.difference(seen);
    a_listing_holds_each_signal_of_its_set_once(required, SettlementSignal::DispatchComplete);
    a_listing_holds_each_signal_of_its_set_once(required, signal);
    pushing_adds_one(in_order(required), SettlementSignal::DispatchComplete, signal);
}

#[derive(Debug, Clone, Copy, PartialEq, Eq, Structural)]
pub enum MacAxEvent {
    ContentChanged,
    FocusChanged,
    TreeChanged,
    WindowGeometryChanged,
    WindowDestroyed,
    MenuOpened,
    MenuDismissed,
    ScrollChanged,
}

impl MacAxEvent {
    pub open spec fn signal(self) -> SettlementSignal {
        match self {
            MacAxEvent::ContentChanged => SettlementSignal::AxValueChanged,
            MacAxEvent::FocusChanged => SettlementSignal::FocusChanged,
            MacAxEvent::TreeChanged => SettlementSignal::AxAction,
            MacAxEvent::WindowGeometryChanged => SettlementSignal::WindowGeometryChanged,
            MacAxEvent::WindowDestroyed => SettlementSignal::WindowListChanged,
            MacAxEvent::MenuOpened => SettlementSignal::MenuOpened,
            MacAxEvent::MenuDismissed => SettlementSignal::MenuDismissed,
            MacAxEvent::ScrollChanged => SettlementSignal::ScrollChanged,
        }
    }

    pub fn settlement_signal(self) -> (signal: SettlementSignal)
        ensures
            signal == self.signal(),
    {
        match self {
            MacAxEvent::ContentChanged => SettlementSignal::AxValueChanged,
            MacAxEvent::FocusChanged => SettlementSignal::FocusChanged,
            MacAxEvent::TreeChanged => SettlementSignal::AxAction,
            MacAxEvent::WindowGeometryChanged => SettlementSignal::WindowGeometryChanged,
            MacAxEvent::WindowDestroyed => SettlementSignal::WindowListChanged,
            MacAxEvent::MenuOpened => SettlementSignal::MenuOpened,
            MacAxEvent::MenuDismissed => SettlementSignal::MenuDismissed,
            MacAxEvent::ScrollChanged => SettlementSignal::ScrollChanged,
        }
    }
}

pub open spec fn notification_event(name: Seq<char>) -> Option<MacAxEvent> {
    if name == "AXFocusedUIElementChanged"@ || name == "AXFocusedWindowChanged"@ {
        Some(MacAxEvent::FocusChanged)
    } else if name == "AXValueChanged"@ || name == "AXSelectedTextChanged"@ || name
        == "AXSelectedChildrenChanged"@ || name == "AXTitleChanged"@ {
        Some(MacAxEvent::ContentChanged)
    } else if name == "AXUIElementDestroyed"@ {
        Some(MacAxEvent::WindowDestroyed)
    } else if name == "AXMoved"@ || name == "AXResized"@ {
        Some(MacAxEvent::WindowGeometryChanged)
    } else if name == "AXMenuOpened"@ {
        Some(MacAxEvent::MenuOpened)
    } else if name == "AXMenuClosed"@ || name == "AXMenuItemSelected"@ {
        Some(MacAxEvent::MenuDismissed)
    } else if name == "AXSelectedRowsChanged"@ || name == "AXSelectedColumnsChanged"@ {
        Some(MacAxEvent::ScrollChanged)
    } else if name == "AXLayoutChanged"@ {
        Some(MacAxEvent::TreeChanged)
    } else {
        None
    }
}

/// The event that an AX notification stands for; no content passes through.
pub fn event_for_notification(notification: &str) -> (event: Option<MacAxEvent>)
    ensures
        event == notification_event(notification@),
{
    if same_text(notification, "AXFocusedUIElementChanged") || same_text(
        notification,
        "AXFocusedWindowChanged",
    ) {
        Some(MacAxEvent::FocusChanged)
    } else if same_text(notification, "AXValueChanged") || same_text(
        notification,
        "AXSelectedTextChanged",
    ) || same_text(notification, "AXSelectedChildrenChanged") || same_text(
        notification,
        "AXTitleChanged",
    ) {
        Some(MacAxEvent::ContentChanged)
    } else if same_text(notification, "AXUIElementDestroyed") {
        Some(MacAxEvent::WindowDestroyed)
    } else if same_text(notification, "AXMoved") || same_text(notification, "AXResized") {
        Some(MacAxEvent::WindowGeometryChanged)
    } else if same_text(notification, "AXMenuOpened") {
        Some(MacAxEvent::MenuOpened)
    } else if same_text(notification, "AXMenuClosed") || same_text(
        notification,
        "AXMenuItemSelected",
    ) {
        Some(MacAxEvent::MenuDismissed)
    } else if same_text(notification, "AXSelectedRowsChanged") || same_text(
        notification,
        "AXSelectedColumnsChanged",
    ) {
        Some(MacAxEvent::ScrollChanged)
    } else if same_text(notification, "AXLayoutChanged") {
        Some(MacAxEvent::TreeChanged)
    } else {
        None
    }
}

pub open spec fn is_focus_notification(name: Seq<char>) -> bool {
    name == "AXFocusedUIElementChanged"@ || name == "AXFocusedWindowChanged"@
}

/// Which notifications reach one exact target window.
#[derive(Debug, Clone, Copy, PartialEq, Eq, Structural)]
pub struct ObserverContext {
    pub target_window_id: u32,
    pub focused_target: bool,
}

impl ObserverContext {
    /// Decides on one notification, given the application's focused window.
    /// Application-level focus callbacks carry the application object: only a
    /// transition entering, staying within, or leaving this exact target window
    /// is accepted. Other callbacks can only originate from elements registered
    /// for this target.
    pub fn accept(&mut self, notification: &str, focused_window: Option<u32>) -> (event: Option<
        MacAxEvent,
    >)
        ensures
            final(self).target_window_id == old(self).target_window_id,
            final(self).focused_target == if is_focus_notification(notification@) {
                focused_window == Some(old(self).target_window_id)
            } else {
                old(self).focused_target
            },
            event == if is_focus_notification(notification@) && !old(self).focused_target
                && !final(self).focused_target {
                None
            } else {
                notification_event(notification@)
            },
    {
        if same_text(notification, "AXFocusedUIElementChanged") || same_text(
            notification,
            "AXFocusedWindowChanged",
        ) {
            let focused: bool = match focused_window {
                Some(window) => window == self.target_window_id,
                None => false,
            };
            let was_focused: bool = self.focused_target;
            self.focused_target = focused;
            if !was_focused && !focused {
                return None;
            }
        }
        event_for_notification(notification)
    }
}

/// Whether two lists observe the same elements in the same order.
pub fn same_observed_elements(left: &Vec<u64>, right: &Vec<u64>) -> (same: bool)
    ensures
        same == (left@ == right@),
{
    if left.len() != right.len() {
        return false;
    }
    let mut index: usize = 0;
    while index < left.len()
        invariant
            index <= left.len(),
            left.len() == right.len(),
            forall|i: int| 0 <= i < index ==> #[trigger] left@[i] == right@[i],
        decreases left.len() - index,
    {
        if left[index] != right[index] {
            assert(left@[index as int] != right@[index as int]);
            return false;
        }
        index = index + 1;
    }
    assert(left@ =~= right@);
    true
}

pub open spec fn observer_error_view(message: Seq<char>) -> errors::ErrorView {
    errors::ErrorView::new(ErrorCode::Internal, ErrorPhase::Preflight, true, message)
}

pub fn observer_error(message: &str) -> (error: NativeError)
    ensures
        error@ == observer_error_view(message@),
{
    NativeError::new(ErrorCode::Internal, ErrorPhase::Preflight, true, message)
}

/// Whether enough notifications of the exact window and of the application's
/// focus could be registered.
pub fn registration_outcome(target_registrations: usize, focus_registrations: usize) -> (outcome:
    Result<(), NativeError>)
    ensures
        outcome is Ok <==> target_registrations > 0 && focus_registrations > 0,
        outcome matches Err(error) ==> error@ == observer_error_view(
            "target AX window lacks required exact window or application-focus notifications"@,
        ),
{
    if target_registrations == 0 || focus_registrations == 0 {
        return Err(
            observer_error(
                "target AX window lacks required exact window or application-focus notifications",
            ),
        );
    }
    Ok(())
}

/// Whether the requested descendants are observed: some notification took
/// hold, or none was asked for.
pub fn descendant_outcome(element_count: usize, registered: usize) -> (outcome: Result<
    (),
    NativeError,
>)
    ensures
        outcome is Ok <==> element_count == 0 || registered > 0,
        outcome matches Err(error) ==> error@ == observer_error_view(
            "target descendants support no AX mutation notifications"@,
        ),
{
    if element_count == 0 || registered > 0 {
        Ok(())
    } else {
        Err(observer_error("target descendants support no AX mutation notifications"))
    }
}

} // verus!
