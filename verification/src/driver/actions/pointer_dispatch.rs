//! The dispatch of a prepared pointer sequence, one native step at a time: what
//! is asked of the host next, and what its answer leads to.
use vstd::prelude::*;

use crate::contracts::{MouseButton, ResolvedWindowStamp, SettlementSignal, VerificationLevel};
use crate::driver::actions;
use crate::driver::actions::pointer;
use crate::driver::actions::pointer::{
    ensure_dispatch_target, finish_dispatch, pointer_menu_step, wait_for_dismissed_menu,
    wait_for_opened_menu, CleanupResult, EventPoint, FailurePlan,
    MacPreparedPointerAction, PointerDispatchEvidence, PointerMenuStep, PointerRun,
    PreparedSequence,
};
use crate::driver::actions::semantic::{arming_failed, menu_outcome_after_target, MenuOutcome};
use crate::driver::actions::NativeDispatch;
use crate::driver::interaction::MenuMutationIntent;
use crate::driver::menu::NativeMenuIdentity;
use crate::errors;
use crate::errors::{ErrorCode, NativeError};
use crate::evidence;
use crate::evidence::Fields;

verus! {

/// What a dispatch awaits.
#[derive(Debug, Clone, Copy, PartialEq, Eq, Structural)]
pub enum PointerStage {
    /// The target of the sequence is validated for the last time.
    Validate,
    /// The clock is read for the next event.
    Schedule,
    /// The next event is posted, `wait` nanoseconds later.
    Post { wait: u64 },
    /// The button that is still down is let go.
    Release { button: MouseButton, at: EventPoint },
    /// The menu suppression of the scope is armed.
    Arm,
    /// A menu that should have opened is looked for.
    OpenedMenu,
    /// The menu is looked for once it had time to react.
    MenuReaction,
    /// A menu that should have gone is looked for.
    DismissedMenu,
    Done,
}

/// What the host reports to a dispatch.
#[derive(Debug)]
pub enum PointerEvent {
    Validated { outcome: Result<(), NativeError>, now: u64 },
    Clock { now: u64 },
    /// An event was posted or not; `boundary_started` tells whether the
    /// side-effect boundary has been entered.
    Posted { outcome: Result<(), NativeError>, boundary_started: bool },
    Released { posted: bool },
    Armed(Result<(), NativeError>),
    MenuLooked { found: Result<Option<NativeMenuIdentity>, NativeError>, now: u64 },
}

/// A dispatch in progress.
#[derive(Debug)]
pub struct PointerDispatch {
    pub sequence: PreparedSequence,
    pub route_name: &'static str,
    pub intent: Option<MenuMutationIntent>,
    pub deadline: u64,
    pub stage: PointerStage,
    pub run: PointerRun,
    pub boundary_started: bool,
    /// The sequence was given up while it was being posted.
    pub post_failed: bool,
    /// The failure that is reported once the button was let go.
    pub failure: Option<NativeError>,
    /// Where the logical cursor is, once an event or the end of a successful
    /// dispatch has moved it.
    pub cursor: Option<EventPoint>,
    /// What the scope's evidence gains, whatever the result.
    pub scope_fields: Fields,
    pub menu: Option<(MenuOutcome, NativeMenuIdentity)>,
    /// The target cannot be trusted any more.
    pub invalidates_target: bool,
    pub result: Option<Result<NativeDispatch, NativeError>>,
}

pub ghost struct PointerView {
    pub sequence: PreparedSequence,
    pub route_name: Seq<char>,
    pub intent: Option<MenuMutationIntent>,
    pub deadline: u64,
    pub stage: PointerStage,
    pub run: PointerRun,
    pub boundary_started: bool,
    pub post_failed: bool,
    pub failure: Option<errors::ErrorView>,
    pub cursor: Option<EventPoint>,
    pub scope_fields: Map<Seq<char>, evidence::DetailView>,
    pub menu: Option<(MenuOutcome, NativeMenuIdentity)>,
    pub invalidates_target: bool,
    pub result: Option<Result<actions::DispatchView, errors::ErrorView>>,
}

impl View for PointerDispatch {
    type V = PointerView;

    open spec fn view(&self) -> PointerView {
        PointerView {
            sequence: self.sequence,
            route_name: self.route_name@,
            intent: self.intent,
            deadline: self.deadline,
            stage: self.stage,
            run: self.run,
            boundary_started: self.boundary_started,
            post_failed: self.post_failed,
            failure: match self.failure {
                Some(error) => Some(error@),
                None => None,
            },
            cursor: self.cursor,
            scope_fields: self.scope_fields@,
            menu: self.menu,
            invalidates_target: self.invalidates_target,
            result: match self.result {
                Some(Ok(dispatch)) => Some(Ok(dispatch@)),
                Some(Err(error)) => Some(Err(error@)),
                None => None,
            },
        }
    }
}

/// The run while its next event is being posted: a button that goes down counts
/// as down before anything is known of the post.
pub open spec fn run_posting(run: PointerRun, events: Seq<pointer::EventView>) -> PointerRun {
    let completed = run.evidence.completed_events;
    PointerRun {
        posting: true,
        pressed: pointer::pressing(
            pointer::pressed_after(events, completed as nat),
            events[completed as int],
        ),
        ..run
    }
}

/// The run once its next event was posted.
pub open spec fn run_posted(run: PointerRun, events: Seq<pointer::EventView>) -> PointerRun {
    let completed = (run.evidence.completed_events + 1) as usize;
    PointerRun {
        posting: false,
        pressed: pointer::pressed_after(events, completed as nat),
        evidence: PointerDispatchEvidence {
            completed_events: completed,
            may_have_partially_landed: true,
            ..run.evidence
        },
        ..run
    }
}

/// Where an event leaves the logical cursor.
pub open spec fn cursor_of(event: pointer::EventView) -> Option<EventPoint> {
    match event {
        pointer::EventView::Mouse(mouse) => if mouse.kind is Up {
            Some(mouse.at)
        } else {
            None
        },
        pointer::EventView::PixelScroll { at, .. } => Some(at),
    }
}

/// The report of a sequence that was posted whole.
#[verifier::opaque]
pub open spec fn whole_report(sequence: PreparedSequence, route_name: Seq<char>) -> actions::DispatchView {
    actions::DispatchView {
        verification: VerificationLevel::DispatchUnverified,
        fields: pointer::sequence_fields(
            Map::empty().insert("pointer_route"@, evidence::DetailView::Text(route_name)).insert(
                "pointer_event_count"@,
                evidence::DetailView::Int(sequence.events@.len() as int),
            ).insert(
                "pointer_transport"@,
                evidence::DetailView::Text("appkit_event_core_graphics_post_to_pid_once"@),
            ).insert(
                "surface_id"@,
                evidence::DetailView::Text(sequence.target.surface_id@),
            ).insert(
                "capture_revision"@,
                evidence::DetailView::Text(sequence.target.capture_revision@),
            ).insert(
                "geometry_revision"@,
                evidence::DetailView::Text(sequence.target.geometry_revision@),
            ).insert(
                "observation_epoch"@,
                evidence::DetailView::Int(sequence.target.observation_epoch as int),
            ),
            sequence.target@,
            pointer::events_view(sequence.events@),
        ),
    }
}

impl PointerView {
    pub open spec fn events(self) -> Seq<pointer::EventView> {
        pointer::events_view(self.sequence.events@)
    }

    pub open spec fn completed(self) -> usize {
        self.run.evidence.completed_events
    }

    pub open spec fn failed(self, error: errors::ErrorView) -> PointerView {
        PointerView { stage: PointerStage::Done, result: Some(Err(error)), ..self }
    }

    /// The button that a failure leaves to be let go.
    pub open spec fn owed(self) -> Option<(MouseButton, EventPoint)> {
        if self.boundary_started || self.completed() > 0 {
            self.run.pressed
        } else {
            None
        }
    }

    /// An event could not be posted in time or at all: a button that may be down
    /// is let go first.
    pub open spec fn broken(self, error: errors::ErrorView) -> PointerView {
        match self.owed() {
            Some((button, at)) => PointerView {
                stage: PointerStage::Release { button, at },
                failure: Some(error),
                ..self
            },
            None => self.given_up(error, CleanupResult { attempted: false, succeeded: true }),
        }
    }

    /// The sequence ends with a failure and what its cleanup came to.
    pub open spec fn given_up(self, error: errors::ErrorView, cleanup: CleanupResult) -> PointerView {
        let evidence = PointerDispatchEvidence {
            cleanup_attempted: cleanup.attempted,
            cleanup_succeeded: cleanup.succeeded,
            modifiers_cleared: cleanup.succeeded,
            may_have_partially_landed: self.boundary_started || self.completed() > 0,
            ..self.run.evidence
        };
        PointerView {
            stage: PointerStage::Done,
            run: PointerRun { pressed: None, evidence, ..self.run },
            post_failed: true,
            failure: None,
            scope_fields: evidence.merged(Map::empty()),
            invalidates_target: cleanup.attempted && !cleanup.succeeded,
            result: Some(Err(pointer::with_cleanup(error, cleanup, self.completed()))),
            ..self
        }
    }

    /// The next event is being posted, and nothing is known of the post.
    pub open spec fn stuck(self, boundary_started: bool) -> PointerView {
        PointerView {
            run: run_posting(self.run, self.events()),
            boundary_started,
            ..self
        }
    }

    /// The next event was posted.
    pub open spec fn landed(self, boundary_started: bool) -> PointerView {
        let moved = cursor_of(self.events()[self.completed() as int]);
        PointerView {
            run: run_posted(self.run, self.events()),
            boundary_started,
            cursor: if moved is Some {
                moved
            } else {
                self.cursor
            },
            ..self
        }
    }

    /// The next event, or the end of the sequence.
    pub open spec fn next(self) -> PointerView {
        if self.completed() < self.sequence.events@.len() {
            PointerView { stage: PointerStage::Schedule, ..self }
        } else {
            self.whole()
        }
    }

    /// Every event was posted.
    pub open spec fn whole(self) -> PointerView {
        let evidence = PointerDispatchEvidence {
            may_have_partially_landed: false,
            cleanup_succeeded: true,
            modifiers_cleared: true,
            ..self.run.evidence
        };
        let done = PointerView {
            run: PointerRun { evidence, ..self.run },
            scope_fields: evidence.merged(Map::empty()),
            ..self
        };
        match self.intent {
            None => done.reported(None),
            Some(MenuMutationIntent::Dismissing { .. }) => PointerView {
                stage: PointerStage::DismissedMenu,
                ..done
            },
            Some(_) => PointerView { stage: PointerStage::Arm, ..done },
        }
    }

    /// The dispatch succeeds: the logical cursor is at the sequence's target,
    /// whatever was posted.
    pub open spec fn reported(self, menu: Option<(MenuOutcome, NativeMenuIdentity)>) -> PointerView {
        PointerView {
            stage: PointerStage::Done,
            cursor: Some(EventPoint::End),
            menu,
            result: Some(Ok(whole_report(self.sequence, self.route_name))),
            ..self
        }
    }

    /// What an event leads to; an event that is not awaited changes nothing.
    pub open spec fn after(self, event: PointerEvent) -> PointerView {
        match (self.stage, event) {
            (PointerStage::Validate, PointerEvent::Validated { outcome, now }) => match outcome {
                Err(error) => self.failed(error@),
                Ok(_) => (PointerView {
                    run: PointerRun {
                        started_at: now,
                        deadline: self.deadline,
                        posting: false,
                        pressed: None,
                        evidence: PointerDispatchEvidence::blank(),
                    },
                    ..self
                }).next(),
            },
            (PointerStage::Schedule, PointerEvent::Clock { now }) => {
                let scheduled = self.run.started_at + self.events()[self.completed() as int].after()
                    * 1_000_000;
                if now > self.deadline || scheduled > self.deadline {
                    self.broken(pointer::timed_out())
                } else {
                    PointerView {
                        stage: PointerStage::Post {
                            wait: if scheduled > now {
                                (scheduled - now) as u64
                            } else {
                                0
                            },
                        },
                        ..self
                    }
                }
            },
            (PointerStage::Post { .. }, PointerEvent::Posted { outcome, boundary_started })
            => match outcome {
                Err(error) => self.stuck(boundary_started).broken(error@),
                Ok(_) => self.landed(boundary_started).next(),
            },
            (PointerStage::Release { .. }, PointerEvent::Released { posted })
            => match self.failure {
                Some(error) => self.given_up(
                    error,
                    CleanupResult { attempted: true, succeeded: posted },
                ),
                None => self,
            },
            (PointerStage::Arm, PointerEvent::Armed(armed)) => match armed {
                Err(error) => PointerView {
                    invalidates_target: true,
                    ..self.failed(
                        error@.with(
                            "native_side_effect_started"@,
                            evidence::DetailView::Bool(true),
                        ),
                    )
                },
                Ok(_) => PointerView {
                    stage: if self.intent matches Some(MenuMutationIntent::Opening { .. }) {
                        PointerStage::OpenedMenu
                    } else {
                        PointerStage::MenuReaction
                    },
                    ..self
                },
            },
            (PointerStage::OpenedMenu, PointerEvent::MenuLooked { found, now }) => match found {
                Err(error) => self.failed(error@),
                Ok(Some(identity)) => self.reported(Some((MenuOutcome::Opened, identity))),
                Ok(None) => if now >= self.deadline {
                    self.failed(
                        pointer::menu_timeout(
                            "targeted right click posted but no exact native menu identity arrived before the action deadline"@,
                        ),
                    )
                } else {
                    self
                },
            },
            (PointerStage::MenuReaction, PointerEvent::MenuLooked { found, .. })
            => match (found, self.intent) {
                (Err(error), _) => self.failed(error@),
                (Ok(Some(identity)), _) => self.reported(Some((MenuOutcome::Targeted, identity))),
                (Ok(None), Some(MenuMutationIntent::Targeting { identity, .. })) => self.reported(
                    Some((MenuOutcome::Dismissed, identity)),
                ),
                _ => self,
            },
            (PointerStage::DismissedMenu, PointerEvent::MenuLooked { found, now }) => match (
                found,
                self.intent,
            ) {
                (Err(error), _) => self.failed(error@),
                (Ok(None), Some(MenuMutationIntent::Dismissing { identity, .. })) => self.reported(
                    Some((MenuOutcome::Dismissed, identity)),
                ),
                (Ok(Some(_)), _) => if now >= self.deadline {
                    self.failed(
                        pointer::menu_timeout(
                            "parent-surface click posted but the exact native menu remained open through the action deadline"@,
                        ),
                    )
                } else {
                    self
                },
                _ => self,
            },
            _ => self,
        }
    }

    /// The signals to record when an event arrives, in order.
    pub open spec fn signals(self, event: PointerEvent) -> Seq<SettlementSignal> {
        let next = self.after(event);
        if self.stage is Done || !(next.result matches Some(Ok(_))) {
            Seq::empty()
        } else {
            match next.menu {
                Some((MenuOutcome::Opened, _)) => seq![
                    SettlementSignal::MenuOpened,
                    SettlementSignal::PointerSequenceComplete,
                ],
                Some((MenuOutcome::Dismissed, _)) => seq![
                    SettlementSignal::MenuDismissed,
                    SettlementSignal::PointerSequenceComplete,
                ],
                _ => seq![SettlementSignal::PointerSequenceComplete],
            }
        }
    }

    /// The evidence of the run has reached the scope.
    pub open spec fn accounted(self) -> bool {
        self.scope_fields == self.run.evidence.merged(Map::empty())
    }

    /// The stages fit the sequence: the run counts what was posted and knows
    /// which button is down, its evidence reaches the scope once it is over, and
    /// a result ends the dispatch.
    pub open spec fn wf(self) -> bool {
        &&& self.stage is Done <==> self.result is Some
        &&& self.menu is Some ==> self.stage is Done
        &&& self.post_failed ==> self.result is Some && self.result->0 is Err && self.accounted()
        &&& self.result is Some && self.result->0 is Ok ==> self.accounted() && self.completed()
            == self.sequence.events@.len()
        &&& self.stage is Schedule || self.stage is Post ==> {
            &&& self.run.wf(self.sequence)
            &&& !self.run.posting
            &&& self.run.deadline == self.deadline
            &&& self.completed() < self.sequence.events@.len()
        }
        &&& self.stage matches PointerStage::Release { button, at } ==> {
            &&& self.failure is Some
            &&& self.owed() == Some((button, at))
        }
        &&& self.stage is Arm || self.stage is OpenedMenu || self.stage is MenuReaction
            || self.stage is DismissedMenu ==> self.accounted() && self.completed()
            == self.sequence.events@.len()
        &&& self.stage is Arm ==> self.intent is Some && !(self.intent->0 is Dismissing)
        &&& self.stage is MenuReaction ==> self.intent is Some && self.intent->0 is Targeting
        &&& self.stage is DismissedMenu ==> self.intent is Some && self.intent->0 is Dismissing
    }

    pub open spec fn starting(
        prepared: MacPreparedPointerAction,
        intent: Option<MenuMutationIntent>,
        deadline: u64,
    ) -> PointerView {
        PointerView {
            sequence: prepared.sequence,
            route_name: prepared.route_name@,
            intent,
            deadline,
            stage: PointerStage::Validate,
            run: PointerRun {
                started_at: 0,
                deadline,
                posting: false,
                pressed: None,
                evidence: PointerDispatchEvidence::blank(),
            },
            boundary_started: false,
            post_failed: false,
            failure: None,
            cursor: None,
            scope_fields: Map::empty(),
            menu: None,
            invalidates_target: false,
            result: None,
        }
    }
}

/// Events are posted one after another: an event is posted only after its time
/// was found to lie before the deadline, and at most one more counts as posted.
pub proof fn events_are_posted_in_time(state: PointerView, event: PointerEvent)
    requires
        state.wf(),
    ensures
        ({
            let next = state.after(event);
            &&& next.stage is Post && !(state.stage is Post) ==> {
                &&& state.stage is Schedule
                &&& event matches PointerEvent::Clock { now }
                &&& now <= state.deadline
                &&& state.run.started_at + state.events()[state.completed() as int].after()
                    * 1_000_000 <= state.deadline
            }
            &&& !(state.stage is Validate) ==> state.completed() <= next.completed()
                <= state.completed() + 1
        }),
{
    assert(state.sequence.events.len() == state.sequence.events@.len());
}

/// A failed dispatch of which something may have landed does not end with a
/// button down: the release comes first, and where it could not be posted the
/// target is given up.
pub proof fn failures_owe_the_release(state: PointerView, event: PointerEvent)
    requires
        state.wf(),
        state.stage is Schedule || state.stage is Post || state.stage is Release,
    ensures
        ({
            let next = state.after(event);
            next.stage is Done && next.result->0 is Err ==> {
                &&& next.run.pressed is None
                &&& state.stage is Release ==> next.invalidates_target
                    == !(event matches PointerEvent::Released { posted } && posted)
                &&& !(state.stage is Release) ==> (match event {
                    PointerEvent::Posted { boundary_started, .. } => !boundary_started
                        && state.completed() == 0 || run_posting(
                        state.run,
                        state.events(),
                    ).pressed is None,
                    _ => state.owed() is None,
                })
            }
        }),
{
}

/// Every successful dispatch leaves the logical cursor at the target of its
/// sequence, also one without events.
pub proof fn success_moves_the_cursor_to_the_target(state: PointerView, event: PointerEvent)
    requires
        state.result is None,
    ensures
        state.after(event).result matches Some(Ok(_)) ==> state.after(event).cursor == Some(
            EventPoint::End,
        ),
{
}

/// The error of a dispatch is one of posting exactly where it ended while the
/// sequence was being scheduled, posted or cleaned up: neither a refused
/// validation nor a menu that went wrong counts as one.
pub proof fn only_posting_fails_a_post(state: PointerView, event: PointerEvent)
    requires
        state.wf(),
        state.result is None,
    ensures
        state.after(event).post_failed <==> {
            &&& state.stage is Schedule || state.stage is Post || state.stage is Release
            &&& state.after(event).result is Some
            &&& state.after(event).result->0 is Err
        },
        state.after(event).post_failed ==> state.after(event).accounted(),
{
}

/// A finished dispatch is final: no event changes it or signals anything.
pub proof fn a_finished_pointer_dispatch_is_final(state: PointerView, event: PointerEvent)
    requires
        state.stage is Done,
    ensures
        state.after(event) == state,
        state.signals(event) == Seq::<SettlementSignal>::empty(),
{
}

impl PointerDispatch {
    /// Admits a prepared sequence to its target.
    pub fn begin(
        prepared: MacPreparedPointerAction,
        invalidated: bool,
        target: &ResolvedWindowStamp,
        scope_owner: &ResolvedWindowStamp,
        intent: Option<MenuMutationIntent>,
        deadline: u64,
    ) -> (run: Result<PointerDispatch, NativeError>)
        ensures
            match run {
                Ok(run) => {
                    &&& !invalidated && scope_owner@ == target@
                    &&& run@ == PointerView::starting(prepared, intent, deadline)
                    &&& run@.wf()
                },
                Err(error) => {
                    &&& invalidated || scope_owner@ != target@
                    &&& error@ == errors::ErrorView::stale(
                        ErrorCode::WindowIdentityChanged,
                        "targeted pointer dispatch target changed after prepare"@,
                    )
                },
            },
    {
        match ensure_dispatch_target(invalidated, target, scope_owner) {
            Err(error) => Err(error),
            Ok(_) => {
                let run: PointerRun = PointerRun::begin(0, deadline, &prepared.sequence);
                Ok(
                    PointerDispatch {
                        sequence: prepared.sequence,
                        route_name: prepared.route_name,
                        intent,
                        deadline,
                        stage: PointerStage::Validate,
                        run,
                        boundary_started: false,
                        post_failed: false,
                        failure: None,
                        cursor: None,
                        scope_fields: Fields::new(),
                        menu: None,
                        invalidates_target: false,
                        result: None,
                    },
                )
            },
        }
    }

    /// Whether the error of the dispatch came out of posting: such an error, and
    /// no other, carries the scope's evidence.
    pub fn error_carries_evidence(&self) -> (carries: bool)
        ensures
            carries == self@.post_failed,
    {
        self.post_failed
    }

    fn fail(&mut self, error: NativeError)
        ensures
            final(self)@ == old(self)@.failed(error@),
    {
        self.stage = PointerStage::Done;
        self.result = Some(Err(error));
    }

    fn give_up(&mut self, error: NativeError, plan: FailurePlan, released: bool)
        requires
            plan.dispatch_started == (old(self).boundary_started
                || old(self).run.evidence.completed_events > 0),
        ensures
            final(self)@ == old(self)@.given_up(
                error@,
                match plan.release {
                    Some(_) => CleanupResult { attempted: true, succeeded: released },
                    None => CleanupResult { attempted: false, succeeded: true },
                },
            ),
    {
        let reported: NativeError = self.run.fail(plan, released, error);
        let mut fields: Fields = Fields::new();
        self.run.evidence.merge_into(&mut fields);
        self.scope_fields = fields;
        self.invalidates_target = self.run.evidence.poisons_target();
        self.post_failed = true;
        self.failure = None;
        self.stage = PointerStage::Done;
        self.result = Some(Err(reported));
    }

    fn break_off(&mut self, error: NativeError)
        ensures
            final(self)@ == old(self)@.broken(error@),
    {
        let plan: FailurePlan = self.run.failure(self.boundary_started);
        match plan.release {
            Some((button, at)) => {
                self.stage = PointerStage::Release { button, at };
                self.failure = Some(error);
            },
            None => self.give_up(error, plan, false),
        }
    }

    fn report(&mut self, menu: Option<(MenuOutcome, NativeMenuIdentity)>) -> (signals: Vec<
        SettlementSignal,
    >)
        ensures
            final(self)@ == old(self)@.reported(menu),
            signals@ == match menu {
                Some((MenuOutcome::Opened, _)) => seq![
                    SettlementSignal::MenuOpened,
                    SettlementSignal::PointerSequenceComplete,
                ],
                Some((MenuOutcome::Dismissed, _)) => seq![
                    SettlementSignal::MenuDismissed,
                    SettlementSignal::PointerSequenceComplete,
                ],
                _ => seq![SettlementSignal::PointerSequenceComplete],
            },
    {
        let mut signals: Vec<SettlementSignal> = Vec::new();
        if let Some((outcome, _)) = &menu {
            if let Some(signal) = outcome.signal() {
                signals.push(signal);
            }
        }
        let (dispatch, complete) = finish_dispatch(&self.sequence, self.route_name);
        signals.push(complete);
        proof {
            reveal(whole_report);
            match menu {
                Some((MenuOutcome::Opened, _)) => {
                    assert(signals@ =~= seq![
                        SettlementSignal::MenuOpened,
                        SettlementSignal::PointerSequenceComplete,
                    ]);
                },
                Some((MenuOutcome::Dismissed, _)) => {
                    assert(signals@ =~= seq![
                        SettlementSignal::MenuDismissed,
                        SettlementSignal::PointerSequenceComplete,
                    ]);
                },
                _ => {
                    assert(signals@ =~= seq![SettlementSignal::PointerSequenceComplete]);
                },
            }
        }
        self.stage = PointerStage::Done;
        self.cursor = Some(EventPoint::End);
        self.menu = menu;
        self.result = Some(Ok(dispatch));
        signals
    }

    fn go_on(&mut self) -> (signals: Vec<SettlementSignal>)
        requires
            old(self).run.wf(old(self).sequence),
            old(self).menu is None,
        ensures
            final(self)@ == old(self)@.next(),
            signals@ == if final(self).result matches Some(Ok(_)) && final(self).stage is Done {
                seq![SettlementSignal::PointerSequenceComplete]
            } else {
                Seq::empty()
            },
    {
        if self.run.next(&self.sequence).is_some() {
            self.stage = PointerStage::Schedule;
            return Vec::new();
        }
        self.run.finish(&self.sequence);
        let mut fields: Fields = Fields::new();
        self.run.evidence.merge_into(&mut fields);
        self.scope_fields = fields;
        match pointer_menu_step(&self.intent) {
            PointerMenuStep::Nothing => self.report(None),
            PointerMenuStep::WaitForDismissed => {
                self.stage = PointerStage::DismissedMenu;
                Vec::new()
            },
            PointerMenuStep::WaitForOpened | PointerMenuStep::AwaitReaction => {
                self.stage = PointerStage::Arm;
                Vec::new()
            },
        }
    }

    fn prior_menu(&self) -> (prior: Option<NativeMenuIdentity>)
        ensures
            prior == match self.intent {
                Some(MenuMutationIntent::Targeting { identity, .. }) => Some(identity),
                Some(MenuMutationIntent::Dismissing { identity, .. }) => Some(identity),
                _ => None,
            },
    {
        match &self.intent {
            Some(MenuMutationIntent::Targeting { identity, .. }) => Some(identity.clone()),
            Some(MenuMutationIntent::Dismissing { identity, .. }) => Some(identity.clone()),
            _ => None,
        }
    }

    fn validated(&mut self, outcome: Result<(), NativeError>, now: u64) -> (signals: Vec<
        SettlementSignal,
    >)
        requires
            old(self)@.wf(),
            old(self).stage is Validate,
        ensures
            final(self)@ == old(self)@.after(PointerEvent::Validated { outcome, now }),
            final(self)@.wf(),
            signals@ == old(self)@.signals(PointerEvent::Validated { outcome, now }),
    {
        match outcome {
            Err(error) => {
                self.fail(error);
                Vec::new()
            },
            Ok(_) => {
                self.run = PointerRun::begin(now, self.deadline, &self.sequence);
                self.go_on()
            },
        }
    }

    fn clock(&mut self, now: u64)
        requires
            old(self)@.wf(),
            old(self).stage is Schedule,
        ensures
            final(self)@ == old(self)@.after(PointerEvent::Clock { now }),
            final(self)@.wf(),
            !(final(self).result is Some && final(self).result->0 is Ok),
    {
        match self.run.schedule(&self.sequence, now) {
            Err(error) => self.break_off(error),
            Ok(wait) => {
                self.stage = PointerStage::Post { wait };
            },
        }
    }

    fn post_failed(&mut self, error: NativeError, boundary_started: bool)
        requires
            old(self)@.wf(),
            old(self).stage is Post,
        ensures
            final(self)@ == old(self)@.stuck(boundary_started).broken(error@),
            final(self)@.wf(),
            !(final(self).result is Some && final(self).result->0 is Ok),
    {
        self.run.enter_post(&self.sequence);
        self.boundary_started = boundary_started;
        assert(self.run == run_posting(old(self).run, old(self)@.events()));
        self.break_off(error);
    }

    fn post_landed(&mut self, boundary_started: bool) -> (signals: Vec<SettlementSignal>)
        requires
            old(self)@.wf(),
            old(self).stage is Post,
        ensures
            final(self)@ == old(self)@.landed(boundary_started).next(),
            final(self)@.wf(),
            signals@ == if final(self).result matches Some(Ok(_)) {
                seq![SettlementSignal::PointerSequenceComplete]
            } else {
                Seq::empty()
            },
            final(self).menu is None,
    {
        self.run.enter_post(&self.sequence);
        self.boundary_started = boundary_started;
        if let Some(at) = self.run.posted(&self.sequence) {
            self.cursor = Some(at);
        }
        assert(self.run == run_posted(old(self).run, old(self)@.events()));
        self.go_on()
    }

    fn posted(&mut self, outcome: Result<(), NativeError>, boundary_started: bool) -> (signals: Vec<
        SettlementSignal,
    >)
        requires
            old(self)@.wf(),
            old(self).stage is Post,
        ensures
            final(self)@ == old(self)@.after(PointerEvent::Posted { outcome, boundary_started }),
            final(self)@.wf(),
            signals@ == old(self)@.signals(PointerEvent::Posted { outcome, boundary_started }),
    {
        match outcome {
            Err(error) => {
                self.post_failed(error, boundary_started);
                Vec::new()
            },
            Ok(_) => self.post_landed(boundary_started),
        }
    }

    fn released(&mut self, posted: bool)
        requires
            old(self)@.wf(),
            old(self).stage is Release,
        ensures
            final(self)@ == old(self)@.after(PointerEvent::Released { posted }),
            final(self)@.wf(),
            !(final(self).result is Some && final(self).result->0 is Ok),
    {
        let plan: FailurePlan = self.run.failure(self.boundary_started);
        if let Some(error) = self.failure.take() {
            self.give_up(error, plan, posted);
        }
    }

    fn armed(&mut self, armed: Result<(), NativeError>)
        requires
            old(self)@.wf(),
            old(self).stage is Arm,
        ensures
            final(self)@ == old(self)@.after(PointerEvent::Armed(armed)),
            final(self)@.wf(),
            !(final(self).result is Some && final(self).result->0 is Ok),
    {
        match armed {
            Err(error) => {
                self.fail(arming_failed(error));
                self.invalidates_target = true;
            },
            Ok(_) => {
                self.stage = match pointer_menu_step(&self.intent) {
                    PointerMenuStep::WaitForOpened => PointerStage::OpenedMenu,
                    _ => PointerStage::MenuReaction,
                };
            },
        }
    }

    fn menu_looked(
        &mut self,
        found: Result<Option<NativeMenuIdentity>, NativeError>,
        now: u64,
    ) -> (signals: Vec<SettlementSignal>)
        requires
            old(self)@.wf(),
            old(self).stage is OpenedMenu || old(self).stage is MenuReaction
                || old(self).stage is DismissedMenu,
        ensures
            final(self)@ == old(self)@.after(PointerEvent::MenuLooked { found, now }),
            final(self)@.wf(),
            signals@ == old(self)@.signals(PointerEvent::MenuLooked { found, now }),
    {
        let none: Vec<SettlementSignal> = Vec::new();
        let found: Option<NativeMenuIdentity> = match found {
            Err(error) => {
                self.fail(error);
                return none;
            },
            Ok(found) => found,
        };
        match (self.stage, found) {
            (PointerStage::OpenedMenu, Some(identity)) => self.report(
                Some((MenuOutcome::Opened, identity)),
            ),
            (PointerStage::OpenedMenu, None) => {
                if let Err(error) = wait_for_opened_menu(false, now, self.deadline) {
                    self.fail(error);
                }
                none
            },
            (PointerStage::MenuReaction, found) => match self.prior_menu() {
                Some(prior) => {
                    let outcome: (MenuOutcome, NativeMenuIdentity) = menu_outcome_after_target(
                        found,
                        prior,
                    );
                    self.report(Some(outcome))
                },
                None => none,
            },
            (_, None) => match self.prior_menu() {
                Some(prior) => self.report(Some((MenuOutcome::Dismissed, prior))),
                None => none,
            },
            (_, Some(_)) => {
                if let Err(error) = wait_for_dismissed_menu(true, now, self.deadline) {
                    self.fail(error);
                }
                none
            },
        }
    }

    /// Takes an event and moves on; returns the signals to record, in order.
    pub fn advance(&mut self, event: PointerEvent) -> (signals: Vec<SettlementSignal>)
        requires
            old(self)@.wf(),
        ensures
            final(self)@ == old(self)@.after(event),
            final(self)@.wf(),
            signals@ == old(self)@.signals(event),
    {
        match (self.stage, event) {
            (PointerStage::Validate, PointerEvent::Validated { outcome, now }) => {
                return self.validated(outcome, now);
            },
            (PointerStage::Schedule, PointerEvent::Clock { now }) => self.clock(now),
            (PointerStage::Post { .. }, PointerEvent::Posted { outcome, boundary_started }) => {
                return self.posted(outcome, boundary_started);
            },
            (PointerStage::Release { .. }, PointerEvent::Released { posted }) => self.released(
                posted,
            ),
            (PointerStage::Arm, PointerEvent::Armed(armed)) => self.armed(armed),
            (
                PointerStage::OpenedMenu | PointerStage::MenuReaction | PointerStage::DismissedMenu,
                PointerEvent::MenuLooked { found, now },
            ) => {
                return self.menu_looked(found, now);
            },
            _ => {},
        }
        Vec::new()
    }
}

} // verus!
