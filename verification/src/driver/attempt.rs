//! One attempt to observe a window coherently: everything is looked at twice,
//! around the captures, and published only if nothing moved in between.
use vstd::prelude::*;

use crate::contracts;
use crate::contracts::{ResolvedWindowStamp, SurfaceKind};
use crate::driver::actions::pointer::SurfaceOwner;
use crate::driver::elements;
use crate::driver::elements::{AxPublication, RelatedOwner};
use crate::driver::frames::{CaptureFreshness, FrameRefusal, WindowFrameSample};
use crate::driver::observation;
use crate::driver::observation::{
    classify_capture_error, classify_stamp_error, publication_warnings, publish_capture,
    related_surfaces, resolved_from_facts, revalidate_related_identities, same_facts,
    validate_observable, AttemptError,
    Bracket, MacWindowFacts, ResolvedWindow,
};
use crate::driver::snapshot;
use crate::driver::snapshot::{RawAxSnapshot, RawRelatedWindow};
use crate::driver::target::MacTargetState;
use crate::errors;
use crate::errors::{ErrorCode, NativeError};
use crate::text;

verus! {

/// What an attempt awaits.
#[derive(Debug, Clone, Copy, PartialEq, Eq, Structural)]
pub enum AttemptStage {
    /// The facts of the window.
    Facts,
    /// The first AX snapshot.
    Snapshot,
    /// The surfaces of the related windows.
    Related,
    /// The capture of the window and of each related surface, in order.
    Capture,
    /// The second AX snapshot.
    SnapshotAgain,
    /// The related windows once more.
    RelatedAgain,
    /// The facts of the window once more.
    FactsAgain,
    Done,
}

/// What the host reports to an attempt.
#[derive(Debug)]
pub enum AttemptEvent {
    Facts(Result<MacWindowFacts, NativeError>),
    Snapshot(Result<RawAxSnapshot, NativeError>),
    /// The related windows as the registry has them.
    Related(Result<Vec<MacWindowFacts>, NativeError>),
    Captured(Result<(), NativeError>),
    RelatedAgain(Result<Vec<MacWindowFacts>, NativeError>),
    FactsAgain { again: Result<MacWindowFacts, NativeError>, epoch: u64 },
}

/// An attempt in progress.
#[derive(Debug)]
pub struct ObservationAttempt {
    pub target: ResolvedWindowStamp,
    pub include_screenshots: bool,
    /// The signal epoch at which the attempt began.
    pub epoch: u64,
    pub stage: AttemptStage,
    pub facts: Option<MacWindowFacts>,
    pub snapshot: Option<RawAxSnapshot>,
    pub related: Vec<MacWindowFacts>,
    /// The kinds of the related windows' surfaces.
    pub kinds: Vec<SurfaceKind>,
    pub window_captured: bool,
    /// The related surfaces that were captured.
    pub captured: usize,
    pub snapshot_again: Option<RawAxSnapshot>,
    /// The epoch under which the attempt may be published.
    pub result: Option<Result<u64, AttemptError>>,
}

pub ghost struct AttemptRunView {
    pub target: contracts::StampView,
    pub include_screenshots: bool,
    pub epoch: u64,
    pub stage: AttemptStage,
    pub facts: Option<observation::FactsView>,
    pub snapshot: Option<RawAxSnapshot>,
    pub related: Seq<observation::FactsView>,
    pub kinds: Seq<SurfaceKind>,
    pub window_captured: bool,
    pub captured: usize,
    pub snapshot_again: Option<RawAxSnapshot>,
    pub result: Option<Result<u64, observation::AttemptView>>,
}

impl View for ObservationAttempt {
    type V = AttemptRunView;

    open spec fn view(&self) -> AttemptRunView {
        AttemptRunView {
            target: self.target@,
            include_screenshots: self.include_screenshots,
            epoch: self.epoch,
            stage: self.stage,
            facts: match self.facts {
                Some(facts) => Some(facts@),
                None => None,
            },
            snapshot: self.snapshot,
            related: observation::facts_view(self.related@),
            kinds: self.kinds@,
            window_captured: self.window_captured,
            captured: self.captured,
            snapshot_again: self.snapshot_again,
            result: match self.result {
                Some(Ok(epoch)) => Some(Ok(epoch)),
                Some(Err(error)) => Some(Err(error@)),
                None => None,
            },
        }
    }
}

/// Two snapshots show the same related windows.
pub open spec fn same_related_windows(left: Seq<RawRelatedWindow>, right: Seq<RawRelatedWindow>) -> bool {
    &&& left.len() == right.len()
    &&& forall|i: int|
        0 <= i < left.len() ==> snapshot::holds_related(right, #[trigger] left[i])
}

/// A failure of the window registry: some of them only mean that a race was
/// lost.
pub open spec fn registry_failure(error: errors::ErrorView) -> observation::AttemptView {
    if observation::race_code(error.code) {
        observation::AttemptView::Raced { stage: "window_registry_identity_revalidation"@ }
    } else {
        observation::AttemptView::Fatal(error)
    }
}

/// A failure of a capture.
pub open spec fn capture_failure(error: errors::ErrorView) -> observation::AttemptView {
    if error.code is SurfaceStale {
        observation::AttemptView::Raced { stage: observation::capture_stage(error.message) }
    } else {
        observation::AttemptView::Fatal(error)
    }
}

impl AttemptRunView {
    pub open spec fn failed(self, error: observation::AttemptView) -> AttemptRunView {
        AttemptRunView { stage: AttemptStage::Done, result: Some(Err(error)), ..self }
    }

    pub open spec fn raced(self, stage: Seq<char>) -> AttemptRunView {
        self.failed(observation::AttemptView::Raced { stage })
    }

    pub open spec fn at(self, stage: AttemptStage) -> AttemptRunView {
        AttemptRunView { stage, ..self }
    }

    /// The related windows are known, each with the kind of its surface.
    pub open spec fn relating(self, found: Seq<observation::FactsView>) -> AttemptRunView {
        let shown = self.snapshot->0.related_windows@;
        match observation::surface_refusal(found, shown) {
            Some(error) => self.failed(registry_failure(error)),
            None => (AttemptRunView {
                related: found,
                kinds: observation::surface_kinds(found, shown),
                ..self
            }).at(
                if self.include_screenshots {
                    AttemptStage::Capture
                } else {
                    AttemptStage::SnapshotAgain
                },
            ),
        }
    }

    /// The window and each related surface were captured.
    pub open spec fn all_captured(self) -> bool {
        self.window_captured && self.captured == self.kinds.len()
    }

    /// One more surface was captured: the window first, then the related ones.
    pub open spec fn captured_one(self) -> AttemptRunView {
        let next = if self.window_captured {
            AttemptRunView { captured: (self.captured + 1) as usize, ..self }
        } else {
            AttemptRunView { window_captured: true, ..self }
        };
        next.at(
            if next.all_captured() {
                AttemptStage::SnapshotAgain
            } else {
                AttemptStage::Capture
            },
        )
    }

    /// What both looks amount to.
    pub open spec fn concluded(self, again: observation::FactsView, epoch: u64) -> AttemptRunView {
        let done = |result: Result<u64, observation::AttemptView>|
            AttemptRunView { stage: AttemptStage::Done, result: Some(result), ..self };
        if self.facts != Some(again) {
            self.raced("window_facts_bracket"@)
        } else if !self.target.same_window(again.stamp) {
            self.raced("target_window_identity_bracket"@)
        } else if epoch == self.epoch {
            done(Ok(epoch))
        } else {
            match snapshot::snapshot_difference(self.snapshot->0@, self.snapshot_again->0@) {
                Some(difference) => self.raced(difference),
                None => done(Ok(epoch)),
            }
        }
    }

    /// What an event leads to; an event that is not awaited changes nothing.
    pub open spec fn after(self, event: AttemptEvent) -> AttemptRunView {
        match (self.stage, event) {
            (AttemptStage::Facts, AttemptEvent::Facts(facts)) => match facts {
                Err(error) => self.failed(registry_failure(error@)),
                Ok(facts) => match observation::unobservable(facts@) {
                    Some(error) => self.failed(observation::AttemptView::Fatal(error)),
                    None => (AttemptRunView { facts: Some(facts@), ..self }).at(
                        AttemptStage::Snapshot,
                    ),
                },
            },
            (AttemptStage::Snapshot, AttemptEvent::Snapshot(snapshot)) => match snapshot {
                Err(error) => self.failed(observation::AttemptView::Fatal(error@)),
                Ok(snapshot) => (AttemptRunView { snapshot: Some(snapshot), ..self }).at(
                    AttemptStage::Related,
                ),
            },
            (AttemptStage::Related, AttemptEvent::Related(found)) => match found {
                Err(error) => self.failed(registry_failure(error@)),
                Ok(found) => self.relating(observation::facts_view(found@)),
            },
            (AttemptStage::Capture, AttemptEvent::Captured(captured)) => match captured {
                Err(error) => self.failed(capture_failure(error@)),
                Ok(_) => self.captured_one(),
            },
            (AttemptStage::SnapshotAgain, AttemptEvent::Snapshot(again)) => match again {
                Err(error) => self.failed(observation::AttemptView::Fatal(error@)),
                Ok(again) => {
                    let seen = AttemptRunView { snapshot_again: Some(again), ..self };
                    if same_related_windows(
                        self.snapshot->0.related_windows@,
                        again.related_windows@,
                    ) {
                        seen.at(AttemptStage::RelatedAgain)
                    } else {
                        seen.raced("related_ax_identity_revalidation"@)
                    }
                },
            },
            (AttemptStage::RelatedAgain, AttemptEvent::RelatedAgain(again)) => match again {
                Err(error) => self.failed(registry_failure(error@)),
                Ok(again) => if observation::facts_view(again@) == self.related {
                    self.at(AttemptStage::FactsAgain)
                } else {
                    self.raced("related_window_registry_revalidation"@)
                },
            },
            (AttemptStage::FactsAgain, AttemptEvent::FactsAgain { again, epoch }) => match again {
                Err(error) => self.failed(registry_failure(error@)),
                Ok(again) => self.concluded(again@, epoch),
            },
            _ => self,
        }
    }

    /// What has been seen fits the stage.
    pub open spec fn wf(self) -> bool {
        &&& self.stage is Done <==> self.result is Some
        &&& !(self.stage is Facts) && !(self.stage is Done) ==> self.facts is Some
            && observation::unobservable(self.facts->0) is None
        &&& self.stage is Related || self.stage is Capture || self.stage is SnapshotAgain
            || self.stage is RelatedAgain || self.stage is FactsAgain ==> self.snapshot is Some
        &&& self.stage is RelatedAgain || self.stage is FactsAgain ==> {
            &&& self.snapshot_again is Some
            &&& same_related_windows(
                self.snapshot->0.related_windows@,
                self.snapshot_again->0.related_windows@,
            )
        }
        &&& self.stage is Facts || self.stage is Snapshot || self.stage is Related
            ==> self.captured == 0 && !self.window_captured
        &&& self.stage is Capture ==> self.captured <= self.kinds.len() && !self.all_captured()
            && (self.captured > 0 ==> self.window_captured)
        &&& self.include_screenshots && (self.stage is SnapshotAgain || self.stage is RelatedAgain
            || self.stage is FactsAgain) ==> self.all_captured()
        &&& self.result matches Some(Ok(epoch)) ==> {
            &&& self.facts is Some
            &&& observation::unobservable(self.facts->0) is None
            &&& self.target.same_window(self.facts->0.stamp)
            &&& self.snapshot is Some
            &&& self.snapshot_again is Some
            &&& same_related_windows(
                self.snapshot->0.related_windows@,
                self.snapshot_again->0.related_windows@,
            )
            &&& epoch == self.epoch || self.snapshot->0@ == self.snapshot_again->0@
            &&& self.include_screenshots ==> self.all_captured()
        }
    }
}

/// An attempt that may be published was coherent: the window was observable
/// and still the target, every surface was captured, both snapshots show the
/// same related windows, and if anything was signalled meanwhile they show the
/// same contract.
pub proof fn successful_attempts_are_coherent(state: AttemptRunView, event: AttemptEvent)
    requires
        state.wf(),
        !(state.stage is Done),
        state.after(event).result matches Some(Ok(_)),
    ensures
        state.stage is FactsAgain,
        event matches AttemptEvent::FactsAgain { again, epoch } && again is Ok && {
            &&& state.facts == Some(again->Ok_0@)
            &&& observation::unobservable(again->Ok_0@) is None
            &&& state.target.same_window(again->Ok_0@.stamp)
            &&& epoch == state.epoch || state.snapshot->0@ == state.snapshot_again->0@
            &&& state.after(event).result == Some(Ok::<u64, observation::AttemptView>(epoch))
        },
        state.include_screenshots ==> state.all_captured(),
        same_related_windows(
            state.snapshot->0.related_windows@,
            state.snapshot_again->0.related_windows@,
        ),
{
    snapshot::no_difference_means_the_same_contract(
        state.snapshot->0@,
        state.snapshot_again->0@,
    );
}

impl ObservationAttempt {
    pub fn begin(target: &ResolvedWindowStamp, include_screenshots: bool, epoch: u64) -> (attempt:
        ObservationAttempt)
        ensures
            attempt@.wf(),
            attempt@ == (AttemptRunView {
                target: target@,
                include_screenshots,
                epoch,
                stage: AttemptStage::Facts,
                facts: None,
                snapshot: None,
                related: Seq::empty(),
                kinds: Seq::empty(),
                window_captured: false,
                captured: 0,
                snapshot_again: None,
                result: None,
            }),
    {
        let attempt = ObservationAttempt {
            target: target.clone(),
            include_screenshots,
            epoch,
            stage: AttemptStage::Facts,
            facts: None,
            snapshot: None,
            related: Vec::new(),
            kinds: Vec::new(),
            window_captured: false,
            captured: 0,
            snapshot_again: None,
            result: None,
        };
        assert(attempt@.related =~= Seq::<observation::FactsView>::empty());
        attempt
    }

    fn fail(&mut self, error: AttemptError)
        ensures
            final(self)@ == old(self)@.failed(error@),
    {
        self.stage = AttemptStage::Done;
        self.result = Some(Err(error));
    }

    fn see_facts(&mut self, facts: Result<MacWindowFacts, NativeError>)
        requires
            old(self).stage is Facts,
        ensures
            final(self)@ == old(self)@.after(AttemptEvent::Facts(facts)),
    {
        match facts {
            Err(error) => self.fail(classify_stamp_error(error)),
            Ok(facts) => match validate_observable(&facts) {
                Err(error) => self.fail(AttemptError::Fatal(error)),
                Ok(_) => {
                    self.facts = Some(facts);
                    self.stage = AttemptStage::Snapshot;
                },
            },
        }
    }

    fn see_related(&mut self, found: Vec<MacWindowFacts>)
        requires
            old(self)@.wf(),
            old(self).stage is Related,
        ensures
            final(self)@ == old(self)@.relating(observation::facts_view(found@)),
    {
        let kinds: Result<Vec<SurfaceKind>, NativeError> = match &self.snapshot {
            Some(snapshot) => related_surfaces(&found, &snapshot.related_windows),
            None => Ok(Vec::new()),
        };
        match kinds {
            Err(error) => self.fail(classify_stamp_error(error)),
            Ok(kinds) => {
                self.related = found;
                self.kinds = kinds;
                self.stage = if self.include_screenshots {
                    AttemptStage::Capture
                } else {
                    AttemptStage::SnapshotAgain
                };
            },
        }
    }

    fn see_captured(&mut self, captured: Result<(), NativeError>)
        requires
            old(self)@.wf(),
            old(self).stage is Capture,
        ensures
            final(self)@ == old(self)@.after(AttemptEvent::Captured(captured)),
    {
        match captured {
            Err(error) => self.fail(classify_capture_error(error)),
            Ok(_) => {
                if self.window_captured {
                    assert(self.captured < self.kinds.len());
                    self.captured = self.captured + 1;
                } else {
                    self.window_captured = true;
                }
                self.stage = if self.captured == self.kinds.len() {
                    AttemptStage::SnapshotAgain
                } else {
                    AttemptStage::Capture
                };
            },
        }
    }

    fn see_again(&mut self, again: Result<RawAxSnapshot, NativeError>)
        requires
            old(self)@.wf(),
            old(self).stage is SnapshotAgain,
        ensures
            final(self)@ == old(self)@.after(AttemptEvent::Snapshot(again)),
    {
        let again: RawAxSnapshot = match again {
            Err(error) => {
                self.fail(AttemptError::Fatal(error));
                return;
            },
            Ok(again) => again,
        };
        let outcome: Result<(), AttemptError> = match &self.snapshot {
            Some(before) => revalidate_related_identities(before, &again),
            None => Ok(()),
        };
        self.snapshot_again = Some(again);
        match outcome {
            Err(error) => self.fail(error),
            Ok(_) => {
                self.stage = AttemptStage::RelatedAgain;
            },
        }
    }

    fn conclude(&mut self, again: MacWindowFacts, epoch: u64)
        requires
            old(self)@.wf(),
            old(self).stage is FactsAgain,
        ensures
            final(self)@ == old(self)@.concluded(again@, epoch),
    {
        let result: Result<u64, AttemptError> = match (
            &self.facts,
            &self.snapshot,
            &self.snapshot_again,
        ) {
            (Some(facts_a), Some(snapshot_a), Some(snapshot_b)) => {
                let bracket: Bracket<'_> = Bracket {
                    related_unchanged: true,
                    facts_a,
                    facts_b: &again,
                    target: &self.target,
                    epoch_a: self.epoch,
                    epoch_b: epoch,
                    snapshot_a,
                    snapshot_b,
                };
                bracket.publish_epoch()
            },
            _ => Err(AttemptError::Raced { stage: "window_facts_bracket" }),
        };
        self.stage = AttemptStage::Done;
        self.result = Some(result);
    }

    /// Takes an event and moves on.
    pub fn advance(&mut self, event: AttemptEvent)
        requires
            old(self)@.wf(),
        ensures
            final(self)@ == old(self)@.after(event),
            final(self)@.wf(),
    {
        proof {
            if old(self).snapshot is Some && old(self).snapshot_again is Some {
                snapshot::no_difference_means_the_same_contract(
                    old(self).snapshot->0@,
                    old(self).snapshot_again->0@,
                );
            }
        }
        match (self.stage, event) {
            (AttemptStage::Facts, AttemptEvent::Facts(facts)) => self.see_facts(facts),
            (AttemptStage::Snapshot, AttemptEvent::Snapshot(first)) => match first {
                Err(error) => self.fail(AttemptError::Fatal(error)),
                Ok(first) => {
                    self.snapshot = Some(first);
                    self.stage = AttemptStage::Related;
                },
            },
            (AttemptStage::Related, AttemptEvent::Related(found)) => match found {
                Err(error) => self.fail(classify_stamp_error(error)),
                Ok(found) => self.see_related(found),
            },
            (AttemptStage::Capture, AttemptEvent::Captured(captured)) => self.see_captured(
                captured,
            ),
            (AttemptStage::SnapshotAgain, AttemptEvent::Snapshot(again)) => self.see_again(again),
            (AttemptStage::RelatedAgain, AttemptEvent::RelatedAgain(again)) => match again {
                Err(error) => self.fail(classify_stamp_error(error)),
                Ok(again) => if same_facts(&again, &self.related) {
                    self.stage = AttemptStage::FactsAgain;
                } else {
                    self.fail(
                        AttemptError::Raced { stage: "related_window_registry_revalidation" },
                    );
                },
            },
            (AttemptStage::FactsAgain, AttemptEvent::FactsAgain { again, epoch }) => match again {
                Err(error) => self.fail(classify_stamp_error(error)),
                Ok(again) => self.conclude(again, epoch),
            },
            _ => {},
        }
    }
}

/// A captured surface of a target.
#[derive(Debug)]
pub struct CapturedSurface {
    pub cg_window_id: u32,
    pub kind: SurfaceKind,
    /// The related window that the surface belongs to; the target otherwise.
    pub related_owner: Option<ResolvedWindowStamp>,
    pub pixel_width: u32,
    pub pixel_height: u32,
    pub sample: WindowFrameSample,
}

/// A published surface; where its image is kept, the host knows.
#[derive(Debug)]
pub struct SurfaceRecord {
    pub kind: SurfaceKind,
    pub owner: SurfaceOwner,
    pub pixel_width: u32,
    pub pixel_height: u32,
    pub observation_epoch: Option<u64>,
    pub freshness: CaptureFreshness,
    pub approximate_bytes: usize,
}

/// A record describes a surface that was captured for a window.
pub open spec fn describes(
    record: SurfaceRecord,
    capture: CapturedSurface,
    window: contracts::StampView,
    epoch: u64,
) -> bool {
    &&& record.kind == capture.kind
    &&& record.pixel_width == capture.pixel_width
    &&& record.pixel_height == capture.pixel_height
    &&& record.observation_epoch == Some(epoch)
    &&& record.approximate_bytes == capture.sample.png_bytes@.len()
    &&& match capture.related_owner {
        Some(related) => record.owner matches SurfaceOwner::RelatedTransient { owner, parent }
            && owner@ == related@ && parent@ == window,
        None => record.owner matches SurfaceOwner::Target(owner) && owner@ == window,
    }
}

/// A publication in progress: the surfaces are still being classified.
#[derive(Debug)]
pub struct Publication {
    pub window: ResolvedWindow,
    pub accessibility: AxPublication,
    /// The epoch that the attempt may be published under.
    pub epoch: u64,
    pub surfaces: Vec<SurfaceRecord>,
    pub captured_at_unix_ms: u64,
}

/// What a target publishes.
#[derive(Debug)]
pub struct ObservationUpdate {
    pub window: ResolvedWindow,
    pub accessibility: AxPublication,
    /// The captured surfaces, in order.
    pub surfaces: Vec<SurfaceRecord>,
    pub captured_at_unix_ms: u64,
    pub warnings: Vec<String>,
}

/// Why fresh facts do not make a resolved window.
pub open spec fn unresolved(prior: ResolvedWindow, facts: MacWindowFacts) -> Option<
    errors::ErrorView,
> {
    if !prior.stamp@.same_window(facts.stamp@) {
        Some(
            errors::ErrorView::stale(
                ErrorCode::WindowIdentityChanged,
                "refreshed macOS facts changed a stable target identity component"@,
            ),
        )
    } else if facts.scale_factor is None {
        Some(errors::ErrorView::unsupported("target window has no exact backing scale"@))
    } else {
        None
    }
}

impl Publication {
    /// Starts to publish an attempt: the window takes its fresh geometry, and
    /// the elements of the snapshot, whose bounds are in the window, become the
    /// registered ones.
    pub fn begin(
        target: &mut MacTargetState,
        prior: &ResolvedWindow,
        facts: &MacWindowFacts,
        snapshot: RawAxSnapshot,
        related: &Vec<RelatedOwner>,
        fresh_ids: &Vec<String>,
        epoch: u64,
        now_unix_ms: u64,
    ) -> (publication: Result<Publication, NativeError>)
        requires
            old(target).wf(),
            fresh_ids@.len() >= snapshot.nodes@.len(),
        ensures
            final(target).wf(),
            final(target).window == old(target).window,
            final(target).signals == old(target).signals,
            final(target).frames == old(target).frames,
            final(target).observing == old(target).observing,
            final(target).poisoned == old(target).poisoned,
            match unresolved(*prior, *facts) {
                Some(error) => {
                    &&& publication matches Err(found) && found@ == error
                    &&& final(target).elements == old(target).elements
                },
                None => {
                    &&& elements::reconciles(
                        elements::Reconciliation {
                            entries: old(target).elements@,
                            nodes: snapshot.nodes@,
                            fresh_ids: text::texts(fresh_ids@),
                            window_id: facts.cg_window_id,
                            target: facts.stamp@,
                            related: related@,
                        },
                        snapshot,
                        match publication {
                            Ok(publication) => Ok(publication.accessibility),
                            Err(error) => Err(error),
                        },
                        final(target).elements@,
                    )
                    &&& publication matches Ok(publication) ==> {
                        &&& publication.window.stamp@ == facts.stamp@
                        &&& publication.window.bounds == facts.bounds
                        &&& publication.window.scale_factor == facts.scale_factor->0
                        &&& publication.window.state == facts.state
                        &&& publication.epoch == epoch
                        &&& publication.surfaces@ == Seq::<SurfaceRecord>::empty()
                        &&& publication.captured_at_unix_ms == now_unix_ms
                    }
                },
            },
    {
        let window: ResolvedWindow = match resolved_from_facts(prior, facts) {
            Ok(window) => window,
            Err(error) => {
                return Err(error);
            },
        };
        match target.elements.reconcile(
            snapshot,
            facts.cg_window_id,
            &facts.stamp,
            related,
            fresh_ids,
        ) {
            Err(error) => Err(error),
            Ok(accessibility) => Ok(
                Publication {
                    window,
                    accessibility,
                    epoch,
                    surfaces: Vec::new(),
                    captured_at_unix_ms: now_unix_ms,
                },
            ),
        }
    }

    /// Publishes one captured surface; only a frame that is safe to act on is
    /// published.
    pub fn surface(&mut self, target: &mut MacTargetState, capture: &CapturedSurface) -> (outcome:
        Result<CaptureFreshness, FrameRefusal>)
        requires
            old(target).wf(),
        ensures
            final(target).wf(),
            final(target).window == old(target).window,
            final(target).signals == old(target).signals,
            final(target).elements == old(target).elements,
            final(target).observing == old(target).observing,
            final(target).poisoned == old(target).poisoned,
            final(self).window == old(self).window,
            final(self).accessibility == old(self).accessibility,
            final(self).epoch == old(self).epoch,
            observation::capture_publishes(
                old(target).frames@,
                capture.cg_window_id,
                capture.sample,
                old(self).captured_at_unix_ms,
                match outcome {
                    Ok(freshness) => Ok((freshness, final(self).captured_at_unix_ms)),
                    Err(refusal) => Err(refusal),
                },
                final(target).frames@,
            ),
            match outcome {
                Ok(freshness) => {
                    let record = final(self).surfaces@.last();
                    &&& final(self).surfaces@ == old(self).surfaces@.push(record)
                    &&& record.freshness == freshness
                    &&& describes(record, *capture, old(self).window.stamp@, old(self).epoch)
                },
                Err(_) => *final(self) == *old(self),
            },
    {
        match publish_capture(
            &mut target.frames,
            capture.cg_window_id,
            &capture.sample,
            self.captured_at_unix_ms,
        ) {
            Err(refusal) => Err(refusal),
            Ok((freshness, captured_at)) => {
                let owner: SurfaceOwner = match &capture.related_owner {
                    Some(related) => SurfaceOwner::RelatedTransient {
                        owner: related.clone(),
                        parent: self.window.stamp.clone(),
                    },
                    None => SurfaceOwner::Target(self.window.stamp.clone()),
                };
                self.surfaces.push(
                    SurfaceRecord {
                        kind: capture.kind,
                        owner,
                        pixel_width: capture.pixel_width,
                        pixel_height: capture.pixel_height,
                        observation_epoch: Some(self.epoch),
                        freshness,
                        approximate_bytes: capture.sample.png_bytes.len(),
                    },
                );
                self.captured_at_unix_ms = captured_at;
                Ok(freshness)
            },
        }
    }

    /// Ends the publication: the target is now the window with its fresh
    /// geometry.
    pub fn finish(self, target: &mut MacTargetState) -> (update: ObservationUpdate)
        requires
            old(target).wf(),
        ensures
            final(target).wf(),
            *final(target) == (MacTargetState { window: final(target).window, ..*old(target) }),
            final(target).window@ == self.window.stamp@,
            update.window == self.window,
            update.accessibility == self.accessibility,
            update.surfaces == self.surfaces,
            update.captured_at_unix_ms == self.captured_at_unix_ms,
            text::texts(update.warnings@) == if self.accessibility.truncated {
                seq!["AX tree truncated at the bounded 2000-element limit"@]
            } else {
                Seq::empty()
            },
    {
        let warnings: Vec<String> = publication_warnings(self.accessibility.truncated);
        target.window = self.window.stamp.clone();
        ObservationUpdate {
            window: self.window,
            accessibility: self.accessibility,
            surfaces: self.surfaces,
            captured_at_unix_ms: self.captured_at_unix_ms,
            warnings,
        }
    }
}

} // verus!
