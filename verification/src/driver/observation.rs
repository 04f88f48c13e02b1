//! Coherent, window-scoped native observation: what two looks at a window have
//! to agree on before anything is published, and how often to look again.
use vstd::prelude::*;

use crate::contracts;
use crate::contracts::{
    same_stable_identity, ResolvedWindowStamp, SettlementSignal, SurfaceKind, WindowStateKind,
};
use crate::driver::frames;
use crate::driver::frames::{
    missing_frame_metadata, CaptureFreshness, FrameRefusal, MacFrameHistory, WindowFrameEvidence,
    WindowFrameMetadata, WindowFrameSample,
};
use crate::driver::settlement::SettleStep;
use crate::driver::snapshot;
use crate::driver::snapshot::{
    ax_snapshot_contract_difference, related_kind, same_related_identities, AxBounds,
    RawAxSnapshot, RawRelatedWindow,
};
use crate::errors;
use crate::errors::{ErrorCode, ErrorPhase, NativeError};
use crate::evidence;
use crate::text;
use crate::text::{contains_text, push_decimal, same_text};

verus! {

/// Nanoseconds that one observation may take.
pub const OBSERVATION_TIMEOUT: u64 = 10_000_000_000;

/// Nanoseconds kept back to take a capture stream down.
pub const SCK_CAPTURE_TEARDOWN_RESERVE: u64 = 100_000_000;

/// Nanoseconds between looks at a target that may disappear.
pub const SETTLE_SLICE: u64 = 20_000_000;

/// The observation provider, over a registry of windows.
#[derive(Debug)]
pub struct MacObservationProvider<W> {
    pub windows: W,
    /// Where observation artifacts are kept, under the temporary directory.
    pub artifact_directory: String,
}

pub open spec fn artifact_directory_name(process_id: u32) -> Seq<char> {
    "cua-driver-v2-observations-"@ + text::decimal(process_id as nat)
}

impl<W> MacObservationProvider<W> {
    /// A provider whose artifacts stand in a directory of this process alone.
    pub fn new(windows: W, process_id: u32) -> (provider: MacObservationProvider<W>)
        ensures
            provider.windows == windows,
            provider.artifact_directory@ == artifact_directory_name(process_id),
    {
        let mut name: String = "cua-driver-v2-observations-".to_owned();
        push_decimal(&mut name, process_id as u64);
        MacObservationProvider { windows, artifact_directory: name }
    }
}

/// A backing scale: equal scales have equal codes.
#[derive(Debug, Clone, Copy, PartialEq, Eq, Structural)]
pub struct BackingScale {
    pub code: u64,
    /// Finite and above zero.
    pub usable: bool,
}

/// What the window server and the AX tree say of one window.
#[derive(Debug)]
pub struct MacWindowFacts {
    pub stamp: ResolvedWindowStamp,
    pub pid: i32,
    pub process_generation: u64,
    pub cg_window_id: u32,
    pub owner_name: String,
    pub layer: i32,
    pub bounds: AxBounds,
    pub activation_point: Option<(i64, i64)>,
    pub scale_factor: Option<BackingScale>,
    pub state: WindowStateKind,
    pub is_on_screen: bool,
    pub on_current_space: Option<bool>,
    pub space_ids: Option<Vec<u64>>,
    pub minimized: Option<bool>,
}

#[verifier::ext_equal]
pub ghost struct FactsView {
    pub stamp: contracts::StampView,
    pub pid: i32,
    pub process_generation: u64,
    pub cg_window_id: u32,
    pub owner_name: Seq<char>,
    pub layer: i32,
    pub bounds: AxBounds,
    pub activation_point: Option<(i64, i64)>,
    pub scale_factor: Option<BackingScale>,
    pub state: WindowStateKind,
    pub is_on_screen: bool,
    pub on_current_space: Option<bool>,
    pub space_ids: Option<Seq<u64>>,
    pub minimized: Option<bool>,
}

pub open spec fn spaces_view(space_ids: Option<Vec<u64>>) -> Option<Seq<u64>> {
    match space_ids {
        Some(space_ids) => Some(space_ids@),
        None => None,
    }
}

impl View for MacWindowFacts {
    type V = FactsView;

    open spec fn view(&self) -> FactsView {
        FactsView {
            stamp: self.stamp@,
            pid: self.pid,
            process_generation: self.process_generation,
            cg_window_id: self.cg_window_id,
            owner_name: self.owner_name@,
            layer: self.layer,
            bounds: self.bounds,
            activation_point: self.activation_point,
            scale_factor: self.scale_factor,
            state: self.state,
            is_on_screen: self.is_on_screen,
            on_current_space: self.on_current_space,
            space_ids: spaces_view(self.space_ids),
            minimized: self.minimized,
        }
    }
}

fn copy_ids(list: &Vec<u64>) -> (copy: Vec<u64>)
    ensures
        copy@ == list@,
{
    let mut copy: Vec<u64> = Vec::new();
    let mut index: usize = 0;
    while index < list.len()
        invariant
            index <= list.len(),
            copy@ == list@.take(index as int),
        decreases list.len() - index,
    {
        copy.push(list[index]);
        index = index + 1;
        assert(list@.take(index as int) =~= list@.take(index as int - 1).push(
            list@[index as int - 1],
        ));
    }
    assert(list@.take(index as int) =~= list@);
    copy
}

impl Clone for MacWindowFacts {
    fn clone(&self) -> (copy: Self)
        ensures
            copy@ == self@,
    {
        MacWindowFacts {
            stamp: self.stamp.clone(),
            pid: self.pid,
            process_generation: self.process_generation,
            cg_window_id: self.cg_window_id,
            owner_name: self.owner_name.clone(),
            layer: self.layer,
            bounds: self.bounds,
            activation_point: self.activation_point,
            scale_factor: self.scale_factor,
            state: self.state,
            is_on_screen: self.is_on_screen,
            on_current_space: self.on_current_space,
            space_ids: match &self.space_ids {
                Some(list) => Some(copy_ids(list)),
                None => None,
            },
            minimized: self.minimized,
        }
    }
}

fn same_ids(left: &Vec<u64>, right: &Vec<u64>) -> (same: bool)
    ensures
        same == (left@ == right@),
{
    if left.len() != right.len() {
        return false;
    }
    let mut index: usize = 0;
    while index < left.len()
        invariant
            index <= left.len(),
            left@.len() == right@.len(),
            forall|i: int| 0 <= i < index ==> #[trigger] left@[i] == right@[i],
        decreases left.len() - index,
    {
        if left[index] != right[index] {
            assert(left@[index as int] != right@[index as int]);
            return false;
        }
        index = index + 1;
    }
    assert(left@ =~= right@);
    true
}

fn same_flags(left: Option<bool>, right: Option<bool>) -> (same: bool)
    ensures
        same == (left == right),
{
    match (left, right) {
        (Some(left), Some(right)) => left == right,
        (None, None) => true,
        _ => false,
    }
}

impl MacWindowFacts {
    pub fn same(&self, other: &MacWindowFacts) -> (same: bool)
        ensures
            same == (self@ == other@),
    {
        let same_points: bool = match (self.activation_point, other.activation_point) {
            (Some(left), Some(right)) => left.0 == right.0 && left.1 == right.1,
            (None, None) => true,
            _ => false,
        };
        let same_scales: bool = match (self.scale_factor, other.scale_factor) {
            (Some(left), Some(right)) => left == right,
            (None, None) => true,
            _ => false,
        };
        let same_spaces: bool = match (&self.space_ids, &other.space_ids) {
            (Some(left), Some(right)) => same_ids(left, right),
            (None, None) => true,
            _ => false,
        };
        self.stamp.same(&other.stamp) && self.pid == other.pid && self.process_generation
            == other.process_generation && self.cg_window_id == other.cg_window_id && same_text(
            self.owner_name.as_str(),
            other.owner_name.as_str(),
        ) && self.layer == other.layer && self.bounds == other.bounds && same_points && same_scales
            && self.state == other.state && self.is_on_screen == other.is_on_screen && same_flags(
            self.on_current_space,
            other.on_current_space,
        ) && same_spaces && same_flags(self.minimized, other.minimized)
    }
}

/// Why one look at a window was not published.
#[derive(Debug)]
pub enum AttemptError {
    /// The native state moved meanwhile: look again.
    Raced { stage: &'static str },
    Fatal(NativeError),
}

pub ghost enum AttemptView {
    Raced { stage: Seq<char> },
    Fatal(errors::ErrorView),
}

impl View for AttemptError {
    type V = AttemptView;

    open spec fn view(&self) -> AttemptView {
        match self {
            AttemptError::Raced { stage } => AttemptView::Raced { stage: stage@ },
            AttemptError::Fatal(error) => AttemptView::Fatal(error@),
        }
    }
}

/// Errors of the window registry that a race explains.
pub open spec fn race_code(code: ErrorCode) -> bool {
    code is ObservationStale || code is ObservationRaced || code is WindowIdentityChanged
        || code is WindowNotFound
}

pub fn classify_stamp_error(error: NativeError) -> (attempt: AttemptError)
    ensures
        attempt@ == if race_code(error.code) {
            AttemptView::Raced { stage: "window_registry_identity_revalidation"@ }
        } else {
            AttemptView::Fatal(error@)
        },
{
    match error.code {
        ErrorCode::ObservationStale
        | ErrorCode::ObservationRaced
        | ErrorCode::WindowIdentityChanged
        | ErrorCode::WindowNotFound => AttemptError::Raced {
            stage: "window_registry_identity_revalidation",
        },
        _ => AttemptError::Fatal(error),
    }
}

/// What a stale capture raced with, by its message.
pub open spec fn capture_stage(message: Seq<char>) -> Seq<char> {
    if text::occurs(message, "source frame"@) {
        "capture_surface_transform"@
    } else if text::occurs(message, "freshness metadata"@) {
        "capture_freshness_metadata"@
    } else if text::occurs(message, "transiently unavailable"@) || text::occurs(
        message,
        "bounded deadline"@,
    ) {
        "capture_sample_timeout"@
    } else {
        "capture_geometry_revalidation"@
    }
}

pub fn classify_capture_error(error: NativeError) -> (attempt: AttemptError)
    ensures
        attempt@ == if error.code is SurfaceStale {
            AttemptView::Raced { stage: capture_stage(error.message@) }
        } else {
            AttemptView::Fatal(error@)
        },
{
    match error.code {
        ErrorCode::SurfaceStale => {
            let message: &str = error.message.as_str();
            let stage: &'static str = if contains_text(message, "source frame") {
                "capture_surface_transform"
            } else if contains_text(message, "freshness metadata") {
                "capture_freshness_metadata"
            } else if contains_text(message, "transiently unavailable") || contains_text(
                message,
                "bounded deadline",
            ) {
                "capture_sample_timeout"
            } else {
                "capture_geometry_revalidation"
            };
            AttemptError::Raced { stage }
        },
        _ => AttemptError::Fatal(error),
    }
}

/// Whether nothing moved between two looks at the target's window.
pub fn coherent_window_bracket(
    target: &ResolvedWindowStamp,
    facts_a: &MacWindowFacts,
    facts_b: &MacWindowFacts,
    epoch_a: u64,
    epoch_b: u64,
) -> (coherent: bool)
    ensures
        coherent == (epoch_a == epoch_b && facts_a@ == facts_b@ && target@.same_window(
            facts_b.stamp@,
        )),
{
    epoch_a == epoch_b && facts_a.same(facts_b) && same_stable_identity(target, &facts_b.stamp)
}

/// The related windows of both looks have to be the same.
pub fn revalidate_related_identities(
    before: &RawAxSnapshot,
    after: &RawAxSnapshot,
) -> (outcome: Result<(), AttemptError>)
    ensures
        outcome is Ok <==> before.related_windows@.len() == after.related_windows@.len()
            && snapshot::holds_all_related(after.related_windows@, before.related_windows@),
        outcome matches Err(error) ==> error@ == (AttemptView::Raced {
            stage: "related_ax_identity_revalidation"@,
        }),
{
    if same_related_identities(&before.related_windows, &after.related_windows) {
        Ok(())
    } else {
        Err(AttemptError::Raced { stage: "related_ax_identity_revalidation" })
    }
}

/// What was seen of a window on both sides of a capture.
#[derive(Debug)]
pub struct Bracket<'a> {
    pub related_unchanged: bool,
    pub facts_a: &'a MacWindowFacts,
    pub facts_b: &'a MacWindowFacts,
    pub target: &'a ResolvedWindowStamp,
    pub epoch_a: u64,
    pub epoch_b: u64,
    pub snapshot_a: &'a RawAxSnapshot,
    pub snapshot_b: &'a RawAxSnapshot,
}

impl<'a> Bracket<'a> {
    /// The epoch that an attempt may be published under, or what it raced with.
    /// A later epoch is good if both snapshots show the same contract.
    pub open spec fn outcome(&self) -> Result<u64, Seq<char>> {
        if !self.related_unchanged {
            Err("related_window_registry_revalidation"@)
        } else if self.facts_a@ != self.facts_b@ {
            Err("window_facts_bracket"@)
        } else if !self.target@.same_window(self.facts_b.stamp@) {
            Err("target_window_identity_bracket"@)
        } else if self.epoch_a == self.epoch_b {
            Ok(self.epoch_a)
        } else {
            match snapshot::snapshot_difference(self.snapshot_a@, self.snapshot_b@) {
                Some(difference) => Err(difference),
                None => Ok(self.epoch_b),
            }
        }
    }

    pub fn publish_epoch(&self) -> (epoch: Result<u64, AttemptError>)
        ensures
            match epoch {
                Ok(epoch) => self.outcome() == Ok::<u64, Seq<char>>(epoch),
                Err(error) => self.outcome() is Err && error@ == (AttemptView::Raced {
                    stage: self.outcome()->Err_0,
                }),
            },
    {
        if !self.related_unchanged {
            return Err(AttemptError::Raced { stage: "related_window_registry_revalidation" });
        }
        if !self.facts_a.same(self.facts_b) {
            return Err(AttemptError::Raced { stage: "window_facts_bracket" });
        }
        if !same_stable_identity(self.target, &self.facts_b.stamp) {
            return Err(AttemptError::Raced { stage: "target_window_identity_bracket" });
        }
        if self.epoch_a == self.epoch_b {
            return Ok(self.epoch_a);
        }
        match ax_snapshot_contract_difference(self.snapshot_a, self.snapshot_b) {
            Some(stage) => Err(AttemptError::Raced { stage }),
            None => Ok(self.epoch_b),
        }
    }
}

/// Whatever is published was seen twice: the facts of both looks agree and name
/// the target, and either no signal came between them or the two AX snapshots
/// have the same contract.
pub proof fn publications_are_coherent(bracket: Bracket<'_>)
    requires
        bracket.outcome() is Ok,
    ensures
        bracket.related_unchanged,
        bracket.facts_a@ == bracket.facts_b@,
        bracket.target@.same_window(bracket.facts_b.stamp@),
        bracket.epoch_a == bracket.epoch_b || bracket.snapshot_a@ == bracket.snapshot_b@,
        bracket.outcome() == Ok::<u64, Seq<char>>(bracket.epoch_b),
{
    snapshot::no_difference_means_the_same_contract(bracket.snapshot_a@, bracket.snapshot_b@);
}

/// A publication whose epoch moved before its commit raced.
pub fn committed<T>(outcome: Result<Option<T>, NativeError>) -> (published: Result<T, AttemptError>)
    ensures
        match outcome {
            Ok(Some(value)) => published == Ok::<T, AttemptError>(value),
            Ok(None) => published matches Err(error) && error@ == (AttemptView::Raced {
                stage: "publish_signal_epoch_commit"@,
            }),
            Err(failure) => published matches Err(error) && error@ == AttemptView::Fatal(failure@),
        },
{
    match outcome {
        Ok(Some(value)) => Ok(value),
        Ok(None) => Err(AttemptError::Raced { stage: "publish_signal_epoch_commit" }),
        Err(error) => Err(AttemptError::Fatal(error)),
    }
}

/// A window as the last observation left it.
#[derive(Debug)]
pub struct ResolvedWindow {
    pub stamp: ResolvedWindowStamp,
    pub bounds: AxBounds,
    pub scale_factor: BackingScale,
    pub state: WindowStateKind,
}

/// The window with fresh geometry and state, provided it is still the same one.
pub fn resolved_from_facts(prior: &ResolvedWindow, facts: &MacWindowFacts) -> (resolved: Result<
    ResolvedWindow,
    NativeError,
>)
    ensures
        match resolved {
            Ok(resolved) => {
                &&& prior.stamp@.same_window(facts.stamp@)
                &&& facts.scale_factor == Some(resolved.scale_factor)
                &&& resolved.stamp@ == facts.stamp@
                &&& resolved.bounds == facts.bounds
                &&& resolved.state == facts.state
            },
            Err(error) => if !prior.stamp@.same_window(facts.stamp@) {
                error@ == errors::ErrorView::stale(
                    ErrorCode::WindowIdentityChanged,
                    "refreshed macOS facts changed a stable target identity component"@,
                )
            } else {
                facts.scale_factor is None && error@ == errors::ErrorView::unsupported(
                    "target window has no exact backing scale"@,
                )
            },
        },
{
    if !same_stable_identity(&prior.stamp, &facts.stamp) {
        return Err(
            NativeError::stale(
                ErrorCode::WindowIdentityChanged,
                "refreshed macOS facts changed a stable target identity component",
            ),
        );
    }
    let scale_factor: BackingScale = match facts.scale_factor {
        Some(scale) => scale,
        None => {
            return Err(NativeError::unsupported("target window has no exact backing scale"));
        },
    };
    let mut stamp: ResolvedWindowStamp = prior.stamp.clone();
    stamp.geometry_revision = facts.stamp.geometry_revision.clone();
    Ok(ResolvedWindow { stamp, bounds: facts.bounds, scale_factor, state: facts.state })
}

/// Why a window cannot be observed in the background.
pub open spec fn unobservable(facts: FactsView) -> Option<errors::ErrorView> {
    let refused = |reason: Seq<char>|
        errors::ErrorView::unsupported(
            "background observation refuses a "@ + reason + " macOS window"@,
        ).with("cg_window_id"@, evidence::DetailView::Int(facts.cg_window_id as int));
    match facts.state {
        WindowStateKind::Minimized => Some(refused("minimized"@)),
        WindowStateKind::OffSpace => Some(refused("off-space"@)),
        WindowStateKind::Unknown => Some(refused("visibility is unknown"@)),
        _ => if facts.minimized != Some(false) || facts.on_current_space == Some(false) {
            Some(
                errors::ErrorView::unsupported(
                    "background observation requires an exactly known non-minimized window on the current Space"@,
                ),
            )
        } else if !facts.is_on_screen && !(facts.state is Occluded) {
            Some(
                errors::ErrorView::unsupported(
                    "WindowServer does not report an observable target surface"@,
                ),
            )
        } else {
            match facts.scale_factor {
                None => Some(
                    errors::ErrorView::unsupported(
                        "target window has no exact display backing scale"@,
                    ),
                ),
                Some(scale) => if scale.usable {
                    None
                } else {
                    Some(
                        errors::ErrorView::unsupported(
                            "target window has an invalid display backing scale"@,
                        ),
                    )
                },
            }
        },
    }
}

fn refused_window(reason: &str, cg_window_id: u32) -> (error: NativeError)
    ensures
        error@ == errors::ErrorView::unsupported(
            "background observation refuses a "@ + reason@ + " macOS window"@,
        ).with("cg_window_id"@, evidence::DetailView::Int(cg_window_id as int)),
{
    let mut message: String = "background observation refuses a ".to_owned();
    message.push_str(reason);
    message.push_str(" macOS window");
    NativeError::unsupported(message.as_str()).with_int("cg_window_id", cg_window_id as i128)
}

pub fn validate_observable(facts: &MacWindowFacts) -> (outcome: Result<(), NativeError>)
    ensures
        match outcome {
            Ok(_) => unobservable(facts@) is None,
            Err(error) => unobservable(facts@) == Some(error@),
        },
{
    match facts.state {
        WindowStateKind::Minimized => {
            return Err(refused_window("minimized", facts.cg_window_id));
        },
        WindowStateKind::OffSpace => {
            return Err(refused_window("off-space", facts.cg_window_id));
        },
        WindowStateKind::Unknown => {
            return Err(refused_window("visibility is unknown", facts.cg_window_id));
        },
        WindowStateKind::Visible | WindowStateKind::Occluded => {},
    }
    let exactly_open: bool = match facts.minimized {
        Some(minimized) => !minimized,
        None => false,
    };
    let elsewhere: bool = match facts.on_current_space {
        Some(here) => !here,
        None => false,
    };
    if !exactly_open || elsewhere {
        return Err(
            NativeError::unsupported(
                "background observation requires an exactly known non-minimized window on the current Space",
            ),
        );
    }
    if !facts.is_on_screen && facts.state != WindowStateKind::Occluded {
        return Err(
            NativeError::unsupported("WindowServer does not report an observable target surface"),
        );
    }
    match facts.scale_factor {
        None => Err(
            NativeError::unsupported("target window has no exact display backing scale"),
        ),
        Some(scale) => if scale.usable {
            Ok(())
        } else {
            Err(NativeError::unsupported("target window has an invalid display backing scale"))
        },
    }
}

pub open spec fn stale_freshness(cg_window_id: u32) -> errors::ErrorView {
    errors::ErrorView::stale(
        ErrorCode::SurfaceStale,
        "ScreenCaptureKit did not provide action-safe freshness evidence"@,
    ).with("cg_window_id"@, evidence::DetailView::Int(cg_window_id as int))
}

/// What the publication of a capture reports and what the frame history then
/// holds.
pub open spec fn capture_publishes(
    history: Map<u32, frames::FrameView>,
    cg_window_id: u32,
    sample: WindowFrameSample,
    captured_at_unix_ms: u64,
    outcome: Result<(CaptureFreshness, u64), FrameRefusal>,
    updated: Map<u32, frames::FrameView>,
) -> bool {
    let freshness = frames::freshness_of(
        frames::lookup(history, cg_window_id),
        sample.png_bytes@,
        sample.evidence,
        sample.metadata,
    );
    let completion = sample.metadata.completion_unix_ms;
    let screenshot = sample.evidence.screenshot();
    let classifiable = if screenshot {
        completion != 0
    } else {
        sample.metadata.complete() && sample.metadata.coherent()
    };
    match outcome {
        Ok((found, captured_at)) => {
            &&& classifiable
            &&& freshness.safe()
            &&& found == freshness
            &&& captured_at == if completion > captured_at_unix_ms {
                completion
            } else {
                captured_at_unix_ms
            }
            &&& updated == history.insert(
                cg_window_id,
                frames::remembered(sample.png_bytes@, sample.evidence, sample.metadata),
            )
        },
        Err(refusal) => {
            &&& updated == history
            &&& if classifiable {
                &&& !freshness.safe()
                &&& refusal.error@ == stale_freshness(cg_window_id)
                &&& !refusal.names_expected_scale
            } else if screenshot {
                &&& refusal.error@ == errors::ErrorView::stale(
                    ErrorCode::SurfaceStale,
                    "ScreenCaptureKit screenshot has no completion timestamp"@,
                )
                &&& !refusal.names_expected_scale
            } else {
                &&& refusal.error@ == sample.metadata.incoherence()
                &&& refusal.names_expected_scale == sample.metadata.complete()
            }
        },
    }
}

/// Takes one capture into a publication: it has to be fresh, and the
/// publication is as late as its latest capture.
pub fn publish_capture(
    history: &mut MacFrameHistory,
    cg_window_id: u32,
    sample: &WindowFrameSample,
    captured_at_unix_ms: u64,
) -> (outcome: Result<(CaptureFreshness, u64), FrameRefusal>)
    ensures
        capture_publishes(
            old(history)@,
            cg_window_id,
            *sample,
            captured_at_unix_ms,
            outcome,
            final(history)@,
        ),
{
    let freshness: CaptureFreshness = match history.classify_and_commit(cg_window_id, sample) {
        Ok(freshness) => freshness,
        Err(refusal) => {
            return Err(refusal);
        },
    };
    if !freshness.action_safe() {
        return Err(
            FrameRefusal {
                error: NativeError::stale(
                    ErrorCode::SurfaceStale,
                    "ScreenCaptureKit did not provide action-safe freshness evidence",
                ).with_int("cg_window_id", cg_window_id as i128),
                names_expected_scale: false,
            },
        );
    }
    let completion: u64 = sample.metadata.completion_unix_ms;
    let captured_at: u64 = if completion > captured_at_unix_ms {
        completion
    } else {
        captured_at_unix_ms
    };
    Ok((freshness, captured_at))
}

/// What a publication warns of.
pub fn publication_warnings(truncated: bool) -> (warnings: Vec<String>)
    ensures
        text::texts(warnings@) == if truncated {
            seq!["AX tree truncated at the bounded 2000-element limit"@]
        } else {
            Seq::empty()
        },
{
    let mut warnings: Vec<String> = Vec::new();
    if truncated {
        warnings.push("AX tree truncated at the bounded 2000-element limit".to_owned());
        assert(text::texts(warnings@) =~= seq![
            "AX tree truncated at the bounded 2000-element limit"@,
        ]);
    } else {
        assert(text::texts(warnings@) =~= Seq::<Seq<char>>::empty());
    }
    warnings
}

/// What a look at a disappearing target says.
#[derive(Debug)]
pub enum SettleProbe {
    /// The window is gone: the window list has changed.
    Vanished,
    Present,
    Failed(NativeError),
}

pub fn settle_probe(facts: Result<(), NativeError>) -> (probe: SettleProbe)
    ensures
        match facts {
            Ok(_) => probe is Present,
            Err(error) => if error.code is WindowNotFound || error.code is WindowIdentityChanged {
                probe is Vanished
            } else {
                probe matches SettleProbe::Failed(failure) && failure == error
            },
        },
{
    match facts {
        Ok(_) => SettleProbe::Present,
        Err(error) => match error.code {
            ErrorCode::WindowNotFound | ErrorCode::WindowIdentityChanged => SettleProbe::Vanished,
            _ => SettleProbe::Failed(error),
        },
    }
}

/// How long to settle before looking at a disappearing target again.
pub fn slice_deadline(now: u64, deadline: u64) -> (slice: u64)
    ensures
        slice == if now + SETTLE_SLICE < deadline {
            now + SETTLE_SLICE
        } else {
            deadline as int
        },
{
    if now < deadline && deadline - now > SETTLE_SLICE {
        now + SETTLE_SLICE
    } else {
        deadline
    }
}

/// Whether the outcome of a slice is the outcome of the whole wait.
pub fn slice_is_final(settled: bool, slice: u64, deadline: u64) -> (done: bool)
    ensures
        done == (settled || slice == deadline),
{
    settled || slice == deadline
}

/// What the settlement of a target awaits.
#[derive(Clone, Copy, Debug, PartialEq, Eq, Structural)]
pub enum SettleStage {
    /// The target, which may disappear, is looked for.
    Probe,
    /// The signals of the target settle, or do not until a time.
    Settle { until: u64 },
    Done,
}

/// The settlement of one target. One that may disappear settles in slices, and
/// is looked for before each of them.
#[derive(Debug)]
pub struct TargetSettle {
    pub deadline: u64,
    pub stage: SettleStage,
    pub result: Option<Result<SettleStep, NativeError>>,
}

impl TargetSettle {
    /// A result ends the settlement, and no slice is longer than the whole.
    pub open spec fn wf(&self) -> bool {
        &&& self.stage is Done <==> self.result is Some
        &&& self.stage matches SettleStage::Settle { until } ==> until <= self.deadline
    }

    pub fn begin(may_disappear: bool, deadline: u64) -> (settle: TargetSettle)
        ensures
            settle.wf(),
            settle == (TargetSettle {
                deadline,
                stage: if may_disappear {
                    SettleStage::Probe
                } else {
                    SettleStage::Settle { until: deadline }
                },
                result: None,
            }),
    {
        TargetSettle {
            deadline,
            stage: if may_disappear {
                SettleStage::Probe
            } else {
                SettleStage::Settle { until: deadline }
            },
            result: None,
        }
    }

    /// Takes a look at the target, and returns the signal to record. A target
    /// that is gone has changed the window list, and settles until the deadline;
    /// one that is there settles for a slice.
    pub fn probed(&mut self, facts: Result<(), NativeError>, now: u64) -> (signal: Option<
        SettlementSignal,
    >)
        requires
            old(self).wf(),
            old(self).stage is Probe,
        ensures
            final(self).wf(),
            match facts {
                Ok(_) => {
                    &&& signal is None
                    &&& *final(self) == TargetSettle {
                        stage: SettleStage::Settle {
                            until: if now + SETTLE_SLICE < old(self).deadline {
                                (now + SETTLE_SLICE) as u64
                            } else {
                                old(self).deadline
                            },
                        },
                        ..*old(self)
                    }
                },
                Err(error) => if error.code is WindowNotFound || error.code is WindowIdentityChanged {
                    &&& signal == Some(SettlementSignal::WindowListChanged)
                    &&& *final(self) == TargetSettle {
                        stage: SettleStage::Settle { until: old(self).deadline },
                        ..*old(self)
                    }
                } else {
                    &&& signal is None
                    &&& *final(self) == TargetSettle {
                        stage: SettleStage::Done,
                        result: Some(Err(error)),
                        ..*old(self)
                    }
                },
            },
    {
        match settle_probe(facts) {
            SettleProbe::Vanished => {
                self.stage = SettleStage::Settle { until: self.deadline };
                Some(SettlementSignal::WindowListChanged)
            },
            SettleProbe::Present => {
                self.stage = SettleStage::Settle { until: slice_deadline(now, self.deadline) };
                None
            },
            SettleProbe::Failed(error) => {
                self.result = Some(Err(error));
                self.stage = SettleStage::Done;
                None
            },
        }
    }

    /// Takes what a slice came to: it is the result where the target has settled
    /// or the deadline is reached, and the target is looked for again otherwise.
    pub fn settled(&mut self, step: SettleStep)
        requires
            old(self).wf(),
            old(self).stage is Settle,
        ensures
            final(self).wf(),
            *final(self) == if step is Settled || old(self).stage->until == old(self).deadline {
                TargetSettle {
                    stage: SettleStage::Done,
                    result: Some(Ok::<SettleStep, NativeError>(step)),
                    ..*old(self)
                }
            } else {
                TargetSettle { stage: SettleStage::Probe, ..*old(self) }
            },
    {
        let until: u64 = match self.stage {
            SettleStage::Settle { until } => until,
            _ => 0,
        };
        let done: bool = match &step {
            SettleStep::Settled(_) => true,
            _ => false,
        };
        if slice_is_final(done, until, self.deadline) {
            self.result = Some(Ok(step));
            self.stage = SettleStage::Done;
        } else {
            self.stage = SettleStage::Probe;
        }
    }
}

/// The bounded loop of attempts of one observation.
#[derive(Debug)]
pub struct ObservationLoop {
    pub deadline: u64,
    pub race_count: u64,
    pub last_raced_stage: Option<&'static str>,
}

impl ObservationLoop {
    /// The error of an observation that never held still.
    pub open spec fn exhausted(&self) -> errors::ErrorView {
        let error = errors::ErrorView::new(
            ErrorCode::ObservationRaced,
            ErrorPhase::Verify,
            true,
            "window identity or geometry did not stabilize before the observation deadline"@,
        ).with("race_count"@, evidence::DetailView::Int(self.race_count as int));
        match self.last_raced_stage {
            Some(stage) => error.with("raced_stage"@, evidence::DetailView::Text(stage@)),
            None => error,
        }
    }

    pub fn begin(invalidated: bool, now: u64) -> (attempts: Result<ObservationLoop, NativeError>)
        requires
            now <= u64::MAX - OBSERVATION_TIMEOUT,
        ensures
            match attempts {
                Ok(attempts) => !invalidated && attempts == (ObservationLoop {
                    deadline: (now + OBSERVATION_TIMEOUT) as u64,
                    race_count: 0,
                    last_raced_stage: None,
                }),
                Err(error) => invalidated && error@ == errors::ErrorView::stale(
                    ErrorCode::WindowIdentityChanged,
                    "macOS target resources were invalidated"@,
                ),
            },
    {
        if invalidated {
            return Err(
                NativeError::stale(
                    ErrorCode::WindowIdentityChanged,
                    "macOS target resources were invalidated",
                ),
            );
        }
        Ok(
            ObservationLoop {
                deadline: now + OBSERVATION_TIMEOUT,
                race_count: 0,
                last_raced_stage: None,
            },
        )
    }

    /// Whether there is time for another attempt.
    pub fn another_attempt(&self, now: u64) -> (outcome: Result<(), NativeError>)
        ensures
            outcome is Ok <==> now < self.deadline,
            outcome matches Err(error) ==> error@ == self.exhausted(),
    {
        if now < self.deadline {
            return Ok(());
        }
        let error: NativeError = NativeError::new(
            ErrorCode::ObservationRaced,
            ErrorPhase::Verify,
            true,
            "window identity or geometry did not stabilize before the observation deadline",
        ).with_int("race_count", self.race_count as i128);
        match self.last_raced_stage {
            Some(stage) => Err(error.with_text("raced_stage", stage)),
            None => Err(error),
        }
    }

    /// Counts a race, or ends the observation with a failure.
    pub fn retry(&mut self, error: AttemptError) -> (outcome: Result<(), NativeError>)
        ensures
            final(self).deadline == old(self).deadline,
            match error {
                AttemptError::Raced { stage } => {
                    &&& outcome is Ok
                    &&& final(self).last_raced_stage == Some(stage)
                    &&& final(self).race_count == if old(self).race_count < u64::MAX {
                        old(self).race_count + 1
                    } else {
                        u64::MAX as int
                    }
                },
                AttemptError::Fatal(failure) => outcome == Err::<(), NativeError>(failure)
                    && *final(self) == *old(self),
            },
    {
        match error {
            AttemptError::Raced { stage } => {
                self.race_count = self.race_count.saturating_add(1);
                self.last_raced_stage = Some(stage);
                Ok(())
            },
            AttemptError::Fatal(failure) => Err(failure),
        }
    }
}

/// How the pixels of a surface become points of its window.
#[derive(Debug, Clone, Copy, PartialEq, Eq, Structural)]
pub enum SurfaceScaling {
    /// By the size of the raster over the size of the source frame.
    Raster,
    /// By the scale factor and the content scale of the stream.
    Content,
}

/// What the geometry of a sample shows of the window that it was taken from.
#[derive(Debug, Clone, Copy, PartialEq, Eq, Structural)]
pub struct SurfaceGeometry {
    pub pixel_width: u32,
    pub pixel_height: u32,
    /// The source frame of the sample is the frame of the window.
    pub frame_agrees: bool,
    /// The raster has the expected scale on both axes.
    pub raster_scale_agrees: bool,
    /// The scale factor of the stream is the expected one.
    pub stream_scale_agrees: bool,
    /// The content starts at the origin and covers the raster and, without its
    /// content scale, the source frame.
    pub content_agrees: bool,
}

pub open spec fn surface_disagreement(message: Seq<char>) -> errors::ErrorView {
    errors::ErrorView::stale(ErrorCode::SurfaceStale, message)
}

/// How a captured surface maps to its window. A stream sample needs all of its
/// scale metadata; a surface whose geometry disagrees is refused.
pub fn surface_scaling(
    evidence: WindowFrameEvidence,
    metadata: &WindowFrameMetadata,
    geometry: SurfaceGeometry,
) -> (scaling: Result<SurfaceScaling, NativeError>)
    ensures
        evidence is StreamAttachments ==> match scaling {
            Ok(scaling) => {
                &&& scaling is Content
                &&& metadata.scale_factor is Some
                &&& metadata.content_scale == Some(true)
                &&& metadata.content_rect is Some
                &&& geometry.frame_agrees && geometry.stream_scale_agrees && geometry.content_agrees
            },
            Err(error) => if metadata.scale_factor is None || metadata.content_scale is None
                || metadata.content_rect is None {
                error@ == metadata.incoherence()
            } else {
                &&& metadata.content_scale == Some(false) || !geometry.frame_agrees
                    || !geometry.stream_scale_agrees || !geometry.content_agrees
                &&& error@ == surface_disagreement(
                    "ScreenCaptureKit source frame, content rectangle and raster geometry disagree"@,
                )
            },
        },
        !(evidence is StreamAttachments) ==> match scaling {
            Ok(scaling) => {
                &&& scaling is Raster
                &&& geometry.pixel_width > 0 && geometry.pixel_height > 0
                &&& geometry.frame_agrees && geometry.raster_scale_agrees
            },
            Err(error) => {
                &&& geometry.pixel_width == 0 || geometry.pixel_height == 0
                    || !geometry.frame_agrees || !geometry.raster_scale_agrees
                &&& error@ == surface_disagreement(
                    "ScreenCaptureKit screenshot geometry disagrees with the bracketed window"@,
                )
            },
        },
{
    match evidence {
        WindowFrameEvidence::ScreenshotCompletion | WindowFrameEvidence::WindowServerFallback => {
            if geometry.pixel_width > 0 && geometry.pixel_height > 0 && geometry.frame_agrees
                && geometry.raster_scale_agrees {
                Ok(SurfaceScaling::Raster)
            } else {
                Err(
                    NativeError::stale(
                        ErrorCode::SurfaceStale,
                        "ScreenCaptureKit screenshot geometry disagrees with the bracketed window",
                    ),
                )
            }
        },
        WindowFrameEvidence::StreamAttachments => {
            let positive: bool = match (
                metadata.scale_factor,
                metadata.content_scale,
                metadata.content_rect,
            ) {
                (Some(_), Some(positive), Some(_)) => positive,
                _ => return Err(missing_frame_metadata(metadata)),
            };
            if positive && geometry.frame_agrees && geometry.stream_scale_agrees
                && geometry.content_agrees {
                Ok(SurfaceScaling::Content)
            } else {
                Err(
                    NativeError::stale(
                        ErrorCode::SurfaceStale,
                        "ScreenCaptureKit source frame, content rectangle and raster geometry disagree",
                    ),
                )
            }
        },
    }
}

pub open spec fn capture_deadline_view(window_id: u32) -> errors::ErrorView {
    errors::ErrorView::stale(
        ErrorCode::SurfaceStale,
        "ScreenCaptureKit observation exceeded its bounded deadline"@,
    ).with("cg_window_id"@, evidence::DetailView::Int(window_id as int))
}

pub fn capture_deadline_error(window_id: u32) -> (error: NativeError)
    ensures
        error@ == capture_deadline_view(window_id),
{
    NativeError::stale(
        ErrorCode::SurfaceStale,
        "ScreenCaptureKit observation exceeded its bounded deadline",
    ).with_int("cg_window_id", window_id as i128)
}

/// The time that a capture has once its slot is free: what is left without the
/// reserve for taking it down.
pub fn capture_timeout(window_id: u32, deadline: u64, now: u64) -> (timeout: Result<
    u64,
    NativeError,
>)
    ensures
        match timeout {
            Ok(timeout) => timeout > 0 && timeout == deadline - now - SCK_CAPTURE_TEARDOWN_RESERVE,
            Err(error) => deadline <= now + SCK_CAPTURE_TEARDOWN_RESERVE && error@
                == capture_deadline_view(window_id),
        },
{
    let left: u64 = deadline.saturating_sub(now).saturating_sub(SCK_CAPTURE_TEARDOWN_RESERVE);
    if left == 0 {
        Err(capture_deadline_error(window_id))
    } else {
        Ok(left)
    }
}

/// Whether a capture failed because no sample came in time.
pub open spec fn sample_timed_out(message: Seq<char>) -> bool {
    text::occurs(message, "sample deadline elapsed"@) || text::occurs(
        message,
        "produced no sample before its deadline"@,
    )
}

/// The error of a failed capture, by its message.
pub fn capture_error(message: &str) -> (error: NativeError)
    ensures
        error@ == if sample_timed_out(message@) {
            errors::ErrorView::stale(
                ErrorCode::SurfaceStale,
                "ScreenCaptureKit sample was transiently unavailable: "@ + message@,
            )
        } else {
            errors::ErrorView::new(
                ErrorCode::UnsupportedInBackground,
                ErrorPhase::Preflight,
                true,
                "native window capture unavailable: "@ + message@,
            )
        },
{
    if contains_text(message, "sample deadline elapsed") || contains_text(
        message,
        "produced no sample before its deadline",
    ) {
        let mut text: String = "ScreenCaptureKit sample was transiently unavailable: ".to_owned();
        text.push_str(message);
        return NativeError::stale(ErrorCode::SurfaceStale, text.as_str());
    }
    let mut text: String = "native window capture unavailable: ".to_owned();
    text.push_str(message);
    NativeError::new(
        ErrorCode::UnsupportedInBackground,
        ErrorPhase::Preflight,
        true,
        text.as_str(),
    )
}

/// The error of a failed read or write of an artifact.
pub fn artifact_error(cause: &str) -> (error: NativeError)
    ensures
        error@ == errors::ErrorView::new(
            ErrorCode::Internal,
            ErrorPhase::Verify,
            true,
            "observation artifact I/O failed: "@ + cause@,
        ),
{
    let mut message: String = "observation artifact I/O failed: ".to_owned();
    message.push_str(cause);
    NativeError::new(ErrorCode::Internal, ErrorPhase::Verify, true, message.as_str())
}

/// The error of a worker that did not finish.
pub fn join_error(operation: &str, cause: &str) -> (error: NativeError)
    ensures
        error@ == errors::ErrorView::new(
            ErrorCode::Internal,
            ErrorPhase::Preflight,
            true,
            operation@ + " worker failed: "@ + cause@,
        ),
{
    let mut message: String = operation.to_owned();
    message.push_str(" worker failed: ");
    message.push_str(cause);
    NativeError::new(ErrorCode::Internal, ErrorPhase::Preflight, true, message.as_str())
}

/// What facts say of several windows.
pub open spec fn facts_view(facts: Seq<MacWindowFacts>) -> Seq<FactsView> {
    facts.map_values(|facts: MacWindowFacts| facts@)
}

/// Whether two lists of facts are equal.
pub fn same_facts(left: &Vec<MacWindowFacts>, right: &Vec<MacWindowFacts>) -> (same: bool)
    ensures
        same == (facts_view(left@) == facts_view(right@)),
{
    if left.len() != right.len() {
        assert(facts_view(left@).len() != facts_view(right@).len());
        return false;
    }
    let mut index: usize = 0;
    while index < left.len()
        invariant
            index <= left.len(),
            left@.len() == right@.len(),
            forall|i: int| 0 <= i < index ==> (#[trigger] left@[i])@ == right@[i]@,
        decreases left.len() - index,
    {
        if !left[index].same(&right[index]) {
            assert(facts_view(left@)[index as int] != facts_view(right@)[index as int]);
            return false;
        }
        index = index + 1;
    }
    assert(facts_view(left@) =~= facts_view(right@));
    true
}

/// Why a related window has no surface.
pub open spec fn no_surface(window: FactsView, related: Seq<RawRelatedWindow>) -> Option<
    errors::ErrorView,
> {
    if !window.is_on_screen {
        Some(
            errors::ErrorView::unsupported(
                "related AX surface "@ + text::decimal(window.cg_window_id as nat)
                    + " is not on-screen"@,
            ),
        )
    } else if snapshot::last_kind(related, window.cg_window_id) is None {
        Some(
            errors::ErrorView::stale(
                ErrorCode::SurfaceStale,
                "registered related surface has no structural AX owner"@,
            ),
        )
    } else {
        None
    }
}

/// Why the surfaces of some related windows cannot be told: what is wrong with
/// the first window that has none.
pub open spec fn surface_refusal(windows: Seq<FactsView>, related: Seq<RawRelatedWindow>) -> Option<
    errors::ErrorView,
>
    decreases windows.len(),
{
    if windows.len() == 0 {
        None
    } else {
        match surface_refusal(windows.drop_last(), related) {
            Some(error) => Some(error),
            None => no_surface(windows.last(), related),
        }
    }
}

/// The kinds of the surfaces of related windows, in order.
pub open spec fn surface_kinds(windows: Seq<FactsView>, related: Seq<RawRelatedWindow>) -> Seq<
    SurfaceKind,
> {
    windows.map_values(
        |window: FactsView| snapshot::last_kind(related, window.cg_window_id)->0,
    )
}

proof fn an_early_refusal_stands(
    windows: Seq<FactsView>,
    related: Seq<RawRelatedWindow>,
    count: int,
)
    requires
        0 <= count <= windows.len(),
        surface_refusal(windows.take(count), related) is Some,
    ensures
        surface_refusal(windows, related) == surface_refusal(windows.take(count), related),
    decreases windows.len(),
{
    if count == windows.len() {
        assert(windows.take(count) =~= windows);
    } else {
        assert(windows.drop_last().take(count) =~= windows.take(count));
        an_early_refusal_stands(windows.drop_last(), related, count);
    }
}

/// The kinds of the registered related windows' surfaces, in order; the first
/// window without one is an error.
pub fn related_surfaces(
    registered: &Vec<MacWindowFacts>,
    related: &Vec<RawRelatedWindow>,
) -> (kinds: Result<Vec<SurfaceKind>, NativeError>)
    ensures
        match kinds {
            Ok(kinds) => {
                &&& surface_refusal(facts_view(registered@), related@) is None
                &&& kinds@ == surface_kinds(facts_view(registered@), related@)
            },
            Err(error) => surface_refusal(facts_view(registered@), related@) == Some(error@),
        },
{
    let ghost windows = facts_view(registered@);
    let mut kinds: Vec<SurfaceKind> = Vec::new();
    let mut index: usize = 0;
    assert(kinds@ =~= surface_kinds(windows.take(0), related@));
    while index < registered.len()
        invariant
            index <= registered.len(),
            windows == facts_view(registered@),
            surface_refusal(windows.take(index as int), related@) is None,
            kinds@ == surface_kinds(windows.take(index as int), related@),
        decreases registered.len() - index,
    {
        let window: &MacWindowFacts = &registered[index];
        let ghost longer = windows.take(index as int + 1);
        assert(longer.drop_last() =~= windows.take(index as int));
        assert(longer.last() == window@);
        if !window.is_on_screen {
            let mut message: String = "related AX surface ".to_owned();
            push_decimal(&mut message, window.cg_window_id as u64);
            message.push_str(" is not on-screen");
            proof {
                an_early_refusal_stands(windows, related@, index as int + 1);
            }
            return Err(NativeError::unsupported(message.as_str()));
        }
        match related_kind(related, window.cg_window_id) {
            Some(kind) => {
                kinds.push(kind);
            },
            None => {
                proof {
                    an_early_refusal_stands(windows, related@, index as int + 1);
                }
                return Err(
                    NativeError::stale(
                        ErrorCode::SurfaceStale,
                        "registered related surface has no structural AX owner",
                    ),
                );
            },
        }
        index = index + 1;
        assert(kinds@ =~= surface_kinds(longer, related@));
    }
    assert(windows.take(index as int) =~= windows);
    Ok(kinds)
}

/// A random UUID as `Uuid` prints it: lower-case hexadecimal in five groups,
/// with version 4 and the RFC variant.
pub open spec fn random_uuid_form(id: Seq<char>) -> bool {
    &&& id.len() == 36
    &&& id[8] == '-' && id[13] == '-' && id[18] == '-' && id[23] == '-'
    &&& id[14] == '4'
    &&& (id[19] == '8' || id[19] == '9' || id[19] == 'a' || id[19] == 'b')
    &&& forall|i: int|
        0 <= i < 36 && i != 8 && i != 13 && i != 18 && i != 23 ==> ('0' <= #[trigger] id[i] <= '9'
            || 'a' <= id[i] <= 'f')
}

/// `Uuid::new_v4` and its `Display`: the form is fixed, the digits are random.
/// Nothing is said of two calls; that they differ is only overwhelmingly likely.
#[verifier::external_body]
pub(crate) fn new_unique_id() -> (id: String)
    ensures
        random_uuid_form(id@),
{
    uuid::Uuid::new_v4().to_string()
}

/// New public ids, each in the form of a random UUID.
pub fn fresh_ids(count: usize) -> (ids: Vec<String>)
    ensures
        ids@.len() == count,
        forall|i: int| 0 <= i < count ==> random_uuid_form((#[trigger] ids@[i])@),
{
    let mut ids: Vec<String> = Vec::new();
    while ids.len() < count
        invariant
            ids@.len() <= count,
            forall|i: int| 0 <= i < ids@.len() ==> random_uuid_form((#[trigger] ids@[i])@),
        decreases count - ids@.len(),
    {
        ids.push(new_unique_id());
    }
    ids
}

pub open spec fn artifact_text(window_id: u32, unique: Seq<char>) -> Seq<char> {
    "observation-"@ + text::decimal(window_id as nat) + "-"@ + unique + ".png"@
}

pub open spec fn partial_text(window_id: u32, unique: Seq<char>) -> Seq<char> {
    ".observation-"@ + text::decimal(window_id as nat) + "-"@ + unique + ".partial"@
}

/// The file name of an artifact.
pub fn artifact_name(window_id: u32, unique: &str) -> (name: String)
    ensures
        name@ == artifact_text(window_id, unique@),
{
    let mut name: String = "observation-".to_owned();
    push_decimal(&mut name, window_id as u64);
    name.push_str("-");
    name.push_str(unique);
    name.push_str(".png");
    name
}

/// The file name that an artifact has until it is complete.
pub fn partial_artifact_name(window_id: u32, unique: &str) -> (name: String)
    ensures
        name@ == partial_text(window_id, unique@),
{
    let mut name: String = ".observation-".to_owned();
    push_decimal(&mut name, window_id as u64);
    name.push_str("-");
    name.push_str(unique);
    name.push_str(".partial");
    name
}

/// Names for a new artifact and for its unfinished file.
pub fn new_artifact_names(window_id: u32) -> (names: (String, String))
    ensures
        exists|artifact: Seq<char>, partial: Seq<char>|
            {
                &&& #[trigger] random_uuid_form(artifact)
                &&& #[trigger] random_uuid_form(partial)
                &&& names.0@ == artifact_text(window_id, artifact)
                &&& names.1@ == partial_text(window_id, partial)
            },
{
    let artifact: String = new_unique_id();
    let partial: String = new_unique_id();
    (
        artifact_name(window_id, artifact.as_str()),
        partial_artifact_name(window_id, partial.as_str()),
    )
}

/// An unfinished artifact that is removed unless it was completed.
#[derive(Debug)]
pub struct TemporaryArtifact {
    pub path: Option<String>,
}

impl TemporaryArtifact {
    pub fn new(path: String) -> (artifact: TemporaryArtifact)
        ensures
            artifact.path == Some(path),
    {
        TemporaryArtifact { path: Some(path) }
    }

    /// The artifact is complete: nothing is left to remove.
    pub fn disarm(&mut self)
        ensures
            final(self).path is None,
    {
        self.path = None;
    }
}

/// Milliseconds since the epoch, as far as they fit.
pub fn now_unix_ms(millis: u128) -> (clamped: u64)
    ensures
        clamped == if millis <= u64::MAX {
            millis as int
        } else {
            u64::MAX as int
        },
{
    if millis <= u64::MAX as u128 {
        millis as u64
    } else {
        u64::MAX
    }
}

} // verus!
