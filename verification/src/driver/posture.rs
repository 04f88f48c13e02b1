//! Ordered, content-free proof that the foreground posture was held.
//!
//! The before/after samples are a diagnostic and final-state cross-check;
//! transient proof comes from the native workspace, AX and HID streams. An
//! excursion that was seen once stays a violation, even after an exact
//! restoration.
use vstd::prelude::*;

use crate::ax::bindings::AX_ERROR_SUCCESS;
use crate::driver::target::WorkspaceEventKind;
use crate::errors;
use crate::errors::{ErrorCode, ErrorPhase, NativeError};
use crate::evidence;
use crate::evidence::{Detail, Fields};
use crate::text;
use crate::text::{push_signed_decimal, same_text};

verus! {

pub const NATIVE_BARRIER_TIMEOUT_NS: u64 = 250_000_000;

pub const OBSERVER_CLOSE_TIMEOUT_NS: u64 = 750_000_000;

/// How long the registration of a posture stream may take, in nanoseconds.
pub const OBSERVER_HANDSHAKE_TIMEOUT_NS: u64 = 750_000_000;

pub const OBSERVER_RUN_LOOP_INTERVAL_NS: u64 = 10_000_000;

/// A cursor position by the bits of its coordinates; equal positions have
/// equal bits.
#[derive(Debug, Clone, Copy, PartialEq, Eq, Structural)]
pub struct CursorPosition {
    pub x: i64,
    pub y: i64,
}

/// One look at the foreground: which application is in front, which window of
/// it has focus, and where the physical cursor is. `Err` marks a read that
/// failed.
#[derive(Debug, Clone, Copy)]
pub struct PostureSample {
    pub frontmost: Option<i32>,
    pub key_window: Result<Option<u32>, ()>,
    pub cursor: Result<CursorPosition, ()>,
}

impl PostureSample {
    pub open spec fn readable(self) -> bool {
        self.frontmost is Some && self.key_window is Ok && self.cursor is Ok
    }

    pub fn complete(self) -> (complete: bool)
        ensures
            complete == self.readable(),
    {
        self.frontmost.is_some() && self.key_window.is_ok() && self.cursor.is_ok()
    }

    pub open spec fn key(self) -> Option<Option<u32>> {
        match self.key_window {
            Ok(window) => Some(window),
            Err(_) => None,
        }
    }

    pub open spec fn position(self) -> Option<CursorPosition> {
        match self.cursor {
            Ok(position) => Some(position),
            Err(_) => None,
        }
    }

    fn key_option(self) -> (key: Option<Option<u32>>)
        ensures
            key == self.key(),
    {
        match self.key_window {
            Ok(window) => Some(window),
            Err(_) => None,
        }
    }

    fn position_option(self) -> (position: Option<CursorPosition>)
        ensures
            position == self.position(),
    {
        match self.cursor {
            Ok(position) => Some(position),
            Err(_) => None,
        }
    }
}

/// Whether two readings both succeeded and differ.
pub open spec fn differs<T>(before: Option<T>, after: Option<T>) -> bool {
    before is Some && after is Some && before != after
}

fn same_key(left: Option<Option<u32>>, right: Option<Option<u32>>) -> (same: bool)
    ensures
        same == (left == right),
{
    match (left, right) {
        (Some(left), Some(right)) => match (left, right) {
            (Some(left), Some(right)) => left == right,
            (None, None) => true,
            _ => false,
        },
        (None, None) => true,
        _ => false,
    }
}

fn same_position(left: Option<CursorPosition>, right: Option<CursorPosition>) -> (same: bool)
    ensures
        same == (left == right),
{
    match (left, right) {
        (Some(left), Some(right)) => left.x == right.x && left.y == right.y,
        (None, None) => true,
        _ => false,
    }
}

fn same_pid(left: Option<i32>, right: Option<i32>) -> (same: bool)
    ensures
        same == (left == right),
{
    match (left, right) {
        (Some(left), Some(right)) => left == right,
        (None, None) => true,
        _ => false,
    }
}

#[derive(Debug, Clone, Copy, PartialEq, Eq, Structural)]
pub struct PostureResult {
    pub held: bool,
    pub frontmost_changed: bool,
    pub key_window_changed: bool,
    pub physical_cursor_moved: bool,
    pub restored_after_violation: bool,
}

/// What the workspace stream handed out.
#[derive(Debug, Clone, Copy, PartialEq, Eq, Structural)]
pub enum WorkspaceReceipt {
    Event { kind: WorkspaceEventKind, pid: i32 },
    Lagged(u64),
    Closed,
    Empty,
}

/// What the HID stream handed out.
#[derive(Debug, Clone, Copy, PartialEq, Eq, Structural)]
pub enum HidReceipt {
    CursorMoved,
    TapDisabled,
    Other,
}

#[derive(Debug)]
pub struct PostureProofState {
    pub frontmost_changed: bool,
    pub key_window_changed: bool,
    pub physical_cursor_moved: bool,
    pub workspace_stream_complete: bool,
    pub ax_stream_complete: bool,
    pub hid_stream_complete: bool,
    pub containment_stream_complete: bool,
    pub activation_pids: Vec<i32>,
    pub workspace_lagged_events: u64,
    pub ax_focus_events: u64,
    pub hid_cursor_events: u64,
}

/// The verdict of a proof state: what moved and which streams are complete.
pub ghost struct ProofView {
    pub frontmost_changed: bool,
    pub key_window_changed: bool,
    pub physical_cursor_moved: bool,
    pub workspace_complete: bool,
    pub ax_complete: bool,
    pub hid_complete: bool,
    pub containment_complete: bool,
}

impl ProofView {
    pub open spec fn excursion(self) -> bool {
        self.frontmost_changed || self.key_window_changed || self.physical_cursor_moved
    }

    pub open spec fn complete(self) -> bool {
        self.workspace_complete && self.ax_complete && self.hid_complete
            && self.containment_complete
    }

    /// The posture is held if every stream is complete and saw no excursion.
    pub open spec fn held(self) -> bool {
        self.complete() && !self.excursion()
    }

    /// Later evidence only ever adds excursions and gaps.
    pub open spec fn follows(self, earlier: ProofView) -> bool {
        &&& earlier.frontmost_changed ==> self.frontmost_changed
        &&& earlier.key_window_changed ==> self.key_window_changed
        &&& earlier.physical_cursor_moved ==> self.physical_cursor_moved
        &&& self.workspace_complete ==> earlier.workspace_complete
        &&& self.ax_complete ==> earlier.ax_complete
        &&& self.hid_complete ==> earlier.hid_complete
        &&& self.containment_complete ==> earlier.containment_complete
    }
}

impl PostureProofState {
    pub open spec fn proof_view(&self) -> ProofView {
        ProofView {
            frontmost_changed: self.frontmost_changed,
            key_window_changed: self.key_window_changed,
            physical_cursor_moved: self.physical_cursor_moved,
            workspace_complete: self.workspace_stream_complete,
            ax_complete: self.ax_stream_complete,
            hid_complete: self.hid_stream_complete,
            containment_complete: self.containment_stream_complete,
        }
    }

    pub fn new() -> (state: PostureProofState)
        ensures
            state.proof_view().held(),
            state.activation_pids@.len() == 0,
            state.workspace_lagged_events == 0,
            state.ax_focus_events == 0,
            state.hid_cursor_events == 0,
    {
        PostureProofState {
            frontmost_changed: false,
            key_window_changed: false,
            physical_cursor_moved: false,
            workspace_stream_complete: true,
            ax_stream_complete: true,
            hid_stream_complete: true,
            containment_stream_complete: true,
            activation_pids: Vec::new(),
            workspace_lagged_events: 0,
            ax_focus_events: 0,
            hid_cursor_events: 0,
        }
    }

    /// Takes one receipt of the workspace stream, and says whether to receive
    /// again. An activation of another application is an excursion; a lagged or
    /// closed stream can prove nothing.
    pub fn observe_workspace(&mut self, receipt: WorkspaceReceipt, baseline_frontmost: i32) -> (again:
        bool)
        ensures
            final(self).proof_view().follows(old(self).proof_view()),
            again == !(receipt is Closed || receipt is Empty),
            ({
                let excursion = receipt matches WorkspaceReceipt::Event { kind, pid } && kind
                    is Activated && pid != baseline_frontmost;
                &&& final(self).proof_view() == ProofView {
                    frontmost_changed: old(self).frontmost_changed || excursion,
                    workspace_complete: old(self).workspace_stream_complete && !(receipt is Lagged
                        || receipt is Closed),
                    ..old(self).proof_view()
                }
                &&& final(self).activation_pids@ == if excursion {
                    old(self).activation_pids@.push(receipt->pid)
                } else {
                    old(self).activation_pids@
                }
            }),
            final(self).workspace_lagged_events == match receipt {
                WorkspaceReceipt::Lagged(skipped) => if old(self).workspace_lagged_events + skipped
                    > u64::MAX {
                    u64::MAX as int
                } else {
                    old(self).workspace_lagged_events + skipped
                },
                _ => old(self).workspace_lagged_events as int,
            },
            final(self).ax_focus_events == old(self).ax_focus_events,
            final(self).hid_cursor_events == old(self).hid_cursor_events,
    {
        match receipt {
            WorkspaceReceipt::Event { kind, pid } => {
                if kind == WorkspaceEventKind::Activated && pid != baseline_frontmost {
                    self.frontmost_changed = true;
                    self.activation_pids.push(pid);
                }
                true
            },
            WorkspaceReceipt::Lagged(skipped) => {
                self.workspace_stream_complete = false;
                self.workspace_lagged_events = self.workspace_lagged_events.saturating_add(skipped);
                true
            },
            WorkspaceReceipt::Closed => {
                self.workspace_stream_complete = false;
                false
            },
            WorkspaceReceipt::Empty => false,
        }
    }

    /// Takes one AX notification of the foreground application: any change of
    /// its focused window or element is an excursion.
    pub fn observe_ax(&mut self, notification: &str)
        ensures
            final(self).proof_view().follows(old(self).proof_view()),
            ({
                let focus = notification@ == "AXFocusedWindowChanged"@ || notification@
                    == "AXFocusedUIElementChanged"@;
                &&& final(self).proof_view() == ProofView {
                    key_window_changed: old(self).key_window_changed || focus,
                    ..old(self).proof_view()
                }
                &&& final(self).ax_focus_events == if focus && old(self).ax_focus_events
                    < u64::MAX {
                    old(self).ax_focus_events + 1
                } else {
                    old(self).ax_focus_events as int
                }
            }),
            final(self).activation_pids == old(self).activation_pids,
            final(self).workspace_lagged_events == old(self).workspace_lagged_events,
            final(self).hid_cursor_events == old(self).hid_cursor_events,
    {
        if same_text(notification, "AXFocusedWindowChanged") || same_text(
            notification,
            "AXFocusedUIElementChanged",
        ) {
            self.key_window_changed = true;
            self.ax_focus_events = self.ax_focus_events.saturating_add(1);
        }
    }

    /// Takes one HID event: a movement is an excursion, a disabled tap is a gap.
    pub fn observe_hid(&mut self, receipt: HidReceipt)
        ensures
            final(self).proof_view().follows(old(self).proof_view()),
            final(self).proof_view() == (ProofView {
                physical_cursor_moved: old(self).physical_cursor_moved || receipt is CursorMoved,
                hid_complete: old(self).hid_stream_complete && !(receipt is TapDisabled),
                ..old(self).proof_view()
            }),
            final(self).hid_cursor_events == if receipt is CursorMoved && old(
                self,
            ).hid_cursor_events < u64::MAX {
                old(self).hid_cursor_events + 1
            } else {
                old(self).hid_cursor_events as int
            },
            final(self).activation_pids == old(self).activation_pids,
            final(self).workspace_lagged_events == old(self).workspace_lagged_events,
            final(self).ax_focus_events == old(self).ax_focus_events,
    {
        match receipt {
            HidReceipt::CursorMoved => {
                self.physical_cursor_moved = true;
                self.hid_cursor_events = self.hid_cursor_events.saturating_add(1);
            },
            HidReceipt::TapDisabled => {
                self.hid_stream_complete = false;
            },
            HidReceipt::Other => {},
        }
    }

    /// Holds the final sample against the baseline. An unreadable final sample
    /// marks every stream that it cross-checks as incomplete.
    pub fn observe_final_sample(&mut self, baseline: PostureSample, final_sample: PostureSample)
        ensures
            final(self).proof_view().follows(old(self).proof_view()),
            final(self).proof_view() == (ProofView {
                frontmost_changed: old(self).frontmost_changed || differs(
                    baseline.frontmost,
                    final_sample.frontmost,
                ),
                key_window_changed: old(self).key_window_changed || differs(
                    baseline.key(),
                    final_sample.key(),
                ),
                physical_cursor_moved: old(self).physical_cursor_moved || differs(
                    baseline.position(),
                    final_sample.position(),
                ),
                workspace_complete: old(self).workspace_stream_complete && final_sample.readable(),
                ax_complete: old(self).ax_stream_complete && final_sample.readable(),
                hid_complete: old(self).hid_stream_complete && final_sample.readable(),
                ..old(self).proof_view()
            }),
            final(self).activation_pids == old(self).activation_pids,
            final(self).workspace_lagged_events == old(self).workspace_lagged_events,
            final(self).ax_focus_events == old(self).ax_focus_events,
            final(self).hid_cursor_events == old(self).hid_cursor_events,
    {
        if !final_sample.complete() {
            self.workspace_stream_complete = false;
            self.ax_stream_complete = false;
            self.hid_stream_complete = false;
        }
        if baseline.frontmost.is_some() && final_sample.frontmost.is_some() && !same_pid(
            baseline.frontmost,
            final_sample.frontmost,
        ) {
            self.frontmost_changed = true;
        }
        if baseline.key_window.is_ok() && final_sample.key_window.is_ok() && !same_key(
            baseline.key_option(),
            final_sample.key_option(),
        ) {
            self.key_window_changed = true;
        }
        if baseline.cursor.is_ok() && final_sample.cursor.is_ok() && !same_position(
            baseline.position_option(),
            final_sample.position_option(),
        ) {
            self.physical_cursor_moved = true;
        }
    }

    pub fn complete(&self) -> (complete: bool)
        ensures
            complete == self.proof_view().complete(),
    {
        self.workspace_stream_complete && self.ax_stream_complete && self.hid_stream_complete
            && self.containment_stream_complete
    }

    pub open spec fn result(&self, baseline: PostureSample, final_sample: PostureSample)
        -> PostureResult {
        let view = self.proof_view();
        PostureResult {
            held: view.held(),
            frontmost_changed: view.frontmost_changed,
            key_window_changed: view.key_window_changed,
            physical_cursor_moved: view.physical_cursor_moved,
            restored_after_violation: view.excursion() && baseline.frontmost
                == final_sample.frontmost && baseline.key() == final_sample.key()
                && baseline.position() == final_sample.position(),
        }
    }

    pub fn posture(&self, baseline: PostureSample, final_sample: PostureSample) -> (posture:
        PostureResult)
        ensures
            posture == self.result(baseline, final_sample),
    {
        let excursion: bool = self.frontmost_changed || self.key_window_changed
            || self.physical_cursor_moved;
        let restored: bool = excursion && same_pid(baseline.frontmost, final_sample.frontmost)
            && same_key(baseline.key_option(), final_sample.key_option()) && same_position(
            baseline.position_option(),
            final_sample.position_option(),
        );
        PostureResult {
            held: self.complete() && !excursion,
            frontmost_changed: self.frontmost_changed,
            key_window_changed: self.key_window_changed,
            physical_cursor_moved: self.physical_cursor_moved,
            restored_after_violation: restored,
        }
    }
}

/// Evidence never becomes better: a posture that is not held at one moment is
/// not held after any later observation.
pub proof fn a_violation_is_final(earlier: ProofView, later: ProofView)
    requires
        later.follows(earlier),
        !earlier.held(),
    ensures
        !later.held(),
{
}

/// A restored posture is still a violated one.
pub proof fn restoration_does_not_hold_posture(
    state: PostureProofState,
    baseline: PostureSample,
    final_sample: PostureSample,
)
    ensures
        state.result(baseline, final_sample).restored_after_violation ==> !state.result(
            baseline,
            final_sample,
        ).held,
{
}

pub open spec fn posture_preflight_view(message: Seq<char>) -> errors::ErrorView {
    errors::ErrorView::new(ErrorCode::PostureUnverifiable, ErrorPhase::Preflight, true, message)
}

pub fn posture_preflight(message: &str) -> (error: NativeError)
    ensures
        error@ == posture_preflight_view(message@),
{
    NativeError::new(ErrorCode::PostureUnverifiable, ErrorPhase::Preflight, true, message)
}

/// Whether a witness may begin: the baseline is fully readable, the front
/// application is still the one that is watched, and nothing moved meanwhile.
pub fn admit_witness(
    initial_frontmost: i32,
    baseline: PostureSample,
    state: &PostureProofState,
) -> (outcome: Result<(), NativeError>)
    ensures
        ({
            let stable = baseline.readable() && baseline.frontmost == Some(initial_frontmost);
            &&& outcome is Ok <==> stable && state.proof_view().held()
            &&& outcome matches Err(error) ==> error@ == posture_preflight_view(
                if !stable {
                    "foreground, AX focus/key, or cursor baseline changed during witness acquisition"@
                } else {
                    "foreground, AX focus/key, or HID cursor changed during witness acquisition"@
                },
            )
        }),
{
    if !baseline.complete() || !same_pid(baseline.frontmost, Some(initial_frontmost)) {
        return Err(
            posture_preflight(
                "foreground, AX focus/key, or cursor baseline changed during witness acquisition",
            ),
        );
    }
    if state.frontmost_changed || state.key_window_changed || state.physical_cursor_moved
        || !state.complete() {
        return Err(
            posture_preflight(
                "foreground, AX focus/key, or HID cursor changed during witness acquisition",
            ),
        );
    }
    Ok(())
}

/// The exact foreground process that a witness starts from.
pub fn baseline_frontmost(frontmost: Option<i32>, launching: bool) -> (outcome: Result<
    i32,
    NativeError,
>)
    ensures
        match frontmost {
            Some(pid) => outcome == Ok::<i32, NativeError>(pid),
            None => outcome matches Err(error) && error@ == posture_preflight_view(
                if launching {
                    "exact foreground baseline pid is unavailable before launch"@
                } else {
                    "exact foreground baseline pid is unavailable before interaction"@
                },
            ),
        },
{
    match frontmost {
        Some(pid) => Ok(pid),
        None => Err(
            posture_preflight(
                if launching {
                    "exact foreground baseline pid is unavailable before launch"
                } else {
                    "exact foreground baseline pid is unavailable before interaction"
                },
            ),
        ),
    }
}

/// Whether the native callback queues answered before the dispatch.
pub fn admit_barriers(
    workspace_barrier: bool,
    containment_barrier: bool,
    launching: bool,
) -> (outcome: Result<(), NativeError>)
    ensures
        outcome is Ok <==> workspace_barrier && (containment_barrier || !launching),
        outcome matches Err(error) ==> error@ == posture_preflight_view(
            if launching {
                "native posture callback queues were unavailable before launch dispatch"@
            } else {
                "workspace posture callback queue was unavailable before interaction"@
            },
        ),
{
    if workspace_barrier && (containment_barrier || !launching) {
        return Ok(());
    }
    Err(
        posture_preflight(
            if launching {
                "native posture callback queues were unavailable before launch dispatch"
            } else {
                "workspace posture callback queue was unavailable before interaction"
            },
        ),
    )
}

/// How a deadline-owned containment reacted to activations.
#[derive(Debug, Clone, Copy, PartialEq, Eq, Structural)]
pub struct SuppressionOutcome {
    pub activations: u64,
    pub restore_attempts: u64,
    pub restore_failures: u64,
}

#[derive(Debug, Clone, Copy, PartialEq, Eq, Structural)]
pub struct SuppressionCloseOutcome {
    pub evidence: SuppressionOutcome,
    pub callback_queue_drained: bool,
}

impl SuppressionCloseOutcome {
    /// The outcome where nothing was contained.
    pub fn none() -> (outcome: SuppressionCloseOutcome)
        ensures
            outcome.callback_queue_drained,
            outcome.evidence == (SuppressionOutcome {
                activations: 0,
                restore_attempts: 0,
                restore_failures: 0,
            }),
    {
        SuppressionCloseOutcome {
            evidence: SuppressionOutcome {
                activations: 0,
                restore_attempts: 0,
                restore_failures: 0,
            },
            callback_queue_drained: true,
        }
    }
}

pub open spec fn pid_detail(pid: Option<i32>) -> evidence::DetailView {
    evidence::DetailView::optional_int(
        match pid {
            Some(pid) => Some(pid as int),
            None => None,
        },
    )
}

pub open spec fn window_detail(key: Option<Option<u32>>) -> evidence::DetailView {
    evidence::DetailView::optional_int(
        match key {
            Some(Some(window)) => Some(window as int),
            _ => None,
        },
    )
}

pub open spec fn pids(list: Seq<i32>) -> Seq<int> {
    list.map_values(|pid: i32| pid as int)
}

pub open spec fn posture_evidence_map(
    state: PostureProofState,
    baseline: PostureSample,
    final_sample: PostureSample,
    target_pid: Option<i32>,
    containment: SuppressionCloseOutcome,
) -> Map<Seq<char>, evidence::DetailView> {
    Map::<Seq<char>, evidence::DetailView>::empty().insert(
        "prior_frontmost_pid"@,
        pid_detail(baseline.frontmost),
    ).insert("final_frontmost_pid"@, pid_detail(final_sample.frontmost)).insert(
        "prior_key_window_id"@,
        window_detail(baseline.key()),
    ).insert("final_key_window_id"@, window_detail(final_sample.key())).insert(
        "prior_physical_cursor"@,
        cursor_detail(baseline.position()),
    ).insert("final_physical_cursor"@, cursor_detail(final_sample.position())).insert(
        "activation_pids"@,
        evidence::DetailView::Ints(pids(state.activation_pids@)),
    ).insert("target_pid"@, pid_detail(target_pid)).insert(
        "workspace_event_stream_complete"@,
        evidence::DetailView::Bool(state.workspace_stream_complete),
    ).insert(
        "ax_focus_event_stream_complete"@,
        evidence::DetailView::Bool(state.ax_stream_complete),
    ).insert(
        "hid_cursor_event_stream_complete"@,
        evidence::DetailView::Bool(state.hid_stream_complete),
    ).insert(
        "containment_event_stream_complete"@,
        evidence::DetailView::Bool(state.containment_stream_complete),
    ).insert(
        "workspace_event_lagged_count"@,
        evidence::DetailView::Int(state.workspace_lagged_events as int),
    ).insert(
        "ax_focus_event_count"@,
        evidence::DetailView::Int(state.ax_focus_events as int),
    ).insert(
        "hid_cursor_event_count"@,
        evidence::DetailView::Int(state.hid_cursor_events as int),
    ).insert(
        "containment_callback_queue_drained"@,
        evidence::DetailView::Bool(containment.callback_queue_drained),
    ).insert(
        "containment_activations"@,
        evidence::DetailView::Int(containment.evidence.activations as int),
    ).insert(
        "containment_restore_attempts"@,
        evidence::DetailView::Int(containment.evidence.restore_attempts as int),
    ).insert(
        "containment_restore_failures"@,
        evidence::DetailView::Int(containment.evidence.restore_failures as int),
    )
}

/// Where the cursor was, as evidence.
pub open spec fn cursor_detail(position: Option<CursorPosition>) -> evidence::DetailView {
    match position {
        Some(position) => evidence::DetailView::Reals(seq![position.x, position.y]),
        None => evidence::DetailView::Null,
    }
}

fn position_detail(position: Option<CursorPosition>) -> (detail: Detail)
    ensures
        detail@ == cursor_detail(position),
{
    match position {
        Some(position) => {
            let coordinates: Vec<i64> = vec![position.x, position.y];
            assert(coordinates@ =~= seq![position.x, position.y]);
            Detail::Reals(coordinates)
        },
        None => Detail::Null,
    }
}

fn window_id_detail(key: Option<Option<u32>>) -> (detail: Detail)
    ensures
        detail@ == window_detail(key),
{
    match key {
        Some(Some(window)) => Detail::Int(window as i128),
        _ => Detail::Null,
    }
}

fn pid_list(list: &Vec<i32>) -> (values: Vec<i64>)
    ensures
        evidence::ints_view(values@) == pids(list@),
{
    let mut values: Vec<i64> = Vec::new();
    let mut index: usize = 0;
    while index < list.len()
        invariant
            index <= list.len(),
            values.len() == index,
            forall|i: int| 0 <= i < index ==> #[trigger] values@[i] == list@[i],
        decreases list.len() - index,
    {
        values.push(list[index] as i64);
        index = index + 1;
    }
    assert(evidence::ints_view(values@) =~= pids(list@));
    values
}

/// The evidence of a witnessed posture.
pub fn posture_evidence(
    state: &PostureProofState,
    baseline: PostureSample,
    final_sample: PostureSample,
    target_pid: Option<i32>,
    containment: SuppressionCloseOutcome,
) -> (fields: Fields)
    ensures
        fields@ == posture_evidence_map(*state, baseline, final_sample, target_pid, containment),
{
    let mut fields: Fields = Fields::new();
    fields.insert("prior_frontmost_pid", Detail::optional_i32(baseline.frontmost));
    fields.insert("final_frontmost_pid", Detail::optional_i32(final_sample.frontmost));
    fields.insert("prior_key_window_id", window_id_detail(baseline.key_option()));
    fields.insert("final_key_window_id", window_id_detail(final_sample.key_option()));
    fields.insert("prior_physical_cursor", position_detail(baseline.position_option()));
    fields.insert("final_physical_cursor", position_detail(final_sample.position_option()));
    fields.insert("activation_pids", Detail::Ints(pid_list(&state.activation_pids)));
    fields.insert("target_pid", Detail::optional_i32(target_pid));
    fields.insert("workspace_event_stream_complete", Detail::Bool(state.workspace_stream_complete));
    fields.insert("ax_focus_event_stream_complete", Detail::Bool(state.ax_stream_complete));
    fields.insert("hid_cursor_event_stream_complete", Detail::Bool(state.hid_stream_complete));
    fields.insert(
        "containment_event_stream_complete",
        Detail::Bool(state.containment_stream_complete),
    );
    fields.insert(
        "workspace_event_lagged_count",
        Detail::Int(state.workspace_lagged_events as i128),
    );
    fields.insert("ax_focus_event_count", Detail::Int(state.ax_focus_events as i128));
    fields.insert("hid_cursor_event_count", Detail::Int(state.hid_cursor_events as i128));
    fields.insert(
        "containment_callback_queue_drained",
        Detail::Bool(containment.callback_queue_drained),
    );
    fields.insert("containment_activations", Detail::Int(containment.evidence.activations as i128));
    fields.insert(
        "containment_restore_attempts",
        Detail::Int(containment.evidence.restore_attempts as i128),
    );
    fields.insert(
        "containment_restore_failures",
        Detail::Int(containment.evidence.restore_failures as i128),
    );
    fields
}

/// How the native streams ended.
#[derive(Debug, Clone, Copy, PartialEq, Eq, Structural)]
pub struct StreamBarriers {
    pub workspace: bool,
    pub ax: bool,
    pub hid: bool,
}

impl PostureProofState {
    /// The verdict after the streams were closed and the final sample taken.
    pub open spec fn finished_view(
        &self,
        baseline: PostureSample,
        final_sample: PostureSample,
        barriers: StreamBarriers,
        containment: SuppressionCloseOutcome,
    ) -> ProofView {
        let readable = final_sample.readable();
        ProofView {
            frontmost_changed: self.frontmost_changed || containment.evidence.activations > 0
                || differs(baseline.frontmost, final_sample.frontmost),
            key_window_changed: self.key_window_changed || differs(
                baseline.key(),
                final_sample.key(),
            ),
            physical_cursor_moved: self.physical_cursor_moved || differs(
                baseline.position(),
                final_sample.position(),
            ),
            workspace_complete: self.workspace_stream_complete && barriers.workspace && readable,
            ax_complete: self.ax_stream_complete && barriers.ax && readable,
            hid_complete: self.hid_stream_complete && barriers.hid && readable,
            containment_complete: self.containment_stream_complete
                && containment.callback_queue_drained,
        }
    }

    /// Ends a witness: a stream that did not drain proves nothing, and an
    /// activation that containment saw is an excursion.
    pub fn finish(
        &mut self,
        baseline: PostureSample,
        final_sample: PostureSample,
        target_pid: Option<i32>,
        barriers: StreamBarriers,
        containment: SuppressionCloseOutcome,
    ) -> (finished: (PostureResult, Fields))
        ensures
            final(self).proof_view().follows(old(self).proof_view()),
            final(self).proof_view() == old(self).finished_view(
                baseline,
                final_sample,
                barriers,
                containment,
            ),
            final(self).activation_pids == old(self).activation_pids,
            final(self).workspace_lagged_events == old(self).workspace_lagged_events,
            final(self).ax_focus_events == old(self).ax_focus_events,
            final(self).hid_cursor_events == old(self).hid_cursor_events,
            finished.0 == final(self).result(baseline, final_sample),
            finished.1@ == posture_evidence_map(
                *final(self),
                baseline,
                final_sample,
                target_pid,
                containment,
            ),
    {
        self.workspace_stream_complete = self.workspace_stream_complete && barriers.workspace;
        self.ax_stream_complete = self.ax_stream_complete && barriers.ax;
        self.hid_stream_complete = self.hid_stream_complete && barriers.hid;
        self.containment_stream_complete = self.containment_stream_complete
            && containment.callback_queue_drained;
        if containment.evidence.activations > 0 {
            self.frontmost_changed = true;
        }
        self.observe_final_sample(baseline, final_sample);
        let posture: PostureResult = self.posture(baseline, final_sample);
        let fields: Fields = posture_evidence(self, baseline, final_sample, target_pid, containment);
        (posture, fields)
    }

    /// Records whether the containment could be narrowed to the launched
    /// process; where it could not, containment proves nothing any more.
    pub fn set_target(&mut self, narrowed: bool) -> (outcome: Result<(), NativeError>)
        ensures
            final(self).proof_view().follows(old(self).proof_view()),
            final(self).proof_view() == (ProofView {
                containment_complete: old(self).containment_stream_complete && narrowed,
                ..old(self).proof_view()
            }),
            *final(self) == (PostureProofState {
                containment_stream_complete: final(self).containment_stream_complete,
                ..*old(self)
            }),
            outcome is Ok <==> narrowed,
            outcome matches Err(error) ==> error@ == posture_preflight_view(
                "launch containment wildcard could not be narrowed on its serial callback queue"@,
            ),
    {
        if narrowed {
            Ok(())
        } else {
            self.containment_stream_complete = false;
            Err(
                posture_preflight(
                    "launch containment wildcard could not be narrowed on its serial callback queue",
                ),
            )
        }
    }
}

/// The time left until a deadline, at most a given maximum.
pub fn remaining_until(deadline: u64, now: u64, maximum: u64) -> (left: u64)
    ensures
        left == if deadline <= now {
            0
        } else if deadline - now < maximum {
            deadline - now
        } else {
            maximum as int
        },
{
    let left: u64 = deadline.saturating_sub(now);
    if left < maximum {
        left
    } else {
        maximum
    }
}

/// The control of one native observer stream.
#[derive(Debug, Clone, Copy, PartialEq, Eq, Structural)]
pub struct ObserverControl {
    pub closed: bool,
}

impl ObserverControl {
    /// Starts to close the stream, and says by when its run loop must have
    /// drained; `None` where it was closed before, which counts as success.
    pub fn begin_close(&mut self, now: u64, timeout: u64) -> (drain_by: Option<u64>)
        ensures
            final(self).closed,
            drain_by is None <==> old(self).closed,
            drain_by matches Some(by) ==> {
                let grace = if timeout > OBSERVER_RUN_LOOP_INTERVAL_NS {
                    timeout - OBSERVER_RUN_LOOP_INTERVAL_NS
                } else {
                    0
                };
                by == if now + grace > u64::MAX {
                    u64::MAX as int
                } else {
                    now + grace
                }
            },
    {
        if self.closed {
            return None;
        }
        self.closed = true;
        Some(now.saturating_add(timeout.saturating_sub(OBSERVER_RUN_LOOP_INTERVAL_NS)))
    }
}

/// What the focused window of an application reads as: no focused window is a
/// readable answer, anything else that names no window is not.
pub fn focused_window(status: i32, window_id: Option<u32>) -> (read: Result<Option<u32>, ()>)
    ensures
        ({
            let no_value = status == crate::ax::bindings::AX_ERROR_NO_VALUE;
            let read_ok = status == crate::ax::bindings::AX_ERROR_SUCCESS && window_id is Some;
            &&& read is Ok <==> no_value || read_ok
            &&& read matches Ok(found) ==> found == if no_value {
                None
            } else {
                window_id
            }
        }),
{
    if status == crate::ax::bindings::AX_ERROR_NO_VALUE {
        return Ok(None);
    }
    if status != crate::ax::bindings::AX_ERROR_SUCCESS {
        return Err(());
    }
    match window_id {
        Some(window) => Ok(Some(window)),
        None => Err(()),
    }
}

/// How far the registration of the focus stream got.
#[derive(Debug, Clone, Copy, PartialEq, Eq, Structural)]
pub struct FocusStreamFacts {
    /// The frontmost application has an AX element.
    pub application: bool,
    pub create_status: i32,
    /// A native observer was returned.
    pub created: bool,
    /// How many of the two focus notifications took hold.
    pub registered: usize,
    /// The observer has a run-loop source.
    pub source: bool,
}

/// Why the focus stream cannot prove anything.
pub open spec fn focus_stream_refusal(facts: FocusStreamFacts) -> Option<Seq<char>> {
    if !facts.application {
        Some("foreground AX application element is unavailable"@)
    } else if facts.create_status != AX_ERROR_SUCCESS || !facts.created {
        Some(
            "foreground AX posture observer creation failed with "@ + text::signed_decimal(
                facts.create_status as int,
            ),
        )
    } else if facts.registered != 2 || !facts.source {
        Some("foreground AX focus/key event stream is incomplete"@)
    } else {
        None
    }
}

/// Admits the focus stream: both focus notifications of the frontmost
/// application have to be delivered.
pub fn admit_focus_stream(facts: FocusStreamFacts) -> (outcome: Result<(), NativeError>)
    ensures
        outcome is Ok <==> focus_stream_refusal(facts) is None,
        outcome matches Err(error) ==> error@ == posture_preflight_view(
            focus_stream_refusal(facts)->0,
        ),
{
    if !facts.application {
        return Err(posture_preflight("foreground AX application element is unavailable"));
    }
    if facts.create_status != AX_ERROR_SUCCESS || !facts.created {
        let mut message: String = "foreground AX posture observer creation failed with ".to_owned();
        push_signed_decimal(&mut message, facts.create_status as i64);
        return Err(posture_preflight(message.as_str()));
    }
    if facts.registered != 2 || !facts.source {
        return Err(posture_preflight("foreground AX focus/key event stream is incomplete"));
    }
    Ok(())
}

/// Admits the stream of the physical cursor.
pub fn admit_cursor_stream(tap: bool, source: bool) -> (outcome: Result<(), NativeError>)
    ensures
        outcome is Ok <==> tap && source,
        outcome matches Err(error) ==> error@ == posture_preflight_view(
            if !tap {
                "listen-only HID cursor event tap is unavailable"@
            } else {
                "listen-only HID cursor event tap has no run-loop source"@
            },
        ),
{
    if !tap {
        return Err(posture_preflight("listen-only HID cursor event tap is unavailable"));
    }
    if !source {
        return Err(
            posture_preflight("listen-only HID cursor event tap has no run-loop source"),
        );
    }
    Ok(())
}

/// The two streams that prove posture.
#[derive(Debug, Clone, Copy, PartialEq, Eq, Structural)]
pub enum PostureStream {
    Focus,
    Cursor,
}

/// How the registration of a stream ended; `heard` is what its thread said in
/// time.
pub fn stream_handshake(stream: PostureStream, heard: Option<Result<(), NativeError>>) -> (outcome:
    Result<(), NativeError>)
    ensures
        outcome is Ok <==> (heard matches Some(said) && said is Ok),
        outcome matches Err(error) ==> error@ == match heard {
            Some(Err(failure)) => failure@,
            _ => posture_preflight_view(
                match stream {
                    PostureStream::Focus
                    => "AX posture stream registration exceeded its bounded deadline"@,
                    PostureStream::Cursor
                    => "HID cursor stream registration exceeded its bounded deadline"@,
                },
            ),
        },
{
    match heard {
        Some(said) => said,
        None => Err(
            posture_preflight(
                match stream {
                    PostureStream::Focus
                    => "AX posture stream registration exceeded its bounded deadline",
                    PostureStream::Cursor
                    => "HID cursor stream registration exceeded its bounded deadline",
                },
            ),
        ),
    }
}

} // verus!
