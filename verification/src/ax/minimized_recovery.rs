//! Exact, focus-preserving recovery of a minimized current-Space window.
//!
//! Recovery writes `AXMinimized=false` on the addressed AX window, then waits
//! for exact AX and WindowServer readback. It stays behind the caller's window
//! claim and never activates the target. The native reads and the one write are
//! performed outside; every decision on them is made here.
use std::collections::HashMap;
use vstd::prelude::*;

use crate::ax::bindings::AX_ERROR_SUCCESS;
use crate::evidence;
use crate::evidence::{Detail, Fields, Scalar};
use crate::text;
use crate::text::{clone_optional_text, same_text};

verus! {

/// How long the readback of a restored window may take, in nanoseconds.
pub const SETTLE_TIMEOUT_NS: u64 = 3_000_000_000;

/// The pause between two readbacks, in nanoseconds.
pub const READBACK_INTERVAL_NS: u64 = 25_000_000;

#[derive(Debug)]
pub struct ExactAxWindowFacts {
    pub minimized: Option<bool>,
    pub subrole: Option<String>,
    pub is_main: Option<bool>,
}

#[verifier::ext_equal]
pub ghost struct WindowFactsView {
    pub minimized: Option<bool>,
    pub subrole: Option<Seq<char>>,
    pub is_main: Option<bool>,
}

impl View for ExactAxWindowFacts {
    type V = WindowFactsView;

    open spec fn view(&self) -> WindowFactsView {
        WindowFactsView {
            minimized: self.minimized,
            subrole: text::optional_text(self.subrole),
            is_main: self.is_main,
        }
    }
}

impl WindowFactsView {
    /// A standard window, or a dialog that is minimized right now.
    pub open spec fn recoverable(self) -> bool {
        self.subrole == Some("AXStandardWindow"@) || (self.minimized == Some(true) && self.subrole
            == Some("AXDialog"@))
    }
}

fn subrole_is(subrole: &Option<String>, wanted: &str) -> (is: bool)
    ensures
        is == (text::optional_text(*subrole) == Some(wanted@)),
{
    match subrole {
        Some(subrole) => same_text(subrole.as_str(), wanted),
        None => false,
    }
}

impl ExactAxWindowFacts {
    pub fn is_recoverable_standard(&self) -> (recoverable: bool)
        ensures
            recoverable == self@.recoverable(),
    {
        subrole_is(&self.subrole, "AXStandardWindow") || (self.minimized == Some(true)
            && subrole_is(&self.subrole, "AXDialog"))
    }
}

impl Clone for ExactAxWindowFacts {
    fn clone(&self) -> (copy: Self)
        ensures
            copy@ == self@,
    {
        ExactAxWindowFacts {
            minimized: self.minimized,
            subrole: clone_optional_text(&self.subrole),
            is_main: self.is_main,
        }
    }
}

/// One top-level AX window of a process, with the WindowServer id it maps to.
#[derive(Debug)]
pub struct MappedAxWindow {
    pub window_id: Option<u32>,
    pub facts: ExactAxWindowFacts,
}

/// Whether the window at a position is the only one that maps to an id.
pub open spec fn uniquely_mapped(windows: Seq<MappedAxWindow>, at: int, window_id: u32) -> bool {
    &&& 0 <= at < windows.len()
    &&& windows[at].window_id == Some(window_id)
    &&& forall|other: int|
        0 <= other < windows.len() && (#[trigger] windows[other]).window_id == Some(window_id)
            ==> other == at
}

/// Whether facts are those of the one window with an id, and none where there is not
/// exactly one.
pub open spec fn is_exact_mapping(
    windows: Seq<MappedAxWindow>,
    window_id: u32,
    found: Option<ExactAxWindowFacts>,
) -> bool {
    match found {
        Some(facts) => exists|at: int| #[trigger]
            uniquely_mapped(windows, at, window_id) && windows[at].facts@ == facts@,
        None => forall|at: int| !#[trigger] uniquely_mapped(windows, at, window_id),
    }
}

/// The AX facts of exactly one window of an enumeration.
///
/// `None` means zero or multiple AX windows mapped to the id. Callers must not
/// infer a target from either shape.
pub fn exact_ax_window_facts(windows: &Vec<MappedAxWindow>, window_id: u32) -> (found: Option<
    ExactAxWindowFacts,
>)
    ensures
        is_exact_mapping(windows@, window_id, found),
{
    let mut found: Option<usize> = None;
    let mut index: usize = 0;
    while index < windows.len()
        invariant
            index <= windows.len(),
            found is None ==> forall|i: int|
                0 <= i < index ==> (#[trigger] windows@[i]).window_id != Some(window_id),
            found matches Some(at) ==> at < index && windows@[at as int].window_id == Some(
                window_id,
            ) && forall|i: int|
                0 <= i < index && (#[trigger] windows@[i]).window_id == Some(window_id) ==> i == at,
        decreases windows.len() - index,
    {
        if windows[index].window_id == Some(window_id) {
            if let Some(at) = found {
                assert forall|other: int| !#[trigger]
                    uniquely_mapped(windows@, other, window_id) by {
                    assert(windows@[at as int].window_id == Some(window_id));
                    assert(windows@[index as int].window_id == Some(window_id));
                }
                return None;
            }
            found = Some(index);
        }
        index = index + 1;
    }
    match found {
        Some(at) => {
            assert(uniquely_mapped(windows@, at as int, window_id));
            Some(windows[at].facts.clone())
        },
        None => {
            assert forall|other: int| !#[trigger] uniquely_mapped(windows@, other, window_id) by {
                if 0 <= other < windows@.len() {
                    assert(windows@[other].window_id != Some(window_id));
                }
            }
            None
        },
    }
}

/// A position whose window alone maps to an id.
pub open spec fn sole_position(window_ids: Seq<Option<u32>>, at: int, window_id: u32) -> bool {
    &&& 0 <= at < window_ids.len()
    &&& window_ids[at] == Some(window_id)
    &&& forall|other: int|
        0 <= other < window_ids.len() && #[trigger] window_ids[other] == Some(window_id) ==> other
            == at
}

/// The position of the only AX window that maps to an id; none where no window
/// or several do.
pub fn exact_ax_window(window_ids: &Vec<Option<u32>>, window_id: u32) -> (position: Option<usize>)
    ensures
        match position {
            Some(at) => sole_position(window_ids@, at as int, window_id),
            None => forall|at: int| !#[trigger] sole_position(window_ids@, at, window_id),
        },
{
    let mut found: Option<usize> = None;
    let mut index: usize = 0;
    while index < window_ids.len()
        invariant
            index <= window_ids.len(),
            found is None ==> forall|i: int|
                0 <= i < index ==> #[trigger] window_ids@[i] != Some(window_id),
            found matches Some(at) ==> at < index && window_ids@[at as int] == Some(window_id)
                && forall|i: int|
                0 <= i < index && #[trigger] window_ids@[i] == Some(window_id) ==> i == at,
        decreases window_ids.len() - index,
    {
        if window_ids[index] == Some(window_id) {
            if let Some(at) = found {
                assert forall|other: int| !#[trigger]
                    sole_position(window_ids@, other, window_id) by {
                    assert(window_ids@[at as int] == Some(window_id));
                    assert(window_ids@[index as int] == Some(window_id));
                }
                return None;
            }
            found = Some(index);
        }
        index = index + 1;
    }
    found
}

/// Whether some facts are those of the only window of an id.
pub open spec fn uniquely_listed(
    windows: Seq<MappedAxWindow>,
    window_id: u32,
    facts: ExactAxWindowFacts,
) -> bool {
    exists|at: int| #[trigger]
        uniquely_mapped(windows, at, window_id) && windows[at].facts@ == facts@
}

/// Whether a map has the facts of every window with an id of its own, and no others.
pub open spec fn are_exact_mappings(
    windows: Seq<MappedAxWindow>,
    facts: Map<u32, ExactAxWindowFacts>,
) -> bool {
    &&& forall|window_id: u32| #[trigger]
        facts.contains_key(window_id) ==> uniquely_listed(windows, window_id, facts[window_id])
    &&& forall|at: int, window_id: u32| #[trigger]
        uniquely_mapped(windows, at, window_id) ==> facts.contains_key(window_id)
            && facts[window_id]@ == windows[at].facts@
}

/// Every uniquely mapped top-level AX window of one enumeration, by its id.
/// Ambiguous duplicate mappings are omitted.
pub fn ax_window_facts_for_pid(windows: &Vec<MappedAxWindow>) -> (facts: HashMap<
    u32,
    ExactAxWindowFacts,
>)
    ensures
        are_exact_mappings(windows@, facts@),
{
    broadcast use vstd::std_specs::hash::group_hash_axioms;

    let mut facts: HashMap<u32, ExactAxWindowFacts> = HashMap::new();
    let mut index: usize = 0;
    while index < windows.len()
        invariant
            index <= windows.len(),
            forall|window_id: u32| #[trigger]
                facts@.contains_key(window_id) ==> uniquely_listed(
                    windows@,
                    window_id,
                    facts@[window_id],
                ),
            forall|at: int, window_id: u32|
                at < index && #[trigger] uniquely_mapped(windows@, at, window_id)
                    ==> facts@.contains_key(window_id),
        decreases windows.len() - index,
    {
        broadcast use vstd::std_specs::hash::group_hash_axioms;

        if let Some(window_id) = windows[index].window_id {
            if let Some(found) = exact_ax_window_facts(windows, window_id) {
                facts.insert(window_id, found);
            }
        }
        index = index + 1;
    }
    assert forall|at: int, window_id: u32| #[trigger]
        uniquely_mapped(windows@, at, window_id) implies facts@.contains_key(window_id)
        && facts@[window_id]@ == windows@[at].facts@ by {
        assert(facts@.contains_key(window_id));
        let other = choose|other: int| #[trigger]
            uniquely_mapped(windows@, other, window_id) && windows@[other].facts@
                == facts@[window_id]@;
        assert(windows@[other].window_id == Some(window_id));
    }
    facts
}

/// One window as the WindowServer reports it.
#[derive(Debug, Clone, Copy, PartialEq, Eq, Structural)]
pub struct ServerWindow {
    pub pid: i32,
    pub window_id: u32,
    pub is_on_screen: bool,
    pub on_current_space: Option<bool>,
}

pub open spec fn server_matches(
    windows: Seq<ServerWindow>,
    at: int,
    pid: i32,
    window_id: u32,
) -> bool {
    0 <= at < windows.len() && windows[at].pid == pid && windows[at].window_id == window_id
}

/// Whether a window is the one with a process and an id, and none where there is not
/// exactly one.
pub open spec fn is_exact_server_window(
    windows: Seq<ServerWindow>,
    pid: i32,
    window_id: u32,
    found: Option<ServerWindow>,
) -> bool {
    match found {
        Some(window) => exists|at: int|
            #![trigger server_matches(windows, at, pid, window_id)]
            {
                &&& server_matches(windows, at, pid, window_id)
                &&& windows[at] == window
                &&& forall|other: int| #[trigger]
                    server_matches(windows, other, pid, window_id) ==> other == at
            },
        None => (forall|at: int| !#[trigger] server_matches(windows, at, pid, window_id)) || (
        exists|first: int, second: int|
            #![trigger server_matches(windows, first, pid, window_id), server_matches(windows, second, pid, window_id)]
            first != second && server_matches(windows, first, pid, window_id) && server_matches(
                windows,
                second,
                pid,
                window_id,
            )),
    }
}

/// The one WindowServer window of an exact process and id; none where there is
/// no such window or more than one.
pub fn exact_server_window(windows: &Vec<ServerWindow>, pid: i32, window_id: u32) -> (found: Option<
    ServerWindow,
>)
    ensures
        is_exact_server_window(windows@, pid, window_id, found),
{
    let mut found: Option<usize> = None;
    let mut index: usize = 0;
    while index < windows.len()
        invariant
            index <= windows.len(),
            found is None ==> forall|i: int|
                i < index ==> !#[trigger] server_matches(windows@, i, pid, window_id),
            found matches Some(at) ==> at < index && server_matches(
                windows@,
                at as int,
                pid,
                window_id,
            ) && forall|i: int|
                i < index && #[trigger] server_matches(windows@, i, pid, window_id) ==> i == at,
        decreases windows.len() - index,
    {
        if windows[index].pid == pid && windows[index].window_id == window_id {
            assert(server_matches(windows@, index as int, pid, window_id));
            if found.is_some() {
                return None;
            }
            found = Some(index);
        }
        index = index + 1;
    }
    match found {
        Some(at) => Some(windows[at]),
        None => None,
    }
}

#[derive(Debug, Clone, Copy, PartialEq, Eq, Structural)]
pub struct RecoveryEvidence {
    pub pid: i32,
    pub window_id: u32,
    pub frontmost_pid_before: Option<i32>,
    pub frontmost_pid_after: Option<i32>,
    pub target_activation_observed: bool,
}

pub open spec fn optional_scalar(value: Option<i32>) -> evidence::ScalarView {
    match value {
        Some(value) => evidence::ScalarView::Int(value as int),
        None => evidence::ScalarView::Null,
    }
}

fn scalar_of(value: Option<i32>) -> (scalar: Scalar)
    ensures
        scalar@ == optional_scalar(value),
{
    match value {
        Some(value) => Scalar::Int(value as i128),
        None => Scalar::Null,
    }
}

impl RecoveryEvidence {
    pub open spec fn record(&self) -> Seq<(Seq<char>, evidence::ScalarView)> {
        seq![
            ("performed"@, evidence::ScalarView::Bool(true)),
            ("pid"@, evidence::ScalarView::Int(self.pid as int)),
            ("window_id"@, evidence::ScalarView::Int(self.window_id as int)),
            ("minimized_before_restore"@, evidence::ScalarView::Bool(true)),
            ("minimized_after_restore"@, evidence::ScalarView::Bool(false)),
            ("frontmost_pid_before"@, optional_scalar(self.frontmost_pid_before)),
            ("frontmost_pid_after"@, optional_scalar(self.frontmost_pid_after)),
            (
                "target_activation_observed"@,
                evidence::ScalarView::Bool(self.target_activation_observed),
            ),
        ]
    }

    pub fn structured(&self) -> (record: Vec<(String, Scalar)>)
        ensures
            evidence::record_view(record@) == self.record(),
    {
        let mut record: Vec<(String, Scalar)> = Vec::new();
        record.push(("performed".to_owned(), Scalar::Bool(true)));
        record.push(("pid".to_owned(), Scalar::Int(self.pid as i128)));
        record.push(("window_id".to_owned(), Scalar::Int(self.window_id as i128)));
        record.push(("minimized_before_restore".to_owned(), Scalar::Bool(true)));
        record.push(("minimized_after_restore".to_owned(), Scalar::Bool(false)));
        record.push(("frontmost_pid_before".to_owned(), scalar_of(self.frontmost_pid_before)));
        record.push(("frontmost_pid_after".to_owned(), scalar_of(self.frontmost_pid_after)));
        record.push(
            (
                "target_activation_observed".to_owned(),
                Scalar::Bool(self.target_activation_observed),
            ),
        );
        assert(evidence::record_view(record@) =~= self.record());
        record
    }

    pub open spec fn decorated(
        &self,
        structured: Map<Seq<char>, evidence::DetailView>,
    ) -> Map<Seq<char>, evidence::DetailView> {
        structured.insert("effect_may_have_occurred"@, evidence::DetailView::Bool(true)).insert(
            "native_side_effect_started"@,
            evidence::DetailView::Bool(true),
        ).insert("minimized_recovery"@, evidence::DetailView::Record(self.record()))
    }

    /// Marks an error as raised after the native write, with the evidence.
    pub fn decorate_error(&self, structured: Fields) -> (decorated: Fields)
        ensures
            decorated@ == self.decorated(structured@),
    {
        let mut fields: Fields = structured;
        fields.insert("effect_may_have_occurred", Detail::Bool(true));
        fields.insert("native_side_effect_started", Detail::Bool(true));
        fields.insert("minimized_recovery", Detail::Record(self.structured()));
        fields
    }
}

#[derive(Debug)]
pub struct RecoveryFailure {
    pub code: &'static str,
    pub phase: &'static str,
    pub message: String,
    pub retryable: bool,
    pub effect_may_have_occurred: bool,
    pub details: Fields,
}

#[verifier::ext_equal]
pub ghost struct FailureView {
    pub code: Seq<char>,
    pub phase: Seq<char>,
    pub message: Seq<char>,
    pub retryable: bool,
    pub effect_may_have_occurred: bool,
    pub details: Map<Seq<char>, evidence::DetailView>,
}

impl View for RecoveryFailure {
    type V = FailureView;

    open spec fn view(&self) -> FailureView {
        FailureView {
            code: self.code@,
            phase: self.phase@,
            message: self.message@,
            retryable: self.retryable,
            effect_may_have_occurred: self.effect_may_have_occurred,
            details: self.details@,
        }
    }
}

impl FailureView {
    pub open spec fn preflight(
        code: Seq<char>,
        message: Seq<char>,
        details: Map<Seq<char>, evidence::DetailView>,
    ) -> FailureView {
        FailureView {
            code,
            phase: "preflight"@,
            message,
            retryable: true,
            effect_may_have_occurred: false,
            details,
        }
    }

    pub open spec fn after_write(
        code: Seq<char>,
        phase: Seq<char>,
        message: Seq<char>,
        details: Map<Seq<char>, evidence::DetailView>,
    ) -> FailureView {
        FailureView {
            code,
            phase,
            message,
            retryable: false,
            effect_may_have_occurred: true,
            details,
        }
    }

    pub open spec fn payload(self) -> Map<Seq<char>, evidence::DetailView> {
        Map::<Seq<char>, evidence::DetailView>::empty().insert(
            "code"@,
            evidence::DetailView::Text(self.code),
        ).insert("phase"@, evidence::DetailView::Text(self.phase)).insert(
            "retryable"@,
            evidence::DetailView::Bool(self.retryable),
        ).insert(
            "effect_may_have_occurred"@,
            evidence::DetailView::Bool(self.effect_may_have_occurred),
        ).insert(
            "native_side_effect_started"@,
            evidence::DetailView::Bool(self.effect_may_have_occurred),
        )
    }
}

impl RecoveryFailure {
    /// A refusal before anything was written: trying again is safe.
    pub fn preflight(code: &'static str, message: &str, details: Fields) -> (failure:
        RecoveryFailure)
        ensures
            failure@ == FailureView::preflight(code@, message@, details@),
    {
        RecoveryFailure {
            code,
            phase: "preflight",
            message: message.to_owned(),
            retryable: true,
            effect_may_have_occurred: false,
            details,
        }
    }

    /// A failure once the write has started: its effect may have occurred.
    pub fn after_write(
        code: &'static str,
        phase: &'static str,
        message: &str,
        details: Fields,
    ) -> (failure: RecoveryFailure)
        ensures
            failure@ == FailureView::after_write(code@, phase@, message@, details@),
    {
        RecoveryFailure {
            code,
            phase,
            message: message.to_owned(),
            retryable: false,
            effect_may_have_occurred: true,
            details,
        }
    }

    /// The failure as one flat record; a detail of the same name wins.
    pub fn structured(&self) -> (fields: Fields)
        ensures
            fields@ == self@.payload().union_prefer_right(self@.details),
    {
        let mut fields: Fields = Fields::new();
        fields.insert("code", Detail::text(self.code));
        fields.insert("phase", Detail::text(self.phase));
        fields.insert("retryable", Detail::Bool(self.retryable));
        fields.insert("effect_may_have_occurred", Detail::Bool(self.effect_may_have_occurred));
        fields.insert("native_side_effect_started", Detail::Bool(self.effect_may_have_occurred));
        fields.extend(&self.details);
        fields
    }
}

pub open spec fn target_map(pid: i32, window_id: u32) -> Map<Seq<char>, evidence::DetailView> {
    Map::<Seq<char>, evidence::DetailView>::empty().insert(
        "pid"@,
        evidence::DetailView::Int(pid as int),
    ).insert("window_id"@, evidence::DetailView::Int(window_id as int))
}

fn target_fields(pid: i32, window_id: u32) -> (fields: Fields)
    ensures
        fields@ == target_map(pid, window_id),
{
    let mut fields: Fields = Fields::new();
    fields.insert("pid", Detail::Int(pid as i128));
    fields.insert("window_id", Detail::Int(window_id as i128));
    fields
}

/// The AX window to restore, as it was read right before the write.
#[derive(Debug)]
pub struct RecoveryCandidate {
    pub minimized: Option<bool>,
    pub subrole: Option<String>,
    pub settable: bool,
}

/// What recovery does with the exact window.
#[derive(Clone, Copy, Debug, PartialEq, Eq, Structural)]
pub enum RecoveryStart {
    /// The window is not minimized any more: nothing is written.
    AlreadyRestored,
    /// `AXMinimized` is to be written once.
    Write,
}

/// The refusal of a recovery, if there is one, in the order of the checks.
pub open spec fn recovery_refusal(
    pid: i32,
    window_id: u32,
    server: Option<ServerWindow>,
    hidden: Option<bool>,
    candidate: Option<RecoveryCandidate>,
) -> Option<FailureView> {
    let target = target_map(pid, window_id);
    match server {
        None => Some(
            FailureView::preflight(
                "window_not_found"@,
                "the exact minimized WindowServer target disappeared before recovery"@,
                target,
            ),
        ),
        Some(server) => if server.on_current_space != Some(true) {
            Some(
                FailureView::preflight(
                    "unsupported_in_background"@,
                    "minimized-window recovery requires an exact current-Space target"@,
                    target.insert(
                        "on_current_space"@,
                        evidence::DetailView::optional_bool(server.on_current_space),
                    ),
                ),
            )
        } else if hidden != Some(false) {
            Some(
                FailureView::preflight(
                    "unsupported_in_background"@,
                    "minimized-window recovery refuses a hidden or unknown application state"@,
                    target,
                ),
            )
        } else {
            match candidate {
                None => Some(
                    FailureView::preflight(
                        "observation_stale"@,
                        "the exact AX window disappeared before minimized recovery"@,
                        target,
                    ),
                ),
                Some(candidate) => {
                    let subrole = text::optional_text(candidate.subrole);
                    if candidate.minimized == Some(false) {
                        None
                    } else if !(candidate.minimized == Some(true) && (subrole == Some(
                        "AXStandardWindow"@,
                    ) || subrole == Some("AXDialog"@))) {
                        Some(
                            FailureView::preflight(
                                "unsupported_in_background"@,
                                "the exact AX window no longer has a recoverable minimized state"@,
                                target.insert(
                                    "minimized"@,
                                    evidence::DetailView::optional_bool(candidate.minimized),
                                ).insert(
                                    "subrole"@,
                                    evidence::DetailView::optional_text(subrole),
                                ),
                            ),
                        )
                    } else if !candidate.settable {
                        Some(
                            FailureView::preflight(
                                "unsupported_in_background"@,
                                "the exact window's AXMinimized attribute is not writable"@,
                                target.insert(
                                    "attribute"@,
                                    evidence::DetailView::Text("AXMinimized"@),
                                ),
                            ),
                        )
                    } else {
                        None
                    }
                },
            }
        },
    }
}

/// Decides whether the exact minimized window may be restored. Every refusal
/// comes before the write.
pub fn recovery_preflight(
    pid: i32,
    window_id: u32,
    server: Option<ServerWindow>,
    hidden: Option<bool>,
    candidate: Option<RecoveryCandidate>,
) -> (outcome: Result<RecoveryStart, RecoveryFailure>)
    ensures
        match outcome {
            Err(failure) => recovery_refusal(pid, window_id, server, hidden, candidate) == Some(
                failure@,
            ),
            Ok(start) => {
                &&& recovery_refusal(pid, window_id, server, hidden, candidate) is None
                &&& start is Write <==> candidate->0.minimized == Some(true)
            },
        },
{
    let mut details: Fields = target_fields(pid, window_id);
    let server = match server {
        Some(server) => server,
        None => return Err(
            RecoveryFailure::preflight(
                "window_not_found",
                "the exact minimized WindowServer target disappeared before recovery",
                details,
            ),
        ),
    };
    if server.on_current_space != Some(true) {
        details.insert("on_current_space", Detail::optional_bool(server.on_current_space));
        return Err(
            RecoveryFailure::preflight(
                "unsupported_in_background",
                "minimized-window recovery requires an exact current-Space target",
                details,
            ),
        );
    }
    if hidden != Some(false) {
        return Err(
            RecoveryFailure::preflight(
                "unsupported_in_background",
                "minimized-window recovery refuses a hidden or unknown application state",
                details,
            ),
        );
    }
    let candidate = match candidate {
        Some(candidate) => candidate,
        None => return Err(
            RecoveryFailure::preflight(
                "observation_stale",
                "the exact AX window disappeared before minimized recovery",
                details,
            ),
        ),
    };
    if candidate.minimized == Some(false) {
        return Ok(RecoveryStart::AlreadyRestored);
    }
    let recoverable: bool = candidate.minimized == Some(true) && (subrole_is(
        &candidate.subrole,
        "AXStandardWindow",
    ) || subrole_is(&candidate.subrole, "AXDialog"));
    if !recoverable {
        details.insert("minimized", Detail::optional_bool(candidate.minimized));
        details.insert("subrole", Detail::optional_text(&candidate.subrole));
        return Err(
            RecoveryFailure::preflight(
                "unsupported_in_background",
                "the exact AX window no longer has a recoverable minimized state",
                details,
            ),
        );
    }
    if !candidate.settable {
        details.insert("attribute", Detail::text("AXMinimized"));
        return Err(
            RecoveryFailure::preflight(
                "unsupported_in_background",
                "the exact window's AXMinimized attribute is not writable",
                details,
            ),
        );
    }
    Ok(RecoveryStart::Write)
}

/// The failure of a native write that was refused.
pub open spec fn write_failure(pid: i32, window_id: u32, status: i32) -> FailureView {
    FailureView::after_write(
        "dispatch_failed"@,
        "dispatch"@,
        "AX failed to restore the exact minimized window"@,
        target_map(pid, window_id).insert(
            "attribute"@,
            evidence::DetailView::Text("AXMinimized"@),
        ).insert("ax_status"@, evidence::DetailView::Int(status as int)),
    )
}

/// Reads the status of the one native write.
pub fn recovery_write_outcome(pid: i32, window_id: u32, status: i32) -> (outcome: Result<
    (),
    RecoveryFailure,
>)
    ensures
        outcome is Ok <==> status == AX_ERROR_SUCCESS,
        outcome matches Err(failure) ==> failure@ == write_failure(pid, window_id, status),
{
    if status == AX_ERROR_SUCCESS {
        return Ok(());
    }
    let mut details: Fields = target_fields(pid, window_id);
    details.insert("attribute", Detail::text("AXMinimized"));
    details.insert("ax_status", Detail::Int(status as i128));
    Err(
        RecoveryFailure::after_write(
            "dispatch_failed",
            "dispatch",
            "AX failed to restore the exact minimized window",
            details,
        ),
    )
}

/// One readback after the write.
#[derive(Clone, Copy, Debug, PartialEq, Eq, Structural)]
pub struct RecoveryReadback {
    /// `AXMinimized` of the exact AX window, where it could be read.
    pub ax_minimized: Option<bool>,
    pub server: Option<ServerWindow>,
    pub hidden: Option<bool>,
}

impl RecoveryReadback {
    /// The window is observable: AX and the WindowServer agree that it is
    /// restored on the current Space of an application that is not hidden.
    pub open spec fn settled(self) -> bool {
        &&& self.ax_minimized == Some(false)
        &&& self.server matches Some(server) && server.is_on_screen && server.on_current_space
            == Some(true)
        &&& self.hidden == Some(false)
    }
}

#[derive(Clone, Copy, Debug, PartialEq, Eq, Structural)]
pub enum RecoverySettle {
    Restored,
    /// Read back again after the readback interval.
    Wait,
    /// Give up, with what one more reading reports.
    GiveUp,
}

/// What is read once more of a window whose restoration is given up: each value
/// in a reading of its own.
#[derive(Clone, Copy, Debug, PartialEq, Eq, Structural)]
pub struct RecoveryReport {
    /// `AXMinimized` of the exact AX window.
    pub ax_minimized: Option<bool>,
    /// Whether the WindowServer has the exact window on screen.
    pub on_screen: Option<bool>,
    /// Whether the WindowServer has the exact window on the current Space.
    pub on_current_space: Option<bool>,
}

/// The failure of a restoration that did not become observable in time.
pub open spec fn settle_failure(
    pid: i32,
    window_id: u32,
    report: RecoveryReport,
) -> FailureView {
    FailureView::after_write(
        "ui_not_settled"@,
        "settle"@,
        "the exact minimized window did not become observable before the bounded deadline"@,
        target_map(pid, window_id).insert(
            "ax_minimized"@,
            evidence::DetailView::optional_bool(report.ax_minimized),
        ).insert(
            "windowserver_on_screen"@,
            evidence::DetailView::optional_bool(report.on_screen),
        ).insert(
            "windowserver_on_current_space"@,
            evidence::DetailView::optional_bool(report.on_current_space),
        ),
    )
}

/// The failure of a restoration that is given up, with what was read of the
/// window after that was decided.
pub fn recovery_timed_out(pid: i32, window_id: u32, report: RecoveryReport) -> (failure:
    RecoveryFailure)
    ensures
        failure@ == settle_failure(pid, window_id, report),
{
    let mut details: Fields = target_fields(pid, window_id);
    details.insert("ax_minimized", Detail::optional_bool(report.ax_minimized));
    details.insert("windowserver_on_screen", Detail::optional_bool(report.on_screen));
    details.insert("windowserver_on_current_space", Detail::optional_bool(report.on_current_space));
    RecoveryFailure::after_write(
        "ui_not_settled",
        "settle",
        "the exact minimized window did not become observable before the bounded deadline",
        details,
    )
}

/// Decides on one readback: evidence of restoration wins over the deadline.
pub fn recovery_settle(readback: RecoveryReadback, now: u64, deadline: u64) -> (step:
    RecoverySettle)
    ensures
        step == if readback.settled() {
            RecoverySettle::Restored
        } else if now < deadline {
            RecoverySettle::Wait
        } else {
            RecoverySettle::GiveUp
        },
{
    let server_settled: bool = match readback.server {
        Some(server) => server.is_on_screen && server.on_current_space == Some(true),
        None => false,
    };
    if readback.ax_minimized == Some(false) && server_settled && readback.hidden == Some(false) {
        return RecoverySettle::Restored;
    }
    if now < deadline {
        RecoverySettle::Wait
    } else {
        RecoverySettle::GiveUp
    }
}

/// When a readback that starts at `now` is given up.
pub open spec fn settle_deadline(now: u64) -> u64 {
    if now + SETTLE_TIMEOUT_NS > u64::MAX {
        u64::MAX
    } else {
        (now + SETTLE_TIMEOUT_NS) as u64
    }
}

/// The deadline of a readback that starts now.
pub fn recovery_deadline(now: u64) -> (deadline: u64)
    ensures
        deadline == settle_deadline(now),
{
    now.saturating_add(SETTLE_TIMEOUT_NS)
}

/// What a recovery awaits.
#[derive(Clone, Copy, Debug, PartialEq, Eq, Structural)]
pub enum RecoveryStage {
    /// The exact window is read for the last time.
    Preflight,
    /// `AXMinimized` is written.
    Write,
    /// The restored window is read back until the deadline.
    Settle { deadline: u64 },
    /// The window is read once more for the failure.
    Report,
    Done,
}

/// What the host reports to a recovery.
#[derive(Debug)]
pub enum RecoveryEvent {
    Read {
        server: Option<ServerWindow>,
        hidden: Option<bool>,
        candidate: Option<RecoveryCandidate>,
    },
    /// The status of the write, and the clock after it.
    Written { status: i32, now: u64 },
    /// One readback, and the clock after it.
    ReadBack { readback: RecoveryReadback, now: u64 },
    /// What was read after the recovery was given up.
    Reported { report: RecoveryReport },
}

/// The recovery of one exact window: one write at most, behind every check.
#[derive(Debug)]
pub struct RecoveryRun {
    pub pid: i32,
    pub window_id: u32,
    pub stage: RecoveryStage,
    /// The native write is under way or has been made.
    pub write_started: bool,
    /// Whether the window was written and restored.
    pub result: Option<Result<bool, RecoveryFailure>>,
}

pub ghost struct RecoveryRunView {
    pub pid: i32,
    pub window_id: u32,
    pub stage: RecoveryStage,
    pub write_started: bool,
    pub result: Option<Result<bool, FailureView>>,
}

impl View for RecoveryRun {
    type V = RecoveryRunView;

    open spec fn view(&self) -> RecoveryRunView {
        RecoveryRunView {
            pid: self.pid,
            window_id: self.window_id,
            stage: self.stage,
            write_started: self.write_started,
            result: match self.result {
                Some(Ok(wrote)) => Some(Ok(wrote)),
                Some(Err(failure)) => Some(Err(failure@)),
                None => None,
            },
        }
    }
}

impl RecoveryRunView {
    pub open spec fn starting(pid: i32, window_id: u32) -> RecoveryRunView {
        RecoveryRunView {
            pid,
            window_id,
            stage: RecoveryStage::Preflight,
            write_started: false,
            result: None,
        }
    }

    pub open spec fn done(self, result: Result<bool, FailureView>) -> RecoveryRunView {
        RecoveryRunView { stage: RecoveryStage::Done, result: Some(result), ..self }
    }

    /// What an event leads to; an event that is not awaited changes nothing.
    pub open spec fn after(self, event: RecoveryEvent) -> RecoveryRunView {
        match (self.stage, event) {
            (RecoveryStage::Preflight, RecoveryEvent::Read { server, hidden, candidate }) => {
                match recovery_refusal(self.pid, self.window_id, server, hidden, candidate) {
                    Some(failure) => self.done(Err(failure)),
                    None => if candidate->0.minimized == Some(true) {
                        RecoveryRunView {
                            stage: RecoveryStage::Write,
                            write_started: true,
                            ..self
                        }
                    } else {
                        self.done(Ok(false))
                    },
                }
            },
            (RecoveryStage::Write, RecoveryEvent::Written { status, now }) => if status
                == AX_ERROR_SUCCESS {
                RecoveryRunView {
                    stage: RecoveryStage::Settle { deadline: settle_deadline(now) },
                    ..self
                }
            } else {
                self.done(Err(write_failure(self.pid, self.window_id, status)))
            },
            (RecoveryStage::Settle { deadline }, RecoveryEvent::ReadBack { readback, now }) => if readback.settled() {
                self.done(Ok(true))
            } else if now < deadline {
                self
            } else {
                RecoveryRunView { stage: RecoveryStage::Report, ..self }
            },
            (RecoveryStage::Report, RecoveryEvent::Reported { report }) => self.done(
                Err(settle_failure(self.pid, self.window_id, report)),
            ),
            _ => self,
        }
    }

    /// What holds of every recovery: the write has started exactly where one
    /// is owed or was made, and the result says so.
    pub open spec fn wf(self) -> bool {
        match self.stage {
            RecoveryStage::Preflight => !self.write_started && self.result is None,
            RecoveryStage::Write | RecoveryStage::Settle { .. } | RecoveryStage::Report => {
                self.write_started && self.result is None
            },
            RecoveryStage::Done => match self.result {
                Some(Ok(wrote)) => wrote == self.write_started,
                Some(Err(failure)) => {
                    &&& failure.retryable == !self.write_started
                    &&& failure.effect_may_have_occurred == self.write_started
                },
                None => false,
            },
        }
    }
}

impl RecoveryRun {
    pub fn begin(pid: i32, window_id: u32) -> (run: RecoveryRun)
        ensures
            run@ == RecoveryRunView::starting(pid, window_id),
            run@.wf(),
    {
        RecoveryRun {
            pid,
            window_id,
            stage: RecoveryStage::Preflight,
            write_started: false,
            result: None,
        }
    }

    fn finish(&mut self, result: Result<bool, RecoveryFailure>)
        ensures
            final(self)@ == old(self)@.done(
                match result {
                    Ok(wrote) => Ok(wrote),
                    Err(failure) => Err(failure@),
                },
            ),
    {
        self.stage = RecoveryStage::Done;
        self.result = Some(result);
    }

    /// Takes an event and moves on.
    pub fn advance(&mut self, event: RecoveryEvent)
        ensures
            final(self)@ == old(self)@.after(event),
            old(self)@.wf() ==> final(self)@.wf(),
    {
        match (self.stage, event) {
            (RecoveryStage::Preflight, RecoveryEvent::Read { server, hidden, candidate }) => {
                match recovery_preflight(self.pid, self.window_id, server, hidden, candidate) {
                    Err(failure) => self.finish(Err(failure)),
                    Ok(RecoveryStart::AlreadyRestored) => self.finish(Ok(false)),
                    Ok(RecoveryStart::Write) => {
                        self.write_started = true;
                        self.stage = RecoveryStage::Write;
                    },
                }
            },
            (RecoveryStage::Write, RecoveryEvent::Written { status, now }) => {
                match recovery_write_outcome(self.pid, self.window_id, status) {
                    Err(failure) => self.finish(Err(failure)),
                    Ok(_) => {
                        self.stage = RecoveryStage::Settle { deadline: recovery_deadline(now) };
                    },
                }
            },
            (RecoveryStage::Settle { deadline }, RecoveryEvent::ReadBack { readback, now }) => {
                match recovery_settle(readback, now, deadline) {
                    RecoverySettle::Restored => self.finish(Ok(true)),
                    RecoverySettle::Wait => {},
                    RecoverySettle::GiveUp => self.stage = RecoveryStage::Report,
                }
            },
            (RecoveryStage::Report, RecoveryEvent::Reported { report }) => {
                let failure = recovery_timed_out(self.pid, self.window_id, report);
                self.finish(Err(failure));
            },
            _ => {},
        }
    }
}

/// Whether the exact window, as first read, is to be restored: only a
/// minimized window is, and only one that is recoverable.
pub fn restore_required(
    pid: i32,
    window_id: u32,
    initial: Option<ExactAxWindowFacts>,
) -> (required: Result<bool, RecoveryFailure>)
    ensures
        match initial {
            Some(facts) if facts.minimized == Some(true) => if facts@.recoverable() {
                required == Ok::<bool, RecoveryFailure>(true)
            } else {
                required matches Err(failure) && failure@ == FailureView::preflight(
                    "unsupported_in_background"@,
                    "minimized-window recovery requires an exact standard AX window"@,
                    target_map(pid, window_id).insert(
                        "subrole"@,
                        evidence::DetailView::optional_text(text::optional_text(facts.subrole)),
                    ).insert("minimized"@, evidence::DetailView::optional_bool(facts.minimized)),
                )
            },
            _ => required == Ok::<bool, RecoveryFailure>(false),
        },
{
    let facts = match initial {
        Some(facts) => facts,
        None => return Ok(false),
    };
    if facts.minimized != Some(true) {
        return Ok(false);
    }
    if !facts.is_recoverable_standard() {
        let mut details: Fields = target_fields(pid, window_id);
        details.insert("subrole", Detail::optional_text(&facts.subrole));
        details.insert("minimized", Detail::optional_bool(facts.minimized));
        return Err(
            RecoveryFailure::preflight(
                "unsupported_in_background",
                "minimized-window recovery requires an exact standard AX window",
                details,
            ),
        );
    }
    Ok(true)
}

/// The application that must stay frontmost while the window is restored:
/// none where the target is frontmost itself or nothing is known.
pub fn suppression_prior(pid: i32, frontmost_before: Option<i32>) -> (prior: Option<i32>)
    ensures
        prior == if frontmost_before == Some(pid) {
            None
        } else {
            frontmost_before
        },
{
    match frontmost_before {
        Some(prior) => if prior == pid {
            None
        } else {
            Some(prior)
        },
        None => None,
    }
}

/// The failure of the task that carries a recovery out: it may be tried again
/// only if the write had not started.
pub fn recovery_task_failure(pid: i32, window_id: u32, write_started: bool, error: &str) -> (failure:
    RecoveryFailure)
    ensures
        failure@ == if write_started {
            FailureView::after_write(
                "internal"@,
                "dispatch"@,
                "minimized-window recovery task failed after dispatch: "@ + error@,
                target_map(pid, window_id),
            )
        } else {
            FailureView::preflight(
                "internal"@,
                "minimized-window recovery task failed: "@ + error@,
                target_map(pid, window_id),
            )
        },
{
    let details: Fields = target_fields(pid, window_id);
    if write_started {
        let mut message: String = "minimized-window recovery task failed after dispatch: ".to_owned();
        message.push_str(error);
        RecoveryFailure::after_write("internal", "dispatch", message.as_str(), details)
    } else {
        let mut message: String = "minimized-window recovery task failed: ".to_owned();
        message.push_str(error);
        RecoveryFailure::preflight("internal", message.as_str(), details)
    }
}

/// The failure of the task that reads the initial facts.
pub fn preflight_task_failure(pid: i32, window_id: u32, error: &str) -> (failure: RecoveryFailure)
    ensures
        failure@ == FailureView::preflight(
            "internal"@,
            "minimized-window AX preflight task failed: "@ + error@,
            target_map(pid, window_id),
        ),
{
    let mut message: String = "minimized-window AX preflight task failed: ".to_owned();
    message.push_str(error);
    RecoveryFailure::preflight("internal", message.as_str(), target_fields(pid, window_id))
}

/// Whether the target may have come to the front because of the recovery.
pub open spec fn left_background(evidence: RecoveryEvidence) -> bool {
    evidence.target_activation_observed || (evidence.frontmost_pid_before != Some(evidence.pid)
        && evidence.frontmost_pid_after == Some(evidence.pid))
}

/// The outcome of a recovery that was carried out: its own failure, nothing
/// where nothing was written, evidence where the target stayed in the
/// background, and a failure otherwise.
pub fn restore_if_minimized(
    evidence: RecoveryEvidence,
    recovery: Result<bool, RecoveryFailure>,
) -> (outcome: Result<Option<RecoveryEvidence>, RecoveryFailure>)
    ensures
        match recovery {
            Err(failure) => outcome == Err::<Option<RecoveryEvidence>, RecoveryFailure>(failure),
            Ok(false) => outcome == Ok::<Option<RecoveryEvidence>, RecoveryFailure>(None),
            Ok(true) => if left_background(evidence) {
                outcome matches Err(failure) && failure@ == FailureView::after_write(
                    "verification_failed"@,
                    "verify"@,
                    "foreground evidence could not prove that minimized-window recovery stayed in the background"@,
                    evidence.decorated(target_map(evidence.pid, evidence.window_id)),
                )
            } else {
                outcome == Ok::<Option<RecoveryEvidence>, RecoveryFailure>(Some(evidence))
            },
        },
{
    let wrote: bool = match recovery {
        Ok(wrote) => wrote,
        Err(failure) => return Err(failure),
    };
    if !wrote {
        return Ok(None);
    }
    if evidence.target_activation_observed || (evidence.frontmost_pid_before != Some(evidence.pid)
        && evidence.frontmost_pid_after == Some(evidence.pid)) {
        let details: Fields = evidence.decorate_error(
            target_fields(evidence.pid, evidence.window_id),
        );
        return Err(
            RecoveryFailure::after_write(
                "verification_failed",
                "verify",
                "foreground evidence could not prove that minimized-window recovery stayed in the background",
                details,
            ),
        );
    }
    Ok(Some(evidence))
}

/// A failure says that it may be retried exactly where it says that nothing
/// was written, whichever step of a recovery reports it.
pub proof fn a_failure_is_retryable_unless_the_write_started(
    run: RecoveryRunView,
    event: RecoveryEvent,
)
    requires
        run.wf(),
    ensures
        run.after(event).wf(),
        run.after(event).result matches Some(Err(failure)) ==> {
            &&& failure.retryable == !run.after(event).write_started
            &&& failure.effect_may_have_occurred == run.after(event).write_started
        },
        run.write_started ==> run.after(event).write_started,
{
}

/// A write starts only from a window that is minimized on the current Space of
/// a visible application, and never a second time.
pub proof fn a_recovery_writes_once(run: RecoveryRunView, event: RecoveryEvent)
    requires
        run.wf(),
        run.after(event).stage is Write,
        !(run.stage is Write),
    ensures
        !run.write_started,
        event matches RecoveryEvent::Read { server, hidden, candidate } && {
            &&& server is Some && server->0.on_current_space == Some(true)
            &&& hidden == Some(false)
            &&& candidate is Some && candidate->0.minimized == Some(true) && candidate->0.settable
        },
{
}

} // verus!
