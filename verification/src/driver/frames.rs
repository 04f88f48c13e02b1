//! Freshness of captured frames: pixels that did not change prove nothing
//! unless the sample they came with was completed anew.
use std::collections::HashMap;
use vstd::prelude::*;

use crate::errors;
use crate::errors::{ErrorCode, NativeError};
use crate::evidence;
use crate::evidence::Detail;
use crate::text;
use crate::text::push_signed_decimal;

verus! {

/// The status that ScreenCaptureKit attaches to a frame.
#[derive(Debug, Clone, Copy, PartialEq, Eq, Structural)]
pub enum FrameStatus {
    Complete,
    Idle,
    Blank,
    Suspended,
    Started,
    Stopped,
    Unknown(i32),
}

impl FrameStatus {
    pub open spec fn content(self) -> bool {
        self is Complete || self is Started
    }

    /// Whether the frame holds new content.
    pub fn has_content(self) -> (content: bool)
        ensures
            content == self.content(),
    {
        match self {
            FrameStatus::Complete | FrameStatus::Started => true,
            _ => false,
        }
    }

    pub open spec fn text(self) -> Seq<char> {
        match self {
            FrameStatus::Complete => "Complete"@,
            FrameStatus::Idle => "Idle"@,
            FrameStatus::Blank => "Blank"@,
            FrameStatus::Suspended => "Suspended"@,
            FrameStatus::Started => "Started"@,
            FrameStatus::Stopped => "Stopped"@,
            FrameStatus::Unknown(raw) => "Unknown("@ + text::signed_decimal(raw as int) + ")"@,
        }
    }

    pub fn name(self) -> (name: String)
        ensures
            name@ == self.text(),
    {
        match self {
            FrameStatus::Complete => "Complete".to_owned(),
            FrameStatus::Idle => "Idle".to_owned(),
            FrameStatus::Blank => "Blank".to_owned(),
            FrameStatus::Suspended => "Suspended".to_owned(),
            FrameStatus::Started => "Started".to_owned(),
            FrameStatus::Stopped => "Stopped".to_owned(),
            FrameStatus::Unknown(raw) => {
                let mut name: String = "Unknown(".to_owned();
                push_signed_decimal(&mut name, raw as i64);
                name.push_str(")");
                name
            },
        }
    }
}

/// What is known of a frame's backing scale.
#[derive(Debug, Clone, Copy, PartialEq, Eq, Structural)]
pub struct ScaleFacts {
    /// Finite and above zero.
    pub positive: bool,
    /// Finite and as the window's display has it, within the tolerance.
    pub as_expected: bool,
}

/// What is known of a frame's content rectangle.
#[derive(Debug, Clone, Copy, PartialEq, Eq, Structural)]
pub struct ContentFacts {
    /// The origin is finite.
    pub placed: bool,
    /// Width and height are finite and above zero.
    pub sized: bool,
}

/// How a frame was taken.
#[derive(Debug, Clone, Copy, PartialEq, Eq, Structural)]
pub enum WindowFrameEvidence {
    StreamAttachments,
    ScreenshotCompletion,
    WindowServerFallback,
}

impl WindowFrameEvidence {
    /// A single screenshot, which carries no stream attachments.
    pub open spec fn screenshot(self) -> bool {
        self is ScreenshotCompletion || self is WindowServerFallback
    }
}

/// What came with a frame.
#[derive(Debug, Clone, Copy, PartialEq, Eq, Structural)]
pub struct WindowFrameMetadata {
    pub completion_unix_ms: u64,
    pub display_time: Option<u64>,
    pub frame_status: Option<FrameStatus>,
    pub scale_factor: Option<ScaleFacts>,
    /// Whether the content scale is finite and above zero.
    pub content_scale: Option<bool>,
    pub content_rect: Option<ContentFacts>,
}

#[derive(Debug)]
pub struct WindowFrameSample {
    pub png_bytes: Vec<u8>,
    pub evidence: WindowFrameEvidence,
    pub metadata: WindowFrameMetadata,
}

#[derive(Debug, Clone, Copy, PartialEq, Eq, Structural)]
pub enum CaptureFreshness {
    Fresh,
    FreshSnapshot,
    ReusedWithFreshCompletion,
    Frozen,
    Unavailable,
}

impl CaptureFreshness {
    pub open spec fn safe(self) -> bool {
        self is Fresh || self is FreshSnapshot || self is ReusedWithFreshCompletion
    }

    /// Whether a frame of this freshness may be acted on.
    pub fn action_safe(self) -> (safe: bool)
        ensures
            safe == self.safe(),
    {
        match self {
            CaptureFreshness::Fresh
            | CaptureFreshness::FreshSnapshot
            | CaptureFreshness::ReusedWithFreshCompletion => true,
            CaptureFreshness::Frozen | CaptureFreshness::Unavailable => false,
        }
    }
}

#[derive(Debug)]
pub struct PreviousFrame {
    pub png: Vec<u8>,
    pub completion_unix_ms: u64,
    pub display_time: u64,
}

/// The last action-safe frame of a window.
pub ghost struct FrameView {
    pub png: Seq<u8>,
    pub completion_unix_ms: u64,
    pub display_time: u64,
}

impl View for PreviousFrame {
    type V = FrameView;

    open spec fn view(&self) -> FrameView {
        FrameView {
            png: self.png@,
            completion_unix_ms: self.completion_unix_ms,
            display_time: self.display_time,
        }
    }
}

/// The last action-safe frame of every window.
#[derive(Debug)]
pub struct MacFrameHistory {
    pub previous: HashMap<u32, PreviousFrame>,
}

impl View for MacFrameHistory {
    type V = Map<u32, FrameView>;

    open spec fn view(&self) -> Map<u32, FrameView> {
        self.previous@.map_values(|frame: PreviousFrame| frame@)
    }
}

impl WindowFrameMetadata {
    /// The attachments that a frame does not have, by name.
    pub open spec fn missing(self) -> Seq<Seq<char>> {
        let empty = Seq::<Seq<char>>::empty();
        (if self.completion_unix_ms == 0 {
            seq!["completion_unix_ms"@]
        } else {
            empty
        }) + (if self.display_time is None {
            seq!["display_time"@]
        } else {
            empty
        }) + (if self.frame_status is None {
            seq!["frame_status"@]
        } else {
            empty
        }) + (if self.scale_factor is None {
            seq!["scale_factor"@]
        } else {
            empty
        }) + (if self.content_scale is None {
            seq!["content_scale"@]
        } else {
            empty
        }) + (if self.content_rect is None {
            seq!["content_rect"@]
        } else {
            empty
        })
    }

    /// The attachments that make no sense, by name.
    pub open spec fn invalid(self) -> Seq<Seq<char>> {
        let empty = Seq::<Seq<char>>::empty();
        (if self.scale_factor matches Some(scale) && !scale.positive {
            seq!["scale_factor"@]
        } else {
            empty
        }) + (if self.content_scale == Some(false) {
            seq!["content_scale"@]
        } else {
            empty
        }) + (if self.content_rect matches Some(rect) && !(rect.placed && rect.sized) {
            seq!["content_rect"@]
        } else {
            empty
        })
    }

    pub open spec fn incoherence(self) -> errors::ErrorView {
        let error = errors::ErrorView::stale(
            ErrorCode::SurfaceStale,
            "same-sample ScreenCaptureKit freshness metadata is missing or incoherent"@,
        ).with("missing_fields"@, evidence::DetailView::Texts(self.missing())).with(
            "invalid_fields"@,
            evidence::DetailView::Texts(self.invalid()),
        );
        match self.frame_status {
            Some(status) => error.with("frame_status"@, evidence::DetailView::Text(status.text())),
            None => error,
        }
    }

    /// Whether every attachment is there.
    pub open spec fn complete(self) -> bool {
        &&& self.frame_status is Some
        &&& self.display_time is Some
        &&& self.scale_factor is Some
        &&& self.content_scale is Some
        &&& self.content_rect is Some
    }

    /// Whether the attachments of a complete frame describe the window.
    pub open spec fn coherent(self) -> bool {
        &&& self.completion_unix_ms != 0
        &&& self.scale_factor->0.as_expected
        &&& self.content_scale == Some(true)
        &&& self.content_rect->0.sized
    }
}

fn note(list: &mut Vec<String>, wanted: bool, name: &str)
    ensures
        text::texts(final(list)@) == text::texts(old(list)@) + if wanted {
            seq![name@]
        } else {
            Seq::empty()
        },
{
    let ghost before = list@;
    if wanted {
        list.push(name.to_owned());
        assert(text::texts(list@) =~= text::texts(before) + seq![name@]);
    } else {
        assert(text::texts(list@) =~= text::texts(before) + Seq::<Seq<char>>::empty());
    }
}

/// The error of a sample without usable freshness metadata.
pub fn missing_frame_metadata(metadata: &WindowFrameMetadata) -> (error: NativeError)
    ensures
        error@ == metadata.incoherence(),
{
    let mut missing: Vec<String> = Vec::new();
    assert(text::texts(missing@) =~= Seq::<Seq<char>>::empty());
    note(&mut missing, metadata.completion_unix_ms == 0, "completion_unix_ms");
    note(&mut missing, metadata.display_time.is_none(), "display_time");
    note(&mut missing, metadata.frame_status.is_none(), "frame_status");
    note(&mut missing, metadata.scale_factor.is_none(), "scale_factor");
    note(&mut missing, metadata.content_scale.is_none(), "content_scale");
    note(&mut missing, metadata.content_rect.is_none(), "content_rect");
    assert(text::texts(missing@) =~= metadata.missing());
    let mut invalid: Vec<String> = Vec::new();
    assert(text::texts(invalid@) =~= Seq::<Seq<char>>::empty());
    let bad_scale: bool = match metadata.scale_factor {
        Some(scale) => !scale.positive,
        None => false,
    };
    let bad_content_scale: bool = match metadata.content_scale {
        Some(positive) => !positive,
        None => false,
    };
    let bad_rect: bool = match metadata.content_rect {
        Some(rect) => !(rect.placed && rect.sized),
        None => false,
    };
    note(&mut invalid, bad_scale, "scale_factor");
    note(&mut invalid, bad_content_scale, "content_scale");
    note(&mut invalid, bad_rect, "content_rect");
    assert(text::texts(invalid@) =~= metadata.invalid());
    let error: NativeError = NativeError::stale(
        ErrorCode::SurfaceStale,
        "same-sample ScreenCaptureKit freshness metadata is missing or incoherent",
    ).with_detail("missing_fields", Detail::Texts(missing)).with_detail(
        "invalid_fields",
        Detail::Texts(invalid),
    );
    match metadata.frame_status {
        Some(status) => error.with_text("frame_status", status.name().as_str()),
        None => error,
    }
}

/// A sample that cannot be classified.
#[derive(Debug)]
pub struct FrameRefusal {
    pub error: NativeError,
    /// The attachments were all there and disagreed: the expected scale belongs
    /// to the evidence.
    pub names_expected_scale: bool,
}

/// Whether a sample came after the last frame of its window.
pub open spec fn follows(
    previous: Option<FrameView>,
    completion_unix_ms: u64,
    display_time: u64,
) -> bool {
    previous matches Some(previous) && completion_unix_ms > previous.completion_unix_ms
        && display_time >= previous.display_time
}

/// How fresh a classifiable sample is, given the window's last frame.
pub open spec fn freshness_of(
    previous: Option<FrameView>,
    png: Seq<u8>,
    evidence: WindowFrameEvidence,
    metadata: WindowFrameMetadata,
) -> CaptureFreshness {
    let completion = metadata.completion_unix_ms;
    if evidence.screenshot() {
        if previous matches Some(previous) && completion <= previous.completion_unix_ms {
            CaptureFreshness::Frozen
        } else {
            CaptureFreshness::FreshSnapshot
        }
    } else {
        let status = metadata.frame_status->0;
        let later = follows(previous, completion, metadata.display_time->0);
        if status.content() {
            if previous is None || later {
                CaptureFreshness::Fresh
            } else {
                CaptureFreshness::Frozen
            }
        } else if status is Idle && previous is Some {
            if later && previous->0.png == png {
                CaptureFreshness::ReusedWithFreshCompletion
            } else {
                CaptureFreshness::Frozen
            }
        } else {
            CaptureFreshness::Unavailable
        }
    }
}

/// What a history keeps of an action-safe sample.
pub open spec fn remembered(
    png: Seq<u8>,
    evidence: WindowFrameEvidence,
    metadata: WindowFrameMetadata,
) -> FrameView {
    FrameView {
        png,
        completion_unix_ms: metadata.completion_unix_ms,
        display_time: if evidence.screenshot() {
            metadata.completion_unix_ms
        } else {
            metadata.display_time->0
        },
    }
}

pub open spec fn lookup(history: Map<u32, FrameView>, window_id: u32) -> Option<FrameView> {
    if history.contains_key(window_id) {
        Some(history[window_id])
    } else {
        None
    }
}

fn same_bytes(left: &Vec<u8>, right: &Vec<u8>) -> (same: bool)
    ensures
        same == (left@ == right@),
{
    if left.len() != right.len() {
        return false;
    }
    let mut index: usize = 0;
    while index < left.len()
        invariant
            index <= left.len(),
            left@.len() == right@.len(),
            forall|i: int| 0 <= i < index ==> #[trigger] left@[i] == right@[i],
        decreases left.len() - index,
    {
        if left[index] != right[index] {
            assert(left@[index as int] != right@[index as int]);
            return false;
        }
        index = index + 1;
    }
    assert(left@ =~= right@);
    true
}

fn clone_bytes(source: &Vec<u8>) -> (copy: Vec<u8>)
    ensures
        copy@ == source@,
{
    let mut copy: Vec<u8> = Vec::new();
    let mut index: usize = 0;
    while index < source.len()
        invariant
            index <= source.len(),
            copy@ == source@.take(index as int),
        decreases source.len() - index,
    {
        copy.push(source[index]);
        index = index + 1;
        assert(copy@ =~= source@.take(index as int));
    }
    assert(source@.take(index as int) =~= source@);
    copy
}

impl MacFrameHistory {
    pub fn new() -> (history: MacFrameHistory)
        ensures
            history@ == Map::<u32, FrameView>::empty(),
    {
        let history: MacFrameHistory = MacFrameHistory { previous: HashMap::new() };
        assert(history@ =~= Map::<u32, FrameView>::empty());
        history
    }

    fn remember(&mut self, window_id: u32, png: &Vec<u8>, completion_unix_ms: u64, display_time: u64)
        ensures
            final(self)@ == old(self)@.insert(
                window_id,
                FrameView { png: png@, completion_unix_ms, display_time },
            ),
    {
        broadcast use vstd::std_specs::hash::group_hash_axioms;

        let frame: PreviousFrame = PreviousFrame {
            png: clone_bytes(png),
            completion_unix_ms,
            display_time,
        };
        self.previous.insert(window_id, frame);
        assert(self@ =~= old(self)@.insert(window_id, frame@));
    }

    /// Classifies a sample of a window and remembers it if it may be acted on.
    pub fn classify_and_commit(&mut self, window_id: u32, sample: &WindowFrameSample) -> (outcome:
        Result<CaptureFreshness, FrameRefusal>)
        ensures
            ({
                let previous = lookup(old(self)@, window_id);
                let metadata = sample.metadata;
                let freshness = freshness_of(
                    previous,
                    sample.png_bytes@,
                    sample.evidence,
                    metadata,
                );
                if sample.evidence.screenshot() && metadata.completion_unix_ms == 0 {
                    &&& final(self)@ == old(self)@
                    &&& outcome matches Err(refusal)
                    &&& refusal.error@ == errors::ErrorView::stale(
                        ErrorCode::SurfaceStale,
                        "ScreenCaptureKit screenshot has no completion timestamp"@,
                    )
                    &&& !refusal.names_expected_scale
                } else if !sample.evidence.screenshot() && !(metadata.complete()
                    && metadata.coherent()) {
                    &&& final(self)@ == old(self)@
                    &&& outcome matches Err(refusal)
                    &&& refusal.error@ == metadata.incoherence()
                    &&& refusal.names_expected_scale == metadata.complete()
                } else {
                    &&& outcome matches Ok(found)
                    &&& found == freshness
                    &&& final(self)@ == if freshness.safe() {
                        old(self)@.insert(
                            window_id,
                            remembered(sample.png_bytes@, sample.evidence, metadata),
                        )
                    } else {
                        old(self)@
                    }
                }
            }),
    {
        broadcast use vstd::std_specs::hash::group_hash_axioms;

        let metadata: &WindowFrameMetadata = &sample.metadata;
        let completion: u64 = metadata.completion_unix_ms;
        let screenshot: bool = match sample.evidence {
            WindowFrameEvidence::StreamAttachments => false,
            WindowFrameEvidence::ScreenshotCompletion
            | WindowFrameEvidence::WindowServerFallback => true,
        };
        if screenshot {
            if completion == 0 {
                return Err(
                    FrameRefusal {
                        error: NativeError::stale(
                            ErrorCode::SurfaceStale,
                            "ScreenCaptureKit screenshot has no completion timestamp",
                        ),
                        names_expected_scale: false,
                    },
                );
            }
            let frozen: bool = match self.previous.get(&window_id) {
                Some(previous) => completion <= previous.completion_unix_ms,
                None => false,
            };
            if frozen {
                return Ok(CaptureFreshness::Frozen);
            }
            self.remember(window_id, &sample.png_bytes, completion, completion);
            return Ok(CaptureFreshness::FreshSnapshot);
        }
        let (status, display_time, scale, content_scale, content_rect): (
            FrameStatus,
            u64,
            ScaleFacts,
            bool,
            ContentFacts,
        ) = match (
            metadata.frame_status,
            metadata.display_time,
            metadata.scale_factor,
            metadata.content_scale,
            metadata.content_rect,
        ) {
            (Some(status), Some(time), Some(scale), Some(content), Some(rect)) => (
                status,
                time,
                scale,
                content,
                rect,
            ),
            _ => {
                return Err(
                    FrameRefusal {
                        error: missing_frame_metadata(metadata),
                        names_expected_scale: false,
                    },
                );
            },
        };
        if completion == 0 || !scale.as_expected || !content_scale || !content_rect.sized {
            return Err(
                FrameRefusal { error: missing_frame_metadata(metadata), names_expected_scale: true },
            );
        }
        let freshness: CaptureFreshness = if status.has_content() {
            match self.previous.get(&window_id) {
                Some(previous) => if completion > previous.completion_unix_ms && display_time
                    >= previous.display_time {
                    CaptureFreshness::Fresh
                } else {
                    CaptureFreshness::Frozen
                },
                None => CaptureFreshness::Fresh,
            }
        } else {
            match status {
                FrameStatus::Idle => match self.previous.get(&window_id) {
                    Some(previous) => if same_bytes(&previous.png, &sample.png_bytes) && completion
                        > previous.completion_unix_ms && display_time >= previous.display_time {
                        CaptureFreshness::ReusedWithFreshCompletion
                    } else {
                        CaptureFreshness::Frozen
                    },
                    None => CaptureFreshness::Unavailable,
                },
                _ => CaptureFreshness::Unavailable,
            }
        };
        if freshness.action_safe() {
            self.remember(window_id, &sample.png_bytes, completion, display_time);
        }
        Ok(freshness)
    }
}

/// A frame that may be acted on was completed after every earlier one of its
/// window: pixels that stand still are fresh only by a new completion.
pub proof fn safe_frames_were_completed_anew(
    previous: FrameView,
    png: Seq<u8>,
    evidence: WindowFrameEvidence,
    metadata: WindowFrameMetadata,
)
    ensures
        freshness_of(Some(previous), png, evidence, metadata).safe()
            ==> metadata.completion_unix_ms > previous.completion_unix_ms,
        freshness_of(Some(previous), png, evidence, metadata) is ReusedWithFreshCompletion ==> png
            == previous.png,
{
}

/// The same sample is never action-safe twice in a row.
pub proof fn a_sample_is_safe_once(
    png: Seq<u8>,
    evidence: WindowFrameEvidence,
    metadata: WindowFrameMetadata,
)
    ensures
        !freshness_of(
            Some(remembered(png, evidence, metadata)),
            png,
            evidence,
            metadata,
        ).safe(),
{
}

} // verus!
