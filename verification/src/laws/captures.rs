//! Which captured frames may be acted on.
use vstd::prelude::*;

use crate::driver::frames;
use crate::driver::frames::{
    CaptureFreshness, FrameRefusal, FrameStatus, MacFrameHistory, WindowFrameSample,
};
use crate::driver::observation;
use crate::errors::ErrorCode;

verus! {

/// Fresh frames may be acted on, frozen and unavailable ones may not.
pub proof fn only_fresh_frames_are_acted_on(freshness: CaptureFreshness, safe: bool)
    requires
        call_ensures(CaptureFreshness::action_safe, (freshness,), safe),
    ensures
        safe <==> freshness != CaptureFreshness::Frozen && freshness
            != CaptureFreshness::Unavailable,
{
}

/// A frame holds content where it is complete or the stream has just started.
pub proof fn complete_and_first_frames_hold_content(status: FrameStatus, content: bool)
    requires
        call_ensures(FrameStatus::has_content, (status,), content),
    ensures
        content <==> status is Complete || status is Started,
{
}

/// A screenshot is new where it was completed after the last frame that is known of
/// its window, and frozen where it was not.
pub proof fn a_screenshot_is_new_where_it_was_completed_later(
    history: &mut MacFrameHistory,
    window: u32,
    sample: &WindowFrameSample,
    outcome: Result<CaptureFreshness, FrameRefusal>,
)
    requires
        call_ensures(MacFrameHistory::classify_and_commit, (history, window, sample), outcome),
        sample.evidence is ScreenshotCompletion || sample.evidence is WindowServerFallback,
    ensures
        outcome is Ok <==> sample.metadata.completion_unix_ms != 0,
        outcome is Ok ==> (outcome->Ok_0 is FreshSnapshot <==> !old(history)@.contains_key(window)
            || sample.metadata.completion_unix_ms > old(history)@[window].completion_unix_ms),
        outcome is Ok ==> (outcome->Ok_0 is Frozen <==> !(outcome->Ok_0 is FreshSnapshot)),
        outcome is Ok && outcome->Ok_0 is FreshSnapshot ==> final(history)@.contains_key(window)
            && final(history)@[window].completion_unix_ms == sample.metadata.completion_unix_ms
            && final(history)@[window].png == sample.png_bytes@,
        !(outcome is Ok && outcome->Ok_0 is FreshSnapshot) ==> final(history)@ == old(history)@,
{
}

/// A frame of a stream is judged only with all of its metadata. One with content is
/// fresh unless it is older than the last; an idle one is the last frame again where
/// it was completed anew and holds the same picture.
pub proof fn a_streamed_frame_is_judged_by_the_last(
    history: &mut MacFrameHistory,
    window: u32,
    sample: &WindowFrameSample,
    outcome: Result<CaptureFreshness, FrameRefusal>,
)
    requires
        call_ensures(MacFrameHistory::classify_and_commit, (history, window, sample), outcome),
        sample.evidence is StreamAttachments,
    ensures
        outcome is Ok ==> sample.metadata.completion_unix_ms != 0 && sample.metadata.display_time
            is Some && sample.metadata.frame_status is Some && sample.metadata.scale_factor is Some
            && sample.metadata.content_scale == Some(true) && sample.metadata.content_rect is Some,
        outcome is Err ==> outcome->Err_0.error.code == ErrorCode::SurfaceStale
            && outcome->Err_0.error.retryable && final(history)@ == old(history)@,
        outcome is Ok && outcome->Ok_0 is Fresh ==> (sample.metadata.frame_status->0 is Complete
            || sample.metadata.frame_status->0 is Started),
        outcome is Ok && !old(history)@.contains_key(window) && (
        sample.metadata.frame_status->0 is Complete || sample.metadata.frame_status->0 is Started)
            ==> outcome->Ok_0 is Fresh,
        outcome is Ok && outcome->Ok_0.safe() && old(history)@.contains_key(window)
            ==> sample.metadata.completion_unix_ms > old(history)@[window].completion_unix_ms
            && sample.metadata.display_time->0 >= old(history)@[window].display_time,
        outcome is Ok && outcome->Ok_0 is ReusedWithFreshCompletion
            ==> sample.metadata.frame_status->0 is Idle && old(history)@.contains_key(window)
            && old(history)@[window].png == sample.png_bytes@,
        outcome is Ok && (sample.metadata.frame_status->0 is Blank
            || sample.metadata.frame_status->0 is Suspended
            || sample.metadata.frame_status->0 is Stopped) ==> outcome->Ok_0 is Unavailable,
        outcome is Ok && !outcome->Ok_0.safe() ==> final(history)@ == old(history)@,
        outcome is Ok && outcome->Ok_0.safe() ==> final(history)@.contains_key(window)
            && final(history)@[window].png == sample.png_bytes@
            && final(history)@[window].completion_unix_ms
            == sample.metadata.completion_unix_ms && final(history)@[window].display_time
            == sample.metadata.display_time->0,
{
}

/// The frames of other windows stay what they were.
pub proof fn frames_of_other_windows_stay(
    history: &mut MacFrameHistory,
    window: u32,
    other: u32,
    sample: &WindowFrameSample,
    outcome: Result<CaptureFreshness, FrameRefusal>,
)
    requires
        call_ensures(MacFrameHistory::classify_and_commit, (history, window, sample), outcome),
        other != window,
    ensures
        final(history)@.contains_key(other) <==> old(history)@.contains_key(other),
        old(history)@.contains_key(other) ==> final(history)@[other] == old(history)@[other],
{
}

/// A capture is published only where it may be acted on, with the later of the two
/// times; otherwise nothing is remembered.
pub proof fn only_safe_captures_are_published(
    history: &mut MacFrameHistory,
    window: u32,
    sample: &WindowFrameSample,
    captured_at: u64,
    outcome: Result<(CaptureFreshness, u64), FrameRefusal>,
)
    requires
        call_ensures(
            observation::publish_capture,
            (history, window, sample, captured_at),
            outcome,
        ),
    ensures
        outcome matches Ok((freshness, at)) ==> {
            &&& freshness != CaptureFreshness::Frozen && freshness != CaptureFreshness::Unavailable
            &&& at >= captured_at && at >= sample.metadata.completion_unix_ms
            &&& at == captured_at || at == sample.metadata.completion_unix_ms
            &&& final(history)@.contains_key(window)
            &&& final(history)@[window].png == sample.png_bytes@
        },
        outcome is Err ==> final(history)@ == old(history)@ && outcome->Err_0.error.code
            == ErrorCode::SurfaceStale && outcome->Err_0.error.retryable,
{
}

} // verus!
