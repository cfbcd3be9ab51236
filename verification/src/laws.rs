//! Session-level laws: what a whole run of frame calls does to a capture
//! session, proved over the view transitions that the controller's methods
//! are specified by.

use vstd::prelude::*;

use crate::recorder::RecorderView;

verus! {

/// The session state after processing the frames of `frames`, one frame
/// call each, in order.
pub open spec fn run_frames(s: RecorderView, frames: Seq<Seq<u8>>) -> RecorderView
    decreases frames.len(),
{
    if frames.len() == 0 {
        s
    } else {
        run_frames(s.frame(frames[0]), frames.drop_first())
    }
}

/// How many pending screenshot requests a run of frame calls consumes: one
/// per call that finds the pending flag set.
pub open spec fn run_screenshots(s: RecorderView, frames: Seq<Seq<u8>>) -> nat
    decreases frames.len(),
{
    if frames.len() == 0 {
        0
    } else {
        (if s.wants_screenshot {
            1nat
        } else {
            0nat
        }) + run_screenshots(s.frame(frames[0]), frames.drop_first())
    }
}

/// While a recording is active, a run of frame calls hands the encoding
/// worker exactly the processed frames, appended in call order: no frame is
/// dropped, duplicated or reordered, and the recording stays active.
pub proof fn lemma_recording_frames_in_order(s: RecorderView, frames: Seq<Seq<u8>>)
    requires
        s.recording,
    ensures
        run_frames(s, frames).recording,
        run_frames(s, frames).sent == s.sent + frames,
    decreases frames.len(),
{
    if frames.len() == 0 {
        assert(s.sent + frames =~= s.sent);
    } else {
        lemma_recording_frames_in_order(s.frame(frames[0]), frames.drop_first());
        assert(s.sent.push(frames[0]) + frames.drop_first() =~= s.sent + frames);
    }
}

/// While a recording is active, a run of frame calls whose every frame is
/// exactly one frame long keeps the session well formed.
pub proof fn lemma_recording_run_wf(s: RecorderView, frames: Seq<Seq<u8>>)
    requires
        s.recording,
        s.wf(),
        forall|i: int| 0 <= i < frames.len() ==> (#[trigger] frames[i]).len() == s.frame_len(),
    ensures
        run_frames(s, frames).wf(),
    decreases frames.len(),
{
    if frames.len() > 0 {
        assert(forall|i: int|
            0 <= i < frames.drop_first().len() ==> (#[trigger] frames.drop_first()[i]).len()
                == s.frame_len());
        lemma_recording_run_wf(s.frame(frames[0]), frames.drop_first());
    }
}

/// With no screenshot pending, a run of frame calls takes no screenshot at
/// all and leaves none pending: only a request raises the flag.
pub proof fn lemma_no_request_no_screenshot(s: RecorderView, frames: Seq<Seq<u8>>)
    requires
        !s.wants_screenshot,
    ensures
        run_screenshots(s, frames) == 0,
        !run_frames(s, frames).wants_screenshot,
    decreases frames.len(),
{
    if frames.len() > 0 {
        lemma_no_request_no_screenshot(s.frame(frames[0]), frames.drop_first());
    }
}

/// Screenshot requests coalesce: however many requests are made before the
/// next frame call, a non-empty run of frame calls takes exactly one
/// screenshot, the first call clears the pending flag, and no later call
/// takes another.  This holds whether or not a recording is active.
pub proof fn lemma_screenshot_taken_once(s: RecorderView, frames: Seq<Seq<u8>>)
    requires
        frames.len() > 0,
    ensures
        run_screenshots(s.request_screenshot(), frames) == 1,
        !run_frames(s.request_screenshot(), frames).wants_screenshot,
{
    let s1 = s.request_screenshot().frame(frames[0]);
    lemma_no_request_no_screenshot(s1, frames.drop_first());
}

/// Requesting a screenshot is idempotent: a second request before the next
/// frame call changes nothing.
pub proof fn lemma_screenshot_request_idempotent(s: RecorderView)
    ensures
        s.request_screenshot().request_screenshot() == s.request_screenshot(),
{
}

/// Ending a recording keeps every payload already handed to the worker:
/// the drain closes the session without dropping a frame.
pub proof fn lemma_end_keeps_sent(s: RecorderView)
    ensures
        s.end().sent == s.sent,
        !s.end().recording,
{
}

} // verus!
