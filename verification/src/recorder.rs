//! The capture controller: a per-session state machine that decides, frame
//! by frame, whether a GPU readback is needed and where the resulting bytes
//! go (to the encoding worker, to a still image, or both).
//!
//! The controller itself never touches the GPU, a thread or a subprocess.
//! The caller performs the readback and hands the mapped bytes to
//! [`Recorder::end_frame`]; it receives back the frame payload that must be
//! queued for the encoder and the encoded still image that must be written
//! to disk, and it owns the encoder worker whose lifetime must follow the
//! `recording` flag (the worker exists if and only if the flag is set).

use vstd::prelude::*;
use vstd::slice::slice_to_vec;

use crate::still::encode_screenshot;
use crate::still::png_bgra;
use crate::still::png_bgra_ok;

verus! {

/// The failures a capture session can report to its caller.  None of them
/// aborts the host render loop.
#[derive(Clone, Copy, Debug, PartialEq, Eq, Structural)]
pub enum RecorderError {
    /// Construction was asked for a zero-area or oversized frame.
    InvalidSize,
    /// `begin_record` was called while a recording was already active.
    AlreadyRecording,
    /// `end_record` was called while no recording was active.
    NotRecording,
    /// The still-image encoder rejected the frame.
    ScreenshotEncode,
}

/// What a frame call did about the pending screenshot request.
#[derive(Debug)]
pub enum ScreenshotOutcome {
    /// No screenshot was pending when the frame was processed.
    NotRequested,
    /// A screenshot was pending; these are the encoded image bytes to write.
    Encoded(Vec<u8>),
    /// A screenshot was pending but the image encoder rejected the frame.
    Failed(RecorderError),
}

/// Everything one frame call asks the caller to do: the payload to enqueue
/// for the encoding worker (exactly when a recording is active) and the
/// outcome of the pending screenshot request, if there was one.
#[derive(Debug)]
pub struct FrameOutput {
    /// One frame of raw pixel bytes, owned, to send to the encoding worker.
    pub payload: Option<Vec<u8>>,
    /// The serviced screenshot request.
    pub screenshot: ScreenshotOutcome,
}

/// The mathematical state of a capture session: the fixed session
/// parameters, the two dispatch flags, and the sequence of frame payloads
/// handed to the encoding worker since the recording began.
#[verifier::ext_equal]
pub struct RecorderView {
    pub width: nat,
    pub height: nat,
    pub framerate: nat,
    pub recording: bool,
    pub wants_screenshot: bool,
    pub sent: Seq<Seq<u8>>,
}

impl RecorderView {
    /// Size in bytes of one frame: four bytes per pixel, row-major,
    /// no row padding.
    pub open spec fn frame_len(self) -> nat {
        4 * self.width * self.height
    }

    /// A session is well formed when its frame has a positive area that
    /// fits the still-image encoder's pixel-count limit and host memory,
    /// and every payload handed out so far was exactly one frame long.
    pub open spec fn wf(self) -> bool {
        &&& 0 < self.width
        &&& 0 < self.height
        &&& self.width * self.height <= u32::MAX
        &&& self.frame_len() <= usize::MAX
        &&& forall|i: int|
            0 <= i < self.sent.len() ==> (#[trigger] self.sent[i]).len() == self.frame_len()
    }

    /// A screenshot request: sets the pending flag and nothing else.
    pub open spec fn request_screenshot(self) -> RecorderView {
        RecorderView { wants_screenshot: true, ..self }
    }

    /// Starting a recording: raises the flag and opens an empty session.
    pub open spec fn begin(self) -> RecorderView {
        RecorderView { recording: true, sent: Seq::empty(), ..self }
    }

    /// Ending a recording: lowers the flag; the payloads already handed
    /// out are untouched (they are drained, never dropped).
    pub open spec fn end(self) -> RecorderView {
        RecorderView { recording: false, ..self }
    }

    /// One frame call: appends the frame to the session exactly when a
    /// recording is active, and consumes any pending screenshot request.
    pub open spec fn frame(self, data: Seq<u8>) -> RecorderView {
        RecorderView {
            wants_screenshot: false,
            sent: if self.recording {
                self.sent.push(data)
            } else {
                self.sent
            },
            ..self
        }
    }
}

/// The capture controller.  Construction fixes the frame dimensions and
/// the target framerate for the controller's whole lifetime.
pub struct Recorder {
    width: u32,
    height: u32,
    framerate: u32,
    recording: bool,
    wants_screenshot: bool,
    sent: Ghost<Seq<Seq<u8>>>,
}

impl View for Recorder {
    type V = RecorderView;

    closed spec fn view(&self) -> RecorderView {
        RecorderView {
            width: self.width as nat,
            height: self.height as nat,
            framerate: self.framerate as nat,
            recording: self.recording,
            wants_screenshot: self.wants_screenshot,
            sent: self.sent@,
        }
    }
}

impl Recorder {
    /// Opens a controller for frames of `width` by `height` pixels at the
    /// given target framerate.  Rejects a zero-area frame, one of more
    /// pixels than the still-image encoder can count, and one whose byte
    /// size would not fit in host memory, before any buffer for it could
    /// be allocated.
    pub fn new(width: u32, height: u32, framerate: u32) -> (r: Result<Recorder, RecorderError>)
        ensures
            r is Ok <==> 0 < width && 0 < height && width * height <= u32::MAX && 4 * width
                * height <= usize::MAX,
            r matches Ok(rec) ==> rec@ == (RecorderView {
                width: width as nat,
                height: height as nat,
                framerate: framerate as nat,
                recording: false,
                wants_screenshot: false,
                sent: Seq::empty(),
            }),
            r matches Ok(rec) ==> rec@.wf(),
            r matches Err(e) ==> e == RecorderError::InvalidSize,
    {
        if width == 0 || height == 0 {
            return Err(RecorderError::InvalidSize);
        }
        proof {
            assert((width as nat) * (height as nat) <= u64::MAX) by (nonlinear_arith)
                requires
                    width <= u32::MAX,
                    height <= u32::MAX,
            ;
        }
        let area: u64 = (width as u64) * (height as u64);
        if area > (u32::MAX as u64) {
            return Err(RecorderError::InvalidSize);
        }
        if area > (usize::MAX as u64) / 4 {
            proof {
                assert(4 * (width as nat) * (height as nat) > usize::MAX) by (nonlinear_arith)
                    requires
                        area == (width as nat) * (height as nat),
                        area > (usize::MAX as u64) / 4,
                ;
            }
            return Err(RecorderError::InvalidSize);
        }
        proof {
            assert(4 * (width as nat) * (height as nat) <= usize::MAX) by (nonlinear_arith)
                requires
                    area == (width as nat) * (height as nat),
                    area <= (usize::MAX as u64) / 4,
            ;
        }
        Ok(Recorder {
            width,
            height,
            framerate,
            recording: false,
            wants_screenshot: false,
            sent: Ghost(Seq::empty()),
        })
    }

    /// The framerate the session was configured with.
    pub fn recording_framerate(&self) -> (r: u32)
        ensures
            r == self@.framerate,
    {
        self.framerate
    }

    /// Whether a recording is currently active.
    pub fn is_recording(&self) -> (r: bool)
        ensures
            r == self@.recording,
    {
        self.recording
    }

    /// Requests a one-shot screenshot of the next processed frame.
    /// Idempotent: requesting twice before a frame is processed is the
    /// same as requesting once, and it never disturbs a recording.
    pub fn screenshot(&mut self)
        ensures
            final(self)@ == old(self)@.request_screenshot(),
    {
        self.wants_screenshot = true;
    }

    /// Starts a recording session.  Fails, leaving the controller exactly
    /// as it was, when a recording is already active; otherwise the caller
    /// must now spawn the encoding worker for this session.
    pub fn begin_record(&mut self) -> (r: Result<(), RecorderError>)
        ensures
            old(self)@.recording ==> (r matches Err(e) && e == RecorderError::AlreadyRecording
                && final(self)@ == old(self)@),
            !old(self)@.recording ==> r is Ok && final(self)@ == old(self)@.begin(),
    {
        if self.recording {
            return Err(RecorderError::AlreadyRecording);
        }
        self.recording = true;
        proof {
            self.sent@ = Seq::empty();
        }
        Ok(())
    }

    /// Ends the recording session.  Fails, leaving the controller exactly
    /// as it was, when no recording is active; otherwise the caller must
    /// now close the worker's queue, let it drain every payload already
    /// sent, and join it.
    pub fn end_record(&mut self) -> (r: Result<(), RecorderError>)
        ensures
            !old(self)@.recording ==> (r matches Err(e) && e == RecorderError::NotRecording
                && final(self)@ == old(self)@),
            old(self)@.recording ==> r is Ok && final(self)@ == old(self)@.end(),
    {
        if !self.recording {
            return Err(RecorderError::NotRecording);
        }
        self.recording = false;
        Ok(())
    }

    /// Whether the next frame must be read back from the GPU at all: only
    /// when a recording is active or a screenshot is pending.  The caller
    /// skips the copy and the blocking wait entirely otherwise.
    pub fn needs_frame(&self) -> (r: bool)
        ensures
            r == (self@.recording || self@.wants_screenshot),
    {
        self.recording || self.wants_screenshot
    }

    /// Processes one read-back frame.  `data` is the mapped staging-buffer
    /// view for exactly one frame; the one readback is shared by both
    /// consumers.  When a recording is active, the returned payload is an
    /// owned copy of `data`, and the session records it as sent; when a
    /// screenshot is pending, the request is consumed and the returned
    /// outcome carries the encoded image exactly when the encoder accepts
    /// the frame, and the encoder's failure otherwise.  The recording
    /// itself is never disturbed by a screenshot failure.
    pub fn end_frame(&mut self, data: &[u8]) -> (r: FrameOutput)
        requires
            old(self)@.wf(),
            data@.len() == old(self)@.frame_len(),
        ensures
            final(self)@ == old(self)@.frame(data@),
            final(self)@.wf(),
            r.payload matches Some(p) ==> p@ == data@,
            r.payload is Some <==> old(self)@.recording,
            r.screenshot is NotRequested <==> !old(self)@.wants_screenshot,
            old(self)@.wants_screenshot ==> ((r.screenshot is Encoded) <==> png_bgra_ok(
                old(self)@.width,
                old(self)@.height,
                data@,
            )),
            r.screenshot matches ScreenshotOutcome::Encoded(png) ==> png@ == png_bgra(
                old(self)@.width,
                old(self)@.height,
                data@,
            ),
            r.screenshot matches ScreenshotOutcome::Failed(e) ==> e
                == RecorderError::ScreenshotEncode,
    {
        let payload: Option<Vec<u8>> = if self.recording {
            let v = slice_to_vec(data);
            proof {
                self.sent@ = self.sent@.push(data@);
            }
            Some(v)
        } else {
            None
        };
        let shot: ScreenshotOutcome = if self.wants_screenshot {
            match encode_screenshot(data, self.width as usize, self.height as usize) {
                Ok(png) => ScreenshotOutcome::Encoded(png),
                Err(e) => ScreenshotOutcome::Failed(e),
            }
        } else {
            ScreenshotOutcome::NotRequested
        };
        self.wants_screenshot = false;
        proof {
            assert forall|i: int| 0 <= i < self@.sent.len() implies (#[trigger] self@.sent[i]).len()
                == self@.frame_len() by {
                if i < old(self)@.sent.len() {
                    assert(old(self)@.sent[i].len() == old(self)@.frame_len());
                }
            }
        }
        FrameOutput { payload, screenshot: shot }
    }
}

} // verus!
