//! The encode loop's per-frame decisions and the picture-loss feedback that
//! forces keyframes.

use vstd::prelude::*;
use crate::codec::{Error, Vp8Config, is_even};
use crate::encoder::{is_pipeline_config, reconfigure_encoder};
use crate::stream::StreamFormat;

verus! {

/// Set when the remote peer reports a lost picture; read and cleared when the
/// next frame is encoded, so a burst of reports yields one forced keyframe.
#[derive(Clone, Copy, Debug)]
pub struct PictureLossFlag {
    raised: bool,
}

impl PictureLossFlag {
    pub closed spec fn is_raised(&self) -> bool {
        self.raised
    }

    pub fn new() -> (r: PictureLossFlag)
        ensures
            !r.is_raised(),
    {
        PictureLossFlag { raised: false }
    }

    /// Raises the flag; returns whether it was already raised.
    pub fn raise(&mut self) -> (was_raised: bool)
        ensures
            was_raised == old(self).is_raised(),
            final(self).is_raised(),
    {
        let was = self.raised;
        self.raised = true;
        was
    }

    /// Reads and clears the flag.
    pub fn take(&mut self) -> (r: bool)
        ensures
            r == old(self).is_raised(),
            !final(self).is_raised(),
    {
        let r = self.raised;
        self.raised = false;
        r
    }

    pub fn get(&self) -> (r: bool)
        ensures
            r == self.is_raised(),
    {
        self.raised
    }
}

/// What to do with one captured frame.
#[derive(Clone, Copy, Debug)]
pub struct FramePlan {
    /// `Some(c)`: drop the current encoder and build one from `c` first.
    pub reconfigure: Option<Vp8Config>,
    /// Presentation timestamp in milliseconds since the encoder was built.
    pub pts: i64,
    pub force_keyframe: bool,
}

/// Milliseconds from `start` to `now`, zero if `now` is earlier, capped to `i64`.
pub open spec fn elapsed_ms(start: u64, now: u64) -> i64 {
    if now <= start {
        0
    } else if now - start > i64::MAX {
        i64::MAX
    } else {
        (now - start) as i64
    }
}

/// The timestamp of a frame at `now` for an encoder built at `start` whose
/// last frame had `last`: never below `last`.
pub open spec fn next_pts(start: u64, last: i64, now: u64) -> i64 {
    if elapsed_ms(start, now) < last {
        last
    } else {
        elapsed_ms(start, now)
    }
}

/// State of the encode loop: the current encoder's configuration, when it was
/// built and the last timestamp it was given.
#[derive(Clone, Copy, Debug)]
pub struct EncodeSession {
    config: Option<Vp8Config>,
    start_ms: u64,
    last_pts: i64,
}

impl EncodeSession {
    pub closed spec fn spec_config(&self) -> Option<Vp8Config> {
        self.config
    }

    pub closed spec fn spec_start_ms(&self) -> u64 {
        self.start_ms
    }

    pub closed spec fn spec_last_pts(&self) -> i64 {
        self.last_pts
    }

    /// The current configuration is one the pipeline builds; timestamps are
    /// never negative.
    pub open spec fn wf(&self) -> bool {
        &&& self.spec_last_pts() >= 0
        &&& self.spec_config() matches Some(c) ==> c.wf() && is_pipeline_config(c, c.width, c.height)
    }

    /// No encoder yet.
    pub fn new() -> (r: EncodeSession)
        ensures
            r.wf(),
            r.spec_config() is None,
            r.spec_last_pts() == 0,
    {
        EncodeSession { config: None, start_ms: 0, last_pts: 0 }
    }

    pub fn config(&self) -> (r: Option<Vp8Config>)
        ensures
            r == self.spec_config(),
    {
        self.config
    }

    /// Plans the encoding of a frame of `format` captured at `now_ms`.
    ///
    /// A new encoder is asked for exactly when there is none or the frame's
    /// width or height differs from the current one; its timestamps then start
    /// again at zero. Otherwise the timestamp is the time since the encoder was
    /// built, and never below the previous one. The picture-loss flag is read
    /// and cleared, and the frame is forced to be a keyframe exactly when it
    /// was raised. Odd dimensions are refused, and nothing changes.
    pub fn on_frame(&mut self, format: &StreamFormat, now_ms: u64, loss: &mut PictureLossFlag) -> (r: Result<FramePlan, Error>)
        requires
            old(self).wf(),
        ensures
            final(self).wf(),
            r is Err <==> !(is_even(format.width) && is_even(format.height)),
            r is Err ==> r->Err_0 is InvalidParam && *final(self) == *old(self) && *final(loss) == *old(loss),
            r matches Ok(p) ==> {
                &&& (p.reconfigure is Some <==> (old(self).spec_config() matches Some(c)
                        ==> (c.width != format.width || c.height != format.height)))
                &&& (p.reconfigure matches Some(c) ==> is_pipeline_config(c, format.width, format.height)
                        && final(self).spec_config() == Some(c) && final(self).spec_start_ms() == now_ms
                        && p.pts == 0)
                &&& (p.reconfigure is None ==> final(self).spec_config() == old(self).spec_config()
                        && final(self).spec_start_ms() == old(self).spec_start_ms()
                        && p.pts == next_pts(old(self).spec_start_ms(), old(self).spec_last_pts(), now_ms)
                        && p.pts >= old(self).spec_last_pts())
                &&& final(self).spec_last_pts() == p.pts
                &&& p.force_keyframe == old(loss).is_raised()
                &&& !final(loss).is_raised()
            },
    {
        let change = match reconfigure_encoder(self.config, format) {
            Ok(c) => c,
            Err(e) => {
                return Err(e);
            },
        };
        match change {
            Some(c) => {
                self.config = Some(c);
                self.start_ms = now_ms;
                self.last_pts = 0;
            },
            None => {},
        }
        let elapsed: i64 = if now_ms <= self.start_ms {
            0
        } else if now_ms - self.start_ms > i64::MAX as u64 {
            i64::MAX
        } else {
            (now_ms - self.start_ms) as i64
        };
        let pts = if elapsed < self.last_pts {
            self.last_pts
        } else {
            elapsed
        };
        self.last_pts = pts;
        let force_keyframe = loss.take();
        Ok(FramePlan { reconfigure: change, pts, force_keyframe })
    }
}

/// What the capture driver sees on one turn of its loop.
#[derive(Clone, Copy, Debug, PartialEq, Eq, Structural)]
pub enum CaptureEvent {
    /// A new frame is in the latest-value slot.
    Frame,
    /// The slot changed but holds no frame.
    Empty,
    /// The device's frame sequence ended.
    Ended,
}

#[derive(Clone, Copy, Debug, PartialEq, Eq, Structural)]
pub enum CaptureAction {
    /// Publish the frame to the frame broadcast.
    Publish,
    /// Wait for the next frame.
    Skip,
    /// Stop the device, signal exit and end.
    Stop,
}

/// The capture driver stops on the exit signal or at the end of the frame
/// sequence, publishes each frame, and skips empty slots.
pub fn capture_step(exit_requested: bool, event: CaptureEvent) -> (r: CaptureAction)
    ensures
        exit_requested ==> r == CaptureAction::Stop,
        !exit_requested && event == CaptureEvent::Frame ==> r == CaptureAction::Publish,
        !exit_requested && event == CaptureEvent::Empty ==> r == CaptureAction::Skip,
        !exit_requested && event == CaptureEvent::Ended ==> r == CaptureAction::Stop,
{
    if exit_requested {
        return CaptureAction::Stop;
    }
    match event {
        CaptureEvent::Frame => CaptureAction::Publish,
        CaptureEvent::Empty => CaptureAction::Skip,
        CaptureEvent::Ended => CaptureAction::Stop,
    }
}

} // verus!
