//! What the VP8 encoder adapter decides: codec settings, per-call flags,
//! the packets it hands out, and when the encoder must be rebuilt.

use vstd::prelude::*;
use crate::codec::{Error, Vp8Config, is_even};
use crate::stream::StreamFormat;

verus! {

/// Encode flag that forces the next frame to be a keyframe.
pub const VPX_EFLAG_FORCE_KF: u32 = 0x1;

/// Output packet flags.
pub const VPX_FRAME_IS_KEY: u32 = 0x1;
pub const VPX_FRAME_IS_DROPPABLE: u32 = 0x2;
pub const VPX_FRAME_IS_INVISIBLE: u32 = 0x4;
pub const VPX_FRAME_IS_FRAGMENT: u32 = 0x8;

/// The packet flags this adapter knows of.
pub const KNOWN_FRAME_FLAGS: u32 = 0xF;

/// Frame duration reported to the codec, in timebase units (nominal 30 fps).
pub const FRAME_DURATION: u64 = 33;

/// Real-time deadline mode of the codec.
pub const DEADLINE_REALTIME: u64 = 1;

/// Worker threads the codec may use.
pub const ENCODER_THREADS: u32 = 8;

/// The codec's default error-resilience mode.
pub const ERROR_RESILIENT_DEFAULT: u32 = 0x1;

/// Timebase of the pipeline's timestamps: milliseconds.
pub const PIPELINE_TIMEBASE_NUM: i32 = 1;
pub const PIPELINE_TIMEBASE_DEN: i32 = 1000;

/// Target bitrate of the pipeline, in kbit/s.
pub const PIPELINE_BITRATE_KBPS: u32 = 5000;

/// The values the adapter writes into the codec's configuration record.
#[derive(Clone, Copy, Debug, PartialEq, Eq, Structural)]
pub struct EncoderSettings {
    pub width: u32,
    pub height: u32,
    pub timebase_num: i32,
    pub timebase_den: i32,
    pub target_bitrate: u32,
    pub threads: u32,
    pub error_resilient: u32,
}

/// Codec settings for `config`: its geometry, timebase and bitrate, eight
/// threads and default error resilience.
pub fn encoder_settings(config: &Vp8Config) -> (r: EncoderSettings)
    ensures
        r.width == config.width,
        r.height == config.height,
        r.timebase_num == config.timebase@[0],
        r.timebase_den == config.timebase@[1],
        r.target_bitrate == config.bitrate,
        r.threads == ENCODER_THREADS,
        r.error_resilient == ERROR_RESILIENT_DEFAULT,
{
    EncoderSettings {
        width: config.width,
        height: config.height,
        timebase_num: config.timebase[0],
        timebase_den: config.timebase[1],
        target_bitrate: config.bitrate,
        threads: ENCODER_THREADS,
        error_resilient: ERROR_RESILIENT_DEFAULT,
    }
}

/// Flags for one encode call.
pub fn encode_flags(force_keyframe: bool) -> (r: u32)
    ensures
        force_keyframe ==> r == VPX_EFLAG_FORCE_KF,
        !force_keyframe ==> r == 0,
{
    if force_keyframe {
        VPX_EFLAG_FORCE_KF
    } else {
        0
    }
}

/// One compressed frame taken out of the codec, its bytes already copied.
#[derive(Clone, Debug)]
pub struct Vp8Frame {
    pub data: Vec<u8>,
    pub pts: i64,
    pub duration: u64,
    pub width: u32,
    pub height: u32,
    pub flags: u32,
}

impl Vp8Frame {
    /// Keeps the known packet flags and drops the rest.
    pub fn new(data: Vec<u8>, pts: i64, duration: u64, width: u32, height: u32, flags: u32) -> (r: Vp8Frame)
        ensures
            r.data@ == data@,
            r.pts == pts,
            r.duration == duration,
            r.width == width,
            r.height == height,
            r.flags == flags & KNOWN_FRAME_FLAGS,
    {
        Vp8Frame { data, pts, duration, width, height, flags: flags & KNOWN_FRAME_FLAGS }
    }

    pub fn keyframe(&self) -> (r: bool)
        ensures
            r == (self.flags & VPX_FRAME_IS_KEY != 0),
    {
        self.flags & VPX_FRAME_IS_KEY != 0
    }
}

/// A compressed frame handed to the transmit side; it owns its bytes.
#[derive(Clone, Debug)]
pub struct EncodedFrame {
    pub bytes: Vec<u8>,
    pub keyframe: bool,
    pub pts: i64,
}

impl EncodedFrame {
    pub fn from_vp8(frame: Vp8Frame) -> (r: EncodedFrame)
        ensures
            r.bytes@ == frame.data@,
            r.pts == frame.pts,
            r.keyframe == (frame.flags & VPX_FRAME_IS_KEY != 0),
    {
        let keyframe = frame.keyframe();
        EncodedFrame { bytes: frame.data, keyframe, pts: frame.pts }
    }
}

/// The configuration the pipeline uses for a stream of `width` by `height`.
pub open spec fn is_pipeline_config(c: Vp8Config, width: u32, height: u32) -> bool {
    &&& c.width == width
    &&& c.height == height
    &&& c.timebase@ == seq![PIPELINE_TIMEBASE_NUM, PIPELINE_TIMEBASE_DEN]
    &&& c.bitrate == PIPELINE_BITRATE_KBPS
}

/// Decides whether a frame of `format` needs a new encoder: `Ok(None)` keeps
/// the current one, `Ok(Some(c))` asks for one built from `c`.
pub fn reconfigure_encoder(current: Option<Vp8Config>, format: &StreamFormat) -> (r: Result<Option<Vp8Config>, Error>)
    ensures
        r is Err <==> !(is_even(format.width) && is_even(format.height)),
        r is Err ==> r->Err_0 is InvalidParam,
        r matches Ok(None) ==> current is Some && is_pipeline_config(current.unwrap(), format.width, format.height),
        r matches Ok(Some(c)) ==> is_pipeline_config(c, format.width, format.height) && c.wf()
            && !(current is Some && is_pipeline_config(current.unwrap(), format.width, format.height)),
{
    let config = match Vp8Config::new(
        format.width,
        format.height,
        [PIPELINE_TIMEBASE_NUM, PIPELINE_TIMEBASE_DEN],
        PIPELINE_BITRATE_KBPS,
    ) {
        Ok(c) => c,
        Err(e) => {
            return Err(e);
        },
    };
    proof {
        assert(config.timebase@ =~= seq![PIPELINE_TIMEBASE_NUM, PIPELINE_TIMEBASE_DEN]);
    }
    match current {
        Some(c) => {
            if c.equals(&config) {
                Ok(None)
            } else {
                Ok(Some(config))
            }
        },
        None => Ok(Some(config)),
    }
}

} // verus!
