//! VP8 encoder parameters and the errors of the encoder adapter.

use vstd::prelude::*;

verus! {

/// Errors of the encoder adapter.
#[derive(Clone, Copy, Debug)]
pub enum Error {
    /// The codec library offers no VP8 encoder.
    VP8Unsupported,
    /// A parameter is out of the codec's domain (odd width or height).
    InvalidParam(&'static str),
    /// The image view could not be laid over the given bytes.
    ImageWrapNotCreated,
    /// The codec library rejected the encoder parameters.
    CodecInit(i32),
    /// The codec library reported an error while encoding.
    CodecError(i32),
}

/// Encoder parameters: frame geometry, timebase `[num, den]` and target bitrate in kbit/s.
#[derive(Clone, Copy, Debug)]
pub struct Vp8Config {
    pub width: u32,
    pub height: u32,
    pub timebase: [i32; 2],
    pub bitrate: u32,
}

/// Message of the error for an odd width.
pub const WIDTH_MUST_BE_EVEN: &'static str = "width must be even";

/// Message of the error for an odd height.
pub const HEIGHT_MUST_BE_EVEN: &'static str = "height must be even";

pub open spec fn is_even(n: u32) -> bool {
    n % 2 == 0
}

impl Vp8Config {
    /// Same geometry, timebase and bitrate.
    pub open spec fn same_as(&self, o: &Vp8Config) -> bool {
        &&& self.width == o.width
        &&& self.height == o.height
        &&& self.timebase@ == o.timebase@
        &&& self.bitrate == o.bitrate
    }

    /// Width and height are even, as the encoder demands.
    pub open spec fn wf(&self) -> bool {
        is_even(self.width) && is_even(self.height)
    }

    pub fn new(width: u32, height: u32, timebase: [i32; 2], bitrate: u32) -> (r: Result<Self, Error>)
        ensures
            r is Ok <==> is_even(width) && is_even(height),
            !is_even(width) ==> r == Err::<Self, Error>(Error::InvalidParam(WIDTH_MUST_BE_EVEN)),
            is_even(width) && !is_even(height) ==> r == Err::<Self, Error>(Error::InvalidParam(HEIGHT_MUST_BE_EVEN)),
            r matches Ok(c) ==> c.width == width && c.height == height && c.timebase@ == timebase@
                && c.bitrate == bitrate && c.wf(),
    {
        if width % 2 != 0 {
            return Err(Error::InvalidParam(WIDTH_MUST_BE_EVEN));
        }
        if height % 2 != 0 {
            return Err(Error::InvalidParam(HEIGHT_MUST_BE_EVEN));
        }
        Ok(Vp8Config { width, height, timebase, bitrate })
    }

    /// Compares all parameters.
    pub fn equals(&self, o: &Vp8Config) -> (r: bool)
        ensures
            r == self.same_as(o),
    {
        let r = self.width == o.width && self.height == o.height && self.timebase[0]
            == o.timebase[0] && self.timebase[1] == o.timebase[1] && self.bitrate == o.bitrate;
        proof {
            if r {
                assert(self.timebase@ =~= o.timebase@);
            }
        }
        r
    }
}

} // verus!
