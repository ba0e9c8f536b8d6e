//! Capture abstraction: stream descriptors, stream selection and the
//! capture backends' device lists.

use vstd::prelude::*;

verus! {

/// `'420v'`: planar 4:2:0, video range, as the platform media framework names it.
pub const FOURCC_420V: u32 = 0x3432_3076;

/// `'NV12'`: the same 4:2:0 layout under its common name.
pub const FOURCC_NV12: u32 = 0x4E56_3132;

/// `'v024'`: how the V4L-style backend spells `'420v'`, its bytes reversed.
pub const FOURCC_V024: u32 = 0x7630_3234;

/// The 4:2:0 video-range pixel format a pipeline can encode.
pub open spec fn is_420_video_range(fourcc: u32) -> bool {
    fourcc == FOURCC_420V || fourcc == FOURCC_NV12
}

/// The fourcc of four bytes, first byte most significant.
pub open spec fn fourcc_of(b: Seq<u8>) -> u32
    recommends
        b.len() == 4,
{
    (b[0] as u32 * 0x100_0000 + b[1] as u32 * 0x1_0000 + b[2] as u32 * 0x100 + b[3] as u32) as u32
}

/// Reads a four-character code, first byte most significant.
pub fn fourcc_from_bytes(b: [u8; 4]) -> (r: u32)
    ensures
        r == fourcc_of(b@),
{
    (b[0] as u32) * 0x100_0000 + (b[1] as u32) * 0x1_0000 + (b[2] as u32) * 0x100 + (b[3] as u32)
}

/// `true` when `fourcc` names the 4:2:0 video-range format.
pub fn is_420_video_range_fourcc(fourcc: u32) -> (r: bool)
    ensures
        r == is_420_video_range(fourcc),
{
    fourcc == FOURCC_420V || fourcc == FOURCC_NV12
}

/// A capture mode a device offers: frame size and pixel format.
#[derive(Clone, Copy, Debug, PartialEq, Eq, Structural)]
pub struct StreamFormat {
    pub width: u32,
    pub height: u32,
    pub fourcc: u32,
}

/// Anything that describes a capture stream.
pub trait Stream {
    spec fn spec_format(&self) -> StreamFormat;

    fn format(&self) -> (r: StreamFormat)
        ensures
            r == self.spec_format(),
    ;
}

impl Stream for StreamFormat {
    open spec fn spec_format(&self) -> StreamFormat {
        *self
    }

    fn format(&self) -> (r: StreamFormat) {
        *self
    }
}

/// A backend-neutral handle on a stream a device offers.
#[derive(Clone, Copy, Debug, PartialEq, Eq, Structural)]
pub struct CameraStream {
    format: StreamFormat,
}

impl CameraStream {
    pub fn new<S: Stream>(stream: S) -> (r: CameraStream)
        ensures
            r.spec_format() == stream.spec_format(),
    {
        CameraStream { format: stream.format() }
    }
}

impl Stream for CameraStream {
    closed spec fn spec_format(&self) -> StreamFormat {
        self.format
    }

    fn format(&self) -> (r: StreamFormat) {
        self.format
    }
}

/// Index `i` holds a 4:2:0 stream of least height, and no earlier 4:2:0
/// stream has that height.
pub open spec fn is_smallest_420(s: Seq<StreamFormat>, i: int) -> bool {
    &&& 0 <= i < s.len()
    &&& is_420_video_range(s[i].fourcc)
    &&& forall|j: int| 0 <= j < s.len() && is_420_video_range(#[trigger] s[j].fourcc) ==> s[i].height <= s[j].height
    &&& forall|j: int| 0 <= j < i && is_420_video_range(#[trigger] s[j].fourcc) ==> s[i].height < s[j].height
}

/// Index `i` holds a 4:2:0 stream of greatest height, and no later 4:2:0
/// stream has that height.
pub open spec fn is_largest_420(s: Seq<StreamFormat>, i: int) -> bool {
    &&& 0 <= i < s.len()
    &&& is_420_video_range(s[i].fourcc)
    &&& forall|j: int| 0 <= j < s.len() && is_420_video_range(#[trigger] s[j].fourcc) ==> s[j].height <= s[i].height
    &&& forall|j: int| i < j < s.len() && is_420_video_range(#[trigger] s[j].fourcc) ==> s[j].height < s[i].height
}

pub open spec fn has_420(s: Seq<StreamFormat>) -> bool {
    exists|j: int| 0 <= j < s.len() && is_420_video_range(#[trigger] s[j].fourcc)
}

/// The first 4:2:0 video-range stream of least height, or `None` when the
/// device offers no such stream.
pub fn pick_smallest_420_stream(streams: &Vec<StreamFormat>) -> (r: Option<usize>)
    ensures
        r is None <==> !has_420(streams@),
        r matches Some(i) ==> is_smallest_420(streams@, i as int),
{
    let mut best: Option<usize> = None;
    let mut k: usize = 0;
    while k < streams.len()
        invariant
            k <= streams@.len(),
            best is None <==> !has_420(streams@.subrange(0, k as int)),
            best matches Some(i) ==> is_smallest_420(streams@.subrange(0, k as int), i as int),
        decreases streams@.len() - k,
    {
        let f = streams[k];
        if is_420_video_range_fourcc(f.fourcc) {
            match best {
                None => {
                    best = Some(k);
                },
                Some(i) => {
                    if f.height < streams[i].height {
                        best = Some(k);
                    }
                },
            }
        }
        proof {
            let p = streams@.subrange(0, k as int);
            let q = streams@.subrange(0, k + 1);
            assert(forall|j: int| 0 <= j < k ==> q[j] == p[j]);
            assert(q[k as int] == f);
            if has_420(p) {
                let j = choose|j: int| 0 <= j < p.len() && is_420_video_range(#[trigger] p[j].fourcc);
                assert(q[j] == p[j]);
            }
        }
        k = k + 1;
    }
    proof {
        assert(streams@.subrange(0, k as int) =~= streams@);
    }
    best
}

/// The last 4:2:0 video-range stream of greatest height, or `None` when the
/// device offers no such stream.
pub fn pick_largest_420_stream(streams: &Vec<StreamFormat>) -> (r: Option<usize>)
    ensures
        r is None <==> !has_420(streams@),
        r matches Some(i) ==> is_largest_420(streams@, i as int),
{
    let mut best: Option<usize> = None;
    let mut k: usize = 0;
    while k < streams.len()
        invariant
            k <= streams@.len(),
            best is None <==> !has_420(streams@.subrange(0, k as int)),
            best matches Some(i) ==> is_largest_420(streams@.subrange(0, k as int), i as int),
        decreases streams@.len() - k,
    {
        let f = streams[k];
        if is_420_video_range_fourcc(f.fourcc) {
            match best {
                None => {
                    best = Some(k);
                },
                Some(i) => {
                    if f.height >= streams[i].height {
                        best = Some(k);
                    }
                },
            }
        }
        proof {
            let p = streams@.subrange(0, k as int);
            let q = streams@.subrange(0, k + 1);
            assert(forall|j: int| 0 <= j < k ==> q[j] == p[j]);
            assert(q[k as int] == f);
            if has_420(p) {
                let j = choose|j: int| 0 <= j < p.len() && is_420_video_range(#[trigger] p[j].fourcc);
                assert(q[j] == p[j]);
            }
        }
        k = k + 1;
    }
    proof {
        assert(streams@.subrange(0, k as int) =~= streams@);
    }
    best
}

/// The first stream whose format equals `wanted`.
pub fn find_stream(streams: &Vec<StreamFormat>, wanted: &StreamFormat) -> (r: Option<usize>)
    ensures
        r is None <==> (forall|j: int| 0 <= j < streams@.len() ==> streams@[j] != *wanted),
        r matches Some(i) ==> i < streams@.len() && streams@[i as int] == *wanted
            && forall|j: int| 0 <= j < i ==> streams@[j] != *wanted,
{
    let mut k: usize = 0;
    while k < streams.len()
        invariant
            k <= streams@.len(),
            forall|j: int| 0 <= j < k ==> streams@[j] != *wanted,
        decreases streams@.len() - k,
    {
        if streams[k] == *wanted {
            return Some(k);
        }
        k = k + 1;
    }
    None
}

/// Pixel format code requested from the platform framework when no stream
/// was chosen: 32-bit ARGB.
pub const PIXEL_FORMAT_ARGB: u32 = 0x20;

/// The pixel format to ask the platform framework for: that of the chosen
/// stream, or 32-bit ARGB when none was chosen.
pub fn requested_pixel_format(preferred: Option<StreamFormat>) -> (r: u32)
    ensures
        preferred matches Some(f) ==> r == f.fourcc,
        preferred is None ==> r == PIXEL_FORMAT_ARGB,
{
    match preferred {
        Some(f) => f.fourcc,
        None => PIXEL_FORMAT_ARGB,
    }
}

/// Identifies a camera: the system default or a platform URI.
#[derive(Clone, Debug)]
pub enum DeviceDescriptor {
    Default,
    Name(String),
}

/// The callback-push backend of the platform media framework.
pub struct AvFoundation;

/// The pull backend over V4L-style device access.
pub struct Eye;

/// The cross-platform pull backend.
pub struct Nokhwa;

impl AvFoundation {
    /// This backend opens the system default camera only.
    pub fn all_devices(&self) -> (r: Vec<DeviceDescriptor>)
        ensures
            r@.len() == 1,
            r@[0] is Default,
    {
        vec![DeviceDescriptor::Default]
    }
}

impl Nokhwa {
    /// This backend opens the system default camera only.
    pub fn all_devices(&self) -> (r: Vec<DeviceDescriptor>)
        ensures
            r@.len() == 1,
            r@[0] is Default,
    {
        vec![DeviceDescriptor::Default]
    }
}

impl Eye {
    /// One named descriptor per device URI the platform reports, in order.
    pub fn all_devices_from_uris(&self, uris: Vec<String>) -> (r: Vec<DeviceDescriptor>)
        ensures
            r@.len() == uris@.len(),
            forall|i: int| 0 <= i < uris@.len() ==> #[trigger] r@[i] == DeviceDescriptor::Name(uris@[i]),
    {
        let mut r: Vec<DeviceDescriptor> = Vec::new();
        let mut k: usize = 0;
        while k < uris.len()
            invariant
                k <= uris@.len(),
                r@.len() == k,
                forall|i: int| 0 <= i < k ==> #[trigger] r@[i] == DeviceDescriptor::Name(uris@[i]),
            decreases uris@.len() - k,
        {
            r.push(DeviceDescriptor::Name(uris[k].clone()));
            k = k + 1;
        }
        r
    }

    /// The fourcc this backend reports for the 4:2:0 video-range format,
    /// mapped to the name the rest of the pipeline uses.
    pub fn normalize_fourcc(&self, fourcc: u32) -> (r: u32)
        ensures
            fourcc == FOURCC_V024 ==> r == FOURCC_420V,
            fourcc != FOURCC_V024 ==> r == fourcc,
    {
        if fourcc == FOURCC_V024 {
            FOURCC_420V
        } else {
            fourcc
        }
    }

    /// This backend's streams with its spelling of the 4:2:0 video-range
    /// code mapped as `normalize_fourcc` does; sizes and order are kept.
    pub fn normalize_streams(&self, streams: &Vec<StreamFormat>) -> (r: Vec<StreamFormat>)
        ensures
            r@.len() == streams@.len(),
            forall|i: int| 0 <= i < streams@.len() ==> {
                let s = #[trigger] streams@[i];
                &&& r@[i].width == s.width
                &&& r@[i].height == s.height
                &&& r@[i].fourcc == if s.fourcc == FOURCC_V024 { FOURCC_420V } else { s.fourcc }
            },
    {
        let mut r: Vec<StreamFormat> = Vec::new();
        let mut k: usize = 0;
        while k < streams.len()
            invariant
                k <= streams@.len(),
                r@.len() == k,
                forall|i: int| 0 <= i < k ==> {
                    let s = #[trigger] streams@[i];
                    &&& r@[i].width == s.width
                    &&& r@[i].height == s.height
                    &&& r@[i].fourcc == if s.fourcc == FOURCC_V024 { FOURCC_420V } else { s.fourcc }
                },
            decreases streams@.len() - k,
        {
            let s = streams[k];
            r.push(StreamFormat { width: s.width, height: s.height, fourcc: self.normalize_fourcc(s.fourcc) });
            k = k + 1;
        }
        r
    }
}

} // verus!
