//! Captured frames that own their bytes, as the pull backends produce them,
//! and the size of a native pixel buffer's data.

use vstd::prelude::*;
use vstd::slice::slice_to_vec;
use crate::stream::{FOURCC_420V, StreamFormat};

verus! {

/// The NV12 image the `rgb2yuv420` crate computes from packed 3-byte RGB
/// pixels of a `width` by `height` image.
pub uninterp spec fn nv12_of_rgb(rgb: Seq<u8>, width: u32, height: u32) -> Seq<u8>;

/// Relies on `rgb2yuv420::convert_rgb_to_yuv420sp_nv12` with 3 bytes per
/// pixel: it allocates `width * height * 3 / 2` bytes (computed in `u32`),
/// fills them from the pixels alone, and indexes the input below
/// `width * height * 3`.
#[verifier::external_body]
fn rgb_to_nv12(rgb: &[u8], width: u32, height: u32) -> (r: Vec<u8>)
    requires
        width % 2 == 0,
        height % 2 == 0,
        width * height * 3 <= u32::MAX,
        rgb@.len() >= width * height * 3,
    ensures
        r@ == nv12_of_rgb(rgb@, width, height),
        r@.len() == width * height * 3 / 2,
{
    rgb2yuv420::convert_rgb_to_yuv420sp_nv12(rgb, width, height, 3)
}

/// A captured image whose bytes the frame owns.
#[derive(Clone, Debug)]
pub struct CameraFrame {
    width: u32,
    height: u32,
    fourcc: u32,
    data: Vec<u8>,
}

/// The bytes of a frame that a pull backend captured as `data`: packed RGB
/// (exactly three bytes per pixel) is converted to NV12, anything else is
/// taken as NV12 already. `None` where RGB of odd size, or too large to
/// convert, came in, or where other bytes are too few for a 4:2:0 image.
pub open spec fn captured_nv12(data: Seq<u8>, width: u32, height: u32) -> Option<Seq<u8>> {
    if data.len() == width * height * 3 {
        if width % 2 == 0 && height % 2 == 0 && width * height * 3 <= u32::MAX {
            Some(nv12_of_rgb(data, width, height))
        } else {
            None
        }
    } else if data.len() >= 3 * width * height / 2 {
        Some(data)
    } else {
        None
    }
}

impl CameraFrame {
    pub closed spec fn spec_width(&self) -> u32 {
        self.width
    }

    pub closed spec fn spec_height(&self) -> u32 {
        self.height
    }

    pub closed spec fn spec_fourcc(&self) -> u32 {
        self.fourcc
    }

    pub closed spec fn spec_data(&self) -> Seq<u8> {
        self.data@
    }

    pub fn new(width: u32, height: u32, fourcc: u32, data: Vec<u8>) -> (r: CameraFrame)
        ensures
            r.spec_width() == width,
            r.spec_height() == height,
            r.spec_fourcc() == fourcc,
            r.spec_data() == data@,
    {
        CameraFrame { width, height, fourcc, data }
    }

    /// A 4:2:0 video-range frame from what a pull backend captured.
    pub fn from_capture(data: &[u8], width: u32, height: u32) -> (r: Option<CameraFrame>)
        ensures
            captured_nv12(data@, width, height) is None ==> r is None,
            captured_nv12(data@, width, height) matches Some(b) ==> (r matches Some(f) && f.spec_data() == b
                && f.spec_width() == width && f.spec_height() == height && f.spec_fourcc() == FOURCC_420V),
            r matches Some(f) ==> f.spec_data().len() >= 3 * width * height / 2,
            data@.len() == width * height * 3 ==> (r matches Some(f) ==> f.spec_data().len() == width * height * 3 / 2),
    {
        let n = data.len();
        proof {
            assert((width as u64) * (height as u64) <= 0xffff_fffe_0000_0001u64) by (nonlinear_arith)
                requires width <= 0xffff_ffffu32, height <= 0xffff_ffffu32;
        }
        let pixels: u64 = width as u64 * height as u64;
        let is_rgb = match pixels.checked_mul(3) {
            Some(rgb_len) => rgb_len == n as u64,
            None => false,
        };
        if is_rgb {
            if width % 2 == 0 && height % 2 == 0 && pixels <= 0x5555_5555u64 {
                let b = rgb_to_nv12(data, width, height);
                proof {
                    assert(width * height * 3 / 2 == 3 * width * height / 2) by (nonlinear_arith);
                }
                Some(CameraFrame { width, height, fourcc: FOURCC_420V, data: b })
            } else {
                None
            }
        } else {
            // 3 * pixels / 2 == pixels + pixels / 2
            let enough = match pixels.checked_add(pixels / 2) {
                Some(needed) => n as u64 >= needed,
                None => false,
            };
            proof {
                assert(pixels + pixels / 2 == 3 * width * height / 2) by (nonlinear_arith)
                    requires pixels == width as u64 * height as u64;
            }
            if enough {
                Some(CameraFrame { width, height, fourcc: FOURCC_420V, data: slice_to_vec(data) })
            } else {
                None
            }
        }
    }

    pub fn size_and_pixel_format(&self) -> (r: (u32, u32, u32))
        ensures
            r == (self.spec_width(), self.spec_height(), self.spec_fourcc()),
    {
        (self.width, self.height, self.fourcc)
    }

    pub fn format(&self) -> (r: StreamFormat)
        ensures
            r == (StreamFormat { width: self.spec_width(), height: self.spec_height(), fourcc: self.spec_fourcc() }),
    {
        StreamFormat { width: self.width, height: self.height, fourcc: self.fourcc }
    }

    pub fn data(&self) -> (r: &[u8])
        ensures
            r@ == self.spec_data(),
    {
        self.data.as_slice()
    }
}

/// Row length and row count of one plane of a native pixel buffer.
#[derive(Clone, Copy, Debug, PartialEq, Eq, Structural)]
pub struct PlaneGeometry {
    pub bytes_per_row: usize,
    pub height: usize,
}

pub open spec fn planes_len(planes: Seq<PlaneGeometry>) -> int
    decreases planes.len(),
{
    if planes.len() == 0 {
        0
    } else {
        planes_len(planes.drop_last()) + planes.last().bytes_per_row * planes.last().height
    }
}

/// The length of a pixel buffer's data: all planes of a planar buffer, or
/// rows times row length of a packed one. `None` where it does not fit `usize`.
pub fn pixel_data_len(is_planar: bool, planes: &Vec<PlaneGeometry>, bytes_per_row: usize, height: usize) -> (r: Option<usize>)
    ensures
        is_planar ==> (r == if planes_len(planes@) <= usize::MAX { Some(planes_len(planes@) as usize) } else { None::<usize> }),
        !is_planar ==> (r == if bytes_per_row * height <= usize::MAX { Some((bytes_per_row * height) as usize) } else { None::<usize> }),
{
    if !is_planar {
        return bytes_per_row.checked_mul(height);
    }
    let mut total: usize = 0;
    let mut k: usize = 0;
    proof {
        lemma_planes_len_grows(planes@, planes@.len() as int);
    }
    while k < planes.len()
        invariant
            is_planar,
            k <= planes@.len(),
            total == planes_len(planes@.subrange(0, k as int)),
            forall|j: int| 0 <= j <= planes@.len() ==> planes_len(#[trigger] planes@.subrange(0, j)) >= 0,
        decreases planes@.len() - k,
    {
        let p = planes[k];
        proof {
            assert(planes@.subrange(0, k + 1).drop_last() =~= planes@.subrange(0, k as int));
            assert(planes@.subrange(0, k + 1).last() == p);
        }
        let size = match p.bytes_per_row.checked_mul(p.height) {
            Some(s) => s,
            None => {
                proof {
                    lemma_planes_len_prefix(planes@, k + 1);
                }
                return None;
            },
        };
        total = match total.checked_add(size) {
            Some(t) => t,
            None => {
                proof {
                    lemma_planes_len_prefix(planes@, k + 1);
                }
                return None;
            },
        };
        k = k + 1;
    }
    proof {
        assert(planes@.subrange(0, k as int) =~= planes@);
    }
    Some(total)
}

proof fn lemma_planes_len_grows(planes: Seq<PlaneGeometry>, k: int)
    requires
        0 <= k <= planes.len(),
    ensures
        forall|j: int| 0 <= j <= k ==> planes_len(#[trigger] planes.subrange(0, j)) >= 0,
    decreases k,
{
    if k > 0 {
        lemma_planes_len_grows(planes, k - 1);
        let last = planes[k - 1];
        assert(planes.subrange(0, k).drop_last() =~= planes.subrange(0, k - 1));
        assert(last.bytes_per_row * last.height >= 0) by (nonlinear_arith);
    }
}

/// A prefix never weighs more than the whole.
proof fn lemma_planes_len_prefix(planes: Seq<PlaneGeometry>, k: int)
    requires
        0 <= k <= planes.len(),
    ensures
        planes_len(planes.subrange(0, k)) <= planes_len(planes),
    decreases planes.len() - k,
{
    if k < planes.len() {
        lemma_planes_len_prefix(planes, k + 1);
        let last = planes[k];
        assert(planes.subrange(0, k + 1).drop_last() =~= planes.subrange(0, k));
        assert(last.bytes_per_row * last.height >= 0) by (nonlinear_arith);
    } else {
        assert(planes.subrange(0, k) =~= planes);
    }
}

/// An NV12 pixel buffer whose rows are `width` bytes long, with a luma plane
/// of `height` rows and a chroma plane of `height / 2` rows, holds
/// `3 * width * height / 2` bytes, of which the luma plane holds
/// `width * height`.
pub proof fn lemma_nv12_buffer_len(width: usize, height: usize)
    requires
        height % 2 == 0,
    ensures
        planes_len(seq![
            PlaneGeometry { bytes_per_row: width, height: height },
            PlaneGeometry { bytes_per_row: width, height: (height / 2) as usize },
        ]) == 3 * width * height / 2,
        planes_len(seq![PlaneGeometry { bytes_per_row: width, height: height }]) == width * height,
{
    let y = PlaneGeometry { bytes_per_row: width, height: height };
    let uv = PlaneGeometry { bytes_per_row: width, height: (height / 2) as usize };
    let planes = seq![y, uv];
    assert(planes.drop_last() =~= seq![y]);
    assert(seq![y].drop_last() =~= Seq::<PlaneGeometry>::empty());
    assert(planes_len(Seq::<PlaneGeometry>::empty()) == 0);
    assert(seq![y].last() == y);
    assert(planes_len(seq![y]) == width * height);
    assert(planes.last() == uv);
    assert(planes_len(planes) == planes_len(seq![y]) + width * (height / 2));
    assert(width * height + width * (height / 2) == 3 * width * height / 2) by (nonlinear_arith)
        requires height % 2 == 0;
}

} // verus!
