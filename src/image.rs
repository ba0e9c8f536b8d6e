//! A no-copy view of a raw 4:2:0 image laid over caller-owned bytes.

use vstd::prelude::*;
use vstd::slice::slice_subrange;
use crate::codec::{Error, is_even};

verus! {

/// The 4:2:0 layouts the encoder accepts.
#[derive(Clone, Copy, Debug, PartialEq, Eq, Structural)]
pub enum ImageFormat {
    /// Y plane, then U plane, then V plane.
    I420,
    /// Y plane, then V plane, then U plane.
    YV12,
    /// Y plane, then one plane of interleaved U and V samples.
    NV12,
}

/// The planes of an image; `UV` is the interleaved chroma plane of NV12.
#[derive(Clone, Copy, Debug, PartialEq, Eq, Structural)]
pub enum Plane {
    Y,
    U,
    V,
    UV,
}

/// Bytes of the luma plane: one per pixel.
pub open spec fn luma_len(width: nat, height: nat) -> nat {
    width * height
}

/// Bytes of one subsampled chroma plane.
pub open spec fn chroma_len(width: nat, height: nat) -> nat {
    (width / 2) * (height / 2)
}

/// Bytes of a whole 4:2:0 image.
pub open spec fn image_len(width: nat, height: nat) -> nat {
    luma_len(width, height) + 2 * chroma_len(width, height)
}

/// Where a plane lies: `Some((offset, length, stride))`, or `None` where the
/// format has no such plane.
pub open spec fn plane_span(format: ImageFormat, plane: Plane, width: nat, height: nat) -> Option<(nat, nat, nat)> {
    let y = luma_len(width, height);
    let c = chroma_len(width, height);
    match (format, plane) {
        (_, Plane::Y) => Some((0, y, width)),
        (ImageFormat::I420, Plane::U) => Some((y, c, width / 2)),
        (ImageFormat::I420, Plane::V) => Some((y + c, c, width / 2)),
        (ImageFormat::YV12, Plane::V) => Some((y, c, width / 2)),
        (ImageFormat::YV12, Plane::U) => Some((y + c, c, width / 2)),
        (ImageFormat::NV12, Plane::UV) => Some((y, 2 * c, width)),
        _ => None,
    }
}

/// The bytes of a plane within the image bytes.
pub open spec fn plane_bytes(data: Seq<u8>, format: ImageFormat, plane: Plane, width: nat, height: nat) -> Option<Seq<u8>> {
    match plane_span(format, plane, width, height) {
        Some((off, len, _)) => Some(data.subrange(off as int, (off + len) as int)),
        None => None,
    }
}

/// A raw image over borrowed bytes, with its geometry and layout.
pub struct ImageView<'a> {
    data: &'a [u8],
    format: ImageFormat,
    width: u32,
    height: u32,
}

impl<'a> ImageView<'a> {
    pub closed spec fn spec_data(&self) -> Seq<u8> {
        self.data@
    }

    pub closed spec fn spec_format(&self) -> ImageFormat {
        self.format
    }

    pub closed spec fn spec_width(&self) -> u32 {
        self.width
    }

    pub closed spec fn spec_height(&self) -> u32 {
        self.height
    }

    /// Even geometry, and the bytes hold the whole image.
    pub closed spec fn wf(&self) -> bool {
        &&& is_even(self.width)
        &&& is_even(self.height)
        &&& image_len(self.width as nat, self.height as nat) <= self.data@.len()
    }

    /// Lays a view over `data` without copying; fails when the geometry is odd
    /// or the bytes are too few for the image.
    pub fn wrap(data: &'a [u8], width: u32, height: u32, format: ImageFormat) -> (r: Result<ImageView<'a>, Error>)
        ensures
            r is Ok <==> (is_even(width) && is_even(height) && image_len(width as nat, height as nat) <= data@.len()),
            !(is_even(width) && is_even(height)) ==> r matches Err(Error::InvalidParam(_)),
            (is_even(width) && is_even(height) && image_len(width as nat, height as nat) > data@.len())
                ==> r matches Err(Error::ImageWrapNotCreated),
            r matches Ok(v) ==> v.wf() && v.spec_data() == data@ && v.spec_format() == format
                && v.spec_width() == width && v.spec_height() == height,
    {
        let n = data.len();
        if width % 2 != 0 || height % 2 != 0 {
            return Err(Error::InvalidParam("width and height must be even"));
        }
        proof {
            assert((width as u64) * (height as u64) <= 0xffff_fffe_0000_0001u64) by (nonlinear_arith)
                requires width <= 0xffff_ffffu32, height <= 0xffff_ffffu32;
            assert(((width / 2) as u64) * ((height / 2) as u64) <= 0x4000_0000_0000_0000u64) by (nonlinear_arith)
                requires width <= 0xffff_ffffu32, height <= 0xffff_ffffu32;
        }
        let y: u64 = width as u64 * height as u64;
        let c: u64 = (width / 2) as u64 * (height / 2) as u64;
        proof {
            assert(y == luma_len(width as nat, height as nat)) by (nonlinear_arith)
                requires y == width as u64 * height as u64;
            assert(c == chroma_len(width as nat, height as nat)) by (nonlinear_arith)
                requires c == (width / 2) as u64 * (height / 2) as u64;
            assert(c <= 0x4000_0000_0000_0000) by (nonlinear_arith)
                requires c == (width / 2) as u64 * (height / 2) as u64, width <= 0xffff_ffff, height <= 0xffff_ffff;
        }
        match y.checked_add(2 * c) {
            None => Err(Error::ImageWrapNotCreated),
            Some(total) => {
                if total > n as u64 {
                    Err(Error::ImageWrapNotCreated)
                } else {
                    Ok(ImageView { data, format, width, height })
                }
            },
        }
    }

    pub fn format(&self) -> (r: ImageFormat)
        ensures
            r == self.spec_format(),
    {
        self.format
    }

    pub fn width(&self) -> (r: u32)
        ensures
            r == self.spec_width(),
    {
        self.width
    }

    pub fn height(&self) -> (r: u32)
        ensures
            r == self.spec_height(),
    {
        self.height
    }

    pub fn data(&self) -> (r: &'a [u8])
        ensures
            r@ == self.spec_data(),
    {
        self.data
    }

    /// Where `plane` lies in the bytes: `(offset, length, stride)`.
    pub fn plane_span(&self, plane: Plane) -> (r: Option<(usize, usize, usize)>)
        requires
            self.wf(),
        ensures
            match plane_span(self.spec_format(), plane, self.spec_width() as nat, self.spec_height() as nat) {
                Some((o, l, s)) => r == Some((o as usize, l as usize, s as usize)),
                None => r is None,
            },
            r matches Some((o, l, _)) ==> o + l <= self.spec_data().len() <= usize::MAX,
    {
        let n = self.data.len();
        let w = self.width as usize;
        let h = self.height as usize;
        proof {
            let wn = self.width as nat;
            let hn = self.height as nat;
            assert(wn * hn + 2 * ((wn / 2) * (hn / 2)) <= n);
            assert(w * h == wn * hn) by (nonlinear_arith)
                requires w == wn, h == hn;
            assert((w / 2) * (h / 2) == (wn / 2) * (hn / 2)) by (nonlinear_arith)
                requires w == wn, h == hn;
        }
        let y = w * h;
        let c = (w / 2) * (h / 2);
        match (self.format, plane) {
            (_, Plane::Y) => Some((0, y, w)),
            (ImageFormat::I420, Plane::U) => Some((y, c, w / 2)),
            (ImageFormat::I420, Plane::V) => Some((y + c, c, w / 2)),
            (ImageFormat::YV12, Plane::V) => Some((y, c, w / 2)),
            (ImageFormat::YV12, Plane::U) => Some((y + c, c, w / 2)),
            (ImageFormat::NV12, Plane::UV) => Some((y, 2 * c, w)),
            _ => None,
        }
    }

    /// The bytes of `plane`, borrowed from the wrapped data.
    pub fn read_plane(&self, plane: Plane) -> (r: Option<&'a [u8]>)
        requires
            self.wf(),
        ensures
            match plane_bytes(self.spec_data(), self.spec_format(), plane, self.spec_width() as nat, self.spec_height() as nat) {
                Some(b) => r is Some && r.unwrap()@ == b,
                None => r is None,
            },
    {
        match self.plane_span(plane) {
            Some((off, len, _)) => {
                let b = slice_subrange(self.data, off, off + len);
                proof {
                    assert(plane_bytes(self.spec_data(), self.spec_format(), plane, self.spec_width() as nat, self.spec_height() as nat) == Some(b@));
                }
                Some(b)
            },
            None => None,
        }
    }
}

/// Reading the luma plane of a wrapped I420 image gives the first
/// `width * height` bytes of what was wrapped.
pub proof fn lemma_wrap_read_luma(data: Seq<u8>, width: u32, height: u32)
    requires
        is_even(width),
        is_even(height),
        image_len(width as nat, height as nat) <= data.len(),
    ensures
        plane_bytes(data, ImageFormat::I420, Plane::Y, width as nat, height as nat)
            == Some(data.subrange(0, (width * height) as int)),
{
}

/// A frame the encoder accepts has a luma plane of `width * height` bytes,
/// and holds at least `3 * width * height / 2` bytes in all.
pub proof fn lemma_wrapped_frame_sizes(v: ImageView)
    requires
        v.wf(),
    ensures
        plane_span(v.spec_format(), Plane::Y, v.spec_width() as nat, v.spec_height() as nat)
            == Some((0nat, (v.spec_width() * v.spec_height()) as nat, v.spec_width() as nat)),
        v.spec_data().len() >= 3 * v.spec_width() * v.spec_height() / 2,
{
    let w = v.spec_width() as nat;
    let h = v.spec_height() as nat;
    assert(image_len(w, h) == 3 * w * h / 2) by (nonlinear_arith)
        requires w % 2 == 0, h % 2 == 0, image_len(w, h) == w * h + 2 * ((w / 2) * (h / 2));
}

} // verus!
