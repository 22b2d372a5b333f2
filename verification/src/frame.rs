//! Decoded frames: the picture parameters that dav1d reports, the sample
//! planes, and the accessors that read them.
use vstd::prelude::*;
use vstd::slice::slice_subrange;

use crate::color::{
    ChromaSamplePosition, ColorPrimaries, ColorRange, FrameType, MatrixCoefficients, PixelLayout,
    TransferCharacteristics,
};
use crate::error::{code_magnitude, Error};
use crate::header::{ContentLightLevel, MasteringDisplay, RawSequenceHeader};
use crate::raw;

verus! {

/// The fields of dav1d's `Dav1dFrameHeader` that the binding reads.
#[derive(Debug, Clone, Copy, PartialEq, Eq, Structural)]
pub struct FrameHeaderInfo {
    /// `frame_type` (`Dav1dFrameType`)
    pub frame_type: u32,
    /// `temporal_id`
    pub temporal_id: u8,
    /// `spatial_id`
    pub spatial_id: u8,
    /// `show_frame`
    pub show_frame: u8,
}

/// What dav1d reports of a picture (`Dav1dPicture`), as plain values: the
/// picture parameters, the strides, and the metadata that the picture
/// points to (`None` where its pointer is null).
#[derive(Debug, Clone, Copy, PartialEq, Eq)]
pub struct PictureInfo {
    /// `p.layout` (`Dav1dPixelLayout`)
    pub layout: u32,
    /// `p.bpc`: bits per component
    pub bpc: i32,
    /// `p.w`
    pub w: i32,
    /// `p.h`
    pub h: i32,
    /// `stride[0]`: bytes per luma row
    pub y_stride: isize,
    /// `stride[1]`: bytes per chroma row (shared by U and V)
    pub uv_stride: isize,
    /// `*frame_hdr`
    pub frame_header: Option<FrameHeaderInfo>,
    /// `*seq_hdr`
    pub sequence_header: Option<RawSequenceHeader>,
    /// `*content_light`
    pub content_light: Option<ContentLightLevel>,
    /// `*mastering_display`
    pub mastering_display: Option<MasteringDisplay>,
}

/// A frame as the library sees it: the picture information and the bytes
/// of the Y, U and V planes.
pub struct DecodedFrameView {
    /// The picture information
    pub info: PictureInfo,
    /// The bytes of the Y plane
    pub y: Seq<u8>,
    /// The bytes of the U plane
    pub u: Seq<u8>,
    /// The bytes of the V plane
    pub v: Seq<u8>,
}

/// A decoded video frame.
#[derive(Debug)]
pub struct DecodedFrame {
    info: PictureInfo,
    y: Vec<u8>,
    u: Vec<u8>,
    v: Vec<u8>,
}

impl View for DecodedFrame {
    type V = DecodedFrameView;

    closed spec fn view(&self) -> DecodedFrameView {
        DecodedFrameView { info: self.info, y: self.y@, u: self.u@, v: self.v@ }
    }
}

/// Whether the layout code is one with chroma planes (4:2:0, 4:2:2 or
/// 4:4:4); monochrome and undefined layout codes have none.
pub open spec fn has_chroma(layout: u32) -> bool {
    layout == raw::PIXEL_LAYOUT_I420 || layout == raw::PIXEL_LAYOUT_I422 || layout
        == raw::PIXEL_LAYOUT_I444
}

/// The frame height as `height()` reports it.
pub open spec fn frame_height(info: PictureInfo) -> int {
    (info.h as usize) as int
}

/// The number of rows of a chroma plane: half the luma rows (rounded up)
/// for 4:2:0, all of them for 4:2:2 and 4:4:4, none for monochrome and for
/// an undefined layout code.
pub open spec fn chroma_rows(info: PictureInfo) -> int {
    if info.layout == raw::PIXEL_LAYOUT_I420 {
        (frame_height(info) + 1) / 2
    } else if has_chroma(info.layout) {
        frame_height(info)
    } else {
        0
    }
}

/// The number of bytes of the Y plane that the frame exposes: every row,
/// row padding included.
pub open spec fn luma_plane_len(info: PictureInfo) -> int {
    frame_height(info) * info.y_stride
}

/// The number of bytes of the U or V plane that the frame exposes.
pub open spec fn chroma_plane_len(info: PictureInfo) -> int {
    chroma_rows(info) * info.uv_stride
}

/// Whether the frame has more than 8 bits per sample.
pub open spec fn high_depth(info: PictureInfo) -> bool {
    (info.bpc as usize) > 8
}

/// The sample stored little-endian in the bytes `lo`, `hi`.
pub open spec fn le_sample(lo: u8, hi: u8) -> int {
    lo + 256 * hi
}

/// Whether `samples` are the 16-bit samples stored in the first `n` bytes
/// of `bytes` (two bytes per sample, least significant byte first).
pub open spec fn samples_of(samples: Seq<u16>, bytes: Seq<u8>, n: int) -> bool {
    &&& samples.len() == n / 2
    &&& forall|k: int|
        0 <= k < n / 2 ==> #[trigger] samples[k] == le_sample(bytes[2 * k], bytes[2 * k + 1])
}

/// The frame height is the picture's `h`: `height()` reports `p.h` for
/// every picture with a non-negative height.
pub proof fn lemma_frame_height_law(info: PictureInfo)
    requires
        info.h >= 0,
    ensures
        frame_height(info) == info.h,
{
}

/// The Y plane spans every row: its length is the picture height times
/// the luma stride, for every height and stride.
pub proof fn lemma_luma_plane_len_law(info: PictureInfo)
    requires
        info.h >= 0,
        info.y_stride >= 0,
    ensures
        luma_plane_len(info) == info.h * info.y_stride,
{
}

/// Chroma subsampling: a 4:2:0 chroma plane has half the luma rows,
/// rounded up; a 4:2:2 or 4:4:4 chroma plane has all of them; monochrome
/// and undefined layouts have no chroma rows.  Chroma planes exist exactly
/// for the 4:2:0, 4:2:2 and 4:4:4 layout codes.
pub proof fn lemma_chroma_rows_law(info: PictureInfo)
    requires
        info.h >= 0,
    ensures
        has_chroma(info.layout) <==> (info.layout == 1 || info.layout == 2 || info.layout == 3),
        info.layout == 1 ==> chroma_rows(info) * 2 == info.h || chroma_rows(info) * 2 == info.h
            + 1,
        info.layout == 2 || info.layout == 3 ==> chroma_rows(info) == info.h,
        !has_chroma(info.layout) ==> chroma_rows(info) == 0,
{
}

/// The U and V planes span every chroma row, whatever the bit depth: for
/// 4:2:0 twice their length is the (even-rounded) picture height times the
/// chroma stride, for 4:2:2 and 4:4:4 their length is the picture height
/// times the chroma stride, and otherwise they are empty.
pub proof fn lemma_chroma_plane_len_law(info: PictureInfo)
    requires
        info.h >= 0,
        info.uv_stride >= 0,
    ensures
        info.layout == 1 ==> chroma_plane_len(info) * 2 == info.h * info.uv_stride
            || chroma_plane_len(info) * 2 == (info.h + 1) * info.uv_stride,
        info.layout == 2 || info.layout == 3 ==> chroma_plane_len(info) == info.h
            * info.uv_stride,
        !has_chroma(info.layout) ==> chroma_plane_len(info) == 0,
{
    lemma_chroma_rows_law(info);
    let c = chroma_rows(info);
    let st = info.uv_stride as int;
    let h = info.h as int;
    assert(chroma_plane_len(info) == c * st);
    if info.layout == 1 {
        assert((c * st) * 2 == (c * 2) * st) by (nonlinear_arith);
        if c * 2 == h {
            assert((c * 2) * st == h * st);
        } else {
            assert((c * 2) * st == (h + 1) * st);
        }
    }
}

/// The chroma plane length does not depend on the bit depth: two pictures
/// that differ only in `bpc` have chroma planes of the same length.
pub proof fn lemma_chroma_plane_len_ignores_depth(a: PictureInfo, b: PictureInfo)
    requires
        a.layout == b.layout,
        a.h == b.h,
        a.uv_stride == b.uv_stride,
    ensures
        chroma_plane_len(a) == chroma_plane_len(b),
{
}

/// A frame has a high bit depth exactly when it has more than 8 bits per
/// sample.
pub proof fn lemma_high_depth_law(info: PictureInfo)
    requires
        info.bpc >= 0,
    ensures
        high_depth(info) <==> info.bpc > 8,
{
}

/// A 16-bit sample is its two bytes, least significant first: the low
/// byte is the sample modulo 256 and the high byte the sample divided by
/// 256.
pub proof fn lemma_le_sample_law(lo: u8, hi: u8)
    ensures
        0 <= le_sample(lo, hi) < 65536,
        le_sample(lo, hi) % 256 == lo,
        le_sample(lo, hi) / 256 == hi,
{
}

/// When the luma stride is even, the samples of the Y plane cover its
/// bytes exactly: there are half as many samples as bytes, and each sample
/// is read from its two bytes, least significant byte first.
pub proof fn lemma_luma_samples_cover_plane(info: PictureInfo, s: Seq<u16>, bytes: Seq<u8>)
    requires
        info.y_stride >= 0,
        info.y_stride % 2 == 0,
        samples_of(s, bytes, luma_plane_len(info)),
    ensures
        s.len() * 2 == luma_plane_len(info),
        forall|k: int|
            0 <= k < s.len() ==> #[trigger] s[k] == le_sample(bytes[2 * k], bytes[2 * k + 1]),
{
    let h = frame_height(info);
    let st = info.y_stride as int;
    assert(h >= 0);
    let q = st / 2;
    assert(st == 2 * q);
    assert(h * st == 2 * (h * q)) by (nonlinear_arith)
        requires
            st == 2 * q,
    ;
}

/// The 16-bit samples stored in the first `n` bytes of `bytes`.
///
/// High bit depth planes hold one sample in two bytes, least significant
/// byte first (the byte order of every platform the binding runs on).
fn samples_u16(bytes: &[u8], n: usize) -> (r: Vec<u16>)
    requires
        n <= bytes@.len(),
    ensures
        samples_of(r@, bytes@, n as int),
{
    let count = n / 2;
    let mut r: Vec<u16> = Vec::with_capacity(count);
    let mut k: usize = 0;
    while k < count
        invariant
            count == n / 2,
            n <= bytes@.len(),
            k <= count,
            r@.len() == k,
            forall|j: int| 0 <= j < k ==> #[trigger] r@[j] == le_sample(bytes@[2 * j], bytes@[2 * j + 1]),
        decreases count - k,
    {
        let lo = bytes[2 * k];
        let hi = bytes[2 * k + 1];
        let sample: u16 = lo as u16 + 256 * (hi as u16);
        r.push(sample);
        k = k + 1;
    }
    r
}

/// The layout that a code reads as: the layout with that code, or
/// `Reserved` for an undefined code.
proof fn lemma_layout_reads(layout: u32, p: PixelLayout)
    requires
        p.decodes(layout),
    ensures
        p == PixelLayout::I400 <==> layout == raw::PIXEL_LAYOUT_I400,
        p == PixelLayout::I420 <==> layout == raw::PIXEL_LAYOUT_I420,
        p == PixelLayout::I422 <==> layout == raw::PIXEL_LAYOUT_I422,
        p == PixelLayout::I444 <==> layout == raw::PIXEL_LAYOUT_I444,
        p == PixelLayout::Reserved <==> !(layout == raw::PIXEL_LAYOUT_I400 || has_chroma(layout)),
{
    assert(PixelLayout::I400.raw_code() == Some(raw::PIXEL_LAYOUT_I400));
    assert(PixelLayout::I420.raw_code() == Some(raw::PIXEL_LAYOUT_I420));
    assert(PixelLayout::I422.raw_code() == Some(raw::PIXEL_LAYOUT_I422));
    assert(PixelLayout::I444.raw_code() == Some(raw::PIXEL_LAYOUT_I444));
}

impl DecodedFrame {
    /// A frame of the given picture information and planes.
    pub fn new(info: PictureInfo, y: Vec<u8>, u: Vec<u8>, v: Vec<u8>) -> (r: Self)
        ensures
            r@.info == info,
            r@.y == y@,
            r@.u == u@,
            r@.v == v@,
    {
        DecodedFrame { info, y, u, v }
    }

    /// The pixel layout of the frame.
    pub fn pixel_layout(&self) -> (r: PixelLayout)
        ensures
            r.decodes(self@.info.layout),
    {
        PixelLayout::from_raw(self.info.layout)
    }

    /// The bit depth of the frame (8, 10, 12).
    pub fn bit_depth(&self) -> (r: usize)
        ensures
            r == self@.info.bpc as usize,
    {
        self.info.bpc as usize
    }

    /// Whether the frame has a high bit depth (10 bits or more).
    pub fn is_high_depth(&self) -> (r: bool)
        ensures
            r == high_depth(self@.info),
    {
        self.bit_depth() > 8
    }

    /// The stride of the Y plane in bytes.
    ///
    /// Negative strides (bottom-up pictures) are not supported.
    pub fn y_stride(&self) -> (r: usize)
        requires
            self@.info.y_stride >= 0,
        ensures
            r == self@.info.y_stride,
    {
        self.info.y_stride as usize
    }

    /// The stride of the U plane in bytes.
    ///
    /// For `PixelLayout::I400` this is dav1d's value, although there is no
    /// chroma plane.  Negative strides are not supported.
    pub fn u_stride(&self) -> (r: usize)
        requires
            self@.info.uv_stride >= 0,
        ensures
            r == self@.info.uv_stride,
    {
        self.info.uv_stride as usize
    }

    /// The stride of the V plane in bytes (the same as the U stride).
    pub fn v_stride(&self) -> (r: usize)
        requires
            self@.info.uv_stride >= 0,
        ensures
            r == self@.info.uv_stride,
    {
        self.u_stride()
    }

    /// The width of the frame.
    pub fn width(&self) -> (r: usize)
        ensures
            r == self@.info.w as usize,
    {
        self.info.w as usize
    }

    /// The height of the frame.
    pub fn height(&self) -> (r: usize)
        ensures
            r == frame_height(self@.info),
    {
        self.info.h as usize
    }

    /// The number of rows of the chroma planes.
    pub fn chroma_height(&self) -> (r: usize)
        requires
        ensures
            r == chroma_rows(self@.info),
    {
        let layout = self.pixel_layout();
        proof {
            lemma_layout_reads(self.info.layout, layout);
        }
        match layout {
            PixelLayout::I420 => {
                let h = self.height();
                h / 2 + h % 2
            },
            PixelLayout::I422 | PixelLayout::I444 => self.height(),
            PixelLayout::I400 | PixelLayout::Reserved => 0,
        }
    }

    /// The number of bytes of the Y plane: `height * stride`.
    pub fn y_plane_len(&self) -> (r: usize)
        requires
            self@.info.y_stride >= 0,
            luma_plane_len(self@.info) <= usize::MAX,
        ensures
            r == luma_plane_len(self@.info),
    {
        self.height() * self.y_stride()
    }

    /// The number of bytes of the U plane and of the V plane:
    /// `chroma_height * stride`.
    pub fn uv_plane_len(&self) -> (r: usize)
        requires
            self@.info.uv_stride >= 0,
            chroma_plane_len(self@.info) <= usize::MAX,
        ensures
            r == chroma_plane_len(self@.info),
    {
        self.chroma_height() * self.u_stride()
    }

    /// The bytes of the Y plane: `height * stride` bytes, row padding
    /// included.  High bit depth samples take two bytes each.
    pub fn y_plane(&self) -> (r: &[u8])
        requires
            self@.info.y_stride >= 0,
            luma_plane_len(self@.info) <= self@.y.len(),
        ensures
            r@ == self@.y.subrange(0, luma_plane_len(self@.info)),
    {
        assert(self.y@.len() == self.y.len());
        let n = self.y_plane_len();
        slice_subrange(self.y.as_slice(), 0, n)
    }

    /// The bytes of the U plane: `chroma_height * stride` bytes, row
    /// padding included; empty for `PixelLayout::I400` and
    /// `PixelLayout::Reserved`.
    pub fn u_plane(&self) -> (r: &[u8])
        requires
            has_chroma(self@.info.layout) ==> self@.info.uv_stride >= 0
                && chroma_plane_len(self@.info) <= self@.u.len(),
        ensures
            r@ == if !has_chroma(self@.info.layout) {
                Seq::empty()
            } else {
                self@.u.subrange(0, chroma_plane_len(self@.info))
            },
    {
        let layout = self.pixel_layout();
        proof {
            lemma_layout_reads(self.info.layout, layout);
        }
        if layout == PixelLayout::I400 || layout == PixelLayout::Reserved {
            return slice_subrange(self.u.as_slice(), 0, 0);
        }
        assert(self.u@.len() == self.u.len());
        let n = self.uv_plane_len();
        slice_subrange(self.u.as_slice(), 0, n)
    }

    /// The bytes of the V plane: `chroma_height * stride` bytes, row
    /// padding included; empty for `PixelLayout::I400` and
    /// `PixelLayout::Reserved`.
    pub fn v_plane(&self) -> (r: &[u8])
        requires
            has_chroma(self@.info.layout) ==> self@.info.uv_stride >= 0
                && chroma_plane_len(self@.info) <= self@.v.len(),
        ensures
            r@ == if !has_chroma(self@.info.layout) {
                Seq::empty()
            } else {
                self@.v.subrange(0, chroma_plane_len(self@.info))
            },
    {
        let layout = self.pixel_layout();
        proof {
            lemma_layout_reads(self.info.layout, layout);
        }
        if layout == PixelLayout::I400 || layout == PixelLayout::Reserved {
            return slice_subrange(self.v.as_slice(), 0, 0);
        }
        assert(self.v@.len() == self.v.len());
        let n = self.uv_plane_len();
        slice_subrange(self.v.as_slice(), 0, n)
    }

    /// The samples of the Y plane of a high bit depth frame:
    /// `height * stride / 2` samples, row padding included; `None` for an
    /// 8-bit frame.
    pub fn y_plane_u16(&self) -> (r: Option<Vec<u16>>)
        requires
            high_depth(self@.info) ==> self@.info.y_stride >= 0 && luma_plane_len(self@.info)
                <= self@.y.len(),
        ensures
            r is None <==> !high_depth(self@.info),
            r matches Some(s) ==> samples_of(s@, self@.y, luma_plane_len(self@.info)),
    {
        if !self.is_high_depth() {
            return None;
        }
        assert(self.y@.len() == self.y.len());
        let n = self.y_plane_len();
        Some(samples_u16(self.y.as_slice(), n))
    }

    /// The samples of the U plane of a high bit depth frame:
    /// `chroma_height * stride / 2` samples; `None` for an 8-bit frame, for
    /// `PixelLayout::I400` and for `PixelLayout::Reserved`.
    pub fn u_plane_u16(&self) -> (r: Option<Vec<u16>>)
        requires
            high_depth(self@.info) && has_chroma(self@.info.layout)
                ==> self@.info.uv_stride >= 0 && chroma_plane_len(self@.info) <= self@.u.len(),
        ensures
            r is None <==> (!high_depth(self@.info) || !has_chroma(self@.info.layout)),
            r matches Some(s) ==> samples_of(s@, self@.u, chroma_plane_len(self@.info)),
    {
        let layout = self.pixel_layout();
        proof {
            lemma_layout_reads(self.info.layout, layout);
        }
        if !self.is_high_depth() || layout == PixelLayout::I400 || layout == PixelLayout::Reserved {
            return None;
        }
        assert(self.u@.len() == self.u.len());
        let n = self.uv_plane_len();
        Some(samples_u16(self.u.as_slice(), n))
    }

    /// The samples of the V plane of a high bit depth frame:
    /// `chroma_height * stride / 2` samples; `None` for an 8-bit frame, for
    /// `PixelLayout::I400` and for `PixelLayout::Reserved`.
    pub fn v_plane_u16(&self) -> (r: Option<Vec<u16>>)
        requires
            high_depth(self@.info) && has_chroma(self@.info.layout)
                ==> self@.info.uv_stride >= 0 && chroma_plane_len(self@.info) <= self@.v.len(),
        ensures
            r is None <==> (!high_depth(self@.info) || !has_chroma(self@.info.layout)),
            r matches Some(s) ==> samples_of(s@, self@.v, chroma_plane_len(self@.info)),
    {
        let layout = self.pixel_layout();
        proof {
            lemma_layout_reads(self.info.layout, layout);
        }
        if !self.is_high_depth() || layout == PixelLayout::I400 || layout == PixelLayout::Reserved {
            return None;
        }
        assert(self.v@.len() == self.v.len());
        let n = self.uv_plane_len();
        Some(samples_u16(self.v.as_slice(), n))
    }
    /// The frame type; `None` when dav1d attached no frame header.
    pub fn frame_type(&self) -> (r: Option<FrameType>)
        ensures
            match self@.info.frame_header {
                Some(h) => r matches Some(t) && t.decodes(h.frame_type),
                None => r is None,
            },
    {
        match &self.info.frame_header {
            Some(h) => Some(FrameType::from_raw(h.frame_type)),
            None => None,
        }
    }

    /// The temporal layer id (SVC); `None` when dav1d attached no frame
    /// header.
    pub fn temporal_id(&self) -> (r: Option<u8>)
        ensures
            r == match self@.info.frame_header {
                Some(h) => Some(h.temporal_id),
                None => None::<u8>,
            },
    {
        match &self.info.frame_header {
            Some(h) => Some(h.temporal_id),
            None => None,
        }
    }

    /// The spatial layer id (SVC); `None` when dav1d attached no frame
    /// header.
    pub fn spatial_id(&self) -> (r: Option<u8>)
        ensures
            r == match self@.info.frame_header {
                Some(h) => Some(h.spatial_id),
                None => None::<u8>,
            },
    {
        match &self.info.frame_header {
            Some(h) => Some(h.spatial_id),
            None => None,
        }
    }

    /// Whether the frame is shown; `None` when dav1d attached no frame
    /// header.
    pub fn show_frame(&self) -> (r: Option<bool>)
        ensures
            r == match self@.info.frame_header {
                Some(h) => Some(h.show_frame != 0),
                None => None::<bool>,
            },
    {
        match &self.info.frame_header {
            Some(h) => Some(h.show_frame != 0),
            None => None,
        }
    }

    /// The colour primaries; `None` when dav1d attached no sequence header.
    pub fn color_primaries(&self) -> (r: Option<ColorPrimaries>)
        ensures
            match self@.info.sequence_header {
                Some(h) => r matches Some(c) && c.decodes(h.pri),
                None => r is None,
            },
    {
        match &self.info.sequence_header {
            Some(h) => Some(ColorPrimaries::from_raw(h.pri)),
            None => None,
        }
    }

    /// The transfer characteristics; `None` when dav1d attached no
    /// sequence header.
    pub fn transfer_characteristics(&self) -> (r: Option<TransferCharacteristics>)
        ensures
            match self@.info.sequence_header {
                Some(h) => r matches Some(c) && c.decodes(h.trc),
                None => r is None,
            },
    {
        match &self.info.sequence_header {
            Some(h) => Some(TransferCharacteristics::from_raw(h.trc)),
            None => None,
        }
    }

    /// The matrix coefficients; `None` when dav1d attached no sequence
    /// header.
    pub fn matrix_coefficients(&self) -> (r: Option<MatrixCoefficients>)
        ensures
            match self@.info.sequence_header {
                Some(h) => r matches Some(c) && c.decodes(h.mtrx),
                None => r is None,
            },
    {
        match &self.info.sequence_header {
            Some(h) => Some(MatrixCoefficients::from_raw(h.mtrx)),
            None => None,
        }
    }

    /// The chroma sample position; `None` when dav1d attached no sequence
    /// header.
    pub fn chroma_sample_position(&self) -> (r: Option<ChromaSamplePosition>)
        ensures
            match self@.info.sequence_header {
                Some(h) => r matches Some(c) && c.decodes(h.chr),
                None => r is None,
            },
    {
        match &self.info.sequence_header {
            Some(h) => Some(ChromaSamplePosition::from_raw(h.chr)),
            None => None,
        }
    }

    /// The colour range; `None` when dav1d attached no sequence header.
    pub fn color_range(&self) -> (r: Option<ColorRange>)
        ensures
            r == match self@.info.sequence_header {
                Some(h) => Some(ColorRange::spec_from_raw(h.color_range)),
                None => None::<ColorRange>,
            },
    {
        match &self.info.sequence_header {
            Some(h) => Some(ColorRange::from_raw(h.color_range)),
            None => None,
        }
    }

    /// The AV1 profile (0, 1, 2); `None` when dav1d attached no sequence
    /// header.
    pub fn profile(&self) -> (r: Option<u8>)
        ensures
            r == match self@.info.sequence_header {
                Some(h) => Some(h.profile),
                None => None::<u8>,
            },
    {
        match &self.info.sequence_header {
            Some(h) => Some(h.profile),
            None => None,
        }
    }

    /// The content light level (HDR metadata); `None` when the stream
    /// carries none.
    pub fn content_light_level(&self) -> (r: Option<ContentLightLevel>)
        ensures
            r == self@.info.content_light,
    {
        self.info.content_light
    }

    /// The mastering display information (HDR metadata); `None` when the
    /// stream carries none.
    pub fn mastering_display(&self) -> (r: Option<MasteringDisplay>)
        ensures
            r == self@.info.mastering_display,
    {
        self.info.mastering_display
    }
}

/// The outcome of `next_frame` for the return code of `dav1d_get_picture`:
/// `Ok(true)` when a picture was returned, `Ok(false)` when dav1d has no
/// picture yet (`-EAGAIN`, where `eagain` is the platform's `EAGAIN`
/// value), and the error of that call otherwise.
pub fn next_frame_status(code: i32, eagain: u32) -> (r: Result<bool, Error>)
    ensures
        match r {
            Ok(true) => code == 0,
            Ok(false) => code < 0 && code_magnitude(code) == eagain,
            Err(e) => code != 0 && !(code < 0 && code_magnitude(code) == eagain) && e@ == (
                code,
                "dav1d_get_picture"@,
            ),
        },
{
    if code < 0 && -(code as i64) == eagain as i64 {
        return Ok(false);
    }
    Error::check(code, "dav1d_get_picture")?;
    Ok(true)
}

} // verus!
