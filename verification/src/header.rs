//! Stream metadata: the sequence header and the HDR and error metadata
//! that dav1d attaches to pictures and errors.
use vstd::prelude::*;

use crate::color::{
    ChromaSamplePosition, ColorPrimaries, ColorRange, MatrixCoefficients, PixelLayout,
    TransferCharacteristics,
};
use crate::error::Error;
use crate::raw;

verus! {

/// The fields of dav1d's `Dav1dSequenceHeader` that the binding reads,
/// with their C types.
#[derive(Debug, Clone, Copy, PartialEq, Eq, Structural)]
pub struct RawSequenceHeader {
    /// `profile`
    pub profile: u8,
    /// `max_width`
    pub max_width: i32,
    /// `max_height`
    pub max_height: i32,
    /// `layout` (`Dav1dPixelLayout`)
    pub layout: u32,
    /// `pri` (`Dav1dColorPrimaries`)
    pub pri: u32,
    /// `trc` (`Dav1dTransferCharacteristics`)
    pub trc: u32,
    /// `mtrx` (`Dav1dMatrixCoefficients`)
    pub mtrx: u32,
    /// `chr` (`Dav1dChromaSamplePosition`)
    pub chr: u32,
    /// `hbd`: 0, 1 or 2 for 8, 10 or 12 bits
    pub hbd: u8,
    /// `color_range`
    pub color_range: u8,
}

/// Sequence header information.
#[derive(Debug, Clone, Copy, PartialEq, Eq, Structural)]
pub struct SequenceHeader {
    /// AV1 profile (0, 1, 2)
    pub profile: u8,
    /// Maximum width of the stream
    pub max_width: usize,
    /// Maximum height of the stream
    pub max_height: usize,
    /// Pixel layout
    pub layout: PixelLayout,
    /// Colour primaries
    pub pri: ColorPrimaries,
    /// Transfer characteristics
    pub trc: TransferCharacteristics,
    /// Matrix coefficients
    pub mtrx: MatrixCoefficients,
    /// Chroma sample position
    pub chr: ChromaSamplePosition,
    /// Bit depth (8, 10, 12)
    pub bit_depth: usize,
    /// Colour range
    pub color_range: ColorRange,
}

/// The bit depth that dav1d's `hbd` index stands for.
pub open spec fn bit_depth_of_hbd(hbd: u8) -> int {
    8 + 2 * hbd
}

/// Whether `h` is the reading of the raw header `raw`.
pub open spec fn sequence_header_reads(h: SequenceHeader, raw: RawSequenceHeader) -> bool {
    &&& h.profile == raw.profile
    &&& h.max_width == raw.max_width as usize
    &&& h.max_height == raw.max_height as usize
    &&& h.layout.decodes(raw.layout)
    &&& h.pri.decodes(raw.pri)
    &&& h.trc.decodes(raw.trc)
    &&& h.mtrx.decodes(raw.mtrx)
    &&& h.chr.decodes(raw.chr)
    &&& h.bit_depth == bit_depth_of_hbd(raw.hbd)
    &&& h.color_range == ColorRange::spec_from_raw(raw.color_range)
}

/// Every sequence header that `sequence_header_from_parse` returns has a
/// bit depth of 8, 10 or 12.
pub proof fn lemma_sequence_header_bit_depth(h: SequenceHeader, raw: RawSequenceHeader)
    requires
        sequence_header_reads(h, raw),
        raw.hbd <= 2,
    ensures
        h.bit_depth == 8 || h.bit_depth == 10 || h.bit_depth == 12,
{
}

/// A sequence header is read field by field: the profile is the raw
/// profile, the maximum sizes are the raw ones, and the bit depth is 8, 10
/// or 12 for `hbd` 0, 1 or 2.
pub proof fn lemma_sequence_header_fields(h: SequenceHeader, raw: RawSequenceHeader)
    requires
        sequence_header_reads(h, raw),
    ensures
        h.profile == raw.profile,
        raw.max_width >= 0 ==> h.max_width == raw.max_width,
        raw.max_height >= 0 ==> h.max_height == raw.max_height,
        raw.hbd == 0 ==> h.bit_depth == 8,
        raw.hbd == 1 ==> h.bit_depth == 10,
        raw.hbd == 2 ==> h.bit_depth == 12,
{
}

/// The outcome of `parse_sequence_header` for the return code of
/// `dav1d_parse_sequence_header` and the header it filled in.
///
/// A nonzero code is the error of that call.  A header whose `hbd` is not
/// one of 0, 1, 2 is refused with `EINVAL`.  Otherwise the header is read
/// field by field; unknown layout and colour codes read as the fallback
/// variants.
pub fn sequence_header_from_parse(code: i32, raw: RawSequenceHeader) -> (r: Result<
    SequenceHeader,
    Error,
>)
    ensures
        match r {
            Ok(h) => code == 0 && raw.hbd <= 2 && sequence_header_reads(h, raw),
            Err(e) => if code != 0 {
                e@ == (code, "dav1d_parse_sequence_header"@)
            } else {
                raw.hbd > 2 && e@ == (-(raw::EINVAL as int) as i32, "dav1d_parse_sequence_header"@)
            },
        },
{
    Error::check(code, "dav1d_parse_sequence_header")?;
    let bit_depth: usize = match raw.hbd {
        0 => 8,
        1 => 10,
        2 => 12,
        _ => {
            return Err(Error::new(-(raw::EINVAL as i32), "dav1d_parse_sequence_header"));
        },
    };
    Ok(
        SequenceHeader {
            profile: raw.profile,
            max_width: raw.max_width as usize,
            max_height: raw.max_height as usize,
            layout: PixelLayout::from_raw(raw.layout),
            pri: ColorPrimaries::from_raw(raw.pri),
            trc: TransferCharacteristics::from_raw(raw.trc),
            mtrx: MatrixCoefficients::from_raw(raw.mtrx),
            chr: ChromaSamplePosition::from_raw(raw.chr),
            bit_depth,
            color_range: ColorRange::from_raw(raw.color_range),
        },
    )
}

/// Data properties of the input that caused the last decoding error.
#[derive(Debug, Clone, Copy, PartialEq, Eq, Structural)]
pub struct DataProps {
    /// Container timestamp (`i64::MIN` when unknown)
    pub timestamp: i64,
    /// Container duration (0 when unknown)
    pub duration: i64,
    /// Offset in the stream (-1 when unknown)
    pub offset: i64,
    /// Packet size
    pub size: usize,
}

/// Content light level (HDR metadata).
#[derive(Debug, Clone, Copy, PartialEq, Eq, Structural)]
pub struct ContentLightLevel {
    /// Maximum content light level (cd/m²)
    pub max_content_light_level: u16,
    /// Maximum frame-average light level (cd/m²)
    pub max_frame_average_light_level: u16,
}

/// Mastering display information (HDR metadata).
#[derive(Debug, Clone, Copy, PartialEq, Eq)]
pub struct MasteringDisplay {
    /// Chromaticity of the primaries (R, G, B), each (x, y) in 0.16 fixed point
    pub primaries: [[u16; 2]; 3],
    /// White point (x, y) in 0.16 fixed point
    pub white_point: [u16; 2],
    /// Maximum luminance in 24.8 fixed point (cd/m²)
    pub max_luminance: u32,
    /// Minimum luminance in 18.14 fixed point (cd/m²)
    pub min_luminance: u32,
}

} // verus!
