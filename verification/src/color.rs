//! Pixel layout, colour description and frame type enums, and their
//! decoding from the numeric codes that dav1d reports.
//!
//! Each enum has a spec function `raw_code` that gives the dav1d code of
//! every variant (`None` for the fallback variant that stands for codes
//! dav1d does not name).  `from_raw` is the inverse of that table: it
//! returns the variant whose code is the argument, and the fallback
//! variant when no variant has that code.
use vstd::prelude::*;

use crate::raw;

verus! {

/// Pixel layout of a picture.
#[derive(Debug, Clone, Copy, PartialEq, Eq, Structural)]
pub enum PixelLayout {
    /// Monochrome (Y only)
    I400,
    /// YUV 4:2:0
    I420,
    /// YUV 4:2:2
    I422,
    /// YUV 4:4:4
    I444,
    /// A layout code that dav1d does not define
    Reserved,
}

impl PixelLayout {
    /// The dav1d code of each layout.
    pub open spec fn raw_code(self) -> Option<u32> {
        match self {
            PixelLayout::I400 => Some(raw::PIXEL_LAYOUT_I400),
            PixelLayout::I420 => Some(raw::PIXEL_LAYOUT_I420),
            PixelLayout::I422 => Some(raw::PIXEL_LAYOUT_I422),
            PixelLayout::I444 => Some(raw::PIXEL_LAYOUT_I444),
            PixelLayout::Reserved => None,
        }
    }

    /// Whether this variant is the reading of the code `raw`: the variant
    /// with that code, or the fallback variant when no variant has it.
    pub open spec fn decodes(self, raw: u32) -> bool {
        match self.raw_code() {
            Some(c) => c == raw,
            None => forall|v: Self| #[trigger] v.raw_code() != Some(raw),
        }
    }

    /// Decodes a dav1d `Dav1dPixelLayout` value.
    pub fn from_raw(raw: u32) -> (r: Self)
        ensures
            r.decodes(raw),
    {
        match raw {
            raw::PIXEL_LAYOUT_I400 => PixelLayout::I400,
            raw::PIXEL_LAYOUT_I420 => PixelLayout::I420,
            raw::PIXEL_LAYOUT_I422 => PixelLayout::I422,
            raw::PIXEL_LAYOUT_I444 => PixelLayout::I444,
            _ => PixelLayout::Reserved,
        }
    }
}

/// Reading a dav1d code as a `PixelLayout` is a function that inverts the
/// code table: a code reads as at most one variant, and a variant with a
/// code reads back from that code.
pub proof fn lemma_pixel_layout_decoding(a: PixelLayout, b: PixelLayout, raw: u32)
    ensures
        a.decodes(raw) && b.decodes(raw) ==> a == b,
        a.raw_code() == Some(raw) ==> a.decodes(raw),
{
}

/// Colour primaries (ITU-T H.273).
#[derive(Debug, Clone, Copy, PartialEq, Eq, Structural)]
pub enum ColorPrimaries {
    /// ITU-R BT.709
    BT709,
    /// Unspecified
    Unknown,
    /// ITU-R BT.470M
    BT470M,
    /// ITU-R BT.470BG
    BT470BG,
    /// ITU-R BT.601
    BT601,
    /// SMPTE 240M
    SMPTE240,
    /// Generic film
    Film,
    /// ITU-R BT.2020
    BT2020,
    /// CIE XYZ
    XYZ,
    /// SMPTE 431 (DCI-P3)
    SMPTE431,
    /// SMPTE 432 (Display P3)
    SMPTE432,
    /// EBU 3213-E
    EBU3213,
    /// A reserved or unsupported code
    Reserved,
}

impl ColorPrimaries {
    /// The dav1d code of each variant.
    pub open spec fn raw_code(self) -> Option<u32> {
        match self {
            ColorPrimaries::BT709 => Some(raw::COLOR_PRI_BT709),
            ColorPrimaries::Unknown => Some(raw::COLOR_PRI_UNKNOWN),
            ColorPrimaries::BT470M => Some(raw::COLOR_PRI_BT470M),
            ColorPrimaries::BT470BG => Some(raw::COLOR_PRI_BT470BG),
            ColorPrimaries::BT601 => Some(raw::COLOR_PRI_BT601),
            ColorPrimaries::SMPTE240 => Some(raw::COLOR_PRI_SMPTE240),
            ColorPrimaries::Film => Some(raw::COLOR_PRI_FILM),
            ColorPrimaries::BT2020 => Some(raw::COLOR_PRI_BT2020),
            ColorPrimaries::XYZ => Some(raw::COLOR_PRI_XYZ),
            ColorPrimaries::SMPTE431 => Some(raw::COLOR_PRI_SMPTE431),
            ColorPrimaries::SMPTE432 => Some(raw::COLOR_PRI_SMPTE432),
            ColorPrimaries::EBU3213 => Some(raw::COLOR_PRI_EBU3213),
            ColorPrimaries::Reserved => None,
        }
    }

    /// Whether this variant is the reading of the code `raw`: the variant
    /// with that code, or the fallback variant when no variant has it.
    pub open spec fn decodes(self, raw: u32) -> bool {
        match self.raw_code() {
            Some(c) => c == raw,
            None => forall|v: Self| #[trigger] v.raw_code() != Some(raw),
        }
    }

    /// Decodes a `Dav1dColorPrimaries` value.
    pub fn from_raw(raw: u32) -> (r: Self)
        ensures
            r.decodes(raw),
    {
        match raw {
            raw::COLOR_PRI_BT709 => ColorPrimaries::BT709,
            raw::COLOR_PRI_UNKNOWN => ColorPrimaries::Unknown,
            raw::COLOR_PRI_BT470M => ColorPrimaries::BT470M,
            raw::COLOR_PRI_BT470BG => ColorPrimaries::BT470BG,
            raw::COLOR_PRI_BT601 => ColorPrimaries::BT601,
            raw::COLOR_PRI_SMPTE240 => ColorPrimaries::SMPTE240,
            raw::COLOR_PRI_FILM => ColorPrimaries::Film,
            raw::COLOR_PRI_BT2020 => ColorPrimaries::BT2020,
            raw::COLOR_PRI_XYZ => ColorPrimaries::XYZ,
            raw::COLOR_PRI_SMPTE431 => ColorPrimaries::SMPTE431,
            raw::COLOR_PRI_SMPTE432 => ColorPrimaries::SMPTE432,
            raw::COLOR_PRI_EBU3213 => ColorPrimaries::EBU3213,
            _ => ColorPrimaries::Reserved,
        }
    }
}

/// Reading a dav1d code as a `ColorPrimaries` is a function that inverts the code
/// table: a code reads as at most one variant, and a variant with a code
/// reads back from that code.
pub proof fn lemma_color_primaries_decoding(a: ColorPrimaries, b: ColorPrimaries, raw: u32)
    ensures
        a.decodes(raw) && b.decodes(raw) ==> a == b,
        a.raw_code() == Some(raw) ==> a.decodes(raw),
{
}

/// Transfer characteristics (ITU-T H.273).
#[derive(Debug, Clone, Copy, PartialEq, Eq, Structural)]
pub enum TransferCharacteristics {
    /// ITU-R BT.709
    BT709,
    /// Unspecified
    Unknown,
    /// ITU-R BT.470M
    BT470M,
    /// ITU-R BT.470BG
    BT470BG,
    /// ITU-R BT.601
    BT601,
    /// SMPTE 240M
    SMPTE240,
    /// Linear
    Linear,
    /// Logarithmic (100:1)
    Log100,
    /// Logarithmic (100*sqrt(10):1)
    Log100Sqrt10,
    /// IEC 61966-2-4
    IEC61966,
    /// ITU-R BT.1361
    BT1361,
    /// sRGB
    Srgb,
    /// ITU-R BT.2020 10-bit
    BT2020_10bit,
    /// ITU-R BT.2020 12-bit
    BT2020_12bit,
    /// SMPTE 2084 (PQ)
    SMPTE2084,
    /// SMPTE 428
    SMPTE428,
    /// Hybrid log-gamma
    Hlg,
    /// A reserved or unsupported code
    Reserved,
}

impl TransferCharacteristics {
    /// The dav1d code of each variant.
    pub open spec fn raw_code(self) -> Option<u32> {
        match self {
            TransferCharacteristics::BT709 => Some(raw::TRC_BT709),
            TransferCharacteristics::Unknown => Some(raw::TRC_UNKNOWN),
            TransferCharacteristics::BT470M => Some(raw::TRC_BT470M),
            TransferCharacteristics::BT470BG => Some(raw::TRC_BT470BG),
            TransferCharacteristics::BT601 => Some(raw::TRC_BT601),
            TransferCharacteristics::SMPTE240 => Some(raw::TRC_SMPTE240),
            TransferCharacteristics::Linear => Some(raw::TRC_LINEAR),
            TransferCharacteristics::Log100 => Some(raw::TRC_LOG100),
            TransferCharacteristics::Log100Sqrt10 => Some(raw::TRC_LOG100_SQRT10),
            TransferCharacteristics::IEC61966 => Some(raw::TRC_IEC61966),
            TransferCharacteristics::BT1361 => Some(raw::TRC_BT1361),
            TransferCharacteristics::Srgb => Some(raw::TRC_SRGB),
            TransferCharacteristics::BT2020_10bit => Some(raw::TRC_BT2020_10BIT),
            TransferCharacteristics::BT2020_12bit => Some(raw::TRC_BT2020_12BIT),
            TransferCharacteristics::SMPTE2084 => Some(raw::TRC_SMPTE2084),
            TransferCharacteristics::SMPTE428 => Some(raw::TRC_SMPTE428),
            TransferCharacteristics::Hlg => Some(raw::TRC_HLG),
            TransferCharacteristics::Reserved => None,
        }
    }

    /// Whether this variant is the reading of the code `raw`: the variant
    /// with that code, or the fallback variant when no variant has it.
    pub open spec fn decodes(self, raw: u32) -> bool {
        match self.raw_code() {
            Some(c) => c == raw,
            None => forall|v: Self| #[trigger] v.raw_code() != Some(raw),
        }
    }

    /// Decodes a `Dav1dTransferCharacteristics` value.
    pub fn from_raw(raw: u32) -> (r: Self)
        ensures
            r.decodes(raw),
    {
        match raw {
            raw::TRC_BT709 => TransferCharacteristics::BT709,
            raw::TRC_UNKNOWN => TransferCharacteristics::Unknown,
            raw::TRC_BT470M => TransferCharacteristics::BT470M,
            raw::TRC_BT470BG => TransferCharacteristics::BT470BG,
            raw::TRC_BT601 => TransferCharacteristics::BT601,
            raw::TRC_SMPTE240 => TransferCharacteristics::SMPTE240,
            raw::TRC_LINEAR => TransferCharacteristics::Linear,
            raw::TRC_LOG100 => TransferCharacteristics::Log100,
            raw::TRC_LOG100_SQRT10 => TransferCharacteristics::Log100Sqrt10,
            raw::TRC_IEC61966 => TransferCharacteristics::IEC61966,
            raw::TRC_BT1361 => TransferCharacteristics::BT1361,
            raw::TRC_SRGB => TransferCharacteristics::Srgb,
            raw::TRC_BT2020_10BIT => TransferCharacteristics::BT2020_10bit,
            raw::TRC_BT2020_12BIT => TransferCharacteristics::BT2020_12bit,
            raw::TRC_SMPTE2084 => TransferCharacteristics::SMPTE2084,
            raw::TRC_SMPTE428 => TransferCharacteristics::SMPTE428,
            raw::TRC_HLG => TransferCharacteristics::Hlg,
            _ => TransferCharacteristics::Reserved,
        }
    }
}

/// Reading a dav1d code as a `TransferCharacteristics` is a function that inverts the code
/// table: a code reads as at most one variant, and a variant with a code
/// reads back from that code.
pub proof fn lemma_transfer_characteristics_decoding(a: TransferCharacteristics, b: TransferCharacteristics, raw: u32)
    ensures
        a.decodes(raw) && b.decodes(raw) ==> a == b,
        a.raw_code() == Some(raw) ==> a.decodes(raw),
{
}

/// Matrix coefficients (ITU-T H.273).
#[derive(Debug, Clone, Copy, PartialEq, Eq, Structural)]
pub enum MatrixCoefficients {
    /// Identity (RGB)
    Identity,
    /// ITU-R BT.709
    BT709,
    /// Unspecified
    Unknown,
    /// FCC
    FCC,
    /// ITU-R BT.470BG
    BT470BG,
    /// ITU-R BT.601
    BT601,
    /// SMPTE 240M
    SMPTE240,
    /// SMPTE YCgCo
    SMPTEYCgCo,
    /// ITU-R BT.2020 non-constant luminance
    BT2020NCL,
    /// ITU-R BT.2020 constant luminance
    BT2020CL,
    /// SMPTE 2085
    SMPTE2085,
    /// Chromaticity-derived non-constant luminance
    ChromatNCL,
    /// Chromaticity-derived constant luminance
    ChromatCL,
    /// ICtCp
    ICtCp,
    /// A reserved or unsupported code
    Reserved,
}

impl MatrixCoefficients {
    /// The dav1d code of each variant.
    pub open spec fn raw_code(self) -> Option<u32> {
        match self {
            MatrixCoefficients::Identity => Some(raw::MC_IDENTITY),
            MatrixCoefficients::BT709 => Some(raw::MC_BT709),
            MatrixCoefficients::Unknown => Some(raw::MC_UNKNOWN),
            MatrixCoefficients::FCC => Some(raw::MC_FCC),
            MatrixCoefficients::BT470BG => Some(raw::MC_BT470BG),
            MatrixCoefficients::BT601 => Some(raw::MC_BT601),
            MatrixCoefficients::SMPTE240 => Some(raw::MC_SMPTE240),
            MatrixCoefficients::SMPTEYCgCo => Some(raw::MC_SMPTE_YCGCO),
            MatrixCoefficients::BT2020NCL => Some(raw::MC_BT2020_NCL),
            MatrixCoefficients::BT2020CL => Some(raw::MC_BT2020_CL),
            MatrixCoefficients::SMPTE2085 => Some(raw::MC_SMPTE2085),
            MatrixCoefficients::ChromatNCL => Some(raw::MC_CHROMAT_NCL),
            MatrixCoefficients::ChromatCL => Some(raw::MC_CHROMAT_CL),
            MatrixCoefficients::ICtCp => Some(raw::MC_ICTCP),
            MatrixCoefficients::Reserved => None,
        }
    }

    /// Whether this variant is the reading of the code `raw`: the variant
    /// with that code, or the fallback variant when no variant has it.
    pub open spec fn decodes(self, raw: u32) -> bool {
        match self.raw_code() {
            Some(c) => c == raw,
            None => forall|v: Self| #[trigger] v.raw_code() != Some(raw),
        }
    }

    /// Decodes a `Dav1dMatrixCoefficients` value.
    pub fn from_raw(raw: u32) -> (r: Self)
        ensures
            r.decodes(raw),
    {
        match raw {
            raw::MC_IDENTITY => MatrixCoefficients::Identity,
            raw::MC_BT709 => MatrixCoefficients::BT709,
            raw::MC_UNKNOWN => MatrixCoefficients::Unknown,
            raw::MC_FCC => MatrixCoefficients::FCC,
            raw::MC_BT470BG => MatrixCoefficients::BT470BG,
            raw::MC_BT601 => MatrixCoefficients::BT601,
            raw::MC_SMPTE240 => MatrixCoefficients::SMPTE240,
            raw::MC_SMPTE_YCGCO => MatrixCoefficients::SMPTEYCgCo,
            raw::MC_BT2020_NCL => MatrixCoefficients::BT2020NCL,
            raw::MC_BT2020_CL => MatrixCoefficients::BT2020CL,
            raw::MC_SMPTE2085 => MatrixCoefficients::SMPTE2085,
            raw::MC_CHROMAT_NCL => MatrixCoefficients::ChromatNCL,
            raw::MC_CHROMAT_CL => MatrixCoefficients::ChromatCL,
            raw::MC_ICTCP => MatrixCoefficients::ICtCp,
            _ => MatrixCoefficients::Reserved,
        }
    }
}

/// Reading a dav1d code as a `MatrixCoefficients` is a function that inverts the code
/// table: a code reads as at most one variant, and a variant with a code
/// reads back from that code.
pub proof fn lemma_matrix_coefficients_decoding(a: MatrixCoefficients, b: MatrixCoefficients, raw: u32)
    ensures
        a.decodes(raw) && b.decodes(raw) ==> a == b,
        a.raw_code() == Some(raw) ==> a.decodes(raw),
{
}

/// Frame type.
#[derive(Debug, Clone, Copy, PartialEq, Eq, Structural)]
pub enum FrameType {
    /// Key frame
    Key,
    /// Inter frame
    Inter,
    /// Intra-only frame
    Intra,
    /// Switch frame
    Switch,
    /// A frame type code that dav1d does not define
    Unknown,
}

impl FrameType {
    /// The dav1d code of each variant.
    pub open spec fn raw_code(self) -> Option<u32> {
        match self {
            FrameType::Key => Some(raw::FRAME_TYPE_KEY),
            FrameType::Inter => Some(raw::FRAME_TYPE_INTER),
            FrameType::Intra => Some(raw::FRAME_TYPE_INTRA),
            FrameType::Switch => Some(raw::FRAME_TYPE_SWITCH),
            FrameType::Unknown => None,
        }
    }

    /// Whether this variant is the reading of the code `raw`: the variant
    /// with that code, or the fallback variant when no variant has it.
    pub open spec fn decodes(self, raw: u32) -> bool {
        match self.raw_code() {
            Some(c) => c == raw,
            None => forall|v: Self| #[trigger] v.raw_code() != Some(raw),
        }
    }

    /// Decodes a `Dav1dFrameType` value.
    pub fn from_raw(raw: u32) -> (r: Self)
        ensures
            r.decodes(raw),
    {
        match raw {
            raw::FRAME_TYPE_KEY => FrameType::Key,
            raw::FRAME_TYPE_INTER => FrameType::Inter,
            raw::FRAME_TYPE_INTRA => FrameType::Intra,
            raw::FRAME_TYPE_SWITCH => FrameType::Switch,
            _ => FrameType::Unknown,
        }
    }
}

/// Reading a dav1d code as a `FrameType` is a function that inverts the code
/// table: a code reads as at most one variant, and a variant with a code
/// reads back from that code.
pub proof fn lemma_frame_type_decoding(a: FrameType, b: FrameType, raw: u32)
    ensures
        a.decodes(raw) && b.decodes(raw) ==> a == b,
        a.raw_code() == Some(raw) ==> a.decodes(raw),
{
}

/// Chroma sample position.
#[derive(Debug, Clone, Copy, PartialEq, Eq, Structural)]
pub enum ChromaSamplePosition {
    /// Unknown
    Unknown,
    /// Vertically aligned with the luma samples (MPEG-2)
    Vertical,
    /// Co-located with the luma samples (H.264/HEVC)
    Colocated,
}

impl ChromaSamplePosition {
    /// The dav1d code of each variant.
    pub open spec fn raw_code(self) -> u32 {
        match self {
            ChromaSamplePosition::Unknown => raw::CHR_UNKNOWN,
            ChromaSamplePosition::Vertical => raw::CHR_VERTICAL,
            ChromaSamplePosition::Colocated => raw::CHR_COLOCATED,
        }
    }

    /// Whether this variant is the reading of the code `raw`: the variant
    /// with that code, or `Unknown` when no variant has it.
    pub open spec fn decodes(self, raw: u32) -> bool {
        self.raw_code() == raw || (self == ChromaSamplePosition::Unknown && forall|v: Self|
            #[trigger] v.raw_code() != raw)
    }

    /// Decodes a `Dav1dChromaSamplePosition` value; codes that dav1d does
    /// not define read as `Unknown`.
    pub fn from_raw(raw: u32) -> (r: Self)
        ensures
            r.decodes(raw),
    {
        match raw {
            raw::CHR_UNKNOWN => ChromaSamplePosition::Unknown,
            raw::CHR_VERTICAL => ChromaSamplePosition::Vertical,
            raw::CHR_COLOCATED => ChromaSamplePosition::Colocated,
            _ => ChromaSamplePosition::Unknown,
        }
    }
}

/// Reading a dav1d code as a `ChromaSamplePosition` is a function that
/// inverts the code table.
pub proof fn lemma_chroma_sample_position_decoding(
    a: ChromaSamplePosition,
    b: ChromaSamplePosition,
    raw: u32,
)
    ensures
        a.decodes(raw) && b.decodes(raw) ==> a == b,
        a.raw_code() == raw ==> a.decodes(raw),
{
}

/// Colour range.
#[derive(Debug, Clone, Copy, PartialEq, Eq, Structural)]
pub enum ColorRange {
    /// Studio (limited) range: 8-bit Y [16,235], C [16,240]
    Studio,
    /// Full range: 8-bit [0,255]
    Full,
}

impl ColorRange {
    /// The reading of dav1d's `color_range` flag.
    pub open spec fn spec_from_raw(raw: u8) -> Self {
        if raw == 1 {
            ColorRange::Full
        } else {
            ColorRange::Studio
        }
    }

    /// Decodes dav1d's `color_range` flag: `1` is full range, every other
    /// value studio range.
    pub fn from_raw(raw: u8) -> (r: Self)
        ensures
            r == ColorRange::spec_from_raw(raw),
    {
        match raw {
            1 => ColorRange::Full,
            _ => ColorRange::Studio,
        }
    }
}

} // verus!
