//! Numeric codes of the dav1d C API.
//!
//! These are the values that dav1d writes into its public structures
//! (`Dav1dPictureParameters`, `Dav1dSequenceHeader`, `Dav1dFrameHeader`, ...)
//! and the values it expects in `Dav1dSettings`.  The conversions of this
//! crate translate between them and the Rust enums.
use vstd::prelude::*;

verus! {

/// `DAV1D_PIXEL_LAYOUT_I400`
pub const PIXEL_LAYOUT_I400: u32 = 0;
/// `DAV1D_PIXEL_LAYOUT_I420`
pub const PIXEL_LAYOUT_I420: u32 = 1;
/// `DAV1D_PIXEL_LAYOUT_I422`
pub const PIXEL_LAYOUT_I422: u32 = 2;
/// `DAV1D_PIXEL_LAYOUT_I444`
pub const PIXEL_LAYOUT_I444: u32 = 3;

/// `DAV1D_COLOR_PRI_BT709`
pub const COLOR_PRI_BT709: u32 = 1;
/// `DAV1D_COLOR_PRI_UNKNOWN`
pub const COLOR_PRI_UNKNOWN: u32 = 2;
/// `DAV1D_COLOR_PRI_BT470M`
pub const COLOR_PRI_BT470M: u32 = 4;
/// `DAV1D_COLOR_PRI_BT470BG`
pub const COLOR_PRI_BT470BG: u32 = 5;
/// `DAV1D_COLOR_PRI_BT601`
pub const COLOR_PRI_BT601: u32 = 6;
/// `DAV1D_COLOR_PRI_SMPTE240`
pub const COLOR_PRI_SMPTE240: u32 = 7;
/// `DAV1D_COLOR_PRI_FILM`
pub const COLOR_PRI_FILM: u32 = 8;
/// `DAV1D_COLOR_PRI_BT2020`
pub const COLOR_PRI_BT2020: u32 = 9;
/// `DAV1D_COLOR_PRI_XYZ`
pub const COLOR_PRI_XYZ: u32 = 10;
/// `DAV1D_COLOR_PRI_SMPTE431`
pub const COLOR_PRI_SMPTE431: u32 = 11;
/// `DAV1D_COLOR_PRI_SMPTE432`
pub const COLOR_PRI_SMPTE432: u32 = 12;
/// `DAV1D_COLOR_PRI_EBU3213`
pub const COLOR_PRI_EBU3213: u32 = 22;

/// `DAV1D_TRC_BT709`
pub const TRC_BT709: u32 = 1;
/// `DAV1D_TRC_UNKNOWN`
pub const TRC_UNKNOWN: u32 = 2;
/// `DAV1D_TRC_BT470M`
pub const TRC_BT470M: u32 = 4;
/// `DAV1D_TRC_BT470BG`
pub const TRC_BT470BG: u32 = 5;
/// `DAV1D_TRC_BT601`
pub const TRC_BT601: u32 = 6;
/// `DAV1D_TRC_SMPTE240`
pub const TRC_SMPTE240: u32 = 7;
/// `DAV1D_TRC_LINEAR`
pub const TRC_LINEAR: u32 = 8;
/// `DAV1D_TRC_LOG100`
pub const TRC_LOG100: u32 = 9;
/// `DAV1D_TRC_LOG100_SQRT10`
pub const TRC_LOG100_SQRT10: u32 = 10;
/// `DAV1D_TRC_IEC61966`
pub const TRC_IEC61966: u32 = 11;
/// `DAV1D_TRC_BT1361`
pub const TRC_BT1361: u32 = 12;
/// `DAV1D_TRC_SRGB`
pub const TRC_SRGB: u32 = 13;
/// `DAV1D_TRC_BT2020_10BIT`
pub const TRC_BT2020_10BIT: u32 = 14;
/// `DAV1D_TRC_BT2020_12BIT`
pub const TRC_BT2020_12BIT: u32 = 15;
/// `DAV1D_TRC_SMPTE2084`
pub const TRC_SMPTE2084: u32 = 16;
/// `DAV1D_TRC_SMPTE428`
pub const TRC_SMPTE428: u32 = 17;
/// `DAV1D_TRC_HLG`
pub const TRC_HLG: u32 = 18;

/// `DAV1D_MC_IDENTITY`
pub const MC_IDENTITY: u32 = 0;
/// `DAV1D_MC_BT709`
pub const MC_BT709: u32 = 1;
/// `DAV1D_MC_UNKNOWN`
pub const MC_UNKNOWN: u32 = 2;
/// `DAV1D_MC_FCC`
pub const MC_FCC: u32 = 4;
/// `DAV1D_MC_BT470BG`
pub const MC_BT470BG: u32 = 5;
/// `DAV1D_MC_BT601`
pub const MC_BT601: u32 = 6;
/// `DAV1D_MC_SMPTE240`
pub const MC_SMPTE240: u32 = 7;
/// `DAV1D_MC_SMPTE_YCGCO`
pub const MC_SMPTE_YCGCO: u32 = 8;
/// `DAV1D_MC_BT2020_NCL`
pub const MC_BT2020_NCL: u32 = 9;
/// `DAV1D_MC_BT2020_CL`
pub const MC_BT2020_CL: u32 = 10;
/// `DAV1D_MC_SMPTE2085`
pub const MC_SMPTE2085: u32 = 11;
/// `DAV1D_MC_CHROMAT_NCL`
pub const MC_CHROMAT_NCL: u32 = 12;
/// `DAV1D_MC_CHROMAT_CL`
pub const MC_CHROMAT_CL: u32 = 13;
/// `DAV1D_MC_ICTCP`
pub const MC_ICTCP: u32 = 14;

/// `DAV1D_CHR_UNKNOWN`
pub const CHR_UNKNOWN: u32 = 0;
/// `DAV1D_CHR_VERTICAL`
pub const CHR_VERTICAL: u32 = 1;
/// `DAV1D_CHR_COLOCATED`
pub const CHR_COLOCATED: u32 = 2;

/// `DAV1D_FRAME_TYPE_KEY`
pub const FRAME_TYPE_KEY: u32 = 0;
/// `DAV1D_FRAME_TYPE_INTER`
pub const FRAME_TYPE_INTER: u32 = 1;
/// `DAV1D_FRAME_TYPE_INTRA`
pub const FRAME_TYPE_INTRA: u32 = 2;
/// `DAV1D_FRAME_TYPE_SWITCH`
pub const FRAME_TYPE_SWITCH: u32 = 3;

/// `DAV1D_INLOOPFILTER_NONE`
pub const INLOOPFILTER_NONE: u32 = 0;
/// `DAV1D_INLOOPFILTER_DEBLOCK`
pub const INLOOPFILTER_DEBLOCK: u32 = 1;
/// `DAV1D_INLOOPFILTER_CDEF`
pub const INLOOPFILTER_CDEF: u32 = 2;
/// `DAV1D_INLOOPFILTER_RESTORATION`
pub const INLOOPFILTER_RESTORATION: u32 = 4;
/// `DAV1D_INLOOPFILTER_ALL`
pub const INLOOPFILTER_ALL: u32 = 7;

/// `DAV1D_DECODEFRAMETYPE_ALL`
pub const DECODEFRAMETYPE_ALL: u32 = 0;
/// `DAV1D_DECODEFRAMETYPE_REFERENCE`
pub const DECODEFRAMETYPE_REFERENCE: u32 = 1;
/// `DAV1D_DECODEFRAMETYPE_INTRA`
pub const DECODEFRAMETYPE_INTRA: u32 = 2;
/// `DAV1D_DECODEFRAMETYPE_KEY`
pub const DECODEFRAMETYPE_KEY: u32 = 3;

/// `DAV1D_EVENT_FLAG_NEW_SEQUENCE`
pub const EVENT_FLAG_NEW_SEQUENCE: u32 = 1;
/// `DAV1D_EVENT_FLAG_NEW_OP_PARAMS_INFO`
pub const EVENT_FLAG_NEW_OP_PARAMS_INFO: u32 = 2;

/// `ENOMEM` of the C library (the same on Linux, macOS and Windows).
///
/// dav1d reports errors as `DAV1D_ERR(e)`, the negated errno value.
/// `EAGAIN` differs between platforms (11 on Linux and Windows, 35 on
/// macOS), so the functions that look for it take the platform's value as
/// an argument.
pub const ENOMEM: u32 = 12;
/// `EINVAL` of the C library.
pub const EINVAL: u32 = 22;

} // verus!
