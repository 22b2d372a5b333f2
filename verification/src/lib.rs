//! Verified core of a Rust binding to the dav1d AV1 decoder.
//!
//! The library holds everything the binding decides by itself: the
//! decoding of dav1d's numeric codes into Rust enums, the decoder
//! configuration and its translation into dav1d settings, the error
//! values and their messages, the sequence header conversion, the frame
//! accessors (plane extents, chroma subsampling, high bit depth samples)
//! and the codec capability table.  The calls into the C library itself
//! are made by the surrounding application code, which hands the results
//! to the functions here as plain values.
pub mod codec_info;
pub mod color;
pub mod config;
pub mod error;
pub mod flags;
pub mod frame;
pub mod header;
pub mod raw;

pub use codec_info::{
    is_dav1d_decoding, is_dav1d_encoding, supported_codecs, Av1DecodingProfile, CodecInfo,
    DecodingInfo, DecodingProfiles, EncodingInfo, EncodingProfiles, VideoCodecType,
};
pub use color::{
    lemma_chroma_sample_position_decoding, lemma_color_primaries_decoding,
    lemma_frame_type_decoding, lemma_matrix_coefficients_decoding, lemma_pixel_layout_decoding,
    lemma_transfer_characteristics_decoding, ChromaSamplePosition, ColorPrimaries, ColorRange,
    FrameType, MatrixCoefficients, PixelLayout, TransferCharacteristics,
};
pub use config::{
    c_bool, frame_delay_from_code, is_default_config, lemma_c_bool_law, DecoderConfig,
    DecoderSettings,
};
pub use error::{
    code_magnitude, decimal_digits, digit_char, digits_value, errno_suffix, error_message,
    lemma_code_magnitude_law, lemma_decimal_digits_law, signed_decimal, Error,
};
pub use flags::{
    lemma_decode_frame_type_code_injective, lemma_event_flags_contains_reflexive,
    lemma_inloop_filter_bitor_absorbing, lemma_inloop_filter_bitor_associative,
    lemma_inloop_filter_bitor_commutative, lemma_inloop_filter_bitor_identity,
    lemma_inloop_filter_view_injective, DecodeFrameType, EventFlags, InloopFilterType,
};
pub use frame::{
    chroma_plane_len, chroma_rows, frame_height, has_chroma, high_depth, le_sample,
    lemma_chroma_plane_len_ignores_depth, lemma_chroma_plane_len_law, lemma_chroma_rows_law,
    lemma_frame_height_law, lemma_high_depth_law, lemma_le_sample_law,
    lemma_luma_plane_len_law, lemma_luma_samples_cover_plane, luma_plane_len, next_frame_status,
    samples_of, DecodedFrame, DecodedFrameView, FrameHeaderInfo, PictureInfo,
};
pub use header::{
    bit_depth_of_hbd, lemma_sequence_header_bit_depth, lemma_sequence_header_fields,
    sequence_header_from_parse, sequence_header_reads, ContentLightLevel, DataProps, MasteringDisplay, RawSequenceHeader,
    SequenceHeader,
};
