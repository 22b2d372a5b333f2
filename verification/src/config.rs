//! Decoder configuration and its translation into dav1d settings.
use vstd::prelude::*;

use crate::error::Error;
use crate::flags::{DecodeFrameType, InloopFilterType};

verus! {

/// Decoder configuration.
#[derive(Debug, Clone)]
pub struct DecoderConfig {
    /// Number of decoding threads (0: decided by dav1d from the number of
    /// logical cores)
    pub n_threads: usize,
    /// Maximum frame delay (0: decided by dav1d; 1: low-latency decoding)
    pub max_frame_delay: usize,
    /// Whether film grain is applied
    pub apply_grain: bool,
    /// Operating point of scalable AV1 streams (0-31)
    pub operating_point: usize,
    /// Whether all spatial layers of scalable AV1 streams are output
    pub all_layers: bool,
    /// Maximum frame size in pixels (`None`: unlimited)
    pub frame_size_limit: Option<u32>,
    /// Whether decoding stops on standard violations that do not affect
    /// the decoding itself (inconsistent or invalid metadata)
    pub strict_std_compliance: bool,
    /// Whether invisible frames are output too (in coding order)
    pub output_invisible_frames: bool,
    /// In-loop filters to enable
    pub inloop_filters: InloopFilterType,
    /// Which frames to decode
    pub decode_frame_type: DecodeFrameType,
}

/// The fields of `Dav1dSettings` that the configuration sets, with the C
/// types of those fields.  The remaining fields keep the values of
/// `dav1d_default_settings`.
#[derive(Debug, Clone, Copy, PartialEq, Eq, Structural)]
pub struct DecoderSettings {
    /// `n_threads`
    pub n_threads: i32,
    /// `max_frame_delay`
    pub max_frame_delay: i32,
    /// `apply_grain`
    pub apply_grain: i32,
    /// `operating_point`
    pub operating_point: i32,
    /// `all_layers`
    pub all_layers: i32,
    /// `frame_size_limit` (0: unlimited)
    pub frame_size_limit: u32,
    /// `strict_std_compliance`
    pub strict_std_compliance: i32,
    /// `output_invisible_frames`
    pub output_invisible_frames: i32,
    /// `inloop_filters`
    pub inloop_filters: u32,
    /// `decode_frame_type`
    pub decode_frame_type: u32,
}

/// The C truth value of a flag.
pub open spec fn c_bool(b: bool) -> i32 {
    if b {
        1
    } else {
        0
    }
}

/// A flag is written as a C truth value: nonzero exactly when it is set,
/// and 1 when it is set.
pub proof fn lemma_c_bool_law(b: bool)
    ensures
        (c_bool(b) != 0) == b,
        b ==> c_bool(b) == 1,
{
}

fn to_c_bool(b: bool) -> (r: i32)
    ensures
        r == c_bool(b),
{
    if b {
        1
    } else {
        0
    }
}

/// The default configuration: one thread, frame delay decided by dav1d,
/// film grain applied, operating point 0, all layers output, no frame
/// size limit, no strict compliance, no invisible frames, all in-loop
/// filters, all frames decoded.
pub open spec fn is_default_config(c: DecoderConfig) -> bool {
    &&& c.n_threads == 1
    &&& c.max_frame_delay == 0
    &&& c.apply_grain
    &&& c.operating_point == 0
    &&& c.all_layers
    &&& c.frame_size_limit is None
    &&& !c.strict_std_compliance
    &&& !c.output_invisible_frames
    &&& c.inloop_filters@ == crate::raw::INLOOPFILTER_ALL
    &&& c.decode_frame_type == DecodeFrameType::All
}

impl DecoderConfig {
    /// The configuration with the default settings.
    ///
    /// Set `n_threads` for multi-threaded decoding.
    pub fn new() -> (r: Self)
        ensures
            is_default_config(r),
    {
        DecoderConfig {
            n_threads: 1,
            max_frame_delay: 0,
            apply_grain: true,
            operating_point: 0,
            all_layers: true,
            frame_size_limit: None,
            strict_std_compliance: false,
            output_invisible_frames: false,
            inloop_filters: InloopFilterType::ALL(),
            decode_frame_type: DecodeFrameType::All,
        }
    }

    /// The values that `Decoder::new` writes into `Dav1dSettings`.
    ///
    /// The counts are converted to C `int` as `as` does (keeping the low
    /// 32 bits); an absent frame size limit is written as 0.
    pub fn settings(&self) -> (r: DecoderSettings)
        ensures
            r.n_threads == self.n_threads as i32,
            r.max_frame_delay == self.max_frame_delay as i32,
            r.apply_grain == c_bool(self.apply_grain),
            r.operating_point == self.operating_point as i32,
            r.all_layers == c_bool(self.all_layers),
            r.frame_size_limit == match self.frame_size_limit {
                Some(limit) => limit,
                None => 0u32,
            },
            r.strict_std_compliance == c_bool(self.strict_std_compliance),
            r.output_invisible_frames == c_bool(self.output_invisible_frames),
            r.inloop_filters == self.inloop_filters@,
            r.decode_frame_type == self.decode_frame_type.raw_code(),
    {
        DecoderSettings {
            n_threads: self.n_threads as i32,
            max_frame_delay: self.max_frame_delay as i32,
            apply_grain: to_c_bool(self.apply_grain),
            operating_point: self.operating_point as i32,
            all_layers: to_c_bool(self.all_layers),
            frame_size_limit: match self.frame_size_limit {
                Some(limit) => limit,
                None => 0,
            },
            strict_std_compliance: to_c_bool(self.strict_std_compliance),
            output_invisible_frames: to_c_bool(self.output_invisible_frames),
            inloop_filters: self.inloop_filters.to_raw(),
            decode_frame_type: self.decode_frame_type.to_raw(),
        }
    }
}

impl Default for DecoderConfig {
    /// The same configuration as `DecoderConfig::new()`.
    fn default() -> (r: Self)
        ensures
            is_default_config(r),
    {
        DecoderConfig::new()
    }
}

/// The frame delay for the return code of `dav1d_get_frame_delay`: a
/// negative code is the error of that call, any other code is the delay.
pub fn frame_delay_from_code(code: i32) -> (r: Result<usize, Error>)
    ensures
        r is Ok <==> code >= 0,
        r matches Ok(d) ==> d == code,
        r matches Err(e) ==> e@ == (code, "dav1d_get_frame_delay"@),
{
    if code < 0 {
        return Err(Error::new(code, "dav1d_get_frame_delay"));
    }
    Ok(code as usize)
}

} // verus!
