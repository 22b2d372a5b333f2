//! What this backend can do, per codec.
//!
//! dav1d is a software AV1 decoder: AV1 can be decoded (all profiles), no
//! codec can be encoded, and nothing is hardware accelerated.
use vstd::prelude::*;

verus! {

/// Codec type.
#[derive(Debug, Clone, Copy, PartialEq, Eq, Structural)]
pub enum VideoCodecType {
    /// AV1
    Av1,
}

impl VideoCodecType {
    /// Every codec type.
    fn all() -> (r: Vec<Self>)
        ensures
            r@ == seq![VideoCodecType::Av1],
    {
        vec![VideoCodecType::Av1]
    }
}

/// Information on one codec.
#[derive(Debug, Clone, PartialEq, Eq)]
pub struct CodecInfo {
    /// Codec type
    pub codec: VideoCodecType,
    /// Decoding information
    pub decoding: DecodingInfo,
    /// Encoding information
    pub encoding: EncodingInfo,
}

/// Decoding information.
#[derive(Debug, Clone, PartialEq, Eq)]
pub struct DecodingInfo {
    /// Whether decoding is possible
    pub supported: bool,
    /// Whether hardware acceleration is available
    pub hardware_accelerated: bool,
    /// Codec specific profile information
    pub profiles: DecodingProfiles,
}

/// Encoding information.
#[derive(Debug, Clone, PartialEq, Eq)]
pub struct EncodingInfo {
    /// Whether encoding is possible
    pub supported: bool,
    /// Whether hardware acceleration is available
    pub hardware_accelerated: bool,
    /// Codec specific profile information
    pub profiles: EncodingProfiles,
}

/// Codec specific decoding profile information.
#[derive(Debug, Clone, PartialEq, Eq)]
pub enum DecodingProfiles {
    /// The AV1 profiles that can be decoded
    Av1(Vec<Av1DecodingProfile>),
}

/// Codec specific encoding profile information.
#[derive(Debug, Clone, PartialEq, Eq)]
pub enum EncodingProfiles {
    /// No profile information (encoding is not supported)
    NoProfile,
}

/// AV1 decoding profile.
#[derive(Debug, Clone, Copy, PartialEq, Eq, Structural)]
pub enum Av1DecodingProfile {
    /// Main (8/10-bit 4:2:0)
    Main,
    /// High (8/10-bit 4:2:0/4:4:4)
    High,
    /// Professional (8/10/12-bit, every subsampling)
    Professional,
}

/// The decoding capabilities of dav1d: supported, in software, for the
/// Main, High and Professional AV1 profiles.
pub open spec fn is_dav1d_decoding(d: DecodingInfo) -> bool {
    &&& d.supported
    &&& !d.hardware_accelerated
    &&& match d.profiles {
        DecodingProfiles::Av1(p) => p@ == seq![
            Av1DecodingProfile::Main,
            Av1DecodingProfile::High,
            Av1DecodingProfile::Professional,
        ],
    }
}

/// The encoding capabilities of dav1d: none.
pub open spec fn is_dav1d_encoding(e: EncodingInfo) -> bool {
    &&& !e.supported
    &&& !e.hardware_accelerated
    &&& e.profiles == EncodingProfiles::NoProfile
}

/// The codecs available with this backend: one entry, AV1, decodable in
/// software for every AV1 profile, not encodable.
pub fn supported_codecs() -> (r: Vec<CodecInfo>)
    ensures
        r@.len() == 1,
        r@[0].codec == VideoCodecType::Av1,
        is_dav1d_decoding(r@[0].decoding),
        is_dav1d_encoding(r@[0].encoding),
{
    let codecs = VideoCodecType::all();
    let mut r: Vec<CodecInfo> = Vec::new();
    let mut i: usize = 0;
    while i < codecs.len()
        invariant
            codecs@ == seq![VideoCodecType::Av1],
            i <= codecs@.len(),
            r@.len() == i,
            forall|j: int|
                0 <= j < i ==> (#[trigger] r@[j]).codec == codecs@[j] && is_dav1d_decoding(
                    r@[j].decoding,
                ) && is_dav1d_encoding(r@[j].encoding),
        decreases codecs@.len() - i,
    {
        r.push(CodecInfo { codec: codecs[i], decoding: decoding_info(), encoding: encoding_info() });
        i = i + 1;
    }
    r
}

/// The decoding information of dav1d.
fn decoding_info() -> (r: DecodingInfo)
    ensures
        is_dav1d_decoding(r),
{
    DecodingInfo {
        supported: true,
        hardware_accelerated: false,
        profiles: DecodingProfiles::Av1(
            vec![
                Av1DecodingProfile::Main,
                Av1DecodingProfile::High,
                Av1DecodingProfile::Professional,
            ],
        ),
    }
}

/// The encoding information of dav1d.
fn encoding_info() -> (r: EncodingInfo)
    ensures
        is_dav1d_encoding(r),
{
    EncodingInfo { supported: false, hardware_accelerated: false, profiles: EncodingProfiles::NoProfile }
}

} // verus!
