use shiguredo_dav1d::{
    supported_codecs, Av1DecodingProfile, CodecInfo, DecodingInfo, DecodingProfiles,
    EncodingInfo, EncodingProfiles, VideoCodecType,
};

#[test]
fn supported_codecs_returns_one_codec() {
    let codecs = supported_codecs();
    assert_eq!(codecs.len(), 1);
    assert_eq!(codecs[0].codec, VideoCodecType::Av1);
}

#[test]
fn av1_codec_info() {
    let codecs = supported_codecs();
    let av1 = &codecs[0];
    assert_eq!(
        *av1,
        CodecInfo {
            codec: VideoCodecType::Av1,
            decoding: DecodingInfo {
                supported: true,
                hardware_accelerated: false,
                profiles: DecodingProfiles::Av1(vec![
                    Av1DecodingProfile::Main,
                    Av1DecodingProfile::High,
                    Av1DecodingProfile::Professional,
                ]),
            },
            encoding: EncodingInfo {
                supported: false,
                hardware_accelerated: false,
                profiles: EncodingProfiles::NoProfile,
            },
        }
    );
}

#[test]
fn codec_info_is_decode_only_software() {
    for info in supported_codecs() {
        assert!(info.decoding.supported);
        assert!(!info.decoding.hardware_accelerated);
        assert!(!info.encoding.supported);
        assert!(!info.encoding.hardware_accelerated);
    }
}
