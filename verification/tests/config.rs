use shiguredo_dav1d::{DecodeFrameType, DecoderConfig, InloopFilterType};

fn assert_default(config: &DecoderConfig) {
    assert_eq!(config.n_threads, 1);
    assert_eq!(config.max_frame_delay, 0);
    assert!(config.apply_grain);
    assert_eq!(config.operating_point, 0);
    assert!(config.all_layers);
    assert_eq!(config.frame_size_limit, None);
    assert!(!config.strict_std_compliance);
    assert!(!config.output_invisible_frames);
    assert_eq!(config.inloop_filters, InloopFilterType::ALL());
    assert_eq!(config.decode_frame_type, DecodeFrameType::All);
}

#[test]
fn new_config_has_default_values() {
    assert_default(&DecoderConfig::new());
}

#[test]
fn default_config_equals_new() {
    assert_default(&DecoderConfig::default());
}

#[test]
fn default_settings() {
    let s = DecoderConfig::new().settings();
    assert_eq!(s.n_threads, 1);
    assert_eq!(s.max_frame_delay, 0);
    assert_eq!(s.apply_grain, 1);
    assert_eq!(s.operating_point, 0);
    assert_eq!(s.all_layers, 1);
    assert_eq!(s.frame_size_limit, 0);
    assert_eq!(s.strict_std_compliance, 0);
    assert_eq!(s.output_invisible_frames, 0);
    assert_eq!(s.inloop_filters, 7);
    assert_eq!(s.decode_frame_type, 0);
}

#[test]
fn custom_settings() {
    let mut config = DecoderConfig::new();
    config.n_threads = 4;
    config.max_frame_delay = 1;
    config.apply_grain = false;
    config.operating_point = 31;
    config.all_layers = false;
    config.frame_size_limit = Some(1920 * 1080);
    config.strict_std_compliance = true;
    config.output_invisible_frames = true;
    config.inloop_filters = InloopFilterType::DEBLOCK() | InloopFilterType::CDEF();
    config.decode_frame_type = DecodeFrameType::Key;
    let s = config.settings();
    assert_eq!(s.n_threads, 4);
    assert_eq!(s.max_frame_delay, 1);
    assert_eq!(s.apply_grain, 0);
    assert_eq!(s.operating_point, 31);
    assert_eq!(s.all_layers, 0);
    assert_eq!(s.frame_size_limit, 1920 * 1080);
    assert_eq!(s.strict_std_compliance, 1);
    assert_eq!(s.output_invisible_frames, 1);
    assert_eq!(s.inloop_filters, 3);
    assert_eq!(s.decode_frame_type, 3);
}

#[test]
fn settings_keep_the_low_bits_of_large_counts() {
    let mut config = DecoderConfig::new();
    config.n_threads = (1usize << 32) + 2;
    let s = config.settings();
    assert_eq!(s.n_threads, 2);
}
