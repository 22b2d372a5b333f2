use shiguredo_dav1d::{
    sequence_header_from_parse, ChromaSamplePosition, ColorPrimaries, ColorRange,
    MatrixCoefficients, PixelLayout, RawSequenceHeader, TransferCharacteristics,
};

fn raw_header() -> RawSequenceHeader {
    RawSequenceHeader {
        profile: 0,
        max_width: 1920,
        max_height: 1080,
        layout: 1,
        pri: 1,
        trc: 13,
        mtrx: 6,
        chr: 2,
        hbd: 0,
        color_range: 0,
    }
}

#[test]
fn header_fields_are_read() {
    let h = sequence_header_from_parse(0, raw_header()).unwrap();
    assert_eq!(h.profile, 0);
    assert_eq!(h.max_width, 1920);
    assert_eq!(h.max_height, 1080);
    assert_eq!(h.layout, PixelLayout::I420);
    assert_eq!(h.pri, ColorPrimaries::BT709);
    assert_eq!(h.trc, TransferCharacteristics::Srgb);
    assert_eq!(h.mtrx, MatrixCoefficients::BT601);
    assert_eq!(h.chr, ChromaSamplePosition::Colocated);
    assert_eq!(h.bit_depth, 8);
    assert_eq!(h.color_range, ColorRange::Studio);
}

#[test]
fn hbd_gives_the_bit_depth() {
    for (hbd, depth) in [(0u8, 8usize), (1, 10), (2, 12)] {
        let mut raw = raw_header();
        raw.hbd = hbd;
        assert_eq!(sequence_header_from_parse(0, raw).unwrap().bit_depth, depth);
    }
}

#[test]
fn unknown_hbd_is_an_error() {
    let mut raw = raw_header();
    raw.hbd = 3;
    let e = sequence_header_from_parse(0, raw).unwrap_err();
    assert_eq!(e.code(), -22);
    assert_eq!(e.function(), "dav1d_parse_sequence_header");
}

#[test]
fn failed_parse_is_the_error_of_the_call() {
    // dav1d answers ENOENT when the data holds no sequence header.
    let e = sequence_header_from_parse(-2, raw_header()).unwrap_err();
    assert_eq!(e.code(), -2);
    assert_eq!(e.function(), "dav1d_parse_sequence_header");
    assert_eq!(e.message(11), "dav1d_parse_sequence_header() failed: code=-2");
}

#[test]
fn unknown_codes_read_as_fallbacks() {
    let mut raw = raw_header();
    raw.layout = 9;
    raw.pri = 3;
    raw.trc = 0;
    raw.mtrx = 3;
    raw.chr = 7;
    raw.color_range = 1;
    let h = sequence_header_from_parse(0, raw).unwrap();
    assert_eq!(h.layout, PixelLayout::Reserved);
    assert_eq!(h.pri, ColorPrimaries::Reserved);
    assert_eq!(h.trc, TransferCharacteristics::Reserved);
    assert_eq!(h.mtrx, MatrixCoefficients::Reserved);
    assert_eq!(h.chr, ChromaSamplePosition::Unknown);
    assert_eq!(h.color_range, ColorRange::Full);
}
