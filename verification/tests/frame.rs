use shiguredo_dav1d::{
    ChromaSamplePosition, ColorPrimaries, ColorRange, ContentLightLevel, DecodedFrame,
    FrameHeaderInfo, FrameType, MasteringDisplay, MatrixCoefficients, PictureInfo, PixelLayout,
    RawSequenceHeader, TransferCharacteristics,
};

fn info(layout: u32, bpc: i32, w: i32, h: i32, y_stride: isize, uv_stride: isize) -> PictureInfo {
    PictureInfo {
        layout,
        bpc,
        w,
        h,
        y_stride,
        uv_stride,
        frame_header: None,
        sequence_header: None,
        content_light: None,
        mastering_display: None,
    }
}

fn bytes(n: usize) -> Vec<u8> {
    (0..n).map(|i| (i % 251) as u8).collect()
}

#[test]
fn i420_odd_height_planes() {
    // 3x3 4:2:0: two chroma rows; the allocations are larger than exposed.
    let frame = DecodedFrame::new(info(1, 8, 3, 3, 4, 2), bytes(20), bytes(10), bytes(10));
    assert_eq!(frame.pixel_layout(), PixelLayout::I420);
    assert_eq!(frame.width(), 3);
    assert_eq!(frame.height(), 3);
    assert_eq!(frame.chroma_height(), 2);
    assert_eq!(frame.y_stride(), 4);
    assert_eq!(frame.u_stride(), 2);
    assert_eq!(frame.v_stride(), 2);
    assert_eq!(frame.y_plane(), &bytes(20)[..12]);
    assert_eq!(frame.u_plane(), &bytes(10)[..4]);
    assert_eq!(frame.v_plane(), &bytes(10)[..4]);
    assert_eq!(frame.bit_depth(), 8);
    assert!(!frame.is_high_depth());
    assert_eq!(frame.y_plane_u16(), None);
    assert_eq!(frame.u_plane_u16(), None);
    assert_eq!(frame.v_plane_u16(), None);
}

#[test]
fn chroma_height_per_layout() {
    for (layout, expected) in [(0u32, 0usize), (1, 4), (2, 7), (3, 7), (4, 0)] {
        let frame = DecodedFrame::new(info(layout, 8, 8, 7, 8, 8), vec![], vec![], vec![]);
        assert_eq!(frame.chroma_height(), expected);
    }
    let even = DecodedFrame::new(info(1, 8, 8, 8, 8, 4), vec![], vec![], vec![]);
    assert_eq!(even.chroma_height(), 4);
}

#[test]
fn monochrome_frame_has_no_chroma() {
    let frame = DecodedFrame::new(info(0, 8, 4, 2, 4, 4), bytes(8), vec![], vec![]);
    assert_eq!(frame.pixel_layout(), PixelLayout::I400);
    assert_eq!(frame.y_plane().len(), 8);
    assert!(frame.u_plane().is_empty());
    assert!(frame.v_plane().is_empty());
    assert_eq!(frame.u_stride(), 4);
}

#[test]
fn high_depth_samples_are_little_endian() {
    // 2x2 4:4:4 10-bit, 4 bytes per row.
    let y = vec![0x01, 0x02, 0xff, 0x03, 0x00, 0x00, 0x34, 0x12];
    let u = vec![0x10, 0x00, 0x20, 0x00, 0x30, 0x00, 0x40, 0x00];
    let v = vec![0xff, 0xff, 0x00, 0x01, 0x02, 0x00, 0x03, 0x00];
    let frame = DecodedFrame::new(info(3, 10, 2, 2, 4, 4), y, u, v);
    assert!(frame.is_high_depth());
    assert_eq!(frame.bit_depth(), 10);
    assert_eq!(frame.y_plane_u16(), Some(vec![0x0201, 0x03ff, 0x0000, 0x1234]));
    assert_eq!(frame.u_plane_u16(), Some(vec![0x10, 0x20, 0x30, 0x40]));
    assert_eq!(frame.v_plane_u16(), Some(vec![0xffff, 0x0100, 0x0002, 0x0003]));
    assert_eq!(frame.y_plane().len(), 8);
}

#[test]
fn high_depth_monochrome_has_no_chroma_samples() {
    let frame = DecodedFrame::new(info(0, 12, 1, 1, 2, 2), vec![0x00, 0x08], vec![], vec![]);
    assert_eq!(frame.y_plane_u16(), Some(vec![0x0800]));
    assert_eq!(frame.u_plane_u16(), None);
    assert_eq!(frame.v_plane_u16(), None);
}

#[test]
fn odd_byte_count_drops_the_last_byte() {
    // 3 rows of 3 bytes: 9 bytes read as 4 samples.
    let frame = DecodedFrame::new(info(0, 10, 1, 3, 3, 0), bytes(9), vec![], vec![]);
    assert_eq!(frame.y_plane_u16(), Some(vec![0x0100, 0x0302, 0x0504, 0x0706]));
}

#[test]
fn metadata_is_none_without_headers() {
    let frame = DecodedFrame::new(info(1, 8, 2, 2, 2, 1), bytes(4), bytes(1), bytes(1));
    assert_eq!(frame.frame_type(), None);
    assert_eq!(frame.temporal_id(), None);
    assert_eq!(frame.spatial_id(), None);
    assert_eq!(frame.show_frame(), None);
    assert_eq!(frame.color_primaries(), None);
    assert_eq!(frame.transfer_characteristics(), None);
    assert_eq!(frame.matrix_coefficients(), None);
    assert_eq!(frame.chroma_sample_position(), None);
    assert_eq!(frame.color_range(), None);
    assert_eq!(frame.profile(), None);
    assert_eq!(frame.content_light_level(), None);
    assert_eq!(frame.mastering_display(), None);
}

#[test]
fn metadata_is_read_from_headers() {
    let mut i = info(1, 8, 2, 2, 2, 1);
    i.frame_header = Some(FrameHeaderInfo { frame_type: 0, temporal_id: 1, spatial_id: 2, show_frame: 1 });
    i.sequence_header = Some(RawSequenceHeader {
        profile: 1,
        max_width: 2,
        max_height: 2,
        layout: 1,
        pri: 9,
        trc: 16,
        mtrx: 9,
        chr: 1,
        hbd: 0,
        color_range: 1,
    });
    let cll = ContentLightLevel { max_content_light_level: 1000, max_frame_average_light_level: 400 };
    let md = MasteringDisplay {
        primaries: [[34000, 16000], [13250, 34500], [7500, 3000]],
        white_point: [15635, 16450],
        max_luminance: 1000 << 8,
        min_luminance: 50,
    };
    i.content_light = Some(cll);
    i.mastering_display = Some(md);
    let frame = DecodedFrame::new(i, bytes(4), bytes(1), bytes(1));
    assert_eq!(frame.frame_type(), Some(FrameType::Key));
    assert_eq!(frame.temporal_id(), Some(1));
    assert_eq!(frame.spatial_id(), Some(2));
    assert_eq!(frame.show_frame(), Some(true));
    assert_eq!(frame.color_primaries(), Some(ColorPrimaries::BT2020));
    assert_eq!(frame.transfer_characteristics(), Some(TransferCharacteristics::SMPTE2084));
    assert_eq!(frame.matrix_coefficients(), Some(MatrixCoefficients::BT2020NCL));
    assert_eq!(frame.chroma_sample_position(), Some(ChromaSamplePosition::Vertical));
    assert_eq!(frame.color_range(), Some(ColorRange::Full));
    assert_eq!(frame.profile(), Some(1));
    assert_eq!(frame.content_light_level(), Some(cll));
    assert_eq!(frame.mastering_display(), Some(md));
}

#[test]
fn hidden_frame_and_unknown_frame_type() {
    let mut i = info(1, 8, 2, 2, 2, 1);
    i.frame_header = Some(FrameHeaderInfo { frame_type: 9, temporal_id: 0, spatial_id: 0, show_frame: 0 });
    let frame = DecodedFrame::new(i, bytes(4), bytes(1), bytes(1));
    assert_eq!(frame.frame_type(), Some(FrameType::Unknown));
    assert_eq!(frame.show_frame(), Some(false));
}

#[test]
fn reserved_layout_has_no_chroma() {
    let frame = DecodedFrame::new(info(7, 8, 2, 2, 2, 1), bytes(4), vec![], vec![]);
    assert_eq!(frame.pixel_layout(), PixelLayout::Reserved);
    assert_eq!(frame.y_plane().len(), 4);
    assert_eq!(frame.chroma_height(), 0);
    assert!(frame.u_plane().is_empty());
    assert!(frame.v_plane().is_empty());
    assert_eq!(frame.u_stride(), 1);
    assert_eq!(frame.u_plane_u16(), None);
    assert_eq!(frame.v_plane_u16(), None);
}

#[test]
fn reserved_high_depth_layout_has_luma_samples_only() {
    let frame = DecodedFrame::new(info(5, 10, 1, 1, 2, 2), vec![0x01, 0x02], vec![], vec![]);
    assert_eq!(frame.y_plane_u16(), Some(vec![0x0201]));
    assert_eq!(frame.u_plane_u16(), None);
    assert_eq!(frame.v_plane_u16(), None);
}
