use png_to_ico::ico_writer::write_ico;
use png_to_ico::ico_writer::write_icon_dir;
use png_to_ico::png_parser::Axis;
use png_to_ico::png_parser::ConvertError;
use png_to_ico::png_parser::PngMetadata;
use png_to_ico::png_parser::PngParser;

fn meta(width: u32, height: u32, bit_depth: u8) -> PngMetadata {
    PngMetadata {
        width,
        height,
        bit_depth,
        color_type: 6,
        compression_method: 0,
        filter_method: 0,
        interlace_method: 0,
    }
}

fn sample_png(width: u32, height: u32, bit_depth: u8, color_type: u8) -> Vec<u8> {
    let mut v = vec![0x89u8, 0x50, 0x4e, 0x47, 0x0d, 0x0a, 0x1a, 0x0a];
    v.extend([0, 0, 0, 13]);
    v.extend(*b"IHDR");
    v.extend(width.to_be_bytes());
    v.extend(height.to_be_bytes());
    v.push(bit_depth);
    v.push(color_type);
    v.push(0);
    v.push(0);
    v.push(0);
    v.extend([0xAA, 0xBB, 0xCC, 0xDD]);
    v
}

#[test]
fn icon_dir_is_six_fixed_bytes() {
    let mut buf = Vec::new();
    write_icon_dir(&mut buf);
    assert_eq!(buf, vec![0u8, 0, 1, 0, 1, 0]);
}

#[test]
fn icon_entry_bytes_for_16_by_16() {
    let png = sample_png(16, 16, 8, 6);
    let out = write_ico(&meta(16, 16, 8), &png).unwrap();
    let size = png.len() as u32;
    let mut expected = vec![0x10u8, 0x10, 0x00, 0x00, 0x01, 0x00, 0x08, 0x00];
    expected.extend(size.to_le_bytes());
    expected.extend([0x1A, 0x00, 0x00, 0x00]);
    assert_eq!(&out[6..22], &expected[..]);
}

#[test]
fn dimension_256_is_stored_as_zero() {
    let png = sample_png(256, 256, 8, 6);
    let out = write_ico(&meta(256, 256, 8), &png).unwrap();
    assert_eq!(out[6], 0);
    assert_eq!(out[7], 0);
}

#[test]
fn offset_field_is_always_26() {
    for (w, h) in [(1u32, 1u32), (16, 32), (255, 256), (256, 256)] {
        let out = write_ico(&meta(w, h, 8), &sample_png(w, h, 8, 6)).unwrap();
        assert_eq!(&out[18..22], &[26, 0, 0, 0]);
    }
}

#[test]
fn size_field_is_source_length() {
    let mut png = sample_png(2, 2, 8, 6);
    while png.len() < 0x0102 {
        png.push(0x55);
    }
    let out = write_ico(&meta(2, 2, 8), &png).unwrap();
    assert_eq!(&out[14..18], &[0x02, 0x01, 0x00, 0x00]);
}

#[test]
fn png_stream_round_trips() {
    let png = sample_png(64, 48, 8, 6);
    let out = write_ico(&meta(64, 48, 8), &png).unwrap();
    assert_eq!(out.len(), 22 + png.len());
    assert_eq!(&out[22..], &png[..]);
}

#[test]
fn width_257_is_rejected() {
    let png = sample_png(257, 16, 8, 6);
    assert_eq!(
        write_ico(&meta(257, 16, 8), &png),
        Err(ConvertError::DimensionTooLarge(Axis::Width))
    );
}

#[test]
fn height_257_is_rejected() {
    let png = sample_png(16, 257, 8, 6);
    assert_eq!(
        write_ico(&meta(16, 257, 8), &png),
        Err(ConvertError::DimensionTooLarge(Axis::Height))
    );
}

#[test]
fn oversized_width_is_reported_before_height() {
    let png = sample_png(300, 300, 8, 6);
    assert_eq!(
        write_ico(&meta(300, 300, 8), &png),
        Err(ConvertError::DimensionTooLarge(Axis::Width))
    );
}

#[test]
fn header_then_icon_keeps_dimensions() {
    let parser = PngParser::new();
    let png = sample_png(200, 100, 8, 6);
    let info = parser.parse_header(&png).unwrap();
    let out = write_ico(&info, &png).unwrap();
    assert_eq!(out[6], 200);
    assert_eq!(out[7], 100);
}

#[test]
fn header_then_icon_for_256_square() {
    let parser = PngParser::new();
    let png = sample_png(256, 256, 8, 6);
    let info = parser.parse_header(&png).unwrap();
    assert_eq!(info.width, 256);
    assert_eq!(info.height, 256);
    let out = write_ico(&info, &png).unwrap();
    assert_eq!(out[6], 0);
    assert_eq!(out[7], 0);
}

#[test]
fn icon_dir_entry_bit_depth_is_widened() {
    let png = sample_png(8, 8, 4, 3);
    let out = write_ico(&meta(8, 8, 4), &png).unwrap();
    assert_eq!(&out[12..14], &[4, 0]);
}
