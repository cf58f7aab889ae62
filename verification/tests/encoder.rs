use oled_display::encoder::{encode_frame, FrameError, Image, PixelFormat};

fn uniform_image(r: u8, g: u8, b: u8) -> Image {
    let mut data: Vec<u8> = Vec::new();
    for _ in 0..(128 * 32) {
        data.push(r);
        data.push(g);
        data.push(b);
    }
    Image { width: 128, height: 32, format: PixelFormat::Rgb24, data }
}

fn black_image_with_white_pixel(row: usize, col: usize) -> Image {
    let mut img = uniform_image(0, 0, 0);
    let base = 3 * (row * 128 + col);
    img.data[base] = 255;
    img.data[base + 1] = 255;
    img.data[base + 2] = 255;
    img
}

#[test]
fn encodes_to_exactly_512_bytes() {
    let buf = encode_frame(&uniform_image(10, 200, 77)).unwrap();
    assert_eq!(buf.len(), 512);
}

#[test]
fn encoding_is_deterministic() {
    let img = uniform_image(200, 33, 150);
    let first = encode_frame(&img).unwrap();
    let second = encode_frame(&img).unwrap();
    assert_eq!(first, second);
}

#[test]
fn mid_gray_is_clear() {
    // 128/3 + 128/3 + 128/3 = 42 + 42 + 42 = 126, not above the threshold.
    let buf = encode_frame(&uniform_image(128, 128, 128)).unwrap();
    assert!(buf.iter().all(|&b| b == 0x00));
}

#[test]
fn truncated_sum_of_exactly_127_is_clear() {
    // 129/3 + 128/3 + 128/3 = 43 + 42 + 42 = 127: the threshold is a
    // strict "greater than", so this pixel stays dark.
    let buf = encode_frame(&uniform_image(129, 128, 128)).unwrap();
    assert!(buf.iter().all(|&b| b == 0x00));
}

#[test]
fn truncated_sum_of_128_is_set() {
    // 129/3 + 129/3 + 128/3 = 43 + 43 + 42 = 128, just above the threshold.
    let buf = encode_frame(&uniform_image(129, 129, 128)).unwrap();
    assert!(buf.iter().all(|&b| b == 0xFF));
}

#[test]
fn all_black_gives_all_zero_buffer() {
    let buf = encode_frame(&uniform_image(0, 0, 0)).unwrap();
    assert_eq!(buf.len(), 512);
    assert!(buf.iter().all(|&b| b == 0x00));
}

#[test]
fn all_white_gives_all_ff_buffer() {
    // 255/3 + 255/3 + 255/3 = 255, above the threshold everywhere.
    let buf = encode_frame(&uniform_image(255, 255, 255)).unwrap();
    assert_eq!(buf.len(), 512);
    assert!(buf.iter().all(|&b| b == 0xFF));
}

#[test]
fn white_pixel_at_page_0_row_0_sets_bit_7() {
    let buf = encode_frame(&black_image_with_white_pixel(0, 0)).unwrap();
    assert_eq!(buf[0], 0x80);
    assert!(buf[1..].iter().all(|&b| b == 0x00));
}

#[test]
fn white_pixel_at_page_0_row_7_sets_bit_0() {
    let buf = encode_frame(&black_image_with_white_pixel(7, 0)).unwrap();
    assert_eq!(buf[0], 0x01);
    assert!(buf[1..].iter().all(|&b| b == 0x00));
}

#[test]
fn white_pixel_lands_in_its_page_and_column() {
    // Row 9 is row 1 of page 1 (bit 6); column 5 is byte 128 + 5.
    let buf = encode_frame(&black_image_with_white_pixel(9, 5)).unwrap();
    assert_eq!(buf[128 + 5], 0x40);
    for (i, &b) in buf.iter().enumerate() {
        if i != 128 + 5 {
            assert_eq!(b, 0x00);
        }
    }
}

#[test]
fn wrong_geometry_is_rejected() {
    let mut data: Vec<u8> = Vec::new();
    for _ in 0..(64 * 32) {
        data.push(255);
        data.push(255);
        data.push(255);
    }
    let img = Image { width: 64, height: 32, format: PixelFormat::Rgb24, data };
    assert_eq!(encode_frame(&img), Err(FrameError::UnsupportedGeometry));
}

#[test]
fn wrong_format_is_rejected() {
    let mut data: Vec<u8> = Vec::new();
    for _ in 0..(128 * 32) {
        data.push(255);
        data.push(255);
        data.push(255);
        data.push(255);
    }
    let img = Image { width: 128, height: 32, format: PixelFormat::Rgba32, data };
    assert_eq!(encode_frame(&img), Err(FrameError::UnsupportedFormat));
}
