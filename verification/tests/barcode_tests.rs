use table_layout::barcode::{generate_barcode, rasterize, PixelBuffer};
use table_layout::errors::LayoutError;

fn pixel(b: &PixelBuffer, x: usize, y: usize) -> bool {
    b.pixels[y * b.width + x]
}

#[test]
fn barcode_round_trip() {
    let buf = generate_barcode("HELLO123", 50).unwrap();
    assert_eq!(buf.height, 50);
    assert!(buf.width > 0);
    // Code128: one 11 module symbol per character, plus start, checksum,
    // stop and termination: 11 * (8 + 2) + 13 = 123 modules
    assert_eq!(buf.width, 123);
    assert_eq!(buf.pixels.len(), 123 * 50);
}

#[test]
fn empty_content_is_rejected() {
    assert_eq!(generate_barcode("", 50), Err(LayoutError::EncodingError));
}

#[test]
fn unsupported_character_is_rejected() {
    assert_eq!(generate_barcode("CAF\u{00C9}", 50), Err(LayoutError::EncodingError));
    assert_eq!(generate_barcode("tab\tseparated", 50), Err(LayoutError::EncodingError));
}

#[test]
fn modules_drive_pixel_columns() {
    let buf = generate_barcode("HELLO123", 4).unwrap();
    // every Code128 barcode begins with the start symbol 1101..., ends 11
    assert!(pixel(&buf, 0, 0));
    assert!(pixel(&buf, 1, 0));
    assert!(!pixel(&buf, 2, 0));
    assert!(pixel(&buf, 3, 0));
    assert!(pixel(&buf, buf.width - 1, 0));
    assert!(pixel(&buf, buf.width - 2, 0));
    // each module spans the full height: all rows repeat the top row
    for y in 1..buf.height {
        for x in 0..buf.width {
            assert_eq!(pixel(&buf, x, y), pixel(&buf, x, 0));
        }
    }
    // a barcode is never all black or all white
    assert!((0..buf.width).any(|x| pixel(&buf, x, 0)));
    assert!((0..buf.width).any(|x| !pixel(&buf, x, 0)));
}

#[test]
fn rasterize_spreads_modules() {
    let modules: Vec<u8> = vec![1, 0, 1];
    let buf = rasterize(&modules, 2);
    assert_eq!(buf.width, 3);
    assert_eq!(buf.height, 2);
    assert_eq!(buf.pixels, vec![true, false, true, true, false, true]);
}

#[test]
fn zero_height_gives_empty_buffer() {
    let buf = generate_barcode("X", 0).unwrap();
    assert_eq!(buf.height, 0);
    assert_eq!(buf.width, 35 + 11);
    assert_eq!(buf.pixels.len(), 0);
}

#[test]
fn over_length_content_is_rejected() {
    let long = "A".repeat(4097);
    assert_eq!(generate_barcode(&long, 1), Err(LayoutError::EncodingError));
    let longest = "A".repeat(4096);
    let buf = generate_barcode(&longest, 1).unwrap();
    assert_eq!(buf.width, 35 + 11 * 4096);
}

#[test]
fn rgb_bytes_expand_pixels() {
    let buf = rasterize(&vec![1, 0], 1);
    assert_eq!(buf.to_rgb_bytes(), vec![0, 0, 0, 255, 255, 255]);
    let coded = generate_barcode("X", 2).unwrap();
    let bytes = coded.to_rgb_bytes();
    assert_eq!(bytes.len(), 3 * coded.pixels.len());
    assert_eq!(&bytes[0..6], &[0, 0, 0, 0, 0, 0]);
}
