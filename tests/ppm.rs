use raytracing::buffer::{PixelBuffer, Rgb8};
use raytracing::ppm::AsPPM;

fn grey(v: u8) -> Rgb8 {
    Rgb8 { r: v, g: v, b: v }
}

#[test]
fn body_is_written_bottom_row_first() {
    // row 0 is the top row in memory; the body starts with row 1
    let buf = PixelBuffer::new_from_pixels(2, 2, vec![grey(1), grey(2), grey(30), grey(255)]);
    assert_eq!(buf.ppm_body(), "30 30 30 255 255 255 \n1 1 1 2 2 2 \n");
}

#[test]
fn full_text_has_header() {
    let px = vec![Rgb8 { r: 0, g: 128, b: 9 }, Rgb8 { r: 100, g: 10, b: 200 }];
    let buf = PixelBuffer::new_from_pixels(2, 1, px);
    assert_eq!(buf.as_ppm_string(), "P3\n2 1\n255\n0 128 9 100 10 200 \n");
}

#[test]
fn wide_image_header_uses_decimal_sizes() {
    let buf = PixelBuffer::new(1280, 1, grey(0));
    let text = buf.as_ppm_string();
    assert!(text.starts_with("P3\n1280 1\n255\n0 0 0 "));
    assert_eq!(text.len(), "P3\n1280 1\n255\n".len() + 1280 * 6 + 1);
}

#[test]
fn empty_rows_still_end_in_line_breaks() {
    let buf: PixelBuffer<Rgb8> = PixelBuffer::new_from_pixels(0, 3, vec![]);
    assert_eq!(buf.ppm_body(), "\n\n\n");
}
