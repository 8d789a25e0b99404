use raytracing::aspect::{AspectRatio, Rectangle};
use raytracing::buffer::{from_u8_rgb, PixelBuffer, Rgb8};

#[test]
fn packs_channels_as_rgb_word() {
    assert_eq!(from_u8_rgb(0x12, 0x34, 0x56), 0x0012_3456);
    assert_eq!(from_u8_rgb(255, 255, 255), 0x00ff_ffff);
    assert_eq!(from_u8_rgb(0, 0, 0), 0);
    assert_eq!(from_u8_rgb(1, 0, 0), 65536);
}

#[test]
fn new_buffer_is_filled() {
    let buf = PixelBuffer::new(3, 2, 7u32);
    assert_eq!(buf.width(), 3);
    assert_eq!(buf.height(), 2);
    assert_eq!(Rectangle::width(&buf), 3);
    assert_eq!(Rectangle::height(&buf), 2);
    assert_eq!(buf.pixels(), &vec![7u32; 6]);
    assert_eq!(buf.aspect_ratio().as_tuple(), (3, 2));
}

#[test]
fn vertical_ratio_buffer_takes_width_from_aspect() {
    let buf = PixelBuffer::new_from_vertical_ratio(720, AspectRatio::default(), 0u8);
    assert_eq!(buf.width(), 1280);
    assert_eq!(buf.height(), 720);
    assert_eq!(buf.pixels().len(), 1280 * 720);
    assert_eq!(buf.aspect_ratio().as_tuple(), (16, 9));
}

#[test]
fn horizontal_ratio_buffer_takes_height_from_aspect() {
    let buf = PixelBuffer::new_from_horizontal_ratio(160, AspectRatio::default(), 0u8);
    assert_eq!(buf.width(), 160);
    assert_eq!(buf.height(), 90);
    assert_eq!(buf.pixels().len(), 160 * 90);
}

#[test]
fn rows_are_laid_out_row_major() {
    let mut buf = PixelBuffer::new(3, 2, 0u32);
    buf.set_rows(vec![vec![1, 2, 3], vec![4, 5, 6]]);
    assert_eq!(buf.pixels(), &vec![1, 2, 3, 4, 5, 6]);
    let i = buf.index_of(1, 2);
    assert_eq!(i, 5);
    assert_eq!(*buf.pixel(i), 6);
    assert_eq!(*buf.pixel(buf.index_of(0, 1)), 2);
}

#[test]
fn map_keeps_shape_and_aspect() {
    let buf = PixelBuffer::new_from_pixels(2, 2, vec![1u32, 2, 3, 4]);
    let doubled = buf.map(|p: u32| p * 10);
    assert_eq!(doubled.pixels(), &vec![10, 20, 30, 40]);
    assert_eq!(doubled.width(), 2);
    assert_eq!(doubled.height(), 2);
    assert_eq!(doubled.aspect_ratio().as_tuple(), (1, 1));
}

#[test]
fn as_u32_packs_every_pixel() {
    let px = vec![
        Rgb8 { r: 255, g: 0, b: 0 },
        Rgb8 { r: 0, g: 255, b: 0 },
        Rgb8 { r: 0, g: 0, b: 255 },
    ];
    let buf = PixelBuffer::new_from_pixels(3, 1, px);
    assert_eq!(buf.as_u32(), vec![0xff0000, 0x00ff00, 0x0000ff]);
}

#[test]
fn set_pixel_replaces_one_pixel() {
    let mut buf = PixelBuffer::new(2, 2, 0u32);
    let i = buf.index_of(1, 0);
    buf.set_pixel(i, 9);
    assert_eq!(buf.pixels(), &vec![0, 0, 9, 0]);
    assert_eq!(buf.width(), 2);
    assert_eq!(buf.height(), 2);
}

#[test]
fn buffer_prints_for_debugging() {
    let buf = PixelBuffer::new(1, 1, 3u8);
    assert!(format!("{:?}", buf).contains("pixels: [3]"));
}
