use raytracing::aspect::AspectRatio;

#[test]
pub fn test_aspect_ratio() {
    let ratio = AspectRatio::new(2560, 1440);
    assert_eq!(ratio.as_tuple(), (16, 9));
}

#[test]
fn reduces_by_greatest_common_divisor() {
    let ratio = AspectRatio::new(1920, 1200);
    assert_eq!(ratio.horizontal(), 8);
    assert_eq!(ratio.vertical(), 5);
    assert_eq!(AspectRatio::new(7, 3).as_tuple(), (7, 3));
    assert_eq!(AspectRatio::new(6, 6).as_tuple(), (1, 1));
}

#[test]
fn zero_side_reduces_to_unit() {
    assert_eq!(AspectRatio::new(0, 5).as_tuple(), (0, 1));
    assert_eq!(AspectRatio::new(4, 0).as_tuple(), (1, 0));
}

#[test]
fn default_is_widescreen() {
    assert_eq!(AspectRatio::default().as_tuple(), (16, 9));
}

#[test]
fn width_and_height_follow_the_ratio() {
    let ratio = AspectRatio::default();
    assert_eq!(ratio.width_from_height(720), 1280);
    assert_eq!(ratio.height_from_width(1280), 720);
    // 100 * 9 / 16 = 56.25, rounded down
    assert_eq!(ratio.height_from_width(100), 56);
    assert_eq!(ratio.width_from_height(0), 0);
}

#[test]
fn degenerate_ratio_saturates() {
    let flat = AspectRatio::new(0, 3);
    assert_eq!(flat.height_from_width(10), usize::MAX);
    assert_eq!(flat.height_from_width(0), 0);
    assert_eq!(flat.width_from_height(10), 0);
    let huge = AspectRatio::new(1000, 1);
    assert_eq!(huge.width_from_height(usize::MAX), usize::MAX);
}

#[test]
fn pair_converts_to_reduced_ratio() {
    assert_eq!(AspectRatio::from((2560, 1440)).as_tuple(), (16, 9));
    assert_eq!(AspectRatio::from((0, 4)).as_tuple(), (0, 1));
    assert_eq!(AspectRatio::from((0, 0)).as_tuple(), (0, 0));
}
