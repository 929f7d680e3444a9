use pixel_canvas::math::{Remap, Restrict};

#[test]
fn restrict_clamps_into_the_range() {
    assert_eq!(5.restrict(0..=3), 3);
    assert_eq!((-5).restrict(0..=3), 0);
    assert_eq!(2.restrict(0..=3), 2);
    assert_eq!(1.5f32.restrict(0.0..=1.0), 1.0);
}

#[test]
fn remap_between_ranges() {
    assert_eq!(5.remap(-10..10, -100..100), 50);
    assert_eq!(0.5.remap(0.0..1.0, -1.0..1.0), 0.0);
    assert_eq!(20.remap(0..10, 0..100), 200);
}
