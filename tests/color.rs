use pixel_canvas::color::{Blend, Color};
use pixel_canvas::image::Image;

#[test]
fn rgb_builds_the_color() {
    let c = Color::rgb(1, 2, 3);
    assert_eq!((c.r, c.g, c.b), (1, 2, 3));
    assert_eq!(Color::black(), Color::rgb(0, 0, 0));
    assert_eq!(Color::white(), Color::rgb(255, 255, 255));
}

#[test]
fn integer_blend_of_channels() {
    assert_eq!(100u8.blend(200, 0), 100);
    assert_eq!(100u8.blend(200, 128), 150);
    assert_eq!(100u8.blend(200, 255), 200);
    assert_eq!(200u8.blend(100, 128), 150);
    assert_eq!(0u8.blend(255, 255), 255);
    assert_eq!(255u8.blend(0, 255), 0);
}

#[test]
fn blend_ends_give_each_color() {
    let a = Color::rgb(10, 200, 77);
    let b = Color::rgb(250, 3, 77);
    assert_eq!(a.blend(b, 0), a);
    assert_eq!(a.blend(b, 255), b);
}

#[test]
fn blend_is_monotonic_in_the_factor() {
    let a = Color::rgb(10, 200, 77);
    let b = Color::rgb(250, 3, 77);
    let mut prev = a.blend(b, 0);
    for f in 1..=255u8 {
        let next = a.blend(b, f);
        assert!(next.r >= prev.r);
        assert!(next.g <= prev.g);
        assert_eq!(next.b, 77);
        prev = next;
    }
}

#[test]
fn blend_toward_black_on_filled_image() {
    let mut image = Image::new(4, 4);
    image.fill(Color::rgb(10, 20, 30));
    let blended: Vec<Color> = image.iter().map(|c| c.blend(Color::rgb(0, 0, 0), 128)).collect();
    assert_eq!(blended.len(), 16);
    for c in blended {
        assert_eq!(c, Color::rgb(5, 10, 15));
    }
}

#[test]
fn saturating_add_and_sub() {
    let a = Color::rgb(200, 10, 0);
    let b = Color::rgb(100, 20, 0);
    assert_eq!(a + b, Color::rgb(255, 30, 0));
    assert_eq!(a - b, Color::rgb(100, 0, 0));
}

#[test]
fn color_products() {
    let a = Color::rgb(255, 128, 16);
    let b = Color::rgb(255, 128, 255);
    assert_eq!(a * b, Color::rgb(254, 64, 15));
    assert_eq!(Color::rgb(200, 100, 0) * 128u8, Color::rgb(100, 50, 0));
    assert_eq!(Color::rgb(200, 100, 9) * 255u8, Color::rgb(200, 100, 9));
}
