use pixel_canvas::color::Color;
use pixel_canvas::image::{Image, RC, XY};

#[test]
fn new_image_is_black() {
    for (w, h) in [(1usize, 1usize), (3, 5), (7, 2)] {
        let image = Image::new(w, h);
        assert_eq!(image.width(), w);
        assert_eq!(image.height(), h);
        assert_eq!(image.len(), w * h);
        assert!(image.iter().all(|c| *c == Color::rgb(0, 0, 0)));
    }
}

#[test]
fn row_column_and_xy_agree() {
    let (w, h) = (3usize, 4usize);
    let mut image = Image::new(w, h);
    for row in 0..h {
        for col in 0..w {
            image.set_rc(RC(row, col), Color::rgb(row as u8, col as u8, 9));
        }
    }
    for row in 0..h {
        for col in 0..w {
            assert_eq!(image[RC(row, col)], image[XY(col, h - 1 - row)]);
            assert_eq!(image[RC(row, col)], Color::rgb(row as u8, col as u8, 9));
        }
    }
    assert_eq!(image[XY(0, 0)], Color::rgb(3, 0, 9));
}

#[test]
fn set_xy_counts_rows_from_the_bottom() {
    let mut image = Image::new(2, 3);
    image.set_xy(XY(1, 0), Color::rgb(7, 7, 7));
    assert_eq!(image[RC(2, 1)], Color::rgb(7, 7, 7));
    let pixels: &[Color] = &image;
    assert_eq!(pixels[5], Color::rgb(7, 7, 7));
    assert_eq!(pixels[0], Color::rgb(0, 0, 0));
}

#[test]
fn fill_last_write_wins() {
    let mut image = Image::new(5, 2);
    image.fill(Color::rgb(1, 2, 3));
    assert!(image.iter().all(|c| *c == Color::rgb(1, 2, 3)));
    image.fill(Color::rgb(4, 5, 6));
    assert!(image.iter().all(|c| *c == Color::rgb(4, 5, 6)));
    assert_eq!(image.len(), 10);
    assert_eq!((image.width(), image.height()), (5, 2));
}

#[test]
fn bytes_are_packed_rgb() {
    let mut image = Image::new(2, 1);
    image.set_rc(RC(0, 0), Color::rgb(1, 2, 3));
    image.set_rc(RC(0, 1), Color::rgb(4, 5, 6));
    assert_eq!(image.to_bytes(), vec![1, 2, 3, 4, 5, 6]);
    assert_eq!(Image::new(3, 3).to_bytes().len(), 27);
}

#[test]
fn fits_bounds_the_size() {
    assert!(Image::fits(512, 512));
    assert!(Image::fits(0, usize::MAX));
    assert!(!Image::fits(usize::MAX, 2));
    assert!(!Image::fits(1 << 32, 1 << 31));
}

#[test]
fn empty_image_has_no_pixels() {
    let image = Image::new(0, 4);
    assert_eq!(image.len(), 0);
    assert!(image.to_bytes().is_empty());
}
