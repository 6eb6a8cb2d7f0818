use map_stitcher::grid::Image;
use map_stitcher::pixel::Pixel;
use map_stitcher::MapError;

fn c0() -> Pixel {
    Pixel { r: 1, g: 2, b: 3 }
}

fn c1() -> Pixel {
    Pixel { r: 250, g: 120, b: 7 }
}

#[test]
fn test_new_image_is_filled() {
    let img = Image::new(6, 4, c0());

    assert_eq!(6, img.width());
    assert_eq!(4, img.height());
    for x in 0..6 {
        for y in 0..4 {
            assert_eq!(c0(), img.get_pixel(x, y));
        }
    }
}

#[test]
fn test_set_pixel_changes_only_its_target() {
    let mut img = Image::new(6, 4, c0());

    img.set_pixel(2, 3, c1());

    for x in 0..6 {
        for y in 0..4 {
            if (x, y) == (2, 3) {
                assert_eq!(c1(), img.get_pixel(x, y));
            } else {
                assert_eq!(c0(), img.get_pixel(x, y));
            }
        }
    }
}

#[test]
fn test_copy_from_pastes_region() {
    let mut canvas = Image::new(10, 10, c0());
    let src = Image::new(3, 2, c1());

    let r = canvas.copy_from(&src, 4, 5);

    assert_eq!(Ok(()), r);
    for x in 0..10 {
        for y in 0..10 {
            if (4..7).contains(&x) && (5..7).contains(&y) {
                assert_eq!(c1(), canvas.get_pixel(x, y));
            } else {
                assert_eq!(c0(), canvas.get_pixel(x, y));
            }
        }
    }
}

#[test]
fn test_copy_from_rejects_overflowing_paste() {
    let mut canvas = Image::new(10, 10, c0());
    let src = Image::new(5, 5, c1());

    let r = canvas.copy_from(&src, 8, 0);

    assert_eq!(Err(MapError::CompositeOutOfBounds), r);
    for x in 0..10 {
        for y in 0..10 {
            assert_eq!(c0(), canvas.get_pixel(x, y));
        }
    }
}

#[test]
fn test_copy_from_at_exact_fit() {
    let mut canvas = Image::new(10, 10, c0());
    let src = Image::new(4, 4, c1());

    let r = canvas.copy_from(&src, 6, 6);

    assert_eq!(Ok(()), r);
    assert_eq!(c1(), canvas.get_pixel(9, 9));
    assert_eq!(c0(), canvas.get_pixel(5, 9));
}
