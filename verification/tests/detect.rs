use map_stitcher::detect::{
    find_cursor_location, find_cursor_size, find_map_size, find_map_top_left_corner,
};
use map_stitcher::grid::Image;
use map_stitcher::pixel::Pixel;
use map_stitcher::MapError;

fn black() -> Pixel {
    Pixel { r: 0, g: 0, b: 0 }
}

fn terrain() -> Pixel {
    Pixel { r: 200, g: 180, b: 60 }
}

fn blob() -> Pixel {
    Pixel { r: 30, g: 60, b: 200 }
}

/// A black frame with a solid terrain-colored rectangle at (8, 12), 20 x 10 pixels,
/// and a solid blob-colored rectangle inside it at relative offset (5, 3), 4 x 3
/// pixels.
fn synthetic_screenshot() -> Image {
    let mut img = Image::new(40, 30, black());
    for x in 8u32..28 {
        for y in 12u32..22 {
            img.set_pixel(x, y, terrain());
        }
    }
    for x in 13u32..17 {
        for y in 15u32..18 {
            img.set_pixel(x, y, blob());
        }
    }
    img
}

#[test]
fn test_boundary_locator_synthetic() {
    let img = synthetic_screenshot();

    let corner = find_map_top_left_corner(&img).unwrap();

    assert_eq!((8, 12), corner);
}

#[test]
fn test_extent_scanner_synthetic() {
    let img = synthetic_screenshot();
    let corner = find_map_top_left_corner(&img).unwrap();

    let size = find_map_size(&img, corner).unwrap();

    // One boundary pixel is excluded per axis: 20 x 10 becomes 19 x 9.
    assert_eq!((19, 9), size);
}

#[test]
fn test_cursor_locator_synthetic() {
    let img = synthetic_screenshot();
    let corner = find_map_top_left_corner(&img).unwrap();
    let size = find_map_size(&img, corner).unwrap();

    let pos = find_cursor_location(&img, corner, size);

    assert_eq!((5, 3), pos);
}

#[test]
fn test_cursor_sizer_synthetic() {
    let img = synthetic_screenshot();

    let cursor_size = find_cursor_size(&img, (13, 15)).unwrap();

    assert_eq!((4, 3), cursor_size);
}

#[test]
fn test_cursor_locator_without_cursor_returns_origin() {
    // A minimap of uniform terrain: no pixel differs from the reference
    // color, so the locator falls back to the origin.
    let mut img = Image::new(40, 30, black());
    for x in 8u32..28 {
        for y in 12u32..22 {
            img.set_pixel(x, y, terrain());
        }
    }

    let pos = find_cursor_location(&img, (8, 12), (19, 9));

    assert_eq!((0, 0), pos);
}

#[test]
fn test_boundary_locator_all_background() {
    let img = Image::new(20, 20, black());

    let r = find_map_top_left_corner(&img);

    assert_eq!(Err(MapError::BoundsOverrun), r);
}

#[test]
fn test_extent_scanner_overrun_at_image_edge() {
    // The map content runs to the right image edge: the rightward scan never
    // meets background again.
    let mut img = Image::new(20, 20, black());
    for x in 5u32..20 {
        for y in 5u32..15 {
            img.set_pixel(x, y, terrain());
        }
    }

    let r = find_map_size(&img, (5, 5));

    assert_eq!(Err(MapError::BoundsOverrun), r);
}

#[test]
fn test_cursor_sizer_overrun_on_uniform_image() {
    // Every pixel matches the anchor color, so the sizing scan runs off the
    // image edge.
    let img = Image::new(10, 10, terrain());

    let r = find_cursor_size(&img, (0, 0));

    assert_eq!(Err(MapError::BoundsOverrun), r);
}

#[test]
fn test_detection_tolerance_boundaries() {
    // A pixel exactly at the background tolerance (10 per channel) still
    // counts as background; one step past it does not.
    let mut img = Image::new(8, 8, black());
    img.set_pixel(3, 4, Pixel { r: 10, g: 10, b: 10 });
    assert_eq!(Err(MapError::BoundsOverrun), find_map_top_left_corner(&img));

    img.set_pixel(3, 4, Pixel { r: 11, g: 10, b: 10 });
    assert_eq!(Ok((3, 4)), find_map_top_left_corner(&img));
}

#[test]
fn test_detection_stages_leave_source_untouched() {
    let img = synthetic_screenshot();
    let reference = synthetic_screenshot();

    let corner = find_map_top_left_corner(&img).unwrap();
    let size = find_map_size(&img, corner).unwrap();
    let pos = find_cursor_location(&img, corner, size);
    let _ = find_cursor_size(&img, (corner.0 + pos.0, corner.1 + pos.1)).unwrap();

    for x in 0..img.width() {
        for y in 0..img.height() {
            assert_eq!(reference.get_pixel(x, y), img.get_pixel(x, y));
        }
    }
}

#[test]
fn test_detection_is_deterministic() {
    let img = synthetic_screenshot();

    let corner1 = find_map_top_left_corner(&img).unwrap();
    let size1 = find_map_size(&img, corner1).unwrap();
    let pos1 = find_cursor_location(&img, corner1, size1);
    let cursor1 = find_cursor_size(&img, (corner1.0 + pos1.0, corner1.1 + pos1.1)).unwrap();

    let corner2 = find_map_top_left_corner(&img).unwrap();
    let size2 = find_map_size(&img, corner2).unwrap();
    let pos2 = find_cursor_location(&img, corner2, size2);
    let cursor2 = find_cursor_size(&img, (corner2.0 + pos2.0, corner2.1 + pos2.1)).unwrap();

    assert_eq!(corner1, corner2);
    assert_eq!(size1, size2);
    assert_eq!(pos1, pos2);
    assert_eq!(cursor1, cursor2);
}

/// A full-frame screenshot rebuilt from the geometry of a real capture:
/// 1152 x 1080 frame, minimap at (72, 108) spanning 288 x 144 pixels, cursor
/// blob at relative offset (23, 36) spanning 13 x 14 pixels.
fn reconstructed_capture() -> Image {
    let mut img = Image::new(1152, 1080, black());
    for x in 72u32..360 {
        for y in 108u32..252 {
            img.set_pixel(x, y, terrain());
        }
    }
    for x in 95u32..108 {
        for y in 144u32..158 {
            img.set_pixel(x, y, blob());
        }
    }
    img
}

#[test]
fn test_full_pipeline_on_reconstructed_capture() {
    let img = reconstructed_capture();

    let map_top_left_corner = find_map_top_left_corner(&img).unwrap();
    let map_size = find_map_size(&img, map_top_left_corner).unwrap();
    let cursor_top_left_corner = find_cursor_location(&img, map_top_left_corner, map_size);
    let cursor_top_left_corner_absolute = (
        cursor_top_left_corner.0 + map_top_left_corner.0,
        cursor_top_left_corner.1 + map_top_left_corner.1,
    );
    let cursor_size = find_cursor_size(&img, cursor_top_left_corner_absolute).unwrap();

    assert_eq!((72, 108), map_top_left_corner);
    assert_eq!((287, 143), map_size);
    assert_eq!((23, 36), cursor_top_left_corner);
    assert_eq!((95, 144), cursor_top_left_corner_absolute);
    assert_eq!((13, 14), cursor_size);
}
