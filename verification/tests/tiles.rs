use map_stitcher::tiles::{get_cursor_location_on_map, get_map_dimmensions};

#[test]
fn test_find_map_dimension() {
    // Minimap extent and cursor size as measured on a real capture.
    let map_dim = get_map_dimmensions((287, 143), (13, 14));

    assert_eq!((15, 7), map_dim);
}

#[test]
fn test_find_map_dimension_2() {
    // A second capture with the same overlay geometry.
    let map_dim = get_map_dimmensions((287, 143), (13, 14));

    assert_eq!((15, 7), map_dim);
}

#[test]
fn test_find_cursor_location_on_map() {
    // Cursor near the map's top-left corner.
    let cursor_pos = get_cursor_location_on_map((23, 36), (13, 14));

    assert_eq!((1, 2), cursor_pos);
}

#[test]
fn test_find_cursor_location_on_map_bottom_right_tile() {
    // Cursor on the bottom-right tile of a 16 x 8 grid.
    let cursor_pos = get_cursor_location_on_map((275, 126), (13, 14));

    assert_eq!((15, 7), cursor_pos);
}

#[test]
fn test_cursor_location_rounding_at_midpoint() {
    // The tile pitch is 13 + 5 = 14 + 4 = 18, so half a pitch is 9: a cursor
    // at 9 rounds up to tile 1, a cursor at 8 still belongs to tile 0.
    assert_eq!((1, 1), get_cursor_location_on_map((9, 9), (13, 14)));
    assert_eq!((0, 0), get_cursor_location_on_map((8, 8), (13, 14)));
    // One pixel short of the next midpoint stays on the tile.
    assert_eq!((1, 1), get_cursor_location_on_map((26, 26), (13, 14)));
    assert_eq!((2, 2), get_cursor_location_on_map((27, 27), (13, 14)));
}

#[test]
fn test_map_dimensions_floor_division() {
    // 287 / 18 = 15 r 17 and 143 / 18 = 7 r 17: the remainder is dropped.
    assert_eq!((15, 7), get_map_dimmensions((287, 143), (13, 14)));
    assert_eq!((0, 0), get_map_dimmensions((17, 17), (13, 14)));
    assert_eq!((1, 1), get_map_dimmensions((18, 18), (13, 14)));
}
