//! Tile arithmetic: from cursor position and size to a tile index, and from
//! minimap extent to the map's dimensions in tiles.
//!
//! The cursor size padded by a fixed margin approximates the tile pitch — the
//! screen-to-screen travel distance in minimap pixels. Both computations
//! share the same padding.

use vstd::prelude::*;

verus! {

/// Horizontal padding added to the cursor size to approximate the tile pitch.
pub const TILE_PAD_X: u32 = 5;

/// Vertical padding added to the cursor size to approximate the tile pitch.
pub const TILE_PAD_Y: u32 = 4;

/// The zero-based horizontal tile index of a cursor whose minimap-relative
/// left edge is `cx` and whose width is `cw`: the position shifted by half a
/// tile pitch, floor-divided by the pitch.
pub open spec fn tile_x(cx: int, cw: int) -> int {
    (cx + (cw + TILE_PAD_X) / 2) / (cw + TILE_PAD_X)
}

/// The zero-based vertical tile index of a cursor whose minimap-relative top
/// edge is `cy` and whose height is `ch`.
pub open spec fn tile_y(cy: int, ch: int) -> int {
    (cy + (ch + TILE_PAD_Y) / 2) / (ch + TILE_PAD_Y)
}

/// Tiles across the whole map: the minimap extent floor-divided by the
/// horizontal tile pitch.
pub open spec fn map_tiles_x(mw: int, cw: int) -> int {
    mw / (cw + TILE_PAD_X)
}

/// Tiles down the whole map.
pub open spec fn map_tiles_y(mh: int, ch: int) -> int {
    mh / (ch + TILE_PAD_Y)
}

/// Return the cursor's position divided by the padded cursor size: the index
/// of the tile the cursor occupies on the map grid.
pub fn get_cursor_location_on_map(cursor_top_left_corner: (u32, u32), size: (u32, u32)) -> (r: (
    u32,
    u32,
))
    requires
        size.0 + TILE_PAD_X <= u32::MAX,
        size.1 + TILE_PAD_Y <= u32::MAX,
        cursor_top_left_corner.0 + (size.0 + TILE_PAD_X) / 2 <= u32::MAX,
        cursor_top_left_corner.1 + (size.1 + TILE_PAD_Y) / 2 <= u32::MAX,
    ensures
        r.0 == tile_x(cursor_top_left_corner.0 as int, size.0 as int),
        r.1 == tile_y(cursor_top_left_corner.1 as int, size.1 as int),
{
    let (width, height) = size;

    let width = width + TILE_PAD_X;
    let height = height + TILE_PAD_Y;

    (
        (cursor_top_left_corner.0 + width / 2) / width,
        (cursor_top_left_corner.1 + height / 2) / height,
    )
}

/// Return the number of tiles on the map, per axis.
pub fn get_map_dimmensions(map_size: (u32, u32), cursor_size: (u32, u32)) -> (r: (u32, u32))
    requires
        cursor_size.0 + TILE_PAD_X <= u32::MAX,
        cursor_size.1 + TILE_PAD_Y <= u32::MAX,
    ensures
        r.0 == map_tiles_x(map_size.0 as int, cursor_size.0 as int),
        r.1 == map_tiles_y(map_size.1 as int, cursor_size.1 as int),
{
    (map_size.0 / (cursor_size.0 + TILE_PAD_X), map_size.1 / (cursor_size.1 + TILE_PAD_Y))
}

} // verus!
