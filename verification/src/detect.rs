//! Detection stages: boundary locator, extent scanner, cursor locator and
//! cursor sizer.
//!
//! Every scan is bounded by the image's extent; a scan that would run past it
//! reports [`MapError::BoundsOverrun`] instead of reading out of range.

use vstd::prelude::*;

use crate::grid::Image;
use crate::pixel::{
    black, black_pixel, pixel_are_equals, pixels_match, Pixel, BACKGROUND_TOLERANCE,
    CURSOR_LOCATE_TOLERANCE, CURSOR_SIZE_TOLERANCE,
};
use crate::MapError;

verus! {

/// The pixel at `(x, y)` is overlay background: near-black within the
/// background tolerance.
pub open spec fn is_background(img: Image, x: int, y: int) -> bool {
    pixels_match(img.pixel_at(x, y), black(), BACKGROUND_TOLERANCE as int)
}

/// The diagonal corner scan visits exactly the pixels on or left of the main
/// diagonal.
pub open spec fn in_corner_scan(img: Image, x: int, y: int) -> bool {
    0 <= x <= y && y < img.height() && x < img.width()
}

/// `(x, y)` is visited strictly before `(cx, cy)` by the corner scan, which
/// walks row by row and left to right within a row.
pub open spec fn corner_scan_before(x: int, y: int, cx: int, cy: int) -> bool {
    y < cy || (y == cy && x < cx)
}

/// `(cx, cy)` is the first pixel in corner-scan order that is not overlay
/// background: the minimap's top-left corner.
pub open spec fn is_map_corner(img: Image, cx: int, cy: int) -> bool {
    &&& in_corner_scan(img, cx, cy)
    &&& !is_background(img, cx, cy)
    &&& forall|x: int, y: int|
        in_corner_scan(img, x, y) && corner_scan_before(x, y, cx, cy) ==> #[trigger] is_background(
            img,
            x,
            y,
        )
}

/// Every pixel the corner scan can reach is background: no minimap in sight.
pub open spec fn corner_scan_exhausted(img: Image) -> bool {
    forall|x: int, y: int| in_corner_scan(img, x, y) ==> #[trigger] is_background(img, x, y)
}

/// Search for the top left corner of the map (the first not-black pixel under
/// the diagonal scan) and return its coordinates.
#[verifier::loop_isolation(false)]
pub fn find_map_top_left_corner(img: &Image) -> (r: Result<(u32, u32), MapError>)
    requires
        img.wf(),
    ensures
        match r {
            Ok(c) => is_map_corner(*img, c.0 as int, c.1 as int),
            Err(e) => e == MapError::BoundsOverrun && corner_scan_exhausted(*img),
        },
{
    let background = black_pixel();
    let mut y: u32 = 0;
    while y < img.height()
        invariant
            img.wf(),
            y <= img.height(),
            forall|i: int, j: int|
                in_corner_scan(*img, i, j) && j < y as int ==> #[trigger] is_background(*img, i, j),
        decreases img.height() - y,
    {
        let mut x: u32 = 0;
        while x <= y && x < img.width()
            invariant
                img.wf(),
                y < img.height(),
                x <= y + 1,
                x <= img.width(),
                forall|i: int, j: int|
                    in_corner_scan(*img, i, j) && j < y as int ==> #[trigger] is_background(
                        *img,
                        i,
                        j,
                    ),
                forall|i: int|
                    0 <= i < x as int ==> #[trigger] is_background(*img, i, y as int),
            decreases y + 1 - x,
        {
            if !pixel_are_equals(&img.get_pixel(x, y), &background, BACKGROUND_TOLERANCE) {
                return Ok((x, y));
            }
            x = x + 1;
        }
        y = y + 1;
    }
    Err(MapError::BoundsOverrun)
}

/// Scanning right from `(cx, cy)`: the pixel stays map content for `w + 1`
/// columns and the background boundary stands just after them. The extent
/// excludes the boundary pixel, hence the `+ 1`.
pub open spec fn is_map_width(img: Image, cx: int, cy: int, w: int) -> bool {
    &&& 0 <= w
    &&& cx + w + 1 < img.width()
    &&& forall|x: int| cx <= x <= cx + w ==> !(#[trigger] is_background(img, x, cy))
    &&& is_background(img, cx + w + 1, cy)
}

/// Scanning down from `(cx, cy)`: map content for `h + 1` rows, then the
/// background boundary.
pub open spec fn is_map_height(img: Image, cx: int, cy: int, h: int) -> bool {
    &&& 0 <= h
    &&& cy + h + 1 < img.height()
    &&& forall|y: int| cy <= y <= cy + h ==> !(#[trigger] is_background(img, cx, y))
    &&& is_background(img, cx, cy + h + 1)
}

/// The rightward scan reaches the image edge without meeting background.
pub open spec fn width_scan_overruns(img: Image, cx: int, cy: int) -> bool {
    forall|x: int| cx <= x < img.width() ==> !(#[trigger] is_background(img, x, cy))
}

/// The downward scan reaches the image edge without meeting background.
pub open spec fn height_scan_overruns(img: Image, cx: int, cy: int) -> bool {
    forall|y: int| cy <= y < img.height() ==> !(#[trigger] is_background(img, cx, y))
}

/// Find the size of the map: from its top-left corner, count map-content
/// pixels rightward and downward up to (and excluding) the background
/// boundary.
#[verifier::loop_isolation(false)]
pub fn find_map_size(img: &Image, coordinates: (u32, u32)) -> (r: Result<(u32, u32), MapError>)
    requires
        img.wf(),
        coordinates.0 < img.width(),
        coordinates.1 < img.height(),
        !is_background(*img, coordinates.0 as int, coordinates.1 as int),
    ensures
        match r {
            Ok(s) => is_map_width(*img, coordinates.0 as int, coordinates.1 as int, s.0 as int)
                && is_map_height(*img, coordinates.0 as int, coordinates.1 as int, s.1 as int),
            Err(e) => e == MapError::BoundsOverrun && (width_scan_overruns(
                *img,
                coordinates.0 as int,
                coordinates.1 as int,
            ) || height_scan_overruns(*img, coordinates.0 as int, coordinates.1 as int)),
        },
{
    let (cx, cy) = coordinates;
    let background = black_pixel();

    let mut width: u32 = 0;
    while cx + width < img.width() && !pixel_are_equals(
        &img.get_pixel(cx + width, cy),
        &background,
        BACKGROUND_TOLERANCE,
    )
        invariant
            img.wf(),
            cx < img.width(),
            cy < img.height(),
            cx + width <= img.width(),
            forall|x: int| cx <= x < cx + width ==> !(#[trigger] is_background(*img, x, cy as int)),
        decreases img.width() - (cx + width),
    {
        width = width + 1;
    }
    if cx + width == img.width() {
        return Err(MapError::BoundsOverrun);
    }

    let mut height: u32 = 0;
    while cy + height < img.height() && !pixel_are_equals(
        &img.get_pixel(cx, cy + height),
        &background,
        BACKGROUND_TOLERANCE,
    )
        invariant
            img.wf(),
            cx < img.width(),
            cy < img.height(),
            cy + height <= img.height(),
            forall|y: int|
                cy <= y < cy + height ==> !(#[trigger] is_background(*img, cx as int, y)),
        decreases img.height() - (cy + height),
    {
        height = height + 1;
    }
    if cy + height == img.height() {
        return Err(MapError::BoundsOverrun);
    }

    Ok((width - 1, height - 1))
}

/// The pixel at offset `(x, y)` into the minimap differs from the minimap's
/// own top-left pixel (the "empty map" reference color) by more than the
/// cursor tolerance.
pub open spec fn differs_from_map_corner(img: Image, mcx: int, mcy: int, x: int, y: int) -> bool {
    !pixels_match(
        img.pixel_at(mcx + x, mcy + y),
        img.pixel_at(mcx, mcy),
        CURSOR_LOCATE_TOLERANCE as int,
    )
}

/// `(x, y)` is visited strictly before `(rx, ry)` by the cursor scan, which
/// walks column by column and top to bottom within a column.
pub open spec fn cursor_scan_before(x: int, y: int, rx: int, ry: int) -> bool {
    x < rx || (x == rx && y < ry)
}

/// `(rx, ry)` is where the cursor scan lands: the first offset within the
/// minimap, in column-major order, whose pixel differs from the minimap's
/// top-left pixel — or `(0, 0)` when no pixel in the minimap does (a cursor
/// indistinguishable from the reference color is treated as cursor-at-origin).
pub open spec fn is_cursor_location(
    img: Image,
    mcx: int,
    mcy: int,
    mw: int,
    mh: int,
    rx: int,
    ry: int,
) -> bool {
    ||| {
        &&& 0 <= rx < mw
        &&& 0 <= ry < mh
        &&& differs_from_map_corner(img, mcx, mcy, rx, ry)
        &&& forall|x: int, y: int|
            0 <= x < mw && 0 <= y < mh && cursor_scan_before(x, y, rx, ry)
                ==> !(#[trigger] differs_from_map_corner(img, mcx, mcy, x, y))
    }
    ||| {
        &&& rx == 0
        &&& ry == 0
        &&& forall|x: int, y: int|
            0 <= x < mw && 0 <= y < mh ==> !(#[trigger] differs_from_map_corner(img, mcx, mcy, x, y))
    }
}

/// Find the location of the cursor's top left corner, relative to the
/// minimap's top-left corner.
#[verifier::loop_isolation(false)]
pub fn find_cursor_location(
    img: &Image,
    map_top_left_corner: (u32, u32),
    map_size: (u32, u32),
) -> (r: (u32, u32))
    requires
        img.wf(),
        map_top_left_corner.0 < img.width(),
        map_top_left_corner.1 < img.height(),
        map_top_left_corner.0 + map_size.0 <= img.width(),
        map_top_left_corner.1 + map_size.1 <= img.height(),
    ensures
        is_cursor_location(
            *img,
            map_top_left_corner.0 as int,
            map_top_left_corner.1 as int,
            map_size.0 as int,
            map_size.1 as int,
            r.0 as int,
            r.1 as int,
        ),
{
    let (mcx, mcy) = map_top_left_corner;
    let reference = img.get_pixel(mcx, mcy);

    let mut x: u32 = 0;
    while x < map_size.0
        invariant
            img.wf(),
            mcx < img.width(),
            mcy < img.height(),
            mcx + map_size.0 <= img.width(),
            mcy + map_size.1 <= img.height(),
            x <= map_size.0,
            reference == img.pixel_at(mcx as int, mcy as int),
            forall|i: int, j: int|
                0 <= i < x as int && 0 <= j < map_size.1 as int ==> !(
                #[trigger] differs_from_map_corner(*img, mcx as int, mcy as int, i, j)),
        decreases map_size.0 - x,
    {
        let mut y: u32 = 0;
        while y < map_size.1
            invariant
                img.wf(),
                mcx < img.width(),
                mcy < img.height(),
                mcx + map_size.0 <= img.width(),
                mcy + map_size.1 <= img.height(),
                x < map_size.0,
                y <= map_size.1,
                reference == img.pixel_at(mcx as int, mcy as int),
                forall|i: int, j: int|
                    0 <= i < x as int && 0 <= j < map_size.1 as int ==> !(
                    #[trigger] differs_from_map_corner(*img, mcx as int, mcy as int, i, j)),
                forall|j: int|
                    0 <= j < y as int ==> !(#[trigger] differs_from_map_corner(
                        *img,
                        mcx as int,
                        mcy as int,
                        x as int,
                        j,
                    )),
            decreases map_size.1 - y,
        {
            if !pixel_are_equals(&img.get_pixel(mcx + x, mcy + y), &reference,
                CURSOR_LOCATE_TOLERANCE) {
                return (x, y);
            }
            y = y + 1;
        }
        x = x + 1;
    }
    (0, 0)
}

/// The pixel `d` steps right of the cursor anchor still matches the anchor's
/// own color within the sizing tolerance.
pub open spec fn matches_anchor_right(img: Image, ax: int, ay: int, d: int) -> bool {
    pixels_match(img.pixel_at(ax + d, ay), img.pixel_at(ax, ay), CURSOR_SIZE_TOLERANCE as int)
}

/// The pixel `d` steps below the cursor anchor still matches the anchor's own
/// color within the sizing tolerance.
pub open spec fn matches_anchor_down(img: Image, ax: int, ay: int, d: int) -> bool {
    pixels_match(img.pixel_at(ax, ay + d), img.pixel_at(ax, ay), CURSOR_SIZE_TOLERANCE as int)
}

/// The cursor blob anchored at `(ax, ay)` runs `w` pixels wide: its color
/// holds for `w` columns and breaks at the next one.
pub open spec fn is_cursor_width(img: Image, ax: int, ay: int, w: int) -> bool {
    &&& 1 <= w
    &&& ax + w < img.width()
    &&& forall|d: int| 0 <= d < w ==> #[trigger] matches_anchor_right(img, ax, ay, d)
    &&& !matches_anchor_right(img, ax, ay, w)
}

/// The cursor blob anchored at `(ax, ay)` runs `h` pixels tall.
pub open spec fn is_cursor_height(img: Image, ax: int, ay: int, h: int) -> bool {
    &&& 1 <= h
    &&& ay + h < img.height()
    &&& forall|d: int| 0 <= d < h ==> #[trigger] matches_anchor_down(img, ax, ay, d)
    &&& !matches_anchor_down(img, ax, ay, h)
}

/// The cursor color run reaches the right image edge unbroken.
pub open spec fn cursor_width_scan_overruns(img: Image, ax: int, ay: int) -> bool {
    forall|d: int| 0 <= d && ax + d < img.width() ==> #[trigger] matches_anchor_right(img, ax, ay, d)
}

/// The cursor color run reaches the bottom image edge unbroken.
pub open spec fn cursor_height_scan_overruns(img: Image, ax: int, ay: int) -> bool {
    forall|d: int| 0 <= d && ay + d < img.height() ==> #[trigger] matches_anchor_down(img, ax, ay, d)
}

/// Get the dimensions of the cursor blob anchored at `cursor_top_left_corner`
/// (absolute image coordinates): follow its color rightward and downward
/// while it stays within the sizing tolerance.
#[verifier::loop_isolation(false)]
pub fn find_cursor_size(img: &Image, cursor_top_left_corner: (u32, u32)) -> (r: Result<
    (u32, u32),
    MapError,
>)
    requires
        img.wf(),
        cursor_top_left_corner.0 < img.width(),
        cursor_top_left_corner.1 < img.height(),
    ensures
        match r {
            Ok(s) => is_cursor_width(
                *img,
                cursor_top_left_corner.0 as int,
                cursor_top_left_corner.1 as int,
                s.0 as int,
            ) && is_cursor_height(
                *img,
                cursor_top_left_corner.0 as int,
                cursor_top_left_corner.1 as int,
                s.1 as int,
            ),
            Err(e) => e == MapError::BoundsOverrun && (cursor_width_scan_overruns(
                *img,
                cursor_top_left_corner.0 as int,
                cursor_top_left_corner.1 as int,
            ) || cursor_height_scan_overruns(
                *img,
                cursor_top_left_corner.0 as int,
                cursor_top_left_corner.1 as int,
            )),
        },
{
    let (ax, ay) = cursor_top_left_corner;
    let cursor_color = img.get_pixel(ax, ay);

    let mut width: u32 = 0;
    while ax + width < img.width() && pixel_are_equals(
        &img.get_pixel(ax + width, ay),
        &cursor_color,
        CURSOR_SIZE_TOLERANCE,
    )
        invariant
            img.wf(),
            ax < img.width(),
            ay < img.height(),
            ax + width <= img.width(),
            cursor_color == img.pixel_at(ax as int, ay as int),
            forall|d: int|
                0 <= d < width as int ==> #[trigger] matches_anchor_right(
                    *img,
                    ax as int,
                    ay as int,
                    d,
                ),
        decreases img.width() - (ax + width),
    {
        width = width + 1;
    }
    if ax + width == img.width() {
        return Err(MapError::BoundsOverrun);
    }

    let mut height: u32 = 0;
    while ay + height < img.height() && pixel_are_equals(
        &img.get_pixel(ax, ay + height),
        &cursor_color,
        CURSOR_SIZE_TOLERANCE,
    )
        invariant
            img.wf(),
            ax < img.width(),
            ay < img.height(),
            ay + height <= img.height(),
            cursor_color == img.pixel_at(ax as int, ay as int),
            forall|d: int|
                0 <= d < height as int ==> #[trigger] matches_anchor_down(
                    *img,
                    ax as int,
                    ay as int,
                    d,
                ),
        decreases img.height() - (ay + height),
    {
        height = height + 1;
    }
    if ay + height == img.height() {
        return Err(MapError::BoundsOverrun);
    }

    Ok((width, height))
}

/// The minimap corner is uniquely determined by the image: two coordinates
/// that both satisfy [`is_map_corner`] are the same coordinate.
pub proof fn lemma_map_corner_unique(img: Image, x1: int, y1: int, x2: int, y2: int)
    requires
        is_map_corner(img, x1, y1),
        is_map_corner(img, x2, y2),
    ensures
        x1 == x2,
        y1 == y2,
{
    if corner_scan_before(x1, y1, x2, y2) {
        assert(is_background(img, x1, y1));
        assert(false);
    } else if corner_scan_before(x2, y2, x1, y1) {
        assert(is_background(img, x2, y2));
        assert(false);
    }
}

/// The minimap width measured from a given corner is uniquely determined.
pub proof fn lemma_map_width_unique(img: Image, cx: int, cy: int, w1: int, w2: int)
    requires
        is_map_width(img, cx, cy, w1),
        is_map_width(img, cx, cy, w2),
    ensures
        w1 == w2,
{
    if w1 < w2 {
        assert(is_background(img, cx + w1 + 1, cy));
        assert(!is_background(img, cx + w1 + 1, cy));
    } else if w2 < w1 {
        assert(is_background(img, cx + w2 + 1, cy));
        assert(!is_background(img, cx + w2 + 1, cy));
    }
}

/// The minimap height measured from a given corner is uniquely determined.
pub proof fn lemma_map_height_unique(img: Image, cx: int, cy: int, h1: int, h2: int)
    requires
        is_map_height(img, cx, cy, h1),
        is_map_height(img, cx, cy, h2),
    ensures
        h1 == h2,
{
    if h1 < h2 {
        assert(is_background(img, cx, cy + h1 + 1));
        assert(!is_background(img, cx, cy + h1 + 1));
    } else if h2 < h1 {
        assert(is_background(img, cx, cy + h2 + 1));
        assert(!is_background(img, cx, cy + h2 + 1));
    }
}

/// The cursor location within given minimap bounds is uniquely determined.
pub proof fn lemma_cursor_location_unique(
    img: Image,
    mcx: int,
    mcy: int,
    mw: int,
    mh: int,
    x1: int,
    y1: int,
    x2: int,
    y2: int,
)
    requires
        is_cursor_location(img, mcx, mcy, mw, mh, x1, y1),
        is_cursor_location(img, mcx, mcy, mw, mh, x2, y2),
    ensures
        x1 == x2,
        y1 == y2,
{
    let found1 = 0 <= x1 < mw && 0 <= y1 < mh && differs_from_map_corner(img, mcx, mcy, x1, y1);
    let found2 = 0 <= x2 < mw && 0 <= y2 < mh && differs_from_map_corner(img, mcx, mcy, x2, y2);
    if found1 && found2 {
        if cursor_scan_before(x1, y1, x2, y2) {
            assert(!differs_from_map_corner(img, mcx, mcy, x1, y1));
        } else if cursor_scan_before(x2, y2, x1, y1) {
            assert(!differs_from_map_corner(img, mcx, mcy, x2, y2));
        }
    } else if found1 {
        assert(!differs_from_map_corner(img, mcx, mcy, x1, y1));
    } else if found2 {
        assert(!differs_from_map_corner(img, mcx, mcy, x2, y2));
    }
}

/// The cursor width measured from a given anchor is uniquely determined.
pub proof fn lemma_cursor_width_unique(img: Image, ax: int, ay: int, w1: int, w2: int)
    requires
        is_cursor_width(img, ax, ay, w1),
        is_cursor_width(img, ax, ay, w2),
    ensures
        w1 == w2,
{
    if w1 < w2 {
        assert(matches_anchor_right(img, ax, ay, w1));
    } else if w2 < w1 {
        assert(matches_anchor_right(img, ax, ay, w2));
    }
}

/// The cursor height measured from a given anchor is uniquely determined.
pub proof fn lemma_cursor_height_unique(img: Image, ax: int, ay: int, h1: int, h2: int)
    requires
        is_cursor_height(img, ax, ay, h1),
        is_cursor_height(img, ax, ay, h2),
    ensures
        h1 == h2,
{
    if h1 < h2 {
        assert(matches_anchor_down(img, ax, ay, h1));
    } else if h2 < h1 {
        assert(matches_anchor_down(img, ax, ay, h2));
    }
}

/// On an image that is overlay background everywhere except one solid
/// rectangle of map content — left edge `rx`, top edge `ry`, `w` by `h`
/// pixels, clear of the right and bottom image edges, with `rx <= ry` so the
/// diagonal scan meets its top-left pixel first — the boundary locator's
/// answer is exactly `(rx, ry)` and the extent scanner's answer is exactly
/// `(w - 1, h - 1)`, one boundary pixel excluded per axis.
pub proof fn lemma_synthetic_map_detection(img: Image, rx: int, ry: int, w: int, h: int)
    requires
        0 <= rx <= ry,
        1 <= w,
        1 <= h,
        rx + w < img.width(),
        ry + h < img.height(),
        forall|x: int, y: int|
            0 <= x < img.width() && 0 <= y < img.height() && !(rx <= x < rx + w && ry <= y < ry
                + h) ==> #[trigger] is_background(img, x, y),
        forall|x: int, y: int|
            rx <= x < rx + w && ry <= y < ry + h ==> !(#[trigger] is_background(img, x, y)),
    ensures
        is_map_corner(img, rx, ry),
        is_map_width(img, rx, ry, w - 1),
        is_map_height(img, rx, ry, h - 1),
{
    assert(!is_background(img, rx, ry));
    assert(is_background(img, rx + w, ry));
    assert(is_background(img, rx, ry + h));
}

/// On a minimap filled with one terrain color except one solid cursor blob of
/// another color — relative offset `(bx, by)`, `bw` by `bh` pixels, away from
/// the minimap's top-left pixel and clear of its right and bottom edges — and
/// with the two colors separated by more than both cursor tolerances, the
/// cursor locator's answer is exactly `(bx, by)` and the cursor sizer's
/// answer is exactly `(bw, bh)`.
pub proof fn lemma_synthetic_cursor_detection(
    img: Image,
    mcx: int,
    mcy: int,
    mw: int,
    mh: int,
    bx: int,
    by: int,
    bw: int,
    bh: int,
    terrain: Pixel,
    blob: Pixel,
)
    requires
        0 <= mcx,
        0 <= mcy,
        mcx + mw <= img.width(),
        mcy + mh <= img.height(),
        0 < bx,
        0 < by,
        1 <= bw,
        1 <= bh,
        bx + bw < mw,
        by + bh < mh,
        forall|x: int, y: int|
            mcx <= x < mcx + mw && mcy <= y < mcy + mh && !(mcx + bx <= x < mcx + bx + bw && mcy
                + by <= y < mcy + by + bh) ==> #[trigger] img.pixel_at(x, y) == terrain,
        forall|x: int, y: int|
            mcx + bx <= x < mcx + bx + bw && mcy + by <= y < mcy + by + bh
                ==> #[trigger] img.pixel_at(x, y) == blob,
        !pixels_match(blob, terrain, CURSOR_LOCATE_TOLERANCE as int),
        !pixels_match(blob, terrain, CURSOR_SIZE_TOLERANCE as int),
    ensures
        is_cursor_location(img, mcx, mcy, mw, mh, bx, by),
        is_cursor_width(img, mcx + bx, mcy + by, bw),
        is_cursor_height(img, mcx + bx, mcy + by, bh),
{
    assert(img.pixel_at(mcx, mcy) == terrain);
    assert(img.pixel_at(mcx + bx, mcy + by) == blob);
    assert(differs_from_map_corner(img, mcx, mcy, bx, by));
    assert forall|x: int, y: int|
        0 <= x < mw && 0 <= y < mh && cursor_scan_before(x, y, bx, by) implies !(
    differs_from_map_corner(img, mcx, mcy, x, y)) by {
        assert(img.pixel_at(mcx + x, mcy + y) == terrain);
    }
    assert forall|d: int| 0 <= d < bw implies #[trigger] matches_anchor_right(img, mcx + bx, mcy + by, d) by {
        assert(img.pixel_at(mcx + bx + d, mcy + by) == blob);
    }
    assert(img.pixel_at(mcx + bx + bw, mcy + by) == terrain);
    assert(!matches_anchor_right(img, mcx + bx, mcy + by, bw));
    assert forall|d: int| 0 <= d < bh implies #[trigger] matches_anchor_down(img, mcx + bx, mcy + by, d) by {
        assert(img.pixel_at(mcx + bx, mcy + by + d) == blob);
    }
    assert(img.pixel_at(mcx + bx, mcy + by + bh) == terrain);
    assert(!matches_anchor_down(img, mcx + bx, mcy + by, bh));
}

} // verus!
