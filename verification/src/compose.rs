//! The compositor: runs the detection stages on a screenshot and pastes it
//! into the output canvas at the cell its cursor tile index selects.

use vstd::prelude::*;

use crate::detect::{
    corner_scan_exhausted, cursor_height_scan_overruns, cursor_width_scan_overruns,
    find_cursor_location, find_cursor_size, find_map_size, find_map_top_left_corner,
    height_scan_overruns, is_background, is_cursor_height, is_cursor_location, is_cursor_width,
    is_map_corner, is_map_height, is_map_width, lemma_cursor_height_unique,
    lemma_cursor_location_unique, lemma_cursor_width_unique, lemma_map_corner_unique,
    lemma_map_height_unique, lemma_map_width_unique, matches_anchor_down, matches_anchor_right,
    width_scan_overruns,
};
use crate::grid::{pasted, Image};
use crate::tiles::{map_tiles_x, map_tiles_y, tile_x, tile_y, TILE_PAD_X, TILE_PAD_Y};
use crate::MapError;

verus! {

/// All four detection stages succeed on `img` with these results: minimap
/// corner `(mcx, mcy)`, minimap extent `(mw, mh)`, cursor location `(lx, ly)`
/// relative to the corner, and cursor size `(cw, ch)`.
pub open spec fn pipeline_results(
    img: Image,
    mcx: int,
    mcy: int,
    mw: int,
    mh: int,
    lx: int,
    ly: int,
    cw: int,
    ch: int,
) -> bool {
    &&& is_map_corner(img, mcx, mcy)
    &&& is_map_width(img, mcx, mcy, mw)
    &&& is_map_height(img, mcx, mcy, mh)
    &&& is_cursor_location(img, mcx, mcy, mw, mh, lx, ly)
    &&& is_cursor_width(img, mcx + lx, mcy + ly, cw)
    &&& is_cursor_height(img, mcx + lx, mcy + ly, ch)
}

/// No combination of stage results succeeds on `img`: some scan overruns.
pub open spec fn pipeline_fails(img: Image) -> bool {
    forall|mcx: int, mcy: int, mw: int, mh: int, lx: int, ly: int, cw: int, ch: int|
        !(#[trigger] pipeline_results(img, mcx, mcy, mw, mh, lx, ly, cw, ch))
}

/// The detection pipeline is deterministic: any two sets of stage results for
/// the same image agree, and so do the tile index and map dimensions computed
/// from them. Re-running the pipeline on an image cannot move its tile.
pub proof fn lemma_pipeline_deterministic(
    img: Image,
    mcx1: int,
    mcy1: int,
    mw1: int,
    mh1: int,
    lx1: int,
    ly1: int,
    cw1: int,
    ch1: int,
    mcx2: int,
    mcy2: int,
    mw2: int,
    mh2: int,
    lx2: int,
    ly2: int,
    cw2: int,
    ch2: int,
)
    requires
        pipeline_results(img, mcx1, mcy1, mw1, mh1, lx1, ly1, cw1, ch1),
        pipeline_results(img, mcx2, mcy2, mw2, mh2, lx2, ly2, cw2, ch2),
    ensures
        mcx1 == mcx2,
        mcy1 == mcy2,
        mw1 == mw2,
        mh1 == mh2,
        lx1 == lx2,
        ly1 == ly2,
        cw1 == cw2,
        ch1 == ch2,
        tile_x(lx1, cw1) == tile_x(lx2, cw2),
        tile_y(ly1, ch1) == tile_y(ly2, ch2),
        map_tiles_x(mw1, cw1) == map_tiles_x(mw2, cw2),
        map_tiles_y(mh1, ch1) == map_tiles_y(mh2, ch2),
{
    lemma_map_corner_unique(img, mcx1, mcy1, mcx2, mcy2);
    lemma_map_width_unique(img, mcx1, mcy1, mw1, mw2);
    lemma_map_height_unique(img, mcx1, mcy1, mh1, mh2);
    lemma_cursor_location_unique(img, mcx1, mcy1, mw1, mh1, lx1, ly1, lx2, ly2);
    lemma_cursor_width_unique(img, mcx1 + lx1, mcy1 + ly1, cw1, cw2);
    lemma_cursor_height_unique(img, mcx1 + lx1, mcy1 + ly1, ch1, ch2);
}

/// When every pixel the corner scan reaches is background, no stage tuple can
/// succeed: the corner stage itself has no answer.
proof fn lemma_pipeline_fails_when_exhausted(img: Image)
    requires
        corner_scan_exhausted(img),
    ensures
        pipeline_fails(img),
{
    assert forall|mcx: int, mcy: int, mw: int, mh: int, lx: int, ly: int, cw: int, ch: int|
        !(#[trigger] pipeline_results(img, mcx, mcy, mw, mh, lx, ly, cw, ch)) by {
        if pipeline_results(img, mcx, mcy, mw, mh, lx, ly, cw, ch) {
            assert(is_background(img, mcx, mcy));
        }
    }
}

/// When the extent scan from the (unique) corner overruns the image, no stage
/// tuple can succeed.
proof fn lemma_pipeline_fails_when_size_overrun(img: Image, cx: int, cy: int)
    requires
        is_map_corner(img, cx, cy),
        width_scan_overruns(img, cx, cy) || height_scan_overruns(img, cx, cy),
    ensures
        pipeline_fails(img),
{
    assert forall|mcx: int, mcy: int, mw: int, mh: int, lx: int, ly: int, cw: int, ch: int|
        !(#[trigger] pipeline_results(img, mcx, mcy, mw, mh, lx, ly, cw, ch)) by {
        if pipeline_results(img, mcx, mcy, mw, mh, lx, ly, cw, ch) {
            lemma_map_corner_unique(img, mcx, mcy, cx, cy);
            if width_scan_overruns(img, cx, cy) {
                assert(is_background(img, cx + mw + 1, cy));
            } else {
                assert(is_background(img, cx, cy + mh + 1));
            }
        }
    }
}

/// When the cursor sizing scan from the (unique) anchor overruns the image,
/// no stage tuple can succeed.
proof fn lemma_pipeline_fails_when_cursor_overrun(
    img: Image,
    cx: int,
    cy: int,
    w: int,
    h: int,
    x: int,
    y: int,
)
    requires
        is_map_corner(img, cx, cy),
        is_map_width(img, cx, cy, w),
        is_map_height(img, cx, cy, h),
        is_cursor_location(img, cx, cy, w, h, x, y),
        cursor_width_scan_overruns(img, cx + x, cy + y) || cursor_height_scan_overruns(
            img,
            cx + x,
            cy + y,
        ),
    ensures
        pipeline_fails(img),
{
    assert forall|mcx: int, mcy: int, mw: int, mh: int, lx: int, ly: int, cw: int, ch: int|
        !(#[trigger] pipeline_results(img, mcx, mcy, mw, mh, lx, ly, cw, ch)) by {
        if pipeline_results(img, mcx, mcy, mw, mh, lx, ly, cw, ch) {
            lemma_map_corner_unique(img, mcx, mcy, cx, cy);
            lemma_map_width_unique(img, cx, cy, mw, w);
            lemma_map_height_unique(img, cx, cy, mh, h);
            lemma_cursor_location_unique(img, cx, cy, w, h, lx, ly, x, y);
            if cursor_width_scan_overruns(img, cx + x, cy + y) {
                assert(matches_anchor_right(img, cx + x, cy + y, cw));
            } else {
                assert(matches_anchor_down(img, cx + x, cy + y, ch));
            }
        }
    }
}

/// Run the full pipeline on `img` and paste the whole screenshot into the
/// output canvas at the pixel offset its tile index selects:
/// `(tile_x * minimap_width, tile_y * minimap_height)`.
pub fn add_image_to_map(map: &mut Image, img: &Image) -> (r: Result<(), MapError>)
    requires
        old(map).wf(),
        img.wf(),
    ensures
        final(map).wf(),
        final(map).width() == old(map).width(),
        final(map).height() == old(map).height(),
        match r {
            Ok(()) => exists|
                mcx: int,
                mcy: int,
                mw: int,
                mh: int,
                lx: int,
                ly: int,
                cw: int,
                ch: int,
            |
                {
                    &&& #[trigger] pipeline_results(*img, mcx, mcy, mw, mh, lx, ly, cw, ch)
                    &&& tile_x(lx, cw) * mw + img.width() <= old(map).width()
                    &&& tile_y(ly, ch) * mh + img.height() <= old(map).height()
                    &&& pasted(
                        *old(map),
                        *img,
                        tile_x(lx, cw) * mw,
                        tile_y(ly, ch) * mh,
                        *final(map),
                    )
                },
            Err(MapError::BoundsOverrun) => pipeline_fails(*img) && *final(map) == *old(map),
            Err(MapError::CompositeOutOfBounds) => *final(map) == *old(map) && exists|
                mcx: int,
                mcy: int,
                mw: int,
                mh: int,
                lx: int,
                ly: int,
                cw: int,
                ch: int,
            |
                {
                    &&& #[trigger] pipeline_results(*img, mcx, mcy, mw, mh, lx, ly, cw, ch)
                    &&& tile_x(lx, cw) * mw + img.width() > old(map).width() || tile_y(ly, ch) * mh
                        + img.height() > old(map).height()
                },
        },
{
    let map_top_left_corner = match find_map_top_left_corner(img) {
        Ok(c) => c,
        Err(_) => {
            proof {
                lemma_pipeline_fails_when_exhausted(*img);
            }
            return Err(MapError::BoundsOverrun);
        },
    };
    let map_size = match find_map_size(img, map_top_left_corner) {
        Ok(s) => s,
        Err(_) => {
            proof {
                lemma_pipeline_fails_when_size_overrun(
                    *img,
                    map_top_left_corner.0 as int,
                    map_top_left_corner.1 as int,
                );
            }
            return Err(MapError::BoundsOverrun);
        },
    };
    let cursor_top_left_corner = find_cursor_location(img, map_top_left_corner, map_size);
    let cursor_top_left_corner_absolute = (
        map_top_left_corner.0 + cursor_top_left_corner.0,
        map_top_left_corner.1 + cursor_top_left_corner.1,
    );
    let cursor_size = match find_cursor_size(img, cursor_top_left_corner_absolute) {
        Ok(s) => s,
        Err(_) => {
            proof {
                lemma_pipeline_fails_when_cursor_overrun(
                    *img,
                    map_top_left_corner.0 as int,
                    map_top_left_corner.1 as int,
                    map_size.0 as int,
                    map_size.1 as int,
                    cursor_top_left_corner.0 as int,
                    cursor_top_left_corner.1 as int,
                );
            }
            return Err(MapError::BoundsOverrun);
        },
    };

    let ghost mcx = map_top_left_corner.0 as int;
    let ghost mcy = map_top_left_corner.1 as int;
    let ghost mw = map_size.0 as int;
    let ghost mh = map_size.1 as int;
    let ghost lx = cursor_top_left_corner.0 as int;
    let ghost ly = cursor_top_left_corner.1 as int;
    let ghost cw = cursor_size.0 as int;
    let ghost ch = cursor_size.1 as int;
    proof {
        assert(pipeline_results(*img, mcx, mcy, mw, mh, lx, ly, cw, ch));
    }

    // The tile arithmetic runs in u64, where no u32 inputs can overflow it.
    let pitch_x: u64 = cursor_size.0 as u64 + TILE_PAD_X as u64;
    let pitch_y: u64 = cursor_size.1 as u64 + TILE_PAD_Y as u64;
    let tile_col: u64 = (cursor_top_left_corner.0 as u64 + pitch_x / 2) / pitch_x;
    let tile_row: u64 = (cursor_top_left_corner.1 as u64 + pitch_y / 2) / pitch_y;

    let offset_x: u64 = match tile_col.checked_mul(map_size.0 as u64) {
        Some(v) => v,
        None => {
            return Err(MapError::CompositeOutOfBounds);
        },
    };
    let offset_y: u64 = match tile_row.checked_mul(map_size.1 as u64) {
        Some(v) => v,
        None => {
            return Err(MapError::CompositeOutOfBounds);
        },
    };
    if offset_x > u32::MAX as u64 || offset_y > u32::MAX as u64 {
        return Err(MapError::CompositeOutOfBounds);
    }

    match map.copy_from(img, offset_x as u32, offset_y as u32) {
        Ok(()) => Ok(()),
        Err(e) => Err(e),
    }
}

} // verus!
