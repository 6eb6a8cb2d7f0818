//! A plain pixel grid.
//!
//! Source screenshots and the output canvas are both values of [`Image`]:
//! a rectangular grid of RGB pixels, row-major, origin at the top left,
//! x rightward and y downward. Decoding a file into such a grid, and encoding
//! one back out, is the caller's business.

use vstd::prelude::*;

use crate::pixel::Pixel;
use crate::MapError;

verus! {

/// A rectangular grid of pixels.
pub struct Image {
    width: u32,
    height: u32,
    rows: Vec<Vec<Pixel>>,
}

impl Image {
    /// The grid really is `width` columns by `height` rows.
    pub closed spec fn wf(self) -> bool {
        &&& self.rows@.len() == self.height as int
        &&& forall|y: int|
            0 <= y < self.rows@.len() ==> (#[trigger] self.rows@[y])@.len() == self.width as int
    }

    pub closed spec fn spec_width(&self) -> u32 {
        self.width
    }

    pub closed spec fn spec_height(&self) -> u32 {
        self.height
    }

    /// The pixel in column `x` of row `y`.
    pub closed spec fn pixel_at(self, x: int, y: int) -> Pixel {
        self.rows@[y]@[x]
    }

    /// Width of the image in pixels.
    #[verifier::when_used_as_spec(spec_width)]
    pub fn width(&self) -> (w: u32)
        ensures
            w == self.spec_width(),
    {
        self.width
    }

    /// Height of the image in pixels.
    #[verifier::when_used_as_spec(spec_height)]
    pub fn height(&self) -> (h: u32)
        ensures
            h == self.spec_height(),
    {
        self.height
    }

    /// A `width` by `height` image with every pixel set to `fill`.
    pub fn new(width: u32, height: u32, fill: Pixel) -> (img: Image)
        ensures
            img.wf(),
            img.width() == width,
            img.height() == height,
            forall|x: int, y: int|
                0 <= x < width && 0 <= y < height ==> img.pixel_at(x, y) == fill,
    {
        let mut rows: Vec<Vec<Pixel>> = Vec::new();
        let mut y: u32 = 0;
        while y < height
            invariant
                y <= height,
                rows@.len() == y as int,
                forall|j: int| 0 <= j < y as int ==> (#[trigger] rows@[j])@.len() == width as int,
                forall|i: int, j: int|
                    0 <= i < width as int && 0 <= j < y as int ==> rows@[j]@[i] == fill,
            decreases height - y,
        {
            let mut row: Vec<Pixel> = Vec::new();
            let mut x: u32 = 0;
            while x < width
                invariant
                    x <= width,
                    row@.len() == x as int,
                    forall|i: int| 0 <= i < x as int ==> row@[i] == fill,
                decreases width - x,
            {
                row.push(fill);
                x = x + 1;
            }
            rows.push(row);
            y = y + 1;
        }
        Image { width, height, rows }
    }

    /// Read the pixel at `(x, y)`.
    pub fn get_pixel(&self, x: u32, y: u32) -> (p: Pixel)
        requires
            self.wf(),
            x < self.width(),
            y < self.height(),
        ensures
            p == self.pixel_at(x as int, y as int),
    {
        self.rows[y as usize][x as usize]
    }

    /// Overwrite the pixel at `(x, y)`; every other pixel keeps its value.
    pub fn set_pixel(&mut self, x: u32, y: u32, p: Pixel)
        requires
            old(self).wf(),
            x < old(self).width(),
            y < old(self).height(),
        ensures
            final(self).wf(),
            final(self).width() == old(self).width(),
            final(self).height() == old(self).height(),
            final(self).pixel_at(x as int, y as int) == p,
            forall|i: int, j: int|
                0 <= i < old(self).width() && 0 <= j < old(self).height() && !(i == x as int && j
                    == y as int) ==> final(self).pixel_at(i, j) == old(self).pixel_at(i, j),
    {
        let row = &mut self.rows[y as usize];
        row[x as usize] = p;
    }

    /// Two images are pixel-for-pixel the same.
    pub open spec fn same_pixels(self, other: Image) -> bool {
        &&& self.width() == other.width()
        &&& self.height() == other.height()
        &&& forall|x: int, y: int|
            0 <= x < self.width() && 0 <= y < self.height() ==> self.pixel_at(x, y)
                == other.pixel_at(x, y)
    }
}

/// `(x, y)` lies in the region that pasting `src` at `(ox, oy)` writes.
pub open spec fn in_paste_region(src: Image, ox: int, oy: int, x: int, y: int) -> bool {
    ox <= x < ox + src.width() && oy <= y < oy + src.height()
}

/// `dst_new` is `dst_old` with the whole of `src` pasted at `(ox, oy)`: the
/// pasted region carries `src`'s pixels and every other pixel is untouched.
pub open spec fn pasted(dst_old: Image, src: Image, ox: int, oy: int, dst_new: Image) -> bool {
    &&& dst_new.width() == dst_old.width()
    &&& dst_new.height() == dst_old.height()
    &&& forall|x: int, y: int|
        0 <= x < src.width() && 0 <= y < src.height() ==> dst_new.pixel_at(ox + x, oy + y) == (
        #[trigger] src.pixel_at(x, y))
    &&& forall|x: int, y: int|
        0 <= x < dst_old.width() && 0 <= y < dst_old.height() && !in_paste_region(src, ox, oy, x, y)
            ==> #[trigger] dst_new.pixel_at(x, y) == dst_old.pixel_at(x, y)
}

impl Image {
    /// Copy the whole of `src` into `self`, its top-left corner at `(x, y)`.
    /// When the pasted region would not fit inside `self`, nothing is written
    /// and the composite is reported out of bounds.
    #[verifier::loop_isolation(false)]
    pub fn copy_from(&mut self, src: &Image, x: u32, y: u32) -> (r: Result<(), MapError>)
        requires
            old(self).wf(),
            src.wf(),
        ensures
            final(self).wf(),
            final(self).width() == old(self).width(),
            final(self).height() == old(self).height(),
            match r {
                Ok(()) => {
                    &&& x + src.width() <= old(self).width()
                    &&& y + src.height() <= old(self).height()
                    &&& pasted(*old(self), *src, x as int, y as int, *final(self))
                },
                Err(e) => {
                    &&& e == MapError::CompositeOutOfBounds
                    &&& x + src.width() > old(self).width() || y + src.height() > old(self).height()
                    &&& *final(self) == *old(self)
                },
            },
    {
        if x as u64 + src.width() as u64 > self.width() as u64 || y as u64 + src.height() as u64
            > self.height() as u64 {
            return Err(MapError::CompositeOutOfBounds);
        }

        let mut j: u32 = 0;
        while j < src.height()
            invariant
                self.wf(),
                self.width() == old(self).width(),
                self.height() == old(self).height(),
                j <= src.height(),
                forall|a: int, b: int|
                    0 <= a < src.width() && 0 <= b < j as int ==> self.pixel_at(
                        x as int + a,
                        y as int + b,
                    ) == #[trigger] src.pixel_at(a, b),
                forall|a: int, b: int|
                    0 <= a < old(self).width() && 0 <= b < old(self).height() && !in_paste_region(
                        *src,
                        x as int,
                        y as int,
                        a,
                        b,
                    ) ==> #[trigger] self.pixel_at(a, b) == old(self).pixel_at(a, b),
            decreases src.height() - j,
        {
            let mut i: u32 = 0;
            while i < src.width()
                invariant
                    self.wf(),
                    self.width() == old(self).width(),
                    self.height() == old(self).height(),
                    j < src.height(),
                    i <= src.width(),
                    forall|a: int, b: int|
                        0 <= a < src.width() && 0 <= b < j as int ==> self.pixel_at(
                            x as int + a,
                            y as int + b,
                        ) == #[trigger] src.pixel_at(a, b),
                    forall|a: int|
                        0 <= a < i as int ==> self.pixel_at(x as int + a, y as int + j as int) == (
                        #[trigger] src.pixel_at(a, j as int)),
                    forall|a: int, b: int|
                        0 <= a < old(self).width() && 0 <= b < old(self).height()
                            && !in_paste_region(*src, x as int, y as int, a, b) ==> #[trigger] self
                            .pixel_at(a, b) == old(self).pixel_at(a, b),
                decreases src.width() - i,
            {
                let p = src.get_pixel(i, j);
                self.set_pixel(x + i, y + j, p);
                i = i + 1;
            }
            j = j + 1;
        }
        Ok(())
    }
}

/// Pasting over an earlier paste at the same offset erases it: when two
/// sources of equal dimensions land on the same region of the same canvas,
/// the canvas ends up pixel-for-pixel as if only the second had been pasted.
/// Colliding composites therefore have a deterministic last-write outcome.
pub proof fn lemma_paste_last_write(
    canvas: Image,
    first: Image,
    second: Image,
    ox: int,
    oy: int,
    after_first: Image,
    after_both: Image,
    only_second: Image,
)
    requires
        first.width() == second.width(),
        first.height() == second.height(),
        pasted(canvas, first, ox, oy, after_first),
        pasted(after_first, second, ox, oy, after_both),
        pasted(canvas, second, ox, oy, only_second),
    ensures
        after_both.same_pixels(only_second),
{
    assert forall|x: int, y: int|
        0 <= x < after_both.width() && 0 <= y < after_both.height() implies after_both.pixel_at(
        x,
        y,
    ) == only_second.pixel_at(x, y) by {
        if in_paste_region(second, ox, oy, x, y) {
            let a = x - ox;
            let b = y - oy;
            assert(after_both.pixel_at(ox + a, oy + b) == second.pixel_at(a, b));
            assert(only_second.pixel_at(ox + a, oy + b) == second.pixel_at(a, b));
        } else {
            assert(after_both.pixel_at(x, y) == after_first.pixel_at(x, y));
            assert(after_first.pixel_at(x, y) == canvas.pixel_at(x, y));
            assert(only_second.pixel_at(x, y) == canvas.pixel_at(x, y));
        }
    }
}

} // verus!
