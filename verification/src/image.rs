//! The output image: a row-major buffer of colours with fixed dimensions,
//! written exactly once per pixel during a render.
//!
//! Buffer slot `i` carries the pixel at column `i % width` and row
//! `height - i / width`: columns count from 0 upward, rows from `height` at
//! the top of the buffer down to 1 at its end.

use vstd::prelude::*;
use vstd::pervasive::VecAdditionalExecFns;

use crate::colour::Colour;

verus! {

/// The buffer slot that holds the pixel at column `x`, row `y`.
pub open spec fn slot_index(width: int, height: int, x: int, y: int) -> int {
    (height - y) * width + x
}

/// A rectangular colour buffer, row-major, dimensions fixed at creation.
pub struct Image {
    width: u16,
    height: u16,
    buffer: Vec<Colour>,
}

impl Image {
    /// The buffer holds exactly one slot per pixel.
    pub open spec fn wf(self) -> bool {
        self.view().len() == self.spec_width() * self.spec_height()
    }

    /// The buffer contents, in slot order.
    pub closed spec fn view(self) -> Seq<Colour> {
        self.buffer@
    }

    pub closed spec fn spec_width(self) -> u16 {
        self.width
    }

    pub closed spec fn spec_height(self) -> u16 {
        self.height
    }

    /// A buffer of the given dimensions with every pixel set to `fill`.
    pub fn new(width: u16, height: u16, fill: Colour) -> (img: Image)
        ensures
            img.wf(),
            img.spec_width() == width,
            img.spec_height() == height,
            forall|i: int| 0 <= i < img.view().len() ==> img.view()[i] == fill,
    {
        proof {
            assert((width as int) * (height as int) <= 65535 * 65535) by (nonlinear_arith)
                requires
                    width <= 65535,
                    height <= 65535,
            ;
        }
        let total: usize = (width as usize) * (height as usize);
        let mut buffer: Vec<Colour> = Vec::new();
        while buffer.len() < total
            invariant
                buffer@.len() <= total,
                forall|i: int| 0 <= i < buffer@.len() ==> buffer@[i] == fill,
            decreases total - buffer@.len(),
        {
            buffer.push(fill);
        }
        Image { width, height, buffer }
    }

    pub fn width(&self) -> (w: u16)
        ensures
            w == self.spec_width(),
    {
        self.width
    }

    pub fn height(&self) -> (h: u16)
        ensures
            h == self.spec_height(),
    {
        self.height
    }

    /// The colour at column `x`, row `y`.
    pub fn pixel(&self, x: u16, y: u16) -> (c: Colour)
        requires
            self.wf(),
            x < self.spec_width(),
            1 <= y <= self.spec_height(),
        ensures
            c == self.view()[slot_index(
                self.spec_width() as int,
                self.spec_height() as int,
                x as int,
                y as int,
            )],
    {
        proof {
            lemma_slot_index_in_range(
                self.width as int,
                self.height as int,
                x as int,
                y as int,
            );
            assert((self.width as int) * (self.height as int) <= 65535 * 65535)
                by (nonlinear_arith)
                requires
                    self.width <= 65535,
                    self.height <= 65535,
            ;
        }
        let idx: usize = (self.height - y) as usize * self.width as usize + x as usize;
        self.buffer[idx]
    }

    /// Writes the pixel at column `x`, row `y`, leaving every other slot
    /// unchanged.
    pub fn set_pixel(&mut self, x: u16, y: u16, colour: Colour)
        requires
            old(self).wf(),
            x < old(self).spec_width(),
            1 <= y <= old(self).spec_height(),
        ensures
            final(self).wf(),
            final(self).spec_width() == old(self).spec_width(),
            final(self).spec_height() == old(self).spec_height(),
            final(self).view() == old(self).view().update(
                slot_index(
                    old(self).spec_width() as int,
                    old(self).spec_height() as int,
                    x as int,
                    y as int,
                ),
                colour,
            ),
    {
        proof {
            lemma_slot_index_in_range(
                self.width as int,
                self.height as int,
                x as int,
                y as int,
            );
            assert((self.width as int) * (self.height as int) <= 65535 * 65535)
                by (nonlinear_arith)
                requires
                    self.width <= 65535,
                    self.height <= 65535,
            ;
        }
        let idx: usize = (self.height - y) as usize * self.width as usize + x as usize;
        self.buffer.set(idx, colour);
    }

    /// Writes buffer slot `i` directly, leaving every other slot unchanged.
    pub fn set_slot(&mut self, i: usize, colour: Colour)
        requires
            old(self).wf(),
            i < old(self).view().len(),
        ensures
            final(self).wf(),
            final(self).spec_width() == old(self).spec_width(),
            final(self).spec_height() == old(self).spec_height(),
            final(self).view() == old(self).view().update(i as int, colour),
    {
        self.buffer.set(i, colour);
    }

    /// The number of pixel slots in the buffer.
    pub fn slot_count(&self) -> (n: usize)
        ensures
            n == self.view().len(),
    {
        self.buffer.len()
    }

    /// The colour in buffer slot `i`.
    pub fn slot(&self, i: usize) -> (c: Colour)
        requires
            i < self.view().len(),
        ensures
            c == self.view()[i as int],
    {
        self.buffer[i]
    }

    /// The coordinates of every pixel, in buffer order: the renderer walks
    /// this list and fills each slot exactly once.
    pub fn iter_mut(&self) -> (coords: Vec<(u16, u16)>)
        requires
            self.wf(),
        ensures
            coords@.len() == self.view().len(),
            forall|i: int|
                0 <= i < coords@.len() ==> coords@[i].0 == i % (self.spec_width() as int)
                    && coords@[i].1 == self.spec_height() - i / (self.spec_width() as int),
    {
        let total: usize = self.buffer.len();
        let width: u16 = self.width;
        let height: u16 = self.height;
        let mut coords: Vec<(u16, u16)> = Vec::new();
        let mut i: usize = 0;
        while i < total
            invariant
                coords@.len() == i,
                i <= total,
                total == width * height,
                forall|k: int|
                    0 <= k < i ==> coords@[k].0 == k % (width as int) && coords@[k].1 == height
                        - k / (width as int),
            decreases total - i,
        {
            proof {
                assert(width >= 1) by (nonlinear_arith)
                    requires
                        i < width * height,
                ;
                assert(0 <= (i as int) % (width as int) < width as int
                    && 0 <= (i as int) / (width as int) < height as int) by (nonlinear_arith)
                    requires
                        1 <= width,
                        0 <= i < width * height,
                ;
            }
            let x: u16 = (i % width as usize) as u16;
            let y: u16 = height - (i / width as usize) as u16;
            coords.push((x, y));
            i = i + 1;
        }
        coords
    }
}

/// The slot of a pixel whose coordinates are in range lies inside the buffer.
pub proof fn lemma_slot_index_in_range(width: int, height: int, x: int, y: int)
    requires
        0 <= x < width,
        1 <= y <= height,
    ensures
        0 <= slot_index(width, height, x, y) < width * height,
{
    assert(0 <= (height - y) * width + x < width * height) by (nonlinear_arith)
        requires
            0 <= x < width,
            1 <= y <= height,
    ;
}

/// Buffer order enumerates every pixel exactly once: the coordinate pair that
/// `iter_mut` lists for slot `i` is in range and maps back to slot `i`.
pub proof fn lemma_coords_invert_slots(width: int, height: int, i: int)
    requires
        1 <= width,
        0 <= i < width * height,
    ensures
        0 <= i % width < width,
        1 <= height - i / width <= height,
        slot_index(width, height, i % width, height - i / width) == i,
{
    assert(0 <= i % width < width && 0 <= i / width < height && (i / width) * width + i % width
        == i) by (nonlinear_arith)
        requires
            1 <= width,
            0 <= i < width * height,
    ;
}

} // verus!
