//! A mutable grid of packed 32-bit output pixels.
//!
//! The buffer is row-major: pixel `(x, y)` lives at index `x + y * width`.
//! Besides raw packed writes, the buffer offers unit-interval intensity
//! accessors: an intensity `f` in `[0, 1]` is carried as the numerator of
//! `f = n / u32::MAX`, so scaling to and from the packed range is exact and
//! the stored pixel is the numerator itself.

use vstd::prelude::*;

verus! {

/// Mathematical view of a framebuffer: dimensions and the pixel grid.
pub ghost struct GridModel {
    pub width: int,
    pub height: int,
    pub pixels: Seq<u32>,
}

impl GridModel {
    /// The buffer always holds exactly `width * height` pixels.
    pub open spec fn wf(self) -> bool {
        self.pixels.len() == self.width * self.height
    }

    /// Row-major index of pixel `(x, y)`.
    pub open spec fn idx(self, x: int, y: int) -> int {
        x + y * self.width
    }

    /// The packed value of pixel `(x, y)`.
    pub open spec fn pixel(self, x: int, y: int) -> u32 {
        self.pixels[self.idx(x, y)]
    }

    /// The grid after writing `value` at `(x, y)`.
    pub open spec fn with_pixel(self, x: int, y: int, value: u32) -> GridModel {
        GridModel { pixels: self.pixels.update(self.idx(x, y), value), ..self }
    }
}

/// After a write, reading the written cell gives back exactly the written
/// value: the unit-interval accessors scale by `u32::MAX` in both
/// directions, which is exact on this grid, so the round trip loses nothing.
pub proof fn lemma_unit_round_trip(m: GridModel, x: int, y: int, value: u32)
    requires
        m.wf(),
        0 <= x < m.width,
        0 <= y < m.height,
    ensures
        m.with_pixel(x, y, value).pixel(x, y) == value,
{
    lemma_grid_index(m, x, y);
}

/// The row-major index of an in-range pixel is in range.
pub proof fn lemma_grid_index(m: GridModel, x: int, y: int)
    requires
        m.wf(),
        0 <= x < m.width,
        0 <= y < m.height,
    ensures
        0 <= m.idx(x, y) < m.pixels.len(),
{
    assert(x + y * m.width < m.width * m.height) by (nonlinear_arith)
        requires
            0 <= x < m.width,
            0 <= y < m.height,
    ;
}

/// The output surface: a resizable grid of packed 32-bit color values.
pub struct FrameBuffer {
    data: Vec<u32>,
    width: usize,
    height: usize,
}

impl View for FrameBuffer {
    type V = GridModel;

    closed spec fn view(&self) -> GridModel {
        GridModel { width: self.width as int, height: self.height as int, pixels: self.data@ }
    }
}

impl FrameBuffer {
    /// Allocates a `width * height` buffer with every pixel zero.
    pub fn new(width: usize, height: usize) -> (r: FrameBuffer)
        requires
            width * height <= usize::MAX,
        ensures
            r@.wf(),
            r@.width == width,
            r@.height == height,
            forall|i: int| 0 <= i < r@.pixels.len() ==> r@.pixels[i] == 0u32,
    {
        let len: usize = width * height;
        let mut data: Vec<u32> = Vec::new();
        let mut i: usize = 0;
        while i < len
            invariant
                i <= len,
                data@.len() == i,
                forall|j: int| 0 <= j < i ==> data@[j] == 0u32,
            decreases len - i,
        {
            data.push(0);
            i = i + 1;
        }
        FrameBuffer { data, width, height }
    }

    pub fn width(&self) -> (r: usize)
        ensures
            r == self@.width,
    {
        self.width
    }

    pub fn height(&self) -> (r: usize)
        ensures
            r == self@.height,
    {
        self.height
    }

    /// Writes one packed pixel.  The caller guarantees the indices are in
    /// range; out-of-range writes are a contract violation, never wrapped
    /// or clamped.
    pub fn set_pixel(&mut self, x: usize, y: usize, value: u32)
        requires
            old(self)@.wf(),
            x < old(self)@.width,
            y < old(self)@.height,
        ensures
            final(self)@ == old(self)@.with_pixel(x as int, y as int, value),
            final(self)@.wf(),
    {
        let n: usize = self.data.len();
        proof {
            lemma_grid_index(self@, x as int, y as int);
            assert(x + y * (self.width as int) < n);
        }
        let i: usize = x + y * self.width;
        self.data[i] = value;
    }

    /// Writes a unit-interval intensity, carried as the numerator of
    /// `f = value / u32::MAX`.  Scaling `f` by the full packed range is
    /// exact on this grid, so the stored pixel is the numerator itself.
    pub fn set_pixel_f32(&mut self, x: usize, y: usize, value: u32)
        requires
            old(self)@.wf(),
            x < old(self)@.width,
            y < old(self)@.height,
        ensures
            final(self)@ == old(self)@.with_pixel(x as int, y as int, value),
            final(self)@.wf(),
    {
        self.set_pixel(x, y, value);
    }

    /// Reads back a unit-interval intensity as the numerator of
    /// `f = r / u32::MAX`.
    pub fn get_pixel_f32(&mut self, x: usize, y: usize) -> (r: u32)
        requires
            old(self)@.wf(),
            x < old(self)@.width,
            y < old(self)@.height,
        ensures
            *final(self) == *old(self),
            r == old(self)@.pixel(x as int, y as int),
    {
        let n: usize = self.data.len();
        proof {
            lemma_grid_index(self@, x as int, y as int);
            assert(x + y * (self.width as int) < n);
        }
        let i: usize = x + y * self.width;
        self.data[i]
    }

    /// Overwrites every pixel with `value`.
    pub fn clear(&mut self, value: u32)
        requires
            old(self)@.wf(),
        ensures
            final(self)@.wf(),
            final(self)@.width == old(self)@.width,
            final(self)@.height == old(self)@.height,
            final(self)@.pixels.len() == old(self)@.pixels.len(),
            forall|i: int| 0 <= i < final(self)@.pixels.len() ==> final(self)@.pixels[i] == value,
    {
        let len: usize = self.data.len();
        let mut i: usize = 0;
        while i < len
            invariant
                i <= len,
                self@.width == old(self)@.width,
                self@.height == old(self)@.height,
                self@.pixels.len() == len,
                len == old(self)@.pixels.len(),
                forall|j: int| 0 <= j < i ==> self@.pixels[j] == value,
            decreases len - i,
        {
            self.data[i] = value;
            i = i + 1;
        }
    }

    /// Replaces the buffer wholesale with a zeroed `width * height` grid.
    /// Nothing of the old contents survives a resize.
    pub fn resize(&mut self, width: usize, height: usize)
        requires
            width * height <= usize::MAX,
        ensures
            final(self)@.wf(),
            final(self)@.width == width,
            final(self)@.height == height,
            forall|i: int| 0 <= i < final(self)@.pixels.len() ==> final(self)@.pixels[i] == 0u32,
    {
        *self = FrameBuffer::new(width, height);
    }

    /// Borrows the packed pixels, row-major, for presentation.
    pub fn pixels(&self) -> (r: &Vec<u32>)
        ensures
            r@ == self@.pixels,
    {
        &self.data
    }
}

} // verus!
