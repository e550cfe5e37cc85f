//! The CPU framebuffer: a flat row-major pixel array of packed colors,
//! addressed by `x + y * width`. The rasterizer writes into it and a display
//! layer outside this crate blits it to the screen once per frame.

use vstd::prelude::*;
use crate::error::EngineError;

verus! {

/// A flat pixel buffer of `width * height` packed colors.
pub struct Framebuffer {
    data: Vec<u32>,
    width: usize,
    height: usize,
}

/// The contents of a pixel buffer after a clear: the same length, with every
/// pixel holding `value`.
pub open spec fn clear_view(v: Seq<u32>, value: u32) -> Seq<u32> {
    Seq::new(v.len(), |i: int| value)
}

/// Law: clearing is idempotent. Clearing a buffer that already holds the
/// result of a clear with the same color changes nothing.
pub proof fn lemma_clear_idempotent(v: Seq<u32>, value: u32)
    ensures
        clear_view(clear_view(v, value), value) == clear_view(v, value),
{
    assert(clear_view(clear_view(v, value), value) =~= clear_view(v, value));
}

impl View for Framebuffer {
    type V = Seq<u32>;

    /// The pixels, row-major: the pixel at `(x, y)` is entry `x + y * width`.
    closed spec fn view(&self) -> Seq<u32> {
        self.data@
    }
}

impl Framebuffer {
    /// Well-formedness: the flat array holds exactly one entry per pixel of
    /// the `width * height` grid. Constructors establish it and every method
    /// preserves it.
    pub closed spec fn wf(&self) -> bool {
        self.data@.len() == self.width * self.height
    }

    /// The buffer width in pixels.
    pub closed spec fn spec_width(&self) -> usize {
        self.width
    }

    /// The buffer height in pixels.
    pub closed spec fn spec_height(&self) -> usize {
        self.height
    }

    /// Getter for the width in pixels.
    #[verifier::when_used_as_spec(spec_width)]
    pub fn width(&self) -> (w: usize)
        ensures
            w == self.spec_width(),
    {
        self.width
    }

    /// Getter for the height in pixels.
    #[verifier::when_used_as_spec(spec_height)]
    pub fn height(&self) -> (h: usize)
        ensures
            h == self.spec_height(),
    {
        self.height
    }

    /// The index of the pixel at `(x, y)` in the flat array.
    pub open spec fn pixel_index(&self, x: int, y: int) -> int {
        x + y * self.spec_width()
    }

    /// Whether `(x, y)` lies inside the pixel grid.
    pub open spec fn contains_pixel(&self, x: int, y: int) -> bool {
        0 <= x < self.spec_width() && 0 <= y < self.spec_height()
    }

    /// A well-formed buffer's flat array has one entry per pixel, and every
    /// pixel of the grid maps to a distinct in-range index.
    pub proof fn lemma_grid(&self)
        requires
            self.wf(),
        ensures
            self@.len() == self.spec_width() * self.spec_height(),
            forall|x: int, y: int|
                self.contains_pixel(x, y) ==> 0 <= #[trigger] self.pixel_index(x, y) < self@.len(),
    {
        assert forall|x: int, y: int| self.contains_pixel(x, y) implies 0 <= #[trigger] self.pixel_index(
            x,
            y,
        ) < self@.len() by {
            assert(x + y * self.width < self.width * self.height) by (nonlinear_arith)
                requires
                    0 <= x < self.width,
                    0 <= y < self.height,
            ;
        }
    }

    /// A fresh buffer of the given dimensions with every pixel zeroed.
    pub fn new(width: usize, height: usize) -> (fb: Framebuffer)
        requires
            width * height <= usize::MAX,
        ensures
            fb.wf(),
            fb.spec_width() == width,
            fb.spec_height() == height,
            fb@.len() == width * height,
            forall|i: int| 0 <= i < fb@.len() ==> fb@[i] == 0u32,
    {
        let n: usize = width * height;
        let mut data: Vec<u32> = Vec::new();
        while data.len() < n
            invariant
                data@.len() <= n,
                forall|i: int| 0 <= i < data@.len() ==> data@[i] == 0u32,
            decreases n - data@.len(),
        {
            data.push(0);
        }
        Framebuffer { data, width, height }
    }

    /// Writes the pixel at `(x, y)`. A write outside the grid is refused
    /// with `PixelOutOfBounds` and changes nothing, so a stray coordinate
    /// can never crash the per-frame path.
    pub fn set_pixel(&mut self, x: usize, y: usize, value: u32) -> (r: Result<(), EngineError>)
        requires
            old(self).wf(),
        ensures
            final(self).wf(),
            final(self).spec_width() == old(self).spec_width(),
            final(self).spec_height() == old(self).spec_height(),
            old(self).contains_pixel(x as int, y as int) ==> {
                &&& r == Ok::<(), EngineError>(())
                &&& final(self)@ == old(self)@.update(
                    old(self).pixel_index(x as int, y as int),
                    value,
                )
            },
            !old(self).contains_pixel(x as int, y as int) ==> {
                &&& r == Err::<(), EngineError>(EngineError::PixelOutOfBounds)
                &&& final(self)@ == old(self)@
            },
    {
        if x < self.width && y < self.height {
            assert(x + y * self.width < self.width * self.height) by (nonlinear_arith)
                requires
                    x < self.width,
                    y < self.height,
            ;
            let n: usize = self.data.len();
            assert(x + y * self.width < n);
            let idx: usize = x + y * self.width;
            self.data[idx] = value;
            Ok(())
        } else {
            Err(EngineError::PixelOutOfBounds)
        }
    }

    /// Reads the pixel at `(x, y)`; refused outside the grid.
    pub fn get_pixel(&self, x: usize, y: usize) -> (r: Result<u32, EngineError>)
        requires
            self.wf(),
        ensures
            self.contains_pixel(x as int, y as int) ==> r == Ok::<u32, EngineError>(
                self@[self.pixel_index(x as int, y as int)],
            ),
            !self.contains_pixel(x as int, y as int) ==> r == Err::<u32, EngineError>(
                EngineError::PixelOutOfBounds,
            ),
    {
        if x < self.width && y < self.height {
            assert(x + y * self.width < self.width * self.height) by (nonlinear_arith)
                requires
                    x < self.width,
                    y < self.height,
            ;
            let n: usize = self.data.len();
            assert(x + y * self.width < n);
            let idx: usize = x + y * self.width;
            Ok(self.data[idx])
        } else {
            Err(EngineError::PixelOutOfBounds)
        }
    }

    /// The flat pixel array itself, row-major, for the display layer to
    /// blit to the screen.
    pub fn pixels(&self) -> (r: &Vec<u32>)
        ensures
            r@ == self@,
    {
        &self.data
    }

    /// Fills the whole buffer with one color. The result depends only on the
    /// buffer's dimensions and the color, never on the previous contents.
    pub fn clear(&mut self, value: u32)
        requires
            old(self).wf(),
        ensures
            final(self).wf(),
            final(self).spec_width() == old(self).spec_width(),
            final(self).spec_height() == old(self).spec_height(),
            final(self)@ == clear_view(old(self)@, value),
    {
        let n: usize = self.data.len();
        let mut i: usize = 0;
        while i < n
            invariant
                n == self.data@.len(),
                i <= n,
                self.width == old(self).spec_width(),
                self.height == old(self).spec_height(),
                self.data@.len() == old(self)@.len(),
                forall|j: int| 0 <= j < i ==> self.data@[j] == value,
            decreases n - i,
        {
            self.data[i] = value;
            i = i + 1;
        }
        assert(self@ =~= clear_view(old(self)@, value));
    }
}

} // verus!
