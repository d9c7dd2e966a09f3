use vstd::prelude::*;

verus! {

/// Mathematical model of a decoded canvas: a rectangular pixel grid stored as
/// a flat row-major byte sequence with four channels (R, G, B, A) per pixel.
/// The alpha channel is carried along but ignored by every consumer.
pub ghost struct CanvasView {
    pub width: nat,
    pub height: nat,
    pub pixels: Seq<u8>,
}

impl CanvasView {
    /// The byte sequence covers exactly the grid, four bytes per pixel, and
    /// the dimensions are those a decoder can produce.
    pub open spec fn wf(self) -> bool {
        &&& self.pixels.len() == self.width * self.height * 4
        &&& self.width <= u32::MAX
        &&& self.height <= u32::MAX
    }

    /// Channel `k` (0 = R, 1 = G, 2 = B, 3 = A) of the pixel at column `x`,
    /// row `y`.
    pub open spec fn chan(self, x: int, y: int, k: int) -> u8 {
        self.pixels[(y * (self.width as int) + x) * 4 + k]
    }
}

/// A decoded rectangular pixel grid: `width * height` pixels, four bytes
/// (R, G, B, A) per pixel, rows stored top to bottom, pixels left to right.
pub struct Canvas {
    pub width: usize,
    pub height: usize,
    pub pixels: Vec<u8>,
}

impl View for Canvas {
    type V = CanvasView;

    open spec fn view(&self) -> CanvasView {
        CanvasView {
            width: self.width as nat,
            height: self.height as nat,
            pixels: self.pixels@,
        }
    }
}

impl DeepView for Canvas {
    type V = CanvasView;

    open spec fn deep_view(&self) -> CanvasView {
        self.view()
    }
}

impl Canvas {
    /// The red, green and blue channels of the pixel at column `x`, row `y`.
    pub fn channels(&self, x: usize, y: usize) -> (rgb: (u8, u8, u8))
        requires
            self@.wf(),
            x < self@.width,
            y < self@.height,
        ensures
            rgb.0 == self@.chan(x as int, y as int, 0),
            rgb.1 == self@.chan(x as int, y as int, 1),
            rgb.2 == self@.chan(x as int, y as int, 2),
    {
        let len = self.pixels.len();
        proof {
            assert((y * self.width + x) * 4 + 3 < len && y * self.width + x <= usize::MAX
                && (y * self.width + x) * 4 <= usize::MAX) by (nonlinear_arith)
                requires
                    x < self.width,
                    y < self.height,
                    len == self.width * self.height * 4,
                    len <= usize::MAX,
            ;
        }
        let idx: usize = (y * self.width + x) * 4;
        (self.pixels[idx], self.pixels[idx + 1], self.pixels[idx + 2])
    }
}

} // verus!
