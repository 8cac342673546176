//! The pixel raster a frame is drawn into, row by row, before it is handed to
//! the display.
use vstd::prelude::*;

verus! {

/// An 8-bit RGB colour.
#[derive(Clone, Copy, Debug, PartialEq, Eq, Structural)]
pub struct Rgb {
    pub r: u8,
    pub g: u8,
    pub b: u8,
}

impl Rgb {
    pub fn new(r: u8, g: u8, b: u8) -> (c: Rgb)
        ensures
            c == (Rgb { r, g, b }),
    {
        Rgb { r, g, b }
    }
}

/// Position of pixel `(x, y)` in a row-major raster `width` pixels wide.
pub open spec fn pixel_index(width: nat, x: int, y: int) -> int {
    y * width + x
}

/// A `width` by `height` grid of colours, stored row by row.
pub struct Raster {
    width: u32,
    height: u32,
    pixels: Vec<Rgb>,
}

impl View for Raster {
    type V = Seq<Rgb>;

    closed spec fn view(&self) -> Seq<Rgb> {
        self.pixels@
    }
}

impl Raster {
    pub closed spec fn spec_width(&self) -> nat {
        self.width as nat
    }

    pub closed spec fn spec_height(&self) -> nat {
        self.height as nat
    }

    /// Holds one colour for every pixel, and the pixel count fits in `usize`.
    pub open spec fn wf(&self) -> bool {
        &&& self@.len() == self.spec_width() * self.spec_height()
        &&& self.spec_width() * self.spec_height() <= usize::MAX
    }

    /// The colour at pixel `(x, y)`.
    pub open spec fn pixel_spec(&self, x: int, y: int) -> Rgb {
        self@[pixel_index(self.spec_width(), x, y)]
    }

    /// A raster with every pixel set to `fill`.
    pub fn new(width: u32, height: u32, fill: Rgb) -> (r: Raster)
        requires
            width as int * height as int <= usize::MAX,
        ensures
            r.wf(),
            r.spec_width() == width,
            r.spec_height() == height,
            forall|i: int| 0 <= i < r@.len() ==> r@[i] == fill,
    {
        let n: usize = (width as usize) * (height as usize);
        let mut pixels: Vec<Rgb> = Vec::with_capacity(n);
        let mut i: usize = 0;
        while i < n
            invariant
                i <= n,
                pixels@.len() == i,
                forall|j: int| 0 <= j < i ==> pixels@[j] == fill,
            decreases n - i,
        {
            pixels.push(fill);
            i = i + 1;
        }
        Raster { width, height, pixels }
    }

    pub fn width(&self) -> (w: u32)
        ensures
            w == self.spec_width(),
    {
        self.width
    }

    pub fn height(&self) -> (h: u32)
        ensures
            h == self.spec_height(),
    {
        self.height
    }

    /// Row-major index of an in-bounds pixel, proved to fit.
    fn index_of(&self, x: u32, y: u32) -> (i: usize)
        requires
            self.wf(),
            x < self.spec_width(),
            y < self.spec_height(),
        ensures
            i == pixel_index(self.spec_width(), x as int, y as int),
            i < self@.len(),
    {
        proof {
            let w = self.width as int;
            let h = self.height as int;
            let xi = x as int;
            let yi = y as int;
            assert(0 <= yi * w && yi * w + xi < w * h) by (nonlinear_arith)
                requires
                    0 <= xi < w,
                    0 <= yi < h,
            ;
        }
        (y as usize) * (self.width as usize) + (x as usize)
    }

    /// The colour at pixel `(x, y)`.
    pub fn pixel(&self, x: u32, y: u32) -> (c: Rgb)
        requires
            self.wf(),
            x < self.spec_width(),
            y < self.spec_height(),
        ensures
            c == self.pixel_spec(x as int, y as int),
    {
        let i = self.index_of(x, y);
        self.pixels[i]
    }

    /// Sets pixel `(x, y)` to `c` and leaves every other pixel as it was.
    pub fn set_pixel(&mut self, x: u32, y: u32, c: Rgb)
        requires
            old(self).wf(),
            x < old(self).spec_width(),
            y < old(self).spec_height(),
        ensures
            final(self).wf(),
            final(self).spec_width() == old(self).spec_width(),
            final(self).spec_height() == old(self).spec_height(),
            final(self)@ == old(self)@.update(
                pixel_index(old(self).spec_width(), x as int, y as int),
                c,
            ),
    {
        let i = self.index_of(x, y);
        self.pixels.set(i, c);
    }
}

} // verus!
