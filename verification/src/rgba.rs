use vstd::prelude::*;
use vstd::std_specs::vec::vec_index_mut;
use crate::errors::AtlasError;

verus! {

/// One pixel: four 8-bit channels (red, green, blue, alpha).
#[derive(Clone, Copy, Debug, PartialEq, Eq, Structural)]
pub struct Rgba {
    pub r: u8,
    pub g: u8,
    pub b: u8,
    pub a: u8,
}

impl Rgba {
    /// The fully transparent black pixel that freshly allocated images hold.
    pub open spec fn zero() -> Rgba {
        Rgba { r: 0, g: 0, b: 0, a: 0 }
    }

    /// Builds a pixel from its four channels.
    pub fn new(r: u8, g: u8, b: u8, a: u8) -> (p: Rgba)
        ensures
            p == (Rgba { r, g, b, a }),
    {
        Rgba { r, g, b, a }
    }
}

/// In a `w`-wide row-major buffer, the index of column `x` in row `y`
/// stays inside the `w * h` pixel area.
pub proof fn lemma_row_major_index(w: int, h: int, x: int, y: int)
    requires
        0 <= x < w,
        0 <= y < h,
    ensures
        0 <= y * w + x < w * h,
{
    assert(y * w + x < w * h) by (nonlinear_arith)
        requires
            0 <= x < w,
            0 <= y < h,
    ;
    assert(y * w + x >= 0) by (nonlinear_arith)
        requires
            0 <= x,
            0 <= y,
            w > 0,
    ;
}

/// Distinct coordinates of a `w`-wide row-major buffer have distinct indices.
pub proof fn lemma_row_major_distinct(w: int, x1: int, y1: int, x2: int, y2: int)
    requires
        0 <= x1 < w,
        0 <= x2 < w,
        0 <= y1,
        0 <= y2,
        x1 != x2 || y1 != y2,
    ensures
        y1 * w + x1 != y2 * w + x2,
{
    assert(y1 * w + x1 != y2 * w + x2) by (nonlinear_arith)
        requires
            0 <= x1 < w,
            0 <= x2 < w,
            0 <= y1,
            0 <= y2,
            x1 != x2 || y1 != y2,
    ;
}

/// In a grid of `s`-wide cells, cell `c` of `n` ends no later than the grid:
/// `c * s + s <= n * s`.
pub proof fn lemma_cell_bound(c: int, n: int, s: int)
    requires
        0 <= c < n,
        0 <= s,
    ensures
        c * s + s <= n * s,
{
    assert(c * s + s <= n * s) by (nonlinear_arith)
        requires
            0 <= c < n,
            0 <= s,
    ;
}

/// One more cell advances the offset by exactly one cell width.
pub proof fn lemma_cell_step(c: int, s: int)
    ensures
        (c + 1) * s == c * s + s,
{
    assert((c + 1) * s == c * s + s) by (nonlinear_arith);
}

/// Multiplication keeps the order of non-negative factors.
pub proof fn lemma_mul_le(a: int, b: int, c: int, d: int)
    requires
        0 <= a <= b,
        0 <= c <= d,
    ensures
        a * c <= b * d,
{
    assert(a * c <= b * d) by (nonlinear_arith)
        requires
            0 <= a <= b,
            0 <= c <= d,
    ;
}

/// A decoded RGBA image: `width * height` pixels in row-major order.
///
/// This is the pixel-buffer form every conversion works on; encoding and
/// decoding a concrete file format happens outside the library.
#[derive(Clone, Debug)]
pub struct RgbaImage {
    width: u32,
    height: u32,
    data: Vec<Rgba>,
}

impl RgbaImage {
    /// Well-formed: the buffer holds exactly one pixel per coordinate.
    pub closed spec fn wf(self) -> bool {
        self.data.len() == self.width * self.height
    }

    /// A well-formed image's pixel count fits the address space.
    pub proof fn lemma_area_bound(self)
        requires
            self.wf(),
        ensures
            self.spec_width() * self.spec_height() <= usize::MAX,
    {
        assert(vstd::std_specs::vec::spec_vec_len(&self.data) == self.data@.len());
    }

    /// The image's width in pixels.
    pub closed spec fn spec_width(self) -> u32 {
        self.width
    }

    /// The image's height in pixels.
    pub closed spec fn spec_height(self) -> u32 {
        self.height
    }

    /// The pixel at column `x` of row `y`.
    pub closed spec fn pix(self, x: int, y: int) -> Rgba {
        self.data@[y * self.width + x]
    }

    /// Creates a `width` by `height` image with every pixel zeroed.
    pub fn new(width: u32, height: u32) -> (img: RgbaImage)
        requires
            width * height <= usize::MAX,
        ensures
            img.wf(),
            img.spec_width() == width,
            img.spec_height() == height,
            forall|x: int, y: int|
                0 <= x < width && 0 <= y < height ==> img.pix(x, y) == Rgba::zero(),
    {
        let total: usize = (width as usize) * (height as usize);
        let mut data: Vec<Rgba> = Vec::new();
        while data.len() < total
            invariant
                total == width * height,
                data@.len() <= total,
                forall|i: int| 0 <= i < data@.len() ==> data@[i] == Rgba::zero(),
            decreases total - data@.len(),
        {
            data.push(Rgba { r: 0, g: 0, b: 0, a: 0 });
        }
        proof {
            assert(vstd::std_specs::vec::spec_vec_len(&data) == data@.len());
        }
        let img = RgbaImage { width, height, data };
        proof {
            assert forall|x: int, y: int|
                0 <= x < width && 0 <= y < height implies img.pix(x, y) == Rgba::zero() by {
                lemma_row_major_index(width as int, height as int, x, y);
            }
        }
        img
    }

    /// Builds an image from a ready pixel buffer, rejecting one whose length
    /// does not match the dimensions.
    pub fn from_pixels(width: u32, height: u32, data: Vec<Rgba>) -> (r: Result<RgbaImage, AtlasError>)
        ensures
            match r {
                Ok(img) => {
                    &&& data@.len() == width * height
                    &&& img.wf()
                    &&& img.spec_width() == width
                    &&& img.spec_height() == height
                    &&& forall|x: int, y: int|
                        0 <= x < width && 0 <= y < height ==> img.pix(x, y) == data@[y * width + x]
                },
                Err(e) => e == AtlasError::DimensionError && data@.len() != width * height,
            },
    {
        proof {
            lemma_mul_le(width as int, u32::MAX as int, height as int, u32::MAX as int);
            assert(vstd::std_specs::vec::spec_vec_len(&data) == data@.len());
        }
        let expected: u64 = (width as u64) * (height as u64);
        if (data.len() as u64) != expected {
            return Err(AtlasError::DimensionError);
        }
        let img = RgbaImage { width, height, data };
        Ok(img)
    }

    /// The pixel buffer in row-major order.
    pub fn pixels(&self) -> (r: &Vec<Rgba>)
        requires
            self.wf(),
        ensures
            r@.len() == self.spec_width() * self.spec_height(),
            forall|x: int, y: int|
                0 <= x < self.spec_width() && 0 <= y < self.spec_height()
                    ==> r@[y * self.spec_width() + x] == self.pix(x, y),
    {
        &self.data
    }

    /// The image's width in pixels.
    pub fn width(&self) -> (w: u32)
        ensures
            w == self.spec_width(),
    {
        self.width
    }

    /// The image's height in pixels.
    pub fn height(&self) -> (h: u32)
        ensures
            h == self.spec_height(),
    {
        self.height
    }

    /// Reads the pixel at `(x, y)`.
    pub fn get_pixel(&self, x: u32, y: u32) -> (p: Rgba)
        requires
            self.wf(),
            x < self.spec_width(),
            y < self.spec_height(),
        ensures
            p == self.pix(x as int, y as int),
    {
        proof {
            self.lemma_area_bound();
            assert(vstd::std_specs::vec::spec_vec_len(&self.data) == self.data@.len());
            lemma_row_major_index(self.width as int, self.height as int, x as int, y as int);
        }
        let idx: usize = (y as usize) * (self.width as usize) + (x as usize);
        self.data[idx]
    }

    /// Overwrites the pixel at `(x, y)`, leaving every other pixel as it was.
    pub fn put_pixel(&mut self, x: u32, y: u32, p: Rgba)
        requires
            old(self).wf(),
            x < old(self).spec_width(),
            y < old(self).spec_height(),
        ensures
            final(self).wf(),
            final(self).spec_width() == old(self).spec_width(),
            final(self).spec_height() == old(self).spec_height(),
            final(self).pix(x as int, y as int) == p,
            forall|i: int, j: int|
                0 <= i < old(self).spec_width() && 0 <= j < old(self).spec_height()
                    && !(i == x && j == y) ==> final(self).pix(i, j) == old(self).pix(i, j),
    {
        proof {
            self.lemma_area_bound();
            assert(vstd::std_specs::vec::spec_vec_len(&self.data) == self.data@.len());
            lemma_row_major_index(self.width as int, self.height as int, x as int, y as int);
        }
        let idx: usize = (y as usize) * (self.width as usize) + (x as usize);
        let slot = vec_index_mut(&mut self.data, idx);
        *slot = p;
        proof {
            assert forall|i: int, j: int|
                0 <= i < old(self).spec_width() && 0 <= j < old(self).spec_height()
                    && !(i == x && j == y) implies self.pix(i, j) == old(self).pix(i, j) by {
                lemma_row_major_distinct(self.width as int, i, j, x as int, y as int);
                lemma_row_major_index(self.width as int, self.height as int, i, j);
            }
        }
    }

    /// Copies the `w`-by-`h` rectangle whose top-left corner lies at
    /// `(sx, sy)` in `src` so that its top-left corner lands at `(dx, dy)`
    /// in `self`. Pixels outside the destination rectangle keep their value.
    #[verifier::loop_isolation(false)]
    pub fn copy_rect(&mut self, src: &RgbaImage, sx: u32, sy: u32, dx: u32, dy: u32, w: u32, h: u32)
        requires
            old(self).wf(),
            src.wf(),
            sx + w <= src.spec_width(),
            sy + h <= src.spec_height(),
            dx + w <= old(self).spec_width(),
            dy + h <= old(self).spec_height(),
        ensures
            final(self).wf(),
            final(self).spec_width() == old(self).spec_width(),
            final(self).spec_height() == old(self).spec_height(),
            forall|i: int, j: int|
                0 <= i < w && 0 <= j < h
                    ==> #[trigger] final(self).pix(dx + i, dy + j) == src.pix(sx + i, sy + j),
            forall|i: int, j: int|
                0 <= i < old(self).spec_width() && 0 <= j < old(self).spec_height()
                    && !(dx <= i < dx + w && dy <= j < dy + h)
                    ==> final(self).pix(i, j) == old(self).pix(i, j),
    {
        let mut j: u32 = 0;
        while j < h
            invariant
                j <= h,
                self.wf(),
                self.spec_width() == old(self).spec_width(),
                self.spec_height() == old(self).spec_height(),
                forall|a: int, b: int|
                    0 <= a < w && 0 <= b < j
                        ==> #[trigger] self.pix(dx + a, dy + b) == src.pix(sx + a, sy + b),
                forall|a: int, b: int|
                    0 <= a < old(self).spec_width() && 0 <= b < old(self).spec_height()
                        && !(dx <= a < dx + w && dy <= b < dy + j)
                        ==> self.pix(a, b) == old(self).pix(a, b),
            decreases h - j,
        {
            let mut i: u32 = 0;
            while i < w
                invariant
                    j < h,
                    i <= w,
                    self.wf(),
                    self.spec_width() == old(self).spec_width(),
                    self.spec_height() == old(self).spec_height(),
                    forall|a: int, b: int|
                        0 <= a < w && 0 <= b < j
                            ==> #[trigger] self.pix(dx + a, dy + b) == src.pix(sx + a, sy + b),
                    forall|a: int|
                        0 <= a < i ==> #[trigger] self.pix(dx + a, dy + j) == src.pix(sx + a, sy + j),
                    forall|a: int, b: int|
                        0 <= a < old(self).spec_width() && 0 <= b < old(self).spec_height()
                            && !(dx <= a < dx + w && dy <= b < dy + j)
                            && !(dx <= a < dx + i && b == dy + j)
                            ==> self.pix(a, b) == old(self).pix(a, b),
                decreases w - i,
            {
                let p = src.get_pixel(sx + i, sy + j);
                self.put_pixel(dx + i, dy + j, p);
                i = i + 1;
            }
            j = j + 1;
        }
    }

    /// Copies out the `w`-by-`h` rectangle at `(x, y)` as an image of its own.
    pub fn sub_image(&self, x: u32, y: u32, w: u32, h: u32) -> (out: RgbaImage)
        requires
            self.wf(),
            x + w <= self.spec_width(),
            y + h <= self.spec_height(),
        ensures
            out.wf(),
            out.spec_width() == w,
            out.spec_height() == h,
            forall|i: int, j: int|
                0 <= i < w && 0 <= j < h ==> out.pix(i, j) == self.pix(x + i, y + j),
    {
        proof {
            self.lemma_area_bound();
            lemma_mul_le(w as int, self.spec_width() as int, h as int, self.spec_height() as int);
        }
        let mut out = RgbaImage::new(w, h);
        out.copy_rect(self, x, y, 0, 0, w, h);
        proof {
            assert forall|i: int, j: int|
                0 <= i < w && 0 <= j < h implies out.pix(i, j) == self.pix(x + i, y + j) by {
                assert(out.pix(0 + i, 0 + j) == self.pix(x + i, y + j));
            }
        }
        out
    }
}

} // verus!
