use vstd::prelude::*;

use crate::aspect::{gcd, scaled, AspectRatio, Rectangle};

verus! {

/// A pixel of three 8-bit channels.
#[derive(Debug, Clone, Copy, PartialEq, Eq, Structural)]
pub struct Rgb8 {
    pub r: u8,
    pub g: u8,
    pub b: u8,
}

/// The 24-bit value `0x00RRGGBB` of three channels.
pub open spec fn packed_rgb(r: u8, g: u8, b: u8) -> u32 {
    (r as nat * 65536 + g as nat * 256 + b as nat) as u32
}

/// Packs three channels into one word as `0x00RRGGBB`.
pub fn from_u8_rgb(r: u8, g: u8, b: u8) -> (res: u32)
    ensures
        res == packed_rgb(r, g, b),
        res == r as nat * 65536 + g as nat * 256 + b as nat,
{
    let (r32, g32, b32) = (r as u32, g as u32, b as u32);
    let res = (r32 << 16u32) | (g32 << 8u32) | b32;
    assert(res == r32 * 65536 + g32 * 256 + b32) by (bit_vector)
        requires
            res == (r32 << 16u32) | (g32 << 8u32) | b32,
            r32 < 256,
            g32 < 256,
            b32 < 256,
    ;
    res
}

/// A `width` by `height` grid of pixels, stored row by row.
#[derive(Debug)]
pub struct PixelBuffer<P> {
    width: usize,
    height: usize,
    aspect: AspectRatio,
    pixels: Vec<P>,
}

impl<P> PixelBuffer<P> {
    #[verifier::type_invariant]
    closed spec fn inv(&self) -> bool {
        self.pixels@.len() == self.width * self.height
    }

    /// Number of columns.
    pub closed spec fn spec_width(&self) -> nat {
        self.width as nat
    }

    /// Number of rows.
    pub closed spec fn spec_height(&self) -> nat {
        self.height as nat
    }

    /// The aspect ratio the buffer was made with, as (horizontal, vertical).
    pub closed spec fn spec_aspect(&self) -> (nat, nat) {
        self.aspect@
    }

    /// The pixels in row-major order: row `r`, column `c` at `r * width + c`.
    pub closed spec fn spec_pixels(&self) -> Seq<P> {
        self.pixels@
    }

    /// One pixel for every cell of the grid.
    pub open spec fn wf(&self) -> bool {
        self.spec_pixels().len() == self.spec_width() * self.spec_height()
    }

    /// The pixel at row `row` and column `col`.
    pub open spec fn at(&self, row: int, col: int) -> P {
        self.spec_pixels()[row * self.spec_width() + col]
    }

    /// A buffer of `width` by `height` pixels, each `fill`, whose aspect ratio
    /// is `width : height`.
    pub fn new(width: usize, height: usize, fill: P) -> (r: Self)
        where
            P: Copy,
        requires
            width > 0 || height > 0,
            width * height <= usize::MAX,
        ensures
            r.wf(),
            r.spec_width() == width,
            r.spec_height() == height,
            r.spec_aspect() == (width as nat / gcd(width as nat, height as nat), height as nat
                / gcd(width as nat, height as nat)),
            r.spec_pixels() == Seq::new((width * height) as nat, |i: int| fill),
    {
        let aspect = AspectRatio::new(width, height);
        let pixels = filled(width * height, fill);
        Self { width, height, aspect, pixels }
    }

    /// A buffer over `pixels`, laid out row by row, whose aspect ratio is
    /// `width : height`.
    pub fn new_from_pixels(width: usize, height: usize, pixels: Vec<P>) -> (r: Self)
        requires
            width > 0 || height > 0,
            pixels.len() == width * height,
        ensures
            r.wf(),
            r.spec_width() == width,
            r.spec_height() == height,
            r.spec_aspect() == (width as nat / gcd(width as nat, height as nat), height as nat
                / gcd(width as nat, height as nat)),
            r.spec_pixels() == pixels@,
    {
        let aspect = AspectRatio::new(width, height);
        Self { width, height, aspect, pixels }
    }

    /// A buffer `width` pixels wide whose height follows from `aspect`.
    pub fn new_from_horizontal_ratio(width: usize, aspect: AspectRatio, fill: P) -> (r: Self)
        where
            P: Copy,
        requires
            width * scaled(width as nat, aspect@.1, aspect@.0) <= usize::MAX,
        ensures
            r.wf(),
            r.spec_width() == width,
            r.spec_height() == scaled(width as nat, aspect@.1, aspect@.0),
            r.spec_aspect() == aspect@,
            r.spec_pixels() == Seq::new(r.spec_width() * r.spec_height(), |i: int| fill),
    {
        let height = aspect.height_from_width(width);
        let pixels = filled(width * height, fill);
        Self { width, height, aspect, pixels }
    }

    /// A buffer `height` pixels high whose width follows from `aspect`.
    pub fn new_from_vertical_ratio(height: usize, aspect: AspectRatio, fill: P) -> (r: Self)
        where
            P: Copy,
        requires
            scaled(height as nat, aspect@.0, aspect@.1) * height <= usize::MAX,
        ensures
            r.wf(),
            r.spec_width() == scaled(height as nat, aspect@.0, aspect@.1),
            r.spec_height() == height,
            r.spec_aspect() == aspect@,
            r.spec_pixels() == Seq::new(r.spec_width() * r.spec_height(), |i: int| fill),
    {
        let width = aspect.width_from_height(height);
        let pixels = filled(width * height, fill);
        Self { width, height, aspect, pixels }
    }

    pub fn aspect_ratio(&self) -> (r: &AspectRatio)
        ensures
            r@ == self.spec_aspect(),
    {
        &self.aspect
    }

    pub fn width(&self) -> (r: usize)
        ensures
            r == self.spec_width(),
            self.wf(),
    {
        proof {
            use_type_invariant(self);
        }
        self.width
    }

    pub fn height(&self) -> (r: usize)
        ensures
            r == self.spec_height(),
            self.wf(),
    {
        proof {
            use_type_invariant(self);
        }
        self.height
    }

    /// The pixels in row-major order.
    pub fn pixels(&self) -> (r: &Vec<P>)
        ensures
            r@ == self.spec_pixels(),
            self.wf(),
    {
        proof {
            use_type_invariant(self);
        }
        &self.pixels
    }

    /// Position of row `row`, column `col` in the row-major pixel list.
    pub fn index_of(&self, row: usize, col: usize) -> (r: usize)
        requires
            row < self.spec_height(),
            col < self.spec_width(),
        ensures
            r == row * self.spec_width() + col,
            r < self.spec_pixels().len(),
    {
        proof {
            use_type_invariant(self);
            lemma_cell_in_grid(row as int, col as int, self.width as int, self.height as int);
            assert(self.pixels.len() == self.pixels@.len());
        }
        row * self.width + col
    }

    /// The pixel at position `i` of the row-major list.
    pub fn pixel(&self, i: usize) -> (r: &P)
        requires
            i < self.spec_pixels().len(),
        ensures
            *r == self.spec_pixels()[i as int],
    {
        &self.pixels[i]
    }

    /// Replaces the pixel at position `i` of the row-major list.
    pub fn set_pixel(&mut self, i: usize, p: P)
        requires
            i < old(self).spec_pixels().len(),
        ensures
            final(self).wf(),
            final(self).spec_pixels() == old(self).spec_pixels().update(i as int, p),
            final(self).spec_width() == old(self).spec_width(),
            final(self).spec_height() == old(self).spec_height(),
            final(self).spec_aspect() == old(self).spec_aspect(),
        no_unwind
    {
        proof {
            use_type_invariant(&*self);
        }
        self.pixels[i] = p;
        proof {
            use_type_invariant(&*self);
        }
    }

    /// Replaces every pixel by the rows given, top row first: row `r`,
    /// column `c` takes `rows[r][c]`.
    pub fn set_rows(&mut self, rows: Vec<Vec<P>>)
        where
            P: Copy,
        requires
            rows.len() == old(self).spec_height(),
            forall|r: int| 0 <= r < rows.len() ==> #[trigger] rows[r].len() == old(self).spec_width(),
        ensures
            final(self).wf(),
            final(self).spec_width() == old(self).spec_width(),
            final(self).spec_height() == old(self).spec_height(),
            final(self).spec_aspect() == old(self).spec_aspect(),
            forall|r: int, c: int|
                0 <= r < final(self).spec_height() && 0 <= c < final(self).spec_width()
                    ==> #[trigger] final(self).at(r, c) == rows[r][c],
    {
        proof {
            use_type_invariant(&*self);
        }
        let width = self.width;
        let height = self.height;
        let mut pixels: Vec<P> = Vec::new();
        let mut row: usize = 0;
        while row < height
            invariant
                0 <= row <= height,
                height == self.height,
                width == self.width,
                rows.len() == height,
                forall|r: int| 0 <= r < rows.len() ==> #[trigger] rows[r].len() == width,
                pixels@.len() == row * width,
                forall|r: int, c: int|
                    0 <= r < row && 0 <= c < width ==> #[trigger] pixels@[r * width + c]
                        == rows[r][c],
            decreases height - row,
        {
            let line = &rows[row];
            assert(rows[row as int].len() == width);
            let mut col: usize = 0;
            let ghost before = pixels@;
            while col < width
                invariant
                    0 <= col <= width,
                    0 <= row < height,
                    line@.len() == width,
                    line@ == rows@[row as int]@,
                    pixels@.len() == row * width + col,
                    before.len() == row * width,
                    pixels@.subrange(0, row * width) == before,
                    forall|c: int| 0 <= c < col ==> #[trigger] pixels@[row * width + c] == line@[c],
                decreases width - col,
            {
                pixels.push(line[col]);
                assert(pixels@.subrange(0, row * width) =~= before);
                col += 1;
            }
            proof {
                assert forall|r: int, c: int| 0 <= r < row + 1 && 0 <= c < width implies #[trigger] pixels@[r * width + c] == rows[r][c] by {
                    if r < row {
                        lemma_row_start_before(r, c, row as int, width as int);
                        assert(pixels@[r * width + c] == pixels@.subrange(0, row * width)[r * width + c]);
                    }
                }
                assert((row + 1) * width == row * width + width) by (nonlinear_arith);
            }
            row += 1;
        }
        assert(height * width == width * height) by (nonlinear_arith);
        self.pixels = pixels;
    }
}

impl<P: Copy> PixelBuffer<P> {
    /// A buffer of the same shape and aspect ratio whose pixel `i` is what
    /// `f` returns for pixel `i`.
    pub fn map<Q, F: Fn(P) -> Q>(&self, f: F) -> (r: PixelBuffer<Q>)
        requires
            forall|p: P| f.requires((p,)),
        ensures
            r.spec_width() == self.spec_width(),
            r.spec_height() == self.spec_height(),
            r.spec_aspect() == self.spec_aspect(),
            r.wf(),
            r.spec_pixels().len() == self.spec_pixels().len(),
            forall|i: int|
                0 <= i < self.spec_pixels().len() ==> f.ensures(
                    (self.spec_pixels()[i],),
                    #[trigger] r.spec_pixels()[i],
                ),
    {
        proof {
            use_type_invariant(self);
        }
        let mut out: Vec<Q> = Vec::new();
        let mut i: usize = 0;
        while i < self.pixels.len()
            invariant
                0 <= i <= self.pixels@.len(),
                out@.len() == i,
                forall|p: P| f.requires((p,)),
                forall|k: int| 0 <= k < i ==> f.ensures((self.pixels@[k],), #[trigger] out@[k]),
            decreases self.pixels@.len() - i,
        {
            let q = f(self.pixels[i]);
            out.push(q);
            i += 1;
        }
        PixelBuffer { width: self.width, height: self.height, aspect: self.aspect, pixels: out }
    }
}

/// A cell of a grid lies inside the row-major list of its pixels.
proof fn lemma_cell_in_grid(row: int, col: int, width: int, height: int)
    requires
        0 <= row < height,
        0 <= col < width,
    ensures
        0 <= row * width + col < width * height,
        row * width + col + 1 <= (row + 1) * width,
{
    assert(0 <= row * width + col < width * height) by (nonlinear_arith)
        requires
            0 <= row < height,
            0 <= col < width,
    ;
    assert(row * width + col + 1 <= (row + 1) * width) by (nonlinear_arith)
        requires
            0 <= col < width,
    ;
}

/// A cell of an earlier row comes before the start of a later row.
proof fn lemma_row_start_before(r: int, c: int, row: int, width: int)
    requires
        0 <= r < row,
        0 <= c < width,
    ensures
        0 <= r * width + c < row * width,
{
    assert(0 <= r * width + c < row * width) by (nonlinear_arith)
        requires
            0 <= r < row,
            0 <= c < width,
    ;
}

/// `n` copies of `fill`.
fn filled<P: Copy>(n: usize, fill: P) -> (v: Vec<P>)
    ensures
        v@ == Seq::new(n as nat, |i: int| fill),
{
    let mut v: Vec<P> = Vec::new();
    let mut i: usize = 0;
    while i < n
        invariant
            0 <= i <= n,
            v@ == Seq::new(i as nat, |k: int| fill),
        decreases n - i,
    {
        v.push(fill);
        i += 1;
    }
    v
}

impl<P> Rectangle for PixelBuffer<P> {
    fn width(&self) -> (r: usize)
        ensures
            r == self.spec_width(),
    {
        self.width
    }

    fn height(&self) -> (r: usize)
        ensures
            r == self.spec_height(),
    {
        self.height
    }
}

impl PixelBuffer<Rgb8> {
    /// Every pixel packed as `0x00RRGGBB`, in row-major order.
    pub fn as_u32(&self) -> (r: Vec<u32>)
        ensures
            r@.len() == self.spec_pixels().len(),
            forall|i: int|
                0 <= i < r@.len() ==> #[trigger] r@[i] == packed_rgb(
                    self.spec_pixels()[i].r,
                    self.spec_pixels()[i].g,
                    self.spec_pixels()[i].b,
                ),
    {
        let mut out: Vec<u32> = Vec::new();
        let mut i: usize = 0;
        while i < self.pixels.len()
            invariant
                0 <= i <= self.pixels@.len(),
                out@.len() == i,
                forall|k: int|
                    0 <= k < i ==> #[trigger] out@[k] == packed_rgb(
                        self.pixels@[k].r,
                        self.pixels@[k].g,
                        self.pixels@[k].b,
                    ),
            decreases self.pixels@.len() - i,
        {
            let px = self.pixels[i];
            out.push(from_u8_rgb(px.r, px.g, px.b));
            i += 1;
        }
        out
    }
}

} // verus!
