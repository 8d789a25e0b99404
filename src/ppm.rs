use vstd::prelude::*;
use vstd::string::*;

use crate::aspect::Rectangle;
use crate::buffer::{PixelBuffer, Rgb8};

verus! {

/// The character of the decimal digit `d`.
pub open spec fn digit_char(d: nat) -> char {
    if d == 0 {
        '0'
    } else if d == 1 {
        '1'
    } else if d == 2 {
        '2'
    } else if d == 3 {
        '3'
    } else if d == 4 {
        '4'
    } else if d == 5 {
        '5'
    } else if d == 6 {
        '6'
    } else if d == 7 {
        '7'
    } else if d == 8 {
        '8'
    } else {
        '9'
    }
}

/// `n` written in decimal, without leading zeros.
pub open spec fn decimal(n: nat) -> Seq<char>
    decreases n,
{
    if n < 10 {
        seq![digit_char(n)]
    } else {
        decimal(n / 10) + seq![digit_char(n % 10)]
    }
}

/// One pixel as its three channel values, each followed by a space.
pub open spec fn pixel_text(p: Rgb8) -> Seq<char> {
    decimal(p.r as nat) + seq![' '] + decimal(p.g as nat) + seq![' '] + decimal(p.b as nat) + seq![
        ' ',
    ]
}

/// The first `cols` pixels of row `row` of a grid `width` pixels wide.
pub open spec fn row_cells(pixels: Seq<Rgb8>, width: nat, row: nat, cols: nat) -> Seq<char>
    decreases cols,
{
    if cols == 0 {
        Seq::empty()
    } else {
        row_cells(pixels, width, row, (cols - 1) as nat) + pixel_text(
            pixels[row * width + cols - 1],
        )
    }
}

/// The rows `rows - 1` down to `0`, each ended by a line break: the image
/// is written from its bottom row up.
pub open spec fn body_rows(pixels: Seq<Rgb8>, width: nat, rows: nat) -> Seq<char>
    decreases rows,
{
    if rows == 0 {
        Seq::empty()
    } else {
        row_cells(pixels, width, (rows - 1) as nat, width) + seq!['\n'] + body_rows(
            pixels,
            width,
            (rows - 1) as nat,
        )
    }
}

/// The header of a plain (ASCII) PPM image: magic number, size, and the
/// largest channel value.
pub open spec fn ppm_header(width: nat, height: nat) -> Seq<char> {
    seq!['P', '3', '\n'] + decimal(width) + seq![' '] + decimal(height) + seq![
        '\n',
        '2',
        '5',
        '5',
        '\n',
    ]
}

/// An image that can be written as plain PPM text.
pub trait AsPPM: Rectangle {
    /// The pixel values, row by row from the bottom of the image up.
    fn ppm_body(&self) -> String;

    /// The whole PPM text: header, then body.
    fn as_ppm_string(&self) -> String;
}

/// The decimal digit `d` as a one-character string.
fn digit_str(d: usize) -> (r: &'static str)
    requires
        d < 10,
    ensures
        r@ == seq![digit_char(d as nat)],
{
    proof {
        reveal_strlit("0");
        reveal_strlit("1");
        reveal_strlit("2");
        reveal_strlit("3");
        reveal_strlit("4");
        reveal_strlit("5");
        reveal_strlit("6");
        reveal_strlit("7");
        reveal_strlit("8");
        reveal_strlit("9");
    }
    if d == 0 {
        "0"
    } else if d == 1 {
        "1"
    } else if d == 2 {
        "2"
    } else if d == 3 {
        "3"
    } else if d == 4 {
        "4"
    } else if d == 5 {
        "5"
    } else if d == 6 {
        "6"
    } else if d == 7 {
        "7"
    } else if d == 8 {
        "8"
    } else {
        "9"
    }
}

/// Appends `n` in decimal to `s`.
fn push_decimal(s: &mut String, n: usize)
    ensures
        final(s)@ == old(s)@ + decimal(n as nat),
    decreases n,
{
    if n >= 10 {
        push_decimal(s, n / 10);
    }
    s.append(digit_str(n % 10));
}

fn push_space(s: &mut String)
    ensures
        final(s)@ == old(s)@ + seq![' '],
{
    proof {
        reveal_strlit(" ");
    }
    s.append(" ");
}

fn push_newline(s: &mut String)
    ensures
        final(s)@ == old(s)@ + seq!['\n'],
{
    proof {
        reveal_strlit("\n");
    }
    s.append("\n");
}

impl AsPPM for PixelBuffer<Rgb8> {
    fn ppm_body(&self) -> (r: String)
        ensures
            r@ == body_rows(self.spec_pixels(), self.spec_width(), self.spec_height()),
    {
        let width = self.width();
        let height = self.height();
        let mut out = String::new();
        let ghost px = self.spec_pixels();
        let mut row: usize = height;
        while row > 0
            invariant
                0 <= row <= height,
                width == self.spec_width(),
                height == self.spec_height(),
                px == self.spec_pixels(),
                self.wf(),
                out@ + body_rows(px, width as nat, row as nat) =~= body_rows(
                    px,
                    width as nat,
                    height as nat,
                ),
            decreases row,
        {
            let r = row - 1;
            let ghost start = out@;
            let mut col: usize = 0;
            while col < width
                invariant
                    0 <= col <= width,
                    r < height,
                    width == self.spec_width(),
                    height == self.spec_height(),
                    px == self.spec_pixels(),
                    self.wf(),
                    out@ == start + row_cells(px, width as nat, r as nat, col as nat),
                decreases width - col,
            {
                let i = self.index_of(r, col);
                let p = *self.pixel(i);
                let ghost before = out@;
                push_decimal(&mut out, p.r as usize);
                push_space(&mut out);
                push_decimal(&mut out, p.g as usize);
                push_space(&mut out);
                push_decimal(&mut out, p.b as usize);
                push_space(&mut out);
                proof {
                    assert(out@ =~= before + pixel_text(p));
                    assert(r * width + (col + 1) - 1 == i);
                    assert(row_cells(px, width as nat, r as nat, (col + 1) as nat) == row_cells(
                        px,
                        width as nat,
                        r as nat,
                        col as nat,
                    ) + pixel_text(px[i as int]));
                    assert(out@ =~= start + row_cells(px, width as nat, r as nat, (col + 1) as nat));
                }
                col += 1;
            }
            push_newline(&mut out);
            proof {
                assert(body_rows(px, width as nat, row as nat) == row_cells(
                    px,
                    width as nat,
                    r as nat,
                    width as nat,
                ) + seq!['\n'] + body_rows(px, width as nat, r as nat));
                assert(out@ + body_rows(px, width as nat, r as nat) =~= start + body_rows(
                    px,
                    width as nat,
                    row as nat,
                ));
            }
            row = r;
        }
        proof {
            assert(out@ =~= out@ + body_rows(px, width as nat, 0));
        }
        out
    }

    fn as_ppm_string(&self) -> (r: String)
        ensures
            r@ == ppm_header(self.spec_width(), self.spec_height()) + body_rows(
                self.spec_pixels(),
                self.spec_width(),
                self.spec_height(),
            ),
    {
        proof {
            reveal_strlit("P3\n");
            reveal_strlit("\n255\n");
        }
        let mut out = String::from_str("P3\n");
        push_decimal(&mut out, self.width());
        push_space(&mut out);
        push_decimal(&mut out, self.height());
        out.append("\n255\n");
        let body = self.ppm_body();
        out.append(body.as_str());
        proof {
            assert(out@ =~= ppm_header(self.spec_width(), self.spec_height()) + body_rows(
                self.spec_pixels(),
                self.spec_width(),
                self.spec_height(),
            ));
        }
        out
    }
}

} // verus!
