//! Plain-text PPM serialization: a three-line header (`P3`, the dimensions,
//! the maximum channel value `255`), then one line per pixel, each a triple
//! of 3-character right-aligned decimal fields separated by single spaces.

use crate::image::Image;
use crate::image::Pixel;
use vstd::prelude::*;

verus! {

/// The character for the decimal digit `d`.
pub open spec fn digit_char(d: nat) -> char {
    if d == 0 {
        '0'
    } else if d == 1 {
        '1'
    } else if d == 2 {
        '2'
    } else if d == 3 {
        '3'
    } else if d == 4 {
        '4'
    } else if d == 5 {
        '5'
    } else if d == 6 {
        '6'
    } else if d == 7 {
        '7'
    } else if d == 8 {
        '8'
    } else {
        '9'
    }
}

/// The decimal digits of `n`, most significant first, with no sign, no
/// padding and no leading zeros (`0` itself is the single digit `0`).
pub open spec fn dec_rep(n: nat) -> Seq<char>
    decreases n,
{
    if n < 10 {
        seq![digit_char(n)]
    } else {
        dec_rep(n / 10).push(digit_char(n % 10))
    }
}

/// The decimal digit `d` as a one-character string.
fn digit_str(d: u8) -> (s: &'static str)
    requires
        d < 10,
    ensures
        s@ == seq![digit_char(d as nat)],
{
    let s: &'static str = if d == 0 {
        "0"
    } else if d == 1 {
        "1"
    } else if d == 2 {
        "2"
    } else if d == 3 {
        "3"
    } else if d == 4 {
        "4"
    } else if d == 5 {
        "5"
    } else if d == 6 {
        "6"
    } else if d == 7 {
        "7"
    } else if d == 8 {
        "8"
    } else {
        "9"
    };
    proof {
        reveal_strlit("0");
        reveal_strlit("1");
        reveal_strlit("2");
        reveal_strlit("3");
        reveal_strlit("4");
        reveal_strlit("5");
        reveal_strlit("6");
        reveal_strlit("7");
        reveal_strlit("8");
        reveal_strlit("9");
        assert(s@ =~= seq![digit_char(d as nat)]);
    }
    s
}

/// Appends the decimal digits of `n` to `s`.
fn push_decimal(s: &mut String, n: usize)
    ensures
        final(s)@ == old(s)@ + dec_rep(n as nat),
    decreases n,
{
    if n >= 10 {
        push_decimal(s, n / 10);
        s.append(digit_str((n % 10) as u8));
        proof {
            assert(s@ =~= old(s)@ + dec_rep(n as nat));
        }
    } else {
        s.append(digit_str(n as u8));
        proof {
            assert(s@ =~= old(s)@ + dec_rep(n as nat));
        }
    }
}

/// A channel value printed as a decimal field of exactly three characters,
/// right-aligned: values below 10 get two leading spaces, values below 100
/// get one, and three-digit values fill the field.
pub open spec fn field_rep(v: u8) -> Seq<char> {
    if v >= 100 {
        dec_rep(v as nat)
    } else if v >= 10 {
        seq![' '] + dec_rep(v as nat)
    } else {
        seq![' ', ' '] + dec_rep(v as nat)
    }
}

/// A pixel printed as its three channel fields, red then green then blue,
/// separated by single spaces.
pub open spec fn pixel_rep(p: Pixel) -> Seq<char> {
    field_rep(p.r) + seq![' '] + field_rep(p.g) + seq![' '] + field_rep(p.b)
}

/// The first `n` pixels of a row, each printed as its own line.
pub open spec fn row_rep_prefix(row: Seq<Pixel>, n: int) -> Seq<char>
    decreases n,
{
    if n <= 0 {
        Seq::empty()
    } else {
        row_rep_prefix(row, n - 1) + pixel_rep(row[n - 1]) + seq!['\n']
    }
}

/// The first `n` rows of the grid, each row printed pixel by pixel.
pub open spec fn rows_rep_prefix(rows: Seq<Vec<Pixel>>, n: int) -> Seq<char>
    decreases n,
{
    if n <= 0 {
        Seq::empty()
    } else {
        rows_rep_prefix(rows, n - 1) + row_rep_prefix(rows[n - 1]@, rows[n - 1]@.len() as int)
    }
}

/// The three header lines: the magic marker `P3`, then the width and height
/// separated by a space, then the maximum channel value `255`.
pub open spec fn header_rep(width: nat, height: nat) -> Seq<char> {
    seq!['P', '3', '\n'] + dec_rep(width) + seq![' '] + dec_rep(height) + seq!['\n', '2', '5', '5', '\n']
}

/// The whole image as PPM text: the header, then every pixel on a line of
/// its own, rows top to bottom, pixels left to right within a row.
pub open spec fn image_rep(img: Image) -> Seq<char> {
    header_rep(img.width as nat, img.height as nat) + rows_rep_prefix(
        img.pixels@,
        img.pixels@.len() as int,
    )
}

/// Every channel field is exactly three characters wide, whatever the
/// channel's value: the field width of the text format is fixed.
pub proof fn lemma_field_width(v: u8)
    ensures
        field_rep(v).len() == 3,
{
    let n: nat = v as nat;
    if v >= 100 {
        assert(1 <= n / 10 / 10 < 10);
        assert(dec_rep(n / 10 / 10).len() == 1);
        assert(dec_rep(n / 10).len() == 2);
        assert(dec_rep(n).len() == 3);
    } else if v >= 10 {
        assert(dec_rep(n / 10).len() == 1);
        assert(dec_rep(n).len() == 2);
    } else {
        assert(dec_rep(n).len() == 1);
    }
}

/// Every pixel prints as exactly eleven characters: three 3-wide fields and
/// the two single spaces that separate them.
pub proof fn lemma_pixel_width(p: Pixel)
    ensures
        pixel_rep(p).len() == 11,
{
    lemma_field_width(p.r);
    lemma_field_width(p.g);
    lemma_field_width(p.b);
}

proof fn lemma_row_rep_prefix_len(row: Seq<Pixel>, n: int)
    requires
        0 <= n <= row.len(),
    ensures
        row_rep_prefix(row, n).len() == 12 * n,
    decreases n,
{
    if n > 0 {
        lemma_row_rep_prefix_len(row, n - 1);
        lemma_pixel_width(row[n - 1]);
    }
}

proof fn lemma_rows_rep_prefix_len(rows: Seq<Vec<Pixel>>, n: int, width: nat)
    requires
        0 <= n <= rows.len(),
        forall|i: int| 0 <= i < n ==> (#[trigger] rows[i])@.len() == width,
    ensures
        rows_rep_prefix(rows, n).len() == 12 * width * n,
    decreases n,
{
    if n > 0 {
        lemma_rows_rep_prefix_len(rows, n - 1, width);
        lemma_row_rep_prefix_len(rows[n - 1]@, width as int);
        assert(12 * width * (n - 1) + 12 * width == 12 * width * n) by (nonlinear_arith);
    } else {
        assert(12 * width * 0 == 0) by (nonlinear_arith);
    }
}

/// The layout of the text is fixed: after the three header lines, a
/// rectangular image prints as exactly twelve characters per pixel, eleven
/// for the three fields with their separating spaces and one for the
/// newline that ends each pixel's line.
pub proof fn lemma_image_rep_len(img: Image)
    requires
        img.wf(),
    ensures
        image_rep(img).len() == header_rep(img.width as nat, img.height as nat).len() + 12
            * img.width * img.height,
{
    lemma_rows_rep_prefix_len(img.pixels@, img.pixels@.len() as int, img.width as nat);
}

/// Appends the 3-wide right-aligned decimal field for `v` to `s`.
fn push_field(s: &mut String, v: u8)
    ensures
        final(s)@ == old(s)@ + field_rep(v),
{
    if v >= 100 {
    } else if v >= 10 {
        s.append(" ");
    } else {
        s.append("  ");
    }
    push_decimal(s, v as usize);
    proof {
        reveal_strlit(" ");
        reveal_strlit("  ");
        assert(s@ =~= old(s)@ + field_rep(v));
    }
}

/// Appends the three space-separated channel fields of `p` to `s`.
fn push_pixel(s: &mut String, p: &Pixel)
    ensures
        final(s)@ == old(s)@ + pixel_rep(*p),
{
    push_field(s, p.r);
    s.append(" ");
    push_field(s, p.g);
    s.append(" ");
    push_field(s, p.b);
    proof {
        reveal_strlit(" ");
        assert(s@ =~= old(s)@ + pixel_rep(*p));
    }
}

impl Pixel {
    /// This pixel as one line of PPM text (without the newline): three
    /// 3-character right-aligned decimal fields separated by single spaces.
    pub fn ppm_text(&self) -> (s: String)
        ensures
            s@ == pixel_rep(*self),
    {
        let mut s = String::from_str("");
        push_pixel(&mut s, self);
        proof {
            reveal_strlit("");
            assert(s@ =~= pixel_rep(*self));
        }
        s
    }
}

impl Image {
    /// This image as PPM text: the `P3` header with the dimensions and the
    /// maximum channel value, then one line per pixel in row-major order.
    pub fn ppm_text(&self) -> (s: String)
        requires
            self.wf(),
        ensures
            s@ == image_rep(*self),
    {
        let mut s = String::from_str("P3\n");
        push_decimal(&mut s, self.width);
        s.append(" ");
        push_decimal(&mut s, self.height);
        s.append("\n255\n");
        proof {
            reveal_strlit("P3\n");
            reveal_strlit(" ");
            reveal_strlit("\n255\n");
            assert(s@ =~= header_rep(self.width as nat, self.height as nat));
        }
        let ghost header: Seq<char> = s@;
        let mut i: usize = 0;
        while i < self.pixels.len()
            invariant
                i <= self.pixels@.len(),
                header == header_rep(self.width as nat, self.height as nat),
                s@ == header + rows_rep_prefix(self.pixels@, i as int),
            decreases self.pixels@.len() - i,
        {
            let row: &Vec<Pixel> = &self.pixels[i];
            let mut j: usize = 0;
            while j < row.len()
                invariant
                    i < self.pixels@.len(),
                    row == self.pixels@[i as int],
                    j <= row@.len(),
                    s@ == header + rows_rep_prefix(self.pixels@, i as int) + row_rep_prefix(
                        row@,
                        j as int,
                    ),
                decreases row@.len() - j,
            {
                push_pixel(&mut s, &row[j]);
                s.append("\n");
                proof {
                    reveal_strlit("\n");
                    assert(s@ =~= header + rows_rep_prefix(self.pixels@, i as int)
                        + row_rep_prefix(row@, j as int + 1));
                }
                j += 1;
            }
            proof {
                assert(s@ =~= header + rows_rep_prefix(self.pixels@, i as int + 1));
            }
            i += 1;
        }
        proof {
            assert(s@ =~= image_rep(*self));
        }
        s
    }
}

} // verus!
