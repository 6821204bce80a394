//! Plain-text PPM ("P3") serialization of a finished image. The bytes are
//! produced here, with an exact specification; writing them to a file is the
//! caller's I/O.
//!
//! The document is the header `P3`, a line with the width and the height, the
//! channel maximum `255`, and then one `r g b` line per pixel in buffer
//! order.

use vstd::prelude::*;

use crate::colour::Colour;
use crate::image::Image;

verus! {

/// The decimal digits of a non-negative number, most significant first;
/// empty for zero.
pub open spec fn dec_digits(n: int) -> Seq<u8>
    decreases n,
{
    if n <= 0 {
        Seq::empty()
    } else {
        dec_digits(n / 10).push((48 + n % 10) as u8)
    }
}

/// The decimal notation of a non-negative number: its digits, or `0`.
pub open spec fn dec(n: int) -> Seq<u8> {
    if n == 0 {
        seq![48u8]
    } else {
        dec_digits(n)
    }
}

/// One pixel's line: the three channels in decimal, space-separated, with a
/// trailing newline.
pub open spec fn spec_pixel_line(c: Colour) -> Seq<u8> {
    dec(c.r as int) + seq![32u8] + dec(c.g as int) + seq![32u8] + dec(c.b as int) + seq![10u8]
}

/// The pixel lines of a buffer, in buffer order.
pub open spec fn spec_pixel_lines(pixels: Seq<Colour>) -> Seq<u8>
    decreases pixels.len(),
{
    if pixels.len() == 0 {
        Seq::empty()
    } else {
        spec_pixel_lines(pixels.drop_last()) + spec_pixel_line(pixels.last())
    }
}

/// The whole PPM document for a buffer with the given dimensions.
pub open spec fn spec_ppm(width: u16, height: u16, pixels: Seq<Colour>) -> Seq<u8> {
    seq![80u8, 51u8, 10u8] + dec(width as int) + seq![32u8] + dec(height as int) + seq![10u8]
        + seq![50u8, 53u8, 53u8, 10u8] + spec_pixel_lines(pixels)
}

/// Appends the decimal notation of `n`.
fn push_dec(out: &mut Vec<u8>, n: u16)
    ensures
        final(out)@ == old(out)@ + dec(n as int),
{
    if n == 0 {
        out.push(48);
        proof {
            assert(final(out)@ =~= old(out)@ + dec(n as int));
        }
        return;
    }
    let mut reversed: Vec<u8> = Vec::new();
    let mut m: u16 = n;
    while m > 0
        invariant
            dec_digits(n as int) == dec_digits(m as int) + reversed@.reverse(),
        decreases m,
    {
        let digit: u8 = 48 + (m % 10) as u8;
        proof {
            assert(dec_digits(m as int) == dec_digits(m as int / 10).push(digit));
            assert(dec_digits(m as int / 10) + reversed@.push(digit).reverse() =~= dec_digits(
                m as int,
            ) + reversed@.reverse());
        }
        reversed.push(digit);
        m = m / 10;
    }
    proof {
        assert(dec_digits(n as int) =~= reversed@.reverse());
    }
    let total: usize = reversed.len();
    let mut k: usize = 0;
    while k < total
        invariant
            k <= total,
            total == reversed@.len(),
            dec(n as int) == reversed@.reverse(),
            out@ == old(out)@ + reversed@.reverse().take(k as int),
        decreases total - k,
    {
        proof {
            assert(reversed@.reverse()[k as int] == reversed@[total - 1 - k]);
            assert(out@.push(reversed@[total - 1 - k]) =~= old(out)@ + reversed@.reverse().take(
                k + 1,
            ));
        }
        out.push(reversed[total - 1 - k]);
        k = k + 1;
    }
    proof {
        assert(reversed@.reverse().take(total as int) =~= reversed@.reverse());
    }
}

/// Appends one pixel's `r g b` line.
fn push_pixel_line(out: &mut Vec<u8>, c: Colour)
    ensures
        final(out)@ == old(out)@ + spec_pixel_line(c),
{
    let ghost start = out@;
    push_dec(out, c.r as u16);
    out.push(32);
    push_dec(out, c.g as u16);
    out.push(32);
    push_dec(out, c.b as u16);
    out.push(10);
    proof {
        assert(out@ =~= start + spec_pixel_line(c));
    }
}

impl Image {
    /// The PPM text of the image, byte for byte.
    pub fn ppm_bytes(&self) -> (bytes: Vec<u8>)
        requires
            self.wf(),
        ensures
            bytes@ == spec_ppm(self.spec_width(), self.spec_height(), self.view()),
    {
        let mut out: Vec<u8> = Vec::new();
        out.push(80);
        out.push(51);
        out.push(10);
        push_dec(&mut out, self.width());
        out.push(32);
        push_dec(&mut out, self.height());
        out.push(10);
        out.push(50);
        out.push(53);
        out.push(53);
        out.push(10);
        let ghost header = out@;
        proof {
            assert(header =~= seq![80u8, 51u8, 10u8] + dec(self.spec_width() as int)
                + seq![32u8] + dec(self.spec_height() as int) + seq![10u8]
                + seq![50u8, 53u8, 53u8, 10u8]);
        }
        let total: usize = self.slot_count();
        let mut i: usize = 0;
        while i < total
            invariant
                i <= total,
                total == self.view().len(),
                self.wf(),
                out@ == header + spec_pixel_lines(self.view().take(i as int)),
            decreases total - i,
        {
            proof {
                assert(self.view().take(i + 1).drop_last() =~= self.view().take(i as int));
                assert(self.view().take(i + 1).last() == self.view()[i as int]);
            }
            let c = self.slot(i);
            push_pixel_line(&mut out, c);
            i = i + 1;
        }
        proof {
            assert(self.view().take(total as int) =~= self.view());
        }
        out
    }
}

} // verus!
