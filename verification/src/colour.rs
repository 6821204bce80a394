//! Colours with three 8-bit channels and the two channel operations of the
//! shading pipeline: saturating addition (light accumulation) and
//! per-channel attenuation (light filtering through a surface colour).

use vstd::prelude::*;

verus! {

/// An RGB colour; each channel lies in `0..=255`.
#[derive(Clone, Copy, Debug, PartialEq, Eq, Structural)]
pub struct Colour {
    pub r: u8,
    pub g: u8,
    pub b: u8,
}

/// Channel addition saturating at 255.
pub open spec fn saturating_channel(a: u8, b: u8) -> u8 {
    if a + b > 255 {
        255u8
    } else {
        (a + b) as u8
    }
}

/// Channel attenuation: `a * b / 255`, so a channel of 255 passes the other
/// channel through unchanged and a channel of 0 extinguishes it.
pub open spec fn attenuated_channel(a: u8, b: u8) -> u8 {
    ((a * b) / 255) as u8
}

impl Colour {
    /// What `add` returns, channel by channel.
    pub open spec fn spec_add(self, rhs: Colour) -> Colour {
        Colour {
            r: saturating_channel(self.r, rhs.r),
            g: saturating_channel(self.g, rhs.g),
            b: saturating_channel(self.b, rhs.b),
        }
    }

    /// What `mul` returns, channel by channel.
    pub open spec fn spec_mul(self, rhs: Colour) -> Colour {
        Colour {
            r: attenuated_channel(self.r, rhs.r),
            g: attenuated_channel(self.g, rhs.g),
            b: attenuated_channel(self.b, rhs.b),
        }
    }

    /// Per-channel saturating addition.
    pub fn add(self, rhs: Colour) -> (result: Colour)
        ensures
            result == self.spec_add(rhs),
    {
        Colour {
            r: self.r.saturating_add(rhs.r),
            g: self.g.saturating_add(rhs.g),
            b: self.b.saturating_add(rhs.b),
        }
    }

    /// Per-channel attenuation, modelling light filtered by a surface colour.
    pub fn mul(self, rhs: Colour) -> (result: Colour)
        ensures
            result == self.spec_mul(rhs),
    {
        Colour {
            r: attenuate(self.r, rhs.r),
            g: attenuate(self.g, rhs.g),
            b: attenuate(self.b, rhs.b),
        }
    }
}

/// One channel of the attenuation product.
fn attenuate(a: u8, b: u8) -> (result: u8)
    ensures
        result == attenuated_channel(a, b),
{
    proof {
        assert((a as u32) * (b as u32) <= 255 * 255) by (nonlinear_arith)
            requires
                a <= 255,
                b <= 255,
        ;
    }
    ((a as u32) * (b as u32) / 255) as u8
}

/// Attenuating by full white changes nothing: white is the multiplicative
/// identity of colour attenuation.
pub proof fn lemma_white_identity(c: Colour)
    ensures
        (Colour { r: 255, g: 255, b: 255 }).spec_mul(c) == c,
        c.spec_mul(Colour { r: 255, g: 255, b: 255 }) == c,
{
    assert(forall|x: u8| #![trigger attenuated_channel(255, x)] attenuated_channel(255, x) == x)
        by {
        assert forall|x: u8| attenuated_channel(255, x) == x by {
            assert((255 * x) / 255 == x) by (nonlinear_arith);
        }
    }
    assert(forall|x: u8| #![trigger attenuated_channel(x, 255)] attenuated_channel(x, 255) == x)
        by {
        assert forall|x: u8| attenuated_channel(x, 255) == x by {
            assert((x * 255) / 255 == x) by (nonlinear_arith);
        }
    }
}

/// Attenuating by black extinguishes every channel: black annihilates.
pub proof fn lemma_black_annihilates(c: Colour)
    ensures
        (Colour { r: 0, g: 0, b: 0 }).spec_mul(c) == (Colour { r: 0, g: 0, b: 0 }),
        c.spec_mul(Colour { r: 0, g: 0, b: 0 }) == (Colour { r: 0, g: 0, b: 0 }),
{
}

} // verus!
