//! The colour half of the per-pixel shading pipeline. The geometry kernel
//! decides which lights reach a surface point and how strongly; what remains
//! is pure colour arithmetic: summing the per-light diffuse contributions,
//! adding the ambient term, and attenuating the surface's base colour by the
//! total. Those steps live here, verified, and take the per-light colours as
//! arguments.

use vstd::prelude::*;

use crate::colour::Colour;

verus! {

/// The left fold of saturating colour addition over a list of contributions,
/// starting from black.
pub open spec fn spec_sum(colours: Seq<Colour>) -> Colour
    decreases colours.len(),
{
    if colours.len() == 0 {
        Colour { r: 0, g: 0, b: 0 }
    } else {
        spec_sum(colours.drop_last()).spec_add(colours.last())
    }
}

/// Accumulates light contributions in order with saturating addition.
pub fn sum_colours(colours: &Vec<Colour>) -> (total: Colour)
    ensures
        total == spec_sum(colours@),
{
    let mut total = Colour { r: 0, g: 0, b: 0 };
    let mut i: usize = 0;
    while i < colours.len()
        invariant
            i <= colours@.len(),
            total == spec_sum(colours@.take(i as int)),
        decreases colours@.len() - i,
    {
        proof {
            assert(colours@.take(i + 1).drop_last() =~= colours@.take(i as int));
            assert(colours@.take(i + 1).last() == colours@[i as int]);
        }
        total = total.add(colours[i]);
        i = i + 1;
    }
    proof {
        assert(colours@.take(colours@.len() as int) =~= colours@);
    }
    total
}

/// The final colour of a lit pixel: the surface's base colour attenuated by
/// the sum of the diffuse and ambient terms.
pub fn shade(base: Colour, diffuse: Colour, ambient: Colour) -> (result: Colour)
    ensures
        result == base.spec_mul(diffuse.spec_add(ambient)),
{
    base.mul(diffuse.add(ambient))
}

/// Black is the identity of light accumulation: adding no light changes
/// nothing.
pub proof fn lemma_black_add_identity(c: Colour)
    ensures
        (Colour { r: 0, g: 0, b: 0 }).spec_add(c) == c,
        c.spec_add(Colour { r: 0, g: 0, b: 0 }) == c,
{
}

/// A surface point that no light reaches keeps only the ambient term: with a
/// black diffuse sum, the shaded colour is the base colour attenuated by the
/// ambient light alone.
pub proof fn lemma_occluded_is_ambient_only(base: Colour, ambient: Colour)
    ensures
        base.spec_mul((Colour { r: 0, g: 0, b: 0 }).spec_add(ambient)) == base.spec_mul(ambient),
{
    lemma_black_add_identity(ambient);
}

} // verus!
