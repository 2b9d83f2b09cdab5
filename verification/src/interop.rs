//! What the library has from `fj_interop`: colors, and pairing up the elements
//! of two arrays.

use vstd::prelude::*;
use fj_interop::ext::ArrayExt;
use fj_interop::Color;

verus! {

/// `fj_interop::Color`: a color of four bytes. Nothing of it is visible here
/// but what the functions below say.
#[verifier::external_type_specification]
#[verifier::external_body]
pub struct ExColor(Color);

/// The red, green, blue and alpha parts of a color, in this order.
pub uninterp spec fn rgba_of(color: Color) -> Seq<u8>;

/// Calls `Color::from` on four bytes, which makes the color with these parts.
#[verifier::external_body]
fn color_from(rgba: [u8; 4]) -> (r: Color)
    ensures
        rgba_of(r) == rgba@,
{
    Color::from(rgba)
}

/// Calls `ArrayExt::zip_ext` on two arrays of two, which pairs the first
/// elements and the second elements.
#[verifier::external_body]
pub(crate) fn zip_pairs<T, U>(a: [T; 2], b: [U; 2]) -> (r: [(T, U); 2])
    ensures
        r@.len() == 2,
        r@[0] == (a@[0], b@[0]),
        r@[1] == (a@[1], b@[1]),
{
    a.zip_ext(b)
}

/// The color with the given red, green, blue and alpha parts.
pub fn color(rgba: [u8; 4]) -> (r: Color)
    ensures
        rgba_of(r) == rgba@,
{
    color_from(rgba)
}

} // verus!
