use crate::color::{distance_of, lightness_of, Color};
use crate::palette::{is_closest_at, Palette};
use vstd::prelude::*;

verus! {

/// Red, green and blue agree; alpha may differ.
pub open spec fn same_rgb(a: Color, b: Color) -> bool {
    a.red == b.red && a.green == b.green && a.blue == b.blue
}

/// Distance 0 means the same red, green and blue.
pub proof fn lemma_distance_zero(a: Color, b: Color)
    ensures
        distance_of(a, b) == 0 <==> same_rgb(a, b),
        distance_of(a, b) >= 0,
{
}

/// A color of the palette is its own nearest color: the nearest position that
/// `closest` reports holds that very color at distance 0, and no earlier
/// position holds it. This needs every color of the palette with the same red,
/// green and blue to have the same alpha too, since distance ignores alpha.
pub proof fn lemma_closest_of_member(p: Palette, c: Color)
    requires
        p@.contains(c),
        forall|j: int| 0 <= j < p@.len() && same_rgb(#[trigger] p@[j], c) ==> p@[j] == c,
    ensures
        forall|i: int|
            #[trigger] is_closest_at(p@, c, i) ==> {
                &&& p@[i] == c
                &&& distance_of(p@[i], c) == 0
                &&& forall|j: int| 0 <= j < i ==> p@[j] != c
            },
{
    let k = choose|k: int| 0 <= k < p@.len() && p@[k] == c;
    lemma_distance_zero(c, c);
    assert forall|i: int| #[trigger] is_closest_at(p@, c, i) implies {
        &&& p@[i] == c
        &&& distance_of(p@[i], c) == 0
        &&& forall|j: int| 0 <= j < i ==> p@[j] != c
    } by {
        assert(distance_of(p@[i], c) <= distance_of(p@[k], c));
        lemma_distance_zero(p@[i], c);
        assert forall|j: int| 0 <= j < i implies p@[j] != c by {
            assert(distance_of(p@[i], c) < distance_of(p@[j], c));
        }
    }
}

/// Scores never go below zero; black has lightness 0, white has lightness
/// 768, and no color is lighter than white or darker than black.
pub proof fn lemma_score_bounds(c: Color, d: Color)
    ensures
        0 <= distance_of(c, d),
        distance_of(c, c) == 0,
        lightness_of(Color { red: 0, green: 0, blue: 0, alpha: c.alpha }) == 0,
        lightness_of(Color { red: 255, green: 255, blue: 255, alpha: c.alpha }) == 768,
        0 <= lightness_of(c) <= 768,
{
}

} // verus!
