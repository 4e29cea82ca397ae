//! Drawing the image's two colours from a seeded generator.

use rand::distributions::{Distribution, WeightedError, WeightedIndex};
use rand::SeedableRng;
use rand_chacha::ChaCha20Rng;
use vstd::prelude::*;

verus! {

#[verifier::external_type_specification]
#[verifier::external_body]
pub struct ExChaCha20Rng(ChaCha20Rng);

#[verifier::external_type_specification]
#[verifier::external_body]
pub struct ExWeightedError(WeightedError);

/// The colours of one image.
pub struct Attributes {
    pub bg_color: String,
    pub circle_color: String,
}

/// The palette, in the order that the weights follow.
pub open spec fn palette() -> Seq<Seq<char>> {
    seq![
        seq!['b', 'l', 'u', 'e'],
        seq!['r', 'e', 'd'],
        seq!['g', 'r', 'e', 'e', 'n'],
        seq!['y', 'e', 'l', 'l', 'o', 'w'],
    ]
}

/// The relative weight of each palette entry: yellow is a third as likely as
/// each of the others.
pub open spec fn palette_weights() -> Seq<u32> {
    seq![3u32, 3u32, 3u32, 1u32]
}

/// One of the palette's colours.
pub open spec fn is_palette_color(c: Seq<char>) -> bool {
    exists|i: int| 0 <= i < palette().len() && #[trigger] palette()[i] == c
}

/// The sum of the weights.
pub open spec fn weight_total(w: Seq<u32>) -> nat
    decreases w.len(),
{
    if w.len() == 0 {
        0
    } else {
        weight_total(w.drop_last()) + w.last() as nat
    }
}

/// The two indices drawn, in order, from a ChaCha20 generator seeded with
/// `seed`, each by the given weights.
pub uninterp spec fn weighted_pair_of(seed: Seq<u8>, weights: Seq<u32>) -> (nat, nat);

/// Relies on `ChaCha20Rng::from_seed` (`SeedableRng`), `WeightedIndex::new`
/// and `Distribution::sample`: the generator's stream depends on the seed
/// alone; `new` fails on weights that are all zero and sums them without
/// overflow when the total fits; a sample is an index whose weight is not zero.
#[verifier::external_body]
fn draw_pair(seed: [u8; 32], weights: &[u32]) -> (r: Result<(usize, usize), WeightedError>)
    requires
        weights@.len() > 0,
        weight_total(weights@) <= u32::MAX,
    ensures
        r is Ok <==> weight_total(weights@) > 0,
        r is Ok ==> r->Ok_0.0 < weights@.len() && weights@[r->Ok_0.0 as int] > 0,
        r is Ok ==> r->Ok_0.1 < weights@.len() && weights@[r->Ok_0.1 as int] > 0,
        r is Ok ==> (r->Ok_0.0 as nat, r->Ok_0.1 as nat) == weighted_pair_of(seed@, weights@),
{
    let mut rng = ChaCha20Rng::from_seed(seed);
    let dist = WeightedIndex::new(weights)?;
    let first = dist.sample(&mut rng);
    Ok((first, dist.sample(&mut rng)))
}

/// The palette indices of the background and circle colours for a seed.
pub open spec fn drawn_indices(seed: Seq<u8>) -> (nat, nat) {
    weighted_pair_of(seed, palette_weights())
}

/// The background colour drawn for a seed: the first draw.
pub open spec fn bg_color_of(seed: Seq<u8>) -> Seq<char> {
    palette()[drawn_indices(seed).0 as int]
}

/// The circle colour drawn for a seed: the second draw.
pub open spec fn circle_color_of(seed: Seq<u8>) -> Seq<char> {
    palette()[drawn_indices(seed).1 as int]
}

/// The palette colour at index `i`.
pub fn color_at(i: usize) -> (r: String)
    requires
        i < 4,
    ensures
        r@ == palette()[i as int],
{
    let colors: [&str; 4] = ["blue", "red", "green", "yellow"];
    proof {
        reveal_strlit("blue");
        reveal_strlit("red");
        reveal_strlit("green");
        reveal_strlit("yellow");
        assert(palette()[i as int] == colors[i as int]@);
    }
    colors[i].to_string()
}

/// Seeds a ChaCha20 generator with the 32 bytes and draws the background
/// colour, then the circle colour, by the palette's weights.
pub fn generate(seed: [u8; 32]) -> (r: Attributes)
    ensures
        r.bg_color@ == bg_color_of(seed@),
        r.circle_color@ == circle_color_of(seed@),
        is_palette_color(r.bg_color@),
        is_palette_color(r.circle_color@),
{
    let weights: [u32; 4] = [3, 3, 3, 1];
    proof {
        assert(weights@ =~= palette_weights());
        reveal_with_fuel(weight_total, 5);
        assert(weight_total(weights@) == 10);
    }
    match draw_pair(seed, weights.as_slice()) {
        Ok((first, second)) => {
            let bg_color = color_at(first);
            let circle_color = color_at(second);
            assert(palette()[first as int] == bg_color@);
            assert(palette()[second as int] == circle_color@);
            Attributes { bg_color, circle_color }
        },
        Err(_) => {
            proof {
                assert(false);
            }
            Attributes { bg_color: String::new(), circle_color: String::new() }
        },
    }
}

} // verus!
