//! Render layers: a bit set over layer numbers, held as 64-bit words.
//! Layer `n` is bit `n % 64` of word `n / 64`.

use vstd::prelude::*;
use vstd::std_specs::bits::u64_trailing_zeros;
use vstd::std_specs::bits::axiom_u64_trailing_zeros;

verus! {

/// Two word sequences share a set bit in a word that both hold.
pub open spec fn layers_intersect(a: Seq<u64>, b: Seq<u64>) -> bool {
    exists|i: int| 0 <= i < a.len() && i < b.len() && #[trigger] (a[i] & b[i]) != 0u64
}

/// Layer `n` is in the set: bit `n % 64` of word `n / 64` is set.
pub open spec fn has_layer(words: Seq<u64>, n: int) -> bool {
    &&& 0 <= n
    &&& n / 64 < words.len()
    &&& (words[n / 64] >> ((n % 64) as u64)) & 1u64 == 1u64
}

/// Two sets share a layer.
pub open spec fn share_a_layer(a: Seq<u64>, b: Seq<u64>) -> bool {
    exists|n: int| #[trigger] has_layer(a, n) && has_layer(b, n)
}

/// The words of the default layers: layer 0 alone.
pub open spec fn default_layer_words() -> Seq<u64> {
    seq![1u64]
}

/// A set of render layers.
#[derive(Clone, Debug, PartialEq, Eq, Hash)]
pub struct RenderLayers {
    pub words: Vec<u64>,
}

impl RenderLayers {
    /// The layers given by their words.
    pub fn from_words(words: Vec<u64>) -> (r: Self)
        ensures
            r.words@ == words@,
    {
        RenderLayers { words }
    }

    /// The layers of an entity or view that names none: layer 0 alone.
    pub fn default_layers() -> (r: Self)
        ensures
            r.words@ == default_layer_words(),
            forall|n: int| #[trigger] has_layer(r.words@, n) <==> n == 0,
    {
        let mut words: Vec<u64> = Vec::new();
        words.push(1u64);
        proof {
            assert(words@ =~= default_layer_words());
            lemma_default_layers_are_layer_zero();
        }
        RenderLayers { words }
    }

    /// The empty set of layers.
    pub fn none() -> (r: Self)
        ensures
            r.words@ == Seq::<u64>::empty(),
    {
        RenderLayers { words: Vec::new() }
    }

    /// Whether the two sets share a layer.
    pub fn intersects(&self, other: &RenderLayers) -> (r: bool)
        ensures
            r == layers_intersect(self.words@, other.words@),
            r == share_a_layer(self.words@, other.words@),
    {
        proof {
            lemma_intersects_iff_shared_layer(self.words@, other.words@);
        }
        let mut i: usize = 0;
        while i < self.words.len() && i < other.words.len()
            invariant
                i <= self.words.len(),
                i <= other.words.len(),
                forall|j: int| 0 <= j < i ==> #[trigger] (self.words@[j] & other.words@[j]) == 0u64,
            decreases self.words.len() - i,
        {
            if self.words[i] & other.words[i] != 0 {
                proof {
                    lemma_common_bit_intersects(self.words@, other.words@, i as int);
                }
                return true;
            }
            i = i + 1;
        }
        false
    }
}

/// Sharing a layer does not depend on the order of the two sets.
pub proof fn lemma_intersects_symmetric(a: Seq<u64>, b: Seq<u64>)
    ensures
        layers_intersect(a, b) == layers_intersect(b, a),
{
    if layers_intersect(a, b) {
        let i = choose|i: int| 0 <= i < a.len() && i < b.len() && #[trigger] (a[i] & b[i]) != 0u64;
        let x: u64 = a[i];
        let y: u64 = b[i];
        assert(x & y == y & x) by (bit_vector);
        assert(b[i] & a[i] != 0u64);
    }
    if layers_intersect(b, a) {
        let i = choose|i: int| 0 <= i < b.len() && i < a.len() && #[trigger] (b[i] & a[i]) != 0u64;
        let x: u64 = a[i];
        let y: u64 = b[i];
        assert(x & y == y & x) by (bit_vector);
        assert(a[i] & b[i] != 0u64);
    }
}

/// The default layers share a layer with any set that holds layer 0.
pub proof fn lemma_default_intersects_layer_zero(a: Seq<u64>)
    requires
        a.len() > 0,
        a[0] & 1u64 == 1u64,
    ensures
        layers_intersect(a, default_layer_words()),
{
    let d = default_layer_words();
    assert(a[0] & d[0] != 0u64);
}

/// Two words share a set bit exactly when some bit position is set in both.
proof fn lemma_word_and_nonzero(x: u64, y: u64)
    ensures
        (x & y) != 0u64 ==> ({
            let k = u64_trailing_zeros(x & y) as u64;
            &&& k < 64
            &&& (x >> k) & 1u64 == 1u64
            &&& (y >> k) & 1u64 == 1u64
        }),
{
    let z: u64 = x & y;
    axiom_u64_trailing_zeros(z);
    if z != 0u64 {
        let k: u64 = u64_trailing_zeros(z) as u64;
        assert(k < 64);
        assert((x >> k) & 1u64 == 1u64 && (y >> k) & 1u64 == 1u64) by (bit_vector)
            requires
                z == x & y,
                (z >> k) & 1u64 == 1u64,
        ;
    }
}

/// Two sets intersect exactly when some layer number is in both: sharing any
/// one layer is enough, and no set intersects another without sharing one.
pub proof fn lemma_intersects_iff_shared_layer(a: Seq<u64>, b: Seq<u64>)
    ensures
        layers_intersect(a, b) <==> share_a_layer(a, b),
{
    if layers_intersect(a, b) {
        let i = choose|i: int| 0 <= i < a.len() && i < b.len() && #[trigger] (a[i] & b[i]) != 0u64;
        let x: u64 = a[i];
        let y: u64 = b[i];
        lemma_word_and_nonzero(x, y);
        let k: u64 = u64_trailing_zeros(x & y) as u64;
        let n: int = 64 * i + k;
        assert(n / 64 == i && n % 64 == k) by (nonlinear_arith)
            requires
                n == 64 * i + k,
                0 <= k < 64,
                0 <= i,
        ;
        assert(has_layer(a, n) && has_layer(b, n));
    }
    if share_a_layer(a, b) {
        let n = choose|n: int| #[trigger] has_layer(a, n) && has_layer(b, n);
        let i: int = n / 64;
        let k: u64 = (n % 64) as u64;
        let x: u64 = a[i];
        let y: u64 = b[i];
        assert((x & y) != 0u64) by (bit_vector)
            requires
                (x >> k) & 1u64 == 1u64,
                (y >> k) & 1u64 == 1u64,
        ;
        assert((a[i] & b[i]) != 0u64);
    }
}

/// Any index at which both sets have a common bit makes them intersect.
pub proof fn lemma_common_bit_intersects(a: Seq<u64>, b: Seq<u64>, i: int)
    requires
        0 <= i < a.len(),
        i < b.len(),
        (a[i] & b[i]) != 0u64,
    ensures
        share_a_layer(a, b),
{
    let x: u64 = a[i];
    let y: u64 = b[i];
    lemma_word_and_nonzero(x, y);
    let k: u64 = u64_trailing_zeros(x & y) as u64;
    let n: int = 64 * i + k;
    assert(n / 64 == i && n % 64 == k) by (nonlinear_arith)
        requires
            n == 64 * i + k,
            0 <= k < 64,
            0 <= i,
    ;
    assert(has_layer(a, n) && has_layer(b, n));
}

/// The default layers hold layer 0 and no other layer.
pub proof fn lemma_default_layers_are_layer_zero()
    ensures
        forall|n: int| #[trigger] has_layer(default_layer_words(), n) <==> n == 0,
{
    let d = default_layer_words();
    assert forall|n: int| #[trigger] has_layer(d, n) <==> n == 0 by {
        if 0 <= n && n / 64 < d.len() {
            assert(n / 64 == 0);
            let k: u64 = (n % 64) as u64;
            assert(k < 64);
            assert((1u64 >> k) & 1u64 == 1u64 <==> k == 0) by (bit_vector)
                requires
                    k < 64,
            ;
        }
        if n == 0 {
            assert(d[0] == 1u64);
            assert((1u64 >> 0u64) & 1u64 == 1u64) by (bit_vector);
        }
    }
}

} // verus!
