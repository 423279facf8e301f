//! The key by which a 2D mesh pipeline is specialized for a view.
//!
//! Bit 0 says that the view renders to an HDR target; the three highest
//! bits hold the base-2 logarithm of the view's MSAA sample count.

use vstd::prelude::*;
use vstd::std_specs::bits::u32_trailing_zeros;
use vstd::std_specs::bits::axiom_u32_trailing_zeros;

verus! {

/// Mask of the MSAA field once it is shifted down.
pub const MSAA_MASK_BITS: u32 = 7u32;

/// Position of the lowest bit of the MSAA field.
pub const MSAA_SHIFT_BITS: u32 = 29u32;

/// The flag of a view that renders to an HDR target.
pub const HDR_BIT: u32 = 1u32;

/// Bits of a key built from a sample count alone.
pub open spec fn msaa_field_bits(msaa_samples: u32) -> u32 {
    (u32_trailing_zeros(msaa_samples) & MSAA_MASK_BITS) << MSAA_SHIFT_BITS
}

/// Bits of a key built from the HDR flag alone.
pub open spec fn hdr_field_bits(hdr: bool) -> u32 {
    if hdr {
        HDR_BIT
    } else {
        0u32
    }
}

/// The sample count that a key's bits encode.
pub open spec fn msaa_samples_of(bits: u32) -> u32 {
    1u32 << ((bits >> MSAA_SHIFT_BITS) & MSAA_MASK_BITS)
}

/// The key of a view with the given sample count and HDR flag.
pub open spec fn view_key_bits(msaa_samples: u32, hdr: bool) -> u32 {
    msaa_field_bits(msaa_samples) | hdr_field_bits(hdr)
}

/// A sample count that the key can carry unchanged: a power of two up to 128.
pub open spec fn is_encodable_sample_count(msaa_samples: u32) -> bool {
    exists|k: u32| k < 8 && msaa_samples == #[trigger] (1u32 << k)
}

/// Key of a 2D mesh pipeline, held as its bits.
#[derive(Clone, Copy, Debug, PartialEq, Eq, Hash)]
pub struct Mesh2dPipelineKey {
    pub bits: u32,
}

impl Mesh2dPipelineKey {
    /// The key with no flag set.
    pub fn none() -> (r: Self)
        ensures
            r.bits == 0,
    {
        Mesh2dPipelineKey { bits: 0 }
    }

    /// The key with only the HDR flag set.
    pub fn hdr() -> (r: Self)
        ensures
            r.bits == HDR_BIT,
    {
        Mesh2dPipelineKey { bits: HDR_BIT }
    }

    /// The key that records `msaa_samples` in its MSAA field.
    pub fn from_msaa_samples(msaa_samples: u32) -> (r: Self)
        ensures
            r.bits == msaa_field_bits(msaa_samples),
    {
        let log2: u32 = msaa_samples.trailing_zeros();
        Mesh2dPipelineKey { bits: (log2 & MSAA_MASK_BITS) << MSAA_SHIFT_BITS }
    }

    /// The key with the HDR flag set exactly when `hdr` holds.
    pub fn from_hdr(hdr: bool) -> (r: Self)
        ensures
            r.bits == hdr_field_bits(hdr),
    {
        if hdr {
            Self::hdr()
        } else {
            Self::none()
        }
    }

    /// The union of two keys.
    pub fn union(self, other: Self) -> (r: Self)
        ensures
            r.bits == self.bits | other.bits,
    {
        Mesh2dPipelineKey { bits: self.bits | other.bits }
    }

    /// Whether every flag of `other` is set in `self`.
    pub fn contains(&self, other: Self) -> (r: bool)
        ensures
            r == (self.bits & other.bits == other.bits),
    {
        self.bits & other.bits == other.bits
    }

    /// Whether the HDR flag is set.
    pub fn is_hdr(&self) -> (r: bool)
        ensures
            r == (self.bits & HDR_BIT == HDR_BIT),
    {
        self.contains(Self::hdr())
    }

    /// The sample count recorded in the MSAA field.
    pub fn msaa_samples(&self) -> (r: u32)
        ensures
            r == msaa_samples_of(self.bits),
    {
        let bits: u32 = self.bits;
        let field: u32 = (bits >> MSAA_SHIFT_BITS) & MSAA_MASK_BITS;
        assert(field < 32) by (bit_vector)
            requires
                field == (bits >> 29u32) & 7u32,
        ;
        1u32 << field
    }

    /// The key of a view: its sample count and its HDR flag together.
    pub fn for_view(msaa_samples: u32, hdr: bool) -> (r: Self)
        ensures
            r.bits == view_key_bits(msaa_samples, hdr),
    {
        Self::from_msaa_samples(msaa_samples).union(Self::from_hdr(hdr))
    }
}

/// The number of trailing zeros of `1 << k` is `k`.
pub proof fn lemma_trailing_zeros_of_power(k: u32)
    requires
        k < 32,
    ensures
        u32_trailing_zeros(1u32 << k) == k,
{
    let i: u32 = 1u32 << k;
    axiom_u32_trailing_zeros(i);
    assert(i != 0) by (bit_vector)
        requires
            i == 1u32 << k,
            k < 32,
    ;
    let tz: u32 = u32_trailing_zeros(i);
    if tz < k {
        assert((i >> tz) & 1u32 == 0u32) by (bit_vector)
            requires
                i == 1u32 << k,
                k < 32,
                tz < k,
        ;
    }
    if tz > k {
        assert((i >> k) & 1u32 == 1u32) by (bit_vector)
            requires
                i == 1u32 << k,
                k < 32,
        ;
        assert((i >> k) & 1u32 == 0u32);
    }
}

/// A view's key gives back the view's sample count, when the count is a
/// power of two up to 128, and its HDR flag, whatever the count.
pub proof fn lemma_view_key_roundtrip(msaa_samples: u32, hdr: bool)
    ensures
        view_key_bits(msaa_samples, hdr) & HDR_BIT == HDR_BIT <==> hdr,
        is_encodable_sample_count(msaa_samples) ==> msaa_samples_of(
            view_key_bits(msaa_samples, hdr),
        ) == msaa_samples,
{
    let tz: u32 = u32_trailing_zeros(msaa_samples);
    let h: u32 = hdr_field_bits(hdr);
    let b: u32 = view_key_bits(msaa_samples, hdr);
    assert(b == ((tz & 7u32) << 29u32) | h);
    assert(h == 0u32 || h == 1u32);
    assert((b & 1u32 == 1u32) <==> (h == 1u32)) by (bit_vector)
        requires
            b == ((tz & 7u32) << 29u32) | h,
            h == 0u32 || h == 1u32,
    ;
    if is_encodable_sample_count(msaa_samples) {
        let k: u32 = choose|k: u32| k < 8 && msaa_samples == #[trigger] (1u32 << k);
        lemma_trailing_zeros_of_power(k);
        assert(1u32 << ((b >> 29u32) & 7u32) == 1u32 << k) by (bit_vector)
            requires
                b == ((k & 7u32) << 29u32) | h,
                h == 0u32 || h == 1u32,
                k < 8,
        ;
    }
}

} // verus!
