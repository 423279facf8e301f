//! How a gizmo's lines are drawn: the style of a line and the joints
//! between the segments of a strip.

use vstd::prelude::*;

verus! {

/// The style of a gizmo's lines. A dashed line's scales are held by the
/// bits of their 32-bit floats; they are hashed by those bits and compared
/// as floats.
#[derive(Clone, Copy, Debug, Hash)]
pub enum GizmoLineStyle {
    Solid,
    Dotted,
    Dashed { gap_scale_bits: u32, line_scale_bits: u32 },
}

/// Two 32-bit floats, given by their bits, are equal as floats: neither is
/// a NaN, and they have the same bits or are both zeros of either sign.
pub open spec fn f32_bits_equal(a: u32, b: u32) -> bool {
    &&& a & 0x7fff_ffffu32 <= 0x7f80_0000u32
    &&& b & 0x7fff_ffffu32 <= 0x7f80_0000u32
    &&& (a == b || (a & 0x7fff_ffffu32 == 0u32 && b & 0x7fff_ffffu32 == 0u32))
}

/// Whether two 32-bit floats, given by their bits, are equal as floats.
pub fn f32_bits_eq(a: u32, b: u32) -> (r: bool)
    ensures
        r == f32_bits_equal(a, b),
{
    let ma: u32 = a & 0x7fff_ffffu32;
    let mb: u32 = b & 0x7fff_ffffu32;
    ma <= 0x7f80_0000u32 && mb <= 0x7f80_0000u32 && (a == b || (ma == 0 && mb == 0))
}

/// Two line styles are equal: the same kind, and for dashes, scales equal as floats.
pub open spec fn line_styles_equal(a: GizmoLineStyle, b: GizmoLineStyle) -> bool {
    match (a, b) {
        (GizmoLineStyle::Solid, GizmoLineStyle::Solid) => true,
        (GizmoLineStyle::Dotted, GizmoLineStyle::Dotted) => true,
        (
            GizmoLineStyle::Dashed { gap_scale_bits: g1, line_scale_bits: l1 },
            GizmoLineStyle::Dashed { gap_scale_bits: g2, line_scale_bits: l2 },
        ) => f32_bits_equal(g1, g2) && f32_bits_equal(l1, l2),
        _ => false,
    }
}

impl PartialEq for GizmoLineStyle {
    fn eq(&self, other: &Self) -> (r: bool) {
        match (self, other) {
            (GizmoLineStyle::Solid, GizmoLineStyle::Solid) => true,
            (GizmoLineStyle::Dotted, GizmoLineStyle::Dotted) => true,
            (
                GizmoLineStyle::Dashed { gap_scale_bits: g1, line_scale_bits: l1 },
                GizmoLineStyle::Dashed { gap_scale_bits: g2, line_scale_bits: l2 },
            ) => f32_bits_eq(*g1, *g2) && f32_bits_eq(*l1, *l2),
            _ => false,
        }
    }
}

impl vstd::std_specs::cmp::PartialEqSpecImpl for GizmoLineStyle {
    open spec fn obeys_eq_spec() -> bool {
        true
    }

    open spec fn eq_spec(&self, other: &Self) -> bool {
        line_styles_equal(*self, *other)
    }
}

impl Eq for GizmoLineStyle {

}

/// The joints drawn between the segments of a line strip.
#[derive(Clone, Copy, Debug, PartialEq, Eq, Hash)]
pub enum GizmoLineJoint {
    /// No joint is drawn.
    NoJoint,
    /// Segments are extended until they meet.
    Miter,
    /// A round cap with the given resolution.
    Round(u32),
    /// The corner is cut off.
    Bevel,
}

impl GizmoLineJoint {
    /// Whether no joint is drawn.
    pub fn is_none(&self) -> (r: bool)
        ensures
            r == (*self is NoJoint),
    {
        match self {
            GizmoLineJoint::NoJoint => true,
            _ => false,
        }
    }
}

} // verus!
