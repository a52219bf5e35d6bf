use vstd::prelude::*;

verus! {

/// An RGBA color, one byte per channel; alpha 255 is opaque.
#[derive(PartialEq, Eq, Structural, Clone, Copy, Debug)]
pub struct Color {
    pub r: u8,
    pub g: u8,
    pub b: u8,
    pub a: u8,
}

impl Color {
    pub fn new(r: u8, g: u8, b: u8, a: u8) -> (c: Color)
        ensures
            c == (Color { r, g, b, a }),
    {
        Color { r, g, b, a }
    }

    /// Opaque black.
    #[verifier::allow_in_spec]
    pub fn black() -> Color
        returns
            (Color { r: 0, g: 0, b: 0, a: 255 }),
    {
        Color { r: 0, g: 0, b: 0, a: 255 }
    }

    /// Opaque white.
    #[verifier::allow_in_spec]
    pub fn white() -> Color
        returns
            (Color { r: 255, g: 255, b: 255, a: 255 }),
    {
        Color { r: 255, g: 255, b: 255, a: 255 }
    }
}

/// One channel of `src` drawn with opacity `alpha` over `dst`.
pub open spec fn blend_channel(src: u8, dst: u8, alpha: u8) -> u8 {
    ((src * alpha + dst * (255 - alpha)) / 255) as u8
}

/// `color` drawn over `under` with `color`'s alpha: the result is opaque.
pub open spec fn blended(color: Color, under: Color) -> Color {
    Color {
        r: blend_channel(color.r, under.r, color.a),
        g: blend_channel(color.g, under.g, color.a),
        b: blend_channel(color.b, under.b, color.a),
        a: 255,
    }
}

/// Drawing an opaque color over any color gives that color.
pub proof fn blend_opaque_is_replace(color: Color, under: Color)
    requires
        color.a == 255,
    ensures
        blended(color, under) == color,
{
}

/// A blended channel lies between the two channels it mixes; drawing over a
/// channel of the same value leaves it, and a transparent color leaves the
/// channel beneath.
pub proof fn blend_stays_between(src: u8, dst: u8, alpha: u8)
    ensures
        (if src <= dst { src } else { dst }) <= blend_channel(src, dst, alpha) <= (if src <= dst {
            dst
        } else {
            src
        }),
        blend_channel(dst, dst, alpha) == dst,
        blend_channel(src, dst, 0) == dst,
        blend_channel(src, dst, 255) == src,
{
    let low: int = if src <= dst { src as int } else { dst as int };
    let high: int = if src <= dst { dst as int } else { src as int };
    let sum = src * alpha + dst * (255 - alpha);
    assert(low * 255 <= sum <= high * 255) by (nonlinear_arith)
        requires
            low <= src <= high,
            low <= dst <= high,
            0 <= alpha <= 255,
            sum == src * alpha + dst * (255 - alpha),
    ;
    assert(dst * alpha + dst * (255 - alpha) == dst * 255) by (nonlinear_arith);
    assert(low <= sum / 255 <= high) by (nonlinear_arith)
        requires
            low * 255 <= sum <= high * 255,
    ;
}

} // verus!
