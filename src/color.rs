//! Colors and the integer arithmetic on them.

use vstd::prelude::*;

verus! {

/// A single RGB-888 color.
#[derive(Clone, Copy, Debug, PartialEq, Eq, Structural, Default)]
pub struct Color {
    /// The red component.
    pub r: u8,
    /// The green component.
    pub g: u8,
    /// The blue component.
    pub b: u8,
}

/// The largest integer blend factor: blending by it gives the second value.
pub const MAX_FACTOR: u8 = 255;

/// One channel moved from `a` toward `b` by `factor / 255` of the distance,
/// the fractional part of that step truncated toward zero.
pub open spec fn blend_channel(a: u8, b: u8, factor: u8) -> int {
    if a <= b {
        a + (b - a) * factor / 255
    } else {
        a - (a - b) * factor / 255
    }
}

/// Each channel of `a` blended toward the same channel of `b`.
pub open spec fn blend_color(a: Color, b: Color, factor: u8) -> Color {
    Color {
        r: blend_channel(a.r, b.r, factor) as u8,
        g: blend_channel(a.g, b.g, factor) as u8,
        b: blend_channel(a.b, b.b, factor) as u8,
    }
}

/// Sum of two channels, held at 255.
pub open spec fn saturating_sum(a: u8, b: u8) -> u8 {
    if a + b > 255 {
        255
    } else {
        (a + b) as u8
    }
}

/// Difference of two channels, held at 0.
pub open spec fn saturating_diff(a: u8, b: u8) -> u8 {
    if a < b {
        0
    } else {
        (a - b) as u8
    }
}

/// Product of two channels read as fractions of 256, rounded down.
pub open spec fn channel_product(a: u8, b: u8) -> u8 {
    (a * b / 256) as u8
}

/// A blended channel lies between its two ends.
proof fn lemma_blend_channel_bounds(a: u8, b: u8, factor: u8)
    ensures
        a <= b ==> a <= blend_channel(a, b, factor) <= b,
        b < a ==> b <= blend_channel(a, b, factor) <= a,
{
    if a <= b {
        let d: int = b - a;
        assert(d * factor / 255 <= d) by (nonlinear_arith)
            requires
                0 <= d,
                0 <= factor <= 255,
        ;
        assert(0 <= d * factor / 255) by (nonlinear_arith)
            requires
                0 <= d,
                0 <= factor,
        ;
    } else {
        let d: int = a - b;
        assert(d * factor / 255 <= d) by (nonlinear_arith)
            requires
                0 <= d,
                0 <= factor <= 255,
        ;
        assert(0 <= d * factor / 255) by (nonlinear_arith)
            requires
                0 <= d,
                0 <= factor,
        ;
    }
}

impl Color {
    /// A convenience constructor for a color.
    pub fn rgb(r: u8, g: u8, b: u8) -> (c: Color)
        ensures
            c == (Color { r, g, b }),
    {
        Color { r, g, b }
    }

    /// The color black.
    pub fn black() -> (c: Color)
        ensures
            c == (Color { r: 0, g: 0, b: 0 }),
    {
        Color { r: 0, g: 0, b: 0 }
    }

    /// The color white.
    pub fn white() -> (c: Color)
        ensures
            c == (Color { r: 255, g: 255, b: 255 }),
    {
        Color { r: 255, g: 255, b: 255 }
    }
}

/// A trait to blend between two values by some factor.
pub trait Blend<T>: Sized {
    /// Blend between two values.
    fn blend(self, other: Self, factor: T) -> Self;
}

impl Blend<u8> for u8 {
    /// Integer blend: `0` keeps `self`, `255` gives `other`.
    fn blend(self, other: u8, factor: u8) -> (r: u8)
        ensures
            r == blend_channel(self, other, factor),
    {
        proof {
            lemma_blend_channel_bounds(self, other, factor);
        }
        if self <= other {
            let step: u32 = ((other - self) as u32 * factor as u32) / 255;
            (self as u32 + step) as u8
        } else {
            let step: u32 = ((self - other) as u32 * factor as u32) / 255;
            (self as u32 - step) as u8
        }
    }
}

impl Blend<u8> for Color {
    /// Blend each channel on its own.
    fn blend(self, other: Color, factor: u8) -> (c: Color)
        ensures
            c == blend_color(self, other, factor),
    {
        Color {
            r: self.r.blend(other.r, factor),
            g: self.g.blend(other.g, factor),
            b: self.b.blend(other.b, factor),
        }
    }
}

impl std::ops::Add<Color> for Color {
    type Output = Color;

    /// Channel-wise sum, saturating at 255.
    fn add(self, rhs: Color) -> (c: Color)
        ensures
            c == (Color {
                r: saturating_sum(self.r, rhs.r),
                g: saturating_sum(self.g, rhs.g),
                b: saturating_sum(self.b, rhs.b),
            }),
    {
        Color {
            r: self.r.saturating_add(rhs.r),
            g: self.g.saturating_add(rhs.g),
            b: self.b.saturating_add(rhs.b),
        }
    }
}

impl vstd::std_specs::ops::AddSpecImpl<Color> for Color {
    open spec fn obeys_add_spec() -> bool {
        true
    }

    open spec fn add_req(self, rhs: Color) -> bool {
        true
    }

    open spec fn add_spec(self, rhs: Color) -> Color {
        Color {
            r: saturating_sum(self.r, rhs.r),
            g: saturating_sum(self.g, rhs.g),
            b: saturating_sum(self.b, rhs.b),
        }
    }
}

impl std::ops::Sub<Color> for Color {
    type Output = Color;

    /// Channel-wise difference, saturating at 0.
    fn sub(self, rhs: Color) -> (c: Color)
        ensures
            c == (Color {
                r: saturating_diff(self.r, rhs.r),
                g: saturating_diff(self.g, rhs.g),
                b: saturating_diff(self.b, rhs.b),
            }),
    {
        Color {
            r: self.r.saturating_sub(rhs.r),
            g: self.g.saturating_sub(rhs.g),
            b: self.b.saturating_sub(rhs.b),
        }
    }
}

impl vstd::std_specs::ops::SubSpecImpl<Color> for Color {
    open spec fn obeys_sub_spec() -> bool {
        true
    }

    open spec fn sub_req(self, rhs: Color) -> bool {
        true
    }

    open spec fn sub_spec(self, rhs: Color) -> Color {
        Color {
            r: saturating_diff(self.r, rhs.r),
            g: saturating_diff(self.g, rhs.g),
            b: saturating_diff(self.b, rhs.b),
        }
    }
}

/// One channel of a color product.
fn mul_channel(a: u8, b: u8) -> (r: u8)
    ensures
        r == channel_product(a, b),
{
    assert(a * b / 256 < 256) by (nonlinear_arith)
        requires
            0 <= a < 256,
            0 <= b < 256,
    ;
    ((a as u16 * b as u16) / 256) as u8
}

impl std::ops::Mul<Color> for Color {
    type Output = Color;

    /// Channel-wise product, each channel read as a fraction of 256.
    fn mul(self, rhs: Color) -> (c: Color)
        ensures
            c == (Color {
                r: channel_product(self.r, rhs.r),
                g: channel_product(self.g, rhs.g),
                b: channel_product(self.b, rhs.b),
            }),
    {
        Color {
            r: mul_channel(self.r, rhs.r),
            g: mul_channel(self.g, rhs.g),
            b: mul_channel(self.b, rhs.b),
        }
    }
}

impl vstd::std_specs::ops::MulSpecImpl<Color> for Color {
    open spec fn obeys_mul_spec() -> bool {
        true
    }

    open spec fn mul_req(self, rhs: Color) -> bool {
        true
    }

    open spec fn mul_spec(self, rhs: Color) -> Color {
        Color {
            r: channel_product(self.r, rhs.r),
            g: channel_product(self.g, rhs.g),
            b: channel_product(self.b, rhs.b),
        }
    }
}

impl std::ops::Mul<u8> for Color {
    type Output = Color;

    /// Scale a color by `rhs / 255`: a blend from black toward the color.
    fn mul(self, rhs: u8) -> (c: Color)
        ensures
            c == blend_color(Color { r: 0, g: 0, b: 0 }, self, rhs),
    {
        Color::black().blend(self, rhs)
    }
}

impl vstd::std_specs::ops::MulSpecImpl<u8> for Color {
    open spec fn obeys_mul_spec() -> bool {
        true
    }

    open spec fn mul_req(self, rhs: u8) -> bool {
        true
    }

    open spec fn mul_spec(self, rhs: u8) -> Color {
        blend_color(Color { r: 0, g: 0, b: 0 }, self, rhs)
    }
}

/// Blending by a zero factor keeps the first color, and blending by the
/// largest factor gives the second.
pub proof fn lemma_blend_ends(a: Color, b: Color)
    ensures
        blend_color(a, b, 0) == a,
        blend_color(a, b, MAX_FACTOR) == b,
{
}

/// For each channel, a larger factor never moves the blend away from the
/// second color: the channel grows with the factor where the first value is
/// the smaller, and shrinks where it is the larger.
pub proof fn lemma_blend_channel_monotonic(a: u8, b: u8, f1: u8, f2: u8)
    requires
        f1 <= f2,
    ensures
        a <= b ==> blend_channel(a, b, f1) <= blend_channel(a, b, f2),
        b <= a ==> blend_channel(a, b, f1) >= blend_channel(a, b, f2),
{
    if a <= b {
        let d: int = b - a;
        assert(d * f1 / 255 <= d * f2 / 255) by (nonlinear_arith)
            requires
                0 <= d,
                0 <= f1 <= f2,
        ;
        if a == b {
            assert(d * f1 == 0 && d * f2 == 0) by (nonlinear_arith)
                requires
                    d == 0,
            ;
        }
    } else {
        let d: int = a - b;
        assert(d * f1 / 255 <= d * f2 / 255) by (nonlinear_arith)
            requires
                0 <= d,
                0 <= f1 <= f2,
        ;
    }
}

/// Color blends are monotonic in the factor, channel by channel.
pub proof fn lemma_blend_color_monotonic(a: Color, b: Color, f1: u8, f2: u8)
    requires
        f1 <= f2,
    ensures
        a.r <= b.r ==> blend_color(a, b, f1).r <= blend_color(a, b, f2).r,
        b.r <= a.r ==> blend_color(a, b, f1).r >= blend_color(a, b, f2).r,
        a.g <= b.g ==> blend_color(a, b, f1).g <= blend_color(a, b, f2).g,
        b.g <= a.g ==> blend_color(a, b, f1).g >= blend_color(a, b, f2).g,
        a.b <= b.b ==> blend_color(a, b, f1).b <= blend_color(a, b, f2).b,
        b.b <= a.b ==> blend_color(a, b, f1).b >= blend_color(a, b, f2).b,
{
    lemma_blend_channel_monotonic(a.r, b.r, f1, f2);
    lemma_blend_channel_monotonic(a.g, b.g, f1, f2);
    lemma_blend_channel_monotonic(a.b, b.b, f1, f2);
    lemma_blend_channel_bounds(a.r, b.r, f1);
    lemma_blend_channel_bounds(a.r, b.r, f2);
    lemma_blend_channel_bounds(a.g, b.g, f1);
    lemma_blend_channel_bounds(a.g, b.g, f2);
    lemma_blend_channel_bounds(a.b, b.b, f1);
    lemma_blend_channel_bounds(a.b, b.b, f2);
}

} // verus!
