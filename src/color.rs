use vstd::prelude::*;
use crate::palette::Swatch;
use crate::text::{push_radix, radix_text};

verus! {

/// An RGB color with one byte per channel.
#[derive(Clone, Copy, Debug, PartialEq, Eq, Structural)]
pub struct Color {
    pub r: u8,
    pub g: u8,
    pub b: u8,
}

/// The brightness of `c` as the sum of its channels, each divided by three
/// (rounding down) before the sum.
pub open spec fn luma(c: Color) -> nat {
    (c.r / 3 + c.g / 3 + c.b / 3) as nat
}

/// White where the brightness of `c` is at least 128, black below.
pub open spec fn mono_of(c: Color) -> Color {
    if luma(c) >= 128 {
        Swatch::White.spec_rgb()
    } else {
        Swatch::Black.spec_rgb()
    }
}

/// The channel-wise complement of `c`.
pub open spec fn inverse(c: Color) -> Color {
    Color { r: (255 - c.r) as u8, g: (255 - c.g) as u8, b: (255 - c.b) as u8 }
}

/// The channels of `c` in lowercase hexadecimal, red, green and blue, each
/// without leading zeros, with no separator.
pub open spec fn hex_text(c: Color) -> Seq<char> {
    radix_text(c.r as nat, 16) + radix_text(c.g as nat, 16) + radix_text(c.b as nat, 16)
}

/// `hex_text(c)` after a `#`.
pub open spec fn display_text(c: Color) -> Seq<char> {
    seq!['#'] + hex_text(c)
}

impl Color {
    /// Reduces the color to black or white by a fixed brightness threshold.
    pub fn mono(self) -> (res: Color)
        ensures
            res == mono_of(self),
            res == Swatch::White.spec_rgb() || res == Swatch::Black.spec_rgb(),
    {
        if self.r / 3 + self.g / 3 + self.b / 3 >= 128 {
            Swatch::White.rgb()
        } else {
            Swatch::Black.rgb()
        }
    }

    /// Replaces each channel by its distance from 255.
    pub fn inv(self) -> (res: Color)
        ensures
            res == inverse(self),
            res.r == 255 - self.r,
            res.g == 255 - self.g,
            res.b == 255 - self.b,
    {
        Color { r: 255 - self.r, g: 255 - self.g, b: 255 - self.b }
    }

    /// The channels in lowercase hexadecimal, without padding: a channel
    /// below sixteen takes a single digit.
    pub fn hex(self) -> (res: String)
        ensures
            res@ == hex_text(self),
    {
        let mut res = String::new();
        push_radix(&mut res, self.r, 16);
        push_radix(&mut res, self.g, 16);
        push_radix(&mut res, self.b, 16);
        assert(res@ =~= hex_text(self));
        res
    }

    /// The hexadecimal form of `hex` after a `#`.
    pub fn to_string(&self) -> (res: String)
        ensures
            res@ == display_text(*self),
    {
        let mut res = String::new();
        res.append("#");
        proof {
            reveal_strlit("#");
        }
        let digits = self.hex();
        res.append(digits.as_str());
        assert(res@ =~= display_text(*self));
        res
    }
}

/// Inverting a color twice gives it back.
pub proof fn lemma_inv_involution(c: Color)
    ensures
        inverse(inverse(c)) == c,
{
}

/// Reducing a color to black or white gives exactly white or exactly black.
pub proof fn lemma_mono_black_or_white(c: Color)
    ensures
        mono_of(c) == Swatch::White.spec_rgb() || mono_of(c) == Swatch::Black.spec_rgb(),
        mono_of(c) == Swatch::White.spec_rgb() <==> luma(c) >= 128,
{
}

/// The threshold of `mono` lies between brightness 127, which gives black,
/// and 128, which gives white.
pub proof fn lemma_mono_threshold(c: Color)
    ensures
        luma(c) == 127 ==> mono_of(c) == Swatch::Black.spec_rgb(),
        luma(c) == 128 ==> mono_of(c) == Swatch::White.spec_rgb(),
{
}

} // verus!
