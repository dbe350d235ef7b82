use vstd::prelude::*;
use vstd::string::*;
use crate::color::{hex_text, Color};
use crate::palette::Swatch;
use crate::text::{push_radix, radix_text};

verus! {

/// Foreground and background colors with a bold flag.
#[derive(Clone, Copy, Debug, PartialEq, Eq, Structural)]
pub struct Style {
    pub fg: Color,
    pub bg: Color,
    pub bold: bool,
}

/// Black on white, not bold.
pub open spec fn default_style() -> Style {
    Style { fg: Swatch::Black.spec_rgb(), bg: Swatch::White.spec_rgb(), bold: false }
}

/// `n` in decimal, without leading zeros.
pub open spec fn dec_text(n: u8) -> Seq<char> {
    radix_text(n as nat, 10)
}

/// The decimal channels of `c`, separated by `;`.
pub open spec fn sgr_channels(c: Color) -> Seq<char> {
    dec_text(c.r) + ";"@ + dec_text(c.g) + ";"@ + dec_text(c.b)
}

/// One SGR escape sequence: `1` or `0` for bold or reset, then the
/// foreground and the background as 24-bit colors.
pub open spec fn ansi_text(s: Style) -> Seq<char> {
    "\x1b["@ + (if s.bold { "1"@ } else { "0"@ }) + ";38;2;"@ + sgr_channels(s.fg) + ";48;2;"@
        + sgr_channels(s.bg) + "m"@
}

/// A CSS declaration list of the weight, the color and the background color,
/// the colors in the form of `Color::hex`.
pub open spec fn html_text(s: Style) -> Seq<char> {
    "font-weight:"@ + (if s.bold { "bold"@ } else { "normal"@ }) + ";color:"@ + hex_text(s.fg)
        + ";background-color:"@ + hex_text(s.bg) + ";"@
}

impl Default for Style {
    fn default() -> (res: Style)
        ensures
            res == default_style(),
    {
        Style { fg: Swatch::Black.rgb(), bg: Swatch::White.rgb(), bold: false }
    }
}

/// Appends the decimal channels of `c`, separated by `;`.
fn push_channels(s: &mut String, c: Color)
    ensures
        final(s)@ == old(s)@ + sgr_channels(c),
{
    push_radix(s, c.r, 10);
    s.append(";");
    push_radix(s, c.g, 10);
    s.append(";");
    push_radix(s, c.b, 10);
    assert(final(s)@ =~= old(s)@ + sgr_channels(c));
}

impl Style {
    /// The escape sequence that sets this style on a truecolor terminal.
    pub fn ansi(self) -> (res: String)
        ensures
            res@ == ansi_text(self),
    {
        let mut res = String::new();
        res.append("\x1b[");
        if self.bold {
            res.append("1");
        } else {
            res.append("0");
        }
        res.append(";38;2;");
        push_channels(&mut res, self.fg);
        res.append(";48;2;");
        push_channels(&mut res, self.bg);
        res.append("m");
        assert(res@ =~= ansi_text(self));
        res
    }

    /// The CSS declarations for this style, for an HTML `style` attribute.
    pub fn html_style(self) -> (res: String)
        ensures
            res@ == html_text(self),
    {
        let mut res = String::new();
        res.append("font-weight:");
        if self.bold {
            res.append("bold");
        } else {
            res.append("normal");
        }
        res.append(";color:");
        let fg = self.fg.hex();
        res.append(fg.as_str());
        res.append(";background-color:");
        let bg = self.bg.hex();
        res.append(bg.as_str());
        res.append(";");
        assert(res@ =~= html_text(self));
        res
    }
}

} // verus!
