use vstd::prelude::*;
use crate::color::Color;

verus! {

/// The named colors of the palette, each a "700" weight material swatch.
#[derive(Clone, Copy, Debug, PartialEq, Eq, Structural)]
pub enum Swatch {
    Red,
    Pink,
    Purple,
    DeepPurple,
    Indigo,
    Blue,
    LightBlue,
    Cyan,
    Teal,
    Green,
    LightGreen,
    Lime,
    Yellow,
    Amber,
    Orange,
    DeepOrange,
    Brown,
    Grey,
    BlueGrey,
    White,
    Black,
}

/// The color with the given channels.
pub open spec fn rgb_of(r: u8, g: u8, b: u8) -> Color {
    Color { r, g, b }
}

impl Swatch {
    /// The channels of each named color.
    pub open spec fn spec_rgb(self) -> Color {
        match self {
            Swatch::Red => rgb_of(211, 47, 47),
            Swatch::Pink => rgb_of(194, 24, 91),
            Swatch::Purple => rgb_of(123, 31, 162),
            Swatch::DeepPurple => rgb_of(81, 45, 168),
            Swatch::Indigo => rgb_of(48, 63, 159),
            Swatch::Blue => rgb_of(25, 118, 210),
            Swatch::LightBlue => rgb_of(2, 136, 209),
            Swatch::Cyan => rgb_of(0, 151, 167),
            Swatch::Teal => rgb_of(0, 121, 107),
            Swatch::Green => rgb_of(56, 142, 60),
            Swatch::LightGreen => rgb_of(104, 159, 56),
            Swatch::Lime => rgb_of(175, 180, 43),
            Swatch::Yellow => rgb_of(251, 192, 45),
            Swatch::Amber => rgb_of(255, 160, 0),
            Swatch::Orange => rgb_of(245, 124, 0),
            Swatch::DeepOrange => rgb_of(230, 74, 25),
            Swatch::Brown => rgb_of(93, 64, 55),
            Swatch::Grey => rgb_of(97, 97, 97),
            Swatch::BlueGrey => rgb_of(69, 90, 100),
            Swatch::White => rgb_of(255, 255, 255),
            Swatch::Black => rgb_of(0, 0, 0),
        }
    }

    /// The color that this name stands for.
    #[verifier::when_used_as_spec(spec_rgb)]
    pub fn rgb(self) -> (c: Color)
        ensures
            c == self.spec_rgb(),
    {
        match self {
            Swatch::Red => Color { r: 211, g: 47, b: 47 },
            Swatch::Pink => Color { r: 194, g: 24, b: 91 },
            Swatch::Purple => Color { r: 123, g: 31, b: 162 },
            Swatch::DeepPurple => Color { r: 81, g: 45, b: 168 },
            Swatch::Indigo => Color { r: 48, g: 63, b: 159 },
            Swatch::Blue => Color { r: 25, g: 118, b: 210 },
            Swatch::LightBlue => Color { r: 2, g: 136, b: 209 },
            Swatch::Cyan => Color { r: 0, g: 151, b: 167 },
            Swatch::Teal => Color { r: 0, g: 121, b: 107 },
            Swatch::Green => Color { r: 56, g: 142, b: 60 },
            Swatch::LightGreen => Color { r: 104, g: 159, b: 56 },
            Swatch::Lime => Color { r: 175, g: 180, b: 43 },
            Swatch::Yellow => Color { r: 251, g: 192, b: 45 },
            Swatch::Amber => Color { r: 255, g: 160, b: 0 },
            Swatch::Orange => Color { r: 245, g: 124, b: 0 },
            Swatch::DeepOrange => Color { r: 230, g: 74, b: 25 },
            Swatch::Brown => Color { r: 93, g: 64, b: 55 },
            Swatch::Grey => Color { r: 97, g: 97, b: 97 },
            Swatch::BlueGrey => Color { r: 69, g: 90, b: 100 },
            Swatch::White => Color { r: 255, g: 255, b: 255 },
            Swatch::Black => Color { r: 0, g: 0, b: 0 },
        }
    }
}

/// The colors handed to players, in the order of the players.
pub open spec fn player_palette() -> Seq<Color> {
    seq![
        Swatch::Green.spec_rgb(),
        Swatch::Red.spec_rgb(),
        Swatch::Blue.spec_rgb(),
        Swatch::Amber.spec_rgb(),
        Swatch::Purple.spec_rgb(),
        Swatch::Brown.spec_rgb(),
        Swatch::BlueGrey.spec_rgb(),
    ]
}

/// Seven distinguishable colors, one for each player by index: green, red,
/// blue, amber, purple, brown and blue grey.
pub fn player_colors() -> (res: Vec<Color>)
    ensures
        res@ == player_palette(),
        res@.len() == 7,
        res@[0] == Swatch::Green.spec_rgb(),
        res@[1] == Swatch::Red.spec_rgb(),
{
    let res = vec![
        Swatch::Green.rgb(),
        Swatch::Red.rgb(),
        Swatch::Blue.rgb(),
        Swatch::Amber.rgb(),
        Swatch::Purple.rgb(),
        Swatch::Brown.rgb(),
        Swatch::BlueGrey.rgb(),
    ];
    assert(res@ =~= player_palette());
    res
}

} // verus!
