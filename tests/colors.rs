use colors::color::Color;
use colors::palette::{player_colors, Swatch};
use colors::style::Style;

fn rgb(r: u8, g: u8, b: u8) -> Color {
    Color { r, g, b }
}

#[test]
fn inv_twice_gives_the_color_back() {
    for &(r, g, b) in &[(0, 0, 0), (255, 255, 255), (1, 2, 3), (211, 47, 47), (128, 127, 16)] {
        let c = rgb(r, g, b);
        assert_eq!(c.inv().inv(), c);
    }
}

#[test]
fn inv_complements_each_channel() {
    assert_eq!(rgb(0, 128, 255).inv(), rgb(255, 127, 0));
    assert_eq!(Swatch::Red.rgb().inv(), rgb(44, 208, 208));
}

#[test]
fn mono_is_always_black_or_white() {
    let white = Swatch::White.rgb();
    let black = Swatch::Black.rgb();
    for r in (0..=255u16).step_by(17) {
        for g in (0..=255u16).step_by(15) {
            for b in (0..=255u16).step_by(5) {
                let m = rgb(r as u8, g as u8, b as u8).mono();
                assert!(m == white || m == black);
            }
        }
    }
}

#[test]
fn mono_of_black_and_white() {
    assert_eq!(rgb(0, 0, 0).mono(), Swatch::Black.rgb());
    assert_eq!(rgb(255, 255, 255).mono(), Swatch::White.rgb());
}

#[test]
fn mono_threshold_is_inclusive_on_white() {
    // 85 + 42 + 0 == 127
    assert_eq!(rgb(255, 126, 0).mono(), Swatch::Black.rgb());
    // 85 + 43 + 0 == 128
    assert_eq!(rgb(255, 129, 0).mono(), Swatch::White.rgb());
}

#[test]
fn mono_truncates_each_channel_before_the_sum() {
    // (128 + 128 + 128) / 3 == 128, but 42 * 3 == 126
    assert_eq!(rgb(128, 128, 128).mono(), Swatch::Black.rgb());
    assert_eq!(rgb(129, 129, 129).mono(), Swatch::White.rgb());
}

#[test]
fn hex_does_not_pad() {
    assert_eq!(rgb(255, 0, 0).hex(), "ff00");
    assert_eq!(rgb(1, 2, 3).hex(), "123");
    assert_eq!(rgb(1, 2, 3).hex().len(), 3);
    assert_eq!(rgb(16, 15, 171).hex(), "10fab");
    assert_eq!(Swatch::Green.rgb().hex(), "388e3c");
}

#[test]
fn to_string_adds_a_hash() {
    assert_eq!(rgb(255, 255, 255).to_string(), "#ffffff");
    assert_eq!(rgb(0, 10, 200).to_string(), "#0ac8");
}

#[test]
fn default_style_ansi() {
    assert_eq!(Style::default().ansi(), "\x1b[0;38;2;0;0;0;48;2;255;255;255m");
}

#[test]
fn bold_style_ansi() {
    let s = Style { fg: rgb(211, 47, 7), bg: rgb(0, 10, 100), bold: true };
    assert_eq!(s.ansi(), "\x1b[1;38;2;211;47;7;48;2;0;10;100m");
}

#[test]
fn default_style_is_black_on_white() {
    let s = Style::default();
    assert_eq!(s.fg, Swatch::Black.rgb());
    assert_eq!(s.bg, Swatch::White.rgb());
    assert!(!s.bold);
}

#[test]
fn bold_style_html() {
    let s = Style { fg: rgb(255, 0, 0), bg: rgb(0, 0, 255), bold: true };
    assert_eq!(s.html_style(), "font-weight:bold;color:ff00;background-color:00ff;");
}

#[test]
fn default_style_html() {
    assert_eq!(
        Style::default().html_style(),
        "font-weight:normal;color:000;background-color:ffffff;"
    );
}

#[test]
fn player_colors_order() {
    let p = player_colors();
    assert_eq!(p.len(), 7);
    assert_eq!(p[0], Swatch::Green.rgb());
    assert_eq!(p[1], Swatch::Red.rgb());
    assert_eq!(
        p,
        vec![
            Swatch::Green.rgb(),
            Swatch::Red.rgb(),
            Swatch::Blue.rgb(),
            Swatch::Amber.rgb(),
            Swatch::Purple.rgb(),
            Swatch::Brown.rgb(),
            Swatch::BlueGrey.rgb(),
        ]
    );
}

#[test]
fn palette_values() {
    assert_eq!(Swatch::Red.rgb(), rgb(211, 47, 47));
    assert_eq!(Swatch::LightBlue.rgb(), rgb(2, 136, 209));
    assert_eq!(Swatch::Amber.rgb(), rgb(255, 160, 0));
    assert_eq!(Swatch::BlueGrey.rgb(), rgb(69, 90, 100));
    assert_eq!(Swatch::White.rgb(), rgb(255, 255, 255));
    assert_eq!(Swatch::Black.rgb(), rgb(0, 0, 0));
}
