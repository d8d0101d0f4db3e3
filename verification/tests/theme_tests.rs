use mizu::settings::ThemeName;
use mizu::theme::{
    MizuTheme, Rgb, StyleSpec, MIZU_ABYSS, MIZU_ACCENT, MIZU_BLUE, MIZU_CYAN, MIZU_DEEP, MIZU_DIM,
    MIZU_FOAM, MIZU_RIPPLE, MIZU_SURF, MIZU_TEAL, MIZU_WARM, MIZU_WAVE,
};

#[test]
fn all_themes_build() {
    for name in [ThemeName::Mizu, ThemeName::Abyss, ThemeName::Coral] {
        let t = MizuTheme::from_name(name);
        assert_eq!(t.name, name);
    }
}

#[test]
fn palettes_hold_the_documented_colours() {
    let mizu = MizuTheme::from_name(ThemeName::Mizu).palette;
    assert_eq!(mizu.abyss, Rgb { r: 2, g: 8, b: 26 });
    assert_eq!(mizu.deep, Rgb { r: 4, g: 16, b: 42 });
    assert_eq!(mizu.warm, Rgb { r: 255, g: 160, b: 100 });
    let abyss = MizuTheme::from_name(ThemeName::Abyss).palette;
    assert_eq!(abyss.abyss, Rgb { r: 1, g: 3, b: 12 });
    let coral = MizuTheme::from_name(ThemeName::Coral).palette;
    assert_eq!(coral.foam, Rgb { r: 255, g: 224, b: 220 });
}

#[test]
fn size_grades_differ_in_every_theme() {
    for name in [ThemeName::Mizu, ThemeName::Abyss, ThemeName::Coral] {
        let p = MizuTheme::from_name(name).palette;
        assert_ne!(p.surf, p.accent);
        assert_ne!(p.accent, p.warm);
        assert_ne!(p.surf, p.warm);
    }
}

#[test]
fn panel_styles_use_their_palette_roles() {
    let t = MizuTheme::from_name(ThemeName::Coral);
    let p = t.palette;
    assert_eq!(
        t.panel_title(),
        StyleSpec { fg: Some(p.surf), bg: None, bold: true }
    );
    assert_eq!(
        t.border(),
        StyleSpec { fg: Some(p.ripple), bg: None, bold: false }
    );
    assert_eq!(
        t.panel_bg(),
        StyleSpec { fg: None, bg: Some(p.abyss), bold: false }
    );
    assert_eq!(
        t.label_style(),
        StyleSpec { fg: Some(p.foam), bg: None, bold: true }
    );
}

#[test]
fn mizu_constants_are_the_mizu_palette() {
    let p = MizuTheme::from_name(ThemeName::Mizu).palette;
    assert_eq!(Rgb::from_hex(MIZU_ABYSS), Rgb { r: 2, g: 8, b: 26 });
    assert_eq!(MIZU_ABYSS, 0x02081A);
    assert_eq!(MIZU_DEEP, 0x04102A);
    assert_eq!(Rgb::from_hex(MIZU_ABYSS), p.abyss);
    assert_eq!(Rgb::from_hex(MIZU_DEEP), p.deep);
    assert_eq!(Rgb::from_hex(MIZU_WAVE), p.wave);
    assert_eq!(Rgb::from_hex(MIZU_RIPPLE), p.ripple);
    assert_eq!(Rgb::from_hex(MIZU_BLUE), p.blue);
    assert_eq!(Rgb::from_hex(MIZU_TEAL), p.teal);
    assert_eq!(Rgb::from_hex(MIZU_CYAN), p.cyan);
    assert_eq!(Rgb::from_hex(MIZU_FOAM), p.foam);
    assert_eq!(Rgb::from_hex(MIZU_SURF), p.surf);
    assert_eq!(Rgb::from_hex(MIZU_ACCENT), p.accent);
    assert_eq!(Rgb::from_hex(MIZU_WARM), p.warm);
    assert_eq!(Rgb::from_hex(MIZU_DIM), p.dim);
    assert_eq!(Rgb::from_hex(0xff12_3456), Rgb { r: 0x12, g: 0x34, b: 0x56 });
}
