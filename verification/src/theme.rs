//! Colour themes: one palette of twelve colours per theme.

use vstd::prelude::*;

use crate::settings::ThemeName;

verus! {

/// A 24-bit colour.
#[derive(Debug, Clone, Copy, PartialEq, Eq, Structural)]
pub struct Rgb {
    pub r: u8,
    pub g: u8,
    pub b: u8,
}

// The mizu palette as 24-bit `0xRRGGBB` values; `Rgb::from_hex` turns them
// into colours.

/// Mizu palette: the page background.
pub const MIZU_ABYSS: u32 = 0x02081a;
/// Mizu palette: the flow panel background.
pub const MIZU_DEEP: u32 = 0x04102a;
/// Mizu palette: write and transmit graphs.
pub const MIZU_WAVE: u32 = 0x103468;
/// Mizu palette: borders and muted text.
pub const MIZU_RIPPLE: u32 = 0x1c488c;
/// Mizu palette: the flow panel border.
pub const MIZU_BLUE: u32 = 0x2666b8;
/// Mizu palette: low gauge readings.
pub const MIZU_TEAL: u32 = 0x40c4c4;
/// Mizu palette: highlights and middle gauge readings.
pub const MIZU_CYAN: u32 = 0x78dce8;
/// Mizu palette: labels and the animation.
pub const MIZU_FOAM: u32 = 0xdcf4ff;
/// Mizu palette: panel titles and small disk usage.
pub const MIZU_SURF: u32 = 0x50d2b4;
/// Mizu palette: moderate disk usage.
pub const MIZU_ACCENT: u32 = 0xa0f0c8;
/// Mizu palette: high readings.
pub const MIZU_WARM: u32 = 0xffa064;
/// Mizu palette: core labels and the paused message.
pub const MIZU_DIM: u32 = 0x6084a8;

/// The colour written `0xRRGGBB` as `hex`.
pub open spec fn spec_from_hex(hex: u32) -> Rgb {
    Rgb { r: (hex / 65536 % 256) as u8, g: (hex / 256 % 256) as u8, b: (hex % 256) as u8 }
}

impl Rgb {
    /// The colour written `0xRRGGBB`; bits above the lowest 24 are ignored.
    pub fn from_hex(hex: u32) -> (c: Rgb)
        ensures
            c == spec_from_hex(hex),
    {
        Rgb { r: (hex / 65536 % 256) as u8, g: (hex / 256 % 256) as u8, b: (hex % 256) as u8 }
    }
}

/// The colours a theme gives each role on screen.
#[derive(Debug, Clone, Copy, PartialEq, Eq, Structural)]
pub struct Palette {
    pub abyss: Rgb,
    pub deep: Rgb,
    pub ripple: Rgb,
    pub wave: Rgb,
    pub blue: Rgb,
    pub surf: Rgb,
    pub teal: Rgb,
    pub cyan: Rgb,
    pub foam: Rgb,
    pub accent: Rgb,
    pub warm: Rgb,
    pub dim: Rgb,
}

/// A theme: its name and its palette.
#[derive(Debug, Clone, Copy, PartialEq, Eq, Structural)]
pub struct MizuTheme {
    pub name: ThemeName,
    pub palette: Palette,
}

pub open spec fn rgb(r: u8, g: u8, b: u8) -> Rgb {
    Rgb { r, g, b }
}

/// The palette of each theme: deep water, near-black, warm reds.
pub open spec fn spec_palette(name: ThemeName) -> Palette {
    match name {
        ThemeName::Mizu => Palette {
            abyss: rgb(2, 8, 26),
            deep: rgb(4, 16, 42),
            ripple: rgb(28, 72, 140),
            wave: rgb(16, 52, 104),
            blue: rgb(38, 102, 184),
            surf: rgb(80, 210, 180),
            teal: rgb(64, 196, 196),
            cyan: rgb(120, 220, 232),
            foam: rgb(220, 244, 255),
            accent: rgb(160, 240, 200),
            warm: rgb(255, 160, 100),
            dim: rgb(96, 132, 168),
        },
        ThemeName::Abyss => Palette {
            abyss: rgb(1, 3, 12),
            deep: rgb(2, 6, 20),
            ripple: rgb(14, 38, 78),
            wave: rgb(8, 26, 56),
            blue: rgb(26, 70, 140),
            surf: rgb(40, 150, 130),
            teal: rgb(36, 150, 150),
            cyan: rgb(80, 170, 200),
            foam: rgb(180, 210, 240),
            accent: rgb(120, 200, 170),
            warm: rgb(200, 120, 80),
            dim: rgb(58, 90, 120),
        },
        ThemeName::Coral => Palette {
            abyss: rgb(20, 6, 12),
            deep: rgb(34, 10, 18),
            ripple: rgb(90, 30, 44),
            wave: rgb(120, 36, 52),
            blue: rgb(150, 60, 70),
            surf: rgb(210, 110, 120),
            teal: rgb(180, 90, 100),
            cyan: rgb(240, 160, 160),
            foam: rgb(255, 224, 220),
            accent: rgb(255, 200, 140),
            warm: rgb(255, 130, 90),
            dim: rgb(140, 80, 92),
        },
    }
}

/// The theme of a given name.
pub open spec fn spec_theme(name: ThemeName) -> MizuTheme {
    MizuTheme { name, palette: spec_palette(name) }
}

impl MizuTheme {
    /// The theme of the given name, with its palette.
    pub fn from_name(name: ThemeName) -> (t: MizuTheme)
        ensures
            t == spec_theme(name),
    {
        let palette = match name {
            ThemeName::Mizu => Palette {
                abyss: Rgb::from_hex(MIZU_ABYSS),
                deep: Rgb::from_hex(MIZU_DEEP),
                ripple: Rgb::from_hex(MIZU_RIPPLE),
                wave: Rgb::from_hex(MIZU_WAVE),
                blue: Rgb::from_hex(MIZU_BLUE),
                surf: Rgb::from_hex(MIZU_SURF),
                teal: Rgb::from_hex(MIZU_TEAL),
                cyan: Rgb::from_hex(MIZU_CYAN),
                foam: Rgb::from_hex(MIZU_FOAM),
                accent: Rgb::from_hex(MIZU_ACCENT),
                warm: Rgb::from_hex(MIZU_WARM),
                dim: Rgb::from_hex(MIZU_DIM),
            },
            ThemeName::Abyss => Palette {
                abyss: Rgb { r: 1, g: 3, b: 12 },
                deep: Rgb { r: 2, g: 6, b: 20 },
                ripple: Rgb { r: 14, g: 38, b: 78 },
                wave: Rgb { r: 8, g: 26, b: 56 },
                blue: Rgb { r: 26, g: 70, b: 140 },
                surf: Rgb { r: 40, g: 150, b: 130 },
                teal: Rgb { r: 36, g: 150, b: 150 },
                cyan: Rgb { r: 80, g: 170, b: 200 },
                foam: Rgb { r: 180, g: 210, b: 240 },
                accent: Rgb { r: 120, g: 200, b: 170 },
                warm: Rgb { r: 200, g: 120, b: 80 },
                dim: Rgb { r: 58, g: 90, b: 120 },
            },
            ThemeName::Coral => Palette {
                abyss: Rgb { r: 20, g: 6, b: 12 },
                deep: Rgb { r: 34, g: 10, b: 18 },
                ripple: Rgb { r: 90, g: 30, b: 44 },
                wave: Rgb { r: 120, g: 36, b: 52 },
                blue: Rgb { r: 150, g: 60, b: 70 },
                surf: Rgb { r: 210, g: 110, b: 120 },
                teal: Rgb { r: 180, g: 90, b: 100 },
                cyan: Rgb { r: 240, g: 160, b: 160 },
                foam: Rgb { r: 255, g: 224, b: 220 },
                accent: Rgb { r: 255, g: 200, b: 140 },
                warm: Rgb { r: 255, g: 130, b: 90 },
                dim: Rgb { r: 140, g: 80, b: 92 },
            },
        };
        MizuTheme { name, palette }
    }
}

/// How a piece of text is drawn: foreground and background colour, if set,
/// and whether it is bold.
#[derive(Debug, Clone, Copy, PartialEq, Eq, Structural)]
pub struct StyleSpec {
    pub fg: Option<Rgb>,
    pub bg: Option<Rgb>,
    pub bold: bool,
}

impl MizuTheme {
    /// Panel titles: bold, in the surf colour.
    pub fn panel_title(&self) -> (s: StyleSpec)
        ensures
            s == (StyleSpec { fg: Some(self.palette.surf), bg: None, bold: true }),
    {
        StyleSpec { fg: Some(self.palette.surf), bg: None, bold: true }
    }

    /// Panel borders, in the ripple colour.
    pub fn border(&self) -> (s: StyleSpec)
        ensures
            s == (StyleSpec { fg: Some(self.palette.ripple), bg: None, bold: false }),
    {
        StyleSpec { fg: Some(self.palette.ripple), bg: None, bold: false }
    }

    /// Panel backgrounds, in the abyss colour.
    pub fn panel_bg(&self) -> (s: StyleSpec)
        ensures
            s == (StyleSpec { fg: None, bg: Some(self.palette.abyss), bold: false }),
    {
        StyleSpec { fg: None, bg: Some(self.palette.abyss), bold: false }
    }

    /// Gauge labels: bold, in the foam colour.
    pub fn label_style(&self) -> (s: StyleSpec)
        ensures
            s == (StyleSpec { fg: Some(self.palette.foam), bg: None, bold: true }),
    {
        StyleSpec { fg: Some(self.palette.foam), bg: None, bold: true }
    }
}

/// Within every theme, the three colours that grade disk usage (surf for
/// little, accent for some, warm for much) are distinct.
pub proof fn lemma_size_grades_distinct(name: ThemeName)
    ensures
        spec_palette(name).surf != spec_palette(name).accent,
        spec_palette(name).accent != spec_palette(name).warm,
        spec_palette(name).surf != spec_palette(name).warm,
{
}

/// The mizu theme's colours, role by role: each palette entry is the colour
/// listed for that role.
pub proof fn lemma_mizu_palette_colours()
    ensures
        spec_theme(ThemeName::Mizu).palette.abyss == (Rgb { r: 2, g: 8, b: 26 }),
        spec_theme(ThemeName::Mizu).palette.deep == (Rgb { r: 4, g: 16, b: 42 }),
        spec_theme(ThemeName::Mizu).palette.ripple == (Rgb { r: 28, g: 72, b: 140 }),
        spec_theme(ThemeName::Mizu).palette.wave == (Rgb { r: 16, g: 52, b: 104 }),
        spec_theme(ThemeName::Mizu).palette.blue == (Rgb { r: 38, g: 102, b: 184 }),
        spec_theme(ThemeName::Mizu).palette.surf == (Rgb { r: 80, g: 210, b: 180 }),
        spec_theme(ThemeName::Mizu).palette.teal == (Rgb { r: 64, g: 196, b: 196 }),
        spec_theme(ThemeName::Mizu).palette.cyan == (Rgb { r: 120, g: 220, b: 232 }),
        spec_theme(ThemeName::Mizu).palette.foam == (Rgb { r: 220, g: 244, b: 255 }),
        spec_theme(ThemeName::Mizu).palette.accent == (Rgb { r: 160, g: 240, b: 200 }),
        spec_theme(ThemeName::Mizu).palette.warm == (Rgb { r: 255, g: 160, b: 100 }),
        spec_theme(ThemeName::Mizu).palette.dim == (Rgb { r: 96, g: 132, b: 168 }),
        spec_theme(ThemeName::Mizu).name == ThemeName::Mizu,
{
}

/// The abyss theme's colours, role by role: each palette entry is the colour
/// listed for that role.
pub proof fn lemma_abyss_palette_colours()
    ensures
        spec_theme(ThemeName::Abyss).palette.abyss == (Rgb { r: 1, g: 3, b: 12 }),
        spec_theme(ThemeName::Abyss).palette.deep == (Rgb { r: 2, g: 6, b: 20 }),
        spec_theme(ThemeName::Abyss).palette.ripple == (Rgb { r: 14, g: 38, b: 78 }),
        spec_theme(ThemeName::Abyss).palette.wave == (Rgb { r: 8, g: 26, b: 56 }),
        spec_theme(ThemeName::Abyss).palette.blue == (Rgb { r: 26, g: 70, b: 140 }),
        spec_theme(ThemeName::Abyss).palette.surf == (Rgb { r: 40, g: 150, b: 130 }),
        spec_theme(ThemeName::Abyss).palette.teal == (Rgb { r: 36, g: 150, b: 150 }),
        spec_theme(ThemeName::Abyss).palette.cyan == (Rgb { r: 80, g: 170, b: 200 }),
        spec_theme(ThemeName::Abyss).palette.foam == (Rgb { r: 180, g: 210, b: 240 }),
        spec_theme(ThemeName::Abyss).palette.accent == (Rgb { r: 120, g: 200, b: 170 }),
        spec_theme(ThemeName::Abyss).palette.warm == (Rgb { r: 200, g: 120, b: 80 }),
        spec_theme(ThemeName::Abyss).palette.dim == (Rgb { r: 58, g: 90, b: 120 }),
        spec_theme(ThemeName::Abyss).name == ThemeName::Abyss,
{
}

/// The coral theme's colours, role by role: each palette entry is the colour
/// listed for that role.
pub proof fn lemma_coral_palette_colours()
    ensures
        spec_theme(ThemeName::Coral).palette.abyss == (Rgb { r: 20, g: 6, b: 12 }),
        spec_theme(ThemeName::Coral).palette.deep == (Rgb { r: 34, g: 10, b: 18 }),
        spec_theme(ThemeName::Coral).palette.ripple == (Rgb { r: 90, g: 30, b: 44 }),
        spec_theme(ThemeName::Coral).palette.wave == (Rgb { r: 120, g: 36, b: 52 }),
        spec_theme(ThemeName::Coral).palette.blue == (Rgb { r: 150, g: 60, b: 70 }),
        spec_theme(ThemeName::Coral).palette.surf == (Rgb { r: 210, g: 110, b: 120 }),
        spec_theme(ThemeName::Coral).palette.teal == (Rgb { r: 180, g: 90, b: 100 }),
        spec_theme(ThemeName::Coral).palette.cyan == (Rgb { r: 240, g: 160, b: 160 }),
        spec_theme(ThemeName::Coral).palette.foam == (Rgb { r: 255, g: 224, b: 220 }),
        spec_theme(ThemeName::Coral).palette.accent == (Rgb { r: 255, g: 200, b: 140 }),
        spec_theme(ThemeName::Coral).palette.warm == (Rgb { r: 255, g: 130, b: 90 }),
        spec_theme(ThemeName::Coral).palette.dim == (Rgb { r: 140, g: 80, b: 92 }),
        spec_theme(ThemeName::Coral).name == ThemeName::Coral,
{
}

} // verus!
