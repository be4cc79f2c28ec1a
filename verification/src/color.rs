use vstd::prelude::*;

verus! {

/// An sRGB colour with alpha, in the byte layout that egui's `Color32` uses.
#[derive(Clone, Copy, Debug, PartialEq, Eq, Structural)]
pub struct Rgba {
    pub r: u8,
    pub g: u8,
    pub b: u8,
    pub a: u8,
}

/// The opaque colour with the given channels.
pub open spec fn rgb(r: u8, g: u8, b: u8) -> Rgba {
    Rgba { r, g, b, a: 255 }
}

impl Rgba {
    /// An opaque colour, as `Color32::from_rgb` builds it.
    pub fn from_rgb(r: u8, g: u8, b: u8) -> (c: Rgba)
        ensures
            c == rgb(r, g, b),
    {
        Rgba { r, g, b, a: 255 }
    }

    /// Fully transparent black.
    pub fn transparent() -> (c: Rgba)
        ensures
            c == (Rgba { r: 0, g: 0, b: 0, a: 0 }),
    {
        Rgba { r: 0, g: 0, b: 0, a: 0 }
    }

    /// Opaque white.
    pub fn white() -> (c: Rgba)
        ensures
            c == rgb(255, 255, 255),
    {
        Rgba::from_rgb(255, 255, 255)
    }
}

/// The named colours of the editor's dark palette.
#[derive(Clone, Copy, Debug, PartialEq, Eq, Structural)]
pub enum PaletteColor {
    AppBg,
    PanelBg,
    CardBg,
    CardBgAlt,
    CardStroke,
    CardStrokeHover,
    Text,
    Muted,
    Subtle,
    Accent,
    AccentGreen,
    AccentOrange,
    ButtonBg,
    ButtonHover,
    InputBg,
}

impl PaletteColor {
    /// The colour that each palette entry stands for.
    pub open spec fn value(self) -> Rgba {
        match self {
            PaletteColor::AppBg => rgb(10, 13, 18),
            PaletteColor::PanelBg => rgb(14, 18, 25),
            PaletteColor::CardBg => rgb(18, 23, 31),
            PaletteColor::CardBgAlt => rgb(21, 28, 38),
            PaletteColor::CardStroke => rgb(43, 54, 70),
            PaletteColor::CardStrokeHover => rgb(62, 83, 112),
            PaletteColor::Text => rgb(232, 238, 246),
            PaletteColor::Muted => rgb(145, 156, 174),
            PaletteColor::Subtle => rgb(94, 106, 126),
            PaletteColor::Accent => rgb(36, 211, 238),
            PaletteColor::AccentGreen => rgb(151, 230, 72),
            PaletteColor::AccentOrange => rgb(249, 137, 43),
            PaletteColor::ButtonBg => rgb(30, 39, 53),
            PaletteColor::ButtonHover => rgb(39, 52, 72),
            PaletteColor::InputBg => rgb(8, 11, 16),
        }
    }

    /// The colour of this palette entry.
    pub fn rgba(self) -> (c: Rgba)
        ensures
            c == self.value(),
            c.a == 255,
    {
        match self {
            PaletteColor::AppBg => Rgba::from_rgb(10, 13, 18),
            PaletteColor::PanelBg => Rgba::from_rgb(14, 18, 25),
            PaletteColor::CardBg => Rgba::from_rgb(18, 23, 31),
            PaletteColor::CardBgAlt => Rgba::from_rgb(21, 28, 38),
            PaletteColor::CardStroke => Rgba::from_rgb(43, 54, 70),
            PaletteColor::CardStrokeHover => Rgba::from_rgb(62, 83, 112),
            PaletteColor::Text => Rgba::from_rgb(232, 238, 246),
            PaletteColor::Muted => Rgba::from_rgb(145, 156, 174),
            PaletteColor::Subtle => Rgba::from_rgb(94, 106, 126),
            PaletteColor::Accent => Rgba::from_rgb(36, 211, 238),
            PaletteColor::AccentGreen => Rgba::from_rgb(151, 230, 72),
            PaletteColor::AccentOrange => Rgba::from_rgb(249, 137, 43),
            PaletteColor::ButtonBg => Rgba::from_rgb(30, 39, 53),
            PaletteColor::ButtonHover => Rgba::from_rgb(39, 52, 72),
            PaletteColor::InputBg => Rgba::from_rgb(8, 11, 16),
        }
    }
}


/// Every palette entry is the opaque colour with these channels.
pub proof fn lemma_palette_channels()
    ensures
        PaletteColor::AppBg.value() == (Rgba { r: 10, g: 13, b: 18, a: 255 }),
        PaletteColor::PanelBg.value() == (Rgba { r: 14, g: 18, b: 25, a: 255 }),
        PaletteColor::CardBg.value() == (Rgba { r: 18, g: 23, b: 31, a: 255 }),
        PaletteColor::CardBgAlt.value() == (Rgba { r: 21, g: 28, b: 38, a: 255 }),
        PaletteColor::CardStroke.value() == (Rgba { r: 43, g: 54, b: 70, a: 255 }),
        PaletteColor::CardStrokeHover.value() == (Rgba { r: 62, g: 83, b: 112, a: 255 }),
        PaletteColor::Text.value() == (Rgba { r: 232, g: 238, b: 246, a: 255 }),
        PaletteColor::Muted.value() == (Rgba { r: 145, g: 156, b: 174, a: 255 }),
        PaletteColor::Subtle.value() == (Rgba { r: 94, g: 106, b: 126, a: 255 }),
        PaletteColor::Accent.value() == (Rgba { r: 36, g: 211, b: 238, a: 255 }),
        PaletteColor::AccentGreen.value() == (Rgba { r: 151, g: 230, b: 72, a: 255 }),
        PaletteColor::AccentOrange.value() == (Rgba { r: 249, g: 137, b: 43, a: 255 }),
        PaletteColor::ButtonBg.value() == (Rgba { r: 30, g: 39, b: 53, a: 255 }),
        PaletteColor::ButtonHover.value() == (Rgba { r: 39, g: 52, b: 72, a: 255 }),
        PaletteColor::InputBg.value() == (Rgba { r: 8, g: 11, b: 16, a: 255 }),
{
}

/// The palette entries are opaque and pairwise different colours: no entry is drawn
/// in another entry's colour.
pub proof fn lemma_palette_distinct(a: PaletteColor, b: PaletteColor)
    ensures
        a.value().a == 255,
        a.value() == b.value() <==> a == b,
{
}

/// `from_rgb` keeps the three channels and makes the colour opaque; white and
/// transparent are the extreme colours.
pub proof fn lemma_rgb_channels(r: u8, g: u8, b: u8)
    ensures
        rgb(r, g, b).r == r,
        rgb(r, g, b).g == g,
        rgb(r, g, b).b == b,
        rgb(r, g, b).a == 255,
{
}

} // verus!
