use vstd::prelude::*;

use crate::color::{rgb, PaletteColor, Rgba};

verus! {

/// The fill and outline of one interaction state of the widgets.
pub struct WidgetColors {
    pub bg_fill: Rgba,
    pub bg_stroke: Rgba,
}

/// The editor's dark theme, as plain values: spacings and radii in points, colours,
/// and the text sizes of the four text styles. Every outline is one point wide.
pub struct Theme {
    pub item_spacing: (u8, u8),
    pub button_padding: (u8, u8),
    pub window_margin: u8,
    pub slider_width: u16,
    pub panel_fill: Rgba,
    pub extreme_bg_color: Rgba,
    pub faint_bg_color: Rgba,
    pub window_fill: Rgba,
    pub window_corner_radius: u8,
    pub menu_corner_radius: u8,
    pub selection_bg_fill: Rgba,
    pub selection_stroke: Rgba,
    pub hyperlink_color: Rgba,
    pub slider_trailing_fill: bool,
    pub button_frame: bool,
    pub stroke_width: u8,
    pub widget_corner_radius: u8,
    pub widget_fg_stroke: Rgba,
    pub noninteractive: WidgetColors,
    pub inactive: WidgetColors,
    pub hovered: WidgetColors,
    pub active: WidgetColors,
    pub heading_size: u8,
    pub body_size: u8,
    pub button_size: u8,
    pub small_size: u8,
}

/// The values of the editor's theme.
pub open spec fn theme_values() -> Theme {
    Theme {
        item_spacing: (10, 8),
        button_padding: (10, 7),
        window_margin: 0,
        slider_width: 180,
        panel_fill: PaletteColor::AppBg.value(),
        extreme_bg_color: PaletteColor::InputBg.value(),
        faint_bg_color: PaletteColor::CardBgAlt.value(),
        window_fill: PaletteColor::PanelBg.value(),
        window_corner_radius: 8,
        menu_corner_radius: 8,
        selection_bg_fill: rgb(18, 113, 140),
        selection_stroke: PaletteColor::Accent.value(),
        hyperlink_color: PaletteColor::Accent.value(),
        slider_trailing_fill: true,
        button_frame: true,
        stroke_width: 1,
        widget_corner_radius: 6,
        widget_fg_stroke: PaletteColor::Text.value(),
        noninteractive: WidgetColors {
            bg_fill: PaletteColor::CardBg.value(),
            bg_stroke: PaletteColor::CardStroke.value(),
        },
        inactive: WidgetColors {
            bg_fill: PaletteColor::ButtonBg.value(),
            bg_stroke: PaletteColor::CardStroke.value(),
        },
        hovered: WidgetColors {
            bg_fill: PaletteColor::ButtonHover.value(),
            bg_stroke: PaletteColor::CardStrokeHover.value(),
        },
        active: WidgetColors {
            bg_fill: rgb(23, 75, 92),
            bg_stroke: PaletteColor::Accent.value(),
        },
        heading_size: 24,
        body_size: 14,
        button_size: 13,
        small_size: 11,
    }
}

/// The editor's theme, which the editor installs in its egui context.
pub fn theme() -> (t: Theme)
    ensures
        t == theme_values(),
{
    Theme {
        item_spacing: (10, 8),
        button_padding: (10, 7),
        window_margin: 0,
        slider_width: 180,
        panel_fill: PaletteColor::AppBg.rgba(),
        extreme_bg_color: PaletteColor::InputBg.rgba(),
        faint_bg_color: PaletteColor::CardBgAlt.rgba(),
        window_fill: PaletteColor::PanelBg.rgba(),
        window_corner_radius: 8,
        menu_corner_radius: 8,
        selection_bg_fill: Rgba::from_rgb(18, 113, 140),
        selection_stroke: PaletteColor::Accent.rgba(),
        hyperlink_color: PaletteColor::Accent.rgba(),
        slider_trailing_fill: true,
        button_frame: true,
        stroke_width: 1,
        widget_corner_radius: 6,
        widget_fg_stroke: PaletteColor::Text.rgba(),
        noninteractive: WidgetColors {
            bg_fill: PaletteColor::CardBg.rgba(),
            bg_stroke: PaletteColor::CardStroke.rgba(),
        },
        inactive: WidgetColors {
            bg_fill: PaletteColor::ButtonBg.rgba(),
            bg_stroke: PaletteColor::CardStroke.rgba(),
        },
        hovered: WidgetColors {
            bg_fill: PaletteColor::ButtonHover.rgba(),
            bg_stroke: PaletteColor::CardStrokeHover.rgba(),
        },
        active: WidgetColors {
            bg_fill: Rgba::from_rgb(23, 75, 92),
            bg_stroke: PaletteColor::Accent.rgba(),
        },
        heading_size: 24,
        body_size: 14,
        button_size: 13,
        small_size: 11,
    }
}


/// The theme's values, channel by channel: idle, hovered and pressed widgets each
/// have their own fill, and every value is the one the editor draws with.
pub proof fn lemma_theme_literals()
    ensures
        ({
            let t = theme_values();
            &&& t.item_spacing == (10u8, 8u8)
            &&& t.button_padding == (10u8, 7u8)
            &&& t.window_margin == 0
            &&& t.slider_width == 180
            &&& t.panel_fill == (Rgba { r: 10, g: 13, b: 18, a: 255 })
            &&& t.extreme_bg_color == (Rgba { r: 8, g: 11, b: 16, a: 255 })
            &&& t.faint_bg_color == (Rgba { r: 21, g: 28, b: 38, a: 255 })
            &&& t.window_fill == (Rgba { r: 14, g: 18, b: 25, a: 255 })
            &&& t.window_corner_radius == 8
            &&& t.menu_corner_radius == 8
            &&& t.selection_bg_fill == (Rgba { r: 18, g: 113, b: 140, a: 255 })
            &&& t.selection_stroke == (Rgba { r: 36, g: 211, b: 238, a: 255 })
            &&& t.hyperlink_color == (Rgba { r: 36, g: 211, b: 238, a: 255 })
            &&& t.slider_trailing_fill
            &&& t.button_frame
            &&& t.stroke_width == 1
            &&& t.widget_corner_radius == 6
            &&& t.widget_fg_stroke == (Rgba { r: 232, g: 238, b: 246, a: 255 })
            &&& t.noninteractive.bg_fill == (Rgba { r: 18, g: 23, b: 31, a: 255 })
            &&& t.noninteractive.bg_stroke == (Rgba { r: 43, g: 54, b: 70, a: 255 })
            &&& t.inactive.bg_fill == (Rgba { r: 30, g: 39, b: 53, a: 255 })
            &&& t.inactive.bg_stroke == (Rgba { r: 43, g: 54, b: 70, a: 255 })
            &&& t.hovered.bg_fill == (Rgba { r: 39, g: 52, b: 72, a: 255 })
            &&& t.hovered.bg_stroke == (Rgba { r: 62, g: 83, b: 112, a: 255 })
            &&& t.active.bg_fill == (Rgba { r: 23, g: 75, b: 92, a: 255 })
            &&& t.active.bg_stroke == (Rgba { r: 36, g: 211, b: 238, a: 255 })
            &&& t.heading_size == 24
            &&& t.body_size == 14
            &&& t.button_size == 13
            &&& t.small_size == 11
            &&& t.inactive.bg_fill != t.hovered.bg_fill
            &&& t.hovered.bg_fill != t.active.bg_fill
            &&& t.inactive.bg_fill != t.active.bg_fill
            &&& t.hovered.bg_stroke != t.inactive.bg_stroke
        }),
{
}

} // verus!
