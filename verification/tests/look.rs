use nih_plug_egui_test::color::{PaletteColor, Rgba};
use nih_plug_egui_test::resize::{Corner, ResizeCursor};
use nih_plug_egui_test::text::{decimal_len, decimal_string, zero_padded_string};
use nih_plug_egui_test::theme::theme;

#[test]
fn palette_values() {
    assert_eq!(PaletteColor::AppBg.rgba(), Rgba::from_rgb(10, 13, 18));
    assert_eq!(PaletteColor::InputBg.rgba(), Rgba::from_rgb(8, 11, 16));
    assert_eq!(PaletteColor::AccentOrange.rgba(), Rgba { r: 249, g: 137, b: 43, a: 255 });
    assert_eq!(Rgba::transparent(), Rgba { r: 0, g: 0, b: 0, a: 0 });
    assert_eq!(Rgba::white(), Rgba { r: 255, g: 255, b: 255, a: 255 });
}

#[test]
fn theme_values() {
    let t = theme();
    assert_eq!(t.item_spacing, (10, 8));
    assert_eq!(t.button_padding, (10, 7));
    assert_eq!(t.window_margin, 0);
    assert_eq!(t.slider_width, 180);
    assert_eq!(t.panel_fill, PaletteColor::AppBg.rgba());
    assert_eq!(t.selection_bg_fill, Rgba::from_rgb(18, 113, 140));
    assert_eq!(t.active.bg_fill, Rgba::from_rgb(23, 75, 92));
    assert_eq!(t.hovered.bg_stroke, PaletteColor::CardStrokeHover.rgba());
    assert_eq!((t.heading_size, t.body_size, t.button_size, t.small_size), (24, 14, 13, 11));
    assert_eq!(t.widget_corner_radius, 6);
    assert!(t.slider_trailing_fill && t.button_frame);
}

#[test]
fn corner_suffixes_and_cursors() {
    let all = Corner::all();
    let suffixes: Vec<&str> = all.iter().map(|c| c.id_suffix()).collect();
    assert_eq!(suffixes, vec!["top_left", "top_right", "bottom_left", "bottom_right"]);
    assert_eq!(Corner::TopLeft.cursor_icon(), ResizeCursor::NorthWest);
    assert_eq!(Corner::TopRight.cursor_icon(), ResizeCursor::NorthEast);
    assert_eq!(Corner::BottomLeft.cursor_icon(), ResizeCursor::SouthWest);
    assert_eq!(Corner::BottomRight.cursor_icon(), ResizeCursor::SouthEast);
}

#[test]
fn corner_geometry() {
    for c in Corner::all() {
        assert_eq!(c.drag_width_sign() == 1, c.anchored_right());
        assert_eq!(c.drag_height_sign() == 1, c.anchored_bottom());
    }
    // Dragging the bottom-right handle by (+10, +5) grows the window by (10, 5);
    // dragging the top-left handle by the same amount shrinks it.
    let start = (420i32, 220i32);
    let delta = (10i32, 5i32);
    let grow = (
        start.0 + Corner::BottomRight.drag_width_sign() as i32 * delta.0,
        start.1 + Corner::BottomRight.drag_height_sign() as i32 * delta.1,
    );
    assert_eq!(grow, (430, 225));
    let shrink = (
        start.0 + Corner::TopLeft.drag_width_sign() as i32 * delta.0,
        start.1 + Corner::TopLeft.drag_height_sign() as i32 * delta.1,
    );
    assert_eq!(shrink, (410, 215));
}

#[test]
fn decimal_formatting() {
    assert_eq!(decimal_string(0), "0");
    assert_eq!(decimal_string(7), "7");
    assert_eq!(decimal_string(10), "10");
    assert_eq!(decimal_string(4096), "4096");
    assert_eq!(decimal_string(usize::MAX), usize::MAX.to_string());
    assert_eq!(decimal_len(0), 1);
    assert_eq!(decimal_len(99), 2);
    assert_eq!(decimal_len(100), 3);
    assert_eq!(zero_padded_string(42, 4), "0042");
    assert_eq!(zero_padded_string(42, 0), "42");
    assert_eq!(zero_padded_string(123456, 4), "123456");
    for n in [0usize, 1, 9, 10, 99, 100, 999, 1000, 9999, 10000, 65535] {
        assert_eq!(zero_padded_string(n, 4), format!("{:04}", n));
        assert_eq!(decimal_string(n), format!("{}", n));
    }
}
