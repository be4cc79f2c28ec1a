use nih_plug_egui_test::color::{PaletteColor, Rgba};
use nih_plug_egui_test::widgets::{
    animation_bar_color, hover_pad_look, meter_steps, ActionButton, Card, LazyRow, Pill, StatusRow,
    ANIMATION_BAR_COUNT, DEFAULT_BUTTON_CORNER_RADIUS, DEFAULT_BUTTON_MIN_HEIGHT,
    DEFAULT_BUTTON_MIN_WIDTH, DEFAULT_METER_STEPS,
};

#[test]
fn card_keeps_title() {
    let card = Card::new("Transport");
    assert_eq!(card.title(), "Transport");
}

#[test]
fn pill_keeps_fields() {
    let accent = PaletteColor::AccentGreen.rgba();
    let pill = Pill::new("CPU".to_string(), "12%".to_string(), accent);
    assert_eq!(pill.label(), "CPU");
    assert_eq!(pill.value(), "12%");
    assert_eq!(pill.accent(), Rgba::from_rgb(151, 230, 72));
}

#[test]
fn status_row_keeps_fields() {
    let row = StatusRow::new("Sample rate".to_string(), "48 kHz".to_string());
    assert_eq!(row.label(), "Sample rate");
    assert_eq!(row.value(), "48 kHz");
}

#[test]
fn action_button_defaults_and_builders() {
    let b: ActionButton<(f32, f32)> = ActionButton::new("Play".to_string());
    assert_eq!(b.label(), "Play");
    assert_eq!(*b.min_size_set(), None);
    assert_eq!(b.radius(), 6);
    assert_eq!(DEFAULT_BUTTON_CORNER_RADIUS, 6);
    assert_eq!((DEFAULT_BUTTON_MIN_WIDTH, DEFAULT_BUTTON_MIN_HEIGHT), (54, 32));
    let b = b.min_size((80.0, 40.0)).corner_radius(3);
    assert_eq!(*b.min_size_set(), Some((80.0, 40.0)));
    assert_eq!(b.radius(), 3);
    assert_eq!(b.label(), "Play");
}

#[test]
fn lazy_row_plain_even_and_odd() {
    let even = LazyRow::new(4, false).look(false);
    assert_eq!(even.fill, Rgba::from_rgb(15, 20, 28));
    assert_eq!(even.stroke, Rgba { r: 0, g: 0, b: 0, a: 0 });
    assert_eq!(even.title, "Lazy row 4");
    assert_eq!(even.badge, "#0004");
    assert_eq!(even.title_color, PaletteColor::Text.rgba());
    assert_eq!(even.badge_color, PaletteColor::Muted.rgba());
    let odd = LazyRow::new(5, false).look(false);
    assert_eq!(odd.fill, Rgba::from_rgb(13, 18, 25));
    assert_ne!(even.fill, odd.fill);
    assert_eq!(LazyRow::new(6, false).look(false).fill, even.fill);
}

#[test]
fn lazy_row_hovered_and_selected() {
    let hovered = LazyRow::new(7, false).look(true);
    assert_eq!(hovered.fill, Rgba::from_rgb(25, 34, 48));
    let selected = LazyRow::new(7, true).look(true);
    assert_eq!(selected.fill, Rgba::from_rgb(20, 92, 118));
    assert_eq!(selected.stroke, Rgba::from_rgb(36, 211, 238));
    assert_eq!(selected.title_color, Rgba::white());
    assert_eq!(selected.badge_color, Rgba::from_rgb(206, 244, 255));
    assert_eq!(LazyRow::new(7, true).look(false).fill, selected.fill);
}

#[test]
fn lazy_row_labels() {
    assert_eq!(LazyRow::new(0, false).look(false).title, "Lazy row 0");
    assert_eq!(LazyRow::new(0, false).look(false).badge, "#0000");
    assert_eq!(LazyRow::new(123, false).look(false).badge, "#0123");
    assert_eq!(LazyRow::new(9999, false).look(false).badge, "#9999");
    assert_eq!(LazyRow::new(12345, false).look(false).badge, "#12345");
    assert_eq!(LazyRow::new(12345, false).look(false).title, "Lazy row 12345");
    let big = usize::MAX;
    assert_eq!(LazyRow::new(big, false).look(false).title, format!("Lazy row {}", big));
    assert_eq!(LazyRow::new(big, false).look(false).badge, format!("#{:04}", big));
}

#[test]
fn hover_pad_colours() {
    let on = hover_pad_look(true);
    assert_eq!(on.fill, Rgba::from_rgb(31, 48, 71));
    assert_eq!(on.stroke, PaletteColor::CardStrokeHover.rgba());
    assert!(on.sets_cursor);
    let off = hover_pad_look(false);
    assert_eq!(off.fill, Rgba::from_rgb(18, 26, 38));
    assert_eq!(off.stroke, PaletteColor::CardStroke.rgba());
    assert!(!off.sets_cursor);
}

#[test]
fn animation_bars_cycle_colours() {
    assert_eq!(ANIMATION_BAR_COUNT, 12);
    assert_eq!(animation_bar_color(0), PaletteColor::Accent);
    assert_eq!(animation_bar_color(1), PaletteColor::AccentGreen);
    assert_eq!(animation_bar_color(2), PaletteColor::AccentOrange);
    for i in 0..ANIMATION_BAR_COUNT {
        assert_eq!(animation_bar_color(i), animation_bar_color(i + 3));
    }
}

#[test]
fn meter_steps_at_least_two() {
    assert_eq!(DEFAULT_METER_STEPS, 24);
    assert_eq!(meter_steps(0), 2);
    assert_eq!(meter_steps(1), 2);
    assert_eq!(meter_steps(2), 2);
    assert_eq!(meter_steps(24), 24);
    assert_eq!(meter_steps(meter_steps(1)), meter_steps(1));
}
