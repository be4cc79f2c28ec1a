use vstd::prelude::*;

use crate::color::{rgb, PaletteColor, Rgba};
use crate::text::{
    decimal, digits_value, lemma_decimal_round_trip, lemma_zero_padded, push_decimal, zero_padded,
    zero_padded_string,
};

verus! {

/// A titled card that groups other widgets.
pub struct Card<'a> {
    title: &'a str,
}

impl<'a> View for Card<'a> {
    type V = Seq<char>;

    closed spec fn view(&self) -> Seq<char> {
        self.title@
    }
}

impl<'a> Card<'a> {
    /// A card with the given title.
    pub fn new(title: &'a str) -> (c: Self)
        ensures
            c@ == title@,
    {
        Card { title }
    }

    /// The card's title.
    pub fn title(&self) -> (t: &'a str)
        ensures
            t@ == self@,
    {
        self.title
    }
}

/// A label and a value shown side by side, the value in an accent colour.
pub struct Pill {
    label: String,
    value: String,
    accent: Rgba,
}

/// A label with a value, as plain values.
pub struct LabelledValue {
    pub label: Seq<char>,
    pub value: Seq<char>,
}

impl View for Pill {
    type V = (LabelledValue, Rgba);

    closed spec fn view(&self) -> (LabelledValue, Rgba) {
        (LabelledValue { label: self.label@, value: self.value@ }, self.accent)
    }
}

impl Pill {
    /// A pill showing `label` and `value`, the value drawn in `accent`.
    pub fn new(label: String, value: String, accent: Rgba) -> (p: Self)
        ensures
            p@.0.label == label@,
            p@.0.value == value@,
            p@.1 == accent,
    {
        Pill { label, value, accent }
    }

    /// The label.
    pub fn label(&self) -> (s: &str)
        ensures
            s@ == self@.0.label,
    {
        self.label.as_str()
    }

    /// The value.
    pub fn value(&self) -> (s: &str)
        ensures
            s@ == self@.0.value,
    {
        self.value.as_str()
    }

    /// The colour the value is drawn in.
    pub fn accent(&self) -> (c: Rgba)
        ensures
            c == self@.1,
    {
        self.accent
    }
}

/// A row with a label on the left and a value on the right.
pub struct StatusRow {
    label: String,
    value: String,
}

impl View for StatusRow {
    type V = LabelledValue;

    closed spec fn view(&self) -> LabelledValue {
        LabelledValue { label: self.label@, value: self.value@ }
    }
}

impl StatusRow {
    /// A row showing `label` and `value`.
    pub fn new(label: String, value: String) -> (r: Self)
        ensures
            r@.label == label@,
            r@.value == value@,
    {
        StatusRow { label, value }
    }

    /// The label.
    pub fn label(&self) -> (s: &str)
        ensures
            s@ == self@.label,
    {
        self.label.as_str()
    }

    /// The value.
    pub fn value(&self) -> (s: &str)
        ensures
            s@ == self@.value,
    {
        self.value.as_str()
    }
}

/// The width, in points, of an action button's minimum size unless one is set.
pub const DEFAULT_BUTTON_MIN_WIDTH: u32 = 54;

/// The height, in points, of an action button's minimum size unless one is set.
pub const DEFAULT_BUTTON_MIN_HEIGHT: u32 = 32;

/// The corner radius of an action button unless one is set.
pub const DEFAULT_BUTTON_CORNER_RADIUS: u8 = 6;

/// A button with a label, a minimum size and a corner radius. The size is of the
/// caller's type `S` (egui's `Vec2` in the editor); `None` stands for the default
/// minimum size of `DEFAULT_BUTTON_MIN_WIDTH` by `DEFAULT_BUTTON_MIN_HEIGHT` points.
pub struct ActionButton<S> {
    label: String,
    min_size: Option<S>,
    corner_radius: u8,
}

/// An action button as plain values.
pub struct ActionButtonModel<S> {
    pub label: Seq<char>,
    pub min_size: Option<S>,
    pub corner_radius: u8,
}

impl<S> View for ActionButton<S> {
    type V = ActionButtonModel<S>;

    closed spec fn view(&self) -> ActionButtonModel<S> {
        ActionButtonModel {
            label: self.label@,
            min_size: self.min_size,
            corner_radius: self.corner_radius,
        }
    }
}

impl<S> ActionButton<S> {
    /// A button with the given label, the default minimum size and corner radius.
    pub fn new(label: String) -> (b: Self)
        ensures
            b@.label == label@,
            b@.min_size is None,
            b@.corner_radius == DEFAULT_BUTTON_CORNER_RADIUS,
    {
        ActionButton { label, min_size: None, corner_radius: DEFAULT_BUTTON_CORNER_RADIUS }
    }

    /// The same button with the given minimum size.
    pub fn min_size(self, min_size: S) -> (b: Self)
        ensures
            b@ == (ActionButtonModel { min_size: Some(min_size), ..self@ }),
    {
        ActionButton { min_size: Some(min_size), ..self }
    }

    /// The same button with the given corner radius.
    pub fn corner_radius(self, radius: u8) -> (b: Self)
        ensures
            b@ == (ActionButtonModel { corner_radius: radius, ..self@ }),
    {
        ActionButton { corner_radius: radius, ..self }
    }

    /// The label.
    pub fn label(&self) -> (s: &str)
        ensures
            s@ == self@.label,
    {
        self.label.as_str()
    }

    /// The minimum size that was set, if one was.
    pub fn min_size_set(&self) -> (s: &Option<S>)
        ensures
            *s == self@.min_size,
    {
        &self.min_size
    }

    /// The corner radius.
    pub fn radius(&self) -> (r: u8)
        ensures
            r == self@.corner_radius,
    {
        self.corner_radius
    }
}

/// The colours and texts of one row of a long, lazily drawn list.
pub struct RowLook {
    pub fill: Rgba,
    pub stroke: Rgba,
    pub title: String,
    pub title_color: Rgba,
    pub badge: String,
    pub badge_color: Rgba,
}

/// The fill of a list row: the selection colour, else the hover colour, else
/// colours that alternate between even and odd rows.
pub open spec fn row_fill(index: nat, selected: bool, hovered: bool) -> Rgba {
    if selected {
        rgb(20, 92, 118)
    } else if hovered {
        rgb(25, 34, 48)
    } else if index % 2 == 0 {
        rgb(15, 20, 28)
    } else {
        rgb(13, 18, 25)
    }
}

/// The outline of a list row: the accent colour when selected, else transparent.
pub open spec fn row_stroke(selected: bool) -> Rgba {
    if selected {
        PaletteColor::Accent.value()
    } else {
        Rgba { r: 0, g: 0, b: 0, a: 0 }
    }
}

/// The row's title: `Lazy row ` and the index in decimal.
pub open spec fn row_title(index: nat) -> Seq<char> {
    seq!['L', 'a', 'z', 'y', ' ', 'r', 'o', 'w', ' '] + decimal(index)
}

/// The row's badge: `#` and the index in decimal, zero-padded to four digits.
pub open spec fn row_badge(index: nat) -> Seq<char> {
    seq!['#'] + zero_padded(index, 4)
}

/// One row of a long list, drawn only when it scrolls into view.
pub struct LazyRow {
    index: usize,
    selected: bool,
}

impl View for LazyRow {
    type V = (usize, bool);

    closed spec fn view(&self) -> (usize, bool) {
        (self.index, self.selected)
    }
}

impl LazyRow {
    /// The row at position `index`, selected or not.
    pub fn new(index: usize, selected: bool) -> (r: Self)
        ensures
            r@ == (index, selected),
    {
        LazyRow { index, selected }
    }

    /// What the row looks like, given whether the pointer hovers over it.
    pub fn look(&self, hovered: bool) -> (l: RowLook)
        ensures
            l.fill == row_fill(self@.0 as nat, self@.1, hovered),
            l.stroke == row_stroke(self@.1),
            l.title@ == row_title(self@.0 as nat),
            l.title_color == (if self@.1 {
                rgb(255, 255, 255)
            } else {
                PaletteColor::Text.value()
            }),
            l.badge@ == row_badge(self@.0 as nat),
            l.badge_color == (if self@.1 {
                rgb(206, 244, 255)
            } else {
                PaletteColor::Muted.value()
            }),
    {
        let fill = if self.selected {
            Rgba::from_rgb(20, 92, 118)
        } else if hovered {
            Rgba::from_rgb(25, 34, 48)
        } else if self.index % 2 == 0 {
            Rgba::from_rgb(15, 20, 28)
        } else {
            Rgba::from_rgb(13, 18, 25)
        };
        let stroke = if self.selected {
            PaletteColor::Accent.rgba()
        } else {
            Rgba::transparent()
        };
        proof {
            reveal_strlit("Lazy row ");
            reveal_strlit("#");
        }
        let mut title = String::from_str("Lazy row ");
        push_decimal(&mut title, self.index);
        let badge = String::from_str("#").concat(zero_padded_string(self.index, 4).as_str());
        let title_color = if self.selected {
            Rgba::white()
        } else {
            PaletteColor::Text.rgba()
        };
        let badge_color = if self.selected {
            Rgba::from_rgb(206, 244, 255)
        } else {
            PaletteColor::Muted.rgba()
        };
        RowLook { fill, stroke, title, title_color, badge, badge_color }
    }
}

/// The colours of a hover pad and whether it sets the pointer's cursor.
pub struct PadLook {
    pub fill: Rgba,
    pub stroke: Rgba,
    pub sets_cursor: bool,
}

/// What a hover pad looks like: lighter, with the hover outline and its own cursor
/// while the pointer is over it.
pub fn hover_pad_look(hovered: bool) -> (l: PadLook)
    ensures
        l.fill == (if hovered {
            rgb(31, 48, 71)
        } else {
            rgb(18, 26, 38)
        }),
        l.stroke == (if hovered {
            PaletteColor::CardStrokeHover.value()
        } else {
            PaletteColor::CardStroke.value()
        }),
        l.sets_cursor == hovered,
{
    if hovered {
        PadLook {
            fill: Rgba::from_rgb(31, 48, 71),
            stroke: PaletteColor::CardStrokeHover.rgba(),
            sets_cursor: true,
        }
    } else {
        PadLook {
            fill: Rgba::from_rgb(18, 26, 38),
            stroke: PaletteColor::CardStroke.rgba(),
            sets_cursor: false,
        }
    }
}

/// The number of bars in the animation strip.
pub const ANIMATION_BAR_COUNT: usize = 12;

/// The colour of the bar at position `i` of the animation strip: the accent, green
/// and orange colours in turn.
pub open spec fn bar_color(i: nat) -> PaletteColor {
    if i % 3 == 0 {
        PaletteColor::Accent
    } else if i % 3 == 1 {
        PaletteColor::AccentGreen
    } else {
        PaletteColor::AccentOrange
    }
}

/// The colour of the bar at position `i` of the animation strip.
pub fn animation_bar_color(i: usize) -> (c: PaletteColor)
    ensures
        c == bar_color(i as nat),
{
    let r = i % 3;
    if r == 0 {
        PaletteColor::Accent
    } else if r == 1 {
        PaletteColor::AccentGreen
    } else {
        PaletteColor::AccentOrange
    }
}

/// The number of segments of a segmented meter unless one is set.
pub const DEFAULT_METER_STEPS: usize = 24;

/// The number of segments a segmented meter draws when asked for `steps`: at least
/// two, so that the first and the last segment differ.
pub open spec fn meter_step_count(steps: nat) -> nat {
    if steps < 2 {
        2
    } else {
        steps
    }
}

/// The number of segments a segmented meter draws when asked for `steps`.
pub fn meter_steps(steps: usize) -> (n: usize)
    ensures
        n == meter_step_count(steps as nat),
{
    if steps < 2 {
        2
    } else {
        steps
    }
}


/// A selected row always shows the selection colour, hovered or not; an unselected
/// row under the pointer shows the hover colour whatever its position.
pub proof fn lemma_selection_over_hover(index: nat, hovered: bool)
    ensures
        row_fill(index, true, hovered) == rgb(20, 92, 118),
        row_fill(index, false, true) == rgb(25, 34, 48),
        row_fill(index, true, hovered) != row_fill(index, false, hovered),
{
}

/// Rows that are neither selected nor hovered alternate between two colours: each
/// differs from the next and matches the one after.
pub proof fn lemma_rows_alternate(index: nat)
    ensures
        row_fill(index, false, false) != row_fill(index + 1, false, false),
        row_fill(index, false, false) == row_fill(index + 2, false, false),
{
}

/// A row's badge is `#` and at least four digits that denote the row's index; for
/// indices below 10000 it is exactly five characters long.
pub proof fn lemma_row_badge_denotes_index(index: nat)
    ensures
        row_badge(index)[0] == '#',
        row_badge(index).len() >= 5,
        index < 10000 ==> row_badge(index).len() == 5,
        digits_value(row_badge(index).drop_first()) == index,
{
    lemma_zero_padded(index, 4);
    assert(row_badge(index).drop_first() =~= zero_padded(index, 4));
    if index < 10000 {
        lemma_decimal_short(index);
    }
}

/// A number below 10000 has at most four decimal digits.
proof fn lemma_decimal_short(n: nat)
    requires
        n < 10000,
    ensures
        decimal(n).len() <= 4,
{
    reveal_with_fuel(decimal, 4);
    assert(n / 10 / 10 / 10 < 10);
}

/// A row's title is `Lazy row ` followed by digits that denote the row's index.
pub proof fn lemma_row_title_denotes_index(index: nat)
    ensures
        row_title(index).subrange(0, 9) == seq!['L', 'a', 'z', 'y', ' ', 'r', 'o', 'w', ' '],
        digits_value(row_title(index).subrange(9, row_title(index).len() as int)) == index,
{
    lemma_decimal_round_trip(index);
    assert(row_title(index).subrange(9, row_title(index).len() as int) =~= decimal(index));
    assert(row_title(index).subrange(0, 9) =~= seq!['L', 'a', 'z', 'y', ' ', 'r', 'o', 'w', ' ']);
}

/// The bar colours repeat every three bars, and three neighbouring bars have three
/// different colours.
pub proof fn lemma_bar_colors_cycle(i: nat)
    ensures
        bar_color(i + 3) == bar_color(i),
        bar_color(i) != bar_color(i + 1),
        bar_color(i + 1) != bar_color(i + 2),
        bar_color(i) != bar_color(i + 2),
{
}

/// A meter always has at least two segments (so the position of a segment, its index
/// divided by the count less one, is defined), and asking again for the count it
/// draws changes nothing.
pub proof fn lemma_meter_steps_at_least_two(steps: nat)
    ensures
        meter_step_count(steps) >= 2,
        meter_step_count(meter_step_count(steps)) == meter_step_count(steps),
        steps >= 2 ==> meter_step_count(steps) == steps,
{
}


/// The animation strip cycles through the accent, green and orange colours starting
/// with the accent: bar `i` has the colour given by `i` modulo three.
pub proof fn lemma_bar_color_by_position(i: nat)
    ensures
        i % 3 == 0 ==> bar_color(i) == PaletteColor::Accent,
        i % 3 == 1 ==> bar_color(i) == PaletteColor::AccentGreen,
        i % 3 == 2 ==> bar_color(i) == PaletteColor::AccentOrange,
{
}

/// A meter asked for fewer than two segments draws exactly two; otherwise it draws
/// the number asked for.
pub proof fn lemma_meter_step_count_values(steps: nat)
    ensures
        steps < 2 ==> meter_step_count(steps) == 2,
        steps >= 2 ==> meter_step_count(steps) == steps,
        meter_step_count(steps) >= steps,
{
}

/// The colours of a list row in terms of its state: selected rows in the selection
/// blue with an accent outline, hovered rows in the hover colour, other rows in one
/// of two colours by the parity of their index, with no visible outline.
pub proof fn lemma_row_colors(index: nat, selected: bool, hovered: bool)
    ensures
        selected ==> row_fill(index, selected, hovered) == (Rgba { r: 20, g: 92, b: 118, a: 255 }),
        !selected && hovered ==> row_fill(index, selected, hovered) == (Rgba { r: 25, g: 34, b: 48, a: 255 }),
        !selected && !hovered && index % 2 == 0 ==> row_fill(index, selected, hovered) == (Rgba {
            r: 15,
            g: 20,
            b: 28,
            a: 255,
        }),
        !selected && !hovered && index % 2 == 1 ==> row_fill(index, selected, hovered) == (Rgba {
            r: 13,
            g: 18,
            b: 25,
            a: 255,
        }),
        selected ==> row_stroke(selected) == (Rgba { r: 36, g: 211, b: 238, a: 255 }),
        !selected ==> row_stroke(selected).a == 0,
{
}

/// The widgets' defaults: a 54 by 32 point button with corner radius 6, a meter of 24
/// segments, an animation strip of 12 bars.
pub proof fn lemma_widget_defaults()
    ensures
        DEFAULT_BUTTON_MIN_WIDTH == 54,
        DEFAULT_BUTTON_MIN_HEIGHT == 32,
        DEFAULT_BUTTON_CORNER_RADIUS == 6,
        DEFAULT_METER_STEPS == 24,
        ANIMATION_BAR_COUNT == 12,
{
}

} // verus!
