use vstd::prelude::*;

verus! {

/// A corner of the editor window, where a resize handle sits.
#[derive(Clone, Copy, Debug, PartialEq, Eq, Structural)]
pub enum Corner {
    TopLeft,
    TopRight,
    BottomLeft,
    BottomRight,
}

/// The pointer cursor shown over a resize handle: the diagonal the handle moves along.
#[derive(Clone, Copy, Debug, PartialEq, Eq, Structural)]
pub enum ResizeCursor {
    NorthWest,
    NorthEast,
    SouthWest,
    SouthEast,
}

impl Corner {
    /// Whether the corner is on the right edge of the window.
    pub open spec fn on_right(self) -> bool {
        self is TopRight || self is BottomRight
    }

    /// Whether the corner is on the bottom edge of the window.
    pub open spec fn on_bottom(self) -> bool {
        self is BottomLeft || self is BottomRight
    }

    /// The suffix that tells the handles' interaction ids apart.
    pub open spec fn suffix(self) -> Seq<char> {
        match self {
            Corner::TopLeft => "top_left"@,
            Corner::TopRight => "top_right"@,
            Corner::BottomLeft => "bottom_left"@,
            Corner::BottomRight => "bottom_right"@,
        }
    }

    /// The cursor over the corner's handle.
    pub open spec fn cursor(self) -> ResizeCursor {
        match self {
            Corner::TopLeft => ResizeCursor::NorthWest,
            Corner::TopRight => ResizeCursor::NorthEast,
            Corner::BottomLeft => ResizeCursor::SouthWest,
            Corner::BottomRight => ResizeCursor::SouthEast,
        }
    }

    /// How a horizontal drag of the corner's handle changes the window width: `1`
    /// when the width grows by the drag distance, `-1` when it shrinks by it.
    pub open spec fn width_sign(self) -> int {
        match self {
            Corner::TopLeft => -1,
            Corner::TopRight => 1,
            Corner::BottomLeft => -1,
            Corner::BottomRight => 1,
        }
    }

    /// How a vertical drag of the corner's handle changes the window height: `1`
    /// when the height grows by the drag distance, `-1` when it shrinks by it.
    pub open spec fn height_sign(self) -> int {
        match self {
            Corner::TopLeft => -1,
            Corner::TopRight => -1,
            Corner::BottomLeft => 1,
            Corner::BottomRight => 1,
        }
    }

    /// The four corners, in the order the handles are laid out.
    pub fn all() -> (corners: [Corner; 4])
        ensures
            corners@ == seq![Corner::TopLeft, Corner::TopRight, Corner::BottomLeft, Corner::BottomRight],
    {
        [Corner::TopLeft, Corner::TopRight, Corner::BottomLeft, Corner::BottomRight]
    }

    /// The suffix of the corner's handle id.
    pub fn id_suffix(self) -> (s: &'static str)
        ensures
            s@ == self.suffix(),
    {
        match self {
            Corner::TopLeft => "top_left",
            Corner::TopRight => "top_right",
            Corner::BottomLeft => "bottom_left",
            Corner::BottomRight => "bottom_right",
        }
    }

    /// The cursor shown over the corner's handle.
    pub fn cursor_icon(self) -> (c: ResizeCursor)
        ensures
            c == self.cursor(),
    {
        match self {
            Corner::TopLeft => ResizeCursor::NorthWest,
            Corner::TopRight => ResizeCursor::NorthEast,
            Corner::BottomLeft => ResizeCursor::SouthWest,
            Corner::BottomRight => ResizeCursor::SouthEast,
        }
    }

    /// Whether the handle's square is placed against the right edge of the bounds
    /// (else against the left edge).
    pub fn anchored_right(self) -> (r: bool)
        ensures
            r == self.on_right(),
    {
        match self {
            Corner::TopRight | Corner::BottomRight => true,
            Corner::TopLeft | Corner::BottomLeft => false,
        }
    }

    /// Whether the handle's square is placed against the bottom edge of the bounds
    /// (else against the top edge).
    pub fn anchored_bottom(self) -> (r: bool)
        ensures
            r == self.on_bottom(),
    {
        match self {
            Corner::BottomLeft | Corner::BottomRight => true,
            Corner::TopLeft | Corner::TopRight => false,
        }
    }

    /// The sign with which a horizontal drag enters the new width.
    pub fn drag_width_sign(self) -> (s: i8)
        ensures
            s == self.width_sign(),
    {
        match self {
            Corner::TopLeft | Corner::BottomLeft => -1,
            Corner::TopRight | Corner::BottomRight => 1,
        }
    }

    /// The sign with which a vertical drag enters the new height.
    pub fn drag_height_sign(self) -> (s: i8)
        ensures
            s == self.height_sign(),
    {
        match self {
            Corner::TopLeft | Corner::TopRight => -1,
            Corner::BottomLeft | Corner::BottomRight => 1,
        }
    }
}

/// Dragging a handle away from the window grows it: a handle on the right edge grows
/// the width when dragged right, one on the left edge when dragged left; likewise a
/// handle on the bottom edge grows the height when dragged down, one on the top edge
/// when dragged up. Every drag changes each dimension by exactly the drag distance.
pub proof fn lemma_drag_grows_outward(c: Corner)
    ensures
        c.width_sign() == 1 <==> c.on_right(),
        c.width_sign() == -1 <==> !c.on_right(),
        c.height_sign() == 1 <==> c.on_bottom(),
        c.height_sign() == -1 <==> !c.on_bottom(),
{
}

/// The four corners are the four combinations of left or right and top or bottom, so
/// each edge pair of the window has exactly one handle.
pub proof fn lemma_corners_cover_window(a: Corner, b: Corner)
    ensures
        (a.on_right() == b.on_right() && a.on_bottom() == b.on_bottom()) <==> a == b,
{
}

/// The handles' id suffixes are pairwise different, so each handle gets its own id.
pub proof fn lemma_suffixes_distinct(a: Corner, b: Corner)
    ensures
        a.suffix() == b.suffix() <==> a == b,
{
    reveal_strlit("top_left");
    reveal_strlit("top_right");
    reveal_strlit("bottom_left");
    reveal_strlit("bottom_right");
    if a != b {
        assert(a.suffix().len() != b.suffix().len() || a.suffix()[0] != b.suffix()[0]
            || a.suffix()[4] != b.suffix()[4] || a.suffix()[7] != b.suffix()[7]);
    }
}

/// The cursor over a handle points along the diagonal through its corner: north for
/// the top edge, south for the bottom; west for the left edge, east for the right.
pub proof fn lemma_cursor_matches_corner(c: Corner)
    ensures
        (c.cursor() is NorthEast || c.cursor() is SouthEast) <==> c.on_right(),
        (c.cursor() is SouthWest || c.cursor() is SouthEast) <==> c.on_bottom(),
{
}


/// Each corner's handle: its id suffix, the edges it sits on, its cursor and the
/// signs with which a drag enters the new width and height.
pub proof fn lemma_corner_table()
    ensures
        Corner::TopLeft.suffix() == "top_left"@,
        Corner::TopRight.suffix() == "top_right"@,
        Corner::BottomLeft.suffix() == "bottom_left"@,
        Corner::BottomRight.suffix() == "bottom_right"@,
        !Corner::TopLeft.on_right() && !Corner::TopLeft.on_bottom(),
        Corner::TopRight.on_right() && !Corner::TopRight.on_bottom(),
        !Corner::BottomLeft.on_right() && Corner::BottomLeft.on_bottom(),
        Corner::BottomRight.on_right() && Corner::BottomRight.on_bottom(),
        Corner::TopLeft.cursor() == ResizeCursor::NorthWest,
        Corner::TopRight.cursor() == ResizeCursor::NorthEast,
        Corner::BottomLeft.cursor() == ResizeCursor::SouthWest,
        Corner::BottomRight.cursor() == ResizeCursor::SouthEast,
        Corner::TopLeft.width_sign() == -1 && Corner::TopLeft.height_sign() == -1,
        Corner::TopRight.width_sign() == 1 && Corner::TopRight.height_sign() == -1,
        Corner::BottomLeft.width_sign() == -1 && Corner::BottomLeft.height_sign() == 1,
        Corner::BottomRight.width_sign() == 1 && Corner::BottomRight.height_sign() == 1,
{
}

} // verus!
