//! The decision layer of a small gain plugin with an egui editor: the colours and
//! labels its widgets draw, the geometry rules of the resize handles, and the
//! state that the editor shares with the host (window size, pending resize
//! requests, open flag, scale factor).
//!
//! Drawing, audio processing and the host connection live in `app/`, which asks this
//! crate what to draw and how the editor state moves on.

pub mod color;
pub mod editor;
pub mod text;
pub mod widgets;
pub mod resize;
pub mod theme;
