//! The core of an immediate-mode GUI.
//!
//! Once per frame the host hands the pointer sample to [`Context::update`] and
//! then calls its widgets in order. Each widget call reads and updates the
//! shared [`Focus`], appends its draw items and reports what happened to it.
//! Widgets keep no state of their own between frames: the focus, keyed by the
//! caller's ids, is all that persists.

pub mod context;
pub mod draw;
pub mod focus;
pub mod geometry;
pub mod widgets;

pub use context::{Context, ContextState};
pub use draw::{Color, DrawItem};
pub use focus::{same_id, Focus, FocusState, Id};
pub use geometry::{Point, Rect};
pub use widgets::{button, drag_offset, slider_in_range, slider_ratio, vertical_slider, Ratio};
