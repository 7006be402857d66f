//! The interaction core of a moodboard canvas: notes, swatches, text boxes
//! and images placed on a large integer-coordinate plane,
//! selected by clicking or by sweeping a rubber-band box, and dragged as a
//! group, with the most recently touched item drawn on top.
//!
//! [`board::Board`] holds the whole state; its transitions are specified
//! over [`board::BoardView`] and proved to keep its invariant, among them
//! that the rectangle around the selection is always the exact union of
//! the selected items' boxes.
pub mod geometry;
pub mod select;
pub mod canvas;
pub mod item;
pub mod hit;
pub mod board;
pub mod theme;
pub mod font;
pub mod events;
pub mod swatch;
pub mod layout;
