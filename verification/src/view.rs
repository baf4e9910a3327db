//! The text view: its buffer, its geometry and its scrollbars.
pub mod buffer;
pub mod paint;
pub mod rows;
pub mod scrollbar;
pub mod thumb;
pub mod width;
