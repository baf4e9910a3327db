//! The core of a text editor that edits remote files: what it keeps of a remote
//! file system and how it talks to the agent there, and the geometry and painting
//! of its scrollbars.
//!
//! * [`remote`] is the file system. An operation gives its result where it is at
//!   hand, and else the [`protocol`] request that asks for it; the answer is then
//!   handed back. [`json`], [`base64`] and [`error`] are what answers are made of,
//!   [`model`] and [`path`] what the editor makes of them.
//! * [`view`] counts lines and wrapped rows, measures line widths, and paints
//!   scrollbars on a `ratatui` buffer.
//!
//! Every function states what it does in its contract. The proof functions whose
//! names begin with `law_` state what holds across functions; those in [`laws`] state
//! it of the functions' results.
pub mod base64;
pub mod error;
pub mod json;
pub mod laws;
pub mod model;
pub mod path;
pub mod protocol;
pub mod remote;
pub mod text;
pub mod view;
