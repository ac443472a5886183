//! Session selection and lifecycle core of an interactive multiplexer session picker.
pub mod catalog;
pub mod directory;
pub mod picker;
pub mod ranker;
pub mod resolver;
pub mod text;
