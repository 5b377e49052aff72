//! Front-end data core of an ahead-of-time compiler.
//!
//! A program is read into a graph of [`Value`] nodes, which doubles as the
//! syntax tree; the matchers in [`parse`] take such values apart, and the
//! builder in [`anf`] emits the A-normal form that later passes work on.

pub mod anf;
pub mod arenas;
pub mod hash;
pub mod parse;
pub mod position;
pub mod value;

pub use arenas::Arenas;
pub use position::Position;
pub use value::Value;
