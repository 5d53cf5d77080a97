//! Syntax-tree block layout: maps parsed-tree nodes to nested colored
//! rectangles laid out in character-cell units over monospaced source text.

pub mod color;
pub mod layout;
pub mod lines;
pub mod tree;
