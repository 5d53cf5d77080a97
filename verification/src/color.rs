//! The per-node-kind color table: high-level node kinds get a fixed fill
//! color; every other kind gets none and is not drawn.
//!
//! Channels are stored as thousandths of full intensity, so that the table
//! is exact integer data; a renderer divides by `COLOR_SCALE` to obtain the
//! usual unit-interval channel values.

use vstd::prelude::*;

verus! {

/// Denominator for the `r`, `g`, `b` channel fields of [`BlockColor`].
pub const COLOR_SCALE: u16 = 1000;

/// An RGB fill color; each channel is in thousandths of full intensity
/// (0 through `COLOR_SCALE`).
#[derive(Clone, Copy, Debug, PartialEq, Eq, Structural)]
pub struct BlockColor {
    pub r: u16,
    pub g: u16,
    pub b: u16,
}

/// The fixed kind-to-color table: which node kinds are high-level enough to
/// be drawn as blocks, and the color each one is filled with.
pub open spec fn spec_color(kind: Seq<char>) -> Option<BlockColor> {
    if kind == "module"@ {
        Some(BlockColor { r: 0, g: 400, b: 400 })
    } else if kind == "class_definition"@ {
        Some(BlockColor { r: 900, g: 430, b: 212 })
    } else if kind == "function_definition"@ {
        Some(BlockColor { r: 0, g: 470, b: 470 })
    } else if kind == "import_statement"@ {
        Some(BlockColor { r: 770, g: 176, b: 188 })
    } else if kind == "expression_statement"@ {
        Some(BlockColor { r: 500, g: 200, b: 500 })
    } else if kind == "while_statement"@ {
        Some(BlockColor { r: 305, g: 0, b: 305 })
    } else if kind == "if_statement"@ {
        Some(BlockColor { r: 502, g: 86, b: 220 })
    } else {
        None
    }
}

/// Looks a node kind up in the fixed color table; `None` means the node is
/// not drawn.
pub fn color(kind: &String) -> (r: Option<BlockColor>)
    ensures
        r == spec_color(kind@),
{
    if *kind == "module".to_owned() {
        Some(BlockColor { r: 0, g: 400, b: 400 })
    } else if *kind == "class_definition".to_owned() {
        Some(BlockColor { r: 900, g: 430, b: 212 })
    } else if *kind == "function_definition".to_owned() {
        Some(BlockColor { r: 0, g: 470, b: 470 })
    } else if *kind == "import_statement".to_owned() {
        Some(BlockColor { r: 770, g: 176, b: 188 })
    } else if *kind == "expression_statement".to_owned() {
        Some(BlockColor { r: 500, g: 200, b: 500 })
    } else if *kind == "while_statement".to_owned() {
        Some(BlockColor { r: 305, g: 0, b: 305 })
    } else if *kind == "if_statement".to_owned() {
        Some(BlockColor { r: 502, g: 86, b: 220 })
    } else {
        None
    }
}

} // verus!
