//! From a node's span to the rectangle it is drawn as.
//!
//! Positions and rectangles are in character-cell units: a renderer with a
//! monospaced font scales columns by the glyph width and rows by the line
//! height. Keeping the layout in cells keeps it exact.

use vstd::prelude::*;
use crate::color::BlockColor;
use crate::color::spec_color;
use crate::color::color;
use crate::lines::spec_max_line_len;
use crate::lines::max_line_len;

verus! {

/// A point in the source text, as the parser reports it: zero-based row and
/// column.
#[derive(Clone, Copy, Debug, PartialEq, Eq, Structural)]
pub struct Position {
    pub row: usize,
    pub column: usize,
}

/// An axis-aligned rectangle in character-cell units: `x`/`width` count
/// columns, `y`/`height` count rows.
#[derive(Clone, Copy, Debug, PartialEq, Eq, Structural)]
pub struct CellRect {
    pub x: usize,
    pub y: usize,
    pub width: usize,
    pub height: usize,
}

/// One rectangle to fill, with its color.
#[derive(Clone, Copy, Debug, PartialEq, Eq, Structural)]
pub struct Block {
    pub rect: CellRect,
    pub color: BlockColor,
}

/// What the layout reads of a parsed node: its kind, whether the grammar
/// names it, its row/column span and its byte range in the source.
#[derive(Clone, Debug)]
pub struct NodeInfo {
    pub kind: String,
    pub named: bool,
    pub start: Position,
    pub end: Position,
    pub start_byte: usize,
    pub end_byte: usize,
}

/// A node's span is well formed when it corresponds to a parse of a source
/// text of `src_len` bytes: the byte range lies in the text, the node ends
/// no earlier than it starts, and its row count fits the machine.
pub open spec fn info_wf(info: NodeInfo, src_len: nat) -> bool {
    &&& info.start_byte <= info.end_byte <= src_len
    &&& info.start.row <= info.end.row
    &&& (info.start.row == info.end.row ==> info.start.column <= info.end.column)
    &&& info.end.row - info.start.row + 1 <= usize::MAX
}

/// The rectangle of a node spanning `start` to `end`. A one-row node is as
/// wide as its column span; a node across rows is as wide as the longest
/// line of the text it spans (the end column of such a node need not be its
/// rightmost point, and this also tolerates an out-of-range end column).
pub open spec fn spec_node_rect(info: NodeInfo, source: Seq<u8>) -> CellRect {
    CellRect {
        x: info.start.column,
        y: info.start.row,
        width: if info.start.row == info.end.row {
            (info.end.column - info.start.column) as usize
        } else {
            spec_max_line_len(source.subrange(info.start_byte as int, info.end_byte as int))
                as usize
        },
        height: if info.start.row == info.end.row {
            1
        } else {
            (info.end.row - info.start.row + 1) as usize
        },
    }
}

/// The block a node is drawn as, if any: nodes the grammar does not name
/// (bare literals and punctuation) and kinds outside the color table get
/// none.
pub open spec fn spec_node_block(info: NodeInfo, source: Seq<u8>) -> Option<Block> {
    if !info.named {
        None
    } else {
        match spec_color(info.kind@) {
            Some(c) => Some(Block { rect: spec_node_rect(info, source), color: c }),
            None => None,
        }
    }
}

/// Computes the block a node is drawn as, or `None` when the node is not
/// drawn.
pub fn node_block(info: &NodeInfo, source: &Vec<u8>) -> (r: Option<Block>)
    requires
        info_wf(*info, source@.len()),
    ensures
        r == spec_node_block(*info, source@),
{
    if !info.named {
        return None;
    }
    let c = match color(&info.kind) {
        Some(c) => c,
        None => { return None; },
    };
    let x = info.start.column;
    let y = info.start.row;
    if info.start.row == info.end.row {
        let width = info.end.column - info.start.column;
        Some(Block { rect: CellRect { x, y, width, height: 1 }, color: c })
    } else {
        let height = info.end.row - info.start.row + 1;
        let width = max_line_len(source, info.start_byte, info.end_byte);
        Some(Block { rect: CellRect { x, y, width, height }, color: c })
    }
}

} // verus!
