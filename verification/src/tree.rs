//! The parsed tree and the pre-order walk that turns it into blocks.
//!
//! The walk is pre-order so that a parent's rectangle is filled before its
//! children's and ends up underneath them.

use vstd::prelude::*;
use crate::layout::Block;
use crate::layout::NodeInfo;
use crate::layout::info_wf;
use crate::layout::spec_node_block;
use crate::layout::node_block;

verus! {

/// A parsed syntax tree: what the layout reads of each node, with the
/// node's children in source order.
#[derive(Debug)]
pub struct SyntaxTree {
    pub info: NodeInfo,
    pub children: Vec<SyntaxTree>,
}

/// Every node of the tree has a well-formed span for a source text of
/// `src_len` bytes.
pub open spec fn tree_wf(t: SyntaxTree, src_len: nat) -> bool
    decreases t,
{
    &&& info_wf(t.info, src_len)
    &&& forall|i: int|
        0 <= i < t.children.len() ==> tree_wf(#[trigger] t.children[i], src_len)
}

/// The blocks of the tree rooted at `t`, in pre-order: the root's block, if
/// it has one, then the blocks of each child subtree in source order.
pub open spec fn spec_blocks(t: SyntaxTree, source: Seq<u8>) -> Seq<Block>
    decreases t, 1int, 0int,
{
    let rest = spec_blocks_children(t, source, t.children.len() as int);
    match spec_node_block(t.info, source) {
        Some(b) => seq![b] + rest,
        None => rest,
    }
}

/// The blocks of the first `n` child subtrees of `t`, concatenated in
/// order.
pub open spec fn spec_blocks_children(t: SyntaxTree, source: Seq<u8>, n: int) -> Seq<Block>
    decreases t, 0int, n,
        when n <= t.children.len()
{
    if n <= 0 {
        Seq::empty()
    } else {
        spec_blocks_children(t, source, n - 1) + spec_blocks(t.children[n - 1], source)
    }
}

/// Appends the blocks of the tree rooted at `t` to `out`, in pre-order.
fn push_blocks(t: &SyntaxTree, source: &Vec<u8>, out: &mut Vec<Block>)
    requires
        tree_wf(*t, source@.len()),
    ensures
        final(out)@ == old(out)@ + spec_blocks(*t, source@),
    decreases *t,
{
    match node_block(&t.info, source) {
        Some(b) => out.push(b),
        None => {},
    }
    let ghost mid = out@;
    for i in 0..t.children.len()
        invariant
            tree_wf(*t, source@.len()),
            out@ == mid + spec_blocks_children(*t, source@, i as int),
    {
        assert(tree_wf(t.children[i as int], source@.len()));
        push_blocks(&t.children[i], source, out);
    }
    assert(out@ == old(out)@ + spec_blocks(*t, source@)) by {
        assert(mid + spec_blocks_children(*t, source@, t.children.len() as int)
            == old(out)@ + spec_blocks(*t, source@)) by {
            match spec_node_block(t.info, source@) {
                Some(b) => {
                    assert(mid == old(out)@ + seq![b]);
                    assert(mid + spec_blocks_children(*t, source@, t.children@.len() as int)
                        =~= old(out)@ + spec_blocks(*t, source@));
                },
                None => {
                    assert(mid == old(out)@);
                },
            }
        }
    }
}

/// Walks the tree in pre-order and returns the block of every drawn node,
/// parents before their children, children in source order.
pub fn make_blocks(tree: &SyntaxTree, source: &Vec<u8>) -> (r: Vec<Block>)
    requires
        tree_wf(*tree, source@.len()),
    ensures
        r@ == spec_blocks(*tree, source@),
{
    let mut out: Vec<Block> = Vec::new();
    push_blocks(tree, source, &mut out);
    out
}

} // verus!
