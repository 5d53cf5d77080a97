//! Longest-line computation over a byte range of the source text.
//!
//! A multi-row block is as wide as its longest line, so the layout needs the
//! maximum length, in bytes, over the lines of the spanned text. Lines are
//! split the way `str::lines` splits them: at a line feed, with a carriage
//! return immediately before the line feed not counted, and with no empty
//! line after a trailing line feed.

use vstd::prelude::*;

verus! {

pub const LINE_FEED: u8 = 10;

pub const CARRIAGE_RETURN: u8 = 13;

/// Length of the longest line of `s`, walked front to back: `cur` is the
/// length of the line in progress and `best` the longest line completed so
/// far.
pub open spec fn max_line_len_from(s: Seq<u8>, cur: nat, best: nat) -> nat
    decreases s.len(),
{
    if s.len() == 0 {
        if cur > best {
            cur
        } else {
            best
        }
    } else if s[0] == LINE_FEED {
        max_line_len_from(s.skip(1), 0, if cur > best { cur } else { best })
    } else if s[0] == CARRIAGE_RETURN && s.len() >= 2 && s[1] == LINE_FEED {
        max_line_len_from(s.skip(2), 0, if cur > best { cur } else { best })
    } else {
        max_line_len_from(s.skip(1), cur + 1, best)
    }
}

/// Length in bytes of the longest line of `s`; 0 when `s` is empty.
pub open spec fn spec_max_line_len(s: Seq<u8>) -> nat {
    max_line_len_from(s, 0, 0)
}

/// Computes the longest line length over `source[start..end]`.
pub fn max_line_len(source: &Vec<u8>, start: usize, end: usize) -> (r: usize)
    requires
        start <= end <= source.len(),
    ensures
        r == spec_max_line_len(source@.subrange(start as int, end as int)),
{
    let ghost whole = source@.subrange(start as int, end as int);
    let mut i = start;
    let mut cur: usize = 0;
    let mut best: usize = 0;
    while i < end
        invariant
            start <= i <= end <= source.len(),
            cur <= i - start,
            max_line_len_from(source@.subrange(i as int, end as int), cur as nat, best as nat)
                == spec_max_line_len(whole),
            whole == source@.subrange(start as int, end as int),
        decreases end - i,
    {
        let ghost rest = source@.subrange(i as int, end as int);
        let b = source[i];
        assert(rest[0] == b);
        if b == LINE_FEED {
            assert(rest.skip(1) =~= source@.subrange(i + 1, end as int));
            if cur > best {
                best = cur;
            }
            cur = 0;
            i = i + 1;
        } else if b == CARRIAGE_RETURN && i + 1 < end && source[i + 1] == LINE_FEED {
            assert(rest[1] == source@[i + 1]);
            assert(rest.skip(2) =~= source@.subrange(i + 2, end as int));
            if cur > best {
                best = cur;
            }
            cur = 0;
            i = i + 2;
        } else {
            assert(rest.skip(1) =~= source@.subrange(i + 1, end as int));
            cur = cur + 1;
            i = i + 1;
        }
    }
    assert(source@.subrange(i as int, end as int) =~= Seq::<u8>::empty());
    if cur > best {
        best = cur;
    }
    best
}

} // verus!
