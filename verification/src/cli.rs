//! Pure helpers for the command-line boundary.

use crate::strutil::spec_idx_of;
use crate::strutil::spec_parse_u32;
use crate::strutil::find_char;
use crate::strutil::lemma_idx_of_props;
use crate::strutil::parse_u32;
use vstd::prelude::*;

verus! {

/// The parse of a `WIDTHxHEIGHT` window-size argument: the two halves around
/// a sole `x`, each read as a non-negative integer; any other shape fails.
pub open spec fn spec_parse_window_size(s: Seq<char>) -> Option<(u32, u32)> {
    let e = spec_idx_of(s, 'x', 0);
    if e == s.len() || spec_idx_of(s, 'x', e + 1) != s.len() {
        None
    } else {
        match (spec_parse_u32(s.take(e)), spec_parse_u32(s.skip(e + 1))) {
            (Some(w), Some(h)) => Some((w, h)),
            _ => None,
        }
    }
}

/// Parse a `WIDTHxHEIGHT` window-size argument.
pub fn parse_window_size(size: &str) -> (r: Option<(u32, u32)>)
    ensures
        r == spec_parse_window_size(size@),
{
    let len = size.unicode_len();
    let e = find_char(size, 'x', 0);
    if e == len {
        return None;
    }
    proof {
        lemma_idx_of_props(size@, 'x', 0);
    }
    let e2 = find_char(size, 'x', e + 1);
    if e2 != len {
        return None;
    }
    let width = parse_u32(size.substring_char(0, e));
    let height = parse_u32(size.substring_char(e + 1, len));
    proof {
        assert(size@.subrange(0, e as int) =~= size@.take(e as int));
        assert(size@.subrange(e + 1, len as int) =~= size@.skip(e + 1));
    }
    match (width, height) {
        (Some(w), Some(h)) => Some((w, h)),
        _ => None,
    }
}

} // verus!
