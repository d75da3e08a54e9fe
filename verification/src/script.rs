//! Decisions that script mode makes about its input.
use vstd::prelude::*;

verus! {

/// Source text starts with a shebang line: `#!` that does not begin an
/// inner attribute `#![`.
pub open spec fn starts_with_shebang(s: Seq<char>) -> bool {
    &&& s.len() >= 2
    &&& s[0] == '#'
    &&& s[1] == '!'
    &&& !(s.len() >= 3 && s[2] == '[')
}

/// Whether source text starts with a shebang line (`#!` not followed by `[`).
pub fn has_shebang(source: &str) -> (r: bool)
    ensures
        r == starts_with_shebang(source@),
{
    broadcast use vstd::string::group_string_axioms;
    let mut it = source.chars();
    let c0 = it.next();
    let c1 = it.next();
    let c2 = it.next();
    match (c0, c1) {
        (Some('#'), Some('!')) => c2 != Some('['),
        _ => false,
    }
}

} // verus!
