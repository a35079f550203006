//! A worked use of the combinators.

use crate::laws::lemma_map_meaning;
use crate::{succeed, Parser};
use vstd::prelude::*;

verus! {

/// Parses the text `example` with two constant parsers run in sequence and
/// their values added up, and returns what the run gave: the sum, and the
/// text, of which nothing was read.
pub fn example() -> (w: (i32, String))
    ensures
        w.0 == 66,
        w.1@ == "example"@,
{
    let s = succeed(42i32);
    let t = succeed(24i32);
    let u = s.seq(t);
    let add = |x: (i32, i32)| -> (sum: i32)
        requires
            -2147483648 <= x.0 + x.1 <= 2147483647,
        ensures
            sum == x.0 + x.1,
    {
        x.0 + x.1
    };
    let v = u.map(add);
    proof {
        lemma_map_meaning(v);
    }
    v.parse("example".to_string()).unwrap()
}

} // verus!
