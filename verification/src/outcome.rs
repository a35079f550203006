//! Vocabulary for speaking of what a run gives and of what it has read.

use crate::Parser;
use vstd::prelude::*;

verus! {

/// Every run of `p` on `input` succeeds, and with `value` and `rest` only.
pub open spec fn only_produces<P: Parser<A>, A>(
    p: P,
    input: Seq<char>,
    value: A,
    rest: Seq<char>,
) -> bool {
    &&& forall|e: Seq<char>| !#[trigger] p.fails_with(input, e)
    &&& forall|v: A, r: Seq<char>| #[trigger] p.produces(input, v, r) ==> v == value && r == rest
}

/// Every run of `p` on `input` fails, and with `error` only.
pub open spec fn only_fails_with<P: Parser<A>, A>(
    p: P,
    input: Seq<char>,
    error: Seq<char>,
) -> bool {
    &&& forall|v: A, r: Seq<char>| !#[trigger] p.produces(input, v, r)
    &&& forall|e: Seq<char>| #[trigger] p.fails_with(input, e) ==> e == error
}

/// Whether cloning `v` can only give `v` back.
///
/// This holds of the integers, `bool`, `char`, `String` and of every type
/// whose `clone` promises a result equal to its argument.
pub open spec fn clones_exactly<A: Clone>(v: A) -> bool {
    forall|c: A| #[trigger] cloned(v, c) ==> c == v
}

/// Whatever `p` may produce, it leaves a suffix of what it was given.
pub open spec fn leaves_suffixes<P: Parser<A>, A>(p: P) -> bool {
    forall|input: Seq<char>, value: A, rest: Seq<char>| #[trigger]
        p.produces(input, value, rest) ==> rest.is_suffix_of(input)
}

/// The part of `input` that was read when `rest` is what was left of it.
pub open spec fn consumed(input: Seq<char>, rest: Seq<char>) -> Seq<char>
    recommends
        rest.is_suffix_of(input),
{
    input.subrange(0, input.len() - rest.len())
}

/// Reading in two steps reads the concatenation of what each step read:
/// if `mid` is what the first step left of `input` and `rest` is what the
/// second left of `mid`, then `rest` is a suffix of `input`, and the text
/// consumed overall is what the first step consumed followed by what the
/// second did.
pub proof fn lemma_consumed_in_two_steps(input: Seq<char>, mid: Seq<char>, rest: Seq<char>)
    requires
        mid.is_suffix_of(input),
        rest.is_suffix_of(mid),
    ensures
        rest.is_suffix_of(input),
        consumed(input, rest) == consumed(input, mid) + consumed(mid, rest),
        consumed(input, rest) + rest == input,
{
    assert(consumed(input, rest) =~= consumed(input, mid) + consumed(mid, rest));
    assert(consumed(input, rest) + rest =~= input);
}

} // verus!
