//! Laws that relate the combinators.
//!
//! Each law is stated twice over: for the relations `produces` and
//! `fails_with` themselves, and for parsers that have a single outcome on the
//! input ([`only_produces`], [`only_fails_with`]), where it reads as an
//! equation between the results of two runs. A transformation enters a law
//! through what it ensures: a pure one through the function that it
//! [`computes`].

use crate::outcome::{
    clones_exactly,
    consumed,
    leaves_suffixes,
    lemma_consumed_in_two_steps,
    only_fails_with,
    only_produces,
};
use crate::{
    map_defined_on,
    map_produces,
    seq_defined_on,
    seq_fails_with,
    seq_produces,
    Fail,
    MapParser,
    Parser,
    SeqParser,
    Succeed,
};
use vstd::prelude::*;

verus! {

/// Whatever `f` returns on `a` is `model(a)`: `f` is a pure function, and
/// `model` is the function it computes.
pub open spec fn computes<F: Fn(A) -> B, A, B>(f: F, model: spec_fn(A) -> B) -> bool {
    forall|a: A, b: B| #[trigger] call_ensures(f, (a,), b) ==> b == model(a)
}

/// A `Succeed` may be run on every input, never fails and leaves the input
/// untouched, which is a suffix of itself. Where cloning its value is exact,
/// every run on every input gives that value and the whole input back, so
/// repeated runs agree.
pub proof fn lemma_succeed_is_pure<A: Clone>(p: Succeed<A>, input: Seq<char>)
    ensures
        p.defined_on(input),
        p.produces(input, p.value(), input),
        forall|e: Seq<char>| !p.fails_with(input, e),
        forall|v: A, r: Seq<char>|
            p.produces(input, v, r) <==> cloned(p.value(), v) && r == input,
        clones_exactly(p.value()) ==> only_produces(p, input, p.value(), input),
        leaves_suffixes(p),
{
    assert forall|s: Seq<char>, v: A, r: Seq<char>| #[trigger]
        p.produces(s, v, r) implies r.is_suffix_of(s) by {
        assert(s.subrange(0, s.len() as int) =~= s);
    }
}

/// A `Fail` may be run on every input and fails on each with its own message
/// and no other, whatever value type it declares. As it produces nothing, it
/// leaves nothing that is not a suffix.
pub proof fn lemma_fail_is_total<A>(p: Fail<A>, input: Seq<char>)
    ensures
        p.defined_on(input),
        p.fails_with(input, p.message()),
        forall|v: A, r: Seq<char>| !p.produces(input, v, r),
        forall|e: Seq<char>| p.fails_with(input, e) <==> e == p.message(),
        only_fails_with(p, input, p.message()),
        leaves_suffixes(p),
{
}

/// A sequence leaves suffixes where both of its parts do.
pub proof fn lemma_seq_leaves_suffixes<L: Parser<A>, R: Parser<B>, A, B>(p: SeqParser<L, R>)
    requires
        leaves_suffixes(p.first()),
        leaves_suffixes(p.second()),
    ensures
        leaves_suffixes(p),
{
    assert forall|input: Seq<char>, value: (A, B), rest: Seq<char>| #[trigger]
        p.produces(input, value, rest) implies rest.is_suffix_of(input) by {
        let mid = choose|mid: Seq<char>| #[trigger]
            p.first().produces(input, value.0, mid) && p.second().produces(mid, value.1, rest);
        lemma_consumed_in_two_steps(input, mid, rest);
    }
}

/// A mapped parser leaves suffixes where its inner parser does.
pub proof fn lemma_map_leaves_suffixes<P: Parser<A>, F: Fn(A) -> B, A, B>(
    m: MapParser<P, F, A, B>,
)
    requires
        leaves_suffixes(m.inner()),
    ensures
        leaves_suffixes(m),
{
}

/// A sequence is the composition of its parts, on every input. This holds by
/// definition; it is stated for callers in whose context the definition
/// does not unfold, as happens where a part holds a closure of a concrete type.
pub proof fn lemma_seq_meaning<L: Parser<A>, R: Parser<B>, A, B>(p: SeqParser<L, R>)
    ensures
        forall|s: Seq<char>| #[trigger]
            p.defined_on(s) <==> seq_defined_on(p.first(), p.second(), s),
        forall|s: Seq<char>, v: (A, B), r: Seq<char>| #[trigger]
            p.produces(s, v, r) <==> seq_produces(p.first(), p.second(), s, v.0, v.1, r),
        forall|s: Seq<char>, e: Seq<char>| #[trigger]
            p.fails_with(s, e) <==> seq_fails_with(p.first(), p.second(), s, e),
{
}

/// A failure of the first parser is a failure of the sequence, with the same
/// message. Where the first parser cannot succeed on `input`, the second
/// plays no part: the sequence fails exactly as the first does, and it may
/// be run wherever the first may be, whatever the second parser is.
pub proof fn lemma_seq_short_circuits<L: Parser<A>, R: Parser<B>, A, B>(
    p: SeqParser<L, R>,
    input: Seq<char>,
)
    ensures
        forall|e: Seq<char>| p.first().fails_with(input, e) ==> p.fails_with(input, e),
        (forall|a: A, mid: Seq<char>| !p.first().produces(input, a, mid)) ==> {
            &&& forall|e: Seq<char>| p.fails_with(input, e) <==> p.first().fails_with(input, e)
            &&& forall|v: (A, B), r: Seq<char>| !p.produces(input, v, r)
            &&& p.defined_on(input) <==> p.first().defined_on(input)
        },
        forall|e: Seq<char>|
            only_fails_with(p.first(), input, e) ==> only_fails_with(p, input, e),
{
}

/// Where the first parser produces `a` and leaves `mid`, and the second
/// produces `b` from `mid` and leaves `rest`, the sequence produces `(a, b)`
/// and leaves `rest`, and what it consumed is what the first consumed
/// followed by what the second consumed. Where both parts have that single
/// outcome, so has the sequence; and where the first has it, the sequence
/// may be run as soon as the first may be run on `input` and the second on
/// `mid`.
pub proof fn lemma_seq_threads<L: Parser<A>, R: Parser<B>, A, B>(
    p: SeqParser<L, R>,
    input: Seq<char>,
    a: A,
    mid: Seq<char>,
    b: B,
    rest: Seq<char>,
)
    requires
        p.first().produces(input, a, mid),
        mid.is_suffix_of(input),
        p.second().produces(mid, b, rest),
        rest.is_suffix_of(mid),
    ensures
        p.produces(input, (a, b), rest),
        rest.is_suffix_of(input),
        consumed(input, rest) == consumed(input, mid) + consumed(mid, rest),
        only_produces(p.first(), input, a, mid) && only_produces(p.second(), mid, b, rest)
            ==> only_produces(p, input, (a, b), rest),
        only_produces(p.first(), input, a, mid) && p.first().defined_on(input)
            && p.second().defined_on(mid) ==> p.defined_on(input),
{
    lemma_consumed_in_two_steps(input, mid, rest);
}

/// Where the first parser succeeds on `input` and the second fails on what
/// it left, the sequence fails with the second's message, and what the first
/// produced is dropped.
pub proof fn lemma_seq_second_failure<L: Parser<A>, R: Parser<B>, A, B>(
    p: SeqParser<L, R>,
    input: Seq<char>,
    a: A,
    mid: Seq<char>,
    error: Seq<char>,
)
    requires
        p.first().produces(input, a, mid),
        p.second().fails_with(mid, error),
    ensures
        p.fails_with(input, error),
        only_produces(p.first(), input, a, mid) && only_fails_with(p.second(), mid, error)
            ==> only_fails_with(p, input, error),
{
}

/// A mapped parser is its inner parser followed by the transformation, on
/// every input. This holds by definition; it is stated for callers in whose
/// context the definition does not unfold, as happens where the
/// transformation is a closure of a concrete type.
pub proof fn lemma_map_meaning<P: Parser<A>, F: Fn(A) -> B, A, B>(m: MapParser<P, F, A, B>)
    ensures
        forall|s: Seq<char>| #[trigger]
            m.defined_on(s) <==> map_defined_on(m.inner(), m.func(), s),
        forall|s: Seq<char>, v: B, r: Seq<char>| #[trigger]
            m.produces(s, v, r) <==> map_produces(m.inner(), m.func(), s, v, r),
        forall|s: Seq<char>, e: Seq<char>| #[trigger]
            m.fails_with(s, e) <==> m.inner().fails_with(s, e),
{
}

/// Mapping with a pure function applies it to the value and leaves the rest
/// alone: every success of the mapped parser is a success of the inner one
/// with the value replaced by its image. Where the inner parser has a single
/// outcome, so has the mapped one, and it may be run as soon as the inner
/// one may be run and the function may be called on that one value.
pub proof fn lemma_map_applies<P: Parser<A>, F: Fn(A) -> B, A, B>(
    m: MapParser<P, F, A, B>,
    model: spec_fn(A) -> B,
    input: Seq<char>,
)
    requires
        computes(m.func(), model),
    ensures
        forall|v: B, r: Seq<char>| #[trigger]
            m.produces(input, v, r) ==> exists|a: A| #[trigger]
                m.inner().produces(input, a, r) && v == model(a),
        forall|a: A, r: Seq<char>|
            only_produces(m.inner(), input, a, r) ==> only_produces(m, input, model(a), r),
        forall|a: A, r: Seq<char>|
            only_produces(m.inner(), input, a, r) && m.inner().defined_on(input)
                && call_requires(m.func(), (a,)) ==> m.defined_on(input),
{
}

/// Mapping with the identity changes nothing: every outcome of the mapped
/// parser is an outcome of the inner one, and where the inner parser has a
/// single outcome, the mapped one has the same. Where the function is also
/// known to return its argument whenever it is called, the outcomes of the
/// two parsers are the same.
pub proof fn lemma_map_identity<P: Parser<A>, F: Fn(A) -> A, A>(
    m: MapParser<P, F, A, A>,
    input: Seq<char>,
)
    requires
        computes(m.func(), |a: A| a),
    ensures
        forall|v: A, r: Seq<char>| m.produces(input, v, r) ==> m.inner().produces(input, v, r),
        forall|e: Seq<char>| m.fails_with(input, e) <==> m.inner().fails_with(input, e),
        forall|v: A, r: Seq<char>|
            only_produces(m.inner(), input, v, r) ==> only_produces(m, input, v, r),
        forall|e: Seq<char>|
            only_fails_with(m.inner(), input, e) ==> only_fails_with(m, input, e),
        (forall|a: A| call_ensures(m.func(), (a,), a)) ==> forall|v: A, r: Seq<char>|
            m.produces(input, v, r) <==> m.inner().produces(input, v, r),
{
}

/// Mapping twice is mapping once with the composition. For pure `f` and `g`
/// and a function that computes `g` after `f`, the parser mapped in two steps
/// and the one mapped in one step fail alike, produce only images under the
/// composition of what the inner parser produces, and, where the inner
/// parser has a single outcome, have the same single outcome.
pub proof fn lemma_map_composition<P: Parser<A>, F, G, H, A, B, C>(
    two_steps: MapParser<MapParser<P, F, A, B>, G, B, C>,
    one_step: MapParser<P, H, A, C>,
    f_model: spec_fn(A) -> B,
    g_model: spec_fn(B) -> C,
    input: Seq<char>,
) where F: Fn(A) -> B, G: Fn(B) -> C, H: Fn(A) -> C
    requires
        two_steps.inner().inner() == one_step.inner(),
        computes(two_steps.inner().func(), f_model),
        computes(two_steps.func(), g_model),
        computes(one_step.func(), |a: A| g_model(f_model(a))),
    ensures
        forall|e: Seq<char>| two_steps.fails_with(input, e) <==> one_step.fails_with(input, e),
        forall|v: C, r: Seq<char>| #[trigger]
            two_steps.produces(input, v, r) ==> exists|a: A| #[trigger]
                one_step.inner().produces(input, a, r) && v == g_model(f_model(a)),
        forall|v: C, r: Seq<char>| #[trigger]
            one_step.produces(input, v, r) ==> exists|a: A| #[trigger]
                one_step.inner().produces(input, a, r) && v == g_model(f_model(a)),
        forall|a: A, r: Seq<char>|
            only_produces(one_step.inner(), input, a, r) ==> {
                &&& only_produces(two_steps, input, g_model(f_model(a)), r)
                &&& only_produces(one_step, input, g_model(f_model(a)), r)
            },
        forall|e: Seq<char>|
            only_fails_with(one_step.inner(), input, e) ==> {
                &&& only_fails_with(two_steps, input, e)
                &&& only_fails_with(one_step, input, e)
            },
{
}

/// Whatever `h` returns on a value, `g` may return on something that `f` may
/// return on that value: `h` does nothing that `g` after `f` does not do.
pub open spec fn within_composition<F, G, H, A, B, C>(h: H, f: F, g: G) -> bool where
    F: Fn(A) -> B,
    G: Fn(B) -> C,
    H: Fn(A) -> C,
 {
    forall|a: A, c: C| #[trigger]
        call_ensures(h, (a,), c) ==> exists|b: B| #[trigger]
            call_ensures(f, (a,), b) && call_ensures(g, (b,), c)
}

/// Whatever `g` may return on something that `f` may return on a value, `h`
/// may return on that value: `h` does all that `g` after `f` does.
pub open spec fn covers_composition<F, G, H, A, B, C>(h: H, f: F, g: G) -> bool where
    F: Fn(A) -> B,
    G: Fn(B) -> C,
    H: Fn(A) -> C,
 {
    forall|a: A, b: B, c: C| #[trigger]
        call_ensures(f, (a,), b) && #[trigger] call_ensures(g, (b,), c) ==> call_ensures(
            h,
            (a,),
            c,
        )
}

/// Mapping twice and mapping once with the composition, as relations. The
/// two parsers fail alike. Where the one function does nothing that `g`
/// after `f` does not do, as is the case when it calls the one and then the
/// other, mapping with it gives nothing that mapping with `f` and then with
/// `g` does not give; where it does all that `g` after `f` does, the
/// converse holds.
pub proof fn lemma_map_fusion<P: Parser<A>, F, G, H, A, B, C>(
    two_steps: MapParser<MapParser<P, F, A, B>, G, B, C>,
    one_step: MapParser<P, H, A, C>,
    input: Seq<char>,
) where F: Fn(A) -> B, G: Fn(B) -> C, H: Fn(A) -> C
    requires
        two_steps.inner().inner() == one_step.inner(),
    ensures
        forall|e: Seq<char>| one_step.fails_with(input, e) <==> two_steps.fails_with(input, e),
        within_composition(one_step.func(), two_steps.inner().func(), two_steps.func())
            ==> forall|v: C, r: Seq<char>|
            one_step.produces(input, v, r) ==> two_steps.produces(input, v, r),
        covers_composition(one_step.func(), two_steps.inner().func(), two_steps.func())
            ==> forall|v: C, r: Seq<char>|
            two_steps.produces(input, v, r) ==> one_step.produces(input, v, r),
{
    let f = two_steps.inner().func();
    let g = two_steps.func();
    let h = one_step.func();
    if within_composition(h, f, g) {
        assert forall|v: C, r: Seq<char>| one_step.produces(input, v, r) implies two_steps.produces(
            input,
            v,
            r,
        ) by {
            let a = choose|a: A| #[trigger]
                one_step.inner().produces(input, a, r) && call_ensures(h, (a,), v);
            let b = choose|b: B| #[trigger] call_ensures(f, (a,), b) && call_ensures(g, (b,), v);
            assert(two_steps.inner().produces(input, b, r));
        }
    }
    if covers_composition(h, f, g) {
        assert forall|v: C, r: Seq<char>| two_steps.produces(input, v, r) implies one_step.produces(
            input,
            v,
            r,
        ) by {
            let b = choose|b: B| #[trigger]
                two_steps.inner().produces(input, b, r) && call_ensures(g, (b,), v);
            let a = choose|a: A| #[trigger]
                one_step.inner().produces(input, a, r) && call_ensures(f, (a,), b);
            assert(call_ensures(h, (a,), v));
        }
    }
}

/// A failure of the inner parser is the failure of the mapped parser, with
/// the same message, whatever the transformation is. Where the inner parser
/// cannot succeed on `input`, the transformation plays no part: the mapped
/// parser cannot succeed either, and it may be run wherever the inner one
/// may be.
pub proof fn lemma_map_relays_failure<P: Parser<A>, F: Fn(A) -> B, A, B>(
    m: MapParser<P, F, A, B>,
    input: Seq<char>,
)
    ensures
        forall|e: Seq<char>| m.fails_with(input, e) <==> m.inner().fails_with(input, e),
        (forall|a: A, r: Seq<char>| !m.inner().produces(input, a, r)) ==> {
            &&& forall|v: B, r: Seq<char>| !m.produces(input, v, r)
            &&& m.defined_on(input) <==> m.inner().defined_on(input)
        },
        forall|e: Seq<char>|
            only_fails_with(m.inner(), input, e) ==> only_fails_with(m, input, e),
{
}

} // verus!
