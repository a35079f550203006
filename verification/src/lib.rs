//! A small core of parser combinators.
//!
//! A parser reads a prefix of a string and either produces a value together
//! with the text it left unread, or fails with a message. Two leaves
//! ([`Succeed`], [`Fail`]) and two combinators ([`SeqParser`], [`MapParser`])
//! implement the shared [`Parser`] capability. Each is specified by the
//! relations that the trait declares and proved against them; the laws that
//! relate them are in [`laws`].
//!
//! To reason about a tree of combinators, unfold the relations of its nodes
//! from the root down. For a tree of leaves and sequences the verifier does
//! so by itself. Where a node holds a closure or a named function, state the
//! node's relations with [`laws::lemma_map_meaning`] or
//! [`laws::lemma_seq_meaning`] before `parse` is called, as
//! [`demo::example`] does.

pub mod demo;
pub mod laws;
pub mod outcome;

pub use demo::example;

use std::marker::PhantomData;
use vstd::prelude::*;

verus! {

/// A parsing step that yields values of type `A`.
///
/// A step is described by two relations over the text it is given: what it
/// may produce, and with which messages it may fail. `parse` always returns
/// an outcome that one of the two allows. The relations say "may" because a
/// step can hold a transformation, or clone a value, of which only a
/// postcondition is known; a step whose parts are exact has one outcome per
/// input (see [`outcome::only_produces`] and [`outcome::only_fails_with`]).
pub trait Parser<A> {
    /// The inputs on which `parse` may be called: those on which every part
    /// that a run reaches may itself be called. Every input, unless an
    /// implementation says otherwise.
    open spec fn defined_on(&self, input: Seq<char>) -> bool {
        true
    }

    /// Whether a run on `input` may succeed with `value`, leaving `rest`
    /// unread. Unless an implementation says more, any value and any suffix
    /// of the input.
    open spec fn produces(&self, input: Seq<char>, value: A, rest: Seq<char>) -> bool {
        rest.is_suffix_of(input)
    }

    /// Whether a run on `input` may fail with the message `error`. Unless an
    /// implementation says more, any message.
    open spec fn fails_with(&self, input: Seq<char>, error: Seq<char>) -> bool {
        true
    }

    /// Runs the parser on `input`. A successful run hands back, beside the
    /// value, the part of `input` that it did not read.
    fn parse(&self, input: String) -> (res: Result<(A, String), String>)
        requires
            self.defined_on(input@),
        ensures
            match res {
                Ok((value, rest)) => self.produces(input@, value, rest@) && rest@.is_suffix_of(
                    input@,
                ),
                Err(error) => self.fails_with(input@, error@),
            },
    ;

    /// Builds the parser that runs `self` and then `other` on what `self`
    /// left unread. Nothing is parsed here. The result is a parser where
    /// `other` is one; what it does is spelled out by
    /// [`laws::lemma_seq_meaning`].
    fn seq<That>(self, other: That) -> (res: SeqParser<Self, That>) where Self: Sized
        ensures
            res.first() == self,
            res.second() == other,
    {
        SeqParser { first: self, second: other }
    }

    /// Builds the parser that runs `self` and applies `f` to the value it
    /// produced. Nothing is parsed here, and `f` is not called. What the
    /// result does is spelled out by [`laws::lemma_map_meaning`].
    fn map<B, F>(self, f: F) -> (res: MapParser<Self, F, A, B>) where
        Self: Sized,
        F: Fn(A) -> B,

        ensures
            res.inner() == self,
            res.func() == f,
    {
        MapParser { parser: self, map: f, a: PhantomData, b: PhantomData }
    }
}

/// A parser that reads nothing and yields a clone of the value it holds.
pub struct Succeed<A> {
    value: A,
}

impl<A> Succeed<A> {
    /// The value this parser hands out.
    pub closed spec fn value(self) -> A {
        self.value
    }
}

impl<A: Clone> Parser<A> for Succeed<A> {
    open spec fn defined_on(&self, input: Seq<char>) -> bool {
        true
    }

    open spec fn produces(&self, input: Seq<char>, value: A, rest: Seq<char>) -> bool {
        cloned(self.value(), value) && rest == input
    }

    open spec fn fails_with(&self, input: Seq<char>, error: Seq<char>) -> bool {
        false
    }

    /// Succeeds on every input with a clone of the value, and hands the
    /// input back whole.
    fn parse(&self, input: String) -> (res: Result<(A, String), String>)
        ensures
            res matches Ok((value, rest)) && cloned(self.value(), value) && rest@ == input@,
    {
        Ok((self.value.clone(), input))
    }
}

/// A parser that reads nothing and fails with the message it holds.
///
/// `A` is the type of the value it would have produced. It holds no such
/// value; the parameter only lets it stand where a parser of `A` is expected.
pub struct Fail<A> {
    error: String,
    phantom: PhantomData<A>,
}

impl<A> Fail<A> {
    /// The message this parser fails with.
    pub closed spec fn message(self) -> Seq<char> {
        self.error@
    }
}

impl<A> Parser<A> for Fail<A> {
    open spec fn defined_on(&self, input: Seq<char>) -> bool {
        true
    }

    open spec fn produces(&self, input: Seq<char>, value: A, rest: Seq<char>) -> bool {
        false
    }

    open spec fn fails_with(&self, input: Seq<char>, error: Seq<char>) -> bool {
        error == self.message()
    }

    /// Fails on every input with a copy of the message.
    fn parse(&self, input: String) -> (res: Result<(A, String), String>)
        ensures
            res matches Err(error) && error@ == self.message(),
    {
        Err(self.error.clone())
    }
}

/// The parser that runs `first`, then `second` on what `first` left unread,
/// and pairs the two values.
pub struct SeqParser<L, R> {
    first: L,
    second: R,
}

impl<L, R> SeqParser<L, R> {
    /// The parser that runs first.
    pub closed spec fn first(self) -> L {
        self.first
    }

    /// The parser that runs on what the first one left.
    pub closed spec fn second(self) -> R {
        self.second
    }
}

/// A sequence may be run on `input` where `first` may be, and `second` may be
/// run on whatever `first` can leave. Nothing is asked of `second` on inputs
/// from which `first` cannot succeed.
pub open spec fn seq_defined_on<L: Parser<A>, R: Parser<B>, A, B>(
    first: L,
    second: R,
    input: Seq<char>,
) -> bool {
    &&& first.defined_on(input)
    &&& forall|a: A, mid: Seq<char>| #[trigger]
        first.produces(input, a, mid) ==> second.defined_on(mid)
}

/// `first` may produce `a` from `input` and leave some text from which
/// `second` may produce `b` and leave `rest`.
pub open spec fn seq_produces<L: Parser<A>, R: Parser<B>, A, B>(
    first: L,
    second: R,
    input: Seq<char>,
    a: A,
    b: B,
    rest: Seq<char>,
) -> bool {
    exists|mid: Seq<char>|
        #![trigger first.produces(input, a, mid)]
        first.produces(input, a, mid) && second.produces(mid, b, rest)
}

/// Either `first` may fail with `error` on `input`, or it may succeed and
/// leave some text on which `second` may fail with `error`.
pub open spec fn seq_fails_with<L: Parser<A>, R: Parser<B>, A, B>(
    first: L,
    second: R,
    input: Seq<char>,
    error: Seq<char>,
) -> bool {
    ||| first.fails_with(input, error)
    ||| exists|a: A, mid: Seq<char>|
        #![trigger first.produces(input, a, mid)]
        first.produces(input, a, mid) && second.fails_with(mid, error)
}

impl<L, R, A, B> Parser<(A, B)> for SeqParser<L, R> where L: Parser<A>, R: Parser<B> {
    open spec fn defined_on(&self, input: Seq<char>) -> bool {
        seq_defined_on(self.first(), self.second(), input)
    }

    open spec fn produces(&self, input: Seq<char>, value: (A, B), rest: Seq<char>) -> bool {
        seq_produces(self.first(), self.second(), input, value.0, value.1, rest)
    }

    open spec fn fails_with(&self, input: Seq<char>, error: Seq<char>) -> bool {
        seq_fails_with(self.first(), self.second(), input, error)
    }

    /// Runs `first` on `input`; if it fails, fails with its message and
    /// leaves `second` alone. Otherwise runs `second` on what `first` left;
    /// if that fails, fails with its message, and else gives both values and
    /// what `second` left.
    fn parse(&self, input: String) -> (res: Result<((A, B), String), String>)
        ensures
            match res {
                Ok(((a, b), rest)) => seq_produces(
                    self.first(),
                    self.second(),
                    input@,
                    a,
                    b,
                    rest@,
                ),
                Err(error) => seq_fails_with(self.first(), self.second(), input@, error@),
            },
    {
        let ghost whole = input@;
        let (a, mid) = self.first.parse(input)?;
        let ghost middle = mid@;
        let (b, rest) = self.second.parse(mid)?;
        proof {
            outcome::lemma_consumed_in_two_steps(whole, middle, rest@);
        }
        Ok(((a, b), rest))
    }
}

/// The parser that runs `parser` and applies `map` to the value it produced.
#[verifier::reject_recursive_types(A)]
#[verifier::reject_recursive_types(B)]
pub struct MapParser<P, F, A, B> where F: Fn(A) -> B {
    parser: P,
    map: F,
    a: PhantomData<A>,
    b: PhantomData<B>,
}

impl<P, F, A, B> MapParser<P, F, A, B> where F: Fn(A) -> B {
    /// The parser whose value is transformed.
    pub closed spec fn inner(self) -> P {
        self.parser
    }

    /// The transformation.
    pub closed spec fn func(self) -> F {
        self.map
    }
}

/// A mapped parser may be run on `input` where `inner` may be, and `f` may be
/// called on every value `inner` can produce from it. Nothing is asked of `f`
/// on inputs from which `inner` cannot succeed.
pub open spec fn map_defined_on<P: Parser<A>, F: Fn(A) -> B, A, B>(
    inner: P,
    f: F,
    input: Seq<char>,
) -> bool {
    &&& inner.defined_on(input)
    &&& forall|a: A, rest: Seq<char>| #[trigger]
        inner.produces(input, a, rest) ==> call_requires(f, (a,))
}

/// `inner` may produce some value from `input`, leaving `rest`, on which `f`
/// may return `value`.
pub open spec fn map_produces<P: Parser<A>, F: Fn(A) -> B, A, B>(
    inner: P,
    f: F,
    input: Seq<char>,
    value: B,
    rest: Seq<char>,
) -> bool {
    exists|a: A|
        #![trigger inner.produces(input, a, rest)]
        inner.produces(input, a, rest) && call_ensures(f, (a,), value)
}

impl<P, F, A, B> Parser<B> for MapParser<P, F, A, B> where P: Parser<A>, F: Fn(A) -> B {
    open spec fn defined_on(&self, input: Seq<char>) -> bool {
        map_defined_on(self.inner(), self.func(), input)
    }

    open spec fn produces(&self, input: Seq<char>, value: B, rest: Seq<char>) -> bool {
        map_produces(self.inner(), self.func(), input, value, rest)
    }

    open spec fn fails_with(&self, input: Seq<char>, error: Seq<char>) -> bool {
        self.inner().fails_with(input, error)
    }

    /// Runs the inner parser on `input`; if it fails, fails with its message
    /// and leaves the transformation alone. Otherwise gives the value
    /// transformed, and what the inner parser left.
    fn parse(&self, input: String) -> (res: Result<(B, String), String>)
        ensures
            match res {
                Ok((value, rest)) => map_produces(
                    self.inner(),
                    self.func(),
                    input@,
                    value,
                    rest@,
                ),
                Err(error) => self.inner().fails_with(input@, error@),
            },
    {
        let (a, rest) = self.parser.parse(input)?;
        Ok(((self.map)(a), rest))
    }
}

/// Builds the parser that reads nothing and always succeeds with `value`.
pub fn succeed<A>(value: A) -> (res: Succeed<A>)
    ensures
        res.value() == value,
{
    Succeed { value }
}

/// Builds the parser that reads nothing and always fails with `error`,
/// for any value type `A`.
pub fn fail<A>(error: String) -> (res: Fail<A>)
    ensures
        res.message() == error@,
{
    Fail { error, phantom: PhantomData }
}

/// Builds the parser that runs `parser` and applies `f` to the value it
/// produced. Nothing is parsed here, and `f` is not called.
pub fn map<P, F, A, B>(parser: P, f: F) -> (res: impl Parser<B>) where
    P: Parser<A>,
    F: Fn(A) -> B,

    ensures
        forall|s: Seq<char>| #[trigger] res.defined_on(s) <==> map_defined_on(parser, f, s),
        forall|s: Seq<char>, v: B, r: Seq<char>| #[trigger]
            res.produces(s, v, r) <==> map_produces(parser, f, s, v, r),
        forall|s: Seq<char>, e: Seq<char>| #[trigger]
            res.fails_with(s, e) <==> parser.fails_with(s, e),
{
    MapParser { parser, map: f, a: PhantomData, b: PhantomData }
}

} // verus!
