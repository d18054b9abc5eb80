//! Turning a fixed-arity pure constructor into a chain of single-argument
//! applications.
//!
//! `curry2` and `curry3` are generic over the constructor's argument and
//! result types. Each `apply` fixes one more argument and returns a new,
//! reusable value; the last `apply` calls the constructor with everything
//! captured so far. No stage holds hidden mutable state, so the same partial
//! chain can be applied again and again.

use vstd::prelude::*;

verus! {

/// A two-argument function awaiting its first argument.
#[derive(Clone, Copy)]
pub struct Curried2<F> {
    pub f: F,
}

/// A two-argument function whose first argument has been fixed.
#[derive(Clone, Copy)]
pub struct Curried2One<F, A> {
    pub f: F,
    pub a: A,
}

/// Reshapes a two-argument function into a chain of two single-argument
/// applications.
pub fn curry2<F>(f: F) -> (chain: Curried2<F>)
    ensures
        chain.f == f,
{
    Curried2 { f }
}

impl<F> Curried2<F> {
    /// Fixes the first argument, yielding a value awaiting the second.
    pub fn apply<A>(self, a: A) -> (next: Curried2One<F, A>)
        ensures
            next.f == self.f,
            next.a == a,
    {
        Curried2One { f: self.f, a }
    }
}

impl<F, A> Curried2One<F, A> {
    /// Supplies the last argument and calls the captured function; the
    /// result is whatever that function returns for the two arguments.
    pub fn apply<B, R>(self, b: B) -> (result: R) where F: Fn(A, B) -> R
        requires
            call_requires(self.f, (self.a, b)),
        ensures
            call_ensures(self.f, (self.a, b), result),
    {
        (self.f)(self.a, b)
    }
}

/// A three-argument function awaiting its first argument.
#[derive(Clone, Copy)]
pub struct Curried3<F> {
    pub f: F,
}

/// A three-argument function whose first argument has been fixed.
#[derive(Clone, Copy)]
pub struct Curried3One<F, A> {
    pub f: F,
    pub a: A,
}

/// A three-argument function whose first two arguments have been fixed.
#[derive(Clone, Copy)]
pub struct Curried3Two<F, A, B> {
    pub f: F,
    pub a: A,
    pub b: B,
}

/// Reshapes a three-argument function into a chain of three single-argument
/// applications.
pub fn curry3<F>(f: F) -> (chain: Curried3<F>)
    ensures
        chain.f == f,
{
    Curried3 { f }
}

impl<F> Curried3<F> {
    /// Fixes the first argument, yielding a value awaiting the second.
    pub fn apply<A>(self, a: A) -> (next: Curried3One<F, A>)
        ensures
            next.f == self.f,
            next.a == a,
    {
        Curried3One { f: self.f, a }
    }
}

impl<F, A> Curried3One<F, A> {
    /// Fixes the second argument, yielding a value awaiting the third.
    pub fn apply<B>(self, b: B) -> (next: Curried3Two<F, A, B>)
        ensures
            next.f == self.f,
            next.a == self.a,
            next.b == b,
    {
        Curried3Two { f: self.f, a: self.a, b }
    }
}

impl<F, A, B> Curried3Two<F, A, B> {
    /// Supplies the last argument and calls the captured function; the
    /// result is whatever that function returns for the three arguments.
    pub fn apply<C, R>(self, c: C) -> (result: R) where F: Fn(A, B, C) -> R
        requires
            call_requires(self.f, (self.a, self.b, c)),
        ensures
            call_ensures(self.f, (self.a, self.b, c), result),
    {
        (self.f)(self.a, self.b, c)
    }
}

} // verus!
