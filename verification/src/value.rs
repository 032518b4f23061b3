//! Combinators on any value: wrapping, transforming, conditional wrapping and
//! discarding.

use vstd::prelude::*;

verus! {

/// Wraps a value into either variant of a `Result`.
pub trait WrapInto: Sized {
    /// The receiver as a success. The failure type is the caller's choice.
    fn wrap_into_success<E>(self) -> (outcome: Result<Self, E>)
        ensures
            outcome == Ok::<Self, E>(self),
    ;

    /// The receiver as a failure. The success type is the caller's choice.
    fn wrap_into_failure<T>(self) -> (outcome: Result<T, Self>)
        ensures
            outcome == Err::<T, Self>(self),
    ;
}

impl<V> WrapInto for V {
    fn wrap_into_success<E>(self) -> (outcome: Result<Self, E>) {
        Ok(self)
    }

    fn wrap_into_failure<T>(self) -> (outcome: Result<T, Self>) {
        Err(self)
    }
}

/// Pipes a value into a function.
pub trait MapType: Sized {
    /// Returns what `f` makes of the receiver, in one call of `f`.
    fn map_type<N, F: FnOnce(Self) -> N>(self, f: F) -> (mapped: N)
        requires
            f.requires((self,)),
        ensures
            f.ensures((self,), mapped),
    ;
}

impl<M> MapType for M {
    fn map_type<N, F: FnOnce(Self) -> N>(self, f: F) -> (mapped: N) {
        f(self)
    }
}

/// Turns a value into an `Option` by a predicate.
pub trait ToNoneIf: Sized {
    /// `None` where `p` holds of the receiver, else the receiver in `Some`.
    /// The answer is that of one call of `p`.
    fn to_none_if<P: FnOnce(&Self) -> bool>(self, p: P) -> (kept: Option<Self>)
        requires
            p.requires((&self,)),
        ensures
            p.ensures((&self,), kept is None),
            kept matches Some(value) ==> value == self,
    ;
}

impl<V> ToNoneIf for V {
    fn to_none_if<P: FnOnce(&Self) -> bool>(self, p: P) -> (kept: Option<Self>) {
        if p(&self) {
            None
        } else {
            Some(self)
        }
    }
}

/// Turns a value into a `Result` by a predicate.
pub trait ToErrIf: Sized {
    /// `Err(failure)` where `p` holds of the receiver, else the receiver in
    /// `Ok`. The answer is that of one call of `p`. `failure` is a value:
    /// the caller has built it before the call, whichever way the predicate
    /// goes.
    fn to_err_if<F, P: FnOnce(&Self) -> bool>(self, p: P, failure: F) -> (outcome: Result<Self, F>)
        requires
            p.requires((&self,)),
        ensures
            p.ensures((&self,), outcome is Err),
            outcome matches Ok(value) ==> value == self,
            outcome matches Err(given) ==> given == failure,
    ;
}

impl<V> ToErrIf for V {
    fn to_err_if<F, P: FnOnce(&Self) -> bool>(self, p: P, failure: F) -> (outcome: Result<Self, F>) {
        if p(&self) {
            Err(failure)
        } else {
            Ok(self)
        }
    }
}

/// Ends a chain of calls by dropping its value.
pub trait ToEmpty: Sized {
    /// Drops the receiver.
    fn to_empty(self);
}

impl<V> ToEmpty for V {
    fn to_empty(self) {
    }
}

} // verus!
