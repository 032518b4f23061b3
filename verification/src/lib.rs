//! Combinators on `Result`, `Option` and plain values.
//!
//! Each combinator takes its receiver by value and hands back a new value;
//! none keeps state. The contracts speak of the receiver through small spec
//! functions that the traits declare and the impls define.

use vstd::prelude::*;
use vstd::string::*;

pub mod laws;
pub mod log_err;
pub mod value;

pub use crate::log_err::LogErr;
pub use crate::value::MapType;
pub use crate::value::ToEmpty;
pub use crate::value::ToErrIf;
pub use crate::value::ToNoneIf;
pub use crate::value::WrapInto;

verus! {

/// Collapses a `Result` whose two variants hold the same type into that type.
pub trait MergeOkErr<T> {
    /// The value that the receiver carries, whichever variant carries it.
    spec fn merged(self) -> T;

    /// Returns the carried value, be it the success or the failure.
    fn merge_ok_err(self) -> (value: T)
        ensures
            value == self.merged(),
    ;
}

impl<T> MergeOkErr<T> for Result<T, T> {
    open spec fn merged(self) -> T {
        match self {
            Ok(value) => value,
            Err(value) => value,
        }
    }

    fn merge_ok_err(self) -> (value: T) {
        match self {
            Ok(value) => value,
            Err(value) => value,
        }
    }
}

/// Replaces a failure by what a producer returns, without looking at it.
pub trait MapErrBy<T, N> {
    /// The success value, where the receiver holds one.
    spec fn success(self) -> Option<T>;

    /// A success passes through. A failure is dropped and `f` is called for
    /// its replacement. `f` need only be callable where the receiver is a
    /// failure, so it is not called on a success.
    fn map_err_by<F: Fn() -> N>(self, f: F) -> (outcome: Result<T, N>)
        requires
            self.success() is None ==> f.requires(()),
        ensures
            self.success() matches Some(value) ==> outcome == Ok::<T, N>(value),
            self.success() is None ==> outcome is Err && f.ensures((), outcome->Err_0),
    ;
}

impl<T, E, N> MapErrBy<T, N> for Result<T, E> {
    open spec fn success(self) -> Option<T> {
        match self {
            Ok(value) => Some(value),
            Err(_) => None,
        }
    }

    fn map_err_by<F: Fn() -> N>(self, f: F) -> (outcome: Result<T, N>) {
        match self {
            Ok(value) => Ok(value),
            Err(_) => Err(f()),
        }
    }
}

/// Replaces a failure by its text.
pub trait MapErrToString<T> {
    /// Whether `outcome` is the receiver with its failure, if any, rendered
    /// as text.
    spec fn renders_to(self, outcome: Result<T, String>) -> bool;

    /// A success passes through. A failure gives way to the `String` that
    /// `to_string` makes of it.
    fn map_err_to_str(self) -> (outcome: Result<T, String>)
        ensures
            self.renders_to(outcome),
    ;
}

impl<T, E: core::fmt::Display> MapErrToString<T> for Result<T, E> {
    open spec fn renders_to(self, outcome: Result<T, String>) -> bool {
        match self {
            Ok(value) => outcome == Ok::<T, String>(value),
            Err(e) => outcome matches Err(text) && to_string_from_display_ensures::<E>(&e, text),
        }
    }

    fn map_err_to_str(self) -> (outcome: Result<T, String>) {
        match self {
            Ok(value) => Ok(value),
            Err(e) => Err(e.to_string()),
        }
    }
}

/// Shows a failure to an observer and hands the receiver back.
pub trait PassErrWith: Sized {
    type Error;

    /// The failure value, where the receiver holds one.
    spec fn failure(self) -> Option<Self::Error>;

    /// Returns the receiver as it came. Where it is a failure, `f` has been
    /// called on that failure. `f` need only be callable on the failure that
    /// the receiver holds, so it is not called on a success.
    fn pass_err_with<F: Fn(&Self::Error)>(self, f: F) -> (outcome: Self)
        requires
            self.failure() matches Some(e) ==> f.requires((&e,)),
        ensures
            outcome == self,
            self.failure() matches Some(e) ==> f.ensures((&e,), ()),
    ;
}

impl<T, E> PassErrWith for Result<T, E> {
    type Error = E;

    open spec fn failure(self) -> Option<E> {
        match self {
            Ok(_) => None,
            Err(e) => Some(e),
        }
    }

    fn pass_err_with<F: Fn(&E)>(self, f: F) -> (outcome: Self) {
        if let Err(e) = &self {
            f(e)
        }
        self
    }
}

} // verus!
