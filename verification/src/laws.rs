//! What holds between the combinators, proved from their contracts.
//!
//! A law about a call is stated over `call_ensures`: it holds of every value
//! that the call can return.

use vstd::prelude::*;
use crate::MergeOkErr;
use crate::value::WrapInto;

verus! {

/// Merging gives the carried value, whether it came as a success or as a
/// failure.
pub proof fn merge_gives_the_carried_value<T>(v: T)
    ensures
        Ok::<T, T>(v).merged() == v,
        Err::<T, T>(v).merged() == v,
        forall|merged: T| #[trigger]
            call_ensures(<Result<T, T> as MergeOkErr<T>>::merge_ok_err, (Ok::<T, T>(v),), merged)
                ==> merged == v,
        forall|merged: T| #[trigger]
            call_ensures(<Result<T, T> as MergeOkErr<T>>::merge_ok_err, (Err::<T, T>(v),), merged)
                ==> merged == v,
{
}

/// A value wrapped as a success, with the failure type taken to be the
/// value's own, merges back into itself: whatever `wrap_into_success` returns
/// for `v`, `merge_ok_err` returns `v` for that.
pub proof fn wrap_then_merge_is_identity<V>(v: V)
    ensures
        forall|wrapped: Result<V, V>, merged: V|
            call_ensures(<V as WrapInto>::wrap_into_success::<V>, (v,), wrapped)
                && #[trigger] call_ensures(
                <Result<V, V> as MergeOkErr<V>>::merge_ok_err,
                (wrapped,),
                merged,
            ) ==> merged == v,
{
}

/// The same for a value wrapped as a failure, with the success type taken to
/// be the value's own.
pub proof fn wrap_as_failure_then_merge_is_identity<V>(v: V)
    ensures
        forall|wrapped: Result<V, V>, merged: V|
            call_ensures(<V as WrapInto>::wrap_into_failure::<V>, (v,), wrapped)
                && #[trigger] call_ensures(
                <Result<V, V> as MergeOkErr<V>>::merge_ok_err,
                (wrapped,),
                merged,
            ) ==> merged == v,
{
}

} // verus!
