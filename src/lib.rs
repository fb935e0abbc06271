//! Functors and applicative functors over `Option` and `Result`.
//!
//! `Option` and `Result` implement both traits. Their contracts are exact: a present
//! value (`Some`, `Ok`) is transformed by the function, and absence or an error passes
//! through unchanged without the function being called. The laws that relate the two
//! operations are proved in [`laws`].
use vstd::prelude::*;

pub mod laws;
pub mod short_circuit;
mod option;
mod result;

verus! {

/// A container whose held value can be transformed without changing its shape.
///
/// `map` takes a function from the held type to itself; `short_circuit::map_marked` is
/// the same operation for a function that changes the type.
pub trait Functor<T>: Sized {
    /// `pre` holds of every value that `self` holds.
    spec fn map_ready(self, pre: spec_fn(T) -> bool) -> bool;

    /// `r` is `self` with each held value `v` replaced by some `w` with `post(v, w)`.
    spec fn map_result(self, post: spec_fn(T, T) -> bool, r: Self) -> bool;

    /// Transforms the held value with `f`, called once; a container that holds no value
    /// comes back unchanged and `f` is not called.
    fn map<F>(self, f: F) -> (r: Self) where F: Fn(T) -> T
        requires
            self.map_ready(|v: T| f.requires((v,))),
        ensures
            self.map_result(|v: T, w: T| f.ensures((v,), w), r),
    ;
}

/// A container of functions that can be applied to a container of values of the same kind.
///
/// `self` is inspected first: when it holds no function, its absence or error is the
/// result and `other` is not looked at. Otherwise the result is `other`'s absence or
/// error, or the held function applied once to the held value.
pub trait Applicative<T, U, A: Functor<T>, B: Functor<U>>: Sized {
    /// The held function may be called on the held value, where both are present.
    spec fn ap_ready(self, other: A) -> bool;

    /// `r` is a possible outcome of applying `self` to `other`.
    spec fn ap_result(self, other: A, r: B) -> bool;

    /// Applies the function that `self` holds to the value that `other` holds.
    fn ap(self, other: A) -> (r: B)
        requires
            self.ap_ready(other),
        ensures
            self.ap_result(other, r),
    ;
}

} // verus!
