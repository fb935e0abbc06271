//! `Result` as a functor and an applicative functor: the first error short-circuits.
use vstd::prelude::*;

use crate::short_circuit::{ap_marked, map_marked};
use crate::{Applicative, Functor};

verus! {

impl<T, E> Functor<T> for Result<T, E> {
    open spec fn map_ready(self, pre: spec_fn(T) -> bool) -> bool {
        match self {
            Ok(v) => pre(v),
            Err(_) => true,
        }
    }

    open spec fn map_result(self, post: spec_fn(T, T) -> bool, r: Self) -> bool {
        match self {
            Ok(v) => r is Ok && post(v, r->Ok_0),
            Err(e) => r == Err::<T, E>(e),
        }
    }

    fn map<F>(self, f: F) -> (r: Self) where F: Fn(T) -> T {
        map_marked(self, f)
    }
}

impl<F, T, U, E> Applicative<T, U, Result<T, E>, Result<U, E>> for Result<F, E> where
    F: Fn(T) -> U,
 {
    open spec fn ap_ready(self, other: Result<T, E>) -> bool {
        match (self, other) {
            (Ok(f), Ok(v)) => f.requires((v,)),
            _ => true,
        }
    }

    open spec fn ap_result(self, other: Result<T, E>, r: Result<U, E>) -> bool {
        match (self, other) {
            (Ok(f), Ok(v)) => r is Ok && f.ensures((v,), r->Ok_0),
            (Ok(_), Err(e)) => r == Err::<U, E>(e),
            (Err(e), _) => r == Err::<U, E>(e),
        }
    }

    fn ap(self, other: Result<T, E>) -> (r: Result<U, E>) {
        ap_marked(self, other)
    }
}

} // verus!
