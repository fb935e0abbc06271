//! `Option` as a functor and an applicative functor: absence short-circuits.
use vstd::prelude::*;

use crate::short_circuit::{ap_marked, map_marked};
use crate::{Applicative, Functor};

verus! {

/// An option in the marked form: a present value held, absence marked by `()`.
fn to_marked<T>(o: Option<T>) -> (r: Result<T, ()>)
    ensures
        match o {
            Some(v) => r == Ok::<T, ()>(v),
            None => r == Err::<T, ()>(()),
        },
{
    match o {
        Some(v) => Ok(v),
        None => Err(()),
    }
}

/// Back from the marked form: a held value is present, the marker is absence.
fn from_marked<T>(r: Result<T, ()>) -> (o: Option<T>)
    ensures
        match r {
            Ok(v) => o == Some(v),
            Err(_) => o is None,
        },
{
    match r {
        Ok(v) => Some(v),
        Err(_) => None,
    }
}

impl<T> Functor<T> for Option<T> {
    open spec fn map_ready(self, pre: spec_fn(T) -> bool) -> bool {
        match self {
            Some(v) => pre(v),
            None => true,
        }
    }

    open spec fn map_result(self, post: spec_fn(T, T) -> bool, r: Self) -> bool {
        match self {
            Some(v) => r is Some && post(v, r->Some_0),
            None => r is None,
        }
    }

    fn map<F>(self, f: F) -> (r: Self) where F: Fn(T) -> T {
        from_marked(map_marked(to_marked(self), f))
    }
}

impl<F, T, U> Applicative<T, U, Option<T>, Option<U>> for Option<F> where F: Fn(T) -> U {
    open spec fn ap_ready(self, other: Option<T>) -> bool {
        match (self, other) {
            (Some(f), Some(v)) => f.requires((v,)),
            _ => true,
        }
    }

    open spec fn ap_result(self, other: Option<T>, r: Option<U>) -> bool {
        match (self, other) {
            (Some(f), Some(v)) => r is Some && f.ensures((v,), r->Some_0),
            _ => r is None,
        }
    }

    fn ap(self, other: Option<T>) -> (r: Option<U>) {
        from_marked(ap_marked(to_marked(self), to_marked(other)))
    }
}

} // verus!
