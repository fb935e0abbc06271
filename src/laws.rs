//! Laws that relate `map` and `ap` on `Option` and `Result`.
//!
//! Each law speaks of the outcomes that the contracts of `Functor::map` and
//! `Applicative::ap` admit, so it holds of every call that meets them.
use vstd::prelude::*;

use crate::short_circuit::{applied, mapped};
use crate::{Applicative, Functor};

verus! {

/// `f` gives one result for each argument.
pub open spec fn is_pure<F: Fn(T) -> U, T, U>(f: F) -> bool {
    forall|x: T, y1: U, y2: U| f.ensures((x,), y1) && f.ensures((x,), y2) ==> y1 == y2
}

/// The outcomes that calling `f` admits.
pub open spec fn outcome_of<F: Fn(T) -> U, T, U>(f: F) -> spec_fn(T, U) -> bool {
    |x: T, y: U| f.ensures((x,), y)
}

/// Applying a wrapped pure function to a wrapped value equals mapping the function over
/// the wrapped value, and each call may be made exactly when the other may.
pub proof fn lemma_option_ap_is_map<F: Fn(T) -> T, T>(
    f: F,
    v: T,
    by_ap: Option<T>,
    by_map: Option<T>,
)
    requires
        is_pure(f),
        Some(f).ap_result(Some(v), by_ap),
        Some(v).map_result(outcome_of(f), by_map),
    ensures
        by_ap == by_map,
        Some(f).ap_ready(Some(v)) <==> Some(v).map_ready(|x: T| f.requires((x,))),
{
}

/// Applying a wrapped pure function to a successful value equals mapping the function
/// over it, and each call may be made exactly when the other may.
pub proof fn lemma_result_ap_is_map<F: Fn(T) -> T, T, E>(
    f: F,
    v: T,
    by_ap: Result<T, E>,
    by_map: Result<T, E>,
)
    requires
        is_pure(f),
        Ok::<F, E>(f).ap_result(Ok(v), by_ap),
        Ok::<T, E>(v).map_result(outcome_of(f), by_map),
    ensures
        by_ap == by_map,
        Ok::<F, E>(f).ap_ready(Ok(v)) <==> Ok::<T, E>(v).map_ready(|x: T| f.requires((x,))),
{
}

/// Applying a held pure function, of any result type, to a held value equals mapping the
/// function over the held value.
pub proof fn lemma_ap_marked_is_map_marked<F: Fn(T) -> U, T, U, M>(
    f: F,
    v: T,
    by_ap: Result<U, M>,
    by_map: Result<U, M>,
)
    requires
        is_pure(f),
        applied(Ok::<F, M>(f), Ok::<T, M>(v), by_ap),
        mapped(Ok::<T, M>(v), f, by_map),
    ensures
        by_ap == by_map,
{
}

/// An absent function applied to any present value gives absence.
pub proof fn lemma_option_left_absorption<F: Fn(T) -> U, T, U>(v: T, r: Option<U>)
    requires
        None::<F>.ap_result(Some(v), r),
    ensures
        r is None,
{
}

/// Any present function applied to an absent value gives absence.
pub proof fn lemma_option_right_absorption<F: Fn(T) -> U, T, U>(f: F, r: Option<U>)
    requires
        Some(f).ap_result(None::<T>, r),
    ensures
        r is None,
{
}

/// A failed function applied to a successful value gives the same failure.
pub proof fn lemma_result_left_absorption<F: Fn(T) -> U, T, U, E>(e: E, v: T, r: Result<U, E>)
    requires
        Err::<F, E>(e).ap_result(Ok(v), r),
    ensures
        r == Err::<U, E>(e),
{
}

/// A successful function applied to a failure gives that failure.
pub proof fn lemma_result_right_absorption<F: Fn(T) -> U, T, U, E>(f: F, e: E, r: Result<U, E>)
    requires
        Ok::<F, E>(f).ap_result(Err(e), r),
    ensures
        r == Err::<U, E>(e),
{
}

/// When both the function and the value failed, the function's failure is the one kept.
pub proof fn lemma_result_first_error_wins<F: Fn(T) -> U, T, U, E>(e1: E, e2: E, r: Result<U, E>)
    requires
        Err::<F, E>(e1).ap_result(Err(e2), r),
    ensures
        r == Err::<U, E>(e1),
{
}

/// Where either side holds no value, `ap` asks nothing of the function, and where the
/// container holds no value, neither does `map`. A function whose precondition never
/// holds can be passed there, so the verified bodies cannot have called it.
pub proof fn lemma_short_circuit_calls_nothing<F: Fn(T) -> U, G: Fn(T) -> T, T, U, E>(
    f: F,
    g: G,
    v: T,
    e1: E,
    e2: E,
)
    ensures
        None::<F>.ap_ready(Some(v)),
        None::<F>.ap_ready(None::<T>),
        Some(f).ap_ready(None::<T>),
        Err::<F, E>(e1).ap_ready(Ok(v)),
        Err::<F, E>(e1).ap_ready(Err(e2)),
        Ok::<F, E>(f).ap_ready(Err(e2)),
        None::<T>.map_ready(|x: T| g.requires((x,))),
        Err::<T, E>(e1).map_ready(|x: T| g.requires((x,))),
{
}

} // verus!
