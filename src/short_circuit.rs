//! The one algorithm behind `map` and `ap`, written once over a container that either
//! holds a value or carries a marker of its absence (`Result<T, M>`).
//!
//! Each container kind supplies the rest by moving to and from this form: `Result` is
//! already in it, and `Option` uses the marker `()` for absence.
use vstd::prelude::*;

verus! {

/// `r` is `a` with a held value `v` replaced by an outcome of `f(v)`, or `a`'s marker.
pub open spec fn mapped<F: Fn(T) -> U, T, U, M>(a: Result<T, M>, f: F, r: Result<U, M>) -> bool {
    match a {
        Ok(v) => r is Ok && f.ensures((v,), r->Ok_0),
        Err(m) => r == Err::<U, M>(m),
    }
}

/// `r` is an outcome of the function that `af` holds on the value that `av` holds, or the
/// first marker met, `af`'s before `av`'s.
pub open spec fn applied<F: Fn(T) -> U, T, U, M>(
    af: Result<F, M>,
    av: Result<T, M>,
    r: Result<U, M>,
) -> bool {
    match af {
        Ok(f) => mapped(av, f, r),
        Err(m) => r == Err::<U, M>(m),
    }
}

/// Replaces a held value `v` by `f(v)`; a marker passes through and `f` is not called.
pub fn map_marked<F, T, U, M>(a: Result<T, M>, f: F) -> (r: Result<U, M>) where F: Fn(T) -> U
    requires
        a matches Ok(v) ==> f.requires((v,)),
    ensures
        mapped(a, f, r),
{
    match a {
        Ok(v) => Ok(f(v)),
        Err(m) => Err(m),
    }
}

/// Applies a held function to a held value. The function's side is looked at first: its
/// marker, if any, is the result and the value's side is not looked at. Then the value's
/// marker, if any, is the result. Only where both hold is the function called, once.
pub fn ap_marked<F, T, U, M>(af: Result<F, M>, av: Result<T, M>) -> (r: Result<U, M>) where
    F: Fn(T) -> U,
    requires
        (af, av) matches (Ok(f), Ok(v)) ==> f.requires((v,)),
    ensures
        applied(af, av, r),
{
    match af {
        Ok(f) => map_marked(av, f),
        Err(m) => Err(m),
    }
}

} // verus!
