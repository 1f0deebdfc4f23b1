//! Structural match to optional: test a value against a shape, optionally under a
//! guard, and map the parts that the shape binds.
//!
//! A shape is a closure that takes the value apart: `Some(parts)` where the value has
//! the shape, `None` where it has not. For the shape `(Some(x), Some(y))`:
//!
//! ```text
//! let avg = if_matches(
//!     (a, b),
//!     |v| match v { (Some(x), Some(y)) => Some((x, y)), _ => None },
//!     |(x, y)| (x + y) / 2,
//! );
//! ```

use vstd::prelude::*;

verus! {

/// The results that `if_matches` may give: `None` where `shape` does not fit `value`;
/// where it fits with parts `p`, `Some` of what `mapping` gave for `p`.
pub open spec fn mapped_outcome<T, P, R, S, M>(value: T, shape: S, mapping: M, r: Option<R>) -> bool where
    S: FnOnce(T) -> Option<P>,
    M: FnOnce(P) -> R,
 {
    exists|m: Option<P>|
        #[trigger] shape.ensures((value,), m) && match m {
            None => r is None,
            Some(p) => r matches Some(y) && mapping.ensures((p,), y),
        }
}

/// The results that `if_matches_guarded` may give: `None` where `shape` does not fit
/// `value`, or fits with parts `p` on which `guard` gave `false`; where it fits and
/// `guard` gave `true`, `Some` of what `mapping` gave for `p`.
pub open spec fn guarded_outcome<T, P, R, S, G, M>(
    value: T,
    shape: S,
    guard: G,
    mapping: M,
    r: Option<R>,
) -> bool where
    S: FnOnce(T) -> Option<P>,
    G: FnOnce(&P) -> bool,
    M: FnOnce(P) -> R,
 {
    exists|m: Option<P>|
        #[trigger] shape.ensures((value,), m) && match m {
            None => r is None,
            Some(p) => exists|g: bool|
                #[trigger] guard.ensures((&p,), g) && if g {
                    r matches Some(y) && mapping.ensures((p,), y)
                } else {
                    r is None
                },
        }
}

/// Maps the parts of `value` by `mapping` where `shape` fits it; `None` where it does
/// not.
///
/// `mapping` runs only where the shape fits, and then once.
pub fn if_matches<T, P, R, S, M>(value: T, shape: S, mapping: M) -> (r: Option<R>) where
    S: FnOnce(T) -> Option<P>,
    M: FnOnce(P) -> R,

    requires
        shape.requires((value,)),
        forall|p: P| #[trigger] shape.ensures((value,), Some(p)) ==> mapping.requires((p,)),
    ensures
        mapped_outcome(value, shape, mapping, r),
{
    match shape(value) {
        Some(p) => Some(mapping(p)),
        None => None,
    }
}

/// Maps the parts of `value` by `mapping` where `shape` fits it and `guard` holds of
/// the parts; `None` otherwise.
///
/// `guard` runs only where the shape fits; `mapping` only where `guard` then gave
/// `true`; each at most once.
pub fn if_matches_guarded<T, P, R, S, G, M>(value: T, shape: S, guard: G, mapping: M) -> (r:
    Option<R>) where
    S: FnOnce(T) -> Option<P>,
    G: FnOnce(&P) -> bool,
    M: FnOnce(P) -> R,

    requires
        shape.requires((value,)),
        forall|p: P| #[trigger]
            shape.ensures((value,), Some(p)) ==> guard.requires((&p,)) && (guard.ensures(
                (&p,),
                true,
            ) ==> mapping.requires((p,))),
    ensures
        guarded_outcome(value, shape, guard, mapping, r),
{
    match shape(value) {
        Some(p) => {
            if guard(&p) {
                Some(mapping(p))
            } else {
                None
            }
        },
        None => None,
    }
}

/// Where the shape does not fit the value, the result is `None`, with or without a
/// guard, whatever the mapping.
pub proof fn lemma_no_fit_is_none<T, P, R, S, G, M>(
    value: T,
    shape: S,
    guard: G,
    mapping: M,
    r: Option<R>,
) where
    S: FnOnce(T) -> Option<P>,
    G: FnOnce(&P) -> bool,
    M: FnOnce(P) -> R,

    requires
        forall|m: Option<P>| #[trigger] shape.ensures((value,), m) ==> m is None,
    ensures
        mapped_outcome(value, shape, mapping, r) ==> r is None,
        guarded_outcome(value, shape, guard, mapping, r) ==> r is None,
{
}

/// Where the shape fits the value with parts `p`: without a guard, or under a guard
/// that holds of `p`, the result is `Some` of what the mapping gave for `p`; under a
/// guard that fails on `p`, it is `None`.
pub proof fn lemma_fit_follows_guard<T, P, R, S, G, M>(
    value: T,
    shape: S,
    guard: G,
    mapping: M,
    p: P,
    r: Option<R>,
) where
    S: FnOnce(T) -> Option<P>,
    G: FnOnce(&P) -> bool,
    M: FnOnce(P) -> R,

    requires
        forall|m: Option<P>| #[trigger] shape.ensures((value,), m) ==> m == Some(p),
    ensures
        mapped_outcome(value, shape, mapping, r) ==> (r matches Some(y) && mapping.ensures(
            (p,),
            y,
        )),
        guarded_outcome(value, shape, guard, mapping, r) && (forall|g: bool|
            #[trigger] guard.ensures((&p,), g) ==> g) ==> (r matches Some(y) && mapping.ensures(
            (p,),
            y,
        )),
        guarded_outcome(value, shape, guard, mapping, r) && (forall|g: bool|
            #[trigger] guard.ensures((&p,), g) ==> !g) ==> r is None,
{
}

} // verus!
