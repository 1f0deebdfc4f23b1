//! Extract-or-exit: bind the success value of a source, or leave by a way the caller
//! chooses.
//!
//! The caller's escape action gives a `ControlFlow`: `Continue(v)` puts `v` in place
//! of the missing value, `Break(x)` asks the caller to leave (return, `break`,
//! `continue`) with `x`. The operation gives `Continue(v)` for a success `v`, and what
//! the escape action gave for a failure:
//!
//! ```text
//! let x = match bind_or(source, || ControlFlow::Break(())) {
//!     ControlFlow::Continue(x) => x,
//!     ControlFlow::Break(()) => return,
//! };
//! ```
//!
//! To rebind a variable under its own name, pass the variable itself as the source.

use core::ops::ControlFlow;
use vstd::prelude::*;

pub use crate::into_result::IntoResult;

verus! {

/// The results that `bind_or` may give: for a success `v` of converting `source`,
/// `Continue(v)`; for a failure, what `escape` gave.
pub open spec fn escape_outcome<S, X, F>(source: S, escape: F, r: ControlFlow<X, S::Value>) -> bool where
    S: IntoResult,
    F: FnOnce() -> ControlFlow<X, S::Value>,
 {
    exists|o: Result<S::Value, S::Error>|
        #[trigger] source.converts_to(o) && match o {
            Ok(v) => r == ControlFlow::<X, S::Value>::Continue(v),
            Err(_) => escape.ensures((), r),
        }
}

/// The results that `bind_or_handle` may give: for a success `v` of converting
/// `source`, `Continue(v)`; for a failure `e`, what `escape` gave after `handler` has
/// returned from `e`.
pub open spec fn handled_outcome<S, X, HR, H, F>(
    source: S,
    handler: H,
    escape: F,
    r: ControlFlow<X, S::Value>,
) -> bool where
    S: IntoResult,
    H: FnOnce(S::Error) -> HR,
    F: FnOnce() -> ControlFlow<X, S::Value>,
 {
    exists|o: Result<S::Value, S::Error>|
        #[trigger] source.converts_to(o) && match o {
            Ok(v) => r == ControlFlow::<X, S::Value>::Continue(v),
            Err(e) => (exists|h: HR| handler.ensures((e,), h)) && escape.ensures((), r),
        }
}

/// Binds the success value of `source`, or evaluates `escape` when there is none.
///
/// `escape` runs only on a failure, and then once.
pub fn bind_or<S, X, F>(source: S, escape: F) -> (r: ControlFlow<X, S::Value>) where
    S: IntoResult,
    F: FnOnce() -> ControlFlow<X, S::Value>,

    requires
        forall|e: S::Error| #[trigger] source.converts_to(Err(e)) ==> escape.requires(()),
    ensures
        escape_outcome(source, escape, r),
{
    match source.into_result() {
        Ok(v) => ControlFlow::Continue(v),
        Err(_) => escape(),
    }
}

/// Binds the success value of `source`; on a failure, hands the failure to `handler`,
/// drops what it returns, and then evaluates `escape`.
///
/// On a success neither closure runs. On a failure each runs once, `handler` first;
/// `handler` cannot keep `escape` from running.
pub fn bind_or_handle<S, X, HR, H, F>(source: S, handler: H, escape: F) -> (r: ControlFlow<
    X,
    S::Value,
>) where
    S: IntoResult,
    H: FnOnce(S::Error) -> HR,
    F: FnOnce() -> ControlFlow<X, S::Value>,

    requires
        forall|e: S::Error| #[trigger]
            source.converts_to(Err(e)) ==> handler.requires((e,)) && escape.requires(()),
    ensures
        handled_outcome(source, handler, escape, r),
{
    match source.into_result() {
        Ok(v) => ControlFlow::Continue(v),
        Err(e) => {
            let _ = handler(e);
            escape()
        },
    }
}

/// A present optional value is bound exactly as it is; the escape action plays no part.
pub proof fn lemma_present_is_bound<V, X, HR, H, F>(
    v: V,
    handler: H,
    escape: F,
    r: ControlFlow<X, V>,
) where
    H: FnOnce(()) -> HR,
    F: FnOnce() -> ControlFlow<X, V>,

    ensures
        escape_outcome(Some(v), escape, r) ==> r == ControlFlow::<X, V>::Continue(v),
        handled_outcome(Some(v), handler, escape, r) ==> r == ControlFlow::<X, V>::Continue(v),
{
}

/// An absent optional value gives what the escape action gives, and where a handler
/// stands ready, the handler has first returned from `()`.
pub proof fn lemma_absent_escapes<V, X, HR, H, F>(handler: H, escape: F, r: ControlFlow<X, V>) where
    H: FnOnce(()) -> HR,
    F: FnOnce() -> ControlFlow<X, V>,

    ensures
        escape_outcome(None::<V>, escape, r) ==> escape.ensures((), r),
        handled_outcome(None::<V>, handler, escape, r) ==> (exists|h: HR|
            handler.ensures(((),), h)) && escape.ensures((), r),
{
}

/// For a `Result` source, a success binds exactly its payload, and a failure hands
/// exactly its payload to the handler before the escape action decides the result.
pub proof fn lemma_result_payloads<V, E, X, HR, H, F>(
    source: Result<V, E>,
    handler: H,
    escape: F,
    r: ControlFlow<X, V>,
) where
    H: FnOnce(E) -> HR,
    F: FnOnce() -> ControlFlow<X, V>,

    ensures
        escape_outcome(source, escape, r) ==> match source {
            Ok(v) => r == ControlFlow::<X, V>::Continue(v),
            Err(_) => escape.ensures((), r),
        },
        handled_outcome(source, handler, escape, r) ==> match source {
            Ok(v) => r == ControlFlow::<X, V>::Continue(v),
            Err(e) => (exists|h: HR| handler.ensures((e,), h)) && escape.ensures((), r),
        },
{
}

} // verus!
