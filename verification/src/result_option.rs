//! Collapsing a three-state composite container into a single `Result`.
//!
//! Both supported shapes — `Option<Result<T, E>>` and `Result<Option<T>, E>`
//! — have exactly three observable states: a present successful value, no
//! value at all, and a pre-existing failure. The four operations of
//! [`ResultOptionExt`] reduce either shape to a `Result<T, E2>`, differing
//! along two independent axes: whether the fallback error is an eager value
//! or is computed lazily by a factory, and whether a pre-existing failure is
//! discarded in favour of the fallback or remapped through a caller-supplied
//! function.

use vstd::prelude::*;

verus! {

/// The three observable states shared by both composite shapes.
pub enum CollapseState<T, E> {
    /// A successful value is present (`Some(Ok(t))` or `Ok(Some(t))`).
    Value(T),
    /// Nothing usable came out, but nothing failed (`None` or `Ok(None)`).
    NoValue,
    /// The underlying computation failed (`Some(Err(e))` or `Err(e)`).
    Fault(E),
}

/// What collapsing a state yields when a pre-existing failure is discarded:
/// the one fallback error stands in for both error-shaped states.
pub open spec fn collapse_discarding<T, E, E2>(s: CollapseState<T, E>, err: E2) -> Result<T, E2> {
    match s {
        CollapseState::Value(t) => Ok(t),
        CollapseState::NoValue => Err(err),
        CollapseState::Fault(_) => Err(err),
    }
}

/// What collapsing a state yields when a pre-existing failure is remapped:
/// the fallback serves only the no-value state, and `mapped` stands for the
/// transformed original error.
pub open spec fn collapse_remapping<T, E, E2>(
    s: CollapseState<T, E>,
    default: E2,
    mapped: E2,
) -> Result<T, E2> {
    match s {
        CollapseState::Value(t) => Ok(t),
        CollapseState::NoValue => Err(default),
        CollapseState::Fault(_) => Err(mapped),
    }
}

/// The four collapse operations, callable on either composite shape.
///
/// Every operation is total over the three states of [`CollapseState`] and
/// constructs no error of its own: a present value passes through unchanged,
/// and the error-shaped states yield exactly the caller's fallback or the
/// remapped original error. Closure arguments are one-shot: each contract
/// demands a closure's precondition — and so permits its invocation — only
/// on the states whose branch actually runs it, so the factory of an
/// `_else_`-suffixed operation is never evaluated when a value is present.
pub trait ResultOptionExt<T, E> {
    /// The observable state of this composite value.
    spec fn collapsed(self) -> CollapseState<T, E>;

    /// Collapse with an eager fallback error that also stands in for any
    /// pre-existing failure.
    fn unwrap_or_err<E2>(self, err: E2) -> (r: Result<T, E2>)
        ensures
            r == collapse_discarding(self.collapsed(), err),
    ;

    /// Collapse with a lazily computed fallback error that also stands in
    /// for any pre-existing failure; the factory runs only when no value is
    /// present.
    fn unwrap_or_else_err<E2, F: FnOnce() -> E2>(self, f: F) -> (r: Result<T, E2>)
        requires
            !(self.collapsed() is Value) ==> call_requires(f, ()),
        ensures
            self.collapsed() matches CollapseState::Value(t) ==> r == Ok::<T, E2>(t),
            !(self.collapsed() is Value) ==> r is Err && call_ensures(f, (), r->Err_0),
    ;

    /// Collapse with an eager fallback error for the no-value state, while a
    /// pre-existing failure is remapped through `f` instead of discarded.
    fn unwrap_or_map_err<E2, F: FnOnce(E) -> E2>(self, default: E2, f: F) -> (r: Result<T, E2>)
        requires
            self.collapsed() matches CollapseState::Fault(e) ==> call_requires(f, (e,)),
        ensures
            self.collapsed() matches CollapseState::Value(t) ==> r == Ok::<T, E2>(t),
            self.collapsed() is NoValue ==> r == Err::<T, E2>(default),
            self.collapsed() matches CollapseState::Fault(e) ==> r is Err && call_ensures(
                f,
                (e,),
                r->Err_0,
            ),
    ;

    /// Collapse with a lazily computed fallback error for the no-value
    /// state, while a pre-existing failure is remapped through `f`; each
    /// closure runs only on the state whose branch needs it.
    fn unwrap_or_else_map_err<E2, F: FnOnce(E) -> E2, F2: FnOnce() -> E2>(
        self,
        default: F2,
        f: F,
    ) -> (r: Result<T, E2>)
        requires
            self.collapsed() is NoValue ==> call_requires(default, ()),
            self.collapsed() matches CollapseState::Fault(e) ==> call_requires(f, (e,)),
        ensures
            self.collapsed() matches CollapseState::Value(t) ==> r == Ok::<T, E2>(t),
            self.collapsed() is NoValue ==> r is Err && call_ensures(default, (), r->Err_0),
            self.collapsed() matches CollapseState::Fault(e) ==> r is Err && call_ensures(
                f,
                (e,),
                r->Err_0,
            ),
    ;
}

impl<T, E> ResultOptionExt<T, E> for Option<Result<T, E>> {
    open spec fn collapsed(self) -> CollapseState<T, E> {
        match self {
            Some(Ok(t)) => CollapseState::Value(t),
            Some(Err(e)) => CollapseState::Fault(e),
            None => CollapseState::NoValue,
        }
    }

    fn unwrap_or_err<E2>(self, err: E2) -> (r: Result<T, E2>) {
        match self {
            Some(Ok(t)) => Ok(t),
            Some(Err(_)) => Err(err),
            None => Err(err),
        }
    }

    fn unwrap_or_else_err<E2, F: FnOnce() -> E2>(self, f: F) -> (r: Result<T, E2>) {
        match self {
            Some(Ok(t)) => Ok(t),
            Some(Err(_)) => Err(f()),
            None => Err(f()),
        }
    }

    fn unwrap_or_map_err<E2, F: FnOnce(E) -> E2>(self, default: E2, f: F) -> (r: Result<T, E2>) {
        match self {
            Some(Ok(t)) => Ok(t),
            Some(Err(e)) => Err(f(e)),
            None => Err(default),
        }
    }

    fn unwrap_or_else_map_err<E2, F: FnOnce(E) -> E2, F2: FnOnce() -> E2>(
        self,
        default: F2,
        f: F,
    ) -> (r: Result<T, E2>) {
        match self {
            Some(Ok(t)) => Ok(t),
            Some(Err(e)) => Err(f(e)),
            None => Err(default()),
        }
    }
}

impl<T, E> ResultOptionExt<T, E> for Result<Option<T>, E> {
    open spec fn collapsed(self) -> CollapseState<T, E> {
        match self {
            Ok(Some(t)) => CollapseState::Value(t),
            Ok(None) => CollapseState::NoValue,
            Err(e) => CollapseState::Fault(e),
        }
    }

    fn unwrap_or_err<E2>(self, err: E2) -> (r: Result<T, E2>) {
        match self {
            Ok(t) => match t {
                Some(t) => Ok(t),
                None => Err(err),
            },
            Err(_) => Err(err),
        }
    }

    fn unwrap_or_else_err<E2, F: FnOnce() -> E2>(self, f: F) -> (r: Result<T, E2>) {
        match self {
            Ok(t) => match t {
                Some(t) => Ok(t),
                None => Err(f()),
            },
            Err(_) => Err(f()),
        }
    }

    fn unwrap_or_map_err<E2, F: FnOnce(E) -> E2>(self, default: E2, f: F) -> (r: Result<T, E2>) {
        match self {
            Ok(t) => match t {
                Some(t) => Ok(t),
                None => Err(default),
            },
            Err(e) => Err(f(e)),
        }
    }

    fn unwrap_or_else_map_err<E2, F: FnOnce(E) -> E2, F2: FnOnce() -> E2>(
        self,
        default: F2,
        f: F,
    ) -> (r: Result<T, E2>) {
        match self {
            Ok(t) => match t {
                Some(t) => Ok(t),
                None => Err(default()),
            },
            Err(e) => Err(f(e)),
        }
    }
}

/// Law: both collapse families are defined on all three composite states and
/// succeed exactly when a value is present.
pub proof fn lemma_collapse_total<T, E, E2>(
    s: CollapseState<T, E>,
    err: E2,
    default: E2,
    mapped: E2,
)
    ensures
        collapse_discarding(s, err) is Ok <==> s is Value,
        collapse_remapping(s, default, mapped) is Ok <==> s is Value,
{
}

/// Law: a present value passes through every collapse unchanged; no error
/// argument takes part in the result.
pub proof fn lemma_success_pass_through<T, E, E2>(t: T, err: E2, default: E2, mapped: E2)
    ensures
        collapse_discarding(CollapseState::<T, E>::Value(t), err) == Ok::<T, E2>(t),
        collapse_remapping(CollapseState::<T, E>::Value(t), default, mapped) == Ok::<T, E2>(t),
{
}

/// Law: the no-value state collapses to the caller's fallback error in both
/// families.
pub proof fn lemma_no_value_default<T, E, E2>(err: E2, default: E2, mapped: E2)
    ensures
        collapse_discarding(CollapseState::<T, E>::NoValue, err) == Err::<T, E2>(err),
        collapse_remapping(CollapseState::<T, E>::NoValue, default, mapped) == Err::<T, E2>(
            default,
        ),
{
}

/// Law: a pre-existing failure is discarded by the non-mapping family — its
/// fallback stands in for the original error — while the mapping family
/// returns the remapped original error and leaves the fallback unused.
pub proof fn lemma_remap_vs_discard<T, E, E2>(e: E, err: E2, default: E2, mapped: E2)
    ensures
        collapse_discarding(CollapseState::<T, E>::Fault(e), err) == Err::<T, E2>(err),
        collapse_remapping(CollapseState::<T, E>::Fault(e), default, mapped) == Err::<T, E2>(
            mapped,
        ),
{
}

} // verus!
