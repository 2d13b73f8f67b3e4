//! Branch logic of the optional-value mapper.
//!
//! Mapping an `Option<T>` through a transformation that may suspend has one
//! branch decision: an absent input is finished immediately and the
//! transformation is never given a value, while a present input hands its
//! contained value to the transformation, whose eventual result is wrapped
//! back into the optional shape. The suspension itself cannot be verified
//! here, so the decision and the rewrap stand as two verified steps; the
//! suspending caller runs the transformation between them.

use vstd::prelude::*;

verus! {

/// The mapper's single branch decision: finish with an absent result, or run
/// the caller's transformation on the contained value.
pub enum MapStep<T> {
    /// The input held no value; the result is absent and the transformation
    /// is never invoked.
    KeepAbsent,
    /// The input held this value; it is handed to the transformation.
    Transform(T),
}

/// Decide the mapper's branch for an optional input: absent inputs finish at
/// once and present inputs surrender their value to the transformation.
pub fn async_map_step<T>(input: Option<T>) -> (r: MapStep<T>)
    ensures
        input is None <==> r is KeepAbsent,
        input matches Some(t) ==> r == MapStep::Transform(t),
{
    match input {
        Some(t) => MapStep::Transform(t),
        None => MapStep::KeepAbsent,
    }
}

/// Wrap a finished transformation result back into the optional shape.
pub fn async_map_done<U>(u: U) -> (r: Option<U>)
    ensures
        r == Some(u),
{
    Some(u)
}

} // verus!
