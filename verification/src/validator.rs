//! Markers for request data that has passed validation.
use vstd::prelude::*;

verus! {

/// A form body that was read and validated.
#[derive(Debug, Clone, Copy, Default)]
pub struct ValidatedForm<T>(pub T);

/// A JSON body that was read and validated.
#[derive(Debug, Clone, Copy, Default)]
pub struct JsonValid<T>(pub T);

/// A form body that was read and validated.
#[derive(Debug, Clone, Copy, Default)]
pub struct FormValid<T>(pub T);

/// A query string that was read and validated.
#[derive(Debug, Clone, Copy, Default)]
pub struct QueryValid<T>(pub T);

/// Path parameters that were read and validated.
#[derive(Debug, Clone, Copy, Default)]
pub struct PathValid<T>(pub T);

} // verus!
