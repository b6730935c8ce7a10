//! The mouse-position query: one fresh OS query per call, no caching.
use vstd::prelude::*;

verus! {

use crate::errors::QueryError;

/// A cursor position in screen coordinates, valid only at the instant of
/// the query.
#[derive(Debug, Clone, Copy, PartialEq, Eq, Structural)]
pub struct MousePosition {
    pub x: i32,
    pub y: i32,
}

/// Normalizes the outcome of a cursor query: a reported position becomes
/// a `MousePosition` with the same coordinates, an absent one the
/// `Unavailable` error. The query itself is an OS call that can bring the
/// process down on a host without a display, so it stays with the I/O
/// shell, which hands its outcome in here as a plain value.
pub fn mouse_point_from(sample: Option<(i32, i32)>) -> (r: Result<MousePosition, QueryError>)
    ensures
        sample matches Some(p) ==> r == Ok::<MousePosition, QueryError>(
            MousePosition { x: p.0, y: p.1 },
        ),
        sample is None ==> r == Err::<MousePosition, QueryError>(QueryError::Unavailable),
{
    match sample {
        Some((x, y)) => Ok(MousePosition { x, y }),
        None => Err(QueryError::Unavailable),
    }
}

} // verus!
