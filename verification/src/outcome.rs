//! The decoding strategies a generated accessor maps its return shape onto,
//! applied to the rows the executor handed back: exactly-one (the first row,
//! or a not-found error), zero-or-one (the first row, or nothing), the full
//! list, and the scalar aggregate value.

use vstd::prelude::*;
use crate::error::Error;
use crate::error::ErrorV;

verus! {

/// The first-or-error decoding: the first row that came back, or `NotFound`
/// when none did.  A `Row`-shaped statement uses it.
pub fn first_row_or_error<T>(rows: Vec<T>) -> (r: Result<T, Error>)
    ensures
        rows@.len() == 0 <==> r is Err,
        r matches Err(e) ==> e.deep_view() == ErrorV::NotFound,
        r matches Ok(t) ==> rows@.len() > 0 && t == rows@[0],
{
    let mut rows = rows;
    if rows.len() == 0 {
        Err(Error::NotFound)
    } else {
        Ok(rows.remove(0))
    }
}

/// The first-or-none decoding: the first row that came back, or nothing.
/// An `OptionalRow`-shaped statement uses it.
pub fn first_row_or_none<T>(rows: Vec<T>) -> (r: Option<T>)
    ensures
        rows@.len() == 0 <==> r is None,
        r matches Some(t) ==> rows@.len() > 0 && t == rows@[0],
{
    let mut rows = rows;
    if rows.len() == 0 {
        None
    } else {
        Some(rows.remove(0))
    }
}

/// The single-value decoding: the value of the aggregate column's one row.
/// A scalar aggregate query always yields at least one row; none coming
/// back is a logic invariant violation, so the input is ruled out here
/// rather than handled.
pub fn scalar_value(rows: Vec<i64>) -> (r: i64)
    requires
        rows@.len() > 0,
    ensures
        r == rows@[0],
{
    rows[0]
}

} // verus!
