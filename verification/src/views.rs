//! The views of values that may be absent or may have been refused.

use crate::error::Error;
use vstd::prelude::*;

verus! {

/// The view of a value that may be absent.
pub open spec fn opt_view<T: View>(value: Option<T>) -> Option<T::V> {
    match value {
        Some(v) => Some(v@),
        None => None,
    }
}

/// The view of a value that was made, or the reason why none was.
pub open spec fn result_view<T: View>(r: Result<T, Error>) -> Result<T::V, Error> {
    match r {
        Ok(v) => Ok(v@),
        Err(e) => Err(e),
    }
}

} // verus!
