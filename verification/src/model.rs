//! Views of `Result` values, which vstd leaves without one.

use vstd::prelude::*;

verus! {

/// A `Result` with both sides replaced by their views.
pub open spec fn result_view<T: View, E: View>(r: Result<T, E>) -> Result<T::V, E::V> {
    match r {
        Ok(value) => Ok(value@),
        Err(error) => Err(error@),
    }
}

} // verus!
