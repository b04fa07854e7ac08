//! Views of optional values and of outcomes.

use vstd::prelude::*;

verus! {

/// The view of a value that may be absent.
pub open spec fn option_view<T: View>(value: Option<T>) -> Option<T::V> {
    match value {
        Some(v) => Some(v@),
        None => None,
    }
}

/// The view of an outcome: the view of the value, or the view of the error.
pub open spec fn result_view<T: View, E: View>(outcome: Result<T, E>) -> Result<T::V, E::V> {
    match outcome {
        Ok(v) => Ok(v@),
        Err(e) => Err(e@),
    }
}

/// The view of an outcome without a value.
pub open spec fn unit_result_view<E: View>(outcome: Result<(), E>) -> Result<(), E::V> {
    match outcome {
        Ok(_) => Ok(()),
        Err(e) => Err(e@),
    }
}

} // verus!
