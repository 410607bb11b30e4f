use vstd::prelude::*;

use crate::object::WriteObject;

verus! {

/// Why a backend did not take an object.
#[derive(Debug, Clone, PartialEq, Eq)]
pub struct BackendError {
    pub message: String,
}

/// The persistence layer: it durably associates an object's bytes with the
/// object's identifier. One handle is shared by every producer, so an
/// implementation synchronises its own state.
pub trait Backend: Send + Sync {
    /// What the implementation says of its own answers: `write_spec(object,
    /// refusal)` holds whenever `write_object`, given `object`, takes it
    /// (`None`) or refuses it with an error (`Some`). An implementation that
    /// says nothing leaves it at `true`.
    open spec fn write_spec(&self, object: WriteObject, refusal: Option<BackendError>) -> bool {
        true
    }

    /// Stores one complete object, or says why it could not.
    fn write_object(&self, object: &WriteObject) -> (r: std::result::Result<(), BackendError>)
        ensures
            self.write_spec(
                *object,
                match r {
                    Ok(_) => None,
                    Err(e) => Some(e),
                },
            ),
    ;
}

} // verus!
