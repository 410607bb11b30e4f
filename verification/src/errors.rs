use vstd::prelude::*;

use crate::backends::BackendError;

verus! {

/// The conditions under which a read, a write or a seek on an object, or the
/// compression codec, gives up.
#[derive(Debug, Clone, Copy, PartialEq, Eq, Hash)]
pub enum IoError {
    /// A read asked for more bytes than are left below the capacity.
    UnexpectedEof,
    /// A position or a length that the object cannot take.
    InvalidInput,
    /// A payload that no object can hold in full.
    WriteZero,
    /// Any other failure of the underlying medium or of the codec.
    Other,
}

/// What `store_chunk` and `flush` report to their caller.
#[derive(Debug, Clone, PartialEq, Eq)]
#[allow(inconsistent_fields)]
pub enum ObjectError {
    /// A bounds violation, or a failure of the medium or the codec.
    Io { source: IoError },
    /// The persistence layer rejected a write or could not complete it.
    Backend { source: BackendError },
}

pub type Result<T> = std::result::Result<T, ObjectError>;

} // verus!
