use vstd::prelude::*;

use crate::errors::IoError;

verus! {

/// The compression codec. Nothing is assumed of the size of what it
/// returns: incompressible input may grow.
pub trait Compress: Clone + Send + Sync {
    /// What the implementation says of its own results: `block_spec(data, out)`
    /// holds whenever `block`, given `data`, returns `out`, be that the
    /// compressed bytes or an error. An implementation that says nothing
    /// leaves it at `true`.
    open spec fn block_spec(&self, data: Seq<u8>, out: std::result::Result<Seq<u8>, IoError>) -> bool {
        true
    }

    /// Compresses one chunk.
    fn block(&self, data: &[u8]) -> (r: std::result::Result<Vec<u8>, IoError>)
        ensures
            self.block_spec(
                data@,
                match r {
                    Ok(out) => Ok(out@),
                    Err(e) => Err(e),
                },
            ),
    ;
}

} // verus!
