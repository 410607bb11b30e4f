use vstd::prelude::*;

use crate::ident::ObjectId;
use crate::object::WriteObject;

verus! {

/// The fixed size of every object's buffer, in bytes.
pub const BLOCK_SIZE: usize = 4 * 1024 * 1024;

/// The width of a content hash and of an object identifier, in bytes.
pub const DIGEST_SIZE: usize = 32;

/// The width of an authentication tag, in bytes.
pub const TAG_SIZE: usize = 16;

pub type CryptoDigest = [u8; 32];

pub type Tag = [u8; 16];

/// A source of cryptographically secure random bytes.
pub trait Random {
    /// What the implementation says of its own output: `fill_spec(before,
    /// after)` holds whenever `fill` turns a buffer holding `before` into one
    /// holding `after`. An implementation that says nothing leaves it at
    /// `true`.
    open spec fn fill_spec(&self, before: Seq<u8>, after: Seq<u8>) -> bool {
        true
    }

    /// Overwrites all of `buf` with random bytes.
    fn fill(&self, buf: &mut [u8])
        ensures
            final(buf)@.len() == old(buf)@.len(),
            self.fill_spec(old(buf)@, final(buf)@),
    ;
}

/// Per-chunk authenticated encryption, bound to the object that the chunk
/// goes into and to the chunk's content hash.
pub trait CryptoProvider: Random + Clone + Send + Sync {
    /// What the implementation says of its own output: `encrypt_spec(id,
    /// hash, plain, sealed, tag)` holds whenever `encrypt_chunk`, for the
    /// object `id` and the chunk `hash`, turns `plain` into `sealed` and
    /// returns `tag`. An implementation that says nothing leaves it at
    /// `true`.
    open spec fn encrypt_spec(
        &self,
        id: ObjectId,
        hash: CryptoDigest,
        plain: Seq<u8>,
        sealed: Seq<u8>,
        tag: Tag,
    ) -> bool {
        true
    }

    /// Encrypts `data` in place and returns its authentication tag.
    fn encrypt_chunk(&self, object: &WriteObject, hash: &CryptoDigest, data: &mut [u8]) -> (tag: Tag)
        ensures
            final(data)@.len() == old(data)@.len(),
            self.encrypt_spec(object.id, *hash, old(data)@, final(data)@, tag),
    ;
}

} // verus!
