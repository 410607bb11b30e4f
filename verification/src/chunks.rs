use vstd::prelude::*;

use crate::crypto::{CryptoDigest, Tag};
use crate::ident::ObjectId;

verus! {

/// The durable locator of one stored chunk: the object that holds it, where
/// in that object its payload lies, the chunk's content hash and the tag
/// that its encryption produced.
#[derive(Debug, Clone, Copy, PartialEq, Eq, Hash)]
pub struct ChunkPointer {
    pub offs: u32,
    pub size: u32,
    pub file: ObjectId,
    pub hash: CryptoDigest,
    pub tag: Tag,
}

impl ChunkPointer {
    /// The pointer that locates nothing: every field zero.
    pub open spec fn placeholder(self) -> bool {
        &&& self.offs == 0
        &&& self.size == 0
        &&& self.file.is_zero()
        &&& self.hash@ =~= Seq::new(32, |i: int| 0u8)
        &&& self.tag@ =~= Seq::new(16, |i: int| 0u8)
    }

    /// The span of the object that the payload occupies, as a half-open
    /// range.
    pub open spec fn span(self) -> (int, int) {
        (self.offs as int, self.offs as int + self.size as int)
    }
}

impl Default for ChunkPointer {
    fn default() -> (r: ChunkPointer)
        ensures
            r.placeholder(),
    {
        ChunkPointer { offs: 0, size: 0, file: ObjectId::default(), hash: [0u8; 32], tag: [0u8; 16] }
    }
}

} // verus!
