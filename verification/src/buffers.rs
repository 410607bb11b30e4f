use vstd::prelude::*;
use vstd::slice::slice_to_vec;

use crate::crypto::BLOCK_SIZE;

verus! {

/// Anything that can be looked at as a run of bytes.
pub trait ByteView {
    /// The bytes, as a sequence.
    spec fn bytes(&self) -> Seq<u8>;

    fn as_bytes(&self) -> (r: &[u8])
        ensures
            r@ == self.bytes(),
    ;
}

/// A run of bytes that can be overwritten in place. Its length is fixed.
pub trait ByteViewMut: ByteView {
    fn as_bytes_mut(&mut self) -> (r: &mut [u8])
        ensures
            r@ == old(self).bytes(),
            final(r)@ == final(self).bytes(),
    ;
}

impl ByteView for Vec<u8> {
    open spec fn bytes(&self) -> Seq<u8> {
        self@
    }

    fn as_bytes(&self) -> (r: &[u8]) {
        self.as_slice()
    }
}

impl ByteViewMut for Vec<u8> {
    fn as_bytes_mut(&mut self) -> (r: &mut [u8]) {
        self.as_mut_slice()
    }
}

/// The owned buffer of an object under construction: one block of bytes,
/// zero when it is made.
pub struct BlockBuffer(Vec<u8>);

impl ByteView for BlockBuffer {
    closed spec fn bytes(&self) -> Seq<u8> {
        self.0@
    }

    fn as_bytes(&self) -> (r: &[u8]) {
        self.0.as_slice()
    }
}

impl ByteViewMut for BlockBuffer {
    fn as_bytes_mut(&mut self) -> (r: &mut [u8]) {
        self.0.as_mut_slice()
    }
}

impl Default for BlockBuffer {
    fn default() -> (r: BlockBuffer)
        ensures
            r.bytes() =~= Seq::new(BLOCK_SIZE as nat, |i: int| 0u8),
    {
        BlockBuffer(vec![0u8; BLOCK_SIZE])
    }
}

impl Clone for BlockBuffer {
    fn clone(&self) -> (r: BlockBuffer)
        ensures
            r.bytes() == self.bytes(),
    {
        BlockBuffer(self.0.clone())
    }
}

impl BlockBuffer {
    /// A zeroed buffer of `len` bytes, for a store whose blocks are not of
    /// the default size.
    pub fn with_len(len: usize) -> (r: BlockBuffer)
        ensures
            r.bytes() =~= Seq::new(len as nat, |i: int| 0u8),
    {
        BlockBuffer(vec![0u8; len])
    }

    pub fn as_ref(&self) -> (r: &[u8])
        ensures
            r@ == self.bytes(),
    {
        self.0.as_slice()
    }

    pub fn as_mut(&mut self) -> (r: &mut [u8])
        ensures
            r@ == old(self).bytes(),
            final(r)@ == final(self).bytes(),
    {
        self.0.as_mut_slice()
    }
}

/// The read-only buffer of an object that was fetched for reading. It owns
/// a copy of its source's bytes, so the rest of the system sees one kind of
/// buffer whatever the source was.
pub struct ReadBuffer(Vec<u8>);

impl ByteView for ReadBuffer {
    closed spec fn bytes(&self) -> Seq<u8> {
        self.0@
    }

    fn as_bytes(&self) -> (r: &[u8]) {
        self.0.as_slice()
    }
}

impl ReadBuffer {
    /// A read buffer holding the bytes of `buf`.
    pub fn new<B: ByteView>(buf: B) -> (r: ReadBuffer)
        ensures
            r.bytes() == buf.bytes(),
    {
        ReadBuffer(slice_to_vec(buf.as_bytes()))
    }

    pub fn as_ref(&self) -> (r: &[u8])
        ensures
            r@ == self.bytes(),
    {
        self.0.as_slice()
    }
}

} // verus!
