use vstd::prelude::*;
use std::sync::Arc;

use crate::backends::{Backend, BackendError};
use crate::buffers::ByteView;
use crate::chunks::ChunkPointer;
use crate::compress::Compress;
use crate::crypto::{CryptoDigest, CryptoProvider, Random, BLOCK_SIZE, TAG_SIZE};
use crate::errors::{IoError, ObjectError, Result};
use crate::ident::ObjectId;
use crate::object::{overwrite, Object, WriteObject};

verus! {

/// What a producer of chunks writes to.
pub trait ObjectStore: Clone + Send {
    /// The invariant of the store, which its constructors establish and
    /// both operations keep. A store without one leaves it at `true`.
    open spec fn valid(&self) -> bool {
        true
    }

    /// Stores one chunk, known by its content hash, and says where it went.
    fn store_chunk(&mut self, hash: &CryptoDigest, data: &[u8]) -> (r: Result<Arc<ChunkPointer>>)
        requires
            old(self).valid(),
        ensures
            final(self).valid(),
    ;

    /// Hands what has been stored so far to wherever it is kept.
    fn flush(&mut self) -> (r: Result<()>)
        requires
            old(self).valid(),
        ensures
            final(self).valid(),
    ;
}

/// Whether a payload of `size` bytes fits at `offs` below `capacity`. A
/// payload that ends exactly at the capacity fits.
pub open spec fn fits_spec(offs: int, size: int, capacity: int) -> bool {
    offs + size <= capacity
}

/// Whether a payload of `size` bytes fits at `offs` below `capacity`.
pub fn fits(offs: usize, size: usize, capacity: usize) -> (r: bool)
    ensures
        r == fits_spec(offs as int, size as int, capacity as int),
{
    offs <= capacity && size <= capacity - offs
}

/// `Arc::clone`: one more handle on the same value.
#[verifier::external_body]
fn share<B>(handle: &Arc<B>) -> (r: Arc<B>)
    ensures
        r == *handle,
{
    Arc::clone(handle)
}

/// Packs chunks into one object at a time. A chunk is compressed, then
/// encrypted, then appended at the cursor; an object that cannot take the
/// next chunk is filled up with random bytes and handed to the backend,
/// and the store goes on with an empty object under a new identifier.
pub struct Storage<C, B, Z> {
    backend: Arc<B>,
    crypto: C,
    codec: Z,
    object: WriteObject,
    capacity: usize,
    flushed: Ghost<nat>,
}

impl<C, B, Z> Storage<C, B, Z> {
    /// The object in progress.
    pub closed spec fn spec_object(&self) -> &WriteObject {
        &self.object
    }

    /// The backend that full objects go to.
    pub closed spec fn backend(&self) -> Arc<B> {
        self.backend
    }

    /// The cryptographic provider.
    pub closed spec fn crypto(&self) -> C {
        self.crypto
    }

    /// The compression codec.
    pub closed spec fn codec(&self) -> Z {
        self.codec
    }

    /// The ceiling for chunk payloads in the object in progress.
    pub closed spec fn capacity(&self) -> usize {
        self.capacity
    }

    /// How many objects this store has handed to its backend so far.
    pub closed spec fn flushed(&self) -> nat {
        self.flushed@
    }

    /// The bytes of the object in progress.
    pub open spec fn bytes(&self) -> Seq<u8> {
        self.object().buffer.bytes()
    }

    /// The cursor never passes the capacity, the capacity never the
    /// buffer's end, and every offset fits a chunk pointer.
    pub open spec fn wf(&self) -> bool {
        &&& self.object().wf()
        &&& self.capacity() == self.object().capacity
        &&& self.capacity() <= u32::MAX
    }

    /// The object in progress.
    #[verifier::when_used_as_spec(spec_object)]
    pub fn object(&self) -> (r: &WriteObject)
        ensures
            *r == self.object(),
    {
        &self.object
    }

    /// The same collaborators and the same capacity.
    pub open spec fn same_setup(&self, after: Self) -> bool {
        &&& after.backend() == self.backend()
        &&& after.crypto() == self.crypto()
        &&& after.codec() == self.codec()
        &&& after.capacity() == self.capacity()
        &&& after.bytes().len() == self.bytes().len()
    }
}

impl<C: CryptoProvider, B: Backend, Z: Compress> Storage<C, B, Z> {
    /// What the bytes from the cursor on were before a flush, and `filled`,
    /// what the random source made of them.
    pub open spec fn padded(&self, filled: Seq<u8>) -> bool {
        self.crypto().fill_spec(
            self.bytes().subrange(self.object().cursor as int, self.bytes().len() as int),
            filled,
        )
    }

    /// The object as a flush of this store hands it to the backend, where
    /// `after` is the store after that flush: the whole buffer with its tail
    /// filled, under the identifier, the cursor and the capacity that the
    /// object had before.
    pub open spec fn handed_over(&self, after: Self) -> WriteObject {
        Object {
            id: self.object().id,
            buffer: after.object().buffer,
            capacity: self.object().capacity,
            cursor: self.object().cursor,
        }
    }

    /// The backend was handed the object and took it.
    pub open spec fn taken(&self, after: Self) -> bool {
        self.backend().write_spec(self.handed_over(after), None)
    }

    /// The backend was handed the object and answered with the error `e`.
    pub open spec fn turned_down(&self, after: Self, e: BackendError) -> bool {
        self.backend().write_spec(self.handed_over(after), Some(e))
    }

    /// What a flush does to this store, and what it returns. The backend is
    /// handed the object with its tail filled. `Ok` is returned where the
    /// backend took the object, and the store has then rotated. Where the
    /// backend answered with an error, that error is returned as a backend
    /// error, and the store has not rotated.
    pub open spec fn flushed_to(&self, after: Self, r: Result<()>) -> bool {
        match r {
            Ok(()) => self.taken(after) && self.rotated(after),
            Err(e) => match e {
                ObjectError::Backend { source } => self.turned_down(after, source)
                    && self.refused(after),
                ObjectError::Io { .. } => false,
            },
        }
    }

    /// `after` is this store after a flush that the backend refused: the
    /// same object under the same identifier, with the same cursor and the
    /// same bytes before it. Only the unwritten tail has been filled.
    pub open spec fn refused(&self, after: Self) -> bool {
        &&& self.same_setup(after)
        &&& after.flushed() == self.flushed()
        &&& after.object().id == self.object().id
        &&& after.object().cursor == self.object().cursor
        &&& exists|filled: Seq<u8>|
            #[trigger] self.padded(filled) && after.bytes() == self.bytes().subrange(
                0,
                self.object().cursor as int,
            ) + filled
    }

    /// `after` is this store after one rotation: the object went to the
    /// backend with its tail filled, and the store goes on at cursor 0
    /// under an identifier drawn anew.
    pub open spec fn rotated(&self, after: Self) -> bool {
        &&& self.same_setup(after)
        &&& after.flushed() == self.flushed() + 1
        &&& self.crypto().fill_spec(self.object().id@, after.object().id@)
        &&& after.object().cursor == 0
        &&& exists|filled: Seq<u8>|
            #[trigger] self.padded(filled) && after.bytes() == self.bytes().subrange(
                0,
                self.object().cursor as int,
            ) + filled
    }

    /// `after` is this store after `sealed` was appended at the cursor, and
    /// `p` locates it: `sealed` is what the provider made of `payload` for
    /// this object and `hash`, with `p.tag` as its tag.
    pub open spec fn appended(
        &self,
        after: Self,
        p: ChunkPointer,
        hash: CryptoDigest,
        payload: Seq<u8>,
    ) -> bool {
        let sealed = after.bytes().subrange(p.offs as int, p.offs + p.size);
        &&& self.same_setup(after)
        &&& after.flushed() == self.flushed()
        &&& after.object().id == self.object().id
        &&& p.file == self.object().id
        &&& p.hash == hash
        &&& p.offs == self.object().cursor
        &&& p.size == payload.len()
        &&& after.object().cursor == p.offs + p.size
        &&& after.object().cursor <= after.capacity()
        &&& after.bytes() == overwrite(self.bytes(), p.offs as int, sealed)
        &&& self.crypto().encrypt_spec(self.object().id, hash, payload, sealed, p.tag)
    }

    /// What storing the compressed chunk `payload` does to this store, and
    /// what it returns.
    ///
    /// A payload larger than the capacity is refused and nothing changes.
    /// One that fits below the capacity at the cursor, exactly or with room
    /// to spare, is appended to the object in progress. Any other payload
    /// takes exactly one flush first: where the backend takes the old
    /// object, the store rotates and the payload lies at offset 0 of the new
    /// object; where the backend answers with an error, that error is
    /// returned and the chunk is not stored.
    pub open spec fn placed(
        &self,
        after: Self,
        hash: CryptoDigest,
        payload: Seq<u8>,
        r: Result<Arc<ChunkPointer>>,
    ) -> bool {
        if payload.len() > self.capacity() {
            &&& r == Err::<Arc<ChunkPointer>, ObjectError>(
                ObjectError::Io { source: IoError::WriteZero },
            )
            &&& after == *self
        } else if fits_spec(
            self.object().cursor as int,
            payload.len() as int,
            self.capacity() as int,
        ) {
            &&& r is Ok
            &&& self.appended(after, *r->Ok_0, hash, payload)
        } else {
            match r {
                Ok(p) => exists|mid: Self|
                    #[trigger] self.rotated(mid) && self.taken(mid) && mid.appended(
                        after,
                        *p,
                        hash,
                        payload,
                    ),
                Err(e) => self.flushed_to(after, Err(e)),
            }
        }
    }

    /// What storing a chunk does to this store, and what it returns, where
    /// `packed` is what the codec made of the chunk. The codec's payload is
    /// placed as `placed` says. The codec's error is returned as an I/O
    /// error, and nothing changes.
    pub open spec fn stored(
        &self,
        after: Self,
        hash: CryptoDigest,
        packed: std::result::Result<Seq<u8>, IoError>,
        r: Result<Arc<ChunkPointer>>,
    ) -> bool {
        match packed {
            Ok(payload) => self.placed(after, hash, payload, r),
            Err(e) => {
                &&& r == Err::<Arc<ChunkPointer>, ObjectError>(ObjectError::Io { source: e })
                &&& after == *self
            },
        }
    }

    /// A store on an empty, zeroed object of one block, with its tag region
    /// reserved and its identifier drawn from `crypto`.
    pub fn new(backend: Arc<B>, crypto: C, codec: Z) -> (r: Self)
        ensures
            r.wf(),
            r.backend() == backend,
            r.crypto() == crypto,
            r.codec() == codec,
            r.flushed() == 0,
            r.capacity() == BLOCK_SIZE - TAG_SIZE,
            r.object().cursor == 0,
            r.bytes() == Seq::new(BLOCK_SIZE as nat, |i: int| 0u8),
            crypto.fill_spec(Seq::new(32, |i: int| 0u8), r.object().id@),
    {
        let mut object = WriteObject::default();
        object.reserve_tag();
        object.id.reset(&crypto);
        let capacity = object.capacity();
        Storage { object, backend, crypto, codec, capacity, flushed: Ghost(0) }
    }

    /// A store that goes on with `object` as it is: its identifier, its
    /// bytes, its cursor and its capacity. An object whose cursor lies
    /// beyond its capacity, whose capacity lies beyond its buffer, or whose
    /// capacity no chunk pointer can address, is not taken.
    pub fn with_object(backend: Arc<B>, crypto: C, codec: Z, object: WriteObject) -> (r: Option<Self>)
        ensures
            r is Some <==> object.wf() && object.capacity <= u32::MAX,
            r matches Some(s) ==> {
                &&& s.wf()
                &&& s.object() == object
                &&& s.backend() == backend
                &&& s.crypto() == crypto
                &&& s.codec() == codec
                &&& s.flushed() == 0
            },
    {
        let capacity = object.capacity();
        if object.position() > capacity || capacity > object.buffer.as_bytes().len() || capacity
            > 0xffff_ffff {
            return None;
        }
        Some(Storage { object, backend, crypto, codec, capacity, flushed: Ghost(0) })
    }

    /// Stores a chunk that has been compressed already: `placed` says
    /// where.
    pub fn store_compressed(&mut self, hash: &CryptoDigest, compressed: Vec<u8>) -> (r: Result<
        Arc<ChunkPointer>,
    >)
        requires
            old(self).wf(),
        ensures
            final(self).wf(),
            old(self).placed(*final(self), *hash, compressed@, r),
    {
        let mut compressed = compressed;
        let ghost payload = compressed@;
        let ghost before = *self;
        let size: usize = compressed.len();
        if size > self.capacity {
            return Err(ObjectError::Io { source: IoError::WriteZero });
        }
        let mut offs: usize = self.object.position();
        let rotate: bool = !fits(offs, size, self.capacity);
        if rotate {
            match self.flush() {
                Ok(()) => {},
                Err(e) => {
                    return Err(e);
                },
            }
            offs = self.object.position();
        }
        let ghost mid = *self;
        let tag = self.crypto.encrypt_chunk(&self.object, hash, compressed.as_mut_slice());
        let _ = self.object.write(compressed.as_slice());
        let pointer = ChunkPointer {
            offs: offs as u32,
            size: size as u32,
            file: self.object.id,
            hash: *hash,
            tag,
        };
        proof {
            let sealed = self.bytes().subrange(offs as int, offs + size);
            assert(sealed =~= compressed@);
            assert(mid.appended(*self, pointer, *hash, payload));
            if rotate {
                assert(before.rotated(mid) && before.taken(mid));
            }
        }
        Ok(Arc::new(pointer))
    }
}

impl<C: CryptoProvider, B: Backend, Z: Compress> ObjectStore for Storage<C, B, Z> {
    open spec fn valid(&self) -> bool {
        self.wf()
    }

    /// Compresses `data` and stores what the codec returned: `stored` says
    /// how, for the codec's answer. Where the codec fails, its own error is
    /// handed on and nothing changes.
    fn store_chunk(&mut self, hash: &CryptoDigest, data: &[u8]) -> (r: Result<Arc<ChunkPointer>>)
        ensures
            exists|packed: std::result::Result<Seq<u8>, IoError>|
                #[trigger] old(self).codec().block_spec(data@, packed) && old(self).stored(
                    *final(self),
                    *hash,
                    packed,
                    r,
                ),
    {
        let ghost before = *self;
        match self.codec.block(data) {
            Ok(compressed) => {
                let ghost packed = Ok::<Seq<u8>, IoError>(compressed@);
                let r = self.store_compressed(hash, compressed);
                proof {
                    assert(before.codec().block_spec(data@, packed) && before.stored(
                        *self,
                        *hash,
                        packed,
                        r,
                    ));
                }
                r
            },
            Err(e) => {
                let r = Err(ObjectError::Io { source: e });
                proof {
                    let packed = Err::<Seq<u8>, IoError>(e);
                    assert(before.codec().block_spec(data@, packed) && before.stored(
                        *self,
                        *hash,
                        packed,
                        r,
                    ));
                }
                r
            },
        }
    }

    /// Fills the unwritten tail of the object with random bytes and hands
    /// the object to the backend. If the backend takes it, the store
    /// rotates: a new identifier, cursor 0. If not, the backend's own error
    /// is returned, and identifier, cursor and written bytes are as before.
    /// `flushed_to` says so for either answer.
    fn flush(&mut self) -> (r: Result<()>)
        ensures
            old(self).flushed_to(*final(self), r),
    {
        let ghost before = *self;
        self.object.finalize(&self.crypto);
        proof {
            let cursor = before.object.cursor as int;
            let len = before.bytes().len() as int;
            let filled = self.bytes().subrange(cursor, len);
            assert(before.padded(filled));
            assert(self.bytes() =~= before.bytes().subrange(0, cursor) + filled);
        }
        let ghost sent = self.object;
        let answer = self.backend.write_object(&self.object);
        match answer {
            Err(e) => {
                proof {
                    assert(before.handed_over(*self) == sent);
                }
                Err(ObjectError::Backend { source: e })
            },
            Ok(()) => {
                self.object.id.reset(&self.crypto);
                self.object.reset_cursor();
                self.flushed = Ghost(self.flushed@ + 1);
                proof {
                    assert(before.handed_over(*self) == sent);
                }
                Ok(())
            },
        }
    }
}

impl<C: CryptoProvider, B: Backend, Z: Compress> Clone for Storage<C, B, Z> {
    /// An independent store for another producer: the same backend, copies
    /// of the provider and the codec, a copy of the object in progress
    /// byte for byte, and an identifier drawn anew.
    fn clone(&self) -> (r: Self)
        ensures
            self.wf() ==> r.wf(),
            r.backend() == self.backend(),
            cloned(self.crypto(), r.crypto()),
            cloned(self.codec(), r.codec()),
            r.capacity() == self.capacity(),
            r.flushed() == 0,
            r.bytes() == self.bytes(),
            r.object().cursor == self.object().cursor,
            r.object().capacity == self.object().capacity,
            self.crypto().fill_spec(self.object().id@, r.object().id@),
    {
        let mut object = self.object.clone();
        object.id.reset(&self.crypto);
        Storage {
            object,
            backend: share(&self.backend),
            crypto: self.crypto.clone(),
            codec: self.codec.clone(),
            capacity: self.capacity,
            flushed: Ghost(0),
        }
    }
}

} // verus!
