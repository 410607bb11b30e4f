use vstd::prelude::*;
use std::sync::Arc;

use crate::backends::{Backend, BackendError};
use crate::buffers::ByteView;
use crate::chunks::ChunkPointer;
use crate::compress::Compress;
use crate::crypto::{CryptoDigest, CryptoProvider, Random, Tag};
use crate::errors::{ObjectError, Result};
use crate::ident::ObjectId;
use crate::storage::{fits_spec, Storage};

verus! {

/// Whatever a store is asked to place, and whatever comes of it, the cursor
/// of the object in progress stays within the capacity.
pub proof fn cursor_stays_within_capacity<C: CryptoProvider, B: Backend, Z: Compress>(
    before: Storage<C, B, Z>,
    after: Storage<C, B, Z>,
    hash: CryptoDigest,
    payload: Seq<u8>,
    r: Result<Arc<ChunkPointer>>,
)
    requires
        before.wf(),
        before.placed(after, hash, payload, r),
    ensures
        after.capacity() == before.capacity(),
        after.object().cursor <= after.capacity(),
{
    if payload.len() <= before.capacity() && !fits_spec(
        before.object().cursor as int,
        payload.len() as int,
        before.capacity() as int,
    ) {
        if let Ok(p) = r {
            let mid = choose|mid: Storage<C, B, Z>|
                #[trigger] before.rotated(mid) && before.taken(mid) && mid.appended(
                    after,
                    *p,
                    hash,
                    payload,
                );
        }
    }
}

/// A payload that the capacity can hold, but not from the cursor on, takes
/// exactly one rotation before it is written: where it is stored at all,
/// one more object has gone to the backend, and the payload lies at the
/// start of the next.
pub proof fn overflow_takes_one_rotation<C: CryptoProvider, B: Backend, Z: Compress>(
    before: Storage<C, B, Z>,
    after: Storage<C, B, Z>,
    hash: CryptoDigest,
    payload: Seq<u8>,
    p: Arc<ChunkPointer>,
)
    requires
        before.wf(),
        payload.len() <= before.capacity(),
        before.object().cursor + payload.len() > before.capacity(),
        before.placed(after, hash, payload, Ok(p)),
    ensures
        after.flushed() == before.flushed() + 1,
        p.offs == 0,
        p.size == payload.len(),
        after.object().cursor == payload.len(),
        p.file == after.object().id,
        before.crypto().fill_spec(before.object().id@, p.file@),
{
    let mid = choose|mid: Storage<C, B, Z>|
        #[trigger] before.rotated(mid) && before.taken(mid) && mid.appended(
            after,
            *p,
            hash,
            payload,
        );
}

/// A payload that ends exactly at the capacity is written into the object
/// in progress: the store succeeds, nothing goes to the backend, and the
/// pointer names the same object at the old cursor.
pub proof fn exact_fit_takes_no_rotation<C: CryptoProvider, B: Backend, Z: Compress>(
    before: Storage<C, B, Z>,
    after: Storage<C, B, Z>,
    hash: CryptoDigest,
    payload: Seq<u8>,
    r: Result<Arc<ChunkPointer>>,
)
    requires
        before.wf(),
        before.object().cursor + payload.len() == before.capacity(),
        before.placed(after, hash, payload, r),
    ensures
        r is Ok,
        after.flushed() == before.flushed(),
        after.object().id == before.object().id,
        r->Ok_0.file == before.object().id,
        r->Ok_0.offs == before.object().cursor,
        after.object().cursor == after.capacity(),
{
}

/// A flush succeeds exactly where the backend takes the object. If the
/// backend never answers with an error to the object that it is handed, the
/// flush returns `Ok` and the store has rotated: cursor 0, one more object
/// handed over, an identifier drawn anew.
pub proof fn flush_succeeds_where_the_backend_accepts<C: CryptoProvider, B: Backend, Z: Compress>(
    before: Storage<C, B, Z>,
    after: Storage<C, B, Z>,
    r: Result<()>,
)
    requires
        before.flushed_to(after, r),
        forall|e: BackendError| !#[trigger] before.turned_down(after, e),
    ensures
        r is Ok,
        before.taken(after),
        before.rotated(after),
        after.object().cursor == 0,
        after.flushed() == before.flushed() + 1,
{
}

/// A flush fails exactly where the backend refuses the object, and with the
/// backend's own error. If the backend never takes the object that it is
/// handed, the flush returns a backend error that the backend gave for that
/// object, and the store has not rotated: the same identifier, the same
/// cursor, no object more handed over.
pub proof fn flush_fails_where_the_backend_refuses<C: CryptoProvider, B: Backend, Z: Compress>(
    before: Storage<C, B, Z>,
    after: Storage<C, B, Z>,
    r: Result<()>,
)
    requires
        before.flushed_to(after, r),
        !before.taken(after),
    ensures
        r matches Err(ObjectError::Backend { source }) && before.turned_down(after, source),
        before.refused(after),
        after.object().id == before.object().id,
        after.object().cursor == before.object().cursor,
        after.flushed() == before.flushed(),
{
}

/// What a flush hands to the backend is the whole block under the old
/// identifier: the object's identifier, cursor and capacity are those from
/// before the flush, its buffer has the length it had, the bytes before the
/// cursor are the written ones, and the rest is what the random source made
/// of the tail.
pub proof fn flush_hands_over_the_old_object<C: CryptoProvider, B: Backend, Z: Compress>(
    before: Storage<C, B, Z>,
    after: Storage<C, B, Z>,
    r: Result<()>,
)
    requires
        before.wf(),
        before.flushed_to(after, r),
    ensures
        before.backend().write_spec(
            before.handed_over(after),
            match r {
                Ok(()) => None,
                Err(e) => Some(e->Backend_source),
            },
        ),
        before.handed_over(after).id == before.object().id,
        before.handed_over(after).cursor == before.object().cursor,
        before.handed_over(after).capacity == before.object().capacity,
        before.handed_over(after).buffer.bytes().len() == before.bytes().len(),
        before.handed_over(after).buffer.bytes().subrange(0, before.object().cursor as int)
            == before.bytes().subrange(0, before.object().cursor as int),
        before.padded(
            before.handed_over(after).buffer.bytes().subrange(
                before.object().cursor as int,
                before.bytes().len() as int,
            ),
        ),
{
    flush_fills_the_tail(before, after);
}

/// A payload that the capacity can hold, but not from the cursor on, is
/// stored exactly where the backend takes the old object. If the backend
/// never answers with an error, the store returns a pointer: one more
/// object has gone to the backend, and the payload lies at offset 0 of the
/// next object, whose cursor stands behind it.
pub proof fn overflowing_store_succeeds_where_the_backend_accepts<
    C: CryptoProvider,
    B: Backend,
    Z: Compress,
>(
    before: Storage<C, B, Z>,
    after: Storage<C, B, Z>,
    hash: CryptoDigest,
    payload: Seq<u8>,
    r: Result<Arc<ChunkPointer>>,
)
    requires
        before.wf(),
        payload.len() <= before.capacity(),
        before.object().cursor + payload.len() > before.capacity(),
        before.placed(after, hash, payload, r),
        forall|e: BackendError| !#[trigger] before.turned_down(after, e),
    ensures
        r is Ok,
        r->Ok_0.offs == 0,
        r->Ok_0.size == payload.len(),
        r->Ok_0.file == after.object().id,
        after.object().cursor == payload.len(),
        after.flushed() == before.flushed() + 1,
        before.crypto().fill_spec(before.object().id@, after.object().id@),
{
    if let Ok(p) = r {
        overflow_takes_one_rotation(before, after, hash, payload, p);
    }
}

/// A payload that the capacity can hold, but not from the cursor on, is not
/// stored where the backend refuses the old object. The store then returns
/// the backend's own error, and identifier, cursor and written bytes are as
/// they were: no byte of the chunk has been written.
pub proof fn overflowing_store_fails_where_the_backend_refuses<
    C: CryptoProvider,
    B: Backend,
    Z: Compress,
>(
    before: Storage<C, B, Z>,
    after: Storage<C, B, Z>,
    hash: CryptoDigest,
    payload: Seq<u8>,
    r: Result<Arc<ChunkPointer>>,
)
    requires
        before.wf(),
        payload.len() <= before.capacity(),
        before.object().cursor + payload.len() > before.capacity(),
        before.placed(after, hash, payload, r),
        forall|mid: Storage<C, B, Z>| !#[trigger] before.taken(mid),
    ensures
        r matches Err(ObjectError::Backend { source }) && before.turned_down(after, source),
        after.object().id == before.object().id,
        after.object().cursor == before.object().cursor,
        after.flushed() == before.flushed(),
        after.bytes().subrange(0, before.object().cursor as int) == before.bytes().subrange(
            0,
            before.object().cursor as int,
        ),
{
    if let Ok(p) = r {
        let mid = choose|mid: Storage<C, B, Z>|
            #[trigger] before.rotated(mid) && before.taken(mid) && mid.appended(
                after,
                *p,
                hash,
                payload,
            );
    } else {
        flush_fills_the_tail(before, after);
    }
}

/// A rotation changes the identifier, if the random source never hands a
/// buffer back as it found it.
pub proof fn rotation_changes_the_identifier<C: CryptoProvider, B: Backend, Z: Compress>(
    before: Storage<C, B, Z>,
    after: Storage<C, B, Z>,
)
    requires
        before.rotated(after),
        forall|found: Seq<u8>, left: Seq<u8>| #[trigger]
            before.crypto().fill_spec(found, left) ==> found != left,
    ensures
        after.object().id != before.object().id,
        after.object().cursor == 0,
{
}

/// A store and its duplicate write to different objects, if the random
/// source never hands a buffer back as it found it: chunks that the two
/// append next are located under different identifiers, so their pointers
/// never name the same bytes.
pub proof fn duplicate_writes_to_another_object<C: CryptoProvider, B: Backend, Z: Compress>(
    first: Storage<C, B, Z>,
    first_after: Storage<C, B, Z>,
    second: Storage<C, B, Z>,
    second_after: Storage<C, B, Z>,
    p: ChunkPointer,
    q: ChunkPointer,
    hash_p: CryptoDigest,
    hash_q: CryptoDigest,
    payload_p: Seq<u8>,
    payload_q: Seq<u8>,
)
    requires
        first.crypto().fill_spec(first.object().id@, second.object().id@),
        forall|found: Seq<u8>, left: Seq<u8>| #[trigger]
            first.crypto().fill_spec(found, left) ==> found != left,
        first.appended(first_after, p, hash_p, payload_p),
        second.appended(second_after, q, hash_q, payload_q),
    ensures
        p.file != q.file,
{
}

/// After a rotation the object in progress starts at cursor 0, under an
/// identifier that the random source made of the old one, with the same
/// capacity.
pub proof fn rotation_restarts_the_cursor<C: CryptoProvider, B: Backend, Z: Compress>(
    before: Storage<C, B, Z>,
    after: Storage<C, B, Z>,
)
    requires
        before.rotated(after),
    ensures
        after.object().cursor == 0,
        after.capacity() == before.capacity(),
        before.crypto().fill_spec(before.object().id@, after.object().id@),
{
}

/// A flush leaves no byte from the cursor on as it was found: whether the
/// backend takes the object or not, everything from the cursor to the end
/// of the buffer is what the random source made of that span, and
/// everything before the cursor is untouched.
pub proof fn flush_fills_the_tail<C: CryptoProvider, B: Backend, Z: Compress>(
    before: Storage<C, B, Z>,
    after: Storage<C, B, Z>,
)
    requires
        before.wf(),
        before.rotated(after) || before.refused(after),
    ensures
        after.bytes().len() == before.bytes().len(),
        after.bytes().subrange(0, before.object().cursor as int) == before.bytes().subrange(
            0,
            before.object().cursor as int,
        ),
        before.padded(
            after.bytes().subrange(before.object().cursor as int, before.bytes().len() as int),
        ),
{
    let cursor = before.object().cursor as int;
    let head = before.bytes().subrange(0, cursor);
    let filled = choose|filled: Seq<u8>|
        #[trigger] before.padded(filled) && after.bytes() == head + filled;
    assert(after.bytes().subrange(0, cursor) =~= head);
    assert(after.bytes().subrange(cursor, before.bytes().len() as int) =~= filled);
}

/// A stored chunk can be read back. Let `open` undo the provider's
/// encryption and `expand` undo the codec's compression. Then, for a chunk
/// `data` that the codec turned into `payload` and that the store placed,
/// the span of the object that the chunk's pointer names, opened and
/// expanded, is `data` again, whether the store had to rotate first or not.
pub proof fn stored_chunk_reads_back<C: CryptoProvider, B: Backend, Z: Compress>(
    before: Storage<C, B, Z>,
    after: Storage<C, B, Z>,
    hash: CryptoDigest,
    data: Seq<u8>,
    payload: Seq<u8>,
    p: Arc<ChunkPointer>,
    open: spec_fn(ObjectId, Seq<u8>) -> Seq<u8>,
    expand: spec_fn(Seq<u8>) -> Seq<u8>,
)
    requires
        before.wf(),
        before.codec().block_spec(data, Ok(payload)),
        before.placed(after, hash, payload, Ok(p)),
        forall|id: ObjectId, plain: Seq<u8>, sealed: Seq<u8>, tag: Tag| #[trigger]
            before.crypto().encrypt_spec(id, hash, plain, sealed, tag) ==> open(id, sealed)
                == plain,
        forall|raw: Seq<u8>, packed: Seq<u8>| #[trigger]
            before.codec().block_spec(raw, Ok(packed)) ==> expand(packed) == raw,
    ensures
        p.file == after.object().id,
        p.offs + p.size <= after.capacity(),
        expand(open(p.file, after.bytes().subrange(p.offs as int, p.offs + p.size))) == data,
{
    if !fits_spec(
        before.object().cursor as int,
        payload.len() as int,
        before.capacity() as int,
    ) {
        let mid = choose|mid: Storage<C, B, Z>|
            #[trigger] before.rotated(mid) && before.taken(mid) && mid.appended(
                after,
                *p,
                hash,
                payload,
            );
    }
}

/// Chunks that are appended one after the other to one object lie back to
/// back in it, in the order of the calls: the second begins where the first
/// ends, so their spans share no byte.
pub proof fn successive_chunks_lie_back_to_back<C: CryptoProvider, B: Backend, Z: Compress>(
    first: Storage<C, B, Z>,
    second: Storage<C, B, Z>,
    third: Storage<C, B, Z>,
    p: ChunkPointer,
    q: ChunkPointer,
    hash_p: CryptoDigest,
    hash_q: CryptoDigest,
    payload_p: Seq<u8>,
    payload_q: Seq<u8>,
)
    requires
        first.wf(),
        first.appended(second, p, hash_p, payload_p),
        second.appended(third, q, hash_q, payload_q),
    ensures
        p.file == q.file,
        p.span().1 == q.span().0,
        third.bytes().subrange(p.offs as int, p.offs + p.size) == second.bytes().subrange(
            p.offs as int,
            p.offs + p.size,
        ),
{
    assert(third.bytes().subrange(p.offs as int, p.offs + p.size) =~= second.bytes().subrange(
        p.offs as int,
        p.offs + p.size,
    ));
}

} // verus!
