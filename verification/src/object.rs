use vstd::prelude::*;
use vstd::slice::slice_subrange;
use std::io::SeekFrom;

use crate::buffers::{BlockBuffer, ByteView, ByteViewMut, ReadBuffer};
use crate::crypto::{Random, BLOCK_SIZE, TAG_SIZE};
use crate::errors::{IoError, ObjectError};
use crate::ident::ObjectId;

verus! {

/// `std::io::SeekFrom`, with its three variants and their fields as std
/// declares them.
#[verifier::external_type_specification]
pub struct ExSeekFrom(SeekFrom);

/// An identifier and a buffer, with a cursor and a capacity. The capacity
/// bounds every read, write and seek; it may be less than the buffer's
/// length, and the bytes from the capacity on are then the reserved tag
/// region.
pub struct Object<T> {
    pub id: ObjectId,
    pub buffer: T,
    /// The number of bytes usable for chunk data.
    pub capacity: usize,
    /// Where the next read or write starts.
    pub cursor: usize,
}

pub type WriteObject = Object<BlockBuffer>;

pub type ReadObject = Object<ReadBuffer>;

/// `base` with `data` laid over it from position `at` on.
pub open spec fn overwrite(base: Seq<u8>, at: int, data: Seq<u8>) -> Seq<u8> {
    Seq::new(
        base.len(),
        |i: int|
            if at <= i < at + data.len() {
                data[i - at]
            } else {
                base[i]
            },
    )
}

/// The position that a seek asks for: counted from the start, counted back
/// from the capacity, or relative to the cursor.
pub open spec fn seek_target(pos: SeekFrom, cursor: int, capacity: int) -> int {
    match pos {
        SeekFrom::Start(s) => s as int,
        SeekFrom::End(e) => capacity - e,
        SeekFrom::Current(c) => cursor + c,
    }
}

/// Copies `src` over `dst`, from position `at` of `dst` on.
fn copy_into(dst: &mut [u8], at: usize, src: &[u8])
    requires
        at + src@.len() <= old(dst)@.len(),
    ensures
        final(dst)@ == overwrite(old(dst)@, at as int, src@),
{
    let n: usize = src.len();
    let total: usize = dst.len();
    let mut i: usize = 0;
    while i < n
        invariant
            i <= n,
            n == src@.len(),
            at + n <= total,
            dst@.len() == total,
            dst@.len() == old(dst)@.len(),
            forall|j: int|
                0 <= j < dst@.len() ==> dst@[j] == (if at <= j < at + i {
                    src@[j - at]
                } else {
                    old(dst)@[j]
                }),
        decreases n - i,
    {
        dst[at + i] = src[i];
        i += 1;
    }
    assert(dst@ =~= overwrite(old(dst)@, at as int, src@));
}

impl<T> Object<T> {
    /// An object around `buffer`, not named yet. Its capacity is the block
    /// size, whatever the buffer's length is.
    pub fn new(buffer: T) -> (r: Self)
        ensures
            r.id.is_zero(),
            r.buffer == buffer,
            r.capacity == BLOCK_SIZE,
            r.cursor == 0,
    {
        Object { id: ObjectId::default(), cursor: 0, capacity: BLOCK_SIZE, buffer }
    }

    pub fn set_id(&mut self, id: ObjectId)
        ensures
            final(self).id == id,
            final(self).buffer == old(self).buffer,
            final(self).capacity == old(self).capacity,
            final(self).cursor == old(self).cursor,
    {
        self.id = id;
    }

    /// The number of bytes usable for chunk data.
    pub fn capacity(&self) -> (r: usize)
        ensures
            r == self.capacity,
    {
        self.capacity
    }

    /// The cursor: where the next read or write starts.
    pub fn position(&self) -> (r: usize)
        ensures
            r == self.cursor,
    {
        self.cursor
    }

    pub fn reset_cursor(&mut self)
        ensures
            final(self).cursor == 0,
            final(self).id == old(self).id,
            final(self).buffer == old(self).buffer,
            final(self).capacity == old(self).capacity,
    {
        self.cursor = 0;
    }

    /// Shrinks the capacity by the width of one tag, which carves the
    /// trailing tag region out of the buffer. It is called before chunk
    /// data reaches that region.
    pub fn reserve_tag(&mut self)
        requires
            old(self).cursor + TAG_SIZE <= old(self).capacity,
        ensures
            final(self).capacity == old(self).capacity - TAG_SIZE,
            final(self).cursor == old(self).cursor,
            final(self).id == old(self).id,
            final(self).buffer == old(self).buffer,
    {
        self.capacity = self.capacity - TAG_SIZE;
    }

    /// Moves the cursor to the position that `pos` asks for, if that lies
    /// between 0 and the capacity, and returns it. Any other request is
    /// invalid input and moves nothing.
    pub fn seek(&mut self, pos: SeekFrom) -> (r: Result<u64, IoError>)
        ensures
            final(self).id == old(self).id,
            final(self).buffer == old(self).buffer,
            final(self).capacity == old(self).capacity,
            ({
                let target = seek_target(pos, old(self).cursor as int, old(self).capacity as int);
                if 0 <= target <= old(self).capacity {
                    r == Ok::<u64, IoError>(target as u64) && final(self).cursor == target
                } else {
                    r == Err::<u64, IoError>(IoError::InvalidInput) && final(self).cursor == old(
                        self,
                    ).cursor
                }
            }),
    {
        let cap: usize = self.capacity;
        let cur: usize = self.cursor;
        match pos {
            SeekFrom::Start(s) => {
                if s > cap as u64 {
                    Err(IoError::InvalidInput)
                } else {
                    self.cursor = s as usize;
                    Ok(s)
                }
            },
            SeekFrom::End(e) => {
                if e < 0 {
                    Err(IoError::InvalidInput)
                } else if e as u64 > cap as u64 {
                    Err(IoError::InvalidInput)
                } else {
                    self.cursor = cap - e as usize;
                    Ok(self.cursor as u64)
                }
            },
            SeekFrom::Current(c) => {
                if c >= 0 {
                    if cur > cap || c as u64 > (cap - cur) as u64 {
                        Err(IoError::InvalidInput)
                    } else {
                        self.cursor = cur + c as usize;
                        Ok(self.cursor as u64)
                    }
                } else {
                    let back: u64 = (-(c + 1)) as u64 + 1;
                    if back > cur as u64 || cur - back as usize > cap {
                        Err(IoError::InvalidInput)
                    } else {
                        self.cursor = cur - back as usize;
                        Ok(self.cursor as u64)
                    }
                }
            },
        }
    }

    /// Nothing is held back by a write, so there is nothing to flush.
    pub fn flush(&mut self) -> (r: Result<(), IoError>)
        ensures
            r is Ok,
            *final(self) == *old(self),
    {
        Ok(())
    }
}

impl<T: ByteView> Object<T> {
    /// The cursor is within the capacity, and the capacity within the
    /// buffer.
    pub open spec fn wf(&self) -> bool {
        self.cursor <= self.capacity <= self.buffer.bytes().len()
    }

    /// An object named `id` around `buffer`, all of which is capacity.
    pub fn with_id(id: ObjectId, buffer: T) -> (r: Object<T>)
        ensures
            r.id == id,
            r.buffer == buffer,
            r.capacity == buffer.bytes().len(),
            r.cursor == 0,
            r.wf(),
    {
        let mut object = Object {
            id: ObjectId::default(),
            cursor: 0,
            capacity: buffer.as_bytes().len(),
            buffer,
        };
        object.set_id(id);
        object
    }

    /// Copies the next `buf.len()` bytes below the capacity into `buf` and
    /// moves the cursor past them. Where fewer are left, nothing is copied
    /// or moved, and the data has ended unexpectedly.
    pub fn read(&mut self, buf: &mut [u8]) -> (r: Result<usize, IoError>)
        requires
            old(self).wf(),
        ensures
            final(self).id == old(self).id,
            final(self).buffer == old(self).buffer,
            final(self).capacity == old(self).capacity,
            final(buf)@.len() == old(buf)@.len(),
            old(self).cursor + old(buf)@.len() <= old(self).capacity ==> {
                &&& r == Ok::<usize, IoError>(old(buf)@.len() as usize)
                &&& final(self).cursor == old(self).cursor + old(buf)@.len()
                &&& final(buf)@ == old(self).buffer.bytes().subrange(
                    old(self).cursor as int,
                    old(self).cursor + old(buf)@.len(),
                )
            },
            old(self).cursor + old(buf)@.len() > old(self).capacity ==> {
                &&& r == Err::<usize, IoError>(IoError::UnexpectedEof)
                &&& final(self).cursor == old(self).cursor
                &&& final(buf)@ == old(buf)@
            },
    {
        let n: usize = buf.len();
        let cur: usize = self.cursor;
        if n > self.capacity - cur {
            return Err(IoError::UnexpectedEof);
        }
        let src = self.buffer.as_bytes();
        let total: usize = src.len();
        let mut i: usize = 0;
        while i < n
            invariant
                i <= n,
                n == buf@.len(),
                cur + n <= total,
                total == src@.len(),
                forall|j: int| 0 <= j < i ==> buf@[j] == src@[cur + j],
            decreases n - i,
        {
            buf[i] = src[cur + i];
            i += 1;
        }
        assert(buf@ =~= src@.subrange(cur as int, cur + n));
        self.cursor = cur + n;
        Ok(n)
    }

    /// The first `capacity` bytes of the buffer: never the tag region.
    pub fn as_ref(&self) -> (r: &[u8])
        requires
            self.capacity <= self.buffer.bytes().len(),
        ensures
            r@ == self.buffer.bytes().subrange(0, self.capacity as int),
    {
        slice_subrange(self.buffer.as_bytes(), 0, self.capacity)
    }
}

impl<T: ByteViewMut> Object<T> {
    /// Zeroes the whole buffer, the tag region included.
    pub fn clear(&mut self)
        ensures
            final(self).buffer.bytes() == Seq::new(old(self).buffer.bytes().len(), |i: int| 0u8),
            final(self).id == old(self).id,
            final(self).capacity == old(self).capacity,
            final(self).cursor == old(self).cursor,
    {
        let bytes = self.buffer.as_bytes_mut();
        let n: usize = bytes.len();
        let mut i: usize = 0;
        while i < n
            invariant
                i <= n,
                n == bytes@.len(),
                forall|j: int| 0 <= j < i ==> bytes@[j] == 0u8,
            decreases n - i,
        {
            bytes[i] = 0u8;
            i += 1;
        }
        assert(bytes@ =~= Seq::new(n as nat, |i: int| 0u8));
    }

    /// Writes `buf` into the reserved region, from the capacity to the end
    /// of the buffer. A `buf` of any other length than that region is
    /// invalid input and changes nothing.
    pub fn write_tag(&mut self, buf: &[u8]) -> (r: Result<(), ObjectError>)
        ensures
            final(self).id == old(self).id,
            final(self).capacity == old(self).capacity,
            final(self).cursor == old(self).cursor,
            old(self).capacity + buf@.len() == old(self).buffer.bytes().len() ==> {
                &&& r is Ok
                &&& final(self).buffer.bytes() == overwrite(
                    old(self).buffer.bytes(),
                    old(self).capacity as int,
                    buf@,
                )
            },
            old(self).capacity + buf@.len() != old(self).buffer.bytes().len() ==> {
                &&& r == Err::<(), ObjectError>(ObjectError::Io { source: IoError::InvalidInput })
                &&& final(self).buffer.bytes() == old(self).buffer.bytes()
            },
    {
        let cap: usize = self.capacity;
        let bytes = self.buffer.as_bytes_mut();
        let len: usize = bytes.len();
        if cap > len || buf.len() != len - cap {
            return Err(ObjectError::Io { source: IoError::InvalidInput });
        }
        copy_into(bytes, cap, buf);
        Ok(())
    }

    /// Overwrites the start of the buffer with `buf`, wherever the cursor
    /// is.
    pub fn write_head(&mut self, buf: &[u8])
        requires
            buf@.len() <= old(self).buffer.bytes().len(),
        ensures
            final(self).buffer.bytes() == overwrite(old(self).buffer.bytes(), 0, buf@),
            final(self).id == old(self).id,
            final(self).capacity == old(self).capacity,
            final(self).cursor == old(self).cursor,
    {
        copy_into(self.buffer.as_bytes_mut(), 0, buf);
    }

    /// Hands the span from the cursor to the end of the buffer, tag region
    /// included, to `random` to be filled. What lies before the cursor
    /// stays.
    pub fn finalize<R: Random>(&mut self, random: &R)
        requires
            old(self).cursor <= old(self).buffer.bytes().len(),
        ensures
            final(self).id == old(self).id,
            final(self).capacity == old(self).capacity,
            final(self).cursor == old(self).cursor,
            final(self).buffer.bytes().len() == old(self).buffer.bytes().len(),
            final(self).buffer.bytes().subrange(0, old(self).cursor as int) == old(
                self,
            ).buffer.bytes().subrange(0, old(self).cursor as int),
            random.fill_spec(
                old(self).buffer.bytes().subrange(
                    old(self).cursor as int,
                    old(self).buffer.bytes().len() as int,
                ),
                final(self).buffer.bytes().subrange(
                    old(self).cursor as int,
                    old(self).buffer.bytes().len() as int,
                ),
            ),
    {
        let cur: usize = self.cursor;
        let bytes = self.buffer.as_bytes_mut();
        let ghost before = bytes@;
        let (head, tail) = bytes.split_at_mut(cur);
        random.fill(tail);
        proof {
            let after = head@ + tail@;
            assert(after.subrange(0, cur as int) =~= before.subrange(0, cur as int));
            assert(after.subrange(cur as int, before.len() as int) =~= tail@);
        }
    }

    /// Copies `buf` into the buffer at the cursor and moves the cursor past
    /// it. The caller has made sure that `buf` fits below the capacity.
    pub fn write(&mut self, buf: &[u8]) -> (r: Result<usize, IoError>)
        requires
            old(self).cursor + buf@.len() <= old(self).capacity,
            old(self).capacity <= old(self).buffer.bytes().len(),
        ensures
            r == Ok::<usize, IoError>(buf@.len() as usize),
            final(self).buffer.bytes() == overwrite(
                old(self).buffer.bytes(),
                old(self).cursor as int,
                buf@,
            ),
            final(self).cursor == old(self).cursor + buf@.len(),
            final(self).id == old(self).id,
            final(self).capacity == old(self).capacity,
            final(self).wf(),
    {
        let cur: usize = self.cursor;
        copy_into(self.buffer.as_bytes_mut(), cur, buf);
        self.cursor = cur + buf.len();
        Ok(buf.len())
    }

    /// The first `capacity` bytes of the buffer, to be written to: never
    /// the tag region.
    pub fn as_mut(&mut self) -> (r: &mut [u8])
        requires
            old(self).capacity <= old(self).buffer.bytes().len(),
        ensures
            r@ == old(self).buffer.bytes().subrange(0, old(self).capacity as int),
            final(self).buffer.bytes() == final(r)@ + old(self).buffer.bytes().subrange(
                old(self).capacity as int,
                old(self).buffer.bytes().len() as int,
            ),
            final(self).id == old(self).id,
            final(self).capacity == old(self).capacity,
            final(self).cursor == old(self).cursor,
    {
        let cap: usize = self.capacity;
        let (head, tail) = self.buffer.as_bytes_mut().split_at_mut(cap);
        head
    }
}

impl<T: Clone> Clone for Object<T> {
    fn clone(&self) -> (r: Object<T>)
        ensures
            r.id == self.id,
            cloned(self.buffer, r.buffer),
            r.capacity == self.capacity,
            r.cursor == self.cursor,
    {
        Object {
            id: self.id,
            buffer: self.buffer.clone(),
            capacity: self.capacity,
            cursor: self.cursor,
        }
    }
}

impl<T: Default + ByteView> Default for Object<T> {
    fn default() -> (r: Object<T>)
        ensures
            r.id.is_zero(),
            T::default.ensures((), r.buffer),
            r.capacity == r.buffer.bytes().len(),
            r.cursor == 0,
    {
        let buffer = T::default();
        Object { id: ObjectId::default(), cursor: 0, capacity: buffer.as_bytes().len(), buffer }
    }
}

impl Object<ReadBuffer> {
    /// A read-mode object with the identifier of `object` and a copy of its
    /// whole buffer.
    pub fn from(object: &WriteObject) -> (r: ReadObject)
        ensures
            r.id == object.id,
            r.buffer.bytes() == object.buffer.bytes(),
            r.capacity == object.buffer.bytes().len(),
            r.cursor == 0,
    {
        Object::with_id(object.id, ReadBuffer::new(object.buffer.clone()))
    }
}

} // verus!
