use vstd::prelude::*;
use std::sync::{Arc, Mutex, MutexGuard};

use crate::chunks::ChunkPointer;
use crate::crypto::CryptoDigest;
use crate::errors::{IoError, ObjectError, Result};
use crate::storage::ObjectStore;

verus! {

/// `std::sync::Mutex`, as a value that is handed on unread.
#[verifier::external_type_specification]
#[verifier::external_body]
#[verifier::reject_recursive_types(T)]
pub struct ExMutex<T: ?Sized>(Mutex<T>);

/// `std::sync::MutexGuard`, as a value that is handed on unread.
#[verifier::external_type_specification]
#[verifier::external_body]
#[verifier::reject_recursive_types(T)]
pub struct ExMutexGuard<'a, T: ?Sized + 'a>(MutexGuard<'a, T>);

/// `Mutex::lock`: waits for the lock and returns its guard, or `None` where
/// a holder of the lock has panicked. Nothing is claimed of the result.
#[verifier::external_body]
fn lock(total: &Arc<Mutex<usize>>) -> (r: Option<MutexGuard<'_, usize>>) {
    total.lock().ok()
}

/// The number that a guard gives access to. While the guard lives, nobody
/// else reads or writes that number.
pub uninterp spec fn guarded(guard: MutexGuard<usize>) -> usize;

/// The guard's `Deref`: the number that the lock protects.
#[verifier::external_body]
fn held(guard: &MutexGuard<'_, usize>) -> (r: usize)
    ensures
        r == guarded(*guard),
{
    **guard
}

/// The guard's `DerefMut`: puts `total` in place of the protected number.
#[verifier::external_body]
fn put(guard: &mut MutexGuard<'_, usize>, total: usize)
    ensures
        guarded(*final(guard)) == total,
{
    **guard = total;
}

/// A total of `total` bytes grown by a payload of `len` bytes. It stops at
/// the largest number that the machine can count to.
pub open spec fn accumulated(total: int, len: int) -> int {
    if total + len <= usize::MAX {
        total + len
    } else {
        usize::MAX as int
    }
}

/// A total of `total` bytes grown by a payload of `len` bytes.
pub fn accumulate(total: usize, len: usize) -> (r: usize)
    ensures
        r == accumulated(total as int, len as int),
{
    if len <= usize::MAX - total {
        total + len
    } else {
        usize::MAX
    }
}

/// Grows the total behind `guard` by a payload of `len` bytes.
pub fn count(guard: &mut MutexGuard<'_, usize>, len: usize)
    ensures
        guarded(*final(guard)) == accumulated(guarded(*old(guard)) as int, len as int),
{
    let total: usize = held(guard);
    put(guard, accumulate(total, len));
}

/// A store for dry runs and for measuring: it compresses nothing, encrypts
/// nothing and writes nothing. It only adds up, behind a lock that all its
/// duplicates share, how many bytes of chunk data it was given.
#[derive(Clone, Default)]
pub struct NullStorage(pub Arc<Mutex<usize>>);

impl ObjectStore for NullStorage {
    /// Adds the length of `data` to the shared total and returns the
    /// placeholder pointer. Where the lock is poisoned, nothing is counted.
    fn store_chunk(&mut self, _hash: &CryptoDigest, data: &[u8]) -> (r: Result<Arc<ChunkPointer>>)
        ensures
            match r {
                Ok(p) => p.placeholder(),
                Err(e) => e == (ObjectError::Io { source: IoError::Other }),
            },
    {
        match lock(&self.0) {
            Some(guard) => {
                let mut guard = guard;
                count(&mut guard, data.len());
                Ok(Arc::new(ChunkPointer::default()))
            },
            None => Err(ObjectError::Io { source: IoError::Other }),
        }
    }

    /// There is nothing to hand over.
    fn flush(&mut self) -> (r: Result<()>)
        ensures
            r is Ok,
            *final(self) == *old(self),
    {
        Ok(())
    }
}

} // verus!
