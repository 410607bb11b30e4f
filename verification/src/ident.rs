use vstd::prelude::*;
use itertools::Itertools;

use crate::crypto::{CryptoDigest, Random, DIGEST_SIZE};
use crate::errors::{IoError, ObjectError};

verus! {

/// The lowercase hexadecimal digit for a value below sixteen.
pub open spec fn hex_digit(d: int) -> char {
    if d == 0 {
        '0'
    } else if d == 1 {
        '1'
    } else if d == 2 {
        '2'
    } else if d == 3 {
        '3'
    } else if d == 4 {
        '4'
    } else if d == 5 {
        '5'
    } else if d == 6 {
        '6'
    } else if d == 7 {
        '7'
    } else if d == 8 {
        '8'
    } else if d == 9 {
        '9'
    } else if d == 10 {
        'a'
    } else if d == 11 {
        'b'
    } else if d == 12 {
        'c'
    } else if d == 13 {
        'd'
    } else if d == 14 {
        'e'
    } else {
        'f'
    }
}

/// Lowercase hexadecimal text of a byte sequence: two digits for each byte,
/// the high one first, with nothing in between.
pub open spec fn hex_string(bytes: Seq<u8>) -> Seq<char> {
    Seq::new(
        2 * bytes.len(),
        |i: int|
            if i % 2 == 0 {
                hex_digit(bytes[i / 2] as int / 16)
            } else {
                hex_digit(bytes[i / 2] as int % 16)
            },
    )
}

/// `Itertools::format` with an empty separator, under the `{:02x}` format:
/// every byte is written as two lowercase hexadecimal digits, in order, and
/// nothing is put between them.
#[verifier::external_body]
fn hex_join(bytes: &[u8]) -> (s: String)
    ensures
        s@ == hex_string(bytes@),
{
    format!("{:02x}", bytes.iter().format(""))
}

/// A random, fixed-width name for an object.
#[derive(Debug, Clone, Copy, Hash, PartialEq, Eq)]
pub struct ObjectId(pub CryptoDigest);

impl View for ObjectId {
    type V = Seq<u8>;

    open spec fn view(&self) -> Seq<u8> {
        self.0@
    }
}

impl Default for ObjectId {
    fn default() -> (id: ObjectId)
        ensures
            id.is_zero(),
    {
        ObjectId([0u8; 32])
    }
}

impl ObjectId {
    /// Every byte is zero: the identifier of an object that has not been
    /// named yet.
    pub open spec fn is_zero(self) -> bool {
        self@ =~= Seq::new(32, |i: int| 0u8)
    }

    /// A fresh identifier, every byte of it drawn from `random`.
    pub fn new<R: Random>(random: &R) -> (id: ObjectId)
        ensures
            random.fill_spec(Seq::new(32, |i: int| 0u8), id@),
    {
        let mut id = ObjectId::default();
        id.reset(random);
        id
    }

    /// The identifier that holds exactly `bytes`. A slice of any other
    /// length than the identifier's width is rejected as invalid input.
    pub fn from_bytes(bytes: &[u8]) -> (r: Result<ObjectId, ObjectError>)
        ensures
            bytes@.len() == DIGEST_SIZE ==> r is Ok && r->Ok_0@ == bytes@,
            bytes@.len() != DIGEST_SIZE ==> r == Err::<ObjectId, ObjectError>(
                ObjectError::Io { source: IoError::InvalidInput },
            ),
    {
        if bytes.len() != DIGEST_SIZE {
            return Err(ObjectError::Io { source: IoError::InvalidInput });
        }
        let mut id = ObjectId::default();
        let mut i: usize = 0;
        while i < DIGEST_SIZE
            invariant
                i <= DIGEST_SIZE,
                bytes@.len() == DIGEST_SIZE,
                forall|j: int| 0 <= j < i ==> id.0@[j] == bytes@[j],
            decreases DIGEST_SIZE - i,
        {
            id.0[i] = bytes[i];
            i += 1;
        }
        assert(id@ =~= bytes@);
        Ok(id)
    }

    /// Replaces the identifier, in place, by fresh random bytes.
    pub fn reset<R: Random>(&mut self, random: &R)
        ensures
            random.fill_spec(old(self)@, final(self)@),
    {
        random.fill(&mut self.0);
    }

    /// The identifier's bytes.
    pub fn as_ref(&self) -> (r: &[u8])
        ensures
            r@ == self@,
    {
        self.0.as_slice()
    }

    /// The identifier in lowercase hexadecimal, without separators.
    pub fn to_string(&self) -> (s: String)
        ensures
            s@ == hex_string(self@),
    {
        hex_join(self.0.as_slice())
    }
}

} // verus!
