use std::collections::HashSet;
use std::sync::Mutex;

use libzerostash::{IoError, ObjectError, ObjectId, Random, DIGEST_SIZE};

struct Stream(Mutex<u64>);

impl Random for Stream {
    fn fill(&self, buf: &mut [u8]) {
        let mut state = self.0.lock().unwrap();
        for byte in buf.iter_mut() {
            *state ^= *state << 13;
            *state ^= *state >> 7;
            *state ^= *state << 17;
            *byte = (*state >> 24) as u8;
        }
    }
}

struct Constant(u8);

impl Random for Constant {
    fn fill(&self, buf: &mut [u8]) {
        for byte in buf.iter_mut() {
            *byte = self.0;
        }
    }
}

fn sample() -> Vec<u8> {
    let mut bytes = vec![0u8; DIGEST_SIZE];
    bytes[0] = 0xAB;
    bytes[1] = 0x01;
    bytes[2] = 0x0f;
    bytes[3] = 0xf0;
    bytes[31] = 0xff;
    bytes
}

#[test]
fn digest_width_is_thirty_two() {
    assert_eq!(DIGEST_SIZE, 32);
}

#[test]
fn from_bytes_reproduces_the_bytes() {
    let bytes = sample();
    let id = ObjectId::from_bytes(&bytes).unwrap();
    assert_eq!(id.as_ref(), &bytes[..]);
}

#[test]
fn string_form_is_lowercase_hex() {
    let id = ObjectId::from_bytes(&sample()).unwrap();
    let text = id.to_string();
    assert_eq!(&text[..4], "ab01");
    assert_eq!(
        text,
        "ab010ff0000000000000000000000000000000000000000000000000000000ff"
    );
}

#[test]
fn string_form_keeps_leading_zero_digits() {
    let mut bytes = vec![0u8; DIGEST_SIZE];
    for (i, byte) in bytes.iter_mut().enumerate() {
        *byte = i as u8;
    }
    let id = ObjectId::from_bytes(&bytes).unwrap();
    assert_eq!(
        id.to_string(),
        "000102030405060708090a0b0c0d0e0f101112131415161718191a1b1c1d1e1f"
    );
}

#[test]
fn from_bytes_rejects_a_short_slice() {
    let r = ObjectId::from_bytes(&[0xAB, 0x01]);
    assert_eq!(r, Err(ObjectError::Io { source: IoError::InvalidInput }));
}

#[test]
fn from_bytes_rejects_a_long_slice() {
    let r = ObjectId::from_bytes(&[7u8; 33]);
    assert_eq!(r, Err(ObjectError::Io { source: IoError::InvalidInput }));
}

#[test]
fn from_bytes_rejects_an_empty_slice() {
    let r = ObjectId::from_bytes(&[]);
    assert_eq!(r, Err(ObjectError::Io { source: IoError::InvalidInput }));
}

#[test]
fn default_identifier_is_all_zero() {
    let id = ObjectId::default();
    assert_eq!(id.as_ref(), &[0u8; 32][..]);
    assert_eq!(id.to_string(), "0".repeat(64));
}

#[test]
fn new_fills_every_byte_from_the_source() {
    let id = ObjectId::new(&Constant(0x5a));
    assert_eq!(id.as_ref(), &[0x5au8; 32][..]);
    assert_eq!(id.to_string(), "5a".repeat(32));
}

#[test]
fn reset_overwrites_in_place() {
    let mut id = ObjectId::from_bytes(&sample()).unwrap();
    id.reset(&Constant(0x11));
    assert_eq!(id.as_ref(), &[0x11u8; 32][..]);
}

#[test]
fn identifiers_compare_by_content() {
    let a = ObjectId::from_bytes(&sample()).unwrap();
    let b = ObjectId::from_bytes(&sample()).unwrap();
    let c = ObjectId::default();
    assert_eq!(a, b);
    assert_ne!(a, c);
}

#[test]
fn generated_identifiers_are_distinct() {
    let source = Stream(Mutex::new(0x9e37_79b9_7f4a_7c15));
    let mut seen = HashSet::new();
    let mut id = ObjectId::new(&source);
    assert!(seen.insert(id));
    for _ in 0..500 {
        id.reset(&source);
        assert!(seen.insert(id));
        assert!(seen.insert(ObjectId::new(&source)));
    }
    assert_eq!(seen.len(), 1001);
}
