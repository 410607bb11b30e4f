use std::io::SeekFrom;

use libzerostash::{
    BlockBuffer, ByteView, IoError, Object, ObjectError, ObjectId, Random, ReadBuffer, ReadObject,
    WriteObject, BLOCK_SIZE, TAG_SIZE,
};

struct Constant(u8);

impl Random for Constant {
    fn fill(&self, buf: &mut [u8]) {
        for byte in buf.iter_mut() {
            *byte = self.0;
        }
    }
}

fn named(byte: u8) -> ObjectId {
    ObjectId::from_bytes(&[byte; 32]).unwrap()
}

fn counting(len: usize) -> Vec<u8> {
    (0..len).map(|i| i as u8).collect()
}

#[test]
fn block_and_tag_sizes() {
    assert_eq!(BLOCK_SIZE, 4 * 1024 * 1024);
    assert_eq!(TAG_SIZE, 16);
}

#[test]
fn block_buffer_starts_zeroed_at_block_size() {
    let buffer = BlockBuffer::default();
    assert_eq!(buffer.as_ref().len(), BLOCK_SIZE);
    assert!(buffer.as_ref().iter().all(|b| *b == 0));
}

#[test]
fn block_buffer_of_a_given_length() {
    let mut buffer = BlockBuffer::with_len(16);
    assert_eq!(buffer.as_ref(), &[0u8; 16][..]);
    buffer.as_mut()[3] = 9;
    assert_eq!(buffer.as_ref()[3], 9);
    let copy = buffer.clone();
    assert_eq!(copy.as_ref(), buffer.as_ref());
}

#[test]
fn read_buffer_shows_the_bytes_of_its_source() {
    let buffer = ReadBuffer::new(vec![1u8, 2, 3]);
    assert_eq!(buffer.as_ref(), &[1u8, 2, 3][..]);
    assert_eq!(buffer.as_bytes(), &[1u8, 2, 3][..]);
}

#[test]
fn new_takes_the_block_size_as_capacity() {
    let object = Object::new(vec![0u8; 4]);
    assert_eq!(object.capacity(), BLOCK_SIZE);
    assert_eq!(object.position(), 0);
    assert_eq!(object.id, ObjectId::default());
    assert_eq!(object.buffer, vec![0u8; 4]);
}

#[test]
fn with_id_takes_the_buffer_length_as_capacity() {
    let object = Object::with_id(named(7), vec![0u8; 40]);
    assert_eq!(object.capacity(), 40);
    assert_eq!(object.position(), 0);
    assert_eq!(object.id, named(7));
}

#[test]
fn default_object_spans_its_buffer() {
    let object = WriteObject::default();
    assert_eq!(object.capacity(), BLOCK_SIZE);
    assert_eq!(object.position(), 0);
    assert_eq!(object.id, ObjectId::default());
}

#[test]
fn set_id_renames_the_object() {
    let mut object = Object::with_id(named(1), vec![0u8; 8]);
    object.set_id(named(2));
    assert_eq!(object.id, named(2));
    assert_eq!(object.capacity(), 8);
}

#[test]
fn reserve_tag_shrinks_capacity_by_one_tag() {
    let mut object = Object::with_id(named(1), vec![0u8; 64]);
    object.reserve_tag();
    assert_eq!(object.capacity(), 64 - TAG_SIZE);
    assert_eq!(object.buffer.len(), 64);
    let mut block = WriteObject::default();
    block.reserve_tag();
    assert_eq!(block.capacity(), BLOCK_SIZE - TAG_SIZE);
}

#[test]
fn write_appends_at_the_cursor() {
    let mut object = Object::with_id(named(1), vec![0u8; 8]);
    assert_eq!(object.write(&[1, 2, 3]), Ok(3));
    assert_eq!(object.position(), 3);
    assert_eq!(object.write(&[4, 5]), Ok(2));
    assert_eq!(object.position(), 5);
    assert_eq!(object.buffer, vec![1, 2, 3, 4, 5, 0, 0, 0]);
    assert_eq!(object.write(&[]), Ok(0));
    assert_eq!(object.position(), 5);
}

#[test]
fn write_may_end_exactly_at_the_capacity() {
    let mut object = Object::with_id(named(1), vec![0u8; 4]);
    assert_eq!(object.write(&[9, 8, 7, 6]), Ok(4));
    assert_eq!(object.position(), 4);
    assert_eq!(object.buffer, vec![9, 8, 7, 6]);
}

#[test]
fn read_copies_from_the_cursor_and_advances() {
    let mut object = Object::with_id(named(1), counting(10));
    let mut buf = [0u8; 4];
    assert_eq!(object.read(&mut buf), Ok(4));
    assert_eq!(buf, [0, 1, 2, 3]);
    assert_eq!(object.position(), 4);
    assert_eq!(object.read(&mut buf), Ok(4));
    assert_eq!(buf, [4, 5, 6, 7]);
    assert_eq!(object.position(), 8);
}

#[test]
fn read_past_the_capacity_ends_unexpectedly() {
    let mut object = Object::with_id(named(1), counting(10));
    assert_eq!(object.seek(SeekFrom::Start(8)), Ok(8));
    let mut buf = [0xeeu8; 3];
    assert_eq!(object.read(&mut buf), Err(IoError::UnexpectedEof));
    assert_eq!(buf, [0xee; 3]);
    assert_eq!(object.position(), 8);
    let mut rest = [0u8; 2];
    assert_eq!(object.read(&mut rest), Ok(2));
    assert_eq!(rest, [8, 9]);
    assert_eq!(object.position(), 10);
}

#[test]
fn read_never_reaches_the_tag_region() {
    let mut object = Object::with_id(named(1), counting(32));
    object.reserve_tag();
    assert_eq!(object.capacity(), 16);
    let mut buf = [0u8; 17];
    assert_eq!(object.read(&mut buf), Err(IoError::UnexpectedEof));
    let mut all = [0u8; 16];
    assert_eq!(object.read(&mut all), Ok(16));
    assert_eq!(&all[..], &counting(16)[..]);
}

#[test]
fn seek_from_start() {
    let mut object = Object::with_id(named(1), vec![0u8; 10]);
    assert_eq!(object.seek(SeekFrom::Start(0)), Ok(0));
    assert_eq!(object.seek(SeekFrom::Start(7)), Ok(7));
    assert_eq!(object.position(), 7);
    assert_eq!(object.seek(SeekFrom::Start(10)), Ok(10));
    assert_eq!(object.position(), 10);
    assert_eq!(object.seek(SeekFrom::Start(11)), Err(IoError::InvalidInput));
    assert_eq!(object.seek(SeekFrom::Start(u64::MAX)), Err(IoError::InvalidInput));
    assert_eq!(object.position(), 10);
}

#[test]
fn seek_from_end_counts_back_from_the_capacity() {
    let mut object = Object::with_id(named(1), vec![0u8; 10]);
    assert_eq!(object.seek(SeekFrom::End(0)), Ok(10));
    assert_eq!(object.seek(SeekFrom::End(3)), Ok(7));
    assert_eq!(object.position(), 7);
    assert_eq!(object.seek(SeekFrom::End(10)), Ok(0));
    assert_eq!(object.seek(SeekFrom::End(11)), Err(IoError::InvalidInput));
    assert_eq!(object.seek(SeekFrom::End(-1)), Err(IoError::InvalidInput));
    assert_eq!(object.seek(SeekFrom::End(i64::MAX)), Err(IoError::InvalidInput));
    assert_eq!(object.seek(SeekFrom::End(i64::MIN)), Err(IoError::InvalidInput));
    assert_eq!(object.position(), 0);
}

#[test]
fn seek_from_current() {
    let mut object = Object::with_id(named(1), vec![0u8; 10]);
    assert_eq!(object.seek(SeekFrom::Current(4)), Ok(4));
    assert_eq!(object.seek(SeekFrom::Current(-3)), Ok(1));
    assert_eq!(object.seek(SeekFrom::Current(0)), Ok(1));
    assert_eq!(object.seek(SeekFrom::Current(9)), Ok(10));
    assert_eq!(object.seek(SeekFrom::Current(1)), Err(IoError::InvalidInput));
    assert_eq!(object.position(), 10);
    assert_eq!(object.seek(SeekFrom::Current(-10)), Ok(0));
    assert_eq!(object.seek(SeekFrom::Current(-1)), Err(IoError::InvalidInput));
    assert_eq!(object.seek(SeekFrom::Current(i64::MAX)), Err(IoError::InvalidInput));
    assert_eq!(object.seek(SeekFrom::Current(i64::MIN)), Err(IoError::InvalidInput));
    assert_eq!(object.position(), 0);
}

#[test]
fn seek_is_bounded_by_the_capacity_not_the_buffer() {
    let mut object = Object::with_id(named(1), vec![0u8; 32]);
    object.reserve_tag();
    assert_eq!(object.seek(SeekFrom::Start(16)), Ok(16));
    assert_eq!(object.seek(SeekFrom::Start(17)), Err(IoError::InvalidInput));
    assert_eq!(object.seek(SeekFrom::End(0)), Ok(16));
    assert_eq!(object.seek(SeekFrom::Current(1)), Err(IoError::InvalidInput));
}

#[test]
fn reset_cursor_goes_back_to_the_start() {
    let mut object = Object::with_id(named(1), vec![0u8; 10]);
    assert_eq!(object.write(&[1, 2, 3]), Ok(3));
    object.reset_cursor();
    assert_eq!(object.position(), 0);
    assert_eq!(object.buffer[..3], [1, 2, 3]);
}

#[test]
fn write_tag_fills_the_reserved_region() {
    let mut object = Object::with_id(named(1), vec![0u8; 20]);
    object.reserve_tag();
    let tag: Vec<u8> = (1..=16).collect();
    assert_eq!(object.write_tag(&tag), Ok(()));
    assert_eq!(object.buffer[..4], [0, 0, 0, 0]);
    assert_eq!(object.buffer[4..], tag[..]);
    assert_eq!(object.position(), 0);
    assert_eq!(object.capacity(), 4);
}

#[test]
fn write_tag_rejects_another_length() {
    let mut object = Object::with_id(named(1), vec![0u8; 20]);
    object.reserve_tag();
    let invalid = Err(ObjectError::Io { source: IoError::InvalidInput });
    assert_eq!(object.write_tag(&[1u8; 15]), invalid);
    assert_eq!(object.write_tag(&[1u8; 17]), invalid);
    assert_eq!(object.write_tag(&[]), invalid);
    assert_eq!(object.buffer, vec![0u8; 20]);
    let mut short = Object::new(vec![0u8; 4]);
    assert_eq!(short.write_tag(&[]), invalid);
}

#[test]
fn views_stop_at_the_capacity() {
    let mut object = Object::with_id(named(1), counting(20));
    object.reserve_tag();
    assert_eq!(object.as_ref(), &[0u8, 1, 2, 3][..]);
    object.as_mut()[1] = 0xaa;
    assert_eq!(object.as_mut().len(), 4);
    assert_eq!(object.buffer[..4], [0, 0xaa, 2, 3]);
    assert_eq!(object.buffer[4..], counting(20)[4..]);
}

#[test]
fn write_head_overwrites_from_offset_zero() {
    let mut object = Object::with_id(named(1), vec![7u8; 6]);
    assert_eq!(object.seek(SeekFrom::Start(4)), Ok(4));
    object.write_head(&[1, 2, 3]);
    assert_eq!(object.buffer, vec![1, 2, 3, 7, 7, 7]);
    assert_eq!(object.position(), 4);
}

#[test]
fn clear_zeroes_the_whole_buffer() {
    let mut object = Object::with_id(named(1), counting(20));
    object.reserve_tag();
    assert_eq!(object.seek(SeekFrom::Start(2)), Ok(2));
    object.clear();
    assert_eq!(object.buffer, vec![0u8; 20]);
    assert_eq!(object.position(), 2);
    assert_eq!(object.capacity(), 4);
}

#[test]
fn finalize_fills_from_the_cursor_to_the_end_of_the_buffer() {
    let mut object = Object::with_id(named(1), vec![0u8; 24]);
    object.reserve_tag();
    assert_eq!(object.write(&[1, 2, 3]), Ok(3));
    object.finalize(&Constant(0xcc));
    assert_eq!(object.buffer[..3], [1, 2, 3]);
    assert_eq!(object.buffer[3..], [0xccu8; 21]);
    assert_eq!(object.position(), 3);
    assert_eq!(object.capacity(), 8);
}

#[test]
fn flushing_an_object_changes_nothing() {
    let mut object = Object::with_id(named(1), vec![0u8; 4]);
    assert_eq!(object.write(&[1, 2]), Ok(2));
    assert_eq!(object.flush(), Ok(()));
    assert_eq!(object.position(), 2);
    assert_eq!(object.buffer, vec![1, 2, 0, 0]);
}

#[test]
fn clone_keeps_every_field() {
    let mut object = Object::with_id(named(3), counting(20));
    object.reserve_tag();
    assert_eq!(object.seek(SeekFrom::Start(2)), Ok(2));
    let copy = object.clone();
    assert_eq!(copy.id, named(3));
    assert_eq!(copy.buffer, counting(20));
    assert_eq!(copy.capacity(), 4);
    assert_eq!(copy.position(), 2);
}

#[test]
fn read_object_from_a_write_object() {
    let mut written = Object::with_id(named(5), BlockBuffer::with_len(32));
    written.reserve_tag();
    assert_eq!(written.write(&[1, 2, 3]), Ok(3));
    let mut read = ReadObject::from(&written);
    assert_eq!(read.id, named(5));
    assert_eq!(read.capacity(), 32);
    assert_eq!(read.position(), 0);
    let mut buf = [0u8; 4];
    assert_eq!(read.read(&mut buf), Ok(4));
    assert_eq!(buf, [1, 2, 3, 0]);
}
