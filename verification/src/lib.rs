//! The write path of a content-addressed, encrypted, deduplicating object
//! store: variable-size chunks are packed into fixed-size blocks, each
//! chunk's place is recorded in a `ChunkPointer`, and full blocks are handed
//! to a persistence backend.

pub mod backends;
pub mod buffers;
pub mod chunks;
pub mod compress;
pub mod crypto;
pub mod errors;
pub mod ident;
pub mod laws;
pub mod null_storage;
pub mod object;
pub mod storage;

pub use crate::backends::{Backend, BackendError};
pub use crate::buffers::{BlockBuffer, ByteView, ByteViewMut, ReadBuffer};
pub use crate::chunks::ChunkPointer;
pub use crate::compress::Compress;
pub use crate::crypto::{CryptoDigest, CryptoProvider, Random, Tag, BLOCK_SIZE, DIGEST_SIZE, TAG_SIZE};
pub use crate::errors::{IoError, ObjectError};
pub use crate::ident::ObjectId;
pub use crate::null_storage::NullStorage;
pub use crate::object::{Object, ReadObject, WriteObject};
pub use crate::storage::{ObjectStore, Storage};
