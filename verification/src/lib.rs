//! Endian-aware operations on raw byte slices.
//!
//! The crate converts byte sequences to and from integers in a chosen byte order,
//! and provides small, bounds-checked views over borrowed bytes.
#![allow(unused_imports)]

pub mod abi;
pub mod aligned;
pub mod byteorder;
pub mod bytes;
pub mod chunk;
pub mod codec;
pub mod config;
pub mod contiguous;
pub mod cursor;
pub mod decode;
pub mod encoding;
pub mod endian;
pub mod error;
pub mod integer;
pub mod laws;
pub mod range;
pub mod reader;
pub mod shims;
pub mod source;
pub mod span;
pub mod util;

pub use abi::{Abi, BytesOf, Zeroable};
pub use bytes::Bytes;
pub use chunk::Chunk;
pub use codec::{Codec, CodecBuilder, Limit};
pub use decode::Decode;
pub use endian::{BigEndian, Endian, Endianness, LittleEndian, NativeEndian, BE, LE};
pub use error::{Error, ErrorKind, Result};
pub use integer::Integer;
pub use source::{Slice, Source};
pub use span::Span;
