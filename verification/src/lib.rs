//! A codec for the save files of a circuit simulation.
//!
//! A save file is one version byte and a body. `CircuitData::parse` takes
//! the file apart and brings the body into the clear; `CircuitData::decode`
//! decodes the record in the body with the decoder of its version. The
//! records borrow from the body: a sequence inside a record is a `Slice`,
//! which keeps the span of bytes it was decoded from and decodes its
//! elements afresh on every traversal, until it is materialized for changing.
//! Records of the newest version can be written again, with `encode` for
//! the body and `encode_final` for the whole file.
//!
//! What each decoder accepts is stated as a function on byte sequences, the
//! `parse_spec` of the type; the decoders are proved to compute it.

pub mod compound;
pub mod compression;
pub mod dispatch;
pub mod either;
pub mod geometry;
pub mod error;
pub mod ints;
pub mod legacy;
pub mod parser;
pub mod slice;
pub mod sync;
pub mod text;
pub mod v10;
pub mod v6;
pub mod v7;
pub mod wire;

pub use dispatch::{CircuitData, Record, Version};
pub use either::Either;
pub use error::DecodeError;
pub use parser::{Codec, Encode, EncodeInt, Parse};
pub use slice::{Slice, SliceIter, SliceIterMut};
