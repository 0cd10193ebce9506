//! Save files: the version byte, the body, and the record in the body.

use crate::compression::{decompress, snap_decompressed};
use crate::error::DecodeError;
use crate::legacy;
use crate::parser::Parse;
use crate::v10;
use crate::v6;
use crate::v7;
use vstd::prelude::*;
use vstd::slice::{slice_subrange, slice_to_vec};

verus! {

/// The format versions that a save file can have.
#[derive(Clone, Copy, Debug, PartialEq, Eq, Structural)]
pub enum Version {
    /// The oldest binary format: the body is stored as it is.
    V0,
    /// The text format: fields parted by `|`.
    Legacy,
    V6,
    V7,
    V8,
    V9,
    V10,
}

impl Version {
    /// The version that a leading byte stands for: 0 for the oldest binary
    /// format, the character `1` for the text format, 6 to 10 for the
    /// compressed formats. No other byte stands for a version.
    pub open spec fn of_tag(tag: u8) -> Option<Version> {
        if tag == 0 {
            Some(Version::V0)
        } else if tag == 0x31 {
            Some(Version::Legacy)
        } else if tag == 6 {
            Some(Version::V6)
        } else if tag == 7 {
            Some(Version::V7)
        } else if tag == 8 {
            Some(Version::V8)
        } else if tag == 9 {
            Some(Version::V9)
        } else if tag == 10 {
            Some(Version::V10)
        } else {
            None
        }
    }

    /// The leading byte of the version.
    pub open spec fn tag(self) -> u8 {
        match self {
            Version::V0 => 0,
            Version::Legacy => 0x31,
            Version::V6 => 6,
            Version::V7 => 7,
            Version::V8 => 8,
            Version::V9 => 9,
            Version::V10 => 10,
        }
    }

    /// Whether the body of the version is stored compressed.
    pub open spec fn is_compressed(self) -> bool {
        self != Version::V0 && self != Version::Legacy
    }

    /// The version that a leading byte stands for.
    pub fn from_tag(tag: u8) -> (r: Result<Version, DecodeError>)
        ensures
            match Self::of_tag(tag) {
                Some(version) => r == Ok::<Version, DecodeError>(version),
                None => r == Err::<Version, DecodeError>(DecodeError::UnsupportedVersion),
            },
            r is Ok ==> r.unwrap().tag() == tag,
    {
        match tag {
            0 => Ok(Version::V0),
            0x31 => Ok(Version::Legacy),
            6 => Ok(Version::V6),
            7 => Ok(Version::V7),
            8 => Ok(Version::V8),
            9 => Ok(Version::V9),
            10 => Ok(Version::V10),
            _ => Err(DecodeError::UnsupportedVersion),
        }
    }

    /// Whether the body of the version is stored compressed.
    pub fn compressed(self) -> (r: bool)
        ensures
            r == self.is_compressed(),
    {
        match self {
            Version::V0 | Version::Legacy => false,
            _ => true,
        }
    }
}

/// The body of a save file, in the clear, under the version it was saved in.
#[derive(Debug)]
pub enum CircuitData {
    V0(Vec<u8>),
    Legacy(Vec<u8>),
    V6(Vec<u8>),
    V7(Vec<u8>),
    V8(Vec<u8>),
    V9(Vec<u8>),
    V10(Vec<u8>),
}

/// What a `CircuitData` stands for: a version and the bytes of a body.
pub struct Body {
    pub version: Version,
    pub bytes: Seq<u8>,
}

impl View for CircuitData {
    type V = Body;

    open spec fn view(&self) -> Body {
        match *self {
            CircuitData::V0(body) => Body { version: Version::V0, bytes: body@ },
            CircuitData::Legacy(body) => Body { version: Version::Legacy, bytes: body@ },
            CircuitData::V6(body) => Body { version: Version::V6, bytes: body@ },
            CircuitData::V7(body) => Body { version: Version::V7, bytes: body@ },
            CircuitData::V8(body) => Body { version: Version::V8, bytes: body@ },
            CircuitData::V9(body) => Body { version: Version::V9, bytes: body@ },
            CircuitData::V10(body) => Body { version: Version::V10, bytes: body@ },
        }
    }
}

/// What a save file comes apart into: the version that its first byte
/// stands for, and the body, which is the rest of the file, decompressed
/// where the version stores it compressed.
pub open spec fn load_spec(input: Seq<u8>) -> Result<Body, DecodeError> {
    if input.len() == 0 {
        Err(DecodeError::Truncated)
    } else {
        match Version::of_tag(input[0]) {
            None => Err(DecodeError::UnsupportedVersion),
            Some(version) => if version.is_compressed() {
                match snap_decompressed(input.skip(1)) {
                    Some(bytes) => Ok(Body { version, bytes }),
                    None => Err(DecodeError::Compression),
                }
            } else {
                Ok(Body { version, bytes: input.skip(1) })
            },
        }
    }
}

impl CircuitData {
    /// The body `body` under the version `version`.
    pub fn new(version: Version, body: Vec<u8>) -> (r: CircuitData)
        ensures
            r@ == (Body { version, bytes: body@ }),
    {
        match version {
            Version::V0 => CircuitData::V0(body),
            Version::Legacy => CircuitData::Legacy(body),
            Version::V6 => CircuitData::V6(body),
            Version::V7 => CircuitData::V7(body),
            Version::V8 => CircuitData::V8(body),
            Version::V9 => CircuitData::V9(body),
            Version::V10 => CircuitData::V10(body),
        }
    }

    /// The version that the body was saved in.
    pub fn version(&self) -> (r: Version)
        ensures
            r == self@.version,
    {
        match self {
            CircuitData::V0(_) => Version::V0,
            CircuitData::Legacy(_) => Version::Legacy,
            CircuitData::V6(_) => Version::V6,
            CircuitData::V7(_) => Version::V7,
            CircuitData::V8(_) => Version::V8,
            CircuitData::V9(_) => Version::V9,
            CircuitData::V10(_) => Version::V10,
        }
    }

    /// The bytes of the body.
    pub fn body(&self) -> (r: &[u8])
        ensures
            r@ == self@.bytes,
    {
        match self {
            CircuitData::V0(body) => body.as_slice(),
            CircuitData::Legacy(body) => body.as_slice(),
            CircuitData::V6(body) => body.as_slice(),
            CircuitData::V7(body) => body.as_slice(),
            CircuitData::V8(body) => body.as_slice(),
            CircuitData::V9(body) => body.as_slice(),
            CircuitData::V10(body) => body.as_slice(),
        }
    }

    /// Takes a save file apart: reads the version byte and brings the rest
    /// of the file into the clear. On success all of `input` is consumed;
    /// on failure `input` stays where it was.
    pub fn parse(input: &mut &[u8]) -> (r: Result<CircuitData, DecodeError>)
        ensures
            match load_spec(old(input)@) {
                Ok(body) => r is Ok && r.unwrap()@ == body && final(input)@.len() == 0,
                Err(e) => r == Err::<CircuitData, DecodeError>(e) && final(input)@ == old(input)@,
            },
    {
        let all: &[u8] = *input;
        if all.len() == 0 {
            return Err(DecodeError::Truncated);
        }
        let version = Version::from_tag(all[0])?;
        let rest = slice_subrange(all, 1, all.len());
        let body: Vec<u8> = if version.compressed() {
            match decompress(rest) {
                Ok(body) => body,
                Err(_) => {
                    return Err(DecodeError::Compression);
                },
            }
        } else {
            slice_to_vec(rest)
        };
        *input = slice_subrange(all, all.len(), all.len());
        Ok(CircuitData::new(version, body))
    }
}

/// A decoded save file.
#[derive(Debug)]
pub enum Record<'a> {
    Legacy(legacy::CircuitData<'a>),
    V6(v6::CircuitData<'a>),
    V7(v7::CircuitData<'a>),
    V10(v10::CircuitData<'a>),
    /// The body of a version whose records this library does not decode.
    Undecoded(Version, &'a [u8]),
}

/// What a `Record` stands for.
pub enum RecordModel {
    Legacy(legacy::CircuitDataModel),
    V6(v6::CircuitDataModel),
    V7(v7::CircuitDataModel),
    V10(v10::CircuitDataModel),
    Undecoded(Version, Seq<u8>),
}

impl<'a> View for Record<'a> {
    type V = RecordModel;

    open spec fn view(&self) -> RecordModel {
        match *self {
            Record::Legacy(data) => RecordModel::Legacy(data@),
            Record::V6(data) => RecordModel::V6(data@),
            Record::V7(data) => RecordModel::V7(data@),
            Record::V10(data) => RecordModel::V10(data@),
            Record::Undecoded(version, body) => RecordModel::Undecoded(version, body@),
        }
    }
}

/// What a body decodes to under its version. The record stands at the
/// front of the body; bytes behind it are not read.
pub open spec fn record_spec(body: Body) -> Result<RecordModel, DecodeError> {
    match body.version {
        Version::Legacy => match legacy::body_spec(body.bytes) {
            Ok(v) => Ok(RecordModel::Legacy(v)),
            Err(e) => Err(e),
        },
        Version::V6 => match v6::CircuitData::parse_spec(body.bytes) {
            Ok((v, _)) => Ok(RecordModel::V6(v)),
            Err(e) => Err(e),
        },
        Version::V7 => match v7::CircuitData::parse_spec(body.bytes) {
            Ok((v, _)) => Ok(RecordModel::V7(v)),
            Err(e) => Err(e),
        },
        Version::V10 => match v10::CircuitData::parse_spec(body.bytes) {
            Ok((v, _)) => Ok(RecordModel::V10(v)),
            Err(e) => Err(e),
        },
        version => Ok(RecordModel::Undecoded(version, body.bytes)),
    }
}

/// What a save file decodes to: its body is brought into the clear, and the
/// record is decoded from the body.
pub open spec fn decode_spec(input: Seq<u8>) -> Result<RecordModel, DecodeError> {
    match load_spec(input) {
        Ok(body) => record_spec(body),
        Err(e) => Err(e),
    }
}

impl CircuitData {
    /// Decodes the record that the body holds, with the decoder of its
    /// version. The record borrows from the body.
    pub fn decode(&self) -> (r: Result<Record<'_>, DecodeError>)
        ensures
            match record_spec(self@) {
                Ok(v) => r is Ok && r.unwrap()@ == v,
                Err(e) => r == Err::<Record<'_>, DecodeError>(e),
            },
    {
        match self {
            CircuitData::Legacy(body) => {
                let mut input: &[u8] = body.as_slice();
                Ok(Record::Legacy(legacy::CircuitData::parse(&mut input)?))
            },
            CircuitData::V6(body) => {
                let mut input: &[u8] = body.as_slice();
                Ok(Record::V6(v6::CircuitData::parse(&mut input)?))
            },
            CircuitData::V7(body) => {
                let mut input: &[u8] = body.as_slice();
                Ok(Record::V7(v7::CircuitData::parse(&mut input)?))
            },
            CircuitData::V10(body) => {
                let mut input: &[u8] = body.as_slice();
                Ok(Record::V10(v10::CircuitData::parse(&mut input)?))
            },
            CircuitData::V0(body) => Ok(Record::Undecoded(Version::V0, body.as_slice())),
            CircuitData::V8(body) => Ok(Record::Undecoded(Version::V8, body.as_slice())),
            CircuitData::V9(body) => Ok(Record::Undecoded(Version::V9, body.as_slice())),
        }
    }
}

} // verus!
