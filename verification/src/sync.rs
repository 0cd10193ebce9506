//! The sync state of a circuit.

use crate::error::DecodeError;
use crate::parser::{Codec, Encode, Parse};
use vstd::prelude::*;

verus! {

/// Whether a circuit has been sent to the server, and whether it was changed since.
#[derive(Clone, Copy, Debug, PartialEq, Eq, Structural)]
pub enum SyncState {
    Unsynced,
    Synced,
    ChangedAfterSync,
}

impl View for SyncState {
    type V = SyncState;

    open spec fn view(&self) -> SyncState {
        *self
    }
}

impl SyncState {
    /// The code that stands for the state on the wire.
    pub open spec fn code(self) -> u8 {
        match self {
            SyncState::Unsynced => 0,
            SyncState::Synced => 1,
            SyncState::ChangedAfterSync => 2,
        }
    }

    /// The state that a code stands for, where the code is a known one.
    pub open spec fn of_code(code: u8) -> Option<SyncState> {
        match code {
            0 => Some(SyncState::Unsynced),
            1 => Some(SyncState::Synced),
            2 => Some(SyncState::ChangedAfterSync),
            _ => None,
        }
    }

    /// The codes from 0 to 2 are the known ones, and each stands for the
    /// state whose code it is.
    pub proof fn lemma_codes(self, code: u8)
        ensures
            Self::of_code(self.code()) == Some(self),
            Self::of_code(code) is Some <==> code <= 2,
            Self::of_code(code) is Some ==> Self::of_code(code).unwrap().code() == code,
    {
    }

    /// The state that `code` stands for; `None` for a code that is not known.
    pub fn from_code(code: u8) -> (r: Option<SyncState>)
        ensures
            r == Self::of_code(code),
    {
        match code {
            0 => Some(SyncState::Unsynced),
            1 => Some(SyncState::Synced),
            2 => Some(SyncState::ChangedAfterSync),
            _ => None,
        }
    }

    /// The code of the state.
    pub fn to_code(self) -> (r: u8)
        ensures
            r == self.code(),
    {
        match self {
            SyncState::Unsynced => 0,
            SyncState::Synced => 1,
            SyncState::ChangedAfterSync => 2,
        }
    }
}

impl<'a> Parse<'a> for SyncState {
    /// The code as a `u8`. A code that is not known is an error, never
    /// some default.
    open spec fn parse_spec(input: Seq<u8>) -> Result<(SyncState, nat), DecodeError> {
        match u8::parse_spec(input) {
            Ok((code, n)) => match SyncState::of_code(code) {
                Some(v) => Ok((v, n)),
                None => Err(DecodeError::UnknownDiscriminant),
            },
            Err(e) => Err(e),
        }
    }

    proof fn lemma_parse_local(a: Seq<u8>, b: Seq<u8>) {
        u8::lemma_parse_local(a, b);
    }

    proof fn lemma_parse_truncated(a: Seq<u8>, k: nat) {
        u8::lemma_parse_truncated(a, k);
    }

    fn parse(input: &mut &'a [u8]) -> (r: Result<Self, DecodeError>) {
        let mut cur: &'a [u8] = *input;
        let code = u8::parse(&mut cur)?;
        match SyncState::from_code(code) {
            Some(v) => {
                *input = cur;
                Ok(v)
            },
            None => Err(DecodeError::UnknownDiscriminant),
        }
    }
}

impl Encode for SyncState {
    open spec fn encode_spec(v: SyncState) -> Seq<u8> {
        u8::encode_spec(v.code())
    }

    open spec fn can_encode(v: SyncState) -> bool {
        true
    }

    fn encode(&self, out: &mut Vec<u8>) {
        self.to_code().encode(out);
    }
}

impl<'a> Codec<'a> for SyncState {
    open spec fn round_trips(v: SyncState) -> bool {
        true
    }

    open spec fn delimited(v: SyncState) -> bool {
        true
    }

    proof fn lemma_decoded(input: Seq<u8>) {
    }

    proof fn lemma_round_trip(v: SyncState, rest: Seq<u8>) {
        v.lemma_codes(0);
        u8::lemma_round_trip(v.code(), rest);
    }
}

} // verus!
