//! Monetary amounts.

use crate::consensus::encode_u64;
use crate::consensus::lemma_u64_decode_is_canonical;
use crate::consensus::lemma_u64_round_trip;
use crate::consensus::spec_decode_u64;
use crate::consensus::spec_encode_u64;
use crate::consensus::ByteReader;
use crate::consensus::ConsensusDecoding;
use crate::consensus::ConsensusEncoding;
use crate::consensus::ConsensusEncodingSized;
use crate::consensus::DecodeError;
use crate::consensus::Decoded;
use crate::text::decimal_string;
use crate::text::spec_decimal;
use vstd::prelude::*;
use vstd::string::StringExecFns;
use vstd::std_specs::convert::FromSpecImpl;

verus! {

/// An amount in the smallest unit, a millionth of a Tari.
#[derive(Debug, Clone, Copy, PartialEq, Eq, Structural, Hash)]
pub struct MicroTari(pub u64);

/// An amount as text: the number of the smallest unit, then the unit.
pub open spec fn spec_micro_tari_text(amount: MicroTari) -> Seq<char> {
    spec_decimal(amount.0 as nat) + " µT"@
}

impl MicroTari {
    /// The amount as text.
    pub fn to_string(&self) -> (text: String)
        ensures
            text@ == spec_micro_tari_text(*self),
    {
        decimal_string(self.0).concat(" µT")
    }

    /// The amount as a number of the smallest unit.
    pub fn as_u64(&self) -> (value: u64)
        ensures
            value == self.0,
    {
        self.0
    }
}

impl ConsensusEncoding for MicroTari {
    type Model = u64;

    /// The number of the smallest unit.
    open spec fn model(&self) -> u64 {
        self.0
    }

    /// An amount is written as a `u64`.
    open spec fn spec_encode(model: u64) -> Seq<u8> {
        spec_encode_u64(model)
    }

    open spec fn spec_is_valid(model: u64) -> bool {
        true
    }

    fn consensus_encode(&self, writer: &mut Vec<u8>) {
        encode_u64(self.0, writer);
    }
}

impl ConsensusEncodingSized for MicroTari {
    fn consensus_encode_exact_size(&self) -> (size: usize)
        ensures
            size == 8,
    {
        8
    }
}

impl ConsensusDecoding for MicroTari {
    open spec fn spec_decode(bytes: Seq<u8>) -> Decoded<u64> {
        spec_decode_u64(bytes)
    }

    fn consensus_decode(reader: &mut ByteReader) -> (amount: Result<MicroTari, DecodeError>) {
        let value = reader.read_u64()?;
        Ok(MicroTari(value))
    }

    proof fn lemma_consumed_is_bounded(bytes: Seq<u8>) {
    }

    proof fn lemma_round_trip(model: u64, rest: Seq<u8>) {
        lemma_u64_round_trip(model, rest);
    }

    proof fn lemma_model_is_faithful(a: MicroTari, b: MicroTari) {
    }

    proof fn lemma_decode_is_canonical(bytes: Seq<u8>) {
        lemma_u64_decode_is_canonical(bytes);
    }
}

impl From<u64> for MicroTari {
    fn from(value: u64) -> (amount: MicroTari) {
        MicroTari(value)
    }
}

impl FromSpecImpl<u64> for MicroTari {
    open spec fn obeys_from_spec() -> bool {
        true
    }

    open spec fn from_spec(value: u64) -> MicroTari {
        MicroTari(value)
    }
}

} // verus!
