//! The kinds of transaction output.

use crate::consensus::ConsensusDecoding;
use crate::consensus::ConsensusEncoding;
use crate::consensus::ConsensusEncodingSized;
use crate::consensus::spec_decode_u8;
use crate::consensus::accepted;
use crate::consensus::rejected;
use crate::consensus::ByteReader;
use crate::consensus::DecodeError;
use crate::consensus::Decoded;
use vstd::prelude::*;

verus! {

/// The kind of an output. The set is closed: a byte that names none of these
/// is an error wherever it is met, never a default.
#[derive(Debug, Clone, Copy, PartialEq, Eq, Structural, Hash)]
pub enum OutputType {
    /// An standard non-coinbase output.
    Standard,
    /// Output is a coinbase output, must not be spent until maturity.
    Coinbase,
    /// Output is a burned output and can not be spent ever.
    Burn,
}

/// The byte that stands for an output type.
pub open spec fn spec_as_byte(output_type: OutputType) -> u8 {
    match output_type {
        OutputType::Standard => 0,
        OutputType::Coinbase => 1,
        OutputType::Burn => 2,
    }
}

/// The output type that a byte stands for, if any.
pub open spec fn spec_from_byte(value: u8) -> Option<OutputType> {
    if value == 0 {
        Some(OutputType::Standard)
    } else if value == 1 {
        Some(OutputType::Coinbase)
    } else if value == 2 {
        Some(OutputType::Burn)
    } else {
        None
    }
}

/// An output type is written as its byte.
pub open spec fn spec_encode_output_type(output_type: OutputType) -> Seq<u8> {
    seq![spec_as_byte(output_type)]
}

/// One byte is read; it must name an output type. A byte that names none is
/// rejected when it has been taken.
pub open spec fn spec_decode_output_type(bytes: Seq<u8>) -> Decoded<OutputType> {
    let byte = spec_decode_u8(bytes);
    match byte.result {
        Ok(value) => match spec_from_byte(value) {
            Some(output_type) => accepted(output_type, byte.consumed),
            None => rejected(DecodeError::InvalidOutputType(value), byte.consumed),
        },
        Err(error) => rejected(error, byte.consumed),
    }
}

impl OutputType {
    /// Returns a single byte that represents this OutputType
    pub fn as_byte(self) -> (value: u8)
        ensures
            value == spec_as_byte(self),
    {
        match self {
            OutputType::Standard => 0,
            OutputType::Coinbase => 1,
            OutputType::Burn => 2,
        }
    }

    /// Returns the OutputType that corresponds to this OutputType. If the byte does not correspond to any OutputType,
    /// None is returned.
    pub fn from_byte(value: u8) -> (output_type: Option<OutputType>)
        ensures
            output_type == spec_from_byte(value),
    {
        match value {
            0 => Some(OutputType::Standard),
            1 => Some(OutputType::Coinbase),
            2 => Some(OutputType::Burn),
            _ => None,
        }
    }

    /// Every output type, in the order of their bytes.
    pub fn all() -> (types: [OutputType; 3])
        ensures
            types@ == seq![OutputType::Standard, OutputType::Coinbase, OutputType::Burn],
    {
        let types = [OutputType::Standard, OutputType::Coinbase, OutputType::Burn];
        types
    }

    /// The name of the variant.
    pub fn name(&self) -> (name: &'static str)
        ensures
            name@ == spec_output_type_name(*self),
    {
        match self {
            OutputType::Standard => "Standard",
            OutputType::Coinbase => "Coinbase",
            OutputType::Burn => "Burn",
        }
    }
}

impl ConsensusEncoding for OutputType {
    type Model = OutputType;

    open spec fn model(&self) -> OutputType {
        *self
    }

    open spec fn spec_encode(model: OutputType) -> Seq<u8> {
        spec_encode_output_type(model)
    }

    /// Every variant is an output type.
    open spec fn spec_is_valid(model: OutputType) -> bool {
        true
    }

    /// Writes the one byte that names the output type.
    fn consensus_encode(&self, writer: &mut Vec<u8>) {
        writer.push(self.as_byte());
    }
}

impl ConsensusEncodingSized for OutputType {
    /// The encoded length: always one byte.
    fn consensus_encode_exact_size(&self) -> (size: usize)
        ensures
            size == 1,
    {
        1
    }
}

impl ConsensusDecoding for OutputType {
    open spec fn spec_decode(bytes: Seq<u8>) -> Decoded<OutputType> {
        spec_decode_output_type(bytes)
    }

    /// Reads one byte and fails on one that names no output type.
    fn consensus_decode(reader: &mut ByteReader) -> (output_type: Result<OutputType, DecodeError>) {
        let value = reader.read_u8()?;
        match OutputType::from_byte(value) {
            Some(output_type) => Ok(output_type),
            None => Err(DecodeError::InvalidOutputType(value)),
        }
    }

    proof fn lemma_consumed_is_bounded(bytes: Seq<u8>) {
    }

    /// Every output type survives encoding and decoding, whatever follows it
    /// in the input.
    proof fn lemma_round_trip(model: OutputType, rest: Seq<u8>) {
    }

    proof fn lemma_model_is_faithful(a: OutputType, b: OutputType) {
    }

    /// What decodes starts with the byte of the output type it decodes to.
    proof fn lemma_decode_is_canonical(bytes: Seq<u8>) {
    }
}

/// The name of each variant as text.
pub open spec fn spec_output_type_name(output_type: OutputType) -> Seq<char> {
    match output_type {
        OutputType::Standard => "Standard"@,
        OutputType::Coinbase => "Coinbase"@,
        OutputType::Burn => "Burn"@,
    }
}

impl Default for OutputType {
    fn default() -> (output_type: OutputType)
        ensures
            output_type == OutputType::Standard,
    {
        OutputType::Standard
    }
}

/// The byte of an output type names that output type, and no byte above 2
/// names any.
pub proof fn lemma_output_type_byte_round_trip(output_type: OutputType, value: u8)
    ensures
        spec_from_byte(spec_as_byte(output_type)) == Some(output_type),
        spec_from_byte(value) matches Some(t) ==> spec_as_byte(t) == value,
        spec_from_byte(value) is Some <==> value <= 2,
{
}

/// One byte is taken from an input that has one, whatever the byte is: a
/// byte up to 2 gives the output type that it names, and a byte above 2 is
/// rejected, with that byte in the error.
pub proof fn lemma_output_type_decode_strict(byte: u8, rest: Seq<u8>)
    ensures
        spec_decode_output_type(seq![byte] + rest).consumed == 1,
        byte <= 2 ==> spec_decode_output_type(seq![byte] + rest).result is Ok && spec_as_byte(
            spec_decode_output_type(seq![byte] + rest).result->Ok_0,
        ) == byte,
        byte > 2 ==> spec_decode_output_type(seq![byte] + rest) == rejected::<OutputType>(
            DecodeError::InvalidOutputType(byte),
            1,
        ),
        spec_decode_output_type(Seq::<u8>::empty()) == rejected::<OutputType>(
            DecodeError::UnexpectedEof,
            0,
        ),
{
}

} // verus!
