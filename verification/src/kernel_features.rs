//! Options for a kernel's structure or use.

use crate::consensus::ConsensusDecoding;
use crate::consensus::ConsensusEncoding;
use crate::consensus::ConsensusEncodingSized;
use crate::consensus::spec_decode_u8;
use crate::consensus::accepted;
use crate::consensus::ByteReader;
use crate::consensus::DecodeError;
use crate::consensus::Decoded;
use crate::text::lower_hex;
use crate::text::spec_lower_hex;
use vstd::prelude::*;
use vstd::string::StringExecFns;

verus! {

/// The bit that marks a coinbase kernel.
pub const COINBASE_KERNEL: u8 = 1;

/// The bit that marks a burn kernel.
pub const BURN_KERNEL: u8 = 2;

/// A set of kernel flags, one bit each. Two bits have a meaning today; the
/// others are kept as they are found, so that a kernel written by a later
/// version survives being read and written back.
#[derive(Debug, Clone, Copy, PartialEq, Eq, Structural, Hash)]
pub struct KernelFeatures {
    bits: u8,
}

impl View for KernelFeatures {
    type V = u8;

    /// The raw bit pattern.
    closed spec fn view(&self) -> u8 {
        self.bits
    }
}

/// Whether every bit of `flag` is set in `bits`.
pub open spec fn spec_contains(bits: u8, flag: u8) -> bool {
    bits & flag == flag
}

/// The bits that are no flag today.
pub const RESERVED_BITS: u8 = 0xfc;

/// A flag set as text: the names of the flags that are set, then the reserved
/// bits that are set as one hex number, with ` | ` between them; `(empty)`
/// where no bit is set.
pub open spec fn spec_kernel_features_text(bits: u8) -> Seq<char> {
    let coinbase = spec_contains(bits, COINBASE_KERNEL);
    let burn = spec_contains(bits, BURN_KERNEL);
    let reserved = bits & RESERVED_BITS;
    let first = if coinbase {
        "COINBASE_KERNEL"@
    } else {
        Seq::<char>::empty()
    };
    let second = if !burn {
        first
    } else if coinbase {
        first + " | "@ + "BURN_KERNEL"@
    } else {
        "BURN_KERNEL"@
    };
    let third = if reserved == 0 {
        second
    } else if coinbase || burn {
        second + " | "@ + "0x"@ + spec_lower_hex(reserved)
    } else {
        "0x"@ + spec_lower_hex(reserved)
    };
    if !coinbase && !burn && reserved == 0 {
        "(empty)"@
    } else {
        third
    }
}

/// The flag set is written as its bit pattern.
pub open spec fn spec_encode_kernel_features(bits: u8) -> Seq<u8> {
    seq![bits]
}

/// Every byte is a flag set.
pub open spec fn spec_decode_kernel_features(bytes: Seq<u8>) -> Decoded<u8> {
    spec_decode_u8(bytes)
}

impl KernelFeatures {
    /// The empty flag set.
    pub fn empty() -> (features: KernelFeatures)
        ensures
            features@ == 0,
    {
        KernelFeatures { bits: 0 }
    }

    /// The set of all flags that have a meaning.
    pub fn all() -> (features: KernelFeatures)
        ensures
            features@ == COINBASE_KERNEL | BURN_KERNEL,
            features@ == 3,
    {
        assert(1u8 | 2u8 == 3u8) by (bit_vector);
        KernelFeatures { bits: COINBASE_KERNEL | BURN_KERNEL }
    }

    /// The flag set with exactly the given bit pattern, unknown bits included.
    pub fn from_bits(bits: u8) -> (features: KernelFeatures)
        ensures
            features@ == bits,
    {
        KernelFeatures { bits }
    }

    /// The raw bit pattern.
    pub fn bits(&self) -> (bits: u8)
        ensures
            bits == self@,
    {
        self.bits
    }

    /// Creates a coinbase kernel flag
    pub fn create_coinbase() -> (features: KernelFeatures)
        ensures
            features@ == COINBASE_KERNEL,
    {
        KernelFeatures { bits: COINBASE_KERNEL }
    }

    /// Creates a burned kernel flag
    pub fn create_burn() -> (features: KernelFeatures)
        ensures
            features@ == BURN_KERNEL,
    {
        KernelFeatures { bits: BURN_KERNEL }
    }

    /// Whether every flag of `other` is set.
    pub fn contains(&self, other: KernelFeatures) -> (contained: bool)
        ensures
            contained == spec_contains(self@, other@),
    {
        self.bits & other.bits == other.bits
    }

    /// The flag set as text.
    pub fn to_string(&self) -> (text: String)
        ensures
            text@ == spec_kernel_features_text(self@),
    {
        let coinbase = self.is_coinbase();
        let burn = self.is_burned();
        let reserved = self.bits & RESERVED_BITS;
        if !coinbase && !burn && reserved == 0 {
            return String::from_str("(empty)");
        }
        let mut text = String::new();
        if coinbase {
            text.append("COINBASE_KERNEL");
        }
        if burn {
            if coinbase {
                text.append(" | ");
            }
            text.append("BURN_KERNEL");
        }
        if reserved != 0 {
            if coinbase || burn {
                text.append(" | ");
            }
            text.append("0x");
            text.append(lower_hex(reserved).as_str());
        }
        assert(text@ =~= spec_kernel_features_text(self@));
        text
    }

    /// Does this feature include the coinbase flag?
    pub fn is_coinbase(&self) -> (coinbase: bool)
        ensures
            coinbase == spec_contains(self@, COINBASE_KERNEL),
    {
        self.bits & COINBASE_KERNEL == COINBASE_KERNEL
    }

    /// Does this feature include the burned flag?
    pub fn is_burned(&self) -> (burned: bool)
        ensures
            burned == spec_contains(self@, BURN_KERNEL),
    {
        self.bits & BURN_KERNEL == BURN_KERNEL
    }
}

impl ConsensusEncoding for KernelFeatures {
    type Model = u8;

    /// The raw bit pattern.
    open spec fn model(&self) -> u8 {
        self@
    }

    open spec fn spec_encode(model: u8) -> Seq<u8> {
        spec_encode_kernel_features(model)
    }

    /// Every bit pattern is a flag set.
    open spec fn spec_is_valid(model: u8) -> bool {
        true
    }

    /// Writes the one byte that is the bit pattern.
    fn consensus_encode(&self, writer: &mut Vec<u8>) {
        writer.push(self.bits);
    }
}

impl ConsensusEncodingSized for KernelFeatures {
    /// The encoded length: always one byte.
    fn consensus_encode_exact_size(&self) -> (size: usize)
        ensures
            size == 1,
    {
        1
    }
}

impl ConsensusDecoding for KernelFeatures {
    open spec fn spec_decode(bytes: Seq<u8>) -> Decoded<u8> {
        spec_decode_kernel_features(bytes)
    }

    /// Reads one byte and takes it as the bit pattern, whatever it is.
    fn consensus_decode(reader: &mut ByteReader) -> (features: Result<KernelFeatures, DecodeError>) {
        let bits = reader.read_u8()?;
        Ok(KernelFeatures { bits })
    }

    /// Every bit pattern survives encoding and decoding, whatever follows it
    /// in the input.
    proof fn lemma_consumed_is_bounded(bytes: Seq<u8>) {
    }

    proof fn lemma_round_trip(model: u8, rest: Seq<u8>) {
    }

    proof fn lemma_model_is_faithful(a: KernelFeatures, b: KernelFeatures) {
    }

    /// Every byte decodes, and to the flag set that encodes to it.
    proof fn lemma_decode_is_canonical(bytes: Seq<u8>) {
    }
}

impl Default for KernelFeatures {
    fn default() -> (features: KernelFeatures)
        ensures
            features@ == 0,
    {
        KernelFeatures::empty()
    }
}

/// All 256 bit patterns are valid: every byte decodes, to the flag set with
/// exactly its bits, and that flag set encodes to the byte again.
pub proof fn lemma_kernel_features_decode_total(byte: u8, rest: Seq<u8>)
    ensures
        spec_decode_kernel_features(seq![byte] + rest) == accepted(byte, 1),
        spec_encode_kernel_features(byte) == seq![byte],
{
}

} // verus!
