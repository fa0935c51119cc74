//! The canonical wire encoding of consensus entities.
//!
//! An entity is written as a fixed sequence of fields with no padding and no
//! length prefix. Decoding reads exactly the bytes that encoding writes and
//! accepts nothing else. It reads field by field: a read that finds too few
//! bytes takes none, and a field that is read and then found wanting has been
//! taken, so that a failed decode leaves the reader behind the last bytes it
//! took. Each entity states its encoding as a spec function from its model to
//! bytes and its decoding as a spec function from bytes to what is yielded and
//! the number of bytes taken.

use crate::bytes::append_bytes;
use vstd::bytes::lemma_auto_spec_u64_to_from_le_bytes;
use vstd::bytes::spec_u64_from_le_bytes;
use vstd::bytes::spec_u64_to_le_bytes;
use vstd::bytes::u64_from_le_bytes;
use vstd::bytes::u64_to_le_bytes;
use vstd::prelude::*;
use vstd::slice::slice_subrange;

verus! {

/// Why a byte string is not the encoding of an entity.
#[derive(Debug, Clone, Copy, PartialEq, Eq, Structural, Hash)]
pub enum DecodeError {
    /// The input ends before the entity does.
    UnexpectedEof,
    /// The presence byte of an optional field is neither 0 nor 1.
    InvalidOptionTag(u8),
    /// The byte names no output type.
    InvalidOutputType(u8),
    /// The byte names no kernel version.
    InvalidKernelVersion(u8),
    /// The 32 bytes are no canonical encoding of a group element.
    InvalidPublicKey,
    /// The 32 bytes are no canonical encoding of a scalar.
    InvalidSecretKey,
}

/// What a decoder does on a given input: the value it yields or the reason it
/// rejects the input, and the number of bytes it has taken when it is done,
/// in either case.
pub struct Decoded<T> {
    pub result: Result<T, DecodeError>,
    pub consumed: nat,
}

/// The decoder yields a value and has taken so many bytes.
pub open spec fn accepted<T>(value: T, consumed: nat) -> Decoded<T> {
    Decoded { result: Ok(value), consumed }
}

/// The decoder rejects the input and has taken so many bytes.
pub open spec fn rejected<T>(error: DecodeError, consumed: nat) -> Decoded<T> {
    Decoded { result: Err(error), consumed }
}

impl<T> Decoded<T> {
    /// The same outcome for a decoder that had taken `taken` bytes before.
    pub open spec fn after(self, taken: nat) -> Decoded<T> {
        Decoded { result: self.result, consumed: taken + self.consumed }
    }
}

/// One byte stands for itself.
pub open spec fn spec_decode_u8(bytes: Seq<u8>) -> Decoded<u8> {
    if bytes.len() < 1 {
        rejected(DecodeError::UnexpectedEof, 0)
    } else {
        accepted(bytes[0], 1)
    }
}

/// The weight of the byte at a place of a little-endian number: 256 to the
/// power of the place.
pub open spec fn spec_byte_weight(place: int) -> int {
    if place <= 0 {
        1
    } else if place == 1 {
        0x100
    } else if place == 2 {
        0x1_0000
    } else if place == 3 {
        0x100_0000
    } else if place == 4 {
        0x1_0000_0000
    } else if place == 5 {
        0x100_0000_0000
    } else if place == 6 {
        0x1_0000_0000_0000
    } else {
        0x100_0000_0000_0000
    }
}

/// A `u64` is written as eight bytes, least significant first: the byte at a
/// place is the digit of the number at that place in base 256.
pub open spec fn spec_encode_u64(value: u64) -> Seq<u8> {
    Seq::new(8, |place: int| (value as int / spec_byte_weight(place) % 256) as u8)
}

/// The number that eight bytes stand for, least significant first.
pub open spec fn spec_u64_of_bytes(bytes: Seq<u8>) -> int {
    bytes[0] + bytes[1] * 0x100 + bytes[2] * 0x1_0000 + bytes[3] * 0x100_0000 + bytes[4]
        * 0x1_0000_0000 + bytes[5] * 0x100_0000_0000 + bytes[6] * 0x1_0000_0000_0000 + bytes[7]
        * 0x100_0000_0000_0000
}

/// Eight bytes are read, and every eight bytes are a number.
pub open spec fn spec_decode_u64(bytes: Seq<u8>) -> Decoded<u64> {
    if bytes.len() < 8 {
        rejected(DecodeError::UnexpectedEof, 0)
    } else {
        accepted(spec_u64_of_bytes(bytes.subrange(0, 8)) as u64, 8)
    }
}

/// The digits of a number in base 256 are the bytes that the machine writes
/// for it, least significant first.
proof fn lemma_encode_u64_is_little_endian(value: u64)
    ensures
        spec_encode_u64(value) == spec_u64_to_le_bytes(value),
{
    vstd::bytes::spec_u64_to_le_bytes_to_open(value);
    assert(value & 0xff == value % 0x100) by (bit_vector);
    assert((value >> 8) & 0xff == value / 0x100 % 0x100) by (bit_vector);
    assert((value >> 16) & 0xff == value / 0x1_0000 % 0x100) by (bit_vector);
    assert((value >> 24) & 0xff == value / 0x100_0000 % 0x100) by (bit_vector);
    assert((value >> 32) & 0xff == value / 0x1_0000_0000 % 0x100) by (bit_vector);
    assert((value >> 40) & 0xff == value / 0x100_0000_0000 % 0x100) by (bit_vector);
    assert((value >> 48) & 0xff == value / 0x1_0000_0000_0000 % 0x100) by (bit_vector);
    assert((value >> 56) & 0xff == value / 0x100_0000_0000_0000 % 0x100) by (bit_vector);
}

/// A number is the sum of its digits in base 256, each with its weight.
proof fn lemma_u64_is_sum_of_digits(value: u64)
    ensures
        spec_u64_of_bytes(spec_encode_u64(value)) == value,
{
    assert(value == value % 0x100 + (value / 0x100 % 0x100) * 0x100 + (value / 0x1_0000 % 0x100)
        * 0x1_0000 + (value / 0x100_0000 % 0x100) * 0x100_0000 + (value / 0x1_0000_0000 % 0x100)
        * 0x1_0000_0000 + (value / 0x100_0000_0000 % 0x100) * 0x100_0000_0000 + (value
        / 0x1_0000_0000_0000 % 0x100) * 0x1_0000_0000_0000 + (value / 0x100_0000_0000_0000 % 0x100)
        * 0x100_0000_0000_0000) by (bit_vector);
}

/// Eight bytes stand for the number that the machine reads from them, least
/// significant first, and that number fits in a `u64`.
proof fn lemma_decode_u64_is_little_endian(bytes: Seq<u8>)
    requires
        bytes.len() == 8,
    ensures
        spec_u64_of_bytes(bytes) == spec_u64_from_le_bytes(bytes),
        spec_encode_u64(spec_u64_from_le_bytes(bytes)) == bytes,
{
    lemma_auto_spec_u64_to_from_le_bytes();
    let value = spec_u64_from_le_bytes(bytes);
    lemma_encode_u64_is_little_endian(value);
    lemma_u64_is_sum_of_digits(value);
}

/// The first 32 bytes of the input, unchecked.
pub open spec fn spec_decode_array_32(bytes: Seq<u8>) -> Decoded<Seq<u8>> {
    if bytes.len() < 32 {
        rejected(DecodeError::UnexpectedEof, 0)
    } else {
        accepted(bytes.subrange(0, 32), 32)
    }
}

/// Decoding the encoding of a `u64`, whatever follows it, gives it back.
pub proof fn lemma_u64_round_trip(value: u64, rest: Seq<u8>)
    ensures
        spec_encode_u64(value).len() == 8,
        spec_decode_u64(spec_encode_u64(value) + rest) == accepted(value, 8),
{
    lemma_u64_is_sum_of_digits(value);
}

/// Only the encoding of the decoded `u64` decodes to it.
pub proof fn lemma_u64_decode_is_canonical(bytes: Seq<u8>)
    requires
        spec_decode_u64(bytes).result is Ok,
    ensures
        bytes.subrange(0, 8) == spec_encode_u64(spec_decode_u64(bytes).result->Ok_0),
{
    lemma_decode_u64_is_little_endian(bytes.subrange(0, 8));
}

/// A cursor over a byte string: the bytes it reads from and how many of them
/// it has taken. `remaining` is what has not been taken yet.
#[derive(Clone, Copy)]
pub struct ByteReader<'a> {
    bytes: &'a [u8],
    position: usize,
}

impl<'a> ByteReader<'a> {
    #[verifier::type_invariant]
    spec fn well_formed(self) -> bool {
        self.position <= self.bytes@.len()
    }

    /// All the bytes that the reader reads from.
    pub closed spec fn source(&self) -> Seq<u8> {
        self.bytes@
    }

    /// The number of bytes that have been taken.
    pub closed spec fn position(&self) -> nat {
        self.position as nat
    }

    /// The bytes that have not been taken yet: the source behind the
    /// position.
    pub open spec fn remaining(&self) -> Seq<u8> {
        self.source().skip(self.position() as int)
    }

    /// A reader at the start of the bytes.
    pub fn new(bytes: &'a [u8]) -> (reader: Self)
        ensures
            reader.source() == bytes@,
            reader.position() == 0,
            reader.remaining() == bytes@,
    {
        ByteReader { bytes, position: 0 }
    }

    /// The number of bytes taken so far.
    pub fn consumed_len(&self) -> (len: usize)
        ensures
            len == self.position(),
            len <= self.source().len(),
    {
        proof {
            use_type_invariant(self);
        }
        self.position
    }

    /// The number of bytes left.
    pub fn remaining_len(&self) -> (len: usize)
        ensures
            len == self.remaining().len(),
    {
        proof {
            use_type_invariant(self);
        }
        self.bytes.len() - self.position
    }

    /// Whether every byte has been read.
    pub fn is_finished(&self) -> (finished: bool)
        ensures
            finished == (self.remaining().len() == 0),
    {
        self.remaining_len() == 0
    }

    /// Takes the next `count` bytes, or nothing if fewer are left.
    pub fn read_bytes(&mut self, count: usize) -> (taken: Result<&'a [u8], DecodeError>)
        ensures
            old(self).remaining().len() >= count ==> taken is Ok && taken->Ok_0@ == old(
                self,
            ).remaining().subrange(0, count as int) && moves(*old(self), *final(self), count as nat),
            old(self).remaining().len() < count ==> taken == Err::<&[u8], DecodeError>(
                DecodeError::UnexpectedEof,
            ) && moves(*old(self), *final(self), 0),
    {
        proof {
            use_type_invariant(&*self);
        }
        if self.bytes.len() - self.position < count {
            assert(self.remaining().skip(0) =~= self.remaining());
            return Err(DecodeError::UnexpectedEof);
        }
        let start = self.position;
        let taken = slice_subrange(self.bytes, start, start + count);
        self.position = start + count;
        assert(taken@ =~= old(self).remaining().subrange(0, count as int));
        assert(self.remaining() =~= old(self).remaining().skip(count as int));
        Ok(taken)
    }

    /// Reads one byte.
    pub fn read_u8(&mut self) -> (value: Result<u8, DecodeError>)
        ensures
            reads(*old(self), *final(self), value, spec_decode_u8(old(self).remaining())),
    {
        let taken = self.read_bytes(1)?;
        Ok(taken[0])
    }

    /// Reads a `u64`.
    pub fn read_u64(&mut self) -> (value: Result<u64, DecodeError>)
        ensures
            reads(*old(self), *final(self), value, spec_decode_u64(old(self).remaining())),
    {
        let taken = self.read_bytes(8)?;
        proof {
            lemma_decode_u64_is_little_endian(taken@);
        }
        Ok(u64_from_le_bytes(taken))
    }

    /// Reads 32 bytes.
    pub fn read_array_32(&mut self) -> (value: Result<[u8; 32], DecodeError>)
        ensures
            moves(*old(self), *final(self), spec_decode_array_32(old(self).remaining()).consumed),
            match spec_decode_array_32(old(self).remaining()).result {
                Ok(bytes) => value is Ok && value->Ok_0@ == bytes,
                Err(error) => value == Err::<[u8; 32], DecodeError>(error),
            },
    {
        let taken = self.read_bytes(32)?;
        let mut array = [0u8; 32];
        let mut i: usize = 0;
        while i < 32
            invariant
                i <= 32,
                taken@.len() == 32,
                forall|j: int| 0 <= j < i ==> array@[j] == taken@[j],
            decreases 32 - i,
        {
            array[i] = taken[i];
            i += 1;
        }
        Ok(array)
    }
}

/// The reader has taken `count` more bytes of the same source.
pub open spec fn moves(before: ByteReader, after: ByteReader, count: nat) -> bool {
    &&& count <= before.remaining().len()
    &&& after.source() == before.source()
    &&& after.position() == before.position() + count
    &&& after.remaining() == before.remaining().skip(count as int)
}

/// A reader that has taken some bytes and then some more has taken the sum.
pub proof fn lemma_moves_twice(
    before: ByteReader,
    between: ByteReader,
    after: ByteReader,
    first: nat,
    second: nat,
)
    requires
        moves(before, between, first),
        moves(between, after, second),
    ensures
        moves(before, after, first + second),
        before.remaining().skip(first as int).skip(second as int) == before.remaining().skip(
            (first + second) as int,
        ),
{
    assert(before.remaining().skip(first as int).skip(second as int) =~= before.remaining().skip(
        (first + second) as int,
    ));
}

/// What a read that follows `expected` does: it returns what is expected,
/// the value or the error, and has taken the bytes that are expected to be
/// taken.
pub open spec fn reads<T>(
    before: ByteReader,
    after: ByteReader,
    got: Result<T, DecodeError>,
    expected: Decoded<T>,
) -> bool {
    got == expected.result && moves(before, after, expected.consumed)
}

/// Writes a `u64`.
pub fn encode_u64(value: u64, writer: &mut Vec<u8>)
    ensures
        final(writer)@ == old(writer)@ + spec_encode_u64(value),
{
    let bytes = u64_to_le_bytes(value);
    proof {
        lemma_encode_u64_is_little_endian(value);
    }
    append_bytes(writer, bytes.as_slice());
}

/// An entity with a canonical encoding. The encoding is a function of the
/// entity's model: the plain values it stands for.
pub trait ConsensusEncoding {
    /// What an entity is, as plain values.
    type Model;

    /// The model of this entity.
    spec fn model(&self) -> Self::Model;

    /// The canonical encoding of a model.
    spec fn spec_encode(model: Self::Model) -> Seq<u8>;

    /// Whether a model is that of an entity. Every entity that executable
    /// code can reach has such a model.
    spec fn spec_is_valid(model: Self::Model) -> bool;

    /// Writes the canonical encoding to the end of `writer`.
    fn consensus_encode(&self, writer: &mut Vec<u8>)
        ensures
            final(writer)@ == old(writer)@ + Self::spec_encode(self.model()),
            Self::spec_is_valid(self.model()),
    ;
}

/// An entity that knows the length of its encoding without writing it.
pub trait ConsensusEncodingSized: ConsensusEncoding {
    /// The length of the canonical encoding.
    fn consensus_encode_exact_size(&self) -> (size: usize)
        requires
            Self::spec_encode(self.model()).len() <= usize::MAX,
        ensures
            size == Self::spec_encode(self.model()).len(),
    ;
}

/// What a decoder that follows `expected` does: it returns an entity of the
/// model that is expected, or the error that is expected, and has taken the
/// bytes that are expected to be taken: on success the encoding of the
/// entity, on failure what it had read when it failed.
pub open spec fn decodes<T: ConsensusEncoding>(
    before: ByteReader,
    after: ByteReader,
    got: Result<T, DecodeError>,
    expected: Decoded<T::Model>,
) -> bool {
    &&& moves(before, after, expected.consumed)
    &&& match expected.result {
        Ok(model) => got is Ok && got->Ok_0.model() == model,
        Err(error) => got == Err::<T, DecodeError>(error),
    }
}

/// An entity that can be read back from its canonical encoding. This is the
/// contract of the codec: what is read is what was written, and nothing is
/// read that was not written.
pub trait ConsensusDecoding: ConsensusEncoding + Sized {
    /// What decoding does on a given input.
    spec fn spec_decode(bytes: Seq<u8>) -> Decoded<Self::Model>;

    /// Reads one entity from the reader. On failure the reader is left behind
    /// the last bytes that were taken.
    fn consensus_decode(reader: &mut ByteReader) -> (value: Result<Self, DecodeError>)
        ensures
            decodes(*old(reader), *final(reader), value, Self::spec_decode(old(reader).remaining())),
    ;

    /// A decoder takes no more bytes than there are, whether it succeeds or
    /// fails.
    proof fn lemma_consumed_is_bounded(bytes: Seq<u8>)
        ensures
            Self::spec_decode(bytes).consumed <= bytes.len(),
    ;

    /// Decoding the encoding of an entity, whatever follows it, gives the
    /// entity back and takes exactly its encoding.
    proof fn lemma_round_trip(model: Self::Model, rest: Seq<u8>)
        requires
            Self::spec_is_valid(model),
        ensures
            Self::spec_decode(Self::spec_encode(model) + rest) == accepted(
                model,
                Self::spec_encode(model).len(),
            ),
    ;

    /// The model says all there is to say of an entity: two entities of one
    /// model are one entity.
    proof fn lemma_model_is_faithful(a: Self, b: Self)
        requires
            a.model() == b.model(),
        ensures
            a == b,
    ;

    /// Only encodings decode: what decodes starts with the encoding of the
    /// entity it decodes to, and that entity is valid.
    proof fn lemma_decode_is_canonical(bytes: Seq<u8>)
        requires
            Self::spec_decode(bytes).result is Ok,
        ensures
            Self::spec_is_valid(Self::spec_decode(bytes).result->Ok_0),
            Self::spec_decode(bytes).consumed == Self::spec_encode(
                Self::spec_decode(bytes).result->Ok_0,
            ).len(),
            Self::spec_decode(bytes).consumed <= bytes.len(),
            bytes.subrange(0, Self::spec_decode(bytes).consumed as int) == Self::spec_encode(
                Self::spec_decode(bytes).result->Ok_0,
            ),
    ;
}

impl ConsensusEncoding for u64 {
    type Model = u64;

    open spec fn model(&self) -> u64 {
        *self
    }

    open spec fn spec_encode(model: u64) -> Seq<u8> {
        spec_encode_u64(model)
    }

    open spec fn spec_is_valid(model: u64) -> bool {
        true
    }

    fn consensus_encode(&self, writer: &mut Vec<u8>) {
        encode_u64(*self, writer);
    }
}

impl ConsensusEncodingSized for u64 {
    fn consensus_encode_exact_size(&self) -> (size: usize)
        ensures
            size == 8,
    {
        8
    }
}

impl ConsensusDecoding for u64 {
    open spec fn spec_decode(bytes: Seq<u8>) -> Decoded<u64> {
        spec_decode_u64(bytes)
    }

    fn consensus_decode(reader: &mut ByteReader) -> (value: Result<u64, DecodeError>) {
        reader.read_u64()
    }

    proof fn lemma_consumed_is_bounded(bytes: Seq<u8>) {
    }

    proof fn lemma_round_trip(model: u64, rest: Seq<u8>) {
        lemma_u64_round_trip(model, rest);
    }

    proof fn lemma_model_is_faithful(a: u64, b: u64) {
    }

    proof fn lemma_decode_is_canonical(bytes: Seq<u8>) {
        lemma_u64_decode_is_canonical(bytes);
    }
}

impl<T: ConsensusEncoding> ConsensusEncoding for Option<T> {
    type Model = Option<T::Model>;

    open spec fn model(&self) -> Option<T::Model> {
        match self {
            Some(value) => Some(value.model()),
            None => None,
        }
    }

    /// An optional entity is written as a presence byte, 0 or 1, followed by
    /// the entity if it is there.
    open spec fn spec_encode(model: Option<T::Model>) -> Seq<u8> {
        match model {
            None => seq![0u8],
            Some(value) => seq![1u8] + T::spec_encode(value),
        }
    }

    open spec fn spec_is_valid(model: Option<T::Model>) -> bool {
        match model {
            None => true,
            Some(value) => T::spec_is_valid(value),
        }
    }

    fn consensus_encode(&self, writer: &mut Vec<u8>) {
        match self {
            None => {
                writer.push(0u8);
            },
            Some(value) => {
                writer.push(1u8);
                value.consensus_encode(writer);
            },
        }
    }
}

impl<T: ConsensusEncodingSized> ConsensusEncodingSized for Option<T> {
    fn consensus_encode_exact_size(&self) -> (size: usize) {
        match self {
            None => 1,
            Some(value) => 1 + value.consensus_encode_exact_size(),
        }
    }
}

impl<T: ConsensusDecoding> ConsensusDecoding for Option<T> {
    /// The presence byte is read first. A byte that is neither 0 nor 1 is
    /// rejected when it has been taken; behind a 1 the entity is read, and
    /// what that takes is taken.
    open spec fn spec_decode(bytes: Seq<u8>) -> Decoded<Option<T::Model>> {
        let tag = spec_decode_u8(bytes);
        match tag.result {
            Ok(0) => accepted(None, tag.consumed),
            Ok(1) => {
                let inner = T::spec_decode(bytes.skip(tag.consumed as int));
                match inner.result {
                    Ok(value) => accepted(Some(value), tag.consumed + inner.consumed),
                    Err(error) => rejected(error, tag.consumed + inner.consumed),
                }
            },
            Ok(other) => rejected(DecodeError::InvalidOptionTag(other), tag.consumed),
            Err(error) => rejected(error, tag.consumed),
        }
    }

    fn consensus_decode(reader: &mut ByteReader) -> (value: Result<Option<T>, DecodeError>) {
        let tag = reader.read_u8()?;
        if tag == 0 {
            Ok(None)
        } else if tag == 1 {
            let ghost between = *reader;
            let value = T::consensus_decode(reader);
            proof {
                lemma_moves_twice(
                    *old(reader),
                    between,
                    *reader,
                    1,
                    T::spec_decode(between.remaining()).consumed,
                );
            }
            match value {
                Ok(value) => Ok(Some(value)),
                Err(error) => Err(error),
            }
        } else {
            Err(DecodeError::InvalidOptionTag(tag))
        }
    }

    proof fn lemma_consumed_is_bounded(bytes: Seq<u8>) {
        if bytes.len() >= 1 {
            T::lemma_consumed_is_bounded(bytes.skip(1));
        }
    }

    proof fn lemma_model_is_faithful(a: Option<T>, b: Option<T>) {
        match (a, b) {
            (Some(x), Some(y)) => {
                T::lemma_model_is_faithful(x, y);
            },
            _ => {},
        }
    }

    proof fn lemma_round_trip(model: Option<T::Model>, rest: Seq<u8>) {
        let bytes = Self::spec_encode(model) + rest;
        match model {
            None => {},
            Some(value) => {
                T::lemma_round_trip(value, rest);
                assert(bytes.skip(1) =~= T::spec_encode(value) + rest);
            },
        }
    }

    proof fn lemma_decode_is_canonical(bytes: Seq<u8>) {
        if Self::spec_decode(bytes).result->Ok_0 is Some {
            T::lemma_decode_is_canonical(bytes.skip(1));
        }
    }
}

/// Encodes an entity and decodes it again. The entity comes back as it was,
/// its encoding has the length it said it would have, and decoding takes all
/// of it.
pub fn check_consensus_encoding_correctness<T>(subject: T) -> (decoded: Result<T, DecodeError>)
    where T: ConsensusEncoding + ConsensusEncodingSized + ConsensusDecoding,
    ensures
        decoded == Ok::<T, DecodeError>(subject),
{
    let mut buffer: Vec<u8> = Vec::new();
    subject.consensus_encode(&mut buffer);
    proof {
        T::lemma_round_trip(subject.model(), Seq::<u8>::empty());
        assert(buffer@ =~= T::spec_encode(subject.model()) + Seq::<u8>::empty());
    }
    let written = buffer.len();
    let size = subject.consensus_encode_exact_size();
    assert(written == size);
    let mut reader = ByteReader::new(buffer.as_slice());
    let decoded = T::consensus_decode(&mut reader);
    assert(reader.remaining().len() == 0);
    assert(reader.position() == written);
    proof {
        T::lemma_model_is_faithful(decoded->Ok_0, subject);
    }
    decoded
}

} // verus!
