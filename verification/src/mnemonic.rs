//! Seeds as mnemonic phrases.
//!
//! A seed of 16, 20, 24, 28 or 32 bytes is rendered as 12 to 24 words of a
//! word list of 2048 words: the bits of the seed, followed by a checksum of
//! one bit for every four bytes, are cut into groups of eleven, and each group
//! picks a word. The word lists and the checksum are those of BIP39, taken
//! from an outside crate: a phrase made here is a BIP39 phrase, and a wallet
//! that cuts the bits or lists the words in another way reads another seed
//! from it.

use crate::trusted::mnemonic_from_entropy;
use crate::trusted::spec_mnemonic_words;
use vstd::prelude::*;

verus! {

/// The language of a mnemonic phrase.
#[derive(Debug, Clone, Copy, PartialEq, Eq, Structural, Hash)]
pub enum MnemonicLanguage {
    ChineseSimplified,
    English,
    French,
    Italian,
    Japanese,
    Korean,
    Spanish,
}

/// Why a seed has no mnemonic phrase.
#[derive(Debug, Clone, Copy, PartialEq, Eq, Structural, Hash)]
pub enum MnemonicError {
    /// The seed is not 16, 20, 24, 28 or 32 bytes long; the length is given.
    InvalidSeedLength(usize),
}

/// The lengths in bytes that a seed may have: a multiple of four between 16
/// and 32.
pub open spec fn spec_valid_seed_length(length: nat) -> bool {
    16 <= length <= 32 && length % 4 == 0
}

/// The number of words for a seed of a valid length: three for every four
/// bytes.
pub open spec fn spec_word_count(length: nat) -> nat {
    length / 4 * 3
}

/// What `seed_words` returns: the words of the phrase, or the reason there is
/// none.
pub open spec fn spec_seed_words(language: MnemonicLanguage, entropy: Seq<u8>) -> Result<
    Seq<Seq<char>>,
    MnemonicError,
> {
    if spec_valid_seed_length(entropy.len()) {
        Ok(spec_mnemonic_words(language, entropy))
    } else {
        Err(MnemonicError::InvalidSeedLength(entropy.len() as usize))
    }
}

/// Renders a seed as a mnemonic phrase in the given language. Fails on a seed
/// whose length the encoding does not cover.
pub fn seed_words(language: MnemonicLanguage, entropy: &[u8]) -> (words: Result<
    Vec<String>,
    MnemonicError,
>)
    ensures
        match spec_seed_words(language, entropy@) {
            Ok(expected) => words is Ok && words->Ok_0.deep_view() == expected && words->Ok_0@.len()
                == spec_word_count(entropy@.len()),
            Err(error) => words == Err::<Vec<String>, MnemonicError>(error),
        },
{
    let length = entropy.len();
    if length < 16 || length > 32 || length % 4 != 0 {
        return Err(MnemonicError::InvalidSeedLength(length));
    }
    match mnemonic_from_entropy(language, entropy) {
        Some(words) => Ok(words),
        None => vstd::pervasive::unreached(),
    }
}

} // verus!
