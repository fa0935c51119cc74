//! Consensus-critical transaction kernels and the wallet's key derivation.
//!
//! The library has two halves. The first is the kernel of a transaction as
//! the chain sees it: its flags, its canonical encoding, the challenge that
//! its signature signs, its hash and its place in the order of kernels. The
//! second is what a wallet keeps its keys with: branches of keys derived from
//! one master seed, the manager that holds them and can keep them encrypted,
//! and the database that the wallet's settings go through.
//!
//! Every function states what it returns over plain models: byte strings,
//! numbers and maps. Hashing, the group arithmetic, the cipher and the word
//! lists of mnemonic phrases are those of outside crates; the module `trusted`
//! lists what is assumed of them.

pub mod bytes;
pub mod consensus;
pub mod hashing;
pub mod kernel_features;
pub mod key_manager;
pub mod mnemonic;
pub mod output_type;
pub mod storage;
pub mod tari_amount;
pub mod text;
pub mod transaction_kernel;
pub mod trusted;
pub mod types;
pub mod wallet;
