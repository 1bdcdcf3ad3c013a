//! Builds the instruction sequences for a token-2022 mint with embedded
//! metadata: a creation workflow (allocate the mint, point its metadata at
//! itself, initialize mint and metadata, create the holding account, mint the
//! initial supply) and a revocation workflow (clear the freeze, mint,
//! metadata-update and metadata-pointer authorities). A ledger model of the
//! on-chain program's relevant semantics backs the stated laws.
use vstd::prelude::*;

pub mod decode;
pub mod fields;
pub mod ix;
pub mod keys;
pub mod laws;
pub mod model;
pub mod workflow;

verus! {

/// Errors the library reports while validating input or building instructions.
#[derive(Clone, Copy, Debug, PartialEq, Eq, Structural)]
pub enum TokenOpError {
    /// The textual mint address is not a base58 encoding of a 32-byte address.
    BadAddress,
    /// The client library rejected the arguments of an instruction.
    Rejected,
    /// The combined account size exceeded the machine's address range.
    SizeOverflow,
}

} // verus!
