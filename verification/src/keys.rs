//! Addresses: the on-chain address type, parsing it from text, and deriving
//! the associated holding-account address for an owner and a mint.
use vstd::prelude::*;

use crate::TokenOpError;

verus! {

#[verifier::external_type_specification]
#[verifier::external_body]
pub struct ExPubkey(solana_sdk::pubkey::Pubkey);

/// What `Pubkey::from_str` returns for a given text: `Some` exactly on valid
/// base58 encodings of 32 bytes, and then the decoded address.
pub uninterp spec fn parsed_addr(s: Seq<char>) -> Option<solana_sdk::pubkey::Pubkey>;

/// Relies on `<Pubkey as FromStr>::from_str` (solana-address): base58-decodes
/// the text into a 32-byte address. It returns an error when the text is longer
/// than 44 bytes, holds a character outside the base58 alphabet, or decodes to
/// a length other than 32 bytes; the empty text decodes to 0 bytes and is
/// therefore rejected.
#[verifier::external_body]
fn pubkey_from_text(s: &str) -> (r: Result<solana_sdk::pubkey::Pubkey, TokenOpError>)
    ensures
        r is Ok <==> parsed_addr(s@) is Some,
        r is Ok ==> r->Ok_0 == parsed_addr(s@)->Some_0,
        s@.len() == 0 ==> r is Err,
        s@.len() > 44 ==> r is Err,
{
    <solana_sdk::pubkey::Pubkey as core::str::FromStr>::from_str(s)
        .map_err(|_| TokenOpError::BadAddress)
}

/// Validates a textual mint address before any instruction is built: `Ok`
/// exactly when the text is a base58 encoding of 32 bytes. The empty text and
/// any text longer than 44 bytes are rejected.
pub fn parse_mint_address(s: &str) -> (r: Result<solana_sdk::pubkey::Pubkey, TokenOpError>)
    ensures
        r is Ok <==> parsed_addr(s@) is Some,
        r is Ok ==> r->Ok_0 == parsed_addr(s@)->Some_0,
        r is Err ==> r->Err_0 == TokenOpError::BadAddress,
        s@.len() == 0 ==> r is Err,
        s@.len() > 44 ==> r is Err,
{
    match pubkey_from_text(s) {
        Ok(p) => Ok(p),
        Err(_) => Err(TokenOpError::BadAddress),
    }
}

/// The deterministically derived associated holding-account address for an
/// owner and a mint under the token-2022 program.
pub uninterp spec fn ata_address_for(
    owner: solana_sdk::pubkey::Pubkey,
    mint: solana_sdk::pubkey::Pubkey,
) -> solana_sdk::pubkey::Pubkey;

/// Relies on `get_associated_token_address_with_program_id`
/// (spl-associated-token-account-interface): derives the program address from
/// the owner, the token-2022 program id and the mint; the result depends on
/// those inputs alone.
#[verifier::external_body]
fn derive_ata_address(
    owner: &solana_sdk::pubkey::Pubkey,
    mint: &solana_sdk::pubkey::Pubkey,
) -> (r: solana_sdk::pubkey::Pubkey)
    ensures
        r == ata_address_for(*owner, *mint),
{
    spl_associated_token_account_interface::address::get_associated_token_address_with_program_id(
        owner,
        mint,
        &spl_token_2022_interface::ID,
    )
}

/// The address of the signer's associated holding account for this mint.
pub fn associated_token_address(
    owner: &solana_sdk::pubkey::Pubkey,
    mint: &solana_sdk::pubkey::Pubkey,
) -> (r: solana_sdk::pubkey::Pubkey)
    ensures
        r == ata_address_for(*owner, *mint),
{
    derive_ata_address(owner, mint)
}

} // verus!
