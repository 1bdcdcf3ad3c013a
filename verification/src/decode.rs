//! Reading back on-chain state: decoding the raw bytes of the mint account and
//! of the holding account that the creation workflow fetches for verification.
use vstd::prelude::*;

use crate::TokenOpError;

verus! {

/// The decoded core fields of a mint account.
pub struct MintState {
    pub decimals: u8,
    pub supply: u64,
    pub is_initialized: bool,
    pub mint_authority: Option<solana_sdk::pubkey::Pubkey>,
    pub freeze_authority: Option<solana_sdk::pubkey::Pubkey>,
}

/// The decoded core fields of a token holding account.
pub struct HoldingState {
    pub mint: solana_sdk::pubkey::Pubkey,
    pub owner: solana_sdk::pubkey::Pubkey,
    pub amount: u64,
}

/// What `Mint::unpack_from_slice` decodes from account data: determined by the
/// first 82 bytes; `None` where their layout is invalid.
pub uninterp spec fn unpacked_mint(data: Seq<u8>) -> Option<MintState>;

/// Relies on `Mint::unpack_from_slice` (spl-token-2022-interface, through
/// solana-program-pack): decodes the fixed 82-byte base layout of a mint
/// account; the result is a function of those bytes alone. The callee reads a
/// fixed 82-byte prefix and panics on shorter input, hence the requires.
#[verifier::external_body]
fn unpack_mint(data: &[u8]) -> (r: Result<MintState, TokenOpError>)
    requires
        data@.len() >= 82,
    ensures
        r is Ok <==> unpacked_mint(data@) is Some,
        r is Ok ==> r->Ok_0 == unpacked_mint(data@)->Some_0,
{
    let m = <spl_token_2022_interface::state::Mint as solana_program_pack::Pack>::unpack_from_slice(
        data,
    ).map_err(|_| TokenOpError::Rejected)?;
    Ok(MintState {
        decimals: m.decimals,
        supply: m.supply,
        is_initialized: m.is_initialized,
        mint_authority: m.mint_authority.into(),
        freeze_authority: m.freeze_authority.into(),
    })
}

/// What `Account::unpack_from_slice` decodes from account data: determined by
/// the first 165 bytes; `None` where their layout is invalid.
pub uninterp spec fn unpacked_holding(data: Seq<u8>) -> Option<HoldingState>;

/// Relies on `Account::unpack_from_slice` (spl-token-2022-interface, through
/// solana-program-pack): decodes the fixed 165-byte base layout of a token
/// account; the result is a function of those bytes alone. The callee reads a
/// fixed 165-byte prefix and panics on shorter input, hence the requires.
#[verifier::external_body]
fn unpack_holding(data: &[u8]) -> (r: Result<HoldingState, TokenOpError>)
    requires
        data@.len() >= 165,
    ensures
        r is Ok <==> unpacked_holding(data@) is Some,
        r is Ok ==> r->Ok_0 == unpacked_holding(data@)->Some_0,
{
    let a =
        <spl_token_2022_interface::state::Account as solana_program_pack::Pack>::unpack_from_slice(
        data,
    ).map_err(|_| TokenOpError::Rejected)?;
    Ok(HoldingState { mint: a.mint, owner: a.owner, amount: a.amount })
}

/// Decodes the core fields of a fetched mint account. Account data shorter
/// than the 82-byte base layout is rejected before decoding.
pub fn decode_mint_account(data: &[u8]) -> (r: Result<MintState, TokenOpError>)
    ensures
        data@.len() < 82 ==> r is Err,
        data@.len() >= 82 ==> (r is Ok <==> unpacked_mint(data@) is Some),
        data@.len() >= 82 && r is Ok ==> r->Ok_0 == unpacked_mint(data@)->Some_0,
{
    if data.len() < 82 {
        return Err(TokenOpError::Rejected);
    }
    unpack_mint(data)
}

/// Decodes the core fields of a fetched holding account. Account data shorter
/// than the 165-byte base layout is rejected before decoding.
pub fn decode_holding_account(data: &[u8]) -> (r: Result<HoldingState, TokenOpError>)
    ensures
        data@.len() < 165 ==> r is Err,
        data@.len() >= 165 ==> (r is Ok <==> unpacked_holding(data@) is Some),
        data@.len() >= 165 && r is Ok ==> r->Ok_0 == unpacked_holding(data@)->Some_0,
{
    if data.len() < 165 {
        return Err(TokenOpError::Rejected);
    }
    unpack_holding(data)
}

} // verus!
