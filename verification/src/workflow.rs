//! The two workflows' client-side logic: the account sizes the creation
//! workflow must rent, the exact instruction list of each of its transactions,
//! the fixed initial supply, and the four-transaction revocation sequence.
use vstd::prelude::*;

use crate::TokenOpError;
use crate::ix::{
    AuthorityKind, MintExtensionKind, build_clear_authority, build_clear_metadata_update_authority,
    build_create_ata_idempotent, build_create_mint_account, build_init_metadata_pointer,
    build_init_mint, build_init_token_metadata, build_mint_to, build_update_field,
    clear_authority_ix, clear_metadata_update_authority_ix, compute_metadata_tlv_len,
    compute_mint_account_len, create_ata_idempotent_ix, create_mint_account_ix,
    fits_borsh_string, init_metadata_pointer_ix, init_mint_ix, init_token_metadata_ix,
    metadata_tlv_len, mint_account_len, mint_to_ix, pairs_view, update_field_ix,
};
use crate::keys::parsed_addr;

verus! {

/// The number of decimals of the token this library creates.
pub const TOKEN_DECIMALS: u8 = 9;

/// The number of whole tokens minted as the initial supply.
pub const WHOLE_TOKENS_TO_MINT: u64 = 1_000_000_000;

/// The metadata record written on-chain: name, symbol, URI and an ordered list
/// of additional key-value fields.
pub struct TokenMeta {
    pub name: String,
    pub symbol: String,
    pub uri: String,
    pub fields: Vec<(String, String)>,
}

/// The record this library writes for its token: name "Dos", symbol "DOS", the
/// given URI, and one additional field ("description", "Dos on Solana.").
pub fn default_token_meta(uri: String) -> (r: TokenMeta)
    ensures
        r.name@ == "Dos"@,
        r.symbol@ == "DOS"@,
        r.uri == uri,
        pairs_view(r.fields@) =~= seq![("description"@, "Dos on Solana."@)],
{
    let mut fields: Vec<(String, String)> = Vec::new();
    fields.push(("description".to_owned(), "Dos on Solana.".to_owned()));
    TokenMeta { name: "Dos".to_owned(), symbol: "DOS".to_owned(), uri, fields }
}

/// The two sizes the creation workflow rents for: the mint account itself, and
/// the mint account together with the serialized metadata record.
pub struct CreationSizes {
    pub mint_space: usize,
    pub total_space: usize,
}

/// Every string of the record is short enough to serialize: the metadata
/// instructions write each one with a 32-bit byte length.
pub open spec fn meta_fits_borsh(meta: TokenMeta) -> bool {
    &&& fits_borsh_string(meta.name@)
    &&& fits_borsh_string(meta.symbol@)
    &&& fits_borsh_string(meta.uri@)
    &&& forall|i: int|
        0 <= i < meta.fields@.len() ==> fits_borsh_string(
            (#[trigger] meta.fields@[i]).0@,
        ) && fits_borsh_string(meta.fields@[i].1@)
}

/// Computes the storage the mint account needs: the size of a mint with a
/// metadata-pointer extension, and that size plus the serialized length of the
/// metadata record. The rent-exemption balance is queried for the total. It
/// succeeds exactly when both sizes exist (the update authority is not the
/// all-zero address and no serialized length overflows) and their sum fits the
/// machine.
pub fn creation_account_sizes(
    payer: &solana_sdk::pubkey::Pubkey,
    mint: &solana_sdk::pubkey::Pubkey,
    meta: &TokenMeta,
) -> (r: Result<CreationSizes, TokenOpError>)
    ensures
        r is Err ==> (r->Err_0 == TokenOpError::Rejected || r->Err_0 == TokenOpError::SizeOverflow),
        r is Ok <==> ({
            let ml = mint_account_len(seq![MintExtensionKind::MetadataPointer]);
            let tl = metadata_tlv_len(
                *payer,
                meta.name@,
                meta.symbol@,
                meta.uri@,
                pairs_view(meta.fields@),
            );
            &&& ml is Some
            &&& tl is Some
            &&& ml->Some_0 + tl->Some_0 <= usize::MAX
        }),
        r is Ok ==> {
            &&& r->Ok_0.mint_space == mint_account_len(
                seq![MintExtensionKind::MetadataPointer],
            )->Some_0
            &&& r->Ok_0.total_space == r->Ok_0.mint_space + metadata_tlv_len(
                *payer,
                meta.name@,
                meta.symbol@,
                meta.uri@,
                pairs_view(meta.fields@),
            )->Some_0
        },
{
    let mut extensions: Vec<MintExtensionKind> = Vec::new();
    extensions.push(MintExtensionKind::MetadataPointer);
    assert(extensions@ =~= seq![MintExtensionKind::MetadataPointer]);
    let mint_space = match compute_mint_account_len(&extensions) {
        Ok(n) => n,
        Err(e) => {
            return Err(e);
        },
    };
    let tlv = match compute_metadata_tlv_len(
        payer,
        mint,
        &meta.name,
        &meta.symbol,
        &meta.uri,
        &meta.fields,
    ) {
        Ok(n) => n,
        Err(e) => {
            return Err(e);
        },
    };
    match mint_space.checked_add(tlv) {
        Some(total) => Ok(CreationSizes { mint_space, total_space: total }),
        None => Err(TokenOpError::SizeOverflow),
    }
}

/// The instruction list of the creation workflow's first transaction: allocate
/// the mint account, initialize its metadata pointer to itself, initialize the
/// mint (the signer as mint and freeze authority, 9 decimals), initialize the
/// metadata record, then one field update per additional pair, in input order.
/// The record's strings must be short enough to serialize (`meta_fits_borsh`);
/// the builders abort on longer ones.
pub fn creation_instructions(
    payer: &solana_sdk::pubkey::Pubkey,
    mint: &solana_sdk::pubkey::Pubkey,
    rent: u64,
    mint_space: u64,
    meta: &TokenMeta,
) -> (r: Result<Vec<solana_sdk::instruction::Instruction>, TokenOpError>)
    requires
        meta_fits_borsh(*meta),
    ensures
        r is Ok <==> init_metadata_pointer_ix(*mint, *payer, *mint) is Some,
        r is Err ==> r->Err_0 == TokenOpError::Rejected,
        r is Ok ==> {
            let ixs = r->Ok_0@;
            let fv = pairs_view(meta.fields@);
            &&& ixs.len() == 4 + meta.fields@.len()
            &&& ixs[0] == create_mint_account_ix(*payer, *mint, rent, mint_space)
            &&& ixs[1] == init_metadata_pointer_ix(*mint, *payer, *mint)->Some_0
            &&& ixs[2] == init_mint_ix(*mint, *payer, Some(*payer), TOKEN_DECIMALS)
            &&& ixs[3] == init_token_metadata_ix(
                *mint,
                *payer,
                *payer,
                meta.name@,
                meta.symbol@,
                meta.uri@,
            )
            &&& forall|i: int|
                0 <= i < fv.len() ==> ixs[4 + i] == update_field_ix(
                    *mint,
                    *payer,
                    fv[i].0,
                    fv[i].1,
                )
        },
{
    let pointer = match build_init_metadata_pointer(mint, payer, mint) {
        Ok(ix) => ix,
        Err(e) => {
            return Err(e);
        },
    };
    let mut ixs: Vec<solana_sdk::instruction::Instruction> = Vec::new();
    ixs.push(build_create_mint_account(payer, mint, rent, mint_space));
    ixs.push(pointer);
    ixs.push(build_init_mint(mint, payer, Some(payer), TOKEN_DECIMALS));
    ixs.push(build_init_token_metadata(mint, payer, payer, &meta.name, &meta.symbol, &meta.uri));
    let n = meta.fields.len();
    let mut i: usize = 0;
    while i < n
        invariant
            meta_fits_borsh(*meta),
            i <= n,
            n == meta.fields@.len(),
            ixs@.len() == 4 + i,
            ixs@[0] == create_mint_account_ix(*payer, *mint, rent, mint_space),
            init_metadata_pointer_ix(*mint, *payer, *mint) is Some,
            ixs@[1] == init_metadata_pointer_ix(*mint, *payer, *mint)->Some_0,
            ixs@[2] == init_mint_ix(*mint, *payer, Some(*payer), TOKEN_DECIMALS),
            ixs@[3] == init_token_metadata_ix(
                *mint,
                *payer,
                *payer,
                meta.name@,
                meta.symbol@,
                meta.uri@,
            ),
            forall|t: int|
                0 <= t < i ==> ixs@[4 + t] == update_field_ix(
                    *mint,
                    *payer,
                    pairs_view(meta.fields@)[t].0,
                    pairs_view(meta.fields@)[t].1,
                ),
        decreases n - i,
    {
        ixs.push(build_update_field(mint, payer, &meta.fields[i].0, &meta.fields[i].1));
        i = i + 1;
    }
    Ok(ixs)
}

/// The creation workflow's second transaction: idempotently create the
/// signer's associated holding account for this mint.
pub fn ata_creation_instruction(
    payer: &solana_sdk::pubkey::Pubkey,
    owner: &solana_sdk::pubkey::Pubkey,
    mint: &solana_sdk::pubkey::Pubkey,
) -> (r: solana_sdk::instruction::Instruction)
    ensures
        r == create_ata_idempotent_ix(*payer, *owner, *mint),
{
    build_create_ata_idempotent(payer, owner, mint)
}

/// The minted base-unit amount: 10^9 whole tokens at 9 decimals, so exactly
/// 10^18 base units, whatever the network does.
pub fn initial_supply_base_units() -> (r: u64)
    ensures
        r == 1_000_000_000_000_000_000u64,
{
    let per_whole_token: u64 = 1_000_000_000;
    WHOLE_TOKENS_TO_MINT * per_whole_token
}

/// The creation workflow's third transaction: mint the fixed initial supply
/// into the holding account, with the signer as mint authority.
pub fn mint_initial_supply_instruction(
    mint: &solana_sdk::pubkey::Pubkey,
    destination: &solana_sdk::pubkey::Pubkey,
    authority: &solana_sdk::pubkey::Pubkey,
) -> (r: solana_sdk::instruction::Instruction)
    ensures
        r == mint_to_ix(*mint, *destination, *authority, 1_000_000_000_000_000_000u64),
{
    let amount = initial_supply_base_units();
    build_mint_to(mint, destination, authority, amount)
}

/// The revocation workflow's four instructions, one transaction each, in
/// order: clear the freeze authority, the mint authority, the metadata-update
/// authority, and the metadata-pointer authority. The textual mint address is
/// validated first; malformed text (the empty text, text longer than 44
/// bytes, or any text that is not a base58 encoding of 32 bytes) fails before
/// any instruction is built.
pub fn revocation_instructions(mint_text: &str, payer: &solana_sdk::pubkey::Pubkey) -> (r: Result<
    Vec<solana_sdk::instruction::Instruction>,
    TokenOpError,
>)
    ensures
        r is Ok <==> parsed_addr(mint_text@) is Some,
        r is Err ==> r->Err_0 == TokenOpError::BadAddress,
        mint_text@.len() == 0 ==> r is Err,
        mint_text@.len() > 44 ==> r is Err,
        r is Ok ==> {
            let m = parsed_addr(mint_text@)->Some_0;
            let ixs = r->Ok_0@;
            &&& ixs.len() == 4
            &&& ixs[0] == clear_authority_ix(m, AuthorityKind::FreezeAccount, *payer)
            &&& ixs[1] == clear_authority_ix(m, AuthorityKind::MintTokens, *payer)
            &&& ixs[2] == clear_metadata_update_authority_ix(m, *payer)
            &&& ixs[3] == clear_authority_ix(m, AuthorityKind::MetadataPointer, *payer)
        },
{
    let mint = match crate::keys::parse_mint_address(mint_text) {
        Ok(p) => p,
        Err(e) => {
            return Err(e);
        },
    };
    let mut ixs: Vec<solana_sdk::instruction::Instruction> = Vec::new();
    ixs.push(build_clear_authority(&mint, AuthorityKind::FreezeAccount, payer));
    ixs.push(build_clear_authority(&mint, AuthorityKind::MintTokens, payer));
    ixs.push(build_clear_metadata_update_authority(&mint, payer));
    ixs.push(build_clear_authority(&mint, AuthorityKind::MetadataPointer, payer));
    Ok(ixs)
}

} // verus!
