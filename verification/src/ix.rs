//! Trusted wrappers around the instruction builders of the system program, the
//! token-2022 program interface and its metadata interface. Every instruction
//! the two workflows submit is built here; each builder's result is a
//! deterministic function of its arguments and carries a name that the
//! workflow contracts speak of.
use vstd::prelude::*;

use spl_token_2022_interface::instruction::AuthorityType;

use crate::TokenOpError;

verus! {

#[verifier::external_type_specification]
#[verifier::external_body]
pub struct ExInstruction(solana_sdk::instruction::Instruction);

/// The authority slots of a mint that the token-2022 `SetAuthority`
/// instruction can clear in this library.
#[derive(Clone, Copy, Debug, PartialEq, Eq, Structural)]
pub enum AuthorityKind {
    FreezeAccount,
    MintTokens,
    MetadataPointer,
}

/// The mint extensions this library allocates space for.
#[derive(Clone, Copy, Debug, PartialEq, Eq, Structural)]
pub enum MintExtensionKind {
    MetadataPointer,
}

/// The views of a list of key-value string pairs.
pub open spec fn pairs_view(s: Seq<(String, String)>) -> Seq<(Seq<char>, Seq<char>)> {
    s.map_values(|p: (String, String)| (p.0@, p.1@))
}

/// A string short enough to serialize: the metadata instructions write each
/// string with a 32-bit byte length, and their builders abort on one of 2^32
/// bytes or more. A character takes at most four bytes, so fewer than 2^30
/// characters always fit.
pub open spec fn fits_borsh_string(s: Seq<char>) -> bool {
    s.len() < 0x4000_0000
}

pub open spec fn opt_key(
    o: Option<&solana_sdk::pubkey::Pubkey>,
) -> Option<solana_sdk::pubkey::Pubkey> {
    match o {
        Some(p) => Some(*p),
        None => None,
    }
}

/// The system-program instruction that allocates `space` bytes for `mint`,
/// funds it with `rent` lamports from `payer`, and assigns it to token-2022.
pub uninterp spec fn create_mint_account_ix(
    payer: solana_sdk::pubkey::Pubkey,
    mint: solana_sdk::pubkey::Pubkey,
    rent: u64,
    space: u64,
) -> solana_sdk::instruction::Instruction;

/// Relies on `solana_system_interface::instruction::create_account`: it builds
/// the `CreateAccount` instruction from its arguments alone and cannot fail.
/// The owner is fixed to the token-2022 program id.
#[verifier::external_body]
pub(crate) fn build_create_mint_account(
    payer: &solana_sdk::pubkey::Pubkey,
    mint: &solana_sdk::pubkey::Pubkey,
    rent: u64,
    space: u64,
) -> (r: solana_sdk::instruction::Instruction)
    ensures
        r == create_mint_account_ix(*payer, *mint, rent, space),
{
    solana_system_interface::instruction::create_account(
        payer,
        mint,
        rent,
        space,
        &spl_token_2022_interface::ID,
    )
}

/// The token-2022 instruction that initializes the metadata-pointer extension
/// of `mint` with the given update authority and metadata account; `None`
/// exactly when one of the two addresses is the reserved all-zero address.
pub uninterp spec fn init_metadata_pointer_ix(
    mint: solana_sdk::pubkey::Pubkey,
    authority: solana_sdk::pubkey::Pubkey,
    metadata_address: solana_sdk::pubkey::Pubkey,
) -> Option<solana_sdk::instruction::Instruction>;

/// Relies on `spl_token_2022_interface::extension::metadata_pointer::instruction::initialize`,
/// called with the token-2022 program id (so its program-id check passes) and
/// with `Some(authority)` and `Some(metadata_address)`: it errs only when one
/// of those addresses is the all-zero address, which has no non-null encoding.
#[verifier::external_body]
pub(crate) fn build_init_metadata_pointer(
    mint: &solana_sdk::pubkey::Pubkey,
    authority: &solana_sdk::pubkey::Pubkey,
    metadata_address: &solana_sdk::pubkey::Pubkey,
) -> (r: Result<solana_sdk::instruction::Instruction, TokenOpError>)
    ensures
        r is Ok <==> init_metadata_pointer_ix(*mint, *authority, *metadata_address) is Some,
        r is Ok ==> r->Ok_0 == init_metadata_pointer_ix(
            *mint,
            *authority,
            *metadata_address,
        )->Some_0,
        r is Err ==> r->Err_0 == TokenOpError::Rejected,
{
    spl_token_2022_interface::extension::metadata_pointer::instruction::initialize(
        &spl_token_2022_interface::ID,
        mint,
        Some(authority.clone()),
        Some(metadata_address.clone()),
    )
    .map_err(|_| TokenOpError::Rejected)
}

/// The token-2022 instruction that initializes the core mint parameters.
pub uninterp spec fn init_mint_ix(
    mint: solana_sdk::pubkey::Pubkey,
    mint_authority: solana_sdk::pubkey::Pubkey,
    freeze_authority: Option<solana_sdk::pubkey::Pubkey>,
    decimals: u8,
) -> solana_sdk::instruction::Instruction;

/// Relies on `spl_token_2022_interface::instruction::initialize_mint`, called
/// with the token-2022 program id: its only error path is a wrong program id,
/// so the result is always `Ok` here and is unwrapped in place.
#[verifier::external_body]
pub(crate) fn build_init_mint(
    mint: &solana_sdk::pubkey::Pubkey,
    mint_authority: &solana_sdk::pubkey::Pubkey,
    freeze_authority: Option<&solana_sdk::pubkey::Pubkey>,
    decimals: u8,
) -> (r: solana_sdk::instruction::Instruction)
    ensures
        r == init_mint_ix(*mint, *mint_authority, opt_key(freeze_authority), decimals),
{
    spl_token_2022_interface::instruction::initialize_mint(
        &spl_token_2022_interface::ID,
        mint,
        mint_authority,
        freeze_authority,
        decimals,
    )
    .unwrap()
}

/// The metadata-interface instruction that writes the name, symbol and URI of
/// the record held in the mint account itself.
pub uninterp spec fn init_token_metadata_ix(
    mint: solana_sdk::pubkey::Pubkey,
    update_authority: solana_sdk::pubkey::Pubkey,
    mint_authority: solana_sdk::pubkey::Pubkey,
    name: Seq<char>,
    symbol: Seq<char>,
    uri: Seq<char>,
) -> solana_sdk::instruction::Instruction;

/// Relies on `spl_token_metadata_interface::instruction::initialize` with the
/// token-2022 program id and with the mint account doubling as the metadata
/// account: it builds the instruction from its arguments alone. It serializes
/// each string with a 32-bit length and aborts on one of 2^32 bytes or more,
/// so the requires keeps every string below that.
#[verifier::external_body]
pub(crate) fn build_init_token_metadata(
    mint: &solana_sdk::pubkey::Pubkey,
    update_authority: &solana_sdk::pubkey::Pubkey,
    mint_authority: &solana_sdk::pubkey::Pubkey,
    name: &String,
    symbol: &String,
    uri: &String,
) -> (r: solana_sdk::instruction::Instruction)
    requires
        fits_borsh_string(name@),
        fits_borsh_string(symbol@),
        fits_borsh_string(uri@),
    ensures
        r == init_token_metadata_ix(
            *mint,
            *update_authority,
            *mint_authority,
            name@,
            symbol@,
            uri@,
        ),
{
    spl_token_metadata_interface::instruction::initialize(
        &spl_token_2022_interface::ID,
        mint,
        update_authority,
        mint,
        mint_authority,
        name.clone(),
        symbol.clone(),
        uri.clone(),
    )
}

/// The metadata-interface instruction that sets one additional key-value field
/// of the record held in the mint account.
pub uninterp spec fn update_field_ix(
    mint: solana_sdk::pubkey::Pubkey,
    update_authority: solana_sdk::pubkey::Pubkey,
    key: Seq<char>,
    value: Seq<char>,
) -> solana_sdk::instruction::Instruction;

/// Relies on `spl_token_metadata_interface::instruction::update_field` with
/// the token-2022 program id and a custom (`Field::Key`) field: it builds the
/// instruction from its arguments alone. It serializes the key and the value
/// with a 32-bit length each and aborts on a string of 2^32 bytes or more, so
/// the requires keeps both below that.
#[verifier::external_body]
pub(crate) fn build_update_field(
    mint: &solana_sdk::pubkey::Pubkey,
    update_authority: &solana_sdk::pubkey::Pubkey,
    key: &String,
    value: &String,
) -> (r: solana_sdk::instruction::Instruction)
    requires
        fits_borsh_string(key@),
        fits_borsh_string(value@),
    ensures
        r == update_field_ix(*mint, *update_authority, key@, value@),
{
    spl_token_metadata_interface::instruction::update_field(
        &spl_token_2022_interface::ID,
        mint,
        update_authority,
        spl_token_metadata_interface::state::Field::Key(key.clone()),
        value.clone(),
    )
}

/// The instruction that creates the owner's associated holding account for a
/// mint if it does not exist yet, and does nothing if it already does.
pub uninterp spec fn create_ata_idempotent_ix(
    payer: solana_sdk::pubkey::Pubkey,
    owner: solana_sdk::pubkey::Pubkey,
    mint: solana_sdk::pubkey::Pubkey,
) -> solana_sdk::instruction::Instruction;

/// Relies on `create_associated_token_account_idempotent`
/// (spl-associated-token-account-interface) with the token-2022 program id: it
/// builds the `CreateIdempotent` instruction from its arguments alone and
/// cannot fail.
#[verifier::external_body]
pub(crate) fn build_create_ata_idempotent(
    payer: &solana_sdk::pubkey::Pubkey,
    owner: &solana_sdk::pubkey::Pubkey,
    mint: &solana_sdk::pubkey::Pubkey,
) -> (r: solana_sdk::instruction::Instruction)
    ensures
        r == create_ata_idempotent_ix(*payer, *owner, *mint),
{
    spl_associated_token_account_interface::instruction::create_associated_token_account_idempotent(
        payer,
        owner,
        mint,
        &spl_token_2022_interface::ID,
    )
}

/// The token-2022 instruction that mints `amount` base units into
/// `destination`, signed by the mint authority.
pub uninterp spec fn mint_to_ix(
    mint: solana_sdk::pubkey::Pubkey,
    destination: solana_sdk::pubkey::Pubkey,
    authority: solana_sdk::pubkey::Pubkey,
    amount: u64,
) -> solana_sdk::instruction::Instruction;

/// Relies on `spl_token_2022_interface::instruction::mint_to`, called with the
/// token-2022 program id and the authority as the sole signer: its only error
/// path is a wrong program id, so the result is always `Ok` here and is
/// unwrapped in place.
#[verifier::external_body]
pub(crate) fn build_mint_to(
    mint: &solana_sdk::pubkey::Pubkey,
    destination: &solana_sdk::pubkey::Pubkey,
    authority: &solana_sdk::pubkey::Pubkey,
    amount: u64,
) -> (r: solana_sdk::instruction::Instruction)
    ensures
        r == mint_to_ix(*mint, *destination, *authority, amount),
{
    spl_token_2022_interface::instruction::mint_to(
        &spl_token_2022_interface::ID,
        mint,
        destination,
        authority,
        &[authority],
        amount,
    )
    .unwrap()
}

/// The token-2022 instruction that clears (sets to null) one authority slot of
/// the mint, authorized by its current holder.
pub uninterp spec fn clear_authority_ix(
    mint: solana_sdk::pubkey::Pubkey,
    which: AuthorityKind,
    current_authority: solana_sdk::pubkey::Pubkey,
) -> solana_sdk::instruction::Instruction;

/// Relies on `spl_token_2022_interface::instruction::set_authority`, called
/// with the token-2022 program id, a null new authority and the current holder
/// as the sole signer: its only error path is a wrong program id, so the
/// result is always `Ok` here and is unwrapped in place.
#[verifier::external_body]
pub(crate) fn build_clear_authority(
    mint: &solana_sdk::pubkey::Pubkey,
    which: AuthorityKind,
    current_authority: &solana_sdk::pubkey::Pubkey,
) -> (r: solana_sdk::instruction::Instruction)
    ensures
        r == clear_authority_ix(*mint, which, *current_authority),
{
    let ty = match which {
        AuthorityKind::FreezeAccount => AuthorityType::FreezeAccount,
        AuthorityKind::MintTokens => AuthorityType::MintTokens,
        AuthorityKind::MetadataPointer => AuthorityType::MetadataPointer,
    };
    spl_token_2022_interface::instruction::set_authority(
        &spl_token_2022_interface::ID,
        mint,
        None,
        ty,
        current_authority,
        &[current_authority],
    )
    .unwrap()
}

/// The metadata-interface instruction that clears the metadata-update
/// authority of the record held in the mint account.
pub uninterp spec fn clear_metadata_update_authority_ix(
    mint: solana_sdk::pubkey::Pubkey,
    current_authority: solana_sdk::pubkey::Pubkey,
) -> solana_sdk::instruction::Instruction;

/// Relies on `spl_token_metadata_interface::instruction::update_authority`
/// with the token-2022 program id and a null new authority: it builds the
/// instruction from its arguments alone and cannot fail (wrapping `None` in
/// the nullable address type always succeeds).
#[verifier::external_body]
pub(crate) fn build_clear_metadata_update_authority(
    mint: &solana_sdk::pubkey::Pubkey,
    current_authority: &solana_sdk::pubkey::Pubkey,
) -> (r: solana_sdk::instruction::Instruction)
    ensures
        r == clear_metadata_update_authority_ix(*mint, *current_authority),
{
    spl_token_metadata_interface::instruction::update_authority(
        &spl_token_2022_interface::ID,
        mint,
        current_authority,
        Option::<solana_sdk::pubkey::Pubkey>::None.try_into().unwrap(),
    )
}

/// The byte size of a mint account carrying the given extensions, or `None`
/// where no fixed size exists for that extension list.
pub uninterp spec fn mint_account_len(extensions: Seq<MintExtensionKind>) -> Option<usize>;

/// Relies on `ExtensionType::try_calculate_account_len::<Mint>`
/// (spl-token-2022-interface): the required account size is computed from the
/// extension list alone.
#[verifier::external_body]
pub(crate) fn compute_mint_account_len(extensions: &Vec<MintExtensionKind>) -> (r: Result<
    usize,
    TokenOpError,
>)
    ensures
        r is Ok <==> mint_account_len(extensions@) is Some,
        r is Ok ==> r->Ok_0 == mint_account_len(extensions@)->Some_0,
        r is Err ==> r->Err_0 == TokenOpError::Rejected,
{
    let ext: Vec<spl_token_2022_interface::extension::ExtensionType> = extensions
        .iter()
        .map(|e| match e {
            MintExtensionKind::MetadataPointer =>
                spl_token_2022_interface::extension::ExtensionType::MetadataPointer,
        })
        .collect();
    spl_token_2022_interface::extension::ExtensionType::try_calculate_account_len::<
        spl_token_2022_interface::state::Mint,
    >(&ext)
    .map_err(|_| TokenOpError::Rejected)
}

/// The serialized type-length-value size of a metadata record with the given
/// update authority and strings, or `None` where the record has no such size:
/// exactly when the update authority is the reserved all-zero address (which
/// has no non-null encoding) or the summed serialized length overflows. The
/// mint address and the authority occupy a fixed 32 bytes each, so the size
/// itself is determined by the strings; whether a size exists also depends on
/// the authority.
pub uninterp spec fn metadata_tlv_len(
    update_authority: solana_sdk::pubkey::Pubkey,
    name: Seq<char>,
    symbol: Seq<char>,
    uri: Seq<char>,
    fields: Seq<(Seq<char>, Seq<char>)>,
) -> Option<usize>;

/// Relies on `TokenMetadata::tlv_size_of` (spl-token-metadata-interface): the
/// size of the serialized record plus the type-length-value header, a function
/// of the update authority and the record's strings alone. It errs exactly
/// when the update authority is the all-zero address or the summed length
/// overflows, and never panics (the length is computed, nothing serialized).
#[verifier::external_body]
pub(crate) fn compute_metadata_tlv_len(
    update_authority: &solana_sdk::pubkey::Pubkey,
    mint: &solana_sdk::pubkey::Pubkey,
    name: &String,
    symbol: &String,
    uri: &String,
    fields: &Vec<(String, String)>,
) -> (r: Result<usize, TokenOpError>)
    ensures
        r is Ok <==> metadata_tlv_len(
            *update_authority,
            name@,
            symbol@,
            uri@,
            pairs_view(fields@),
        ) is Some,
        r is Ok ==> r->Ok_0 == metadata_tlv_len(
            *update_authority,
            name@,
            symbol@,
            uri@,
            pairs_view(fields@),
        )->Some_0,
        r is Err ==> r->Err_0 == TokenOpError::Rejected,
{
    let meta = spl_token_metadata_interface::state::TokenMetadata {
        update_authority: Some(update_authority.clone())
            .try_into()
            .map_err(|_| TokenOpError::Rejected)?,
        mint: mint.clone(),
        name: name.clone(),
        symbol: symbol.clone(),
        uri: uri.clone(),
        additional_metadata: fields.clone(),
    };
    meta.tlv_size_of().map_err(|_| TokenOpError::Rejected)
}

} // verus!
