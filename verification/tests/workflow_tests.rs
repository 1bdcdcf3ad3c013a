use autotoken::TokenOpError;
use autotoken::decode::{decode_holding_account, decode_mint_account};
use autotoken::keys::{associated_token_address, parse_mint_address};
use autotoken::workflow::{
    TokenMeta, ata_creation_instruction, creation_account_sizes, creation_instructions,
    default_token_meta, initial_supply_base_units, mint_initial_supply_instruction,
    revocation_instructions,
};
use solana_program_pack::Pack;
use solana_sdk::pubkey::Pubkey;
use spl_token_2022_interface::ID as TOKEN_2022_PROGRAM_ID;

fn pk(byte: u8) -> Pubkey {
    Pubkey::new_from_array([byte; 32])
}

#[test]
fn initial_supply_is_exactly_ten_to_the_eighteenth() {
    assert_eq!(initial_supply_base_units(), 1_000_000_000_000_000_000u64);
    assert_eq!(initial_supply_base_units(), 1_000_000_000u64 * 10u64.pow(9));
}

#[test]
fn default_token_meta_holds_the_fixed_record() {
    let meta = default_token_meta("https://example.com/meta.json".to_string());
    assert_eq!(meta.name, "Dos");
    assert_eq!(meta.symbol, "DOS");
    assert_eq!(meta.uri, "https://example.com/meta.json");
    assert_eq!(
        meta.fields,
        vec![("description".to_string(), "Dos on Solana.".to_string())]
    );
}

#[test]
fn creation_instructions_match_the_client_library() {
    let payer = pk(1);
    let mint = pk(2);
    let meta = default_token_meta("https://example.com/meta.json".to_string());
    let rent = 123_456u64;
    let space = 234u64;
    let ixs = creation_instructions(&payer, &mint, rent, space, &meta).unwrap();
    assert_eq!(ixs.len(), 5);
    let expected0 = solana_system_interface::instruction::create_account(
        &payer,
        &mint,
        rent,
        space,
        &TOKEN_2022_PROGRAM_ID,
    );
    assert_eq!(ixs[0], expected0);
    let expected1 = spl_token_2022_interface::extension::metadata_pointer::instruction::initialize(
        &TOKEN_2022_PROGRAM_ID,
        &mint,
        Some(payer),
        Some(mint),
    )
    .unwrap();
    assert_eq!(ixs[1], expected1);
    let expected2 = spl_token_2022_interface::instruction::initialize_mint(
        &TOKEN_2022_PROGRAM_ID,
        &mint,
        &payer,
        Some(&payer),
        9,
    )
    .unwrap();
    assert_eq!(ixs[2], expected2);
    let expected3 = spl_token_metadata_interface::instruction::initialize(
        &TOKEN_2022_PROGRAM_ID,
        &mint,
        &payer,
        &mint,
        &payer,
        "Dos".to_string(),
        "DOS".to_string(),
        "https://example.com/meta.json".to_string(),
    );
    assert_eq!(ixs[3], expected3);
    let expected4 = spl_token_metadata_interface::instruction::update_field(
        &TOKEN_2022_PROGRAM_ID,
        &mint,
        &payer,
        spl_token_metadata_interface::state::Field::Key("description".to_string()),
        "Dos on Solana.".to_string(),
    );
    assert_eq!(ixs[4], expected4);
}

#[test]
fn creation_rejects_the_all_zero_payer() {
    let payer = pk(0);
    let mint = pk(2);
    let meta = default_token_meta("u".to_string());
    let r = creation_instructions(&payer, &mint, 1, 1, &meta);
    assert_eq!(r.err(), Some(TokenOpError::Rejected));
}

#[test]
fn creation_sizes_reject_the_all_zero_payer() {
    let payer = pk(0);
    let mint = pk(2);
    let meta = default_token_meta("u".to_string());
    let r = creation_account_sizes(&payer, &mint, &meta);
    assert_eq!(r.err(), Some(TokenOpError::Rejected));
}

#[test]
fn creation_sizes_match_the_client_library() {
    let payer = pk(1);
    let mint = pk(2);
    let meta = default_token_meta("https://example.com/meta.json".to_string());
    let sizes = creation_account_sizes(&payer, &mint, &meta).unwrap();
    let expected_mint_space =
        spl_token_2022_interface::extension::ExtensionType::try_calculate_account_len::<
            spl_token_2022_interface::state::Mint,
        >(&[spl_token_2022_interface::extension::ExtensionType::MetadataPointer])
        .unwrap();
    let token_metadata = spl_token_metadata_interface::state::TokenMetadata {
        update_authority: Some(payer).try_into().unwrap(),
        mint,
        name: "Dos".to_string(),
        symbol: "DOS".to_string(),
        uri: "https://example.com/meta.json".to_string(),
        additional_metadata: vec![("description".to_string(), "Dos on Solana.".to_string())],
    };
    let expected_tlv = token_metadata.tlv_size_of().unwrap();
    assert_eq!(sizes.mint_space, expected_mint_space);
    assert_eq!(sizes.total_space, expected_mint_space + expected_tlv);
}

#[test]
fn ata_address_and_instruction_match_the_client_library() {
    let payer = pk(1);
    let mint = pk(2);
    let expected_addr =
        spl_associated_token_account_interface::address::get_associated_token_address_with_program_id(
            &payer,
            &mint,
            &TOKEN_2022_PROGRAM_ID,
        );
    assert_eq!(associated_token_address(&payer, &mint), expected_addr);
    let expected_ix =
        spl_associated_token_account_interface::instruction::create_associated_token_account_idempotent(
            &payer,
            &payer,
            &mint,
            &TOKEN_2022_PROGRAM_ID,
        );
    assert_eq!(ata_creation_instruction(&payer, &payer, &mint), expected_ix);
}

#[test]
fn mint_supply_instruction_matches_the_client_library() {
    let payer = pk(1);
    let mint = pk(2);
    let ata = associated_token_address(&payer, &mint);
    let expected = spl_token_2022_interface::instruction::mint_to(
        &TOKEN_2022_PROGRAM_ID,
        &mint,
        &ata,
        &payer,
        &[&payer],
        1_000_000_000_000_000_000u64,
    )
    .unwrap();
    assert_eq!(mint_initial_supply_instruction(&mint, &ata, &payer), expected);
}

#[test]
fn revocation_instructions_match_the_client_library() {
    let payer = pk(1);
    let text = "So11111111111111111111111111111111111111112";
    let mint: Pubkey = text.parse().unwrap();
    let ixs = revocation_instructions(text, &payer).unwrap();
    assert_eq!(ixs.len(), 4);
    let freeze = spl_token_2022_interface::instruction::set_authority(
        &TOKEN_2022_PROGRAM_ID,
        &mint,
        None,
        spl_token_2022_interface::instruction::AuthorityType::FreezeAccount,
        &payer,
        &[&payer],
    )
    .unwrap();
    assert_eq!(ixs[0], freeze);
    let mint_auth = spl_token_2022_interface::instruction::set_authority(
        &TOKEN_2022_PROGRAM_ID,
        &mint,
        None,
        spl_token_2022_interface::instruction::AuthorityType::MintTokens,
        &payer,
        &[&payer],
    )
    .unwrap();
    assert_eq!(ixs[1], mint_auth);
    let meta_update = spl_token_metadata_interface::instruction::update_authority(
        &TOKEN_2022_PROGRAM_ID,
        &mint,
        &payer,
        None::<Pubkey>.try_into().unwrap(),
    );
    assert_eq!(ixs[2], meta_update);
    let pointer = spl_token_2022_interface::instruction::set_authority(
        &TOKEN_2022_PROGRAM_ID,
        &mint,
        None,
        spl_token_2022_interface::instruction::AuthorityType::MetadataPointer,
        &payer,
        &[&payer],
    )
    .unwrap();
    assert_eq!(ixs[3], pointer);
}

#[test]
fn malformed_addresses_fail_before_any_instruction_is_built() {
    let payer = pk(1);
    assert_eq!(parse_mint_address("").err(), Some(TokenOpError::BadAddress));
    assert_eq!(parse_mint_address("abc").err(), Some(TokenOpError::BadAddress));
    let too_long = "1".repeat(50);
    assert_eq!(parse_mint_address(&too_long).err(), Some(TokenOpError::BadAddress));
    assert_eq!(
        parse_mint_address("not-base58-characters-here-!!!!").err(),
        Some(TokenOpError::BadAddress)
    );
    assert_eq!(revocation_instructions("", &payer).err(), Some(TokenOpError::BadAddress));
    assert_eq!(revocation_instructions("abc", &payer).err(), Some(TokenOpError::BadAddress));
    assert_eq!(
        revocation_instructions(&too_long, &payer).err(),
        Some(TokenOpError::BadAddress)
    );
}

#[test]
fn well_formed_address_parses_like_the_client_library() {
    let text = "11111111111111111111111111111111";
    let parsed = parse_mint_address(text).unwrap();
    let expected: Pubkey = text.parse().unwrap();
    assert_eq!(parsed, expected);
}

#[test]
fn decode_mint_account_reads_back_packed_state() {
    let mint_authority = pk(1);
    let freeze_authority = pk(3);
    let state = spl_token_2022_interface::state::Mint {
        mint_authority: Some(mint_authority).into(),
        supply: 77,
        decimals: 9,
        is_initialized: true,
        freeze_authority: Some(freeze_authority).into(),
    };
    let mut data = vec![0u8; spl_token_2022_interface::state::Mint::LEN + 100];
    state.pack_into_slice(&mut data);
    let decoded = decode_mint_account(&data).unwrap();
    assert_eq!(decoded.decimals, 9);
    assert_eq!(decoded.supply, 77);
    assert!(decoded.is_initialized);
    assert_eq!(decoded.mint_authority, Some(mint_authority));
    assert_eq!(decoded.freeze_authority, Some(freeze_authority));
    assert!(decode_mint_account(&data[..10]).is_err());
}

#[test]
fn decode_holding_account_reads_back_packed_state() {
    let mint = pk(2);
    let owner = pk(1);
    let state = spl_token_2022_interface::state::Account {
        mint,
        owner,
        amount: 1_000_000_000_000_000_000,
        delegate: None.into(),
        state: spl_token_2022_interface::state::AccountState::Initialized,
        is_native: None.into(),
        delegated_amount: 0,
        close_authority: None.into(),
    };
    let mut data = vec![0u8; spl_token_2022_interface::state::Account::LEN];
    state.pack_into_slice(&mut data);
    let decoded = decode_holding_account(&data).unwrap();
    assert_eq!(decoded.mint, mint);
    assert_eq!(decoded.owner, owner);
    assert_eq!(decoded.amount, 1_000_000_000_000_000_000);
    assert!(decode_holding_account(&data[..100]).is_err());
}

#[test]
fn field_update_instructions_follow_input_order() {
    let payer = pk(1);
    let mint = pk(2);
    let meta = TokenMeta {
        name: "Dos".to_string(),
        symbol: "DOS".to_string(),
        uri: "u".to_string(),
        fields: vec![
            ("alpha".to_string(), "1".to_string()),
            ("beta".to_string(), "2".to_string()),
        ],
    };
    let ixs = creation_instructions(&payer, &mint, 1, 1, &meta).unwrap();
    assert_eq!(ixs.len(), 6);
    for (offset, (key, value)) in meta.fields.iter().enumerate() {
        let expected = spl_token_metadata_interface::instruction::update_field(
            &TOKEN_2022_PROGRAM_ID,
            &mint,
            &payer,
            spl_token_metadata_interface::state::Field::Key(key.clone()),
            value.clone(),
        );
        assert_eq!(ixs[4 + offset], expected);
    }
}
