use autotoken::fields::apply_field_update;
use autotoken::model::{Ledger, Step, StepError, apply_step, apply_transaction};

fn s(text: &str) -> String {
    text.to_string()
}

fn empty_ledger(balance: u64) -> Ledger {
    Ledger { payer_balance: balance, mint: None, ata_exists: false, ata_amount: 0 }
}

fn creation_steps(payer: u64, rent: u64) -> Vec<Step> {
    vec![
        Step::CreateMintAccount { rent },
        Step::InitializeMetadataPointer { authority: payer },
        Step::InitializeMint { decimals: 9, mint_authority: payer, freeze_authority: Some(payer) },
        Step::InitializeMetadata {
            update_authority: payer,
            name: s("Dos"),
            symbol: s("DOS"),
            uri: s("https://example.com/meta.json"),
        },
        Step::UpdateField { signer: payer, key: s("description"), value: s("Dos on Solana.") },
    ]
}

#[test]
fn field_updates_are_idempotent_per_key() {
    let fields = vec![(s("a"), s("1")), (s("b"), s("2"))];
    let once = apply_field_update(&fields, &s("b"), &s("3"));
    let twice = apply_field_update(&once, &s("b"), &s("3"));
    assert_eq!(once, vec![(s("a"), s("1")), (s("b"), s("3"))]);
    assert_eq!(twice, once);
}

#[test]
fn field_update_appends_a_missing_key_only_once() {
    let fields = vec![(s("a"), s("1"))];
    let once = apply_field_update(&fields, &s("b"), &s("2"));
    let twice = apply_field_update(&once, &s("b"), &s("2"));
    assert_eq!(once, vec![(s("a"), s("1")), (s("b"), s("2"))]);
    assert_eq!(twice, once);
    assert_eq!(once.iter().filter(|p| p.0 == "b").count(), 1);
}

#[test]
fn holding_account_creation_is_idempotent() {
    let payer = 7u64;
    let start = empty_ledger(1_000);
    let after_tx1 = apply_transaction(&start, &creation_steps(payer, 100)).unwrap();
    let once = apply_step(&after_tx1, &Step::CreateAtaIdempotent).unwrap();
    assert!(once.ata_exists);
    let twice = apply_step(&once, &Step::CreateAtaIdempotent).unwrap();
    assert!(twice.ata_exists);
    assert_eq!(twice.ata_amount, once.ata_amount);
    assert_eq!(twice.payer_balance, once.payer_balance);
}

#[test]
fn cleared_mint_authority_rejects_further_minting() {
    let payer = 7u64;
    let start = empty_ledger(1_000);
    let l1 = apply_transaction(&start, &creation_steps(payer, 100)).unwrap();
    let l2 = apply_step(&l1, &Step::CreateAtaIdempotent).unwrap();
    let l3 = apply_step(&l2, &Step::MintTo { signer: payer, amount: 500 }).unwrap();
    let l4 = apply_step(&l3, &Step::ClearMintAuthority { signer: payer }).unwrap();
    let denied = apply_step(&l4, &Step::MintTo { signer: payer, amount: 1 });
    assert_eq!(denied.err(), Some(StepError::NotAuthorized));
    let stranger = apply_step(&l4, &Step::MintTo { signer: 99, amount: 1 });
    assert_eq!(stranger.err(), Some(StepError::NotAuthorized));
}

#[test]
fn underfunded_creation_fails_and_leaves_no_mint() {
    let start = empty_ledger(10);
    let r = apply_transaction(&start, &creation_steps(7, 100));
    assert_eq!(r.err(), Some(StepError::InsufficientFunds));
    assert!(start.mint.is_none());
    assert_eq!(start.payer_balance, 10);
}

#[test]
fn creation_then_revocation_clears_every_authority_slot() {
    let payer = 7u64;
    let amount = 1_000_000_000_000_000_000u64;
    let start = empty_ledger(1_000);
    let l1 = apply_transaction(&start, &creation_steps(payer, 100)).unwrap();
    let l2 = apply_step(&l1, &Step::CreateAtaIdempotent).unwrap();
    let l3 = apply_step(&l2, &Step::MintTo { signer: payer, amount }).unwrap();
    let l4 = apply_step(&l3, &Step::ClearFreezeAuthority { signer: payer }).unwrap();
    let l5 = apply_step(&l4, &Step::ClearMintAuthority { signer: payer }).unwrap();
    let l6 = apply_step(&l5, &Step::ClearMetadataUpdateAuthority { signer: payer }).unwrap();
    let l7 = apply_step(&l6, &Step::ClearMetadataPointerAuthority { signer: payer }).unwrap();
    let mint = l7.mint.as_ref().unwrap();
    assert!(mint.freeze_authority.is_none());
    assert!(mint.mint_authority.is_none());
    assert!(mint.metadata_pointer_authority.is_none());
    assert!(mint.metadata.as_ref().unwrap().update_authority.is_none());
    assert_eq!(mint.supply, amount);
    assert_eq!(l7.ata_amount, amount);
    assert_eq!(mint.metadata.as_ref().unwrap().fields, vec![(
        s("description"),
        s("Dos on Solana."),
    )]);
}

#[test]
fn model_rejections_name_their_cause() {
    let payer = 7u64;
    let start = empty_ledger(1_000);
    let missing = apply_step(&start, &Step::MintTo { signer: payer, amount: 1 });
    assert_eq!(missing.err(), Some(StepError::MintMissing));
    let l1 = apply_transaction(&start, &creation_steps(payer, 100)).unwrap();
    let again = apply_step(&l1, &Step::CreateMintAccount { rent: 100 });
    assert_eq!(again.err(), Some(StepError::AccountExists));
    let reinit = apply_step(
        &l1,
        &Step::InitializeMint { decimals: 9, mint_authority: payer, freeze_authority: None },
    );
    assert_eq!(reinit.err(), Some(StepError::AlreadyInitialized));
    let no_ata = apply_step(&l1, &Step::MintTo { signer: payer, amount: 1 });
    assert_eq!(no_ata.err(), Some(StepError::HoldingAccountMissing));
    let l2 = apply_step(&l1, &Step::CreateAtaIdempotent).unwrap();
    let l3 = apply_step(&l2, &Step::MintTo { signer: payer, amount: u64::MAX }).unwrap();
    let overflow = apply_step(&l3, &Step::MintTo { signer: payer, amount: 1 });
    assert_eq!(overflow.err(), Some(StepError::AmountOverflow));
    let stranger = apply_step(&l2, &Step::UpdateField { signer: 99, key: s("k"), value: s("v") });
    assert_eq!(stranger.err(), Some(StepError::NotAuthorized));
}

#[test]
fn transactions_are_atomic() {
    let payer = 7u64;
    let start = empty_ledger(1_000);
    let mut steps = creation_steps(payer, 100);
    steps.push(Step::MintTo { signer: payer, amount: 1 });
    let r = apply_transaction(&start, &steps);
    assert_eq!(r.err(), Some(StepError::HoldingAccountMissing));
    let ok = apply_transaction(&start, &creation_steps(payer, 100)).unwrap();
    assert_eq!(ok.payer_balance, 900);
    let m = ok.mint.as_ref().unwrap();
    assert!(m.initialized);
    assert_eq!(m.decimals, 9);
    assert_eq!(m.mint_authority, Some(payer));
    assert_eq!(m.freeze_authority, Some(payer));
    assert_eq!(m.metadata_pointer_authority, Some(payer));
    assert_eq!(m.metadata.as_ref().unwrap().update_authority, Some(payer));
}
