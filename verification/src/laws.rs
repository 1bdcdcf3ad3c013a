//! The laws the workflows promise, proved over the ledger model.
use vstd::prelude::*;

use crate::model::{
    LedgerV, StepError, StepV, apply, apply_tx, lemma_apply_tx_concat,
};

verus! {

/// Creating the holding account when it already exists neither fails nor
/// changes anything: the step is idempotent, and in particular the account's
/// balance is kept.
pub proof fn lemma_ata_creation_idempotent(l: LedgerV)
    requires
        apply(l, StepV::CreateAtaIdempotent) is Ok,
    ensures
        ({
            let once = apply(l, StepV::CreateAtaIdempotent)->Ok_0;
            apply(once, StepV::CreateAtaIdempotent) == Ok::<LedgerV, StepError>(once)
        }),
{
}

/// After the mint authority slot is cleared, minting is rejected whoever
/// signs: the slot is empty, and an empty slot authorizes nobody.
pub proof fn lemma_cleared_mint_authority_rejected(l: LedgerV, signer: u64, other: u64, amount: u64)
    requires
        apply(l, StepV::ClearMintAuthority { signer }) is Ok,
    ensures
        ({
            let cleared = apply(l, StepV::ClearMintAuthority { signer })->Ok_0;
            apply(cleared, StepV::MintTo { signer: other, amount }) == Err::<
                LedgerV,
                StepError,
            >(StepError::NotAuthorized)
        }),
{
}

/// After the metadata-update authority slot is cleared, every further field
/// update is rejected whoever signs.
pub proof fn lemma_cleared_metadata_update_authority_rejected(
    l: LedgerV,
    signer: u64,
    other: u64,
    key: Seq<char>,
    value: Seq<char>,
)
    requires
        apply(l, StepV::ClearMetadataUpdateAuthority { signer }) is Ok,
    ensures
        ({
            let cleared = apply(l, StepV::ClearMetadataUpdateAuthority { signer })->Ok_0;
            apply(cleared, StepV::UpdateField { signer: other, key, value }) == Err::<
                LedgerV,
                StepError,
            >(StepError::NotAuthorized)
        }),
{
}

/// One field-update step per additional key-value pair, in input order.
pub open spec fn update_field_steps(signer: u64, fields: Seq<(Seq<char>, Seq<char>)>) -> Seq<
    StepV,
> {
    fields.map_values(
        |f: (Seq<char>, Seq<char>)| StepV::UpdateField { signer, key: f.0, value: f.1 },
    )
}

/// The creation workflow's first transaction: allocate the mint, point its
/// metadata at itself, initialize the mint with the payer as every authority,
/// initialize the metadata record, then one update per additional field.
pub open spec fn creation_tx_steps(
    payer: u64,
    rent: u64,
    decimals: u8,
    name: Seq<char>,
    symbol: Seq<char>,
    uri: Seq<char>,
    fields: Seq<(Seq<char>, Seq<char>)>,
) -> Seq<StepV> {
    seq![
        StepV::CreateMintAccount { rent },
        StepV::InitializeMetadataPointer { authority: payer },
        StepV::InitializeMint { decimals, mint_authority: payer, freeze_authority: Some(payer) },
        StepV::InitializeMetadata { update_authority: payer, name, symbol, uri },
    ] + update_field_steps(payer, fields)
}

/// The revocation workflow: clear the freeze, mint, metadata-update and
/// metadata-pointer authorities, in that order.
pub open spec fn revocation_steps(signer: u64) -> Seq<StepV> {
    seq![
        StepV::ClearFreezeAuthority { signer },
        StepV::ClearMintAuthority { signer },
        StepV::ClearMetadataUpdateAuthority { signer },
        StepV::ClearMetadataPointerAuthority { signer },
    ]
}

/// Any number of field updates signed by the update authority succeeds and
/// touches nothing but the stored fields.
pub proof fn lemma_update_fields_ok(l: LedgerV, signer: u64, fields: Seq<(Seq<char>, Seq<char>)>)
    requires
        l.mint is Some,
        (l.mint->Some_0).metadata is Some,
        ((l.mint->Some_0).metadata->Some_0).update_authority == Some(signer),
    ensures
        apply_tx(l, update_field_steps(signer, fields)) is Ok,
        ({
            let r = apply_tx(l, update_field_steps(signer, fields))->Ok_0;
            let m0 = l.mint->Some_0;
            let m = r.mint->Some_0;
            &&& r.payer_balance == l.payer_balance
            &&& r.ata_exists == l.ata_exists
            &&& r.ata_amount == l.ata_amount
            &&& r.mint is Some
            &&& m.initialized == m0.initialized
            &&& m.decimals == m0.decimals
            &&& m.supply == m0.supply
            &&& m.mint_authority == m0.mint_authority
            &&& m.freeze_authority == m0.freeze_authority
            &&& m.pointer_initialized == m0.pointer_initialized
            &&& m.metadata_pointer_authority == m0.metadata_pointer_authority
            &&& m.metadata is Some
            &&& (m.metadata->Some_0).update_authority == Some(signer)
            &&& (m.metadata->Some_0).name == (m0.metadata->Some_0).name
            &&& (m.metadata->Some_0).symbol == (m0.metadata->Some_0).symbol
            &&& (m.metadata->Some_0).uri == (m0.metadata->Some_0).uri
        }),
    decreases fields.len(),
{
    let steps = update_field_steps(signer, fields);
    if fields.len() == 0 {
        assert(steps =~= Seq::<StepV>::empty());
    } else {
        let s0 = steps[0];
        assert(s0 == StepV::UpdateField { signer, key: fields[0].0, value: fields[0].1 });
        assert(apply(l, s0) is Ok);
        let l1 = apply(l, s0)->Ok_0;
        assert(steps.skip(1) =~= update_field_steps(signer, fields.skip(1)));
        lemma_update_fields_ok(l1, signer, fields.skip(1));
    }
}

/// A creation transaction against a wallet below the rent minimum fails with
/// the insufficient-funds error; the transaction being atomic, no mint account
/// is left behind.
pub proof fn lemma_creation_underfunded(l: LedgerV, steps: Seq<StepV>, rent: u64)
    requires
        l.mint is None,
        l.payer_balance < rent,
        steps.len() > 0,
        steps[0] == (StepV::CreateMintAccount { rent }),
    ensures
        apply_tx(l, steps) == (Err::<LedgerV, StepError>(StepError::InsufficientFunds)),
{
    assert(apply(l, steps[0]) == Err::<LedgerV, StepError>(StepError::InsufficientFunds));
}

/// Running the creation workflow's three transactions and then the revocation
/// workflow leaves every authority slot of the mint empty, with the minted
/// supply sitting untouched in the holding account.
pub proof fn lemma_creation_then_revocation(
    l0: LedgerV,
    payer: u64,
    rent: u64,
    decimals: u8,
    name: Seq<char>,
    symbol: Seq<char>,
    uri: Seq<char>,
    fields: Seq<(Seq<char>, Seq<char>)>,
    amount: u64,
)
    requires
        l0.mint is None,
        !l0.ata_exists,
        l0.payer_balance >= rent,
    ensures
        ({
            let tx1 = creation_tx_steps(payer, rent, decimals, name, symbol, uri, fields);
            &&& apply_tx(l0, tx1) is Ok
            &&& {
                let l1 = apply_tx(l0, tx1)->Ok_0;
                &&& apply(l1, StepV::CreateAtaIdempotent) is Ok
                &&& {
                    let l2 = apply(l1, StepV::CreateAtaIdempotent)->Ok_0;
                    &&& apply(l2, StepV::MintTo { signer: payer, amount }) is Ok
                    &&& {
                        let l3 = apply(l2, StepV::MintTo { signer: payer, amount })->Ok_0;
                        &&& apply_tx(l3, revocation_steps(payer)) is Ok
                        &&& {
                            let lf = apply_tx(l3, revocation_steps(payer))->Ok_0;
                            &&& lf.mint is Some
                            &&& (lf.mint->Some_0).freeze_authority is None
                            &&& (lf.mint->Some_0).mint_authority is None
                            &&& (lf.mint->Some_0).metadata_pointer_authority is None
                            &&& (lf.mint->Some_0).metadata is Some
                            &&& ((lf.mint->Some_0).metadata->Some_0).update_authority is None
                            &&& (lf.mint->Some_0).supply == amount
                            &&& lf.ata_amount == amount
                        }
                    }
                }
            }
        }),
{
    let a = StepV::CreateMintAccount { rent };
    let b = StepV::InitializeMetadataPointer { authority: payer };
    let c = StepV::InitializeMint {
        decimals,
        mint_authority: payer,
        freeze_authority: Some(payer),
    };
    let d = StepV::InitializeMetadata { update_authority: payer, name, symbol, uri };
    let head = seq![a, b, c, d];
    let tail = update_field_steps(payer, fields);
    let tx1 = creation_tx_steps(payer, rent, decimals, name, symbol, uri, fields);
    assert(tx1 =~= head + tail);
    let s1 = apply(l0, a)->Ok_0;
    let s2 = apply(s1, b)->Ok_0;
    let s3 = apply(s2, c)->Ok_0;
    let s4 = apply(s3, d)->Ok_0;
    assert(apply(l0, a) is Ok);
    assert(apply(s1, b) is Ok);
    assert(apply(s2, c) is Ok);
    assert(apply(s3, d) is Ok);
    assert(head.skip(1) =~= seq![b, c, d]);
    assert(seq![b, c, d].skip(1) =~= seq![c, d]);
    assert(seq![c, d].skip(1) =~= seq![d]);
    assert(seq![d].skip(1) =~= Seq::<StepV>::empty());
    assert(apply_tx(s4, Seq::<StepV>::empty()) == Ok::<LedgerV, StepError>(s4));
    assert(apply_tx(s3, seq![d]) == Ok::<LedgerV, StepError>(s4));
    assert(apply_tx(s2, seq![c, d]) == Ok::<LedgerV, StepError>(s4));
    assert(apply_tx(s1, seq![b, c, d]) == Ok::<LedgerV, StepError>(s4));
    assert(apply_tx(l0, head) == Ok::<LedgerV, StepError>(s4));
    lemma_apply_tx_concat(l0, head, tail);
    lemma_update_fields_ok(s4, payer, fields);
    let l1 = apply_tx(s4, tail)->Ok_0;
    assert(apply_tx(l0, tx1) == Ok::<LedgerV, StepError>(l1));
    let l2 = apply(l1, StepV::CreateAtaIdempotent)->Ok_0;
    assert(apply(l1, StepV::CreateAtaIdempotent) is Ok);
    assert(l2.ata_amount == 0);
    assert(apply(l2, StepV::MintTo { signer: payer, amount }) is Ok);
    let l3 = apply(l2, StepV::MintTo { signer: payer, amount })->Ok_0;
    assert((l3.mint->Some_0).supply == amount);
    assert(l3.ata_amount == amount);
    let ra = StepV::ClearFreezeAuthority { signer: payer };
    let rb = StepV::ClearMintAuthority { signer: payer };
    let rc = StepV::ClearMetadataUpdateAuthority { signer: payer };
    let rd = StepV::ClearMetadataPointerAuthority { signer: payer };
    let r1 = apply(l3, ra)->Ok_0;
    let r2 = apply(r1, rb)->Ok_0;
    let r3 = apply(r2, rc)->Ok_0;
    let r4 = apply(r3, rd)->Ok_0;
    assert(apply(l3, ra) is Ok);
    assert(apply(r1, rb) is Ok);
    assert(apply(r2, rc) is Ok);
    assert(apply(r3, rd) is Ok);
    assert(revocation_steps(payer).skip(1) =~= seq![rb, rc, rd]);
    assert(seq![rb, rc, rd].skip(1) =~= seq![rc, rd]);
    assert(seq![rc, rd].skip(1) =~= seq![rd]);
    assert(seq![rd].skip(1) =~= Seq::<StepV>::empty());
    assert(apply_tx(r4, Seq::<StepV>::empty()) == Ok::<LedgerV, StepError>(r4));
    assert(apply_tx(r3, seq![rd]) == Ok::<LedgerV, StepError>(r4));
    assert(apply_tx(r2, seq![rc, rd]) == Ok::<LedgerV, StepError>(r4));
    assert(apply_tx(r1, seq![rb, rc, rd]) == Ok::<LedgerV, StepError>(r4));
    assert(apply_tx(l3, revocation_steps(payer)) == Ok::<LedgerV, StepError>(r4));
}

} // verus!
