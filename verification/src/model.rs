//! A ledger model of the on-chain semantics the two workflows rely on: one
//! payer balance, at most one mint account with its authority slots and
//! metadata record, and the signer's associated holding account. Each
//! instruction the workflows submit appears as one step; a transaction is a
//! step list applied atomically. The laws of the workflows (idempotent
//! holding-account creation, rejection after revocation, the underfunded and
//! the full creation-then-revocation scenarios) are proved over this model.
use vstd::prelude::*;

use crate::fields::set_field;
use crate::fields::apply_field_update;
use crate::ix::pairs_view;

verus! {

/// Why the modeled program rejects a step.
#[derive(Clone, Copy, Debug, PartialEq, Eq, Structural)]
pub enum StepError {
    InsufficientFunds,
    AccountExists,
    MintMissing,
    NotInitialized,
    AlreadyInitialized,
    NotAuthorized,
    HoldingAccountMissing,
    AmountOverflow,
}

/// The metadata record of the mint, as the model sees it.
pub struct MetadataV {
    pub update_authority: Option<u64>,
    pub name: Seq<char>,
    pub symbol: Seq<char>,
    pub uri: Seq<char>,
    pub fields: Seq<(Seq<char>, Seq<char>)>,
}

/// The mint account, as the model sees it.
pub struct MintAccountV {
    pub initialized: bool,
    pub decimals: u8,
    pub supply: u64,
    pub mint_authority: Option<u64>,
    pub freeze_authority: Option<u64>,
    pub pointer_initialized: bool,
    pub metadata_pointer_authority: Option<u64>,
    pub metadata: Option<MetadataV>,
}

/// The modeled ledger, as the model sees it.
pub struct LedgerV {
    pub payer_balance: u64,
    pub mint: Option<MintAccountV>,
    pub ata_exists: bool,
    pub ata_amount: u64,
}

/// The metadata record of the mint. Signing identities are plain numbers: the
/// model only ever compares them.
pub struct Metadata {
    pub update_authority: Option<u64>,
    pub name: String,
    pub symbol: String,
    pub uri: String,
    pub fields: Vec<(String, String)>,
}

impl View for Metadata {
    type V = MetadataV;

    open spec fn view(&self) -> MetadataV {
        MetadataV {
            update_authority: self.update_authority,
            name: self.name@,
            symbol: self.symbol@,
            uri: self.uri@,
            fields: pairs_view(self.fields@),
        }
    }
}

/// The mint account: created empty, then initialized field by field.
pub struct MintAccount {
    pub initialized: bool,
    pub decimals: u8,
    pub supply: u64,
    pub mint_authority: Option<u64>,
    pub freeze_authority: Option<u64>,
    pub pointer_initialized: bool,
    pub metadata_pointer_authority: Option<u64>,
    pub metadata: Option<Metadata>,
}

impl View for MintAccount {
    type V = MintAccountV;

    open spec fn view(&self) -> MintAccountV {
        MintAccountV {
            initialized: self.initialized,
            decimals: self.decimals,
            supply: self.supply,
            mint_authority: self.mint_authority,
            freeze_authority: self.freeze_authority,
            pointer_initialized: self.pointer_initialized,
            metadata_pointer_authority: self.metadata_pointer_authority,
            metadata: match self.metadata {
                Some(ref m) => Some(m@),
                None => None,
            },
        }
    }
}

/// The modeled ledger.
pub struct Ledger {
    pub payer_balance: u64,
    pub mint: Option<MintAccount>,
    pub ata_exists: bool,
    pub ata_amount: u64,
}

impl View for Ledger {
    type V = LedgerV;

    open spec fn view(&self) -> LedgerV {
        LedgerV {
            payer_balance: self.payer_balance,
            mint: match self.mint {
                Some(ref m) => Some(m@),
                None => None,
            },
            ata_exists: self.ata_exists,
            ata_amount: self.ata_amount,
        }
    }
}

/// One instruction of the workflows, as the model sees it.
pub enum StepV {
    CreateMintAccount { rent: u64 },
    InitializeMetadataPointer { authority: u64 },
    InitializeMint { decimals: u8, mint_authority: u64, freeze_authority: Option<u64> },
    InitializeMetadata { update_authority: u64, name: Seq<char>, symbol: Seq<char>, uri: Seq<char> },
    UpdateField { signer: u64, key: Seq<char>, value: Seq<char> },
    CreateAtaIdempotent,
    MintTo { signer: u64, amount: u64 },
    ClearFreezeAuthority { signer: u64 },
    ClearMintAuthority { signer: u64 },
    ClearMetadataUpdateAuthority { signer: u64 },
    ClearMetadataPointerAuthority { signer: u64 },
}

/// One instruction of the workflows.
pub enum Step {
    CreateMintAccount { rent: u64 },
    InitializeMetadataPointer { authority: u64 },
    InitializeMint { decimals: u8, mint_authority: u64, freeze_authority: Option<u64> },
    InitializeMetadata { update_authority: u64, name: String, symbol: String, uri: String },
    UpdateField { signer: u64, key: String, value: String },
    CreateAtaIdempotent,
    MintTo { signer: u64, amount: u64 },
    ClearFreezeAuthority { signer: u64 },
    ClearMintAuthority { signer: u64 },
    ClearMetadataUpdateAuthority { signer: u64 },
    ClearMetadataPointerAuthority { signer: u64 },
}

impl View for Step {
    type V = StepV;

    open spec fn view(&self) -> StepV {
        match self {
            Step::CreateMintAccount { rent } => StepV::CreateMintAccount { rent: *rent },
            Step::InitializeMetadataPointer { authority } => StepV::InitializeMetadataPointer {
                authority: *authority,
            },
            Step::InitializeMint { decimals, mint_authority, freeze_authority } =>
                StepV::InitializeMint {
                decimals: *decimals,
                mint_authority: *mint_authority,
                freeze_authority: *freeze_authority,
            },
            Step::InitializeMetadata { update_authority, name, symbol, uri } =>
                StepV::InitializeMetadata {
                update_authority: *update_authority,
                name: name@,
                symbol: symbol@,
                uri: uri@,
            },
            Step::UpdateField { signer, key, value } => StepV::UpdateField {
                signer: *signer,
                key: key@,
                value: value@,
            },
            Step::CreateAtaIdempotent => StepV::CreateAtaIdempotent,
            Step::MintTo { signer, amount } => StepV::MintTo {
                signer: *signer,
                amount: *amount,
            },
            Step::ClearFreezeAuthority { signer } => StepV::ClearFreezeAuthority {
                signer: *signer,
            },
            Step::ClearMintAuthority { signer } => StepV::ClearMintAuthority { signer: *signer },
            Step::ClearMetadataUpdateAuthority { signer } => StepV::ClearMetadataUpdateAuthority {
                signer: *signer,
            },
            Step::ClearMetadataPointerAuthority { signer } =>
                StepV::ClearMetadataPointerAuthority { signer: *signer },
        }
    }
}

/// A freshly allocated, not yet initialized mint account.
pub open spec fn fresh_mint() -> MintAccountV {
    MintAccountV {
        initialized: false,
        decimals: 0,
        supply: 0,
        mint_authority: None,
        freeze_authority: None,
        pointer_initialized: false,
        metadata_pointer_authority: None,
        metadata: None,
    }
}

/// What one step does to the ledger: the next state, or why the program
/// rejects it (and then the ledger is unchanged).
pub open spec fn apply(l: LedgerV, s: StepV) -> Result<LedgerV, StepError> {
    match s {
        StepV::CreateMintAccount { rent } => {
            if l.mint is Some {
                Err(StepError::AccountExists)
            } else if l.payer_balance < rent {
                Err(StepError::InsufficientFunds)
            } else {
                Ok(
                    LedgerV {
                        payer_balance: (l.payer_balance - rent) as u64,
                        mint: Some(fresh_mint()),
                        ..l
                    },
                )
            }
        },
        StepV::InitializeMetadataPointer { authority } => {
            match l.mint {
                None => Err(StepError::MintMissing),
                Some(m) => {
                    if m.pointer_initialized {
                        Err(StepError::AlreadyInitialized)
                    } else {
                        Ok(
                            LedgerV {
                                mint: Some(
                                    MintAccountV {
                                        pointer_initialized: true,
                                        metadata_pointer_authority: Some(authority),
                                        ..m
                                    },
                                ),
                                ..l
                            },
                        )
                    }
                },
            }
        },
        StepV::InitializeMint { decimals, mint_authority, freeze_authority } => {
            match l.mint {
                None => Err(StepError::MintMissing),
                Some(m) => {
                    if m.initialized {
                        Err(StepError::AlreadyInitialized)
                    } else {
                        Ok(
                            LedgerV {
                                mint: Some(
                                    MintAccountV {
                                        initialized: true,
                                        decimals,
                                        mint_authority: Some(mint_authority),
                                        freeze_authority,
                                        ..m
                                    },
                                ),
                                ..l
                            },
                        )
                    }
                },
            }
        },
        StepV::InitializeMetadata { update_authority, name, symbol, uri } => {
            match l.mint {
                None => Err(StepError::MintMissing),
                Some(m) => {
                    if !m.initialized {
                        Err(StepError::NotInitialized)
                    } else if m.metadata is Some {
                        Err(StepError::AlreadyInitialized)
                    } else {
                        Ok(
                            LedgerV {
                                mint: Some(
                                    MintAccountV {
                                        metadata: Some(
                                            MetadataV {
                                                update_authority: Some(update_authority),
                                                name,
                                                symbol,
                                                uri,
                                                fields: Seq::empty(),
                                            },
                                        ),
                                        ..m
                                    },
                                ),
                                ..l
                            },
                        )
                    }
                },
            }
        },
        StepV::UpdateField { signer, key, value } => {
            match l.mint {
                None => Err(StepError::MintMissing),
                Some(m) => {
                    match m.metadata {
                        None => Err(StepError::NotInitialized),
                        Some(md) => {
                            if md.update_authority != Some(signer) {
                                Err(StepError::NotAuthorized)
                            } else {
                                Ok(
                                    LedgerV {
                                        mint: Some(
                                            MintAccountV {
                                                metadata: Some(
                                                    MetadataV {
                                                        fields: set_field(md.fields, key, value),
                                                        ..md
                                                    },
                                                ),
                                                ..m
                                            },
                                        ),
                                        ..l
                                    },
                                )
                            }
                        },
                    }
                },
            }
        },
        StepV::CreateAtaIdempotent => {
            match l.mint {
                None => Err(StepError::MintMissing),
                Some(m) => {
                    if !m.initialized {
                        Err(StepError::NotInitialized)
                    } else if l.ata_exists {
                        Ok(l)
                    } else {
                        Ok(LedgerV { ata_exists: true, ata_amount: 0, ..l })
                    }
                },
            }
        },
        StepV::MintTo { signer, amount } => {
            match l.mint {
                None => Err(StepError::MintMissing),
                Some(m) => {
                    if !m.initialized {
                        Err(StepError::NotInitialized)
                    } else if m.mint_authority != Some(signer) {
                        Err(StepError::NotAuthorized)
                    } else if !l.ata_exists {
                        Err(StepError::HoldingAccountMissing)
                    } else if m.supply + amount > u64::MAX {
                        Err(StepError::AmountOverflow)
                    } else if l.ata_amount + amount > u64::MAX {
                        Err(StepError::AmountOverflow)
                    } else {
                        Ok(
                            LedgerV {
                                mint: Some(
                                    MintAccountV { supply: (m.supply + amount) as u64, ..m },
                                ),
                                ata_amount: (l.ata_amount + amount) as u64,
                                ..l
                            },
                        )
                    }
                },
            }
        },
        StepV::ClearFreezeAuthority { signer } => {
            match l.mint {
                None => Err(StepError::MintMissing),
                Some(m) => {
                    if !m.initialized {
                        Err(StepError::NotInitialized)
                    } else if m.freeze_authority != Some(signer) {
                        Err(StepError::NotAuthorized)
                    } else {
                        Ok(LedgerV { mint: Some(MintAccountV { freeze_authority: None, ..m }), ..l })
                    }
                },
            }
        },
        StepV::ClearMintAuthority { signer } => {
            match l.mint {
                None => Err(StepError::MintMissing),
                Some(m) => {
                    if !m.initialized {
                        Err(StepError::NotInitialized)
                    } else if m.mint_authority != Some(signer) {
                        Err(StepError::NotAuthorized)
                    } else {
                        Ok(LedgerV { mint: Some(MintAccountV { mint_authority: None, ..m }), ..l })
                    }
                },
            }
        },
        StepV::ClearMetadataUpdateAuthority { signer } => {
            match l.mint {
                None => Err(StepError::MintMissing),
                Some(m) => {
                    match m.metadata {
                        None => Err(StepError::NotInitialized),
                        Some(md) => {
                            if md.update_authority != Some(signer) {
                                Err(StepError::NotAuthorized)
                            } else {
                                Ok(
                                    LedgerV {
                                        mint: Some(
                                            MintAccountV {
                                                metadata: Some(
                                                    MetadataV { update_authority: None, ..md },
                                                ),
                                                ..m
                                            },
                                        ),
                                        ..l
                                    },
                                )
                            }
                        },
                    }
                },
            }
        },
        StepV::ClearMetadataPointerAuthority { signer } => {
            match l.mint {
                None => Err(StepError::MintMissing),
                Some(m) => {
                    if !m.pointer_initialized {
                        Err(StepError::NotInitialized)
                    } else if m.metadata_pointer_authority != Some(signer) {
                        Err(StepError::NotAuthorized)
                    } else {
                        Ok(
                            LedgerV {
                                mint: Some(
                                    MintAccountV { metadata_pointer_authority: None, ..m },
                                ),
                                ..l
                            },
                        )
                    }
                },
            }
        },
    }
}

/// What one transaction does: its steps in order, all or nothing. The first
/// rejected step rejects the whole transaction and the ledger stays as it was.
pub open spec fn apply_tx(l: LedgerV, steps: Seq<StepV>) -> Result<LedgerV, StepError>
    decreases steps.len(),
{
    if steps.len() == 0 {
        Ok(l)
    } else {
        match apply(l, steps[0]) {
            Err(e) => Err(e),
            Ok(next) => apply_tx(next, steps.skip(1)),
        }
    }
}

fn clone_pairs(v: &Vec<(String, String)>) -> (r: Vec<(String, String)>)
    ensures
        pairs_view(r@) == pairs_view(v@),
{
    let mut out: Vec<(String, String)> = Vec::new();
    let n = v.len();
    let mut i: usize = 0;
    while i < n
        invariant
            i <= n,
            n == v@.len(),
            out@.len() == i,
            forall|t: int|
                0 <= t < i ==> (#[trigger] out@[t]).0@ == v@[t].0@ && out@[t].1@ == v@[t].1@,
        decreases n - i,
    {
        out.push((v[i].0.clone(), v[i].1.clone()));
        i = i + 1;
    }
    proof {
        assert(pairs_view(out@) =~= pairs_view(v@));
    }
    out
}

fn clone_metadata(m: &Metadata) -> (r: Metadata)
    ensures
        r@ == m@,
{
    Metadata {
        update_authority: m.update_authority,
        name: m.name.clone(),
        symbol: m.symbol.clone(),
        uri: m.uri.clone(),
        fields: clone_pairs(&m.fields),
    }
}

fn clone_mint(m: &MintAccount) -> (r: MintAccount)
    ensures
        r@ == m@,
{
    MintAccount {
        initialized: m.initialized,
        decimals: m.decimals,
        supply: m.supply,
        mint_authority: m.mint_authority,
        freeze_authority: m.freeze_authority,
        pointer_initialized: m.pointer_initialized,
        metadata_pointer_authority: m.metadata_pointer_authority,
        metadata: match &m.metadata {
            Some(md) => Some(clone_metadata(md)),
            None => None,
        },
    }
}

/// A copy of the ledger: used where a step leaves the state untouched.
fn clone_ledger(l: &Ledger) -> (r: Ledger)
    ensures
        r@ == l@,
{
    Ledger {
        payer_balance: l.payer_balance,
        mint: match &l.mint {
            Some(m) => Some(clone_mint(m)),
            None => None,
        },
        ata_exists: l.ata_exists,
        ata_amount: l.ata_amount,
    }
}

fn opt_id_eq(a: &Option<u64>, b: u64) -> (r: bool)
    ensures
        r == (*a == Some(b)),
{
    match a {
        Some(x) => *x == b,
        None => false,
    }
}

/// Runs one step against the ledger, exactly as the model's transition says:
/// the same next state on success, the same error on rejection.
pub fn apply_step(l: &Ledger, s: &Step) -> (r: Result<Ledger, StepError>)
    ensures
        r is Ok <==> apply(l@, s@) is Ok,
        r is Ok ==> r->Ok_0@ == apply(l@, s@)->Ok_0,
        r is Err ==> r->Err_0 == apply(l@, s@)->Err_0,
{
    match s {
        Step::CreateMintAccount { rent } => {
            match &l.mint {
                Some(_) => Err(StepError::AccountExists),
                None => {
                    if l.payer_balance < *rent {
                        Err(StepError::InsufficientFunds)
                    } else {
                        Ok(
                            Ledger {
                                payer_balance: l.payer_balance - *rent,
                                mint: Some(
                                    MintAccount {
                                        initialized: false,
                                        decimals: 0,
                                        supply: 0,
                                        mint_authority: None,
                                        freeze_authority: None,
                                        pointer_initialized: false,
                                        metadata_pointer_authority: None,
                                        metadata: None,
                                    },
                                ),
                                ata_exists: l.ata_exists,
                                ata_amount: l.ata_amount,
                            },
                        )
                    }
                },
            }
        },
        Step::InitializeMetadataPointer { authority } => {
            match &l.mint {
                None => Err(StepError::MintMissing),
                Some(m) => {
                    if m.pointer_initialized {
                        Err(StepError::AlreadyInitialized)
                    } else {
                        let mut m2 = clone_mint(m);
                        m2.pointer_initialized = true;
                        m2.metadata_pointer_authority = Some(*authority);
                        Ok(
                            Ledger {
                                payer_balance: l.payer_balance,
                                mint: Some(m2),
                                ata_exists: l.ata_exists,
                                ata_amount: l.ata_amount,
                            },
                        )
                    }
                },
            }
        },
        Step::InitializeMint { decimals, mint_authority, freeze_authority } => {
            match &l.mint {
                None => Err(StepError::MintMissing),
                Some(m) => {
                    if m.initialized {
                        Err(StepError::AlreadyInitialized)
                    } else {
                        let mut m2 = clone_mint(m);
                        m2.initialized = true;
                        m2.decimals = *decimals;
                        m2.mint_authority = Some(*mint_authority);
                        m2.freeze_authority = *freeze_authority;
                        Ok(
                            Ledger {
                                payer_balance: l.payer_balance,
                                mint: Some(m2),
                                ata_exists: l.ata_exists,
                                ata_amount: l.ata_amount,
                            },
                        )
                    }
                },
            }
        },
        Step::InitializeMetadata { update_authority, name, symbol, uri } => {
            match &l.mint {
                None => Err(StepError::MintMissing),
                Some(m) => {
                    if !m.initialized {
                        Err(StepError::NotInitialized)
                    } else if m.metadata.is_some() {
                        Err(StepError::AlreadyInitialized)
                    } else {
                        let mut m2 = clone_mint(m);
                        m2.metadata = Some(
                            Metadata {
                                update_authority: Some(*update_authority),
                                name: name.clone(),
                                symbol: symbol.clone(),
                                uri: uri.clone(),
                                fields: Vec::new(),
                            },
                        );
                        proof {
                            assert(pairs_view(Seq::<(String, String)>::empty()) =~= Seq::<
                                (Seq<char>, Seq<char>),
                            >::empty());
                        }
                        Ok(
                            Ledger {
                                payer_balance: l.payer_balance,
                                mint: Some(m2),
                                ata_exists: l.ata_exists,
                                ata_amount: l.ata_amount,
                            },
                        )
                    }
                },
            }
        },
        Step::UpdateField { signer, key, value } => {
            match &l.mint {
                None => Err(StepError::MintMissing),
                Some(m) => {
                    match &m.metadata {
                        None => Err(StepError::NotInitialized),
                        Some(md) => {
                            if !opt_id_eq(&md.update_authority, *signer) {
                                Err(StepError::NotAuthorized)
                            } else {
                                let new_fields = apply_field_update(&md.fields, key, value);
                                let md2 = Metadata {
                                    update_authority: md.update_authority,
                                    name: md.name.clone(),
                                    symbol: md.symbol.clone(),
                                    uri: md.uri.clone(),
                                    fields: new_fields,
                                };
                                let mut m2 = clone_mint(m);
                                m2.metadata = Some(md2);
                                Ok(
                                    Ledger {
                                        payer_balance: l.payer_balance,
                                        mint: Some(m2),
                                        ata_exists: l.ata_exists,
                                        ata_amount: l.ata_amount,
                                    },
                                )
                            }
                        },
                    }
                },
            }
        },
        Step::CreateAtaIdempotent => {
            match &l.mint {
                None => Err(StepError::MintMissing),
                Some(m) => {
                    if !m.initialized {
                        Err(StepError::NotInitialized)
                    } else if l.ata_exists {
                        Ok(clone_ledger(l))
                    } else {
                        let mut l2 = clone_ledger(l);
                        l2.ata_exists = true;
                        l2.ata_amount = 0;
                        Ok(l2)
                    }
                },
            }
        },
        Step::MintTo { signer, amount } => {
            match &l.mint {
                None => Err(StepError::MintMissing),
                Some(m) => {
                    if !m.initialized {
                        Err(StepError::NotInitialized)
                    } else if !opt_id_eq(&m.mint_authority, *signer) {
                        Err(StepError::NotAuthorized)
                    } else if !l.ata_exists {
                        Err(StepError::HoldingAccountMissing)
                    } else if *amount > u64::MAX - m.supply {
                        Err(StepError::AmountOverflow)
                    } else if *amount > u64::MAX - l.ata_amount {
                        Err(StepError::AmountOverflow)
                    } else {
                        let mut m2 = clone_mint(m);
                        m2.supply = m.supply + *amount;
                        Ok(
                            Ledger {
                                payer_balance: l.payer_balance,
                                mint: Some(m2),
                                ata_exists: l.ata_exists,
                                ata_amount: l.ata_amount + *amount,
                            },
                        )
                    }
                },
            }
        },
        Step::ClearFreezeAuthority { signer } => {
            match &l.mint {
                None => Err(StepError::MintMissing),
                Some(m) => {
                    if !m.initialized {
                        Err(StepError::NotInitialized)
                    } else if !opt_id_eq(&m.freeze_authority, *signer) {
                        Err(StepError::NotAuthorized)
                    } else {
                        let mut m2 = clone_mint(m);
                        m2.freeze_authority = None;
                        Ok(
                            Ledger {
                                payer_balance: l.payer_balance,
                                mint: Some(m2),
                                ata_exists: l.ata_exists,
                                ata_amount: l.ata_amount,
                            },
                        )
                    }
                },
            }
        },
        Step::ClearMintAuthority { signer } => {
            match &l.mint {
                None => Err(StepError::MintMissing),
                Some(m) => {
                    if !m.initialized {
                        Err(StepError::NotInitialized)
                    } else if !opt_id_eq(&m.mint_authority, *signer) {
                        Err(StepError::NotAuthorized)
                    } else {
                        let mut m2 = clone_mint(m);
                        m2.mint_authority = None;
                        Ok(
                            Ledger {
                                payer_balance: l.payer_balance,
                                mint: Some(m2),
                                ata_exists: l.ata_exists,
                                ata_amount: l.ata_amount,
                            },
                        )
                    }
                },
            }
        },
        Step::ClearMetadataUpdateAuthority { signer } => {
            match &l.mint {
                None => Err(StepError::MintMissing),
                Some(m) => {
                    match &m.metadata {
                        None => Err(StepError::NotInitialized),
                        Some(md) => {
                            if !opt_id_eq(&md.update_authority, *signer) {
                                Err(StepError::NotAuthorized)
                            } else {
                                let mut md2 = clone_metadata(md);
                                md2.update_authority = None;
                                let mut m2 = clone_mint(m);
                                m2.metadata = Some(md2);
                                Ok(
                                    Ledger {
                                        payer_balance: l.payer_balance,
                                        mint: Some(m2),
                                        ata_exists: l.ata_exists,
                                        ata_amount: l.ata_amount,
                                    },
                                )
                            }
                        },
                    }
                },
            }
        },
        Step::ClearMetadataPointerAuthority { signer } => {
            match &l.mint {
                None => Err(StepError::MintMissing),
                Some(m) => {
                    if !m.pointer_initialized {
                        Err(StepError::NotInitialized)
                    } else if !opt_id_eq(&m.metadata_pointer_authority, *signer) {
                        Err(StepError::NotAuthorized)
                    } else {
                        let mut m2 = clone_mint(m);
                        m2.metadata_pointer_authority = None;
                        Ok(
                            Ledger {
                                payer_balance: l.payer_balance,
                                mint: Some(m2),
                                ata_exists: l.ata_exists,
                                ata_amount: l.ata_amount,
                            },
                        )
                    }
                },
            }
        },
    }
}

/// The views of a step list.
pub open spec fn steps_view(steps: Seq<Step>) -> Seq<StepV> {
    steps.map_values(|s: Step| s@)
}

/// Splitting a transaction: running a concatenation is running the first part,
/// then the second on its result.
pub proof fn lemma_apply_tx_concat(l: LedgerV, a: Seq<StepV>, b: Seq<StepV>)
    ensures
        apply_tx(l, a + b) == match apply_tx(l, a) {
            Err(e) => Err(e),
            Ok(m) => apply_tx(m, b),
        },
    decreases a.len(),
{
    if a.len() == 0 {
        assert(a + b =~= b);
    } else {
        assert((a + b)[0] == a[0]);
        match apply(l, a[0]) {
            Err(e) => {
                assert((a + b).len() != 0);
            },
            Ok(next) => {
                assert((a + b).skip(1) =~= a.skip(1) + b);
                lemma_apply_tx_concat(next, a.skip(1), b);
            },
        }
    }
}

/// Runs one transaction atomically: the steps in order; the first rejected
/// step rejects the whole transaction, and the caller's ledger is unchanged.
pub fn apply_transaction(l: &Ledger, steps: &Vec<Step>) -> (r: Result<Ledger, StepError>)
    ensures
        r is Ok <==> apply_tx(l@, steps_view(steps@)) is Ok,
        r is Ok ==> r->Ok_0@ == apply_tx(l@, steps_view(steps@))->Ok_0,
        r is Err ==> r->Err_0 == apply_tx(l@, steps_view(steps@))->Err_0,
{
    let n = steps.len();
    let mut cur = clone_ledger(l);
    let mut i: usize = 0;
    while i < n
        invariant
            i <= n,
            n == steps@.len(),
            apply_tx(l@, steps_view(steps@).take(i as int)) == Ok::<LedgerV, StepError>(cur@),
        decreases n - i,
    {
        let ghost prefix = steps_view(steps@).take(i as int);
        let next = match apply_step(&cur, &steps[i]) {
            Ok(nl) => nl,
            Err(e) => {
                proof {
                    let upto = steps_view(steps@).take(i as int + 1);
                    assert(upto =~= prefix + seq![steps@[i as int]@]);
                    lemma_apply_tx_concat(l@, prefix, seq![steps@[i as int]@]);
                    assert(apply_tx(cur@, seq![steps@[i as int]@]) == Err::<
                        LedgerV,
                        StepError,
                    >(e));
                    assert(steps_view(steps@) =~= upto + steps_view(steps@).skip(i as int + 1));
                    lemma_apply_tx_concat(l@, upto, steps_view(steps@).skip(i as int + 1));
                }
                return Err(e);
            },
        };
        proof {
            let sv = steps@[i as int]@;
            let upto = steps_view(steps@).take(i as int + 1);
            assert(upto =~= prefix + seq![sv]);
            lemma_apply_tx_concat(l@, prefix, seq![sv]);
            assert(seq![sv].skip(1) =~= Seq::<StepV>::empty());
            assert(apply(cur@, sv) == Ok::<LedgerV, StepError>(next@));
            assert(seq![sv][0] == sv);
            assert(apply_tx(next@, Seq::<StepV>::empty()) == Ok::<LedgerV, StepError>(next@));
            assert(apply_tx(cur@, seq![sv]) == Ok::<LedgerV, StepError>(next@));
        }
        cur = next;
        i = i + 1;
    }
    proof {
        assert(steps_view(steps@).take(n as int) =~= steps_view(steps@));
    }
    Ok(cur)
}

} // verus!
