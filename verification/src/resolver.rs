//! Address/account resolver: derives the deterministic program-derived
//! addresses of a governance group and decodes the on-chain accounts
//! that hold its state. Derivation is a pure function of the seed
//! inputs; decoding is a pure function of the account bytes. Fetching
//! the bytes is the caller's job.

use vstd::prelude::*;

use crate::addr::Addr;
use crate::error::BaseMultisigError;
use crate::state::{Member, MultisigState, ProposalStatus};

use solana_sdk::pubkey::Pubkey;
use squads_multisig_program::anchor_lang::AccountDeserialize;
use squads_multisig_program::ProposalStatus as LedgerProposalStatus;
use squads_multisig_program::{SEED_MULTISIG, SEED_PREFIX, SEED_PROPOSAL, SEED_TRANSACTION, SEED_VAULT};

verus! {

// ---------------------------------------------------------------------
// Program-derived addresses. Each spec name below stands for one seed
// scheme of the governance program: the same inputs always give the
// same address, whatever the ledger holds.
// ---------------------------------------------------------------------

/// The group address derived from its one-time creation key.
pub uninterp spec fn multisig_pda_of(create_key: Seq<u8>) -> Seq<u8>;

/// The vault address of a group, by vault index.
pub uninterp spec fn vault_pda_of(multisig: Seq<u8>, vault_index: u8) -> Seq<u8>;

/// The transaction-record address of a group, by transaction index.
pub uninterp spec fn transaction_pda_of(multisig: Seq<u8>, tx_index: u64) -> Seq<u8>;

/// The proposal address of a group, by transaction index.
pub uninterp spec fn proposal_pda_of(multisig: Seq<u8>, tx_index: u64) -> Seq<u8>;

/// The associated token address of an owner for a mint, under the SPL
/// token program.
pub uninterp spec fn ata_of(owner: Seq<u8>, mint: Seq<u8>) -> Seq<u8>;

/// Relies on `Pubkey::find_program_address` with the governance
/// program's multisig seeds and program id; a viable bump exists for
/// every key used in practice.
#[verifier::external_body]
pub(crate) fn derive_multisig_pda(create_key: &Addr) -> (r: Addr)
    ensures
        r@ == multisig_pda_of(create_key@),
{
    let ck = Pubkey::new_from_array(create_key.bytes);
    let (pda, _) = Pubkey::find_program_address(
        &[SEED_PREFIX, SEED_MULTISIG, ck.as_ref()],
        &squads_multisig_program::ID,
    );
    Addr { bytes: pda.to_bytes() }
}

/// Relies on `Pubkey::find_program_address` with the governance
/// program's vault seeds and program id.
#[verifier::external_body]
pub(crate) fn derive_vault_pda(multisig: &Addr, vault_index: u8) -> (r: Addr)
    ensures
        r@ == vault_pda_of(multisig@, vault_index),
{
    let ms = Pubkey::new_from_array(multisig.bytes);
    let (pda, _) = Pubkey::find_program_address(
        &[SEED_PREFIX, ms.as_ref(), SEED_VAULT, &vault_index.to_le_bytes()],
        &squads_multisig_program::ID,
    );
    Addr { bytes: pda.to_bytes() }
}

/// Relies on `Pubkey::find_program_address` with the governance
/// program's transaction seeds and program id.
#[verifier::external_body]
pub(crate) fn derive_transaction_pda(multisig: &Addr, tx_index: u64) -> (r: Addr)
    ensures
        r@ == transaction_pda_of(multisig@, tx_index),
{
    let ms = Pubkey::new_from_array(multisig.bytes);
    let (pda, _) = Pubkey::find_program_address(
        &[SEED_PREFIX, ms.as_ref(), SEED_TRANSACTION, &tx_index.to_le_bytes()],
        &squads_multisig_program::ID,
    );
    Addr { bytes: pda.to_bytes() }
}

/// Relies on `Pubkey::find_program_address` with the governance
/// program's proposal seeds and program id.
#[verifier::external_body]
pub(crate) fn derive_proposal_pda(multisig: &Addr, tx_index: u64) -> (r: Addr)
    ensures
        r@ == proposal_pda_of(multisig@, tx_index),
{
    let ms = Pubkey::new_from_array(multisig.bytes);
    let (pda, _) = Pubkey::find_program_address(
        &[SEED_PREFIX, ms.as_ref(), SEED_TRANSACTION, &tx_index.to_le_bytes(), SEED_PROPOSAL],
        &squads_multisig_program::ID,
    );
    Addr { bytes: pda.to_bytes() }
}

/// Relies on `Pubkey::find_program_address` with the associated-token
/// program's seeds `[owner, token program, mint]` and the associated-token
/// program id, with `spl_token::id()` as the token program.
#[verifier::external_body]
pub fn get_associated_token_address(mint: &Addr, owner: &Addr) -> (r: Addr)
    ensures
        r@ == ata_of(owner@, mint@),
{
    let ata_program = Pubkey::new_from_array(crate::tokens::ata_program().bytes);
    let owner_key = Pubkey::new_from_array(owner.bytes);
    let mint_key = Pubkey::new_from_array(mint.bytes);
    let (pda, _) = Pubkey::find_program_address(
        &[owner_key.as_ref(), spl_token::id().as_ref(), mint_key.as_ref()],
        &ata_program,
    );
    Addr { bytes: pda.to_bytes() }
}

/// Re-deriving any resolver address from identical inputs yields the
/// identical address: each derivation is a function of its seed inputs
/// alone, independent of ledger state.
pub proof fn lemma_resolver_deterministic(ck1: Seq<u8>, ck2: Seq<u8>, ms1: Seq<u8>, ms2: Seq<u8>, i1: u64, i2: u64)
    requires
        ck1 == ck2,
        ms1 == ms2,
        i1 == i2,
    ensures
        multisig_pda_of(ck1) == multisig_pda_of(ck2),
        transaction_pda_of(ms1, i1) == transaction_pda_of(ms2, i2),
        proposal_pda_of(ms1, i1) == proposal_pda_of(ms2, i2),
        forall|v: u8| vault_pda_of(ms1, v) == vault_pda_of(ms2, v),
{
}

// ---------------------------------------------------------------------
// Account decoding. Each spec name stands for what the governance
// program's account layout yields on given bytes: a decoded value, or
// nothing when the bytes do not carry that account type.
// ---------------------------------------------------------------------

/// The treasury address stored in a program-config account, when the
/// bytes decode as one.
pub uninterp spec fn program_config_treasury_of(data: Seq<u8>) -> Option<Seq<u8>>;

/// What a multisig-config account decodes to: the member list as
/// (key, permission mask) pairs, the threshold, and the last
/// transaction index; or nothing when the bytes do not decode.
pub uninterp spec fn multisig_decode_of(data: Seq<u8>) -> Option<(Seq<(Seq<u8>, u8)>, u16, u64)>;

/// What a proposal account decodes to: its status as a (variant tag,
/// timestamp) pair in the program's declaration order; or nothing when
/// the bytes do not decode.
pub uninterp spec fn proposal_status_of(data: Seq<u8>) -> Option<(u8, i64)>;

/// The (variant tag, timestamp) encoding of a proposal status, in the
/// ledger program's declaration order of the variants.
pub open spec fn status_code(s: ProposalStatus) -> (u8, i64) {
    match s {
        ProposalStatus::Draft { timestamp } => (0u8, timestamp),
        ProposalStatus::Active { timestamp } => (1u8, timestamp),
        ProposalStatus::Rejected { timestamp } => (2u8, timestamp),
        ProposalStatus::Approved { timestamp } => (3u8, timestamp),
        ProposalStatus::Executing => (4u8, 0i64),
        ProposalStatus::Executed { timestamp } => (5u8, timestamp),
        ProposalStatus::Cancelled { timestamp } => (6u8, timestamp),
    }
}

/// Relies on the anchor `AccountDeserialize` impl of the governance
/// program's `ProgramConfig` account: decoding checks the account
/// discriminator and yields the stored fields, of which the treasury
/// address is returned.
#[verifier::external_body]
pub(crate) fn parse_program_config(data: &Vec<u8>) -> (r: Result<Addr, BaseMultisigError>)
    ensures
        match r {
            Ok(t) => program_config_treasury_of(data@) == Some(t@),
            Err(e) => {
                &&& program_config_treasury_of(data@) is None
                &&& e == BaseMultisigError::FailedToDeserializeProgramConfigData
            },
        },
{
    let config = squads_multisig_program::state::ProgramConfig::try_deserialize(
        &mut data.as_slice(),
    ).map_err(|_| BaseMultisigError::FailedToDeserializeProgramConfigData)?;
    Ok(Addr { bytes: config.treasury.to_bytes() })
}

/// Relies on the anchor `AccountDeserialize` impl of the governance
/// program's `Multisig` account: decoding checks the account
/// discriminator and yields the stored member list, threshold and
/// transaction index, converted member by member to plain values.
#[verifier::external_body]
pub(crate) fn parse_multisig_account(data: &Vec<u8>) -> (r: Result<MultisigState, BaseMultisigError>)
    ensures
        match r {
            Ok(ms) => {
                &&& multisig_decode_of(data@) matches Some(t)
                &&& ms.members@.map_values(|m: Member| (m.key@, m.mask)) == t.0
                &&& ms.threshold == t.1
                &&& ms.transaction_index == t.2
            },
            Err(e) => {
                &&& multisig_decode_of(data@) is None
                &&& e == BaseMultisigError::FailedToDeserializeMultisigConfigData
            },
        },
{
    let ms = squads_multisig_program::Multisig::try_deserialize(&mut data.as_slice())
        .map_err(|_| BaseMultisigError::FailedToDeserializeMultisigConfigData)?;
    let members: Vec<Member> = ms.members.iter().map(|m| Member {
        key: Addr { bytes: m.key.to_bytes() },
        mask: m.permissions.mask,
    }).collect();
    Ok(MultisigState { members, threshold: ms.threshold, transaction_index: ms.transaction_index })
}

/// Relies on the anchor `AccountDeserialize` impl of the governance
/// program's `Proposal` account: decoding checks the account
/// discriminator and yields the stored status, converted variant by
/// variant.
#[verifier::external_body]
#[allow(deprecated)]
pub(crate) fn parse_proposal_status(data: &Vec<u8>) -> (r: Result<ProposalStatus, BaseMultisigError>)
    ensures
        match r {
            Ok(s) => proposal_status_of(data@) == Some(status_code(s)),
            Err(e) => {
                &&& proposal_status_of(data@) is None
                &&& e == BaseMultisigError::FailedToDeserializeProposalConfigData
            },
        },
{
    let p = squads_multisig_program::Proposal::try_deserialize(&mut data.as_slice())
        .map_err(|_| BaseMultisigError::FailedToDeserializeProposalConfigData)?;
    Ok(match p.status {
        LedgerProposalStatus::Draft { timestamp } => ProposalStatus::Draft { timestamp },
        LedgerProposalStatus::Active { timestamp } => ProposalStatus::Active { timestamp },
        LedgerProposalStatus::Rejected { timestamp } => ProposalStatus::Rejected { timestamp },
        LedgerProposalStatus::Approved { timestamp } => ProposalStatus::Approved { timestamp },
        LedgerProposalStatus::Executing => ProposalStatus::Executing,
        LedgerProposalStatus::Executed { timestamp } => ProposalStatus::Executed { timestamp },
        LedgerProposalStatus::Cancelled { timestamp } => ProposalStatus::Cancelled { timestamp },
        _ => {
            return Err(BaseMultisigError::FailedToDeserializeProposalConfigData);
        },
    })
}

// ---------------------------------------------------------------------
// The handle of one governance group: its resolved addresses.
// ---------------------------------------------------------------------

/// The resolved addresses of one governance group. Built once from the
/// creation key (or a known group address) and the program-config
/// account; every workflow then works against these addresses.
pub struct MultisigHandle {
    pub creator: Addr,
    pub create_key: Option<Addr>,
    pub multisig_pda: Addr,
    pub vault_pda: Addr,
    pub treasury: Addr,
}

impl MultisigHandle {
    /// Resolve a fresh group from its one-time creation key. The
    /// program-config account bytes come from the caller's fetch:
    /// `None` means the node reported no account.
    pub fn new(creator: Addr, create_key: Addr, program_config_account: Option<&Vec<u8>>) -> (r:
        Result<MultisigHandle, BaseMultisigError>)
        ensures
            match r {
                Ok(h) => {
                    &&& program_config_account matches Some(d)
                        && program_config_treasury_of(d@) == Some(h.treasury@)
                    &&& h.multisig_pda@ == multisig_pda_of(create_key@)
                    &&& h.vault_pda@ == vault_pda_of(multisig_pda_of(create_key@), 0)
                    &&& h.creator@ == creator@
                    &&& h.create_key matches Some(ck) && ck@ == create_key@
                },
                Err(BaseMultisigError::FailedToFetchProgramConfigAccount) => program_config_account is None,
                Err(BaseMultisigError::FailedToDeserializeProgramConfigData) => {
                    program_config_account matches Some(d) && program_config_treasury_of(d@) is None
                },
                Err(_) => false,
            },
    {
        let data = match program_config_account {
            Some(d) => d,
            None => {
                return Err(BaseMultisigError::FailedToFetchProgramConfigAccount);
            },
        };
        let treasury = match parse_program_config(data) {
            Ok(t) => t,
            Err(e) => {
                return Err(e);
            },
        };
        let multisig_pda = derive_multisig_pda(&create_key);
        let vault_pda = derive_vault_pda(&multisig_pda, 0);
        Ok(MultisigHandle { creator, create_key: Some(create_key), multisig_pda, vault_pda, treasury })
    }

    /// Resolve an existing group from its known address.
    pub fn from_multisig_pda(creator: Addr, multisig_pda: Addr, program_config_account: Option<
        &Vec<u8>>) -> (r: Result<MultisigHandle, BaseMultisigError>)
        ensures
            match r {
                Ok(h) => {
                    &&& program_config_account matches Some(d)
                        && program_config_treasury_of(d@) == Some(h.treasury@)
                    &&& h.multisig_pda@ == multisig_pda@
                    &&& h.vault_pda@ == vault_pda_of(multisig_pda@, 0)
                    &&& h.creator@ == creator@
                    &&& h.create_key is None
                },
                Err(BaseMultisigError::FailedToFetchProgramConfigAccount) => program_config_account is None,
                Err(BaseMultisigError::FailedToDeserializeProgramConfigData) => {
                    program_config_account matches Some(d) && program_config_treasury_of(d@) is None
                },
                Err(_) => false,
            },
    {
        let data = match program_config_account {
            Some(d) => d,
            None => {
                return Err(BaseMultisigError::FailedToFetchProgramConfigAccount);
            },
        };
        let treasury = match parse_program_config(data) {
            Ok(t) => t,
            Err(e) => {
                return Err(e);
            },
        };
        let vault_pda = derive_vault_pda(&multisig_pda, 0);
        Ok(MultisigHandle { creator, create_key: None, multisig_pda, vault_pda, treasury })
    }

    pub fn get_creator_key(&self) -> (r: Addr)
        ensures
            r@ == self.creator@,
    {
        self.creator
    }

    pub fn get_multisig_pda(&self) -> (r: Addr)
        ensures
            r@ == self.multisig_pda@,
    {
        self.multisig_pda
    }

    pub fn get_vault_pda(&self) -> (r: Addr)
        ensures
            r@ == self.vault_pda@,
    {
        self.vault_pda
    }

    pub fn get_treasury(&self) -> (r: Addr)
        ensures
            r@ == self.treasury@,
    {
        self.treasury
    }
}

} // verus!
