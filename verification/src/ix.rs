//! Transaction builder: unsigned operation descriptors for each
//! governance action. Every builder here relies on the governance
//! program's own account and argument types — the anchor-generated
//! account-meta lists and instruction payloads — and each contract
//! names exactly which instruction, over which addresses and
//! arguments, the returned descriptor carries.
//!
//! An instruction is modelled by its parts: the target program id, the
//! ordered (address, signer, writable) account list, and the payload
//! bytes.

use vstd::prelude::*;

use crate::addr::Addr;
use crate::state::Member;

use solana_sdk::instruction::{AccountMeta, Instruction};
use solana_sdk::pubkey::Pubkey;
use solana_sdk::system_program;
use squads_multisig_program::anchor_lang::{InstructionData, ToAccountMetas};
use squads_multisig_program::{accounts as sq_accounts, instruction as sq_instruction};
use squads_multisig_program::{
    ConfigAction as SqConfigAction, ConfigTransactionCreateArgs, Member as SqMember,
    MultisigCreateArgsV2, Permissions as SqPermissions, ProposalCreateArgs, ProposalVoteArgs,
    VaultTransactionCreateArgs, SEED_PREFIX, SEED_PROGRAM_CONFIG,
};

verus! {

#[verifier::external_type_specification]
#[verifier::external_body]
pub struct ExInstruction(Instruction);

/// The parts of an instruction: program id bytes, the (address,
/// signer, writable) account list in order, and the payload bytes.
pub uninterp spec fn ix_parts(ix: Instruction) -> (Seq<u8>, Seq<(Seq<u8>, bool, bool)>, Seq<u8>);

/// The parts of each instruction of a list, in order.
pub open spec fn ix_views(v: Seq<Instruction>) -> Seq<(Seq<u8>, Seq<(Seq<u8>, bool, bool)>, Seq<
    u8>)> {
    v.map_values(|i: Instruction| ix_parts(i))
}

/// The group-creation instruction for the given group address,
/// creation key, creator, treasury, member list, threshold, time lock
/// and memo.
pub uninterp spec fn multisig_create_ix(
    multisig: Seq<u8>,
    create_key: Seq<u8>,
    creator: Seq<u8>,
    treasury: Seq<u8>,
    members: Seq<(Seq<u8>, u8)>,
    threshold: u16,
    time_lock: u32,
    memo: Seq<char>,
) -> (Seq<u8>, Seq<(Seq<u8>, bool, bool)>, Seq<u8>);

/// The config-transaction-create instruction queueing an add-member
/// action.
pub uninterp spec fn add_member_config_ix(
    multisig: Seq<u8>,
    tx_pda: Seq<u8>,
    creator: Seq<u8>,
    new_member: Seq<u8>,
    mask: u8,
    memo: Seq<char>,
) -> (Seq<u8>, Seq<(Seq<u8>, bool, bool)>, Seq<u8>);

/// The config-transaction-create instruction queueing a remove-member
/// action.
pub uninterp spec fn remove_member_config_ix(
    multisig: Seq<u8>,
    tx_pda: Seq<u8>,
    creator: Seq<u8>,
    old_member: Seq<u8>,
    memo: Seq<char>,
) -> (Seq<u8>, Seq<(Seq<u8>, bool, bool)>, Seq<u8>);

/// The config-transaction-create instruction queueing a
/// change-threshold action.
pub uninterp spec fn change_threshold_config_ix(
    multisig: Seq<u8>,
    tx_pda: Seq<u8>,
    creator: Seq<u8>,
    new_threshold: u16,
    memo: Seq<char>,
) -> (Seq<u8>, Seq<(Seq<u8>, bool, bool)>, Seq<u8>);

/// The proposal-create instruction for the given transaction index.
pub uninterp spec fn proposal_create_ix(
    multisig: Seq<u8>,
    proposal_pda: Seq<u8>,
    creator: Seq<u8>,
    tx_index: u64,
) -> (Seq<u8>, Seq<(Seq<u8>, bool, bool)>, Seq<u8>);

/// The proposal-approve instruction.
pub uninterp spec fn proposal_approve_ix(
    multisig: Seq<u8>,
    member: Seq<u8>,
    proposal_pda: Seq<u8>,
) -> (Seq<u8>, Seq<(Seq<u8>, bool, bool)>, Seq<u8>);

/// The proposal-cancel instruction.
pub uninterp spec fn proposal_cancel_ix(
    multisig: Seq<u8>,
    member: Seq<u8>,
    proposal_pda: Seq<u8>,
) -> (Seq<u8>, Seq<(Seq<u8>, bool, bool)>, Seq<u8>);

/// The config-transaction-execute instruction.
pub uninterp spec fn config_tx_execute_ix(
    multisig: Seq<u8>,
    member: Seq<u8>,
    proposal_pda: Seq<u8>,
    tx_pda: Seq<u8>,
) -> (Seq<u8>, Seq<(Seq<u8>, bool, bool)>, Seq<u8>);

/// The vault-transaction-create instruction carrying an encoded
/// transaction message.
pub uninterp spec fn vault_tx_create_ix(
    multisig: Seq<u8>,
    tx_pda: Seq<u8>,
    creator: Seq<u8>,
    vault_index: u8,
    message: Seq<u8>,
    memo: Seq<char>,
) -> (Seq<u8>, Seq<(Seq<u8>, bool, bool)>, Seq<u8>);

/// The vault-transaction-execute instruction with the message's
/// accounts appended as remaining accounts.
pub uninterp spec fn vault_tx_execute_ix(
    multisig: Seq<u8>,
    proposal_pda: Seq<u8>,
    tx_pda: Seq<u8>,
    member: Seq<u8>,
    remaining: Seq<(Seq<u8>, bool, bool)>,
) -> (Seq<u8>, Seq<(Seq<u8>, bool, bool)>, Seq<u8>);

/// Relies on the `Instruction` type of the ledger SDK: the returned
/// instruction carries exactly the given program id, account roles and
/// payload bytes.
#[verifier::external_body]
pub(crate) fn build_instruction(program: &Addr, metas: &Vec<(Addr, bool, bool)>, data: &Vec<u8>) -> (r:
    Instruction)
    ensures
        ix_parts(r) == (program@, metas@.map_values(|m: (Addr, bool, bool)| (m.0@, m.1, m.2)),
        data@),
{
    let accounts = metas.iter().map(|m| AccountMeta {
        pubkey: Pubkey::new_from_array(m.0.bytes),
        is_signer: m.1,
        is_writable: m.2,
    }).collect();
    Instruction { program_id: Pubkey::new_from_array(program.bytes), accounts, data: data.clone() }
}

/// Relies on the governance program's `MultisigCreateV2` accounts and
/// instruction types (anchor `ToAccountMetas` and `InstructionData`),
/// with the program-config account at its fixed derived address.
#[verifier::external_body]
pub(crate) fn build_multisig_create(multisig: &Addr, create_key: &Addr, creator: &Addr, treasury:
    &Addr, members: &Vec<Member>, threshold: u16, time_lock: u32, memo: &str) -> (r: Instruction)
    ensures
        ix_parts(r) == multisig_create_ix(multisig@, create_key@, creator@, treasury@,
        members@.map_values(|m: Member| (m.key@, m.mask)), threshold, time_lock, memo@),
{
    let pc = Pubkey::find_program_address(&[SEED_PREFIX, SEED_PROGRAM_CONFIG], &squads_multisig_program::ID).0;
    let accounts = sq_accounts::MultisigCreateV2 {
        program_config: pc, treasury: treasury.bytes.into(), multisig: multisig.bytes.into(),
        create_key: create_key.bytes.into(), creator: creator.bytes.into(),
        system_program: system_program::ID,
    };
    let args = sq_instruction::MultisigCreateV2 { args: MultisigCreateArgsV2 {
        config_authority: None, threshold,
        members: members.iter().map(|m| SqMember { key: m.key.bytes.into(), permissions: SqPermissions { mask: m.mask } }).collect(),
        time_lock, rent_collector: None, memo: Some(memo.to_string()),
    }};
    Instruction { program_id: squads_multisig_program::ID, accounts: accounts.to_account_metas(None), data: args.data() }
}


/// Relies on the governance program's `ConfigTransactionCreate`
/// accounts and instruction types, queueing one add-member action
/// with the creator as rent payer.
#[verifier::external_body]
pub(crate) fn build_add_member_tx(multisig: &Addr, tx_pda: &Addr, creator: &Addr, new_member:
    &Addr, mask: u8, memo: &str) -> (r: Instruction)
    ensures
        ix_parts(r) == add_member_config_ix(multisig@, tx_pda@, creator@, new_member@, mask,
        memo@),
{
    let accounts = sq_accounts::ConfigTransactionCreate {
        multisig: multisig.bytes.into(), transaction: tx_pda.bytes.into(),
        creator: creator.bytes.into(), rent_payer: creator.bytes.into(),
        system_program: system_program::ID,
    };
    let action = SqConfigAction::AddMember {
        new_member: SqMember { key: new_member.bytes.into(), permissions: SqPermissions { mask } },
    };
    let args = sq_instruction::ConfigTransactionCreate {
        args: ConfigTransactionCreateArgs { actions: vec![action], memo: Some(memo.to_string()) },
    };
    Instruction { program_id: squads_multisig_program::ID, accounts: accounts.to_account_metas(None), data: args.data() }
}

/// Relies on the governance program's `ConfigTransactionCreate`
/// accounts and instruction types, queueing one remove-member action
/// with the creator as rent payer.
#[verifier::external_body]
pub(crate) fn build_remove_member_tx(multisig: &Addr, tx_pda: &Addr, creator: &Addr, old_member:
    &Addr, memo: &str) -> (r: Instruction)
    ensures
        ix_parts(r) == remove_member_config_ix(multisig@, tx_pda@, creator@, old_member@, memo@),
{
    let accounts = sq_accounts::ConfigTransactionCreate {
        multisig: multisig.bytes.into(), transaction: tx_pda.bytes.into(),
        creator: creator.bytes.into(), rent_payer: creator.bytes.into(),
        system_program: system_program::ID,
    };
    let action = SqConfigAction::RemoveMember { old_member: old_member.bytes.into() };
    let args = sq_instruction::ConfigTransactionCreate {
        args: ConfigTransactionCreateArgs { actions: vec![action], memo: Some(memo.to_string()) },
    };
    Instruction { program_id: squads_multisig_program::ID, accounts: accounts.to_account_metas(None), data: args.data() }
}

/// Relies on the governance program's `ConfigTransactionCreate`
/// accounts and instruction types, queueing one change-threshold
/// action with the creator as rent payer.
#[verifier::external_body]
pub(crate) fn build_change_threshold_tx(multisig: &Addr, tx_pda: &Addr, creator: &Addr,
    new_threshold: u16, memo: &str) -> (r: Instruction)
    ensures
        ix_parts(r) == change_threshold_config_ix(multisig@, tx_pda@, creator@, new_threshold,
        memo@),
{
    let accounts = sq_accounts::ConfigTransactionCreate {
        multisig: multisig.bytes.into(), transaction: tx_pda.bytes.into(),
        creator: creator.bytes.into(), rent_payer: creator.bytes.into(),
        system_program: system_program::ID,
    };
    let action = SqConfigAction::ChangeThreshold { new_threshold };
    let args = sq_instruction::ConfigTransactionCreate {
        args: ConfigTransactionCreateArgs { actions: vec![action], memo: Some(memo.to_string()) },
    };
    Instruction { program_id: squads_multisig_program::ID, accounts: accounts.to_account_metas(None), data: args.data() }
}

/// Relies on the governance program's `ProposalCreate` accounts and
/// instruction types, with the creator as rent payer and a non-draft
/// proposal.
#[verifier::external_body]
pub(crate) fn build_proposal_create(multisig: &Addr, proposal_pda: &Addr, creator: &Addr, tx_index: u64)
    -> (r: Instruction)
    ensures
        ix_parts(r) == proposal_create_ix(multisig@, proposal_pda@, creator@, tx_index),
{
    let accounts = sq_accounts::ProposalCreate {
        multisig: Pubkey::new_from_array(multisig.bytes), proposal: Pubkey::new_from_array(proposal_pda.bytes),
        creator: Pubkey::new_from_array(creator.bytes), rent_payer: Pubkey::new_from_array(creator.bytes),
        system_program: system_program::ID,
    };
    let args = sq_instruction::ProposalCreate { args: ProposalCreateArgs { transaction_index: tx_index, draft: false } };
    Instruction { program_id: squads_multisig_program::ID, accounts: accounts.to_account_metas(None), data: args.data() }
}

/// Relies on the governance program's `ProposalVote` accounts and
/// `ProposalApprove` instruction types, with no memo.
#[verifier::external_body]
pub(crate) fn build_proposal_approve(multisig: &Addr, member: &Addr, proposal_pda: &Addr) -> (r:
    Instruction)
    ensures
        ix_parts(r) == proposal_approve_ix(multisig@, member@, proposal_pda@),
{
    let accounts = sq_accounts::ProposalVote {
        multisig: Pubkey::new_from_array(multisig.bytes), member: Pubkey::new_from_array(member.bytes),
        proposal: Pubkey::new_from_array(proposal_pda.bytes),
    };
    let args = sq_instruction::ProposalApprove { args: ProposalVoteArgs { memo: None } };
    Instruction { program_id: squads_multisig_program::ID, accounts: accounts.to_account_metas(None), data: args.data() }
}

/// Relies on the governance program's `ProposalVote` accounts and
/// `ProposalCancel` instruction types, with no memo.
#[verifier::external_body]
pub(crate) fn build_proposal_cancel(multisig: &Addr, member: &Addr, proposal_pda: &Addr) -> (r:
    Instruction)
    ensures
        ix_parts(r) == proposal_cancel_ix(multisig@, member@, proposal_pda@),
{
    let accounts = sq_accounts::ProposalVote {
        multisig: Pubkey::new_from_array(multisig.bytes), member: Pubkey::new_from_array(member.bytes),
        proposal: Pubkey::new_from_array(proposal_pda.bytes),
    };
    let args = sq_instruction::ProposalCancel { args: ProposalVoteArgs { memo: None } };
    Instruction { program_id: squads_multisig_program::ID, accounts: accounts.to_account_metas(None), data: args.data() }
}

/// Relies on the governance program's `ConfigTransactionExecute`
/// accounts and instruction types, with the member as rent payer.
#[verifier::external_body]
pub(crate) fn build_config_transaction_execute(multisig: &Addr, member: &Addr, proposal_pda: &Addr,
    tx_pda: &Addr) -> (r: Instruction)
    ensures
        ix_parts(r) == config_tx_execute_ix(multisig@, member@, proposal_pda@, tx_pda@),
{
    let accounts = sq_accounts::ConfigTransactionExecute {
        multisig: Pubkey::new_from_array(multisig.bytes), member: Pubkey::new_from_array(member.bytes),
        proposal: Pubkey::new_from_array(proposal_pda.bytes), transaction: Pubkey::new_from_array(tx_pda.bytes),
        rent_payer: Some(Pubkey::new_from_array(member.bytes)), system_program: Some(system_program::ID),
    };
    let args = sq_instruction::ConfigTransactionExecute {};
    Instruction { program_id: squads_multisig_program::ID, accounts: accounts.to_account_metas(None), data: args.data() }
}

/// Relies on the governance program's `VaultTransactionCreate`
/// accounts and instruction types, with the creator as rent payer and
/// no ephemeral signers.
#[verifier::external_body]
pub(crate) fn build_vault_transaction_create(multisig: &Addr, tx_pda: &Addr, creator: &Addr, vault_index:
    u8, message: &Vec<u8>, memo: &str) -> (r: Instruction)
    ensures
        ix_parts(r) == vault_tx_create_ix(multisig@, tx_pda@, creator@, vault_index, message@,
        memo@),
{
    let accounts = sq_accounts::VaultTransactionCreate {
        multisig: Pubkey::new_from_array(multisig.bytes), transaction: Pubkey::new_from_array(tx_pda.bytes),
        creator: Pubkey::new_from_array(creator.bytes), rent_payer: Pubkey::new_from_array(creator.bytes),
        system_program: system_program::ID,
    };
    let args = sq_instruction::VaultTransactionCreate { args: VaultTransactionCreateArgs {
        vault_index, ephemeral_signers: 0, transaction_message: message.clone(), memo: Some(memo.to_string()),
    }};
    Instruction { program_id: squads_multisig_program::ID, accounts: accounts.to_account_metas(None), data: args.data() }
}

/// Relies on the governance program's `VaultTransactionExecute`
/// accounts and instruction types; the given remaining accounts are
/// appended after the fixed four, in order.
#[verifier::external_body]
pub(crate) fn build_vault_transaction_execute(multisig: &Addr, proposal_pda: &Addr, tx_pda: &Addr,
    member: &Addr, remaining: &Vec<(Addr, bool, bool)>) -> (r: Instruction)
    ensures
        ix_parts(r) == vault_tx_execute_ix(multisig@, proposal_pda@, tx_pda@, member@,
        remaining@.map_values(|m: (Addr, bool, bool)| (m.0@, m.1, m.2))),
{
    let accounts = sq_accounts::VaultTransactionExecute {
        multisig: Pubkey::new_from_array(multisig.bytes), proposal: Pubkey::new_from_array(proposal_pda.bytes),
        transaction: Pubkey::new_from_array(tx_pda.bytes), member: Pubkey::new_from_array(member.bytes),
    };
    let mut metas = accounts.to_account_metas(None);
    metas.extend(remaining.iter().map(|m| AccountMeta {
        pubkey: Pubkey::new_from_array(m.0.bytes), is_signer: m.1, is_writable: m.2,
    }));
    let args = sq_instruction::VaultTransactionExecute {};
    Instruction { program_id: squads_multisig_program::ID, accounts: metas, data: args.data() }
}

} // verus!
