//! Orchestrator: one state machine per workflow. Each machine hands
//! the caller an action — fetch an account, submit a transaction plan,
//! publish a response — and takes the outcome back as an event. A plan
//! is submitted only after the previous step's confirmation event, and
//! a failing step ends the workflow with its error; nothing already
//! confirmed is undone.

use vstd::prelude::*;

use crate::addr::Addr;
use crate::error::{BaseMultisigError, WorkflowError};
use crate::ix::{
    build_add_member_tx, build_change_threshold_tx, build_config_transaction_execute,
    build_instruction, build_remove_member_tx,
    build_multisig_create, build_proposal_approve, build_proposal_cancel, build_proposal_create,
    build_vault_transaction_create, build_vault_transaction_execute, change_threshold_config_ix,
    config_tx_execute_ix, ix_parts, ix_views, multisig_create_ix, proposal_approve_ix,
    proposal_cancel_ix, proposal_create_ix, remove_member_config_ix, vault_tx_create_ix,
    vault_tx_execute_ix, add_member_config_ix,
};
use crate::message::{encode_transfer_message, transfer_message_bytes};
use crate::resolver::{
    derive_proposal_pda, derive_transaction_pda, get_associated_token_address, multisig_decode_of,
    parse_multisig_account, parse_proposal_status, proposal_pda_of, proposal_status_of,
    transaction_pda_of, MultisigHandle,
};
use crate::responses::{
    resp_create_dao, resp_create_dao_text, resp_change_threshold, resp_change_threshold_text,
    resp_execute, resp_execute_text, resp_member, resp_member_text, resp_vote, resp_vote_text,
    resp_withdraw, resp_withdraw_text,
};
use crate::state::{create_group_members, ConfigAction, Member, ProposalStatus, PERM_ALL};
use crate::text::{
    memo_add_member, memo_add_member_text, memo_change_threshold, memo_change_threshold_text,
    memo_remove_member, memo_remove_member_text, memo_transfer, memo_transfer_text,
};
use crate::tokens::{ata_program, ata_program_seq, system_program_addr, system_program_seq,
    token_mint, token_mint_seq, token_program, token_program_seq};
use crate::resolver::ata_of;

use solana_sdk::instruction::Instruction;

verus! {

/// Who signs a submitted transaction besides paying for it.
pub enum SignerSpec {
    /// The creator's key alone.
    Creator,
    /// The creator's key and the group's one-time creation key.
    CreatorAndCreateKey,
}

/// One transaction to sign and submit: its instructions in order, the
/// fee payer, and the required signers.
pub struct TxPlan {
    pub instructions: Vec<Instruction>,
    pub payer: Addr,
    pub signers: SignerSpec,
}

/// What a workflow asks its caller to do next.
pub enum StepAction {
    /// Fetch the account at the given address and hand its bytes back
    /// as a multisig-account event.
    FetchMultisig(Addr),
    /// Fetch the account at the given address and hand its bytes back
    /// as a proposal-account event.
    FetchProposal(Addr),
    /// Sign the plan with a fresh network reference, submit it, await
    /// ledger confirmation, and hand back confirmation or failure.
    Submit(TxPlan),
    /// The workflow is complete: publish this response body.
    Respond(String),
}

/// What the caller observed: fetched account bytes (`None` when the
/// node reports no account), a confirmed submission, or a failed one.
pub enum StepEvent {
    Start,
    MultisigAccount(Option<Vec<u8>>),
    ProposalAccount(Option<Vec<u8>>),
    Confirmed,
    SubmitFailed,
}

/// The last transaction index a multisig account decodes to.
pub open spec fn ms_index(d: Seq<u8>) -> u64 {
    multisig_decode_of(d).unwrap().2
}

/// The threshold a multisig account decodes to.
pub open spec fn ms_threshold(d: Seq<u8>) -> u16 {
    multisig_decode_of(d).unwrap().1
}

/// The proposal-create then proposal-approve instructions for index
/// `idx`, with the config-transaction-execute instruction appended
/// when `include_exec` holds.
pub open spec fn approval_ixs(ms: Seq<u8>, creator: Seq<u8>, idx: u64, include_exec: bool) -> Seq<
    (Seq<u8>, Seq<(Seq<u8>, bool, bool)>, Seq<u8>)> {
    let base = seq![
        proposal_create_ix(ms, proposal_pda_of(ms, idx), creator, idx),
        proposal_approve_ix(ms, creator, proposal_pda_of(ms, idx)),
    ];
    if include_exec {
        base.push(
            config_tx_execute_ix(ms, creator, proposal_pda_of(ms, idx), transaction_pda_of(ms, idx)),
        )
    } else {
        base
    }
}

/// The one queued-configuration instruction a config workflow submits
/// first: the action at the next transaction index, under its memo.
pub open spec fn config_create_ix_for(
    action: ConfigAction,
    ms: Seq<u8>,
    creator: Seq<u8>,
    next_idx: u64,
) -> (Seq<u8>, Seq<(Seq<u8>, bool, bool)>, Seq<u8>) {
    match action {
        ConfigAction::AddMember { new_member } => add_member_config_ix(
            ms,
            transaction_pda_of(ms, next_idx),
            creator,
            new_member.key@,
            new_member.mask,
            memo_add_member_text(new_member.key@, ms),
        ),
        ConfigAction::RemoveMember { old_member } => remove_member_config_ix(
            ms,
            transaction_pda_of(ms, next_idx),
            creator,
            old_member@,
            memo_remove_member_text(old_member@, ms),
        ),
        ConfigAction::ChangeThreshold { new_threshold } => change_threshold_config_ix(
            ms,
            transaction_pda_of(ms, next_idx),
            creator,
            new_threshold,
            memo_change_threshold_text(new_threshold, ms),
        ),
    }
}

/// The response body a config workflow publishes.
pub open spec fn config_response_text(action: ConfigAction, multisig_text: Seq<char>) -> Seq<
    char> {
    match action {
        ConfigAction::AddMember { new_member } => resp_member_text(multisig_text, new_member.key@),
        ConfigAction::RemoveMember { old_member } => resp_member_text(multisig_text, old_member@),
        ConfigAction::ChangeThreshold { new_threshold } => resp_change_threshold_text(
            multisig_text,
            new_threshold,
        ),
    }
}

/// Decodes a fetched multisig account, mapping a missing account and
/// undecodable bytes to their errors.
fn decode_multisig_event(acc: &Option<Vec<u8>>) -> (r: Result<u64, WorkflowError>)
    ensures
        match r {
            Ok(idx) => {
                &&& acc matches Some(d)
                &&& multisig_decode_of(d@) is Some
                &&& idx == ms_index(d@)
            },
            Err(WorkflowError::Ledger(BaseMultisigError::FailedToFetchMultisigConfigAccount)) => acc is None,
            Err(WorkflowError::Ledger(BaseMultisigError::FailedToDeserializeMultisigConfigData)) => {
                acc matches Some(d) && multisig_decode_of(d@) is None
            },
            Err(_) => false,
        },
{
    match acc {
        Some(d) => match parse_multisig_account(d) {
            Ok(ms) => Ok(ms.transaction_index),
            Err(e) => Err(WorkflowError::Ledger(e)),
        },
        None => Err(
            WorkflowError::Ledger(BaseMultisigError::FailedToFetchMultisigConfigAccount),
        ),
    }
}

/// Builds the proposal-create, proposal-approve and (optionally)
/// config-transaction-execute plan for index `idx`, paid and signed by
/// the creator.
pub fn build_approval_plan(h: &MultisigHandle, idx: u64, include_exec: bool) -> (p: TxPlan)
    ensures
        ix_views(p.instructions@) == approval_ixs(h.multisig_pda@, h.creator@, idx, include_exec),
        p.payer@ == h.creator@,
        p.signers is Creator,
{
    let proposal_pda = derive_proposal_pda(&h.multisig_pda, idx);
    let mut instructions: Vec<Instruction> = Vec::new();
    instructions.push(build_proposal_create(&h.multisig_pda, &proposal_pda, &h.creator, idx));
    instructions.push(build_proposal_approve(&h.multisig_pda, &h.creator, &proposal_pda));
    if include_exec {
        let tx_pda = derive_transaction_pda(&h.multisig_pda, idx);
        instructions.push(
            build_config_transaction_execute(&h.multisig_pda, &h.creator, &proposal_pda, &tx_pda),
        );
    }
    proof {
        assert(ix_views(instructions@) =~= approval_ixs(
            h.multisig_pda@,
            h.creator@,
            idx,
            include_exec,
        ));
    }
    TxPlan { instructions, payer: h.creator, signers: SignerSpec::Creator }
}

/// Builds the one-instruction plan that queues a configuration action
/// at index `next_idx`.
fn build_config_create_plan(h: &MultisigHandle, action: &ConfigAction, next_idx: u64) -> (p:
    TxPlan)
    ensures
        ix_views(p.instructions@) == seq![
            config_create_ix_for(*action, h.multisig_pda@, h.creator@, next_idx),
        ],
        p.payer@ == h.creator@,
        p.signers is Creator,
{
    let tx_pda = derive_transaction_pda(&h.multisig_pda, next_idx);
    let ix = match action {
        ConfigAction::AddMember { new_member } => {
            let memo = memo_add_member(&new_member.key, &h.multisig_pda);
            build_add_member_tx(
                &h.multisig_pda,
                &tx_pda,
                &h.creator,
                &new_member.key,
                new_member.mask,
                memo.as_str(),
            )
        },
        ConfigAction::RemoveMember { old_member } => {
            let memo = memo_remove_member(old_member, &h.multisig_pda);
            build_remove_member_tx(&h.multisig_pda, &tx_pda, &h.creator, old_member, memo.as_str())
        },
        ConfigAction::ChangeThreshold { new_threshold } => {
            let memo = memo_change_threshold(*new_threshold, &h.multisig_pda);
            build_change_threshold_tx(
                &h.multisig_pda,
                &tx_pda,
                &h.creator,
                *new_threshold,
                memo.as_str(),
            )
        },
    };
    let mut instructions: Vec<Instruction> = Vec::new();
    instructions.push(ix);
    proof {
        assert(ix_views(instructions@) =~= seq![
            config_create_ix_for(*action, h.multisig_pda@, h.creator@, next_idx),
        ]);
    }
    TxPlan { instructions, payer: h.creator, signers: SignerSpec::Creator }
}

/// Phases of a configuration workflow (add member, remove member,
/// change threshold).
#[derive(Clone, Copy, PartialEq, Eq, Structural, Debug)]
pub enum CfgPhase {
    Init,
    AwaitStateForCreate,
    AwaitCreateConfirm,
    AwaitStateForApproval,
    AwaitApprovalConfirm,
    Done,
}

/// A configuration workflow: queue the action, then propose, approve
/// and execute it, re-reading the transaction index between the two
/// submissions.
pub struct ConfigWorkflow {
    pub handle: MultisigHandle,
    pub action: ConfigAction,
    pub multisig_text: String,
    pub phase: CfgPhase,
}

impl ConfigWorkflow {
    pub fn new(handle: MultisigHandle, action: ConfigAction, multisig_text: String) -> (r:
        ConfigWorkflow)
        ensures
            r.handle == handle,
            r.action == action,
            r.multisig_text == multisig_text,
            r.phase is Init,
    {
        ConfigWorkflow { handle, action, multisig_text, phase: CfgPhase::Init }
    }

    /// Advances the workflow on one observed event.
    pub fn step(&mut self, e: StepEvent) -> (r: Result<StepAction, WorkflowError>)
        ensures
            final(self).handle == old(self).handle,
            final(self).action == old(self).action,
            final(self).multisig_text == old(self).multisig_text,
            match old(self).phase {
                CfgPhase::Init => match e {
                    StepEvent::Start => {
                        &&& r matches Ok(StepAction::FetchMultisig(a)) && a@ == old(self).handle.multisig_pda@
                        &&& final(self).phase is AwaitStateForCreate
                    },
                    _ => r matches Err(WorkflowError::UnexpectedEvent) && final(self).phase == old(self).phase,
                },
                CfgPhase::AwaitStateForCreate => match e {
                    StepEvent::MultisigAccount(acc) => match acc {
                        Option::Some(d) => if multisig_decode_of(d@) is None {
                            &&& r matches Err(WorkflowError::Ledger(
                                BaseMultisigError::FailedToDeserializeMultisigConfigData,
                            ))
                            &&& final(self).phase is Done
                        } else if ms_index(d@) == u64::MAX {
                            r matches Err(WorkflowError::IndexOverflow) && final(self).phase is Done
                        } else {
                            &&& r matches Ok(StepAction::Submit(p)) && ix_views(p.instructions@)
                                == seq![
                                config_create_ix_for(
                                    old(self).action,
                                    old(self).handle.multisig_pda@,
                                    old(self).handle.creator@,
                                    (ms_index(d@) + 1) as u64,
                                ),
                            ] && p.payer@ == old(self).handle.creator@ && p.signers is Creator
                            &&& final(self).phase is AwaitCreateConfirm
                        },
                        Option::None => {
                            &&& r matches Err(WorkflowError::Ledger(
                                BaseMultisigError::FailedToFetchMultisigConfigAccount,
                            ))
                            &&& final(self).phase is Done
                        },
                    },
                    _ => r matches Err(WorkflowError::UnexpectedEvent) && final(self).phase == old(self).phase,
                },
                CfgPhase::AwaitCreateConfirm => match e {
                    StepEvent::Confirmed => {
                        &&& r matches Ok(StepAction::FetchMultisig(a)) && a@ == old(self).handle.multisig_pda@
                        &&& final(self).phase is AwaitStateForApproval
                    },
                    StepEvent::SubmitFailed => r matches Err(WorkflowError::SubmissionFailed)
                        && final(self).phase is Done,
                    _ => r matches Err(WorkflowError::UnexpectedEvent) && final(self).phase == old(self).phase,
                },
                CfgPhase::AwaitStateForApproval => match e {
                    StepEvent::MultisigAccount(acc) => match acc {
                        Option::Some(d) => if multisig_decode_of(d@) is None {
                            &&& r matches Err(WorkflowError::Ledger(
                                BaseMultisigError::FailedToDeserializeMultisigConfigData,
                            ))
                            &&& final(self).phase is Done
                        } else {
                            &&& r matches Ok(StepAction::Submit(p)) && ix_views(p.instructions@)
                                == approval_ixs(
                                old(self).handle.multisig_pda@,
                                old(self).handle.creator@,
                                ms_index(d@),
                                true,
                            ) && p.payer@ == old(self).handle.creator@ && p.signers is Creator
                            &&& final(self).phase is AwaitApprovalConfirm
                        },
                        Option::None => {
                            &&& r matches Err(WorkflowError::Ledger(
                                BaseMultisigError::FailedToFetchMultisigConfigAccount,
                            ))
                            &&& final(self).phase is Done
                        },
                    },
                    _ => r matches Err(WorkflowError::UnexpectedEvent) && final(self).phase == old(self).phase,
                },
                CfgPhase::AwaitApprovalConfirm => match e {
                    StepEvent::Confirmed => {
                        &&& r matches Ok(StepAction::Respond(s)) && s@ == config_response_text(
                            old(self).action,
                            old(self).multisig_text@,
                        )
                        &&& final(self).phase is Done
                    },
                    StepEvent::SubmitFailed => r matches Err(WorkflowError::SubmissionFailed)
                        && final(self).phase is Done,
                    _ => r matches Err(WorkflowError::UnexpectedEvent) && final(self).phase == old(self).phase,
                },
                CfgPhase::Done => r matches Err(WorkflowError::UnexpectedEvent) && final(self).phase is Done,
            },
    {
        match (&self.phase, e) {
            (CfgPhase::Init, StepEvent::Start) => {
                self.phase = CfgPhase::AwaitStateForCreate;
                Ok(StepAction::FetchMultisig(self.handle.multisig_pda))
            },
            (CfgPhase::AwaitStateForCreate, StepEvent::MultisigAccount(acc)) => {
                match decode_multisig_event(&acc) {
                    Ok(idx) => {
                        if idx == u64::MAX {
                            self.phase = CfgPhase::Done;
                            Err(WorkflowError::IndexOverflow)
                        } else {
                            let p = build_config_create_plan(&self.handle, &self.action, idx + 1);
                            self.phase = CfgPhase::AwaitCreateConfirm;
                            Ok(StepAction::Submit(p))
                        }
                    },
                    Err(err) => {
                        self.phase = CfgPhase::Done;
                        Err(err)
                    },
                }
            },
            (CfgPhase::AwaitCreateConfirm, StepEvent::Confirmed) => {
                self.phase = CfgPhase::AwaitStateForApproval;
                Ok(StepAction::FetchMultisig(self.handle.multisig_pda))
            },
            (CfgPhase::AwaitCreateConfirm, StepEvent::SubmitFailed) => {
                self.phase = CfgPhase::Done;
                Err(WorkflowError::SubmissionFailed)
            },
            (CfgPhase::AwaitStateForApproval, StepEvent::MultisigAccount(acc)) => {
                match decode_multisig_event(&acc) {
                    Ok(idx) => {
                        let p = build_approval_plan(&self.handle, idx, true);
                        self.phase = CfgPhase::AwaitApprovalConfirm;
                        Ok(StepAction::Submit(p))
                    },
                    Err(err) => {
                        self.phase = CfgPhase::Done;
                        Err(err)
                    },
                }
            },
            (CfgPhase::AwaitApprovalConfirm, StepEvent::Confirmed) => {
                let body = match &self.action {
                    ConfigAction::AddMember { new_member } => resp_member(
                        self.multisig_text.as_str(),
                        &new_member.key,
                    ),
                    ConfigAction::RemoveMember { old_member } => resp_member(
                        self.multisig_text.as_str(),
                        old_member,
                    ),
                    ConfigAction::ChangeThreshold { new_threshold } => resp_change_threshold(
                        self.multisig_text.as_str(),
                        *new_threshold,
                    ),
                };
                self.phase = CfgPhase::Done;
                Ok(StepAction::Respond(body))
            },
            (CfgPhase::AwaitApprovalConfirm, StepEvent::SubmitFailed) => {
                self.phase = CfgPhase::Done;
                Err(WorkflowError::SubmissionFailed)
            },
            (CfgPhase::Done, _) => Err(WorkflowError::UnexpectedEvent),
            _ => Err(WorkflowError::UnexpectedEvent),
        }
    }
}


/// The remaining accounts of a vault-transfer execution: the message's
/// account keys in order, none a signer, writable as the message marks
/// them.
pub open spec fn transfer_remaining(vault: Seq<u8>, receiver: Seq<u8>) -> Seq<(Seq<u8>, bool,
    bool)> {
    seq![
        (vault, false, true),
        (ata_of(vault, token_mint_seq()), false, true),
        (ata_of(receiver, token_mint_seq()), false, true),
        (token_program_seq(), false, false),
    ]
}

/// The instruction that creates the vault's associated token account:
/// the associated-token program over [funding (signer, writable), the
/// derived token account (writable), the wallet, the mint, the system
/// program, the token program], with the create tag as payload.
pub open spec fn create_ata_ix(funding: Seq<u8>, wallet: Seq<u8>, mint: Seq<u8>) -> (Seq<u8>, Seq<
    (Seq<u8>, bool, bool)>, Seq<u8>) {
    (
        ata_program_seq(),
        seq![
            (funding, true, true),
            (ata_of(wallet, mint), false, true),
            (wallet, false, false),
            (mint, false, false),
            (system_program_seq(), false, false),
            (token_program_seq(), false, false),
        ],
        seq![0u8],
    )
}

/// Builds the create-associated-token-account instruction for the
/// wallet's account of the treasury mint, funded by `funding`.
pub fn build_create_ata(funding: &Addr, wallet: &Addr) -> (r: Instruction)
    ensures
        ix_parts(r) == create_ata_ix(funding@, wallet@, token_mint_seq()),
{
    let mint = token_mint();
    let ata = get_associated_token_address(&mint, wallet);
    let mut metas: Vec<(Addr, bool, bool)> = Vec::new();
    metas.push((*funding, true, true));
    metas.push((ata, false, true));
    metas.push((*wallet, false, false));
    metas.push((mint, false, false));
    metas.push((system_program_addr(), false, false));
    metas.push((token_program(), false, false));
    let mut data: Vec<u8> = Vec::new();
    data.push(0);
    let ix = build_instruction(&ata_program(), &metas, &data);
    proof {
        assert(metas@.map_values(|m: (Addr, bool, bool)| (m.0@, m.1, m.2)) =~= create_ata_ix(
            funding@,
            wallet@,
            token_mint_seq(),
        ).1);
        assert(data@ =~= seq![0u8]);
    }
    ix
}

/// How a vote command votes.
#[derive(Clone, Copy, PartialEq, Eq, Structural, Debug)]
pub enum VoteChoice {
    Approve,
    Cancel,
}

/// Phases of a vote workflow.
#[derive(Clone, Copy, PartialEq, Eq, Structural, Debug)]
pub enum VotePhase {
    Init,
    AwaitState,
    AwaitProposal,
    AwaitVoteConfirm,
    Done,
}

/// A vote workflow: read the current transaction index, then approve
/// the current proposal, or — for a cancel vote — first re-read the
/// proposal's status and cancel only while it is Approved.
pub struct VoteWorkflow {
    pub handle: MultisigHandle,
    pub choice: VoteChoice,
    pub voter: Addr,
    pub vote_text: String,
    pub multisig_text: String,
    pub index: u64,
    pub phase: VotePhase,
}

impl VoteWorkflow {
    pub fn new(handle: MultisigHandle, choice: VoteChoice, voter: Addr, vote_text: String,
        multisig_text: String) -> (r: VoteWorkflow)
        ensures
            r.handle == handle,
            r.choice == choice,
            r.voter == voter,
            r.vote_text == vote_text,
            r.multisig_text == multisig_text,
            r.phase is Init,
    {
        VoteWorkflow { handle, choice, voter, vote_text, multisig_text, index: 0, phase: VotePhase::Init }
    }

    /// Advances the workflow on one observed event. A cancel vote
    /// against a proposal whose status is not Approved ends the
    /// workflow with that error and submits nothing.
    pub fn step(&mut self, e: StepEvent) -> (r: Result<StepAction, WorkflowError>)
        ensures
            final(self).handle == old(self).handle,
            final(self).choice == old(self).choice,
            final(self).voter == old(self).voter,
            final(self).vote_text == old(self).vote_text,
            final(self).multisig_text == old(self).multisig_text,
            match old(self).phase {
                VotePhase::Init => match e {
                    StepEvent::Start => {
                        &&& r matches Ok(StepAction::FetchMultisig(a)) && a@ == old(self).handle.multisig_pda@
                        &&& final(self).phase is AwaitState
                    },
                    _ => r matches Err(WorkflowError::UnexpectedEvent) && final(self).phase == old(self).phase,
                },
                VotePhase::AwaitState => match e {
                    StepEvent::MultisigAccount(acc) => match acc {
                        Option::Some(d) => if multisig_decode_of(d@) is None {
                            &&& r matches Err(WorkflowError::Ledger(BaseMultisigError::FailedToDeserializeMultisigConfigData))
                            &&& final(self).phase is Done
                        } else if old(self).choice is Approve {
                            &&& r matches Ok(StepAction::Submit(p)) && ix_views(p.instructions@)
                                == seq![
                                proposal_approve_ix(
                                    old(self).handle.multisig_pda@,
                                    old(self).handle.creator@,
                                    proposal_pda_of(old(self).handle.multisig_pda@, ms_index(d@)),
                                ),
                            ] && p.payer@ == old(self).handle.creator@ && p.signers is Creator
                            &&& final(self).phase is AwaitVoteConfirm
                        } else {
                            &&& r matches Ok(StepAction::FetchProposal(a)) && a@ == proposal_pda_of(
                                old(self).handle.multisig_pda@,
                                ms_index(d@),
                            )
                            &&& final(self).index == ms_index(d@)
                            &&& final(self).phase is AwaitProposal
                        },
                        Option::None => {
                            &&& r matches Err(WorkflowError::Ledger(BaseMultisigError::FailedToFetchMultisigConfigAccount))
                            &&& final(self).phase is Done
                        },
                    },
                    _ => r matches Err(WorkflowError::UnexpectedEvent) && final(self).phase == old(self).phase,
                },
                VotePhase::AwaitProposal => match e {
                    StepEvent::ProposalAccount(acc) => match acc {
                        Option::Some(d) => if proposal_status_of(d@) is None {
                            &&& r matches Err(WorkflowError::Ledger(BaseMultisigError::FailedToDeserializeProposalConfigData))
                            &&& final(self).phase is Done
                        } else if proposal_status_of(d@).unwrap().0 == 3 {
                            &&& r matches Ok(StepAction::Submit(p)) && ix_views(p.instructions@)
                                == seq![
                                proposal_cancel_ix(
                                    old(self).handle.multisig_pda@,
                                    old(self).handle.creator@,
                                    proposal_pda_of(old(self).handle.multisig_pda@, old(self).index),
                                ),
                            ] && p.payer@ == old(self).handle.creator@ && p.signers is Creator
                            &&& final(self).phase is AwaitVoteConfirm
                        } else {
                            &&& r matches Err(WorkflowError::Ledger(BaseMultisigError::ProposalStatusIsNotApproved))
                            &&& final(self).phase is Done
                        },
                        Option::None => {
                            &&& r matches Err(WorkflowError::Ledger(BaseMultisigError::FailedToFetchProposalConfigAccount))
                            &&& final(self).phase is Done
                        },
                    },
                    _ => r matches Err(WorkflowError::UnexpectedEvent) && final(self).phase == old(self).phase,
                },
                VotePhase::AwaitVoteConfirm => match e {
                    StepEvent::Confirmed => {
                        &&& r matches Ok(StepAction::Respond(s)) && s@ == resp_vote_text(
                            old(self).multisig_text@,
                            old(self).voter@,
                            old(self).vote_text@,
                        )
                        &&& final(self).phase is Done
                    },
                    StepEvent::SubmitFailed => r matches Err(WorkflowError::SubmissionFailed)
                        && final(self).phase is Done,
                    _ => r matches Err(WorkflowError::UnexpectedEvent) && final(self).phase == old(self).phase,
                },
                VotePhase::Done => r matches Err(WorkflowError::UnexpectedEvent) && final(self).phase is Done,
            },
    {
        match (&self.phase, e) {
            (VotePhase::Init, StepEvent::Start) => {
                self.phase = VotePhase::AwaitState;
                Ok(StepAction::FetchMultisig(self.handle.multisig_pda))
            },
            (VotePhase::AwaitState, StepEvent::MultisigAccount(acc)) => {
                match decode_multisig_event(&acc) {
                    Ok(idx) => match self.choice {
                        VoteChoice::Approve => {
                            let proposal_pda = derive_proposal_pda(&self.handle.multisig_pda, idx);
                            let ix = build_proposal_approve(
                                &self.handle.multisig_pda,
                                &self.handle.creator,
                                &proposal_pda,
                            );
                            let mut instructions: Vec<Instruction> = Vec::new();
                            instructions.push(ix);
                            proof {
                                assert(ix_views(instructions@) =~= seq![
                                    proposal_approve_ix(
                                        self.handle.multisig_pda@,
                                        self.handle.creator@,
                                        proposal_pda_of(self.handle.multisig_pda@, idx),
                                    ),
                                ]);
                            }
                            self.phase = VotePhase::AwaitVoteConfirm;
                            Ok(StepAction::Submit(TxPlan {
                                instructions,
                                payer: self.handle.creator,
                                signers: SignerSpec::Creator,
                            }))
                        },
                        VoteChoice::Cancel => {
                            let proposal_pda = derive_proposal_pda(&self.handle.multisig_pda, idx);
                            self.index = idx;
                            self.phase = VotePhase::AwaitProposal;
                            Ok(StepAction::FetchProposal(proposal_pda))
                        },
                    },
                    Err(err) => {
                        self.phase = VotePhase::Done;
                        Err(err)
                    },
                }
            },
            (VotePhase::AwaitProposal, StepEvent::ProposalAccount(acc)) => {
                match acc {
                    Some(d) => match parse_proposal_status(&d) {
                        Ok(status) => match status {
                            ProposalStatus::Approved { .. } => {
                                let proposal_pda = derive_proposal_pda(
                                    &self.handle.multisig_pda,
                                    self.index,
                                );
                                let ix = build_proposal_cancel(
                                    &self.handle.multisig_pda,
                                    &self.handle.creator,
                                    &proposal_pda,
                                );
                                let mut instructions: Vec<Instruction> = Vec::new();
                                instructions.push(ix);
                                proof {
                                    assert(ix_views(instructions@) =~= seq![
                                        proposal_cancel_ix(
                                            self.handle.multisig_pda@,
                                            self.handle.creator@,
                                            proposal_pda_of(self.handle.multisig_pda@, self.index),
                                        ),
                                    ]);
                                }
                                self.phase = VotePhase::AwaitVoteConfirm;
                                Ok(StepAction::Submit(TxPlan {
                                    instructions,
                                    payer: self.handle.creator,
                                    signers: SignerSpec::Creator,
                                }))
                            },
                            _ => {
                                self.phase = VotePhase::Done;
                                Err(WorkflowError::Ledger(
                                    BaseMultisigError::ProposalStatusIsNotApproved,
                                ))
                            },
                        },
                        Err(err) => {
                            self.phase = VotePhase::Done;
                            Err(WorkflowError::Ledger(err))
                        },
                    },
                    None => {
                        self.phase = VotePhase::Done;
                        Err(WorkflowError::Ledger(
                            BaseMultisigError::FailedToFetchProposalConfigAccount,
                        ))
                    },
                }
            },
            (VotePhase::AwaitVoteConfirm, StepEvent::Confirmed) => {
                let body = resp_vote(
                    self.multisig_text.as_str(),
                    &self.voter,
                    self.vote_text.as_str(),
                );
                self.phase = VotePhase::Done;
                Ok(StepAction::Respond(body))
            },
            (VotePhase::AwaitVoteConfirm, StepEvent::SubmitFailed) => {
                self.phase = VotePhase::Done;
                Err(WorkflowError::SubmissionFailed)
            },
            (VotePhase::Done, _) => Err(WorkflowError::UnexpectedEvent),
            _ => Err(WorkflowError::UnexpectedEvent),
        }
    }
}


/// Phases of an execute-proposal workflow.
#[derive(Clone, Copy, PartialEq, Eq, Structural, Debug)]
pub enum ExecPhase {
    Init,
    AwaitState,
    AwaitConfirm,
    Done,
}

/// An execute-proposal workflow: read the current transaction index
/// and submit the config-transaction execution directly, assuming the
/// proposal was approved earlier.
pub struct ExecuteProposalWorkflow {
    pub handle: MultisigHandle,
    pub multisig_text: String,
    pub phase: ExecPhase,
}

impl ExecuteProposalWorkflow {
    pub fn new(handle: MultisigHandle, multisig_text: String) -> (r: ExecuteProposalWorkflow)
        ensures
            r.handle == handle,
            r.multisig_text == multisig_text,
            r.phase is Init,
    {
        ExecuteProposalWorkflow { handle, multisig_text, phase: ExecPhase::Init }
    }

    /// Advances the workflow on one observed event.
    pub fn step(&mut self, e: StepEvent) -> (r: Result<StepAction, WorkflowError>)
        ensures
            final(self).handle == old(self).handle,
            final(self).multisig_text == old(self).multisig_text,
            match old(self).phase {
                ExecPhase::Init => match e {
                    StepEvent::Start => {
                        &&& r matches Ok(StepAction::FetchMultisig(a)) && a@ == old(self).handle.multisig_pda@
                        &&& final(self).phase is AwaitState
                    },
                    _ => r matches Err(WorkflowError::UnexpectedEvent) && final(self).phase == old(self).phase,
                },
                ExecPhase::AwaitState => match e {
                    StepEvent::MultisigAccount(acc) => match acc {
                        Option::Some(d) => if multisig_decode_of(d@) is None {
                            &&& r matches Err(WorkflowError::Ledger(BaseMultisigError::FailedToDeserializeMultisigConfigData))
                            &&& final(self).phase is Done
                        } else {
                            &&& r matches Ok(StepAction::Submit(p)) && ix_views(p.instructions@)
                                == seq![
                                config_tx_execute_ix(
                                    old(self).handle.multisig_pda@,
                                    old(self).handle.creator@,
                                    proposal_pda_of(old(self).handle.multisig_pda@, ms_index(d@)),
                                    transaction_pda_of(old(self).handle.multisig_pda@, ms_index(d@)),
                                ),
                            ] && p.payer@ == old(self).handle.creator@ && p.signers is Creator
                            &&& final(self).phase is AwaitConfirm
                        },
                        Option::None => {
                            &&& r matches Err(WorkflowError::Ledger(BaseMultisigError::FailedToFetchMultisigConfigAccount))
                            &&& final(self).phase is Done
                        },
                    },
                    _ => r matches Err(WorkflowError::UnexpectedEvent) && final(self).phase == old(self).phase,
                },
                ExecPhase::AwaitConfirm => match e {
                    StepEvent::Confirmed => {
                        &&& r matches Ok(StepAction::Respond(s)) && s@ == resp_execute_text(old(self).multisig_text@)
                        &&& final(self).phase is Done
                    },
                    StepEvent::SubmitFailed => r matches Err(WorkflowError::SubmissionFailed)
                        && final(self).phase is Done,
                    _ => r matches Err(WorkflowError::UnexpectedEvent) && final(self).phase == old(self).phase,
                },
                ExecPhase::Done => r matches Err(WorkflowError::UnexpectedEvent) && final(self).phase is Done,
            },
    {
        match (&self.phase, e) {
            (ExecPhase::Init, StepEvent::Start) => {
                self.phase = ExecPhase::AwaitState;
                Ok(StepAction::FetchMultisig(self.handle.multisig_pda))
            },
            (ExecPhase::AwaitState, StepEvent::MultisigAccount(acc)) => {
                match decode_multisig_event(&acc) {
                    Ok(idx) => {
                        let proposal_pda = derive_proposal_pda(&self.handle.multisig_pda, idx);
                        let tx_pda = derive_transaction_pda(&self.handle.multisig_pda, idx);
                        let ix = build_config_transaction_execute(
                            &self.handle.multisig_pda,
                            &self.handle.creator,
                            &proposal_pda,
                            &tx_pda,
                        );
                        let mut instructions: Vec<Instruction> = Vec::new();
                        instructions.push(ix);
                        proof {
                            assert(ix_views(instructions@) =~= seq![
                                config_tx_execute_ix(
                                    self.handle.multisig_pda@,
                                    self.handle.creator@,
                                    proposal_pda_of(self.handle.multisig_pda@, idx),
                                    transaction_pda_of(self.handle.multisig_pda@, idx),
                                ),
                            ]);
                        }
                        self.phase = ExecPhase::AwaitConfirm;
                        Ok(StepAction::Submit(TxPlan {
                            instructions,
                            payer: self.handle.creator,
                            signers: SignerSpec::Creator,
                        }))
                    },
                    Err(err) => {
                        self.phase = ExecPhase::Done;
                        Err(err)
                    },
                }
            },
            (ExecPhase::AwaitConfirm, StepEvent::Confirmed) => {
                let body = resp_execute(self.multisig_text.as_str());
                self.phase = ExecPhase::Done;
                Ok(StepAction::Respond(body))
            },
            (ExecPhase::AwaitConfirm, StepEvent::SubmitFailed) => {
                self.phase = ExecPhase::Done;
                Err(WorkflowError::SubmissionFailed)
            },
            (ExecPhase::Done, _) => Err(WorkflowError::UnexpectedEvent),
            _ => Err(WorkflowError::UnexpectedEvent),
        }
    }
}

/// Phases of a withdraw workflow.
#[derive(Clone, Copy, PartialEq, Eq, Structural, Debug)]
pub enum WdPhase {
    Init,
    AwaitState,
    AwaitFirstConfirm,
    AwaitStateForApproval,
    AwaitApprovalConfirm,
    Done,
}

/// A withdraw workflow. With `is_execute` set it executes the already
/// approved vault transaction directly; otherwise it queues a vault
/// transfer and then proposes and approves it, deferring execution to
/// a later explicit execute command. The requested amount is scaled by
/// the deposit unit (×1,000,000) at construction.
pub struct WithdrawWorkflow {
    pub handle: MultisigHandle,
    pub receiver: Addr,
    pub lamports: u64,
    pub is_execute: bool,
    pub multisig_text: String,
    pub proposal_id_text: String,
    pub phase: WdPhase,
}

impl WithdrawWorkflow {
    /// Builds the workflow, scaling `amount` by 1,000,000; `None` when
    /// the scaled amount would not fit.
    pub fn new(handle: MultisigHandle, receiver: Addr, amount: u64, is_execute: bool,
        multisig_text: String, proposal_id_text: String) -> (r: Option<WithdrawWorkflow>)
        ensures
            amount <= u64::MAX / 1000000 ==> (r matches Some(w) && w.handle == handle
                && w.receiver == receiver && w.lamports == amount * 1000000 && w.is_execute
                == is_execute && w.multisig_text == multisig_text && w.proposal_id_text
                == proposal_id_text && w.phase is Init),
            amount > u64::MAX / 1000000 ==> r is None,
    {
        match amount.checked_mul(1000000) {
            Some(lamports) => Some(WithdrawWorkflow {
                handle,
                receiver,
                lamports,
                is_execute,
                multisig_text,
                proposal_id_text,
                phase: WdPhase::Init,
            }),
            None => None,
        }
    }

    /// Advances the workflow on one observed event.
    pub fn step(&mut self, e: StepEvent) -> (r: Result<StepAction, WorkflowError>)
        ensures
            final(self).handle == old(self).handle,
            final(self).receiver == old(self).receiver,
            final(self).lamports == old(self).lamports,
            final(self).is_execute == old(self).is_execute,
            final(self).multisig_text == old(self).multisig_text,
            final(self).proposal_id_text == old(self).proposal_id_text,
            match old(self).phase {
                WdPhase::Init => match e {
                    StepEvent::Start => {
                        &&& r matches Ok(StepAction::FetchMultisig(a)) && a@ == old(self).handle.multisig_pda@
                        &&& final(self).phase is AwaitState
                    },
                    _ => r matches Err(WorkflowError::UnexpectedEvent) && final(self).phase == old(self).phase,
                },
                WdPhase::AwaitState => match e {
                    StepEvent::MultisigAccount(acc) => match acc {
                        Option::Some(d) => if multisig_decode_of(d@) is None {
                            &&& r matches Err(WorkflowError::Ledger(BaseMultisigError::FailedToDeserializeMultisigConfigData))
                            &&& final(self).phase is Done
                        } else if old(self).is_execute {
                            &&& r matches Ok(StepAction::Submit(p)) && ix_views(p.instructions@)
                                == seq![
                                vault_tx_execute_ix(
                                    old(self).handle.multisig_pda@,
                                    proposal_pda_of(old(self).handle.multisig_pda@, ms_index(d@)),
                                    transaction_pda_of(old(self).handle.multisig_pda@, ms_index(d@)),
                                    old(self).handle.creator@,
                                    transfer_remaining(old(self).handle.vault_pda@, old(self).receiver@),
                                ),
                            ] && p.payer@ == old(self).handle.creator@ && p.signers is Creator
                            &&& final(self).phase is AwaitFirstConfirm
                        } else if ms_index(d@) == u64::MAX {
                            r matches Err(WorkflowError::IndexOverflow) && final(self).phase is Done
                        } else {
                            &&& r matches Ok(StepAction::Submit(p)) && ix_views(p.instructions@)
                                == seq![
                                vault_tx_create_ix(
                                    old(self).handle.multisig_pda@,
                                    transaction_pda_of(old(self).handle.multisig_pda@, (ms_index(d@) + 1) as u64),
                                    old(self).handle.creator@,
                                    0,
                                    transfer_message_bytes(
                                        old(self).handle.vault_pda@,
                                        ata_of(old(self).handle.vault_pda@, token_mint_seq()),
                                        ata_of(old(self).receiver@, token_mint_seq()),
                                        old(self).lamports,
                                    ),
                                    memo_transfer_text(
                                        old(self).lamports,
                                        old(self).handle.vault_pda@,
                                        old(self).receiver@,
                                    ),
                                ),
                            ] && p.payer@ == old(self).handle.creator@ && p.signers is Creator
                            &&& final(self).phase is AwaitFirstConfirm
                        },
                        Option::None => {
                            &&& r matches Err(WorkflowError::Ledger(BaseMultisigError::FailedToFetchMultisigConfigAccount))
                            &&& final(self).phase is Done
                        },
                    },
                    _ => r matches Err(WorkflowError::UnexpectedEvent) && final(self).phase == old(self).phase,
                },
                WdPhase::AwaitFirstConfirm => match e {
                    StepEvent::Confirmed => if old(self).is_execute {
                        &&& r matches Ok(StepAction::Respond(s)) && s@ == resp_withdraw_text(
                            old(self).multisig_text@,
                            old(self).proposal_id_text@,
                            true,
                            old(self).receiver@,
                            old(self).lamports,
                        )
                        &&& final(self).phase is Done
                    } else {
                        &&& r matches Ok(StepAction::FetchMultisig(a)) && a@ == old(self).handle.multisig_pda@
                        &&& final(self).phase is AwaitStateForApproval
                    },
                    StepEvent::SubmitFailed => r matches Err(WorkflowError::SubmissionFailed)
                        && final(self).phase is Done,
                    _ => r matches Err(WorkflowError::UnexpectedEvent) && final(self).phase == old(self).phase,
                },
                WdPhase::AwaitStateForApproval => match e {
                    StepEvent::MultisigAccount(acc) => match acc {
                        Option::Some(d) => if multisig_decode_of(d@) is None {
                            &&& r matches Err(WorkflowError::Ledger(BaseMultisigError::FailedToDeserializeMultisigConfigData))
                            &&& final(self).phase is Done
                        } else {
                            &&& r matches Ok(StepAction::Submit(p)) && ix_views(p.instructions@)
                                == approval_ixs(
                                old(self).handle.multisig_pda@,
                                old(self).handle.creator@,
                                ms_index(d@),
                                false,
                            ) && p.payer@ == old(self).handle.creator@ && p.signers is Creator
                            &&& final(self).phase is AwaitApprovalConfirm
                        },
                        Option::None => {
                            &&& r matches Err(WorkflowError::Ledger(BaseMultisigError::FailedToFetchMultisigConfigAccount))
                            &&& final(self).phase is Done
                        },
                    },
                    _ => r matches Err(WorkflowError::UnexpectedEvent) && final(self).phase == old(self).phase,
                },
                WdPhase::AwaitApprovalConfirm => match e {
                    StepEvent::Confirmed => {
                        &&& r matches Ok(StepAction::Respond(s)) && s@ == resp_withdraw_text(
                            old(self).multisig_text@,
                            old(self).proposal_id_text@,
                            false,
                            old(self).receiver@,
                            old(self).lamports,
                        )
                        &&& final(self).phase is Done
                    },
                    StepEvent::SubmitFailed => r matches Err(WorkflowError::SubmissionFailed)
                        && final(self).phase is Done,
                    _ => r matches Err(WorkflowError::UnexpectedEvent) && final(self).phase == old(self).phase,
                },
                WdPhase::Done => r matches Err(WorkflowError::UnexpectedEvent) && final(self).phase is Done,
            },
    {
        match (&self.phase, e) {
            (WdPhase::Init, StepEvent::Start) => {
                self.phase = WdPhase::AwaitState;
                Ok(StepAction::FetchMultisig(self.handle.multisig_pda))
            },
            (WdPhase::AwaitState, StepEvent::MultisigAccount(acc)) => {
                match decode_multisig_event(&acc) {
                    Ok(idx) => {
                        let mint = token_mint();
                        let source = get_associated_token_address(&mint, &self.handle.vault_pda);
                        let dest = get_associated_token_address(&mint, &self.receiver);
                        if self.is_execute {
                            let proposal_pda = derive_proposal_pda(&self.handle.multisig_pda, idx);
                            let tx_pda = derive_transaction_pda(&self.handle.multisig_pda, idx);
                            let mut remaining: Vec<(Addr, bool, bool)> = Vec::new();
                            remaining.push((self.handle.vault_pda, false, true));
                            remaining.push((source, false, true));
                            remaining.push((dest, false, true));
                            remaining.push((token_program(), false, false));
                            let ix = build_vault_transaction_execute(
                                &self.handle.multisig_pda,
                                &proposal_pda,
                                &tx_pda,
                                &self.handle.creator,
                                &remaining,
                            );
                            let mut instructions: Vec<Instruction> = Vec::new();
                            instructions.push(ix);
                            proof {
                                assert(remaining@.map_values(|m: (Addr, bool, bool)| (m.0@, m.1, m.2))
                                    =~= transfer_remaining(self.handle.vault_pda@, self.receiver@));
                                assert(ix_views(instructions@) =~= seq![
                                    vault_tx_execute_ix(
                                        self.handle.multisig_pda@,
                                        proposal_pda_of(self.handle.multisig_pda@, idx),
                                        transaction_pda_of(self.handle.multisig_pda@, idx),
                                        self.handle.creator@,
                                        transfer_remaining(self.handle.vault_pda@, self.receiver@),
                                    ),
                                ]);
                            }
                            self.phase = WdPhase::AwaitFirstConfirm;
                            Ok(StepAction::Submit(TxPlan {
                                instructions,
                                payer: self.handle.creator,
                                signers: SignerSpec::Creator,
                            }))
                        } else {
                            if idx == u64::MAX {
                                self.phase = WdPhase::Done;
                                Err(WorkflowError::IndexOverflow)
                            } else {
                                let tx_pda = derive_transaction_pda(&self.handle.multisig_pda, idx + 1);
                                let message = encode_transfer_message(
                                    &self.handle.vault_pda,
                                    &source,
                                    &dest,
                                    self.lamports,
                                );
                                let memo = memo_transfer(
                                    self.lamports,
                                    &self.handle.vault_pda,
                                    &self.receiver,
                                );
                                let ix = build_vault_transaction_create(
                                    &self.handle.multisig_pda,
                                    &tx_pda,
                                    &self.handle.creator,
                                    0,
                                    &message,
                                    memo.as_str(),
                                );
                                let mut instructions: Vec<Instruction> = Vec::new();
                                instructions.push(ix);
                                proof {
                                    assert(ix_views(instructions@) =~= seq![
                                        vault_tx_create_ix(
                                            self.handle.multisig_pda@,
                                            transaction_pda_of(self.handle.multisig_pda@, (idx + 1) as u64),
                                            self.handle.creator@,
                                            0,
                                            transfer_message_bytes(
                                                self.handle.vault_pda@,
                                                ata_of(self.handle.vault_pda@, token_mint_seq()),
                                                ata_of(self.receiver@, token_mint_seq()),
                                                self.lamports,
                                            ),
                                            memo_transfer_text(
                                                self.lamports,
                                                self.handle.vault_pda@,
                                                self.receiver@,
                                            ),
                                        ),
                                    ]);
                                }
                                self.phase = WdPhase::AwaitFirstConfirm;
                                Ok(StepAction::Submit(TxPlan {
                                    instructions,
                                    payer: self.handle.creator,
                                    signers: SignerSpec::Creator,
                                }))
                            }
                        }
                    },
                    Err(err) => {
                        self.phase = WdPhase::Done;
                        Err(err)
                    },
                }
            },
            (WdPhase::AwaitFirstConfirm, StepEvent::Confirmed) => {
                if self.is_execute {
                    let body = resp_withdraw(
                        self.multisig_text.as_str(),
                        self.proposal_id_text.as_str(),
                        true,
                        &self.receiver,
                        self.lamports,
                    );
                    self.phase = WdPhase::Done;
                    Ok(StepAction::Respond(body))
                } else {
                    self.phase = WdPhase::AwaitStateForApproval;
                    Ok(StepAction::FetchMultisig(self.handle.multisig_pda))
                }
            },
            (WdPhase::AwaitFirstConfirm, StepEvent::SubmitFailed) => {
                self.phase = WdPhase::Done;
                Err(WorkflowError::SubmissionFailed)
            },
            (WdPhase::AwaitStateForApproval, StepEvent::MultisigAccount(acc)) => {
                match decode_multisig_event(&acc) {
                    Ok(idx) => {
                        let p = build_approval_plan(&self.handle, idx, false);
                        self.phase = WdPhase::AwaitApprovalConfirm;
                        Ok(StepAction::Submit(p))
                    },
                    Err(err) => {
                        self.phase = WdPhase::Done;
                        Err(err)
                    },
                }
            },
            (WdPhase::AwaitApprovalConfirm, StepEvent::Confirmed) => {
                let body = resp_withdraw(
                    self.multisig_text.as_str(),
                    self.proposal_id_text.as_str(),
                    false,
                    &self.receiver,
                    self.lamports,
                );
                self.phase = WdPhase::Done;
                Ok(StepAction::Respond(body))
            },
            (WdPhase::AwaitApprovalConfirm, StepEvent::SubmitFailed) => {
                self.phase = WdPhase::Done;
                Err(WorkflowError::SubmissionFailed)
            },
            (WdPhase::Done, _) => Err(WorkflowError::UnexpectedEvent),
            _ => Err(WorkflowError::UnexpectedEvent),
        }
    }
}


/// Phases of a create-group workflow.
#[derive(Clone, Copy, PartialEq, Eq, Structural, Debug)]
pub enum CreatePhase {
    Init,
    AwaitAtaConfirm,
    AwaitCreateConfirm,
    AwaitStateForResponse,
    Done,
}

/// A create-group workflow: allocate the vault's token account, submit
/// the group-creation transaction — signed by the creator and the
/// fresh creation key — and then read the created group back for the
/// response. The created group's member list is exactly the creator
/// with full permissions, and its threshold is 1.
pub struct CreateDaoWorkflow {
    pub handle: MultisigHandle,
    pub create_key: Addr,
    pub project_id_text: String,
    pub phase: CreatePhase,
}

impl CreateDaoWorkflow {
    /// Builds the workflow; the handle must carry the group's one-time
    /// creation key.
    pub fn new(handle: MultisigHandle, project_id_text: String) -> (r: Result<CreateDaoWorkflow,
        WorkflowError>)
        ensures
            match handle.create_key {
                Option::Some(ck) => (r matches Ok(w) && w.handle == handle && w.create_key == ck
                    && w.project_id_text == project_id_text && w.phase is Init),
                Option::None => r matches Err(WorkflowError::MissingCreateKey),
            },
    {
        match &handle.create_key {
            Some(ck) => {
                let create_key = *ck;
                Ok(CreateDaoWorkflow { handle, create_key, project_id_text, phase: CreatePhase::Init })
            },
            None => Err(WorkflowError::MissingCreateKey),
        }
    }

    /// Advances the workflow on one observed event. The group-creation
    /// instruction carries exactly one member — the creator, with full
    /// permissions — and threshold 1.
    pub fn step(&mut self, e: StepEvent) -> (r: Result<StepAction, WorkflowError>)
        ensures
            final(self).handle == old(self).handle,
            final(self).create_key == old(self).create_key,
            final(self).project_id_text == old(self).project_id_text,
            match old(self).phase {
                CreatePhase::Init => match e {
                    StepEvent::Start => {
                        &&& r matches Ok(StepAction::Submit(p)) && ix_views(p.instructions@)
                            == seq![
                            create_ata_ix(
                                old(self).handle.creator@,
                                old(self).handle.vault_pda@,
                                token_mint_seq(),
                            ),
                        ] && p.payer@ == old(self).handle.creator@ && p.signers is Creator
                        &&& final(self).phase is AwaitAtaConfirm
                    },
                    _ => r matches Err(WorkflowError::UnexpectedEvent) && final(self).phase == old(self).phase,
                },
                CreatePhase::AwaitAtaConfirm => match e {
                    StepEvent::Confirmed => {
                        &&& r matches Ok(StepAction::Submit(p)) && ix_views(p.instructions@)
                            == seq![
                            multisig_create_ix(
                                old(self).handle.multisig_pda@,
                                old(self).create_key@,
                                old(self).handle.creator@,
                                old(self).handle.treasury@,
                                seq![(old(self).handle.creator@, PERM_ALL)],
                                1,
                                0,
                                "Deploy my own Squad"@,
                            ),
                        ] && p.payer@ == old(self).handle.creator@ && p.signers is CreatorAndCreateKey
                        &&& final(self).phase is AwaitCreateConfirm
                    },
                    StepEvent::SubmitFailed => r matches Err(WorkflowError::SubmissionFailed)
                        && final(self).phase is Done,
                    _ => r matches Err(WorkflowError::UnexpectedEvent) && final(self).phase == old(self).phase,
                },
                CreatePhase::AwaitCreateConfirm => match e {
                    StepEvent::Confirmed => {
                        &&& r matches Ok(StepAction::FetchMultisig(a)) && a@ == old(self).handle.multisig_pda@
                        &&& final(self).phase is AwaitStateForResponse
                    },
                    StepEvent::SubmitFailed => r matches Err(WorkflowError::SubmissionFailed)
                        && final(self).phase is Done,
                    _ => r matches Err(WorkflowError::UnexpectedEvent) && final(self).phase == old(self).phase,
                },
                CreatePhase::AwaitStateForResponse => match e {
                    StepEvent::MultisigAccount(acc) => match acc {
                        Option::Some(d) => if multisig_decode_of(d@) is None {
                            &&& r matches Err(WorkflowError::Ledger(BaseMultisigError::FailedToDeserializeMultisigConfigData))
                            &&& final(self).phase is Done
                        } else {
                            &&& r matches Ok(StepAction::Respond(s)) && s@ == resp_create_dao_text(
                                old(self).handle.multisig_pda@,
                                old(self).handle.vault_pda@,
                                ms_threshold(d@),
                                old(self).project_id_text@,
                            )
                            &&& final(self).phase is Done
                        },
                        Option::None => {
                            &&& r matches Err(WorkflowError::Ledger(BaseMultisigError::FailedToFetchMultisigConfigAccount))
                            &&& final(self).phase is Done
                        },
                    },
                    _ => r matches Err(WorkflowError::UnexpectedEvent) && final(self).phase == old(self).phase,
                },
                CreatePhase::Done => r matches Err(WorkflowError::UnexpectedEvent) && final(self).phase is Done,
            },
    {
        match (&self.phase, e) {
            (CreatePhase::Init, StepEvent::Start) => {
                let ix = build_create_ata(&self.handle.creator, &self.handle.vault_pda);
                let mut instructions: Vec<Instruction> = Vec::new();
                instructions.push(ix);
                proof {
                    assert(ix_views(instructions@) =~= seq![
                        create_ata_ix(
                            self.handle.creator@,
                            self.handle.vault_pda@,
                            token_mint_seq(),
                        ),
                    ]);
                }
                self.phase = CreatePhase::AwaitAtaConfirm;
                Ok(StepAction::Submit(TxPlan {
                    instructions,
                    payer: self.handle.creator,
                    signers: SignerSpec::Creator,
                }))
            },
            (CreatePhase::AwaitAtaConfirm, StepEvent::Confirmed) => {
                let no_members: Vec<Member> = Vec::new();
                let members = create_group_members(&no_members, &self.handle.creator);
                let ix = build_multisig_create(
                    &self.handle.multisig_pda,
                    &self.create_key,
                    &self.handle.creator,
                    &self.handle.treasury,
                    &members,
                    1,
                    0,
                    "Deploy my own Squad",
                );
                let mut instructions: Vec<Instruction> = Vec::new();
                instructions.push(ix);
                proof {
                    let cm = Member { key: self.handle.creator, mask: PERM_ALL };
                    assert(!crate::state::contains_member(no_members@, cm));
                    assert(members@ =~= seq![cm]);
                    assert(members@.map_values(|m: Member| (m.key@, m.mask)) =~= seq![
                        (self.handle.creator@, PERM_ALL),
                    ]);
                    assert(ix_views(instructions@) =~= seq![
                        multisig_create_ix(
                            self.handle.multisig_pda@,
                            self.create_key@,
                            self.handle.creator@,
                            self.handle.treasury@,
                            seq![(self.handle.creator@, PERM_ALL)],
                            1,
                            0,
                            "Deploy my own Squad"@,
                        ),
                    ]);
                }
                self.phase = CreatePhase::AwaitCreateConfirm;
                Ok(StepAction::Submit(TxPlan {
                    instructions,
                    payer: self.handle.creator,
                    signers: SignerSpec::CreatorAndCreateKey,
                }))
            },
            (CreatePhase::AwaitAtaConfirm, StepEvent::SubmitFailed) => {
                self.phase = CreatePhase::Done;
                Err(WorkflowError::SubmissionFailed)
            },
            (CreatePhase::AwaitCreateConfirm, StepEvent::Confirmed) => {
                self.phase = CreatePhase::AwaitStateForResponse;
                Ok(StepAction::FetchMultisig(self.handle.multisig_pda))
            },
            (CreatePhase::AwaitCreateConfirm, StepEvent::SubmitFailed) => {
                self.phase = CreatePhase::Done;
                Err(WorkflowError::SubmissionFailed)
            },
            (CreatePhase::AwaitStateForResponse, StepEvent::MultisigAccount(acc)) => {
                match acc {
                    Some(d) => match parse_multisig_account(&d) {
                        Ok(ms) => {
                            let body = resp_create_dao(
                                &self.handle.multisig_pda,
                                &self.handle.vault_pda,
                                ms.threshold,
                                self.project_id_text.as_str(),
                            );
                            self.phase = CreatePhase::Done;
                            Ok(StepAction::Respond(body))
                        },
                        Err(err) => {
                            self.phase = CreatePhase::Done;
                            Err(WorkflowError::Ledger(err))
                        },
                    },
                    None => {
                        self.phase = CreatePhase::Done;
                        Err(WorkflowError::Ledger(
                            BaseMultisigError::FailedToFetchMultisigConfigAccount,
                        ))
                    },
                }
            },
            (CreatePhase::Done, _) => Err(WorkflowError::UnexpectedEvent),
            _ => Err(WorkflowError::UnexpectedEvent),
        }
    }
}

} // verus!
