use solana_sdk::pubkey::Pubkey;
use squads_multisig_program::anchor_lang::{AccountSerialize, AnchorDeserialize, InstructionData};
use squads_multisig_program::{
    ConfigAction as SqConfigAction, ConfigTransactionCreateArgs, Member as SqMember,
    MultisigCreateArgsV2, Permissions as SqPermissions, ProposalCreateArgs, ProposalVoteArgs,
    VaultTransactionCreateArgs, SEED_MULTISIG, SEED_PREFIX, SEED_PROGRAM_CONFIG, SEED_PROPOSAL,
    SEED_TRANSACTION,
};
use venture_launch_dao::addr::Addr;
use venture_launch_dao::dispatch::{
    begin_add_member, begin_change_threshold, begin_create_dao, begin_execute_proposal,
    begin_vote, begin_withdraw,
};
use venture_launch_dao::error::{BaseMultisigError, WorkflowError};
use venture_launch_dao::message::encode_transfer_message;
use venture_launch_dao::schemas::{
    AddMemberDaoSchema, ChangeThresholdDaoSchema, CreateDaoSchema, ProposalExecuteDaoSchema,
    VoteDaoSchema, WithdrawDaoSchema,
};
use venture_launch_dao::workflows::{SignerSpec, StepAction, StepEvent};

fn program_config_bytes(treasury: Pubkey) -> Vec<u8> {
    let config = squads_multisig_program::state::ProgramConfig {
        authority: Pubkey::new_unique(),
        multisig_creation_fee: 0,
        treasury,
        _reserved: [0u8; 64],
    };
    let mut v = Vec::new();
    config.try_serialize(&mut v).unwrap();
    v
}

fn multisig_bytes(create_key: Pubkey, threshold: u16, transaction_index: u64) -> Vec<u8> {
    let ms = squads_multisig_program::Multisig {
        create_key,
        config_authority: Pubkey::default(),
        threshold,
        time_lock: 0,
        transaction_index,
        stale_transaction_index: 0,
        rent_collector: None,
        bump: 0,
        members: vec![SqMember {
            key: Pubkey::new_unique(),
            permissions: SqPermissions { mask: 7 },
        }],
    };
    let mut v = Vec::new();
    ms.try_serialize(&mut v).unwrap();
    v
}

#[allow(deprecated)]
fn proposal_bytes(multisig: Pubkey, status: squads_multisig_program::ProposalStatus) -> Vec<u8> {
    let p = squads_multisig_program::Proposal {
        multisig,
        transaction_index: 5,
        status,
        bump: 0,
        approved: vec![],
        rejected: vec![],
        cancelled: vec![],
    };
    let mut v = Vec::new();
    p.try_serialize(&mut v).unwrap();
    v
}

fn tx_pda(multisig: &Pubkey, index: u64) -> Pubkey {
    Pubkey::find_program_address(
        &[SEED_PREFIX, multisig.as_ref(), SEED_TRANSACTION, &index.to_le_bytes()],
        &squads_multisig_program::ID,
    )
    .0
}

fn proposal_pda(multisig: &Pubkey, index: u64) -> Pubkey {
    Pubkey::find_program_address(
        &[SEED_PREFIX, multisig.as_ref(), SEED_TRANSACTION, &index.to_le_bytes(), SEED_PROPOSAL],
        &squads_multisig_program::ID,
    )
    .0
}

fn ata_of(owner: &Pubkey, mint: &Pubkey) -> Pubkey {
    let ata_program: Pubkey = "ATokenGPvbdGVxr1b2hvZbsiqW5xWH25efTNsLJA8knL".parse().unwrap();
    Pubkey::find_program_address(
        &[owner.as_ref(), spl_token::id().as_ref(), mint.as_ref()],
        &ata_program,
    )
    .0
}

fn token_mint() -> Pubkey {
    "Gh9ZwEmdLJ8DscKNTkTqPbNwLNNBjuSzaG9Vp2KGtKJr".parse().unwrap()
}

#[test]
fn add_member_runs_the_full_sequence() {
    let creator_pk = Pubkey::new_unique();
    let member_pk = Pubkey::new_unique();
    let ms_pk = Pubkey::new_unique();
    let ms_text = ms_pk.to_string();
    let pc = program_config_bytes(Pubkey::new_unique());

    let schema = AddMemberDaoSchema {
        multisig_pda: ms_text.clone(),
        pubkey: member_pk.to_string(),
        permissions: vec!["Vote".to_string()],
    };
    let mut w = begin_add_member(&schema, Addr::new(creator_pk.to_bytes()), Some(&pc)).unwrap();
    assert_eq!(w.handle.multisig_pda.bytes, ms_pk.to_bytes());

    match w.step(StepEvent::Start) {
        Ok(StepAction::FetchMultisig(a)) => assert_eq!(a.bytes, ms_pk.to_bytes()),
        _ => panic!("expected a fetch request"),
    }

    let ms_bytes = multisig_bytes(Pubkey::new_unique(), 1, 5);
    let plan = match w.step(StepEvent::MultisigAccount(Some(ms_bytes))) {
        Ok(StepAction::Submit(p)) => p,
        _ => panic!("expected a submission"),
    };
    assert_eq!(plan.instructions.len(), 1);
    assert!(matches!(plan.signers, SignerSpec::Creator));
    let ix = &plan.instructions[0];
    assert_eq!(ix.program_id, squads_multisig_program::ID);
    assert_eq!(ix.accounts[0].pubkey, ms_pk);
    assert_eq!(ix.accounts[1].pubkey, tx_pda(&ms_pk, 6));
    assert_eq!(ix.accounts[2].pubkey, creator_pk);
    let expected_args = squads_multisig_program::instruction::ConfigTransactionCreate {
        args: ConfigTransactionCreateArgs {
            actions: vec![SqConfigAction::AddMember {
                new_member: SqMember {
                    key: member_pk,
                    permissions: SqPermissions { mask: 2 },
                },
            }],
            memo: Some(format!("Add {} as member to multisig {}", member_pk, ms_pk)),
        },
    };
    assert_eq!(ix.data, expected_args.data());

    match w.step(StepEvent::Confirmed) {
        Ok(StepAction::FetchMultisig(a)) => assert_eq!(a.bytes, ms_pk.to_bytes()),
        _ => panic!("expected a re-fetch"),
    }

    let ms_bytes = multisig_bytes(Pubkey::new_unique(), 1, 6);
    let plan = match w.step(StepEvent::MultisigAccount(Some(ms_bytes))) {
        Ok(StepAction::Submit(p)) => p,
        _ => panic!("expected the approval submission"),
    };
    assert_eq!(plan.instructions.len(), 3);
    let expected_pc = squads_multisig_program::instruction::ProposalCreate {
        args: ProposalCreateArgs { transaction_index: 6, draft: false },
    };
    assert_eq!(plan.instructions[0].data, expected_pc.data());
    assert_eq!(plan.instructions[0].accounts[1].pubkey, proposal_pda(&ms_pk, 6));
    let expected_approve = squads_multisig_program::instruction::ProposalApprove {
        args: ProposalVoteArgs { memo: None },
    };
    assert_eq!(plan.instructions[1].data, expected_approve.data());
    let expected_exec = squads_multisig_program::instruction::ConfigTransactionExecute {};
    assert_eq!(plan.instructions[2].data, expected_exec.data());
    assert_eq!(plan.instructions[2].accounts[3].pubkey, tx_pda(&ms_pk, 6));

    match w.step(StepEvent::Confirmed) {
        Ok(StepAction::Respond(s)) => assert_eq!(
            s,
            format!("\"multisig_pda\": \"{}\",\n    \"member\":  \"{}\"", ms_text, member_pk)
        ),
        _ => panic!("expected the response"),
    }
}

#[test]
fn change_threshold_responds_with_the_new_value() {
    let creator_pk = Pubkey::new_unique();
    let ms_pk = Pubkey::new_unique();
    let ms_text = ms_pk.to_string();
    let pc = program_config_bytes(Pubkey::new_unique());
    let schema = ChangeThresholdDaoSchema { multisig_pda: ms_text.clone(), new_threshold: 2 };
    let mut w =
        begin_change_threshold(&schema, Addr::new(creator_pk.to_bytes()), Some(&pc)).unwrap();

    assert!(matches!(w.step(StepEvent::Start), Ok(StepAction::FetchMultisig(_))));
    let plan = match w.step(StepEvent::MultisigAccount(Some(multisig_bytes(
        Pubkey::new_unique(),
        1,
        3,
    )))) {
        Ok(StepAction::Submit(p)) => p,
        _ => panic!("expected a submission"),
    };
    let expected_args = squads_multisig_program::instruction::ConfigTransactionCreate {
        args: ConfigTransactionCreateArgs {
            actions: vec![SqConfigAction::ChangeThreshold { new_threshold: 2 }],
            memo: Some(format!("Changing threshold to {} on multisig {}", 2, ms_pk)),
        },
    };
    assert_eq!(plan.instructions[0].data, expected_args.data());

    assert!(matches!(w.step(StepEvent::Confirmed), Ok(StepAction::FetchMultisig(_))));
    assert!(matches!(
        w.step(StepEvent::MultisigAccount(Some(multisig_bytes(Pubkey::new_unique(), 1, 4)))),
        Ok(StepAction::Submit(_))
    ));
    match w.step(StepEvent::Confirmed) {
        Ok(StepAction::Respond(s)) => assert_eq!(
            s,
            format!("\"multisig_pda\": \"{}\",\n        \"new_threshold\":  \"{}\"", ms_text, 2)
        ),
        _ => panic!("expected the response"),
    }
}

#[test]
fn workflow_aborts_on_missing_account() {
    let creator_pk = Pubkey::new_unique();
    let ms_pk = Pubkey::new_unique();
    let pc = program_config_bytes(Pubkey::new_unique());
    let schema = ChangeThresholdDaoSchema { multisig_pda: ms_pk.to_string(), new_threshold: 2 };
    let mut w =
        begin_change_threshold(&schema, Addr::new(creator_pk.to_bytes()), Some(&pc)).unwrap();
    let _ = w.step(StepEvent::Start).unwrap();
    assert!(matches!(
        w.step(StepEvent::MultisigAccount(None)),
        Err(WorkflowError::Ledger(BaseMultisigError::FailedToFetchMultisigConfigAccount))
    ));
    // The workflow is over: any further event is out of place.
    assert!(matches!(w.step(StepEvent::Confirmed), Err(WorkflowError::UnexpectedEvent)));
}

#[test]
fn vote_cancel_requires_approved_status() {
    let creator_pk = Pubkey::new_unique();
    let voter_pk = Pubkey::new_unique();
    let ms_pk = Pubkey::new_unique();
    let pc = program_config_bytes(Pubkey::new_unique());
    let schema = VoteDaoSchema {
        multisig_pda: ms_pk.to_string(),
        voter: voter_pk.to_string(),
        vote: "Cancel".to_string(),
    };
    let mut w = begin_vote(&schema, Addr::new(creator_pk.to_bytes()), Some(&pc)).unwrap();

    let _ = w.step(StepEvent::Start).unwrap();
    match w.step(StepEvent::MultisigAccount(Some(multisig_bytes(Pubkey::new_unique(), 1, 5)))) {
        Ok(StepAction::FetchProposal(a)) => assert_eq!(a.bytes, proposal_pda(&ms_pk, 5).to_bytes()),
        _ => panic!("expected a proposal fetch"),
    }
    let active = proposal_bytes(
        ms_pk,
        squads_multisig_program::ProposalStatus::Active { timestamp: 11 },
    );
    assert!(matches!(
        w.step(StepEvent::ProposalAccount(Some(active))),
        Err(WorkflowError::Ledger(BaseMultisigError::ProposalStatusIsNotApproved))
    ));
    // No transaction was submitted and the workflow is over.
    assert!(matches!(w.step(StepEvent::Confirmed), Err(WorkflowError::UnexpectedEvent)));
}

#[test]
fn vote_cancel_submits_on_approved_status() {
    let creator_pk = Pubkey::new_unique();
    let voter_pk = Pubkey::new_unique();
    let ms_pk = Pubkey::new_unique();
    let ms_text = ms_pk.to_string();
    let pc = program_config_bytes(Pubkey::new_unique());
    let schema = VoteDaoSchema {
        multisig_pda: ms_text.clone(),
        voter: voter_pk.to_string(),
        vote: "Cancel".to_string(),
    };
    let mut w = begin_vote(&schema, Addr::new(creator_pk.to_bytes()), Some(&pc)).unwrap();
    let _ = w.step(StepEvent::Start).unwrap();
    let _ = w.step(StepEvent::MultisigAccount(Some(multisig_bytes(Pubkey::new_unique(), 1, 5))));
    let approved = proposal_bytes(
        ms_pk,
        squads_multisig_program::ProposalStatus::Approved { timestamp: 11 },
    );
    let plan = match w.step(StepEvent::ProposalAccount(Some(approved))) {
        Ok(StepAction::Submit(p)) => p,
        _ => panic!("expected the cancel submission"),
    };
    assert_eq!(plan.instructions.len(), 1);
    let expected = squads_multisig_program::instruction::ProposalCancel {
        args: ProposalVoteArgs { memo: None },
    };
    assert_eq!(plan.instructions[0].data, expected.data());
    match w.step(StepEvent::Confirmed) {
        Ok(StepAction::Respond(s)) => assert_eq!(
            s,
            format!(
                "\"multisig_pda\": \"{}\",\n        \"voter\":  \"{}\",\n            \"vote\":  \"{}\"",
                ms_text, voter_pk, "Cancel"
            )
        ),
        _ => panic!("expected the response"),
    }
}

#[test]
fn vote_approve_submits_directly() {
    let creator_pk = Pubkey::new_unique();
    let ms_pk = Pubkey::new_unique();
    let pc = program_config_bytes(Pubkey::new_unique());
    let schema = VoteDaoSchema {
        multisig_pda: ms_pk.to_string(),
        voter: Pubkey::new_unique().to_string(),
        vote: "Approve".to_string(),
    };
    let mut w = begin_vote(&schema, Addr::new(creator_pk.to_bytes()), Some(&pc)).unwrap();
    let _ = w.step(StepEvent::Start).unwrap();
    let plan = match w.step(StepEvent::MultisigAccount(Some(multisig_bytes(
        Pubkey::new_unique(),
        1,
        5,
    )))) {
        Ok(StepAction::Submit(p)) => p,
        _ => panic!("expected the approve submission"),
    };
    let expected = squads_multisig_program::instruction::ProposalApprove {
        args: ProposalVoteArgs { memo: None },
    };
    assert_eq!(plan.instructions[0].data, expected.data());
    assert_eq!(plan.instructions[0].accounts[2].pubkey, proposal_pda(&ms_pk, 5));
}

#[test]
fn withdraw_queued_defers_execution() {
    let creator_pk = Pubkey::new_unique();
    let receiver_pk = Pubkey::new_unique();
    let ms_pk = Pubkey::new_unique();
    let ms_text = ms_pk.to_string();
    let pc = program_config_bytes(Pubkey::new_unique());
    let schema = WithdrawDaoSchema {
        multisig_pda: ms_text.clone(),
        proposal_id: "1".to_string(),
        is_execute: false,
        receiver: receiver_pk.to_string(),
        amount: 2,
    };
    let mut w = begin_withdraw(&schema, Addr::new(creator_pk.to_bytes()), Some(&pc)).unwrap();
    let vault_pk = Pubkey::new_from_array(w.handle.vault_pda.bytes);

    let _ = w.step(StepEvent::Start).unwrap();
    let plan = match w.step(StepEvent::MultisigAccount(Some(multisig_bytes(
        Pubkey::new_unique(),
        1,
        5,
    )))) {
        Ok(StepAction::Submit(p)) => p,
        _ => panic!("expected the vault-transaction submission"),
    };
    assert_eq!(plan.instructions.len(), 1);
    let mint = token_mint();
    let expected_message = {
        let mut m = vec![1u8, 1, 2, 4];
        m.extend_from_slice(vault_pk.as_ref());
        m.extend_from_slice(ata_of(&vault_pk, &mint).as_ref());
        m.extend_from_slice(ata_of(&receiver_pk, &mint).as_ref());
        m.extend_from_slice(spl_token::id().as_ref());
        m.extend_from_slice(&[1, 3, 4, 1, 2, 0, 0, 9, 0, 3]);
        m.extend_from_slice(&2000000u64.to_le_bytes());
        m.push(0);
        m
    };
    let expected_args = squads_multisig_program::instruction::VaultTransactionCreate {
        args: VaultTransactionCreateArgs {
            vault_index: 0,
            ephemeral_signers: 0,
            transaction_message: expected_message,
            memo: Some(format!(
                "Sending {} lamports from {} to {}",
                2000000u64, vault_pk, receiver_pk
            )),
        },
    };
    assert_eq!(plan.instructions[0].data, expected_args.data());
    assert_eq!(plan.instructions[0].accounts[1].pubkey, tx_pda(&ms_pk, 6));

    assert!(matches!(w.step(StepEvent::Confirmed), Ok(StepAction::FetchMultisig(_))));
    let plan = match w.step(StepEvent::MultisigAccount(Some(multisig_bytes(
        Pubkey::new_unique(),
        1,
        6,
    )))) {
        Ok(StepAction::Submit(p)) => p,
        _ => panic!("expected the approval submission"),
    };
    // Proposal-create and approve only: execution is deferred.
    assert_eq!(plan.instructions.len(), 2);

    match w.step(StepEvent::Confirmed) {
        Ok(StepAction::Respond(s)) => {
            assert_eq!(
                s,
                format!(
                    "\"multisig_pda\": \"{}\",\n        \"proposal_id\": \"{}\",\n        \"is_execute\":  \"{}\",\n            \"receiver\":  \"{}\",\n            \"amount\":  \"{}\"",
                    ms_text, "1", false, receiver_pk, 2000000u64
                )
            );
            assert!(s.contains("2000000"));
            assert!(s.contains(&receiver_pk.to_string()));
        },
        _ => panic!("expected the response"),
    }
}

#[test]
fn transfer_message_decodes_in_the_ledger_format() {
    let vault = Addr::new(Pubkey::new_unique().to_bytes());
    let source = Addr::new(Pubkey::new_unique().to_bytes());
    let dest = Addr::new(Pubkey::new_unique().to_bytes());
    let bytes = encode_transfer_message(&vault, &source, &dest, 77);
    let tm = squads_multisig_program::TransactionMessage::deserialize(&mut &bytes[..]).unwrap();
    assert_eq!(tm.num_signers, 1);
    assert_eq!(tm.num_writable_signers, 1);
    assert_eq!(tm.num_writable_non_signers, 2);
    let keys: Vec<Pubkey> = tm.account_keys.into();
    assert_eq!(keys.len(), 4);
    assert_eq!(keys[0].to_bytes(), vault.bytes);
    assert_eq!(keys[1].to_bytes(), source.bytes);
    assert_eq!(keys[2].to_bytes(), dest.bytes);
    assert_eq!(keys[3], spl_token::id());
    let instructions: Vec<_> = tm.instructions.into();
    assert_eq!(instructions.len(), 1);
    assert_eq!(instructions[0].program_id_index, 3);
    let indexes: Vec<u8> = instructions[0].account_indexes.clone().into();
    assert_eq!(indexes, vec![1, 2, 0, 0]);
    let data: Vec<u8> = instructions[0].data.clone().into();
    let mut expected = vec![3u8];
    expected.extend_from_slice(&77u64.to_le_bytes());
    assert_eq!(data, expected);
}

#[test]
fn create_dao_creates_a_single_member_group() {
    let creator_pk = Pubkey::new_unique();
    let create_key_pk = Pubkey::new_unique();
    let treasury_pk = Pubkey::new_unique();
    let pc = program_config_bytes(treasury_pk);
    let schema = CreateDaoSchema { project_id: "p1".to_string() };
    let mut w = begin_create_dao(
        &schema,
        Addr::new(creator_pk.to_bytes()),
        Addr::new(create_key_pk.to_bytes()),
        Some(&pc),
    )
    .unwrap();
    let ms_pk = Pubkey::new_from_array(w.handle.multisig_pda.bytes);
    let vault_pk = Pubkey::new_from_array(w.handle.vault_pda.bytes);

    let plan = match w.step(StepEvent::Start) {
        Ok(StepAction::Submit(p)) => p,
        _ => panic!("expected the token-account submission"),
    };
    let ata_program: Pubkey = "ATokenGPvbdGVxr1b2hvZbsiqW5xWH25efTNsLJA8knL".parse().unwrap();
    assert_eq!(plan.instructions[0].program_id, ata_program);
    assert_eq!(plan.instructions[0].data, vec![0u8]);
    assert_eq!(plan.instructions[0].accounts[0].pubkey, creator_pk);
    assert_eq!(
        plan.instructions[0].accounts[1].pubkey,
        ata_of(&vault_pk, &token_mint())
    );

    let plan = match w.step(StepEvent::Confirmed) {
        Ok(StepAction::Submit(p)) => p,
        _ => panic!("expected the group-creation submission"),
    };
    assert!(matches!(plan.signers, SignerSpec::CreatorAndCreateKey));
    let ix = &plan.instructions[0];
    let expected_args = squads_multisig_program::instruction::MultisigCreateV2 {
        args: MultisigCreateArgsV2 {
            config_authority: None,
            threshold: 1,
            members: vec![SqMember {
                key: creator_pk,
                permissions: SqPermissions { mask: 7 },
            }],
            time_lock: 0,
            rent_collector: None,
            memo: Some("Deploy my own Squad".to_string()),
        },
    };
    assert_eq!(ix.data, expected_args.data());
    let pc_pda = Pubkey::find_program_address(
        &[SEED_PREFIX, SEED_PROGRAM_CONFIG],
        &squads_multisig_program::ID,
    )
    .0;
    assert_eq!(ix.accounts[0].pubkey, pc_pda);
    assert_eq!(ix.accounts[1].pubkey, treasury_pk);
    assert_eq!(ix.accounts[2].pubkey, ms_pk);
    assert_eq!(ix.accounts[3].pubkey, create_key_pk);
    assert_eq!(ix.accounts[4].pubkey, creator_pk);

    assert!(matches!(w.step(StepEvent::Confirmed), Ok(StepAction::FetchMultisig(_))));
    match w.step(StepEvent::MultisigAccount(Some(multisig_bytes(create_key_pk, 1, 0)))) {
        Ok(StepAction::Respond(s)) => assert_eq!(
            s,
            format!(
                "\"multisig_pda\": \"{}\",\n        \"vault_pda\":  \"{}\",\n        \"threshold\":  \"{}\",\n        \"project_id\":  \"{}\"",
                ms_pk, vault_pk, 1, "p1"
            )
        ),
        _ => panic!("expected the response"),
    }
}

#[test]
fn execute_proposal_submits_the_execution() {
    let creator_pk = Pubkey::new_unique();
    let ms_pk = Pubkey::new_unique();
    let ms_text = ms_pk.to_string();
    let pc = program_config_bytes(Pubkey::new_unique());
    let schema = ProposalExecuteDaoSchema { multisig_pda: ms_text.clone() };
    let mut w =
        begin_execute_proposal(&schema, Addr::new(creator_pk.to_bytes()), Some(&pc)).unwrap();
    let _ = w.step(StepEvent::Start).unwrap();
    let plan = match w.step(StepEvent::MultisigAccount(Some(multisig_bytes(
        Pubkey::new_unique(),
        1,
        5,
    )))) {
        Ok(StepAction::Submit(p)) => p,
        _ => panic!("expected the execute submission"),
    };
    let expected = squads_multisig_program::instruction::ConfigTransactionExecute {};
    assert_eq!(plan.instructions[0].data, expected.data());
    assert_eq!(plan.instructions[0].accounts[2].pubkey, proposal_pda(&ms_pk, 5));
    assert_eq!(plan.instructions[0].accounts[3].pubkey, tx_pda(&ms_pk, 5));
    match w.step(StepEvent::Confirmed) {
        Ok(StepAction::Respond(s)) => assert_eq!(
            s,
            format!("\"multisig_pda\": \"{}\",\n        \"propose\":  \"success\"", ms_text)
        ),
        _ => panic!("expected the response"),
    }
}

#[test]
fn withdraw_execute_passes_the_message_accounts() {
    let creator_pk = Pubkey::new_unique();
    let receiver_pk = Pubkey::new_unique();
    let ms_pk = Pubkey::new_unique();
    let pc = program_config_bytes(Pubkey::new_unique());
    let schema = WithdrawDaoSchema {
        multisig_pda: ms_pk.to_string(),
        proposal_id: "1".to_string(),
        is_execute: true,
        receiver: receiver_pk.to_string(),
        amount: 3,
    };
    let mut w = begin_withdraw(&schema, Addr::new(creator_pk.to_bytes()), Some(&pc)).unwrap();
    let vault_pk = Pubkey::new_from_array(w.handle.vault_pda.bytes);
    let _ = w.step(StepEvent::Start).unwrap();
    let plan = match w.step(StepEvent::MultisigAccount(Some(multisig_bytes(
        Pubkey::new_unique(),
        1,
        5,
    )))) {
        Ok(StepAction::Submit(p)) => p,
        _ => panic!("expected the execute submission"),
    };
    let ix = &plan.instructions[0];
    let mint = token_mint();
    // Fixed accounts, then the message accounts in message order.
    assert_eq!(ix.accounts.len(), 8);
    assert_eq!(ix.accounts[4].pubkey, vault_pk);
    assert_eq!(ix.accounts[5].pubkey, ata_of(&vault_pk, &mint));
    assert_eq!(ix.accounts[6].pubkey, ata_of(&receiver_pk, &mint));
    assert_eq!(ix.accounts[7].pubkey, spl_token::id());
    match w.step(StepEvent::Confirmed) {
        Ok(StepAction::Respond(s)) => assert!(s.contains("3000000")),
        _ => panic!("expected the response"),
    }
}
