use solana_sdk::pubkey::Pubkey;
use squads_multisig_program::anchor_lang::AccountSerialize;
use squads_multisig_program::{SEED_MULTISIG, SEED_PREFIX, SEED_VAULT};
use venture_launch_dao::addr::Addr;
use venture_launch_dao::error::BaseMultisigError;
use venture_launch_dao::resolver::MultisigHandle;
use venture_launch_dao::state::{Member, MultisigState, PERM_VOTE};

fn program_config_bytes(treasury: Pubkey) -> Vec<u8> {
    let config = squads_multisig_program::state::ProgramConfig {
        authority: Pubkey::new_unique(),
        multisig_creation_fee: 0,
        treasury,
        _reserved: [0u8; 64],
    };
    let mut v = Vec::new();
    config.try_serialize(&mut v).unwrap();
    v
}

#[test]
fn handle_derivation_is_stable() {
    let creator = Addr::new(Pubkey::new_unique().to_bytes());
    let create_key = Addr::new(Pubkey::new_unique().to_bytes());
    let treasury = Pubkey::new_unique();
    let pc = program_config_bytes(treasury);

    let h1 = MultisigHandle::new(creator, create_key, Some(&pc)).unwrap();
    let h2 = MultisigHandle::new(creator, create_key, Some(&pc)).unwrap();
    assert_eq!(h1.multisig_pda.bytes, h2.multisig_pda.bytes);
    assert_eq!(h1.vault_pda.bytes, h2.vault_pda.bytes);

    // The derived addresses agree with the governance program's seed
    // schemes, computed here independently.
    let ck = Pubkey::new_from_array(create_key.bytes);
    let (expected_ms, _) = Pubkey::find_program_address(
        &[SEED_PREFIX, SEED_MULTISIG, ck.as_ref()],
        &squads_multisig_program::ID,
    );
    assert_eq!(h1.multisig_pda.bytes, expected_ms.to_bytes());
    let (expected_vault, _) = Pubkey::find_program_address(
        &[SEED_PREFIX, expected_ms.as_ref(), SEED_VAULT, &0u8.to_le_bytes()],
        &squads_multisig_program::ID,
    );
    assert_eq!(h1.vault_pda.bytes, expected_vault.to_bytes());
    assert_eq!(h1.treasury.bytes, treasury.to_bytes());
}

#[test]
fn handle_reports_missing_program_config() {
    let creator = Addr::new(Pubkey::new_unique().to_bytes());
    let create_key = Addr::new(Pubkey::new_unique().to_bytes());
    assert!(matches!(
        MultisigHandle::new(creator, create_key, None),
        Err(BaseMultisigError::FailedToFetchProgramConfigAccount)
    ));
}

#[test]
fn handle_reports_undecodable_program_config() {
    let creator = Addr::new(Pubkey::new_unique().to_bytes());
    let create_key = Addr::new(Pubkey::new_unique().to_bytes());
    let garbage = vec![1u8, 2, 3];
    assert!(matches!(
        MultisigHandle::new(creator, create_key, Some(&garbage)),
        Err(BaseMultisigError::FailedToDeserializeProgramConfigData)
    ));
}

#[test]
fn associated_token_address_matches_seed_scheme() {
    let owner = Addr::new(Pubkey::new_unique().to_bytes());
    let mint = Addr::new(Pubkey::new_unique().to_bytes());
    let ata = venture_launch_dao::resolver::get_associated_token_address(&mint, &owner);

    let ata_program: Pubkey = "ATokenGPvbdGVxr1b2hvZbsiqW5xWH25efTNsLJA8knL".parse().unwrap();
    let owner_key = Pubkey::new_from_array(owner.bytes);
    let mint_key = Pubkey::new_from_array(mint.bytes);
    let (expected, _) = Pubkey::find_program_address(
        &[owner_key.as_ref(), spl_token::id().as_ref(), mint_key.as_ref()],
        &ata_program,
    );
    assert_eq!(ata.bytes, expected.to_bytes());
}

#[test]
fn addr_equality_is_bytewise() {
    let a = Addr::new([7u8; 32]);
    let b = Addr::new([7u8; 32]);
    let mut c_bytes = [7u8; 32];
    c_bytes[31] = 8;
    let c = Addr::new(c_bytes);
    assert!(a.eq_addr(&b));
    assert!(!a.eq_addr(&c));
}

#[test]
fn member_lookup_and_voter_count() {
    let k1 = Addr::new([1u8; 32]);
    let k2 = Addr::new([2u8; 32]);
    let k3 = Addr::new([3u8; 32]);
    let ms = MultisigState {
        members: vec![
            Member { key: k1, mask: 7 },
            Member { key: k2, mask: PERM_VOTE },
            Member { key: k3, mask: 1 },
        ],
        threshold: 2,
        transaction_index: 9,
    };
    assert!(ms.is_member(&k2));
    assert!(!ms.is_member(&Addr::new([9u8; 32])));
    assert_eq!(ms.count_voters(), 2);
    assert_eq!(ms.get_threshold(), 2);
    assert_eq!(ms.get_transaction_index(), 9);
}

#[test]
fn creation_member_list_has_exactly_the_creator() {
    let creator = Addr::new([5u8; 32]);
    let none: Vec<Member> = Vec::new();
    let members = venture_launch_dao::state::create_group_members(&none, &creator);
    assert_eq!(members.len(), 1);
    assert_eq!(members[0].key.bytes, creator.bytes);
    assert_eq!(members[0].mask, 7);
}

#[test]
fn error_messages_match() {
    assert_eq!(
        BaseMultisigError::ProposalStatusIsNotApproved.message(),
        "Proposal status is not Approved"
    );
    assert_eq!(
        BaseMultisigError::FailedToFetchProgramConfigAccount.message(),
        "Failed to fetch program config account"
    );
}
