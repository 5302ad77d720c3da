use solana_sdk::pubkey::Pubkey;
use venture_launch_dao::addr::Addr;
use venture_launch_dao::broker::{Broker, BrokerInitArgs};
use venture_launch_dao::consumer::Consumer;
use venture_launch_dao::service::update_dao;
use venture_launch_dao::venture::VentureLaunch;

fn addr(p: &Pubkey) -> Addr {
    Addr::new(p.to_bytes())
}

#[test]
fn create_vault_plan_matches_system_and_token_builders() {
    let payer = Pubkey::new_unique();
    let program = Pubkey::new_unique();
    let mint = Pubkey::new_unique();
    let new_vault = Pubkey::new_unique();
    let new_data = Pubkey::new_unique();
    let mut vl = VentureLaunch::new(
        addr(&program),
        addr(&Pubkey::new_unique()),
        addr(&Pubkey::new_unique()),
        addr(&mint),
    );
    let plan = vl.create_vault_plan(&addr(&payer), addr(&new_vault), addr(&new_data), 5000, 3000);
    assert_eq!(plan.len(), 4);
    assert_eq!(vl.vault_account.bytes, new_vault.to_bytes());
    assert_eq!(vl.data_account.bytes, new_data.to_bytes());

    // The allocation instructions agree with the SDK's own builders.
    let expected0 =
        solana_sdk::system_instruction::create_account(&payer, &new_vault, 5000, 165, &spl_token::id());
    assert_eq!(plan[0].program_id, expected0.program_id);
    assert_eq!(plan[0].data, expected0.data);
    assert_eq!(plan[0].accounts[0].pubkey, payer);
    assert_eq!(plan[0].accounts[1].pubkey, new_vault);

    let expected1 =
        spl_token::instruction::initialize_account(&spl_token::id(), &new_vault, &mint, &payer)
            .unwrap();
    assert_eq!(plan[1].program_id, expected1.program_id);
    assert_eq!(plan[1].data, expected1.data);
    let expected_accounts: Vec<Pubkey> = expected1.accounts.iter().map(|m| m.pubkey).collect();
    let actual_accounts: Vec<Pubkey> = plan[1].accounts.iter().map(|m| m.pubkey).collect();
    assert_eq!(actual_accounts, expected_accounts);

    let expected2 =
        solana_sdk::system_instruction::create_account(&payer, &new_data, 3000, 73, &program);
    assert_eq!(plan[2].data, expected2.data);

    assert_eq!(plan[3].program_id, program);
    assert_eq!(plan[3].data, vec![0u8]);
}

#[test]
fn deposit_instruction_encodes_the_amount_little_endian() {
    let payer = Pubkey::new_unique();
    let program = Pubkey::new_unique();
    let ata = Pubkey::new_unique();
    let vl = VentureLaunch::new(
        addr(&program),
        addr(&Pubkey::new_unique()),
        addr(&Pubkey::new_unique()),
        addr(&Pubkey::new_unique()),
    );
    let ix = vl.deposit_instruction(&addr(&payer), &addr(&ata), 0x0102030405060708);
    let mut expected = vec![1u8];
    expected.extend_from_slice(&0x0102030405060708u64.to_le_bytes());
    assert_eq!(ix.data, expected);
    assert_eq!(ix.program_id, program);
    assert_eq!(ix.accounts[1].pubkey, ata);
}

#[test]
fn withdraw_instruction_names_the_program_authority() {
    let payer = Pubkey::new_unique();
    let program = Pubkey::new_unique();
    let receive = Pubkey::new_unique();
    let vl = VentureLaunch::new(
        addr(&program),
        addr(&Pubkey::new_unique()),
        addr(&Pubkey::new_unique()),
        addr(&Pubkey::new_unique()),
    );
    let ix = vl.withdraw_instruction(&addr(&payer), &addr(&receive), 9);
    let mut expected = vec![2u8];
    expected.extend_from_slice(&9u64.to_le_bytes());
    assert_eq!(ix.data, expected);
    let (pda, _) = Pubkey::find_program_address(&[b"cryptotracker"], &program);
    assert_eq!(ix.accounts[5].pubkey, pda);
    assert_eq!(ix.accounts[5].is_writable, true);
}

#[test]
fn broker_defaults_to_the_dao_exchange() {
    let b = Broker::new(BrokerInitArgs {
        host: "localhost".to_string(),
        port: 5672,
        username: "guest".to_string(),
        password: "guest".to_string(),
    });
    assert_eq!(b.exchange, "dao_exchange");
    assert_eq!(b.port, 5672);
    assert_eq!(b.request_queue(), "request_queue");
    assert_eq!(b.request_routing_key(), "broker.request");
}

#[test]
fn consumer_keeps_its_settings() {
    let c = Consumer::create("amqp://localhost:5672", Some(3), "hello");
    assert_eq!(c.url, "amqp://localhost:5672");
    assert_eq!(c.channel_id, Some(3));
    assert_eq!(c.queue_name, "hello");
}

#[test]
fn update_dao_is_a_quiet_hook() {
    update_dao();
}

#[test]
fn memo_texts_are_exact() {
    let pk = Pubkey::new_unique();
    let ms = Pubkey::new_unique();
    let memo = venture_launch_dao::text::memo_change_threshold(7, &addr(&ms));
    assert_eq!(memo, format!("Changing threshold to {} on multisig {}", 7, ms));
    let memo = venture_launch_dao::text::memo_add_member(&addr(&pk), &addr(&ms));
    assert_eq!(memo, format!("Add {} as member to multisig {}", pk, ms));
    let memo = venture_launch_dao::text::memo_transfer(18446744073709551615, &addr(&ms), &addr(&pk));
    assert_eq!(
        memo,
        format!("Sending {} lamports from {} to {}", u64::MAX, ms, pk)
    );
}

#[test]
fn wrapped_native_deposit_matches_sdk_builders() {
    let payer = Pubkey::new_unique();
    let plan =
        venture_launch_dao::venture::deposit_to_wrapped_sol_ata_plan(&addr(&payer), 42);
    assert_eq!(plan.len(), 2);

    let ata_program: Pubkey = "ATokenGPvbdGVxr1b2hvZbsiqW5xWH25efTNsLJA8knL".parse().unwrap();
    let native_mint: Pubkey = "So11111111111111111111111111111111111111112".parse().unwrap();
    let (ata, _) = Pubkey::find_program_address(
        &[payer.as_ref(), spl_token::id().as_ref(), native_mint.as_ref()],
        &ata_program,
    );

    let expected_transfer = solana_sdk::system_instruction::transfer(&payer, &ata, 42);
    assert_eq!(plan[0].program_id, expected_transfer.program_id);
    assert_eq!(plan[0].data, expected_transfer.data);
    assert_eq!(plan[0].accounts[0].pubkey, payer);
    assert_eq!(plan[0].accounts[0].is_signer, true);
    assert_eq!(plan[0].accounts[1].pubkey, ata);

    let expected_sync = spl_token::instruction::sync_native(&spl_token::id(), &ata).unwrap();
    assert_eq!(plan[1].program_id, expected_sync.program_id);
    assert_eq!(plan[1].data, expected_sync.data);
    assert_eq!(plan[1].accounts[0].pubkey, ata);
}

#[test]
fn native_ata_creation_has_an_empty_payload() {
    let payer = Pubkey::new_unique();
    let ix = venture_launch_dao::venture::create_native_sol_ata_instruction(&addr(&payer));
    let ata_program: Pubkey = "ATokenGPvbdGVxr1b2hvZbsiqW5xWH25efTNsLJA8knL".parse().unwrap();
    assert_eq!(ix.program_id, ata_program);
    assert!(ix.data.is_empty());
    assert_eq!(ix.accounts.len(), 6);
    assert_eq!(ix.accounts[0].pubkey, payer);
    assert_eq!(ix.accounts[2].pubkey, payer);
}
