use venture_launch_dao::dispatch::{
    dispatch, validate_add_member, validate_change_threshold, validate_withdraw, vote_choice,
    vote_error_message, Command,
};
use venture_launch_dao::error::DispatchError;
use venture_launch_dao::responses::envelope;
use venture_launch_dao::workflows::VoteChoice;

#[test]
fn unknown_command_returns_name() {
    let r = dispatch("frobnicate", "{}");
    match r {
        Err(DispatchError::UnknownCommand(n)) => assert_eq!(n, "frobnicate"),
        _ => panic!("expected an unknown-command error"),
    }
}

#[test]
fn dispatch_routes_withdraw() {
    let body = "{\"multisig_pda\": \"G\", \"proposal_id\": \"1\", \"is_execute\": false, \"receiver\": \"R\", \"amount\": 2}";
    match dispatch("withdraw", body) {
        Ok(Command::Withdraw(s)) => {
            assert_eq!(s.multisig_pda, "G");
            assert_eq!(s.proposal_id, "1");
            assert!(!s.is_execute);
            assert_eq!(s.receiver, "R");
            assert_eq!(s.amount, 2);
        },
        _ => panic!("expected a withdraw command"),
    }
}

#[test]
fn dispatch_routes_create_dao() {
    match dispatch("create_dao", "{\"project_id\": \"p7\"}") {
        Ok(Command::CreateDao(s)) => assert_eq!(s.project_id, "p7"),
        _ => panic!("expected a create-dao command"),
    }
}

#[test]
fn dispatch_schema_error_on_bad_json() {
    assert!(matches!(dispatch("vote", "not json"), Err(DispatchError::SchemaError)));
}

#[test]
fn dispatch_schema_error_on_missing_field() {
    assert!(matches!(
        dispatch("add_member", "{\"multisig_pda\": \"G\", \"pubkey\": \"K\"}"),
        Err(DispatchError::SchemaError)
    ));
}

#[test]
fn validate_add_member_accepts_full_payload() {
    let v: serde_json::Value = serde_json::from_str(
        "{\"multisig_pda\": \"G\", \"pubkey\": \"K\", \"permissions\": [\"Vote\"]}",
    )
    .unwrap();
    let s = validate_add_member(&v).unwrap();
    assert_eq!(s.multisig_pda, "G");
    assert_eq!(s.pubkey, "K");
    assert_eq!(s.permissions, vec!["Vote".to_string()]);
}

#[test]
fn validate_add_member_rejects_nonstring_permissions() {
    let v: serde_json::Value = serde_json::from_str(
        "{\"multisig_pda\": \"G\", \"pubkey\": \"K\", \"permissions\": [1, 2]}",
    )
    .unwrap();
    assert!(matches!(validate_add_member(&v), Err(DispatchError::SchemaError)));
}

#[test]
fn validate_change_threshold_rejects_oversized_value() {
    let v: serde_json::Value =
        serde_json::from_str("{\"multisig_pda\": \"G\", \"new_threshold\": 70000}").unwrap();
    assert!(matches!(validate_change_threshold(&v), Err(DispatchError::SchemaError)));
    let v: serde_json::Value =
        serde_json::from_str("{\"multisig_pda\": \"G\", \"new_threshold\": 3}").unwrap();
    assert_eq!(validate_change_threshold(&v).unwrap().new_threshold, 3);
}

#[test]
fn validate_withdraw_requires_every_field() {
    let v: serde_json::Value = serde_json::from_str(
        "{\"multisig_pda\": \"G\", \"proposal_id\": \"1\", \"receiver\": \"R\", \"amount\": 2}",
    )
    .unwrap();
    assert!(matches!(validate_withdraw(&v), Err(DispatchError::SchemaError)));
}

#[test]
fn vote_choice_values() {
    assert!(matches!(vote_choice("Approve"), Some(VoteChoice::Approve)));
    assert!(matches!(vote_choice("Cancel"), Some(VoteChoice::Cancel)));
    assert!(vote_choice("Reject").is_none());
    assert!(vote_choice("approve").is_none());
}

#[test]
fn vote_error_message_text() {
    assert_eq!(
        vote_error_message("Maybe"),
        "Maybe is not an \"Approve\" or \"Cancel\""
    );
}

#[test]
fn envelope_text_shape() {
    assert_eq!(
        envelope("create_dao", "\"a\": \"b\""),
        "{\"command_type\": \"create_dao\", \"a\": \"b\"}"
    );
}

#[test]
fn dispatch_ignores_extra_fields() {
    match dispatch(
        "execute_proposal",
        "{\"multisig_pda\": \"G\", \"unrelated\": 4}",
    ) {
        Ok(Command::ExecuteProposal(s)) => assert_eq!(s.multisig_pda, "G"),
        _ => panic!("expected an execute-proposal command"),
    }
}
