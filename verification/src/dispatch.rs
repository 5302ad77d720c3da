//! Command dispatcher: the fixed registry of command names, schema
//! validation of each body against its payload type, and the verified
//! entry into the matching workflow.

use vstd::prelude::*;

use crate::addr::{base58_decode, parse_base58, Addr};
use crate::error::{BaseMultisigError, DispatchError, WorkflowError};
use crate::json::{
    get_bool_field, get_str_array_field, get_str_field, get_u64_field, json_bool_field,
    json_str_array_field, json_str_field, json_text_bool_field, json_text_str_array_field,
    json_text_str_field, json_text_u64_field, json_u64_field, json_wf, parse_json,
};
use crate::resolver::{program_config_treasury_of, MultisigHandle};
use crate::schemas::{
    AddMemberDaoSchema, ChangeThresholdDaoSchema, CreateDaoSchema, ProposalExecuteDaoSchema,
    RemoveMemberDaoSchema, VoteDaoSchema, WithdrawDaoSchema,
};
use crate::state::{ConfigAction, Member, PERM_VOTE};
use crate::workflows::{
    ConfigWorkflow, CreateDaoWorkflow, ExecuteProposalWorkflow, VoteChoice, VoteWorkflow,
    WithdrawWorkflow,
};

verus! {

/// Relies on `str`'s `PartialEq`: character-for-character equality.
#[verifier::external_body]
pub(crate) fn str_eq(a: &str, b: &str) -> (r: bool)
    ensures
        r == (a@ == b@),
{
    a == b
}

/// The fixed command registry: the names the dispatcher routes.
pub open spec fn known_command(n: Seq<char>) -> bool {
    ||| n == "create_dao"@
    ||| n == "add_member"@
    ||| n == "remove_member"@
    ||| n == "change_threshold"@
    ||| n == "vote"@
    ||| n == "withdraw"@
    ||| n == "execute_proposal"@
}

/// A validated command, ready to start its workflow.
pub enum Command {
    CreateDao(CreateDaoSchema),
    AddMember(AddMemberDaoSchema),
    RemoveMember(RemoveMemberDaoSchema),
    ChangeThreshold(ChangeThresholdDaoSchema),
    Vote(VoteDaoSchema),
    Withdraw(WithdrawDaoSchema),
    ExecuteProposal(ProposalExecuteDaoSchema),
}

pub fn validate_create_dao(v: &serde_json::Value) -> (r: Result<CreateDaoSchema, DispatchError>)
    ensures
        match r {
            Ok(s) => json_str_field(*v, "project_id"@) == Some(s.project_id@),
            Err(DispatchError::SchemaError) => json_str_field(*v, "project_id"@) is None,
            Err(_) => false,
        },
{
    match get_str_field(v, "project_id") {
        Some(project_id) => Ok(CreateDaoSchema { project_id }),
        None => Err(DispatchError::SchemaError),
    }
}

pub fn validate_add_member(v: &serde_json::Value) -> (r: Result<AddMemberDaoSchema,
    DispatchError>)
    ensures
        match r {
            Ok(s) => {
                &&& json_str_field(*v, "multisig_pda"@) == Some(s.multisig_pda@)
                &&& json_str_field(*v, "pubkey"@) == Some(s.pubkey@)
                &&& json_str_array_field(*v, "permissions"@) == Some(
                    s.permissions@.map_values(|p: String| p@),
                )
            },
            Err(DispatchError::SchemaError) => {
                ||| json_str_field(*v, "multisig_pda"@) is None
                ||| json_str_field(*v, "pubkey"@) is None
                ||| json_str_array_field(*v, "permissions"@) is None
            },
            Err(_) => false,
        },
{
    let multisig_pda = match get_str_field(v, "multisig_pda") {
        Some(s) => s,
        None => {
            return Err(DispatchError::SchemaError);
        },
    };
    let pubkey = match get_str_field(v, "pubkey") {
        Some(s) => s,
        None => {
            return Err(DispatchError::SchemaError);
        },
    };
    let permissions = match get_str_array_field(v, "permissions") {
        Some(a) => a,
        None => {
            return Err(DispatchError::SchemaError);
        },
    };
    Ok(AddMemberDaoSchema { multisig_pda, pubkey, permissions })
}

pub fn validate_remove_member(v: &serde_json::Value) -> (r: Result<RemoveMemberDaoSchema,
    DispatchError>)
    ensures
        match r {
            Ok(s) => {
                &&& json_str_field(*v, "multisig_pda"@) == Some(s.multisig_pda@)
                &&& json_str_field(*v, "pubkey"@) == Some(s.pubkey@)
            },
            Err(DispatchError::SchemaError) => {
                ||| json_str_field(*v, "multisig_pda"@) is None
                ||| json_str_field(*v, "pubkey"@) is None
            },
            Err(_) => false,
        },
{
    let multisig_pda = match get_str_field(v, "multisig_pda") {
        Some(s) => s,
        None => {
            return Err(DispatchError::SchemaError);
        },
    };
    let pubkey = match get_str_field(v, "pubkey") {
        Some(s) => s,
        None => {
            return Err(DispatchError::SchemaError);
        },
    };
    Ok(RemoveMemberDaoSchema { multisig_pda, pubkey })
}

pub fn validate_change_threshold(v: &serde_json::Value) -> (r: Result<ChangeThresholdDaoSchema,
    DispatchError>)
    ensures
        match r {
            Ok(s) => {
                &&& json_str_field(*v, "multisig_pda"@) == Some(s.multisig_pda@)
                &&& json_u64_field(*v, "new_threshold"@) == Some(s.new_threshold as u64)
            },
            Err(DispatchError::SchemaError) => {
                ||| json_str_field(*v, "multisig_pda"@) is None
                ||| json_u64_field(*v, "new_threshold"@) is None
                ||| (json_u64_field(*v, "new_threshold"@) matches Some(n) && n > u16::MAX)
            },
            Err(_) => false,
        },
{
    let multisig_pda = match get_str_field(v, "multisig_pda") {
        Some(s) => s,
        None => {
            return Err(DispatchError::SchemaError);
        },
    };
    let raw = match get_u64_field(v, "new_threshold") {
        Some(n) => n,
        None => {
            return Err(DispatchError::SchemaError);
        },
    };
    if raw > u16::MAX as u64 {
        return Err(DispatchError::SchemaError);
    }
    Ok(ChangeThresholdDaoSchema { multisig_pda, new_threshold: raw as u16 })
}

pub fn validate_vote(v: &serde_json::Value) -> (r: Result<VoteDaoSchema, DispatchError>)
    ensures
        match r {
            Ok(s) => {
                &&& json_str_field(*v, "multisig_pda"@) == Some(s.multisig_pda@)
                &&& json_str_field(*v, "voter"@) == Some(s.voter@)
                &&& json_str_field(*v, "vote"@) == Some(s.vote@)
            },
            Err(DispatchError::SchemaError) => {
                ||| json_str_field(*v, "multisig_pda"@) is None
                ||| json_str_field(*v, "voter"@) is None
                ||| json_str_field(*v, "vote"@) is None
            },
            Err(_) => false,
        },
{
    let multisig_pda = match get_str_field(v, "multisig_pda") {
        Some(s) => s,
        None => {
            return Err(DispatchError::SchemaError);
        },
    };
    let voter = match get_str_field(v, "voter") {
        Some(s) => s,
        None => {
            return Err(DispatchError::SchemaError);
        },
    };
    let vote = match get_str_field(v, "vote") {
        Some(s) => s,
        None => {
            return Err(DispatchError::SchemaError);
        },
    };
    Ok(VoteDaoSchema { multisig_pda, voter, vote })
}

pub fn validate_withdraw(v: &serde_json::Value) -> (r: Result<WithdrawDaoSchema, DispatchError>)
    ensures
        match r {
            Ok(s) => {
                &&& json_str_field(*v, "multisig_pda"@) == Some(s.multisig_pda@)
                &&& json_str_field(*v, "proposal_id"@) == Some(s.proposal_id@)
                &&& json_bool_field(*v, "is_execute"@) == Some(s.is_execute)
                &&& json_str_field(*v, "receiver"@) == Some(s.receiver@)
                &&& json_u64_field(*v, "amount"@) == Some(s.amount)
            },
            Err(DispatchError::SchemaError) => {
                ||| json_str_field(*v, "multisig_pda"@) is None
                ||| json_str_field(*v, "proposal_id"@) is None
                ||| json_bool_field(*v, "is_execute"@) is None
                ||| json_str_field(*v, "receiver"@) is None
                ||| json_u64_field(*v, "amount"@) is None
            },
            Err(_) => false,
        },
{
    let multisig_pda = match get_str_field(v, "multisig_pda") {
        Some(s) => s,
        None => {
            return Err(DispatchError::SchemaError);
        },
    };
    let proposal_id = match get_str_field(v, "proposal_id") {
        Some(s) => s,
        None => {
            return Err(DispatchError::SchemaError);
        },
    };
    let is_execute = match get_bool_field(v, "is_execute") {
        Some(b) => b,
        None => {
            return Err(DispatchError::SchemaError);
        },
    };
    let receiver = match get_str_field(v, "receiver") {
        Some(s) => s,
        None => {
            return Err(DispatchError::SchemaError);
        },
    };
    let amount = match get_u64_field(v, "amount") {
        Some(n) => n,
        None => {
            return Err(DispatchError::SchemaError);
        },
    };
    Ok(WithdrawDaoSchema { multisig_pda, proposal_id, is_execute, receiver, amount })
}

pub fn validate_execute_proposal(v: &serde_json::Value) -> (r: Result<ProposalExecuteDaoSchema,
    DispatchError>)
    ensures
        match r {
            Ok(s) => json_str_field(*v, "multisig_pda"@) == Some(s.multisig_pda@),
            Err(DispatchError::SchemaError) => json_str_field(*v, "multisig_pda"@) is None,
            Err(_) => false,
        },
{
    match get_str_field(v, "multisig_pda") {
        Some(multisig_pda) => Ok(ProposalExecuteDaoSchema { multisig_pda }),
        None => Err(DispatchError::SchemaError),
    }
}

/// Routes one inbound message: looks the command name up in the fixed
/// registry, parses the body as JSON, and validates it against the
/// command's schema. An unknown name is reported as such, echoing the
/// name. For a known name the outcome is owed by the body text: the
/// validated payload carries exactly the body's fields when the body
/// is well-formed JSON with that command's required fields, and the
/// schema error comes exactly otherwise.
pub fn dispatch(command: &str, body: &str) -> (r: Result<Command, DispatchError>)
    ensures
        !known_command(command@) <==> (r matches Err(DispatchError::UnknownCommand(n)) && n@
            == command@),
        command@ == "create_dao"@ ==> match r {
            Ok(Command::CreateDao(s)) => {
                &&& json_wf(body@)
                &&& json_text_str_field(body@, "project_id"@) == Some(s.project_id@)
            },
            Err(DispatchError::SchemaError) => !json_wf(body@) || json_text_str_field(body@,
                "project_id"@) is None,
            _ => false,
        },
        command@ == "add_member"@ ==> match r {
            Ok(Command::AddMember(s)) => {
                &&& json_wf(body@)
                &&& json_text_str_field(body@, "multisig_pda"@) == Some(s.multisig_pda@)
                &&& json_text_str_field(body@, "pubkey"@) == Some(s.pubkey@)
                &&& json_text_str_array_field(body@, "permissions"@) == Some(
                    s.permissions@.map_values(|p: String| p@),
                )
            },
            Err(DispatchError::SchemaError) => {
                ||| !json_wf(body@)
                ||| json_text_str_field(body@, "multisig_pda"@) is None
                ||| json_text_str_field(body@, "pubkey"@) is None
                ||| json_text_str_array_field(body@, "permissions"@) is None
            },
            _ => false,
        },
        command@ == "remove_member"@ ==> match r {
            Ok(Command::RemoveMember(s)) => {
                &&& json_wf(body@)
                &&& json_text_str_field(body@, "multisig_pda"@) == Some(s.multisig_pda@)
                &&& json_text_str_field(body@, "pubkey"@) == Some(s.pubkey@)
            },
            Err(DispatchError::SchemaError) => {
                ||| !json_wf(body@)
                ||| json_text_str_field(body@, "multisig_pda"@) is None
                ||| json_text_str_field(body@, "pubkey"@) is None
            },
            _ => false,
        },
        command@ == "change_threshold"@ ==> match r {
            Ok(Command::ChangeThreshold(s)) => {
                &&& json_wf(body@)
                &&& json_text_str_field(body@, "multisig_pda"@) == Some(s.multisig_pda@)
                &&& json_text_u64_field(body@, "new_threshold"@) == Some(s.new_threshold as u64)
            },
            Err(DispatchError::SchemaError) => {
                ||| !json_wf(body@)
                ||| json_text_str_field(body@, "multisig_pda"@) is None
                ||| json_text_u64_field(body@, "new_threshold"@) is None
                ||| (json_text_u64_field(body@, "new_threshold"@) matches Some(n) && n > u16::MAX)
            },
            _ => false,
        },
        command@ == "vote"@ ==> match r {
            Ok(Command::Vote(s)) => {
                &&& json_wf(body@)
                &&& json_text_str_field(body@, "multisig_pda"@) == Some(s.multisig_pda@)
                &&& json_text_str_field(body@, "voter"@) == Some(s.voter@)
                &&& json_text_str_field(body@, "vote"@) == Some(s.vote@)
            },
            Err(DispatchError::SchemaError) => {
                ||| !json_wf(body@)
                ||| json_text_str_field(body@, "multisig_pda"@) is None
                ||| json_text_str_field(body@, "voter"@) is None
                ||| json_text_str_field(body@, "vote"@) is None
            },
            _ => false,
        },
        command@ == "withdraw"@ ==> match r {
            Ok(Command::Withdraw(s)) => {
                &&& json_wf(body@)
                &&& json_text_str_field(body@, "multisig_pda"@) == Some(s.multisig_pda@)
                &&& json_text_str_field(body@, "proposal_id"@) == Some(s.proposal_id@)
                &&& json_text_bool_field(body@, "is_execute"@) == Some(s.is_execute)
                &&& json_text_str_field(body@, "receiver"@) == Some(s.receiver@)
                &&& json_text_u64_field(body@, "amount"@) == Some(s.amount)
            },
            Err(DispatchError::SchemaError) => {
                ||| !json_wf(body@)
                ||| json_text_str_field(body@, "multisig_pda"@) is None
                ||| json_text_str_field(body@, "proposal_id"@) is None
                ||| json_text_bool_field(body@, "is_execute"@) is None
                ||| json_text_str_field(body@, "receiver"@) is None
                ||| json_text_u64_field(body@, "amount"@) is None
            },
            _ => false,
        },
        command@ == "execute_proposal"@ ==> match r {
            Ok(Command::ExecuteProposal(s)) => {
                &&& json_wf(body@)
                &&& json_text_str_field(body@, "multisig_pda"@) == Some(s.multisig_pda@)
            },
            Err(DispatchError::SchemaError) => !json_wf(body@) || json_text_str_field(body@,
                "multisig_pda"@) is None,
            _ => false,
        },
{
    proof {
        reveal_strlit("create_dao");
        reveal_strlit("add_member");
        reveal_strlit("remove_member");
        reveal_strlit("change_threshold");
        reveal_strlit("vote");
        reveal_strlit("withdraw");
        reveal_strlit("execute_proposal");
        assert("create_dao"@.len() == 10);
        assert("add_member"@.len() == 10);
        assert("remove_member"@.len() == 13);
        assert("change_threshold"@.len() == 16);
        assert("vote"@.len() == 4);
        assert("withdraw"@.len() == 8);
        assert("execute_proposal"@.len() == 16);
        assert("create_dao"@[0] == 'c' && "add_member"@[0] == 'a');
        assert("create_dao"@ != "add_member"@);
        assert("change_threshold"@[0] == 'c' && "execute_proposal"@[0] == 'e');
        assert("change_threshold"@ != "execute_proposal"@);
    }
    if str_eq(command, "create_dao") {
        match parse_json(body) {
            Some(v) => match validate_create_dao(&v) {
                Ok(s) => Ok(Command::CreateDao(s)),
                Err(e) => Err(e),
            },
            None => Err(DispatchError::SchemaError),
        }
    } else if str_eq(command, "add_member") {
        match parse_json(body) {
            Some(v) => match validate_add_member(&v) {
                Ok(s) => Ok(Command::AddMember(s)),
                Err(e) => Err(e),
            },
            None => Err(DispatchError::SchemaError),
        }
    } else if str_eq(command, "remove_member") {
        match parse_json(body) {
            Some(v) => match validate_remove_member(&v) {
                Ok(s) => Ok(Command::RemoveMember(s)),
                Err(e) => Err(e),
            },
            None => Err(DispatchError::SchemaError),
        }
    } else if str_eq(command, "change_threshold") {
        match parse_json(body) {
            Some(v) => match validate_change_threshold(&v) {
                Ok(s) => Ok(Command::ChangeThreshold(s)),
                Err(e) => Err(e),
            },
            None => Err(DispatchError::SchemaError),
        }
    } else if str_eq(command, "vote") {
        match parse_json(body) {
            Some(v) => match validate_vote(&v) {
                Ok(s) => Ok(Command::Vote(s)),
                Err(e) => Err(e),
            },
            None => Err(DispatchError::SchemaError),
        }
    } else if str_eq(command, "withdraw") {
        match parse_json(body) {
            Some(v) => match validate_withdraw(&v) {
                Ok(s) => Ok(Command::Withdraw(s)),
                Err(e) => Err(e),
            },
            None => Err(DispatchError::SchemaError),
        }
    } else if str_eq(command, "execute_proposal") {
        match parse_json(body) {
            Some(v) => match validate_execute_proposal(&v) {
                Ok(s) => Ok(Command::ExecuteProposal(s)),
                Err(e) => Err(e),
            },
            None => Err(DispatchError::SchemaError),
        }
    } else {
        Err(DispatchError::UnknownCommand(String::from_str(command)))
    }
}

/// The vote value of a vote command: `Approve` or `Cancel`, and
/// nothing else.
pub fn vote_choice(s: &str) -> (r: Option<VoteChoice>)
    ensures
        r == Some(VoteChoice::Approve) <==> s@ == "Approve"@,
        r == Some(VoteChoice::Cancel) <==> s@ == "Cancel"@,
        r is None <==> (s@ != "Approve"@ && s@ != "Cancel"@),
{
    proof {
        reveal_strlit("Approve");
        reveal_strlit("Cancel");
        assert("Approve"@.len() == 7);
        assert("Cancel"@.len() == 6);
        assert("Approve"@ != "Cancel"@);
    }
    if str_eq(s, "Approve") {
        Some(VoteChoice::Approve)
    } else if str_eq(s, "Cancel") {
        Some(VoteChoice::Cancel)
    } else {
        None
    }
}

/// The message reported for a vote value that is neither `Approve`
/// nor `Cancel`.
pub fn vote_error_message(vote: &str) -> (r: String)
    ensures
        r@ == vote@ + " is not an \"Approve\" or \"Cancel\""@,
{
    let mut s = String::from_str(vote);
    s.append(" is not an \"Approve\" or \"Cancel\"");
    s
}


/// Starts the create-group workflow: the caller supplies the creator's
/// key, the public key of a freshly generated creation keypair, and
/// the fetched program-config account.
pub fn begin_create_dao(s: &CreateDaoSchema, creator: Addr, create_key: Addr,
    program_config_account: Option<&Vec<u8>>) -> (r: Result<CreateDaoWorkflow, DispatchError>)
    ensures
        match r {
            Ok(w) => {
                &&& w.handle.creator@ == creator@
                &&& w.create_key@ == create_key@
                &&& w.handle.multisig_pda@ == crate::resolver::multisig_pda_of(create_key@)
                &&& w.handle.vault_pda@ == crate::resolver::vault_pda_of(
                    crate::resolver::multisig_pda_of(create_key@),
                    0,
                )
                &&& program_config_account matches Some(d) && program_config_treasury_of(d@)
                    == Some(w.handle.treasury@)
                &&& w.project_id_text@ == s.project_id@
                &&& w.phase is Init
            },
            Err(DispatchError::Workflow(WorkflowError::Ledger(
                BaseMultisigError::FailedToFetchProgramConfigAccount,
            ))) => program_config_account is None,
            Err(DispatchError::Workflow(WorkflowError::Ledger(
                BaseMultisigError::FailedToDeserializeProgramConfigData,
            ))) => program_config_account matches Some(d) && program_config_treasury_of(d@) is None,
            Err(_) => false,
        },
{
    let handle = match MultisigHandle::new(creator, create_key, program_config_account) {
        Ok(h) => h,
        Err(e) => {
            return Err(DispatchError::Workflow(WorkflowError::Ledger(e)));
        },
    };
    let project_id = clone_string(&s.project_id);
    match CreateDaoWorkflow::new(handle, project_id) {
        Ok(w) => Ok(w),
        Err(e) => Err(DispatchError::Workflow(e)),
    }
}

/// Relies on `String::clone`: the copy reads the same characters.
#[verifier::external_body]
pub(crate) fn clone_string(s: &String) -> (r: String)
    ensures
        r@ == s@,
{
    s.clone()
}

/// Resolves the group handle named by a command's `multisig_pda`
/// field; a field that is not a base58 address is a schema error.
fn resolve_handle(multisig_pda: &String, creator: Addr, program_config_account: Option<&Vec<u8>>)
    -> (r: Result<MultisigHandle, DispatchError>)
    ensures
        match r {
            Ok(h) => {
                &&& base58_decode(multisig_pda@) == Some(h.multisig_pda@)
                &&& h.creator@ == creator@
                &&& program_config_account matches Some(d) && program_config_treasury_of(d@)
                    == Some(h.treasury@)
                &&& h.vault_pda@ == crate::resolver::vault_pda_of(h.multisig_pda@, 0)
            },
            Err(DispatchError::SchemaError) => base58_decode(multisig_pda@) is None,
            Err(DispatchError::Workflow(WorkflowError::Ledger(
                BaseMultisigError::FailedToFetchProgramConfigAccount,
            ))) => program_config_account is None,
            Err(DispatchError::Workflow(WorkflowError::Ledger(
                BaseMultisigError::FailedToDeserializeProgramConfigData,
            ))) => program_config_account matches Some(d) && program_config_treasury_of(d@) is None,
            Err(_) => false,
        },
{
    let pda = match crate::addr::parse_base58(multisig_pda.as_str()) {
        Some(a) => a,
        None => {
            return Err(DispatchError::SchemaError);
        },
    };
    match MultisigHandle::from_multisig_pda(creator, pda, program_config_account) {
        Ok(h) => Ok(h),
        Err(e) => Err(DispatchError::Workflow(WorkflowError::Ledger(e))),
    }
}

/// Starts the add-member workflow: the new member is queued with the
/// Vote permission.
pub fn begin_add_member(s: &AddMemberDaoSchema, creator: Addr, program_config_account: Option<&Vec<
    u8>>) -> (r: Result<ConfigWorkflow, DispatchError>)
    ensures
        match r {
            Ok(w) => {
                &&& base58_decode(s.multisig_pda@) == Some(w.handle.multisig_pda@)
                &&& w.handle.creator@ == creator@
                &&& (w.action matches ConfigAction::AddMember { new_member }
                    && base58_decode(s.pubkey@) == Some(new_member.key@) && new_member.mask
                    == PERM_VOTE)
                &&& w.multisig_text@ == s.multisig_pda@
                &&& w.phase is Init
            },
            Err(DispatchError::SchemaError) => base58_decode(s.multisig_pda@) is None
                || base58_decode(s.pubkey@) is None,
            Err(DispatchError::Workflow(WorkflowError::Ledger(
                BaseMultisigError::FailedToFetchProgramConfigAccount,
            ))) => program_config_account is None,
            Err(DispatchError::Workflow(WorkflowError::Ledger(
                BaseMultisigError::FailedToDeserializeProgramConfigData,
            ))) => program_config_account matches Some(d) && program_config_treasury_of(d@) is None,
            Err(_) => false,
        },
{
    let new_member_key = match crate::addr::parse_base58(s.pubkey.as_str()) {
        Some(a) => a,
        None => {
            return Err(DispatchError::SchemaError);
        },
    };
    let handle = match resolve_handle(&s.multisig_pda, creator, program_config_account) {
        Ok(h) => h,
        Err(e) => {
            return Err(e);
        },
    };
    let action = ConfigAction::AddMember {
        new_member: Member { key: new_member_key, mask: PERM_VOTE },
    };
    Ok(ConfigWorkflow::new(handle, action, clone_string(&s.multisig_pda)))
}

/// Starts the remove-member workflow.
pub fn begin_remove_member(s: &RemoveMemberDaoSchema, creator: Addr, program_config_account:
    Option<&Vec<u8>>) -> (r: Result<ConfigWorkflow, DispatchError>)
    ensures
        match r {
            Ok(w) => {
                &&& base58_decode(s.multisig_pda@) == Some(w.handle.multisig_pda@)
                &&& w.handle.creator@ == creator@
                &&& (w.action matches ConfigAction::RemoveMember { old_member } && base58_decode(
                    s.pubkey@,
                ) == Some(old_member@))
                &&& w.multisig_text@ == s.multisig_pda@
                &&& w.phase is Init
            },
            Err(DispatchError::SchemaError) => base58_decode(s.multisig_pda@) is None
                || base58_decode(s.pubkey@) is None,
            Err(DispatchError::Workflow(WorkflowError::Ledger(
                BaseMultisigError::FailedToFetchProgramConfigAccount,
            ))) => program_config_account is None,
            Err(DispatchError::Workflow(WorkflowError::Ledger(
                BaseMultisigError::FailedToDeserializeProgramConfigData,
            ))) => program_config_account matches Some(d) && program_config_treasury_of(d@) is None,
            Err(_) => false,
        },
{
    let old_member = match crate::addr::parse_base58(s.pubkey.as_str()) {
        Some(a) => a,
        None => {
            return Err(DispatchError::SchemaError);
        },
    };
    let handle = match resolve_handle(&s.multisig_pda, creator, program_config_account) {
        Ok(h) => h,
        Err(e) => {
            return Err(e);
        },
    };
    Ok(ConfigWorkflow::new(
        handle,
        ConfigAction::RemoveMember { old_member },
        clone_string(&s.multisig_pda),
    ))
}

/// Starts the change-threshold workflow.
pub fn begin_change_threshold(s: &ChangeThresholdDaoSchema, creator: Addr,
    program_config_account: Option<&Vec<u8>>) -> (r: Result<ConfigWorkflow, DispatchError>)
    ensures
        match r {
            Ok(w) => {
                &&& base58_decode(s.multisig_pda@) == Some(w.handle.multisig_pda@)
                &&& w.handle.creator@ == creator@
                &&& w.action matches ConfigAction::ChangeThreshold { new_threshold: t } && t
                    == s.new_threshold
                &&& w.multisig_text@ == s.multisig_pda@
                &&& w.phase is Init
            },
            Err(DispatchError::SchemaError) => base58_decode(s.multisig_pda@) is None,
            Err(DispatchError::Workflow(WorkflowError::Ledger(
                BaseMultisigError::FailedToFetchProgramConfigAccount,
            ))) => program_config_account is None,
            Err(DispatchError::Workflow(WorkflowError::Ledger(
                BaseMultisigError::FailedToDeserializeProgramConfigData,
            ))) => program_config_account matches Some(d) && program_config_treasury_of(d@) is None,
            Err(_) => false,
        },
{
    let handle = match resolve_handle(&s.multisig_pda, creator, program_config_account) {
        Ok(h) => h,
        Err(e) => {
            return Err(e);
        },
    };
    Ok(ConfigWorkflow::new(
        handle,
        ConfigAction::ChangeThreshold { new_threshold: s.new_threshold },
        clone_string(&s.multisig_pda),
    ))
}

/// Starts the vote workflow; the vote value must be `Approve` or
/// `Cancel`, and the voter field must be a base58 address.
pub fn begin_vote(s: &VoteDaoSchema, creator: Addr, program_config_account: Option<&Vec<u8>>) -> (
    r: Result<VoteWorkflow, DispatchError>)
    ensures
        match r {
            Ok(w) => {
                &&& base58_decode(s.multisig_pda@) == Some(w.handle.multisig_pda@)
                &&& w.handle.creator@ == creator@
                &&& base58_decode(s.voter@) == Some(w.voter@)
                &&& (s.vote@ == "Approve"@ <==> w.choice is Approve)
                &&& (s.vote@ == "Cancel"@ <==> w.choice is Cancel)
                &&& w.vote_text@ == s.vote@
                &&& w.multisig_text@ == s.multisig_pda@
                &&& w.phase is Init
            },
            Err(DispatchError::SchemaError) => base58_decode(s.multisig_pda@) is None
                || base58_decode(s.voter@) is None || (s.vote@ != "Approve"@ && s.vote@
                != "Cancel"@),
            Err(DispatchError::Workflow(WorkflowError::Ledger(
                BaseMultisigError::FailedToFetchProgramConfigAccount,
            ))) => program_config_account is None,
            Err(DispatchError::Workflow(WorkflowError::Ledger(
                BaseMultisigError::FailedToDeserializeProgramConfigData,
            ))) => program_config_account matches Some(d) && program_config_treasury_of(d@) is None,
            Err(_) => false,
        },
{
    let choice = match vote_choice(s.vote.as_str()) {
        Some(c) => c,
        None => {
            return Err(DispatchError::SchemaError);
        },
    };
    let voter = match crate::addr::parse_base58(s.voter.as_str()) {
        Some(a) => a,
        None => {
            return Err(DispatchError::SchemaError);
        },
    };
    let handle = match resolve_handle(&s.multisig_pda, creator, program_config_account) {
        Ok(h) => h,
        Err(e) => {
            return Err(e);
        },
    };
    Ok(VoteWorkflow::new(handle, choice, voter, clone_string(&s.vote), clone_string(&s.multisig_pda)))
}

/// Starts the withdraw workflow; the receiver must be a base58
/// address, and the amount, scaled by 1,000,000, must fit.
pub fn begin_withdraw(s: &WithdrawDaoSchema, creator: Addr, program_config_account: Option<&Vec<
    u8>>) -> (r: Result<WithdrawWorkflow, DispatchError>)
    ensures
        match r {
            Ok(w) => {
                &&& base58_decode(s.multisig_pda@) == Some(w.handle.multisig_pda@)
                &&& w.handle.creator@ == creator@
                &&& base58_decode(s.receiver@) == Some(w.receiver@)
                &&& w.lamports == s.amount * 1000000
                &&& w.is_execute == s.is_execute
                &&& w.multisig_text@ == s.multisig_pda@
                &&& w.proposal_id_text@ == s.proposal_id@
                &&& w.phase is Init
            },
            Err(DispatchError::SchemaError) => base58_decode(s.multisig_pda@) is None
                || base58_decode(s.receiver@) is None || s.amount > u64::MAX / 1000000,
            Err(DispatchError::Workflow(WorkflowError::Ledger(
                BaseMultisigError::FailedToFetchProgramConfigAccount,
            ))) => program_config_account is None,
            Err(DispatchError::Workflow(WorkflowError::Ledger(
                BaseMultisigError::FailedToDeserializeProgramConfigData,
            ))) => program_config_account matches Some(d) && program_config_treasury_of(d@) is None,
            Err(_) => false,
        },
{
    let receiver = match crate::addr::parse_base58(s.receiver.as_str()) {
        Some(a) => a,
        None => {
            return Err(DispatchError::SchemaError);
        },
    };
    let handle = match resolve_handle(&s.multisig_pda, creator, program_config_account) {
        Ok(h) => h,
        Err(e) => {
            return Err(e);
        },
    };
    match WithdrawWorkflow::new(
        handle,
        receiver,
        s.amount,
        s.is_execute,
        clone_string(&s.multisig_pda),
        clone_string(&s.proposal_id),
    ) {
        Some(w) => Ok(w),
        None => Err(DispatchError::SchemaError),
    }
}

/// Starts the execute-proposal workflow.
pub fn begin_execute_proposal(s: &ProposalExecuteDaoSchema, creator: Addr,
    program_config_account: Option<&Vec<u8>>) -> (r: Result<ExecuteProposalWorkflow,
    DispatchError>)
    ensures
        match r {
            Ok(w) => {
                &&& base58_decode(s.multisig_pda@) == Some(w.handle.multisig_pda@)
                &&& w.handle.creator@ == creator@
                &&& w.multisig_text@ == s.multisig_pda@
                &&& w.phase is Init
            },
            Err(DispatchError::SchemaError) => base58_decode(s.multisig_pda@) is None,
            Err(DispatchError::Workflow(WorkflowError::Ledger(
                BaseMultisigError::FailedToFetchProgramConfigAccount,
            ))) => program_config_account is None,
            Err(DispatchError::Workflow(WorkflowError::Ledger(
                BaseMultisigError::FailedToDeserializeProgramConfigData,
            ))) => program_config_account matches Some(d) && program_config_treasury_of(d@) is None,
            Err(_) => false,
        },
{
    let handle = match resolve_handle(&s.multisig_pda, creator, program_config_account) {
        Ok(h) => h,
        Err(e) => {
            return Err(e);
        },
    };
    Ok(ExecuteProposalWorkflow::new(handle, clone_string(&s.multisig_pda)))
}

} // verus!
