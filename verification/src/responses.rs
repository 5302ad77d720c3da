//! Response bodies published after a completed workflow, and the
//! outbound envelope. Each body echoes request-identifying fields and
//! the workflow's outputs, exactly as the spec functions state them.

use vstd::prelude::*;

use crate::addr::{base58_encode, to_base58, Addr};
use crate::text::{dec_str, u64_string};

verus! {

/// The response body of a completed create-group workflow.
pub open spec fn resp_create_dao_text(
    multisig: Seq<u8>,
    vault: Seq<u8>,
    threshold: u16,
    project_id: Seq<char>,
) -> Seq<char> {
    "\"multisig_pda\": \""@ + base58_encode(multisig) + "\",\n        \"vault_pda\":  \""@
        + base58_encode(vault) + "\",\n        \"threshold\":  \""@ + dec_str(threshold as nat)
        + "\",\n        \"project_id\":  \""@ + project_id + "\""@
}

/// The response body of a completed add-member workflow.
pub open spec fn resp_member_text(multisig_text: Seq<char>, member: Seq<u8>) -> Seq<char> {
    "\"multisig_pda\": \""@ + multisig_text + "\",\n    \"member\":  \""@ + base58_encode(member)
        + "\""@
}

/// The response body of a completed change-threshold workflow.
pub open spec fn resp_change_threshold_text(multisig_text: Seq<char>, new_threshold: u16) -> Seq<
    char> {
    "\"multisig_pda\": \""@ + multisig_text + "\",\n        \"new_threshold\":  \""@ + dec_str(
        new_threshold as nat,
    ) + "\""@
}

/// The response body of a completed execute-proposal workflow.
pub open spec fn resp_execute_text(multisig_text: Seq<char>) -> Seq<char> {
    "\"multisig_pda\": \""@ + multisig_text + "\",\n        \"propose\":  \"success\""@
}

/// The response body of a completed vote workflow.
pub open spec fn resp_vote_text(multisig_text: Seq<char>, voter: Seq<u8>, vote: Seq<char>) -> Seq<
    char> {
    "\"multisig_pda\": \""@ + multisig_text + "\",\n        \"voter\":  \""@ + base58_encode(voter)
        + "\",\n            \"vote\":  \""@ + vote + "\""@
}

/// The response body of a completed withdraw workflow; the amount is
/// the scaled amount the workflow moved.
pub open spec fn resp_withdraw_text(
    multisig_text: Seq<char>,
    proposal_id: Seq<char>,
    is_execute: bool,
    receiver: Seq<u8>,
    amount: u64,
) -> Seq<char> {
    "\"multisig_pda\": \""@ + multisig_text + "\",\n        \"proposal_id\": \""@ + proposal_id
        + "\",\n        \"is_execute\":  \""@ + (if is_execute {
        "true"@
    } else {
        "false"@
    }) + "\",\n            \"receiver\":  \""@ + base58_encode(receiver)
        + "\",\n            \"amount\":  \""@ + dec_str(amount as nat) + "\""@
}

/// The outbound envelope: the command name echoed beside the body.
pub open spec fn envelope_text(command: Seq<char>, body: Seq<char>) -> Seq<char> {
    "{\"command_type\": \""@ + command + "\", "@ + body + "}"@
}

pub fn resp_create_dao(multisig: &Addr, vault: &Addr, threshold: u16, project_id: &str) -> (r:
    String)
    ensures
        r@ == resp_create_dao_text(multisig@, vault@, threshold, project_id@),
{
    let mut s = String::from_str("\"multisig_pda\": \"");
    let m = to_base58(multisig);
    s.append(m.as_str());
    s.append("\",\n        \"vault_pda\":  \"");
    let v = to_base58(vault);
    s.append(v.as_str());
    s.append("\",\n        \"threshold\":  \"");
    let t = u64_string(threshold as u64);
    s.append(t.as_str());
    s.append("\",\n        \"project_id\":  \"");
    s.append(project_id);
    s.append("\"");
    s
}

pub fn resp_member(multisig_text: &str, member: &Addr) -> (r: String)
    ensures
        r@ == resp_member_text(multisig_text@, member@),
{
    let mut s = String::from_str("\"multisig_pda\": \"");
    s.append(multisig_text);
    s.append("\",\n    \"member\":  \"");
    let k = to_base58(member);
    s.append(k.as_str());
    s.append("\"");
    s
}

pub fn resp_change_threshold(multisig_text: &str, new_threshold: u16) -> (r: String)
    ensures
        r@ == resp_change_threshold_text(multisig_text@, new_threshold),
{
    let mut s = String::from_str("\"multisig_pda\": \"");
    s.append(multisig_text);
    s.append("\",\n        \"new_threshold\":  \"");
    let t = u64_string(new_threshold as u64);
    s.append(t.as_str());
    s.append("\"");
    s
}

pub fn resp_execute(multisig_text: &str) -> (r: String)
    ensures
        r@ == resp_execute_text(multisig_text@),
{
    let mut s = String::from_str("\"multisig_pda\": \"");
    s.append(multisig_text);
    s.append("\",\n        \"propose\":  \"success\"");
    s
}

pub fn resp_vote(multisig_text: &str, voter: &Addr, vote: &str) -> (r: String)
    ensures
        r@ == resp_vote_text(multisig_text@, voter@, vote@),
{
    let mut s = String::from_str("\"multisig_pda\": \"");
    s.append(multisig_text);
    s.append("\",\n        \"voter\":  \"");
    let v = to_base58(voter);
    s.append(v.as_str());
    s.append("\",\n            \"vote\":  \"");
    s.append(vote);
    s.append("\"");
    s
}

pub fn resp_withdraw(multisig_text: &str, proposal_id: &str, is_execute: bool, receiver: &Addr,
    amount: u64) -> (r: String)
    ensures
        r@ == resp_withdraw_text(multisig_text@, proposal_id@, is_execute, receiver@, amount),
{
    let mut s = String::from_str("\"multisig_pda\": \"");
    s.append(multisig_text);
    s.append("\",\n        \"proposal_id\": \"");
    s.append(proposal_id);
    s.append("\",\n        \"is_execute\":  \"");
    if is_execute {
        s.append("true");
    } else {
        s.append("false");
    }
    s.append("\",\n            \"receiver\":  \"");
    let v = to_base58(receiver);
    s.append(v.as_str());
    s.append("\",\n            \"amount\":  \"");
    let a = u64_string(amount);
    s.append(a.as_str());
    s.append("\"");
    s
}

/// Wraps a response body in the outbound envelope.
pub fn envelope(command: &str, body: &str) -> (r: String)
    ensures
        r@ == envelope_text(command@, body@),
{
    let mut s = String::from_str("{\"command_type\": \"");
    s.append(command);
    s.append("\", ");
    s.append(body);
    s.append("}");
    s
}

} // verus!
