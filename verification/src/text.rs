//! Decimal rendering and the memo texts attached to queued
//! configuration actions.

use vstd::prelude::*;

use crate::addr::{base58_encode, to_base58, Addr};

verus! {

/// The decimal digit character of `n < 10`.
pub open spec fn dec_digit(n: nat) -> char {
    if n == 0 {
        '0'
    } else if n == 1 {
        '1'
    } else if n == 2 {
        '2'
    } else if n == 3 {
        '3'
    } else if n == 4 {
        '4'
    } else if n == 5 {
        '5'
    } else if n == 6 {
        '6'
    } else if n == 7 {
        '7'
    } else if n == 8 {
        '8'
    } else {
        '9'
    }
}

/// The decimal rendering of `n`, most significant digit first.
pub open spec fn dec_str(n: nat) -> Seq<char>
    decreases n,
{
    if n < 10 {
        seq![dec_digit(n)]
    } else {
        dec_str(n / 10).push(dec_digit(n % 10))
    }
}

/// Relies on std integer formatting: the decimal rendering of `x`,
/// a function of the value alone.
#[verifier::external_body]
pub(crate) fn u64_string(x: u64) -> (r: String)
    ensures
        r@ == dec_str(x as nat),
{
    format!("{}", x)
}

/// The memo text of a queued add-member action.
pub open spec fn memo_add_member_text(new_member: Seq<u8>, multisig: Seq<u8>) -> Seq<char> {
    "Add "@ + base58_encode(new_member) + " as member to multisig "@ + base58_encode(multisig)
}

/// The memo text of a queued remove-member action.
pub open spec fn memo_remove_member_text(old_member: Seq<u8>, multisig: Seq<u8>) -> Seq<char> {
    "Remove "@ + base58_encode(old_member) + " member from multisig "@ + base58_encode(multisig)
}

/// The memo text of a queued change-threshold action.
pub open spec fn memo_change_threshold_text(new_threshold: u16, multisig: Seq<u8>) -> Seq<char> {
    "Changing threshold to "@ + dec_str(new_threshold as nat) + " on multisig "@ + base58_encode(
        multisig,
    )
}

/// The memo text of a queued vault transfer.
pub open spec fn memo_transfer_text(lamports: u64, vault: Seq<u8>, receiver: Seq<u8>) -> Seq<
    char> {
    "Sending "@ + dec_str(lamports as nat) + " lamports from "@ + base58_encode(vault) + " to "@
        + base58_encode(receiver)
}

/// The memo attached to a queued add-member action.
pub fn memo_add_member(new_member: &Addr, multisig: &Addr) -> (r: String)
    ensures
        r@ == memo_add_member_text(new_member@, multisig@),
{
    let mut s = String::from_str("Add ");
    let k = to_base58(new_member);
    s.append(k.as_str());
    s.append(" as member to multisig ");
    let m = to_base58(multisig);
    s.append(m.as_str());
    s
}

/// The memo attached to a queued remove-member action.
pub fn memo_remove_member(old_member: &Addr, multisig: &Addr) -> (r: String)
    ensures
        r@ == memo_remove_member_text(old_member@, multisig@),
{
    let mut s = String::from_str("Remove ");
    let k = to_base58(old_member);
    s.append(k.as_str());
    s.append(" member from multisig ");
    let m = to_base58(multisig);
    s.append(m.as_str());
    s
}

/// The memo attached to a queued change-threshold action.
pub fn memo_change_threshold(new_threshold: u16, multisig: &Addr) -> (r: String)
    ensures
        r@ == memo_change_threshold_text(new_threshold, multisig@),
{
    let mut s = String::from_str("Changing threshold to ");
    let t = u64_string(new_threshold as u64);
    s.append(t.as_str());
    s.append(" on multisig ");
    let m = to_base58(multisig);
    s.append(m.as_str());
    s
}

/// The memo attached to a queued vault transfer.
pub fn memo_transfer(lamports: u64, vault: &Addr, receiver: &Addr) -> (r: String)
    ensures
        r@ == memo_transfer_text(lamports, vault@, receiver@),
{
    let mut s = String::from_str("Sending ");
    let l = u64_string(lamports);
    s.append(l.as_str());
    s.append(" lamports from ");
    let v = to_base58(vault);
    s.append(v.as_str());
    s.append(" to ");
    let rcv = to_base58(receiver);
    s.append(rcv.as_str());
    s
}

} // verus!
