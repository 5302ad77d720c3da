//! The library's model of on-chain governance state: members with
//! permission bitsets, the group configuration, proposal status, and the
//! effect of each configuration action as the ledger program applies it.

use vstd::prelude::*;

use crate::addr::Addr;

verus! {

/// Permission bit: may create transactions and proposals.
pub const PERM_INITIATE: u8 = 1;

/// Permission bit: may vote on proposals.
pub const PERM_VOTE: u8 = 2;

/// Permission bit: may execute approved transactions.
pub const PERM_EXECUTE: u8 = 4;

/// Full permissions: initiate, vote and execute.
pub const PERM_ALL: u8 = 7;

/// One member of a governance group: an identity and a permission bitset.
#[derive(Clone, Copy)]
pub struct Member {
    pub key: Addr,
    pub mask: u8,
}

pub open spec fn has_perm(mask: u8, bit: u8) -> bool {
    mask & bit != 0
}

/// Whether some member of `ms` has key `key`.
pub open spec fn key_present(ms: Seq<Member>, key: Seq<u8>) -> bool {
    exists|i: int| 0 <= i < ms.len() && ms[i].key@ == key
}

/// How many members of `ms` hold the Vote permission.
pub open spec fn num_voters(ms: Seq<Member>) -> nat
    decreases ms.len(),
{
    if ms.len() == 0 {
        0
    } else {
        num_voters(ms.drop_last()) + if has_perm(ms.last().mask, PERM_VOTE) {
            1nat
        } else {
            0nat
        }
    }
}

/// Group configuration as read from the ledger: the member list, the
/// approval threshold, and the last used transaction index.
pub struct MultisigState {
    pub members: Vec<Member>,
    pub threshold: u16,
    pub transaction_index: u64,
}

impl MultisigState {
    /// The well-formedness the ledger program maintains for every stored
    /// group: no duplicate members, only known permission bits, and the
    /// threshold rule of `config_accepted`.
    pub open spec fn inv(&self) -> bool {
        &&& forall|i: int, j: int|
            0 <= i < j < self.members@.len() ==> self.members@[i].key@ != self.members@[j].key@
        &&& forall|i: int| 0 <= i < self.members@.len() ==> self.members@[i].mask < 8
        &&& config_accepted(self.members@, self.threshold)
    }

    /// Whether `key` belongs to the group.
    pub fn is_member(&self, key: &Addr) -> (r: bool)
        ensures
            r == key_present(self.members@, key@),
    {
        let mut i: usize = 0;
        while i < self.members.len()
            invariant
                i <= self.members@.len(),
                forall|j: int| 0 <= j < i ==> self.members@[j].key@ != key@,
            decreases self.members@.len() - i,
        {
            if self.members[i].key.eq_addr(key) {
                return true;
            }
            i += 1;
        }
        false
    }

    pub fn get_threshold(&self) -> (r: u16)
        ensures
            r == self.threshold,
    {
        self.threshold
    }

    pub fn get_transaction_index(&self) -> (r: u64)
        ensures
            r == self.transaction_index,
    {
        self.transaction_index
    }

    /// How many members may vote.
    pub fn count_voters(&self) -> (r: usize)
        ensures
            r == num_voters(self.members@),
    {
        let mut i: usize = 0;
        let mut n: usize = 0;
        while i < self.members.len()
            invariant
                i <= self.members@.len(),
                n == num_voters(self.members@.take(i as int)),
                n <= i,
            decreases self.members@.len() - i,
        {
            proof {
                assert(self.members@.take(i + 1).drop_last() =~= self.members@.take(i as int));
                assert(self.members@.take(i + 1).last() == self.members@[i as int]);
            }
            if self.members[i].mask & PERM_VOTE != 0 {
                n += 1;
            }
            i += 1;
        }
        proof {
            assert(self.members@.take(self.members@.len() as int) =~= self.members@);
        }
        n
    }
}

/// Status of the current proposal, with the timestamp the ledger
/// recorded for the transition where it keeps one.
#[derive(Clone, Copy, PartialEq, Eq, Structural, Debug)]
pub enum ProposalStatus {
    Draft { timestamp: i64 },
    Active { timestamp: i64 },
    Rejected { timestamp: i64 },
    Approved { timestamp: i64 },
    Executing,
    Executed { timestamp: i64 },
    Cancelled { timestamp: i64 },
}

/// A queued configuration change, as this library issues them.
pub enum ConfigAction {
    AddMember { new_member: Member },
    RemoveMember { old_member: Addr },
    ChangeThreshold { new_threshold: u16 },
}

/// Whether two members agree in key and permissions.
pub open spec fn member_eq(a: Member, b: Member) -> bool {
    a.key@ == b.key@ && a.mask == b.mask
}

/// Whether `m` occurs in `ms`, key and permissions alike.
pub open spec fn contains_member(ms: Seq<Member>, m: Member) -> bool {
    exists|i: int| 0 <= i < ms.len() && member_eq(ms[i], m)
}

/// The member list a group is created with: the given members, plus
/// the creator with full permissions unless already present.
pub open spec fn with_creator(ms: Seq<Member>, cm: Member) -> Seq<Member> {
    if contains_member(ms, cm) {
        ms
    } else {
        ms.push(cm)
    }
}

/// Builds the creation member list: the given members, with the
/// creator (full permissions) appended unless already among them.
pub fn create_group_members(members: &Vec<Member>, creator: &Addr) -> (r: Vec<Member>)
    ensures
        r@ == with_creator(members@, Member { key: *creator, mask: PERM_ALL }),
{
    let cm = Member { key: *creator, mask: PERM_ALL };
    let mut out: Vec<Member> = Vec::new();
    let mut found = false;
    let mut i: usize = 0;
    while i < members.len()
        invariant
            i <= members@.len(),
            out@ == members@.take(i as int),
            found == exists|j: int|
                0 <= j < i && member_eq(members@[j], Member { key: *creator, mask: PERM_ALL }),
        decreases members@.len() - i,
    {
        let m = members[i];
        if m.key.eq_addr(creator) && m.mask == PERM_ALL {
            found = true;
        }
        out.push(m);
        proof {
            assert(out@ =~= members@.take(i + 1));
        }
        i += 1;
    }
    proof {
        assert(members@.take(members@.len() as int) =~= members@);
    }
    if !found {
        out.push(cm);
    }
    out
}

/// The member list after the ledger applies an add-member action: the
/// new member is appended (the program then orders the list by key,
/// which moves no one in or out).
pub open spec fn members_after_add(ms: Seq<Member>, m: Member) -> Seq<Member> {
    ms.push(m)
}

/// The member list after the ledger applies a remove-member action:
/// every member but those with the removed key.
pub open spec fn members_after_remove(ms: Seq<Member>, key: Seq<u8>) -> Seq<Member> {
    ms.filter(|m: Member| m.key@ != key)
}

/// The member list and threshold the ledger stores after applying an
/// accepted configuration action.
pub open spec fn group_after_action(members: Seq<Member>, threshold: u16, a: ConfigAction) -> (
    Seq<Member>, u16) {
    match a {
        ConfigAction::AddMember { new_member } => (members_after_add(members, new_member), threshold),
        ConfigAction::RemoveMember { old_member } => (
            members_after_remove(members, old_member@),
            threshold,
        ),
        ConfigAction::ChangeThreshold { new_threshold } => (members, new_threshold),
    }
}

/// The threshold rule of the ledger program's invariant: a stored
/// configuration must have a positive threshold no greater than the
/// number of voting-capable members; an execution that would violate
/// it is rejected on chain.
pub open spec fn config_accepted(members: Seq<Member>, threshold: u16) -> bool {
    0 < threshold <= num_voters(members)
}

} // verus!
