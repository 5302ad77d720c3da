//! The validated payload of each inbound command, one type per
//! registry entry.

use vstd::prelude::*;

verus! {

/// Payload of `create_dao`.
pub struct CreateDaoSchema {
    pub project_id: String,
}

/// Payload of `add_member`.
pub struct AddMemberDaoSchema {
    pub multisig_pda: String,
    pub pubkey: String,
    pub permissions: Vec<String>,
}

/// Payload of `remove_member`.
pub struct RemoveMemberDaoSchema {
    pub multisig_pda: String,
    pub pubkey: String,
}

/// Payload of `change_threshold`.
pub struct ChangeThresholdDaoSchema {
    pub multisig_pda: String,
    pub new_threshold: u16,
}

/// Payload of `vote`.
pub struct VoteDaoSchema {
    pub multisig_pda: String,
    pub voter: String,
    pub vote: String,
}

/// Payload of `withdraw`.
pub struct WithdrawDaoSchema {
    pub multisig_pda: String,
    pub proposal_id: String,
    pub is_execute: bool,
    pub receiver: String,
    pub amount: u64,
}

/// Payload of `execute_proposal`.
pub struct ProposalExecuteDaoSchema {
    pub multisig_pda: String,
}

/// Payload of a proposal announcement; carried by messages that name a
/// project and a proposal text.
pub struct ProposalDaoSchema {
    pub project_id: String,
    pub proposal: String,
}

} // verus!
