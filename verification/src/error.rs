//! Error taxonomy of the library.

use vstd::prelude::*;

verus! {

/// Failures of the multisig orchestration layer: fetching or decoding
/// on-chain accounts, building instructions, and state checks.
#[derive(Clone, Copy, PartialEq, Eq, Structural, Debug)]
pub enum BaseMultisigError {
    FailedToFetchProgramConfigAccount,
    FailedToFetchMultisigConfigAccount,
    FailedToFetchProposalConfigAccount,
    FailedToDeserializeMultisigConfigData,
    FailedToDeserializeProgramConfigData,
    FailedToDeserializeProposalConfigData,
    FailedToBuildVaultTransactionExecuteInstruction,
    ErrorOnGettingLatestBlockHash,
    ProposalStatusIsNotApproved,
}

impl BaseMultisigError {
    /// A short description, usable where the caller wants text.
    pub fn message(&self) -> (r: &'static str)
        ensures
            r@ == self.message_spec(),
    {
        match self {
            BaseMultisigError::FailedToFetchProgramConfigAccount => "Failed to fetch program config account",
            BaseMultisigError::FailedToFetchMultisigConfigAccount => "Failed to fetch multisig config account",
            BaseMultisigError::FailedToFetchProposalConfigAccount => "Failed to fetch proposal config account",
            BaseMultisigError::FailedToDeserializeMultisigConfigData => "Failed to deserialize multisig config data",
            BaseMultisigError::FailedToDeserializeProgramConfigData => "Failed to deserialize program config account",
            BaseMultisigError::FailedToDeserializeProposalConfigData => "Failed to deserialize proposal config account",
            BaseMultisigError::FailedToBuildVaultTransactionExecuteInstruction => "Failed to build vault_transaction_execute instruction",
            BaseMultisigError::ErrorOnGettingLatestBlockHash => "Error on getting latest block hash",
            BaseMultisigError::ProposalStatusIsNotApproved => "Proposal status is not Approved",
        }
    }

    pub open spec fn message_spec(&self) -> Seq<char> {
        match self {
            BaseMultisigError::FailedToFetchProgramConfigAccount => "Failed to fetch program config account"@,
            BaseMultisigError::FailedToFetchMultisigConfigAccount => "Failed to fetch multisig config account"@,
            BaseMultisigError::FailedToFetchProposalConfigAccount => "Failed to fetch proposal config account"@,
            BaseMultisigError::FailedToDeserializeMultisigConfigData => "Failed to deserialize multisig config data"@,
            BaseMultisigError::FailedToDeserializeProgramConfigData => "Failed to deserialize program config account"@,
            BaseMultisigError::FailedToDeserializeProposalConfigData => "Failed to deserialize proposal config account"@,
            BaseMultisigError::FailedToBuildVaultTransactionExecuteInstruction => "Failed to build vault_transaction_execute instruction"@,
            BaseMultisigError::ErrorOnGettingLatestBlockHash => "Error on getting latest block hash"@,
            BaseMultisigError::ProposalStatusIsNotApproved => "Proposal status is not Approved"@,
        }
    }
}

/// Failures of a running workflow: a ledger-reported failure, a
/// submission that was not confirmed, an event that does not belong to
/// the current phase, a transaction index that cannot be advanced, or
/// a group handle without its creation key.
#[derive(Clone, Copy, PartialEq, Eq, Structural, Debug)]
pub enum WorkflowError {
    Ledger(BaseMultisigError),
    SubmissionFailed,
    UnexpectedEvent,
    IndexOverflow,
    MissingCreateKey,
}

/// Failures of one dispatch cycle, as the command dispatcher reports them.
#[derive(Debug)]
pub enum DispatchError {
    /// The command name is not in the registry.
    UnknownCommand(String),
    /// The body is not a JSON object with the required fields.
    SchemaError,
    /// The named workflow started but a step failed.
    Workflow(WorkflowError),
}

} // verus!
