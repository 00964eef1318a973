//! The credit contract's upgrade event and error codes.

use vstd::prelude::*;

verus! {

/// The audit record of one upgrade: both code hashes, who upgraded, and the
/// schema version before and after.
#[derive(Clone, Debug)]
pub struct UpgradeEvent {
    /// Code hash before the upgrade.
    pub prev_hash: [u8; 32],
    /// Code hash after the upgrade.
    pub new_hash: [u8; 32],
    /// The admin who triggered the upgrade.
    pub upgraded_by: soroban_sdk::Address,
    /// Schema version before the upgrade.
    pub prev_schema_version: u32,
    /// Schema version after the upgrade.
    pub new_schema_version: u32,
}

/// Errors of the credit contract.
#[derive(Copy, Clone, Debug, PartialEq, Eq, Structural, PartialOrd, Ord)]
pub enum ContractError {
    /// No admin is recorded, so nobody may upgrade.
    UnauthorizedUpgrade,
    /// The contract is paused.
    ContractPaused,
    /// The code hash is all zeros.
    InvalidWasmHash,
    /// An upgrade is already in progress.
    UpgradeInProgress,
    /// The code hash is the one already installed.
    SameHashError,
}

impl ContractError {
    /// The error's code on the ledger.
    pub open spec fn code(self) -> u32 {
        match self {
            ContractError::UnauthorizedUpgrade => 1,
            ContractError::ContractPaused => 2,
            ContractError::InvalidWasmHash => 3,
            ContractError::UpgradeInProgress => 4,
            ContractError::SameHashError => 5,
        }
    }
}

impl From<ContractError> for u32 {
    /// The error's code on the ledger.
    fn from(error: ContractError) -> (r: u32)
        ensures
            r == error.code(),
    {
        match error {
            ContractError::UnauthorizedUpgrade => 1,
            ContractError::ContractPaused => 2,
            ContractError::InvalidWasmHash => 3,
            ContractError::UpgradeInProgress => 4,
            ContractError::SameHashError => 5,
        }
    }
}

impl vstd::std_specs::convert::FromSpecImpl<ContractError> for u32 {
    open spec fn obeys_from_spec() -> bool {
        true
    }

    open spec fn from_spec(v: ContractError) -> u32 {
        v.code()
    }
}

} // verus!
