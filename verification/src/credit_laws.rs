//! Properties of the credit contract's upgrade flow that span its operations,
//! proved over the storage model that the operations follow.

use vstd::prelude::*;

use crate::credit::{
    latest_pause_setting, next_schema_version, zero_hash, CreditContract, CreditOp, SCHEMA_VERSION,
};
use crate::credit_events::ContractError;

verus! {

/// Initialization records the admin, the first schema version and an
/// unpaused state.
pub proof fn law_init_defaults(c: CreditContract, admin: soroban_sdk::Address)
    ensures
        c.initialized(admin).admin == Some(admin),
        c.initialized(admin).current_schema_version() == SCHEMA_VERSION,
        !c.initialized(admin).paused_flag(),
{
}

/// Without a recorded admin nobody can upgrade.
pub proof fn law_upgrade_needs_admin(c: CreditContract, h: Seq<u8>)
    requires
        c.admin is None,
    ensures
        c.upgrade_refusal(h) == Some(ContractError::UnauthorizedUpgrade),
{
}

/// A paused contract refuses every upgrade.
pub proof fn law_paused_blocks_upgrade(c: CreditContract, h: Seq<u8>)
    requires
        c.admin is Some,
        c.paused_flag(),
    ensures
        c.upgrade_refusal(h) == Some(ContractError::ContractPaused),
{
}

/// The zero hash is never accepted.
pub proof fn law_zero_hash_refused(c: CreditContract)
    ensures
        c.upgrade_refusal(zero_hash()) is Some,
        c.admin is Some && !c.paused_flag() ==> c.upgrade_refusal(zero_hash()) == Some(
            ContractError::InvalidWasmHash,
        ),
{
}

/// An upgrade is accepted exactly when an admin is recorded, the contract is
/// not paused, and the hash is neither zero nor the one recorded.
pub proof fn law_upgrade_acceptance(c: CreditContract, h: Seq<u8>)
    ensures
        c.upgrade_refusal(h) is None <==> (c.admin is Some && !c.paused_flag() && h != zero_hash()
            && h != c.current_wasm_hash()),
{
}

/// An accepted upgrade records the new hash, moves the schema version on by
/// one (saturating at the top), and keeps the admin and the pause flag.
pub proof fn law_upgrade_bumps_schema_and_keeps_state(c: CreditContract, h: [u8; 32])
    requires
        c.upgrade_refusal(h@) is None,
    ensures
        c.upgraded(h).current_wasm_hash() == h@,
        c.upgraded(h).current_schema_version() == next_schema_version(c.current_schema_version()),
        c.current_schema_version() < u32::MAX ==> c.upgraded(h).current_schema_version()
            == c.current_schema_version() + 1,
        c.upgraded(h).current_schema_version() >= c.current_schema_version(),
        c.upgraded(h).admin == c.admin,
        c.upgraded(h).paused_flag() == c.paused_flag(),
{
}

/// Upgrading twice to the same hash: the second upgrade is refused.
pub proof fn law_same_hash_twice_refused(c: CreditContract, h: [u8; 32])
    requires
        c.upgrade_refusal(h@) is None,
    ensures
        c.upgraded(h).upgrade_refusal(h@) == Some(ContractError::SameHashError),
{
}

/// Rolling back: after an accepted upgrade away from a non-zero hash, an
/// upgrade back to that hash is accepted and moves the schema version on
/// again.
pub proof fn law_rollback_accepted(c: CreditContract, h: [u8; 32], prev: [u8; 32])
    requires
        c.upgrade_refusal(h@) is None,
        prev@ == c.current_wasm_hash(),
        prev@ != zero_hash(),
    ensures
        c.upgraded(h).upgrade_refusal(prev@) is None,
        c.upgraded(h).upgraded(prev).current_wasm_hash() == c.current_wasm_hash(),
        c.upgraded(h).upgraded(prev).current_schema_version() == next_schema_version(
            next_schema_version(c.current_schema_version()),
        ),
{
}

/// Setting the pause flag is read back by `is_paused`, and changes nothing
/// else.
pub proof fn law_pause_read_back(c: CreditContract, p: bool)
    ensures
        (CreditContract { paused: Some(p), ..c }).paused_flag() == p,
        (CreditContract { paused: Some(p), ..c }).admin == c.admin,
        (CreditContract { paused: Some(p), ..c }).current_schema_version() == c.current_schema_version(),
        (CreditContract { paused: Some(p), ..c }).current_wasm_hash() == c.current_wasm_hash(),
{
}

/// Initialization happens once: on a contract with an admin, `init` changes
/// nothing (the entrypoint aborts).
pub proof fn law_init_only_once(c: CreditContract, admin: soroban_sdk::Address)
    requires
        c.admin is Some,
    ensures
        c.apply(CreditOp::Init { admin }) == c,
{
}

/// Once an admin is recorded, no sequence of calls removes or replaces it.
pub proof fn law_admin_is_permanent(c: CreditContract, ops: Seq<CreditOp>)
    requires
        c.admin is Some,
    ensures
        c.run(ops).admin == c.admin,
    decreases ops.len(),
{
    if ops.len() > 0 {
        law_admin_is_permanent(c, ops.drop_last());
    }
}

/// On an initialized contract, the schema version goes up by exactly one for
/// every accepted upgrade of a sequence of calls, and stays put for every
/// other call (while it stays below `u32::MAX`).
pub proof fn law_schema_counts_accepted_upgrades(c: CreditContract, ops: Seq<CreditOp>)
    requires
        c.admin is Some,
        c.current_schema_version() + c.accepted_upgrades(ops) <= u32::MAX,
    ensures
        c.run(ops).current_schema_version() == c.current_schema_version() + c.accepted_upgrades(ops),
    decreases ops.len(),
{
    if ops.len() > 0 {
        let prev = ops.drop_last();
        law_schema_counts_accepted_upgrades(c, prev);
        law_admin_is_permanent(c, prev);
    }
}

/// Right after `init`, the schema version is 1 plus the number of accepted
/// upgrades since.
pub proof fn law_schema_after_init(c: CreditContract, admin: soroban_sdk::Address, ops: Seq<CreditOp>)
    requires
        c.admin is None,
        1 + c.initialized(admin).accepted_upgrades(ops) <= u32::MAX,
    ensures
        c.initialized(admin).run(ops).current_schema_version() == 1 + c.initialized(admin).accepted_upgrades(ops),
{
    law_schema_counts_accepted_upgrades(c.initialized(admin), ops);
}

/// On an initialized contract the schema version never goes down.
pub proof fn law_schema_never_decreases(c: CreditContract, ops: Seq<CreditOp>)
    requires
        c.admin is Some,
    ensures
        c.run(ops).current_schema_version() >= c.current_schema_version(),
    decreases ops.len(),
{
    if ops.len() > 0 {
        law_schema_never_decreases(c, ops.drop_last());
        law_admin_is_permanent(c, ops.drop_last());
    }
}

/// On an initialized contract, the pause flag after a sequence of calls is
/// the argument of the latest `set_paused` call, or what it was before when
/// there was none; upgrades, accepted or not, never change it.
pub proof fn law_pause_is_latest_setting(c: CreditContract, ops: Seq<CreditOp>)
    requires
        c.admin is Some,
    ensures
        c.run(ops).paused_flag() == latest_pause_setting(ops, c.paused_flag()),
    decreases ops.len(),
{
    if ops.len() > 0 {
        law_pause_is_latest_setting(c, ops.drop_last());
        law_admin_is_permanent(c, ops.drop_last());
    }
}

} // verus!
