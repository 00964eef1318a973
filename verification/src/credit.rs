//! Credit contract with an admin-gated code upgrade.
//!
//! `CreditContract` holds the contract's persistent storage, one optional
//! entry per `DataKey`. Its operations decide and record what each entrypoint
//! does; the host side acts on what they return: it demands the authorization
//! of the address that `upgrade_authority` (for an upgrade) or `get_admin`
//! (for a pause change) names before the operation runs, installs the new
//! code, and publishes the event.

use vstd::prelude::*;

use crate::credit_events::{ContractError, UpgradeEvent};

verus! {

/// Schema version of the contract state when it is first initialized.
pub const SCHEMA_VERSION: u32 = 1;

/// Version of the contract interface.
pub const CONTRACT_API_VERSION: u32 = 1;

/// Keys of the contract's persistent storage.
#[derive(Clone, Copy, Debug, PartialEq, Eq, Structural)]
pub enum DataKey {
    Admin,
    Paused,
    CurrentSchemaVersion,
    CurrentWasmHash,
}

/// The all-zero code hash, which never names valid code.
pub open spec fn zero_hash() -> Seq<u8> {
    Seq::new(32, |i: int| 0u8)
}

/// The schema version that follows `v`: one more, saturating at `u32::MAX`.
pub open spec fn next_schema_version(v: u32) -> u32 {
    if v == u32::MAX {
        v
    } else {
        (v + 1) as u32
    }
}

/// One state-changing entrypoint call of the credit contract, with its
/// arguments.
pub enum CreditOp {
    Init { admin: soroban_sdk::Address },
    Upgrade { hash: [u8; 32] },
    SetPaused { paused: bool },
}

/// The pause flag after the calls `ops`, starting from `initial`: the
/// argument of the latest `set_paused` call.
pub open spec fn latest_pause_setting(ops: Seq<CreditOp>, initial: bool) -> bool
    decreases ops.len(),
{
    if ops.len() == 0 {
        initial
    } else {
        match ops.last() {
            CreditOp::SetPaused { paused } => paused,
            _ => latest_pause_setting(ops.drop_last(), initial),
        }
    }
}

/// The credit contract's persistent storage: each field is the entry stored
/// under one `DataKey`, `None` when nothing is stored there.
#[derive(Clone, Debug)]
pub struct CreditContract {
    /// Entry of `DataKey::Admin`.
    pub admin: Option<soroban_sdk::Address>,
    /// Entry of `DataKey::Paused`.
    pub paused: Option<bool>,
    /// Entry of `DataKey::CurrentSchemaVersion`.
    pub schema_version: Option<u32>,
    /// Entry of `DataKey::CurrentWasmHash`.
    pub wasm_hash: Option<[u8; 32]>,
}

impl CreditContract {
    /// Whether upgrades are suspended; an absent entry means not paused.
    pub open spec fn paused_flag(self) -> bool {
        match self.paused {
            Some(p) => p,
            None => false,
        }
    }

    /// The recorded schema version; an absent entry means `SCHEMA_VERSION`.
    pub open spec fn current_schema_version(self) -> u32 {
        match self.schema_version {
            Some(v) => v,
            None => SCHEMA_VERSION,
        }
    }

    /// The recorded code hash; an absent entry means the zero hash.
    pub open spec fn current_wasm_hash(self) -> Seq<u8> {
        match self.wasm_hash {
            Some(h) => h@,
            None => zero_hash(),
        }
    }

    /// Why an upgrade to `new_hash` is refused, checked in this order, or
    /// `None` when it goes through.
    pub open spec fn upgrade_refusal(self, new_hash: Seq<u8>) -> Option<ContractError> {
        if self.admin is None {
            Some(ContractError::UnauthorizedUpgrade)
        } else if self.paused_flag() {
            Some(ContractError::ContractPaused)
        } else if new_hash == zero_hash() {
            Some(ContractError::InvalidWasmHash)
        } else if self.current_wasm_hash() == new_hash {
            Some(ContractError::SameHashError)
        } else {
            None
        }
    }

    /// The storage after an accepted upgrade to `new_hash`: the schema version
    /// moves on and the new hash is recorded; the admin and the pause flag
    /// stay as they were.
    pub open spec fn upgraded(self, new_hash: [u8; 32]) -> CreditContract {
        CreditContract {
            admin: self.admin,
            paused: self.paused,
            schema_version: Some(next_schema_version(self.current_schema_version())),
            wasm_hash: Some(new_hash),
        }
    }

    /// The storage after `init(admin)`.
    pub open spec fn initialized(self, admin: soroban_sdk::Address) -> CreditContract {
        CreditContract {
            admin: Some(admin),
            paused: Some(false),
            schema_version: Some(SCHEMA_VERSION),
            wasm_hash: self.wasm_hash,
        }
    }

    /// The storage after the call `op`. A call that is refused (an error) or
    /// aborted (`init` on an initialized contract, `set_paused` without an
    /// admin) leaves the storage as it was.
    pub open spec fn apply(self, op: CreditOp) -> CreditContract {
        match op {
            CreditOp::Init { admin } => if self.admin is None {
                self.initialized(admin)
            } else {
                self
            },
            CreditOp::Upgrade { hash } => if self.upgrade_refusal(hash@) is None {
                self.upgraded(hash)
            } else {
                self
            },
            CreditOp::SetPaused { paused } => if self.admin is Some {
                CreditContract { paused: Some(paused), ..self }
            } else {
                self
            },
        }
    }

    /// The storage after the calls `ops`, in order.
    pub open spec fn run(self, ops: Seq<CreditOp>) -> CreditContract
        decreases ops.len(),
    {
        if ops.len() == 0 {
            self
        } else {
            self.run(ops.drop_last()).apply(ops.last())
        }
    }

    /// How many of the calls `ops` are upgrades that are accepted.
    pub open spec fn accepted_upgrades(self, ops: Seq<CreditOp>) -> nat
        decreases ops.len(),
    {
        if ops.len() == 0 {
            0
        } else {
            self.accepted_upgrades(ops.drop_last()) + match ops.last() {
                CreditOp::Upgrade { hash } => if self.run(ops.drop_last()).upgrade_refusal(hash@) is None {
                    1nat
                } else {
                    0nat
                },
                _ => 0nat,
            }
        }
    }

    /// Whether an entry is stored under `key`.
    pub open spec fn has_entry(self, key: DataKey) -> bool {
        match key {
            DataKey::Admin => self.admin is Some,
            DataKey::Paused => self.paused is Some,
            DataKey::CurrentSchemaVersion => self.schema_version is Some,
            DataKey::CurrentWasmHash => self.wasm_hash is Some,
        }
    }
}

/// Whether the two hashes are equal.
fn same_hash(a: &[u8; 32], b: &[u8; 32]) -> (r: bool)
    ensures
        r == (a@ == b@),
{
    let mut i: usize = 0;
    while i < 32
        invariant
            i <= 32,
            a@.len() == 32,
            b@.len() == 32,
            forall|j: int| 0 <= j < i ==> a@[j] == b@[j],
        decreases 32 - i,
    {
        if a[i] != b[i] {
            return false;
        }
        i += 1;
    }
    assert(a@ =~= b@);
    true
}

/// Whether `h` is the zero hash.
fn is_zero_hash(h: &[u8; 32]) -> (r: bool)
    ensures
        r == (h@ == zero_hash()),
{
    let mut i: usize = 0;
    while i < 32
        invariant
            i <= 32,
            h@.len() == 32,
            forall|j: int| 0 <= j < i ==> h@[j] == 0u8,
        decreases 32 - i,
    {
        if h[i] != 0 {
            assert(h@[i as int] != zero_hash()[i as int]);
            return false;
        }
        i += 1;
    }
    assert(h@ =~= zero_hash());
    true
}

/// Whether the contract is paused.
fn is_paused(contract: &CreditContract) -> (r: bool)
    ensures
        r == contract.paused_flag(),
{
    match contract.paused {
        Some(p) => p,
        None => false,
    }
}

/// The recorded schema version.
fn get_current_schema_version(contract: &CreditContract) -> (r: u32)
    ensures
        r == contract.current_schema_version(),
{
    match contract.schema_version {
        Some(v) => v,
        None => SCHEMA_VERSION,
    }
}

/// The recorded code hash.
fn get_current_wasm_hash(contract: &CreditContract) -> (r: [u8; 32])
    ensures
        r@ == contract.current_wasm_hash(),
{
    match contract.wasm_hash {
        Some(h) => h,
        None => {
            let zero = [0u8; 32];
            assert(zero@ =~= zero_hash());
            zero
        },
    }
}

/// The upgrade event to publish.
fn emit_upgrade_event(
    prev_hash: [u8; 32],
    new_hash: [u8; 32],
    upgraded_by: soroban_sdk::Address,
    prev_schema_version: u32,
    new_schema_version: u32,
) -> (r: UpgradeEvent)
    ensures
        r == (UpgradeEvent { prev_hash, new_hash, upgraded_by, prev_schema_version, new_schema_version }),
{
    UpgradeEvent { prev_hash, new_hash, upgraded_by, prev_schema_version, new_schema_version }
}

impl CreditContract {
    /// Storage of a contract that was never initialized: no entries.
    pub fn new() -> (r: Self)
        ensures
            r.admin is None,
            r.paused is None,
            r.schema_version is None,
            r.wasm_hash is None,
    {
        CreditContract { admin: None, paused: None, schema_version: None, wasm_hash: None }
    }

    /// Whether an entry is stored under `key`.
    pub fn has(&self, key: DataKey) -> (r: bool)
        ensures
            r == self.has_entry(key),
    {
        match key {
            DataKey::Admin => self.admin.is_some(),
            DataKey::Paused => self.paused.is_some(),
            DataKey::CurrentSchemaVersion => self.schema_version.is_some(),
            DataKey::CurrentWasmHash => self.wasm_hash.is_some(),
        }
    }

    /// Initializes the contract: records the admin, the first schema version
    /// and an unpaused state. A contract with an admin cannot be initialized
    /// again.
    pub fn init(&mut self, admin: soroban_sdk::Address)
        requires
            old(self).admin is None,
        ensures
            *final(self) == old(self).initialized(admin),
            *final(self) == old(self).apply(CreditOp::Init { admin }),
    {
        self.admin = Some(admin);
        self.schema_version = Some(SCHEMA_VERSION);
        self.paused = Some(false);
    }

    /// Who must authorize an upgrade: the recorded admin, or
    /// `UnauthorizedUpgrade` when none is recorded.
    pub fn upgrade_authority(&self) -> (r: Result<soroban_sdk::Address, ContractError>)
        ensures
            r == match self.admin {
                Some(a) => Ok::<soroban_sdk::Address, ContractError>(a),
                None => Err::<soroban_sdk::Address, ContractError>(ContractError::UnauthorizedUpgrade),
            },
    {
        match &self.admin {
            Some(a) => Ok(a.clone()),
            None => Err(ContractError::UnauthorizedUpgrade),
        }
    }

    /// Admin-gated upgrade to the code with hash `new_wasm_hash`.
    ///
    /// The address whose authorization an upgrade demands is the one
    /// `upgrade_authority` returns; the host checks it before this runs.
    /// Fails with `UnauthorizedUpgrade` when no admin is recorded, then with
    /// `ContractPaused`, `InvalidWasmHash` for the zero hash, or
    /// `SameHashError` for the hash already recorded. On success the schema
    /// version moves on by one (saturating), the new hash is recorded, and the
    /// event to publish is returned. A failure changes nothing.
    pub fn upgrade(&mut self, new_wasm_hash: [u8; 32]) -> (r: Result<UpgradeEvent, ContractError>)
        ensures
            *final(self) == old(self).apply(CreditOp::Upgrade { hash: new_wasm_hash }),
            match r {
                Err(e) => {
                    &&& old(self).upgrade_refusal(new_wasm_hash@) == Some(e)
                    &&& *final(self) == *old(self)
                },
                Ok(ev) => {
                    &&& old(self).upgrade_refusal(new_wasm_hash@) is None
                    &&& *final(self) == old(self).upgraded(new_wasm_hash)
                    &&& ev.prev_hash@ == old(self).current_wasm_hash()
                    &&& ev.new_hash == new_wasm_hash
                    &&& old(self).admin == Some(ev.upgraded_by)
                    &&& ev.prev_schema_version == old(self).current_schema_version()
                    &&& ev.new_schema_version == next_schema_version(ev.prev_schema_version)
                },
            },
    {
        let admin = match &self.admin {
            Some(a) => a.clone(),
            None => {
                return Err(ContractError::UnauthorizedUpgrade);
            },
        };
        if is_paused(self) {
            return Err(ContractError::ContractPaused);
        }
        if is_zero_hash(&new_wasm_hash) {
            return Err(ContractError::InvalidWasmHash);
        }
        let prev_wasm_hash = get_current_wasm_hash(self);
        let prev_schema_version = get_current_schema_version(self);
        if same_hash(&prev_wasm_hash, &new_wasm_hash) {
            return Err(ContractError::SameHashError);
        }
        let new_schema_version = prev_schema_version.saturating_add(1);
        self.schema_version = Some(new_schema_version);
        self.wasm_hash = Some(new_wasm_hash);
        Ok(emit_upgrade_event(prev_wasm_hash, new_wasm_hash, admin, prev_schema_version, new_schema_version))
    }

    /// The recorded admin. The contract must have been initialized.
    pub fn get_admin(&self) -> (r: soroban_sdk::Address)
        requires
            self.admin is Some,
        ensures
            self.admin == Some(r),
    {
        match &self.admin {
            Some(a) => a.clone(),
            None => {
                assert(false);
                unreached()
            },
        }
    }

    /// The current schema version.
    pub fn get_schema_version(&self) -> (r: u32)
        ensures
            r == self.current_schema_version(),
    {
        get_current_schema_version(self)
    }

    /// The version of the contract interface.
    pub fn get_api_version() -> (r: u32)
        ensures
            r == CONTRACT_API_VERSION,
    {
        CONTRACT_API_VERSION
    }

    /// Whether the contract is paused.
    pub fn is_paused(&self) -> (r: bool)
        ensures
            r == self.paused_flag(),
    {
        is_paused(self)
    }

    /// Sets the pause flag. The contract must have been initialized; the host
    /// demands the authorization of the recorded admin (`get_admin`) before
    /// this runs.
    pub fn set_paused(&mut self, paused: bool)
        requires
            old(self).admin is Some,
        ensures
            *final(self) == (CreditContract { paused: Some(paused), ..*old(self) }),
            *final(self) == old(self).apply(CreditOp::SetPaused { paused }),
    {
        self.paused = Some(paused);
    }
}

} // verus!
