//! The ledger address type, as carried through the credit contract's state.

use vstd::prelude::*;

verus! {

/// An account or contract address on the ledger. The contract logic only
/// stores such a value and copies it; the host side authenticates it.
#[verifier::external_type_specification]
#[verifier::external_body]
pub struct ExAddress(soroban_sdk::Address);

/// `soroban_sdk::Address::clone` (a derived `Clone`): the copy shares the
/// environment handle and holds the same host object, so it is the same value.
pub assume_specification[ <soroban_sdk::Address as Clone>::clone ](a: &soroban_sdk::Address) -> (r: soroban_sdk::Address)
    ensures
        r == *a,
;

} // verus!
