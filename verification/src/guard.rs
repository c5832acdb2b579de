//! Custody guard: the pure predicate checks every handler runs before
//! it mutates anything.
//!
//! Each check is side-effect-free and reports one specific error, so a
//! handler can evaluate its whole guard chain first and only then act.

use vstd::prelude::*;

use crate::errors::{AuthorizationError, EngineError, ValidationError};
use crate::model::Record;

verus! {

/// Byte-for-byte equality of two identities (or any two byte strings).
pub fn identities_equal(a: &Vec<u8>, b: &Vec<u8>) -> (r: bool)
    ensures
        r <==> a@ == b@,
{
    let n = a.len();
    if n != b.len() {
        assert(a@.len() != b@.len());
        return false;
    }
    let mut i: usize = 0;
    while i < n
        invariant
            n == a@.len() && n == b@.len(),
            i <= n,
            forall|j: int| 0 <= j < i ==> a@[j] == b@[j],
        decreases n - i,
    {
        if a[i] != b[i] {
            return false;
        }
        i = i + 1;
    }
    proof {
        assert(a@ =~= b@);
    }
    true
}

/// The record must be owned by `expected_owner` (the program) before
/// anything is written into it.
pub fn assert_owned_by(record: &Record, expected_owner: &Vec<u8>) -> (r: Result<(), EngineError>)
    ensures
        r matches Ok(..) <==> record@.owner == expected_owner@,
        r matches Err(e) ==> e == EngineError::Authorization(AuthorizationError::NotOwned),
{
    if identities_equal(&record.owner, expected_owner) {
        Ok(())
    } else {
        Err(EngineError::Authorization(AuthorizationError::NotOwned))
    }
}

/// The record's holder must have cryptographically authorized this
/// request.
pub fn assert_signed(record: &Record) -> (r: Result<(), EngineError>)
    ensures
        r matches Ok(..) <==> record@.is_signer,
        r matches Err(e) ==> e == EngineError::Authorization(AuthorizationError::MissingSignature),
{
    if record.is_signer {
        Ok(())
    } else {
        Err(EngineError::Authorization(AuthorizationError::MissingSignature))
    }
}

/// The record must retain at least the externally computed minimum
/// balance to stay viable in the host environment.
pub fn assert_min_balance(record: &Record, minimum: u64) -> (r: Result<(), EngineError>)
    ensures
        r matches Ok(..) <==> record@.balance >= minimum,
        r matches Err(e) ==> e == EngineError::InsufficientFunds,
{
    if record.balance >= minimum {
        Ok(())
    } else {
        Err(EngineError::InsufficientFunds)
    }
}

/// Two identities that must agree (declared creator vs. actual signer,
/// wager's market reference vs. the market's address) must be equal.
pub fn assert_identity_match(a: &Vec<u8>, b: &Vec<u8>) -> (r: Result<(), EngineError>)
    ensures
        r matches Ok(..) <==> a@ == b@,
        r matches Err(e) ==> e == EngineError::Validation(ValidationError::IdentityMismatch),
{
    if identities_equal(a, b) {
        Ok(())
    } else {
        Err(EngineError::Validation(ValidationError::IdentityMismatch))
    }
}

} // verus!
