//! Request router: decodes the leading opcode byte of a raw request,
//! forwards the remaining bytes verbatim as the handler's payload, and
//! dispatches to the matching lifecycle handler.
//!
//! The four storage records are passed positionally; each opcode reads
//! the roles it needs and leaves the others untouched. Opcode 0 is
//! `CreateMarket` (records: market, signer), 1 is `PlaceWager`
//! (market, funding, wager, signer), 2 is `SettleOutcome` (market,
//! signer), 3 is `ClaimWinnings` (market, wager, payout, signer); an
//! empty request or any other opcode is rejected before dispatch and
//! no record is touched.

use vstd::prelude::*;

use crate::codec::read_bytes;
use crate::engine::{claim_post, create_post, place_post, settle_post};
use crate::engine::{claim_winnings, create_market, place_wager, settle_outcome};
use crate::errors::{EngineError, ValidationError};
use crate::model::Record;

verus! {

/// Copies the request's payload: everything after the opcode byte.
fn tail_of(request: &Vec<u8>) -> (r: Vec<u8>)
    requires
        request@.len() >= 1,
    ensures
        r@ == request@.skip(1),
{
    let n = request.len();
    let t = read_bytes(request, 1, n - 1);
    assert(request@.subrange(1, n as int) =~= request@.skip(1));
    t
}

/// Dispatches one raw request against the four lent records.
///
/// The contract below is the router's whole behaviour: which handler
/// runs for which opcode, that the payload is forwarded verbatim, that
/// an empty request and an unknown opcode are rejected with their
/// specific errors, and that records a handler does not use — or any
/// record, on a rejection — come back unchanged.
pub fn route(
    program_id: &Vec<u8>,
    primary: &mut Record,
    second: &mut Record,
    third: &mut Record,
    signer: &Record,
    request: &Vec<u8>,
    min_balance: u64,
) -> (r: Result<(), EngineError>)
    ensures
        request@.len() == 0 ==> r == Err::<(), EngineError>(EngineError::Validation(
            ValidationError::EmptyRequest)) && final(primary)@ == old(primary)@ && final(second)@
            == old(second)@ && final(third)@ == old(third)@,
        request@.len() >= 1 && request@[0] == 0 ==> create_post(program_id@, old(primary)@,
            final(primary)@, signer@, request@.skip(1), min_balance, r) && final(second)@
            == old(second)@ && final(third)@ == old(third)@,
        request@.len() >= 1 && request@[0] == 1 ==> place_post(program_id@, old(primary)@,
            final(primary)@, old(second)@, final(second)@, old(third)@, final(third)@, signer@,
            request@.skip(1), min_balance, r),
        request@.len() >= 1 && request@[0] == 2 ==> settle_post(program_id@, old(primary)@,
            final(primary)@, signer@, request@.skip(1), r) && final(second)@ == old(second)@
            && final(third)@ == old(third)@,
        request@.len() >= 1 && request@[0] == 3 ==> claim_post(program_id@, old(primary)@,
            final(primary)@, old(second)@, final(second)@, old(third)@, final(third)@, signer@,
            r),
        request@.len() >= 1 && request@[0] > 3 ==> r == Err::<(), EngineError>(
            EngineError::Validation(ValidationError::UnknownOpcode)) && final(primary)@
            == old(primary)@ && final(second)@ == old(second)@ && final(third)@ == old(third)@,
{
    if request.len() == 0 {
        return Err(EngineError::Validation(ValidationError::EmptyRequest));
    }
    let opcode = request[0];
    if opcode > 3 {
        return Err(EngineError::Validation(ValidationError::UnknownOpcode));
    }
    let payload = tail_of(request);
    if opcode == 0 {
        create_market(program_id, primary, signer, &payload, min_balance)
    } else if opcode == 1 {
        place_wager(program_id, primary, second, third, signer, &payload, min_balance)
    } else if opcode == 2 {
        settle_outcome(program_id, primary, signer, &payload)
    } else {
        claim_winnings(program_id, primary, second, third, signer)
    }
}

} // verus!
