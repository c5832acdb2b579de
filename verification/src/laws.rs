//! Laws of the lifecycle engine that span more than one call: the
//! accounting invariant over any sequence of successful wagers, and
//! the exact rejections the creation guard chain owes.

use vstd::prelude::*;

use crate::codec::dec_market;
use crate::engine::{create_check, wager_step};
use crate::errors::{AuthorizationError, EngineError, ValidationError};
use crate::model::{MarketStateV, RecordV, pools_consistent};

verus! {

/// The sum of the amounts of a sequence of wagers, each an amount and
/// the side it backs.
pub open spec fn sum_amounts(ws: Seq<(u64, bool)>) -> int
    decreases ws.len(),
{
    if ws.len() == 0 {
        0
    } else {
        sum_amounts(ws.drop_last()) + ws.last().0
    }
}

/// The sum restricted to the wagers backing one side.
pub open spec fn side_sum(ws: Seq<(u64, bool)>, backs_party1: bool) -> int
    decreases ws.len(),
{
    if ws.len() == 0 {
        0
    } else {
        side_sum(ws.drop_last(), backs_party1) + if ws.last().1 == backs_party1 {
            ws.last().0 as int
        } else {
            0
        }
    }
}

/// The market state after a sequence of successful wagers, each
/// applied exactly as `place_wager`'s contract states.
pub open spec fn market_after(m0: MarketStateV, ws: Seq<(u64, bool)>) -> MarketStateV
    decreases ws.len(),
{
    if ws.len() == 0 {
        m0
    } else {
        wager_step(market_after(m0, ws.drop_last()), ws.last().0, ws.last().1)
    }
}

/// Pool accounting over a whole market history. Starting from a
/// freshly created market (all pools zero), after any sequence of
/// successful wagers — each an amount and the side it backs, applied
/// exactly as `place_wager`'s contract states — the total pool equals
/// the sum of all wagered amounts, each side's pool equals the sum
/// restricted to that side, and the total is the sum of the two
/// sides.
pub proof fn lemma_pool_accounting(m0: MarketStateV, ws: Seq<(u64, bool)>)
    requires
        m0.total_pool == 0,
        m0.party1_pool == 0,
        m0.party2_pool == 0,
        sum_amounts(ws) <= u64::MAX,
    ensures
        market_after(m0, ws).total_pool == sum_amounts(ws),
        market_after(m0, ws).party1_pool == side_sum(ws, true),
        market_after(m0, ws).party2_pool == side_sum(ws, false),
        pools_consistent(market_after(m0, ws)),
    decreases ws.len(),
{
    if ws.len() > 0 {
        lemma_pool_accounting(m0, ws.drop_last());
    }
}

/// A creation request whose decoded name is shorter than 5 bytes is
/// rejected with the short-field validation error — and
/// `create_market`'s contract then guarantees the record's buffer
/// stays byte-for-byte what it was.
pub proof fn lemma_short_name_rejected(
    program_id: Seq<u8>,
    market: RecordV,
    creator: RecordV,
    payload: Seq<u8>,
    min_balance: u64,
)
    requires
        market.owner == program_id,
        creator.is_signer,
        dec_market(payload) matches Some(m) && m.creator == creator.key && m.name.len() < 5,
    ensures
        create_check(program_id, market, creator, payload, min_balance)
            == Err::<MarketStateV, EngineError>(EngineError::Validation(
            ValidationError::FieldTooShort)),
{
}

/// A creation request whose creator record did not sign is rejected
/// with the missing-signature authorization error, whatever the
/// payload holds — and the handler's contract then guarantees no
/// write happens.
pub proof fn lemma_unsigned_create_rejected(
    program_id: Seq<u8>,
    market: RecordV,
    creator: RecordV,
    payload: Seq<u8>,
    min_balance: u64,
)
    requires
        market.owner == program_id,
        !creator.is_signer,
    ensures
        create_check(program_id, market, creator, payload, min_balance)
            == Err::<MarketStateV, EngineError>(EngineError::Authorization(
            AuthorizationError::MissingSignature)),
{
}

} // verus!
