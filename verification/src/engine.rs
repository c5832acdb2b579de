//! Market lifecycle engine: the four guarded state transitions.
//!
//! Each handler validates everything — custody guard checks, decoding,
//! arithmetic and buffer capacity — before it mutates a single byte,
//! then performs its whole effect and one write-back per record. A
//! handler that returns an error leaves every record it was lent
//! byte-for-byte unchanged.
//!
//! The decision chain of each handler is written down once, as a spec
//! function (`create_check`, `place_check`, `settle_check`,
//! `claim_check`); the handler's contract says that it returns exactly
//! the error that chain picks, or performs exactly the effect it
//! allows.

use vstd::prelude::*;

use crate::codec::{decode_market, decode_outcome, decode_wager, encode_market, encode_wager,
    write_prefix};
use crate::codec::{dec_market, dec_outcome, dec_wager, enc_market, enc_wager, stored};
use crate::codec::{lemma_dec_market_wf, lemma_dec_wager_wf, lemma_market_round_trip,
    lemma_wager_round_trip};
use crate::errors::{AuthorizationError, EngineError, ValidationError};
use crate::guard::{assert_identity_match, assert_min_balance, assert_owned_by, assert_signed};
use crate::model::{BetOutcome, MarketState, MarketStateV, Record, RecordV, WagerRecord, WagerV};
use crate::model::{exactly_one_side, outcome_settled, outcome_unsettled, pools_consistent,
    valid_market};

verus! {

// ---------------------------------------------------------------------
// CreateMarket
// ---------------------------------------------------------------------

/// The market value actually written at creation: the payload's
/// identity and text, with empty pools and an unsettled outcome.
pub open spec fn fresh_market(m: MarketStateV) -> MarketStateV {
    MarketStateV {
        total_pool: 0u64,
        party1_pool: 0u64,
        party2_pool: 0u64,
        outcome: BetOutcome { party1_result: false, party2_result: false },
        ..m
    }
}

/// The decision chain of `CreateMarket`: either the market value to
/// write, or the one error the call reports.
pub open spec fn create_check(
    program_id: Seq<u8>,
    market: RecordV,
    creator: RecordV,
    payload: Seq<u8>,
    min_balance: u64,
) -> Result<MarketStateV, EngineError> {
    if market.owner != program_id {
        Err(EngineError::Authorization(AuthorizationError::NotOwned))
    } else if !creator.is_signer {
        Err(EngineError::Authorization(AuthorizationError::MissingSignature))
    } else {
        match dec_market(payload) {
            None => Err(EngineError::Decode),
            Some(m) => if m.creator != creator.key {
                Err(EngineError::Validation(ValidationError::IdentityMismatch))
            } else if m.name.len() < 5 {
                Err(EngineError::Validation(ValidationError::FieldTooShort))
            } else if m.description.len() < 10 {
                Err(EngineError::Validation(ValidationError::FieldTooShort))
            } else if market.balance < min_balance {
                Err(EngineError::InsufficientFunds)
            } else if enc_market(fresh_market(m)).len() > market.data.len() {
                Err(EngineError::Encode)
            } else {
                Ok(fresh_market(m))
            },
        }
    }
}

/// Full behaviour of `create_market`: on the chain's error, that error
/// and an untouched record; otherwise the fresh market encoded over
/// the front of the record's buffer, and nothing else changed.
pub open spec fn create_post(
    program_id: Seq<u8>,
    market0: RecordV,
    market1: RecordV,
    creator: RecordV,
    payload: Seq<u8>,
    min_balance: u64,
    r: Result<(), EngineError>,
) -> bool {
    match create_check(program_id, market0, creator, payload, min_balance) {
        Ok(m2) => r is Ok && market1 == (RecordV {
            data: stored(market0.data, enc_market(m2)),
            ..market0
        }),
        Err(e) => r == Err::<(), EngineError>(e) && market1 == market0,
    }
}

/// Creates a market: transitions the lent storage record from
/// uninitialized to open, holding the payload's creator, name and
/// description with all pools zero and an unsettled outcome.
pub fn create_market(
    program_id: &Vec<u8>,
    market: &mut Record,
    creator: &Record,
    payload: &Vec<u8>,
    min_balance: u64,
) -> (r: Result<(), EngineError>)
    ensures
        create_post(program_id@, old(market)@, final(market)@, creator@, payload@, min_balance, r),
        r matches Ok(..) ==> (dec_market(final(market)@.data) matches Some(m2) && m2.total_pool
            == 0 && m2.party1_pool == 0 && m2.party2_pool == 0 && !m2.outcome.party1_result
            && !m2.outcome.party2_result && valid_market(m2) && pools_consistent(m2)),
{
    if let Err(e) = assert_owned_by(market, program_id) {
        return Err(e);
    }
    if let Err(e) = assert_signed(creator) {
        return Err(e);
    }
    let provisional = match decode_market(payload) {
        Ok(m) => m,
        Err(e) => { return Err(e); },
    };
    if let Err(e) = assert_identity_match(&provisional.creator, &creator.key) {
        return Err(e);
    }
    if provisional.name.len() < 5 {
        return Err(EngineError::Validation(ValidationError::FieldTooShort));
    }
    if provisional.description.len() < 10 {
        return Err(EngineError::Validation(ValidationError::FieldTooShort));
    }
    if let Err(e) = assert_min_balance(market, min_balance) {
        return Err(e);
    }
    let state = MarketState {
        creator: provisional.creator,
        name: provisional.name,
        description: provisional.description,
        total_pool: 0,
        party1_pool: 0,
        party2_pool: 0,
        outcome: BetOutcome::new(),
    };
    proof {
        lemma_dec_market_wf(payload@);
        assert(state@ =~= fresh_market(dec_market(payload@)->Some_0));
    }
    let enc = encode_market(&state);
    if enc.len() > market.data.len() {
        return Err(EngineError::Encode);
    }
    write_prefix(&mut market.data, &enc);
    proof {
        lemma_market_round_trip(state@, old(market)@.data.skip(enc@.len() as int));
        assert(market@ =~= (RecordV {
            data: stored(old(market)@.data, enc_market(state@)),
            ..old(market)@
        }));
    }
    Ok(())
}

// ---------------------------------------------------------------------
// PlaceWager
// ---------------------------------------------------------------------

/// What a successful `PlaceWager` writes: the incremented market
/// state, the wager as stored, and the amount moved out of the
/// funding record.
#[verifier::ext_equal]
pub struct PlacedEffect {
    pub market_state: MarketStateV,
    pub wager_state: WagerV,
    pub amount: u64,
}

/// One wager's effect on the market's bookkeeping: the total pool and
/// the backed side's pool grow by the amount, nothing else moves.
pub open spec fn wager_step(m: MarketStateV, amount: u64, backs_party1: bool) -> MarketStateV {
    MarketStateV {
        total_pool: (m.total_pool + amount) as u64,
        party1_pool: if backs_party1 {
            (m.party1_pool + amount) as u64
        } else {
            m.party1_pool
        },
        party2_pool: if backs_party1 {
            m.party2_pool
        } else {
            (m.party2_pool + amount) as u64
        },
        ..m
    }
}

/// The decision chain of `PlaceWager`.
pub open spec fn place_check(
    program_id: Seq<u8>,
    market: RecordV,
    funding: RecordV,
    wager: RecordV,
    bettor: RecordV,
    payload: Seq<u8>,
    min_balance: u64,
) -> Result<PlacedEffect, EngineError> {
    if market.owner != program_id {
        Err(EngineError::Authorization(AuthorizationError::NotOwned))
    } else if !bettor.is_signer {
        Err(EngineError::Authorization(AuthorizationError::MissingSignature))
    } else {
        match dec_wager(payload) {
            None => Err(EngineError::Decode),
            Some(w) => if !exactly_one_side(w) {
                Err(EngineError::Validation(ValidationError::AmbiguousSide))
            } else if w.market_ref != market.key {
                Err(EngineError::Validation(ValidationError::IdentityMismatch))
            } else {
                match dec_market(market.data) {
                    None => Err(EngineError::Decode),
                    Some(m) => if !outcome_unsettled(m.outcome) {
                        Err(EngineError::Validation(ValidationError::AlreadySettled))
                    } else if wager.balance < min_balance {
                        Err(EngineError::InsufficientFunds)
                    } else if market.balance + funding.balance > u64::MAX {
                        Err(EngineError::Overflow)
                    } else if m.total_pool + funding.balance > u64::MAX {
                        Err(EngineError::Overflow)
                    } else if w.party1 && m.party1_pool + funding.balance > u64::MAX {
                        Err(EngineError::Overflow)
                    } else if !w.party1 && m.party2_pool + funding.balance > u64::MAX {
                        Err(EngineError::Overflow)
                    } else {
                        let m2 = wager_step(m, funding.balance, w.party1);
                        let w2 = WagerV { amount: funding.balance, claimed: false, ..w };
                        if enc_market(m2).len() > market.data.len() {
                            Err(EngineError::Encode)
                        } else if enc_wager(w2).len() > wager.data.len() {
                            Err(EngineError::Encode)
                        } else {
                            Ok(PlacedEffect {
                                market_state: m2,
                                wager_state: w2,
                                amount: funding.balance,
                            })
                        }
                    },
                }
            },
        }
    }
}

/// Full behaviour of `place_wager`: either the chain's error and all
/// three lent records untouched, or — atomically — the funding
/// record's whole balance moved into the market record's custody, the
/// pools incremented, and the wager written, with nothing else
/// changed.
pub open spec fn place_post(
    program_id: Seq<u8>,
    market0: RecordV,
    market1: RecordV,
    funding0: RecordV,
    funding1: RecordV,
    wager0: RecordV,
    wager1: RecordV,
    bettor: RecordV,
    payload: Seq<u8>,
    min_balance: u64,
    r: Result<(), EngineError>,
) -> bool {
    match place_check(program_id, market0, funding0, wager0, bettor, payload, min_balance) {
        Ok(eff) => {
            &&& r is Ok
            &&& market1 == (RecordV {
                balance: (market0.balance + eff.amount) as u64,
                data: stored(market0.data, enc_market(eff.market_state)),
                ..market0
            })
            &&& funding1 == (RecordV { balance: 0u64, ..funding0 })
            &&& wager1 == (RecordV { data: stored(wager0.data, enc_wager(eff.wager_state)), ..wager0 })
        },
        Err(e) => r == Err::<(), EngineError>(e) && market1 == market0 && funding1 == funding0
            && wager1 == wager0,
    }
}

/// Places a wager: moves the funding record's whole balance into the
/// market record's custody, adds it to the total pool and the backed
/// side's pool, and stores the wager.
///
/// Funds conservation: on success the funding record ends at zero and
/// the market record's balance grows by exactly what the funding
/// record held; on any error no balance and no buffer moves at all.
pub fn place_wager(
    program_id: &Vec<u8>,
    market: &mut Record,
    funding: &mut Record,
    wager: &mut Record,
    bettor: &Record,
    payload: &Vec<u8>,
    min_balance: u64,
) -> (r: Result<(), EngineError>)
    ensures
        place_post(program_id@, old(market)@, final(market)@, old(funding)@, final(funding)@,
            old(wager)@, final(wager)@, bettor@, payload@, min_balance, r),
        r matches Ok(..) ==> final(funding)@.balance == 0 && final(market)@.balance
            == old(market)@.balance + old(funding)@.balance,
        r matches Ok(..) ==> (place_check(program_id@, old(market)@, old(funding)@, old(wager)@,
            bettor@, payload@, min_balance) matches Ok(eff) && dec_market(final(market)@.data)
            == Some(eff.market_state) && dec_wager(final(wager)@.data) == Some(eff.wager_state)
            && (dec_market(old(market)@.data) matches Some(m1) && eff.market_state
            == wager_step(m1, old(funding)@.balance, eff.wager_state.party1))),
{
    if let Err(e) = assert_owned_by(market, program_id) {
        return Err(e);
    }
    if let Err(e) = assert_signed(bettor) {
        return Err(e);
    }
    let provisional = match decode_wager(payload) {
        Ok(w) => w,
        Err(e) => { return Err(e); },
    };
    if provisional.party1 == provisional.party2 {
        return Err(EngineError::Validation(ValidationError::AmbiguousSide));
    }
    if let Err(e) = assert_identity_match(&provisional.market_ref, &market.key) {
        return Err(e);
    }
    let state = match decode_market(&market.data) {
        Ok(m) => m,
        Err(e) => { return Err(e); },
    };
    if state.outcome.party1_result || state.outcome.party2_result {
        return Err(EngineError::Validation(ValidationError::AlreadySettled));
    }
    if let Err(e) = assert_min_balance(wager, min_balance) {
        return Err(e);
    }
    let amount = funding.balance;
    if amount > u64::MAX - market.balance {
        return Err(EngineError::Overflow);
    }
    if amount > u64::MAX - state.total_pool {
        return Err(EngineError::Overflow);
    }
    if provisional.party1 && amount > u64::MAX - state.party1_pool {
        return Err(EngineError::Overflow);
    }
    if !provisional.party1 && amount > u64::MAX - state.party2_pool {
        return Err(EngineError::Overflow);
    }
    let new_market = MarketState {
        creator: state.creator,
        name: state.name,
        description: state.description,
        total_pool: state.total_pool + amount,
        party1_pool: if provisional.party1 {
            state.party1_pool + amount
        } else {
            state.party1_pool
        },
        party2_pool: if provisional.party1 {
            state.party2_pool
        } else {
            state.party2_pool + amount
        },
        outcome: state.outcome,
    };
    let new_wager = WagerRecord {
        bettor: provisional.bettor,
        amount,
        market_ref: provisional.market_ref,
        party1: provisional.party1,
        party2: provisional.party2,
        claimed: false,
    };
    proof {
        lemma_dec_market_wf(market@.data);
        lemma_dec_wager_wf(payload@);
        assert(new_market@ =~= wager_step(dec_market(market@.data)->Some_0, amount,
            provisional@.party1));
        assert(new_wager@ =~= (WagerV {
            amount,
            claimed: false,
            ..dec_wager(payload@)->Some_0
        }));
    }
    let enc_m = encode_market(&new_market);
    if enc_m.len() > market.data.len() {
        return Err(EngineError::Encode);
    }
    let enc_w = encode_wager(&new_wager);
    if enc_w.len() > wager.data.len() {
        return Err(EngineError::Encode);
    }
    market.balance = market.balance + amount;
    funding.balance = 0;
    write_prefix(&mut market.data, &enc_m);
    write_prefix(&mut wager.data, &enc_w);
    proof {
        lemma_market_round_trip(new_market@, old(market)@.data.skip(enc_m@.len() as int));
        lemma_wager_round_trip(new_wager@, old(wager)@.data.skip(enc_w@.len() as int));
        assert(market@ =~= (RecordV {
            balance: (old(market)@.balance + amount) as u64,
            data: stored(old(market)@.data, enc_market(new_market@)),
            ..old(market)@
        }));
        assert(funding@ =~= (RecordV { balance: 0u64, ..old(funding)@ }));
        assert(wager@ =~= (RecordV {
            data: stored(old(wager)@.data, enc_wager(new_wager@)),
            ..old(wager)@
        }));
    }
    Ok(())
}

// ---------------------------------------------------------------------
// SettleOutcome
// ---------------------------------------------------------------------

/// The decision chain of `SettleOutcome`: either the settled market
/// value to write, or the one error the call reports.
pub open spec fn settle_check(
    program_id: Seq<u8>,
    market: RecordV,
    authority: RecordV,
    payload: Seq<u8>,
) -> Result<MarketStateV, EngineError> {
    if market.owner != program_id {
        Err(EngineError::Authorization(AuthorizationError::NotOwned))
    } else if !authority.is_signer {
        Err(EngineError::Authorization(AuthorizationError::MissingSignature))
    } else {
        match dec_market(market.data) {
            None => Err(EngineError::Decode),
            Some(m) => if authority.key != m.creator {
                Err(EngineError::Validation(ValidationError::IdentityMismatch))
            } else if !outcome_unsettled(m.outcome) {
                Err(EngineError::Validation(ValidationError::AlreadySettled))
            } else {
                match dec_outcome(payload) {
                    None => Err(EngineError::Decode),
                    Some(o) => if !outcome_settled(o) {
                        Err(EngineError::Validation(ValidationError::AmbiguousSide))
                    } else {
                        let m2 = MarketStateV { outcome: o, ..m };
                        if enc_market(m2).len() > market.data.len() {
                            Err(EngineError::Encode)
                        } else {
                            Ok(m2)
                        }
                    },
                }
            },
        }
    }
}

/// Full behaviour of `settle_outcome`: the chain's error and an
/// untouched record, or the market re-encoded with the proposed
/// outcome and nothing else changed.
pub open spec fn settle_post(
    program_id: Seq<u8>,
    market0: RecordV,
    market1: RecordV,
    authority: RecordV,
    payload: Seq<u8>,
    r: Result<(), EngineError>,
) -> bool {
    match settle_check(program_id, market0, authority, payload) {
        Ok(m2) => r is Ok && market1 == (RecordV {
            data: stored(market0.data, enc_market(m2)),
            ..market0
        }),
        Err(e) => r == Err::<(), EngineError>(e) && market1 == market0,
    }
}

/// Settles a market: records the proposed outcome, which must flag
/// exactly one winning side, and transitions the market from open to
/// settled. Only the market's recorded creator, as a signer, may
/// settle, and only once: a settled outcome is immutable.
pub fn settle_outcome(
    program_id: &Vec<u8>,
    market: &mut Record,
    authority: &Record,
    payload: &Vec<u8>,
) -> (r: Result<(), EngineError>)
    ensures
        settle_post(program_id@, old(market)@, final(market)@, authority@, payload@, r),
        r matches Ok(..) ==> (dec_market(final(market)@.data) matches Some(m2)
            && outcome_settled(m2.outcome) && (dec_market(old(market)@.data) matches Some(m1)
            && m2 == (MarketStateV { outcome: m2.outcome, ..m1 }))),
{
    if let Err(e) = assert_owned_by(market, program_id) {
        return Err(e);
    }
    if let Err(e) = assert_signed(authority) {
        return Err(e);
    }
    let state = match decode_market(&market.data) {
        Ok(m) => m,
        Err(e) => { return Err(e); },
    };
    if let Err(e) = assert_identity_match(&authority.key, &state.creator) {
        return Err(e);
    }
    if state.outcome.party1_result || state.outcome.party2_result {
        return Err(EngineError::Validation(ValidationError::AlreadySettled));
    }
    let proposed = match decode_outcome(payload) {
        Ok(o) => o,
        Err(e) => { return Err(e); },
    };
    if proposed.party1_result == proposed.party2_result {
        return Err(EngineError::Validation(ValidationError::AmbiguousSide));
    }
    let settled = MarketState {
        creator: state.creator,
        name: state.name,
        description: state.description,
        total_pool: state.total_pool,
        party1_pool: state.party1_pool,
        party2_pool: state.party2_pool,
        outcome: proposed,
    };
    proof {
        lemma_dec_market_wf(market@.data);
        assert(settled@ =~= (MarketStateV {
            outcome: proposed,
            ..dec_market(market@.data)->Some_0
        }));
    }
    let enc = encode_market(&settled);
    if enc.len() > market.data.len() {
        return Err(EngineError::Encode);
    }
    write_prefix(&mut market.data, &enc);
    proof {
        lemma_market_round_trip(settled@, old(market)@.data.skip(enc@.len() as int));
        assert(market@ =~= (RecordV {
            data: stored(old(market)@.data, enc_market(settled@)),
            ..old(market)@
        }));
    }
    Ok(())
}

// ---------------------------------------------------------------------
// ClaimWinnings
// ---------------------------------------------------------------------

/// What a successful `ClaimWinnings` does: the share paid out and the
/// wager as re-stored, marked claimed.
#[verifier::ext_equal]
pub struct ClaimEffect {
    pub payout_amount: u64,
    pub wager_state: WagerV,
}

/// The integer pool-share a winning wager is owed: its amount times
/// the whole pool divided by the winning side's pool.
pub open spec fn payout_share(amount: u64, total_pool: u64, winning_pool: u64) -> int {
    amount * (total_pool as int / winning_pool as int)
}

/// The decision chain of `ClaimWinnings`.
pub open spec fn claim_check(
    program_id: Seq<u8>,
    market: RecordV,
    wager: RecordV,
    payout: RecordV,
    claimant: RecordV,
) -> Result<ClaimEffect, EngineError> {
    if market.owner != program_id {
        Err(EngineError::Authorization(AuthorizationError::NotOwned))
    } else if wager.owner != program_id {
        Err(EngineError::Authorization(AuthorizationError::NotOwned))
    } else if !claimant.is_signer {
        Err(EngineError::Authorization(AuthorizationError::MissingSignature))
    } else {
        match dec_market(market.data) {
            None => Err(EngineError::Decode),
            Some(m) => {
                match dec_wager(wager.data) {
                    None => Err(EngineError::Decode),
                    Some(w) => if outcome_unsettled(m.outcome) {
                        Err(EngineError::Validation(ValidationError::NotSettled))
                    } else if !outcome_settled(m.outcome) {
                        Err(EngineError::Validation(ValidationError::AmbiguousSide))
                    } else if w.bettor != claimant.key {
                        Err(EngineError::Validation(ValidationError::IdentityMismatch))
                    } else if w.market_ref != market.key {
                        Err(EngineError::Validation(ValidationError::IdentityMismatch))
                    } else if !exactly_one_side(w) {
                        Err(EngineError::Validation(ValidationError::AmbiguousSide))
                    } else if w.claimed {
                        Err(EngineError::Validation(ValidationError::AlreadyClaimed))
                    } else if w.party1 != m.outcome.party1_result {
                        Err(EngineError::Validation(ValidationError::LosingWager))
                    } else {
                        let winning_pool = if m.outcome.party1_result {
                            m.party1_pool
                        } else {
                            m.party2_pool
                        };
                        if winning_pool == 0 {
                            Err(EngineError::Validation(ValidationError::LosingWager))
                        } else {
                            let share = payout_share(w.amount, m.total_pool, winning_pool);
                            if share > u64::MAX {
                                Err(EngineError::Overflow)
                            } else if share > market.balance {
                                Err(EngineError::InsufficientFunds)
                            } else if payout.balance + share > u64::MAX {
                                Err(EngineError::Overflow)
                            } else {
                                let w2 = WagerV { claimed: true, ..w };
                                if enc_wager(w2).len() > wager.data.len() {
                                    Err(EngineError::Encode)
                                } else {
                                    Ok(ClaimEffect {
                                        payout_amount: share as u64,
                                        wager_state: w2,
                                    })
                                }
                            }
                        }
                    },
                }
            },
        }
    }
}

/// Full behaviour of `claim_winnings`: the chain's error and all
/// three lent records untouched, or — atomically — the share moved
/// from the market record's custody to the payout record, the wager
/// re-stored marked claimed, and nothing else changed.
pub open spec fn claim_post(
    program_id: Seq<u8>,
    market0: RecordV,
    market1: RecordV,
    wager0: RecordV,
    wager1: RecordV,
    payout0: RecordV,
    payout1: RecordV,
    claimant: RecordV,
    r: Result<(), EngineError>,
) -> bool {
    match claim_check(program_id, market0, wager0, payout0, claimant) {
        Ok(eff) => {
            &&& r is Ok
            &&& market1 == (RecordV {
                balance: (market0.balance - eff.payout_amount) as u64,
                ..market0
            })
            &&& wager1 == (RecordV { data: stored(wager0.data, enc_wager(eff.wager_state)), ..wager0 })
            &&& payout1 == (RecordV {
                balance: (payout0.balance + eff.payout_amount) as u64,
                ..payout0
            })
        },
        Err(e) => r == Err::<(), EngineError>(e) && market1 == market0 && wager1 == wager0
            && payout1 == payout0,
    }
}

/// Pays a winning wager its integer pool share, moving that amount
/// from the market record's custody to the payout record, and marks
/// the wager claimed so a second claim is rejected.
///
/// Funds conservation: on success the market record's balance drops by
/// exactly what the payout record gains; on any error nothing moves.
pub fn claim_winnings(
    program_id: &Vec<u8>,
    market: &mut Record,
    wager: &mut Record,
    payout: &mut Record,
    claimant: &Record,
) -> (r: Result<(), EngineError>)
    ensures
        claim_post(program_id@, old(market)@, final(market)@, old(wager)@, final(wager)@,
            old(payout)@, final(payout)@, claimant@, r),
        r matches Ok(..) ==> old(market)@.balance + old(payout)@.balance
            == final(market)@.balance + final(payout)@.balance,
        r matches Ok(..) ==> (dec_wager(final(wager)@.data) matches Some(w2) && w2.claimed),
{
    if let Err(e) = assert_owned_by(market, program_id) {
        return Err(e);
    }
    if let Err(e) = assert_owned_by(wager, program_id) {
        return Err(e);
    }
    if let Err(e) = assert_signed(claimant) {
        return Err(e);
    }
    let state = match decode_market(&market.data) {
        Ok(m) => m,
        Err(e) => { return Err(e); },
    };
    let placed = match decode_wager(&wager.data) {
        Ok(w) => w,
        Err(e) => { return Err(e); },
    };
    if !state.outcome.party1_result && !state.outcome.party2_result {
        return Err(EngineError::Validation(ValidationError::NotSettled));
    }
    if state.outcome.party1_result && state.outcome.party2_result {
        return Err(EngineError::Validation(ValidationError::AmbiguousSide));
    }
    if let Err(e) = assert_identity_match(&placed.bettor, &claimant.key) {
        return Err(e);
    }
    if let Err(e) = assert_identity_match(&placed.market_ref, &market.key) {
        return Err(e);
    }
    if placed.party1 == placed.party2 {
        return Err(EngineError::Validation(ValidationError::AmbiguousSide));
    }
    if placed.claimed {
        return Err(EngineError::Validation(ValidationError::AlreadyClaimed));
    }
    if placed.party1 != state.outcome.party1_result {
        return Err(EngineError::Validation(ValidationError::LosingWager));
    }
    let winning_pool = if state.outcome.party1_result {
        state.party1_pool
    } else {
        state.party2_pool
    };
    if winning_pool == 0 {
        return Err(EngineError::Validation(ValidationError::LosingWager));
    }
    let quotient = state.total_pool / winning_pool;
    proof {
        assert(quotient == state@.total_pool as int / winning_pool as int);
    }
    if quotient != 0 && placed.amount > u64::MAX / quotient {
        proof {
            assert(placed@.amount * quotient > u64::MAX) by (nonlinear_arith)
                requires
                    quotient > 0,
                    placed@.amount > u64::MAX as int / quotient as int,
            ;
        }
        return Err(EngineError::Overflow);
    }
    proof {
        assert(placed@.amount * quotient <= u64::MAX) by (nonlinear_arith)
            requires
                quotient == 0 || (quotient > 0 && placed@.amount <= u64::MAX as int
                    / quotient as int),
        ;
    }
    let share = placed.amount * quotient;
    if share > market.balance {
        return Err(EngineError::InsufficientFunds);
    }
    if share > u64::MAX - payout.balance {
        return Err(EngineError::Overflow);
    }
    let claimed_wager = WagerRecord {
        bettor: placed.bettor,
        amount: placed.amount,
        market_ref: placed.market_ref,
        party1: placed.party1,
        party2: placed.party2,
        claimed: true,
    };
    proof {
        lemma_dec_wager_wf(wager@.data);
        assert(claimed_wager@ =~= (WagerV { claimed: true, ..dec_wager(wager@.data)->Some_0 }));
    }
    let enc_w = encode_wager(&claimed_wager);
    if enc_w.len() > wager.data.len() {
        return Err(EngineError::Encode);
    }
    market.balance = market.balance - share;
    payout.balance = payout.balance + share;
    write_prefix(&mut wager.data, &enc_w);
    proof {
        lemma_wager_round_trip(claimed_wager@, old(wager)@.data.skip(enc_w@.len() as int));
        assert(market@ =~= (RecordV {
            balance: (old(market)@.balance - share) as u64,
            ..old(market)@
        }));
        assert(payout@ =~= (RecordV {
            balance: (old(payout)@.balance + share) as u64,
            ..old(payout)@
        }));
        assert(wager@ =~= (RecordV {
            data: stored(old(wager)@.data, enc_wager(claimed_wager@)),
            ..old(wager)@
        }));
    }
    Ok(())
}

} // verus!
