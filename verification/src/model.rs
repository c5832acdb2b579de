//! Data model of the wagering market: the market state, one wager,
//! the two-flag outcome, and the storage-record handle the host lends
//! to each handler call.
//!
//! Each executable type has a mathematical view (`...V`) over `Seq<u8>`
//! and plain values; every contract in the crate speaks of those views.

use vstd::prelude::*;

verus! {

/// A 32-byte identity (a public key in the host environment).
pub type Identity = Vec<u8>;

/// The two-flag result of a market: at most one side may win.
///
/// `{false, false}` is unsettled; exactly one flag true is a settled,
/// resolved market; both flags true is invalid and never written by a
/// handler.
#[derive(Clone, Copy, Debug, PartialEq, Eq, Structural)]
pub struct BetOutcome {
    pub party1_result: bool,
    pub party2_result: bool,
}

impl BetOutcome {
    /// A fresh, unsettled outcome: neither side recorded yet.
    pub fn new() -> (r: Self)
        ensures
            r == (BetOutcome { party1_result: false, party2_result: false }),
    {
        BetOutcome { party1_result: false, party2_result: false }
    }
}

/// No side recorded yet: wagers may still be placed.
pub open spec fn outcome_unsettled(o: BetOutcome) -> bool {
    !o.party1_result && !o.party2_result
}

/// Exactly one side recorded: the market is settled and immutable.
pub open spec fn outcome_settled(o: BetOutcome) -> bool {
    o.party1_result != o.party2_result
}

/// One market: creator, descriptive text, the three pool counters and
/// the outcome. Held encoded in a program-owned storage record.
#[derive(Clone, Debug, PartialEq, Eq)]
pub struct MarketState {
    pub creator: Identity,
    pub name: Vec<u8>,
    pub description: Vec<u8>,
    pub total_pool: u64,
    pub party1_pool: u64,
    pub party2_pool: u64,
    pub outcome: BetOutcome,
}

/// Mathematical view of [`MarketState`].
#[verifier::ext_equal]
pub struct MarketStateV {
    pub creator: Seq<u8>,
    pub name: Seq<u8>,
    pub description: Seq<u8>,
    pub total_pool: u64,
    pub party1_pool: u64,
    pub party2_pool: u64,
    pub outcome: BetOutcome,
}

impl View for MarketState {
    type V = MarketStateV;

    open spec fn view(&self) -> MarketStateV {
        MarketStateV {
            creator: self.creator@,
            name: self.name@,
            description: self.description@,
            total_pool: self.total_pool,
            party1_pool: self.party1_pool,
            party2_pool: self.party2_pool,
            outcome: self.outcome,
        }
    }
}

/// Structural well-formedness of a market value: a 32-byte creator
/// identity and text fields whose byte length fits the encoding's
/// 32-bit length prefix.
pub open spec fn wf_market(m: MarketStateV) -> bool {
    &&& m.creator.len() == 32
    &&& m.name.len() <= u32::MAX
    &&& m.description.len() <= u32::MAX
}

/// A market value the engine accepts at creation: well-formed, with a
/// name of at least 5 bytes and a description of at least 10.
pub open spec fn valid_market(m: MarketStateV) -> bool {
    &&& wf_market(m)
    &&& m.name.len() >= 5
    &&& m.description.len() >= 10
}

/// The accounting invariant every successful handler call preserves.
pub open spec fn pools_consistent(m: MarketStateV) -> bool {
    m.total_pool == m.party1_pool + m.party2_pool
}

/// One participant's wager: who placed it, against which market, how
/// much, which side it backs, and whether its winnings were paid out.
#[derive(Clone, Debug, PartialEq, Eq)]
pub struct WagerRecord {
    pub bettor: Identity,
    pub amount: u64,
    pub market_ref: Identity,
    pub party1: bool,
    pub party2: bool,
    pub claimed: bool,
}

/// Mathematical view of [`WagerRecord`].
#[verifier::ext_equal]
pub struct WagerV {
    pub bettor: Seq<u8>,
    pub amount: u64,
    pub market_ref: Seq<u8>,
    pub party1: bool,
    pub party2: bool,
    pub claimed: bool,
}

impl View for WagerRecord {
    type V = WagerV;

    open spec fn view(&self) -> WagerV {
        WagerV {
            bettor: self.bettor@,
            amount: self.amount,
            market_ref: self.market_ref@,
            party1: self.party1,
            party2: self.party2,
            claimed: self.claimed,
        }
    }
}

/// Structural well-formedness of a wager value: 32-byte identities.
pub open spec fn wf_wager(w: WagerV) -> bool {
    &&& w.bettor.len() == 32
    &&& w.market_ref.len() == 32
}

/// A wager must back exactly one of the two sides.
pub open spec fn exactly_one_side(w: WagerV) -> bool {
    w.party1 != w.party2
}

/// A storage record as the host lends it to one handler call: an
/// address, an owner, whether its holder authorized this request, a
/// retained balance, and a fixed-size data buffer.
///
/// The engine never holds a record across handler boundaries; it reads,
/// validates everything, and writes each record back at most once.
#[derive(Clone, Debug, PartialEq, Eq)]
pub struct Record {
    pub key: Identity,
    pub owner: Identity,
    pub is_signer: bool,
    pub balance: u64,
    pub data: Vec<u8>,
}

/// Mathematical view of [`Record`].
#[verifier::ext_equal]
pub struct RecordV {
    pub key: Seq<u8>,
    pub owner: Seq<u8>,
    pub is_signer: bool,
    pub balance: u64,
    pub data: Seq<u8>,
}

impl View for Record {
    type V = RecordV;

    open spec fn view(&self) -> RecordV {
        RecordV {
            key: self.key@,
            owner: self.owner@,
            is_signer: self.is_signer,
            balance: self.balance,
            data: self.data@,
        }
    }
}

} // verus!
