//! Deterministic binary codec for market and wager records.
//!
//! The encoding is fixed: identities as raw 32 bytes, integers
//! little-endian, text length-prefixed by a little-endian `u32`, bools
//! as one byte that must be `0` or `1`. Decoding reads a prefix of the
//! buffer and fails on truncated or malformed input; trailing bytes
//! (the unused tail of a fixed-size storage buffer) are ignored.
//!
//! The round-trip law `decode(encode(x)) == x` is proved here for both
//! record kinds, and in the stronger form needed by the engine: it
//! still holds after the encoding is written over the front of a
//! larger buffer.

use vstd::prelude::*;

use crate::errors::EngineError;
use crate::model::{BetOutcome, MarketState, MarketStateV, WagerRecord, WagerV};
use crate::model::{wf_market, wf_wager};

verus! {

// ---------------------------------------------------------------------
// Specification of the encoding
// ---------------------------------------------------------------------

/// Little-endian encoding of a `u32`.
pub open spec fn enc_u32(x: u32) -> Seq<u8> {
    seq![x as u8, (x >> 8) as u8, (x >> 16) as u8, (x >> 24) as u8]
}

/// Little-endian encoding of a `u64`.
pub open spec fn enc_u64(x: u64) -> Seq<u8> {
    seq![
        x as u8,
        (x >> 8) as u8,
        (x >> 16) as u8,
        (x >> 24) as u8,
        (x >> 32) as u8,
        (x >> 40) as u8,
        (x >> 48) as u8,
        (x >> 56) as u8,
    ]
}

/// One-byte encoding of a bool.
pub open spec fn enc_bool(b: bool) -> Seq<u8> {
    seq![if b { 1u8 } else { 0u8 }]
}

/// The `u32` read little-endian from a 4-byte sequence.
pub open spec fn le_u32(s: Seq<u8>) -> u32 {
    ((s[0] as u32) | ((s[1] as u32) << 8) | ((s[2] as u32) << 16) | ((s[3] as u32) << 24)) as u32
}

/// The `u64` read little-endian from an 8-byte sequence.
pub open spec fn le_u64(s: Seq<u8>) -> u64 {
    ((s[0] as u64) | ((s[1] as u64) << 8) | ((s[2] as u64) << 16) | ((s[3] as u64) << 24)
        | ((s[4] as u64) << 32) | ((s[5] as u64) << 40) | ((s[6] as u64) << 48)
        | ((s[7] as u64) << 56)) as u64
}

/// Encoding of a whole market value: creator, length-prefixed name and
/// description, the three pools, the two outcome flags.
pub open spec fn enc_market(m: MarketStateV) -> Seq<u8> {
    m.creator + enc_u32(m.name.len() as u32) + m.name + enc_u32(m.description.len() as u32)
        + m.description + enc_u64(m.total_pool) + enc_u64(m.party1_pool)
        + enc_u64(m.party2_pool) + enc_bool(m.outcome.party1_result)
        + enc_bool(m.outcome.party2_result)
}

/// Encoding of a whole wager value: bettor, amount, market reference,
/// the two side flags, the claimed flag. Always 75 bytes.
pub open spec fn enc_wager(w: WagerV) -> Seq<u8> {
    w.bettor + enc_u64(w.amount) + w.market_ref + enc_bool(w.party1) + enc_bool(w.party2)
        + enc_bool(w.claimed)
}

/// Decoding of a market value from a prefix of `s`; `None` on a buffer
/// too short for the fixed fields, a length prefix overrunning the
/// remaining bytes, or an outcome byte other than 0 or 1.
pub open spec fn dec_market(s: Seq<u8>) -> Option<MarketStateV> {
    if s.len() < 36 {
        None
    } else {
        let creator = s.subrange(0, 32);
        let nlen = le_u32(s.subrange(32, 36)) as int;
        if s.len() < 40 + nlen {
            None
        } else {
            let name = s.subrange(36, 36 + nlen);
            let dl_off = 36 + nlen;
            let dlen = le_u32(s.subrange(dl_off, dl_off + 4)) as int;
            if s.len() < dl_off + 4 + dlen + 26 {
                None
            } else {
                let description = s.subrange(dl_off + 4, dl_off + 4 + dlen);
                let p_off = dl_off + 4 + dlen;
                let b1 = s[p_off + 24];
                let b2 = s[p_off + 25];
                if b1 <= 1 && b2 <= 1 {
                    Some(MarketStateV {
                        creator,
                        name,
                        description,
                        total_pool: le_u64(s.subrange(p_off, p_off + 8)),
                        party1_pool: le_u64(s.subrange(p_off + 8, p_off + 16)),
                        party2_pool: le_u64(s.subrange(p_off + 16, p_off + 24)),
                        outcome: BetOutcome { party1_result: b1 == 1, party2_result: b2 == 1 },
                    })
                } else {
                    None
                }
            }
        }
    }
}

/// Decoding of a wager value from a prefix of `s`.
pub open spec fn dec_wager(s: Seq<u8>) -> Option<WagerV> {
    if s.len() < 75 {
        None
    } else {
        let b1 = s[72];
        let b2 = s[73];
        let bc = s[74];
        if b1 <= 1 && b2 <= 1 && bc <= 1 {
            Some(WagerV {
                bettor: s.subrange(0, 32),
                amount: le_u64(s.subrange(32, 40)),
                market_ref: s.subrange(40, 72),
                party1: b1 == 1,
                party2: b2 == 1,
                claimed: bc == 1,
            })
        } else {
            None
        }
    }
}

/// Decoding of a bare outcome (a settlement payload): two bool bytes.
pub open spec fn dec_outcome(s: Seq<u8>) -> Option<BetOutcome> {
    if s.len() < 2 {
        None
    } else if s[0] <= 1 && s[1] <= 1 {
        Some(BetOutcome { party1_result: s[0] == 1, party2_result: s[1] == 1 })
    } else {
        None
    }
}

/// The bytes of a fixed-size buffer after an encoding is written over
/// its front: the encoding, then the untouched tail.
pub open spec fn stored(data: Seq<u8>, src: Seq<u8>) -> Seq<u8> {
    src + data.skip(src.len() as int)
}

// ---------------------------------------------------------------------
// Round-trip lemmas
// ---------------------------------------------------------------------

/// Reading back the little-endian bytes of a `u32` gives the value.
pub proof fn lemma_le_u32_enc(x: u32)
    ensures
        le_u32(enc_u32(x)) == x,
{
    let s = enc_u32(x);
    assert(s[0] == x as u8 && s[1] == (x >> 8) as u8 && s[2] == (x >> 16) as u8 && s[3] == (x
        >> 24) as u8);
    assert((((x as u8) as u32) | ((((x >> 8) as u8) as u32) << 8) | ((((x >> 16) as u8) as u32)
        << 16) | ((((x >> 24) as u8) as u32) << 24)) as u32 == x) by (bit_vector);
}

/// Reading back the little-endian bytes of a `u64` gives the value.
pub proof fn lemma_le_u64_enc(x: u64)
    ensures
        le_u64(enc_u64(x)) == x,
{
    let s = enc_u64(x);
    assert(s[0] == x as u8 && s[1] == (x >> 8) as u8 && s[2] == (x >> 16) as u8 && s[3] == (x
        >> 24) as u8 && s[4] == (x >> 32) as u8 && s[5] == (x >> 40) as u8 && s[6] == (x
        >> 48) as u8 && s[7] == (x >> 56) as u8);
    assert((((x as u8) as u64) | ((((x >> 8) as u8) as u64) << 8) | ((((x >> 16) as u8) as u64)
        << 16) | ((((x >> 24) as u8) as u64) << 24) | ((((x >> 32) as u8) as u64) << 32) | ((((x
        >> 40) as u8) as u64) << 40) | ((((x >> 48) as u8) as u64) << 48) | ((((x
        >> 56) as u8) as u64) << 56)) as u64 == x) by (bit_vector);
}

/// A decoded market value is well-formed: its creator is 32 bytes and
/// its text lengths came from 32-bit prefixes.
pub proof fn lemma_dec_market_wf(s: Seq<u8>)
    requires
        dec_market(s) is Some,
    ensures
        wf_market(dec_market(s)->Some_0),
{
}

/// A decoded wager value is well-formed.
pub proof fn lemma_dec_wager_wf(s: Seq<u8>)
    requires
        dec_wager(s) is Some,
    ensures
        wf_wager(dec_wager(s)->Some_0),
{
}

/// A decoded market consumed no more than the buffer: its re-encoding
/// fits where it was read from.
pub proof fn lemma_dec_market_len(s: Seq<u8>)
    requires
        dec_market(s) is Some,
    ensures
        enc_market(dec_market(s)->Some_0).len() <= s.len(),
        enc_market(dec_market(s)->Some_0).len() == 66 + (dec_market(s)->Some_0).name.len()
            + (dec_market(s)->Some_0).description.len(),
{
}

/// The length of a wager encoding is always 75 bytes.
pub proof fn lemma_enc_wager_len(w: WagerV)
    requires
        wf_wager(w),
    ensures
        enc_wager(w).len() == 75,
{
}

/// Round-trip law for markets, in the strong form the engine needs:
/// the encoding of a well-formed market, followed by any trailing
/// bytes, decodes back to exactly that market.
pub proof fn lemma_market_round_trip(m: MarketStateV, rest: Seq<u8>)
    requires
        wf_market(m),
    ensures
        dec_market(enc_market(m) + rest) == Some(m),
{
    let e = enc_market(m) + rest;
    let nlen = m.name.len() as int;
    let dlen = m.description.len() as int;
    assert(e.len() == 66 + nlen + dlen + rest.len());
    assert(e.subrange(0, 32) =~= m.creator);
    assert(e.subrange(32, 36) =~= enc_u32(m.name.len() as u32));
    lemma_le_u32_enc(m.name.len() as u32);
    assert(le_u32(e.subrange(32, 36)) as int == nlen);
    assert(e.subrange(36, 36 + nlen) =~= m.name);
    let dl_off = 36 + nlen;
    assert(e.subrange(dl_off, dl_off + 4) =~= enc_u32(m.description.len() as u32));
    lemma_le_u32_enc(m.description.len() as u32);
    assert(le_u32(e.subrange(dl_off, dl_off + 4)) as int == dlen);
    assert(e.subrange(dl_off + 4, dl_off + 4 + dlen) =~= m.description);
    let p_off = dl_off + 4 + dlen;
    assert(e.subrange(p_off, p_off + 8) =~= enc_u64(m.total_pool));
    assert(e.subrange(p_off + 8, p_off + 16) =~= enc_u64(m.party1_pool));
    assert(e.subrange(p_off + 16, p_off + 24) =~= enc_u64(m.party2_pool));
    lemma_le_u64_enc(m.total_pool);
    lemma_le_u64_enc(m.party1_pool);
    lemma_le_u64_enc(m.party2_pool);
    assert(e[p_off + 24] == if m.outcome.party1_result { 1u8 } else { 0u8 });
    assert(e[p_off + 25] == if m.outcome.party2_result { 1u8 } else { 0u8 });
    assert(dec_market(e) matches Some(d) && d =~= m);
}

/// The round-trip law for markets: decoding an encoding gives back
/// exactly the value encoded, for every well-formed market value.
pub proof fn lemma_market_codec_round_trip(m: MarketStateV)
    requires
        wf_market(m),
    ensures
        dec_market(enc_market(m)) == Some(m),
{
    lemma_market_round_trip(m, Seq::empty());
    assert(enc_market(m) + Seq::<u8>::empty() =~= enc_market(m));
}

/// The round-trip law for wagers.
pub proof fn lemma_wager_codec_round_trip(w: WagerV)
    requires
        wf_wager(w),
    ensures
        dec_wager(enc_wager(w)) == Some(w),
{
    lemma_wager_round_trip(w, Seq::empty());
    assert(enc_wager(w) + Seq::<u8>::empty() =~= enc_wager(w));
}

/// Round-trip law for wagers, in the same strong form.
pub proof fn lemma_wager_round_trip(w: WagerV, rest: Seq<u8>)
    requires
        wf_wager(w),
    ensures
        dec_wager(enc_wager(w) + rest) == Some(w),
{
    let e = enc_wager(w) + rest;
    assert(e.len() == 75 + rest.len());
    assert(e.subrange(0, 32) =~= w.bettor);
    assert(e.subrange(32, 40) =~= enc_u64(w.amount));
    lemma_le_u64_enc(w.amount);
    assert(e.subrange(40, 72) =~= w.market_ref);
    assert(e[72] == if w.party1 { 1u8 } else { 0u8 });
    assert(e[73] == if w.party2 { 1u8 } else { 0u8 });
    assert(e[74] == if w.claimed { 1u8 } else { 0u8 });
    assert(dec_wager(e) matches Some(d) && d =~= w);
}

// ---------------------------------------------------------------------
// Executable codec
// ---------------------------------------------------------------------

/// Copies `n` bytes of `s` starting at `off` into a fresh vector.
pub(crate) fn read_bytes(s: &Vec<u8>, off: usize, n: usize) -> (r: Vec<u8>)
    requires
        off + n <= s@.len(),
    ensures
        r@ == s@.subrange(off as int, off + n),
{
    let mut out: Vec<u8> = Vec::new();
    let slen = s.len();
    let mut i: usize = 0;
    while i < n
        invariant
            off + n <= slen,
            slen == s@.len(),
            i <= n,
            out@ =~= s@.subrange(off as int, off + i),
        decreases n - i,
    {
        out.push(s[off + i]);
        assert(out@ =~= s@.subrange(off as int, off + i + 1));
        i = i + 1;
    }
    out
}

/// Reads a little-endian `u32` at `off`.
fn read_u32_at(s: &Vec<u8>, off: usize) -> (r: u32)
    requires
        off + 4 <= s@.len(),
    ensures
        r == le_u32(s@.subrange(off as int, off + 4)),
{
    let n = s.len();
    let r = (s[off] as u32) | ((s[off + 1] as u32) << 8) | ((s[off + 2] as u32) << 16) | ((s[off
        + 3] as u32) << 24);
    proof {
        let sub = s@.subrange(off as int, off + 4);
        assert(sub[0] == s@[off as int] && sub[1] == s@[off + 1] && sub[2] == s@[off + 2]
            && sub[3] == s@[off + 3]);
    }
    r
}

/// Reads a little-endian `u64` at `off`.
fn read_u64_at(s: &Vec<u8>, off: usize) -> (r: u64)
    requires
        off + 8 <= s@.len(),
    ensures
        r == le_u64(s@.subrange(off as int, off + 8)),
{
    let n = s.len();
    let r = (s[off] as u64) | ((s[off + 1] as u64) << 8) | ((s[off + 2] as u64) << 16) | ((s[off
        + 3] as u64) << 24) | ((s[off + 4] as u64) << 32) | ((s[off + 5] as u64) << 40) | ((s[off
        + 6] as u64) << 48) | ((s[off + 7] as u64) << 56);
    proof {
        let sub = s@.subrange(off as int, off + 8);
        assert(sub[0] == s@[off as int] && sub[1] == s@[off + 1] && sub[2] == s@[off + 2]
            && sub[3] == s@[off + 3] && sub[4] == s@[off + 4] && sub[5] == s@[off + 5]
            && sub[6] == s@[off + 6] && sub[7] == s@[off + 7]);
    }
    r
}

/// Appends the bytes of `src` to `out`.
fn push_bytes(out: &mut Vec<u8>, src: &Vec<u8>)
    ensures
        final(out)@ == old(out)@ + src@,
{
    let mut i: usize = 0;
    while i < src.len()
        invariant
            i <= src@.len(),
            out@ =~= old(out)@ + src@.subrange(0, i as int),
        decreases src@.len() - i,
    {
        out.push(src[i]);
        assert(out@ =~= old(out)@ + src@.subrange(0, i + 1));
        i = i + 1;
    }
    assert(src@.subrange(0, src@.len() as int) =~= src@);
}

/// Appends the little-endian bytes of a `u32` to `out`.
fn push_u32_le(out: &mut Vec<u8>, x: u32)
    ensures
        final(out)@ == old(out)@ + enc_u32(x),
{
    out.push(#[verifier::truncate] (x as u8));
    out.push(#[verifier::truncate] ((x >> 8) as u8));
    out.push(#[verifier::truncate] ((x >> 16) as u8));
    out.push(#[verifier::truncate] ((x >> 24) as u8));
    assert(out@ =~= old(out)@ + enc_u32(x));
}

/// Appends the little-endian bytes of a `u64` to `out`.
fn push_u64_le(out: &mut Vec<u8>, x: u64)
    ensures
        final(out)@ == old(out)@ + enc_u64(x),
{
    out.push(#[verifier::truncate] (x as u8));
    out.push(#[verifier::truncate] ((x >> 8) as u8));
    out.push(#[verifier::truncate] ((x >> 16) as u8));
    out.push(#[verifier::truncate] ((x >> 24) as u8));
    out.push(#[verifier::truncate] ((x >> 32) as u8));
    out.push(#[verifier::truncate] ((x >> 40) as u8));
    out.push(#[verifier::truncate] ((x >> 48) as u8));
    out.push(#[verifier::truncate] ((x >> 56) as u8));
    assert(out@ =~= old(out)@ + enc_u64(x));
}

/// Appends the one-byte encoding of a bool to `out`.
fn push_bool(out: &mut Vec<u8>, b: bool)
    ensures
        final(out)@ == old(out)@ + enc_bool(b),
{
    out.push(if b { 1u8 } else { 0u8 });
    assert(out@ =~= old(out)@ + enc_bool(b));
}

/// Encodes a well-formed market value; never fails.
pub fn encode_market(m: &MarketState) -> (r: Vec<u8>)
    requires
        wf_market(m@),
    ensures
        r@ == enc_market(m@),
{
    let mut out: Vec<u8> = Vec::new();
    push_bytes(&mut out, &m.creator);
    push_u32_le(&mut out, m.name.len() as u32);
    push_bytes(&mut out, &m.name);
    push_u32_le(&mut out, m.description.len() as u32);
    push_bytes(&mut out, &m.description);
    push_u64_le(&mut out, m.total_pool);
    push_u64_le(&mut out, m.party1_pool);
    push_u64_le(&mut out, m.party2_pool);
    push_bool(&mut out, m.outcome.party1_result);
    push_bool(&mut out, m.outcome.party2_result);
    assert(out@ =~= enc_market(m@));
    out
}

/// Encodes a well-formed wager value; never fails.
pub fn encode_wager(w: &WagerRecord) -> (r: Vec<u8>)
    requires
        wf_wager(w@),
    ensures
        r@ == enc_wager(w@),
{
    let mut out: Vec<u8> = Vec::new();
    push_bytes(&mut out, &w.bettor);
    push_u64_le(&mut out, w.amount);
    push_bytes(&mut out, &w.market_ref);
    push_bool(&mut out, w.party1);
    push_bool(&mut out, w.party2);
    push_bool(&mut out, w.claimed);
    assert(out@ =~= enc_wager(w@));
    out
}

/// Decodes a market value from a prefix of `bytes`, exactly as
/// [`dec_market`] describes; reports `Decode` on malformed input.
pub fn decode_market(bytes: &Vec<u8>) -> (r: Result<MarketState, EngineError>)
    ensures
        match dec_market(bytes@) {
            Some(mv) => r matches Ok(m) && m@ == mv,
            None => r matches Err(e) && e == EngineError::Decode,
        },
{
    let n = bytes.len();
    if n < 36 {
        return Err(EngineError::Decode);
    }
    let creator = read_bytes(bytes, 0, 32);
    let nlen32 = read_u32_at(bytes, 32);
    let n64 = n as u64;
    if n64 < 40u64 + (nlen32 as u64) {
        return Err(EngineError::Decode);
    }
    let nlen = nlen32 as usize;
    let name = read_bytes(bytes, 36, nlen);
    let dl_off = 36 + nlen;
    let dlen32 = read_u32_at(bytes, dl_off);
    if n64 < (dl_off as u64) + 4u64 + (dlen32 as u64) + 26u64 {
        return Err(EngineError::Decode);
    }
    let dlen = dlen32 as usize;
    let description = read_bytes(bytes, dl_off + 4, dlen);
    let p_off = dl_off + 4 + dlen;
    let total_pool = read_u64_at(bytes, p_off);
    let party1_pool = read_u64_at(bytes, p_off + 8);
    let party2_pool = read_u64_at(bytes, p_off + 16);
    let b1 = bytes[p_off + 24];
    let b2 = bytes[p_off + 25];
    if b1 > 1 || b2 > 1 {
        return Err(EngineError::Decode);
    }
    let m = MarketState {
        creator,
        name,
        description,
        total_pool,
        party1_pool,
        party2_pool,
        outcome: BetOutcome { party1_result: b1 == 1, party2_result: b2 == 1 },
    };
    assert(dec_market(bytes@) matches Some(mv) && m@ =~= mv);
    Ok(m)
}

/// Decodes a wager value from a prefix of `bytes`, exactly as
/// [`dec_wager`] describes.
pub fn decode_wager(bytes: &Vec<u8>) -> (r: Result<WagerRecord, EngineError>)
    ensures
        match dec_wager(bytes@) {
            Some(wv) => r matches Ok(w) && w@ == wv,
            None => r matches Err(e) && e == EngineError::Decode,
        },
{
    let n = bytes.len();
    if n < 75 {
        return Err(EngineError::Decode);
    }
    let b1 = bytes[72];
    let b2 = bytes[73];
    let bc = bytes[74];
    if b1 > 1 || b2 > 1 || bc > 1 {
        return Err(EngineError::Decode);
    }
    let w = WagerRecord {
        bettor: read_bytes(bytes, 0, 32),
        amount: read_u64_at(bytes, 32),
        market_ref: read_bytes(bytes, 40, 32),
        party1: b1 == 1,
        party2: b2 == 1,
        claimed: bc == 1,
    };
    assert(dec_wager(bytes@) matches Some(wv) && w@ =~= wv);
    Ok(w)
}

/// Decodes a bare outcome (a settlement payload) from a prefix of
/// `bytes`, exactly as [`dec_outcome`] describes.
pub fn decode_outcome(bytes: &Vec<u8>) -> (r: Result<BetOutcome, EngineError>)
    ensures
        match dec_outcome(bytes@) {
            Some(o) => r matches Ok(d) && d == o,
            None => r matches Err(e) && e == EngineError::Decode,
        },
{
    if bytes.len() < 2 {
        return Err(EngineError::Decode);
    }
    let b1 = bytes[0];
    let b2 = bytes[1];
    if b1 > 1 || b2 > 1 {
        return Err(EngineError::Decode);
    }
    Ok(BetOutcome { party1_result: b1 == 1, party2_result: b2 == 1 })
}

/// Writes `src` over the front of the fixed-size buffer `data`,
/// leaving the tail untouched. The caller has already checked that it
/// fits.
pub fn write_prefix(data: &mut Vec<u8>, src: &Vec<u8>)
    requires
        src@.len() <= old(data)@.len(),
    ensures
        final(data)@ == stored(old(data)@, src@),
{
    let mut i: usize = 0;
    while i < src.len()
        invariant
            src@.len() <= data@.len(),
            i <= src@.len(),
            data@.len() == old(data)@.len(),
            data@ =~= src@.subrange(0, i as int) + old(data)@.skip(i as int),
        decreases src@.len() - i,
    {
        data.set(i, src[i]);
        assert(data@ =~= src@.subrange(0, i + 1) + old(data)@.skip(i + 1));
        i = i + 1;
    }
    assert(src@.subrange(0, src@.len() as int) =~= src@);
    assert(data@ =~= stored(old(data)@, src@));
}

} // verus!
