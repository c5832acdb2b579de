//! Tagged errors returned by the custody guard, the codec, the lifecycle
//! handlers and the router.
//!
//! Every rejected call reports exactly one of these tags, so a caller can
//! tell an authorization failure from a malformed payload. No error is
//! ever paired with a partial effect: a handler that returns an error
//! leaves every record byte-for-byte unchanged.

use vstd::prelude::*;

verus! {

/// A payload or request that is malformed or semantically invalid.
#[derive(Clone, Copy, Debug, PartialEq, Eq, Structural)]
pub enum ValidationError {
    /// Two identities that must agree (declared creator vs. actual
    /// signer, wager's market reference vs. the market record) differ.
    IdentityMismatch,
    /// A market name shorter than 5 bytes, or a description shorter
    /// than 10 bytes.
    FieldTooShort,
    /// A wager or proposed outcome that does not back exactly one side.
    AmbiguousSide,
    /// A request whose leading opcode byte maps to no handler.
    UnknownOpcode,
    /// A request with no bytes at all.
    EmptyRequest,
    /// A settlement attempt against a market whose outcome is already
    /// recorded.
    AlreadySettled,
    /// A claim against a market that has no recorded outcome yet.
    NotSettled,
    /// A claim whose wager backs the losing side, or a winning side
    /// with an empty pool: nothing is payable.
    LosingWager,
    /// A claim against a wager whose winnings were already paid out.
    AlreadyClaimed,
}

/// A caller that is not entitled to the mutation it asked for.
#[derive(Clone, Copy, Debug, PartialEq, Eq, Structural)]
pub enum AuthorizationError {
    /// The record to be written is not owned by this program.
    NotOwned,
    /// The acting identity did not cryptographically authorize the
    /// request.
    MissingSignature,
}

/// The single error surface of the library: every guard, codec step and
/// handler reports exactly one of these.
#[derive(Clone, Copy, Debug, PartialEq, Eq, Structural)]
pub enum EngineError {
    Validation(ValidationError),
    Authorization(AuthorizationError),
    /// A record's retained balance is below the externally computed
    /// minimum-retention threshold.
    InsufficientFunds,
    /// A buffer too short for the structure it should hold, or a
    /// length prefix that overruns the remaining bytes.
    Decode,
    /// An encoded value that does not fit the fixed-size buffer it
    /// must be written back into.
    Encode,
    /// A balance or pool increment that would exceed the counter's
    /// capacity; the transfer is refused rather than wrapped.
    Overflow,
}

} // verus!
