use vstd::prelude::*;

verus! {

/// Rejections raised by the lifecycle and vault rules themselves.
#[derive(Clone, Copy, Debug, PartialEq, Eq, Structural)]
pub enum HeartbeatError {
    /// The agent is dead: no heartbeat can be burned.
    MortemDead,
    /// The counter is already at zero.
    NoHeartbeatsRemaining,
    /// Heartbeats are bound to their holder and never move.
    Soulbound,
    /// The initial grant was already made.
    AlreadyMinted,
    /// The vault can only be sealed after death.
    MortemStillAlive,
    /// The vault already holds a sealed record.
    VaultAlreadySealed,
    /// The vault holds no sealed record.
    VaultNotSealed,
    /// The resurrection delay has not elapsed since the seal.
    ResurrectionTooEarly,
    /// A coherence score lies above 100.
    InvalidCoherenceScore,
    /// The final statement is longer than `MAX_LAST_WORDS_LEN` bytes.
    LastWordsTooLong,
}

/// Why an instruction against the record store was rejected.
#[derive(Clone, Copy, Debug, PartialEq, Eq, Structural)]
pub enum InstructionError {
    /// A rule of the lifecycle or the vault refused the call.
    Heartbeat(HeartbeatError),
    /// A record already exists at the identity the call would create.
    AccountAlreadyInitialized,
    /// No record exists at the identity the call reads.
    AccountNotInitialized,
    /// The signer is not the authority the record names, or a key the call
    /// passed does not match the record.
    Unauthorized,
    /// The external token ledger did not confirm the transfer or the burn.
    TokenCallFailed,
}

} // verus!
