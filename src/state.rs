use vstd::prelude::*;

use crate::error::HeartbeatError;
use crate::key::Key;
use crate::phase::{calculate_phase, phase_of, MortemPhase};
use crate::TOTAL_HEARTBEATS;

verus! {

/// The ledger record of one agent: its heartbeat counter and life flags.
#[derive(Clone, Copy, Debug)]
pub struct MortemState {
    /// Identity allowed to administer the record.
    pub authority: Key,
    /// The external token mint that backs the heartbeats.
    pub mint: Key,
    /// Where the heartbeat tokens are held.
    pub mortem_wallet: Key,
    pub heartbeats_remaining: u64,
    pub is_alive: bool,
    pub birth_timestamp: i64,
    pub last_burn_timestamp: i64,
    pub total_burned: u64,
}

impl MortemState {
    /// Every heartbeat is either remaining or burned, and the agent lives
    /// exactly while some remain.
    pub open spec fn wf(self) -> bool {
        &&& self.conserved()
        &&& self.is_alive == (self.heartbeats_remaining > 0)
    }

    /// Every heartbeat is either remaining or burned.
    pub open spec fn conserved(self) -> bool {
        self.total_burned + self.heartbeats_remaining == TOTAL_HEARTBEATS
    }

    /// The error a burn meets on this record, if any: death is checked
    /// first, then the counter on its own.
    pub open spec fn burn_error(self) -> Option<HeartbeatError> {
        if !self.is_alive {
            Some(HeartbeatError::MortemDead)
        } else if self.heartbeats_remaining == 0 {
            Some(HeartbeatError::NoHeartbeatsRemaining)
        } else {
            None
        }
    }

    /// The record after one heartbeat burned at time `now`.
    pub open spec fn burned(self, now: i64) -> MortemState {
        let remaining = (self.heartbeats_remaining - 1) as u64;
        MortemState {
            heartbeats_remaining: remaining,
            total_burned: (self.total_burned + 1) as u64,
            last_burn_timestamp: now,
            is_alive: self.is_alive && remaining > 0,
            ..self
        }
    }

    /// The error the initial grant meets on this record, if any, when the
    /// external mint has `supply` tokens in circulation: it is made once,
    /// into an empty mint, and only while no heartbeat has been consumed.
    pub open spec fn mint_error(self, supply: u64) -> Option<HeartbeatError> {
        if supply != 0 || self.heartbeats_remaining != TOTAL_HEARTBEATS {
            Some(HeartbeatError::AlreadyMinted)
        } else {
            None
        }
    }

    /// The record of an agent born at `now`: full counter, alive, nothing
    /// burned yet.
    pub open spec fn born(authority: Key, mint: Key, mortem_wallet: Key, now: i64) -> MortemState {
        MortemState {
            authority,
            mint,
            mortem_wallet,
            heartbeats_remaining: TOTAL_HEARTBEATS,
            is_alive: true,
            birth_timestamp: now,
            last_burn_timestamp: 0,
            total_burned: 0,
        }
    }

    /// A record born at `now` with a full counter.
    pub fn new(authority: Key, mint: Key, mortem_wallet: Key, now: i64) -> (r: MortemState)
        ensures
            r == MortemState::born(authority, mint, mortem_wallet, now),
            r.wf(),
    {
        MortemState {
            authority,
            mint,
            mortem_wallet,
            heartbeats_remaining: TOTAL_HEARTBEATS,
            is_alive: true,
            birth_timestamp: now,
            last_burn_timestamp: 0,
            total_burned: 0,
        }
    }

    /// Whether the record keeps its invariant, for records read back from
    /// storage.
    pub fn is_consistent(&self) -> (r: bool)
        ensures
            r == self.wf(),
    {
        self.is_conserved() && self.is_alive == (self.heartbeats_remaining > 0)
    }

    /// Whether every heartbeat is either remaining or burned.
    pub fn is_conserved(&self) -> (r: bool)
        ensures
            r == self.conserved(),
    {
        (self.total_burned as u128) + (self.heartbeats_remaining as u128) == (TOTAL_HEARTBEATS as u128)
    }

    /// Whether a burn may proceed, checked before the external burn is asked.
    pub fn check_burn(&self) -> (r: Result<(), HeartbeatError>)
        ensures
            r == (match self.burn_error() {
                Some(e) => Err(e),
                None => Ok(()),
            }),
    {
        if !self.is_alive {
            Err(HeartbeatError::MortemDead)
        } else if self.heartbeats_remaining == 0 {
            Err(HeartbeatError::NoHeartbeatsRemaining)
        } else {
            Ok(())
        }
    }

    /// Commits one burned heartbeat at time `now`, once the external burn has
    /// been confirmed. The last heartbeat ends the life.
    pub fn record_burn(&mut self, now: i64)
        requires
            old(self).conserved(),
            old(self).burn_error() is None,
        ensures
            *final(self) == old(self).burned(now),
            final(self).wf(),
            final(self).heartbeats_remaining == old(self).heartbeats_remaining - 1,
            final(self).is_alive == (final(self).heartbeats_remaining > 0),
    {
        self.heartbeats_remaining = self.heartbeats_remaining - 1;
        self.total_burned = self.total_burned + 1;
        self.last_burn_timestamp = now;
        if self.heartbeats_remaining == 0 {
            self.is_alive = false;
        }
    }

    /// Whether the initial grant of heartbeats may be made while the
    /// external mint has `supply` tokens in circulation.
    pub fn check_mint(&self, supply: u64) -> (r: Result<(), HeartbeatError>)
        ensures
            r == (match self.mint_error(supply) {
                Some(e) => Err(e),
                None => Ok(()),
            }),
    {
        if supply != 0 || self.heartbeats_remaining != TOTAL_HEARTBEATS {
            Err(HeartbeatError::AlreadyMinted)
        } else {
            Ok(())
        }
    }

    /// The current lifecycle phase.
    pub fn phase(&self) -> (r: MortemPhase)
        ensures
            r == phase_of(self.heartbeats_remaining as nat),
    {
        calculate_phase(self.heartbeats_remaining)
    }
}

} // verus!
