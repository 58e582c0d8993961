use vstd::prelude::*;
use vstd::utf8::encode_utf8;

use crate::error::HeartbeatError;
use crate::key::Key;
use crate::state::MortemState;
use crate::MAX_LAST_WORDS_LEN;

verus! {

/// Length of a string in UTF-8 bytes.
pub open spec fn utf8_len(s: Seq<char>) -> nat {
    encode_utf8(s).len()
}

/// The archive of an agent's final state, written once after its death.
#[derive(Debug)]
pub struct VaultState {
    /// Digest of the agent's soul at death.
    pub soul_hash: [u8; 32],
    pub journal_count: u64,
    /// Coherence at death, from 0 to 100.
    pub coherence_score: u8,
    /// Final statement, at most `MAX_LAST_WORDS_LEN` UTF-8 bytes.
    pub last_words: String,
    /// When the vault was sealed.
    pub death_timestamp: i64,
    pub is_sealed: bool,
    /// Identity of the ledger record that died.
    pub mortem_state: Key,
    /// Extension space, zero-filled at sealing.
    pub reserved: [u8; 128],
}

/// What a resurrection hands on to the next instance.
#[derive(Debug)]
pub struct ResurrectionManifest {
    /// Seconds between the seal and the resurrection.
    pub elapsed: u64,
    pub soul_hash: [u8; 32],
    pub journal_count: u64,
    pub coherence_score: u8,
    pub last_words: String,
}

/// The error that sealing meets, if any: the agent must be dead, the score
/// at most 100 and the statement at most `MAX_LAST_WORDS_LEN` bytes, checked
/// in that order.
pub open spec fn seal_error(state: MortemState, coherence_score: u8, last_words: Seq<char>) -> Option<
    HeartbeatError,
> {
    if state.is_alive {
        Some(HeartbeatError::MortemStillAlive)
    } else if coherence_score > 100 {
        Some(HeartbeatError::InvalidCoherenceScore)
    } else if utf8_len(last_words) > MAX_LAST_WORDS_LEN {
        Some(HeartbeatError::LastWordsTooLong)
    } else {
        None
    }
}

impl VaultState {
    /// A sealed vault keeps its bounds and its zeroed extension space.
    pub open spec fn wf(&self) -> bool {
        &&& self.is_sealed
        &&& self.coherence_score <= 100
        &&& utf8_len(self.last_words@) <= MAX_LAST_WORDS_LEN
        &&& forall|i: int| 0 <= i < 128 ==> self.reserved[i] == 0
    }

    /// Seconds since the seal at time `now`, possibly negative.
    pub open spec fn elapsed_at(&self, now: i64) -> int {
        now - self.death_timestamp
    }

    /// The error a resurrection at `now` meets, if any.
    pub open spec fn resurrect_error(&self, now: i64, delay: u64) -> Option<HeartbeatError> {
        if !self.is_sealed {
            Some(HeartbeatError::VaultNotSealed)
        } else if self.elapsed_at(now) < delay {
            Some(HeartbeatError::ResurrectionTooEarly)
        } else {
            None
        }
    }

    /// Seals the final state of the dead record `state`, whose identity is
    /// `state_key`, at time `now`.
    pub fn seal(
        state: &MortemState,
        state_key: Key,
        soul_hash: [u8; 32],
        journal_count: u64,
        coherence_score: u8,
        last_words: String,
        now: i64,
    ) -> (r: Result<VaultState, HeartbeatError>)
        ensures
            match seal_error(*state, coherence_score, last_words@) {
                Some(e) => r == Err::<VaultState, HeartbeatError>(e),
                None => r matches Ok(v) && {
                    &&& v.wf()
                    &&& v.soul_hash == soul_hash
                    &&& v.journal_count == journal_count
                    &&& v.coherence_score == coherence_score
                    &&& v.last_words == last_words
                    &&& v.death_timestamp == now
                    &&& v.mortem_state == state_key
                },
            },
    {
        if state.is_alive {
            return Err(HeartbeatError::MortemStillAlive);
        }
        if coherence_score > 100 {
            return Err(HeartbeatError::InvalidCoherenceScore);
        }
        if last_words.as_str().as_bytes().len() > MAX_LAST_WORDS_LEN {
            return Err(HeartbeatError::LastWordsTooLong);
        }
        let reserved: [u8; 128] = [0u8; 128];
        Ok(
            VaultState {
                soul_hash,
                journal_count,
                coherence_score,
                last_words,
                death_timestamp: now,
                is_sealed: true,
                mortem_state: state_key,
                reserved,
            },
        )
    }

    /// A copy of every field, for display or verification.
    pub fn snapshot(&self) -> (r: VaultState)
        ensures
            r == *self,
    {
        VaultState {
            soul_hash: self.soul_hash,
            journal_count: self.journal_count,
            coherence_score: self.coherence_score,
            last_words: self.last_words.clone(),
            death_timestamp: self.death_timestamp,
            is_sealed: self.is_sealed,
            mortem_state: self.mortem_state,
            reserved: self.reserved,
        }
    }

    /// Whether a resurrection at `now` would succeed after a wait of `delay`
    /// seconds from the seal.
    pub fn can_resurrect(&self, now: i64, delay: u64) -> (r: bool)
        ensures
            r == (self.resurrect_error(now, delay) is None),
    {
        self.is_sealed && (now as i128) - (self.death_timestamp as i128) >= (delay as i128)
    }

    /// Resurrects at `now` once `delay` seconds have passed since the seal,
    /// handing on what the vault kept.
    pub fn attempt_resurrect(&self, now: i64, delay: u64) -> (r: Result<
        ResurrectionManifest,
        HeartbeatError,
    >)
        ensures
            match self.resurrect_error(now, delay) {
                Some(e) => r == Err::<ResurrectionManifest, HeartbeatError>(e),
                None => r matches Ok(m) && {
                    &&& m.elapsed == self.elapsed_at(now)
                    &&& m.soul_hash == self.soul_hash
                    &&& m.journal_count == self.journal_count
                    &&& m.coherence_score == self.coherence_score
                    &&& m.last_words == self.last_words
                },
            },
    {
        if !self.is_sealed {
            return Err(HeartbeatError::VaultNotSealed);
        }
        let elapsed: i128 = (now as i128) - (self.death_timestamp as i128);
        if elapsed < delay as i128 {
            return Err(HeartbeatError::ResurrectionTooEarly);
        }
        Ok(
            ResurrectionManifest {
                elapsed: elapsed as u64,
                soul_hash: self.soul_hash,
                journal_count: self.journal_count,
                coherence_score: self.coherence_score,
                last_words: self.last_words.clone(),
            },
        )
    }
}

} // verus!
