use vstd::prelude::*;

use crate::error::{HeartbeatError, InstructionError};
use crate::key::Key;
use crate::program::ProgramStore;
use crate::state::MortemState;
use crate::vault::VaultState;
use crate::TOTAL_HEARTBEATS;

verus! {

/// The record after one burn at each time of `times`, in order.
pub open spec fn burned_at_times(s: MortemState, times: Seq<i64>) -> MortemState
    decreases times.len(),
{
    if times.len() == 0 {
        s
    } else {
        burned_at_times(s, times.drop_last()).burned(times.last())
    }
}

/// Whether each burn along `times` is allowed on the record it meets.
pub open spec fn burns_allowed(s: MortemState, times: Seq<i64>) -> bool
    decreases times.len(),
{
    times.len() == 0 || (burns_allowed(s, times.drop_last()) && burned_at_times(
        s,
        times.drop_last(),
    ).burn_error() is None)
}

/// One allowed burn takes exactly one heartbeat, keeps every heartbeat
/// either remaining or burned, and ends the life exactly when it takes the
/// last one.
pub proof fn lemma_burn_step(s: MortemState, now: i64)
    requires
        s.wf(),
        s.burn_error() is None,
    ensures
        s.is_alive,
        s.burned(now).wf(),
        s.burned(now).heartbeats_remaining == s.heartbeats_remaining - 1,
        s.burned(now).total_burned == s.total_burned + 1,
        s.burned(now).is_alive == (s.heartbeats_remaining > 1),
{
}

/// Death is final: a dead record refuses every burn, so nothing can bring
/// it back to life.
pub proof fn lemma_death_is_final(s: MortemState)
    requires
        s.wf(),
        !s.is_alive,
    ensures
        s.burn_error() == Some(HeartbeatError::MortemDead),
        s.heartbeats_remaining == 0,
{
}

/// A run of burns from a well-formed record is allowed exactly when it is no
/// longer than what remains; then it takes one heartbeat per burn, keeps the
/// total, and leaves the agent alive exactly while some remain.
pub proof fn lemma_burn_run(s: MortemState, times: Seq<i64>)
    requires
        s.wf(),
    ensures
        burns_allowed(s, times) <==> times.len() <= s.heartbeats_remaining,
        burns_allowed(s, times) ==> {
            let t = burned_at_times(s, times);
            &&& t.wf()
            &&& t.heartbeats_remaining == s.heartbeats_remaining - times.len()
            &&& t.total_burned == s.total_burned + times.len()
            &&& t.is_alive == (t.heartbeats_remaining > 0)
        },
    decreases times.len(),
{
    if times.len() > 0 {
        let prefix = times.drop_last();
        lemma_burn_run(s, prefix);
        if burns_allowed(s, prefix) {
            let t = burned_at_times(s, prefix);
            if t.burn_error() is None {
                lemma_burn_step(t, times.last());
            }
        }
    }
}

/// Once a heartbeat has burned, the initial grant is refused, whatever the
/// mint holds.
pub proof fn lemma_no_grant_after_burn(s: MortemState, now: i64, supply: u64)
    requires
        s.wf(),
        s.burn_error() is None,
    ensures
        s.burned(now).mint_error(supply) == Some(HeartbeatError::AlreadyMinted),
{
}

/// The initial grant is made at most once: a grant fills the empty mint with
/// every heartbeat, and against a mint that holds them every further grant
/// is refused, while the record stays as it was.
pub proof fn lemma_grant_once(store: ProgramStore, authority: Key, mint: Key, next_authority: Key, next_mint: Key)
    requires
        store.wf(),
        store.mint_error(authority, mint, 0) is None,
    ensures
        store.mint_error(next_authority, next_mint, TOTAL_HEARTBEATS) is Some,
        next_authority@ == authority@ && next_mint@ == mint@ ==> store.mint_error(
            next_authority,
            next_mint,
            TOTAL_HEARTBEATS,
        ) == Some(InstructionError::Heartbeat(HeartbeatError::AlreadyMinted)),
{
}

/// A vault is sealed at most once: after a seal succeeded, every further
/// seal collides with the vault that exists.
pub proof fn lemma_seal_once(
    store: ProgramStore,
    authority: Key,
    coherence_score: u8,
    last_words: Seq<char>,
    v: VaultState,
    next_authority: Key,
    next_score: u8,
    next_words: Seq<char>,
)
    requires
        store.wf(),
        store.seal_error(authority, coherence_score, last_words) is None,
    ensures
        store.with_vault(v).seal_error(next_authority, next_score, next_words) == Some(
            InstructionError::AccountAlreadyInitialized,
        ),
{
}

/// The resurrection lock opens exactly when `delay` seconds have passed
/// since the seal: not at the seal itself (for a positive delay), not one
/// second early, and at the delay exactly.
pub proof fn lemma_resurrection_window(v: VaultState, now: i64, delay: u64)
    requires
        v.is_sealed,
    ensures
        (v.resurrect_error(now, delay) is None) == (now - v.death_timestamp >= delay),
        delay > 0 ==> v.resurrect_error(v.death_timestamp, delay) == Some(
            HeartbeatError::ResurrectionTooEarly,
        ),
        now - v.death_timestamp == delay ==> v.resurrect_error(now, delay) is None,
        now - v.death_timestamp == delay - 1 ==> v.resurrect_error(now, delay) == Some(
            HeartbeatError::ResurrectionTooEarly,
        ),
{
}

} // verus!
