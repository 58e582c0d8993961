use vstd::prelude::*;

use crate::error::{HeartbeatError, InstructionError};
use crate::key::Key;
use crate::phase::{phase_of, MortemPhase};
use crate::state::MortemState;
use crate::vault::{seal_error, ResurrectionManifest, VaultState};
use crate::TOTAL_HEARTBEATS;

verus! {

/// The record store of one deployment. The ledger record lives at an
/// identity derived from a fixed tag, the vault at one derived from the
/// ledger record's identity, so each exists at most once: creating either a
/// second time collides with the first.
pub struct ProgramStore {
    /// Identity derived for the ledger record.
    pub mortem_key: Key,
    /// Seconds that must pass between sealing and resurrection.
    pub resurrection_delay: u64,
    pub mortem_state: Option<MortemState>,
    pub vault_state: Option<VaultState>,
}

/// Turns an optional rule error into the instruction's result.
pub open spec fn outcome(e: Option<InstructionError>) -> Result<(), InstructionError> {
    match e {
        Some(e) => Err(e),
        None => Ok(()),
    }
}

/// Lifts an optional rule error to the instruction level.
pub open spec fn lift(e: Option<HeartbeatError>) -> Option<InstructionError> {
    match e {
        Some(e) => Some(InstructionError::Heartbeat(e)),
        None => None,
    }
}

impl ProgramStore {
    /// The ledger record keeps its invariant, and a vault exists only for
    /// a dead ledger record and points back at it.
    pub open spec fn wf(&self) -> bool {
        &&& (self.mortem_state matches Some(s) ==> s.wf())
        &&& (self.vault_state matches Some(v) ==> {
            &&& v.wf()
            &&& v.mortem_state@ == self.mortem_key@
            &&& self.mortem_state matches Some(s) && !s.is_alive
        })
    }

    /// This store with the vault `v` written into it.
    pub open spec fn with_vault(self, v: VaultState) -> ProgramStore {
        ProgramStore { vault_state: Some(v), ..self }
    }

    /// This store with the ledger record replaced by `s`.
    pub open spec fn with_state(self, s: MortemState) -> ProgramStore {
        ProgramStore { mortem_state: Some(s), ..self }
    }

    /// The error the initial grant meets, if any, when the external mint
    /// has `supply` tokens in circulation.
    pub open spec fn mint_error(&self, authority: Key, mint: Key, supply: u64) -> Option<
        InstructionError,
    > {
        match self.mortem_state {
            None => Some(InstructionError::AccountNotInitialized),
            Some(s) => if authority@ != s.authority@ || mint@ != s.mint@ {
                Some(InstructionError::Unauthorized)
            } else {
                lift(s.mint_error(supply))
            },
        }
    }

    /// The error a burn meets, if any. Anyone may ask for a burn.
    pub open spec fn burn_error(&self) -> Option<InstructionError> {
        match self.mortem_state {
            None => Some(InstructionError::AccountNotInitialized),
            Some(s) => lift(s.burn_error()),
        }
    }

    /// The error sealing meets, if any: the ledger record must exist and be
    /// dead, the vault must not exist yet, the signer must be the record's
    /// authority, and the sealed values must keep their bounds.
    pub open spec fn seal_error(
        &self,
        authority: Key,
        coherence_score: u8,
        last_words: Seq<char>,
    ) -> Option<InstructionError> {
        match self.mortem_state {
            None => Some(InstructionError::AccountNotInitialized),
            Some(s) => if s.is_alive {
                Some(InstructionError::Heartbeat(HeartbeatError::MortemStillAlive))
            } else if self.vault_state is Some {
                Some(InstructionError::AccountAlreadyInitialized)
            } else if authority@ != s.authority@ {
                Some(InstructionError::Unauthorized)
            } else {
                lift(seal_error(s, coherence_score, last_words))
            },
        }
    }

    /// An empty store whose ledger record will live at `mortem_key`.
    pub fn new(mortem_key: Key, resurrection_delay: u64) -> (r: ProgramStore)
        ensures
            r.wf(),
            r.mortem_key == mortem_key,
            r.resurrection_delay == resurrection_delay,
            r.mortem_state is None,
            r.vault_state is None,
    {
        ProgramStore { mortem_key, resurrection_delay, mortem_state: None, vault_state: None }
    }
}

/// Creates the ledger record, born at `now` with a full counter. There is
/// one per store: a second creation collides with the first.
pub fn initialize(
    store: &mut ProgramStore,
    authority: Key,
    mint: Key,
    mortem_wallet: Key,
    now: i64,
) -> (r: Result<(), InstructionError>)
    requires
        old(store).wf(),
    ensures
        final(store).wf(),
        old(store).mortem_state is Some ==> r == Err::<(), InstructionError>(
            InstructionError::AccountAlreadyInitialized,
        ) && *final(store) == *old(store),
        old(store).mortem_state is None ==> r is Ok && *final(store) == old(store).with_state(
            MortemState::born(authority, mint, mortem_wallet, now),
        ),
{
    if store.mortem_state.is_some() {
        return Err(InstructionError::AccountAlreadyInitialized);
    }
    let s = MortemState::new(authority, mint, mortem_wallet, now);
    store.mortem_state = Some(s);
    Ok(())
}

/// Checks the one-time grant of heartbeats, signed by the record's
/// authority for the record's mint, while the external mint has `supply`
/// tokens in circulation. Gives the amount that the external token ledger is
/// to mint into the agent's wallet. The grant leaves the record as it is: a
/// mint that already holds tokens shows that it was made.
pub fn mint_heartbeats(store: &ProgramStore, authority: Key, mint: Key, supply: u64) -> (r: Result<
    u64,
    InstructionError,
>)
    ensures
        match store.mint_error(authority, mint, supply) {
            Some(e) => r == Err::<u64, InstructionError>(e),
            None => r == Ok::<u64, InstructionError>(TOTAL_HEARTBEATS),
        },
{
    let s = match &store.mortem_state {
        None => {
            return Err(InstructionError::AccountNotInitialized);
        },
        Some(s) => s,
    };
    if !authority.same(&s.authority) || !mint.same(&s.mint) {
        return Err(InstructionError::Unauthorized);
    }
    match s.check_mint(supply) {
        Err(e) => Err(InstructionError::Heartbeat(e)),
        Ok(()) => Ok(TOTAL_HEARTBEATS),
    }
}

/// Checks that a heartbeat may burn, and gives the amount that the external
/// token ledger is to burn. Nothing is asked of the ledger when this fails.
pub fn prepare_burn(store: &ProgramStore) -> (r: Result<u64, InstructionError>)
    ensures
        match store.burn_error() {
            Some(e) => r == Err::<u64, InstructionError>(e),
            None => r == Ok::<u64, InstructionError>(1),
        },
{
    match &store.mortem_state {
        None => Err(InstructionError::AccountNotInitialized),
        Some(s) => match s.check_burn() {
            Err(e) => Err(InstructionError::Heartbeat(e)),
            Ok(()) => Ok(1),
        },
    }
}

/// Burns one heartbeat at `now`. The record changes only when the rules
/// allow the burn and the external ledger confirmed it
/// (`burn_confirmed`); the last heartbeat ends the life for good. An empty
/// counter is refused on its own, whatever the life flag says.
pub fn burn_heartbeat(store: &mut ProgramStore, burn_confirmed: bool, now: i64) -> (r: Result<
    (),
    InstructionError,
>)
    requires
        old(store).mortem_state matches Some(s) ==> s.conserved(),
    ensures
        old(store).wf() ==> final(store).wf(),
        final(store).mortem_state matches Some(s) ==> s.conserved(),
        old(store).burn_error() is Some ==> r == outcome(old(store).burn_error()) && *final(store)
            == *old(store),
        old(store).burn_error() is None && !burn_confirmed ==> r == Err::<(), InstructionError>(
            InstructionError::TokenCallFailed,
        ) && *final(store) == *old(store),
        old(store).burn_error() is None && burn_confirmed ==> r is Ok && *final(store) == old(
            store,
        ).with_state(old(store).mortem_state.unwrap().burned(now)),
{
    let mut s = match &store.mortem_state {
        None => {
            return Err(InstructionError::AccountNotInitialized);
        },
        Some(s) => *s,
    };
    if let Err(e) = s.check_burn() {
        return Err(InstructionError::Heartbeat(e));
    }
    if !burn_confirmed {
        return Err(InstructionError::TokenCallFailed);
    }
    s.record_burn(now);
    store.mortem_state = Some(s);
    Ok(())
}

/// The current lifecycle phase of the ledger record.
pub fn get_phase(store: &ProgramStore) -> (r: Result<MortemPhase, InstructionError>)
    ensures
        match store.mortem_state {
            None => r == Err::<MortemPhase, InstructionError>(
                InstructionError::AccountNotInitialized,
            ),
            Some(s) => r == Ok::<MortemPhase, InstructionError>(
                phase_of(s.heartbeats_remaining as nat),
            ),
        },
{
    match &store.mortem_state {
        None => Err(InstructionError::AccountNotInitialized),
        Some(s) => Ok(s.phase()),
    }
}

/// Heartbeats never move between holders: every transfer is refused.
pub fn transfer_heartbeat(store: &ProgramStore) -> (r: Result<(), InstructionError>)
    ensures
        r == Err::<(), InstructionError>(InstructionError::Heartbeat(HeartbeatError::Soulbound)),
{
    Err(InstructionError::Heartbeat(HeartbeatError::Soulbound))
}

/// Seals the vault of the dead ledger record at `now`, signed by the
/// record's authority. The vault is written once and never changed.
pub fn seal_vault(
    store: &mut ProgramStore,
    authority: Key,
    soul_hash: [u8; 32],
    journal_count: u64,
    coherence_score: u8,
    last_words: String,
    now: i64,
) -> (r: Result<(), InstructionError>)
    requires
        old(store).wf(),
    ensures
        final(store).wf(),
        r == outcome(old(store).seal_error(authority, coherence_score, last_words@)),
        r is Err ==> *final(store) == *old(store),
        r is Ok ==> (final(store).vault_state matches Some(v) && {
            &&& *final(store) == old(store).with_vault(v)
            &&& v.is_sealed
            &&& v.soul_hash == soul_hash
            &&& v.journal_count == journal_count
            &&& v.coherence_score == coherence_score
            &&& v.last_words == last_words
            &&& v.death_timestamp == now
            &&& v.mortem_state == old(store).mortem_key
        }),
{
    let s = match &store.mortem_state {
        None => {
            return Err(InstructionError::AccountNotInitialized);
        },
        Some(s) => *s,
    };
    if s.is_alive {
        return Err(InstructionError::Heartbeat(HeartbeatError::MortemStillAlive));
    }
    if store.vault_state.is_some() {
        return Err(InstructionError::AccountAlreadyInitialized);
    }
    if !authority.same(&s.authority) {
        return Err(InstructionError::Unauthorized);
    }
    match VaultState::seal(
        &s,
        store.mortem_key,
        soul_hash,
        journal_count,
        coherence_score,
        last_words,
        now,
    ) {
        Err(e) => Err(InstructionError::Heartbeat(e)),
        Ok(v) => {
            store.vault_state = Some(v);
            Ok(())
        },
    }
}

/// A copy of the sealed vault, for display or verification.
pub fn read_vault(store: &ProgramStore) -> (r: Result<VaultState, InstructionError>)
    ensures
        match (store.mortem_state, store.vault_state) {
            (Some(_), Some(v)) => r == Ok::<VaultState, InstructionError>(v),
            _ => r == Err::<VaultState, InstructionError>(InstructionError::AccountNotInitialized),
        },
{
    if store.mortem_state.is_none() {
        return Err(InstructionError::AccountNotInitialized);
    }
    match &store.vault_state {
        None => Err(InstructionError::AccountNotInitialized),
        Some(v) => Ok(v.snapshot()),
    }
}

/// Resurrects at `now` from the sealed vault once the store's delay has
/// passed since the seal, handing on what the vault kept.
pub fn resurrect(store: &ProgramStore, now: i64) -> (r: Result<
    ResurrectionManifest,
    InstructionError,
>)
    ensures
        match (store.mortem_state, store.vault_state) {
            (Some(_), Some(v)) => match v.resurrect_error(now, store.resurrection_delay) {
                Some(e) => r == Err::<ResurrectionManifest, InstructionError>(
                    InstructionError::Heartbeat(e),
                ),
                None => r matches Ok(m) && {
                    &&& m.elapsed == v.elapsed_at(now)
                    &&& m.soul_hash == v.soul_hash
                    &&& m.journal_count == v.journal_count
                    &&& m.coherence_score == v.coherence_score
                    &&& m.last_words == v.last_words
                },
            },
            _ => r == Err::<ResurrectionManifest, InstructionError>(
                InstructionError::AccountNotInitialized,
            ),
        },
{
    if store.mortem_state.is_none() {
        return Err(InstructionError::AccountNotInitialized);
    }
    match &store.vault_state {
        None => Err(InstructionError::AccountNotInitialized),
        Some(v) => match v.attempt_resurrect(now, store.resurrection_delay) {
            Err(e) => Err(InstructionError::Heartbeat(e)),
            Ok(m) => Ok(m),
        },
    }
}

} // verus!
