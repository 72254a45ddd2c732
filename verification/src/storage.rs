//! Save-game rules: what a save holds, when a loaded save is trusted, and how
//! much offline time a restored pet catches up on. Reading and writing the
//! file itself is left to the host.

use vstd::prelude::*;
use crate::pet::{Mood, PetState};

verus! {

/// Version of the save layout that this build reads and writes.
pub const SCHEMA: u16 = 1;

/// Offline catch-up is capped at one week of minutes.
pub const OFFLINE_CAP_MINUTES: u64 = 10080;

#[derive(Debug)]
pub struct SaveGame {
    pub schema_version: u16,
    pub pet: PetState,
    pub last_saved_at: u64,
}

/// Whole minutes between the save time and `now` (none when the clock went
/// backwards), capped at `OFFLINE_CAP_MINUTES`.
pub open spec fn spec_offline_minutes(now: u64, last_saved_at: u64) -> u32 {
    let elapsed: int = if now >= last_saved_at {
        now - last_saved_at
    } else {
        0
    };
    let minutes: int = elapsed / 60;
    if minutes > OFFLINE_CAP_MINUTES {
        OFFLINE_CAP_MINUTES as u32
    } else {
        minutes as u32
    }
}

/// The pet a host starts with, given what it read from disk (`None` when the
/// file was missing or unreadable) and the current Unix time in seconds.
pub open spec fn spec_restore(save: Option<SaveGame>, now: u64) -> Option<PetState> {
    match save {
        Some(s) => if s.schema_version == SCHEMA {
            Some(s.pet.advanced(spec_offline_minutes(now, s.last_saved_at) as nat))
        } else {
            None
        },
        None => None,
    }
}

/// Minutes of offline progression owed to a save written at `last_saved_at`.
pub fn offline_minutes(now: u64, last_saved_at: u64) -> (m: u32)
    ensures
        m == spec_offline_minutes(now, last_saved_at),
        m <= OFFLINE_CAP_MINUTES,
{
    let minutes: u64 = now.saturating_sub(last_saved_at) / 60;
    if minutes > OFFLINE_CAP_MINUTES {
        OFFLINE_CAP_MINUTES as u32
    } else {
        minutes as u32
    }
}

/// The pet to start with: the saved pet caught up on its offline minutes when
/// the save exists and has the current schema, a fresh pet otherwise.
pub fn restore(save: Option<SaveGame>, now: u64) -> (pet: PetState)
    ensures
        spec_restore(save, now) matches Some(p) ==> pet == p,
        spec_restore(save, now) is None ==> {
            &&& pet.name@ == "Byte"@
            &&& pet.age_minutes == 0
            &&& pet.health == 100
            &&& pet.energy == 80
            &&& pet.happiness == 80
            &&& pet.focus == 60
            &&& pet.fullness == 75
            &&& pet.xp == 0
            &&& pet.level == 1
            &&& pet.care_mistakes == 0
            &&& pet.projects == 0
            &&& pet.bugs_fixed == 0
            &&& pet.mood == Mood::Idle
        },
{
    match save {
        Some(s) => {
            if s.schema_version != SCHEMA {
                return PetState::default();
            }
            let mut pet = s.pet;
            let minutes = offline_minutes(now, s.last_saved_at);
            pet.advance_minutes(minutes);
            pet
        },
        None => PetState::default(),
    }
}

/// The save written for `pet` at Unix time `now`.
pub fn snapshot(pet: PetState, now: u64) -> (s: SaveGame)
    ensures
        s.schema_version == SCHEMA,
        s.pet == pet,
        s.last_saved_at == now,
{
    SaveGame { schema_version: SCHEMA, pet, last_saved_at: now }
}

/// A save restored at the moment it was written gives back the saved pet.
pub proof fn restore_undoes_snapshot(pet: PetState, now: u64)
    ensures
        spec_restore(Some(SaveGame { schema_version: SCHEMA, pet, last_saved_at: now }), now)
            == Some(pet),
{
}

/// A save restored later gives back the saved pet advanced by the whole
/// minutes that passed, but never by more than one week.
pub proof fn restore_catches_up(pet: PetState, saved_at: u64, now: u64)
    requires
        saved_at <= now,
    ensures
        spec_restore(Some(SaveGame { schema_version: SCHEMA, pet, last_saved_at: saved_at }), now)
            == Some(pet.advanced(spec_offline_minutes(now, saved_at) as nat)),
        spec_offline_minutes(now, saved_at) <= OFFLINE_CAP_MINUTES,
        (now - saved_at) / 60 <= OFFLINE_CAP_MINUTES ==> spec_offline_minutes(now, saved_at) == (
        now - saved_at) / 60,
{
}

/// A save of any other schema is never trusted.
pub proof fn foreign_schema_is_rejected(save: SaveGame, now: u64)
    requires
        save.schema_version != SCHEMA,
    ensures
        spec_restore(Some(save), now) is None,
{
}

/// Offline catch-up counts the whole minutes since the save, none if the
/// clock went backwards, and at most one week (10080 minutes).
pub proof fn offline_minutes_are_whole_and_capped(now: u64, last_saved_at: u64)
    ensures
        now < last_saved_at ==> spec_offline_minutes(now, last_saved_at) == 0,
        now >= last_saved_at && (now - last_saved_at) / 60 <= 10080 ==> spec_offline_minutes(
            now,
            last_saved_at,
        ) == (now - last_saved_at) / 60,
        now >= last_saved_at && (now - last_saved_at) / 60 > 10080 ==> spec_offline_minutes(
            now,
            last_saved_at,
        ) == 10080,
{
}

/// A save of the current schema (1) is restored as its pet advanced by the
/// offline minutes; a save of any other schema, or no save, gives no pet.
pub proof fn restore_trusts_only_schema_one(save: Option<SaveGame>, now: u64)
    ensures
        save is Some && save->0.schema_version == 1 ==> spec_restore(save, now) == Some(
            save->0.pet.advanced(spec_offline_minutes(now, save->0.last_saved_at) as nat),
        ),
        save is Some && save->0.schema_version != 1 ==> spec_restore(save, now) is None,
        save is None ==> spec_restore(save, now) is None,
{
}

} // verus!
