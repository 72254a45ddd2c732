use devpet::pet::{PetState, Project};
use devpet::storage::{offline_minutes, restore, snapshot, SaveGame, OFFLINE_CAP_MINUTES, SCHEMA};

#[test]
fn offline_minutes_are_whole_and_capped() {
    assert_eq!(offline_minutes(1_000, 1_000), 0);
    assert_eq!(offline_minutes(1_119, 1_000), 1);
    assert_eq!(offline_minutes(1_000, 5_000), 0);
    assert_eq!(offline_minutes(u64::MAX, 0), OFFLINE_CAP_MINUTES as u32);
    assert_eq!(offline_minutes(60 * 10_080 + 59, 0), 10_080);
}

#[test]
fn restore_gives_back_a_fresh_snapshot() {
    let mut pet = PetState::default();
    pet.run_project(Project::Refactor);
    let save = snapshot(pet.clone(), 42);
    assert_eq!(save.schema_version, SCHEMA);
    assert_eq!(save.last_saved_at, 42);
    assert_eq!(restore(Some(save), 42), pet);
}

#[test]
fn restore_catches_up_offline_time() {
    let pet = PetState::default();
    let save = snapshot(pet.clone(), 0);
    let mut expected = pet;
    expected.advance_minutes(90);
    assert_eq!(restore(Some(save), 90 * 60 + 30), expected);
}

#[test]
fn restore_rejects_missing_or_foreign_saves() {
    let mut pet = PetState::default();
    pet.xp = 500;
    let foreign = SaveGame { schema_version: SCHEMA + 1, pet, last_saved_at: 0 };
    assert_eq!(restore(Some(foreign), 0), PetState::default());
    assert_eq!(restore(None, 0), PetState::default());
}
