use devpet::pet::{Action, Mood, PetState, Project, MAX_STAT};

#[test]
fn deterministic() {
    let mut a = PetState::default();
    let mut b = a.clone();
    a.run_project(Project::BuildFeature);
    b.run_project(Project::BuildFeature);
    a.advance_minutes(120);
    b.advance_minutes(120);
    assert_eq!(a, b);
}

#[test]
fn project_costs_and_rewards() {
    let mut p = PetState::default();
    assert!(p.run_project(Project::FixBug));
    assert_eq!(p.xp, 15);
    assert_eq!(p.bugs_fixed, 1);
}

#[test]
fn insufficient_resources_block_project() {
    let mut p = PetState::default();
    p.energy = 0;
    assert!(!p.run_project(Project::ShipRelease));
    assert_eq!(p.projects, 0);
}

#[test]
fn bug_reward_is_bounded() {
    let mut p = PetState::default();
    p.happiness = 99;
    p.bug_squash_reward(9);
    assert_eq!(p.happiness, 100);
}

#[test]
fn fresh_pet_values() {
    let p = PetState::default();
    assert_eq!(p.name, "Byte");
    assert_eq!(
        (p.age_minutes, p.health, p.energy, p.happiness, p.focus, p.fullness),
        (0, 100, 80, 80, 60, 75)
    );
    assert_eq!((p.xp, p.level, p.care_mistakes, p.projects, p.bugs_fixed), (0, 1, 0, 0, 0));
    assert_eq!(p.mood, Mood::Idle);
}

#[test]
fn project_table() {
    let table = [
        (Project::FixBug, 15, 6, 5),
        (Project::BuildFeature, 30, 14, 12),
        (Project::Refactor, 20, 10, 9),
        (Project::ShipRelease, 50, 22, 18),
    ];
    for (p, xp, energy, focus) in table {
        assert_eq!(p.xp(), xp);
        assert_eq!(p.energy_cost(), energy);
        assert_eq!(p.focus_cost(), focus);
    }
}

#[test]
fn accepted_project_costs_exactly() {
    let mut p = PetState::default();
    assert!(p.run_project(Project::ShipRelease));
    assert_eq!(p.energy, 80 - 22);
    assert_eq!(p.focus, 60 - 18);
    assert_eq!(p.fullness, 71);
    assert_eq!(p.xp, 50);
    assert_eq!(p.projects, 1);
    assert_eq!(p.bugs_fixed, 0);
    assert_eq!(p.mood, Mood::Coding);
    assert_eq!(p.level, 1);
}

#[test]
fn refused_project_changes_nothing() {
    let mut p = PetState::default();
    p.focus = 4;
    let before = p.clone();
    assert!(!p.run_project(Project::FixBug));
    assert_eq!(p, before);
}

#[test]
fn care_actions() {
    let mut p = PetState::default();
    p.apply(Action::Feed);
    assert_eq!((p.fullness, p.happiness, p.mood), (100, 84, Mood::Happy));
    p.apply(Action::Coffee);
    assert_eq!((p.focus, p.energy, p.health, p.mood), (82, 88, 98, Mood::Happy));
    p.apply(Action::Rest);
    assert_eq!((p.energy, p.focus, p.mood), (100, 90, Mood::Sleeping));
    p.apply(Action::Play);
    assert_eq!((p.happiness, p.energy, p.xp, p.mood), (100, 90, 5, Mood::Happy));
    p.apply(Action::Medicine);
    assert_eq!((p.health, p.mood), (100, Mood::Idle));
    p.apply(Action::Code);
    assert_eq!((p.xp, p.bugs_fixed, p.projects, p.mood), (20, 1, 1, Mood::Coding));
}

#[test]
fn level_follows_xp() {
    let mut p = PetState::default();
    p.xp = 195;
    p.apply(Action::Play);
    assert_eq!(p.xp, 200);
    assert_eq!(p.level, 3);
    p.xp = 0;
    p.level = 1;
    p.bug_squash_reward(40);
    assert_eq!(p.xp, 120);
    assert_eq!(p.level, 2);
}

#[test]
fn stats_never_leave_range() {
    let mut p = PetState::default();
    for _ in 0..10 {
        p.apply(Action::Feed);
        p.apply(Action::Coffee);
        p.apply(Action::Rest);
        p.apply(Action::Medicine);
    }
    for v in [p.health, p.energy, p.happiness, p.focus, p.fullness] {
        assert!(v <= MAX_STAT);
    }
    p.advance_minutes(100_000);
    for v in [p.health, p.energy, p.happiness, p.focus, p.fullness] {
        assert!(v <= MAX_STAT);
    }
}

#[test]
fn clock_drains_stats_on_schedule() {
    let mut p = PetState::default();
    p.advance_minutes(60);
    assert_eq!(p.age_minutes, 60);
    assert_eq!(p.fullness, 72);
    assert_eq!(p.energy, 78);
    assert_eq!(p.focus, 58);
    assert_eq!(p.health, 100);
}

#[test]
fn starving_pet_gets_sick() {
    let mut p = PetState::default();
    p.fullness = 0;
    p.health = 26;
    p.advance_minutes(30);
    assert_eq!(p.health, 24);
    assert_eq!(p.care_mistakes, 1);
    assert_eq!(p.mood, Mood::Sick);
}

#[test]
fn time_composes_in_practice() {
    let mut a = PetState::default();
    let mut b = PetState::default();
    a.advance_minutes(700);
    a.advance_minutes(1300);
    b.advance_minutes(2000);
    assert_eq!(a, b);
}

#[test]
fn reward_counts_hits() {
    let mut p = PetState::default();
    p.bug_squash_reward(255);
    assert_eq!(p.bugs_fixed, 255);
    assert_eq!(p.xp, 765);
    assert_eq!(p.happiness, 100);
    assert_eq!(p.energy, 72);
    assert_eq!(p.level, 8);
}

#[test]
fn overflow_guards() {
    let mut p = PetState::default();
    assert!(p.action_fits(Action::Play));
    assert!(p.project_fits(Project::ShipRelease));
    assert!(p.squash_reward_fits(255));
    p.xp = u32::MAX - 4;
    assert!(!p.action_fits(Action::Play));
    assert!(!p.project_fits(Project::FixBug));
    assert!(!p.squash_reward_fits(2));
    p.energy = 0;
    assert!(p.project_fits(Project::FixBug));
    p.xp = 6_553_500;
    assert!(!p.action_fits(Action::Feed));
    p.xp = 6_553_499;
    assert!(p.action_fits(Action::Feed));
}

#[test]
fn code_without_focus_changes_nothing() {
    let mut p = PetState::default();
    p.focus = 4;
    p.level = 7;
    let before = p.clone();
    p.apply(Action::Code);
    assert_eq!(p, before);
}
