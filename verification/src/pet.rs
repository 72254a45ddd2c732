//! The pet simulation: stats, care actions, coding projects and the
//! minute-by-minute clock. Every operation is a total function of the state
//! and its input, stated exactly by a spec function of this module.

use vstd::prelude::*;
use vstd::string::*;

verus! {

/// Upper bound of every 0..=100 stat (health, energy, happiness, focus, fullness).
pub const MAX_STAT: u8 = 100;

#[derive(Debug, Clone, Copy, PartialEq, Eq, Structural)]
pub enum Mood {
    Idle,
    Happy,
    Coding,
    Sleeping,
    Sick,
}

/// The pet's form: an egg, the hatched Byte, or one of its evolutions (the
/// bot, the beast, and the ghost-like specter).
#[derive(Debug, Clone, Copy, PartialEq, Eq, Structural)]
pub enum Species {
    Egg,
    Byte,
    Bot,
    Beast,
    Specter,
}

#[derive(Debug, Clone, Copy, PartialEq, Eq, Structural)]
pub enum Action {
    Feed,
    Coffee,
    Rest,
    Play,
    Code,
    Medicine,
}

#[derive(Debug, Clone, Copy, PartialEq, Eq, Structural)]
pub enum Project {
    FixBug,
    BuildFeature,
    Refactor,
    ShipRelease,
}

impl Project {
    /// Experience awarded for finishing the project.
    pub open spec fn spec_xp(self) -> u32 {
        match self {
            Project::FixBug => 15,
            Project::BuildFeature => 30,
            Project::Refactor => 20,
            Project::ShipRelease => 50,
        }
    }

    /// Energy the project consumes.
    pub open spec fn spec_energy_cost(self) -> u8 {
        match self {
            Project::FixBug => 6,
            Project::BuildFeature => 14,
            Project::Refactor => 10,
            Project::ShipRelease => 22,
        }
    }

    /// Focus the project consumes.
    pub open spec fn spec_focus_cost(self) -> u8 {
        match self {
            Project::FixBug => 5,
            Project::BuildFeature => 12,
            Project::Refactor => 9,
            Project::ShipRelease => 18,
        }
    }

    pub fn xp(self) -> (r: u32)
        ensures
            r == self.spec_xp(),
    {
        match self {
            Project::FixBug => 15,
            Project::BuildFeature => 30,
            Project::Refactor => 20,
            Project::ShipRelease => 50,
        }
    }

    pub fn energy_cost(self) -> (r: u8)
        ensures
            r == self.spec_energy_cost(),
    {
        match self {
            Project::FixBug => 6,
            Project::BuildFeature => 14,
            Project::Refactor => 10,
            Project::ShipRelease => 22,
        }
    }

    pub fn focus_cost(self) -> (r: u8)
        ensures
            r == self.spec_focus_cost(),
    {
        match self {
            Project::FixBug => 5,
            Project::BuildFeature => 12,
            Project::Refactor => 9,
            Project::ShipRelease => 18,
        }
    }
}

#[derive(Debug, Clone, PartialEq, Eq)]
pub struct PetState {
    pub name: String,
    pub age_minutes: u32,
    pub health: u8,
    pub energy: u8,
    pub happiness: u8,
    pub focus: u8,
    pub fullness: u8,
    pub xp: u32,
    pub level: u16,
    pub care_mistakes: u16,
    pub projects: u16,
    pub bugs_fixed: u16,
    pub mood: Mood,
}

/// `v + n`, capped at `MAX_STAT`.
pub open spec fn raised(v: u8, n: u8) -> u8 {
    if v + n >= MAX_STAT {
        MAX_STAT
    } else {
        (v + n) as u8
    }
}

/// `v - n`, floored at zero.
pub open spec fn lowered(v: u8, n: u8) -> u8 {
    if v <= n {
        0
    } else {
        (v - n) as u8
    }
}

/// `v + n`, saturating at `u16::MAX`.
pub open spec fn sat_add_u16(v: u16, n: u16) -> u16 {
    if v + n > u16::MAX {
        u16::MAX
    } else {
        (v + n) as u16
    }
}

/// `v + n`, saturating at `u32::MAX`.
pub open spec fn sat_add_u32(v: u32, n: u32) -> u32 {
    if v + n > u32::MAX {
        u32::MAX
    } else {
        (v + n) as u32
    }
}

/// `v + n`, saturating at `u8::MAX`.
pub open spec fn sat_add_u8(v: u8, n: u8) -> u8 {
    if v + n > u8::MAX {
        u8::MAX
    } else {
        (v + n) as u8
    }
}

/// The level that belongs to an experience total: one level per 100 xp,
/// starting at 1. The quotient is narrowed to `u16` as a cast does.
pub open spec fn level_for(xp: u32) -> u16 {
    (1 + ((xp / 100) as u16)) as u16
}

/// Computing `level_for(xp)` does not overflow `u16`.
pub open spec fn level_fits(xp: u32) -> bool {
    ((xp / 100) as u16) < u16::MAX
}

fn add_capped(v: u8, n: u8) -> (r: u8)
    ensures
        r == raised(v, n),
{
    let s = v.saturating_add(n);
    if s < MAX_STAT {
        s
    } else {
        MAX_STAT
    }
}

fn sub_floored(v: u8, n: u8) -> (r: u8)
    ensures
        r == lowered(v, n),
{
    v.saturating_sub(n)
}

impl PetState {
    /// All five 0..=100 stats are within range.
    pub open spec fn stats_in_range(self) -> bool {
        &&& self.health <= MAX_STAT
        &&& self.energy <= MAX_STAT
        &&& self.happiness <= MAX_STAT
        &&& self.focus <= MAX_STAT
        &&& self.fullness <= MAX_STAT
    }

    /// The stored level is the one that belongs to the stored experience.
    pub open spec fn level_matches_xp(self) -> bool {
        self.level == level_for(self.xp)
    }

    /// The state with its level recomputed from its experience.
    pub open spec fn with_level(self) -> PetState {
        PetState { level: level_for(self.xp), ..self }
    }

    /// The pet has enough energy and focus for the project.
    pub open spec fn can_run(self, p: Project) -> bool {
        self.energy >= p.spec_energy_cost() && self.focus >= p.spec_focus_cost()
    }

    /// Running the project (when affordable) does not overflow experience or level.
    pub open spec fn run_project_fits(self, p: Project) -> bool {
        self.can_run(p) ==> {
            &&& self.xp + p.spec_xp() <= u32::MAX
            &&& level_fits((self.xp + p.spec_xp()) as u32)
        }
    }

    /// The state after an affordable project has run.
    pub open spec fn after_project(self, p: Project) -> PetState {
        PetState {
            energy: (self.energy - p.spec_energy_cost()) as u8,
            focus: (self.focus - p.spec_focus_cost()) as u8,
            fullness: lowered(self.fullness, 4),
            xp: (self.xp + p.spec_xp()) as u32,
            projects: sat_add_u16(self.projects, 1),
            bugs_fixed: if p == Project::FixBug {
                sat_add_u16(self.bugs_fixed, 1)
            } else {
                self.bugs_fixed
            },
            mood: Mood::Coding,
            ..self
        }.with_level()
    }

    /// The state after `run_project(p)`: the project runs when affordable,
    /// and nothing changes otherwise.
    pub open spec fn spec_run_project(self, p: Project) -> PetState {
        if self.can_run(p) {
            self.after_project(p)
        } else {
            self
        }
    }

    /// Applying the action does not overflow experience or level.
    pub open spec fn apply_fits(self, a: Action) -> bool {
        match a {
            Action::Play => self.xp + 5 <= u32::MAX && level_fits((self.xp + 5) as u32),
            Action::Code => self.run_project_fits(Project::FixBug),
            _ => level_fits(self.xp),
        }
    }

    /// The state after a care action.
    pub open spec fn spec_apply(self, a: Action) -> PetState {
        match a {
            Action::Feed => PetState {
                fullness: raised(self.fullness, 25),
                happiness: raised(self.happiness, 4),
                mood: Mood::Happy,
                ..self
            }.with_level(),
            Action::Coffee => PetState {
                focus: raised(self.focus, 22),
                energy: raised(self.energy, 8),
                health: lowered(self.health, 2),
                mood: Mood::Happy,
                ..self
            }.with_level(),
            Action::Rest => PetState {
                energy: raised(self.energy, 35),
                focus: raised(self.focus, 8),
                mood: Mood::Sleeping,
                ..self
            }.with_level(),
            Action::Play => PetState {
                happiness: raised(self.happiness, 18),
                energy: lowered(self.energy, 10),
                xp: (self.xp + 5) as u32,
                mood: Mood::Happy,
                ..self
            }.with_level(),
            Action::Code => self.spec_run_project(Project::FixBug),
            Action::Medicine => PetState {
                health: raised(self.health, 30),
                mood: Mood::Idle,
                ..self
            }.with_level(),
        }
    }

    /// Rewarding the minigame does not overflow experience or level.
    pub open spec fn reward_fits(self, hits: u8) -> bool {
        &&& self.xp + 3 * hits <= u32::MAX
        &&& level_fits((self.xp + 3 * hits) as u32)
    }

    /// The state after the Bug Squash reward for `hits` squashed bugs.
    pub open spec fn spec_reward(self, hits: u8) -> PetState {
        PetState {
            bugs_fixed: sat_add_u16(self.bugs_fixed, hits as u16),
            xp: (self.xp + 3 * hits) as u32,
            happiness: raised(self.happiness, sat_add_u8(5, hits)),
            energy: lowered(self.energy, 8),
            mood: Mood::Happy,
            ..self
        }.with_level()
    }

    /// One simulated minute.
    pub open spec fn tick(self) -> PetState {
        let age = sat_add_u32(self.age_minutes, 1);
        let fullness = if age % 20 == 0 {
            lowered(self.fullness, 1)
        } else {
            self.fullness
        };
        let energy = if age % 25 == 0 {
            lowered(self.energy, 1)
        } else {
            self.energy
        };
        let focus = if age % 30 == 0 {
            lowered(self.focus, 1)
        } else {
            self.focus
        };
        let starving = fullness == 0 && age % 30 == 0;
        let health = if starving {
            lowered(self.health, 2)
        } else {
            self.health
        };
        let care_mistakes = if starving {
            sat_add_u16(self.care_mistakes, 1)
        } else {
            self.care_mistakes
        };
        let mood = if health < 25 {
            Mood::Sick
        } else {
            self.mood
        };
        PetState { age_minutes: age, fullness, energy, focus, health, care_mistakes, mood, ..self }
    }

    /// The state after `minutes` simulated minutes.
    pub open spec fn advanced(self, minutes: nat) -> PetState
        decreases minutes,
    {
        if minutes == 0 {
            self
        } else {
            self.advanced((minutes - 1) as nat).tick()
        }
    }
}


impl PetState {
    fn update_level(&mut self)
        requires
            level_fits(old(self).xp),
        ensures
            *final(self) == old(self).with_level(),
    {
        let quotient: u32 = self.xp / 100;
        let narrowed: u16 = quotient as u16;
        self.level = 1 + narrowed;
    }

    /// Applies a care action (`Code` runs the `FixBug` project).
    pub fn apply(&mut self, action: Action)
        requires
            old(self).apply_fits(action),
        ensures
            *final(self) == old(self).spec_apply(action),
    {
        match action {
            Action::Feed => {
                self.fullness = add_capped(self.fullness, 25);
                self.happiness = add_capped(self.happiness, 4);
                self.mood = Mood::Happy;
            },
            Action::Coffee => {
                self.focus = add_capped(self.focus, 22);
                self.energy = add_capped(self.energy, 8);
                self.health = sub_floored(self.health, 2);
                self.mood = Mood::Happy;
            },
            Action::Rest => {
                self.energy = add_capped(self.energy, 35);
                self.focus = add_capped(self.focus, 8);
                self.mood = Mood::Sleeping;
            },
            Action::Play => {
                self.happiness = add_capped(self.happiness, 18);
                self.energy = sub_floored(self.energy, 10);
                self.xp = self.xp + 5;
                self.mood = Mood::Happy;
            },
            Action::Code => {
                self.run_project(Project::FixBug);
                return ;
            },
            Action::Medicine => {
                self.health = add_capped(self.health, 30);
                self.mood = Mood::Idle;
            },
        }
        self.update_level();
    }

    /// Runs a project when the pet has the energy and focus for it; returns
    /// whether it ran. A refused project leaves the state unchanged.
    pub fn run_project(&mut self, p: Project) -> (ran: bool)
        requires
            old(self).run_project_fits(p),
        ensures
            ran == old(self).can_run(p),
            *final(self) == old(self).spec_run_project(p),
    {
        if self.energy < p.energy_cost() || self.focus < p.focus_cost() {
            return false;
        }
        self.energy = sub_floored(self.energy, p.energy_cost());
        self.focus = sub_floored(self.focus, p.focus_cost());
        self.fullness = sub_floored(self.fullness, 4);
        self.xp = self.xp + p.xp();
        self.projects = self.projects.saturating_add(1);
        if p == Project::FixBug {
            self.bugs_fixed = self.bugs_fixed.saturating_add(1);
        }
        self.mood = Mood::Coding;
        self.update_level();
        true
    }

    /// Rewards a finished Bug Squash round with `hits` squashed bugs.
    pub fn bug_squash_reward(&mut self, hits: u8)
        requires
            old(self).reward_fits(hits),
        ensures
            *final(self) == old(self).spec_reward(hits),
    {
        self.bugs_fixed = self.bugs_fixed.saturating_add(hits as u16);
        self.xp = self.xp + hits as u32 * 3;
        self.happiness = add_capped(self.happiness, 5u8.saturating_add(hits));
        self.energy = sub_floored(self.energy, 8);
        self.mood = Mood::Happy;
        self.update_level();
    }

    /// Lets `minutes` simulated minutes pass.
    pub fn advance_minutes(&mut self, minutes: u32)
        ensures
            *final(self) == old(self).advanced(minutes as nat),
    {
        let ghost start = *old(self);
        let mut done: u32 = 0;
        while done < minutes
            invariant
                done <= minutes,
                *self == start.advanced(done as nat),
            decreases minutes - done,
        {
            self.age_minutes = self.age_minutes.saturating_add(1);
            if self.age_minutes % 20 == 0 {
                self.fullness = sub_floored(self.fullness, 1);
            }
            if self.age_minutes % 25 == 0 {
                self.energy = sub_floored(self.energy, 1);
            }
            if self.age_minutes % 30 == 0 {
                self.focus = sub_floored(self.focus, 1);
            }
            if self.fullness == 0 && self.age_minutes % 30 == 0 {
                self.health = sub_floored(self.health, 2);
                self.care_mistakes = self.care_mistakes.saturating_add(1);
            }
            if self.health < 25 {
                self.mood = Mood::Sick;
            }
            done = done + 1;
        }
    }
}

fn level_fits_exec(xp: u32) -> (r: bool)
    ensures
        r == level_fits(xp),
{
    let quotient: u32 = xp / 100;
    let narrowed: u16 = quotient as u16;
    narrowed < u16::MAX
}

fn xp_room(xp: u32, extra: u32) -> (r: bool)
    ensures
        r == (xp + extra <= u32::MAX && level_fits((xp + extra) as u32)),
{
    match xp.checked_add(extra) {
        Some(total) => level_fits_exec(total),
        None => false,
    }
}

impl PetState {
    /// Whether `run_project(p)` can be called without overflowing experience or level.
    pub fn project_fits(&self, p: Project) -> (r: bool)
        ensures
            r == self.run_project_fits(p),
    {
        if self.energy < p.energy_cost() || self.focus < p.focus_cost() {
            return true;
        }
        xp_room(self.xp, p.xp())
    }

    /// Whether `apply(action)` can be called without overflowing experience or level.
    pub fn action_fits(&self, action: Action) -> (r: bool)
        ensures
            r == self.apply_fits(action),
    {
        match action {
            Action::Play => xp_room(self.xp, 5),
            Action::Code => self.project_fits(Project::FixBug),
            _ => level_fits_exec(self.xp),
        }
    }

    /// Whether `bug_squash_reward(hits)` can be called without overflowing experience or level.
    pub fn squash_reward_fits(&self, hits: u8) -> (r: bool)
        ensures
            r == self.reward_fits(hits),
    {
        xp_room(self.xp, hits as u32 * 3)
    }
}

impl Default for PetState {
    /// The freshly hatched Byte.
    fn default() -> (r: Self)
        ensures
            r.name@ == "Byte"@,
            r.age_minutes == 0,
            r.health == 100,
            r.energy == 80,
            r.happiness == 80,
            r.focus == 60,
            r.fullness == 75,
            r.xp == 0,
            r.level == 1,
            r.care_mistakes == 0,
            r.projects == 0,
            r.bugs_fixed == 0,
            r.mood == Mood::Idle,
            r.stats_in_range(),
            r.level_matches_xp(),
    {
        PetState {
            name: String::from_str("Byte"),
            age_minutes: 0,
            health: 100,
            energy: 80,
            happiness: 80,
            focus: 60,
            fullness: 75,
            xp: 0,
            level: 1,
            care_mistakes: 0,
            projects: 0,
            bugs_fixed: 0,
            mood: Mood::Idle,
        }
    }
}


/// One simulated minute keeps every stat in range.
proof fn lemma_tick_in_range(s: PetState)
    requires
        s.stats_in_range(),
    ensures
        s.tick().stats_in_range(),
        s.tick().xp == s.xp,
        s.tick().level == s.level,
        s.tick().age_minutes >= s.age_minutes,
{
}

/// Stats stay within 0..=MAX_STAT: whatever the pet does, and however much
/// time passes, a pet whose stats are in range keeps them in range.
pub proof fn stats_stay_in_range(s: PetState, a: Action, p: Project, hits: u8, minutes: nat)
    requires
        s.stats_in_range(),
    ensures
        s.spec_apply(a).stats_in_range(),
        s.spec_run_project(p).stats_in_range(),
        s.spec_reward(hits).stats_in_range(),
        s.advanced(minutes).stats_in_range(),
    decreases minutes,
{
    if minutes > 0 {
        stats_stay_in_range(s, a, p, hits, (minutes - 1) as nat);
        lemma_tick_in_range(s.advanced((minutes - 1) as nat));
    }
}

/// Time alone changes neither experience nor level, and never lowers the age.
pub proof fn time_keeps_progress(s: PetState, minutes: nat)
    ensures
        s.advanced(minutes).xp == s.xp,
        s.advanced(minutes).level == s.level,
        s.advanced(minutes).projects == s.projects,
        s.advanced(minutes).bugs_fixed == s.bugs_fixed,
        s.advanced(minutes).age_minutes >= s.age_minutes,
    decreases minutes,
{
    if minutes > 0 {
        time_keeps_progress(s, (minutes - 1) as nat);
    }
}

/// The level always follows the experience: a pet whose level matches its xp
/// keeps that agreement after any action, project, reward or passage of time.
pub proof fn level_tracks_xp(s: PetState, a: Action, p: Project, hits: u8, minutes: nat)
    requires
        s.level_matches_xp(),
    ensures
        s.spec_apply(a).level_matches_xp(),
        s.spec_run_project(p).level_matches_xp(),
        s.spec_reward(hits).level_matches_xp(),
        s.advanced(minutes).level_matches_xp(),
{
    time_keeps_progress(s, minutes);
}

/// Experience is never lost: actions, projects and rewards never lower xp,
/// project or fixed-bug counts.
pub proof fn progress_is_never_lost(s: PetState, a: Action, p: Project, hits: u8)
    requires
        s.apply_fits(a),
        s.run_project_fits(p),
        s.reward_fits(hits),
    ensures
        s.spec_apply(a).xp >= s.xp,
        s.spec_run_project(p).xp >= s.xp,
        s.spec_reward(hits).xp >= s.xp,
        s.spec_run_project(p).projects >= s.projects,
        s.spec_reward(hits).bugs_fixed >= s.bugs_fixed,
{
}

/// A refused project changes nothing; an accepted one costs exactly its
/// energy and focus and awards exactly its experience.
pub proof fn project_costs_and_rewards(s: PetState, p: Project)
    requires
        s.run_project_fits(p),
    ensures
        !s.can_run(p) ==> s.spec_run_project(p) == s,
        s.can_run(p) ==> s.spec_run_project(p).energy == s.energy - p.spec_energy_cost(),
        s.can_run(p) ==> s.spec_run_project(p).focus == s.focus - p.spec_focus_cost(),
        s.can_run(p) ==> s.spec_run_project(p).xp == s.xp + p.spec_xp(),
        s.can_run(p) ==> s.spec_run_project(p).projects == sat_add_u16(s.projects, 1),
{
}

/// Offline progression is consistent: letting `m` minutes pass and then `n`
/// more gives the same pet as letting `m + n` minutes pass at once.
pub proof fn time_composes(s: PetState, m: nat, n: nat)
    ensures
        s.advanced(m).advanced(n) == s.advanced(m + n),
    decreases n,
{
    if n > 0 {
        time_composes(s, m, (n - 1) as nat);
        assert((m + n - 1) as nat == (m + (n - 1)) as nat);
    }
}

/// Coding from the care menu is the Fix Bug project: it runs exactly when
/// Fix Bug is affordable, with its costs and rewards, and otherwise leaves the
/// whole pet (level included) unchanged.
pub proof fn code_is_fixing_a_bug(s: PetState)
    ensures
        s.apply_fits(Action::Code) == s.run_project_fits(Project::FixBug),
        s.spec_apply(Action::Code) == s.spec_run_project(Project::FixBug),
        !s.can_run(Project::FixBug) ==> s.spec_apply(Action::Code) == s,
{
}

/// What every care action keeps: the name, age, care record, project and
/// bug counts, and (after any action but Code) the level belongs to the xp:
/// one level per 100 xp, starting at 1.
pub open spec fn care_keeps_record(s: PetState, t: PetState) -> bool {
    &&& t.name == s.name
    &&& t.age_minutes == s.age_minutes
    &&& t.care_mistakes == s.care_mistakes
    &&& t.projects == s.projects
    &&& t.bugs_fixed == s.bugs_fixed
    &&& (t.xp / 100 < 65535 ==> t.level == 1 + t.xp / 100)
}

/// The care actions, stat by stat: Feed adds 25 fullness and 4 happiness;
/// Coffee adds 22 focus and 8 energy and costs 2 health; Rest adds 35 energy
/// and 8 focus; Play adds 18 happiness and 5 xp and costs 10 energy; Medicine
/// adds 30 health. Gains stop at 100 and costs stop at 0, every other stat is
/// kept, and the mood becomes Happy, Happy, Sleeping, Happy and Idle.
pub proof fn care_actions_do_what_they_say(s: PetState)
    requires
        s.apply_fits(Action::Play),
    ensures
        ({
            let t = s.spec_apply(Action::Feed);
            &&& t.fullness == if s.fullness + 25 > 100 { 100 } else { s.fullness + 25 }
            &&& t.happiness == if s.happiness + 4 > 100 { 100 } else { s.happiness + 4 }
            &&& t.health == s.health && t.energy == s.energy && t.focus == s.focus
            &&& t.xp == s.xp
            &&& t.mood == Mood::Happy
            &&& care_keeps_record(s, t)
        }),
        ({
            let t = s.spec_apply(Action::Coffee);
            &&& t.focus == if s.focus + 22 > 100 { 100 } else { s.focus + 22 }
            &&& t.energy == if s.energy + 8 > 100 { 100 } else { s.energy + 8 }
            &&& t.health == if s.health < 2 { 0 } else { s.health - 2 }
            &&& t.happiness == s.happiness && t.fullness == s.fullness
            &&& t.xp == s.xp
            &&& t.mood == Mood::Happy
            &&& care_keeps_record(s, t)
        }),
        ({
            let t = s.spec_apply(Action::Rest);
            &&& t.energy == if s.energy + 35 > 100 { 100 } else { s.energy + 35 }
            &&& t.focus == if s.focus + 8 > 100 { 100 } else { s.focus + 8 }
            &&& t.health == s.health && t.happiness == s.happiness && t.fullness == s.fullness
            &&& t.xp == s.xp
            &&& t.mood == Mood::Sleeping
            &&& care_keeps_record(s, t)
        }),
        ({
            let t = s.spec_apply(Action::Play);
            &&& t.happiness == if s.happiness + 18 > 100 { 100 } else { s.happiness + 18 }
            &&& t.energy == if s.energy < 10 { 0 } else { s.energy - 10 }
            &&& t.xp == s.xp + 5
            &&& t.health == s.health && t.focus == s.focus && t.fullness == s.fullness
            &&& t.mood == Mood::Happy
            &&& care_keeps_record(s, t)
        }),
        ({
            let t = s.spec_apply(Action::Medicine);
            &&& t.health == if s.health + 30 > 100 { 100 } else { s.health + 30 }
            &&& t.energy == s.energy && t.happiness == s.happiness && t.focus == s.focus
            &&& t.fullness == s.fullness
            &&& t.xp == s.xp
            &&& t.mood == Mood::Idle
            &&& care_keeps_record(s, t)
        }),
{
}

/// A project runs exactly when the pet has its energy and focus (Fix Bug 6
/// and 5, Build Feature 14 and 12, Refactor 10 and 9, Ship Release 22 and
/// 18). Then it spends them, costs 4 fullness (stopping at 0), awards its xp
/// (15, 30, 20, 50), counts one more project, counts one more fixed bug only
/// for Fix Bug (both counts stop at u16::MAX), sets the mood to Coding and
/// the level from the xp; nothing else changes. Otherwise nothing changes.
pub proof fn projects_do_what_they_say(s: PetState, p: Project)
    requires
        s.run_project_fits(p),
    ensures
        ({
            let (energy, focus, xp): (int, int, int) = match p {
                Project::FixBug => (6, 5, 15),
                Project::BuildFeature => (14, 12, 30),
                Project::Refactor => (10, 9, 20),
                Project::ShipRelease => (22, 18, 50),
            };
            let t = s.spec_run_project(p);
            &&& s.can_run(p) == (s.energy >= energy && s.focus >= focus)
            &&& s.can_run(p) ==> {
                &&& t.energy == s.energy - energy
                &&& t.focus == s.focus - focus
                &&& t.fullness == if s.fullness < 4 { 0 } else { s.fullness - 4 }
                &&& t.xp == s.xp + xp
                &&& t.projects == if s.projects == u16::MAX { u16::MAX as int } else { s.projects + 1 }
                &&& p == Project::FixBug ==> t.bugs_fixed == if s.bugs_fixed == u16::MAX {
                    u16::MAX as int
                } else {
                    s.bugs_fixed + 1
                }
                &&& p != Project::FixBug ==> t.bugs_fixed == s.bugs_fixed
                &&& t.mood == Mood::Coding
                &&& (t.xp / 100 < 65535 ==> t.level == 1 + t.xp / 100)
                &&& t.name == s.name && t.age_minutes == s.age_minutes
                &&& t.health == s.health && t.happiness == s.happiness
                &&& t.care_mistakes == s.care_mistakes
            }
            &&& !s.can_run(p) ==> t == s
        }),
{
}

/// The Bug Squash reward: every hit counts as a fixed bug (stopping at
/// u16::MAX) and is worth 3 xp; happiness rises by 5 plus the hits (that
/// bonus stops at 255, the total at 100); energy drops by 8 (stopping at 0);
/// the mood becomes Happy and the level follows the xp. Nothing else changes.
pub proof fn reward_does_what_it_says(s: PetState, hits: u8)
    requires
        s.reward_fits(hits),
    ensures
        ({
            let t = s.spec_reward(hits);
            let bonus: int = if 5 + hits > 255 { 255 } else { 5 + hits };
            &&& t.bugs_fixed == if s.bugs_fixed + hits > u16::MAX {
                u16::MAX as int
            } else {
                s.bugs_fixed + hits
            }
            &&& t.xp == s.xp + 3 * hits
            &&& t.happiness == if s.happiness + bonus > 100 { 100 } else { s.happiness + bonus }
            &&& t.energy == if s.energy < 8 { 0 } else { s.energy - 8 }
            &&& t.mood == Mood::Happy
            &&& (t.xp / 100 < 65535 ==> t.level == 1 + t.xp / 100)
            &&& t.name == s.name && t.age_minutes == s.age_minutes
            &&& t.health == s.health && t.focus == s.focus && t.fullness == s.fullness
            &&& t.care_mistakes == s.care_mistakes && t.projects == s.projects
        }),
{
}

/// Each simulated minute: the age grows by one (stopping at u32::MAX); when
/// the new age is a multiple of 20, 25 or 30 the pet loses one fullness,
/// energy or focus respectively (stopping at 0); when it is a multiple of 30
/// and the pet is (then) empty, it loses 2 health (stopping at 0) and one
/// more care mistake is counted; and a pet whose health is then below 25 is
/// Sick, while any other pet keeps its mood. Nothing else changes. No time
/// passing leaves the pet as it is.
pub proof fn each_minute_does_what_it_says(s: PetState, n: nat)
    ensures
        ({
            let u = s.advanced(n);
            let t = s.advanced(n + 1);
            let age: int = if u.age_minutes == u32::MAX { u32::MAX as int } else { u.age_minutes + 1 };
            let fullness: int = if age % 20 == 0 && u.fullness > 0 { u.fullness - 1 } else { u.fullness as int };
            let starving = fullness == 0 && age % 30 == 0;
            let health: int = if starving { if u.health < 2 { 0 } else { u.health - 2 } } else { u.health as int };
            &&& t.age_minutes == age
            &&& t.fullness == fullness
            &&& t.energy == if age % 25 == 0 && u.energy > 0 { u.energy - 1 } else { u.energy as int }
            &&& t.focus == if age % 30 == 0 && u.focus > 0 { u.focus - 1 } else { u.focus as int }
            &&& t.health == health
            &&& t.care_mistakes == if starving && u.care_mistakes < u16::MAX {
                u.care_mistakes + 1
            } else {
                u.care_mistakes as int
            }
            &&& t.mood == if health < 25 { Mood::Sick } else { u.mood }
            &&& t.name == u.name && t.happiness == u.happiness && t.xp == u.xp
            &&& t.level == u.level && t.projects == u.projects && t.bugs_fixed == u.bugs_fixed
        }),
        s.advanced(0) == s,
{
    assert(s.advanced(n + 1) == s.advanced(n).tick());
}

/// A pet left for at least one minute whose health is then below 25 is Sick.
pub proof fn low_health_means_sick(s: PetState, minutes: nat)
    requires
        minutes >= 1,
        s.advanced(minutes).health < 25,
    ensures
        s.advanced(minutes).mood == Mood::Sick,
{
    each_minute_does_what_it_says(s, (minutes - 1) as nat);
}

} // verus!
