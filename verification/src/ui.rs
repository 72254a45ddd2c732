//! The menu and screen logic of the handheld UI as a state machine: each
//! frame the host reports what was pressed or clicked, and `UiState::step`
//! decides the next screen and selection and which game effect to perform.
//! Drawing, pointer geometry and timing stay with the host.

use vstd::prelude::*;
use crate::pet::{Action, Mood, Project};

verus! {

/// Number of concepts in the sprite gallery.
pub const GALLERY_SIZE: usize = 10;

#[derive(Debug, Clone, Copy, PartialEq, Eq, Structural)]
pub enum Screen {
    Home,
    Care,
    Code,
    Play,
    BugSquash,
    Profile,
    Evolution,
    SpriteGallery,
}

/// What the host observed during one frame.
#[derive(Debug, Clone, Copy, PartialEq, Eq, Structural)]
pub struct FrameInput {
    /// Enter, Z or Space was pressed.
    pub confirm: bool,
    /// Escape or X was pressed.
    pub back_key: bool,
    /// The Back heading was clicked.
    pub back_clicked: bool,
    /// The menu item with this index was clicked.
    pub clicked_item: Option<usize>,
    /// The Home shortcut with this index (keys 1 to 4) was pressed.
    pub shortcut: Option<usize>,
    pub right: bool,
    pub left: bool,
    pub down: bool,
    pub up: bool,
    /// The gallery's next arrow was clicked.
    pub next_clicked: bool,
    /// The gallery's previous arrow was clicked.
    pub previous_clicked: bool,
    /// The Bug Squash round has run its full time.
    pub round_over: bool,
    /// The bug was clicked during a Bug Squash round.
    pub bug_clicked: bool,
}

/// What the host must do to the pet or the minigame after a frame.
#[derive(Debug, Clone, Copy, PartialEq, Eq, Structural)]
pub enum Effect {
    Nothing,
    Care(Action),
    Code(Project),
    /// A Bug Squash round begins now.
    StartRound,
    /// The bug was squashed and moves on.
    Squashed,
    /// The round ended with this many hits; reward the pet.
    Reward(u8),
}

#[derive(Debug, Clone, Copy, PartialEq, Eq, Structural)]
pub struct UiState {
    pub screen: Screen,
    pub selection: usize,
    pub sprite_index: usize,
    pub hits: u8,
}

/// How many menu items a screen offers.
pub open spec fn spec_item_count(screen: Screen) -> usize {
    match screen {
        Screen::Home => 4,
        Screen::Care => 4,
        Screen::Code => 4,
        Screen::Profile => 3,
        Screen::Play => 1,
        _ => 0,
    }
}

pub fn item_count(screen: Screen) -> (n: usize)
    ensures
        n == spec_item_count(screen),
{
    match screen {
        Screen::Home => 4,
        Screen::Care => 4,
        Screen::Code => 4,
        Screen::Profile => 3,
        Screen::Play => 1,
        _ => 0,
    }
}

/// The care action of each Care menu item.
pub open spec fn care_action(selection: usize) -> Action {
    match selection {
        0 => Action::Feed,
        1 => Action::Coffee,
        2 => Action::Rest,
        _ => Action::Medicine,
    }
}

/// The project of each Code menu item.
pub open spec fn code_project(selection: usize) -> Project {
    match selection {
        0 => Project::FixBug,
        1 => Project::BuildFeature,
        2 => Project::Refactor,
        _ => Project::ShipRelease,
    }
}

/// The screen each Home menu item opens.
pub open spec fn home_target(selection: usize) -> Screen {
    match selection {
        0 => Screen::Code,
        1 => Screen::Care,
        2 => Screen::Play,
        _ => Screen::Profile,
    }
}

/// The screen each Profile menu item opens.
pub open spec fn profile_target(selection: usize) -> Screen {
    match selection {
        0 => Screen::Evolution,
        1 => Screen::SpriteGallery,
        _ => Screen::Home,
    }
}

/// Down moves one item on and Up one item back, both wrapping.
pub open spec fn navigated(selection: usize, count: usize, down: bool, up: bool) -> usize {
    let after_down = if down {
        ((selection + 1) % (count as int)) as usize
    } else {
        selection
    };
    if up {
        ((after_down + count - 1) % (count as int)) as usize
    } else {
        after_down
    }
}

/// The input is one the host can produce: a clicked item exists on the
/// current screen and a shortcut is one of the four Home keys.
pub open spec fn input_fits(s: UiState, input: FrameInput) -> bool {
    &&& input.clicked_item matches Some(i) ==> i < spec_item_count(s.screen)
    &&& input.shortcut matches Some(i) ==> i < 4
}

/// The state is one the UI can reach: the selection is a menu item of the
/// screen (or 0 where there is no menu) and the gallery shows a concept.
pub open spec fn state_fits(s: UiState) -> bool {
    &&& s.selection < spec_item_count(s.screen) || s.selection == 0
    &&& s.sprite_index < GALLERY_SIZE
}

impl UiState {
    /// The UI at start-up: the Home screen with its first item selected.
    pub open spec fn spec_initial() -> UiState {
        UiState { screen: Screen::Home, selection: 0, sprite_index: 0, hits: 0 }
    }

    /// A screen change, with the first item of the new screen selected.
    pub open spec fn open(self, screen: Screen) -> UiState {
        UiState { screen, selection: 0, ..self }
    }

    /// The frame's confirmation and selection after clicks and shortcuts.
    pub open spec fn chosen(self, input: FrameInput) -> (bool, usize) {
        let (confirm, selection) = match input.clicked_item {
            Some(i) => (true, i),
            None => (input.confirm, self.selection),
        };
        if self.screen == Screen::Home {
            match input.shortcut {
                Some(i) => (true, i),
                None => (confirm, selection),
            }
        } else {
            (confirm, selection)
        }
    }

    /// Back was requested: a key, or a click on the heading of a screen that has one.
    pub open spec fn back_requested(self, input: FrameInput) -> bool {
        input.back_key || (input.back_clicked && self.screen != Screen::Home && self.screen
            != Screen::BugSquash)
    }

    /// The next state and the effect of one frame.
    pub open spec fn spec_step(self, input: FrameInput) -> (UiState, Effect) {
        let (confirm, selection) = self.chosen(input);
        let s = UiState { selection, ..self };
        if self.back_requested(input) {
            match s.screen {
                Screen::Home => (s, Effect::Nothing),
                Screen::Evolution | Screen::SpriteGallery => (s.open(Screen::Profile), Effect::Nothing),
                _ => (s.open(Screen::Home), Effect::Nothing),
            }
        } else {
            match s.screen {
                Screen::Home => {
                    let after_right = if input.right {
                        ((s.selection + 1) % 4) as usize
                    } else {
                        s.selection
                    };
                    let after_left = if input.left {
                        ((after_right + 3) % 4) as usize
                    } else {
                        after_right
                    };
                    if confirm {
                        (s.open(home_target(after_left)), Effect::Nothing)
                    } else {
                        (UiState { selection: after_left, ..s }, Effect::Nothing)
                    }
                },
                Screen::Care => {
                    let sel = navigated(s.selection, 4, input.down, input.up);
                    (
                        UiState { selection: sel, ..s },
                        if confirm {
                            Effect::Care(care_action(sel))
                        } else {
                            Effect::Nothing
                        },
                    )
                },
                Screen::Code => {
                    let sel = navigated(s.selection, 4, input.down, input.up);
                    (
                        UiState { selection: sel, ..s },
                        if confirm {
                            Effect::Code(code_project(sel))
                        } else {
                            Effect::Nothing
                        },
                    )
                },
                Screen::Profile => {
                    let sel = navigated(s.selection, 3, input.down, input.up);
                    if confirm {
                        (s.open(profile_target(sel)), Effect::Nothing)
                    } else {
                        (UiState { selection: sel, ..s }, Effect::Nothing)
                    }
                },
                Screen::Evolution => if confirm {
                    (s.open(Screen::Profile), Effect::Nothing)
                } else {
                    (s, Effect::Nothing)
                },
                Screen::SpriteGallery => {
                    let after_next = if input.right || input.next_clicked {
                        ((s.sprite_index + 1) % (GALLERY_SIZE as int)) as usize
                    } else {
                        s.sprite_index
                    };
                    let after_previous = if input.left || input.previous_clicked {
                        ((after_next + GALLERY_SIZE - 1) % (GALLERY_SIZE as int)) as usize
                    } else {
                        after_next
                    };
                    let g = UiState { sprite_index: after_previous, ..s };
                    if confirm {
                        (g.open(Screen::Profile), Effect::Nothing)
                    } else {
                        (g, Effect::Nothing)
                    }
                },
                Screen::Play => if confirm {
                    (UiState { screen: Screen::BugSquash, hits: 0, ..s }, Effect::StartRound)
                } else {
                    (s, Effect::Nothing)
                },
                Screen::BugSquash => if input.round_over {
                    (s.open(Screen::Home), Effect::Reward(s.hits))
                } else if input.bug_clicked {
                    (
                        UiState {
                            hits: if s.hits == u8::MAX {
                                u8::MAX
                            } else {
                                (s.hits + 1) as u8
                            },
                            ..s
                        },
                        Effect::Squashed,
                    )
                } else {
                    (s, Effect::Nothing)
                },
            }
        }
    }

    pub fn initial() -> (s: UiState)
        ensures
            s == UiState::spec_initial(),
    {
        UiState { screen: Screen::Home, selection: 0, sprite_index: 0, hits: 0 }
    }
}

fn nav(selection: &mut usize, count: usize, down: bool, up: bool)
    requires
        0 < count <= 4,
        *old(selection) < count,
    ensures
        *final(selection) == navigated(*old(selection), count, down, up),
        *final(selection) < count,
{
    if down {
        *selection = (*selection + 1) % count;
    }
    if up {
        *selection = (*selection + count - 1) % count;
    }
}


fn care_action_of(selection: usize) -> (a: Action)
    ensures
        a == care_action(selection),
{
    match selection {
        0 => Action::Feed,
        1 => Action::Coffee,
        2 => Action::Rest,
        _ => Action::Medicine,
    }
}

fn code_project_of(selection: usize) -> (p: Project)
    ensures
        p == code_project(selection),
{
    match selection {
        0 => Project::FixBug,
        1 => Project::BuildFeature,
        2 => Project::Refactor,
        _ => Project::ShipRelease,
    }
}

impl UiState {
    /// Handles one frame of input: Back first (it wins over everything else),
    /// then the current screen's keys, clicks and confirmation.
    pub fn step(&mut self, input: &FrameInput) -> (effect: Effect)
        requires
            state_fits(*old(self)),
            input_fits(*old(self), *input),
        ensures
            (*final(self), effect) == old(self).spec_step(*input),
    {
        let mut confirm = input.confirm;
        match input.clicked_item {
            Some(i) => {
                self.selection = i;
                confirm = true;
            },
            None => {},
        }
        if self.screen == Screen::Home {
            match input.shortcut {
                Some(i) => {
                    self.selection = i;
                    confirm = true;
                },
                None => {},
            }
        }
        let back = input.back_key || (input.back_clicked && self.screen != Screen::Home
            && self.screen != Screen::BugSquash);
        if back {
            match self.screen {
                Screen::Home => {},
                Screen::Evolution | Screen::SpriteGallery => {
                    self.screen = Screen::Profile;
                    self.selection = 0;
                },
                _ => {
                    self.screen = Screen::Home;
                    self.selection = 0;
                },
            }
            return Effect::Nothing;
        }
        match self.screen {
            Screen::Home => {
                if input.right {
                    self.selection = (self.selection + 1) % 4;
                }
                if input.left {
                    self.selection = (self.selection + 3) % 4;
                }
                if confirm {
                    self.screen = match self.selection {
                        0 => Screen::Code,
                        1 => Screen::Care,
                        2 => Screen::Play,
                        _ => Screen::Profile,
                    };
                    self.selection = 0;
                }
                Effect::Nothing
            },
            Screen::Care => {
                nav(&mut self.selection, 4, input.down, input.up);
                if confirm {
                    Effect::Care(care_action_of(self.selection))
                } else {
                    Effect::Nothing
                }
            },
            Screen::Code => {
                nav(&mut self.selection, 4, input.down, input.up);
                if confirm {
                    Effect::Code(code_project_of(self.selection))
                } else {
                    Effect::Nothing
                }
            },
            Screen::Profile => {
                nav(&mut self.selection, 3, input.down, input.up);
                if confirm {
                    self.screen = match self.selection {
                        0 => Screen::Evolution,
                        1 => Screen::SpriteGallery,
                        _ => Screen::Home,
                    };
                    self.selection = 0;
                }
                Effect::Nothing
            },
            Screen::Evolution => {
                if confirm {
                    self.screen = Screen::Profile;
                    self.selection = 0;
                }
                Effect::Nothing
            },
            Screen::SpriteGallery => {
                if input.right || input.next_clicked {
                    self.sprite_index = (self.sprite_index + 1) % GALLERY_SIZE;
                }
                if input.left || input.previous_clicked {
                    self.sprite_index = (self.sprite_index + GALLERY_SIZE - 1) % GALLERY_SIZE;
                }
                if confirm {
                    self.screen = Screen::Profile;
                    self.selection = 0;
                }
                Effect::Nothing
            },
            Screen::Play => {
                if confirm {
                    self.screen = Screen::BugSquash;
                    self.hits = 0;
                    Effect::StartRound
                } else {
                    Effect::Nothing
                }
            },
            Screen::BugSquash => {
                if input.round_over {
                    let hits = self.hits;
                    self.screen = Screen::Home;
                    self.selection = 0;
                    Effect::Reward(hits)
                } else if input.bug_clicked {
                    self.hits = self.hits.saturating_add(1);
                    Effect::Squashed
                } else {
                    Effect::Nothing
                }
            },
        }
    }
}


/// Where the bug sits (in logical pixels) after `hits` squashes: the start
/// spot before the first hit, then a fixed hop pattern.
pub open spec fn spec_bug_position(hits: u8) -> (u16, u16) {
    if hits == 0 {
        (30, 50)
    } else {
        ((15 + (hits * 37) % 130) as u16, (30 + (hits * 23) % 70) as u16)
    }
}

pub fn bug_position(hits: u8) -> (p: (u16, u16))
    ensures
        p == spec_bug_position(hits),
{
    if hits == 0 {
        (30, 50)
    } else {
        let h = hits as u16;
        (15 + (h * 37) % 130, 30 + (h * 23) % 70)
    }
}

/// The Home screen's caption for the pet's mood.
pub open spec fn spec_mood_caption(mood: Mood) -> Seq<char> {
    match mood {
        Mood::Coding => "Byte shipped code."@,
        Mood::Happy => "Byte is happy!"@,
        Mood::Sleeping => "Byte is resting."@,
        Mood::Sick => "Byte needs care."@,
        Mood::Idle => "Byte is vibing."@,
    }
}

pub fn mood_caption(mood: Mood) -> (r: &'static str)
    ensures
        r@ == spec_mood_caption(mood),
{
    match mood {
        Mood::Coding => "Byte shipped code.",
        Mood::Happy => "Byte is happy!",
        Mood::Sleeping => "Byte is resting.",
        Mood::Sick => "Byte needs care.",
        Mood::Idle => "Byte is vibing.",
    }
}

impl UiState {
    /// Whether `step(input)` may be called: the state is reachable and the
    /// input is one the host can produce for it.
    pub fn accepts(&self, input: &FrameInput) -> (r: bool)
        ensures
            r == (state_fits(*self) && input_fits(*self, *input)),
    {
        let count = item_count(self.screen);
        let state_ok = (self.selection < count || self.selection == 0) && self.sprite_index
            < GALLERY_SIZE;
        let click_ok = match input.clicked_item {
            Some(i) => i < count,
            None => true,
        };
        let shortcut_ok = match input.shortcut {
            Some(i) => i < 4,
            None => true,
        };
        state_ok && click_ok && shortcut_ok
    }
}

/// Every frame keeps the UI in a reachable state: the selection stays a menu
/// item of the current screen and the gallery keeps showing a concept.
pub proof fn step_keeps_state_fitting(s: UiState, input: FrameInput)
    requires
        state_fits(s),
        input_fits(s, input),
    ensures
        state_fits(s.spec_step(input).0),
{
}

/// Back wins: when Back is requested in the same frame as anything else, only
/// the Back navigation happens. Home stays Home, Evolution and the gallery
/// return to Profile, every other screen returns to Home, and no effect on
/// the pet or the minigame is issued.
pub proof fn back_wins(s: UiState, input: FrameInput)
    requires
        s.back_requested(input),
    ensures
        s.spec_step(input).1 == Effect::Nothing,
        s.spec_step(input).0.screen == match s.screen {
            Screen::Home => Screen::Home,
            Screen::Evolution | Screen::SpriteGallery => Screen::Profile,
            _ => Screen::Home,
        },
{
}

/// The gallery wraps around: next from the last concept shows the first, and
/// previous from the first shows the last.
pub proof fn gallery_wraps(s: UiState, input: FrameInput)
    requires
        s.screen == Screen::SpriteGallery,
        !s.back_requested(input),
        !input.left && !input.previous_clicked,
    ensures
        (input.right || input.next_clicked) && s.sprite_index == GALLERY_SIZE - 1 ==> s.spec_step(
            input,
        ).0.sprite_index == 0,
{
}

/// Previous from the first concept shows the last one.
pub proof fn gallery_wraps_back(s: UiState, input: FrameInput)
    requires
        s.screen == Screen::SpriteGallery,
        !s.back_requested(input),
        !input.right && !input.next_clicked,
        input.left || input.previous_clicked,
        s.sprite_index == 0,
    ensures
        s.spec_step(input).0.sprite_index == GALLERY_SIZE - 1,
{
}

/// The pet is only acted on from its menus: care from the Care screen, code
/// from the Code screen, and rewards when a Bug Squash round ends.
pub proof fn effects_come_from_their_screens(s: UiState, input: FrameInput)
    ensures
        s.spec_step(input).1 matches Effect::Care(_) ==> s.screen == Screen::Care,
        s.spec_step(input).1 matches Effect::Code(_) ==> s.screen == Screen::Code,
        s.spec_step(input).1 matches Effect::Reward(h) ==> s.screen == Screen::BugSquash && h
            == s.hits && input.round_over,
        s.spec_step(input).1 == Effect::StartRound ==> s.screen == Screen::Play
            && s.spec_step(input).0.screen == Screen::BugSquash && s.spec_step(input).0.hits == 0,
{
}


/// Hovering is visual only: a frame without key presses, clicks or game
/// events changes neither the screen nor the selection, and does nothing.
pub proof fn idle_frame_changes_nothing(s: UiState, input: FrameInput)
    requires
        !input.confirm && !input.back_key && !input.back_clicked,
        input.clicked_item is None && input.shortcut is None,
        !input.right && !input.left && !input.down && !input.up,
        !input.next_clicked && !input.previous_clicked,
        !input.round_over && !input.bug_clicked,
    ensures
        s.spec_step(input) == (s, Effect::Nothing),
{
}


/// The item the frame picks: a shortcut key (on Home), else a clicked item,
/// else the current selection.
pub open spec fn picked_item(s: UiState, input: FrameInput) -> int {
    if s.screen == Screen::Home && input.shortcut is Some {
        input.shortcut->0 as int
    } else if input.clicked_item is Some {
        input.clicked_item->0 as int
    } else {
        s.selection as int
    }
}

/// The frame confirms: a key, a click on an item, or (on Home) a shortcut.
pub open spec fn confirmed(s: UiState, input: FrameInput) -> bool {
    input.confirm || input.clicked_item is Some || (s.screen == Screen::Home
        && input.shortcut is Some)
}

/// The Home buttons CODE, CARE, PLAY and MENU open the Code, Care, Play and
/// Profile screens with their first item selected, whether picked by shortcut,
/// by click or by confirming the selection.
pub proof fn home_buttons_open_their_screens(s: UiState, input: FrameInput)
    requires
        s.screen == Screen::Home,
        !s.back_requested(input),
        !input.left && !input.right,
        confirmed(s, input),
    ensures
        ({
            let (t, e) = s.spec_step(input);
            let i = picked_item(s, input);
            &&& e == Effect::Nothing
            &&& t.selection == 0
            &&& i == 0 ==> t.screen == Screen::Code
            &&& i == 1 ==> t.screen == Screen::Care
            &&& i == 2 ==> t.screen == Screen::Play
            &&& i >= 3 ==> t.screen == Screen::Profile
        }),
{
}

/// Left and Right on Home move the selection one button back or on, wrapping
/// over the four buttons, without leaving Home.
pub proof fn home_arrows_move_the_selection(s: UiState, input: FrameInput)
    requires
        s.screen == Screen::Home,
        s.selection < 4,
        !s.back_requested(input),
        !confirmed(s, input),
    ensures
        ({
            let (t, e) = s.spec_step(input);
            &&& e == Effect::Nothing
            &&& t.screen == Screen::Home
            &&& input.right && !input.left ==> t.selection == (s.selection + 1) % 4
            &&& input.left && !input.right ==> t.selection == (s.selection + 3) % 4
            &&& input.left == input.right ==> t.selection == s.selection
        }),
{
}

/// In the Care, Code and Profile menus, Down moves one item on and Up one item
/// back, wrapping; the screen stays unless an item is confirmed.
pub proof fn menus_move_with_up_and_down(s: UiState, input: FrameInput)
    requires
        s.screen == Screen::Care || s.screen == Screen::Code || s.screen == Screen::Profile,
        !s.back_requested(input),
        !confirmed(s, input),
        s.selection < spec_item_count(s.screen),
    ensures
        ({
            let (t, e) = s.spec_step(input);
            let n = spec_item_count(s.screen) as int;
            &&& e == Effect::Nothing
            &&& t.screen == s.screen
            &&& input.down && !input.up ==> t.selection == (s.selection + 1) % n
            &&& input.up && !input.down ==> t.selection == (s.selection + n - 1) % n
            &&& input.up == input.down ==> t.selection == s.selection
        }),
{
}

/// Confirming in the Care menu applies Feed, Coffee, Rest or Medicine for items
/// 0 to 3; in the Code menu it runs Fix Bug, Build Feature, Refactor or Ship
/// Release. The chosen item stays selected.
pub proof fn care_and_code_items_act(s: UiState, input: FrameInput)
    requires
        s.screen == Screen::Care || s.screen == Screen::Code,
        !s.back_requested(input),
        confirmed(s, input),
        !input.up && !input.down,
        0 <= picked_item(s, input) < 4,
    ensures
        ({
            let (t, e) = s.spec_step(input);
            let i = picked_item(s, input);
            &&& t.screen == s.screen
            &&& t.selection == i
            &&& s.screen == Screen::Care ==> {
                &&& i == 0 ==> e == Effect::Care(Action::Feed)
                &&& i == 1 ==> e == Effect::Care(Action::Coffee)
                &&& i == 2 ==> e == Effect::Care(Action::Rest)
                &&& i == 3 ==> e == Effect::Care(Action::Medicine)
            }
            &&& s.screen == Screen::Code ==> {
                &&& i == 0 ==> e == Effect::Code(Project::FixBug)
                &&& i == 1 ==> e == Effect::Code(Project::BuildFeature)
                &&& i == 2 ==> e == Effect::Code(Project::Refactor)
                &&& i == 3 ==> e == Effect::Code(Project::ShipRelease)
            }
        }),
{
}

/// Confirming in the Profile menu opens Evolution, the sprite gallery or Home
/// for items 0 to 2, with the first item selected; confirming on Evolution or
/// in the gallery returns to Profile.
pub proof fn profile_items_open_their_screens(s: UiState, input: FrameInput)
    requires
        s.screen == Screen::Profile || s.screen == Screen::Evolution || s.screen
            == Screen::SpriteGallery,
        !s.back_requested(input),
        confirmed(s, input),
        !input.up && !input.down,
        0 <= picked_item(s, input) < 3,
    ensures
        ({
            let (t, e) = s.spec_step(input);
            let i = picked_item(s, input);
            &&& e == Effect::Nothing
            &&& t.selection == 0
            &&& s.screen == Screen::Profile ==> {
                &&& i == 0 ==> t.screen == Screen::Evolution
                &&& i == 1 ==> t.screen == Screen::SpriteGallery
                &&& i == 2 ==> t.screen == Screen::Home
            }
            &&& s.screen != Screen::Profile ==> t.screen == Screen::Profile
        }),
{
}

/// The Bug Squash round: confirming on Play starts a round with no hits; during
/// the round each click on the bug counts one hit (stopping at 255); when the
/// time is up the UI returns to Home and the pet is rewarded for the hits.
pub proof fn bug_squash_round_rules(s: UiState, input: FrameInput)
    requires
        !s.back_requested(input),
    ensures
        s.screen == Screen::Play && confirmed(s, input) ==> s.spec_step(input) == (
        UiState { screen: Screen::BugSquash, hits: 0, selection: picked_item(s, input) as usize, ..s },
        Effect::StartRound,
        ),
        s.screen == Screen::BugSquash && input.round_over ==> s.spec_step(input).1 == Effect::Reward(
            s.hits,
        ) && s.spec_step(input).0.screen == Screen::Home && s.spec_step(input).0.selection == 0,
        s.screen == Screen::BugSquash && !input.round_over && input.bug_clicked ==> s.spec_step(
            input,
        ).1 == Effect::Squashed && s.spec_step(input).0.screen == Screen::BugSquash && s.spec_step(
            input,
        ).0.hits == if s.hits == 255 {
            255
        } else {
            s.hits + 1
        },
{
}

/// The bug starts at (30, 50), stays inside the field (x from 15 to 144,
/// y from 30 to 99) and hops to a new column with every squash.
pub proof fn bug_hops_within_the_field(hits: u8)
    ensures
        spec_bug_position(0) == (30u16, 50u16),
        15 <= spec_bug_position(hits).0 <= 144,
        30 <= spec_bug_position(hits).1 <= 99,
        hits < 255 ==> spec_bug_position(hits).0 != spec_bug_position((hits + 1) as u8).0,
{
    if hits > 0 && hits < 255 {
        let h = hits as int;
        assert(((h + 1) * 37) % 130 != (h * 37) % 130) by (nonlinear_arith)
            requires
                1 <= h < 255,
        {
            assert((h + 1) * 37 == h * 37 + 37);
        }
    }
}

/// The UI starts on Home with its first button (CODE) selected, the gallery
/// at the first concept and no Bug Squash hits.
pub proof fn start_up_state()
    ensures
        UiState::spec_initial().screen == Screen::Home,
        UiState::spec_initial().selection == 0,
        UiState::spec_initial().sprite_index == 0,
        UiState::spec_initial().hits == 0,
        home_target(UiState::spec_initial().selection) == Screen::Code,
{
}

/// In the gallery, Right or a click on next shows the following concept and
/// Left or a click on previous the one before, wrapping over the catalog;
/// the gallery stays open until Back or Enter.
pub proof fn gallery_browses(s: UiState, input: FrameInput)
    requires
        s.screen == Screen::SpriteGallery,
        s.sprite_index < GALLERY_SIZE,
        !s.back_requested(input),
        !confirmed(s, input),
    ensures
        ({
            let (t, e) = s.spec_step(input);
            let next = input.right || input.next_clicked;
            let previous = input.left || input.previous_clicked;
            &&& e == Effect::Nothing
            &&& t.screen == Screen::SpriteGallery
            &&& next && !previous ==> t.sprite_index == (s.sprite_index + 1) % (GALLERY_SIZE as int)
            &&& previous && !next ==> t.sprite_index == (s.sprite_index + GALLERY_SIZE - 1) % (
            GALLERY_SIZE as int)
            &&& next == previous ==> t.sprite_index == s.sprite_index
        }),
{
}

} // verus!
