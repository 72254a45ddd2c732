use devpet::pet::{Action, Mood, Project};
use devpet::ui::{bug_position, item_count, mood_caption, Effect, FrameInput, Screen, UiState};

fn idle() -> FrameInput {
    FrameInput {
        confirm: false,
        back_key: false,
        back_clicked: false,
        clicked_item: None,
        shortcut: None,
        right: false,
        left: false,
        down: false,
        up: false,
        next_clicked: false,
        previous_clicked: false,
        round_over: false,
        bug_clicked: false,
    }
}

#[test]
fn home_shortcuts_open_screens() {
    let mut ui = UiState::initial();
    let effect = ui.step(&FrameInput { shortcut: Some(1), ..idle() });
    assert_eq!(effect, Effect::Nothing);
    assert_eq!(ui.screen, Screen::Care);
    assert_eq!(ui.selection, 0);
}

#[test]
fn care_menu_applies_the_selected_action() {
    let mut ui = UiState { screen: Screen::Care, selection: 0, sprite_index: 0, hits: 0 };
    assert_eq!(ui.step(&FrameInput { up: true, ..idle() }), Effect::Nothing);
    assert_eq!(ui.selection, 3);
    assert_eq!(ui.step(&FrameInput { confirm: true, ..idle() }), Effect::Care(Action::Medicine));
    assert_eq!(
        ui.step(&FrameInput { clicked_item: Some(1), ..idle() }),
        Effect::Care(Action::Coffee)
    );
}

#[test]
fn code_menu_runs_the_selected_project() {
    let mut ui = UiState { screen: Screen::Code, selection: 0, sprite_index: 0, hits: 0 };
    assert_eq!(
        ui.step(&FrameInput { down: true, confirm: true, ..idle() }),
        Effect::Code(Project::BuildFeature)
    );
}

#[test]
fn back_wins_over_confirm() {
    let mut ui = UiState { screen: Screen::Care, selection: 2, sprite_index: 0, hits: 0 };
    let effect = ui.step(&FrameInput { back_key: true, confirm: true, ..idle() });
    assert_eq!(effect, Effect::Nothing);
    assert_eq!(ui.screen, Screen::Home);
    assert_eq!(ui.selection, 0);
    let mut gallery = UiState { screen: Screen::SpriteGallery, selection: 0, sprite_index: 4, hits: 0 };
    gallery.step(&FrameInput { back_clicked: true, ..idle() });
    assert_eq!(gallery.screen, Screen::Profile);
}

#[test]
fn back_click_is_ignored_on_home_and_in_the_game() {
    let mut ui = UiState::initial();
    ui.step(&FrameInput { back_clicked: true, ..idle() });
    assert_eq!(ui.screen, Screen::Home);
    let mut game = UiState { screen: Screen::BugSquash, selection: 0, sprite_index: 0, hits: 3 };
    assert_eq!(game.step(&FrameInput { back_clicked: true, ..idle() }), Effect::Nothing);
    assert_eq!(game.screen, Screen::BugSquash);
}

#[test]
fn gallery_wraps_at_both_ends() {
    let mut ui = UiState { screen: Screen::SpriteGallery, selection: 0, sprite_index: 0, hits: 0 };
    ui.step(&FrameInput { previous_clicked: true, ..idle() });
    assert_eq!(ui.sprite_index, 9);
    ui.step(&FrameInput { right: true, ..idle() });
    assert_eq!(ui.sprite_index, 0);
}

#[test]
fn bug_squash_round() {
    let mut ui = UiState { screen: Screen::Play, selection: 0, sprite_index: 0, hits: 7 };
    assert_eq!(ui.step(&FrameInput { confirm: true, ..idle() }), Effect::StartRound);
    assert_eq!((ui.screen, ui.hits), (Screen::BugSquash, 0));
    assert_eq!(ui.step(&FrameInput { bug_clicked: true, ..idle() }), Effect::Squashed);
    assert_eq!(ui.step(&FrameInput { bug_clicked: true, ..idle() }), Effect::Squashed);
    assert_eq!(ui.step(&FrameInput { round_over: true, bug_clicked: true, ..idle() }), Effect::Reward(2));
    assert_eq!(ui.screen, Screen::Home);
}

#[test]
fn menu_sizes() {
    assert_eq!(item_count(Screen::Home), 4);
    assert_eq!(item_count(Screen::Profile), 3);
    assert_eq!(item_count(Screen::Play), 1);
    assert_eq!(item_count(Screen::Evolution), 0);
}

#[test]
fn bug_hops_after_each_hit() {
    assert_eq!(bug_position(0), (30, 50));
    assert_eq!(bug_position(1), (52, 53));
    assert_eq!(bug_position(4), (33, 52));
    assert_eq!(bug_position(255), (15 + (255 * 37) % 130, 30 + (255 * 23) % 70));
}

#[test]
fn mood_captions() {
    assert_eq!(mood_caption(Mood::Coding), "Byte shipped code.");
    assert_eq!(mood_caption(Mood::Idle), "Byte is vibing.");
    assert_eq!(mood_caption(Mood::Sick), "Byte needs care.");
}

#[test]
fn idle_frames_change_nothing() {
    for screen in [Screen::Home, Screen::Care, Screen::Code, Screen::Profile, Screen::SpriteGallery] {
        let mut ui = UiState { screen, selection: 0, sprite_index: 3, hits: 0 };
        let before = ui;
        assert_eq!(ui.step(&idle()), Effect::Nothing);
        assert_eq!(ui, before);
    }
}

#[test]
fn accepts_only_reachable_inputs() {
    let home = UiState::initial();
    assert!(home.accepts(&FrameInput { clicked_item: Some(3), ..idle() }));
    assert!(!home.accepts(&FrameInput { clicked_item: Some(4), ..idle() }));
    assert!(!home.accepts(&FrameInput { shortcut: Some(4), ..idle() }));
    let profile = UiState { screen: Screen::Profile, selection: 2, sprite_index: 0, hits: 0 };
    assert!(profile.accepts(&idle()));
    assert!(!profile.accepts(&FrameInput { clicked_item: Some(3), ..idle() }));
    let gallery = UiState { screen: Screen::SpriteGallery, selection: 0, sprite_index: 10, hits: 0 };
    assert!(!gallery.accepts(&idle()));
}

#[test]
fn profile_menu_opens_gallery_and_back_returns() {
    let mut ui = UiState { screen: Screen::Profile, selection: 0, sprite_index: 0, hits: 0 };
    ui.step(&FrameInput { down: true, confirm: true, ..idle() });
    assert_eq!(ui.screen, Screen::SpriteGallery);
    ui.step(&FrameInput { confirm: true, ..idle() });
    assert_eq!(ui.screen, Screen::Profile);
    ui.step(&FrameInput { clicked_item: Some(2), ..idle() });
    assert_eq!(ui.screen, Screen::Home);
}

#[test]
fn home_arrows_wrap() {
    let mut ui = UiState::initial();
    ui.step(&FrameInput { left: true, ..idle() });
    assert_eq!(ui.selection, 3);
    ui.step(&FrameInput { right: true, ..idle() });
    assert_eq!(ui.selection, 0);
}
