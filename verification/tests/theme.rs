use devpet::pet::Species;
use devpet::theme::{settings_for, theme_from_settings, SettingsFile, Theme, SETTINGS_SCHEMA};

#[test]
fn theme_slugs_round_trip() {
    for theme in Theme::ALL {
        assert_eq!(Theme::parse(theme.slug()), Some(theme));
    }
}

#[test]
fn parse_is_lenient() {
    assert_eq!(Theme::parse("  Pocket_Color\n"), Some(Theme::PocketColor));
    assert_eq!(Theme::parse("POCKETCOLOR"), Some(Theme::PocketColor));
    assert_eq!(Theme::parse("\tclassic_lcd "), Some(Theme::ClassicLcd));
    assert_eq!(Theme::parse("ClassicLCD"), Some(Theme::ClassicLcd));
    assert_eq!(Theme::parse("\u{3000}classic-lcd\u{a0}"), Some(Theme::ClassicLcd));
}

#[test]
fn parse_rejects_other_names() {
    assert_eq!(Theme::parse(""), None);
    assert_eq!(Theme::parse("pocket color"), None);
    assert_eq!(Theme::parse("Pocket Color"), None);
    assert_eq!(Theme::parse("classic-lcd!"), None);
    assert_eq!(Theme::parse("p\u{f6}cket-color"), None);
}

#[test]
fn labels_and_order() {
    assert_eq!(Theme::PocketColor.label(), "Pocket Color");
    assert_eq!(Theme::ClassicLcd.label(), "Classic LCD");
    assert_eq!(Theme::PocketColor.menu_label(), "POCKET COLOR");
    assert_eq!(Theme::ClassicLcd.menu_label(), "CLASSIC LCD");
    for (index, theme) in Theme::ALL.iter().enumerate() {
        assert_eq!(theme.settings_index(), index);
    }
    assert_eq!(Theme::default(), Theme::PocketColor);
}

#[test]
fn palettes_hold_the_design_colours() {
    let pocket = Theme::PocketColor.palette();
    assert_eq!(pocket.background, 0xF4EBD8);
    assert_eq!(pocket.ink, 0x243047);
    assert_eq!(pocket.warning, 0xE97968);
    let lcd = Theme::ClassicLcd.palette();
    assert_eq!(lcd.background, 0xD1DDAE);
    assert_eq!(lcd.focus, 0x6B8650);
    assert_eq!(lcd.egg_fill, 0xDCE7B6);
}

#[test]
fn settings_read_back() {
    for theme in Theme::ALL {
        assert_eq!(theme_from_settings(Some(settings_for(theme))), theme);
    }
    assert_eq!(theme_from_settings(None), Theme::PocketColor);
    let stale = SettingsFile { schema_version: SETTINGS_SCHEMA + 1, theme: Theme::ClassicLcd };
    assert_eq!(theme_from_settings(Some(stale)), Theme::PocketColor);
}

#[test]
fn creature_palettes() {
    let bot = Theme::PocketColor.creature_palette(Species::Bot);
    assert_eq!((bot.body, bot.core, bot.core_bright, bot.core_dim), (0x6B88A9, 0xF2BC57, 0xFFD37A, 0xC99744));
    let specter = Theme::ClassicLcd.creature_palette(Species::Specter);
    assert_eq!(specter.body, 0xA3B28A);
    assert_eq!(Theme::PocketColor.creature_palette(Species::Egg), Theme::PocketColor.creature_palette(Species::Byte));
    assert_eq!(Theme::ClassicLcd.creature_palette(Species::Byte).core_bright, 0x799C40);
    assert_eq!(Theme::ClassicLcd.creature_palette(Species::Beast).core_dim, 0x74835B);
}
