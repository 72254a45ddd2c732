//! Display themes: their stable slugs, labels, settings order, the lenient
//! parser for saved settings, and each theme's colour table.

use vstd::prelude::*;
use vstd::string::*;
use crate::text::{chars_of, is_white_space, is_white_space_spec};
use crate::pet::Species;

verus! {

/// `s` without its leading white space.
pub open spec fn trim_start_spec(s: Seq<char>) -> Seq<char>
    decreases s.len(),
{
    if s.len() > 0 && is_white_space_spec(s[0]) {
        trim_start_spec(s.drop_first())
    } else {
        s
    }
}

/// `s` without its trailing white space.
pub open spec fn trim_end_spec(s: Seq<char>) -> Seq<char>
    decreases s.len(),
{
    if s.len() > 0 && is_white_space_spec(s.last()) {
        trim_end_spec(s.drop_last())
    } else {
        s
    }
}

/// `s` without leading and trailing white space.
pub open spec fn trim_spec(s: Seq<char>) -> Seq<char> {
    trim_end_spec(trim_start_spec(s))
}

/// ASCII upper-case letters mapped to lower case; every other character kept.
pub open spec fn ascii_lower_spec(c: char) -> char {
    if 'A' <= c && c <= 'Z' {
        ((c as u32) + 32) as char
    } else {
        c
    }
}

/// The spelling that `Theme::parse` compares: trimmed and ASCII-lower-cased.
pub open spec fn normalized(s: Seq<char>) -> Seq<char> {
    trim_spec(s).map_values(|c: char| ascii_lower_spec(c))
}

fn ascii_lower(c: char) -> (r: char)
    ensures
        r == ascii_lower_spec(c),
{
    if 'A' <= c && c <= 'Z' {
        let code: u8 = c as u8;
        let lowered: u8 = code + 32;
        lowered as char
    } else {
        c
    }
}

/// The trimmed, ASCII-lower-cased characters of `s`.
fn normalize(s: &str) -> (v: Vec<char>)
    ensures
        v@ == normalized(s@),
{
    let chars = chars_of(s);
    let n = chars.len();
    let mut start: usize = 0;
    assert(chars@.subrange(0, n as int) =~= chars@);
    while start < n && is_white_space(chars[start])
        invariant
            start <= n,
            n == chars@.len(),
            trim_start_spec(chars@) == trim_start_spec(chars@.subrange(start as int, n as int)),
        decreases n - start,
    {
        assert(chars@.subrange(start as int, n as int).drop_first() =~= chars@.subrange(
            start + 1,
            n as int,
        ));
        start = start + 1;
    }
    let ghost rest = chars@.subrange(start as int, n as int);
    assert(trim_start_spec(chars@) == rest);
    let mut end: usize = n;
    while end > start && is_white_space(chars[end - 1])
        invariant
            start <= end <= n,
            n == chars@.len(),
            rest == chars@.subrange(start as int, n as int),
            trim_end_spec(rest) == trim_end_spec(chars@.subrange(start as int, end as int)),
        decreases end - start,
    {
        assert(chars@.subrange(start as int, end as int).drop_last() =~= chars@.subrange(
            start as int,
            end - 1,
        ));
        end = end - 1;
    }
    assert(trim_spec(chars@) == chars@.subrange(start as int, end as int));
    let mut out: Vec<char> = Vec::new();
    let mut k: usize = start;
    while k < end
        invariant
            start <= k <= end <= n,
            n == chars@.len(),
            out@ =~= chars@.subrange(start as int, k as int).map_values(
                |c: char| ascii_lower_spec(c),
            ),
        decreases end - k,
    {
        let c = ascii_lower(chars[k]);
        out.push(c);
        k = k + 1;
    }
    out
}


fn same_chars(a: &Vec<char>, b: &Vec<char>) -> (r: bool)
    ensures
        r == (a@ == b@),
{
    if a.len() != b.len() {
        return false;
    }
    let mut k: usize = 0;
    while k < a.len()
        invariant
            a@.len() == b@.len(),
            k <= a@.len(),
            forall|i: int| 0 <= i < k ==> a@[i] == b@[i],
        decreases a@.len() - k,
    {
        if a[k] != b[k] {
            return false;
        }
        k = k + 1;
    }
    assert(a@ =~= b@);
    true
}

/// Whether `v` spells `word`.
fn spells(v: &Vec<char>, word: &str) -> (r: bool)
    ensures
        r == (v@ == word@),
{
    let w = chars_of(word);
    same_chars(v, &w)
}

#[derive(Debug, Clone, Copy, PartialEq, Eq, Structural)]
pub enum Theme {
    PocketColor,
    ClassicLcd,
}

/// Each theme's colours as 0xRRGGBB values.
#[derive(Debug, Clone, Copy, PartialEq, Eq, Structural)]
pub struct Palette {
    pub background: u32,
    pub ink: u32,
    pub divider: u32,
    pub panel: u32,
    pub selected_fill: u32,
    pub selected_text: u32,
    pub hover_outline: u32,
    pub bar_track: u32,
    pub health: u32,
    pub energy: u32,
    pub happiness: u32,
    pub focus: u32,
    pub warning: u32,
    pub egg_fill: u32,
}

/// The creature's colours as 0xRRGGBB values.
#[derive(Debug, Clone, Copy, PartialEq, Eq, Structural)]
pub struct CreaturePalette {
    pub body: u32,
    pub core: u32,
    pub core_bright: u32,
    pub core_dim: u32,
}

impl Theme {
    pub const ALL: [Theme; 2] = [Theme::PocketColor, Theme::ClassicLcd];

    /// The stable identifier stored in settings files.
    pub open spec fn spec_slug(self) -> Seq<char> {
        match self {
            Theme::PocketColor => "pocket-color"@,
            Theme::ClassicLcd => "classic-lcd"@,
        }
    }

    pub open spec fn spec_label(self) -> Seq<char> {
        match self {
            Theme::PocketColor => "Pocket Color"@,
            Theme::ClassicLcd => "Classic LCD"@,
        }
    }

    pub open spec fn spec_menu_label(self) -> Seq<char> {
        match self {
            Theme::PocketColor => "POCKET COLOR"@,
            Theme::ClassicLcd => "CLASSIC LCD"@,
        }
    }

    pub open spec fn spec_settings_index(self) -> usize {
        match self {
            Theme::PocketColor => 0,
            Theme::ClassicLcd => 1,
        }
    }

    /// The theme that a normalized spelling names, if any.
    pub open spec fn from_normalized(n: Seq<char>) -> Option<Theme> {
        if n == "pocket-color"@ || n == "pocket_color"@ || n == "pocketcolor"@ {
            Some(Theme::PocketColor)
        } else if n == "classic-lcd"@ || n == "classic_lcd"@ || n == "classiclcd"@ {
            Some(Theme::ClassicLcd)
        } else {
            None
        }
    }

    /// What `parse` answers for the text `s`.
    pub open spec fn spec_parse(s: Seq<char>) -> Option<Theme> {
        Theme::from_normalized(normalized(s))
    }

    /// The theme's colour table.
    pub open spec fn spec_palette(self) -> Palette {
        match self {
            Theme::PocketColor => Palette {
                background: 0xF4EBD8,
                ink: 0x243047,
                divider: 0x172338,
                panel: 0xEEE1C7,
                selected_fill: 0x172338,
                selected_text: 0xF4EBD8,
                hover_outline: 0x39BFA5,
                bar_track: 0xD9CCB4,
                health: 0x75B875,
                energy: 0x6FAFE0,
                happiness: 0xF2BC57,
                focus: 0x39BFA5,
                warning: 0xE97968,
                egg_fill: 0xF4EBD8,
            },
            Theme::ClassicLcd => Palette {
                background: 0xD1DDAE,
                ink: 0x19281E,
                divider: 0x19281E,
                panel: 0xC4D39A,
                selected_fill: 0x19281E,
                selected_text: 0xD1DDAE,
                hover_outline: 0x789C40,
                bar_track: 0xB1C07F,
                health: 0x789C40,
                energy: 0x527834,
                happiness: 0x96AA6B,
                focus: 0x6B8650,
                warning: 0x415934,
                egg_fill: 0xDCE7B6,
            },
        }
    }

    pub fn palette(self) -> (r: Palette)
        ensures
            r == self.spec_palette(),
    {
        match self {
            Theme::PocketColor => Palette {
                background: 0xF4EBD8,
                ink: 0x243047,
                divider: 0x172338,
                panel: 0xEEE1C7,
                selected_fill: 0x172338,
                selected_text: 0xF4EBD8,
                hover_outline: 0x39BFA5,
                bar_track: 0xD9CCB4,
                health: 0x75B875,
                energy: 0x6FAFE0,
                happiness: 0xF2BC57,
                focus: 0x39BFA5,
                warning: 0xE97968,
                egg_fill: 0xF4EBD8,
            },
            Theme::ClassicLcd => Palette {
                background: 0xD1DDAE,
                ink: 0x19281E,
                divider: 0x19281E,
                panel: 0xC4D39A,
                selected_fill: 0x19281E,
                selected_text: 0xD1DDAE,
                hover_outline: 0x789C40,
                bar_track: 0xB1C07F,
                health: 0x789C40,
                energy: 0x527834,
                happiness: 0x96AA6B,
                focus: 0x6B8650,
                warning: 0x415934,
                egg_fill: 0xDCE7B6,
            },
        }
    }

    /// The creature's colours for a form under the theme: the evolutions have
    /// their own, the egg and the hatched Byte share the theme's default.
    pub open spec fn spec_creature_palette(self, species: Species) -> CreaturePalette {
        match (self, species) {
            (Theme::PocketColor, Species::Bot) => CreaturePalette {
                body: 0x6B88A9,
                core: 0xF2BC57,
                core_bright: 0xFFD37A,
                core_dim: 0xC99744,
            },
            (Theme::PocketColor, Species::Beast) => CreaturePalette {
                body: 0xC97A5A,
                core: 0xF4EBD8,
                core_bright: 0xFFF7E7,
                core_dim: 0xD5C5A8,
            },
            (Theme::PocketColor, Species::Specter) => CreaturePalette {
                body: 0xB996E6,
                core: 0x84E3F2,
                core_bright: 0xB7F4FF,
                core_dim: 0x7BAAC7,
            },
            (Theme::PocketColor, _) => CreaturePalette {
                body: 0x39BFA5,
                core: 0xF2BC57,
                core_bright: 0xFFD37A,
                core_dim: 0xD49B42,
            },
            (Theme::ClassicLcd, Species::Bot) => CreaturePalette {
                body: 0x7B8D5C,
                core: 0x4F6C33,
                core_bright: 0x8CAE5F,
                core_dim: 0x65754B,
            },
            (Theme::ClassicLcd, Species::Beast) => CreaturePalette {
                body: 0x97A86C,
                core: 0x647E40,
                core_bright: 0xABC07C,
                core_dim: 0x74835B,
            },
            (Theme::ClassicLcd, Species::Specter) => CreaturePalette {
                body: 0xA3B28A,
                core: 0x6C8366,
                core_bright: 0xB7C7A0,
                core_dim: 0x7A876E,
            },
            (Theme::ClassicLcd, _) => CreaturePalette {
                body: 0x96AA6B,
                core: 0x527834,
                core_bright: 0x799C40,
                core_dim: 0x7A8460,
            },
        }
    }

    pub fn creature_palette(self, species: Species) -> (r: CreaturePalette)
        ensures
            r == self.spec_creature_palette(species),
    {
        match (self, species) {
            (Theme::PocketColor, Species::Bot) => CreaturePalette {
                body: 0x6B88A9,
                core: 0xF2BC57,
                core_bright: 0xFFD37A,
                core_dim: 0xC99744,
            },
            (Theme::PocketColor, Species::Beast) => CreaturePalette {
                body: 0xC97A5A,
                core: 0xF4EBD8,
                core_bright: 0xFFF7E7,
                core_dim: 0xD5C5A8,
            },
            (Theme::PocketColor, Species::Specter) => CreaturePalette {
                body: 0xB996E6,
                core: 0x84E3F2,
                core_bright: 0xB7F4FF,
                core_dim: 0x7BAAC7,
            },
            (Theme::PocketColor, _) => CreaturePalette {
                body: 0x39BFA5,
                core: 0xF2BC57,
                core_bright: 0xFFD37A,
                core_dim: 0xD49B42,
            },
            (Theme::ClassicLcd, Species::Bot) => CreaturePalette {
                body: 0x7B8D5C,
                core: 0x4F6C33,
                core_bright: 0x8CAE5F,
                core_dim: 0x65754B,
            },
            (Theme::ClassicLcd, Species::Beast) => CreaturePalette {
                body: 0x97A86C,
                core: 0x647E40,
                core_bright: 0xABC07C,
                core_dim: 0x74835B,
            },
            (Theme::ClassicLcd, Species::Specter) => CreaturePalette {
                body: 0xA3B28A,
                core: 0x6C8366,
                core_bright: 0xB7C7A0,
                core_dim: 0x7A876E,
            },
            (Theme::ClassicLcd, _) => CreaturePalette {
                body: 0x96AA6B,
                core: 0x527834,
                core_bright: 0x799C40,
                core_dim: 0x7A8460,
            },
        }
    }

    pub fn slug(self) -> (r: &'static str)
        ensures
            r@ == self.spec_slug(),
    {
        match self {
            Theme::PocketColor => "pocket-color",
            Theme::ClassicLcd => "classic-lcd",
        }
    }

    pub fn label(self) -> (r: &'static str)
        ensures
            r@ == self.spec_label(),
    {
        match self {
            Theme::PocketColor => "Pocket Color",
            Theme::ClassicLcd => "Classic LCD",
        }
    }

    pub fn menu_label(self) -> (r: &'static str)
        ensures
            r@ == self.spec_menu_label(),
    {
        match self {
            Theme::PocketColor => "POCKET COLOR",
            Theme::ClassicLcd => "CLASSIC LCD",
        }
    }

    /// Position of the theme in the settings menu.
    pub fn settings_index(self) -> (r: usize)
        ensures
            r == self.spec_settings_index(),
    {
        match self {
            Theme::PocketColor => 0,
            Theme::ClassicLcd => 1,
        }
    }

    /// Reads a theme name leniently: surrounding white space and ASCII case
    /// are ignored, and `-`, `_` or nothing may separate the two words.
    pub fn parse(value: &str) -> (r: Option<Theme>)
        ensures
            r == Theme::spec_parse(value@),
    {
        let n = normalize(value);
        if spells(&n, "pocket-color") || spells(&n, "pocket_color") || spells(&n, "pocketcolor") {
            Some(Theme::PocketColor)
        } else if spells(&n, "classic-lcd") || spells(&n, "classic_lcd") || spells(
            &n,
            "classiclcd",
        ) {
            Some(Theme::ClassicLcd)
        } else {
            None
        }
    }
}

impl Default for Theme {
    fn default() -> (r: Theme)
        ensures
            r == Theme::PocketColor,
    {
        Theme::PocketColor
    }
}


/// Version of the settings layout that this build reads and writes.
pub const SETTINGS_SCHEMA: u16 = 1;

/// What the settings file holds.
#[derive(Debug, Clone, Copy, PartialEq, Eq, Structural)]
pub struct SettingsFile {
    pub schema_version: u16,
    pub theme: Theme,
}

/// The theme to use, given what was read from the settings file (`None`
/// when it was missing or unreadable): a stored theme of the current schema,
/// the default theme otherwise.
pub open spec fn spec_theme_from_settings(settings: Option<SettingsFile>) -> Theme {
    match settings {
        Some(f) => if f.schema_version == SETTINGS_SCHEMA {
            f.theme
        } else {
            Theme::PocketColor
        },
        None => Theme::PocketColor,
    }
}

pub fn theme_from_settings(settings: Option<SettingsFile>) -> (t: Theme)
    ensures
        t == spec_theme_from_settings(settings),
{
    match settings {
        Some(f) => {
            if f.schema_version != SETTINGS_SCHEMA {
                return Theme::default();
            }
            f.theme
        },
        None => Theme::default(),
    }
}

/// The settings file written for `theme`.
pub fn settings_for(theme: Theme) -> (f: SettingsFile)
    ensures
        f == (SettingsFile { schema_version: SETTINGS_SCHEMA, theme }),
{
    SettingsFile { schema_version: SETTINGS_SCHEMA, theme }
}

/// A saved theme is read back unchanged.
pub proof fn saved_theme_reads_back(theme: Theme)
    ensures
        spec_theme_from_settings(Some(SettingsFile { schema_version: SETTINGS_SCHEMA, theme }))
            == theme,
{
}

/// Every theme's slug parses back to that theme.
pub proof fn slugs_round_trip(t: Theme)
    ensures
        Theme::spec_parse(t.spec_slug()) == Some(t),
{
    reveal_strlit("pocket-color");
    reveal_strlit("classic-lcd");
    reveal_strlit("pocket_color");
    reveal_strlit("pocketcolor");
    let s = t.spec_slug();
    assert(trim_start_spec(s) == s);
    assert(trim_end_spec(s) == s);
    assert(s.map_values(|c: char| ascii_lower_spec(c)) =~= s);
}

/// The settings menu lists the themes in the order of `Theme::ALL`.
pub proof fn settings_order_matches_all(i: int)
    requires
        0 <= i < 2,
    ensures
        Theme::ALL[i].spec_settings_index() == i,
{
}

/// ASCII lower-case letters mapped to upper case; every other character kept.
pub open spec fn ascii_upper_spec(c: char) -> char {
    if 'a' <= c && c <= 'z' {
        ((c as u32) - 32) as char
    } else {
        c
    }
}

proof fn lemma_trim_start_map_upper(s: Seq<char>)
    ensures
        trim_start_spec(s.map_values(|c: char| ascii_upper_spec(c))) == trim_start_spec(s).map_values(
            |c: char| ascii_upper_spec(c),
        ),
    decreases s.len(),
{
    let u = s.map_values(|c: char| ascii_upper_spec(c));
    if s.len() > 0 {
        assert(u[0] == ascii_upper_spec(s[0]));
        assert(is_white_space_spec(u[0]) == is_white_space_spec(s[0]));
        if is_white_space_spec(s[0]) {
            assert(u.drop_first() =~= s.drop_first().map_values(|c: char| ascii_upper_spec(c)));
            lemma_trim_start_map_upper(s.drop_first());
        }
    }
}

proof fn lemma_trim_end_map_upper(s: Seq<char>)
    ensures
        trim_end_spec(s.map_values(|c: char| ascii_upper_spec(c))) == trim_end_spec(s).map_values(
            |c: char| ascii_upper_spec(c),
        ),
    decreases s.len(),
{
    let u = s.map_values(|c: char| ascii_upper_spec(c));
    if s.len() > 0 {
        assert(u.last() == ascii_upper_spec(s.last()));
        assert(is_white_space_spec(u.last()) == is_white_space_spec(s.last()));
        if is_white_space_spec(s.last()) {
            assert(u.drop_last() =~= s.drop_last().map_values(|c: char| ascii_upper_spec(c)));
            lemma_trim_end_map_upper(s.drop_last());
        }
    }
}

/// `parse` ignores ASCII case: upper-casing the ASCII letters of a name does
/// not change what it parses to.
pub proof fn parse_ignores_case(s: Seq<char>)
    ensures
        Theme::spec_parse(s.map_values(|c: char| ascii_upper_spec(c))) == Theme::spec_parse(s),
{
    let u = s.map_values(|c: char| ascii_upper_spec(c));
    lemma_trim_start_map_upper(s);
    lemma_trim_end_map_upper(trim_start_spec(s));
    let t = trim_spec(s);
    assert(trim_spec(u) == t.map_values(|c: char| ascii_upper_spec(c)));
    assert(normalized(u) =~= normalized(s)) by {
        assert forall|k: int| 0 <= k < t.len() implies ascii_lower_spec(ascii_upper_spec(t[k]))
            == ascii_lower_spec(t[k]) by {}
    }
}

proof fn lemma_trim_start_skips_space(w: Seq<char>, s: Seq<char>)
    requires
        forall|k: int| 0 <= k < w.len() ==> is_white_space_spec(#[trigger] w[k]),
    ensures
        trim_start_spec(w + s) == trim_start_spec(s),
    decreases w.len(),
{
    if w.len() > 0 {
        assert((w + s)[0] == w[0]);
        assert((w + s).drop_first() =~= w.drop_first() + s);
        lemma_trim_start_skips_space(w.drop_first(), s);
    } else {
        assert(w + s =~= s);
    }
}

proof fn lemma_trim_end_skips_space(s: Seq<char>, w: Seq<char>)
    requires
        forall|k: int| 0 <= k < w.len() ==> is_white_space_spec(#[trigger] w[k]),
    ensures
        trim_end_spec(s + w) == trim_end_spec(s),
    decreases w.len(),
{
    if w.len() > 0 {
        assert((s + w).last() == w.last());
        assert((s + w).drop_last() =~= s + w.drop_last());
        lemma_trim_end_skips_space(s, w.drop_last());
    } else {
        assert(s + w =~= s);
    }
}

proof fn lemma_trim_start_keeps_trailing_space(s: Seq<char>, w: Seq<char>)
    requires
        forall|k: int| 0 <= k < w.len() ==> is_white_space_spec(#[trigger] w[k]),
    ensures
        trim_end_spec(trim_start_spec(s + w)) == trim_end_spec(trim_start_spec(s)),
    decreases s.len(),
{
    if s.len() > 0 && is_white_space_spec(s[0]) {
        assert((s + w)[0] == s[0]);
        assert((s + w).drop_first() =~= s.drop_first() + w);
        lemma_trim_start_keeps_trailing_space(s.drop_first(), w);
    } else if s.len() > 0 {
        assert((s + w)[0] == s[0]);
        lemma_trim_end_skips_space(s, w);
    } else {
        assert(s + w =~= w);
        lemma_trim_start_skips_space(w, Seq::<char>::empty());
        assert(w + Seq::<char>::empty() =~= w);
    }
}

/// `parse` ignores white space around a name.
pub proof fn parse_ignores_surrounding_space(before: Seq<char>, s: Seq<char>, after: Seq<char>)
    requires
        forall|k: int| 0 <= k < before.len() ==> is_white_space_spec(#[trigger] before[k]),
        forall|k: int| 0 <= k < after.len() ==> is_white_space_spec(#[trigger] after[k]),
    ensures
        Theme::spec_parse(before + s + after) == Theme::spec_parse(s),
{
    lemma_trim_start_skips_space(before, s + after);
    assert(before + s + after =~= before + (s + after));
    lemma_trim_start_keeps_trailing_space(s, after);
}

/// The accepted spellings: `pocket-color`, `pocket_color` and `pocketcolor`
/// name Pocket Color; `classic-lcd`, `classic_lcd` and `classiclcd` name
/// Classic LCD; any other normalized spelling names no theme.
pub proof fn parse_accepts_exactly_six_spellings(n: Seq<char>)
    ensures
        (n == "pocket-color"@ || n == "pocket_color"@ || n == "pocketcolor"@) ==> Theme::from_normalized(
            n,
        ) == Some(Theme::PocketColor),
        (n == "classic-lcd"@ || n == "classic_lcd"@ || n == "classiclcd"@) ==> Theme::from_normalized(
            n,
        ) == Some(Theme::ClassicLcd),
        Theme::from_normalized(n) is Some ==> (n == "pocket-color"@ || n == "pocket_color"@ || n
            == "pocketcolor"@ || n == "classic-lcd"@ || n == "classic_lcd"@ || n == "classiclcd"@),
{
    reveal_strlit("pocket-color");
    reveal_strlit("pocket_color");
    reveal_strlit("pocketcolor");
    reveal_strlit("classic-lcd");
    reveal_strlit("classic_lcd");
    reveal_strlit("classiclcd");
    assert("classic-lcd"@[0] == 'c' && "classic_lcd"@[0] == 'c' && "classiclcd"@[0] == 'c');
    assert("pocket-color"@[0] == 'p' && "pocket_color"@[0] == 'p' && "pocketcolor"@[0] == 'p');
    if n == "classic-lcd"@ || n == "classic_lcd"@ || n == "classiclcd"@ {
        assert(n[0] == 'c');
        assert(n != "pocket-color"@);
        assert(n != "pocket_color"@);
        assert(n != "pocketcolor"@);
    }
}

/// A theme's menu label is its label in capitals.
pub proof fn menu_label_is_label_in_capitals(t: Theme)
    ensures
        t.spec_menu_label() == t.spec_label().map_values(|c: char| ascii_upper_spec(c)),
{
    reveal_strlit("Pocket Color");
    reveal_strlit("POCKET COLOR");
    reveal_strlit("Classic LCD");
    reveal_strlit("CLASSIC LCD");
    assert(t.spec_menu_label() =~= t.spec_label().map_values(|c: char| ascii_upper_spec(c)));
}

/// The egg and the freshly hatched Byte are drawn in the same colours; each
/// evolution has colours of its own.
pub proof fn egg_and_byte_share_colours(t: Theme)
    ensures
        t.spec_creature_palette(Species::Egg) == t.spec_creature_palette(Species::Byte),
        t.spec_creature_palette(Species::Bot) != t.spec_creature_palette(Species::Byte),
        t.spec_creature_palette(Species::Beast) != t.spec_creature_palette(Species::Byte),
        t.spec_creature_palette(Species::Specter) != t.spec_creature_palette(Species::Byte),
{
}

/// A selected item inverts the screen: it is filled with the divider colour
/// and written in the background colour.
pub proof fn selection_inverts_the_screen(t: Theme)
    ensures
        t.spec_palette().selected_fill == t.spec_palette().divider,
        t.spec_palette().selected_text == t.spec_palette().background,
{
}

/// Two different themes differ in slug, label, menu label and menu position.
pub proof fn themes_are_told_apart(a: Theme, b: Theme)
    requires
        a != b,
    ensures
        a.spec_slug() != b.spec_slug(),
        a.spec_label() != b.spec_label(),
        a.spec_menu_label() != b.spec_menu_label(),
        a.spec_settings_index() != b.spec_settings_index(),
{
    reveal_strlit("pocket-color");
    reveal_strlit("classic-lcd");
    reveal_strlit("Pocket Color");
    reveal_strlit("Classic LCD");
    reveal_strlit("POCKET COLOR");
    reveal_strlit("CLASSIC LCD");
    assert(a.spec_slug()[0] != b.spec_slug()[0]);
    assert(a.spec_label()[0] != b.spec_label()[0]);
    assert(a.spec_menu_label()[0] != b.spec_menu_label()[0]);
}

} // verus!
