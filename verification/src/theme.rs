//! Dashboard theming. The default follows the terminal's own palette, so the
//! board blends with any terminal or herdr theme; presets are cycled with `T`
//! and the choice is persisted.
use vstd::prelude::*;

use crate::state::{join_path, joined};
use crate::text::{trim, trimmed};

verus! {

/// A colour: one of the terminal's named ANSI colours, or a 24-bit colour.
#[derive(Clone, Copy, Debug, PartialEq, Eq, Structural)]
pub enum Color {
    Black,
    Red,
    Green,
    Yellow,
    Blue,
    Cyan,
    DarkGray,
    Rgb(u8, u8, u8),
}

/// A text style: optional foreground and background, bold, reversed.
#[derive(Clone, Copy, Debug, PartialEq, Eq, Structural)]
pub struct Style {
    pub fg: Option<Color>,
    pub bg: Option<Color>,
    pub bold: bool,
    pub reversed: bool,
}

/// The colours of the board.
#[derive(Clone, Copy, Debug, PartialEq, Eq, Structural)]
pub struct Theme {
    pub accent: Color,
    pub dim: Color,
    pub border: Color,
    pub ready: Color,
    pub paused: Color,
    pub prov: Color,
    pub failed: Color,
    /// The style of the selected row.
    pub sel: Style,
    /// The style of the confirmation bar.
    pub confirm: Style,
}

/// The 24-bit colour written `0xRRGGBB`.
pub open spec fn rgb_of(hex: u32) -> Color {
    Color::Rgb(((hex / 0x10000) % 0x100) as u8, ((hex / 0x100) % 0x100) as u8, (hex % 0x100) as u8)
}

/// The 24-bit colour written `0xRRGGBB`; higher bits are ignored.
pub fn rgb(hex: u32) -> (c: Color)
    ensures
        c == rgb_of(hex),
{
    assert(((hex >> 16) as u8) == ((hex / 0x10000) % 0x100) as u8) by (bit_vector);
    assert(((hex >> 8) as u8) == ((hex / 0x100) % 0x100) as u8) by (bit_vector);
    assert((hex as u8) == (hex % 0x100) as u8) by (bit_vector);
    Color::Rgb((hex >> 16) as u8, (hex >> 8) as u8, hex as u8)
}

/// The number of presets.
pub const THEME_COUNT: usize = 6;

/// The name of the preset at `i`, in the order `T` cycles through them;
/// `terminal` (the same as `auto`) comes first, so it is the default.
pub open spec fn theme_name_of(i: int) -> Seq<char> {
    if i == 0 {
        "terminal"@
    } else if i == 1 {
        "solarized-light"@
    } else if i == 2 {
        "tokyo-night"@
    } else if i == 3 {
        "dracula"@
    } else if i == 4 {
        "nord"@
    } else {
        "gruvbox"@
    }
}

/// The name of the preset at `i`.
pub fn theme_name(i: usize) -> (r: &'static str)
    requires
        i < THEME_COUNT,
    ensures
        r@ == theme_name_of(i as int),
{
    if i == 0 {
        "terminal"
    } else if i == 1 {
        "solarized-light"
    } else if i == 2 {
        "tokyo-night"
    } else if i == 3 {
        "dracula"
    } else if i == 4 {
        "nord"
    } else {
        "gruvbox"
    }
}

/// The first preset whose name is `name`.
pub open spec fn theme_position(name: Seq<char>) -> Option<int> {
    if name == theme_name_of(0) {
        Some(0)
    } else if name == theme_name_of(1) {
        Some(1)
    } else if name == theme_name_of(2) {
        Some(2)
    } else if name == theme_name_of(3) {
        Some(3)
    } else if name == theme_name_of(4) {
        Some(4)
    } else if name == theme_name_of(5) {
        Some(5)
    } else {
        None
    }
}

/// The position of the preset called `name`, if there is one.
pub fn theme_index(name: &str) -> (r: Option<usize>)
    ensures
        r matches Some(i) ==> i < THEME_COUNT,
        match r {
            Some(i) => theme_position(name@) == Some(i as int),
            None => theme_position(name@) is None,
        },
{
    let n = String::from_str(name);
    let mut i: usize = 0;
    while i < THEME_COUNT
        invariant
            i <= THEME_COUNT,
            n@ == name@,
            forall|j: int| 0 <= j < i ==> name@ != theme_name_of(j),
        decreases THEME_COUNT - i,
    {
        if n == String::from_str(theme_name(i)) {
            return Some(i);
        }
        i = i + 1;
    }
    None
}

/// The preset at `i`: 0 is the terminal's own palette, the others are
/// Solarized Light, Tokyo Night, Dracula, Nord and Gruvbox.
pub open spec fn preset(i: int) -> Theme {
    if i == 1 {
        Theme {
            accent: rgb_of(0x268bd2),
            dim: rgb_of(0x586e75),
            border: rgb_of(0x93a1a1),
            ready: rgb_of(0x859900),
            paused: rgb_of(0xb58900),
            prov: rgb_of(0x268bd2),
            failed: rgb_of(0xdc322f),
            sel: Style { fg: Some(rgb_of(0x002b36)), bg: Some(rgb_of(0xeee8d5)), bold: true, reversed: false },
            confirm: Style { fg: Some(rgb_of(0xfdf6e3)), bg: Some(rgb_of(0xb58900)), bold: true, reversed: false },
        }
    } else if i == 2 {
        Theme {
            accent: rgb_of(0x7aa2f7),
            dim: rgb_of(0x565f89),
            border: rgb_of(0x3b4261),
            ready: rgb_of(0x9ece6a),
            paused: rgb_of(0xe0af68),
            prov: rgb_of(0x7dcfff),
            failed: rgb_of(0xf7768e),
            sel: Style { fg: Some(rgb_of(0xc0caf5)), bg: Some(rgb_of(0x283457)), bold: true, reversed: false },
            confirm: Style { fg: Some(rgb_of(0x1a1b26)), bg: Some(rgb_of(0xe0af68)), bold: true, reversed: false },
        }
    } else if i == 3 {
        Theme {
            accent: rgb_of(0xbd93f9),
            dim: rgb_of(0x6272a4),
            border: rgb_of(0x44475a),
            ready: rgb_of(0x50fa7b),
            paused: rgb_of(0xf1fa8c),
            prov: rgb_of(0x8be9fd),
            failed: rgb_of(0xff5555),
            sel: Style { fg: Some(rgb_of(0xf8f8f2)), bg: Some(rgb_of(0x44475a)), bold: true, reversed: false },
            confirm: Style { fg: Some(rgb_of(0x282a36)), bg: Some(rgb_of(0xf1fa8c)), bold: true, reversed: false },
        }
    } else if i == 4 {
        Theme {
            accent: rgb_of(0x88c0d0),
            dim: rgb_of(0x4c566a),
            border: rgb_of(0x434c5e),
            ready: rgb_of(0xa3be8c),
            paused: rgb_of(0xebcb8b),
            prov: rgb_of(0x81a1c1),
            failed: rgb_of(0xbf616a),
            sel: Style { fg: Some(rgb_of(0xeceff4)), bg: Some(rgb_of(0x3b4252)), bold: true, reversed: false },
            confirm: Style { fg: Some(rgb_of(0x2e3440)), bg: Some(rgb_of(0xebcb8b)), bold: true, reversed: false },
        }
    } else if i == 5 {
        Theme {
            accent: rgb_of(0x83a598),
            dim: rgb_of(0x928374),
            border: rgb_of(0x504945),
            ready: rgb_of(0xb8bb26),
            paused: rgb_of(0xfabd2f),
            prov: rgb_of(0x83a598),
            failed: rgb_of(0xfb4934),
            sel: Style { fg: Some(rgb_of(0xebdbb2)), bg: Some(rgb_of(0x3c3836)), bold: true, reversed: false },
            confirm: Style { fg: Some(rgb_of(0x282828)), bg: Some(rgb_of(0xfabd2f)), bold: true, reversed: false },
        }
    } else {
        Theme {
            accent: Color::Cyan,
            dim: Color::DarkGray,
            border: Color::Blue,
            ready: Color::Green,
            paused: Color::Yellow,
            prov: Color::Cyan,
            failed: Color::Red,
            sel: Style { fg: None, bg: None, bold: true, reversed: true },
            confirm: Style { fg: Some(Color::Black), bg: Some(Color::Yellow), bold: true, reversed: false },
        }
    }
}

/// The theme called `name`; any name that is not a preset's gives the
/// terminal's own palette.
pub open spec fn theme_named(name: Seq<char>) -> Theme {
    match theme_position(name) {
        Some(i) => preset(i),
        None => preset(0),
    }
}

fn style(fg: Color, bg: Color) -> (s: Style)
    ensures
        s == (Style { fg: Some(fg), bg: Some(bg), bold: true, reversed: false }),
{
    Style { fg: Some(fg), bg: Some(bg), bold: true, reversed: false }
}

/// The theme called `name`.
pub fn theme_from(name: &str) -> (t: Theme)
    ensures
        t == theme_named(name@),
{
    let idx = theme_index(name);
    match idx {
        Some(1) => Theme {
            accent: rgb(0x268bd2),
            dim: rgb(0x586e75),
            border: rgb(0x93a1a1),
            ready: rgb(0x859900),
            paused: rgb(0xb58900),
            prov: rgb(0x268bd2),
            failed: rgb(0xdc322f),
            sel: style(rgb(0x002b36), rgb(0xeee8d5)),
            confirm: style(rgb(0xfdf6e3), rgb(0xb58900)),
        },
        Some(2) => Theme {
            accent: rgb(0x7aa2f7),
            dim: rgb(0x565f89),
            border: rgb(0x3b4261),
            ready: rgb(0x9ece6a),
            paused: rgb(0xe0af68),
            prov: rgb(0x7dcfff),
            failed: rgb(0xf7768e),
            sel: style(rgb(0xc0caf5), rgb(0x283457)),
            confirm: style(rgb(0x1a1b26), rgb(0xe0af68)),
        },
        Some(3) => Theme {
            accent: rgb(0xbd93f9),
            dim: rgb(0x6272a4),
            border: rgb(0x44475a),
            ready: rgb(0x50fa7b),
            paused: rgb(0xf1fa8c),
            prov: rgb(0x8be9fd),
            failed: rgb(0xff5555),
            sel: style(rgb(0xf8f8f2), rgb(0x44475a)),
            confirm: style(rgb(0x282a36), rgb(0xf1fa8c)),
        },
        Some(4) => Theme {
            accent: rgb(0x88c0d0),
            dim: rgb(0x4c566a),
            border: rgb(0x434c5e),
            ready: rgb(0xa3be8c),
            paused: rgb(0xebcb8b),
            prov: rgb(0x81a1c1),
            failed: rgb(0xbf616a),
            sel: style(rgb(0xeceff4), rgb(0x3b4252)),
            confirm: style(rgb(0x2e3440), rgb(0xebcb8b)),
        },
        Some(5) => Theme {
            accent: rgb(0x83a598),
            dim: rgb(0x928374),
            border: rgb(0x504945),
            ready: rgb(0xb8bb26),
            paused: rgb(0xfabd2f),
            prov: rgb(0x83a598),
            failed: rgb(0xfb4934),
            sel: style(rgb(0xebdbb2), rgb(0x3c3836)),
            confirm: style(rgb(0x282828), rgb(0xfabd2f)),
        },
        _ => Theme {
            accent: Color::Cyan,
            dim: Color::DarkGray,
            border: Color::Blue,
            ready: Color::Green,
            paused: Color::Yellow,
            prov: Color::Cyan,
            failed: Color::Red,
            sel: Style { fg: None, bg: None, bold: true, reversed: true },
            confirm: style(Color::Black, Color::Yellow),
        },
    }
}

/// The glyph and colour that show a sandbox status: a full dot for ready,
/// paused and failed, a half dot for provisioning, an empty one otherwise.
pub open spec fn status_look(theme: Theme, status: Seq<char>) -> (Seq<char>, Color) {
    if status == "ready"@ {
        ("●"@, theme.ready)
    } else if status == "paused"@ {
        ("●"@, theme.paused)
    } else if status == "provisioning"@ {
        ("◐"@, theme.prov)
    } else if status == "failed"@ {
        ("●"@, theme.failed)
    } else {
        ("○"@, theme.dim)
    }
}

/// The glyph and colour of a sandbox status.
pub fn status_glyph_color(theme: &Theme, status: &str) -> (r: (&'static str, Color))
    ensures
        (r.0@, r.1) == status_look(*theme, status@),
{
    let s = String::from_str(status);
    if s == String::from_str("ready") {
        ("●", theme.ready)
    } else if s == String::from_str("paused") {
        ("●", theme.paused)
    } else if s == String::from_str("provisioning") {
        ("◐", theme.prov)
    } else if s == String::from_str("failed") {
        ("●", theme.failed)
    } else {
        ("○", theme.dim)
    }
}

/// The file that keeps the chosen theme, in the state directory.
pub fn theme_file(state_dir: &str) -> (r: String)
    ensures
        r@ == joined(state_dir@, "dashboard-theme"@),
{
    proof {
        reveal_strlit("dashboard-theme");
    }
    join_path(state_dir, "dashboard-theme")
}

/// The theme the board starts with: a saved choice wins (white space around
/// it ignored), so it persists; else the `E2B_DASH_THEME` seed, where `auto`
/// means `terminal`; else the default, `terminal`.
pub open spec fn initial_theme(saved: Option<Seq<char>>, seed: Option<Seq<char>>) -> int {
    let from_saved = match saved {
        Some(s) => theme_position(trimmed(s)),
        None => None,
    };
    match from_saved {
        Some(i) => i,
        None => {
            let want = match seed {
                Some(w) => w,
                None => seq![],
            };
            let want = if want == "auto"@ {
                "terminal"@
            } else {
                want
            };
            match theme_position(want) {
                Some(i) => i,
                None => 0,
            }
        },
    }
}

/// The preset to start with, given the saved theme file's content (`None`
/// when it cannot be read) and `E2B_DASH_THEME` (`None` when unset or not
/// Unicode).
pub fn initial_theme_idx(saved: Option<String>, seed: Option<String>) -> (r: usize)
    ensures
        r < THEME_COUNT,
        r == initial_theme(saved.deep_view(), seed.deep_view()),
{
    if let Some(s) = saved {
        let t = trim(s.as_str());
        if let Some(i) = theme_index(t.as_str()) {
            return i;
        }
    }
    let mut want = match seed {
        Some(w) => w,
        None => String::new(),
    };
    if want == String::from_str("auto") {
        want = String::from_str("terminal");
    }
    match theme_index(want.as_str()) {
        Some(i) => i,
        None => 0,
    }
}

/// The preset after `i` in the cycle of `T`.
pub open spec fn next_theme(i: int) -> int {
    (i + 1) % (THEME_COUNT as int)
}

/// The preset after `i` in the cycle of `T`, wrapping to the first.
pub fn next_theme_idx(i: usize) -> (r: usize)
    requires
        i < THEME_COUNT,
    ensures
        r == next_theme(i as int),
        r < THEME_COUNT,
{
    (i + 1) % THEME_COUNT
}

/// Facts of the preset names: each is found at its own position, and none
/// begins or ends with white space.
proof fn lemma_theme_name(i: int)
    requires
        0 <= i < THEME_COUNT,
    ensures
        theme_position(theme_name_of(i)) == Some(i),
        theme_name_of(i).len() > 0,
        !crate::text::is_white_space(theme_name_of(i)[0]),
        !crate::text::is_white_space(theme_name_of(i).last()),
{
    reveal_strlit("terminal");
    reveal_strlit("solarized-light");
    reveal_strlit("tokyo-night");
    reveal_strlit("dracula");
    reveal_strlit("nord");
    reveal_strlit("gruvbox");
    assert forall|j: int| 0 <= j < i implies theme_name_of(j) != theme_name_of(i) by {
        if j == 3 && i == 5 {
            assert(theme_name_of(3)[0] != theme_name_of(5)[0]);
        } else {
            assert(theme_name_of(j).len() != theme_name_of(i).len());
        }
    }
}

/// The theme called by a preset's name is that preset.
pub proof fn lemma_preset_named(i: int)
    requires
        0 <= i < THEME_COUNT,
    ensures
        theme_named(theme_name_of(i)) == preset(i),
{
    lemma_theme_name(i);
}

/// A name with nothing to trim is its own trimmed form.
proof fn lemma_trimmed_plain(s: Seq<char>)
    requires
        s.len() > 0,
        !crate::text::is_white_space(s[0]),
        !crate::text::is_white_space(s.last()),
    ensures
        trimmed(s) == s,
        trimmed(s.push('\n')) == s,
{
    assert(crate::text::trim_start(s) == s);
    assert(s.push('\n')[0] == s[0]);
    assert(crate::text::trim_start(s.push('\n')) == s.push('\n'));
    assert(s.push('\n').drop_last() =~= s);
    assert(crate::text::trim_end(s) == s);
}

/// The saved choice persists: a theme file holding a preset's name, as
/// saving writes it (or with a line end after it), starts the board with
/// that preset, whatever `E2B_DASH_THEME` says.
pub proof fn lemma_saved_theme_restored(i: int, seed: Option<Seq<char>>)
    requires
        0 <= i < THEME_COUNT,
    ensures
        initial_theme(Some(theme_name_of(i)), seed) == i,
        initial_theme(Some(theme_name_of(i).push('\n')), seed) == i,
{
    lemma_theme_name(i);
    lemma_trimmed_plain(theme_name_of(i));
}

/// Pressing `T` as many times as there are presets comes back to the preset
/// one started from, passing through every other preset on the way.
pub proof fn lemma_theme_cycle(i: int)
    requires
        0 <= i < THEME_COUNT,
    ensures
        next_theme(next_theme(next_theme(next_theme(next_theme(next_theme(i)))))) == i,
        forall|j: int| 0 <= j < THEME_COUNT ==> 0 <= #[trigger] next_theme(j) < THEME_COUNT,
{
}

/// Text in colour `c`, nothing else set.
pub open spec fn fg_style(c: Color) -> Style {
    Style { fg: Some(c), bg: None, bold: false, reversed: false }
}

/// The style of titles: the accent colour, bold.
pub open spec fn title_style(t: Theme) -> Style {
    Style { fg: Some(t.accent), bg: None, bold: true, reversed: false }
}

/// Text in colour `c`, nothing else set.
pub fn fg(c: Color) -> (s: Style)
    ensures
        s == fg_style(c),
{
    Style { fg: Some(c), bg: None, bold: false, reversed: false }
}

/// The style of titles in the theme `t`.
pub fn title(t: &Theme) -> (s: Style)
    ensures
        s == title_style(*t),
{
    Style { fg: Some(t.accent), bg: None, bold: true, reversed: false }
}

/// The preset names, in the order `T` cycles through them.
pub open spec fn preset_names() -> Seq<Seq<char>> {
    seq!["terminal"@, "solarized-light"@, "tokyo-night"@, "dracula"@, "nord"@, "gruvbox"@]
}

/// Each preset name gives a palette of its own: the six names give six
/// different themes, each told apart by its accent colour, and only a name
/// outside the presets falls back to the terminal palette; `gruvbox`, for
/// one, is the Gruvbox palette with accent `#83a598`.
pub proof fn lemma_presets_distinct(name: Seq<char>)
    ensures
        forall|i: int, j: int|
            0 <= i < j < 6 ==> #[trigger] theme_named(preset_names()[i]).accent
                != #[trigger] theme_named(preset_names()[j]).accent,
        !preset_names().contains(name) ==> theme_named(name) == theme_named("terminal"@),
        theme_named("terminal"@).accent == Color::Cyan,
        theme_named("solarized-light"@).accent == Color::Rgb(0x26, 0x8b, 0xd2),
        theme_named("tokyo-night"@).accent == Color::Rgb(0x7a, 0xa2, 0xf7),
        theme_named("dracula"@).accent == Color::Rgb(0xbd, 0x93, 0xf9),
        theme_named("nord"@).accent == Color::Rgb(0x88, 0xc0, 0xd0),
        theme_named("gruvbox"@).accent == Color::Rgb(0x83, 0xa5, 0x98),
        theme_named("gruvbox"@).failed == Color::Rgb(0xfb, 0x49, 0x34),
        theme_named("gruvbox"@).sel == (Style {
            fg: Some(Color::Rgb(0xeb, 0xdb, 0xb2)),
            bg: Some(Color::Rgb(0x3c, 0x38, 0x36)),
            bold: true,
            reversed: false,
        }),
{
    lemma_preset_named(0);
    lemma_preset_named(1);
    lemma_preset_named(2);
    lemma_preset_named(3);
    lemma_preset_named(4);
    lemma_preset_named(5);
    assert(preset_names()[0] == theme_name_of(0));
    assert(preset_names()[1] == theme_name_of(1));
    assert(preset_names()[2] == theme_name_of(2));
    assert(preset_names()[3] == theme_name_of(3));
    assert(preset_names()[4] == theme_name_of(4));
    assert(preset_names()[5] == theme_name_of(5));
    if !preset_names().contains(name) {
        assert forall|i: int| 0 <= i < 6 implies name != theme_name_of(i) by {
            assert(preset_names()[i] == theme_name_of(i));
        }
    }
}

} // verus!
