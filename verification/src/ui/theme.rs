//! Catppuccin Mocha palette plus the semantic mapping used throughout the UI.
//! Each semantic slot can be overridden at startup by a `@manager-color-*`
//! tmux option holding a literal `#rrggbb` color.
use vstd::prelude::*;

use crate::text::{chars_of, parse_unsigned, parse_unsigned_in, text_eq};

verus! {

/// A 24-bit terminal color.
#[derive(Debug, Clone, Copy, PartialEq, Eq, Structural)]
pub struct Rgb {
    pub r: u8,
    pub g: u8,
    pub b: u8,
}

/// The color whose `0xrrggbb` value is `rgb`.
pub open spec fn hex_spec(rgb: u32) -> Rgb {
    Rgb { r: (rgb / 0x10000 % 0x100) as u8, g: (rgb / 0x100 % 0x100) as u8, b: (rgb % 0x100) as u8 }
}

/// The color whose `0xrrggbb` value is `rgb`.
pub fn hex(rgb: u32) -> (c: Rgb)
    ensures
        c == hex_spec(rgb),
{
    let r = ((rgb >> 16) & 0xff) as u8;
    let g = ((rgb >> 8) & 0xff) as u8;
    let b = (rgb & 0xff) as u8;
    assert(((rgb >> 16) & 0xff) == rgb / 0x10000 % 0x100) by (bit_vector);
    assert(((rgb >> 8) & 0xff) == rgb / 0x100 % 0x100) by (bit_vector);
    assert((rgb & 0xff) == rgb % 0x100) by (bit_vector);
    Rgb { r, g, b }
}

#[derive(Debug, Clone, Copy, PartialEq, Eq, Structural)]
pub struct Theme {
    pub base: Rgb,
    pub mantle: Rgb,
    pub crust: Rgb,
    pub surface0: Rgb,
    pub surface1: Rgb,
    pub overlay0: Rgb,
    pub text: Rgb,
    pub subtext0: Rgb,
    pub green: Rgb,
    pub blue: Rgb,
    pub red: Rgb,
    pub yellow: Rgb,
    pub mauve: Rgb,
    pub lavender: Rgb,
}

/// The hardcoded Mocha values.
pub open spec fn mocha() -> Theme {
    Theme {
        base: hex_spec(0x1e1e2e),
        mantle: hex_spec(0x181825),
        crust: hex_spec(0x11111b),
        surface0: hex_spec(0x313244),
        surface1: hex_spec(0x45475a),
        overlay0: hex_spec(0x6c7086),
        text: hex_spec(0xcdd6f4),
        subtext0: hex_spec(0xa6adc8),
        green: hex_spec(0xa6e3a1),
        blue: hex_spec(0x89b4fa),
        red: hex_spec(0xf38ba8),
        yellow: hex_spec(0xf9e2af),
        mauve: hex_spec(0xcba6f7),
        lavender: hex_spec(0xb4befe),
    }
}

impl Default for Theme {
    fn default() -> (t: Self)
        ensures
            t == mocha(),
    {
        Theme {
            base: hex(0x1e1e2e),
            mantle: hex(0x181825),
            crust: hex(0x11111b),
            surface0: hex(0x313244),
            surface1: hex(0x45475a),
            overlay0: hex(0x6c7086),
            text: hex(0xcdd6f4),
            subtext0: hex(0xa6adc8),
            green: hex(0xa6e3a1),
            blue: hex(0x89b4fa),
            red: hex(0xf38ba8),
            yellow: hex(0xf9e2af),
            mauve: hex(0xcba6f7),
            lavender: hex(0xb4befe),
        }
    }
}

impl Theme {
    pub fn bg(&self) -> (c: Rgb)
        ensures
            c == self.base,
    {
        self.base
    }

    pub fn panel_title(&self) -> (c: Rgb)
        ensures
            c == self.overlay0,
    {
        self.overlay0
    }

    pub fn fg(&self) -> (c: Rgb)
        ensures
            c == self.text,
    {
        self.text
    }

    pub fn meta(&self) -> (c: Rgb)
        ensures
            c == self.subtext0,
    {
        self.subtext0
    }

    pub fn active(&self) -> (c: Rgb)
        ensures
            c == self.green,
    {
        self.green
    }

    /// Drag/drop accent.
    pub fn accent(&self) -> (c: Rgb)
        ensures
            c == self.blue,
    {
        self.blue
    }

    /// Destructive/error color.
    pub fn danger(&self) -> (c: Rgb)
        ensures
            c == self.red,
    {
        self.red
    }

    pub fn border(&self) -> (c: Rgb)
        ensures
            c == self.surface1,
    {
        self.surface1
    }

    pub fn selection_bg(&self) -> (c: Rgb)
        ensures
            c == self.surface0,
    {
        self.surface0
    }
}

pub open spec fn all_ascii(s: Seq<char>) -> bool {
    forall|i: int| 0 <= i < s.len() ==> (#[trigger] s[i]) as u32 <= 0x7f
}

/// A literal `#rrggbb` color: `#` then six ASCII characters, read as three
/// base-16 bytes (each pair as `u8::from_str_radix` reads it).
pub open spec fn hex_color(s: Seq<char>) -> Option<Rgb> {
    if s.len() == 7 && s[0] == '#' && all_ascii(s) {
        match (
            parse_unsigned(s.subrange(1, 3), 16, 255),
            parse_unsigned(s.subrange(3, 5), 16, 255),
            parse_unsigned(s.subrange(5, 7), 16, 255),
        ) {
            (Some(r), Some(g), Some(b)) => Some(Rgb { r: r as u8, g: g as u8, b: b as u8 }),
            _ => None,
        }
    } else {
        None
    }
}

/// Parses a literal `#rrggbb` hex color; `None` on anything else (no names,
/// no short forms), so a malformed option value is ignored.
pub fn parse_hex_color(s: &str) -> (r: Option<Rgb>)
    ensures
        r == hex_color(s@),
{
    let cs = chars_of(s);
    if cs.len() != 7 || cs[0] != '#' {
        return None;
    }
    let mut i: usize = 0;
    while i < 7
        invariant
            cs@ == s@,
            cs@.len() == 7,
            0 <= i <= 7,
            forall|k: int| 0 <= k < i ==> (#[trigger] cs@[k]) as u32 <= 0x7f,
        decreases 7 - i,
    {
        if cs[i] as u32 > 0x7f {
            return None;
        }
        i = i + 1;
    }
    let r = match parse_unsigned_in(cs.as_slice(), 1, 3, 16, 255) {
        Some(v) => v,
        None => return None,
    };
    let g = match parse_unsigned_in(cs.as_slice(), 3, 5, 16, 255) {
        Some(v) => v,
        None => return None,
    };
    let b = match parse_unsigned_in(cs.as_slice(), 5, 7, 16, 255) {
        Some(v) => v,
        None => return None,
    };
    Some(Rgb { r: r as u8, g: g as u8, b: b as u8 })
}

/// Every `@manager-color-*` option name `Theme::apply_option` understands.
pub open spec fn color_option_names() -> Seq<Seq<char>> {
    seq![
        "@manager-color-bg"@,
        "@manager-color-text"@,
        "@manager-color-meta"@,
        "@manager-color-active"@,
        "@manager-color-accent"@,
        "@manager-color-danger"@,
        "@manager-color-border"@,
        "@manager-color-panel-title"@,
        "@manager-color-selection-bg"@,
    ]
}

/// Every `@manager-color-*` option name `Theme::apply_option` understands.
pub fn color_options() -> (v: Vec<&'static str>)
    ensures
        v@.len() == 9,
        forall|i: int| 0 <= i < 9 ==> (#[trigger] v@[i])@ == color_option_names()[i],
{
    let v = vec![
        "@manager-color-bg",
        "@manager-color-text",
        "@manager-color-meta",
        "@manager-color-active",
        "@manager-color-accent",
        "@manager-color-danger",
        "@manager-color-border",
        "@manager-color-panel-title",
        "@manager-color-selection-bg",
    ];
    v
}

/// `t` with the slot that `option` names set to `c`; unknown names change nothing.
pub open spec fn with_slot(t: Theme, option: Seq<char>, c: Rgb) -> Theme {
    if option == "@manager-color-bg"@ {
        Theme { base: c, ..t }
    } else if option == "@manager-color-text"@ {
        Theme { text: c, ..t }
    } else if option == "@manager-color-meta"@ {
        Theme { subtext0: c, ..t }
    } else if option == "@manager-color-active"@ {
        Theme { green: c, ..t }
    } else if option == "@manager-color-accent"@ {
        Theme { blue: c, ..t }
    } else if option == "@manager-color-danger"@ {
        Theme { red: c, ..t }
    } else if option == "@manager-color-border"@ {
        Theme { surface1: c, ..t }
    } else if option == "@manager-color-panel-title"@ {
        Theme { overlay0: c, ..t }
    } else if option == "@manager-color-selection-bg"@ {
        Theme { surface0: c, ..t }
    } else {
        t
    }
}

/// The theme after one `@manager-color-*` override: the value must parse as
/// a hex color, otherwise nothing changes.
pub open spec fn apply_option_spec(t: Theme, option: Seq<char>, value: Seq<char>) -> Theme {
    match hex_color(value) {
        Some(c) => with_slot(t, option, c),
        None => t,
    }
}

impl Theme {
    /// Applies one `@manager-color-*` override if `option` names a known
    /// semantic slot and `value` parses as a hex color; otherwise a no-op.
    pub fn apply_option(&mut self, option: &str, value: &str)
        ensures
            *final(self) == apply_option_spec(*old(self), option@, value@),
    {
        let color = match parse_hex_color(value) {
            Some(c) => c,
            None => return,
        };
        if text_eq(option, "@manager-color-bg") {
            self.base = color;
        } else if text_eq(option, "@manager-color-text") {
            self.text = color;
        } else if text_eq(option, "@manager-color-meta") {
            self.subtext0 = color;
        } else if text_eq(option, "@manager-color-active") {
            self.green = color;
        } else if text_eq(option, "@manager-color-accent") {
            self.blue = color;
        } else if text_eq(option, "@manager-color-danger") {
            self.red = color;
        } else if text_eq(option, "@manager-color-border") {
            self.surface1 = color;
        } else if text_eq(option, "@manager-color-panel-title") {
            self.overlay0 = color;
        } else if text_eq(option, "@manager-color-selection-bg") {
            self.surface0 = color;
        }
    }
}

/// An override touches nothing when its value is not a hex color or its name
/// is not one of the color options.
pub proof fn law_apply_option_ignores_unknown(t: Theme, option: Seq<char>, value: Seq<char>)
    ensures
        hex_color(value) is None ==> apply_option_spec(t, option, value) == t,
        !color_option_names().contains(option) ==> apply_option_spec(t, option, value) == t,
{
    if !color_option_names().contains(option) {
        assert(color_option_names()[0] == "@manager-color-bg"@);
        assert(color_option_names()[1] == "@manager-color-text"@);
        assert(color_option_names()[2] == "@manager-color-meta"@);
        assert(color_option_names()[3] == "@manager-color-active"@);
        assert(color_option_names()[4] == "@manager-color-accent"@);
        assert(color_option_names()[5] == "@manager-color-danger"@);
        assert(color_option_names()[6] == "@manager-color-border"@);
        assert(color_option_names()[7] == "@manager-color-panel-title"@);
        assert(color_option_names()[8] == "@manager-color-selection-bg"@);
    }
}

/// Setting the same option twice keeps only the second valid value.
pub proof fn law_apply_option_last_wins(t: Theme, option: Seq<char>, v1: Seq<char>, v2: Seq<char>)
    requires
        hex_color(v2) is Some,
    ensures
        apply_option_spec(apply_option_spec(t, option, v1), option, v2) == apply_option_spec(t, option, v2),
{
}

/// Each option sets the one slot that its accessor reads, to the parsed
/// color, and leaves every other slot as it was:
/// - `@manager-color-bg` sets `base`, which `bg()` reads;
/// - `@manager-color-text` sets `text`, which `fg()` reads;
/// - `@manager-color-meta` sets `subtext0`, which `meta()` reads;
/// - `@manager-color-active` sets `green`, which `active()` reads;
/// - `@manager-color-accent` sets `blue`, which `accent()` reads;
/// - `@manager-color-danger` sets `red`, which `danger()` reads;
/// - `@manager-color-border` sets `surface1`, which `border()` reads;
/// - `@manager-color-panel-title` sets `overlay0`, which `panel_title()` reads;
/// - `@manager-color-selection-bg` sets `surface0`, which `selection_bg()` reads;
pub proof fn law_each_option_sets_its_own_slot(t: Theme, value: Seq<char>, c: Rgb)
    requires
        hex_color(value) == Some(c),
    ensures
        apply_option_spec(t, "@manager-color-bg"@, value) == (Theme { base: c, ..t }),
        apply_option_spec(t, "@manager-color-text"@, value) == (Theme { text: c, ..t }),
        apply_option_spec(t, "@manager-color-meta"@, value) == (Theme { subtext0: c, ..t }),
        apply_option_spec(t, "@manager-color-active"@, value) == (Theme { green: c, ..t }),
        apply_option_spec(t, "@manager-color-accent"@, value) == (Theme { blue: c, ..t }),
        apply_option_spec(t, "@manager-color-danger"@, value) == (Theme { red: c, ..t }),
        apply_option_spec(t, "@manager-color-border"@, value) == (Theme { surface1: c, ..t }),
        apply_option_spec(t, "@manager-color-panel-title"@, value) == (Theme { overlay0: c, ..t }),
        apply_option_spec(t, "@manager-color-selection-bg"@, value) == (Theme { surface0: c, ..t }),
{
    reveal_strlit("@manager-color-bg");
    reveal_strlit("@manager-color-text");
    reveal_strlit("@manager-color-meta");
    reveal_strlit("@manager-color-active");
    reveal_strlit("@manager-color-accent");
    reveal_strlit("@manager-color-danger");
    reveal_strlit("@manager-color-border");
    reveal_strlit("@manager-color-panel-title");
    reveal_strlit("@manager-color-selection-bg");
    assert("@manager-color-text"@.len() != "@manager-color-bg"@.len());
    assert("@manager-color-meta"@.len() != "@manager-color-bg"@.len());
    assert("@manager-color-meta"@[15] != "@manager-color-text"@[15]);
    assert("@manager-color-active"@.len() != "@manager-color-bg"@.len());
    assert("@manager-color-active"@.len() != "@manager-color-text"@.len());
    assert("@manager-color-active"@.len() != "@manager-color-meta"@.len());
    assert("@manager-color-accent"@.len() != "@manager-color-bg"@.len());
    assert("@manager-color-accent"@.len() != "@manager-color-text"@.len());
    assert("@manager-color-accent"@.len() != "@manager-color-meta"@.len());
    assert("@manager-color-accent"@[17] != "@manager-color-active"@[17]);
    assert("@manager-color-danger"@.len() != "@manager-color-bg"@.len());
    assert("@manager-color-danger"@.len() != "@manager-color-text"@.len());
    assert("@manager-color-danger"@.len() != "@manager-color-meta"@.len());
    assert("@manager-color-danger"@[15] != "@manager-color-active"@[15]);
    assert("@manager-color-danger"@[15] != "@manager-color-accent"@[15]);
    assert("@manager-color-border"@.len() != "@manager-color-bg"@.len());
    assert("@manager-color-border"@.len() != "@manager-color-text"@.len());
    assert("@manager-color-border"@.len() != "@manager-color-meta"@.len());
    assert("@manager-color-border"@[15] != "@manager-color-active"@[15]);
    assert("@manager-color-border"@[15] != "@manager-color-accent"@[15]);
    assert("@manager-color-border"@[15] != "@manager-color-danger"@[15]);
    assert("@manager-color-panel-title"@.len() != "@manager-color-bg"@.len());
    assert("@manager-color-panel-title"@.len() != "@manager-color-text"@.len());
    assert("@manager-color-panel-title"@.len() != "@manager-color-meta"@.len());
    assert("@manager-color-panel-title"@.len() != "@manager-color-active"@.len());
    assert("@manager-color-panel-title"@.len() != "@manager-color-accent"@.len());
    assert("@manager-color-panel-title"@.len() != "@manager-color-danger"@.len());
    assert("@manager-color-panel-title"@.len() != "@manager-color-border"@.len());
    assert("@manager-color-selection-bg"@.len() != "@manager-color-bg"@.len());
    assert("@manager-color-selection-bg"@.len() != "@manager-color-text"@.len());
    assert("@manager-color-selection-bg"@.len() != "@manager-color-meta"@.len());
    assert("@manager-color-selection-bg"@.len() != "@manager-color-active"@.len());
    assert("@manager-color-selection-bg"@.len() != "@manager-color-accent"@.len());
    assert("@manager-color-selection-bg"@.len() != "@manager-color-danger"@.len());
    assert("@manager-color-selection-bg"@.len() != "@manager-color-border"@.len());
    assert("@manager-color-selection-bg"@.len() != "@manager-color-panel-title"@.len());
}

} // verus!
