use crate::text::str_eq;
use crate::types::{Rgb, ThemeColors};
use vstd::prelude::*;
use vstd::string::*;

verus! {

// ── The registered themes ───────────────────────────────────────────

/// The built-in dark theme.
pub fn dark_theme() -> (t: ThemeColors)
    ensures
        t.name@ == "dark"@,
        t.bg@ == "#323437"@,
        t.text@ == "#d1d0c5"@,
        t.text_dim@ == "#646669"@,
        t.correct@ == "#d1d0c5"@,
        t.incorrect@ == "#ca4754"@,
        t.extra@ == "#7e2a33"@,
        t.cursor@ == "#e2b714"@,
        t.accent@ == "#e2b714"@,
        t.stats@ == "#646669"@,
{
    ThemeColors {
        name: "dark".to_owned(),
        bg: "#323437".to_owned(),
        text: "#d1d0c5".to_owned(),
        text_dim: "#646669".to_owned(),
        correct: "#d1d0c5".to_owned(),
        incorrect: "#ca4754".to_owned(),
        extra: "#7e2a33".to_owned(),
        cursor: "#e2b714".to_owned(),
        accent: "#e2b714".to_owned(),
        stats: "#646669".to_owned(),
    }
}

/// The built-in light theme.
pub fn light_theme() -> (t: ThemeColors)
    ensures
        t.name@ == "light"@,
        t.bg@ == "#f3f2ee"@,
        t.text@ == "#1f2328"@,
        t.text_dim@ == "#6b7280"@,
        t.correct@ == "#1f2328"@,
        t.incorrect@ == "#d14343"@,
        t.extra@ == "#8a3232"@,
        t.cursor@ == "#c28e00"@,
        t.accent@ == "#0f766e"@,
        t.stats@ == "#6b7280"@,
{
    ThemeColors {
        name: "light".to_owned(),
        bg: "#f3f2ee".to_owned(),
        text: "#1f2328".to_owned(),
        text_dim: "#6b7280".to_owned(),
        correct: "#1f2328".to_owned(),
        incorrect: "#d14343".to_owned(),
        extra: "#8a3232".to_owned(),
        cursor: "#c28e00".to_owned(),
        accent: "#0f766e".to_owned(),
        stats: "#6b7280".to_owned(),
    }
}

/// Look a theme up by name; anything unregistered falls back to dark.
pub fn get_theme(name: &str) -> (t: ThemeColors)
    ensures
        t.name@ == (if name@ == "light"@ {
            "light"@
        } else {
            "dark"@
        }),
{
    if str_eq(name, "light") {
        light_theme()
    } else {
        dark_theme()
    }
}

/// The registered theme names, in sorted order.
pub fn get_theme_names() -> (v: Vec<&'static str>)
    ensures
        v@.len() == 2,
        v@[0]@ == "dark"@,
        v@[1]@ == "light"@,
{
    let mut v: Vec<&'static str> = Vec::new();
    v.push("dark");
    v.push("light");
    v
}

// ── Hex colors ──────────────────────────────────────────────────────

pub open spec fn is_hex_digit(c: char) -> bool {
    ('0' <= c && c <= '9') || ('a' <= c && c <= 'f') || ('A' <= c && c <= 'F')
}

/// Value of one hex digit; anything else reads zero.
pub open spec fn hex_val(c: char) -> nat {
    if '0' <= c && c <= '9' {
        (c as nat - '0' as nat) as nat
    } else if 'a' <= c && c <= 'f' {
        (c as nat - 'a' as nat + 10) as nat
    } else if 'A' <= c && c <= 'F' {
        (c as nat - 'A' as nat + 10) as nat
    } else {
        0
    }
}

/// One color channel from two hex digits; a pair with any bad digit reads
/// zero, as a failed parse of the pair would.
pub open spec fn pair_val(a: char, b: char) -> nat {
    if is_hex_digit(a) && is_hex_digit(b) {
        16 * hex_val(a) + hex_val(b)
    } else {
        0
    }
}

/// The text with every leading '#' removed.
pub open spec fn strip_hash(s: Seq<char>) -> Seq<char>
    decreases s.len(),
{
    if s.len() > 0 && s[0] == '#' {
        strip_hash(s.skip(1))
    } else {
        s
    }
}

/// What `parse_hex` decodes: after the leading hashes, three channels from
/// six hex digits; anything shorter reads white.
pub open spec fn spec_parse_hex(s: Seq<char>) -> Rgb {
    let h = strip_hash(s);
    if h.len() < 6 {
        Rgb { red: 255, green: 255, blue: 255 }
    } else {
        Rgb {
            red: pair_val(h[0], h[1]) as u8,
            green: pair_val(h[2], h[3]) as u8,
            blue: pair_val(h[4], h[5]) as u8,
        }
    }
}

fn hex_digit_val(c: char) -> (r: u8)
    ensures
        r == hex_val(c),
        r < 16 || !is_hex_digit(c),
        is_hex_digit(c) ==> r == hex_val(c) && r < 16,
{
    if '0' <= c && c <= '9' {
        (c as u32 - '0' as u32) as u8
    } else if 'a' <= c && c <= 'f' {
        (c as u32 - 'a' as u32 + 10) as u8
    } else if 'A' <= c && c <= 'F' {
        (c as u32 - 'A' as u32 + 10) as u8
    } else {
        0
    }
}

fn is_hex_digit_exec(c: char) -> (r: bool)
    ensures
        r == is_hex_digit(c),
{
    ('0' <= c && c <= '9') || ('a' <= c && c <= 'f') || ('A' <= c && c <= 'F')
}

fn pair_val_exec(a: char, b: char) -> (r: u8)
    ensures
        r == pair_val(a, b),
{
    if is_hex_digit_exec(a) && is_hex_digit_exec(b) {
        16 * hex_digit_val(a) + hex_digit_val(b)
    } else {
        0
    }
}

/// Decode a `#rrggbb` color. Leading hashes are skipped; too-short input
/// reads white; a channel whose pair has a bad digit reads zero.
pub fn parse_hex(hex: &str) -> (c: Rgb)
    ensures
        c == spec_parse_hex(hex@),
{
    let n = hex.unicode_len();
    let mut start: usize = 0;
    proof {
        assert(hex@.skip(0) =~= hex@);
    }
    while start < n && hex.get_char(start) == '#'
        invariant
            n == hex@.len(),
            start <= n,
            strip_hash(hex@) == strip_hash(hex@.skip(start as int)),
        decreases n - start,
    {
        proof {
            assert(hex@.skip(start as int).skip(1) =~= hex@.skip(start as int + 1));
        }
        start = start + 1;
    }
    proof {
        assert(strip_hash(hex@) == hex@.skip(start as int));
    }
    if n - start < 6 {
        return Rgb { red: 255, green: 255, blue: 255 };
    }
    let red = pair_val_exec(hex.get_char(start), hex.get_char(start + 1));
    let green = pair_val_exec(hex.get_char(start + 2), hex.get_char(start + 3));
    let blue = pair_val_exec(hex.get_char(start + 4), hex.get_char(start + 5));
    Rgb { red, green, blue }
}

} // verus!
