//! Theme colours: parsing `#rrggbb` colours, their brightness, the derived
//! shades, and the colour set that the style sheet is written from.

use vstd::prelude::*;
use vstd::string::*;
use vstd::utf8::*;
use crate::text::{decimal, push_decimal, push_char, push_str, owned};

verus! {

// ---------------------------------------------------------------------------
// Parsing
// ---------------------------------------------------------------------------

/// `b` without its leading `#` bytes.
pub open spec fn strip_hashes(b: Seq<u8>) -> Seq<u8>
    decreases b.len(),
{
    if b.len() > 0 && b[0] == 0x23u8 {
        strip_hashes(b.drop_first())
    } else {
        b
    }
}

/// The value of a hexadecimal digit byte.
pub open spec fn hex_value(c: u8) -> Option<int> {
    if 0x30 <= c <= 0x39 {
        Some(c - 0x30)
    } else if 0x61 <= c <= 0x66 {
        Some(c - 0x61 + 10)
    } else if 0x41 <= c <= 0x46 {
        Some(c - 0x41 + 10)
    } else {
        None
    }
}

/// The channel written by two bytes, as `u8::from_str_radix(.., 16)` reads
/// it (an optional leading `+`), zero when it cannot be read.
pub open spec fn channel_value(a: u8, b: u8) -> u8 {
    match (hex_value(a), hex_value(b)) {
        (Some(x), Some(y)) => (16 * x + y) as u8,
        (None, Some(y)) => if a == 0x2bu8 { y as u8 } else { 0 },
        _ => 0,
    }
}

/// The bytes of a colour after its leading `#`s.
pub open spec fn colour_digits(hex: Seq<char>) -> Seq<u8> {
    strip_hashes(encode_utf8(hex))
}

/// Reading the channels of `hex` would cut a character in two: six bytes
/// remain after the `#`s but a channel boundary falls inside a character.
pub open spec fn colour_cuts_char(hex: Seq<char>) -> bool {
    let d = colour_digits(hex);
    d.len() == 6 && (is_continuation_byte(d[2]) || is_continuation_byte(d[4]))
}

/// The red, green and blue channels of a `#rrggbb` colour; black when the
/// text after the `#`s is not six bytes long.
pub open spec fn rgb_of(hex: Seq<char>) -> (u8, u8, u8) {
    let d = colour_digits(hex);
    if d.len() != 6 {
        (0, 0, 0)
    } else {
        (channel_value(d[0], d[1]), channel_value(d[2], d[3]), channel_value(d[4], d[5]))
    }
}

fn hex_value_exec(c: u8) -> (r: Option<u8>)
    ensures
        match r {
            Some(v) => hex_value(c) == Some(v as int),
            None => hex_value(c) is None,
        },
{
    if 0x30 <= c && c <= 0x39 {
        Some(c - 0x30)
    } else if 0x61 <= c && c <= 0x66 {
        Some(c - 0x61 + 10)
    } else if 0x41 <= c && c <= 0x46 {
        Some(c - 0x41 + 10)
    } else {
        None
    }
}

fn channel_exec(a: u8, b: u8) -> (r: u8)
    ensures
        r == channel_value(a, b),
{
    match (hex_value_exec(a), hex_value_exec(b)) {
        (Some(x), Some(y)) => 16 * x + y,
        (None, Some(y)) => if a == 0x2b { y } else { 0 },
        _ => 0,
    }
}

/// Whether reading the channels of `hex` would cut a character in two (see
/// [`colour_cuts_char`]); the colour functions are not defined on such text.
pub fn colour_cuts_character(hex: &str) -> (b: bool)
    ensures
        b == colour_cuts_char(hex@),
{
    let b = hex.as_bytes();
    assert(b@.skip(0) =~= b@);
    let mut i: usize = 0;
    while i < b.len() && b[i] == 0x23
        invariant
            i <= b.len(),
            strip_hashes(b@) == strip_hashes(b@.skip(i as int)),
        decreases b.len() - i,
    {
        assert(b@.skip(i as int).drop_first() =~= b@.skip(i + 1));
        i = i + 1;
    }
    let ghost d = colour_digits(hex@);
    assert(d =~= b@.skip(i as int));
    if b.len() - i != 6 {
        return false;
    }
    let c2 = b[i + 2];
    let c4 = b[i + 4];
    (0x80 <= c2 && c2 < 0xc0) || (0x80 <= c4 && c4 < 0xc0)
}

/// The channels of a `#rrggbb` colour (see [`rgb_of`]).
pub fn hex_to_rgb(hex: &str) -> (c: (u8, u8, u8))
    requires
        !colour_cuts_char(hex@),
    ensures
        c == rgb_of(hex@),
{
    let b = hex.as_bytes();
    assert(b@.skip(0) =~= b@);
    let mut i: usize = 0;
    while i < b.len() && b[i] == 0x23
        invariant
            i <= b.len(),
            strip_hashes(b@) == strip_hashes(b@.skip(i as int)),
        decreases b.len() - i,
    {
        assert(b@.skip(i as int).drop_first() =~= b@.skip(i + 1));
        i = i + 1;
    }
    let ghost d = colour_digits(hex@);
    assert(d =~= b@.skip(i as int));
    if b.len() - i != 6 {
        return (0, 0, 0);
    }
    (channel_exec(b[i], b[i + 1]), channel_exec(b[i + 2], b[i + 3]), channel_exec(b[i + 4], b[i + 5]))
}

// ---------------------------------------------------------------------------
// Brightness
// ---------------------------------------------------------------------------

/// The weighted channel sum 299·r + 587·g + 114·b; brightness is this over
/// 255 000.
pub open spec fn weight(r: u8, g: u8, b: u8) -> int {
    299 * r + 587 * g + 114 * b
}

/// Colours exactly at half brightness that the single-precision brightness
/// formula places just below one half.
pub open spec fn rounds_below_half(r: u8, g: u8, b: u8) -> bool {
    (r, g, b) == (37u8, 197u8, 7u8) || (r, g, b) == (56u8, 178u8, 55u8) || (r, g, b) == (75u8, 159u8, 103u8)
        || (r, g, b) == (86u8, 160u8, 69u8) || (r, g, b) == (105u8, 141u8, 117u8) || (r, g, b) == (154u8, 104u8, 179u8)
        || (r, g, b) == (173u8, 85u8, 227u8) || (r, g, b) == (217u8, 89u8, 91u8) || (r, g, b) == (224u8, 100u8, 16u8)
        || (r, g, b) == (232u8, 80u8, 98u8) || (r, g, b) == (236u8, 70u8, 139u8) || (r, g, b) == (243u8, 81u8, 64u8)
        || (r, g, b) == (251u8, 61u8, 146u8) || (r, g, b) == (255u8, 51u8, 187u8)
}

/// Colours exactly at half brightness that the single-precision brightness
/// formula places just above one half.
pub open spec fn rounds_above_half(r: u8, g: u8, b: u8) -> bool {
    (r, g, b) == (1u8, 173u8, 225u8) || (r, g, b) == (4u8, 194u8, 109u8) || (r, g, b) == (15u8, 195u8, 75u8)
        || (r, g, b) == (22u8, 206u8, 0u8) || (r, g, b) == (34u8, 176u8, 123u8) || (r, g, b) == (41u8, 187u8, 48u8)
        || (r, g, b) == (60u8, 168u8, 96u8) || (r, g, b) == (71u8, 169u8, 62u8) || (r, g, b) == (79u8, 149u8, 144u8)
        || (r, g, b) == (90u8, 150u8, 110u8) || (r, g, b) == (98u8, 130u8, 192u8) || (r, g, b) == (109u8, 131u8, 158u8)
        || (r, g, b) == (123u8, 153u8, 8u8) || (r, g, b) == (128u8, 112u8, 206u8) || (r, g, b) == (142u8, 134u8, 56u8)
        || (r, g, b) == (153u8, 135u8, 22u8) || (r, g, b) == (161u8, 115u8, 104u8) || (r, g, b) == (172u8, 116u8, 70u8)
}

/// The colour is dark: its brightness (0.299 r + 0.587 g + 0.114 b) / 255,
/// computed in single precision, is below one half.
pub open spec fn is_dark(c: (u8, u8, u8)) -> bool {
    weight(c.0, c.1, c.2) < 127500 || (weight(c.0, c.1, c.2) == 127500 && rounds_below_half(c.0, c.1, c.2))
}

/// The colour is light: that brightness is above one half.
pub open spec fn is_light(c: (u8, u8, u8)) -> bool {
    weight(c.0, c.1, c.2) > 127500 || (weight(c.0, c.1, c.2) == 127500 && rounds_above_half(c.0, c.1, c.2))
}

fn weight_exec(c: (u8, u8, u8)) -> (w: u32)
    ensures
        w == weight(c.0, c.1, c.2),
{
    299 * (c.0 as u32) + 587 * (c.1 as u32) + 114 * (c.2 as u32)
}

/// Whether the colour is dark (see [`is_dark`]).
pub fn rgb_is_dark(c: (u8, u8, u8)) -> (d: bool)
    ensures
        d == is_dark(c),
{
    let w = weight_exec(c);
    if w != 127500 {
        return w < 127500;
    }
    let (r, g, b) = c;
    (r == 37 && g == 197 && b == 7) || (r == 56 && g == 178 && b == 55) || (r == 75 && g == 159 && b == 103)
        || (r == 86 && g == 160 && b == 69) || (r == 105 && g == 141 && b == 117) || (r == 154 && g == 104 && b == 179)
        || (r == 173 && g == 85 && b == 227) || (r == 217 && g == 89 && b == 91) || (r == 224 && g == 100 && b == 16)
        || (r == 232 && g == 80 && b == 98) || (r == 236 && g == 70 && b == 139) || (r == 243 && g == 81 && b == 64)
        || (r == 251 && g == 61 && b == 146) || (r == 255 && g == 51 && b == 187)
}

/// Whether the colour is light (see [`is_light`]).
pub fn rgb_is_light(c: (u8, u8, u8)) -> (l: bool)
    ensures
        l == is_light(c),
{
    let w = weight_exec(c);
    if w != 127500 {
        return w > 127500;
    }
    let (r, g, b) = c;
    (r == 1 && g == 173 && b == 225) || (r == 4 && g == 194 && b == 109) || (r == 15 && g == 195 && b == 75)
        || (r == 22 && g == 206 && b == 0) || (r == 34 && g == 176 && b == 123) || (r == 41 && g == 187 && b == 48)
        || (r == 60 && g == 168 && b == 96) || (r == 71 && g == 169 && b == 62) || (r == 79 && g == 149 && b == 144)
        || (r == 90 && g == 150 && b == 110) || (r == 98 && g == 130 && b == 192) || (r == 109 && g == 131 && b == 158)
        || (r == 123 && g == 153 && b == 8) || (r == 128 && g == 112 && b == 206) || (r == 142 && g == 134 && b == 56)
        || (r == 153 && g == 135 && b == 22) || (r == 161 && g == 115 && b == 104) || (r == 172 && g == 116 && b == 70)
}

/// No colour is both dark and light.
pub proof fn lemma_dark_not_light(c: (u8, u8, u8))
    ensures
        !(is_dark(c) && is_light(c)),
{
}

/// The text colour on an accent colour: white on dark accents, near-black
/// on others.
pub open spec fn accent_foreground_of(accent: Seq<char>) -> Seq<char> {
    if is_dark(rgb_of(accent)) { "#ffffff"@ } else { "#1a1a1a"@ }
}

/// The text colour on an accent colour (see [`accent_foreground_of`]).
pub fn accent_foreground(accent: &str) -> (s: String)
    requires
        !colour_cuts_char(accent@),
    ensures
        s@ == accent_foreground_of(accent@),
{
    if rgb_is_dark(hex_to_rgb(accent)) {
        owned("#ffffff")
    } else {
        owned("#1a1a1a")
    }
}

// ---------------------------------------------------------------------------
// Writing colours
// ---------------------------------------------------------------------------

/// The lower-case hexadecimal digit for `d < 16`.
pub open spec fn hex_digit(d: int) -> char {
    if d < 10 { (0x30 + d) as char } else { (0x61 + d - 10) as char }
}

/// `v` as two lower-case hexadecimal digits (`{:02x}`).
pub open spec fn hex2(v: u8) -> Seq<char> {
    seq![hex_digit((v / 16) as int), hex_digit((v % 16) as int)]
}

fn hex_digit_exec(d: u8) -> (c: char)
    requires
        d < 16,
    ensures
        c == hex_digit(d as int),
{
    if d < 10 {
        (0x30u8 + d) as char
    } else {
        (0x61u8 + d - 10) as char
    }
}

pub(crate) fn push_hex2(s: &mut String, v: u8)
    ensures
        final(s)@ == old(s)@ + hex2(v),
{
    push_char(s, hex_digit_exec(v / 16));
    push_char(s, hex_digit_exec(v % 16));
    assert(final(s)@ =~= old(s)@ + hex2(v));
}

/// A channel scaled by (100 ∓ `pct`) %: darker for light colours, lighter
/// (capped at 255) for the others; the fraction is dropped.
pub open spec fn scaled(v: u8, pct: u8, light: bool) -> u8 {
    if light {
        (v * (100 - pct) / 100) as u8
    } else {
        let x = v * (100 + pct) / 100;
        if x > 255 { 255 } else { x as u8 }
    }
}

/// A colour shifted by `pct` percent away from its brightness, written as
/// `#rrggbb`.
pub open spec fn adjusted(hex: Seq<char>, pct: u8) -> Seq<char> {
    let c = rgb_of(hex);
    let l = is_light(c);
    seq!['#'] + hex2(scaled(c.0, pct, l)) + hex2(scaled(c.1, pct, l)) + hex2(scaled(c.2, pct, l))
}

fn scaled_exec(v: u8, pct: u8, light: bool) -> (r: u8)
    requires
        pct <= 100,
    ensures
        r == scaled(v, pct, light),
{
    let vv = v as u32;
    if light {
        let m: u32 = 100 - pct as u32;
        assert(vv * m <= 25500 && vv * m / 100 <= 255) by (nonlinear_arith)
            requires
                vv <= 255,
                m <= 100,
        ;
        (vv * m / 100) as u8
    } else {
        let m: u32 = 100 + pct as u32;
        assert(vv * m <= 51000) by (nonlinear_arith)
            requires
                vv <= 255,
                m <= 200,
        ;
        let x = vv * m / 100;
        if x > 255 { 255 } else { x as u8 }
    }
}

/// A colour shifted by `pct` percent away from its brightness (see
/// [`adjusted`]); with 20 and 15 this is the single-precision scaling by
/// 1 ∓ 0.2 and 1 ∓ 0.15.
pub fn adjust_color(hex: &str, pct: u8) -> (s: String)
    requires
        !colour_cuts_char(hex@),
        pct <= 100,
    ensures
        s@ == adjusted(hex@, pct),
{
    let c = hex_to_rgb(hex);
    let l = rgb_is_light(c);
    let mut s = owned("#");
    proof { reveal_strlit("#"); }
    assert(s@ =~= seq!['#']);
    push_hex2(&mut s, scaled_exec(c.0, pct, l));
    push_hex2(&mut s, scaled_exec(c.1, pct, l));
    push_hex2(&mut s, scaled_exec(c.2, pct, l));
    s
}

/// A colour with opacity, as `rgba(r, g, b, alpha)`.
pub open spec fn rgba_text(hex: Seq<char>, alpha: Seq<char>) -> Seq<char> {
    let c = rgb_of(hex);
    "rgba("@ + decimal(c.0 as nat) + ", "@ + decimal(c.1 as nat) + ", "@ + decimal(c.2 as nat) + ", "@ + alpha + ")"@
}

/// A colour with opacity (see [`rgba_text`]); `alpha` is the opacity as
/// written.
pub fn hex_to_rgba(hex: &str, alpha: &str) -> (s: String)
    requires
        !colour_cuts_char(hex@),
    ensures
        s@ == rgba_text(hex@, alpha@),
{
    let c = hex_to_rgb(hex);
    let mut s = owned("rgba(");
    push_decimal(&mut s, c.0 as u64);
    push_str(&mut s, ", ");
    push_decimal(&mut s, c.1 as u64);
    push_str(&mut s, ", ");
    push_decimal(&mut s, c.2 as u64);
    push_str(&mut s, ", ");
    push_str(&mut s, alpha);
    push_str(&mut s, ")");
    s
}

proof fn lemma_hex_digit_ascii(d: int)
    requires
        0 <= d < 16,
    ensures
        '\0' <= hex_digit(d) <= '\u{7f}',
        hex_digit(d) as u8 != 0x23u8,
        (hex_digit(d) as u8) < 0x80u8,
{
}

/// A text of one `#` and six ASCII characters other than `#` reads as six
/// plain bytes.
pub proof fn lemma_plain_colour(s: Seq<char>)
    requires
        s.len() == 7,
        s[0] == '#',
        forall|k: int| 1 <= k < 7 ==> '\0' <= #[trigger] s[k] <= '\u{7f}' && s[k] != '#',
    ensures
        !colour_cuts_char(s),
        colour_digits(s).len() == 6,
        forall|k: int| 0 <= k < 6 ==> #[trigger] colour_digits(s)[k] == s[k + 1] as u8,
{
    assert(is_ascii_chars(s));
    is_ascii_chars_encode_utf8(s);
    let e = encode_utf8(s);
    assert(e[0] == s[0] as u8);
    let t = e.drop_first();
    assert(t[0] == e[1]);
    assert(s[1] as u8 != 0x23u8) by {
        assert(s[1] != '#');
        char_u32_cast(s[1], s[1] as u32);
    }
    assert(strip_hashes(t) == t);
    assert(strip_hashes(e) == t);
    assert forall|k: int| 0 <= k < 6 implies #[trigger] colour_digits(s)[k] == s[k + 1] as u8 by {
        assert(t[k] == e[k + 1]);
    }
    assert((s[3] as u8) < 0x80u8 && (s[5] as u8) < 0x80u8);
}

/// A shifted colour reads back as six plain digits after one `#`.
pub proof fn lemma_adjusted_plain(hex: Seq<char>, pct: u8)
    ensures
        !colour_cuts_char(adjusted(hex, pct)),
        colour_digits(adjusted(hex, pct)).len() == 6,
{
    let c = rgb_of(hex);
    let l = is_light(c);
    let s = adjusted(hex, pct);
    let vals = seq![scaled(c.0, pct, l), scaled(c.1, pct, l), scaled(c.2, pct, l)];
    assert(s.len() == 7);
    assert forall|k: int| 1 <= k < 7 implies '\0' <= #[trigger] s[k] <= '\u{7f}' && s[k] != '#' by {
        let v = vals[(k - 1) / 2];
        let d = if k % 2 == 1 { v / 16 } else { v % 16 } as int;
        assert(s[k] == hex_digit(d));
        lemma_hex_digit_ascii(d);
    }
    lemma_plain_colour(s);
}

// ---------------------------------------------------------------------------
// Theme colours
// ---------------------------------------------------------------------------

/// The six colours of a theme, each as written (`#rrggbb`).
#[derive(Clone, Debug)]
pub struct ThemeColors {
    pub accent_primary: String,
    pub accent_secondary: String,
    pub accent_primary_foreground: String,
    pub background: String,
    pub foreground: String,
    pub destructive: String,
}

/// The mathematical value of [`ThemeColors`].
pub struct ThemeColorsView {
    pub accent_primary: Seq<char>,
    pub accent_secondary: Seq<char>,
    pub accent_primary_foreground: Seq<char>,
    pub background: Seq<char>,
    pub foreground: Seq<char>,
    pub destructive: Seq<char>,
}

impl View for ThemeColors {
    type V = ThemeColorsView;

    open spec fn view(&self) -> ThemeColorsView {
        ThemeColorsView {
            accent_primary: self.accent_primary@,
            accent_secondary: self.accent_secondary@,
            accent_primary_foreground: self.accent_primary_foreground@,
            background: self.background@,
            foreground: self.foreground@,
            destructive: self.destructive@,
        }
    }
}

/// The built-in colours: violet accent with cyan secondary accent on a dark
/// blue-grey background.
pub open spec fn default_colors() -> ThemeColorsView {
    ThemeColorsView {
        accent_primary: "#8b5cf6"@,
        accent_secondary: "#06b6d4"@,
        accent_primary_foreground: accent_foreground_of("#8b5cf6"@),
        background: "#1e1e2e"@,
        foreground: "#d4d4d8"@,
        destructive: "#ef4444"@,
    }
}

/// The built-in colours (see [`default_colors`]).
pub fn theme_default_colors() -> (c: ThemeColors)
    ensures
        c@ == default_colors(),
{
    proof {
        reveal_strlit("#8b5cf6");
        let s = "#8b5cf6"@;
        lemma_plain_colour(s);
    }
    ThemeColors {
        accent_primary: owned("#8b5cf6"),
        accent_secondary: owned("#06b6d4"),
        accent_primary_foreground: accent_foreground("#8b5cf6"),
        background: owned("#1e1e2e"),
        foreground: owned("#d4d4d8"),
        destructive: owned("#ef4444"),
    }
}

/// The colours a theme file sets; `None` keeps the built-in colour.
pub struct ThemeOverrides {
    pub accent_primary: Option<String>,
    pub accent_secondary: Option<String>,
    pub accent_primary_foreground: Option<String>,
    pub background: Option<String>,
    pub foreground: Option<String>,
    pub destructive: Option<String>,
}

/// The optional colour as a value.
pub open spec fn opt_colour(o: Option<String>) -> Option<Seq<char>> {
    match o {
        Some(s) => Some(s@),
        None => None,
    }
}

/// The colour, or the fallback.
pub open spec fn colour_or(o: Option<String>, d: Seq<char>) -> Seq<char> {
    match o {
        Some(s) => s@,
        None => d,
    }
}

/// The colours of a theme file laid over the built-in ones: each colour it
/// sets replaces the built-in one; a new accent also brings its own text
/// colour unless the file sets that too.
pub open spec fn themed_colors(o: ThemeOverrides) -> ThemeColorsView {
    let d = default_colors();
    ThemeColorsView {
        accent_primary: colour_or(o.accent_primary, d.accent_primary),
        accent_secondary: colour_or(o.accent_secondary, d.accent_secondary),
        accent_primary_foreground: match o.accent_primary_foreground {
            Some(f) => f@,
            None => match o.accent_primary {
                Some(a) => accent_foreground_of(a@),
                None => d.accent_primary_foreground,
            },
        },
        background: colour_or(o.background, d.background),
        foreground: colour_or(o.foreground, d.foreground),
        destructive: colour_or(o.destructive, d.destructive),
    }
}

/// Each colour a theme file sets appears unchanged in the theme; each one
/// it leaves unset keeps the built-in colour (violet `#8b5cf6` accent, cyan
/// `#06b6d4` second accent, `#1e1e2e` background, `#d4d4d8` text, red
/// `#ef4444` for destructive actions). The accent's text colour is
/// [`lemma_accent_text_colour`]'s.
pub proof fn lemma_theme_file_colours_win(o: ThemeOverrides)
    ensures
        o.accent_primary matches Some(c) ==> themed_colors(o).accent_primary == c@,
        o.accent_primary is None ==> themed_colors(o).accent_primary == "#8b5cf6"@,
        o.accent_secondary matches Some(c) ==> themed_colors(o).accent_secondary == c@,
        o.accent_secondary is None ==> themed_colors(o).accent_secondary == "#06b6d4"@,
        o.background matches Some(c) ==> themed_colors(o).background == c@,
        o.background is None ==> themed_colors(o).background == "#1e1e2e"@,
        o.foreground matches Some(c) ==> themed_colors(o).foreground == c@,
        o.foreground is None ==> themed_colors(o).foreground == "#d4d4d8"@,
        o.destructive matches Some(c) ==> themed_colors(o).destructive == c@,
        o.destructive is None ==> themed_colors(o).destructive == "#ef4444"@,
{
}

fn pick(o: &Option<String>, d: String) -> (s: String)
    ensures
        s@ == colour_or(*o, d@),
{
    match o {
        Some(x) => x.clone(),
        None => d,
    }
}

/// The colours of a theme file laid over the built-in ones (see
/// [`themed_colors`]).
pub fn theme_colors_from(o: &ThemeOverrides) -> (c: ThemeColors)
    requires
        o.accent_primary matches Some(a) ==> !colour_cuts_char(a@),
    ensures
        c@ == themed_colors(*o),
{
    let d = theme_default_colors();
    let fg = match &o.accent_primary_foreground {
        Some(f) => f.clone(),
        None => match &o.accent_primary {
            Some(a) => accent_foreground(a.as_str()),
            None => d.accent_primary_foreground,
        },
    };
    ThemeColors {
        accent_primary: pick(&o.accent_primary, d.accent_primary),
        accent_secondary: pick(&o.accent_secondary, d.accent_secondary),
        accent_primary_foreground: fg,
        background: pick(&o.background, d.background),
        foreground: pick(&o.foreground, d.foreground),
        destructive: pick(&o.destructive, d.destructive),
    }
}

// ---------------------------------------------------------------------------
// The style sheet's colour set
// ---------------------------------------------------------------------------

/// The colours the style sheet is written from.
pub struct CssPalette {
    pub panel_bg: String,
    pub section_bg: String,
    pub opaque_bg: String,
    pub card_bg: String,
    pub card_hover_bg: String,
    pub separator: String,
    pub connected_hover_separator: String,
    pub accent: String,
    pub accent_fg: String,
    pub accent_hover: String,
    pub gold: String,
    pub fg: String,
    pub destructive: String,
    pub destructive_separator: String,
    pub destructive_hover: String,
}

/// The mathematical value of a [`CssPalette`].
pub struct CssPaletteView {
    pub panel_bg: Seq<char>,
    pub section_bg: Seq<char>,
    pub opaque_bg: Seq<char>,
    pub card_bg: Seq<char>,
    pub card_hover_bg: Seq<char>,
    pub separator: Seq<char>,
    pub connected_hover_separator: Seq<char>,
    pub accent: Seq<char>,
    pub accent_fg: Seq<char>,
    pub accent_hover: Seq<char>,
    pub gold: Seq<char>,
    pub fg: Seq<char>,
    pub destructive: Seq<char>,
    pub destructive_separator: Seq<char>,
    pub destructive_hover: Seq<char>,
}

impl View for CssPalette {
    type V = CssPaletteView;

    open spec fn view(&self) -> CssPaletteView {
        CssPaletteView {
            panel_bg: self.panel_bg@,
            section_bg: self.section_bg@,
            opaque_bg: self.opaque_bg@,
            card_bg: self.card_bg@,
            card_hover_bg: self.card_hover_bg@,
            separator: self.separator@,
            connected_hover_separator: self.connected_hover_separator@,
            accent: self.accent@,
            accent_fg: self.accent_fg@,
            accent_hover: self.accent_hover@,
            gold: self.gold@,
            fg: self.fg@,
            destructive: self.destructive@,
            destructive_separator: self.destructive_separator@,
            destructive_hover: self.destructive_hover@,
        }
    }
}

/// The colour set for a theme whose panel opacity is written `opacity`:
/// translucent panel and sections from the background (sections shifted by
/// 20 %), white or black glass cards on dark or light backgrounds, accent and
/// destructive separators, and hover shades shifted by 15 %.
pub open spec fn palette_of(t: ThemeColorsView, opacity: Seq<char>) -> CssPaletteView {
    let dark = is_dark(rgb_of(t.background));
    CssPaletteView {
        panel_bg: rgba_text(t.background, opacity),
        section_bg: rgba_text(adjusted(t.background, 20), "0.94"@),
        opaque_bg: rgba_text(t.background, "0.99"@),
        card_bg: if dark { "rgba(255, 255, 255, 0.08)"@ } else { "rgba(0, 0, 0, 0.04)"@ },
        card_hover_bg: if dark { "rgba(255, 255, 255, 0.15)"@ } else { "rgba(0, 0, 0, 0.1)"@ },
        separator: rgba_text(t.accent_primary, "0.3"@),
        connected_hover_separator: rgba_text(t.accent_primary, "0.4"@),
        accent: t.accent_primary,
        accent_fg: t.accent_primary_foreground,
        accent_hover: adjusted(t.accent_primary, 15),
        gold: t.accent_secondary,
        fg: t.foreground,
        destructive: t.destructive,
        destructive_separator: rgba_text(t.destructive, "0.3"@),
        destructive_hover: adjusted(t.destructive, 15),
    }
}

/// The colour set for a theme (see [`palette_of`]); `opacity` is the panel
/// opacity as written.
pub fn css_palette(t: &ThemeColors, opacity: &str) -> (p: CssPalette)
    requires
        !colour_cuts_char(t.background@),
        !colour_cuts_char(t.accent_primary@),
        !colour_cuts_char(t.destructive@),
    ensures
        p@ == palette_of(t@, opacity@),
{
    let dark = rgb_is_dark(hex_to_rgb(t.background.as_str()));
    let section_hex = adjust_color(t.background.as_str(), 20);
    proof {
        lemma_adjusted_plain(t.background@, 20);
    }
    CssPalette {
        panel_bg: hex_to_rgba(t.background.as_str(), opacity),
        section_bg: hex_to_rgba(section_hex.as_str(), "0.94"),
        opaque_bg: hex_to_rgba(t.background.as_str(), "0.99"),
        card_bg: if dark { owned("rgba(255, 255, 255, 0.08)") } else { owned("rgba(0, 0, 0, 0.04)") },
        card_hover_bg: if dark { owned("rgba(255, 255, 255, 0.15)") } else { owned("rgba(0, 0, 0, 0.1)") },
        separator: hex_to_rgba(t.accent_primary.as_str(), "0.3"),
        connected_hover_separator: hex_to_rgba(t.accent_primary.as_str(), "0.4"),
        accent: t.accent_primary.clone(),
        accent_fg: t.accent_primary_foreground.clone(),
        accent_hover: adjust_color(t.accent_primary.as_str(), 15),
        gold: t.accent_secondary.clone(),
        fg: t.foreground.clone(),
        destructive: t.destructive.clone(),
        destructive_separator: hex_to_rgba(t.destructive.as_str(), "0.3"),
        destructive_hover: adjust_color(t.destructive.as_str(), 15),
    }
}

/// The style sheet for a colour set: the panel, header, tabs, overlays,
/// rows, buttons, inputs and indicators, each drawn with the set's colours.
pub open spec fn css_sheet(p: CssPaletteView) -> Seq<char> {
    "\n/* ========================================\n   ORBIT DYNAMIC THEME\n   ======================================== */\n\n/* Main Panel */\n.orbit-panel {\n    background-color: "@
        + p.panel_bg
        + ";\n    background-image: linear-gradient(to bottom, rgba(255, 255, 255, 0.05), transparent);\n    border: 1px solid rgba(255, 255, 255, 0.15);\n    border-radius: 16px;\n    color: "@
        + p.fg
        + ";\n    padding: 8px;\n    margin: 0;\n}\n\nwindow {\n    background: none;\n    background-color: transparent;\n    box-shadow: none;\n    border: none;\n    border-radius: 16px;\n}\n\n.background {\n    background-color: transparent;\n    background-image: none;\n    border-radius: 16px;\n}\n\n/* Header */\n.orbit-header {\n    background-color: "@
        + p.section_bg
        + ";\n    background-image: linear-gradient(to bottom, rgba(255, 255, 255, 0.03), transparent);\n    border-bottom: 1px solid "@
        + p.separator
        + ";\n    border-radius: 16px 16px 0 0;\n    margin: -8px -8px 8px -8px;\n    padding: 8px 8px 8px 8px;\n}\n\n/* Tabs */\n.orbit-tab-bar {\n    background-color: rgba(255, 255, 255, 0.05);\n    border-radius: 9999px;\n    padding: 4px;\n}\n\n.orbit-tab {\n    background: transparent;\n    background-image: none;\n    color: "@
        + p.fg
        + ";\n    opacity: 0.6;\n    border: none;\n    box-shadow: none;\n    outline: none;\n    font-size: 11px;\n    font-weight: 600;\n    -gtk-icon-shadow: none;\n    text-shadow: none;\n    transition: background-color 0.2s ease, color 0.2s ease, opacity 0.2s ease, box-shadow 0.2s ease;\n    min-width: 80px;\n}\n\n.orbit-tab:hover {\n    opacity: 1.0;\n    color: "@
        + p.accent_fg
        + ";\n    background-color: "@
        + p.accent
        + ";\n    background-image: none;\n    border-radius: 9999px;\n    box-shadow: none;\n}\n\n.orbit-tab.active {\n    background-color: "@
        + p.accent
        + ";\n    background-image: none;\n    border-radius: 9999px;\n    color: "@
        + p.accent_fg
        + ";\n    opacity: 1.0;\n    box-shadow: 0 2px 8px rgba(0, 0, 0, 0.2);\n}\n\n/* Overlays - Opaque with padding */\n.orbit-details-overlay, \n.orbit-password-overlay, \n.orbit-error-overlay {\n    background-color: "@
        + p.opaque_bg
        + ";\n    border: 2px solid "@
        + p.accent
        + ";\n    border-radius: 16px;\n    box-shadow: 0 8px 32px rgba(0, 0, 0, 0.6);\n    color: "@
        + p.fg
        + ";\n    margin: 20px;\n    padding: 24px;\n}\n\n.orbit-details-overlay label,\n.orbit-password-overlay label {\n    color: "@
        + p.fg
        + ";\n}\n\n/* Glass Cards */\n.orbit-network-row,\n.orbit-device-row,\n.orbit-saved-network-row {\n    background-color: "@
        + p.card_bg
        + ";\n    border: 1px solid rgba(255, 255, 255, 0.05);\n    border-radius: 12px;\n    padding: 12px 14px;\n    margin: 6px 8px;\n    transition: background-color 0.25s cubic-bezier(0.4, 0, 0.2, 1), border-color 0.25s cubic-bezier(0.4, 0, 0.2, 1), box-shadow 0.25s cubic-bezier(0.4, 0, 0.2, 1);\n}\n\n.orbit-network-row:hover,\n.orbit-device-row:hover,\n.orbit-saved-network-row:hover {\n    background-color: "@
        + p.card_hover_bg
        + ";\n    background-image: none;\n    border-color: "@
        + p.accent
        + ";\n    box-shadow: 0 4px 12px rgba(0, 0, 0, 0.4);\n}\n\n/* Connected State */\n.orbit-network-row.connected,\n.orbit-device-row.connected,\n.orbit-saved-network-row.active {\n    background: linear-gradient(135deg, "@
        + p.separator
        + ", rgba(0,0,0,0.15));\n    border: 1px solid "@
        + p.accent
        + ";\n    box-shadow: 0 0 10px "@
        + p.separator
        + ";\n}\n\n/* Connected/Active Hover State */\n.orbit-network-row.connected:hover,\n.orbit-device-row.connected:hover,\n.orbit-saved-network-row.active:hover {\n    background: linear-gradient(135deg, "@
        + p.connected_hover_separator
        + ", rgba(0,0,0,0.1));\n    border-color: "@
        + p.accent
        + ";\n    box-shadow: 0 4px 12px rgba(0, 0, 0, 0.4), 0 0 12px "@
        + p.separator
        + ";\n}\n\n/* Keyboard Focus State */\n.orbit-network-row.focused,\n.orbit-device-row.focused,\n.orbit-saved-network-row.focused {\n    border-color: "@
        + p.accent
        + ";\n    box-shadow: 0 0 0 2px "@
        + p.separator
        + ";\n}\n\n/* Buttons */\n.orbit-button {\n    background-color: rgba(255, 255, 255, 0.08);\n    background-image: none;\n    color: "@
        + p.fg
        + ";\n    border: 1px solid rgba(255, 255, 255, 0.1);\n    border-radius: 9999px;\n    padding: 8px 18px;\n    font-size: 10px;\n    font-weight: 700;\n    box-shadow: none;\n    outline: none;\n    min-height: 0;\n    min-width: 0;\n    -gtk-icon-shadow: none;\n    text-shadow: none;\n    transition: background-color 0.2s ease, border-color 0.2s ease, color 0.2s ease, box-shadow 0.2s ease;\n}\n\n.orbit-button:hover {\n    background-color: "@
        + p.accent
        + ";\n    background-image: none;\n    border-color: "@
        + p.accent
        + ";\n    color: "@
        + p.accent_fg
        + ";\n    box-shadow: 0 0 12px rgba(0, 0, 0, 0.3);\n    padding: 8px 18px;\n    min-height: 0;\n    min-width: 0;\n    outline: none;\n}\n\n.orbit-button.primary {\n    background-color: "@
        + p.accent
        + ";\n    background-image: none;\n    color: "@
        + p.accent_fg
        + ";\n    box-shadow: 0 4px 12px "@
        + p.separator
        + ";\n    border: 1px solid transparent;\n}\n\n.orbit-button.primary label {\n    color: "@
        + p.accent_fg
        + ";\n}\n\n.orbit-button.primary:hover {\n    background-color: "@
        + p.accent_hover
        + ";\n    background-image: none;\n    color: "@
        + p.accent_fg
        + ";\n    box-shadow: 0 6px 16px "@
        + p.separator
        + ";\n    padding: 8px 18px;\n    min-height: 0;\n    min-width: 0;\n    outline: none;\n}\n\n.orbit-button.primary:hover label {\n    color: "@
        + p.accent_fg
        + ";\n}\n\n/* Destructive Buttons */\n.orbit-button.destructive {\n    background-color: "@
        + p.destructive
        + ";\n    background-image: none;\n    color: #ffffff;\n    border: 1px solid transparent;\n    box-shadow: 0 4px 12px "@
        + p.destructive_separator
        + ";\n}\n\n.orbit-button.destructive:hover {\n    background-color: "@
        + p.destructive_hover
        + ";\n    background-image: none;\n    color: #ffffff;\n    box-shadow: 0 6px 16px "@
        + p.destructive_separator
        + ";\n    padding: 8px 18px;\n    min-height: 0;\n    min-width: 0;\n    outline: none;\n}\n\n/* Section Headers */\n.orbit-section-header {\n    font-size: 10px;\n    text-transform: uppercase;\n    letter-spacing: 0.15em;\n    color: "@
        + p.gold
        + ";\n    font-weight: 800;\n    padding: 14px 12px;\n    margin-top: 12px;\n    margin-bottom: 8px;\n}\n\n/* VPN Dashboard */\n.orbit-vpn-dashboard {\n    padding: 4px 0;\n}\n\n/* Wired Overlay */\n.orbit-wired-overlay {\n    background-color: "@
        + p.opaque_bg
        + ";\n    border: 2px solid "@
        + p.accent
        + ";\n    border-radius: 16px;\n    box-shadow: 0 8px 32px rgba(0, 0, 0, 0.6);\n    color: "@
        + p.fg
        + ";\n    margin: 20px;\n    padding: 24px;\n}\n\n.orbit-wired-device-row {\n    background-color: "@
        + p.card_bg
        + ";\n    border: 1px solid rgba(255, 255, 255, 0.05);\n    border-radius: 12px;\n    padding: 12px 14px;\n    margin: 4px 0;\n}\n\n.orbit-wired-button {\n    color: "@
        + p.fg
        + ";\n    opacity: 0.6;\n    transition: opacity 0.2s ease, color 0.2s ease;\n}\n\n.orbit-wired-button:hover {\n    opacity: 1.0;\n    color: "@
        + p.accent
        + ";\n}\n\n/* Footer */\n.orbit-footer {\n    background-color: "@
        + p.section_bg
        + ";\n    border-top: 1px solid "@
        + p.separator
        + ";\n    border-radius: 0 0 16px 16px;\n    margin: 8px -8px -8px -8px;\n    padding: 24px 28px;\n}\n\n.orbit-ssid {\n    font-weight: 700;\n    font-size: 14px;\n    color: "@
        + p.fg
        + ";\n    padding: 4px 0;\n}\n\n.orbit-detail-label {\n    font-size: 10px;\n    color: "@
        + p.fg
        + ";\n    opacity: 0.7;\n}\n\n.orbit-detail-value {\n    font-size: 12px;\n    color: "@
        + p.fg
        + ";\n    font-weight: 600;\n}\n\n.orbit-icon-accent {\n    color: "@
        + p.accent
        + ";\n}\n\n.orbit-title {\n    font-size: 16px;\n    font-weight: 800;\n    color: "@
        + p.fg
        + ";\n}\n\n/* Inputs */\nentry, password-entry {\n    background-color: rgba(255, 255, 255, 0.05);\n    border: 1px solid rgba(255, 255, 255, 0.1);\n    color: "@
        + p.fg
        + ";\n    border-radius: 12px;\n    padding: 10px 14px;\n    min-height: 20px;\n}\n\npassword-entry > text {\n    margin-left: 8px;\n    margin-right: 8px;\n}\n\nentry:focus, password-entry:focus {\n    border-color: "@
        + p.accent
        + ";\n    box-shadow: 0 0 0 1px "@
        + p.accent
        + ";\n}\n\n/* Password dialog error */\n.orbit-password-error {\n    color: "@
        + p.destructive
        + ";\n    font-size: 12px;\n    font-weight: 500;\n}\n\n/* Connecting state */\n.orbit-button.connecting {\n    opacity: 0.7;\n}\n\n/* Row error state */\n.orbit-status-error {\n    color: "@
        + p.destructive
        + ";\n    font-size: 11px;\n}\n\n/* Placeholder text (scanning, empty states) */\n.orbit-placeholder {\n    color: "@
        + p.fg
        + ";\n    opacity: 0.5;\n    font-size: 13px;\n    font-style: italic;\n    padding: 32px 16px;\n}\n\n/* Status line (under device/network name) */\n.orbit-status {\n    font-size: 11px;\n    color: "@
        + p.fg
        + ";\n    opacity: 0.6;\n    padding: 2px 0;\n}\n\n.orbit-status-accent {\n    color: "@
        + p.accent
        + ";\n    opacity: 0.9;\n    font-weight: 600;\n}\n\n/* Signal/device type icon (disconnected state) */\n.orbit-signal-icon {\n    color: "@
        + p.fg
        + ";\n    opacity: 0.5;\n}\n\n/* Signal strength bars */\n.orbit-signal-bar-active {\n    background-color: "@
        + p.fg
        + ";\n    opacity: 0.7;\n    border-radius: 1px;\n}\n\n.orbit-signal-bar-active-accent {\n    background-color: "@
        + p.accent
        + ";\n    border-radius: 1px;\n}\n\n.orbit-signal-bar-inactive {\n    background-color: "@
        + p.fg
        + ";\n    opacity: 0.15;\n    border-radius: 1px;\n}\n\n.orbit-signal-bars-pad {\n    padding: 2px;\n}\n\n/* Icon container (connected state badge) */\n.orbit-icon-container {\n    background-color: "@
        + p.separator
        + ";\n    border-radius: 8px;\n    padding: 6px;\n}\n\n/* Logo container */\n.orbit-logo-container {\n    padding: 6px;\n}\n\n/* Power toggle switch */\n.orbit-toggle-switch {\n    background: rgba(255, 255, 255, 0.12) !important;\n    border: 1px solid rgba(255, 255, 255, 0.1) !important;\n    box-shadow: none !important;\n    border-radius: 9999px;\n    min-width: 44px;\n    min-height: 24px;\n}\n\n.orbit-toggle-switch slider {\n    background: #ffffff;\n    border-radius: 9999px;\n    box-shadow: 0 1px 3px rgba(0, 0, 0, 0.4);\n    min-width: 18px;\n    min-height: 18px;\n    margin: 3px;\n}\n\n.orbit-toggle-switch:checked {\n    background: "@
        + p.accent
        + " !important;\n    border-color: "@
        + p.accent
        + " !important;\n    box-shadow: none !important;\n}\n\n.orbit-toggle-switch:checked slider {\n    background: "@
        + p.accent_fg
        + " !important;\n}\n\n.orbit-battery-mini {\n    font-size: 10px;\n    font-weight: 700;\n    color: "@
        + p.fg
        + ";\n    opacity: 0.8;\n}\n\n.orbit-battery-mini.low {\n    color: "@
        + p.destructive
        + ";\n    opacity: 1.0;\n}\n\n.orbit-search-container {\n    background: rgba(255, 255, 255, 0.03);\n    border: 1px solid rgba(255, 255, 255, 0.05);\n    border-radius: 12px;\n    padding: 2px;\n}\n\n.orbit-search-entry {\n    background: transparent;\n    border: none;\n    box-shadow: none;\n    color: "@
        + p.fg
        + ";\n    font-size: 12px;\n}\n\n.orbit-search-entry > text {\n    caret-color: "@
        + p.accent
        + ";\n}\n\n.orbit-saved-list-container {\n    margin-top: 8px;\n    background: rgba(255, 255, 255, 0.02);\n    border-radius: 12px;\n}\n\n.orbit-dns-detail {\n    font-size: 10px;\n    color: "@
        + p.fg
        + ";\n    opacity: 0.75;\n    font-family: monospace;\n}\n\n.orbit-dns-header {\n    background-color: "@
        + p.card_bg
        + ";\n    border: 1px solid rgba(255, 255, 255, 0.05);\n    border-radius: 12px;\n    padding: 10px 14px;\n    transition: background-color 0.25s ease, border-color 0.25s ease;\n}\n\n.orbit-dns-header:hover {\n    background-color: "@
        + p.card_hover_bg
        + ";\n    border-color: "@
        + p.accent
        + ";\n}\n\n.orbit-dns-expand-icon {\n    color: "@
        + p.fg
        + ";\n    opacity: 0.4;\n    transition: opacity 0.2s ease;\n}\n"@
}

/// The style sheet for a colour set (see [`css_sheet`]).
pub fn generate_css(p: &CssPalette) -> (s: String)
    ensures
        s@ == css_sheet(p@),
{
    let mut s = String::new();
    push_str(&mut s, "\n/* ========================================\n   ORBIT DYNAMIC THEME\n   ======================================== */\n\n/* Main Panel */\n.orbit-panel {\n    background-color: ");
    assert(s@ =~= "\n/* ========================================\n   ORBIT DYNAMIC THEME\n   ======================================== */\n\n/* Main Panel */\n.orbit-panel {\n    background-color: "@);
    push_str(&mut s, p.panel_bg.as_str());
    push_str(&mut s, ";\n    background-image: linear-gradient(to bottom, rgba(255, 255, 255, 0.05), transparent);\n    border: 1px solid rgba(255, 255, 255, 0.15);\n    border-radius: 16px;\n    color: ");
    push_str(&mut s, p.fg.as_str());
    push_str(&mut s, ";\n    padding: 8px;\n    margin: 0;\n}\n\nwindow {\n    background: none;\n    background-color: transparent;\n    box-shadow: none;\n    border: none;\n    border-radius: 16px;\n}\n\n.background {\n    background-color: transparent;\n    background-image: none;\n    border-radius: 16px;\n}\n\n/* Header */\n.orbit-header {\n    background-color: ");
    push_str(&mut s, p.section_bg.as_str());
    push_str(&mut s, ";\n    background-image: linear-gradient(to bottom, rgba(255, 255, 255, 0.03), transparent);\n    border-bottom: 1px solid ");
    push_str(&mut s, p.separator.as_str());
    push_str(&mut s, ";\n    border-radius: 16px 16px 0 0;\n    margin: -8px -8px 8px -8px;\n    padding: 8px 8px 8px 8px;\n}\n\n/* Tabs */\n.orbit-tab-bar {\n    background-color: rgba(255, 255, 255, 0.05);\n    border-radius: 9999px;\n    padding: 4px;\n}\n\n.orbit-tab {\n    background: transparent;\n    background-image: none;\n    color: ");
    push_str(&mut s, p.fg.as_str());
    push_str(&mut s, ";\n    opacity: 0.6;\n    border: none;\n    box-shadow: none;\n    outline: none;\n    font-size: 11px;\n    font-weight: 600;\n    -gtk-icon-shadow: none;\n    text-shadow: none;\n    transition: background-color 0.2s ease, color 0.2s ease, opacity 0.2s ease, box-shadow 0.2s ease;\n    min-width: 80px;\n}\n\n.orbit-tab:hover {\n    opacity: 1.0;\n    color: ");
    push_str(&mut s, p.accent_fg.as_str());
    push_str(&mut s, ";\n    background-color: ");
    push_str(&mut s, p.accent.as_str());
    push_str(&mut s, ";\n    background-image: none;\n    border-radius: 9999px;\n    box-shadow: none;\n}\n\n.orbit-tab.active {\n    background-color: ");
    push_str(&mut s, p.accent.as_str());
    push_str(&mut s, ";\n    background-image: none;\n    border-radius: 9999px;\n    color: ");
    push_str(&mut s, p.accent_fg.as_str());
    push_str(&mut s, ";\n    opacity: 1.0;\n    box-shadow: 0 2px 8px rgba(0, 0, 0, 0.2);\n}\n\n/* Overlays - Opaque with padding */\n.orbit-details-overlay, \n.orbit-password-overlay, \n.orbit-error-overlay {\n    background-color: ");
    push_str(&mut s, p.opaque_bg.as_str());
    push_str(&mut s, ";\n    border: 2px solid ");
    push_str(&mut s, p.accent.as_str());
    push_str(&mut s, ";\n    border-radius: 16px;\n    box-shadow: 0 8px 32px rgba(0, 0, 0, 0.6);\n    color: ");
    push_str(&mut s, p.fg.as_str());
    push_str(&mut s, ";\n    margin: 20px;\n    padding: 24px;\n}\n\n.orbit-details-overlay label,\n.orbit-password-overlay label {\n    color: ");
    push_str(&mut s, p.fg.as_str());
    push_str(&mut s, ";\n}\n\n/* Glass Cards */\n.orbit-network-row,\n.orbit-device-row,\n.orbit-saved-network-row {\n    background-color: ");
    push_str(&mut s, p.card_bg.as_str());
    push_str(&mut s, ";\n    border: 1px solid rgba(255, 255, 255, 0.05);\n    border-radius: 12px;\n    padding: 12px 14px;\n    margin: 6px 8px;\n    transition: background-color 0.25s cubic-bezier(0.4, 0, 0.2, 1), border-color 0.25s cubic-bezier(0.4, 0, 0.2, 1), box-shadow 0.25s cubic-bezier(0.4, 0, 0.2, 1);\n}\n\n.orbit-network-row:hover,\n.orbit-device-row:hover,\n.orbit-saved-network-row:hover {\n    background-color: ");
    push_str(&mut s, p.card_hover_bg.as_str());
    push_str(&mut s, ";\n    background-image: none;\n    border-color: ");
    push_str(&mut s, p.accent.as_str());
    push_str(&mut s, ";\n    box-shadow: 0 4px 12px rgba(0, 0, 0, 0.4);\n}\n\n/* Connected State */\n.orbit-network-row.connected,\n.orbit-device-row.connected,\n.orbit-saved-network-row.active {\n    background: linear-gradient(135deg, ");
    push_str(&mut s, p.separator.as_str());
    push_str(&mut s, ", rgba(0,0,0,0.15));\n    border: 1px solid ");
    push_str(&mut s, p.accent.as_str());
    push_str(&mut s, ";\n    box-shadow: 0 0 10px ");
    push_str(&mut s, p.separator.as_str());
    push_str(&mut s, ";\n}\n\n/* Connected/Active Hover State */\n.orbit-network-row.connected:hover,\n.orbit-device-row.connected:hover,\n.orbit-saved-network-row.active:hover {\n    background: linear-gradient(135deg, ");
    push_str(&mut s, p.connected_hover_separator.as_str());
    push_str(&mut s, ", rgba(0,0,0,0.1));\n    border-color: ");
    push_str(&mut s, p.accent.as_str());
    push_str(&mut s, ";\n    box-shadow: 0 4px 12px rgba(0, 0, 0, 0.4), 0 0 12px ");
    push_str(&mut s, p.separator.as_str());
    push_str(&mut s, ";\n}\n\n/* Keyboard Focus State */\n.orbit-network-row.focused,\n.orbit-device-row.focused,\n.orbit-saved-network-row.focused {\n    border-color: ");
    push_str(&mut s, p.accent.as_str());
    push_str(&mut s, ";\n    box-shadow: 0 0 0 2px ");
    push_str(&mut s, p.separator.as_str());
    push_str(&mut s, ";\n}\n\n/* Buttons */\n.orbit-button {\n    background-color: rgba(255, 255, 255, 0.08);\n    background-image: none;\n    color: ");
    push_str(&mut s, p.fg.as_str());
    push_str(&mut s, ";\n    border: 1px solid rgba(255, 255, 255, 0.1);\n    border-radius: 9999px;\n    padding: 8px 18px;\n    font-size: 10px;\n    font-weight: 700;\n    box-shadow: none;\n    outline: none;\n    min-height: 0;\n    min-width: 0;\n    -gtk-icon-shadow: none;\n    text-shadow: none;\n    transition: background-color 0.2s ease, border-color 0.2s ease, color 0.2s ease, box-shadow 0.2s ease;\n}\n\n.orbit-button:hover {\n    background-color: ");
    push_str(&mut s, p.accent.as_str());
    push_str(&mut s, ";\n    background-image: none;\n    border-color: ");
    push_str(&mut s, p.accent.as_str());
    push_str(&mut s, ";\n    color: ");
    push_str(&mut s, p.accent_fg.as_str());
    push_str(&mut s, ";\n    box-shadow: 0 0 12px rgba(0, 0, 0, 0.3);\n    padding: 8px 18px;\n    min-height: 0;\n    min-width: 0;\n    outline: none;\n}\n\n.orbit-button.primary {\n    background-color: ");
    push_str(&mut s, p.accent.as_str());
    push_str(&mut s, ";\n    background-image: none;\n    color: ");
    push_str(&mut s, p.accent_fg.as_str());
    push_str(&mut s, ";\n    box-shadow: 0 4px 12px ");
    push_str(&mut s, p.separator.as_str());
    push_str(&mut s, ";\n    border: 1px solid transparent;\n}\n\n.orbit-button.primary label {\n    color: ");
    push_str(&mut s, p.accent_fg.as_str());
    push_str(&mut s, ";\n}\n\n.orbit-button.primary:hover {\n    background-color: ");
    push_str(&mut s, p.accent_hover.as_str());
    push_str(&mut s, ";\n    background-image: none;\n    color: ");
    push_str(&mut s, p.accent_fg.as_str());
    push_str(&mut s, ";\n    box-shadow: 0 6px 16px ");
    push_str(&mut s, p.separator.as_str());
    push_str(&mut s, ";\n    padding: 8px 18px;\n    min-height: 0;\n    min-width: 0;\n    outline: none;\n}\n\n.orbit-button.primary:hover label {\n    color: ");
    push_str(&mut s, p.accent_fg.as_str());
    push_str(&mut s, ";\n}\n\n/* Destructive Buttons */\n.orbit-button.destructive {\n    background-color: ");
    push_str(&mut s, p.destructive.as_str());
    push_str(&mut s, ";\n    background-image: none;\n    color: #ffffff;\n    border: 1px solid transparent;\n    box-shadow: 0 4px 12px ");
    push_str(&mut s, p.destructive_separator.as_str());
    push_str(&mut s, ";\n}\n\n.orbit-button.destructive:hover {\n    background-color: ");
    push_str(&mut s, p.destructive_hover.as_str());
    push_str(&mut s, ";\n    background-image: none;\n    color: #ffffff;\n    box-shadow: 0 6px 16px ");
    push_str(&mut s, p.destructive_separator.as_str());
    push_str(&mut s, ";\n    padding: 8px 18px;\n    min-height: 0;\n    min-width: 0;\n    outline: none;\n}\n\n/* Section Headers */\n.orbit-section-header {\n    font-size: 10px;\n    text-transform: uppercase;\n    letter-spacing: 0.15em;\n    color: ");
    push_str(&mut s, p.gold.as_str());
    push_str(&mut s, ";\n    font-weight: 800;\n    padding: 14px 12px;\n    margin-top: 12px;\n    margin-bottom: 8px;\n}\n\n/* VPN Dashboard */\n.orbit-vpn-dashboard {\n    padding: 4px 0;\n}\n\n/* Wired Overlay */\n.orbit-wired-overlay {\n    background-color: ");
    push_str(&mut s, p.opaque_bg.as_str());
    push_str(&mut s, ";\n    border: 2px solid ");
    push_str(&mut s, p.accent.as_str());
    push_str(&mut s, ";\n    border-radius: 16px;\n    box-shadow: 0 8px 32px rgba(0, 0, 0, 0.6);\n    color: ");
    push_str(&mut s, p.fg.as_str());
    push_str(&mut s, ";\n    margin: 20px;\n    padding: 24px;\n}\n\n.orbit-wired-device-row {\n    background-color: ");
    push_str(&mut s, p.card_bg.as_str());
    push_str(&mut s, ";\n    border: 1px solid rgba(255, 255, 255, 0.05);\n    border-radius: 12px;\n    padding: 12px 14px;\n    margin: 4px 0;\n}\n\n.orbit-wired-button {\n    color: ");
    push_str(&mut s, p.fg.as_str());
    push_str(&mut s, ";\n    opacity: 0.6;\n    transition: opacity 0.2s ease, color 0.2s ease;\n}\n\n.orbit-wired-button:hover {\n    opacity: 1.0;\n    color: ");
    push_str(&mut s, p.accent.as_str());
    push_str(&mut s, ";\n}\n\n/* Footer */\n.orbit-footer {\n    background-color: ");
    push_str(&mut s, p.section_bg.as_str());
    push_str(&mut s, ";\n    border-top: 1px solid ");
    push_str(&mut s, p.separator.as_str());
    push_str(&mut s, ";\n    border-radius: 0 0 16px 16px;\n    margin: 8px -8px -8px -8px;\n    padding: 24px 28px;\n}\n\n.orbit-ssid {\n    font-weight: 700;\n    font-size: 14px;\n    color: ");
    push_str(&mut s, p.fg.as_str());
    push_str(&mut s, ";\n    padding: 4px 0;\n}\n\n.orbit-detail-label {\n    font-size: 10px;\n    color: ");
    push_str(&mut s, p.fg.as_str());
    push_str(&mut s, ";\n    opacity: 0.7;\n}\n\n.orbit-detail-value {\n    font-size: 12px;\n    color: ");
    push_str(&mut s, p.fg.as_str());
    push_str(&mut s, ";\n    font-weight: 600;\n}\n\n.orbit-icon-accent {\n    color: ");
    push_str(&mut s, p.accent.as_str());
    push_str(&mut s, ";\n}\n\n.orbit-title {\n    font-size: 16px;\n    font-weight: 800;\n    color: ");
    push_str(&mut s, p.fg.as_str());
    push_str(&mut s, ";\n}\n\n/* Inputs */\nentry, password-entry {\n    background-color: rgba(255, 255, 255, 0.05);\n    border: 1px solid rgba(255, 255, 255, 0.1);\n    color: ");
    push_str(&mut s, p.fg.as_str());
    push_str(&mut s, ";\n    border-radius: 12px;\n    padding: 10px 14px;\n    min-height: 20px;\n}\n\npassword-entry > text {\n    margin-left: 8px;\n    margin-right: 8px;\n}\n\nentry:focus, password-entry:focus {\n    border-color: ");
    push_str(&mut s, p.accent.as_str());
    push_str(&mut s, ";\n    box-shadow: 0 0 0 1px ");
    push_str(&mut s, p.accent.as_str());
    push_str(&mut s, ";\n}\n\n/* Password dialog error */\n.orbit-password-error {\n    color: ");
    push_str(&mut s, p.destructive.as_str());
    push_str(&mut s, ";\n    font-size: 12px;\n    font-weight: 500;\n}\n\n/* Connecting state */\n.orbit-button.connecting {\n    opacity: 0.7;\n}\n\n/* Row error state */\n.orbit-status-error {\n    color: ");
    push_str(&mut s, p.destructive.as_str());
    push_str(&mut s, ";\n    font-size: 11px;\n}\n\n/* Placeholder text (scanning, empty states) */\n.orbit-placeholder {\n    color: ");
    push_str(&mut s, p.fg.as_str());
    push_str(&mut s, ";\n    opacity: 0.5;\n    font-size: 13px;\n    font-style: italic;\n    padding: 32px 16px;\n}\n\n/* Status line (under device/network name) */\n.orbit-status {\n    font-size: 11px;\n    color: ");
    push_str(&mut s, p.fg.as_str());
    push_str(&mut s, ";\n    opacity: 0.6;\n    padding: 2px 0;\n}\n\n.orbit-status-accent {\n    color: ");
    push_str(&mut s, p.accent.as_str());
    push_str(&mut s, ";\n    opacity: 0.9;\n    font-weight: 600;\n}\n\n/* Signal/device type icon (disconnected state) */\n.orbit-signal-icon {\n    color: ");
    push_str(&mut s, p.fg.as_str());
    push_str(&mut s, ";\n    opacity: 0.5;\n}\n\n/* Signal strength bars */\n.orbit-signal-bar-active {\n    background-color: ");
    push_str(&mut s, p.fg.as_str());
    push_str(&mut s, ";\n    opacity: 0.7;\n    border-radius: 1px;\n}\n\n.orbit-signal-bar-active-accent {\n    background-color: ");
    push_str(&mut s, p.accent.as_str());
    push_str(&mut s, ";\n    border-radius: 1px;\n}\n\n.orbit-signal-bar-inactive {\n    background-color: ");
    push_str(&mut s, p.fg.as_str());
    push_str(&mut s, ";\n    opacity: 0.15;\n    border-radius: 1px;\n}\n\n.orbit-signal-bars-pad {\n    padding: 2px;\n}\n\n/* Icon container (connected state badge) */\n.orbit-icon-container {\n    background-color: ");
    push_str(&mut s, p.separator.as_str());
    push_str(&mut s, ";\n    border-radius: 8px;\n    padding: 6px;\n}\n\n/* Logo container */\n.orbit-logo-container {\n    padding: 6px;\n}\n\n/* Power toggle switch */\n.orbit-toggle-switch {\n    background: rgba(255, 255, 255, 0.12) !important;\n    border: 1px solid rgba(255, 255, 255, 0.1) !important;\n    box-shadow: none !important;\n    border-radius: 9999px;\n    min-width: 44px;\n    min-height: 24px;\n}\n\n.orbit-toggle-switch slider {\n    background: #ffffff;\n    border-radius: 9999px;\n    box-shadow: 0 1px 3px rgba(0, 0, 0, 0.4);\n    min-width: 18px;\n    min-height: 18px;\n    margin: 3px;\n}\n\n.orbit-toggle-switch:checked {\n    background: ");
    push_str(&mut s, p.accent.as_str());
    push_str(&mut s, " !important;\n    border-color: ");
    push_str(&mut s, p.accent.as_str());
    push_str(&mut s, " !important;\n    box-shadow: none !important;\n}\n\n.orbit-toggle-switch:checked slider {\n    background: ");
    push_str(&mut s, p.accent_fg.as_str());
    push_str(&mut s, " !important;\n}\n\n.orbit-battery-mini {\n    font-size: 10px;\n    font-weight: 700;\n    color: ");
    push_str(&mut s, p.fg.as_str());
    push_str(&mut s, ";\n    opacity: 0.8;\n}\n\n.orbit-battery-mini.low {\n    color: ");
    push_str(&mut s, p.destructive.as_str());
    push_str(&mut s, ";\n    opacity: 1.0;\n}\n\n.orbit-search-container {\n    background: rgba(255, 255, 255, 0.03);\n    border: 1px solid rgba(255, 255, 255, 0.05);\n    border-radius: 12px;\n    padding: 2px;\n}\n\n.orbit-search-entry {\n    background: transparent;\n    border: none;\n    box-shadow: none;\n    color: ");
    push_str(&mut s, p.fg.as_str());
    push_str(&mut s, ";\n    font-size: 12px;\n}\n\n.orbit-search-entry > text {\n    caret-color: ");
    push_str(&mut s, p.accent.as_str());
    push_str(&mut s, ";\n}\n\n.orbit-saved-list-container {\n    margin-top: 8px;\n    background: rgba(255, 255, 255, 0.02);\n    border-radius: 12px;\n}\n\n.orbit-dns-detail {\n    font-size: 10px;\n    color: ");
    push_str(&mut s, p.fg.as_str());
    push_str(&mut s, ";\n    opacity: 0.75;\n    font-family: monospace;\n}\n\n.orbit-dns-header {\n    background-color: ");
    push_str(&mut s, p.card_bg.as_str());
    push_str(&mut s, ";\n    border: 1px solid rgba(255, 255, 255, 0.05);\n    border-radius: 12px;\n    padding: 10px 14px;\n    transition: background-color 0.25s ease, border-color 0.25s ease;\n}\n\n.orbit-dns-header:hover {\n    background-color: ");
    push_str(&mut s, p.card_hover_bg.as_str());
    push_str(&mut s, ";\n    border-color: ");
    push_str(&mut s, p.accent.as_str());
    push_str(&mut s, ";\n}\n\n.orbit-dns-expand-icon {\n    color: ");
    push_str(&mut s, p.fg.as_str());
    push_str(&mut s, ";\n    opacity: 0.4;\n    transition: opacity 0.2s ease;\n}\n");
    assert(s@ == css_sheet(p@));
    s
}

/// The text colour on the accent follows the accent (white on dark accents,
/// near-black on light ones) unless the theme file sets it, and then the file
/// wins.
pub proof fn lemma_accent_text_colour(o: ThemeOverrides)
    ensures
        o.accent_primary_foreground matches Some(f) ==> themed_colors(o).accent_primary_foreground
            == f@,
        o.accent_primary_foreground is None ==> (o.accent_primary matches Some(a) && themed_colors(
            o,
        ).accent_primary_foreground == (if is_dark(rgb_of(a@)) {
            "#ffffff"@
        } else {
            "#1a1a1a"@
        })) || o.accent_primary is None,
{
}

// ---------------------------------------------------------------------------
// Files
// ---------------------------------------------------------------------------

/// `<home>/.config/orbit/<file>`, joined as paths are: no separator is added
/// after an empty home or one that already ends with `/`.
pub open spec fn config_file(home: Seq<char>, file: Seq<char>) -> Seq<char> {
    if home.len() == 0 || home[home.len() - 1] == '/' {
        home + ".config/orbit/"@ + file
    } else {
        home + "/.config/orbit/"@ + file
    }
}

fn config_file_path(home: &str, file: &str) -> (p: String)
    ensures
        p@ == config_file(home@, file@),
{
    let n = home.unicode_len();
    let mut p = owned(home);
    if n == 0 || home.get_char(n - 1) == '/' {
        push_str(&mut p, ".config/orbit/");
    } else {
        push_str(&mut p, "/.config/orbit/");
    }
    push_str(&mut p, file);
    p
}

/// The theme file, under the home directory when it is known.
pub fn theme_path(home: &Option<String>) -> (p: Option<String>)
    ensures
        match home {
            Some(h) => p matches Some(x) && x@ == config_file(h@, "theme.toml"@),
            None => p is None,
        },
{
    match home {
        Some(h) => Some(config_file_path(h.as_str(), "theme.toml")),
        None => None,
    }
}

/// The user's style sheet, under the home directory when it is known.
pub fn style_css_path(home: &Option<String>) -> (p: Option<String>)
    ensures
        match home {
            Some(h) => p matches Some(x) && x@ == config_file(h@, "style.css"@),
            None => p is None,
        },
{
    match home {
        Some(h) => Some(config_file_path(h.as_str(), "style.css")),
        None => None,
    }
}

} // verus!
