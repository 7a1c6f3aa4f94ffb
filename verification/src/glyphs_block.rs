use vstd::prelude::*;
use crate::charset::{is_digit_key, is_lower_key, is_special_key, is_upper_key};
use crate::font::Font;
use crate::text_util::{literal_rows, owned_rows};

verus! {

/// The glyph of `a`.
pub const BLOCK_LOWER_A: [&'static str; 7] = [
    "      ",
    "      ",
    " ▀▀█▄ ",
    "▄█▀██ ",
    "▀█▄██ ",
    "      ",
    "      ",
];

/// The glyph of `b`.
pub const BLOCK_LOWER_B: [&'static str; 7] = [
    "      ",
    "      ",
    " ▄████ ",
    " ██ ██ ",
    " ▀████ ",
    "      ",
    "      ",
];

/// The glyph of `c`.
pub const BLOCK_LOWER_C: [&'static str; 7] = [
    "      ",
    "      ",
    " ▄████ ",
    " ██    ",
    " ▀████ ",
    "      ",
    "      ",
];

/// The glyph of `d`.
pub const BLOCK_LOWER_D: [&'static str; 7] = [
    "      ",
    "      ",
    " ▄█▀█▄ ",
    " ██▄█▀ ",
    " ▀█▄▄▄ ",
    "      ",
    "      ",
];

/// The glyph of `e`.
pub const BLOCK_LOWER_E: [&'static str; 7] = [
    "      ",
    "      ",
    " ▄███▄ ",
    " ▀████ ",
    " ▀███▀ ",
    "      ",
    "      ",
];

/// The glyph of `f`.
pub const BLOCK_LOWER_F: [&'static str; 7] = [
    "      ",
    "      ",
    " ▄███▄ ",
    " ████▄ ",
    " ████▀ ",
    "      ",
    "      ",
];

/// The glyph of `g`.
pub const BLOCK_LOWER_G: [&'static str; 7] = [
    "      ",
    "      ",
    " ▄█▀█▄ ",
    " ██▄█▀ ",
    " ▀█▄▄▄ ",
    "      ",
    "      ",
];

/// The glyph of `h`.
pub const BLOCK_LOWER_H: [&'static str; 7] = [
    "      ",
    "      ",
    " ████▄ ",
    " ██ ██ ",
    " ██ ██ ",
    "      ",
    "      ",
];

/// The glyph of `i`.
pub const BLOCK_LOWER_I: [&'static str; 7] = [
    "      ",
    "      ",
    " ██ ",
    " ██ ",
    " ██ ",
    "      ",
    "      ",
];

/// The glyph of `j`.
pub const BLOCK_LOWER_J: [&'static str; 7] = [
    "      ",
    "      ",
    "   ██ ",
    "   ██ ",
    " ▀██ ",
    "      ",
    "      ",
];

/// The glyph of `k`.
pub const BLOCK_LOWER_K: [&'static str; 7] = [
    "      ",
    "      ",
    " ██ ██ ",
    " ████ ",
    " ██ ██ ",
    "      ",
    "      ",
];

/// The glyph of `l`.
pub const BLOCK_LOWER_L: [&'static str; 7] = [
    "      ",
    "      ",
    " ██ ",
    " ██ ",
    " ▀██ ",
    "      ",
    "      ",
];

/// The glyph of `m`.
pub const BLOCK_LOWER_M: [&'static str; 7] = [
    "      ",
    "      ",
    " ████▄ ",
    " ██▄██ ",
    " ██ ██ ",
    "      ",
    "      ",
];

/// The glyph of `n`.
pub const BLOCK_LOWER_N: [&'static str; 7] = [
    "      ",
    "      ",
    " ████▄ ",
    " ██ ██ ",
    " ██ ██ ",
    "      ",
    "      ",
];

/// The glyph of `o`.
pub const BLOCK_LOWER_O: [&'static str; 7] = [
    "      ",
    "      ",
    " ▄████ ",
    " ██ ██ ",
    " ▀████ ",
    "      ",
    "      ",
];

/// The glyph of `p`.
pub const BLOCK_LOWER_P: [&'static str; 7] = [
    "      ",
    "      ",
    " ████▄ ",
    " ██ ██ ",
    " ████▀ ",
    "      ",
    "      ",
];

/// The glyph of `q`.
pub const BLOCK_LOWER_Q: [&'static str; 7] = [
    "      ",
    "      ",
    " ▄█▀█▄ ",
    " ██▄█▀ ",
    " ▀█▄▄▄ ",
    "      ",
    "      ",
];

/// The glyph of `r`.
pub const BLOCK_LOWER_R: [&'static str; 7] = [
    "      ",
    "      ",
    " ████▄ ",
    " ██    ",
    " ██    ",
    "      ",
    "      ",
];

/// The glyph of `s`.
pub const BLOCK_LOWER_S: [&'static str; 7] = [
    "      ",
    "      ",
    " ▄███▄ ",
    " ▀████ ",
    " ▀███▀ ",
    "      ",
    "      ",
];

/// The glyph of `t`.
pub const BLOCK_LOWER_T: [&'static str; 7] = [
    "      ",
    "      ",
    " ████▄ ",
    "   ██ ",
    "   ██ ",
    "      ",
    "      ",
];

/// The glyph of `u`.
pub const BLOCK_LOWER_U: [&'static str; 7] = [
    "      ",
    "      ",
    " ██ ██ ",
    " ██ ██ ",
    " ▀████ ",
    "      ",
    "      ",
];

/// The glyph of `v`.
pub const BLOCK_LOWER_V: [&'static str; 7] = [
    "      ",
    "      ",
    " ██ ██ ",
    " ██ ██ ",
    "  ▀██ ",
    "      ",
    "      ",
];

/// The glyph of `w`.
pub const BLOCK_LOWER_W: [&'static str; 7] = [
    "      ",
    "      ",
    " ██ ██ ",
    " ██▄██ ",
    " ▀████ ",
    "      ",
    "      ",
];

/// The glyph of `x`.
pub const BLOCK_LOWER_X: [&'static str; 7] = [
    "      ",
    "      ",
    " ██ ██ ",
    "  ██  ",
    " ██ ██ ",
    "      ",
    "      ",
];

/// The glyph of `y`.
pub const BLOCK_LOWER_Y: [&'static str; 7] = [
    "      ",
    "      ",
    " ██ ██ ",
    " ██ ██ ",
    "  ▀██ ",
    "      ",
    "      ",
];

/// The glyph of `z`.
pub const BLOCK_LOWER_Z: [&'static str; 7] = [
    "      ",
    "      ",
    " █████ ",
    "  ██  ",
    " █████ ",
    "      ",
    "      ",
];

/// The glyph of `A`.
pub const BLOCK_UPPER_A: [&'static str; 7] = [
    " ▄▄ ",
    " ██ ",
    " ████▄ ",
    " ██ ██ ",
    " ██ ██ ",
    "      ",
    "      ",
];

/// The glyph of `B`.
pub const BLOCK_UPPER_B: [&'static str; 7] = [
    " ████▄ ",
    " ██ ██ ",
    " ████▄ ",
    " ██ ██ ",
    " ████▀ ",
    "      ",
    "      ",
];

/// The glyph of `C`.
pub const BLOCK_UPPER_C: [&'static str; 7] = [
    " ▄████ ",
    " ██    ",
    " ██    ",
    " ██    ",
    " ▀████ ",
    "      ",
    "      ",
];

/// The glyph of `D`.
pub const BLOCK_UPPER_D: [&'static str; 7] = [
    " ████▄ ",
    " ██ ██ ",
    " ██ ██ ",
    " ██ ██ ",
    " ████▀ ",
    "      ",
    "      ",
];

/// The glyph of `E`.
pub const BLOCK_UPPER_E: [&'static str; 7] = [
    " █████ ",
    " ██    ",
    " ████  ",
    " ██    ",
    " █████ ",
    "      ",
    "      ",
];

/// The glyph of `F`.
pub const BLOCK_UPPER_F: [&'static str; 7] = [
    " █████ ",
    " ██    ",
    " ████  ",
    " ██    ",
    " ██    ",
    "      ",
    "      ",
];

/// The glyph of `G`.
pub const BLOCK_UPPER_G: [&'static str; 7] = [
    " ▄████ ",
    " ██    ",
    " ██ ██ ",
    " ██ ██ ",
    " ▀████ ",
    "      ",
    "      ",
];

/// The glyph of `H`.
pub const BLOCK_UPPER_H: [&'static str; 7] = [
    " ██ ██ ",
    " ██ ██ ",
    " █████ ",
    " ██ ██ ",
    " ██ ██ ",
    "      ",
    "      ",
];

/// The glyph of `I`.
pub const BLOCK_UPPER_I: [&'static str; 7] = [
    " ███ ",
    "  ██ ",
    "  ██ ",
    "  ██ ",
    " ███ ",
    "      ",
    "      ",
];

/// The glyph of `J`.
pub const BLOCK_UPPER_J: [&'static str; 7] = [
    "   ██ ",
    "   ██ ",
    "   ██ ",
    " ██ ██ ",
    " ▀███ ",
    "      ",
    "      ",
];

/// The glyph of `K`.
pub const BLOCK_UPPER_K: [&'static str; 7] = [
    " ██ ██ ",
    " ████ ",
    " ███  ",
    " ████ ",
    " ██ ██ ",
    "      ",
    "      ",
];

/// The glyph of `L`.
pub const BLOCK_UPPER_L: [&'static str; 7] = [
    " ██    ",
    " ██    ",
    " ██    ",
    " ██    ",
    " █████ ",
    "      ",
    "      ",
];

/// The glyph of `M`.
pub const BLOCK_UPPER_M: [&'static str; 7] = [
    " ██ ██ ",
    " ████▄ ",
    " ██▄██ ",
    " ██ ██ ",
    " ██ ██ ",
    "      ",
    "      ",
];

/// The glyph of `N`.
pub const BLOCK_UPPER_N: [&'static str; 7] = [
    " ██ ██ ",
    " ████ ",
    " ██▄██ ",
    " ██ ██ ",
    " ██ ██ ",
    "      ",
    "      ",
];

/// The glyph of `O`.
pub const BLOCK_UPPER_O: [&'static str; 7] = [
    " ▄████ ",
    " ██ ██ ",
    " ██ ██ ",
    " ██ ██ ",
    " ▀████ ",
    "      ",
    "      ",
];

/// The glyph of `P`.
pub const BLOCK_UPPER_P: [&'static str; 7] = [
    " ████▄ ",
    " ██ ██ ",
    " ████▄ ",
    " ██    ",
    " ██    ",
    "      ",
    "      ",
];

/// The glyph of `Q`.
pub const BLOCK_UPPER_Q: [&'static str; 7] = [
    " ▄████ ",
    " ██ ██ ",
    " ██ ██ ",
    " ██▄██ ",
    " ▀████▀ ",
    "      ",
    "      ",
];

/// The glyph of `R`.
pub const BLOCK_UPPER_R: [&'static str; 7] = [
    " ████▄ ",
    " ██ ██ ",
    " ████▄ ",
    " ████ ",
    " ██ ██ ",
    "      ",
    "      ",
];

/// The glyph of `S`.
pub const BLOCK_UPPER_S: [&'static str; 7] = [
    " ▄███▄ ",
    " ██    ",
    " ▀███▄ ",
    "    ██ ",
    " ▀███▀ ",
    "      ",
    "      ",
];

/// The glyph of `T`.
pub const BLOCK_UPPER_T: [&'static str; 7] = [
    " █████ ",
    "  ██  ",
    "  ██  ",
    "  ██  ",
    "  ██  ",
    "      ",
    "      ",
];

/// The glyph of `U`.
pub const BLOCK_UPPER_U: [&'static str; 7] = [
    " ██ ██ ",
    " ██ ██ ",
    " ██ ██ ",
    " ██ ██ ",
    " ▀████ ",
    "      ",
    "      ",
];

/// The glyph of `V`.
pub const BLOCK_UPPER_V: [&'static str; 7] = [
    " ██ ██ ",
    " ██ ██ ",
    " ██ ██ ",
    " ▀███ ",
    "  ██  ",
    "      ",
    "      ",
];

/// The glyph of `W`.
pub const BLOCK_UPPER_W: [&'static str; 7] = [
    " ██ ██ ",
    " ██ ██ ",
    " ██▄██ ",
    " ████▄ ",
    " ██ ██ ",
    "      ",
    "      ",
];

/// The glyph of `X`.
pub const BLOCK_UPPER_X: [&'static str; 7] = [
    " ██ ██ ",
    " ▀███ ",
    "  ██  ",
    " ████ ",
    " ██ ██ ",
    "      ",
    "      ",
];

/// The glyph of `Y`.
pub const BLOCK_UPPER_Y: [&'static str; 7] = [
    " ██ ██ ",
    " ██ ██ ",
    " ▀███ ",
    "  ██  ",
    "  ██  ",
    "      ",
    "      ",
];

/// The glyph of `Z`.
pub const BLOCK_UPPER_Z: [&'static str; 7] = [
    " █████ ",
    "   ██ ",
    "  ██  ",
    " ██   ",
    " █████ ",
    "      ",
    "      ",
];

/// The glyph of `1`.
pub const BLOCK_DIGIT_1: [&'static str; 7] = [
    "  ▄▄ ",
    " ▄███ ",
    "   ██ ",
    "   ██ ",
    " ▄████ ",
    "      ",
    "      ",
];

/// The glyph of `2`.
pub const BLOCK_DIGIT_2: [&'static str; 7] = [
    " ▄▄▄▄ ",
    "▄██▀▀██▄ ",
    "   ███ ",
    " ▄███▄ ",
    " ▀████▀ ",
    "      ",
    "      ",
];

/// The glyph of `3`.
pub const BLOCK_DIGIT_3: [&'static str; 7] = [
    " ▄▄▄▄ ",
    "▄██▀▀██▄ ",
    "   ▄██▀ ",
    "▄██▀▀██ ",
    " ▀▀▀▀ ",
    "      ",
    "      ",
];

/// The glyph of `4`.
pub const BLOCK_DIGIT_4: [&'static str; 7] = [
    " ▄▄  ▄▄ ",
    "▄███ ███▄ ",
    " ▀██████▀ ",
    "    ██ ",
    "    ██ ",
    "      ",
    "      ",
];

/// The glyph of `5`.
pub const BLOCK_DIGIT_5: [&'static str; 7] = [
    " ▄▄▄▄▄ ",
    "▄██▀▀▀▀ ",
    " ▀▀▀▀██▄ ",
    "▄██▀▀██ ",
    " ▀▀▀▀ ",
    "      ",
    "      ",
];

/// The glyph of `6`.
pub const BLOCK_DIGIT_6: [&'static str; 7] = [
    "  ▄▄▄ ",
    " ▄██▀▀ ",
    "▄██▀▀▀ ",
    "▄██▀▀██ ",
    " ▀▀▀▀ ",
    "      ",
    "      ",
];

/// The glyph of `7`.
pub const BLOCK_DIGIT_7: [&'static str; 7] = [
    "▄▄▄▄▄▄▄ ",
    "▀▀▀▀▀███ ",
    "    ▄██ ",
    "   ███ ",
    "  ███ ",
    "      ",
    "      ",
];

/// The glyph of `8`.
pub const BLOCK_DIGIT_8: [&'static str; 7] = [
    " ▄▄▄ ",
    "▄██▀▀██▄ ",
    " ▀▀▀▀ ",
    "▄██▀▀██▄ ",
    " ▀▀▀▀ ",
    "      ",
    "      ",
];

/// The glyph of `9`.
pub const BLOCK_DIGIT_9: [&'static str; 7] = [
    " ▄▄▄ ",
    "▄██▀▀██ ",
    " ▀▀▀▀██ ",
    "   ▄██▀ ",
    " ▀▀▀ ",
    "      ",
    "      ",
];

/// The glyph of `0`.
pub const BLOCK_DIGIT_0: [&'static str; 7] = [
    " ▄▄▄ ",
    "▄██▀▀██▄ ",
    "▄██  ███▄ ",
    "▄██▀▀██▄ ",
    " ▀▀▀▀ ",
    "      ",
    "      ",
];

/// The glyph of `=`.
pub const BLOCK_EQUALS: [&'static str; 7] = [
    "      ",
    "      ",
    " █████ ",
    "      ",
    " █████ ",
    "      ",
    "      ",
];

/// The glyph of `+`.
pub const BLOCK_PLUS: [&'static str; 7] = [
    "      ",
    "  ██  ",
    " █████ ",
    "  ██  ",
    "      ",
    "      ",
    "      ",
];

/// The glyph of `<`.
pub const BLOCK_LESS: [&'static str; 7] = [
    "      ",
    "   ██ ",
    "  ██  ",
    " ██   ",
    "  ██  ",
    "   ██ ",
    "      ",
];

/// The glyph of `>`.
pub const BLOCK_GREATER: [&'static str; 7] = [
    "      ",
    " ██   ",
    "  ██  ",
    "   ██ ",
    "  ██  ",
    " ██   ",
    "      ",
];

/// The glyph of `,`.
pub const BLOCK_COMMA: [&'static str; 7] = [
    "      ",
    "      ",
    "      ",
    "      ",
    "  ██  ",
    " ██   ",
    "      ",
];

/// The glyph of `.`.
pub const BLOCK_PERIOD: [&'static str; 7] = [
    "      ",
    "      ",
    "      ",
    "      ",
    "  ██  ",
    "      ",
    "      ",
];

/// The glyph of `/`.
pub const BLOCK_SLASH: [&'static str; 7] = [
    "      ",
    "    ██ ",
    "   ██ ",
    "  ██  ",
    " ██   ",
    "      ",
    "      ",
];

/// The glyph of `?`.
pub const BLOCK_QUESTION: [&'static str; 7] = [
    " ▄███▄ ",
    " ██ ██ ",
    "   ██ ",
    "  ██  ",
    "      ",
    "  ██  ",
    "      ",
];

/// The glyph of `;`.
pub const BLOCK_SEMICOLON: [&'static str; 7] = [
    "      ",
    "      ",
    "  ██  ",
    "      ",
    "  ██  ",
    " ██   ",
    "      ",
];

/// The glyph of `"`.
pub const BLOCK_QUOTE: [&'static str; 7] = [
    " ██ ██ ",
    " ██ ██ ",
    "      ",
    "      ",
    "      ",
    "      ",
    "      ",
];

/// The glyph of `:`.
pub const BLOCK_COLON: [&'static str; 7] = [
    "      ",
    "      ",
    "  ██  ",
    "      ",
    "  ██  ",
    "      ",
    "      ",
];

/// The glyph of the backtick.
pub const BLOCK_BACKTICK: [&'static str; 7] = [
    " ██   ",
    "  ██  ",
    "      ",
    "      ",
    "      ",
    "      ",
    "      ",
];

/// The glyph of `~`.
pub const BLOCK_TILDE: [&'static str; 7] = [
    "      ",
    "      ",
    " ██ ██ ",
    " ██▄██ ",
    "      ",
    "      ",
    "      ",
];

/// The glyph of `!`.
pub const BLOCK_EXCLAMATION: [&'static str; 7] = [
    "  ██  ",
    "  ██  ",
    "  ██  ",
    "      ",
    "  ██  ",
    "      ",
    "      ",
];

/// The glyph of `@`.
pub const BLOCK_AT: [&'static str; 7] = [
    " ▄███▄ ",
    " ██ ██ ",
    " ██▄██ ",
    " ██    ",
    " ▀███▀ ",
    "      ",
    "      ",
];

/// The glyph of `#`.
pub const BLOCK_HASH: [&'static str; 7] = [
    " ██ ██ ",
    " █████ ",
    " ██ ██ ",
    " █████ ",
    " ██ ██ ",
    "      ",
    "      ",
];

/// The glyph of `$`.
pub const BLOCK_DOLLAR: [&'static str; 7] = [
    "  ██  ",
    " ▄███▄ ",
    " ██    ",
    " ▀███▄ ",
    " ▄███▀ ",
    "  ██  ",
    "      ",
];

/// The glyph of `%`.
pub const BLOCK_PERCENT: [&'static str; 7] = [
    " ██   ██ ",
    "   ██ ",
    "  ██  ",
    " ██   ",
    " ██   ██ ",
    "      ",
    "      ",
];

/// The glyph of `^`.
pub const BLOCK_CARET: [&'static str; 7] = [
    "  ██  ",
    " ██ ██ ",
    "      ",
    "      ",
    "      ",
    "      ",
    "      ",
];

/// The glyph of `&`.
pub const BLOCK_AMPERSAND: [&'static str; 7] = [
    " ▄███ ",
    " ██   ",
    " ▄███ ",
    " ██ ██ ",
    " ▀███▀ ",
    "      ",
    "      ",
];

/// The glyph of `*`.
pub const BLOCK_ASTERISK: [&'static str; 7] = [
    " ██ ██ ",
    "  ██  ",
    " █████ ",
    "  ██  ",
    " ██ ██ ",
    "      ",
    "      ",
];

/// The glyph of `(`.
pub const BLOCK_PAREN_OPEN: [&'static str; 7] = [
    "   ██ ",
    "  ██  ",
    " ██   ",
    "  ██  ",
    "   ██ ",
    "      ",
    "      ",
];

/// The glyph of `)`.
pub const BLOCK_PAREN_CLOSE: [&'static str; 7] = [
    " ██   ",
    "  ██  ",
    "   ██ ",
    "  ██  ",
    " ██   ",
    "      ",
    "      ",
];

/// The glyph of `-`.
pub const BLOCK_HYPHEN: [&'static str; 7] = [
    "      ",
    "      ",
    " █████ ",
    "      ",
    "      ",
    "      ",
    "      ",
];

/// The glyph of `_`.
pub const BLOCK_UNDERSCORE: [&'static str; 7] = [
    "      ",
    "      ",
    "      ",
    "      ",
    " █████ ",
    "      ",
    "      ",
];

/// The rows of the glyph that the block font stores under `key`; no rows for a key
/// that it has no glyph for.
pub open spec fn block_glyph(key: u32) -> Seq<Seq<char>> {
    if key == 0x61 {
        literal_rows(BLOCK_LOWER_A@)
    } else if key == 0x62 {
        literal_rows(BLOCK_LOWER_B@)
    } else if key == 0x63 {
        literal_rows(BLOCK_LOWER_C@)
    } else if key == 0x64 {
        literal_rows(BLOCK_LOWER_D@)
    } else if key == 0x65 {
        literal_rows(BLOCK_LOWER_E@)
    } else if key == 0x66 {
        literal_rows(BLOCK_LOWER_F@)
    } else if key == 0x67 {
        literal_rows(BLOCK_LOWER_G@)
    } else if key == 0x68 {
        literal_rows(BLOCK_LOWER_H@)
    } else if key == 0x69 {
        literal_rows(BLOCK_LOWER_I@)
    } else if key == 0x6a {
        literal_rows(BLOCK_LOWER_J@)
    } else if key == 0x6b {
        literal_rows(BLOCK_LOWER_K@)
    } else if key == 0x6c {
        literal_rows(BLOCK_LOWER_L@)
    } else if key == 0x6d {
        literal_rows(BLOCK_LOWER_M@)
    } else if key == 0x6e {
        literal_rows(BLOCK_LOWER_N@)
    } else if key == 0x6f {
        literal_rows(BLOCK_LOWER_O@)
    } else if key == 0x70 {
        literal_rows(BLOCK_LOWER_P@)
    } else if key == 0x71 {
        literal_rows(BLOCK_LOWER_Q@)
    } else if key == 0x72 {
        literal_rows(BLOCK_LOWER_R@)
    } else if key == 0x73 {
        literal_rows(BLOCK_LOWER_S@)
    } else if key == 0x74 {
        literal_rows(BLOCK_LOWER_T@)
    } else if key == 0x75 {
        literal_rows(BLOCK_LOWER_U@)
    } else if key == 0x76 {
        literal_rows(BLOCK_LOWER_V@)
    } else if key == 0x77 {
        literal_rows(BLOCK_LOWER_W@)
    } else if key == 0x78 {
        literal_rows(BLOCK_LOWER_X@)
    } else if key == 0x79 {
        literal_rows(BLOCK_LOWER_Y@)
    } else if key == 0x7a {
        literal_rows(BLOCK_LOWER_Z@)
    } else if key == 0x41 {
        literal_rows(BLOCK_UPPER_A@)
    } else if key == 0x42 {
        literal_rows(BLOCK_UPPER_B@)
    } else if key == 0x43 {
        literal_rows(BLOCK_UPPER_C@)
    } else if key == 0x44 {
        literal_rows(BLOCK_UPPER_D@)
    } else if key == 0x45 {
        literal_rows(BLOCK_UPPER_E@)
    } else if key == 0x46 {
        literal_rows(BLOCK_UPPER_F@)
    } else if key == 0x47 {
        literal_rows(BLOCK_UPPER_G@)
    } else if key == 0x48 {
        literal_rows(BLOCK_UPPER_H@)
    } else if key == 0x49 {
        literal_rows(BLOCK_UPPER_I@)
    } else if key == 0x4a {
        literal_rows(BLOCK_UPPER_J@)
    } else if key == 0x4b {
        literal_rows(BLOCK_UPPER_K@)
    } else if key == 0x4c {
        literal_rows(BLOCK_UPPER_L@)
    } else if key == 0x4d {
        literal_rows(BLOCK_UPPER_M@)
    } else if key == 0x4e {
        literal_rows(BLOCK_UPPER_N@)
    } else if key == 0x4f {
        literal_rows(BLOCK_UPPER_O@)
    } else if key == 0x50 {
        literal_rows(BLOCK_UPPER_P@)
    } else if key == 0x51 {
        literal_rows(BLOCK_UPPER_Q@)
    } else if key == 0x52 {
        literal_rows(BLOCK_UPPER_R@)
    } else if key == 0x53 {
        literal_rows(BLOCK_UPPER_S@)
    } else if key == 0x54 {
        literal_rows(BLOCK_UPPER_T@)
    } else if key == 0x55 {
        literal_rows(BLOCK_UPPER_U@)
    } else if key == 0x56 {
        literal_rows(BLOCK_UPPER_V@)
    } else if key == 0x57 {
        literal_rows(BLOCK_UPPER_W@)
    } else if key == 0x58 {
        literal_rows(BLOCK_UPPER_X@)
    } else if key == 0x59 {
        literal_rows(BLOCK_UPPER_Y@)
    } else if key == 0x5a {
        literal_rows(BLOCK_UPPER_Z@)
    } else if key == 0x31 {
        literal_rows(BLOCK_DIGIT_1@)
    } else if key == 0x32 {
        literal_rows(BLOCK_DIGIT_2@)
    } else if key == 0x33 {
        literal_rows(BLOCK_DIGIT_3@)
    } else if key == 0x34 {
        literal_rows(BLOCK_DIGIT_4@)
    } else if key == 0x35 {
        literal_rows(BLOCK_DIGIT_5@)
    } else if key == 0x36 {
        literal_rows(BLOCK_DIGIT_6@)
    } else if key == 0x37 {
        literal_rows(BLOCK_DIGIT_7@)
    } else if key == 0x38 {
        literal_rows(BLOCK_DIGIT_8@)
    } else if key == 0x39 {
        literal_rows(BLOCK_DIGIT_9@)
    } else if key == 0x30 {
        literal_rows(BLOCK_DIGIT_0@)
    } else if key == 0x3d {
        literal_rows(BLOCK_EQUALS@)
    } else if key == 0x2b {
        literal_rows(BLOCK_PLUS@)
    } else if key == 0x3c {
        literal_rows(BLOCK_LESS@)
    } else if key == 0x3e {
        literal_rows(BLOCK_GREATER@)
    } else if key == 0x2c {
        literal_rows(BLOCK_COMMA@)
    } else if key == 0x2e {
        literal_rows(BLOCK_PERIOD@)
    } else if key == 0x2f {
        literal_rows(BLOCK_SLASH@)
    } else if key == 0x3f {
        literal_rows(BLOCK_QUESTION@)
    } else if key == 0x3b {
        literal_rows(BLOCK_SEMICOLON@)
    } else if key == 0x22 {
        literal_rows(BLOCK_QUOTE@)
    } else if key == 0x3a {
        literal_rows(BLOCK_COLON@)
    } else if key == 0x60 {
        literal_rows(BLOCK_BACKTICK@)
    } else if key == 0x7e {
        literal_rows(BLOCK_TILDE@)
    } else if key == 0x21 {
        literal_rows(BLOCK_EXCLAMATION@)
    } else if key == 0x40 {
        literal_rows(BLOCK_AT@)
    } else if key == 0x23 {
        literal_rows(BLOCK_HASH@)
    } else if key == 0x24 {
        literal_rows(BLOCK_DOLLAR@)
    } else if key == 0x25 {
        literal_rows(BLOCK_PERCENT@)
    } else if key == 0x5e {
        literal_rows(BLOCK_CARET@)
    } else if key == 0x26 {
        literal_rows(BLOCK_AMPERSAND@)
    } else if key == 0x2a {
        literal_rows(BLOCK_ASTERISK@)
    } else if key == 0x28 {
        literal_rows(BLOCK_PAREN_OPEN@)
    } else if key == 0x29 {
        literal_rows(BLOCK_PAREN_CLOSE@)
    } else if key == 0x2d {
        literal_rows(BLOCK_HYPHEN@)
    } else if key == 0x5f {
        literal_rows(BLOCK_UNDERSCORE@)
    } else {
        Seq::empty()
    }
}

/// Adds the glyphs of the lower-case letters.
pub(crate) fn add_lowercase_glyphs(font: &mut Font)
    ensures
        final(font).width == old(font).width,
        final(font).height == old(font).height,
        final(font).spacing == old(font).spacing,
        final(font)@ == old(font)@.with_glyphs(|k: u32| is_lower_key(k), |k: u32| block_glyph(k)),
{
    font.add_glyph('a', owned_rows(&BLOCK_LOWER_A));
    font.add_glyph('b', owned_rows(&BLOCK_LOWER_B));
    font.add_glyph('c', owned_rows(&BLOCK_LOWER_C));
    font.add_glyph('d', owned_rows(&BLOCK_LOWER_D));
    font.add_glyph('e', owned_rows(&BLOCK_LOWER_E));
    font.add_glyph('f', owned_rows(&BLOCK_LOWER_F));
    font.add_glyph('g', owned_rows(&BLOCK_LOWER_G));
    font.add_glyph('h', owned_rows(&BLOCK_LOWER_H));
    font.add_glyph('i', owned_rows(&BLOCK_LOWER_I));
    font.add_glyph('j', owned_rows(&BLOCK_LOWER_J));
    font.add_glyph('k', owned_rows(&BLOCK_LOWER_K));
    font.add_glyph('l', owned_rows(&BLOCK_LOWER_L));
    font.add_glyph('m', owned_rows(&BLOCK_LOWER_M));
    font.add_glyph('n', owned_rows(&BLOCK_LOWER_N));
    font.add_glyph('o', owned_rows(&BLOCK_LOWER_O));
    font.add_glyph('p', owned_rows(&BLOCK_LOWER_P));
    font.add_glyph('q', owned_rows(&BLOCK_LOWER_Q));
    font.add_glyph('r', owned_rows(&BLOCK_LOWER_R));
    font.add_glyph('s', owned_rows(&BLOCK_LOWER_S));
    font.add_glyph('t', owned_rows(&BLOCK_LOWER_T));
    font.add_glyph('u', owned_rows(&BLOCK_LOWER_U));
    font.add_glyph('v', owned_rows(&BLOCK_LOWER_V));
    font.add_glyph('w', owned_rows(&BLOCK_LOWER_W));
    font.add_glyph('x', owned_rows(&BLOCK_LOWER_X));
    font.add_glyph('y', owned_rows(&BLOCK_LOWER_Y));
    font.add_glyph('z', owned_rows(&BLOCK_LOWER_Z));
    assert(font@.glyphs =~= old(font)@.with_glyphs(
        |k: u32| is_lower_key(k),
        |k: u32| block_glyph(k),
    ).glyphs);
}

/// Adds the glyphs of the upper-case letters.
pub(crate) fn add_uppercase_glyphs(font: &mut Font)
    ensures
        final(font).width == old(font).width,
        final(font).height == old(font).height,
        final(font).spacing == old(font).spacing,
        final(font)@ == old(font)@.with_glyphs(|k: u32| is_upper_key(k), |k: u32| block_glyph(k)),
{
    font.add_glyph('A', owned_rows(&BLOCK_UPPER_A));
    font.add_glyph('B', owned_rows(&BLOCK_UPPER_B));
    font.add_glyph('C', owned_rows(&BLOCK_UPPER_C));
    font.add_glyph('D', owned_rows(&BLOCK_UPPER_D));
    font.add_glyph('E', owned_rows(&BLOCK_UPPER_E));
    font.add_glyph('F', owned_rows(&BLOCK_UPPER_F));
    font.add_glyph('G', owned_rows(&BLOCK_UPPER_G));
    font.add_glyph('H', owned_rows(&BLOCK_UPPER_H));
    font.add_glyph('I', owned_rows(&BLOCK_UPPER_I));
    font.add_glyph('J', owned_rows(&BLOCK_UPPER_J));
    font.add_glyph('K', owned_rows(&BLOCK_UPPER_K));
    font.add_glyph('L', owned_rows(&BLOCK_UPPER_L));
    font.add_glyph('M', owned_rows(&BLOCK_UPPER_M));
    font.add_glyph('N', owned_rows(&BLOCK_UPPER_N));
    font.add_glyph('O', owned_rows(&BLOCK_UPPER_O));
    font.add_glyph('P', owned_rows(&BLOCK_UPPER_P));
    font.add_glyph('Q', owned_rows(&BLOCK_UPPER_Q));
    font.add_glyph('R', owned_rows(&BLOCK_UPPER_R));
    font.add_glyph('S', owned_rows(&BLOCK_UPPER_S));
    font.add_glyph('T', owned_rows(&BLOCK_UPPER_T));
    font.add_glyph('U', owned_rows(&BLOCK_UPPER_U));
    font.add_glyph('V', owned_rows(&BLOCK_UPPER_V));
    font.add_glyph('W', owned_rows(&BLOCK_UPPER_W));
    font.add_glyph('X', owned_rows(&BLOCK_UPPER_X));
    font.add_glyph('Y', owned_rows(&BLOCK_UPPER_Y));
    font.add_glyph('Z', owned_rows(&BLOCK_UPPER_Z));
    assert(font@.glyphs =~= old(font)@.with_glyphs(
        |k: u32| is_upper_key(k),
        |k: u32| block_glyph(k),
    ).glyphs);
}

/// Adds the glyphs of the digits.
pub(crate) fn add_number_glyphs(font: &mut Font)
    ensures
        final(font).width == old(font).width,
        final(font).height == old(font).height,
        final(font).spacing == old(font).spacing,
        final(font)@ == old(font)@.with_glyphs(|k: u32| is_digit_key(k), |k: u32| block_glyph(k)),
{
    font.add_glyph('1', owned_rows(&BLOCK_DIGIT_1));
    font.add_glyph('2', owned_rows(&BLOCK_DIGIT_2));
    font.add_glyph('3', owned_rows(&BLOCK_DIGIT_3));
    font.add_glyph('4', owned_rows(&BLOCK_DIGIT_4));
    font.add_glyph('5', owned_rows(&BLOCK_DIGIT_5));
    font.add_glyph('6', owned_rows(&BLOCK_DIGIT_6));
    font.add_glyph('7', owned_rows(&BLOCK_DIGIT_7));
    font.add_glyph('8', owned_rows(&BLOCK_DIGIT_8));
    font.add_glyph('9', owned_rows(&BLOCK_DIGIT_9));
    font.add_glyph('0', owned_rows(&BLOCK_DIGIT_0));
    assert(font@.glyphs =~= old(font)@.with_glyphs(
        |k: u32| is_digit_key(k),
        |k: u32| block_glyph(k),
    ).glyphs);
}

/// Adds the glyphs of the punctuation marks and symbols.
pub(crate) fn add_special_glyphs(font: &mut Font)
    ensures
        final(font).width == old(font).width,
        final(font).height == old(font).height,
        final(font).spacing == old(font).spacing,
        final(font)@ == old(font)@.with_glyphs(|k: u32| is_special_key(k), |k: u32| block_glyph(k)),
{
    font.add_glyph('=', owned_rows(&BLOCK_EQUALS));
    font.add_glyph('+', owned_rows(&BLOCK_PLUS));
    font.add_glyph('<', owned_rows(&BLOCK_LESS));
    font.add_glyph('>', owned_rows(&BLOCK_GREATER));
    font.add_glyph(',', owned_rows(&BLOCK_COMMA));
    font.add_glyph('.', owned_rows(&BLOCK_PERIOD));
    font.add_glyph('/', owned_rows(&BLOCK_SLASH));
    font.add_glyph('?', owned_rows(&BLOCK_QUESTION));
    font.add_glyph(';', owned_rows(&BLOCK_SEMICOLON));
    font.add_glyph('"', owned_rows(&BLOCK_QUOTE));
    font.add_glyph(':', owned_rows(&BLOCK_COLON));
    font.add_glyph('`', owned_rows(&BLOCK_BACKTICK));
    font.add_glyph('~', owned_rows(&BLOCK_TILDE));
    font.add_glyph('!', owned_rows(&BLOCK_EXCLAMATION));
    font.add_glyph('@', owned_rows(&BLOCK_AT));
    font.add_glyph('#', owned_rows(&BLOCK_HASH));
    font.add_glyph('$', owned_rows(&BLOCK_DOLLAR));
    font.add_glyph('%', owned_rows(&BLOCK_PERCENT));
    font.add_glyph('^', owned_rows(&BLOCK_CARET));
    font.add_glyph('&', owned_rows(&BLOCK_AMPERSAND));
    font.add_glyph('*', owned_rows(&BLOCK_ASTERISK));
    font.add_glyph('(', owned_rows(&BLOCK_PAREN_OPEN));
    font.add_glyph(')', owned_rows(&BLOCK_PAREN_CLOSE));
    font.add_glyph('-', owned_rows(&BLOCK_HYPHEN));
    font.add_glyph('_', owned_rows(&BLOCK_UNDERSCORE));
    assert(font@.glyphs =~= old(font)@.with_glyphs(
        |k: u32| is_special_key(k),
        |k: u32| block_glyph(k),
    ).glyphs);
}

} // verus!
