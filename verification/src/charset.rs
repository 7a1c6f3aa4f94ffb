use vstd::prelude::*;

verus! {

/// Key of a lower-case letter `a` to `z`.
pub open spec fn is_lower_key(k: u32) -> bool {
    0x61 <= k <= 0x7a
}

/// Key of an upper-case letter `A` to `Z`.
pub open spec fn is_upper_key(k: u32) -> bool {
    0x41 <= k <= 0x5a
}

/// Key of a digit `0` to `9`.
pub open spec fn is_digit_key(k: u32) -> bool {
    0x30 <= k <= 0x39
}

/// Key of a lower-case letter other than `x`.
pub open spec fn is_mini_lower_key(k: u32) -> bool {
    is_lower_key(k) && k != 0x78
}

/// Key of an upper-case letter other than `X`.
pub open spec fn is_mini_upper_key(k: u32) -> bool {
    is_upper_key(k) && k != 0x58
}

/// Key of one of the punctuation marks and symbols that the built-in fonts draw:
/// `! " # $ % & ( ) * + , - . /`, `: ; < = > ? @`, `^ _` and the backtick, and `~`.
pub open spec fn is_special_key(k: u32) -> bool {
    ||| 0x21 <= k <= 0x26
    ||| 0x28 <= k <= 0x2f
    ||| 0x3a <= k <= 0x40
    ||| 0x5e <= k <= 0x60
    ||| k == 0x7e
}

/// Key of a character that the block font and the compact font draw.
pub open spec fn is_builtin_key(k: u32) -> bool {
    is_lower_key(k) || is_upper_key(k) || is_digit_key(k) || is_special_key(k)
}

/// Key of a character that the mini font draws.
pub open spec fn is_mini_key(k: u32) -> bool {
    is_mini_lower_key(k) || is_mini_upper_key(k) || is_digit_key(k) || is_special_key(k)
}

} // verus!
