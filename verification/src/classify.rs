//! The classifier: from a raw virtual-key code to the key it stands for.
//!
//! A raw code is the platform's 16-bit identifier of one key-down event. It
//! has no structure of its own; what it means is the table `key_of`.

use vstd::prelude::*;
use crate::key::Key;

verus! {

/// The key of a code that stands for one fixed key, `None` for any other code.
///
/// `0x07` and `0x03` are codes that the platform itself never sends: they are
/// reserved here for Shift+Tab and for the null byte. A raw code carries no
/// modifier state, so Alt and Ctrl come with the null character as companion.
pub open spec fn fixed_key(code: u16) -> Option<Key> {
    if code == 0x08 {
        Some(Key::Backspace)
    } else if code == 0x25 {
        Some(Key::Left)
    } else if code == 0x27 {
        Some(Key::Right)
    } else if code == 0x26 {
        Some(Key::Up)
    } else if code == 0x28 {
        Some(Key::Down)
    } else if code == 0x24 {
        Some(Key::Home)
    } else if code == 0x23 {
        Some(Key::End)
    } else if code == 0x21 {
        Some(Key::PageUp)
    } else if code == 0x22 {
        Some(Key::PageDown)
    } else if code == 0x07 {
        Some(Key::BackTab)
    } else if code == 0x2E {
        Some(Key::Delete)
    } else if code == 0x2D {
        Some(Key::Insert)
    } else if code == 0x12 {
        Some(Key::Alt('\0'))
    } else if code == 0x11 {
        Some(Key::Ctrl('\0'))
    } else if code == 0x03 {
        Some(Key::Null)
    } else if code == 0x1B {
        Some(Key::Esc)
    } else {
        None
    }
}

/// The codes of the function keys.
pub open spec fn is_function_code(code: u16) -> bool {
    0x70 <= code <= 0x87
}

/// The code of the space bar.
pub open spec fn is_space_code(code: u16) -> bool {
    code == 0x20
}

/// The codes of the digits in the top row.
pub open spec fn is_digit_code(code: u16) -> bool {
    0x30 <= code <= 0x39
}

/// The codes of the digits on the numeric keypad.
pub open spec fn is_keypad_code(code: u16) -> bool {
    0x60 <= code <= 0x69
}

/// The codes of the letters.
pub open spec fn is_letter_code(code: u16) -> bool {
    0x41 <= code <= 0x5A
}

/// The codes that stand for a key. Every other code is unrecognised.
pub open spec fn is_listed(code: u16) -> bool {
    ||| fixed_key(code) is Some
    ||| is_function_code(code)
    ||| is_space_code(code)
    ||| is_digit_code(code)
    ||| is_keypad_code(code)
    ||| is_letter_code(code)
}

/// The key that a raw code stands for, `None` where it stands for none.
///
/// - A function code gives `F` with the code's distance from `0x70`.
/// - Space and the row digits give the character with the code's own number.
/// - A keypad digit gives the character `0x30` below its code, the same
///   character as the row digit.
/// - A letter code gives the lower-case letter, `0x20` above its code: the
///   code says nothing of Shift.
pub open spec fn key_of(code: u16) -> Option<Key> {
    if fixed_key(code) is Some {
        fixed_key(code)
    } else if is_function_code(code) {
        Some(Key::F((code - 0x70) as u8))
    } else if is_space_code(code) || is_digit_code(code) {
        Some(Key::Char(code as char))
    } else if is_keypad_code(code) {
        Some(Key::Char((code - 0x30) as char))
    } else if is_letter_code(code) {
        Some(Key::Char((code + 0x20) as char))
    } else {
        None
    }
}

/// What classifying `code` returns: its key, or the one failure there is.
pub open spec fn classified(code: u16) -> Result<Key, ()> {
    match key_of(code) {
        Some(key) => Ok(key),
        None => Err(()),
    }
}

/// Classifies one raw code.
///
/// Returns the key that `key_of` gives for `vk`, and fails on exactly the
/// codes that are not listed.
pub fn vk_to_key(vk: u16) -> (key: Result<Key, ()>)
    ensures
        key == classified(vk),
        key is Ok <==> is_listed(vk),
{
    match vk {
        0x08 => Ok(Key::Backspace),
        0x25 => Ok(Key::Left),
        0x27 => Ok(Key::Right),
        0x26 => Ok(Key::Up),
        0x28 => Ok(Key::Down),
        0x24 => Ok(Key::Home),
        0x23 => Ok(Key::End),
        0x21 => Ok(Key::PageUp),
        0x22 => Ok(Key::PageDown),
        0x07 => Ok(Key::BackTab),
        0x2E => Ok(Key::Delete),
        0x2D => Ok(Key::Insert),
        0x70..=0x87 => Ok(Key::F((vk - 0x70) as u8)),
        0x20 | 0x30..=0x39 => Ok(Key::Char((vk as u8) as char)),
        0x60..=0x69 => Ok(Key::Char(((vk - 0x30) as u8) as char)),
        0x41..=0x5A => {
            assert(vk | 32 == vk + 0x20) by (bit_vector)
                requires
                    0x41 <= vk <= 0x5A,
            ;
            Ok(Key::Char(((vk | 32) as u8) as char))
        },
        0x12 => Ok(Key::Alt('\0')),
        0x11 => Ok(Key::Ctrl('\0')),
        0x03 => Ok(Key::Null),
        0x1B => Ok(Key::Esc),
        _ => Err(()),
    }
}

/// A fixed key has one code only: whatever classifies to the key of a fixed
/// code is that code.
pub proof fn lemma_fixed_key_has_one_code(code: u16, other: u16)
    requires
        fixed_key(code) is Some,
    ensures
        key_of(code) == fixed_key(code),
        key_of(other) == key_of(code) ==> other == code,
{
}

/// Two different codes give the same key only where one is a digit of the top
/// row and the other the same digit on the keypad.
pub proof fn lemma_codes_of_one_key(code: u16, other: u16)
    requires
        key_of(code) is Some,
        key_of(other) == key_of(code),
        other != code,
    ensures
        (is_digit_code(code) && other == code + 0x30) || (is_digit_code(other) && code == other
            + 0x30),
{
}

/// A function code gives `F` with its distance from `0x70`, so the indices run
/// from 0 to 23 and grow with the code.
pub proof fn lemma_function_keys_increase(low: u16, high: u16)
    requires
        is_function_code(low),
        is_function_code(high),
        low <= high,
    ensures
        key_of(low) matches Some(Key::F(i)) && key_of(high) matches Some(Key::F(j)) && i == low
            - 0x70 && j == high - 0x70 && i <= j <= 23 && (low < high ==> i < j),
{
}

/// A letter code gives a lower-case letter: the one `0x20` above the code,
/// which is the code's own letter in lower case.
pub proof fn lemma_letters_are_lower_case(code: u16)
    requires
        is_letter_code(code),
    ensures
        key_of(code) matches Some(Key::Char(c)) && 'a' <= c <= 'z' && c as int == code + 0x20,
{
}

/// Space and the row digits give the character whose number is the code.
pub proof fn lemma_space_and_digits_are_literal(code: u16)
    requires
        is_space_code(code) || is_digit_code(code),
    ensures
        key_of(code) matches Some(Key::Char(c)) && c as int == code && (is_space_code(code) ==> c
            == ' ') && (is_digit_code(code) ==> '0' <= c <= '9'),
{
}

/// A keypad digit gives the character `0x30` below its code, which is the key
/// of the same digit in the top row.
pub proof fn lemma_keypad_digits_are_row_digits(code: u16)
    requires
        is_keypad_code(code),
    ensures
        key_of(code) matches Some(Key::Char(c)) && '0' <= c <= '9' && c as int == code - 0x30,
        is_digit_code((code - 0x30) as u16),
        key_of(code) == key_of((code - 0x30) as u16),
{
}

/// Classifying fails on exactly the codes outside the table. Written out, the
/// table covers `0x03`, `0x07`, `0x08`, `0x11`, `0x12`, `0x1B`, `0x20` to
/// `0x28`, `0x2D`, `0x2E`, `0x30` to `0x39`, `0x41` to `0x5A`, `0x60` to
/// `0x69` and `0x70` to `0x87`; so zero fails, and so does every code above
/// `0x87`.
pub proof fn lemma_unlisted_codes_fail(code: u16)
    ensures
        classified(code) is Err <==> !is_listed(code),
        key_of(code) is None <==> !is_listed(code),
        is_listed(code) <==> {
            ||| code == 0x03
            ||| code == 0x07
            ||| code == 0x08
            ||| code == 0x11
            ||| code == 0x12
            ||| code == 0x1B
            ||| 0x20 <= code <= 0x28
            ||| code == 0x2D
            ||| code == 0x2E
            ||| 0x30 <= code <= 0x39
            ||| 0x41 <= code <= 0x5A
            ||| 0x60 <= code <= 0x69
            ||| 0x70 <= code <= 0x87
        },
        code < 0x03 || code > 0x87 ==> classified(code) is Err,
{
}

/// The keys that classifying can give are those of the table and no others:
/// no function key beyond index 23, no character but space, the digits and
/// the lower-case letters, and Alt and Ctrl only alone, with the null
/// character in place of a companion.
pub proof fn lemma_keys_of_the_table(code: u16)
    ensures
        key_of(code) matches Some(Key::F(index)) ==> index <= 23 && is_function_code(code),
        key_of(code) matches Some(Key::Char(c)) ==> c == ' ' || '0' <= c <= '9' || 'a' <= c <= 'z',
        key_of(code) matches Some(Key::Alt(c)) ==> c == '\0' && code == 0x12,
        key_of(code) matches Some(Key::Ctrl(c)) ==> c == '\0' && code == 0x11,
{
}

/// Classifying is a function of the code: two results for one code are equal.
pub proof fn lemma_same_code_same_result(code: u16, first: Result<Key, ()>, second: Result<Key, ()>)
    requires
        first == classified(code),
        second == classified(code),
    ensures
        first == second,
{
}

} // verus!
