//! Classification of raw terminal bytes into logical key events.
//!
//! The decoder's core rule set: a single byte read in raw mode is classified
//! by the first matching rule of a fixed table, and a lone escape byte is
//! disambiguated from an arrow-key sequence by a two-byte follow-up read of
//! which only the second byte is inspected.

use vstd::prelude::*;

verus! {

/// A decoded logical input event: exactly one keypress, classified.
///
/// `Escape` doubles as the intermediate "escape pending" marker while the
/// follow-up bytes of a possible arrow-key sequence are still unread; a
/// completed decode pass never returns it (see `lemma_no_pending_marker`).
#[derive(Clone, Copy, Debug, PartialEq, Eq, Structural)]
pub enum Key {
    Up,
    Down,
    Left,
    Right,
    Number(u8),
    Letter(char),
    Escape,
    Enter,
    Nothing,
}

/// The classification table for a byte read in raw mode, first matching rule
/// first. The digit range deliberately runs one past `'9'`: byte 58 (`':'`)
/// yields `Number(10)`, a documented boundary quirk kept faithfully.
pub open spec fn classify(b: u8) -> Key {
    if 48 <= b && b <= 58 {
        Key::Number((b - 48) as u8)
    } else if 65 <= b && b <= 90 {
        Key::Letter(b as char)
    } else if 97 <= b && b <= 122 {
        Key::Letter(b as char)
    } else if b == 27 {
        Key::Escape
    } else if b == 13 {
        Key::Enter
    } else {
        Key::Nothing
    }
}

/// What the second byte of an escape follow-up read selects: the four ANSI
/// arrow codes, or `Nothing` for anything unrecognized. Never `Escape`.
pub open spec fn arrow_of(second: u8) -> Key {
    if second == 65 {
        Key::Up
    } else if second == 66 {
        Key::Down
    } else if second == 67 {
        Key::Right
    } else if second == 68 {
        Key::Left
    } else {
        Key::Nothing
    }
}

/// The key a complete decode pass yields: the classification of the first
/// byte, except that an escape lead byte defers to the second byte of the
/// follow-up read.
pub open spec fn outcome(first: u8, second: u8) -> Key {
    if classify(first) == Key::Escape {
        arrow_of(second)
    } else {
        classify(first)
    }
}

/// Classify one byte read in raw mode.
pub fn decode(b: u8) -> (k: Key)
    ensures
        k == classify(b),
{
    if 48 <= b && b <= 58 {
        Key::Number(b - 48)
    } else if 65 <= b && b <= 90 {
        Key::Letter(b as char)
    } else if 97 <= b && b <= 122 {
        Key::Letter(b as char)
    } else if b == 27 {
        Key::Escape
    } else if b == 13 {
        Key::Enter
    } else {
        Key::Nothing
    }
}

/// Decode the two-byte follow-up of an escape sequence. Only the second byte
/// is inspected; the first, expected to be `'['`, is read but not validated.
pub fn decode_arrow(_first: u8, second: u8) -> (k: Key)
    ensures
        k == arrow_of(second),
{
    if second == 65 {
        Key::Up
    } else if second == 66 {
        Key::Down
    } else if second == 67 {
        Key::Right
    } else if second == 68 {
        Key::Left
    } else {
        Key::Nothing
    }
}

/// Every ASCII letter byte decodes to `Letter` carrying that very character,
/// and the character's case matches the byte's case: uppercase byte values
/// (65..=90) yield uppercase characters, lowercase (97..=122) lowercase.
pub proof fn lemma_letters_decode_to_letters(b: u8)
    requires
        65 <= b <= 90 || 97 <= b <= 122,
    ensures
        classify(b) == Key::Letter(b as char),
        65 <= b <= 90 ==> 65 <= (b as char) as u32 <= 90,
        97 <= b <= 122 ==> 97 <= (b as char) as u32 <= 122,
{
}

/// Every byte in the accepted digit range decodes to `Number` with the
/// byte's decimal value: bytes 48..=57 yield the digits 0..=9, and the top
/// of the range, byte 58 (`':'`), yields `Number(10)` — the documented
/// boundary quirk.
pub proof fn lemma_digits_decode_to_numbers(b: u8)
    requires
        48 <= b <= 58,
    ensures
        classify(b) == Key::Number((b - 48) as u8),
        b <= 57 ==> (classify(b) matches Key::Number(n) && n <= 9),
        b == 58 ==> classify(b) == Key::Number(10),
{
}

/// After the escape lead byte (27), the second byte of the follow-up read
/// alone selects the result: 65..=68 map to `Up`, `Down`, `Right`, `Left`
/// in that order, and any other second byte maps to `Nothing`.
pub proof fn lemma_escape_disambiguation(second: u8)
    ensures
        classify(27) == Key::Escape,
        outcome(27, second) == arrow_of(second),
        second == 65 ==> arrow_of(second) == Key::Up,
        second == 66 ==> arrow_of(second) == Key::Down,
        second == 67 ==> arrow_of(second) == Key::Right,
        second == 68 ==> arrow_of(second) == Key::Left,
        !(65 <= second <= 68) ==> arrow_of(second) == Key::Nothing,
{
}

/// A complete decode pass never returns the escape-pending marker: the
/// follow-up table has no `Escape` entry, and any first byte other than 27
/// classifies as something else.
pub proof fn lemma_no_pending_marker(first: u8, second: u8)
    ensures
        outcome(first, second) != Key::Escape,
{
}

} // verus!
