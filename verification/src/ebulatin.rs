//! Transliteration of text into the single-byte character set of the
//! protocol.

use vstd::prelude::*;

verus! {

/// The byte of the first character of the table.
pub const E1_FIRST: u8 = 0x20;

/// Number of characters in the table.
pub const E1_LEN: usize = 223;

/// The character set, in the order of its bytes from `E1_FIRST` on. The byte
/// `0x7F` stands for no character of its own and holds its code point.
pub const E1: [char; 223] = [
    ' ', '!', '"', '#', '¤', '%', '&', '\'', // 0x20
    '(', ')', '*', '+', ',', '-', '.', '/', // 0x28
    '0', '1', '2', '3', '4', '5', '6', '7', // 0x30
    '8', '9', ':', ';', '<', '=', '>', '?', // 0x38
    '@', 'A', 'B', 'C', 'D', 'E', 'F', 'G', // 0x40
    'H', 'I', 'J', 'K', 'L', 'M', 'N', 'O', // 0x48
    'P', 'Q', 'R', 'S', 'T', 'U', 'V', 'W', // 0x50
    'X', 'Y', 'Z', '[', '\\', ']', '―', '_', // 0x58
    '║', 'a', 'b', 'c', 'd', 'e', 'f', 'g', // 0x60
    'h', 'i', 'j', 'k', 'l', 'm', 'n', 'o', // 0x68
    'p', 'q', 'r', 's', 't', 'u', 'v', 'w', // 0x70
    'x', 'y', 'z', '{', '|', '}', '¯', '\u{7f}', // 0x78
    'á', 'à', 'é', 'è', 'í', 'ì', 'ó', 'ò', // 0x80
    'ú', 'ù', 'Ñ', 'Ç', 'Ş', 'ß', '¡', 'Ĳ', // 0x88
    'â', 'ä', 'ê', 'ë', 'î', 'ï', 'ô', 'ö', // 0x90
    'û', 'ü', 'ñ', 'ç', 'ş', 'ğ', 'ı', 'ĳ', // 0x98
    'ª', 'α', '©', '‰', 'Ğ', 'ě', 'ň', 'ő', // 0xA0
    'π', '€', '£', '$', '←', '↑', '→', '↓', // 0xA8
    'º', '¹', '²', '³', '±', 'İ', 'ń', 'ű', // 0xB0
    'µ', '¿', '÷', '°', '¼', '½', '¾', '§', // 0xB8
    'Á', 'À', 'É', 'È', 'Í', 'Ì', 'Ó', 'Ò', // 0xC0
    'Ú', 'Ù', 'Ř', 'Č', 'Š', 'Ž', 'Ð', 'Ŀ', // 0xC8
    'Â', 'Ä', 'Ê', 'Ë', 'Î', 'Ï', 'Ô', 'Ö', // 0xD0
    'Û', 'Ü', 'ř', 'č', 'š', 'ž', 'đ', 'ŀ', // 0xD8
    'Ã', 'Å', 'Æ', 'Œ', 'ŷ', 'Ý', 'Õ', 'Ø', // 0xE0
    'Ꝥ', 'Ŋ', 'Ŕ', 'Ć', 'Ś', 'Ź', 'Ŧ', 'ð', // 0xE8
    'ã', 'å', 'æ', 'œ', 'ŵ', 'ý', 'õ', 'ø', // 0xF0
    'ꝧ', 'ŋ', 'ŕ', 'ć', 'ś', 'ź', 'ŧ', // 0xF8
];

/// The index of the first place at or behind `from` where the table holds
/// `c`, if there is one.
pub open spec fn e1_index(c: char, from: nat) -> Option<nat>
    decreases E1_LEN - from,
{
    if from >= E1_LEN {
        None
    } else if E1@[from as int] == c {
        Some(from)
    } else {
        e1_index(c, from + 1)
    }
}

/// The byte for one character: its place in the table, or for a character
/// that the table lacks the low byte of its code point.
pub open spec fn e1_byte(c: char) -> u8 {
    match e1_index(c, 0) {
        Some(i) => (E1_FIRST + i) as u8,
        None => (c as u32 % 256) as u8,
    }
}

/// The byte for one character.
pub fn to_e1_byte(c: char) -> (r: u8)
    ensures
        r == e1_byte(c),
{
    let mut i: usize = 0;
    while i < E1_LEN
        invariant
            i <= E1_LEN,
            e1_index(c, 0) == e1_index(c, i as nat),
        decreases E1_LEN - i,
    {
        if E1[i] == c {
            return E1_FIRST + i as u8;
        }
        i += 1;
    }
    (c as u32 % 256) as u8
}

/// Transliterates `source` character by character.
pub fn to_e1(source: &str) -> (r: Vec<u8>)
    ensures
        r@ == source@.map_values(|c: char| e1_byte(c)),
{
    let mut result: Vec<u8> = Vec::new();
    for c in iter: source.chars()
        invariant
            iter.seq() == source@,
            result@ == source@.take(iter.index()).map_values(|c: char| e1_byte(c)),
    {
        result.push(to_e1_byte(c));
        assert(result@ =~= source@.take(iter.index() + 1).map_values(|c: char| e1_byte(c)));
    }
    assert(source@.take(source@.len() as int) =~= source@);
    result
}

} // verus!
