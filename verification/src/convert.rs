//! Conversion helpers: rendering byte strings as ASCII hex characters.

use vstd::prelude::*;

verus! {

/// The lowercase hexadecimal digit character for a nibble value.
pub open spec fn spec_hex_char(n: u8) -> char {
    match n {
        0 => '0',
        1 => '1',
        2 => '2',
        3 => '3',
        4 => '4',
        5 => '5',
        6 => '6',
        7 => '7',
        8 => '8',
        9 => '9',
        10 => 'a',
        11 => 'b',
        12 => 'c',
        13 => 'd',
        14 => 'e',
        _ => 'f',
    }
}

/// Maps a nibble (a value below 16) to its lowercase hex digit character.
fn hex_char(n: u8) -> (c: char)
    requires
        n < 16,
    ensures
        c == spec_hex_char(n),
{
    match n {
        0 => '0',
        1 => '1',
        2 => '2',
        3 => '3',
        4 => '4',
        5 => '5',
        6 => '6',
        7 => '7',
        8 => '8',
        9 => '9',
        10 => 'a',
        11 => 'b',
        12 => 'c',
        13 => 'd',
        14 => 'e',
        _ => 'f',
    }
}

/// Transforms a byte slice in **big endian order** to an array of ASCII hex
/// characters, two digits per byte, most significant nibble first.
/// `N` must be exactly `bytes.len() * 2`. The result carries no `0x` prefix.
pub fn bytes_to_hex_ascii<const N: usize>(bytes: &[u8]) -> (chars: [char; N])
    requires
        bytes@.len() * 2 == N,
    ensures
        forall|i: int|
            0 <= i < bytes@.len() ==> chars@[2 * i] == spec_hex_char(bytes@[i] / 16),
        forall|i: int|
            0 <= i < bytes@.len() ==> chars@[2 * i + 1] == spec_hex_char(bytes@[i] % 16),
{
    let mut chars: [char; N] = ['0'; N];
    let mut i: usize = 0;
    while i < bytes.len()
        invariant
            bytes@.len() * 2 == N,
            0 <= i <= bytes@.len(),
            forall|j: int|
                0 <= j < i ==> chars@[2 * j] == spec_hex_char(bytes@[j] / 16),
            forall|j: int|
                0 <= j < i ==> chars@[2 * j + 1] == spec_hex_char(bytes@[j] % 16),
        decreases bytes@.len() - i,
    {
        let byte = bytes[i];
        let h_nibble = (0xf0 & byte) >> 4;
        let l_nibble = 0x0f & byte;
        proof {
            assert((0xf0 & byte) >> 4 == byte / 16 && (0xf0 & byte) >> 4 < 16
                && 0x0f & byte == byte % 16 && 0x0f & byte < 16) by (bit_vector);
        }
        chars[2 * i] = hex_char(h_nibble);
        chars[2 * i + 1] = hex_char(l_nibble);
        i = i + 1;
    }
    chars
}

} // verus!
