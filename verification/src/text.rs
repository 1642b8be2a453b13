//! Small text-building helpers shared by the cartridge title and the
//! diagnostic formatters: pushing characters onto a `String` and turning
//! nibbles into hexadecimal digits.

use vstd::prelude::*;

verus! {

use vstd::string::StringExecFns;

/// Relies on String::push: appends exactly the one character.
#[verifier::external_body]
pub fn push_char(s: &mut String, c: char)
    ensures
        final(s)@ == old(s)@.push(c),
{
    s.push(c);
}

/// The character whose code point is the byte's value.
pub open spec fn spec_byte_char(b: u8) -> char {
    b as char
}

/// Append the character with the byte's code point to `s`.
pub fn push_byte_char(s: &mut String, b: u8)
    ensures
        final(s)@ == old(s)@.push(spec_byte_char(b)),
{
    push_char(s, b as char);
}

/// The upper-case hexadecimal digit for a nibble value.
pub open spec fn spec_hex_digit(n: u8) -> char {
    if n & 0x0F < 10 {
        ((0x30 + (n & 0x0F)) as u8) as char
    } else {
        ((0x37 + (n & 0x0F)) as u8) as char
    }
}

/// The upper-case hexadecimal digit for the low nibble of `n`.
pub fn hex_digit(n: u8) -> (c: char)
    ensures
        c == spec_hex_digit(n),
{
    let v = n & 0x0F;
    proof {
        assert(n & 0x0F < 16) by (bit_vector);
    }
    if v < 10 {
        (0x30 + v) as char
    } else {
        (0x37 + v) as char
    }
}

/// The two hexadecimal digits of a byte, high nibble first.
pub open spec fn spec_hex_byte(b: u8) -> Seq<char> {
    seq![spec_hex_digit((b >> 4)), spec_hex_digit(b)]
}

/// Append the two hexadecimal digits of `b` to `s`, high nibble first.
pub fn push_hex_byte(s: &mut String, b: u8)
    ensures
        final(s)@ == old(s)@ + spec_hex_byte(b),
{
    push_char(s, hex_digit(b >> 4));
    push_char(s, hex_digit(b));
    proof {
        assert(final(s)@ =~= old(s)@ + spec_hex_byte(b));
    }
}

/// The four hexadecimal digits of a 16-bit value, high nibble first.
pub open spec fn spec_hex_word(w: u16) -> Seq<char> {
    spec_hex_byte((w >> 8) as u8) + spec_hex_byte(w as u8)
}

/// Append the four hexadecimal digits of `w` to `s`, high nibble first.
pub fn push_hex_word(s: &mut String, w: u16)
    ensures
        final(s)@ == old(s)@ + spec_hex_word(w),
{
    push_hex_byte(s, (w >> 8) as u8);
    push_hex_byte(s, (w & 0xFF) as u8);
    proof {
        assert((w & 0xFF) as u8 == w as u8) by (bit_vector);
        assert(final(s)@ =~= old(s)@ + spec_hex_word(w));
    }
}

/// Append every character of `piece` to `s`.
pub fn push_str_piece(s: &mut String, piece: &str)
    ensures
        final(s)@ == old(s)@ + piece@,
{
    s.append(piece);
}

} // verus!
