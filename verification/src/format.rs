//! The byte sequences that the machine's two output instructions produce:
//! the UTF-8 encoding of a single character taken from the low 8 bits of a
//! register (`out`), and the decimal representation of a register
//! reinterpreted as a signed 32-bit number (`out_number`).

use vstd::prelude::*;

verus! {

/// The decimal digits of `n`, most significant first, as ASCII bytes.
pub open spec fn dec_digits(n: nat) -> Seq<u8>
    decreases n,
{
    if n < 10 {
        Seq::empty().push((48 + n) as u8)
    } else {
        dec_digits(n / 10).push((48 + n % 10) as u8)
    }
}

/// The decimal representation of the integer `n`: a leading minus sign when
/// it is negative, then its digits with no leading zeroes.
pub open spec fn dec_int(n: int) -> Seq<u8> {
    if n < 0 {
        Seq::empty().push(45u8) + dec_digits((-n) as nat)
    } else {
        dec_digits(n as nat)
    }
}

/// The signed number that the 32-bit word `x` holds in two's complement.
pub open spec fn as_signed(x: u32) -> int {
    if x >= 0x8000_0000 {
        x - 0x1_0000_0000
    } else {
        x as int
    }
}

/// The UTF-8 encoding of the character with code point `b`: one byte below
/// 0x80, two bytes from 0x80 up.
pub open spec fn utf8_of_byte(b: u8) -> Seq<u8> {
    if b < 0x80 {
        Seq::empty().push(b)
    } else {
        Seq::empty().push((0xC0 + b / 64) as u8).push((0x80 + b % 64) as u8)
    }
}

/// Appends the decimal digits of `n` to `out`.
pub fn push_dec_digits(n: u32, out: &mut Vec<u8>)
    ensures
        final(out)@ == old(out)@ + dec_digits(n as nat),
    decreases n,
{
    if n < 10 {
        out.push(48 + n as u8);
        assert(out@ =~= old(out)@ + dec_digits(n as nat));
    } else {
        push_dec_digits(n / 10, out);
        out.push(48 + (n % 10) as u8);
        assert(out@ =~= old(out)@ + dec_digits(n as nat));
    }
}

/// The decimal representation of `x` read as a signed 32-bit number.
pub fn dec_bytes_signed(x: u32) -> (r: Vec<u8>)
    ensures
        r@ == dec_int(as_signed(x)),
{
    let mut out: Vec<u8> = Vec::new();
    if x >= 0x8000_0000 {
        out.push(45u8);
        let mag: u32 = ((0x1_0000_0000u64 - x as u64) as u32);
        assert(mag as int == -as_signed(x));
        push_dec_digits(mag, &mut out);
        assert(out@ =~= dec_int(as_signed(x)));
    } else {
        push_dec_digits(x, &mut out);
    }
    out
}

/// The UTF-8 bytes of the character whose code point is `b`.
pub fn utf8_bytes(b: u8) -> (r: Vec<u8>)
    ensures
        r@ == utf8_of_byte(b),
{
    let mut out: Vec<u8> = Vec::new();
    if b < 0x80 {
        out.push(b);
    } else {
        out.push(0xC0 + b / 64);
        out.push(0x80 + b % 64);
    }
    assert(out@ =~= utf8_of_byte(b));
    out
}

} // verus!
