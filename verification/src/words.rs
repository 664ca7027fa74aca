//! Little-endian 32-bit words in a flat byte memory, and the 16-bit sign
//! extension used by the `loadimm` instruction.

use vstd::prelude::*;
use vstd::arithmetic::div_mod::lemma_fundamental_div_mod;

verus! {

/// The 32-bit value encoded by four bytes in little-endian order.
pub open spec fn word_of_bytes(b0: u8, b1: u8, b2: u8, b3: u8) -> u32 {
    (b0 + b1 * 0x100 + b2 * 0x1_0000 + b3 * 0x100_0000) as u32
}

/// The four little-endian bytes of a 32-bit value, least significant first.
pub open spec fn word_bytes(v: u32) -> Seq<u8> {
    Seq::empty()
        .push((v as int % 0x100) as u8)
        .push((v as int / 0x100 % 0x100) as u8)
        .push((v as int / 0x1_0000 % 0x100) as u8)
        .push((v as int / 0x100_0000 % 0x100) as u8)
}

/// The word stored at address `a` of `mem`, read little-endian.
pub open spec fn word_at(mem: Seq<u8>, a: int) -> u32
    recommends
        0 <= a,
        a + 4 <= mem.len(),
{
    word_of_bytes(mem[a], mem[a + 1], mem[a + 2], mem[a + 3])
}

/// `mem` with the word `v` written little-endian at address `a`.
pub open spec fn store_word(mem: Seq<u8>, a: int, v: u32) -> Seq<u8>
    recommends
        0 <= a,
        a + 4 <= mem.len(),
{
    mem.update(a, word_bytes(v)[0])
        .update(a + 1, word_bytes(v)[1])
        .update(a + 2, word_bytes(v)[2])
        .update(a + 3, word_bytes(v)[3])
}

/// Little-endian encode followed by decode gives the value back: the two
/// directions are inverses.
pub proof fn lemma_word_round_trip(v: u32)
    ensures
        word_of_bytes(word_bytes(v)[0], word_bytes(v)[1], word_bytes(v)[2], word_bytes(v)[3]) == v,
{
    let n = v as int;
    lemma_fundamental_div_mod(n, 0x100);
    lemma_fundamental_div_mod(n / 0x100, 0x100);
    lemma_fundamental_div_mod(n / 0x1_0000, 0x100);
    assert(n / 0x100 / 0x100 == n / 0x1_0000) by (nonlinear_arith);
    assert(n / 0x1_0000 / 0x100 == n / 0x100_0000) by (nonlinear_arith);
    assert(0 <= n < 0x1_0000_0000 ==> n / 0x100_0000 < 0x100) by (nonlinear_arith);
}

/// Storing a word and then loading from the same address round-trips the
/// value exactly.
pub proof fn lemma_store_word_reads_back(mem: Seq<u8>, a: int, v: u32)
    requires
        0 <= a,
        a + 4 <= mem.len(),
    ensures
        store_word(mem, a, v).len() == mem.len(),
        word_at(store_word(mem, a, v), a) == v,
{
    lemma_word_round_trip(v);
}

/// The 16-bit value with low byte `lo` and high byte `hi`, sign-extended to
/// 32 bits using two's-complement rules.
pub open spec fn sign_extend_16(lo: u8, hi: u8) -> u32 {
    if hi >= 0x80 {
        (0xFFFF_0000 + hi * 0x100 + lo) as u32
    } else {
        (hi * 0x100 + lo) as u32
    }
}

} // verus!
