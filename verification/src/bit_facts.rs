//! Facts about the bits of a byte that the laws of the code are built from. Each is
//! small enough for the bit-vector solver: it speaks either of one byte at positions
//! that are not known, or of single bits at no position at all.

use vstd::prelude::*;
use crate::layout::{
    bit, check0, check1, check2, codeword_at, data_at, overall, parity_mismatch_at, position_at,
    positions_valid, syndrome_at,
};

verus! {

/// XOR works bit by bit, and a bit is 0 or 1.
pub(crate) proof fn bit_of_xor(x: u8, y: u8, i: u8)
    by (bit_vector)
    ensures
        bit(x ^ y, i) == bit(x, i) ^ bit(y, i),
        bit(x, i) <= 1,
        bit(y, i) <= 1,
{
}

/// What XOR does with equal and with unequal bytes.
pub(crate) proof fn xor_facts(a: u8, b: u8)
    by (bit_vector)
    ensures
        0u8 ^ a == a,
        a ^ a == 0,
        (a ^ b) ^ b == a,
        a != b ==> a ^ b != 0,
{
}

/// A codeword holds at each position the bit that was put there.
pub(crate) proof fn placed_bits_at(
    n: u8,
    d0: u8,
    d1: u8,
    d2: u8,
    d3: u8,
    h0: u8,
    h1: u8,
    h2: u8,
    p: u8,
)
    by (bit_vector)
    requires
        positions_valid(d0, d1, d2, d3, h0, h1, h2, p),
    ensures
        bit(codeword_at(n, d0, d1, d2, d3, h0, h1, h2, p), d0) == bit(n, 0),
        bit(codeword_at(n, d0, d1, d2, d3, h0, h1, h2, p), d1) == bit(n, 1),
        bit(codeword_at(n, d0, d1, d2, d3, h0, h1, h2, p), d2) == bit(n, 2),
        bit(codeword_at(n, d0, d1, d2, d3, h0, h1, h2, p), d3) == bit(n, 3),
        bit(codeword_at(n, d0, d1, d2, d3, h0, h1, h2, p), h0) == check0(n),
        bit(codeword_at(n, d0, d1, d2, d3, h0, h1, h2, p), h1) == check1(n),
        bit(codeword_at(n, d0, d1, d2, d3, h0, h1, h2, p), h2) == check2(n),
        bit(codeword_at(n, d0, d1, d2, d3, h0, h1, h2, p), p) == overall(n),
{
}

/// A byte is its eight bits, each at its position.
#[verifier::rlimit(30)]
pub(crate) proof fn byte_of_bits_at(
    x: u8,
    d0: u8,
    d1: u8,
    d2: u8,
    d3: u8,
    h0: u8,
    h1: u8,
    h2: u8,
    p: u8,
)
    by (bit_vector)
    requires
        positions_valid(d0, d1, d2, d3, h0, h1, h2, p),
    ensures
        x == bit(x, d0) << d0 | bit(x, d1) << d1 | bit(x, d2) << d2 | bit(x, d3) << d3 | bit(x, h0)
            << h0 | bit(x, h1) << h1 | bit(x, h2) << h2 | bit(x, p) << p,
{
}

/// Encoding is linear over XOR.
#[verifier::rlimit(30)]
pub(crate) proof fn linear_at(
    a: u8,
    b: u8,
    d0: u8,
    d1: u8,
    d2: u8,
    d3: u8,
    h0: u8,
    h1: u8,
    h2: u8,
    p: u8,
)
    by (bit_vector)
    requires
        positions_valid(d0, d1, d2, d3, h0, h1, h2, p),
    ensures
        codeword_at(a, d0, d1, d2, d3, h0, h1, h2, p) ^ codeword_at(
            b,
            d0,
            d1,
            d2,
            d3,
            h0,
            h1,
            h2,
            p,
        ) == codeword_at(a ^ b, d0, d1, d2, d3, h0, h1, h2, p),
{
}

/// The byte with only bit `j` set breaks the overall parity, and its syndrome points
/// to `j`.
#[verifier::rlimit(30)]
pub(crate) proof fn one_bit_at(
    j: u8,
    d0: u8,
    d1: u8,
    d2: u8,
    d3: u8,
    h0: u8,
    h1: u8,
    h2: u8,
    p: u8,
)
    by (bit_vector)
    requires
        positions_valid(d0, d1, d2, d3, h0, h1, h2, p),
        j < 8,
    ensures
        syndrome_at(1u8 << j, d0, d1, d2, d3, h0, h1, h2) < 8,
        position_at(
            syndrome_at(1u8 << j, d0, d1, d2, d3, h0, h1, h2),
            d0,
            d1,
            d2,
            d3,
            h0,
            h1,
            h2,
            p,
        ) == j,
        parity_mismatch_at(1u8 << j, d0, d1, d2, d3, h0, h1, h2, p),
{
}

/// The bit to which the syndrome `s` points has, alone, the syndrome `s`.
pub(crate) proof fn pointed_bit_at(
    s: u8,
    d0: u8,
    d1: u8,
    d2: u8,
    d3: u8,
    h0: u8,
    h1: u8,
    h2: u8,
    p: u8,
)
    by (bit_vector)
    requires
        positions_valid(d0, d1, d2, d3, h0, h1, h2, p),
        s < 8,
    ensures
        position_at(s, d0, d1, d2, d3, h0, h1, h2, p) < 8,
        syndrome_at(
            1u8 << position_at(s, d0, d1, d2, d3, h0, h1, h2, p),
            d0,
            d1,
            d2,
            d3,
            h0,
            h1,
            h2,
        ) == s,
{
}

/// A syndrome has three bits, a nibble read from a byte has four, and a codeword
/// depends on the low four bits of its nibble only.
pub(crate) proof fn ranges_at(
    x: u8,
    n: u8,
    d0: u8,
    d1: u8,
    d2: u8,
    d3: u8,
    h0: u8,
    h1: u8,
    h2: u8,
    p: u8,
)
    by (bit_vector)
    ensures
        syndrome_at(x, d0, d1, d2, d3, h0, h1, h2) < 8,
        data_at(x, d0, d1, d2, d3) < 16,
        codeword_at(n, d0, d1, d2, d3, h0, h1, h2, p) == codeword_at(
            n & 0x0f,
            d0,
            d1,
            d2,
            d3,
            h0,
            h1,
            h2,
            p,
        ),
{
}

/// The check bits of a nibble agree with its data bits, its overall parity bit with
/// all seven, and a nibble is its four data bits.
pub(crate) proof fn checks_agree(n: u8)
    by (bit_vector)
    ensures
        (bit(n, 2) ^ bit(n, 1) ^ bit(n, 0) ^ check0(n)) << 2 | (bit(n, 3) ^ bit(n, 1) ^ bit(n, 0)
            ^ check1(n)) << 1 | (bit(n, 3) ^ bit(n, 2) ^ bit(n, 0) ^ check2(n)) == 0,
        overall(n) == bit(n, 3) ^ bit(n, 2) ^ bit(n, 1) ^ bit(n, 0) ^ check2(n) ^ check1(n)
            ^ check0(n),
        n < 16 ==> bit(n, 3) << 3 | bit(n, 2) << 2 | bit(n, 1) << 1 | bit(n, 0) == n,
{
}

/// Eight bits with a zero syndrome and a sound overall parity are the data bits, the
/// check bits and the overall parity bit of the nibble that the four data bits make.
pub(crate) proof fn sound_bits(a0: u8, a1: u8, a2: u8, a3: u8, c0: u8, c1: u8, c2: u8, q: u8)
    by (bit_vector)
    requires
        a0 <= 1 && a1 <= 1 && a2 <= 1 && a3 <= 1 && c0 <= 1 && c1 <= 1 && c2 <= 1 && q <= 1,
        (a2 ^ a1 ^ a0 ^ c0) << 2 | (a3 ^ a1 ^ a0 ^ c1) << 1 | (a3 ^ a2 ^ a0 ^ c2) == 0,
        !(q != a3 ^ a2 ^ a1 ^ a0 ^ c2 ^ c1 ^ c0),
    ensures
        bit(a3 << 3 | a2 << 2 | a1 << 1 | a0, 0) == a0,
        bit(a3 << 3 | a2 << 2 | a1 << 1 | a0, 1) == a1,
        bit(a3 << 3 | a2 << 2 | a1 << 1 | a0, 2) == a2,
        bit(a3 << 3 | a2 << 2 | a1 << 1 | a0, 3) == a3,
        check0(a3 << 3 | a2 << 2 | a1 << 1 | a0) == c0,
        check1(a3 << 3 | a2 << 2 | a1 << 1 | a0) == c1,
        check2(a3 << 3 | a2 << 2 | a1 << 1 | a0) == c2,
        overall(a3 << 3 | a2 << 2 | a1 << 1 | a0) == q,
{
}

/// The syndrome of seven bits, each the XOR of two, is the XOR of the two syndromes.
pub(crate) proof fn syndrome_of_xor(
    a0: u8,
    a1: u8,
    a2: u8,
    a3: u8,
    a4: u8,
    a5: u8,
    a6: u8,
    b0: u8,
    b1: u8,
    b2: u8,
    b3: u8,
    b4: u8,
    b5: u8,
    b6: u8,
)
    by (bit_vector)
    requires
        a0 <= 1 && a1 <= 1 && a2 <= 1 && a3 <= 1 && a4 <= 1 && a5 <= 1 && a6 <= 1,
        b0 <= 1 && b1 <= 1 && b2 <= 1 && b3 <= 1 && b4 <= 1 && b5 <= 1 && b6 <= 1,
    ensures
        ((a2 ^ b2) ^ (a1 ^ b1) ^ (a0 ^ b0) ^ (a4 ^ b4)) << 2 | ((a3 ^ b3) ^ (a1 ^ b1) ^ (a0 ^ b0)
            ^ (a5 ^ b5)) << 1 | ((a3 ^ b3) ^ (a2 ^ b2) ^ (a0 ^ b0) ^ (a6 ^ b6)) == ((a2 ^ a1 ^ a0
            ^ a4) << 2 | (a3 ^ a1 ^ a0 ^ a5) << 1 | (a3 ^ a2 ^ a0 ^ a6)) ^ ((b2 ^ b1 ^ b0 ^ b4) << 2
            | (b3 ^ b1 ^ b0 ^ b5) << 1 | (b3 ^ b2 ^ b0 ^ b6)),
{
}

/// The overall parity of eight bits, each the XOR of two, is broken where it is broken
/// in one of the two and sound in the other.
pub(crate) proof fn parity_of_xor(
    a: u8,
    a1: u8,
    a2: u8,
    a3: u8,
    a4: u8,
    a5: u8,
    a6: u8,
    a7: u8,
    b: u8,
    b1: u8,
    b2: u8,
    b3: u8,
    b4: u8,
    b5: u8,
    b6: u8,
    b7: u8,
)
    by (bit_vector)
    requires
        a <= 1 && a1 <= 1 && a2 <= 1 && a3 <= 1 && a4 <= 1 && a5 <= 1 && a6 <= 1 && a7 <= 1,
        b <= 1 && b1 <= 1 && b2 <= 1 && b3 <= 1 && b4 <= 1 && b5 <= 1 && b6 <= 1 && b7 <= 1,
    ensures
        ((a ^ b) != (a1 ^ b1) ^ (a2 ^ b2) ^ (a3 ^ b3) ^ (a4 ^ b4) ^ (a5 ^ b5) ^ (a6 ^ b6) ^ (a7
            ^ b7)) == ((a != a1 ^ a2 ^ a3 ^ a4 ^ a5 ^ a6 ^ a7) != (b != b1 ^ b2 ^ b3 ^ b4 ^ b5 ^ b6
            ^ b7)),
{
}

/// The syndrome is linear over XOR.
pub(crate) proof fn syndrome_linear_at(
    x: u8,
    y: u8,
    d0: u8,
    d1: u8,
    d2: u8,
    d3: u8,
    h0: u8,
    h1: u8,
    h2: u8,
)
    ensures
        syndrome_at(x ^ y, d0, d1, d2, d3, h0, h1, h2) == syndrome_at(
            x,
            d0,
            d1,
            d2,
            d3,
            h0,
            h1,
            h2,
        ) ^ syndrome_at(y, d0, d1, d2, d3, h0, h1, h2),
{
    bit_of_xor(x, y, d0);
    bit_of_xor(x, y, d1);
    bit_of_xor(x, y, d2);
    bit_of_xor(x, y, d3);
    bit_of_xor(x, y, h0);
    bit_of_xor(x, y, h1);
    bit_of_xor(x, y, h2);
    syndrome_of_xor(
        bit(x, d0),
        bit(x, d1),
        bit(x, d2),
        bit(x, d3),
        bit(x, h0),
        bit(x, h1),
        bit(x, h2),
        bit(y, d0),
        bit(y, d1),
        bit(y, d2),
        bit(y, d3),
        bit(y, h0),
        bit(y, h1),
        bit(y, h2),
    );
}

/// The overall parity of the XOR of two bytes is broken where it is broken in one of
/// them and sound in the other.
pub(crate) proof fn parity_linear_at(
    x: u8,
    y: u8,
    d0: u8,
    d1: u8,
    d2: u8,
    d3: u8,
    h0: u8,
    h1: u8,
    h2: u8,
    p: u8,
)
    ensures
        parity_mismatch_at(x ^ y, d0, d1, d2, d3, h0, h1, h2, p) == (parity_mismatch_at(
            x,
            d0,
            d1,
            d2,
            d3,
            h0,
            h1,
            h2,
            p,
        ) != parity_mismatch_at(y, d0, d1, d2, d3, h0, h1, h2, p)),
{
    bit_of_xor(x, y, p);
    bit_of_xor(x, y, d3);
    bit_of_xor(x, y, d2);
    bit_of_xor(x, y, d1);
    bit_of_xor(x, y, d0);
    bit_of_xor(x, y, h2);
    bit_of_xor(x, y, h1);
    bit_of_xor(x, y, h0);
    parity_of_xor(
        bit(x, p),
        bit(x, d3),
        bit(x, d2),
        bit(x, d1),
        bit(x, d0),
        bit(x, h2),
        bit(x, h1),
        bit(x, h0),
        bit(y, p),
        bit(y, d3),
        bit(y, d2),
        bit(y, d1),
        bit(y, d0),
        bit(y, h2),
        bit(y, h1),
        bit(y, h0),
    );
}

/// A codeword has a zero syndrome and a sound overall parity, and its data bits are
/// the nibble that it encodes.
pub(crate) proof fn sound_at(n: u8, d0: u8, d1: u8, d2: u8, d3: u8, h0: u8, h1: u8, h2: u8, p: u8)
    requires
        positions_valid(d0, d1, d2, d3, h0, h1, h2, p),
    ensures
        syndrome_at(codeword_at(n, d0, d1, d2, d3, h0, h1, h2, p), d0, d1, d2, d3, h0, h1, h2) == 0,
        !parity_mismatch_at(
            codeword_at(n, d0, d1, d2, d3, h0, h1, h2, p),
            d0,
            d1,
            d2,
            d3,
            h0,
            h1,
            h2,
            p,
        ),
        n < 16 ==> data_at(codeword_at(n, d0, d1, d2, d3, h0, h1, h2, p), d0, d1, d2, d3) == n,
{
    placed_bits_at(n, d0, d1, d2, d3, h0, h1, h2, p);
    checks_agree(n);
}

/// A byte with a zero syndrome and a sound overall parity is the codeword of its data
/// bits.
pub(crate) proof fn sound_byte_at(
    x: u8,
    d0: u8,
    d1: u8,
    d2: u8,
    d3: u8,
    h0: u8,
    h1: u8,
    h2: u8,
    p: u8,
)
    requires
        positions_valid(d0, d1, d2, d3, h0, h1, h2, p),
        syndrome_at(x, d0, d1, d2, d3, h0, h1, h2) == 0,
        !parity_mismatch_at(x, d0, d1, d2, d3, h0, h1, h2, p),
    ensures
        x == codeword_at(data_at(x, d0, d1, d2, d3), d0, d1, d2, d3, h0, h1, h2, p),
{
    bit_of_xor(x, x, d0);
    bit_of_xor(x, x, d1);
    bit_of_xor(x, x, d2);
    bit_of_xor(x, x, d3);
    bit_of_xor(x, x, h0);
    bit_of_xor(x, x, h1);
    bit_of_xor(x, x, h2);
    bit_of_xor(x, x, p);
    byte_of_bits_at(x, d0, d1, d2, d3, h0, h1, h2, p);
    sound_bits(
        bit(x, d0),
        bit(x, d1),
        bit(x, d2),
        bit(x, d3),
        bit(x, h0),
        bit(x, h1),
        bit(x, h2),
        bit(x, p),
    );
}

} // verus!
