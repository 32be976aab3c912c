//! What the code guarantees, for every well-formed layout.

use vstd::prelude::*;
use crate::bit_facts::{
    linear_at, one_bit_at, parity_linear_at, pointed_bit_at, ranges_at, sound_at, sound_byte_at,
    syndrome_linear_at, xor_facts,
};
use crate::error_type::ErrorType;
use crate::layout::{flip, BitLayout};

verus! {

/// A syndrome has three bits and a decoded nibble four, and of the nibble to encode
/// only the low four bits count.
pub proof fn lemma_ranges(l: BitLayout, x: u8, n: u8)
    ensures
        l.syndrome(x) < 8,
        l.data(x) < 16,
        l.decoded(x).0 < 16,
        l.encoded(n) == l.encoded(n & 0x0f),
{
    ranges_at(x, n, l.d0, l.d1, l.d2, l.d3, l.h0, l.h1, l.h2, l.p);
    ranges_at(l.corrected(x), n, l.d0, l.d1, l.d2, l.d3, l.h0, l.h1, l.h2, l.p);
}

/// A codeword is sound: its syndrome is zero and its overall parity holds.
pub proof fn lemma_codeword_is_sound(l: BitLayout, n: u8)
    requires
        l.wf(),
    ensures
        l.syndrome(l.encoded(n)) == 0,
        !l.parity_mismatch(l.encoded(n)),
        l.kind(l.encoded(n)) == ErrorType::NoError,
{
    sound_at(n, l.d0, l.d1, l.d2, l.d3, l.h0, l.h1, l.h2, l.p);
}

/// Round trip: decoding the codeword of a nibble gives the nibble back, and finds no
/// error.
pub proof fn lemma_round_trip(l: BitLayout, n: u8)
    requires
        l.wf(),
        n < 16,
    ensures
        l.decoded(l.encoded(n)) == (n, ErrorType::NoError),
{
    sound_at(n, l.d0, l.d1, l.d2, l.d3, l.h0, l.h1, l.h2, l.p);
}

/// Linearity: the XOR of two codewords is the codeword of the XOR of their nibbles.
pub proof fn lemma_encode_linear(l: BitLayout, a: u8, b: u8)
    requires
        l.wf(),
    ensures
        l.encoded(a) ^ l.encoded(b) == l.encoded(a ^ b),
{
    linear_at(a, b, l.d0, l.d1, l.d2, l.d3, l.h0, l.h1, l.h2, l.p);
}

/// Flipping bit `j` of a byte changes its syndrome by the syndrome of bit `j` alone,
/// and turns its overall parity over.
pub proof fn lemma_flip_changes_syndrome(l: BitLayout, x: u8, j: u8)
    requires
        l.wf(),
        j < 8,
    ensures
        l.syndrome(flip(x, j)) == l.syndrome(x) ^ l.syndrome(1u8 << j),
        l.parity_mismatch(flip(x, j)) == !l.parity_mismatch(x),
{
    one_bit_at(j, l.d0, l.d1, l.d2, l.d3, l.h0, l.h1, l.h2, l.p);
    syndrome_linear_at(x, 1u8 << j, l.d0, l.d1, l.d2, l.d3, l.h0, l.h1, l.h2);
    parity_linear_at(x, 1u8 << j, l.d0, l.d1, l.d2, l.d3, l.h0, l.h1, l.h2, l.p);
}

/// The position to which a syndrome points undoes the syndromes of the single bits:
/// the syndrome of bit `j` alone points to `j`, and the bit to which the syndrome `s`
/// points has, alone, the syndrome `s`.
pub proof fn lemma_error_position_inverts_syndrome(l: BitLayout, j: u8, s: u8)
    requires
        l.wf(),
        j < 8,
        s < 8,
    ensures
        l.syndrome(1u8 << j) < 8,
        l.error_position(l.syndrome(1u8 << j)) == j,
        l.error_position(s) < 8,
        l.syndrome(1u8 << l.error_position(s)) == s,
{
    one_bit_at(j, l.d0, l.d1, l.d2, l.d3, l.h0, l.h1, l.h2, l.p);
    pointed_bit_at(s, l.d0, l.d1, l.d2, l.d3, l.h0, l.h1, l.h2, l.p);
}

/// Two syndromes point to two bits, and only the syndrome zero points to the overall
/// parity bit: the seven other syndromes and the seven other bits go one to one.
pub proof fn lemma_error_position_one_to_one(l: BitLayout, s: u8, t: u8)
    requires
        l.wf(),
        s < 8,
        t < 8,
    ensures
        l.error_position(s) == l.error_position(t) <==> s == t,
        l.error_position(s) == l.p <==> s == 0,
{
}

/// Single-bit correction: a codeword with any one bit flipped still decodes to its
/// nibble. The verdict is a parity bit error where the flipped bit is the overall
/// parity bit, and a single bit error for each of the other seven.
pub proof fn lemma_single_flip_corrected(l: BitLayout, n: u8, j: u8)
    requires
        l.wf(),
        n < 16,
        j < 8,
    ensures
        l.decoded(flip(l.encoded(n), j)) == (
            n,
            if j == l.p {
                ErrorType::ParityBitError
            } else {
                ErrorType::SingleBitError
            },
        ),
{
    let c: u8 = l.encoded(n);
    let s: u8 = l.syndrome(1u8 << j);
    sound_at(n, l.d0, l.d1, l.d2, l.d3, l.h0, l.h1, l.h2, l.p);
    one_bit_at(j, l.d0, l.d1, l.d2, l.d3, l.h0, l.h1, l.h2, l.p);
    lemma_flip_changes_syndrome(l, c, j);
    xor_facts(s, s);
    xor_facts(c, 1u8 << j);
    assert(l.syndrome(flip(c, j)) == s);
    assert(l.corrected(flip(c, j)) == c);
}

/// Double-bit detection: a codeword with any two of its bits flipped is found out as
/// a double bit error.
pub proof fn lemma_double_flip_detected(l: BitLayout, n: u8, i: u8, j: u8)
    requires
        l.wf(),
        i < 8,
        j < 8,
        i != j,
    ensures
        l.decoded(flip(flip(l.encoded(n), i), j)).1 == ErrorType::DoubleBitError,
{
    let c: u8 = l.encoded(n);
    let s: u8 = l.syndrome(1u8 << i);
    let t: u8 = l.syndrome(1u8 << j);
    sound_at(n, l.d0, l.d1, l.d2, l.d3, l.h0, l.h1, l.h2, l.p);
    one_bit_at(i, l.d0, l.d1, l.d2, l.d3, l.h0, l.h1, l.h2, l.p);
    one_bit_at(j, l.d0, l.d1, l.d2, l.d3, l.h0, l.h1, l.h2, l.p);
    lemma_flip_changes_syndrome(l, c, i);
    lemma_flip_changes_syndrome(l, flip(c, i), j);
    xor_facts(s, t);
    assert(l.syndrome(flip(flip(c, i), j)) == s ^ t);
}

/// No byte that is two flipped bits away from a codeword passes for sound or for
/// repaired: its verdict is never no error, never a single bit error, never a parity
/// bit error.
pub proof fn lemma_double_flip_never_passes(l: BitLayout, n: u8, i: u8, j: u8)
    requires
        l.wf(),
        i < 8,
        j < 8,
        i != j,
    ensures
        l.kind(flip(flip(l.encoded(n), i), j)) != ErrorType::NoError,
        l.kind(flip(flip(l.encoded(n), i), j)) != ErrorType::SingleBitError,
        l.kind(flip(flip(l.encoded(n), i), j)) != ErrorType::ParityBitError,
{
    lemma_double_flip_detected(l, n, i, j);
}

/// Where the verdict is not a double bit error, the repaired byte is the codeword of
/// the decoded nibble, and the received byte differs from it in no bit (no error)
/// or in the one bit to which its syndrome points.
pub proof fn lemma_repair_gives_codeword(l: BitLayout, x: u8)
    requires
        l.wf(),
        l.kind(x) != ErrorType::DoubleBitError,
    ensures
        l.corrected(x) == l.encoded(l.decoded(x).0),
        l.kind(x) == ErrorType::NoError ==> x == l.corrected(x),
        l.kind(x) != ErrorType::NoError ==> x == flip(
            l.corrected(x),
            l.error_position(l.syndrome(x)),
        ),
{
    let s: u8 = l.syndrome(x);
    ranges_at(x, 0, l.d0, l.d1, l.d2, l.d3, l.h0, l.h1, l.h2, l.p);
    if l.kind(x) != ErrorType::NoError {
        let j: u8 = l.error_position(s);
        pointed_bit_at(s, l.d0, l.d1, l.d2, l.d3, l.h0, l.h1, l.h2, l.p);
        lemma_flip_changes_syndrome(l, x, j);
        xor_facts(s, s);
        xor_facts(x, 1u8 << j);
    }
    sound_byte_at(l.corrected(x), l.d0, l.d1, l.d2, l.d3, l.h0, l.h1, l.h2, l.p);
}

} // verus!
