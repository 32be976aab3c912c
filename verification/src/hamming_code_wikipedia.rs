//! The codec for the layout in which, counted from the top of the byte, the check
//! bits stand at the powers of two and the data bits fill the gaps:
//!
//! ```text
//! bit    7   6   5   4   3   2   1   0
//! holds  h2  h1  d3  h0  d2  d1  d0  p
//! ```
//!
//! With it the syndrome of a byte with one flipped bit is 8 less the bit's position.

use vstd::prelude::*;
use crate::error_type::{classify, ErrorType};
use crate::laws::{
    lemma_double_flip_detected, lemma_encode_linear, lemma_round_trip, lemma_single_flip_corrected,
};
use crate::layout::{codeword_at, data_at, flip, parity_mismatch_at, syndrome_at, BitLayout};

verus! {

/// The layout of this module, as a value for contracts.
pub open spec fn spec_layout() -> BitLayout {
    BitLayout { d0: 1, d1: 2, d2: 3, d3: 5, h0: 4, h1: 6, h2: 7, p: 0 }
}

/// The layout of this module.
#[verifier::when_used_as_spec(spec_layout)]
pub fn layout() -> (l: BitLayout)
    ensures
        l == spec_layout(),
        l.wf(),
{
    BitLayout { d0: 1, d1: 2, d2: 3, d3: 5, h0: 4, h1: 6, h2: 7, p: 0 }
}

/// For each syndrome the bit to flip. Index 0 holds the overall parity bit, which
/// is the one to flip where the parity is broken and the syndrome is zero.
pub const SYNDROME_TO_BIT: [u8; 8] = [0, 7, 6, 5, 4, 3, 2, 1];

/// The bit position to which the syndrome `s` points.
pub fn syndrome_to_bit(s: u8) -> (position: u8)
    requires
        s < 8,
    ensures
        position == layout().error_position(s),
        position < 8,
{
    SYNDROME_TO_BIT[s as usize]
}

/// Encodes the nibble `n`. Only the low four bits of `n` are read.
pub fn hamming_encode(n: u8) -> (x: u8)
    ensures
        x == layout().encoded(n),
{
    let d0: u8 = n & 1;
    let d1: u8 = n >> 1 & 1;
    let d2: u8 = n >> 2 & 1;
    let d3: u8 = n >> 3 & 1;
    let x7: u8 = d3 ^ d2 ^ d0;
    let x6: u8 = d3 ^ d1 ^ d0;
    let x4: u8 = d2 ^ d1 ^ d0;
    let x0: u8 = d3 ^ d2 ^ d1;
    assert(x7 << 7 | x6 << 6 | d3 << 5 | x4 << 4 | d2 << 3 | d1 << 2 | d0 << 1 | x0
        == codeword_at(n, 1, 2, 3, 5, 4, 6, 7, 0)) by (bit_vector)
        requires
            d0 == n & 1,
            d1 == n >> 1 & 1,
            d2 == n >> 2 & 1,
            d3 == n >> 3 & 1,
            x7 == d3 ^ d2 ^ d0,
            x6 == d3 ^ d1 ^ d0,
            x4 == d2 ^ d1 ^ d0,
            x0 == d3 ^ d2 ^ d1,
    ;
    x7 << 7 | x6 << 6 | d3 << 5 | x4 << 4 | d2 << 3 | d1 << 2 | d0 << 1 | x0
}

/// The syndrome of the received byte `x`, and whether its overall parity is broken.
pub fn syndrome(x: u8) -> (r: (u8, bool))
    ensures
        r.0 == layout().syndrome(x),
        r.1 == layout().parity_mismatch(x),
        r.0 < 8,
{
    let s0: u8 = (x >> 7 & 1) ^ (x >> 5 & 1) ^ (x >> 3 & 1) ^ (x >> 1 & 1);
    let s1: u8 = (x >> 6 & 1) ^ (x >> 5 & 1) ^ (x >> 2 & 1) ^ (x >> 1 & 1);
    let s2: u8 = (x >> 4 & 1) ^ (x >> 3 & 1) ^ (x >> 2 & 1) ^ (x >> 1 & 1);
    let parity: u8 = (x >> 7 & 1) ^ (x >> 6 & 1) ^ (x >> 5 & 1) ^ (x >> 4 & 1) ^ (x >> 3 & 1)
        ^ (x >> 2 & 1) ^ (x >> 1 & 1);
    assert(s2 << 2 | s1 << 1 | s0 == syndrome_at(x, 1, 2, 3, 5, 4, 6, 7)
        && (s2 << 2 | s1 << 1 | s0) < 8
        && (x & 1 != parity) == parity_mismatch_at(x, 1, 2, 3, 5, 4, 6, 7, 0)) by (bit_vector)
        requires
            s0 == (x >> 7 & 1) ^ (x >> 5 & 1) ^ (x >> 3 & 1) ^ (x >> 1 & 1),
            s1 == (x >> 6 & 1) ^ (x >> 5 & 1) ^ (x >> 2 & 1) ^ (x >> 1 & 1),
            s2 == (x >> 4 & 1) ^ (x >> 3 & 1) ^ (x >> 2 & 1) ^ (x >> 1 & 1),
            parity == (x >> 7 & 1) ^ (x >> 6 & 1) ^ (x >> 5 & 1) ^ (x >> 4 & 1) ^ (x >> 3 & 1)
                ^ (x >> 2 & 1) ^ (x >> 1 & 1),
    ;
    (s2 << 2 | s1 << 1 | s0, x & 1 != parity)
}

/// Repairs the received byte `x` as far as it can be repaired, and says what was
/// found. With [`ErrorType::DoubleBitError`] the byte that comes back is a guess.
pub fn hamming_error_correct(x: u8) -> (r: (u8, ErrorType))
    ensures
        r.0 == layout().corrected(x),
        r.1 == layout().kind(x),
{
    let (s, parity_mismatch) = syndrome(x);
    let kind = classify(s, parity_mismatch);
    match kind {
        ErrorType::NoError => (x, kind),
        _ => (x ^ 1 << syndrome_to_bit(s), kind),
    }
}

/// Decodes the received byte `x` into its nibble, and says what was found. With
/// [`ErrorType::DoubleBitError`] the nibble is unreliable.
pub fn hamming_decode(x: u8) -> (r: (u8, ErrorType))
    ensures
        r == layout().decoded(x),
        r.0 < 16,
{
    let (y, kind) = hamming_error_correct(x);
    let d0: u8 = y >> 1 & 1;
    let d1: u8 = y >> 2 & 1;
    let d2: u8 = y >> 3 & 1;
    let d3: u8 = y >> 5 & 1;
    assert(d3 << 3 | d2 << 2 | d1 << 1 | d0 == data_at(y, 1, 2, 3, 5)
        && (d3 << 3 | d2 << 2 | d1 << 1 | d0) < 16) by (bit_vector)
        requires
            d0 == y >> 1 & 1,
            d1 == y >> 2 & 1,
            d2 == y >> 3 & 1,
            d3 == y >> 5 & 1,
    ;
    (d3 << 3 | d2 << 2 | d1 << 1 | d0, kind)
}

/// Round trip: decoding the codeword of a nibble gives the nibble back, and finds no
/// error.
pub proof fn lemma_decode_encode(n: u8)
    requires
        n < 16,
    ensures
        layout().decoded(layout().encoded(n)) == (n, ErrorType::NoError),
{
    lemma_round_trip(layout(), n);
}

/// Linearity: the XOR of two codewords is the codeword of the XOR of their nibbles.
pub proof fn lemma_encode_xor(a: u8, b: u8)
    ensures
        layout().encoded(a) ^ layout().encoded(b) == layout().encoded(a ^ b),
{
    lemma_encode_linear(layout(), a, b);
}

/// Single-bit correction: a codeword with bit `j` flipped still decodes to its nibble,
/// with the verdict parity bit error for bit 0 and single bit error for the others.
pub proof fn lemma_decode_single_flip(n: u8, j: u8)
    requires
        n < 16,
        j < 8,
    ensures
        layout().decoded(flip(layout().encoded(n), j)) == (
            n,
            if j == 0 {
                ErrorType::ParityBitError
            } else {
                ErrorType::SingleBitError
            },
        ),
{
    lemma_single_flip_corrected(layout(), n, j);
}

/// Double-bit detection: a codeword with two of its bits flipped decodes with the
/// verdict double bit error.
pub proof fn lemma_decode_double_flip(n: u8, i: u8, j: u8)
    requires
        i < 8,
        j < 8,
        i != j,
    ensures
        layout().decoded(flip(flip(layout().encoded(n), i), j)).1 == ErrorType::DoubleBitError,
{
    lemma_double_flip_detected(layout(), n, i, j);
}

} // verus!
