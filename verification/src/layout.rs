//! The model of the code: the codeword of a nibble, and the syndrome, the verdict and
//! the repair of a received byte, as functions of the byte and of the eight bit
//! positions of a layout.

use vstd::prelude::*;
use crate::error_type::{verdict, ErrorType};

verus! {

/// Bit `i` of `x`, as the number 0 or 1.
pub open spec fn bit(x: u8, i: u8) -> u8 {
    (x >> i) & 1
}

/// `x` with bit `i` flipped.
pub open spec fn flip(x: u8, i: u8) -> u8 {
    x ^ (1u8 << i)
}

/// The check bit over the data bits 2, 1 and 0 of the nibble `n`.
pub open spec fn check0(n: u8) -> u8 {
    bit(n, 2) ^ bit(n, 1) ^ bit(n, 0)
}

/// The check bit over the data bits 3, 1 and 0 of the nibble `n`.
pub open spec fn check1(n: u8) -> u8 {
    bit(n, 3) ^ bit(n, 1) ^ bit(n, 0)
}

/// The check bit over the data bits 3, 2 and 0 of the nibble `n`.
pub open spec fn check2(n: u8) -> u8 {
    bit(n, 3) ^ bit(n, 2) ^ bit(n, 0)
}

/// The overall parity bit of the nibble `n`: the XOR of its four data bits and its
/// three check bits.
pub open spec fn overall(n: u8) -> u8 {
    bit(n, 3) ^ bit(n, 2) ^ bit(n, 1) ^ bit(n, 0) ^ check2(n) ^ check1(n) ^ check0(n)
}

/// Eight bit positions, each below 8 and no two of them equal: every bit of a byte
/// is taken once.
pub open spec fn positions_valid(
    d0: u8,
    d1: u8,
    d2: u8,
    d3: u8,
    h0: u8,
    h1: u8,
    h2: u8,
    p: u8,
) -> bool {
    &&& d0 < 8 && d1 < 8 && d2 < 8 && d3 < 8 && h0 < 8 && h1 < 8 && h2 < 8 && p < 8
    &&& d0 != d1 && d0 != d2 && d0 != d3 && d0 != h0 && d0 != h1 && d0 != h2 && d0 != p
    &&& d1 != d2 && d1 != d3 && d1 != h0 && d1 != h1 && d1 != h2 && d1 != p
    &&& d2 != d3 && d2 != h0 && d2 != h1 && d2 != h2 && d2 != p
    &&& d3 != h0 && d3 != h1 && d3 != h2 && d3 != p
    &&& h0 != h1 && h0 != h2 && h0 != p
    &&& h1 != h2 && h1 != p
    &&& h2 != p
}

/// The codeword of the nibble `n`: each data bit, each check bit and the overall
/// parity bit, at its position.
pub open spec fn codeword_at(
    n: u8,
    d0: u8,
    d1: u8,
    d2: u8,
    d3: u8,
    h0: u8,
    h1: u8,
    h2: u8,
    p: u8,
) -> u8 {
    bit(n, 0) << d0 | bit(n, 1) << d1 | bit(n, 2) << d2 | bit(n, 3) << d3
        | check0(n) << h0 | check1(n) << h1 | check2(n) << h2
        | overall(n) << p
}

/// The syndrome of the byte `x`: three bits, one for each check bit, set where the
/// check bit disagrees with the data bits that it covers. The disagreement of `h0`
/// has weight 4, that of `h1` weight 2, that of `h2` weight 1.
pub open spec fn syndrome_at(x: u8, d0: u8, d1: u8, d2: u8, d3: u8, h0: u8, h1: u8, h2: u8) -> u8 {
    (bit(x, d2) ^ bit(x, d1) ^ bit(x, d0) ^ bit(x, h0)) << 2
        | (bit(x, d3) ^ bit(x, d1) ^ bit(x, d0) ^ bit(x, h1)) << 1
        | (bit(x, d3) ^ bit(x, d2) ^ bit(x, d0) ^ bit(x, h2))
}

/// Whether the overall parity bit of the byte `x` differs from the XOR of its other
/// seven bits.
pub open spec fn parity_mismatch_at(
    x: u8,
    d0: u8,
    d1: u8,
    d2: u8,
    d3: u8,
    h0: u8,
    h1: u8,
    h2: u8,
    p: u8,
) -> bool {
    bit(x, p) != bit(x, d3) ^ bit(x, d2) ^ bit(x, d1) ^ bit(x, d0) ^ bit(x, h2) ^ bit(x, h1)
        ^ bit(x, h0)
}

/// The position whose flip, and no other's, changes the syndrome by `s`: the bit that
/// is covered by exactly the check bits whose weights add up to `s`. The overall
/// parity bit is covered by none.
pub open spec fn position_at(
    s: u8,
    d0: u8,
    d1: u8,
    d2: u8,
    d3: u8,
    h0: u8,
    h1: u8,
    h2: u8,
    p: u8,
) -> u8 {
    if s == 1 {
        h2
    } else if s == 2 {
        h1
    } else if s == 3 {
        d3
    } else if s == 4 {
        h0
    } else if s == 5 {
        d2
    } else if s == 6 {
        d1
    } else if s == 7 {
        d0
    } else {
        p
    }
}

/// The byte `x` after the repair that its syndrome and its overall parity call for:
/// `x` itself where both are sound, else `x` with the bit flipped to which the
/// syndrome points.
pub open spec fn repaired_at(
    x: u8,
    d0: u8,
    d1: u8,
    d2: u8,
    d3: u8,
    h0: u8,
    h1: u8,
    h2: u8,
    p: u8,
) -> u8 {
    let s: u8 = syndrome_at(x, d0, d1, d2, d3, h0, h1, h2);
    if s == 0 && !parity_mismatch_at(x, d0, d1, d2, d3, h0, h1, h2, p) {
        x
    } else {
        flip(x, position_at(s, d0, d1, d2, d3, h0, h1, h2, p))
    }
}

/// The nibble made of the four data bits of the byte `x`.
pub open spec fn data_at(x: u8, d0: u8, d1: u8, d2: u8, d3: u8) -> u8 {
    bit(x, d3) << 3 | bit(x, d2) << 2 | bit(x, d1) << 1 | bit(x, d0)
}

/// Which bit of a codeword holds which logical bit: the data bits `d0..d3` (`d0` the
/// least significant bit of the nibble), the check bits `h0..h2` and the overall
/// parity bit `p`. Each field is a bit position, 0 for the least significant bit of
/// the byte.
#[derive(Debug, Clone, Copy, PartialEq, Eq, Structural)]
pub struct BitLayout {
    pub d0: u8,
    pub d1: u8,
    pub d2: u8,
    pub d3: u8,
    pub h0: u8,
    pub h1: u8,
    pub h2: u8,
    pub p: u8,
}

impl BitLayout {
    /// A layout is well formed when it gives every bit of the byte to one logical bit.
    pub open spec fn wf(self) -> bool {
        positions_valid(self.d0, self.d1, self.d2, self.d3, self.h0, self.h1, self.h2, self.p)
    }

    /// The codeword of the nibble `n`. Only the low four bits of `n` count.
    pub open spec fn encoded(self, n: u8) -> u8 {
        codeword_at(n, self.d0, self.d1, self.d2, self.d3, self.h0, self.h1, self.h2, self.p)
    }

    /// The syndrome of the received byte `x`; see [`syndrome_at`].
    pub open spec fn syndrome(self, x: u8) -> u8 {
        syndrome_at(x, self.d0, self.d1, self.d2, self.d3, self.h0, self.h1, self.h2)
    }

    /// Whether the overall parity of the received byte `x` is broken.
    pub open spec fn parity_mismatch(self, x: u8) -> bool {
        parity_mismatch_at(x, self.d0, self.d1, self.d2, self.d3, self.h0, self.h1, self.h2, self.p)
    }

    /// The bit position to which the syndrome `s` points; see [`position_at`].
    pub open spec fn error_position(self, s: u8) -> u8 {
        position_at(s, self.d0, self.d1, self.d2, self.d3, self.h0, self.h1, self.h2, self.p)
    }

    /// The verdict on the received byte `x`.
    pub open spec fn kind(self, x: u8) -> ErrorType {
        verdict(self.syndrome(x), self.parity_mismatch(x))
    }

    /// The received byte `x` after repair; see [`repaired_at`]. For a
    /// [`ErrorType::DoubleBitError`] this is a guess and no codeword to rely on.
    pub open spec fn corrected(self, x: u8) -> u8 {
        repaired_at(x, self.d0, self.d1, self.d2, self.d3, self.h0, self.h1, self.h2, self.p)
    }

    /// The nibble in the data bits of the byte `x`.
    pub open spec fn data(self, x: u8) -> u8 {
        data_at(x, self.d0, self.d1, self.d2, self.d3)
    }

    /// What decoding the received byte `x` gives: the data bits of the repaired byte,
    /// and the verdict.
    pub open spec fn decoded(self, x: u8) -> (u8, ErrorType) {
        (self.data(self.corrected(x)), self.kind(x))
    }
}

} // verus!
