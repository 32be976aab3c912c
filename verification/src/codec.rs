//! The codec for a layout that is chosen at run time.

use vstd::prelude::*;
use crate::error_type::{classify, ErrorType};
use crate::layout::{bit, positions_valid, BitLayout};

verus! {

/// Bit `i` of `x`, as the number 0 or 1.
fn bit_of(x: u8, i: u8) -> (b: u8)
    requires
        i < 8,
    ensures
        b == bit(x, i),
        b <= 1,
{
    assert((x >> i) & 1 <= 1) by (bit_vector);
    (x >> i) & 1
}

impl BitLayout {
    /// The layout with the given positions, where they make a well-formed one: each
    /// below 8 and no two of them equal.
    pub fn new(
        d0: u8,
        d1: u8,
        d2: u8,
        d3: u8,
        h0: u8,
        h1: u8,
        h2: u8,
        p: u8,
    ) -> (r: Option<BitLayout>)
        ensures
            r.is_some() <==> positions_valid(d0, d1, d2, d3, h0, h1, h2, p),
            r.is_some() ==> r.unwrap() == (BitLayout { d0, d1, d2, d3, h0, h1, h2, p }),
    {
        let l = BitLayout { d0, d1, d2, d3, h0, h1, h2, p };
        if l.is_valid() {
            Some(l)
        } else {
            None
        }
    }

    /// Whether the layout is well formed.
    pub fn is_valid(&self) -> (ok: bool)
        ensures
            ok == self.wf(),
    {
        self.d0 < 8 && self.d1 < 8 && self.d2 < 8 && self.d3 < 8
            && self.h0 < 8 && self.h1 < 8 && self.h2 < 8 && self.p < 8
            && self.d0 != self.d1 && self.d0 != self.d2 && self.d0 != self.d3
            && self.d0 != self.h0 && self.d0 != self.h1 && self.d0 != self.h2 && self.d0 != self.p
            && self.d1 != self.d2 && self.d1 != self.d3
            && self.d1 != self.h0 && self.d1 != self.h1 && self.d1 != self.h2 && self.d1 != self.p
            && self.d2 != self.d3
            && self.d2 != self.h0 && self.d2 != self.h1 && self.d2 != self.h2 && self.d2 != self.p
            && self.d3 != self.h0 && self.d3 != self.h1 && self.d3 != self.h2 && self.d3 != self.p
            && self.h0 != self.h1 && self.h0 != self.h2 && self.h0 != self.p
            && self.h1 != self.h2 && self.h1 != self.p
            && self.h2 != self.p
    }

    /// Encodes the nibble `n`. Only the low four bits of `n` are read.
    pub fn encode(&self, n: u8) -> (x: u8)
        requires
            self.wf(),
        ensures
            x == self.encoded(n),
    {
        let a0: u8 = bit_of(n, 0);
        let a1: u8 = bit_of(n, 1);
        let a2: u8 = bit_of(n, 2);
        let a3: u8 = bit_of(n, 3);
        let c0: u8 = a2 ^ a1 ^ a0;
        let c1: u8 = a3 ^ a1 ^ a0;
        let c2: u8 = a3 ^ a2 ^ a0;
        let q: u8 = a3 ^ a2 ^ a1 ^ a0 ^ c2 ^ c1 ^ c0;
        a0 << self.d0 | a1 << self.d1 | a2 << self.d2 | a3 << self.d3
            | c0 << self.h0 | c1 << self.h1 | c2 << self.h2
            | q << self.p
    }

    /// The syndrome of the received byte `x`, and whether its overall parity is broken.
    pub fn examine(&self, x: u8) -> (r: (u8, bool))
        requires
            self.wf(),
        ensures
            r.0 == self.syndrome(x),
            r.1 == self.parity_mismatch(x),
            r.0 < 8,
    {
        let a0: u8 = bit_of(x, self.d0);
        let a1: u8 = bit_of(x, self.d1);
        let a2: u8 = bit_of(x, self.d2);
        let a3: u8 = bit_of(x, self.d3);
        let c0: u8 = bit_of(x, self.h0);
        let c1: u8 = bit_of(x, self.h1);
        let c2: u8 = bit_of(x, self.h2);
        let q: u8 = bit_of(x, self.p);
        let s0: u8 = a2 ^ a1 ^ a0 ^ c0;
        let s1: u8 = a3 ^ a1 ^ a0 ^ c1;
        let s2: u8 = a3 ^ a2 ^ a0 ^ c2;
        assert((s0 << 2 | s1 << 1 | s2) < 8) by (bit_vector)
            requires
                s0 == a2 ^ a1 ^ a0 ^ c0,
                s1 == a3 ^ a1 ^ a0 ^ c1,
                s2 == a3 ^ a2 ^ a0 ^ c2,
                a0 <= 1 && a1 <= 1 && a2 <= 1 && a3 <= 1 && c0 <= 1 && c1 <= 1 && c2 <= 1,
        ;
        (s0 << 2 | s1 << 1 | s2, q != a3 ^ a2 ^ a1 ^ a0 ^ c2 ^ c1 ^ c0)
    }

    /// The bit position to which the syndrome `s` points. Zero, and whatever is no
    /// syndrome, points to the overall parity bit.
    pub fn syndrome_to_bit(&self, s: u8) -> (position: u8)
        ensures
            position == self.error_position(s),
    {
        match s {
            1 => self.h2,
            2 => self.h1,
            3 => self.d3,
            4 => self.h0,
            5 => self.d2,
            6 => self.d1,
            7 => self.d0,
            _ => self.p,
        }
    }

    /// Repairs the received byte `x` as far as it can be repaired, and says what was
    /// found. With [`ErrorType::DoubleBitError`] the byte that comes back is a guess.
    pub fn error_correct(&self, x: u8) -> (r: (u8, ErrorType))
        requires
            self.wf(),
        ensures
            r.0 == self.corrected(x),
            r.1 == self.kind(x),
    {
        let (s, parity_mismatch) = self.examine(x);
        let kind = classify(s, parity_mismatch);
        match kind {
            ErrorType::NoError => (x, kind),
            _ => (x ^ 1 << self.syndrome_to_bit(s), kind),
        }
    }

    /// Decodes the received byte `x` into its nibble, and says what was found. With
    /// [`ErrorType::DoubleBitError`] the nibble is unreliable.
    pub fn decode(&self, x: u8) -> (r: (u8, ErrorType))
        requires
            self.wf(),
        ensures
            r == self.decoded(x),
            r.0 < 16,
    {
        let (y, kind) = self.error_correct(x);
        let a0: u8 = bit_of(y, self.d0);
        let a1: u8 = bit_of(y, self.d1);
        let a2: u8 = bit_of(y, self.d2);
        let a3: u8 = bit_of(y, self.d3);
        assert((a3 << 3 | a2 << 2 | a1 << 1 | a0) < 16) by (bit_vector)
            requires
                a0 <= 1 && a1 <= 1 && a2 <= 1 && a3 <= 1,
        ;
        (a3 << 3 | a2 << 2 | a1 << 1 | a0, kind)
    }
}

} // verus!
