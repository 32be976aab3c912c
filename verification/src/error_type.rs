//! The four verdicts of decoding, and the table that picks one.

use vstd::prelude::*;

verus! {

/// What decoding found out about a received codeword.
#[derive(Debug, Clone, Copy, PartialEq, Eq, Structural)]
pub enum ErrorType {
    /// The codeword is consistent; the data can be trusted.
    NoError,
    /// One data or check bit was flipped and has been put right; the data can be trusted.
    SingleBitError,
    /// Only the overall parity bit was flipped; the data was untouched and can be trusted.
    ParityBitError,
    /// Two bits were flipped. This is detected but cannot be put right: the data that
    /// comes with this verdict is unreliable.
    DoubleBitError,
}

/// The verdict for a syndrome and an overall-parity check.
///
/// An odd number of flipped bits breaks the overall parity, an even number keeps it.
/// So a broken parity with a nonzero syndrome is one flipped data or check bit, a
/// broken parity alone is the parity bit itself, and a nonzero syndrome under a
/// sound parity is two flipped bits.
pub open spec fn verdict(syndrome: u8, parity_mismatch: bool) -> ErrorType {
    if parity_mismatch {
        if syndrome != 0 {
            ErrorType::SingleBitError
        } else {
            ErrorType::ParityBitError
        }
    } else {
        if syndrome != 0 {
            ErrorType::DoubleBitError
        } else {
            ErrorType::NoError
        }
    }
}

/// Classifies a received codeword from its syndrome and its overall-parity check.
pub fn classify(syndrome: u8, parity_mismatch: bool) -> (kind: ErrorType)
    ensures
        kind == verdict(syndrome, parity_mismatch),
{
    if parity_mismatch {
        if syndrome != 0 {
            ErrorType::SingleBitError
        } else {
            ErrorType::ParityBitError
        }
    } else {
        if syndrome != 0 {
            ErrorType::DoubleBitError
        } else {
            ErrorType::NoError
        }
    }
}

} // verus!
