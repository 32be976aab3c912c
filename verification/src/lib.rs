//! Hamming(8,4): a code that carries four data bits in one byte, corrects any single
//! flipped bit and detects any two.
//!
//! A codeword holds the four data bits `d0..d3`, three check bits
//!
//! ```text
//! h0 = d2 ^ d1 ^ d0
//! h1 = d3 ^ d1 ^ d0
//! h2 = d3 ^ d2 ^ d0
//! ```
//!
//! and an overall parity bit `p`, the XOR of the other seven. Which bit of the byte
//! holds which of these eight is a [`layout::BitLayout`]. The modules
//! [`hamming_code`] and [`hamming_code_wikipedia`] are the codec for two fixed
//! layouts; [`codec`] is the codec for a layout chosen at run time. What the code
//! guarantees is proved, for every layout, in [`laws`].

mod bit_facts;
pub mod codec;
pub mod error_type;
pub mod hamming_code;
pub mod hamming_code_wikipedia;
pub mod laws;
pub mod layout;
