use hamming84::error_type::ErrorType;
use hamming84::hamming_code_wikipedia::{
    hamming_decode, hamming_encode, hamming_error_correct, syndrome, syndrome_to_bit,
};

const EXPECTED_X: [u8; 16] = [
    0, 0b11010010, 0b01010101, 0b10000111, 0b10011001, 0b01001011, 0b11001100, 0b00011110,
    0b11100001, 0b00110011, 0b10110100, 0b01100110, 0b01111000, 0b10101010, 0b00101101, 0xFF,
];

#[test]
fn wikipedia_test_expected_x() {
    for n in 0..16u8 {
        assert_eq!(hamming_encode(n), EXPECTED_X[n as usize]);
    }
}

#[test]
fn wikipedia_test_no_error() {
    for n in 0..16u8 {
        let (decoded, error_type) = hamming_decode(hamming_encode(n));
        assert_eq!(decoded, n);
        assert_eq!(error_type, ErrorType::NoError);
    }
}

#[test]
fn wikipedia_test_single_bit_or_parity_error() {
    for n in 0..16u8 {
        for bit in 0..8 {
            let errored = hamming_encode(n) ^ 1 << bit;
            let (decoded, error_type) = hamming_decode(errored);
            assert_eq!(decoded, n);
            if bit == 0 {
                assert_eq!(error_type, ErrorType::ParityBitError);
            } else {
                assert_eq!(error_type, ErrorType::SingleBitError);
            }
        }
    }
}

#[test]
fn wikipedia_test_double_bit_error() {
    let mut count = 0;
    for n in 0..16u8 {
        for i in 0..7u8 {
            for j in i + 1..8u8 {
                let e = 1 << i | 1 << j;
                let (_, error_type) = hamming_decode(hamming_encode(n) ^ e);
                assert_eq!(error_type, ErrorType::DoubleBitError);
                count += 1;
            }
        }
    }
    assert_eq!(count, 448);
}

#[test]
fn wikipedia_encode_is_linear() {
    for a in 0..16u8 {
        for b in 0..16u8 {
            assert_eq!(hamming_encode(a) ^ hamming_encode(b), hamming_encode(a ^ b));
        }
    }
}

#[test]
fn wikipedia_encode_reads_the_low_nibble_only() {
    for n in 0..=255u8 {
        assert_eq!(hamming_encode(n), hamming_encode(n & 0x0F));
    }
}

#[test]
fn wikipedia_syndrome_of_a_codeword_is_zero() {
    for n in 0..16u8 {
        assert_eq!(syndrome(hamming_encode(n)), (0, false));
    }
}

#[test]
fn wikipedia_syndrome_is_eight_less_the_flipped_bit() {
    for n in 0..16u8 {
        for j in 1..8u8 {
            assert_eq!(syndrome(hamming_encode(n) ^ 1 << j), (8 - j, true));
            assert_eq!(syndrome_to_bit(8 - j), j);
        }
        assert_eq!(syndrome(hamming_encode(n) ^ 1), (0, true));
        assert_eq!(syndrome_to_bit(0), 0);
    }
}

#[test]
fn wikipedia_error_correct_restores_the_codeword() {
    for n in 0..16u8 {
        let c = hamming_encode(n);
        assert_eq!(hamming_error_correct(c), (c, ErrorType::NoError));
        assert_eq!(hamming_error_correct(c ^ 1), (c, ErrorType::ParityBitError));
        for j in 1..8u8 {
            assert_eq!(hamming_error_correct(c ^ 1 << j), (c, ErrorType::SingleBitError));
        }
    }
}

#[test]
fn wikipedia_error_correct_flips_one_bit_on_a_double_error() {
    // Bits 7 and 6 flipped: syndromes 1 and 2 add up to 3, which points to bit 5.
    assert_eq!(hamming_error_correct(0b1100_0000), (0b1110_0000, ErrorType::DoubleBitError));
    assert_eq!(hamming_decode(0b1100_0000), (0b1000, ErrorType::DoubleBitError));
}

#[test]
fn wikipedia_decode_picks_the_data_bits() {
    assert_eq!(hamming_decode(0b11010010), (0b0001, ErrorType::NoError));
    assert_eq!(hamming_decode(0b11100001), (0b1000, ErrorType::NoError));
    assert_eq!(hamming_decode(0b11010010 ^ 0b0100_0000), (0b0001, ErrorType::SingleBitError));
}

#[test]
fn wikipedia_every_byte_has_one_verdict() {
    let mut counts = [0usize; 4];
    for x in 0..=255u8 {
        let (n, kind) = hamming_decode(x);
        assert!(n < 16);
        match kind {
            ErrorType::NoError => counts[0] += 1,
            ErrorType::ParityBitError => counts[1] += 1,
            ErrorType::SingleBitError => counts[2] += 1,
            ErrorType::DoubleBitError => counts[3] += 1,
        }
    }
    assert_eq!(counts, [16, 16, 112, 112]);
}
