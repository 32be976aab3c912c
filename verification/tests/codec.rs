use hamming84::error_type::ErrorType;
use hamming84::hamming_code;
use hamming84::hamming_code_wikipedia;
use hamming84::layout::BitLayout;

fn layouts() -> Vec<BitLayout> {
    vec![
        hamming_code::layout(),
        hamming_code_wikipedia::layout(),
        BitLayout::new(0, 1, 2, 3, 4, 5, 6, 7).unwrap(),
        BitLayout::new(6, 2, 7, 0, 3, 5, 1, 4).unwrap(),
    ]
}

#[test]
fn fixed_layouts_are_well_formed() {
    assert!(hamming_code::layout().is_valid());
    assert!(hamming_code_wikipedia::layout().is_valid());
    assert_eq!(
        hamming_code::layout(),
        BitLayout { d0: 4, d1: 5, d2: 6, d3: 7, h0: 3, h1: 2, h2: 1, p: 0 }
    );
    assert_eq!(
        hamming_code_wikipedia::layout(),
        BitLayout { d0: 1, d1: 2, d2: 3, d3: 5, h0: 4, h1: 6, h2: 7, p: 0 }
    );
}

#[test]
fn new_refuses_a_position_out_of_range() {
    assert_eq!(BitLayout::new(8, 1, 2, 3, 4, 5, 6, 7), None);
    assert_eq!(BitLayout::new(0, 1, 2, 3, 4, 5, 6, 255), None);
}

#[test]
fn new_refuses_a_position_taken_twice() {
    assert_eq!(BitLayout::new(0, 0, 2, 3, 4, 5, 6, 7), None);
    assert_eq!(BitLayout::new(0, 1, 2, 3, 4, 5, 7, 7), None);
    assert_eq!(BitLayout::new(3, 1, 2, 3, 4, 5, 6, 7), None);
    assert!(!BitLayout { d0: 0, d1: 1, d2: 2, d3: 3, h0: 4, h1: 5, h2: 6, p: 0 }.is_valid());
}

#[test]
fn new_keeps_the_positions() {
    assert_eq!(
        BitLayout::new(6, 2, 7, 0, 3, 5, 1, 4),
        Some(BitLayout { d0: 6, d1: 2, d2: 7, d3: 0, h0: 3, h1: 5, h2: 1, p: 4 })
    );
}

#[test]
fn codec_agrees_with_the_fixed_layouts() {
    let a = hamming_code::layout();
    let b = hamming_code_wikipedia::layout();
    for n in 0..=255u8 {
        assert_eq!(a.encode(n), hamming_code::hamming_encode(n));
        assert_eq!(b.encode(n), hamming_code_wikipedia::hamming_encode(n));
    }
    for x in 0..=255u8 {
        assert_eq!(a.examine(x), hamming_code::syndrome(x));
        assert_eq!(a.error_correct(x), hamming_code::hamming_error_correct(x));
        assert_eq!(a.decode(x), hamming_code::hamming_decode(x));
        assert_eq!(b.examine(x), hamming_code_wikipedia::syndrome(x));
        assert_eq!(b.error_correct(x), hamming_code_wikipedia::hamming_error_correct(x));
        assert_eq!(b.decode(x), hamming_code_wikipedia::hamming_decode(x));
    }
    for s in 0..8u8 {
        assert_eq!(a.syndrome_to_bit(s), hamming_code::syndrome_to_bit(s));
        assert_eq!(b.syndrome_to_bit(s), hamming_code_wikipedia::syndrome_to_bit(s));
    }
}

#[test]
fn codec_exact_values_in_a_layout_of_its_own() {
    // Data in the low half, check bits above, the parity bit at the top.
    let l = BitLayout::new(0, 1, 2, 3, 4, 5, 6, 7).unwrap();
    assert_eq!(l.encode(0b0000), 0b0000_0000);
    assert_eq!(l.encode(0b0001), 0b0111_0001);
    assert_eq!(l.encode(0b1000), 0b1110_1000);
    assert_eq!(l.encode(0b1111), 0b1111_1111);
    assert_eq!(l.examine(0b0111_0001), (0, false));
    assert_eq!(l.examine(0b0111_0000), (7, true));
    assert_eq!(l.examine(0b1111_0001), (0, true));
    assert_eq!(l.examine(0b0011_0001), (1, true));
    assert_eq!(l.syndrome_to_bit(1), 6);
    assert_eq!(l.error_correct(0b0011_0001), (0b0111_0001, ErrorType::SingleBitError));
    assert_eq!(l.decode(0b0011_0001), (0b0001, ErrorType::SingleBitError));
    assert_eq!(l.decode(0b1111_0001), (0b0001, ErrorType::ParityBitError));
    assert_eq!(l.decode(0b0111_0010).1, ErrorType::DoubleBitError);
}

#[test]
fn codec_round_trip_in_every_layout() {
    for l in layouts() {
        for n in 0..16u8 {
            assert_eq!(l.decode(l.encode(n)), (n, ErrorType::NoError));
            assert_eq!(l.examine(l.encode(n)), (0, false));
        }
    }
}

#[test]
fn codec_is_linear_in_every_layout() {
    for l in layouts() {
        for a in 0..16u8 {
            for b in 0..16u8 {
                assert_eq!(l.encode(a) ^ l.encode(b), l.encode(a ^ b));
            }
        }
    }
}

#[test]
fn codec_corrects_one_flip_in_every_layout() {
    for l in layouts() {
        for n in 0..16u8 {
            for j in 0..8u8 {
                let expected = if j == l.p {
                    ErrorType::ParityBitError
                } else {
                    ErrorType::SingleBitError
                };
                assert_eq!(l.decode(l.encode(n) ^ 1 << j), (n, expected));
                assert_eq!(l.error_correct(l.encode(n) ^ 1 << j), (l.encode(n), expected));
            }
        }
    }
}

#[test]
fn codec_detects_two_flips_in_every_layout() {
    for l in layouts() {
        let mut passed = 0;
        let mut cases = 0;
        for n in 0..16u8 {
            for i in 0..7u8 {
                for j in i + 1..8u8 {
                    let kind = l.decode(l.encode(n) ^ 1 << i ^ 1 << j).1;
                    assert_eq!(kind, ErrorType::DoubleBitError);
                    if kind == ErrorType::NoError || kind == ErrorType::SingleBitError {
                        passed += 1;
                    }
                    cases += 1;
                }
            }
        }
        assert_eq!(cases, 448);
        assert_eq!(passed, 0);
    }
}

#[test]
fn syndromes_and_positions_go_one_to_one() {
    for l in layouts() {
        let mut seen = [false; 8];
        for s in 0..8u8 {
            let position = l.syndrome_to_bit(s);
            assert!(position < 8);
            assert!(!seen[position as usize]);
            seen[position as usize] = true;
            assert_eq!(position == l.p, s == 0);
            assert_eq!(l.examine(1 << position).0, s);
        }
        assert_eq!(l.syndrome_to_bit(8), l.p);
        assert_eq!(l.syndrome_to_bit(255), l.p);
    }
}

#[test]
fn repair_gives_the_codeword_of_the_decoded_nibble() {
    for l in layouts() {
        for x in 0..=255u8 {
            let (y, kind) = l.error_correct(x);
            let (n, same) = l.decode(x);
            assert_eq!(kind, same);
            let (s, _) = l.examine(x);
            match kind {
                ErrorType::NoError => {
                    assert_eq!(y, x);
                    assert_eq!(y, l.encode(n));
                }
                ErrorType::DoubleBitError => {
                    assert_eq!(y, x ^ 1 << l.syndrome_to_bit(s));
                }
                _ => {
                    assert_eq!(y, l.encode(n));
                    assert_eq!(x, y ^ 1 << l.syndrome_to_bit(s));
                }
            }
        }
    }
}
