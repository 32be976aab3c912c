use hamming84::error_type::{classify, ErrorType};

#[test]
fn classify_follows_the_decision_table() {
    assert_eq!(classify(0, false), ErrorType::NoError);
    assert_eq!(classify(0, true), ErrorType::ParityBitError);
    for s in 1..8u8 {
        assert_eq!(classify(s, true), ErrorType::SingleBitError);
        assert_eq!(classify(s, false), ErrorType::DoubleBitError);
    }
}

#[test]
fn error_types_compare_and_copy() {
    let kind = ErrorType::SingleBitError;
    let copy = kind;
    assert_eq!(kind, copy);
    assert_ne!(ErrorType::NoError, ErrorType::ParityBitError);
    assert_eq!(format!("{:?}", ErrorType::DoubleBitError), "DoubleBitError");
}
