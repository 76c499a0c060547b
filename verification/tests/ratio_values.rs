use eracer_config::error_code::ErrorCode;
use eracer_config::ratio::{Ratio, RATIO_LENGTH};

#[test]
fn ratio_length_is_three() {
    assert_eq!(RATIO_LENGTH, 3);
}

#[test]
fn ratio_hex_values() {
    assert_eq!(Ratio::Original.hex(), [0xcd, 0xcc, 0x4c]);
    assert_eq!(Ratio::W5H4.hex(), [0x66, 0x66, 0x66]);
    assert_eq!(Ratio::W25H16.hex(), [0x3b, 0xdf, 0x87]);
    assert_eq!(Ratio::W16H10.hex(), [0x61, 0xe0, 0x89]);
    assert_eq!(Ratio::W15H9.hex(), [0xba, 0x2c, 0x8e]);
    assert_eq!(Ratio::W16H9.hex(), [0xe3, 0xa5, 0x93]);
    assert_eq!(Ratio::W21H9.hex(), [0x29, 0x5c, 0xaf]);
}

#[test]
fn ratio_hex_roundtrip() {
    let all = [
        Ratio::Original,
        Ratio::W5H4,
        Ratio::W25H16,
        Ratio::W16H10,
        Ratio::W15H9,
        Ratio::W16H9,
        Ratio::W21H9,
    ];
    for r in all {
        assert_eq!(Ratio::from_hex(&r.hex()).unwrap(), r);
    }
    assert!(matches!(
        Ratio::from_hex(&[0x00, 0x01, 0x02]),
        Err(ErrorCode::UnknownRatio)
    ));
}

#[test]
fn ratio_values_and_text() {
    assert_eq!(Ratio::Original.value(), (5, 4));
    assert_eq!(Ratio::W5H4.value(), (5, 4));
    assert_eq!(Ratio::W25H16.value(), (25, 16));
    assert_eq!(Ratio::W16H10.value(), (16, 10));
    assert_eq!(Ratio::W15H9.value(), (15, 9));
    assert_eq!(Ratio::W16H9.value(), (16, 9));
    assert_eq!(Ratio::W21H9.value(), (21, 9));
    assert_eq!(Ratio::W21H9.w(), 21);
    assert_eq!(Ratio::W21H9.h(), 9);
    assert_eq!(Ratio::W16H10.text(), "16:10");
    assert_eq!(Ratio::Original.text(), "5:4");
}

#[test]
fn ratio_variants_enumeration() {
    let mut it = Ratio::variants();
    let mut seen = Vec::new();
    while let Some(r) = it.next() {
        seen.push(r);
    }
    assert_eq!(seen.len(), 7);
    assert!(matches!(seen[0], Ratio::Original));
    assert!(matches!(seen[1], Ratio::W5H4));
    assert!(matches!(seen[6], Ratio::W21H9));
    assert!(it.next().is_none());
}

#[test]
fn error_codes_and_messages() {
    assert_eq!(ErrorCode::RegistryEntryNotFound.code(), 2);
    assert_eq!(ErrorCode::NotFoundBinary("a".to_string()).code(), 11);
    assert_eq!(
        ErrorCode::IncorrectHashOfBinary("b".to_string()).code(),
        12
    );
    assert_eq!(ErrorCode::UnknownRatio.code(), 14);
    assert_eq!(ErrorCode::UnknownRatio.message(), "Unknown aspect ratio");
    let m = ErrorCode::IncorrectHashOfBinary("game.exe".to_string()).message();
    assert_eq!(
        m,
        "Incorrect hash of a binary `game.exe`. Is path to `eracer.exe` correct?"
    );
}
