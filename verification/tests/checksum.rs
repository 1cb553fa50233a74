use gas_engine::checksum::{checksum_from_file, validate_checksum, ChecksumError, HexError};

#[test]
fn checksum_from_file_test() {
    assert_eq!(
        checksum_from_file(b"00aaff -", 3).unwrap(),
        [0x00, 0xaa, 0xff]
    );
    assert_eq!(
        checksum_from_file(b"00aaff", 3).unwrap(),
        [0x00, 0xaa, 0xff]
    );

    assert!(checksum_from_file(b"00aaff -", 4).is_err());
    assert!(checksum_from_file(b"cthulhuu", 4).is_err());
}

#[test]
fn validate_checksum_test() {
    assert!(validate_checksum(b"1234", b"1234").is_ok());
    assert!(validate_checksum(b"1234", b"1235").is_err());
}

#[test]
fn checksum_from_file_reports_short_content() {
    assert_eq!(
        checksum_from_file(b"00aa", 3),
        Err(ChecksumError::InvalidContent {
            content_length: 4,
            digest_length: 3
        })
    );
    assert_eq!(
        checksum_from_file(b"", usize::MAX),
        Err(ChecksumError::InvalidContent {
            content_length: 0,
            digest_length: usize::MAX
        })
    );
}

#[test]
fn checksum_from_file_reports_first_bad_digit() {
    assert_eq!(
        checksum_from_file(b"0ag!ff", 3),
        Err(ChecksumError::Hex(HexError::InvalidHexCharacter {
            c: 'g',
            index: 2
        }))
    );
    // only the digits of the digest are looked at
    assert_eq!(checksum_from_file(b"0A1bzz", 2).unwrap(), [0x0a, 0x1b]);
    assert_eq!(checksum_from_file(b"anything", 0).unwrap(), Vec::<u8>::new());
}

#[test]
fn validate_checksum_mismatch_carries_both_digests() {
    assert_eq!(
        validate_checksum(&[0x00, 0xaa, 0xff], &[0x12, 0x0f]),
        Err(ChecksumError::Mismatch {
            actual: "120f".to_string(),
            expected: "00aaff".to_string(),
        })
    );
    assert_eq!(validate_checksum(&[], &[]), Ok(()));
}
