use blake2b_simd::State as Blake2b;
use gas_engine::proof_params::{
    check_parameter_bytes, check_parameter_digest, ParameterCheck, ParameterData, ParameterError,
    PROOF_DIGEST_LEN,
};

fn record(digest: [u8; 16]) -> ParameterData {
    ParameterData {
        cid: "bafkqaaa".to_string(),
        digest,
        sector_size: 32,
    }
}

#[test]
fn test_proof_file_check() {
    let data = b"Cthulhu fhtagn!";

    let mut hasher = Blake2b::new();
    hasher.update(data);
    let digest = hasher
        .finalize()
        .as_bytes()
        .get(..PROOF_DIGEST_LEN)
        .unwrap()
        .to_owned();

    let param_data = ParameterData {
        cid: String::new(),
        digest: digest.try_into().unwrap(),
        sector_size: 32,
    };

    check_parameter_bytes(data, &param_data, false).unwrap()
}

#[test]
fn parameter_digest_is_the_start_of_blake2b() {
    let digest = [
        0x2a, 0x6a, 0xa3, 0xa7, 0x9d, 0x6c, 0x10, 0xc6, 0xb3, 0x4c, 0xf8, 0x26, 0x92, 0xf2, 0x71,
        0x1f,
    ];
    assert_eq!(
        check_parameter_bytes(b"Cthulhu fhtagn!", &record(digest), false),
        Ok(())
    );
    let mut check = ParameterCheck::new();
    check.absorb(b"Cthulhu ");
    check.absorb(b"");
    check.absorb(b"fhtagn!");
    assert_eq!(check.finish(&record(digest)), Ok(()));
}

#[test]
fn parameter_mismatch_reports_both_digests() {
    let digest = [
        0x2a, 0x6a, 0xa3, 0xa7, 0x9d, 0x6c, 0x10, 0xc6, 0xb3, 0x4c, 0xf8, 0x26, 0x92, 0xf2, 0x71,
        0x1f,
    ];
    assert_eq!(
        check_parameter_bytes(b"Cthulhu fhtagn?", &record([0; 16]), true),
        Ok(())
    );
    match check_parameter_bytes(b"Cthulhu fhtagn!", &record([0; 16]), false) {
        Err(ParameterError::ChecksumMismatch { actual, expected }) => {
            assert_eq!(actual, digest);
            assert_eq!(expected, [0u8; 16]);
        }
        other => panic!("unexpected outcome {:?}", other),
    }
    assert!(check_parameter_bytes(b"Cthulhu fhtagn?", &record(digest), false).is_err());
}

#[test]
fn parameter_digest_check_looks_at_sixteen_bytes() {
    let mut hash = vec![7u8; 64];
    let info = record([7; 16]);
    assert_eq!(check_parameter_digest(&info, &hash), Ok(()));
    hash[16] = 0;
    assert_eq!(check_parameter_digest(&info, &hash), Ok(()));
    hash[15] = 0;
    assert!(matches!(
        check_parameter_digest(&info, &hash),
        Err(ParameterError::ChecksumMismatch { .. })
    ));
    assert_eq!(
        check_parameter_digest(&info, &hash[..15]),
        Err(ParameterError::InvalidDigestLength)
    );
    assert_eq!(check_parameter_digest(&info, &[7u8; 16]), Ok(()));
}
