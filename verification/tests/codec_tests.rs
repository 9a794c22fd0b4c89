use codecat::codec::{
    bcs_encode_bytes, bcs_encode_string, decode_private_key, encode_uleb128, hex_decode,
    validate_module_address,
};
use codecat::errors::RegistryError;

#[test]
fn uleb128_zero() {
    assert_eq!(encode_uleb128(0), vec![0u8]);
}

#[test]
fn uleb128_small_values() {
    assert_eq!(encode_uleb128(5), vec![5u8]);
    assert_eq!(encode_uleb128(127), vec![127u8]);
}

#[test]
fn uleb128_boundary_values() {
    assert_eq!(encode_uleb128(128), vec![0x80u8, 0x01]);
    assert_eq!(encode_uleb128(300), vec![0xacu8, 0x02]);
    assert_eq!(encode_uleb128(16384), vec![0x80u8, 0x80, 0x01]);
}

#[test]
fn bcs_bytes_matches_reference_crate() {
    let samples: Vec<Vec<u8>> = vec![
        vec![],
        vec![0u8],
        vec![1u8, 2, 3],
        vec![0xffu8; 127],
        vec![0xabu8; 128],
        vec![7u8; 300],
    ];
    for v in samples {
        let expected = bcs::to_bytes(&v).unwrap();
        assert_eq!(bcs_encode_bytes(&v), expected);
    }
}

#[test]
fn bcs_string_matches_reference_crate() {
    for s in ["", "alpha", "https://example.com/a", "é", "naïve✓"] {
        let expected = bcs::to_bytes(&s.as_bytes().to_vec()).unwrap();
        assert_eq!(bcs_encode_string(s), expected);
    }
}

#[test]
fn bcs_string_alpha_exact_bytes() {
    assert_eq!(bcs_encode_string("alpha"), vec![5u8, b'a', b'l', b'p', b'h', b'a']);
}

#[test]
fn bcs_string_empty_exact_bytes() {
    assert_eq!(bcs_encode_string(""), vec![0u8]);
}

#[test]
fn bcs_string_multibyte_exact_bytes() {
    assert_eq!(bcs_encode_string("é"), vec![2u8, 0xc3, 0xa9]);
}

#[test]
fn hex_decode_round_trips_with_reference_crate() {
    for s in ["", "00", "00ff", "deadbeef", "ABCDEF01", "aAbBcC"] {
        let expected = hex::decode(s).unwrap();
        assert_eq!(hex_decode(s).unwrap(), expected);
    }
}

#[test]
fn hex_decode_rejects_odd_length() {
    assert_eq!(hex_decode("abc"), Err(RegistryError::KeyDecodeError));
}

#[test]
fn hex_decode_rejects_non_hex_characters() {
    assert_eq!(hex_decode("zz"), Err(RegistryError::KeyDecodeError));
    assert_eq!(hex_decode("0x"), Err(RegistryError::KeyDecodeError));
    assert!(hex::decode("zz").is_err());
}

#[test]
fn private_key_must_be_32_bytes() {
    let good = "ab".repeat(32);
    assert_eq!(decode_private_key(&good).unwrap(), vec![0xabu8; 32]);
    let short = "ab".repeat(31);
    assert_eq!(decode_private_key(&short), Err(RegistryError::KeyDecodeError));
    let long = "ab".repeat(33);
    assert_eq!(decode_private_key(&long), Err(RegistryError::KeyDecodeError));
    assert_eq!(decode_private_key("not hex"), Err(RegistryError::KeyDecodeError));
}

#[test]
fn module_address_validation() {
    assert_eq!(validate_module_address("0xabc"), Ok(()));
    assert_eq!(validate_module_address("0x1"), Ok(()));
    assert_eq!(validate_module_address(""), Err(RegistryError::ConfigError));
    assert_eq!(validate_module_address("0x"), Err(RegistryError::ConfigError));
    assert_eq!(validate_module_address("abc"), Err(RegistryError::ConfigError));
    assert_eq!(validate_module_address("0xg"), Err(RegistryError::ConfigError));
}
