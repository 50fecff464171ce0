//! Tests of secret-key format classification and decoding, run against the
//! real decoders.

use fashion_auth::keys::SecretKeyError;
use fashion_auth::keys::decode_secret_key;
use fashion_auth::keys::validate_secret_key;

// A well-formed encoded seed and its payload, from the encoding's own
// published vectors.
const SEED: &str = "SBU2RRGLXH3E5CQHTD3ODLDF2BWDCYUSSBLLZ5GNW7JXHDIYKXZWHOKR";
const SEED_BYTES: [u8; 32] = [
    0x69, 0xa8, 0xc4, 0xcb, 0xb9, 0xf6, 0x4e, 0x8a, 0x07, 0x98, 0xf6, 0xe1, 0xac, 0x65, 0xd0,
    0x6c, 0x31, 0x62, 0x92, 0x90, 0x56, 0xbc, 0xf4, 0xcd, 0xb7, 0xd3, 0x73, 0x8d, 0x18, 0x55,
    0xf3, 0x63,
];

#[test]
fn test_decode_hex_secret_key() {
    let hex_key = "69a8c4cbb9f64e8a0798f6e1ac65d06c3162929056bcf4cdb7d3738d1855f363";
    assert_eq!(hex_key.len(), 64);
    let bytes = decode_secret_key(hex_key).unwrap();
    assert_eq!(bytes, SEED_BYTES.to_vec());
    assert_eq!(bytes, hex::decode(hex_key).unwrap());
}

#[test]
fn test_decode_hex_secret_key_upper_case() {
    let hex_key = "00112233445566778899AABBCCDDEEFF00112233445566778899AABBCCDDEEFF";
    let bytes = decode_secret_key(hex_key).unwrap();
    assert_eq!(bytes.len(), 32);
    assert_eq!(bytes[0], 0x00);
    assert_eq!(bytes[1], 0x11);
    assert_eq!(bytes[10], 0xaa);
    assert_eq!(bytes[15], 0xff);
}

#[test]
fn test_decode_rejects_bad_hex() {
    let bad = "zz112233445566778899aabbccddeeff00112233445566778899aabbccddeeff";
    assert_eq!(bad.len(), 64);
    assert_eq!(decode_secret_key(bad), Err(SecretKeyError::InvalidHex));
}

#[test]
fn test_decode_strkey_seed() {
    let bytes = decode_secret_key(SEED).unwrap();
    assert_eq!(bytes, SEED_BYTES.to_vec());

    let parsed = stellar_strkey::ed25519::PrivateKey::from_string(SEED).unwrap();
    assert_eq!(bytes, parsed.0.to_vec());
}

#[test]
fn test_decode_rejects_bad_strkey() {
    assert_eq!(
        decode_secret_key("SNOTAREALSEED"),
        Err(SecretKeyError::InvalidStrkey)
    );
    // The prefix alone is not a seed either.
    assert_eq!(decode_secret_key("S"), Err(SecretKeyError::InvalidStrkey));
}

#[test]
fn test_decode_rejects_unknown_format() {
    assert_eq!(decode_secret_key(""), Err(SecretKeyError::UnknownFormat));
    assert_eq!(
        decode_secret_key("not-a-key"),
        Err(SecretKeyError::UnknownFormat)
    );
    // 63 hex characters: wrong length for the hex form, wrong prefix for the
    // seed form.
    assert_eq!(
        decode_secret_key("69a8c4cbb9f64e8a0798f6e1ac65d06c3162929056bcf4cdb7d3738d1855f36"),
        Err(SecretKeyError::UnknownFormat)
    );
}

#[test]
fn test_validate_secret_key() {
    assert!(validate_secret_key(SEED).is_ok());
    assert!(validate_secret_key(
        "69a8c4cbb9f64e8a0798f6e1ac65d06c3162929056bcf4cdb7d3738d1855f363"
    )
    .is_ok());
    assert_eq!(
        validate_secret_key("garbage"),
        Err(SecretKeyError::UnknownFormat)
    );
}
