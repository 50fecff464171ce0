//! Secret-key format handling for the signing path.
//!
//! An administrator or owner secret key arrives in one of two textual forms:
//! 64 hexadecimal characters, or the ledger's encoded seed form beginning
//! with `S`. Classifying the form and decoding it to the 32 raw seed bytes
//! is verified here; the two decoders themselves are outside crates, called
//! through trusted wrappers.

use vstd::prelude::*;
use vstd::string::StrSliceExecFns;

verus! {

/// Why a secret key was rejected.
#[derive(Clone, Copy, Debug, PartialEq, Eq, Structural)]
pub enum SecretKeyError {
    /// 64 characters long, but not a string of hexadecimal digits.
    InvalidHex,
    /// Begins with `S`, but is not a well-formed encoded seed.
    InvalidStrkey,
    /// Neither the hexadecimal nor the `S` form.
    UnknownFormat,
}

/// A hexadecimal digit, either case.
pub open spec fn is_hex_digit(c: char) -> bool {
    (48 <= c as u32 <= 57) || (97 <= c as u32 <= 102) || (65 <= c as u32 <= 70)
}

/// The value of one hexadecimal digit.
pub open spec fn hex_digit_value(c: char) -> int {
    if 48 <= c as u32 <= 57 {
        c as u32 - 48
    } else if 97 <= c as u32 <= 102 {
        c as u32 - 87
    } else {
        c as u32 - 55
    }
}

/// A well-formed hexadecimal string: even length, digits throughout.
pub open spec fn is_hex_string(s: Seq<char>) -> bool {
    s.len() % 2 == 0 && forall|i: int| 0 <= i < s.len() ==> is_hex_digit(s[i])
}

/// The bytes a hexadecimal string denotes: one byte for each digit pair,
/// high digit first.
pub open spec fn hex_bytes(s: Seq<char>) -> Seq<u8> {
    Seq::new(
        (s.len() / 2) as nat,
        |i: int| (hex_digit_value(s[2 * i]) * 16 + hex_digit_value(s[2 * i + 1])) as u8,
    )
}

/// Relies on hex::decode: it succeeds exactly on even-length strings of
/// hexadecimal digits, and returns one byte for each digit pair, high digit
/// first.
#[verifier::external_body]
fn hex_decode(s: &str) -> (r: Option<Vec<u8>>)
    ensures
        r is Some <==> is_hex_string(s@),
        r matches Some(b) ==> b@ == hex_bytes(s@),
{
    match hex::decode(s) {
        Ok(b) => Some(b),
        Err(_) => None,
    }
}

/// The seed bytes an encoded private-key string denotes, if it is
/// well-formed. The encoding fixes the result: the same string always
/// decodes to the same 32 bytes.
pub uninterp spec fn strkey_private_seed(s: Seq<char>) -> Option<Seq<u8>>;

/// Relies on stellar_strkey's ed25519::PrivateKey::from_string: whether a
/// string decodes, and to which seed, depends on the string alone, and a
/// decoded seed is exactly 32 bytes.
#[verifier::external_body]
fn strkey_decode_private(s: &str) -> (r: Option<Vec<u8>>)
    ensures
        r is Some <==> strkey_private_seed(s@) is Some,
        r matches Some(b) ==> strkey_private_seed(s@) matches Some(seed) && b@ == seed
            && seed.len() == 32,
{
    match stellar_strkey::ed25519::PrivateKey::from_string(s) {
        Ok(k) => Some(k.0.to_vec()),
        Err(_) => None,
    }
}

/// How a secret key is read: a 64-character string must be hexadecimal; any
/// other string beginning with `S` must be a well-formed encoded seed;
/// everything else is refused.
pub open spec fn spec_decode_secret_key(s: Seq<char>) -> Result<Seq<u8>, SecretKeyError> {
    if s.len() == 64 {
        if is_hex_string(s) {
            Ok(hex_bytes(s))
        } else {
            Err(SecretKeyError::InvalidHex)
        }
    } else if s.len() > 0 && s[0] == 'S' {
        match strkey_private_seed(s) {
            Some(seed) => Ok(seed),
            None => Err(SecretKeyError::InvalidStrkey),
        }
    } else {
        Err(SecretKeyError::UnknownFormat)
    }
}

/// Decode a secret key to its 32 raw seed bytes, in whichever of the two
/// accepted forms it arrives.
pub fn decode_secret_key(key: &str) -> (r: Result<Vec<u8>, SecretKeyError>)
    ensures
        r matches Ok(b) ==> spec_decode_secret_key(key@) matches Ok(sb) && b@ == sb,
        r matches Err(e) ==> spec_decode_secret_key(key@) matches Err(se) && e == se,
{
    let n = key.unicode_len();
    if n == 64 {
        match hex_decode(key) {
            Some(b) => Ok(b),
            None => Err(SecretKeyError::InvalidHex),
        }
    } else if n > 0 && key.get_char(0) == 'S' {
        match strkey_decode_private(key) {
            Some(b) => Ok(b),
            None => Err(SecretKeyError::InvalidStrkey),
        }
    } else {
        Err(SecretKeyError::UnknownFormat)
    }
}

/// Check a secret key's format without keeping the bytes, as a service does
/// when it only stores the key for later use.
pub fn validate_secret_key(key: &str) -> (r: Result<(), SecretKeyError>)
    ensures
        r is Ok <==> spec_decode_secret_key(key@) is Ok,
        r matches Err(e) ==> spec_decode_secret_key(key@) matches Err(se) && e == se,
{
    match decode_secret_key(key) {
        Ok(_) => Ok(()),
        Err(e) => Err(e),
    }
}

} // verus!
