//! The key that detached checksums of requests are made with. It is
//! configured as hexadecimal text and decoded once, when the service starts.

use vstd::prelude::*;

use crate::errors::{ApiError, ApiErrorResponse};

verus! {

/// Why a text could not be read as hexadecimal. Nothing is read of it.
#[verifier::external_type_specification]
#[verifier::external_body]
pub struct ExFromHexError(hex::FromHexError);

/// The value of a hexadecimal digit, in either case.
pub open spec fn hex_digit(c: char) -> Option<u8> {
    let u = c as u32;
    if '0' as u32 <= u <= '9' as u32 {
        Some((u - '0' as u32) as u8)
    } else if 'a' as u32 <= u <= 'f' as u32 {
        Some((u - 'a' as u32 + 10) as u8)
    } else if 'A' as u32 <= u <= 'F' as u32 {
        Some((u - 'A' as u32 + 10) as u8)
    } else {
        None
    }
}

/// The bytes written by a text of hexadecimal digits, two digits to the
/// byte, or `None` for a text of odd length or with any other character.
pub open spec fn hex_decoded(text: Seq<char>) -> Option<Seq<u8>> {
    if text.len() % 2 == 0 && (forall|i: int| 0 <= i < text.len() ==> hex_digit(text[i]) is Some) {
        Some(
            Seq::new(
                text.len() / 2,
                |i: int| (hex_digit(text[2 * i])->0 * 16 + hex_digit(text[2 * i + 1])->0) as u8,
            ),
        )
    } else {
        None
    }
}

/// Calls `hex::decode`, which reads two hexadecimal digits of either case
/// as one byte and refuses a text of odd length or with any other
/// character.
#[verifier::external_body]
fn hex_decode(text: &str) -> (decoded: Result<Vec<u8>, hex::FromHexError>)
    ensures
        match decoded {
            Ok(bytes) => hex_decoded(text@) == Some(bytes@),
            Err(_) => hex_decoded(text@) is None,
        },
{
    hex::decode(text)
}

/// The context and the key of detached checksums.
#[derive(Clone, Debug, PartialEq, Eq)]
pub struct ChecksumKey {
    pub context: String,
    pub key: Vec<u8>,
}

/// Reads the configured context and key of detached checksums. A key that
/// is no hexadecimal text is an internal error.
pub fn get_detached_auth(checksum_auth_context: String, checksum_auth_key: &str) -> (result:
    Result<ChecksumKey, ApiErrorResponse>)
    ensures
        match hex_decoded(checksum_auth_key@) {
            Some(bytes) => result matches Ok(key) && key.context == checksum_auth_context
                && key.key@ == bytes,
            None => result matches Err(e) && e@ == ApiError::InternalServerError,
        },
{
    match hex_decode(checksum_auth_key) {
        Ok(key) => Ok(ChecksumKey { context: checksum_auth_context, key }),
        Err(_) => Err(ApiErrorResponse::InternalServerError),
    }
}

} // verus!
