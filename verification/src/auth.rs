//! Connector credentials and the general rules every credential payload
//! must meet, whatever the connector.

use vstd::prelude::*;

use crate::certificate::{pem_pair_readable, CertificateAndCertificateKey};
use crate::collections::CurrencyAuthMap;
use crate::errors::{invalid_data_format, ApiClientError, ApiError, ApiErrorResponse};

verus! {

/// Credentials of a connector account.
#[derive(Clone, Debug, PartialEq, Eq)]
pub enum ConnectorAuthType {
    TemporaryAuth,
    HeaderKey { api_key: String },
    BodyKey { api_key: String, key1: String },
    SignatureKey { api_key: String, key1: String, api_secret: String },
    MultiAuthKey { api_key: String, key1: String, api_secret: String, key2: String },
    CurrencyAuthKey { auth_key_map: CurrencyAuthMap },
    CertificateAuth { certificate: String, private_key: String },
    NoKey,
}

/// The form of a credential payload, without what it holds.
#[derive(Clone, Copy, Debug, PartialEq, Eq, Structural)]
pub enum AuthShape {
    TemporaryAuth,
    HeaderKey,
    BodyKey,
    SignatureKey,
    MultiAuthKey,
    CurrencyAuthKey,
    CertificateAuth,
    NoKey,
}

/// The form of a credential payload.
pub open spec fn shape_of(auth: ConnectorAuthType) -> AuthShape {
    match auth {
        ConnectorAuthType::TemporaryAuth => AuthShape::TemporaryAuth,
        ConnectorAuthType::HeaderKey { .. } => AuthShape::HeaderKey,
        ConnectorAuthType::BodyKey { .. } => AuthShape::BodyKey,
        ConnectorAuthType::SignatureKey { .. } => AuthShape::SignatureKey,
        ConnectorAuthType::MultiAuthKey { .. } => AuthShape::MultiAuthKey,
        ConnectorAuthType::CurrencyAuthKey { .. } => AuthShape::CurrencyAuthKey,
        ConnectorAuthType::CertificateAuth { .. } => AuthShape::CertificateAuth,
        ConnectorAuthType::NoKey => AuthShape::NoKey,
    }
}

impl ConnectorAuthType {
    /// The form of this payload.
    pub fn shape(&self) -> (shape: AuthShape)
        ensures
            shape == shape_of(*self),
    {
        match self {
            ConnectorAuthType::TemporaryAuth => AuthShape::TemporaryAuth,
            ConnectorAuthType::HeaderKey { .. } => AuthShape::HeaderKey,
            ConnectorAuthType::BodyKey { .. } => AuthShape::BodyKey,
            ConnectorAuthType::SignatureKey { .. } => AuthShape::SignatureKey,
            ConnectorAuthType::MultiAuthKey { .. } => AuthShape::MultiAuthKey,
            ConnectorAuthType::CurrencyAuthKey { .. } => AuthShape::CurrencyAuthKey,
            ConnectorAuthType::CertificateAuth { .. } => AuthShape::CertificateAuth,
            ConnectorAuthType::NoKey => AuthShape::NoKey,
        }
    }

    /// Whether these are credentials that stand in until real ones arrive.
    pub fn is_temporary(&self) -> (temporary: bool)
        ensures
            temporary == (shape_of(*self) == AuthShape::TemporaryAuth),
    {
        match self {
            ConnectorAuthType::TemporaryAuth => true,
            _ => false,
        }
    }
}

/// The characters with the Unicode property `White_Space`.
pub open spec fn is_white_space(c: char) -> bool {
    let u = c as u32;
    ||| 0x09 <= u <= 0x0D
    ||| u == 0x20
    ||| u == 0x85
    ||| u == 0xA0
    ||| u == 0x1680
    ||| 0x2000 <= u <= 0x200A
    ||| u == 0x2028
    ||| u == 0x2029
    ||| u == 0x202F
    ||| u == 0x205F
    ||| u == 0x3000
}

/// A text of nothing but white space, the empty text included.
pub open spec fn is_blank(text: Seq<char>) -> bool {
    forall|i: int| 0 <= i < text.len() ==> is_white_space(#[trigger] text[i])
}

/// `trimmed` is `text` without the white space at its two ends.
pub open spec fn is_trim_of(trimmed: Seq<char>, text: Seq<char>) -> bool {
    exists|start: int, end: int|
        {
            &&& 0 <= start <= end <= text.len()
            &&& #[trigger] text.subrange(start, end) == trimmed
            &&& forall|i: int| 0 <= i < start ==> is_white_space(#[trigger] text[i])
            &&& forall|i: int| end <= i < text.len() ==> is_white_space(#[trigger] text[i])
            &&& start < end ==> !is_white_space(text[start]) && !is_white_space(text[end - 1])
        }
}

/// Calls `str::trim`, which cuts the leading and the trailing white space
/// off, white space being the characters with the Unicode property
/// `White_Space`.
#[verifier::external_body]
fn trim(text: &str) -> (trimmed: &str)
    ensures
        is_trim_of(trimmed@, text@),
{
    text.trim()
}

/// Whether a text holds nothing but white space.
pub fn is_blank_text(text: &str) -> (blank: bool)
    ensures
        blank == is_blank(text@),
{
    let trimmed = trim(text);
    let empty = trimmed.is_empty();
    proof {
        let (start, end) = choose|start: int, end: int|
            {
                &&& 0 <= start <= end <= text@.len()
                &&& #[trigger] text@.subrange(start, end) == trimmed@
                &&& forall|i: int| 0 <= i < start ==> is_white_space(#[trigger] text@[i])
                &&& forall|i: int| end <= i < text@.len() ==> is_white_space(#[trigger] text@[i])
                &&& start < end ==> !is_white_space(text@[start]) && !is_white_space(
                    text@[end - 1],
                )
            };
        assert(trimmed@.len() == end - start);
        if empty {
            assert(is_blank(text@));
        } else {
            assert(!is_white_space(text@[start]));
        }
    }
    empty
}

/// The field a payload is refused for by the general rules, if the rules on
/// its text fields and on its map decide: the first text field, in the order
/// of declaration, that is blank, or the map of per-currency credentials
/// where it is empty.
pub open spec fn refused_field(auth: ConnectorAuthType) -> Option<Seq<char>> {
    match auth {
        ConnectorAuthType::HeaderKey { api_key } => {
            if is_blank(api_key@) {
                Some("api_key"@)
            } else {
                None
            }
        },
        ConnectorAuthType::BodyKey { api_key, key1 } => {
            if is_blank(api_key@) {
                Some("api_key"@)
            } else if is_blank(key1@) {
                Some("key1"@)
            } else {
                None
            }
        },
        ConnectorAuthType::SignatureKey { api_key, key1, api_secret } => {
            if is_blank(api_key@) {
                Some("api_key"@)
            } else if is_blank(key1@) {
                Some("key1"@)
            } else if is_blank(api_secret@) {
                Some("api_secret"@)
            } else {
                None
            }
        },
        ConnectorAuthType::MultiAuthKey { api_key, key1, api_secret, key2 } => {
            if is_blank(api_key@) {
                Some("api_key"@)
            } else if is_blank(key1@) {
                Some("key1"@)
            } else if is_blank(api_secret@) {
                Some("api_secret"@)
            } else if is_blank(key2@) {
                Some("key2"@)
            } else {
                None
            }
        },
        ConnectorAuthType::CurrencyAuthKey { auth_key_map } => {
            if auth_key_map.entries().len() == 0 {
                Some("auth_key_map"@)
            } else {
                None
            }
        },
        _ => None,
    }
}

/// The error for a text field that is blank.
pub open spec fn blank_field_error(field: Seq<char>) -> ApiError {
    ApiError::InvalidDataFormat {
        field_name: "connector_account_details."@ + field,
        expected_format: "a non empty String"@,
    }
}

/// The error for an empty map of per-currency credentials.
pub open spec fn empty_map_error() -> ApiError {
    ApiError::InvalidDataFormat {
        field_name: "connector_account_details.auth_key_map"@,
        expected_format: "a non empty map"@,
    }
}

/// The error for a certificate and key of which no client identity comes.
pub open spec fn certificate_error() -> ApiError {
    ApiError::InvalidDataFormat {
        field_name: "connector_account_details.certificate or connector_account_details.private_key"@,
        expected_format: "a valid base64 encoded string of PEM encoded Certificate and Private Key"@,
    }
}

/// What the general rules say of a payload. `identity_built` is consulted
/// for certificate credentials only, and says whether a TLS client identity
/// came of the certificate and its key. `None` means that the payload
/// passes.
pub open spec fn general_fault(auth: ConnectorAuthType, identity_built: bool) -> Option<ApiError> {
    match auth {
        ConnectorAuthType::CertificateAuth { .. } => {
            if identity_built {
                None
            } else {
                Some(certificate_error())
            }
        },
        ConnectorAuthType::CurrencyAuthKey { .. } => {
            if refused_field(auth) is Some {
                Some(empty_map_error())
            } else {
                None
            }
        },
        _ => match refused_field(auth) {
            Some(field) => Some(blank_field_error(field)),
            None => None,
        },
    }
}

/// Whether `identity_built` can be the answer for this payload: an identity
/// comes only of a readable certificate and key.
pub open spec fn identity_answer_possible(auth: ConnectorAuthType, identity_built: bool) -> bool {
    match auth {
        ConnectorAuthType::CertificateAuth { certificate, private_key } => identity_built
            ==> pem_pair_readable(certificate@, private_key@),
        _ => true,
    }
}

/// The outcome of a validation as an optional error.
pub open spec fn fault_of(result: Result<(), ApiErrorResponse>) -> Option<ApiError> {
    match result {
        Ok(_) => None,
        Err(e) => Some(e@),
    }
}

fn validate_non_empty_field(field_value: &str, field_name: &str) -> (result: Result<
    (),
    ApiErrorResponse,
>)
    ensures
        fault_of(result) == (if is_blank(field_value@) {
            Some(blank_field_error(field_name@))
        } else {
            None
        }),
{
    if is_blank_text(field_value) {
        let name = "connector_account_details.".to_owned().concat(field_name);
        Err(
            ApiErrorResponse::InvalidDataFormat {
                field_name: name,
                expected_format: "a non empty String".to_owned(),
            },
        )
    } else {
        Ok(())
    }
}

/// What is reported for certificate credentials once the TLS library has
/// answered: nothing where an identity was built, the certificate error
/// where it was not.
pub fn certificate_auth_outcome<T>(identity: Result<T, ApiClientError>) -> (result: Result<
    (),
    ApiErrorResponse,
>)
    ensures
        fault_of(result) == (if identity is Ok {
            None
        } else {
            Some(certificate_error())
        }),
{
    match identity {
        Ok(_) => Ok(()),
        Err(_) => Err(
            invalid_data_format(
                "connector_account_details.certificate or connector_account_details.private_key",
                "a valid base64 encoded string of PEM encoded Certificate and Private Key",
            ),
        ),
    }
}

/// The general rules on a credential payload.
pub struct ConnectorAuthTypeValidation<'a> {
    pub auth_type: &'a ConnectorAuthType,
}

impl<'a> ConnectorAuthTypeValidation<'a> {
    /// Holds the payload to the general rules: no text field is blank, a map
    /// of per-currency credentials is not empty, and a certificate with its
    /// key gives a TLS client identity. For every payload but a certificate
    /// the outcome is [`general_fault`]; for a certificate it is
    /// [`general_fault`] for what the TLS library answered, and the payload
    /// passes only if the pair was readable.
    pub fn validate_connector_auth_type(&self) -> (result: Result<(), ApiErrorResponse>)
        ensures
            exists|identity_built: bool|
                identity_answer_possible(*self.auth_type, identity_built) && fault_of(result)
                    == #[trigger] general_fault(*self.auth_type, identity_built),
    {
        let result = match self.auth_type {
            ConnectorAuthType::TemporaryAuth => Ok(()),
            ConnectorAuthType::HeaderKey { api_key } => validate_non_empty_field(
                api_key.as_str(),
                "api_key",
            ),
            ConnectorAuthType::BodyKey { api_key, key1 } => {
                validate_non_empty_field(api_key.as_str(), "api_key")?;
                validate_non_empty_field(key1.as_str(), "key1")
            },
            ConnectorAuthType::SignatureKey { api_key, key1, api_secret } => {
                validate_non_empty_field(api_key.as_str(), "api_key")?;
                validate_non_empty_field(key1.as_str(), "key1")?;
                validate_non_empty_field(api_secret.as_str(), "api_secret")
            },
            ConnectorAuthType::MultiAuthKey { api_key, key1, api_secret, key2 } => {
                validate_non_empty_field(api_key.as_str(), "api_key")?;
                validate_non_empty_field(key1.as_str(), "key1")?;
                validate_non_empty_field(api_secret.as_str(), "api_secret")?;
                validate_non_empty_field(key2.as_str(), "key2")
            },
            ConnectorAuthType::CurrencyAuthKey { auth_key_map } => {
                if auth_key_map.is_empty() {
                    Err(
                        invalid_data_format(
                            "connector_account_details.auth_key_map",
                            "a non empty map",
                        ),
                    )
                } else {
                    Ok(())
                }
            },
            ConnectorAuthType::CertificateAuth { certificate, private_key } => {
                let pair = CertificateAndCertificateKey {
                    certificate,
                    certificate_key: private_key,
                };
                let identity = pair.create_identity_from_certificate_and_key();
                let result = certificate_auth_outcome(identity);
                proof {
                    assert(identity_answer_possible(*self.auth_type, identity is Ok));
                    assert(fault_of(result) == general_fault(*self.auth_type, identity is Ok));
                }
                return result;
            },
            ConnectorAuthType::NoKey => Ok(()),
        };
        proof {
            assert(identity_answer_possible(*self.auth_type, true));
            assert(fault_of(result) == general_fault(*self.auth_type, true));
        }
        result
    }
}

} // verus!
