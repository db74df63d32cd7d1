//! Error values returned by the administration core.

use vstd::prelude::*;

verus! {

/// User-facing error of an administrative operation.
#[derive(Clone, Debug, PartialEq, Eq)]
pub enum ApiErrorResponse {
    InvalidRequestData { message: String },
    InvalidDataFormat { field_name: String, expected_format: String },
    InvalidDataValue { field_name: String },
    MissingRequiredField { field_name: String },
    InvalidConnectorConfiguration { config: String },
    IncorrectConnectorNameGiven,
    PreconditionFailed { message: String },
    AccessForbidden { resource: String },
    GenericNotFoundError { message: String },
    GenericDuplicateError { message: String },
    MerchantAccountNotFound,
    BusinessProfileNotFound { id: String },
    MerchantConnectorAccountNotFound { id: String },
    DuplicateMerchantAccount,
    DuplicateMerchantConnectorAccount { profile_id: String, connector_label: String },
    ExternalConnectorError {
        code: String,
        message: String,
        connector: String,
        status_code: u16,
        reason: Option<String>,
    },
    InternalServerError,
}

/// Mathematical value of an [`ApiErrorResponse`]: the same variants over
/// sequences of characters.
pub ghost enum ApiError {
    InvalidRequestData { message: Seq<char> },
    InvalidDataFormat { field_name: Seq<char>, expected_format: Seq<char> },
    InvalidDataValue { field_name: Seq<char> },
    MissingRequiredField { field_name: Seq<char> },
    InvalidConnectorConfiguration { config: Seq<char> },
    IncorrectConnectorNameGiven,
    PreconditionFailed { message: Seq<char> },
    AccessForbidden { resource: Seq<char> },
    GenericNotFoundError { message: Seq<char> },
    GenericDuplicateError { message: Seq<char> },
    MerchantAccountNotFound,
    BusinessProfileNotFound { id: Seq<char> },
    MerchantConnectorAccountNotFound { id: Seq<char> },
    DuplicateMerchantAccount,
    DuplicateMerchantConnectorAccount { profile_id: Seq<char>, connector_label: Seq<char> },
    ExternalConnectorError {
        code: Seq<char>,
        message: Seq<char>,
        connector: Seq<char>,
        status_code: u16,
        reason: Option<Seq<char>>,
    },
    InternalServerError,
}

impl View for ApiErrorResponse {
    type V = ApiError;

    open spec fn view(&self) -> ApiError {
        match *self {
            ApiErrorResponse::InvalidRequestData { message } => ApiError::InvalidRequestData {
                message: message@,
            },
            ApiErrorResponse::InvalidDataFormat {
                field_name,
                expected_format,
            } => ApiError::InvalidDataFormat {
                field_name: field_name@,
                expected_format: expected_format@,
            },
            ApiErrorResponse::InvalidDataValue { field_name } => ApiError::InvalidDataValue {
                field_name: field_name@,
            },
            ApiErrorResponse::MissingRequiredField {
                field_name,
            } => ApiError::MissingRequiredField { field_name: field_name@ },
            ApiErrorResponse::InvalidConnectorConfiguration {
                config,
            } => ApiError::InvalidConnectorConfiguration { config: config@ },
            ApiErrorResponse::IncorrectConnectorNameGiven => ApiError::IncorrectConnectorNameGiven,
            ApiErrorResponse::PreconditionFailed { message } => ApiError::PreconditionFailed {
                message: message@,
            },
            ApiErrorResponse::AccessForbidden { resource } => ApiError::AccessForbidden {
                resource: resource@,
            },
            ApiErrorResponse::GenericNotFoundError {
                message,
            } => ApiError::GenericNotFoundError { message: message@ },
            ApiErrorResponse::GenericDuplicateError {
                message,
            } => ApiError::GenericDuplicateError { message: message@ },
            ApiErrorResponse::MerchantAccountNotFound => ApiError::MerchantAccountNotFound,
            ApiErrorResponse::BusinessProfileNotFound { id } => ApiError::BusinessProfileNotFound {
                id: id@,
            },
            ApiErrorResponse::MerchantConnectorAccountNotFound {
                id,
            } => ApiError::MerchantConnectorAccountNotFound { id: id@ },
            ApiErrorResponse::DuplicateMerchantAccount => ApiError::DuplicateMerchantAccount,
            ApiErrorResponse::DuplicateMerchantConnectorAccount {
                profile_id,
                connector_label,
            } => ApiError::DuplicateMerchantConnectorAccount {
                profile_id: profile_id@,
                connector_label: connector_label@,
            },
            ApiErrorResponse::ExternalConnectorError {
                code,
                message,
                connector,
                status_code,
                reason,
            } => ApiError::ExternalConnectorError {
                code: code@,
                message: message@,
                connector: connector@,
                status_code,
                reason: match reason {
                    Some(r) => Some(r@),
                    None => None,
                },
            },
            ApiErrorResponse::InternalServerError => ApiError::InternalServerError,
        }
    }
}

/// The "invalid request data" error with the given message.
pub open spec fn invalid_request(message: Seq<char>) -> ApiError {
    ApiError::InvalidRequestData { message }
}

/// Builds the "invalid request data" error with the given message.
pub fn invalid_request_data(message: &str) -> (e: ApiErrorResponse)
    ensures
        e@ == invalid_request(message@),
{
    ApiErrorResponse::InvalidRequestData { message: message.to_owned() }
}

/// Builds the "invalid data format" error for a field and the format it should have.
pub fn invalid_data_format(field_name: &str, expected_format: &str) -> (e: ApiErrorResponse)
    ensures
        e@ == (ApiError::InvalidDataFormat {
            field_name: field_name@,
            expected_format: expected_format@,
        }),
{
    ApiErrorResponse::InvalidDataFormat {
        field_name: field_name.to_owned(),
        expected_format: expected_format.to_owned(),
    }
}

/// Error raised by a connector-specific rule.
#[derive(Clone, Debug, PartialEq, Eq)]
pub enum ConnectorError {
    /// The connector name does not denote a usable connector.
    InvalidConnectorName,
    /// A part of the connector configuration has the wrong shape.
    InvalidConnectorConfig { config: String },
    /// The credentials cannot be read as the connector's own credentials.
    FailedToObtainAuthType,
    /// A required field is missing.
    MissingRequiredField { field_name: String },
    /// The request could not be encoded for the connector.
    RequestEncodingFailed,
}

/// Mathematical value of a [`ConnectorError`].
pub ghost enum ConnectorFault {
    InvalidConnectorName,
    InvalidConnectorConfig { config: Seq<char> },
    FailedToObtainAuthType,
    MissingRequiredField { field_name: Seq<char> },
    RequestEncodingFailed,
}

impl View for ConnectorError {
    type V = ConnectorFault;

    open spec fn view(&self) -> ConnectorFault {
        match *self {
            ConnectorError::InvalidConnectorName => ConnectorFault::InvalidConnectorName,
            ConnectorError::InvalidConnectorConfig {
                config,
            } => ConnectorFault::InvalidConnectorConfig { config: config@ },
            ConnectorError::FailedToObtainAuthType => ConnectorFault::FailedToObtainAuthType,
            ConnectorError::MissingRequiredField {
                field_name,
            } => ConnectorFault::MissingRequiredField { field_name: field_name@ },
            ConnectorError::RequestEncodingFailed => ConnectorFault::RequestEncodingFailed,
        }
    }
}

/// The message shown to the caller for a connector fault.
pub open spec fn connector_fault_message(fault: ConnectorFault) -> Seq<char> {
    match fault {
        ConnectorFault::InvalidConnectorName => "The connector name is invalid"@,
        ConnectorFault::InvalidConnectorConfig { config } => "The "@ + config + " is invalid"@,
        ConnectorFault::FailedToObtainAuthType => "The auth type is invalid for the connector"@,
        _ => "The request body is invalid"@,
    }
}

/// Turns a connector fault into the error shown to the caller: always
/// "invalid request data", with a message that names the fault.
pub fn connector_error_response(err: &ConnectorError) -> (e: ApiErrorResponse)
    ensures
        e@ == invalid_request(connector_fault_message(err@)),
{
    match err {
        ConnectorError::InvalidConnectorName => invalid_request_data(
            "The connector name is invalid",
        ),
        ConnectorError::InvalidConnectorConfig { config } => {
            let message = "The ".to_owned().concat(config.as_str()).concat(" is invalid");
            ApiErrorResponse::InvalidRequestData { message }
        },
        ConnectorError::FailedToObtainAuthType => invalid_request_data(
            "The auth type is invalid for the connector",
        ),
        _ => invalid_request_data("The request body is invalid"),
    }
}

/// Failure of the client that talks to connectors.
#[derive(Clone, Copy, Debug, PartialEq, Eq, Structural)]
pub enum ApiClientError {
    /// A certificate or its key could not be decoded.
    CertificateDecodeFailed,
}

/// How a storage operation failed.
#[derive(Clone, Copy, Debug, PartialEq, Eq, Structural)]
pub enum StorageError {
    /// No record has the key that was asked for.
    ValueNotFound,
    /// A record with the same unique key exists already.
    DuplicateValue,
    /// Any other failure of the store.
    Other,
}

/// Reads a storage failure where a missing record is the expected failure:
/// "not found" gives `not_found`, anything else an internal server error.
pub fn to_not_found_response(err: StorageError, not_found: ApiErrorResponse) -> (e:
    ApiErrorResponse)
    ensures
        e@ == (if err == StorageError::ValueNotFound {
            not_found@
        } else {
            ApiError::InternalServerError
        }),
{
    match err {
        StorageError::ValueNotFound => not_found,
        _ => ApiErrorResponse::InternalServerError,
    }
}

/// Reads a storage failure where a uniqueness conflict is the expected
/// failure: "duplicate" gives `duplicate`, anything else an internal server
/// error.
pub fn to_duplicate_response(err: StorageError, duplicate: ApiErrorResponse) -> (e:
    ApiErrorResponse)
    ensures
        e@ == (if err == StorageError::DuplicateValue {
            duplicate@
        } else {
            ApiError::InternalServerError
        }),
{
    match err {
        StorageError::DuplicateValue => duplicate,
        _ => ApiErrorResponse::InternalServerError,
    }
}

} // verus!
