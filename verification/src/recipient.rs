//! Recipients of open banking payments: what has to be registered for the
//! bank account of a connector account, where, and what is kept of it.

use vstd::prelude::*;
use vstd::string::StringExecFns;

use crate::auth::ConnectorAuthType;
use crate::collections::ConnectorNames;
use crate::bank::{
    bank_account_fault, validate_bank_account_data, MerchantAccountData, RecipientIdType,
};
use crate::enums::{connector_name, is_pm_auth_connector, Connector, ConnectorType};
use crate::errors::{ApiError, ApiErrorResponse};

verus! {

/// The code of an error response that carries none.
pub const NO_ERROR_CODE: &'static str = "No error code";

/// The message of an error response for an answer that was not understood.
pub const UNSUPPORTED_ERROR_MESSAGE: &'static str = "Unsupported response type";

/// Who receives the money of an open banking payment.
#[derive(Clone, Debug, PartialEq, Eq)]
pub enum MerchantRecipientData {
    ConnectorRecipientId(String),
    WalletId(String),
    AccountData(MerchantAccountData),
}

/// Data of a merchant that goes with a connector account.
#[derive(Clone, Debug, PartialEq, Eq)]
pub enum AdditionalMerchantData {
    OpenBankingRecipientData(MerchantRecipientData),
}

/// Where the recipient of a bank account is registered.
#[derive(Clone, Copy, Debug, PartialEq, Eq, Structural)]
pub enum RecipientRegistrar {
    /// The account data is kept in the vault, whose reference stands for the
    /// recipient.
    Locker,
    /// The connector creates the recipient and names it.
    Connector,
}

/// What is to be done for the recipient data of a new connector account.
#[derive(Clone, Debug, PartialEq, Eq)]
pub enum RecipientStep {
    /// The data names its recipient already and is kept as it is.
    Keep(MerchantRecipientData),
    /// A recipient has to be registered for the bank account.
    Register { registrar: RecipientRegistrar, account: MerchantAccountData },
}

/// The registrar for a connector: the vault for the connectors listed as
/// locker based, the connector itself for every other.
pub open spec fn registrar_for(
    connector: Connector,
    locker_based: ConnectorNames,
) -> RecipientRegistrar {
    if locker_based.holds(connector_name(connector)) {
        RecipientRegistrar::Locker
    } else {
        RecipientRegistrar::Connector
    }
}

/// The message for recipient data on an account that processes no payments.
pub open spec fn not_a_payment_processor_message() -> Seq<char> {
    "OpenBanking connector for Payment Initiation should be a payment processor"@
}

/// What is to be done for the open banking recipient data of a new
/// connector account. The account must be a payment processor. Data that is
/// a bank account is validated and then needs a recipient, registered where
/// [`registrar_for`] says; any other data is kept as it is.
pub open spec fn recipient_plan(
    connector_type: ConnectorType,
    connector: Connector,
    data: AdditionalMerchantData,
    locker_based: ConnectorNames,
) -> Result<RecipientStep, ApiError> {
    if connector_type != ConnectorType::PaymentProcessor {
        Err(ApiError::InvalidConnectorConfiguration { config: not_a_payment_processor_message() })
    } else {
        match data {
            AdditionalMerchantData::OpenBankingRecipientData(
                MerchantRecipientData::AccountData(account),
            ) => match bank_account_fault(account) {
                Some(fault) => Err(fault),
                None => Ok(
                    RecipientStep::Register {
                        registrar: registrar_for(connector, locker_based),
                        account,
                    },
                ),
            },
            AdditionalMerchantData::OpenBankingRecipientData(other) => Ok(
                RecipientStep::Keep(other),
            ),
        }
    }
}

/// The outcome of a plan with its error taken by its value.
pub open spec fn planned(result: Result<RecipientStep, ApiErrorResponse>) -> Result<
    RecipientStep,
    ApiError,
> {
    match result {
        Ok(step) => Ok(step),
        Err(e) => Err(e@),
    }
}

/// Decides what is to be done for the open banking recipient data of a new
/// connector account: [`recipient_plan`]. Nothing has been sent anywhere
/// when this returns.
pub fn process_open_banking_connectors(
    connector_type: &ConnectorType,
    connector: &Connector,
    additional_merchant_data: AdditionalMerchantData,
    locker_based_connectors: &ConnectorNames,
) -> (result: Result<RecipientStep, ApiErrorResponse>)
    ensures
        planned(result) == recipient_plan(
            *connector_type,
            *connector,
            additional_merchant_data,
            *locker_based_connectors,
        ),
{
    match additional_merchant_data {
        AdditionalMerchantData::OpenBankingRecipientData(merchant_data) => {
            if *connector_type != ConnectorType::PaymentProcessor {
                return Err(
                    ApiErrorResponse::InvalidConnectorConfiguration {
                        config: String::from_str(
                            "OpenBanking connector for Payment Initiation should be a payment processor",
                        ),
                    },
                );
            }
            match merchant_data {
                MerchantRecipientData::AccountData(acc_data) => {
                    validate_bank_account_data(&acc_data)?;
                    let connector_name = connector.to_string();
                    let registrar = if locker_based_connectors.contains(&connector_name) {
                        RecipientRegistrar::Locker
                    } else {
                        RecipientRegistrar::Connector
                    };
                    Ok(RecipientStep::Register { registrar, account: acc_data })
                },
                other => Ok(RecipientStep::Keep(other)),
            }
        },
    }
}

/// The bank account with the recipient entered that was registered for it.
pub open spec fn with_recipient(
    account: MerchantAccountData,
    id: RecipientIdType,
) -> MerchantAccountData {
    match account {
        MerchantAccountData::Iban { iban, name, .. } => MerchantAccountData::Iban {
            iban,
            name,
            connector_recipient_id: Some(id),
        },
        MerchantAccountData::Bacs {
            account_number,
            sort_code,
            name,
            ..
        } => MerchantAccountData::Bacs {
            account_number,
            sort_code,
            name,
            connector_recipient_id: Some(id),
        },
    }
}

/// The identifier of a recipient as the registrar gave it.
pub open spec fn recipient_id_from(registrar: RecipientRegistrar, id: String) -> RecipientIdType {
    match registrar {
        RecipientRegistrar::Locker => RecipientIdType::LockerId(id),
        RecipientRegistrar::Connector => RecipientIdType::ConnectorId(id),
    }
}

impl RecipientStep {
    /// The recipient data to keep with the connector account, once the
    /// registrar has answered where one was asked. Data that needed no
    /// registration is kept whatever `registered` holds; a failed
    /// registration is handed on; a recipient identifier is entered into
    /// the bank account under the registrar's kind.
    pub fn finish(self, registered: Result<String, ApiErrorResponse>) -> (result: Result<
        MerchantRecipientData,
        ApiErrorResponse,
    >)
        ensures
            match self {
                RecipientStep::Keep(data) => result == Ok::<
                    MerchantRecipientData,
                    ApiErrorResponse,
                >(data),
                RecipientStep::Register { registrar, account } => match registered {
                    Ok(id) => result == Ok::<MerchantRecipientData, ApiErrorResponse>(
                        MerchantRecipientData::AccountData(
                            with_recipient(account, recipient_id_from(registrar, id)),
                        ),
                    ),
                    Err(e) => result == Err::<MerchantRecipientData, ApiErrorResponse>(e),
                },
            },
    {
        match self {
            RecipientStep::Keep(data) => Ok(data),
            RecipientStep::Register { registrar, account } => {
                let recipient_id = registered?;
                let conn_recipient_id = match registrar {
                    RecipientRegistrar::Locker => RecipientIdType::LockerId(recipient_id),
                    RecipientRegistrar::Connector => RecipientIdType::ConnectorId(recipient_id),
                };
                let account_data = match account {
                    MerchantAccountData::Iban { iban, name, .. } => MerchantAccountData::Iban {
                        iban,
                        name,
                        connector_recipient_id: Some(conn_recipient_id),
                    },
                    MerchantAccountData::Bacs {
                        account_number,
                        sort_code,
                        name,
                        ..
                    } => MerchantAccountData::Bacs {
                        account_number,
                        sort_code,
                        name,
                        connector_recipient_id: Some(conn_recipient_id),
                    },
                };
                Ok(MerchantRecipientData::AccountData(account_data))
            },
        }
    }
}

/// The bank account of a recipient as a connector is told it.
#[derive(Clone, Debug, PartialEq, Eq)]
pub enum RecipientAccountData {
    Iban(String),
    Bacs { sort_code: String, account_number: String },
}

/// The request to create a recipient.
#[derive(Clone, Debug, PartialEq, Eq)]
pub struct RecipientCreateRequest {
    pub name: String,
    pub account_data: RecipientAccountData,
    pub address: Option<String>,
}

/// The answer to a request to create a recipient.
#[derive(Clone, Debug, PartialEq, Eq)]
pub struct RecipientCreateResponse {
    pub recipient_id: String,
}

/// An error as a connector reports it.
#[derive(Clone, Debug, PartialEq, Eq)]
pub struct ErrorResponse {
    pub status_code: u16,
    pub code: String,
    pub message: String,
    pub reason: Option<String>,
}

/// Credentials in the form that the connectors for bank account
/// verification take.
#[derive(Clone, Debug, PartialEq, Eq)]
pub enum PaymentAuthCredentials {
    BodyKey { client_id: String, secret: String },
}

/// All that goes to a connector with a request to create a recipient.
#[derive(Debug, PartialEq, Eq)]
pub struct RecipientCreateRouterData {
    pub merchant_id: Option<String>,
    pub connector: Option<String>,
    pub request: RecipientCreateRequest,
    pub response: Result<RecipientCreateResponse, ErrorResponse>,
    pub connector_http_status_code: Option<u16>,
    pub connector_auth_type: PaymentAuthCredentials,
}

/// Reads `http::StatusCode::INTERNAL_SERVER_ERROR` as a number, which is 500.
#[verifier::external_body]
fn internal_server_error_status() -> (code: u16)
    ensures
        code == 500,
{
    http::StatusCode::INTERNAL_SERVER_ERROR.as_u16()
}

/// The request that tells a connector the bank account and its holder.
pub open spec fn recipient_request_of(account: MerchantAccountData) -> RecipientCreateRequest {
    match account {
        MerchantAccountData::Iban { iban, name, .. } => RecipientCreateRequest {
            name,
            account_data: RecipientAccountData::Iban(iban),
            address: None,
        },
        MerchantAccountData::Bacs { account_number, sort_code, name, .. } => RecipientCreateRequest {
            name,
            account_data: RecipientAccountData::Bacs { sort_code, account_number },
            address: None,
        },
    }
}

/// Whether the router data is what a connector is sent to create the
/// recipient of `account` for the merchant.
pub open spec fn is_recipient_create_call(
    data: RecipientCreateRouterData,
    merchant_id: String,
    connector: Connector,
    auth: ConnectorAuthType,
    account: MerchantAccountData,
) -> bool {
    &&& data.merchant_id == Some(merchant_id)
    &&& data.connector matches Some(name) && name@ == connector_name(connector)
    &&& data.request == recipient_request_of(account)
    &&& data.connector_http_status_code is None
    &&& auth matches ConnectorAuthType::BodyKey { api_key, key1 }
    &&& data.connector_auth_type == (PaymentAuthCredentials::BodyKey {
        client_id: api_key,
        secret: key1,
    })
    &&& data.response matches Err(placeholder)
    &&& placeholder.status_code == 500
    &&& placeholder.code@ == NO_ERROR_CODE@
    &&& placeholder.message@ == UNSUPPORTED_ERROR_MESSAGE@
    &&& placeholder.reason is None
}

/// Prepares the call that asks a connector to create a recipient. Only a
/// connector for bank account verification can be asked, and only with an
/// API key and one more key as credentials; the answer is preset to an
/// error that stays if the connector's answer is not understood.
pub fn connector_recipient_create_call(
    merchant_id: &String,
    connector: &Connector,
    auth: &ConnectorAuthType,
    data: &MerchantAccountData,
) -> (result: Result<RecipientCreateRouterData, ApiErrorResponse>)
    ensures
        !is_pm_auth_connector(*connector) ==> (result matches Err(e) && e@
            == ApiError::IncorrectConnectorNameGiven),
        is_pm_auth_connector(*connector) && !(*auth is BodyKey) ==> (result matches Err(e) && e@
            == ApiError::InternalServerError),
        is_pm_auth_connector(*connector) && *auth is BodyKey ==> (result matches Ok(call)
            && is_recipient_create_call(call, *merchant_id, *connector, *auth, *data)),
{
    if !connector.is_pm_auth() {
        return Err(ApiErrorResponse::IncorrectConnectorNameGiven);
    }
    let connector_auth_type = match auth {
        ConnectorAuthType::BodyKey { api_key, key1 } => PaymentAuthCredentials::BodyKey {
            client_id: api_key.clone(),
            secret: key1.clone(),
        },
        _ => {
            return Err(ApiErrorResponse::InternalServerError);
        },
    };
    let req = match data {
        MerchantAccountData::Iban { iban, name, .. } => RecipientCreateRequest {
            name: name.clone(),
            account_data: RecipientAccountData::Iban(iban.clone()),
            address: None,
        },
        MerchantAccountData::Bacs { account_number, sort_code, name, .. } => RecipientCreateRequest {
            name: name.clone(),
            account_data: RecipientAccountData::Bacs {
                sort_code: sort_code.clone(),
                account_number: account_number.clone(),
            },
            address: None,
        },
    };
    Ok(
        RecipientCreateRouterData {
            merchant_id: Some(merchant_id.clone()),
            connector: Some(connector.to_string()),
            request: req,
            response: Err(
                ErrorResponse {
                    status_code: internal_server_error_status(),
                    code: String::from_str(NO_ERROR_CODE),
                    message: String::from_str(UNSUPPORTED_ERROR_MESSAGE),
                    reason: None,
                },
            ),
            connector_http_status_code: None,
            connector_auth_type,
        },
    )
}

/// Reads the connector's answer to a request to create a recipient: the
/// recipient's identifier, or the connector's error passed through with its
/// code, message, status and reason, under the connector's name.
pub fn recipient_id_from_response(
    connector: &Connector,
    response: Result<RecipientCreateResponse, ErrorResponse>,
) -> (result: Result<String, ApiErrorResponse>)
    ensures
        match response {
            Ok(created) => result == Ok::<String, ApiErrorResponse>(created.recipient_id),
            Err(err) => result matches Err(e) && e@ == (ApiError::ExternalConnectorError {
                code: err.code@,
                message: err.message@,
                connector: connector_name(*connector),
                status_code: err.status_code,
                reason: match err.reason {
                    Some(r) => Some(r@),
                    None => None,
                },
            }),
        },
{
    match response {
        Ok(created) => Ok(created.recipient_id),
        Err(err) => Err(
            ApiErrorResponse::ExternalConnectorError {
                code: err.code,
                message: err.message,
                connector: connector.to_string(),
                status_code: err.status_code,
                reason: err.reason,
            },
        ),
    }
}

/// What the vault is asked to keep.
#[derive(Clone, Debug, PartialEq, Eq)]
pub struct StoreGenericReq {
    pub merchant_id: String,
    pub merchant_customer_id: String,
    pub enc_data: String,
    pub ttl: i64,
}

/// Prepares the request that keeps bank account data in the vault: the
/// data, already written out as text, is stored for the merchant under a
/// customer of the merchant's own name.
pub fn locker_recipient_create_call(merchant_id: &String, enc_data: String, ttl: i64) -> (payload:
    StoreGenericReq)
    ensures
        payload.merchant_id == *merchant_id,
        payload.merchant_customer_id == *merchant_id,
        payload.enc_data == enc_data,
        payload.ttl == ttl,
{
    StoreGenericReq {
        merchant_id: merchant_id.clone(),
        merchant_customer_id: merchant_id.clone(),
        enc_data,
        ttl,
    }
}

impl MerchantRecipientData {
    /// A copy of the recipient data.
    pub fn duplicate(&self) -> (copy: MerchantRecipientData)
        ensures
            copy == *self,
    {
        match self {
            MerchantRecipientData::ConnectorRecipientId(id) => {
                MerchantRecipientData::ConnectorRecipientId(id.clone())
            },
            MerchantRecipientData::WalletId(id) => MerchantRecipientData::WalletId(id.clone()),
            MerchantRecipientData::AccountData(account) => MerchantRecipientData::AccountData(
                account.duplicate(),
            ),
        }
    }
}

impl AdditionalMerchantData {
    /// A copy of the data.
    pub fn duplicate(&self) -> (copy: AdditionalMerchantData)
        ensures
            copy == *self,
    {
        match self {
            AdditionalMerchantData::OpenBankingRecipientData(data) => {
                AdditionalMerchantData::OpenBankingRecipientData(data.duplicate())
            },
        }
    }
}

impl RecipientStep {
    /// A copy of the step.
    pub fn duplicate(&self) -> (copy: RecipientStep)
        ensures
            copy == *self,
    {
        match self {
            RecipientStep::Keep(data) => RecipientStep::Keep(data.duplicate()),
            RecipientStep::Register { registrar, account } => RecipientStep::Register {
                registrar: *registrar,
                account: account.duplicate(),
            },
        }
    }
}

} // verus!
