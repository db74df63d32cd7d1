//! Merchant connector accounts: what a request to create or update one is
//! held to, and the record or the change that comes of it.

use vstd::prelude::*;
use vstd::string::StringExecFns;

use crate::auth::{fault_of, identity_answer_possible, shape_of, AuthShape, ConnectorAuthType};
use crate::collections::ConnectorNames;
use crate::connector_rules::{
    validation_fault, ConnectorAuthTypeAndMetadataValidation, MetadataObject,
};
use crate::domain::{
    BusinessProfile, MerchantAccount, MerchantConnectorAccount, PaymentMethodAuthConfig,
    PaymentMethodAuthConnectorChoice,
};
use crate::enums::{
    connector_name, is_dummy_connector, transaction_type_of, Connector, ConnectorStatus,
    ConnectorType, TransactionType,
};
use crate::errors::{
    invalid_data_format, invalid_request, invalid_request_data, to_not_found_response, ApiError,
    ApiErrorResponse, StorageError,
};
use crate::recipient::{
    planned, process_open_banking_connectors, recipient_plan, AdditionalMerchantData,
    RecipientStep,
};
use crate::status::{resolved_status_and_disabled, ConnectorStatusAndDisabledValidation};

verus! {

/// The credentials of a request, as far as they could be read.
#[derive(Clone, Debug, PartialEq, Eq)]
pub enum ConnectorAccountDetails {
    /// The request holds something that is no credential payload.
    Unreadable,
    /// The credentials of the request.
    Auth(ConnectorAuthType),
}

/// A request to create a merchant connector account.
#[derive(Clone, Debug, PartialEq, Eq)]
pub struct MerchantConnectorCreate {
    pub connector_type: ConnectorType,
    pub connector_name: Connector,
    pub connector_label: Option<String>,
    pub profile_id: Option<String>,
    pub connector_account_details: Option<ConnectorAccountDetails>,
    pub payment_methods_enabled: Option<Vec<String>>,
    pub connector_webhook_details: Option<String>,
    pub metadata: Option<MetadataObject>,
    pub test_mode: Option<bool>,
    pub disabled: Option<bool>,
    pub frm_configs: Option<Vec<String>>,
    pub business_country: Option<String>,
    pub business_label: Option<String>,
    pub business_sub_label: Option<String>,
    pub pm_auth_config: Option<PaymentMethodAuthConfig>,
    pub status: Option<ConnectorStatus>,
    pub additional_merchant_data: Option<AdditionalMerchantData>,
}

/// The error for credentials that are missing or cannot be read.
pub open spec fn unreadable_details_error() -> ApiError {
    ApiError::InvalidDataFormat {
        field_name: "connector_account_details"@,
        expected_format: "auth_type and api_key"@,
    }
}

/// The label made of a connector and business details, where the request
/// names a country and a business label: connector, country and label,
/// joined by underscores, and the sub-label after them if there is one.
pub open spec fn business_connector_label(
    business_country: Option<String>,
    business_label: Option<String>,
    business_sub_label: Option<String>,
    connector: Seq<char>,
) -> Option<Seq<char>> {
    match (business_country, business_label) {
        (Some(country), Some(label)) => {
            let base = connector + "_"@ + country@ + "_"@ + label@;
            match business_sub_label {
                Some(sub_label) => Some(base + "_"@ + sub_label@),
                None => Some(base),
            }
        },
        _ => None,
    }
}

/// The label of a new connector account: the one that the request names,
/// else the one made of its business details, else the connector's name
/// and the profile's, joined by an underscore.
pub open spec fn connector_label_of(
    request: MerchantConnectorCreate,
    profile_name: Seq<char>,
) -> Seq<
    char,
> {
    match request.connector_label {
        Some(label) => label@,
        None => match business_connector_label(
            request.business_country,
            request.business_label,
            request.business_sub_label,
            connector_name(request.connector_name),
        ) {
            Some(label) => label,
            None => connector_name(request.connector_name) + "_"@ + profile_name,
        },
    }
}

/// The label made of a connector and business details.
pub fn get_connector_label(
    business_country: &Option<String>,
    business_label: &Option<String>,
    business_sub_label: &Option<String>,
    connector_name: &str,
) -> (label: Option<String>)
    ensures
        match business_connector_label(
            *business_country,
            *business_label,
            *business_sub_label,
            connector_name@,
        ) {
            Some(expected) => label matches Some(l) && l@ == expected,
            None => label is None,
        },
{
    match (business_country, business_label) {
        (Some(country), Some(business_label)) => {
            let connector_label = String::from_str(connector_name).concat("_").concat(
                country.as_str(),
            ).concat("_").concat(business_label.as_str());
            match business_sub_label {
                Some(sub_label) => Some(connector_label.concat("_").concat(sub_label.as_str())),
                None => Some(connector_label),
            }
        },
        _ => None,
    }
}

/// The message for a test connector in a deployment that has none.
pub open spec fn dummy_connector_message() -> Seq<char> {
    "Invalid connector name"@
}

/// A test connector can be named only where the deployment has the test
/// connectors switched on.
pub fn validate_dummy_connector_enabled(
    connector: &Connector,
    is_dummy_connector_enabled: bool,
) -> (result:
    Result<(), ApiErrorResponse>)
    ensures
        fault_of(result) == (if !is_dummy_connector_enabled && is_dummy_connector(*connector) {
            Some(invalid_request(dummy_connector_message()))
        } else {
            None
        }),
{
    if !is_dummy_connector_enabled && connector.is_dummy() {
        Err(invalid_request_data("Invalid connector name"))
    } else {
        Ok(())
    }
}

/// The message for business details that the merchant has not configured.
pub open spec fn business_details_message() -> Seq<char> {
    "business_details are not configured in the merchant account"@
}

/// Whether the merchant has the business details among its primary ones.
pub open spec fn has_business_details(
    merchant_account: MerchantAccount,
    country: Seq<char>,
    label: Seq<char>,
) -> bool {
    exists|i: int|
        0 <= i < merchant_account.primary_business_details@.len() && (
        #[trigger] merchant_account.primary_business_details@[i]).country@ == country
            && merchant_account.primary_business_details@[i].business@ == label
}

/// Business details named in a request, country and label together, must
/// be among the primary business details of the merchant.
pub fn validate_business_details(
    business_country: &Option<String>,
    business_label: &Option<String>,
    merchant_account: &MerchantAccount,
) -> (result: Result<(), ApiErrorResponse>)
    ensures
        fault_of(result) == (match (*business_country, *business_label) {
            (Some(country), Some(label)) => if has_business_details(
                *merchant_account,
                country@,
                label@,
            ) {
                None
            } else {
                Some(ApiError::PreconditionFailed { message: business_details_message() })
            },
            _ => None,
        }),
{
    match (business_country, business_label) {
        (Some(country), Some(label)) => {
            let mut i: usize = 0;
            while i < merchant_account.primary_business_details.len()
                invariant
                    i <= merchant_account.primary_business_details@.len(),
                    *business_country == Some(*country),
                    *business_label == Some(*label),
                    forall|j: int|
                        0 <= j < i ==> !((
                        #[trigger] merchant_account.primary_business_details@[j]).country@
                            == country@ && merchant_account.primary_business_details@[j].business@
                            == label@),
                decreases merchant_account.primary_business_details@.len() - i,
            {
                let details = &merchant_account.primary_business_details[i];
                if details.country == *country && details.business == *label {
                    assert(merchant_account.primary_business_details@[i as int].country@
                        == country@);
                    return Ok(());
                }
                i += 1;
            }
            Err(
                ApiErrorResponse::PreconditionFailed {
                    message: String::from_str(
                        "business_details are not configured in the merchant account",
                    ),
                },
            )
        },
        _ => Ok(()),
    }
}

/// How the profile of a new connector account is found.
#[derive(Clone, Debug, PartialEq, Eq)]
pub enum ProfileLookup {
    /// By its identifier; the profile must be one of the merchant's.
    ById(String),
    /// By its name among the profiles of the merchant.
    ByName(String),
}

/// The field that is missing when a request names no profile at all.
pub open spec fn missing_profile_field() -> Seq<char> {
    "profile_id or business_country, business_label"@
}

/// The profile of a new connector account: the one that the request names,
/// else the default profile of the merchant; failing both, the profile
/// named after the business country and label of the request; and a
/// missing field where the request has neither.
pub open spec fn profile_lookup_of(
    request: MerchantConnectorCreate,
    merchant_account: MerchantAccount,
) -> Result<
    (bool, Seq<char>),
    ApiError,
> {
    if request.profile_id is Some {
        Ok((true, request.profile_id->0@))
    } else if merchant_account.default_profile is Some {
        Ok((true, merchant_account.default_profile->0@))
    } else {
        match (request.business_country, request.business_label) {
            (Some(country), Some(label)) => Ok((false, country@ + "_"@ + label@)),
            _ => Err(ApiError::MissingRequiredField { field_name: missing_profile_field() }),
        }
    }
}

/// The outcome of choosing a look-up, by identifier (`true`) or by name,
/// with the text looked for.
pub open spec fn chosen_lookup(result: Result<ProfileLookup, ApiErrorResponse>) -> Result<
    (bool, Seq<char>),
    ApiError,
> {
    match result {
        Ok(ProfileLookup::ById(id)) => Ok((true, id@)),
        Ok(ProfileLookup::ByName(name)) => Ok((false, name@)),
        Err(e) => Err(e@),
    }
}

impl MerchantConnectorCreate {
    /// Says how the profile of the new account is to be found.
    pub fn validate_and_get_profile_id(&self, merchant_account: &MerchantAccount) -> (result:
        Result<ProfileLookup, ApiErrorResponse>)
        ensures
            chosen_lookup(result) == profile_lookup_of(*self, *merchant_account),
    {
        match &self.profile_id {
            Some(profile_id) => Ok(ProfileLookup::ById(profile_id.clone())),
            None => match &merchant_account.default_profile {
                Some(profile_id) => Ok(ProfileLookup::ById(profile_id.clone())),
                None => match (&self.business_country, &self.business_label) {
                    (Some(business_country), Some(business_label)) => {
                        let profile_name = business_country.clone().concat("_").concat(
                            business_label.as_str(),
                        );
                        Ok(ProfileLookup::ByName(profile_name))
                    },
                    _ => Err(
                        ApiErrorResponse::MissingRequiredField {
                            field_name: String::from_str(
                                "profile_id or business_country, business_label",
                            ),
                        },
                    ),
                },
            },
        }
    }

    /// The label of the new account under a profile of the given name.
    pub fn get_connector_label(&self, profile_name: &String) -> (label: String)
        ensures
            label@ == connector_label_of(*self, profile_name@),
    {
        match &self.connector_label {
            Some(label) => label.clone(),
            None => {
                let name = self.connector_name.to_string();
                match get_connector_label(
                    &self.business_country,
                    &self.business_label,
                    &self.business_sub_label,
                    name.as_str(),
                ) {
                    Some(label) => label,
                    None => name.concat("_").concat(profile_name.as_str()),
                }
            },
        }
    }

    /// The transaction type whose default lists the new account joins.
    pub fn get_transaction_type(&self) -> (t: TransactionType)
        ensures
            t == transaction_type_of(self.connector_type),
    {
        self.connector_type.get_transaction_type()
    }
}

/// Reads the look-up of a profile by the name made of business details:
/// the identifier of the profile, or "not found" under that name.
pub fn profile_id_by_name(
    found: Result<BusinessProfile, StorageError>,
    profile_name: String,
) -> (result:
    Result<String, ApiErrorResponse>)
    ensures
        match found {
            Ok(profile) => result == Ok::<String, ApiErrorResponse>(profile.profile_id),
            Err(err) => result matches Err(e) && e@ == (if err == StorageError::ValueNotFound {
                ApiError::BusinessProfileNotFound { id: profile_name@ }
            } else {
                ApiError::InternalServerError
            }),
        },
{
    match found {
        Ok(profile) => Ok(profile.profile_id),
        Err(err) => Err(
            to_not_found_response(
                err,
                ApiErrorResponse::BusinessProfileNotFound { id: profile_name },
            ),
        ),
    }
}

/// The connector account with the identifier, if the list holds one: the
/// first of them.
pub open spec fn find_account(accounts: Seq<MerchantConnectorAccount>, id: Seq<char>) -> Option<
    MerchantConnectorAccount,
>
    decreases accounts.len(),
{
    if accounts.len() == 0 {
        None
    } else if accounts.first().merchant_connector_id@ == id {
        Some(accounts.first())
    } else {
        find_account(accounts.drop_first(), id)
    }
}

/// The message for a choice that names no connector account of the merchant.
pub open spec fn pm_auth_account_missing_message() -> Seq<char> {
    "payment method auth connector account not found"@
}

/// The message for a choice whose connector account is under another profile.
pub open spec fn pm_auth_profile_differs_message() -> Seq<char> {
    "payment method auth profile_id differs from connector profile_id"@
}

/// What is wrong with one choice of a configuration for bank account
/// verification: the connector account it names must be among the
/// merchant's, and under the profile.
pub open spec fn pm_auth_choice_fault(
    choice: PaymentMethodAuthConnectorChoice,
    accounts: Seq<MerchantConnectorAccount>,
    profile_id: Seq<char>,
) -> Option<ApiError> {
    match find_account(accounts, choice.mca_id@) {
        None => Some(ApiError::GenericNotFoundError { message: pm_auth_account_missing_message() }),
        Some(account) => if account.profile_id@ != profile_id {
            Some(
                ApiError::GenericNotFoundError { message: pm_auth_profile_differs_message() },
            )
        } else {
            None
        },
    }
}

/// The fault of the first choice, in order, that has one.
pub open spec fn pm_auth_choices_fault(
    enabled: Seq<PaymentMethodAuthConnectorChoice>,
    accounts: Seq<MerchantConnectorAccount>,
    profile_id: Seq<char>,
) -> Option<ApiError>
    decreases enabled.len(),
{
    if enabled.len() == 0 {
        None
    } else {
        match pm_auth_choice_fault(enabled.first(), accounts, profile_id) {
            Some(fault) => Some(fault),
            None => pm_auth_choices_fault(enabled.drop_first(), accounts, profile_id),
        }
    }
}

/// What is wrong with a configuration for bank account verification, given
/// what the store answered when asked for the merchant's connector
/// accounts: without the accounts, that the merchant's accounts were not
/// found; with them, the fault of the first choice that has one.
pub open spec fn pm_auth_fault(
    config: PaymentMethodAuthConfig,
    all_mcas: Result<Vec<MerchantConnectorAccount>, StorageError>,
    merchant_id: Seq<char>,
    profile_id: Seq<char>,
) -> Option<ApiError> {
    match all_mcas {
        Err(_) => Some(ApiError::MerchantConnectorAccountNotFound { id: merchant_id }),
        Ok(accounts) => pm_auth_choices_fault(
            config.enabled_payment_methods@,
            accounts@,
            profile_id,
        ),
    }
}

fn find_account_by_id<'a>(accounts: &'a Vec<MerchantConnectorAccount>, id: &String) -> (found:
    Option<&'a MerchantConnectorAccount>)
    ensures
        match find_account(accounts@, id@) {
            Some(account) => found == Some(&account),
            None => found is None,
        },
{
    let mut i: usize = 0;
    assert(accounts@.skip(0) =~= accounts@);
    while i < accounts.len()
        invariant
            i <= accounts@.len(),
            find_account(accounts@, id@) == find_account(accounts@.skip(i as int), id@),
        decreases accounts@.len() - i,
    {
        let ghost rest = accounts@.skip(i as int);
        assert(rest.first() == accounts@[i as int]);
        if accounts[i].merchant_connector_id == *id {
            return Some(&accounts[i]);
        }
        assert(rest.drop_first() =~= accounts@.skip(i + 1));
        i += 1;
    }
    assert(accounts@.skip(i as int).len() == 0);
    None
}

/// Whether a configuration for bank account verification has to be held
/// against the merchant's connector accounts: every configuration has, but
/// on an account that itself verifies bank accounts.
pub fn validate_pm_auth_config(
    connector_type: &ConnectorType,
    pm_auth_config: &Option<PaymentMethodAuthConfig>,
) -> (needed:
    bool)
    ensures
        needed == (*connector_type != ConnectorType::PaymentMethodAuth && pm_auth_config is Some),
{
    *connector_type != ConnectorType::PaymentMethodAuth && pm_auth_config.is_some()
}

/// Holds a configuration for bank account verification against the
/// connector accounts of the merchant: each connector account that it names
/// must be one of them, under the profile of the account that carries the
/// configuration.
pub fn validate_pm_auth(
    config: &PaymentMethodAuthConfig,
    all_mcas: &Result<Vec<MerchantConnectorAccount>, StorageError>,
    merchant_id: &String,
    profile_id: &String,
) -> (result: Result<(), ApiErrorResponse>)
    ensures
        fault_of(result) == pm_auth_fault(*config, *all_mcas, merchant_id@, profile_id@),
{
    let accounts = match all_mcas {
        Ok(accounts) => accounts,
        Err(_) => {
            return Err(
                ApiErrorResponse::MerchantConnectorAccountNotFound { id: merchant_id.clone() },
            );
        },
    };
    let enabled = &config.enabled_payment_methods;
    let mut i: usize = 0;
    assert(enabled@.skip(0) =~= enabled@);
    while i < enabled.len()
        invariant
            i <= enabled@.len(),
            all_mcas == Ok::<Vec<MerchantConnectorAccount>, StorageError>(*accounts),
            enabled@ == config.enabled_payment_methods@,
            pm_auth_choices_fault(enabled@, accounts@, profile_id@) == pm_auth_choices_fault(
                enabled@.skip(i as int),
                accounts@,
                profile_id@,
            ),
        decreases enabled@.len() - i,
    {
        let ghost rest = enabled@.skip(i as int);
        assert(rest.first() == enabled@[i as int]);
        assert(pm_auth_choices_fault(rest, accounts@, profile_id@) == (
        match pm_auth_choice_fault(rest.first(), accounts@, profile_id@) {
            Some(fault) => Some(fault),
            None => pm_auth_choices_fault(rest.drop_first(), accounts@, profile_id@),
        }));
        match find_account_by_id(accounts, &enabled[i].mca_id) {
            None => {
                return Err(
                    ApiErrorResponse::GenericNotFoundError {
                        message: String::from_str(
                            "payment method auth connector account not found",
                        ),
                    },
                );
            },
            Some(pm_auth_mca) => {
                if pm_auth_mca.profile_id != *profile_id {
                    return Err(
                        ApiErrorResponse::GenericNotFoundError {
                            message: String::from_str(
                                "payment method auth profile_id differs from connector profile_id",
                            ),
                        },
                    );
                }
            },
        }
        assert(rest.drop_first() =~= enabled@.skip(i + 1));
        i += 1;
    }
    assert(enabled@.skip(i as int).len() == 0);
    Ok(())
}

/// What has been decided about a new connector account before anything is
/// sent to a collaborator.
#[derive(Clone, Debug, PartialEq, Eq)]
pub struct ConnectorCreateDecision {
    pub connector_label: String,
    pub status: ConnectorStatus,
    pub disabled: Option<bool>,
    /// What is to be done for the open banking recipient data, if the
    /// request carries any.
    pub recipient: Option<RecipientStep>,
}

/// Mathematical value of a [`ConnectorCreateDecision`].
pub ghost struct CreateDecision {
    pub connector_label: Seq<char>,
    pub status: ConnectorStatus,
    pub disabled: Option<bool>,
    pub recipient: Option<RecipientStep>,
}

impl View for ConnectorCreateDecision {
    type V = CreateDecision;

    open spec fn view(&self) -> CreateDecision {
        CreateDecision {
            connector_label: self.connector_label@,
            status: self.status,
            disabled: self.disabled,
            recipient: self.recipient,
        }
    }
}

/// The credentials of a request, if they are there and could be read.
pub open spec fn auth_of(details: Option<ConnectorAccountDetails>) -> Option<ConnectorAuthType> {
    match details {
        Some(ConnectorAccountDetails::Auth(auth)) => Some(auth),
        _ => None,
    }
}

/// What is decided about a request to create a connector account under a
/// profile, rule by rule: the credentials must be there and readable; they
/// and the metadata must pass validation; status and disabled flag are
/// resolved for an account that starts active; and the open banking
/// recipient data, if any, is planned for. `identity_built` is consulted
/// for certificate credentials only.
pub open spec fn create_decision(
    request: MerchantConnectorCreate,
    profile: BusinessProfile,
    locker_based: ConnectorNames,
    identity_built: bool,
) -> Result<CreateDecision, ApiError> {
    match auth_of(request.connector_account_details) {
        None => Err(unreadable_details_error()),
        Some(auth) => match validation_fault(
            request.connector_name,
            auth,
            request.metadata,
            identity_built,
        ) {
            Some(fault) => Err(fault),
            None => match resolved_status_and_disabled(
                request.status,
                request.disabled,
                shape_of(auth) == AuthShape::TemporaryAuth,
                ConnectorStatus::Active,
            ) {
                Err(fault) => Err(fault),
                Ok((status, disabled)) => {
                    let connector_label = connector_label_of(request, profile.profile_name@);
                    match request.additional_merchant_data {
                        None => Ok(
                            CreateDecision { connector_label, status, disabled, recipient: None },
                        ),
                        Some(data) => match recipient_plan(
                            request.connector_type,
                            request.connector_name,
                            data,
                            locker_based,
                        ) {
                            Err(fault) => Err(fault),
                            Ok(step) => Ok(
                                CreateDecision {
                                    connector_label,
                                    status,
                                    disabled,
                                    recipient: Some(step),
                                },
                            ),
                        },
                    }
                },
            },
        },
    }
}

/// The outcome of a decision over its values.
pub open spec fn decided(result: Result<ConnectorCreateDecision, ApiErrorResponse>) -> Result<
    CreateDecision,
    ApiError,
> {
    match result {
        Ok(decision) => Ok(decision@),
        Err(e) => Err(e@),
    }
}

/// Whether `identity_built` can be the answer for the credentials of a
/// request.
pub open spec fn identity_answer_fits(
    details: Option<ConnectorAccountDetails>,
    identity_built: bool,
) -> bool {
    match auth_of(details) {
        Some(auth) => identity_answer_possible(auth, identity_built),
        None => true,
    }
}

/// Whether the credentials of a request are such that stand in until real
/// ones arrive.
pub open spec fn has_temporary_auth(request: MerchantConnectorCreate) -> bool {
    match auth_of(request.connector_account_details) {
        Some(auth) => shape_of(auth) == AuthShape::TemporaryAuth,
        None => false,
    }
}

/// Whether what was decided fits the request: an account on temporary
/// credentials is inactive, and an inactive account is disabled.
pub open spec fn decision_fits(
    request: MerchantConnectorCreate,
    decision: ConnectorCreateDecision,
) -> bool {
    &&& has_temporary_auth(request) ==> decision.status == ConnectorStatus::Inactive
    &&& decision.status == ConnectorStatus::Inactive ==> decision.disabled == Some(true)
}

/// What the collaborators have prepared for the record of a new connector
/// account.
#[derive(Clone, Debug, PartialEq, Eq)]
pub struct ConnectorCreateInputs {
    /// A fresh identifier for the account.
    pub merchant_connector_id: String,
    /// The credentials of the request, encrypted.
    pub encrypted_connector_account_details: Vec<u8>,
    /// The recipient data to keep with the account, encrypted.
    pub encrypted_additional_merchant_data: Option<Vec<u8>>,
    /// The wallet details read from the metadata, encrypted.
    pub connector_wallets_details: Option<Vec<u8>>,
    /// The time of creation.
    pub now: i64,
}

/// Whether `account` is the record of a new connector account for a
/// request under a profile: it belongs to the profile and its merchant,
/// carries the label, status and disabled flag that were decided, the
/// values that the collaborators have prepared, and the request's own
/// values in every other field.
pub open spec fn is_record_of(
    account: MerchantConnectorAccount,
    request: MerchantConnectorCreate,
    business_profile: BusinessProfile,
    decision: ConnectorCreateDecision,
    inputs: ConnectorCreateInputs,
) -> bool {
    &&& account.merchant_id == business_profile.merchant_id
    &&& account.connector_type == request.connector_type
    &&& account.connector_name@ == connector_name(request.connector_name)
    &&& account.merchant_connector_id == inputs.merchant_connector_id
    &&& account.connector_account_details == inputs.encrypted_connector_account_details
    &&& account.payment_methods_enabled == request.payment_methods_enabled
    &&& account.disabled == decision.disabled
    &&& account.metadata == request.metadata
    &&& account.frm_configs == request.frm_configs
    &&& account.connector_label == Some(decision.connector_label)
    &&& account.created_at == inputs.now
    &&& account.modified_at == inputs.now
    &&& account.connector_webhook_details == request.connector_webhook_details
    &&& account.profile_id == business_profile.profile_id
    &&& account.applepay_verified_domains is None
    &&& account.pm_auth_config == request.pm_auth_config
    &&& account.status == decision.status
    &&& account.connector_wallets_details == inputs.connector_wallets_details
    &&& account.test_mode == request.test_mode
    &&& account.business_country == request.business_country
    &&& account.business_label == request.business_label
    &&& account.business_sub_label == request.business_sub_label
    &&& account.additional_merchant_data == inputs.encrypted_additional_merchant_data
}

impl MerchantConnectorCreate {
    /// Holds the request to the rules and decides label, status and
    /// disabled flag of the new account and what its recipient data needs:
    /// [`create_decision`]. Nothing has been sent to a collaborator when
    /// this returns.
    pub fn validate_request(
        &self,
        business_profile: &BusinessProfile,
        locker_based_connectors: &ConnectorNames,
    ) -> (result:
        Result<ConnectorCreateDecision, ApiErrorResponse>)
        ensures
            exists|identity_built: bool|
                identity_answer_fits(self.connector_account_details, identity_built) && decided(
                    result,
                ) == #[trigger] create_decision(
                    *self,
                    *business_profile,
                    *locker_based_connectors,
                    identity_built,
                ),
            result matches Ok(decision) ==> decision_fits(*self, decision),
    {
        let connector_label = self.get_connector_label(&business_profile.profile_name);
        let auth = match &self.connector_account_details {
            Some(ConnectorAccountDetails::Auth(auth)) => auth,
            _ => {
                let result = Err(
                    invalid_data_format("connector_account_details", "auth_type and api_key"),
                );
                assert(decided(result) == create_decision(
                    *self,
                    *business_profile,
                    *locker_based_connectors,
                    true,
                ));
                return result;
            },
        };
        let connector_auth_type_and_metadata_validation = ConnectorAuthTypeAndMetadataValidation {
            connector_name: &self.connector_name,
            auth_type: auth,
            connector_meta_data: &self.metadata,
        };
        let validated =
            connector_auth_type_and_metadata_validation.validate_auth_and_metadata_type();
        let ghost identity_built = choose|identity_built: bool|
            identity_answer_possible(*auth, identity_built) && fault_of(validated)
                == #[trigger] validation_fault(
                self.connector_name,
                *auth,
                self.metadata,
                identity_built,
            );
        if let Err(e) = validated {
            let result = Err(e);
            assert(decided(result) == create_decision(
                *self,
                *business_profile,
                *locker_based_connectors,
                identity_built,
            ));
            return result;
        }
        let connector_status_and_disabled_validation = ConnectorStatusAndDisabledValidation {
            status: &self.status,
            disabled: &self.disabled,
            auth,
            current_status: &ConnectorStatus::Active,
        };
        let (status, disabled) =
            match connector_status_and_disabled_validation.validate_status_and_disabled() {
            Ok(pair) => pair,
            Err(e) => {
                let result = Err(e);
                assert(decided(result) == create_decision(
                    *self,
                    *business_profile,
                    *locker_based_connectors,
                    identity_built,
                ));
                return result;
            },
        };
        match &self.additional_merchant_data {
            None => {
                let result = Ok(
                    ConnectorCreateDecision { connector_label, status, disabled, recipient: None },
                );
                assert(decided(result) == create_decision(
                    *self,
                    *business_profile,
                    *locker_based_connectors,
                    identity_built,
                ));
                result
            },
            Some(data) => {
                let plan = process_open_banking_connectors(
                    &self.connector_type,
                    &self.connector_name,
                    data.duplicate(),
                    locker_based_connectors,
                );
                let result = match plan {
                    Err(e) => Err(e),
                    Ok(step) => Ok(
                        ConnectorCreateDecision {
                            connector_label,
                            status,
                            disabled,
                            recipient: Some(step),
                        },
                    ),
                };
                assert(decided(result) == create_decision(
                    *self,
                    *business_profile,
                    *locker_based_connectors,
                    identity_built,
                ));
                result
            },
        }
    }

    /// Whether what was decided fits the request: [`decision_fits`].
    pub fn fits(&self, decision: &ConnectorCreateDecision) -> (fits: bool)
        ensures
            fits == decision_fits(*self, *decision),
    {
        let temporary = match &self.connector_account_details {
            Some(ConnectorAccountDetails::Auth(auth)) => auth.is_temporary(),
            _ => false,
        };
        let inactive = match decision.status {
            ConnectorStatus::Inactive => true,
            _ => false,
        };
        let disabled = match decision.disabled {
            Some(disabled) => disabled,
            None => false,
        };
        (!temporary || inactive) && (!inactive || disabled)
    }

    /// Builds the record of the new connector account under a profile, from
    /// the request, what was decided about it and what the collaborators
    /// have prepared: [`is_record_of`]. The decision must fit the request,
    /// as every decision of [`Self::validate_request`] does, so that the
    /// record is never active on temporary credentials and is disabled
    /// whenever it is inactive.
    pub fn create_domain_model_from_request(
        self,
        business_profile: &BusinessProfile,
        decision: ConnectorCreateDecision,
        inputs: ConnectorCreateInputs,
    ) -> (account: MerchantConnectorAccount)
        requires
            decision_fits(self, decision),
        ensures
            is_record_of(account, self, *business_profile, decision, inputs),
            has_temporary_auth(self) ==> account.status == ConnectorStatus::Inactive,
            account.status == ConnectorStatus::Inactive ==> account.disabled == Some(true),
    {
        MerchantConnectorAccount {
            merchant_id: business_profile.merchant_id.clone(),
            connector_type: self.connector_type,
            connector_name: self.connector_name.to_string(),
            merchant_connector_id: inputs.merchant_connector_id,
            connector_account_details: inputs.encrypted_connector_account_details,
            payment_methods_enabled: self.payment_methods_enabled,
            disabled: decision.disabled,
            metadata: self.metadata,
            frm_configs: self.frm_configs,
            connector_label: Some(decision.connector_label),
            created_at: inputs.now,
            modified_at: inputs.now,
            connector_webhook_details: self.connector_webhook_details,
            profile_id: business_profile.profile_id.clone(),
            applepay_verified_domains: None,
            pm_auth_config: self.pm_auth_config,
            status: decision.status,
            connector_wallets_details: inputs.connector_wallets_details,
            test_mode: self.test_mode,
            business_country: self.business_country,
            business_label: self.business_label,
            business_sub_label: self.business_sub_label,
            additional_merchant_data: inputs.encrypted_additional_merchant_data,
        }
    }
}

/// An account that comes of a request is never active on temporary
/// credentials, and is disabled whenever it is inactive.
pub proof fn lemma_created_account_is_consistent(
    request: MerchantConnectorCreate,
    profile: BusinessProfile,
    locker_based: ConnectorNames,
    identity_built: bool,
)
    ensures
        create_decision(request, profile, locker_based, identity_built) matches Ok(decision) ==> {
            &&& auth_of(request.connector_account_details) is Some
            &&& has_temporary_auth(request) ==> decision.status == ConnectorStatus::Inactive
            &&& decision.status == ConnectorStatus::Inactive ==> decision.disabled == Some(true)
        },
{
}

/// The record keeps the credentials as the key manager encrypted them:
/// with a key manager whose decryption undoes its encryption, decrypting
/// what the record holds gives back the bytes that were encrypted.
pub proof fn lemma_record_keeps_encrypted_credentials(
    account: MerchantConnectorAccount,
    request: MerchantConnectorCreate,
    business_profile: BusinessProfile,
    decision: ConnectorCreateDecision,
    inputs: ConnectorCreateInputs,
    plaintext: Seq<u8>,
    encrypt: spec_fn(Seq<u8>) -> Seq<u8>,
    decrypt: spec_fn(Seq<u8>) -> Seq<u8>,
)
    requires
        is_record_of(account, request, business_profile, decision, inputs),
        inputs.encrypted_connector_account_details@ == encrypt(plaintext),
        forall|bytes: Seq<u8>| #[trigger] decrypt(encrypt(bytes)) == bytes,
    ensures
        decrypt(account.connector_account_details@) == plaintext,
{
}

} // verus!
