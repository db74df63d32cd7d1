//! Merchant accounts: their creation and update, the keys and
//! configuration entries that go with them, and the switch between storage
//! schemes.

use vstd::prelude::*;
use vstd::string::StringExecFns;

use crate::auth::{is_blank, is_blank_text};
use crate::domain::{BusinessProfile, MerchantAccount, PrimaryBusinessDetails, ReconStatus};
use crate::profile_update::{profile_lookup, validate_and_get_business_profile};
use crate::enums::MerchantStorageScheme;
use crate::errors::{
    invalid_request, invalid_request_data, ApiError, ApiErrorResponse, StorageError,
};

verus! {

/// The environment a deployment runs in.
#[derive(Clone, Copy, Debug, PartialEq, Eq, Structural)]
pub enum Env {
    Development,
    Sandbox,
    Production,
}

/// The short name of an environment in keys.
pub open spec fn env_prefix(env: Env) -> Seq<char> {
    match env {
        Env::Development => "dev"@,
        Env::Sandbox => "snd"@,
        Env::Production => "prd"@,
    }
}

impl Env {
    /// The short name of the environment in keys.
    pub fn prefix_for_env(&self) -> (prefix: &'static str)
        ensures
            prefix@ == env_prefix(*self),
    {
        match self {
            Env::Development => "dev",
            Env::Sandbox => "snd",
            Env::Production => "prd",
        }
    }
}

/// Whether a character is a digit of a lower-case hexadecimal number.
pub open spec fn is_lower_hex(c: char) -> bool {
    '0' as u32 <= c as u32 <= '9' as u32 || 'a' as u32 <= c as u32 <= 'f' as u32
}

/// Whether a text is a UUID in its simple form: 32 hexadecimal digits in
/// lower case.
pub open spec fn is_simple_uuid(text: Seq<char>) -> bool {
    text.len() == 32 && forall|i: int| 0 <= i < 32 ==> is_lower_hex(#[trigger] text[i])
}

/// The publishable key made of an environment's short name and an identifier.
pub open spec fn publishable_key_of(prefix: Seq<char>, id: Seq<char>) -> Seq<char> {
    "pk_"@ + prefix + "_"@ + id
}

/// Draws a random UUID with `uuid::Uuid::new_v4` and writes it in its simple
/// form. Which identifier comes is left open; every one is 32 lower-case
/// hexadecimal digits.
#[verifier::external_body]
fn new_v4_simple() -> (id: String)
    ensures
        is_simple_uuid(id@),
{
    uuid::Uuid::new_v4().simple().to_string()
}

/// Writes a publishable key for an identifier.
pub fn publishable_key_from(prefix: &str, id: &str) -> (key: String)
    ensures
        key@ == publishable_key_of(prefix@, id@),
{
    String::from_str("pk_").concat(prefix).concat("_").concat(id)
}

/// Creates the publishable key of a new merchant: `pk_`, the short name of
/// the environment, `_`, and a fresh random UUID in its simple form.
pub fn create_merchant_publishable_key(env: Env) -> (key: String)
    ensures
        exists|id: Seq<char>|
            is_simple_uuid(id) && key@ == #[trigger] publishable_key_of(env_prefix(env), id),
{
    let id = new_v4_simple();
    publishable_key_from(env.prefix_for_env(), id.as_str())
}

/// An entry for the configuration store.
#[derive(Clone, Debug, PartialEq, Eq)]
pub struct ConfigNew {
    pub key: String,
    pub config: String,
}

/// The key of the entry that says whether a merchant requires the CVV.
pub open spec fn requires_cvv_key(merchant_id: Seq<char>) -> Seq<char> {
    merchant_id + "_requires_cvv"@
}

/// The key of the entry that holds a merchant's fingerprint secret.
pub open spec fn fingerprint_secret_key(merchant_id: Seq<char>) -> Seq<char> {
    "fingerprint_secret_"@ + merchant_id
}

/// The key of the entry that says whether a merchant requires the CVV.
pub fn get_requires_cvv_key(merchant_id: &String) -> (key: String)
    ensures
        key@ == requires_cvv_key(merchant_id@),
{
    merchant_id.clone().concat("_requires_cvv")
}

/// The configuration entries of a new merchant, in the order in which they
/// are inserted: that the CVV is required, then the fingerprint secret.
pub fn insert_merchant_configs(merchant_id: &String, fingerprint_secret: String) -> (entries: Vec<
    ConfigNew,
>)
    ensures
        entries@.len() == 2,
        entries@[0].key@ == requires_cvv_key(merchant_id@),
        entries@[0].config@ == "true"@,
        entries@[1].key@ == fingerprint_secret_key(merchant_id@),
        entries@[1].config == fingerprint_secret,
{
    let mut entries: Vec<ConfigNew> = Vec::new();
    entries.push(
        ConfigNew { key: get_requires_cvv_key(merchant_id), config: String::from_str("true") },
    );
    entries.push(
        ConfigNew {
            key: String::from_str("fingerprint_secret_").concat(merchant_id.as_str()),
            config: fingerprint_secret,
        },
    );
    entries
}

/// What is done about the organization of a new merchant.
#[derive(Clone, Debug, PartialEq, Eq)]
pub enum CreateOrValidateOrganization {
    /// A new organization is created.
    Create,
    /// The organization must exist in the records.
    Validate { organization_id: String },
}

impl CreateOrValidateOrganization {
    /// An organization that is named is validated; where none is named, one
    /// is created.
    pub fn new(organization_id: Option<String>) -> (action: Self)
        ensures
            action == (match organization_id {
                Some(organization_id) => CreateOrValidateOrganization::Validate {
                    organization_id,
                },
                None => CreateOrValidateOrganization::Create,
            }),
    {
        if let Some(organization_id) = organization_id {
            Self::Validate { organization_id }
        } else {
            Self::Create
        }
    }

    /// Reads what the store answered when the action was applied: the
    /// organization's identifier, or for a creation that failed an internal
    /// server error, for a validation that found nothing the error that no
    /// such organization exists, and for any other failure an internal
    /// server error.
    pub fn create_or_validate(&self, outcome: Result<String, StorageError>) -> (result: Result<
        String,
        ApiErrorResponse,
    >)
        ensures
            match outcome {
                Ok(id) => result == Ok::<String, ApiErrorResponse>(id),
                Err(err) => result matches Err(e) && e@ == (if *self is Validate && err
                    == StorageError::ValueNotFound {
                    ApiError::GenericNotFoundError {
                        message: "organization with the given id does not exist"@,
                    }
                } else {
                    ApiError::InternalServerError
                }),
            },
    {
        match outcome {
            Ok(id) => Ok(id),
            Err(err) => match self {
                Self::Create => Err(ApiErrorResponse::InternalServerError),
                Self::Validate { .. } => match err {
                    StorageError::ValueNotFound => Err(
                        ApiErrorResponse::GenericNotFoundError {
                            message: String::from_str(
                                "organization with the given id does not exist",
                            ),
                        },
                    ),
                    _ => Err(ApiErrorResponse::InternalServerError),
                },
            },
        }
    }
}

/// The message for sub-merchants enabled without a parent merchant.
pub open spec fn parent_mandatory_message() -> Seq<char> {
    "If `sub_merchants_enabled` is `true`, then `parent_merchant_id` is mandatory"@
}

/// Says which merchant has to be looked up as the parent of a merchant:
/// the one named, where sub-merchants are enabled, and none otherwise.
/// Enabling sub-merchants without naming a parent is refused.
pub fn get_parent_merchant<'a>(
    sub_merchants_enabled: Option<bool>,
    parent_merchant: Option<&'a String>,
) -> (result: Result<Option<&'a String>, ApiErrorResponse>)
    ensures
        sub_merchants_enabled != Some(true) ==> result == Ok::<
            Option<&'a String>,
            ApiErrorResponse,
        >(None),
        sub_merchants_enabled == Some(true) ==> match parent_merchant {
            Some(id) => result == Ok::<Option<&'a String>, ApiErrorResponse>(Some(id)),
            None => result matches Err(e) && e@ == (ApiError::PreconditionFailed {
                message: parent_mandatory_message(),
            }),
        },
{
    match sub_merchants_enabled {
        Some(true) => match parent_merchant {
            Some(id) => Ok(Some(id)),
            None => Err(
                ApiErrorResponse::PreconditionFailed {
                    message: String::from_str(
                        "If `sub_merchants_enabled` is `true`, then `parent_merchant_id` is mandatory",
                    ),
                },
            ),
        },
        _ => Ok(None),
    }
}

/// Reads the look-up of a parent merchant: its identifier where it was
/// found, an invalid value of the parent's identifier where it was not.
pub fn validate_merchant_id(found: Result<MerchantAccount, StorageError>) -> (result: Result<
    String,
    ApiErrorResponse,
>)
    ensures
        match found {
            Ok(parent) => result == Ok::<String, ApiErrorResponse>(parent.merchant_id),
            Err(_) => result matches Err(e) && e@ == (ApiError::InvalidDataValue {
                field_name: "parent_merchant_id"@,
            }),
        },
{
    match found {
        Ok(parent) => Ok(parent.merchant_id),
        Err(_) => Err(
            ApiErrorResponse::InvalidDataValue {
                field_name: String::from_str("parent_merchant_id"),
            },
        ),
    }
}

/// A request to create a merchant account.
#[derive(Clone, Debug, PartialEq, Eq)]
pub struct MerchantAccountCreate {
    pub merchant_id: String,
    pub merchant_name: Option<String>,
    pub merchant_details: Option<String>,
    pub return_url: Option<String>,
    pub webhook_details: Option<String>,
    pub routing_algorithm: Option<String>,
    pub payout_routing_algorithm: Option<String>,
    pub sub_merchants_enabled: Option<bool>,
    pub parent_merchant_id: Option<String>,
    pub enable_payment_response_hash: Option<bool>,
    pub payment_response_hash_key: Option<String>,
    pub redirect_to_merchant_with_http_post: Option<bool>,
    pub metadata: Option<String>,
    pub locker_id: Option<String>,
    pub primary_business_details: Option<Vec<PrimaryBusinessDetails>>,
    pub frm_routing_algorithm: Option<String>,
    pub organization_id: Option<String>,
    pub pm_collect_link_config: Option<String>,
}

/// Which documents of a request about a merchant could be read. A document
/// that the request does not carry is not asked about.
#[derive(Clone, Copy, Debug, PartialEq, Eq, Structural)]
pub struct MerchantDocuments {
    pub primary_business_details_readable: bool,
    pub pm_collect_link_config_readable: bool,
    pub merchant_details_readable: bool,
    pub routing_algorithm_readable: bool,
    pub metadata_readable: bool,
}

impl MerchantDocuments {
    /// Every document could be read.
    pub fn all_readable() -> (documents: Self)
        ensures
            documents == (MerchantDocuments {
                primary_business_details_readable: true,
                pm_collect_link_config_readable: true,
                merchant_details_readable: true,
                routing_algorithm_readable: true,
                metadata_readable: true,
            }),
    {
        MerchantDocuments {
            primary_business_details_readable: true,
            pm_collect_link_config_readable: true,
            merchant_details_readable: true,
            routing_algorithm_readable: true,
            metadata_readable: true,
        }
    }
}

/// The error for a document that cannot be read.
pub open spec fn unreadable_document(field_name: Seq<char>) -> ApiError {
    ApiError::InvalidDataValue { field_name }
}

/// The first document of a request to create a merchant that cannot be
/// read, in the order in which they are looked at: the primary business
/// details, the configuration of payment method collect links, the
/// merchant's details, the routing algorithm, the metadata.
pub open spec fn create_request_fault(
    request: MerchantAccountCreate,
    documents: MerchantDocuments,
) -> Option<ApiError> {
    if request.primary_business_details is Some && !documents.primary_business_details_readable {
        Some(unreadable_document("primary_business_details"@))
    } else if request.pm_collect_link_config is Some
        && !documents.pm_collect_link_config_readable {
        Some(unreadable_document("pm_collect_link_config"@))
    } else if request.merchant_details is Some && !documents.merchant_details_readable {
        Some(unreadable_document("merchant_details"@))
    } else if request.routing_algorithm is Some && !documents.routing_algorithm_readable {
        Some(unreadable_document("routing_algorithm"@))
    } else if request.metadata is Some && !documents.metadata_readable {
        Some(unreadable_document("metadata"@))
    } else {
        None
    }
}

/// The first document of a request to update a merchant that cannot be
/// read, in the order in which they are looked at: the primary business
/// details, the configuration of payment method collect links, the
/// merchant's details, the routing algorithm. The metadata is taken as it
/// comes.
pub open spec fn update_request_fault(
    request: MerchantAccountUpdate,
    documents: MerchantDocuments,
) -> Option<ApiError> {
    if request.primary_business_details is Some && !documents.primary_business_details_readable {
        Some(unreadable_document("primary_business_details"@))
    } else if request.pm_collect_link_config is Some
        && !documents.pm_collect_link_config_readable {
        Some(unreadable_document("pm_collect_link_config"@))
    } else if request.merchant_details is Some && !documents.merchant_details_readable {
        Some(unreadable_document("merchant_details"@))
    } else if request.routing_algorithm is Some && !documents.routing_algorithm_readable {
        Some(unreadable_document("routing_algorithm"@))
    } else {
        None
    }
}

/// The outcome of a check as an optional error.
pub open spec fn request_fault_of(result: Result<(), ApiErrorResponse>) -> Option<ApiError> {
    match result {
        Ok(_) => None,
        Err(e) => Some(e@),
    }
}

fn unreadable(field_name: &str) -> (result: Result<(), ApiErrorResponse>)
    ensures
        request_fault_of(result) == Some(unreadable_document(field_name@)),
{
    Err(ApiErrorResponse::InvalidDataValue { field_name: String::from_str(field_name) })
}

/// Whether `account` is the record of a new merchant for a request: it
/// starts on the relational store only, without a default profile and
/// without reconciliation, with the request's own values wherever it has
/// them: the hash of payment responses is on unless switched off, the
/// redirect by HTTP POST off unless switched on, and the hash key is the
/// generated one unless the request names one.
pub open spec fn is_new_merchant(
    account: MerchantAccount,
    request: MerchantAccountCreate,
    identifier: String,
    inputs: MerchantAccountCreateInputs,
) -> bool {
    &&& account.merchant_id == identifier
    &&& account.merchant_name == inputs.encrypted_merchant_name
    &&& account.merchant_details == inputs.encrypted_merchant_details
    &&& account.return_url == request.return_url
    &&& account.webhook_details == request.webhook_details
    &&& account.routing_algorithm matches Some(reference)
    &&& reference@ == unset_routing_algorithm()
    &&& account.sub_merchants_enabled == request.sub_merchants_enabled
    &&& account.parent_merchant_id == inputs.parent_merchant_id
    &&& account.enable_payment_response_hash == (request.enable_payment_response_hash != Some(
        false,
    ))
    &&& account.payment_response_hash_key == Some(
        match request.payment_response_hash_key {
            Some(key) => key,
            None => inputs.generated_payment_response_hash_key,
        },
    )
    &&& account.redirect_to_merchant_with_http_post == (
    request.redirect_to_merchant_with_http_post == Some(true))
    &&& account.publishable_key == inputs.publishable_key
    &&& account.locker_id == request.locker_id
    &&& account.metadata == request.metadata
    &&& account.storage_scheme == MerchantStorageScheme::PostgresOnly
    &&& account.primary_business_details@ == (match request.primary_business_details {
        Some(d) => d@,
        None => Seq::<PrimaryBusinessDetails>::empty(),
    })
    &&& account.created_at == inputs.now
    &&& account.modified_at == inputs.now
    &&& account.intent_fulfillment_time is None
    &&& account.frm_routing_algorithm == request.frm_routing_algorithm
    &&& account.payout_routing_algorithm == request.payout_routing_algorithm
    &&& account.organization_id == inputs.organization_id
    &&& !account.is_recon_enabled
    &&& account.default_profile is None
    &&& account.recon_status == ReconStatus::NotRequested
    &&& account.payment_link_config is None
    &&& account.pm_collect_link_config == request.pm_collect_link_config
}

/// What the collaborators have prepared for a new merchant account.
#[derive(Clone, Debug, PartialEq, Eq)]
pub struct MerchantAccountCreateInputs {
    /// Which documents of the request could be read.
    pub documents: MerchantDocuments,
    /// The key from [`create_merchant_publishable_key`].
    pub publishable_key: String,
    /// A fresh random key, used where the request names none.
    pub generated_payment_response_hash_key: String,
    /// The parent merchant, validated, where sub-merchants are enabled.
    pub parent_merchant_id: Option<String>,
    /// The organization the merchant belongs to.
    pub organization_id: String,
    /// The merchant's name, encrypted.
    pub encrypted_merchant_name: Option<Vec<u8>>,
    /// The merchant's details, encrypted.
    pub encrypted_merchant_details: Option<Vec<u8>>,
    /// The time of creation.
    pub now: i64,
}

/// The routing algorithm reference of a merchant that has chosen none.
pub open spec fn unset_routing_algorithm() -> Seq<char> {
    "{\"algorithm_id\":null,\"timestamp\":0}"@
}

impl MerchantAccountCreate {
    /// Whether the hash of payment responses is enabled: as asked, and
    /// enabled where the request does not say.
    pub fn get_enable_payment_response_hash(&self) -> (enabled: bool)
        ensures
            enabled == (self.enable_payment_response_hash != Some(false)),
    {
        match self.enable_payment_response_hash {
            Some(enabled) => enabled,
            None => true,
        }
    }

    /// The primary business details of the request, none where there are none.
    pub fn get_primary_details(self) -> (details: Vec<PrimaryBusinessDetails>)
        ensures
            details@ == (match self.primary_business_details {
                Some(d) => d@,
                None => Seq::<PrimaryBusinessDetails>::empty(),
            }),
    {
        match self.primary_business_details {
            Some(d) => d,
            None => Vec::new(),
        }
    }

    /// Looks at the documents of the request: [`create_request_fault`].
    pub fn validate_request(&self, documents: &MerchantDocuments) -> (result: Result<
        (),
        ApiErrorResponse,
    >)
        ensures
            request_fault_of(result) == create_request_fault(*self, *documents),
    {
        if self.primary_business_details.is_some()
            && !documents.primary_business_details_readable {
            return unreadable("primary_business_details");
        }
        if self.pm_collect_link_config.is_some() && !documents.pm_collect_link_config_readable {
            return unreadable("pm_collect_link_config");
        }
        if self.merchant_details.is_some() && !documents.merchant_details_readable {
            return unreadable("merchant_details");
        }
        if self.routing_algorithm.is_some() && !documents.routing_algorithm_readable {
            return unreadable("routing_algorithm");
        }
        if self.metadata.is_some() && !documents.metadata_readable {
            return unreadable("metadata");
        }
        Ok(())
    }

    /// Builds the record of the new merchant from the request. A request
    /// with a document that cannot be read is refused
    /// ([`create_request_fault`]); of every other request the record is
    /// built ([`is_new_merchant`]).
    pub fn create_domain_model_from_request(
        self,
        identifier: &String,
        inputs: MerchantAccountCreateInputs,
    ) -> (result: Result<MerchantAccount, ApiErrorResponse>)
        ensures
            match create_request_fault(self, inputs.documents) {
                Some(fault) => result matches Err(e) && e@ == fault,
                None => result matches Ok(account) && is_new_merchant(
                    account,
                    self,
                    *identifier,
                    inputs,
                ),
            },
    {
        self.validate_request(&inputs.documents)?;
        let enable_payment_response_hash = self.get_enable_payment_response_hash();
        let payment_response_hash_key = match self.payment_response_hash_key {
            Some(key) => key,
            None => inputs.generated_payment_response_hash_key,
        };
        let redirect_to_merchant_with_http_post = match self.redirect_to_merchant_with_http_post {
            Some(redirect) => redirect,
            None => false,
        };
        let primary_business_details = match self.primary_business_details {
            Some(d) => d,
            None => Vec::new(),
        };
        Ok(MerchantAccount {
            merchant_id: identifier.clone(),
            merchant_name: inputs.encrypted_merchant_name,
            merchant_details: inputs.encrypted_merchant_details,
            return_url: self.return_url,
            webhook_details: self.webhook_details,
            routing_algorithm: Some(String::from_str("{\"algorithm_id\":null,\"timestamp\":0}")),
            sub_merchants_enabled: self.sub_merchants_enabled,
            parent_merchant_id: inputs.parent_merchant_id,
            enable_payment_response_hash,
            payment_response_hash_key: Some(payment_response_hash_key),
            redirect_to_merchant_with_http_post,
            publishable_key: inputs.publishable_key,
            locker_id: self.locker_id,
            metadata: self.metadata,
            storage_scheme: MerchantStorageScheme::PostgresOnly,
            primary_business_details,
            created_at: inputs.now,
            modified_at: inputs.now,
            intent_fulfillment_time: None,
            frm_routing_algorithm: self.frm_routing_algorithm,
            payout_routing_algorithm: self.payout_routing_algorithm,
            organization_id: inputs.organization_id,
            is_recon_enabled: false,
            default_profile: None,
            recon_status: ReconStatus::NotRequested,
            payment_link_config: None,
            pm_collect_link_config: self.pm_collect_link_config,
        })
    }
}

/// A request to update a merchant account.
#[derive(Clone, Debug, PartialEq, Eq)]
pub struct MerchantAccountUpdate {
    pub merchant_id: String,
    pub merchant_name: Option<String>,
    pub merchant_details: Option<String>,
    pub return_url: Option<String>,
    pub webhook_details: Option<String>,
    pub routing_algorithm: Option<String>,
    pub payout_routing_algorithm: Option<String>,
    pub sub_merchants_enabled: Option<bool>,
    pub parent_merchant_id: Option<String>,
    pub enable_payment_response_hash: Option<bool>,
    pub payment_response_hash_key: Option<String>,
    pub redirect_to_merchant_with_http_post: Option<bool>,
    pub metadata: Option<String>,
    pub locker_id: Option<String>,
    pub primary_business_details: Option<Vec<PrimaryBusinessDetails>>,
    pub frm_routing_algorithm: Option<String>,
    pub default_profile: Option<String>,
    pub pm_collect_link_config: Option<String>,
}

/// What a request to update a merchant means for the default profile.
#[derive(Clone, Debug, PartialEq, Eq)]
pub enum DefaultProfileRequest {
    /// The request does not speak of the default profile.
    Unchanged,
    /// The request names a blank profile: the default profile is unset.
    Unset,
    /// The request names a profile, which must be one of the merchant's.
    Validate(String),
}

/// A change to the record of a merchant.
#[derive(Clone, Debug, PartialEq, Eq)]
pub enum StorageMerchantAccountUpdate {
    Update {
        merchant_name: Option<Vec<u8>>,
        merchant_details: Option<Vec<u8>>,
        return_url: Option<String>,
        webhook_details: Option<String>,
        sub_merchants_enabled: Option<bool>,
        parent_merchant_id: Option<String>,
        enable_payment_response_hash: Option<bool>,
        payment_response_hash_key: Option<String>,
        redirect_to_merchant_with_http_post: Option<bool>,
        locker_id: Option<String>,
        metadata: Option<String>,
        publishable_key: Option<String>,
        primary_business_details: Vec<PrimaryBusinessDetails>,
        frm_routing_algorithm: Option<String>,
        intent_fulfillment_time: Option<i64>,
        payout_routing_algorithm: Option<String>,
        default_profile: Option<Option<String>>,
        payment_link_config: Option<String>,
        pm_collect_link_config: Option<String>,
        routing_algorithm: Option<String>,
    },
    StorageSchemeUpdate { storage_scheme: MerchantStorageScheme },
    UnsetDefaultProfile,
    ModifiedAtUpdate,
}

/// What the collaborators have prepared for the update of a merchant.
#[derive(Clone, Debug, PartialEq, Eq)]
pub struct MerchantAccountUpdateInputs {
    /// Which documents of the request could be read.
    pub documents: MerchantDocuments,
    /// The parent merchant, validated, where sub-merchants are enabled.
    pub parent_merchant_id: Option<String>,
    /// The new default profile: `Some(None)` to unset it, `Some(Some(id))`
    /// for a profile that was validated, `None` to leave it.
    pub default_profile: Option<Option<String>>,
    /// The merchant's new name, encrypted.
    pub encrypted_merchant_name: Option<Vec<u8>>,
    /// The merchant's new details, encrypted.
    pub encrypted_merchant_details: Option<Vec<u8>>,
}

impl MerchantAccountUpdate {
    /// What the request means for the default profile.
    pub fn default_profile_request(&self) -> (request: DefaultProfileRequest)
        ensures
            request == (match self.default_profile {
                None => DefaultProfileRequest::Unchanged,
                Some(profile_id) => if is_blank(profile_id@) {
                    DefaultProfileRequest::Unset
                } else {
                    DefaultProfileRequest::Validate(profile_id)
                },
            }),
    {
        match &self.default_profile {
            None => DefaultProfileRequest::Unchanged,
            Some(profile_id) => {
                if is_blank_text(profile_id.as_str()) {
                    DefaultProfileRequest::Unset
                } else {
                    DefaultProfileRequest::Validate(profile_id.clone())
                }
            },
        }
    }

    /// Looks at the documents of the request: [`update_request_fault`].
    pub fn validate_request(&self, documents: &MerchantDocuments) -> (result: Result<
        (),
        ApiErrorResponse,
    >)
        ensures
            request_fault_of(result) == update_request_fault(*self, *documents),
    {
        if self.primary_business_details.is_some()
            && !documents.primary_business_details_readable {
            return unreadable("primary_business_details");
        }
        if self.pm_collect_link_config.is_some() && !documents.pm_collect_link_config_readable {
            return unreadable("pm_collect_link_config");
        }
        if self.merchant_details.is_some() && !documents.merchant_details_readable {
            return unreadable("merchant_details");
        }
        if self.routing_algorithm.is_some() && !documents.routing_algorithm_readable {
            return unreadable("routing_algorithm");
        }
        Ok(())
    }

    /// Builds the change to the merchant's record. A request with a
    /// document that cannot be read is refused ([`update_request_fault`]).
    /// The change of every other request takes the request's values as they
    /// are, never touches the publishable key, the time to fulfil an intent
    /// or the payment link configuration, and cannot change the storage
    /// scheme.
    pub fn get_update_merchant_object(self, inputs: MerchantAccountUpdateInputs) -> (result:
        Result<StorageMerchantAccountUpdate, ApiErrorResponse>)
        ensures
            match update_request_fault(self, inputs.documents) {
                Some(fault) => result matches Err(e) && e@ == fault,
                None => result matches Ok(update) && update == (
                StorageMerchantAccountUpdate::Update {
                    merchant_name: inputs.encrypted_merchant_name,
                    merchant_details: inputs.encrypted_merchant_details,
                    return_url: self.return_url,
                    webhook_details: self.webhook_details,
                    sub_merchants_enabled: self.sub_merchants_enabled,
                    parent_merchant_id: inputs.parent_merchant_id,
                    enable_payment_response_hash: self.enable_payment_response_hash,
                    payment_response_hash_key: self.payment_response_hash_key,
                    redirect_to_merchant_with_http_post: self.redirect_to_merchant_with_http_post,
                    locker_id: self.locker_id,
                    metadata: self.metadata,
                    publishable_key: None,
                    primary_business_details: update->primary_business_details,
                    frm_routing_algorithm: self.frm_routing_algorithm,
                    intent_fulfillment_time: None,
                    payout_routing_algorithm: self.payout_routing_algorithm,
                    default_profile: inputs.default_profile,
                    payment_link_config: None,
                    pm_collect_link_config: self.pm_collect_link_config,
                    routing_algorithm: self.routing_algorithm,
                }) && update->primary_business_details@ == (match self.primary_business_details {
                    Some(d) => d@,
                    None => Seq::<PrimaryBusinessDetails>::empty(),
                }),
            },
    {
        self.validate_request(&inputs.documents)?;
        let primary_business_details = match self.primary_business_details {
            Some(d) => d,
            None => Vec::new(),
        };
        Ok(StorageMerchantAccountUpdate::Update {
            merchant_name: inputs.encrypted_merchant_name,
            merchant_details: inputs.encrypted_merchant_details,
            return_url: self.return_url,
            webhook_details: self.webhook_details,
            sub_merchants_enabled: self.sub_merchants_enabled,
            parent_merchant_id: inputs.parent_merchant_id,
            enable_payment_response_hash: self.enable_payment_response_hash,
            payment_response_hash_key: self.payment_response_hash_key,
            redirect_to_merchant_with_http_post: self.redirect_to_merchant_with_http_post,
            locker_id: self.locker_id,
            metadata: self.metadata,
            publishable_key: None,
            primary_business_details,
            frm_routing_algorithm: self.frm_routing_algorithm,
            intent_fulfillment_time: None,
            payout_routing_algorithm: self.payout_routing_algorithm,
            default_profile: inputs.default_profile,
            payment_link_config: None,
            pm_collect_link_config: self.pm_collect_link_config,
            routing_algorithm: self.routing_algorithm,
        })
    }
}

/// Whether a merchant counts as deleted: its account was deleted and, after
/// that, its key store.
pub fn merchant_account_delete(account_deleted: bool, key_store_deleted: bool) -> (deleted: bool)
    ensures
        deleted == (account_deleted && key_store_deleted),
{
    account_deleted && key_store_deleted
}

/// Whether the key-value cache is in use for an account with the scheme.
pub open spec fn kv_enabled(scheme: MerchantStorageScheme) -> bool {
    scheme == MerchantStorageScheme::RedisKv
}

/// The scheme for a requested state of the key-value cache.
pub open spec fn scheme_for(enable: bool) -> MerchantStorageScheme {
    if enable {
        MerchantStorageScheme::RedisKv
    } else {
        MerchantStorageScheme::PostgresOnly
    }
}

/// The message for the key-value cache asked for while it is shut off.
pub open spec fn soft_kill_message() -> Seq<char> {
    "Kv cannot be enabled when application is in soft_kill_mode"@
}

/// Decides the switch of one merchant to or from the key-value cache: no
/// change where the merchant is on the requested scheme already, else the
/// change to the requested scheme; switching the cache on is refused while
/// the deployment has it shut off.
pub fn kv_for_merchant(
    enable: bool,
    current: MerchantStorageScheme,
    kv_soft_kill_mode: bool,
) -> (result:
    Result<Option<StorageMerchantAccountUpdate>, ApiErrorResponse>)
    ensures
        current == scheme_for(enable) ==> result == Ok::<
            Option<StorageMerchantAccountUpdate>,
            ApiErrorResponse,
        >(None),
        current != scheme_for(enable) && enable && kv_soft_kill_mode ==> (result matches Err(e)
            && e@ == invalid_request(soft_kill_message())),
        current != scheme_for(enable) && !(enable && kv_soft_kill_mode) ==> result == Ok::<
            Option<StorageMerchantAccountUpdate>,
            ApiErrorResponse,
        >(
            Some(
                StorageMerchantAccountUpdate::StorageSchemeUpdate {
                    storage_scheme: scheme_for(enable),
                },
            ),
        ),
{
    match (enable, current) {
        (true, MerchantStorageScheme::RedisKv) | (false, MerchantStorageScheme::PostgresOnly) => Ok(
            None,
        ),
        (true, MerchantStorageScheme::PostgresOnly) => {
            if kv_soft_kill_mode {
                Err(
                    invalid_request_data(
                        "Kv cannot be enabled when application is in soft_kill_mode",
                    ),
                )
            } else {
                Ok(
                    Some(
                        StorageMerchantAccountUpdate::StorageSchemeUpdate {
                            storage_scheme: MerchantStorageScheme::RedisKv,
                        },
                    ),
                )
            }
        },
        (false, MerchantStorageScheme::RedisKv) => Ok(
            Some(
                StorageMerchantAccountUpdate::StorageSchemeUpdate {
                    storage_scheme: MerchantStorageScheme::PostgresOnly,
                },
            ),
        ),
    }
}

/// The change that switches every merchant to or from the key-value cache.
pub fn toggle_kv_for_all_merchants(enable: bool) -> (update: StorageMerchantAccountUpdate)
    ensures
        update == (StorageMerchantAccountUpdate::StorageSchemeUpdate {
            storage_scheme: scheme_for(enable),
        }),
{
    let storage_scheme = if enable {
        MerchantStorageScheme::RedisKv
    } else {
        MerchantStorageScheme::PostgresOnly
    };
    StorageMerchantAccountUpdate::StorageSchemeUpdate { storage_scheme }
}

/// Whether the key-value cache is in use for a merchant.
pub fn check_merchant_account_kv_status(merchant_account: &MerchantAccount) -> (enabled: bool)
    ensures
        enabled == kv_enabled(merchant_account.storage_scheme),
{
    match merchant_account.storage_scheme {
        MerchantStorageScheme::RedisKv => true,
        MerchantStorageScheme::PostgresOnly => false,
    }
}

/// A switch of the key-value cache that succeeds leaves the merchant on the
/// requested scheme, whether a change was needed or not.
pub proof fn lemma_kv_switch_reaches_request(enable: bool, current: MerchantStorageScheme)
    ensures
        current == scheme_for(enable) ==> kv_enabled(current) == enable,
        kv_enabled(scheme_for(enable)) == enable,
{
}

/// The default profile that an update gives a merchant: `None` leaves it,
/// `Some(None)` unsets it, and a profile that the request names becomes the
/// default profile only if it is found and is the merchant's own. `found`
/// is what the store answered for the profile named; it is not looked at
/// where the request names none.
pub open spec fn default_profile_update(
    request: DefaultProfileRequest,
    found: Result<BusinessProfile, StorageError>,
    merchant_id: Seq<char>,
) -> Result<Option<Option<String>>, ApiError> {
    match request {
        DefaultProfileRequest::Unchanged => Ok(None),
        DefaultProfileRequest::Unset => Ok(Some(None)),
        DefaultProfileRequest::Validate(profile_id) => match profile_lookup(
            found,
            profile_id@,
            merchant_id,
        ) {
            Ok(profile) => Ok(Some(Some(profile.profile_id))),
            Err(fault) => Err(fault),
        },
    }
}

/// Decides the default profile that an update gives a merchant.
pub fn resolve_default_profile(
    request: DefaultProfileRequest,
    found: Result<BusinessProfile, StorageError>,
    merchant_id: &String,
) -> (result: Result<Option<Option<String>>, ApiErrorResponse>)
    ensures
        match default_profile_update(request, found, merchant_id@) {
            Ok(update) => result == Ok::<Option<Option<String>>, ApiErrorResponse>(update),
            Err(fault) => result matches Err(e) && e@ == fault,
        },
{
    match request {
        DefaultProfileRequest::Unchanged => Ok(None),
        DefaultProfileRequest::Unset => Ok(Some(None)),
        DefaultProfileRequest::Validate(profile_id) => {
            let profile = validate_and_get_business_profile(found, &profile_id, merchant_id)?;
            Ok(Some(Some(profile.profile_id)))
        },
    }
}

/// A profile that an update makes the default profile of a merchant is a
/// profile of that merchant.
pub proof fn lemma_default_profile_is_owned(
    request: DefaultProfileRequest,
    found: Result<BusinessProfile, StorageError>,
    merchant_id: Seq<char>,
)
    ensures
        default_profile_update(request, found, merchant_id) matches Ok(Some(Some(id))) ==> found
            matches Ok(profile) && profile.profile_id == id && profile.merchant_id@
            == merchant_id,
{
}

} // verus!
