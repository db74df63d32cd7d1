//! Changes to business profiles: the general update, the check that a
//! profile is the merchant's own, and the switches kept on a profile.

use vstd::prelude::*;
use vstd::string::StringExecFns;

use crate::domain::BusinessProfile;
use crate::errors::{
    invalid_request, to_not_found_response, ApiError, ApiErrorResponse, StorageError,
};
use crate::profile::{
    fault, intent_fulfillment_message, session_expiry_message, validate_intent_fulfillment_expiry,
    validate_session_expiry, MAX_INTENT_FULFILLMENT_EXPIRY, MAX_SESSION_EXPIRY,
    MIN_INTENT_FULFILLMENT_EXPIRY, MIN_SESSION_EXPIRY,
};
use crate::routing::RoutableConnectorChoice;

verus! {

/// A request to update a business profile.
#[derive(Clone, Debug, PartialEq, Eq)]
pub struct BusinessProfileUpdate {
    pub profile_name: Option<String>,
    pub return_url: Option<String>,
    pub enable_payment_response_hash: Option<bool>,
    pub payment_response_hash_key: Option<String>,
    pub redirect_to_merchant_with_http_post: Option<bool>,
    pub webhook_details: Option<String>,
    pub metadata: Option<String>,
    pub routing_algorithm: Option<String>,
    pub intent_fulfillment_time: Option<u32>,
    pub frm_routing_algorithm: Option<String>,
    pub payout_routing_algorithm: Option<String>,
    pub applepay_verified_domains: Option<Vec<String>>,
    pub session_expiry: Option<u32>,
    pub payment_link_config: Option<String>,
    pub authentication_connector_details: Option<String>,
    pub payout_link_config: Option<String>,
    pub extended_card_info_config: Option<String>,
    pub use_billing_as_payment_method_billing: Option<bool>,
    pub collect_shipping_details_from_wallet_connector: Option<bool>,
    pub collect_billing_details_from_wallet_connector: Option<bool>,
    pub is_connector_agnostic_mit_enabled: Option<bool>,
    pub outgoing_webhook_custom_http_headers: Option<String>,
}

/// The general change to the record of a business profile.
#[derive(Clone, Debug, PartialEq, Eq)]
pub struct BusinessProfileGeneralUpdate {
    pub profile_name: Option<String>,
    pub return_url: Option<String>,
    pub enable_payment_response_hash: Option<bool>,
    pub payment_response_hash_key: Option<String>,
    pub redirect_to_merchant_with_http_post: Option<bool>,
    pub webhook_details: Option<String>,
    pub metadata: Option<String>,
    pub routing_algorithm: Option<String>,
    pub intent_fulfillment_time: Option<i64>,
    pub frm_routing_algorithm: Option<String>,
    pub payout_routing_algorithm: Option<String>,
    pub applepay_verified_domains: Option<Vec<String>>,
    pub payment_link_config: Option<String>,
    pub session_expiry: Option<i64>,
    pub authentication_connector_details: Option<String>,
    pub payout_link_config: Option<String>,
    pub extended_card_info_config: Option<String>,
    pub use_billing_as_payment_method_billing: Option<bool>,
    pub collect_shipping_details_from_wallet_connector: Option<bool>,
    pub collect_billing_details_from_wallet_connector: Option<bool>,
    pub is_connector_agnostic_mit_enabled: Option<bool>,
    pub outgoing_webhook_custom_http_headers: Option<Vec<u8>>,
}

/// A change to the record of a business profile.
#[derive(Clone, Debug, PartialEq, Eq)]
pub enum StorageBusinessProfileUpdate {
    Update(BusinessProfileGeneralUpdate),
    RoutingAlgorithmUpdate {
        routing_algorithm_id: Option<String>,
        payout_routing_algorithm_id: Option<String>,
    },
    DefaultRoutingFallbackUpdate { default_fallback_routing: Option<Vec<RoutableConnectorChoice>> },
    ExtendedCardInfoUpdate { is_extended_card_info_enabled: Option<bool> },
    ConnectorAgnosticMitUpdate { is_connector_agnostic_mit_enabled: Option<bool> },
}

/// What the collaborators have prepared for the update of a profile.
#[derive(Clone, Debug, PartialEq, Eq)]
pub struct BusinessProfileUpdateInputs {
    /// Whether the routing algorithm of the request, if any, could be read.
    pub routing_algorithm_readable: bool,
    /// What is wrong with the payment link configuration, if anything.
    pub payment_link_config_fault: Option<String>,
    /// What is wrong with the payout link configuration, if anything.
    pub payout_link_config_fault: Option<String>,
    /// The custom headers for outgoing webhooks, encrypted.
    pub encrypted_outgoing_webhook_custom_http_headers: Option<Vec<u8>>,
}

/// The seconds of a request, widened.
pub open spec fn seconds_of(time: Option<u32>) -> Option<i64> {
    match time {
        Some(t) => Some(t as i64),
        None => None,
    }
}

fn widen(time: Option<u32>) -> (seconds: Option<i64>)
    ensures
        seconds == seconds_of(time),
{
    match time {
        Some(t) => Some(t as i64),
        None => None,
    }
}

impl BusinessProfileUpdate {
    /// The first fault of the request, in the order in which it is checked:
    /// the session expiry, the intent fulfilment time, the routing
    /// algorithm, the payment link configuration, the payout link
    /// configuration.
    pub open spec fn request_fault(self, inputs: BusinessProfileUpdateInputs) -> Option<ApiError> {
        if self.session_expiry matches Some(expiry) && !(MIN_SESSION_EXPIRY <= expiry
            <= MAX_SESSION_EXPIRY) {
            Some(invalid_request(session_expiry_message()))
        } else if self.intent_fulfillment_time matches Some(time) && !(
        MIN_INTENT_FULFILLMENT_EXPIRY <= time <= MAX_INTENT_FULFILLMENT_EXPIRY) {
            Some(invalid_request(intent_fulfillment_message()))
        } else if self.routing_algorithm is Some && !inputs.routing_algorithm_readable {
            Some(ApiError::InvalidDataValue { field_name: "routing_algorithm"@ })
        } else if self.payment_link_config is Some && inputs.payment_link_config_fault is Some {
            Some(invalid_request(inputs.payment_link_config_fault->0@))
        } else if self.payout_link_config is Some && inputs.payout_link_config_fault is Some {
            Some(invalid_request(inputs.payout_link_config_fault->0@))
        } else {
            None
        }
    }

    /// Builds the change to the record of the profile: the request as it
    /// stands, once it has passed its checks ([`Self::request_fault`]).
    pub fn get_update_business_profile_object(self, inputs: BusinessProfileUpdateInputs) -> (result:
        Result<StorageBusinessProfileUpdate, ApiErrorResponse>)
        ensures
            match self.request_fault(inputs) {
                Some(fault) => result matches Err(e) && e@ == fault,
                None => result == Ok::<StorageBusinessProfileUpdate, ApiErrorResponse>(
                    StorageBusinessProfileUpdate::Update(
                        BusinessProfileGeneralUpdate {
                            profile_name: self.profile_name,
                            return_url: self.return_url,
                            enable_payment_response_hash: self.enable_payment_response_hash,
                            payment_response_hash_key: self.payment_response_hash_key,
                            redirect_to_merchant_with_http_post: self.redirect_to_merchant_with_http_post,
                            webhook_details: self.webhook_details,
                            metadata: self.metadata,
                            routing_algorithm: self.routing_algorithm,
                            intent_fulfillment_time: seconds_of(self.intent_fulfillment_time),
                            frm_routing_algorithm: self.frm_routing_algorithm,
                            payout_routing_algorithm: self.payout_routing_algorithm,
                            applepay_verified_domains: self.applepay_verified_domains,
                            payment_link_config: self.payment_link_config,
                            session_expiry: seconds_of(self.session_expiry),
                            authentication_connector_details: self.authentication_connector_details,
                            payout_link_config: self.payout_link_config,
                            extended_card_info_config: self.extended_card_info_config,
                            use_billing_as_payment_method_billing: self.use_billing_as_payment_method_billing,
                            collect_shipping_details_from_wallet_connector: self.collect_shipping_details_from_wallet_connector,
                            collect_billing_details_from_wallet_connector: self.collect_billing_details_from_wallet_connector,
                            is_connector_agnostic_mit_enabled: self.is_connector_agnostic_mit_enabled,
                            outgoing_webhook_custom_http_headers: inputs.encrypted_outgoing_webhook_custom_http_headers,
                        },
                    ),
                ),
            },
    {
        if let Some(session_expiry) = self.session_expiry {
            validate_session_expiry(session_expiry)?;
        }
        if let Some(intent_fulfillment_expiry) = self.intent_fulfillment_time {
            validate_intent_fulfillment_expiry(intent_fulfillment_expiry)?;
        }
        if self.routing_algorithm.is_some() && !inputs.routing_algorithm_readable {
            return Err(
                ApiErrorResponse::InvalidDataValue {
                    field_name: String::from_str("routing_algorithm"),
                },
            );
        }
        if self.payment_link_config.is_some() {
            if let Some(message) = inputs.payment_link_config_fault {
                return Err(ApiErrorResponse::InvalidRequestData { message });
            }
        }
        if self.payout_link_config.is_some() {
            if let Some(message) = inputs.payout_link_config_fault {
                return Err(ApiErrorResponse::InvalidRequestData { message });
            }
        }
        Ok(
            StorageBusinessProfileUpdate::Update(
                BusinessProfileGeneralUpdate {
                    profile_name: self.profile_name,
                    return_url: self.return_url,
                    enable_payment_response_hash: self.enable_payment_response_hash,
                    payment_response_hash_key: self.payment_response_hash_key,
                    redirect_to_merchant_with_http_post: self.redirect_to_merchant_with_http_post,
                    webhook_details: self.webhook_details,
                    metadata: self.metadata,
                    routing_algorithm: self.routing_algorithm,
                    intent_fulfillment_time: widen(self.intent_fulfillment_time),
                    frm_routing_algorithm: self.frm_routing_algorithm,
                    payout_routing_algorithm: self.payout_routing_algorithm,
                    applepay_verified_domains: self.applepay_verified_domains,
                    payment_link_config: self.payment_link_config,
                    session_expiry: widen(self.session_expiry),
                    authentication_connector_details: self.authentication_connector_details,
                    payout_link_config: self.payout_link_config,
                    extended_card_info_config: self.extended_card_info_config,
                    use_billing_as_payment_method_billing: self.use_billing_as_payment_method_billing,
                    collect_shipping_details_from_wallet_connector: self.collect_shipping_details_from_wallet_connector,
                    collect_billing_details_from_wallet_connector: self.collect_billing_details_from_wallet_connector,
                    is_connector_agnostic_mit_enabled: self.is_connector_agnostic_mit_enabled,
                    outgoing_webhook_custom_http_headers: inputs.encrypted_outgoing_webhook_custom_http_headers,
                },
            ),
        )
    }
}

/// What the look-up of a profile for a merchant comes to: the profile where
/// it was found and is the merchant's own, "not found" under the identifier
/// asked for where there is none, "forbidden" where the profile belongs to
/// another merchant, and an internal server error where the store failed.
pub open spec fn profile_lookup(
    found: Result<BusinessProfile, StorageError>,
    profile_id: Seq<char>,
    merchant_id: Seq<char>,
) -> Result<BusinessProfile, ApiError> {
    match found {
        Err(StorageError::ValueNotFound) => Err(ApiError::BusinessProfileNotFound { id: profile_id }),
        Err(_) => Err(ApiError::InternalServerError),
        Ok(profile) => if profile.merchant_id@ == merchant_id {
            Ok(profile)
        } else {
            Err(ApiError::AccessForbidden { resource: profile.profile_id@ })
        },
    }
}

/// The outcome of a look-up with its error taken by its value.
pub open spec fn looked_up(result: Result<BusinessProfile, ApiErrorResponse>) -> Result<
    BusinessProfile,
    ApiError,
> {
    match result {
        Ok(profile) => Ok(profile),
        Err(e) => Err(e@),
    }
}

/// Reads the look-up of a profile that a merchant has named: only a profile
/// of the merchant's own is handed on.
pub fn validate_and_get_business_profile(
    found: Result<BusinessProfile, StorageError>,
    profile_id: &String,
    merchant_id: &String,
) -> (result: Result<BusinessProfile, ApiErrorResponse>)
    ensures
        looked_up(result) == profile_lookup(found, profile_id@, merchant_id@),
{
    match found {
        Err(err) => Err(
            to_not_found_response(
                err,
                ApiErrorResponse::BusinessProfileNotFound { id: profile_id.clone() },
            ),
        ),
        Ok(profile) => {
            if profile.merchant_id == *merchant_id {
                Ok(profile)
            } else {
                Err(ApiErrorResponse::AccessForbidden { resource: profile.profile_id })
            }
        },
    }
}

/// A profile may be changed by the merchant that owns it and by no other:
/// another merchant is told that access to the profile is forbidden.
pub fn update_business_profile(
    business_profile: &BusinessProfile,
    profile_id: &str,
    merchant_id: &String,
) -> (result:
    Result<(), ApiErrorResponse>)
    ensures
        fault(result) == (if business_profile.merchant_id@ == merchant_id@ {
            None
        } else {
            Some(ApiError::AccessForbidden { resource: profile_id@ })
        }),
{
    if business_profile.merchant_id == *merchant_id {
        Ok(())
    } else {
        Err(ApiErrorResponse::AccessForbidden { resource: String::from_str(profile_id) })
    }
}

/// The change that brings the switch for extended card information to
/// `enabled`: none where the profile has the switch in that position.
pub fn extended_card_info_toggle(business_profile: &BusinessProfile, enabled: bool) -> (update:
    Option<StorageBusinessProfileUpdate>)
    ensures
        update == (if business_profile.is_extended_card_info_enabled == Some(enabled) {
            None
        } else {
            Some(
                StorageBusinessProfileUpdate::ExtendedCardInfoUpdate {
                    is_extended_card_info_enabled: Some(enabled),
                },
            )
        }),
{
    let changes = match business_profile.is_extended_card_info_enabled {
        None => true,
        Some(existing_config) => existing_config != enabled,
    };
    if changes {
        Some(
            StorageBusinessProfileUpdate::ExtendedCardInfoUpdate {
                is_extended_card_info_enabled: Some(enabled),
            },
        )
    } else {
        None
    }
}

/// The change that brings the switch for connector-agnostic merchant
/// initiated transactions to `enabled`, for the merchant that owns the
/// profile: none where the switch is in that position already. Another
/// merchant is told that access to the profile is forbidden.
pub fn connector_agnostic_mit_toggle(
    business_profile: &BusinessProfile,
    profile_id: &str,
    merchant_id: &String,
    enabled: bool,
) -> (result: Result<Option<StorageBusinessProfileUpdate>, ApiErrorResponse>)
    ensures
        business_profile.merchant_id@ != merchant_id@ ==> (result matches Err(e) && e@ == (
        ApiError::AccessForbidden { resource: profile_id@ })),
        business_profile.merchant_id@ == merchant_id@ ==> result == Ok::<
            Option<StorageBusinessProfileUpdate>,
            ApiErrorResponse,
        >(
            if business_profile.is_connector_agnostic_mit_enabled == Some(enabled) {
                None
            } else {
                Some(
                    StorageBusinessProfileUpdate::ConnectorAgnosticMitUpdate {
                        is_connector_agnostic_mit_enabled: Some(enabled),
                    },
                )
            },
        ),
{
    update_business_profile(business_profile, profile_id, merchant_id)?;
    let unchanged = match business_profile.is_connector_agnostic_mit_enabled {
        Some(existing) => existing == enabled,
        None => false,
    };
    if unchanged {
        Ok(None)
    } else {
        Ok(
            Some(
                StorageBusinessProfileUpdate::ConnectorAgnosticMitUpdate {
                    is_connector_agnostic_mit_enabled: Some(enabled),
                },
            ),
        )
    }
}

/// A profile that another merchant owns is never handed on, and a profile
/// that is handed on is the one that was found.
pub proof fn lemma_foreign_profile_is_refused(
    found: Result<BusinessProfile, StorageError>,
    profile_id: Seq<char>,
    merchant_id: Seq<char>,
)
    ensures
        profile_lookup(found, profile_id, merchant_id) matches Ok(profile) ==> found == Ok::<
            BusinessProfile,
            StorageError,
        >(profile) && profile.merchant_id@ == merchant_id,
        found matches Ok(profile) && profile.merchant_id@ != merchant_id ==> profile_lookup(
            found,
            profile_id,
            merchant_id,
        ) == Err::<BusinessProfile, ApiError>(
            ApiError::AccessForbidden { resource: found->Ok_0.profile_id@ },
        ),
        found is Err ==> profile_lookup(found, profile_id, merchant_id) is Err,
{
}

} // verus!
