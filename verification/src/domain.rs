//! The records that the administration core reads and builds: merchant
//! accounts, business profiles and merchant connector accounts. Values that
//! a key manager has encrypted are held as bytes, documents in JSON as
//! their text.

use vstd::prelude::*;

use crate::connector_rules::MetadataObject;
use crate::enums::{ConnectorStatus, ConnectorType, MerchantStorageScheme};
use crate::routing::RoutableConnectorChoice;

verus! {

/// Seconds a payment intent can be fulfilled in, where nothing else is set.
pub const DEFAULT_INTENT_FULFILLMENT_TIME: i64 = 900;

/// Seconds a client session lasts, where nothing else is set.
pub const DEFAULT_SESSION_EXPIRY: i64 = 900;

/// How far reconciliation has been set up for a merchant.
#[derive(Clone, Copy, Debug, PartialEq, Eq, Structural)]
pub enum ReconStatus {
    NotRequested,
    Requested,
    Active,
    Disabled,
}

/// A country and a business label, the older way to name a line of
/// business of a merchant.
#[derive(Clone, Debug, PartialEq, Eq)]
pub struct PrimaryBusinessDetails {
    pub country: String,
    pub business: String,
}

/// A tenant of the platform.
#[derive(Clone, Debug, PartialEq, Eq)]
pub struct MerchantAccount {
    pub merchant_id: String,
    pub merchant_name: Option<Vec<u8>>,
    pub merchant_details: Option<Vec<u8>>,
    pub return_url: Option<String>,
    pub webhook_details: Option<String>,
    pub routing_algorithm: Option<String>,
    pub sub_merchants_enabled: Option<bool>,
    pub parent_merchant_id: Option<String>,
    pub enable_payment_response_hash: bool,
    pub payment_response_hash_key: Option<String>,
    pub redirect_to_merchant_with_http_post: bool,
    pub publishable_key: String,
    pub locker_id: Option<String>,
    pub metadata: Option<String>,
    pub storage_scheme: MerchantStorageScheme,
    pub primary_business_details: Vec<PrimaryBusinessDetails>,
    pub created_at: i64,
    pub modified_at: i64,
    pub intent_fulfillment_time: Option<i64>,
    pub frm_routing_algorithm: Option<String>,
    pub payout_routing_algorithm: Option<String>,
    pub organization_id: String,
    pub is_recon_enabled: bool,
    pub default_profile: Option<String>,
    pub recon_status: ReconStatus,
    pub payment_link_config: Option<String>,
    pub pm_collect_link_config: Option<String>,
}

/// A named scope of routing and configuration under a merchant.
#[derive(Clone, Debug, PartialEq, Eq)]
pub struct BusinessProfile {
    pub profile_id: String,
    pub merchant_id: String,
    pub profile_name: String,
    pub created_at: i64,
    pub modified_at: i64,
    pub return_url: Option<String>,
    pub enable_payment_response_hash: bool,
    pub payment_response_hash_key: Option<String>,
    pub redirect_to_merchant_with_http_post: bool,
    pub webhook_details: Option<String>,
    pub metadata: Option<String>,
    pub routing_algorithm: Option<String>,
    pub intent_fulfillment_time: Option<i64>,
    pub frm_routing_algorithm: Option<String>,
    pub payout_routing_algorithm: Option<String>,
    pub is_recon_enabled: bool,
    pub applepay_verified_domains: Option<Vec<String>>,
    pub payment_link_config: Option<String>,
    pub session_expiry: Option<i64>,
    pub authentication_connector_details: Option<String>,
    pub payout_link_config: Option<String>,
    pub is_connector_agnostic_mit_enabled: Option<bool>,
    pub is_extended_card_info_enabled: Option<bool>,
    pub extended_card_info_config: Option<String>,
    pub use_billing_as_payment_method_billing: Option<bool>,
    pub collect_shipping_details_from_wallet_connector: Option<bool>,
    pub collect_billing_details_from_wallet_connector: Option<bool>,
    pub outgoing_webhook_custom_http_headers: Option<Vec<u8>>,
    pub routing_algorithm_id: Option<String>,
    pub payout_routing_algorithm_id: Option<String>,
    pub default_fallback_routing: Option<Vec<RoutableConnectorChoice>>,
}

/// Which connector accounts verify bank accounts for which payment
/// methods, by the identifiers of those accounts.
#[derive(Clone, Debug, PartialEq, Eq)]
pub struct PaymentMethodAuthConfig {
    pub enabled_payment_methods: Vec<PaymentMethodAuthConnectorChoice>,
}

/// One payment method with the connector account that verifies for it.
#[derive(Clone, Debug, PartialEq, Eq)]
pub struct PaymentMethodAuthConnectorChoice {
    pub payment_method: String,
    pub payment_method_type: String,
    pub connector_name: String,
    pub mca_id: String,
}

/// A merchant's configured integration with a connector.
#[derive(Clone, Debug, PartialEq, Eq)]
pub struct MerchantConnectorAccount {
    pub merchant_id: String,
    pub connector_name: String,
    pub connector_account_details: Vec<u8>,
    pub test_mode: Option<bool>,
    pub disabled: Option<bool>,
    pub merchant_connector_id: String,
    pub payment_methods_enabled: Option<Vec<String>>,
    pub connector_type: ConnectorType,
    pub metadata: Option<MetadataObject>,
    pub frm_configs: Option<Vec<String>>,
    pub connector_label: Option<String>,
    pub business_country: Option<String>,
    pub business_label: Option<String>,
    pub business_sub_label: Option<String>,
    pub created_at: i64,
    pub modified_at: i64,
    pub connector_webhook_details: Option<String>,
    pub profile_id: String,
    pub applepay_verified_domains: Option<Vec<String>>,
    pub pm_auth_config: Option<PaymentMethodAuthConfig>,
    pub status: ConnectorStatus,
    pub connector_wallets_details: Option<Vec<u8>>,
    pub additional_merchant_data: Option<Vec<u8>>,
}

impl MerchantConnectorAccount {
    /// The identifier of the account.
    pub fn get_id(&self) -> (id: &String)
        ensures
            id == &self.merchant_connector_id,
    {
        &self.merchant_connector_id
    }
}

impl MerchantAccount {
    /// The identifier of the merchant.
    pub fn get_id(&self) -> (id: &String)
        ensures
            id == &self.merchant_id,
    {
        &self.merchant_id
    }
}

/// The value of an optional text.
pub open spec fn text_of(text: Option<String>) -> Option<Seq<char>> {
    match text {
        Some(t) => Some(t@),
        None => None,
    }
}

/// A copy of an optional text.
pub fn clone_text(text: &Option<String>) -> (copy: Option<String>)
    ensures
        copy == *text,
{
    match text {
        Some(t) => Some(t.clone()),
        None => None,
    }
}

/// The first of two optional values that is there.
pub fn first_of<T>(first: Option<T>, second: Option<T>) -> (chosen: Option<T>)
    ensures
        chosen == (if first is Some {
            first
        } else {
            second
        }),
{
    match first {
        Some(value) => Some(value),
        None => second,
    }
}

} // verus!
