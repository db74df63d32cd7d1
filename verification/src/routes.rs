//! The groups of routes that the service offers, each with the path under
//! which its routes are mounted.

use vstd::prelude::*;

verus! {

/// The version of the API that a deployment serves.
#[derive(Clone, Copy, Debug, PartialEq, Eq, Structural)]
pub enum ApiVersion {
    V1,
    V2,
}

/// Liveness and readiness of the service.
pub struct Health;

impl Health {
    /// The path under which the routes of the group are mounted.
    pub fn scope_path() -> (path: &'static str)
        ensures
            path@ == "health"@,
    {
        "health"
    }
}

/// The test connectors.
pub struct DummyConnector;

impl DummyConnector {
    /// The path under which the routes of the group are mounted.
    pub fn scope_path() -> (path: &'static str)
        ensures
            path@ == "/dummy-connector"@,
    {
        "/dummy-connector"
    }
}

/// Payments.
pub struct Payments;

impl Payments {
    /// The path under which the routes of the group are mounted, for the
    /// version of the API that is served.
    pub fn scope_path(version: ApiVersion) -> (path: &'static str)
        ensures
            path@ == (match version {
                ApiVersion::V1 => "/payments"@,
                ApiVersion::V2 => "/v2/payments"@,
            }),
    {
        match version {
            ApiVersion::V1 => "/payments",
            ApiVersion::V2 => "/v2/payments",
        }
    }
}

/// Exchange rates.
pub struct Forex;

impl Forex {
    /// The path under which the routes of the group are mounted.
    pub fn scope_path() -> (path: &'static str)
        ensures
            path@ == "/forex"@,
    {
        "/forex"
    }
}

/// Routing algorithms.
pub struct Routing;

impl Routing {
    /// The path under which the routes of the group are mounted, for the
    /// version of the API that is served.
    pub fn scope_path(version: ApiVersion) -> (path: &'static str)
        ensures
            path@ == (match version {
                ApiVersion::V1 => "/routing"@,
                ApiVersion::V2 => "/v2/routing_algorithm"@,
            }),
    {
        match version {
            ApiVersion::V1 => "/routing",
            ApiVersion::V2 => "/v2/routing_algorithm",
        }
    }
}

/// Customers.
pub struct Customers;

impl Customers {
    /// The path under which the routes of the group are mounted, for the
    /// version of the API that is served.
    pub fn scope_path(version: ApiVersion) -> (path: &'static str)
        ensures
            path@ == (match version {
                ApiVersion::V1 => "/customers"@,
                ApiVersion::V2 => "/v2/customers"@,
            }),
    {
        match version {
            ApiVersion::V1 => "/customers",
            ApiVersion::V2 => "/v2/customers",
        }
    }
}

/// Refunds.
pub struct Refunds;

impl Refunds {
    /// The path under which the routes of the group are mounted.
    pub fn scope_path() -> (path: &'static str)
        ensures
            path@ == "/refunds"@,
    {
        "/refunds"
    }
}

/// Payouts.
pub struct Payouts;

impl Payouts {
    /// The path under which the routes of the group are mounted.
    pub fn scope_path() -> (path: &'static str)
        ensures
            path@ == "/payouts"@,
    {
        "/payouts"
    }
}

/// Payment methods.
pub struct PaymentMethods;

impl PaymentMethods {
    /// The path under which the routes of the group are mounted.
    pub fn scope_path() -> (path: &'static str)
        ensures
            path@ == "/payment_methods"@,
    {
        "/payment_methods"
    }
}

/// Reconciliation.
pub struct Recon;

impl Recon {
    /// The path under which the routes of the group are mounted.
    pub fn scope_path() -> (path: &'static str)
        ensures
            path@ == "/recon"@,
    {
        "/recon"
    }
}

/// Blocked payment instruments.
pub struct Blocklist;

impl Blocklist {
    /// The path under which the routes of the group are mounted.
    pub fn scope_path() -> (path: &'static str)
        ensures
            path@ == "/blocklist"@,
    {
        "/blocklist"
    }
}

/// Organizations.
pub struct Organization;

impl Organization {
    /// The path under which the routes of the group are mounted.
    pub fn scope_path() -> (path: &'static str)
        ensures
            path@ == "/organization"@,
    {
        "/organization"
    }
}

/// Merchant accounts.
pub struct MerchantAccount;

impl MerchantAccount {
    /// The path under which the routes of the group are mounted, for the
    /// version of the API that is served.
    pub fn scope_path(version: ApiVersion) -> (path: &'static str)
        ensures
            path@ == (match version {
                ApiVersion::V1 => "/accounts"@,
                ApiVersion::V2 => "/v2/accounts"@,
            }),
    {
        match version {
            ApiVersion::V1 => "/accounts",
            ApiVersion::V2 => "/v2/accounts",
        }
    }
}

/// Merchant connector accounts.
pub struct MerchantConnectorAccount;

impl MerchantConnectorAccount {
    /// The path under which the routes of the group are mounted, for the
    /// version of the API that is served.
    pub fn scope_path(version: ApiVersion) -> (path: &'static str)
        ensures
            path@ == (match version {
                ApiVersion::V1 => "/account"@,
                ApiVersion::V2 => "/v2/connector_accounts"@,
            }),
    {
        match version {
            ApiVersion::V1 => "/account",
            ApiVersion::V2 => "/v2/connector_accounts",
        }
    }
}

/// Ephemeral keys.
pub struct EphemeralKey;

impl EphemeralKey {
    /// The path under which the routes of the group are mounted.
    pub fn scope_path() -> (path: &'static str)
        ensures
            path@ == "/ephemeral_keys"@,
    {
        "/ephemeral_keys"
    }
}

/// Mandates.
pub struct Mandates;

impl Mandates {
    /// The path under which the routes of the group are mounted.
    pub fn scope_path() -> (path: &'static str)
        ensures
            path@ == "/mandates"@,
    {
        "/mandates"
    }
}

/// Incoming webhooks.
pub struct Webhooks;

impl Webhooks {
    /// The path under which the routes of the group are mounted.
    pub fn scope_path() -> (path: &'static str)
        ensures
            path@ == "/webhooks"@,
    {
        "/webhooks"
    }
}

/// Configuration entries.
pub struct Configs;

impl Configs {
    /// The path under which the routes of the group are mounted.
    pub fn scope_path() -> (path: &'static str)
        ensures
            path@ == "/configs"@,
    {
        "/configs"
    }
}

/// The migration of Apple Pay certificates.
pub struct ApplePayCertificatesMigration;

impl ApplePayCertificatesMigration {
    /// The path under which the routes of the group are mounted.
    pub fn scope_path() -> (path: &'static str)
        ensures
            path@ == "/apple_pay_certificates_migration"@,
    {
        "/apple_pay_certificates_migration"
    }
}

/// Status polls.
pub struct Poll;

impl Poll {
    /// The path under which the routes of the group are mounted.
    pub fn scope_path() -> (path: &'static str)
        ensures
            path@ == "/poll"@,
    {
        "/poll"
    }
}

/// API keys of a merchant.
pub struct ApiKeys;

impl ApiKeys {
    /// The path under which the routes of the group are mounted.
    pub fn scope_path() -> (path: &'static str)
        ensures
            path@ == "/api_keys/{merchant_id}"@,
    {
        "/api_keys/{merchant_id}"
    }
}

/// Disputes.
pub struct Disputes;

impl Disputes {
    /// The path under which the routes of the group are mounted.
    pub fn scope_path() -> (path: &'static str)
        ensures
            path@ == "/disputes"@,
    {
        "/disputes"
    }
}

/// Card information.
pub struct Cards;

impl Cards {
    /// The path under which the routes of the group are mounted.
    pub fn scope_path() -> (path: &'static str)
        ensures
            path@ == "/cards"@,
    {
        "/cards"
    }
}

/// Files.
pub struct Files;

impl Files {
    /// The path under which the routes of the group are mounted.
    pub fn scope_path() -> (path: &'static str)
        ensures
            path@ == "/files"@,
    {
        "/files"
    }
}

/// Cache invalidation.
pub struct Cache;

impl Cache {
    /// The path under which the routes of the group are mounted.
    pub fn scope_path() -> (path: &'static str)
        ensures
            path@ == "/cache"@,
    {
        "/cache"
    }
}

/// Payment links.
pub struct PaymentLink;

impl PaymentLink {
    /// The path under which the routes of the group are mounted.
    pub fn scope_path() -> (path: &'static str)
        ensures
            path@ == "/payment_link"@,
    {
        "/payment_link"
    }
}

/// Payout links.
pub struct PayoutLink;

impl PayoutLink {
    /// The path under which the routes of the group are mounted.
    pub fn scope_path() -> (path: &'static str)
        ensures
            path@ == "/payout_link"@,
    {
        "/payout_link"
    }
}

/// Business profiles.
pub struct BusinessProfile;

impl BusinessProfile {
    /// The path under which the routes of the group are mounted, for the
    /// version of the API that is served.
    pub fn scope_path(version: ApiVersion) -> (path: &'static str)
        ensures
            path@ == (match version {
                ApiVersion::V1 => "/account/{account_id}/business_profile"@,
                ApiVersion::V2 => "/v2/profiles"@,
            }),
    {
        match version {
            ApiVersion::V1 => "/account/{account_id}/business_profile",
            ApiVersion::V2 => "/v2/profiles",
        }
    }
}

/// Rules on error codes of connectors.
pub struct Gsm;

impl Gsm {
    /// The path under which the routes of the group are mounted.
    pub fn scope_path() -> (path: &'static str)
        ensures
            path@ == "/gsm"@,
    {
        "/gsm"
    }
}

/// Verification of domains.
pub struct Verify;

impl Verify {
    /// The path under which the routes of the group are mounted.
    pub fn scope_path() -> (path: &'static str)
        ensures
            path@ == "/verify"@,
    {
        "/verify"
    }
}

/// Users of the dashboard.
pub struct User;

impl User {
    /// The path under which the routes of the group are mounted.
    pub fn scope_path() -> (path: &'static str)
        ensures
            path@ == "/user"@,
    {
        "/user"
    }
}

/// Onboarding with connectors.
pub struct ConnectorOnboarding;

impl ConnectorOnboarding {
    /// The path under which the routes of the group are mounted.
    pub fn scope_path() -> (path: &'static str)
        ensures
            path@ == "/connector_onboarding"@,
    {
        "/connector_onboarding"
    }
}

/// Outgoing webhook events of a merchant.
pub struct WebhookEvents;

impl WebhookEvents {
    /// The path under which the routes of the group are mounted.
    pub fn scope_path() -> (path: &'static str)
        ensures
            path@ == "/events/{merchant_id}"@,
    {
        "/events/{merchant_id}"
    }
}

} // verus!
