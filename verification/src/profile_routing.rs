//! The routing side of a business profile: its active routing algorithm,
//! the cache entry that depends on it, and its default fallback list.

use vstd::prelude::*;
use vstd::string::StringExecFns;

use crate::domain::{clone_text, BusinessProfile};
use crate::enums::TransactionType;
use crate::errors::{ApiError, ApiErrorResponse};
use crate::profile_update::StorageBusinessProfileUpdate;
use crate::routing::{choices, duplicate_choices, RoutableConnectorChoice};

verus! {

/// A cache entry, by the cache it lives in and its key.
#[derive(Clone, Debug, PartialEq, Eq)]
pub enum CacheKind {
    Config(String),
    Accounts(String),
    Routing(String),
}

/// What the routing of a transaction reads of the transaction.
#[derive(Clone, Debug, PartialEq, Eq)]
pub enum TransactionData {
    /// A payment, with the profile of its payment intent, if it has one.
    Payment { intent_profile_id: Option<String> },
    /// A payout, with the profile of its payout attempt.
    Payout { attempt_profile_id: String },
}

/// The default fallback list of a profile.
#[derive(Clone, Debug, PartialEq, Eq)]
pub struct ProfileDefaultRoutingConfig {
    pub profile_id: String,
    pub connectors: Vec<RoutableConnectorChoice>,
}

/// A change of the active routing algorithm of a profile, and the cache
/// entry that has to be invalidated with it.
#[derive(Clone, Debug, PartialEq, Eq)]
pub struct RoutingAlgorithmChange {
    pub profile: BusinessProfile,
    pub update: StorageBusinessProfileUpdate,
    pub invalidate: CacheKind,
}

/// The key of the cache entry with the routing configuration of a profile.
pub open spec fn routing_config_cache_key(merchant_id: Seq<char>, profile_id: Seq<char>) -> Seq<
    char,
> {
    "routing_config_"@ + merchant_id + "_"@ + profile_id
}

/// A business profile seen from routing.
#[derive(Clone, Debug, PartialEq, Eq)]
pub struct BusinessProfileWrapper {
    pub profile: BusinessProfile,
}

impl BusinessProfileWrapper {
    pub fn new(profile: BusinessProfile) -> (wrapper: Self)
        ensures
            wrapper.profile == profile,
    {
        Self { profile }
    }

    /// The cache entry with the routing configuration of the profile.
    pub fn get_routing_config_cache_key(&self) -> (entry: CacheKind)
        ensures
            entry matches CacheKind::Routing(key) && key@ == routing_config_cache_key(
                self.profile.merchant_id@,
                self.profile.profile_id@,
            ),
    {
        let key = String::from_str("routing_config_").concat(
            self.profile.merchant_id.as_str(),
        ).concat("_").concat(self.profile.profile_id.as_str());
        CacheKind::Routing(key)
    }

    /// Makes `algorithm_id` the active routing algorithm of the profile for
    /// a kind of transaction: payments have their own algorithm, payouts
    /// theirs, and only the one is set. The cache entry with the routing
    /// configuration of the profile has to be invalidated whenever the
    /// change is made.
    pub fn update_business_profile_and_invalidate_routing_config_for_active_algorithm_id_update(
        self,
        algorithm_id: String,
        transaction_type: &TransactionType,
    ) -> (change: RoutingAlgorithmChange)
        ensures
            change.profile == self.profile,
            change.update == (match *transaction_type {
                TransactionType::Payment => StorageBusinessProfileUpdate::RoutingAlgorithmUpdate {
                    routing_algorithm_id: Some(algorithm_id),
                    payout_routing_algorithm_id: None,
                },
                TransactionType::Payout => StorageBusinessProfileUpdate::RoutingAlgorithmUpdate {
                    routing_algorithm_id: None,
                    payout_routing_algorithm_id: Some(algorithm_id),
                },
            }),
            change.invalidate matches CacheKind::Routing(key) && key@ == routing_config_cache_key(
                self.profile.merchant_id@,
                self.profile.profile_id@,
            ),
    {
        let routing_cache_key = self.get_routing_config_cache_key();
        let (routing_algorithm_id, payout_routing_algorithm_id) = match transaction_type {
            TransactionType::Payment => (Some(algorithm_id), None),
            TransactionType::Payout => (None, Some(algorithm_id)),
        };
        RoutingAlgorithmChange {
            profile: self.profile,
            update: StorageBusinessProfileUpdate::RoutingAlgorithmUpdate {
                routing_algorithm_id,
                payout_routing_algorithm_id,
            },
            invalidate: routing_cache_key,
        }
    }

    /// The profile that a transaction runs under and the routing algorithm
    /// that is active for it: for a payment the profile of its intent and
    /// the profile's routing algorithm, for a payout the profile of its
    /// attempt and the profile's payout routing algorithm.
    pub fn get_profile_id_and_routing_algorithm_id(
        &self,
        transaction_data: &TransactionData,
    ) -> (ids:
        (Option<String>, Option<String>))
        ensures
            ids == (match *transaction_data {
                TransactionData::Payment { intent_profile_id } => (
                    intent_profile_id,
                    self.profile.routing_algorithm_id,
                ),
                TransactionData::Payout { attempt_profile_id } => (
                    Some(attempt_profile_id),
                    self.profile.payout_routing_algorithm_id,
                ),
            }),
    {
        match transaction_data {
            TransactionData::Payment { intent_profile_id } => (
                clone_text(intent_profile_id),
                clone_text(&self.profile.routing_algorithm_id),
            ),
            TransactionData::Payout { attempt_profile_id } => (
                Some(attempt_profile_id.clone()),
                clone_text(&self.profile.payout_routing_algorithm_id),
            ),
        }
    }

    /// The default fallback list of the profile. A profile that has none
    /// is an internal error.
    pub fn get_default_fallback_list_of_connector_under_profile(&self) -> (result: Result<
        Vec<RoutableConnectorChoice>,
        ApiErrorResponse,
    >)
        ensures
            match self.profile.default_fallback_routing {
                Some(list) => result matches Ok(connectors) && choices(connectors@) == choices(
                    list@,
                ),
                None => result matches Err(e) && e@ == ApiError::InternalServerError,
            },
    {
        match &self.profile.default_fallback_routing {
            Some(list) => Ok(duplicate_choices(list)),
            None => Err(ApiErrorResponse::InternalServerError),
        }
    }

    /// The default fallback list of the profile, under the profile's name.
    pub fn get_default_routing_configs_from_profile(&self) -> (result: Result<
        ProfileDefaultRoutingConfig,
        ApiErrorResponse,
    >)
        ensures
            match self.profile.default_fallback_routing {
                Some(list) => result matches Ok(config) && config.profile_id
                    == self.profile.profile_id && choices(config.connectors@) == choices(list@),
                None => result matches Err(e) && e@ == ApiError::InternalServerError,
            },
    {
        let profile_id = self.profile.profile_id.clone();
        let connectors = self.get_default_fallback_list_of_connector_under_profile()?;
        Ok(ProfileDefaultRoutingConfig { profile_id, connectors })
    }

    /// The change that makes `updated_config` the default fallback list of
    /// the profile.
    pub fn update_default_routing_for_profile(
        self,
        updated_config: &Vec<RoutableConnectorChoice>,
    ) -> (change:
        (BusinessProfile, StorageBusinessProfileUpdate))
        ensures
            change.0 == self.profile,
            change.1 matches StorageBusinessProfileUpdate::DefaultRoutingFallbackUpdate {
                default_fallback_routing: Some(list),
            } && choices(list@) == choices(updated_config@),
    {
        let default_fallback_routing = duplicate_choices(updated_config);
        (
            self.profile,
            StorageBusinessProfileUpdate::DefaultRoutingFallbackUpdate {
                default_fallback_routing: Some(default_fallback_routing),
            },
        )
    }
}

} // verus!
