//! Business profiles: their creation from requests and from the older
//! business labels, their update, the default profile of a merchant, and
//! the switches kept on a profile.

use vstd::prelude::*;
use vstd::string::StringExecFns;

use crate::domain::{
    clone_text, first_of, BusinessProfile, MerchantAccount, PrimaryBusinessDetails,
    DEFAULT_INTENT_FULFILLMENT_TIME, DEFAULT_SESSION_EXPIRY,
};
use crate::errors::{
    invalid_request, invalid_request_data, ApiError, ApiErrorResponse, StorageError,
};
use crate::merchant::StorageMerchantAccountUpdate;

verus! {

/// Fewest seconds a client session may last.
pub const MIN_SESSION_EXPIRY: u32 = 60;

/// Most seconds a client session may last.
pub const MAX_SESSION_EXPIRY: u32 = 7890000;

/// Fewest seconds a payment intent may be fulfilled in.
pub const MIN_INTENT_FULFILLMENT_EXPIRY: u32 = 60;

/// Most seconds a payment intent may be fulfilled in.
pub const MAX_INTENT_FULFILLMENT_EXPIRY: u32 = 1800;

/// The message for a session expiry out of bounds.
pub open spec fn session_expiry_message() -> Seq<char> {
    "session_expiry should be between 60(1 min) to 7890000(3 months)."@
}

/// The message for an intent fulfilment time out of bounds.
pub open spec fn intent_fulfillment_message() -> Seq<char> {
    "intent_fulfillment_time should be between 60(1 min) to 1800(30 mins)."@
}

/// The outcome of a check as an optional error.
pub open spec fn fault(result: Result<(), ApiErrorResponse>) -> Option<ApiError> {
    match result {
        Ok(_) => None,
        Err(e) => Some(e@),
    }
}

/// A session expiry must lie between one minute and three months.
pub fn validate_session_expiry(session_expiry: u32) -> (result: Result<(), ApiErrorResponse>)
    ensures
        fault(result) == (if MIN_SESSION_EXPIRY <= session_expiry <= MAX_SESSION_EXPIRY {
            None
        } else {
            Some(invalid_request(session_expiry_message()))
        }),
{
    if session_expiry < MIN_SESSION_EXPIRY || session_expiry > MAX_SESSION_EXPIRY {
        Err(
            invalid_request_data(
                "session_expiry should be between 60(1 min) to 7890000(3 months).",
            ),
        )
    } else {
        Ok(())
    }
}

/// An intent fulfilment time must lie between one and thirty minutes.
pub fn validate_intent_fulfillment_expiry(intent_fulfillment_time: u32) -> (result: Result<
    (),
    ApiErrorResponse,
>)
    ensures
        fault(result) == (if MIN_INTENT_FULFILLMENT_EXPIRY <= intent_fulfillment_time
            <= MAX_INTENT_FULFILLMENT_EXPIRY {
            None
        } else {
            Some(invalid_request(intent_fulfillment_message()))
        }),
{
    if intent_fulfillment_time < MIN_INTENT_FULFILLMENT_EXPIRY || intent_fulfillment_time
        > MAX_INTENT_FULFILLMENT_EXPIRY {
        Err(
            invalid_request_data(
                "intent_fulfillment_time should be between 60(1 min) to 1800(30 mins).",
            ),
        )
    } else {
        Ok(())
    }
}

/// A request to create a business profile.
#[derive(Clone, Debug, PartialEq, Eq)]
pub struct BusinessProfileCreate {
    pub profile_name: Option<String>,
    pub return_url: Option<String>,
    pub enable_payment_response_hash: Option<bool>,
    pub payment_response_hash_key: Option<String>,
    pub redirect_to_merchant_with_http_post: Option<bool>,
    pub webhook_details: Option<String>,
    pub metadata: Option<String>,
    pub routing_algorithm: Option<String>,
    pub intent_fulfillment_time: Option<u32>,
    pub frm_routing_algorithm: Option<String>,
    pub payout_routing_algorithm: Option<String>,
    pub applepay_verified_domains: Option<Vec<String>>,
    pub session_expiry: Option<u32>,
    pub payment_link_config: Option<String>,
    pub authentication_connector_details: Option<String>,
    pub payout_link_config: Option<String>,
    pub is_connector_agnostic_mit_enabled: Option<bool>,
    pub use_billing_as_payment_method_billing: Option<bool>,
    pub collect_shipping_details_from_wallet_connector: Option<bool>,
    pub collect_billing_details_from_wallet_connector: Option<bool>,
    pub outgoing_webhook_custom_http_headers: Option<String>,
}

/// The request that asks for nothing but a profile of the given name.
pub open spec fn bare_request(profile_name: Option<String>) -> BusinessProfileCreate {
    BusinessProfileCreate {
        profile_name,
        return_url: None,
        enable_payment_response_hash: None,
        payment_response_hash_key: None,
        redirect_to_merchant_with_http_post: None,
        webhook_details: None,
        metadata: None,
        routing_algorithm: None,
        intent_fulfillment_time: None,
        frm_routing_algorithm: None,
        payout_routing_algorithm: None,
        applepay_verified_domains: None,
        session_expiry: None,
        payment_link_config: None,
        authentication_connector_details: None,
        payout_link_config: None,
        is_connector_agnostic_mit_enabled: None,
        use_billing_as_payment_method_billing: None,
        collect_shipping_details_from_wallet_connector: None,
        collect_billing_details_from_wallet_connector: None,
        outgoing_webhook_custom_http_headers: None,
    }
}

impl Default for BusinessProfileCreate {
    fn default() -> (request: Self)
        ensures
            request == bare_request(None),
    {
        BusinessProfileCreate::named(None)
    }
}

/// What the collaborators have prepared for a new business profile.
#[derive(Clone, Debug, PartialEq, Eq)]
pub struct BusinessProfileCreateInputs {
    /// A fresh identifier for the profile.
    pub profile_id: String,
    /// A fresh random key, used where neither the request nor the merchant
    /// names one.
    pub generated_payment_response_hash_key: String,
    /// The time of creation.
    pub now: i64,
    /// Whether the routing algorithm of the request, if any, could be read.
    pub routing_algorithm_readable: bool,
    /// What is wrong with the payout link configuration of the request, if
    /// anything.
    pub payout_link_config_fault: Option<String>,
    /// The custom headers for outgoing webhooks, encrypted.
    pub encrypted_outgoing_webhook_custom_http_headers: Option<Vec<u8>>,
}

/// The name of a profile that is given none.
pub open spec fn default_profile_name() -> Seq<char> {
    "default"@
}

/// The first fault of a request to create or update a profile, in the
/// order in which the request is checked: the session expiry, the intent
/// fulfilment time, the routing algorithm, the payout link configuration.
pub open spec fn profile_request_fault(
    session_expiry: Option<u32>,
    intent_fulfillment_time: Option<u32>,
    routing_algorithm: Option<String>,
    routing_algorithm_readable: bool,
    payout_link_config: Option<String>,
    payout_link_config_fault: Option<String>,
) -> Option<ApiError> {
    if session_expiry matches Some(expiry) && !(MIN_SESSION_EXPIRY <= expiry
        <= MAX_SESSION_EXPIRY) {
        Some(invalid_request(session_expiry_message()))
    } else if intent_fulfillment_time matches Some(time) && !(MIN_INTENT_FULFILLMENT_EXPIRY
        <= time <= MAX_INTENT_FULFILLMENT_EXPIRY) {
        Some(invalid_request(intent_fulfillment_message()))
    } else if routing_algorithm is Some && !routing_algorithm_readable {
        Some(ApiError::InvalidDataValue { field_name: "routing_algorithm"@ })
    } else if payout_link_config is Some && payout_link_config_fault is Some {
        Some(invalid_request(payout_link_config_fault->0@))
    } else {
        None
    }
}

fn check_profile_request(
    session_expiry: Option<u32>,
    intent_fulfillment_time: Option<u32>,
    routing_algorithm: &Option<String>,
    routing_algorithm_readable: bool,
    payout_link_config: &Option<String>,
    payout_link_config_fault: &Option<String>,
) -> (result: Result<(), ApiErrorResponse>)
    ensures
        fault(result) == profile_request_fault(
            session_expiry,
            intent_fulfillment_time,
            *routing_algorithm,
            routing_algorithm_readable,
            *payout_link_config,
            *payout_link_config_fault,
        ),
{
    if let Some(session_expiry) = session_expiry {
        validate_session_expiry(session_expiry)?;
    }
    if let Some(intent_fulfillment_expiry) = intent_fulfillment_time {
        validate_intent_fulfillment_expiry(intent_fulfillment_expiry)?;
    }
    if routing_algorithm.is_some() && !routing_algorithm_readable {
        return Err(
            ApiErrorResponse::InvalidDataValue {
                field_name: String::from_str("routing_algorithm"),
            },
        );
    }
    if payout_link_config.is_some() {
        if let Some(message) = payout_link_config_fault {
            return Err(ApiErrorResponse::InvalidRequestData { message: message.clone() });
        }
    }
    Ok(())
}

impl BusinessProfileCreate {
    /// The request that asks for nothing but a profile of the given name.
    pub fn named(profile_name: Option<String>) -> (request: Self)
        ensures
            request == bare_request(profile_name),
    {
        BusinessProfileCreate {
            profile_name,
            return_url: None,
            enable_payment_response_hash: None,
            payment_response_hash_key: None,
            redirect_to_merchant_with_http_post: None,
            webhook_details: None,
            metadata: None,
            routing_algorithm: None,
            intent_fulfillment_time: None,
            frm_routing_algorithm: None,
            payout_routing_algorithm: None,
            applepay_verified_domains: None,
            session_expiry: None,
            payment_link_config: None,
            authentication_connector_details: None,
            payout_link_config: None,
            is_connector_agnostic_mit_enabled: None,
            use_billing_as_payment_method_billing: None,
            collect_shipping_details_from_wallet_connector: None,
            collect_billing_details_from_wallet_connector: None,
            outgoing_webhook_custom_http_headers: None,
        }
    }

    /// Builds the record of a new business profile of a merchant. The
    /// request is checked first ([`profile_request_fault`]). The profile is
    /// called "default" unless named; what the request leaves open is taken
    /// from the merchant, and failing that from fixed defaults.
    pub fn create_domain_model_from_request(
        self,
        merchant_account: &MerchantAccount,
        inputs: BusinessProfileCreateInputs,
    ) -> (result: Result<BusinessProfile, ApiErrorResponse>)
        ensures
            match profile_request_fault(
                self.session_expiry,
                self.intent_fulfillment_time,
                self.routing_algorithm,
                inputs.routing_algorithm_readable,
                self.payout_link_config,
                inputs.payout_link_config_fault,
            ) {
                Some(fault) => result matches Err(e) && e@ == fault,
                None => result matches Ok(profile) && {
                    &&& profile.profile_id == inputs.profile_id
                    &&& profile.merchant_id == merchant_account.merchant_id
                    &&& profile.profile_name@ == (match self.profile_name {
                        Some(name) => name@,
                        None => default_profile_name(),
                    })
                    &&& profile.created_at == inputs.now
                    &&& profile.modified_at == inputs.now
                    &&& profile.return_url == (if self.return_url is Some {
                        self.return_url
                    } else {
                        merchant_account.return_url
                    })
                    &&& profile.enable_payment_response_hash == (
                    match self.enable_payment_response_hash {
                        Some(enabled) => enabled,
                        None => merchant_account.enable_payment_response_hash,
                    })
                    &&& profile.payment_response_hash_key == Some(
                        if self.payment_response_hash_key is Some {
                            self.payment_response_hash_key->0
                        } else if merchant_account.payment_response_hash_key is Some {
                            merchant_account.payment_response_hash_key->0
                        } else {
                            inputs.generated_payment_response_hash_key
                        },
                    )
                    &&& profile.redirect_to_merchant_with_http_post == (
                    match self.redirect_to_merchant_with_http_post {
                        Some(redirect) => redirect,
                        None => merchant_account.redirect_to_merchant_with_http_post,
                    })
                    &&& profile.webhook_details == (if self.webhook_details is Some {
                        self.webhook_details
                    } else {
                        merchant_account.webhook_details
                    })
                    &&& profile.metadata == self.metadata
                    &&& profile.routing_algorithm is None
                    &&& profile.intent_fulfillment_time == Some(
                        match self.intent_fulfillment_time {
                            Some(time) => time as i64,
                            None => match merchant_account.intent_fulfillment_time {
                                Some(time) => time,
                                None => DEFAULT_INTENT_FULFILLMENT_TIME,
                            },
                        },
                    )
                    &&& profile.frm_routing_algorithm == (if self.frm_routing_algorithm is Some {
                        self.frm_routing_algorithm
                    } else {
                        merchant_account.frm_routing_algorithm
                    })
                    &&& profile.payout_routing_algorithm == (if self.payout_routing_algorithm
                        is Some {
                        self.payout_routing_algorithm
                    } else {
                        merchant_account.payout_routing_algorithm
                    })
                    &&& profile.is_recon_enabled == merchant_account.is_recon_enabled
                    &&& profile.applepay_verified_domains == self.applepay_verified_domains
                    &&& profile.payment_link_config == self.payment_link_config
                    &&& profile.session_expiry == Some(
                        match self.session_expiry {
                            Some(expiry) => expiry as i64,
                            None => DEFAULT_SESSION_EXPIRY,
                        },
                    )
                    &&& profile.authentication_connector_details
                        == self.authentication_connector_details
                    &&& profile.payout_link_config == self.payout_link_config
                    &&& profile.is_connector_agnostic_mit_enabled
                        == self.is_connector_agnostic_mit_enabled
                    &&& profile.is_extended_card_info_enabled is None
                    &&& profile.extended_card_info_config is None
                    &&& profile.use_billing_as_payment_method_billing == Some(
                        self.use_billing_as_payment_method_billing != Some(false),
                    )
                    &&& profile.collect_shipping_details_from_wallet_connector == Some(
                        self.collect_shipping_details_from_wallet_connector == Some(true),
                    )
                    &&& profile.collect_billing_details_from_wallet_connector == Some(
                        self.collect_billing_details_from_wallet_connector == Some(true),
                    )
                    &&& profile.outgoing_webhook_custom_http_headers
                        == inputs.encrypted_outgoing_webhook_custom_http_headers
                    &&& profile.routing_algorithm_id is None
                    &&& profile.payout_routing_algorithm_id is None
                    &&& profile.default_fallback_routing is None
                },
            },
    {
        check_profile_request(
            self.session_expiry,
            self.intent_fulfillment_time,
            &self.routing_algorithm,
            inputs.routing_algorithm_readable,
            &self.payout_link_config,
            &inputs.payout_link_config_fault,
        )?;
        let profile_name = match self.profile_name {
            Some(name) => name,
            None => String::from_str("default"),
        };
        let payment_response_hash_key = match first_of(
            self.payment_response_hash_key,
            clone_text(&merchant_account.payment_response_hash_key),
        ) {
            Some(key) => key,
            None => inputs.generated_payment_response_hash_key,
        };
        let intent_fulfillment_time = match self.intent_fulfillment_time {
            Some(time) => time as i64,
            None => match merchant_account.intent_fulfillment_time {
                Some(time) => time,
                None => DEFAULT_INTENT_FULFILLMENT_TIME,
            },
        };
        let session_expiry = match self.session_expiry {
            Some(expiry) => expiry as i64,
            None => DEFAULT_SESSION_EXPIRY,
        };
        Ok(
            BusinessProfile {
                profile_id: inputs.profile_id,
                merchant_id: merchant_account.merchant_id.clone(),
                profile_name,
                created_at: inputs.now,
                modified_at: inputs.now,
                return_url: first_of(self.return_url, clone_text(&merchant_account.return_url)),
                enable_payment_response_hash: match self.enable_payment_response_hash {
                    Some(enabled) => enabled,
                    None => merchant_account.enable_payment_response_hash,
                },
                payment_response_hash_key: Some(payment_response_hash_key),
                redirect_to_merchant_with_http_post: match self.redirect_to_merchant_with_http_post {
                    Some(redirect) => redirect,
                    None => merchant_account.redirect_to_merchant_with_http_post,
                },
                webhook_details: first_of(
                    self.webhook_details,
                    clone_text(&merchant_account.webhook_details),
                ),
                metadata: self.metadata,
                routing_algorithm: None,
                intent_fulfillment_time: Some(intent_fulfillment_time),
                frm_routing_algorithm: first_of(
                    self.frm_routing_algorithm,
                    clone_text(&merchant_account.frm_routing_algorithm),
                ),
                payout_routing_algorithm: first_of(
                    self.payout_routing_algorithm,
                    clone_text(&merchant_account.payout_routing_algorithm),
                ),
                is_recon_enabled: merchant_account.is_recon_enabled,
                applepay_verified_domains: self.applepay_verified_domains,
                payment_link_config: self.payment_link_config,
                session_expiry: Some(session_expiry),
                authentication_connector_details: self.authentication_connector_details,
                payout_link_config: self.payout_link_config,
                is_connector_agnostic_mit_enabled: self.is_connector_agnostic_mit_enabled,
                is_extended_card_info_enabled: None,
                extended_card_info_config: None,
                use_billing_as_payment_method_billing: Some(
                    match self.use_billing_as_payment_method_billing {
                        Some(choice) => choice,
                        None => true,
                    },
                ),
                collect_shipping_details_from_wallet_connector: Some(
                    match self.collect_shipping_details_from_wallet_connector {
                        Some(choice) => choice,
                        None => false,
                    },
                ),
                collect_billing_details_from_wallet_connector: Some(
                    match self.collect_billing_details_from_wallet_connector {
                        Some(choice) => choice,
                        None => false,
                    },
                ),
                outgoing_webhook_custom_http_headers: inputs.encrypted_outgoing_webhook_custom_http_headers,
                routing_algorithm_id: None,
                payout_routing_algorithm_id: None,
                default_fallback_routing: None,
            },
        )
    }
}

/// The name of the profile made for a country and a business label.
pub open spec fn profile_name_of(details: PrimaryBusinessDetails) -> Seq<char> {
    details.country@ + "_"@ + details.business@
}

/// The request that creates the profile of a country and a business label.
pub fn profile_request_for(details: &PrimaryBusinessDetails) -> (request: BusinessProfileCreate)
    ensures
        request.profile_name matches Some(name) && name@ == profile_name_of(*details),
        request == bare_request(request.profile_name),
{
    let profile_name = details.country.clone().concat("_").concat(details.business.as_str());
    BusinessProfileCreate::named(Some(profile_name))
}

/// How the business profiles of a new merchant come about.
#[derive(Clone, Debug, PartialEq, Eq)]
pub enum CreateBusinessProfile {
    /// One profile for each of the primary business details. If exactly one
    /// is created, it becomes the default profile.
    CreateFromPrimaryBusinessDetails { primary_business_details: Vec<PrimaryBusinessDetails> },
    /// One profile named "default", which becomes the default profile.
    CreateDefaultBusinessProfile,
}

impl CreateBusinessProfile {
    /// Profiles are created from the primary business details where there
    /// are any; a merchant without gets the default business profile.
    pub fn new(primary_business_details: Option<Vec<PrimaryBusinessDetails>>) -> (action: Self)
        ensures
            action == (match primary_business_details {
                Some(details) if details@.len() > 0 => {
                    CreateBusinessProfile::CreateFromPrimaryBusinessDetails {
                        primary_business_details: details,
                    }
                },
                _ => CreateBusinessProfile::CreateDefaultBusinessProfile,
            }),
    {
        match primary_business_details {
            Some(primary_business_details) => {
                if primary_business_details.len() > 0 {
                    Self::CreateFromPrimaryBusinessDetails { primary_business_details }
                } else {
                    Self::CreateDefaultBusinessProfile
                }
            },
            None => Self::CreateDefaultBusinessProfile,
        }
    }

    /// The profiles to ask for, in order: one bare request per primary
    /// business detail, named after it, or the one bare request without a
    /// name that gives the default business profile.
    pub fn create_business_profiles_for_each_business_details(&self) -> (requests: Vec<
        BusinessProfileCreate,
    >)
        ensures
            match *self {
                CreateBusinessProfile::CreateDefaultBusinessProfile => requests@.len() == 1
                    && requests@[0] == bare_request(None),
                CreateBusinessProfile::CreateFromPrimaryBusinessDetails {
                    primary_business_details,
                } => {
                    &&& requests@.len() == primary_business_details@.len()
                    &&& forall|i: int|
                        0 <= i < requests@.len() ==> {
                            &&& (#[trigger] requests@[i]).profile_name matches Some(name)
                            &&& name@ == profile_name_of(primary_business_details@[i])
                            &&& requests@[i] == bare_request(requests@[i].profile_name)
                        }
                },
            },
    {
        let mut requests: Vec<BusinessProfileCreate> = Vec::new();
        match self {
            Self::CreateDefaultBusinessProfile => {
                requests.push(BusinessProfileCreate::named(None));
            },
            Self::CreateFromPrimaryBusinessDetails { primary_business_details } => {
                let mut i: usize = 0;
                while i < primary_business_details.len()
                    invariant
                        i <= primary_business_details@.len(),
                        requests@.len() == i,
                        forall|j: int|
                            0 <= j < i ==> {
                                &&& (#[trigger] requests@[j]).profile_name matches Some(name)
                                &&& name@ == profile_name_of(primary_business_details@[j])
                                &&& requests@[j] == bare_request(requests@[j].profile_name)
                            },
                    decreases primary_business_details@.len() - i,
                {
                    requests.push(profile_request_for(&primary_business_details[i]));
                    i += 1;
                }
            },
        }
        requests
    }

    /// The default profile of the new merchant, given the profiles that
    /// were created: the one profile, where exactly one was created, and
    /// none in every other case.
    pub open spec fn default_profile_after(created: Seq<BusinessProfile>) -> Option<String> {
        if created.len() == 1 {
            Some(created[0].profile_id)
        } else {
            None
        }
    }

    /// Enters the default profile of a new merchant once its profiles are
    /// created. `created` holds the profiles that could be created: a
    /// profile that was refused, as a duplicate is, is left out and does
    /// not stop the others. The merchant's default profile is set where
    /// exactly one profile resulted and is left as it was otherwise.
    pub fn create_business_profiles(
        &self,
        merchant_account: &mut MerchantAccount,
        created: &Vec<BusinessProfile>,
    )
        ensures
            final(merchant_account).default_profile == (if created@.len() == 1 {
                Some(created@[0].profile_id)
            } else {
                old(merchant_account).default_profile
            }),
            *final(merchant_account) == (MerchantAccount {
                default_profile: final(merchant_account).default_profile,
                ..*old(merchant_account)
            }),
    {
        if created.len() == 1 {
            merchant_account.default_profile = Some(created[0].profile_id.clone());
        }
    }
}

/// Whether `details` name the same country and business label as one of
/// `known`.
pub open spec fn details_known(
    known: Seq<PrimaryBusinessDetails>,
    details: PrimaryBusinessDetails,
) -> bool {
    exists|i: int|
        0 <= i < known.len() && (#[trigger] known[i]).country@ == details.country@
            && known[i].business@ == details.business@
}

/// Those of `requested`, in order, that are not among `known`.
pub open spec fn fresh_details(
    known: Seq<PrimaryBusinessDetails>,
    requested: Seq<PrimaryBusinessDetails>,
) -> Seq<PrimaryBusinessDetails>
    decreases requested.len(),
{
    if requested.len() == 0 {
        requested
    } else if details_known(known, requested.last()) {
        fresh_details(known, requested.drop_last())
    } else {
        fresh_details(known, requested.drop_last()).push(requested.last())
    }
}

fn is_known(known: &Vec<PrimaryBusinessDetails>, details: &PrimaryBusinessDetails) -> (found: bool)
    ensures
        found == details_known(known@, *details),
{
    let mut i: usize = 0;
    while i < known.len()
        invariant
            i <= known@.len(),
            forall|j: int|
                0 <= j < i ==> !((#[trigger] known@[j]).country@ == details.country@
                    && known@[j].business@ == details.business@),
        decreases known@.len() - i,
    {
        if known[i].country == details.country && known[i].business == details.business {
            return true;
        }
        i += 1;
    }
    false
}

/// The business details of an update that the merchant does not have yet:
/// for each of them, in the order of the request, a business profile has
/// to be created.
pub fn create_business_profile_from_business_labels(
    merchant_account: &MerchantAccount,
    new_business_details: Vec<PrimaryBusinessDetails>,
) -> (business_profiles_to_create: Vec<PrimaryBusinessDetails>)
    ensures
        business_profiles_to_create@ == fresh_details(
            merchant_account.primary_business_details@,
            new_business_details@,
        ),
{
    let ghost requested = new_business_details@;
    let mut remaining = new_business_details;
    let mut fresh: Vec<PrimaryBusinessDetails> = Vec::new();
    let mut kept: Vec<PrimaryBusinessDetails> = Vec::new();
    // Taken from the end, so the details come out in reverse and are turned round below.
    while remaining.len() > 0
        invariant
            remaining@.len() <= requested.len(),
            remaining@ == requested.take(remaining@.len() as int),
            fresh_details(merchant_account.primary_business_details@, requested) == fresh_details(
                merchant_account.primary_business_details@,
                remaining@,
            ) + kept@.reverse(),
        decreases remaining@.len(),
    {
        let ghost before = remaining@;
        let details = remaining.pop().unwrap();
        assert(remaining@ == before.drop_last());
        assert(details == before.last());
        assert(remaining@ =~= requested.take(remaining@.len() as int));
        if !is_known(&merchant_account.primary_business_details, &details) {
            let ghost kept_before = kept@;
            kept.push(details);
            assert(kept@.reverse() =~= seq![details] + kept_before.reverse());
            assert(fresh_details(merchant_account.primary_business_details@, before)
                + kept_before.reverse() =~= fresh_details(
                merchant_account.primary_business_details@,
                remaining@,
            ) + kept@.reverse());
        }
    }
    while kept.len() > 0
        invariant
            fresh@ + kept@.reverse() == fresh_details(
                merchant_account.primary_business_details@,
                requested,
            ),
        decreases kept@.len(),
    {
        let ghost kept_before = kept@;
        let ghost fresh_before = fresh@;
        let details = kept.pop().unwrap();
        fresh.push(details);
        assert(kept_before.reverse() =~= seq![details] + kept@.reverse());
        assert(fresh@ + kept@.reverse() =~= fresh_before + kept_before.reverse());
    }
    assert(kept@.reverse() =~= Seq::<PrimaryBusinessDetails>::empty());
    assert(fresh@ + Seq::<PrimaryBusinessDetails>::empty() =~= fresh@);
    fresh
}

/// Whether the default profile of a merchant has to be unset after a
/// business profile was asked for: it has, once the profile was created and
/// the merchant had a default profile, since the merchant then has more
/// than one profile to choose from.
pub fn unset_default_profile(profile_created: bool, merchant_account: &MerchantAccount) -> (update:
    Option<StorageMerchantAccountUpdate>)
    ensures
        update == (if profile_created && merchant_account.default_profile is Some {
            Some(StorageMerchantAccountUpdate::UnsetDefaultProfile)
        } else {
            None
        }),
{
    if profile_created && merchant_account.default_profile.is_some() {
        Some(StorageMerchantAccountUpdate::UnsetDefaultProfile)
    } else {
        None
    }
}

/// The message for a profile whose name the merchant has used already.
pub open spec fn duplicate_profile_name_message(profile_name: Seq<char>) -> Seq<char> {
    "Business Profile with the profile_name "@ + profile_name + " already exists"@
}

/// The message for a profile whose identifier is in use already.
pub open spec fn duplicate_profile_id_message(profile_id: Seq<char>) -> Seq<char> {
    "Business Profile with the profile_id "@ + profile_id + " already exists"@
}

/// What an insertion that the store refused comes to: a duplicate with the
/// message where the store found one, an internal server error otherwise.
pub open spec fn duplicate_or_internal(err: StorageError, message: Seq<char>) -> ApiError {
    if err == StorageError::DuplicateValue {
        ApiError::GenericDuplicateError { message }
    } else {
        ApiError::InternalServerError
    }
}

/// Reads what the store answered when a profile made from business details
/// was inserted: the profile, or, where the merchant has a profile of that
/// name already, a duplicate that names the profile name. Such a duplicate
/// is a conflict that the caller may pass over.
pub fn create_and_insert_business_profile(
    inserted: Result<BusinessProfile, StorageError>,
    profile_name: &String,
) -> (result: Result<BusinessProfile, ApiErrorResponse>)
    ensures
        match inserted {
            Ok(profile) => result == Ok::<BusinessProfile, ApiErrorResponse>(profile),
            Err(err) => result matches Err(e) && e@ == duplicate_or_internal(
                err,
                duplicate_profile_name_message(profile_name@),
            ),
        },
{
    match inserted {
        Ok(profile) => Ok(profile),
        Err(err) => {
            let message = String::from_str("Business Profile with the profile_name ").concat(
                profile_name.as_str(),
            ).concat(" already exists");
            Err(
                crate::errors::to_duplicate_response(
                    err,
                    ApiErrorResponse::GenericDuplicateError { message },
                ),
            )
        },
    }
}

/// Reads what the store answered when a profile that a merchant asked for
/// was inserted: the profile, together with the change that unsets the
/// default profile of a merchant that had one, or a duplicate that names
/// the identifier of the profile.
pub fn create_business_profile(
    inserted: Result<BusinessProfile, StorageError>,
    profile_id: &String,
    merchant_account: &MerchantAccount,
) -> (result: Result<(BusinessProfile, Option<StorageMerchantAccountUpdate>), ApiErrorResponse>)
    ensures
        match inserted {
            Ok(profile) => result == Ok::<
                (BusinessProfile, Option<StorageMerchantAccountUpdate>),
                ApiErrorResponse,
            >(
                (
                    profile,
                    if merchant_account.default_profile is Some {
                        Some(StorageMerchantAccountUpdate::UnsetDefaultProfile)
                    } else {
                        None
                    },
                ),
            ),
            Err(err) => result matches Err(e) && e@ == duplicate_or_internal(
                err,
                duplicate_profile_id_message(profile_id@),
            ),
        },
{
    match inserted {
        Ok(profile) => Ok((profile, unset_default_profile(true, merchant_account))),
        Err(err) => {
            let message = String::from_str("Business Profile with the profile_id ").concat(
                profile_id.as_str(),
            ).concat(" already exists");
            Err(
                crate::errors::to_duplicate_response(
                    err,
                    ApiErrorResponse::GenericDuplicateError { message },
                ),
            )
        },
    }
}

/// The profiles that were created, in order, among the outcomes of asking
/// for them.
pub open spec fn successes(outcomes: Seq<Result<BusinessProfile, ApiErrorResponse>>) -> Seq<
    BusinessProfile,
>
    decreases outcomes.len(),
{
    if outcomes.len() == 0 {
        Seq::empty()
    } else {
        match outcomes.last() {
            Ok(profile) => successes(outcomes.drop_last()).push(profile),
            Err(_) => successes(outcomes.drop_last()),
        }
    }
}

/// The first failure, in order, among the outcomes of asking for profiles.
pub open spec fn first_failure(outcomes: Seq<Result<BusinessProfile, ApiErrorResponse>>) -> Option<
    ApiErrorResponse,
>
    decreases outcomes.len(),
{
    if outcomes.len() == 0 {
        None
    } else {
        match first_failure(outcomes.drop_last()) {
            Some(e) => Some(e),
            None => match outcomes.last() {
                Ok(_) => None,
                Err(e) => Some(e),
            },
        }
    }
}

impl CreateBusinessProfile {
    /// Reads the outcomes of asking for the profiles of a new merchant. A
    /// default business profile that could not be created fails the
    /// creation of the merchant with its error. Of profiles made from
    /// business details, those that could not be created are passed over and
    /// the others are kept, in order.
    pub fn created_business_profiles(
        &self,
        outcomes: Vec<Result<BusinessProfile, ApiErrorResponse>>,
    ) -> (result: Result<Vec<BusinessProfile>, ApiErrorResponse>)
        ensures
            *self is CreateDefaultBusinessProfile && first_failure(outcomes@) is Some ==> result
                == Err::<Vec<BusinessProfile>, ApiErrorResponse>(first_failure(outcomes@)->0),
            !(*self is CreateDefaultBusinessProfile && first_failure(outcomes@) is Some) ==> (
            result matches Ok(created) && created@ == successes(outcomes@)),
    {
        let ghost all = outcomes@;
        let mut remaining = outcomes;
        let mut kept: Vec<BusinessProfile> = Vec::new();
        let mut failure: Option<ApiErrorResponse> = None;
        // Taken from the end, so the profiles come out in reverse and are turned round below.
        while remaining.len() > 0
            invariant
                successes(all) == successes(remaining@) + kept@.reverse(),
                first_failure(all) == (if first_failure(remaining@) is Some {
                    first_failure(remaining@)
                } else {
                    failure
                }),
            decreases remaining@.len(),
        {
            let ghost before = remaining@;
            let ghost kept_before = kept@;
            let outcome = remaining.pop().unwrap();
            assert(remaining@ == before.drop_last());
            assert(outcome == before.last());
            match outcome {
                Ok(profile) => {
                    kept.push(profile);
                    assert(kept@.reverse() =~= seq![profile] + kept_before.reverse());
                    assert(successes(before) + kept_before.reverse() =~= successes(remaining@)
                        + kept@.reverse());
                },
                Err(e) => {
                    failure = Some(e);
                },
            }
        }
        if let Some(e) = failure {
            if let CreateBusinessProfile::CreateDefaultBusinessProfile = self {
                return Err(e);
            }
        }
        let mut created: Vec<BusinessProfile> = Vec::new();
        while kept.len() > 0
            invariant
                created@ + kept@.reverse() == successes(all),
            decreases kept@.len(),
        {
            let ghost kept_before = kept@;
            let ghost created_before = created@;
            let profile = kept.pop().unwrap();
            created.push(profile);
            assert(kept_before.reverse() =~= seq![profile] + kept@.reverse());
            assert(created@ + kept@.reverse() =~= created_before + kept_before.reverse());
        }
        assert(kept@.reverse() =~= Seq::<BusinessProfile>::empty());
        assert(created@ + Seq::<BusinessProfile>::empty() =~= created@);
        Ok(created)
    }
}

/// The one profile that is created for a merchant becomes its default
/// profile.
pub proof fn lemma_single_profile_becomes_default(profile: BusinessProfile)
    ensures
        successes(seq![Ok(profile)]) == seq![profile],
        first_failure(seq![Ok(profile)]) is None,
        CreateBusinessProfile::default_profile_after(successes(seq![Ok(profile)])) == Some(
            profile.profile_id,
        ),
{
    let outcomes = seq![Ok::<BusinessProfile, ApiErrorResponse>(profile)];
    assert(outcomes.drop_last() =~= Seq::empty());
    assert(successes(outcomes.drop_last()) =~= Seq::empty());
    assert(first_failure(outcomes.drop_last()) is None);
    assert(successes(outcomes) =~= seq![profile]);
}

/// Two profiles that are created leave the merchant without a default
/// profile: with more than one profile there is none to prefer.
pub proof fn lemma_two_profiles_leave_no_default(first: BusinessProfile, second: BusinessProfile)
    ensures
        successes(seq![Ok(first), Ok(second)]) == seq![first, second],
        CreateBusinessProfile::default_profile_after(successes(seq![Ok(first), Ok(second)]))
            is None,
{
    let outcomes = seq![
        Ok::<BusinessProfile, ApiErrorResponse>(first),
        Ok::<BusinessProfile, ApiErrorResponse>(second),
    ];
    let one = seq![Ok::<BusinessProfile, ApiErrorResponse>(first)];
    assert(outcomes.drop_last() =~= one);
    assert(one.drop_last() =~= Seq::empty());
    assert(successes(one.drop_last()) =~= Seq::empty());
    assert(successes(one) =~= seq![first]);
    assert(successes(outcomes) =~= seq![first, second]);
}

} // verus!
