use admin_core::domain::{BusinessProfile, MerchantAccount, PrimaryBusinessDetails};
use admin_core::enums::{Connector, RoutableConnectors, TransactionType};
use admin_core::errors::{ApiErrorResponse, StorageError};
use admin_core::merchant::{
    resolve_default_profile, DefaultProfileRequest, MerchantAccountCreate,
    MerchantAccountCreateInputs, MerchantDocuments, StorageMerchantAccountUpdate,
};
use admin_core::profile::{
    create_and_insert_business_profile, create_business_profile,
    create_business_profile_from_business_labels, profile_request_for, unset_default_profile,
    validate_intent_fulfillment_expiry, validate_session_expiry, BusinessProfileCreate,
    BusinessProfileCreateInputs, CreateBusinessProfile,
};
use admin_core::profile_routing::{
    BusinessProfileWrapper, CacheKind, ProfileDefaultRoutingConfig, TransactionData,
};
use admin_core::profile_update::{
    connector_agnostic_mit_toggle, extended_card_info_toggle, update_business_profile,
    validate_and_get_business_profile, BusinessProfileGeneralUpdate, BusinessProfileUpdate,
    BusinessProfileUpdateInputs, StorageBusinessProfileUpdate,
};
use admin_core::routing::{RoutableChoiceKind, RoutableConnectorChoice};

fn details(country: &str, business: &str) -> PrimaryBusinessDetails {
    PrimaryBusinessDetails { country: country.to_string(), business: business.to_string() }
}

fn new_merchant(primary: Option<Vec<PrimaryBusinessDetails>>) -> MerchantAccount {
    MerchantAccountCreate {
        merchant_id: "merchant_1".to_string(),
        merchant_name: None,
        merchant_details: None,
        return_url: Some("https://merchant.example".to_string()),
        webhook_details: Some("{\"url\":\"w\"}".to_string()),
        routing_algorithm: None,
        payout_routing_algorithm: None,
        sub_merchants_enabled: None,
        parent_merchant_id: None,
        enable_payment_response_hash: Some(false),
        payment_response_hash_key: Some("merchant_key".to_string()),
        redirect_to_merchant_with_http_post: Some(true),
        metadata: None,
        locker_id: None,
        primary_business_details: primary,
        frm_routing_algorithm: Some("frm".to_string()),
        organization_id: None,
        pm_collect_link_config: None,
    }
    .create_domain_model_from_request(
        &"merchant_1".to_string(),
        MerchantAccountCreateInputs {
            documents: MerchantDocuments::all_readable(),
            publishable_key: "pk".to_string(),
            generated_payment_response_hash_key: "gen".to_string(),
            parent_merchant_id: None,
            organization_id: "org".to_string(),
            encrypted_merchant_name: None,
            encrypted_merchant_details: None,
            now: 10,
        },
    )
    .expect("valid merchant")
}

fn inputs(profile_id: &str) -> BusinessProfileCreateInputs {
    BusinessProfileCreateInputs {
        profile_id: profile_id.to_string(),
        generated_payment_response_hash_key: "generated".to_string(),
        now: 20,
        routing_algorithm_readable: true,
        payout_link_config_fault: None,
        encrypted_outgoing_webhook_custom_http_headers: None,
    }
}

fn create_profiles(
    action: &CreateBusinessProfile,
    merchant: &MerchantAccount,
) -> Vec<BusinessProfile> {
    let mut names: Vec<String> = Vec::new();
    let mut outcomes = Vec::new();
    for (i, request) in
        action.create_business_profiles_for_each_business_details().into_iter().enumerate()
    {
        let profile = request
            .create_domain_model_from_request(merchant, inputs(&format!("pro_{i}")))
            .expect("valid request");
        // a second profile of the same name is refused by the store
        let inserted = if names.contains(&profile.profile_name) {
            Err(StorageError::DuplicateValue)
        } else {
            names.push(profile.profile_name.clone());
            Ok(profile.clone())
        };
        outcomes.push(create_and_insert_business_profile(inserted, &profile.profile_name));
    }
    action.created_business_profiles(outcomes).expect("created")
}

fn invalid(message: &str) -> ApiErrorResponse {
    ApiErrorResponse::InvalidRequestData { message: message.to_string() }
}

#[test]
fn merchant_without_business_details_gets_the_default_profile() {
    for primary in [None, Some(vec![])] {
        let mut merchant = new_merchant(primary.clone());
        let action = CreateBusinessProfile::new(primary);
        assert_eq!(action, CreateBusinessProfile::CreateDefaultBusinessProfile);
        let created = create_profiles(&action, &merchant);
        assert_eq!(created.len(), 1);
        assert_eq!(created[0].profile_name, "default");
        assert_eq!(created[0].merchant_id, "merchant_1");
        action.create_business_profiles(&mut merchant, &created);
        assert_eq!(merchant.default_profile, Some("pro_0".to_string()));
    }
}

#[test]
fn merchant_with_two_business_details_gets_two_profiles_and_no_default() {
    let primary = Some(vec![details("US", "food"), details("DE", "clothing")]);
    let mut merchant = new_merchant(primary.clone());
    let action = CreateBusinessProfile::new(primary);
    let created = create_profiles(&action, &merchant);
    assert_eq!(created.len(), 2);
    assert_eq!(created[0].profile_name, "US_food");
    assert_eq!(created[1].profile_name, "DE_clothing");
    let before = merchant.clone();
    action.create_business_profiles(&mut merchant, &created);
    assert_eq!(merchant.default_profile, None);
    assert_eq!(merchant, before);
}

#[test]
fn merchant_with_one_business_detail_gets_it_as_default() {
    let primary = Some(vec![details("US", "food")]);
    let mut merchant = new_merchant(primary.clone());
    let action = CreateBusinessProfile::new(primary);
    let created = create_profiles(&action, &merchant);
    assert_eq!(created.len(), 1);
    assert_eq!(created[0].profile_name, "US_food");
    action.create_business_profiles(&mut merchant, &created);
    assert_eq!(merchant.default_profile, Some("pro_0".to_string()));
}

#[test]
fn duplicate_business_details_leave_one_profile_as_default() {
    let primary = Some(vec![details("US", "food"), details("US", "food")]);
    let mut merchant = new_merchant(primary.clone());
    let action = CreateBusinessProfile::new(primary);
    assert_eq!(action.create_business_profiles_for_each_business_details().len(), 2);
    let created = create_profiles(&action, &merchant);
    assert_eq!(created.len(), 1);
    action.create_business_profiles(&mut merchant, &created);
    assert_eq!(merchant.default_profile, Some("pro_0".to_string()));
}

#[test]
fn no_profile_created_leaves_the_default_as_it_was() {
    let mut merchant = new_merchant(None);
    merchant.default_profile = Some("old".to_string());
    let action = CreateBusinessProfile::new(Some(vec![details("US", "food")]));
    action.create_business_profiles(&mut merchant, &vec![]);
    assert_eq!(merchant.default_profile, Some("old".to_string()));
}

#[test]
fn profile_requests_are_bare() {
    assert_eq!(BusinessProfileCreate::default(), BusinessProfileCreate::named(None));
    let request = profile_request_for(&details("GB", "books"));
    assert_eq!(request, BusinessProfileCreate::named(Some("GB_books".to_string())));
    assert_eq!(request.profile_name, Some("GB_books".to_string()));
    assert_eq!(request.return_url, None);
    assert_eq!(request.session_expiry, None);
}

#[test]
fn profile_inherits_from_the_merchant() {
    let merchant = new_merchant(None);
    let profile = BusinessProfileCreate::default()
        .create_domain_model_from_request(&merchant, inputs("pro_1"))
        .expect("valid");
    assert_eq!(
        profile,
        BusinessProfile {
            profile_id: "pro_1".to_string(),
            merchant_id: "merchant_1".to_string(),
            profile_name: "default".to_string(),
            created_at: 20,
            modified_at: 20,
            return_url: Some("https://merchant.example".to_string()),
            enable_payment_response_hash: false,
            payment_response_hash_key: Some("merchant_key".to_string()),
            redirect_to_merchant_with_http_post: true,
            webhook_details: Some("{\"url\":\"w\"}".to_string()),
            metadata: None,
            routing_algorithm: None,
            intent_fulfillment_time: Some(900),
            frm_routing_algorithm: Some("frm".to_string()),
            payout_routing_algorithm: None,
            is_recon_enabled: false,
            applepay_verified_domains: None,
            payment_link_config: None,
            session_expiry: Some(900),
            authentication_connector_details: None,
            payout_link_config: None,
            is_connector_agnostic_mit_enabled: None,
            is_extended_card_info_enabled: None,
            extended_card_info_config: None,
            use_billing_as_payment_method_billing: Some(true),
            collect_shipping_details_from_wallet_connector: Some(false),
            collect_billing_details_from_wallet_connector: Some(false),
            outgoing_webhook_custom_http_headers: None,
            routing_algorithm_id: None,
            payout_routing_algorithm_id: None,
            default_fallback_routing: None,
        }
    );
}

#[test]
fn profile_takes_what_its_request_names() {
    let mut merchant = new_merchant(None);
    merchant.payment_response_hash_key = None;
    merchant.intent_fulfillment_time = Some(1200);
    let mut request = BusinessProfileCreate::named(Some("shop".to_string()));
    request.return_url = Some("https://profile.example".to_string());
    request.enable_payment_response_hash = Some(true);
    request.redirect_to_merchant_with_http_post = Some(false);
    request.session_expiry = Some(60);
    request.use_billing_as_payment_method_billing = Some(false);
    request.collect_shipping_details_from_wallet_connector = Some(true);
    request.routing_algorithm = Some("{}".to_string());
    let mut with = inputs("pro_2");
    with.encrypted_outgoing_webhook_custom_http_headers = Some(vec![7]);
    let profile = request.create_domain_model_from_request(&merchant, with).expect("valid");
    assert_eq!(profile.profile_name, "shop");
    assert_eq!(profile.return_url, Some("https://profile.example".to_string()));
    assert!(profile.enable_payment_response_hash);
    assert!(!profile.redirect_to_merchant_with_http_post);
    assert_eq!(profile.payment_response_hash_key, Some("generated".to_string()));
    assert_eq!(profile.intent_fulfillment_time, Some(1200));
    assert_eq!(profile.session_expiry, Some(60));
    assert_eq!(profile.use_billing_as_payment_method_billing, Some(false));
    assert_eq!(profile.collect_shipping_details_from_wallet_connector, Some(true));
    assert_eq!(profile.collect_billing_details_from_wallet_connector, Some(false));
    assert_eq!(profile.outgoing_webhook_custom_http_headers, Some(vec![7]));
    assert_eq!(profile.routing_algorithm, None);
    let mut own_key = BusinessProfileCreate::default();
    own_key.payment_response_hash_key = Some("own".to_string());
    own_key.intent_fulfillment_time = Some(1800);
    let profile = own_key.create_domain_model_from_request(&merchant, inputs("p")).expect("valid");
    assert_eq!(profile.payment_response_hash_key, Some("own".to_string()));
    assert_eq!(profile.intent_fulfillment_time, Some(1800));
}

#[test]
fn expiry_bounds() {
    let session = invalid("session_expiry should be between 60(1 min) to 7890000(3 months).");
    assert_eq!(validate_session_expiry(59), Err(session.clone()));
    assert_eq!(validate_session_expiry(60), Ok(()));
    assert_eq!(validate_session_expiry(7_890_000), Ok(()));
    assert_eq!(validate_session_expiry(7_890_001), Err(session.clone()));
    assert_eq!(validate_session_expiry(0), Err(session));
    let intent = invalid("intent_fulfillment_time should be between 60(1 min) to 1800(30 mins).");
    assert_eq!(validate_intent_fulfillment_expiry(59), Err(intent.clone()));
    assert_eq!(validate_intent_fulfillment_expiry(60), Ok(()));
    assert_eq!(validate_intent_fulfillment_expiry(1800), Ok(()));
    assert_eq!(validate_intent_fulfillment_expiry(1801), Err(intent));
}

#[test]
fn profile_request_is_checked_in_order() {
    let merchant = new_merchant(None);
    let mut request = BusinessProfileCreate::default();
    request.session_expiry = Some(1);
    request.intent_fulfillment_time = Some(1);
    request.routing_algorithm = Some("bad".to_string());
    request.payout_link_config = Some("bad".to_string());
    let mut with = inputs("p");
    with.routing_algorithm_readable = false;
    with.payout_link_config_fault = Some("payout link is wrong".to_string());
    assert_eq!(
        request.clone().create_domain_model_from_request(&merchant, with.clone()),
        Err(invalid("session_expiry should be between 60(1 min) to 7890000(3 months)."))
    );
    request.session_expiry = Some(100);
    assert_eq!(
        request.clone().create_domain_model_from_request(&merchant, with.clone()),
        Err(invalid("intent_fulfillment_time should be between 60(1 min) to 1800(30 mins)."))
    );
    request.intent_fulfillment_time = None;
    assert_eq!(
        request.clone().create_domain_model_from_request(&merchant, with.clone()),
        Err(ApiErrorResponse::InvalidDataValue { field_name: "routing_algorithm".to_string() })
    );
    request.routing_algorithm = None;
    assert_eq!(
        request.clone().create_domain_model_from_request(&merchant, with.clone()),
        Err(invalid("payout link is wrong"))
    );
    request.payout_link_config = None;
    assert!(request.create_domain_model_from_request(&merchant, with).is_ok());
}

#[test]
fn new_business_labels_are_those_the_merchant_lacks() {
    let merchant = new_merchant(Some(vec![details("US", "food"), details("DE", "food")]));
    assert_eq!(
        create_business_profile_from_business_labels(
            &merchant,
            vec![
                details("FR", "food"),
                details("US", "food"),
                details("US", "books"),
                details("DE", "food"),
                details("FR", "food"),
            ]
        ),
        vec![details("FR", "food"), details("US", "books"), details("FR", "food")]
    );
    assert_eq!(create_business_profile_from_business_labels(&merchant, vec![]), vec![]);
    assert_eq!(
        create_business_profile_from_business_labels(&merchant, vec![details("US", "food")]),
        vec![]
    );
    let bare = new_merchant(None);
    assert_eq!(
        create_business_profile_from_business_labels(&bare, vec![details("US", "food")]),
        vec![details("US", "food")]
    );
}

#[test]
fn default_profile_is_unset_when_another_profile_comes() {
    let mut merchant = new_merchant(None);
    assert_eq!(unset_default_profile(true, &merchant), None);
    merchant.default_profile = Some("pro_0".to_string());
    assert_eq!(
        unset_default_profile(true, &merchant),
        Some(StorageMerchantAccountUpdate::UnsetDefaultProfile)
    );
    assert_eq!(unset_default_profile(false, &merchant), None);
}

fn a_profile(merchant_id: &str) -> BusinessProfile {
    let mut profile = BusinessProfileCreate::default()
        .create_domain_model_from_request(&new_merchant(None), inputs("pro_1"))
        .expect("valid");
    profile.merchant_id = merchant_id.to_string();
    profile
}

#[test]
fn profile_of_another_merchant_is_forbidden() {
    let merchant_id = "merchant_1".to_string();
    let profile_id = "pro_1".to_string();
    assert_eq!(
        validate_and_get_business_profile(Ok(a_profile("merchant_1")), &profile_id, &merchant_id),
        Ok(a_profile("merchant_1"))
    );
    assert_eq!(
        validate_and_get_business_profile(Ok(a_profile("merchant_2")), &profile_id, &merchant_id),
        Err(ApiErrorResponse::AccessForbidden { resource: "pro_1".to_string() })
    );
    assert_eq!(
        validate_and_get_business_profile(
            Err(StorageError::ValueNotFound),
            &"pro_9".to_string(),
            &merchant_id
        ),
        Err(ApiErrorResponse::BusinessProfileNotFound { id: "pro_9".to_string() })
    );
    assert_eq!(
        validate_and_get_business_profile(Err(StorageError::Other), &profile_id, &merchant_id),
        Err(ApiErrorResponse::InternalServerError)
    );
    assert_eq!(update_business_profile(&a_profile("merchant_1"), "pro_1", &merchant_id), Ok(()));
    assert_eq!(
        update_business_profile(&a_profile("merchant_2"), "pro_1", &merchant_id),
        Err(ApiErrorResponse::AccessForbidden { resource: "pro_1".to_string() })
    );
}

#[test]
fn switches_change_only_when_they_differ() {
    let mut profile = a_profile("merchant_1");
    let card = |enabled| Some(StorageBusinessProfileUpdate::ExtendedCardInfoUpdate {
        is_extended_card_info_enabled: Some(enabled),
    });
    assert_eq!(extended_card_info_toggle(&profile, true), card(true));
    assert_eq!(extended_card_info_toggle(&profile, false), card(false));
    profile.is_extended_card_info_enabled = Some(true);
    assert_eq!(extended_card_info_toggle(&profile, true), None);
    assert_eq!(extended_card_info_toggle(&profile, false), card(false));

    let merchant_id = "merchant_1".to_string();
    let mit = |enabled| Ok(Some(StorageBusinessProfileUpdate::ConnectorAgnosticMitUpdate {
        is_connector_agnostic_mit_enabled: Some(enabled),
    }));
    assert_eq!(connector_agnostic_mit_toggle(&profile, "pro_1", &merchant_id, true), mit(true));
    assert_eq!(connector_agnostic_mit_toggle(&profile, "pro_1", &merchant_id, false), mit(false));
    profile.is_connector_agnostic_mit_enabled = Some(false);
    assert_eq!(connector_agnostic_mit_toggle(&profile, "pro_1", &merchant_id, false), Ok(None));
    assert_eq!(connector_agnostic_mit_toggle(&profile, "pro_1", &merchant_id, true), mit(true));
    assert_eq!(
        connector_agnostic_mit_toggle(&profile, "pro_1", &"other".to_string(), true),
        Err(ApiErrorResponse::AccessForbidden { resource: "pro_1".to_string() })
    );
}

fn update_request() -> BusinessProfileUpdate {
    BusinessProfileUpdate {
        profile_name: Some("renamed".to_string()),
        return_url: None,
        enable_payment_response_hash: Some(true),
        payment_response_hash_key: None,
        redirect_to_merchant_with_http_post: None,
        webhook_details: None,
        metadata: None,
        routing_algorithm: Some("{}".to_string()),
        intent_fulfillment_time: Some(600),
        frm_routing_algorithm: None,
        payout_routing_algorithm: None,
        applepay_verified_domains: Some(vec!["shop.example".to_string()]),
        session_expiry: Some(120),
        payment_link_config: Some("{}".to_string()),
        authentication_connector_details: None,
        payout_link_config: Some("{}".to_string()),
        extended_card_info_config: None,
        use_billing_as_payment_method_billing: None,
        collect_shipping_details_from_wallet_connector: None,
        collect_billing_details_from_wallet_connector: Some(true),
        is_connector_agnostic_mit_enabled: None,
        outgoing_webhook_custom_http_headers: None,
    }
}

fn update_inputs() -> BusinessProfileUpdateInputs {
    BusinessProfileUpdateInputs {
        routing_algorithm_readable: true,
        payment_link_config_fault: None,
        payout_link_config_fault: None,
        encrypted_outgoing_webhook_custom_http_headers: Some(vec![1]),
    }
}

#[test]
fn profile_update_takes_the_request_as_it_is() {
    assert_eq!(
        update_request().get_update_business_profile_object(update_inputs()),
        Ok(StorageBusinessProfileUpdate::Update(BusinessProfileGeneralUpdate {
            profile_name: Some("renamed".to_string()),
            return_url: None,
            enable_payment_response_hash: Some(true),
            payment_response_hash_key: None,
            redirect_to_merchant_with_http_post: None,
            webhook_details: None,
            metadata: None,
            routing_algorithm: Some("{}".to_string()),
            intent_fulfillment_time: Some(600),
            frm_routing_algorithm: None,
            payout_routing_algorithm: None,
            applepay_verified_domains: Some(vec!["shop.example".to_string()]),
            payment_link_config: Some("{}".to_string()),
            session_expiry: Some(120),
            authentication_connector_details: None,
            payout_link_config: Some("{}".to_string()),
            extended_card_info_config: None,
            use_billing_as_payment_method_billing: None,
            collect_shipping_details_from_wallet_connector: None,
            collect_billing_details_from_wallet_connector: Some(true),
            is_connector_agnostic_mit_enabled: None,
            outgoing_webhook_custom_http_headers: Some(vec![1]),
        }))
    );
}

#[test]
fn profile_update_is_checked_in_order() {
    let mut request = update_request();
    let mut with = update_inputs();
    with.routing_algorithm_readable = false;
    with.payment_link_config_fault = Some("payment link".to_string());
    with.payout_link_config_fault = Some("payout link".to_string());
    request.session_expiry = Some(59);
    request.intent_fulfillment_time = Some(1801);
    assert_eq!(
        request.clone().get_update_business_profile_object(with.clone()),
        Err(invalid("session_expiry should be between 60(1 min) to 7890000(3 months)."))
    );
    request.session_expiry = None;
    assert_eq!(
        request.clone().get_update_business_profile_object(with.clone()),
        Err(invalid("intent_fulfillment_time should be between 60(1 min) to 1800(30 mins)."))
    );
    request.intent_fulfillment_time = None;
    assert_eq!(
        request.clone().get_update_business_profile_object(with.clone()),
        Err(ApiErrorResponse::InvalidDataValue { field_name: "routing_algorithm".to_string() })
    );
    with.routing_algorithm_readable = true;
    assert_eq!(
        request.clone().get_update_business_profile_object(with.clone()),
        Err(invalid("payment link"))
    );
    request.payment_link_config = None;
    assert_eq!(
        request.clone().get_update_business_profile_object(with.clone()),
        Err(invalid("payout link"))
    );
    request.payout_link_config = None;
    assert!(request.get_update_business_profile_object(with).is_ok());
}

fn stripe_choice() -> RoutableConnectorChoice {
    RoutableConnectorChoice {
        choice_kind: RoutableChoiceKind::FullStruct,
        connector: RoutableConnectors::from_connector(Connector::Stripe).expect("routable"),
        merchant_connector_id: Some("mca_1".to_string()),
    }
}

#[test]
fn routing_algorithm_change_invalidates_the_cache() {
    let wrapper = BusinessProfileWrapper::new(a_profile("merchant_1"));
    assert_eq!(
        wrapper.get_routing_config_cache_key(),
        CacheKind::Routing("routing_config_merchant_1_pro_1".to_string())
    );
    let change = wrapper
        .clone()
        .update_business_profile_and_invalidate_routing_config_for_active_algorithm_id_update(
            "algo_1".to_string(),
            &TransactionType::Payment,
        );
    assert_eq!(change.profile, a_profile("merchant_1"));
    assert_eq!(
        change.update,
        StorageBusinessProfileUpdate::RoutingAlgorithmUpdate {
            routing_algorithm_id: Some("algo_1".to_string()),
            payout_routing_algorithm_id: None,
        }
    );
    assert_eq!(
        change.invalidate,
        CacheKind::Routing("routing_config_merchant_1_pro_1".to_string())
    );
    let change = wrapper
        .update_business_profile_and_invalidate_routing_config_for_active_algorithm_id_update(
            "algo_2".to_string(),
            &TransactionType::Payout,
        );
    assert_eq!(
        change.update,
        StorageBusinessProfileUpdate::RoutingAlgorithmUpdate {
            routing_algorithm_id: None,
            payout_routing_algorithm_id: Some("algo_2".to_string()),
        }
    );
}

#[test]
fn routing_algorithm_of_a_transaction() {
    let mut profile = a_profile("merchant_1");
    profile.routing_algorithm_id = Some("pay_algo".to_string());
    profile.payout_routing_algorithm_id = Some("payout_algo".to_string());
    let wrapper = BusinessProfileWrapper::new(profile);
    assert_eq!(
        wrapper.get_profile_id_and_routing_algorithm_id(&TransactionData::Payment {
            intent_profile_id: Some("pro_x".to_string())
        }),
        (Some("pro_x".to_string()), Some("pay_algo".to_string()))
    );
    assert_eq!(
        wrapper
            .get_profile_id_and_routing_algorithm_id(&TransactionData::Payment {
                intent_profile_id: None
            }),
        (None, Some("pay_algo".to_string()))
    );
    assert_eq!(
        wrapper.get_profile_id_and_routing_algorithm_id(&TransactionData::Payout {
            attempt_profile_id: "pro_y".to_string()
        }),
        (Some("pro_y".to_string()), Some("payout_algo".to_string()))
    );
}

#[test]
fn default_fallback_list_of_a_profile() {
    let mut profile = a_profile("merchant_1");
    let wrapper = BusinessProfileWrapper::new(profile.clone());
    assert_eq!(
        wrapper.get_default_fallback_list_of_connector_under_profile(),
        Err(ApiErrorResponse::InternalServerError)
    );
    assert_eq!(
        wrapper.get_default_routing_configs_from_profile(),
        Err(ApiErrorResponse::InternalServerError)
    );
    profile.default_fallback_routing = Some(vec![stripe_choice()]);
    let wrapper = BusinessProfileWrapper::new(profile.clone());
    assert_eq!(
        wrapper.get_default_fallback_list_of_connector_under_profile(),
        Ok(vec![stripe_choice()])
    );
    assert_eq!(
        wrapper.get_default_routing_configs_from_profile(),
        Ok(ProfileDefaultRoutingConfig {
            profile_id: "pro_1".to_string(),
            connectors: vec![stripe_choice()],
        })
    );
    let (kept, update) = wrapper.update_default_routing_for_profile(&vec![]);
    assert_eq!(kept, profile);
    assert_eq!(
        update,
        StorageBusinessProfileUpdate::DefaultRoutingFallbackUpdate {
            default_fallback_routing: Some(vec![])
        }
    );
}

#[test]
fn default_profile_of_an_update_must_be_the_merchants() {
    let merchant_id = "merchant_1".to_string();
    let missing = || Err(StorageError::ValueNotFound);
    assert_eq!(
        resolve_default_profile(DefaultProfileRequest::Unchanged, missing(), &merchant_id),
        Ok(None)
    );
    assert_eq!(
        resolve_default_profile(DefaultProfileRequest::Unset, missing(), &merchant_id),
        Ok(Some(None))
    );
    let validate = || DefaultProfileRequest::Validate("pro_1".to_string());
    assert_eq!(
        resolve_default_profile(validate(), Ok(a_profile("merchant_1")), &merchant_id),
        Ok(Some(Some("pro_1".to_string())))
    );
    assert_eq!(
        resolve_default_profile(validate(), Ok(a_profile("merchant_2")), &merchant_id),
        Err(ApiErrorResponse::AccessForbidden { resource: "pro_1".to_string() })
    );
    assert_eq!(
        resolve_default_profile(validate(), missing(), &merchant_id),
        Err(ApiErrorResponse::BusinessProfileNotFound { id: "pro_1".to_string() })
    );
    assert_eq!(
        resolve_default_profile(validate(), Err(StorageError::Other), &merchant_id),
        Err(ApiErrorResponse::InternalServerError)
    );
}

#[test]
fn duplicate_profiles_are_conflicts() {
    let name = "US_food".to_string();
    assert_eq!(
        create_and_insert_business_profile(Ok(a_profile("merchant_1")), &name),
        Ok(a_profile("merchant_1"))
    );
    assert_eq!(
        create_and_insert_business_profile(Err(StorageError::DuplicateValue), &name),
        Err(ApiErrorResponse::GenericDuplicateError {
            message: "Business Profile with the profile_name US_food already exists".to_string(),
        })
    );
    assert_eq!(
        create_and_insert_business_profile(Err(StorageError::Other), &name),
        Err(ApiErrorResponse::InternalServerError)
    );
    let mut merchant = new_merchant(None);
    assert_eq!(
        create_business_profile(Ok(a_profile("merchant_1")), &"pro_1".to_string(), &merchant),
        Ok((a_profile("merchant_1"), None))
    );
    merchant.default_profile = Some("pro_0".to_string());
    assert_eq!(
        create_business_profile(Ok(a_profile("merchant_1")), &"pro_1".to_string(), &merchant),
        Ok((a_profile("merchant_1"), Some(StorageMerchantAccountUpdate::UnsetDefaultProfile)))
    );
    assert_eq!(
        create_business_profile(
            Err(StorageError::DuplicateValue),
            &"pro_1".to_string(),
            &merchant
        ),
        Err(ApiErrorResponse::GenericDuplicateError {
            message: "Business Profile with the profile_id pro_1 already exists".to_string(),
        })
    );
}

#[test]
fn failed_default_profile_fails_the_merchant() {
    let duplicate = || ApiErrorResponse::GenericDuplicateError { message: "d".to_string() };
    let default = CreateBusinessProfile::CreateDefaultBusinessProfile;
    assert_eq!(default.created_business_profiles(vec![Err(duplicate())]), Err(duplicate()));
    assert_eq!(
        default.created_business_profiles(vec![Ok(a_profile("merchant_1"))]),
        Ok(vec![a_profile("merchant_1")])
    );
    assert_eq!(default.created_business_profiles(vec![]), Ok(vec![]));
}

#[test]
fn failed_profiles_of_business_details_are_passed_over() {
    let duplicate = || ApiErrorResponse::GenericDuplicateError { message: "d".to_string() };
    let from_details = CreateBusinessProfile::new(Some(vec![details("US", "food")]));
    let mut second = a_profile("merchant_1");
    second.profile_id = "pro_2".to_string();
    assert_eq!(
        from_details.created_business_profiles(vec![
            Err(ApiErrorResponse::InternalServerError),
            Ok(a_profile("merchant_1")),
            Err(duplicate()),
            Ok(second.clone()),
        ]),
        Ok(vec![a_profile("merchant_1"), second])
    );
    assert_eq!(from_details.created_business_profiles(vec![Err(duplicate())]), Ok(vec![]));
}
