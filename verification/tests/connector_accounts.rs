use admin_core::auth::ConnectorAuthType;
use admin_core::bank::MerchantAccountData;
use admin_core::collections::ConnectorNames;
use admin_core::connector_account::{
    get_connector_label, profile_id_by_name, validate_business_details,
    validate_dummy_connector_enabled, validate_pm_auth, validate_pm_auth_config,
    ConnectorAccountDetails, ConnectorCreateDecision, ConnectorCreateInputs,
    MerchantConnectorCreate, ProfileLookup,
};
use admin_core::connector_update::{
    delete_connector, get_merchant_connector_account_from_id, list_payment_connectors,
    retrieve_connector, update_connector, validate_profile_id_from_auth_layer,
    ConnectorUpdateDecision, ConnectorUpdateInputs, MerchantConnectorAccountUpdate,
    MerchantConnectorUpdate,
};
use admin_core::domain::{
    BusinessProfile, MerchantAccount, MerchantConnectorAccount, PaymentMethodAuthConfig,
    PaymentMethodAuthConnectorChoice, PrimaryBusinessDetails,
};
use admin_core::enums::{Connector, ConnectorStatus, ConnectorType, TransactionType};
use admin_core::errors::{ApiErrorResponse, StorageError};
use admin_core::merchant::{
    MerchantAccountCreate, MerchantAccountCreateInputs, MerchantDocuments,
};
use admin_core::profile::{BusinessProfileCreate, BusinessProfileCreateInputs};
use admin_core::recipient::{
    AdditionalMerchantData, MerchantRecipientData, RecipientRegistrar, RecipientStep,
};

fn merchant() -> MerchantAccount {
    MerchantAccountCreate {
        merchant_id: "merchant_1".to_string(),
        merchant_name: None,
        merchant_details: None,
        return_url: None,
        webhook_details: None,
        routing_algorithm: None,
        payout_routing_algorithm: None,
        sub_merchants_enabled: None,
        parent_merchant_id: None,
        enable_payment_response_hash: None,
        payment_response_hash_key: None,
        redirect_to_merchant_with_http_post: None,
        metadata: None,
        locker_id: None,
        primary_business_details: Some(vec![PrimaryBusinessDetails {
            country: "US".to_string(),
            business: "food".to_string(),
        }]),
        frm_routing_algorithm: None,
        organization_id: None,
        pm_collect_link_config: None,
    }
    .create_domain_model_from_request(
        &"merchant_1".to_string(),
        MerchantAccountCreateInputs {
            documents: MerchantDocuments::all_readable(),
            publishable_key: "pk".to_string(),
            generated_payment_response_hash_key: "gen".to_string(),
            parent_merchant_id: None,
            organization_id: "org".to_string(),
            encrypted_merchant_name: None,
            encrypted_merchant_details: None,
            now: 10,
        },
    )
    .expect("valid merchant")
}

fn profile(profile_id: &str, name: &str) -> BusinessProfile {
    BusinessProfileCreate::named(Some(name.to_string()))
        .create_domain_model_from_request(
            &merchant(),
            BusinessProfileCreateInputs {
                profile_id: profile_id.to_string(),
                generated_payment_response_hash_key: "gen".to_string(),
                now: 20,
                routing_algorithm_readable: true,
                payout_link_config_fault: None,
                encrypted_outgoing_webhook_custom_http_headers: None,
            },
        )
        .expect("valid")
}

fn request() -> MerchantConnectorCreate {
    MerchantConnectorCreate {
        connector_type: ConnectorType::PaymentProcessor,
        connector_name: Connector::Stripe,
        connector_label: None,
        profile_id: Some("pro_1".to_string()),
        connector_account_details: Some(ConnectorAccountDetails::Auth(
            ConnectorAuthType::HeaderKey { api_key: "sk_test".to_string() },
        )),
        payment_methods_enabled: Some(vec!["{\"payment_method\":\"card\"}".to_string()]),
        connector_webhook_details: None,
        metadata: None,
        test_mode: Some(true),
        disabled: None,
        frm_configs: None,
        business_country: None,
        business_label: None,
        business_sub_label: None,
        pm_auth_config: None,
        status: None,
        additional_merchant_data: None,
    }
}

fn create_inputs() -> ConnectorCreateInputs {
    ConnectorCreateInputs {
        merchant_connector_id: "mca_1".to_string(),
        encrypted_connector_account_details: vec![1, 2],
        encrypted_additional_merchant_data: None,
        connector_wallets_details: None,
        now: 30,
    }
}

fn invalid(message: &str) -> ApiErrorResponse {
    ApiErrorResponse::InvalidRequestData { message: message.to_string() }
}

fn unreadable() -> ApiErrorResponse {
    ApiErrorResponse::InvalidDataFormat {
        field_name: "connector_account_details".to_string(),
        expected_format: "auth_type and api_key".to_string(),
    }
}

#[test]
fn connector_labels() {
    let s = |t: &str| Some(t.to_string());
    assert_eq!(get_connector_label(&s("US"), &s("food"), &None, "stripe"), s("stripe_US_food"));
    assert_eq!(
        get_connector_label(&s("US"), &s("food"), &s("west"), "stripe"),
        s("stripe_US_food_west")
    );
    assert_eq!(get_connector_label(&None, &s("food"), &s("west"), "stripe"), None);
    assert_eq!(get_connector_label(&s("US"), &None, &None, "stripe"), None);

    let mut req = request();
    assert_eq!(req.get_connector_label(&"default".to_string()), "stripe_default");
    req.business_country = s("US");
    req.business_label = s("food");
    assert_eq!(req.get_connector_label(&"default".to_string()), "stripe_US_food");
    req.business_sub_label = s("west");
    assert_eq!(req.get_connector_label(&"default".to_string()), "stripe_US_food_west");
    req.connector_label = s("mine");
    assert_eq!(req.get_connector_label(&"default".to_string()), "mine");
}

#[test]
fn dummy_connectors_need_to_be_switched_on() {
    assert_eq!(validate_dummy_connector_enabled(&Connector::DummyConnector1, true), Ok(()));
    assert_eq!(
        validate_dummy_connector_enabled(&Connector::DummyConnector1, false),
        Err(invalid("Invalid connector name"))
    );
    assert_eq!(validate_dummy_connector_enabled(&Connector::Stripe, false), Ok(()));
    assert_eq!(validate_dummy_connector_enabled(&Connector::Stripe, true), Ok(()));
}

#[test]
fn business_details_must_be_the_merchants() {
    let s = |t: &str| Some(t.to_string());
    let not_configured = Err(ApiErrorResponse::PreconditionFailed {
        message: "business_details are not configured in the merchant account".to_string(),
    });
    assert_eq!(validate_business_details(&s("US"), &s("food"), &merchant()), Ok(()));
    assert_eq!(validate_business_details(&s("US"), &s("books"), &merchant()), not_configured);
    assert_eq!(validate_business_details(&s("DE"), &s("food"), &merchant()), not_configured);
    assert_eq!(validate_business_details(&None, &s("books"), &merchant()), Ok(()));
    assert_eq!(validate_business_details(&s("DE"), &None, &merchant()), Ok(()));
    assert_eq!(validate_business_details(&None, &None, &merchant()), Ok(()));
}

#[test]
fn profile_of_a_new_account() {
    let mut req = request();
    let mut account = merchant();
    account.default_profile = Some("pro_default".to_string());
    assert_eq!(
        req.validate_and_get_profile_id(&account),
        Ok(ProfileLookup::ById("pro_1".to_string()))
    );
    req.profile_id = None;
    assert_eq!(
        req.validate_and_get_profile_id(&account),
        Ok(ProfileLookup::ById("pro_default".to_string()))
    );
    account.default_profile = None;
    assert_eq!(
        req.validate_and_get_profile_id(&account),
        Err(ApiErrorResponse::MissingRequiredField {
            field_name: "profile_id or business_country, business_label".to_string(),
        })
    );
    req.business_country = Some("US".to_string());
    assert_eq!(
        req.validate_and_get_profile_id(&account),
        Err(ApiErrorResponse::MissingRequiredField {
            field_name: "profile_id or business_country, business_label".to_string(),
        })
    );
    req.business_label = Some("food".to_string());
    assert_eq!(
        req.validate_and_get_profile_id(&account),
        Ok(ProfileLookup::ByName("US_food".to_string()))
    );
}

#[test]
fn profile_looked_up_by_name() {
    assert_eq!(
        profile_id_by_name(Ok(profile("pro_7", "US_food")), "US_food".to_string()),
        Ok("pro_7".to_string())
    );
    assert_eq!(
        profile_id_by_name(Err(StorageError::ValueNotFound), "US_food".to_string()),
        Err(ApiErrorResponse::BusinessProfileNotFound { id: "US_food".to_string() })
    );
    assert_eq!(
        profile_id_by_name(Err(StorageError::Other), "US_food".to_string()),
        Err(ApiErrorResponse::InternalServerError)
    );
}

fn record(id: &str, profile_id: &str) -> MerchantConnectorAccount {
    let mut inputs = create_inputs();
    inputs.merchant_connector_id = id.to_string();
    let p = profile(profile_id, "default");
    let decision = request().validate_request(&p, &ConnectorNames::new()).expect("valid");
    request().create_domain_model_from_request(&p, decision, inputs)
}

fn pm_choice(mca_id: &str) -> PaymentMethodAuthConnectorChoice {
    PaymentMethodAuthConnectorChoice {
        payment_method: "bank_debit".to_string(),
        payment_method_type: "ach".to_string(),
        connector_name: "plaid".to_string(),
        mca_id: mca_id.to_string(),
    }
}

#[test]
fn pm_auth_config_must_name_accounts_under_the_profile() {
    let merchant_id = "merchant_1".to_string();
    let profile_id = "pro_1".to_string();
    let accounts = || Ok(vec![record("mca_a", "pro_1"), record("mca_b", "pro_2"), record("mca_c", "pro_1")]);
    let config = |ids: &[&str]| PaymentMethodAuthConfig {
        enabled_payment_methods: ids.iter().map(|id| pm_choice(id)).collect(),
    };
    let missing = Err(ApiErrorResponse::GenericNotFoundError {
        message: "payment method auth connector account not found".to_string(),
    });
    let differs = Err(ApiErrorResponse::GenericNotFoundError {
        message: "payment method auth profile_id differs from connector profile_id".to_string(),
    });
    assert_eq!(validate_pm_auth(&config(&[]), &accounts(), &merchant_id, &profile_id), Ok(()));
    assert_eq!(
        validate_pm_auth(&config(&["mca_a", "mca_c"]), &accounts(), &merchant_id, &profile_id),
        Ok(())
    );
    assert_eq!(
        validate_pm_auth(&config(&["mca_a", "mca_x"]), &accounts(), &merchant_id, &profile_id),
        missing
    );
    assert_eq!(
        validate_pm_auth(&config(&["mca_b", "mca_x"]), &accounts(), &merchant_id, &profile_id),
        differs
    );
    assert_eq!(
        validate_pm_auth(&config(&["mca_x", "mca_b"]), &accounts(), &merchant_id, &profile_id),
        missing
    );
    assert_eq!(
        validate_pm_auth(&config(&["mca_a"]), &Ok(vec![]), &merchant_id, &profile_id),
        missing
    );
    assert_eq!(
        validate_pm_auth(
            &config(&[]),
            &Err(StorageError::ValueNotFound),
            &merchant_id,
            &profile_id
        ),
        Err(ApiErrorResponse::MerchantConnectorAccountNotFound { id: "merchant_1".to_string() })
    );
}

#[test]
fn pm_auth_config_is_checked_unless_the_account_verifies_itself() {
    let config = Some(PaymentMethodAuthConfig { enabled_payment_methods: vec![] });
    assert!(validate_pm_auth_config(&ConnectorType::PaymentProcessor, &config));
    assert!(!validate_pm_auth_config(&ConnectorType::PaymentMethodAuth, &config));
    assert!(!validate_pm_auth_config(&ConnectorType::PaymentProcessor, &None));
}

#[test]
fn request_is_decided() {
    let p = profile("pro_1", "default");
    assert_eq!(
        request().validate_request(&p, &ConnectorNames::new()),
        Ok(ConnectorCreateDecision {
            connector_label: "stripe_default".to_string(),
            status: ConnectorStatus::Active,
            disabled: None,
            recipient: None,
        })
    );
    let mut req = request();
    req.status = Some(ConnectorStatus::Inactive);
    assert_eq!(
        req.validate_request(&p, &ConnectorNames::new()),
        Ok(ConnectorCreateDecision {
            connector_label: "stripe_default".to_string(),
            status: ConnectorStatus::Inactive,
            disabled: Some(true),
            recipient: None,
        })
    );
}

#[test]
fn request_is_refused_rule_by_rule() {
    let p = profile("pro_1", "default");
    let mut req = request();
    req.connector_account_details = None;
    assert_eq!(req.validate_request(&p, &ConnectorNames::new()), Err(unreadable()));
    req.connector_account_details = Some(ConnectorAccountDetails::Unreadable);
    assert_eq!(req.validate_request(&p, &ConnectorNames::new()), Err(unreadable()));

    let mut req = request();
    req.connector_account_details = Some(ConnectorAccountDetails::Auth(
        ConnectorAuthType::BodyKey { api_key: "a".to_string(), key1: "b".to_string() },
    ));
    req.status = Some(ConnectorStatus::Inactive);
    req.disabled = Some(false);
    assert_eq!(
        req.validate_request(&p, &ConnectorNames::new()),
        Err(invalid("The connector_account_details is invalid"))
    );

    let mut req = request();
    req.connector_name = Connector::Paypal;
    req.connector_account_details =
        Some(ConnectorAccountDetails::Auth(ConnectorAuthType::TemporaryAuth));
    req.status = Some(ConnectorStatus::Active);
    assert_eq!(
        req.validate_request(&p, &ConnectorNames::new()),
        Err(invalid("Connector status cannot be active when using TemporaryAuth"))
    );
    req.status = None;
    req.disabled = Some(false);
    assert_eq!(
        req.validate_request(&p, &ConnectorNames::new()),
        Err(invalid(
            "Connector cannot be enabled when connector_status is inactive or when using TemporaryAuth"
        ))
    );
    req.disabled = None;
    assert_eq!(
        req.validate_request(&p, &ConnectorNames::new()),
        Ok(ConnectorCreateDecision {
            connector_label: "paypal_default".to_string(),
            status: ConnectorStatus::Inactive,
            disabled: Some(true),
            recipient: None,
        })
    );
}

#[test]
fn recipient_data_is_planned_last() {
    let p = profile("pro_1", "default");
    let account = MerchantAccountData::Bacs {
        account_number: "12345678".to_string(),
        sort_code: "123456".to_string(),
        name: "holder".to_string(),
        connector_recipient_id: None,
    };
    let mut req = request();
    req.connector_name = Connector::Plaid;
    req.connector_account_details = Some(ConnectorAccountDetails::Auth(
        ConnectorAuthType::BodyKey { api_key: "a".to_string(), key1: "b".to_string() },
    ));
    req.additional_merchant_data = Some(AdditionalMerchantData::OpenBankingRecipientData(
        MerchantRecipientData::AccountData(account.duplicate()),
    ));
    assert_eq!(
        req.validate_request(&p, &ConnectorNames::from_names(vec!["plaid".to_string()])),
        Ok(ConnectorCreateDecision {
            connector_label: "plaid_default".to_string(),
            status: ConnectorStatus::Active,
            disabled: None,
            recipient: Some(RecipientStep::Register {
                registrar: RecipientRegistrar::Locker,
                account: account.duplicate(),
            }),
        })
    );
    req.connector_type = ConnectorType::PaymentMethodAuth;
    assert_eq!(
        req.validate_request(&p, &ConnectorNames::new()),
        Err(ApiErrorResponse::InvalidConnectorConfiguration {
            config: "OpenBanking connector for Payment Initiation should be a payment processor"
                .to_string(),
        })
    );
    req.connector_type = ConnectorType::PaymentProcessor;
    req.additional_merchant_data = Some(AdditionalMerchantData::OpenBankingRecipientData(
        MerchantRecipientData::AccountData(MerchantAccountData::Bacs {
            account_number: "123456789".to_string(),
            sort_code: "123456".to_string(),
            name: "holder".to_string(),
            connector_recipient_id: None,
        }),
    ));
    assert_eq!(req.validate_request(&p, &ConnectorNames::new()), Err(invalid("Invalid BACS numbers")));
}

#[test]
fn record_of_a_new_account() {
    let account = record("mca_1", "pro_1");
    assert_eq!(
        account,
        MerchantConnectorAccount {
            merchant_id: "merchant_1".to_string(),
            connector_name: "stripe".to_string(),
            connector_account_details: vec![1, 2],
            test_mode: Some(true),
            disabled: None,
            merchant_connector_id: "mca_1".to_string(),
            payment_methods_enabled: Some(vec!["{\"payment_method\":\"card\"}".to_string()]),
            connector_type: ConnectorType::PaymentProcessor,
            metadata: None,
            frm_configs: None,
            connector_label: Some("stripe_default".to_string()),
            business_country: None,
            business_label: None,
            business_sub_label: None,
            created_at: 30,
            modified_at: 30,
            connector_webhook_details: None,
            profile_id: "pro_1".to_string(),
            applepay_verified_domains: None,
            pm_auth_config: None,
            status: ConnectorStatus::Active,
            connector_wallets_details: None,
            additional_merchant_data: None,
        }
    );
    assert_eq!(account.get_id(), "mca_1");
    assert_eq!(request().get_transaction_type(), TransactionType::Payment);
    let mut payout = request();
    payout.connector_type = ConnectorType::PayoutProcessor;
    assert_eq!(payout.get_transaction_type(), TransactionType::Payout);
}

fn update() -> MerchantConnectorUpdate {
    MerchantConnectorUpdate {
        connector_type: ConnectorType::PaymentProcessor,
        connector_label: Some("new_label".to_string()),
        connector_account_details: None,
        payment_methods_enabled: None,
        connector_webhook_details: None,
        metadata: None,
        test_mode: Some(false),
        disabled: None,
        frm_configs: None,
        pm_auth_config: None,
        status: None,
    }
}

fn stored() -> ConnectorAccountDetails {
    ConnectorAccountDetails::Auth(ConnectorAuthType::HeaderKey { api_key: "sk".to_string() })
}

#[test]
fn update_is_decided_against_the_account() {
    let mut mca = record("mca_1", "pro_1");
    assert_eq!(
        update().validate_request(&mca, &stored()),
        Ok(ConnectorUpdateDecision {
            status: ConnectorStatus::Active,
            disabled: None,
            validate_pm_auth: false,
        })
    );
    mca.status = ConnectorStatus::Inactive;
    assert_eq!(
        update().validate_request(&mca, &stored()),
        Ok(ConnectorUpdateDecision {
            status: ConnectorStatus::Inactive,
            disabled: Some(true),
            validate_pm_auth: false,
        })
    );
    let mut req = update();
    req.disabled = Some(false);
    assert_eq!(
        req.validate_request(&mca, &stored()),
        Err(invalid(
            "Connector cannot be enabled when connector_status is inactive or when using TemporaryAuth"
        ))
    );
    req.status = Some(ConnectorStatus::Active);
    req.pm_auth_config = Some(PaymentMethodAuthConfig { enabled_payment_methods: vec![] });
    assert_eq!(
        req.validate_request(&mca, &stored()),
        Ok(ConnectorUpdateDecision {
            status: ConnectorStatus::Active,
            disabled: Some(false),
            validate_pm_auth: true,
        })
    );
}

#[test]
fn update_is_refused_rule_by_rule() {
    let mut mca = record("mca_1", "pro_1");
    assert_eq!(
        update().validate_request(&mca, &ConnectorAccountDetails::Unreadable),
        Err(unreadable())
    );
    let mut req = update();
    req.connector_account_details = Some(ConnectorAccountDetails::Unreadable);
    assert_eq!(req.validate_request(&mca, &stored()), Err(unreadable()));
    // the request's credentials are used before those of the account
    req.connector_account_details = Some(ConnectorAccountDetails::Auth(
        ConnectorAuthType::BodyKey { api_key: "a".to_string(), key1: "b".to_string() },
    ));
    assert_eq!(
        req.validate_request(&mca, &stored()),
        Err(invalid("The connector_account_details is invalid"))
    );
    mca.connector_name = "no_such_connector".to_string();
    assert_eq!(
        update().validate_request(&mca, &stored()),
        Err(ApiErrorResponse::InvalidDataValue { field_name: "connector".to_string() })
    );
    assert_eq!(
        update().validate_request(&mca, &ConnectorAccountDetails::Unreadable),
        Err(unreadable())
    );
}

#[test]
fn update_uses_the_metadata_of_the_account_where_it_brings_none() {
    use_metadata_of_account();
}

fn use_metadata_of_account() {
    let mut mca = record("mca_1", "pro_1");
    mca.connector_name = "adyen".to_string();
    let body = ConnectorAccountDetails::Auth(ConnectorAuthType::BodyKey {
        api_key: "a".to_string(),
        key1: "b".to_string(),
    });
    assert_eq!(
        update().validate_request(&mca, &body),
        Err(invalid("The metadata is invalid"))
    );
    mca.metadata = Some(admin_core::connector_rules::MetadataObject {
        fields: vec![],
        apple_pay: admin_core::connector_rules::ApplePayMetadata::Absent,
    });
    assert!(update().validate_request(&mca, &body).is_ok());
}

#[test]
fn change_to_an_account() {
    let decision = ConnectorUpdateDecision {
        status: ConnectorStatus::Inactive,
        disabled: Some(true),
        validate_pm_auth: false,
    };
    let mut request = update();
    request.connector_account_details = Some(stored());
    assert_eq!(
        request.create_domain_model_from_request(
            decision,
            ConnectorUpdateInputs {
                encrypted_connector_account_details: Some(vec![5]),
                connector_wallets_details: None,
            }
        ),
        MerchantConnectorAccountUpdate::Update {
            connector_type: Some(ConnectorType::PaymentProcessor),
            connector_name: None,
            connector_account_details: Some(vec![5]),
            test_mode: Some(false),
            disabled: Some(true),
            merchant_connector_id: None,
            payment_methods_enabled: None,
            metadata: None,
            frm_configs: None,
            connector_webhook_details: None,
            applepay_verified_domains: None,
            pm_auth_config: None,
            connector_label: Some("new_label".to_string()),
            status: Some(ConnectorStatus::Inactive),
            connector_wallets_details: None,
        }
    );
}

#[test]
fn accounts_are_read_for_their_profile() {
    let mca = record("mca_1", "pro_1");
    let failed = Err(ApiErrorResponse::PreconditionFailed {
        message: "Profile id authentication failed. Please use the correct JWT token".to_string(),
    });
    assert_eq!(validate_profile_id_from_auth_layer(&None, &mca), Ok(()));
    assert_eq!(validate_profile_id_from_auth_layer(&Some("pro_1".to_string()), &mca), Ok(()));
    assert_eq!(validate_profile_id_from_auth_layer(&Some("pro_2".to_string()), &mca), failed);
    assert_eq!(retrieve_connector(Ok(record("mca_1", "pro_1")), &None, "mca_1"), Ok(mca));
    assert_eq!(
        retrieve_connector(Ok(record("mca_1", "pro_1")), &Some("pro_2".to_string()), "mca_1"),
        Err(ApiErrorResponse::PreconditionFailed {
            message: "Profile id authentication failed. Please use the correct JWT token"
                .to_string(),
        })
    );
    assert_eq!(
        retrieve_connector(Err(StorageError::ValueNotFound), &None, "mca_9"),
        Err(ApiErrorResponse::MerchantConnectorAccountNotFound { id: "mca_9".to_string() })
    );
    assert_eq!(
        get_merchant_connector_account_from_id(Err(StorageError::Other), "mca_9"),
        Err(ApiErrorResponse::InternalServerError)
    );
    assert_eq!(
        get_merchant_connector_account_from_id(Ok(record("mca_1", "pro_1")), "mca_1"),
        Ok(record("mca_1", "pro_1"))
    );
}

#[test]
fn accounts_are_listed_for_the_profiles_asked() {
    let all = || vec![record("a", "pro_1"), record("b", "pro_2"), record("c", "pro_1"), record("d", "pro_3")];
    assert_eq!(list_payment_connectors(&None, all()), all());
    assert_eq!(
        list_payment_connectors(&Some(vec!["pro_1".to_string()]), all()),
        vec![record("a", "pro_1"), record("c", "pro_1")]
    );
    assert_eq!(
        list_payment_connectors(&Some(vec!["pro_3".to_string(), "pro_2".to_string()]), all()),
        vec![record("b", "pro_2"), record("d", "pro_3")]
    );
    assert_eq!(list_payment_connectors(&Some(vec![]), all()), vec![]);
    assert_eq!(list_payment_connectors(&None, vec![]), vec![]);
}

#[test]
fn refused_update_is_a_duplicate() {
    assert_eq!(
        update_connector(Ok(record("mca_1", "pro_1")), "pro_1".to_string(), None),
        Ok(record("mca_1", "pro_1"))
    );
    for err in [StorageError::DuplicateValue, StorageError::ValueNotFound, StorageError::Other] {
        assert_eq!(
            update_connector(Err(err), "pro_1".to_string(), Some("label".to_string())),
            Err(ApiErrorResponse::DuplicateMerchantConnectorAccount {
                profile_id: "pro_1".to_string(),
                connector_label: "label".to_string(),
            })
        );
    }
    assert_eq!(
        update_connector(Err(StorageError::DuplicateValue), "pro_1".to_string(), None),
        Err(ApiErrorResponse::DuplicateMerchantConnectorAccount {
            profile_id: "pro_1".to_string(),
            connector_label: String::new(),
        })
    );
}

#[test]
fn account_of_another_merchant_is_not_deleted() {
    let mca = record("mca_1", "pro_1");
    assert_eq!(delete_connector(&mca, &"merchant_1".to_string(), "mca_1"), Ok(()));
    assert_eq!(
        delete_connector(&mca, &"merchant_2".to_string(), "mca_1"),
        Err(invalid("Invalid merchant_id merchant_2 provided for merchant_connector_account mca_1"))
    );
}

#[test]
fn decisions_must_fit_the_request() {
    let p = profile("pro_1", "default");
    let decision = request().validate_request(&p, &ConnectorNames::new()).expect("valid");
    assert!(request().fits(&decision));
    let mut inactive_enabled = decision.clone();
    inactive_enabled.status = ConnectorStatus::Inactive;
    inactive_enabled.disabled = Some(false);
    assert!(!request().fits(&inactive_enabled));
    inactive_enabled.disabled = None;
    assert!(!request().fits(&inactive_enabled));
    inactive_enabled.disabled = Some(true);
    assert!(request().fits(&inactive_enabled));
    let mut temporary = request();
    temporary.connector_account_details =
        Some(ConnectorAccountDetails::Auth(ConnectorAuthType::TemporaryAuth));
    assert!(!temporary.fits(&decision));
    assert!(temporary.fits(&inactive_enabled));
}

#[test]
fn changes_must_fit_the_request() {
    let active = ConnectorUpdateDecision {
        status: ConnectorStatus::Active,
        disabled: None,
        validate_pm_auth: false,
    };
    let inactive = ConnectorUpdateDecision {
        status: ConnectorStatus::Inactive,
        disabled: Some(true),
        validate_pm_auth: false,
    };
    let without = ConnectorUpdateInputs {
        encrypted_connector_account_details: None,
        connector_wallets_details: None,
    };
    let with = ConnectorUpdateInputs {
        encrypted_connector_account_details: Some(vec![1]),
        connector_wallets_details: None,
    };
    // a request without credentials takes none
    assert!(update().fits(&active, &without));
    assert!(!update().fits(&active, &with));
    let mut named = update();
    named.connector_account_details = Some(stored());
    assert!(named.fits(&active, &with));
    assert!(named.fits(&active, &without));
    // an inactive account is disabled
    let mut enabled = inactive;
    enabled.disabled = Some(false);
    assert!(!update().fits(&enabled, &without));
    assert!(update().fits(&inactive, &without));
    // temporary credentials make the account inactive
    named.connector_account_details =
        Some(ConnectorAccountDetails::Auth(ConnectorAuthType::TemporaryAuth));
    assert!(!named.fits(&active, &with));
    assert!(named.fits(&inactive, &with));
    match named.create_domain_model_from_request(inactive, with) {
        MerchantConnectorAccountUpdate::Update { connector_account_details, status, disabled, .. } => {
            assert_eq!(connector_account_details, Some(vec![1]));
            assert_eq!(status, Some(ConnectorStatus::Inactive));
            assert_eq!(disabled, Some(true));
        }
    }
    match update().create_domain_model_from_request(active, without) {
        MerchantConnectorAccountUpdate::Update { connector_account_details, connector_name, merchant_connector_id, .. } => {
            assert_eq!(connector_account_details, None);
            assert_eq!(connector_name, None);
            assert_eq!(merchant_connector_id, None);
        }
    }
}
