use admin_core::checksum::{get_detached_auth, ChecksumKey};
use admin_core::enums::Connector;
use admin_core::errors::{
    to_duplicate_response, to_not_found_response, ApiErrorResponse, StorageError,
};
use admin_core::routes::{
    ApiKeys, ApiVersion, BusinessProfile, Cache, Customers, Health, MerchantAccount,
    MerchantConnectorAccount, Organization, Payments, Routing, WebhookEvents,
};

#[test]
fn connector_names() {
    assert_eq!(Connector::Stripe.to_string(), "stripe");
    assert_eq!(Connector::Adyenplatform.to_string(), "adyenplatform");
    assert_eq!(Connector::Bankofamerica.to_string(), "bankofamerica");
    assert_eq!(Connector::DummyConnector1.to_string(), "phonypay");
    assert_eq!(Connector::DummyConnector4.to_string(), "stripe_test");
    assert_eq!(Connector::DummyConnector7.to_string(), "paypal_test");
    assert_eq!(Connector::Threedsecureio.to_string(), "threedsecureio");
}

#[test]
fn connector_names_are_found_again() {
    let all = Connector::all();
    assert_eq!(all.len(), 74);
    for connector in all.iter() {
        assert_eq!(Connector::from_str(&connector.to_string()), Some(*connector));
    }
    for (i, a) in all.iter().enumerate() {
        for b in all.iter().skip(i + 1) {
            assert_ne!(a, b);
            assert_ne!(a.to_string(), b.to_string());
        }
    }
}

#[test]
fn unknown_connector_names_are_not_found() {
    assert_eq!(Connector::from_str(""), None);
    assert_eq!(Connector::from_str("Stripe"), None);
    assert_eq!(Connector::from_str("stripe "), None);
    assert_eq!(Connector::from_str("dummyconnector1"), None);
    assert_eq!(Connector::from_str("phonypay"), Some(Connector::DummyConnector1));
}

#[test]
fn dummy_connectors_are_seven() {
    let dummies: Vec<Connector> =
        Connector::all().into_iter().filter(|c| c.is_dummy()).collect();
    assert_eq!(
        dummies,
        vec![
            Connector::DummyConnector1,
            Connector::DummyConnector2,
            Connector::DummyConnector3,
            Connector::DummyConnector4,
            Connector::DummyConnector5,
            Connector::DummyConnector6,
            Connector::DummyConnector7,
        ]
    );
}

#[test]
fn storage_errors_are_read_by_what_was_expected() {
    let nf = || ApiErrorResponse::MerchantAccountNotFound;
    assert_eq!(to_not_found_response(StorageError::ValueNotFound, nf()), nf());
    assert_eq!(
        to_not_found_response(StorageError::DuplicateValue, nf()),
        ApiErrorResponse::InternalServerError
    );
    assert_eq!(
        to_not_found_response(StorageError::Other, nf()),
        ApiErrorResponse::InternalServerError
    );
    let dup = || ApiErrorResponse::DuplicateMerchantAccount;
    assert_eq!(to_duplicate_response(StorageError::DuplicateValue, dup()), dup());
    assert_eq!(
        to_duplicate_response(StorageError::ValueNotFound, dup()),
        ApiErrorResponse::InternalServerError
    );
    assert_eq!(
        to_duplicate_response(StorageError::Other, dup()),
        ApiErrorResponse::InternalServerError
    );
}

#[test]
fn route_groups_have_their_paths() {
    assert_eq!(Health::scope_path(), "health");
    assert_eq!(Cache::scope_path(), "/cache");
    assert_eq!(Organization::scope_path(), "/organization");
    assert_eq!(ApiKeys::scope_path(), "/api_keys/{merchant_id}");
    assert_eq!(WebhookEvents::scope_path(), "/events/{merchant_id}");
    assert_eq!(Payments::scope_path(ApiVersion::V1), "/payments");
    assert_eq!(Payments::scope_path(ApiVersion::V2), "/v2/payments");
    assert_eq!(Routing::scope_path(ApiVersion::V1), "/routing");
    assert_eq!(Routing::scope_path(ApiVersion::V2), "/v2/routing_algorithm");
    assert_eq!(Customers::scope_path(ApiVersion::V2), "/v2/customers");
    assert_eq!(MerchantAccount::scope_path(ApiVersion::V1), "/accounts");
    assert_eq!(MerchantAccount::scope_path(ApiVersion::V2), "/v2/accounts");
    assert_eq!(MerchantConnectorAccount::scope_path(ApiVersion::V1), "/account");
    assert_eq!(MerchantConnectorAccount::scope_path(ApiVersion::V2), "/v2/connector_accounts");
    assert_eq!(
        BusinessProfile::scope_path(ApiVersion::V1),
        "/account/{account_id}/business_profile"
    );
    assert_eq!(BusinessProfile::scope_path(ApiVersion::V2), "/v2/profiles");
}

#[test]
fn checksum_key_is_decoded_from_hexadecimal() {
    assert_eq!(
        get_detached_auth("context".to_string(), "6b697769"),
        Ok(ChecksumKey { context: "context".to_string(), key: b"kiwi".to_vec() })
    );
    assert_eq!(
        get_detached_auth("c".to_string(), "00fFAb"),
        Ok(ChecksumKey { context: "c".to_string(), key: vec![0x00, 0xff, 0xab] })
    );
    assert_eq!(
        get_detached_auth("c".to_string(), ""),
        Ok(ChecksumKey { context: "c".to_string(), key: vec![] })
    );
}

#[test]
fn checksum_key_that_is_no_hexadecimal_is_an_internal_error() {
    for key in ["abc", "zz", "12 4", "\u{e9}", "a\u{e9}"] {
        assert_eq!(
            get_detached_auth("c".to_string(), key),
            Err(ApiErrorResponse::InternalServerError)
        );
    }
}
