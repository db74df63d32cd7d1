use admin_core::auth::ConnectorAuthType;
use admin_core::bank::{MerchantAccountData, RecipientIdType};
use admin_core::collections::ConnectorNames;
use admin_core::enums::{Connector, ConnectorType};
use admin_core::errors::ApiErrorResponse;
use admin_core::recipient::{
    connector_recipient_create_call, locker_recipient_create_call,
    process_open_banking_connectors, recipient_id_from_response, AdditionalMerchantData,
    ErrorResponse, MerchantRecipientData, PaymentAuthCredentials, RecipientAccountData,
    RecipientCreateRequest, RecipientCreateResponse, RecipientCreateRouterData,
    RecipientRegistrar, RecipientStep, StoreGenericReq,
};

fn iban_account() -> MerchantAccountData {
    MerchantAccountData::Iban {
        iban: "GB82WEST12345698765432".to_string(),
        name: "holder".to_string(),
        connector_recipient_id: None,
    }
}

fn bacs_account() -> MerchantAccountData {
    MerchantAccountData::Bacs {
        account_number: "12345678".to_string(),
        sort_code: "123456".to_string(),
        name: "holder".to_string(),
        connector_recipient_id: Some(RecipientIdType::ConnectorId("old".to_string())),
    }
}

fn open_banking(account: MerchantAccountData) -> AdditionalMerchantData {
    AdditionalMerchantData::OpenBankingRecipientData(MerchantRecipientData::AccountData(account))
}

#[test]
fn recipient_data_needs_a_payment_processor() {
    for connector_type in [ConnectorType::PaymentMethodAuth, ConnectorType::PayoutProcessor] {
        assert_eq!(
            process_open_banking_connectors(
                &connector_type,
                &Connector::Plaid,
                open_banking(iban_account()),
                &ConnectorNames::new(),
            ),
            Err(ApiErrorResponse::InvalidConnectorConfiguration {
                config:
                    "OpenBanking connector for Payment Initiation should be a payment processor"
                        .to_string(),
            })
        );
    }
}

#[test]
fn bank_account_is_validated_before_anything_is_registered() {
    let bad = MerchantAccountData::Iban {
        iban: "GB82WEST1234569876543".to_string(),
        name: "holder".to_string(),
        connector_recipient_id: None,
    };
    assert_eq!(
        process_open_banking_connectors(
            &ConnectorType::PaymentProcessor,
            &Connector::Plaid,
            open_banking(bad),
            &ConnectorNames::new(),
        ),
        Err(ApiErrorResponse::InvalidRequestData { message: "Invalid IBAN".to_string() })
    );
}

#[test]
fn registrar_is_chosen_by_the_locker_list() {
    let plan = |locker: Vec<String>| {
        process_open_banking_connectors(
            &ConnectorType::PaymentProcessor,
            &Connector::Plaid,
            open_banking(iban_account()),
            &ConnectorNames::from_names(locker),
        )
    };
    assert_eq!(
        plan(vec![]),
        Ok(RecipientStep::Register {
            registrar: RecipientRegistrar::Connector,
            account: iban_account(),
        })
    );
    assert_eq!(
        plan(vec!["stripe".to_string()]),
        Ok(RecipientStep::Register {
            registrar: RecipientRegistrar::Connector,
            account: iban_account(),
        })
    );
    assert_eq!(
        plan(vec!["stripe".to_string(), "plaid".to_string()]),
        Ok(RecipientStep::Register {
            registrar: RecipientRegistrar::Locker,
            account: iban_account(),
        })
    );
}

#[test]
fn named_recipients_are_kept() {
    for data in [
        MerchantRecipientData::ConnectorRecipientId("r".to_string()),
        MerchantRecipientData::WalletId("w".to_string()),
    ] {
        let step = process_open_banking_connectors(
            &ConnectorType::PaymentProcessor,
            &Connector::Plaid,
            AdditionalMerchantData::OpenBankingRecipientData(data.duplicate()),
            &ConnectorNames::new(),
        );
        assert_eq!(step, Ok(RecipientStep::Keep(data.duplicate())));
        assert_eq!(
            RecipientStep::Keep(data.duplicate()).finish(Err(ApiErrorResponse::InternalServerError)),
            Ok(data)
        );
    }
}

#[test]
fn registered_recipient_is_entered_into_the_account() {
    let step = RecipientStep::Register {
        registrar: RecipientRegistrar::Connector,
        account: iban_account(),
    };
    assert_eq!(
        step.duplicate().finish(Ok("rec_1".to_string())),
        Ok(MerchantRecipientData::AccountData(MerchantAccountData::Iban {
            iban: "GB82WEST12345698765432".to_string(),
            name: "holder".to_string(),
            connector_recipient_id: Some(RecipientIdType::ConnectorId("rec_1".to_string())),
        }))
    );
    assert_eq!(
        step.finish(Err(ApiErrorResponse::InternalServerError)),
        Err(ApiErrorResponse::InternalServerError)
    );
    let locker =
        RecipientStep::Register { registrar: RecipientRegistrar::Locker, account: bacs_account() };
    assert_eq!(
        locker.finish(Ok("ref_9".to_string())),
        Ok(MerchantRecipientData::AccountData(MerchantAccountData::Bacs {
            account_number: "12345678".to_string(),
            sort_code: "123456".to_string(),
            name: "holder".to_string(),
            connector_recipient_id: Some(RecipientIdType::LockerId("ref_9".to_string())),
        }))
    );
}

#[test]
fn recipient_create_call_is_prepared() {
    let auth = ConnectorAuthType::BodyKey { api_key: "client".to_string(), key1: "secret".to_string() };
    let call = connector_recipient_create_call(
        &"merchant_1".to_string(),
        &Connector::Plaid,
        &auth,
        &bacs_account(),
    );
    assert_eq!(
        call,
        Ok(RecipientCreateRouterData {
            merchant_id: Some("merchant_1".to_string()),
            connector: Some("plaid".to_string()),
            request: RecipientCreateRequest {
                name: "holder".to_string(),
                account_data: RecipientAccountData::Bacs {
                    sort_code: "123456".to_string(),
                    account_number: "12345678".to_string(),
                },
                address: None,
            },
            response: Err(ErrorResponse {
                status_code: 500,
                code: "No error code".to_string(),
                message: "Unsupported response type".to_string(),
                reason: None,
            }),
            connector_http_status_code: None,
            connector_auth_type: PaymentAuthCredentials::BodyKey {
                client_id: "client".to_string(),
                secret: "secret".to_string(),
            },
        })
    );
    let iban_call = connector_recipient_create_call(
        &"merchant_1".to_string(),
        &Connector::Plaid,
        &auth,
        &iban_account(),
    )
    .expect("prepared");
    assert_eq!(
        iban_call.request.account_data,
        RecipientAccountData::Iban("GB82WEST12345698765432".to_string())
    );
}

#[test]
fn recipient_create_call_needs_a_pm_auth_connector_and_body_key() {
    let auth = ConnectorAuthType::BodyKey { api_key: "a".to_string(), key1: "b".to_string() };
    assert_eq!(
        connector_recipient_create_call(
            &"m".to_string(),
            &Connector::Stripe,
            &auth,
            &iban_account()
        ),
        Err(ApiErrorResponse::IncorrectConnectorNameGiven)
    );
    assert_eq!(
        connector_recipient_create_call(
            &"m".to_string(),
            &Connector::Plaid,
            &ConnectorAuthType::HeaderKey { api_key: "a".to_string() },
            &iban_account()
        ),
        Err(ApiErrorResponse::InternalServerError)
    );
}

#[test]
fn connector_errors_pass_through() {
    assert_eq!(
        recipient_id_from_response(
            &Connector::Plaid,
            Ok(RecipientCreateResponse { recipient_id: "rec_7".to_string() })
        ),
        Ok("rec_7".to_string())
    );
    assert_eq!(
        recipient_id_from_response(
            &Connector::Plaid,
            Err(ErrorResponse {
                status_code: 422,
                code: "INVALID".to_string(),
                message: "bad account".to_string(),
                reason: Some("because".to_string()),
            })
        ),
        Err(ApiErrorResponse::ExternalConnectorError {
            code: "INVALID".to_string(),
            message: "bad account".to_string(),
            connector: "plaid".to_string(),
            status_code: 422,
            reason: Some("because".to_string()),
        })
    );
}

#[test]
fn locker_request_is_for_the_merchant() {
    assert_eq!(
        locker_recipient_create_call(&"merchant_1".to_string(), "{\"iban\":1}".to_string(), 3600),
        StoreGenericReq {
            merchant_id: "merchant_1".to_string(),
            merchant_customer_id: "merchant_1".to_string(),
            enc_data: "{\"iban\":1}".to_string(),
            ttl: 3600,
        }
    );
}
