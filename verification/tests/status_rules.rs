use admin_core::auth::ConnectorAuthType;
use admin_core::enums::ConnectorStatus;
use admin_core::errors::ApiErrorResponse;
use admin_core::status::ConnectorStatusAndDisabledValidation;

fn resolve(
    status: Option<ConnectorStatus>,
    disabled: Option<bool>,
    auth: &ConnectorAuthType,
    current: ConnectorStatus,
) -> Result<(ConnectorStatus, Option<bool>), ApiErrorResponse> {
    ConnectorStatusAndDisabledValidation {
        status: &status,
        disabled: &disabled,
        auth,
        current_status: &current,
    }
    .validate_status_and_disabled()
}

fn header_key() -> ConnectorAuthType {
    ConnectorAuthType::HeaderKey { api_key: "k".to_string() }
}

fn active_with_temporary() -> ApiErrorResponse {
    ApiErrorResponse::InvalidRequestData {
        message: "Connector status cannot be active when using TemporaryAuth".to_string(),
    }
}

fn enabled_when_inactive() -> ApiErrorResponse {
    ApiErrorResponse::InvalidRequestData {
        message:
            "Connector cannot be enabled when connector_status is inactive or when using TemporaryAuth"
                .to_string(),
    }
}

#[test]
fn active_with_temporary_auth_always_fails() {
    for disabled in [None, Some(true), Some(false)] {
        for current in [ConnectorStatus::Active, ConnectorStatus::Inactive] {
            assert_eq!(
                resolve(
                    Some(ConnectorStatus::Active),
                    disabled,
                    &ConnectorAuthType::TemporaryAuth,
                    current
                ),
                Err(active_with_temporary())
            );
        }
    }
}

#[test]
fn enabling_an_inactive_account_always_fails() {
    // inactive because it was asked for
    for current in [ConnectorStatus::Active, ConnectorStatus::Inactive] {
        assert_eq!(
            resolve(Some(ConnectorStatus::Inactive), Some(false), &header_key(), current),
            Err(enabled_when_inactive())
        );
        assert_eq!(
            resolve(
                Some(ConnectorStatus::Inactive),
                Some(false),
                &ConnectorAuthType::TemporaryAuth,
                current
            ),
            Err(enabled_when_inactive())
        );
        // inactive because of temporary credentials
        assert_eq!(
            resolve(None, Some(false), &ConnectorAuthType::TemporaryAuth, current),
            Err(enabled_when_inactive())
        );
    }
    // inactive because it was so before
    assert_eq!(
        resolve(None, Some(false), &header_key(), ConnectorStatus::Inactive),
        Err(enabled_when_inactive())
    );
}

#[test]
fn requested_status_is_taken() {
    assert_eq!(
        resolve(Some(ConnectorStatus::Active), None, &header_key(), ConnectorStatus::Inactive),
        Ok((ConnectorStatus::Active, None))
    );
    assert_eq!(
        resolve(Some(ConnectorStatus::Inactive), None, &header_key(), ConnectorStatus::Active),
        Ok((ConnectorStatus::Inactive, Some(true)))
    );
    assert_eq!(
        resolve(
            Some(ConnectorStatus::Inactive),
            Some(true),
            &ConnectorAuthType::TemporaryAuth,
            ConnectorStatus::Active
        ),
        Ok((ConnectorStatus::Inactive, Some(true)))
    );
}

#[test]
fn temporary_auth_without_status_is_inactive() {
    assert_eq!(
        resolve(None, None, &ConnectorAuthType::TemporaryAuth, ConnectorStatus::Active),
        Ok((ConnectorStatus::Inactive, Some(true)))
    );
    assert_eq!(
        resolve(None, Some(true), &ConnectorAuthType::TemporaryAuth, ConnectorStatus::Active),
        Ok((ConnectorStatus::Inactive, Some(true)))
    );
}

#[test]
fn current_status_stays_without_request() {
    assert_eq!(
        resolve(None, None, &header_key(), ConnectorStatus::Active),
        Ok((ConnectorStatus::Active, None))
    );
    assert_eq!(
        resolve(None, None, &header_key(), ConnectorStatus::Inactive),
        Ok((ConnectorStatus::Inactive, Some(true)))
    );
    assert_eq!(
        resolve(None, Some(false), &header_key(), ConnectorStatus::Active),
        Ok((ConnectorStatus::Active, Some(false)))
    );
    assert_eq!(
        resolve(None, Some(true), &header_key(), ConnectorStatus::Active),
        Ok((ConnectorStatus::Active, Some(true)))
    );
    assert_eq!(
        resolve(None, Some(true), &ConnectorAuthType::NoKey, ConnectorStatus::Inactive),
        Ok((ConnectorStatus::Inactive, Some(true)))
    );
}
