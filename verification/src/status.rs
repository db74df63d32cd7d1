//! The status and the disabled flag of a connector account, as they follow
//! from what a request asks for, the credentials and the status so far.

use vstd::prelude::*;

use crate::auth::{shape_of, AuthShape, ConnectorAuthType};
use crate::enums::ConnectorStatus;
use crate::errors::{invalid_request, invalid_request_data, ApiError, ApiErrorResponse};

verus! {

/// The status an account gets, or `None` where the request is refused:
/// temporary credentials cannot be active. A requested status is taken;
/// without one, temporary credentials make the account inactive and any
/// other credentials leave the status as it is.
pub open spec fn resolved_status(
    requested: Option<ConnectorStatus>,
    temporary_auth: bool,
    current: ConnectorStatus,
) -> Option<ConnectorStatus> {
    match requested {
        Some(ConnectorStatus::Active) => if temporary_auth {
            None
        } else {
            Some(ConnectorStatus::Active)
        },
        Some(status) => Some(status),
        None => if temporary_auth {
            Some(ConnectorStatus::Inactive)
        } else {
            Some(current)
        },
    }
}

/// The disabled flag an account gets for its resolved status, or `None`
/// where the request is refused: an inactive account cannot be enabled. A
/// requested flag is taken; without one, an inactive account is disabled
/// and any other keeps the flag it has (`Some(None)`).
pub open spec fn resolved_disabled(requested: Option<bool>, status: ConnectorStatus) -> Option<
    Option<bool>,
> {
    match requested {
        Some(false) => if status == ConnectorStatus::Inactive {
            None
        } else {
            Some(Some(false))
        },
        Some(disabled) => Some(Some(disabled)),
        None => if status == ConnectorStatus::Inactive {
            Some(Some(true))
        } else {
            Some(None)
        },
    }
}

/// The message for an active status asked for with temporary credentials.
pub open spec fn active_with_temporary_auth_message() -> Seq<char> {
    "Connector status cannot be active when using TemporaryAuth"@
}

/// The message for an inactive account that is asked to be enabled.
pub open spec fn enabled_when_inactive_message() -> Seq<char> {
    "Connector cannot be enabled when connector_status is inactive or when using TemporaryAuth"@
}

/// Status and disabled flag of an account, or the error that refuses the
/// request: the status is resolved first, the flag for that status.
pub open spec fn resolved_status_and_disabled(
    requested_status: Option<ConnectorStatus>,
    requested_disabled: Option<bool>,
    temporary_auth: bool,
    current: ConnectorStatus,
) -> Result<(ConnectorStatus, Option<bool>), ApiError> {
    match resolved_status(requested_status, temporary_auth, current) {
        None => Err(invalid_request(active_with_temporary_auth_message())),
        Some(status) => match resolved_disabled(requested_disabled, status) {
            None => Err(invalid_request(enabled_when_inactive_message())),
            Some(disabled) => Ok((status, disabled)),
        },
    }
}

/// The outcome of a resolution with its error taken by its value.
pub open spec fn resolution_of(
    result: Result<(ConnectorStatus, Option<bool>), ApiErrorResponse>,
) -> Result<(ConnectorStatus, Option<bool>), ApiError> {
    match result {
        Ok(pair) => Ok(pair),
        Err(e) => Err(e@),
    }
}

/// What a request asks of an account's status and flag, with the
/// credentials and the status so far.
pub struct ConnectorStatusAndDisabledValidation<'a> {
    pub status: &'a Option<ConnectorStatus>,
    pub disabled: &'a Option<bool>,
    pub auth: &'a ConnectorAuthType,
    pub current_status: &'a ConnectorStatus,
}

impl<'a> ConnectorStatusAndDisabledValidation<'a> {
    /// Resolves the status and the disabled flag of the account.
    pub fn validate_status_and_disabled(&self) -> (result: Result<
        (ConnectorStatus, Option<bool>),
        ApiErrorResponse,
    >)
        ensures
            resolution_of(result) == resolved_status_and_disabled(
                *self.status,
                *self.disabled,
                shape_of(*self.auth) == AuthShape::TemporaryAuth,
                *self.current_status,
            ),
    {
        let temporary_auth = self.auth.is_temporary();
        let connector_status = match (self.status, temporary_auth) {
            (Some(ConnectorStatus::Active), true) => {
                return Err(
                    invalid_request_data(
                        "Connector status cannot be active when using TemporaryAuth",
                    ),
                );
            },
            (Some(status), _) => *status,
            (None, true) => ConnectorStatus::Inactive,
            (None, false) => *self.current_status,
        };
        let disabled = match (self.disabled, connector_status) {
            (Some(false), ConnectorStatus::Inactive) => {
                return Err(
                    invalid_request_data(
                        "Connector cannot be enabled when connector_status is inactive or when using TemporaryAuth",
                    ),
                );
            },
            (Some(disabled), _) => Some(*disabled),
            (None, ConnectorStatus::Inactive) => Some(true),
            (None, _) => None,
        };
        Ok((connector_status, disabled))
    }
}

/// An active status asked for with temporary credentials is refused,
/// whatever the requested flag and the status so far.
pub proof fn lemma_active_with_temporary_auth_fails(
    requested_disabled: Option<bool>,
    current: ConnectorStatus,
)
    ensures
        resolved_status_and_disabled(
            Some(ConnectorStatus::Active),
            requested_disabled,
            true,
            current,
        ) == Err::<(ConnectorStatus, Option<bool>), ApiError>(
            invalid_request(active_with_temporary_auth_message()),
        ),
{
}

/// Asking to enable an account whose resolved status is inactive is
/// refused, whatever made the status inactive.
pub proof fn lemma_enable_when_inactive_fails(
    requested_status: Option<ConnectorStatus>,
    temporary_auth: bool,
    current: ConnectorStatus,
)
    requires
        resolved_status(requested_status, temporary_auth, current) == Some(
            ConnectorStatus::Inactive,
        ),
    ensures
        resolved_status_and_disabled(requested_status, Some(false), temporary_auth, current)
            == Err::<(ConnectorStatus, Option<bool>), ApiError>(
            invalid_request(enabled_when_inactive_message()),
        ),
{
}

/// A resolution never yields an active account on temporary credentials,
/// nor an enabled account that is inactive.
pub proof fn lemma_resolved_pair_is_consistent(
    requested_status: Option<ConnectorStatus>,
    requested_disabled: Option<bool>,
    temporary_auth: bool,
    current: ConnectorStatus,
)
    ensures
        resolved_status_and_disabled(
            requested_status,
            requested_disabled,
            temporary_auth,
            current,
        ) matches Ok((status, disabled)) ==> {
            &&& temporary_auth ==> status == ConnectorStatus::Inactive
            &&& status == ConnectorStatus::Inactive ==> disabled == Some(true)
        },
{
}

} // verus!
