//! Changes to merchant connector accounts, and the checks made when an
//! account is read, changed or deleted on behalf of a merchant or profile.

use vstd::prelude::*;
use vstd::string::StringExecFns;

use crate::auth::{fault_of, identity_answer_possible, shape_of, AuthShape, ConnectorAuthType};
use crate::connector_account::{
    auth_of, unreadable_details_error, ConnectorAccountDetails,
};
use crate::connector_rules::{
    validation_fault, ConnectorAuthTypeAndMetadataValidation, MetadataObject,
};
use crate::domain::{MerchantConnectorAccount, PaymentMethodAuthConfig};
use crate::enums::{connector_name, Connector, ConnectorStatus, ConnectorType};
use crate::errors::{
    invalid_data_format, to_not_found_response, ApiError, ApiErrorResponse, StorageError,
};
use crate::status::{resolved_status_and_disabled, ConnectorStatusAndDisabledValidation};

verus! {

/// A request to update a merchant connector account.
#[derive(Clone, Debug, PartialEq, Eq)]
pub struct MerchantConnectorUpdate {
    pub connector_type: ConnectorType,
    pub connector_label: Option<String>,
    pub connector_account_details: Option<ConnectorAccountDetails>,
    pub payment_methods_enabled: Option<Vec<String>>,
    pub connector_webhook_details: Option<String>,
    pub metadata: Option<MetadataObject>,
    pub test_mode: Option<bool>,
    pub disabled: Option<bool>,
    pub frm_configs: Option<Vec<String>>,
    pub pm_auth_config: Option<PaymentMethodAuthConfig>,
    pub status: Option<ConnectorStatus>,
}

/// A change to the record of a merchant connector account.
#[derive(Clone, Debug, PartialEq, Eq)]
pub enum MerchantConnectorAccountUpdate {
    Update {
        connector_type: Option<ConnectorType>,
        connector_name: Option<String>,
        connector_account_details: Option<Vec<u8>>,
        test_mode: Option<bool>,
        disabled: Option<bool>,
        merchant_connector_id: Option<String>,
        payment_methods_enabled: Option<Vec<String>>,
        metadata: Option<MetadataObject>,
        frm_configs: Option<Vec<String>>,
        connector_webhook_details: Option<String>,
        applepay_verified_domains: Option<Vec<String>>,
        pm_auth_config: Option<PaymentMethodAuthConfig>,
        connector_label: Option<String>,
        status: Option<ConnectorStatus>,
        connector_wallets_details: Option<Vec<u8>>,
    },
}

/// What has been decided about the update of a connector account.
#[derive(Clone, Copy, Debug, PartialEq, Eq, Structural)]
pub struct ConnectorUpdateDecision {
    pub status: ConnectorStatus,
    pub disabled: Option<bool>,
    /// Whether the configuration for bank account verification still has
    /// to be held against the connector accounts of the merchant.
    pub validate_pm_auth: bool,
}

/// What the collaborators have prepared for the change.
#[derive(Clone, Debug, PartialEq, Eq)]
pub struct ConnectorUpdateInputs {
    /// The credentials of the request, if it has any, encrypted.
    pub encrypted_connector_account_details: Option<Vec<u8>>,
    /// The wallet details read from the metadata, encrypted.
    pub connector_wallets_details: Option<Vec<u8>>,
}

/// The credentials that an update is validated with: those of the request,
/// where it has any, else those kept with the account.
pub open spec fn update_auth(
    request: MerchantConnectorUpdate,
    stored: ConnectorAccountDetails,
) -> Option<ConnectorAuthType> {
    match request.connector_account_details {
        Some(details) => auth_of(Some(details)),
        None => auth_of(Some(stored)),
    }
}

/// The metadata that an update is validated with: that of the request,
/// where it has any, else that kept with the account.
pub open spec fn update_metadata(
    request: MerchantConnectorUpdate,
    mca: MerchantConnectorAccount,
) -> Option<
    MetadataObject,
> {
    if request.metadata is Some {
        request.metadata
    } else {
        mca.metadata
    }
}

/// What is decided about a request to update an account, rule by rule: the
/// credentials must be readable; the account must name a connector
/// (`connector` is the connector of that name, if there is one);
/// credentials and metadata must pass validation; status and disabled flag
/// are resolved against the account's status so far.
pub open spec fn update_decision(
    request: MerchantConnectorUpdate,
    mca: MerchantConnectorAccount,
    stored: ConnectorAccountDetails,
    connector: Option<Connector>,
    identity_built: bool,
) -> Result<ConnectorUpdateDecision, ApiError> {
    match update_auth(request, stored) {
        None => Err(unreadable_details_error()),
        Some(auth) => match connector {
            None => Err(ApiError::InvalidDataValue { field_name: "connector"@ }),
            Some(connector) => match validation_fault(
                connector,
                auth,
                update_metadata(request, mca),
                identity_built,
            ) {
                Some(fault) => Err(fault),
                None => match resolved_status_and_disabled(
                    request.status,
                    request.disabled,
                    shape_of(auth) == AuthShape::TemporaryAuth,
                    mca.status,
                ) {
                    Err(fault) => Err(fault),
                    Ok((status, disabled)) => Ok(
                        ConnectorUpdateDecision {
                            status,
                            disabled,
                            validate_pm_auth: request.connector_type
                                != ConnectorType::PaymentMethodAuth && request.pm_auth_config
                                is Some,
                        },
                    ),
                },
            },
        },
    }
}

/// Whether what was decided fits the request and the credentials that the
/// account keeps: an account on temporary credentials is inactive, and an
/// inactive account is disabled.
pub open spec fn decision_fits(
    request: MerchantConnectorUpdate,
    stored: ConnectorAccountDetails,
    decision: ConnectorUpdateDecision,
) -> bool {
    &&& (update_auth(request, stored) matches Some(auth) && shape_of(auth)
        == AuthShape::TemporaryAuth) ==> decision.status == ConnectorStatus::Inactive
    &&& decision.status == ConnectorStatus::Inactive ==> decision.disabled == Some(true)
}

/// Whether a decision and what the collaborators have prepared fit the
/// request: encrypted credentials come only with a request that names
/// credentials, temporary credentials of the request make the account
/// inactive, and an inactive account is disabled.
pub open spec fn change_fits(
    request: MerchantConnectorUpdate,
    decision: ConnectorUpdateDecision,
    inputs: ConnectorUpdateInputs,
) -> bool {
    &&& request.connector_account_details is None
        ==> inputs.encrypted_connector_account_details is None
    &&& (auth_of(request.connector_account_details) matches Some(auth) && shape_of(auth)
        == AuthShape::TemporaryAuth) ==> decision.status == ConnectorStatus::Inactive
    &&& decision.status == ConnectorStatus::Inactive ==> decision.disabled == Some(true)
}

/// The outcome of a decision with its error taken by its value.
pub open spec fn update_decided(
    result: Result<ConnectorUpdateDecision, ApiErrorResponse>,
) -> Result<
    ConnectorUpdateDecision,
    ApiError,
> {
    match result {
        Ok(decision) => Ok(decision),
        Err(e) => Err(e@),
    }
}

/// Whether `connector` is what the name of a connector account stands for:
/// a connector of that name, or none where no connector has it.
pub open spec fn names_connector(name: Seq<char>, connector: Option<Connector>) -> bool {
    match connector {
        Some(c) => connector_name(c) == name,
        None => forall|c: Connector| connector_name(c) != name,
    }
}

impl MerchantConnectorUpdate {
    /// Holds the request to the rules and decides the status and the
    /// disabled flag of the account: [`update_decision`], for the connector
    /// that the account names. `stored` is what the account keeps as
    /// credentials; it is used where the request brings none.
    pub fn validate_request(
        &self,
        mca: &MerchantConnectorAccount,
        stored: &ConnectorAccountDetails,
    ) -> (result:
        Result<ConnectorUpdateDecision, ApiErrorResponse>)
        ensures
            exists|connector: Option<Connector>, identity_built: bool|
                names_connector(mca.connector_name@, connector) && (update_auth(*self, *stored)
                    matches Some(auth) ==> identity_answer_possible(auth, identity_built))
                    && update_decided(result) == #[trigger] update_decision(
                    *self,
                    *mca,
                    *stored,
                    connector,
                    identity_built,
                ),
            result matches Ok(decision) ==> decision_fits(*self, *stored, decision),
    {
        let connector_enum = Connector::from_str(mca.connector_name.as_str());
        assert(names_connector(mca.connector_name@, connector_enum));
        let details = match &self.connector_account_details {
            Some(details) => details,
            None => stored,
        };
        let auth = match details {
            ConnectorAccountDetails::Auth(auth) => auth,
            ConnectorAccountDetails::Unreadable => {
                let result = Err(
                    invalid_data_format("connector_account_details", "auth_type and api_key"),
                );
                assert(update_decided(result) == update_decision(
                    *self,
                    *mca,
                    *stored,
                    connector_enum,
                    true,
                ));
                return result;
            },
        };
        let metadata = match &self.metadata {
            Some(_) => &self.metadata,
            None => &mca.metadata,
        };
        let connector_enum_value = match connector_enum {
            Some(connector) => connector,
            None => {
                let result = Err(
                    ApiErrorResponse::InvalidDataValue { field_name: String::from_str("connector") },
                );
                assert(update_decided(result) == update_decision(
                    *self,
                    *mca,
                    *stored,
                    connector_enum,
                    false,
                ));
                return result;
            },
        };
        let connector_auth_type_and_metadata_validation = ConnectorAuthTypeAndMetadataValidation {
            connector_name: &connector_enum_value,
            auth_type: auth,
            connector_meta_data: metadata,
        };
        let validated =
            connector_auth_type_and_metadata_validation.validate_auth_and_metadata_type();
        let ghost identity_built = choose|identity_built: bool|
            identity_answer_possible(*auth, identity_built) && fault_of(validated)
                == #[trigger] validation_fault(
                connector_enum_value,
                *auth,
                *metadata,
                identity_built,
            );
        if let Err(e) = validated {
            let result = Err(e);
            assert(update_decided(result) == update_decision(
                *self,
                *mca,
                *stored,
                connector_enum,
                identity_built,
            ));
            return result;
        }
        let connector_status_and_disabled_validation = ConnectorStatusAndDisabledValidation {
            status: &self.status,
            disabled: &self.disabled,
            auth,
            current_status: &mca.status,
        };
        let result = match connector_status_and_disabled_validation.validate_status_and_disabled() {
            Ok((status, disabled)) => Ok(
                ConnectorUpdateDecision {
                    status,
                    disabled,
                    validate_pm_auth: self.connector_type != ConnectorType::PaymentMethodAuth
                        && self.pm_auth_config.is_some(),
                },
            ),
            Err(e) => Err(e),
        };
        assert(update_decided(result) == update_decision(
            *self,
            *mca,
            *stored,
            connector_enum,
            identity_built,
        ));
        result
    }

    /// Whether a decision and what the collaborators have prepared fit the
    /// request: [`change_fits`].
    pub fn fits(&self, decision: &ConnectorUpdateDecision, inputs: &ConnectorUpdateInputs) -> (fits:
        bool)
        ensures
            fits == change_fits(*self, *decision, *inputs),
    {
        let temporary = match &self.connector_account_details {
            Some(ConnectorAccountDetails::Auth(auth)) => auth.is_temporary(),
            _ => false,
        };
        let inactive = match decision.status {
            ConnectorStatus::Inactive => true,
            _ => false,
        };
        let disabled = match decision.disabled {
            Some(disabled) => disabled,
            None => false,
        };
        let unnamed_credentials = self.connector_account_details.is_none()
            && inputs.encrypted_connector_account_details.is_some();
        !unnamed_credentials && (!temporary || inactive) && (!inactive || disabled)
    }

    /// Builds the change to the record of the account. The connector and
    /// the identifier of the account are never changed; the label, the
    /// credentials and the metadata change only where the request names
    /// them. The decision and the prepared values must fit the request
    /// ([`change_fits`]): credentials are handed in only for a request that
    /// names some, and the decision is one of [`Self::validate_request`].
    pub fn create_domain_model_from_request(
        self,
        decision: ConnectorUpdateDecision,
        inputs: ConnectorUpdateInputs,
    ) -> (update: MerchantConnectorAccountUpdate)
        requires
            change_fits(self, decision, inputs),
        ensures
            self.connector_account_details is None ==> update->connector_account_details is None,
            update->status == Some(ConnectorStatus::Inactive) ==> update->disabled == Some(true),
            update == (MerchantConnectorAccountUpdate::Update {
                connector_type: Some(self.connector_type),
                connector_name: None,
                connector_account_details: inputs.encrypted_connector_account_details,
                test_mode: self.test_mode,
                disabled: decision.disabled,
                merchant_connector_id: None,
                payment_methods_enabled: self.payment_methods_enabled,
                metadata: self.metadata,
                frm_configs: self.frm_configs,
                connector_webhook_details: self.connector_webhook_details,
                applepay_verified_domains: None,
                pm_auth_config: self.pm_auth_config,
                connector_label: self.connector_label,
                status: Some(decision.status),
                connector_wallets_details: inputs.connector_wallets_details,
            }),
    {
        MerchantConnectorAccountUpdate::Update {
            connector_type: Some(self.connector_type),
            connector_name: None,
            connector_account_details: inputs.encrypted_connector_account_details,
            test_mode: self.test_mode,
            disabled: decision.disabled,
            merchant_connector_id: None,
            payment_methods_enabled: self.payment_methods_enabled,
            metadata: self.metadata,
            frm_configs: self.frm_configs,
            connector_webhook_details: self.connector_webhook_details,
            applepay_verified_domains: None,
            pm_auth_config: self.pm_auth_config,
            connector_label: self.connector_label,
            status: Some(decision.status),
            connector_wallets_details: inputs.connector_wallets_details,
        }
    }
}

/// Reads the look-up of a connector account by the merchant and the
/// account's identifier: the account, or "not found" under the identifier.
pub fn get_merchant_connector_account_from_id(
    found: Result<MerchantConnectorAccount, StorageError>,
    merchant_connector_id: &str,
) -> (result: Result<MerchantConnectorAccount, ApiErrorResponse>)
    ensures
        match found {
            Ok(account) => result == Ok::<MerchantConnectorAccount, ApiErrorResponse>(account),
            Err(err) => result matches Err(e) && e@ == (if err == StorageError::ValueNotFound {
                ApiError::MerchantConnectorAccountNotFound { id: merchant_connector_id@ }
            } else {
                ApiError::InternalServerError
            }),
        },
{
    match found {
        Ok(account) => Ok(account),
        Err(err) => Err(
            to_not_found_response(
                err,
                ApiErrorResponse::MerchantConnectorAccountNotFound {
                    id: String::from_str(merchant_connector_id),
                },
            ),
        ),
    }
}

/// The message for an account under another profile than the caller's.
pub open spec fn profile_authentication_message() -> Seq<char> {
    "Profile id authentication failed. Please use the correct JWT token"@
}

/// A caller that is bound to a profile may only touch the connector
/// accounts under that profile; a caller that is bound to none may touch
/// any.
pub fn validate_profile_id_from_auth_layer(
    profile_id_auth_layer: &Option<String>,
    mca: &MerchantConnectorAccount,
) -> (result:
    Result<(), ApiErrorResponse>)
    ensures
        fault_of(result) == (match *profile_id_auth_layer {
            Some(profile_id) => if profile_id@ == mca.profile_id@ {
                None
            } else {
                Some(ApiError::PreconditionFailed { message: profile_authentication_message() })
            },
            None => None,
        }),
{
    match profile_id_auth_layer {
        Some(auth_profile_id) => {
            if *auth_profile_id == mca.profile_id {
                Ok(())
            } else {
                Err(
                    ApiErrorResponse::PreconditionFailed {
                        message: String::from_str(
                            "Profile id authentication failed. Please use the correct JWT token",
                        ),
                    },
                )
            }
        },
        None => Ok(()),
    }
}

/// Reads a connector account for a caller: the account must exist and, for
/// a caller bound to a profile, be under that profile.
pub fn retrieve_connector(
    found: Result<MerchantConnectorAccount, StorageError>,
    profile_id: &Option<String>,
    merchant_connector_id: &str,
) -> (result: Result<MerchantConnectorAccount, ApiErrorResponse>)
    ensures
        match found {
            Err(err) => result matches Err(e) && e@ == (if err == StorageError::ValueNotFound {
                ApiError::MerchantConnectorAccountNotFound { id: merchant_connector_id@ }
            } else {
                ApiError::InternalServerError
            }),
            Ok(account) => if profile_id matches Some(id) && id@ != account.profile_id@ {
                result matches Err(e) && e@ == (ApiError::PreconditionFailed {
                    message: profile_authentication_message(),
                })
            } else {
                result == Ok::<MerchantConnectorAccount, ApiErrorResponse>(account)
            },
        },
{
    let mca = get_merchant_connector_account_from_id(found, merchant_connector_id)?;
    validate_profile_id_from_auth_layer(profile_id, &mca)?;
    Ok(mca)
}

/// Whether a list of profile identifiers holds the profile.
pub open spec fn lists_profile(profile_ids: Seq<String>, profile_id: Seq<char>) -> bool {
    exists|i: int| 0 <= i < profile_ids.len() && (#[trigger] profile_ids[i])@ == profile_id
}

/// Whether a connector account is shown to a caller with a list of
/// profiles: every account is shown without a list, and with one the
/// accounts under the listed profiles.
pub open spec fn shown_for(
    profile_id_list: Option<Vec<String>>,
    mca: MerchantConnectorAccount,
) -> bool {
    match profile_id_list {
        Some(list) => lists_profile(list@, mca.profile_id@),
        None => true,
    }
}

/// Those of `accounts`, in order, that are shown for the list of profiles.
pub open spec fn shown_accounts(
    profile_id_list: Option<Vec<String>>,
    accounts: Seq<MerchantConnectorAccount>,
) -> Seq<MerchantConnectorAccount>
    decreases accounts.len(),
{
    if accounts.len() == 0 {
        accounts
    } else if shown_for(profile_id_list, accounts.last()) {
        shown_accounts(profile_id_list, accounts.drop_last()).push(accounts.last())
    } else {
        shown_accounts(profile_id_list, accounts.drop_last())
    }
}

fn is_shown(profile_id_list: &Option<Vec<String>>, mca: &MerchantConnectorAccount) -> (shown: bool)
    ensures
        shown == shown_for(*profile_id_list, *mca),
{
    match profile_id_list {
        None => true,
        Some(list) => {
            let mut i: usize = 0;
            while i < list.len()
                invariant
                    i <= list@.len(),
                    *profile_id_list == Some(*list),
                    forall|j: int| 0 <= j < i ==> (#[trigger] list@[j])@ != mca.profile_id@,
                decreases list@.len() - i,
            {
                if list[i] == mca.profile_id {
                    return true;
                }
                i += 1;
            }
            false
        },
    }
}

/// The connector accounts of a merchant that a caller is shown: all of
/// them, or those under the profiles it lists, in the order of the store.
pub fn list_payment_connectors(
    profile_id_list: &Option<Vec<String>>,
    merchant_connector_accounts: Vec<MerchantConnectorAccount>,
) -> (shown: Vec<MerchantConnectorAccount>)
    ensures
        shown@ == shown_accounts(*profile_id_list, merchant_connector_accounts@),
{
    let ghost all = merchant_connector_accounts@;
    let mut remaining = merchant_connector_accounts;
    let mut reversed: Vec<MerchantConnectorAccount> = Vec::new();
    while remaining.len() > 0
        invariant
            shown_accounts(*profile_id_list, all) == shown_accounts(
                *profile_id_list,
                remaining@,
            ) + reversed@.reverse(),
        decreases remaining@.len(),
    {
        let ghost before = remaining@;
        let ghost reversed_before = reversed@;
        let account = remaining.pop().unwrap();
        assert(remaining@ == before.drop_last());
        assert(account == before.last());
        if is_shown(profile_id_list, &account) {
            reversed.push(account);
            assert(reversed@.reverse() =~= seq![account] + reversed_before.reverse());
            assert(shown_accounts(*profile_id_list, before) + reversed_before.reverse()
                =~= shown_accounts(*profile_id_list, remaining@) + reversed@.reverse());
        }
    }
    let mut shown: Vec<MerchantConnectorAccount> = Vec::new();
    while reversed.len() > 0
        invariant
            shown@ + reversed@.reverse() == shown_accounts(*profile_id_list, all),
        decreases reversed@.len(),
    {
        let ghost reversed_before = reversed@;
        let ghost shown_before = shown@;
        let account = reversed.pop().unwrap();
        shown.push(account);
        assert(reversed_before.reverse() =~= seq![account] + reversed@.reverse());
        assert(shown@ + reversed@.reverse() =~= shown_before + reversed_before.reverse());
    }
    assert(reversed@.reverse() =~= Seq::<MerchantConnectorAccount>::empty());
    assert(shown@ + Seq::<MerchantConnectorAccount>::empty() =~= shown@);
    shown
}

/// Reads what the store answered when the change to a connector account
/// was written: the account as it is now, or, whatever the store objected
/// to, that the account would be a duplicate under the profile and the
/// label that the request asked for.
pub fn update_connector(
    outcome: Result<MerchantConnectorAccount, StorageError>,
    profile_id: String,
    request_connector_label: Option<String>,
) -> (result: Result<MerchantConnectorAccount, ApiErrorResponse>)
    ensures
        match outcome {
            Ok(account) => result == Ok::<MerchantConnectorAccount, ApiErrorResponse>(account),
            Err(_) => result matches Err(e) && e@ == (
            ApiError::DuplicateMerchantConnectorAccount {
                profile_id: profile_id@,
                connector_label: match request_connector_label {
                    Some(label) => label@,
                    None => Seq::<char>::empty(),
                },
            }),
        },
{
    match outcome {
        Ok(account) => Ok(account),
        Err(_) => Err(
            ApiErrorResponse::DuplicateMerchantConnectorAccount {
                profile_id,
                connector_label: match request_connector_label {
                    Some(label) => label,
                    None => String::new(),
                },
            },
        ),
    }
}

/// The message for an account that is asked for under another merchant.
pub open spec fn foreign_merchant_message(merchant_id: Seq<char>, id: Seq<char>) -> Seq<char> {
    "Invalid merchant_id "@ + merchant_id + " provided for merchant_connector_account "@ + id
}

/// A connector account may only be read or deleted under the merchant
/// that it belongs to.
pub fn delete_connector(mca: &MerchantConnectorAccount, merchant_id: &String, id: &str) -> (result:
    Result<(), ApiErrorResponse>)
    ensures
        fault_of(result) == (if mca.merchant_id@ == merchant_id@ {
            None
        } else {
            Some(crate::errors::invalid_request(foreign_merchant_message(merchant_id@, id@)))
        }),
{
    if mca.merchant_id == *merchant_id {
        Ok(())
    } else {
        let message = String::from_str("Invalid merchant_id ").concat(merchant_id.as_str()).concat(
            " provided for merchant_connector_account ",
        ).concat(id);
        Err(ApiErrorResponse::InvalidRequestData { message })
    }
}

/// The name of a connector account stands for one connector at most.
pub proof fn lemma_name_stands_for_one_connector(
    name: Seq<char>,
    a: Option<Connector>,
    b: Option<Connector>,
)
    requires
        names_connector(name, a),
        names_connector(name, b),
    ensures
        a == b,
{
    if a is Some && b is Some {
        crate::enums::lemma_connector_names_distinct(a->0, b->0);
    }
}

} // verus!
