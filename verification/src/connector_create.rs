//! The creation of a merchant connector account as a sequence of steps.
//! Each step takes what a collaborator has answered, decides, and says
//! what the next collaborator is to be asked; nothing is stored before the
//! merchant and the profile of the account have been found.

use vstd::prelude::*;

use crate::bank::MerchantAccountData;
use crate::collections::ConnectorNames;
use crate::connector_account::{
    business_details_message, chosen_lookup, create_decision, decided, decision_fits,
    dummy_connector_message, has_temporary_auth,
    has_business_details, identity_answer_fits, is_record_of, pm_auth_fault, profile_id_by_name,
    profile_lookup_of, validate_business_details, validate_dummy_connector_enabled,
    validate_pm_auth, validate_pm_auth_config, ConnectorCreateDecision, ConnectorCreateInputs,
    MerchantConnectorCreate, ProfileLookup,
};
use crate::connector_rules::{apple_pay_check, ConnectorMetadata};
use crate::domain::{clone_text, BusinessProfile, MerchantAccount, MerchantConnectorAccount};
use crate::enums::{
    is_dummy_connector, transaction_type_of, Connector, ConnectorStatus, ConnectorType,
    RoutableConnectors, TransactionType,
};
use crate::errors::{
    invalid_request, to_duplicate_response, to_not_found_response, ApiError, ApiErrorResponse,
    StorageError,
};
use crate::profile_update::{profile_lookup, validate_and_get_business_profile};
use crate::recipient::{
    recipient_id_from, with_recipient, MerchantRecipientData, RecipientRegistrar, RecipientStep,
};
use crate::routing::{
    classification, classified, ConnectorTypeAndConnectorName, DefaultConfigWrite,
    MerchantDefaultConfigUpdate, RoutableConnectorChoice,
};

verus! {

/// What stays the same through the creation of a connector account.
#[derive(Clone, Debug, PartialEq, Eq)]
pub struct CreateConnectorContext {
    pub req: MerchantConnectorCreate,
    pub merchant_id: String,
    /// Whether the deployment has the test connectors switched on.
    pub dummy_connector_enabled: bool,
    /// The connectors whose recipients are kept in the vault.
    pub locker_based_open_banking_connectors: ConnectorNames,
}

/// Where the creation of a connector account stands: what it waits for,
/// with all that has been found so far.
#[derive(Debug, PartialEq, Eq)]
pub enum CreateConnectorState {
    Start(CreateConnectorContext),
    KeyStore(CreateConnectorContext),
    MerchantAccount(CreateConnectorContext),
    Profile { ctx: CreateConnectorContext, merchant_account: MerchantAccount, lookup: ProfileLookup },
    ConnectorAccounts { ctx: CreateConnectorContext, profile_id: String },
    BusinessProfile { ctx: CreateConnectorContext, profile_id: String },
    MerchantTouched {
        ctx: CreateConnectorContext,
        business_profile: BusinessProfile,
        routable_connector: Option<RoutableConnectors>,
    },
    Recipient {
        ctx: CreateConnectorContext,
        business_profile: BusinessProfile,
        routable_connector: Option<RoutableConnectors>,
        decision: ConnectorCreateDecision,
    },
    Prepared {
        ctx: CreateConnectorContext,
        business_profile: BusinessProfile,
        routable_connector: Option<RoutableConnectors>,
        decision: ConnectorCreateDecision,
    },
    DefaultConfigs {
        merchant_id: String,
        routable_connector: Option<RoutableConnectors>,
        transaction_type: TransactionType,
        record: MerchantConnectorAccount,
    },
    Inserted {
        merchant_id: String,
        profile_id: String,
        connector_label: Option<String>,
        routable_connector: Option<RoutableConnectors>,
        transaction_type: TransactionType,
        default_routing_config: Vec<RoutableConnectorChoice>,
        default_routing_config_for_profile: Vec<RoutableConnectorChoice>,
    },
    ConfigWritten { mca: MerchantConnectorAccount, merchant_id: String, remaining: Vec<DefaultConfigWrite> },
    Done,
}

/// What a collaborator has answered.
#[derive(Debug, PartialEq, Eq)]
pub enum CreateConnectorEvent {
    Begin,
    KeyStoreLoaded(Result<(), StorageError>),
    MerchantAccountLoaded(Result<MerchantAccount, StorageError>),
    ProfileLoaded(Result<BusinessProfile, StorageError>),
    ConnectorAccountsLoaded(Result<Vec<MerchantConnectorAccount>, StorageError>),
    MerchantTouched(Result<(), StorageError>),
    RecipientRegistered(Result<String, ApiErrorResponse>),
    Prepared(Result<ConnectorCreateInputs, ApiErrorResponse>),
    DefaultConfigsLoaded(
        Result<(Vec<RoutableConnectorChoice>, Vec<RoutableConnectorChoice>), ApiErrorResponse>,
    ),
    Inserted(Result<MerchantConnectorAccount, StorageError>),
    ConfigWritten(Result<(), ApiErrorResponse>),
}

/// What is to be done next.
#[derive(Debug, PartialEq, Eq)]
pub enum CreateConnectorAction {
    /// Load the key store of the merchant.
    LoadKeyStore { merchant_id: String },
    /// Load the account of the merchant.
    LoadMerchantAccount { merchant_id: String },
    /// Load the profile with the identifier.
    LoadProfileById { profile_id: String },
    /// Load the profile of that name among those of the merchant.
    LoadProfileByName { profile_name: String, merchant_id: String },
    /// Load all connector accounts of the merchant.
    LoadConnectorAccounts { merchant_id: String },
    /// Set the time of the last change of the merchant's account to now.
    TouchMerchant { merchant_id: String },
    /// Register a recipient for the bank account.
    RegisterRecipient { registrar: RecipientRegistrar, account: MerchantAccountData },
    /// Encrypt the credentials and the recipient data, if any, and draw an
    /// identifier for the account.
    Prepare { recipient_data: Option<MerchantRecipientData> },
    /// Load the default routing lists of the merchant and of the profile.
    LoadDefaultConfigs { merchant_id: String, profile_id: String, transaction_type: TransactionType },
    /// Insert the connector account.
    InsertConnector(MerchantConnectorAccount),
    /// Write a default routing list back.
    WriteDefaultConfig(DefaultConfigWrite),
    /// The creation has failed; answer with the error.
    Fail(ApiErrorResponse),
    /// The account is created: count it under the connector and the
    /// merchant, and answer with it.
    Respond { created: MerchantConnectorAccount, connector: String, merchant: String },
}

/// How far a state is into the creation. `Done` is last.
pub open spec fn stage(state: CreateConnectorState) -> int {
    match state {
        CreateConnectorState::Start(_) => 0,
        CreateConnectorState::KeyStore(_) => 1,
        CreateConnectorState::MerchantAccount(_) => 2,
        CreateConnectorState::Profile { .. } => 3,
        CreateConnectorState::ConnectorAccounts { .. } => 4,
        CreateConnectorState::BusinessProfile { .. } => 5,
        CreateConnectorState::MerchantTouched { .. } => 6,
        CreateConnectorState::Recipient { .. } => 7,
        CreateConnectorState::Prepared { .. } => 8,
        CreateConnectorState::DefaultConfigs { .. } => 9,
        CreateConnectorState::Inserted { .. } => 10,
        CreateConnectorState::ConfigWritten { .. } => 11,
        CreateConnectorState::Done => 12,
    }
}

/// The actions that store or change something outside.
pub open spec fn persists(action: CreateConnectorAction) -> bool {
    action is TouchMerchant || action is RegisterRecipient || action is InsertConnector
        || action is WriteDefaultConfig
}

/// The creation ends here with the error.
pub open spec fn fails_with(
    next: CreateConnectorState,
    action: CreateConnectorAction,
    error: ApiError,
) -> bool {
    &&& next is Done
    &&& action matches CreateConnectorAction::Fail(e)
    &&& e@ == error
}

/// What a failure of the store to load something comes to.
pub open spec fn not_found_or_internal(err: StorageError, not_found: ApiError) -> ApiError {
    if err == StorageError::ValueNotFound {
        not_found
    } else {
        ApiError::InternalServerError
    }
}

/// The start: a test connector is refused where the deployment has none,
/// every other request goes on to load the key store of the merchant.
pub open spec fn begun(
    ctx: CreateConnectorContext,
    next: CreateConnectorState,
    action: CreateConnectorAction,
) -> bool {
    if !ctx.dummy_connector_enabled && is_dummy_connector(ctx.req.connector_name) {
        fails_with(next, action, invalid_request(dummy_connector_message()))
    } else {
        next == CreateConnectorState::KeyStore(ctx) && action == (
        CreateConnectorAction::LoadKeyStore { merchant_id: ctx.merchant_id })
    }
}

/// After the key store: a merchant without one is not found; with it, the
/// account of the merchant is loaded.
pub open spec fn key_store_loaded(
    ctx: CreateConnectorContext,
    loaded: Result<(), StorageError>,
    next: CreateConnectorState,
    action: CreateConnectorAction,
) -> bool {
    match loaded {
        Err(err) => fails_with(
            next,
            action,
            not_found_or_internal(err, ApiError::MerchantAccountNotFound),
        ),
        Ok(_) => {
            &&& next == CreateConnectorState::MerchantAccount(ctx)
            &&& action == (CreateConnectorAction::LoadMerchantAccount {
                merchant_id: ctx.merchant_id,
            })
        },
    }
}

/// What is wrong with the business details of a request for a merchant.
pub open spec fn business_details_fault(
    request: MerchantConnectorCreate,
    merchant_account: MerchantAccount,
) -> Option<ApiError> {
    match (request.business_country, request.business_label) {
        (Some(country), Some(label)) => if has_business_details(
            merchant_account,
            country@,
            label@,
        ) {
            None
        } else {
            Some(ApiError::PreconditionFailed { message: business_details_message() })
        },
        _ => None,
    }
}

/// What follows once the merchant is found and the Apple Pay certificate
/// of the request, if any, has passed: the business details of the request
/// must be the merchant's, and the profile is looked up as
/// [`profile_lookup_of`] says.
pub open spec fn profile_asked(
    ctx: CreateConnectorContext,
    merchant_account: MerchantAccount,
    next: CreateConnectorState,
    action: CreateConnectorAction,
) -> bool {
    match business_details_fault(ctx.req, merchant_account) {
        Some(fault) => fails_with(next, action, fault),
        None => match profile_lookup_of(ctx.req, merchant_account) {
            Err(fault) => fails_with(next, action, fault),
            Ok((by_id, text)) => {
                &&& next matches CreateConnectorState::Profile {
                    ctx: next_ctx,
                    merchant_account: next_account,
                    lookup,
                }
                &&& next_ctx == ctx
                &&& next_account == merchant_account
                &&& chosen_lookup(Ok(lookup)) == Ok::<(bool, Seq<char>), ApiError>((by_id, text))
                &&& if by_id {
                    action matches CreateConnectorAction::LoadProfileById { profile_id }
                        && profile_id@ == text
                } else {
                    action matches CreateConnectorAction::LoadProfileByName {
                        profile_name,
                        merchant_id,
                    } && profile_name@ == text && merchant_id == ctx.merchant_id
                }
            },
        },
    }
}

/// After the account of the merchant: a merchant without one is not
/// found. With it, the Apple Pay part of the metadata of the request is
/// checked ([`apple_pay_check`]); then the profile is asked for
/// ([`profile_asked`]).
pub open spec fn merchant_account_loaded(
    ctx: CreateConnectorContext,
    loaded: Result<MerchantAccount, StorageError>,
    next: CreateConnectorState,
    action: CreateConnectorAction,
) -> bool {
    match loaded {
        Err(err) => fails_with(
            next,
            action,
            not_found_or_internal(err, ApiError::MerchantAccountNotFound),
        ),
        Ok(merchant_account) => exists|fault: Option<ApiError>| #[trigger]
            apple_pay_check(ctx.req.metadata, fault) && match fault {
                Some(e) => fails_with(next, action, e),
                None => profile_asked(ctx, merchant_account, next, action),
            },
    }
}

/// What the look-up of the profile of a new account comes to: the
/// identifier of the profile, or the error. A profile looked up by its
/// identifier must be the merchant's own.
pub open spec fn profile_found(
    lookup: ProfileLookup,
    found: Result<BusinessProfile, StorageError>,
    merchant_id: Seq<char>,
) -> Result<Seq<char>, ApiError> {
    match lookup {
        ProfileLookup::ById(profile_id) => match profile_lookup(found, profile_id@, merchant_id) {
            Ok(_) => Ok(profile_id@),
            Err(fault) => Err(fault),
        },
        ProfileLookup::ByName(profile_name) => match found {
            Ok(profile) => Ok(profile.profile_id@),
            Err(err) => Err(
                not_found_or_internal(
                    err,
                    ApiError::BusinessProfileNotFound { id: profile_name@ },
                ),
            ),
        },
    }
}

/// Whether the configuration for bank account verification of a request
/// has to be held against the connector accounts of the merchant.
pub open spec fn needs_pm_auth_check(request: MerchantConnectorCreate) -> bool {
    request.connector_type != ConnectorType::PaymentMethodAuth && request.pm_auth_config is Some
}

/// After the look-up of the profile: no profile, or one of another
/// merchant, ends the creation. With the profile found, the connector
/// accounts of the merchant are loaded where the request has a
/// configuration to hold against them, and the profile itself otherwise.
pub open spec fn profile_loaded(
    ctx: CreateConnectorContext,
    lookup: ProfileLookup,
    found: Result<BusinessProfile, StorageError>,
    next: CreateConnectorState,
    action: CreateConnectorAction,
) -> bool {
    match profile_found(lookup, found, ctx.merchant_id@) {
        Err(fault) => fails_with(next, action, fault),
        Ok(id) => if needs_pm_auth_check(ctx.req) {
            &&& next matches CreateConnectorState::ConnectorAccounts { ctx: next_ctx, profile_id }
            &&& next_ctx == ctx
            &&& profile_id@ == id
            &&& action == (CreateConnectorAction::LoadConnectorAccounts {
                merchant_id: ctx.merchant_id,
            })
        } else {
            &&& next matches CreateConnectorState::BusinessProfile { ctx: next_ctx, profile_id }
            &&& next_ctx == ctx
            &&& profile_id@ == id
            &&& action matches CreateConnectorAction::LoadProfileById { profile_id: asked }
            &&& asked@ == id
        },
    }
}

/// After the connector accounts of the merchant: the configuration for
/// bank account verification must name accounts of the merchant under the
/// profile; then the profile is loaded.
pub open spec fn connector_accounts_loaded(
    ctx: CreateConnectorContext,
    profile_id: String,
    loaded: Result<Vec<MerchantConnectorAccount>, StorageError>,
    next: CreateConnectorState,
    action: CreateConnectorAction,
) -> bool {
    match ctx.req.pm_auth_config {
        Some(config) if pm_auth_fault(config, loaded, ctx.merchant_id@, profile_id@) is Some => {
            fails_with(
                next,
                action,
                pm_auth_fault(config, loaded, ctx.merchant_id@, profile_id@)->0,
            )
        },
        _ => {
            &&& next == (CreateConnectorState::BusinessProfile { ctx, profile_id })
            &&& action == (CreateConnectorAction::LoadProfileById { profile_id })
        },
    }
}

/// After the profile: a profile that is gone is not found. With it, the
/// connector is classified for the type of the account, and the account of
/// the merchant is touched next: the first change that is made.
pub open spec fn business_profile_loaded(
    ctx: CreateConnectorContext,
    profile_id: String,
    found: Result<BusinessProfile, StorageError>,
    next: CreateConnectorState,
    action: CreateConnectorAction,
) -> bool {
    match found {
        Err(err) => fails_with(
            next,
            action,
            not_found_or_internal(err, ApiError::BusinessProfileNotFound { id: profile_id@ }),
        ),
        Ok(business_profile) => match classification(
            ctx.req.connector_type,
            ctx.req.connector_name,
        ) {
            Err(fault) => fails_with(next, action, fault),
            Ok(routable) => {
                &&& next matches CreateConnectorState::MerchantTouched {
                    ctx: next_ctx,
                    business_profile: next_profile,
                    routable_connector,
                }
                &&& next_ctx == ctx
                &&& next_profile == business_profile
                &&& classified(Ok(routable_connector)) == Ok::<Option<Connector>, ApiError>(
                    routable,
                )
                &&& action == (CreateConnectorAction::TouchMerchant {
                    merchant_id: ctx.merchant_id,
                })
            },
        },
    }
}

/// After the touch of the merchant's account: a touch that failed is an
/// internal error. Then the request is held to the rules
/// ([`create_decision`]); what passes goes on to register its recipient,
/// where it has a bank account that needs one, and else to be prepared
/// for storage with the recipient data it keeps.
pub open spec fn merchant_touched(
    ctx: CreateConnectorContext,
    business_profile: BusinessProfile,
    routable_connector: Option<RoutableConnectors>,
    touched: Result<(), StorageError>,
    next: CreateConnectorState,
    action: CreateConnectorAction,
) -> bool {
    match touched {
        Err(_) => fails_with(next, action, ApiError::InternalServerError),
        Ok(_) => exists|identity_built: bool|
            identity_answer_fits(ctx.req.connector_account_details, identity_built)
                && match #[trigger] create_decision(
                ctx.req,
                business_profile,
                ctx.locker_based_open_banking_connectors,
                identity_built,
            ) {
                Err(fault) => fails_with(next, action, fault),
                Ok(decision) => match decision.recipient {
                    Some(RecipientStep::Register { registrar, account }) => {
                        &&& next matches CreateConnectorState::Recipient {
                            ctx: next_ctx,
                            business_profile: next_profile,
                            routable_connector: next_routable,
                            decision: next_decision,
                        }
                        &&& next_ctx == ctx
                        &&& next_profile == business_profile
                        &&& next_routable == routable_connector
                        &&& next_decision@ == decision
                        &&& action == (CreateConnectorAction::RegisterRecipient {
                            registrar,
                            account,
                        })
                    },
                    kept => {
                        &&& next matches CreateConnectorState::Prepared {
                            ctx: next_ctx,
                            business_profile: next_profile,
                            routable_connector: next_routable,
                            decision: next_decision,
                        }
                        &&& next_ctx == ctx
                        &&& next_profile == business_profile
                        &&& next_routable == routable_connector
                        &&& next_decision@ == decision
                        &&& action == (CreateConnectorAction::Prepare {
                            recipient_data: match kept {
                                Some(RecipientStep::Keep(data)) => Some(data),
                                _ => None,
                            },
                        })
                    },
                },
            },
    }
}

/// After the registration of the recipient: a registration that failed
/// ends the creation with its error. The recipient that was registered is
/// entered into the bank account, which is then prepared for storage.
pub open spec fn recipient_registered(
    ctx: CreateConnectorContext,
    business_profile: BusinessProfile,
    routable_connector: Option<RoutableConnectors>,
    decision: ConnectorCreateDecision,
    registered: Result<String, ApiErrorResponse>,
    next: CreateConnectorState,
    action: CreateConnectorAction,
) -> bool {
    match decision.recipient {
        Some(RecipientStep::Register { registrar, account }) => match registered {
            Err(e) => next is Done && action == CreateConnectorAction::Fail(e),
            Ok(id) => {
                &&& next == (CreateConnectorState::Prepared {
                    ctx,
                    business_profile,
                    routable_connector,
                    decision,
                })
                &&& action == (CreateConnectorAction::Prepare {
                    recipient_data: Some(
                        MerchantRecipientData::AccountData(
                            with_recipient(account, recipient_id_from(registrar, id)),
                        ),
                    ),
                })
            },
        },
        _ => fails_with(next, action, ApiError::InternalServerError),
    }
}

/// After the preparation: a preparation that failed ends the creation
/// with its error, and so does, with an internal error, a decision that
/// does not fit the request. With what was prepared the record of the
/// account is built, and the default routing lists are loaded.
pub open spec fn prepared(
    ctx: CreateConnectorContext,
    business_profile: BusinessProfile,
    routable_connector: Option<RoutableConnectors>,
    decision: ConnectorCreateDecision,
    inputs: Result<ConnectorCreateInputs, ApiErrorResponse>,
    next: CreateConnectorState,
    action: CreateConnectorAction,
) -> bool {
    match inputs {
        Err(e) => next is Done && action == CreateConnectorAction::Fail(e),
        Ok(inputs) => if !decision_fits(ctx.req, decision) {
            fails_with(next, action, ApiError::InternalServerError)
        } else {
            &&& next matches CreateConnectorState::DefaultConfigs {
                merchant_id,
                routable_connector: next_routable,
                transaction_type,
                record,
            }
            &&& merchant_id == ctx.merchant_id
            &&& next_routable == routable_connector
            &&& transaction_type == transaction_type_of(ctx.req.connector_type)
            &&& is_record_of(record, ctx.req, business_profile, decision, inputs)
            &&& action == (CreateConnectorAction::LoadDefaultConfigs {
                merchant_id: ctx.merchant_id,
                profile_id: business_profile.profile_id,
                transaction_type,
            })
        },
    }
}

/// After the default routing lists: lists that could not be loaded end
/// the creation with the error. With them, the account is inserted.
pub open spec fn default_configs_loaded(
    merchant_id: String,
    routable_connector: Option<RoutableConnectors>,
    transaction_type: TransactionType,
    record: MerchantConnectorAccount,
    loaded: Result<(Vec<RoutableConnectorChoice>, Vec<RoutableConnectorChoice>), ApiErrorResponse>,
    next: CreateConnectorState,
    action: CreateConnectorAction,
) -> bool {
    match loaded {
        Err(e) => next is Done && action == CreateConnectorAction::Fail(e),
        Ok((merchant_list, profile_list)) => {
            &&& next == (CreateConnectorState::Inserted {
                merchant_id,
                profile_id: record.profile_id,
                connector_label: record.connector_label,
                routable_connector,
                transaction_type,
                default_routing_config: merchant_list,
                default_routing_config_for_profile: profile_list,
            })
            &&& action == CreateConnectorAction::InsertConnector(record)
        },
    }
}

/// The label of an account in the error on a duplicate.
pub open spec fn label_or_empty(label: Option<String>) -> Seq<char> {
    match label {
        Some(l) => l@,
        None => Seq::<char>::empty(),
    }
}

/// The answer that ends a creation with success.
pub open spec fn responds(
    next: CreateConnectorState,
    action: CreateConnectorAction,
    mca: MerchantConnectorAccount,
    merchant_id: String,
) -> bool {
    &&& next is Done
    &&& action matches CreateConnectorAction::Respond { created, connector, merchant }
    &&& created == mca
    &&& connector == mca.connector_name
    &&& merchant == merchant_id
}

/// After the insertion: an account that collides with another under the
/// profile and label is a duplicate. The account that was inserted is
/// entered in the default list of the merchant and in that of the profile;
/// each list that lacked it is written back, the merchant's first, and
/// where none did the creation is answered at once.
pub open spec fn inserted(
    merchant_id: String,
    profile_id: String,
    connector_label: Option<String>,
    routable_connector: Option<RoutableConnectors>,
    transaction_type: TransactionType,
    default_routing_config: Vec<RoutableConnectorChoice>,
    default_routing_config_for_profile: Vec<RoutableConnectorChoice>,
    outcome: Result<MerchantConnectorAccount, StorageError>,
    next: CreateConnectorState,
    action: CreateConnectorAction,
) -> bool {
    match outcome {
        Err(err) => fails_with(
            next,
            action,
            if err == StorageError::DuplicateValue {
                ApiError::DuplicateMerchantConnectorAccount {
                    profile_id: profile_id@,
                    connector_label: label_or_empty(connector_label),
                }
            } else {
                ApiError::InternalServerError
            },
        ),
        Ok(mca) => {
            let update = MerchantDefaultConfigUpdate {
                routable_connector: &routable_connector,
                merchant_connector_id: &mca.merchant_connector_id,
                merchant_id: &merchant_id,
                default_routing_config: &default_routing_config,
                default_routing_config_for_profile: &default_routing_config_for_profile,
                profile_id: &profile_id,
                transaction_type: &transaction_type,
            };
            if update.merchant_list_changes() {
                &&& action matches CreateConnectorAction::WriteDefaultConfig(write)
                &&& update.is_merchant_write(write)
                &&& next matches CreateConnectorState::ConfigWritten {
                    mca: next_mca,
                    merchant_id: next_merchant,
                    remaining,
                }
                &&& next_mca == mca
                &&& next_merchant == merchant_id
                &&& if update.profile_list_changes() {
                    remaining@.len() == 1 && update.is_profile_write(remaining@[0])
                } else {
                    remaining@.len() == 0
                }
            } else if update.profile_list_changes() {
                &&& action matches CreateConnectorAction::WriteDefaultConfig(write)
                &&& update.is_profile_write(write)
                &&& next matches CreateConnectorState::ConfigWritten {
                    mca: next_mca,
                    merchant_id: next_merchant,
                    remaining,
                }
                &&& next_mca == mca
                &&& next_merchant == merchant_id
                &&& remaining@.len() == 0
            } else {
                responds(next, action, mca, merchant_id)
            }
        },
    }
}

/// After a default list was written: a write that failed ends the
/// creation with its error, and the account stays as it was inserted.
/// After a write that succeeded the next list is written, or, after the
/// last, the creation is answered.
pub open spec fn config_written(
    mca: MerchantConnectorAccount,
    merchant_id: String,
    remaining: Vec<DefaultConfigWrite>,
    written: Result<(), ApiErrorResponse>,
    next: CreateConnectorState,
    action: CreateConnectorAction,
) -> bool {
    match written {
        Err(e) => next is Done && action == CreateConnectorAction::Fail(e),
        Ok(_) => if remaining@.len() == 0 {
            responds(next, action, mca, merchant_id)
        } else {
            &&& action == CreateConnectorAction::WriteDefaultConfig(remaining@[0])
            &&& next matches CreateConnectorState::ConfigWritten {
                mca: next_mca,
                merchant_id: next_merchant,
                remaining: rest,
            }
            &&& next_mca == mca
            &&& next_merchant == merchant_id
            &&& rest@ == remaining@.drop_first()
        },
    }
}

/// One step of the creation of a connector account: from where the
/// creation stands and what a collaborator has answered to where it stands
/// then and what is to be done next. An answer that the state does not
/// wait for ends the creation with an internal error.
pub open spec fn transition(
    state: CreateConnectorState,
    event: CreateConnectorEvent,
    next: CreateConnectorState,
    action: CreateConnectorAction,
) -> bool {
    match (state, event) {
        (CreateConnectorState::Start(ctx), CreateConnectorEvent::Begin) => begun(
            ctx,
            next,
            action,
        ),
        (
            CreateConnectorState::KeyStore(ctx),
            CreateConnectorEvent::KeyStoreLoaded(loaded),
        ) => key_store_loaded(ctx, loaded, next, action),
        (
            CreateConnectorState::MerchantAccount(ctx),
            CreateConnectorEvent::MerchantAccountLoaded(loaded),
        ) => merchant_account_loaded(ctx, loaded, next, action),
        (
            CreateConnectorState::Profile { ctx, merchant_account, lookup },
            CreateConnectorEvent::ProfileLoaded(found),
        ) => profile_loaded(ctx, lookup, found, next, action),
        (
            CreateConnectorState::ConnectorAccounts { ctx, profile_id },
            CreateConnectorEvent::ConnectorAccountsLoaded(loaded),
        ) => connector_accounts_loaded(ctx, profile_id, loaded, next, action),
        (
            CreateConnectorState::BusinessProfile { ctx, profile_id },
            CreateConnectorEvent::ProfileLoaded(found),
        ) => business_profile_loaded(ctx, profile_id, found, next, action),
        (
            CreateConnectorState::MerchantTouched { ctx, business_profile, routable_connector },
            CreateConnectorEvent::MerchantTouched(touched),
        ) => merchant_touched(ctx, business_profile, routable_connector, touched, next, action),
        (
            CreateConnectorState::Recipient { ctx, business_profile, routable_connector, decision },
            CreateConnectorEvent::RecipientRegistered(registered),
        ) => recipient_registered(
            ctx,
            business_profile,
            routable_connector,
            decision,
            registered,
            next,
            action,
        ),
        (
            CreateConnectorState::Prepared { ctx, business_profile, routable_connector, decision },
            CreateConnectorEvent::Prepared(inputs),
        ) => prepared(ctx, business_profile, routable_connector, decision, inputs, next, action),
        (
            CreateConnectorState::DefaultConfigs {
                merchant_id,
                routable_connector,
                transaction_type,
                record,
            },
            CreateConnectorEvent::DefaultConfigsLoaded(loaded),
        ) => default_configs_loaded(
            merchant_id,
            routable_connector,
            transaction_type,
            record,
            loaded,
            next,
            action,
        ),
        (
            CreateConnectorState::Inserted {
                merchant_id,
                profile_id,
                connector_label,
                routable_connector,
                transaction_type,
                default_routing_config,
                default_routing_config_for_profile,
            },
            CreateConnectorEvent::Inserted(outcome),
        ) => inserted(
            merchant_id,
            profile_id,
            connector_label,
            routable_connector,
            transaction_type,
            default_routing_config,
            default_routing_config_for_profile,
            outcome,
            next,
            action,
        ),
        (
            CreateConnectorState::ConfigWritten { mca, merchant_id, remaining },
            CreateConnectorEvent::ConfigWritten(written),
        ) => config_written(mca, merchant_id, remaining, written, next, action),
        _ => fails_with(next, action, ApiError::InternalServerError),
    }
}

fn fail(error: ApiErrorResponse) -> (result: (CreateConnectorState, CreateConnectorAction))
    ensures
        result.0 is Done,
        result.1 == CreateConnectorAction::Fail(error),
{
    (CreateConnectorState::Done, CreateConnectorAction::Fail(error))
}

fn respond(mca: MerchantConnectorAccount, merchant_id: String) -> (result: (
    CreateConnectorState,
    CreateConnectorAction,
))
    ensures
        responds(result.0, result.1, mca, merchant_id),
{
    let connector = mca.connector_name.clone();
    (
        CreateConnectorState::Done,
        CreateConnectorAction::Respond { created: mca, connector, merchant: merchant_id },
    )
}

fn on_begin(ctx: CreateConnectorContext) -> (result: (CreateConnectorState, CreateConnectorAction))
    ensures
        begun(ctx, result.0, result.1),
{
    match validate_dummy_connector_enabled(&ctx.req.connector_name, ctx.dummy_connector_enabled) {
        Err(e) => fail(e),
        Ok(_) => {
            let merchant_id = ctx.merchant_id.clone();
            (CreateConnectorState::KeyStore(ctx), CreateConnectorAction::LoadKeyStore { merchant_id })
        },
    }
}

fn on_key_store_loaded(ctx: CreateConnectorContext, loaded: Result<(), StorageError>) -> (result: (
    CreateConnectorState,
    CreateConnectorAction,
))
    ensures
        key_store_loaded(ctx, loaded, result.0, result.1),
{
    if let Err(err) = loaded {
        return fail(to_not_found_response(err, ApiErrorResponse::MerchantAccountNotFound));
    }
    let merchant_id = ctx.merchant_id.clone();
    (
        CreateConnectorState::MerchantAccount(ctx),
        CreateConnectorAction::LoadMerchantAccount { merchant_id },
    )
}

fn on_merchant_account_loaded(
    ctx: CreateConnectorContext,
    loaded: Result<MerchantAccount, StorageError>,
) -> (result: (CreateConnectorState, CreateConnectorAction))
    ensures
        merchant_account_loaded(ctx, loaded, result.0, result.1),
{
    let merchant_account = match loaded {
        Ok(merchant_account) => merchant_account,
        Err(err) => {
            return fail(to_not_found_response(err, ApiErrorResponse::MerchantAccountNotFound));
        },
    };
    let connector_metadata = ConnectorMetadata { connector_metadata: &ctx.req.metadata };
    let checked = connector_metadata.validate_apple_pay_certificates_in_mca_metadata();
    assert(apple_pay_check(ctx.req.metadata, crate::auth::fault_of(checked)));
    if let Err(e) = checked {
        return fail(e);
    }
    if let Err(e) = validate_business_details(
        &ctx.req.business_country,
        &ctx.req.business_label,
        &merchant_account,
    ) {
        return fail(e);
    }
    match ctx.req.validate_and_get_profile_id(&merchant_account) {
        Err(e) => fail(e),
        Ok(lookup) => {
            let action = match &lookup {
                ProfileLookup::ById(profile_id) => CreateConnectorAction::LoadProfileById {
                    profile_id: profile_id.clone(),
                },
                ProfileLookup::ByName(profile_name) => CreateConnectorAction::LoadProfileByName {
                    profile_name: profile_name.clone(),
                    merchant_id: ctx.merchant_id.clone(),
                },
            };
            (CreateConnectorState::Profile { ctx, merchant_account, lookup }, action)
        },
    }
}

fn on_profile_loaded(
    ctx: CreateConnectorContext,
    lookup: ProfileLookup,
    found: Result<BusinessProfile, StorageError>,
) -> (result: (CreateConnectorState, CreateConnectorAction))
    ensures
        profile_loaded(ctx, lookup, found, result.0, result.1),
{
    let profile_id = match lookup {
        ProfileLookup::ById(profile_id) => {
            match validate_and_get_business_profile(found, &profile_id, &ctx.merchant_id) {
                Ok(_) => profile_id,
                Err(e) => {
                    return fail(e);
                },
            }
        },
        ProfileLookup::ByName(profile_name) => match profile_id_by_name(found, profile_name) {
            Ok(profile_id) => profile_id,
            Err(e) => {
                return fail(e);
            },
        },
    };
    if validate_pm_auth_config(&ctx.req.connector_type, &ctx.req.pm_auth_config) {
        let merchant_id = ctx.merchant_id.clone();
        (
            CreateConnectorState::ConnectorAccounts { ctx, profile_id },
            CreateConnectorAction::LoadConnectorAccounts { merchant_id },
        )
    } else {
        let asked = profile_id.clone();
        (
            CreateConnectorState::BusinessProfile { ctx, profile_id },
            CreateConnectorAction::LoadProfileById { profile_id: asked },
        )
    }
}

fn on_connector_accounts_loaded(
    ctx: CreateConnectorContext,
    profile_id: String,
    loaded: Result<Vec<MerchantConnectorAccount>, StorageError>,
) -> (result: (CreateConnectorState, CreateConnectorAction))
    ensures
        connector_accounts_loaded(ctx, profile_id, loaded, result.0, result.1),
{
    if let Some(config) = &ctx.req.pm_auth_config {
        if let Err(e) = validate_pm_auth(config, &loaded, &ctx.merchant_id, &profile_id) {
            return fail(e);
        }
    }
    let asked = profile_id.clone();
    (
        CreateConnectorState::BusinessProfile { ctx, profile_id },
        CreateConnectorAction::LoadProfileById { profile_id: asked },
    )
}

fn on_business_profile_loaded(
    ctx: CreateConnectorContext,
    profile_id: String,
    found: Result<BusinessProfile, StorageError>,
) -> (result: (CreateConnectorState, CreateConnectorAction))
    ensures
        business_profile_loaded(ctx, profile_id, found, result.0, result.1),
{
    let business_profile = match found {
        Ok(business_profile) => business_profile,
        Err(err) => {
            return fail(
                to_not_found_response(
                    err,
                    ApiErrorResponse::BusinessProfileNotFound { id: profile_id },
                ),
            );
        },
    };
    let connector_type_and_connector_enum = ConnectorTypeAndConnectorName {
        connector_type: &ctx.req.connector_type,
        connector_name: &ctx.req.connector_name,
    };
    match connector_type_and_connector_enum.get_routable_connector() {
        Err(e) => fail(e),
        Ok(routable_connector) => {
            let merchant_id = ctx.merchant_id.clone();
            (
                CreateConnectorState::MerchantTouched { ctx, business_profile, routable_connector },
                CreateConnectorAction::TouchMerchant { merchant_id },
            )
        },
    }
}

fn on_merchant_touched(
    ctx: CreateConnectorContext,
    business_profile: BusinessProfile,
    routable_connector: Option<RoutableConnectors>,
    touched: Result<(), StorageError>,
) -> (result: (CreateConnectorState, CreateConnectorAction))
    ensures
        merchant_touched(ctx, business_profile, routable_connector, touched, result.0, result.1),
{
    if touched.is_err() {
        return fail(ApiErrorResponse::InternalServerError);
    }
    let validated = ctx.req.validate_request(
        &business_profile,
        &ctx.locker_based_open_banking_connectors,
    );
    let ghost identity_built = choose|identity_built: bool|
        identity_answer_fits(ctx.req.connector_account_details, identity_built) && decided(
            validated,
        ) == #[trigger] create_decision(
            ctx.req,
            business_profile,
            ctx.locker_based_open_banking_connectors,
            identity_built,
        );
    let result = match validated {
        Err(e) => fail(e),
        Ok(decision) => {
            match &decision.recipient {
                Some(RecipientStep::Register { registrar, account }) => {
                    let action = CreateConnectorAction::RegisterRecipient {
                        registrar: *registrar,
                        account: account.duplicate(),
                    };
                    (
                        CreateConnectorState::Recipient {
                            ctx,
                            business_profile,
                            routable_connector,
                            decision,
                        },
                        action,
                    )
                },
                Some(RecipientStep::Keep(data)) => {
                    let action = CreateConnectorAction::Prepare {
                        recipient_data: Some(data.duplicate()),
                    };
                    (
                        CreateConnectorState::Prepared {
                            ctx,
                            business_profile,
                            routable_connector,
                            decision,
                        },
                        action,
                    )
                },
                None => (
                    CreateConnectorState::Prepared {
                        ctx,
                        business_profile,
                        routable_connector,
                        decision,
                    },
                    CreateConnectorAction::Prepare { recipient_data: None },
                ),
            }
        },
    };
    proof {
        assert(identity_answer_fits(ctx.req.connector_account_details, identity_built)
            && match create_decision(
            ctx.req,
            business_profile,
            ctx.locker_based_open_banking_connectors,
            identity_built,
        ) {
            Err(fault) => fails_with(result.0, result.1, fault),
            Ok(decision) => match decision.recipient {
                Some(RecipientStep::Register { registrar, account }) => {
                    &&& result.0 matches CreateConnectorState::Recipient {
                        ctx: next_ctx,
                        business_profile: next_profile,
                        routable_connector: next_routable,
                        decision: next_decision,
                    }
                    &&& next_ctx == ctx
                    &&& next_profile == business_profile
                    &&& next_routable == routable_connector
                    &&& next_decision@ == decision
                    &&& result.1 == (CreateConnectorAction::RegisterRecipient {
                        registrar,
                        account,
                    })
                },
                kept => {
                    &&& result.0 matches CreateConnectorState::Prepared {
                        ctx: next_ctx,
                        business_profile: next_profile,
                        routable_connector: next_routable,
                        decision: next_decision,
                    }
                    &&& next_ctx == ctx
                    &&& next_profile == business_profile
                    &&& next_routable == routable_connector
                    &&& next_decision@ == decision
                    &&& result.1 == (CreateConnectorAction::Prepare {
                        recipient_data: match kept {
                            Some(RecipientStep::Keep(data)) => Some(data),
                            _ => None,
                        },
                    })
                },
            },
        });
    }
    result
}

fn on_recipient_registered(
    ctx: CreateConnectorContext,
    business_profile: BusinessProfile,
    routable_connector: Option<RoutableConnectors>,
    decision: ConnectorCreateDecision,
    registered: Result<String, ApiErrorResponse>,
) -> (result: (CreateConnectorState, CreateConnectorAction))
    ensures
        recipient_registered(
            ctx,
            business_profile,
            routable_connector,
            decision,
            registered,
            result.0,
            result.1,
        ),
{
    let step = match &decision.recipient {
        Some(RecipientStep::Register { registrar, account }) => RecipientStep::Register {
            registrar: *registrar,
            account: account.duplicate(),
        },
        _ => {
            return fail(ApiErrorResponse::InternalServerError);
        },
    };
    match step.finish(registered) {
        Err(e) => fail(e),
        Ok(data) => (
            CreateConnectorState::Prepared { ctx, business_profile, routable_connector, decision },
            CreateConnectorAction::Prepare { recipient_data: Some(data) },
        ),
    }
}

fn on_prepared(
    ctx: CreateConnectorContext,
    business_profile: BusinessProfile,
    routable_connector: Option<RoutableConnectors>,
    decision: ConnectorCreateDecision,
    inputs: Result<ConnectorCreateInputs, ApiErrorResponse>,
) -> (result: (CreateConnectorState, CreateConnectorAction))
    ensures
        prepared(ctx, business_profile, routable_connector, decision, inputs, result.0, result.1),
{
    let inputs = match inputs {
        Ok(inputs) => inputs,
        Err(e) => {
            return fail(e);
        },
    };
    if !ctx.req.fits(&decision) {
        return fail(ApiErrorResponse::InternalServerError);
    }
    let transaction_type = ctx.req.get_transaction_type();
    let record = ctx.req.create_domain_model_from_request(&business_profile, decision, inputs);
    let merchant_id = ctx.merchant_id;
    let action = CreateConnectorAction::LoadDefaultConfigs {
        merchant_id: merchant_id.clone(),
        profile_id: business_profile.profile_id,
        transaction_type,
    };
    (
        CreateConnectorState::DefaultConfigs {
            merchant_id,
            routable_connector,
            transaction_type,
            record,
        },
        action,
    )
}

fn on_default_configs_loaded(
    merchant_id: String,
    routable_connector: Option<RoutableConnectors>,
    transaction_type: TransactionType,
    record: MerchantConnectorAccount,
    loaded: Result<(Vec<RoutableConnectorChoice>, Vec<RoutableConnectorChoice>), ApiErrorResponse>,
) -> (result: (CreateConnectorState, CreateConnectorAction))
    ensures
        default_configs_loaded(
            merchant_id,
            routable_connector,
            transaction_type,
            record,
            loaded,
            result.0,
            result.1,
        ),
{
    match loaded {
        Err(e) => fail(e),
        Ok((default_routing_config, default_routing_config_for_profile)) => {
            let profile_id = record.profile_id.clone();
            let connector_label = clone_text(&record.connector_label);
            (
                CreateConnectorState::Inserted {
                    merchant_id,
                    profile_id,
                    connector_label,
                    routable_connector,
                    transaction_type,
                    default_routing_config,
                    default_routing_config_for_profile,
                },
                CreateConnectorAction::InsertConnector(record),
            )
        },
    }
}

fn on_inserted(
    merchant_id: String,
    profile_id: String,
    connector_label: Option<String>,
    routable_connector: Option<RoutableConnectors>,
    transaction_type: TransactionType,
    default_routing_config: Vec<RoutableConnectorChoice>,
    default_routing_config_for_profile: Vec<RoutableConnectorChoice>,
    outcome: Result<MerchantConnectorAccount, StorageError>,
) -> (result: (CreateConnectorState, CreateConnectorAction))
    ensures
        inserted(
            merchant_id,
            profile_id,
            connector_label,
            routable_connector,
            transaction_type,
            default_routing_config,
            default_routing_config_for_profile,
            outcome,
            result.0,
            result.1,
        ),
{
    let mca = match outcome {
        Ok(mca) => mca,
        Err(err) => {
            let duplicate = ApiErrorResponse::DuplicateMerchantConnectorAccount {
                profile_id,
                connector_label: match connector_label {
                    Some(label) => label,
                    None => String::new(),
                },
            };
            return fail(to_duplicate_response(err, duplicate));
        },
    };
    let merchant_default_config_update = MerchantDefaultConfigUpdate {
        routable_connector: &routable_connector,
        merchant_connector_id: &mca.merchant_connector_id,
        merchant_id: &merchant_id,
        default_routing_config: &default_routing_config,
        default_routing_config_for_profile: &default_routing_config_for_profile,
        profile_id: &profile_id,
        transaction_type: &transaction_type,
    };
    let mut writes = merchant_default_config_update.update_merchant_default_config();
    if writes.len() == 0 {
        respond(mca, merchant_id)
    } else {
        let first = writes.remove(0);
        (
            CreateConnectorState::ConfigWritten { mca, merchant_id, remaining: writes },
            CreateConnectorAction::WriteDefaultConfig(first),
        )
    }
}

fn on_config_written(
    mca: MerchantConnectorAccount,
    merchant_id: String,
    remaining: Vec<DefaultConfigWrite>,
    written: Result<(), ApiErrorResponse>,
) -> (result: (CreateConnectorState, CreateConnectorAction))
    ensures
        config_written(mca, merchant_id, remaining, written, result.0, result.1),
{
    if let Err(e) = written {
        return fail(e);
    }
    let mut remaining = remaining;
    if remaining.len() == 0 {
        respond(mca, merchant_id)
    } else {
        let first = remaining.remove(0);
        (
            CreateConnectorState::ConfigWritten { mca, merchant_id, remaining },
            CreateConnectorAction::WriteDefaultConfig(first),
        )
    }
}

impl CreateConnectorState {
    /// The state in which the creation of a connector account starts.
    pub fn new(ctx: CreateConnectorContext) -> (state: Self)
        ensures
            state == CreateConnectorState::Start(ctx),
    {
        CreateConnectorState::Start(ctx)
    }

    /// Whether the creation has ended.
    pub fn is_done(&self) -> (done: bool)
        ensures
            done == (*self is Done),
    {
        match self {
            CreateConnectorState::Done => true,
            _ => false,
        }
    }

    /// Takes one step of the creation: [`transition`].
    pub fn step(self, event: CreateConnectorEvent) -> (result: (
        CreateConnectorState,
        CreateConnectorAction,
    ))
        ensures
            transition(self, event, result.0, result.1),
    {
        match (self, event) {
            (CreateConnectorState::Start(ctx), CreateConnectorEvent::Begin) => on_begin(ctx),
            (
                CreateConnectorState::KeyStore(ctx),
                CreateConnectorEvent::KeyStoreLoaded(loaded),
            ) => on_key_store_loaded(ctx, loaded),
            (
                CreateConnectorState::MerchantAccount(ctx),
                CreateConnectorEvent::MerchantAccountLoaded(loaded),
            ) => on_merchant_account_loaded(ctx, loaded),
            (
                CreateConnectorState::Profile { ctx, merchant_account, lookup },
                CreateConnectorEvent::ProfileLoaded(found),
            ) => on_profile_loaded(ctx, lookup, found),
            (
                CreateConnectorState::ConnectorAccounts { ctx, profile_id },
                CreateConnectorEvent::ConnectorAccountsLoaded(loaded),
            ) => on_connector_accounts_loaded(ctx, profile_id, loaded),
            (
                CreateConnectorState::BusinessProfile { ctx, profile_id },
                CreateConnectorEvent::ProfileLoaded(found),
            ) => on_business_profile_loaded(ctx, profile_id, found),
            (
                CreateConnectorState::MerchantTouched { ctx, business_profile, routable_connector },
                CreateConnectorEvent::MerchantTouched(touched),
            ) => on_merchant_touched(ctx, business_profile, routable_connector, touched),
            (
                CreateConnectorState::Recipient {
                    ctx,
                    business_profile,
                    routable_connector,
                    decision,
                },
                CreateConnectorEvent::RecipientRegistered(registered),
            ) => on_recipient_registered(
                ctx,
                business_profile,
                routable_connector,
                decision,
                registered,
            ),
            (
                CreateConnectorState::Prepared {
                    ctx,
                    business_profile,
                    routable_connector,
                    decision,
                },
                CreateConnectorEvent::Prepared(inputs),
            ) => on_prepared(ctx, business_profile, routable_connector, decision, inputs),
            (
                CreateConnectorState::DefaultConfigs {
                    merchant_id,
                    routable_connector,
                    transaction_type,
                    record,
                },
                CreateConnectorEvent::DefaultConfigsLoaded(loaded),
            ) => on_default_configs_loaded(
                merchant_id,
                routable_connector,
                transaction_type,
                record,
                loaded,
            ),
            (
                CreateConnectorState::Inserted {
                    merchant_id,
                    profile_id,
                    connector_label,
                    routable_connector,
                    transaction_type,
                    default_routing_config,
                    default_routing_config_for_profile,
                },
                CreateConnectorEvent::Inserted(outcome),
            ) => on_inserted(
                merchant_id,
                profile_id,
                connector_label,
                routable_connector,
                transaction_type,
                default_routing_config,
                default_routing_config_for_profile,
                outcome,
            ),
            (
                CreateConnectorState::ConfigWritten { mca, merchant_id, remaining },
                CreateConnectorEvent::ConfigWritten(written),
            ) => on_config_written(mca, merchant_id, remaining, written),
            _ => fail(ApiErrorResponse::InternalServerError),
        }
    }
}

/// A profile that is not found, or that another merchant owns, ends the
/// creation at once: with "not found" or "forbidden", and with nothing
/// stored.
pub proof fn lemma_unowned_profile_ends_creation(
    ctx: CreateConnectorContext,
    merchant_account: MerchantAccount,
    profile_id: String,
    found: Result<BusinessProfile, StorageError>,
    next: CreateConnectorState,
    action: CreateConnectorAction,
)
    requires
        transition(
            CreateConnectorState::Profile {
                ctx,
                merchant_account,
                lookup: ProfileLookup::ById(profile_id),
            },
            CreateConnectorEvent::ProfileLoaded(found),
            next,
            action,
        ),
        !(found matches Ok(profile) && profile.merchant_id@ == ctx.merchant_id@),
    ensures
        next is Done,
        !persists(action),
        action matches CreateConnectorAction::Fail(e) && e@ == (match found {
            Ok(profile) => ApiError::AccessForbidden { resource: profile.profile_id@ },
            Err(StorageError::ValueNotFound) => ApiError::BusinessProfileNotFound {
                id: profile_id@,
            },
            Err(_) => ApiError::InternalServerError,
        }),
{
}

/// Nothing is stored or changed before the profile of the account has been
/// found: every step that stores stands after the look-up of the profile.
pub proof fn lemma_nothing_stored_before_profile(
    state: CreateConnectorState,
    event: CreateConnectorEvent,
    next: CreateConnectorState,
    action: CreateConnectorAction,
)
    requires
        transition(state, event, next, action),
        persists(action),
    ensures
        stage(state) >= 5,
{
}

/// The creation only moves forward: each step ends it or leads to a later
/// state, but for the writing of the default lists, where each step leaves
/// fewer lists to write. A step that fails ends the creation, and a
/// creation ends only by failing or by answering.
pub proof fn lemma_creation_advances(
    state: CreateConnectorState,
    event: CreateConnectorEvent,
    next: CreateConnectorState,
    action: CreateConnectorAction,
)
    requires
        transition(state, event, next, action),
    ensures
        next is Done || stage(next) > stage(state) || (state matches CreateConnectorState::ConfigWritten {
            remaining: before,
            ..
        } && next matches CreateConnectorState::ConfigWritten { remaining: after, .. }
            && after@.len() < before@.len()),
        action is Fail ==> next is Done,
        next is Done <==> action is Fail || action is Respond,
{
}

/// Begins the creation of a connector account for a merchant: the first
/// step of [`CreateConnectorState::step`], taken from the start.
pub fn create_connector(
    req: MerchantConnectorCreate,
    merchant_id: String,
    dummy_connector_enabled: bool,
    locker_based_open_banking_connectors: ConnectorNames,
) -> (result: (CreateConnectorState, CreateConnectorAction))
    ensures
        begun(
            CreateConnectorContext {
                req,
                merchant_id,
                dummy_connector_enabled,
                locker_based_open_banking_connectors,
            },
            result.0,
            result.1,
        ),
{
    let ctx = CreateConnectorContext {
        req,
        merchant_id,
        dummy_connector_enabled,
        locker_based_open_banking_connectors,
    };
    CreateConnectorState::new(ctx).step(CreateConnectorEvent::Begin)
}

/// The record that the creation goes on to insert is never active on
/// temporary credentials, and is disabled whenever it is inactive.
pub proof fn lemma_record_is_consistent(
    ctx: CreateConnectorContext,
    business_profile: BusinessProfile,
    routable_connector: Option<RoutableConnectors>,
    decision: ConnectorCreateDecision,
    inputs: Result<ConnectorCreateInputs, ApiErrorResponse>,
    next: CreateConnectorState,
    action: CreateConnectorAction,
)
    requires
        transition(
            CreateConnectorState::Prepared { ctx, business_profile, routable_connector, decision },
            CreateConnectorEvent::Prepared(inputs),
            next,
            action,
        ),
    ensures
        next matches CreateConnectorState::DefaultConfigs { record, .. } ==> {
            &&& has_temporary_auth(ctx.req) ==> record.status == ConnectorStatus::Inactive
            &&& record.status == ConnectorStatus::Inactive ==> record.disabled == Some(true)
        },
{
}

} // verus!
