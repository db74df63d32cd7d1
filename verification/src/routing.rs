//! Routable connectors: which connector accounts a transaction can be
//! routed to, and the ordered default lists they are entered in.

use vstd::prelude::*;

use crate::enums::{
    is_authentication_connector, is_pm_auth_connector, is_routable, Connector, ConnectorType,
    RoutableConnectors, TransactionType,
};
use crate::errors::{invalid_request, invalid_request_data, ApiError, ApiErrorResponse};

verus! {

/// How much of a routing choice is written down.
#[derive(Clone, Copy, Debug, PartialEq, Eq, Structural)]
pub enum RoutableChoiceKind {
    OnlyConnector,
    FullStruct,
}

/// An entry of a routing list: a connector, and the account to use.
#[derive(Clone, Debug, PartialEq, Eq)]
pub struct RoutableConnectorChoice {
    pub choice_kind: RoutableChoiceKind,
    pub connector: RoutableConnectors,
    pub merchant_connector_id: Option<String>,
}

/// Mathematical value of a [`RoutableConnectorChoice`].
pub ghost struct RoutableChoice {
    pub choice_kind: RoutableChoiceKind,
    pub connector: RoutableConnectors,
    pub merchant_connector_id: Option<Seq<char>>,
}

impl View for RoutableConnectorChoice {
    type V = RoutableChoice;

    open spec fn view(&self) -> RoutableChoice {
        RoutableChoice {
            choice_kind: self.choice_kind,
            connector: self.connector,
            merchant_connector_id: match self.merchant_connector_id {
                Some(id) => Some(id@),
                None => None,
            },
        }
    }
}

/// The values of the entries of a routing list, in order.
pub open spec fn choices(list: Seq<RoutableConnectorChoice>) -> Seq<RoutableChoice> {
    list.map_values(|choice: RoutableConnectorChoice| choice@)
}

/// The list after `choice` was registered: unchanged where it holds the
/// choice already, else with the choice as its new last entry.
pub open spec fn registered(list: Seq<RoutableChoice>, choice: RoutableChoice) -> Seq<
    RoutableChoice,
> {
    if list.contains(choice) {
        list
    } else {
        list.push(choice)
    }
}

/// The entry that stands for a connector account in the default lists.
pub open spec fn full_choice(
    connector: RoutableConnectors,
    merchant_connector_id: Seq<char>,
) -> RoutableChoice {
    RoutableChoice {
        choice_kind: RoutableChoiceKind::FullStruct,
        connector,
        merchant_connector_id: Some(merchant_connector_id),
    }
}

impl RoutableConnectorChoice {
    /// Whether two entries are equal in all three parts.
    pub fn same_as(&self, other: &RoutableConnectorChoice) -> (same: bool)
        ensures
            same == (self@ == other@),
    {
        let ids_equal = match (&self.merchant_connector_id, &other.merchant_connector_id) {
            (Some(a), Some(b)) => *a == *b,
            (None, None) => true,
            _ => false,
        };
        self.choice_kind == other.choice_kind && self.connector == other.connector && ids_equal
    }

    /// A copy of the entry.
    pub fn duplicate(&self) -> (copy: RoutableConnectorChoice)
        ensures
            copy@ == self@,
    {
        RoutableConnectorChoice {
            choice_kind: self.choice_kind,
            connector: self.connector,
            merchant_connector_id: match &self.merchant_connector_id {
                Some(id) => Some(id.clone()),
                None => None,
            },
        }
    }
}

/// Whether a routing list holds an entry equal to `choice`.
pub fn contains_choice(
    list: &Vec<RoutableConnectorChoice>,
    choice: &RoutableConnectorChoice,
) -> (found:
    bool)
    ensures
        found == choices(list@).contains(choice@),
{
    let mut i: usize = 0;
    while i < list.len()
        invariant
            i <= list@.len(),
            forall|j: int| 0 <= j < i ==> choices(list@)[j] != choice@,
        decreases list@.len() - i,
    {
        if list[i].same_as(choice) {
            assert(choices(list@)[i as int] == choice@);
            return true;
        }
        i += 1;
    }
    false
}

/// A copy of a routing list.
pub fn duplicate_choices(list: &Vec<RoutableConnectorChoice>) -> (copy: Vec<
    RoutableConnectorChoice,
>)
    ensures
        choices(copy@) == choices(list@),
{
    let mut copy: Vec<RoutableConnectorChoice> = Vec::new();
    let mut i: usize = 0;
    while i < list.len()
        invariant
            i <= list@.len(),
            copy@.len() == i,
            forall|j: int| 0 <= j < i ==> (#[trigger] copy@[j])@ == list@[j]@,
        decreases list@.len() - i,
    {
        copy.push(list[i].duplicate());
        i += 1;
    }
    assert(choices(copy@) =~= choices(list@));
    copy
}

/// Enters `choice` in a routing list unless the list holds it already.
/// Says whether the list has changed.
pub fn register_if_absent(
    list: &mut Vec<RoutableConnectorChoice>,
    choice: RoutableConnectorChoice,
) -> (changed:
    bool)
    ensures
        choices(final(list)@) == registered(choices(old(list)@), choice@),
        changed == !choices(old(list)@).contains(choice@),
        !changed ==> final(list)@ == old(list)@,
{
    if contains_choice(list, &choice) {
        false
    } else {
        let ghost before = list@;
        list.push(choice);
        assert(choices(list@) =~= choices(before).push(choice@));
        true
    }
}

/// Registering a choice a second time changes nothing.
pub proof fn lemma_register_is_idempotent(list: Seq<RoutableChoice>, choice: RoutableChoice)
    ensures
        registered(list, choice).contains(choice),
        registered(registered(list, choice), choice) == registered(list, choice),
{
    if !list.contains(choice) {
        let longer = list.push(choice);
        assert(longer[list.len() as int] == choice);
    }
}

/// However often a choice is registered in a list that did not hold it, the
/// list holds it exactly once afterwards, as its last entry, and everything
/// before it is as it was.
pub proof fn lemma_registered_once(list: Seq<RoutableChoice>, choice: RoutableChoice)
    requires
        !list.contains(choice),
    ensures
        registered(registered(list, choice), choice) == list.push(choice),
        list.push(choice).to_multiset().count(choice) == 1,
{
    lemma_register_is_idempotent(list, choice);
    vstd::seq_lib::to_multiset_build(list, choice);
    vstd::seq_lib::to_multiset_contains(list, choice);
}

/// Registering never removes or reorders what a list held.
pub proof fn lemma_register_keeps_entries(list: Seq<RoutableChoice>, choice: RoutableChoice)
    ensures
        list.is_prefix_of(registered(list, choice)),
        registered(list, choice).len() <= list.len() + 1,
{
}

/// The routing identity of a connector, if it has one.
pub open spec fn routable_of(connector: Connector) -> Option<Connector> {
    if is_routable(connector) {
        Some(connector)
    } else {
        None
    }
}

/// Classifies a connector for an account of a given type. A connector that
/// verifies bank accounts may be set up for that or as a payment processor;
/// one that runs payer authentication only as an authentication processor;
/// both keep the routing identity they have, if any. Every other connector
/// must have a routing identity.
pub open spec fn classification(connector_type: ConnectorType, connector: Connector) -> Result<
    Option<Connector>,
    ApiError,
> {
    if is_pm_auth_connector(connector) {
        if connector_type == ConnectorType::PaymentMethodAuth || connector_type
            == ConnectorType::PaymentProcessor {
            Ok(routable_of(connector))
        } else {
            Err(invalid_request("Invalid connector type given"@))
        }
    } else if is_authentication_connector(connector) {
        if connector_type == ConnectorType::AuthenticationProcessor {
            Ok(routable_of(connector))
        } else {
            Err(invalid_request("Invalid connector type given"@))
        }
    } else {
        match routable_of(connector) {
            Some(routable) => Ok(Some(routable)),
            None => Err(invalid_request("Invalid connector name given"@)),
        }
    }
}

/// The outcome of a classification over connectors and error values.
pub open spec fn classified(result: Result<Option<RoutableConnectors>, ApiErrorResponse>) -> Result<
    Option<Connector>,
    ApiError,
> {
    match result {
        Ok(Some(routable)) => Ok(Some(routable.connector())),
        Ok(None) => Ok(None),
        Err(e) => Err(e@),
    }
}

/// The type and the connector of an account that is to be classified.
pub struct ConnectorTypeAndConnectorName<'a> {
    pub connector_type: &'a ConnectorType,
    pub connector_name: &'a Connector,
}

impl<'a> ConnectorTypeAndConnectorName<'a> {
    /// The routing identity under which the account joins the default
    /// lists, `None` where its connector has none, or the error for a
    /// connector that does not go with the type.
    pub fn get_routable_connector(&self) -> (result: Result<
        Option<RoutableConnectors>,
        ApiErrorResponse,
    >)
        ensures
            classified(result) == classification(*self.connector_type, *self.connector_name),
            result matches Ok(Some(routable)) ==> routable.wf(),
    {
        let routable_connector = RoutableConnectors::from_connector(*self.connector_name);
        if self.connector_name.is_pm_auth() {
            if *self.connector_type != ConnectorType::PaymentMethodAuth && *self.connector_type
                != ConnectorType::PaymentProcessor {
                return Err(invalid_request_data("Invalid connector type given"));
            }
        } else if self.connector_name.is_authentication() {
            if *self.connector_type != ConnectorType::AuthenticationProcessor {
                return Err(invalid_request_data("Invalid connector type given"));
            }
        } else {
            if routable_connector.is_none() {
                return Err(invalid_request_data("Invalid connector name given"));
            }
        }
        Ok(routable_connector)
    }
}

/// No connector is in both special tables.
pub proof fn lemma_connector_tables_disjoint(connector: Connector)
    ensures
        !(is_pm_auth_connector(connector) && is_authentication_connector(connector)),
{
}

/// A classification yields no routing identity only for a connector that
/// has none, and an identity is always that of the connector itself.
pub proof fn lemma_classification_identity(connector_type: ConnectorType, connector: Connector)
    ensures
        classification(connector_type, connector) == Ok::<Option<Connector>, ApiError>(None)
            ==> !is_routable(connector),
        classification(connector_type, connector) matches Ok(Some(routable)) ==> routable
            == connector && is_routable(connector),
{
}

/// A list to be written back to the configuration store. The write is
/// meant to be applied only while the store still holds the list that was
/// read, so that two registrations at the same time cannot lose an entry.
#[derive(Clone, Debug, PartialEq, Eq)]
pub struct DefaultConfigWrite {
    /// The merchant or the profile whose list this is.
    pub owner: String,
    pub transaction_type: TransactionType,
    /// The list as it was read and is to be replaced.
    pub replaces: Vec<RoutableConnectorChoice>,
    /// The list with the new entry.
    pub connectors: Vec<RoutableConnectorChoice>,
}

/// A new connector account together with the default lists of its merchant
/// and of its profile, as they stand in the configuration store.
pub struct MerchantDefaultConfigUpdate<'a> {
    pub routable_connector: &'a Option<RoutableConnectors>,
    pub merchant_connector_id: &'a String,
    pub merchant_id: &'a String,
    pub default_routing_config: &'a Vec<RoutableConnectorChoice>,
    pub default_routing_config_for_profile: &'a Vec<RoutableConnectorChoice>,
    pub profile_id: &'a String,
    pub transaction_type: &'a TransactionType,
}

impl<'a> MerchantDefaultConfigUpdate<'a> {
    /// The entry that this account would add, if its connector is routable.
    pub open spec fn choice(&self) -> Option<RoutableChoice> {
        match *self.routable_connector {
            Some(connector) => Some(full_choice(connector, self.merchant_connector_id@)),
            None => None,
        }
    }

    /// Whether the merchant's list lacks the account and has to be written.
    pub open spec fn merchant_list_changes(&self) -> bool {
        self.choice() matches Some(choice) && !choices(self.default_routing_config@).contains(
            choice,
        )
    }

    /// Whether the profile's list lacks the account and has to be written.
    pub open spec fn profile_list_changes(&self) -> bool {
        self.choice() matches Some(choice) && !choices(
            self.default_routing_config_for_profile@,
        ).contains(choice)
    }

    /// Whether `write` is the merchant's list with the account entered.
    pub open spec fn is_merchant_write(&self, write: DefaultConfigWrite) -> bool {
        &&& write.owner@ == self.merchant_id@
        &&& write.transaction_type == *self.transaction_type
        &&& choices(write.replaces@) == choices(self.default_routing_config@)
        &&& choices(write.connectors@) == choices(self.default_routing_config@).push(
            self.choice()->0,
        )
    }

    /// Whether `write` is the profile's list with the account entered.
    pub open spec fn is_profile_write(&self, write: DefaultConfigWrite) -> bool {
        &&& write.owner@ == self.profile_id@
        &&& write.transaction_type == *self.transaction_type
        &&& choices(write.replaces@) == choices(self.default_routing_config_for_profile@)
        &&& choices(write.connectors@) == choices(self.default_routing_config_for_profile@).push(
            self.choice()->0,
        )
    }

    /// Enters the account in the default list of its merchant and in that
    /// of its profile, each on its own, and returns the lists that have
    /// changed and so have to be written back: the merchant's first, then
    /// the profile's. A list that holds the account already is not written,
    /// and nothing is for an account whose connector cannot be routed to.
    pub fn update_merchant_default_config(&self) -> (writes: Vec<DefaultConfigWrite>)
        ensures
            writes@.len() == (if self.merchant_list_changes() {
                1int
            } else {
                0int
            }) + (if self.profile_list_changes() {
                1int
            } else {
                0int
            }),
            self.merchant_list_changes() ==> self.is_merchant_write(writes@[0]),
            self.profile_list_changes() ==> self.is_profile_write(writes@[writes@.len() - 1]),
    {
        let mut writes: Vec<DefaultConfigWrite> = Vec::new();
        if let Some(routable_connector_val) = self.routable_connector {
            let choice = RoutableConnectorChoice {
                choice_kind: RoutableChoiceKind::FullStruct,
                connector: *routable_connector_val,
                merchant_connector_id: Some(self.merchant_connector_id.clone()),
            };
            let mut default_routing_config = duplicate_choices(self.default_routing_config);
            if register_if_absent(&mut default_routing_config, choice.duplicate()) {
                writes.push(
                    DefaultConfigWrite {
                        owner: self.merchant_id.clone(),
                        transaction_type: *self.transaction_type,
                        replaces: duplicate_choices(self.default_routing_config),
                        connectors: default_routing_config,
                    },
                );
            }
            let mut default_routing_config_for_profile = duplicate_choices(
                self.default_routing_config_for_profile,
            );
            if register_if_absent(&mut default_routing_config_for_profile, choice) {
                writes.push(
                    DefaultConfigWrite {
                        owner: self.profile_id.clone(),
                        transaction_type: *self.transaction_type,
                        replaces: duplicate_choices(self.default_routing_config_for_profile),
                        connectors: default_routing_config_for_profile,
                    },
                );
            }
        }
        writes
    }
}

/// Once an account is entered in both default lists, entering it again
/// writes nothing: the second registration finds it in both.
pub proof fn lemma_second_registration_writes_nothing(
    first: MerchantDefaultConfigUpdate,
    second: MerchantDefaultConfigUpdate,
)
    requires
        second.routable_connector == first.routable_connector,
        second.merchant_connector_id@ == first.merchant_connector_id@,
        first.choice() matches Some(choice) ==> {
            &&& choices(second.default_routing_config@) == registered(
                choices(first.default_routing_config@),
                choice,
            )
            &&& choices(second.default_routing_config_for_profile@) == registered(
                choices(first.default_routing_config_for_profile@),
                choice,
            )
        },
    ensures
        !second.merchant_list_changes(),
        !second.profile_list_changes(),
{
    if first.choice() is Some {
        let choice = first.choice()->0;
        assert(second.choice() == Some(choice));
        lemma_register_is_idempotent(choices(first.default_routing_config@), choice);
        lemma_register_is_idempotent(choices(first.default_routing_config_for_profile@), choice);
    }
}

} // verus!
