use admin_core::enums::{Connector, ConnectorType, RoutableConnectors, TransactionType};
use admin_core::errors::ApiErrorResponse;
use admin_core::routing::{
    contains_choice, duplicate_choices, register_if_absent, ConnectorTypeAndConnectorName,
    DefaultConfigWrite, MerchantDefaultConfigUpdate, RoutableChoiceKind, RoutableConnectorChoice,
};

fn routable(connector: Connector) -> RoutableConnectors {
    RoutableConnectors::from_connector(connector).expect("routable")
}

fn choice(connector: Connector, id: &str) -> RoutableConnectorChoice {
    RoutableConnectorChoice {
        choice_kind: RoutableChoiceKind::FullStruct,
        connector: routable(connector),
        merchant_connector_id: Some(id.to_string()),
    }
}

fn classify(
    connector_type: ConnectorType,
    connector: Connector,
) -> Result<Option<RoutableConnectors>, ApiErrorResponse> {
    ConnectorTypeAndConnectorName { connector_type: &connector_type, connector_name: &connector }
        .get_routable_connector()
}

fn invalid_type() -> ApiErrorResponse {
    ApiErrorResponse::InvalidRequestData { message: "Invalid connector type given".to_string() }
}

fn all_types() -> Vec<ConnectorType> {
    vec![
        ConnectorType::PaymentProcessor,
        ConnectorType::PaymentVas,
        ConnectorType::FinOperations,
        ConnectorType::FraudRiskManagement,
        ConnectorType::Networks,
        ConnectorType::BankingEntities,
        ConnectorType::NonBankingFinance,
        ConnectorType::PayoutProcessor,
        ConnectorType::PaymentMethodAuth,
        ConnectorType::AuthenticationProcessor,
    ]
}

#[test]
fn routable_identity_is_that_of_the_connector() {
    for connector in Connector::all() {
        match RoutableConnectors::from_connector(connector) {
            Some(r) => {
                assert_eq!(r.get_connector(), connector);
                assert!(!connector.is_authentication());
            }
            None => assert!(connector.is_authentication()),
        }
    }
    assert!(RoutableConnectors::from_connector(Connector::Netcetera).is_none());
    assert!(RoutableConnectors::from_connector(Connector::Threedsecureio).is_none());
    assert!(RoutableConnectors::from_connector(Connector::Gpayments).is_none());
    assert!(RoutableConnectors::from_connector(Connector::Plaid).is_some());
    assert!(RoutableConnectors::from_connector(Connector::Signifyd).is_some());
}

#[test]
fn ordinary_connectors_are_routable_under_any_type() {
    for connector_type in all_types() {
        assert_eq!(
            classify(connector_type, Connector::Stripe),
            Ok(Some(routable(Connector::Stripe)))
        );
        assert_eq!(
            classify(connector_type, Connector::Riskified),
            Ok(Some(routable(Connector::Riskified)))
        );
    }
}

#[test]
fn pm_auth_connectors_need_a_fitting_type() {
    for connector_type in all_types() {
        let expected = match connector_type {
            ConnectorType::PaymentMethodAuth | ConnectorType::PaymentProcessor => {
                Ok(Some(routable(Connector::Plaid)))
            }
            _ => Err(invalid_type()),
        };
        assert_eq!(classify(connector_type, Connector::Plaid), expected);
    }
}

#[test]
fn authentication_connectors_need_their_type_and_are_not_routed() {
    for connector in [Connector::Threedsecureio, Connector::Netcetera, Connector::Gpayments] {
        for connector_type in all_types() {
            let expected = match connector_type {
                ConnectorType::AuthenticationProcessor => Ok(None),
                _ => Err(invalid_type()),
            };
            assert_eq!(classify(connector_type, connector), expected);
        }
    }
}

#[test]
fn special_tables_are_disjoint() {
    for connector in Connector::all() {
        assert!(!(connector.is_pm_auth() && connector.is_authentication()));
    }
}

#[test]
fn choices_are_compared_in_all_parts() {
    let a = choice(Connector::Stripe, "mca_1");
    assert!(a.same_as(&a.duplicate()));
    assert_eq!(a.duplicate(), a);
    assert!(!a.same_as(&choice(Connector::Stripe, "mca_2")));
    assert!(!a.same_as(&choice(Connector::Adyen, "mca_1")));
    let mut only = a.duplicate();
    only.choice_kind = RoutableChoiceKind::OnlyConnector;
    assert!(!a.same_as(&only));
    let mut none = a.duplicate();
    none.merchant_connector_id = None;
    assert!(!a.same_as(&none));
    assert!(none.same_as(&none.duplicate()));
}

#[test]
fn registering_twice_leaves_one_occurrence() {
    let mut list = vec![choice(Connector::Adyen, "mca_0")];
    let new = choice(Connector::Stripe, "mca_1");
    assert!(!contains_choice(&list, &new));
    assert!(register_if_absent(&mut list, new.duplicate()));
    assert_eq!(list, vec![choice(Connector::Adyen, "mca_0"), choice(Connector::Stripe, "mca_1")]);
    assert!(!register_if_absent(&mut list, new.duplicate()));
    assert!(!register_if_absent(&mut list, new.duplicate()));
    assert_eq!(list.iter().filter(|c| **c == new).count(), 1);
    assert_eq!(list, vec![choice(Connector::Adyen, "mca_0"), choice(Connector::Stripe, "mca_1")]);
    assert!(contains_choice(&list, &new));
    assert_eq!(duplicate_choices(&list), list);
}

#[test]
fn registering_in_an_empty_list() {
    let mut list = Vec::new();
    assert!(register_if_absent(&mut list, choice(Connector::Stripe, "m")));
    assert_eq!(list, vec![choice(Connector::Stripe, "m")]);
}

#[test]
fn only_connector_entry_does_not_count_as_the_account() {
    let mut only = choice(Connector::Stripe, "mca_1");
    only.choice_kind = RoutableChoiceKind::OnlyConnector;
    let mut list = vec![only.duplicate()];
    assert!(register_if_absent(&mut list, choice(Connector::Stripe, "mca_1")));
    assert_eq!(list, vec![only, choice(Connector::Stripe, "mca_1")]);
}

fn writes_for(
    routable_connector: Option<RoutableConnectors>,
    merchant_list: Vec<RoutableConnectorChoice>,
    profile_list: Vec<RoutableConnectorChoice>,
    transaction_type: TransactionType,
) -> Vec<DefaultConfigWrite> {
    let merchant_connector_id = "mca_new".to_string();
    let merchant_id = "merchant_1".to_string();
    let profile_id = "pro_1".to_string();
    MerchantDefaultConfigUpdate {
        routable_connector: &routable_connector,
        merchant_connector_id: &merchant_connector_id,
        merchant_id: &merchant_id,
        default_routing_config: &merchant_list,
        default_routing_config_for_profile: &profile_list,
        profile_id: &profile_id,
        transaction_type: &transaction_type,
    }
    .update_merchant_default_config()
}

#[test]
fn new_account_joins_both_default_lists() {
    let old = choice(Connector::Adyen, "mca_old");
    let new = choice(Connector::Stripe, "mca_new");
    let writes = writes_for(
        Some(routable(Connector::Stripe)),
        vec![old.duplicate()],
        vec![],
        TransactionType::Payment,
    );
    assert_eq!(
        writes,
        vec![
            DefaultConfigWrite {
                owner: "merchant_1".to_string(),
                transaction_type: TransactionType::Payment,
                replaces: vec![old.duplicate()],
                connectors: vec![old.duplicate(), new.duplicate()],
            },
            DefaultConfigWrite {
                owner: "pro_1".to_string(),
                transaction_type: TransactionType::Payment,
                replaces: vec![],
                connectors: vec![new.duplicate()],
            },
        ]
    );
}

#[test]
fn lists_that_hold_the_account_are_not_written() {
    let new = choice(Connector::Stripe, "mca_new");
    let r = Some(routable(Connector::Stripe));
    assert_eq!(
        writes_for(r, vec![new.duplicate()], vec![new.duplicate()], TransactionType::Payout),
        vec![]
    );
    assert_eq!(
        writes_for(r, vec![new.duplicate()], vec![], TransactionType::Payout),
        vec![DefaultConfigWrite {
            owner: "pro_1".to_string(),
            transaction_type: TransactionType::Payout,
            replaces: vec![],
            connectors: vec![new.duplicate()],
        }]
    );
    assert_eq!(
        writes_for(r, vec![], vec![new.duplicate()], TransactionType::Payment),
        vec![DefaultConfigWrite {
            owner: "merchant_1".to_string(),
            transaction_type: TransactionType::Payment,
            replaces: vec![],
            connectors: vec![new.duplicate()],
        }]
    );
}

#[test]
fn second_registration_writes_nothing() {
    let r = Some(routable(Connector::Stripe));
    let first = writes_for(r, vec![choice(Connector::Aci, "a")], vec![], TransactionType::Payment);
    assert_eq!(first.len(), 2);
    let second = writes_for(
        r,
        duplicate_choices(&first[0].connectors),
        duplicate_choices(&first[1].connectors),
        TransactionType::Payment,
    );
    assert_eq!(second, vec![]);
}

#[test]
fn account_without_routing_identity_joins_no_list() {
    assert_eq!(writes_for(None, vec![], vec![], TransactionType::Payment), vec![]);
}

#[test]
fn payout_processors_join_the_payout_lists() {
    assert_eq!(ConnectorType::PayoutProcessor.get_transaction_type(), TransactionType::Payout);
    for connector_type in all_types() {
        if connector_type != ConnectorType::PayoutProcessor {
            assert_eq!(connector_type.get_transaction_type(), TransactionType::Payment);
        }
    }
}
