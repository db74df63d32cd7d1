//! The closed sets this library dispatches on: connectors, connector types,
//! connector status, transaction types and storage schemes.

use vstd::prelude::*;
use vstd::string::StringExecFns;

verus! {

/// Storage back-end a merchant account is served from.
#[derive(Clone, Copy, Debug, PartialEq, Eq, Structural)]
pub enum MerchantStorageScheme {
    PostgresOnly,
    RedisKv,
}

/// Whether a connector account may be used.
#[derive(Clone, Copy, Debug, PartialEq, Eq, Structural)]
pub enum ConnectorStatus {
    Inactive,
    Active,
}

/// What a connector account is used for.
#[derive(Clone, Copy, Debug, PartialEq, Eq, Structural)]
pub enum ConnectorType {
    PaymentProcessor,
    PaymentVas,
    FinOperations,
    FraudRiskManagement,
    Networks,
    BankingEntities,
    NonBankingFinance,
    PayoutProcessor,
    PaymentMethodAuth,
    AuthenticationProcessor,
}

/// Kind of transaction a routing list is kept for.
#[derive(Clone, Copy, Debug, PartialEq, Eq, Structural)]
pub enum TransactionType {
    Payment,
    Payout,
}

/// The transaction type served by a connector account of the given type:
/// payouts for payout processors, payments for every other type.
pub open spec fn transaction_type_of(connector_type: ConnectorType) -> TransactionType {
    if connector_type == ConnectorType::PayoutProcessor {
        TransactionType::Payout
    } else {
        TransactionType::Payment
    }
}

impl ConnectorType {
    /// The transaction type whose routing lists an account of this type joins.
    pub fn get_transaction_type(&self) -> (t: TransactionType)
        ensures
            t == transaction_type_of(*self),
    {
        match self {
            ConnectorType::PayoutProcessor => TransactionType::Payout,
            _ => TransactionType::Payment,
        }
    }
}

/// Every connector this library knows.
#[derive(Clone, Copy, Debug, PartialEq, Eq, Hash, Structural)]
pub enum Connector {
    Adyenplatform,
    DummyConnector1,
    DummyConnector2,
    DummyConnector3,
    DummyConnector4,
    DummyConnector5,
    DummyConnector6,
    DummyConnector7,
    Aci,
    Adyen,
    Airwallex,
    Authorizedotnet,
    Bambora,
    Bamboraapac,
    Bankofamerica,
    Billwerk,
    Bitpay,
    Bluesnap,
    Boku,
    Braintree,
    Cashtocode,
    Checkout,
    Coinbase,
    Cryptopay,
    Cybersource,
    Datatrans,
    Dlocal,
    Ebanx,
    Fiserv,
    Forte,
    Globalpay,
    Globepay,
    Gocardless,
    Gpayments,
    Helcim,
    Iatapay,
    Itaubank,
    Klarna,
    Mifinity,
    Mollie,
    Multisafepay,
    Netcetera,
    Nexinets,
    Nmi,
    Noon,
    Nuvei,
    Opennode,
    Paybox,
    Payme,
    Payone,
    Paypal,
    Payu,
    Placetopay,
    Powertranz,
    Prophetpay,
    Rapyd,
    Razorpay,
    Shift4,
    Square,
    Stax,
    Stripe,
    Threedsecureio,
    Trustpay,
    Tsys,
    Volt,
    Wellsfargo,
    Wise,
    Worldline,
    Worldpay,
    Signifyd,
    Plaid,
    Riskified,
    Zen,
    Zsl,
}

/// The name under which a connector is written in requests and records.
pub open spec fn connector_name(connector: Connector) -> Seq<char> {
    match connector {
        Connector::Adyenplatform => "adyenplatform"@,
        Connector::DummyConnector1 => "phonypay"@,
        Connector::DummyConnector2 => "fauxpay"@,
        Connector::DummyConnector3 => "pretendpay"@,
        Connector::DummyConnector4 => "stripe_test"@,
        Connector::DummyConnector5 => "adyen_test"@,
        Connector::DummyConnector6 => "checkout_test"@,
        Connector::DummyConnector7 => "paypal_test"@,
        Connector::Aci => "aci"@,
        Connector::Adyen => "adyen"@,
        Connector::Airwallex => "airwallex"@,
        Connector::Authorizedotnet => "authorizedotnet"@,
        Connector::Bambora => "bambora"@,
        Connector::Bamboraapac => "bamboraapac"@,
        Connector::Bankofamerica => "bankofamerica"@,
        Connector::Billwerk => "billwerk"@,
        Connector::Bitpay => "bitpay"@,
        Connector::Bluesnap => "bluesnap"@,
        Connector::Boku => "boku"@,
        Connector::Braintree => "braintree"@,
        Connector::Cashtocode => "cashtocode"@,
        Connector::Checkout => "checkout"@,
        Connector::Coinbase => "coinbase"@,
        Connector::Cryptopay => "cryptopay"@,
        Connector::Cybersource => "cybersource"@,
        Connector::Datatrans => "datatrans"@,
        Connector::Dlocal => "dlocal"@,
        Connector::Ebanx => "ebanx"@,
        Connector::Fiserv => "fiserv"@,
        Connector::Forte => "forte"@,
        Connector::Globalpay => "globalpay"@,
        Connector::Globepay => "globepay"@,
        Connector::Gocardless => "gocardless"@,
        Connector::Gpayments => "gpayments"@,
        Connector::Helcim => "helcim"@,
        Connector::Iatapay => "iatapay"@,
        Connector::Itaubank => "itaubank"@,
        Connector::Klarna => "klarna"@,
        Connector::Mifinity => "mifinity"@,
        Connector::Mollie => "mollie"@,
        Connector::Multisafepay => "multisafepay"@,
        Connector::Netcetera => "netcetera"@,
        Connector::Nexinets => "nexinets"@,
        Connector::Nmi => "nmi"@,
        Connector::Noon => "noon"@,
        Connector::Nuvei => "nuvei"@,
        Connector::Opennode => "opennode"@,
        Connector::Paybox => "paybox"@,
        Connector::Payme => "payme"@,
        Connector::Payone => "payone"@,
        Connector::Paypal => "paypal"@,
        Connector::Payu => "payu"@,
        Connector::Placetopay => "placetopay"@,
        Connector::Powertranz => "powertranz"@,
        Connector::Prophetpay => "prophetpay"@,
        Connector::Rapyd => "rapyd"@,
        Connector::Razorpay => "razorpay"@,
        Connector::Shift4 => "shift4"@,
        Connector::Square => "square"@,
        Connector::Stax => "stax"@,
        Connector::Stripe => "stripe"@,
        Connector::Threedsecureio => "threedsecureio"@,
        Connector::Trustpay => "trustpay"@,
        Connector::Tsys => "tsys"@,
        Connector::Volt => "volt"@,
        Connector::Wellsfargo => "wellsfargo"@,
        Connector::Wise => "wise"@,
        Connector::Worldline => "worldline"@,
        Connector::Worldpay => "worldpay"@,
        Connector::Signifyd => "signifyd"@,
        Connector::Plaid => "plaid"@,
        Connector::Riskified => "riskified"@,
        Connector::Zen => "zen"@,
        Connector::Zsl => "zsl"@,
    }
}

/// All connectors, each once, in the order of their declaration.
pub open spec fn all_connectors() -> Seq<Connector> {
    seq![
        Connector::Adyenplatform, Connector::DummyConnector1, Connector::DummyConnector2,
        Connector::DummyConnector3, Connector::DummyConnector4, Connector::DummyConnector5,
        Connector::DummyConnector6, Connector::DummyConnector7, Connector::Aci,
        Connector::Adyen, Connector::Airwallex, Connector::Authorizedotnet, Connector::Bambora,
        Connector::Bamboraapac, Connector::Bankofamerica, Connector::Billwerk,
        Connector::Bitpay, Connector::Bluesnap, Connector::Boku, Connector::Braintree,
        Connector::Cashtocode, Connector::Checkout, Connector::Coinbase, Connector::Cryptopay,
        Connector::Cybersource, Connector::Datatrans, Connector::Dlocal, Connector::Ebanx,
        Connector::Fiserv, Connector::Forte, Connector::Globalpay, Connector::Globepay,
        Connector::Gocardless, Connector::Gpayments, Connector::Helcim, Connector::Iatapay,
        Connector::Itaubank, Connector::Klarna, Connector::Mifinity, Connector::Mollie,
        Connector::Multisafepay, Connector::Netcetera, Connector::Nexinets, Connector::Nmi,
        Connector::Noon, Connector::Nuvei, Connector::Opennode, Connector::Paybox,
        Connector::Payme, Connector::Payone, Connector::Paypal, Connector::Payu,
        Connector::Placetopay, Connector::Powertranz, Connector::Prophetpay, Connector::Rapyd,
        Connector::Razorpay, Connector::Shift4, Connector::Square, Connector::Stax,
        Connector::Stripe, Connector::Threedsecureio, Connector::Trustpay, Connector::Tsys,
        Connector::Volt, Connector::Wellsfargo, Connector::Wise, Connector::Worldline,
        Connector::Worldpay, Connector::Signifyd, Connector::Plaid, Connector::Riskified,
        Connector::Zen, Connector::Zsl,
    ]
}

/// The place of a connector in [`all_connectors`].
pub open spec fn connector_index(connector: Connector) -> int {
    match connector {
        Connector::Adyenplatform => 0,
        Connector::DummyConnector1 => 1,
        Connector::DummyConnector2 => 2,
        Connector::DummyConnector3 => 3,
        Connector::DummyConnector4 => 4,
        Connector::DummyConnector5 => 5,
        Connector::DummyConnector6 => 6,
        Connector::DummyConnector7 => 7,
        Connector::Aci => 8,
        Connector::Adyen => 9,
        Connector::Airwallex => 10,
        Connector::Authorizedotnet => 11,
        Connector::Bambora => 12,
        Connector::Bamboraapac => 13,
        Connector::Bankofamerica => 14,
        Connector::Billwerk => 15,
        Connector::Bitpay => 16,
        Connector::Bluesnap => 17,
        Connector::Boku => 18,
        Connector::Braintree => 19,
        Connector::Cashtocode => 20,
        Connector::Checkout => 21,
        Connector::Coinbase => 22,
        Connector::Cryptopay => 23,
        Connector::Cybersource => 24,
        Connector::Datatrans => 25,
        Connector::Dlocal => 26,
        Connector::Ebanx => 27,
        Connector::Fiserv => 28,
        Connector::Forte => 29,
        Connector::Globalpay => 30,
        Connector::Globepay => 31,
        Connector::Gocardless => 32,
        Connector::Gpayments => 33,
        Connector::Helcim => 34,
        Connector::Iatapay => 35,
        Connector::Itaubank => 36,
        Connector::Klarna => 37,
        Connector::Mifinity => 38,
        Connector::Mollie => 39,
        Connector::Multisafepay => 40,
        Connector::Netcetera => 41,
        Connector::Nexinets => 42,
        Connector::Nmi => 43,
        Connector::Noon => 44,
        Connector::Nuvei => 45,
        Connector::Opennode => 46,
        Connector::Paybox => 47,
        Connector::Payme => 48,
        Connector::Payone => 49,
        Connector::Paypal => 50,
        Connector::Payu => 51,
        Connector::Placetopay => 52,
        Connector::Powertranz => 53,
        Connector::Prophetpay => 54,
        Connector::Rapyd => 55,
        Connector::Razorpay => 56,
        Connector::Shift4 => 57,
        Connector::Square => 58,
        Connector::Stax => 59,
        Connector::Stripe => 60,
        Connector::Threedsecureio => 61,
        Connector::Trustpay => 62,
        Connector::Tsys => 63,
        Connector::Volt => 64,
        Connector::Wellsfargo => 65,
        Connector::Wise => 66,
        Connector::Worldline => 67,
        Connector::Worldpay => 68,
        Connector::Signifyd => 69,
        Connector::Plaid => 70,
        Connector::Riskified => 71,
        Connector::Zen => 72,
        Connector::Zsl => 73,
    }
}

/// No connector is missing from [`all_connectors`]: each stands at its index.
pub proof fn lemma_all_connectors_complete(connector: Connector)
    ensures
        0 <= connector_index(connector) < all_connectors().len(),
        all_connectors()[connector_index(connector)] == connector,
{
}

/// No two connectors have the same name. The names differ already in
/// their length and their second and fourth characters.
pub proof fn lemma_connector_names_distinct(a: Connector, b: Connector)
    requires
        connector_name(a) == connector_name(b),
    ensures
        a == b,
{
    reveal_strlit("adyenplatform");
    reveal_strlit("phonypay");
    reveal_strlit("fauxpay");
    reveal_strlit("pretendpay");
    reveal_strlit("stripe_test");
    reveal_strlit("adyen_test");
    reveal_strlit("checkout_test");
    reveal_strlit("paypal_test");
    reveal_strlit("aci");
    reveal_strlit("adyen");
    reveal_strlit("airwallex");
    reveal_strlit("authorizedotnet");
    reveal_strlit("bambora");
    reveal_strlit("bamboraapac");
    reveal_strlit("bankofamerica");
    reveal_strlit("billwerk");
    reveal_strlit("bitpay");
    reveal_strlit("bluesnap");
    reveal_strlit("boku");
    reveal_strlit("braintree");
    reveal_strlit("cashtocode");
    reveal_strlit("checkout");
    reveal_strlit("coinbase");
    reveal_strlit("cryptopay");
    reveal_strlit("cybersource");
    reveal_strlit("datatrans");
    reveal_strlit("dlocal");
    reveal_strlit("ebanx");
    reveal_strlit("fiserv");
    reveal_strlit("forte");
    reveal_strlit("globalpay");
    reveal_strlit("globepay");
    reveal_strlit("gocardless");
    reveal_strlit("gpayments");
    reveal_strlit("helcim");
    reveal_strlit("iatapay");
    reveal_strlit("itaubank");
    reveal_strlit("klarna");
    reveal_strlit("mifinity");
    reveal_strlit("mollie");
    reveal_strlit("multisafepay");
    reveal_strlit("netcetera");
    reveal_strlit("nexinets");
    reveal_strlit("nmi");
    reveal_strlit("noon");
    reveal_strlit("nuvei");
    reveal_strlit("opennode");
    reveal_strlit("paybox");
    reveal_strlit("payme");
    reveal_strlit("payone");
    reveal_strlit("paypal");
    reveal_strlit("payu");
    reveal_strlit("placetopay");
    reveal_strlit("powertranz");
    reveal_strlit("prophetpay");
    reveal_strlit("rapyd");
    reveal_strlit("razorpay");
    reveal_strlit("shift4");
    reveal_strlit("square");
    reveal_strlit("stax");
    reveal_strlit("stripe");
    reveal_strlit("threedsecureio");
    reveal_strlit("trustpay");
    reveal_strlit("tsys");
    reveal_strlit("volt");
    reveal_strlit("wellsfargo");
    reveal_strlit("wise");
    reveal_strlit("worldline");
    reveal_strlit("worldpay");
    reveal_strlit("signifyd");
    reveal_strlit("plaid");
    reveal_strlit("riskified");
    reveal_strlit("zen");
    reveal_strlit("zsl");
    let name = connector_name(b);
    match a {
        Connector::Adyenplatform => assert(name.len() == 13 && name[1] == 'd' && name[3] == 'e'),
        Connector::DummyConnector1 => assert(name.len() == 8 && name[1] == 'h' && name[3] == 'n'),
        Connector::DummyConnector2 => assert(name.len() == 7 && name[1] == 'a' && name[3] == 'x'),
        Connector::DummyConnector3 => assert(name.len() == 10 && name[1] == 'r' && name[3] == 't'),
        Connector::DummyConnector4 => assert(name.len() == 11 && name[1] == 't' && name[3] == 'i'),
        Connector::DummyConnector5 => assert(name.len() == 10 && name[1] == 'd' && name[3] == 'e'),
        Connector::DummyConnector6 => assert(name.len() == 13 && name[1] == 'h' && name[3] == 'c'),
        Connector::DummyConnector7 => assert(name.len() == 11 && name[1] == 'a' && name[3] == 'p'),
        Connector::Aci => assert(name.len() == 3 && name[1] == 'c'),
        Connector::Adyen => assert(name.len() == 5 && name[1] == 'd' && name[3] == 'e'),
        Connector::Airwallex => assert(name.len() == 9 && name[1] == 'i' && name[3] == 'w'),
        Connector::Authorizedotnet => assert(name.len() == 15 && name[1] == 'u' && name[3] == 'h'),
        Connector::Bambora => assert(name.len() == 7 && name[1] == 'a' && name[3] == 'b'),
        Connector::Bamboraapac => assert(name.len() == 11 && name[1] == 'a' && name[3] == 'b'),
        Connector::Bankofamerica => assert(name.len() == 13 && name[1] == 'a' && name[3] == 'k'),
        Connector::Billwerk => assert(name.len() == 8 && name[1] == 'i' && name[3] == 'l'),
        Connector::Bitpay => assert(name.len() == 6 && name[1] == 'i' && name[3] == 'p'),
        Connector::Bluesnap => assert(name.len() == 8 && name[1] == 'l' && name[3] == 'e'),
        Connector::Boku => assert(name.len() == 4 && name[1] == 'o' && name[3] == 'u'),
        Connector::Braintree => assert(name.len() == 9 && name[1] == 'r' && name[3] == 'i'),
        Connector::Cashtocode => assert(name.len() == 10 && name[1] == 'a' && name[3] == 'h'),
        Connector::Checkout => assert(name.len() == 8 && name[1] == 'h' && name[3] == 'c'),
        Connector::Coinbase => assert(name.len() == 8 && name[1] == 'o' && name[3] == 'n'),
        Connector::Cryptopay => assert(name.len() == 9 && name[1] == 'r' && name[3] == 'p'),
        Connector::Cybersource => assert(name.len() == 11 && name[1] == 'y' && name[3] == 'e'),
        Connector::Datatrans => assert(name.len() == 9 && name[1] == 'a' && name[3] == 'a'),
        Connector::Dlocal => assert(name.len() == 6 && name[1] == 'l' && name[3] == 'c'),
        Connector::Ebanx => assert(name.len() == 5 && name[1] == 'b' && name[3] == 'n'),
        Connector::Fiserv => assert(name.len() == 6 && name[1] == 'i' && name[3] == 'e'),
        Connector::Forte => assert(name.len() == 5 && name[1] == 'o' && name[3] == 't'),
        Connector::Globalpay => assert(name.len() == 9 && name[1] == 'l' && name[3] == 'b'),
        Connector::Globepay => assert(name.len() == 8 && name[1] == 'l' && name[3] == 'b'),
        Connector::Gocardless => assert(name.len() == 10 && name[1] == 'o' && name[3] == 'a'),
        Connector::Gpayments => assert(name.len() == 9 && name[1] == 'p' && name[3] == 'y'),
        Connector::Helcim => assert(name.len() == 6 && name[1] == 'e' && name[3] == 'c'),
        Connector::Iatapay => assert(name.len() == 7 && name[1] == 'a' && name[3] == 'a'),
        Connector::Itaubank => assert(name.len() == 8 && name[1] == 't' && name[3] == 'u'),
        Connector::Klarna => assert(name.len() == 6 && name[1] == 'l' && name[3] == 'r'),
        Connector::Mifinity => assert(name.len() == 8 && name[1] == 'i' && name[3] == 'i'),
        Connector::Mollie => assert(name.len() == 6 && name[1] == 'o' && name[3] == 'l'),
        Connector::Multisafepay => assert(name.len() == 12 && name[1] == 'u' && name[3] == 't'),
        Connector::Netcetera => assert(name.len() == 9 && name[1] == 'e' && name[3] == 'c'),
        Connector::Nexinets => assert(name.len() == 8 && name[1] == 'e' && name[3] == 'i'),
        Connector::Nmi => assert(name.len() == 3 && name[1] == 'm'),
        Connector::Noon => assert(name.len() == 4 && name[1] == 'o' && name[3] == 'n'),
        Connector::Nuvei => assert(name.len() == 5 && name[1] == 'u' && name[3] == 'e'),
        Connector::Opennode => assert(name.len() == 8 && name[1] == 'p' && name[3] == 'n'),
        Connector::Paybox => assert(name.len() == 6 && name[1] == 'a' && name[3] == 'b'),
        Connector::Payme => assert(name.len() == 5 && name[1] == 'a' && name[3] == 'm'),
        Connector::Payone => assert(name.len() == 6 && name[1] == 'a' && name[3] == 'o'),
        Connector::Paypal => assert(name.len() == 6 && name[1] == 'a' && name[3] == 'p'),
        Connector::Payu => assert(name.len() == 4 && name[1] == 'a' && name[3] == 'u'),
        Connector::Placetopay => assert(name.len() == 10 && name[1] == 'l' && name[3] == 'c'),
        Connector::Powertranz => assert(name.len() == 10 && name[1] == 'o' && name[3] == 'e'),
        Connector::Prophetpay => assert(name.len() == 10 && name[1] == 'r' && name[3] == 'p'),
        Connector::Rapyd => assert(name.len() == 5 && name[1] == 'a' && name[3] == 'y'),
        Connector::Razorpay => assert(name.len() == 8 && name[1] == 'a' && name[3] == 'o'),
        Connector::Shift4 => assert(name.len() == 6 && name[1] == 'h' && name[3] == 'f'),
        Connector::Square => assert(name.len() == 6 && name[1] == 'q' && name[3] == 'a'),
        Connector::Stax => assert(name.len() == 4 && name[1] == 't' && name[3] == 'x'),
        Connector::Stripe => assert(name.len() == 6 && name[1] == 't' && name[3] == 'i'),
        Connector::Threedsecureio => assert(name.len() == 14 && name[1] == 'h' && name[3] == 'e'),
        Connector::Trustpay => assert(name.len() == 8 && name[1] == 'r' && name[3] == 's'),
        Connector::Tsys => assert(name.len() == 4 && name[1] == 's' && name[3] == 's'),
        Connector::Volt => assert(name.len() == 4 && name[1] == 'o' && name[3] == 't'),
        Connector::Wellsfargo => assert(name.len() == 10 && name[1] == 'e' && name[3] == 'l'),
        Connector::Wise => assert(name.len() == 4 && name[1] == 'i' && name[3] == 'e'),
        Connector::Worldline => assert(name.len() == 9 && name[1] == 'o' && name[3] == 'l'),
        Connector::Worldpay => assert(name.len() == 8 && name[1] == 'o' && name[3] == 'l'),
        Connector::Signifyd => assert(name.len() == 8 && name[1] == 'i' && name[3] == 'n'),
        Connector::Plaid => assert(name.len() == 5 && name[1] == 'l' && name[3] == 'i'),
        Connector::Riskified => assert(name.len() == 9 && name[1] == 'i' && name[3] == 'k'),
        Connector::Zen => assert(name.len() == 3 && name[1] == 'e'),
        Connector::Zsl => assert(name.len() == 3 && name[1] == 's'),
    }
}

/// The test connectors, which a deployment may switch off.
pub open spec fn is_dummy_connector(connector: Connector) -> bool {
    connector == Connector::DummyConnector1 || connector == Connector::DummyConnector2
        || connector == Connector::DummyConnector3 || connector == Connector::DummyConnector4
        || connector == Connector::DummyConnector5 || connector == Connector::DummyConnector6
        || connector == Connector::DummyConnector7
}

/// The connectors that verify bank accounts for payment methods.
pub open spec fn is_pm_auth_connector(connector: Connector) -> bool {
    connector == Connector::Plaid
}

/// The connectors that run payer authentication.
pub open spec fn is_authentication_connector(connector: Connector) -> bool {
    connector == Connector::Threedsecureio || connector == Connector::Netcetera || connector
        == Connector::Gpayments
}

/// The connectors a transaction can be routed to: all but those that only
/// run payer authentication.
pub open spec fn is_routable(connector: Connector) -> bool {
    !is_authentication_connector(connector)
}

impl Connector {
    /// The name of the connector.
    pub fn to_string(&self) -> (name: String)
        ensures
            name@ == connector_name(*self),
    {
        match self {
            Connector::Adyenplatform => String::from_str("adyenplatform"),
            Connector::DummyConnector1 => String::from_str("phonypay"),
            Connector::DummyConnector2 => String::from_str("fauxpay"),
            Connector::DummyConnector3 => String::from_str("pretendpay"),
            Connector::DummyConnector4 => String::from_str("stripe_test"),
            Connector::DummyConnector5 => String::from_str("adyen_test"),
            Connector::DummyConnector6 => String::from_str("checkout_test"),
            Connector::DummyConnector7 => String::from_str("paypal_test"),
            Connector::Aci => String::from_str("aci"),
            Connector::Adyen => String::from_str("adyen"),
            Connector::Airwallex => String::from_str("airwallex"),
            Connector::Authorizedotnet => String::from_str("authorizedotnet"),
            Connector::Bambora => String::from_str("bambora"),
            Connector::Bamboraapac => String::from_str("bamboraapac"),
            Connector::Bankofamerica => String::from_str("bankofamerica"),
            Connector::Billwerk => String::from_str("billwerk"),
            Connector::Bitpay => String::from_str("bitpay"),
            Connector::Bluesnap => String::from_str("bluesnap"),
            Connector::Boku => String::from_str("boku"),
            Connector::Braintree => String::from_str("braintree"),
            Connector::Cashtocode => String::from_str("cashtocode"),
            Connector::Checkout => String::from_str("checkout"),
            Connector::Coinbase => String::from_str("coinbase"),
            Connector::Cryptopay => String::from_str("cryptopay"),
            Connector::Cybersource => String::from_str("cybersource"),
            Connector::Datatrans => String::from_str("datatrans"),
            Connector::Dlocal => String::from_str("dlocal"),
            Connector::Ebanx => String::from_str("ebanx"),
            Connector::Fiserv => String::from_str("fiserv"),
            Connector::Forte => String::from_str("forte"),
            Connector::Globalpay => String::from_str("globalpay"),
            Connector::Globepay => String::from_str("globepay"),
            Connector::Gocardless => String::from_str("gocardless"),
            Connector::Gpayments => String::from_str("gpayments"),
            Connector::Helcim => String::from_str("helcim"),
            Connector::Iatapay => String::from_str("iatapay"),
            Connector::Itaubank => String::from_str("itaubank"),
            Connector::Klarna => String::from_str("klarna"),
            Connector::Mifinity => String::from_str("mifinity"),
            Connector::Mollie => String::from_str("mollie"),
            Connector::Multisafepay => String::from_str("multisafepay"),
            Connector::Netcetera => String::from_str("netcetera"),
            Connector::Nexinets => String::from_str("nexinets"),
            Connector::Nmi => String::from_str("nmi"),
            Connector::Noon => String::from_str("noon"),
            Connector::Nuvei => String::from_str("nuvei"),
            Connector::Opennode => String::from_str("opennode"),
            Connector::Paybox => String::from_str("paybox"),
            Connector::Payme => String::from_str("payme"),
            Connector::Payone => String::from_str("payone"),
            Connector::Paypal => String::from_str("paypal"),
            Connector::Payu => String::from_str("payu"),
            Connector::Placetopay => String::from_str("placetopay"),
            Connector::Powertranz => String::from_str("powertranz"),
            Connector::Prophetpay => String::from_str("prophetpay"),
            Connector::Rapyd => String::from_str("rapyd"),
            Connector::Razorpay => String::from_str("razorpay"),
            Connector::Shift4 => String::from_str("shift4"),
            Connector::Square => String::from_str("square"),
            Connector::Stax => String::from_str("stax"),
            Connector::Stripe => String::from_str("stripe"),
            Connector::Threedsecureio => String::from_str("threedsecureio"),
            Connector::Trustpay => String::from_str("trustpay"),
            Connector::Tsys => String::from_str("tsys"),
            Connector::Volt => String::from_str("volt"),
            Connector::Wellsfargo => String::from_str("wellsfargo"),
            Connector::Wise => String::from_str("wise"),
            Connector::Worldline => String::from_str("worldline"),
            Connector::Worldpay => String::from_str("worldpay"),
            Connector::Signifyd => String::from_str("signifyd"),
            Connector::Plaid => String::from_str("plaid"),
            Connector::Riskified => String::from_str("riskified"),
            Connector::Zen => String::from_str("zen"),
            Connector::Zsl => String::from_str("zsl"),
        }
    }

    /// All connectors, each once.
    pub fn all() -> (list: Vec<Connector>)
        ensures
            list@ == all_connectors(),
    {
        vec![
            Connector::Adyenplatform, Connector::DummyConnector1, Connector::DummyConnector2,
            Connector::DummyConnector3, Connector::DummyConnector4, Connector::DummyConnector5,
            Connector::DummyConnector6, Connector::DummyConnector7, Connector::Aci,
            Connector::Adyen, Connector::Airwallex, Connector::Authorizedotnet,
            Connector::Bambora, Connector::Bamboraapac, Connector::Bankofamerica,
            Connector::Billwerk, Connector::Bitpay, Connector::Bluesnap, Connector::Boku,
            Connector::Braintree, Connector::Cashtocode, Connector::Checkout,
            Connector::Coinbase, Connector::Cryptopay, Connector::Cybersource,
            Connector::Datatrans, Connector::Dlocal, Connector::Ebanx, Connector::Fiserv,
            Connector::Forte, Connector::Globalpay, Connector::Globepay, Connector::Gocardless,
            Connector::Gpayments, Connector::Helcim, Connector::Iatapay, Connector::Itaubank,
            Connector::Klarna, Connector::Mifinity, Connector::Mollie, Connector::Multisafepay,
            Connector::Netcetera, Connector::Nexinets, Connector::Nmi, Connector::Noon,
            Connector::Nuvei, Connector::Opennode, Connector::Paybox, Connector::Payme,
            Connector::Payone, Connector::Paypal, Connector::Payu, Connector::Placetopay,
            Connector::Powertranz, Connector::Prophetpay, Connector::Rapyd,
            Connector::Razorpay, Connector::Shift4, Connector::Square, Connector::Stax,
            Connector::Stripe, Connector::Threedsecureio, Connector::Trustpay, Connector::Tsys,
            Connector::Volt, Connector::Wellsfargo, Connector::Wise, Connector::Worldline,
            Connector::Worldpay, Connector::Signifyd, Connector::Plaid, Connector::Riskified,
            Connector::Zen, Connector::Zsl,
        ]
    }

    /// Finds the connector with the given name: the one connector that has
    /// it, or `None` where no connector has.
    pub fn from_str(name: &str) -> (found: Option<Connector>)
        ensures
            match found {
                Some(connector) => connector_name(connector) == name@,
                None => forall|connector: Connector| connector_name(connector) != name@,
            },
            forall|connector: Connector|
                connector_name(connector) == name@ ==> found == Some(connector),
    {
        let wanted = String::from_str(name);
        let list = Connector::all();
        let mut i: usize = 0;
        while i < list.len()
            invariant
                i <= list.len(),
                list@ == all_connectors(),
                wanted@ == name@,
                forall|j: int| 0 <= j < i ==> connector_name(#[trigger] list@[j]) != name@,
            decreases list.len() - i,
        {
            let candidate = list[i];
            if candidate.to_string() == wanted {
                proof {
                    assert forall|connector: Connector|
                        connector_name(connector) == name@ implies connector == candidate by {
                        lemma_connector_names_distinct(connector, candidate);
                    }
                }
                return Some(candidate);
            }
            i += 1;
        }
        proof {
            assert forall|connector: Connector| connector_name(connector) != name@ by {
                lemma_all_connectors_complete(connector);
                assert(list@[connector_index(connector)] == connector);
            }
        }
        None
    }

    /// Whether this is one of the test connectors.
    pub fn is_dummy(&self) -> (dummy: bool)
        ensures
            dummy == is_dummy_connector(*self),
    {
        match self {
            Connector::DummyConnector1
            | Connector::DummyConnector2
            | Connector::DummyConnector3
            | Connector::DummyConnector4
            | Connector::DummyConnector5
            | Connector::DummyConnector6
            | Connector::DummyConnector7 => true,
            _ => false,
        }
    }

    /// Whether the connector verifies bank accounts for payment methods.
    pub fn is_pm_auth(&self) -> (yes: bool)
        ensures
            yes == is_pm_auth_connector(*self),
    {
        match self {
            Connector::Plaid => true,
            _ => false,
        }
    }

    /// Whether the connector runs payer authentication.
    pub fn is_authentication(&self) -> (yes: bool)
        ensures
            yes == is_authentication_connector(*self),
    {
        match self {
            Connector::Threedsecureio | Connector::Netcetera | Connector::Gpayments => true,
            _ => false,
        }
    }
}

/// A connector that transactions can be routed to.
#[derive(Clone, Copy, Debug, PartialEq, Eq, Hash, Structural)]
pub struct RoutableConnectors {
    connector: Connector,
}

impl RoutableConnectors {
    /// The connector behind this routing identity.
    pub closed spec fn connector(self) -> Connector {
        self.connector
    }

    /// A routing identity always names a routable connector.
    pub closed spec fn wf(self) -> bool {
        is_routable(self.connector)
    }

    /// The routing identity of a connector, if it has one.
    pub fn from_connector(connector: Connector) -> (routable: Option<RoutableConnectors>)
        ensures
            routable is Some <==> is_routable(connector),
            routable matches Some(r) ==> r.connector() == connector && r.wf(),
    {
        if connector.is_authentication() {
            None
        } else {
            Some(RoutableConnectors { connector })
        }
    }

    /// The connector behind this routing identity.
    pub fn get_connector(&self) -> (connector: Connector)
        ensures
            connector == self.connector(),
    {
        self.connector
    }

    /// Two routing identities of one connector are the same identity.
    pub proof fn lemma_same_connector(a: RoutableConnectors, b: RoutableConnectors)
        requires
            a.connector() == b.connector(),
        ensures
            a == b,
    {
    }
}

} // verus!
