//! The rules of each connector: which forms of credentials it takes and
//! what its metadata must hold.

use vstd::prelude::*;
use vstd::string::StringExecFns;

use crate::auth::{
    fault_of, general_fault, identity_answer_possible, shape_of, AuthShape, ConnectorAuthType,
    ConnectorAuthTypeValidation,
};
use crate::certificate::{pem_pair_readable, CertificateAndCertificateKey};
use crate::enums::{connector_name, lemma_connector_names_distinct, Connector};
use crate::errors::{
    connector_error_response, connector_fault_message, invalid_request, ApiClientError, ApiError,
    ApiErrorResponse, ConnectorError, ConnectorFault,
};

verus! {

/// The kinds of value a metadata member can hold.
#[derive(Clone, Copy, Debug, PartialEq, Eq, Structural)]
pub enum MetadataKind {
    Null,
    Bool,
    Number,
    Text,
    List,
    Object,
}

/// One member of a metadata object: its name and the kind of its value.
#[derive(Clone, Debug, PartialEq, Eq)]
pub struct MetadataField {
    pub name: String,
    pub kind: MetadataKind,
}

/// The certificate and key for Apple Pay that metadata may carry, each as
/// base64 text of a PEM file.
#[derive(Clone, Debug, PartialEq, Eq)]
pub struct ApplePayCertificates {
    pub certificate: String,
    pub certificate_key: String,
}

/// What metadata says about Apple Pay sessions.
#[derive(Clone, Debug, PartialEq, Eq)]
pub enum ApplePayMetadata {
    /// The metadata has no session data for Apple Pay.
    Absent,
    /// The metadata cannot be read as connector metadata.
    Unreadable,
    /// The certificate and key of the session data.
    Certificates(ApplePayCertificates),
}

/// What this library reads of the metadata of a connector account: the
/// members of the metadata object, and the Apple Pay certificate with its
/// key where the metadata carries them.
#[derive(Clone, Debug, PartialEq, Eq)]
pub struct MetadataObject {
    pub fields: Vec<MetadataField>,
    pub apple_pay: ApplePayMetadata,
}

/// Whether the metadata has a member of that name whose value is text.
pub open spec fn has_text_field(metadata: MetadataObject, name: Seq<char>) -> bool {
    exists|i: int|
        0 <= i < metadata.fields@.len() && (#[trigger] metadata.fields@[i]).name@ == name
            && metadata.fields@[i].kind == MetadataKind::Text
}

/// The connectors that take a single API key.
pub open spec fn takes_header_key(connector: Connector) -> bool {
    connector == Connector::Adyenplatform || connector == Connector::DummyConnector1
        || connector == Connector::DummyConnector2 || connector == Connector::DummyConnector3
        || connector == Connector::DummyConnector4 || connector == Connector::DummyConnector5
        || connector == Connector::DummyConnector6 || connector == Connector::DummyConnector7
        || connector == Connector::Bitpay || connector == Connector::Coinbase
        || connector == Connector::Ebanx || connector == Connector::Gocardless
        || connector == Connector::Helcim || connector == Connector::Mifinity
        || connector == Connector::Mollie || connector == Connector::Multisafepay
        || connector == Connector::Nmi || connector == Connector::Opennode
        || connector == Connector::Shift4 || connector == Connector::Stax
        || connector == Connector::Stripe || connector == Connector::Threedsecureio
        || connector == Connector::Signifyd || connector == Connector::Zen
}

/// The connectors that take an API key with one more key.
pub open spec fn takes_body_key(connector: Connector) -> bool {
    connector == Connector::Aci || connector == Connector::Adyen
        || connector == Connector::Airwallex || connector == Connector::Authorizedotnet
        || connector == Connector::Bambora || connector == Connector::Billwerk
        || connector == Connector::Bluesnap || connector == Connector::Boku
        || connector == Connector::Cryptopay || connector == Connector::Datatrans
        || connector == Connector::Globalpay || connector == Connector::Globepay
        || connector == Connector::Itaubank || connector == Connector::Klarna
        || connector == Connector::Mollie || connector == Connector::Nexinets
        || connector == Connector::Nmi || connector == Connector::Payme
        || connector == Connector::Paypal || connector == Connector::Payu
        || connector == Connector::Placetopay || connector == Connector::Powertranz
        || connector == Connector::Prophetpay || connector == Connector::Rapyd
        || connector == Connector::Razorpay || connector == Connector::Square
        || connector == Connector::Wise || connector == Connector::Worldpay
        || connector == Connector::Plaid || connector == Connector::Riskified
        || connector == Connector::Zsl
}

/// The connectors that take an API key, one more key and a secret.
pub open spec fn takes_signature_key(connector: Connector) -> bool {
    connector == Connector::Adyen || connector == Connector::Bamboraapac
        || connector == Connector::Bankofamerica || connector == Connector::Braintree
        || connector == Connector::Checkout || connector == Connector::Cybersource
        || connector == Connector::Dlocal || connector == Connector::Fiserv
        || connector == Connector::Iatapay || connector == Connector::Noon
        || connector == Connector::Nuvei || connector == Connector::Paybox
        || connector == Connector::Payone || connector == Connector::Paypal
        || connector == Connector::Trustpay || connector == Connector::Tsys
        || connector == Connector::Wellsfargo || connector == Connector::Worldline
}

/// The connectors that take an API key, two more keys and a secret.
pub open spec fn takes_multi_auth_key(connector: Connector) -> bool {
    connector == Connector::Forte || connector == Connector::Itaubank
        || connector == Connector::Volt
}

/// The connectors that take credentials per currency.
pub open spec fn takes_currency_auth_key(connector: Connector) -> bool {
    connector == Connector::Cashtocode
}

/// The connectors that take a certificate with its private key.
pub open spec fn takes_certificate_auth(connector: Connector) -> bool {
    connector == Connector::Gpayments || connector == Connector::Netcetera
}

/// The connectors that take credentials that stand in until real ones arrive.
pub open spec fn takes_temporary_auth(connector: Connector) -> bool {
    connector == Connector::Paypal
}

/// Whether a connector takes credentials of a form. No connector takes a
/// payload without any key.
pub open spec fn accepts_auth_shape(connector: Connector, shape: AuthShape) -> bool {
    match shape {
        AuthShape::HeaderKey => takes_header_key(connector),
        AuthShape::BodyKey => takes_body_key(connector),
        AuthShape::SignatureKey => takes_signature_key(connector),
        AuthShape::MultiAuthKey => takes_multi_auth_key(connector),
        AuthShape::CurrencyAuthKey => takes_currency_auth_key(connector),
        AuthShape::CertificateAuth => takes_certificate_auth(connector),
        AuthShape::TemporaryAuth => takes_temporary_auth(connector),
        AuthShape::NoKey => false,
    }
}

/// The connectors that read their metadata, and so refuse an account without.
pub open spec fn validates_metadata(connector: Connector) -> bool {
    connector == Connector::Adyen || connector == Connector::Braintree
        || connector == Connector::Coinbase || connector == Connector::Fiserv
        || connector == Connector::Gpayments || connector == Connector::Klarna
        || connector == Connector::Mifinity || connector == Connector::Netcetera
}

/// The members that the metadata of a connector must hold as text.
pub open spec fn required_metadata_fields(connector: Connector) -> Seq<Seq<char>> {
    match connector {
        Connector::Braintree => seq!["merchant_account_id"@, "merchant_config_currency"@],
        Connector::Coinbase => seq!["pricing_type"@],
        Connector::Fiserv => seq!["terminal_id"@],
        Connector::Gpayments => seq!["endpoint_prefix"@],
        Connector::Mifinity => seq!["brand_id"@, "destination_account_number"@],
        Connector::Netcetera => seq!["endpoint_prefix"@],
        _ => seq![],
    }
}

/// Whether metadata holds every member of `required` as text.
pub open spec fn holds_all(metadata: MetadataObject, required: Seq<Seq<char>>) -> bool {
    forall|i: int| 0 <= i < required.len() ==> has_text_field(metadata, #[trigger] required[i])
}

/// Whether the metadata of an account meets its connector's rule: where the
/// connector reads metadata there is some, with every required member.
pub open spec fn metadata_accepted(
    connector: Connector,
    metadata: Option<MetadataObject>,
) -> bool {
    validates_metadata(connector) ==> metadata is Some && holds_all(
        metadata->0,
        required_metadata_fields(connector),
    )
}

/// The fault a connector's rule finds in credentials and metadata: the
/// credentials come first, then the metadata. `None` means that the rule is
/// met.
pub open spec fn connector_fault(
    connector: Connector,
    auth: ConnectorAuthType,
    metadata: Option<MetadataObject>,
) -> Option<ConnectorFault> {
    if !accepts_auth_shape(connector, shape_of(auth)) {
        Some(ConnectorFault::InvalidConnectorConfig { config: "connector_account_details"@ })
    } else if !metadata_accepted(connector, metadata) {
        Some(ConnectorFault::InvalidConnectorConfig { config: "metadata"@ })
    } else {
        None
    }
}

impl MetadataObject {
    /// Whether the metadata has a member of that name whose value is text.
    pub fn has_text(&self, name: &str) -> (found: bool)
        ensures
            found == has_text_field(*self, name@),
    {
        let wanted = String::from_str(name);
        let mut i: usize = 0;
        while i < self.fields.len()
            invariant
                i <= self.fields@.len(),
                wanted@ == name@,
                forall|j: int|
                    0 <= j < i ==> !((#[trigger] self.fields@[j]).name@ == name@
                        && self.fields@[j].kind == MetadataKind::Text),
            decreases self.fields@.len() - i,
        {
            let field = &self.fields[i];
            if field.name == wanted && field.kind == MetadataKind::Text {
                return true;
            }
            i += 1;
        }
        false
    }

    /// Whether the metadata holds every member of `required` as text.
    pub fn has_all_text(&self, required: &Vec<&str>) -> (all: bool)
        ensures
            all == holds_all(*self, required@.map_values(|name: &str| name@)),
    {
        let ghost names = required@.map_values(|name: &str| name@);
        let mut i: usize = 0;
        while i < required.len()
            invariant
                i <= required@.len(),
                names == required@.map_values(|name: &str| name@),
                forall|j: int| 0 <= j < i ==> has_text_field(*self, #[trigger] names[j]),
            decreases required@.len() - i,
        {
            if !self.has_text(required[i]) {
                assert(!has_text_field(*self, names[i as int]));
                return false;
            }
            i += 1;
        }
        true
    }
}

fn wrong_config(config: &str) -> (result: Result<(), ConnectorError>)
    ensures
        result matches Err(e) && e@ == (ConnectorFault::InvalidConnectorConfig {
            config: config@,
        }),
{
    Err(ConnectorError::InvalidConnectorConfig { config: String::from_str(config) })
}

/// A connector account's connector, credentials and metadata, to be held to
/// the rules.
pub struct ConnectorAuthTypeAndMetadataValidation<'a> {
    pub connector_name: &'a Connector,
    pub auth_type: &'a ConnectorAuthType,
    pub connector_meta_data: &'a Option<MetadataObject>,
}

impl<'a> ConnectorAuthTypeAndMetadataValidation<'a> {
    fn expect_auth(&self, accepted: bool) -> (result: Result<(), ConnectorError>)
        ensures
            accepted ==> result is Ok,
            !accepted ==> (result matches Err(e) && e@ == (ConnectorFault::InvalidConnectorConfig {
                config: "connector_account_details"@,
            })),
    {
        if accepted {
            Ok(())
        } else {
            wrong_config("connector_account_details")
        }
    }

    fn expect_metadata(&self, required: Vec<&str>) -> (result: Result<(), ConnectorError>)
        ensures
            result is Ok <==> self.connector_meta_data is Some && holds_all(
                self.connector_meta_data->0,
                required@.map_values(|name: &str| name@),
            ),
            result matches Err(e) ==> e@ == (ConnectorFault::InvalidConnectorConfig {
                config: "metadata"@,
            }),
    {
        match self.connector_meta_data {
            Some(metadata) => {
                if metadata.has_all_text(&required) {
                    Ok(())
                } else {
                    wrong_config("metadata")
                }
            },
            None => wrong_config("metadata"),
        }
    }

    /// Holds credentials and metadata to the rule of the connector. Every
    /// connector has its own arm. Credentials of a form that the connector
    /// does not take are refused as an invalid part of the configuration,
    /// whatever else holds; after them the metadata is looked at.
    pub fn validate_auth_and_metadata_type_with_connector(&self) -> (result: Result<
        (),
        ConnectorError,
    >)
        ensures
            match result {
                Ok(_) => connector_fault(
                    *self.connector_name,
                    *self.auth_type,
                    *self.connector_meta_data,
                ) is None,
                Err(e) => connector_fault(
                    *self.connector_name,
                    *self.auth_type,
                    *self.connector_meta_data,
                ) == Some(e@),
            },
    {
        let shape = self.auth_type.shape();
        match self.connector_name {
            Connector::Adyenplatform => self.expect_auth(shape == AuthShape::HeaderKey),
            Connector::DummyConnector1
            | Connector::DummyConnector2
            | Connector::DummyConnector3
            | Connector::DummyConnector4
            | Connector::DummyConnector5
            | Connector::DummyConnector6
            | Connector::DummyConnector7 => self.expect_auth(
                shape == AuthShape::HeaderKey,
            ),
            Connector::Aci => self.expect_auth(shape == AuthShape::BodyKey),
            Connector::Adyen => {
                self.expect_auth(shape == AuthShape::BodyKey || shape == AuthShape::SignatureKey)?;
                let required = Vec::new();
                proof {
                    assert(required@.map_values(|name: &str| name@) =~= required_metadata_fields(
                        *self.connector_name,
                    ));
                }
                self.expect_metadata(required)
            },
            Connector::Airwallex => self.expect_auth(shape == AuthShape::BodyKey),
            Connector::Authorizedotnet => self.expect_auth(shape == AuthShape::BodyKey),
            Connector::Bankofamerica => self.expect_auth(shape == AuthShape::SignatureKey),
            Connector::Billwerk => self.expect_auth(shape == AuthShape::BodyKey),
            Connector::Bitpay => self.expect_auth(shape == AuthShape::HeaderKey),
            Connector::Bambora => self.expect_auth(shape == AuthShape::BodyKey),
            Connector::Bamboraapac => self.expect_auth(shape == AuthShape::SignatureKey),
            Connector::Boku => self.expect_auth(shape == AuthShape::BodyKey),
            Connector::Bluesnap => self.expect_auth(shape == AuthShape::BodyKey),
            Connector::Braintree => {
                self.expect_auth(shape == AuthShape::SignatureKey)?;
                let required = vec!["merchant_account_id", "merchant_config_currency"];
                proof {
                    assert(required@.map_values(|name: &str| name@) =~= required_metadata_fields(
                        *self.connector_name,
                    ));
                }
                self.expect_metadata(required)
            },
            Connector::Cashtocode => self.expect_auth(shape == AuthShape::CurrencyAuthKey),
            Connector::Checkout => self.expect_auth(shape == AuthShape::SignatureKey),
            Connector::Coinbase => {
                self.expect_auth(shape == AuthShape::HeaderKey)?;
                let required = vec!["pricing_type"];
                proof {
                    assert(required@.map_values(|name: &str| name@) =~= required_metadata_fields(
                        *self.connector_name,
                    ));
                }
                self.expect_metadata(required)
            },
            Connector::Cryptopay => self.expect_auth(shape == AuthShape::BodyKey),
            Connector::Cybersource => self.expect_auth(shape == AuthShape::SignatureKey),
            Connector::Datatrans => self.expect_auth(shape == AuthShape::BodyKey),
            Connector::Dlocal => self.expect_auth(shape == AuthShape::SignatureKey),
            Connector::Ebanx => self.expect_auth(shape == AuthShape::HeaderKey),
            Connector::Fiserv => {
                self.expect_auth(shape == AuthShape::SignatureKey)?;
                let required = vec!["terminal_id"];
                proof {
                    assert(required@.map_values(|name: &str| name@) =~= required_metadata_fields(
                        *self.connector_name,
                    ));
                }
                self.expect_metadata(required)
            },
            Connector::Forte => self.expect_auth(shape == AuthShape::MultiAuthKey),
            Connector::Globalpay => self.expect_auth(shape == AuthShape::BodyKey),
            Connector::Globepay => self.expect_auth(shape == AuthShape::BodyKey),
            Connector::Gocardless => self.expect_auth(shape == AuthShape::HeaderKey),
            Connector::Gpayments => {
                self.expect_auth(shape == AuthShape::CertificateAuth)?;
                let required = vec!["endpoint_prefix"];
                proof {
                    assert(required@.map_values(|name: &str| name@) =~= required_metadata_fields(
                        *self.connector_name,
                    ));
                }
                self.expect_metadata(required)
            },
            Connector::Helcim => self.expect_auth(shape == AuthShape::HeaderKey),
            Connector::Iatapay => self.expect_auth(shape == AuthShape::SignatureKey),
            Connector::Itaubank => self.expect_auth(
                shape == AuthShape::MultiAuthKey || shape == AuthShape::BodyKey,
            ),
            Connector::Klarna => {
                self.expect_auth(shape == AuthShape::BodyKey)?;
                let required = Vec::new();
                proof {
                    assert(required@.map_values(|name: &str| name@) =~= required_metadata_fields(
                        *self.connector_name,
                    ));
                }
                self.expect_metadata(required)
            },
            Connector::Mifinity => {
                self.expect_auth(shape == AuthShape::HeaderKey)?;
                let required = vec!["brand_id", "destination_account_number"];
                proof {
                    assert(required@.map_values(|name: &str| name@) =~= required_metadata_fields(
                        *self.connector_name,
                    ));
                }
                self.expect_metadata(required)
            },
            Connector::Mollie => self.expect_auth(
                shape == AuthShape::BodyKey || shape == AuthShape::HeaderKey,
            ),
            Connector::Multisafepay => self.expect_auth(shape == AuthShape::HeaderKey),
            Connector::Netcetera => {
                self.expect_auth(shape == AuthShape::CertificateAuth)?;
                let required = vec!["endpoint_prefix"];
                proof {
                    assert(required@.map_values(|name: &str| name@) =~= required_metadata_fields(
                        *self.connector_name,
                    ));
                }
                self.expect_metadata(required)
            },
            Connector::Nexinets => self.expect_auth(shape == AuthShape::BodyKey),
            Connector::Nmi => self.expect_auth(
                shape == AuthShape::HeaderKey || shape == AuthShape::BodyKey,
            ),
            Connector::Noon => self.expect_auth(shape == AuthShape::SignatureKey),
            Connector::Nuvei => self.expect_auth(shape == AuthShape::SignatureKey),
            Connector::Opennode => self.expect_auth(shape == AuthShape::HeaderKey),
            Connector::Paybox => self.expect_auth(shape == AuthShape::SignatureKey),
            Connector::Payme => self.expect_auth(shape == AuthShape::BodyKey),
            Connector::Paypal => self.expect_auth(
                shape == AuthShape::BodyKey || shape == AuthShape::SignatureKey || shape == AuthShape::TemporaryAuth,
            ),
            Connector::Payone => self.expect_auth(shape == AuthShape::SignatureKey),
            Connector::Payu => self.expect_auth(shape == AuthShape::BodyKey),
            Connector::Placetopay => self.expect_auth(shape == AuthShape::BodyKey),
            Connector::Powertranz => self.expect_auth(shape == AuthShape::BodyKey),
            Connector::Prophetpay => self.expect_auth(shape == AuthShape::BodyKey),
            Connector::Rapyd => self.expect_auth(shape == AuthShape::BodyKey),
            Connector::Razorpay => self.expect_auth(shape == AuthShape::BodyKey),
            Connector::Shift4 => self.expect_auth(shape == AuthShape::HeaderKey),
            Connector::Square => self.expect_auth(shape == AuthShape::BodyKey),
            Connector::Stax => self.expect_auth(shape == AuthShape::HeaderKey),
            Connector::Stripe => self.expect_auth(shape == AuthShape::HeaderKey),
            Connector::Trustpay => self.expect_auth(shape == AuthShape::SignatureKey),
            Connector::Tsys => self.expect_auth(shape == AuthShape::SignatureKey),
            Connector::Volt => self.expect_auth(shape == AuthShape::MultiAuthKey),
            Connector::Wellsfargo => self.expect_auth(shape == AuthShape::SignatureKey),
            Connector::Wise => self.expect_auth(shape == AuthShape::BodyKey),
            Connector::Worldline => self.expect_auth(shape == AuthShape::SignatureKey),
            Connector::Worldpay => self.expect_auth(shape == AuthShape::BodyKey),
            Connector::Zen => self.expect_auth(shape == AuthShape::HeaderKey),
            Connector::Zsl => self.expect_auth(shape == AuthShape::BodyKey),
            Connector::Signifyd => self.expect_auth(shape == AuthShape::HeaderKey),
            Connector::Riskified => self.expect_auth(shape == AuthShape::BodyKey),
            Connector::Plaid => self.expect_auth(shape == AuthShape::BodyKey),
            Connector::Threedsecureio => self.expect_auth(shape == AuthShape::HeaderKey),
        }
    }
}

/// What the validation of an account's credentials and metadata reports:
/// the fault found by the general rules, else the fault found by the
/// connector's rule, shown as invalid request data. `identity_built` is
/// consulted for certificate credentials only. `None` means that the
/// account passes.
pub open spec fn validation_fault(
    connector: Connector,
    auth: ConnectorAuthType,
    metadata: Option<MetadataObject>,
    identity_built: bool,
) -> Option<ApiError> {
    match general_fault(auth, identity_built) {
        Some(e) => Some(e),
        None => match connector_fault(connector, auth, metadata) {
            Some(fault) => Some(invalid_request(connector_fault_message(fault))),
            None => None,
        },
    }
}

impl<'a> ConnectorAuthTypeAndMetadataValidation<'a> {
    /// Validates credentials and metadata: first against the general rules,
    /// then against the rule of the connector. The outcome is
    /// [`validation_fault`]; for certificate credentials it is
    /// [`validation_fault`] for what the TLS library answered.
    pub fn validate_auth_and_metadata_type(&self) -> (result: Result<(), ApiErrorResponse>)
        ensures
            exists|identity_built: bool|
                identity_answer_possible(*self.auth_type, identity_built) && fault_of(result)
                    == #[trigger] validation_fault(
                    *self.connector_name,
                    *self.auth_type,
                    *self.connector_meta_data,
                    identity_built,
                ),
    {
        let connector_auth_type_validation = ConnectorAuthTypeValidation {
            auth_type: self.auth_type,
        };
        let general = connector_auth_type_validation.validate_connector_auth_type();
        let ghost identity_built = choose|identity_built: bool|
            identity_answer_possible(*self.auth_type, identity_built) && fault_of(general)
                == #[trigger] general_fault(*self.auth_type, identity_built);
        let result = match general {
            Err(e) => Err(e),
            Ok(_) => match self.validate_auth_and_metadata_type_with_connector() {
                Ok(_) => Ok(()),
                Err(err) => Err(connector_error_response(&err)),
            },
        };
        proof {
            assert(fault_of(result) == validation_fault(
                *self.connector_name,
                *self.auth_type,
                *self.connector_meta_data,
                identity_built,
            ));
        }
        result
    }
}

/// Every connector has a rule that some form of credentials meets.
pub proof fn lemma_every_connector_takes_some_shape(connector: Connector)
    ensures
        exists|shape: AuthShape| accepts_auth_shape(connector, shape),
{
    if takes_header_key(connector) {
        assert(accepts_auth_shape(connector, AuthShape::HeaderKey));
    } else if takes_body_key(connector) {
        assert(accepts_auth_shape(connector, AuthShape::BodyKey));
    } else if takes_signature_key(connector) {
        assert(accepts_auth_shape(connector, AuthShape::SignatureKey));
    } else if takes_multi_auth_key(connector) {
        assert(accepts_auth_shape(connector, AuthShape::MultiAuthKey));
    } else if takes_currency_auth_key(connector) {
        assert(accepts_auth_shape(connector, AuthShape::CurrencyAuthKey));
    } else {
        assert(accepts_auth_shape(connector, AuthShape::CertificateAuth));
    }
}

/// Credentials of a form that the connector does not take never pass: the
/// connector's rule reports them as an invalid part of the configuration,
/// and the whole validation fails, with that report as invalid request data
/// unless the general rules have found a fault before.
pub proof fn lemma_wrong_shape_is_refused(
    connector: Connector,
    auth: ConnectorAuthType,
    metadata: Option<MetadataObject>,
    identity_built: bool,
)
    requires
        !accepts_auth_shape(connector, shape_of(auth)),
    ensures
        connector_fault(connector, auth, metadata) == Some(
            ConnectorFault::InvalidConnectorConfig { config: "connector_account_details"@ },
        ),
        validation_fault(connector, auth, metadata, identity_built) is Some,
        general_fault(auth, identity_built) is None ==> validation_fault(
            connector,
            auth,
            metadata,
            identity_built,
        ) == Some(invalid_request("The "@ + "connector_account_details"@ + " is invalid"@)),
{
}

/// The error for Apple Pay certificates of which no client identity comes.
pub open spec fn apple_pay_certificate_error() -> ApiError {
    ApiError::InvalidDataValue { field_name: "certificate/certificate key"@ }
}

/// The error for metadata that cannot be read as connector metadata.
pub open spec fn unreadable_metadata_error() -> ApiError {
    ApiError::InvalidDataFormat {
        field_name: "metadata"@,
        expected_format: "connector metadata"@,
    }
}

/// What is reported for the Apple Pay certificate of an account's metadata
/// once the TLS library has answered, `None` standing for metadata without
/// such a certificate.
pub fn apple_pay_certificates_outcome<T>(identity: Option<Result<T, ApiClientError>>) -> (result:
    Result<(), ApiErrorResponse>)
    ensures
        fault_of(result) == (if identity matches Some(Err(_)) {
            Some(apple_pay_certificate_error())
        } else {
            None
        }),
{
    match identity {
        Some(Err(_)) => Err(
            ApiErrorResponse::InvalidDataValue {
                field_name: String::from_str("certificate/certificate key"),
            },
        ),
        _ => Ok(()),
    }
}

/// The metadata of a connector account, to be checked for an Apple Pay
/// certificate.
pub struct ConnectorMetadata<'a> {
    pub connector_metadata: &'a Option<MetadataObject>,
}

/// What the metadata of an account says about Apple Pay sessions.
pub open spec fn apple_pay_of(metadata: Option<MetadataObject>) -> ApplePayMetadata {
    match metadata {
        Some(m) => m.apple_pay,
        None => ApplePayMetadata::Absent,
    }
}

/// Whether `fault` can be what the check of the Apple Pay part of metadata
/// reports. Metadata without session data passes; metadata that cannot be
/// read is refused as such; a certificate with its key passes only if the
/// pair is readable, and fails with the error on the pair.
pub open spec fn apple_pay_check(metadata: Option<MetadataObject>, fault: Option<ApiError>) -> bool {
    match apple_pay_of(metadata) {
        ApplePayMetadata::Absent => fault is None,
        ApplePayMetadata::Unreadable => fault == Some(unreadable_metadata_error()),
        ApplePayMetadata::Certificates(pair) => match fault {
            None => pem_pair_readable(pair.certificate@, pair.certificate_key@),
            Some(e) => e == apple_pay_certificate_error(),
        },
    }
}

impl<'a> ConnectorMetadata<'a> {
    /// Checks the Apple Pay part of the metadata: [`apple_pay_check`].
    /// Where the metadata carries a certificate, a TLS client identity must
    /// come of it and its key.
    pub fn validate_apple_pay_certificates_in_mca_metadata(&self) -> (result: Result<
        (),
        ApiErrorResponse,
    >)
        ensures
            apple_pay_check(*self.connector_metadata, fault_of(result)),
    {
        let identity = match self.connector_metadata {
            Some(metadata) => match &metadata.apple_pay {
                ApplePayMetadata::Certificates(pair) => {
                    let certificate_and_certificate_key = CertificateAndCertificateKey {
                        certificate: &pair.certificate,
                        certificate_key: &pair.certificate_key,
                    };
                    Some(
                        certificate_and_certificate_key.create_identity_from_certificate_and_key(),
                    )
                },
                ApplePayMetadata::Unreadable => {
                    return Err(
                        ApiErrorResponse::InvalidDataFormat {
                            field_name: String::from_str("metadata"),
                            expected_format: String::from_str("connector metadata"),
                        },
                    );
                },
                ApplePayMetadata::Absent => None,
            },
            None => None,
        };
        apple_pay_certificates_outcome(identity)
    }
}

/// The fault found when credentials and metadata are held to the rule of
/// the connector with a given name: a name that no connector has is an
/// invalid connector name.
pub open spec fn named_connector_fault(
    name: Seq<char>,
    auth: ConnectorAuthType,
    metadata: Option<MetadataObject>,
) -> Option<ConnectorFault> {
    if exists|connector: Connector| connector_name(connector) == name {
        let connector = choose|connector: Connector| connector_name(connector) == name;
        connector_fault(connector, auth, metadata)
    } else {
        Some(ConnectorFault::InvalidConnectorName)
    }
}

/// Holds credentials and metadata to the rule of the connector that is
/// named. A name that no connector has is refused as an invalid connector
/// name.
pub fn validate_auth_and_metadata_type_with_connector_name(
    name: &str,
    auth_type: &ConnectorAuthType,
    connector_meta_data: &Option<MetadataObject>,
) -> (result: Result<(), ConnectorError>)
    ensures
        match result {
            Ok(_) => named_connector_fault(name@, *auth_type, *connector_meta_data) is None,
            Err(e) => named_connector_fault(name@, *auth_type, *connector_meta_data) == Some(e@),
        },
{
    match Connector::from_str(name) {
        None => Err(ConnectorError::InvalidConnectorName),
        Some(connector) => {
            proof {
                let chosen = choose|c: Connector| connector_name(c) == name@;
                lemma_connector_names_distinct(chosen, connector);
            }
            let validation = ConnectorAuthTypeAndMetadataValidation {
                connector_name: &connector,
                auth_type,
                connector_meta_data,
            };
            validation.validate_auth_and_metadata_type_with_connector()
        },
    }
}

} // verus!
