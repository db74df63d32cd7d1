//! Administration core of a payment router.
//!
//! The crate holds the rules by which merchants, their business profiles
//! and their connector accounts are set up, each with a contract that is
//! proved of it:
//!
//! - [`auth`], [`certificate`] and [`connector_rules`]: what the credentials
//!   and the metadata of a connector account must look like, in general and
//!   for each connector;
//! - [`status`]: the status and the disabled flag of a connector account;
//! - [`bank`] and [`recipient`]: bank accounts of open banking recipients
//!   and the registration of those recipients;
//! - [`routing`] and [`profile_routing`]: routable connectors and the
//!   default routing lists;
//! - [`connector_account`], [`connector_update`] and [`connector_create`]:
//!   requests to create and update connector accounts, and the creation of
//!   an account step by step;
//! - [`merchant`], [`profile`] and [`profile_update`]: merchant accounts
//!   and business profiles;
//! - [`domain`], [`enums`], [`errors`], [`collections`], [`routes`] and
//!   [`checksum`]: the records, the closed sets, the errors, a map and a
//!   set that keep each key once, the route groups and the key of detached
//!   checksums.
//!
//! The store, the key manager, the vault and the connectors are asked by
//! the caller, who hands their answers in.

pub mod auth;
pub mod bank;
pub mod certificate;
pub mod checksum;
pub mod collections;
pub mod connector_account;
pub mod connector_create;
pub mod connector_rules;
pub mod connector_update;
pub mod domain;
pub mod enums;
pub mod errors;
pub mod merchant;
pub mod profile;
pub mod profile_routing;
pub mod profile_update;
pub mod recipient;
pub mod routes;
pub mod routing;
pub mod status;
