//! Tuning records for motorcycles: a base machine, the upgrades fitted to it,
//! and the cost and performance index that follow from them.
//!
//! - [`quantity`]: single-precision quantities, held by their encodings.
//! - [`upgrade`]: one upgrade part.
//! - [`motorcycle`]: the record of one motorcycle, with the rules for fitting
//!   and removing upgrades and for the values derived from them.
//! - [`registry`]: records by identifier.
//! - [`service`]: the answers to requests on a registry.
//! - [`error`]: why a record refuses a change.

pub mod error;
pub mod motorcycle;
pub mod quantity;
pub mod registry;
pub mod service;
pub mod upgrade;

pub use error::UpgradeError;
pub use motorcycle::{Motorcycle, MAX_UPGRADES};
pub use quantity::Quantity;
pub use registry::Registry;
pub use service::Response;
pub use upgrade::Upgrade;
