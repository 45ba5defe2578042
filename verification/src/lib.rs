//! A catalogue of target features, by architecture, and targets that enable them.
//!
//! A [`Feature`] is a position in a fixed table of entries; a [`Target`] pairs an
//! [`Architecture`] with the set of features enabled on it. A target supports a
//! feature when the feature is enabled, or when an enabled feature lists it among
//! the features it implies.

pub mod architecture;
pub mod feature;
pub mod laws;
pub mod table;
pub mod target;

pub use architecture::Architecture;
pub use feature::{Feature, UnknownFeature};
pub use target::{Target, TargetView};
