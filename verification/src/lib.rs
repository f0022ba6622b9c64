//! Classification of Linux hwmon sysfs attribute files into typed,
//! unit-scaled sensor subfeatures.
//!
//! The library covers the pure logic of the hwmon layer: the name-parsing
//! grammar that recovers a feature class, instance number and subfeature
//! kind from a bare filename, the static registry mapping (class, suffix)
//! pairs to typed variants with their unit ratios and alarm flags, and the
//! construction of the immutable `Subfeature` value object from plain
//! values. Filesystem access and floating-point unit scaling sit outside,
//! in the unverified shell around this crate.

pub mod parser;
pub mod ratio;
pub mod registry;
pub mod strutil;
pub mod subfeature;
pub mod types;

pub use parser::SubfeatureError;
pub use ratio::Ratio;
pub use subfeature::Subfeature;
pub use types::{
    Current, Energy, Fan, Humidity, Intrusion, Power, Pwm, SubfeatureType, Temperature, Voltage,
};
