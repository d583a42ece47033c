//! A sensor-driver capability set for environmental sensors, and a fake
//! driver that replays one fixed measurement outcome, for exercising the
//! retry, timeout and error paths of code written against the capability set.

pub mod sensor;
pub mod test_support;

pub use sensor::{BmeSensor, BmeSettingsHandle, Input, Outcome};
pub use test_support::{FakeBmeSensor, UnitError};
