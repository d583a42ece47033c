//! The capability set that every sensor driver offers, the values that flow
//! through it, and the three-way model of a measurement poll.

use core::time::Duration;
use vstd::prelude::*;

verus! {

/// `nb::Error` as Verus sees it: its two public variants, `Other(e)` for a
/// failure and `WouldBlock` for "not ready yet, poll again".
#[verifier::external_type_specification]
#[verifier::reject_recursive_types(E)]
pub struct ExNbError<E>(nb::Error<E>);

/// One reading produced by a measurement: which sensor signal it is and the
/// raw value the hardware reported for it. Drivers other than the real one
/// pass it through without interpreting it.
#[derive(Clone, Copy, Debug, PartialEq, Eq, Structural)]
pub struct Input {
    pub sensor: u32,
    pub signal: i64,
}

/// The configuration that the driver framework hands to a driver when it asks
/// for a measurement, as a raw record that only the real hardware driver reads.
#[derive(Debug)]
pub struct BmeSettingsHandle {
    pub raw: Vec<u8>,
}

/// What one poll for a measurement reports: not ready yet, ready with the
/// readings in order, or failed with the driver's error.
pub enum Outcome<E> {
    NotReady,
    Ready(Seq<Input>),
    Failed(E),
}

/// The outcome that a non-blocking measurement result stands for.
pub open spec fn outcome_of<E>(m: nb::Result<Vec<Input>, E>) -> Outcome<E> {
    match m {
        Ok(v) => Outcome::Ready(v@),
        Err(nb::Error::WouldBlock) => Outcome::NotReady,
        Err(nb::Error::Other(e)) => Outcome::Failed(e),
    }
}

/// The wait that `Duration::new(secs, nanos)` builds.
pub uninterp spec fn duration_from(secs: u64, nanos: u32) -> Duration;

/// Relies on `core::time::Duration::new`: the duration is determined by its
/// two arguments, and the call panics only when carrying whole seconds out of
/// `nanos` overflows `secs`.
pub assume_specification[ core::time::Duration::new ](secs: u64, nanos: u32) -> (r: Duration)
    requires
        secs as int + nanos as int / 1_000_000_000 <= u64::MAX as int,
    ensures
        r == duration_from(secs, nanos),
;

/// The operations that a sensor driver offers to the code that schedules
/// measurements: start one, then poll until its result is there.
pub trait BmeSensor {
    type Error;

    /// Starts a measurement with the given settings and tells how long to
    /// wait before polling for its result.
    fn start_measurement(&mut self, settings: &BmeSettingsHandle) -> Result<Duration, Self::Error>;

    /// Polls for the result of the measurement: `WouldBlock` while it is not
    /// ready, the readings once it is, or the driver's error.
    fn get_measurement(&mut self) -> nb::Result<Vec<Input>, Self::Error>;
}

} // verus!
