//! A fake [`BmeSensor`] that replays one fixed measurement outcome, for unit
//! tests of code written against the capability set.

use core::time::Duration;
use vstd::prelude::*;

use crate::sensor::{duration_from, outcome_of, BmeSensor, BmeSettingsHandle, Input, Outcome};

verus! {

/// An error with a single value: it says that something failed and nothing
/// more.
#[derive(Copy, Clone, Debug, PartialEq, Eq, Structural)]
pub struct UnitError;

impl UnitError {
    /// The error's text for users, which is its debug text.
    pub fn to_string(&self) -> (r: String)
        ensures
            r@ == "UnitError"@,
    {
        "UnitError".to_owned()
    }
}

/// A sensor that always reports the one measurement outcome it was built
/// with.
pub struct FakeBmeSensor {
    measurement: nb::Result<Vec<Input>, UnitError>,
}

impl View for FakeBmeSensor {
    type V = Outcome<UnitError>;

    /// The outcome that every poll of this sensor reports.
    closed spec fn view(&self) -> Outcome<UnitError> {
        outcome_of(self.measurement)
    }
}

/// A copy of a measurement result with the same outcome.
fn copy_measurement(m: &nb::Result<Vec<Input>, UnitError>) -> (r: nb::Result<Vec<Input>, UnitError>)
    ensures
        outcome_of(r) == outcome_of(*m),
{
    match m {
        Ok(v) => {
            let mut out: Vec<Input> = Vec::with_capacity(v.len());
            let mut i: usize = 0;
            while i < v.len()
                invariant
                    i <= v@.len(),
                    out@ == v@.subrange(0, i as int),
                decreases v@.len() - i,
            {
                out.push(v[i]);
                i = i + 1;
            }
            assert(out@ == v@);
            Ok(out)
        },
        Err(nb::Error::WouldBlock) => Err(nb::Error::WouldBlock),
        Err(nb::Error::Other(e)) => Err(nb::Error::Other(*e)),
    }
}

impl FakeBmeSensor {
    /// A sensor whose every poll reports `measurement`.
    pub fn new(measurement: nb::Result<Vec<Input>, UnitError>) -> (r: Self)
        ensures
            r@ == outcome_of(measurement),
    {
        Self { measurement }
    }
}

impl Default for FakeBmeSensor {
    /// A sensor whose every poll reports a finished measurement without
    /// readings.
    fn default() -> (r: Self)
        ensures
            r@ == Outcome::<UnitError>::Ready(Seq::empty()),
    {
        Self::new(Ok(Vec::new()))
    }
}

impl BmeSensor for FakeBmeSensor {
    type Error = UnitError;

    /// Ignores the settings and says that the result can be polled at once.
    fn start_measurement(&mut self, _settings: &BmeSettingsHandle) -> (r: Result<Duration, UnitError>)
        ensures
            r == Ok::<Duration, UnitError>(duration_from(0, 0)),
            *final(self) == *old(self),
    {
        Ok(Duration::new(0, 0))
    }

    /// Reports the outcome the sensor was built with, and changes nothing.
    fn get_measurement(&mut self) -> (r: nb::Result<Vec<Input>, UnitError>)
        ensures
            outcome_of(r) == old(self)@,
            *final(self) == *old(self),
    {
        copy_measurement(&self.measurement)
    }
}

/// Polling a sensor built with outcome `o` any number of times reports `o`
/// every time and leaves the sensor as it was. `states[i]` is the sensor
/// before poll `i` and `reports[i]` what that poll returned.
pub proof fn lemma_polls_repeat(
    o: Outcome<UnitError>,
    states: Seq<FakeBmeSensor>,
    reports: Seq<nb::Result<Vec<Input>, UnitError>>,
)
    requires
        states.len() == reports.len() + 1,
        states[0]@ == o,
        forall|i: int|
            0 <= i < reports.len() ==> outcome_of(#[trigger] reports[i]) == states[i]@
                && states[i + 1] == states[i],
    ensures
        forall|i: int| 0 <= i < reports.len() ==> outcome_of(#[trigger] reports[i]) == o,
        forall|i: int| 0 <= i < states.len() ==> #[trigger] states[i] == states[0],
    decreases reports.len(),
{
    if reports.len() > 0 {
        let n = reports.len() - 1;
        lemma_polls_repeat(o, states.subrange(0, n + 1), reports.subrange(0, n));
        assert forall|i: int| 0 <= i < states.len() implies #[trigger] states[i] == states[0] by {
            assert(states.subrange(0, n + 1)[n] == states[n]);
            assert(outcome_of(reports[n]) == states[n]@);
            if i < n + 1 {
                assert(states.subrange(0, n + 1)[i] == states[i]);
            }
        }
        assert forall|i: int| 0 <= i < reports.len() implies outcome_of(#[trigger] reports[i]) == o by {
            if i < n {
                assert(reports.subrange(0, n)[i] == reports[i]);
            }
        }
    }
}

/// A sensor built by `default` reports a finished measurement without
/// readings on the first and on every later poll.
pub proof fn lemma_default_polls_empty(
    states: Seq<FakeBmeSensor>,
    reports: Seq<nb::Result<Vec<Input>, UnitError>>,
)
    requires
        states.len() == reports.len() + 1,
        states[0]@ == Outcome::<UnitError>::Ready(Seq::empty()),
        forall|i: int|
            0 <= i < reports.len() ==> outcome_of(#[trigger] reports[i]) == states[i]@
                && states[i + 1] == states[i],
    ensures
        forall|i: int|
            0 <= i < reports.len() ==> (#[trigger] reports[i] matches Ok(v) && v@.len() == 0),
{
    lemma_polls_repeat(states[0]@, states, reports);
    assert forall|i: int| 0 <= i < reports.len() implies (#[trigger] reports[i] matches Ok(v) && v@.len() == 0) by {
        assert(outcome_of(reports[i]) == Outcome::<UnitError>::Ready(Seq::empty()));
    }
}

/// A sensor built with a "not ready" outcome reports `WouldBlock` on every
/// poll: it never turns ready by itself.
pub proof fn lemma_not_ready_stays(
    states: Seq<FakeBmeSensor>,
    reports: Seq<nb::Result<Vec<Input>, UnitError>>,
)
    requires
        states.len() == reports.len() + 1,
        states[0]@ == Outcome::<UnitError>::NotReady,
        forall|i: int|
            0 <= i < reports.len() ==> outcome_of(#[trigger] reports[i]) == states[i]@
                && states[i + 1] == states[i],
    ensures
        forall|i: int|
            0 <= i < reports.len() ==> #[trigger] reports[i] == Err::<Vec<Input>, nb::Error<UnitError>>(
                nb::Error::WouldBlock,
            ),
{
    lemma_polls_repeat(states[0]@, states, reports);
    assert forall|i: int| 0 <= i < reports.len() implies #[trigger] reports[i] == Err::<Vec<Input>, nb::Error<UnitError>>(nb::Error::WouldBlock) by {
        assert(outcome_of(reports[i]) == Outcome::<UnitError>::NotReady);
    }
}

/// A sensor built with an error reports that same error on every poll.
pub proof fn lemma_error_repeats(
    e: UnitError,
    states: Seq<FakeBmeSensor>,
    reports: Seq<nb::Result<Vec<Input>, UnitError>>,
)
    requires
        states.len() == reports.len() + 1,
        states[0]@ == Outcome::Failed(e),
        forall|i: int|
            0 <= i < reports.len() ==> outcome_of(#[trigger] reports[i]) == states[i]@
                && states[i + 1] == states[i],
    ensures
        forall|i: int|
            0 <= i < reports.len() ==> #[trigger] reports[i] == Err::<Vec<Input>, nb::Error<UnitError>>(
                nb::Error::Other(e),
            ),
{
    lemma_polls_repeat(states[0]@, states, reports);
    assert forall|i: int| 0 <= i < reports.len() implies #[trigger] reports[i] == Err::<Vec<Input>, nb::Error<UnitError>>(nb::Error::Other(e)) by {
        assert(outcome_of(reports[i]) == Outcome::Failed(e));
    }
}

} // verus!
