use std::time::Duration;

use bme_fake::{BmeSensor, BmeSettingsHandle, FakeBmeSensor, Input, UnitError};

fn a() -> Input {
    Input { sensor: 1, signal: 10 }
}

fn b() -> Input {
    Input { sensor: 2, signal: -20 }
}

fn empty_settings() -> BmeSettingsHandle {
    BmeSettingsHandle { raw: Vec::new() }
}

#[test]
fn ready_readings_scenario() {
    let mut sensor = FakeBmeSensor::new(Ok(vec![a(), b()]));
    assert_eq!(sensor.start_measurement(&empty_settings()), Ok(Duration::new(0, 0)));
    assert_eq!(sensor.get_measurement(), Ok(vec![a(), b()]));
    assert_eq!(sensor.get_measurement(), Ok(vec![a(), b()]));
}

#[test]
fn start_measurement_waits_zero_for_any_settings() {
    let mut sensor = FakeBmeSensor::new(Err(nb::Error::WouldBlock));
    let settings = [
        empty_settings(),
        BmeSettingsHandle { raw: vec![0] },
        BmeSettingsHandle { raw: vec![0xff; 64] },
    ];
    for s in settings.iter() {
        let wait = sensor.start_measurement(s).unwrap();
        assert!(wait.is_zero());
        assert_eq!(wait, Duration::ZERO);
    }
}

#[test]
fn start_measurement_leaves_outcome_unchanged() {
    let mut sensor = FakeBmeSensor::new(Ok(vec![b()]));
    assert_eq!(sensor.get_measurement(), Ok(vec![b()]));
    assert!(sensor.start_measurement(&empty_settings()).is_ok());
    assert_eq!(sensor.get_measurement(), Ok(vec![b()]));
}

#[test]
fn default_reports_no_readings_every_time() {
    let mut sensor = FakeBmeSensor::default();
    for _ in 0..5 {
        assert_eq!(sensor.get_measurement(), Ok(Vec::new()));
    }
}

#[test]
fn not_ready_never_turns_ready() {
    let mut sensor = FakeBmeSensor::new(Err(nb::Error::WouldBlock));
    for _ in 0..5 {
        assert_eq!(sensor.get_measurement(), Err(nb::Error::WouldBlock));
        assert!(sensor.start_measurement(&empty_settings()).is_ok());
    }
}

#[test]
fn error_repeats_every_time() {
    let mut sensor = FakeBmeSensor::new(Err(nb::Error::Other(UnitError)));
    for _ in 0..5 {
        assert_eq!(sensor.get_measurement(), Err(nb::Error::Other(UnitError)));
    }
}

#[test]
fn error_text_is_debug_text() {
    let e = UnitError;
    assert_eq!(e.to_string(), format!("{:?}", e));
    assert_eq!(e.to_string(), "UnitError");
}

#[test]
fn readings_keep_order_and_duplicates() {
    let readings = vec![b(), a(), b(), b()];
    let mut sensor = FakeBmeSensor::new(Ok(readings.clone()));
    assert_eq!(sensor.get_measurement(), Ok(readings.clone()));
    assert_eq!(sensor.get_measurement(), Ok(readings));
}

#[test]
fn many_readings_are_copied_whole() {
    let readings: Vec<Input> = (0..1000).map(|i| Input { sensor: i, signal: -(i as i64) }).collect();
    let mut sensor = FakeBmeSensor::new(Ok(readings.clone()));
    assert_eq!(sensor.get_measurement(), Ok(readings));
}

fn poll_until_ready<S: BmeSensor>(sensor: &mut S, tries: usize) -> Option<nb::Result<Vec<Input>, S::Error>> {
    for _ in 0..tries {
        match sensor.get_measurement() {
            Err(nb::Error::WouldBlock) => continue,
            other => return Some(other),
        }
    }
    None
}

#[test]
fn generic_caller_sees_fixed_outcome() {
    let mut ready = FakeBmeSensor::new(Ok(vec![a()]));
    assert_eq!(poll_until_ready(&mut ready, 3), Some(Ok(vec![a()])));
    let mut pending = FakeBmeSensor::new(Err(nb::Error::WouldBlock));
    assert_eq!(poll_until_ready(&mut pending, 3), None);
    let mut failing = FakeBmeSensor::new(Err(nb::Error::Other(UnitError)));
    assert_eq!(poll_until_ready(&mut failing, 3), Some(Err(nb::Error::Other(UnitError))));
}
