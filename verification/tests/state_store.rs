use mariam_flow::errors::AppError;
use mariam_flow::sensor::SensorRangeStatus;
use mariam_flow::state::{AppState, ReadingStatus, SensorReading, WaitTimeEstimate, WaitTimeStatus};

fn reading(sensor_id: u32, distance_mm: u16, timestamp: u64) -> SensorReading {
    SensorReading {
        sensor_id,
        distance_mm,
        timestamp,
        status: ReadingStatus::Valid { range_status: SensorRangeStatus::Valid },
    }
}

#[test]
fn set_readings_updates_state_and_watch() -> Result<(), AppError> {
    let mut state = AppState::new();
    let receiver = state.subscribe_readings();
    let sample = reading(1, 420, 1_000);

    assert!(state.set_readings(vec![sample.clone()]).is_ok());

    assert_eq!(state.readings().as_slice(), &[sample.clone()]);
    assert_eq!(receiver.borrow().as_slice(), &[sample]);
    Ok(())
}

#[test]
fn set_readings_accepts_error_status() {
    let mut state = AppState::new();
    let _receiver = state.subscribe_readings();
    let sample = SensorReading {
        sensor_id: 2,
        distance_mm: 0,
        timestamp: 0,
        status: ReadingStatus::Error { reason: "range out of bounds".to_string() },
    };

    assert!(state.set_readings(vec![sample.clone()]).is_ok());

    assert_eq!(state.readings().as_slice(), &[sample]);
}

#[test]
fn set_wait_time_updates_state_and_watch() {
    let mut state = AppState::new();
    let receiver = state.subscribe_wait_time();
    let estimate = WaitTimeEstimate {
        wait_time_milli_minutes: Some(12_000),
        timestamp: 10_000,
        status: WaitTimeStatus::Nominal,
        error_code: None,
    };

    assert!(state.set_wait_time(estimate).is_ok());

    assert_eq!(state.wait_time(), Some(&estimate));
    assert_eq!(*receiver.borrow(), Some(estimate));
}

#[test]
fn late_subscriber_observes_only_latest_value() -> Result<(), AppError> {
    let mut state = AppState::new();
    let first = vec![reading(1, 100, 1)];
    let second = vec![reading(1, 200, 2)];
    let third = vec![reading(1, 300, 3)];

    state.set_readings(first)?;
    state.set_readings(second)?;
    state.set_readings(third.clone())?;

    let mut receiver = state.subscribe_readings();
    let observed = receiver.borrow_and_update().clone();
    assert_eq!(observed, third);

    // nothing older is pending: the stream holds only the latest value
    assert!(!receiver.has_changed().unwrap());
    Ok(())
}

#[test]
fn completed_write_is_visible_to_subsequent_read() -> Result<(), AppError> {
    let mut state = AppState::new();
    let subscriber = state.subscribe_readings();
    let batch = vec![reading(4, 750, 9)];

    state.set_readings(batch.clone())?;

    assert_eq!(state.readings().as_slice(), batch.as_slice());
    assert_eq!(subscriber.borrow().as_slice(), batch.as_slice());
    Ok(())
}

#[test]
fn fresh_store_is_empty() {
    let state = AppState::new();
    assert!(state.sensors().is_empty());
    assert!(state.readings().is_empty());
    assert!(state.obstructions().is_empty());
    assert!(state.wait_time().is_none());
    assert!(state.calibration().is_none());
}
