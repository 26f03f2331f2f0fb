use std::collections::HashMap;

use mariam_flow::errors::AppError;
use mariam_flow::estimation::linear_v1::{LinearV1Model, LinearV1Params};
use mariam_flow::estimation::model::{Model, OccupancyConfig};
use mariam_flow::estimation::refresh_tick;
use mariam_flow::mock::{MockSensorBehavior, MockSensorFactory};
use mariam_flow::sensor::{SensorInfo, SensorStatus};
use mariam_flow::state::AppState;
use mariam_flow::xshut::XshutController;

struct CountingXshut {
    power_cycles: Vec<u8>,
}

impl XshutController for CountingXshut {
    fn set_all_low(&mut self) -> Result<(), AppError> {
        Ok(())
    }

    fn set_high(&mut self, _pin: u8) -> Result<(), AppError> {
        Ok(())
    }

    fn power_cycle_sensor(&mut self, pin: u8) -> Result<(), AppError> {
        self.power_cycles.push(pin);
        Ok(())
    }
}

fn model() -> Model {
    Model::LinearV1(LinearV1Model::new(
        LinearV1Params::default(),
        OccupancyConfig { threshold_mm: 1200, sensor_min_mm: 40, sensor_max_mm: 4000 },
    ))
}

fn roster() -> Vec<SensorInfo> {
    vec![SensorInfo { sensor_id: 1, xshut_pin: 17, i2c_address: 0x30, status: SensorStatus::Ready }]
}

#[test]
fn failing_reads_grow_the_error_counter() -> Result<(), AppError> {
    let mut factory = MockSensorFactory::new(vec![MockSensorBehavior::fail_read_distance()]);
    let mut xshut: Option<CountingXshut> = None;
    let mut state = AppState::new();
    let mut counts: HashMap<u32, u32> = HashMap::new();
    let sensors = roster();
    let m = model();

    refresh_tick(&mut factory, &mut xshut, &sensors, &mut state, &mut counts, &m, 1)?;

    assert_eq!(counts.get(&1), Some(&1));
    Ok(())
}

#[test]
fn successful_read_resets_the_error_counter() -> Result<(), AppError> {
    let mut factory = MockSensorFactory::new(vec![MockSensorBehavior::with_reading(
        500,
        mariam_flow::sensor::SensorRangeStatus::Valid,
    )]);
    let mut xshut: Option<CountingXshut> = None;
    let mut state = AppState::new();
    let mut counts: HashMap<u32, u32> = HashMap::new();
    counts.insert(1, 3);
    let sensors = roster();
    let m = model();

    refresh_tick(&mut factory, &mut xshut, &sensors, &mut state, &mut counts, &m, 2)?;

    assert_eq!(counts.get(&1), Some(&0));
    Ok(())
}

#[test]
fn threshold_crossing_triggers_reset_and_clears_counter() -> Result<(), AppError> {
    // the tick's read fails, then the reset path creates a fresh driver
    let mut factory = MockSensorFactory::new(vec![
        MockSensorBehavior::fail_read_distance(),
        MockSensorBehavior::ok(),
    ]);
    let mut xshut = Some(CountingXshut { power_cycles: Vec::new() });
    let mut state = AppState::new();
    let mut counts: HashMap<u32, u32> = HashMap::new();
    counts.insert(1, 4);
    let sensors = roster();
    let m = model();

    refresh_tick(&mut factory, &mut xshut, &sensors, &mut state, &mut counts, &m, 3)?;

    assert_eq!(xshut.as_ref().unwrap().power_cycles, vec![17]);
    assert_eq!(counts.get(&1), Some(&0));
    Ok(())
}

#[test]
fn failed_reset_leaves_counter_elevated() -> Result<(), AppError> {
    // the tick's read fails and the reset's driver cannot even be created
    let mut factory = MockSensorFactory::new(vec![
        MockSensorBehavior::fail_read_distance(),
        MockSensorBehavior::fail_create(),
    ]);
    let mut xshut = Some(CountingXshut { power_cycles: Vec::new() });
    let mut state = AppState::new();
    let mut counts: HashMap<u32, u32> = HashMap::new();
    counts.insert(1, 4);
    let sensors = roster();
    let m = model();

    refresh_tick(&mut factory, &mut xshut, &sensors, &mut state, &mut counts, &m, 4)?;

    assert_eq!(xshut.as_ref().unwrap().power_cycles, vec![17]);
    assert_eq!(counts.get(&1), Some(&5));
    Ok(())
}

#[test]
fn tick_writes_coherent_obstructions_and_estimate() -> Result<(), AppError> {
    let mut factory = MockSensorFactory::new(vec![MockSensorBehavior::with_reading(
        500,
        mariam_flow::sensor::SensorRangeStatus::Valid,
    )]);
    let mut xshut: Option<CountingXshut> = None;
    let mut state = AppState::new();
    let mut counts: HashMap<u32, u32> = HashMap::new();
    let sensors = roster();
    let m = model();

    refresh_tick(&mut factory, &mut xshut, &sensors, &mut state, &mut counts, &m, 77)?;

    assert_eq!(state.readings().len(), 1);
    assert_eq!(state.obstructions().len(), 1);
    assert_eq!(state.obstructions()[0].obstructed, Some(true));
    let estimate = state.wait_time().expect("estimate written");
    assert_eq!(estimate.timestamp, 77);
    // all sensors obstructed: 0.2 * 100 = 20.0 minutes
    assert_eq!(estimate.wait_time_milli_minutes, Some(20_000));
    Ok(())
}
