use mariam_flow::errors::AppError;
use mariam_flow::estimation::linear_v1::{LinearV1Model, LinearV1Params};
use mariam_flow::estimation::model::{Model, OccupancyConfig};
use mariam_flow::mock::{MockSensorBehavior, MockSensorDriver, MockSensorFactory};
use mariam_flow::readings::read_and_store_distances;
use mariam_flow::sensor::{SensorDriver, SensorInfo, SensorRangeStatus, SensorStatus};
use mariam_flow::state::{AppState, ReadingStatus};

fn ready_sensor(sensor_id: u32, xshut_pin: u8, i2c_address: u8) -> SensorInfo {
    SensorInfo { sensor_id, xshut_pin, i2c_address, status: SensorStatus::Ready }
}

fn test_model(config: OccupancyConfig) -> Model {
    Model::LinearV1(LinearV1Model::new(LinearV1Params::default(), config))
}

#[test]
fn read_cycle_records_valid_and_invalid_readings() -> Result<(), AppError> {
    let behaviors = vec![
        MockSensorBehavior::with_reading(120, SensorRangeStatus::Valid),
        MockSensorBehavior::with_reading(20, SensorRangeStatus::Valid),
        MockSensorBehavior::with_reading(200, SensorRangeStatus::SignalFailure),
    ];
    let mut factory = MockSensorFactory::new(behaviors);
    let model = test_model(OccupancyConfig { threshold_mm: 1000, sensor_min_mm: 40, sensor_max_mm: 4000 });

    let mut state = AppState::new();
    let _sensor_rx = state.subscribe_sensors();
    let _reading_rx = state.subscribe_readings();

    let sensors = vec![
        ready_sensor(1, 17, 0x30),
        ready_sensor(2, 27, 0x31),
        ready_sensor(3, 22, 0x32),
    ];
    state.set_sensors(sensors.clone())?;

    let now_ms: u64 = 1_000;
    let readings = read_and_store_distances(&mut factory, &sensors, &mut state, &model, now_ms)?;

    assert_eq!(readings.len(), 3);
    assert_eq!(readings[0].sensor_id, 1);
    assert!(matches!(readings[0].status, ReadingStatus::Valid { .. }));
    assert_eq!(readings[0].distance_mm, 120);

    assert_eq!(readings[1].sensor_id, 2);
    match &readings[1].status {
        ReadingStatus::Error { reason } => {
            assert!(reason.contains("distance out of range"));
        }
        _ => panic!("expected error status"),
    }

    assert_eq!(readings[2].sensor_id, 3);
    match &readings[2].status {
        ReadingStatus::Error { reason } => {
            assert!(reason.contains("range status not valid"));
        }
        _ => panic!("expected error status"),
    }

    assert_eq!(state.readings().len(), 3);
    assert!(state.readings().iter().all(|reading| reading.timestamp == now_ms));

    Ok(())
}

#[test]
fn read_cycle_continues_on_driver_errors() -> Result<(), AppError> {
    let behaviors = vec![
        MockSensorBehavior::fail_create(),
        MockSensorBehavior::with_reading(250, SensorRangeStatus::Valid),
        MockSensorBehavior::fail_read_distance(),
    ];
    let mut factory = MockSensorFactory::new(behaviors);
    let model = test_model(OccupancyConfig { threshold_mm: 1200, sensor_min_mm: 10, sensor_max_mm: 4000 });

    let mut state = AppState::new();
    let _sensor_rx = state.subscribe_sensors();
    let _reading_rx = state.subscribe_readings();

    let sensors = vec![
        ready_sensor(1, 17, 0x30),
        ready_sensor(2, 27, 0x31),
        ready_sensor(3, 22, 0x32),
    ];
    state.set_sensors(sensors.clone())?;

    let readings = read_and_store_distances(&mut factory, &sensors, &mut state, &model, 0)?;

    assert_eq!(readings.len(), 3);
    match &readings[0].status {
        ReadingStatus::Error { reason } => {
            assert!(reason.contains("driver create failed"));
        }
        _ => panic!("expected error status"),
    }
    assert!(matches!(readings[1].status, ReadingStatus::Valid { .. }));
    match &readings[2].status {
        ReadingStatus::Error { reason } => {
            assert!(reason.contains("read failed"));
        }
        _ => panic!("expected error status"),
    }

    Ok(())
}

#[test]
fn read_cycle_skips_sensors_not_ready() -> Result<(), AppError> {
    let behaviors = vec![MockSensorBehavior::with_reading(300, SensorRangeStatus::Valid)];
    let mut factory = MockSensorFactory::new(behaviors);
    let model = test_model(OccupancyConfig { threshold_mm: 1200, sensor_min_mm: 10, sensor_max_mm: 4000 });

    let mut state = AppState::new();
    let sensors = vec![
        SensorInfo {
            sensor_id: 1,
            xshut_pin: 17,
            i2c_address: 0x30,
            status: SensorStatus::Error { message: "sensor error: mock init failed".to_string() },
        },
        ready_sensor(2, 27, 0x31),
    ];

    let readings = read_and_store_distances(&mut factory, &sensors, &mut state, &model, 0)?;

    assert_eq!(readings.len(), 1);
    assert_eq!(readings[0].sensor_id, 2);
    Ok(())
}

#[test]
fn failed_readings_carry_sentinel_distance() -> Result<(), AppError> {
    let behaviors = vec![
        MockSensorBehavior::with_reading(20, SensorRangeStatus::Valid),
        MockSensorBehavior::with_reading(200, SensorRangeStatus::SignalFailure),
    ];
    let mut factory = MockSensorFactory::new(behaviors);
    let model = test_model(OccupancyConfig { threshold_mm: 1000, sensor_min_mm: 40, sensor_max_mm: 4000 });

    let mut state = AppState::new();
    let sensors = vec![ready_sensor(1, 17, 0x30), ready_sensor(2, 27, 0x31)];

    let readings = read_and_store_distances(&mut factory, &sensors, &mut state, &model, 0)?;

    assert!(matches!(readings[0].status, ReadingStatus::Error { .. }));
    assert_eq!(readings[0].distance_mm, 0);
    assert!(matches!(readings[1].status, ReadingStatus::Error { .. }));
    assert_eq!(readings[1].distance_mm, 0);
    Ok(())
}

#[test]
fn read_distance_returns_measurement() {
    let behavior = MockSensorBehavior::with_reading(123, SensorRangeStatus::Valid);
    let mut driver = MockSensorDriver { behavior };

    let measurement = driver.read_distance().expect("read distance ok");

    assert_eq!(measurement.distance_mm, 123);
    assert_eq!(measurement.range_status, SensorRangeStatus::Valid);
}

#[test]
fn read_distance_can_fail() {
    let behavior = MockSensorBehavior::fail_read_distance();
    let mut driver = MockSensorDriver { behavior };

    let err = driver.read_distance().unwrap_err();

    assert_eq!(err.message(), "sensor error: mock read distance failed");
}

#[test]
fn pipeline_mock_updates_state_for_all_sensors() -> Result<(), AppError> {
    let behaviors = vec![
        MockSensorBehavior::with_reading(250, SensorRangeStatus::Valid),
        MockSensorBehavior::with_reading(20, SensorRangeStatus::Valid),
        MockSensorBehavior::fail_read_distance(),
    ];
    let mut factory = MockSensorFactory::new(behaviors);

    let mut state = AppState::new();
    let _sensor_rx = state.subscribe_sensors();
    let _reading_rx = state.subscribe_readings();
    let sensors = vec![
        ready_sensor(1, 17, 0x30),
        ready_sensor(2, 27, 0x31),
        ready_sensor(3, 22, 0x32),
    ];
    state.set_sensors(sensors.clone())?;

    let model = test_model(OccupancyConfig { threshold_mm: 1200, sensor_min_mm: 40, sensor_max_mm: 4000 });
    let readings = read_and_store_distances(&mut factory, &sensors, &mut state, &model, 7)?;

    assert_eq!(readings.len(), 3);
    assert!(matches!(readings[0].status, ReadingStatus::Valid { .. }));
    assert!(matches!(readings[1].status, ReadingStatus::Error { .. }));
    assert!(matches!(readings[2].status, ReadingStatus::Error { .. }));

    assert_eq!(state.readings().len(), 3);
    Ok(())
}
