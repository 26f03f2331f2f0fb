use mariam_flow::errors::AppError;
use mariam_flow::mock::{MockSensorBehavior, MockSensorFactory};
use mariam_flow::sensor::{SensorConfig, SensorStatus, ADDRESS_BASE_7BIT, I2C_7BIT_MAX};
use mariam_flow::state::AppState;
use mariam_flow::xshut::{
    allocate_addresses, discover_and_address_sensors, discover_and_store_sensors, XshutController,
};

struct MockXshut {
    actions: Vec<String>,
}

impl MockXshut {
    fn new() -> Self {
        MockXshut { actions: Vec::new() }
    }
}

impl XshutController for MockXshut {
    fn set_all_low(&mut self) -> Result<(), AppError> {
        self.actions.push("all_low".to_string());
        Ok(())
    }

    fn set_high(&mut self, pin: u8) -> Result<(), AppError> {
        self.actions.push(format!("high:{pin}"));
        Ok(())
    }

    fn power_cycle_sensor(&mut self, pin: u8) -> Result<(), AppError> {
        self.actions.push(format!("cycle:{pin}"));
        Ok(())
    }
}

fn config(sensor_id: u32, xshut_pin: u8) -> SensorConfig {
    SensorConfig { sensor_id, xshut_pin }
}

#[test]
fn address_allocation_is_unique() -> Result<(), AppError> {
    let sensors = vec![config(1, 17), config(2, 27), config(3, 22)];

    let addressed = allocate_addresses(ADDRESS_BASE_7BIT, &sensors)?;
    let mut addresses: Vec<u8> = addressed.iter().map(|sensor| sensor.i2c_address).collect();
    addresses.sort_unstable();
    addresses.dedup();
    assert_eq!(addresses.len(), sensors.len());
    Ok(())
}

#[test]
fn address_allocation_rejects_overflow() {
    let sensors = vec![config(1, 17), config(2, 27)];
    let result = allocate_addresses(I2C_7BIT_MAX, &sensors);
    assert!(matches!(result, Err(AppError::AddressAllocationOverflow)));
}

#[test]
fn address_allocation_rejects_out_of_range_base() {
    let sensors = vec![config(1, 17)];
    let result = allocate_addresses(0x78, &sensors);
    assert!(matches!(result, Err(AppError::InvalidAddress(0x78))));
}

#[test]
fn address_allocation_assigns_base_plus_offset() {
    let sensors = vec![config(7, 5), config(9, 6)];
    let addressed = allocate_addresses(0x40, &sensors).expect("allocation fits");
    assert_eq!(addressed.len(), 2);
    assert_eq!(addressed[0].sensor_id, 7);
    assert_eq!(addressed[0].xshut_pin, 5);
    assert_eq!(addressed[0].i2c_address, 0x40);
    assert_eq!(addressed[1].sensor_id, 9);
    assert_eq!(addressed[1].i2c_address, 0x41);
}

#[test]
fn sequencing_continues_on_sensor_error() -> Result<(), AppError> {
    let sensors = vec![config(1, 17), config(2, 27), config(3, 22)];

    let behaviors = vec![
        MockSensorBehavior::ok(),
        MockSensorBehavior::fail_init(),
        MockSensorBehavior::ok(),
    ];
    let mut factory = MockSensorFactory::new(behaviors);
    let mut xshut = MockXshut::new();

    let results = discover_and_address_sensors(&mut xshut, &mut factory, &sensors)?;
    assert_eq!(results.len(), 3);
    assert!(matches!(results[0].status, SensorStatus::Ready));
    assert!(matches!(results[1].status, SensorStatus::Error { .. }));
    assert!(matches!(results[2].status, SensorStatus::Ready));
    assert_eq!(xshut.actions, vec!["all_low", "high:17", "high:27", "high:22"]);
    Ok(())
}

#[test]
fn sequencing_records_set_address_error() -> Result<(), AppError> {
    let sensors = vec![config(1, 17), config(2, 27)];

    let behaviors = vec![MockSensorBehavior::ok(), MockSensorBehavior::fail_set_address()];
    let mut factory = MockSensorFactory::new(behaviors);
    let mut xshut = MockXshut::new();

    let results = discover_and_address_sensors(&mut xshut, &mut factory, &sensors)?;
    assert!(matches!(results[0].status, SensorStatus::Ready));
    assert!(matches!(results[1].status, SensorStatus::Error { .. }));
    Ok(())
}

#[test]
fn sequencing_records_verify_error() -> Result<(), AppError> {
    let sensors = vec![config(1, 17), config(2, 27)];

    let behaviors = vec![MockSensorBehavior::ok(), MockSensorBehavior::fail_verify()];
    let mut factory = MockSensorFactory::new(behaviors);
    let mut xshut = MockXshut::new();

    let results = discover_and_address_sensors(&mut xshut, &mut factory, &sensors)?;
    assert!(matches!(results[0].status, SensorStatus::Ready));
    assert!(matches!(results[1].status, SensorStatus::Error { .. }));
    Ok(())
}

#[test]
fn discovery_updates_shared_state() -> Result<(), AppError> {
    let sensors = vec![config(1, 17), config(2, 27)];

    let behaviors = vec![MockSensorBehavior::ok(), MockSensorBehavior::ok()];
    let mut factory = MockSensorFactory::new(behaviors);
    let mut xshut = MockXshut::new();

    let mut state = AppState::new();
    let mut receiver = state.subscribe_sensors();

    let results = discover_and_store_sensors(&mut xshut, &mut factory, &sensors, &mut state)?;
    let updated = receiver.borrow_and_update().clone();

    assert_eq!(updated.len(), results.len());
    assert_eq!(state.sensors().len(), results.len());
    Ok(())
}

#[test]
fn discovery_error_messages_carry_the_cause() -> Result<(), AppError> {
    let sensors = vec![config(1, 17)];
    let behaviors = vec![MockSensorBehavior::fail_init()];
    let mut factory = MockSensorFactory::new(behaviors);
    let mut xshut = MockXshut::new();

    let results = discover_and_address_sensors(&mut xshut, &mut factory, &sensors)?;
    match &results[0].status {
        SensorStatus::Error { message } => {
            assert_eq!(message, "sensor error: mock init failed");
        }
        SensorStatus::Ready => panic!("expected error status"),
    }
    Ok(())
}
