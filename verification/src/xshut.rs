//! Enable-line (XSHUT) sequencing: deterministic bus address allocation and
//! the one-at-a-time discovery protocol that assigns each sensor its address.

use vstd::prelude::*;
use crate::errors::{spec_message, AppError};
use crate::sensor::{
    copy_sensor_infos, sensor_infos_like, SensorConfig, SensorDriver, SensorDriverFactory,
    SensorId, SensorInfo, SensorStatus, ADDRESS_BASE_7BIT, I2C_7BIT_MAX,
};
use crate::state::AppState;

verus! {

/// Drives the XSHUT enable lines of the sensor array. Every call may fail;
/// nothing is promised about outcomes. Implementations must leave enough
/// settling time for a sensor to boot before `set_high` or
/// `power_cycle_sensor` return.
pub trait XshutController: Sized {
    fn set_all_low(&mut self) -> Result<(), AppError>;

    fn set_high(&mut self, pin: u8) -> Result<(), AppError>;

    fn power_cycle_sensor(&mut self, pin: u8) -> Result<(), AppError>;
}

/// A sensor together with the bus address allocated for it.
#[derive(Debug, Clone, Copy)]
pub struct AddressedSensor {
    pub sensor_id: SensorId,
    pub xshut_pin: u8,
    pub i2c_address: u8,
}

/// The allocation `base .. base + n - 1` fits the 7-bit address space.
pub open spec fn spec_alloc_ok(base: u8, n: int) -> bool {
    &&& base <= I2C_7BIT_MAX
    &&& (n == 0 || base + n - 1 <= I2C_7BIT_MAX)
}

/// Allocate deterministic 7-bit bus addresses: entry `i` gets `base + i`.
///
/// Succeeds exactly when the whole run of addresses fits the 7-bit space;
/// the addresses handed out are pairwise distinct and strictly increasing.
pub fn allocate_addresses(base_address: u8, sensors: &[SensorConfig]) -> (r: Result<
    Vec<AddressedSensor>,
    AppError,
>)
    ensures
        r is Ok <==> spec_alloc_ok(base_address, sensors@.len() as int),
        base_address > I2C_7BIT_MAX ==> r == Err::<Vec<AddressedSensor>, AppError>(
            AppError::InvalidAddress(base_address),
        ),
        base_address <= I2C_7BIT_MAX && !spec_alloc_ok(base_address, sensors@.len() as int)
            ==> r == Err::<Vec<AddressedSensor>, AppError>(AppError::AddressAllocationOverflow),
        r matches Ok(v) ==> {
            &&& v@.len() == sensors@.len()
            &&& forall|i: int| 0 <= i < v@.len() ==> {
                &&& (#[trigger] v@[i]).sensor_id == sensors@[i].sensor_id
                &&& v@[i].xshut_pin == sensors@[i].xshut_pin
                &&& v@[i].i2c_address == base_address + i
            }
            &&& forall|i: int, j: int| 0 <= i < j < v@.len() ==> (#[trigger] v@[i]).i2c_address
                < (#[trigger] v@[j]).i2c_address
            &&& forall|i: int, j: int| 0 <= i < j < v@.len() ==> (#[trigger] v@[i]).i2c_address
                != (#[trigger] v@[j]).i2c_address
        },
{
    if base_address > I2C_7BIT_MAX {
        return Err(AppError::InvalidAddress(base_address));
    }

    let count = sensors.len();
    if count > 0 && count - 1 > (I2C_7BIT_MAX as usize) - (base_address as usize) {
        return Err(AppError::AddressAllocationOverflow);
    }

    let mut addressed: Vec<AddressedSensor> = Vec::new();
    let mut index: usize = 0;
    while index < count
        invariant
            count == sensors@.len(),
            index <= count,
            spec_alloc_ok(base_address, count as int),
            addressed@.len() == index,
            forall|i: int| 0 <= i < index ==> {
                &&& (#[trigger] addressed@[i]).sensor_id == sensors@[i].sensor_id
                &&& addressed@[i].xshut_pin == sensors@[i].xshut_pin
                &&& addressed@[i].i2c_address == base_address + i
            },
        decreases count - index,
    {
        let address: u8 = base_address + (index as u8);
        addressed.push(AddressedSensor {
            sensor_id: sensors[index].sensor_id,
            xshut_pin: sensors[index].xshut_pin,
            i2c_address: address,
        });
        index = index + 1;
    }

    Ok(addressed)
}

/// The roster entry recorded when a discovery step fails for one sensor:
/// identity and address are kept, the status carries the error's message.
pub fn error_info(sensor: &AddressedSensor, err: AppError) -> (r: SensorInfo)
    ensures
        r.sensor_id == sensor.sensor_id,
        r.xshut_pin == sensor.xshut_pin,
        r.i2c_address == sensor.i2c_address,
        r.status matches SensorStatus::Error { message } && message@ == spec_message(err),
{
    SensorInfo {
        sensor_id: sensor.sensor_id,
        xshut_pin: sensor.xshut_pin,
        i2c_address: sensor.i2c_address,
        status: SensorStatus::Error { message: err.message() },
    }
}

/// Discover sensors by toggling XSHUT lines one at a time and assigning
/// each sensor its allocated address.
///
/// Every sensor gets a roster entry with its identity and allocated address.
/// A failing step marks that one sensor `Error` and the batch goes on; only
/// allocation failures and enable-line failures abort the whole batch.
pub fn discover_and_address_sensors<X: XshutController, F: SensorDriverFactory>(
    xshut: &mut X,
    factory: &mut F,
    sensors: &[SensorConfig],
) -> (r: Result<Vec<SensorInfo>, AppError>)
    ensures
        !spec_alloc_ok(ADDRESS_BASE_7BIT, sensors@.len() as int) ==> r == Err::<
            Vec<SensorInfo>,
            AppError,
        >(AppError::AddressAllocationOverflow),
        r matches Ok(v) ==> {
            &&& spec_alloc_ok(ADDRESS_BASE_7BIT, sensors@.len() as int)
            &&& v@.len() == sensors@.len()
            &&& forall|i: int| 0 <= i < v@.len() ==> {
                &&& (#[trigger] v@[i]).sensor_id == sensors@[i].sensor_id
                &&& v@[i].xshut_pin == sensors@[i].xshut_pin
                &&& v@[i].i2c_address == ADDRESS_BASE_7BIT + i
            }
        },
{
    let addressed = match allocate_addresses(ADDRESS_BASE_7BIT, sensors) {
        Ok(addressed) => addressed,
        Err(err) => {
            return Err(err);
        },
    };
    proof {
        assert(spec_alloc_ok(ADDRESS_BASE_7BIT, sensors@.len() as int));
    }
    xshut.set_all_low()?;

    let mut results: Vec<SensorInfo> = Vec::new();
    let mut index: usize = 0;
    while index < addressed.len()
        invariant
            spec_alloc_ok(ADDRESS_BASE_7BIT, sensors@.len() as int),
            addressed@.len() == sensors@.len(),
            forall|i: int| 0 <= i < addressed@.len() ==> {
                &&& (#[trigger] addressed@[i]).sensor_id == sensors@[i].sensor_id
                &&& addressed@[i].xshut_pin == sensors@[i].xshut_pin
                &&& addressed@[i].i2c_address == ADDRESS_BASE_7BIT + i
            },
            index <= addressed@.len(),
            results@.len() == index,
            forall|i: int| 0 <= i < index ==> {
                &&& (#[trigger] results@[i]).sensor_id == sensors@[i].sensor_id
                &&& results@[i].xshut_pin == sensors@[i].xshut_pin
                &&& results@[i].i2c_address == ADDRESS_BASE_7BIT + i
            },
        decreases addressed@.len() - index,
    {
        let sensor = addressed[index];
        xshut.set_high(sensor.xshut_pin)?;

        let entry = discover_one(factory, &sensor);
        results.push(entry);
        index = index + 1;
    }

    Ok(results)
}

/// Initialize one freshly enabled sensor on the shared default address,
/// move it to its allocated address, verify it, and start ranging. Any
/// failing step yields an `Error` entry instead; identity and address are
/// recorded either way.
fn discover_one<F: SensorDriverFactory>(factory: &mut F, sensor: &AddressedSensor) -> (r: SensorInfo)
    ensures
        r.sensor_id == sensor.sensor_id,
        r.xshut_pin == sensor.xshut_pin,
        r.i2c_address == sensor.i2c_address,
{
    let mut driver = match factory.create_default() {
        Ok(driver) => driver,
        Err(err) => {
            return error_info(sensor, err);
        },
    };

    if let Err(err) = driver.init_default() {
        return error_info(sensor, err);
    }

    if let Err(err) = driver.set_address(sensor.i2c_address) {
        return error_info(sensor, err);
    }

    if let Err(err) = driver.verify() {
        return error_info(sensor, err);
    }

    if let Err(err) = driver.start_ranging() {
        return error_info(sensor, err);
    }

    SensorInfo {
        sensor_id: sensor.sensor_id,
        xshut_pin: sensor.xshut_pin,
        i2c_address: sensor.i2c_address,
        status: SensorStatus::Ready,
    }
}

/// Reinitialize one sensor: power-cycle its enable line, recreate a driver
/// on the default address, reassign its previously allocated address, verify
/// it, and restart ranging. Any step's failure is returned to the caller,
/// who decides whether to retry on a later tick.
pub fn reinitialize_sensor<X: XshutController, F: SensorDriverFactory>(
    xshut: &mut X,
    factory: &mut F,
    sensor: &SensorInfo,
) -> Result<(), AppError> {
    xshut.power_cycle_sensor(sensor.xshut_pin)?;

    let mut driver = factory.create_default()?;
    driver.init_default()?;
    driver.set_address(sensor.i2c_address)?;
    driver.verify()?;
    driver.start_ranging()?;
    Ok(())
}

/// Discover sensors and persist the batch in the store as one atomic
/// replacement of the roster.
pub fn discover_and_store_sensors<X: XshutController, F: SensorDriverFactory>(
    xshut: &mut X,
    factory: &mut F,
    sensors: &[SensorConfig],
    state: &mut AppState,
) -> (r: Result<Vec<SensorInfo>, AppError>)
    ensures
        !spec_alloc_ok(ADDRESS_BASE_7BIT, sensors@.len() as int) ==> r == Err::<
            Vec<SensorInfo>,
            AppError,
        >(AppError::AddressAllocationOverflow),
        r matches Ok(v) ==> {
            &&& v@.len() == sensors@.len()
            &&& forall|i: int| 0 <= i < v@.len() ==> {
                &&& (#[trigger] v@[i]).sensor_id == sensors@[i].sensor_id
                &&& v@[i].xshut_pin == sensors@[i].xshut_pin
                &&& v@[i].i2c_address == ADDRESS_BASE_7BIT + i
            }
            &&& sensor_infos_like(v@, final(state).spec_sensors())
        },
        r is Err ==> final(state).spec_sensors() == old(state).spec_sensors(),
        final(state).spec_readings() == old(state).spec_readings(),
        final(state).spec_obstructions() == old(state).spec_obstructions(),
        final(state).spec_wait_time() == old(state).spec_wait_time(),
        final(state).spec_calibration() == old(state).spec_calibration(),
        final(state).spec_model() == old(state).spec_model(),
{
    let results = discover_and_address_sensors(xshut, factory, sensors)?;
    let snapshot = copy_sensor_infos(&results);
    state.set_sensors(snapshot)?;
    Ok(results)
}

} // verus!
