//! The read cycle: one distance sample per Ready sensor, validated and
//! classified, written to the store as one batch.

use vstd::prelude::*;
use vstd::string::StringExecFns;
use crate::errors::{spec_message, AppError};
use crate::estimation::model::{EstimationModel, OccupancyConfig};
use crate::sensor::{
    spec_range_status_name, SensorDriver, SensorDriverFactory, SensorInfo, SensorRangeStatus,
    SensorStatus,
};
use crate::state::{copy_readings, readings_like, AppState, ReadingStatus, SensorReading};
use crate::text::{dec_u64, spec_dec};

verus! {

/// The reason recorded when no driver could be created for a sensor.
pub open spec fn spec_create_failed_reason(e: AppError) -> Seq<char> {
    "driver create failed: "@ + spec_message(e)
}

/// The reason recorded when a driver's distance read failed.
pub open spec fn spec_read_failed_reason(e: AppError) -> Seq<char> {
    "read failed: "@ + spec_message(e)
}

/// The reason recorded when the hardware range status is not `Valid`.
pub open spec fn spec_range_status_reason(rs: SensorRangeStatus) -> Seq<char> {
    "range status not valid: "@ + spec_range_status_name(rs)
}

/// The reason recorded when a distance lies outside the configured bounds.
pub open spec fn spec_out_of_range_reason(d: u16, min_mm: u16, max_mm: u16) -> Seq<char> {
    "distance out of range: "@ + spec_dec(d as nat) + "mm (expected "@ + spec_dec(min_mm as nat)
        + "-"@ + spec_dec(max_mm as nat) + ")"@
}

/// The reason of a failed reading takes one of the four recorded shapes:
/// a driver-creation failure, a read failure, an invalid range status, or
/// an out-of-range distance.
pub open spec fn spec_known_reason(reason: Seq<char>) -> bool {
    ||| exists|e: AppError| reason == #[trigger] spec_create_failed_reason(e)
    ||| exists|e: AppError| reason == #[trigger] spec_read_failed_reason(e)
    ||| exists|rs: SensorRangeStatus| reason == #[trigger] spec_range_status_reason(rs)
    ||| exists|d: u16, lo: u16, hi: u16| reason == #[trigger] spec_out_of_range_reason(d, lo, hi)
}

/// Classify one raw measurement against the hardware status and the
/// configured distance bounds.
pub fn validate_measurement(distance_mm: u16, range_status: SensorRangeStatus, config: &OccupancyConfig) -> (st: ReadingStatus)
    ensures
        !(range_status is Valid) ==> (st matches ReadingStatus::Error { reason } && reason@
            == spec_range_status_reason(range_status)),
        range_status is Valid && !(config.sensor_min_mm <= distance_mm <= config.sensor_max_mm)
            ==> (st matches ReadingStatus::Error { reason } && reason@ == spec_out_of_range_reason(
            distance_mm,
            config.sensor_min_mm,
            config.sensor_max_mm,
        )),
        range_status is Valid && config.sensor_min_mm <= distance_mm <= config.sensor_max_mm
            ==> st == (ReadingStatus::Valid { range_status }),
{
    if !range_status.is_valid() {
        let mut reason = "range status not valid: ".to_owned();
        reason.append(range_status.name());
        return ReadingStatus::Error { reason };
    }

    if distance_mm < config.sensor_min_mm || distance_mm > config.sensor_max_mm {
        let mut reason = "distance out of range: ".to_owned();
        reason.append(dec_u64(distance_mm as u64).as_str());
        reason.append("mm (expected ");
        reason.append(dec_u64(config.sensor_min_mm as u64).as_str());
        reason.append("-");
        reason.append(dec_u64(config.sensor_max_mm as u64).as_str());
        reason.append(")");
        return ReadingStatus::Error { reason };
    }

    ReadingStatus::Valid { range_status }
}

/// The sub-roster of sensors marked Ready, in roster order.
pub open spec fn spec_ready(s: Seq<SensorInfo>) -> Seq<SensorInfo>
    decreases s.len(),
{
    if s.len() == 0 {
        Seq::empty()
    } else {
        let prefix = spec_ready(s.drop_last());
        if s.last().status is Ready {
            prefix.push(s.last())
        } else {
            prefix
        }
    }
}

/// Every entry of the Ready sub-roster is an entry of the roster.
pub proof fn lemma_ready_members(s: Seq<SensorInfo>)
    ensures
        forall|k: int| 0 <= k < spec_ready(s).len() ==> exists|i: int|
            0 <= i < s.len() && #[trigger] spec_ready(s)[k] == s[i],
    decreases s.len(),
{
    if s.len() > 0 {
        let prefix = s.drop_last();
        lemma_ready_members(prefix);
        assert forall|k: int| 0 <= k < spec_ready(s).len() implies exists|i: int|
            0 <= i < s.len() && #[trigger] spec_ready(s)[k] == s[i] by {
            if k < spec_ready(prefix).len() {
                let i = choose|i: int| 0 <= i < prefix.len() && spec_ready(prefix)[k] == prefix[i];
                assert(spec_ready(s)[k] == s[i]);
            } else {
                assert(spec_ready(s)[k] == s[s.len() - 1]);
            }
        }
    }
}

/// A roster with pairwise distinct sensor ids keeps them distinct in its
/// Ready sub-roster.
pub proof fn lemma_ready_ids_distinct(s: Seq<SensorInfo>)
    requires
        forall|i: int, j: int| 0 <= i < j < s.len() ==> (#[trigger] s[i]).sensor_id != (
        #[trigger] s[j]).sensor_id,
    ensures
        forall|k1: int, k2: int| 0 <= k1 < k2 < spec_ready(s).len() ==> (#[trigger] spec_ready(
            s,
        )[k1]).sensor_id != (#[trigger] spec_ready(s)[k2]).sensor_id,
    decreases s.len(),
{
    if s.len() > 0 {
        let prefix = s.drop_last();
        lemma_ready_ids_distinct(prefix);
        lemma_ready_members(prefix);
        assert forall|k1: int, k2: int| 0 <= k1 < k2 < spec_ready(s).len() implies (
        #[trigger] spec_ready(s)[k1]).sensor_id != (#[trigger] spec_ready(s)[k2]).sensor_id by {
            if k2 < spec_ready(prefix).len() {
            } else if s.last().status is Ready && k2 == spec_ready(prefix).len() {
                let i = choose|i: int| 0 <= i < prefix.len() && spec_ready(prefix)[k1] == prefix[i];
                assert(spec_ready(s)[k1] == prefix[i]);
                assert(s[i] == prefix[i]);
                assert(spec_ready(s)[k2] == s[s.len() - 1]);
            }
        }
    }
}

/// Take one distance sample per Ready sensor and classify it, without
/// touching the store.
///
/// No per-sensor failure aborts the cycle: a failing driver or an invalid
/// measurement becomes an `Error` entry for that sensor. The batch holds
/// exactly one entry per Ready sensor, in roster order, all stamped with
/// this tick's timestamp; entries classified `Valid` lie within the
/// configured distance bounds.
pub fn read_distances<F: SensorDriverFactory, M: EstimationModel>(
    factory: &mut F,
    sensors: &Vec<SensorInfo>,
    model: &M,
    now_ms: u64,
) -> (v: Vec<SensorReading>)
    ensures
        v@.len() == spec_ready(sensors@).len(),
        forall|k: int| 0 <= k < v@.len() ==> (#[trigger] v@[k]).sensor_id == spec_ready(
            sensors@,
        )[k].sensor_id,
        forall|k: int| 0 <= k < v@.len() ==> (#[trigger] v@[k]).timestamp == now_ms,
        forall|k: int| 0 <= k < v@.len() ==> ((#[trigger] v@[k]).status matches
            ReadingStatus::Valid { range_status } ==> {
                &&& range_status is Valid
                &&& model.spec_occupancy_config().sensor_min_mm <= v@[k].distance_mm
                    <= model.spec_occupancy_config().sensor_max_mm
            }),
        forall|k: int| 0 <= k < v@.len() ==> ((#[trigger] v@[k]).status matches
            ReadingStatus::Error { reason } ==> spec_known_reason(reason@)),
        forall|k: int| 0 <= k < v@.len() ==> ((#[trigger] v@[k]).status is Error ==> v@[k].distance_mm
            == 0),
{
    let config = *model.occupancy_config();
    let mut readings: Vec<SensorReading> = Vec::new();
    let mut index: usize = 0;
    while index < sensors.len()
        invariant
            index <= sensors@.len(),
            config == model.spec_occupancy_config(),
            readings@.len() == spec_ready(sensors@.subrange(0, index as int)).len(),
            forall|k: int| 0 <= k < readings@.len() ==> (#[trigger] readings@[k]).sensor_id
                == spec_ready(sensors@.subrange(0, index as int))[k].sensor_id,
            forall|k: int| 0 <= k < readings@.len() ==> (#[trigger] readings@[k]).timestamp == now_ms,
            forall|k: int| 0 <= k < readings@.len() ==> ((#[trigger] readings@[k]).status matches
                ReadingStatus::Valid { range_status } ==> {
                    &&& range_status is Valid
                    &&& config.sensor_min_mm <= readings@[k].distance_mm <= config.sensor_max_mm
                }),
            forall|k: int| 0 <= k < readings@.len() ==> ((#[trigger] readings@[k]).status matches
                ReadingStatus::Error { reason } ==> spec_known_reason(reason@)),
            forall|k: int| 0 <= k < readings@.len() ==> ((#[trigger] readings@[k]).status is Error
                ==> readings@[k].distance_mm == 0),
        decreases sensors@.len() - index,
    {
        proof {
            assert(sensors@.subrange(0, index + 1).drop_last() =~= sensors@.subrange(0, index as int));
            assert(sensors@.subrange(0, index + 1).last() == sensors@[index as int]);
        }
        let sensor = &sensors[index];
        if matches!(sensor.status, SensorStatus::Ready) {
            let reading = read_one(factory, sensor, &config, now_ms);
            readings.push(reading);
        }
        index = index + 1;
    }
    proof {
        assert(sensors@.subrange(0, sensors@.len() as int) =~= sensors@);
    }
    readings
}

/// Read one distance per Ready sensor, classify it, and persist the whole
/// batch in the store as one atomic replacement.
pub fn read_and_store_distances<F: SensorDriverFactory, M: EstimationModel>(
    factory: &mut F,
    sensors: &Vec<SensorInfo>,
    state: &mut AppState,
    model: &M,
    now_ms: u64,
) -> (r: Result<Vec<SensorReading>, AppError>)
    ensures
        r is Ok,
        r matches Ok(v) ==> {
            &&& v@.len() == spec_ready(sensors@).len()
            &&& forall|k: int| 0 <= k < v@.len() ==> (#[trigger] v@[k]).sensor_id == spec_ready(
                sensors@,
            )[k].sensor_id
            &&& forall|k: int| 0 <= k < v@.len() ==> (#[trigger] v@[k]).timestamp == now_ms
            &&& forall|k: int| 0 <= k < v@.len() ==> ((#[trigger] v@[k]).status matches
                ReadingStatus::Valid { range_status } ==> {
                    &&& range_status is Valid
                    &&& model.spec_occupancy_config().sensor_min_mm <= v@[k].distance_mm
                        <= model.spec_occupancy_config().sensor_max_mm
                })
            &&& forall|k: int| 0 <= k < v@.len() ==> ((#[trigger] v@[k]).status is Error
                ==> v@[k].distance_mm == 0)
            &&& readings_like(v@, final(state).spec_readings())
        },
        final(state).spec_sensors() == old(state).spec_sensors(),
        final(state).spec_obstructions() == old(state).spec_obstructions(),
        final(state).spec_wait_time() == old(state).spec_wait_time(),
        final(state).spec_calibration() == old(state).spec_calibration(),
        final(state).spec_model() == old(state).spec_model(),
{
    let readings = read_distances(factory, sensors, model, now_ms);
    let snapshot = copy_readings(&readings);
    state.set_readings(snapshot)?;
    Ok(readings)
}

/// Acquire a driver for one Ready sensor, take one distance sample, and
/// classify it; failures become `Error` entries with a sentinel distance.
fn read_one<F: SensorDriverFactory>(
    factory: &mut F,
    sensor: &SensorInfo,
    config: &OccupancyConfig,
    now_ms: u64,
) -> (r: SensorReading)
    ensures
        r.sensor_id == sensor.sensor_id,
        r.timestamp == now_ms,
        r.status matches ReadingStatus::Valid { range_status } ==> {
            &&& range_status is Valid
            &&& config.sensor_min_mm <= r.distance_mm <= config.sensor_max_mm
        },
        r.status matches ReadingStatus::Error { reason } ==> spec_known_reason(reason@),
        r.status is Error ==> r.distance_mm == 0,
{
    let mut driver = match factory.create_for_address(sensor.i2c_address) {
        Ok(driver) => driver,
        Err(err) => {
            let ghost cause = err;
            let mut reason = "driver create failed: ".to_owned();
            reason.append(err.message().as_str());
            proof {
                assert(reason@ == spec_create_failed_reason(cause));
            }
            return SensorReading {
                sensor_id: sensor.sensor_id,
                distance_mm: 0,
                timestamp: now_ms,
                status: ReadingStatus::Error { reason },
            };
        },
    };

    let measurement = match driver.read_distance() {
        Ok(measurement) => measurement,
        Err(err) => {
            let ghost cause = err;
            let mut reason = "read failed: ".to_owned();
            reason.append(err.message().as_str());
            proof {
                assert(reason@ == spec_read_failed_reason(cause));
            }
            return SensorReading {
                sensor_id: sensor.sensor_id,
                distance_mm: 0,
                timestamp: now_ms,
                status: ReadingStatus::Error { reason },
            };
        },
    };

    let status = validate_measurement(measurement.distance_mm, measurement.range_status, config);
    let distance_mm: u16 = if matches!(status, ReadingStatus::Error { .. }) {
        // failed readings carry the sentinel distance
        0
    } else {
        measurement.distance_mm
    };
    SensorReading { sensor_id: sensor.sensor_id, distance_mm, timestamp: now_ms, status }
}

} // verus!
