//! The pure part of the read-only view layer: deriving overall health from
//! the roster, mapping roster entries and readings to response rows, and
//! deciding which queue response the current estimate deserves.
//!
//! Serialization and status codes live outside the library; these types
//! carry plain values only.

use vstd::prelude::*;
use vstd::string::StringExecFns;
use crate::sensor::{spec_range_status_name, SensorInfo, I2C_7BIT_MAX};
use crate::state::{ReadingStatus, SensorReading, WaitTimeEstimate, WaitTimeStatus};
use crate::text::{contains_seq, contains_sub, dec_u64, hex_byte, lower_chars, spec_dec, spec_hex_byte, to_lower};

verus! {

/// Overall health of the sensor array.
#[derive(Debug, Clone, Copy, PartialEq, Eq)]
pub enum HealthStatus {
    Nominal,
    Degraded,
    Ko,
}

#[derive(Debug, Clone, Copy, PartialEq, Eq)]
pub enum HealthErrorCode {
    InternalError,
}

/// Health of one sensor as reported to the view layer.
#[derive(Debug, Clone, Copy, PartialEq, Eq)]
pub enum SensorStatus {
    Nominal,
    Error,
}

#[derive(Debug, Clone, Copy, PartialEq, Eq)]
pub enum SensorErrorCode {
    NoResponse,
    I2cError,
    Timeout,
    InvalidReading,
}

#[derive(Debug, Clone, Copy, PartialEq, Eq)]
pub enum SensorsErrorCode {
    SensorUnavailable,
    InternalError,
}

#[derive(Debug, Clone, Copy, PartialEq, Eq)]
pub enum QueueErrorCode {
    NoData,
    InternalError,
}

/// Successful queue answer: a wait time in milli-minutes and a rendered
/// timestamp.
#[derive(Debug, Clone, PartialEq, Eq)]
pub struct QueueSuccessResponse {
    pub wait_time_milli_minutes: i64,
    pub queue_length: Option<u32>,
    pub timestamp: String,
}

#[derive(Debug, Clone, PartialEq, Eq)]
pub struct QueueErrorResponse {
    pub error_code: QueueErrorCode,
    pub error_message: String,
    pub timestamp: String,
}

#[derive(Debug, Clone, PartialEq, Eq)]
pub struct HealthSuccessResponse {
    pub status: HealthStatus,
    pub timestamp: String,
}

#[derive(Debug, Clone, PartialEq, Eq)]
pub struct HealthErrorResponse {
    pub error_code: HealthErrorCode,
    pub error_message: String,
    pub timestamp: String,
}

#[derive(Debug, Clone, PartialEq, Eq)]
pub struct SensorStatusResponse {
    pub sensor_id: String,
    pub i2c_address: String,
    pub status: SensorStatus,
    pub error_code: Option<SensorErrorCode>,
}

#[derive(Debug, Clone, PartialEq, Eq)]
pub struct SensorsSuccessResponse {
    pub sensors: Vec<SensorStatusResponse>,
    pub timestamp: String,
}

#[derive(Debug, Clone, PartialEq, Eq)]
pub struct SensorsErrorResponse {
    pub error_code: SensorsErrorCode,
    pub error_message: String,
    pub timestamp: String,
}

#[derive(Debug, Clone, PartialEq, Eq)]
pub struct DebugSensorReading {
    pub sensor_id: u32,
    pub distance_mm: u16,
    pub obstructed: Option<bool>,
    pub status: String,
}

#[derive(Debug, Clone, PartialEq, Eq)]
pub struct DebugReadingsResponse {
    pub occupancy_threshold_mm: u16,
    pub sensors: Vec<DebugSensorReading>,
    pub timestamp: String,
}

/// Some roster entry is Ready.
pub open spec fn spec_has_ready(s: Seq<SensorInfo>) -> bool {
    exists|i: int| 0 <= i < s.len() && (#[trigger] s[i]).status is Ready
}

/// Some roster entry is in error.
pub open spec fn spec_has_error(s: Seq<SensorInfo>) -> bool {
    exists|i: int| 0 <= i < s.len() && (#[trigger] s[i]).status is Error
}

/// The health the roster deserves: `Ko` without any Ready sensor (or any
/// sensor at all), `Degraded` when Ready and erroring sensors mix,
/// `Nominal` when every sensor is Ready.
pub open spec fn spec_health(s: Seq<SensorInfo>) -> HealthStatus {
    if !spec_has_ready(s) {
        HealthStatus::Ko
    } else if spec_has_error(s) {
        HealthStatus::Degraded
    } else {
        HealthStatus::Nominal
    }
}

/// Derive the overall health of the roster.
pub fn derive_health_status(sensors: &Vec<SensorInfo>) -> (h: HealthStatus)
    ensures
        h == spec_health(sensors@),
{
    let mut has_ready = false;
    let mut has_error = false;
    let mut index: usize = 0;
    while index < sensors.len()
        invariant
            index <= sensors@.len(),
            has_ready == spec_has_ready(sensors@.subrange(0, index as int)),
            has_error == spec_has_error(sensors@.subrange(0, index as int)),
        decreases sensors@.len() - index,
    {
        let ghost prefix = sensors@.subrange(0, index as int);
        let ghost grown = sensors@.subrange(0, index + 1);
        match &sensors[index].status {
            crate::sensor::SensorStatus::Ready => {
                has_ready = true;
            },
            crate::sensor::SensorStatus::Error { .. } => {
                has_error = true;
            },
        }
        index = index + 1;
        proof {
            assert(forall|i: int| 0 <= i < prefix.len() ==> prefix[i] == grown[i]);
            assert(grown[grown.len() - 1] == sensors@[index - 1]);
            assert(spec_has_ready(grown) == (spec_has_ready(prefix) || grown[grown.len() - 1].status
                is Ready)) by {
                if spec_has_ready(prefix) {
                    let i = choose|i: int| 0 <= i < prefix.len() && (#[trigger] prefix[i]).status
                        is Ready;
                    assert(grown[i].status is Ready);
                }
                if spec_has_ready(grown) {
                    let i = choose|i: int| 0 <= i < grown.len() && (#[trigger] grown[i]).status
                        is Ready;
                    if i < prefix.len() {
                        assert(prefix[i].status is Ready);
                    }
                }
            }
            assert(spec_has_error(grown) == (spec_has_error(prefix) || grown[grown.len() - 1].status
                is Error)) by {
                if spec_has_error(prefix) {
                    let i = choose|i: int| 0 <= i < prefix.len() && (#[trigger] prefix[i]).status
                        is Error;
                    assert(grown[i].status is Error);
                }
                if spec_has_error(grown) {
                    let i = choose|i: int| 0 <= i < grown.len() && (#[trigger] grown[i]).status
                        is Error;
                    if i < prefix.len() {
                        assert(prefix[i].status is Error);
                    }
                }
            }
        }
    }
    proof {
        assert(sensors@.subrange(0, sensors@.len() as int) =~= sensors@);
    }
    if has_ready && has_error {
        HealthStatus::Degraded
    } else if has_ready {
        HealthStatus::Nominal
    } else {
        HealthStatus::Ko
    }
}

/// The error code a failure message maps to, judged on its lower-cased
/// text: bus errors first, then timeouts, then invalid readings, with "no
/// response" as the catch-all.
pub open spec fn spec_sensor_error_code(low: Seq<char>) -> SensorErrorCode {
    if contains_seq(low, "i2c"@) {
        SensorErrorCode::I2cError
    } else if contains_seq(low, "timeout"@) {
        SensorErrorCode::Timeout
    } else if contains_seq(low, "range"@) || contains_seq(low, "invalid"@) {
        SensorErrorCode::InvalidReading
    } else {
        SensorErrorCode::NoResponse
    }
}

/// Classify a sensor failure message into a machine-readable code.
pub fn map_sensor_error_code(message: &str) -> (c: SensorErrorCode)
    ensures
        c == spec_sensor_error_code(lower_chars(message@)),
{
    let lowered = to_lower(message);
    if contains_sub(lowered.as_str(), "i2c") {
        SensorErrorCode::I2cError
    } else if contains_sub(lowered.as_str(), "timeout") {
        SensorErrorCode::Timeout
    } else if contains_sub(lowered.as_str(), "range") || contains_sub(lowered.as_str(), "invalid") {
        SensorErrorCode::InvalidReading
    } else {
        SensorErrorCode::NoResponse
    }
}

/// Map one roster entry to its response row: `sensor-<id>` and a
/// hexadecimal bus address, with an error code classified from the entry's
/// message. An address outside the 7-bit space is refused.
pub fn map_sensor_info(sensor: &SensorInfo) -> (r: Result<SensorStatusResponse, &'static str>)
    ensures
        r is Err <==> sensor.i2c_address > I2C_7BIT_MAX,
        r matches Ok(m) ==> {
            &&& m.sensor_id@ == "sensor-"@ + spec_dec(sensor.sensor_id as nat)
            &&& m.i2c_address@ == "0x"@ + spec_hex_byte(sensor.i2c_address)
            &&& (sensor.status is Ready ==> m.status is Nominal && m.error_code is None)
            &&& (sensor.status matches crate::sensor::SensorStatus::Error { message } ==> m.status
                is Error && m.error_code == Some(spec_sensor_error_code(lower_chars(message@))))
        },
{
    if sensor.i2c_address > I2C_7BIT_MAX {
        return Err("invalid i2c address for sensor status response");
    }
    let (status, error_code) = match &sensor.status {
        crate::sensor::SensorStatus::Ready => (SensorStatus::Nominal, None),
        crate::sensor::SensorStatus::Error { message } => (
            SensorStatus::Error,
            Some(map_sensor_error_code(message.as_str())),
        ),
    };

    let mut sensor_id = "sensor-".to_owned();
    sensor_id.append(dec_u64(sensor.sensor_id as u64).as_str());
    let mut i2c_address = "0x".to_owned();
    i2c_address.append(hex_byte(sensor.i2c_address).as_str());

    Ok(SensorStatusResponse { sensor_id, i2c_address, status, error_code })
}

/// One roster entry maps to one response row as `map_sensor_info` says.
pub open spec fn spec_sensor_row(sensor: SensorInfo, row: SensorStatusResponse) -> bool {
    &&& row.sensor_id@ == "sensor-"@ + spec_dec(sensor.sensor_id as nat)
    &&& row.i2c_address@ == "0x"@ + spec_hex_byte(sensor.i2c_address)
    &&& (sensor.status is Ready ==> row.status is Nominal && row.error_code is None)
    &&& (sensor.status matches crate::sensor::SensorStatus::Error { message } ==> row.status
        is Error && row.error_code == Some(spec_sensor_error_code(lower_chars(message@))))
}

/// Map a whole roster to response rows, entry for entry, refusing the
/// batch on the first entry with an invalid address.
pub fn map_sensor_infos(sensors: &Vec<SensorInfo>) -> (r: Result<Vec<SensorStatusResponse>, &'static str>)
    ensures
        r is Ok <==> (forall|i: int| 0 <= i < sensors@.len() ==> (#[trigger] sensors@[i]).i2c_address
            <= I2C_7BIT_MAX),
        r matches Ok(rows) ==> {
            &&& rows@.len() == sensors@.len()
            &&& forall|i: int| 0 <= i < rows@.len() ==> #[trigger] spec_sensor_row(
                sensors@[i],
                rows@[i],
            )
        },
{
    let mut rows: Vec<SensorStatusResponse> = Vec::new();
    let mut index: usize = 0;
    while index < sensors.len()
        invariant
            index <= sensors@.len(),
            rows@.len() == index,
            forall|i: int| 0 <= i < index ==> (#[trigger] sensors@[i]).i2c_address <= I2C_7BIT_MAX,
            forall|i: int| 0 <= i < index ==> #[trigger] spec_sensor_row(sensors@[i], rows@[i]),
        decreases sensors@.len() - index,
    {
        match map_sensor_info(&sensors[index]) {
            Ok(row) => {
                rows.push(row);
            },
            Err(message) => {
                return Err(message);
            },
        }
        index = index + 1;
    }
    Ok(rows)
}

/// What the queue endpoint should answer, before formatting.
#[derive(Debug, Clone, Copy, PartialEq, Eq)]
pub enum QueueDecision {
    /// A nominal estimate with a nonnegative wait time.
    Success { wait_time_milli_minutes: i64, timestamp: u64 },
    /// No usable estimate; answer "no data" stamped with this timestamp.
    NoData { timestamp: u64 },
    /// A nominal estimate whose value is missing or negative.
    InternalError,
}

/// Decide the queue answer for the current estimate: a nominal estimate
/// with a nonnegative wait time succeeds; a nominal estimate without a
/// usable value is an internal fault; anything else — a degraded estimate
/// or none at all — answers "no data".
pub fn queue_decision(estimate: &Option<WaitTimeEstimate>, now_ms: u64) -> (d: QueueDecision)
    ensures
        d == (match estimate {
            Some(e) => if e.status is Nominal {
                match e.wait_time_milli_minutes {
                    Some(m) => if m >= 0 {
                        QueueDecision::Success { wait_time_milli_minutes: m, timestamp: e.timestamp }
                    } else {
                        QueueDecision::InternalError
                    },
                    None => QueueDecision::InternalError,
                }
            } else {
                QueueDecision::NoData { timestamp: e.timestamp }
            },
            None => QueueDecision::NoData { timestamp: now_ms },
        }),
{
    match estimate {
        Some(e) => {
            if matches!(e.status, WaitTimeStatus::Nominal) {
                match e.wait_time_milli_minutes {
                    Some(m) => {
                        if m >= 0 {
                            QueueDecision::Success { wait_time_milli_minutes: m, timestamp: e.timestamp }
                        } else {
                            QueueDecision::InternalError
                        }
                    },
                    None => QueueDecision::InternalError,
                }
            } else {
                QueueDecision::NoData { timestamp: e.timestamp }
            }
        },
        None => QueueDecision::NoData { timestamp: now_ms },
    }
}

/// The status text of one debug row.
pub open spec fn spec_debug_status(s: ReadingStatus) -> Seq<char> {
    match s {
        ReadingStatus::Valid { range_status } => "ok ("@ + spec_range_status_name(range_status)
            + ")"@,
        ReadingStatus::Error { reason } => "error: "@ + reason@,
    }
}

/// Map a reading batch to debug rows: each row keeps the reading's
/// identity and distance, derives its obstruction flag against the
/// threshold, and renders its status.
pub fn debug_sensor_rows(readings: &Vec<SensorReading>, threshold_mm: u16) -> (rows: Vec<DebugSensorReading>)
    ensures
        rows@.len() == readings@.len(),
        forall|i: int| 0 <= i < rows@.len() ==> {
            &&& (#[trigger] rows@[i]).sensor_id == readings@[i].sensor_id
            &&& rows@[i].distance_mm == readings@[i].distance_mm
            &&& rows@[i].obstructed == (match readings@[i].status {
                ReadingStatus::Valid { .. } => Some(readings@[i].distance_mm <= threshold_mm),
                ReadingStatus::Error { .. } => None,
            })
            &&& rows@[i].status@ == spec_debug_status(readings@[i].status)
        },
{
    let mut rows: Vec<DebugSensorReading> = Vec::new();
    let mut index: usize = 0;
    while index < readings.len()
        invariant
            index <= readings@.len(),
            rows@.len() == index,
            forall|i: int| 0 <= i < index ==> {
                &&& (#[trigger] rows@[i]).sensor_id == readings@[i].sensor_id
                &&& rows@[i].distance_mm == readings@[i].distance_mm
                &&& rows@[i].obstructed == (match readings@[i].status {
                    ReadingStatus::Valid { .. } => Some(readings@[i].distance_mm <= threshold_mm),
                    ReadingStatus::Error { .. } => None,
                })
                &&& rows@[i].status@ == spec_debug_status(readings@[i].status)
            },
        decreases readings@.len() - index,
    {
        let reading = &readings[index];
        let (obstructed, status) = match &reading.status {
            ReadingStatus::Valid { range_status } => {
                let mut text = "ok (".to_owned();
                text.append(range_status.name());
                text.append(")");
                (Some(reading.distance_mm <= threshold_mm), text)
            },
            ReadingStatus::Error { reason } => {
                let mut text = "error: ".to_owned();
                text.append(reason.as_str());
                (None, text)
            },
        };
        rows.push(DebugSensorReading {
            sensor_id: reading.sensor_id,
            distance_mm: reading.distance_mm,
            obstructed,
            status,
        });
        index = index + 1;
    }
    rows
}

} // verus!
