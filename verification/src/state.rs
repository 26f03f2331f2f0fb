//! Live pipeline data and the store that owns it.
//!
//! The store holds one copy of each data stream (sensor roster, readings,
//! obstructions, wait-time estimate) and broadcasts every replacement over a
//! latest-value channel, so subscribers only ever observe the most recent
//! value. Wait times and calibration parameters are held in thousandths of a
//! minute ("milli-minutes"), so every arithmetic step stays exact integer
//! computation.

use vstd::prelude::*;
use crate::errors::AppError;
use crate::estimation::linear_v1::LinearV1Model;
use crate::estimation::model::{Model, OccupancyConfig};
use crate::sensor::{SensorId, SensorInfo};

verus! {

/// Outcome of validating one distance sample.
#[derive(Debug, Clone, PartialEq, Eq)]
pub enum ReadingStatus {
    Valid { range_status: crate::sensor::SensorRangeStatus },
    Error { reason: String },
}

/// One validated (or failed) distance sample for one sensor.
#[derive(Debug, Clone, PartialEq, Eq)]
pub struct SensorReading {
    pub sensor_id: SensorId,
    pub distance_mm: u16,
    /// Milliseconds since the Unix epoch.
    pub timestamp: u64,
    pub status: ReadingStatus,
}

/// Whether a sensor saw something below the occupancy threshold.
/// `obstructed` is `None` exactly when the source reading was not usable.
#[derive(Debug, Clone, Copy, PartialEq, Eq)]
pub struct SensorObstruction {
    pub sensor_id: SensorId,
    pub obstructed: Option<bool>,
    /// Milliseconds since the Unix epoch.
    pub timestamp: u64,
}

/// Quality of an aggregated occupancy figure.
#[derive(Debug, Clone, Copy, PartialEq, Eq)]
pub enum OccupancyStatus {
    Nominal,
    NoData,
    Degraded,
}

/// Quality of a wait-time estimate.
#[derive(Debug, Clone, Copy, PartialEq, Eq)]
pub enum WaitTimeStatus {
    Nominal,
    Degraded,
}

/// Machine-readable reason attached to a degraded estimate.
#[derive(Debug, Clone, Copy, PartialEq, Eq)]
pub enum WaitTimeErrorCode {
    NoData,
}

/// Slope/intercept calibration, in milli-minutes per percentage point and
/// milli-minutes respectively, with optional whole-minute clamping bounds.
#[derive(Debug, Clone, Copy, PartialEq, Eq)]
pub struct CalibrationParams {
    pub slope_milli: i64,
    pub intercept_milli: i64,
    pub min_wait_minutes: Option<u32>,
    pub max_wait_minutes: Option<u32>,
}

/// Aggregated occupancy over one batch, in thousandths of a percent.
#[derive(Debug, Clone, Copy, PartialEq, Eq)]
pub struct OccupancyReading {
    pub occupancy_milli_percent: Option<u64>,
    /// Milliseconds since the Unix epoch.
    pub timestamp: u64,
    pub status: OccupancyStatus,
}

/// One wait-time estimate, in milli-minutes.
#[derive(Debug, Clone, Copy, PartialEq, Eq)]
pub struct WaitTimeEstimate {
    pub wait_time_milli_minutes: Option<i64>,
    /// Milliseconds since the Unix epoch.
    pub timestamp: u64,
    pub status: WaitTimeStatus,
    pub error_code: Option<WaitTimeErrorCode>,
}

/// `a` and `b` carry the same reading: equal fields, with failure reasons
/// compared by their characters.
pub open spec fn reading_like(a: SensorReading, b: SensorReading) -> bool {
    &&& a.sensor_id == b.sensor_id
    &&& a.distance_mm == b.distance_mm
    &&& a.timestamp == b.timestamp
    &&& match (a.status, b.status) {
        (ReadingStatus::Valid { range_status: x }, ReadingStatus::Valid { range_status: y }) => x == y,
        (ReadingStatus::Error { reason: x }, ReadingStatus::Error { reason: y }) => x@ == y@,
        _ => false,
    }
}

/// `a` and `b` are the same reading batch, entry for entry.
pub open spec fn readings_like(a: Seq<SensorReading>, b: Seq<SensorReading>) -> bool {
    &&& a.len() == b.len()
    &&& forall|i: int| 0 <= i < a.len() ==> #[trigger] reading_like(a[i], b[i])
}

/// An entry-for-entry copy of a reading batch.
pub fn copy_readings(v: &Vec<SensorReading>) -> (r: Vec<SensorReading>)
    ensures
        readings_like(v@, r@),
{
    let mut r: Vec<SensorReading> = Vec::new();
    let mut index: usize = 0;
    while index < v.len()
        invariant
            index <= v@.len(),
            r@.len() == index,
            forall|i: int| 0 <= i < index ==> #[trigger] reading_like(v@[i], r@[i]),
        decreases v@.len() - index,
    {
        let entry = &v[index];
        let status = match &entry.status {
            ReadingStatus::Valid { range_status } => ReadingStatus::Valid { range_status: *range_status },
            ReadingStatus::Error { reason } => ReadingStatus::Error { reason: reason.clone() },
        };
        r.push(SensorReading {
            sensor_id: entry.sensor_id,
            distance_mm: entry.distance_mm,
            timestamp: entry.timestamp,
            status,
        });
        index = index + 1;
    }
    r
}

/// An entry-for-entry copy of an obstruction batch.
pub fn copy_obstructions(v: &Vec<SensorObstruction>) -> (r: Vec<SensorObstruction>)
    ensures
        r@ == v@,
{
    let mut r: Vec<SensorObstruction> = Vec::new();
    let mut index: usize = 0;
    while index < v.len()
        invariant
            index <= v@.len(),
            r@ =~= v@.subrange(0, index as int),
        decreases v@.len() - index,
    {
        r.push(v[index]);
        index = index + 1;
    }
    proof {
        assert(v@.subrange(0, v@.len() as int) =~= v@);
    }
    r
}

#[verifier::external_type_specification]
#[verifier::external_body]
#[verifier::reject_recursive_types(T)]
pub struct ExWatchSender<T>(tokio::sync::watch::Sender<T>);

#[verifier::external_type_specification]
#[verifier::external_body]
#[verifier::reject_recursive_types(T)]
pub struct ExWatchReceiver<T>(tokio::sync::watch::Receiver<T>);

/// Relies on tokio's `watch::channel`: creates a latest-value broadcast
/// channel seeded with `initial`. Nothing about the channel's contents is
/// visible to verified code, so no contract is stated.
#[verifier::external_body]
fn watch_channel<T>(initial: T) -> (tokio::sync::watch::Sender<T>, tokio::sync::watch::Receiver<T>) {
    tokio::sync::watch::channel(initial)
}

/// Relies on tokio's `watch::Sender::send_replace`: replaces the channel's
/// latest value with a clone of `value`, whether or not a receiver is
/// attached, so a later subscriber still observes it.
#[verifier::external_body]
fn watch_send<T: Clone>(tx: &tokio::sync::watch::Sender<T>, value: &T) {
    let _ = tx.send_replace(value.clone());
}

/// Relies on tokio's `watch::Sender::subscribe`: a fresh receiver that
/// immediately observes the channel's current value and every later one.
#[verifier::external_body]
fn watch_subscribe<T>(tx: &tokio::sync::watch::Sender<T>) -> tokio::sync::watch::Receiver<T> {
    tx.subscribe()
}

/// Sole owner of the live pipeline data. Every mutator replaces a whole
/// stream at once and then broadcasts the new value; readers get snapshots.
#[derive(Debug)]
pub struct AppState {
    sensors: Vec<SensorInfo>,
    sensors_tx: tokio::sync::watch::Sender<Vec<SensorInfo>>,
    readings: Vec<SensorReading>,
    readings_tx: tokio::sync::watch::Sender<Vec<SensorReading>>,
    obstructions: Vec<SensorObstruction>,
    obstructions_tx: tokio::sync::watch::Sender<Vec<SensorObstruction>>,
    wait_time: Option<WaitTimeEstimate>,
    wait_time_tx: tokio::sync::watch::Sender<Option<WaitTimeEstimate>>,
    calibration: Option<CalibrationParams>,
    model: Model,
}

impl AppState {
    pub closed spec fn spec_sensors(&self) -> Seq<SensorInfo> {
        self.sensors@
    }

    pub closed spec fn spec_readings(&self) -> Seq<SensorReading> {
        self.readings@
    }

    pub closed spec fn spec_obstructions(&self) -> Seq<SensorObstruction> {
        self.obstructions@
    }

    pub closed spec fn spec_wait_time(&self) -> Option<WaitTimeEstimate> {
        self.wait_time
    }

    pub closed spec fn spec_calibration(&self) -> Option<CalibrationParams> {
        self.calibration
    }

    pub closed spec fn spec_model(&self) -> Model {
        self.model
    }

    /// A fresh store: every stream empty, no estimate, no calibration, and
    /// the default linear model active.
    pub fn new() -> (s: Self)
        ensures
            s.spec_sensors().len() == 0,
            s.spec_readings().len() == 0,
            s.spec_obstructions().len() == 0,
            s.spec_wait_time() is None,
            s.spec_calibration() is None,
            s.spec_model() == Model::LinearV1(LinearV1Model::spec_with_defaults()),
    {
        let (sensors_tx, _sensors_rx) = watch_channel::<Vec<SensorInfo>>(Vec::new());
        let (readings_tx, _readings_rx) = watch_channel::<Vec<SensorReading>>(Vec::new());
        let (obstructions_tx, _obstructions_rx) = watch_channel::<Vec<SensorObstruction>>(Vec::new());
        let (wait_time_tx, _wait_time_rx) = watch_channel::<Option<WaitTimeEstimate>>(None);
        let model = Model::LinearV1(LinearV1Model::with_defaults());
        AppState {
            sensors: Vec::new(),
            sensors_tx,
            readings: Vec::new(),
            readings_tx,
            obstructions: Vec::new(),
            obstructions_tx,
            wait_time: None,
            wait_time_tx,
            calibration: None,
            model,
        }
    }

    pub fn sensors(&self) -> (r: &Vec<SensorInfo>)
        ensures
            r@ == self.spec_sensors(),
    {
        &self.sensors
    }

    pub fn subscribe_sensors(&self) -> tokio::sync::watch::Receiver<Vec<SensorInfo>> {
        watch_subscribe(&self.sensors_tx)
    }

    /// Replace the sensor roster and broadcast it. The broadcast is best
    /// effort: a send with no subscribers is not an error.
    pub fn set_sensors(&mut self, sensors: Vec<SensorInfo>) -> (r: Result<(), AppError>)
        ensures
            r is Ok,
            final(self).spec_sensors() == sensors@,
            final(self).spec_readings() == old(self).spec_readings(),
            final(self).spec_obstructions() == old(self).spec_obstructions(),
            final(self).spec_wait_time() == old(self).spec_wait_time(),
            final(self).spec_calibration() == old(self).spec_calibration(),
            final(self).spec_model() == old(self).spec_model(),
    {
        self.sensors = sensors;
        watch_send(&self.sensors_tx, &self.sensors);
        Ok(())
    }

    pub fn readings(&self) -> (r: &Vec<SensorReading>)
        ensures
            r@ == self.spec_readings(),
    {
        &self.readings
    }

    pub fn subscribe_readings(&self) -> tokio::sync::watch::Receiver<Vec<SensorReading>> {
        watch_subscribe(&self.readings_tx)
    }

    /// Replace the reading batch and broadcast it.
    pub fn set_readings(&mut self, readings: Vec<SensorReading>) -> (r: Result<(), AppError>)
        ensures
            r is Ok,
            final(self).spec_readings() == readings@,
            final(self).spec_sensors() == old(self).spec_sensors(),
            final(self).spec_obstructions() == old(self).spec_obstructions(),
            final(self).spec_wait_time() == old(self).spec_wait_time(),
            final(self).spec_calibration() == old(self).spec_calibration(),
            final(self).spec_model() == old(self).spec_model(),
    {
        self.readings = readings;
        watch_send(&self.readings_tx, &self.readings);
        Ok(())
    }

    pub fn obstructions(&self) -> (r: &Vec<SensorObstruction>)
        ensures
            r@ == self.spec_obstructions(),
    {
        &self.obstructions
    }

    pub fn subscribe_obstructions(&self) -> tokio::sync::watch::Receiver<Vec<SensorObstruction>> {
        watch_subscribe(&self.obstructions_tx)
    }

    /// Replace the obstruction batch and broadcast it.
    pub fn set_obstructions(&mut self, obstructions: Vec<SensorObstruction>) -> (r: Result<(), AppError>)
        ensures
            r is Ok,
            final(self).spec_obstructions() == obstructions@,
            final(self).spec_sensors() == old(self).spec_sensors(),
            final(self).spec_readings() == old(self).spec_readings(),
            final(self).spec_wait_time() == old(self).spec_wait_time(),
            final(self).spec_calibration() == old(self).spec_calibration(),
            final(self).spec_model() == old(self).spec_model(),
    {
        self.obstructions = obstructions;
        watch_send(&self.obstructions_tx, &self.obstructions);
        Ok(())
    }

    pub fn wait_time(&self) -> (r: Option<&WaitTimeEstimate>)
        ensures
            match r {
                Some(e) => self.spec_wait_time() == Some(*e),
                None => self.spec_wait_time() is None,
            },
    {
        self.wait_time.as_ref()
    }

    pub fn subscribe_wait_time(&self) -> tokio::sync::watch::Receiver<Option<WaitTimeEstimate>> {
        watch_subscribe(&self.wait_time_tx)
    }

    /// Replace the wait-time estimate and broadcast it.
    pub fn set_wait_time(&mut self, wait_time: WaitTimeEstimate) -> (r: Result<(), AppError>)
        ensures
            r is Ok,
            final(self).spec_wait_time() == Some(wait_time),
            final(self).spec_sensors() == old(self).spec_sensors(),
            final(self).spec_readings() == old(self).spec_readings(),
            final(self).spec_obstructions() == old(self).spec_obstructions(),
            final(self).spec_calibration() == old(self).spec_calibration(),
            final(self).spec_model() == old(self).spec_model(),
    {
        self.wait_time = Some(wait_time);
        watch_send(&self.wait_time_tx, &self.wait_time);
        Ok(())
    }

    pub fn calibration(&self) -> (r: Option<CalibrationParams>)
        ensures
            r == self.spec_calibration(),
    {
        self.calibration
    }

    pub fn set_calibration(&mut self, calibration: Option<CalibrationParams>)
        ensures
            final(self).spec_calibration() == calibration,
            final(self).spec_sensors() == old(self).spec_sensors(),
            final(self).spec_readings() == old(self).spec_readings(),
            final(self).spec_obstructions() == old(self).spec_obstructions(),
            final(self).spec_wait_time() == old(self).spec_wait_time(),
            final(self).spec_model() == old(self).spec_model(),
    {
        self.calibration = calibration;
    }

    pub fn set_model(&mut self, model: Model)
        ensures
            final(self).spec_model() == model,
            final(self).spec_sensors() == old(self).spec_sensors(),
            final(self).spec_readings() == old(self).spec_readings(),
            final(self).spec_obstructions() == old(self).spec_obstructions(),
            final(self).spec_wait_time() == old(self).spec_wait_time(),
            final(self).spec_calibration() == old(self).spec_calibration(),
    {
        self.model = model;
    }

    pub fn model(&self) -> (m: Model)
        ensures
            m == self.spec_model(),
    {
        self.model
    }
}

impl Default for AppState {
    fn default() -> (s: Self)
        ensures
            s.spec_sensors().len() == 0,
            s.spec_readings().len() == 0,
            s.spec_obstructions().len() == 0,
            s.spec_wait_time() is None,
            s.spec_calibration() is None,
            s.spec_model() == Model::LinearV1(LinearV1Model::spec_with_defaults()),
    {
        Self::new()
    }
}

} // verus!
