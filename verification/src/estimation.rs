//! The estimation family and the per-tick refresh pipeline.

pub mod linear_v1;
pub mod linear_v2;
pub mod model;
pub mod obstruction_count_v1;
pub mod remote;

use vstd::prelude::*;
use std::collections::HashMap;
use vstd::string::StringExecFns;
use crate::errors::AppError;
use crate::estimation::linear_v1::{LinearV1Model, LinearV1Params};
use crate::estimation::linear_v2::{LinearV2Model, LinearV2Params};
use crate::estimation::model::{
    no_data_estimate, spec_valid_count, EstimationModel, Model, OccupancyConfig,
};
use crate::estimation::obstruction_count_v1::{ObstructionCountModel, ObstructionCountParams};
use crate::sensor::{SensorDriverFactory, SensorInfo};
use crate::state::{
    copy_obstructions, AppState, ReadingStatus, SensorObstruction, SensorReading, WaitTimeEstimate,
};
use crate::text::str_eq;
use crate::xshut::{reinitialize_sensor, XshutController};

verus! {

broadcast use vstd::std_specs::hash::group_hash_axioms;

/// Default period of the refresh loop, in milliseconds.
pub const DEFAULT_REFRESH_INTERVAL_MILLIS: u64 = 5000;

/// Consecutive per-sensor read failures that trigger a hardware reset.
pub const MAX_CONSECUTIVE_ERRORS: u32 = 5;

/// Calibration as read from the calibration file: a model name, optional
/// occupancy bounds, and the model's raw parameters. All wait-time values
/// are in milli-minutes.
#[derive(Debug, Clone)]
pub struct CalibrationFile {
    pub model: String,
    pub occupancy_threshold_mm: Option<u16>,
    pub sensor_min_mm: Option<u16>,
    pub sensor_max_mm: Option<u16>,
    pub params: CalibrationValues,
}

/// The raw parameter values a calibration file may carry; each strategy
/// requires its own subset.
#[derive(Debug, Clone, Copy, PartialEq, Eq)]
pub struct CalibrationValues {
    pub slope_milli: Option<i64>,
    pub intercept_milli: Option<i64>,
    pub wait_time_at_empty_milli: Option<i64>,
    pub wait_time_at_full_milli: Option<i64>,
    pub base_milli: Option<i64>,
    pub per_obstruction_milli: Option<i64>,
    pub min_wait_minutes: Option<u32>,
    pub max_wait_minutes: Option<u32>,
}

/// Failures of calibration loading.
#[derive(Debug, Clone, PartialEq, Eq)]
pub enum CalibrationError {
    /// The calibration file could not be read.
    Read(String),
    /// The calibration file could not be parsed.
    Parse(String),
    /// The calibration names an unknown model or unusable parameters.
    Invalid(String),
}

/// The occupancy configuration a calibration selects, with the defaults
/// filled in.
pub open spec fn spec_occupancy_of(c: CalibrationFile) -> OccupancyConfig {
    OccupancyConfig {
        threshold_mm: match c.occupancy_threshold_mm {
            Some(t) => t,
            None => 1200,
        },
        sensor_min_mm: match c.sensor_min_mm {
            Some(t) => t,
            None => 40,
        },
        sensor_max_mm: match c.sensor_max_mm {
            Some(t) => t,
            None => 4000,
        },
    }
}

/// The slope/intercept parameters a value set yields, if both required
/// values are present (their bounds are judged separately).
pub open spec fn spec_v1_params_of(v: CalibrationValues) -> Option<LinearV1Params> {
    match (v.slope_milli, v.intercept_milli) {
        (Some(slope), Some(intercept)) => Some(
            LinearV1Params {
                slope_milli: slope,
                intercept_milli: intercept,
                min_wait_minutes: v.min_wait_minutes,
                max_wait_minutes: v.max_wait_minutes,
            },
        ),
        _ => None,
    }
}

/// The endpoint parameters a value set yields, if both required values are
/// present (their bounds are judged separately).
pub open spec fn spec_v2_params_of(v: CalibrationValues) -> Option<LinearV2Params> {
    match (v.wait_time_at_empty_milli, v.wait_time_at_full_milli) {
        (Some(empty), Some(full)) => Some(
            LinearV2Params { wait_time_at_empty_milli: empty, wait_time_at_full_milli: full },
        ),
        _ => None,
    }
}

/// The obstruction-count parameters a value set yields, if both required
/// values are present (their bounds are judged separately).
pub open spec fn spec_count_params_of(v: CalibrationValues) -> Option<ObstructionCountParams> {
    match (v.base_milli, v.per_obstruction_milli) {
        (Some(base), Some(per)) => Some(
            ObstructionCountParams {
                base_milli: base,
                per_obstruction_milli: per,
                min_wait_minutes: v.min_wait_minutes,
                max_wait_minutes: v.max_wait_minutes,
            },
        ),
        _ => None,
    }
}

/// Build the estimation model a calibration selects.
///
/// Succeeds exactly when the model name is known, that model's parameters
/// are present, and they lie within the bounds its exact integer
/// arithmetic needs. A missing parameter cannot be decoded and is a
/// `Parse` failure; an unknown name or an out-of-bounds value is
/// `Invalid`.
pub fn create_model(config: &CalibrationFile) -> (r: Result<Model, CalibrationError>)
    ensures
        r matches Ok(m) ==> m.wf() && m.spec_occupancy_config() == spec_occupancy_of(*config),
        config.model@ == "linear_v1"@ ==> (match spec_v1_params_of(config.params) {
            Some(p) => if p.wf() {
                r == Ok::<Model, CalibrationError>(
                    Model::LinearV1(LinearV1Model { params: p, occupancy_config: spec_occupancy_of(*config) }),
                )
            } else {
                r matches Err(e) && e is Invalid
            },
            None => r matches Err(e) && e is Parse,
        }),
        config.model@ == "linear_v2"@ ==> (match spec_v2_params_of(config.params) {
            Some(p) => if p.wf() {
                r == Ok::<Model, CalibrationError>(
                    Model::LinearV2(LinearV2Model { params: p, occupancy_config: spec_occupancy_of(*config) }),
                )
            } else {
                r matches Err(e) && e is Invalid
            },
            None => r matches Err(e) && e is Parse,
        }),
        config.model@ == "obstruction_count_v1"@ ==> (match spec_count_params_of(config.params) {
            Some(p) => if p.wf() {
                r == Ok::<Model, CalibrationError>(
                    Model::ObstructionCount(ObstructionCountModel {
                        params: p,
                        occupancy_config: spec_occupancy_of(*config),
                    }),
                )
            } else {
                r matches Err(e) && e is Invalid
            },
            None => r matches Err(e) && e is Parse,
        }),
        config.model@ != "linear_v1"@ && config.model@ != "linear_v2"@ && config.model@
            != "obstruction_count_v1"@ ==> (r matches Err(e) && e matches
            CalibrationError::Invalid(m) && m@ == "unknown model: "@ + config.model@),
{
    proof {
        reveal_strlit("linear_v1");
        reveal_strlit("linear_v2");
        reveal_strlit("obstruction_count_v1");
        assert("linear_v1"@ != "linear_v2"@) by {
            assert("linear_v1"@[8] == '1' && "linear_v2"@[8] == '2');
        }
        assert("linear_v1"@ != "obstruction_count_v1"@) by {
            assert("linear_v1"@.len() == 9 && "obstruction_count_v1"@.len() == 20);
        }
        assert("linear_v2"@ != "obstruction_count_v1"@) by {
            assert("linear_v2"@.len() == 9 && "obstruction_count_v1"@.len() == 20);
        }
    }
    let occupancy_config = OccupancyConfig {
        threshold_mm: match config.occupancy_threshold_mm {
            Some(t) => t,
            None => 1200,
        },
        sensor_min_mm: match config.sensor_min_mm {
            Some(t) => t,
            None => 40,
        },
        sensor_max_mm: match config.sensor_max_mm {
            Some(t) => t,
            None => 4000,
        },
    };

    if str_eq(config.model.as_str(), "linear_v1") {
        let slope = match config.params.slope_milli {
            Some(v) => v,
            None => {
                return Err(CalibrationError::Parse("linear_v1 requires slope".to_owned()));
            },
        };
        let intercept = match config.params.intercept_milli {
            Some(v) => v,
            None => {
                return Err(CalibrationError::Parse("linear_v1 requires intercept".to_owned()));
            },
        };
        let params = LinearV1Params {
            slope_milli: slope,
            intercept_milli: intercept,
            min_wait_minutes: config.params.min_wait_minutes,
            max_wait_minutes: config.params.max_wait_minutes,
        };
        if slope < -linear_v1::LINEAR_SLOPE_LIMIT_MILLI || slope > linear_v1::LINEAR_SLOPE_LIMIT_MILLI
            || intercept < -linear_v1::LINEAR_INTERCEPT_LIMIT_MILLI
            || intercept > linear_v1::LINEAR_INTERCEPT_LIMIT_MILLI {
            return Err(CalibrationError::Invalid("linear_v1 parameter out of range".to_owned()));
        }
        Ok(Model::LinearV1(LinearV1Model::new(params, occupancy_config)))
    } else if str_eq(config.model.as_str(), "linear_v2") {
        let empty = match config.params.wait_time_at_empty_milli {
            Some(v) => v,
            None => {
                return Err(CalibrationError::Parse("linear_v2 requires wait_time_at_empty".to_owned()));
            },
        };
        let full = match config.params.wait_time_at_full_milli {
            Some(v) => v,
            None => {
                return Err(CalibrationError::Parse("linear_v2 requires wait_time_at_full".to_owned()));
            },
        };
        let params = LinearV2Params { wait_time_at_empty_milli: empty, wait_time_at_full_milli: full };
        if empty < -linear_v2::LINEAR_V2_ENDPOINT_LIMIT_MILLI
            || empty > linear_v2::LINEAR_V2_ENDPOINT_LIMIT_MILLI
            || full < -linear_v2::LINEAR_V2_ENDPOINT_LIMIT_MILLI
            || full > linear_v2::LINEAR_V2_ENDPOINT_LIMIT_MILLI {
            return Err(CalibrationError::Invalid("linear_v2 parameter out of range".to_owned()));
        }
        Ok(Model::LinearV2(LinearV2Model::new(params, occupancy_config)))
    } else if str_eq(config.model.as_str(), "obstruction_count_v1") {
        let base = match config.params.base_milli {
            Some(v) => v,
            None => {
                return Err(CalibrationError::Parse("obstruction_count_v1 requires base".to_owned()));
            },
        };
        let per = match config.params.per_obstruction_milli {
            Some(v) => v,
            None => {
                return Err(
                    CalibrationError::Parse("obstruction_count_v1 requires per_obstruction".to_owned()),
                );
            },
        };
        let params = ObstructionCountParams {
            base_milli: base,
            per_obstruction_milli: per,
            min_wait_minutes: config.params.min_wait_minutes,
            max_wait_minutes: config.params.max_wait_minutes,
        };
        if base < -obstruction_count_v1::COUNT_BASE_LIMIT_MILLI
            || base > obstruction_count_v1::COUNT_BASE_LIMIT_MILLI
            || per < -obstruction_count_v1::COUNT_PER_LIMIT_MILLI
            || per > obstruction_count_v1::COUNT_PER_LIMIT_MILLI {
            return Err(
                CalibrationError::Invalid("obstruction_count_v1 parameter out of range".to_owned()),
            );
        }
        Ok(Model::ObstructionCount(ObstructionCountModel::new(params, occupancy_config)))
    } else {
        let mut message = "unknown model: ".to_owned();
        message.append(config.model.as_str());
        Err(CalibrationError::Invalid(message))
    }
}

/// The obstruction flag derived from one reading: below-or-at threshold for
/// a usable reading, unknown for a failed one, the reading's timestamp kept.
pub open spec fn spec_obstruction_of(r: SensorReading, threshold_mm: u16) -> SensorObstruction {
    SensorObstruction {
        sensor_id: r.sensor_id,
        obstructed: match r.status {
            ReadingStatus::Valid { .. } => Some(r.distance_mm <= threshold_mm),
            ReadingStatus::Error { .. } => None,
        },
        timestamp: r.timestamp,
    }
}

/// The obstruction batch derived from one reading batch.
pub open spec fn spec_obstructions_of(rs: Seq<SensorReading>, threshold_mm: u16) -> Seq<SensorObstruction> {
    Seq::new(rs.len(), |i: int| spec_obstruction_of(rs[i], threshold_mm))
}

/// Derive per-sensor obstruction flags from a reading batch: a usable
/// reading at or below the threshold is obstructed, a failed reading is
/// unknown. Also reports how many readings were usable and how many failed.
pub fn obstructions_from_readings(readings: &Vec<SensorReading>, threshold_mm: u16) -> (r: (
    Vec<SensorObstruction>,
    usize,
    usize,
))
    ensures
        r.0@ == spec_obstructions_of(readings@, threshold_mm),
        r.1 == model::spec_valid_count(r.0@),
        r.2 == model::spec_error_count(r.0@),
{
    let mut obstructions: Vec<SensorObstruction> = Vec::new();
    let mut valid: usize = 0;
    let mut errors: usize = 0;
    let mut index: usize = 0;
    while index < readings.len()
        invariant
            index <= readings@.len(),
            obstructions@ =~= spec_obstructions_of(readings@.subrange(0, index as int), threshold_mm),
            valid == model::spec_valid_count(obstructions@),
            errors == model::spec_error_count(obstructions@),
            valid + errors == index,
        decreases readings@.len() - index,
    {
        let ghost prev = obstructions@;
        let reading = &readings[index];
        let obstructed = match &reading.status {
            ReadingStatus::Valid { .. } => {
                valid = valid + 1;
                Some(reading.distance_mm <= threshold_mm)
            },
            ReadingStatus::Error { .. } => {
                errors = errors + 1;
                None
            },
        };
        obstructions.push(SensorObstruction {
            sensor_id: reading.sensor_id,
            obstructed,
            timestamp: reading.timestamp,
        });
        index = index + 1;
        proof {
            assert(obstructions@.drop_last() =~= prev);
            assert(obstructions@ =~= spec_obstructions_of(
                readings@.subrange(0, index as int),
                threshold_mm,
            ));
        }
    }
    proof {
        assert(readings@.subrange(0, readings@.len() as int) =~= readings@);
    }
    (obstructions, valid, errors)
}

/// Derive obstruction flags from the store's current readings and persist
/// the batch as one atomic replacement.
pub fn update_obstructions_from_readings<M: EstimationModel>(state: &mut AppState, model: &M) -> (r: Result<
    Vec<SensorObstruction>,
    AppError,
>)
    ensures
        r matches Ok(v) && v@ == spec_obstructions_of(
            old(state).spec_readings(),
            model.spec_occupancy_config().threshold_mm,
        ),
        r matches Ok(v) ==> final(state).spec_obstructions() == v@,
        final(state).spec_sensors() == old(state).spec_sensors(),
        final(state).spec_readings() == old(state).spec_readings(),
        final(state).spec_wait_time() == old(state).spec_wait_time(),
        final(state).spec_calibration() == old(state).spec_calibration(),
        final(state).spec_model() == old(state).spec_model(),
{
    let threshold_mm = model.occupancy_config().threshold_mm;
    let (obstructions, _valid, _errors) = obstructions_from_readings(state.readings(), threshold_mm);
    let snapshot = copy_obstructions(&obstructions);
    state.set_obstructions(snapshot)?;
    Ok(obstructions)
}

/// Ask the active strategy for a wait-time estimate over the store's
/// current obstruction batch and persist it.
pub fn update_wait_time_from_obstructions<M: EstimationModel>(
    state: &mut AppState,
    model: &M,
    now_ms: u64,
) -> (r: Result<WaitTimeEstimate, AppError>)
    requires
        model.wf(),
    ensures
        r matches Ok(e) && model.wait_ens(old(state).spec_obstructions(), now_ms, e),
        r matches Ok(e) ==> {
            &&& final(state).spec_wait_time() == Some(e)
            &&& spec_valid_count(old(state).spec_obstructions()) == 0 ==> e == no_data_estimate(
                now_ms,
            )
        },
        final(state).spec_sensors() == old(state).spec_sensors(),
        final(state).spec_readings() == old(state).spec_readings(),
        final(state).spec_obstructions() == old(state).spec_obstructions(),
        final(state).spec_calibration() == old(state).spec_calibration(),
        final(state).spec_model() == old(state).spec_model(),
{
    let wait_time = model.compute_wait_time(state.obstructions(), now_ms);
    state.set_wait_time(wait_time)?;
    Ok(wait_time)
}

/// One estimation pass: derive obstructions from the current readings, then
/// estimate the wait time from that same batch.
///
/// Within one pass the estimate always observes the obstruction batch
/// written in the same pass, never an older one.
pub fn run_refresh_cycle<M: EstimationModel>(state: &mut AppState, model: &M, now_ms: u64) -> (r: Result<
    (),
    AppError,
>)
    requires
        model.wf(),
    ensures
        r is Ok,
        final(state).spec_obstructions() == spec_obstructions_of(
            old(state).spec_readings(),
            model.spec_occupancy_config().threshold_mm,
        ),
        final(state).spec_wait_time() matches Some(e) && model.wait_ens(
            final(state).spec_obstructions(),
            now_ms,
            e,
        ),
        final(state).spec_sensors() == old(state).spec_sensors(),
        final(state).spec_readings() == old(state).spec_readings(),
        final(state).spec_calibration() == old(state).spec_calibration(),
        final(state).spec_model() == old(state).spec_model(),
{
    update_obstructions_from_readings(state, model)?;
    update_wait_time_from_obstructions(state, model, now_ms)?;
    Ok(())
}

/// The counter recorded for `id`, zero when none is recorded.
pub open spec fn spec_count_of(m: Map<u32, u32>, id: u32) -> int {
    if m.contains_key(id) {
        m[id] as int
    } else {
        0
    }
}

/// A counter grown by one failed reading, saturating at the type's top.
pub open spec fn spec_grown(c: int) -> int {
    if c < u32::MAX {
        c + 1
    } else {
        c
    }
}

/// `id` is the sensor id of some roster entry.
pub open spec fn spec_in_roster(sensors: Seq<SensorInfo>, id: u32) -> bool {
    exists|i: int| 0 <= i < sensors.len() && (#[trigger] sensors[i]).sensor_id == id
}

/// Track consecutive per-sensor read failures over one tick's batch.
///
/// A usable reading zeroes its sensor's counter. A failed reading grows it
/// by one (saturating); once the grown count reaches the threshold and a
/// controller is available and the sensor is in the roster, the sensor's
/// hardware is reset, and only a successful reset may take the counter
/// back to zero (success rests on the hardware traits, so it cannot be
/// promised). Sensors outside the batch keep their counters untouched.
pub fn update_error_counters<X: XshutController, F: SensorDriverFactory>(
    factory: &mut F,
    xshut: &mut Option<X>,
    sensors: &Vec<SensorInfo>,
    readings: &Vec<SensorReading>,
    error_counts: &mut HashMap<u32, u32>,
)
    requires
        forall|k1: int, k2: int| 0 <= k1 < k2 < readings@.len() ==> (
        #[trigger] readings@[k1]).sensor_id != (#[trigger] readings@[k2]).sensor_id,
    ensures
        forall|k: int| 0 <= k < readings@.len() && (#[trigger] readings@[k]).status is Valid ==> {
            &&& final(error_counts)@.contains_key(readings@[k].sensor_id)
            &&& final(error_counts)@[readings@[k].sensor_id] == 0
        },
        forall|k: int| 0 <= k < readings@.len() && (#[trigger] readings@[k]).status is Error ==> {
            let id = readings@[k].sensor_id;
            let grown = spec_grown(spec_count_of(old(error_counts)@, id));
            &&& final(error_counts)@.contains_key(id)
            &&& (final(error_counts)@[id] == grown || (grown >= MAX_CONSECUTIVE_ERRORS && (*old(
                xshut,
            )) is Some && spec_in_roster(sensors@, id) && final(error_counts)@[id] == 0))
        },
        forall|id: u32| !id_among(readings@, readings@.len() as int, id) ==> {
            &&& #[trigger] final(error_counts)@.contains_key(id) == old(
                error_counts,
            )@.contains_key(id)
            &&& (final(error_counts)@.contains_key(id) ==> final(error_counts)@[id] == old(
                error_counts,
            )@[id])
        },
{
    let mut index: usize = 0;
    while index < readings.len()
        invariant
            index <= readings@.len(),
            forall|k1: int, k2: int| 0 <= k1 < k2 < readings@.len() ==> (
            #[trigger] readings@[k1]).sensor_id != (#[trigger] readings@[k2]).sensor_id,
            ((*xshut) is Some) == ((*old(xshut)) is Some),
            forall|k: int| 0 <= k < index && (#[trigger] readings@[k]).status is Valid ==> {
                &&& error_counts@.contains_key(readings@[k].sensor_id)
                &&& error_counts@[readings@[k].sensor_id] == 0
            },
            forall|k: int| 0 <= k < index && (#[trigger] readings@[k]).status is Error ==> {
                let id = readings@[k].sensor_id;
                let grown = spec_grown(spec_count_of(old(error_counts)@, id));
                &&& error_counts@.contains_key(id)
                &&& (error_counts@[id] == grown || (grown >= MAX_CONSECUTIVE_ERRORS && (*old(
                    xshut,
                )) is Some && spec_in_roster(sensors@, id) && error_counts@[id] == 0))
            },
            forall|id: u32| !id_among(readings@, index as int, id) ==> {
                &&& #[trigger] error_counts@.contains_key(id) == old(
                    error_counts,
                )@.contains_key(id)
                &&& (error_counts@.contains_key(id) ==> error_counts@[id] == old(
                    error_counts,
                )@[id])
            },
        decreases readings@.len() - index,
    {
        let reading = &readings[index];
        let id = reading.sensor_id;
        proof {
            assert(!id_among(readings@, index as int, id));
        }
        match &reading.status {
            ReadingStatus::Valid { .. } => {
                error_counts.insert(id, 0);
            },
            ReadingStatus::Error { .. } => {
                let seen: u32 = match error_counts.get(&id) {
                    Some(c) => *c,
                    None => 0,
                };
                let count: u32 = if seen < u32::MAX {
                    seen + 1
                } else {
                    seen
                };
                error_counts.insert(id, count);

                if count >= MAX_CONSECUTIVE_ERRORS {
                    match xshut {
                        Some(controller) => {
                            let mut found: Option<usize> = None;
                            let mut scan: usize = 0;
                            while scan < sensors.len()
                                invariant
                                    scan <= sensors@.len(),
                                    found matches Some(p) ==> p < sensors@.len() && sensors@[
                                        p as int
                                    ].sensor_id == id,
                                decreases sensors@.len() - scan,
                            {
                                if sensors[scan].sensor_id == id && found.is_none() {
                                    found = Some(scan);
                                }
                                scan = scan + 1;
                            }
                            if let Some(position) = found {
                                let outcome = reinitialize_sensor(controller, factory, &sensors[position]);
                                if outcome.is_ok() {
                                    proof {
                                        assert(spec_in_roster(sensors@, id));
                                    }
                                    error_counts.insert(id, 0);
                                }
                            }
                        },
                        None => {},
                    }
                }
            },
        }
        index = index + 1;
        proof {
            assert(id_among(readings@, index as int, id));
        }
    }
}

/// One full refresh tick: run the read cycle, track consecutive per-sensor
/// failures (resetting a sensor's hardware once its count reaches the
/// threshold and a controller is available), then derive obstructions and
/// the wait-time estimate from this tick's batch. The stored reading batch
/// drives the counters exactly as `update_error_counters` states.
pub fn refresh_tick<X: XshutController, F: SensorDriverFactory, M: EstimationModel>(
    factory: &mut F,
    xshut: &mut Option<X>,
    sensors: &Vec<SensorInfo>,
    state: &mut AppState,
    error_counts: &mut HashMap<u32, u32>,
    model: &M,
    now_ms: u64,
) -> (r: Result<(), AppError>)
    requires
        model.wf(),
        forall|i: int, j: int| 0 <= i < j < sensors@.len() ==> (#[trigger] sensors@[i]).sensor_id
            != (#[trigger] sensors@[j]).sensor_id,
    ensures
        r is Ok,
        final(state).spec_obstructions() == spec_obstructions_of(
            final(state).spec_readings(),
            model.spec_occupancy_config().threshold_mm,
        ),
        final(state).spec_wait_time() matches Some(e) && model.wait_ens(
            final(state).spec_obstructions(),
            now_ms,
            e,
        ),
        final(state).spec_sensors() == old(state).spec_sensors(),
        final(state).spec_calibration() == old(state).spec_calibration(),
        final(state).spec_model() == old(state).spec_model(),
        forall|k: int| 0 <= k < final(state).spec_readings().len()
            && (#[trigger] final(state).spec_readings()[k]).status is Valid ==> {
            &&& final(error_counts)@.contains_key(final(state).spec_readings()[k].sensor_id)
            &&& final(error_counts)@[final(state).spec_readings()[k].sensor_id] == 0
        },
        forall|k: int| 0 <= k < final(state).spec_readings().len()
            && (#[trigger] final(state).spec_readings()[k]).status is Error ==> {
            let id = final(state).spec_readings()[k].sensor_id;
            let grown = spec_grown(spec_count_of(old(error_counts)@, id));
            &&& final(error_counts)@.contains_key(id)
            &&& (final(error_counts)@[id] == grown || (grown >= MAX_CONSECUTIVE_ERRORS && (*old(
                xshut,
            )) is Some && spec_in_roster(sensors@, id) && final(error_counts)@[id] == 0))
        },
        forall|id: u32| !id_among(final(state).spec_readings(), final(state).spec_readings().len() as int, id)
            ==> {
            &&& #[trigger] final(error_counts)@.contains_key(id) == old(
                error_counts,
            )@.contains_key(id)
            &&& (final(error_counts)@.contains_key(id) ==> final(error_counts)@[id] == old(
                error_counts,
            )@[id])
        },
{
    let readings = crate::readings::read_and_store_distances(factory, sensors, state, model, now_ms)?;
    proof {
        crate::readings::lemma_ready_ids_distinct(sensors@);
    }

    update_error_counters(factory, xshut, sensors, &readings, error_counts);

    let ghost stored = state.spec_readings();
    proof {
        assert forall|k: int| 0 <= k < stored.len() implies {
            &&& (#[trigger] stored[k]).sensor_id == readings@[k].sensor_id
            &&& (stored[k].status is Valid <==> readings@[k].status is Valid)
            &&& (stored[k].status is Error <==> readings@[k].status is Error)
        } by {
            assert(crate::state::reading_like(readings@[k], stored[k]));
        }
        assert forall|id: u32| id_among(readings@, readings@.len() as int, id) implies id_among(
            stored,
            stored.len() as int,
            id,
        ) by {
            let k = choose|k: int|
                0 <= k < readings@.len() && k < readings@.len() && (#[trigger] readings@[
                    k
                ]).sensor_id == id;
            assert(stored[k].sensor_id == id);
        }
    }

    run_refresh_cycle(state, model, now_ms)?;
    Ok(())
}

/// `id` is the sensor id of one of the first `n` readings.
pub open spec fn id_among(readings: Seq<SensorReading>, n: int, id: u32) -> bool {
    exists|k: int| 0 <= k < n && k < readings.len() && (#[trigger] readings[k]).sensor_id == id
}

} // verus!
