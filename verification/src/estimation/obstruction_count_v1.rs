//! Obstruction-count estimation strategy.
//!
//! Minutes are `base + per_obstruction * obstructed_count` — an absolute
//! count, not a percentage — computed exactly in milli-minutes (saturating
//! at the `i64` range) and clamped to optional bounds.

use vstd::prelude::*;
use crate::estimation::model::{
    cap_to_i64, clamp_minutes, count_obstructions, no_data_estimate, spec_clamp_minutes,
    spec_obstructed_count, spec_valid_count, spec_error_count, EstimationModel, OccupancyConfig,
};
use crate::state::{SensorObstruction, WaitTimeEstimate, WaitTimeStatus};

verus! {

/// Largest base magnitude accepted, in milli-minutes.
pub const COUNT_BASE_LIMIT_MILLI: i64 = 1_000_000_000_000;

/// Largest per-obstruction magnitude accepted, in milli-minutes.
pub const COUNT_PER_LIMIT_MILLI: i64 = 1_000_000_000;

/// Parameters of the obstruction-count strategy, in milli-minutes.
#[derive(Debug, Clone, Copy, PartialEq, Eq)]
pub struct ObstructionCountParams {
    pub base_milli: i64,
    pub per_obstruction_milli: i64,
    pub min_wait_minutes: Option<u32>,
    pub max_wait_minutes: Option<u32>,
}

impl ObstructionCountParams {
    /// Bounds under which the computation stays exact up to `i64` saturation.
    pub open spec fn wf(&self) -> bool {
        &&& -COUNT_BASE_LIMIT_MILLI <= self.base_milli <= COUNT_BASE_LIMIT_MILLI
        &&& -COUNT_PER_LIMIT_MILLI <= self.per_obstruction_milli <= COUNT_PER_LIMIT_MILLI
    }
}

impl Default for ObstructionCountParams {
    /// Two minutes per obstructed sensor, no base, no clamping.
    fn default() -> (p: Self)
        ensures
            p == (ObstructionCountParams {
                base_milli: 0i64,
                per_obstruction_milli: 2000i64,
                min_wait_minutes: None,
                max_wait_minutes: None,
            }),
    {
        ObstructionCountParams {
            base_milli: 0,
            per_obstruction_milli: 2000,
            min_wait_minutes: None,
            max_wait_minutes: None,
        }
    }
}

/// Minutes (in milli-minutes) this strategy assigns to `occ` obstructed
/// sensors.
pub open spec fn spec_obstruction_count_minutes(params: ObstructionCountParams, occ: int) -> int {
    spec_clamp_minutes(
        cap_to_i64(params.base_milli + params.per_obstruction_milli * occ),
        params.min_wait_minutes,
        params.max_wait_minutes,
    )
}

/// The obstruction-count strategy.
#[derive(Debug, Clone, Copy)]
pub struct ObstructionCountModel {
    pub params: ObstructionCountParams,
    pub occupancy_config: OccupancyConfig,
}

impl ObstructionCountModel {
    pub fn new(params: ObstructionCountParams, occupancy_config: OccupancyConfig) -> (m: Self)
        ensures
            m == (ObstructionCountModel { params, occupancy_config }),
    {
        ObstructionCountModel { params, occupancy_config }
    }

    pub fn with_defaults() -> (m: Self)
        ensures
            m == (ObstructionCountModel {
                params: ObstructionCountParams {
                    base_milli: 0i64,
                    per_obstruction_milli: 2000i64,
                    min_wait_minutes: None,
                    max_wait_minutes: None,
                },
                occupancy_config: OccupancyConfig { threshold_mm: 1200, sensor_min_mm: 10, sensor_max_mm: 4000 },
            }),
            m.wf(),
    {
        ObstructionCountModel::new(ObstructionCountParams::default(), OccupancyConfig::default())
    }
}

impl EstimationModel for ObstructionCountModel {
    open spec fn wf(&self) -> bool {
        self.params.wf()
    }

    open spec fn spec_occupancy_config(&self) -> OccupancyConfig {
        self.occupancy_config
    }

    open spec fn wait_ens(&self, obs: Seq<SensorObstruction>, now_ms: u64, e: WaitTimeEstimate) -> bool {
        let valid = spec_valid_count(obs);
        if valid == 0 {
            e == no_data_estimate(now_ms)
        } else {
            e == (WaitTimeEstimate {
                wait_time_milli_minutes: Some(
                    spec_obstruction_count_minutes(self.params, spec_obstructed_count(obs)) as i64,
                ),
                timestamp: now_ms,
                status: if spec_error_count(obs) > 0 {
                    WaitTimeStatus::Degraded
                } else {
                    WaitTimeStatus::Nominal
                },
                error_code: None,
            })
        }
    }

    fn compute_wait_time(&self, obstructions: &Vec<SensorObstruction>, now_ms: u64) -> (e: WaitTimeEstimate) {
        let (valid, obstructed, errors) = count_obstructions(obstructions);
        if valid == 0 {
            WaitTimeEstimate {
                wait_time_milli_minutes: None,
                timestamp: now_ms,
                status: WaitTimeStatus::Degraded,
                error_code: Some(crate::state::WaitTimeErrorCode::NoData),
            }
        } else {
            proof {
                let p = self.params.per_obstruction_milli as int;
                let o = obstructed as int;
                assert(-(COUNT_PER_LIMIT_MILLI as int) * (u64::MAX as int) <= p * o
                    <= (COUNT_PER_LIMIT_MILLI as int) * (u64::MAX as int)) by (nonlinear_arith)
                    requires
                        -(COUNT_PER_LIMIT_MILLI as int) <= p <= COUNT_PER_LIMIT_MILLI as int,
                        0 <= o <= u64::MAX as int,
                ;
            }
            let scaled: i128 = (self.params.per_obstruction_milli as i128) * (obstructed as i128);
            let total: i128 = (self.params.base_milli as i128) + scaled;
            let capped: i64 = if total > (i64::MAX as i128) {
                i64::MAX
            } else if total < (i64::MIN as i128) {
                i64::MIN
            } else {
                total as i64
            };
            let minutes: i64 = clamp_minutes(capped, self.params.min_wait_minutes, self.params.max_wait_minutes);
            let status = if errors > 0 {
                WaitTimeStatus::Degraded
            } else {
                WaitTimeStatus::Nominal
            };
            WaitTimeEstimate {
                wait_time_milli_minutes: Some(minutes),
                timestamp: now_ms,
                status,
                error_code: None,
            }
        }
    }

    fn occupancy_config(&self) -> (c: &OccupancyConfig) {
        &self.occupancy_config
    }
}

} // verus!
