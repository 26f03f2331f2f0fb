//! Endpoint-interpolation estimation strategy.
//!
//! Minutes are interpolated linearly between the wait at an empty area and
//! the wait at a full one, by the fraction of obstructed sensors, computed
//! exactly in milli-minutes with the division last.

use vstd::prelude::*;
use crate::estimation::model::{
    count_obstructions, no_data_estimate, scaled_ratio, spec_obstructed_count, spec_scaled_ratio,
    spec_valid_count, spec_error_count, EstimationModel, OccupancyConfig,
};
use crate::state::{SensorObstruction, WaitTimeEstimate, WaitTimeStatus};

verus! {

/// Largest endpoint magnitude accepted, in milli-minutes.
pub const LINEAR_V2_ENDPOINT_LIMIT_MILLI: i64 = 1_000_000_000_000;

/// Endpoint parameters, in milli-minutes.
#[derive(Debug, Clone, Copy, PartialEq, Eq)]
pub struct LinearV2Params {
    /// Wait time when no sensor is obstructed.
    pub wait_time_at_empty_milli: i64,
    /// Wait time when every sensor is obstructed.
    pub wait_time_at_full_milli: i64,
}

impl LinearV2Params {
    /// Bounds under which the computation stays within `i64`.
    pub open spec fn wf(&self) -> bool {
        &&& -LINEAR_V2_ENDPOINT_LIMIT_MILLI <= self.wait_time_at_empty_milli <= LINEAR_V2_ENDPOINT_LIMIT_MILLI
        &&& -LINEAR_V2_ENDPOINT_LIMIT_MILLI <= self.wait_time_at_full_milli <= LINEAR_V2_ENDPOINT_LIMIT_MILLI
    }
}

impl Default for LinearV2Params {
    /// No wait when empty, 20 minutes when full.
    fn default() -> (p: Self)
        ensures
            p == (LinearV2Params { wait_time_at_empty_milli: 0i64, wait_time_at_full_milli: 20_000i64 }),
    {
        LinearV2Params { wait_time_at_empty_milli: 0, wait_time_at_full_milli: 20_000 }
    }
}

/// Minutes (in milli-minutes) this strategy assigns to `occ` obstructed
/// sensors out of `valid` usable ones.
pub open spec fn spec_linear_v2_minutes(params: LinearV2Params, occ: int, valid: int) -> int {
    params.wait_time_at_empty_milli + spec_scaled_ratio(
        params.wait_time_at_full_milli - params.wait_time_at_empty_milli,
        occ,
        valid,
    )
}

/// The endpoint-interpolation strategy.
#[derive(Debug, Clone, Copy)]
pub struct LinearV2Model {
    pub params: LinearV2Params,
    pub occupancy_config: OccupancyConfig,
}

impl LinearV2Model {
    pub fn new(params: LinearV2Params, occupancy_config: OccupancyConfig) -> (m: Self)
        ensures
            m == (LinearV2Model { params, occupancy_config }),
    {
        LinearV2Model { params, occupancy_config }
    }
}

impl EstimationModel for LinearV2Model {
    open spec fn wf(&self) -> bool {
        self.params.wf()
    }

    open spec fn spec_occupancy_config(&self) -> OccupancyConfig {
        self.occupancy_config
    }

    open spec fn wait_ens(&self, obs: Seq<SensorObstruction>, now_ms: u64, e: WaitTimeEstimate) -> bool {
        let valid = spec_valid_count(obs);
        if valid == 0 {
            e == no_data_estimate(now_ms)
        } else {
            e == (WaitTimeEstimate {
                wait_time_milli_minutes: Some(
                    spec_linear_v2_minutes(self.params, spec_obstructed_count(obs), valid) as i64,
                ),
                timestamp: now_ms,
                status: if spec_error_count(obs) > 0 {
                    WaitTimeStatus::Degraded
                } else {
                    WaitTimeStatus::Nominal
                },
                error_code: None,
            })
        }
    }

    fn compute_wait_time(&self, obstructions: &Vec<SensorObstruction>, now_ms: u64) -> (e: WaitTimeEstimate) {
        let (valid, obstructed, errors) = count_obstructions(obstructions);
        if valid == 0 {
            WaitTimeEstimate {
                wait_time_milli_minutes: None,
                timestamp: now_ms,
                status: WaitTimeStatus::Degraded,
                error_code: Some(crate::state::WaitTimeErrorCode::NoData),
            }
        } else {
            let span: i64 = self.params.wait_time_at_full_milli - self.params.wait_time_at_empty_milli;
            let contribution: i64 = scaled_ratio(span, obstructed, valid);
            let minutes: i64 = self.params.wait_time_at_empty_milli + contribution;
            let status = if errors > 0 {
                WaitTimeStatus::Degraded
            } else {
                WaitTimeStatus::Nominal
            };
            WaitTimeEstimate {
                wait_time_milli_minutes: Some(minutes),
                timestamp: now_ms,
                status,
                error_code: None,
            }
        }
    }

    fn occupancy_config(&self) -> (c: &OccupancyConfig) {
        &self.occupancy_config
    }
}

} // verus!
