//! Slope/intercept estimation strategy.
//!
//! Minutes are `intercept + slope * occupancy_percent`, computed exactly in
//! milli-minutes with the division last, then clamped to optional bounds.

use vstd::prelude::*;
use crate::estimation::model::{
    clamp_minutes, count_obstructions, no_data_estimate, scaled_ratio, spec_clamp_minutes,
    spec_obstructed_count, spec_scaled_ratio, spec_valid_count, spec_error_count,
    EstimationModel, OccupancyConfig,
};
use crate::state::{SensorObstruction, WaitTimeEstimate, WaitTimeStatus};

verus! {

/// Largest slope magnitude accepted, in milli-minutes per percentage point.
pub const LINEAR_SLOPE_LIMIT_MILLI: i64 = 1_000_000_000;

/// Largest intercept magnitude accepted, in milli-minutes.
pub const LINEAR_INTERCEPT_LIMIT_MILLI: i64 = 1_000_000_000_000;

/// Slope/intercept parameters, in milli-minutes. The slope is per
/// percentage point of occupancy.
#[derive(Debug, Clone, Copy, PartialEq, Eq)]
pub struct LinearV1Params {
    pub slope_milli: i64,
    pub intercept_milli: i64,
    pub min_wait_minutes: Option<u32>,
    pub max_wait_minutes: Option<u32>,
}

impl LinearV1Params {
    /// Bounds under which the computation stays within `i64`.
    pub open spec fn wf(&self) -> bool {
        &&& -LINEAR_SLOPE_LIMIT_MILLI <= self.slope_milli <= LINEAR_SLOPE_LIMIT_MILLI
        &&& -LINEAR_INTERCEPT_LIMIT_MILLI <= self.intercept_milli <= LINEAR_INTERCEPT_LIMIT_MILLI
    }
}

impl Default for LinearV1Params {
    /// 20 minutes at 100% occupancy, no offset, no clamping.
    fn default() -> (p: Self)
        ensures
            p == (LinearV1Params {
                slope_milli: 200i64,
                intercept_milli: 0i64,
                min_wait_minutes: None,
                max_wait_minutes: None,
            }),
    {
        LinearV1Params { slope_milli: 200, intercept_milli: 0, min_wait_minutes: None, max_wait_minutes: None }
    }
}

/// Minutes (in milli-minutes) this strategy assigns to `occ` obstructed
/// sensors out of `valid` usable ones.
pub open spec fn spec_linear_v1_minutes(params: LinearV1Params, occ: int, valid: int) -> int {
    spec_clamp_minutes(
        params.intercept_milli + spec_scaled_ratio(params.slope_milli * 100, occ, valid),
        params.min_wait_minutes,
        params.max_wait_minutes,
    )
}

/// The slope/intercept strategy.
#[derive(Debug, Clone, Copy)]
pub struct LinearV1Model {
    pub params: LinearV1Params,
    pub occupancy_config: OccupancyConfig,
}

impl LinearV1Model {
    pub fn new(params: LinearV1Params, occupancy_config: OccupancyConfig) -> (m: Self)
        ensures
            m == (LinearV1Model { params, occupancy_config }),
    {
        LinearV1Model { params, occupancy_config }
    }

    /// The model built by `with_defaults`.
    pub open spec fn spec_with_defaults() -> LinearV1Model {
        LinearV1Model {
            params: LinearV1Params {
                slope_milli: 200i64,
                intercept_milli: 0i64,
                min_wait_minutes: None,
                max_wait_minutes: None,
            },
            occupancy_config: OccupancyConfig { threshold_mm: 1200, sensor_min_mm: 10, sensor_max_mm: 4000 },
        }
    }

    pub fn with_defaults() -> (m: Self)
        ensures
            m == Self::spec_with_defaults(),
            m.wf(),
    {
        LinearV1Model::new(LinearV1Params::default(), OccupancyConfig::default())
    }
}

impl EstimationModel for LinearV1Model {
    open spec fn wf(&self) -> bool {
        self.params.wf()
    }

    open spec fn spec_occupancy_config(&self) -> OccupancyConfig {
        self.occupancy_config
    }

    open spec fn wait_ens(&self, obs: Seq<SensorObstruction>, now_ms: u64, e: WaitTimeEstimate) -> bool {
        let valid = spec_valid_count(obs);
        if valid == 0 {
            e == no_data_estimate(now_ms)
        } else {
            e == (WaitTimeEstimate {
                wait_time_milli_minutes: Some(
                    spec_linear_v1_minutes(self.params, spec_obstructed_count(obs), valid) as i64,
                ),
                timestamp: now_ms,
                status: if spec_error_count(obs) > 0 {
                    WaitTimeStatus::Degraded
                } else {
                    WaitTimeStatus::Nominal
                },
                error_code: None,
            })
        }
    }

    fn compute_wait_time(&self, obstructions: &Vec<SensorObstruction>, now_ms: u64) -> (e: WaitTimeEstimate) {
        let (valid, obstructed, errors) = count_obstructions(obstructions);
        if valid == 0 {
            WaitTimeEstimate {
                wait_time_milli_minutes: None,
                timestamp: now_ms,
                status: WaitTimeStatus::Degraded,
                error_code: Some(crate::state::WaitTimeErrorCode::NoData),
            }
        } else {
            let scale: i64 = self.params.slope_milli * 100;
            let contribution: i64 = scaled_ratio(scale, obstructed, valid);
            let raw: i64 = self.params.intercept_milli + contribution;
            let minutes: i64 = clamp_minutes(raw, self.params.min_wait_minutes, self.params.max_wait_minutes);
            let status = if errors > 0 {
                WaitTimeStatus::Degraded
            } else {
                WaitTimeStatus::Nominal
            };
            WaitTimeEstimate {
                wait_time_milli_minutes: Some(minutes),
                timestamp: now_ms,
                status,
                error_code: None,
            }
        }
    }

    fn occupancy_config(&self) -> (c: &OccupancyConfig) {
        &self.occupancy_config
    }
}

} // verus!
