//! The estimation strategy interface and the arithmetic helpers every
//! strategy shares.
//!
//! Wait times are computed in milli-minutes (thousandths of a minute) over
//! the integers, with division last, so each strategy's result is an exact
//! integer function of its inputs.

use vstd::prelude::*;
use vstd::arithmetic::div_mod::{lemma_div_by_multiple, lemma_div_is_ordered, lemma_div_pos_is_pos};
use vstd::arithmetic::mul::{lemma_mul_inequality, lemma_mul_nonnegative, lemma_mul_upper_bound};
use crate::state::{SensorObstruction, OccupancyReading, OccupancyStatus, WaitTimeErrorCode, WaitTimeEstimate, WaitTimeStatus};
use crate::estimation::linear_v1::LinearV1Model;
use crate::estimation::linear_v2::LinearV2Model;
use crate::estimation::obstruction_count_v1::ObstructionCountModel;

verus! {

/// Configuration for occupancy detection, shared by every strategy.
#[derive(Debug, Clone, Copy, PartialEq, Eq, Structural)]
pub struct OccupancyConfig {
    /// Distance threshold (mm) at or below which a sensor counts as occupied.
    pub threshold_mm: u16,
    /// Minimum valid sensor reading (hardware limit).
    pub sensor_min_mm: u16,
    /// Maximum valid sensor reading (hardware limit).
    pub sensor_max_mm: u16,
}

impl Default for OccupancyConfig {
    fn default() -> (c: Self)
        ensures
            c == (OccupancyConfig { threshold_mm: 1200u16, sensor_min_mm: 10u16, sensor_max_mm: 4000u16 }),
    {
        OccupancyConfig { threshold_mm: 1200, sensor_min_mm: 10, sensor_max_mm: 4000 }
    }
}

/// Number of obstruction entries carrying a usable (`Some`) flag.
pub open spec fn spec_valid_count(obs: Seq<SensorObstruction>) -> int
    decreases obs.len(),
{
    if obs.len() == 0 {
        0
    } else {
        spec_valid_count(obs.drop_last()) + if obs.last().obstructed is Some {
            1int
        } else {
            0int
        }
    }
}

/// Number of obstruction entries flagged `Some(true)`.
pub open spec fn spec_obstructed_count(obs: Seq<SensorObstruction>) -> int
    decreases obs.len(),
{
    if obs.len() == 0 {
        0
    } else {
        spec_obstructed_count(obs.drop_last()) + if obs.last().obstructed == Some(true) {
            1int
        } else {
            0int
        }
    }
}

/// Number of obstruction entries with no usable flag (`None`).
pub open spec fn spec_error_count(obs: Seq<SensorObstruction>) -> int
    decreases obs.len(),
{
    if obs.len() == 0 {
        0
    } else {
        spec_error_count(obs.drop_last()) + if obs.last().obstructed is None {
            1int
        } else {
            0int
        }
    }
}

/// The three counts partition the batch, and obstructed entries are a subset
/// of the valid ones.
pub proof fn lemma_count_bounds(obs: Seq<SensorObstruction>)
    ensures
        0 <= spec_obstructed_count(obs) <= spec_valid_count(obs),
        0 <= spec_error_count(obs),
        spec_valid_count(obs) + spec_error_count(obs) == obs.len(),
    decreases obs.len(),
{
    if obs.len() > 0 {
        lemma_count_bounds(obs.drop_last());
    }
}

/// The one estimate every strategy must return when no sensor produced a
/// usable flag: no number, degraded, and a "no data" code.
pub open spec fn no_data_estimate(now_ms: u64) -> WaitTimeEstimate {
    WaitTimeEstimate {
        wait_time_milli_minutes: None,
        timestamp: now_ms,
        status: WaitTimeStatus::Degraded,
        error_code: Some(WaitTimeErrorCode::NoData),
    }
}

/// Saturate an unbounded integer to the `i64` range.
pub open spec fn cap_to_i64(x: int) -> int {
    if x > i64::MAX {
        i64::MAX as int
    } else if x < i64::MIN {
        i64::MIN as int
    } else {
        x
    }
}

/// Clamp a milli-minute value to optional whole-minute bounds, lower bound
/// first, exactly as the strategies apply them.
pub open spec fn spec_clamp_minutes(raw: int, min_wait: Option<u32>, max_wait: Option<u32>) -> int {
    let floored = match min_wait {
        Some(m) => if raw < m * 1000 {
            m * 1000
        } else {
            raw
        },
        None => raw,
    };
    match max_wait {
        Some(m) => if floored > m * 1000 {
            m * 1000
        } else {
            floored
        },
        None => floored,
    }
}

/// Scale by the fraction `occ / valid`, rounding the magnitude down.
pub open spec fn spec_scaled_ratio(scale: int, occ: int, valid: int) -> int {
    if scale >= 0 {
        (scale * occ) / valid
    } else {
        -(((-scale) * occ) / valid)
    }
}

/// A nonnegative amount scaled by a fraction at most one cannot grow.
proof fn lemma_ratio_le(a: int, occ: int, valid: int)
    requires
        0 <= a,
        0 <= occ <= valid,
        0 < valid,
    ensures
        0 <= (a * occ) / valid <= a,
{
    lemma_mul_nonnegative(a, occ);
    lemma_div_pos_is_pos(a * occ, valid);
    lemma_mul_inequality(occ, valid, a);
    vstd::arithmetic::mul::lemma_mul_is_commutative(occ, a);
    vstd::arithmetic::mul::lemma_mul_is_commutative(valid, a);
    lemma_div_is_ordered(a * occ, a * valid, valid);
    lemma_div_by_multiple(a, valid);
}

/// Magnitude limit accepted by `scaled_ratio`; generous enough for every
/// strategy's scaled parameters.
pub const SCALE_LIMIT_MILLI: i64 = 4_000_000_000_000;

/// Exact integer scaling by `occ / valid` with the division last.
pub fn scaled_ratio(scale: i64, occ: usize, valid: usize) -> (r: i64)
    requires
        0 < valid,
        occ <= valid,
        -SCALE_LIMIT_MILLI <= scale <= SCALE_LIMIT_MILLI,
    ensures
        r == spec_scaled_ratio(scale as int, occ as int, valid as int),
        -SCALE_LIMIT_MILLI <= r <= SCALE_LIMIT_MILLI,
        scale >= 0 ==> 0 <= r <= scale,
        scale < 0 ==> scale <= r <= 0,
{
    let mag: i64 = if scale >= 0 {
        scale
    } else {
        -scale
    };
    proof {
        lemma_mul_upper_bound(mag as int, SCALE_LIMIT_MILLI as int, occ as int, u64::MAX as int);
        lemma_ratio_le(mag as int, occ as int, valid as int);
    }
    let scaled: u128 = ((mag as u128) * (occ as u128)) / (valid as u128);
    let scaled_i: i64 = scaled as i64;
    if scale >= 0 {
        scaled_i
    } else {
        -scaled_i
    }
}

/// Clamp a milli-minute value to the optional whole-minute bounds.
pub fn clamp_minutes(raw: i64, min_wait: Option<u32>, max_wait: Option<u32>) -> (r: i64)
    ensures
        r == spec_clamp_minutes(raw as int, min_wait, max_wait),
{
    let mut value = raw;
    if let Some(m) = min_wait {
        let floor: i64 = (m as i64) * 1000;
        if value < floor {
            value = floor;
        }
    }
    if let Some(m) = max_wait {
        let ceiling: i64 = (m as i64) * 1000;
        if value > ceiling {
            value = ceiling;
        }
    }
    value
}

/// Count the valid, obstructed and erroring entries of a batch.
pub fn count_obstructions(obs: &Vec<SensorObstruction>) -> (counts: (usize, usize, usize))
    ensures
        counts.0 == spec_valid_count(obs@),
        counts.1 == spec_obstructed_count(obs@),
        counts.2 == spec_error_count(obs@),
        counts.1 <= counts.0,
        counts.0 + counts.2 == obs@.len(),
{
    let mut valid: usize = 0;
    let mut obstructed: usize = 0;
    let mut errors: usize = 0;
    let mut index: usize = 0;
    while index < obs.len()
        invariant
            index <= obs@.len(),
            valid == spec_valid_count(obs@.subrange(0, index as int)),
            obstructed == spec_obstructed_count(obs@.subrange(0, index as int)),
            errors == spec_error_count(obs@.subrange(0, index as int)),
            valid + errors == index,
            obstructed <= valid,
        decreases obs@.len() - index,
    {
        proof {
            assert(obs@.subrange(0, index + 1).drop_last() =~= obs@.subrange(0, index as int));
            assert(obs@.subrange(0, index + 1).last() == obs@[index as int]);
        }
        match obs[index].obstructed {
            Some(true) => {
                valid = valid + 1;
                obstructed = obstructed + 1;
            },
            Some(false) => {
                valid = valid + 1;
            },
            None => {
                errors = errors + 1;
            },
        }
        index = index + 1;
    }
    proof {
        assert(obs@.subrange(0, obs@.len() as int) =~= obs@);
    }
    (valid, obstructed, errors)
}

/// An estimation strategy: a pure transform from one obstruction batch and a
/// tick timestamp to a wait-time estimate.
///
/// Every strategy honors the same edge case: a batch without a single usable
/// flag yields the degraded "no data" estimate. On any other batch it yields
/// a number, and reports `Degraded` exactly when some entry was unusable.
pub trait EstimationModel: Sized {
    /// Parameter bounds under which the strategy's arithmetic stays exact.
    spec fn wf(&self) -> bool;

    spec fn spec_occupancy_config(&self) -> OccupancyConfig;

    /// What the strategy promises of its estimate: each implementation pins
    /// the estimate down exactly.
    spec fn wait_ens(&self, obs: Seq<SensorObstruction>, now_ms: u64, e: WaitTimeEstimate) -> bool;

    /// Compute the wait-time estimate for one obstruction batch.
    fn compute_wait_time(&self, obstructions: &Vec<SensorObstruction>, now_ms: u64) -> (e: WaitTimeEstimate)
        requires
            self.wf(),
        ensures
            self.wait_ens(obstructions@, now_ms, e),
            e.timestamp == now_ms,
            spec_valid_count(obstructions@) == 0 ==> e == no_data_estimate(now_ms),
            spec_valid_count(obstructions@) > 0 ==> e.wait_time_milli_minutes is Some && e.error_code is None,
            spec_valid_count(obstructions@) > 0 ==> (e.status is Degraded <==> spec_error_count(obstructions@) > 0),
    ;

    /// The occupancy configuration used to derive obstructions upstream.
    fn occupancy_config(&self) -> (c: &OccupancyConfig)
        ensures
            *c == self.spec_occupancy_config(),
    ;
}

/// The closed set of local strategies, dispatched as a tagged enum.
#[derive(Debug, Clone, Copy)]
pub enum Model {
    LinearV1(LinearV1Model),
    LinearV2(LinearV2Model),
    ObstructionCount(ObstructionCountModel),
}

impl EstimationModel for Model {
    open spec fn wf(&self) -> bool {
        match self {
            Model::LinearV1(m) => m.wf(),
            Model::LinearV2(m) => m.wf(),
            Model::ObstructionCount(m) => m.wf(),
        }
    }

    open spec fn spec_occupancy_config(&self) -> OccupancyConfig {
        match self {
            Model::LinearV1(m) => m.spec_occupancy_config(),
            Model::LinearV2(m) => m.spec_occupancy_config(),
            Model::ObstructionCount(m) => m.spec_occupancy_config(),
        }
    }

    open spec fn wait_ens(&self, obs: Seq<SensorObstruction>, now_ms: u64, e: WaitTimeEstimate) -> bool {
        match self {
            Model::LinearV1(m) => m.wait_ens(obs, now_ms, e),
            Model::LinearV2(m) => m.wait_ens(obs, now_ms, e),
            Model::ObstructionCount(m) => m.wait_ens(obs, now_ms, e),
        }
    }

    fn compute_wait_time(&self, obstructions: &Vec<SensorObstruction>, now_ms: u64) -> (e: WaitTimeEstimate) {
        match self {
            Model::LinearV1(m) => m.compute_wait_time(obstructions, now_ms),
            Model::LinearV2(m) => m.compute_wait_time(obstructions, now_ms),
            Model::ObstructionCount(m) => m.compute_wait_time(obstructions, now_ms),
        }
    }

    fn occupancy_config(&self) -> (c: &OccupancyConfig) {
        match self {
            Model::LinearV1(m) => m.occupancy_config(),
            Model::LinearV2(m) => m.occupancy_config(),
            Model::ObstructionCount(m) => m.occupancy_config(),
        }
    }
}

/// Aggregate a batch of per-sensor obstruction flags into one occupancy
/// figure in thousandths of a percent: usable flags vote, `None` entries
/// degrade the result, and a batch without usable flags has no figure.
pub fn occupancy_from_obstructions(obstructions: &Vec<SensorObstruction>, now_ms: u64) -> (r: OccupancyReading)
    ensures
        r.timestamp == now_ms,
        spec_valid_count(obstructions@) == 0 ==> {
            &&& r.occupancy_milli_percent is None
            &&& r.status is NoData
        },
        spec_valid_count(obstructions@) > 0 ==> {
            &&& r.occupancy_milli_percent == Some(
                (((spec_obstructed_count(obstructions@) * 100_000) / spec_valid_count(obstructions@)) as u64),
            )
            &&& (r.status is Degraded <==> spec_error_count(obstructions@) > 0)
            &&& (r.status is Nominal <==> spec_error_count(obstructions@) == 0)
        },
{
    let (valid, obstructed, errors) = count_obstructions(obstructions);
    if valid == 0 {
        OccupancyReading { occupancy_milli_percent: None, timestamp: now_ms, status: OccupancyStatus::NoData }
    } else {
        proof {
            lemma_mul_upper_bound(obstructed as int, u64::MAX as int, 100_000, 100_000);
            lemma_ratio_le(100_000, obstructed as int, valid as int);
            lemma_mul_inequality(obstructed as int, valid as int, 100_000);
            vstd::arithmetic::mul::lemma_mul_is_commutative(obstructed as int, 100_000);
            vstd::arithmetic::mul::lemma_mul_is_commutative(valid as int, 100_000);
            lemma_div_is_ordered((obstructed as int) * 100_000, (valid as int) * 100_000, valid as int);
            lemma_div_by_multiple(100_000, valid as int);
            lemma_mul_nonnegative(obstructed as int, 100_000);
            lemma_div_pos_is_pos((obstructed as int) * 100_000, valid as int);
        }
        let milli_percent: u64 = (((obstructed as u128) * 100_000) / (valid as u128)) as u64;
        let status = if errors == 0 {
            OccupancyStatus::Nominal
        } else {
            OccupancyStatus::Degraded
        };
        OccupancyReading { occupancy_milli_percent: Some(milli_percent), timestamp: now_ms, status }
    }
}

} // verus!
