//! Sensor identity, measurement types, and the driver capability traits that
//! hardware bindings and mocks implement.

use vstd::prelude::*;
use crate::errors::AppError;

verus! {

/// Stable identifier of a sensor within one deployment.
pub type SensorId = u32;

/// Default 7-bit bus address every sensor answers on after power-up.
pub const DEFAULT_I2C_ADDRESS_7BIT: u8 = 0x29;
/// First address handed out by the allocator.
pub const ADDRESS_BASE_7BIT: u8 = 0x30;
/// Largest valid 7-bit bus address.
pub const I2C_7BIT_MAX: u8 = 0x77;

/// Static identity of one sensor, taken from deployment configuration.
#[derive(Debug, Clone)]
pub struct SensorConfig {
    pub sensor_id: SensorId,
    pub xshut_pin: u8,
}

/// Discovery outcome for one sensor.
#[derive(Debug, Clone)]
pub enum SensorStatus {
    Ready,
    Error { message: String },
}

/// Roster entry: identity plus assigned bus address and discovery outcome.
#[derive(Debug, Clone)]
pub struct SensorInfo {
    pub sensor_id: SensorId,
    pub xshut_pin: u8,
    pub i2c_address: u8,
    pub status: SensorStatus,
}

/// Hardware classification of a single range measurement.
#[derive(Debug, Clone, Copy, PartialEq, Eq, Structural)]
pub enum SensorRangeStatus {
    Valid,
    SigmaFailure,
    SignalFailure,
    MinRangeClipped,
    OutOfBounds,
    HardwareFailure,
    WrapCheckFail,
    Wraparound,
    ProcessingFailure,
    CrosstalkSignal,
    Synchronisation,
    MergedPulse,
    LackOfSignal,
    MinRangeFail,
    InvalidRange,
    NoUpdate,
}

/// The name of each range status, as it appears in failure reasons.
pub open spec fn spec_range_status_name(s: SensorRangeStatus) -> Seq<char> {
    match s {
        SensorRangeStatus::Valid => "Valid"@,
        SensorRangeStatus::SigmaFailure => "SigmaFailure"@,
        SensorRangeStatus::SignalFailure => "SignalFailure"@,
        SensorRangeStatus::MinRangeClipped => "MinRangeClipped"@,
        SensorRangeStatus::OutOfBounds => "OutOfBounds"@,
        SensorRangeStatus::HardwareFailure => "HardwareFailure"@,
        SensorRangeStatus::WrapCheckFail => "WrapCheckFail"@,
        SensorRangeStatus::Wraparound => "Wraparound"@,
        SensorRangeStatus::ProcessingFailure => "ProcessingFailure"@,
        SensorRangeStatus::CrosstalkSignal => "CrosstalkSignal"@,
        SensorRangeStatus::Synchronisation => "Synchronisation"@,
        SensorRangeStatus::MergedPulse => "MergedPulse"@,
        SensorRangeStatus::LackOfSignal => "LackOfSignal"@,
        SensorRangeStatus::MinRangeFail => "MinRangeFail"@,
        SensorRangeStatus::InvalidRange => "InvalidRange"@,
        SensorRangeStatus::NoUpdate => "NoUpdate"@,
    }
}

impl SensorRangeStatus {
    /// Only `Valid` counts as a usable measurement.
    pub fn is_valid(self) -> (r: bool)
        ensures
            r == (self is Valid),
    {
        matches!(self, Self::Valid)
    }

    /// The status's name, for failure reasons.
    pub fn name(self) -> (s: &'static str)
        ensures
            s@ == spec_range_status_name(self),
    {
        match self {
            SensorRangeStatus::Valid => "Valid",
            SensorRangeStatus::SigmaFailure => "SigmaFailure",
            SensorRangeStatus::SignalFailure => "SignalFailure",
            SensorRangeStatus::MinRangeClipped => "MinRangeClipped",
            SensorRangeStatus::OutOfBounds => "OutOfBounds",
            SensorRangeStatus::HardwareFailure => "HardwareFailure",
            SensorRangeStatus::WrapCheckFail => "WrapCheckFail",
            SensorRangeStatus::Wraparound => "Wraparound",
            SensorRangeStatus::ProcessingFailure => "ProcessingFailure",
            SensorRangeStatus::CrosstalkSignal => "CrosstalkSignal",
            SensorRangeStatus::Synchronisation => "Synchronisation",
            SensorRangeStatus::MergedPulse => "MergedPulse",
            SensorRangeStatus::LackOfSignal => "LackOfSignal",
            SensorRangeStatus::MinRangeFail => "MinRangeFail",
            SensorRangeStatus::InvalidRange => "InvalidRange",
            SensorRangeStatus::NoUpdate => "NoUpdate",
        }
    }
}

/// One raw distance sample together with its hardware status.
#[derive(Debug, Clone, Copy, PartialEq, Eq, Structural)]
pub struct DistanceMeasurement {
    pub distance_mm: u16,
    pub range_status: SensorRangeStatus,
}

/// Capability surface of one ranging sensor on the bus. Every call may fail;
/// nothing is promised about outcomes, so callers must handle both results.
pub trait SensorDriver: Sized {
    fn init_default(&mut self) -> Result<(), AppError>;

    fn set_address(&mut self, new_address: u8) -> Result<(), AppError>;

    fn verify(&mut self) -> Result<(), AppError>;

    /// Start continuous ranging mode. Must be called after init before
    /// reading distances.
    fn start_ranging(&mut self) -> Result<(), AppError>;

    fn read_distance(&mut self) -> Result<DistanceMeasurement, AppError>;
}

/// Produces driver handles, either on the shared default address or on an
/// already assigned one.
pub trait SensorDriverFactory: Sized {
    type Driver: SensorDriver;

    fn create_default(&mut self) -> Result<Self::Driver, AppError>;

    fn create_for_address(&mut self, address: u8) -> Result<Self::Driver, AppError>;
}

/// `a` and `b` carry the same roster entry: equal fields, with messages
/// compared by their characters.
pub open spec fn sensor_info_like(a: SensorInfo, b: SensorInfo) -> bool {
    &&& a.sensor_id == b.sensor_id
    &&& a.xshut_pin == b.xshut_pin
    &&& a.i2c_address == b.i2c_address
    &&& match (a.status, b.status) {
        (SensorStatus::Ready, SensorStatus::Ready) => true,
        (SensorStatus::Error { message: x }, SensorStatus::Error { message: y }) => x@ == y@,
        _ => false,
    }
}

/// `a` and `b` are the same roster, entry for entry.
pub open spec fn sensor_infos_like(a: Seq<SensorInfo>, b: Seq<SensorInfo>) -> bool {
    &&& a.len() == b.len()
    &&& forall|i: int| 0 <= i < a.len() ==> #[trigger] sensor_info_like(a[i], b[i])
}

/// An entry-for-entry copy of a roster.
pub fn copy_sensor_infos(v: &Vec<SensorInfo>) -> (r: Vec<SensorInfo>)
    ensures
        sensor_infos_like(v@, r@),
{
    let mut r: Vec<SensorInfo> = Vec::new();
    let mut index: usize = 0;
    while index < v.len()
        invariant
            index <= v@.len(),
            r@.len() == index,
            forall|i: int| 0 <= i < index ==> #[trigger] sensor_info_like(v@[i], r@[i]),
        decreases v@.len() - index,
    {
        let entry = &v[index];
        let status = match &entry.status {
            SensorStatus::Ready => SensorStatus::Ready,
            SensorStatus::Error { message } => SensorStatus::Error { message: message.clone() },
        };
        r.push(SensorInfo {
            sensor_id: entry.sensor_id,
            xshut_pin: entry.xshut_pin,
            i2c_address: entry.i2c_address,
            status,
        });
        index = index + 1;
    }
    r
}

/// Build deterministic sensor configs from an ordered list of XSHUT pins:
/// sensor ids count up from 1 in pin order. Ids wrap in the unreachable case
/// of more than 2^32 - 1 pins; the contract speaks only of sizes below that.
pub fn build_sensor_configs(xshut_pins: &[u8]) -> (configs: Vec<SensorConfig>)
    ensures
        configs@.len() == xshut_pins@.len(),
        forall|i: int| 0 <= i < configs@.len() && i < u32::MAX ==> configs@[i].sensor_id == i + 1,
        forall|i: int| 0 <= i < configs@.len() ==> configs@[i].xshut_pin == xshut_pins@[i],
{
    let mut configs: Vec<SensorConfig> = Vec::new();
    let mut next_id: u32 = 1;
    let mut index: usize = 0;
    while index < xshut_pins.len()
        invariant
            index <= xshut_pins@.len(),
            configs@.len() == index,
            index < u32::MAX ==> next_id == index + 1,
            forall|i: int| 0 <= i < index && i < u32::MAX ==> configs@[i].sensor_id == i + 1,
            forall|i: int| 0 <= i < index ==> configs@[i].xshut_pin == xshut_pins@[i],
        decreases xshut_pins@.len() - index,
    {
        configs.push(SensorConfig {
            sensor_id: next_id,
            xshut_pin: xshut_pins[index],
        });
        next_id = next_id.wrapping_add(1);
        index = index + 1;
    }
    configs
}

} // verus!
