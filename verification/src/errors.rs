//! Error taxonomy of the pipeline.

use vstd::prelude::*;
use vstd::string::StringExecFns;
use crate::text::{hex_byte, spec_hex_byte};

verus! {

/// Every failure the pipeline can surface to a caller.
#[derive(Debug, Clone, PartialEq, Eq)]
pub enum AppError {
    /// The requested base address lies outside the 7-bit bus range.
    InvalidAddress(u8),
    /// Base plus offset would run past the 7-bit bus range.
    AddressAllocationOverflow,
    /// A sensor driver call failed.
    Sensor(String),
    /// An enable-line (XSHUT) operation failed.
    Xshut(String),
    /// A broadcast send failed.
    WatchSend,
    /// A GPIO operation failed.
    Gpio(String),
    /// A bus-level I/O operation failed.
    I2c(String),
    /// A state lock was poisoned by a writer that died while holding it.
    StateLock,
}

/// The human-readable description of each error.
pub open spec fn spec_message(e: AppError) -> Seq<char> {
    match e {
        AppError::InvalidAddress(a) => "invalid I2C address: 0x"@ + spec_hex_byte(a),
        AppError::AddressAllocationOverflow => "address allocation exceeds 7-bit I2C range"@,
        AppError::Sensor(m) => "sensor error: "@ + m@,
        AppError::Xshut(m) => "xshut error: "@ + m@,
        AppError::WatchSend => "watch channel send failed"@,
        AppError::Gpio(m) => "gpio error: "@ + m@,
        AppError::I2c(m) => "i2c error: "@ + m@,
        AppError::StateLock => "state lock poisoned"@,
    }
}

impl AppError {
    /// Render the error as its description.
    pub fn message(&self) -> (r: String)
        ensures
            r@ == spec_message(*self),
    {
        match self {
            AppError::InvalidAddress(a) => {
                let mut s = "invalid I2C address: 0x".to_owned();
                s.append(hex_byte(*a).as_str());
                s
            },
            AppError::AddressAllocationOverflow => "address allocation exceeds 7-bit I2C range".to_owned(),
            AppError::Sensor(m) => {
                let mut s = "sensor error: ".to_owned();
                s.append(m.as_str());
                s
            },
            AppError::Xshut(m) => {
                let mut s = "xshut error: ".to_owned();
                s.append(m.as_str());
                s
            },
            AppError::WatchSend => "watch channel send failed".to_owned(),
            AppError::Gpio(m) => {
                let mut s = "gpio error: ".to_owned();
                s.append(m.as_str());
                s
            },
            AppError::I2c(m) => {
                let mut s = "i2c error: ".to_owned();
                s.append(m.as_str());
                s
            },
            AppError::StateLock => "state lock poisoned".to_owned(),
        }
    }
}

} // verus!
