//! Deployment configuration: plain values as read from the configuration
//! file, with the accessors the rest of the system uses.

use vstd::prelude::*;
use crate::sensor::{build_sensor_configs, SensorConfig};

verus! {

/// Where the configuration file lives by default.
pub const DEFAULT_CONFIG_PATH: &'static str = "config/config.toml";

/// Port the view layer listens on unless configured otherwise.
pub const DEFAULT_SERVER_PORT: u16 = 8080;

/// Refresh period in seconds unless configured otherwise.
pub const DEFAULT_REFRESH_INTERVAL_SECS: u64 = 5;

#[derive(Debug, Clone)]
pub struct AppSection {
    pub name: String,
}

#[derive(Debug, Clone)]
pub struct LoggingSection {
    pub level: String,
}

#[derive(Debug, Clone)]
pub struct CalibrationSettings {
    pub path: Option<String>,
}

#[derive(Debug, Clone)]
pub struct SensorsSection {
    /// GPIO pin numbers for XSHUT control, in sensor order.
    pub xshut_pins: Vec<u8>,
}

#[derive(Debug, Clone)]
pub struct ServerSection {
    pub port: Option<u16>,
    pub refresh_interval_secs: Option<u64>,
}

/// The whole deployment configuration.
#[derive(Debug, Clone)]
pub struct Config {
    pub app: AppSection,
    pub logging: LoggingSection,
    pub calibration: Option<CalibrationSettings>,
    pub sensors: Option<SensorsSection>,
    pub server: Option<ServerSection>,
}

impl Config {
    /// The calibration file path, if one is configured and nonempty.
    pub fn calibration_path(&self) -> (r: Option<&String>)
        ensures
            (r is Some <==> (self.calibration matches Some(c) && c.path matches Some(p) && p@.len()
                > 0)),
            r matches Some(p) ==> (self.calibration matches Some(c) && c.path matches Some(q) && p@
                == q@),
    {
        match &self.calibration {
            Some(calibration) => match &calibration.path {
                Some(path) => {
                    if path.as_str().is_empty() {
                        None
                    } else {
                        Some(path)
                    }
                },
                None => None,
            },
            None => None,
        }
    }

    /// Sensor configurations built from the configured XSHUT pins, or an
    /// empty list when none are configured.
    pub fn sensor_configs(&self) -> (configs: Vec<SensorConfig>)
        ensures
            (self.sensors matches Some(sec) && sec.xshut_pins@.len() > 0) ==> {
                &&& configs@.len() == (match self.sensors {
                    Some(sec) => sec.xshut_pins@.len(),
                    None => 0,
                })
                &&& forall|i: int| 0 <= i < configs@.len() ==> {
                    &&& i < u32::MAX ==> (#[trigger] configs@[i]).sensor_id == i + 1
                    &&& configs@[i].xshut_pin == (match self.sensors {
                        Some(sec) => sec.xshut_pins@[i],
                        None => 0,
                    })
                }
            },
            !(self.sensors matches Some(sec) && sec.xshut_pins@.len() > 0) ==> configs@.len() == 0,
    {
        match &self.sensors {
            Some(section) => {
                if section.xshut_pins.len() > 0 {
                    build_sensor_configs(section.xshut_pins.as_slice())
                } else {
                    Vec::new()
                }
            },
            None => Vec::new(),
        }
    }

    /// The configured XSHUT pins, or an empty list.
    pub fn xshut_pins(&self) -> (pins: Vec<u8>)
        ensures
            pins@ == (match self.sensors {
                Some(sec) => sec.xshut_pins@,
                None => Seq::<u8>::empty(),
            }),
    {
        match &self.sensors {
            Some(section) => {
                let mut pins: Vec<u8> = Vec::new();
                let mut index: usize = 0;
                while index < section.xshut_pins.len()
                    invariant
                        index <= section.xshut_pins@.len(),
                        pins@ =~= section.xshut_pins@.subrange(0, index as int),
                    decreases section.xshut_pins@.len() - index,
                {
                    pins.push(section.xshut_pins[index]);
                    index = index + 1;
                }
                proof {
                    assert(section.xshut_pins@.subrange(0, section.xshut_pins@.len() as int)
                        =~= section.xshut_pins@);
                }
                pins
            },
            None => Vec::new(),
        }
    }

    /// The server port, with the default filled in.
    pub fn server_port(&self) -> (port: u16)
        ensures
            port == (match self.server {
                Some(sec) => match sec.port {
                    Some(p) => p,
                    None => DEFAULT_SERVER_PORT,
                },
                None => DEFAULT_SERVER_PORT,
            }),
    {
        match &self.server {
            Some(section) => match section.port {
                Some(port) => port,
                None => DEFAULT_SERVER_PORT,
            },
            None => DEFAULT_SERVER_PORT,
        }
    }

    /// The refresh interval in seconds, with the default filled in.
    pub fn refresh_interval(&self) -> (secs: u64)
        ensures
            secs == (match self.server {
                Some(sec) => match sec.refresh_interval_secs {
                    Some(s) => s,
                    None => DEFAULT_REFRESH_INTERVAL_SECS,
                },
                None => DEFAULT_REFRESH_INTERVAL_SECS,
            }),
    {
        match &self.server {
            Some(section) => match section.refresh_interval_secs {
                Some(secs) => secs,
                None => DEFAULT_REFRESH_INTERVAL_SECS,
            },
            None => DEFAULT_REFRESH_INTERVAL_SECS,
        }
    }
}

} // verus!
