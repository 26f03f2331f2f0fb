//! Scripted sensor drivers for exercising the pipeline without hardware.

use vstd::prelude::*;
use crate::errors::AppError;
use crate::sensor::{DistanceMeasurement, SensorDriver, SensorDriverFactory, SensorRangeStatus};

verus! {

/// What one scripted sensor does on each step of its life cycle.
#[derive(Debug, Clone, Copy, PartialEq, Eq)]
pub struct MockSensorBehavior {
    pub create_ok: bool,
    pub init_ok: bool,
    pub set_address_ok: bool,
    pub verify_ok: bool,
    pub read_distance_ok: bool,
    pub distance_mm: u16,
    pub range_status: SensorRangeStatus,
}

impl MockSensorBehavior {
    /// Every step succeeds; reads return zero distance, `Valid`.
    pub fn ok() -> (b: Self)
        ensures
            b == (MockSensorBehavior {
                create_ok: true,
                init_ok: true,
                set_address_ok: true,
                verify_ok: true,
                read_distance_ok: true,
                distance_mm: 0u16,
                range_status: SensorRangeStatus::Valid,
            }),
    {
        MockSensorBehavior {
            create_ok: true,
            init_ok: true,
            set_address_ok: true,
            verify_ok: true,
            read_distance_ok: true,
            distance_mm: 0,
            range_status: SensorRangeStatus::Valid,
        }
    }

    /// Initialization fails; everything else succeeds.
    pub fn fail_init() -> (b: Self)
        ensures
            b == (MockSensorBehavior { init_ok: false, ..MockSensorBehavior::spec_ok() }),
    {
        MockSensorBehavior { init_ok: false, ..MockSensorBehavior::ok() }
    }

    /// Address assignment fails; everything else succeeds.
    pub fn fail_set_address() -> (b: Self)
        ensures
            b == (MockSensorBehavior { set_address_ok: false, ..MockSensorBehavior::spec_ok() }),
    {
        MockSensorBehavior { set_address_ok: false, ..MockSensorBehavior::ok() }
    }

    /// Verification fails; everything else succeeds.
    pub fn fail_verify() -> (b: Self)
        ensures
            b == (MockSensorBehavior { verify_ok: false, ..MockSensorBehavior::spec_ok() }),
    {
        MockSensorBehavior { verify_ok: false, ..MockSensorBehavior::ok() }
    }

    /// Every step succeeds and reads return the given measurement.
    pub fn with_reading(distance_mm: u16, range_status: SensorRangeStatus) -> (b: Self)
        ensures
            b == (MockSensorBehavior {
                distance_mm,
                range_status,
                ..MockSensorBehavior::spec_ok()
            }),
    {
        MockSensorBehavior { distance_mm, range_status, ..MockSensorBehavior::ok() }
    }

    /// Driver creation fails; everything else succeeds.
    pub fn fail_create() -> (b: Self)
        ensures
            b == (MockSensorBehavior { create_ok: false, ..MockSensorBehavior::spec_ok() }),
    {
        MockSensorBehavior { create_ok: false, ..MockSensorBehavior::ok() }
    }

    /// Distance reads fail; everything else succeeds.
    pub fn fail_read_distance() -> (b: Self)
        ensures
            b == (MockSensorBehavior { read_distance_ok: false, ..MockSensorBehavior::spec_ok() }),
    {
        MockSensorBehavior { read_distance_ok: false, ..MockSensorBehavior::ok() }
    }

    /// The all-succeeding behavior, for stating the others against.
    pub open spec fn spec_ok() -> MockSensorBehavior {
        MockSensorBehavior {
            create_ok: true,
            init_ok: true,
            set_address_ok: true,
            verify_ok: true,
            read_distance_ok: true,
            distance_mm: 0u16,
            range_status: SensorRangeStatus::Valid,
        }
    }
}

/// Hands out one scripted driver per call, in order; when the script runs
/// out, further drivers succeed at everything.
pub struct MockSensorFactory {
    pub behaviors: Vec<MockSensorBehavior>,
    pub next_index: usize,
}

impl MockSensorFactory {
    pub fn new(behaviors: Vec<MockSensorBehavior>) -> (f: Self)
        ensures
            f.behaviors@ == behaviors@,
            f.next_index == 0,
    {
        MockSensorFactory { behaviors, next_index: 0 }
    }

    /// The behavior the next driver will follow: the script entry at the
    /// cursor, or the all-succeeding one once the script is exhausted.
    pub open spec fn spec_next_behavior(&self) -> MockSensorBehavior {
        if self.next_index < self.behaviors@.len() {
            self.behaviors@[self.next_index as int]
        } else {
            MockSensorBehavior::spec_ok()
        }
    }

    /// Take the next scripted behavior, advancing the cursor by one, so
    /// the script is consumed once in construction order.
    pub fn next_behavior(&mut self) -> (b: MockSensorBehavior)
        ensures
            final(self).behaviors@ == old(self).behaviors@,
            b == old(self).spec_next_behavior(),
            old(self).next_index < usize::MAX ==> final(self).next_index == old(self).next_index
                + 1,
            old(self).next_index == usize::MAX ==> final(self).next_index == 0,
    {
        let behavior = if self.next_index < self.behaviors.len() {
            self.behaviors[self.next_index]
        } else {
            MockSensorBehavior::ok()
        };
        self.next_index = self.next_index.wrapping_add(1);
        behavior
    }
}

/// A driver that follows one scripted behavior.
pub struct MockSensorDriver {
    pub behavior: MockSensorBehavior,
}

impl SensorDriver for MockSensorDriver {
    fn init_default(&mut self) -> (r: Result<(), AppError>)
        ensures
            *final(self) == *old(self),
            r is Ok <==> old(self).behavior.init_ok,
            r matches Err(e) ==> (e matches AppError::Sensor(m) && m@ == "mock init failed"@),
    {
        if self.behavior.init_ok {
            Ok(())
        } else {
            Err(AppError::Sensor("mock init failed".to_owned()))
        }
    }

    fn set_address(&mut self, _new_address: u8) -> (r: Result<(), AppError>)
        ensures
            *final(self) == *old(self),
            r is Ok <==> old(self).behavior.set_address_ok,
            r matches Err(e) ==> (e matches AppError::Sensor(m) && m@
                == "mock set address failed"@),
    {
        if self.behavior.set_address_ok {
            Ok(())
        } else {
            Err(AppError::Sensor("mock set address failed".to_owned()))
        }
    }

    fn verify(&mut self) -> (r: Result<(), AppError>)
        ensures
            *final(self) == *old(self),
            r is Ok <==> old(self).behavior.verify_ok,
            r matches Err(e) ==> (e matches AppError::Sensor(m) && m@ == "mock verify failed"@),
    {
        if self.behavior.verify_ok {
            Ok(())
        } else {
            Err(AppError::Sensor("mock verify failed".to_owned()))
        }
    }

    fn start_ranging(&mut self) -> (r: Result<(), AppError>)
        ensures
            *final(self) == *old(self),
            r is Ok,
    {
        Ok(())
    }

    fn read_distance(&mut self) -> (r: Result<DistanceMeasurement, AppError>)
        ensures
            *final(self) == *old(self),
            r is Ok <==> old(self).behavior.read_distance_ok,
            r matches Ok(m) ==> m == (DistanceMeasurement {
                distance_mm: old(self).behavior.distance_mm,
                range_status: old(self).behavior.range_status,
            }),
            r matches Err(e) ==> (e matches AppError::Sensor(m) && m@
                == "mock read distance failed"@),
    {
        if self.behavior.read_distance_ok {
            Ok(DistanceMeasurement {
                distance_mm: self.behavior.distance_mm,
                range_status: self.behavior.range_status,
            })
        } else {
            Err(AppError::Sensor("mock read distance failed".to_owned()))
        }
    }
}

impl SensorDriverFactory for MockSensorFactory {
    type Driver = MockSensorDriver;

    fn create_default(&mut self) -> (r: Result<Self::Driver, AppError>)
        ensures
            final(self).behaviors@ == old(self).behaviors@,
            r is Ok <==> old(self).spec_next_behavior().create_ok,
            r matches Ok(d) ==> d.behavior == old(self).spec_next_behavior(),
            r matches Err(e) ==> (e matches AppError::Sensor(m) && m@ == "mock create failed"@),
    {
        let behavior = self.next_behavior();
        if behavior.create_ok {
            Ok(MockSensorDriver { behavior })
        } else {
            Err(AppError::Sensor("mock create failed".to_owned()))
        }
    }

    fn create_for_address(&mut self, _address: u8) -> (r: Result<Self::Driver, AppError>)
        ensures
            final(self).behaviors@ == old(self).behaviors@,
            r is Ok <==> old(self).spec_next_behavior().create_ok,
            r matches Ok(d) ==> d.behavior == old(self).spec_next_behavior(),
            r matches Err(e) ==> (e matches AppError::Sensor(m) && m@ == "mock create failed"@),
    {
        self.create_default()
    }
}

} // verus!
