//! One telemetry reading, as delivered once per tick by the simulation host.

use vstd::prelude::*;
use crate::arith::in_range;

verus! {

/// A single telemetry sample: whole feet, knots and degrees. Immutable once
/// received. The frontend rounds the host's raw readings to these units
/// before handing them in.
#[derive(Clone, Copy, Debug, PartialEq, Eq, Structural)]
pub struct Sample {
    /// Indicated altitude in feet.
    pub altitude: i64,
    /// Indicated airspeed in knots.
    pub airspeed: i64,
    /// Bank angle in degrees (signed).
    pub bank: i64,
    /// Pitch angle in degrees (signed).
    pub pitch: i64,
}

impl Sample {
    /// Every field is within the global magnitude bound.
    pub open spec fn wf(self) -> bool {
        &&& in_range(self.altitude as int)
        &&& in_range(self.airspeed as int)
        &&& in_range(self.bank as int)
        &&& in_range(self.pitch as int)
    }

    /// Runtime check of `wf`, for callers outside verified code.
    pub fn valid(&self) -> (r: bool)
        ensures
            r == self.wf(),
    {
        crate::arith::check_range(self.altitude) && crate::arith::check_range(self.airspeed)
            && crate::arith::check_range(self.bank) && crate::arith::check_range(self.pitch)
    }
}

} // verus!
