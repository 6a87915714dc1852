//! Alerting thresholds and options, resolved once at startup and immutable
//! for the life of the process.

use vstd::prelude::*;
use crate::arith::{check_range, in_range, VALUE_BOUND};

verus! {

/// Configuration of the pipeline. Signed thresholds compare as given;
/// bank and pitch limits compare against magnitudes.
#[derive(Clone, Copy, Debug)]
pub struct Config {
    /// Warn when indicated airspeed drops below this value (knots),
    /// once flying speed has been reached at least once.
    pub min_speed_warning: Option<i64>,
    /// Warn when indicated airspeed exceeds this value (knots).
    pub max_speed_warning: Option<i64>,
    /// Warn when the bank angle magnitude exceeds this value (degrees).
    pub max_bank_warning: Option<i64>,
    /// Warn when the pitch angle magnitude exceeds this value (degrees).
    pub max_pitch_warning: Option<i64>,
    /// Announce once after this many minutes have elapsed.
    pub countdown_minutes: Option<u64>,
    /// Computed vertical speeds with magnitudes at or above this value
    /// (feet per minute) are discarded as sensor glitches.
    pub discard_threshold: i64,
    /// An average vertical speed below this value is a descent.
    pub descent_threshold: i64,
    /// An average vertical speed above this value is a climb.
    pub climb_threshold: i64,
    /// How many vertical-speed measurements the smoothing filter weighs.
    pub window_size: usize,
}

impl Config {
    /// Every threshold is bounded and the filter window is positive.
    pub open spec fn wf(self) -> bool {
        &&& self.min_speed_warning matches Some(m) ==> in_range(m as int)
        &&& self.max_speed_warning matches Some(m) ==> in_range(m as int)
        &&& self.max_bank_warning matches Some(m) ==> in_range(m as int)
        &&& self.max_pitch_warning matches Some(m) ==> in_range(m as int)
        &&& self.countdown_minutes matches Some(m) ==> m <= VALUE_BOUND
        &&& in_range(self.discard_threshold as int)
        &&& in_range(self.descent_threshold as int)
        &&& in_range(self.climb_threshold as int)
        &&& 1 <= self.window_size <= VALUE_BOUND
    }

    /// Runtime check of `wf`, for callers outside verified code.
    pub fn valid(&self) -> (r: bool)
        ensures
            r == self.wf(),
    {
        let opts_ok: bool = (match self.min_speed_warning {
            Some(m) => check_range(m),
            None => true,
        }) && (match self.max_speed_warning {
            Some(m) => check_range(m),
            None => true,
        }) && (match self.max_bank_warning {
            Some(m) => check_range(m),
            None => true,
        }) && (match self.max_pitch_warning {
            Some(m) => check_range(m),
            None => true,
        }) && (match self.countdown_minutes {
            Some(m) => m <= VALUE_BOUND as u64,
            None => true,
        });
        opts_ok && check_range(self.discard_threshold) && check_range(self.descent_threshold)
            && check_range(self.climb_threshold) && 1 <= self.window_size && self.window_size
            <= VALUE_BOUND as usize
    }
}

impl Default for Config {
    /// No optional warnings, a 1000 ft/min discard threshold, descent below
    /// -200 ft/min, climb above 200 ft/min, and a 30-sample window.
    fn default() -> (r: Config)
        ensures
            r == (Config {
                min_speed_warning: None,
                max_speed_warning: None,
                max_bank_warning: None,
                max_pitch_warning: None,
                countdown_minutes: None,
                discard_threshold: 1000,
                descent_threshold: -200i64,
                climb_threshold: 200,
                window_size: 30,
            }),
            r.wf(),
    {
        Config {
            min_speed_warning: None,
            max_speed_warning: None,
            max_bank_warning: None,
            max_pitch_warning: None,
            countdown_minutes: None,
            discard_threshold: 1000,
            descent_threshold: -200,
            climb_threshold: 200,
            window_size: 30,
        }
    }
}

} // verus!
