//! The single mutable record the pipeline threads through every sample:
//! continuous-measurement memory, the warning rate limiter, the one-way
//! minimum-speed latch, the inferred phase, and the one-shot countdown.

use vstd::prelude::*;
use crate::arith::in_range;
use crate::config::Config;
use crate::moving_average::MovingAverage;
use crate::phase::FlightPhase;

verus! {

/// Milliseconds a spoken warning suppresses further rate-limited warnings.
pub const WARNING_GAP_MS: u64 = 5000;

/// Milliseconds per countdown minute.
pub const MS_PER_MINUTE: u64 = 60000;

/// All mutable pipeline state. One logical writer; updated once per sample.
#[derive(Clone, Copy, Debug)]
pub struct History {
    /// Altitude of the previous sample, feet.
    pub last_altitude: i64,
    /// Timestamp (ms) of the last sample whose vertical rate was accepted.
    pub last_time: u64,
    /// Timestamp (ms) of the last rate-limited warning that was spoken.
    pub last_warning: u64,
    /// Smoothed vertical speed, feet per minute.
    pub average_vert_speed: MovingAverage,
    /// One-way latch: set once the airspeed has ever exceeded the configured
    /// minimum; never cleared.
    pub minspeed_ever_exceeded: bool,
    /// The inferred flight phase.
    pub inferred_phase: FlightPhase,
    /// Deadline (ms) of the one-shot countdown; cleared when it fires.
    pub timer: Option<u64>,
}

/// A rate-limited warning may be spoken only when strictly more than
/// `WARNING_GAP_MS` has passed since the last one.
pub open spec fn gate_open(last_warning: u64, now: u64) -> bool {
    now > last_warning + WARNING_GAP_MS
}

impl History {
    pub open spec fn wf(self) -> bool {
        &&& in_range(self.last_altitude as int)
        &&& self.average_vert_speed.wf()
        &&& self.inferred_phase.wf()
    }

    /// The fresh state at process start: zero baselines, an empty filter,
    /// the latch unset, phase `Cruise {0, 0}`, and the countdown deadline
    /// (if a countdown was configured) set to `now` plus the configured
    /// minutes.
    pub open spec fn spec_init(cfg: Config, now: u64) -> History {
        History {
            last_altitude: 0,
            last_time: now,
            last_warning: now,
            average_vert_speed: MovingAverage { max_counter: cfg.window_size, counter: 0, average: 0 },
            minspeed_ever_exceeded: false,
            inferred_phase: FlightPhase::Cruise { airspeed: 0, altitude: 0 },
            timer: match cfg.countdown_minutes {
                None => None,
                Some(minutes) => Some((now + minutes * MS_PER_MINUTE) as u64),
            },
        }
    }

    pub fn new(cfg: &Config, now: u64) -> (h: History)
        requires
            cfg.wf(),
            cfg.countdown_minutes matches Some(minutes) ==> now + minutes * MS_PER_MINUTE
                <= u64::MAX,
        ensures
            h == History::spec_init(*cfg, now),
            h.wf(),
    {
        History {
            last_altitude: 0,
            last_time: now,
            last_warning: now,
            average_vert_speed: MovingAverage::new(cfg.window_size),
            minspeed_ever_exceeded: false,
            inferred_phase: FlightPhase::Cruise { airspeed: 0, altitude: 0 },
            timer: match cfg.countdown_minutes {
                None => None,
                Some(minutes) => Some(now + minutes * MS_PER_MINUTE),
            },
        }
    }

    /// The alert gate: report whether a candidate warning may be spoken now,
    /// and if so remember `now` as the time of the last spoken warning.
    pub fn allow_warning(&mut self, now: u64) -> (spoken: bool)
        ensures
            spoken == gate_open(old(self).last_warning, now),
            *final(self) == (if spoken {
                History { last_warning: now, ..*old(self) }
            } else {
                *old(self)
            }),
    {
        if now > self.last_warning && now - self.last_warning > WARNING_GAP_MS {
            self.last_warning = now;
            true
        } else {
            false
        }
    }
}

} // verus!
