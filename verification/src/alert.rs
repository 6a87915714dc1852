//! Spoken-alert requests produced by the pipeline.

use vstd::prelude::*;

verus! {

/// One spoken-alert request, carrying the numbers the utterance mentions.
/// The frontend renders these into sentences and hands them to speech
/// synthesis in the order they were produced.
#[derive(Clone, Copy, Debug, PartialEq, Eq, Structural)]
pub enum Alert {
    /// "Timer elapsed" — the one-shot countdown reached its deadline.
    TimerElapsed,
    /// "Airspeed too high: `airspeed` knots."
    AirspeedTooHigh { airspeed: i64 },
    /// "Bank angle too high: `bank` degrees."
    BankTooHigh { bank: i64 },
    /// "Pitch angle too high: `pitch` degrees."
    PitchTooHigh { pitch: i64 },
    /// "Airspeed below `minimum`" — low-speed warning after the latch is set.
    AirspeedBelowMinimum { minimum: i64 },
    /// "Started descent."
    StartedDescent,
    /// "Climbing."
    Climbing,
    /// "Now cruising at `altitude` feet and `airspeed` knots." — the altitude
    /// is already rounded to the nearest 500 feet.
    NowCruising { altitude: i64, airspeed: i64 },
    /// "Leveling off."
    LevelingOff,
    /// "Passing `thousands` thousand feet."
    PassingThousandFeet { thousands: i64 },
}

/// The low-speed warning, as a predicate for stating laws about it.
pub open spec fn is_low_speed_alert(a: Alert) -> bool {
    a matches Alert::AirspeedBelowMinimum { .. }
}

} // verus!
