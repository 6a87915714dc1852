//! Hysteretic flight-phase state machine over Cruise, Climb and Descent,
//! driven by the smoothed vertical rate.

use vstd::prelude::*;
use crate::alert::Alert;
use crate::arith::{abs64, abs_int, in_range, nearest_500, round_to_500};

verus! {

/// The inferred flight regime. Baseline data lives only in the Cruise
/// variant; the whole value is replaced on every transition, and within
/// Cruise only the baseline fields move.
#[derive(Clone, Copy, Debug, PartialEq, Eq, Structural)]
pub enum FlightPhase {
    /// Cruising, with the airspeed (knots) and altitude (feet) last
    /// announced as the cruise baseline.
    Cruise { airspeed: i64, altitude: i64 },
    Climb,
    Descent,
}

impl FlightPhase {
    /// Baseline fields, when present, are within the global bound.
    pub open spec fn wf(self) -> bool {
        self matches FlightPhase::Cruise { airspeed, altitude } ==> in_range(airspeed as int)
            && in_range(altitude as int)
    }
}

/// One evaluation of the transition rules against
/// `(current phase, rate below descent threshold, rate above climb threshold)`
/// and the current sample's airspeed and altitude. Returns the next phase
/// and the announcement the transition makes, if any.
///
/// The rules, in order:
/// 1. Cruise with the rate below the descent threshold starts a descent.
/// 2. Cruise with the rate above the climb threshold starts a climb
///    (checked after rule 1, so a descent reading wins if both ever hold).
/// 3. Cruise within both thresholds stays in Cruise; if the sample strays
///    from the baseline by more than 10 knots or more than 500 feet, the
///    baseline moves to the sample and the new cruise is announced.
/// 4. Climb or Descent within both thresholds levels off into Cruise with
///    the sample as the new baseline.
/// 5. Everything else — strange readings — changes nothing and says nothing.
pub open spec fn phase_step(phase: FlightPhase, below: bool, above: bool, airspeed: i64, altitude: i64) -> (
    FlightPhase,
    Option<Alert>,
) {
    match (phase, below, above) {
        (FlightPhase::Cruise { .. }, true, _) => (
            FlightPhase::Descent,
            Some(Alert::StartedDescent),
        ),
        (FlightPhase::Cruise { .. }, _, true) => (FlightPhase::Climb, Some(Alert::Climbing)),
        (FlightPhase::Cruise { airspeed: base_airspeed, altitude: base_altitude }, false, false) => {
            if abs_int(airspeed - base_airspeed) > 10 || abs_int(altitude - base_altitude) > 500 {
                (
                    FlightPhase::Cruise { airspeed, altitude },
                    Some(
                        Alert::NowCruising {
                            altitude: nearest_500(altitude as int) as i64,
                            airspeed,
                        },
                    ),
                )
            } else {
                (phase, None)
            }
        },
        (_, false, false) => (
            FlightPhase::Cruise { airspeed, altitude },
            Some(Alert::LevelingOff),
        ),
        _ => (phase, None),
    }
}

/// Evaluate the transition rules for one sample.
pub fn infer_phase(
    phase: FlightPhase,
    average_rate: i64,
    descent_threshold: i64,
    climb_threshold: i64,
    airspeed: i64,
    altitude: i64,
) -> (r: (FlightPhase, Option<Alert>))
    requires
        phase.wf(),
        in_range(airspeed as int),
        in_range(altitude as int),
    ensures
        r == phase_step(
            phase,
            average_rate < descent_threshold,
            average_rate > climb_threshold,
            airspeed,
            altitude,
        ),
        r.0.wf(),
{
    let below: bool = average_rate < descent_threshold;
    let above: bool = average_rate > climb_threshold;
    match (phase, below, above) {
        (FlightPhase::Cruise { .. }, true, _) => (FlightPhase::Descent, Some(Alert::StartedDescent)),
        (FlightPhase::Cruise { .. }, _, true) => (FlightPhase::Climb, Some(Alert::Climbing)),
        (FlightPhase::Cruise { airspeed: base_airspeed, altitude: base_altitude }, false, false) => {
            if abs64(airspeed - base_airspeed) > 10 || abs64(altitude - base_altitude) > 500 {
                (
                    FlightPhase::Cruise { airspeed, altitude },
                    Some(Alert::NowCruising { altitude: round_to_500(altitude), airspeed }),
                )
            } else {
                (phase, None)
            }
        },
        (_, false, false) => (FlightPhase::Cruise { airspeed, altitude }, Some(Alert::LevelingOff)),
        _ => (phase, None),
    }
}

/// Law: a cruise that stays within both vertical-rate thresholds updates its
/// baseline — and announces the new cruise — exactly when the sample strays
/// from the baseline by more than 10 knots or more than 500 feet; smaller
/// deltas change nothing and say nothing.
pub proof fn lemma_cruise_baseline_update(
    base_airspeed: i64,
    base_altitude: i64,
    airspeed: i64,
    altitude: i64,
)
    ensures
        ({
            let phase = FlightPhase::Cruise { airspeed: base_airspeed, altitude: base_altitude };
            let (next, said) = phase_step(phase, false, false, airspeed, altitude);
            if abs_int(airspeed - base_airspeed) > 10 || abs_int(altitude - base_altitude) > 500 {
                next == FlightPhase::Cruise { airspeed, altitude } && said == Some(
                    Alert::NowCruising { altitude: nearest_500(altitude as int) as i64, airspeed },
                )
            } else {
                next == phase && said is None
            }
        }),
{
}

/// Law: while the rate keeps signalling the phase the machine is already in
/// (or signals both at once), nothing changes and nothing is said — a climb
/// or descent announces itself only on the transition out of Cruise.
pub proof fn lemma_sustained_phase_is_silent(
    phase: FlightPhase,
    below: bool,
    above: bool,
    airspeed: i64,
    altitude: i64,
)
    requires
        phase !is Cruise,
        below || above,
    ensures
        phase_step(phase, below, above, airspeed, altitude) == (phase, None::<Alert>),
{
}

} // verus!
