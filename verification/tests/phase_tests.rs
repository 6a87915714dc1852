use talking_airplane::alert::Alert;
use talking_airplane::arith::{round_to_500, thousands_band};
use talking_airplane::phase::{infer_phase, FlightPhase};
use talking_airplane::pipeline::check_boundary;

#[test]
fn cruise_to_descent_announces_once() {
    // Smoothed rate -300 with descent threshold -200: start a descent.
    let start = FlightPhase::Cruise { airspeed: 0, altitude: 0 };
    let (next, said) = infer_phase(start, -300, -200, 200, 100, 5000);
    assert_eq!(next, FlightPhase::Descent);
    assert_eq!(said, Some(Alert::StartedDescent));
    // Still below the threshold while already descending: silence.
    let (again, said2) = infer_phase(next, -250, -200, 200, 100, 4700);
    assert_eq!(again, FlightPhase::Descent);
    assert_eq!(said2, None);
}

#[test]
fn cruise_to_climb_announces_once() {
    let start = FlightPhase::Cruise { airspeed: 0, altitude: 0 };
    let (next, said) = infer_phase(start, 300, -200, 200, 100, 5000);
    assert_eq!(next, FlightPhase::Climb);
    assert_eq!(said, Some(Alert::Climbing));
    let (again, said2) = infer_phase(next, 250, -200, 200, 100, 5300);
    assert_eq!(again, FlightPhase::Climb);
    assert_eq!(said2, None);
}

#[test]
fn leveling_off_restores_cruise_with_new_baseline() {
    let (next, said) = infer_phase(FlightPhase::Climb, 0, -200, 200, 140, 9000);
    assert_eq!(next, FlightPhase::Cruise { airspeed: 140, altitude: 9000 });
    assert_eq!(said, Some(Alert::LevelingOff));
}

#[test]
fn cruise_baseline_updates_only_on_large_deltas() {
    let base = FlightPhase::Cruise { airspeed: 100, altitude: 5000 };
    // 11 knots over the baseline: update and announce.
    let (next, said) = infer_phase(base, 0, -200, 200, 111, 5000);
    assert_eq!(next, FlightPhase::Cruise { airspeed: 111, altitude: 5000 });
    assert_eq!(said, Some(Alert::NowCruising { altitude: 5000, airspeed: 111 }));
    // 10 knots and 400 feet: both within tolerance, nothing happens.
    let (next2, said2) = infer_phase(base, 0, -200, 200, 110, 5400);
    assert_eq!(next2, base);
    assert_eq!(said2, None);
    // 501 feet over the baseline: update and announce the rounded altitude.
    let (next3, said3) = infer_phase(base, 0, -200, 200, 100, 5501);
    assert_eq!(next3, FlightPhase::Cruise { airspeed: 100, altitude: 5501 });
    assert_eq!(said3, Some(Alert::NowCruising { altitude: 5500, airspeed: 100 }));
}

#[test]
fn strange_readings_are_silent() {
    // Both thresholds crossed at once (only possible with inverted
    // configuration): a deliberate no-op.
    let (next, said) = infer_phase(FlightPhase::Climb, 0, 100, -100, 100, 5000);
    assert_eq!(next, FlightPhase::Climb);
    assert_eq!(said, None);
}

#[test]
fn rounding_to_nearest_500() {
    assert_eq!(round_to_500(0), 0);
    assert_eq!(round_to_500(9800), 10000);
    assert_eq!(round_to_500(9749), 9500);
    assert_eq!(round_to_500(250), 500); // ties round up
    assert_eq!(round_to_500(-9800), -10000);
}

#[test]
fn thousands_band_floors() {
    assert_eq!(thousands_band(999), 0);
    assert_eq!(thousands_band(1000), 1);
    assert_eq!(thousands_band(10050), 10);
    assert_eq!(thousands_band(-500), -1);
    assert_eq!(thousands_band(-1500), -2);
}

#[test]
fn boundary_announces_new_band_climbing_and_old_band_descending() {
    assert_eq!(
        check_boundary(9900, 10050, &FlightPhase::Climb),
        Some(Alert::PassingThousandFeet { thousands: 10 })
    );
    assert_eq!(
        check_boundary(10050, 9900, &FlightPhase::Descent),
        Some(Alert::PassingThousandFeet { thousands: 10 })
    );
    assert_eq!(
        check_boundary(9900, 10050, &FlightPhase::Cruise { airspeed: 0, altitude: 0 }),
        None
    );
    assert_eq!(check_boundary(9800, 9900, &FlightPhase::Climb), None);
}
