//! The per-sample pipeline: vertical-speed estimation into the smoothing
//! filter, the one-shot countdown, rate-limited threshold warnings, the
//! phase transition, and the altitude-boundary announcement — in that order.

use vstd::prelude::*;
use crate::alert::Alert;
use crate::arith::{abs64, abs_int, div_trunc, in_range, thousands, thousands_band};
use crate::config::Config;
use crate::history::{gate_open, History};
use crate::phase::{infer_phase, phase_step, FlightPhase};
use crate::sample::Sample;

verus! {

/// Feet-per-minute rate over an interval measured in milliseconds:
/// `delta_feet * 60000 / elapsed_ms`, rounded toward zero.
pub open spec fn spec_rate(last_altitude: i64, altitude: i64, elapsed_ms: u64) -> int
    recommends
        elapsed_ms >= 1,
{
    div_trunc((altitude - last_altitude) * 60000, elapsed_ms as int)
}

/// The instantaneous vertical-rate estimate for this tick, or `None` when no
/// time has passed — a non-positive interval is never divided by.
pub open spec fn rate_estimate(h: History, s: Sample, now: u64) -> Option<int> {
    if now > h.last_time {
        Some(spec_rate(h.last_altitude, s.altitude, (now - h.last_time) as u64))
    } else {
        None
    }
}

/// Stage (a): estimate the vertical rate and feed it to the smoothing filter
/// unless it is discarded; always record the sample's altitude.
///
/// A rate whose magnitude reaches `discard_threshold` is a sensor glitch or
/// startup artifact: the filter is not fed and `last_time` is not advanced,
/// so the next tick's interval accumulates across the discard instead of
/// measuring a falsely short one.
pub open spec fn estimator_step(h: History, cfg: Config, s: Sample, now: u64) -> History {
    let h1 = match rate_estimate(h, s, now) {
        Some(rate) => {
            if abs_int(rate) < cfg.discard_threshold {
                History {
                    last_time: now,
                    average_vert_speed: h.average_vert_speed.spec_add(rate as i64),
                    ..h
                }
            } else {
                h
            }
        },
        None => h,
    };
    History { last_altitude: s.altitude, ..h1 }
}

/// Stage (b): the countdown alert this tick — fired when a deadline is set
/// and has arrived.
pub open spec fn timer_alert(h: History, now: u64) -> Option<Alert> {
    if h.timer matches Some(deadline) && now >= deadline {
        Some(Alert::TimerElapsed)
    } else {
        None
    }
}

/// The configured maximum airspeed is exceeded.
pub open spec fn overspeed_candidate(cfg: Config, s: Sample) -> bool {
    cfg.max_speed_warning matches Some(m) && s.airspeed > m
}

/// The bank angle magnitude exceeds the configured maximum.
pub open spec fn bank_candidate(cfg: Config, s: Sample) -> bool {
    cfg.max_bank_warning matches Some(m) && abs_int(s.bank as int) > m
}

/// The pitch angle magnitude exceeds the configured maximum.
pub open spec fn pitch_candidate(cfg: Config, s: Sample) -> bool {
    cfg.max_pitch_warning matches Some(m) && abs_int(s.pitch as int) > m
}

/// The airspeed is below the configured minimum and the latch is already
/// set; before the latch is set, low speed is never warned about.
pub open spec fn low_speed_candidate(cfg: Config, s: Sample, latched: bool) -> bool {
    cfg.min_speed_warning matches Some(m) && latched && s.airspeed < m
}

/// The one-way minimum-speed latch after this sample: once true it stays
/// true; it turns true when the airspeed first exceeds the configured
/// minimum.
pub open spec fn latch_after(cfg: Config, s: Sample, latched: bool) -> bool {
    latched || (cfg.min_speed_warning matches Some(m) && s.airspeed > m)
}

/// One pass of the rate limiter: a candidate is spoken only when the
/// suppression window has expired, and speaking moves the last-warning
/// time to `now`.
pub open spec fn gate_step(last_warning: u64, now: u64, candidate: bool) -> (bool, u64) {
    if candidate && gate_open(last_warning, now) {
        (true, now)
    } else {
        (false, last_warning)
    }
}

/// Stage (c): the four threshold checks, each run through the shared rate
/// limiter in order. Speaking restarts the suppression window, so at
/// most one warning is spoken per sample; the result is that warning and the
/// last-warning time after all four checks.
pub open spec fn warning_step(h: History, cfg: Config, s: Sample, now: u64) -> (Option<Alert>, u64) {
    let g1 = gate_step(h.last_warning, now, overspeed_candidate(cfg, s));
    let g2 = gate_step(g1.1, now, bank_candidate(cfg, s));
    let g3 = gate_step(g2.1, now, pitch_candidate(cfg, s));
    let g4 = gate_step(g3.1, now, low_speed_candidate(cfg, s, h.minspeed_ever_exceeded));
    let said = if g1.0 {
        Some(Alert::AirspeedTooHigh { airspeed: s.airspeed })
    } else if g2.0 {
        Some(Alert::BankTooHigh { bank: s.bank })
    } else if g3.0 {
        Some(Alert::PitchTooHigh { pitch: s.pitch })
    } else if g4.0 {
        Some(Alert::AirspeedBelowMinimum { minimum: cfg.min_speed_warning->Some_0 })
    } else {
        None
    };
    (said, g4.1)
}

/// Stage (e): the altitude-boundary announcement. When the thousand-foot
/// band changed, a climb announces the new band and a descent the old one;
/// cruising announces nothing.
pub open spec fn boundary_alert(prev_altitude: i64, altitude: i64, phase: FlightPhase) -> Option<
    Alert,
> {
    let prev_band = thousands(prev_altitude as int);
    let band = thousands(altitude as int);
    if prev_band != band {
        match phase {
            FlightPhase::Cruise { .. } => None,
            FlightPhase::Climb => Some(Alert::PassingThousandFeet { thousands: band as i64 }),
            FlightPhase::Descent => Some(
                Alert::PassingThousandFeet { thousands: prev_band as i64 },
            ),
        }
    } else {
        None
    }
}

/// An optional alert as the piece of the spoken sequence it contributes.
pub open spec fn opt_seq(a: Option<Alert>) -> Seq<Alert> {
    match a {
        Some(x) => seq![x],
        None => Seq::<Alert>::empty(),
    }
}

/// The whole pipeline pass for one sample: the state after it and the
/// spoken-alert requests it produces, in generation order.
pub open spec fn spec_process(h: History, cfg: Config, s: Sample, now: u64) -> (History, Seq<
    Alert,
>) {
    let h1 = estimator_step(h, cfg, s, now);
    let average = h1.average_vert_speed.average;
    let fired = timer_alert(h1, now);
    let (warned, last_warning) = warning_step(h1, cfg, s, now);
    let (next_phase, phase_alert) = phase_step(
        h1.inferred_phase,
        average < cfg.descent_threshold,
        average > cfg.climb_threshold,
        s.airspeed,
        s.altitude,
    );
    let boundary = boundary_alert(h.last_altitude, s.altitude, next_phase);
    let next = History {
        last_warning,
        minspeed_ever_exceeded: latch_after(cfg, s, h1.minspeed_ever_exceeded),
        inferred_phase: next_phase,
        timer: if fired is Some {
            None
        } else {
            h1.timer
        },
        ..h1
    };
    (next, opt_seq(fired) + opt_seq(warned) + opt_seq(phase_alert) + opt_seq(boundary))
}

/// The instantaneous vertical rate in feet per minute, rounded toward zero.
pub fn instantaneous_rate(last_altitude: i64, altitude: i64, elapsed_ms: u64) -> (r: i64)
    requires
        in_range(last_altitude as int),
        in_range(altitude as int),
        elapsed_ms >= 1,
    ensures
        r as int == spec_rate(last_altitude, altitude, elapsed_ms),
        -120_000_000_000_000 <= r <= 120_000_000_000_000,
{
    let delta: i64 = altitude - last_altitude;
    if delta >= 0 {
        let num: u64 = (delta as u64) * 60000;
        let q: u64 = num / elapsed_ms;
        assert(q <= num) by (nonlinear_arith)
            requires
                q == num as int / elapsed_ms as int,
                elapsed_ms >= 1,
                num >= 0,
        ;
        q as i64
    } else {
        let num: u64 = ((-delta) as u64) * 60000;
        let q: u64 = num / elapsed_ms;
        assert(q <= num) by (nonlinear_arith)
            requires
                q == num as int / elapsed_ms as int,
                elapsed_ms >= 1,
                num >= 0,
        ;
        -(q as i64)
    }
}

/// Stage (a), executable: update the filter and the altitude/time memory.
pub fn run_estimator(history: &mut History, cfg: &Config, s: &Sample, now: u64)
    requires
        old(history).wf(),
        cfg.wf(),
        s.wf(),
    ensures
        *final(history) == estimator_step(*old(history), *cfg, *s, now),
        final(history).wf(),
{
    if now > history.last_time {
        let elapsed: u64 = now - history.last_time;
        let rate: i64 = instantaneous_rate(history.last_altitude, s.altitude, elapsed);
        let magnitude: i64 = abs64(rate);
        if magnitude < cfg.discard_threshold {
            history.last_time = now;
            history.average_vert_speed.add(rate);
        }
    }
    history.last_altitude = s.altitude;
}

/// Stage (b), executable: fire the countdown if its deadline has arrived,
/// clearing the deadline so it can never fire again.
pub fn run_timer(history: &mut History, now: u64) -> (fired: Option<Alert>)
    ensures
        fired == timer_alert(*old(history), now),
        *final(history) == (History {
            timer: if fired is Some {
                None
            } else {
                old(history).timer
            },
            ..*old(history)
        }),
{
    match history.timer {
        Some(deadline) => {
            if now >= deadline {
                history.timer = None;
                Some(Alert::TimerElapsed)
            } else {
                None
            }
        },
        None => None,
    }
}

/// Stage (c), executable: the four threshold checks through the shared rate
/// limiter, and the minimum-speed latch update.
pub fn run_warnings(history: &mut History, cfg: &Config, s: &Sample, now: u64) -> (warned: Option<
    Alert,
>)
    requires
        s.wf(),
    ensures
        warned == warning_step(*old(history), *cfg, *s, now).0,
        *final(history) == (History {
            last_warning: warning_step(*old(history), *cfg, *s, now).1,
            minspeed_ever_exceeded: latch_after(*cfg, *s, old(history).minspeed_ever_exceeded),
            ..*old(history)
        }),
{
    let mut said: Option<Alert> = None;
    if let Some(m) = cfg.max_speed_warning {
        if s.airspeed > m {
            if history.allow_warning(now) {
                said = Some(Alert::AirspeedTooHigh { airspeed: s.airspeed });
            }
        }
    }
    if let Some(m) = cfg.max_bank_warning {
        if abs64(s.bank) > m {
            if history.allow_warning(now) {
                said = Some(Alert::BankTooHigh { bank: s.bank });
            }
        }
    }
    if let Some(m) = cfg.max_pitch_warning {
        if abs64(s.pitch) > m {
            if history.allow_warning(now) {
                said = Some(Alert::PitchTooHigh { pitch: s.pitch });
            }
        }
    }
    if let Some(m) = cfg.min_speed_warning {
        if !history.minspeed_ever_exceeded {
            if s.airspeed > m {
                history.minspeed_ever_exceeded = true;
            }
        } else {
            if s.airspeed < m {
                if history.allow_warning(now) {
                    said = Some(Alert::AirspeedBelowMinimum { minimum: m });
                }
            }
        }
    }
    said
}

/// Stage (e), executable: the altitude-boundary announcement.
pub fn check_boundary(prev_altitude: i64, altitude: i64, phase: &FlightPhase) -> (r: Option<Alert>)
    requires
        in_range(prev_altitude as int),
        in_range(altitude as int),
    ensures
        r == boundary_alert(prev_altitude, altitude, *phase),
{
    let prev_band: i64 = thousands_band(prev_altitude);
    let band: i64 = thousands_band(altitude);
    if prev_band != band {
        match phase {
            FlightPhase::Cruise { .. } => None,
            FlightPhase::Climb => Some(Alert::PassingThousandFeet { thousands: band }),
            FlightPhase::Descent => Some(Alert::PassingThousandFeet { thousands: prev_band }),
        }
    } else {
        None
    }
}

/// Run one telemetry sample through the whole pipeline, updating `history`
/// and returning the spoken-alert requests in generation order.
pub fn process_sample(history: &mut History, cfg: &Config, s: &Sample, now: u64) -> (alerts: Vec<
    Alert,
>)
    requires
        old(history).wf(),
        cfg.wf(),
        s.wf(),
    ensures
        *final(history) == spec_process(*old(history), *cfg, *s, now).0,
        alerts@ == spec_process(*old(history), *cfg, *s, now).1,
        final(history).wf(),
{
    let mut alerts: Vec<Alert> = Vec::new();
    let prev_altitude: i64 = history.last_altitude;

    // (a) vertical-speed estimate, fed to the smoothing filter
    run_estimator(history, cfg, s, now);
    let average: i64 = history.average_vert_speed.average;

    // (b) the one-shot countdown
    let fired: Option<Alert> = run_timer(history, now);
    if let Some(a) = fired {
        alerts.push(a);
    }

    // (c) rate-limited threshold warnings
    let warned: Option<Alert> = run_warnings(history, cfg, s, now);
    if let Some(a) = warned {
        alerts.push(a);
    }

    // (d) the phase transition
    let stepped: (FlightPhase, Option<Alert>) = infer_phase(
        history.inferred_phase,
        average,
        cfg.descent_threshold,
        cfg.climb_threshold,
        s.airspeed,
        s.altitude,
    );
    history.inferred_phase = stepped.0;
    if let Some(a) = stepped.1 {
        alerts.push(a);
    }

    // (e) the altitude-boundary announcement
    let boundary: Option<Alert> = check_boundary(prev_altitude, s.altitude, &history.inferred_phase);
    if let Some(a) = boundary {
        alerts.push(a);
    }

    proof {
        let spec = spec_process(*old(history), *cfg, *s, now);
        assert(*history == spec.0);
        assert(alerts@ =~= opt_seq(fired) + opt_seq(warned) + opt_seq(stepped.1) + opt_seq(
            boundary,
        ));
        assert(alerts@ == spec.1);
    }
    alerts
}

/// Law: a rate whose magnitude reaches the discard threshold (the boundary
/// counts as discarded) leaves the smoothing filter and the sample clock
/// untouched, while the altitude memory still advances.
pub proof fn lemma_discard_policy(h: History, cfg: Config, s: Sample, now: u64)
    requires
        rate_estimate(h, s, now) matches Some(rate) && abs_int(rate) >= cfg.discard_threshold,
    ensures
        estimator_step(h, cfg, s, now) == (History { last_altitude: s.altitude, ..h }),
{
}

/// Law: when no time has passed since the last accepted sample, nothing is
/// divided and the filter is not fed; only the altitude memory advances.
pub proof fn lemma_no_elapsed_no_estimate(h: History, cfg: Config, s: Sample, now: u64)
    requires
        now <= h.last_time,
    ensures
        rate_estimate(h, s, now) is None,
        estimator_step(h, cfg, s, now) == (History { last_altitude: s.altitude, ..h }),
{
}

/// Law: a candidate warning inside the suppression window is not spoken
/// and leaves the limiter state as it was; one beyond the window is spoken
/// and restarts the window at `now`.
pub proof fn lemma_warning_rate_limit(last_warning: u64, now: u64)
    ensures
        now <= last_warning + crate::history::WARNING_GAP_MS ==> gate_step(last_warning, now, true)
            == (false, last_warning),
        now > last_warning + crate::history::WARNING_GAP_MS ==> gate_step(last_warning, now, true)
            == (true, now),
{
}

/// Law: before the airspeed has ever exceeded the configured minimum, no
/// low-speed warning is spoken, however low the airspeed is from the first
/// sample on; the latch, once set, never clears; and it is set only by a
/// sample that exceeds the configured minimum.
pub proof fn lemma_min_speed_latch(h: History, cfg: Config, s: Sample, now: u64)
    ensures
        !h.minspeed_ever_exceeded ==> forall|i: int|
            0 <= i < spec_process(h, cfg, s, now).1.len() ==> !crate::alert::is_low_speed_alert(
                spec_process(h, cfg, s, now).1[i],
            ),
        h.minspeed_ever_exceeded ==> spec_process(h, cfg, s, now).0.minspeed_ever_exceeded,
        spec_process(h, cfg, s, now).0.minspeed_ever_exceeded && !h.minspeed_ever_exceeded ==> (
        cfg.min_speed_warning matches Some(m) && s.airspeed > m),
{
    let pr = spec_process(h, cfg, s, now);
    let h1 = estimator_step(h, cfg, s, now);
    let average = h1.average_vert_speed.average;
    let fired = timer_alert(h1, now);
    let warned = warning_step(h1, cfg, s, now).0;
    let stepped = phase_step(
        h1.inferred_phase,
        average < cfg.descent_threshold,
        average > cfg.climb_threshold,
        s.airspeed,
        s.altitude,
    );
    if !h.minspeed_ever_exceeded {
        assert(!low_speed_candidate(cfg, s, h1.minspeed_ever_exceeded));
        assert(warned matches Some(a) ==> !crate::alert::is_low_speed_alert(a));
        assert(fired matches Some(a) ==> !crate::alert::is_low_speed_alert(a));
        assert(stepped.1 matches Some(a) ==> !crate::alert::is_low_speed_alert(a));
        assert(boundary_alert(h.last_altitude, s.altitude, stepped.0) matches Some(a)
            ==> !crate::alert::is_low_speed_alert(a));
        assert forall|i: int| 0 <= i < pr.1.len() implies !crate::alert::is_low_speed_alert(
            pr.1[i],
        ) by {
            assert(pr.1 == opt_seq(fired) + opt_seq(warned) + opt_seq(stepped.1) + opt_seq(
                boundary_alert(h.last_altitude, s.altitude, stepped.0),
            ));
        }
    }
}

/// Law: the countdown fires at most once — a pass that speaks the timer
/// alert had a deadline set and clears it, once no deadline is set none
/// ever comes back and nothing ever fires, and no single pass speaks the
/// timer alert twice.
pub proof fn lemma_timer_one_shot(h: History, cfg: Config, s: Sample, now: u64)
    ensures
        spec_process(h, cfg, s, now).1.contains(Alert::TimerElapsed) ==> h.timer is Some
            && spec_process(h, cfg, s, now).0.timer is None,
        h.timer is None ==> spec_process(h, cfg, s, now).0.timer is None && !spec_process(
            h,
            cfg,
            s,
            now,
        ).1.contains(Alert::TimerElapsed),
        forall|i: int, j: int|
            0 <= i < j < spec_process(h, cfg, s, now).1.len() ==> !(spec_process(h, cfg, s, now).1[i]
                == Alert::TimerElapsed && spec_process(h, cfg, s, now).1[j]
                == Alert::TimerElapsed),
{
    let pr = spec_process(h, cfg, s, now);
    let h1 = estimator_step(h, cfg, s, now);
    let average = h1.average_vert_speed.average;
    let fired = timer_alert(h1, now);
    let warned = warning_step(h1, cfg, s, now).0;
    let stepped = phase_step(
        h1.inferred_phase,
        average < cfg.descent_threshold,
        average > cfg.climb_threshold,
        s.airspeed,
        s.altitude,
    );
    let boundary = boundary_alert(h.last_altitude, s.altitude, stepped.0);
    assert(h1.timer == h.timer);
    assert(pr.1 == opt_seq(fired) + opt_seq(warned) + opt_seq(stepped.1) + opt_seq(boundary));
    assert(warned matches Some(a) ==> a != Alert::TimerElapsed);
    assert(stepped.1 matches Some(a) ==> a != Alert::TimerElapsed);
    assert(boundary matches Some(a) ==> a != Alert::TimerElapsed);
    if pr.1.contains(Alert::TimerElapsed) {
        let i = choose|i: int| 0 <= i < pr.1.len() && pr.1[i] == Alert::TimerElapsed;
        assert(fired is Some);
    }
    if h.timer is None {
        assert(fired is None);
        assert(forall|i: int| 0 <= i < pr.1.len() ==> pr.1[i] != Alert::TimerElapsed);
    }
    assert forall|i: int, j: int| 0 <= i < j < pr.1.len() implies !(pr.1[i] == Alert::TimerElapsed
        && pr.1[j] == Alert::TimerElapsed) by {
        if pr.1[j] == Alert::TimerElapsed {
            assert(j < opt_seq(fired).len());
        }
    }
}

/// The pipeline over a whole run: each entry of `ticks` is one telemetry
/// sample with its arrival time, processed in order from the starting state.
pub open spec fn spec_run(h: History, cfg: Config, ticks: Seq<(Sample, u64)>) -> (History, Seq<
    Alert,
>)
    decreases ticks.len(),
{
    if ticks.len() == 0 {
        (h, Seq::<Alert>::empty())
    } else {
        let prior = spec_run(h, cfg, ticks.drop_last());
        let last = spec_process(prior.0, cfg, ticks.last().0, ticks.last().1);
        (last.0, prior.1 + last.1)
    }
}

/// The sample does not exceed the configured minimum speed (and so cannot
/// set the latch).
pub open spec fn at_or_below_minimum(cfg: Config, s: Sample) -> bool {
    cfg.min_speed_warning matches Some(m) ==> s.airspeed <= m
}

/// Law: over any run whose samples never exceed the configured minimum
/// speed, started with the latch unset, the latch stays unset and no
/// low-speed warning is ever spoken — even if the airspeed is below the
/// minimum from the first sample on.
pub proof fn lemma_never_low_speed_over_run(h: History, cfg: Config, ticks: Seq<(Sample, u64)>)
    requires
        !h.minspeed_ever_exceeded,
        forall|j: int| 0 <= j < ticks.len() ==> #[trigger] at_or_below_minimum(cfg, ticks[j].0),
    ensures
        !spec_run(h, cfg, ticks).0.minspeed_ever_exceeded,
        forall|i: int|
            0 <= i < spec_run(h, cfg, ticks).1.len() ==> !crate::alert::is_low_speed_alert(
                spec_run(h, cfg, ticks).1[i],
            ),
    decreases ticks.len(),
{
    if ticks.len() > 0 {
        assert forall|j: int| 0 <= j < ticks.drop_last().len() implies #[trigger] at_or_below_minimum(
            cfg,
            ticks.drop_last()[j].0,
        ) by {
            assert(ticks.drop_last()[j] == ticks[j]);
        }
        lemma_never_low_speed_over_run(h, cfg, ticks.drop_last());
        let prior = spec_run(h, cfg, ticks.drop_last());
        let s = ticks.last().0;
        let now = ticks.last().1;
        assert(ticks.last() == ticks[ticks.len() - 1]);
        assert(at_or_below_minimum(cfg, ticks[ticks.len() - 1].0));
        lemma_min_speed_latch(prior.0, cfg, s, now);
        let last = spec_process(prior.0, cfg, s, now);
        assert(last.0.minspeed_ever_exceeded == latch_after(
            cfg,
            s,
            estimator_step(prior.0, cfg, s, now).minspeed_ever_exceeded,
        ));
        assert(!last.0.minspeed_ever_exceeded);
        assert forall|i: int| 0 <= i < spec_run(h, cfg, ticks).1.len() implies !crate::alert::is_low_speed_alert(
            spec_run(h, cfg, ticks).1[i],
        ) by {
            assert(spec_run(h, cfg, ticks).1 == prior.1 + last.1);
            if i < prior.1.len() {
                assert(spec_run(h, cfg, ticks).1[i] == prior.1[i]);
            } else {
                assert(spec_run(h, cfg, ticks).1[i] == last.1[i - prior.1.len()]);
            }
        }
    }
}

/// Law: over any run the countdown fires at most once — no two entries of
/// the run's whole spoken output are the timer alert — and once the
/// deadline is cleared it never comes back.
pub proof fn lemma_timer_once_over_run(h: History, cfg: Config, ticks: Seq<(Sample, u64)>)
    ensures
        spec_run(h, cfg, ticks).1.contains(Alert::TimerElapsed) ==> spec_run(
            h,
            cfg,
            ticks,
        ).0.timer is None,
        h.timer is None ==> spec_run(h, cfg, ticks).0.timer is None && !spec_run(
            h,
            cfg,
            ticks,
        ).1.contains(Alert::TimerElapsed),
        forall|i: int, j: int|
            0 <= i < j < spec_run(h, cfg, ticks).1.len() ==> !(spec_run(h, cfg, ticks).1[i]
                == Alert::TimerElapsed && spec_run(h, cfg, ticks).1[j] == Alert::TimerElapsed),
    decreases ticks.len(),
{
    if ticks.len() > 0 {
        lemma_timer_once_over_run(h, cfg, ticks.drop_last());
        let prior = spec_run(h, cfg, ticks.drop_last());
        let s = ticks.last().0;
        let now = ticks.last().1;
        lemma_timer_one_shot(prior.0, cfg, s, now);
        let last = spec_process(prior.0, cfg, s, now);
        let out = spec_run(h, cfg, ticks).1;
        assert(out == prior.1 + last.1);
        if out.contains(Alert::TimerElapsed) {
            let i = choose|i: int| 0 <= i < out.len() && out[i] == Alert::TimerElapsed;
            if i < prior.1.len() {
                assert(prior.1[i] == Alert::TimerElapsed);
                assert(prior.1.contains(Alert::TimerElapsed));
                assert(prior.0.timer is None);
                assert(last.0.timer is None);
            } else {
                assert(last.1[i - prior.1.len()] == Alert::TimerElapsed);
                assert(last.1.contains(Alert::TimerElapsed));
            }
        }
        assert forall|i: int, j: int| 0 <= i < j < out.len() implies !(out[i]
            == Alert::TimerElapsed && out[j] == Alert::TimerElapsed) by {
            if out[i] == Alert::TimerElapsed && out[j] == Alert::TimerElapsed {
                if j < prior.1.len() {
                    assert(prior.1[i] == Alert::TimerElapsed && prior.1[j]
                        == Alert::TimerElapsed);
                } else if i >= prior.1.len() {
                    assert(last.1[i - prior.1.len()] == Alert::TimerElapsed && last.1[j
                        - prior.1.len()] == Alert::TimerElapsed);
                } else {
                    // the earlier alert cleared the deadline before this pass
                    assert(prior.1[i] == Alert::TimerElapsed);
                    assert(prior.1.contains(Alert::TimerElapsed));
                    assert(prior.0.timer is None);
                    assert(last.1[j - prior.1.len()] == Alert::TimerElapsed);
                    assert(last.1.contains(Alert::TimerElapsed));
                }
            }
        }
    }
}

} // verus!
