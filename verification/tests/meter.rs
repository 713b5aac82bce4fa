use sprinkler::anomaly::Anomaly;
use sprinkler::meter::EventRateMeter;

/// Tick once every `period_ms` for `n` ticks starting at time 0, then read
/// at the moment the last period ends (a 13 ms cadence is about 77 Hz, a
/// 15 ms cadence about 67 Hz).
fn run_cadence(period_ms: u64, n: u64) -> u64 {
    let mut meter = EventRateMeter::new(0);
    for i in 0..n {
        meter.tick_at(i * period_ms);
    }
    meter.read_at(n * period_ms)
}

#[test]
fn rate_above_70_hz_is_reported_above_70000_millihz() {
    // 25 ticks, 13 ms apart: 25_000_000 / 325 = 76_923 milli-hertz.
    let r = run_cadence(13, 25);
    assert_eq!(r, 76_923);
    assert!(r > 70_000);
}

#[test]
fn rate_below_70_hz_is_reported_below_70000_millihz() {
    // 25 ticks, 15 ms apart: 25_000_000 / 375 = 66_666 milli-hertz.
    let r = run_cadence(15, 25);
    assert_eq!(r, 66_666);
    assert!(r <= 70_000);
}

#[test]
fn rate_threshold_holds_at_low_tick_counts() {
    // 4 ticks only: the hysteresis rule does not apply while last_rate is
    // zero, so the partial window still extrapolates.
    assert!(run_cadence(13, 4) > 70_000);
    assert!(run_cadence(15, 4) <= 70_000);
}

#[test]
fn rate_threshold_holds_across_window_rollovers() {
    // 300 ticks span several windows; the latched rate keeps the reading
    // on the right side of the threshold.
    assert!(run_cadence(13, 300) > 70_000);
    assert!(run_cadence(15, 300) <= 70_000);
}

#[test]
fn silent_stream_reads_zero_past_two_windows() {
    let mut meter = EventRateMeter::new(0);
    for i in 0..25u64 {
        meter.tick_at(i * 13);
    }
    assert!(meter.read_at(400) > 0);
    // At exactly two window lengths the stream still reads: 25 ticks over
    // two seconds.
    assert_eq!(meter.read_at(2000), 12_500);
    // More than two window lengths with no tick: the stream is dead.
    assert_eq!(meter.read_at(2001), 0);
    assert_eq!(meter.read_at(2500), 0);
}

#[test]
fn a_tick_at_exactly_one_window_latches() {
    let mut meter = EventRateMeter::new(0);
    for i in 0..10u64 {
        meter.tick_at(i * 100);
    }
    assert_eq!(meter.count, 10);
    // At least one full window has elapsed: the reading (11 ticks over one
    // second) is latched, the counter resets, the window advances.
    meter.tick_at(1000);
    assert_eq!(meter.count, 0);
    assert_eq!(meter.t0, 1000);
    assert_eq!(meter.last_rate, 11_000);
}

#[test]
fn hysteresis_replays_last_full_window_rate() {
    let mut meter = EventRateMeter::new(0);
    // Fill one window at about 10 Hz: ticks at 0, 100, ..., 900; the tick
    // at 1000 closes the window and latches 11 ticks over one second.
    for i in 0..=10u64 {
        meter.tick_at(i * 100);
    }
    assert_eq!(meter.count, 0);
    assert_eq!(meter.last_rate, 11_000);
    // One tick into the new window: too small a sample, so the latched
    // rate is replayed instead of extrapolating from one tick.
    meter.tick_at(1150);
    assert_eq!(meter.read_at(1200), 11_000);
}

#[test]
fn fresh_meter_fields() {
    let m = EventRateMeter::new(7);
    assert_eq!(m.count, 0);
    assert_eq!(m.t0, 7);
    assert_eq!(m.last_rate, 0);
    assert_eq!(m.interval, 1000);
    assert_eq!(m.state, Anomaly::Negative);
}

#[test]
fn default_meter_starts_quiet() {
    let m = EventRateMeter::default();
    assert_eq!(m.count, 0);
    assert_eq!(m.last_rate, 0);
    assert_eq!(m.interval, 1000);
    assert_eq!(m.state, Anomaly::Negative);
}

#[test]
fn clock_backed_tick_and_read_run() {
    // The wall-clock companions drive the same transition functions.
    let mut m = EventRateMeter::default();
    m.tick();
    let _ = m.read();
    assert!(m.count == 1 || m.count == 0);
}

#[test]
fn combo_divided_cadence_crosses_threshold() {
    // A divider of interval 4 in front of the meter quarters the rate:
    // ticks every 12 ms (about 83 Hz) meter at about 20.8 Hz.
    let mut meter = EventRateMeter::new(0);
    let mut divider = sprinkler::divider::FrequencyDivider::new(4);
    for i in 0..100u64 {
        divider.tick();
        if divider.read() {
            meter.tick_at(i * 12);
        }
    }
    assert!(meter.read_at(1200) > 18_600);
}

#[test]
fn combo_divided_slower_cadence_stays_below_threshold() {
    // Ticks every 14 ms (about 71 Hz) divided by 4 meter at about 17.9 Hz.
    let mut meter = EventRateMeter::new(0);
    let mut divider = sprinkler::divider::FrequencyDivider::new(4);
    for i in 0..100u64 {
        divider.tick();
        if divider.read() {
            meter.tick_at(i * 14);
        }
    }
    assert!(meter.read_at(1400) <= 18_600);
}

#[test]
fn combo_transparent_divider_passes_the_rate_through() {
    let mut meter = EventRateMeter::new(0);
    let mut divider = sprinkler::divider::FrequencyDivider::new(0);
    for i in 0..100u64 {
        divider.tick();
        if divider.read() {
            meter.tick_at(i * 12);
        }
    }
    assert!(meter.read_at(1200) > 70_000);

    let mut meter = EventRateMeter::new(0);
    let mut divider = sprinkler::divider::FrequencyDivider::new(0);
    for i in 0..100u64 {
        divider.tick();
        if divider.read() {
            meter.tick_at(i * 15);
        }
    }
    assert!(meter.read_at(1500) <= 70_000);
}
