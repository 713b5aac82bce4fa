use sprinkler::divider::FrequencyDivider;

#[test]
fn test_freq_divider_1() {
    let mut meter = FrequencyDivider::new(10);
    for _ in 0..25 {
        meter.tick();
    }

    assert_eq!(
        vec![true, true, false, false],
        (0..4).map(|_| meter.read()).collect::<Vec<bool>>()
    );
}

#[test]
fn test_freq_divider_2() {
    let mut meter = FrequencyDivider::new(10);
    for _ in 0..15 {
        meter.tick();
    }

    assert_eq!(
        vec![true, false, false, false],
        (0..4).map(|_| meter.read()).collect::<Vec<bool>>()
    );
}

#[test]
fn test_freq_divider_3() {
    let mut meter = FrequencyDivider::new(10);
    for _ in 0..5 {
        meter.tick();
    }

    assert_eq!(
        vec![false, false, false, false],
        (0..4).map(|_| meter.read()).collect::<Vec<bool>>()
    );
}

#[test]
fn transparent_divider_admits_every_read() {
    let mut d = FrequencyDivider::new(0);
    for _ in 0..3 {
        assert!(d.read());
    }
    d.tick();
    for _ in 0..3 {
        assert!(d.read());
    }
}

#[test]
fn default_divider_is_transparent() {
    let mut d = FrequencyDivider::default();
    assert_eq!(d.interval, 0);
    assert_eq!(d.count, 0);
    assert_eq!(d.output, 0);
    assert!(d.read());
}

#[test]
fn divider_queues_pending_outputs() {
    // A burst of ticks followed by a burst of reads loses no scheduled
    // action: 30 ticks at interval 10 leave exactly 3 admitted reads.
    let mut d = FrequencyDivider::new(10);
    for _ in 0..30 {
        d.tick();
    }
    let admitted = (0..10).filter(|_| d.read()).count();
    assert_eq!(admitted, 3);
}
