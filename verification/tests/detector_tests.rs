use heart_monitor::detector::{DetectorParams, PulseDetector, RawSample};

fn standard() -> PulseDetector {
    PulseDetector::new(DetectorParams::standard())
}

fn samples(pairs: &[(i32, u64)]) -> Vec<RawSample> {
    pairs.iter().map(|&(value, instant_ms)| RawSample { value, instant_ms }).collect()
}

#[test]
fn two_beats_with_rearm_and_long_gap() {
    // thresholdHigh=535, thresholdLow=515, refractoryMs=450, band [40, 200]:
    // a rise at t=0 (first beat, always qualifies), a fall to 510 re-arming
    // the latch, and a second rise at t=520 giving 60000/520 = 115 BPM.
    let mut det = standard();
    let evs = det.process_samples(&samples(&[
        (520, 0),
        (540, 0),
        (540, 10),
        (510, 20),
        (540, 520),
    ]));
    assert_eq!(evs.len(), 2);
    assert_eq!(evs[0].instant_ms, 0);
    assert_eq!(evs[0].bpm, 0);
    assert_eq!(evs[1].instant_ms, 520);
    assert_eq!(evs[1].bpm, 115);
}

#[test]
fn refractory_suppresses_but_still_latches() {
    // Same shape, but the second rise comes at t=300 < refractory: only the
    // first beat is emitted, and the crossing still latches.
    let mut det = standard();
    let evs = det.process_samples(&samples(&[
        (520, 0),
        (540, 0),
        (540, 10),
        (510, 20),
        (540, 300),
    ]));
    assert_eq!(evs.len(), 1);
    assert_eq!(evs[0].instant_ms, 0);
    // The suppressed crossing latched: staying high adds nothing.
    let more = det.process_samples(&samples(&[(560, 320), (560, 340)]));
    assert!(more.is_empty());
    // After a fall and a sufficiently late rise, a beat comes again.
    let later = det.process_samples(&samples(&[(500, 360), (545, 600)]));
    assert_eq!(later.len(), 1);
    assert_eq!(later[0].instant_ms, 600);
    assert_eq!(later[0].bpm, 100);
}

#[test]
fn plateau_gives_exactly_one_beat() {
    // A sequence held at or above the high threshold produces exactly one
    // beat until the signal falls back to the low threshold.
    let mut det = standard();
    let evs = det.process_samples(&samples(&[
        (540, 0),
        (600, 100),
        (700, 200),
        (650, 3000),
        (540, 4000),
    ]));
    assert_eq!(evs.len(), 1);
    assert_eq!(evs[0].instant_ms, 0);
}

#[test]
fn band_between_thresholds_never_fires() {
    // Chatter inside the hysteresis band neither fires nor re-arms.
    let mut det = standard();
    let evs = det.process_samples(&samples(&[
        (520, 0),
        (534, 10),
        (516, 20),
        (530, 30),
        (520, 40),
    ]));
    assert!(evs.is_empty());
}

#[test]
fn implausible_rate_is_suppressed() {
    // A rise 60000/500 = 120 BPM qualifies; one at delta=29000 ms gives
    // 60000/29000 = 2 BPM, below the band: suppressed, nothing emitted.
    let mut det = standard();
    let evs = det.process_samples(&samples(&[
        (540, 0),
        (510, 100),
        (540, 500),
        (510, 600),
        (540, 29500),
    ]));
    assert_eq!(evs.len(), 2);
    assert_eq!(evs[1].bpm, 120);
    // The implausible crossing latched all the same.
    let more = det.process_samples(&samples(&[(560, 29600)]));
    assert!(more.is_empty());
}

#[test]
fn consecutive_beats_exceed_refractory_gap() {
    // Over a regular pulse train, consecutive beats are always more than
    // refractoryMs apart.
    let mut det = standard();
    let mut wave = Vec::new();
    let mut t = 0u64;
    for _ in 0..20 {
        wave.push((600, t));
        wave.push((500, t + 250));
        t += 500;
    }
    let evs = det.process_samples(&samples(&wave));
    assert!(evs.len() >= 2);
    for pair in evs.windows(2) {
        assert!(pair[1].instant_ms - pair[0].instant_ms > 450);
    }
    // Every beat after the first carries a BPM inside the band.
    for e in &evs[1..] {
        assert!(40 <= e.bpm && e.bpm <= 200);
    }
}

#[test]
fn step_matches_batch_processing() {
    let mut one = standard();
    let mut batch = standard();
    let input = samples(&[(540, 0), (510, 100), (540, 600), (510, 700), (540, 1200)]);
    let mut collected = Vec::new();
    for s in &input {
        if let Some(e) = one.step(*s) {
            collected.push(e);
        }
    }
    let evs = batch.process_samples(&input);
    assert_eq!(evs.len(), collected.len());
    for (a, b) in evs.iter().zip(collected.iter()) {
        assert_eq!(a.bpm, b.bpm);
        assert_eq!(a.instant_ms, b.instant_ms);
    }
    assert_eq!(evs.len(), 3);
}
