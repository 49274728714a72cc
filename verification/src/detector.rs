//! Pulse detector: a two-state hysteresis machine that turns a stream of raw
//! amplitude samples into discrete heartbeat events with an instantaneous BPM.
//!
//! The machine is ARMED while waiting for a rising edge and LATCHED after it
//! has triggered on the current pulse; it re-arms only once the signal falls
//! back to the low threshold. A refractory window and a plausibility band
//! suppress candidate beats that would imply a non-physiological rate.

use vstd::prelude::*;

verus! {

/// One raw amplitude sample together with its arrival instant in milliseconds.
#[derive(Clone, Copy, Debug)]
pub struct RawSample {
    pub value: i32,
    pub instant_ms: u64,
}

/// One confirmed heartbeat: the derived rate and the instant it was detected.
/// A beat confirmed before any previous beat exists carries a BPM of 0, since
/// no inter-beat interval is available yet.
#[derive(Clone, Copy, Debug)]
pub struct BeatEvent {
    pub bpm: i32,
    pub instant_ms: u64,
}

/// Detector tuning: the hysteresis band, the minimum inter-beat interval and
/// the band of plausible rates.
#[derive(Clone, Copy, Debug)]
pub struct DetectorParams {
    pub threshold_high: i32,
    pub threshold_low: i32,
    pub refractory_ms: u64,
    pub bpm_min: i32,
    pub bpm_max: i32,
}

impl DetectorParams {
    /// The hysteresis band must be a real band and the plausibility band must
    /// be non-empty and non-negative.
    pub open spec fn wf(self) -> bool {
        &&& self.threshold_low < self.threshold_high
        &&& 0 <= self.bpm_min
        &&& self.bpm_min <= self.bpm_max
    }

    /// The tuning the device is deployed with.
    pub fn standard() -> (p: DetectorParams)
        ensures
            p.wf(),
            p.threshold_high == 535,
            p.threshold_low == 515,
            p.refractory_ms == 450,
            p.bpm_min == 40,
            p.bpm_max == 200,
    {
        DetectorParams {
            threshold_high: 535,
            threshold_low: 515,
            refractory_ms: 450,
            bpm_min: 40,
            bpm_max: 200,
        }
    }
}

/// Internal detector state: `armed` is true in the ARMED state and false in
/// the LATCHED state; `last_beat` is the instant of the last confirmed beat,
/// `None` before the first one.
#[derive(Clone, Copy, Debug)]
pub struct DetectorState {
    pub armed: bool,
    pub last_beat: Option<u64>,
}

/// The state a fresh detector starts in: armed, with no prior beat.
pub open spec fn initial_state() -> DetectorState {
    DetectorState { armed: true, last_beat: None }
}

/// One transition of the detector on a single sample: the successor state and
/// the beat event emitted, if any.
///
/// A rising edge (armed, value at or above the high threshold) always latches.
/// It confirms a beat when there is no prior beat at all, or when the interval
/// since the last beat exceeds the refractory window and the implied BPM of
/// `60000 / interval` lies within the plausibility band.  Once latched, only a
/// sample at or below the low threshold re-arms the machine.
pub open spec fn step_spec(p: DetectorParams, st: DetectorState, s: RawSample) -> (DetectorState,
    Option<BeatEvent>) {
    if st.armed && s.value >= p.threshold_high {
        match st.last_beat {
            None => (
                DetectorState { armed: false, last_beat: Some(s.instant_ms) },
                Some(BeatEvent { bpm: 0, instant_ms: s.instant_ms }),
            ),
            Some(lb) => {
                let delta = s.instant_ms as int - lb as int;
                if delta > p.refractory_ms as int {
                    let bpm = 60000int / delta;
                    if p.bpm_min as int <= bpm && bpm <= p.bpm_max as int {
                        (
                            DetectorState { armed: false, last_beat: Some(s.instant_ms) },
                            Some(BeatEvent { bpm: bpm as i32, instant_ms: s.instant_ms }),
                        )
                    } else {
                        (DetectorState { armed: false, last_beat: st.last_beat }, None)
                    }
                } else {
                    (DetectorState { armed: false, last_beat: st.last_beat }, None)
                }
            },
        }
    } else if !st.armed && s.value <= p.threshold_low {
        (DetectorState { armed: true, last_beat: st.last_beat }, None)
    } else {
        (st, None)
    }
}

/// The state after running the detector over a whole sample sequence.
pub open spec fn detect_after(p: DetectorParams, st: DetectorState, samples: Seq<RawSample>)
    -> DetectorState
    decreases samples.len(),
{
    if samples.len() == 0 {
        st
    } else {
        detect_after(p, step_spec(p, st, samples[0]).0, samples.drop_first())
    }
}

/// The sequence of beat events the detector emits over a sample sequence.
pub open spec fn detect_events(p: DetectorParams, st: DetectorState, samples: Seq<RawSample>)
    -> Seq<BeatEvent>
    decreases samples.len(),
{
    if samples.len() == 0 {
        Seq::<BeatEvent>::empty()
    } else {
        let stepped = step_spec(p, st, samples[0]);
        (match stepped.1 {
            Some(e) => seq![e],
            None => Seq::<BeatEvent>::empty(),
        }) + detect_events(p, stepped.0, samples.drop_first())
    }
}

/// Sample instants are non-decreasing and never precede the last beat already
/// recorded in the state: what a monotone arrival clock guarantees.
pub open spec fn times_ok(st: DetectorState, samples: Seq<RawSample>) -> bool {
    &&& (forall|i: int, j: int|
        0 <= i <= j < samples.len() ==> samples[i].instant_ms <= samples[j].instant_ms)
    &&& (st.last_beat matches Some(lb) ==> (forall|i: int|
        0 <= i < samples.len() ==> lb <= samples[i].instant_ms))
}

/// Appending one sample to a processed sequence runs exactly one more
/// transition from the state the prefix ended in.
proof fn lemma_detect_snoc(p: DetectorParams, st: DetectorState, samples: Seq<RawSample>,
    x: RawSample)
    ensures
        detect_after(p, st, samples.push(x)) == step_spec(p, detect_after(p, st, samples), x).0,
        detect_events(p, st, samples.push(x)) == detect_events(p, st, samples) + (
        match step_spec(p, detect_after(p, st, samples), x).1 {
            Some(e) => seq![e],
            None => Seq::<BeatEvent>::empty(),
        }),
    decreases samples.len(),
{
    if samples.len() == 0 {
        let stepped = step_spec(p, st, x);
        assert(samples.push(x)[0] == x);
        assert(samples.push(x).drop_first() =~= Seq::<RawSample>::empty());
        assert(detect_after(p, st, samples) == st);
        assert(detect_after(p, st, samples.push(x)) == detect_after(p, stepped.0, samples.push(
            x).drop_first()));
        assert(detect_after(p, stepped.0, samples.push(x).drop_first()) == stepped.0);
        assert(detect_events(p, st, samples) =~= Seq::<BeatEvent>::empty());
        assert(detect_events(p, stepped.0, samples.push(x).drop_first())
            =~= Seq::<BeatEvent>::empty());
        assert(detect_events(p, st, samples.push(x)) == (match stepped.1 {
            Some(e) => seq![e],
            None => Seq::<BeatEvent>::empty(),
        }) + detect_events(p, stepped.0, samples.push(x).drop_first()));
        assert(detect_events(p, st, samples.push(x)) =~= detect_events(p, st, samples) + (
        match stepped.1 {
            Some(e) => seq![e],
            None => Seq::<BeatEvent>::empty(),
        }));
    } else {
        let st1 = step_spec(p, st, samples[0]).0;
        let head = (match step_spec(p, st, samples[0]).1 {
            Some(e) => seq![e],
            None => Seq::<BeatEvent>::empty(),
        });
        assert(samples.push(x)[0] == samples[0]);
        assert(samples.push(x).drop_first() =~= samples.drop_first().push(x));
        lemma_detect_snoc(p, st1, samples.drop_first(), x);
        let stfin = detect_after(p, st1, samples.drop_first());
        assert(detect_after(p, st, samples) == stfin);
        assert(detect_after(p, st, samples.push(x)) == detect_after(p, st1, samples.push(
            x).drop_first()));
        assert(detect_after(p, st, samples.push(x)) == step_spec(p, stfin, x).0);
        let tail = (match step_spec(p, stfin, x).1 {
            Some(e) => seq![e],
            None => Seq::<BeatEvent>::empty(),
        });
        assert(detect_events(p, st, samples.push(x)) == head + detect_events(p, st1, samples.push(
            x).drop_first()));
        assert(detect_events(p, st1, samples.drop_first().push(x)) == detect_events(p, st1,
            samples.drop_first()) + tail);
        assert(detect_events(p, st, samples) == head + detect_events(p, st1,
            samples.drop_first()));
        assert(detect_events(p, st, samples.push(x)) =~= detect_events(p, st, samples) + tail);
    }
}

/// A latched detector that sees no sample at or below the low threshold
/// never emits and never re-arms: the latch can only be released by a low
/// sample.
pub proof fn lemma_latched_stays_silent(p: DetectorParams, st: DetectorState,
    samples: Seq<RawSample>)
    requires
        p.wf(),
        !st.armed,
        forall|i: int| 0 <= i < samples.len() ==> (#[trigger] samples[i]).value > p.threshold_low,
    ensures
        detect_events(p, st, samples) == Seq::<BeatEvent>::empty(),
        !detect_after(p, st, samples).armed,
        detect_after(p, st, samples).last_beat == st.last_beat,
    decreases samples.len(),
{
    if samples.len() > 0 {
        let stepped = step_spec(p, st, samples[0]);
        assert(stepped == (st, Option::<BeatEvent>::None));
        assert forall|i: int| 0 <= i < samples.drop_first().len() implies (#[trigger] samples.drop_first()[i]).value
            > p.threshold_low by {
            assert(samples.drop_first()[i] == samples[i + 1]);
        }
        lemma_latched_stays_silent(p, st, samples.drop_first());
        assert(detect_events(p, st, samples) =~= Seq::<BeatEvent>::empty());
    }
}

/// Latch correctness: over any stretch of samples none of which is at or
/// below the low threshold, at most one beat is emitted, whatever state the
/// detector is in when the stretch begins.  Two beats therefore always have
/// an intervening sample at or below the low threshold between them.
pub proof fn lemma_latch_correctness(p: DetectorParams, st: DetectorState,
    samples: Seq<RawSample>)
    requires
        p.wf(),
        forall|i: int| 0 <= i < samples.len() ==> (#[trigger] samples[i]).value > p.threshold_low,
    ensures
        detect_events(p, st, samples).len() <= 1,
    decreases samples.len(),
{
    if samples.len() > 0 {
        let stepped = step_spec(p, st, samples[0]);
        assert forall|i: int| 0 <= i < samples.drop_first().len() implies (#[trigger] samples.drop_first()[i]).value
            > p.threshold_low by {
            assert(samples.drop_first()[i] == samples[i + 1]);
        }
        match stepped.1 {
            Some(e) => {
                assert(!stepped.0.armed);
                lemma_latched_stays_silent(p, stepped.0, samples.drop_first());
            },
            None => {
                lemma_latch_correctness(p, stepped.0, samples.drop_first());
            },
        }
    }
}

/// Refractory guarantee: any two consecutive emitted beats are more than the
/// refractory window apart, and when a beat is already on record, the first
/// emitted beat keeps that distance from it as well.
pub proof fn lemma_refractory_gaps(p: DetectorParams, st: DetectorState, samples: Seq<RawSample>)
    requires
        p.wf(),
        times_ok(st, samples),
    ensures
        forall|k: int|
            0 <= k && k + 1 < detect_events(p, st, samples).len() ==> (#[trigger] detect_events(
                p, st, samples)[k + 1]).instant_ms > detect_events(p, st, samples)[k].instant_ms
                + p.refractory_ms,
        st.last_beat matches Some(lb) ==> (detect_events(p, st, samples).len() > 0
            ==> detect_events(p, st, samples)[0].instant_ms > lb + p.refractory_ms),
    decreases samples.len(),
{
    if samples.len() > 0 {
        let evs = detect_events(p, st, samples);
        let stepped = step_spec(p, st, samples[0]);
        let rest = samples.drop_first();
        let tail = detect_events(p, stepped.0, rest);
        assert forall|i: int, j: int| 0 <= i <= j < rest.len() implies (#[trigger] rest[i]).instant_ms
            <= (#[trigger] rest[j]).instant_ms by {
            assert(rest[i] == samples[i + 1]);
            assert(rest[j] == samples[j + 1]);
        }
        assert forall|i: int| 0 <= i < rest.len() implies samples[0].instant_ms
            <= (#[trigger] rest[i]).instant_ms by {
            assert(rest[i] == samples[i + 1]);
        }
        assert(times_ok(stepped.0, rest));
        lemma_refractory_gaps(p, stepped.0, rest);
        match stepped.1 {
            Some(e) => {
                assert(evs =~= seq![e] + tail);
                assert(stepped.0.last_beat == Some(e.instant_ms));
                assert forall|k: int| 0 <= k && k + 1 < evs.len() implies (#[trigger] evs[k
                    + 1]).instant_ms > evs[k].instant_ms + p.refractory_ms by {
                    if k == 0 {
                        assert(evs[0] == e);
                        assert(evs[1] == tail[0]);
                        assert(tail.len() > 0);
                        assert(tail[0].instant_ms > e.instant_ms + p.refractory_ms);
                    } else {
                        let kk = k - 1;
                        assert(evs[k] == tail[kk]);
                        assert(evs[k + 1] == tail[kk + 1]);
                        assert(detect_events(p, stepped.0, rest)[kk + 1].instant_ms
                            > detect_events(p, stepped.0, rest)[kk].instant_ms + p.refractory_ms);
                    }
                }
            },
            None => {
                assert(evs =~= tail);
                assert(stepped.0.last_beat == st.last_beat);
            },
        }
    }
}

/// Plausibility: every emitted beat with a predecessor on record carries a
/// BPM within the band; only the very first beat of a run that starts with
/// no beat on record carries the placeholder 0 instead.
pub proof fn lemma_bpm_band(p: DetectorParams, st: DetectorState, samples: Seq<RawSample>)
    requires
        p.wf(),
    ensures
        forall|k: int|
            0 <= k < detect_events(p, st, samples).len() && (st.last_beat is Some || k >= 1)
                ==> p.bpm_min <= (#[trigger] detect_events(p, st, samples)[k]).bpm
                <= p.bpm_max,
        st.last_beat is None && detect_events(p, st, samples).len() > 0 ==> detect_events(
            p, st, samples)[0].bpm == 0,
    decreases samples.len(),
{
    if samples.len() > 0 {
        let evs = detect_events(p, st, samples);
        let stepped = step_spec(p, st, samples[0]);
        let rest = samples.drop_first();
        let tail = detect_events(p, stepped.0, rest);
        lemma_bpm_band(p, stepped.0, rest);
        match stepped.1 {
            Some(e) => {
                assert(evs =~= seq![e] + tail);
                assert(stepped.0.last_beat is Some);
                assert forall|k: int| 0 <= k < evs.len() && (st.last_beat is Some || k >= 1) implies
                    p.bpm_min <= (#[trigger] evs[k]).bpm <= p.bpm_max by {
                    if k >= 1 {
                        assert(evs[k] == tail[k - 1]);
                    }
                }
            },
            None => {
                assert(evs =~= tail);
                assert(stepped.0.last_beat == st.last_beat);
            },
        }
    }
}

/// Idempotence on a plateau: from the initial state, a non-empty run held
/// entirely at or above the high threshold produces exactly one beat, at the
/// first sample's instant; the signal must fall to the low threshold before
/// a second beat can ever be emitted.
pub proof fn lemma_plateau_single_beat(p: DetectorParams, st: DetectorState,
    samples: Seq<RawSample>)
    requires
        p.wf(),
        st == initial_state(),
        samples.len() > 0,
        forall|i: int| 0 <= i < samples.len() ==> (#[trigger] samples[i]).value >= p.threshold_high,
    ensures
        detect_events(p, st, samples).len() == 1,
        detect_events(p, st, samples)[0].instant_ms == samples[0].instant_ms,
    decreases samples.len(),
{
    let stepped = step_spec(p, st, samples[0]);
    let e = BeatEvent { bpm: 0, instant_ms: samples[0].instant_ms };
    assert(stepped.1 == Some(e));
    assert(!stepped.0.armed);
    assert forall|i: int| 0 <= i < samples.drop_first().len() implies (#[trigger] samples.drop_first()[i]).value
        > p.threshold_low by {
        assert(samples.drop_first()[i] == samples[i + 1]);
    }
    lemma_latched_stays_silent(p, stepped.0, samples.drop_first());
    assert(detect_events(p, st, samples) =~= seq![e]);
}

/// The pulse detector: its tuning and its current state.
pub struct PulseDetector {
    pub params: DetectorParams,
    pub state: DetectorState,
}

impl PulseDetector {
    /// A fresh detector: armed, with no prior beat recorded.
    pub fn new(params: DetectorParams) -> (d: PulseDetector)
        ensures
            d.params == params,
            d.state == initial_state(),
    {
        PulseDetector { params, state: DetectorState { armed: true, last_beat: None } }
    }

    /// Feed one sample; the state advances and the confirmed beat, if any, is
    /// returned, exactly as `step_spec` prescribes.
    pub fn step(&mut self, sample: RawSample) -> (ev: Option<BeatEvent>)
        requires
            old(self).params.wf(),
            old(self).state.last_beat matches Some(lb) ==> lb <= sample.instant_ms,
        ensures
            final(self).params == old(self).params,
            (final(self).state, ev) == step_spec(old(self).params, old(self).state, sample),
    {
        if self.state.armed && sample.value >= self.params.threshold_high {
            match self.state.last_beat {
                None => {
                    self.state = DetectorState { armed: false, last_beat: Some(sample.instant_ms) };
                    Some(BeatEvent { bpm: 0, instant_ms: sample.instant_ms })
                },
                Some(lb) => {
                    let delta: u64 = sample.instant_ms - lb;
                    if delta > self.params.refractory_ms {
                        let wide: u64 = 60000 / delta;
                        let bpm: i32 = wide as i32;
                        if self.params.bpm_min <= bpm && bpm <= self.params.bpm_max {
                            self.state = DetectorState {
                                armed: false,
                                last_beat: Some(sample.instant_ms),
                            };
                            Some(BeatEvent { bpm, instant_ms: sample.instant_ms })
                        } else {
                            self.state = DetectorState { armed: false, last_beat: Some(lb) };
                            None
                        }
                    } else {
                        self.state = DetectorState { armed: false, last_beat: Some(lb) };
                        None
                    }
                },
            }
        } else if !self.state.armed && sample.value <= self.params.threshold_low {
            self.state = DetectorState { armed: true, last_beat: self.state.last_beat };
            None
        } else {
            None
        }
    }

    /// Feed a whole sample sequence in order; the returned vector holds every
    /// confirmed beat, exactly as `detect_events` prescribes.
    pub fn process_samples(&mut self, samples: &Vec<RawSample>) -> (events: Vec<BeatEvent>)
        requires
            old(self).params.wf(),
            times_ok(old(self).state, samples@),
        ensures
            final(self).params == old(self).params,
            final(self).state == detect_after(old(self).params, old(self).state, samples@),
            events@ == detect_events(old(self).params, old(self).state, samples@),
    {
        let ghost p0 = self.params;
        let ghost st0 = self.state;
        let mut events: Vec<BeatEvent> = Vec::new();
        let mut i: usize = 0;
        while i < samples.len()
            invariant
                0 <= i <= samples.len(),
                self.params == p0,
                p0.wf(),
                times_ok(st0, samples@),
                self.state == detect_after(p0, st0, samples@.take(i as int)),
                events@ == detect_events(p0, st0, samples@.take(i as int)),
                self.state.last_beat matches Some(lb) ==> forall|j: int|
                    i <= j < samples.len() ==> lb <= (#[trigger] samples@[j]).instant_ms,
            decreases samples.len() - i,
        {
            let s = samples[i];
            proof {
                lemma_detect_snoc(p0, st0, samples@.take(i as int), s);
                assert(samples@.take(i as int + 1) =~= samples@.take(i as int).push(s));
            }
            let ev = self.step(s);
            if let Some(e) = ev {
                events.push(e);
            }
            i = i + 1;
        }
        proof {
            assert(samples@.take(samples@.len() as int) =~= samples@);
        }
        events
    }
}

} // verus!
