//! The ingestion step: what happens to one received line.
//!
//! The blocking read loop outside the library hands each line here together
//! with its arrival instant.  A line that carries a sample updates the raw
//! field of the Live State, advances the pulse detector, and, when a beat is
//! confirmed, updates the rate group of the Live State and returns the event
//! so the caller can forward it to the observation sink.  Any other line
//! changes nothing.

use vstd::prelude::*;

use crate::detector::BeatEvent;
use crate::detector::PulseDetector;
use crate::detector::RawSample;
use crate::detector::step_spec;
use crate::live::SharedHeartRate;
use crate::parser::line_value;
use crate::parser::parse_sample;

verus! {

/// Process one received line at arrival instant `now_ms`.
pub fn handle_line(
    det: &mut PulseDetector,
    live: &mut SharedHeartRate,
    line: &[u8],
    now_ms: u64,
) -> (ev: Option<BeatEvent>)
    requires
        old(det).params.wf(),
        old(det).state.last_beat matches Some(lb) ==> lb <= now_ms,
    ensures
        final(det).params == old(det).params,
        line_value(line@) is None ==> *final(det) == *old(det) && *final(live) == *old(live) && ev
            is None,
        line_value(line@) matches Some(v) ==> ({
            let stepped = step_spec(
                old(det).params,
                old(det).state,
                RawSample { value: v as i32, instant_ms: now_ms },
            );
            &&& final(det).state == stepped.0
            &&& ev == stepped.1
            &&& final(live).current_raw == v as i32
            &&& (match stepped.1 {
                Some(e) => final(live).current_bpm == e.bpm && final(live).last_updated == Some(
                    e.instant_ms,
                ),
                None => final(live).current_bpm == old(live).current_bpm
                    && final(live).last_updated == old(live).last_updated,
            })
        }),
{
    match parse_sample(line) {
        None => None,
        Some(v) => {
            live.write_raw(v);
            let ev = det.step(RawSample { value: v, instant_ms: now_ms });
            if let Some(e) = ev {
                live.write_beat(e.bpm, e.instant_ms);
            }
            ev
        },
    }
}

} // verus!
