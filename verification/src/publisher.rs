//! Stream Publisher: the per-viewer push loop's decisions and the message it
//! pushes.
//!
//! Each connected viewer has an independent loop that races a fixed-interval
//! tick against inbound transport events.  On a tick it pushes a snapshot of
//! the Live State as a `BIO_DATA` message; a push failure, a close, a receive
//! error or the end of the inbound stream end only that viewer's loop.  No
//! message is ever queued: a snapshot is rendered from the freshest reading
//! at the tick that sends it.

use vstd::prelude::*;
use vstd::string::StringExecFns;

use crate::clock::MAX_RENDERABLE_MS;
use crate::clock::render_rfc3339;
use crate::clock::rfc3339_of;
use crate::clock::clamp_instant;
use crate::clock::current_time_ms;
use crate::live::SharedHeartRate;

verus! {

/// What a viewer's loop just observed.
#[derive(Clone, Copy, Debug, PartialEq, Eq, Structural)]
pub enum ViewerEvent {
    /// The fixed-interval tick fired.
    Tick,
    /// The viewer probed liveness.
    Ping,
    /// The viewer asked to close, the inbound stream ended, or receiving
    /// from it failed: all unrecoverable for this viewer.
    Closed,
    /// Any other inbound message; none is defined, so it is ignored.
    Other,
}

/// What the viewer's loop does next.
#[derive(Clone, Copy, Debug, PartialEq, Eq, Structural)]
pub enum ViewerAction {
    /// Read a Live State snapshot and push it as a `BIO_DATA` message.
    PushSnapshot,
    /// Answer the liveness probe and continue.
    AnswerPong,
    /// End this viewer's loop; no other viewer is affected.
    EndSession,
    /// Continue without doing anything.
    Ignore,
}

/// The loop's reaction to each event.
pub open spec fn viewer_decision(e: ViewerEvent) -> ViewerAction {
    match e {
        ViewerEvent::Tick => ViewerAction::PushSnapshot,
        ViewerEvent::Ping => ViewerAction::AnswerPong,
        ViewerEvent::Closed => ViewerAction::EndSession,
        ViewerEvent::Other => ViewerAction::Ignore,
    }
}

pub fn viewer_step(e: ViewerEvent) -> (a: ViewerAction)
    ensures
        a == viewer_decision(e),
{
    match e {
        ViewerEvent::Tick => ViewerAction::PushSnapshot,
        ViewerEvent::Ping => ViewerAction::AnswerPong,
        ViewerEvent::Closed => ViewerAction::EndSession,
        ViewerEvent::Other => ViewerAction::Ignore,
    }
}

/// Whether the loop goes on after a push: a push failure is unrecoverable
/// for that viewer.
pub fn after_push(push_succeeded: bool) -> (stay: bool)
    ensures
        stay == push_succeeded,
{
    push_succeeded
}

/// The decimal digit characters of a non-negative number, most significant
/// first.
pub open spec fn dec_digits(n: int) -> Seq<char>
    decreases n,
{
    if n < 10 {
        seq![digit_char(n)]
    } else {
        dec_digits(n / 10).push(digit_char(n % 10))
    }
}

/// The character for one decimal digit.
pub open spec fn digit_char(d: int) -> char {
    if d == 0 {
        '0'
    } else if d == 1 {
        '1'
    } else if d == 2 {
        '2'
    } else if d == 3 {
        '3'
    } else if d == 4 {
        '4'
    } else if d == 5 {
        '5'
    } else if d == 6 {
        '6'
    } else if d == 7 {
        '7'
    } else if d == 8 {
        '8'
    } else {
        '9'
    }
}

/// The decimal rendering of a signed number: a minus sign before the digits
/// of its magnitude when negative.
pub open spec fn int_chars(v: int) -> Seq<char> {
    if v < 0 {
        seq!['-'] + dec_digits(-v)
    } else {
        dec_digits(v)
    }
}

fn digit_str(d: u64) -> (s: &'static str)
    requires
        d < 10,
    ensures
        s@ == seq![digit_char(d as int)],
{
    proof {
        reveal_strlit("0");
        reveal_strlit("1");
        reveal_strlit("2");
        reveal_strlit("3");
        reveal_strlit("4");
        reveal_strlit("5");
        reveal_strlit("6");
        reveal_strlit("7");
        reveal_strlit("8");
        reveal_strlit("9");
    }
    let s: &'static str = if d == 0 {
        "0"
    } else if d == 1 {
        "1"
    } else if d == 2 {
        "2"
    } else if d == 3 {
        "3"
    } else if d == 4 {
        "4"
    } else if d == 5 {
        "5"
    } else if d == 6 {
        "6"
    } else if d == 7 {
        "7"
    } else if d == 8 {
        "8"
    } else {
        "9"
    };
    proof {
        assert(s@ =~= seq![digit_char(d as int)]);
    }
    s
}

/// Render a non-negative number in decimal.
pub fn u64_to_string(n: u64) -> (s: String)
    ensures
        s@ == dec_digits(n as int),
    decreases n,
{
    if n < 10 {
        String::from_str(digit_str(n))
    } else {
        let mut s = u64_to_string(n / 10);
        s.append(digit_str(n % 10));
        proof {
            assert(s@ =~= dec_digits(n as int));
        }
        s
    }
}

/// Render a signed number in decimal.
pub fn i32_to_string(v: i32) -> (s: String)
    ensures
        s@ == int_chars(v as int),
{
    if v >= 0 {
        u64_to_string(v as u64)
    } else {
        let magnitude: u64 = (-(v as i64)) as u64;
        let mut s = String::from_str("-");
        let digits = u64_to_string(magnitude);
        s.append(digits.as_str());
        proof {
            reveal_strlit("-");
            assert("-"@ =~= seq!['-']);
            assert(s@ =~= int_chars(v as int));
        }
        s
    }
}

/// The `BIO_DATA` message for one snapshot: the latest rate and raw value,
/// the instant of the last confirmed beat (`null` before the first), and the
/// instant the message was rendered, as a JSON object with its keys in
/// lexicographic order.
pub open spec fn bio_message_spec(
    bpm: int,
    raw: int,
    last_beat: Option<u64>,
    now_ms: u64,
) -> Seq<char> {
    "{\"bpm\":"@ + int_chars(bpm) + ",\"last_beat\":"@ + (match last_beat {
        Some(t) => "\""@ + rfc3339_of(t) + "\""@,
        None => "null"@,
    }) + ",\"raw\":"@ + int_chars(raw) + ",\"timestamp\":\""@ + rfc3339_of(now_ms)
        + "\",\"type\":\"BIO_DATA\"}"@
}

/// Render the `BIO_DATA` message for a snapshot of the Live State taken at
/// `now_ms`.
pub fn bio_message(reading: &SharedHeartRate, now_ms: u64) -> (m: String)
    requires
        now_ms < MAX_RENDERABLE_MS,
        reading.last_updated matches Some(t) ==> t < MAX_RENDERABLE_MS,
    ensures
        m@ == bio_message_spec(
            reading.current_bpm as int,
            reading.current_raw as int,
            reading.last_updated,
            now_ms,
        ),
{
    let mut m = String::from_str("{\"bpm\":");
    let bpm_s = i32_to_string(reading.current_bpm);
    m.append(bpm_s.as_str());
    m.append(",\"last_beat\":");
    match reading.last_updated {
        Some(t) => {
            m.append("\"");
            let ts = render_rfc3339(t);
            m.append(ts.as_str());
            m.append("\"");
        },
        None => {
            m.append("null");
        },
    }
    m.append(",\"raw\":");
    let raw_s = i32_to_string(reading.current_raw);
    m.append(raw_s.as_str());
    m.append(",\"timestamp\":\"");
    let now_s = render_rfc3339(now_ms);
    m.append(now_s.as_str());
    m.append("\",\"type\":\"BIO_DATA\"}");
    proof {
        assert(m@ =~= bio_message_spec(
            reading.current_bpm as int,
            reading.current_raw as int,
            reading.last_updated,
            now_ms,
        ));
    }
    m
}

/// Render the `BIO_DATA` message for a snapshot at the present wall-clock
/// instant.  Whatever the clock returned, the message is the rendering of
/// the snapshot at some renderable instant.
pub fn bio_message_now(reading: &SharedHeartRate) -> (m: String)
    requires
        reading.last_updated matches Some(t) ==> t < MAX_RENDERABLE_MS,
    ensures
        exists|now: u64|
            now < MAX_RENDERABLE_MS && m@ == bio_message_spec(
                reading.current_bpm as int,
                reading.current_raw as int,
                reading.last_updated,
                now,
            ),
{
    let t = current_time_ms();
    let now_ms = clamp_instant(t);
    bio_message(reading, now_ms)
}

} // verus!
