//! Transport Connector decisions and the synthetic waveform generator.
//!
//! The connector obtains a line-oriented stream from either a real
//! serial-like device or a synthetic generator, chosen once at startup.  The
//! blocking I/O itself runs outside the library; what is decided here is how
//! the connector reacts to each outcome: it retries forever after a fixed
//! delay and is never terminal, so the process runs unattended.

use vstd::prelude::*;

verus! {

/// Fixed delay between connection attempts, in milliseconds.
pub const RETRY_DELAY_MS: u64 = 5000;

/// Which stream source the process runs with; exactly one per process run.
#[derive(Clone, Copy, Debug, PartialEq, Eq, Structural)]
pub enum TransportMode {
    Device,
    Simulated,
}

/// Pick the source once at startup from the configuration switch.
pub fn select_mode(simulation: bool) -> (m: TransportMode)
    ensures
        m == (if simulation {
            TransportMode::Simulated
        } else {
            TransportMode::Device
        }),
{
    if simulation {
        TransportMode::Simulated
    } else {
        TransportMode::Device
    }
}

/// What the connector just observed.
#[derive(Clone, Copy, Debug, PartialEq, Eq, Structural)]
pub enum ConnectorEvent {
    OpenSucceeded,
    OpenFailed,
    StreamEnded,
}

/// What the connector does next.  There is no terminal action: a failure is
/// always answered with a delayed retry.
#[derive(Clone, Copy, Debug, PartialEq, Eq, Structural)]
pub enum ConnectorAction {
    ReadStream,
    RetryAfterMs(u64),
}

/// The connector's reaction to an event: read an open stream; after an open
/// failure or an unexpected end of stream, wait the fixed delay and retry.
pub open spec fn connector_decision(e: ConnectorEvent) -> ConnectorAction {
    match e {
        ConnectorEvent::OpenSucceeded => ConnectorAction::ReadStream,
        ConnectorEvent::OpenFailed => ConnectorAction::RetryAfterMs(RETRY_DELAY_MS),
        ConnectorEvent::StreamEnded => ConnectorAction::RetryAfterMs(RETRY_DELAY_MS),
    }
}

pub fn connector_step(e: ConnectorEvent) -> (a: ConnectorAction)
    ensures
        a == connector_decision(e),
{
    match e {
        ConnectorEvent::OpenSucceeded => ConnectorAction::ReadStream,
        ConnectorEvent::OpenFailed => ConnectorAction::RetryAfterMs(5000),
        ConnectorEvent::StreamEnded => ConnectorAction::RetryAfterMs(5000),
    }
}

/// However many attempts fail in a row, the connector never prescribes
/// stopping and never prescribes an un-delayed retry: every failure is
/// answered with a strictly positive wait, so the loop around it neither
/// terminates the process nor spins.
pub proof fn lemma_connector_never_terminal(events: Seq<ConnectorEvent>)
    ensures
        forall|i: int|
            0 <= i < events.len() && events[i] != ConnectorEvent::OpenSucceeded
                ==> connector_decision(events[i]) == ConnectorAction::RetryAfterMs(RETRY_DELAY_MS)
                && RETRY_DELAY_MS > 0,
{
}

/// What one read from an open stream produced.
#[derive(Clone, Copy, Debug, PartialEq, Eq, Structural)]
pub enum ReadOutcome {
    GotLine,
    EndOfStream,
    TimedOut,
    Failed,
}

/// How the read loop reacts.
#[derive(Clone, Copy, Debug, PartialEq, Eq, Structural)]
pub enum ReadAction {
    ProcessLine,
    StopReading,
    YieldAndRetry,
}

/// The read loop's reaction: a line is processed; an end of stream or a read
/// error ends this stream (the connector then retries); a timeout means
/// nothing happened, so the loop yields and reads again.
pub open spec fn read_decision(o: ReadOutcome) -> ReadAction {
    match o {
        ReadOutcome::GotLine => ReadAction::ProcessLine,
        ReadOutcome::EndOfStream => ReadAction::StopReading,
        ReadOutcome::TimedOut => ReadAction::YieldAndRetry,
        ReadOutcome::Failed => ReadAction::StopReading,
    }
}

pub fn read_step(o: ReadOutcome) -> (a: ReadAction)
    ensures
        a == read_decision(o),
{
    match o {
        ReadOutcome::GotLine => ReadAction::ProcessLine,
        ReadOutcome::EndOfStream => ReadAction::StopReading,
        ReadOutcome::TimedOut => ReadAction::YieldAndRetry,
        ReadOutcome::Failed => ReadAction::StopReading,
    }
}

/// The drift the raw random draw applies to the synthetic rate, matching the
/// truncated remainder of the host language: a value in `[-9, 3]`.
pub open spec fn sim_change(r: int) -> int {
    (if r >= 0 {
        r % 7
    } else {
        -((-r) % 7)
    }) - 3
}

/// One step of the synthetic generator: drift the current value, nudge it
/// back into `[55, 145]` when it leaves `[50, 150]`, and on a rare spike draw
/// jump to 110.
pub open spec fn sim_next_spec(current: int, change_rand: int, spike_rand: int) -> int {
    let drifted = current + sim_change(change_rand);
    let lifted = if drifted < 50 {
        55
    } else {
        drifted
    };
    let capped = if lifted > 150 {
        145
    } else {
        lifted
    };
    if spike_rand > 250 {
        110
    } else {
        capped
    }
}

/// One step of the synthetic generator as a pure function of the previous
/// value and the injected randomness, so simulated-mode behaviour is
/// deterministic under a fixed random sequence.  The result always lies in
/// the plausible band `[50, 150]`.
pub fn sim_next(current: i32, change_rand: i32, spike_rand: u8) -> (v: i32)
    ensures
        v as int == sim_next_spec(current as int, change_rand as int, spike_rand as int),
        50 <= v <= 150,
{
    let wide: i64 = change_rand as i64;
    let rem: i64 = if wide >= 0 {
        wide % 7
    } else {
        -((-wide) % 7)
    };
    let mut val: i64 = current as i64 + (rem - 3);
    if val < 50 {
        val = 55;
    }
    if val > 150 {
        val = 145;
    }
    let mut out: i32 = val as i32;
    if spike_rand > 250 {
        out = 110;
    }
    out
}

pub assume_specification<T>[ rand::random::<T> ]() -> (r: T)
    where
        rand::distr::StandardUniform: rand::distr::Distribution<T>,
;

/// One tick of the simulated source: draw fresh randomness and advance the
/// generator.  Whatever the draws were, the new value lies in `[50, 150]`.
pub fn sim_tick(current: i32) -> (v: i32)
    ensures
        50 <= v <= 150,
{
    let change_rand: i32 = rand::random::<i32>();
    let spike_rand: u8 = rand::random::<u8>();
    sim_next(current, change_rand, spike_rand)
}

} // verus!
