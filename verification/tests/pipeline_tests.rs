use heart_monitor::clock::MAX_RENDERABLE_MS;
use heart_monitor::detector::{DetectorParams, PulseDetector};
use heart_monitor::fhir::FhirObservation;
use heart_monitor::ingest::handle_line;
use heart_monitor::live::SharedHeartRate;
use heart_monitor::publisher::{
    after_push, bio_message, bio_message_now, i32_to_string, u64_to_string, viewer_step,
    ViewerAction, ViewerEvent,
};
use heart_monitor::stats::summarize;
use heart_monitor::transport::{
    connector_step, read_step, select_mode, sim_next, sim_tick, ConnectorAction, ConnectorEvent,
    ReadAction, ReadOutcome, TransportMode,
};

#[test]
fn live_state_starts_with_placeholders() {
    let live = SharedHeartRate::new();
    assert_eq!(live.current_bpm, 70);
    assert_eq!(live.current_raw, 512);
    assert!(live.last_updated.is_none());
}

#[test]
fn default_reading_is_all_zero() {
    let live = SharedHeartRate::default();
    assert_eq!(live.current_bpm, 0);
    assert_eq!(live.current_raw, 0);
    assert!(live.last_updated.is_none());
}

#[test]
fn raw_write_leaves_rate_group_untouched() {
    // After writeRaw(600) a read returns the new raw value, and only values
    // that were written: the rate group is exactly what it was.
    let mut live = SharedHeartRate::new();
    live.write_raw(600);
    let snap = live.read();
    assert_eq!(snap.current_raw, 600);
    assert_eq!(snap.current_bpm, 70);
    assert!(snap.last_updated.is_none());
}

#[test]
fn beat_write_leaves_raw_untouched() {
    let mut live = SharedHeartRate::new();
    live.write_raw(601);
    live.write_beat(96, 1234);
    let snap = live.read();
    assert_eq!(snap.current_raw, 601);
    assert_eq!(snap.current_bpm, 96);
    assert_eq!(snap.last_updated, Some(1234));
}

#[test]
fn viewer_loop_decisions() {
    assert_eq!(viewer_step(ViewerEvent::Tick), ViewerAction::PushSnapshot);
    assert_eq!(viewer_step(ViewerEvent::Ping), ViewerAction::AnswerPong);
    assert_eq!(viewer_step(ViewerEvent::Closed), ViewerAction::EndSession);
    assert_eq!(viewer_step(ViewerEvent::Other), ViewerAction::Ignore);
    assert!(after_push(true));
    assert!(!after_push(false));
}

#[test]
fn connector_decisions_never_terminal() {
    assert_eq!(connector_step(ConnectorEvent::OpenSucceeded), ConnectorAction::ReadStream);
    assert_eq!(connector_step(ConnectorEvent::OpenFailed), ConnectorAction::RetryAfterMs(5000));
    assert_eq!(connector_step(ConnectorEvent::StreamEnded), ConnectorAction::RetryAfterMs(5000));
}

#[test]
fn read_loop_decisions() {
    assert_eq!(read_step(ReadOutcome::GotLine), ReadAction::ProcessLine);
    assert_eq!(read_step(ReadOutcome::EndOfStream), ReadAction::StopReading);
    assert_eq!(read_step(ReadOutcome::TimedOut), ReadAction::YieldAndRetry);
    assert_eq!(read_step(ReadOutcome::Failed), ReadAction::StopReading);
}

#[test]
fn mode_is_chosen_once_from_configuration() {
    assert_eq!(select_mode(true), TransportMode::Simulated);
    assert_eq!(select_mode(false), TransportMode::Device);
}

#[test]
fn simulation_step_is_deterministic_under_fixed_randomness() {
    // change = (r % 7) - 3 with the host language's truncated remainder.
    assert_eq!(sim_next(70, 0, 0), 67);
    assert_eq!(sim_next(70, 6, 0), 73);
    assert_eq!(sim_next(70, -6, 0), 61);
    // Nudged back into band when drifting out of [50, 150].
    assert_eq!(sim_next(52, -6, 0), 55);
    assert_eq!(sim_next(149, 5, 0), 145);
    // A spike draw overrides everything.
    assert_eq!(sim_next(70, 0, 255), 110);
    assert_eq!(sim_next(52, -6, 251), 110);
}

#[test]
fn simulation_stays_in_plausible_band() {
    let mut v = 70;
    for _ in 0..1000 {
        v = sim_tick(v);
        assert!((50..=150).contains(&v));
    }
}

#[test]
fn number_rendering() {
    assert_eq!(u64_to_string(0), "0");
    assert_eq!(u64_to_string(12345), "12345");
    assert_eq!(i32_to_string(-40), "-40");
    assert_eq!(i32_to_string(0), "0");
    assert_eq!(i32_to_string(i32::MIN), "-2147483648");
    assert_eq!(i32_to_string(i32::MAX), "2147483647");
}

#[test]
fn bio_message_without_a_beat_on_record() {
    let live = SharedHeartRate::new();
    let m = bio_message(&live, 0);
    assert_eq!(
        m,
        "{\"bpm\":70,\"last_beat\":null,\"raw\":512,\
         \"timestamp\":\"1970-01-01T00:00:00+00:00\",\"type\":\"BIO_DATA\"}"
    );
}

#[test]
fn bio_message_with_a_beat_on_record() {
    let mut live = SharedHeartRate::new();
    live.write_raw(601);
    live.write_beat(96, 60000);
    let m = bio_message(&live, 120500);
    assert_eq!(
        m,
        "{\"bpm\":96,\"last_beat\":\"1970-01-01T00:01:00+00:00\",\"raw\":601,\
         \"timestamp\":\"1970-01-01T00:02:00.500+00:00\",\"type\":\"BIO_DATA\"}"
    );
}

#[test]
fn bio_message_now_renders_the_snapshot() {
    let live = SharedHeartRate::new();
    let m = bio_message_now(&live);
    assert!(m.starts_with("{\"bpm\":70,\"last_beat\":null,\"raw\":512,\"timestamp\":\""));
    assert!(m.ends_with("\",\"type\":\"BIO_DATA\"}"));
}

#[test]
fn ingestion_updates_live_state_and_reports_beats() {
    let mut det = PulseDetector::new(DetectorParams::standard());
    let mut live = SharedHeartRate::new();
    assert!(handle_line(&mut det, &mut live, b"boot noise\r\n", 0).is_none());
    assert_eq!(live.read().current_raw, 512);
    assert!(handle_line(&mut det, &mut live, b"RAW:520\r\n", 0).is_none());
    assert_eq!(live.read().current_raw, 520);
    let first = handle_line(&mut det, &mut live, b"RAW:540\r\n", 5).expect("first beat");
    assert_eq!(first.instant_ms, 5);
    assert_eq!(live.read().last_updated, Some(5));
    assert!(handle_line(&mut det, &mut live, b"RAW:510\r\n", 20).is_none());
    let second = handle_line(&mut det, &mut live, b"RAW:540\r\n", 505).expect("second beat");
    assert_eq!(second.bpm, 120);
    let snap = live.read();
    assert_eq!(snap.current_bpm, 120);
    assert_eq!(snap.current_raw, 540);
    assert_eq!(snap.last_updated, Some(505));
}

#[test]
fn observation_is_built_from_the_beat() {
    let o = FhirObservation::new_heart_rate(72, "user-123", 0);
    assert_eq!(o.resource_type, "Observation");
    assert_eq!(o.status, "final");
    assert_eq!(o.code.text, "Heart rate");
    assert_eq!(o.code.coding.len(), 1);
    assert_eq!(o.code.coding[0].system, "http://loinc.org");
    assert_eq!(o.code.coding[0].code, "8867-4");
    assert_eq!(o.code.coding[0].display, "Heart rate");
    assert_eq!(o.subject.reference, "Patient/user-123");
    assert_eq!(o.subject.display.as_deref(), Some("Student User"));
    assert_eq!(o.effective_date_time, "1970-01-01T00:00:00+00:00");
    assert_eq!(o.value_quantity.value, 72);
    assert_eq!(o.value_quantity.unit, "beats/minute");
    assert_eq!(o.value_quantity.system, "http://unitsofmeasure.org");
    assert_eq!(o.value_quantity.code, "/min");
    let device = o.device.expect("device reference");
    assert_eq!(device.reference, "Device/arduino-uno-r3");
    assert_eq!(device.display.as_deref(), Some("Arduino Heart Rate Sensor"));
}

#[test]
fn range_summary() {
    assert_eq!(summarize(&vec![60, 80, 100]).count, 3);
    let st = summarize(&vec![60, 80, 100]);
    assert_eq!((st.min, st.max, st.avg), (60, 100, 80));
    let empty = summarize(&vec![]);
    assert_eq!((empty.count, empty.min, empty.max, empty.avg), (0, 0, 0, 0));
    let one = summarize(&vec![97]);
    assert_eq!((one.min, one.max, one.avg), (97, 97, 97));
    // The mean truncates.
    assert_eq!(summarize(&vec![1, 2]).avg, 1);
}

#[test]
fn renderable_bound_is_generous() {
    // Any wall-clock instant for many millennia to come stays renderable.
    assert!(4102444800000u64 < MAX_RENDERABLE_MS);
}
