use golfer::clock::{Reading, UtcAnchor, UtcVerdict};
use golfer::gps::GpsState;
use golfer::journal::{
    apply_utc, fix_event, frame_diagnosis, frame_event, given_up_diagnosis, loss_event, utc_log,
};
use golfer::packet::{DecodeError, GpsFixClass, TelemetryV1};
use golfer::radio::PacketStatus;
use golfer::receiver::{
    FrameOutcome, LinkLoss, Outage, Receiver, SequenceNote, SequenceTracker,
    EXPECTED_SENDER_SYSTEM_ID, EXPECTED_SURVEY_ID,
};
use golfer::records::{DiagDetail, EventDetail};
use golfer::storage::{PersistentLogLevel, Storage, StorageMode};

const STATUS: PacketStatus = PacketStatus { rssi: -97, snr: 8 };

fn telemetry(sequence: u32) -> TelemetryV1 {
    TelemetryV1 {
        sender_mode: 1,
        sender_system_id: EXPECTED_SENDER_SYSTEM_ID,
        survey_id: EXPECTED_SURVEY_ID,
        sequence,
        gps_unix_time: None,
        latitude_e7: None,
        longitude_e7: None,
        altitude_half_m: None,
        speed_cm_s: None,
        course_cdeg: None,
        gps_fix_class: GpsFixClass::NoFix,
        satellites: 0,
        hdop_tenths: None,
        temperature_centi_c: None,
        pressure_10pa: None,
        humidity_half_percent: None,
        battery_soc_percent: None,
    }
}

fn frame(sequence: u32) -> [u8; 48] {
    telemetry(sequence).encode().unwrap()
}

fn note(outcome: FrameOutcome) -> SequenceNote {
    match outcome {
        FrameOutcome::Accepted { note, .. } => note,
        FrameOutcome::Ignored { note, .. } => note,
        _ => panic!("no number"),
    }
}

const SECOND: u64 = 1_000_000;

#[test]
fn packets_in_order_are_counted() {
    let mut receiver = Receiver::new();
    let first = receiver.on_frame(&frame(100), STATUS, SECOND);
    assert_eq!(
        first,
        FrameOutcome::Accepted {
            telemetry: telemetry(100),
            note: SequenceNote::First,
            given_up: None,
            outage: None,
        }
    );
    let second = receiver.on_frame(&frame(103), STATUS, 2 * SECOND);
    assert_eq!(note(second), SequenceNote::InOrder { previous: 100, missed: 2 });
    assert_eq!(receiver.received, 2);
    assert_eq!(receiver.missed, 2);
    assert_eq!(receiver.last_rssi, Some(-97));
    assert_eq!(receiver.last_accepted, Some(103));
    assert!(receiver.link_up(3 * SECOND));
}

#[test]
fn bad_frames_count_only_for_themselves() {
    let mut receiver = Receiver::new();
    receiver.on_frame(&frame(5), STATUS, SECOND);
    let before = receiver;
    let mut broken = frame(6);
    broken[10] ^= 0x40;
    let outcome = receiver.on_frame(&broken, STATUS, 2 * SECOND);
    assert!(matches!(outcome, FrameOutcome::CrcFailed { .. }));
    assert_eq!(receiver, Receiver { crc_failures: 1, ..before });
    let outcome = receiver.on_frame(b"hello", STATUS, 2 * SECOND);
    assert_eq!(outcome, FrameOutcome::Rejected(DecodeError::WrongLength));
    assert_eq!(receiver, Receiver { crc_failures: 1, invalid_packets: 1, ..before });
    let foreign = TelemetryV1 { survey_id: 7, ..telemetry(6) };
    let outcome = receiver.on_frame(&foreign.encode().unwrap(), STATUS, 2 * SECOND);
    assert_eq!(outcome, FrameOutcome::Foreign(foreign));
    assert_eq!(
        receiver,
        Receiver { crc_failures: 1, invalid_packets: 1, foreign_packets: 1, ..before }
    );
}

#[test]
fn a_far_jump_waits_for_its_successor() {
    let mut receiver = Receiver::new();
    receiver.on_frame(&frame(100), STATUS, SECOND);
    let jump = receiver.on_frame(&frame(5_000), STATUS, 2 * SECOND);
    assert_eq!(
        note(jump),
        SequenceNote::Suspicious {
            previous: 100,
            gap: 4_900,
            elapsed_ms: 1_000,
            expected_gap: 1,
            max_gap: 6,
        }
    );
    assert_eq!(receiver.tracker.trusted, Some(100));
    assert_eq!(receiver.received, 2);
    let again = receiver.on_frame(&frame(5_000), STATUS, 3 * SECOND);
    assert_eq!(note(again), SequenceNote::CandidateDuplicate);
    assert_eq!(receiver.received, 2);
    let next = receiver.on_frame(&frame(5_001), STATUS, 3 * SECOND);
    assert_eq!(
        note(next),
        SequenceNote::Resync { previous: 100, candidate: 5_000, missed: 4_899 }
    );
    assert_eq!(receiver.missed, 4_899);
    assert_eq!(receiver.tracker.trusted, Some(5_001));
}

#[test]
fn a_stray_number_is_given_up() {
    let mut receiver = Receiver::new();
    receiver.on_frame(&frame(100), STATUS, SECOND);
    receiver.on_frame(&frame(5_000), STATUS, 2 * SECOND);
    let outcome = receiver.on_frame(&frame(101), STATUS, 3 * SECOND);
    assert_eq!(note(outcome), SequenceNote::InOrder { previous: 100, missed: 0 });
    let line = given_up_diagnosis(outcome).unwrap();
    assert_eq!(line.event_id, "SEQ_CANDIDATE_NOT_CONFIRMED");
    assert_eq!(
        line.detail,
        DiagDetail::NotConfirmed { candidate: 5_000, next: 101, trusted: 100 }
    );
    assert_eq!(
        receiver.tracker,
        SequenceTracker {
            trusted: Some(101),
            trusted_us: Some(3 * SECOND),
            candidate: None,
        }
    );
}

#[test]
fn old_numbers_are_ignored_and_restarts_are_not() {
    let mut receiver = Receiver::new();
    receiver.on_frame(&frame(100), STATUS, SECOND);
    let outcome = receiver.on_frame(&frame(100), STATUS, 2 * SECOND);
    assert_eq!(note(outcome), SequenceNote::Duplicate);
    let outcome = receiver.on_frame(&frame(50), STATUS, 2 * SECOND);
    assert_eq!(note(outcome), SequenceNote::Backward { previous: 100 });
    assert_eq!(receiver.received, 1);
    let outcome = receiver.on_frame(&frame(10), STATUS, 2 * SECOND);
    assert_eq!(note(outcome), SequenceNote::Reset { previous: 100 });
    assert_eq!(receiver.received, 2);
    assert_eq!(receiver.tracker.trusted, Some(10));
}

#[test]
fn a_long_outage_explains_a_jump() {
    let mut receiver = Receiver::new();
    receiver.on_frame(&frame(100), STATUS, SECOND);
    let outcome = receiver.on_frame(&frame(165), STATUS, 61 * SECOND);
    assert_eq!(note(outcome), SequenceNote::InOrder { previous: 100, missed: 64 });
    let outcome = receiver.on_frame(&frame(171), STATUS, 61 * SECOND);
    assert!(matches!(note(outcome), SequenceNote::Suspicious { .. }));
}

#[test]
fn the_link_is_lost_once_and_comes_back() {
    let mut receiver = Receiver::new();
    assert_eq!(receiver.on_quiet(100 * SECOND), None);
    receiver.on_frame(&frame(1), STATUS, 100 * SECOND);
    assert_eq!(receiver.on_quiet(104 * SECOND), None);
    assert!(!receiver.link_up(105 * SECOND));
    let loss = receiver.on_quiet(105 * SECOND).unwrap();
    assert_eq!(
        loss,
        LinkLoss { last_sequence: 1, last_rx_mono_ms: 100_000, age_ms: 5_000 }
    );
    let event = loss_event(loss);
    assert_eq!(event.event_id, "LINK_LOST");
    assert_eq!(receiver.on_quiet(106 * SECOND), None);
    let outcome = receiver.on_frame(&frame(9), STATUS, 108 * SECOND);
    assert_eq!(
        outcome,
        FrameOutcome::Accepted {
            telemetry: telemetry(9),
            note: SequenceNote::InOrder { previous: 1, missed: 7 },
            given_up: None,
            outage: Some(Outage { outage_ms: 8_000, previous_rx_mono_ms: 100_000 }),
        }
    );
    let event = frame_event(&receiver, outcome, STATUS).unwrap();
    assert_eq!(event.event_id, "LINK_REACQUIRED");
    assert_eq!(
        event.detail,
        EventDetail::LinkReacquired {
            sequence: 9,
            outage_ms: 8_000,
            previous_rx_mono_ms: 100_000,
        }
    );
    assert!(!receiver.link_lost);
}

#[test]
fn frames_are_diagnosed() {
    let mut receiver = Receiver::new();
    let mut broken = frame(6);
    broken[10] ^= 0x40;
    let outcome = receiver.on_frame(&broken, STATUS, SECOND);
    let line = frame_diagnosis(&receiver, outcome, STATUS, 48).unwrap();
    assert_eq!(line.level, PersistentLogLevel::Debug);
    assert_eq!(line.originator, "RADIO");
    assert_eq!(line.event_id, "APP_CRC_FAILED");
    assert_eq!(frame_event(&receiver, outcome, STATUS).unwrap().event_id, "APP_CRC_FAILED");
    let outcome = receiver.on_frame(b"hello", STATUS, SECOND);
    let line = frame_diagnosis(&receiver, outcome, STATUS, 5).unwrap();
    assert_eq!(
        line.detail,
        DiagDetail::Rejected {
            len: 5,
            error: DecodeError::WrongLength,
            count: 1,
            rssi: -97,
            snr: 8,
        }
    );
    let outcome = receiver.on_frame(&frame(6), STATUS, SECOND);
    assert!(frame_diagnosis(&receiver, outcome, STATUS, 48).is_none());
    let outcome = receiver.on_frame(&frame(600), STATUS, SECOND);
    let line = frame_diagnosis(&receiver, outcome, STATUS, 48).unwrap();
    assert_eq!(line.event_id, "SEQ_SUSPICIOUS");
    assert_eq!(line.level, PersistentLogLevel::Warn);
    let outcome = receiver.on_frame(&frame(600), STATUS, SECOND);
    let line = frame_diagnosis(&receiver, outcome, STATUS, 48).unwrap();
    assert_eq!(line.event_id, "SEQ_CANDIDATE_DUPLICATE");
    let outcome = receiver.on_frame(&frame(601), STATUS, SECOND);
    let line = frame_diagnosis(&receiver, outcome, STATUS, 48).unwrap();
    assert_eq!(line.event_id, "SEQ_RESYNC_CONFIRMED");
    let outcome = receiver.on_frame(&frame(300), STATUS, SECOND);
    let line = frame_diagnosis(&receiver, outcome, STATUS, 48).unwrap();
    assert_eq!(line.event_id, "SEQ_BACKWARD");
    let outcome = receiver.on_frame(&frame(3), STATUS, SECOND);
    let line = frame_diagnosis(&receiver, outcome, STATUS, 48).unwrap();
    assert_eq!(line.event_id, "SEQ_RESET");
    let foreign = TelemetryV1 { sender_system_id: 7, ..telemetry(6) };
    let outcome = receiver.on_frame(&foreign.encode().unwrap(), STATUS, SECOND);
    let line = frame_diagnosis(&receiver, outcome, STATUS, 48).unwrap();
    assert_eq!(line.event_id, "SURVEY_CONTEXT_REJECTED");
}

#[test]
fn changes_of_the_fix_are_logged() {
    let without = GpsState { online: true, ..GpsState::offline() };
    let with = GpsState { fix: true, ..without };
    assert_eq!(fix_event(GpsState::offline(), with).unwrap().event_id, "GPS_FIX_ACQUIRED");
    assert_eq!(fix_event(without, with).unwrap().event_id, "GPS_FIX_ACQUIRED");
    assert_eq!(fix_event(with, without).unwrap().event_id, "GPS_FIX_LOST");
    assert!(fix_event(with, with).is_none());
    assert!(fix_event(without, without).is_none());
}

#[test]
fn readings_of_the_time_are_logged() {
    let reading = Reading { mono_ms: 5_000, utc_ms: 1_700_000_005_000 };
    let last = Reading { mono_ms: 1_000, utc_ms: 1_700_000_000_000 };
    let (event, line) = utc_log(UtcVerdict::Rejected(last), reading, false).unwrap();
    assert_eq!(event.event_id, "GPS_UTC_REJECTED");
    assert_eq!(line.level, PersistentLogLevel::Warn);
    assert_eq!(
        event.detail,
        EventDetail::UtcRejected {
            candidate_utc_ms: 1_700_000_005_000,
            previous_utc_ms: 1_700_000_000_000,
            previous_mono_ms: 1_000,
        }
    );
    let (event, line) = utc_log(UtcVerdict::Synchronized, reading, true).unwrap();
    assert_eq!(event.event_id, "TIME_SYNC");
    assert_eq!(line.event_id, "GPS_UTC_SYNC");
    assert!(utc_log(UtcVerdict::Synchronized, reading, false).is_none());
    assert!(utc_log(UtcVerdict::Accepted, reading, true).is_none());
}

#[test]
fn believed_readings_anchor_the_logs() {
    let mut storage = Storage::new(StorageMode::Global, true);
    let first = Reading { mono_ms: 5_000, utc_ms: 1_710_000_005_000 };
    assert!(apply_utc(&mut storage, UtcVerdict::Pending, first).is_none());
    assert_eq!(storage.utc_anchor, None);

    let (event, _) = apply_utc(&mut storage, UtcVerdict::Synchronized, first).unwrap();
    assert_eq!(event.event_id, "TIME_SYNC");
    let anchor = Some(UtcAnchor { mono_ms: 5_000, unix_ms: 1_710_000_005_000 });
    assert_eq!(storage.utc_anchor, anchor);

    let stray = Reading { mono_ms: 6_000, utc_ms: 1_810_000_000_000 };
    let (event, line) = apply_utc(&mut storage, UtcVerdict::Rejected(first), stray).unwrap();
    assert_eq!(event.event_id, "GPS_UTC_REJECTED");
    assert_eq!(line.originator, "TIME");
    assert_eq!(storage.utc_anchor, anchor);

    let next = Reading { mono_ms: 7_000, utc_ms: 1_710_000_007_000 };
    assert!(apply_utc(&mut storage, UtcVerdict::Accepted, next).is_none());
    assert_eq!(
        storage.utc_anchor,
        Some(UtcAnchor { mono_ms: 7_000, unix_ms: 1_710_000_007_000 })
    );
}
