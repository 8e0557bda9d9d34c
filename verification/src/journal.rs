//! What is logged of what happens on the link, with the position receiver and with the clock.
use vstd::prelude::*;

use crate::clock::{utc_at, Reading, UtcAnchor, UtcVerdict};
use crate::gps::GpsState;
use crate::radio::PacketStatus;
use crate::receiver::{FrameOutcome, LinkLoss, Receiver, SequenceNote};
use crate::records::{DiagDetail, EventDetail};
use crate::storage::{PersistentLogLevel, Storage};

verus! {

/// A line for the diagnostic log.
#[derive(Clone, Copy)]
pub struct Diagnosis {
    pub level: PersistentLogLevel,
    pub originator: &'static str,
    pub event_id: &'static str,
    pub detail: DiagDetail,
}

/// A line for the event log.
#[derive(Clone, Copy)]
pub struct Event {
    pub event_id: &'static str,
    pub detail: EventDetail,
}

/// The number that was believed before a packet with this relation, where one was.
pub open spec fn previous_number(note: SequenceNote, sequence: u32) -> u32 {
    match note {
        SequenceNote::InOrder { previous, .. } => previous,
        SequenceNote::Suspicious { previous, .. } => previous,
        SequenceNote::Reset { previous } => previous,
        SequenceNote::Backward { previous } => previous,
        SequenceNote::Resync { previous, .. } => previous,
        _ => sequence,
    }
}

/// The diagnosis of a candidate that was given up.
pub open spec fn given_up_line(outcome: FrameOutcome) -> Option<Diagnosis> {
    match outcome {
        FrameOutcome::Ignored { telemetry, note, given_up: Some(candidate) } => Some(
            not_confirmed(candidate, telemetry.sequence, note),
        ),
        FrameOutcome::Accepted { telemetry, note, given_up: Some(candidate), .. } => Some(
            not_confirmed(candidate, telemetry.sequence, note),
        ),
        _ => None,
    }
}

pub open spec fn not_confirmed(candidate: u32, sequence: u32, note: SequenceNote) -> Diagnosis {
    Diagnosis {
        level: PersistentLogLevel::Debug,
        originator: "RADIO",
        event_id: "SEQ_CANDIDATE_NOT_CONFIRMED",
        detail: DiagDetail::NotConfirmed {
            candidate,
            next: sequence,
            trusted: previous_number(note, sequence),
        },
    }
}

/// The diagnosis of a frame: why it does not count, or what is special about its number.
pub open spec fn frame_line(
    after: Receiver,
    outcome: FrameOutcome,
    status: PacketStatus,
    len: u8,
) -> Option<Diagnosis> {
    match outcome {
        FrameOutcome::CrcFailed { stored_crc, computed_crc } => Some(
            Diagnosis {
                level: PersistentLogLevel::Debug,
                originator: "RADIO",
                event_id: "APP_CRC_FAILED",
                detail: DiagDetail::CrcFailed {
                    count: after.crc_failures,
                    rssi: status.rssi,
                    snr: status.snr,
                    stored_crc,
                    computed_crc,
                },
            },
        ),
        FrameOutcome::Rejected(error) => Some(
            Diagnosis {
                level: PersistentLogLevel::Debug,
                originator: "RADIO",
                event_id: "NATIVE_PACKET_REJECTED",
                detail: DiagDetail::Rejected {
                    len,
                    error,
                    count: after.invalid_packets,
                    rssi: status.rssi,
                    snr: status.snr,
                },
            },
        ),
        FrameOutcome::Foreign(telemetry) => Some(
            Diagnosis {
                level: PersistentLogLevel::Debug,
                originator: "RADIO",
                event_id: "SURVEY_CONTEXT_REJECTED",
                detail: DiagDetail::Foreign {
                    sender: telemetry.sender_system_id,
                    survey: telemetry.survey_id,
                    sequence: telemetry.sequence,
                    mode: telemetry.sender_mode,
                    count: after.foreign_packets,
                },
            },
        ),
        FrameOutcome::Ignored { telemetry, note, .. } => match note {
            SequenceNote::CandidateDuplicate => Some(
                Diagnosis {
                    level: PersistentLogLevel::Warn,
                    originator: "RADIO",
                    event_id: "SEQ_CANDIDATE_DUPLICATE",
                    detail: DiagDetail::CandidateDuplicate {
                        sequence: telemetry.sequence,
                        rssi: status.rssi,
                        snr: status.snr,
                    },
                },
            ),
            SequenceNote::Backward { previous } => Some(
                Diagnosis {
                    level: PersistentLogLevel::Warn,
                    originator: "RADIO",
                    event_id: "SEQ_BACKWARD",
                    detail: DiagDetail::Backward {
                        previous,
                        current: telemetry.sequence,
                        rssi: status.rssi,
                        snr: status.snr,
                    },
                },
            ),
            _ => None,
        },
        FrameOutcome::Accepted { telemetry, note, .. } => match note {
            SequenceNote::Resync { previous, candidate, missed } => Some(
                Diagnosis {
                    level: PersistentLogLevel::Info,
                    originator: "RADIO",
                    event_id: "SEQ_RESYNC_CONFIRMED",
                    detail: DiagDetail::Resync {
                        previous,
                        candidate,
                        current: telemetry.sequence,
                        missed,
                    },
                },
            ),
            SequenceNote::Suspicious { previous, gap, elapsed_ms, expected_gap, max_gap } => Some(
                Diagnosis {
                    level: PersistentLogLevel::Warn,
                    originator: "RADIO",
                    event_id: "SEQ_SUSPICIOUS",
                    detail: DiagDetail::Suspicious {
                        previous,
                        current: telemetry.sequence,
                        gap,
                        elapsed_ms,
                        expected_gap,
                        max_gap,
                        sender: telemetry.sender_system_id,
                        survey: telemetry.survey_id,
                        mode: telemetry.sender_mode,
                        rssi: status.rssi,
                        snr: status.snr,
                    },
                },
            ),
            SequenceNote::Reset { previous } => Some(
                Diagnosis {
                    level: PersistentLogLevel::Info,
                    originator: "RADIO",
                    event_id: "SEQ_RESET",
                    detail: DiagDetail::Reset { previous, current: telemetry.sequence },
                },
            ),
            _ => None,
        },
    }
}

fn previous_of(note: SequenceNote, sequence: u32) -> (previous: u32)
    ensures
        previous == previous_number(note, sequence),
{
    match note {
        SequenceNote::InOrder { previous, .. } => previous,
        SequenceNote::Suspicious { previous, .. } => previous,
        SequenceNote::Reset { previous } => previous,
        SequenceNote::Backward { previous } => previous,
        SequenceNote::Resync { previous, .. } => previous,
        _ => sequence,
    }
}

fn diagnose(level: PersistentLogLevel, event_id: &'static str, detail: DiagDetail) -> (line:
    Diagnosis)
    ensures
        line == (Diagnosis { level, originator: "RADIO", event_id, detail }),
{
    Diagnosis { level, originator: "RADIO", event_id, detail }
}

/// The diagnosis of a candidate that a frame did away with. It goes before that of the frame.
pub fn given_up_diagnosis(outcome: FrameOutcome) -> (line: Option<Diagnosis>)
    ensures
        line == given_up_line(outcome),
{
    let (telemetry, note, given_up) = match outcome {
        FrameOutcome::Ignored { telemetry, note, given_up } => (telemetry, note, given_up),
        FrameOutcome::Accepted { telemetry, note, given_up, .. } => (telemetry, note, given_up),
        _ => return None,
    };
    match given_up {
        Some(candidate) => Some(
            diagnose(
                PersistentLogLevel::Debug,
                "SEQ_CANDIDATE_NOT_CONFIRMED",
                DiagDetail::NotConfirmed {
                    candidate,
                    next: telemetry.sequence,
                    trusted: previous_of(note, telemetry.sequence),
                },
            ),
        ),
        None => None,
    }
}

/// The diagnosis of a frame, with the counters as they are behind it.
pub fn frame_diagnosis(
    after: &Receiver,
    outcome: FrameOutcome,
    status: PacketStatus,
    len: u8,
) -> (line: Option<Diagnosis>)
    ensures
        line == frame_line(*after, outcome, status, len),
{
    let rssi: i16 = status.rssi;
    let snr: i16 = status.snr;
    match outcome {
        FrameOutcome::CrcFailed { stored_crc, computed_crc } => Some(
            diagnose(
                PersistentLogLevel::Debug,
                "APP_CRC_FAILED",
                DiagDetail::CrcFailed {
                    count: after.crc_failures,
                    rssi,
                    snr,
                    stored_crc,
                    computed_crc,
                },
            ),
        ),
        FrameOutcome::Rejected(error) => Some(
            diagnose(
                PersistentLogLevel::Debug,
                "NATIVE_PACKET_REJECTED",
                DiagDetail::Rejected { len, error, count: after.invalid_packets, rssi, snr },
            ),
        ),
        FrameOutcome::Foreign(telemetry) => Some(
            diagnose(
                PersistentLogLevel::Debug,
                "SURVEY_CONTEXT_REJECTED",
                DiagDetail::Foreign {
                    sender: telemetry.sender_system_id,
                    survey: telemetry.survey_id,
                    sequence: telemetry.sequence,
                    mode: telemetry.sender_mode,
                    count: after.foreign_packets,
                },
            ),
        ),
        FrameOutcome::Ignored { telemetry, note, .. } => match note {
            SequenceNote::CandidateDuplicate => Some(
                diagnose(
                    PersistentLogLevel::Warn,
                    "SEQ_CANDIDATE_DUPLICATE",
                    DiagDetail::CandidateDuplicate { sequence: telemetry.sequence, rssi, snr },
                ),
            ),
            SequenceNote::Backward { previous } => Some(
                diagnose(
                    PersistentLogLevel::Warn,
                    "SEQ_BACKWARD",
                    DiagDetail::Backward { previous, current: telemetry.sequence, rssi, snr },
                ),
            ),
            _ => None,
        },
        FrameOutcome::Accepted { telemetry, note, .. } => match note {
            SequenceNote::Resync { previous, candidate, missed } => Some(
                diagnose(
                    PersistentLogLevel::Info,
                    "SEQ_RESYNC_CONFIRMED",
                    DiagDetail::Resync {
                        previous,
                        candidate,
                        current: telemetry.sequence,
                        missed,
                    },
                ),
            ),
            SequenceNote::Suspicious { previous, gap, elapsed_ms, expected_gap, max_gap } => Some(
                diagnose(
                    PersistentLogLevel::Warn,
                    "SEQ_SUSPICIOUS",
                    DiagDetail::Suspicious {
                        previous,
                        current: telemetry.sequence,
                        gap,
                        elapsed_ms,
                        expected_gap,
                        max_gap,
                        sender: telemetry.sender_system_id,
                        survey: telemetry.survey_id,
                        mode: telemetry.sender_mode,
                        rssi,
                        snr,
                    },
                ),
            ),
            SequenceNote::Reset { previous } => Some(
                diagnose(
                    PersistentLogLevel::Info,
                    "SEQ_RESET",
                    DiagDetail::Reset { previous, current: telemetry.sequence },
                ),
            ),
            _ => None,
        },
    }
}

/// The event of a frame: a wrong checksum, or the return of the link.
pub open spec fn frame_event_of(
    after: Receiver,
    outcome: FrameOutcome,
    status: PacketStatus,
) -> Option<Event> {
    match outcome {
        FrameOutcome::CrcFailed { stored_crc, computed_crc } => Some(
            Event {
                event_id: "APP_CRC_FAILED",
                detail: EventDetail::CrcFailed {
                    count: after.crc_failures,
                    rssi: status.rssi,
                    snr: status.snr,
                    stored_crc,
                    computed_crc,
                },
            },
        ),
        FrameOutcome::Accepted { telemetry, outage: Some(outage), .. } => Some(
            Event {
                event_id: "LINK_REACQUIRED",
                detail: EventDetail::LinkReacquired {
                    sequence: telemetry.sequence,
                    outage_ms: outage.outage_ms,
                    previous_rx_mono_ms: outage.previous_rx_mono_ms,
                },
            },
        ),
        _ => None,
    }
}

pub fn frame_event(after: &Receiver, outcome: FrameOutcome, status: PacketStatus) -> (event: Option<
    Event,
>)
    ensures
        event == frame_event_of(*after, outcome, status),
{
    match outcome {
        FrameOutcome::CrcFailed { stored_crc, computed_crc } => Some(
            Event {
                event_id: "APP_CRC_FAILED",
                detail: EventDetail::CrcFailed {
                    count: after.crc_failures,
                    rssi: status.rssi,
                    snr: status.snr,
                    stored_crc,
                    computed_crc,
                },
            },
        ),
        FrameOutcome::Accepted { telemetry, outage: Some(outage), .. } => Some(
            Event {
                event_id: "LINK_REACQUIRED",
                detail: EventDetail::LinkReacquired {
                    sequence: telemetry.sequence,
                    outage_ms: outage.outage_ms,
                    previous_rx_mono_ms: outage.previous_rx_mono_ms,
                },
            },
        ),
        _ => None,
    }
}

/// The event of a link that was found lost.
pub open spec fn loss_event_of(loss: LinkLoss) -> Event {
    Event {
        event_id: "LINK_LOST",
        detail: EventDetail::LinkLost {
            last_sequence: loss.last_sequence,
            last_rx_mono_ms: loss.last_rx_mono_ms,
            age_ms: loss.age_ms,
        },
    }
}

/// The event of a link that was found lost.
pub fn loss_event(loss: LinkLoss) -> (event: Event)
    ensures
        event == loss_event_of(loss),
{
    Event {
        event_id: "LINK_LOST",
        detail: EventDetail::LinkLost {
            last_sequence: loss.last_sequence,
            last_rx_mono_ms: loss.last_rx_mono_ms,
            age_ms: loss.age_ms,
        },
    }
}

/// What is logged of a reading of calendar time: that it was refused, or that time is known now.
/// The latter only where storage had not known it before.
pub open spec fn utc_lines(verdict: UtcVerdict, reading: Reading, first_sync: bool) -> Option<
    (Event, Diagnosis),
> {
    match verdict {
        UtcVerdict::Rejected(accepted) => Some(
            (
                Event {
                    event_id: "GPS_UTC_REJECTED",
                    detail: EventDetail::UtcRejected {
                        candidate_utc_ms: reading.utc_ms,
                        previous_utc_ms: accepted.utc_ms,
                        previous_mono_ms: accepted.mono_ms,
                    },
                },
                Diagnosis {
                    level: PersistentLogLevel::Warn,
                    originator: "TIME",
                    event_id: "GPS_UTC_REJECTED",
                    detail: DiagDetail::UtcRejected {
                        candidate_utc_ms: reading.utc_ms,
                        previous_utc_ms: accepted.utc_ms,
                        previous_mono_ms: accepted.mono_ms,
                    },
                },
            ),
        ),
        UtcVerdict::Synchronized => if first_sync {
            Some(
                (
                    Event {
                        event_id: "TIME_SYNC",
                        detail: EventDetail::TimeSync {
                            utc_ms: reading.utc_ms,
                            mono_ms: reading.mono_ms,
                        },
                    },
                    Diagnosis {
                        level: PersistentLogLevel::Info,
                        originator: "TIME",
                        event_id: "GPS_UTC_SYNC",
                        detail: DiagDetail::UtcSync {
                            utc_ms: reading.utc_ms,
                            mono_ms: reading.mono_ms,
                        },
                    },
                ),
            )
        } else {
            None
        },
        _ => None,
    }
}

pub fn utc_log(verdict: UtcVerdict, reading: Reading, first_sync: bool) -> (lines: Option<
    (Event, Diagnosis),
>)
    ensures
        lines == utc_lines(verdict, reading, first_sync),
{
    match verdict {
        UtcVerdict::Rejected(accepted) => {
            let event = Event {
                event_id: "GPS_UTC_REJECTED",
                detail: EventDetail::UtcRejected {
                    candidate_utc_ms: reading.utc_ms,
                    previous_utc_ms: accepted.utc_ms,
                    previous_mono_ms: accepted.mono_ms,
                },
            };
            let diagnosis = Diagnosis {
                level: PersistentLogLevel::Warn,
                originator: "TIME",
                event_id: "GPS_UTC_REJECTED",
                detail: DiagDetail::UtcRejected {
                    candidate_utc_ms: reading.utc_ms,
                    previous_utc_ms: accepted.utc_ms,
                    previous_mono_ms: accepted.mono_ms,
                },
            };
            Some((event, diagnosis))
        },
        UtcVerdict::Synchronized => {
            if !first_sync {
                return None;
            }
            let event = Event {
                event_id: "TIME_SYNC",
                detail: EventDetail::TimeSync { utc_ms: reading.utc_ms, mono_ms: reading.mono_ms },
            };
            let diagnosis = Diagnosis {
                level: PersistentLogLevel::Info,
                originator: "TIME",
                event_id: "GPS_UTC_SYNC",
                detail: DiagDetail::UtcSync { utc_ms: reading.utc_ms, mono_ms: reading.mono_ms },
            };
            Some((event, diagnosis))
        },
        _ => None,
    }
}

/// Where the clocks meet after a verdict on a reading.
pub open spec fn anchor_after(
    anchor: Option<UtcAnchor>,
    verdict: UtcVerdict,
    reading: Reading,
) -> Option<UtcAnchor> {
    if verdict is Accepted || verdict is Synchronized {
        Some(UtcAnchor { mono_ms: reading.mono_ms, unix_ms: reading.utc_ms })
    } else {
        anchor
    }
}

/// Takes a verdict on a reading of calendar time into storage: a believed reading becomes the place
/// where the clocks meet. Gives what is logged of it.
pub fn apply_utc(storage: &mut Storage, verdict: UtcVerdict, reading: Reading) -> (lines: Option<
    (Event, Diagnosis),
>)
    ensures
        lines == utc_lines(verdict, reading, old(storage).utc_anchor is None),
        final(storage).utc_anchor == anchor_after(old(storage).utc_anchor, verdict, reading),
        final(storage).mode == old(storage).mode,
        final(storage).debug_online == old(storage).debug_online,
        final(storage).debug_buffer@ == old(storage).debug_buffer@,
        final(storage).local_records_written == old(storage).local_records_written,
{
    let believed: bool = match verdict {
        UtcVerdict::Accepted => true,
        UtcVerdict::Synchronized => true,
        _ => false,
    };
    let first_sync: bool = if believed {
        storage.update_time_anchor(reading.mono_ms, reading.utc_ms)
    } else {
        storage.utc_anchor.is_none()
    };
    utc_log(verdict, reading, first_sync)
}

/// The event of a fix that came or went between two states of the position receiver.
pub open spec fn fix_event_of(previous: GpsState, current: GpsState) -> Option<Event> {
    if current.fix && (!previous.online || !previous.fix) {
        Some(Event { event_id: "GPS_FIX_ACQUIRED", detail: EventDetail::Nothing })
    } else if !current.fix && previous.online && previous.fix {
        Some(Event { event_id: "GPS_FIX_LOST", detail: EventDetail::Nothing })
    } else {
        None
    }
}

pub fn fix_event(previous: GpsState, current: GpsState) -> (event: Option<Event>)
    ensures
        event == fix_event_of(previous, current),
{
    if current.fix && (!previous.online || !previous.fix) {
        Some(Event { event_id: "GPS_FIX_ACQUIRED", detail: EventDetail::Nothing })
    } else if !current.fix && previous.online && previous.fix {
        Some(Event { event_id: "GPS_FIX_LOST", detail: EventDetail::Nothing })
    } else {
        None
    }
}

/// From one state that is in order to the next, an event is logged exactly when the fix came or
/// went.
pub proof fn law_fix_changes_are_logged(previous: GpsState, current: GpsState)
    requires
        previous.fix ==> previous.online,
    ensures
        fix_event_of(previous, current) is Some <==> previous.fix != current.fix,
{
}

/// A reading that is believed is what calendar time goes by from then on: its own moment has its
/// own time, and later moments as much later ones. Any other reading changes nothing.
pub proof fn law_believed_readings_set_the_time(
    anchor: Option<UtcAnchor>,
    verdict: UtcVerdict,
    reading: Reading,
    later_ms: u64,
)
    requires
        reading.utc_ms + later_ms <= 18_446_744_073_709_551_615,
        reading.mono_ms + later_ms <= 18_446_744_073_709_551_615,
    ensures
        verdict is Accepted || verdict is Synchronized ==> utc_at(
            anchor_after(anchor, verdict, reading),
            (reading.mono_ms + later_ms) as u64,
        ) == Some((reading.utc_ms + later_ms) as u64),
        !(verdict is Accepted || verdict is Synchronized) ==> anchor_after(anchor, verdict, reading)
            == anchor,
{
}

} // verus!
