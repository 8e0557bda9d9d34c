//! What the device makes of the frames that it hears.
//!
//! Moments are microseconds of the device's own clock.
use vstd::prelude::*;

use crate::crc::crc32;
use crate::le::le_value;
use crate::packet::{
    crc32_details, law_rules_of_a_packet, law_which_frames_are_accepted, telemetry_of, DecodeError,
    TelemetryV1,
};
use crate::radio::PacketStatus;

verus! {

/// How many packets the sender sends in a second.
pub const BEACON_SEQUENCE_RATE_HZ: u64 = 1;

/// After this long without a packet the link counts as lost.
pub const LINK_LOSS_TIMEOUT_SECS: u64 = 5;

/// How many numbers a packet may be ahead of what the time that passed explains.
pub const SEQUENCE_GAP_TOLERANCE: u64 = 5;

/// A packet that falls back to one of the first numbers means that the sender started anew.
pub const REBOOT_SEQUENCE_WINDOW: u32 = 10;

/// The sender that the device listens to.
pub const EXPECTED_SENDER_SYSTEM_ID: u64 = 0x4D52_5500_0000_0001;

/// The survey that the device takes part in.
pub const EXPECTED_SURVEY_ID: u32 = crate::storage::TEST_SURVEY_ID;

/// Where the device stands in the sender's numbering.
///
/// A number that is far ahead is not believed at once: it becomes a candidate, and only when its
/// successor comes next does the device move to it. A number that is believed is the baseline for
/// the next one.
#[derive(Clone, Copy, Debug, PartialEq, Eq, Structural)]
pub struct SequenceTracker {
    /// The last number that was believed, and when it came.
    pub trusted: Option<u32>,
    pub trusted_us: Option<u64>,
    /// The number that waits to be confirmed.
    pub candidate: Option<u32>,
}

/// How the number of a packet relates to those before.
#[derive(Clone, Copy, Debug, PartialEq, Eq, Structural)]
pub enum SequenceNote {
    /// There was none before.
    First,
    /// It goes on from the last one; so many are missing between them.
    InOrder { previous: u32, missed: u32 },
    /// It confirms the candidate.
    Resync { previous: u32, candidate: u32, missed: u32 },
    /// It is too far ahead and becomes the candidate.
    Suspicious { previous: u32, gap: u32, elapsed_ms: u64, expected_gap: u64, max_gap: u64 },
    /// The sender started anew.
    Reset { previous: u32 },
    /// It is the candidate once more.
    CandidateDuplicate,
    /// It is the last one once more.
    Duplicate,
    /// It is one of those before.
    Backward { previous: u32 },
}

/// Whether a packet with this relation counts.
pub open spec fn counts(note: SequenceNote) -> bool {
    !(note is CandidateDuplicate || note is Duplicate || note is Backward)
}

/// Whether a packet with this relation is believed at once.
pub open spec fn believed(note: SequenceNote) -> bool {
    note is First || note is InOrder || note is Resync || note is Reset
}

/// The milliseconds since the last number that was believed.
pub open spec fn elapsed_ms(tracker: SequenceTracker, now_us: u64) -> int {
    match tracker.trusted_us {
        Some(then_us) => (now_us - then_us) / 1_000,
        None => 0,
    }
}

/// How far ahead a number may be after some milliseconds.
pub open spec fn max_gap(elapsed: int) -> int {
    elapsed / 1_000 + SEQUENCE_GAP_TOLERANCE
}

/// Whether a number is the successor of the candidate, which is ahead of the last one.
pub open spec fn confirms(tracker: SequenceTracker, sequence: u32) -> bool {
    tracker.trusted matches Some(last) && tracker.candidate matches Some(candidate) && candidate + 1
        == sequence && candidate > last
}

/// How a number relates to those before.
pub open spec fn sequence_note(
    tracker: SequenceTracker,
    sequence: u32,
    now_us: u64,
) -> SequenceNote {
    match tracker.trusted {
        None => SequenceNote::First,
        Some(last) => {
            let elapsed = elapsed_ms(tracker, now_us);
            if tracker.candidate == Some(sequence) {
                SequenceNote::CandidateDuplicate
            } else if confirms(tracker, sequence) {
                SequenceNote::Resync {
                    previous: last,
                    candidate: tracker.candidate->0,
                    missed: (tracker.candidate->0 - last - 1) as u32,
                }
            } else if sequence == last {
                SequenceNote::Duplicate
            } else if sequence > last {
                if sequence - last > max_gap(elapsed) {
                    SequenceNote::Suspicious {
                        previous: last,
                        gap: (sequence - last) as u32,
                        elapsed_ms: elapsed as u64,
                        expected_gap: (elapsed / 1_000) as u64,
                        max_gap: max_gap(elapsed) as u64,
                    }
                } else {
                    SequenceNote::InOrder { previous: last, missed: (sequence - last - 1) as u32 }
                }
            } else if sequence <= REBOOT_SEQUENCE_WINDOW {
                SequenceNote::Reset { previous: last }
            } else {
                SequenceNote::Backward { previous: last }
            }
        },
    }
}

/// The candidate that a number does away with without confirming it.
pub open spec fn given_up(tracker: SequenceTracker, sequence: u32) -> Option<u32> {
    if tracker.trusted is Some && tracker.candidate != Some(sequence) && !confirms(
        tracker,
        sequence,
    ) {
        tracker.candidate
    } else {
        None
    }
}

/// What a number leaves behind.
pub open spec fn tracker_after(
    tracker: SequenceTracker,
    sequence: u32,
    now_us: u64,
) -> SequenceTracker {
    let note = sequence_note(tracker, sequence, now_us);
    if believed(note) {
        SequenceTracker { trusted: Some(sequence), trusted_us: Some(now_us), candidate: None }
    } else if note is Suspicious {
        SequenceTracker { candidate: Some(sequence), ..tracker }
    } else if note is CandidateDuplicate {
        tracker
    } else {
        SequenceTracker { candidate: None, ..tracker }
    }
}

impl SequenceTracker {
    /// A moment is known exactly of a number that is believed, and a candidate lies ahead of that
    /// number.
    pub open spec fn wf(self) -> bool {
        &&& self.trusted is Some <==> self.trusted_us is Some
        &&& self.candidate matches Some(candidate) ==> self.trusted matches Some(last) && candidate
            > last
    }

    /// No packet is known of from a moment that is still to come.
    pub open spec fn before(self, now_us: u64) -> bool {
        self.trusted_us matches Some(then_us) ==> then_us <= now_us
    }

    pub fn new() -> (tracker: Self)
        ensures
            tracker.wf(),
            tracker == (SequenceTracker { trusted: None, trusted_us: None, candidate: None }),
    {
        SequenceTracker { trusted: None, trusted_us: None, candidate: None }
    }

    /// Takes the number of a packet that came now. Gives how it relates to those before, and the
    /// candidate that it did away with.
    pub fn observe(&mut self, sequence: u32, now_us: u64) -> (result: (
        SequenceNote,
        Option<u32>,
    ))
        requires
            old(self).wf(),
            old(self).before(now_us),
        ensures
            final(self).wf(),
            final(self).before(now_us),
            result.0 == sequence_note(*old(self), sequence, now_us),
            result.1 == given_up(*old(self), sequence),
            *final(self) == tracker_after(*old(self), sequence, now_us),
    {
        let last: u32 = match self.trusted {
            Some(last) => last,
            None => {
                self.trusted = Some(sequence);
                self.trusted_us = Some(now_us);
                self.candidate = None;
                return (SequenceNote::First, None);
            },
        };
        let mut unconfirmed: Option<u32> = None;
        match self.candidate {
            Some(candidate) => {
                if candidate == sequence {
                    return (SequenceNote::CandidateDuplicate, None);
                }
                self.candidate = None;
                if candidate < sequence && sequence - candidate == 1 && candidate > last {
                    self.trusted = Some(sequence);
                    self.trusted_us = Some(now_us);
                    return (
                        SequenceNote::Resync {
                            previous: last,
                            candidate,
                            missed: candidate - last - 1,
                        },
                        None,
                    );
                }
                unconfirmed = Some(candidate);
            },
            None => {},
        }
        let note = if sequence == last {
            SequenceNote::Duplicate
        } else if sequence > last {
            let gap: u32 = sequence - last;
            let elapsed_ms: u64 = match self.trusted_us {
                Some(then_us) => (now_us - then_us) / 1_000,
                None => 0,
            };
            let expected_gap: u64 = elapsed_ms * BEACON_SEQUENCE_RATE_HZ / 1_000;
            let max_gap: u64 = expected_gap + SEQUENCE_GAP_TOLERANCE;
            if gap as u64 > max_gap {
                self.candidate = Some(sequence);
                return (
                    SequenceNote::Suspicious {
                        previous: last,
                        gap,
                        elapsed_ms,
                        expected_gap,
                        max_gap,
                    },
                    unconfirmed,
                );
            }
            SequenceNote::InOrder { previous: last, missed: gap - 1 }
        } else if sequence <= REBOOT_SEQUENCE_WINDOW {
            SequenceNote::Reset { previous: last }
        } else {
            return (SequenceNote::Backward { previous: last }, unconfirmed);
        };
        if sequence != last {
            self.trusted = Some(sequence);
            self.trusted_us = Some(now_us);
        }
        (note, unconfirmed)
    }
}

/// A number that is too far ahead does not move the baseline, and the packet still counts.
pub proof fn law_suspicious_number_moves_nothing(
    tracker: SequenceTracker,
    sequence: u32,
    now_us: u64,
)
    requires
        sequence_note(tracker, sequence, now_us) is Suspicious,
    ensures
        tracker_after(tracker, sequence, now_us).trusted == tracker.trusted,
        tracker_after(tracker, sequence, now_us).trusted_us == tracker.trusted_us,
        counts(sequence_note(tracker, sequence, now_us)),
{
}

/// However far the sender has gone on meanwhile, two packets in a row bring the device to it.
pub proof fn law_two_packets_resynchronize(
    tracker: SequenceTracker,
    sequence: u32,
    first_us: u64,
    second_us: u64,
)
    requires
        tracker.wf(),
        tracker.before(first_us),
        first_us <= second_us,
        sequence < u32::MAX,
        tracker.trusted matches Some(last) ==> sequence >= last || sequence
            <= REBOOT_SEQUENCE_WINDOW,
    ensures
        ({
            let first = tracker_after(tracker, sequence, first_us);
            let second = tracker_after(first, (sequence + 1) as u32, second_us);
            &&& believed(sequence_note(first, (sequence + 1) as u32, second_us))
            &&& second.trusted == Some((sequence + 1) as u32)
            &&& second.candidate is None
        }),
{
}

/// One stray number far ahead is forgotten as soon as the numbering goes on where it was.
pub proof fn law_stray_number_is_forgotten(
    tracker: SequenceTracker,
    stray: u32,
    first_us: u64,
    second_us: u64,
)
    requires
        tracker.wf(),
        tracker.before(first_us),
        first_us <= second_us,
        sequence_note(tracker, stray, first_us) is Suspicious,
    ensures
        ({
            let last = tracker.trusted->0;
            let first = tracker_after(tracker, stray, first_us);
            let next = (last + 1) as u32;
            &&& sequence_note(first, next, second_us) == (SequenceNote::InOrder {
                previous: last,
                missed: 0,
            })
            &&& tracker_after(first, next, second_us) == (SequenceTracker {
                trusted: Some(next),
                trusted_us: Some(second_us),
                candidate: None,
            })
        }),
{
}

/// A candidate does not become the baseline by coming twice: its repetition does not count and
/// changes nothing.
pub proof fn law_repeated_candidate_changes_nothing(
    tracker: SequenceTracker,
    sequence: u32,
    now_us: u64,
)
    requires
        tracker.wf(),
        tracker.candidate == Some(sequence),
    ensures
        !counts(sequence_note(tracker, sequence, now_us)),
        tracker_after(tracker, sequence, now_us) == tracker,
{
}

/// How many numbers are missing before a packet.
pub open spec fn missed_by(note: SequenceNote) -> int {
    match note {
        SequenceNote::InOrder { missed, .. } => missed as int,
        SequenceNote::Resync { missed, .. } => missed as int,
        _ => 0,
    }
}

/// The numbers that are counted as missing before a packet that goes on or confirms a candidate
/// are those between it and the last one, less the candidate, which had been counted.
pub proof fn law_missing_numbers_are_counted(tracker: SequenceTracker, sequence: u32, now_us: u64)
    requires
        tracker.wf(),
        tracker.before(now_us),
    ensures
        match sequence_note(tracker, sequence, now_us) {
            SequenceNote::InOrder { previous, missed } => missed == sequence - previous - 1,
            SequenceNote::Resync { previous, missed, .. } => missed == sequence - previous - 2,
            _ => true,
        },
{
}

/// A lost link that came back.
#[derive(Clone, Copy, Debug, PartialEq, Eq, Structural)]
pub struct Outage {
    pub outage_ms: u64,
    pub previous_rx_mono_ms: u64,
}

/// What came of a frame.
#[derive(Clone, Copy, Debug, PartialEq, Eq, Structural)]
pub enum FrameOutcome {
    /// Its checksum is wrong.
    CrcFailed { stored_crc: u32, computed_crc: u32 },
    /// It is no telemetry packet.
    Rejected(DecodeError),
    /// It comes from another sender or belongs to another survey.
    Foreign(TelemetryV1),
    /// Its number was there before.
    Ignored { telemetry: TelemetryV1, note: SequenceNote, given_up: Option<u32> },
    /// It counts. Where the link had been lost, it is back.
    Accepted {
        telemetry: TelemetryV1,
        note: SequenceNote,
        given_up: Option<u32>,
        outage: Option<Outage>,
    },
}

/// A link that was found lost.
#[derive(Clone, Copy, Debug, PartialEq, Eq, Structural)]
pub struct LinkLoss {
    pub last_sequence: u32,
    pub last_rx_mono_ms: u64,
    pub age_ms: u64,
}

/// Everything that the device knows of the link.
#[derive(Clone, Copy, Debug, PartialEq, Eq, Structural)]
pub struct Receiver {
    pub tracker: SequenceTracker,
    /// The number of the last packet that counted, believed or not.
    pub last_accepted: Option<u32>,
    /// When the last packet that counted came.
    pub last_valid_us: Option<u64>,
    pub received: u32,
    pub missed: u32,
    pub crc_failures: u32,
    pub invalid_packets: u32,
    pub foreign_packets: u32,
    pub last_rssi: Option<i16>,
    pub last_snr: Option<i16>,
    /// Whether the loss of the link has been reported.
    pub link_lost: bool,
}

/// What is known before the first frame.
pub open spec fn fresh_receiver() -> Receiver {
    Receiver {
        tracker: SequenceTracker { trusted: None, trusted_us: None, candidate: None },
        last_accepted: None,
        last_valid_us: None,
        received: 0,
        missed: 0,
        crc_failures: 0,
        invalid_packets: 0,
        foreign_packets: 0,
        last_rssi: None,
        last_snr: None,
        link_lost: false,
    }
}

/// A counter that stops at its last value.
pub open spec fn plus(counter: u32, more: int) -> u32 {
    if counter + more <= u32::MAX {
        (counter + more) as u32
    } else {
        u32::MAX
    }
}

/// Whether a packet comes from the sender and the survey that the device listens to.
pub open spec fn expected(telemetry: TelemetryV1) -> bool {
    telemetry.sender_system_id == EXPECTED_SENDER_SYSTEM_ID && telemetry.survey_id
        == EXPECTED_SURVEY_ID
}

/// What comes of a frame.
pub open spec fn frame_outcome(receiver: Receiver, frame: Seq<u8>, now_us: u64) -> FrameOutcome {
    match telemetry_of(frame) {
        Err(DecodeError::CrcMismatch) => FrameOutcome::CrcFailed {
            stored_crc: le_value(frame.subrange(44, 48)) as u32,
            computed_crc: crc32(frame.take(44)),
        },
        Err(error) => FrameOutcome::Rejected(error),
        Ok(telemetry) => {
            let note = sequence_note(receiver.tracker, telemetry.sequence, now_us);
            let given_up = given_up(receiver.tracker, telemetry.sequence);
            if !expected(telemetry) {
                FrameOutcome::Foreign(telemetry)
            } else if !counts(note) {
                FrameOutcome::Ignored { telemetry, note, given_up }
            } else {
                FrameOutcome::Accepted {
                    telemetry,
                    note,
                    given_up,
                    outage: ended_outage(receiver, now_us),
                }
            }
        },
    }
}

/// The outage that a packet which counts puts an end to.
pub open spec fn ended_outage(receiver: Receiver, now_us: u64) -> Option<Outage> {
    if receiver.link_lost {
        match receiver.last_valid_us {
            Some(last_us) => Some(
                Outage {
                    outage_ms: ((now_us - last_us) / 1_000) as u64,
                    previous_rx_mono_ms: last_us / 1_000,
                },
            ),
            None => Some(Outage { outage_ms: 0, previous_rx_mono_ms: 0 }),
        }
    } else {
        None
    }
}

/// What a frame leaves behind.
pub open spec fn receiver_after(
    receiver: Receiver,
    frame: Seq<u8>,
    status: PacketStatus,
    now_us: u64,
) -> Receiver {
    match frame_outcome(receiver, frame, now_us) {
        FrameOutcome::CrcFailed { .. } => Receiver {
            crc_failures: plus(receiver.crc_failures, 1),
            ..receiver
        },
        FrameOutcome::Rejected(_) => Receiver {
            invalid_packets: plus(receiver.invalid_packets, 1),
            ..receiver
        },
        FrameOutcome::Foreign(_) => Receiver {
            foreign_packets: plus(receiver.foreign_packets, 1),
            ..receiver
        },
        FrameOutcome::Ignored { telemetry, .. } => Receiver {
            tracker: tracker_after(receiver.tracker, telemetry.sequence, now_us),
            ..receiver
        },
        FrameOutcome::Accepted { telemetry, note, .. } => Receiver {
            tracker: tracker_after(receiver.tracker, telemetry.sequence, now_us),
            last_accepted: Some(telemetry.sequence),
            last_valid_us: Some(now_us),
            received: plus(receiver.received, 1),
            missed: plus(receiver.missed, missed_by(note)),
            last_rssi: Some(status.rssi),
            last_snr: Some(status.snr),
            link_lost: false,
            ..receiver
        },
    }
}

/// The loss of the link that a look at it finds: no packet that counts for the whole timeout, and
/// not reported yet. Before the first such packet there is no link to lose.
pub open spec fn link_loss(receiver: Receiver, now_us: u64) -> Option<LinkLoss> {
    match receiver.last_valid_us {
        Some(last_us) => {
            let age_ms = (now_us - last_us) / 1_000;
            if age_ms / 1_000 < LINK_LOSS_TIMEOUT_SECS || receiver.link_lost {
                None
            } else {
                Some(
                    LinkLoss {
                        last_sequence: match receiver.last_accepted {
                            Some(sequence) => sequence,
                            None => 0,
                        },
                        last_rx_mono_ms: last_us / 1_000,
                        age_ms: age_ms as u64,
                    },
                )
            }
        },
        None => None,
    }
}

/// What a look at the link leaves behind.
pub open spec fn receiver_after_look(receiver: Receiver, now_us: u64) -> Receiver {
    Receiver {
        link_lost: receiver.link_lost || link_loss(receiver, now_us) is Some,
        ..receiver
    }
}

/// Whether the link is up: a packet that counts came less than the timeout ago.
pub open spec fn link_is_up(receiver: Receiver, now_us: u64) -> bool {
    receiver.last_valid_us matches Some(last_us) && (now_us - last_us) / 1_000_000
        < LINK_LOSS_TIMEOUT_SECS
}

impl Receiver {
    /// The tracker is in order, and the loss of the link is reported only of a link that was.
    pub open spec fn wf(self) -> bool {
        &&& self.tracker.wf()
        &&& self.link_lost ==> self.last_valid_us is Some
        &&& self.last_accepted is Some <==> self.last_valid_us is Some
    }

    /// Nothing is known of a moment that is still to come.
    pub open spec fn before(self, now_us: u64) -> bool {
        &&& self.tracker.before(now_us)
        &&& self.last_valid_us matches Some(last_us) ==> last_us <= now_us
    }

    pub fn new() -> (receiver: Self)
        ensures
            receiver.wf(),
            forall|now_us: u64| receiver.before(now_us),
            receiver == fresh_receiver(),
    {
        Receiver {
            tracker: SequenceTracker::new(),
            last_accepted: None,
            last_valid_us: None,
            received: 0,
            missed: 0,
            crc_failures: 0,
            invalid_packets: 0,
            foreign_packets: 0,
            last_rssi: None,
            last_snr: None,
            link_lost: false,
        }
    }

    /// Takes a frame that came now.
    pub fn on_frame(&mut self, frame: &[u8], status: PacketStatus, now_us: u64) -> (outcome:
        FrameOutcome)
        requires
            old(self).wf(),
            old(self).before(now_us),
        ensures
            final(self).wf(),
            final(self).before(now_us),
            outcome == frame_outcome(*old(self), frame@, now_us),
            *final(self) == receiver_after(*old(self), frame@, status, now_us),
    {
        let telemetry = match TelemetryV1::decode(frame) {
            Ok(telemetry) => telemetry,
            Err(DecodeError::CrcMismatch) => {
                self.crc_failures = self.crc_failures.saturating_add(1);
                return match crc32_details(frame) {
                    Some((stored_crc, computed_crc)) => FrameOutcome::CrcFailed {
                        stored_crc,
                        computed_crc,
                    },
                    None => FrameOutcome::CrcFailed { stored_crc: 0, computed_crc: 0 },
                };
            },
            Err(error) => {
                self.invalid_packets = self.invalid_packets.saturating_add(1);
                return FrameOutcome::Rejected(error);
            },
        };
        if telemetry.sender_system_id != EXPECTED_SENDER_SYSTEM_ID || telemetry.survey_id
            != EXPECTED_SURVEY_ID {
            self.foreign_packets = self.foreign_packets.saturating_add(1);
            return FrameOutcome::Foreign(telemetry);
        }
        let (note, given_up) = self.tracker.observe(telemetry.sequence, now_us);
        match note {
            SequenceNote::CandidateDuplicate => {
                return FrameOutcome::Ignored { telemetry, note, given_up };
            },
            SequenceNote::Duplicate => {
                return FrameOutcome::Ignored { telemetry, note, given_up };
            },
            SequenceNote::Backward { .. } => {
                return FrameOutcome::Ignored { telemetry, note, given_up };
            },
            SequenceNote::InOrder { missed, .. } => {
                self.missed = self.missed.saturating_add(missed);
            },
            SequenceNote::Resync { missed, .. } => {
                self.missed = self.missed.saturating_add(missed);
            },
            _ => {},
        }
        let outage: Option<Outage> = if self.link_lost {
            match self.last_valid_us {
                Some(last_us) => Some(
                    Outage {
                        outage_ms: (now_us - last_us) / 1_000,
                        previous_rx_mono_ms: last_us / 1_000,
                    },
                ),
                None => Some(Outage { outage_ms: 0, previous_rx_mono_ms: 0 }),
            }
        } else {
            None
        };
        self.received = self.received.saturating_add(1);
        self.last_accepted = Some(telemetry.sequence);
        self.last_valid_us = Some(now_us);
        self.last_rssi = Some(status.rssi);
        self.last_snr = Some(status.snr);
        self.link_lost = false;
        FrameOutcome::Accepted { telemetry, note, given_up, outage }
    }

    /// Looks at the link while no frame came, and reports its loss once.
    pub fn on_quiet(&mut self, now_us: u64) -> (loss: Option<LinkLoss>)
        requires
            old(self).wf(),
            old(self).before(now_us),
        ensures
            final(self).wf(),
            final(self).before(now_us),
            loss == link_loss(*old(self), now_us),
            *final(self) == receiver_after_look(*old(self), now_us),
    {
        let last_us: u64 = match self.last_valid_us {
            Some(last_us) => last_us,
            None => return None,
        };
        let age_ms: u64 = (now_us - last_us) / 1_000;
        if age_ms / 1_000 < LINK_LOSS_TIMEOUT_SECS || self.link_lost {
            return None;
        }
        let last_sequence: u32 = match self.last_accepted {
            Some(sequence) => sequence,
            None => 0,
        };
        self.link_lost = true;
        Some(LinkLoss { last_sequence, last_rx_mono_ms: last_us / 1_000, age_ms })
    }

    pub fn link_up(&self, now_us: u64) -> (up: bool)
        requires
            self.before(now_us),
        ensures
            up == link_is_up(*self, now_us),
    {
        match self.last_valid_us {
            Some(last_us) => (now_us - last_us) / 1_000_000 < LINK_LOSS_TIMEOUT_SECS,
            None => false,
        }
    }
}

/// A frame that is broken, unknown or foreign changes nothing but its own counter: not the count
/// of packets, not the numbering, not the age of the link.
pub proof fn law_bad_frames_change_only_their_counter(
    receiver: Receiver,
    frame: Seq<u8>,
    status: PacketStatus,
    now_us: u64,
)
    requires
        !(telemetry_of(frame) matches Ok(telemetry) && expected(telemetry)),
    ensures
        receiver_after(receiver, frame, status, now_us) == (match telemetry_of(frame) {
            Ok(_) => Receiver { foreign_packets: plus(receiver.foreign_packets, 1), ..receiver },
            Err(DecodeError::CrcMismatch) => Receiver {
                crc_failures: plus(receiver.crc_failures, 1),
                ..receiver
            },
            Err(_) => Receiver { invalid_packets: plus(receiver.invalid_packets, 1), ..receiver },
        }),
{
}

/// A packet that counts needs a frame whose checksum is right.
pub proof fn law_accepted_frames_are_intact(
    receiver: Receiver,
    frame: Seq<u8>,
    status: PacketStatus,
    now_us: u64,
)
    requires
        receiver_after(receiver, frame, status, now_us).received != receiver.received
            || receiver_after(receiver, frame, status, now_us).last_valid_us
            != receiver.last_valid_us,
    ensures
        frame.len() == 48,
        le_value(frame.subrange(44, 48)) == crc32(frame.take(44)),
        telemetry_of(frame) matches Ok(telemetry) && expected(telemetry),
{
}

/// The loss of the link is reported once: not again while it lasts, and again only when a packet
/// has come in between.
pub proof fn law_loss_is_reported_once(receiver: Receiver, now_us: u64, later_us: u64)
    requires
        receiver.before(now_us),
        now_us <= later_us,
        link_loss(receiver, now_us) is Some,
    ensures
        link_loss(Receiver { link_lost: true, ..receiver }, later_us) is None,
        !link_is_up(receiver, now_us),
{
}

/// A link that is neither up nor reported lost is one that was never there or is reported at the
/// next look.
pub proof fn law_silence_is_noticed(receiver: Receiver, now_us: u64)
    requires
        receiver.before(now_us),
        receiver.last_valid_us is Some,
        !link_is_up(receiver, now_us),
    ensures
        receiver.link_lost || link_loss(receiver, now_us) is Some,
{
}

/// The packet that ends an outage says so, with the time since the last one before it.
pub proof fn law_return_of_the_link_is_reported(
    receiver: Receiver,
    frame: Seq<u8>,
    status: PacketStatus,
    now_us: u64,
)
    requires
        receiver.wf(),
        receiver.before(now_us),
        frame_outcome(receiver, frame, now_us) is Accepted,
    ensures
        frame_outcome(receiver, frame, now_us)->outage is Some <==> receiver.link_lost,
        frame_outcome(receiver, frame, now_us)->outage matches Some(outage) ==> outage.outage_ms
            == (now_us - receiver.last_valid_us->0) / 1_000,
        frame_outcome(receiver, frame, now_us)->outage matches Some(outage)
            ==> outage.previous_rx_mono_ms == receiver.last_valid_us->0 / 1_000,
        !receiver_after(receiver, frame, status, now_us).link_lost,
{
}

/// Whether a frame is a packet of the sender and the survey that the device listens to.
pub open spec fn from_the_sender(frame: Seq<u8>) -> bool {
    telemetry_of(frame) matches Ok(telemetry) && telemetry.sender_system_id
        == 0x4D52_5500_0000_0001 && telemetry.survey_id == 0xA000_0003
}

/// The number of a packet.
pub open spec fn number_of(frame: Seq<u8>) -> int {
    telemetry_of(frame)->Ok_0.sequence as int
}

/// No counter ever falls, and a frame moves one of them at most, but for the missing numbers, by
/// one: that of its kind, until it has reached its last value.
pub proof fn law_counters_never_fall(
    receiver: Receiver,
    frame: Seq<u8>,
    status: PacketStatus,
    now_us: u64,
)
    requires
        receiver.wf(),
        receiver.before(now_us),
    ensures
        ({
            let after = receiver_after(receiver, frame, status, now_us);
            let broken = telemetry_of(frame) is Err;
            let wrong_checksum = broken && telemetry_of(frame)->Err_0 is CrcMismatch;
            &&& after.missed >= receiver.missed
            &&& after.received == receiver.received || after.received == receiver.received + 1
            &&& after.received > receiver.received ==> from_the_sender(frame)
            &&& after.missed > receiver.missed ==> from_the_sender(frame)
            &&& after.crc_failures == receiver.crc_failures + (if wrong_checksum
                && receiver.crc_failures < 4_294_967_295 {
                1int
            } else {
                0
            })
            &&& after.invalid_packets == receiver.invalid_packets + (if broken && !wrong_checksum
                && receiver.invalid_packets < 4_294_967_295 {
                1int
            } else {
                0
            })
            &&& after.foreign_packets == receiver.foreign_packets + (if !broken
                && !from_the_sender(frame) && receiver.foreign_packets < 4_294_967_295 {
                1int
            } else {
                0
            })
        }),
{
}

/// A packet of the sender that goes on from the last one that was believed: its number is larger,
/// by no more than five and one for each full second that has passed. The count of missing numbers
/// is what it was, and the numbers in between, up to its last value. The packet counts, is the last
/// one now, and is believed.
pub proof fn law_missed_adds_up(
    receiver: Receiver,
    frame: Seq<u8>,
    status: PacketStatus,
    now_us: u64,
)
    requires
        receiver.wf(),
        receiver.before(now_us),
        from_the_sender(frame),
        receiver.tracker.trusted is Some,
        receiver.tracker.candidate is None,
        receiver.tracker.trusted->0 < number_of(frame) <= receiver.tracker.trusted->0 + 5 + (now_us
            - receiver.tracker.trusted_us->0) / 1_000_000,
    ensures
        ({
            let after = receiver_after(receiver, frame, status, now_us);
            let last = receiver.tracker.trusted->0;
            let sum = receiver.missed + number_of(frame) - last - 1;
            &&& after.missed == if sum <= 4_294_967_295 {
                sum
            } else {
                4_294_967_295
            }
            &&& after.received == receiver.received + 1 || (after.received == 4_294_967_295
                && receiver.received == 4_294_967_295)
            &&& after.tracker.trusted == Some(telemetry_of(frame)->Ok_0.sequence)
            &&& after.tracker.trusted_us == Some(now_us)
            &&& after.tracker.candidate is None
            &&& frame_outcome(receiver, frame, now_us)->Accepted_note == SequenceNote::InOrder {
                previous: last,
                missed: (number_of(frame) - last - 1) as u32,
            }
        }),
{
    lemma_seconds(now_us - receiver.tracker.trusted_us->0);
}

proof fn lemma_seconds(us: int)
    requires
        us >= 0,
    ensures
        us / 1_000 / 1_000 == us / 1_000_000,
{
}

/// The first packet of the sender counts and is believed, and nothing is missing before it.
pub proof fn law_first_packet_counts(
    receiver: Receiver,
    frame: Seq<u8>,
    status: PacketStatus,
    now_us: u64,
)
    requires
        receiver.wf(),
        from_the_sender(frame),
        receiver.tracker.trusted is None,
    ensures
        ({
            let after = receiver_after(receiver, frame, status, now_us);
            &&& after.missed == receiver.missed
            &&& after.received == receiver.received + 1 || after.received == 4_294_967_295
            &&& after.tracker.trusted == Some(telemetry_of(frame)->Ok_0.sequence)
            &&& after.tracker.trusted_us == Some(now_us)
            &&& after.tracker.candidate is None
            &&& frame_outcome(receiver, frame, now_us)->Accepted_note is First
        }),
{
}

/// A packet of the sender whose number is more than five, and one for each full second, ahead is
/// counted, but moves neither the numbering nor the count of missing numbers: its number waits to
/// be confirmed.
pub proof fn law_leap_waits(
    receiver: Receiver,
    frame: Seq<u8>,
    status: PacketStatus,
    now_us: u64,
)
    requires
        receiver.wf(),
        receiver.before(now_us),
        from_the_sender(frame),
        receiver.tracker.trusted is Some,
        receiver.tracker.candidate is None,
        number_of(frame) > receiver.tracker.trusted->0 + 5 + (now_us
            - receiver.tracker.trusted_us->0) / 1_000_000,
    ensures
        ({
            let after = receiver_after(receiver, frame, status, now_us);
            let last = receiver.tracker.trusted->0;
            let past_us = now_us - receiver.tracker.trusted_us->0;
            let note = frame_outcome(receiver, frame, now_us)->Accepted_note;
            &&& after.missed == receiver.missed
            &&& after.received == receiver.received + 1 || after.received == 4_294_967_295
            &&& after.tracker.trusted == receiver.tracker.trusted
            &&& after.tracker.trusted_us == receiver.tracker.trusted_us
            &&& after.tracker.candidate == Some(telemetry_of(frame)->Ok_0.sequence)
            &&& note is Suspicious
            &&& note->Suspicious_previous == last
            &&& note->Suspicious_gap == number_of(frame) - last
            &&& note->Suspicious_elapsed_ms == past_us / 1_000
            &&& note->Suspicious_expected_gap == past_us / 1_000_000
            &&& note->Suspicious_max_gap == past_us / 1_000_000 + 5
        }),
{
    lemma_seconds(now_us - receiver.tracker.trusted_us->0);
}

/// The packet behind a number that waits confirms it: the numbering goes on there, and the numbers
/// between the last one believed and the one that waited are counted as missing.
pub proof fn law_confirmed_leap_counts(
    receiver: Receiver,
    frame: Seq<u8>,
    status: PacketStatus,
    now_us: u64,
)
    requires
        receiver.wf(),
        receiver.before(now_us),
        from_the_sender(frame),
        receiver.tracker.candidate is Some,
        number_of(frame) == receiver.tracker.candidate->0 + 1,
    ensures
        ({
            let after = receiver_after(receiver, frame, status, now_us);
            let last = receiver.tracker.trusted->0;
            let sum = receiver.missed + number_of(frame) - last - 2;
            let note = frame_outcome(receiver, frame, now_us)->Accepted_note;
            &&& after.missed == if sum <= 4_294_967_295 {
                sum
            } else {
                4_294_967_295
            }
            &&& after.received == receiver.received + 1 || after.received == 4_294_967_295
            &&& after.tracker.trusted == Some(telemetry_of(frame)->Ok_0.sequence)
            &&& after.tracker.trusted_us == Some(now_us)
            &&& after.tracker.candidate is None
            &&& note is Resync
            &&& note->Resync_previous == last
            &&& note->Resync_candidate == receiver.tracker.candidate->0
            &&& note->Resync_missed == number_of(frame) - last - 2
        }),
{
}

/// A number that waits is given up for any other number than itself and the one behind it: the
/// packet is then taken as if nothing had waited, and says what was given up.
pub proof fn law_leap_is_given_up(
    receiver: Receiver,
    frame: Seq<u8>,
    status: PacketStatus,
    now_us: u64,
)
    requires
        receiver.wf(),
        receiver.before(now_us),
        from_the_sender(frame),
        receiver.tracker.candidate is Some,
        number_of(frame) != receiver.tracker.candidate->0,
        number_of(frame) != receiver.tracker.candidate->0 + 1,
    ensures
        ({
            let calm = Receiver {
                tracker: SequenceTracker { candidate: None, ..receiver.tracker },
                ..receiver
            };
            &&& receiver_after(receiver, frame, status, now_us) == receiver_after(
                calm,
                frame,
                status,
                now_us,
            )
            &&& match frame_outcome(receiver, frame, now_us) {
                FrameOutcome::Accepted { given_up, .. } => given_up == receiver.tracker.candidate,
                FrameOutcome::Ignored { given_up, .. } => given_up == receiver.tracker.candidate,
                _ => false,
            }
        }),
{
}

/// Without a number that waits none is given up, and neither by its repetition nor by the packet
/// that confirms it.
pub proof fn law_nothing_else_is_given_up(receiver: Receiver, frame: Seq<u8>, now_us: u64)
    requires
        receiver.wf(),
        receiver.before(now_us),
        from_the_sender(frame),
        receiver.tracker.candidate is None || number_of(frame) == receiver.tracker.candidate->0
            || number_of(frame) == receiver.tracker.candidate->0 + 1,
    ensures
        match frame_outcome(receiver, frame, now_us) {
            FrameOutcome::Accepted { given_up, .. } => given_up is None,
            FrameOutcome::Ignored { given_up, .. } => given_up is None,
            _ => false,
        },
{
}

/// A packet that repeats the last number, or one that waits, counts nothing and leaves all as it
/// was. So does one with an earlier number, from 11 up.
pub proof fn law_old_numbers_count_nothing(
    receiver: Receiver,
    frame: Seq<u8>,
    status: PacketStatus,
    now_us: u64,
)
    requires
        receiver.wf(),
        receiver.before(now_us),
        from_the_sender(frame),
        receiver.tracker.trusted is Some,
        ({
            ||| Some(telemetry_of(frame)->Ok_0.sequence) == receiver.tracker.candidate
            ||| receiver.tracker.candidate is None && number_of(frame)
                == receiver.tracker.trusted->0
            ||| receiver.tracker.candidate is None && 10 < number_of(frame)
                < receiver.tracker.trusted->0
        }),
    ensures
        receiver_after(receiver, frame, status, now_us) == receiver,
        frame_outcome(receiver, frame, now_us) is Ignored,
        ({
            let note = frame_outcome(receiver, frame, now_us)->Ignored_note;
            &&& note is CandidateDuplicate <==> receiver.tracker.candidate is Some
            &&& note is Duplicate <==> receiver.tracker.candidate is None && number_of(frame)
                == receiver.tracker.trusted->0
            &&& note is Backward ==> note->Backward_previous == receiver.tracker.trusted->0
        }),
{
}

/// A packet that falls back to one of the numbers up to 10 means that the sender started anew: the
/// numbering goes on from there, the packet counts, and nothing is missing.
pub proof fn law_restart_of_the_sender(
    receiver: Receiver,
    frame: Seq<u8>,
    status: PacketStatus,
    now_us: u64,
)
    requires
        receiver.wf(),
        receiver.before(now_us),
        from_the_sender(frame),
        receiver.tracker.trusted is Some,
        number_of(frame) < receiver.tracker.trusted->0,
        number_of(frame) <= 10,
    ensures
        ({
            let after = receiver_after(receiver, frame, status, now_us);
            let note = frame_outcome(receiver, frame, now_us)->Accepted_note;
            &&& after.missed == receiver.missed
            &&& after.received == receiver.received + 1 || after.received == 4_294_967_295
            &&& after.tracker.trusted == Some(telemetry_of(frame)->Ok_0.sequence)
            &&& after.tracker.trusted_us == Some(now_us)
            &&& after.tracker.candidate is None
            &&& note is Reset
            &&& note->Reset_previous == receiver.tracker.trusted->0
        }),
{
}

/// What becomes of a frame: one with a wrong checksum says both checksums, one that is no packet
/// says why, one from elsewhere gives its packet, and one of the sender gives its packet and is
/// either accepted or ignored. A packet that is accepted is the last one that came, with its moment
/// and its strength, and ends an outage; one that is ignored is not.
pub proof fn law_what_becomes_of_a_frame(
    receiver: Receiver,
    frame: Seq<u8>,
    status: PacketStatus,
    now_us: u64,
)
    ensures
        ({
            let after = receiver_after(receiver, frame, status, now_us);
            let decoded = telemetry_of(frame);
            &&& match frame_outcome(receiver, frame, now_us) {
                FrameOutcome::CrcFailed { stored_crc, computed_crc } => {
                    &&& decoded is Err && decoded->Err_0 is CrcMismatch
                    &&& stored_crc == frame[44] + 0x100 * frame[45] + 0x1_0000 * frame[46]
                        + 0x100_0000 * frame[47]
                    &&& computed_crc == crc32(frame.take(44))
                },
                FrameOutcome::Rejected(error) => {
                    decoded is Err && decoded->Err_0 == error && !(error is CrcMismatch)
                },
                FrameOutcome::Foreign(telemetry) => {
                    &&& decoded is Ok && decoded->Ok_0 == telemetry
                    &&& !from_the_sender(frame)
                },
                FrameOutcome::Ignored { telemetry, .. } => {
                    &&& decoded is Ok && decoded->Ok_0 == telemetry
                    &&& from_the_sender(frame)
                    &&& after == (Receiver { tracker: after.tracker, ..receiver })
                },
                FrameOutcome::Accepted { telemetry, .. } => {
                    &&& decoded is Ok && decoded->Ok_0 == telemetry
                    &&& from_the_sender(frame)
                    &&& after.last_accepted == Some(telemetry.sequence)
                    &&& after.last_valid_us == Some(now_us)
                    &&& after.last_rssi == Some(status.rssi)
                    &&& after.last_snr == Some(status.snr)
                    &&& !after.link_lost
                    &&& after.received == receiver.received + 1 || after.received == 4_294_967_295
                },
            }
        }),
{
    if telemetry_of(frame) is Err && telemetry_of(frame)->Err_0 is CrcMismatch {
        law_which_frames_are_accepted(frame);
        reveal_with_fuel(le_value, 5);
        let s = frame.subrange(44, 48);
        assert(s.drop_first() =~= frame.subrange(45, 48));
        assert(s.drop_first().drop_first() =~= frame.subrange(46, 48));
        assert(s.drop_first().drop_first().drop_first() =~= frame.subrange(47, 48));
        assert(s.drop_first().drop_first().drop_first().drop_first() =~= Seq::<u8>::empty());
    }
}

/// What a run of frames, each with its strength and its moment, leaves behind.
pub open spec fn heard(receiver: Receiver, run: Seq<(Seq<u8>, PacketStatus, u64)>) -> Receiver
    decreases run.len(),
{
    if run.len() == 0 {
        receiver
    } else {
        let (frame, status, now_us) = run.last();
        receiver_after(heard(receiver, run.drop_last()), frame, status, now_us)
    }
}

/// Whether the packets of a run are all the sender's and in order: each has a larger number than
/// the one before it, by no more than five and one for each full second between them.
pub open spec fn in_order(run: Seq<(Seq<u8>, PacketStatus, u64)>) -> bool {
    &&& forall|i: int| 0 <= i < run.len() ==> from_the_sender(#[trigger] run[i].0)
    &&& forall|i: int, j: int|
        0 <= i && j == i + 1 && j < run.len() ==> {
            &&& (#[trigger] run[i]).2 <= (#[trigger] run[j]).2
            &&& number_of(run[i].0) < number_of(run[j].0) <= number_of(run[i].0) + 5 + (run[j].2
                - run[i].2) / 1_000_000
        }
}

/// Over any run of packets in order, from the number of the first to that of the last, each packet
/// counts as received and each number in between that did not come as missed: together they are
/// all the numbers of the run.
pub proof fn law_run_adds_up(run: Seq<(Seq<u8>, PacketStatus, u64)>)
    requires
        run.len() > 0,
        in_order(run),
    ensures
        ({
            let after = heard(fresh_receiver(), run);
            let a = number_of(run[0].0);
            let b = number_of(run.last().0);
            &&& after.received == run.len()
            &&& after.missed == b - a + 1 - run.len()
            &&& after.tracker.trusted == Some(telemetry_of(run.last().0)->Ok_0.sequence)
            &&& after.last_accepted == Some(telemetry_of(run.last().0)->Ok_0.sequence)
            &&& after.last_valid_us == Some(run.last().2)
            &&& after.crc_failures == 0
            &&& after.invalid_packets == 0
            &&& after.foreign_packets == 0
        }),
{
    lemma_run(run);
}

proof fn lemma_run(run: Seq<(Seq<u8>, PacketStatus, u64)>)
    requires
        run.len() > 0,
        in_order(run),
    ensures
        ({
            let after = heard(fresh_receiver(), run);
            let a = number_of(run[0].0);
            let b = number_of(run.last().0);
            let (_, status, now_us) = run.last();
            &&& 0 <= a <= b <= 16_777_215
            &&& run.len() <= b - a + 1
            &&& after == (Receiver {
                tracker: SequenceTracker {
                    trusted: Some(b as u32),
                    trusted_us: Some(now_us),
                    candidate: None,
                },
                last_accepted: Some(b as u32),
                last_valid_us: Some(now_us),
                received: run.len() as u32,
                missed: (b - a + 1 - run.len()) as u32,
                last_rssi: Some(status.rssi),
                last_snr: Some(status.snr),
                ..fresh_receiver()
            })
        }),
    decreases run.len(),
{
    let front = run.drop_last();
    let (frame, status, now_us) = run.last();
    let n = run.len() as int;
    assert(from_the_sender(run[n - 1].0));
    law_rules_of_a_packet(telemetry_of(frame)->Ok_0);
    if front.len() == 0 {
        assert(heard(fresh_receiver(), front) == fresh_receiver());
    } else {
        assert(in_order(front)) by {
            assert forall|i: int| 0 <= i < front.len() implies from_the_sender(
                #[trigger] front[i].0,
            ) by {
                assert(from_the_sender(run[i].0));
            }
            assert forall|i: int, j: int| 0 <= i && j == i + 1 && j < front.len() implies {
                &&& (#[trigger] front[i]).2 <= (#[trigger] front[j]).2
                &&& number_of(front[i].0) < number_of(front[j].0) <= number_of(front[i].0) + 5 + (
                front[j].2 - front[i].2) / 1_000_000
            } by {
                assert(front[i] == run[i] && front[j] == run[j]);
            }
        }
        lemma_run(front);
        assert(front.last() == run[n - 2]);
        assert(run[n - 2].2 <= run[n - 1].2);
        let before = heard(fresh_receiver(), front);
        law_missed_adds_up(before, frame, status, now_us);
        law_what_becomes_of_a_frame(before, frame, status, now_us);
    }
}

/// A run of packets in order that goes on from a number that is believed adds to the counts that
/// were there: one received for each packet, and one missed for each number in between, as long
/// as the counters can hold it.
pub proof fn law_run_goes_on(receiver: Receiver, run: Seq<(Seq<u8>, PacketStatus, u64)>)
    requires
        receiver.wf(),
        run.len() > 0,
        in_order(run),
        receiver.before(run[0].2),
        receiver.tracker.trusted is Some,
        receiver.tracker.candidate is None,
        receiver.tracker.trusted->0 < number_of(run[0].0) <= receiver.tracker.trusted->0 + 5 + (
        run[0].2 - receiver.tracker.trusted_us->0) / 1_000_000,
        receiver.missed + number_of(run.last().0) <= 4_294_967_295,
        receiver.received + run.len() <= 4_294_967_295,
    ensures
        ({
            let after = heard(receiver, run);
            let a = receiver.tracker.trusted->0;
            let b = number_of(run.last().0);
            &&& after.received == receiver.received + run.len()
            &&& after.missed == receiver.missed + b - a - run.len()
            &&& after.tracker.trusted == Some(telemetry_of(run.last().0)->Ok_0.sequence)
            &&& after.tracker.trusted_us == Some(run.last().2)
            &&& after.tracker.candidate is None
            &&& after.last_valid_us == Some(run.last().2)
            &&& after.last_accepted is Some
            &&& run.len() <= b - a
        }),
    decreases run.len(),
{
    let front = run.drop_last();
    let (frame, status, now_us) = run.last();
    let n = run.len() as int;
    assert(from_the_sender(run[n - 1].0));
    if front.len() == 0 {
        assert(heard(receiver, front) == receiver);
        assert(run.last() == run[0]);
        law_missed_adds_up(receiver, frame, status, now_us);
        law_what_becomes_of_a_frame(receiver, frame, status, now_us);
    } else {
        assert(in_order(front)) by {
            assert forall|i: int| 0 <= i < front.len() implies from_the_sender(
                #[trigger] front[i].0,
            ) by {
                assert(from_the_sender(run[i].0));
            }
            assert forall|i: int, j: int| 0 <= i && j == i + 1 && j < front.len() implies {
                &&& (#[trigger] front[i]).2 <= (#[trigger] front[j]).2
                &&& number_of(front[i].0) < number_of(front[j].0) <= number_of(front[i].0) + 5 + (
                front[j].2 - front[i].2) / 1_000_000
            } by {
                assert(front[i] == run[i] && front[j] == run[j]);
            }
        }
        assert(front.last() == run[n - 2]);
        assert(run[n - 2].2 <= run[n - 1].2);
        law_run_goes_on(receiver, front);
        let before = heard(receiver, front);
        law_missed_adds_up(before, frame, status, now_us);
        law_what_becomes_of_a_frame(before, frame, status, now_us);
    }
}

/// A link is lost five seconds after its last packet: a look at it reports the loss exactly from
/// then on and not twice, with the number of that packet, its moment and its age in milliseconds.
/// Until then the link is up.
pub proof fn law_link_is_lost_after_five_seconds(receiver: Receiver, now_us: u64)
    requires
        receiver.wf(),
        receiver.before(now_us),
    ensures
        ({
            let loss = link_loss(receiver, now_us);
            let last_us = receiver.last_valid_us->0;
            let after = receiver_after_look(receiver, now_us);
            &&& loss is Some <==> receiver.last_valid_us is Some && now_us - last_us >= 5_000_000
                && !receiver.link_lost
            &&& link_is_up(receiver, now_us) <==> receiver.last_valid_us is Some && now_us
                - last_us < 5_000_000
            &&& loss is Some ==> {
                &&& Some(loss->0.last_sequence) == receiver.last_accepted
                &&& loss->0.last_rx_mono_ms == last_us / 1_000
                &&& loss->0.age_ms == (now_us - last_us) / 1_000
            }
            &&& after.link_lost <==> receiver.link_lost || loss is Some
            &&& after == (Receiver { link_lost: after.link_lost, ..receiver })
        }),
{
    if receiver.last_valid_us is Some {
        lemma_seconds(now_us - receiver.last_valid_us->0);
    }
}

} // verus!
