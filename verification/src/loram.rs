//! The smaller receiver: it hears plain beacons, has no clock and logs nothing.
//!
//! Moments are microseconds of the device's own clock.
use vstd::prelude::*;
use vstd::slice::slice_subrange;
use vstd::utf8::encode_utf8;

use crate::gps::{
    is_gga, lemma_fields_of_a_sentence, lemma_names_of_sentences, line_after, no_commas, sentence,
    NMEA_LINE_CAPACITY,
};
use crate::le::{le_value, read_u32_le};
use crate::nmea::{coordinate_e7, nth_field, parse_coordinate_e7, parse_u8, split_field, u8_text};
use crate::radio::PacketStatus;
use crate::receiver::{
    plus, BEACON_SEQUENCE_RATE_HZ, LINK_LOSS_TIMEOUT_SECS, REBOOT_SEQUENCE_WINDOW,
    SEQUENCE_GAP_TOLERANCE,
};
use crate::text::{lemma_encode_ascii, lemma_encode_push, same_bytes, Text};

verus! {

/// How long a page stays before the other one is shown.
pub const DISPLAY_PAGE_INTERVAL_SECS: u64 = 10;

/// What is known of the own position.
#[derive(Clone, Copy, Debug, PartialEq, Eq, Structural)]
pub struct GpsState {
    pub online: bool,
    pub fix: bool,
    pub latitude_e7: Option<i32>,
    pub longitude_e7: Option<i32>,
    pub satellites: Option<u8>,
}

/// What is known before a position receiver is heard.
pub open spec fn unheard() -> GpsState {
    GpsState {
        online: false,
        fix: false,
        latitude_e7: None,
        longitude_e7: None,
        satellites: None,
    }
}

impl GpsState {
    pub fn offline() -> (state: Self)
        ensures
            state == unheard(),
    {
        GpsState {
            online: false,
            fix: false,
            latitude_e7: None,
            longitude_e7: None,
            satellites: None,
        }
    }
}

/// What a GGA sentence reports; `None` for any other line, for one that ends before the number of
/// satellites, and for one that reports a fix without a position that can be read.
pub open spec fn gga_state(line: Seq<u8>) -> Option<GpsState> {
    match (
        (split_field(line, 2), split_field(line, 3)),
        (split_field(line, 4), split_field(line, 5)),
        (split_field(line, 6), split_field(line, 7)),
    ) {
        (
            (Some(latitude), Some(latitude_hemisphere)),
            (Some(longitude), Some(longitude_hemisphere)),
            (Some(quality), Some(satellites)),
        ) => {
            let has_fix = u8_text(quality) matches Some(number) && number != 0;
            if !is_gga(line) {
                None
            } else if !has_fix {
                Some(
                    GpsState {
                        online: true,
                        fix: false,
                        latitude_e7: None,
                        longitude_e7: None,
                        satellites: u8_text(satellites),
                    },
                )
            } else {
                match (
                    coordinate_e7(latitude, latitude_hemisphere),
                    coordinate_e7(longitude, longitude_hemisphere),
                ) {
                    (Some(latitude_e7), Some(longitude_e7)) => Some(
                        GpsState {
                            online: true,
                            fix: true,
                            latitude_e7: Some(latitude_e7),
                            longitude_e7: Some(longitude_e7),
                            satellites: u8_text(satellites),
                        },
                    ),
                    _ => None,
                }
            }
        },
        _ => None,
    }
}

pub fn parse_gga(line: &str) -> (state: Option<GpsState>)
    ensures
        state == gga_state(encode_utf8(line@)),
{
    let bytes = line.as_bytes();
    match nth_field(bytes, 0) {
        Some(sentence) => {
            if !same_bytes(sentence, "$GPGGA".as_bytes()) && !same_bytes(
                sentence,
                "$GNGGA".as_bytes(),
            ) {
                return None;
            }
        },
        None => return None,
    }
    let latitude = match nth_field(bytes, 2) {
        Some(text) => text,
        None => return None,
    };
    let latitude_hemisphere = match nth_field(bytes, 3) {
        Some(text) => text,
        None => return None,
    };
    let longitude = match nth_field(bytes, 4) {
        Some(text) => text,
        None => return None,
    };
    let longitude_hemisphere = match nth_field(bytes, 5) {
        Some(text) => text,
        None => return None,
    };
    let has_fix: bool = match nth_field(bytes, 6) {
        Some(text) => match parse_u8(text) {
            Some(quality) => quality != 0,
            None => false,
        },
        None => return None,
    };
    let satellites: Option<u8> = match nth_field(bytes, 7) {
        Some(text) => parse_u8(text),
        None => return None,
    };
    if !has_fix {
        return Some(
            GpsState {
                online: true,
                fix: false,
                latitude_e7: None,
                longitude_e7: None,
                satellites,
            },
        );
    }
    match (
        parse_coordinate_e7(latitude, latitude_hemisphere),
        parse_coordinate_e7(longitude, longitude_hemisphere),
    ) {
        (Some(latitude_e7), Some(longitude_e7)) => Some(
            GpsState {
                online: true,
                fix: true,
                latitude_e7: Some(latitude_e7),
                longitude_e7: Some(longitude_e7),
                satellites,
            },
        ),
        _ => None,
    }
}

/// The number of a beacon: at least ten bytes, the first four `MRU1`, the number in the last four
/// of the ten.
pub open spec fn beacon_sequence(payload: Seq<u8>) -> Option<u32> {
    if payload.len() >= 10 && payload.take(4) == encode_utf8("MRU1"@) {
        Some(le_value(payload.subrange(6, 10)) as u32)
    } else {
        None
    }
}

pub fn decode_sequence(payload: &[u8]) -> (sequence: Option<u32>)
    ensures
        sequence == beacon_sequence(payload@),
{
    if payload.len() < 10 {
        return None;
    }
    let magic = slice_subrange(payload, 0, 4);
    assert(magic@ =~= payload@.take(4));
    if !same_bytes(magic, "MRU1".as_bytes()) {
        return None;
    }
    let number = slice_subrange(payload, 6, 10);
    assert(number@.take(4) =~= number@);
    Some(read_u32_le(number))
}

/// Everything that the receiver knows of the link.
#[derive(Clone, Copy, Debug, PartialEq, Eq, Structural)]
pub struct BeaconReceiver {
    pub last_sequence: Option<u32>,
    pub last_valid_us: Option<u64>,
    pub received: u32,
    pub missed: u32,
    pub last_rssi: Option<i16>,
    pub last_snr: Option<i16>,
    pub link_lost: bool,
}

/// What came of a frame.
#[derive(Clone, Copy, Debug, PartialEq, Eq, Structural)]
pub enum BeaconOutcome {
    /// It is no beacon.
    Unknown,
    /// Its number is the last one.
    Duplicate,
    /// Its number is too far ahead for the time that passed.
    Implausible,
    /// Its number is one of those before.
    Backward,
    /// It counts; so many are missing before it.
    Accepted { sequence: u32, missed: u32 },
}

/// How far ahead a number may be.
pub open spec fn plausible_gap(receiver: BeaconReceiver, now_us: u64) -> int {
    (match receiver.last_valid_us {
        Some(last_us) => (now_us - last_us) / 1_000_000,
        None => 0,
    }) + SEQUENCE_GAP_TOLERANCE
}

/// What comes of a frame.
pub open spec fn beacon_outcome(
    receiver: BeaconReceiver,
    payload: Seq<u8>,
    now_us: u64,
) -> BeaconOutcome {
    match beacon_sequence(payload) {
        None => BeaconOutcome::Unknown,
        Some(sequence) => match receiver.last_sequence {
            None => BeaconOutcome::Accepted { sequence, missed: 0 },
            Some(last) => if sequence == last {
                BeaconOutcome::Duplicate
            } else if sequence > last {
                if sequence - last > plausible_gap(receiver, now_us) {
                    BeaconOutcome::Implausible
                } else {
                    BeaconOutcome::Accepted { sequence, missed: (sequence - last - 1) as u32 }
                }
            } else if sequence <= REBOOT_SEQUENCE_WINDOW {
                BeaconOutcome::Accepted { sequence, missed: 0 }
            } else {
                BeaconOutcome::Backward
            },
        },
    }
}

/// What a frame leaves behind: only one that counts changes anything.
pub open spec fn beacon_after(
    receiver: BeaconReceiver,
    payload: Seq<u8>,
    status: PacketStatus,
    now_us: u64,
) -> BeaconReceiver {
    match beacon_outcome(receiver, payload, now_us) {
        BeaconOutcome::Accepted { sequence, missed } => BeaconReceiver {
            last_sequence: Some(sequence),
            last_valid_us: Some(now_us),
            received: plus(receiver.received, 1),
            missed: plus(receiver.missed, missed as int),
            last_rssi: Some(status.rssi),
            last_snr: Some(status.snr),
            link_lost: false,
        },
        _ => receiver,
    }
}

/// What is known before the first beacon.
pub open spec fn fresh_beacon_receiver() -> BeaconReceiver {
    BeaconReceiver {
        last_sequence: None,
        last_valid_us: None,
        received: 0,
        missed: 0,
        last_rssi: None,
        last_snr: None,
        link_lost: false,
    }
}

/// The age in seconds of a link that a look at it finds lost.
pub open spec fn beacon_loss(receiver: BeaconReceiver, now_us: u64) -> Option<u64> {
    match receiver.last_valid_us {
        Some(last_us) => if (now_us - last_us) / 1_000_000 >= LINK_LOSS_TIMEOUT_SECS
            && !receiver.link_lost {
            Some(((now_us - last_us) / 1_000_000) as u64)
        } else {
            None
        },
        None => None,
    }
}

/// What a look at the link leaves behind.
pub open spec fn beacon_after_look(receiver: BeaconReceiver, now_us: u64) -> BeaconReceiver {
    BeaconReceiver {
        link_lost: receiver.link_lost || beacon_loss(receiver, now_us) is Some,
        ..receiver
    }
}

impl BeaconReceiver {
    /// Nothing is known of a moment that is still to come.
    pub open spec fn before(self, now_us: u64) -> bool {
        self.last_valid_us matches Some(last_us) ==> last_us <= now_us
    }

    pub fn new() -> (receiver: Self)
        ensures
            forall|now_us: u64| receiver.before(now_us),
            receiver == fresh_beacon_receiver(),
    {
        BeaconReceiver {
            last_sequence: None,
            last_valid_us: None,
            received: 0,
            missed: 0,
            last_rssi: None,
            last_snr: None,
            link_lost: false,
        }
    }

    /// Takes a frame that came now. Only one that counts changes anything.
    pub fn on_frame(&mut self, payload: &[u8], status: PacketStatus, now_us: u64) -> (outcome:
        BeaconOutcome)
        requires
            old(self).before(now_us),
        ensures
            final(self).before(now_us),
            outcome == beacon_outcome(*old(self), payload@, now_us),
            *final(self) == beacon_after(*old(self), payload@, status, now_us),
    {
        let sequence: u32 = match decode_sequence(payload) {
            Some(sequence) => sequence,
            None => return BeaconOutcome::Unknown,
        };
        let mut missed: u32 = 0;
        match self.last_sequence {
            Some(last) => {
                if sequence == last {
                    return BeaconOutcome::Duplicate;
                }
                if sequence > last {
                    let gap: u32 = sequence - last;
                    let elapsed_secs: u64 = match self.last_valid_us {
                        Some(last_us) => (now_us - last_us) / 1_000_000,
                        None => 0,
                    };
                    let max_gap: u64 = elapsed_secs * BEACON_SEQUENCE_RATE_HZ
                        + SEQUENCE_GAP_TOLERANCE;
                    if gap as u64 > max_gap {
                        return BeaconOutcome::Implausible;
                    }
                    missed = gap - 1;
                } else if sequence > REBOOT_SEQUENCE_WINDOW {
                    return BeaconOutcome::Backward;
                }
            },
            None => {},
        }
        self.received = self.received.saturating_add(1);
        self.missed = self.missed.saturating_add(missed);
        self.last_sequence = Some(sequence);
        self.last_valid_us = Some(now_us);
        self.last_rssi = Some(status.rssi);
        self.last_snr = Some(status.snr);
        self.link_lost = false;
        BeaconOutcome::Accepted { sequence, missed }
    }

    /// Looks at the link while no frame came. Gives its age in seconds where it is found lost,
    /// once.
    pub fn on_quiet(&mut self, now_us: u64) -> (age_secs: Option<u64>)
        requires
            old(self).before(now_us),
        ensures
            age_secs == beacon_loss(*old(self), now_us),
            *final(self) == beacon_after_look(*old(self), now_us),
    {
        let last_us: u64 = match self.last_valid_us {
            Some(last_us) => last_us,
            None => return None,
        };
        let age: u64 = (now_us - last_us) / 1_000_000;
        if age < LINK_LOSS_TIMEOUT_SECS || self.link_lost {
            return None;
        }
        self.link_lost = true;
        Some(age)
    }
}

/// One damaged number cannot spoil the numbering: a frame whose number is too far ahead for the
/// time that passed, or falls back but not to the start, changes nothing.
pub proof fn law_damaged_numbers_change_nothing(
    receiver: BeaconReceiver,
    payload: Seq<u8>,
    status: PacketStatus,
    now_us: u64,
)
    requires
        receiver.before(now_us),
        beacon_sequence(payload) is Some,
        receiver.last_sequence is Some,
        ({
            let sequence = beacon_sequence(payload)->0;
            let last = receiver.last_sequence->0;
            sequence - last > plausible_gap(receiver, now_us) || REBOOT_SEQUENCE_WINDOW < sequence
                <= last
        }),
    ensures
        beacon_after(receiver, payload, status, now_us) == receiver,
{
}

/// What a byte behind a line gives: a line feed what the line reports, any other nothing.
pub open spec fn reported(line: Seq<char>, byte: u8) -> Option<GpsState> {
    if byte == 0x0A && line.len() > 0 {
        gga_state(encode_utf8(line))
    } else {
        None
    }
}

/// Assembles lines from the bytes of the serial line.
pub struct PositionReceiver {
    pub line: Text<NMEA_LINE_CAPACITY>,
}

impl PositionReceiver {
    pub fn new() -> (receiver: Self)
        ensures
            receiver.line@ == Seq::<char>::empty(),
    {
        PositionReceiver { line: Text::new() }
    }

    /// Takes one byte. A line feed ends a line, and gives what the line reports.
    pub fn accept(&mut self, byte: u8) -> (state: Option<GpsState>)
        ensures
            final(self).line@ == line_after(old(self).line@, byte),
            state == reported(old(self).line@, byte),
    {
        if byte == 0x0A {
            if self.line.is_empty() {
                assert(self.line@ =~= Seq::<char>::empty());
                return None;
            }
            let state = parse_gga(self.line.as_str());
            self.line.clear();
            state
        } else if byte == 0x0D || byte >= 0x80 {
            None
        } else {
            let c: char = byte as char;
            proof {
                lemma_encode_ascii(c);
            }
            if !self.line.push(c) {
                self.line.clear();
            }
            None
        }
    }
}

/// Whether the other page is due.
pub open spec fn page_is_due(last_switch_us: u64, now_us: u64) -> bool {
    (now_us - last_switch_us) / 1_000_000 >= DISPLAY_PAGE_INTERVAL_SECS
}

/// Whether it is time for the other page.
pub fn page_switch_due(last_switch_us: u64, now_us: u64) -> (due: bool)
    requires
        last_switch_us <= now_us,
    ensures
        due == page_is_due(last_switch_us, now_us),
{
    (now_us - last_switch_us) / 1_000_000 >= DISPLAY_PAGE_INTERVAL_SECS
}

/// A beacon is at least ten bytes that begin with `MRU1`. Its number stands in the last four of the
/// ten, from the lowest byte up.
pub proof fn law_beacons(payload: Seq<u8>)
    ensures
        beacon_sequence(payload) is Some <==> payload.len() >= 10 && payload[0] == 0x4D
            && payload[1] == 0x52 && payload[2] == 0x55 && payload[3] == 0x31,
        beacon_sequence(payload) is Some ==> beacon_sequence(payload)->0 == payload[6] + 0x100
            * payload[7] + 0x1_0000 * payload[8] + 0x100_0000 * payload[9],
{
    reveal_strlit("MRU1");
    let magic = "MRU1"@;
    let none = Seq::<char>::empty();
    assert(magic =~= none.push('M').push('R').push('U').push('1'));
    lemma_encode_push(none, 'M');
    lemma_encode_push(none.push('M'), 'R');
    lemma_encode_push(none.push('M').push('R'), 'U');
    lemma_encode_push(none.push('M').push('R').push('U'), '1');
    lemma_encode_ascii('M');
    lemma_encode_ascii('R');
    lemma_encode_ascii('U');
    lemma_encode_ascii('1');
    assert(encode_utf8(none) =~= Seq::<u8>::empty());
    let bytes = seq![0x4Du8, 0x52u8, 0x55u8, 0x31u8];
    assert(encode_utf8(magic) =~= bytes);
    if payload.len() >= 10 {
        let front = payload.take(4);
        assert(front[0] == payload[0] && front[1] == payload[1]);
        assert(front[2] == payload[2] && front[3] == payload[3]);
        assert(bytes[0] == 0x4D && bytes[1] == 0x52 && bytes[2] == 0x55 && bytes[3] == 0x31);
        if payload[0] == 0x4D && payload[1] == 0x52 && payload[2] == 0x55 && payload[3] == 0x31 {
            assert(front =~= bytes);
        }
        reveal_with_fuel(le_value, 5);
        let s = payload.subrange(6, 10);
        assert(s.drop_first() =~= payload.subrange(7, 10));
        assert(payload.subrange(7, 10).drop_first() =~= payload.subrange(8, 10));
        assert(payload.subrange(8, 10).drop_first() =~= payload.subrange(9, 10));
        assert(payload.subrange(9, 10).drop_first() =~= Seq::<u8>::empty());
    }
}

/// A beacon that goes on from the last one, its number larger by no more than five and one for each
/// full second since then, counts: the missing numbers are what they were and those in between, up
/// to the last value of the counter. It is the last one now.
pub proof fn law_beacons_add_up(
    receiver: BeaconReceiver,
    payload: Seq<u8>,
    status: PacketStatus,
    now_us: u64,
)
    requires
        receiver.before(now_us),
        receiver.last_sequence is Some,
        receiver.last_valid_us is Some,
        beacon_sequence(payload) is Some,
        receiver.last_sequence->0 < beacon_sequence(payload)->0 <= receiver.last_sequence->0 + 5 + (
        now_us - receiver.last_valid_us->0) / 1_000_000,
    ensures
        ({
            let after = beacon_after(receiver, payload, status, now_us);
            let between = beacon_sequence(payload)->0 - receiver.last_sequence->0 - 1;
            let sum = receiver.missed + between;
            &&& beacon_outcome(receiver, payload, now_us) == BeaconOutcome::Accepted {
                sequence: beacon_sequence(payload)->0,
                missed: between as u32,
            }
            &&& after.missed == if sum <= 4_294_967_295 {
                sum
            } else {
                4_294_967_295
            }
            &&& after.received == receiver.received + 1 || after.received == 4_294_967_295
            &&& after.last_sequence == beacon_sequence(payload)
            &&& after.last_valid_us == Some(now_us)
            &&& after.last_rssi == Some(status.rssi)
            &&& after.last_snr == Some(status.snr)
            &&& !after.link_lost
        }),
{
}

/// The first beacon, and one that falls back to a number up to 10, count with nothing missing
/// before them.
pub proof fn law_first_beacons_count(
    receiver: BeaconReceiver,
    payload: Seq<u8>,
    status: PacketStatus,
    now_us: u64,
)
    requires
        beacon_sequence(payload) is Some,
        receiver.last_sequence is Some ==> beacon_sequence(payload)->0 < receiver.last_sequence->0
            && beacon_sequence(payload)->0 <= 10,
    ensures
        ({
            let after = beacon_after(receiver, payload, status, now_us);
            &&& beacon_outcome(receiver, payload, now_us) == BeaconOutcome::Accepted {
                sequence: beacon_sequence(payload)->0,
                missed: 0,
            }
            &&& after.missed == receiver.missed
            &&& after.received == receiver.received + 1 || after.received == 4_294_967_295
            &&& after.last_sequence == beacon_sequence(payload)
            &&& after.last_valid_us == Some(now_us)
            &&& after.last_rssi == Some(status.rssi)
            &&& after.last_snr == Some(status.snr)
            &&& !after.link_lost
        }),
{
}

/// Any other frame changes nothing: one that is no beacon, a number that comes once more, one more
/// than five and one for each full second ahead, and an earlier one from 11 up.
pub proof fn law_other_beacons_change_nothing(
    receiver: BeaconReceiver,
    payload: Seq<u8>,
    status: PacketStatus,
    now_us: u64,
)
    requires
        receiver.before(now_us),
        receiver.last_valid_us is Some,
        receiver.last_sequence is Some,
    ensures
        ({
            let outcome = beacon_outcome(receiver, payload, now_us);
            let number = beacon_sequence(payload)->0;
            let last = receiver.last_sequence->0;
            let limit = last + 5 + (now_us - receiver.last_valid_us->0) / 1_000_000;
            &&& outcome is Unknown <==> beacon_sequence(payload) is None
            &&& outcome is Duplicate <==> beacon_sequence(payload) is Some && number == last
            &&& outcome is Implausible <==> beacon_sequence(payload) is Some && number > limit
            &&& outcome is Backward <==> beacon_sequence(payload) is Some && 10 < number < last
            &&& !(outcome is Accepted) ==> beacon_after(receiver, payload, status, now_us)
                == receiver
        }),
{
}

/// What a run of frames, each with its strength and its moment, leaves behind.
pub open spec fn beacons_heard(
    receiver: BeaconReceiver,
    run: Seq<(Seq<u8>, PacketStatus, u64)>,
) -> BeaconReceiver
    decreases run.len(),
{
    if run.len() == 0 {
        receiver
    } else {
        let (payload, status, now_us) = run.last();
        beacon_after(beacons_heard(receiver, run.drop_last()), payload, status, now_us)
    }
}

/// Whether the frames of a run are beacons in order: each has a larger number than the one before
/// it, by no more than five and one for each full second between them.
pub open spec fn beacons_in_order(run: Seq<(Seq<u8>, PacketStatus, u64)>) -> bool {
    &&& forall|i: int| 0 <= i < run.len() ==> beacon_sequence(#[trigger] run[i].0) is Some
    &&& forall|i: int, j: int|
        0 <= i && j == i + 1 && j < run.len() ==> {
            &&& (#[trigger] run[i]).2 <= (#[trigger] run[j]).2
            &&& beacon_sequence(run[i].0)->0 < beacon_sequence(run[j].0)->0
            &&& beacon_sequence(run[j].0)->0 <= beacon_sequence(run[i].0)->0 + 5 + (run[j].2
                - run[i].2) / 1_000_000
        }
}

/// Over any run of beacons in order, from the number of the first to that of the last, each beacon
/// counts as received and each number in between that did not come as missed.
pub proof fn law_beacon_run_adds_up(run: Seq<(Seq<u8>, PacketStatus, u64)>)
    requires
        run.len() > 0,
        beacons_in_order(run),
    ensures
        ({
            let after = beacons_heard(fresh_beacon_receiver(), run);
            let a = beacon_sequence(run[0].0)->0;
            let b = beacon_sequence(run.last().0)->0;
            &&& run.len() <= b - a + 1
            &&& after.received == run.len() || run.len() > 4_294_967_295
            &&& after.missed == b - a + 1 - run.len()
            &&& after.last_sequence == Some(b)
            &&& after.last_valid_us == Some(run.last().2)
        }),
    decreases run.len(),
{
    let front = run.drop_last();
    let (payload, status, now_us) = run.last();
    let n = run.len() as int;
    assert(beacon_sequence(run[n - 1].0) is Some);
    if front.len() == 0 {
        assert(beacons_heard(fresh_beacon_receiver(), front) == fresh_beacon_receiver());
        law_first_beacons_count(fresh_beacon_receiver(), payload, status, now_us);
    } else {
        assert(beacons_in_order(front)) by {
            assert forall|i: int| 0 <= i < front.len() implies beacon_sequence(
                #[trigger] front[i].0,
            ) is Some by {
                assert(beacon_sequence(run[i].0) is Some);
            }
            assert forall|i: int, j: int| 0 <= i && j == i + 1 && j < front.len() implies {
                &&& (#[trigger] front[i]).2 <= (#[trigger] front[j]).2
                &&& beacon_sequence(front[i].0)->0 < beacon_sequence(front[j].0)->0
                &&& beacon_sequence(front[j].0)->0 <= beacon_sequence(front[i].0)->0 + 5 + (
                front[j].2 - front[i].2) / 1_000_000
            } by {
                assert(front[i] == run[i] && front[j] == run[j]);
            }
        }
        law_beacon_run_adds_up(front);
        assert(front.last() == run[n - 2]);
        assert(run[n - 2].2 <= run[n - 1].2);
        let before = beacons_heard(fresh_beacon_receiver(), front);
        law_beacons_add_up(before, payload, status, now_us);
    }
}

/// A link is lost five seconds after its last beacon: a look at it gives its age in full seconds
/// exactly from then on, and not twice. It changes nothing else.
pub proof fn law_beacon_link_is_lost_after_five_seconds(receiver: BeaconReceiver, now_us: u64)
    requires
        receiver.before(now_us),
    ensures
        ({
            let loss = beacon_loss(receiver, now_us);
            let after = beacon_after_look(receiver, now_us);
            &&& loss is Some <==> receiver.last_valid_us is Some && now_us
                - receiver.last_valid_us->0 >= 5_000_000 && !receiver.link_lost
            &&& loss matches Some(age) ==> age == (now_us - receiver.last_valid_us->0) / 1_000_000
            &&& after.link_lost <==> receiver.link_lost || loss is Some
            &&& after == (BeaconReceiver { link_lost: after.link_lost, ..receiver })
            &&& beacon_loss(after, now_us) is None
        }),
{
}

/// A page is shown for ten seconds.
pub proof fn law_pages_change_after_ten_seconds(last_switch_us: u64, now_us: u64)
    requires
        last_switch_us <= now_us,
    ensures
        page_is_due(last_switch_us, now_us) <==> now_us - last_switch_us >= 10_000_000,
{
}

/// What the fields of a GGA sentence report: field 2 and 3 are the latitude and its letter, 4 and 5
/// the longitude and its letter, 6 the quality of the fix and 7 the satellites. A quality of 0, or
/// none, means that there is no fix and no position. A fix without a position that can be read is
/// no report.
pub proof fn law_fields_of_a_report(fields: Seq<Seq<u8>>)
    requires
        fields.len() >= 8,
        no_commas(fields),
        fields[0] == seq![0x24u8, 0x47u8, 0x50u8, 0x47u8, 0x47u8, 0x41u8] || fields[0] == seq![
            0x24u8,
            0x47u8,
            0x4Eu8,
            0x47u8,
            0x47u8,
            0x41u8,
        ],
    ensures
        ({
            let report = gga_state(sentence(fields));
            let quality = u8_text(fields[6]);
            let latitude = coordinate_e7(fields[2], fields[3]);
            let longitude = coordinate_e7(fields[4], fields[5]);
            let has_fix = quality is Some && quality->0 > 0;
            &&& report is None <==> has_fix && (latitude is None || longitude is None)
            &&& report is Some ==> {
                &&& report->0.online
                &&& report->0.fix == has_fix
                &&& report->0.satellites == u8_text(fields[7])
                &&& has_fix ==> report->0.latitude_e7 == latitude && report->0.longitude_e7
                    == longitude
                &&& !has_fix ==> report->0.latitude_e7 is None && report->0.longitude_e7 is None
            }
        }),
{
    lemma_names_of_sentences();
    lemma_fields_of_a_sentence(fields, 0);
    lemma_fields_of_a_sentence(fields, 2);
    lemma_fields_of_a_sentence(fields, 3);
    lemma_fields_of_a_sentence(fields, 4);
    lemma_fields_of_a_sentence(fields, 5);
    lemma_fields_of_a_sentence(fields, 6);
    lemma_fields_of_a_sentence(fields, 7);
}

/// A report comes with the line feed of its line and with no other byte, and an empty line is none.
pub proof fn law_reports_come_with_the_line_feed(line: Seq<char>, byte: u8)
    ensures
        byte != 10 ==> reported(line, byte) is None,
        line.len() == 0 ==> reported(line, byte) is None,
        line.len() > 0 ==> reported(line, 10) == gga_state(encode_utf8(line)),
{
}

/// A line whose first field is neither of the two names of GGA sentences is no report.
pub proof fn law_other_sentences_are_no_reports(line: Seq<u8>)
    requires
        crate::nmea::field(line, 0) != seq![0x24u8, 0x47u8, 0x50u8, 0x47u8, 0x47u8, 0x41u8],
        crate::nmea::field(line, 0) != seq![0x24u8, 0x47u8, 0x4Eu8, 0x47u8, 0x47u8, 0x41u8],
    ensures
        gga_state(line) is None,
{
    lemma_names_of_sentences();
}

/// Before a position receiver is heard nothing is known of it, and before a beacon nothing of the
/// link, which cannot be lost then.
pub proof fn law_nothing_is_known_at_first(now_us: u64)
    ensures
        !unheard().online,
        !unheard().fix,
        unheard().latitude_e7 is None,
        unheard().longitude_e7 is None,
        unheard().satellites is None,
        fresh_beacon_receiver().received == 0,
        fresh_beacon_receiver().missed == 0,
        fresh_beacon_receiver().last_sequence is None,
        beacon_loss(fresh_beacon_receiver(), now_us) is None,
{
}

} // verus!
