//! What stands in the logs of what happens on the link, with the position receiver and with the
//! clock, from the frame or the sentence to the words of the line.
//!
//! Nothing here is executed.
use vstd::prelude::*;

use crate::clock::{utc_at, Reading, UtcVerdict};
use crate::crc::crc32;
use crate::gps::GpsState;
use crate::journal::{
    fix_event_of, frame_event_of, frame_line, given_up_line, loss_event_of, utc_lines, Diagnosis,
    Event,
};
use crate::packet::{telemetry_of, TelemetryV1};
use crate::radio::PacketStatus;
use crate::readback::{
    law_diag_details_read_back, law_diag_lines_read_back, law_event_details_read_back,
    law_event_lines_read_back, law_local_record_reads_back, law_rx_record_reads_back,
};
use crate::reader::{
    free_of, int_i16, int_i32, int_u64, pieces, split, tells, tells_text,
};
use crate::receiver::{
    frame_outcome, from_the_sender, law_confirmed_leap_counts, law_leap_is_given_up,
    law_leap_waits, law_link_is_lost_after_five_seconds, law_missed_adds_up,
    law_old_numbers_count_nothing, law_restart_of_the_sender, law_return_of_the_link_is_reported,
    law_what_becomes_of_a_frame, link_loss, number_of, receiver_after, Receiver,
};
use crate::records::{diag_detail_text, event_detail_text};
use crate::storage::{PersistentLogLevel, Storage};

verus! {

/// Whether a diagnosis has an origin and an event.
pub open spec fn named(line: Diagnosis, originator: Seq<char>, event_id: Seq<char>) -> bool {
    line.originator@ == originator && line.event_id@ == event_id
}

/// A number behind a key of a diagnosis.
pub open spec fn diag_tells(line: Diagnosis, k: int, key: Seq<char>, value: int) -> bool {
    tells(diag_detail_text(line.detail), ' ', k, key, Some(value))
}

/// A number behind a key of an event.
pub open spec fn event_tells(event: Event, k: int, key: Seq<char>, value: int) -> bool {
    tells(event_detail_text(event.detail), ',', k, key, Some(value))
}

/// A frame with a wrong checksum is logged in both logs: how many there were so far, how strong it
/// was, the checksum that it carries and the one that its bytes have.
pub proof fn law_wrong_checksum_is_logged(
    receiver: Receiver,
    frame: Seq<u8>,
    status: PacketStatus,
    now_us: u64,
    len: u8,
)
    requires
        telemetry_of(frame) is Err,
        telemetry_of(frame)->Err_0 is CrcMismatch,
    ensures
        ({
            let outcome = frame_outcome(receiver, frame, now_us);
            let after = receiver_after(receiver, frame, status, now_us);
            let line = frame_line(after, outcome, status, len)->0;
            let event = frame_event_of(after, outcome, status)->0;
            let stored = frame[44] + 0x100 * frame[45] + 0x1_0000 * frame[46] + 0x100_0000
                * frame[47];
            &&& frame_line(after, outcome, status, len) is Some
            &&& named(line, "RADIO"@, "APP_CRC_FAILED"@)
            &&& line.level is Debug
            &&& diag_tells(line, 0, "count="@, after.crc_failures as int)
            &&& diag_tells(line, 1, "rssi="@, status.rssi as int)
            &&& diag_tells(line, 2, "snr="@, status.snr as int)
            &&& diag_tells(line, 3, "stored_crc="@, stored)
            &&& diag_tells(line, 4, "computed_crc="@, crc32(frame.take(44)) as int)
            &&& pieces(diag_detail_text(line.detail), ' ') == 5
            &&& frame_event_of(after, outcome, status) is Some
            &&& event.event_id@ == "APP_CRC_FAILED"@
            &&& event_tells(event, 0, "COUNT="@, after.crc_failures as int)
            &&& event_tells(event, 1, "RSSI="@, status.rssi as int)
            &&& event_tells(event, 2, "SNR="@, status.snr as int)
            &&& event_tells(event, 3, "STORED_CRC="@, stored)
            &&& event_tells(event, 4, "COMPUTED_CRC="@, crc32(frame.take(44)) as int)
            &&& given_up_line(outcome) is None
        }),
{
    let outcome = frame_outcome(receiver, frame, now_us);
    let after = receiver_after(receiver, frame, status, now_us);
    law_what_becomes_of_a_frame(receiver, frame, status, now_us);
    law_diag_details_read_back(frame_line(after, outcome, status, len)->0.detail);
    law_event_details_read_back(frame_event_of(after, outcome, status)->0.detail);
}

/// A frame that is no packet for another reason is logged with its length, the name of the reason,
/// how many there were so far and how strong it was. It is no event.
pub proof fn law_unknown_frame_is_logged(
    receiver: Receiver,
    frame: Seq<u8>,
    status: PacketStatus,
    now_us: u64,
    len: u8,
)
    requires
        telemetry_of(frame) is Err,
        !(telemetry_of(frame)->Err_0 is CrcMismatch),
    ensures
        ({
            let outcome = frame_outcome(receiver, frame, now_us);
            let after = receiver_after(receiver, frame, status, now_us);
            let line = frame_line(after, outcome, status, len)->0;
            &&& frame_line(after, outcome, status, len) is Some
            &&& named(line, "RADIO"@, "NATIVE_PACKET_REJECTED"@)
            &&& line.level is Debug
            &&& diag_tells(line, 0, "len="@, len as int)
            &&& tells_text(
                diag_detail_text(line.detail),
                ' ',
                1,
                "error="@ + telemetry_of(frame)->Err_0.spec_label()@,
            )
            &&& diag_tells(line, 2, "count="@, after.invalid_packets as int)
            &&& diag_tells(line, 3, "rssi="@, status.rssi as int)
            &&& diag_tells(line, 4, "snr="@, status.snr as int)
            &&& frame_event_of(after, outcome, status) is None
            &&& given_up_line(outcome) is None
        }),
{
    let outcome = frame_outcome(receiver, frame, now_us);
    let after = receiver_after(receiver, frame, status, now_us);
    law_diag_details_read_back(frame_line(after, outcome, status, len)->0.detail);
}

/// A packet from elsewhere is logged with its sender, survey, number and mode, and how many there
/// were so far. It is no event.
pub proof fn law_foreign_packet_is_logged(
    receiver: Receiver,
    frame: Seq<u8>,
    status: PacketStatus,
    now_us: u64,
    len: u8,
)
    requires
        telemetry_of(frame) is Ok,
        !from_the_sender(frame),
    ensures
        ({
            let outcome = frame_outcome(receiver, frame, now_us);
            let after = receiver_after(receiver, frame, status, now_us);
            let line = frame_line(after, outcome, status, len)->0;
            let packet = telemetry_of(frame)->Ok_0;
            &&& frame_line(after, outcome, status, len) is Some
            &&& named(line, "RADIO"@, "SURVEY_CONTEXT_REJECTED"@)
            &&& line.level is Debug
            &&& diag_tells(line, 0, "sender="@, packet.sender_system_id as int)
            &&& diag_tells(line, 1, "survey="@, packet.survey_id as int)
            &&& diag_tells(line, 2, "seq="@, packet.sequence as int)
            &&& diag_tells(line, 3, "mode="@, packet.sender_mode as int)
            &&& diag_tells(line, 4, "count="@, after.foreign_packets as int)
            &&& frame_event_of(after, outcome, status) is None
            &&& given_up_line(outcome) is None
        }),
{
    let outcome = frame_outcome(receiver, frame, now_us);
    let after = receiver_after(receiver, frame, status, now_us);
    law_diag_details_read_back(frame_line(after, outcome, status, len)->0.detail);
}

/// Nothing is diagnosed of the first packet, of one that goes on in order, and of one that comes
/// once more.
pub proof fn law_usual_packets_are_not_diagnosed(
    receiver: Receiver,
    frame: Seq<u8>,
    status: PacketStatus,
    now_us: u64,
    len: u8,
)
    requires
        receiver.wf(),
        receiver.before(now_us),
        from_the_sender(frame),
        receiver.tracker.candidate is None,
        receiver.tracker.trusted is Some ==> receiver.tracker.trusted->0 <= number_of(frame)
            <= receiver.tracker.trusted->0 + 5 + (now_us - receiver.tracker.trusted_us->0)
            / 1_000_000,
    ensures
        frame_line(
            receiver_after(receiver, frame, status, now_us),
            frame_outcome(receiver, frame, now_us),
            status,
            len,
        ) is None,
        given_up_line(frame_outcome(receiver, frame, now_us)) is None,
{
    if receiver.tracker.trusted is Some {
        if receiver.tracker.trusted->0 < number_of(frame) {
            law_missed_adds_up(receiver, frame, status, now_us);
        } else {
            law_old_numbers_count_nothing(receiver, frame, status, now_us);
        }
    }
}

/// A number that is too far ahead is a warning, with all that it was judged by.
pub proof fn law_leap_is_logged(
    receiver: Receiver,
    frame: Seq<u8>,
    status: PacketStatus,
    now_us: u64,
    len: u8,
)
    requires
        receiver.wf(),
        receiver.before(now_us),
        from_the_sender(frame),
        receiver.tracker.trusted is Some,
        receiver.tracker.candidate is None,
        number_of(frame) > receiver.tracker.trusted->0 + 5 + (now_us
            - receiver.tracker.trusted_us->0) / 1_000_000,
    ensures
        ({
            let outcome = frame_outcome(receiver, frame, now_us);
            let after = receiver_after(receiver, frame, status, now_us);
            let line = frame_line(after, outcome, status, len)->0;
            let packet = telemetry_of(frame)->Ok_0;
            let last = receiver.tracker.trusted->0;
            let past_us = now_us - receiver.tracker.trusted_us->0;
            &&& frame_line(after, outcome, status, len) is Some
            &&& named(line, "RADIO"@, "SEQ_SUSPICIOUS"@)
            &&& line.level is Warn
            &&& diag_tells(line, 0, "prev="@, last as int)
            &&& diag_tells(line, 1, "current="@, packet.sequence as int)
            &&& diag_tells(line, 2, "gap="@, packet.sequence - last)
            &&& diag_tells(line, 3, "elapsed_ms="@, past_us / 1_000)
            &&& diag_tells(line, 4, "expected="@, past_us / 1_000_000)
            &&& diag_tells(line, 5, "max="@, past_us / 1_000_000 + 5)
            &&& diag_tells(line, 6, "sender="@, packet.sender_system_id as int)
            &&& diag_tells(line, 7, "survey="@, packet.survey_id as int)
            &&& diag_tells(line, 8, "mode="@, packet.sender_mode as int)
            &&& diag_tells(line, 9, "rssi="@, status.rssi as int)
            &&& diag_tells(line, 10, "snr="@, status.snr as int)
        }),
{
    let outcome = frame_outcome(receiver, frame, now_us);
    let after = receiver_after(receiver, frame, status, now_us);
    law_leap_waits(receiver, frame, status, now_us);
    law_what_becomes_of_a_frame(receiver, frame, status, now_us);
    law_diag_details_read_back(frame_line(after, outcome, status, len)->0.detail);
}

/// A number that waited and is confirmed is logged, with the last one believed, itself, the one
/// that confirms it and how many are missing.
pub proof fn law_confirmed_leap_is_logged(
    receiver: Receiver,
    frame: Seq<u8>,
    status: PacketStatus,
    now_us: u64,
    len: u8,
)
    requires
        receiver.wf(),
        receiver.before(now_us),
        from_the_sender(frame),
        receiver.tracker.candidate is Some,
        number_of(frame) == receiver.tracker.candidate->0 + 1,
    ensures
        ({
            let outcome = frame_outcome(receiver, frame, now_us);
            let after = receiver_after(receiver, frame, status, now_us);
            let line = frame_line(after, outcome, status, len)->0;
            let last = receiver.tracker.trusted->0;
            &&& frame_line(after, outcome, status, len) is Some
            &&& named(line, "RADIO"@, "SEQ_RESYNC_CONFIRMED"@)
            &&& line.level is Info
            &&& diag_tells(line, 0, "prev="@, last as int)
            &&& diag_tells(line, 1, "candidate="@, receiver.tracker.candidate->0 as int)
            &&& diag_tells(line, 2, "current="@, number_of(frame))
            &&& diag_tells(line, 3, "missed="@, number_of(frame) - last - 2)
        }),
{
    let outcome = frame_outcome(receiver, frame, now_us);
    let after = receiver_after(receiver, frame, status, now_us);
    law_confirmed_leap_counts(receiver, frame, status, now_us);
    law_diag_details_read_back(frame_line(after, outcome, status, len)->0.detail);
}

/// A number that waited and is given up is logged before anything else of the packet that did away
/// with it: the number, the packet's and the last one believed.
pub proof fn law_given_up_leap_is_logged(
    receiver: Receiver,
    frame: Seq<u8>,
    status: PacketStatus,
    now_us: u64,
)
    requires
        receiver.wf(),
        receiver.before(now_us),
        from_the_sender(frame),
        receiver.tracker.candidate is Some,
        number_of(frame) != receiver.tracker.candidate->0,
        number_of(frame) != receiver.tracker.candidate->0 + 1,
    ensures
        ({
            let outcome = frame_outcome(receiver, frame, now_us);
            let line = given_up_line(outcome)->0;
            &&& given_up_line(outcome) is Some
            &&& named(line, "RADIO"@, "SEQ_CANDIDATE_NOT_CONFIRMED"@)
            &&& line.level is Debug
            &&& diag_tells(line, 0, "candidate="@, receiver.tracker.candidate->0 as int)
            &&& diag_tells(line, 1, "next="@, number_of(frame))
            &&& diag_tells(line, 2, "trusted_prev="@, receiver.tracker.trusted->0 as int)
        }),
{
    law_leap_is_given_up(receiver, frame, status, now_us);
    law_diag_details_read_back(
        given_up_line(frame_outcome(receiver, frame, now_us))->0.detail,
    );
}

/// A restart of the sender is logged, with the last number before it and the first behind it.
pub proof fn law_restart_is_logged(
    receiver: Receiver,
    frame: Seq<u8>,
    status: PacketStatus,
    now_us: u64,
    len: u8,
)
    requires
        receiver.wf(),
        receiver.before(now_us),
        from_the_sender(frame),
        receiver.tracker.trusted is Some,
        number_of(frame) < receiver.tracker.trusted->0,
        number_of(frame) <= 10,
    ensures
        ({
            let outcome = frame_outcome(receiver, frame, now_us);
            let after = receiver_after(receiver, frame, status, now_us);
            let line = frame_line(after, outcome, status, len)->0;
            &&& frame_line(after, outcome, status, len) is Some
            &&& named(line, "RADIO"@, "SEQ_RESET"@)
            &&& line.level is Info
            &&& diag_tells(line, 0, "prev="@, receiver.tracker.trusted->0 as int)
            &&& diag_tells(line, 1, "current="@, number_of(frame))
        }),
{
    let outcome = frame_outcome(receiver, frame, now_us);
    let after = receiver_after(receiver, frame, status, now_us);
    law_restart_of_the_sender(receiver, frame, status, now_us);
    law_diag_details_read_back(frame_line(after, outcome, status, len)->0.detail);
}

/// A number of before is a warning, with the last one believed, itself and how strong it was, and
/// so is one that waits and comes once more.
pub proof fn law_old_numbers_are_logged(
    receiver: Receiver,
    frame: Seq<u8>,
    status: PacketStatus,
    now_us: u64,
    len: u8,
)
    requires
        receiver.wf(),
        receiver.before(now_us),
        from_the_sender(frame),
        receiver.tracker.trusted is Some,
        ({
            ||| Some(telemetry_of(frame)->Ok_0.sequence) == receiver.tracker.candidate
            ||| receiver.tracker.candidate is None && 10 < number_of(frame)
                < receiver.tracker.trusted->0
        }),
    ensures
        ({
            let outcome = frame_outcome(receiver, frame, now_us);
            let after = receiver_after(receiver, frame, status, now_us);
            let line = frame_line(after, outcome, status, len)->0;
            &&& frame_line(after, outcome, status, len) is Some
            &&& line.level is Warn
            &&& receiver.tracker.candidate is Some ==> {
                &&& named(line, "RADIO"@, "SEQ_CANDIDATE_DUPLICATE"@)
                &&& diag_tells(line, 0, "seq="@, number_of(frame))
                &&& diag_tells(line, 1, "rssi="@, status.rssi as int)
                &&& diag_tells(line, 2, "snr="@, status.snr as int)
            }
            &&& receiver.tracker.candidate is None ==> {
                &&& named(line, "RADIO"@, "SEQ_BACKWARD"@)
                &&& diag_tells(line, 0, "prev="@, receiver.tracker.trusted->0 as int)
                &&& diag_tells(line, 1, "current="@, number_of(frame))
                &&& diag_tells(line, 2, "rssi="@, status.rssi as int)
                &&& diag_tells(line, 3, "snr="@, status.snr as int)
            }
            &&& frame_event_of(after, outcome, status) is None
        }),
{
    let outcome = frame_outcome(receiver, frame, now_us);
    let after = receiver_after(receiver, frame, status, now_us);
    law_old_numbers_count_nothing(receiver, frame, status, now_us);
    law_diag_details_read_back(frame_line(after, outcome, status, len)->0.detail);
}

/// The packet that ends an outage is an event, with its number, the milliseconds since the packet
/// before it and the moment of that one. A packet while the link was not lost is no event.
pub proof fn law_return_of_the_link_is_logged(
    receiver: Receiver,
    frame: Seq<u8>,
    status: PacketStatus,
    now_us: u64,
)
    requires
        receiver.wf(),
        receiver.before(now_us),
        frame_outcome(receiver, frame, now_us) is Accepted,
    ensures
        ({
            let outcome = frame_outcome(receiver, frame, now_us);
            let after = receiver_after(receiver, frame, status, now_us);
            let event = frame_event_of(after, outcome, status)->0;
            let last_us = receiver.last_valid_us->0;
            &&& frame_event_of(after, outcome, status) is Some <==> receiver.link_lost
            &&& receiver.link_lost ==> {
                &&& event.event_id@ == "LINK_REACQUIRED"@
                &&& event_tells(event, 0, "SEQ="@, number_of(frame))
                &&& event_tells(event, 1, "OUTAGE_MS="@, (now_us - last_us) / 1_000)
                &&& event_tells(event, 2, "PREV_LAST_RX_MONO_MS="@, last_us as int / 1_000)
            }
        }),
{
    let outcome = frame_outcome(receiver, frame, now_us);
    let after = receiver_after(receiver, frame, status, now_us);
    law_return_of_the_link_is_reported(receiver, frame, status, now_us);
    if receiver.link_lost {
        law_event_details_read_back(frame_event_of(after, outcome, status)->0.detail);
    }
}

/// The loss of the link is an event, with the number of the last packet, its moment and its age.
pub proof fn law_loss_of_the_link_is_logged(receiver: Receiver, now_us: u64)
    requires
        receiver.wf(),
        receiver.before(now_us),
        link_loss(receiver, now_us) is Some,
    ensures
        ({
            let event = loss_event_of(link_loss(receiver, now_us)->0);
            let last_us = receiver.last_valid_us->0;
            &&& event.event_id@ == "LINK_LOST"@
            &&& event_tells(event, 0, "LAST_SEQ="@, receiver.last_accepted->0 as int)
            &&& event_tells(event, 1, "LAST_RX_MONO_MS="@, last_us as int / 1_000)
            &&& event_tells(event, 2, "AGE_MS="@, (now_us - last_us) / 1_000)
        }),
{
    law_link_is_lost_after_five_seconds(receiver, now_us);
    law_event_details_read_back(loss_event_of(link_loss(receiver, now_us)->0).detail);
}

/// A reading of calendar time that does not follow on the last believed one is logged in both logs,
/// with what it says and where the last believed one stands. That time is known is logged once,
/// with the moment at which the clocks meet. Any other reading is not logged.
pub proof fn law_calendar_time_is_logged(verdict: UtcVerdict, reading: Reading, first_sync: bool)
    ensures
        ({
            let lines = utc_lines(verdict, reading, first_sync);
            let (event, line) = lines->0;
            &&& lines is Some <==> verdict is Rejected || verdict is Synchronized && first_sync
            &&& verdict matches UtcVerdict::Rejected(accepted) ==> {
                &&& event.event_id@ == "GPS_UTC_REJECTED"@
                &&& tells_text(event_detail_text(event.detail), ',', 0, "REASON=DISCONTINUITY"@)
                &&& event_tells(event, 1, "CANDIDATE_UTC_MS="@, reading.utc_ms as int)
                &&& event_tells(event, 2, "PREV_UTC_MS="@, accepted.utc_ms as int)
                &&& event_tells(event, 3, "PREV_MONO_MS="@, accepted.mono_ms as int)
                &&& named(line, "TIME"@, "GPS_UTC_REJECTED"@)
                &&& line.level is Warn
                &&& diag_tells(line, 0, "candidate_utc_ms="@, reading.utc_ms as int)
                &&& diag_tells(line, 1, "prev_utc_ms="@, accepted.utc_ms as int)
                &&& diag_tells(line, 2, "prev_mono_ms="@, accepted.mono_ms as int)
            }
            &&& verdict is Synchronized && first_sync ==> {
                &&& event.event_id@ == "TIME_SYNC"@
                &&& event_tells(event, 1, "UTC_ANCHOR_MS="@, reading.utc_ms as int)
                &&& event_tells(event, 2, "MONO_ANCHOR_MS="@, reading.mono_ms as int)
                &&& named(line, "TIME"@, "GPS_UTC_SYNC"@)
                &&& line.level is Info
                &&& diag_tells(line, 0, "utc_ms="@, reading.utc_ms as int)
                &&& diag_tells(line, 1, "mono_ms="@, reading.mono_ms as int)
            }
        }),
{
    let lines = utc_lines(verdict, reading, first_sync);
    if lines is Some {
        let (event, line) = lines->0;
        law_event_details_read_back(event.detail);
        law_diag_details_read_back(line.detail);
    }
}

/// A fix that comes is the event `GPS_FIX_ACQUIRED`, one that goes `GPS_FIX_LOST`, and neither has
/// details.
pub proof fn law_fix_is_logged(previous: GpsState, current: GpsState)
    requires
        previous.fix ==> previous.online,
    ensures
        ({
            let event = fix_event_of(previous, current);
            &&& !previous.fix && current.fix ==> event is Some && event->0.event_id@
                == "GPS_FIX_ACQUIRED"@
            &&& previous.fix && !current.fix ==> event is Some && event->0.event_id@
                == "GPS_FIX_LOST"@
            &&& previous.fix == current.fix ==> event is None
            &&& event is Some ==> event_detail_text(event->0.detail).len() == 0
        }),
{
    let event = fix_event_of(previous, current);
    if event is Some {
        law_event_details_read_back(event->0.detail);
    }
}

/// What storage makes of a packet tells the packet and how it was received: its moment, the
/// calendar time of that moment, its number, strength and distance from the noise, and the three
/// counts.
pub proof fn law_packet_line_tells(
    storage: Storage,
    mono_ms: u64,
    telemetry: TelemetryV1,
    rssi: i16,
    snr: i16,
    received: u32,
    missed: u32,
    app_crc_failures: u32,
    gps: GpsState,
)
    ensures
        ({
            let line = storage.packet_line(
                mono_ms,
                telemetry,
                rssi,
                snr,
                received,
                missed,
                app_crc_failures,
                gps,
            ).drop_last();
            &&& tells(line, ',', 0, "MONO_MS="@, Some(mono_ms as int))
            &&& tells(line, ',', 1, "UTC_MS="@, int_u64(utc_at(storage.utc_anchor, mono_ms)))
            &&& tells(line, ',', 2, "SEQ="@, Some(telemetry.sequence as int))
            &&& tells(line, ',', 6, "RSSI="@, Some(rssi as int))
            &&& tells(line, ',', 7, "SNR="@, Some(snr as int))
            &&& tells(line, ',', 8, "RX="@, Some(received as int))
            &&& tells(line, ',', 9, "MISSED="@, Some(missed as int))
            &&& tells(line, ',', 10, "APP_CRC_FAIL="@, Some(app_crc_failures as int))
            &&& tells(line, ',', 12, "LOCAL_LAT_E7="@, int_i32(gps.latitude_e7))
            &&& tells(line, ',', 15, "TX_LAT_E7="@, int_i32(telemetry.latitude_e7))
        }),
{
    law_rx_record_reads_back(
        mono_ms,
        utc_at(storage.utc_anchor, mono_ms),
        telemetry,
        rssi,
        snr,
        received,
        missed,
        app_crc_failures,
        gps,
    );
}

/// What storage makes of the own state tells it: its moment, the calendar time of that moment, the
/// position, the state of the link with the last packet's strength, and the three counts.
pub proof fn law_local_line_tells(
    storage: Storage,
    mono_ms: u64,
    gps: GpsState,
    link_up: bool,
    last_rssi: Option<i16>,
    last_snr: Option<i16>,
    received: u32,
    missed: u32,
    app_crc_failures: u32,
)
    ensures
        ({
            let line = storage.local_line(
                mono_ms,
                gps,
                link_up,
                last_rssi,
                last_snr,
                received,
                missed,
                app_crc_failures,
            ).drop_last();
            &&& tells(line, ',', 0, "MONO_MS="@, Some(mono_ms as int))
            &&& tells(line, ',', 1, "UTC_MS="@, int_u64(utc_at(storage.utc_anchor, mono_ms)))
            &&& tells(line, ',', 5, "LAT_E7="@, int_i32(gps.latitude_e7))
            &&& tells(
                line,
                ',',
                12,
                "LINK_UP="@,
                Some(
                    if link_up {
                        1int
                    } else {
                        0int
                    },
                ),
            )
            &&& tells(line, ',', 13, "LAST_RSSI="@, int_i16(last_rssi))
            &&& tells(line, ',', 14, "LAST_SNR="@, int_i16(last_snr))
            &&& tells(line, ',', 15, "RX="@, Some(received as int))
            &&& tells(line, ',', 16, "MISSED="@, Some(missed as int))
            &&& tells(line, ',', 17, "APP_CRC_FAIL="@, Some(app_crc_failures as int))
        }),
{
    law_local_record_reads_back(
        mono_ms,
        utc_at(storage.utc_anchor, mono_ms),
        gps,
        link_up,
        last_rssi,
        last_snr,
        received,
        missed,
        app_crc_failures,
    );
}

/// What storage makes of an event tells its moment, the calendar time of that moment, and the
/// event.
pub proof fn law_event_line_tells(
    storage: Storage,
    mono_ms: u64,
    event_id: Seq<char>,
    gps: GpsState,
    details: Seq<char>,
)
    requires
        free_of(event_id, ','),
    ensures
        ({
            let line = storage.event_line(mono_ms, event_id, gps, details).drop_last();
            &&& tells(line, ',', 0, "MONO_MS="@, Some(mono_ms as int))
            &&& tells(line, ',', 1, "UTC_MS="@, int_u64(utc_at(storage.utc_anchor, mono_ms)))
            &&& tells_text(line, ',', 2, "EVENT="@ + event_id)
            &&& tells(line, ',', 5, "LAT_E7="@, int_i32(gps.latitude_e7))
            &&& tells(line, ',', 6, "LON_E7="@, int_i32(gps.longitude_e7))
            &&& details.len() > 0 ==> split(line, ',').skip(7) == split(details, ',')
        }),
{
    law_event_lines_read_back(
        mono_ms,
        utc_at(storage.utc_anchor, mono_ms),
        event_id,
        gps,
        details,
    );
}

/// What storage makes of a diagnosis tells the calendar time of its moment, the moment, its level,
/// its origin and its event.
pub proof fn law_diag_line_tells(
    storage: Storage,
    level: PersistentLogLevel,
    uptime_ms: u64,
    originator: Seq<char>,
    event_id: Seq<char>,
    details: Seq<char>,
)
    requires
        free_of(originator, ' '),
        free_of(event_id, ' '),
    ensures
        ({
            let line = storage.diag_line(
                level,
                uptime_ms,
                originator,
                event_id,
                details,
            ).drop_last();
            &&& tells(line, ' ', 0, seq![], int_u64(utc_at(storage.utc_anchor, uptime_ms)))
            &&& tells(line, ' ', 2, seq![], Some(uptime_ms as int))
            &&& tells_text(line, ' ', 3, level.spec_label()@)
            &&& tells_text(line, ' ', 4, originator)
            &&& tells_text(line, ' ', 5, event_id)
            &&& details.len() > 0 ==> split(line, ' ').skip(6) == split(details, ' ')
        }),
{
    assert(free_of(level.spec_label()@, ' ')) by {
        reveal(free_of);
        reveal_strlit("ERROR");
        reveal_strlit("WARN");
        reveal_strlit("INFO");
        reveal_strlit("DEBUG");
        reveal_strlit("TRACE");
    }
    law_diag_lines_read_back(
        utc_at(storage.utc_anchor, uptime_ms),
        uptime_ms,
        level.spec_label()@,
        originator,
        event_id,
        details,
    );
}

} // verus!
