//! The lines of the logs.
use vstd::prelude::*;

use crate::digits::pow10;
use crate::format::{
    append_optional_i16, append_optional_i32, append_optional_u16, append_optional_u32,
    append_optional_u64, append_optional_u8, ascii_within, decimal, decimal_signed, flag, hex_fixed,
    lemma_ascii_bytes, lemma_ascii_sum, lemma_decimal_within, lemma_hex_within, lemma_number_sizes,
    lemma_signed_within, optional_i16, optional_i32, optional_u16, optional_u32, optional_u64,
    optional_u8, Line,
};
use crate::gps::GpsState;
use crate::packet::{DecodeError, TelemetryV1};
use crate::text::{byte_len, Text};

verus! {

/// The longest line of the diagnostic log.
pub const DEBUG_LINE_CAPACITY: usize = 320;

/// The longest line of the event log.
pub const EVENT_LINE_CAPACITY: usize = 512;

/// The longest line of the log of the own state.
pub const LOCAL_LINE_CAPACITY: usize = 640;

/// The longest line of the log of received packets.
pub const RX_LINE_CAPACITY: usize = 960;

/// What a diagnostic line says besides its event.
#[derive(Clone, Copy, Debug, PartialEq, Eq, Structural)]
pub enum DiagDetail {
    /// Nothing is added.
    Nothing,
    /// A part of the start went well.
    ResultOk,
    /// A reading of calendar time did not follow the last believed one.
    UtcRejected { candidate_utc_ms: u64, previous_utc_ms: u64, previous_mono_ms: u64 },
    /// Calendar time is known.
    UtcSync { utc_ms: u64, mono_ms: u64 },
    /// A frame had a wrong checksum.
    CrcFailed { count: u32, rssi: i16, snr: i16, stored_crc: u32, computed_crc: u32 },
    /// A frame was no telemetry packet.
    Rejected { len: u8, error: DecodeError, count: u32, rssi: i16, snr: i16 },
    /// A packet came from elsewhere.
    Foreign { sender: u64, survey: u32, sequence: u32, mode: u8, count: u32 },
    /// The candidate came once more.
    CandidateDuplicate { sequence: u32, rssi: i16, snr: i16 },
    /// The candidate was confirmed.
    Resync { previous: u32, candidate: u32, current: u32, missed: u32 },
    /// The candidate was given up.
    NotConfirmed { candidate: u32, next: u32, trusted: u32 },
    /// A number was too far ahead.
    Suspicious {
        previous: u32,
        current: u32,
        gap: u32,
        elapsed_ms: u64,
        expected_gap: u64,
        max_gap: u64,
        sender: u64,
        survey: u32,
        mode: u8,
        rssi: i16,
        snr: i16,
    },
    /// The sender started anew.
    Reset { previous: u32, current: u32 },
    /// A number was one of those before.
    Backward { previous: u32, current: u32, rssi: i16, snr: i16 },
    /// A record was written.
    Append { us: u64, bytes: u64 },
    /// The files of a survey were made durable, or could not be.
    Checkpoint { us: u64 },
}

/// The text of a detail in the diagnostic log.
pub open spec fn diag_detail_text(detail: DiagDetail) -> Seq<char> {
    match detail {
        DiagDetail::Nothing => Seq::empty(),
        DiagDetail::ResultOk => "result=OK"@,
        DiagDetail::UtcRejected { candidate_utc_ms, previous_utc_ms, previous_mono_ms } => {
            "candidate_utc_ms="@ + decimal(candidate_utc_ms as nat) + " prev_utc_ms="@
                + decimal(previous_utc_ms as nat) + " prev_mono_ms="@
                + decimal(previous_mono_ms as nat)
        },
        DiagDetail::UtcSync { utc_ms, mono_ms } => {
            "utc_ms="@ + decimal(utc_ms as nat) + " mono_ms="@ + decimal(mono_ms as nat)
                + " confirmed_samples=2"@
        },
        DiagDetail::CrcFailed { count, rssi, snr, stored_crc, computed_crc } => {
            "count="@ + decimal(count as nat) + " rssi="@ + decimal_signed(rssi as int) + " snr="@
                + decimal_signed(snr as int) + " stored_crc="@ + decimal(stored_crc as nat)
                + " computed_crc="@ + decimal(computed_crc as nat)
        },
        DiagDetail::Rejected { len, error, count, rssi, snr } => {
            "len="@ + decimal(len as nat) + " error="@ + error.spec_label()@ + " count="@
                + decimal(count as nat) + " rssi="@ + decimal_signed(rssi as int) + " snr="@
                + decimal_signed(snr as int)
        },
        DiagDetail::Foreign { sender, survey, sequence, mode, count } => {
            "sender="@ + decimal(sender as nat) + " survey="@ + decimal(survey as nat) + " seq="@
                + decimal(sequence as nat) + " mode="@ + decimal(mode as nat) + " count="@
                + decimal(count as nat)
        },
        DiagDetail::CandidateDuplicate { sequence, rssi, snr } => {
            "seq="@ + decimal(sequence as nat) + " rssi="@ + decimal_signed(rssi as int)
                + " snr="@ + decimal_signed(snr as int)
        },
        DiagDetail::Resync { previous, candidate, current, missed } => {
            "prev="@ + decimal(previous as nat) + " candidate="@ + decimal(candidate as nat)
                + " current="@ + decimal(current as nat) + " missed="@ + decimal(missed as nat)
        },
        DiagDetail::NotConfirmed { candidate, next, trusted } => {
            "candidate="@ + decimal(candidate as nat) + " next="@ + decimal(next as nat)
                + " trusted_prev="@ + decimal(trusted as nat)
        },
        DiagDetail::Suspicious {
            previous,
            current,
            gap,
            elapsed_ms,
            expected_gap,
            max_gap,
            sender,
            survey,
            mode,
            rssi,
            snr,
        } => {
            "prev="@ + decimal(previous as nat) + " current="@ + decimal(current as nat)
                + " gap="@ + decimal(gap as nat) + " elapsed_ms="@ + decimal(elapsed_ms as nat)
                + " expected="@ + decimal(expected_gap as nat) + " max="@
                + decimal(max_gap as nat) + " sender="@ + decimal(sender as nat) + " survey="@
                + decimal(survey as nat) + " mode="@ + decimal(mode as nat) + " rssi="@
                + decimal_signed(rssi as int) + " snr="@ + decimal_signed(snr as int)
                + " app_crc=OK"@
        },
        DiagDetail::Reset { previous, current } => {
            "prev="@ + decimal(previous as nat) + " current="@ + decimal(current as nat)
        },
        DiagDetail::Backward { previous, current, rssi, snr } => {
            "prev="@ + decimal(previous as nat) + " current="@ + decimal(current as nat)
                + " rssi="@ + decimal_signed(rssi as int) + " snr="@ + decimal_signed(snr as int)
        },
        DiagDetail::Append { us, bytes } => {
            "us="@ + decimal(us as nat) + " bytes="@ + decimal(bytes as nat)
        },
        DiagDetail::Checkpoint { us } => "us="@ + decimal(us as nat),
    }
}

/// The text of a detail, where it fits a line.
pub fn render_diag_detail(detail: DiagDetail) -> (text: Option<Text<DEBUG_LINE_CAPACITY>>)
    ensures
        text is Some <==> byte_len(diag_detail_text(detail)) <= DEBUG_LINE_CAPACITY,
        text matches Some(line) ==> line@ == diag_detail_text(detail),
{
    let mut line: Line<DEBUG_LINE_CAPACITY>;
    match detail {
        DiagDetail::Nothing => {
            line = Line::start("");
            proof {
                reveal_strlit("");
                assert(line@ =~= Seq::<char>::empty());
            }
        },
        DiagDetail::ResultOk => {
            line = Line::start("result=OK");
        },
        DiagDetail::UtcRejected { candidate_utc_ms, previous_utc_ms, previous_mono_ms } => {
            line = Line::start("candidate_utc_ms=");
            line.add_u64(candidate_utc_ms);
            line.add_str(" prev_utc_ms=");
            line.add_u64(previous_utc_ms);
            line.add_str(" prev_mono_ms=");
            line.add_u64(previous_mono_ms);
        },
        DiagDetail::UtcSync { utc_ms, mono_ms } => {
            line = Line::start("utc_ms=");
            line.add_u64(utc_ms);
            line.add_str(" mono_ms=");
            line.add_u64(mono_ms);
            line.add_str(" confirmed_samples=2");
        },
        DiagDetail::CrcFailed { count, rssi, snr, stored_crc, computed_crc } => {
            line = Line::start("count=");
            line.add_u64(count as u64);
            line.add_str(" rssi=");
            line.add_i64(rssi as i64);
            line.add_str(" snr=");
            line.add_i64(snr as i64);
            line.add_str(" stored_crc=");
            line.add_u64(stored_crc as u64);
            line.add_str(" computed_crc=");
            line.add_u64(computed_crc as u64);
        },
        DiagDetail::Rejected { len, error, count, rssi, snr } => {
            line = Line::start("len=");
            line.add_u64(len as u64);
            line.add_str(" error=");
            line.add_str(error.label());
            line.add_str(" count=");
            line.add_u64(count as u64);
            line.add_str(" rssi=");
            line.add_i64(rssi as i64);
            line.add_str(" snr=");
            line.add_i64(snr as i64);
        },
        DiagDetail::Foreign { sender, survey, sequence, mode, count } => {
            line = Line::start("sender=");
            line.add_u64(sender);
            line.add_str(" survey=");
            line.add_u64(survey as u64);
            line.add_str(" seq=");
            line.add_u64(sequence as u64);
            line.add_str(" mode=");
            line.add_u64(mode as u64);
            line.add_str(" count=");
            line.add_u64(count as u64);
        },
        DiagDetail::CandidateDuplicate { sequence, rssi, snr } => {
            line = Line::start("seq=");
            line.add_u64(sequence as u64);
            line.add_str(" rssi=");
            line.add_i64(rssi as i64);
            line.add_str(" snr=");
            line.add_i64(snr as i64);
        },
        DiagDetail::Resync { previous, candidate, current, missed } => {
            line = Line::start("prev=");
            line.add_u64(previous as u64);
            line.add_str(" candidate=");
            line.add_u64(candidate as u64);
            line.add_str(" current=");
            line.add_u64(current as u64);
            line.add_str(" missed=");
            line.add_u64(missed as u64);
        },
        DiagDetail::NotConfirmed { candidate, next, trusted } => {
            line = Line::start("candidate=");
            line.add_u64(candidate as u64);
            line.add_str(" next=");
            line.add_u64(next as u64);
            line.add_str(" trusted_prev=");
            line.add_u64(trusted as u64);
        },
        DiagDetail::Suspicious {
            previous,
            current,
            gap,
            elapsed_ms,
            expected_gap,
            max_gap,
            sender,
            survey,
            mode,
            rssi,
            snr,
        } => {
            line = Line::start("prev=");
            line.add_u64(previous as u64);
            line.add_str(" current=");
            line.add_u64(current as u64);
            line.add_str(" gap=");
            line.add_u64(gap as u64);
            line.add_str(" elapsed_ms=");
            line.add_u64(elapsed_ms);
            line.add_str(" expected=");
            line.add_u64(expected_gap);
            line.add_str(" max=");
            line.add_u64(max_gap);
            line.add_str(" sender=");
            line.add_u64(sender);
            line.add_str(" survey=");
            line.add_u64(survey as u64);
            line.add_str(" mode=");
            line.add_u64(mode as u64);
            line.add_str(" rssi=");
            line.add_i64(rssi as i64);
            line.add_str(" snr=");
            line.add_i64(snr as i64);
            line.add_str(" app_crc=OK");
        },
        DiagDetail::Reset { previous, current } => {
            line = Line::start("prev=");
            line.add_u64(previous as u64);
            line.add_str(" current=");
            line.add_u64(current as u64);
        },
        DiagDetail::Backward { previous, current, rssi, snr } => {
            line = Line::start("prev=");
            line.add_u64(previous as u64);
            line.add_str(" current=");
            line.add_u64(current as u64);
            line.add_str(" rssi=");
            line.add_i64(rssi as i64);
            line.add_str(" snr=");
            line.add_i64(snr as i64);
        },
        DiagDetail::Append { us, bytes } => {
            line = Line::start("us=");
            line.add_u64(us);
            line.add_str(" bytes=");
            line.add_u64(bytes);
        },
        DiagDetail::Checkpoint { us } => {
            line = Line::start("us=");
            line.add_u64(us);
        },
    }
    line.finish()
}

/// What a line of the event log says besides its event.
#[derive(Clone, Copy, Debug, PartialEq, Eq, Structural)]
pub enum EventDetail {
    /// Nothing is added.
    Nothing,
    /// A reading of calendar time did not follow the last believed one.
    UtcRejected { candidate_utc_ms: u64, previous_utc_ms: u64, previous_mono_ms: u64 },
    /// Calendar time is known.
    TimeSync { utc_ms: u64, mono_ms: u64 },
    /// A frame had a wrong checksum.
    CrcFailed { count: u32, rssi: i16, snr: i16, stored_crc: u32, computed_crc: u32 },
    /// The link is back.
    LinkReacquired { sequence: u32, outage_ms: u64, previous_rx_mono_ms: u64 },
    /// The link is lost.
    LinkLost { last_sequence: u32, last_rx_mono_ms: u64, age_ms: u64 },
}

/// The text of a detail in the event log.
pub open spec fn event_detail_text(detail: EventDetail) -> Seq<char> {
    match detail {
        EventDetail::Nothing => Seq::empty(),
        EventDetail::UtcRejected { candidate_utc_ms, previous_utc_ms, previous_mono_ms } => {
            "REASON=DISCONTINUITY,CANDIDATE_UTC_MS="@ + decimal(candidate_utc_ms as nat)
                + ",PREV_UTC_MS="@ + decimal(previous_utc_ms as nat) + ",PREV_MONO_MS="@
                + decimal(previous_mono_ms as nat)
        },
        EventDetail::TimeSync { utc_ms, mono_ms } => {
            "SOURCE=GPS_RMC_CONFIRMED,UTC_ANCHOR_MS="@ + decimal(utc_ms as nat)
                + ",MONO_ANCHOR_MS="@ + decimal(mono_ms as nat) + ",CONFIRMED_SAMPLES=2"@
        },
        EventDetail::CrcFailed { count, rssi, snr, stored_crc, computed_crc } => {
            "COUNT="@ + decimal(count as nat) + ",RSSI="@ + decimal_signed(rssi as int) + ",SNR="@
                + decimal_signed(snr as int) + ",STORED_CRC="@ + decimal(stored_crc as nat)
                + ",COMPUTED_CRC="@ + decimal(computed_crc as nat)
        },
        EventDetail::LinkReacquired { sequence, outage_ms, previous_rx_mono_ms } => {
            "SEQ="@ + decimal(sequence as nat) + ",OUTAGE_MS="@ + decimal(outage_ms as nat)
                + ",PREV_LAST_RX_MONO_MS="@ + decimal(previous_rx_mono_ms as nat)
        },
        EventDetail::LinkLost { last_sequence, last_rx_mono_ms, age_ms } => {
            "LAST_SEQ="@ + decimal(last_sequence as nat) + ",LAST_RX_MONO_MS="@
                + decimal(last_rx_mono_ms as nat) + ",AGE_MS="@ + decimal(age_ms as nat)
        },
    }
}

/// The text of a detail, where it fits a line.
pub fn render_event_detail(detail: EventDetail) -> (text: Option<Text<EVENT_LINE_CAPACITY>>)
    ensures
        text is Some <==> byte_len(event_detail_text(detail)) <= EVENT_LINE_CAPACITY,
        text matches Some(line) ==> line@ == event_detail_text(detail),
{
    let mut line: Line<EVENT_LINE_CAPACITY>;
    match detail {
        EventDetail::Nothing => {
            line = Line::start("");
            proof {
                reveal_strlit("");
                assert(line@ =~= Seq::<char>::empty());
            }
        },
        EventDetail::UtcRejected { candidate_utc_ms, previous_utc_ms, previous_mono_ms } => {
            line = Line::start("REASON=DISCONTINUITY,CANDIDATE_UTC_MS=");
            line.add_u64(candidate_utc_ms);
            line.add_str(",PREV_UTC_MS=");
            line.add_u64(previous_utc_ms);
            line.add_str(",PREV_MONO_MS=");
            line.add_u64(previous_mono_ms);
        },
        EventDetail::TimeSync { utc_ms, mono_ms } => {
            line = Line::start("SOURCE=GPS_RMC_CONFIRMED,UTC_ANCHOR_MS=");
            line.add_u64(utc_ms);
            line.add_str(",MONO_ANCHOR_MS=");
            line.add_u64(mono_ms);
            line.add_str(",CONFIRMED_SAMPLES=2");
        },
        EventDetail::CrcFailed { count, rssi, snr, stored_crc, computed_crc } => {
            line = Line::start("COUNT=");
            line.add_u64(count as u64);
            line.add_str(",RSSI=");
            line.add_i64(rssi as i64);
            line.add_str(",SNR=");
            line.add_i64(snr as i64);
            line.add_str(",STORED_CRC=");
            line.add_u64(stored_crc as u64);
            line.add_str(",COMPUTED_CRC=");
            line.add_u64(computed_crc as u64);
        },
        EventDetail::LinkReacquired { sequence, outage_ms, previous_rx_mono_ms } => {
            line = Line::start("SEQ=");
            line.add_u64(sequence as u64);
            line.add_str(",OUTAGE_MS=");
            line.add_u64(outage_ms);
            line.add_str(",PREV_LAST_RX_MONO_MS=");
            line.add_u64(previous_rx_mono_ms);
        },
        EventDetail::LinkLost { last_sequence, last_rx_mono_ms, age_ms } => {
            line = Line::start("LAST_SEQ=");
            line.add_u64(last_sequence as u64);
            line.add_str(",LAST_RX_MONO_MS=");
            line.add_u64(last_rx_mono_ms);
            line.add_str(",AGE_MS=");
            line.add_u64(age_ms);
        },
    }
    line.finish()
}

proof fn lemma_label_within(error: DecodeError)
    ensures
        ascii_within(error.spec_label()@, 23),
{
    reveal_strlit("WRONG_LENGTH");
    reveal_strlit("BAD_MARKER");
    reveal_strlit("UNSUPPORTED_VERSION");
    reveal_strlit("UNSUPPORTED_PACKET_TYPE");
    reveal_strlit("CRC_MISMATCH");
    reveal_strlit("INVALID_FIELD");
}

/// The details of the diagnostic log are short.
pub proof fn lemma_diag_detail_within(detail: DiagDetail)
    ensures
        ascii_within(diag_detail_text(detail), 225),
{
    lemma_number_sizes();
    match detail {
        DiagDetail::Nothing => {},
        DiagDetail::ResultOk => {
            reveal_strlit("result=OK");
            let s = "result=OK"@;
        },
        DiagDetail::UtcRejected { candidate_utc_ms, previous_utc_ms, previous_mono_ms } => {
            reveal_strlit("candidate_utc_ms=");
            let s = "candidate_utc_ms="@;
            lemma_decimal_within(candidate_utc_ms as nat, 20);
            lemma_ascii_sum(s, 17, decimal(candidate_utc_ms as nat), 20);
            let s = s + decimal(candidate_utc_ms as nat);
            reveal_strlit(" prev_utc_ms=");
            lemma_ascii_sum(s, 37, " prev_utc_ms="@, 13);
            let s = s + " prev_utc_ms="@;
            lemma_decimal_within(previous_utc_ms as nat, 20);
            lemma_ascii_sum(s, 50, decimal(previous_utc_ms as nat), 20);
            let s = s + decimal(previous_utc_ms as nat);
            reveal_strlit(" prev_mono_ms=");
            lemma_ascii_sum(s, 70, " prev_mono_ms="@, 14);
            let s = s + " prev_mono_ms="@;
            lemma_decimal_within(previous_mono_ms as nat, 20);
            lemma_ascii_sum(s, 84, decimal(previous_mono_ms as nat), 20);
            let s = s + decimal(previous_mono_ms as nat);
        },
        DiagDetail::UtcSync { utc_ms, mono_ms } => {
            reveal_strlit("utc_ms=");
            let s = "utc_ms="@;
            lemma_decimal_within(utc_ms as nat, 20);
            lemma_ascii_sum(s, 7, decimal(utc_ms as nat), 20);
            let s = s + decimal(utc_ms as nat);
            reveal_strlit(" mono_ms=");
            lemma_ascii_sum(s, 27, " mono_ms="@, 9);
            let s = s + " mono_ms="@;
            lemma_decimal_within(mono_ms as nat, 20);
            lemma_ascii_sum(s, 36, decimal(mono_ms as nat), 20);
            let s = s + decimal(mono_ms as nat);
            reveal_strlit(" confirmed_samples=2");
            lemma_ascii_sum(s, 56, " confirmed_samples=2"@, 20);
            let s = s + " confirmed_samples=2"@;
        },
        DiagDetail::CrcFailed { count, rssi, snr, stored_crc, computed_crc } => {
            reveal_strlit("count=");
            let s = "count="@;
            lemma_decimal_within(count as nat, 10);
            lemma_ascii_sum(s, 6, decimal(count as nat), 10);
            let s = s + decimal(count as nat);
            reveal_strlit(" rssi=");
            lemma_ascii_sum(s, 16, " rssi="@, 6);
            let s = s + " rssi="@;
            lemma_signed_within(rssi as int, 5);
            lemma_ascii_sum(s, 22, decimal_signed(rssi as int), 6);
            let s = s + decimal_signed(rssi as int);
            reveal_strlit(" snr=");
            lemma_ascii_sum(s, 28, " snr="@, 5);
            let s = s + " snr="@;
            lemma_signed_within(snr as int, 5);
            lemma_ascii_sum(s, 33, decimal_signed(snr as int), 6);
            let s = s + decimal_signed(snr as int);
            reveal_strlit(" stored_crc=");
            lemma_ascii_sum(s, 39, " stored_crc="@, 12);
            let s = s + " stored_crc="@;
            lemma_decimal_within(stored_crc as nat, 10);
            lemma_ascii_sum(s, 51, decimal(stored_crc as nat), 10);
            let s = s + decimal(stored_crc as nat);
            reveal_strlit(" computed_crc=");
            lemma_ascii_sum(s, 61, " computed_crc="@, 14);
            let s = s + " computed_crc="@;
            lemma_decimal_within(computed_crc as nat, 10);
            lemma_ascii_sum(s, 75, decimal(computed_crc as nat), 10);
            let s = s + decimal(computed_crc as nat);
        },
        DiagDetail::Rejected { len, error, count, rssi, snr } => {
            reveal_strlit("len=");
            let s = "len="@;
            lemma_decimal_within(len as nat, 3);
            lemma_ascii_sum(s, 4, decimal(len as nat), 3);
            let s = s + decimal(len as nat);
            reveal_strlit(" error=");
            lemma_ascii_sum(s, 7, " error="@, 7);
            let s = s + " error="@;
            lemma_label_within(error);
            lemma_ascii_sum(s, 14, error.spec_label()@, 23);
            let s = s + error.spec_label()@;
            reveal_strlit(" count=");
            lemma_ascii_sum(s, 37, " count="@, 7);
            let s = s + " count="@;
            lemma_decimal_within(count as nat, 10);
            lemma_ascii_sum(s, 44, decimal(count as nat), 10);
            let s = s + decimal(count as nat);
            reveal_strlit(" rssi=");
            lemma_ascii_sum(s, 54, " rssi="@, 6);
            let s = s + " rssi="@;
            lemma_signed_within(rssi as int, 5);
            lemma_ascii_sum(s, 60, decimal_signed(rssi as int), 6);
            let s = s + decimal_signed(rssi as int);
            reveal_strlit(" snr=");
            lemma_ascii_sum(s, 66, " snr="@, 5);
            let s = s + " snr="@;
            lemma_signed_within(snr as int, 5);
            lemma_ascii_sum(s, 71, decimal_signed(snr as int), 6);
            let s = s + decimal_signed(snr as int);
        },
        DiagDetail::Foreign { sender, survey, sequence, mode, count } => {
            reveal_strlit("sender=");
            let s = "sender="@;
            lemma_decimal_within(sender as nat, 20);
            lemma_ascii_sum(s, 7, decimal(sender as nat), 20);
            let s = s + decimal(sender as nat);
            reveal_strlit(" survey=");
            lemma_ascii_sum(s, 27, " survey="@, 8);
            let s = s + " survey="@;
            lemma_decimal_within(survey as nat, 10);
            lemma_ascii_sum(s, 35, decimal(survey as nat), 10);
            let s = s + decimal(survey as nat);
            reveal_strlit(" seq=");
            lemma_ascii_sum(s, 45, " seq="@, 5);
            let s = s + " seq="@;
            lemma_decimal_within(sequence as nat, 10);
            lemma_ascii_sum(s, 50, decimal(sequence as nat), 10);
            let s = s + decimal(sequence as nat);
            reveal_strlit(" mode=");
            lemma_ascii_sum(s, 60, " mode="@, 6);
            let s = s + " mode="@;
            lemma_decimal_within(mode as nat, 3);
            lemma_ascii_sum(s, 66, decimal(mode as nat), 3);
            let s = s + decimal(mode as nat);
            reveal_strlit(" count=");
            lemma_ascii_sum(s, 69, " count="@, 7);
            let s = s + " count="@;
            lemma_decimal_within(count as nat, 10);
            lemma_ascii_sum(s, 76, decimal(count as nat), 10);
            let s = s + decimal(count as nat);
        },
        DiagDetail::CandidateDuplicate { sequence, rssi, snr } => {
            reveal_strlit("seq=");
            let s = "seq="@;
            lemma_decimal_within(sequence as nat, 10);
            lemma_ascii_sum(s, 4, decimal(sequence as nat), 10);
            let s = s + decimal(sequence as nat);
            reveal_strlit(" rssi=");
            lemma_ascii_sum(s, 14, " rssi="@, 6);
            let s = s + " rssi="@;
            lemma_signed_within(rssi as int, 5);
            lemma_ascii_sum(s, 20, decimal_signed(rssi as int), 6);
            let s = s + decimal_signed(rssi as int);
            reveal_strlit(" snr=");
            lemma_ascii_sum(s, 26, " snr="@, 5);
            let s = s + " snr="@;
            lemma_signed_within(snr as int, 5);
            lemma_ascii_sum(s, 31, decimal_signed(snr as int), 6);
            let s = s + decimal_signed(snr as int);
        },
        DiagDetail::Resync { previous, candidate, current, missed } => {
            reveal_strlit("prev=");
            let s = "prev="@;
            lemma_decimal_within(previous as nat, 10);
            lemma_ascii_sum(s, 5, decimal(previous as nat), 10);
            let s = s + decimal(previous as nat);
            reveal_strlit(" candidate=");
            lemma_ascii_sum(s, 15, " candidate="@, 11);
            let s = s + " candidate="@;
            lemma_decimal_within(candidate as nat, 10);
            lemma_ascii_sum(s, 26, decimal(candidate as nat), 10);
            let s = s + decimal(candidate as nat);
            reveal_strlit(" current=");
            lemma_ascii_sum(s, 36, " current="@, 9);
            let s = s + " current="@;
            lemma_decimal_within(current as nat, 10);
            lemma_ascii_sum(s, 45, decimal(current as nat), 10);
            let s = s + decimal(current as nat);
            reveal_strlit(" missed=");
            lemma_ascii_sum(s, 55, " missed="@, 8);
            let s = s + " missed="@;
            lemma_decimal_within(missed as nat, 10);
            lemma_ascii_sum(s, 63, decimal(missed as nat), 10);
            let s = s + decimal(missed as nat);
        },
        DiagDetail::NotConfirmed { candidate, next, trusted } => {
            reveal_strlit("candidate=");
            let s = "candidate="@;
            lemma_decimal_within(candidate as nat, 10);
            lemma_ascii_sum(s, 10, decimal(candidate as nat), 10);
            let s = s + decimal(candidate as nat);
            reveal_strlit(" next=");
            lemma_ascii_sum(s, 20, " next="@, 6);
            let s = s + " next="@;
            lemma_decimal_within(next as nat, 10);
            lemma_ascii_sum(s, 26, decimal(next as nat), 10);
            let s = s + decimal(next as nat);
            reveal_strlit(" trusted_prev=");
            lemma_ascii_sum(s, 36, " trusted_prev="@, 14);
            let s = s + " trusted_prev="@;
            lemma_decimal_within(trusted as nat, 10);
            lemma_ascii_sum(s, 50, decimal(trusted as nat), 10);
            let s = s + decimal(trusted as nat);
        },
        DiagDetail::Suspicious {
            previous,
            current,
            gap,
            elapsed_ms,
            expected_gap,
            max_gap,
            sender,
            survey,
            mode,
            rssi,
            snr,
        } => {
            reveal_strlit("prev=");
            let s = "prev="@;
            lemma_decimal_within(previous as nat, 10);
            lemma_ascii_sum(s, 5, decimal(previous as nat), 10);
            let s = s + decimal(previous as nat);
            reveal_strlit(" current=");
            lemma_ascii_sum(s, 15, " current="@, 9);
            let s = s + " current="@;
            lemma_decimal_within(current as nat, 10);
            lemma_ascii_sum(s, 24, decimal(current as nat), 10);
            let s = s + decimal(current as nat);
            reveal_strlit(" gap=");
            lemma_ascii_sum(s, 34, " gap="@, 5);
            let s = s + " gap="@;
            lemma_decimal_within(gap as nat, 10);
            lemma_ascii_sum(s, 39, decimal(gap as nat), 10);
            let s = s + decimal(gap as nat);
            reveal_strlit(" elapsed_ms=");
            lemma_ascii_sum(s, 49, " elapsed_ms="@, 12);
            let s = s + " elapsed_ms="@;
            lemma_decimal_within(elapsed_ms as nat, 20);
            lemma_ascii_sum(s, 61, decimal(elapsed_ms as nat), 20);
            let s = s + decimal(elapsed_ms as nat);
            reveal_strlit(" expected=");
            lemma_ascii_sum(s, 81, " expected="@, 10);
            let s = s + " expected="@;
            lemma_decimal_within(expected_gap as nat, 20);
            lemma_ascii_sum(s, 91, decimal(expected_gap as nat), 20);
            let s = s + decimal(expected_gap as nat);
            reveal_strlit(" max=");
            lemma_ascii_sum(s, 111, " max="@, 5);
            let s = s + " max="@;
            lemma_decimal_within(max_gap as nat, 20);
            lemma_ascii_sum(s, 116, decimal(max_gap as nat), 20);
            let s = s + decimal(max_gap as nat);
            reveal_strlit(" sender=");
            lemma_ascii_sum(s, 136, " sender="@, 8);
            let s = s + " sender="@;
            lemma_decimal_within(sender as nat, 20);
            lemma_ascii_sum(s, 144, decimal(sender as nat), 20);
            let s = s + decimal(sender as nat);
            reveal_strlit(" survey=");
            lemma_ascii_sum(s, 164, " survey="@, 8);
            let s = s + " survey="@;
            lemma_decimal_within(survey as nat, 10);
            lemma_ascii_sum(s, 172, decimal(survey as nat), 10);
            let s = s + decimal(survey as nat);
            reveal_strlit(" mode=");
            lemma_ascii_sum(s, 182, " mode="@, 6);
            let s = s + " mode="@;
            lemma_decimal_within(mode as nat, 3);
            lemma_ascii_sum(s, 188, decimal(mode as nat), 3);
            let s = s + decimal(mode as nat);
            reveal_strlit(" rssi=");
            lemma_ascii_sum(s, 191, " rssi="@, 6);
            let s = s + " rssi="@;
            lemma_signed_within(rssi as int, 5);
            lemma_ascii_sum(s, 197, decimal_signed(rssi as int), 6);
            let s = s + decimal_signed(rssi as int);
            reveal_strlit(" snr=");
            lemma_ascii_sum(s, 203, " snr="@, 5);
            let s = s + " snr="@;
            lemma_signed_within(snr as int, 5);
            lemma_ascii_sum(s, 208, decimal_signed(snr as int), 6);
            let s = s + decimal_signed(snr as int);
            reveal_strlit(" app_crc=OK");
            lemma_ascii_sum(s, 214, " app_crc=OK"@, 11);
            let s = s + " app_crc=OK"@;
        },
        DiagDetail::Reset { previous, current } => {
            reveal_strlit("prev=");
            let s = "prev="@;
            lemma_decimal_within(previous as nat, 10);
            lemma_ascii_sum(s, 5, decimal(previous as nat), 10);
            let s = s + decimal(previous as nat);
            reveal_strlit(" current=");
            lemma_ascii_sum(s, 15, " current="@, 9);
            let s = s + " current="@;
            lemma_decimal_within(current as nat, 10);
            lemma_ascii_sum(s, 24, decimal(current as nat), 10);
            let s = s + decimal(current as nat);
        },
        DiagDetail::Backward { previous, current, rssi, snr } => {
            reveal_strlit("prev=");
            let s = "prev="@;
            lemma_decimal_within(previous as nat, 10);
            lemma_ascii_sum(s, 5, decimal(previous as nat), 10);
            let s = s + decimal(previous as nat);
            reveal_strlit(" current=");
            lemma_ascii_sum(s, 15, " current="@, 9);
            let s = s + " current="@;
            lemma_decimal_within(current as nat, 10);
            lemma_ascii_sum(s, 24, decimal(current as nat), 10);
            let s = s + decimal(current as nat);
            reveal_strlit(" rssi=");
            lemma_ascii_sum(s, 34, " rssi="@, 6);
            let s = s + " rssi="@;
            lemma_signed_within(rssi as int, 5);
            lemma_ascii_sum(s, 40, decimal_signed(rssi as int), 6);
            let s = s + decimal_signed(rssi as int);
            reveal_strlit(" snr=");
            lemma_ascii_sum(s, 46, " snr="@, 5);
            let s = s + " snr="@;
            lemma_signed_within(snr as int, 5);
            lemma_ascii_sum(s, 51, decimal_signed(snr as int), 6);
            let s = s + decimal_signed(snr as int);
        },
        DiagDetail::Append { us, bytes } => {
            reveal_strlit("us=");
            let s = "us="@;
            lemma_decimal_within(us as nat, 20);
            lemma_ascii_sum(s, 3, decimal(us as nat), 20);
            let s = s + decimal(us as nat);
            reveal_strlit(" bytes=");
            lemma_ascii_sum(s, 23, " bytes="@, 7);
            let s = s + " bytes="@;
            lemma_decimal_within(bytes as nat, 20);
            lemma_ascii_sum(s, 30, decimal(bytes as nat), 20);
            let s = s + decimal(bytes as nat);
        },
        DiagDetail::Checkpoint { us } => {
            reveal_strlit("us=");
            let s = "us="@;
            lemma_decimal_within(us as nat, 20);
            lemma_ascii_sum(s, 3, decimal(us as nat), 20);
            let s = s + decimal(us as nat);
        },
    }
}

/// The details of the event log are short.
pub proof fn lemma_event_detail_within(detail: EventDetail)
    ensures
        ascii_within(event_detail_text(detail), 125),
{
    lemma_number_sizes();
    match detail {
        EventDetail::Nothing => {},
        EventDetail::UtcRejected { candidate_utc_ms, previous_utc_ms, previous_mono_ms } => {
            reveal_strlit("REASON=DISCONTINUITY,CANDIDATE_UTC_MS=");
            let s = "REASON=DISCONTINUITY,CANDIDATE_UTC_MS="@;
            lemma_decimal_within(candidate_utc_ms as nat, 20);
            lemma_ascii_sum(s, 38, decimal(candidate_utc_ms as nat), 20);
            let s = s + decimal(candidate_utc_ms as nat);
            reveal_strlit(",PREV_UTC_MS=");
            lemma_ascii_sum(s, 58, ",PREV_UTC_MS="@, 13);
            let s = s + ",PREV_UTC_MS="@;
            lemma_decimal_within(previous_utc_ms as nat, 20);
            lemma_ascii_sum(s, 71, decimal(previous_utc_ms as nat), 20);
            let s = s + decimal(previous_utc_ms as nat);
            reveal_strlit(",PREV_MONO_MS=");
            lemma_ascii_sum(s, 91, ",PREV_MONO_MS="@, 14);
            let s = s + ",PREV_MONO_MS="@;
            lemma_decimal_within(previous_mono_ms as nat, 20);
            lemma_ascii_sum(s, 105, decimal(previous_mono_ms as nat), 20);
            let s = s + decimal(previous_mono_ms as nat);
        },
        EventDetail::TimeSync { utc_ms, mono_ms } => {
            reveal_strlit("SOURCE=GPS_RMC_CONFIRMED,UTC_ANCHOR_MS=");
            let s = "SOURCE=GPS_RMC_CONFIRMED,UTC_ANCHOR_MS="@;
            lemma_decimal_within(utc_ms as nat, 20);
            lemma_ascii_sum(s, 39, decimal(utc_ms as nat), 20);
            let s = s + decimal(utc_ms as nat);
            reveal_strlit(",MONO_ANCHOR_MS=");
            lemma_ascii_sum(s, 59, ",MONO_ANCHOR_MS="@, 16);
            let s = s + ",MONO_ANCHOR_MS="@;
            lemma_decimal_within(mono_ms as nat, 20);
            lemma_ascii_sum(s, 75, decimal(mono_ms as nat), 20);
            let s = s + decimal(mono_ms as nat);
            reveal_strlit(",CONFIRMED_SAMPLES=2");
            lemma_ascii_sum(s, 95, ",CONFIRMED_SAMPLES=2"@, 20);
            let s = s + ",CONFIRMED_SAMPLES=2"@;
        },
        EventDetail::CrcFailed { count, rssi, snr, stored_crc, computed_crc } => {
            reveal_strlit("COUNT=");
            let s = "COUNT="@;
            lemma_decimal_within(count as nat, 10);
            lemma_ascii_sum(s, 6, decimal(count as nat), 10);
            let s = s + decimal(count as nat);
            reveal_strlit(",RSSI=");
            lemma_ascii_sum(s, 16, ",RSSI="@, 6);
            let s = s + ",RSSI="@;
            lemma_signed_within(rssi as int, 5);
            lemma_ascii_sum(s, 22, decimal_signed(rssi as int), 6);
            let s = s + decimal_signed(rssi as int);
            reveal_strlit(",SNR=");
            lemma_ascii_sum(s, 28, ",SNR="@, 5);
            let s = s + ",SNR="@;
            lemma_signed_within(snr as int, 5);
            lemma_ascii_sum(s, 33, decimal_signed(snr as int), 6);
            let s = s + decimal_signed(snr as int);
            reveal_strlit(",STORED_CRC=");
            lemma_ascii_sum(s, 39, ",STORED_CRC="@, 12);
            let s = s + ",STORED_CRC="@;
            lemma_decimal_within(stored_crc as nat, 10);
            lemma_ascii_sum(s, 51, decimal(stored_crc as nat), 10);
            let s = s + decimal(stored_crc as nat);
            reveal_strlit(",COMPUTED_CRC=");
            lemma_ascii_sum(s, 61, ",COMPUTED_CRC="@, 14);
            let s = s + ",COMPUTED_CRC="@;
            lemma_decimal_within(computed_crc as nat, 10);
            lemma_ascii_sum(s, 75, decimal(computed_crc as nat), 10);
            let s = s + decimal(computed_crc as nat);
        },
        EventDetail::LinkReacquired { sequence, outage_ms, previous_rx_mono_ms } => {
            reveal_strlit("SEQ=");
            let s = "SEQ="@;
            lemma_decimal_within(sequence as nat, 10);
            lemma_ascii_sum(s, 4, decimal(sequence as nat), 10);
            let s = s + decimal(sequence as nat);
            reveal_strlit(",OUTAGE_MS=");
            lemma_ascii_sum(s, 14, ",OUTAGE_MS="@, 11);
            let s = s + ",OUTAGE_MS="@;
            lemma_decimal_within(outage_ms as nat, 20);
            lemma_ascii_sum(s, 25, decimal(outage_ms as nat), 20);
            let s = s + decimal(outage_ms as nat);
            reveal_strlit(",PREV_LAST_RX_MONO_MS=");
            lemma_ascii_sum(s, 45, ",PREV_LAST_RX_MONO_MS="@, 22);
            let s = s + ",PREV_LAST_RX_MONO_MS="@;
            lemma_decimal_within(previous_rx_mono_ms as nat, 20);
            lemma_ascii_sum(s, 67, decimal(previous_rx_mono_ms as nat), 20);
            let s = s + decimal(previous_rx_mono_ms as nat);
        },
        EventDetail::LinkLost { last_sequence, last_rx_mono_ms, age_ms } => {
            reveal_strlit("LAST_SEQ=");
            let s = "LAST_SEQ="@;
            lemma_decimal_within(last_sequence as nat, 10);
            lemma_ascii_sum(s, 9, decimal(last_sequence as nat), 10);
            let s = s + decimal(last_sequence as nat);
            reveal_strlit(",LAST_RX_MONO_MS=");
            lemma_ascii_sum(s, 19, ",LAST_RX_MONO_MS="@, 17);
            let s = s + ",LAST_RX_MONO_MS="@;
            lemma_decimal_within(last_rx_mono_ms as nat, 20);
            lemma_ascii_sum(s, 36, decimal(last_rx_mono_ms as nat), 20);
            let s = s + decimal(last_rx_mono_ms as nat);
            reveal_strlit(",AGE_MS=");
            lemma_ascii_sum(s, 56, ",AGE_MS="@, 8);
            let s = s + ",AGE_MS="@;
            lemma_decimal_within(age_ms as nat, 20);
            lemma_ascii_sum(s, 64, decimal(age_ms as nat), 20);
            let s = s + decimal(age_ms as nat);
        },
    }
}

proof fn lemma_flag_within(value: bool)
    ensures
        ascii_within(flag(value), 1),
{
    reveal_with_fuel(pow10, 2);
    lemma_decimal_within(1, 1);
    lemma_decimal_within(0, 1);
}

proof fn lemma_optional_u64_within(value: Option<u64>)
    ensures
        ascii_within(optional_u64(value), 20),
{
    lemma_number_sizes();
    reveal_strlit("NA");
    if value is Some {
        lemma_decimal_within(value->0 as nat, 20);
    }
}

proof fn lemma_optional_u32_within(value: Option<u32>)
    ensures
        ascii_within(optional_u32(value), 10),
{
    lemma_number_sizes();
    reveal_strlit("NA");
    if value is Some {
        lemma_decimal_within(value->0 as nat, 10);
    }
}

proof fn lemma_optional_u16_within(value: Option<u16>)
    ensures
        ascii_within(optional_u16(value), 5),
{
    lemma_number_sizes();
    reveal_strlit("NA");
    if value is Some {
        lemma_decimal_within(value->0 as nat, 5);
    }
}

proof fn lemma_optional_u8_within(value: Option<u8>)
    ensures
        ascii_within(optional_u8(value), 3),
{
    lemma_number_sizes();
    reveal_strlit("NA");
    if value is Some {
        lemma_decimal_within(value->0 as nat, 3);
    }
}

proof fn lemma_optional_i32_within(value: Option<i32>)
    ensures
        ascii_within(optional_i32(value), 11),
{
    lemma_number_sizes();
    reveal_strlit("NA");
    if value is Some {
        lemma_signed_within(value->0 as int, 10);
    }
}

proof fn lemma_optional_i16_within(value: Option<i16>)
    ensures
        ascii_within(optional_i16(value), 6),
{
    lemma_number_sizes();
    reveal_strlit("NA");
    if value is Some {
        lemma_signed_within(value->0 as int, 5);
    }
}

/// The flags of the own state: a survey is logged (always, in this log), the position receiver is
/// heard, it has a fix, the link is up.
pub open spec fn local_flags(gps: GpsState, link_up: bool) -> int {
    1 + (if gps.online {
        2int
    } else {
        0
    }) + (if gps.fix {
        4int
    } else {
        0
    }) + (if link_up {
        8int
    } else {
        0
    })
}

fn flags_of(gps: GpsState, link_up: bool) -> (flags: u32)
    ensures
        flags == local_flags(gps, link_up),
{
    let mut flags: u32 = 1;
    if gps.online {
        flags = flags + 2;
    }
    if gps.fix {
        flags = flags + 4;
    }
    if link_up {
        flags = flags + 8;
    }
    flags
}

/// The line of the own state.
pub open spec fn local_record_text(
    mono_ms: u64,
    utc_ms: Option<u64>,
    gps: GpsState,
    link_up: bool,
    last_rssi: Option<i16>,
    last_snr: Option<i16>,
    received: u32,
    missed: u32,
    app_crc_failures: u32,
) -> Seq<char> {
    "MONO_MS="@ + decimal(mono_ms as nat) + ",UTC_MS="@ + optional_u64(utc_ms) + ",FLAGS="@
        + hex_fixed(local_flags(gps, link_up) as nat, 8) + ",GPS_ONLINE="@ + flag(gps.online)
        + ",GPS_FIX="@ + flag(gps.fix) + ",LAT_E7="@ + optional_i32(gps.latitude_e7) + ",LON_E7="@
        + optional_i32(gps.longitude_e7) + ",ALT_HALF_M="@ + optional_i16(gps.altitude_half_m)
        + ",SPEED_CM_S="@ + optional_u16(gps.speed_cm_s) + ",COURSE_CDEG="@
        + optional_u16(gps.course_cdeg) + ",SATS="@ + optional_u8(gps.satellites)
        + ",HDOP_TENTHS="@ + optional_u8(gps.hdop_tenths) + ",LINK_UP="@ + flag(link_up)
        + ",LAST_RSSI="@ + optional_i16(last_rssi) + ",LAST_SNR="@ + optional_i16(last_snr)
        + ",RX="@ + decimal(received as nat) + ",MISSED="@ + decimal(missed as nat)
        + ",APP_CRC_FAIL="@ + decimal(app_crc_failures as nat)
        + ",TEMP_CENTI_C=NA,PRESSURE_10PA=NA"@ + ",HUMIDITY_HALF_PCT=NA,BATTERY_SOC=NA\n"@
}

/// The line of the own state.
pub fn local_record(
    mono_ms: u64,
    utc_ms: Option<u64>,
    gps: GpsState,
    link_up: bool,
    last_rssi: Option<i16>,
    last_snr: Option<i16>,
    received: u32,
    missed: u32,
    app_crc_failures: u32,
) -> (text: Text<LOCAL_LINE_CAPACITY>)
    ensures
        text@ == local_record_text(
            mono_ms,
            utc_ms,
            gps,
            link_up,
            last_rssi,
            last_snr,
            received,
            missed,
            app_crc_failures,
        ),
{
    let flags: u32 = flags_of(gps, link_up);
    let mut line: Line<LOCAL_LINE_CAPACITY> = Line::start("MONO_MS=");
    line.add_u64(mono_ms);
    line.add_str(",UTC_MS=");
    append_optional_u64(&mut line, utc_ms);
    line.add_str(",FLAGS=");
    line.add_hex(flags as u64, 8);
    line.add_str(",GPS_ONLINE=");
    line.add_flag(gps.online);
    line.add_str(",GPS_FIX=");
    line.add_flag(gps.fix);
    line.add_str(",LAT_E7=");
    append_optional_i32(&mut line, gps.latitude_e7);
    line.add_str(",LON_E7=");
    append_optional_i32(&mut line, gps.longitude_e7);
    line.add_str(",ALT_HALF_M=");
    append_optional_i16(&mut line, gps.altitude_half_m);
    line.add_str(",SPEED_CM_S=");
    append_optional_u16(&mut line, gps.speed_cm_s);
    line.add_str(",COURSE_CDEG=");
    append_optional_u16(&mut line, gps.course_cdeg);
    line.add_str(",SATS=");
    append_optional_u8(&mut line, gps.satellites);
    line.add_str(",HDOP_TENTHS=");
    append_optional_u8(&mut line, gps.hdop_tenths);
    line.add_str(",LINK_UP=");
    line.add_flag(link_up);
    line.add_str(",LAST_RSSI=");
    append_optional_i16(&mut line, last_rssi);
    line.add_str(",LAST_SNR=");
    append_optional_i16(&mut line, last_snr);
    line.add_str(",RX=");
    line.add_u64(received as u64);
    line.add_str(",MISSED=");
    line.add_u64(missed as u64);
    line.add_str(",APP_CRC_FAIL=");
    line.add_u64(app_crc_failures as u64);
    line.add_str(",TEMP_CENTI_C=NA,PRESSURE_10PA=NA");
    line.add_str(",HUMIDITY_HALF_PCT=NA,BATTERY_SOC=NA\n");
    proof {
        law_local_records_fit(
            mono_ms,
            utc_ms,
            gps,
            link_up,
            last_rssi,
            last_snr,
            received,
            missed,
            app_crc_failures,
        );
        lemma_ascii_bytes(line@, LOCAL_LINE_CAPACITY as int);
    }
    line.finish().unwrap()
}

/// The own state always fits its line.
pub proof fn law_local_records_fit(
    mono_ms: u64,
    utc_ms: Option<u64>,
    gps: GpsState,
    link_up: bool,
    last_rssi: Option<i16>,
    last_snr: Option<i16>,
    received: u32,
    missed: u32,
    app_crc_failures: u32,
)
    ensures
        ascii_within(
            local_record_text(
                mono_ms,
                utc_ms,
                gps,
                link_up,
                last_rssi,
                last_snr,
                received,
                missed,
                app_crc_failures,
            ),
            LOCAL_LINE_CAPACITY as int,
        ),
{
    lemma_number_sizes();
    reveal_with_fuel(pow10, 2);
    reveal_strlit("MONO_MS=");
    let s = "MONO_MS="@;
    lemma_decimal_within(mono_ms as nat, 20);
    lemma_ascii_sum(s, 8, decimal(mono_ms as nat), 20);
    let s = s + decimal(mono_ms as nat);
    reveal_strlit(",UTC_MS=");
    lemma_ascii_sum(s, 28, ",UTC_MS="@, 8);
    let s = s + ",UTC_MS="@;
    lemma_optional_u64_within(utc_ms);
    lemma_ascii_sum(s, 36, optional_u64(utc_ms), 20);
    let s = s + optional_u64(utc_ms);
    reveal_strlit(",FLAGS=");
    lemma_ascii_sum(s, 56, ",FLAGS="@, 7);
    let s = s + ",FLAGS="@;
    lemma_hex_within(local_flags(gps, link_up) as nat, 8);
    lemma_ascii_sum(s, 63, hex_fixed(local_flags(gps, link_up) as nat, 8), 8);
    let s = s + hex_fixed(local_flags(gps, link_up) as nat, 8);
    reveal_strlit(",GPS_ONLINE=");
    lemma_ascii_sum(s, 71, ",GPS_ONLINE="@, 12);
    let s = s + ",GPS_ONLINE="@;
    lemma_flag_within(gps.online);
    lemma_ascii_sum(s, 83, flag(gps.online), 1);
    let s = s + flag(gps.online);
    reveal_strlit(",GPS_FIX=");
    lemma_ascii_sum(s, 84, ",GPS_FIX="@, 9);
    let s = s + ",GPS_FIX="@;
    lemma_flag_within(gps.fix);
    lemma_ascii_sum(s, 93, flag(gps.fix), 1);
    let s = s + flag(gps.fix);
    reveal_strlit(",LAT_E7=");
    lemma_ascii_sum(s, 94, ",LAT_E7="@, 8);
    let s = s + ",LAT_E7="@;
    lemma_optional_i32_within(gps.latitude_e7);
    lemma_ascii_sum(s, 102, optional_i32(gps.latitude_e7), 11);
    let s = s + optional_i32(gps.latitude_e7);
    reveal_strlit(",LON_E7=");
    lemma_ascii_sum(s, 113, ",LON_E7="@, 8);
    let s = s + ",LON_E7="@;
    lemma_optional_i32_within(gps.longitude_e7);
    lemma_ascii_sum(s, 121, optional_i32(gps.longitude_e7), 11);
    let s = s + optional_i32(gps.longitude_e7);
    reveal_strlit(",ALT_HALF_M=");
    lemma_ascii_sum(s, 132, ",ALT_HALF_M="@, 12);
    let s = s + ",ALT_HALF_M="@;
    lemma_optional_i16_within(gps.altitude_half_m);
    lemma_ascii_sum(s, 144, optional_i16(gps.altitude_half_m), 6);
    let s = s + optional_i16(gps.altitude_half_m);
    reveal_strlit(",SPEED_CM_S=");
    lemma_ascii_sum(s, 150, ",SPEED_CM_S="@, 12);
    let s = s + ",SPEED_CM_S="@;
    lemma_optional_u16_within(gps.speed_cm_s);
    lemma_ascii_sum(s, 162, optional_u16(gps.speed_cm_s), 5);
    let s = s + optional_u16(gps.speed_cm_s);
    reveal_strlit(",COURSE_CDEG=");
    lemma_ascii_sum(s, 167, ",COURSE_CDEG="@, 13);
    let s = s + ",COURSE_CDEG="@;
    lemma_optional_u16_within(gps.course_cdeg);
    lemma_ascii_sum(s, 180, optional_u16(gps.course_cdeg), 5);
    let s = s + optional_u16(gps.course_cdeg);
    reveal_strlit(",SATS=");
    lemma_ascii_sum(s, 185, ",SATS="@, 6);
    let s = s + ",SATS="@;
    lemma_optional_u8_within(gps.satellites);
    lemma_ascii_sum(s, 191, optional_u8(gps.satellites), 3);
    let s = s + optional_u8(gps.satellites);
    reveal_strlit(",HDOP_TENTHS=");
    lemma_ascii_sum(s, 194, ",HDOP_TENTHS="@, 13);
    let s = s + ",HDOP_TENTHS="@;
    lemma_optional_u8_within(gps.hdop_tenths);
    lemma_ascii_sum(s, 207, optional_u8(gps.hdop_tenths), 3);
    let s = s + optional_u8(gps.hdop_tenths);
    reveal_strlit(",LINK_UP=");
    lemma_ascii_sum(s, 210, ",LINK_UP="@, 9);
    let s = s + ",LINK_UP="@;
    lemma_flag_within(link_up);
    lemma_ascii_sum(s, 219, flag(link_up), 1);
    let s = s + flag(link_up);
    reveal_strlit(",LAST_RSSI=");
    lemma_ascii_sum(s, 220, ",LAST_RSSI="@, 11);
    let s = s + ",LAST_RSSI="@;
    lemma_optional_i16_within(last_rssi);
    lemma_ascii_sum(s, 231, optional_i16(last_rssi), 6);
    let s = s + optional_i16(last_rssi);
    reveal_strlit(",LAST_SNR=");
    lemma_ascii_sum(s, 237, ",LAST_SNR="@, 10);
    let s = s + ",LAST_SNR="@;
    lemma_optional_i16_within(last_snr);
    lemma_ascii_sum(s, 247, optional_i16(last_snr), 6);
    let s = s + optional_i16(last_snr);
    reveal_strlit(",RX=");
    lemma_ascii_sum(s, 253, ",RX="@, 4);
    let s = s + ",RX="@;
    lemma_decimal_within(received as nat, 10);
    lemma_ascii_sum(s, 257, decimal(received as nat), 10);
    let s = s + decimal(received as nat);
    reveal_strlit(",MISSED=");
    lemma_ascii_sum(s, 267, ",MISSED="@, 8);
    let s = s + ",MISSED="@;
    lemma_decimal_within(missed as nat, 10);
    lemma_ascii_sum(s, 275, decimal(missed as nat), 10);
    let s = s + decimal(missed as nat);
    reveal_strlit(",APP_CRC_FAIL=");
    lemma_ascii_sum(s, 285, ",APP_CRC_FAIL="@, 14);
    let s = s + ",APP_CRC_FAIL="@;
    lemma_decimal_within(app_crc_failures as nat, 10);
    lemma_ascii_sum(s, 299, decimal(app_crc_failures as nat), 10);
    let s = s + decimal(app_crc_failures as nat);
    reveal_strlit(",TEMP_CENTI_C=NA,PRESSURE_10PA=NA");
    lemma_ascii_sum(s, 309, ",TEMP_CENTI_C=NA,PRESSURE_10PA=NA"@, 33);
    let s = s + ",TEMP_CENTI_C=NA,PRESSURE_10PA=NA"@;
    reveal_strlit(",HUMIDITY_HALF_PCT=NA,BATTERY_SOC=NA\n");
    lemma_ascii_sum(s, 342, ",HUMIDITY_HALF_PCT=NA,BATTERY_SOC=NA\n"@, 37);
    let s = s + ",HUMIDITY_HALF_PCT=NA,BATTERY_SOC=NA\n"@;
}

/// The line of a received packet: both sides of the observation, the own position
/// at that moment and what the packet carried.
pub open spec fn rx_record_text(
    mono_ms: u64,
    utc_ms: Option<u64>,
    telemetry: TelemetryV1,
    rssi: i16,
    snr: i16,
    received: u32,
    missed: u32,
    app_crc_failures: u32,
    local_gps: GpsState,
) -> Seq<char> {
    "MONO_MS="@ + decimal(mono_ms as nat) + ",UTC_MS="@ + optional_u64(utc_ms) + ",SEQ="@
        + decimal(telemetry.sequence as nat) + ",SENDER="@
        + hex_fixed(telemetry.sender_system_id as nat, 16) + ",SURVEY="@
        + hex_fixed(telemetry.survey_id as nat, 8) + ",MODE="@
        + decimal(telemetry.sender_mode as nat) + ",RSSI="@ + decimal_signed(rssi as int)
        + ",SNR="@ + decimal_signed(snr as int) + ",RX="@ + decimal(received as nat) + ",MISSED="@
        + decimal(missed as nat) + ",APP_CRC_FAIL="@ + decimal(app_crc_failures as nat)
        + ",LOCAL_GPS_FIX="@ + flag(local_gps.fix) + ",LOCAL_LAT_E7="@
        + optional_i32(local_gps.latitude_e7) + ",LOCAL_LON_E7="@
        + optional_i32(local_gps.longitude_e7) + ",TX_UTC_S="@
        + optional_u32(telemetry.gps_unix_time) + ",TX_LAT_E7="@
        + optional_i32(telemetry.latitude_e7) + ",TX_LON_E7="@
        + optional_i32(telemetry.longitude_e7) + ",TX_ALT_HALF_M="@
        + optional_i16(telemetry.altitude_half_m) + ",TX_SPEED_CM_S="@
        + optional_u16(telemetry.speed_cm_s) + ",TX_COURSE_CDEG="@
        + optional_u16(telemetry.course_cdeg) + ",TX_FIX="@
        + decimal(telemetry.gps_fix_class.code()) + ",TX_SATS="@
        + decimal(telemetry.satellites as nat) + ",TX_HDOP_TENTHS="@
        + optional_u8(telemetry.hdop_tenths) + ",TX_TEMP_CENTI_C="@
        + optional_i16(telemetry.temperature_centi_c) + ",TX_PRESSURE_10PA="@
        + optional_u16(telemetry.pressure_10pa) + ",TX_HUMIDITY_HALF_PCT="@
        + optional_u8(telemetry.humidity_half_percent) + ",TX_BATTERY_SOC="@
        + optional_u8(telemetry.battery_soc_percent) + "\n"@
}

/// The line of a received packet: both sides of the observation, the own position
/// at that moment and what the packet carried.
pub fn rx_record(
    mono_ms: u64,
    utc_ms: Option<u64>,
    telemetry: TelemetryV1,
    rssi: i16,
    snr: i16,
    received: u32,
    missed: u32,
    app_crc_failures: u32,
    local_gps: GpsState,
) -> (text: Text<RX_LINE_CAPACITY>)
    ensures
        text@ == rx_record_text(
            mono_ms,
            utc_ms,
            telemetry,
            rssi,
            snr,
            received,
            missed,
            app_crc_failures,
            local_gps,
        ),
{
    let mut line: Line<RX_LINE_CAPACITY> = Line::start("MONO_MS=");
    line.add_u64(mono_ms);
    line.add_str(",UTC_MS=");
    append_optional_u64(&mut line, utc_ms);
    line.add_str(",SEQ=");
    line.add_u64(telemetry.sequence as u64);
    line.add_str(",SENDER=");
    line.add_hex(telemetry.sender_system_id, 16);
    line.add_str(",SURVEY=");
    line.add_hex(telemetry.survey_id as u64, 8);
    line.add_str(",MODE=");
    line.add_u64(telemetry.sender_mode as u64);
    line.add_str(",RSSI=");
    line.add_i64(rssi as i64);
    line.add_str(",SNR=");
    line.add_i64(snr as i64);
    line.add_str(",RX=");
    line.add_u64(received as u64);
    line.add_str(",MISSED=");
    line.add_u64(missed as u64);
    line.add_str(",APP_CRC_FAIL=");
    line.add_u64(app_crc_failures as u64);
    line.add_str(",LOCAL_GPS_FIX=");
    line.add_flag(local_gps.fix);
    line.add_str(",LOCAL_LAT_E7=");
    append_optional_i32(&mut line, local_gps.latitude_e7);
    line.add_str(",LOCAL_LON_E7=");
    append_optional_i32(&mut line, local_gps.longitude_e7);
    line.add_str(",TX_UTC_S=");
    append_optional_u32(&mut line, telemetry.gps_unix_time);
    line.add_str(",TX_LAT_E7=");
    append_optional_i32(&mut line, telemetry.latitude_e7);
    line.add_str(",TX_LON_E7=");
    append_optional_i32(&mut line, telemetry.longitude_e7);
    line.add_str(",TX_ALT_HALF_M=");
    append_optional_i16(&mut line, telemetry.altitude_half_m);
    line.add_str(",TX_SPEED_CM_S=");
    append_optional_u16(&mut line, telemetry.speed_cm_s);
    line.add_str(",TX_COURSE_CDEG=");
    append_optional_u16(&mut line, telemetry.course_cdeg);
    line.add_str(",TX_FIX=");
    line.add_u64(telemetry.gps_fix_class.bits() as u64);
    line.add_str(",TX_SATS=");
    line.add_u64(telemetry.satellites as u64);
    line.add_str(",TX_HDOP_TENTHS=");
    append_optional_u8(&mut line, telemetry.hdop_tenths);
    line.add_str(",TX_TEMP_CENTI_C=");
    append_optional_i16(&mut line, telemetry.temperature_centi_c);
    line.add_str(",TX_PRESSURE_10PA=");
    append_optional_u16(&mut line, telemetry.pressure_10pa);
    line.add_str(",TX_HUMIDITY_HALF_PCT=");
    append_optional_u8(&mut line, telemetry.humidity_half_percent);
    line.add_str(",TX_BATTERY_SOC=");
    append_optional_u8(&mut line, telemetry.battery_soc_percent);
    line.add_str("\n");
    proof {
        law_rx_records_fit(
            mono_ms,
            utc_ms,
            telemetry,
            rssi,
            snr,
            received,
            missed,
            app_crc_failures,
            local_gps,
        );
        lemma_ascii_bytes(line@, RX_LINE_CAPACITY as int);
    }
    line.finish().unwrap()
}

/// A received packet always fits its line.
pub proof fn law_rx_records_fit(
    mono_ms: u64,
    utc_ms: Option<u64>,
    telemetry: TelemetryV1,
    rssi: i16,
    snr: i16,
    received: u32,
    missed: u32,
    app_crc_failures: u32,
    local_gps: GpsState,
)
    ensures
        ascii_within(
            rx_record_text(
                mono_ms,
                utc_ms,
                telemetry,
                rssi,
                snr,
                received,
                missed,
                app_crc_failures,
                local_gps,
            ),
            RX_LINE_CAPACITY as int,
        ),
{
    lemma_number_sizes();
    reveal_with_fuel(pow10, 2);
    reveal_strlit("MONO_MS=");
    let s = "MONO_MS="@;
    lemma_decimal_within(mono_ms as nat, 20);
    lemma_ascii_sum(s, 8, decimal(mono_ms as nat), 20);
    let s = s + decimal(mono_ms as nat);
    reveal_strlit(",UTC_MS=");
    lemma_ascii_sum(s, 28, ",UTC_MS="@, 8);
    let s = s + ",UTC_MS="@;
    lemma_optional_u64_within(utc_ms);
    lemma_ascii_sum(s, 36, optional_u64(utc_ms), 20);
    let s = s + optional_u64(utc_ms);
    reveal_strlit(",SEQ=");
    lemma_ascii_sum(s, 56, ",SEQ="@, 5);
    let s = s + ",SEQ="@;
    lemma_decimal_within(telemetry.sequence as nat, 10);
    lemma_ascii_sum(s, 61, decimal(telemetry.sequence as nat), 10);
    let s = s + decimal(telemetry.sequence as nat);
    reveal_strlit(",SENDER=");
    lemma_ascii_sum(s, 71, ",SENDER="@, 8);
    let s = s + ",SENDER="@;
    lemma_hex_within(telemetry.sender_system_id as nat, 16);
    lemma_ascii_sum(s, 79, hex_fixed(telemetry.sender_system_id as nat, 16), 16);
    let s = s + hex_fixed(telemetry.sender_system_id as nat, 16);
    reveal_strlit(",SURVEY=");
    lemma_ascii_sum(s, 95, ",SURVEY="@, 8);
    let s = s + ",SURVEY="@;
    lemma_hex_within(telemetry.survey_id as nat, 8);
    lemma_ascii_sum(s, 103, hex_fixed(telemetry.survey_id as nat, 8), 8);
    let s = s + hex_fixed(telemetry.survey_id as nat, 8);
    reveal_strlit(",MODE=");
    lemma_ascii_sum(s, 111, ",MODE="@, 6);
    let s = s + ",MODE="@;
    lemma_decimal_within(telemetry.sender_mode as nat, 3);
    lemma_ascii_sum(s, 117, decimal(telemetry.sender_mode as nat), 3);
    let s = s + decimal(telemetry.sender_mode as nat);
    reveal_strlit(",RSSI=");
    lemma_ascii_sum(s, 120, ",RSSI="@, 6);
    let s = s + ",RSSI="@;
    lemma_signed_within(rssi as int, 5);
    lemma_ascii_sum(s, 126, decimal_signed(rssi as int), 6);
    let s = s + decimal_signed(rssi as int);
    reveal_strlit(",SNR=");
    lemma_ascii_sum(s, 132, ",SNR="@, 5);
    let s = s + ",SNR="@;
    lemma_signed_within(snr as int, 5);
    lemma_ascii_sum(s, 137, decimal_signed(snr as int), 6);
    let s = s + decimal_signed(snr as int);
    reveal_strlit(",RX=");
    lemma_ascii_sum(s, 143, ",RX="@, 4);
    let s = s + ",RX="@;
    lemma_decimal_within(received as nat, 10);
    lemma_ascii_sum(s, 147, decimal(received as nat), 10);
    let s = s + decimal(received as nat);
    reveal_strlit(",MISSED=");
    lemma_ascii_sum(s, 157, ",MISSED="@, 8);
    let s = s + ",MISSED="@;
    lemma_decimal_within(missed as nat, 10);
    lemma_ascii_sum(s, 165, decimal(missed as nat), 10);
    let s = s + decimal(missed as nat);
    reveal_strlit(",APP_CRC_FAIL=");
    lemma_ascii_sum(s, 175, ",APP_CRC_FAIL="@, 14);
    let s = s + ",APP_CRC_FAIL="@;
    lemma_decimal_within(app_crc_failures as nat, 10);
    lemma_ascii_sum(s, 189, decimal(app_crc_failures as nat), 10);
    let s = s + decimal(app_crc_failures as nat);
    reveal_strlit(",LOCAL_GPS_FIX=");
    lemma_ascii_sum(s, 199, ",LOCAL_GPS_FIX="@, 15);
    let s = s + ",LOCAL_GPS_FIX="@;
    lemma_flag_within(local_gps.fix);
    lemma_ascii_sum(s, 214, flag(local_gps.fix), 1);
    let s = s + flag(local_gps.fix);
    reveal_strlit(",LOCAL_LAT_E7=");
    lemma_ascii_sum(s, 215, ",LOCAL_LAT_E7="@, 14);
    let s = s + ",LOCAL_LAT_E7="@;
    lemma_optional_i32_within(local_gps.latitude_e7);
    lemma_ascii_sum(s, 229, optional_i32(local_gps.latitude_e7), 11);
    let s = s + optional_i32(local_gps.latitude_e7);
    reveal_strlit(",LOCAL_LON_E7=");
    lemma_ascii_sum(s, 240, ",LOCAL_LON_E7="@, 14);
    let s = s + ",LOCAL_LON_E7="@;
    lemma_optional_i32_within(local_gps.longitude_e7);
    lemma_ascii_sum(s, 254, optional_i32(local_gps.longitude_e7), 11);
    let s = s + optional_i32(local_gps.longitude_e7);
    reveal_strlit(",TX_UTC_S=");
    lemma_ascii_sum(s, 265, ",TX_UTC_S="@, 10);
    let s = s + ",TX_UTC_S="@;
    lemma_optional_u32_within(telemetry.gps_unix_time);
    lemma_ascii_sum(s, 275, optional_u32(telemetry.gps_unix_time), 10);
    let s = s + optional_u32(telemetry.gps_unix_time);
    reveal_strlit(",TX_LAT_E7=");
    lemma_ascii_sum(s, 285, ",TX_LAT_E7="@, 11);
    let s = s + ",TX_LAT_E7="@;
    lemma_optional_i32_within(telemetry.latitude_e7);
    lemma_ascii_sum(s, 296, optional_i32(telemetry.latitude_e7), 11);
    let s = s + optional_i32(telemetry.latitude_e7);
    reveal_strlit(",TX_LON_E7=");
    lemma_ascii_sum(s, 307, ",TX_LON_E7="@, 11);
    let s = s + ",TX_LON_E7="@;
    lemma_optional_i32_within(telemetry.longitude_e7);
    lemma_ascii_sum(s, 318, optional_i32(telemetry.longitude_e7), 11);
    let s = s + optional_i32(telemetry.longitude_e7);
    reveal_strlit(",TX_ALT_HALF_M=");
    lemma_ascii_sum(s, 329, ",TX_ALT_HALF_M="@, 15);
    let s = s + ",TX_ALT_HALF_M="@;
    lemma_optional_i16_within(telemetry.altitude_half_m);
    lemma_ascii_sum(s, 344, optional_i16(telemetry.altitude_half_m), 6);
    let s = s + optional_i16(telemetry.altitude_half_m);
    reveal_strlit(",TX_SPEED_CM_S=");
    lemma_ascii_sum(s, 350, ",TX_SPEED_CM_S="@, 15);
    let s = s + ",TX_SPEED_CM_S="@;
    lemma_optional_u16_within(telemetry.speed_cm_s);
    lemma_ascii_sum(s, 365, optional_u16(telemetry.speed_cm_s), 5);
    let s = s + optional_u16(telemetry.speed_cm_s);
    reveal_strlit(",TX_COURSE_CDEG=");
    lemma_ascii_sum(s, 370, ",TX_COURSE_CDEG="@, 16);
    let s = s + ",TX_COURSE_CDEG="@;
    lemma_optional_u16_within(telemetry.course_cdeg);
    lemma_ascii_sum(s, 386, optional_u16(telemetry.course_cdeg), 5);
    let s = s + optional_u16(telemetry.course_cdeg);
    reveal_strlit(",TX_FIX=");
    lemma_ascii_sum(s, 391, ",TX_FIX="@, 8);
    let s = s + ",TX_FIX="@;
    lemma_decimal_within(telemetry.gps_fix_class.code(), 1);
    lemma_ascii_sum(s, 399, decimal(telemetry.gps_fix_class.code()), 1);
    let s = s + decimal(telemetry.gps_fix_class.code());
    reveal_strlit(",TX_SATS=");
    lemma_ascii_sum(s, 400, ",TX_SATS="@, 9);
    let s = s + ",TX_SATS="@;
    lemma_decimal_within(telemetry.satellites as nat, 3);
    lemma_ascii_sum(s, 409, decimal(telemetry.satellites as nat), 3);
    let s = s + decimal(telemetry.satellites as nat);
    reveal_strlit(",TX_HDOP_TENTHS=");
    lemma_ascii_sum(s, 412, ",TX_HDOP_TENTHS="@, 16);
    let s = s + ",TX_HDOP_TENTHS="@;
    lemma_optional_u8_within(telemetry.hdop_tenths);
    lemma_ascii_sum(s, 428, optional_u8(telemetry.hdop_tenths), 3);
    let s = s + optional_u8(telemetry.hdop_tenths);
    reveal_strlit(",TX_TEMP_CENTI_C=");
    lemma_ascii_sum(s, 431, ",TX_TEMP_CENTI_C="@, 17);
    let s = s + ",TX_TEMP_CENTI_C="@;
    lemma_optional_i16_within(telemetry.temperature_centi_c);
    lemma_ascii_sum(s, 448, optional_i16(telemetry.temperature_centi_c), 6);
    let s = s + optional_i16(telemetry.temperature_centi_c);
    reveal_strlit(",TX_PRESSURE_10PA=");
    lemma_ascii_sum(s, 454, ",TX_PRESSURE_10PA="@, 18);
    let s = s + ",TX_PRESSURE_10PA="@;
    lemma_optional_u16_within(telemetry.pressure_10pa);
    lemma_ascii_sum(s, 472, optional_u16(telemetry.pressure_10pa), 5);
    let s = s + optional_u16(telemetry.pressure_10pa);
    reveal_strlit(",TX_HUMIDITY_HALF_PCT=");
    lemma_ascii_sum(s, 477, ",TX_HUMIDITY_HALF_PCT="@, 22);
    let s = s + ",TX_HUMIDITY_HALF_PCT="@;
    lemma_optional_u8_within(telemetry.humidity_half_percent);
    lemma_ascii_sum(s, 499, optional_u8(telemetry.humidity_half_percent), 3);
    let s = s + optional_u8(telemetry.humidity_half_percent);
    reveal_strlit(",TX_BATTERY_SOC=");
    lemma_ascii_sum(s, 502, ",TX_BATTERY_SOC="@, 16);
    let s = s + ",TX_BATTERY_SOC="@;
    lemma_optional_u8_within(telemetry.battery_soc_percent);
    lemma_ascii_sum(s, 518, optional_u8(telemetry.battery_soc_percent), 3);
    let s = s + optional_u8(telemetry.battery_soc_percent);
    reveal_strlit("\n");
    lemma_ascii_sum(s, 521, "\n"@, 1);
    let s = s + "\n"@;
}

/// The start of a line of the event log, up to the position.
pub open spec fn event_head(
    mono_ms: u64,
    utc_ms: Option<u64>,
    event_id: Seq<char>,
    gps: GpsState,
) -> Seq<char> {
    "MONO_MS="@ + decimal(mono_ms as nat) + ",UTC_MS="@ + optional_u64(utc_ms) + ",EVENT="@
        + event_id + ",GPS_ONLINE="@ + flag(gps.online) + ",GPS_FIX="@ + flag(gps.fix)
        + ",LAT_E7="@ + optional_i32(gps.latitude_e7) + ",LON_E7="@ + optional_i32(
        gps.longitude_e7,
    )
}

/// A line of the event log.
pub open spec fn event_text(
    mono_ms: u64,
    utc_ms: Option<u64>,
    event_id: Seq<char>,
    gps: GpsState,
    details: Seq<char>,
) -> Seq<char> {
    let head = event_head(mono_ms, utc_ms, event_id, gps);
    if details.len() == 0 {
        head + "\n"@
    } else {
        head + ","@ + details + "\n"@
    }
}

/// A line of the event log, where it fits.
pub fn event_record(
    mono_ms: u64,
    utc_ms: Option<u64>,
    event_id: &str,
    gps: GpsState,
    details: &str,
) -> (text: Option<Text<EVENT_LINE_CAPACITY>>)
    ensures
        text is Some <==> byte_len(event_text(mono_ms, utc_ms, event_id@, gps, details@))
            <= EVENT_LINE_CAPACITY,
        text matches Some(line) ==> line@ == event_text(
            mono_ms,
            utc_ms,
            event_id@,
            gps,
            details@,
        ),
{
    let mut line: Line<EVENT_LINE_CAPACITY> = Line::start("MONO_MS=");
    line.add_u64(mono_ms);
    line.add_str(",UTC_MS=");
    append_optional_u64(&mut line, utc_ms);
    line.add_str(",EVENT=");
    line.add_str(event_id);
    line.add_str(",GPS_ONLINE=");
    line.add_flag(gps.online);
    line.add_str(",GPS_FIX=");
    line.add_flag(gps.fix);
    line.add_str(",LAT_E7=");
    append_optional_i32(&mut line, gps.latitude_e7);
    line.add_str(",LON_E7=");
    append_optional_i32(&mut line, gps.longitude_e7);
    if !details.is_empty() {
        line.add_str(",");
        line.add_str(details);
    }
    line.add_str("\n");
    line.finish()
}

/// The start of a diagnostic line: calendar time where it is known, the device's own time, level,
/// origin and event.
pub open spec fn diag_head(
    utc_ms: Option<u64>,
    uptime_ms: u64,
    level: Seq<char>,
    originator: Seq<char>,
    event_id: Seq<char>,
) -> Seq<char> {
    (match utc_ms {
        Some(utc) => decimal(utc as nat) + " GPS "@,
        None => "NA UNKNOWN "@,
    }) + decimal(uptime_ms as nat) + " "@ + level + " "@ + originator + " "@ + event_id
}

/// A diagnostic line.
pub open spec fn diag_text(
    utc_ms: Option<u64>,
    uptime_ms: u64,
    level: Seq<char>,
    originator: Seq<char>,
    event_id: Seq<char>,
    details: Seq<char>,
) -> Seq<char> {
    let head = diag_head(utc_ms, uptime_ms, level, originator, event_id);
    if details.len() == 0 {
        head + "\n"@
    } else {
        head + " "@ + details + "\n"@
    }
}

/// A diagnostic line, where it fits.
pub fn diag_record(
    utc_ms: Option<u64>,
    uptime_ms: u64,
    level: &str,
    originator: &str,
    event_id: &str,
    details: &str,
) -> (text: Option<Text<DEBUG_LINE_CAPACITY>>)
    ensures
        text is Some <==> byte_len(
            diag_text(utc_ms, uptime_ms, level@, originator@, event_id@, details@),
        ) <= DEBUG_LINE_CAPACITY,
        text matches Some(line) ==> line@ == diag_text(
            utc_ms,
            uptime_ms,
            level@,
            originator@,
            event_id@,
            details@,
        ),
{
    let mut line: Line<DEBUG_LINE_CAPACITY>;
    match utc_ms {
        Some(utc) => {
            line = Line::start("");
            line.add_u64(utc);
            proof {
                reveal_strlit("");
                assert(line@ =~= decimal(utc as nat));
            }
            line.add_str(" GPS ");
        },
        None => {
            line = Line::start("NA UNKNOWN ");
        },
    }
    line.add_u64(uptime_ms);
    line.add_str(" ");
    line.add_str(level);
    line.add_str(" ");
    line.add_str(originator);
    line.add_str(" ");
    line.add_str(event_id);
    if !details.is_empty() {
        line.add_str(" ");
        line.add_str(details);
    }
    line.add_str("\n");
    line.finish()
}

/// A diagnostic line of the device always fits: no event that it has details for is left out.
pub proof fn law_diag_lines_fit(
    utc_ms: Option<u64>,
    uptime_ms: u64,
    level: Seq<char>,
    originator: Seq<char>,
    event_id: Seq<char>,
    detail: DiagDetail,
)
    requires
        ascii_within(level, 5),
        ascii_within(originator, 7),
        ascii_within(event_id, 27),
    ensures
        byte_len(
            diag_text(utc_ms, uptime_ms, level, originator, event_id, diag_detail_text(detail)),
        ) <= DEBUG_LINE_CAPACITY,
{
    lemma_number_sizes();
    reveal_strlit(" GPS ");
    reveal_strlit("NA UNKNOWN ");
    reveal_strlit(" ");
    reveal_strlit("\n");
    let s = match utc_ms {
        Some(utc) => decimal(utc as nat) + " GPS "@,
        None => "NA UNKNOWN "@,
    };
    if let Some(utc) = utc_ms {
        lemma_decimal_within(utc as nat, 20);
        lemma_ascii_sum(decimal(utc as nat), 20, " GPS "@, 5);
    }
    lemma_decimal_within(uptime_ms as nat, 20);
    lemma_ascii_sum(s, 25, decimal(uptime_ms as nat), 20);
    let s = s + decimal(uptime_ms as nat);
    lemma_ascii_sum(s, 45, " "@, 1);
    let s = s + " "@;
    lemma_ascii_sum(s, 46, level, 5);
    let s = s + level;
    lemma_ascii_sum(s, 51, " "@, 1);
    let s = s + " "@;
    lemma_ascii_sum(s, 52, originator, 7);
    let s = s + originator;
    lemma_ascii_sum(s, 59, " "@, 1);
    let s = s + " "@;
    lemma_ascii_sum(s, 60, event_id, 27);
    let head = s + event_id;
    lemma_diag_detail_within(detail);
    let details = diag_detail_text(detail);
    lemma_ascii_sum(head, 87, "\n"@, 1);
    lemma_ascii_sum(head, 87, " "@, 1);
    lemma_ascii_sum(head + " "@, 88, details, 225);
    lemma_ascii_sum(head + " "@ + details, 313, "\n"@, 1);
    lemma_ascii_bytes(
        diag_text(utc_ms, uptime_ms, level, originator, event_id, details),
        DEBUG_LINE_CAPACITY as int,
    );
}

/// A line of the event log of the device always fits.
pub proof fn law_event_lines_fit(
    mono_ms: u64,
    utc_ms: Option<u64>,
    event_id: Seq<char>,
    gps: GpsState,
    detail: EventDetail,
)
    requires
        ascii_within(event_id, 16),
    ensures
        byte_len(event_text(mono_ms, utc_ms, event_id, gps, event_detail_text(detail)))
            <= EVENT_LINE_CAPACITY,
{
    lemma_number_sizes();
    reveal_strlit("MONO_MS=");
    reveal_strlit(",UTC_MS=");
    reveal_strlit(",EVENT=");
    reveal_strlit(",GPS_ONLINE=");
    reveal_strlit(",GPS_FIX=");
    reveal_strlit(",LAT_E7=");
    reveal_strlit(",LON_E7=");
    reveal_strlit(",");
    reveal_strlit("\n");
    lemma_decimal_within(mono_ms as nat, 20);
    lemma_optional_u64_within(utc_ms);
    lemma_flag_within(gps.online);
    lemma_flag_within(gps.fix);
    lemma_optional_i32_within(gps.latitude_e7);
    lemma_optional_i32_within(gps.longitude_e7);
    let s = "MONO_MS="@;
    lemma_ascii_sum(s, 8, decimal(mono_ms as nat), 20);
    let s = s + decimal(mono_ms as nat);
    lemma_ascii_sum(s, 28, ",UTC_MS="@, 8);
    let s = s + ",UTC_MS="@;
    lemma_ascii_sum(s, 36, optional_u64(utc_ms), 20);
    let s = s + optional_u64(utc_ms);
    lemma_ascii_sum(s, 56, ",EVENT="@, 7);
    let s = s + ",EVENT="@;
    lemma_ascii_sum(s, 63, event_id, 16);
    let s = s + event_id;
    lemma_ascii_sum(s, 79, ",GPS_ONLINE="@, 12);
    let s = s + ",GPS_ONLINE="@;
    lemma_ascii_sum(s, 91, flag(gps.online), 1);
    let s = s + flag(gps.online);
    lemma_ascii_sum(s, 92, ",GPS_FIX="@, 9);
    let s = s + ",GPS_FIX="@;
    lemma_ascii_sum(s, 101, flag(gps.fix), 1);
    let s = s + flag(gps.fix);
    lemma_ascii_sum(s, 102, ",LAT_E7="@, 8);
    let s = s + ",LAT_E7="@;
    lemma_ascii_sum(s, 110, optional_i32(gps.latitude_e7), 11);
    let s = s + optional_i32(gps.latitude_e7);
    lemma_ascii_sum(s, 121, ",LON_E7="@, 8);
    let s = s + ",LON_E7="@;
    lemma_ascii_sum(s, 129, optional_i32(gps.longitude_e7), 11);
    let head = s + optional_i32(gps.longitude_e7);
    lemma_event_detail_within(detail);
    let details = event_detail_text(detail);
    lemma_ascii_sum(head, 140, "\n"@, 1);
    lemma_ascii_sum(head, 140, ","@, 1);
    lemma_ascii_sum(head + ","@, 141, details, 125);
    lemma_ascii_sum(head + ","@ + details, 266, "\n"@, 1);
    lemma_ascii_bytes(
        event_text(mono_ms, utc_ms, event_id, gps, details),
        EVENT_LINE_CAPACITY as int,
    );
}

} // verus!
