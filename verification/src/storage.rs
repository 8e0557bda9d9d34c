//! What is logged to the card while the device runs.
//!
//! The functions here decide what is written; the bytes that they hand out are written by their
//! caller, who tells them how it went.
use vstd::prelude::*;
use vstd::utf8::encode_utf8;

use crate::clock::{utc_at, utc_for_mono_ms, UtcAnchor};
use crate::gps::GpsState;
use crate::packet::TelemetryV1;
use crate::records::{
    diag_detail_text, diag_record, diag_text, event_record, event_text, local_record,
    local_record_text, render_diag_detail, rx_record, rx_record_text, DiagDetail,
    DEBUG_LINE_CAPACITY, EVENT_LINE_CAPACITY, LOCAL_LINE_CAPACITY, RX_LINE_CAPACITY,
};
use crate::text::{byte_len, lemma_encode_concat, Text};

verus! {

/// The version of the layout of the logs.
pub const LOG_SCHEMA_VERSION: u16 = 3;

/// How many bytes of diagnostic lines are held back before they are written.
pub const DEBUG_BUFFER_CAPACITY: usize = 2048;

/// After so many lines of the own state all files of a survey are made durable.
pub const CHECKPOINT_INTERVAL: u32 = 10;

/// The survey that is logged.
pub const TEST_SURVEY_ID: u32 = 0xA000_0003;

/// How grave a diagnostic line is.
#[derive(Clone, Copy, Debug, PartialEq, Eq, Structural)]
pub enum PersistentLogLevel {
    Error,
    Warn,
    Info,
    Debug,
    Trace,
}

impl PersistentLogLevel {
    /// The place of a level, the gravest first.
    pub open spec fn place(self) -> int {
        match self {
            PersistentLogLevel::Error => 1,
            PersistentLogLevel::Warn => 2,
            PersistentLogLevel::Info => 3,
            PersistentLogLevel::Debug => 4,
            PersistentLogLevel::Trace => 5,
        }
    }

    pub open spec fn spec_label(self) -> &'static str {
        match self {
            PersistentLogLevel::Error => "ERROR",
            PersistentLogLevel::Warn => "WARN",
            PersistentLogLevel::Info => "INFO",
            PersistentLogLevel::Debug => "DEBUG",
            PersistentLogLevel::Trace => "TRACE",
        }
    }

    /// Whether lines of this level are kept under a threshold: all that are at least as grave.
    pub open spec fn kept_under(self, threshold: PersistentLogLevel) -> bool {
        self.place() <= threshold.place()
    }

    fn rank(self) -> (rank: u8)
        ensures
            rank == self.place(),
    {
        match self {
            PersistentLogLevel::Error => 1,
            PersistentLogLevel::Warn => 2,
            PersistentLogLevel::Info => 3,
            PersistentLogLevel::Debug => 4,
            PersistentLogLevel::Trace => 5,
        }
    }

    pub fn label(self) -> (label: &'static str)
        ensures
            label@ == self.spec_label()@,
    {
        match self {
            PersistentLogLevel::Error => "ERROR",
            PersistentLogLevel::Warn => "WARN",
            PersistentLogLevel::Info => "INFO",
            PersistentLogLevel::Debug => "DEBUG",
            PersistentLogLevel::Trace => "TRACE",
        }
    }

    /// Whether a line of this level is made durable at once.
    pub fn forces_persistent_flush(self) -> (forces: bool)
        ensures
            forces == is_grave(self),
    {
        match self {
            PersistentLogLevel::Error => true,
            PersistentLogLevel::Warn => true,
            _ => false,
        }
    }
}

/// The threshold of the diagnostic log: everything is kept.
pub const PERSISTENT_LOG_LEVEL: PersistentLogLevel = PersistentLogLevel::Trace;

/// How long it took to log a packet.
#[derive(Clone, Copy, Debug, PartialEq, Eq, Structural)]
pub struct TelemetryWriteStats {
    pub append_us: u64,
    /// The time spent on making files durable, where that was done.
    pub checkpoint_us: Option<u64>,
    pub total_us: u64,
}

/// Where the logs go: into a session of a survey, or only diagnostics into the root directory.
#[derive(Clone, Copy, Debug, PartialEq, Eq, Structural)]
pub enum StorageMode {
    Survey { survey_id: u32, session_number: u32 },
    Global,
}

/// Diagnostic lines that are to be written to the diagnostic log, which is then made durable
/// where that is asked for and the lines could be written.
pub struct DebugBatch {
    pub text: Text<DEBUG_BUFFER_CAPACITY>,
    pub flush: bool,
}

/// Whether there is anything to write.
pub open spec fn write_is_due(text: Seq<char>) -> bool {
    text.len() > 0
}

/// Whether the file is to be made durable.
pub open spec fn flush_is_due(flush: bool, written: bool) -> bool {
    flush && written
}

impl DebugBatch {
    /// Whether there is anything to write.
    pub fn needs_write(&self) -> (needs: bool)
        ensures
            needs == write_is_due(self.text@),
    {
        !self.text.is_empty()
    }

    /// Whether the file is to be made durable, once it is known whether the lines could be
    /// written. Nothing to write counts as written.
    pub fn needs_flush(&self, written: bool) -> (needs: bool)
        ensures
            needs == flush_is_due(self.flush, written),
    {
        self.flush && written
    }
}

/// What a diagnostic line leads to: the lines held back go out first where the new one would not
/// fit behind them, and a grave line goes out at once.
pub struct DiagWrites {
    pub spill: Option<DebugBatch>,
    pub flush: Option<DebugBatch>,
}

/// The text of a batch, none where there is no batch.
pub open spec fn batch_text(batch: Option<DebugBatch>) -> Seq<char> {
    match batch {
        Some(lines) => lines.text@,
        None => Seq::empty(),
    }
}

/// What the device logs, between two writes.
pub struct Storage {
    pub mode: StorageMode,
    /// Whether there is a diagnostic log.
    pub debug_online: bool,
    pub debug_buffer: Text<DEBUG_BUFFER_CAPACITY>,
    pub local_records_written: u32,
    pub utc_anchor: Option<UtcAnchor>,
}

/// One line more of the own state, as far as they are counted.
pub open spec fn one_more(count: u32) -> u32 {
    if count < u32::MAX {
        (count + 1) as u32
    } else {
        u32::MAX
    }
}

/// Whether all files of the survey are to be made durable behind so many lines of the own state.
pub open spec fn checkpoint_is_due(count: u32) -> bool {
    count % CHECKPOINT_INTERVAL == 0
}

/// The level and the event of making the files of a survey durable.
pub open spec fn checkpoint_report(flushed: Seq<bool>) -> (PersistentLogLevel, Seq<char>) {
    if flushed[0] && flushed[1] && flushed[2] {
        (PersistentLogLevel::Debug, "SURVEY_CHECKPOINT"@)
    } else {
        (PersistentLogLevel::Error, "SURVEY_CHECKPOINT_FAILED"@)
    }
}

/// The level, the event and the detail of writing the line of a packet.
pub open spec fn append_report(append_us: Option<u64>, bytes: u64) -> (
    PersistentLogLevel,
    Seq<char>,
    DiagDetail,
) {
    match append_us {
        Some(us) => (PersistentLogLevel::Trace, "RX_APPEND"@, DiagDetail::Append { us, bytes }),
        None => (PersistentLogLevel::Error, "RX_APPEND_FAILED"@, DiagDetail::Nothing),
    }
}

/// The level, the event and the detail of a line of the own state that was written.
pub open spec fn local_append_report(append_us: u64, bytes: u64) -> (
    PersistentLogLevel,
    Seq<char>,
    DiagDetail,
) {
    (PersistentLogLevel::Trace, "LOCAL_APPEND"@, DiagDetail::Append { us: append_us, bytes })
}

/// How long it took to write the line of a packet, where it was written.
pub open spec fn write_stats(append_us: Option<u64>) -> Option<TelemetryWriteStats> {
    match append_us {
        Some(us) => Some(
            TelemetryWriteStats { append_us: us, checkpoint_us: None, total_us: us },
        ),
        None => None,
    }
}

/// The number of the session that is logged, 0 where none is.
pub open spec fn logged_session(mode: StorageMode) -> u32 {
    match mode {
        StorageMode::Survey { session_number, .. } => session_number,
        StorageMode::Global => 0,
    }
}

/// The survey that is logged.
pub open spec fn logged_survey(mode: StorageMode) -> Option<u32> {
    match mode {
        StorageMode::Survey { survey_id, .. } => Some(survey_id),
        StorageMode::Global => None,
    }
}

impl Storage {
    /// The text of a diagnostic line at a moment.
    pub open spec fn diag_line(
        self,
        level: PersistentLogLevel,
        uptime_ms: u64,
        originator: Seq<char>,
        event_id: Seq<char>,
        details: Seq<char>,
    ) -> Seq<char> {
        diag_text(
            utc_at(self.utc_anchor, uptime_ms),
            uptime_ms,
            level.spec_label()@,
            originator,
            event_id,
            details,
        )
    }

    /// The line of an event at a moment.
    pub open spec fn event_line(
        self,
        mono_ms: u64,
        event_id: Seq<char>,
        gps: GpsState,
        details: Seq<char>,
    ) -> Seq<char> {
        event_text(mono_ms, utc_at(self.utc_anchor, mono_ms), event_id, gps, details)
    }

    /// The line of the own state at a moment.
    pub open spec fn local_line(
        self,
        mono_ms: u64,
        gps: GpsState,
        link_up: bool,
        last_rssi: Option<i16>,
        last_snr: Option<i16>,
        received: u32,
        missed: u32,
        app_crc_failures: u32,
    ) -> Seq<char> {
        local_record_text(
            mono_ms,
            utc_at(self.utc_anchor, mono_ms),
            gps,
            link_up,
            last_rssi,
            last_snr,
            received,
            missed,
            app_crc_failures,
        )
    }

    /// The line of a packet that came at a moment.
    pub open spec fn packet_line(
        self,
        mono_ms: u64,
        telemetry: TelemetryV1,
        rssi: i16,
        snr: i16,
        received: u32,
        missed: u32,
        app_crc_failures: u32,
        local_gps: GpsState,
    ) -> Seq<char> {
        rx_record_text(
            mono_ms,
            utc_at(self.utc_anchor, mono_ms),
            telemetry,
            rssi,
            snr,
            received,
            missed,
            app_crc_failures,
            local_gps,
        )
    }

    /// Whether diagnostic lines of a level are logged.
    pub open spec fn hears(self, level: PersistentLogLevel) -> bool {
        level.kept_under(PERSISTENT_LOG_LEVEL) && self.debug_online
    }

    /// Whether a diagnostic line is kept: its level is logged, and the line is not too long.
    pub open spec fn keeps(self, level: PersistentLogLevel, line: Seq<char>) -> bool {
        self.hears(level) && byte_len(line) <= DEBUG_LINE_CAPACITY
    }

    /// Whether nothing has been logged yet.
    pub open spec fn is_fresh(self, mode: StorageMode, debug_online: bool) -> bool {
        &&& self.mode == mode
        &&& self.debug_online == debug_online
        &&& self.debug_buffer@ == Seq::<char>::empty()
        &&& self.local_records_written == 0
        &&& self.utc_anchor is None
    }

    /// Everything but the diagnostic lines held back is the same.
    pub open spec fn same_but_buffer(self, other: Storage) -> bool {
        &&& self.mode == other.mode
        &&& self.debug_online == other.debug_online
        &&& self.local_records_written == other.local_records_written
        &&& self.utc_anchor == other.utc_anchor
    }

    pub fn new(mode: StorageMode, debug_online: bool) -> (storage: Self)
        ensures
            storage.is_fresh(mode, debug_online),
    {
        Storage {
            mode,
            debug_online,
            debug_buffer: Text::new(),
            local_records_written: 0,
            utc_anchor: None,
        }
    }

    /// Takes out the diagnostic lines held back. Without a diagnostic log they are dropped.
    pub fn flush_debug_buffer(&mut self, flush_file: bool) -> (batch: Option<DebugBatch>)
        ensures
            final(self).debug_buffer@ == Seq::<char>::empty(),
            final(self).same_but_buffer(*old(self)),
            batch is Some <==> old(self).debug_online,
            batch matches Some(lines) ==> lines.text@ == old(self).debug_buffer@ && lines.flush
                == flush_file,
    {
        if !self.debug_online {
            self.debug_buffer.clear();
            return None;
        }
        let mut text: Text<DEBUG_BUFFER_CAPACITY> = Text::new();
        std::mem::swap(&mut text, &mut self.debug_buffer);
        Some(DebugBatch { text, flush: flush_file })
    }

    /// What a line that is too long leads to: it is dropped, and a grave one still sends out those
    /// held back.
    fn drop_line(&mut self, level: PersistentLogLevel) -> (writes: DiagWrites)
        ensures
            final(self).same_but_buffer(*old(self)),
            forall|line: Seq<char>|
                byte_len(line) > DEBUG_LINE_CAPACITY ==> #[trigger] diag_effect(
                    *old(self),
                    level,
                    line,
                    writes,
                    *final(self),
                ),
    {
        if level.rank() <= PERSISTENT_LOG_LEVEL.rank() && self.debug_online
            && level.forces_persistent_flush() {
            DiagWrites { spill: None, flush: self.flush_debug_buffer(true) }
        } else {
            DiagWrites { spill: None, flush: None }
        }
    }

    /// Takes a diagnostic line. Lines that are not grave are held back in memory.
    pub fn diag(
        &mut self,
        level: PersistentLogLevel,
        uptime_ms: u64,
        originator: &str,
        event_id: &str,
        details: &str,
    ) -> (writes: DiagWrites)
        ensures
            final(self).same_but_buffer(*old(self)),
            ({
                let line = old(self).diag_line(
                    level,
                    uptime_ms,
                    originator@,
                    event_id@,
                    details@,
                );
                diag_effect(*old(self), level, line, writes, *final(self))
            }),
    {
        if level.rank() > PERSISTENT_LOG_LEVEL.rank() || !self.debug_online {
            return DiagWrites { spill: None, flush: None };
        }
        let utc: Option<u64> = utc_for_mono_ms(self.utc_anchor, uptime_ms);
        let line = match diag_record(utc, uptime_ms, level.label(), originator, event_id, details) {
            Some(line) => line,
            None => return self.drop_line(level),
        };
        let held: usize = self.debug_buffer.as_str().len();
        let more: usize = line.as_str().len();
        let spill: Option<DebugBatch> = if held + more > DEBUG_BUFFER_CAPACITY {
            self.flush_debug_buffer(false)
        } else {
            None
        };
        proof {
            assert(encode_utf8(Seq::<char>::empty()) =~= Seq::<u8>::empty());
            assert(Seq::<char>::empty() + line@ =~= line@);
        }
        let _fits: bool = self.debug_buffer.push_str(line.as_str());
        let flush: Option<DebugBatch> = if level.forces_persistent_flush() {
            self.flush_debug_buffer(true)
        } else {
            None
        };
        DiagWrites { spill, flush }
    }

    /// Takes a diagnostic line with one of the device's own details.
    pub fn diag_event(
        &mut self,
        level: PersistentLogLevel,
        uptime_ms: u64,
        originator: &str,
        event_id: &str,
        detail: DiagDetail,
    ) -> (writes: DiagWrites)
        ensures
            final(self).same_but_buffer(*old(self)),
            ({
                let line = old(self).diag_line(
                    level,
                    uptime_ms,
                    originator@,
                    event_id@,
                    diag_detail_text(detail),
                );
                diag_effect(*old(self), level, line, writes, *final(self))
            }),
    {
        match render_diag_detail(detail) {
            Some(details) => self.diag(level, uptime_ms, originator, event_id, details.as_str()),
            None => {
                proof {
                    lemma_long_details(
                        utc_at(self.utc_anchor, uptime_ms),
                        uptime_ms,
                        level.spec_label()@,
                        originator@,
                        event_id@,
                        diag_detail_text(detail),
                    );
                }
                self.drop_line(level)
            },
        }
    }

    /// Sets where the device's own clock and calendar time meet. `true` the first time.
    pub fn update_time_anchor(&mut self, mono_ms: u64, unix_ms: u64) -> (first_sync: bool)
        ensures
            first_sync == (old(self).utc_anchor is None),
            final(self).utc_anchor == Some(UtcAnchor { mono_ms, unix_ms }),
            final(self).debug_buffer@ == old(self).debug_buffer@,
            final(self).mode == old(self).mode,
            final(self).debug_online == old(self).debug_online,
            final(self).local_records_written == old(self).local_records_written,
    {
        let first_sync: bool = self.utc_anchor.is_none();
        self.utc_anchor = Some(UtcAnchor { mono_ms, unix_ms });
        first_sync
    }

    /// The line of an event, for the event log of a survey's session.
    pub fn log_event(&self, mono_ms: u64, event_id: &str, gps: GpsState, details: &str) -> (line:
        Option<Text<EVENT_LINE_CAPACITY>>)
        ensures
            ({
                let text = self.event_line(mono_ms, event_id@, gps, details@);
                &&& line is Some <==> self.mode is Survey && byte_len(text) <= EVENT_LINE_CAPACITY
                &&& line matches Some(record) ==> record@ == text
            }),
    {
        match self.mode {
            StorageMode::Survey { .. } => event_record(
                mono_ms,
                utc_for_mono_ms(self.utc_anchor, mono_ms),
                event_id,
                gps,
                details,
            ),
            StorageMode::Global => None,
        }
    }

    /// The line of the own state, for the log of it in a survey's session.
    pub fn log_local_sample(
        &self,
        mono_ms: u64,
        gps: GpsState,
        link_up: bool,
        last_rssi: Option<i16>,
        last_snr: Option<i16>,
        received: u32,
        missed: u32,
        app_crc_failures: u32,
    ) -> (line: Option<Text<LOCAL_LINE_CAPACITY>>)
        ensures
            line is Some <==> self.mode is Survey,
            line matches Some(record) ==> record@ == self.local_line(
                mono_ms,
                gps,
                link_up,
                last_rssi,
                last_snr,
                received,
                missed,
                app_crc_failures,
            ),
    {
        match self.mode {
            StorageMode::Survey { .. } => Some(
                local_record(
                    mono_ms,
                    utc_for_mono_ms(self.utc_anchor, mono_ms),
                    gps,
                    link_up,
                    last_rssi,
                    last_snr,
                    received,
                    missed,
                    app_crc_failures,
                ),
            ),
            StorageMode::Global => None,
        }
    }

    /// Counts a line of the own state that was written. The second result says whether all files
    /// of the survey are to be made durable now.
    pub fn local_sample_written(&mut self, mono_ms: u64, append_us: u64, bytes: u64) -> (result: (
        DiagWrites,
        bool,
    ))
        ensures
            final(self).local_records_written == one_more(old(self).local_records_written),
            result.1 == checkpoint_is_due(final(self).local_records_written),
            final(self).mode == old(self).mode,
            final(self).debug_online == old(self).debug_online,
            final(self).utc_anchor == old(self).utc_anchor,
            ({
                let (level, event_id, detail) = local_append_report(append_us, bytes);
                let line = old(self).diag_line(
                    level,
                    mono_ms,
                    "STORAGE"@,
                    event_id,
                    diag_detail_text(detail),
                );
                diag_effect(*old(self), level, line, result.0, *final(self))
            }),
    {
        self.local_records_written = self.local_records_written.saturating_add(1);
        let writes = self.diag_event(
            PersistentLogLevel::Trace,
            mono_ms,
            "STORAGE",
            "LOCAL_APPEND",
            DiagDetail::Append { us: append_us, bytes },
        );
        (writes, self.local_records_written % CHECKPOINT_INTERVAL == 0)
    }

    /// Reports how making the files of a survey durable went, each of them in its turn. It went
    /// well only where all of them did.
    pub fn checkpoint_done(&mut self, mono_ms: u64, flushed: [bool; 3], checkpoint_us: u64) -> (
        writes: DiagWrites)
        ensures
            final(self).same_but_buffer(*old(self)),
            ({
                let (level, event_id) = checkpoint_report(flushed@);
                let line = old(self).diag_line(
                    level,
                    mono_ms,
                    "STORAGE"@,
                    event_id,
                    diag_detail_text(DiagDetail::Checkpoint { us: checkpoint_us }),
                );
                diag_effect(*old(self), level, line, writes, *final(self))
            }),
    {
        if flushed[0] && flushed[1] && flushed[2] {
            self.diag_event(
                PersistentLogLevel::Debug,
                mono_ms,
                "STORAGE",
                "SURVEY_CHECKPOINT",
                DiagDetail::Checkpoint { us: checkpoint_us },
            )
        } else {
            self.diag_event(
                PersistentLogLevel::Error,
                mono_ms,
                "STORAGE",
                "SURVEY_CHECKPOINT_FAILED",
                DiagDetail::Checkpoint { us: checkpoint_us },
            )
        }
    }

    /// The line of a packet that counts, for the log of packets in a survey's session.
    pub fn log_receiver_packet(
        &self,
        mono_ms: u64,
        telemetry: TelemetryV1,
        rssi: i16,
        snr: i16,
        received: u32,
        missed: u32,
        app_crc_failures: u32,
        local_gps: GpsState,
    ) -> (line: Option<Text<RX_LINE_CAPACITY>>)
        ensures
            line is Some <==> self.mode is Survey,
            line matches Some(record) ==> record@ == self.packet_line(
                mono_ms,
                telemetry,
                rssi,
                snr,
                received,
                missed,
                app_crc_failures,
                local_gps,
            ),
    {
        match self.mode {
            StorageMode::Survey { .. } => Some(
                rx_record(
                    mono_ms,
                    utc_for_mono_ms(self.utc_anchor, mono_ms),
                    telemetry,
                    rssi,
                    snr,
                    received,
                    missed,
                    app_crc_failures,
                    local_gps,
                ),
            ),
            StorageMode::Global => None,
        }
    }

    /// Reports how writing the line of a packet went: the time that it took, `None` where it
    /// failed.
    pub fn receiver_packet_written(
        &mut self,
        mono_ms: u64,
        append_us: Option<u64>,
        bytes: u64,
    ) -> (result: (Option<TelemetryWriteStats>, DiagWrites))
        ensures
            final(self).same_but_buffer(*old(self)),
            result.0 == write_stats(append_us),
            ({
                let (level, event_id, detail) = append_report(append_us, bytes);
                let line = old(self).diag_line(
                    level,
                    mono_ms,
                    "STORAGE"@,
                    event_id,
                    diag_detail_text(detail),
                );
                diag_effect(*old(self), level, line, result.1, *final(self))
            }),
    {
        match append_us {
            Some(us) => {
                let writes = self.diag_event(
                    PersistentLogLevel::Trace,
                    mono_ms,
                    "STORAGE",
                    "RX_APPEND",
                    DiagDetail::Append { us, bytes },
                );
                (
                    Some(TelemetryWriteStats { append_us: us, checkpoint_us: None, total_us: us }),
                    writes,
                )
            },
            None => {
                let writes = self.diag_event(
                    PersistentLogLevel::Error,
                    mono_ms,
                    "STORAGE",
                    "RX_APPEND_FAILED",
                    DiagDetail::Nothing,
                );
                (None, writes)
            },
        }
    }

    /// The number of the session that is logged, 0 where none is.
    pub fn segment_number(&self) -> (number: u32)
        ensures
            number == logged_session(self.mode),
    {
        match self.mode {
            StorageMode::Survey { session_number, .. } => session_number,
            StorageMode::Global => 0,
        }
    }

    pub fn survey_logging_active(&self) -> (active: bool)
        ensures
            active == (self.mode is Survey),
    {
        match self.mode {
            StorageMode::Survey { .. } => true,
            StorageMode::Global => false,
        }
    }

    pub fn active_survey_id(&self) -> (id: Option<u32>)
        ensures
            id == logged_survey(self.mode),
    {
        match self.mode {
            StorageMode::Survey { survey_id, .. } => Some(survey_id),
            StorageMode::Global => None,
        }
    }
}

/// Whether lines of a level go out at once and are made durable.
pub open spec fn is_grave(level: PersistentLogLevel) -> bool {
    level == PersistentLogLevel::Error || level == PersistentLogLevel::Warn
}

/// What a diagnostic line leads to. A line of a level that is not logged leads to nothing, and one
/// that is too long is dropped. Any other goes behind those held back; they go out before it where
/// it would not fit behind them. A grave line, dropped or not, sends out all that is held back
/// then, to be made durable.
pub open spec fn diag_effect(
    before: Storage,
    level: PersistentLogLevel,
    line: Seq<char>,
    writes: DiagWrites,
    after: Storage,
) -> bool {
    let held = before.debug_buffer@;
    let spills = before.keeps(level, line) && byte_len(held) + byte_len(line)
        > DEBUG_BUFFER_CAPACITY;
    let pending = if !before.keeps(level, line) {
        held
    } else if spills {
        line
    } else {
        held + line
    };
    let goes_out = before.hears(level) && is_grave(level);
    &&& writes.spill is Some <==> spills
    &&& writes.spill matches Some(batch) ==> batch.text@ == held && !batch.flush
    &&& writes.flush is Some <==> goes_out
    &&& writes.flush matches Some(batch) ==> batch.text@ == pending && batch.flush
    &&& after.debug_buffer@ == (if goes_out {
        Seq::empty()
    } else {
        pending
    })
}

/// No diagnostic line gets lost or out of order but one that is not kept: what goes out and what
/// is held back are the lines that were held back and then the new one.
pub proof fn law_diagnostics_stay_in_order(
    before: Storage,
    level: PersistentLogLevel,
    line: Seq<char>,
    writes: DiagWrites,
    after: Storage,
)
    requires
        diag_effect(before, level, line, writes, after),
    ensures
        batch_text(writes.spill) + batch_text(writes.flush) + after.debug_buffer@
            == before.debug_buffer@ + (if before.keeps(level, line) {
            line
        } else {
            Seq::empty()
        }),
{
    let kept = if before.keeps(level, line) {
        line
    } else {
        Seq::empty()
    };
    assert(batch_text(writes.spill) + batch_text(writes.flush) + after.debug_buffer@
        =~= before.debug_buffer@ + kept);
}

/// A grave line leaves nothing held back: everything goes out, with the order to make it durable,
/// and the line is the last of it unless it was too long.
pub proof fn law_grave_lines_are_durable(
    before: Storage,
    level: PersistentLogLevel,
    line: Seq<char>,
    writes: DiagWrites,
    after: Storage,
)
    requires
        diag_effect(before, level, line, writes, after),
        before.hears(level),
        is_grave(level),
    ensures
        writes.flush matches Some(batch) && batch.flush,
        after.debug_buffer@.len() == 0,
        before.debug_buffer@.is_prefix_of(batch_text(writes.spill) + batch_text(writes.flush)),
        before.keeps(level, line) ==> line.is_suffix_of(batch_text(writes.flush)),
{
    let held = before.debug_buffer@;
    let out = batch_text(writes.spill) + batch_text(writes.flush);
    assert(out.take(held.len() as int) =~= held);
    assert((held + line).subrange(held.len() as int, (held + line).len() as int) =~= line);
}

/// A diagnostic line is longer than its details.
proof fn lemma_long_details(
    utc_ms: Option<u64>,
    uptime_ms: u64,
    level: Seq<char>,
    originator: Seq<char>,
    event_id: Seq<char>,
    details: Seq<char>,
)
    ensures
        byte_len(diag_text(utc_ms, uptime_ms, level, originator, event_id, details)) >= byte_len(
            details,
        ),
{
    let head = crate::records::diag_head(utc_ms, uptime_ms, level, originator, event_id);
    if details.len() == 0 {
        assert(details =~= Seq::<char>::empty());
        assert(encode_utf8(details) =~= Seq::<u8>::empty());
    } else {
        lemma_encode_concat(head, " "@);
        lemma_encode_concat(head + " "@, details);
        lemma_encode_concat(head + " "@ + details, "\n"@);
    }
}

/// Every level is logged wherever there is a diagnostic log, and a line of up to 320 bytes is kept.
/// Errors and warnings are the grave ones.
pub proof fn law_which_lines_are_kept(storage: Storage, level: PersistentLogLevel, line: Seq<char>)
    ensures
        storage.hears(level) <==> storage.debug_online,
        storage.keeps(level, line) <==> storage.debug_online && byte_len(line) <= 320,
        is_grave(level) <==> level is Error || level is Warn,
{
}

/// Levels are ordered by their gravity: error, warning, information, debug and trace. A threshold
/// keeps what is at least as grave as itself.
pub proof fn law_levels_are_ordered(level: PersistentLogLevel, threshold: PersistentLogLevel)
    ensures
        level.kept_under(level),
        level.kept_under(threshold) || threshold.kept_under(level),
        level.kept_under(threshold) && threshold.kept_under(level) ==> level == threshold,
        PersistentLogLevel::Error.kept_under(level),
        level.kept_under(PersistentLogLevel::Trace),
        level.kept_under(PersistentLogLevel::Warn) <==> is_grave(level),
        level.kept_under(PersistentLogLevel::Info) <==> is_grave(level) || level is Info,
        level.kept_under(PersistentLogLevel::Debug) <==> !(level is Trace),
{
}

/// Each level has its own name.
pub proof fn law_names_of_levels(level: PersistentLogLevel)
    ensures
        level is Error <==> level.spec_label()@ == "ERROR"@,
        level is Warn <==> level.spec_label()@ == "WARN"@,
        level is Info <==> level.spec_label()@ == "INFO"@,
        level is Debug <==> level.spec_label()@ == "DEBUG"@,
        level is Trace <==> level.spec_label()@ == "TRACE"@,
{
    reveal_strlit("ERROR");
    reveal_strlit("WARN");
    reveal_strlit("INFO");
    reveal_strlit("DEBUG");
    reveal_strlit("TRACE");
    assert("ERROR"@[0] == 'E' && "WARN"@[0] == 'W' && "INFO"@[0] == 'I');
    assert("DEBUG"@[0] == 'D' && "TRACE"@[0] == 'T');
}

/// What is held back never takes more than 2048 bytes: the lines held back go out, and are not made
/// durable, exactly where a line that is kept would take them beyond that.
pub proof fn law_lines_held_back_are_few(
    before: Storage,
    level: PersistentLogLevel,
    line: Seq<char>,
    writes: DiagWrites,
    after: Storage,
)
    requires
        diag_effect(before, level, line, writes, after),
        byte_len(before.debug_buffer@) <= 2_048,
    ensures
        byte_len(after.debug_buffer@) <= 2_048,
        writes.spill is Some <==> before.debug_online && byte_len(line) <= 320 && byte_len(
            before.debug_buffer@,
        ) + byte_len(line) > 2_048,
        writes.spill matches Some(batch) ==> !batch.flush && batch.text@ == before.debug_buffer@,
        writes.flush is Some <==> before.debug_online && (level is Error || level is Warn),
{
    lemma_encode_concat(before.debug_buffer@, line);
    assert(encode_utf8(Seq::<char>::empty()) =~= Seq::<u8>::empty());
}

/// The files of a survey are made durable behind each tenth line of the own state.
pub proof fn law_every_tenth_line_is_a_checkpoint(count: u32)
    ensures
        checkpoint_is_due(count) <==> count % 10 == 0,
        count < 4_294_967_295 ==> one_more(count) == count + 1,
        one_more(count) >= count,
        count <= 4_294_967_285 ==> checkpoint_is_due(count) == checkpoint_is_due(
            (count + 10) as u32,
        ),
{
}

/// Making the files of a survey durable went well only where all three of them were, and is an
/// error otherwise.
pub proof fn law_checkpoints_are_reported(flushed: Seq<bool>)
    requires
        flushed.len() == 3,
    ensures
        ({
            let (level, event_id) = checkpoint_report(flushed);
            let ok = forall|i: int| 0 <= i < 3 ==> #[trigger] flushed[i];
            &&& ok ==> level is Debug && event_id == "SURVEY_CHECKPOINT"@
            &&& !ok ==> level is Error && event_id == "SURVEY_CHECKPOINT_FAILED"@
        }),
{
    let (level, event_id) = checkpoint_report(flushed);
    if flushed[0] && flushed[1] && flushed[2] {
        assert(forall|i: int| 0 <= i < 3 ==> #[trigger] flushed[i]);
    }
}

/// A packet that was written is a trace with the time that it took and its size, and one that was
/// not is an error. Only of one that was written there are figures, in which all of the time is
/// that of writing.
pub proof fn law_written_packets_are_reported(append_us: Option<u64>, bytes: u64)
    ensures
        ({
            let (level, event_id, detail) = append_report(append_us, bytes);
            let stats = write_stats(append_us);
            &&& stats is Some <==> append_us is Some
            &&& append_us matches Some(us) ==> {
                &&& level is Trace
                &&& event_id == "RX_APPEND"@
                &&& detail == DiagDetail::Append { us, bytes }
                &&& stats->0.append_us == us
                &&& stats->0.total_us == us
                &&& stats->0.checkpoint_us is None
            }
            &&& append_us is None ==> {
                &&& level is Error
                &&& event_id == "RX_APPEND_FAILED"@
                &&& detail is Nothing
            }
        }),
{
}

/// What is logged is the session of the survey that storage was made with, and none without one.
pub proof fn law_logged_session(survey_id: u32, session_number: u32)
    ensures
        logged_session(StorageMode::Survey { survey_id, session_number }) == session_number,
        logged_survey(StorageMode::Survey { survey_id, session_number }) == Some(survey_id),
        logged_session(StorageMode::Global) == 0,
        logged_survey(StorageMode::Global) is None,
{
}

/// A line of the own state that was written is a trace with the time that it took and its size.
pub proof fn law_written_samples_are_reported(append_us: u64, bytes: u64)
    ensures
        ({
            let (level, event_id, detail) = local_append_report(append_us, bytes);
            &&& level is Trace
            &&& event_id == "LOCAL_APPEND"@
            &&& detail == DiagDetail::Append { us: append_us, bytes }
        }),
{
}

/// Before anything is logged no line is held back, none is counted, and no calendar time is known.
pub proof fn law_nothing_is_logged_at_first(
    storage: Storage,
    mode: StorageMode,
    debug_online: bool,
    mono_ms: u64,
)
    requires
        storage.is_fresh(mode, debug_online),
    ensures
        storage.mode == mode,
        storage.debug_online == debug_online,
        storage.debug_buffer@.len() == 0,
        storage.local_records_written == 0,
        utc_at(storage.utc_anchor, mono_ms) is None,
{
}

/// Lines that could not be written are not made durable, and neither are those of which that was
/// not asked. An empty batch is not written.
pub proof fn law_only_written_lines_are_made_durable(flush: bool, written: bool, text: Seq<char>)
    ensures
        !written ==> !flush_is_due(flush, written),
        !flush ==> !flush_is_due(flush, written),
        flush_is_due(true, true),
        write_is_due(text) <==> text.len() != 0,
{
}

} // verus!
