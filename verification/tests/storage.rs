use embedded_sdmmc::ShortFileName;
use golfer::gps::GpsState;
use golfer::packet::{DecodeError, GpsFixClass, TelemetryV1};
use golfer::records::{render_diag_detail, render_event_detail, DiagDetail, EventDetail};
use golfer::session::{
    boot_counter_text, boot_session_directory_name, metadata_record, parse_boot_counter,
    session_number, short_file_name, survey_directory_name, FileLookup, LogFile, SessionScan,
};
use golfer::storage::{PersistentLogLevel, Storage, StorageMode, TelemetryWriteStats};
use golfer::system::SystemInfo;

const SURVEY: StorageMode = StorageMode::Survey { survey_id: 0xA000_0003, session_number: 12 };

fn gps() -> GpsState {
    GpsState {
        online: true,
        fix: true,
        latitude_e7: Some(348_591_150),
        longitude_e7: Some(-823_353_900),
        satellites: Some(8),
        altitude_half_m: Some(-3),
        speed_cm_s: Some(51),
        course_cdeg: None,
        hdop_tenths: Some(9),
        utc_unix_ms: None,
    }
}

fn telemetry() -> TelemetryV1 {
    TelemetryV1 {
        sender_mode: 1,
        sender_system_id: 0x4D52_5500_0000_0001,
        survey_id: 0xA000_0003,
        sequence: 77,
        gps_unix_time: Some(1_742_733_319),
        latitude_e7: Some(-1),
        longitude_e7: None,
        altitude_half_m: Some(247),
        speed_cm_s: None,
        course_cdeg: Some(35_999),
        gps_fix_class: GpsFixClass::Differential,
        satellites: 10,
        hdop_tenths: None,
        temperature_centi_c: Some(-500),
        pressure_10pa: Some(10_132),
        humidity_half_percent: None,
        battery_soc_percent: Some(72),
    }
}

#[test]
fn levels() {
    assert_eq!(PersistentLogLevel::Error.label(), "ERROR");
    assert_eq!(PersistentLogLevel::Warn.label(), "WARN");
    assert_eq!(PersistentLogLevel::Info.label(), "INFO");
    assert_eq!(PersistentLogLevel::Debug.label(), "DEBUG");
    assert_eq!(PersistentLogLevel::Trace.label(), "TRACE");
    assert!(PersistentLogLevel::Error.forces_persistent_flush());
    assert!(PersistentLogLevel::Warn.forces_persistent_flush());
    assert!(!PersistentLogLevel::Info.forces_persistent_flush());
}

#[test]
fn diagnostics_are_held_back() {
    let mut storage = Storage::new(SURVEY, true);
    let writes = storage.diag(PersistentLogLevel::Info, 1_234, "BOOT", "GPS_INIT", "result=OK");
    assert!(writes.spill.is_none());
    assert!(writes.flush.is_none());
    assert_eq!(
        storage.debug_buffer.text(),
        "NA UNKNOWN 1234 INFO BOOT GPS_INIT result=OK\n"
    );
    assert!(storage.update_time_anchor(1_000, 1_700_000_000_000));
    assert!(!storage.update_time_anchor(1_000, 1_700_000_000_000));
    let writes = storage.diag(PersistentLogLevel::Error, 2_000, "STORAGE", "RX_APPEND_FAILED", "");
    assert!(writes.spill.is_none());
    let batch = writes.flush.unwrap();
    assert!(batch.flush);
    assert!(batch.needs_write());
    assert!(batch.needs_flush(true));
    assert!(!batch.needs_flush(false));
    assert_eq!(
        batch.text.text(),
        "NA UNKNOWN 1234 INFO BOOT GPS_INIT result=OK\n\
         1700000001000 GPS 2000 ERROR STORAGE RX_APPEND_FAILED\n"
    );
    assert!(storage.debug_buffer.is_empty());
}

#[test]
fn a_full_buffer_goes_out_first() {
    let mut storage = Storage::new(SURVEY, true);
    let details = "x".repeat(280);
    let mut lines = 0;
    let spilled = loop {
        let writes = storage.diag(PersistentLogLevel::Trace, 1, "A", "B", &details);
        lines += 1;
        if let Some(batch) = writes.spill {
            break batch;
        }
        assert!(lines < 10);
    };
    let line = format!("NA UNKNOWN 1 TRACE A B {}\n", details);
    assert_eq!(line.len(), 304);
    assert_eq!(lines, 7);
    assert_eq!(spilled.text.text(), line.repeat(6));
    assert!(!spilled.flush);
    assert_eq!(storage.debug_buffer.text(), line);
}

#[test]
fn a_line_that_is_too_long_is_not_kept() {
    let mut storage = Storage::new(SURVEY, true);
    let fits = "x".repeat(296);
    storage.diag(PersistentLogLevel::Info, 1, "A", "B", &fits);
    assert_eq!(storage.debug_buffer.text().len(), 319);
    let fits = "x".repeat(297);
    storage.diag(PersistentLogLevel::Info, 1, "A", "B", &fits);
    assert_eq!(storage.debug_buffer.text().len(), 639);
    let long = "x".repeat(298);
    storage.diag(PersistentLogLevel::Info, 1, "A", "B", &long);
    assert_eq!(storage.debug_buffer.text().len(), 639);
    let writes = storage.diag(PersistentLogLevel::Error, 1, "A", "B", &long);
    assert!(writes.spill.is_none());
    let batch = writes.flush.unwrap();
    assert!(batch.flush);
    assert_eq!(batch.text.text().len(), 639);
    assert!(storage.debug_buffer.is_empty());
}

#[test]
fn without_a_diagnostic_log_nothing_is_kept() {
    let mut storage = Storage::new(SURVEY, false);
    let writes = storage.diag(PersistentLogLevel::Error, 1, "A", "B", "");
    assert!(writes.flush.is_none());
    assert!(storage.debug_buffer.is_empty());
    assert!(storage.flush_debug_buffer(true).is_none());
}

#[test]
fn events() {
    let mut storage = Storage::new(SURVEY, true);
    storage.update_time_anchor(0, 1_700_000_000_000);
    let line = storage.log_event(1_500, "GPS_FIX_LOST", GpsState::offline(), "").unwrap();
    assert_eq!(
        line.text(),
        "MONO_MS=1500,UTC_MS=1700000001500,EVENT=GPS_FIX_LOST,GPS_ONLINE=0,GPS_FIX=0,\
         LAT_E7=NA,LON_E7=NA\n"
    );
    let line = storage.log_event(1_500, "LINK_LOST", gps(), "LAST_SEQ=4").unwrap();
    assert_eq!(
        line.text(),
        "MONO_MS=1500,UTC_MS=1700000001500,EVENT=LINK_LOST,GPS_ONLINE=1,GPS_FIX=1,\
         LAT_E7=348591150,LON_E7=-823353900,LAST_SEQ=4\n"
    );
    assert!(storage.log_event(1, "E", gps(), &"x".repeat(600)).is_none());
    let global = Storage::new(StorageMode::Global, true);
    assert!(global.log_event(1, "E", gps(), "").is_none());
}

#[test]
fn details() {
    let text = render_event_detail(EventDetail::LinkLost {
        last_sequence: 9,
        last_rx_mono_ms: 100_000,
        age_ms: 5_000,
    });
    assert_eq!(text.unwrap().text(), "LAST_SEQ=9,LAST_RX_MONO_MS=100000,AGE_MS=5000");
    let text = render_event_detail(EventDetail::TimeSync { utc_ms: 7, mono_ms: 8 });
    assert_eq!(
        text.unwrap().text(),
        "SOURCE=GPS_RMC_CONFIRMED,UTC_ANCHOR_MS=7,MONO_ANCHOR_MS=8,CONFIRMED_SAMPLES=2"
    );
    let text = render_diag_detail(DiagDetail::Rejected {
        len: 12,
        error: DecodeError::BadMarker,
        count: 3,
        rssi: -100,
        snr: -5,
    });
    assert_eq!(text.unwrap().text(), "len=12 error=BAD_MARKER count=3 rssi=-100 snr=-5");
    let text = render_diag_detail(DiagDetail::Suspicious {
        previous: 1,
        current: 50,
        gap: 49,
        elapsed_ms: 1_000,
        expected_gap: 1,
        max_gap: 6,
        sender: 7,
        survey: 8,
        mode: 1,
        rssi: -90,
        snr: 3,
    });
    assert_eq!(
        text.unwrap().text(),
        "prev=1 current=50 gap=49 elapsed_ms=1000 expected=1 max=6 sender=7 survey=8 mode=1 \
         rssi=-90 snr=3 app_crc=OK"
    );
    assert_eq!(render_diag_detail(DiagDetail::Nothing).unwrap().text(), "");
}

#[test]
fn the_own_state() {
    let mut storage = Storage::new(SURVEY, true);
    let line = storage
        .log_local_sample(60_000, gps(), true, Some(-97), None, 10, 2, 1)
        .unwrap();
    assert_eq!(
        line.text(),
        "MONO_MS=60000,UTC_MS=NA,FLAGS=0000000F,GPS_ONLINE=1,GPS_FIX=1,LAT_E7=348591150,\
         LON_E7=-823353900,ALT_HALF_M=-3,SPEED_CM_S=51,COURSE_CDEG=NA,SATS=8,HDOP_TENTHS=9,\
         LINK_UP=1,LAST_RSSI=-97,LAST_SNR=NA,RX=10,MISSED=2,APP_CRC_FAIL=1,TEMP_CENTI_C=NA,\
         PRESSURE_10PA=NA,HUMIDITY_HALF_PCT=NA,BATTERY_SOC=NA\n"
    );
    let global = Storage::new(StorageMode::Global, true);
    assert!(global.log_local_sample(1, gps(), true, None, None, 0, 0, 0).is_none());
    for count in 1..=20 {
        let (writes, checkpoint) = storage.local_sample_written(count, 321, 200);
        assert!(writes.flush.is_none());
        assert_eq!(checkpoint, count % 10 == 0);
    }
    assert!(storage
        .debug_buffer
        .text()
        .ends_with("NA UNKNOWN 20 TRACE STORAGE LOCAL_APPEND us=321 bytes=200\n"));
    let batch = storage.flush_debug_buffer(true).unwrap();
    assert!(batch.flush);
    let writes = storage.checkpoint_done(20, [true, true, true], 999);
    assert!(writes.flush.is_none());
    assert_eq!(
        storage.debug_buffer.text(),
        "NA UNKNOWN 20 DEBUG STORAGE SURVEY_CHECKPOINT us=999\n"
    );
    let writes = storage.checkpoint_done(20, [true, false, true], 999);
    assert!(writes
        .flush
        .unwrap()
        .text
        .text()
        .ends_with("NA UNKNOWN 20 ERROR STORAGE SURVEY_CHECKPOINT_FAILED us=999\n"));
}

#[test]
fn the_longest_lines_fit() {
    let worst = GpsState {
        online: true,
        fix: true,
        latitude_e7: Some(i32::MIN),
        longitude_e7: Some(i32::MIN),
        satellites: Some(255),
        altitude_half_m: Some(i16::MIN),
        speed_cm_s: Some(u16::MAX),
        course_cdeg: Some(u16::MAX),
        hdop_tenths: Some(255),
        utc_unix_ms: None,
    };
    let mut storage = Storage::new(SURVEY, true);
    storage.update_time_anchor(0, u64::MAX);
    let line = storage
        .log_local_sample(
            u64::MAX,
            worst,
            true,
            Some(i16::MIN),
            Some(i16::MIN),
            u32::MAX,
            u32::MAX,
            u32::MAX,
        )
        .unwrap();
    assert_eq!(line.text().len(), 379);

    let details = render_event_detail(EventDetail::UtcRejected {
        candidate_utc_ms: u64::MAX,
        previous_utc_ms: u64::MAX,
        previous_mono_ms: u64::MAX,
    })
    .unwrap();
    let line = storage.log_event(u64::MAX, "GPS_UTC_REJECTED", worst, details.text()).unwrap();
    assert_eq!(line.text().len(), 267);

    storage.diag_event(
        PersistentLogLevel::Trace,
        u64::MAX,
        "STORAGE",
        "SEQ_CANDIDATE_NOT_CONFIRMED",
        DiagDetail::Suspicious {
            previous: u32::MAX,
            current: u32::MAX,
            gap: u32::MAX,
            elapsed_ms: u64::MAX,
            expected_gap: u64::MAX,
            max_gap: u64::MAX,
            sender: u64::MAX,
            survey: u32::MAX,
            mode: 255,
            rssi: i16::MIN,
            snr: i16::MIN,
        },
    );
    assert_eq!(storage.debug_buffer.text().len(), 314);
}

#[test]
fn received_packets() {
    let mut storage = Storage::new(SURVEY, true);
    let line = storage
        .log_receiver_packet(5_000, telemetry(), -97, 8, 10, 2, 1, gps())
        .unwrap();
    assert_eq!(
        line.text(),
        "MONO_MS=5000,UTC_MS=NA,SEQ=77,SENDER=4D52550000000001,SURVEY=A0000003,MODE=1,RSSI=-97,\
         SNR=8,RX=10,MISSED=2,APP_CRC_FAIL=1,LOCAL_GPS_FIX=1,LOCAL_LAT_E7=348591150,\
         LOCAL_LON_E7=-823353900,TX_UTC_S=1742733319,TX_LAT_E7=-1,TX_LON_E7=NA,\
         TX_ALT_HALF_M=247,TX_SPEED_CM_S=NA,TX_COURSE_CDEG=35999,TX_FIX=2,TX_SATS=10,\
         TX_HDOP_TENTHS=NA,TX_TEMP_CENTI_C=-500,TX_PRESSURE_10PA=10132,\
         TX_HUMIDITY_HALF_PCT=NA,TX_BATTERY_SOC=72\n"
    );
    let (stats, writes) = storage.receiver_packet_written(5_000, Some(750), 400);
    assert_eq!(
        stats,
        Some(TelemetryWriteStats { append_us: 750, checkpoint_us: None, total_us: 750 })
    );
    assert!(writes.flush.is_none());
    let (stats, writes) = storage.receiver_packet_written(5_000, None, 400);
    assert_eq!(stats, None);
    assert_eq!(
        writes.flush.unwrap().text.text(),
        "NA UNKNOWN 5000 TRACE STORAGE RX_APPEND us=750 bytes=400\n\
         NA UNKNOWN 5000 ERROR STORAGE RX_APPEND_FAILED\n"
    );
    let global = Storage::new(StorageMode::Global, true);
    assert!(global.log_receiver_packet(1, telemetry(), 0, 0, 0, 0, 0, gps()).is_none());
}

#[test]
fn what_is_logged() {
    let survey = Storage::new(SURVEY, true);
    assert!(survey.survey_logging_active());
    assert_eq!(survey.active_survey_id(), Some(0xA000_0003));
    assert_eq!(survey.segment_number(), 12);
    let global = Storage::new(StorageMode::Global, true);
    assert!(!global.survey_logging_active());
    assert_eq!(global.active_survey_id(), None);
    assert_eq!(global.segment_number(), 0);
}

#[test]
fn directory_names() {
    assert_eq!(survey_directory_name(0xA000_0003).text(), "A0000003");
    assert_eq!(survey_directory_name(0xF).text(), "0000000F");
    assert_eq!(boot_session_directory_name(12).unwrap().text(), "B0000012");
    assert_eq!(boot_session_directory_name(9_999_999).unwrap().text(), "B9999999");
    assert!(boot_session_directory_name(0).is_none());
    assert!(boot_session_directory_name(10_000_000).is_none());
    assert_eq!(session_number(b"B0000012"), Some(12));
    assert_eq!(session_number(b"C0000012"), None);
    assert_eq!(session_number(b"B000001"), None);
    assert_eq!(session_number(b"B00000X2"), None);
}

#[test]
fn the_counter() {
    assert_eq!(boot_counter_text(13).text(), "00000013\n");
    assert_eq!(boot_counter_text(u32::MAX).text(), "4294967295\n");
    for number in [0, 1, 13, 9_999_999, 10_000_000, 99_999_999, 100_000_000, u32::MAX] {
        let text = boot_counter_text(number);
        assert_eq!(parse_boot_counter(text.text().as_bytes()), Some(number));
    }
    assert_eq!(parse_boot_counter(b" \r\n\t42 17"), Some(42));
    assert_eq!(parse_boot_counter(b"42"), Some(42));
    assert_eq!(parse_boot_counter(b"00000006\n456\nxyz"), Some(6));
    assert_eq!(parse_boot_counter(b"42x"), None);
    assert_eq!(parse_boot_counter(b"x42"), None);
    assert_eq!(parse_boot_counter(b""), None);
    assert_eq!(parse_boot_counter(b"  "), None);
    assert_eq!(parse_boot_counter(b"4294967296"), None);
}

#[test]
fn files_are_found_by_their_short_names() {
    let system_log = ShortFileName::create_from_str("SYS_LOG.TXT").unwrap();
    assert!(short_file_name(LogFile::System) == system_log);
    assert!(short_file_name(LogFile::Rx) == ShortFileName::create_from_str("rx.log").unwrap());
    assert_eq!(LogFile::BootCounter.filename(), "BOOT.NXT");
    let mut lookup = FileLookup::new(LogFile::Debug);
    lookup.visit(&ShortFileName::create_from_str("DEBUG.TXT").unwrap());
    lookup.visit(&ShortFileName::create_from_str("EVENT.LOG").unwrap());
    assert!(!lookup.found);
    lookup.visit(&ShortFileName::create_from_str("DEBUG.LOG").unwrap());
    lookup.visit(&ShortFileName::create_from_str("LOCAL.LOG").unwrap());
    assert!(lookup.found);
}

#[test]
fn the_highest_session_is_found() {
    let mut scan = SessionScan::new();
    for (is_directory, name) in [
        (true, "B0000007"),
        (true, "B0000012"),
        (false, "B0000099"),
        (true, "BACKUP"),
        (true, "B0000003"),
        (true, "."),
    ] {
        scan.visit(is_directory, &ShortFileName::create_from_str(name).unwrap());
    }
    assert_eq!(scan.highest, 12);
}

#[test]
fn the_description_of_a_session() {
    let info = SystemInfo::new(0x1122_3344_5566_7788, "0.1.0");
    let text = metadata_record(0xA000_0003, 12, info, 3_456).unwrap();
    assert_eq!(
        text.text(),
        "LOG_SCHEMA=3\r\nIMPLEMENTATION_STAGE=V2B1\r\nSURVEY_ID=A0000003\r\n\
         SYSTEM_ID=1122334455667788\r\nBOOT_SESSION=12\r\nSESSION_DIR=B0000012\r\n\
         FIRMWARE=0.1.0\r\nRF_PROTOCOL=1\r\nCONFIG_SCHEMA=1\r\nSTART_MONO_MS=3456\r\n\
         TIME_MODEL=MONOTONIC_PLUS_GPS_UTC_ANCHOR\r\nLOCAL_SAMPLE_HZ=1\r\n\
         RX_PACKET_FORMAT=TELEMETRY_V1\r\n"
    );
    assert!(metadata_record(0xA000_0003, 0, info, 3_456).is_none());
}
