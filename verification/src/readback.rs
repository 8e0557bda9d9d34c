//! What a reader of the logs learns from their lines.
//!
//! Nothing here is executed: each law says what stands behind the keys of a line.
use vstd::prelude::*;

use crate::digits::pow10;
use crate::format::{
    decimal, decimal_fixed, decimal_signed, flag, hex_fixed, optional_i16, optional_i32,
    optional_u16, optional_u32, optional_u64, optional_u8,
};
use crate::gps::GpsState;
use crate::packet::{DecodeError, GpsFixClass, TelemetryV1};
use crate::reader::{
    free_of, int_i16, int_i32, int_u16, int_u32, int_u64, int_u8, is_digit_char,
    law_fixed_reads_back, law_flag_reads_back, law_optional_reads_back, lemma_const_item,
    lemma_first_item, lemma_first_text, lemma_follow, lemma_goes_on, lemma_hex_item, lemma_item,
    lemma_line_feed, lemma_reads_decimal, lemma_reads_signed, lemma_tells_one, lemma_text_item,
    marks, pieces, pow16, read_nat, read_optional, split, tells, tells_hex, tells_text,
};
use crate::records::{
    diag_detail_text, diag_head, diag_text, event_detail_text, event_text, local_flags,
    local_record_text, rx_record_text, DiagDetail, EventDetail,
};
use crate::session::{is_session, metadata_text, session_name};
use crate::storage::LOG_SCHEMA_VERSION;
use crate::system::SystemInfo;

verus! {

/// A truth value as a number.
pub open spec fn bit(value: bool) -> int {
    if value {
        1
    } else {
        0
    }
}

/// The number that stands for a class of fix.
pub open spec fn fix_number(class: GpsFixClass) -> int {
    match class {
        GpsFixClass::NoFix => 0,
        GpsFixClass::Standard => 1,
        GpsFixClass::Differential => 2,
        GpsFixClass::EnhancedOrOther => 3,
    }
}

/// A line of the log of received packets can be read back: it is closed by a line feed, commas part
/// its values, and behind each key stands the value that the line was made of, `NA` exactly where
/// there was none.
#[verifier::rlimit(60)]
pub proof fn law_rx_record_reads_back(
    mono_ms: u64,
    utc_ms: Option<u64>,
    telemetry: TelemetryV1,
    rssi: i16,
    snr: i16,
    received: u32,
    missed: u32,
    app_crc_failures: u32,
    local_gps: GpsState,
)
    ensures
        ({
            let line = rx_record_text(
                mono_ms,
                utc_ms,
                telemetry,
                rssi,
                snr,
                received,
                missed,
                app_crc_failures,
                local_gps,
            );
            let text = line.drop_last();
            &&& line.last() == '\n'
            &&& pieces(text, ',') == 27
            &&& tells(text, ',', 0, "MONO_MS="@, Some(mono_ms as int))
            &&& tells(text, ',', 1, "UTC_MS="@, int_u64(utc_ms))
            &&& tells(text, ',', 2, "SEQ="@, Some(telemetry.sequence as int))
            &&& tells_hex(text, ',', 3, "SENDER="@, telemetry.sender_system_id as int, 16)
            &&& tells_hex(text, ',', 4, "SURVEY="@, telemetry.survey_id as int, 8)
            &&& tells(text, ',', 5, "MODE="@, Some(telemetry.sender_mode as int))
            &&& tells(text, ',', 6, "RSSI="@, Some(rssi as int))
            &&& tells(text, ',', 7, "SNR="@, Some(snr as int))
            &&& tells(text, ',', 8, "RX="@, Some(received as int))
            &&& tells(text, ',', 9, "MISSED="@, Some(missed as int))
            &&& tells(text, ',', 10, "APP_CRC_FAIL="@, Some(app_crc_failures as int))
            &&& tells(text, ',', 11, "LOCAL_GPS_FIX="@, Some(bit(local_gps.fix)))
            &&& tells(text, ',', 12, "LOCAL_LAT_E7="@, int_i32(local_gps.latitude_e7))
            &&& tells(text, ',', 13, "LOCAL_LON_E7="@, int_i32(local_gps.longitude_e7))
            &&& tells(text, ',', 14, "TX_UTC_S="@, int_u32(telemetry.gps_unix_time))
            &&& tells(text, ',', 15, "TX_LAT_E7="@, int_i32(telemetry.latitude_e7))
            &&& tells(text, ',', 16, "TX_LON_E7="@, int_i32(telemetry.longitude_e7))
            &&& tells(text, ',', 17, "TX_ALT_HALF_M="@, int_i16(telemetry.altitude_half_m))
            &&& tells(text, ',', 18, "TX_SPEED_CM_S="@, int_u16(telemetry.speed_cm_s))
            &&& tells(text, ',', 19, "TX_COURSE_CDEG="@, int_u16(telemetry.course_cdeg))
            &&& tells(text, ',', 20, "TX_FIX="@, Some(fix_number(telemetry.gps_fix_class)))
            &&& tells(text, ',', 21, "TX_SATS="@, Some(telemetry.satellites as int))
            &&& tells(text, ',', 22, "TX_HDOP_TENTHS="@, int_u8(telemetry.hdop_tenths))
            &&& tells(text, ',', 23, "TX_TEMP_CENTI_C="@, int_i16(telemetry.temperature_centi_c))
            &&& tells(text, ',', 24, "TX_PRESSURE_10PA="@, int_u16(telemetry.pressure_10pa))
            &&& tells(
                text,
                ',',
                25,
                "TX_HUMIDITY_HALF_PCT="@,
                int_u8(telemetry.humidity_half_percent),
            )
            &&& tells(text, ',', 26, "TX_BATTERY_SOC="@, int_u8(telemetry.battery_soc_percent))
        }),
{
    lemma_rx_marks();
    assert(free_of("MONO_MS="@, ',')) by {
        reveal(free_of);
        reveal_strlit("MONO_MS=");
    }
    lemma_reads_decimal(mono_ms as nat);
    lemma_first_item(',', "MONO_MS="@, decimal(mono_ms as nat), Some(mono_ms as int));
    let s = "MONO_MS="@ + decimal(mono_ms as nat);
    law_optional_reads_back(utc_ms, None, None, None, None, None);
    lemma_item(s, ',', ",UTC_MS="@, "UTC_MS="@, optional_u64(utc_ms), int_u64(utc_ms));
    lemma_goes_on(s, s + ",UTC_MS="@ + optional_u64(utc_ms), ',');
    let s = s + ",UTC_MS="@ + optional_u64(utc_ms);
    lemma_reads_decimal(telemetry.sequence as nat);
    lemma_item(
        s,
        ',',
        ",SEQ="@,
        "SEQ="@,
        decimal(telemetry.sequence as nat),
        Some(telemetry.sequence as int),
    );
    lemma_goes_on(s, s + ",SEQ="@ + decimal(telemetry.sequence as nat), ',');
    let s = s + ",SEQ="@ + decimal(telemetry.sequence as nat);
    assert(telemetry.sender_system_id < pow16(16)) by {
        reveal_with_fuel(pow16, 17);
    }
    lemma_hex_item(s, ',', ",SENDER="@, "SENDER="@, telemetry.sender_system_id as nat, 16);
    lemma_goes_on(s, s + ",SENDER="@ + hex_fixed(telemetry.sender_system_id as nat, 16), ',');
    let s = s + ",SENDER="@ + hex_fixed(telemetry.sender_system_id as nat, 16);
    assert(telemetry.survey_id < pow16(8)) by {
        reveal_with_fuel(pow16, 17);
    }
    lemma_hex_item(s, ',', ",SURVEY="@, "SURVEY="@, telemetry.survey_id as nat, 8);
    lemma_goes_on(s, s + ",SURVEY="@ + hex_fixed(telemetry.survey_id as nat, 8), ',');
    let s = s + ",SURVEY="@ + hex_fixed(telemetry.survey_id as nat, 8);
    lemma_reads_decimal(telemetry.sender_mode as nat);
    lemma_item(
        s,
        ',',
        ",MODE="@,
        "MODE="@,
        decimal(telemetry.sender_mode as nat),
        Some(telemetry.sender_mode as int),
    );
    lemma_goes_on(s, s + ",MODE="@ + decimal(telemetry.sender_mode as nat), ',');
    let s = s + ",MODE="@ + decimal(telemetry.sender_mode as nat);
    lemma_reads_signed(rssi as int);
    lemma_item(s, ',', ",RSSI="@, "RSSI="@, decimal_signed(rssi as int), Some(rssi as int));
    lemma_goes_on(s, s + ",RSSI="@ + decimal_signed(rssi as int), ',');
    let s = s + ",RSSI="@ + decimal_signed(rssi as int);
    lemma_reads_signed(snr as int);
    lemma_item(s, ',', ",SNR="@, "SNR="@, decimal_signed(snr as int), Some(snr as int));
    lemma_goes_on(s, s + ",SNR="@ + decimal_signed(snr as int), ',');
    let s = s + ",SNR="@ + decimal_signed(snr as int);
    lemma_reads_decimal(received as nat);
    lemma_item(s, ',', ",RX="@, "RX="@, decimal(received as nat), Some(received as int));
    lemma_goes_on(s, s + ",RX="@ + decimal(received as nat), ',');
    let s = s + ",RX="@ + decimal(received as nat);
    lemma_reads_decimal(missed as nat);
    lemma_item(s, ',', ",MISSED="@, "MISSED="@, decimal(missed as nat), Some(missed as int));
    lemma_goes_on(s, s + ",MISSED="@ + decimal(missed as nat), ',');
    let s = s + ",MISSED="@ + decimal(missed as nat);
    lemma_reads_decimal(app_crc_failures as nat);
    lemma_item(
        s,
        ',',
        ",APP_CRC_FAIL="@,
        "APP_CRC_FAIL="@,
        decimal(app_crc_failures as nat),
        Some(app_crc_failures as int),
    );
    lemma_goes_on(s, s + ",APP_CRC_FAIL="@ + decimal(app_crc_failures as nat), ',');
    let s = s + ",APP_CRC_FAIL="@ + decimal(app_crc_failures as nat);
    law_flag_reads_back(local_gps.fix);
    lemma_item(
        s,
        ',',
        ",LOCAL_GPS_FIX="@,
        "LOCAL_GPS_FIX="@,
        flag(local_gps.fix),
        Some(bit(local_gps.fix)),
    );
    lemma_goes_on(s, s + ",LOCAL_GPS_FIX="@ + flag(local_gps.fix), ',');
    let s = s + ",LOCAL_GPS_FIX="@ + flag(local_gps.fix);
    law_optional_reads_back(None, None, None, None, local_gps.latitude_e7, None);
    lemma_item(
        s,
        ',',
        ",LOCAL_LAT_E7="@,
        "LOCAL_LAT_E7="@,
        optional_i32(local_gps.latitude_e7),
        int_i32(local_gps.latitude_e7),
    );
    lemma_goes_on(s, s + ",LOCAL_LAT_E7="@ + optional_i32(local_gps.latitude_e7), ',');
    let s = s + ",LOCAL_LAT_E7="@ + optional_i32(local_gps.latitude_e7);
    law_optional_reads_back(None, None, None, None, local_gps.longitude_e7, None);
    lemma_item(
        s,
        ',',
        ",LOCAL_LON_E7="@,
        "LOCAL_LON_E7="@,
        optional_i32(local_gps.longitude_e7),
        int_i32(local_gps.longitude_e7),
    );
    lemma_goes_on(s, s + ",LOCAL_LON_E7="@ + optional_i32(local_gps.longitude_e7), ',');
    let s = s + ",LOCAL_LON_E7="@ + optional_i32(local_gps.longitude_e7);
    law_optional_reads_back(None, telemetry.gps_unix_time, None, None, None, None);
    lemma_item(
        s,
        ',',
        ",TX_UTC_S="@,
        "TX_UTC_S="@,
        optional_u32(telemetry.gps_unix_time),
        int_u32(telemetry.gps_unix_time),
    );
    lemma_goes_on(s, s + ",TX_UTC_S="@ + optional_u32(telemetry.gps_unix_time), ',');
    let s = s + ",TX_UTC_S="@ + optional_u32(telemetry.gps_unix_time);
    law_optional_reads_back(None, None, None, None, telemetry.latitude_e7, None);
    lemma_item(
        s,
        ',',
        ",TX_LAT_E7="@,
        "TX_LAT_E7="@,
        optional_i32(telemetry.latitude_e7),
        int_i32(telemetry.latitude_e7),
    );
    lemma_goes_on(s, s + ",TX_LAT_E7="@ + optional_i32(telemetry.latitude_e7), ',');
    let s = s + ",TX_LAT_E7="@ + optional_i32(telemetry.latitude_e7);
    law_optional_reads_back(None, None, None, None, telemetry.longitude_e7, None);
    lemma_item(
        s,
        ',',
        ",TX_LON_E7="@,
        "TX_LON_E7="@,
        optional_i32(telemetry.longitude_e7),
        int_i32(telemetry.longitude_e7),
    );
    lemma_goes_on(s, s + ",TX_LON_E7="@ + optional_i32(telemetry.longitude_e7), ',');
    let s = s + ",TX_LON_E7="@ + optional_i32(telemetry.longitude_e7);
    law_optional_reads_back(None, None, None, None, None, telemetry.altitude_half_m);
    lemma_item(
        s,
        ',',
        ",TX_ALT_HALF_M="@,
        "TX_ALT_HALF_M="@,
        optional_i16(telemetry.altitude_half_m),
        int_i16(telemetry.altitude_half_m),
    );
    lemma_goes_on(s, s + ",TX_ALT_HALF_M="@ + optional_i16(telemetry.altitude_half_m), ',');
    let s = s + ",TX_ALT_HALF_M="@ + optional_i16(telemetry.altitude_half_m);
    law_optional_reads_back(None, None, telemetry.speed_cm_s, None, None, None);
    lemma_item(
        s,
        ',',
        ",TX_SPEED_CM_S="@,
        "TX_SPEED_CM_S="@,
        optional_u16(telemetry.speed_cm_s),
        int_u16(telemetry.speed_cm_s),
    );
    lemma_goes_on(s, s + ",TX_SPEED_CM_S="@ + optional_u16(telemetry.speed_cm_s), ',');
    let s = s + ",TX_SPEED_CM_S="@ + optional_u16(telemetry.speed_cm_s);
    law_optional_reads_back(None, None, telemetry.course_cdeg, None, None, None);
    lemma_item(
        s,
        ',',
        ",TX_COURSE_CDEG="@,
        "TX_COURSE_CDEG="@,
        optional_u16(telemetry.course_cdeg),
        int_u16(telemetry.course_cdeg),
    );
    lemma_goes_on(s, s + ",TX_COURSE_CDEG="@ + optional_u16(telemetry.course_cdeg), ',');
    let s = s + ",TX_COURSE_CDEG="@ + optional_u16(telemetry.course_cdeg);
    lemma_reads_decimal(telemetry.gps_fix_class.code());
    lemma_item(
        s,
        ',',
        ",TX_FIX="@,
        "TX_FIX="@,
        decimal(telemetry.gps_fix_class.code()),
        Some(fix_number(telemetry.gps_fix_class)),
    );
    lemma_goes_on(s, s + ",TX_FIX="@ + decimal(telemetry.gps_fix_class.code()), ',');
    let s = s + ",TX_FIX="@ + decimal(telemetry.gps_fix_class.code());
    lemma_reads_decimal(telemetry.satellites as nat);
    lemma_item(
        s,
        ',',
        ",TX_SATS="@,
        "TX_SATS="@,
        decimal(telemetry.satellites as nat),
        Some(telemetry.satellites as int),
    );
    lemma_goes_on(s, s + ",TX_SATS="@ + decimal(telemetry.satellites as nat), ',');
    let s = s + ",TX_SATS="@ + decimal(telemetry.satellites as nat);
    law_optional_reads_back(None, None, None, telemetry.hdop_tenths, None, None);
    lemma_item(
        s,
        ',',
        ",TX_HDOP_TENTHS="@,
        "TX_HDOP_TENTHS="@,
        optional_u8(telemetry.hdop_tenths),
        int_u8(telemetry.hdop_tenths),
    );
    lemma_goes_on(s, s + ",TX_HDOP_TENTHS="@ + optional_u8(telemetry.hdop_tenths), ',');
    let s = s + ",TX_HDOP_TENTHS="@ + optional_u8(telemetry.hdop_tenths);
    law_optional_reads_back(None, None, None, None, None, telemetry.temperature_centi_c);
    lemma_item(
        s,
        ',',
        ",TX_TEMP_CENTI_C="@,
        "TX_TEMP_CENTI_C="@,
        optional_i16(telemetry.temperature_centi_c),
        int_i16(telemetry.temperature_centi_c),
    );
    lemma_goes_on(s, s + ",TX_TEMP_CENTI_C="@ + optional_i16(telemetry.temperature_centi_c), ',');
    let s = s + ",TX_TEMP_CENTI_C="@ + optional_i16(telemetry.temperature_centi_c);
    law_optional_reads_back(None, None, telemetry.pressure_10pa, None, None, None);
    lemma_item(
        s,
        ',',
        ",TX_PRESSURE_10PA="@,
        "TX_PRESSURE_10PA="@,
        optional_u16(telemetry.pressure_10pa),
        int_u16(telemetry.pressure_10pa),
    );
    lemma_goes_on(s, s + ",TX_PRESSURE_10PA="@ + optional_u16(telemetry.pressure_10pa), ',');
    let s = s + ",TX_PRESSURE_10PA="@ + optional_u16(telemetry.pressure_10pa);
    law_optional_reads_back(None, None, None, telemetry.humidity_half_percent, None, None);
    lemma_item(
        s,
        ',',
        ",TX_HUMIDITY_HALF_PCT="@,
        "TX_HUMIDITY_HALF_PCT="@,
        optional_u8(telemetry.humidity_half_percent),
        int_u8(telemetry.humidity_half_percent),
    );
    lemma_goes_on(
        s,
        s + ",TX_HUMIDITY_HALF_PCT="@ + optional_u8(telemetry.humidity_half_percent),
        ',',
    );
    let s = s + ",TX_HUMIDITY_HALF_PCT="@ + optional_u8(telemetry.humidity_half_percent);
    law_optional_reads_back(None, None, None, telemetry.battery_soc_percent, None, None);
    lemma_item(
        s,
        ',',
        ",TX_BATTERY_SOC="@,
        "TX_BATTERY_SOC="@,
        optional_u8(telemetry.battery_soc_percent),
        int_u8(telemetry.battery_soc_percent),
    );
    lemma_goes_on(s, s + ",TX_BATTERY_SOC="@ + optional_u8(telemetry.battery_soc_percent), ',');
    let s = s + ",TX_BATTERY_SOC="@ + optional_u8(telemetry.battery_soc_percent);
    lemma_line_feed(s);
}

/// The keys of a line of the log of received packets.
proof fn lemma_rx_marks()
    ensures
        marks(",UTC_MS="@, "UTC_MS="@, ','),
        marks(",SEQ="@, "SEQ="@, ','),
        marks(",SENDER="@, "SENDER="@, ','),
        marks(",SURVEY="@, "SURVEY="@, ','),
        marks(",MODE="@, "MODE="@, ','),
        marks(",RSSI="@, "RSSI="@, ','),
        marks(",SNR="@, "SNR="@, ','),
        marks(",RX="@, "RX="@, ','),
        marks(",MISSED="@, "MISSED="@, ','),
        marks(",APP_CRC_FAIL="@, "APP_CRC_FAIL="@, ','),
        marks(",LOCAL_GPS_FIX="@, "LOCAL_GPS_FIX="@, ','),
        marks(",LOCAL_LAT_E7="@, "LOCAL_LAT_E7="@, ','),
        marks(",LOCAL_LON_E7="@, "LOCAL_LON_E7="@, ','),
        marks(",TX_UTC_S="@, "TX_UTC_S="@, ','),
        marks(",TX_LAT_E7="@, "TX_LAT_E7="@, ','),
        marks(",TX_LON_E7="@, "TX_LON_E7="@, ','),
        marks(",TX_ALT_HALF_M="@, "TX_ALT_HALF_M="@, ','),
        marks(",TX_SPEED_CM_S="@, "TX_SPEED_CM_S="@, ','),
        marks(",TX_COURSE_CDEG="@, "TX_COURSE_CDEG="@, ','),
        marks(",TX_FIX="@, "TX_FIX="@, ','),
        marks(",TX_SATS="@, "TX_SATS="@, ','),
        marks(",TX_HDOP_TENTHS="@, "TX_HDOP_TENTHS="@, ','),
        marks(",TX_TEMP_CENTI_C="@, "TX_TEMP_CENTI_C="@, ','),
        marks(",TX_PRESSURE_10PA="@, "TX_PRESSURE_10PA="@, ','),
        marks(",TX_HUMIDITY_HALF_PCT="@, "TX_HUMIDITY_HALF_PCT="@, ','),
        marks(",TX_BATTERY_SOC="@, "TX_BATTERY_SOC="@, ','),
{
    assert(marks(",UTC_MS="@, "UTC_MS="@, ',')) by {
        reveal(marks);
        reveal(free_of);
        reveal_strlit(",UTC_MS=");
        reveal_strlit("UTC_MS=");
        assert(",UTC_MS="@ =~= seq![','] + "UTC_MS="@);
    }
    assert(marks(",SEQ="@, "SEQ="@, ',')) by {
        reveal(marks);
        reveal(free_of);
        reveal_strlit(",SEQ=");
        reveal_strlit("SEQ=");
        assert(",SEQ="@ =~= seq![','] + "SEQ="@);
    }
    assert(marks(",SENDER="@, "SENDER="@, ',')) by {
        reveal(marks);
        reveal(free_of);
        reveal_strlit(",SENDER=");
        reveal_strlit("SENDER=");
        assert(",SENDER="@ =~= seq![','] + "SENDER="@);
    }
    assert(marks(",SURVEY="@, "SURVEY="@, ',')) by {
        reveal(marks);
        reveal(free_of);
        reveal_strlit(",SURVEY=");
        reveal_strlit("SURVEY=");
        assert(",SURVEY="@ =~= seq![','] + "SURVEY="@);
    }
    assert(marks(",MODE="@, "MODE="@, ',')) by {
        reveal(marks);
        reveal(free_of);
        reveal_strlit(",MODE=");
        reveal_strlit("MODE=");
        assert(",MODE="@ =~= seq![','] + "MODE="@);
    }
    assert(marks(",RSSI="@, "RSSI="@, ',')) by {
        reveal(marks);
        reveal(free_of);
        reveal_strlit(",RSSI=");
        reveal_strlit("RSSI=");
        assert(",RSSI="@ =~= seq![','] + "RSSI="@);
    }
    assert(marks(",SNR="@, "SNR="@, ',')) by {
        reveal(marks);
        reveal(free_of);
        reveal_strlit(",SNR=");
        reveal_strlit("SNR=");
        assert(",SNR="@ =~= seq![','] + "SNR="@);
    }
    assert(marks(",RX="@, "RX="@, ',')) by {
        reveal(marks);
        reveal(free_of);
        reveal_strlit(",RX=");
        reveal_strlit("RX=");
        assert(",RX="@ =~= seq![','] + "RX="@);
    }
    assert(marks(",MISSED="@, "MISSED="@, ',')) by {
        reveal(marks);
        reveal(free_of);
        reveal_strlit(",MISSED=");
        reveal_strlit("MISSED=");
        assert(",MISSED="@ =~= seq![','] + "MISSED="@);
    }
    assert(marks(",APP_CRC_FAIL="@, "APP_CRC_FAIL="@, ',')) by {
        reveal(marks);
        reveal(free_of);
        reveal_strlit(",APP_CRC_FAIL=");
        reveal_strlit("APP_CRC_FAIL=");
        assert(",APP_CRC_FAIL="@ =~= seq![','] + "APP_CRC_FAIL="@);
    }
    assert(marks(",LOCAL_GPS_FIX="@, "LOCAL_GPS_FIX="@, ',')) by {
        reveal(marks);
        reveal(free_of);
        reveal_strlit(",LOCAL_GPS_FIX=");
        reveal_strlit("LOCAL_GPS_FIX=");
        assert(",LOCAL_GPS_FIX="@ =~= seq![','] + "LOCAL_GPS_FIX="@);
    }
    assert(marks(",LOCAL_LAT_E7="@, "LOCAL_LAT_E7="@, ',')) by {
        reveal(marks);
        reveal(free_of);
        reveal_strlit(",LOCAL_LAT_E7=");
        reveal_strlit("LOCAL_LAT_E7=");
        assert(",LOCAL_LAT_E7="@ =~= seq![','] + "LOCAL_LAT_E7="@);
    }
    assert(marks(",LOCAL_LON_E7="@, "LOCAL_LON_E7="@, ',')) by {
        reveal(marks);
        reveal(free_of);
        reveal_strlit(",LOCAL_LON_E7=");
        reveal_strlit("LOCAL_LON_E7=");
        assert(",LOCAL_LON_E7="@ =~= seq![','] + "LOCAL_LON_E7="@);
    }
    assert(marks(",TX_UTC_S="@, "TX_UTC_S="@, ',')) by {
        reveal(marks);
        reveal(free_of);
        reveal_strlit(",TX_UTC_S=");
        reveal_strlit("TX_UTC_S=");
        assert(",TX_UTC_S="@ =~= seq![','] + "TX_UTC_S="@);
    }
    assert(marks(",TX_LAT_E7="@, "TX_LAT_E7="@, ',')) by {
        reveal(marks);
        reveal(free_of);
        reveal_strlit(",TX_LAT_E7=");
        reveal_strlit("TX_LAT_E7=");
        assert(",TX_LAT_E7="@ =~= seq![','] + "TX_LAT_E7="@);
    }
    assert(marks(",TX_LON_E7="@, "TX_LON_E7="@, ',')) by {
        reveal(marks);
        reveal(free_of);
        reveal_strlit(",TX_LON_E7=");
        reveal_strlit("TX_LON_E7=");
        assert(",TX_LON_E7="@ =~= seq![','] + "TX_LON_E7="@);
    }
    assert(marks(",TX_ALT_HALF_M="@, "TX_ALT_HALF_M="@, ',')) by {
        reveal(marks);
        reveal(free_of);
        reveal_strlit(",TX_ALT_HALF_M=");
        reveal_strlit("TX_ALT_HALF_M=");
        assert(",TX_ALT_HALF_M="@ =~= seq![','] + "TX_ALT_HALF_M="@);
    }
    assert(marks(",TX_SPEED_CM_S="@, "TX_SPEED_CM_S="@, ',')) by {
        reveal(marks);
        reveal(free_of);
        reveal_strlit(",TX_SPEED_CM_S=");
        reveal_strlit("TX_SPEED_CM_S=");
        assert(",TX_SPEED_CM_S="@ =~= seq![','] + "TX_SPEED_CM_S="@);
    }
    assert(marks(",TX_COURSE_CDEG="@, "TX_COURSE_CDEG="@, ',')) by {
        reveal(marks);
        reveal(free_of);
        reveal_strlit(",TX_COURSE_CDEG=");
        reveal_strlit("TX_COURSE_CDEG=");
        assert(",TX_COURSE_CDEG="@ =~= seq![','] + "TX_COURSE_CDEG="@);
    }
    assert(marks(",TX_FIX="@, "TX_FIX="@, ',')) by {
        reveal(marks);
        reveal(free_of);
        reveal_strlit(",TX_FIX=");
        reveal_strlit("TX_FIX=");
        assert(",TX_FIX="@ =~= seq![','] + "TX_FIX="@);
    }
    assert(marks(",TX_SATS="@, "TX_SATS="@, ',')) by {
        reveal(marks);
        reveal(free_of);
        reveal_strlit(",TX_SATS=");
        reveal_strlit("TX_SATS=");
        assert(",TX_SATS="@ =~= seq![','] + "TX_SATS="@);
    }
    assert(marks(",TX_HDOP_TENTHS="@, "TX_HDOP_TENTHS="@, ',')) by {
        reveal(marks);
        reveal(free_of);
        reveal_strlit(",TX_HDOP_TENTHS=");
        reveal_strlit("TX_HDOP_TENTHS=");
        assert(",TX_HDOP_TENTHS="@ =~= seq![','] + "TX_HDOP_TENTHS="@);
    }
    assert(marks(",TX_TEMP_CENTI_C="@, "TX_TEMP_CENTI_C="@, ',')) by {
        reveal(marks);
        reveal(free_of);
        reveal_strlit(",TX_TEMP_CENTI_C=");
        reveal_strlit("TX_TEMP_CENTI_C=");
        assert(",TX_TEMP_CENTI_C="@ =~= seq![','] + "TX_TEMP_CENTI_C="@);
    }
    assert(marks(",TX_PRESSURE_10PA="@, "TX_PRESSURE_10PA="@, ',')) by {
        reveal(marks);
        reveal(free_of);
        reveal_strlit(",TX_PRESSURE_10PA=");
        reveal_strlit("TX_PRESSURE_10PA=");
        assert(",TX_PRESSURE_10PA="@ =~= seq![','] + "TX_PRESSURE_10PA="@);
    }
    assert(marks(",TX_HUMIDITY_HALF_PCT="@, "TX_HUMIDITY_HALF_PCT="@, ',')) by {
        reveal(marks);
        reveal(free_of);
        reveal_strlit(",TX_HUMIDITY_HALF_PCT=");
        reveal_strlit("TX_HUMIDITY_HALF_PCT=");
        assert(",TX_HUMIDITY_HALF_PCT="@ =~= seq![','] + "TX_HUMIDITY_HALF_PCT="@);
    }
    assert(marks(",TX_BATTERY_SOC="@, "TX_BATTERY_SOC="@, ',')) by {
        reveal(marks);
        reveal(free_of);
        reveal_strlit(",TX_BATTERY_SOC=");
        reveal_strlit("TX_BATTERY_SOC=");
        assert(",TX_BATTERY_SOC="@ =~= seq![','] + "TX_BATTERY_SOC="@);
    }
}

/// A line of the log of the own state can be read back: it is closed by a line feed, commas part
/// its values, and behind each key stands the value that the line was made of, `NA` exactly where
/// there was none. The flags are one number: 1, with 2 for a position receiver that is heard, 4
/// for a fix and 8 for a link that is up. What the device has no sensor for is `NA`.
#[verifier::rlimit(60)]
pub proof fn law_local_record_reads_back(
    mono_ms: u64,
    utc_ms: Option<u64>,
    gps: GpsState,
    link_up: bool,
    last_rssi: Option<i16>,
    last_snr: Option<i16>,
    received: u32,
    missed: u32,
    app_crc_failures: u32,
)
    ensures
        ({
            let line = local_record_text(
                mono_ms,
                utc_ms,
                gps,
                link_up,
                last_rssi,
                last_snr,
                received,
                missed,
                app_crc_failures,
            );
            let text = line.drop_last();
            &&& line.last() == '\n'
            &&& pieces(text, ',') == 22
            &&& tells(text, ',', 0, "MONO_MS="@, Some(mono_ms as int))
            &&& tells(text, ',', 1, "UTC_MS="@, int_u64(utc_ms))
            &&& tells_hex(
                text,
                ',',
                2,
                "FLAGS="@,
                1 + 2 * bit(gps.online) + 4 * bit(gps.fix) + 8 * bit(link_up),
                8,
            )
            &&& tells(text, ',', 3, "GPS_ONLINE="@, Some(bit(gps.online)))
            &&& tells(text, ',', 4, "GPS_FIX="@, Some(bit(gps.fix)))
            &&& tells(text, ',', 5, "LAT_E7="@, int_i32(gps.latitude_e7))
            &&& tells(text, ',', 6, "LON_E7="@, int_i32(gps.longitude_e7))
            &&& tells(text, ',', 7, "ALT_HALF_M="@, int_i16(gps.altitude_half_m))
            &&& tells(text, ',', 8, "SPEED_CM_S="@, int_u16(gps.speed_cm_s))
            &&& tells(text, ',', 9, "COURSE_CDEG="@, int_u16(gps.course_cdeg))
            &&& tells(text, ',', 10, "SATS="@, int_u8(gps.satellites))
            &&& tells(text, ',', 11, "HDOP_TENTHS="@, int_u8(gps.hdop_tenths))
            &&& tells(text, ',', 12, "LINK_UP="@, Some(bit(link_up)))
            &&& tells(text, ',', 13, "LAST_RSSI="@, int_i16(last_rssi))
            &&& tells(text, ',', 14, "LAST_SNR="@, int_i16(last_snr))
            &&& tells(text, ',', 15, "RX="@, Some(received as int))
            &&& tells(text, ',', 16, "MISSED="@, Some(missed as int))
            &&& tells(text, ',', 17, "APP_CRC_FAIL="@, Some(app_crc_failures as int))
            &&& tells(text, ',', 18, "TEMP_CENTI_C="@, None)
            &&& tells(text, ',', 19, "PRESSURE_10PA="@, None)
            &&& tells(text, ',', 20, "HUMIDITY_HALF_PCT="@, None)
            &&& tells(text, ',', 21, "BATTERY_SOC="@, None)
        }),
{
    lemma_local_marks();
    assert(free_of("MONO_MS="@, ',')) by {
        reveal(free_of);
        reveal_strlit("MONO_MS=");
    }
    lemma_reads_decimal(mono_ms as nat);
    lemma_first_item(',', "MONO_MS="@, decimal(mono_ms as nat), Some(mono_ms as int));
    let s = "MONO_MS="@ + decimal(mono_ms as nat);
    law_optional_reads_back(utc_ms, None, None, None, None, None);
    lemma_item(s, ',', ",UTC_MS="@, "UTC_MS="@, optional_u64(utc_ms), int_u64(utc_ms));
    lemma_goes_on(s, s + ",UTC_MS="@ + optional_u64(utc_ms), ',');
    let s = s + ",UTC_MS="@ + optional_u64(utc_ms);
    assert(local_flags(gps, link_up) < pow16(8)) by {
        reveal_with_fuel(pow16, 17);
    }
    lemma_hex_item(s, ',', ",FLAGS="@, "FLAGS="@, local_flags(gps, link_up) as nat, 8);
    lemma_goes_on(s, s + ",FLAGS="@ + hex_fixed(local_flags(gps, link_up) as nat, 8), ',');
    let s = s + ",FLAGS="@ + hex_fixed(local_flags(gps, link_up) as nat, 8);
    law_flag_reads_back(gps.online);
    lemma_item(s, ',', ",GPS_ONLINE="@, "GPS_ONLINE="@, flag(gps.online), Some(bit(gps.online)));
    lemma_goes_on(s, s + ",GPS_ONLINE="@ + flag(gps.online), ',');
    let s = s + ",GPS_ONLINE="@ + flag(gps.online);
    law_flag_reads_back(gps.fix);
    lemma_item(s, ',', ",GPS_FIX="@, "GPS_FIX="@, flag(gps.fix), Some(bit(gps.fix)));
    lemma_goes_on(s, s + ",GPS_FIX="@ + flag(gps.fix), ',');
    let s = s + ",GPS_FIX="@ + flag(gps.fix);
    law_optional_reads_back(None, None, None, None, gps.latitude_e7, None);
    lemma_item(
        s,
        ',',
        ",LAT_E7="@,
        "LAT_E7="@,
        optional_i32(gps.latitude_e7),
        int_i32(gps.latitude_e7),
    );
    lemma_goes_on(s, s + ",LAT_E7="@ + optional_i32(gps.latitude_e7), ',');
    let s = s + ",LAT_E7="@ + optional_i32(gps.latitude_e7);
    law_optional_reads_back(None, None, None, None, gps.longitude_e7, None);
    lemma_item(
        s,
        ',',
        ",LON_E7="@,
        "LON_E7="@,
        optional_i32(gps.longitude_e7),
        int_i32(gps.longitude_e7),
    );
    lemma_goes_on(s, s + ",LON_E7="@ + optional_i32(gps.longitude_e7), ',');
    let s = s + ",LON_E7="@ + optional_i32(gps.longitude_e7);
    law_optional_reads_back(None, None, None, None, None, gps.altitude_half_m);
    lemma_item(
        s,
        ',',
        ",ALT_HALF_M="@,
        "ALT_HALF_M="@,
        optional_i16(gps.altitude_half_m),
        int_i16(gps.altitude_half_m),
    );
    lemma_goes_on(s, s + ",ALT_HALF_M="@ + optional_i16(gps.altitude_half_m), ',');
    let s = s + ",ALT_HALF_M="@ + optional_i16(gps.altitude_half_m);
    law_optional_reads_back(None, None, gps.speed_cm_s, None, None, None);
    lemma_item(
        s,
        ',',
        ",SPEED_CM_S="@,
        "SPEED_CM_S="@,
        optional_u16(gps.speed_cm_s),
        int_u16(gps.speed_cm_s),
    );
    lemma_goes_on(s, s + ",SPEED_CM_S="@ + optional_u16(gps.speed_cm_s), ',');
    let s = s + ",SPEED_CM_S="@ + optional_u16(gps.speed_cm_s);
    law_optional_reads_back(None, None, gps.course_cdeg, None, None, None);
    lemma_item(
        s,
        ',',
        ",COURSE_CDEG="@,
        "COURSE_CDEG="@,
        optional_u16(gps.course_cdeg),
        int_u16(gps.course_cdeg),
    );
    lemma_goes_on(s, s + ",COURSE_CDEG="@ + optional_u16(gps.course_cdeg), ',');
    let s = s + ",COURSE_CDEG="@ + optional_u16(gps.course_cdeg);
    law_optional_reads_back(None, None, None, gps.satellites, None, None);
    lemma_item(s, ',', ",SATS="@, "SATS="@, optional_u8(gps.satellites), int_u8(gps.satellites));
    lemma_goes_on(s, s + ",SATS="@ + optional_u8(gps.satellites), ',');
    let s = s + ",SATS="@ + optional_u8(gps.satellites);
    law_optional_reads_back(None, None, None, gps.hdop_tenths, None, None);
    lemma_item(
        s,
        ',',
        ",HDOP_TENTHS="@,
        "HDOP_TENTHS="@,
        optional_u8(gps.hdop_tenths),
        int_u8(gps.hdop_tenths),
    );
    lemma_goes_on(s, s + ",HDOP_TENTHS="@ + optional_u8(gps.hdop_tenths), ',');
    let s = s + ",HDOP_TENTHS="@ + optional_u8(gps.hdop_tenths);
    law_flag_reads_back(link_up);
    lemma_item(s, ',', ",LINK_UP="@, "LINK_UP="@, flag(link_up), Some(bit(link_up)));
    lemma_goes_on(s, s + ",LINK_UP="@ + flag(link_up), ',');
    let s = s + ",LINK_UP="@ + flag(link_up);
    law_optional_reads_back(None, None, None, None, None, last_rssi);
    lemma_item(s, ',', ",LAST_RSSI="@, "LAST_RSSI="@, optional_i16(last_rssi), int_i16(last_rssi));
    lemma_goes_on(s, s + ",LAST_RSSI="@ + optional_i16(last_rssi), ',');
    let s = s + ",LAST_RSSI="@ + optional_i16(last_rssi);
    law_optional_reads_back(None, None, None, None, None, last_snr);
    lemma_item(s, ',', ",LAST_SNR="@, "LAST_SNR="@, optional_i16(last_snr), int_i16(last_snr));
    lemma_goes_on(s, s + ",LAST_SNR="@ + optional_i16(last_snr), ',');
    let s = s + ",LAST_SNR="@ + optional_i16(last_snr);
    lemma_reads_decimal(received as nat);
    lemma_item(s, ',', ",RX="@, "RX="@, decimal(received as nat), Some(received as int));
    lemma_goes_on(s, s + ",RX="@ + decimal(received as nat), ',');
    let s = s + ",RX="@ + decimal(received as nat);
    lemma_reads_decimal(missed as nat);
    lemma_item(s, ',', ",MISSED="@, "MISSED="@, decimal(missed as nat), Some(missed as int));
    lemma_goes_on(s, s + ",MISSED="@ + decimal(missed as nat), ',');
    let s = s + ",MISSED="@ + decimal(missed as nat);
    lemma_reads_decimal(app_crc_failures as nat);
    lemma_item(
        s,
        ',',
        ",APP_CRC_FAIL="@,
        "APP_CRC_FAIL="@,
        decimal(app_crc_failures as nat),
        Some(app_crc_failures as int),
    );
    lemma_goes_on(s, s + ",APP_CRC_FAIL="@ + decimal(app_crc_failures as nat), ',');
    let s = s + ",APP_CRC_FAIL="@ + decimal(app_crc_failures as nat);
    let na = seq!['N', 'A'];
    assert(read_optional(na) == Some(None::<int>)) by {
        reveal(read_optional);
    }
    lemma_no_sensors(s);
    assert(marks(seq![','] + "TEMP_CENTI_C="@, "TEMP_CENTI_C="@, ',')) by {
        reveal(marks);
        reveal(free_of);
        reveal_strlit("TEMP_CENTI_C=");
    }
    lemma_item(s, ',', seq![','] + "TEMP_CENTI_C="@, "TEMP_CENTI_C="@, na, None);
    lemma_goes_on(s, s + (seq![','] + "TEMP_CENTI_C="@) + na, ',');
    let s = s + (seq![','] + "TEMP_CENTI_C="@) + na;
    assert(marks(seq![','] + "PRESSURE_10PA="@, "PRESSURE_10PA="@, ',')) by {
        reveal(marks);
        reveal(free_of);
        reveal_strlit("PRESSURE_10PA=");
    }
    lemma_item(s, ',', seq![','] + "PRESSURE_10PA="@, "PRESSURE_10PA="@, na, None);
    lemma_goes_on(s, s + (seq![','] + "PRESSURE_10PA="@) + na, ',');
    let s = s + (seq![','] + "PRESSURE_10PA="@) + na;
    assert(marks(seq![','] + "HUMIDITY_HALF_PCT="@, "HUMIDITY_HALF_PCT="@, ',')) by {
        reveal(marks);
        reveal(free_of);
        reveal_strlit("HUMIDITY_HALF_PCT=");
    }
    lemma_item(s, ',', seq![','] + "HUMIDITY_HALF_PCT="@, "HUMIDITY_HALF_PCT="@, na, None);
    lemma_goes_on(s, s + (seq![','] + "HUMIDITY_HALF_PCT="@) + na, ',');
    let s = s + (seq![','] + "HUMIDITY_HALF_PCT="@) + na;
    assert(marks(seq![','] + "BATTERY_SOC="@, "BATTERY_SOC="@, ',')) by {
        reveal(marks);
        reveal(free_of);
        reveal_strlit("BATTERY_SOC=");
    }
    lemma_item(s, ',', seq![','] + "BATTERY_SOC="@, "BATTERY_SOC="@, na, None);
    lemma_goes_on(s, s + (seq![','] + "BATTERY_SOC="@) + na, ',');
    let s = s + (seq![','] + "BATTERY_SOC="@) + na;
}

/// The end of a line of the own state, piece by piece.
proof fn lemma_no_sensors(s: Seq<char>)
    ensures
        ({
            let line = s + ",TEMP_CENTI_C=NA,PRESSURE_10PA=NA"@
                + ",HUMIDITY_HALF_PCT=NA,BATTERY_SOC=NA\n"@;
            let na = seq!['N', 'A'];
            &&& line.last() == '\n'
            &&& line.drop_last() == s + (seq![','] + "TEMP_CENTI_C="@) + na + (seq![',']
                + "PRESSURE_10PA="@) + na + (seq![','] + "HUMIDITY_HALF_PCT="@) + na + (seq![',']
                + "BATTERY_SOC="@) + na
        }),
{
    reveal_strlit("TEMP_CENTI_C=");
    reveal_strlit("PRESSURE_10PA=");
    reveal_strlit("HUMIDITY_HALF_PCT=");
    reveal_strlit("BATTERY_SOC=");
    reveal_strlit(",TEMP_CENTI_C=NA,PRESSURE_10PA=NA");
    reveal_strlit(",HUMIDITY_HALF_PCT=NA,BATTERY_SOC=NA\n");
    let line = s + ",TEMP_CENTI_C=NA,PRESSURE_10PA=NA"@
        + ",HUMIDITY_HALF_PCT=NA,BATTERY_SOC=NA\n"@;
    let na = seq!['N', 'A'];
    assert(line.drop_last() =~= s + (seq![','] + "TEMP_CENTI_C="@) + na + (seq![',']
        + "PRESSURE_10PA="@) + na + (seq![','] + "HUMIDITY_HALF_PCT="@) + na + (seq![',']
        + "BATTERY_SOC="@) + na);
}

/// The keys of a line of the own state.
proof fn lemma_local_marks()
    ensures
        marks(",UTC_MS="@, "UTC_MS="@, ','),
        marks(",FLAGS="@, "FLAGS="@, ','),
        marks(",GPS_ONLINE="@, "GPS_ONLINE="@, ','),
        marks(",GPS_FIX="@, "GPS_FIX="@, ','),
        marks(",LAT_E7="@, "LAT_E7="@, ','),
        marks(",LON_E7="@, "LON_E7="@, ','),
        marks(",ALT_HALF_M="@, "ALT_HALF_M="@, ','),
        marks(",SPEED_CM_S="@, "SPEED_CM_S="@, ','),
        marks(",COURSE_CDEG="@, "COURSE_CDEG="@, ','),
        marks(",SATS="@, "SATS="@, ','),
        marks(",HDOP_TENTHS="@, "HDOP_TENTHS="@, ','),
        marks(",LINK_UP="@, "LINK_UP="@, ','),
        marks(",LAST_RSSI="@, "LAST_RSSI="@, ','),
        marks(",LAST_SNR="@, "LAST_SNR="@, ','),
        marks(",RX="@, "RX="@, ','),
        marks(",MISSED="@, "MISSED="@, ','),
        marks(",APP_CRC_FAIL="@, "APP_CRC_FAIL="@, ','),
{
    assert(marks(",UTC_MS="@, "UTC_MS="@, ',')) by {
        reveal(marks);
        reveal(free_of);
        reveal_strlit(",UTC_MS=");
        reveal_strlit("UTC_MS=");
        assert(",UTC_MS="@ =~= seq![','] + "UTC_MS="@);
    }
    assert(marks(",FLAGS="@, "FLAGS="@, ',')) by {
        reveal(marks);
        reveal(free_of);
        reveal_strlit(",FLAGS=");
        reveal_strlit("FLAGS=");
        assert(",FLAGS="@ =~= seq![','] + "FLAGS="@);
    }
    assert(marks(",GPS_ONLINE="@, "GPS_ONLINE="@, ',')) by {
        reveal(marks);
        reveal(free_of);
        reveal_strlit(",GPS_ONLINE=");
        reveal_strlit("GPS_ONLINE=");
        assert(",GPS_ONLINE="@ =~= seq![','] + "GPS_ONLINE="@);
    }
    assert(marks(",GPS_FIX="@, "GPS_FIX="@, ',')) by {
        reveal(marks);
        reveal(free_of);
        reveal_strlit(",GPS_FIX=");
        reveal_strlit("GPS_FIX=");
        assert(",GPS_FIX="@ =~= seq![','] + "GPS_FIX="@);
    }
    assert(marks(",LAT_E7="@, "LAT_E7="@, ',')) by {
        reveal(marks);
        reveal(free_of);
        reveal_strlit(",LAT_E7=");
        reveal_strlit("LAT_E7=");
        assert(",LAT_E7="@ =~= seq![','] + "LAT_E7="@);
    }
    assert(marks(",LON_E7="@, "LON_E7="@, ',')) by {
        reveal(marks);
        reveal(free_of);
        reveal_strlit(",LON_E7=");
        reveal_strlit("LON_E7=");
        assert(",LON_E7="@ =~= seq![','] + "LON_E7="@);
    }
    assert(marks(",ALT_HALF_M="@, "ALT_HALF_M="@, ',')) by {
        reveal(marks);
        reveal(free_of);
        reveal_strlit(",ALT_HALF_M=");
        reveal_strlit("ALT_HALF_M=");
        assert(",ALT_HALF_M="@ =~= seq![','] + "ALT_HALF_M="@);
    }
    assert(marks(",SPEED_CM_S="@, "SPEED_CM_S="@, ',')) by {
        reveal(marks);
        reveal(free_of);
        reveal_strlit(",SPEED_CM_S=");
        reveal_strlit("SPEED_CM_S=");
        assert(",SPEED_CM_S="@ =~= seq![','] + "SPEED_CM_S="@);
    }
    assert(marks(",COURSE_CDEG="@, "COURSE_CDEG="@, ',')) by {
        reveal(marks);
        reveal(free_of);
        reveal_strlit(",COURSE_CDEG=");
        reveal_strlit("COURSE_CDEG=");
        assert(",COURSE_CDEG="@ =~= seq![','] + "COURSE_CDEG="@);
    }
    assert(marks(",SATS="@, "SATS="@, ',')) by {
        reveal(marks);
        reveal(free_of);
        reveal_strlit(",SATS=");
        reveal_strlit("SATS=");
        assert(",SATS="@ =~= seq![','] + "SATS="@);
    }
    assert(marks(",HDOP_TENTHS="@, "HDOP_TENTHS="@, ',')) by {
        reveal(marks);
        reveal(free_of);
        reveal_strlit(",HDOP_TENTHS=");
        reveal_strlit("HDOP_TENTHS=");
        assert(",HDOP_TENTHS="@ =~= seq![','] + "HDOP_TENTHS="@);
    }
    assert(marks(",LINK_UP="@, "LINK_UP="@, ',')) by {
        reveal(marks);
        reveal(free_of);
        reveal_strlit(",LINK_UP=");
        reveal_strlit("LINK_UP=");
        assert(",LINK_UP="@ =~= seq![','] + "LINK_UP="@);
    }
    assert(marks(",LAST_RSSI="@, "LAST_RSSI="@, ',')) by {
        reveal(marks);
        reveal(free_of);
        reveal_strlit(",LAST_RSSI=");
        reveal_strlit("LAST_RSSI=");
        assert(",LAST_RSSI="@ =~= seq![','] + "LAST_RSSI="@);
    }
    assert(marks(",LAST_SNR="@, "LAST_SNR="@, ',')) by {
        reveal(marks);
        reveal(free_of);
        reveal_strlit(",LAST_SNR=");
        reveal_strlit("LAST_SNR=");
        assert(",LAST_SNR="@ =~= seq![','] + "LAST_SNR="@);
    }
    assert(marks(",RX="@, "RX="@, ',')) by {
        reveal(marks);
        reveal(free_of);
        reveal_strlit(",RX=");
        reveal_strlit("RX=");
        assert(",RX="@ =~= seq![','] + "RX="@);
    }
    assert(marks(",MISSED="@, "MISSED="@, ',')) by {
        reveal(marks);
        reveal(free_of);
        reveal_strlit(",MISSED=");
        reveal_strlit("MISSED=");
        assert(",MISSED="@ =~= seq![','] + "MISSED="@);
    }
    assert(marks(",APP_CRC_FAIL="@, "APP_CRC_FAIL="@, ',')) by {
        reveal(marks);
        reveal(free_of);
        reveal_strlit(",APP_CRC_FAIL=");
        reveal_strlit("APP_CRC_FAIL=");
        assert(",APP_CRC_FAIL="@ =~= seq![','] + "APP_CRC_FAIL="@);
    }
}

/// Two received packets that differ in any field, or in how they were received, never give the same
/// line.
#[verifier::rlimit(60)]
pub proof fn law_rx_records_differ(
    a: TelemetryV1,
    b: TelemetryV1,
    time_a: (u64, Option<u64>),
    time_b: (u64, Option<u64>),
    radio_a: (i16, i16),
    radio_b: (i16, i16),
    counts_a: (u32, u32, u32),
    counts_b: (u32, u32, u32),
    gps_a: GpsState,
    gps_b: GpsState,
)
    requires
        rx_record_text(
            time_a.0,
            time_a.1,
            a,
            radio_a.0,
            radio_a.1,
            counts_a.0,
            counts_a.1,
            counts_a.2,
            gps_a,
        )
            == rx_record_text(
                time_b.0,
                time_b.1,
                b,
                radio_b.0,
                radio_b.1,
                counts_b.0,
                counts_b.1,
                counts_b.2,
                gps_b,
            ),
    ensures
        a == b,
        time_a == time_b,
        radio_a == radio_b,
        counts_a == counts_b,
        gps_a.fix == gps_b.fix,
        gps_a.latitude_e7 == gps_b.latitude_e7,
        gps_a.longitude_e7 == gps_b.longitude_e7,
{
    let line = rx_record_text(
        time_a.0,
        time_a.1,
        a,
        radio_a.0,
        radio_a.1,
        counts_a.0,
        counts_a.1,
        counts_a.2,
        gps_a,
    );
    law_rx_record_reads_back(
        time_a.0,
        time_a.1,
        a,
        radio_a.0,
        radio_a.1,
        counts_a.0,
        counts_a.1,
        counts_a.2,
        gps_a,
    );
    law_rx_record_reads_back(
        time_b.0,
        time_b.1,
        b,
        radio_b.0,
        radio_b.1,
        counts_b.0,
        counts_b.1,
        counts_b.2,
        gps_b,
    );
    lemma_tells_one(line.drop_last(), ',');
}

/// Two states of the device that differ in what the log of the own state holds never give the same
/// line.
#[verifier::rlimit(60)]
pub proof fn law_local_records_differ(
    a: GpsState,
    b: GpsState,
    time_a: (u64, Option<u64>),
    time_b: (u64, Option<u64>),
    link_a: (bool, Option<i16>, Option<i16>),
    link_b: (bool, Option<i16>, Option<i16>),
    counts_a: (u32, u32, u32),
    counts_b: (u32, u32, u32),
)
    requires
        local_record_text(
            time_a.0,
            time_a.1,
            a,
            link_a.0,
            link_a.1,
            link_a.2,
            counts_a.0,
            counts_a.1,
            counts_a.2,
        )
            == local_record_text(
                time_b.0,
                time_b.1,
                b,
                link_b.0,
                link_b.1,
                link_b.2,
                counts_b.0,
                counts_b.1,
                counts_b.2,
            ),
    ensures
        time_a == time_b,
        link_a == link_b,
        counts_a == counts_b,
        a.online == b.online,
        a.fix == b.fix,
        a.latitude_e7 == b.latitude_e7,
        a.longitude_e7 == b.longitude_e7,
        a.altitude_half_m == b.altitude_half_m,
        a.speed_cm_s == b.speed_cm_s,
        a.course_cdeg == b.course_cdeg,
        a.satellites == b.satellites,
        a.hdop_tenths == b.hdop_tenths,
{
    let line = local_record_text(
        time_a.0,
        time_a.1,
        a,
        link_a.0,
        link_a.1,
        link_a.2,
        counts_a.0,
        counts_a.1,
        counts_a.2,
    );
    law_local_record_reads_back(
        time_a.0,
        time_a.1,
        a,
        link_a.0,
        link_a.1,
        link_a.2,
        counts_a.0,
        counts_a.1,
        counts_a.2,
    );
    law_local_record_reads_back(
        time_b.0,
        time_b.1,
        b,
        link_b.0,
        link_b.1,
        link_b.2,
        counts_b.0,
        counts_b.1,
        counts_b.2,
    );
    lemma_tells_one(line.drop_last(), ',');
}

proof fn lemma_event_utc_rejected(detail: EventDetail)
    requires
        detail is UtcRejected,
    ensures
        ({
            let text = event_detail_text(detail);
            match detail {
                EventDetail::UtcRejected {
                    candidate_utc_ms,
                    previous_utc_ms,
                    previous_mono_ms,
                } => {
                    &&& pieces(text, ',') == 4
                    &&& tells_text(text, ',', 0, "REASON=DISCONTINUITY"@)
                    &&& tells(text, ',', 1, "CANDIDATE_UTC_MS="@, Some(candidate_utc_ms as int))
                    &&& tells(text, ',', 2, "PREV_UTC_MS="@, Some(previous_utc_ms as int))
                    &&& tells(text, ',', 3, "PREV_MONO_MS="@, Some(previous_mono_ms as int))
                },
                _ => true,
            }
        }),
{
    if let EventDetail::UtcRejected {
        candidate_utc_ms,
        previous_utc_ms,
        previous_mono_ms,
    } = detail {
        lemma_event_marks();
        let s = "REASON=DISCONTINUITY"@;
        assert(free_of(s, ',')) by {
            reveal(free_of);
            reveal_strlit("REASON=DISCONTINUITY");
        }
        lemma_first_text(s, ',');
        assert(s + ",CANDIDATE_UTC_MS="@ =~= "REASON=DISCONTINUITY,CANDIDATE_UTC_MS="@) by {
            reveal_strlit("REASON=DISCONTINUITY");
            reveal_strlit(",CANDIDATE_UTC_MS=");
            reveal_strlit("REASON=DISCONTINUITY,CANDIDATE_UTC_MS=");
        }
        lemma_reads_decimal(candidate_utc_ms as nat);
        lemma_item(
            s,
            ',',
            ",CANDIDATE_UTC_MS="@,
            "CANDIDATE_UTC_MS="@,
            decimal(candidate_utc_ms as nat),
            Some(candidate_utc_ms as int),
        );
        lemma_goes_on(s, s + ",CANDIDATE_UTC_MS="@ + decimal(candidate_utc_ms as nat), ',');
        let s = s + ",CANDIDATE_UTC_MS="@ + decimal(candidate_utc_ms as nat);
        lemma_reads_decimal(previous_utc_ms as nat);
        lemma_item(
            s,
            ',',
            ",PREV_UTC_MS="@,
            "PREV_UTC_MS="@,
            decimal(previous_utc_ms as nat),
            Some(previous_utc_ms as int),
        );
        lemma_goes_on(s, s + ",PREV_UTC_MS="@ + decimal(previous_utc_ms as nat), ',');
        let s = s + ",PREV_UTC_MS="@ + decimal(previous_utc_ms as nat);
        lemma_reads_decimal(previous_mono_ms as nat);
        lemma_item(
            s,
            ',',
            ",PREV_MONO_MS="@,
            "PREV_MONO_MS="@,
            decimal(previous_mono_ms as nat),
            Some(previous_mono_ms as int),
        );
        lemma_goes_on(s, s + ",PREV_MONO_MS="@ + decimal(previous_mono_ms as nat), ',');
        let s = s + ",PREV_MONO_MS="@ + decimal(previous_mono_ms as nat);
    }
}

proof fn lemma_event_time_sync(detail: EventDetail)
    requires
        detail is TimeSync,
    ensures
        ({
            let text = event_detail_text(detail);
            match detail {
                EventDetail::TimeSync { utc_ms, mono_ms } => {
                    &&& pieces(text, ',') == 4
                    &&& tells_text(text, ',', 0, "SOURCE=GPS_RMC_CONFIRMED"@)
                    &&& tells(text, ',', 1, "UTC_ANCHOR_MS="@, Some(utc_ms as int))
                    &&& tells(text, ',', 2, "MONO_ANCHOR_MS="@, Some(mono_ms as int))
                    &&& tells_text(text, ',', 3, "CONFIRMED_SAMPLES=2"@)
                },
                _ => true,
            }
        }),
{
    if let EventDetail::TimeSync { utc_ms, mono_ms } = detail {
        lemma_event_marks();
        let s = "SOURCE=GPS_RMC_CONFIRMED"@;
        assert(free_of(s, ',')) by {
            reveal(free_of);
            reveal_strlit("SOURCE=GPS_RMC_CONFIRMED");
        }
        lemma_first_text(s, ',');
        assert(s + ",UTC_ANCHOR_MS="@ =~= "SOURCE=GPS_RMC_CONFIRMED,UTC_ANCHOR_MS="@) by {
            reveal_strlit("SOURCE=GPS_RMC_CONFIRMED");
            reveal_strlit(",UTC_ANCHOR_MS=");
            reveal_strlit("SOURCE=GPS_RMC_CONFIRMED,UTC_ANCHOR_MS=");
        }
        lemma_reads_decimal(utc_ms as nat);
        lemma_item(
            s,
            ',',
            ",UTC_ANCHOR_MS="@,
            "UTC_ANCHOR_MS="@,
            decimal(utc_ms as nat),
            Some(utc_ms as int),
        );
        lemma_goes_on(s, s + ",UTC_ANCHOR_MS="@ + decimal(utc_ms as nat), ',');
        let s = s + ",UTC_ANCHOR_MS="@ + decimal(utc_ms as nat);
        lemma_reads_decimal(mono_ms as nat);
        lemma_item(
            s,
            ',',
            ",MONO_ANCHOR_MS="@,
            "MONO_ANCHOR_MS="@,
            decimal(mono_ms as nat),
            Some(mono_ms as int),
        );
        lemma_goes_on(s, s + ",MONO_ANCHOR_MS="@ + decimal(mono_ms as nat), ',');
        let s = s + ",MONO_ANCHOR_MS="@ + decimal(mono_ms as nat);
        lemma_const_item(s, ',', ",CONFIRMED_SAMPLES=2"@, "CONFIRMED_SAMPLES=2"@);
        lemma_goes_on(s, s + ",CONFIRMED_SAMPLES=2"@, ',');
        let s = s + ",CONFIRMED_SAMPLES=2"@;
    }
}

proof fn lemma_event_crc_failed(detail: EventDetail)
    requires
        detail is CrcFailed,
    ensures
        ({
            let text = event_detail_text(detail);
            match detail {
                EventDetail::CrcFailed { count, rssi, snr, stored_crc, computed_crc } => {
                    &&& pieces(text, ',') == 5
                    &&& tells(text, ',', 0, "COUNT="@, Some(count as int))
                    &&& tells(text, ',', 1, "RSSI="@, Some(rssi as int))
                    &&& tells(text, ',', 2, "SNR="@, Some(snr as int))
                    &&& tells(text, ',', 3, "STORED_CRC="@, Some(stored_crc as int))
                    &&& tells(text, ',', 4, "COMPUTED_CRC="@, Some(computed_crc as int))
                },
                _ => true,
            }
        }),
{
    if let EventDetail::CrcFailed { count, rssi, snr, stored_crc, computed_crc } = detail {
        lemma_event_marks();
        assert(free_of("COUNT="@, ',')) by {
            reveal(free_of);
            reveal_strlit("COUNT=");
        }
        lemma_reads_decimal(count as nat);
        lemma_first_item(',', "COUNT="@, decimal(count as nat), Some(count as int));
        let s = "COUNT="@ + decimal(count as nat);
        lemma_reads_signed(rssi as int);
        lemma_item(s, ',', ",RSSI="@, "RSSI="@, decimal_signed(rssi as int), Some(rssi as int));
        lemma_goes_on(s, s + ",RSSI="@ + decimal_signed(rssi as int), ',');
        let s = s + ",RSSI="@ + decimal_signed(rssi as int);
        lemma_reads_signed(snr as int);
        lemma_item(s, ',', ",SNR="@, "SNR="@, decimal_signed(snr as int), Some(snr as int));
        lemma_goes_on(s, s + ",SNR="@ + decimal_signed(snr as int), ',');
        let s = s + ",SNR="@ + decimal_signed(snr as int);
        lemma_reads_decimal(stored_crc as nat);
        lemma_item(
            s,
            ',',
            ",STORED_CRC="@,
            "STORED_CRC="@,
            decimal(stored_crc as nat),
            Some(stored_crc as int),
        );
        lemma_goes_on(s, s + ",STORED_CRC="@ + decimal(stored_crc as nat), ',');
        let s = s + ",STORED_CRC="@ + decimal(stored_crc as nat);
        lemma_reads_decimal(computed_crc as nat);
        lemma_item(
            s,
            ',',
            ",COMPUTED_CRC="@,
            "COMPUTED_CRC="@,
            decimal(computed_crc as nat),
            Some(computed_crc as int),
        );
        lemma_goes_on(s, s + ",COMPUTED_CRC="@ + decimal(computed_crc as nat), ',');
        let s = s + ",COMPUTED_CRC="@ + decimal(computed_crc as nat);
    }
}

proof fn lemma_event_link_reacquired(detail: EventDetail)
    requires
        detail is LinkReacquired,
    ensures
        ({
            let text = event_detail_text(detail);
            match detail {
                EventDetail::LinkReacquired { sequence, outage_ms, previous_rx_mono_ms } => {
                    &&& pieces(text, ',') == 3
                    &&& tells(text, ',', 0, "SEQ="@, Some(sequence as int))
                    &&& tells(text, ',', 1, "OUTAGE_MS="@, Some(outage_ms as int))
                    &&& tells(
                        text,
                        ',',
                        2,
                        "PREV_LAST_RX_MONO_MS="@,
                        Some(previous_rx_mono_ms as int),
                    )
                },
                _ => true,
            }
        }),
{
    if let EventDetail::LinkReacquired { sequence, outage_ms, previous_rx_mono_ms } = detail {
        lemma_event_marks();
        assert(free_of("SEQ="@, ',')) by {
            reveal(free_of);
            reveal_strlit("SEQ=");
        }
        lemma_reads_decimal(sequence as nat);
        lemma_first_item(',', "SEQ="@, decimal(sequence as nat), Some(sequence as int));
        let s = "SEQ="@ + decimal(sequence as nat);
        lemma_reads_decimal(outage_ms as nat);
        lemma_item(
            s,
            ',',
            ",OUTAGE_MS="@,
            "OUTAGE_MS="@,
            decimal(outage_ms as nat),
            Some(outage_ms as int),
        );
        lemma_goes_on(s, s + ",OUTAGE_MS="@ + decimal(outage_ms as nat), ',');
        let s = s + ",OUTAGE_MS="@ + decimal(outage_ms as nat);
        lemma_reads_decimal(previous_rx_mono_ms as nat);
        lemma_item(
            s,
            ',',
            ",PREV_LAST_RX_MONO_MS="@,
            "PREV_LAST_RX_MONO_MS="@,
            decimal(previous_rx_mono_ms as nat),
            Some(previous_rx_mono_ms as int),
        );
        lemma_goes_on(s, s + ",PREV_LAST_RX_MONO_MS="@ + decimal(previous_rx_mono_ms as nat), ',');
        let s = s + ",PREV_LAST_RX_MONO_MS="@ + decimal(previous_rx_mono_ms as nat);
    }
}

proof fn lemma_event_link_lost(detail: EventDetail)
    requires
        detail is LinkLost,
    ensures
        ({
            let text = event_detail_text(detail);
            match detail {
                EventDetail::LinkLost { last_sequence, last_rx_mono_ms, age_ms } => {
                    &&& pieces(text, ',') == 3
                    &&& tells(text, ',', 0, "LAST_SEQ="@, Some(last_sequence as int))
                    &&& tells(text, ',', 1, "LAST_RX_MONO_MS="@, Some(last_rx_mono_ms as int))
                    &&& tells(text, ',', 2, "AGE_MS="@, Some(age_ms as int))
                },
                _ => true,
            }
        }),
{
    if let EventDetail::LinkLost { last_sequence, last_rx_mono_ms, age_ms } = detail {
        lemma_event_marks();
        assert(free_of("LAST_SEQ="@, ',')) by {
            reveal(free_of);
            reveal_strlit("LAST_SEQ=");
        }
        lemma_reads_decimal(last_sequence as nat);
        lemma_first_item(
            ',',
            "LAST_SEQ="@,
            decimal(last_sequence as nat),
            Some(last_sequence as int),
        );
        let s = "LAST_SEQ="@ + decimal(last_sequence as nat);
        lemma_reads_decimal(last_rx_mono_ms as nat);
        lemma_item(
            s,
            ',',
            ",LAST_RX_MONO_MS="@,
            "LAST_RX_MONO_MS="@,
            decimal(last_rx_mono_ms as nat),
            Some(last_rx_mono_ms as int),
        );
        lemma_goes_on(s, s + ",LAST_RX_MONO_MS="@ + decimal(last_rx_mono_ms as nat), ',');
        let s = s + ",LAST_RX_MONO_MS="@ + decimal(last_rx_mono_ms as nat);
        lemma_reads_decimal(age_ms as nat);
        lemma_item(s, ',', ",AGE_MS="@, "AGE_MS="@, decimal(age_ms as nat), Some(age_ms as int));
        lemma_goes_on(s, s + ",AGE_MS="@ + decimal(age_ms as nat), ',');
        let s = s + ",AGE_MS="@ + decimal(age_ms as nat);
    }
}

/// The keys of the details of events.
proof fn lemma_event_marks()
    ensures
        marks(",CANDIDATE_UTC_MS="@, "CANDIDATE_UTC_MS="@, ','),
        marks(",PREV_UTC_MS="@, "PREV_UTC_MS="@, ','),
        marks(",PREV_MONO_MS="@, "PREV_MONO_MS="@, ','),
        marks(",UTC_ANCHOR_MS="@, "UTC_ANCHOR_MS="@, ','),
        marks(",MONO_ANCHOR_MS="@, "MONO_ANCHOR_MS="@, ','),
        marks(",CONFIRMED_SAMPLES=2"@, "CONFIRMED_SAMPLES=2"@, ','),
        marks(",RSSI="@, "RSSI="@, ','),
        marks(",SNR="@, "SNR="@, ','),
        marks(",STORED_CRC="@, "STORED_CRC="@, ','),
        marks(",COMPUTED_CRC="@, "COMPUTED_CRC="@, ','),
        marks(",OUTAGE_MS="@, "OUTAGE_MS="@, ','),
        marks(",PREV_LAST_RX_MONO_MS="@, "PREV_LAST_RX_MONO_MS="@, ','),
        marks(",LAST_RX_MONO_MS="@, "LAST_RX_MONO_MS="@, ','),
        marks(",AGE_MS="@, "AGE_MS="@, ','),
{
    assert(marks(",CANDIDATE_UTC_MS="@, "CANDIDATE_UTC_MS="@, ',')) by {
        reveal(marks);
        reveal(free_of);
        reveal_strlit(",CANDIDATE_UTC_MS=");
        reveal_strlit("CANDIDATE_UTC_MS=");
        assert(",CANDIDATE_UTC_MS="@ =~= seq![','] + "CANDIDATE_UTC_MS="@);
    }
    assert(marks(",PREV_UTC_MS="@, "PREV_UTC_MS="@, ',')) by {
        reveal(marks);
        reveal(free_of);
        reveal_strlit(",PREV_UTC_MS=");
        reveal_strlit("PREV_UTC_MS=");
        assert(",PREV_UTC_MS="@ =~= seq![','] + "PREV_UTC_MS="@);
    }
    assert(marks(",PREV_MONO_MS="@, "PREV_MONO_MS="@, ',')) by {
        reveal(marks);
        reveal(free_of);
        reveal_strlit(",PREV_MONO_MS=");
        reveal_strlit("PREV_MONO_MS=");
        assert(",PREV_MONO_MS="@ =~= seq![','] + "PREV_MONO_MS="@);
    }
    assert(marks(",UTC_ANCHOR_MS="@, "UTC_ANCHOR_MS="@, ',')) by {
        reveal(marks);
        reveal(free_of);
        reveal_strlit(",UTC_ANCHOR_MS=");
        reveal_strlit("UTC_ANCHOR_MS=");
        assert(",UTC_ANCHOR_MS="@ =~= seq![','] + "UTC_ANCHOR_MS="@);
    }
    assert(marks(",MONO_ANCHOR_MS="@, "MONO_ANCHOR_MS="@, ',')) by {
        reveal(marks);
        reveal(free_of);
        reveal_strlit(",MONO_ANCHOR_MS=");
        reveal_strlit("MONO_ANCHOR_MS=");
        assert(",MONO_ANCHOR_MS="@ =~= seq![','] + "MONO_ANCHOR_MS="@);
    }
    assert(marks(",CONFIRMED_SAMPLES=2"@, "CONFIRMED_SAMPLES=2"@, ',')) by {
        reveal(marks);
        reveal(free_of);
        reveal_strlit(",CONFIRMED_SAMPLES=2");
        reveal_strlit("CONFIRMED_SAMPLES=2");
        assert(",CONFIRMED_SAMPLES=2"@ =~= seq![','] + "CONFIRMED_SAMPLES=2"@);
    }
    assert(marks(",RSSI="@, "RSSI="@, ',')) by {
        reveal(marks);
        reveal(free_of);
        reveal_strlit(",RSSI=");
        reveal_strlit("RSSI=");
        assert(",RSSI="@ =~= seq![','] + "RSSI="@);
    }
    assert(marks(",SNR="@, "SNR="@, ',')) by {
        reveal(marks);
        reveal(free_of);
        reveal_strlit(",SNR=");
        reveal_strlit("SNR=");
        assert(",SNR="@ =~= seq![','] + "SNR="@);
    }
    assert(marks(",STORED_CRC="@, "STORED_CRC="@, ',')) by {
        reveal(marks);
        reveal(free_of);
        reveal_strlit(",STORED_CRC=");
        reveal_strlit("STORED_CRC=");
        assert(",STORED_CRC="@ =~= seq![','] + "STORED_CRC="@);
    }
    assert(marks(",COMPUTED_CRC="@, "COMPUTED_CRC="@, ',')) by {
        reveal(marks);
        reveal(free_of);
        reveal_strlit(",COMPUTED_CRC=");
        reveal_strlit("COMPUTED_CRC=");
        assert(",COMPUTED_CRC="@ =~= seq![','] + "COMPUTED_CRC="@);
    }
    assert(marks(",OUTAGE_MS="@, "OUTAGE_MS="@, ',')) by {
        reveal(marks);
        reveal(free_of);
        reveal_strlit(",OUTAGE_MS=");
        reveal_strlit("OUTAGE_MS=");
        assert(",OUTAGE_MS="@ =~= seq![','] + "OUTAGE_MS="@);
    }
    assert(marks(",PREV_LAST_RX_MONO_MS="@, "PREV_LAST_RX_MONO_MS="@, ',')) by {
        reveal(marks);
        reveal(free_of);
        reveal_strlit(",PREV_LAST_RX_MONO_MS=");
        reveal_strlit("PREV_LAST_RX_MONO_MS=");
        assert(",PREV_LAST_RX_MONO_MS="@ =~= seq![','] + "PREV_LAST_RX_MONO_MS="@);
    }
    assert(marks(",LAST_RX_MONO_MS="@, "LAST_RX_MONO_MS="@, ',')) by {
        reveal(marks);
        reveal(free_of);
        reveal_strlit(",LAST_RX_MONO_MS=");
        reveal_strlit("LAST_RX_MONO_MS=");
        assert(",LAST_RX_MONO_MS="@ =~= seq![','] + "LAST_RX_MONO_MS="@);
    }
    assert(marks(",AGE_MS="@, "AGE_MS="@, ',')) by {
        reveal(marks);
        reveal(free_of);
        reveal_strlit(",AGE_MS=");
        reveal_strlit("AGE_MS=");
        assert(",AGE_MS="@ =~= seq![','] + "AGE_MS="@);
    }
}

/// The details of an event can be read back: commas part them, and behind each key stands the
/// number that they were made of.
pub proof fn law_event_details_read_back(detail: EventDetail)
    ensures
        ({
            let text = event_detail_text(detail);
            match detail {
                EventDetail::Nothing => text.len() == 0,
                EventDetail::UtcRejected {
                    candidate_utc_ms,
                    previous_utc_ms,
                    previous_mono_ms,
                } => {
                    &&& pieces(text, ',') == 4
                    &&& tells_text(text, ',', 0, "REASON=DISCONTINUITY"@)
                    &&& tells(text, ',', 1, "CANDIDATE_UTC_MS="@, Some(candidate_utc_ms as int))
                    &&& tells(text, ',', 2, "PREV_UTC_MS="@, Some(previous_utc_ms as int))
                    &&& tells(text, ',', 3, "PREV_MONO_MS="@, Some(previous_mono_ms as int))
                },
                EventDetail::TimeSync { utc_ms, mono_ms } => {
                    &&& pieces(text, ',') == 4
                    &&& tells_text(text, ',', 0, "SOURCE=GPS_RMC_CONFIRMED"@)
                    &&& tells(text, ',', 1, "UTC_ANCHOR_MS="@, Some(utc_ms as int))
                    &&& tells(text, ',', 2, "MONO_ANCHOR_MS="@, Some(mono_ms as int))
                    &&& tells_text(text, ',', 3, "CONFIRMED_SAMPLES=2"@)
                },
                EventDetail::CrcFailed { count, rssi, snr, stored_crc, computed_crc } => {
                    &&& pieces(text, ',') == 5
                    &&& tells(text, ',', 0, "COUNT="@, Some(count as int))
                    &&& tells(text, ',', 1, "RSSI="@, Some(rssi as int))
                    &&& tells(text, ',', 2, "SNR="@, Some(snr as int))
                    &&& tells(text, ',', 3, "STORED_CRC="@, Some(stored_crc as int))
                    &&& tells(text, ',', 4, "COMPUTED_CRC="@, Some(computed_crc as int))
                },
                EventDetail::LinkReacquired { sequence, outage_ms, previous_rx_mono_ms } => {
                    &&& pieces(text, ',') == 3
                    &&& tells(text, ',', 0, "SEQ="@, Some(sequence as int))
                    &&& tells(text, ',', 1, "OUTAGE_MS="@, Some(outage_ms as int))
                    &&& tells(
                        text,
                        ',',
                        2,
                        "PREV_LAST_RX_MONO_MS="@,
                        Some(previous_rx_mono_ms as int),
                    )
                },
                EventDetail::LinkLost { last_sequence, last_rx_mono_ms, age_ms } => {
                    &&& pieces(text, ',') == 3
                    &&& tells(text, ',', 0, "LAST_SEQ="@, Some(last_sequence as int))
                    &&& tells(text, ',', 1, "LAST_RX_MONO_MS="@, Some(last_rx_mono_ms as int))
                    &&& tells(text, ',', 2, "AGE_MS="@, Some(age_ms as int))
                },
            }
        }),
{
    match detail {
        EventDetail::Nothing => {},
        EventDetail::UtcRejected { .. } => lemma_event_utc_rejected(detail),
        EventDetail::TimeSync { .. } => lemma_event_time_sync(detail),
        EventDetail::CrcFailed { .. } => lemma_event_crc_failed(detail),
        EventDetail::LinkReacquired { .. } => lemma_event_link_reacquired(detail),
        EventDetail::LinkLost { .. } => lemma_event_link_lost(detail),
    }
}

proof fn lemma_diag_utc_rejected(detail: DiagDetail)
    requires
        detail is UtcRejected,
    ensures
        ({
            let text = diag_detail_text(detail);
            match detail {
                DiagDetail::UtcRejected { candidate_utc_ms, previous_utc_ms, previous_mono_ms } => {
                    &&& pieces(text, ' ') == 3
                    &&& tells(text, ' ', 0, "candidate_utc_ms="@, Some(candidate_utc_ms as int))
                    &&& tells(text, ' ', 1, "prev_utc_ms="@, Some(previous_utc_ms as int))
                    &&& tells(text, ' ', 2, "prev_mono_ms="@, Some(previous_mono_ms as int))
                },
                _ => true,
            }
        }),
{
    if let DiagDetail::UtcRejected {
        candidate_utc_ms,
        previous_utc_ms,
        previous_mono_ms,
    } = detail {
        lemma_diag_marks();
        assert(free_of("candidate_utc_ms="@, ' ')) by {
            reveal(free_of);
            reveal_strlit("candidate_utc_ms=");
        }
        lemma_reads_decimal(candidate_utc_ms as nat);
        lemma_first_item(
            ' ',
            "candidate_utc_ms="@,
            decimal(candidate_utc_ms as nat),
            Some(candidate_utc_ms as int),
        );
        let s = "candidate_utc_ms="@ + decimal(candidate_utc_ms as nat);
        lemma_reads_decimal(previous_utc_ms as nat);
        lemma_item(
            s,
            ' ',
            " prev_utc_ms="@,
            "prev_utc_ms="@,
            decimal(previous_utc_ms as nat),
            Some(previous_utc_ms as int),
        );
        lemma_goes_on(s, s + " prev_utc_ms="@ + decimal(previous_utc_ms as nat), ' ');
        let s = s + " prev_utc_ms="@ + decimal(previous_utc_ms as nat);
        lemma_reads_decimal(previous_mono_ms as nat);
        lemma_item(
            s,
            ' ',
            " prev_mono_ms="@,
            "prev_mono_ms="@,
            decimal(previous_mono_ms as nat),
            Some(previous_mono_ms as int),
        );
        lemma_goes_on(s, s + " prev_mono_ms="@ + decimal(previous_mono_ms as nat), ' ');
        let s = s + " prev_mono_ms="@ + decimal(previous_mono_ms as nat);
    }
}

proof fn lemma_diag_utc_sync(detail: DiagDetail)
    requires
        detail is UtcSync,
    ensures
        ({
            let text = diag_detail_text(detail);
            match detail {
                DiagDetail::UtcSync { utc_ms, mono_ms } => {
                    &&& pieces(text, ' ') == 3
                    &&& tells(text, ' ', 0, "utc_ms="@, Some(utc_ms as int))
                    &&& tells(text, ' ', 1, "mono_ms="@, Some(mono_ms as int))
                    &&& tells_text(text, ' ', 2, "confirmed_samples=2"@)
                },
                _ => true,
            }
        }),
{
    if let DiagDetail::UtcSync { utc_ms, mono_ms } = detail {
        lemma_diag_marks();
        assert(free_of("utc_ms="@, ' ')) by {
            reveal(free_of);
            reveal_strlit("utc_ms=");
        }
        lemma_reads_decimal(utc_ms as nat);
        lemma_first_item(' ', "utc_ms="@, decimal(utc_ms as nat), Some(utc_ms as int));
        let s = "utc_ms="@ + decimal(utc_ms as nat);
        lemma_reads_decimal(mono_ms as nat);
        lemma_item(
            s,
            ' ',
            " mono_ms="@,
            "mono_ms="@,
            decimal(mono_ms as nat),
            Some(mono_ms as int),
        );
        lemma_goes_on(s, s + " mono_ms="@ + decimal(mono_ms as nat), ' ');
        let s = s + " mono_ms="@ + decimal(mono_ms as nat);
        lemma_const_item(s, ' ', " confirmed_samples=2"@, "confirmed_samples=2"@);
        lemma_goes_on(s, s + " confirmed_samples=2"@, ' ');
        let s = s + " confirmed_samples=2"@;
    }
}

proof fn lemma_diag_crc_failed(detail: DiagDetail)
    requires
        detail is CrcFailed,
    ensures
        ({
            let text = diag_detail_text(detail);
            match detail {
                DiagDetail::CrcFailed { count, rssi, snr, stored_crc, computed_crc } => {
                    &&& pieces(text, ' ') == 5
                    &&& tells(text, ' ', 0, "count="@, Some(count as int))
                    &&& tells(text, ' ', 1, "rssi="@, Some(rssi as int))
                    &&& tells(text, ' ', 2, "snr="@, Some(snr as int))
                    &&& tells(text, ' ', 3, "stored_crc="@, Some(stored_crc as int))
                    &&& tells(text, ' ', 4, "computed_crc="@, Some(computed_crc as int))
                },
                _ => true,
            }
        }),
{
    if let DiagDetail::CrcFailed { count, rssi, snr, stored_crc, computed_crc } = detail {
        lemma_diag_marks();
        assert(free_of("count="@, ' ')) by {
            reveal(free_of);
            reveal_strlit("count=");
        }
        lemma_reads_decimal(count as nat);
        lemma_first_item(' ', "count="@, decimal(count as nat), Some(count as int));
        let s = "count="@ + decimal(count as nat);
        lemma_reads_signed(rssi as int);
        lemma_item(s, ' ', " rssi="@, "rssi="@, decimal_signed(rssi as int), Some(rssi as int));
        lemma_goes_on(s, s + " rssi="@ + decimal_signed(rssi as int), ' ');
        let s = s + " rssi="@ + decimal_signed(rssi as int);
        lemma_reads_signed(snr as int);
        lemma_item(s, ' ', " snr="@, "snr="@, decimal_signed(snr as int), Some(snr as int));
        lemma_goes_on(s, s + " snr="@ + decimal_signed(snr as int), ' ');
        let s = s + " snr="@ + decimal_signed(snr as int);
        lemma_reads_decimal(stored_crc as nat);
        lemma_item(
            s,
            ' ',
            " stored_crc="@,
            "stored_crc="@,
            decimal(stored_crc as nat),
            Some(stored_crc as int),
        );
        lemma_goes_on(s, s + " stored_crc="@ + decimal(stored_crc as nat), ' ');
        let s = s + " stored_crc="@ + decimal(stored_crc as nat);
        lemma_reads_decimal(computed_crc as nat);
        lemma_item(
            s,
            ' ',
            " computed_crc="@,
            "computed_crc="@,
            decimal(computed_crc as nat),
            Some(computed_crc as int),
        );
        lemma_goes_on(s, s + " computed_crc="@ + decimal(computed_crc as nat), ' ');
        let s = s + " computed_crc="@ + decimal(computed_crc as nat);
    }
}

proof fn lemma_diag_rejected(detail: DiagDetail)
    requires
        detail is Rejected,
    ensures
        ({
            let text = diag_detail_text(detail);
            match detail {
                DiagDetail::Rejected { len, error, count, rssi, snr } => {
                    &&& pieces(text, ' ') == 5
                    &&& tells(text, ' ', 0, "len="@, Some(len as int))
                    &&& tells_text(text, ' ', 1, "error="@ + error.spec_label()@)
                    &&& tells(text, ' ', 2, "count="@, Some(count as int))
                    &&& tells(text, ' ', 3, "rssi="@, Some(rssi as int))
                    &&& tells(text, ' ', 4, "snr="@, Some(snr as int))
                },
                _ => true,
            }
        }),
{
    if let DiagDetail::Rejected { len, error, count, rssi, snr } = detail {
        lemma_diag_marks();
        assert(free_of(error.spec_label()@, ' ')) by {
            lemma_label_free(error);
        }
        assert(free_of("len="@, ' ')) by {
            reveal(free_of);
            reveal_strlit("len=");
        }
        lemma_reads_decimal(len as nat);
        lemma_first_item(' ', "len="@, decimal(len as nat), Some(len as int));
        let s = "len="@ + decimal(len as nat);
        lemma_text_item(s, ' ', " error="@, "error="@, error.spec_label()@);
        lemma_goes_on(s, s + " error="@ + error.spec_label()@, ' ');
        let s = s + " error="@ + error.spec_label()@;
        lemma_reads_decimal(count as nat);
        lemma_item(s, ' ', " count="@, "count="@, decimal(count as nat), Some(count as int));
        lemma_goes_on(s, s + " count="@ + decimal(count as nat), ' ');
        let s = s + " count="@ + decimal(count as nat);
        lemma_reads_signed(rssi as int);
        lemma_item(s, ' ', " rssi="@, "rssi="@, decimal_signed(rssi as int), Some(rssi as int));
        lemma_goes_on(s, s + " rssi="@ + decimal_signed(rssi as int), ' ');
        let s = s + " rssi="@ + decimal_signed(rssi as int);
        lemma_reads_signed(snr as int);
        lemma_item(s, ' ', " snr="@, "snr="@, decimal_signed(snr as int), Some(snr as int));
        lemma_goes_on(s, s + " snr="@ + decimal_signed(snr as int), ' ');
        let s = s + " snr="@ + decimal_signed(snr as int);
    }
}

proof fn lemma_diag_foreign(detail: DiagDetail)
    requires
        detail is Foreign,
    ensures
        ({
            let text = diag_detail_text(detail);
            match detail {
                DiagDetail::Foreign { sender, survey, sequence, mode, count } => {
                    &&& pieces(text, ' ') == 5
                    &&& tells(text, ' ', 0, "sender="@, Some(sender as int))
                    &&& tells(text, ' ', 1, "survey="@, Some(survey as int))
                    &&& tells(text, ' ', 2, "seq="@, Some(sequence as int))
                    &&& tells(text, ' ', 3, "mode="@, Some(mode as int))
                    &&& tells(text, ' ', 4, "count="@, Some(count as int))
                },
                _ => true,
            }
        }),
{
    if let DiagDetail::Foreign { sender, survey, sequence, mode, count } = detail {
        lemma_diag_marks();
        assert(free_of("sender="@, ' ')) by {
            reveal(free_of);
            reveal_strlit("sender=");
        }
        lemma_reads_decimal(sender as nat);
        lemma_first_item(' ', "sender="@, decimal(sender as nat), Some(sender as int));
        let s = "sender="@ + decimal(sender as nat);
        lemma_reads_decimal(survey as nat);
        lemma_item(s, ' ', " survey="@, "survey="@, decimal(survey as nat), Some(survey as int));
        lemma_goes_on(s, s + " survey="@ + decimal(survey as nat), ' ');
        let s = s + " survey="@ + decimal(survey as nat);
        lemma_reads_decimal(sequence as nat);
        lemma_item(s, ' ', " seq="@, "seq="@, decimal(sequence as nat), Some(sequence as int));
        lemma_goes_on(s, s + " seq="@ + decimal(sequence as nat), ' ');
        let s = s + " seq="@ + decimal(sequence as nat);
        lemma_reads_decimal(mode as nat);
        lemma_item(s, ' ', " mode="@, "mode="@, decimal(mode as nat), Some(mode as int));
        lemma_goes_on(s, s + " mode="@ + decimal(mode as nat), ' ');
        let s = s + " mode="@ + decimal(mode as nat);
        lemma_reads_decimal(count as nat);
        lemma_item(s, ' ', " count="@, "count="@, decimal(count as nat), Some(count as int));
        lemma_goes_on(s, s + " count="@ + decimal(count as nat), ' ');
        let s = s + " count="@ + decimal(count as nat);
    }
}

proof fn lemma_diag_candidate_duplicate(detail: DiagDetail)
    requires
        detail is CandidateDuplicate,
    ensures
        ({
            let text = diag_detail_text(detail);
            match detail {
                DiagDetail::CandidateDuplicate { sequence, rssi, snr } => {
                    &&& pieces(text, ' ') == 3
                    &&& tells(text, ' ', 0, "seq="@, Some(sequence as int))
                    &&& tells(text, ' ', 1, "rssi="@, Some(rssi as int))
                    &&& tells(text, ' ', 2, "snr="@, Some(snr as int))
                },
                _ => true,
            }
        }),
{
    if let DiagDetail::CandidateDuplicate { sequence, rssi, snr } = detail {
        lemma_diag_marks();
        assert(free_of("seq="@, ' ')) by {
            reveal(free_of);
            reveal_strlit("seq=");
        }
        lemma_reads_decimal(sequence as nat);
        lemma_first_item(' ', "seq="@, decimal(sequence as nat), Some(sequence as int));
        let s = "seq="@ + decimal(sequence as nat);
        lemma_reads_signed(rssi as int);
        lemma_item(s, ' ', " rssi="@, "rssi="@, decimal_signed(rssi as int), Some(rssi as int));
        lemma_goes_on(s, s + " rssi="@ + decimal_signed(rssi as int), ' ');
        let s = s + " rssi="@ + decimal_signed(rssi as int);
        lemma_reads_signed(snr as int);
        lemma_item(s, ' ', " snr="@, "snr="@, decimal_signed(snr as int), Some(snr as int));
        lemma_goes_on(s, s + " snr="@ + decimal_signed(snr as int), ' ');
        let s = s + " snr="@ + decimal_signed(snr as int);
    }
}

proof fn lemma_diag_resync(detail: DiagDetail)
    requires
        detail is Resync,
    ensures
        ({
            let text = diag_detail_text(detail);
            match detail {
                DiagDetail::Resync { previous, candidate, current, missed } => {
                    &&& pieces(text, ' ') == 4
                    &&& tells(text, ' ', 0, "prev="@, Some(previous as int))
                    &&& tells(text, ' ', 1, "candidate="@, Some(candidate as int))
                    &&& tells(text, ' ', 2, "current="@, Some(current as int))
                    &&& tells(text, ' ', 3, "missed="@, Some(missed as int))
                },
                _ => true,
            }
        }),
{
    if let DiagDetail::Resync { previous, candidate, current, missed } = detail {
        lemma_diag_marks();
        assert(free_of("prev="@, ' ')) by {
            reveal(free_of);
            reveal_strlit("prev=");
        }
        lemma_reads_decimal(previous as nat);
        lemma_first_item(' ', "prev="@, decimal(previous as nat), Some(previous as int));
        let s = "prev="@ + decimal(previous as nat);
        lemma_reads_decimal(candidate as nat);
        lemma_item(
            s,
            ' ',
            " candidate="@,
            "candidate="@,
            decimal(candidate as nat),
            Some(candidate as int),
        );
        lemma_goes_on(s, s + " candidate="@ + decimal(candidate as nat), ' ');
        let s = s + " candidate="@ + decimal(candidate as nat);
        lemma_reads_decimal(current as nat);
        lemma_item(
            s,
            ' ',
            " current="@,
            "current="@,
            decimal(current as nat),
            Some(current as int),
        );
        lemma_goes_on(s, s + " current="@ + decimal(current as nat), ' ');
        let s = s + " current="@ + decimal(current as nat);
        lemma_reads_decimal(missed as nat);
        lemma_item(s, ' ', " missed="@, "missed="@, decimal(missed as nat), Some(missed as int));
        lemma_goes_on(s, s + " missed="@ + decimal(missed as nat), ' ');
        let s = s + " missed="@ + decimal(missed as nat);
    }
}

proof fn lemma_diag_not_confirmed(detail: DiagDetail)
    requires
        detail is NotConfirmed,
    ensures
        ({
            let text = diag_detail_text(detail);
            match detail {
                DiagDetail::NotConfirmed { candidate, next, trusted } => {
                    &&& pieces(text, ' ') == 3
                    &&& tells(text, ' ', 0, "candidate="@, Some(candidate as int))
                    &&& tells(text, ' ', 1, "next="@, Some(next as int))
                    &&& tells(text, ' ', 2, "trusted_prev="@, Some(trusted as int))
                },
                _ => true,
            }
        }),
{
    if let DiagDetail::NotConfirmed { candidate, next, trusted } = detail {
        lemma_diag_marks();
        assert(free_of("candidate="@, ' ')) by {
            reveal(free_of);
            reveal_strlit("candidate=");
        }
        lemma_reads_decimal(candidate as nat);
        lemma_first_item(' ', "candidate="@, decimal(candidate as nat), Some(candidate as int));
        let s = "candidate="@ + decimal(candidate as nat);
        lemma_reads_decimal(next as nat);
        lemma_item(s, ' ', " next="@, "next="@, decimal(next as nat), Some(next as int));
        lemma_goes_on(s, s + " next="@ + decimal(next as nat), ' ');
        let s = s + " next="@ + decimal(next as nat);
        lemma_reads_decimal(trusted as nat);
        lemma_item(
            s,
            ' ',
            " trusted_prev="@,
            "trusted_prev="@,
            decimal(trusted as nat),
            Some(trusted as int),
        );
        lemma_goes_on(s, s + " trusted_prev="@ + decimal(trusted as nat), ' ');
        let s = s + " trusted_prev="@ + decimal(trusted as nat);
    }
}

proof fn lemma_diag_suspicious(detail: DiagDetail)
    requires
        detail is Suspicious,
    ensures
        ({
            let text = diag_detail_text(detail);
            match detail {
                DiagDetail::Suspicious {
                    previous,
                    current,
                    gap,
                    elapsed_ms,
                    expected_gap,
                    max_gap,
                    sender,
                    survey,
                    mode,
                    rssi,
                    snr,
                } => {
                    &&& pieces(text, ' ') == 12
                    &&& tells(text, ' ', 0, "prev="@, Some(previous as int))
                    &&& tells(text, ' ', 1, "current="@, Some(current as int))
                    &&& tells(text, ' ', 2, "gap="@, Some(gap as int))
                    &&& tells(text, ' ', 3, "elapsed_ms="@, Some(elapsed_ms as int))
                    &&& tells(text, ' ', 4, "expected="@, Some(expected_gap as int))
                    &&& tells(text, ' ', 5, "max="@, Some(max_gap as int))
                    &&& tells(text, ' ', 6, "sender="@, Some(sender as int))
                    &&& tells(text, ' ', 7, "survey="@, Some(survey as int))
                    &&& tells(text, ' ', 8, "mode="@, Some(mode as int))
                    &&& tells(text, ' ', 9, "rssi="@, Some(rssi as int))
                    &&& tells(text, ' ', 10, "snr="@, Some(snr as int))
                    &&& tells_text(text, ' ', 11, "app_crc=OK"@)
                },
                _ => true,
            }
        }),
{
    if let DiagDetail::Suspicious {
        previous,
        current,
        gap,
        elapsed_ms,
        expected_gap,
        max_gap,
        sender,
        survey,
        mode,
        rssi,
        snr,
    } = detail {
        lemma_diag_marks();
        assert(free_of("prev="@, ' ')) by {
            reveal(free_of);
            reveal_strlit("prev=");
        }
        lemma_reads_decimal(previous as nat);
        lemma_first_item(' ', "prev="@, decimal(previous as nat), Some(previous as int));
        let s = "prev="@ + decimal(previous as nat);
        lemma_reads_decimal(current as nat);
        lemma_item(
            s,
            ' ',
            " current="@,
            "current="@,
            decimal(current as nat),
            Some(current as int),
        );
        lemma_goes_on(s, s + " current="@ + decimal(current as nat), ' ');
        let s = s + " current="@ + decimal(current as nat);
        lemma_reads_decimal(gap as nat);
        lemma_item(s, ' ', " gap="@, "gap="@, decimal(gap as nat), Some(gap as int));
        lemma_goes_on(s, s + " gap="@ + decimal(gap as nat), ' ');
        let s = s + " gap="@ + decimal(gap as nat);
        lemma_reads_decimal(elapsed_ms as nat);
        lemma_item(
            s,
            ' ',
            " elapsed_ms="@,
            "elapsed_ms="@,
            decimal(elapsed_ms as nat),
            Some(elapsed_ms as int),
        );
        lemma_goes_on(s, s + " elapsed_ms="@ + decimal(elapsed_ms as nat), ' ');
        let s = s + " elapsed_ms="@ + decimal(elapsed_ms as nat);
        lemma_reads_decimal(expected_gap as nat);
        lemma_item(
            s,
            ' ',
            " expected="@,
            "expected="@,
            decimal(expected_gap as nat),
            Some(expected_gap as int),
        );
        lemma_goes_on(s, s + " expected="@ + decimal(expected_gap as nat), ' ');
        let s = s + " expected="@ + decimal(expected_gap as nat);
        lemma_reads_decimal(max_gap as nat);
        lemma_item(s, ' ', " max="@, "max="@, decimal(max_gap as nat), Some(max_gap as int));
        lemma_goes_on(s, s + " max="@ + decimal(max_gap as nat), ' ');
        let s = s + " max="@ + decimal(max_gap as nat);
        lemma_reads_decimal(sender as nat);
        lemma_item(s, ' ', " sender="@, "sender="@, decimal(sender as nat), Some(sender as int));
        lemma_goes_on(s, s + " sender="@ + decimal(sender as nat), ' ');
        let s = s + " sender="@ + decimal(sender as nat);
        lemma_reads_decimal(survey as nat);
        lemma_item(s, ' ', " survey="@, "survey="@, decimal(survey as nat), Some(survey as int));
        lemma_goes_on(s, s + " survey="@ + decimal(survey as nat), ' ');
        let s = s + " survey="@ + decimal(survey as nat);
        lemma_reads_decimal(mode as nat);
        lemma_item(s, ' ', " mode="@, "mode="@, decimal(mode as nat), Some(mode as int));
        lemma_goes_on(s, s + " mode="@ + decimal(mode as nat), ' ');
        let s = s + " mode="@ + decimal(mode as nat);
        lemma_reads_signed(rssi as int);
        lemma_item(s, ' ', " rssi="@, "rssi="@, decimal_signed(rssi as int), Some(rssi as int));
        lemma_goes_on(s, s + " rssi="@ + decimal_signed(rssi as int), ' ');
        let s = s + " rssi="@ + decimal_signed(rssi as int);
        lemma_reads_signed(snr as int);
        lemma_item(s, ' ', " snr="@, "snr="@, decimal_signed(snr as int), Some(snr as int));
        lemma_goes_on(s, s + " snr="@ + decimal_signed(snr as int), ' ');
        let s = s + " snr="@ + decimal_signed(snr as int);
        lemma_const_item(s, ' ', " app_crc=OK"@, "app_crc=OK"@);
        lemma_goes_on(s, s + " app_crc=OK"@, ' ');
        let s = s + " app_crc=OK"@;
    }
}

proof fn lemma_diag_reset(detail: DiagDetail)
    requires
        detail is Reset,
    ensures
        ({
            let text = diag_detail_text(detail);
            match detail {
                DiagDetail::Reset { previous, current } => {
                    &&& pieces(text, ' ') == 2
                    &&& tells(text, ' ', 0, "prev="@, Some(previous as int))
                    &&& tells(text, ' ', 1, "current="@, Some(current as int))
                },
                _ => true,
            }
        }),
{
    if let DiagDetail::Reset { previous, current } = detail {
        lemma_diag_marks();
        assert(free_of("prev="@, ' ')) by {
            reveal(free_of);
            reveal_strlit("prev=");
        }
        lemma_reads_decimal(previous as nat);
        lemma_first_item(' ', "prev="@, decimal(previous as nat), Some(previous as int));
        let s = "prev="@ + decimal(previous as nat);
        lemma_reads_decimal(current as nat);
        lemma_item(
            s,
            ' ',
            " current="@,
            "current="@,
            decimal(current as nat),
            Some(current as int),
        );
        lemma_goes_on(s, s + " current="@ + decimal(current as nat), ' ');
        let s = s + " current="@ + decimal(current as nat);
    }
}

proof fn lemma_diag_backward(detail: DiagDetail)
    requires
        detail is Backward,
    ensures
        ({
            let text = diag_detail_text(detail);
            match detail {
                DiagDetail::Backward { previous, current, rssi, snr } => {
                    &&& pieces(text, ' ') == 4
                    &&& tells(text, ' ', 0, "prev="@, Some(previous as int))
                    &&& tells(text, ' ', 1, "current="@, Some(current as int))
                    &&& tells(text, ' ', 2, "rssi="@, Some(rssi as int))
                    &&& tells(text, ' ', 3, "snr="@, Some(snr as int))
                },
                _ => true,
            }
        }),
{
    if let DiagDetail::Backward { previous, current, rssi, snr } = detail {
        lemma_diag_marks();
        assert(free_of("prev="@, ' ')) by {
            reveal(free_of);
            reveal_strlit("prev=");
        }
        lemma_reads_decimal(previous as nat);
        lemma_first_item(' ', "prev="@, decimal(previous as nat), Some(previous as int));
        let s = "prev="@ + decimal(previous as nat);
        lemma_reads_decimal(current as nat);
        lemma_item(
            s,
            ' ',
            " current="@,
            "current="@,
            decimal(current as nat),
            Some(current as int),
        );
        lemma_goes_on(s, s + " current="@ + decimal(current as nat), ' ');
        let s = s + " current="@ + decimal(current as nat);
        lemma_reads_signed(rssi as int);
        lemma_item(s, ' ', " rssi="@, "rssi="@, decimal_signed(rssi as int), Some(rssi as int));
        lemma_goes_on(s, s + " rssi="@ + decimal_signed(rssi as int), ' ');
        let s = s + " rssi="@ + decimal_signed(rssi as int);
        lemma_reads_signed(snr as int);
        lemma_item(s, ' ', " snr="@, "snr="@, decimal_signed(snr as int), Some(snr as int));
        lemma_goes_on(s, s + " snr="@ + decimal_signed(snr as int), ' ');
        let s = s + " snr="@ + decimal_signed(snr as int);
    }
}

proof fn lemma_diag_append(detail: DiagDetail)
    requires
        detail is Append,
    ensures
        ({
            let text = diag_detail_text(detail);
            match detail {
                DiagDetail::Append { us, bytes } => {
                    &&& pieces(text, ' ') == 2
                    &&& tells(text, ' ', 0, "us="@, Some(us as int))
                    &&& tells(text, ' ', 1, "bytes="@, Some(bytes as int))
                },
                _ => true,
            }
        }),
{
    if let DiagDetail::Append { us, bytes } = detail {
        lemma_diag_marks();
        assert(free_of("us="@, ' ')) by {
            reveal(free_of);
            reveal_strlit("us=");
        }
        lemma_reads_decimal(us as nat);
        lemma_first_item(' ', "us="@, decimal(us as nat), Some(us as int));
        let s = "us="@ + decimal(us as nat);
        lemma_reads_decimal(bytes as nat);
        lemma_item(s, ' ', " bytes="@, "bytes="@, decimal(bytes as nat), Some(bytes as int));
        lemma_goes_on(s, s + " bytes="@ + decimal(bytes as nat), ' ');
        let s = s + " bytes="@ + decimal(bytes as nat);
    }
}

proof fn lemma_diag_checkpoint(detail: DiagDetail)
    requires
        detail is Checkpoint,
    ensures
        ({
            let text = diag_detail_text(detail);
            match detail {
                DiagDetail::Checkpoint { us } => {
                    &&& pieces(text, ' ') == 1
                    &&& tells(text, ' ', 0, "us="@, Some(us as int))
                },
                _ => true,
            }
        }),
{
    if let DiagDetail::Checkpoint { us } = detail {
        lemma_diag_marks();
        assert(free_of("us="@, ' ')) by {
            reveal(free_of);
            reveal_strlit("us=");
        }
        lemma_reads_decimal(us as nat);
        lemma_first_item(' ', "us="@, decimal(us as nat), Some(us as int));
        let s = "us="@ + decimal(us as nat);
    }
}

/// The keys of the details of diagnostic lines.
proof fn lemma_diag_marks()
    ensures
        marks(" prev_utc_ms="@, "prev_utc_ms="@, ' '),
        marks(" prev_mono_ms="@, "prev_mono_ms="@, ' '),
        marks(" mono_ms="@, "mono_ms="@, ' '),
        marks(" confirmed_samples=2"@, "confirmed_samples=2"@, ' '),
        marks(" rssi="@, "rssi="@, ' '),
        marks(" snr="@, "snr="@, ' '),
        marks(" stored_crc="@, "stored_crc="@, ' '),
        marks(" computed_crc="@, "computed_crc="@, ' '),
        marks(" error="@, "error="@, ' '),
        marks(" count="@, "count="@, ' '),
        marks(" survey="@, "survey="@, ' '),
        marks(" seq="@, "seq="@, ' '),
        marks(" mode="@, "mode="@, ' '),
        marks(" candidate="@, "candidate="@, ' '),
        marks(" current="@, "current="@, ' '),
        marks(" missed="@, "missed="@, ' '),
        marks(" next="@, "next="@, ' '),
        marks(" trusted_prev="@, "trusted_prev="@, ' '),
        marks(" gap="@, "gap="@, ' '),
        marks(" elapsed_ms="@, "elapsed_ms="@, ' '),
        marks(" expected="@, "expected="@, ' '),
        marks(" max="@, "max="@, ' '),
        marks(" sender="@, "sender="@, ' '),
        marks(" app_crc=OK"@, "app_crc=OK"@, ' '),
        marks(" bytes="@, "bytes="@, ' '),
{
    assert(marks(" prev_utc_ms="@, "prev_utc_ms="@, ' ')) by {
        reveal(marks);
        reveal(free_of);
        reveal_strlit(" prev_utc_ms=");
        reveal_strlit("prev_utc_ms=");
        assert(" prev_utc_ms="@ =~= seq![' '] + "prev_utc_ms="@);
    }
    assert(marks(" prev_mono_ms="@, "prev_mono_ms="@, ' ')) by {
        reveal(marks);
        reveal(free_of);
        reveal_strlit(" prev_mono_ms=");
        reveal_strlit("prev_mono_ms=");
        assert(" prev_mono_ms="@ =~= seq![' '] + "prev_mono_ms="@);
    }
    assert(marks(" mono_ms="@, "mono_ms="@, ' ')) by {
        reveal(marks);
        reveal(free_of);
        reveal_strlit(" mono_ms=");
        reveal_strlit("mono_ms=");
        assert(" mono_ms="@ =~= seq![' '] + "mono_ms="@);
    }
    assert(marks(" confirmed_samples=2"@, "confirmed_samples=2"@, ' ')) by {
        reveal(marks);
        reveal(free_of);
        reveal_strlit(" confirmed_samples=2");
        reveal_strlit("confirmed_samples=2");
        assert(" confirmed_samples=2"@ =~= seq![' '] + "confirmed_samples=2"@);
    }
    assert(marks(" rssi="@, "rssi="@, ' ')) by {
        reveal(marks);
        reveal(free_of);
        reveal_strlit(" rssi=");
        reveal_strlit("rssi=");
        assert(" rssi="@ =~= seq![' '] + "rssi="@);
    }
    assert(marks(" snr="@, "snr="@, ' ')) by {
        reveal(marks);
        reveal(free_of);
        reveal_strlit(" snr=");
        reveal_strlit("snr=");
        assert(" snr="@ =~= seq![' '] + "snr="@);
    }
    assert(marks(" stored_crc="@, "stored_crc="@, ' ')) by {
        reveal(marks);
        reveal(free_of);
        reveal_strlit(" stored_crc=");
        reveal_strlit("stored_crc=");
        assert(" stored_crc="@ =~= seq![' '] + "stored_crc="@);
    }
    assert(marks(" computed_crc="@, "computed_crc="@, ' ')) by {
        reveal(marks);
        reveal(free_of);
        reveal_strlit(" computed_crc=");
        reveal_strlit("computed_crc=");
        assert(" computed_crc="@ =~= seq![' '] + "computed_crc="@);
    }
    assert(marks(" error="@, "error="@, ' ')) by {
        reveal(marks);
        reveal(free_of);
        reveal_strlit(" error=");
        reveal_strlit("error=");
        assert(" error="@ =~= seq![' '] + "error="@);
    }
    assert(marks(" count="@, "count="@, ' ')) by {
        reveal(marks);
        reveal(free_of);
        reveal_strlit(" count=");
        reveal_strlit("count=");
        assert(" count="@ =~= seq![' '] + "count="@);
    }
    assert(marks(" survey="@, "survey="@, ' ')) by {
        reveal(marks);
        reveal(free_of);
        reveal_strlit(" survey=");
        reveal_strlit("survey=");
        assert(" survey="@ =~= seq![' '] + "survey="@);
    }
    assert(marks(" seq="@, "seq="@, ' ')) by {
        reveal(marks);
        reveal(free_of);
        reveal_strlit(" seq=");
        reveal_strlit("seq=");
        assert(" seq="@ =~= seq![' '] + "seq="@);
    }
    assert(marks(" mode="@, "mode="@, ' ')) by {
        reveal(marks);
        reveal(free_of);
        reveal_strlit(" mode=");
        reveal_strlit("mode=");
        assert(" mode="@ =~= seq![' '] + "mode="@);
    }
    assert(marks(" candidate="@, "candidate="@, ' ')) by {
        reveal(marks);
        reveal(free_of);
        reveal_strlit(" candidate=");
        reveal_strlit("candidate=");
        assert(" candidate="@ =~= seq![' '] + "candidate="@);
    }
    assert(marks(" current="@, "current="@, ' ')) by {
        reveal(marks);
        reveal(free_of);
        reveal_strlit(" current=");
        reveal_strlit("current=");
        assert(" current="@ =~= seq![' '] + "current="@);
    }
    assert(marks(" missed="@, "missed="@, ' ')) by {
        reveal(marks);
        reveal(free_of);
        reveal_strlit(" missed=");
        reveal_strlit("missed=");
        assert(" missed="@ =~= seq![' '] + "missed="@);
    }
    assert(marks(" next="@, "next="@, ' ')) by {
        reveal(marks);
        reveal(free_of);
        reveal_strlit(" next=");
        reveal_strlit("next=");
        assert(" next="@ =~= seq![' '] + "next="@);
    }
    assert(marks(" trusted_prev="@, "trusted_prev="@, ' ')) by {
        reveal(marks);
        reveal(free_of);
        reveal_strlit(" trusted_prev=");
        reveal_strlit("trusted_prev=");
        assert(" trusted_prev="@ =~= seq![' '] + "trusted_prev="@);
    }
    assert(marks(" gap="@, "gap="@, ' ')) by {
        reveal(marks);
        reveal(free_of);
        reveal_strlit(" gap=");
        reveal_strlit("gap=");
        assert(" gap="@ =~= seq![' '] + "gap="@);
    }
    assert(marks(" elapsed_ms="@, "elapsed_ms="@, ' ')) by {
        reveal(marks);
        reveal(free_of);
        reveal_strlit(" elapsed_ms=");
        reveal_strlit("elapsed_ms=");
        assert(" elapsed_ms="@ =~= seq![' '] + "elapsed_ms="@);
    }
    assert(marks(" expected="@, "expected="@, ' ')) by {
        reveal(marks);
        reveal(free_of);
        reveal_strlit(" expected=");
        reveal_strlit("expected=");
        assert(" expected="@ =~= seq![' '] + "expected="@);
    }
    assert(marks(" max="@, "max="@, ' ')) by {
        reveal(marks);
        reveal(free_of);
        reveal_strlit(" max=");
        reveal_strlit("max=");
        assert(" max="@ =~= seq![' '] + "max="@);
    }
    assert(marks(" sender="@, "sender="@, ' ')) by {
        reveal(marks);
        reveal(free_of);
        reveal_strlit(" sender=");
        reveal_strlit("sender=");
        assert(" sender="@ =~= seq![' '] + "sender="@);
    }
    assert(marks(" app_crc=OK"@, "app_crc=OK"@, ' ')) by {
        reveal(marks);
        reveal(free_of);
        reveal_strlit(" app_crc=OK");
        reveal_strlit("app_crc=OK");
        assert(" app_crc=OK"@ =~= seq![' '] + "app_crc=OK"@);
    }
    assert(marks(" bytes="@, "bytes="@, ' ')) by {
        reveal(marks);
        reveal(free_of);
        reveal_strlit(" bytes=");
        reveal_strlit("bytes=");
        assert(" bytes="@ =~= seq![' '] + "bytes="@);
    }
}

/// The details of a diagnostic line can be read back: spaces part them, and behind each key stands
/// the number that they were made of.
pub proof fn law_diag_details_read_back(detail: DiagDetail)
    ensures
        ({
            let text = diag_detail_text(detail);
            match detail {
                DiagDetail::Nothing => text.len() == 0,
                DiagDetail::ResultOk => text == "result=OK"@,
                DiagDetail::UtcRejected { candidate_utc_ms, previous_utc_ms, previous_mono_ms } => {
                    &&& pieces(text, ' ') == 3
                    &&& tells(text, ' ', 0, "candidate_utc_ms="@, Some(candidate_utc_ms as int))
                    &&& tells(text, ' ', 1, "prev_utc_ms="@, Some(previous_utc_ms as int))
                    &&& tells(text, ' ', 2, "prev_mono_ms="@, Some(previous_mono_ms as int))
                },
                DiagDetail::UtcSync { utc_ms, mono_ms } => {
                    &&& pieces(text, ' ') == 3
                    &&& tells(text, ' ', 0, "utc_ms="@, Some(utc_ms as int))
                    &&& tells(text, ' ', 1, "mono_ms="@, Some(mono_ms as int))
                    &&& tells_text(text, ' ', 2, "confirmed_samples=2"@)
                },
                DiagDetail::CrcFailed { count, rssi, snr, stored_crc, computed_crc } => {
                    &&& pieces(text, ' ') == 5
                    &&& tells(text, ' ', 0, "count="@, Some(count as int))
                    &&& tells(text, ' ', 1, "rssi="@, Some(rssi as int))
                    &&& tells(text, ' ', 2, "snr="@, Some(snr as int))
                    &&& tells(text, ' ', 3, "stored_crc="@, Some(stored_crc as int))
                    &&& tells(text, ' ', 4, "computed_crc="@, Some(computed_crc as int))
                },
                DiagDetail::Rejected { len, error, count, rssi, snr } => {
                    &&& pieces(text, ' ') == 5
                    &&& tells(text, ' ', 0, "len="@, Some(len as int))
                    &&& tells_text(text, ' ', 1, "error="@ + error.spec_label()@)
                    &&& tells(text, ' ', 2, "count="@, Some(count as int))
                    &&& tells(text, ' ', 3, "rssi="@, Some(rssi as int))
                    &&& tells(text, ' ', 4, "snr="@, Some(snr as int))
                },
                DiagDetail::Foreign { sender, survey, sequence, mode, count } => {
                    &&& pieces(text, ' ') == 5
                    &&& tells(text, ' ', 0, "sender="@, Some(sender as int))
                    &&& tells(text, ' ', 1, "survey="@, Some(survey as int))
                    &&& tells(text, ' ', 2, "seq="@, Some(sequence as int))
                    &&& tells(text, ' ', 3, "mode="@, Some(mode as int))
                    &&& tells(text, ' ', 4, "count="@, Some(count as int))
                },
                DiagDetail::CandidateDuplicate { sequence, rssi, snr } => {
                    &&& pieces(text, ' ') == 3
                    &&& tells(text, ' ', 0, "seq="@, Some(sequence as int))
                    &&& tells(text, ' ', 1, "rssi="@, Some(rssi as int))
                    &&& tells(text, ' ', 2, "snr="@, Some(snr as int))
                },
                DiagDetail::Resync { previous, candidate, current, missed } => {
                    &&& pieces(text, ' ') == 4
                    &&& tells(text, ' ', 0, "prev="@, Some(previous as int))
                    &&& tells(text, ' ', 1, "candidate="@, Some(candidate as int))
                    &&& tells(text, ' ', 2, "current="@, Some(current as int))
                    &&& tells(text, ' ', 3, "missed="@, Some(missed as int))
                },
                DiagDetail::NotConfirmed { candidate, next, trusted } => {
                    &&& pieces(text, ' ') == 3
                    &&& tells(text, ' ', 0, "candidate="@, Some(candidate as int))
                    &&& tells(text, ' ', 1, "next="@, Some(next as int))
                    &&& tells(text, ' ', 2, "trusted_prev="@, Some(trusted as int))
                },
                DiagDetail::Suspicious {
                    previous,
                    current,
                    gap,
                    elapsed_ms,
                    expected_gap,
                    max_gap,
                    sender,
                    survey,
                    mode,
                    rssi,
                    snr,
                } => {
                    &&& pieces(text, ' ') == 12
                    &&& tells(text, ' ', 0, "prev="@, Some(previous as int))
                    &&& tells(text, ' ', 1, "current="@, Some(current as int))
                    &&& tells(text, ' ', 2, "gap="@, Some(gap as int))
                    &&& tells(text, ' ', 3, "elapsed_ms="@, Some(elapsed_ms as int))
                    &&& tells(text, ' ', 4, "expected="@, Some(expected_gap as int))
                    &&& tells(text, ' ', 5, "max="@, Some(max_gap as int))
                    &&& tells(text, ' ', 6, "sender="@, Some(sender as int))
                    &&& tells(text, ' ', 7, "survey="@, Some(survey as int))
                    &&& tells(text, ' ', 8, "mode="@, Some(mode as int))
                    &&& tells(text, ' ', 9, "rssi="@, Some(rssi as int))
                    &&& tells(text, ' ', 10, "snr="@, Some(snr as int))
                    &&& tells_text(text, ' ', 11, "app_crc=OK"@)
                },
                DiagDetail::Reset { previous, current } => {
                    &&& pieces(text, ' ') == 2
                    &&& tells(text, ' ', 0, "prev="@, Some(previous as int))
                    &&& tells(text, ' ', 1, "current="@, Some(current as int))
                },
                DiagDetail::Backward { previous, current, rssi, snr } => {
                    &&& pieces(text, ' ') == 4
                    &&& tells(text, ' ', 0, "prev="@, Some(previous as int))
                    &&& tells(text, ' ', 1, "current="@, Some(current as int))
                    &&& tells(text, ' ', 2, "rssi="@, Some(rssi as int))
                    &&& tells(text, ' ', 3, "snr="@, Some(snr as int))
                },
                DiagDetail::Append { us, bytes } => {
                    &&& pieces(text, ' ') == 2
                    &&& tells(text, ' ', 0, "us="@, Some(us as int))
                    &&& tells(text, ' ', 1, "bytes="@, Some(bytes as int))
                },
                DiagDetail::Checkpoint { us } => {
                    &&& pieces(text, ' ') == 1
                    &&& tells(text, ' ', 0, "us="@, Some(us as int))
                },
            }
        }),
{
    match detail {
        DiagDetail::Nothing => {},
        DiagDetail::ResultOk => {},
        DiagDetail::UtcRejected { .. } => lemma_diag_utc_rejected(detail),
        DiagDetail::UtcSync { .. } => lemma_diag_utc_sync(detail),
        DiagDetail::CrcFailed { .. } => lemma_diag_crc_failed(detail),
        DiagDetail::Rejected { .. } => lemma_diag_rejected(detail),
        DiagDetail::Foreign { .. } => lemma_diag_foreign(detail),
        DiagDetail::CandidateDuplicate { .. } => lemma_diag_candidate_duplicate(detail),
        DiagDetail::Resync { .. } => lemma_diag_resync(detail),
        DiagDetail::NotConfirmed { .. } => lemma_diag_not_confirmed(detail),
        DiagDetail::Suspicious { .. } => lemma_diag_suspicious(detail),
        DiagDetail::Reset { .. } => lemma_diag_reset(detail),
        DiagDetail::Backward { .. } => lemma_diag_backward(detail),
        DiagDetail::Append { .. } => lemma_diag_append(detail),
        DiagDetail::Checkpoint { .. } => lemma_diag_checkpoint(detail),
    }
}

/// The name of an error is one word.
proof fn lemma_label_free(error: DecodeError)
    ensures
        free_of(error.spec_label()@, ' '),
{
    reveal(free_of);
    reveal_strlit("WRONG_LENGTH");
    reveal_strlit("BAD_MARKER");
    reveal_strlit("UNSUPPORTED_VERSION");
    reveal_strlit("UNSUPPORTED_PACKET_TYPE");
    reveal_strlit("CRC_MISMATCH");
    reveal_strlit("INVALID_FIELD");
}

/// A line of the event log can be read back: it is closed by a line feed, commas part its values,
/// and behind each key stands the value that the line was made of. The details are the values
/// behind those, as they are.
pub proof fn law_event_lines_read_back(
    mono_ms: u64,
    utc_ms: Option<u64>,
    event_id: Seq<char>,
    gps: GpsState,
    details: Seq<char>,
)
    requires
        free_of(event_id, ','),
    ensures
        ({
            let line = event_text(mono_ms, utc_ms, event_id, gps, details);
            let text = line.drop_last();
            &&& line.last() == '\n'
            &&& tells(text, ',', 0, "MONO_MS="@, Some(mono_ms as int))
            &&& tells(text, ',', 1, "UTC_MS="@, int_u64(utc_ms))
            &&& tells_text(text, ',', 2, "EVENT="@ + event_id)
            &&& tells(text, ',', 3, "GPS_ONLINE="@, Some(bit(gps.online)))
            &&& tells(text, ',', 4, "GPS_FIX="@, Some(bit(gps.fix)))
            &&& tells(text, ',', 5, "LAT_E7="@, int_i32(gps.latitude_e7))
            &&& tells(text, ',', 6, "LON_E7="@, int_i32(gps.longitude_e7))
            &&& details.len() == 0 ==> pieces(text, ',') == 7
            &&& details.len() > 0 ==> split(text, ',').skip(7) == split(details, ',')
        }),
{
    lemma_event_line_marks();
    assert(free_of("MONO_MS="@, ',')) by {
        reveal(free_of);
        reveal_strlit("MONO_MS=");
    }
    lemma_reads_decimal(mono_ms as nat);
    lemma_first_item(',', "MONO_MS="@, decimal(mono_ms as nat), Some(mono_ms as int));
    let s = "MONO_MS="@ + decimal(mono_ms as nat);
    law_optional_reads_back(utc_ms, None, None, None, None, None);
    lemma_item(s, ',', ",UTC_MS="@, "UTC_MS="@, optional_u64(utc_ms), int_u64(utc_ms));
    lemma_goes_on(s, s + ",UTC_MS="@ + optional_u64(utc_ms), ',');
    let s = s + ",UTC_MS="@ + optional_u64(utc_ms);
    lemma_text_item(s, ',', ",EVENT="@, "EVENT="@, event_id);
    lemma_goes_on(s, s + ",EVENT="@ + event_id, ',');
    let s = s + ",EVENT="@ + event_id;
    law_flag_reads_back(gps.online);
    lemma_item(s, ',', ",GPS_ONLINE="@, "GPS_ONLINE="@, flag(gps.online), Some(bit(gps.online)));
    lemma_goes_on(s, s + ",GPS_ONLINE="@ + flag(gps.online), ',');
    let s = s + ",GPS_ONLINE="@ + flag(gps.online);
    law_flag_reads_back(gps.fix);
    lemma_item(s, ',', ",GPS_FIX="@, "GPS_FIX="@, flag(gps.fix), Some(bit(gps.fix)));
    lemma_goes_on(s, s + ",GPS_FIX="@ + flag(gps.fix), ',');
    let s = s + ",GPS_FIX="@ + flag(gps.fix);
    law_optional_reads_back(None, None, None, None, gps.latitude_e7, None);
    lemma_item(
        s,
        ',',
        ",LAT_E7="@,
        "LAT_E7="@,
        optional_i32(gps.latitude_e7),
        int_i32(gps.latitude_e7),
    );
    lemma_goes_on(s, s + ",LAT_E7="@ + optional_i32(gps.latitude_e7), ',');
    let s = s + ",LAT_E7="@ + optional_i32(gps.latitude_e7);
    law_optional_reads_back(None, None, None, None, gps.longitude_e7, None);
    lemma_item(
        s,
        ',',
        ",LON_E7="@,
        "LON_E7="@,
        optional_i32(gps.longitude_e7),
        int_i32(gps.longitude_e7),
    );
    lemma_goes_on(s, s + ",LON_E7="@ + optional_i32(gps.longitude_e7), ',');
    let s = s + ",LON_E7="@ + optional_i32(gps.longitude_e7);
    if details.len() == 0 {
        lemma_line_feed(s);
    } else {
        assert(","@ =~= seq![',']) by {
            reveal_strlit(",");
        }
        lemma_follow(s, ',', ","@, details);
        lemma_goes_on(s, s + ","@ + details, ',');
        lemma_line_feed(s + ","@ + details);
        assert((split(s, ',') + split(details, ',')).skip(7) =~= split(details, ','));
    }
}

/// The keys of a line of the event log.
proof fn lemma_event_line_marks()
    ensures
        marks(",UTC_MS="@, "UTC_MS="@, ','),
        marks(",EVENT="@, "EVENT="@, ','),
        marks(",GPS_ONLINE="@, "GPS_ONLINE="@, ','),
        marks(",GPS_FIX="@, "GPS_FIX="@, ','),
        marks(",LAT_E7="@, "LAT_E7="@, ','),
        marks(",LON_E7="@, "LON_E7="@, ','),
{
    assert(marks(",UTC_MS="@, "UTC_MS="@, ',')) by {
        reveal(marks);
        reveal(free_of);
        reveal_strlit(",UTC_MS=");
        reveal_strlit("UTC_MS=");
        assert(",UTC_MS="@ =~= seq![','] + "UTC_MS="@);
    }
    assert(marks(",EVENT="@, "EVENT="@, ',')) by {
        reveal(marks);
        reveal(free_of);
        reveal_strlit(",EVENT=");
        reveal_strlit("EVENT=");
        assert(",EVENT="@ =~= seq![','] + "EVENT="@);
    }
    assert(marks(",GPS_ONLINE="@, "GPS_ONLINE="@, ',')) by {
        reveal(marks);
        reveal(free_of);
        reveal_strlit(",GPS_ONLINE=");
        reveal_strlit("GPS_ONLINE=");
        assert(",GPS_ONLINE="@ =~= seq![','] + "GPS_ONLINE="@);
    }
    assert(marks(",GPS_FIX="@, "GPS_FIX="@, ',')) by {
        reveal(marks);
        reveal(free_of);
        reveal_strlit(",GPS_FIX=");
        reveal_strlit("GPS_FIX=");
        assert(",GPS_FIX="@ =~= seq![','] + "GPS_FIX="@);
    }
    assert(marks(",LAT_E7="@, "LAT_E7="@, ',')) by {
        reveal(marks);
        reveal(free_of);
        reveal_strlit(",LAT_E7=");
        reveal_strlit("LAT_E7=");
        assert(",LAT_E7="@ =~= seq![','] + "LAT_E7="@);
    }
    assert(marks(",LON_E7="@, "LON_E7="@, ',')) by {
        reveal(marks);
        reveal(free_of);
        reveal_strlit(",LON_E7=");
        reveal_strlit("LON_E7=");
        assert(",LON_E7="@ =~= seq![','] + "LON_E7="@);
    }
}

/// A diagnostic line can be read back: it is closed by a line feed, spaces part its words, and they
/// are calendar time and whether it is known, the device's own time, level, origin and event, with
/// the details behind them as they are.
pub proof fn law_diag_lines_read_back(
    utc_ms: Option<u64>,
    uptime_ms: u64,
    level: Seq<char>,
    originator: Seq<char>,
    event_id: Seq<char>,
    details: Seq<char>,
)
    requires
        free_of(level, ' '),
        free_of(originator, ' '),
        free_of(event_id, ' '),
    ensures
        ({
            let line = diag_text(utc_ms, uptime_ms, level, originator, event_id, details);
            let text = line.drop_last();
            &&& line.last() == '\n'
            &&& tells(text, ' ', 0, seq![], int_u64(utc_ms))
            &&& tells_text(
                text,
                ' ',
                1,
                if utc_ms is Some {
                    "GPS"@
                } else {
                    "UNKNOWN"@
                },
            )
            &&& tells(text, ' ', 2, seq![], Some(uptime_ms as int))
            &&& tells_text(text, ' ', 3, level)
            &&& tells_text(text, ' ', 4, originator)
            &&& tells_text(text, ' ', 5, event_id)
            &&& details.len() == 0 ==> pieces(text, ' ') == 6
            &&& details.len() > 0 ==> split(text, ' ').skip(6) == split(details, ' ')
        }),
{
    let none = Seq::<char>::empty();
    let space = seq![' '];
    assert(none =~= seq![]);
    assert(" "@ =~= space) by {
        reveal_strlit(" ");
    }
    assert(marks(" "@, none, ' ')) by {
        reveal(marks);
        reveal(free_of);
        assert(" "@ =~= seq![' '] + none);
    }
    let time = optional_u64(utc_ms);
    law_optional_reads_back(utc_ms, None, None, None, None, None);
    assert(free_of(none, ' ')) by {
        reveal(free_of);
    }
    lemma_first_item(' ', none, time, int_u64(utc_ms));
    assert(none + time =~= time);
    let word = if utc_ms is Some {
        "GPS"@
    } else {
        "UNKNOWN"@
    };
    assert(free_of(word, ' ')) by {
        reveal(free_of);
        reveal_strlit("GPS");
        reveal_strlit("UNKNOWN");
    }
    lemma_text_item(time, ' ', " "@, none, word);
    lemma_goes_on(time, time + " "@ + word, ' ');
    assert(none + word =~= word);
    let s = time + " "@ + word;
    lemma_reads_decimal(uptime_ms as nat);
    lemma_item(s, ' ', " "@, none, decimal(uptime_ms as nat), Some(uptime_ms as int));
    lemma_goes_on(s, s + " "@ + decimal(uptime_ms as nat), ' ');
    let s = s + " "@ + decimal(uptime_ms as nat);
    assert(s =~= (match utc_ms {
        Some(utc) => decimal(utc as nat) + " GPS "@,
        None => "NA UNKNOWN "@,
    }) + decimal(uptime_ms as nat)) by {
        reveal_strlit(" ");
        reveal_strlit("NA");
        reveal_strlit("GPS");
        reveal_strlit(" GPS ");
        reveal_strlit("UNKNOWN");
        reveal_strlit("NA UNKNOWN ");
    }
    lemma_text_item(s, ' ', " "@, none, level);
    lemma_goes_on(s, s + " "@ + level, ' ');
    assert(none + level =~= level);
    let s = s + " "@ + level;
    lemma_text_item(s, ' ', " "@, none, originator);
    lemma_goes_on(s, s + " "@ + originator, ' ');
    assert(none + originator =~= originator);
    let s = s + " "@ + originator;
    lemma_text_item(s, ' ', " "@, none, event_id);
    lemma_goes_on(s, s + " "@ + event_id, ' ');
    assert(none + event_id =~= event_id);
    let s = s + " "@ + event_id;
    assert(s == diag_head(utc_ms, uptime_ms, level, originator, event_id));
    if details.len() == 0 {
        lemma_line_feed(s);
    } else {
        lemma_follow(s, ' ', " "@, details);
        lemma_goes_on(s, s + " "@ + details, ' ');
        lemma_line_feed(s + " "@ + details);
        assert((split(s, ' ') + split(details, ' ')).skip(6) =~= split(details, ' '));
    }
}

/// The description of a session can be read back: carriage returns part its lines, a line feed
/// begins each but the first, and behind each key stands the value that the description was made
/// of.
#[verifier::rlimit(40)]
pub proof fn law_metadata_reads_back(
    survey_id: u32,
    session: u32,
    info: SystemInfo,
    start_mono_ms: u64,
)
    requires
        is_session(session as int),
        free_of(info.firmware_version.value@, '\r'),
    ensures
        ({
            let text = metadata_text(survey_id, session, info, start_mono_ms);
            &&& pieces(text, '\r') == 14
            &&& tells(text, '\r', 0, "LOG_SCHEMA="@, Some(3))
            &&& tells_text(text, '\r', 1, "\nIMPLEMENTATION_STAGE=V2B1"@)
            &&& tells_hex(text, '\r', 2, "\nSURVEY_ID="@, survey_id as int, 8)
            &&& tells_hex(text, '\r', 3, "\nSYSTEM_ID="@, info.system_id.value as int, 16)
            &&& tells(text, '\r', 4, "\nBOOT_SESSION="@, Some(session as int))
            &&& tells_text(text, '\r', 5, "\nSESSION_DIR="@ + session_name(session as nat))
            &&& tells_text(text, '\r', 6, "\nFIRMWARE="@ + info.firmware_version.value@)
            &&& tells(text, '\r', 7, "\nRF_PROTOCOL="@, Some(info.protocol_version.value as int))
            &&& tells(text, '\r', 8, "\nCONFIG_SCHEMA="@, Some(info.config_version.value as int))
            &&& tells(text, '\r', 9, "\nSTART_MONO_MS="@, Some(start_mono_ms as int))
            &&& tells_text(text, '\r', 10, "\nTIME_MODEL=MONOTONIC_PLUS_GPS_UTC_ANCHOR"@)
            &&& tells_text(text, '\r', 11, "\nLOCAL_SAMPLE_HZ=1"@)
            &&& tells_text(text, '\r', 12, "\nRX_PACKET_FORMAT=TELEMETRY_V1"@)
            &&& tells_text(text, '\r', 13, "\n"@)
        }),
{
    lemma_metadata_marks();
    law_session_names_read_back(session as nat);
    lemma_session_name_free(session as nat);
    assert(free_of("LOG_SCHEMA="@, '\r')) by {
        reveal(free_of);
        reveal_strlit("LOG_SCHEMA=");
    }
    lemma_reads_decimal(LOG_SCHEMA_VERSION as nat);
    lemma_first_item('\r', "LOG_SCHEMA="@, decimal(LOG_SCHEMA_VERSION as nat), Some(3));
    let s = "LOG_SCHEMA="@ + decimal(LOG_SCHEMA_VERSION as nat);
    lemma_const_item(s, '\r', "\r\nIMPLEMENTATION_STAGE=V2B1"@, "\nIMPLEMENTATION_STAGE=V2B1"@);
    lemma_goes_on(s, s + "\r\nIMPLEMENTATION_STAGE=V2B1"@, '\r');
    let s = s + "\r\nIMPLEMENTATION_STAGE=V2B1"@;
    assert(survey_id < pow16(8)) by {
        reveal_with_fuel(pow16, 17);
    }
    lemma_hex_item(s, '\r', "\r\nSURVEY_ID="@, "\nSURVEY_ID="@, survey_id as nat, 8);
    lemma_goes_on(s, s + "\r\nSURVEY_ID="@ + hex_fixed(survey_id as nat, 8), '\r');
    let s = s + "\r\nSURVEY_ID="@ + hex_fixed(survey_id as nat, 8);
    assert(info.system_id.value < pow16(16)) by {
        reveal_with_fuel(pow16, 17);
    }
    lemma_hex_item(s, '\r', "\r\nSYSTEM_ID="@, "\nSYSTEM_ID="@, info.system_id.value as nat, 16);
    lemma_goes_on(s, s + "\r\nSYSTEM_ID="@ + hex_fixed(info.system_id.value as nat, 16), '\r');
    let s = s + "\r\nSYSTEM_ID="@ + hex_fixed(info.system_id.value as nat, 16);
    lemma_reads_decimal(session as nat);
    lemma_item(
        s,
        '\r',
        "\r\nBOOT_SESSION="@,
        "\nBOOT_SESSION="@,
        decimal(session as nat),
        Some(session as int),
    );
    lemma_goes_on(s, s + "\r\nBOOT_SESSION="@ + decimal(session as nat), '\r');
    let s = s + "\r\nBOOT_SESSION="@ + decimal(session as nat);
    lemma_text_item(s, '\r', "\r\nSESSION_DIR="@, "\nSESSION_DIR="@, session_name(session as nat));
    lemma_goes_on(s, s + "\r\nSESSION_DIR="@ + session_name(session as nat), '\r');
    let s = s + "\r\nSESSION_DIR="@ + session_name(session as nat);
    lemma_text_item(s, '\r', "\r\nFIRMWARE="@, "\nFIRMWARE="@, info.firmware_version.value@);
    lemma_goes_on(s, s + "\r\nFIRMWARE="@ + info.firmware_version.value@, '\r');
    let s = s + "\r\nFIRMWARE="@ + info.firmware_version.value@;
    lemma_reads_decimal(info.protocol_version.value as nat);
    lemma_item(
        s,
        '\r',
        "\r\nRF_PROTOCOL="@,
        "\nRF_PROTOCOL="@,
        decimal(info.protocol_version.value as nat),
        Some(info.protocol_version.value as int),
    );
    lemma_goes_on(s, s + "\r\nRF_PROTOCOL="@ + decimal(info.protocol_version.value as nat), '\r');
    let s = s + "\r\nRF_PROTOCOL="@ + decimal(info.protocol_version.value as nat);
    lemma_reads_decimal(info.config_version.value as nat);
    lemma_item(
        s,
        '\r',
        "\r\nCONFIG_SCHEMA="@,
        "\nCONFIG_SCHEMA="@,
        decimal(info.config_version.value as nat),
        Some(info.config_version.value as int),
    );
    lemma_goes_on(s, s + "\r\nCONFIG_SCHEMA="@ + decimal(info.config_version.value as nat), '\r');
    let s = s + "\r\nCONFIG_SCHEMA="@ + decimal(info.config_version.value as nat);
    lemma_reads_decimal(start_mono_ms as nat);
    lemma_item(
        s,
        '\r',
        "\r\nSTART_MONO_MS="@,
        "\nSTART_MONO_MS="@,
        decimal(start_mono_ms as nat),
        Some(start_mono_ms as int),
    );
    lemma_goes_on(s, s + "\r\nSTART_MONO_MS="@ + decimal(start_mono_ms as nat), '\r');
    let s = s + "\r\nSTART_MONO_MS="@ + decimal(start_mono_ms as nat);
    lemma_const_item(
        s,
        '\r',
        "\r\nTIME_MODEL=MONOTONIC_PLUS_GPS_UTC_ANCHOR"@,
        "\nTIME_MODEL=MONOTONIC_PLUS_GPS_UTC_ANCHOR"@,
    );
    lemma_goes_on(s, s + "\r\nTIME_MODEL=MONOTONIC_PLUS_GPS_UTC_ANCHOR"@, '\r');
    let s = s + "\r\nTIME_MODEL=MONOTONIC_PLUS_GPS_UTC_ANCHOR"@;
    lemma_const_item(s, '\r', "\r\nLOCAL_SAMPLE_HZ=1"@, "\nLOCAL_SAMPLE_HZ=1"@);
    lemma_goes_on(s, s + "\r\nLOCAL_SAMPLE_HZ=1"@, '\r');
    let s = s + "\r\nLOCAL_SAMPLE_HZ=1"@;
    lemma_const_item(
        s,
        '\r',
        "\r\nRX_PACKET_FORMAT=TELEMETRY_V1"@,
        "\nRX_PACKET_FORMAT=TELEMETRY_V1"@,
    );
    lemma_goes_on(s, s + "\r\nRX_PACKET_FORMAT=TELEMETRY_V1"@, '\r');
    let s = s + "\r\nRX_PACKET_FORMAT=TELEMETRY_V1"@;
    lemma_const_item(s, '\r', "\r\n"@, "\n"@);
    lemma_goes_on(s, s + "\r\n"@, '\r');
    let s = s + "\r\n"@;
    lemma_metadata_parts(survey_id, session, info, start_mono_ms);
}

/// The description of a session, line by line.
proof fn lemma_metadata_parts(survey_id: u32, session: u32, info: SystemInfo, start_mono_ms: u64)
    ensures
        metadata_text(survey_id, session, info, start_mono_ms) == "LOG_SCHEMA="@
            + decimal(LOG_SCHEMA_VERSION as nat)
            + "\r\nIMPLEMENTATION_STAGE=V2B1"@
            + "\r\nSURVEY_ID="@
            + hex_fixed(survey_id as nat, 8)
            + "\r\nSYSTEM_ID="@
            + hex_fixed(info.system_id.value as nat, 16)
            + "\r\nBOOT_SESSION="@
            + decimal(session as nat)
            + "\r\nSESSION_DIR="@
            + session_name(session as nat)
            + "\r\nFIRMWARE="@
            + info.firmware_version.value@
            + "\r\nRF_PROTOCOL="@
            + decimal(info.protocol_version.value as nat)
            + "\r\nCONFIG_SCHEMA="@
            + decimal(info.config_version.value as nat)
            + "\r\nSTART_MONO_MS="@
            + decimal(start_mono_ms as nat)
            + "\r\nTIME_MODEL=MONOTONIC_PLUS_GPS_UTC_ANCHOR"@
            + "\r\nLOCAL_SAMPLE_HZ=1"@
            + "\r\nRX_PACKET_FORMAT=TELEMETRY_V1"@
            + "\r\n"@,
{
    let a = "LOG_SCHEMA="@ + decimal(LOG_SCHEMA_VERSION as nat);
    let both = "\r\nIMPLEMENTATION_STAGE=V2B1\r\nSURVEY_ID="@;
    assert(both =~= "\r\nIMPLEMENTATION_STAGE=V2B1"@ + "\r\nSURVEY_ID="@) by {
        reveal_strlit("\r\nIMPLEMENTATION_STAGE=V2B1\r\nSURVEY_ID=");
        reveal_strlit("\r\nIMPLEMENTATION_STAGE=V2B1");
        reveal_strlit("\r\nSURVEY_ID=");
    }
    assert(a + both =~= a + "\r\nIMPLEMENTATION_STAGE=V2B1"@ + "\r\nSURVEY_ID="@);
    let end = "\r\nRX_PACKET_FORMAT=TELEMETRY_V1\r\n"@;
    assert(end =~= "\r\nRX_PACKET_FORMAT=TELEMETRY_V1"@ + "\r\n"@) by {
        reveal_strlit("\r\nRX_PACKET_FORMAT=TELEMETRY_V1\r\n");
        reveal_strlit("\r\nRX_PACKET_FORMAT=TELEMETRY_V1");
        reveal_strlit("\r\n");
    }
    let body = "LOG_SCHEMA="@ + decimal(LOG_SCHEMA_VERSION as nat) + both
        + hex_fixed(survey_id as nat, 8)
        + "\r\nSYSTEM_ID="@
        + hex_fixed(info.system_id.value as nat, 16)
        + "\r\nBOOT_SESSION="@
        + decimal(session as nat)
        + "\r\nSESSION_DIR="@
        + session_name(session as nat)
        + "\r\nFIRMWARE="@
        + info.firmware_version.value@
        + "\r\nRF_PROTOCOL="@
        + decimal(info.protocol_version.value as nat)
        + "\r\nCONFIG_SCHEMA="@
        + decimal(info.config_version.value as nat)
        + "\r\nSTART_MONO_MS="@
        + decimal(start_mono_ms as nat)
        + "\r\nTIME_MODEL=MONOTONIC_PLUS_GPS_UTC_ANCHOR"@
        + "\r\nLOCAL_SAMPLE_HZ=1"@;
    assert(body + end =~= body + "\r\nRX_PACKET_FORMAT=TELEMETRY_V1"@ + "\r\n"@);
}

/// The keys of the description of a session.
proof fn lemma_metadata_marks()
    ensures
        marks("\r\nIMPLEMENTATION_STAGE=V2B1"@, "\nIMPLEMENTATION_STAGE=V2B1"@, '\r'),
        marks("\r\nSURVEY_ID="@, "\nSURVEY_ID="@, '\r'),
        marks("\r\nSYSTEM_ID="@, "\nSYSTEM_ID="@, '\r'),
        marks("\r\nBOOT_SESSION="@, "\nBOOT_SESSION="@, '\r'),
        marks("\r\nSESSION_DIR="@, "\nSESSION_DIR="@, '\r'),
        marks("\r\nFIRMWARE="@, "\nFIRMWARE="@, '\r'),
        marks("\r\nRF_PROTOCOL="@, "\nRF_PROTOCOL="@, '\r'),
        marks("\r\nCONFIG_SCHEMA="@, "\nCONFIG_SCHEMA="@, '\r'),
        marks("\r\nSTART_MONO_MS="@, "\nSTART_MONO_MS="@, '\r'),
        marks(
            "\r\nTIME_MODEL=MONOTONIC_PLUS_GPS_UTC_ANCHOR"@,
            "\nTIME_MODEL=MONOTONIC_PLUS_GPS_UTC_ANCHOR"@,
            '\r',
        ),
        marks("\r\nLOCAL_SAMPLE_HZ=1"@, "\nLOCAL_SAMPLE_HZ=1"@, '\r'),
        marks("\r\nRX_PACKET_FORMAT=TELEMETRY_V1"@, "\nRX_PACKET_FORMAT=TELEMETRY_V1"@, '\r'),
        marks("\r\n"@, "\n"@, '\r'),
{
    assert(marks("\r\nIMPLEMENTATION_STAGE=V2B1"@, "\nIMPLEMENTATION_STAGE=V2B1"@, '\r')) by {
        reveal(marks);
        reveal(free_of);
        reveal_strlit("\r\nIMPLEMENTATION_STAGE=V2B1");
        reveal_strlit("\nIMPLEMENTATION_STAGE=V2B1");
        assert("\r\nIMPLEMENTATION_STAGE=V2B1"@ =~= seq!['\r'] + "\nIMPLEMENTATION_STAGE=V2B1"@);
    }
    assert(marks("\r\nSURVEY_ID="@, "\nSURVEY_ID="@, '\r')) by {
        reveal(marks);
        reveal(free_of);
        reveal_strlit("\r\nSURVEY_ID=");
        reveal_strlit("\nSURVEY_ID=");
        assert("\r\nSURVEY_ID="@ =~= seq!['\r'] + "\nSURVEY_ID="@);
    }
    assert(marks("\r\nSYSTEM_ID="@, "\nSYSTEM_ID="@, '\r')) by {
        reveal(marks);
        reveal(free_of);
        reveal_strlit("\r\nSYSTEM_ID=");
        reveal_strlit("\nSYSTEM_ID=");
        assert("\r\nSYSTEM_ID="@ =~= seq!['\r'] + "\nSYSTEM_ID="@);
    }
    assert(marks("\r\nBOOT_SESSION="@, "\nBOOT_SESSION="@, '\r')) by {
        reveal(marks);
        reveal(free_of);
        reveal_strlit("\r\nBOOT_SESSION=");
        reveal_strlit("\nBOOT_SESSION=");
        assert("\r\nBOOT_SESSION="@ =~= seq!['\r'] + "\nBOOT_SESSION="@);
    }
    assert(marks("\r\nSESSION_DIR="@, "\nSESSION_DIR="@, '\r')) by {
        reveal(marks);
        reveal(free_of);
        reveal_strlit("\r\nSESSION_DIR=");
        reveal_strlit("\nSESSION_DIR=");
        assert("\r\nSESSION_DIR="@ =~= seq!['\r'] + "\nSESSION_DIR="@);
    }
    assert(marks("\r\nFIRMWARE="@, "\nFIRMWARE="@, '\r')) by {
        reveal(marks);
        reveal(free_of);
        reveal_strlit("\r\nFIRMWARE=");
        reveal_strlit("\nFIRMWARE=");
        assert("\r\nFIRMWARE="@ =~= seq!['\r'] + "\nFIRMWARE="@);
    }
    assert(marks("\r\nRF_PROTOCOL="@, "\nRF_PROTOCOL="@, '\r')) by {
        reveal(marks);
        reveal(free_of);
        reveal_strlit("\r\nRF_PROTOCOL=");
        reveal_strlit("\nRF_PROTOCOL=");
        assert("\r\nRF_PROTOCOL="@ =~= seq!['\r'] + "\nRF_PROTOCOL="@);
    }
    assert(marks("\r\nCONFIG_SCHEMA="@, "\nCONFIG_SCHEMA="@, '\r')) by {
        reveal(marks);
        reveal(free_of);
        reveal_strlit("\r\nCONFIG_SCHEMA=");
        reveal_strlit("\nCONFIG_SCHEMA=");
        assert("\r\nCONFIG_SCHEMA="@ =~= seq!['\r'] + "\nCONFIG_SCHEMA="@);
    }
    assert(marks("\r\nSTART_MONO_MS="@, "\nSTART_MONO_MS="@, '\r')) by {
        reveal(marks);
        reveal(free_of);
        reveal_strlit("\r\nSTART_MONO_MS=");
        reveal_strlit("\nSTART_MONO_MS=");
        assert("\r\nSTART_MONO_MS="@ =~= seq!['\r'] + "\nSTART_MONO_MS="@);
    }
    assert(
        marks(
            "\r\nTIME_MODEL=MONOTONIC_PLUS_GPS_UTC_ANCHOR"@,
            "\nTIME_MODEL=MONOTONIC_PLUS_GPS_UTC_ANCHOR"@,
            '\r',
        )
    ) by {
        reveal(marks);
        reveal(free_of);
        reveal_strlit("\r\nTIME_MODEL=MONOTONIC_PLUS_GPS_UTC_ANCHOR");
        reveal_strlit("\nTIME_MODEL=MONOTONIC_PLUS_GPS_UTC_ANCHOR");
        assert(
            "\r\nTIME_MODEL=MONOTONIC_PLUS_GPS_UTC_ANCHOR"@ =~= seq![
                '\r'
            ] + "\nTIME_MODEL=MONOTONIC_PLUS_GPS_UTC_ANCHOR"@
        );
    }
    assert(marks("\r\nLOCAL_SAMPLE_HZ=1"@, "\nLOCAL_SAMPLE_HZ=1"@, '\r')) by {
        reveal(marks);
        reveal(free_of);
        reveal_strlit("\r\nLOCAL_SAMPLE_HZ=1");
        reveal_strlit("\nLOCAL_SAMPLE_HZ=1");
        assert("\r\nLOCAL_SAMPLE_HZ=1"@ =~= seq!['\r'] + "\nLOCAL_SAMPLE_HZ=1"@);
    }
    assert(
        marks("\r\nRX_PACKET_FORMAT=TELEMETRY_V1"@, "\nRX_PACKET_FORMAT=TELEMETRY_V1"@, '\r')
    ) by {
        reveal(marks);
        reveal(free_of);
        reveal_strlit("\r\nRX_PACKET_FORMAT=TELEMETRY_V1");
        reveal_strlit("\nRX_PACKET_FORMAT=TELEMETRY_V1");
        assert(
            "\r\nRX_PACKET_FORMAT=TELEMETRY_V1"@ =~= seq!['\r'] + "\nRX_PACKET_FORMAT=TELEMETRY_V1"@
        );
    }
    assert(marks("\r\n"@, "\n"@, '\r')) by {
        reveal(marks);
        reveal(free_of);
        reveal_strlit("\r\n");
        reveal_strlit("\n");
        assert("\r\n"@ =~= seq!['\r'] + "\n"@);
    }
}

/// The name of a session's directory is eight characters, a `B` and seven digits that read back as
/// the session's number.
pub proof fn law_session_names_read_back(session: nat)
    requires
        is_session(session as int),
    ensures
        session_name(session).len() == 8,
        session_name(session)[0] == 'B',
        read_nat(session_name(session).skip(1)) == Some(session as int),
{
    reveal_strlit("B");
    assert(pow10(7) == 10_000_000) by {
        reveal_with_fuel(pow10, 8);
    }
    law_fixed_reads_back(session, 7);
    assert(session_name(session).skip(1) =~= decimal_fixed(session, 7));
}

proof fn lemma_session_name_free(session: nat)
    requires
        is_session(session as int),
    ensures
        free_of(session_name(session), '\r'),
{
    reveal(free_of);
    law_session_names_read_back(session);
    let name = session_name(session);
    assert forall|i: int| 0 <= i < name.len() implies name[i] != '\r' by {
        if i > 0 {
            assert(is_digit_char(name.skip(1)[i - 1]));
            assert(name.skip(1)[i - 1] == name[i]);
        }
    }
}

} // verus!
