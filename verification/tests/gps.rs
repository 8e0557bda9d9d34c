use golfer::gps::{apply_gga, apply_rmc, GpsReceiver, GpsState, Heard};
use golfer::nmea::{
    parse_altitude_half_m, parse_coordinate_e7, parse_course_cdeg, parse_decimal_fixed_i32,
    parse_nmea_time_millis, parse_rmc_unix_ms, parse_speed_cm_s, parse_u8, round_div_signed,
};

const GGA: &str = "$GPGGA,123519,3451.5469,N,08220.1234,W,1,08,0.9,545.4,M,46.9,M,,*47";
const RMC: &str = "$GNRMC,123519.250,A,3451.5469,N,08220.1234,W,022.4,084.4,230325,003.1,W*6A";

#[test]
fn gga_sets_position_and_quality() {
    let mut state = GpsState::offline();
    assert!(apply_gga(GGA, &mut state));
    assert!(state.online);
    assert!(state.fix);
    assert_eq!(state.latitude_e7, Some(348_591_150));
    assert_eq!(state.longitude_e7, Some(-823_353_900));
    assert_eq!(state.satellites, Some(8));
    assert_eq!(state.hdop_tenths, Some(9));
    assert_eq!(state.altitude_half_m, Some(1091));
    assert_eq!(state.utc_unix_ms, None);
}

#[test]
fn rmc_sets_time_speed_and_course() {
    let mut state = GpsState::offline();
    assert!(!apply_gga(RMC, &mut state));
    assert_eq!(state, GpsState::offline());
    assert!(apply_rmc(RMC, &mut state));
    assert_eq!(state.utc_unix_ms, Some(1_742_733_319_250));
    assert_eq!(state.speed_cm_s, Some(1_152));
    assert_eq!(state.course_cdeg, Some(8_440));
    assert_eq!(state.latitude_e7, Some(348_591_150));
    assert_eq!(state.satellites, None);
}

#[test]
fn a_lost_fix_takes_the_position_and_keeps_the_time() {
    let mut state = GpsState::offline();
    apply_rmc(RMC, &mut state);
    apply_gga(GGA, &mut state);
    assert!(apply_rmc("$GPRMC,123520.000,V,,,,,,,230325,,,N*4A", &mut state));
    assert!(!state.fix);
    assert_eq!(state.latitude_e7, None);
    assert_eq!(state.longitude_e7, None);
    assert_eq!(state.speed_cm_s, None);
    assert_eq!(state.course_cdeg, None);
    assert_eq!(state.utc_unix_ms, Some(1_742_733_320_000));
    assert_eq!(state.satellites, Some(8));
    apply_gga(GGA, &mut state);
    assert!(apply_gga("$GPGGA,,,,,,0", &mut state));
    assert!(!state.fix);
    assert_eq!(state.latitude_e7, None);
    assert_eq!(state.satellites, None);
    assert_eq!(state.utc_unix_ms, Some(1_742_733_320_000));
}

#[test]
fn an_unreadable_position_keeps_the_one_before() {
    let mut state = GpsState::offline();
    apply_gga(GGA, &mut state);
    assert!(apply_gga("$GPGGA,123519,9999.0,N,08220.1234,W,1,07,1.0,1.0", &mut state));
    assert!(state.fix);
    assert_eq!(state.latitude_e7, Some(348_591_150));
    assert_eq!(state.satellites, Some(7));
    assert_eq!(state.altitude_half_m, Some(2));
}

#[test]
fn small_numbers() {
    assert_eq!(parse_u8(b"0"), Some(0));
    assert_eq!(parse_u8(b"+12"), Some(12));
    assert_eq!(parse_u8(b"00255"), Some(255));
    assert_eq!(parse_u8(b"256"), None);
    assert_eq!(parse_u8(b""), None);
    assert_eq!(parse_u8(b"+"), None);
    assert_eq!(parse_u8(b"-1"), None);
}

#[test]
fn fixed_point_numbers() {
    assert_eq!(parse_decimal_fixed_i32(b"12.345", 2), Some(1_234));
    assert_eq!(parse_decimal_fixed_i32(b"-12.3", 2), Some(-1_230));
    assert_eq!(parse_decimal_fixed_i32(b"+.5", 1), Some(5));
    assert_eq!(parse_decimal_fixed_i32(b".", 3), Some(0));
    assert_eq!(parse_decimal_fixed_i32(b"7", 0), Some(7));
    assert_eq!(parse_decimal_fixed_i32(b"2147483647", 0), Some(i32::MAX));
    assert_eq!(parse_decimal_fixed_i32(b"2147483648", 0), None);
    assert_eq!(parse_decimal_fixed_i32(b"1.2x", 1), None);
    assert_eq!(parse_decimal_fixed_i32(b"-", 1), None);
    assert_eq!(parse_decimal_fixed_i32(b"", 1), None);
    assert_eq!(parse_decimal_fixed_i32(b"1", 10), None);
}

#[test]
fn rounding_goes_to_the_nearest() {
    assert_eq!(round_div_signed(12, 5), Some(2));
    assert_eq!(round_div_signed(13, 5), Some(3));
    assert_eq!(round_div_signed(-12, 5), Some(-2));
    assert_eq!(round_div_signed(-13, 5), Some(-3));
    assert_eq!(round_div_signed(3, 2), Some(2));
    assert_eq!(round_div_signed(-3, 2), Some(-2));
    assert_eq!(round_div_signed(1, 0), None);
    assert_eq!(round_div_signed(1, -5), None);
    assert_eq!(round_div_signed(i32::MAX, 5), None);
    assert_eq!(round_div_signed(i32::MIN, 5), None);
    assert_eq!(round_div_signed(i32::MIN, 1), Some(i32::MIN));
}

#[test]
fn altitude_speed_and_course() {
    assert_eq!(parse_altitude_half_m(b"545.4"), Some(1_091));
    assert_eq!(parse_altitude_half_m(b"-1.2"), Some(-2));
    assert_eq!(parse_altitude_half_m(b"16384.0"), None);
    assert_eq!(parse_speed_cm_s(b"1"), Some(51));
    assert_eq!(parse_speed_cm_s(b"-1"), None);
    assert_eq!(parse_speed_cm_s(b"1300"), None);
    assert_eq!(parse_course_cdeg(b"359.99"), Some(35_999));
    assert_eq!(parse_course_cdeg(b"360.00"), None);
    assert_eq!(parse_course_cdeg(b"-0.01"), None);
}

#[test]
fn dates_and_times() {
    assert_eq!(parse_rmc_unix_ms(b"010124", b"000000"), Some(1_704_067_200_000));
    assert_eq!(parse_rmc_unix_ms(b"290224", b"235959.999"), Some(1_709_251_199_999));
    assert_eq!(parse_rmc_unix_ms(b"311279", b"235959.999"), Some(3_471_292_799_999));
    assert_eq!(parse_rmc_unix_ms(b"290225", b"000000"), None);
    assert_eq!(parse_rmc_unix_ms(b"060180", b"000000"), None);
    assert_eq!(parse_rmc_unix_ms(b"311223", b"000000"), None);
    assert_eq!(parse_rmc_unix_ms(b"010124", b"240000"), None);
    assert_eq!(parse_rmc_unix_ms(b"010124", b"006000"), None);
    assert_eq!(parse_rmc_unix_ms(b"010124", b"000060"), None);
    assert_eq!(parse_rmc_unix_ms(b"01012", b"000000"), None);
    assert_eq!(parse_rmc_unix_ms(b"010124", b"00000"), None);
    assert_eq!(parse_nmea_time_millis(b"123456"), Some(0));
    assert_eq!(parse_nmea_time_millis(b"123456.2"), Some(200));
    assert_eq!(parse_nmea_time_millis(b"123456.20499"), Some(204));
    assert_eq!(parse_nmea_time_millis(b"123456.2z"), None);
}

#[test]
fn coordinates() {
    assert_eq!(parse_coordinate_e7(b"3451.5469", b"N"), Some(348_591_150));
    assert_eq!(parse_coordinate_e7(b"3451.5469", b"S"), Some(-348_591_150));
    assert_eq!(parse_coordinate_e7(b"9000.0", b"N"), Some(900_000_000));
    assert_eq!(parse_coordinate_e7(b"9000.0000001", b"N"), None);
    assert_eq!(parse_coordinate_e7(b"18000", b"W"), Some(-1_800_000_000));
    assert_eq!(parse_coordinate_e7(b"18100", b"W"), None);
    assert_eq!(parse_coordinate_e7(b"3460.0", b"N"), None);
    assert_eq!(parse_coordinate_e7(b"51.5", b"N"), None);
    assert_eq!(parse_coordinate_e7(b"3451.5469", b"X"), None);
    assert_eq!(parse_coordinate_e7(b"3451.5469", b""), None);
}

#[test]
fn bytes_become_lines() {
    let mut receiver = GpsReceiver::new();
    let mut expected = GpsState::offline();
    apply_gga(GGA, &mut expected);
    for &byte in GGA.as_bytes() {
        assert_eq!(receiver.accept(byte), Heard::Nothing);
    }
    assert_eq!(receiver.line.text(), GGA);
    assert_eq!(receiver.accept(b'\r'), Heard::Nothing);
    assert_eq!(receiver.accept(b'\n'), Heard::Line(Some(expected)));
    assert_eq!(receiver.state, expected);
    assert!(receiver.line.is_empty());
    assert_eq!(receiver.accept(b'\n'), Heard::Nothing);
    assert_eq!(receiver.accept(0xC3), Heard::NotAscii);
    assert_eq!(receiver.accept(b'x'), Heard::Nothing);
    assert_eq!(receiver.accept(b'\n'), Heard::Line(None));
}

#[test]
fn a_line_that_is_too_long_is_dropped() {
    let mut receiver = GpsReceiver::new();
    for _ in 0..160 {
        assert_eq!(receiver.accept(b'a'), Heard::Nothing);
    }
    assert_eq!(receiver.accept(b'b'), Heard::Overflow);
    assert!(receiver.line.is_empty());
}
