use golfer::crc::crc32_ieee;
use golfer::golden::{golden_self_test, GOLDEN_TELEMETRY_V1};
use golfer::packet::{crc32_details, DecodeError, EncodeError, GpsFixClass, TelemetryV1};

fn golden() -> TelemetryV1 {
    TelemetryV1 {
        sender_mode: 1,
        sender_system_id: 0x1122_3344_5566_7788,
        survey_id: 0xA000_0042,
        sequence: 0x0012_3456,
        gps_unix_time: Some(0x6901_0203),
        latitude_e7: Some(348_635_050),
        longitude_e7: Some(-821_152_300),
        altitude_half_m: Some(247),
        speed_cm_s: Some(1_234),
        course_cdeg: Some(27_123),
        gps_fix_class: GpsFixClass::Standard,
        satellites: 10,
        hdop_tenths: Some(13),
        temperature_centi_c: Some(2_534),
        pressure_10pa: Some(10_132),
        humidity_half_percent: Some(93),
        battery_soc_percent: Some(72),
    }
}

fn unknown() -> TelemetryV1 {
    TelemetryV1 {
        sender_mode: 0,
        sender_system_id: 0,
        survey_id: 0,
        sequence: 0,
        gps_unix_time: None,
        latitude_e7: None,
        longitude_e7: None,
        altitude_half_m: None,
        speed_cm_s: None,
        course_cdeg: None,
        gps_fix_class: GpsFixClass::NoFix,
        satellites: 0,
        hdop_tenths: None,
        temperature_centi_c: None,
        pressure_10pa: None,
        humidity_half_percent: None,
        battery_soc_percent: None,
    }
}

fn sealed(mut bytes: [u8; 48]) -> [u8; 48] {
    let crc = crc32_ieee(&bytes[..44]);
    bytes[44..].copy_from_slice(&crc.to_le_bytes());
    bytes
}

#[test]
fn checksum_of_the_usual_digits() {
    assert_eq!(crc32_ieee(b"123456789"), 0xCBF4_3926);
    assert_eq!(crc32_ieee(b""), 0);
}

#[test]
fn golden_vector() {
    assert!(golden_self_test());
    assert_eq!(golden().encode(), Ok(GOLDEN_TELEMETRY_V1));
    assert_eq!(TelemetryV1::decode(&GOLDEN_TELEMETRY_V1), Ok(golden()));
}

#[test]
fn unknown_values_travel_as_sentinels() {
    let bytes = unknown().encode().unwrap();
    assert_eq!(&bytes[18..22], &[0xFF; 4]);
    assert_eq!(&bytes[22..26], &[0, 0, 0, 0x80]);
    assert_eq!(&bytes[30..32], &[0, 0x80]);
    assert_eq!(&bytes[32..36], &[0xFF; 4]);
    assert_eq!(TelemetryV1::decode(&bytes), Ok(unknown()));
}

#[test]
fn every_changed_byte_is_noticed() {
    for at in 0..48 {
        let mut bytes = GOLDEN_TELEMETRY_V1;
        bytes[at] ^= 0x20;
        assert!(TelemetryV1::decode(&bytes).is_err());
    }
    let mut bytes = GOLDEN_TELEMETRY_V1;
    bytes[20] ^= 1;
    assert_eq!(TelemetryV1::decode(&bytes), Err(DecodeError::CrcMismatch));
    let (stored, computed) = crc32_details(&bytes).unwrap();
    assert_eq!(stored, 0x981F_210A);
    assert_ne!(stored, computed);
    assert_eq!(crc32_details(&bytes[..47]), None);
}

#[test]
fn decoding_refuses() {
    assert_eq!(TelemetryV1::decode(&GOLDEN_TELEMETRY_V1[..47]), Err(DecodeError::WrongLength));
    let mut bytes = GOLDEN_TELEMETRY_V1;
    bytes[0] = b'X';
    assert_eq!(TelemetryV1::decode(&bytes), Err(DecodeError::BadMarker));
    bytes = GOLDEN_TELEMETRY_V1;
    bytes[1] = 2;
    assert_eq!(TelemetryV1::decode(&bytes), Err(DecodeError::UnsupportedVersion));
    bytes = GOLDEN_TELEMETRY_V1;
    bytes[2] = 0x21;
    assert_eq!(TelemetryV1::decode(&bytes), Err(DecodeError::UnsupportedPacketType));
    bytes = GOLDEN_TELEMETRY_V1;
    bytes[42] = 201;
    assert_eq!(TelemetryV1::decode(&sealed(bytes)), Err(DecodeError::InvalidField));
    assert_eq!(DecodeError::CrcMismatch.label(), "CRC_MISMATCH");
}

#[test]
fn encoding_refuses() {
    let cases = [
        (TelemetryV1 { sender_mode: 16, ..golden() }, EncodeError::SenderModeOutOfRange),
        (TelemetryV1 { sequence: 0x0100_0000, ..golden() }, EncodeError::SequenceOutOfRange),
        (
            TelemetryV1 { gps_unix_time: Some(u32::MAX), ..golden() },
            EncodeError::GpsTimeUsesReservedSentinel,
        ),
        (
            TelemetryV1 { latitude_e7: Some(900_000_001), ..golden() },
            EncodeError::LatitudeOutOfRange,
        ),
        (
            TelemetryV1 { longitude_e7: Some(-1_800_000_001), ..golden() },
            EncodeError::LongitudeOutOfRange,
        ),
        (
            TelemetryV1 { altitude_half_m: Some(i16::MIN), ..golden() },
            EncodeError::AltitudeUsesReservedSentinel,
        ),
        (
            TelemetryV1 { speed_cm_s: Some(u16::MAX), ..golden() },
            EncodeError::SpeedUsesReservedSentinel,
        ),
        (TelemetryV1 { course_cdeg: Some(36_000), ..golden() }, EncodeError::CourseOutOfRange),
        (TelemetryV1 { satellites: 64, ..golden() }, EncodeError::TooManySatellites),
        (TelemetryV1 { hdop_tenths: Some(255), ..golden() }, EncodeError::HdopUsesReservedSentinel),
        (
            TelemetryV1 { temperature_centi_c: Some(i16::MIN), ..golden() },
            EncodeError::TemperatureUsesReservedSentinel,
        ),
        (
            TelemetryV1 { pressure_10pa: Some(u16::MAX), ..golden() },
            EncodeError::PressureUsesReservedSentinel,
        ),
        (
            TelemetryV1 { humidity_half_percent: Some(201), ..golden() },
            EncodeError::HumidityOutOfRange,
        ),
        (
            TelemetryV1 { battery_soc_percent: Some(101), ..golden() },
            EncodeError::BatterySocOutOfRange,
        ),
    ];
    for (packet, error) in cases {
        assert_eq!(packet.validate(), Err(error));
        assert_eq!(packet.encode(), Err(error));
    }
}

#[test]
fn fix_classes() {
    for bits in 0..4 {
        assert_eq!(GpsFixClass::from_bits(bits).bits(), bits);
    }
}

#[test]
fn bursts_are_noticed() {
    let message = b"123456789";
    for at in 0..message.len() {
        for pattern in [[1u8, 0, 0, 0x80], [0xFF, 0xFF, 0xFF, 0xFF], [0, 0x20, 0x83, 0xB8]] {
            let mut changed = *message;
            for (byte, bits) in changed[at..].iter_mut().zip(pattern) {
                *byte ^= bits;
            }
            if changed != *message {
                assert_ne!(crc32_ieee(&changed), crc32_ieee(message));
            }
        }
    }
    // Across the border between the fields and the checksum.
    for at in 3..=44 {
        let mut bytes = GOLDEN_TELEMETRY_V1;
        for byte in &mut bytes[at..at + 4] {
            *byte ^= 0x5A;
        }
        assert_eq!(TelemetryV1::decode(&bytes), Err(DecodeError::CrcMismatch));
    }
}
