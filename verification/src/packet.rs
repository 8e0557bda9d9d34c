//! The native RF packet, version 1: a fixed-width 48-byte telemetry record.
//!
//! Bytes are written one by one, multi-byte integers are little-endian, and a value that the
//! sender does not know travels as a sentinel and is `None` everywhere else.
use vstd::prelude::*;
use vstd::slice::slice_subrange;

use crate::crc::{
    crc32, crc32_ieee, crc32_register, crc32_turn, crc32_word, law_crc32_detects_bursts,
    lemma_four_bytes, lemma_register_of_four,
};
use crate::le::{
    law_le_bytes_of_value, law_le_value_of_bytes, le_bytes, le_limit, le_value, lemma_le_bytes_len,
    overwrite, pattern_i16, pattern_i32, pattern_of_i16, pattern_of_i32, put_u16_le, put_u24_le,
    put_u32_le, put_u64_le, read_i16_le, read_i32_le, read_u16_le, read_u32_le, read_u64_le,
    signed_16, signed_32,
};

verus! {

pub const TELEMETRY_V1_LEN: usize = 48;

pub const TELEMETRY_V1_CRC_OFFSET: usize = 44;

/// The letter `G`.
pub const PROTOCOL_MARKER: u8 = 0x47;

pub const PROTOCOL_VERSION: u8 = 1;

pub const PACKET_TYPE_TELEMETRY: u8 = 1;

pub const MAX_SEQUENCE: u32 = 0x00FF_FFFF;

pub const UNKNOWN_U32: u32 = 0xFFFF_FFFF;

pub const UNKNOWN_I32: i32 = -2_147_483_648;

pub const UNKNOWN_U16: u16 = 0xFFFF;

pub const UNKNOWN_I16: i16 = -32_768;

pub const UNKNOWN_U8: u8 = 0xFF;

pub const MAX_LATITUDE_E7: i32 = 900_000_000;

pub const MAX_LONGITUDE_E7: i32 = 1_800_000_000;

pub const MAX_COURSE_CDEG: u16 = 35_999;

pub const MAX_HUMIDITY_HALF_PERCENT: u8 = 200;

pub const MAX_BATTERY_SOC_PERCENT: u8 = 100;

pub const MAX_SATELLITES: u8 = 63;

#[derive(Clone, Copy, Debug, PartialEq, Eq, Structural)]
pub enum GpsFixClass {
    NoFix,
    Standard,
    Differential,
    EnhancedOrOther,
}

impl GpsFixClass {
    /// The two-bit code of the class.
    pub open spec fn code(self) -> nat {
        match self {
            GpsFixClass::NoFix => 0,
            GpsFixClass::Standard => 1,
            GpsFixClass::Differential => 2,
            GpsFixClass::EnhancedOrOther => 3,
        }
    }

    /// The class that has the code `code`.
    pub open spec fn of_code(code: nat) -> GpsFixClass {
        if code == 0 {
            GpsFixClass::NoFix
        } else if code == 1 {
            GpsFixClass::Standard
        } else if code == 2 {
            GpsFixClass::Differential
        } else {
            GpsFixClass::EnhancedOrOther
        }
    }

    /// The two-bit code of the class.
    pub fn bits(self) -> (bits: u8)
        ensures
            bits == self.code(),
            bits < 4,
    {
        match self {
            GpsFixClass::NoFix => 0,
            GpsFixClass::Standard => 1,
            GpsFixClass::Differential => 2,
            GpsFixClass::EnhancedOrOther => 3,
        }
    }

    /// The class that the two low bits name.
    pub fn from_bits(bits: u8) -> (class: Self)
        ensures
            class == GpsFixClass::of_code((bits % 4) as nat),
    {
        let low: u8 = bits % 4;
        if low == 0 {
            GpsFixClass::NoFix
        } else if low == 1 {
            GpsFixClass::Standard
        } else if low == 2 {
            GpsFixClass::Differential
        } else {
            GpsFixClass::EnhancedOrOther
        }
    }
}

/// Native telemetry packet, version 1.
///
/// On-air layout:
///
///   00      protocol marker ('G')
///   01      protocol version (1)
///   02      packet type [7:4] | sender mode [3:0]
///   03..10  sender System ID, u64 LE
///   11..14  Survey ID, u32 LE
///   15..17  sequence, unsigned 24-bit LE
///   18..21  GPS UTC as Unix seconds, u32 LE
///   22..25  latitude, signed degrees * 1e7, i32 LE
///   26..29  longitude, signed degrees * 1e7, i32 LE
///   30..31  GPS altitude, signed 0.5 m units, i16 LE
///   32..33  GPS speed over ground, cm/s, u16 LE
///   34..35  GPS course over ground, degrees * 100, u16 LE
///   36      GPS fix class [7:6] | satellites [5:0]
///   37      HDOP * 10, u8
///   38..39  temperature, degrees C * 100, i16 LE
///   40..41  pressure, 10 Pa units, u16 LE
///   42      humidity, 0.5 %RH units, u8
///   43      battery state of charge, percent, u8
///   44..47  CRC-32/IEEE over bytes 0..43, u32 LE
#[derive(Clone, Copy, Debug, PartialEq, Eq, Structural)]
pub struct TelemetryV1 {
    pub sender_mode: u8,
    pub sender_system_id: u64,
    pub survey_id: u32,
    pub sequence: u32,
    pub gps_unix_time: Option<u32>,
    pub latitude_e7: Option<i32>,
    pub longitude_e7: Option<i32>,
    pub altitude_half_m: Option<i16>,
    pub speed_cm_s: Option<u16>,
    pub course_cdeg: Option<u16>,
    pub gps_fix_class: GpsFixClass,
    pub satellites: u8,
    pub hdop_tenths: Option<u8>,
    pub temperature_centi_c: Option<i16>,
    pub pressure_10pa: Option<u16>,
    pub humidity_half_percent: Option<u8>,
    pub battery_soc_percent: Option<u8>,
}

#[derive(Clone, Copy, Debug, PartialEq, Eq, Structural)]
pub enum EncodeError {
    SenderModeOutOfRange,
    SequenceOutOfRange,
    LatitudeOutOfRange,
    LongitudeOutOfRange,
    AltitudeUsesReservedSentinel,
    SpeedUsesReservedSentinel,
    CourseOutOfRange,
    TooManySatellites,
    HdopUsesReservedSentinel,
    TemperatureUsesReservedSentinel,
    PressureUsesReservedSentinel,
    HumidityOutOfRange,
    BatterySocOutOfRange,
    GpsTimeUsesReservedSentinel,
}

#[derive(Clone, Copy, Debug, PartialEq, Eq, Structural)]
pub enum DecodeError {
    WrongLength,
    BadMarker,
    UnsupportedVersion,
    UnsupportedPacketType,
    CrcMismatch,
    InvalidField,
}

impl DecodeError {
    /// The error's name in logs.
    pub open spec fn spec_label(self) -> &'static str {
        match self {
            DecodeError::WrongLength => "WRONG_LENGTH",
            DecodeError::BadMarker => "BAD_MARKER",
            DecodeError::UnsupportedVersion => "UNSUPPORTED_VERSION",
            DecodeError::UnsupportedPacketType => "UNSUPPORTED_PACKET_TYPE",
            DecodeError::CrcMismatch => "CRC_MISMATCH",
            DecodeError::InvalidField => "INVALID_FIELD",
        }
    }

    pub fn label(self) -> (label: &'static str)
        ensures
            label@ == self.spec_label()@,
    {
        match self {
            DecodeError::WrongLength => "WRONG_LENGTH",
            DecodeError::BadMarker => "BAD_MARKER",
            DecodeError::UnsupportedVersion => "UNSUPPORTED_VERSION",
            DecodeError::UnsupportedPacketType => "UNSUPPORTED_PACKET_TYPE",
            DecodeError::CrcMismatch => "CRC_MISMATCH",
            DecodeError::InvalidField => "INVALID_FIELD",
        }
    }
}

/// What is wrong with a packet's fields: the first of the rules that it breaks, if any.
pub open spec fn first_fault(p: TelemetryV1) -> Option<EncodeError> {
    if p.sender_mode > 0x0F {
        Some(EncodeError::SenderModeOutOfRange)
    } else if p.sequence > MAX_SEQUENCE {
        Some(EncodeError::SequenceOutOfRange)
    } else if p.gps_unix_time == Some(UNKNOWN_U32) {
        Some(EncodeError::GpsTimeUsesReservedSentinel)
    } else if p.latitude_e7 is Some && !(-MAX_LATITUDE_E7 <= p.latitude_e7->0 <= MAX_LATITUDE_E7) {
        Some(EncodeError::LatitudeOutOfRange)
    } else if p.longitude_e7 is Some && !(-MAX_LONGITUDE_E7 <= p.longitude_e7->0
        <= MAX_LONGITUDE_E7) {
        Some(EncodeError::LongitudeOutOfRange)
    } else if p.altitude_half_m == Some(UNKNOWN_I16) {
        Some(EncodeError::AltitudeUsesReservedSentinel)
    } else if p.speed_cm_s == Some(UNKNOWN_U16) {
        Some(EncodeError::SpeedUsesReservedSentinel)
    } else if p.course_cdeg is Some && p.course_cdeg->0 > MAX_COURSE_CDEG {
        Some(EncodeError::CourseOutOfRange)
    } else if p.satellites > MAX_SATELLITES {
        Some(EncodeError::TooManySatellites)
    } else if p.hdop_tenths == Some(UNKNOWN_U8) {
        Some(EncodeError::HdopUsesReservedSentinel)
    } else if p.temperature_centi_c == Some(UNKNOWN_I16) {
        Some(EncodeError::TemperatureUsesReservedSentinel)
    } else if p.pressure_10pa == Some(UNKNOWN_U16) {
        Some(EncodeError::PressureUsesReservedSentinel)
    } else if p.humidity_half_percent is Some && p.humidity_half_percent->0
        > MAX_HUMIDITY_HALF_PERCENT {
        Some(EncodeError::HumidityOutOfRange)
    } else if p.battery_soc_percent is Some && p.battery_soc_percent->0 > MAX_BATTERY_SOC_PERCENT {
        Some(EncodeError::BatterySocOutOfRange)
    } else {
        None
    }
}

/// The on-air number of an optional field.
pub open spec fn on_air_u8(value: Option<u8>) -> u8 {
    match value {
        Some(v) => v,
        None => UNKNOWN_U8,
    }
}

pub open spec fn on_air_u16(value: Option<u16>) -> nat {
    match value {
        Some(v) => v as nat,
        None => UNKNOWN_U16 as nat,
    }
}

pub open spec fn on_air_i16(value: Option<i16>) -> nat {
    match value {
        Some(v) => pattern_i16(v as int),
        None => pattern_i16(UNKNOWN_I16 as int),
    }
}

pub open spec fn on_air_u32(value: Option<u32>) -> nat {
    match value {
        Some(v) => v as nat,
        None => UNKNOWN_U32 as nat,
    }
}

pub open spec fn on_air_i32(value: Option<i32>) -> nat {
    match value {
        Some(v) => pattern_i32(v as int),
        None => pattern_i32(UNKNOWN_I32 as int),
    }
}

/// Bytes 0 to 43 of a packet: everything but the checksum.
pub open spec fn telemetry_body(p: TelemetryV1) -> Seq<u8> {
    seq![PROTOCOL_MARKER, PROTOCOL_VERSION, (16 * PACKET_TYPE_TELEMETRY + p.sender_mode) as u8]
        + le_bytes(p.sender_system_id as nat, 8) + le_bytes(p.survey_id as nat, 4) + le_bytes(
        p.sequence as nat,
        3,
    ) + le_bytes(on_air_u32(p.gps_unix_time), 4) + le_bytes(on_air_i32(p.latitude_e7), 4)
        + le_bytes(on_air_i32(p.longitude_e7), 4) + le_bytes(on_air_i16(p.altitude_half_m), 2)
        + le_bytes(on_air_u16(p.speed_cm_s), 2) + le_bytes(on_air_u16(p.course_cdeg), 2) + seq![
        (64 * p.gps_fix_class.code() + p.satellites) as u8,
        on_air_u8(p.hdop_tenths),
    ] + le_bytes(on_air_i16(p.temperature_centi_c), 2) + le_bytes(on_air_u16(p.pressure_10pa), 2)
        + seq![on_air_u8(p.humidity_half_percent), on_air_u8(p.battery_soc_percent)]
}

/// The 48 bytes of a packet.
pub open spec fn telemetry_bytes(p: TelemetryV1) -> Seq<u8> {
    telemetry_body(p) + le_bytes(crc32(telemetry_body(p)) as nat, 4)
}

/// The value of an optional field, read off the air.
pub open spec fn known_u8(value: u8) -> Option<u8> {
    if value == UNKNOWN_U8 {
        None
    } else {
        Some(value)
    }
}

pub open spec fn known_u16(value: nat) -> Option<u16> {
    if value == UNKNOWN_U16 {
        None
    } else {
        Some(value as u16)
    }
}

pub open spec fn known_i16(value: int) -> Option<i16> {
    if value == UNKNOWN_I16 {
        None
    } else {
        Some(value as i16)
    }
}

pub open spec fn known_u32(value: nat) -> Option<u32> {
    if value == UNKNOWN_U32 {
        None
    } else {
        Some(value as u32)
    }
}

pub open spec fn known_i32(value: int) -> Option<i32> {
    if value == UNKNOWN_I32 {
        None
    } else {
        Some(value as i32)
    }
}

/// The fields that 48 bytes spell, whatever they are worth.
pub open spec fn telemetry_fields(b: Seq<u8>) -> TelemetryV1 {
    TelemetryV1 {
        sender_mode: b[2] % 16,
        sender_system_id: le_value(b.subrange(3, 11)) as u64,
        survey_id: le_value(b.subrange(11, 15)) as u32,
        sequence: le_value(b.subrange(15, 18)) as u32,
        gps_unix_time: known_u32(le_value(b.subrange(18, 22))),
        latitude_e7: known_i32(signed_32(le_value(b.subrange(22, 26)))),
        longitude_e7: known_i32(signed_32(le_value(b.subrange(26, 30)))),
        altitude_half_m: known_i16(signed_16(le_value(b.subrange(30, 32)))),
        speed_cm_s: known_u16(le_value(b.subrange(32, 34))),
        course_cdeg: known_u16(le_value(b.subrange(34, 36))),
        gps_fix_class: GpsFixClass::of_code((b[36] / 64) as nat),
        satellites: b[36] % 64,
        hdop_tenths: known_u8(b[37]),
        temperature_centi_c: known_i16(signed_16(le_value(b.subrange(38, 40)))),
        pressure_10pa: known_u16(le_value(b.subrange(40, 42))),
        humidity_half_percent: known_u8(b[42]),
        battery_soc_percent: known_u8(b[43]),
    }
}

/// What a received frame means.
pub open spec fn telemetry_of(b: Seq<u8>) -> Result<TelemetryV1, DecodeError> {
    if b.len() != TELEMETRY_V1_LEN {
        Err(DecodeError::WrongLength)
    } else if b[0] != PROTOCOL_MARKER {
        Err(DecodeError::BadMarker)
    } else if b[1] != PROTOCOL_VERSION {
        Err(DecodeError::UnsupportedVersion)
    } else if b[2] / 16 != PACKET_TYPE_TELEMETRY {
        Err(DecodeError::UnsupportedPacketType)
    } else if le_value(b.subrange(44, 48)) != crc32(b.take(44)) {
        Err(DecodeError::CrcMismatch)
    } else if first_fault(telemetry_fields(b)) is Some {
        Err(DecodeError::InvalidField)
    } else {
        Ok(telemetry_fields(b))
    }
}

fn decode_optional_u8(value: u8) -> (known: Option<u8>)
    ensures
        known == known_u8(value),
{
    if value != UNKNOWN_U8 {
        Some(value)
    } else {
        None
    }
}

fn decode_optional_u16(value: u16) -> (known: Option<u16>)
    ensures
        known == known_u16(value as nat),
{
    if value != UNKNOWN_U16 {
        Some(value)
    } else {
        None
    }
}

fn decode_optional_i16(value: i16) -> (known: Option<i16>)
    ensures
        known == known_i16(value as int),
{
    if value != UNKNOWN_I16 {
        Some(value)
    } else {
        None
    }
}

fn decode_optional_u32(value: u32) -> (known: Option<u32>)
    ensures
        known == known_u32(value as nat),
{
    if value != UNKNOWN_U32 {
        Some(value)
    } else {
        None
    }
}

fn decode_optional_i32(value: i32) -> (known: Option<i32>)
    ensures
        known == known_i32(value as int),
{
    if value != UNKNOWN_I32 {
        Some(value)
    } else {
        None
    }
}

proof fn lemma_put(before: Seq<u8>, at: int, piece: Seq<u8>)
    requires
        0 <= at,
        at + piece.len() <= before.len(),
    ensures
        overwrite(before, at, piece).take(at + piece.len()) == before.take(at) + piece,
        overwrite(before, at, piece).len() == before.len(),
{
    assert(overwrite(before, at, piece).take(at + piece.len()) =~= before.take(at) + piece);
}

/// The checksum that a frame carries and the one that its bytes have; `None` for a frame of
/// another length.
pub fn crc32_details(bytes: &[u8]) -> (details: Option<(u32, u32)>)
    ensures
        details is Some <==> bytes@.len() == TELEMETRY_V1_LEN,
        details matches Some((stored, computed)) ==> {
            &&& stored == le_value(bytes@.subrange(44, 48))
            &&& computed == crc32(bytes@.take(44))
        },
{
    if bytes.len() != TELEMETRY_V1_LEN {
        return None;
    }
    let stored: u32 = read_u32_le(slice_subrange(bytes, 44, 48));
    let computed: u32 = crc32_ieee(slice_subrange(bytes, 0, 44));
    proof {
        assert(bytes@.subrange(44, 48).take(4) =~= bytes@.subrange(44, 48));
        assert(bytes@.subrange(0, 44) =~= bytes@.take(44));
    }
    Some((stored, computed))
}

impl TelemetryV1 {
    /// The packet's bytes, or the first rule that its fields break.
    pub fn encode(&self) -> (result: Result<[u8; TELEMETRY_V1_LEN], EncodeError>)
        ensures
            match result {
                Ok(bytes) => first_fault(*self) is None && bytes@ == telemetry_bytes(*self),
                Err(error) => first_fault(*self) == Some(error),
            },
    {
        match self.validate() {
            Err(error) => return Err(error),
            Ok(_) => {},
        }
        let mut out: [u8; 48] = [0u8; 48];
        proof {
            lemma_le_bytes_len(self.sender_system_id as nat, 8);
            lemma_le_bytes_len(self.survey_id as nat, 4);
            lemma_le_bytes_len(self.sequence as nat, 3);
            lemma_le_bytes_len(on_air_u32(self.gps_unix_time), 4);
            lemma_le_bytes_len(on_air_i32(self.latitude_e7), 4);
            lemma_le_bytes_len(on_air_i32(self.longitude_e7), 4);
            lemma_le_bytes_len(on_air_i16(self.altitude_half_m), 2);
            lemma_le_bytes_len(on_air_u16(self.speed_cm_s), 2);
            lemma_le_bytes_len(on_air_u16(self.course_cdeg), 2);
            lemma_le_bytes_len(on_air_i16(self.temperature_centi_c), 2);
            lemma_le_bytes_len(on_air_u16(self.pressure_10pa), 2);
        }
        out[0] = PROTOCOL_MARKER;
        out[1] = PROTOCOL_VERSION;
        out[2] = 16 * PACKET_TYPE_TELEMETRY + self.sender_mode;
        assert(out@.take(3) =~= seq![
            PROTOCOL_MARKER,
            PROTOCOL_VERSION,
            (16 * PACKET_TYPE_TELEMETRY + self.sender_mode) as u8,
        ]);
        proof {
            lemma_put(out@, 3, le_bytes(self.sender_system_id as nat, 8));
        }
        put_u64_le(&mut out, 3, self.sender_system_id);
        proof {
            lemma_put(out@, 11, le_bytes(self.survey_id as nat, 4));
        }
        put_u32_le(&mut out, 11, self.survey_id);
        proof {
            lemma_put(out@, 15, le_bytes(self.sequence as nat, 3));
        }
        put_u24_le(&mut out, 15, self.sequence);
        proof {
            lemma_put(out@, 18, le_bytes(on_air_u32(self.gps_unix_time), 4));
        }
        put_u32_le(&mut out, 18, self.gps_unix_time.unwrap_or(UNKNOWN_U32));
        proof {
            lemma_put(out@, 22, le_bytes(on_air_i32(self.latitude_e7), 4));
        }
        put_u32_le(&mut out, 22, pattern_of_i32(self.latitude_e7.unwrap_or(UNKNOWN_I32)));
        proof {
            lemma_put(out@, 26, le_bytes(on_air_i32(self.longitude_e7), 4));
        }
        put_u32_le(&mut out, 26, pattern_of_i32(self.longitude_e7.unwrap_or(UNKNOWN_I32)));
        proof {
            lemma_put(out@, 30, le_bytes(on_air_i16(self.altitude_half_m), 2));
        }
        put_u16_le(&mut out, 30, pattern_of_i16(self.altitude_half_m.unwrap_or(UNKNOWN_I16)));
        proof {
            lemma_put(out@, 32, le_bytes(on_air_u16(self.speed_cm_s), 2));
        }
        put_u16_le(&mut out, 32, self.speed_cm_s.unwrap_or(UNKNOWN_U16));
        proof {
            lemma_put(out@, 34, le_bytes(on_air_u16(self.course_cdeg), 2));
        }
        put_u16_le(&mut out, 34, self.course_cdeg.unwrap_or(UNKNOWN_U16));
        let ghost before_meta = out@.take(36);
        out[36] = 64 * self.gps_fix_class.bits() + self.satellites;
        out[37] = self.hdop_tenths.unwrap_or(UNKNOWN_U8);
        assert(out@.take(38) =~= before_meta + seq![
            (64 * self.gps_fix_class.code() + self.satellites) as u8,
            on_air_u8(self.hdop_tenths),
        ]);
        proof {
            lemma_put(out@, 38, le_bytes(on_air_i16(self.temperature_centi_c), 2));
        }
        put_u16_le(&mut out, 38, pattern_of_i16(self.temperature_centi_c.unwrap_or(UNKNOWN_I16)));
        proof {
            lemma_put(out@, 40, le_bytes(on_air_u16(self.pressure_10pa), 2));
        }
        put_u16_le(&mut out, 40, self.pressure_10pa.unwrap_or(UNKNOWN_U16));
        let ghost before_tail = out@.take(42);
        out[42] = self.humidity_half_percent.unwrap_or(UNKNOWN_U8);
        out[43] = self.battery_soc_percent.unwrap_or(UNKNOWN_U8);
        assert(out@.take(44) =~= before_tail + seq![
            on_air_u8(self.humidity_half_percent),
            on_air_u8(self.battery_soc_percent),
        ]);
        assert(out@.take(44) == telemetry_body(*self));
        let crc: u32 = crc32_ieee(slice_subrange(out.as_slice(), 0, 44));
        assert(out@.subrange(0, 44) =~= out@.take(44));
        proof {
            lemma_le_bytes_len(crc as nat, 4);
            lemma_put(out@, 44, le_bytes(crc as nat, 4));
        }
        put_u32_le(&mut out, 44, crc);
        assert(out@.take(48) =~= out@);
        Ok(out)
    }

    /// The packet that `bytes` carry, or why they carry none.
    pub fn decode(bytes: &[u8]) -> (result: Result<Self, DecodeError>)
        ensures
            result == telemetry_of(bytes@),
    {
        if bytes.len() != TELEMETRY_V1_LEN {
            return Err(DecodeError::WrongLength);
        }
        if bytes[0] != PROTOCOL_MARKER {
            return Err(DecodeError::BadMarker);
        }
        if bytes[1] != PROTOCOL_VERSION {
            return Err(DecodeError::UnsupportedVersion);
        }
        if bytes[2] / 16 != PACKET_TYPE_TELEMETRY {
            return Err(DecodeError::UnsupportedPacketType);
        }
        let expected_crc: u32 = read_u32_le(slice_subrange(bytes, 44, 48));
        let actual_crc: u32 = crc32_ieee(slice_subrange(bytes, 0, 44));
        proof {
            assert(bytes@.subrange(44, 48).take(4) =~= bytes@.subrange(44, 48));
            assert(bytes@.subrange(0, 44) =~= bytes@.take(44));
        }
        if expected_crc != actual_crc {
            return Err(DecodeError::CrcMismatch);
        }
        let sequence: u32 = (bytes[15] as u32) + 256 * (bytes[16] as u32) + 65536 * (
        bytes[17] as u32);
        let gps_meta: u8 = bytes[36];
        let packet = TelemetryV1 {
            sender_mode: bytes[2] % 16,
            sender_system_id: read_u64_le(slice_subrange(bytes, 3, 11)),
            survey_id: read_u32_le(slice_subrange(bytes, 11, 15)),
            sequence,
            gps_unix_time: decode_optional_u32(read_u32_le(slice_subrange(bytes, 18, 22))),
            latitude_e7: decode_optional_i32(read_i32_le(slice_subrange(bytes, 22, 26))),
            longitude_e7: decode_optional_i32(read_i32_le(slice_subrange(bytes, 26, 30))),
            altitude_half_m: decode_optional_i16(read_i16_le(slice_subrange(bytes, 30, 32))),
            speed_cm_s: decode_optional_u16(read_u16_le(slice_subrange(bytes, 32, 34))),
            course_cdeg: decode_optional_u16(read_u16_le(slice_subrange(bytes, 34, 36))),
            gps_fix_class: GpsFixClass::from_bits(gps_meta / 64),
            satellites: gps_meta % 64,
            hdop_tenths: decode_optional_u8(bytes[37]),
            temperature_centi_c: decode_optional_i16(read_i16_le(slice_subrange(bytes, 38, 40))),
            pressure_10pa: decode_optional_u16(read_u16_le(slice_subrange(bytes, 40, 42))),
            humidity_half_percent: decode_optional_u8(bytes[42]),
            battery_soc_percent: decode_optional_u8(bytes[43]),
        };
        proof {
            let b = bytes@;
            assert(b.subrange(3, 11).take(8) =~= b.subrange(3, 11));
            assert(b.subrange(11, 15).take(4) =~= b.subrange(11, 15));
            assert(b.subrange(18, 22).take(4) =~= b.subrange(18, 22));
            assert(b.subrange(22, 26).take(4) =~= b.subrange(22, 26));
            assert(b.subrange(26, 30).take(4) =~= b.subrange(26, 30));
            assert(b.subrange(30, 32).take(2) =~= b.subrange(30, 32));
            assert(b.subrange(32, 34).take(2) =~= b.subrange(32, 34));
            assert(b.subrange(34, 36).take(2) =~= b.subrange(34, 36));
            assert(b.subrange(38, 40).take(2) =~= b.subrange(38, 40));
            assert(b.subrange(40, 42).take(2) =~= b.subrange(40, 42));
            assert(sequence == le_value(b.subrange(15, 18))) by {
                reveal_with_fuel(le_value, 4);
                let s0 = b.subrange(15, 18);
                let s1 = s0.drop_first();
                let s2 = s1.drop_first();
                assert(s1[0] == b[16]);
                assert(s2[0] == b[17]);
                assert(s2.drop_first().len() == 0);
            }
            assert(packet == telemetry_fields(b));
        }
        match packet.validate() {
            Ok(_) => Ok(packet),
            Err(_) => Err(DecodeError::InvalidField),
        }
    }

    /// Whether the fields keep the rules, and the first that they break.
    pub fn validate(&self) -> (result: Result<(), EncodeError>)
        ensures
            match result {
                Ok(_) => first_fault(*self) is None,
                Err(error) => first_fault(*self) == Some(error),
            },
    {
        if self.sender_mode > 0x0F {
            return Err(EncodeError::SenderModeOutOfRange);
        }
        if self.sequence > MAX_SEQUENCE {
            return Err(EncodeError::SequenceOutOfRange);
        }
        if let Some(time) = self.gps_unix_time {
            if time == UNKNOWN_U32 {
                return Err(EncodeError::GpsTimeUsesReservedSentinel);
            }
        }
        if let Some(latitude) = self.latitude_e7 {
            if latitude < -MAX_LATITUDE_E7 || latitude > MAX_LATITUDE_E7 {
                return Err(EncodeError::LatitudeOutOfRange);
            }
        }
        if let Some(longitude) = self.longitude_e7 {
            if longitude < -MAX_LONGITUDE_E7 || longitude > MAX_LONGITUDE_E7 {
                return Err(EncodeError::LongitudeOutOfRange);
            }
        }
        if let Some(altitude) = self.altitude_half_m {
            if altitude == UNKNOWN_I16 {
                return Err(EncodeError::AltitudeUsesReservedSentinel);
            }
        }
        if let Some(speed) = self.speed_cm_s {
            if speed == UNKNOWN_U16 {
                return Err(EncodeError::SpeedUsesReservedSentinel);
            }
        }
        if let Some(course) = self.course_cdeg {
            if course > MAX_COURSE_CDEG {
                return Err(EncodeError::CourseOutOfRange);
            }
        }
        if self.satellites > MAX_SATELLITES {
            return Err(EncodeError::TooManySatellites);
        }
        if let Some(hdop) = self.hdop_tenths {
            if hdop == UNKNOWN_U8 {
                return Err(EncodeError::HdopUsesReservedSentinel);
            }
        }
        if let Some(temperature) = self.temperature_centi_c {
            if temperature == UNKNOWN_I16 {
                return Err(EncodeError::TemperatureUsesReservedSentinel);
            }
        }
        if let Some(pressure) = self.pressure_10pa {
            if pressure == UNKNOWN_U16 {
                return Err(EncodeError::PressureUsesReservedSentinel);
            }
        }
        if let Some(humidity) = self.humidity_half_percent {
            if humidity > MAX_HUMIDITY_HALF_PERCENT {
                return Err(EncodeError::HumidityOutOfRange);
            }
        }
        if let Some(soc) = self.battery_soc_percent {
            if soc > MAX_BATTERY_SOC_PERCENT {
                return Err(EncodeError::BatterySocOutOfRange);
            }
        }
        Ok(())
    }
}

/// How the pieces of a packet lie in its bytes.
proof fn lemma_layout(p: TelemetryV1)
    ensures
        telemetry_body(p).len() == 44,
        telemetry_bytes(p).len() == 48,
        telemetry_bytes(p).take(44) == telemetry_body(p),
        telemetry_bytes(p).subrange(44, 48) == le_bytes(crc32(telemetry_body(p)) as nat, 4),
        telemetry_bytes(p)[0] == PROTOCOL_MARKER,
        telemetry_bytes(p)[1] == PROTOCOL_VERSION,
        telemetry_bytes(p)[2] == (16 * PACKET_TYPE_TELEMETRY + p.sender_mode) as u8,
        telemetry_bytes(p).subrange(3, 11) == le_bytes(p.sender_system_id as nat, 8),
        telemetry_bytes(p).subrange(11, 15) == le_bytes(p.survey_id as nat, 4),
        telemetry_bytes(p).subrange(15, 18) == le_bytes(p.sequence as nat, 3),
        telemetry_bytes(p).subrange(18, 22) == le_bytes(on_air_u32(p.gps_unix_time), 4),
        telemetry_bytes(p).subrange(22, 26) == le_bytes(on_air_i32(p.latitude_e7), 4),
        telemetry_bytes(p).subrange(26, 30) == le_bytes(on_air_i32(p.longitude_e7), 4),
        telemetry_bytes(p).subrange(30, 32) == le_bytes(on_air_i16(p.altitude_half_m), 2),
        telemetry_bytes(p).subrange(32, 34) == le_bytes(on_air_u16(p.speed_cm_s), 2),
        telemetry_bytes(p).subrange(34, 36) == le_bytes(on_air_u16(p.course_cdeg), 2),
        telemetry_bytes(p)[36] == (64 * p.gps_fix_class.code() + p.satellites) as u8,
        telemetry_bytes(p)[37] == on_air_u8(p.hdop_tenths),
        telemetry_bytes(p).subrange(38, 40) == le_bytes(on_air_i16(p.temperature_centi_c), 2),
        telemetry_bytes(p).subrange(40, 42) == le_bytes(on_air_u16(p.pressure_10pa), 2),
        telemetry_bytes(p)[42] == on_air_u8(p.humidity_half_percent),
        telemetry_bytes(p)[43] == on_air_u8(p.battery_soc_percent),
{
    lemma_le_bytes_len(p.sender_system_id as nat, 8);
    lemma_le_bytes_len(p.survey_id as nat, 4);
    lemma_le_bytes_len(p.sequence as nat, 3);
    lemma_le_bytes_len(on_air_u32(p.gps_unix_time), 4);
    lemma_le_bytes_len(on_air_i32(p.latitude_e7), 4);
    lemma_le_bytes_len(on_air_i32(p.longitude_e7), 4);
    lemma_le_bytes_len(on_air_i16(p.altitude_half_m), 2);
    lemma_le_bytes_len(on_air_u16(p.speed_cm_s), 2);
    lemma_le_bytes_len(on_air_u16(p.course_cdeg), 2);
    lemma_le_bytes_len(on_air_i16(p.temperature_centi_c), 2);
    lemma_le_bytes_len(on_air_u16(p.pressure_10pa), 2);
    lemma_le_bytes_len(crc32(telemetry_body(p)) as nat, 4);
    let b = telemetry_bytes(p);
    assert(b.take(44) =~= telemetry_body(p));
    assert(b.subrange(44, 48) =~= le_bytes(crc32(telemetry_body(p)) as nat, 4));
    assert(b.subrange(3, 11) =~= le_bytes(p.sender_system_id as nat, 8));
    assert(b.subrange(11, 15) =~= le_bytes(p.survey_id as nat, 4));
    assert(b.subrange(15, 18) =~= le_bytes(p.sequence as nat, 3));
    assert(b.subrange(18, 22) =~= le_bytes(on_air_u32(p.gps_unix_time), 4));
    assert(b.subrange(22, 26) =~= le_bytes(on_air_i32(p.latitude_e7), 4));
    assert(b.subrange(26, 30) =~= le_bytes(on_air_i32(p.longitude_e7), 4));
    assert(b.subrange(30, 32) =~= le_bytes(on_air_i16(p.altitude_half_m), 2));
    assert(b.subrange(32, 34) =~= le_bytes(on_air_u16(p.speed_cm_s), 2));
    assert(b.subrange(34, 36) =~= le_bytes(on_air_u16(p.course_cdeg), 2));
    assert(b.subrange(38, 40) =~= le_bytes(on_air_i16(p.temperature_centi_c), 2));
    assert(b.subrange(40, 42) =~= le_bytes(on_air_u16(p.pressure_10pa), 2));
}

proof fn lemma_limits()
    ensures
        le_limit(2) == 0x1_0000,
        le_limit(3) == 0x100_0000,
        le_limit(4) == 0x1_0000_0000,
        le_limit(8) == 0x1_0000_0000_0000_0000,
{
    reveal_with_fuel(le_limit, 9);
}

/// A packet that keeps the rules comes back from its bytes unchanged.
pub proof fn law_decoding_undoes_encoding(p: TelemetryV1)
    requires
        first_fault(p) is None,
    ensures
        telemetry_of(telemetry_bytes(p)) == Ok::<TelemetryV1, DecodeError>(p),
{
    lemma_layout(p);
    lemma_limits();
    law_le_value_of_bytes(p.sender_system_id as nat, 8);
    law_le_value_of_bytes(p.survey_id as nat, 4);
    law_le_value_of_bytes(p.sequence as nat, 3);
    law_le_value_of_bytes(on_air_u32(p.gps_unix_time), 4);
    law_le_value_of_bytes(on_air_i32(p.latitude_e7), 4);
    law_le_value_of_bytes(on_air_i32(p.longitude_e7), 4);
    law_le_value_of_bytes(on_air_i16(p.altitude_half_m), 2);
    law_le_value_of_bytes(on_air_u16(p.speed_cm_s), 2);
    law_le_value_of_bytes(on_air_u16(p.course_cdeg), 2);
    law_le_value_of_bytes(on_air_i16(p.temperature_centi_c), 2);
    law_le_value_of_bytes(on_air_u16(p.pressure_10pa), 2);
    law_le_value_of_bytes(crc32(telemetry_body(p)) as nat, 4);
    assert(telemetry_fields(telemetry_bytes(p)) == p);
}

proof fn lemma_cut(b: Seq<u8>)
    requires
        b.len() == 48,
    ensures
        b.take(44) == seq![b[0], b[1], b[2]] + b.subrange(3, 11) + b.subrange(11, 15)
            + b.subrange(15, 18) + b.subrange(18, 22) + b.subrange(22, 26) + b.subrange(26, 30)
            + b.subrange(30, 32) + b.subrange(32, 34) + b.subrange(34, 36) + seq![b[36], b[37]]
            + b.subrange(38, 40) + b.subrange(40, 42) + seq![b[42], b[43]],
        b == b.take(44) + b.subrange(44, 48),
{
    assert(b.take(44) =~= seq![b[0], b[1], b[2]] + b.subrange(3, 11) + b.subrange(11, 15)
        + b.subrange(15, 18) + b.subrange(18, 22) + b.subrange(22, 26) + b.subrange(26, 30)
        + b.subrange(30, 32) + b.subrange(32, 34) + b.subrange(34, 36) + seq![b[36], b[37]]
        + b.subrange(38, 40) + b.subrange(40, 42) + seq![b[42], b[43]]);
    assert(b =~= b.take(44) + b.subrange(44, 48));
}

/// A frame that is accepted is exactly what its packet is written as: no two frames mean the
/// same packet.
pub proof fn law_encoding_undoes_decoding(b: Seq<u8>)
    requires
        telemetry_of(b) is Ok,
    ensures
        telemetry_bytes(telemetry_of(b)->Ok_0) == b,
{
    let p = telemetry_of(b)->Ok_0;
    lemma_limits();
    lemma_cut(b);
    law_le_bytes_of_value(b.subrange(3, 11));
    law_le_bytes_of_value(b.subrange(11, 15));
    law_le_bytes_of_value(b.subrange(15, 18));
    law_le_bytes_of_value(b.subrange(18, 22));
    law_le_bytes_of_value(b.subrange(22, 26));
    law_le_bytes_of_value(b.subrange(26, 30));
    law_le_bytes_of_value(b.subrange(30, 32));
    law_le_bytes_of_value(b.subrange(32, 34));
    law_le_bytes_of_value(b.subrange(34, 36));
    law_le_bytes_of_value(b.subrange(38, 40));
    law_le_bytes_of_value(b.subrange(40, 42));
    law_le_bytes_of_value(b.subrange(44, 48));
    assert(on_air_u32(p.gps_unix_time) == le_value(b.subrange(18, 22)));
    assert(on_air_i32(p.latitude_e7) == le_value(b.subrange(22, 26)));
    assert(on_air_i32(p.longitude_e7) == le_value(b.subrange(26, 30)));
    assert(on_air_i16(p.altitude_half_m) == le_value(b.subrange(30, 32)));
    assert(on_air_u16(p.speed_cm_s) == le_value(b.subrange(32, 34)));
    assert(on_air_u16(p.course_cdeg) == le_value(b.subrange(34, 36)));
    assert(on_air_i16(p.temperature_centi_c) == le_value(b.subrange(38, 40)));
    assert(on_air_u16(p.pressure_10pa) == le_value(b.subrange(40, 42)));
    assert((16 * PACKET_TYPE_TELEMETRY + p.sender_mode) as u8 == b[2]);
    assert((64 * p.gps_fix_class.code() + p.satellites) as u8 == b[36]);
    assert(telemetry_body(p) == b.take(44));
}

/// A frame whose last four bytes are its checksum leaves the register at one fixed value.
proof fn lemma_sealed_register(b: Seq<u8>)
    requires
        b.len() == 48,
        le_value(b.subrange(44, 48)) == crc32(b.take(44)),
    ensures
        crc32_register(b) == crc32_turn(crc32_turn(crc32_turn(crc32_turn(0xFFFF_FFFFu32)))),
{
    let (b0, b1, b2, b3) = (b[44], b[45], b[46], b[47]);
    let register = crc32_register(b.take(44));
    let word = crc32_word(b0, b1, b2, b3);
    assert(b.take(48) =~= b);
    lemma_register_of_four(b, 44);
    lemma_four_bytes(register, b0, b1, b2, b3);
    assert(le_value(b.subrange(44, 48)) == b0 + 256 * (b1 + 256 * (b2 + 256 * b3))) by {
        let s = b.subrange(44, 48);
        reveal_with_fuel(le_value, 5);
        assert(s.drop_first().drop_first().drop_first().drop_first().len() == 0);
    }
    assert(((b0 as u32) ^ ((b1 as u32) << 8) ^ ((b2 as u32) << 16) ^ ((b3 as u32) << 24)) == b0
        + 256 * (b1 + 256 * (b2 + 256 * b3))) by (bit_vector);
    assert(word == !register);
    assert(register ^ !register == 0xFFFF_FFFFu32) by (bit_vector);
}

/// An accepted frame with a burst of errors, anything that happens to four bytes in a row or to
/// some of them, is refused.
pub proof fn law_burst_is_refused(b: Seq<u8>, c: Seq<u8>, at: int)
    requires
        telemetry_of(b) is Ok,
        c.len() == b.len(),
        c != b,
        forall|i: int| 0 <= i < b.len() && !(at <= i < at + 4) ==> c[i] == b[i],
    ensures
        telemetry_of(c) is Err,
        at >= 3 ==> telemetry_of(c) == Err::<TelemetryV1, DecodeError>(DecodeError::CrcMismatch),
{
    lemma_sealed_register(b);
    if le_value(c.subrange(44, 48)) == crc32(c.take(44)) {
        lemma_sealed_register(c);
        law_crc32_detects_bursts(b, c, at);
    }
}

/// An accepted frame with one byte changed, whichever it is and to whatever value, is refused.
pub proof fn law_one_changed_byte_is_refused(b: Seq<u8>, at: int, byte: u8)
    requires
        telemetry_of(b) is Ok,
        0 <= at < b.len(),
        byte != b[at],
    ensures
        telemetry_of(b.update(at, byte)) is Err,
        at >= 3 ==> telemetry_of(b.update(at, byte)) == Err::<TelemetryV1, DecodeError>(
            DecodeError::CrcMismatch,
        ),
{
    assert(b.update(at, byte)[at] != b[at]);
    law_burst_is_refused(b, b.update(at, byte), at);
}

/// The class of fix on the air: the two high bits of byte 36, and the number of satellites the six
/// low ones. A frame with less than 64 there has no fix, one with 64 to 127 a standard one, one
/// with 128 to 191 a differential one, and any other an enhanced one.
pub proof fn law_fix_class_of_a_frame(b: Seq<u8>)
    requires
        telemetry_of(b) is Ok,
    ensures
        telemetry_of(b)->Ok_0.gps_fix_class is NoFix <==> b[36] < 64,
        telemetry_of(b)->Ok_0.gps_fix_class is Standard <==> 64 <= b[36] < 128,
        telemetry_of(b)->Ok_0.gps_fix_class is Differential <==> 128 <= b[36] < 192,
        telemetry_of(b)->Ok_0.gps_fix_class is EnhancedOrOther <==> 192 <= b[36],
        telemetry_of(b)->Ok_0.satellites < 64,
        (b[36] - telemetry_of(b)->Ok_0.satellites) % 64 == 0,
{
}

/// The class of fix in a packet that is sent: byte 36 is below 64 exactly without a fix, and each
/// further class begins 64 higher.
pub proof fn law_fix_class_in_a_frame(p: TelemetryV1)
    requires
        first_fault(p) is None,
    ensures
        p.gps_fix_class is NoFix ==> telemetry_bytes(p)[36] == p.satellites,
        p.gps_fix_class is Standard ==> telemetry_bytes(p)[36] == 64 + p.satellites,
        p.gps_fix_class is Differential ==> telemetry_bytes(p)[36] == 128 + p.satellites,
        p.gps_fix_class is EnhancedOrOther ==> telemetry_bytes(p)[36] == 192 + p.satellites,
{
    lemma_layout(p);
}

/// The four classes have the numbers 0 to 3, in the order of their quality, and each number from 0
/// to 3 names the class that has it.
pub proof fn law_fix_class_numbers(class: GpsFixClass, number: nat)
    requires
        number < 4,
    ensures
        class is NoFix <==> class.code() == 0,
        class is Standard <==> class.code() == 1,
        class is Differential <==> class.code() == 2,
        class is EnhancedOrOther <==> class.code() == 3,
        GpsFixClass::of_code(number).code() == number,
        GpsFixClass::of_code(class.code()) == class,
{
}

/// Bytes that are read from the lowest up.
proof fn lemma_words(b: Seq<u8>, at: int)
    requires
        0 <= at,
        at + 2 <= b.len(),
    ensures
        le_value(b.subrange(at, at + 2)) == b[at] + 0x100 * b[at + 1],
        at + 3 <= b.len() ==> le_value(b.subrange(at, at + 3)) == b[at] + 0x100 * b[at + 1]
            + 0x1_0000 * b[at + 2],
        at + 4 <= b.len() ==> le_value(b.subrange(at, at + 4)) == b[at] + 0x100 * b[at + 1]
            + 0x1_0000 * b[at + 2] + 0x100_0000 * b[at + 3],
        at + 8 <= b.len() ==> le_value(b.subrange(at, at + 8)) == b[at] + 0x100 * b[at + 1]
            + 0x1_0000 * b[at + 2] + 0x100_0000 * b[at + 3] + 0x1_0000_0000 * b[at + 4]
            + 0x100_0000_0000 * b[at + 5] + 0x1_0000_0000_0000 * b[at + 6] + 0x100_0000_0000_0000
            * b[at + 7],
{
    reveal_with_fuel(le_value, 9);
    let two = b.subrange(at, at + 2);
    assert(two.drop_first() =~= b.subrange(at + 1, at + 2));
    assert(two.drop_first().drop_first() =~= Seq::<u8>::empty());
    if at + 3 <= b.len() {
        let three = b.subrange(at, at + 3);
        assert(three.drop_first() =~= b.subrange(at + 1, at + 3));
        assert(three.drop_first().drop_first() =~= b.subrange(at + 2, at + 3));
        assert(three.drop_first().drop_first().drop_first() =~= Seq::<u8>::empty());
    }
    if at + 4 <= b.len() {
        let four = b.subrange(at, at + 4);
        assert(four.drop_first() =~= b.subrange(at + 1, at + 4));
        assert(four.drop_first().drop_first() =~= b.subrange(at + 2, at + 4));
        assert(four.drop_first().drop_first().drop_first() =~= b.subrange(at + 3, at + 4));
        assert(four.drop_first().drop_first().drop_first().drop_first() =~= Seq::<u8>::empty());
    }
    if at + 8 <= b.len() {
        let eight = b.subrange(at, at + 8);
        assert(eight.drop_first() =~= b.subrange(at + 1, at + 8));
        assert(b.subrange(at + 1, at + 8).drop_first() =~= b.subrange(at + 2, at + 8));
        assert(b.subrange(at + 2, at + 8).drop_first() =~= b.subrange(at + 3, at + 8));
        assert(b.subrange(at + 3, at + 8).drop_first() =~= b.subrange(at + 4, at + 8));
        assert(b.subrange(at + 4, at + 8).drop_first() =~= b.subrange(at + 5, at + 8));
        assert(b.subrange(at + 5, at + 8).drop_first() =~= b.subrange(at + 6, at + 8));
        assert(b.subrange(at + 6, at + 8).drop_first() =~= b.subrange(at + 7, at + 8));
        assert(b.subrange(at + 7, at + 8).drop_first() =~= Seq::<u8>::empty());
    }
}

/// Where each field of an accepted frame stands: numbers are written from the lowest byte up, and a
/// field is missing exactly where all its bits are set, or, of a signed one, its highest alone.
pub proof fn law_fields_of_a_frame(b: Seq<u8>)
    requires
        telemetry_of(b) is Ok,
    ensures
        ({
            let p = telemetry_of(b)->Ok_0;
            let time = b[18] + 0x100 * b[19] + 0x1_0000 * b[20] + 0x100_0000 * b[21];
            let latitude = b[22] + 0x100 * b[23] + 0x1_0000 * b[24] + 0x100_0000 * b[25];
            let longitude = b[26] + 0x100 * b[27] + 0x1_0000 * b[28] + 0x100_0000 * b[29];
            let altitude = b[30] + 0x100 * b[31];
            let speed = b[32] + 0x100 * b[33];
            let course = b[34] + 0x100 * b[35];
            let temperature = b[38] + 0x100 * b[39];
            let pressure = b[40] + 0x100 * b[41];
            &&& p.sender_mode == b[2] - 16
            &&& p.sender_system_id == b[3] + 0x100 * b[4] + 0x1_0000 * b[5] + 0x100_0000 * b[6]
                + 0x1_0000_0000 * b[7] + 0x100_0000_0000 * b[8] + 0x1_0000_0000_0000 * b[9]
                + 0x100_0000_0000_0000 * b[10]
            &&& p.survey_id == b[11] + 0x100 * b[12] + 0x1_0000 * b[13] + 0x100_0000 * b[14]
            &&& p.sequence == b[15] + 0x100 * b[16] + 0x1_0000 * b[17]
            &&& p.gps_unix_time is None <==> time == 0xFFFF_FFFF
            &&& p.gps_unix_time is Some ==> p.gps_unix_time->0 == time
            &&& p.latitude_e7 is None <==> latitude == 0x8000_0000
            &&& p.latitude_e7 is Some
                ==> p.latitude_e7->0 == latitude || p.latitude_e7->0 == latitude - 0x1_0000_0000
            &&& p.longitude_e7 is None <==> longitude == 0x8000_0000
            &&& p.longitude_e7 is Some
                ==> p.longitude_e7->0 == longitude || p.longitude_e7->0 == longitude - 0x1_0000_0000
            &&& p.altitude_half_m is None <==> altitude == 0x8000
            &&& p.altitude_half_m is Some
                ==> p.altitude_half_m->0 == altitude || p.altitude_half_m->0 == altitude - 0x1_0000
            &&& p.speed_cm_s is None <==> speed == 0xFFFF
            &&& p.speed_cm_s is Some ==> p.speed_cm_s->0 == speed
            &&& p.course_cdeg is None <==> course == 0xFFFF
            &&& p.course_cdeg is Some ==> p.course_cdeg->0 == course
            &&& p.hdop_tenths is None <==> b[37] == 0xFF
            &&& p.hdop_tenths is Some ==> p.hdop_tenths->0 == b[37]
            &&& p.temperature_centi_c is None <==> temperature == 0x8000
            &&& p.temperature_centi_c is Some
                ==> p.temperature_centi_c->0 == temperature || p.temperature_centi_c->0
                == temperature - 0x1_0000
            &&& p.pressure_10pa is None <==> pressure == 0xFFFF
            &&& p.pressure_10pa is Some ==> p.pressure_10pa->0 == pressure
            &&& p.humidity_half_percent is None <==> b[42] == 0xFF
            &&& p.humidity_half_percent is Some ==> p.humidity_half_percent->0 == b[42]
            &&& p.battery_soc_percent is None <==> b[43] == 0xFF
            &&& p.battery_soc_percent is Some ==> p.battery_soc_percent->0 == b[43]
        }),
{
    lemma_words(b, 3);
    lemma_words(b, 11);
    lemma_words(b, 15);
    lemma_words(b, 18);
    lemma_words(b, 22);
    lemma_words(b, 26);
    lemma_words(b, 30);
    lemma_words(b, 32);
    lemma_words(b, 34);
    lemma_words(b, 38);
    lemma_words(b, 40);
}

/// A packet is without fault exactly where its mode is below 16, its number below 2 to the power of
/// 24, its place on the globe, its course below 360 degrees, its satellites below 64, its humidity
/// and its charge at most 100 percent, and where no other known value is the one that stands for
/// an unknown one. A fault that is named is one that the packet has.
pub proof fn law_rules_of_a_packet(p: TelemetryV1)
    ensures
        first_fault(p) is None <==> {
            &&& p.sender_mode <= 15
            &&& p.sequence <= 16_777_215
            &&& p.gps_unix_time != Some(0xFFFF_FFFFu32)
            &&& (p.latitude_e7 is Some ==> -900_000_000 <= p.latitude_e7->0 <= 900_000_000)
            &&& (p.longitude_e7 is Some ==> -1_800_000_000 <= p.longitude_e7->0 <= 1_800_000_000)
            &&& (p.altitude_half_m is Some ==> p.altitude_half_m->0 > -32_768)
            &&& p.speed_cm_s != Some(0xFFFFu16)
            &&& (p.course_cdeg is Some ==> p.course_cdeg->0 < 36_000)
            &&& p.satellites < 64
            &&& p.hdop_tenths != Some(0xFFu8)
            &&& (p.temperature_centi_c is Some ==> p.temperature_centi_c->0 > -32_768)
            &&& p.pressure_10pa != Some(0xFFFFu16)
            &&& (p.humidity_half_percent is Some ==> p.humidity_half_percent->0 <= 200)
            &&& (p.battery_soc_percent is Some ==> p.battery_soc_percent->0 <= 100)
        },
        first_fault(p) == Some(EncodeError::SenderModeOutOfRange) ==> !(p.sender_mode <= 15),
        first_fault(p) == Some(EncodeError::SequenceOutOfRange) ==> !(p.sequence <= 16_777_215),
        first_fault(p) == Some(EncodeError::GpsTimeUsesReservedSentinel)
            ==> !(p.gps_unix_time != Some(0xFFFF_FFFFu32)),
        first_fault(p) == Some(EncodeError::LatitudeOutOfRange) ==> !(p.latitude_e7 is Some
            ==> -900_000_000 <= p.latitude_e7->0 <= 900_000_000),
        first_fault(p) == Some(EncodeError::LongitudeOutOfRange) ==> !(p.longitude_e7 is Some
            ==> -1_800_000_000 <= p.longitude_e7->0 <= 1_800_000_000),
        first_fault(p) == Some(EncodeError::AltitudeUsesReservedSentinel)
            ==> !(p.altitude_half_m is Some ==> p.altitude_half_m->0 > -32_768),
        first_fault(p) == Some(EncodeError::SpeedUsesReservedSentinel)
            ==> !(p.speed_cm_s != Some(0xFFFFu16)),
        first_fault(p) == Some(EncodeError::CourseOutOfRange) ==> !(p.course_cdeg is Some
            ==> p.course_cdeg->0 < 36_000),
        first_fault(p) == Some(EncodeError::TooManySatellites) ==> !(p.satellites < 64),
        first_fault(p) == Some(EncodeError::HdopUsesReservedSentinel)
            ==> !(p.hdop_tenths != Some(0xFFu8)),
        first_fault(p) == Some(EncodeError::TemperatureUsesReservedSentinel)
            ==> !(p.temperature_centi_c is Some ==> p.temperature_centi_c->0 > -32_768),
        first_fault(p) == Some(EncodeError::PressureUsesReservedSentinel)
            ==> !(p.pressure_10pa != Some(0xFFFFu16)),
        first_fault(p) == Some(EncodeError::HumidityOutOfRange)
            ==> !(p.humidity_half_percent is Some ==> p.humidity_half_percent->0 <= 200),
        first_fault(p) == Some(EncodeError::BatterySocOutOfRange)
            ==> !(p.battery_soc_percent is Some ==> p.battery_soc_percent->0 <= 100),
{
}

/// A packet with one fault only is refused for that fault.
pub proof fn law_one_fault_is_named(p: TelemetryV1)
    ensures
        (!(p.sender_mode <= 15)) ==> first_fault(p) == Some(EncodeError::SenderModeOutOfRange),
        (!(p.sequence <= 16_777_215)
            && p.sender_mode <= 15) ==> first_fault(p) == Some(EncodeError::SequenceOutOfRange),
        (!(p.gps_unix_time != Some(0xFFFF_FFFFu32))
            && p.sender_mode <= 15
            && p.sequence <= 16_777_215)
                ==> first_fault(p) == Some(EncodeError::GpsTimeUsesReservedSentinel),
        (!((p.latitude_e7 is Some ==> -900_000_000 <= p.latitude_e7->0 <= 900_000_000))
            && p.sender_mode <= 15
            && p.sequence <= 16_777_215
            && p.gps_unix_time != Some(0xFFFF_FFFFu32))
                ==> first_fault(p) == Some(EncodeError::LatitudeOutOfRange),
        (!((p.longitude_e7 is Some ==> -1_800_000_000 <= p.longitude_e7->0 <= 1_800_000_000))
            && p.sender_mode <= 15
            && p.sequence <= 16_777_215
            && p.gps_unix_time != Some(0xFFFF_FFFFu32)
            && (p.latitude_e7 is Some ==> -900_000_000 <= p.latitude_e7->0 <= 900_000_000))
                ==> first_fault(p) == Some(EncodeError::LongitudeOutOfRange),
        (!((p.altitude_half_m is Some ==> p.altitude_half_m->0 > -32_768))
            && p.sender_mode <= 15
            && p.sequence <= 16_777_215
            && p.gps_unix_time != Some(0xFFFF_FFFFu32)
            && (p.latitude_e7 is Some ==> -900_000_000 <= p.latitude_e7->0 <= 900_000_000)
            && (p.longitude_e7 is Some
                ==> -1_800_000_000 <= p.longitude_e7->0 <= 1_800_000_000))
                ==> first_fault(p) == Some(EncodeError::AltitudeUsesReservedSentinel),
        (!(p.speed_cm_s != Some(0xFFFFu16))
            && p.sender_mode <= 15
            && p.sequence <= 16_777_215
            && p.gps_unix_time != Some(0xFFFF_FFFFu32)
            && (p.latitude_e7 is Some ==> -900_000_000 <= p.latitude_e7->0 <= 900_000_000)
            && (p.longitude_e7 is Some ==> -1_800_000_000 <= p.longitude_e7->0 <= 1_800_000_000)
            && (p.altitude_half_m is Some ==> p.altitude_half_m->0 > -32_768))
                ==> first_fault(p) == Some(EncodeError::SpeedUsesReservedSentinel),
        (!((p.course_cdeg is Some ==> p.course_cdeg->0 < 36_000))
            && p.sender_mode <= 15
            && p.sequence <= 16_777_215
            && p.gps_unix_time != Some(0xFFFF_FFFFu32)
            && (p.latitude_e7 is Some ==> -900_000_000 <= p.latitude_e7->0 <= 900_000_000)
            && (p.longitude_e7 is Some ==> -1_800_000_000 <= p.longitude_e7->0 <= 1_800_000_000)
            && (p.altitude_half_m is Some ==> p.altitude_half_m->0 > -32_768)
            && p.speed_cm_s != Some(0xFFFFu16))
                ==> first_fault(p) == Some(EncodeError::CourseOutOfRange),
        (!(p.satellites < 64)
            && p.sender_mode <= 15
            && p.sequence <= 16_777_215
            && p.gps_unix_time != Some(0xFFFF_FFFFu32)
            && (p.latitude_e7 is Some ==> -900_000_000 <= p.latitude_e7->0 <= 900_000_000)
            && (p.longitude_e7 is Some ==> -1_800_000_000 <= p.longitude_e7->0 <= 1_800_000_000)
            && (p.altitude_half_m is Some ==> p.altitude_half_m->0 > -32_768)
            && p.speed_cm_s != Some(0xFFFFu16)
            && (p.course_cdeg is Some ==> p.course_cdeg->0 < 36_000))
                ==> first_fault(p) == Some(EncodeError::TooManySatellites),
        (!(p.hdop_tenths != Some(0xFFu8))
            && p.sender_mode <= 15
            && p.sequence <= 16_777_215
            && p.gps_unix_time != Some(0xFFFF_FFFFu32)
            && (p.latitude_e7 is Some ==> -900_000_000 <= p.latitude_e7->0 <= 900_000_000)
            && (p.longitude_e7 is Some ==> -1_800_000_000 <= p.longitude_e7->0 <= 1_800_000_000)
            && (p.altitude_half_m is Some ==> p.altitude_half_m->0 > -32_768)
            && p.speed_cm_s != Some(0xFFFFu16)
            && (p.course_cdeg is Some ==> p.course_cdeg->0 < 36_000)
            && p.satellites < 64) ==> first_fault(p) == Some(EncodeError::HdopUsesReservedSentinel),
        (!((p.temperature_centi_c is Some ==> p.temperature_centi_c->0 > -32_768))
            && p.sender_mode <= 15
            && p.sequence <= 16_777_215
            && p.gps_unix_time != Some(0xFFFF_FFFFu32)
            && (p.latitude_e7 is Some ==> -900_000_000 <= p.latitude_e7->0 <= 900_000_000)
            && (p.longitude_e7 is Some ==> -1_800_000_000 <= p.longitude_e7->0 <= 1_800_000_000)
            && (p.altitude_half_m is Some ==> p.altitude_half_m->0 > -32_768)
            && p.speed_cm_s != Some(0xFFFFu16)
            && (p.course_cdeg is Some ==> p.course_cdeg->0 < 36_000)
            && p.satellites < 64
            && p.hdop_tenths != Some(0xFFu8))
                ==> first_fault(p) == Some(EncodeError::TemperatureUsesReservedSentinel),
        (!(p.pressure_10pa != Some(0xFFFFu16))
            && p.sender_mode <= 15
            && p.sequence <= 16_777_215
            && p.gps_unix_time != Some(0xFFFF_FFFFu32)
            && (p.latitude_e7 is Some ==> -900_000_000 <= p.latitude_e7->0 <= 900_000_000)
            && (p.longitude_e7 is Some ==> -1_800_000_000 <= p.longitude_e7->0 <= 1_800_000_000)
            && (p.altitude_half_m is Some ==> p.altitude_half_m->0 > -32_768)
            && p.speed_cm_s != Some(0xFFFFu16)
            && (p.course_cdeg is Some ==> p.course_cdeg->0 < 36_000)
            && p.satellites < 64
            && p.hdop_tenths != Some(0xFFu8)
            && (p.temperature_centi_c is Some ==> p.temperature_centi_c->0 > -32_768))
                ==> first_fault(p) == Some(EncodeError::PressureUsesReservedSentinel),
        (!((p.humidity_half_percent is Some ==> p.humidity_half_percent->0 <= 200))
            && p.sender_mode <= 15
            && p.sequence <= 16_777_215
            && p.gps_unix_time != Some(0xFFFF_FFFFu32)
            && (p.latitude_e7 is Some ==> -900_000_000 <= p.latitude_e7->0 <= 900_000_000)
            && (p.longitude_e7 is Some ==> -1_800_000_000 <= p.longitude_e7->0 <= 1_800_000_000)
            && (p.altitude_half_m is Some ==> p.altitude_half_m->0 > -32_768)
            && p.speed_cm_s != Some(0xFFFFu16)
            && (p.course_cdeg is Some ==> p.course_cdeg->0 < 36_000)
            && p.satellites < 64
            && p.hdop_tenths != Some(0xFFu8)
            && (p.temperature_centi_c is Some ==> p.temperature_centi_c->0 > -32_768)
            && p.pressure_10pa != Some(0xFFFFu16))
                ==> first_fault(p) == Some(EncodeError::HumidityOutOfRange),
        (!((p.battery_soc_percent is Some ==> p.battery_soc_percent->0 <= 100))
            && p.sender_mode <= 15
            && p.sequence <= 16_777_215
            && p.gps_unix_time != Some(0xFFFF_FFFFu32)
            && (p.latitude_e7 is Some ==> -900_000_000 <= p.latitude_e7->0 <= 900_000_000)
            && (p.longitude_e7 is Some ==> -1_800_000_000 <= p.longitude_e7->0 <= 1_800_000_000)
            && (p.altitude_half_m is Some ==> p.altitude_half_m->0 > -32_768)
            && p.speed_cm_s != Some(0xFFFFu16)
            && (p.course_cdeg is Some ==> p.course_cdeg->0 < 36_000)
            && p.satellites < 64
            && p.hdop_tenths != Some(0xFFu8)
            && (p.temperature_centi_c is Some ==> p.temperature_centi_c->0 > -32_768)
            && p.pressure_10pa != Some(0xFFFFu16)
            && (p.humidity_half_percent is Some ==> p.humidity_half_percent->0 <= 200))
                ==> first_fault(p) == Some(EncodeError::BatterySocOutOfRange),
{
}

/// Which frames are accepted: those of 48 bytes that begin with a `G`, version 1 and packet type 1,
/// carry the checksum of their first 44 bytes, from the lowest byte up, and spell a packet without
/// fault. What is wrong with another frame is the first of these that fails.
pub proof fn law_which_frames_are_accepted(b: Seq<u8>)
    ensures
        ({
            let long = b.len() == 48;
            let marked = b[0] == 0x47;
            let versioned = b[1] == 1;
            let typed = 16 <= b[2] < 32;
            let sealed = b[44] + 0x100 * b[45] + 0x1_0000 * b[46] + 0x100_0000 * b[47] == crc32(
                b.take(44),
            );
            &&& telemetry_of(b) is Ok ==> long && marked && versioned && typed && sealed
            &&& long && marked && versioned && typed && sealed ==> telemetry_of(b) is Ok
                || telemetry_of(b)->Err_0 is InvalidField
            &&& (telemetry_of(b) is Err && telemetry_of(b)->Err_0 is WrongLength) <==> !long
            &&& (telemetry_of(b) is Err && telemetry_of(b)->Err_0 is BadMarker) <==> long
                && !marked
            &&& (telemetry_of(b) is Err && telemetry_of(b)->Err_0 is UnsupportedVersion) <==> long
                && marked && !versioned
            &&& (telemetry_of(b) is Err && telemetry_of(b)->Err_0 is UnsupportedPacketType)
                <==> long && marked && versioned && !typed
            &&& (telemetry_of(b) is Err && telemetry_of(b)->Err_0 is CrcMismatch) <==> long
                && marked && versioned && typed && !sealed
        }),
{
    if b.len() == 48 {
        lemma_words(b, 44);
    }
}

/// A sealed frame is refused for its fields exactly where one of them is beyond what it may be: a
/// latitude or longitude off the globe, a course of 360 degrees or more, or a humidity or charge of
/// more than 100 percent.
pub proof fn law_which_fields_are_refused(b: Seq<u8>)
    requires
        telemetry_of(b) is Ok || telemetry_of(b)->Err_0 is InvalidField,
    ensures
        ({
            let latitude = b[22] + 0x100 * b[23] + 0x1_0000 * b[24] + 0x100_0000 * b[25];
            let longitude = b[26] + 0x100 * b[27] + 0x1_0000 * b[28] + 0x100_0000 * b[29];
            let course = b[34] + 0x100 * b[35];
            &&& telemetry_of(b) is Ok <==> {
                &&& latitude <= 900_000_000 || latitude >= 0x1_0000_0000 - 900_000_000 || latitude
                    == 0x8000_0000
                &&& longitude <= 1_800_000_000 || longitude >= 0x1_0000_0000 - 1_800_000_000
                    || longitude == 0x8000_0000
                &&& course < 36_000 || course == 0xFFFF
                &&& b[42] <= 200 || b[42] == 0xFF
                &&& b[43] <= 100 || b[43] == 0xFF
            }
        }),
{
    lemma_words(b, 3);
    lemma_words(b, 11);
    lemma_words(b, 15);
    lemma_words(b, 18);
    lemma_words(b, 22);
    lemma_words(b, 26);
    lemma_words(b, 30);
    lemma_words(b, 32);
    lemma_words(b, 34);
    lemma_words(b, 38);
    lemma_words(b, 40);
}

/// The six reasons for which a frame is refused have six different names.
pub proof fn law_names_of_errors_differ(a: DecodeError, b: DecodeError)
    requires
        a.spec_label()@ == b.spec_label()@,
    ensures
        a == b,
{
    reveal_strlit("WRONG_LENGTH");
    reveal_strlit("BAD_MARKER");
    reveal_strlit("UNSUPPORTED_VERSION");
    reveal_strlit("UNSUPPORTED_PACKET_TYPE");
    reveal_strlit("CRC_MISMATCH");
    reveal_strlit("INVALID_FIELD");
    let (s, t) = (a.spec_label()@, b.spec_label()@);
    assert(s.len() == t.len());
    assert(s[0] == t[0]);
}

/// The name of an error says what is wrong: the length, the marker, the version, the packet type,
/// the checksum or a field.
pub proof fn law_names_of_errors(error: DecodeError)
    ensures
        error is WrongLength <==> error.spec_label()@ == "WRONG_LENGTH"@,
        error is BadMarker <==> error.spec_label()@ == "BAD_MARKER"@,
        error is UnsupportedVersion <==> error.spec_label()@ == "UNSUPPORTED_VERSION"@,
        error is UnsupportedPacketType <==> error.spec_label()@ == "UNSUPPORTED_PACKET_TYPE"@,
        error is CrcMismatch <==> error.spec_label()@ == "CRC_MISMATCH"@,
        error is InvalidField <==> error.spec_label()@ == "INVALID_FIELD"@,
{
    reveal_strlit("WRONG_LENGTH");
    reveal_strlit("BAD_MARKER");
    reveal_strlit("UNSUPPORTED_VERSION");
    reveal_strlit("UNSUPPORTED_PACKET_TYPE");
    reveal_strlit("CRC_MISMATCH");
    reveal_strlit("INVALID_FIELD");
    assert("WRONG_LENGTH"@[0] == 'W' && "CRC_MISMATCH"@[0] == 'C');
    assert("WRONG_LENGTH"@.len() == 12 && "CRC_MISMATCH"@.len() == 12);
    assert("BAD_MARKER"@.len() == 10 && "INVALID_FIELD"@.len() == 13);
    assert("UNSUPPORTED_VERSION"@.len() == 19 && "UNSUPPORTED_PACKET_TYPE"@.len() == 23);
}

} // verus!
