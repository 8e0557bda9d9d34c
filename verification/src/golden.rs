//! A packet and its exact bytes, by which independent implementations of the format agree.
use vstd::prelude::*;

use crate::crc::{crc32, crc32_byte_steps, crc32_register, lemma_byte_steps};
use crate::le::le_bytes;
use crate::packet::{
    first_fault, law_decoding_undoes_encoding, law_one_changed_byte_is_refused, on_air_i32,
    telemetry_body, telemetry_bytes, DecodeError, GpsFixClass, TelemetryV1, TELEMETRY_V1_LEN,
};
use crate::sender_mode;

verus! {

/// The canonical 48 bytes.
pub const GOLDEN_TELEMETRY_V1: [u8; TELEMETRY_V1_LEN] = [
    0x47, 0x01, 0x11, 0x88, 0x77, 0x66, 0x55, 0x44,
    0x33, 0x22, 0x11, 0x42, 0x00, 0x00, 0xA0, 0x56,
    0x34, 0x12, 0x03, 0x02, 0x01, 0x69, 0xAA, 0xBF,
    0xC7, 0x14, 0xD4, 0x35, 0x0E, 0xCF, 0xF7, 0x00,
    0xD2, 0x04, 0xF3, 0x69, 0x4A, 0x0D, 0xE6, 0x09,
    0x94, 0x27, 0x5D, 0x48, 0x0A, 0x21, 0x1F, 0x98,
];

/// The packet that they carry.
pub open spec fn golden_packet() -> TelemetryV1 {
    TelemetryV1 {
        sender_mode: sender_mode::BEACON,
        sender_system_id: 0x1122_3344_5566_7788,
        survey_id: 0xA000_0042,
        sequence: 0x0012_3456,
        gps_unix_time: Some(0x6901_0203),
        latitude_e7: Some(348_635_050),
        longitude_e7: Some((-821_152_300) as i32),
        altitude_half_m: Some(247),
        speed_cm_s: Some(1_234),
        course_cdeg: Some(27_123),
        gps_fix_class: GpsFixClass::Standard,
        satellites: 10,
        hdop_tenths: Some(13),
        temperature_centi_c: Some(2_534),
        pressure_10pa: Some(10_132),
        humidity_half_percent: Some(93),
        battery_soc_percent: Some(72),
    }
}

/// Bytes 0 to 43, the ones that the checksum covers.
spec fn golden_covered() -> Seq<u8> {
    GOLDEN_TELEMETRY_V1@.take(44)
}

proof fn lemma_take_in(at: int, register: u32, byte: u8, next: u32)
    requires
        0 <= at < 44,
        golden_covered()[at] == byte,
        crc32_register(golden_covered().take(at)) == register,
        crc32_byte_steps(register, byte) == next,
    ensures
        crc32_register(golden_covered().take(at + 1)) == next,
{
    let data = golden_covered();
    lemma_byte_steps(register, byte);
    assert(data.take(at + 1).drop_last() =~= data.take(at));
    assert(data.take(at + 1).last() == byte);
}

/// The checksum register over the covered bytes, byte by byte.
proof fn lemma_golden_crc()
    ensures
        crc32(golden_covered()) == 0x981F_210Au32,
{
    assert(
        crc32_byte_steps(0xFFFFFFFFu32, 0x47u8) == 0xC545C441u32 &&
        crc32_byte_steps(0xC545C441u32, 0x01u8) == 0x76190454u32 &&
        crc32_byte_steps(0x76190454u32, 0x11u8) == 0x06C0AC1Bu32 &&
        crc32_byte_steps(0x06C0AC1Bu32, 0x88u8) == 0x69000252u32 &&
        crc32_byte_steps(0x69000252u32, 0x77u8) == 0x4B6DD445u32 &&
        crc32_byte_steps(0x4B6DD445u32, 0x66u8) == 0xA22C1CA6u32 &&
        crc32_byte_steps(0xA22C1CA6u32, 0x55u8) == 0x24168FBAu32 &&
        crc32_byte_steps(0x24168FBAu32, 0x44u8) == 0x5A21C994u32 &&
        crc32_byte_steps(0x5A21C994u32, 0x33u8) == 0x48E81782u32 &&
        crc32_byte_steps(0x48E81782u32, 0x22u8) == 0xD69E4BFFu32 &&
        crc32_byte_steps(0xD69E4BFFu32, 0x11u8) == 0x47645134u32 &&
        crc32_byte_steps(0x47645134u32, 0x42u8) == 0xB921B058u32 &&
        crc32_byte_steps(0xB921B058u32, 0x00u8) == 0x6509F876u32 &&
        crc32_byte_steps(0x6509F876u32, 0x00u8) == 0xB903DDF1u32 &&
        crc32_byte_steps(0xB903DDF1u32, 0xA0u8) == 0x1CD562BFu32 &&
        crc32_byte_steps(0x1CD562BFu32, 0x56u8) == 0xD9CA8FBEu32 &&
        crc32_byte_steps(0xD9CA8FBEu32, 0x34u8) == 0x0DB4A0B1u32 &&
        crc32_byte_steps(0x0DB4A0B1u32, 0x12u8) == 0x4FD246F2u32 &&
        crc32_byte_steps(0x4FD246F2u32, 0x03u8) == 0xCAF510CCu32 &&
        crc32_byte_steps(0xCAF510CCu32, 0x02u8) == 0x7C161AA7u32 &&
        crc32_byte_steps(0x7C161AA7u32, 0x01u8) == 0x3FC910C7u32 &&
        crc32_byte_steps(0x3FC910C7u32, 0x69u8) == 0x315147FFu32 &&
        crc32_byte_steps(0x315147FFu32, 0xAAu8) == 0x1B30F43Cu32 &&
        crc32_byte_steps(0x1B30F43Cu32, 0xBFu8) == 0x74AAE26Eu32 &&
        crc32_byte_steps(0x74AAE26Eu32, 0xC7u8) == 0xAF7EB1AEu32 &&
        crc32_byte_steps(0xAF7EB1AEu32, 0x14u8) == 0x2B1B2423u32 &&
        crc32_byte_steps(0x2B1B2423u32, 0xD4u8) == 0x23F27C9Bu32 &&
        crc32_byte_steps(0x23F27C9Bu32, 0x35u8) == 0x314D7C93u32 &&
        crc32_byte_steps(0x314D7C93u32, 0x0Eu8) == 0x8E8FA285u32 &&
        crc32_byte_steps(0x8E8FA285u32, 0xCFu8) == 0x9687272Cu32 &&
        crc32_byte_steps(0x9687272Cu32, 0xF7u8) == 0x11978C7Bu32 &&
        crc32_byte_steps(0x11978C7Bu32, 0x00u8) == 0xC7C63F38u32 &&
        crc32_byte_steps(0xC7C63F38u32, 0xD2u8) == 0x4018CD59u32 &&
        crc32_byte_steps(0x4018CD59u32, 0x04u8) == 0x159A3584u32 &&
        crc32_byte_steps(0x159A3584u32, 0xF3u8) == 0xCE747EAAu32 &&
        crc32_byte_steps(0xCE747EAAu32, 0x69u8) == 0x02A3E774u32 &&
        crc32_byte_steps(0x02A3E774u32, 0x4Au8) == 0xC163BE4Cu32 &&
        crc32_byte_steps(0xC163BE4Cu32, 0x0Du8) == 0x011A12B8u32 &&
        crc32_byte_steps(0x011A12B8u32, 0xE6u8) == 0x8CD266E1u32 &&
        crc32_byte_steps(0x8CD266E1u32, 0x09u8) == 0xAE5DB82Cu32 &&
        crc32_byte_steps(0xAE5DB82Cu32, 0x94u8) == 0xC5146606u32 &&
        crc32_byte_steps(0xC5146606u32, 0x27u8) == 0x4CAC0438u32 &&
        crc32_byte_steps(0x4CAC0438u32, 0x5Du8) == 0x3D9439D3u32 &&
        crc32_byte_steps(0x3D9439D3u32, 0x48u8) == 0x67E0DEF5u32
    ) by (bit_vector);
    assert(!0x67E0_DEF5u32 == 0x981F_210Au32) by (bit_vector);
    assert(golden_covered().take(0) =~= Seq::empty());
    lemma_take_in(0, 0xFFFFFFFFu32, 0x47u8, 0xC545C441u32);
    lemma_take_in(1, 0xC545C441u32, 0x01u8, 0x76190454u32);
    lemma_take_in(2, 0x76190454u32, 0x11u8, 0x06C0AC1Bu32);
    lemma_take_in(3, 0x06C0AC1Bu32, 0x88u8, 0x69000252u32);
    lemma_take_in(4, 0x69000252u32, 0x77u8, 0x4B6DD445u32);
    lemma_take_in(5, 0x4B6DD445u32, 0x66u8, 0xA22C1CA6u32);
    lemma_take_in(6, 0xA22C1CA6u32, 0x55u8, 0x24168FBAu32);
    lemma_take_in(7, 0x24168FBAu32, 0x44u8, 0x5A21C994u32);
    lemma_take_in(8, 0x5A21C994u32, 0x33u8, 0x48E81782u32);
    lemma_take_in(9, 0x48E81782u32, 0x22u8, 0xD69E4BFFu32);
    lemma_take_in(10, 0xD69E4BFFu32, 0x11u8, 0x47645134u32);
    lemma_take_in(11, 0x47645134u32, 0x42u8, 0xB921B058u32);
    lemma_take_in(12, 0xB921B058u32, 0x00u8, 0x6509F876u32);
    lemma_take_in(13, 0x6509F876u32, 0x00u8, 0xB903DDF1u32);
    lemma_take_in(14, 0xB903DDF1u32, 0xA0u8, 0x1CD562BFu32);
    lemma_take_in(15, 0x1CD562BFu32, 0x56u8, 0xD9CA8FBEu32);
    lemma_take_in(16, 0xD9CA8FBEu32, 0x34u8, 0x0DB4A0B1u32);
    lemma_take_in(17, 0x0DB4A0B1u32, 0x12u8, 0x4FD246F2u32);
    lemma_take_in(18, 0x4FD246F2u32, 0x03u8, 0xCAF510CCu32);
    lemma_take_in(19, 0xCAF510CCu32, 0x02u8, 0x7C161AA7u32);
    lemma_take_in(20, 0x7C161AA7u32, 0x01u8, 0x3FC910C7u32);
    lemma_take_in(21, 0x3FC910C7u32, 0x69u8, 0x315147FFu32);
    lemma_take_in(22, 0x315147FFu32, 0xAAu8, 0x1B30F43Cu32);
    lemma_take_in(23, 0x1B30F43Cu32, 0xBFu8, 0x74AAE26Eu32);
    lemma_take_in(24, 0x74AAE26Eu32, 0xC7u8, 0xAF7EB1AEu32);
    lemma_take_in(25, 0xAF7EB1AEu32, 0x14u8, 0x2B1B2423u32);
    lemma_take_in(26, 0x2B1B2423u32, 0xD4u8, 0x23F27C9Bu32);
    lemma_take_in(27, 0x23F27C9Bu32, 0x35u8, 0x314D7C93u32);
    lemma_take_in(28, 0x314D7C93u32, 0x0Eu8, 0x8E8FA285u32);
    lemma_take_in(29, 0x8E8FA285u32, 0xCFu8, 0x9687272Cu32);
    lemma_take_in(30, 0x9687272Cu32, 0xF7u8, 0x11978C7Bu32);
    lemma_take_in(31, 0x11978C7Bu32, 0x00u8, 0xC7C63F38u32);
    lemma_take_in(32, 0xC7C63F38u32, 0xD2u8, 0x4018CD59u32);
    lemma_take_in(33, 0x4018CD59u32, 0x04u8, 0x159A3584u32);
    lemma_take_in(34, 0x159A3584u32, 0xF3u8, 0xCE747EAAu32);
    lemma_take_in(35, 0xCE747EAAu32, 0x69u8, 0x02A3E774u32);
    lemma_take_in(36, 0x02A3E774u32, 0x4Au8, 0xC163BE4Cu32);
    lemma_take_in(37, 0xC163BE4Cu32, 0x0Du8, 0x011A12B8u32);
    lemma_take_in(38, 0x011A12B8u32, 0xE6u8, 0x8CD266E1u32);
    lemma_take_in(39, 0x8CD266E1u32, 0x09u8, 0xAE5DB82Cu32);
    lemma_take_in(40, 0xAE5DB82Cu32, 0x94u8, 0xC5146606u32);
    lemma_take_in(41, 0xC5146606u32, 0x27u8, 0x4CAC0438u32);
    lemma_take_in(42, 0x4CAC0438u32, 0x5Du8, 0x3D9439D3u32);
    lemma_take_in(43, 0x3D9439D3u32, 0x48u8, 0x67E0DEF5u32);
    assert(golden_covered().take(44) =~= golden_covered());
}

/// The golden bytes are what the golden packet is written as.
pub proof fn law_golden_bytes()
    ensures
        first_fault(golden_packet()) is None,
        telemetry_bytes(golden_packet()) == GOLDEN_TELEMETRY_V1@,
{
    reveal_with_fuel(le_bytes, 9);
    let p = golden_packet();
    assert(on_air_i32(p.longitude_e7) == 3_473_814_996);
    assert(telemetry_body(p) =~= golden_covered());
    lemma_golden_crc();
    assert(telemetry_bytes(p) =~= GOLDEN_TELEMETRY_V1@);
}

/// Whether the two arrays hold the same bytes.
fn same_bytes(a: &[u8; TELEMETRY_V1_LEN], b: &[u8; TELEMETRY_V1_LEN]) -> (same: bool)
    ensures
        same == (a@ == b@),
{
    let mut i: usize = 0;
    while i < TELEMETRY_V1_LEN
        invariant
            i <= TELEMETRY_V1_LEN,
            forall|j: int| 0 <= j < i ==> a@[j] == b@[j],
        decreases TELEMETRY_V1_LEN - i,
    {
        if a[i] != b[i] {
            assert(a@[i as int] != b@[i as int]);
            return false;
        }
        i = i + 1;
    }
    assert(a@ =~= b@);
    true
}

/// Codec check to run on the device: encoding gives the canonical bytes, decoding gives the
/// packet back, and one flipped payload bit is refused by the checksum.
///
/// It never fails: what it tests is proved of the codec.
pub fn golden_self_test() -> (passed: bool)
    ensures
        passed,
{
    let packet = TelemetryV1 {
        sender_mode: sender_mode::BEACON,
        sender_system_id: 0x1122_3344_5566_7788,
        survey_id: 0xA000_0042,
        sequence: 0x0012_3456,
        gps_unix_time: Some(0x6901_0203),
        latitude_e7: Some(348_635_050),
        longitude_e7: Some(-821_152_300),
        altitude_half_m: Some(247),
        speed_cm_s: Some(1_234),
        course_cdeg: Some(27_123),
        gps_fix_class: GpsFixClass::Standard,
        satellites: 10,
        hdop_tenths: Some(13),
        temperature_centi_c: Some(2_534),
        pressure_10pa: Some(10_132),
        humidity_half_percent: Some(93),
        battery_soc_percent: Some(72),
    };
    proof {
        law_golden_bytes();
        law_decoding_undoes_encoding(golden_packet());
        assert(packet == golden_packet());
    }
    let encoded = match packet.encode() {
        Ok(encoded) => encoded,
        Err(_) => return false,
    };
    let golden: [u8; TELEMETRY_V1_LEN] = GOLDEN_TELEMETRY_V1;
    if !same_bytes(&encoded, &golden) {
        return false;
    }
    let decoded = match TelemetryV1::decode(golden.as_slice()) {
        Ok(decoded) => decoded,
        Err(_) => return false,
    };
    if decoded != packet {
        return false;
    }
    let mut corrupted: [u8; TELEMETRY_V1_LEN] = GOLDEN_TELEMETRY_V1;
    let flipped: u8 = corrupted[22] ^ 0x01;
    proof {
        assert(0xAAu8 ^ 0x01 == 0xABu8) by (bit_vector);
    }
    corrupted[22] = flipped;
    proof {
        law_one_changed_byte_is_refused(golden@, 22, 0xAB);
        assert(corrupted@ =~= golden@.update(22, 0xAB));
    }
    match TelemetryV1::decode(corrupted.as_slice()) {
        Err(DecodeError::CrcMismatch) => true,
        _ => false,
    }
}

} // verus!
