//! The position receiver: its newest state, and how sentences change it.
use vstd::prelude::*;
use vstd::utf8::encode_utf8;

use crate::nmea::{
    altitude_half_m, coordinate_e7, course_cdeg, field, field_text, hdop_tenths,
    law_commas_part_fields, law_coordinates_stay_on_the_globe, parse_altitude_half_m,
    parse_coordinate_e7, parse_course_cdeg, parse_hdop_tenths, parse_rmc_unix_ms,
    parse_speed_cm_s, parse_u8, rmc_unix_ms, speed_cm_s, split_field, u8_text,
};
use crate::text::{byte_len, lemma_encode_ascii, lemma_encode_push, same_bytes, Text};

verus! {

/// The speed of the serial line.
pub const GPS_BAUDRATE: u32 = 9_600;

/// The size of the serial line's receive buffer.
pub const UART_RX_BUFFER_SIZE: usize = 256;

/// The longest sentence that is assembled.
pub const NMEA_LINE_CAPACITY: usize = 160;

/// The newest that is known of the own position. It holds more than the display shows, so that
/// the path can be logged while nothing is heard on the radio.
#[derive(Clone, Copy, Debug, PartialEq, Eq, Structural)]
pub struct GpsState {
    pub online: bool,
    pub fix: bool,
    pub latitude_e7: Option<i32>,
    pub longitude_e7: Option<i32>,
    pub satellites: Option<u8>,
    pub altitude_half_m: Option<i16>,
    pub speed_cm_s: Option<u16>,
    pub course_cdeg: Option<u16>,
    pub hdop_tenths: Option<u8>,
    pub utc_unix_ms: Option<u64>,
}

/// The state before any sentence was heard.
pub open spec fn offline_state() -> GpsState {
    GpsState {
        online: false,
        fix: false,
        latitude_e7: None,
        longitude_e7: None,
        satellites: None,
        altitude_half_m: None,
        speed_cm_s: None,
        course_cdeg: None,
        hdop_tenths: None,
        utc_unix_ms: None,
    }
}

impl GpsState {
    pub fn offline() -> (state: Self)
        ensures
            state == offline_state(),
            state.wf(),
    {
        GpsState {
            online: false,
            fix: false,
            latitude_e7: None,
            longitude_e7: None,
            satellites: None,
            altitude_half_m: None,
            speed_cm_s: None,
            course_cdeg: None,
            hdop_tenths: None,
            utc_unix_ms: None,
        }
    }

    /// There is a fix only of a receiver that is online, a position is there exactly while there
    /// is a fix, both of its parts lie on the globe, and a course is under a full turn.
    pub open spec fn wf(self) -> bool {
        &&& self.fix ==> self.online
        &&& self.fix <==> self.latitude_e7 is Some
        &&& self.fix <==> self.longitude_e7 is Some
        &&& self.latitude_e7 matches Some(e7) ==> -1_800_000_000 <= e7 <= 1_800_000_000
        &&& self.longitude_e7 matches Some(e7) ==> -1_800_000_000 <= e7 <= 1_800_000_000
        &&& self.course_cdeg matches Some(cdeg) ==> cdeg < 36_000
    }
}

/// Whether a line is a GGA sentence, of the `GP` or the `GN` talker.
pub open spec fn is_gga(line: Seq<u8>) -> bool {
    field(line, 0) == encode_utf8("$GPGGA"@) || field(line, 0) == encode_utf8("$GNGGA"@)
}

/// Whether a line is an RMC sentence, of the `GP` or the `GN` talker.
pub open spec fn is_rmc(line: Seq<u8>) -> bool {
    field(line, 0) == encode_utf8("$GPRMC"@) || field(line, 0) == encode_utf8("$GNRMC"@)
}

/// Whether a GGA sentence reports a fix: its quality is a number other than 0.
pub open spec fn gga_has_fix(line: Seq<u8>) -> bool {
    u8_text(field(line, 6)) matches Some(quality) && quality != 0
}

/// Whether an RMC sentence reports a fix.
pub open spec fn rmc_has_fix(line: Seq<u8>) -> bool {
    field(line, 2) == encode_utf8("A"@)
}

/// The position that a sentence gives in four fields from `index` on, where both of its parts can
/// be read.
pub open spec fn position_at(line: Seq<u8>, index: nat) -> Option<(i32, i32)> {
    match (
        coordinate_e7(field(line, index), field(line, index + 1)),
        coordinate_e7(field(line, index + 2), field(line, index + 3)),
    ) {
        (Some(latitude), Some(longitude)) => Some((latitude, longitude)),
        _ => None,
    }
}

/// A state's fix and position after a sentence: none where the sentence reports no fix, the new
/// one where it can be read, the one before where it cannot.
pub open spec fn with_position(
    state: GpsState,
    has_fix: bool,
    position: Option<(i32, i32)>,
) -> GpsState {
    if !has_fix {
        GpsState { fix: false, latitude_e7: None, longitude_e7: None, ..state }
    } else {
        match position {
            Some((latitude, longitude)) => GpsState {
                fix: true,
                latitude_e7: Some(latitude),
                longitude_e7: Some(longitude),
                ..state
            },
            None => state,
        }
    }
}

/// What a GGA sentence makes of the state: it reports fix, position, satellites, dilution of
/// precision and altitude.
pub open spec fn after_gga(line: Seq<u8>, state: GpsState) -> GpsState {
    with_position(
        GpsState {
            online: true,
            satellites: u8_text(field(line, 7)),
            hdop_tenths: hdop_tenths(field(line, 8)),
            altitude_half_m: altitude_half_m(field(line, 9)),
            ..state
        },
        gga_has_fix(line),
        position_at(line, 2),
    )
}

/// What an RMC sentence makes of the state: it reports the time, fix, position, speed and
/// course. A time that cannot be read leaves the one before.
pub open spec fn after_rmc(line: Seq<u8>, state: GpsState) -> GpsState {
    let timed = GpsState {
        online: true,
        utc_unix_ms: match rmc_unix_ms(field(line, 9), field(line, 1)) {
            Some(unix_ms) => Some(unix_ms),
            None => state.utc_unix_ms,
        },
        ..state
    };
    with_position(
        GpsState {
            speed_cm_s: if rmc_has_fix(line) {
                speed_cm_s(field(line, 7))
            } else {
                None
            },
            course_cdeg: if rmc_has_fix(line) {
                course_cdeg(field(line, 8))
            } else {
                None
            },
            ..timed
        },
        rmc_has_fix(line),
        position_at(line, 3),
    )
}

/// What any line makes of the state.
pub open spec fn after_line(line: Seq<u8>, state: GpsState) -> GpsState {
    if is_gga(line) {
        after_gga(line, state)
    } else if is_rmc(line) {
        after_rmc(line, state)
    } else {
        state
    }
}

/// Reads the position in four fields from `index` on.
fn parse_position(line: &[u8], index: usize) -> (position: Option<(i32, i32)>)
    requires
        index < 100,
    ensures
        position == position_at(line@, index as nat),
{
    match (
        parse_coordinate_e7(field_text(line, index), field_text(line, index + 1)),
        parse_coordinate_e7(field_text(line, index + 2), field_text(line, index + 3)),
    ) {
        (Some(latitude), Some(longitude)) => Some((latitude, longitude)),
        _ => None,
    }
}

/// Sets fix and position as a sentence reports them.
fn set_position(state: &mut GpsState, has_fix: bool, position: Option<(i32, i32)>)
    ensures
        *final(state) == with_position(*old(state), has_fix, position),
{
    if !has_fix {
        state.fix = false;
        state.latitude_e7 = None;
        state.longitude_e7 = None;
    } else {
        match position {
            Some((latitude, longitude)) => {
                state.fix = true;
                state.latitude_e7 = Some(latitude);
                state.longitude_e7 = Some(longitude);
            },
            None => {},
        }
    }
}

/// Takes what a GGA sentence reports into the state. `false`, and nothing changed, for any other
/// line.
pub fn apply_gga(line: &str, state: &mut GpsState) -> (updated: bool)
    ensures
        updated == is_gga(encode_utf8(line@)),
        *final(state) == (if updated {
            after_gga(encode_utf8(line@), *old(state))
        } else {
            *old(state)
        }),
{
    let bytes = line.as_bytes();
    let sentence = field_text(bytes, 0);
    if !same_bytes(sentence, "$GPGGA".as_bytes()) && !same_bytes(sentence, "$GNGGA".as_bytes()) {
        return false;
    }
    let has_fix: bool = match parse_u8(field_text(bytes, 6)) {
        Some(quality) => quality != 0,
        None => false,
    };
    state.online = true;
    state.satellites = parse_u8(field_text(bytes, 7));
    state.hdop_tenths = parse_hdop_tenths(field_text(bytes, 8));
    state.altitude_half_m = parse_altitude_half_m(field_text(bytes, 9));
    set_position(state, has_fix, parse_position(bytes, 2));
    true
}

/// Takes what an RMC sentence reports into the state. `false`, and nothing changed, for any other
/// line.
pub fn apply_rmc(line: &str, state: &mut GpsState) -> (updated: bool)
    ensures
        updated == is_rmc(encode_utf8(line@)),
        *final(state) == (if updated {
            after_rmc(encode_utf8(line@), *old(state))
        } else {
            *old(state)
        }),
{
    let bytes = line.as_bytes();
    let sentence = field_text(bytes, 0);
    if !same_bytes(sentence, "$GPRMC".as_bytes()) && !same_bytes(sentence, "$GNRMC".as_bytes()) {
        return false;
    }
    let has_fix: bool = same_bytes(field_text(bytes, 2), "A".as_bytes());
    state.online = true;
    match parse_rmc_unix_ms(field_text(bytes, 9), field_text(bytes, 1)) {
        Some(unix_ms) => {
            state.utc_unix_ms = Some(unix_ms);
        },
        None => {},
    }
    if has_fix {
        state.speed_cm_s = parse_speed_cm_s(field_text(bytes, 7));
        state.course_cdeg = parse_course_cdeg(field_text(bytes, 8));
    } else {
        state.speed_cm_s = None;
        state.course_cdeg = None;
    }
    set_position(state, has_fix, parse_position(bytes, 3));
    true
}

/// Whatever line is heard, the state stays in order.
pub proof fn law_lines_keep_the_state_in_order(line: Seq<u8>, state: GpsState)
    requires
        state.wf(),
    ensures
        after_line(line, state).wf(),
{
    law_coordinates_stay_on_the_globe(field(line, 2), field(line, 3));
    law_coordinates_stay_on_the_globe(field(line, 4), field(line, 5));
    law_coordinates_stay_on_the_globe(field(line, 3), field(line, 4));
    law_coordinates_stay_on_the_globe(field(line, 5), field(line, 6));
}

/// A time once known is kept: no line takes it away, not even one that reports no fix.
pub proof fn law_time_is_kept(line: Seq<u8>, state: GpsState)
    ensures
        state.utc_unix_ms is Some ==> after_line(line, state).utc_unix_ms is Some,
{
}

/// An RMC sentence whose date and time can be read sets the time, with a fix or without.
pub proof fn law_time_needs_no_fix(line: Seq<u8>, state: GpsState)
    requires
        is_rmc(line),
        rmc_unix_ms(field(line, 9), field(line, 1)) is Some,
    ensures
        after_rmc(line, state).utc_unix_ms == rmc_unix_ms(field(line, 9), field(line, 1)),
{
}

/// The two kinds of sentences keep to their own parts of the state: a GGA sentence leaves time,
/// speed and course, an RMC sentence leaves satellites, dilution of precision and altitude.
pub proof fn law_sentences_merge(line: Seq<u8>, state: GpsState)
    ensures
        ({
            let next = after_gga(line, state);
            &&& next.utc_unix_ms == state.utc_unix_ms
            &&& next.speed_cm_s == state.speed_cm_s
            &&& next.course_cdeg == state.course_cdeg
        }),
        ({
            let next = after_rmc(line, state);
            &&& next.satellites == state.satellites
            &&& next.hdop_tenths == state.hdop_tenths
            &&& next.altitude_half_m == state.altitude_half_m
        }),
{
}

/// What came of one byte from the serial line.
#[derive(Clone, Copy, Debug, PartialEq, Eq, Structural)]
pub enum Heard {
    /// The line goes on, or an empty one ended.
    Nothing,
    /// A line ended; the new state where the line changed it.
    Line(Option<GpsState>),
    /// The line grew too long and was dropped, with this byte.
    Overflow,
    /// The byte is no character of the 7-bit range and was dropped.
    NotAscii,
}

/// Assembles lines from the bytes of the serial line and keeps the newest state.
pub struct GpsReceiver {
    pub line: Text<NMEA_LINE_CAPACITY>,
    pub state: GpsState,
}

impl GpsReceiver {
    pub fn new() -> (receiver: Self)
        ensures
            receiver.line@ == Seq::<char>::empty(),
            receiver.state == offline_state(),
    {
        GpsReceiver { line: Text::new(), state: GpsState::offline() }
    }

    /// Takes one byte. A line feed ends a line, a carriage return counts for nothing.
    pub fn accept(&mut self, byte: u8) -> (heard: Heard)
        ensures
            heard == heard_of(old(self).line@, old(self).state, byte),
            final(self).line@ == line_after(old(self).line@, byte),
            final(self).state == state_after(old(self).line@, old(self).state, byte),
    {
        if byte == 0x0A {
            if self.line.is_empty() {
                assert(self.line@ =~= Seq::<char>::empty());
                return Heard::Nothing;
            }
            let updated: bool = {
                let line = self.line.as_str();
                let gga: bool = apply_gga(line, &mut self.state);
                gga || apply_rmc(line, &mut self.state)
            };
            self.line.clear();
            if updated {
                Heard::Line(Some(self.state))
            } else {
                Heard::Line(None)
            }
        } else if byte == 0x0D {
            Heard::Nothing
        } else if byte < 0x80 {
            let c: char = byte as char;
            proof {
                lemma_encode_ascii(c);
            }
            if self.line.push(c) {
                Heard::Nothing
            } else {
                self.line.clear();
                Heard::Overflow
            }
        } else {
            Heard::NotAscii
        }
    }
}

/// The part of a line that is held after one more byte.
pub open spec fn line_after(line: Seq<char>, byte: u8) -> Seq<char> {
    if byte == 0x0A {
        Seq::empty()
    } else if byte == 0x0D || byte >= 0x80 {
        line
    } else if byte_len(line) < NMEA_LINE_CAPACITY {
        line.push(byte as char)
    } else {
        Seq::empty()
    }
}

/// The state after one more byte: a line feed applies the line held.
pub open spec fn state_after(line: Seq<char>, state: GpsState, byte: u8) -> GpsState {
    if byte == 0x0A && line.len() > 0 {
        after_line(encode_utf8(line), state)
    } else {
        state
    }
}

/// What comes of one more byte.
pub open spec fn heard_of(line: Seq<char>, state: GpsState, byte: u8) -> Heard {
    if byte == 0x0A {
        if line.len() == 0 {
            Heard::Nothing
        } else if is_gga(encode_utf8(line)) || is_rmc(encode_utf8(line)) {
            Heard::Line(Some(after_line(encode_utf8(line), state)))
        } else {
            Heard::Line(None)
        }
    } else if byte == 0x0D {
        Heard::Nothing
    } else if byte >= 0x80 {
        Heard::NotAscii
    } else if byte_len(line) < NMEA_LINE_CAPACITY {
        Heard::Nothing
    } else {
        Heard::Overflow
    }
}

/// The line held after some bytes, one after the other.
pub open spec fn line_after_all(line: Seq<char>, bytes: Seq<u8>) -> Seq<char>
    decreases bytes.len(),
{
    if bytes.len() == 0 {
        line
    } else {
        line_after(line_after_all(line, bytes.drop_last()), bytes.last())
    }
}

/// Whether bytes can be a line: 7-bit characters without line feed and carriage return, no more
/// than are assembled.
pub open spec fn is_line(bytes: Seq<u8>) -> bool {
    bytes.len() <= NMEA_LINE_CAPACITY && forall|i: int|
        0 <= i < bytes.len() ==> bytes[i] < 0x80 && bytes[i] != 0x0A && bytes[i] != 0x0D
}

/// The bytes of a line, heard one by one from an empty line on, are held as they came: what the
/// line feed behind them applies is that line.
pub proof fn law_line_is_assembled(bytes: Seq<u8>)
    requires
        is_line(bytes),
    ensures
        encode_utf8(line_after_all(Seq::empty(), bytes)) == bytes,
    decreases bytes.len(),
{
    if bytes.len() == 0 {
        assert(encode_utf8(Seq::<char>::empty()) =~= bytes);
    } else {
        let front = bytes.drop_last();
        assert(is_line(front)) by {
            assert forall|i: int| 0 <= i < front.len() implies front[i] < 0x80 && front[i] != 0x0A
                && front[i] != 0x0D by {
                assert(front[i] == bytes[i]);
            }
        }
        law_line_is_assembled(front);
        let held = line_after_all(Seq::empty(), front);
        let c = bytes.last() as char;
        lemma_encode_push(held, c);
        lemma_encode_ascii(c);
        assert(bytes =~= front.push(bytes.last()));
    }
}

/// Fields with a comma between each and the next.
pub open spec fn sentence(fields: Seq<Seq<u8>>) -> Seq<u8>
    decreases fields.len(),
{
    if fields.len() == 0 {
        Seq::empty()
    } else if fields.len() == 1 {
        fields[0]
    } else {
        fields[0] + seq![0x2Cu8] + sentence(fields.drop_first())
    }
}

/// Whether a comma occurs in none of the fields.
pub open spec fn no_commas(fields: Seq<Seq<u8>>) -> bool {
    forall|k: int, i: int|
        0 <= k < fields.len() && 0 <= i < fields[k].len() ==> #[trigger] fields[k][i] != 0x2C
}

/// The fields of a sentence are those that it was made of.
pub proof fn lemma_fields_of_a_sentence(fields: Seq<Seq<u8>>, k: nat)
    requires
        no_commas(fields),
        k < fields.len(),
    ensures
        field(sentence(fields), k) == fields[k as int],
        split_field(sentence(fields), k) is Some,
    decreases fields.len(),
{
    let first = fields[0];
    assert forall|i: int| 0 <= i < first.len() implies #[trigger] first[i] != 0x2C by {
        assert(fields[0][i] != 0x2C);
    }
    let rest = fields.drop_first();
    law_commas_part_fields(first, sentence(rest), (if k == 0 {
        0
    } else {
        k - 1
    }) as nat);
    if k > 0 {
        assert(no_commas(rest)) by {
            assert forall|m: int, i: int|
                0 <= m < rest.len() && 0 <= i < rest[m].len() implies #[trigger] rest[m][i]
                != 0x2C by {
                assert(fields[m + 1][i] != 0x2C);
            }
        }
        lemma_fields_of_a_sentence(rest, (k - 1) as nat);
    }
}

/// The names of the sentences, byte by byte.
pub proof fn lemma_names_of_sentences()
    ensures
        encode_utf8("$GPGGA"@) == seq![0x24u8, 0x47u8, 0x50u8, 0x47u8, 0x47u8, 0x41u8],
        encode_utf8("$GNGGA"@) == seq![0x24u8, 0x47u8, 0x4Eu8, 0x47u8, 0x47u8, 0x41u8],
        encode_utf8("$GPRMC"@) == seq![0x24u8, 0x47u8, 0x50u8, 0x52u8, 0x4Du8, 0x43u8],
        encode_utf8("$GNRMC"@) == seq![0x24u8, 0x47u8, 0x4Eu8, 0x52u8, 0x4Du8, 0x43u8],
        encode_utf8("A"@) == seq![0x41u8],
{
    reveal_strlit("$GPGGA");
    reveal_strlit("$GNGGA");
    reveal_strlit("$GPRMC");
    reveal_strlit("$GNRMC");
    reveal_strlit("A");
    lemma_encode_plain("$GPGGA"@);
    lemma_encode_plain("$GNGGA"@);
    lemma_encode_plain("$GPRMC"@);
    lemma_encode_plain("$GNRMC"@);
    lemma_encode_plain("A"@);
    assert(encode_utf8("$GPGGA"@) =~= seq![0x24u8, 0x47u8, 0x50u8, 0x47u8, 0x47u8, 0x41u8]);
    assert(encode_utf8("$GNGGA"@) =~= seq![0x24u8, 0x47u8, 0x4Eu8, 0x47u8, 0x47u8, 0x41u8]);
    assert(encode_utf8("$GPRMC"@) =~= seq![0x24u8, 0x47u8, 0x50u8, 0x52u8, 0x4Du8, 0x43u8]);
    assert(encode_utf8("$GNRMC"@) =~= seq![0x24u8, 0x47u8, 0x4Eu8, 0x52u8, 0x4Du8, 0x43u8]);
    assert(encode_utf8("A"@) =~= seq![0x41u8]);
}

/// Characters of the 7-bit range are their own bytes.
proof fn lemma_encode_plain(s: Seq<char>)
    requires
        forall|i: int| 0 <= i < s.len() ==> (#[trigger] s[i] as u32) < 0x80,
    ensures
        encode_utf8(s).len() == s.len(),
        forall|i: int| 0 <= i < s.len() ==> #[trigger] encode_utf8(s)[i] == s[i] as u8,
    decreases s.len(),
{
    if s.len() == 0 {
        assert(encode_utf8(s) =~= Seq::<u8>::empty());
    } else {
        let front = s.drop_last();
        assert forall|i: int| 0 <= i < front.len() implies (#[trigger] front[i] as u32) < 0x80 by {
            assert(front[i] == s[i]);
        }
        lemma_encode_plain(front);
        lemma_encode_push(front, s.last());
        assert((s[s.len() - 1] as u32) < 0x80);
        lemma_encode_ascii(s.last());
        assert(front.push(s.last()) =~= s);
    }
}

/// What the fields of a GGA sentence make of the state: field 2 and 3 are the latitude and its
/// letter, 4 and 5 the longitude and its letter, 6 the quality of the fix, 7 the satellites, 8 the
/// dilution and 9 the altitude. A quality of 0, or none, means that there is no fix and no
/// position. With a fix, a position that can be read is the new one, and one that cannot leaves the
/// one before. Nothing else changes.
pub proof fn law_fields_of_gga(fields: Seq<Seq<u8>>, state: GpsState)
    requires
        fields.len() >= 10,
        no_commas(fields),
        fields[0] == seq![0x24u8, 0x47u8, 0x50u8, 0x47u8, 0x47u8, 0x41u8] || fields[0] == seq![
            0x24u8,
            0x47u8,
            0x4Eu8,
            0x47u8,
            0x47u8,
            0x41u8,
        ],
    ensures
        ({
            let next = after_line(sentence(fields), state);
            let quality = u8_text(fields[6]);
            let latitude = coordinate_e7(fields[2], fields[3]);
            let longitude = coordinate_e7(fields[4], fields[5]);
            &&& next.online
            &&& next.satellites == u8_text(fields[7])
            &&& next.hdop_tenths == hdop_tenths(fields[8])
            &&& next.altitude_half_m == altitude_half_m(fields[9])
            &&& next.utc_unix_ms == state.utc_unix_ms
            &&& next.speed_cm_s == state.speed_cm_s
            &&& next.course_cdeg == state.course_cdeg
            &&& quality is None || quality == Some(0u8) ==> !next.fix && next.latitude_e7 is None
                && next.longitude_e7 is None
            &&& quality is Some && quality->0 > 0 && latitude is Some && longitude is Some
                ==> next.fix && next.latitude_e7 == latitude && next.longitude_e7 == longitude
            &&& quality is Some && quality->0 > 0 && (latitude is None || longitude is None)
                ==> next.fix == state.fix && next.latitude_e7 == state.latitude_e7
                && next.longitude_e7 == state.longitude_e7
        }),
{
    lemma_names_of_sentences();
    lemma_fields_of_a_sentence(fields, 0);
    lemma_fields_of_a_sentence(fields, 2);
    lemma_fields_of_a_sentence(fields, 3);
    lemma_fields_of_a_sentence(fields, 4);
    lemma_fields_of_a_sentence(fields, 5);
    lemma_fields_of_a_sentence(fields, 6);
    lemma_fields_of_a_sentence(fields, 7);
    lemma_fields_of_a_sentence(fields, 8);
    lemma_fields_of_a_sentence(fields, 9);
}

/// What the fields of an RMC sentence make of the state: field 1 is the time and 9 the date, 2 is
/// `A` with a fix, 3 and 4 are the latitude and its letter, 5 and 6 the longitude and its letter, 7
/// is the speed and 8 the course. Without a fix there are no position, speed and course. With a
/// fix, a position that can be read is the new one, and one that cannot leaves the one before. A
/// time that can be read is the new one, with a fix or without. Nothing else changes.
pub proof fn law_fields_of_rmc(fields: Seq<Seq<u8>>, state: GpsState)
    requires
        fields.len() >= 10,
        no_commas(fields),
        fields[0] == seq![0x24u8, 0x47u8, 0x50u8, 0x52u8, 0x4Du8, 0x43u8] || fields[0] == seq![
            0x24u8,
            0x47u8,
            0x4Eu8,
            0x52u8,
            0x4Du8,
            0x43u8,
        ],
    ensures
        ({
            let next = after_line(sentence(fields), state);
            let valid = fields[2] == seq![0x41u8];
            let latitude = coordinate_e7(fields[3], fields[4]);
            let longitude = coordinate_e7(fields[5], fields[6]);
            let time = rmc_unix_ms(fields[9], fields[1]);
            &&& next.online
            &&& next.satellites == state.satellites
            &&& next.hdop_tenths == state.hdop_tenths
            &&& next.altitude_half_m == state.altitude_half_m
            &&& time is Some ==> next.utc_unix_ms == time
            &&& time is None ==> next.utc_unix_ms == state.utc_unix_ms
            &&& valid ==> next.speed_cm_s == speed_cm_s(fields[7])
            &&& valid ==> next.course_cdeg == course_cdeg(fields[8])
            &&& !valid ==> next.speed_cm_s is None && next.course_cdeg is None
            &&& !valid ==> !next.fix && next.latitude_e7 is None && next.longitude_e7 is None
            &&& valid && latitude is Some && longitude is Some ==> next.fix && next.latitude_e7
                == latitude && next.longitude_e7 == longitude
            &&& valid && (latitude is None || longitude is None) ==> next.fix == state.fix
                && next.latitude_e7 == state.latitude_e7 && next.longitude_e7
                == state.longitude_e7
        }),
{
    lemma_names_of_sentences();
    assert(fields[0][3] == 0x52u8);
    assert(encode_utf8("$GPGGA"@)[3] == 0x47u8);
    assert(encode_utf8("$GNGGA"@)[3] == 0x47u8);
    lemma_fields_of_a_sentence(fields, 0);
    lemma_fields_of_a_sentence(fields, 1);
    lemma_fields_of_a_sentence(fields, 2);
    lemma_fields_of_a_sentence(fields, 3);
    lemma_fields_of_a_sentence(fields, 4);
    lemma_fields_of_a_sentence(fields, 5);
    lemma_fields_of_a_sentence(fields, 6);
    lemma_fields_of_a_sentence(fields, 7);
    lemma_fields_of_a_sentence(fields, 8);
    lemma_fields_of_a_sentence(fields, 9);
}

/// A line whose first field is none of the four names changes nothing, and is not taken for a
/// sentence when it ends.
pub proof fn law_other_lines_change_nothing(line: Seq<char>, state: GpsState)
    requires
        ({
            let name = field(encode_utf8(line), 0);
            &&& name != seq![0x24u8, 0x47u8, 0x50u8, 0x47u8, 0x47u8, 0x41u8]
            &&& name != seq![0x24u8, 0x47u8, 0x4Eu8, 0x47u8, 0x47u8, 0x41u8]
            &&& name != seq![0x24u8, 0x47u8, 0x50u8, 0x52u8, 0x4Du8, 0x43u8]
            &&& name != seq![0x24u8, 0x47u8, 0x4Eu8, 0x52u8, 0x4Du8, 0x43u8]
        }),
    ensures
        after_line(encode_utf8(line), state) == state,
        state_after(line, state, 10) == state,
        line.len() > 0 ==> heard_of(line, state, 10) == Heard::Line(None),
{
    lemma_names_of_sentences();
}

/// How bytes become lines: a line feed ends a line and applies it, and an empty one is nothing. A
/// carriage return and a byte beyond the 7-bit range are left out. Any other byte is the line's
/// next character, up to 160 of them; one more drops the line. No byte but the line feed changes
/// the state.
pub proof fn law_bytes_become_lines(line: Seq<char>, state: GpsState, byte: u8)
    requires
        forall|i: int| 0 <= i < line.len() ==> (#[trigger] line[i] as u32) < 0x80,
    ensures
        byte != 10 ==> state_after(line, state, byte) == state,
        byte == 10 ==> line_after(line, byte).len() == 0,
        byte == 10 && line.len() == 0 ==> heard_of(line, state, byte) is Nothing,
        byte == 10 && line.len() > 0 ==> heard_of(line, state, byte) is Line,
        byte == 10 && line.len() > 0 && heard_of(line, state, byte)->Line_0 is Some ==> heard_of(
            line,
            state,
            byte,
        )->Line_0->0 == state_after(line, state, byte),
        byte == 13 ==> line_after(line, byte) == line && heard_of(line, state, byte) is Nothing,
        byte >= 128 ==> line_after(line, byte) == line && heard_of(line, state, byte) is NotAscii,
        byte < 128 && byte != 10 && byte != 13 && line.len() < 160 ==> line_after(line, byte)
            == line.push(byte as char) && heard_of(line, state, byte) is Nothing,
        byte < 128 && byte != 10 && byte != 13 && line.len() >= 160 ==> line_after(line, byte).len()
            == 0 && heard_of(line, state, byte) is Overflow,
{
    lemma_encode_plain(line);
}

/// Before anything is heard nothing is known.
pub proof fn law_nothing_is_known_at_first()
    ensures
        !offline_state().online,
        !offline_state().fix,
        offline_state().latitude_e7 is None,
        offline_state().longitude_e7 is None,
        offline_state().satellites is None,
        offline_state().altitude_half_m is None,
        offline_state().speed_cm_s is None,
        offline_state().course_cdeg is None,
        offline_state().hdop_tenths is None,
        offline_state().utc_unix_ms is None,
{
}

} // verus!
