//! The number formats of NMEA sentences, read without floating point.
use vstd::prelude::*;
use vstd::slice::slice_subrange;

use crate::calendar::{
    date_exists, days_since_unix_epoch, epoch_day, lemma_days_before_year_grows,
    lemma_epoch_day_bound, lemma_epoch_day_in_year, lemma_first_day_of_year,
};
use crate::digits::{
    all_digits, digits_u32, digits_value, find, fraction_value, is_digit,
    lemma_digits_value_bound, lemma_find, lemma_fraction_bound, lemma_pow10_grows, parse_digits,
    position, pow10, scale_fraction, scale_fraction_to_e7,
};

verus! {

/// The character `.`.
pub const DOT: u8 = 0x2E;

/// The character `,`.
pub const COMMA: u8 = 0x2C;

/// The character `+`.
pub const PLUS: u8 = 0x2B;

/// The character `-`.
pub const MINUS: u8 = 0x2D;

/// The letter `N`.
pub const NORTH: u8 = 0x4E;

/// The letter `S`.
pub const SOUTH: u8 = 0x53;

/// The letter `E`.
pub const EAST: u8 = 0x45;

/// The letter `W`.
pub const WEST: u8 = 0x57;

/// The earliest year that a receiver's clock is believed to show. Some receivers start from a
/// calendar date near their epoch, in sentences that are otherwise in order.
pub const MIN_PLAUSIBLE_UTC_YEAR: u32 = 2024;

/// The last year that the two-digit year of a sentence can name.
pub const MAX_PLAUSIBLE_UTC_YEAR: u32 = 2079;

/// What follows position `at`, the position itself left out.
pub open spec fn after(s: Seq<u8>, at: int) -> Seq<u8> {
    if at < s.len() {
        s.skip(at + 1)
    } else {
        Seq::empty()
    }
}

/// [`after`], on slices.
pub fn slice_after(bytes: &[u8], at: usize) -> (rest: &[u8])
    requires
        at <= bytes@.len(),
    ensures
        rest@ == after(bytes@, at as int),
{
    if at < bytes.len() {
        let rest = slice_subrange(bytes, at + 1, bytes.len());
        assert(rest@ =~= bytes@.skip(at + 1));
        rest
    } else {
        let rest = slice_subrange(bytes, at, bytes.len());
        assert(rest@ =~= Seq::<u8>::empty());
        rest
    }
}

/// A small number: digits with an optional `+` in front, at most 255.
pub open spec fn u8_text(s: Seq<u8>) -> Option<u8> {
    let digits = if s.len() > 0 && s[0] == PLUS {
        s.skip(1)
    } else {
        s
    };
    if digits.len() > 0 && all_digits(digits) && digits_value(digits) <= 255 {
        Some(digits_value(digits) as u8)
    } else {
        None
    }
}

pub fn parse_u8(bytes: &[u8]) -> (value: Option<u8>)
    ensures
        value == u8_text(bytes@),
{
    let digits = if bytes.len() > 0 && bytes[0] == PLUS {
        let rest = slice_subrange(bytes, 1, bytes.len());
        assert(rest@ =~= bytes@.skip(1));
        rest
    } else {
        bytes
    };
    match parse_digits(digits) {
        Some(value) => if value <= 255 {
            Some(value as u8)
        } else {
            None
        },
        None => None,
    }
}

/// Whether a text starts with a sign.
pub open spec fn signed_text(s: Seq<u8>) -> bool {
    s.len() > 0 && (s[0] == MINUS || s[0] == PLUS)
}

/// A text without its sign.
pub open spec fn unsigned_part(s: Seq<u8>) -> Seq<u8> {
    if signed_text(s) {
        s.skip(1)
    } else {
        s
    }
}

/// The size of a decimal number without sign, in units of its last decimal place: the whole part
/// times a power of ten, and the fraction cut off after `places` digits. `None` where the text
/// is no decimal number.
pub open spec fn decimal_magnitude(s: Seq<u8>, places: nat) -> Option<nat> {
    let dot = find(s, DOT) as int;
    let whole = s.take(dot);
    let fraction = after(s, dot);
    if s.len() > 0 && all_digits(whole) && all_digits(fraction) {
        Some(digits_value(whole) * pow10(places) + fraction_value(fraction, places))
    } else {
        None
    }
}

/// A signed decimal number in units of its last decimal place.
pub open spec fn decimal_fixed(s: Seq<u8>, places: nat) -> Option<i32> {
    match decimal_magnitude(unsigned_part(s), places) {
        Some(size) => if size <= i32::MAX && pow10(places) <= u32::MAX {
            if s[0] == MINUS {
                Some((-(size as int)) as i32)
            } else {
                Some(size as i32)
            }
        } else {
            None
        },
        None => None,
    }
}

/// Reads a signed decimal number as a fixed-point integer with `places` decimal places. Further
/// decimal digits are checked and dropped.
pub fn parse_decimal_fixed_i32(value: &[u8], places: usize) -> (fixed: Option<i32>)
    ensures
        fixed == decimal_fixed(value@, places as nat),
{
    if value.len() == 0 {
        assert(unsigned_part(value@) == value@);
        return None;
    }
    let negative: bool = value[0] == MINUS;
    let digits = if value[0] == MINUS || value[0] == PLUS {
        let rest = slice_subrange(value, 1, value.len());
        assert(rest@ =~= value@.skip(1));
        rest
    } else {
        value
    };
    assert(digits@ == unsigned_part(value@));
    if digits.len() == 0 {
        return None;
    }
    let decimal_index: usize = position(digits, DOT);
    let ghost whole_text = digits@.take(decimal_index as int);
    let ghost fraction_text = after(digits@, decimal_index as int);
    let mut scale: u32 = 1;
    let mut place: usize = 0;
    while place < places
        invariant
            place <= places,
            scale == pow10(place as nat),
        decreases places - place,
    {
        proof {
            lemma_pow10_grows((place + 1) as nat, places as nat);
        }
        scale = match scale.checked_mul(10) {
            Some(scaled) => scaled,
            None => return None,
        };
        place = place + 1;
    }
    let whole: u32 = if decimal_index == 0 {
        assert(whole_text.len() == 0);
        0
    } else {
        let part = slice_subrange(digits, 0, decimal_index);
        assert(part@ =~= whole_text);
        match parse_digits(part) {
            Some(whole) => whole,
            None => {
                proof {
                    if all_digits(whole_text) {
                        lemma_pow10_grows(0, places as nat);
                        assert(digits_value(whole_text) * pow10(places as nat) >= digits_value(
                            whole_text,
                        )) by (nonlinear_arith)
                            requires
                                pow10(places as nat) >= 1,
                        ;
                    }
                }
                return None;
            },
        }
    };
    let fraction: u32 = match scale_fraction(slice_after(digits, decimal_index), places) {
        Some(fraction) => fraction,
        None => return None,
    };
    let magnitude: u32 = match whole.checked_mul(scale) {
        Some(product) => match product.checked_add(fraction) {
            Some(sum) => sum,
            None => return None,
        },
        None => return None,
    };
    if magnitude > 0x7FFF_FFFF {
        return None;
    }
    let signed: i32 = magnitude as i32;
    if negative {
        Some(-signed)
    } else {
        Some(signed)
    }
}

/// The quotient rounded to the nearest whole number, halves away from zero.
pub open spec fn rounded(value: int, divisor: int) -> int {
    if value >= 0 {
        (value + divisor / 2) / divisor
    } else {
        -((-value + divisor / 2) / divisor)
    }
}

/// Whether the sum that rounding needs is in the range of the type.
pub open spec fn rounding_fits(value: int, divisor: int) -> bool {
    if value >= 0 {
        value + divisor / 2 <= i32::MAX
    } else {
        value - divisor / 2 >= i32::MIN
    }
}

/// Divides and rounds to the nearest whole number, halves away from zero. `None` for a divisor
/// that is not positive, and where adding half the divisor leaves the range of the type.
pub fn round_div_signed(value: i32, divisor: i32) -> (quotient: Option<i32>)
    ensures
        quotient == (if divisor > 0 && rounding_fits(value as int, divisor as int) {
            Some(rounded(value as int, divisor as int) as i32)
        } else {
            None
        }),
{
    if divisor <= 0 {
        return None;
    }
    let half: i64 = (divisor as i64) / 2;
    if value >= 0 {
        let sum: i64 = value as i64 + half;
        if sum > 0x7FFF_FFFF {
            return None;
        }
        let quotient: i64 = sum / (divisor as i64);
        proof {
            assert(0 <= quotient <= sum) by (nonlinear_arith)
                requires
                    quotient == sum as int / divisor as int,
                    sum >= 0,
                    divisor >= 1,
            ;
        }
        Some(quotient as i32)
    } else {
        let sum: i64 = -(value as i64) + half;
        if sum > 0x8000_0000 {
            return None;
        }
        let quotient: i64 = sum / (divisor as i64);
        proof {
            assert(0 <= quotient <= sum) by (nonlinear_arith)
                requires
                    quotient == sum as int / divisor as int,
                    sum >= 0,
                    divisor >= 1,
            ;
        }
        Some((-quotient) as i32)
    }
}

/// An altitude in metres as whole half metres, the nearest to its first decimal.
pub open spec fn altitude_half_m(s: Seq<u8>) -> Option<i16> {
    match decimal_fixed(s, 1) {
        Some(decimeters) => {
            let half_m = rounded(decimeters as int, 5);
            if rounding_fits(decimeters as int, 5) && i16::MIN <= half_m <= i16::MAX {
                Some(half_m as i16)
            } else {
                None
            }
        },
        None => None,
    }
}

pub fn parse_altitude_half_m(value: &[u8]) -> (altitude: Option<i16>)
    ensures
        altitude == altitude_half_m(value@),
{
    match parse_decimal_fixed_i32(value, 1) {
        Some(decimeters) => match round_div_signed(decimeters, 5) {
            Some(half_m) => if -32_768 <= half_m && half_m <= 32_767 {
                Some(half_m as i16)
            } else {
                None
            },
            None => None,
        },
        None => None,
    }
}

/// A speed in knots as whole centimetres per second, at 51.444 to the knot, the nearest to its
/// third decimal.
pub open spec fn speed_cm_s(s: Seq<u8>) -> Option<u16> {
    match decimal_fixed(s, 3) {
        Some(milli_knots) => {
            let cm_s = (milli_knots * 51_444 + 500_000) / 1_000_000;
            if milli_knots >= 0 && cm_s <= u16::MAX {
                Some(cm_s as u16)
            } else {
                None
            }
        },
        None => None,
    }
}

pub fn parse_speed_cm_s(knots: &[u8]) -> (speed: Option<u16>)
    ensures
        speed == speed_cm_s(knots@),
{
    match parse_decimal_fixed_i32(knots, 3) {
        Some(milli_knots) => {
            if milli_knots < 0 {
                return None;
            }
            let numerator: u64 = (milli_knots as u64) * 51_444 + 500_000;
            let cm_s: u64 = numerator / 1_000_000;
            if cm_s <= 0xFFFF {
                Some(cm_s as u16)
            } else {
                None
            }
        },
        None => None,
    }
}

/// A course in degrees, at least 0 and under 360, as hundredths of a degree.
pub open spec fn course_cdeg(s: Seq<u8>) -> Option<u16> {
    match decimal_fixed(s, 2) {
        Some(cdeg) => if 0 <= cdeg < 36_000 {
            Some(cdeg as u16)
        } else {
            None
        },
        None => None,
    }
}

pub fn parse_course_cdeg(degrees: &[u8]) -> (course: Option<u16>)
    ensures
        course == course_cdeg(degrees@),
{
    match parse_decimal_fixed_i32(degrees, 2) {
        Some(cdeg) => if 0 <= cdeg && cdeg < 36_000 {
            Some(cdeg as u16)
        } else {
            None
        },
        None => None,
    }
}

/// The dilution of precision in tenths, where it fits a byte.
pub open spec fn hdop_tenths(s: Seq<u8>) -> Option<u8> {
    match decimal_fixed(s, 1) {
        Some(tenths) => if 0 <= tenths <= 255 {
            Some(tenths as u8)
        } else {
            None
        },
        None => None,
    }
}

pub fn parse_hdop_tenths(value: &[u8]) -> (hdop: Option<u8>)
    ensures
        hdop == hdop_tenths(value@),
{
    match parse_decimal_fixed_i32(value, 1) {
        Some(tenths) => if 0 <= tenths && tenths <= 255 {
            Some(tenths as u8)
        } else {
            None
        },
        None => None,
    }
}

/// The milliseconds of a time: what follows the first decimal point, cut off after three digits.
/// `None` where something other than a digit follows it.
pub open spec fn time_millis(s: Seq<u8>) -> Option<u16> {
    let fraction = after(s, find(s, DOT) as int);
    if all_digits(fraction) {
        Some(fraction_value(fraction, 3) as u16)
    } else {
        None
    }
}

pub fn parse_nmea_time_millis(time: &[u8]) -> (millis: Option<u16>)
    ensures
        millis == time_millis(time@),
        millis matches Some(value) ==> value < 1_000,
{
    let dot: usize = position(time, DOT);
    let fraction = slice_after(time, dot);
    proof {
        reveal_with_fuel(pow10, 4);
        if all_digits(fraction@) {
            lemma_fraction_bound(fraction@, 3);
        }
    }
    match scale_fraction(fraction, 3) {
        Some(value) => Some(value as u16),
        None => None,
    }
}

/// The whole-number value of two digits at a place of a text.
pub open spec fn two_digits(s: Seq<u8>, at: int) -> Option<u32> {
    digits_u32(s.subrange(at, at + 2))
}

fn parse_two_digits(bytes: &[u8], at: usize) -> (value: Option<u32>)
    requires
        at + 2 <= bytes.len(),
    ensures
        value == two_digits(bytes@, at as int),
        value matches Some(number) ==> number < 100,
{
    let pair = slice_subrange(bytes, at, at + 2);
    proof {
        if all_digits(pair@) {
            lemma_digits_value_bound(pair@);
            reveal_with_fuel(pow10, 3);
        }
    }
    parse_digits(pair)
}

/// The four-digit year of a two-digit one: 1980 to 2079.
pub open spec fn full_year(year_2: int) -> int {
    if year_2 >= 80 {
        1900 + year_2
    } else {
        2000 + year_2
    }
}

/// The Unix time in milliseconds of a date `ddmmyy` and a time `hhmmss` with an optional decimal
/// fraction. `None` for a date or time that does not exist, and for a year that a receiver's
/// clock is not believed to show.
pub open spec fn rmc_unix_ms(date: Seq<u8>, time: Seq<u8>) -> Option<u64> {
    if date.len() != 6 || time.len() < 6 {
        None
    } else {
        match (
            (two_digits(date, 0), two_digits(date, 2), two_digits(date, 4)),
            (two_digits(time, 0), two_digits(time, 2), two_digits(time, 4)),
            time_millis(time),
        ) {
            (
                (Some(day), Some(month), Some(year_2)),
                (Some(hour), Some(minute), Some(second)),
                Some(millis),
            ) => {
                let year = full_year(year_2 as int);
                if MIN_PLAUSIBLE_UTC_YEAR <= year <= MAX_PLAUSIBLE_UTC_YEAR && date_exists(
                    year,
                    month as int,
                    day as int,
                ) && hour < 24 && minute < 60 && second < 60 {
                    Some(
                        ((epoch_day(year, month as int, day as int) * 86_400 + hour * 3_600
                            + minute * 60 + second) * 1_000 + millis) as u64,
                    )
                } else {
                    None
                }
            },
            _ => None,
        }
    }
}

pub fn parse_rmc_unix_ms(date: &[u8], time: &[u8]) -> (unix_ms: Option<u64>)
    ensures
        unix_ms == rmc_unix_ms(date@, time@),
{
    if date.len() != 6 || time.len() < 6 {
        return None;
    }
    let (day, month, year_2): (u32, u32, u32) = match (
        parse_two_digits(date, 0),
        parse_two_digits(date, 2),
        parse_two_digits(date, 4),
    ) {
        (Some(day), Some(month), Some(year_2)) => (day, month, year_2),
        _ => return None,
    };
    let year: u32 = if year_2 >= 80 {
        1900 + year_2
    } else {
        2000 + year_2
    };
    if year < MIN_PLAUSIBLE_UTC_YEAR || year > MAX_PLAUSIBLE_UTC_YEAR {
        return None;
    }
    let (hour, minute, second): (u32, u32, u32) = match (
        parse_two_digits(time, 0),
        parse_two_digits(time, 2),
        parse_two_digits(time, 4),
    ) {
        (Some(hour), Some(minute), Some(second)) => (hour, minute, second),
        _ => return None,
    };
    if hour >= 24 || minute >= 60 || second >= 60 {
        return None;
    }
    proof {
        if date_exists(year as int, month as int, day as int) {
            lemma_epoch_day_bound(year as int, month as int, day as int);
        }
    }
    let days: u32 = match days_since_unix_epoch(year, month, day) {
        Some(days) => days,
        None => return None,
    };
    let seconds: u64 = days as u64 * 86_400 + hour as u64 * 3_600 + minute as u64 * 60
        + second as u64;
    match parse_nmea_time_millis(time) {
        Some(millis) => Some(seconds * 1_000 + millis as u64),
        None => None,
    }
}

/// A time that was read lies between the first moment of the earliest year that is believed and the
/// last of the latest one: what a receiver shows before it knows the date is never taken for the
/// time.
pub proof fn law_time_is_plausible(date: Seq<u8>, time: Seq<u8>)
    ensures
        rmc_unix_ms(date, time) matches Some(unix_ms) ==> 1_704_067_200_000 <= unix_ms
            < 3_471_292_800_000,
{
    if let Some(unix_ms) = rmc_unix_ms(date, time) {
        let day = two_digits(date, 0)->0 as int;
        let month = two_digits(date, 2)->0 as int;
        let year = full_year(two_digits(date, 4)->0 as int);
        lemma_first_day_of_year(2024);
        lemma_first_day_of_year(2080);
        lemma_epoch_day_in_year(year, month, day);
        lemma_days_before_year_grows(2024, year);
        lemma_days_before_year_grows(year + 1, 2080);
        let fraction = after(time, find(time, DOT) as int);
        lemma_fraction_bound(fraction, 3);
        reveal_with_fuel(pow10, 4);
    }
}

/// The number of degrees that a hemisphere letter allows: 90 for `N` and `S`, 180 for `E` and
/// `W`, none for any other text.
pub open spec fn hemisphere_degrees(hemisphere: Seq<u8>) -> Option<int> {
    if hemisphere == seq![NORTH] || hemisphere == seq![SOUTH] {
        Some(90)
    } else if hemisphere == seq![EAST] || hemisphere == seq![WEST] {
        Some(180)
    } else {
        None
    }
}

/// Whether a hemisphere letter makes a coordinate negative.
pub open spec fn negative_hemisphere(hemisphere: Seq<u8>) -> bool {
    hemisphere == seq![SOUTH] || hemisphere == seq![WEST]
}

/// A coordinate `d..dmm.m..` with its hemisphere letter, in ten-millionths of a degree, cut off.
/// The two digits before the decimal point are minutes, those before them degrees. `None` where
/// the text has another form, and beyond the pole or the date line.
pub open spec fn coordinate_e7(coordinate: Seq<u8>, hemisphere: Seq<u8>) -> Option<i32> {
    let dot = find(coordinate, DOT) as int;
    let fraction = after(coordinate, dot);
    if dot < 3 || !all_digits(fraction) {
        None
    } else {
        match (
            digits_u32(coordinate.take(dot - 2)),
            digits_u32(coordinate.subrange(dot - 2, dot)),
            hemisphere_degrees(hemisphere),
        ) {
            (Some(degrees), Some(minutes), Some(limit)) => {
                let minutes_e7 = minutes * 10_000_000 + fraction_value(fraction, 7);
                let size = degrees * 10_000_000 + minutes_e7 / 60;
                if minutes >= 60 || degrees > limit || degrees == limit && minutes_e7 != 0 {
                    None
                } else if negative_hemisphere(hemisphere) {
                    Some((-size) as i32)
                } else {
                    Some(size as i32)
                }
            },
            _ => None,
        }
    }
}

pub fn parse_coordinate_e7(coordinate: &[u8], hemisphere: &[u8]) -> (degrees_e7: Option<i32>)
    ensures
        degrees_e7 == coordinate_e7(coordinate@, hemisphere@),
{
    let dot: usize = position(coordinate, DOT);
    if dot < 3 {
        return None;
    }
    let degree_digits = slice_subrange(coordinate, 0, dot - 2);
    assert(degree_digits@ =~= coordinate@.take(dot - 2));
    let degrees: u32 = match parse_digits(degree_digits) {
        Some(degrees) => degrees,
        None => return None,
    };
    let minutes: u32 = match parse_digits(slice_subrange(coordinate, dot - 2, dot)) {
        Some(minutes) => minutes,
        None => return None,
    };
    if minutes >= 60 {
        return None;
    }
    let rest = slice_after(coordinate, dot);
    proof {
        assert(pow10(7) == 10_000_000) by {
            reveal_with_fuel(pow10, 8);
        }
        if all_digits(rest@) {
            lemma_fraction_bound(rest@, 7);
        }
    }
    let fraction: u32 = match scale_fraction_to_e7(rest) {
        Some(fraction) => fraction,
        None => return None,
    };
    let minutes_e7: u32 = minutes * 10_000_000 + fraction;
    if hemisphere.len() != 1 {
        return None;
    }
    let letter: u8 = hemisphere[0];
    assert(hemisphere@ =~= seq![letter]);
    proof {
        assert(seq![letter][0] == letter);
        assert(seq![NORTH][0] == NORTH);
        assert(seq![SOUTH][0] == SOUTH);
        assert(seq![EAST][0] == EAST);
        assert(seq![WEST][0] == WEST);
    }
    let limit: u32 = if letter == NORTH || letter == SOUTH {
        90
    } else if letter == EAST || letter == WEST {
        180
    } else {
        return None;
    };
    if degrees > limit || (degrees == limit && minutes_e7 != 0) {
        return None;
    }
    let size: u32 = degrees * 10_000_000 + minutes_e7 / 60;
    let signed: i32 = size as i32;
    if letter == SOUTH || letter == WEST {
        Some(-signed)
    } else {
        Some(signed)
    }
}

/// A latitude that was read is between the poles, and a longitude within half a turn.
pub proof fn law_coordinates_stay_on_the_globe(coordinate: Seq<u8>, hemisphere: Seq<u8>)
    ensures
        coordinate_e7(coordinate, hemisphere) matches Some(e7) ==> {
            &&& hemisphere_degrees(hemisphere) matches Some(limit)
            &&& -limit * 10_000_000 <= e7 <= limit * 10_000_000
        },
{
    let fraction = after(coordinate, find(coordinate, DOT) as int);
    assert(pow10(7) == 10_000_000) by {
        reveal_with_fuel(pow10, 8);
    }
    if all_digits(fraction) {
        lemma_fraction_bound(fraction, 7);
    }
}

/// The text of one comma-separated field, counted from 0, where the line has it.
pub open spec fn split_field(line: Seq<u8>, index: nat) -> Option<Seq<u8>>
    decreases index,
{
    let comma = find(line, COMMA) as int;
    if index == 0 {
        Some(line.take(comma))
    } else if comma < line.len() {
        split_field(line.skip(comma + 1), (index - 1) as nat)
    } else {
        None
    }
}

/// The text of one comma-separated field, empty where the line does not have it.
pub open spec fn field(line: Seq<u8>, index: nat) -> Seq<u8> {
    match split_field(line, index) {
        Some(text) => text,
        None => Seq::empty(),
    }
}

/// One comma-separated field of a line, counted from 0.
pub fn nth_field(line: &[u8], index: usize) -> (text: Option<&[u8]>)
    ensures
        text is Some <==> split_field(line@, index as nat) is Some,
        text matches Some(bytes) ==> split_field(line@, index as nat) == Some(bytes@),
{
    let mut rest = line;
    let mut left: usize = index;
    while left > 0
        invariant
            split_field(line@, index as nat) == split_field(rest@, left as nat),
        decreases left,
    {
        let comma: usize = position(rest, COMMA);
        if comma >= rest.len() {
            return None;
        }
        rest = slice_subrange(rest, comma + 1, rest.len());
        left = left - 1;
    }
    let comma: usize = position(rest, COMMA);
    let text = slice_subrange(rest, 0, comma);
    assert(text@ =~= rest@.take(comma as int));
    Some(text)
}

/// One comma-separated field of a line, empty where the line does not have it.
pub fn field_text(line: &[u8], index: usize) -> (text: &[u8])
    ensures
        text@ == field(line@, index as nat),
{
    match nth_field(line, index) {
        Some(text) => text,
        None => {
            let text = slice_subrange(line, 0, 0);
            assert(text@ =~= Seq::<u8>::empty());
            text
        },
    }
}

/// The hemisphere letter alone gives the sign: a coordinate that is read with `N` or `E` is not
/// negative, and the same text with `S` or `W` is exactly its negative. No other letter is read.
pub proof fn law_hemisphere_gives_the_sign(text: Seq<u8>, other: Seq<u8>)
    requires
        other != seq![0x4Eu8],
        other != seq![0x53u8],
        other != seq![0x45u8],
        other != seq![0x57u8],
    ensures
        coordinate_e7(text, seq![0x4Eu8]) matches Some(north) ==> north >= 0,
        coordinate_e7(text, seq![0x45u8]) matches Some(east) ==> east >= 0,
        coordinate_e7(text, seq![0x53u8]) is Some <==> coordinate_e7(text, seq![0x4Eu8]) is Some,
        coordinate_e7(text, seq![0x57u8]) is Some <==> coordinate_e7(text, seq![0x45u8]) is Some,
        coordinate_e7(text, seq![0x4Eu8]) is Some ==> coordinate_e7(text, seq![0x53u8])->0
            == -coordinate_e7(text, seq![0x4Eu8])->0,
        coordinate_e7(text, seq![0x45u8]) is Some ==> coordinate_e7(text, seq![0x57u8])->0
            == -coordinate_e7(text, seq![0x45u8])->0,
        coordinate_e7(text, other) is None,
{
    lemma_letters();
    let fraction = after(text, find(text, DOT) as int);
    assert(pow10(7) == 10_000_000) by {
        reveal_with_fuel(pow10, 8);
    }
    if all_digits(fraction) {
        lemma_fraction_bound(fraction, 7);
    }
}

proof fn lemma_letters()
    ensures
        seq![0x4Eu8] != seq![0x53u8],
        seq![0x4Eu8] != seq![0x45u8],
        seq![0x4Eu8] != seq![0x57u8],
        seq![0x53u8] != seq![0x45u8],
        seq![0x53u8] != seq![0x57u8],
        seq![0x45u8] != seq![0x57u8],
{
    assert(seq![0x4Eu8][0] == 0x4E);
    assert(seq![0x53u8][0] == 0x53);
    assert(seq![0x45u8][0] == 0x45);
    assert(seq![0x57u8][0] == 0x57);
}

/// Whether a text is digits of degrees, two digits of minutes, a point and a fraction of a minute.
pub open spec fn coordinate_form(
    text: Seq<u8>,
    degrees: Seq<u8>,
    minutes: Seq<u8>,
    fraction: Seq<u8>,
) -> bool {
    &&& degrees.len() >= 1
    &&& minutes.len() == 2
    &&& all_digits(degrees)
    &&& all_digits(minutes)
    &&& all_digits(fraction)
    &&& text == degrees + minutes + seq![0x2Eu8] + fraction
}

/// Sixty of the minutes are a degree: a coordinate of some degrees and minutes, with a fraction of
/// a minute, is the largest number of ten-millionths of a degree that is not above them. A latitude
/// is read up to 90 degrees, a longitude up to 180, and minutes below 60; nothing else is.
pub proof fn law_coordinates_count_minutes(
    text: Seq<u8>,
    degrees: Seq<u8>,
    minutes: Seq<u8>,
    fraction: Seq<u8>,
)
    requires
        coordinate_form(text, degrees, minutes, fraction),
    ensures
        ({
            let d = digits_value(degrees);
            let m = digits_value(minutes);
            let exact = d * 600_000_000 + m * 10_000_000 + fraction_value(fraction, 7);
            let north = coordinate_e7(text, seq![0x4Eu8]);
            let east = coordinate_e7(text, seq![0x45u8]);
            &&& north is Some <==> m < 60 && exact <= 54_000_000_000
            &&& east is Some <==> m < 60 && exact <= 108_000_000_000
            &&& north is Some ==> 60 * north->0 <= exact < 60 * north->0 + 60
            &&& east is Some ==> 60 * east->0 <= exact < 60 * east->0 + 60
        }),
{
    lemma_letters();
    let head = degrees + minutes;
    assert(forall|i: int| 0 <= i < head.len() ==> is_digit(#[trigger] head[i])) by {
        assert forall|i: int| 0 <= i < head.len() implies is_digit(#[trigger] head[i]) by {
            if i < degrees.len() {
                assert(is_digit(degrees[i]));
            } else {
                assert(is_digit(minutes[i - degrees.len()]));
            }
        }
    }
    lemma_find(text, DOT);
    let dot = find(text, DOT) as int;
    assert(dot == head.len()) by {
        assert(text[head.len() as int] == 0x2E);
        if dot < head.len() {
            assert(text[dot] == head[dot]);
            assert(is_digit(head[dot]));
        }
    }
    assert(after(text, dot) =~= fraction);
    assert(text.take(dot - 2) =~= degrees);
    assert(text.subrange(dot - 2, dot) =~= minutes);
    lemma_digits_value_bound(minutes);
    reveal_with_fuel(pow10, 3);
    assert(pow10(7) == 10_000_000) by {
        reveal_with_fuel(pow10, 8);
    }
    lemma_fraction_bound(fraction, 7);
}

/// A sign before a decimal number: a plus changes nothing, and a minus turns the number round. What
/// follows a sign is not signed once more.
pub proof fn law_signs_of_decimals(text: Seq<u8>, places: nat)
    requires
        text.len() > 0,
        text[0] != 0x2B,
        text[0] != 0x2D,
    ensures
        ({
            let bare = decimal_fixed(text, places);
            let plus = decimal_fixed(seq![0x2Bu8] + text, places);
            let minus = decimal_fixed(seq![0x2Du8] + text, places);
            &&& bare matches Some(value) ==> value >= 0
            &&& plus == bare
            &&& minus is Some <==> bare is Some
            &&& bare is Some ==> minus->0 == -bare->0
        }),
        decimal_fixed(seq![0x2Du8] + (seq![0x2Du8] + text), places) is None,
        decimal_fixed(seq![0x2Bu8] + (seq![0x2Du8] + text), places) is None,
{
    let plus = seq![0x2Bu8] + text;
    let minus = seq![0x2Du8] + text;
    assert(plus.skip(1) =~= text);
    assert(minus.skip(1) =~= text);
    let twice = seq![0x2Du8] + minus;
    let mixed = seq![0x2Bu8] + minus;
    assert(twice.skip(1) =~= minus);
    assert(mixed.skip(1) =~= minus);
    lemma_find(minus, DOT);
    let dot = find(minus, DOT) as int;
    if dot == 0 {
        assert(minus[0] == 0x2D);
    } else {
        let whole = minus.take(dot);
        assert(whole[0] == 0x2D);
        assert(!is_digit(whole[0]));
    }
}

/// A decimal number without sign, of digits on both sides of a point, counts in units of its last
/// place: the whole digits with the first `places` of the fraction behind them. It is read where
/// that, and one in those units, are in range.
pub proof fn law_decimals_count_in_units(whole: Seq<u8>, fraction: Seq<u8>, places: nat)
    requires
        all_digits(whole),
        all_digits(fraction),
    ensures
        ({
            let exact = digits_value(whole) * pow10(places) + fraction_value(fraction, places);
            let value = decimal_fixed(whole + seq![0x2Eu8] + fraction, places);
            &&& value is Some <==> exact <= 2_147_483_647 && pow10(places) <= 4_294_967_295
            &&& value is Some ==> value->0 == exact
        }),
        whole.len() > 0 ==> decimal_fixed(whole, places) == decimal_fixed(
            whole + seq![0x2Eu8],
            places,
        ),
        decimal_fixed(Seq::<u8>::empty(), places) is None,
{
    let text = whole + seq![0x2Eu8] + fraction;
    let short = whole + seq![0x2Eu8];
    lemma_find(text, DOT);
    lemma_find(short, DOT);
    lemma_find(whole, DOT);
    assert(text[whole.len() as int] == 0x2E);
    assert(short[whole.len() as int] == 0x2E);
    assert(find(text, DOT) == whole.len()) by {
        let dot = find(text, DOT) as int;
        if dot < whole.len() {
            assert(text[dot] == whole[dot]);
            assert(is_digit(whole[dot]));
        }
    }
    assert(find(short, DOT) == whole.len()) by {
        let dot = find(short, DOT) as int;
        if dot < whole.len() {
            assert(short[dot] == whole[dot]);
            assert(is_digit(whole[dot]));
        }
    }
    assert(find(whole, DOT) == whole.len()) by {
        let dot = find(whole, DOT) as int;
        if dot < whole.len() {
            assert(is_digit(whole[dot]));
        }
    }
    let at = whole.len() as int;
    assert(text.take(at) =~= whole);
    assert(short.take(at) =~= whole);
    assert(whole.take(at) =~= whole);
    assert(after(text, at) =~= fraction);
    assert(after(short, at) =~= Seq::<u8>::empty());
    if whole.len() > 0 {
        assert(is_digit(whole[0]));
        assert(text[0] == whole[0]);
        assert(short[0] == whole[0]);
    } else {
        assert(text[0] == 0x2E);
    }
}

/// Rounding gives the nearest whole number, away from zero where two are as near, and turns round
/// with its argument.
pub proof fn law_rounding_is_to_the_nearest(value: int, divisor: int)
    requires
        divisor > 0,
    ensures
        -divisor <= 2 * (rounded(value, divisor) * divisor - value) <= divisor,
        value >= 0 ==> rounded(value, divisor) >= 0,
        value >= 0 ==> 2 * (rounded(value, divisor) * divisor - value) > -divisor,
        rounded(-value, divisor) == -rounded(value, divisor),
{
    let size = if value >= 0 {
        value
    } else {
        -value
    };
    let sum = size + divisor / 2;
    let q = sum / divisor;
    vstd::arithmetic::div_mod::lemma_fundamental_div_mod(sum, divisor);
    vstd::arithmetic::div_mod::lemma_div_pos_is_pos(sum, divisor);
    assert(0 <= sum % divisor < divisor) by {
        vstd::arithmetic::div_mod::lemma_mod_bound(sum, divisor);
    }
    assert(divisor * q == q * divisor) by (nonlinear_arith);
    assert((-q) * divisor == -(q * divisor)) by (nonlinear_arith);
    assert(2 * (divisor / 2) == divisor || 2 * (divisor / 2) == divisor - 1);
    if value == 0 {
        vstd::arithmetic::div_mod::lemma_basic_div(sum, divisor);
    }
}

/// An altitude is the nearest number of half metres to its tenths of a metre, which are five to the
/// half metre, and is read wherever that is in range.
pub proof fn law_altitude_is_the_nearest_half_metre(text: Seq<u8>)
    ensures
        altitude_half_m(text) is Some ==> decimal_fixed(text, 1) is Some && -2 <= 5
            * altitude_half_m(text)->0 - decimal_fixed(text, 1)->0 <= 2,
        decimal_fixed(text, 1) matches Some(tenths) && -163_842 <= tenths <= 163_837
            ==> altitude_half_m(text) is Some,
{
}

/// A speed is the nearest number of centimetres a second: a knot is 51.444 of them. A negative
/// speed is not read, and one above 65535 centimetres a second neither.
pub proof fn law_speed_is_the_nearest(text: Seq<u8>)
    ensures
        speed_cm_s(text) is Some ==> decimal_fixed(text, 3) is Some && decimal_fixed(text, 3)->0
            >= 0 && -500_000 <= 1_000_000 * speed_cm_s(text)->0 - 51_444 * decimal_fixed(
            text,
            3,
        )->0 <= 500_000,
        decimal_fixed(text, 3) matches Some(thousandths) && 0 <= thousandths && 51_444 * thousandths
            < 65_535_500_000 ==> speed_cm_s(text) is Some,
{
}

/// A course is its hundredths of a degree, and is read from 0 up to, and without, 360 degrees. A
/// dilution is its tenths, and is read from 0 to 25.5.
pub proof fn law_course_and_dilution(text: Seq<u8>)
    ensures
        course_cdeg(text) is Some <==> decimal_fixed(text, 2) is Some && 0 <= decimal_fixed(
            text,
            2,
        )->0 <= 35_999,
        course_cdeg(text) is Some ==> course_cdeg(text)->0 == decimal_fixed(text, 2)->0,
        hdop_tenths(text) is Some <==> decimal_fixed(text, 1) is Some && 0 <= decimal_fixed(
            text,
            1,
        )->0 <= 255,
        hdop_tenths(text) is Some ==> hdop_tenths(text)->0 == decimal_fixed(text, 1)->0,
{
}

/// A small number is its digits, at most 255, and a plus before them changes nothing.
pub proof fn law_small_numbers(text: Seq<u8>)
    requires
        text.len() > 0,
        text[0] != 0x2B,
    ensures
        u8_text(text) is Some <==> all_digits(text) && digits_value(text) <= 255,
        u8_text(text) is Some ==> u8_text(text)->0 == digits_value(text),
        u8_text(seq![0x2Bu8] + text) == u8_text(text),
{
    assert((seq![0x2Bu8] + text).skip(1) =~= text);
}

/// The number of two digits.
proof fn lemma_two_digits(s: Seq<u8>, at: int)
    requires
        0 <= at,
        at + 2 <= s.len(),
    ensures
        two_digits(s, at) is Some <==> 48 <= s[at] <= 57 && 48 <= s[at + 1] <= 57,
        two_digits(s, at) is Some ==> two_digits(s, at)->0 == 10 * (s[at] - 48) + s[at + 1] - 48,
{
    let pair = s.subrange(at, at + 2);
    reveal_with_fuel(digits_value, 3);
    assert(pair.drop_last() =~= seq![s[at]]);
    assert(pair.drop_last().drop_last() =~= Seq::<u8>::empty());
    assert(pair[0] == s[at] && pair[1] == s[at + 1]);
    if all_digits(pair) {
        assert(is_digit(pair[0]) && is_digit(pair[1]));
    }
}

/// Days, hours, minutes, seconds and thousandths come back from their sum.
proof fn lemma_clock(days: int, hours: int, minutes: int, seconds: int, millis: int)
    requires
        days >= 0,
        0 <= hours < 24,
        0 <= minutes < 60,
        0 <= seconds < 60,
        0 <= millis < 1_000,
    ensures
        ({
            let t = (days * 86_400 + hours * 3_600 + minutes * 60 + seconds) * 1_000 + millis;
            &&& t / 86_400_000 == days
            &&& t / 3_600_000 % 24 == hours
            &&& t / 60_000 % 60 == minutes
            &&& t / 1_000 % 60 == seconds
            &&& t % 1_000 == millis
        }),
{
    let t = (days * 86_400 + hours * 3_600 + minutes * 60 + seconds) * 1_000 + millis;
    assert(t / 1_000 == days * 86_400 + hours * 3_600 + minutes * 60 + seconds);
    assert(t / 60_000 == days * 1_440 + hours * 60 + minutes);
    assert(t / 3_600_000 == days * 24 + hours);
}

/// A time that is read tells its text again: the date's days, months and years, and the time's
/// hours, minutes, seconds and thousandths, each where it stands, counted from the start of 1970.
pub proof fn law_time_tells_its_text(date: Seq<u8>, time: Seq<u8>)
    requires
        rmc_unix_ms(date, time) is Some,
    ensures
        ({
            let unix_ms = rmc_unix_ms(date, time)->0 as int;
            let day = 10 * (date[0] - 48) + date[1] - 48;
            let month = 10 * (date[2] - 48) + date[3] - 48;
            let year = 2000 + 10 * (date[4] - 48) + date[5] - 48;
            &&& date.len() == 6
            &&& time.len() >= 6
            &&& 2024 <= year <= 2079
            &&& unix_ms / 86_400_000 == epoch_day(year, month, day)
            &&& date_exists(year, month, day)
            &&& unix_ms / 3_600_000 % 24 == 10 * (time[0] - 48) + time[1] - 48
            &&& unix_ms / 60_000 % 60 == 10 * (time[2] - 48) + time[3] - 48
            &&& unix_ms / 1_000 % 60 == 10 * (time[4] - 48) + time[5] - 48
            &&& time_millis(time) is Some
            &&& unix_ms % 1_000 == time_millis(time)->0
        }),
{
    lemma_two_digits(date, 0);
    lemma_two_digits(date, 2);
    lemma_two_digits(date, 4);
    lemma_two_digits(time, 0);
    lemma_two_digits(time, 2);
    lemma_two_digits(time, 4);
    let fraction = after(time, find(time, DOT) as int);
    lemma_fraction_bound(fraction, 3);
    assert(pow10(3) == 1_000) by {
        reveal_with_fuel(pow10, 4);
    }
    let year = full_year(two_digits(date, 4)->0 as int);
    let month = two_digits(date, 2)->0 as int;
    let day = two_digits(date, 0)->0 as int;
    lemma_epoch_day_bound(year, month, day);
    lemma_clock(
        epoch_day(year, month, day),
        two_digits(time, 0)->0 as int,
        two_digits(time, 2)->0 as int,
        two_digits(time, 4)->0 as int,
        time_millis(time)->0 as int,
    );
}

/// Which times are read: those of a date of six digits that exists, from 2024 to 2079, and a time
/// of six digits, the hours below 24 and minutes and seconds below 60, with nothing but digits
/// behind a point.
pub proof fn law_which_times_are_read(date: Seq<u8>, time: Seq<u8>)
    ensures
        rmc_unix_ms(date, time) is Some <==> {
            &&& date.len() == 6
            &&& time.len() >= 6
            &&& all_digits(date)
            &&& all_digits(time.take(6))
            &&& time_millis(time) is Some
            &&& 24 <= 10 * (date[4] - 48) + date[5] - 48 <= 79
            &&& date_exists(
                2000 + 10 * (date[4] - 48) + date[5] - 48,
                10 * (date[2] - 48) + date[3] - 48,
                10 * (date[0] - 48) + date[1] - 48,
            )
            &&& 10 * (time[0] - 48) + time[1] - 48 < 24
            &&& 10 * (time[2] - 48) + time[3] - 48 < 60
            &&& 10 * (time[4] - 48) + time[5] - 48 < 60
        },
{
    if date.len() == 6 && time.len() >= 6 {
        lemma_two_digits(date, 0);
        lemma_two_digits(date, 2);
        lemma_two_digits(date, 4);
        lemma_two_digits(time, 0);
        lemma_two_digits(time, 2);
        lemma_two_digits(time, 4);
        let six = time.take(6);
        if all_digits(date) && all_digits(six) {
            assert(is_digit(date[0]) && is_digit(date[1]) && is_digit(date[2]));
            assert(is_digit(date[3]) && is_digit(date[4]) && is_digit(date[5]));
            assert(is_digit(six[0]) && is_digit(six[1]) && is_digit(six[2]));
            assert(is_digit(six[3]) && is_digit(six[4]) && is_digit(six[5]));
        }
        if rmc_unix_ms(date, time) is Some {
            assert(all_digits(date));
            assert(all_digits(six));
        }
    }
}

/// The thousandths of a time are the first three digits behind its point, with zeros for those that
/// it lacks.
pub proof fn law_thousandths_of_a_time(whole: Seq<u8>, fraction: Seq<u8>)
    requires
        forall|i: int| 0 <= i < whole.len() ==> #[trigger] whole[i] != 0x2E,
    ensures
        time_millis(whole + seq![0x2Eu8] + fraction) is Some <==> all_digits(fraction),
        all_digits(fraction) ==> time_millis(whole + seq![0x2Eu8] + fraction)->0 == fraction_value(
            fraction,
            3,
        ),
        time_millis(whole) == Some(0u16),
{
    let text = whole + seq![0x2Eu8] + fraction;
    lemma_find(text, DOT);
    lemma_find(whole, DOT);
    assert(text[whole.len() as int] == 0x2E);
    assert(find(text, DOT) == whole.len()) by {
        let dot = find(text, DOT) as int;
        if dot < whole.len() {
            assert(text[dot] == whole[dot]);
        }
    }
    assert(find(whole, DOT) == whole.len());
    assert(after(text, whole.len() as int) =~= fraction);
    let none = Seq::<u8>::empty();
    assert(after(whole, whole.len() as int) =~= none);
    if all_digits(fraction) {
        lemma_fraction_bound(fraction, 3);
    }
    assert(pow10(3) == 1_000) by {
        reveal_with_fuel(pow10, 4);
    }
    assert(digits_value(none) == 0);
    assert(fraction_value(none, 3) == digits_value(none) * pow10(3));
    assert(digits_value(none) * pow10(3) == 0) by (nonlinear_arith)
        requires
            digits_value(none) == 0,
    ;
}

/// Commas part the fields of a line: what stands before the first is field 0, and the fields of
/// what follows it are the others. A line without a comma has one field.
pub proof fn law_commas_part_fields(first: Seq<u8>, rest: Seq<u8>, index: nat)
    requires
        forall|i: int| 0 <= i < first.len() ==> #[trigger] first[i] != 0x2C,
    ensures
        split_field(first, 0) == Some(first),
        split_field(first, index + 1) is None,
        split_field(first + seq![0x2Cu8] + rest, 0) == Some(first),
        split_field(first + seq![0x2Cu8] + rest, index + 1) == split_field(rest, index),
        field(first, index + 1).len() == 0,
{
    let line = first + seq![0x2Cu8] + rest;
    lemma_find(line, COMMA);
    lemma_find(first, COMMA);
    assert(line[first.len() as int] == 0x2C);
    assert(find(line, COMMA) == first.len()) by {
        let comma = find(line, COMMA) as int;
        if comma < first.len() {
            assert(line[comma] == first[comma]);
        }
    }
    assert(find(first, COMMA) == first.len());
    assert(line.take(first.len() as int) =~= first);
    assert(first.take(first.len() as int) =~= first);
    assert(line.skip(first.len() as int + 1) =~= rest);
}

} // verus!
