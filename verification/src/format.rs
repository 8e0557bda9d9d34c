//! Lines of text that are put together piece by piece.
use vstd::prelude::*;
use vstd::utf8::encode_utf8;

use crate::digits::pow10;
use crate::text::{byte_len, lemma_encode_concat, lemma_encode_push, Text};

verus! {

/// The character of a digit.
pub open spec fn digit_char(digit: int) -> char {
    (0x30 + digit) as char
}

/// The character of a hexadecimal digit, in upper case.
pub open spec fn hex_char(digit: int) -> char {
    if digit < 10 {
        (0x30 + digit) as char
    } else {
        (0x41 + digit - 10) as char
    }
}

/// A number in decimal digits.
pub open spec fn decimal(value: nat) -> Seq<char>
    decreases value,
{
    if value < 10 {
        seq![digit_char(value as int)]
    } else {
        decimal(value / 10).push(digit_char((value % 10) as int))
    }
}

/// A signed number in decimal digits.
pub open spec fn decimal_signed(value: int) -> Seq<char> {
    if value < 0 {
        seq!['-'] + decimal((-value) as nat)
    } else {
        decimal(value as nat)
    }
}

/// The last `width` decimal digits of a number, with zeros in front of a short one.
pub open spec fn decimal_fixed(value: nat, width: nat) -> Seq<char>
    decreases width,
{
    if width == 0 {
        Seq::empty()
    } else {
        decimal_fixed(value / 10, (width - 1) as nat).push(digit_char((value % 10) as int))
    }
}

/// The last `width` hexadecimal digits of a number, with zeros in front of a short one.
pub open spec fn hex_fixed(value: nat, width: nat) -> Seq<char>
    decreases width,
{
    if width == 0 {
        Seq::empty()
    } else {
        hex_fixed(value / 16, (width - 1) as nat).push(hex_char((value % 16) as int))
    }
}

/// A number that may be missing: `NA` where it is.
pub open spec fn optional_u64(value: Option<u64>) -> Seq<char> {
    match value {
        Some(number) => decimal(number as nat),
        None => "NA"@,
    }
}

/// A number that may be missing: `NA` where it is.
pub open spec fn optional_u32(value: Option<u32>) -> Seq<char> {
    match value {
        Some(number) => decimal(number as nat),
        None => "NA"@,
    }
}

/// A number that may be missing: `NA` where it is.
pub open spec fn optional_u16(value: Option<u16>) -> Seq<char> {
    match value {
        Some(number) => decimal(number as nat),
        None => "NA"@,
    }
}

/// A number that may be missing: `NA` where it is.
pub open spec fn optional_u8(value: Option<u8>) -> Seq<char> {
    match value {
        Some(number) => decimal(number as nat),
        None => "NA"@,
    }
}

/// A number that may be missing: `NA` where it is.
pub open spec fn optional_i32(value: Option<i32>) -> Seq<char> {
    match value {
        Some(number) => decimal_signed(number as int),
        None => "NA"@,
    }
}

/// A number that may be missing: `NA` where it is.
pub open spec fn optional_i16(value: Option<i16>) -> Seq<char> {
    match value {
        Some(number) => decimal_signed(number as int),
        None => "NA"@,
    }
}

/// A truth value as 1 or 0.
pub open spec fn flag(value: bool) -> Seq<char> {
    if value {
        decimal(1)
    } else {
        decimal(0)
    }
}

/// A line that is put together piece by piece. Its view is all that was added, whether it fits
/// into `N` bytes or not.
pub struct Line<const N: usize> {
    text: Text<N>,
    fits: bool,
    wanted: Ghost<Seq<char>>,
}

impl<const N: usize> View for Line<N> {
    type V = Seq<char>;

    closed spec fn view(&self) -> Seq<char> {
        self.wanted@
    }
}

impl<const N: usize> Line<N> {
    /// The text is what was added as long as that fits.
    pub closed spec fn inv(self) -> bool {
        &&& self.fits <==> byte_len(self@) <= N
        &&& self.fits ==> self.text@ == self@
    }

    /// A line that begins with a text.
    pub fn start(string: &str) -> (line: Self)
        ensures
            line.inv(),
            line@ == string@,
    {
        let mut text: Text<N> = Text::new();
        let fits: bool = text.push_str(string);
        proof {
            assert(encode_utf8(Seq::<char>::empty()) =~= Seq::<u8>::empty());
            assert(Seq::<char>::empty() + string@ =~= string@);
        }
        Line { text, fits, wanted: Ghost(string@) }
    }

    /// Adds a text.
    pub fn add_str(&mut self, string: &str)
        requires
            old(self).inv(),
        ensures
            final(self).inv(),
            final(self)@ == old(self)@ + string@,
    {
        proof {
            lemma_encode_concat(self@, string@);
        }
        if self.fits {
            self.fits = self.text.push_str(string);
        }
        self.wanted = Ghost(self.wanted@ + string@);
    }

    /// Adds a character of the 7-bit range.
    fn add_ascii(&mut self, byte: u8)
        requires
            old(self).inv(),
            byte < 0x80,
        ensures
            final(self).inv(),
            final(self)@ == old(self)@.push(byte as char),
    {
        let c: char = byte as char;
        proof {
            lemma_encode_push(self@, c);
        }
        if self.fits {
            self.fits = self.text.push(c);
        }
        self.wanted = Ghost(self.wanted@.push(c));
    }

    /// Adds a number in decimal digits.
    pub fn add_u64(&mut self, value: u64)
        requires
            old(self).inv(),
        ensures
            final(self).inv(),
            final(self)@ == old(self)@ + decimal(value as nat),
        decreases value,
    {
        let digit: u8 = (value % 10) as u8;
        if value < 10 {
            self.add_ascii(0x30 + digit);
            assert(self@ =~= old(self)@ + decimal(value as nat));
        } else {
            self.add_u64(value / 10);
            self.add_ascii(0x30 + digit);
            assert(self@ =~= old(self)@ + decimal(value as nat));
        }
    }

    /// Adds a signed number in decimal digits.
    pub fn add_i64(&mut self, value: i64)
        requires
            old(self).inv(),
            value > i64::MIN,
        ensures
            final(self).inv(),
            final(self)@ == old(self)@ + decimal_signed(value as int),
    {
        if value < 0 {
            self.add_ascii(0x2D);
            self.add_u64((-value) as u64);
            assert(self@ =~= old(self)@ + decimal_signed(value as int));
        } else {
            self.add_u64(value as u64);
        }
    }

    /// Adds 1 for a truth, 0 for its opposite.
    pub fn add_flag(&mut self, value: bool)
        requires
            old(self).inv(),
        ensures
            final(self).inv(),
            final(self)@ == old(self)@ + flag(value),
    {
        if value {
            self.add_u64(1);
        } else {
            self.add_u64(0);
        }
    }

    /// Adds the last `width` decimal digits of a number.
    pub fn add_fixed(&mut self, value: u64, width: u8)
        requires
            old(self).inv(),
        ensures
            final(self).inv(),
            final(self)@ == old(self)@ + decimal_fixed(value as nat, width as nat),
        decreases width,
    {
        if width == 0 {
            assert(self@ =~= old(self)@ + decimal_fixed(value as nat, width as nat));
        } else {
            self.add_fixed(value / 10, width - 1);
            self.add_ascii(0x30 + (value % 10) as u8);
            assert(self@ =~= old(self)@ + decimal_fixed(value as nat, width as nat));
        }
    }

    /// Adds the last `width` hexadecimal digits of a number.
    pub fn add_hex(&mut self, value: u64, width: u8)
        requires
            old(self).inv(),
        ensures
            final(self).inv(),
            final(self)@ == old(self)@ + hex_fixed(value as nat, width as nat),
        decreases width,
    {
        if width == 0 {
            assert(self@ =~= old(self)@ + hex_fixed(value as nat, width as nat));
        } else {
            self.add_hex(value / 16, width - 1);
            let digit: u8 = (value % 16) as u8;
            if digit < 10 {
                self.add_ascii(0x30 + digit);
            } else {
                self.add_ascii(0x41 + digit - 10);
            }
            assert(self@ =~= old(self)@ + hex_fixed(value as nat, width as nat));
        }
    }

    /// The line, where it fits.
    pub fn finish(self) -> (text: Option<Text<N>>)
        requires
            self.inv(),
        ensures
            text is Some <==> byte_len(self@) <= N,
            text matches Some(line) ==> line@ == self@,
    {
        if self.fits {
            Some(self.text)
        } else {
            None
        }
    }
}

/// Adds a number, `NA` where it is missing.
pub fn append_optional_u64<const N: usize>(line: &mut Line<N>, value: Option<u64>)
    requires
        old(line).inv(),
    ensures
        final(line).inv(),
        final(line)@ == old(line)@ + optional_u64(value),
{
    match value {
        Some(number) => line.add_u64(number),
        None => line.add_str("NA"),
    }
}

/// Adds a number, `NA` where it is missing.
pub fn append_optional_u32<const N: usize>(line: &mut Line<N>, value: Option<u32>)
    requires
        old(line).inv(),
    ensures
        final(line).inv(),
        final(line)@ == old(line)@ + optional_u32(value),
{
    match value {
        Some(number) => line.add_u64(number as u64),
        None => line.add_str("NA"),
    }
}

/// Adds a number, `NA` where it is missing.
pub fn append_optional_u16<const N: usize>(line: &mut Line<N>, value: Option<u16>)
    requires
        old(line).inv(),
    ensures
        final(line).inv(),
        final(line)@ == old(line)@ + optional_u16(value),
{
    match value {
        Some(number) => line.add_u64(number as u64),
        None => line.add_str("NA"),
    }
}

/// Adds a number, `NA` where it is missing.
pub fn append_optional_u8<const N: usize>(line: &mut Line<N>, value: Option<u8>)
    requires
        old(line).inv(),
    ensures
        final(line).inv(),
        final(line)@ == old(line)@ + optional_u8(value),
{
    match value {
        Some(number) => line.add_u64(number as u64),
        None => line.add_str("NA"),
    }
}

/// Adds a number, `NA` where it is missing.
pub fn append_optional_i32<const N: usize>(line: &mut Line<N>, value: Option<i32>)
    requires
        old(line).inv(),
    ensures
        final(line).inv(),
        final(line)@ == old(line)@ + optional_i32(value),
{
    match value {
        Some(number) => line.add_i64(number as i64),
        None => line.add_str("NA"),
    }
}

/// Adds a number, `NA` where it is missing.
pub fn append_optional_i16<const N: usize>(line: &mut Line<N>, value: Option<i16>)
    requires
        old(line).inv(),
    ensures
        final(line).inv(),
        final(line)@ == old(line)@ + optional_i16(value),
{
    match value {
        Some(number) => line.add_i64(number as i64),
        None => line.add_str("NA"),
    }
}

/// Whether a text has only characters of the 7-bit range and is no longer than a limit.
pub open spec fn ascii_within(s: Seq<char>, limit: int) -> bool {
    vstd::utf8::is_ascii_chars(s) && s.len() <= limit
}

/// A text of 7-bit characters takes as many bytes as it has characters.
pub proof fn lemma_ascii_bytes(s: Seq<char>, limit: int)
    requires
        ascii_within(s, limit),
    ensures
        byte_len(s) <= limit,
{
    vstd::utf8::is_ascii_chars_encode_utf8(s);
}

/// Limits add up.
pub proof fn lemma_ascii_sum(a: Seq<char>, m: int, b: Seq<char>, n: int)
    requires
        ascii_within(a, m),
        ascii_within(b, n),
    ensures
        ascii_within(a + b, m + n),
{
}

/// A number below a power of ten has no more digits than that has zeros.
pub proof fn lemma_decimal_within(value: nat, digits: nat)
    requires
        value < pow10(digits),
        digits > 0,
    ensures
        ascii_within(decimal(value), digits as int),
    decreases digits,
{
    if value >= 10 {
        reveal_with_fuel(pow10, 2);
        lemma_decimal_within(value / 10, (digits - 1) as nat);
    }
}

/// A signed number has a sign besides.
pub proof fn lemma_signed_within(value: int, digits: nat)
    requires
        -pow10(digits) < value < pow10(digits),
        digits > 0,
    ensures
        ascii_within(decimal_signed(value), 1 + digits as int),
{
    if value < 0 {
        lemma_decimal_within((-value) as nat, digits);
        lemma_ascii_sum(seq!['-'], 1, decimal((-value) as nat), digits as int);
    } else {
        lemma_decimal_within(value as nat, digits);
    }
}

/// A number of fixed width has that width.
pub proof fn lemma_hex_within(value: nat, width: nat)
    ensures
        ascii_within(hex_fixed(value, width), width as int),
        hex_fixed(value, width).len() == width,
    decreases width,
{
    if width > 0 {
        lemma_hex_within(value / 16, (width - 1) as nat);
    }
}

/// A number of fixed width has that width.
pub proof fn lemma_fixed_within(value: nat, width: nat)
    ensures
        ascii_within(decimal_fixed(value, width), width as int),
        decimal_fixed(value, width).len() == width,
    decreases width,
{
    if width > 0 {
        lemma_fixed_within(value / 10, (width - 1) as nat);
    }
}

/// How many digits the numbers of each size have.
pub proof fn lemma_number_sizes()
    ensures
        u8::MAX < pow10(3),
        u16::MAX < pow10(5),
        i16::MAX < pow10(5) && -pow10(5) < i16::MIN,
        u32::MAX < pow10(10),
        i32::MAX < pow10(10) && -pow10(10) < i32::MIN,
        u64::MAX < pow10(20),
{
    reveal_with_fuel(pow10, 21);
}

} // verus!
