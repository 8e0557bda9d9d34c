//! The directories and files of a survey, and how its sessions are numbered.
//!
//! Every start of the device is a session of its own: `/SURVEY/xxxxxxxx/Bnnnnnnn/`.
use vstd::prelude::*;
use vstd::utf8::encode_utf8;

use crate::digits::{all_digits, digits_value, is_digit, lemma_digits_value_bound, pow10};
use crate::format::{
    decimal, decimal_fixed, digit_char, hex_fixed, lemma_ascii_bytes, lemma_ascii_sum,
    lemma_decimal_within, lemma_fixed_within, lemma_hex_within, lemma_number_sizes, Line,
};
use crate::reader::{
    law_decimal_reads_back, law_fixed_reads_back, law_hex_reads_back, pow16, read_hex, read_nat,
};
use crate::short_name::{
    before_space, create_short_name, is_plain_name, padded, same_short_name, short_base_name,
    short_name_bytes,
};
use crate::storage::LOG_SCHEMA_VERSION;
use crate::system::SystemInfo;
use crate::text::{byte_len, Text};

verus! {

/// The letter `B`.
pub const BOOT_SESSION_PREFIX: u8 = 0x42;

pub const MAX_BOOT_SESSION: u32 = 9_999_999;

/// The most that the description of a session takes.
pub const METADATA_CAPACITY: usize = 512;

/// The files that the device keeps on a card.
#[derive(Clone, Copy, Debug, PartialEq, Eq, Structural)]
pub enum LogFile {
    System,
    Debug,
    Rx,
    Local,
    Event,
    Meta,
    BootCounter,
}

impl LogFile {
    pub open spec fn spec_filename(self) -> &'static str {
        match self {
            LogFile::System => "SYS_LOG.TXT",
            LogFile::Debug => "DEBUG.LOG",
            LogFile::Rx => "RX.LOG",
            LogFile::Local => "LOCAL.LOG",
            LogFile::Event => "EVENT.LOG",
            LogFile::Meta => "META.TXT",
            LogFile::BootCounter => "BOOT.NXT",
        }
    }

    pub fn filename(self) -> (name: &'static str)
        ensures
            name@ == self.spec_filename()@,
    {
        match self {
            LogFile::System => "SYS_LOG.TXT",
            LogFile::Debug => "DEBUG.LOG",
            LogFile::Rx => "RX.LOG",
            LogFile::Local => "LOCAL.LOG",
            LogFile::Event => "EVENT.LOG",
            LogFile::Meta => "META.TXT",
            LogFile::BootCounter => "BOOT.NXT",
        }
    }

    /// The name and the extension of a file.
    pub open spec fn name_parts(self) -> (Seq<char>, Seq<char>) {
        match self {
            LogFile::System => ("SYS_LOG"@, "TXT"@),
            LogFile::Debug => ("DEBUG"@, "LOG"@),
            LogFile::Rx => ("RX"@, "LOG"@),
            LogFile::Local => ("LOCAL"@, "LOG"@),
            LogFile::Event => ("EVENT"@, "LOG"@),
            LogFile::Meta => ("META"@, "TXT"@),
            LogFile::BootCounter => ("BOOT"@, "NXT"@),
        }
    }

    /// The eleven bytes of a file's short name.
    pub open spec fn name_bytes(self) -> Seq<u8> {
        padded(self.name_parts().0, 8) + padded(self.name_parts().1, 3)
    }
}

/// The names of the device's files are plain ones.
pub proof fn lemma_filenames_are_plain(file: LogFile)
    ensures
        is_plain_name(file.spec_filename()@, file.name_parts().0, file.name_parts().1),
{
    reveal_strlit(".");
    reveal_strlit("SYS_LOG.TXT");
    reveal_strlit("SYS_LOG");
    reveal_strlit("TXT");
    reveal_strlit("DEBUG.LOG");
    reveal_strlit("DEBUG");
    reveal_strlit("LOG");
    reveal_strlit("RX.LOG");
    reveal_strlit("RX");
    reveal_strlit("LOCAL.LOG");
    reveal_strlit("LOCAL");
    reveal_strlit("EVENT.LOG");
    reveal_strlit("EVENT");
    reveal_strlit("META.TXT");
    reveal_strlit("META");
    reveal_strlit("BOOT.NXT");
    reveal_strlit("BOOT");
    reveal_strlit("NXT");
    assert(file.spec_filename()@ =~= file.name_parts().0 + "."@ + file.name_parts().1);
}

/// The short name of one of the device's files.
pub fn short_file_name(file: LogFile) -> (name: embedded_sdmmc::ShortFileName)
    ensures
        short_name_bytes(name) == file.name_bytes(),
{
    proof {
        lemma_filenames_are_plain(file);
    }
    create_short_name(file.filename()).unwrap()
}

/// Whether a name has been found after one more entry.
pub open spec fn found_after(found: bool, wanted: Seq<u8>, entry: Seq<u8>) -> bool {
    found || entry == wanted
}

/// Whether a name has been found after some entries, one after the other.
pub open spec fn found_among(wanted: Seq<u8>, entries: Seq<Seq<u8>>) -> bool
    decreases entries.len(),
{
    if entries.len() == 0 {
        false
    } else {
        found_after(found_among(wanted, entries.drop_last()), wanted, entries.last())
    }
}

/// A file is found exactly where one of the entries has its name, wherever that one stands.
pub proof fn law_files_are_found(wanted: Seq<u8>, entries: Seq<Seq<u8>>)
    ensures
        found_among(wanted, entries) <==> entries.contains(wanted),
    decreases entries.len(),
{
    if entries.len() > 0 {
        let front = entries.drop_last();
        law_files_are_found(wanted, front);
        let n = entries.len() - 1;
        if front.contains(wanted) {
            let i = choose|i: int| 0 <= i < front.len() && front[i] == wanted;
            assert(entries[i] == wanted);
        }
        if entries.contains(wanted) {
            let i = choose|i: int| 0 <= i < entries.len() && entries[i] == wanted;
            if i < n {
                assert(front[i] == wanted);
            }
        }
        assert(entries[n] == entries.last());
    }
}

/// Whether one of the device's files is among the entries of a directory, which are shown to it
/// one by one.
pub struct FileLookup {
    pub wanted: embedded_sdmmc::ShortFileName,
    pub found: bool,
}

impl FileLookup {
    pub fn new(file: LogFile) -> (lookup: Self)
        ensures
            short_name_bytes(lookup.wanted) == file.name_bytes(),
            !lookup.found,
    {
        FileLookup { wanted: short_file_name(file), found: false }
    }

    pub fn visit(&mut self, entry: &embedded_sdmmc::ShortFileName)
        ensures
            final(self).wanted == old(self).wanted,
            final(self).found == found_after(
                old(self).found,
                short_name_bytes(old(self).wanted),
                short_name_bytes(*entry),
            ),
    {
        if same_short_name(entry, &self.wanted) {
            self.found = true;
        }
    }
}

/// The name of a survey's directory: its number in eight hexadecimal digits.
pub open spec fn survey_name(survey_id: u32) -> Seq<char> {
    hex_fixed(survey_id as nat, 8)
}

/// The name of a survey's directory: its number in eight hexadecimal digits.
pub fn survey_directory_name(survey_id: u32) -> (name: Text<8>)
    ensures
        name@ == survey_name(survey_id),
{
    let mut line: Line<8> = Line::start("");
    line.add_hex(survey_id as u64, 8);
    proof {
        reveal_strlit("");
        assert(line@ =~= hex_fixed(survey_id as nat, 8));
        lemma_hex_within(survey_id as nat, 8);
        lemma_ascii_bytes(line@, 8);
    }
    line.finish().unwrap()
}

/// Whether a number can be that of a session.
pub open spec fn is_session(session: int) -> bool {
    1 <= session <= MAX_BOOT_SESSION
}

/// The name of a session's directory: `B` and its number in seven digits.
pub open spec fn session_name(session: nat) -> Seq<char> {
    "B"@ + decimal_fixed(session, 7)
}

/// The name of a session's directory; `None` for a number that no session can have.
pub fn boot_session_directory_name(session: u32) -> (name: Option<Text<8>>)
    ensures
        name is Some <==> is_session(session as int),
        name matches Some(text) ==> text@ == session_name(session as nat),
{
    if session == 0 || session > MAX_BOOT_SESSION {
        return None;
    }
    let mut line: Line<8> = Line::start("B");
    line.add_fixed(session as u64, 7);
    proof {
        reveal_strlit("B");
        lemma_fixed_within(session as nat, 7);
        lemma_ascii_sum("B"@, 1, decimal_fixed(session as nat, 7), 7);
        lemma_ascii_bytes(line@, 8);
    }
    line.finish()
}

/// The number of the session whose directory has this name, eight bytes that begin with `B` and go
/// on with digits. `None` where the name is no such name.
pub open spec fn session_of(base: Seq<u8>) -> Option<u32> {
    if base.len() == 8 && base[0] == BOOT_SESSION_PREFIX && all_digits(base.skip(1)) {
        Some(digits_value(base.skip(1)) as u32)
    } else {
        None
    }
}

/// Reads the number of a session off the name of its directory.
pub fn session_number(base: &[u8]) -> (number: Option<u32>)
    ensures
        number == session_of(base@),
        number matches Some(session) ==> session <= MAX_BOOT_SESSION,
{
    if base.len() != 8 || base[0] != BOOT_SESSION_PREFIX {
        return None;
    }
    let ghost digits = base@.skip(1);
    let mut value: u32 = 0;
    let mut i: usize = 1;
    proof {
        assert(digits.take(0) =~= Seq::<u8>::empty());
        assert(pow10(7) == 10_000_000) by {
            reveal_with_fuel(pow10, 8);
        }
    }
    while i < 8
        invariant
            1 <= i <= 8,
            base@.len() == 8,
            digits == base@.skip(1),
            all_digits(digits.take(i - 1)),
            value == digits_value(digits.take(i - 1)),
            value < pow10((i - 1) as nat),
            pow10(7) == 10_000_000,
        decreases 8 - i,
    {
        let byte: u8 = base[i];
        assert(digits[i - 1] == byte);
        if byte < 0x30 || byte > 0x39 {
            assert(!is_digit(digits[i - 1]));
            return None;
        }
        proof {
            let longer = digits.take(i as int);
            assert(longer.drop_last() =~= digits.take(i - 1));
            assert(longer.last() == byte);
            assert forall|j: int| 0 <= j < longer.len() implies is_digit(longer[j]) by {
                if j < i - 1 {
                    assert(is_digit(digits.take(i - 1)[j]));
                }
            }
            lemma_digits_value_bound(longer);
            crate::digits::lemma_pow10_grows(i as nat, 7);
        }
        value = value * 10 + (byte - 0x30) as u32;
        i = i + 1;
    }
    assert(digits.take(7) =~= digits);
    Some(value)
}

/// The highest number among the sessions of a survey, whose directory's entries are shown to it one
/// by one.
pub struct SessionScan {
    pub highest: u32,
}

/// The number that an entry of a directory adds to a scan.
pub open spec fn entry_session(is_directory: bool, name: Seq<u8>) -> Option<u32> {
    if is_directory {
        session_of(before_space(name.take(8)))
    } else {
        None
    }
}

/// The highest number after one more entry.
pub open spec fn highest_after(highest: u32, session: Option<u32>) -> u32 {
    match session {
        Some(number) => if number > highest {
            number
        } else {
            highest
        },
        None => highest,
    }
}

/// The highest number among some entries, 0 where none is a session.
pub open spec fn highest_of(sessions: Seq<Option<u32>>) -> u32
    decreases sessions.len(),
{
    if sessions.len() == 0 {
        0
    } else {
        highest_after(highest_of(sessions.drop_last()), sessions.last())
    }
}

impl SessionScan {
    pub fn new() -> (scan: Self)
        ensures
            scan.highest == 0,
    {
        SessionScan { highest: 0 }
    }

    pub fn visit(&mut self, is_directory: bool, name: &embedded_sdmmc::ShortFileName)
        ensures
            final(self).highest == highest_after(
                old(self).highest,
                entry_session(is_directory, short_name_bytes(*name)),
            ),
            old(self).highest <= MAX_BOOT_SESSION ==> final(self).highest <= MAX_BOOT_SESSION,
    {
        if !is_directory {
            return ;
        }
        match session_number(short_base_name(name)) {
            Some(number) => if number > self.highest {
                self.highest = number;
            },
            None => {},
        }
    }
}

/// The number behind the highest is that of no session which the scan saw.
pub proof fn law_scan_finds_a_free_number(sessions: Seq<Option<u32>>, index: int)
    requires
        0 <= index < sessions.len(),
    ensures
        sessions[index] matches Some(number) ==> number < highest_of(sessions) + 1,
    decreases sessions.len(),
{
    if index < sessions.len() - 1 {
        assert(sessions.drop_last()[index] == sessions[index]);
        law_scan_finds_a_free_number(sessions.drop_last(), index);
    }
}

/// What the counter file holds: the next number in at least eight digits, and a line feed.
pub open spec fn counter_text(next: nat) -> Seq<char> {
    (if next < 100_000_000 {
        decimal_fixed(next, 8)
    } else {
        decimal(next)
    }) + "\n"@
}

pub fn boot_counter_text(next_session: u32) -> (text: Text<16>)
    ensures
        text@ == counter_text(next_session as nat),
{
    let mut line: Line<16> = Line::start("");
    if next_session < 100_000_000 {
        line.add_fixed(next_session as u64, 8);
    } else {
        line.add_u64(next_session as u64);
    }
    proof {
        reveal_strlit("");
        reveal_strlit("\n");
        lemma_number_sizes();
        lemma_fixed_within(next_session as nat, 8);
        lemma_decimal_within(next_session as nat, 10);
        let digits = if next_session < 100_000_000 {
            decimal_fixed(next_session as nat, 8)
        } else {
            decimal(next_session as nat)
        };
        assert(line@ =~= digits);
        lemma_ascii_sum(digits, 10, "\n"@, 1);
    }
    line.add_str("\n");
    proof {
        lemma_ascii_bytes(line@, 16);
    }
    line.finish().unwrap()
}

/// A space, a tab or the end of a line.
pub open spec fn is_blank(byte: u8) -> bool {
    byte == 0x0D || byte == 0x0A || byte == 0x20 || byte == 0x09
}

/// How many blanks a text begins with.
pub open spec fn leading_blanks(s: Seq<u8>) -> nat
    decreases s.len(),
{
    if s.len() > 0 && is_blank(s[0]) {
        1 + leading_blanks(s.drop_first())
    } else {
        0
    }
}

/// How many digits a text begins with.
pub open spec fn leading_digits(s: Seq<u8>) -> nat
    decreases s.len(),
{
    if s.len() > 0 && is_digit(s[0]) {
        1 + leading_digits(s.drop_first())
    } else {
        0
    }
}

/// The number that a counter file holds: the first number in it, with nothing but blanks before it
/// and a blank or the end behind it.
pub open spec fn counter_value(s: Seq<u8>) -> Option<u32> {
    let rest = s.skip(leading_blanks(s) as int);
    let count = leading_digits(rest) as int;
    let digits = rest.take(count);
    if count > 0 && digits_value(digits) <= u32::MAX && (count == rest.len() || is_blank(
        rest[count],
    )) {
        Some(digits_value(digits) as u32)
    } else {
        None
    }
}

proof fn lemma_leading(s: Seq<u8>)
    ensures
        leading_blanks(s) <= s.len(),
        leading_digits(s) <= s.len(),
        all_digits(s.take(leading_digits(s) as int)),
        leading_blanks(s) < s.len() ==> !is_blank(s[leading_blanks(s) as int]),
        leading_digits(s) < s.len() ==> !is_digit(s[leading_digits(s) as int]),
    decreases s.len(),
{
    if s.len() > 0 {
        let rest = s.drop_first();
        lemma_leading(rest);
        if is_digit(s[0]) {
            let count = leading_digits(s) as int;
            assert forall|i: int| 0 <= i < count implies is_digit(#[trigger] s.take(count)[i]) by {
                if i > 0 {
                    assert(rest.take(count - 1)[i - 1] == s[i]);
                }
            }
        }
    }
}

fn skip_blanks(bytes: &[u8]) -> (rest: &[u8])
    ensures
        rest@ == bytes@.skip(leading_blanks(bytes@) as int),
{
    let mut rest = bytes;
    assert(rest@ =~= bytes@.skip(0));
    let ghost mut skipped: int = 0;
    while rest.len() > 0 && (rest[0] == 0x0D || rest[0] == 0x0A || rest[0] == 0x20 || rest[0]
        == 0x09)
        invariant
            0 <= skipped <= bytes@.len(),
            rest@ == bytes@.skip(skipped),
            leading_blanks(bytes@) == skipped + leading_blanks(rest@),
        decreases rest@.len(),
    {
        let shorter = vstd::slice::slice_subrange(rest, 1, rest.len());
        proof {
            assert(shorter@ =~= rest@.drop_first());
            assert(shorter@ =~= bytes@.skip(skipped + 1));
            skipped = skipped + 1;
        }
        rest = shorter;
    }
    rest
}

fn count_digits(bytes: &[u8]) -> (count: usize)
    ensures
        count == leading_digits(bytes@),
        count <= bytes@.len(),
{
    let mut count: usize = 0;
    assert(bytes@.skip(0) =~= bytes@);
    while count < bytes.len() && 0x30 <= bytes[count] && bytes[count] <= 0x39
        invariant
            count <= bytes@.len(),
            leading_digits(bytes@) == count + leading_digits(bytes@.skip(count as int)),
        decreases bytes@.len() - count,
    {
        assert(bytes@.skip(count as int).drop_first() =~= bytes@.skip(count + 1));
        assert(bytes@.skip(count as int)[0] == bytes@[count as int]);
        count = count + 1;
    }
    proof {
        if count < bytes.len() {
            assert(bytes@.skip(count as int)[0] == bytes@[count as int]);
        }
    }
    count
}

/// Reads the number that a counter file holds.
pub fn parse_boot_counter(bytes: &[u8]) -> (next_session: Option<u32>)
    ensures
        next_session == counter_value(bytes@),
{
    proof {
        lemma_leading(bytes@);
    }
    let rest = skip_blanks(bytes);
    let count: usize = count_digits(rest);
    proof {
        lemma_leading(rest@);
    }
    if count < rest.len() {
        let behind: u8 = rest[count];
        if behind != 0x0D && behind != 0x0A && behind != 0x20 && behind != 0x09 {
            return None;
        }
    }
    let digits = vstd::slice::slice_subrange(rest, 0, count);
    assert(digits@ =~= rest@.take(count as int));
    crate::digits::parse_digits(digits)
}

/// A number of fixed width is made of digits which spell it.
proof fn lemma_fixed_spells(value: nat, width: nat)
    requires
        value < pow10(width),
    ensures
        ({
            let bytes = encode_utf8(decimal_fixed(value, width));
            &&& bytes.len() == width
            &&& all_digits(bytes)
            &&& digits_value(bytes) == value
        }),
    decreases width,
{
    let bytes = encode_utf8(decimal_fixed(value, width));
    if width == 0 {
        assert(bytes =~= Seq::<u8>::empty());
    } else {
        let front = decimal_fixed(value / 10, (width - 1) as nat);
        let c = digit_char((value % 10) as int);
        lemma_fixed_spells(value / 10, (width - 1) as nat);
        crate::text::lemma_encode_push(front, c);
        crate::text::lemma_encode_ascii(c);
        assert(bytes =~= encode_utf8(front).push(c as u8));
        assert(bytes.drop_last() =~= encode_utf8(front));
    }
}

/// A number is made of digits which spell it.
proof fn lemma_decimal_spells(value: nat)
    ensures
        ({
            let bytes = encode_utf8(decimal(value));
            &&& bytes.len() > 0
            &&& all_digits(bytes)
            &&& digits_value(bytes) == value
        }),
    decreases value,
{
    let bytes = encode_utf8(decimal(value));
    let c = digit_char((value % 10) as int);
    let front = if value < 10 {
        Seq::<char>::empty()
    } else {
        decimal(value / 10)
    };
    if value >= 10 {
        lemma_decimal_spells(value / 10);
    } else {
        assert(encode_utf8(front) =~= Seq::<u8>::empty());
    }
    crate::text::lemma_encode_push(front, c);
    crate::text::lemma_encode_ascii(c);
    assert(decimal(value) =~= front.push(c));
    assert(bytes =~= encode_utf8(front).push(c as u8));
    assert(bytes.drop_last() =~= encode_utf8(front));
    assert(digits_value(encode_utf8(front)) == value / 10);
    assert(is_digit(c as u8));
    assert forall|i: int| 0 <= i < bytes.len() implies is_digit(#[trigger] bytes[i]) by {
        if i < bytes.len() - 1 {
            assert(bytes[i] == encode_utf8(front)[i]);
        }
    }
}

/// Digits with a blank behind them are read as the number that they spell, whatever follows.
proof fn lemma_digits_then_blank(digits: Seq<u8>, blank: u8, rest: Seq<u8>)
    requires
        all_digits(digits),
        digits.len() > 0,
        is_blank(blank),
        digits_value(digits) <= u32::MAX,
    ensures
        counter_value(digits.push(blank) + rest) == Some(digits_value(digits) as u32),
{
    let s = digits.push(blank) + rest;
    assert(s[0] == digits[0]);
    assert(is_digit(digits[0]));
    assert(leading_blanks(s) == 0);
    assert(s.skip(0) =~= s);
    lemma_leading_digits(digits, blank, rest);
    assert(s.take(digits.len() as int) =~= digits);
    assert(s[digits.len() as int] == blank);
}

proof fn lemma_leading_digits(digits: Seq<u8>, blank: u8, rest: Seq<u8>)
    requires
        all_digits(digits),
        is_blank(blank),
    ensures
        leading_digits(digits.push(blank) + rest) == digits.len(),
    decreases digits.len(),
{
    let s = digits.push(blank) + rest;
    if digits.len() > 0 {
        assert(s[0] == digits[0]);
        assert(is_digit(digits[0]));
        assert forall|i: int| 0 <= i < digits.drop_first().len() implies is_digit(
            #[trigger] digits.drop_first()[i],
        ) by {
            assert(is_digit(digits[i + 1]));
        }
        lemma_leading_digits(digits.drop_first(), blank, rest);
        assert(s.drop_first() =~= digits.drop_first().push(blank) + rest);
    } else {
        assert(s[0] == blank);
    }
}

/// The counter gives back the number that was written to its start, whatever is behind it.
pub proof fn law_counter_gives_back_its_number(next: u32, rest: Seq<u8>)
    ensures
        counter_value(encode_utf8(counter_text(next as nat)) + rest) == Some(next),
{
    let digits = if next < 100_000_000 {
        decimal_fixed(next as nat, 8)
    } else {
        decimal(next as nat)
    };
    if next < 100_000_000 {
        assert(pow10(8) == 100_000_000) by {
            reveal_with_fuel(pow10, 9);
        }
        lemma_fixed_spells(next as nat, 8);
    } else {
        lemma_decimal_spells(next as nat);
    }
    reveal_strlit("\n");
    assert(counter_text(next as nat) =~= digits.push('\n'));
    crate::text::lemma_encode_push(digits, '\n');
    crate::text::lemma_encode_ascii('\n');
    assert(encode_utf8(counter_text(next as nat)) =~= encode_utf8(digits).push(0x0A));
    lemma_digits_then_blank(encode_utf8(digits), 0x0A, rest);
}

/// A session's directory is recognized by its name.
pub proof fn law_session_names_are_recognized(session: nat)
    requires
        is_session(session as int),
    ensures
        session_of(encode_utf8(session_name(session))) == Some(session as u32),
{
    reveal_strlit("B");
    assert(pow10(7) == 10_000_000) by {
        reveal_with_fuel(pow10, 8);
    }
    lemma_fixed_spells(session, 7);
    crate::text::lemma_encode_concat("B"@, decimal_fixed(session, 7));
    assert("B"@ =~= Seq::<char>::empty().push('B'));
    crate::text::lemma_encode_push(Seq::empty(), 'B');
    crate::text::lemma_encode_ascii('B');
    assert(encode_utf8(Seq::<char>::empty()) =~= Seq::<u8>::empty());
    let bytes = encode_utf8(session_name(session));
    assert(encode_utf8("B"@) =~= seq![0x42u8]);
    assert(bytes.skip(1) =~= encode_utf8(decimal_fixed(session, 7)));
}

/// What the file that describes a session holds.
pub open spec fn metadata_text(
    survey_id: u32,
    session: u32,
    info: SystemInfo,
    start_mono_ms: u64,
) -> Seq<char> {
    "LOG_SCHEMA="@ + decimal(LOG_SCHEMA_VERSION as nat)
        + "\r\nIMPLEMENTATION_STAGE=V2B1\r\nSURVEY_ID="@ + hex_fixed(survey_id as nat, 8)
        + "\r\nSYSTEM_ID="@ + hex_fixed(info.system_id.value as nat, 16) + "\r\nBOOT_SESSION="@
        + decimal(session as nat) + "\r\nSESSION_DIR="@ + session_name(session as nat)
        + "\r\nFIRMWARE="@ + info.firmware_version.value@ + "\r\nRF_PROTOCOL="@ + decimal(
        info.protocol_version.value as nat,
    ) + "\r\nCONFIG_SCHEMA="@ + decimal(info.config_version.value as nat)
        + "\r\nSTART_MONO_MS="@ + decimal(start_mono_ms as nat)
        + "\r\nTIME_MODEL=MONOTONIC_PLUS_GPS_UTC_ANCHOR"@ + "\r\nLOCAL_SAMPLE_HZ=1"@
        + "\r\nRX_PACKET_FORMAT=TELEMETRY_V1\r\n"@
}

/// The description of a session; `None` for a number that no session can have, and where the
/// description does not fit.
pub fn metadata_record(
    survey_id: u32,
    session: u32,
    info: SystemInfo,
    start_mono_ms: u64,
) -> (text: Option<Text<METADATA_CAPACITY>>)
    ensures
        text is Some <==> is_session(session as int) && byte_len(
            metadata_text(survey_id, session, info, start_mono_ms),
        ) <= METADATA_CAPACITY,
        text matches Some(record) ==> record@ == metadata_text(
            survey_id,
            session,
            info,
            start_mono_ms,
        ),
{
    let directory = match boot_session_directory_name(session) {
        Some(name) => name,
        None => return None,
    };
    let mut line: Line<METADATA_CAPACITY> = Line::start("LOG_SCHEMA=");
    line.add_u64(LOG_SCHEMA_VERSION as u64);
    line.add_str("\r\nIMPLEMENTATION_STAGE=V2B1\r\nSURVEY_ID=");
    line.add_hex(survey_id as u64, 8);
    line.add_str("\r\nSYSTEM_ID=");
    line.add_hex(info.system_id.value, 16);
    line.add_str("\r\nBOOT_SESSION=");
    line.add_u64(session as u64);
    line.add_str("\r\nSESSION_DIR=");
    line.add_str(directory.as_str());
    line.add_str("\r\nFIRMWARE=");
    line.add_str(info.firmware_version.value);
    line.add_str("\r\nRF_PROTOCOL=");
    line.add_u64(info.protocol_version.value as u64);
    line.add_str("\r\nCONFIG_SCHEMA=");
    line.add_u64(info.config_version.value as u64);
    line.add_str("\r\nSTART_MONO_MS=");
    line.add_u64(start_mono_ms);
    line.add_str("\r\nTIME_MODEL=MONOTONIC_PLUS_GPS_UTC_ANCHOR");
    line.add_str("\r\nLOCAL_SAMPLE_HZ=1");
    line.add_str("\r\nRX_PACKET_FORMAT=TELEMETRY_V1\r\n");
    line.finish()
}

/// The name of a survey's directory is eight hexadecimal digits, which read back as its number.
pub proof fn law_survey_names_read_back(survey_id: u32)
    ensures
        survey_name(survey_id).len() == 8,
        read_hex(survey_name(survey_id)) == Some(survey_id as int),
{
    reveal_with_fuel(pow16, 9);
    law_hex_reads_back(survey_id as nat, 8);
}

/// Each of the device's files has a name of its own.
pub proof fn law_names_of_files(file: LogFile)
    ensures
        file is System <==> file.spec_filename()@ == "SYS_LOG.TXT"@,
        file is Debug <==> file.spec_filename()@ == "DEBUG.LOG"@,
        file is Rx <==> file.spec_filename()@ == "RX.LOG"@,
        file is Local <==> file.spec_filename()@ == "LOCAL.LOG"@,
        file is Event <==> file.spec_filename()@ == "EVENT.LOG"@,
        file is Meta <==> file.spec_filename()@ == "META.TXT"@,
        file is BootCounter <==> file.spec_filename()@ == "BOOT.NXT"@,
{
    reveal_strlit("SYS_LOG.TXT");
    reveal_strlit("DEBUG.LOG");
    reveal_strlit("RX.LOG");
    reveal_strlit("LOCAL.LOG");
    reveal_strlit("EVENT.LOG");
    reveal_strlit("META.TXT");
    reveal_strlit("BOOT.NXT");
    assert("SYS_LOG.TXT"@.len() == 11 && "DEBUG.LOG"@.len() == 9 && "RX.LOG"@.len() == 6);
    assert("LOCAL.LOG"@.len() == 9 && "EVENT.LOG"@.len() == 9);
    assert("META.TXT"@.len() == 8 && "BOOT.NXT"@.len() == 8);
    assert("DEBUG.LOG"@[0] == 'D' && "LOCAL.LOG"@[0] == 'L' && "EVENT.LOG"@[0] == 'E');
    assert("META.TXT"@[0] == 'M' && "BOOT.NXT"@[0] == 'B');
}

/// Sessions have the numbers from 1 to 9999999.
pub proof fn law_numbers_of_sessions(session: int)
    ensures
        is_session(session) <==> 1 <= session <= 9_999_999,
{
}

/// A directory is that of a session exactly where its name is a `B` and seven digits, which are its
/// number.
pub proof fn law_directories_of_sessions(name: Seq<u8>)
    ensures
        session_of(name) is Some <==> name.len() == 8 && name[0] == 66 && forall|i: int|
            1 <= i < 8 ==> 48 <= #[trigger] name[i] <= 57,
        session_of(name) is Some ==> session_of(name)->0 == digits_value(name.skip(1))
            && session_of(name)->0 <= 9_999_999,
{
    let digits = name.skip(1);
    if name.len() == 8 && name[0] == 66 {
        if forall|i: int| 1 <= i < 8 ==> 48 <= #[trigger] name[i] <= 57 {
            assert forall|i: int| 0 <= i < digits.len() implies is_digit(#[trigger] digits[i]) by {
                assert(digits[i] == name[i + 1]);
            }
        }
        if all_digits(digits) {
            assert forall|i: int| 1 <= i < 8 implies 48 <= #[trigger] name[i] <= 57 by {
                assert(is_digit(digits[i - 1]));
                assert(digits[i - 1] == name[i]);
            }
            lemma_digits_value_bound(digits);
            assert(pow10(7) == 10_000_000) by {
                reveal_with_fuel(pow10, 8);
            }
        }
    }
}

/// A file is no session, whatever its name, and a directory is one by its name up to the first
/// space in eight bytes.
pub proof fn law_entries_of_a_survey(name: Seq<u8>)
    ensures
        entry_session(false, name) is None,
        entry_session(true, name) == session_of(before_space(name.take(8))),
{
}

/// The highest number is that of one of the sessions, or 0 where there is none, and no session has
/// a higher one.
pub proof fn law_highest_is_the_highest(sessions: Seq<Option<u32>>)
    ensures
        highest_of(sessions) == 0 || exists|i: int|
            0 <= i < sessions.len() && #[trigger] sessions[i] == Some(highest_of(sessions)),
        forall|i: int|
            0 <= i < sessions.len() ==> (#[trigger] sessions[i] matches Some(number) ==> number
                <= highest_of(sessions)),
    decreases sessions.len(),
{
    if sessions.len() > 0 {
        let front = sessions.drop_last();
        law_highest_is_the_highest(front);
        let n = sessions.len() - 1;
        if highest_of(sessions) == highest_of(front) && highest_of(front) != 0 {
            let i = choose|i: int|
                0 <= i < front.len() && #[trigger] front[i] == Some(highest_of(front));
            assert(sessions[i] == Some(highest_of(sessions)));
        } else if highest_of(sessions) != 0 {
            assert(sessions[n] == Some(highest_of(sessions)));
        }
        assert forall|i: int| 0 <= i < sessions.len() implies (#[trigger] sessions[i] matches Some(
            number,
        ) ==> number <= highest_of(sessions)) by {
            if i < n {
                assert(front[i] == sessions[i]);
            }
        }
    }
}

/// The counter file is at least eight digits and a line feed, and the digits read back as the next
/// number.
pub proof fn law_counter_text_reads_back(next: nat)
    ensures
        counter_text(next).len() >= 9,
        counter_text(next).last() == '\n',
        read_nat(counter_text(next).drop_last()) == Some(next as int),
        next < 100_000_000 ==> counter_text(next).len() == 9,
{
    reveal_strlit("\n");
    assert(pow10(8) == 100_000_000) by {
        reveal_with_fuel(pow10, 9);
    }
    if next < 100_000_000 {
        law_fixed_reads_back(next, 8);
        assert(counter_text(next).drop_last() =~= decimal_fixed(next, 8));
    } else {
        law_decimal_reads_back(next);
        assert(counter_text(next).drop_last() =~= decimal(next));
        lemma_decimal_long(next, 8);
    }
}

proof fn lemma_decimal_long(value: nat, width: nat)
    requires
        value >= pow10(width),
    ensures
        decimal(value).len() > width,
    decreases width,
{
    if width > 0 {
        crate::digits::lemma_pow10_grows(0, (width - 1) as nat);
        lemma_decimal_long(value / 10, (width - 1) as nat);
    }
}

} // verus!
