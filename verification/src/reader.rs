//! How the texts that the device writes are read again.
//!
//! Nothing here is executed: it says what a reader of the logs and of the screen can rely on.
use vstd::prelude::*;

use crate::digits::pow10;
use crate::format::{
    decimal, decimal_fixed, decimal_signed, flag, hex_fixed, optional_i16, optional_i32,
    optional_u16, optional_u32, optional_u64, optional_u8,
};

verus! {

/// The pieces of a text between the places where a character stands.
#[verifier::opaque]
pub open spec fn split(s: Seq<char>, stop: char) -> Seq<Seq<char>>
    decreases s.len(),
{
    if s.len() == 0 {
        seq![Seq::empty()]
    } else {
        let front = split(s.drop_last(), stop);
        if s.last() == stop {
            front.push(Seq::empty())
        } else {
            front.drop_last().push(front.last().push(s.last()))
        }
    }
}

/// Whether a character does not occur in a text.
#[verifier::opaque]
pub open spec fn free_of(s: Seq<char>, stop: char) -> bool {
    forall|i: int| 0 <= i < s.len() ==> s[i] != stop
}

pub proof fn lemma_split_len(s: Seq<char>, stop: char)
    ensures
        split(s, stop).len() >= 1,
    decreases s.len(),
{
    reveal(split);
    if s.len() > 0 {
        lemma_split_len(s.drop_last(), stop);
    }
}

/// A text without the character makes the last piece longer.
pub proof fn lemma_split_longer(s: Seq<char>, t: Seq<char>, stop: char)
    requires
        free_of(t, stop),
    ensures
        split(s + t, stop) == split(s, stop).drop_last().push(split(s, stop).last() + t),
    decreases t.len(),
{
    reveal(split);
    reveal(free_of);
    lemma_split_len(s, stop);
    let pieces = split(s, stop);
    if t.len() == 0 {
        assert(s + t =~= s);
        assert(pieces.last() + t =~= pieces.last());
        assert(pieces =~= pieces.drop_last().push(pieces.last()));
    } else {
        let front = t.drop_last();
        assert forall|i: int| 0 <= i < front.len() implies front[i] != stop by {
            assert(front[i] == t[i]);
        }
        lemma_split_longer(s, front, stop);
        assert((s + t).drop_last() =~= s + front);
        assert((s + t).last() == t.last());
        assert(t[t.len() - 1] != stop);
        let before = split(s + front, stop);
        assert(before.drop_last() =~= pieces.drop_last());
        assert((pieces.last() + front).push(t.last()) =~= pieces.last() + t);
    }
}

/// The character between two texts parts their pieces.
pub proof fn lemma_split_parts(s: Seq<char>, t: Seq<char>, stop: char)
    ensures
        split(s.push(stop) + t, stop) == split(s, stop) + split(t, stop),
    decreases t.len(),
{
    reveal(split);
    let whole = s.push(stop) + t;
    lemma_split_len(t, stop);
    if t.len() == 0 {
        assert(whole =~= s.push(stop));
        assert(whole.drop_last() =~= s);
        assert(split(s, stop) + split(t, stop) =~= split(s, stop).push(Seq::empty()));
    } else {
        let front = t.drop_last();
        lemma_split_parts(s, front, stop);
        lemma_split_len(front, stop);
        assert(whole.drop_last() =~= s.push(stop) + front);
        assert(whole.last() == t.last());
        let before = split(s, stop) + split(front, stop);
        assert(before.last() == split(front, stop).last());
        assert(before.drop_last() =~= split(s, stop) + split(front, stop).drop_last());
        assert(split(whole, stop) =~= split(s, stop) + split(t, stop));
    }
}

/// A text without the character is one piece.
pub proof fn lemma_split_one(t: Seq<char>, stop: char)
    requires
        free_of(t, stop),
    ensures
        split(t, stop) == seq![t],
{
    reveal(split);
    reveal(free_of);
    let none = Seq::<char>::empty();
    lemma_split_longer(none, t, stop);
    assert(none + t =~= t);
    assert(split(none, stop) =~= seq![none]);
    assert(split(t, stop) =~= seq![t]);
}

/// A key behind the character, and a value behind the key, are one more piece.
pub proof fn lemma_split_item(
    s: Seq<char>,
    pieces: Seq<Seq<char>>,
    stop: char,
    mark: Seq<char>,
    key: Seq<char>,
    value: Seq<char>,
)
    requires
        split(s, stop) == pieces,
        mark == seq![stop] + key,
        free_of(key, stop),
        free_of(value, stop),
    ensures
        split(s + mark + value, stop) == pieces.push(key + value),
{
    reveal(split);
    reveal(free_of);
    reveal(read_optional);
    let item = key + value;
    assert(free_of(item, stop));
    lemma_split_parts(s, item, stop);
    lemma_split_one(item, stop);
    assert(s + mark + value =~= s.push(stop) + item);
    assert(pieces + seq![item] =~= pieces.push(item));
}

pub open spec fn is_digit_char(c: char) -> bool {
    '0' <= c <= '9'
}

/// The number that decimal digits spell.
pub open spec fn digits_read(s: Seq<char>) -> int
    decreases s.len(),
{
    if s.len() == 0 {
        0
    } else {
        digits_read(s.drop_last()) * 10 + (s.last() as int - '0' as int)
    }
}

/// The number that a text of decimal digits spells; `None` for any other text.
pub open spec fn read_nat(s: Seq<char>) -> Option<int> {
    if s.len() > 0 && forall|i: int| 0 <= i < s.len() ==> is_digit_char(#[trigger] s[i]) {
        Some(digits_read(s))
    } else {
        None
    }
}

/// The number that decimal digits spell, with a minus sign before those of a negative one.
pub open spec fn read_int(s: Seq<char>) -> Option<int> {
    if s.len() > 0 && s[0] == '-' {
        match read_nat(s.skip(1)) {
            Some(size) => Some(-size),
            None => None,
        }
    } else {
        read_nat(s)
    }
}

/// A number that may be missing, which is written `NA`. `None` for a text that is neither.
#[verifier::opaque]
pub open spec fn read_optional(s: Seq<char>) -> Option<Option<int>> {
    if s == seq!['N', 'A'] {
        Some(None)
    } else {
        match read_int(s) {
            Some(number) => Some(Some(number)),
            None => None,
        }
    }
}

/// The number of a hexadecimal digit; `None` for any other character.
pub open spec fn hex_digit_read(c: char) -> Option<int> {
    if '0' <= c <= '9' {
        Some(c as int - '0' as int)
    } else if 'A' <= c <= 'F' {
        Some(c as int - 'A' as int + 10)
    } else {
        None
    }
}

/// The number that hexadecimal digits spell; `None` for any other text.
pub open spec fn read_hex(s: Seq<char>) -> Option<int>
    decreases s.len(),
{
    if s.len() == 0 {
        Some(0)
    } else {
        match (read_hex(s.drop_last()), hex_digit_read(s.last())) {
            (Some(front), Some(digit)) => Some(front * 16 + digit),
            _ => None,
        }
    }
}

/// Sixteen to the power of `n`.
pub open spec fn pow16(n: nat) -> nat
    decreases n,
{
    if n == 0 {
        1
    } else {
        16 * pow16((n - 1) as nat)
    }
}

/// A number in decimal digits reads back as itself, and has no zero before its first digit.
pub proof fn law_decimal_reads_back(n: nat)
    ensures
        read_nat(decimal(n)) == Some(n as int),
        read_int(decimal(n)) == Some(n as int),
        read_optional(decimal(n)) == Some(Some(n as int)),
        n >= 10 ==> decimal(n)[0] != '0',
        n < 10 ==> decimal(n).len() == 1,
    decreases n,
{
    reveal(read_optional);
    let text = decimal(n);
    if n < 10 {
        assert(text.drop_last() =~= Seq::<char>::empty());
        assert(digits_read(text.drop_last()) == 0);
        assert(is_digit_char(text[0]));
    } else {
        law_decimal_reads_back(n / 10);
        let front = decimal(n / 10);
        let last = text.last();
        assert(text.drop_last() =~= front);
        assert(is_digit_char(last));
        assert forall|i: int| 0 <= i < text.len() implies is_digit_char(#[trigger] text[i]) by {
            if i < front.len() {
                assert(text[i] == front[i]);
                assert(is_digit_char(front[i]));
            }
        }
        assert(text[0] == front[0]);
        if n / 10 < 10 {
            assert(front[0] == crate::format::digit_char((n / 10) as int));
        }
    }
    assert(is_digit_char(text[0]));
    assert(seq!['N', 'A'][0] == 'N');
}

/// A signed number reads back as itself.
pub proof fn law_signed_reads_back(n: int)
    ensures
        read_int(decimal_signed(n)) == Some(n),
        read_optional(decimal_signed(n)) == Some(Some(n)),
{
    reveal(read_optional);
    let text = decimal_signed(n);
    if n < 0 {
        law_decimal_reads_back((-n) as nat);
        assert(text.skip(1) =~= decimal((-n) as nat));
        assert(text[0] == '-');
    } else {
        law_decimal_reads_back(n as nat);
    }
    assert(seq!['N', 'A'][0] == 'N');
}

/// The digits of fixed width are as many as the width, and read back as the number where it has
/// no more.
pub proof fn law_fixed_reads_back(n: nat, width: nat)
    requires
        width > 0,
        n < pow10(width),
    ensures
        decimal_fixed(n, width).len() == width,
        read_nat(decimal_fixed(n, width)) == Some(n as int),
    decreases width,
{
    let text = decimal_fixed(n, width);
    let front = decimal_fixed(n / 10, (width - 1) as nat);
    assert(text.drop_last() =~= front);
    assert(is_digit_char(text.last()));
    if width > 1 {
        law_fixed_reads_back(n / 10, (width - 1) as nat);
        assert forall|i: int| 0 <= i < text.len() implies is_digit_char(#[trigger] text[i]) by {
            if i < front.len() {
                assert(text[i] == front[i]);
                assert(is_digit_char(front[i]));
            }
        }
    } else {
        assert(pow10(1) == 10) by {
            reveal_with_fuel(pow10, 2);
        }
        assert(front =~= Seq::<char>::empty());
        assert(digits_read(front) == 0);
    }
}

/// Hexadecimal digits of fixed width are as many as the width, and read back as the number where
/// it has no more.
pub proof fn law_hex_reads_back(n: nat, width: nat)
    requires
        n < pow16(width),
    ensures
        hex_fixed(n, width).len() == width,
        read_hex(hex_fixed(n, width)) == Some(n as int),
    decreases width,
{
    if width > 0 {
        law_hex_reads_back(n / 16, (width - 1) as nat);
        assert(hex_fixed(n, width).drop_last() =~= hex_fixed(n / 16, (width - 1) as nat));
    }
}

pub proof fn lemma_pow16_positive(width: nat)
    ensures
        pow16(width) > 0,
    decreases width,
{
    if width > 0 {
        lemma_pow16_positive((width - 1) as nat);
    }
}

/// Hexadecimal digits of fixed width read back as what is left of a number when the higher digits
/// are dropped.
pub proof fn law_low_hex_digits(n: nat, width: nat)
    ensures
        hex_fixed(n, width).len() == width,
        read_hex(hex_fixed(n, width)) == Some(n as int % pow16(width) as int),
    decreases width,
{
    lemma_pow16_positive(width);
    if width > 0 {
        let rest = (width - 1) as nat;
        law_low_hex_digits(n / 16, rest);
        lemma_pow16_positive(rest);
        assert(hex_fixed(n, width).drop_last() =~= hex_fixed(n / 16, rest));
        vstd::arithmetic::div_mod::lemma_mod_breakdown(n as int, 16, pow16(rest) as int);
    }
}

/// A truth value reads back as 1 or 0.
pub proof fn law_flag_reads_back(value: bool)
    ensures
        read_optional(flag(value)) == Some(
            Some(
                if value {
                    1int
                } else {
                    0int
                },
            ),
        ),
{
    reveal(read_optional);
    law_decimal_reads_back(1);
    law_decimal_reads_back(0);
}

/// A number that may be missing reads back as itself; `NA` is written exactly where it is missing.
pub proof fn law_optional_reads_back(
    a: Option<u64>,
    b: Option<u32>,
    c: Option<u16>,
    d: Option<u8>,
    e: Option<i32>,
    f: Option<i16>,
)
    ensures
        read_optional(optional_u64(a)) == Some(int_u64(a)),
        read_optional(optional_u32(b)) == Some(int_u32(b)),
        read_optional(optional_u16(c)) == Some(int_u16(c)),
        read_optional(optional_u8(d)) == Some(int_u8(d)),
        read_optional(optional_i32(e)) == Some(int_i32(e)),
        read_optional(optional_i16(f)) == Some(int_i16(f)),
{
    reveal(says);
    reveal(says_hex);
    reveal(read_optional);
    reveal_strlit("NA");
    assert("NA"@ =~= seq!['N', 'A']);
    if let Some(n) = a {
        law_decimal_reads_back(n as nat);
    }
    if let Some(n) = b {
        law_decimal_reads_back(n as nat);
    }
    if let Some(n) = c {
        law_decimal_reads_back(n as nat);
    }
    if let Some(n) = d {
        law_decimal_reads_back(n as nat);
    }
    if let Some(n) = e {
        law_signed_reads_back(n as int);
    }
    if let Some(n) = f {
        law_signed_reads_back(n as int);
    }
}

pub open spec fn int_u64(value: Option<u64>) -> Option<int> {
    match value {
        Some(n) => Some(n as int),
        None => None,
    }
}

pub open spec fn int_u32(value: Option<u32>) -> Option<int> {
    match value {
        Some(n) => Some(n as int),
        None => None,
    }
}

pub open spec fn int_u16(value: Option<u16>) -> Option<int> {
    match value {
        Some(n) => Some(n as int),
        None => None,
    }
}

pub open spec fn int_u8(value: Option<u8>) -> Option<int> {
    match value {
        Some(n) => Some(n as int),
        None => None,
    }
}

pub open spec fn int_i32(value: Option<i32>) -> Option<int> {
    match value {
        Some(n) => Some(n as int),
        None => None,
    }
}

pub open spec fn int_i16(value: Option<i16>) -> Option<int> {
    match value {
        Some(n) => Some(n as int),
        None => None,
    }
}

/// The readings of numbers, one at a time.
pub proof fn lemma_reads_decimal(n: nat)
    ensures
        read_optional(decimal(n)) == Some(Some(n as int)),
{
    law_decimal_reads_back(n);
}

pub proof fn lemma_reads_signed(n: int)
    ensures
        read_optional(decimal_signed(n)) == Some(Some(n)),
{
    law_signed_reads_back(n);
}

/// Whether a piece is a key with a number behind it, or with `NA` where there is none.
#[verifier::opaque]
pub open spec fn says(piece: Seq<char>, key: Seq<char>, value: Option<int>) -> bool {
    key.is_prefix_of(piece) && read_optional(piece.skip(key.len() as int)) == Some(value)
}

/// Whether a piece is a key with a number in hexadecimal digits of fixed width behind it.
#[verifier::opaque]
pub open spec fn says_hex(piece: Seq<char>, key: Seq<char>, value: int, width: nat) -> bool {
    &&& key.is_prefix_of(piece)
    &&& piece.len() == key.len() + width
    &&& read_hex(piece.skip(key.len() as int)) == Some(value)
}

pub proof fn lemma_says(key: Seq<char>, text: Seq<char>, value: Option<int>)
    requires
        read_optional(text) == Some(value),
    ensures
        says(key + text, key, value),
{
    reveal(says);
    reveal(read_optional);
    assert((key + text).skip(key.len() as int) =~= text);
    assert((key + text).take(key.len() as int) =~= key);
}

pub proof fn lemma_says_hex(key: Seq<char>, n: nat, width: nat)
    requires
        n < pow16(width),
    ensures
        says_hex(key + hex_fixed(n, width), key, n as int, width),
{
    reveal(says_hex);
    let text = hex_fixed(n, width);
    law_hex_reads_back(n, width);
    assert((key + text).skip(key.len() as int) =~= text);
    assert((key + text).take(key.len() as int) =~= key);
}

/// A text that reads as a number or as a missing one has no other characters than those of
/// numbers.
pub proof fn lemma_number_text(text: Seq<char>)
    requires
        read_optional(text) is Some,
    ensures
        free_of(text, ','),
        free_of(text, ' '),
        free_of(text, '\n'),
        free_of(text, '\r'),
{
    reveal(free_of);
    reveal(read_optional);
    if text == seq!['N', 'A'] {
    } else if text.len() > 0 && text[0] == '-' {
        let rest = text.skip(1);
        assert(read_nat(rest) is Some);
        assert forall|i: int| 0 <= i < text.len() implies text[i] != ',' && text[i] != ' '
            && text[i] != '\n' && text[i] != '\r' by {
            if i > 0 {
                assert(is_digit_char(rest[i - 1]));
                assert(rest[i - 1] == text[i]);
            }
        }
    } else {
        assert forall|i: int| 0 <= i < text.len() implies text[i] != ',' && text[i] != ' '
            && text[i] != '\n' && text[i] != '\r' by {
            assert(is_digit_char(text[i]));
        }
    }
}

pub proof fn lemma_hex_text(text: Seq<char>)
    requires
        read_hex(text) is Some,
    ensures
        free_of(text, ','),
        free_of(text, ' '),
        free_of(text, '\n'),
        free_of(text, '\r'),
    decreases text.len(),
{
    reveal(free_of);
    if text.len() > 0 {
        let front = text.drop_last();
        lemma_hex_text(front);
        assert forall|i: int| 0 <= i < text.len() implies text[i] != ',' && text[i] != ' '
            && text[i] != '\n' && text[i] != '\r' by {
            if i < front.len() {
                assert(front[i] == text[i]);
            }
        }
    }
}

/// Whether piece `k` of a line is a key with a number behind it, or with `NA` where there is none.
#[verifier::opaque]
pub open spec fn tells(
    line: Seq<char>,
    stop: char,
    k: int,
    key: Seq<char>,
    value: Option<int>,
) -> bool {
    0 <= k < split(line, stop).len() && says(split(line, stop)[k], key, value)
}

/// Whether piece `k` of a line is a key with a number in hexadecimal digits of fixed width behind
/// it.
#[verifier::opaque]
pub open spec fn tells_hex(
    line: Seq<char>,
    stop: char,
    k: int,
    key: Seq<char>,
    value: int,
    width: nat,
) -> bool {
    0 <= k < split(line, stop).len() && says_hex(split(line, stop)[k], key, value, width)
}

/// Whether piece `k` of a line is a text.
#[verifier::opaque]
pub open spec fn tells_text(line: Seq<char>, stop: char, k: int, text: Seq<char>) -> bool {
    0 <= k < split(line, stop).len() && split(line, stop)[k] == text
}

/// How many pieces a line has.
pub open spec fn pieces(line: Seq<char>, stop: char) -> nat {
    split(line, stop).len()
}

/// Whether a line goes on as another one does: its pieces are the first of the other's.
#[verifier::opaque]
pub open spec fn goes_on(line: Seq<char>, longer: Seq<char>, stop: char) -> bool {
    split(line, stop).is_prefix_of(split(longer, stop))
}

/// What a line tells, one that goes on after it tells too.
pub proof fn lemma_goes_on(line: Seq<char>, longer: Seq<char>, stop: char)
    requires
        goes_on(line, longer, stop),
    ensures
        forall|k: int, key: Seq<char>, value: Option<int>|
            tells(line, stop, k, key, value) ==> #[trigger] tells(longer, stop, k, key, value),
        forall|k: int, key: Seq<char>, value: int, width: nat|
            tells_hex(line, stop, k, key, value, width) ==> #[trigger] tells_hex(
                longer,
                stop,
                k,
                key,
                value,
                width,
            ),
        forall|k: int, text: Seq<char>|
            tells_text(line, stop, k, text) ==> #[trigger] tells_text(longer, stop, k, text),
{
    reveal(goes_on);
    reveal(tells);
    reveal(tells_hex);
    reveal(tells_text);
    let a = split(line, stop);
    let b = split(longer, stop);
    assert forall|k: int| 0 <= k < a.len() implies a[k] == b[k] by {
        assert(b.subrange(0, a.len() as int)[k] == b[k]);
    }
}

/// Whether a mark is the character and a key behind it.
#[verifier::opaque]
pub open spec fn marks(mark: Seq<char>, key: Seq<char>, stop: char) -> bool {
    mark == seq![stop] + key && free_of(key, stop)
}

/// A text behind the character is one more piece.
pub proof fn lemma_text_item(
    s: Seq<char>,
    stop: char,
    mark: Seq<char>,
    key: Seq<char>,
    text: Seq<char>,
)
    requires
        marks(mark, key, stop),
        free_of(text, stop),
    ensures
        pieces(s + mark + text, stop) == pieces(s, stop) + 1,
        tells_text(s + mark + text, stop, pieces(s, stop) as int, key + text),
        goes_on(s, s + mark + text, stop),
{
    reveal(marks);
    reveal(goes_on);
    reveal(tells_text);
    lemma_split_item(s, split(s, stop), stop, mark, key, text);
    let a = split(s, stop);
    assert(a.push(key + text).subrange(0, a.len() as int) =~= a);
}

/// A key with a number behind it is one more piece, and tells the number.
pub proof fn lemma_item(
    s: Seq<char>,
    stop: char,
    mark: Seq<char>,
    key: Seq<char>,
    text: Seq<char>,
    value: Option<int>,
)
    requires
        stop == ',' || stop == ' ' || stop == '\r',
        marks(mark, key, stop),
        read_optional(text) == Some(value),
    ensures
        pieces(s + mark + text, stop) == pieces(s, stop) + 1,
        tells(s + mark + text, stop, pieces(s, stop) as int, key, value),
        goes_on(s, s + mark + text, stop),
{
    lemma_number_text(text);
    lemma_text_item(s, stop, mark, key, text);
    lemma_says(key, text, value);
    reveal(tells);
    reveal(tells_text);
}

/// A key with a number behind it is a piece, and tells the number.
pub proof fn lemma_first_item(stop: char, key: Seq<char>, text: Seq<char>, value: Option<int>)
    requires
        stop == ',' || stop == ' ' || stop == '\r',
        free_of(key, stop),
        read_optional(text) == Some(value),
    ensures
        pieces(key + text, stop) == 1,
        tells(key + text, stop, 0, key, value),
{
    reveal(free_of);
    reveal(tells);
    lemma_number_text(text);
    assert(free_of(key + text, stop));
    lemma_split_one(key + text, stop);
    lemma_says(key, text, value);
}

/// A key with a hexadecimal number behind it is one more piece, and tells the number.
pub proof fn lemma_hex_item(
    s: Seq<char>,
    stop: char,
    mark: Seq<char>,
    key: Seq<char>,
    n: nat,
    width: nat,
)
    requires
        stop == ',' || stop == ' ' || stop == '\r',
        marks(mark, key, stop),
        n < pow16(width),
    ensures
        pieces(s + mark + hex_fixed(n, width), stop) == pieces(s, stop) + 1,
        tells_hex(
            s + mark + hex_fixed(n, width),
            stop,
            pieces(s, stop) as int,
            key,
            n as int,
            width,
        ),
        goes_on(s, s + mark + hex_fixed(n, width), stop),
{
    law_hex_reads_back(n, width);
    lemma_hex_text(hex_fixed(n, width));
    lemma_text_item(s, stop, mark, key, hex_fixed(n, width));
    lemma_says_hex(key, n, width);
    reveal(tells_hex);
    reveal(tells_text);
}

/// A text that the character does not occur in is the one piece of itself.
pub proof fn lemma_first_text(text: Seq<char>, stop: char)
    requires
        free_of(text, stop),
    ensures
        pieces(text, stop) == 1,
        tells_text(text, stop, 0, text),
{
    reveal(tells_text);
    lemma_split_one(text, stop);
}

/// A text behind the character is one more piece.
pub proof fn lemma_const_item(s: Seq<char>, stop: char, mark: Seq<char>, text: Seq<char>)
    requires
        marks(mark, text, stop),
    ensures
        pieces(s + mark, stop) == pieces(s, stop) + 1,
        tells_text(s + mark, stop, pieces(s, stop) as int, text),
        goes_on(s, s + mark, stop),
{
    let none = Seq::<char>::empty();
    assert(free_of(none, stop)) by {
        reveal(free_of);
    }
    lemma_text_item(s, stop, mark, text, none);
    assert(s + mark + none =~= s + mark);
    assert(text + none =~= text);
}

/// The pieces of a text behind the character follow on the pieces before it.
pub proof fn lemma_follow(s: Seq<char>, stop: char, mark: Seq<char>, t: Seq<char>)
    requires
        mark == seq![stop],
    ensures
        split(s + mark + t, stop) == split(s, stop) + split(t, stop),
        pieces(s + mark + t, stop) == pieces(s, stop) + pieces(t, stop),
        goes_on(s, s + mark + t, stop),
{
    reveal(goes_on);
    lemma_split_parts(s, t, stop);
    assert(s + mark + t =~= s.push(stop) + t);
    let a = split(s, stop);
    assert((a + split(t, stop)).subrange(0, a.len() as int) =~= a);
}

/// A piece tells one number only.
pub proof fn lemma_tells_one(line: Seq<char>, stop: char)
    ensures
        forall|k: int, key: Seq<char>, a: Option<int>, b: Option<int>|
            #[trigger] tells(line, stop, k, key, a) && #[trigger] tells(line, stop, k, key, b)
                ==> a == b,
        forall|k: int, key: Seq<char>, a: int, b: int, width: nat|
            #[trigger] tells_hex(line, stop, k, key, a, width) && #[trigger] tells_hex(
                line,
                stop,
                k,
                key,
                b,
                width,
            ) ==> a == b,
        forall|k: int, a: Seq<char>, b: Seq<char>|
            #[trigger] tells_text(line, stop, k, a) && #[trigger] tells_text(line, stop, k, b)
                ==> a == b,
{
    reveal(tells);
    reveal(tells_hex);
    reveal(tells_text);
    reveal(says);
    reveal(says_hex);
}

/// A line feed closes a line.
pub proof fn lemma_line_feed(s: Seq<char>)
    ensures
        (s + "\n"@).last() == '\n',
        (s + "\n"@).drop_last() == s,
{
    reveal_strlit("\n");
    assert((s + "\n"@).drop_last() =~= s);
}

} // verus!
