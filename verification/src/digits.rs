//! Decimal digits in byte strings.
use vstd::prelude::*;

verus! {

/// The character `0`.
pub const ZERO: u8 = 0x30;

/// Whether `byte` is one of the characters `0` to `9`.
pub open spec fn is_digit(byte: u8) -> bool {
    0x30 <= byte <= 0x39
}

/// Whether every byte is a digit.
pub open spec fn all_digits(s: Seq<u8>) -> bool {
    forall|i: int| 0 <= i < s.len() ==> is_digit(#[trigger] s[i])
}

/// The number that a string of digits spells; 0 for the empty string.
pub open spec fn digits_value(s: Seq<u8>) -> nat
    decreases s.len(),
{
    if s.len() == 0 {
        0
    } else {
        digits_value(s.drop_last()) * 10 + (s.last() - ZERO) as nat
    }
}

/// Ten to the power of `n`.
pub open spec fn pow10(n: nat) -> nat
    decreases n,
{
    if n == 0 {
        1
    } else {
        10 * pow10((n - 1) as nat)
    }
}

/// The position of the first `byte` in `s`, or the length of `s` if there is none.
pub open spec fn find(s: Seq<u8>, byte: u8) -> nat
    decreases s.len(),
{
    if s.len() == 0 || s[0] == byte {
        0
    } else {
        1 + find(s.drop_first(), byte)
    }
}

pub proof fn lemma_find(s: Seq<u8>, byte: u8)
    ensures
        find(s, byte) <= s.len(),
        find(s, byte) < s.len() ==> s[find(s, byte) as int] == byte,
        forall|i: int| 0 <= i < find(s, byte) ==> s[i] != byte,
    decreases s.len(),
{
    if s.len() == 0 || s[0] == byte {
    } else {
        lemma_find(s.drop_first(), byte);
        assert forall|i: int| 0 <= i < find(s, byte) implies s[i] != byte by {
            if i > 0 {
                assert(s[i] == s.drop_first()[i - 1]);
            }
        }
    }
}

/// The first position of `byte`, or the length where there is none.
pub fn position(bytes: &[u8], byte: u8) -> (at: usize)
    ensures
        at == find(bytes@, byte),
        at <= bytes@.len(),
{
    proof {
        lemma_find(bytes@, byte);
    }
    let mut i: usize = 0;
    while i < bytes.len()
        invariant
            i <= bytes.len(),
            i <= find(bytes@, byte) <= bytes@.len(),
            find(bytes@, byte) < bytes@.len() ==> bytes@[find(bytes@, byte) as int] == byte,
            forall|j: int| 0 <= j < find(bytes@, byte) ==> bytes@[j] != byte,
        decreases bytes.len() - i,
    {
        if bytes[i] == byte {
            return i;
        }
        i = i + 1;
    }
    i
}

/// A longer string of digits spells at least as much as its front.
pub proof fn lemma_digits_value_grows(s: Seq<u8>, front: int)
    requires
        0 <= front <= s.len(),
        all_digits(s),
    ensures
        digits_value(s.take(front)) <= digits_value(s),
    decreases s.len() - front,
{
    if front == s.len() {
        assert(s.take(front) =~= s);
    } else {
        let t = s.take(front + 1);
        assert(is_digit(s[front]));
        assert(t.drop_last() =~= s.take(front));
        assert(t.last() == s[front]);
        lemma_digits_value_grows(s, front + 1);
    }
}

/// The number that a string of digits spells is below ten to the power of its length.
pub proof fn lemma_digits_value_bound(s: Seq<u8>)
    requires
        all_digits(s),
    ensures
        digits_value(s) < pow10(s.len()),
    decreases s.len(),
{
    if s.len() > 0 {
        assert(is_digit(s[s.len() - 1]));
        assert forall|i: int| 0 <= i < s.drop_last().len() implies is_digit(
            #[trigger] s.drop_last()[i],
        ) by {
            assert(is_digit(s[i]));
        }
        lemma_digits_value_bound(s.drop_last());
    }
}

/// What a digit string is worth as an unsigned 32-bit number.
pub open spec fn digits_u32(s: Seq<u8>) -> Option<u32> {
    if s.len() > 0 && all_digits(s) && digits_value(s) <= u32::MAX {
        Some(digits_value(s) as u32)
    } else {
        None
    }
}

/// The number that `bytes` spell: one or more digits, nothing else, at most `u32::MAX`.
pub fn parse_digits(bytes: &[u8]) -> (value: Option<u32>)
    ensures
        value == digits_u32(bytes@),
{
    if bytes.len() == 0 {
        return None;
    }
    let mut value: u32 = 0;
    let mut i: usize = 0;
    while i < bytes.len()
        invariant
            i <= bytes.len(),
            all_digits(bytes@.take(i as int)),
            value == digits_value(bytes@.take(i as int)),
        decreases bytes.len() - i,
    {
        let byte: u8 = bytes[i];
        if byte < 0x30 || byte > 0x39 {
            assert(!is_digit(bytes@[i as int]));
            return None;
        }
        let ghost next = bytes@.take(i + 1);
        proof {
            assert(next.drop_last() =~= bytes@.take(i as int));
            assert(next.last() == byte);
            assert forall|j: int| 0 <= j < next.len() implies is_digit(#[trigger] next[j]) by {
                if j < i {
                    assert(is_digit(bytes@.take(i as int)[j]));
                }
            }
            if all_digits(bytes@) {
                lemma_digits_value_grows(bytes@, i + 1);
            }
        }
        value = match value.checked_mul(10) {
            Some(scaled) => match scaled.checked_add((byte - 0x30) as u32) {
                Some(sum) => sum,
                None => return None,
            },
            None => return None,
        };
        i = i + 1;
    }
    assert(bytes@.take(i as int) =~= bytes@);
    Some(value)
}

/// The first `places` digits of a fraction, filled up with zeros, as a whole number.
pub open spec fn fraction_value(s: Seq<u8>, places: nat) -> nat {
    if s.len() >= places {
        digits_value(s.take(places as int))
    } else {
        digits_value(s) * pow10((places - s.len()) as nat)
    }
}

pub proof fn lemma_pow10_grows(a: nat, b: nat)
    requires
        a <= b,
    ensures
        1 <= pow10(a) <= pow10(b),
    decreases b,
{
    if a < b {
        lemma_pow10_grows(a, (b - 1) as nat);
    } else if a > 0 {
        lemma_pow10_grows((a - 1) as nat, (a - 1) as nat);
    }
}

pub proof fn lemma_pow10_sum(a: nat, b: nat)
    ensures
        pow10(a + b) == pow10(a) * pow10(b),
    decreases a,
{
    if a == 0 {
        assert(pow10(0) * pow10(b) == pow10(b)) by (nonlinear_arith)
            requires
                pow10(0) == 1,
        ;
    } else {
        lemma_pow10_sum((a - 1) as nat, b);
        assert((a + b - 1) as nat == (a - 1) as nat + b);
        assert(10 * (pow10((a - 1) as nat) * pow10(b)) == (10 * pow10((a - 1) as nat)) * pow10(b))
            by (nonlinear_arith);
    }
}

/// A fraction of `places` places is below ten to the power of `places`.
pub proof fn lemma_fraction_bound(s: Seq<u8>, places: nat)
    requires
        all_digits(s),
    ensures
        fraction_value(s, places) < pow10(places),
{
    if s.len() >= places {
        let t = s.take(places as int);
        assert forall|i: int| 0 <= i < t.len() implies is_digit(#[trigger] t[i]) by {
            assert(is_digit(s[i]));
        }
        lemma_digits_value_bound(t);
    } else {
        lemma_digits_value_bound(s);
        let rest = (places - s.len()) as nat;
        lemma_pow10_sum(s.len(), rest);
        lemma_pow10_grows(0, rest);
        assert(digits_value(s) * pow10(rest) < pow10(s.len()) * pow10(rest)) by (nonlinear_arith)
            requires
                digits_value(s) < pow10(s.len()),
                pow10(rest) >= 1,
        ;
    }
}

/// The first `places` digits of a fraction as a whole number, short fractions filled up with
/// zeros. Further digits are checked and dropped.
pub fn scale_fraction(bytes: &[u8], places: usize) -> (value: Option<u32>)
    requires
        pow10(places as nat) <= u32::MAX,
    ensures
        value == (if all_digits(bytes@) {
            Some(fraction_value(bytes@, places as nat) as u32)
        } else {
            None
        }),
        all_digits(bytes@) ==> fraction_value(bytes@, places as nat) < pow10(places as nat),
{
    let mut value: u32 = 0;
    let mut used: usize = 0;
    let mut i: usize = 0;
    while i < bytes.len()
        invariant
            i <= bytes.len(),
            pow10(places as nat) <= u32::MAX,
            used == (if i < places {
                i
            } else {
                places
            }),
            all_digits(bytes@.take(i as int)),
            value == digits_value(bytes@.take(used as int)),
        decreases bytes.len() - i,
    {
        let byte: u8 = bytes[i];
        if byte < 0x30 || byte > 0x39 {
            assert(!is_digit(bytes@[i as int]));
            return None;
        }
        proof {
            let next = bytes@.take(i + 1);
            assert forall|j: int| 0 <= j < next.len() implies is_digit(#[trigger] next[j]) by {
                if j < i {
                    assert(is_digit(bytes@.take(i as int)[j]));
                }
            }
            if used < places {
                assert(next.drop_last() =~= bytes@.take(i as int));
                assert(next.last() == byte);
                lemma_digits_value_bound(next);
                lemma_pow10_grows((i + 1) as nat, places as nat);
            }
        }
        if used < places {
            value = value * 10 + (byte - 0x30) as u32;
            used = used + 1;
        }
        i = i + 1;
    }
    let ghost s = bytes@;
    proof {
        assert(s.take(i as int) =~= s);
        lemma_fraction_bound(s, places as nat);
        if used < places {
            assert(s.take(used as int) =~= s);
        }
    }
    let ghost start = used;
    let ghost base = value;
    proof {
        assert(base * pow10(0) == base) by (nonlinear_arith)
            requires
                pow10(0) == 1,
        ;
    }
    while used < places
        invariant
            start <= used <= places,
            value == base * pow10((used - start) as nat),
            base * pow10((places - start) as nat) <= u32::MAX,
        decreases places - used,
    {
        proof {
            let done = (used - start) as nat;
            lemma_pow10_grows((done + 1) as nat, (places - start) as nat);
            assert(base * pow10((done + 1) as nat) <= base * pow10((places - start) as nat))
                by (nonlinear_arith)
                requires
                    pow10((done + 1) as nat) <= pow10((places - start) as nat),
            ;
            assert(base * (10 * pow10(done)) == 10 * (base * pow10(done))) by (nonlinear_arith);
            assert((used + 1 - start) as nat == done + 1);
        }
        value = value * 10;
        used = used + 1;
    }
    Some(value)
}

/// The first seven digits of a fraction as a whole number.
pub fn scale_fraction_to_e7(bytes: &[u8]) -> (value: Option<u32>)
    ensures
        value == (if all_digits(bytes@) {
            Some(fraction_value(bytes@, 7) as u32)
        } else {
            None
        }),
        all_digits(bytes@) ==> fraction_value(bytes@, 7) < 10_000_000,
{
    proof {
        reveal_with_fuel(pow10, 8);
    }
    scale_fraction(bytes, 7)
}

/// The characters from `0` to `9` are the digits, and each stands for its distance from `0`: one
/// more digit behind a number makes it ten times as large, plus that digit.
pub proof fn law_digits_count_in_tens(s: Seq<u8>, digit: u8)
    ensures
        is_digit(digit) <==> 48 <= digit <= 57,
        is_digit(digit) ==> digits_value(s.push(digit)) == 10 * digits_value(s) + digit - 48,
        digits_value(Seq::<u8>::empty()) == 0,
{
    assert(s.push(digit).drop_last() =~= s);
}

/// A number is read exactly where it is one or more digits and at most 4294967295, and is what the
/// digits spell.
pub proof fn law_numbers_that_are_read(s: Seq<u8>)
    ensures
        digits_u32(s) is Some <==> s.len() > 0 && all_digits(s) && digits_value(s)
            <= 4_294_967_295,
        digits_u32(s) is Some ==> digits_u32(s)->0 == digits_value(s),
        all_digits(s) <==> forall|i: int| 0 <= i < s.len() ==> 48 <= #[trigger] s[i] <= 57,
{
    if forall|i: int| 0 <= i < s.len() ==> 48 <= #[trigger] s[i] <= 57 {
        assert(all_digits(s));
    }
    if all_digits(s) {
        assert forall|i: int| 0 <= i < s.len() implies 48 <= #[trigger] s[i] <= 57 by {
            assert(is_digit(s[i]));
        }
    }
}

/// A fraction of as many digits as places is the number that they spell. A zero behind a fraction
/// adds nothing, a further digit behind a full one is dropped, and a place more makes the number
/// of a fraction that is not longer ten times as large.
pub proof fn law_fractions(s: Seq<u8>, places: nat, digit: u8)
    ensures
        fraction_value(s, s.len()) == digits_value(s),
        fraction_value(s.push(48), places) == fraction_value(s, places),
        s.len() >= places ==> fraction_value(s.push(digit), places) == fraction_value(s, places),
        s.len() <= places ==> fraction_value(s, places + 1) == 10 * fraction_value(s, places),
{
    assert(s.take(s.len() as int) =~= s);
    let longer = s.push(48);
    if s.len() >= places {
        assert(s.push(digit).take(places as int) =~= s.take(places as int));
        assert(longer.take(places as int) =~= s.take(places as int));
    } else {
        assert(longer.drop_last() =~= s);
        let rest = (places - longer.len()) as nat;
        assert((places - s.len()) as nat == rest + 1);
        assert(10 * digits_value(s) * pow10(rest) == digits_value(s) * (10 * pow10(rest)))
            by (nonlinear_arith);
        if longer.len() == places {
            assert(longer.take(places as int) =~= longer);
            assert(pow10(rest) == 1);
        }
    }
    if s.len() <= places {
        let rest = (places - s.len()) as nat;
        assert((places + 1 - s.len()) as nat == rest + 1);
        assert(digits_value(s) * (10 * pow10(rest)) == 10 * (digits_value(s) * pow10(rest)))
            by (nonlinear_arith);
        if s.len() == places {
            assert(pow10(rest) == 1);
        }
    }
}

} // verus!
