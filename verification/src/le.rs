//! Little-endian integers in byte strings.
use vstd::prelude::*;
use vstd::slice::slice_subrange;

verus! {

/// The number that `bytes` spell, least significant byte first.
pub open spec fn le_value(bytes: Seq<u8>) -> nat
    decreases bytes.len(),
{
    if bytes.len() == 0 {
        0
    } else {
        bytes[0] as nat + 256 * le_value(bytes.drop_first())
    }
}

/// The `len` low bytes of `value`, least significant first.
pub open spec fn le_bytes(value: nat, len: nat) -> Seq<u8>
    decreases len,
{
    if len == 0 {
        Seq::empty()
    } else {
        seq![(value % 256) as u8] + le_bytes(value / 256, (len - 1) as nat)
    }
}

/// The bit pattern of a signed 16-bit number, as an unsigned number.
pub open spec fn pattern_i16(value: int) -> nat {
    if value < 0 {
        (value + 0x1_0000) as nat
    } else {
        value as nat
    }
}

/// The signed 16-bit number that has the bit pattern `pattern`.
pub open spec fn signed_16(pattern: nat) -> int {
    if pattern >= 0x8000 {
        pattern - 0x1_0000
    } else {
        pattern as int
    }
}

/// The bit pattern of a signed 32-bit number, as an unsigned number.
pub open spec fn pattern_i32(value: int) -> nat {
    if value < 0 {
        (value + 0x1_0000_0000) as nat
    } else {
        value as nat
    }
}

/// The signed 32-bit number that has the bit pattern `pattern`.
pub open spec fn signed_32(pattern: nat) -> int {
    if pattern >= 0x8000_0000 {
        pattern - 0x1_0000_0000
    } else {
        pattern as int
    }
}

/// 256 to the power of `len`: one more than the largest number of `len` bytes.
pub open spec fn le_limit(len: nat) -> nat
    decreases len,
{
    if len == 0 {
        1
    } else {
        256 * le_limit((len - 1) as nat)
    }
}

/// `len` bytes of a number that fits in them spell that number again.
pub proof fn law_le_value_of_bytes(value: nat, len: nat)
    requires
        value < le_limit(len),
    ensures
        le_bytes(value, len).len() == len,
        le_value(le_bytes(value, len)) == value,
    decreases len,
{
    if len > 0 {
        let rest = le_bytes(value / 256, (len - 1) as nat);
        assert(value / 256 < le_limit((len - 1) as nat)) by (nonlinear_arith)
            requires
                value < 256 * le_limit((len - 1) as nat),
        ;
        law_le_value_of_bytes(value / 256, (len - 1) as nat);
        assert(le_bytes(value, len).drop_first() =~= rest);
    }
}

/// A byte string is what the number it spells is written as.
pub proof fn law_le_bytes_of_value(bytes: Seq<u8>)
    ensures
        le_value(bytes) < le_limit(bytes.len()),
        le_bytes(le_value(bytes), bytes.len()) == bytes,
    decreases bytes.len(),
{
    if bytes.len() > 0 {
        let rest = bytes.drop_first();
        law_le_bytes_of_value(rest);
        let v = le_value(bytes);
        assert(v % 256 == bytes[0] as nat);
        assert(v / 256 == le_value(rest));
        assert(le_bytes(v, bytes.len()) =~= bytes);
    } else {
        assert(le_bytes(le_value(bytes), 0) =~= bytes);
    }
}

/// The length of a number's bytes.
pub proof fn lemma_le_bytes_len(value: nat, len: nat)
    ensures
        le_bytes(value, len).len() == len,
    decreases len,
{
    if len > 0 {
        lemma_le_bytes_len(value / 256, (len - 1) as nat);
    }
}

proof fn lemma_le_value_unfold(bytes: Seq<u8>)
    ensures
        bytes.len() == 2 ==> le_value(bytes) == bytes[0] + 256 * bytes[1],
        bytes.len() == 4 ==> le_value(bytes) == bytes[0] + 256 * bytes[1] + 65536 * bytes[2]
            + 16777216 * bytes[3],
{
    reveal_with_fuel(le_value, 5);
    if bytes.len() == 2 || bytes.len() == 4 {
        let b1 = bytes.drop_first();
        assert(b1[0] == bytes[1]);
        let b2 = b1.drop_first();
        if bytes.len() == 4 {
            assert(b2[0] == bytes[2]);
            let b3 = b2.drop_first();
            assert(b3[0] == bytes[3]);
            assert(b3.drop_first().len() == 0);
        }
    }
}

/// The first two bytes as a number.
pub fn read_u16_le(bytes: &[u8]) -> (value: u16)
    requires
        bytes@.len() >= 2,
    ensures
        value == le_value(bytes@.take(2)),
{
    proof {
        lemma_le_value_unfold(bytes@.take(2));
    }
    (bytes[0] as u16) + 256 * (bytes[1] as u16)
}

/// The first two bytes as a signed number.
pub fn read_i16_le(bytes: &[u8]) -> (value: i16)
    requires
        bytes@.len() >= 2,
    ensures
        value == signed_16(le_value(bytes@.take(2))),
{
    let pattern: u16 = read_u16_le(bytes);
    if pattern >= 0x8000 {
        (pattern as i32 - 0x1_0000) as i16
    } else {
        pattern as i16
    }
}

/// The first four bytes as a number.
pub fn read_u32_le(bytes: &[u8]) -> (value: u32)
    requires
        bytes@.len() >= 4,
    ensures
        value == le_value(bytes@.take(4)),
{
    proof {
        lemma_le_value_unfold(bytes@.take(4));
    }
    (bytes[0] as u32) + 256 * (bytes[1] as u32) + 65536 * (bytes[2] as u32) + 16777216 * (
    bytes[3] as u32)
}

/// The first four bytes as a signed number.
pub fn read_i32_le(bytes: &[u8]) -> (value: i32)
    requires
        bytes@.len() >= 4,
    ensures
        value == signed_32(le_value(bytes@.take(4))),
{
    let pattern: u32 = read_u32_le(bytes);
    if pattern >= 0x8000_0000 {
        (pattern as i64 - 0x1_0000_0000) as i32
    } else {
        pattern as i32
    }
}

/// The first eight bytes as a number.
pub fn read_u64_le(bytes: &[u8]) -> (value: u64)
    requires
        bytes@.len() >= 8,
    ensures
        value == le_value(bytes@.take(8)),
{
    let low: u32 = read_u32_le(bytes);
    let high: u32 = read_u32_le(slice_subrange(bytes, 4, 8));
    proof {
        let all = bytes@.take(8);
        assert(bytes@.subrange(4, 8).take(4) =~= all.skip(4));
        assert(bytes@.take(4) =~= all.take(4));
        lemma_le_value_split(all, 4);
        assert(le_limit(4) == 0x1_0000_0000) by {
            reveal_with_fuel(le_limit, 5);
        }
    }
    (low as u64) + 0x1_0000_0000 * (high as u64)
}

/// A byte string's number, put together from a front part and the rest.
pub proof fn lemma_le_value_split(bytes: Seq<u8>, at: nat)
    requires
        at <= bytes.len(),
    ensures
        le_value(bytes) == le_value(bytes.take(at as int)) + le_limit(at) * le_value(
            bytes.skip(at as int),
        ),
    decreases at,
{
    if at == 0 {
        assert(bytes.skip(0) =~= bytes);
        assert(bytes.take(0).len() == 0);
        assert(1 * le_value(bytes) == le_value(bytes));
    } else {
        let rest = bytes.drop_first();
        let below = (at - 1) as nat;
        lemma_le_value_split(rest, below);
        assert(bytes.take(at as int).drop_first() =~= rest.take(below as int));
        assert(bytes.skip(at as int) =~= rest.skip(below as int));
        assert(bytes.take(at as int)[0] == bytes[0]);
        assert(256 * (le_limit(below) * le_value(rest.skip(below as int))) == (256 * le_limit(
            below,
        )) * le_value(rest.skip(below as int))) by (nonlinear_arith);
    }
}

/// `old` with `piece` written over it from `at` on.
pub open spec fn overwrite(old: Seq<u8>, at: int, piece: Seq<u8>) -> Seq<u8> {
    old.take(at) + piece + old.skip(at + piece.len())
}

/// Writes `value` at `at`, two bytes.
pub fn put_u16_le<const N: usize>(out: &mut [u8; N], at: usize, value: u16)
    requires
        at + 2 <= N,
    ensures
        final(out)@ == overwrite(old(out)@, at as int, le_bytes(value as nat, 2)),
{
    proof {
        reveal_with_fuel(le_bytes, 3);
    }
    let v1: u16 = value / 256;
    out[at] = (value % 256) as u8;
    out[at + 1] = (v1 % 256) as u8;
    assert(out@ =~= overwrite(old(out)@, at as int, le_bytes(value as nat, 2)));
}

/// Writes the three low bytes of `value` at `at`.
pub fn put_u24_le<const N: usize>(out: &mut [u8; N], at: usize, value: u32)
    requires
        at + 3 <= N,
    ensures
        final(out)@ == overwrite(old(out)@, at as int, le_bytes(value as nat, 3)),
{
    proof {
        reveal_with_fuel(le_bytes, 4);
    }
    let v1: u32 = value / 256;
    let v2: u32 = v1 / 256;
    out[at] = (value % 256) as u8;
    out[at + 1] = (v1 % 256) as u8;
    out[at + 2] = (v2 % 256) as u8;
    assert(out@ =~= overwrite(old(out)@, at as int, le_bytes(value as nat, 3)));
}

/// Writes `value` at `at`, four bytes.
pub fn put_u32_le<const N: usize>(out: &mut [u8; N], at: usize, value: u32)
    requires
        at + 4 <= N,
    ensures
        final(out)@ == overwrite(old(out)@, at as int, le_bytes(value as nat, 4)),
{
    proof {
        reveal_with_fuel(le_bytes, 5);
    }
    let v1: u32 = value / 256;
    let v2: u32 = v1 / 256;
    let v3: u32 = v2 / 256;
    out[at] = (value % 256) as u8;
    out[at + 1] = (v1 % 256) as u8;
    out[at + 2] = (v2 % 256) as u8;
    out[at + 3] = (v3 % 256) as u8;
    assert(out@ =~= overwrite(old(out)@, at as int, le_bytes(value as nat, 4)));
}

/// Writes `value` at `at`, eight bytes.
pub fn put_u64_le<const N: usize>(out: &mut [u8; N], at: usize, value: u64)
    requires
        at + 8 <= N,
    ensures
        final(out)@ == overwrite(old(out)@, at as int, le_bytes(value as nat, 8)),
{
    proof {
        reveal_with_fuel(le_bytes, 9);
    }
    let v1: u64 = value / 256;
    let v2: u64 = v1 / 256;
    let v3: u64 = v2 / 256;
    let v4: u64 = v3 / 256;
    let v5: u64 = v4 / 256;
    let v6: u64 = v5 / 256;
    let v7: u64 = v6 / 256;
    out[at] = (value % 256) as u8;
    out[at + 1] = (v1 % 256) as u8;
    out[at + 2] = (v2 % 256) as u8;
    out[at + 3] = (v3 % 256) as u8;
    out[at + 4] = (v4 % 256) as u8;
    out[at + 5] = (v5 % 256) as u8;
    out[at + 6] = (v6 % 256) as u8;
    out[at + 7] = (v7 % 256) as u8;
    assert(out@ =~= overwrite(old(out)@, at as int, le_bytes(value as nat, 8)));
}

/// The bit pattern of a signed number.
pub fn pattern_of_i16(value: i16) -> (pattern: u16)
    ensures
        pattern == pattern_i16(value as int),
{
    if value < 0 {
        (value as i32 + 0x1_0000) as u16
    } else {
        value as u16
    }
}

/// The bit pattern of a signed number.
pub fn pattern_of_i32(value: i32) -> (pattern: u32)
    ensures
        pattern == pattern_i32(value as int),
{
    if value < 0 {
        (value as i64 + 0x1_0000_0000) as u32
    } else {
        value as u32
    }
}

} // verus!
