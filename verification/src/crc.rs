//! CRC-32/IEEE: reflected polynomial `0xEDB88320`, all-ones start, inverted result.
use vstd::prelude::*;

verus! {

/// The register after shifting one bit out.
pub open spec fn crc32_bit(register: u32) -> u32 {
    if register & 1 == 1 {
        (register >> 1) ^ 0xEDB8_8320u32
    } else {
        register >> 1
    }
}

/// The register after taking in one byte.
pub open spec fn crc32_byte(register: u32, byte: u8) -> u32 {
    crc32_shift(register ^ (byte as u32), 8)
}

/// The register after shifting `bits` bits out.
pub open spec fn crc32_shift(register: u32, bits: nat) -> u32
    decreases bits,
{
    if bits == 0 {
        register
    } else {
        crc32_bit(crc32_shift(register, (bits - 1) as nat))
    }
}

/// The register after taking in `data`, started from all ones.
pub open spec fn crc32_register(data: Seq<u8>) -> u32
    decreases data.len(),
{
    if data.len() == 0 {
        0xFFFF_FFFFu32
    } else {
        crc32_byte(crc32_register(data.drop_last()), data.last())
    }
}

/// The checksum of `data`.
pub open spec fn crc32(data: Seq<u8>) -> u32 {
    !crc32_register(data)
}

/// [`crc32_byte`], with its eight steps written out.
pub open spec fn crc32_byte_steps(register: u32, byte: u8) -> u32 {
    let r0 = register ^ (byte as u32);
    let r1 = crc32_bit(r0);
    let r2 = crc32_bit(r1);
    let r3 = crc32_bit(r2);
    let r4 = crc32_bit(r3);
    let r5 = crc32_bit(r4);
    let r6 = crc32_bit(r5);
    let r7 = crc32_bit(r6);
    crc32_bit(r7)
}

/// Eight single shifts take in one byte.
pub proof fn lemma_byte_steps(register: u32, byte: u8)
    ensures
        crc32_byte(register, byte) == crc32_byte_steps(register, byte),
{
    reveal_with_fuel(crc32_shift, 9);
}

/// CRC-32/IEEE of `data`. An integrity check, not an authentication.
pub fn crc32_ieee(data: &[u8]) -> (crc: u32)
    ensures
        crc == crc32(data@),
{
    let mut register: u32 = 0xFFFF_FFFF;
    let mut i: usize = 0;
    while i < data.len()
        invariant
            i <= data.len(),
            register == crc32_register(data@.take(i as int)),
        decreases data.len() - i,
    {
        let ghost before = register;
        let byte: u8 = data[i];
        register = register ^ (byte as u32);
        let ghost mixed = register;
        let mut bit: u8 = 0;
        while bit < 8
            invariant
                bit <= 8,
                register == crc32_shift(mixed, bit as nat),
            decreases 8 - bit,
        {
            let mask: u32 = 0u32.wrapping_sub(register & 1);
            let shifted: u32 = (register >> 1) ^ (0xEDB8_8320u32 & mask);
            proof {
                let r = register;
                assert(r & 1 == 1 || r & 1 == 0) by (bit_vector);
                assert(0xEDB8_8320u32 & 0u32 == 0) by (bit_vector);
                assert(0xEDB8_8320u32 & 0xFFFF_FFFFu32 == 0xEDB8_8320u32) by (bit_vector);
                assert((r >> 1) ^ 0u32 == r >> 1) by (bit_vector);
                assert(shifted == crc32_bit(r));
            }
            register = shifted;
            bit = bit + 1;
        }
        proof {
            assert(data@.take(i + 1).drop_last() =~= data@.take(i as int));
            assert(data@.take(i + 1).last() == byte);
        }
        i = i + 1;
    }
    proof {
        assert(data@.take(i as int) =~= data@);
    }
    !register
}

/// Shifting a bit out loses nothing: different registers stay different.
proof fn lemma_bit_injective(a: u32, b: u32)
    requires
        crc32_bit(a) == crc32_bit(b),
    ensures
        a == b,
{
    assert((if a & 1 == 1 {
        (a >> 1) ^ 0xEDB8_8320u32
    } else {
        a >> 1
    }) == (if b & 1 == 1 {
        (b >> 1) ^ 0xEDB8_8320u32
    } else {
        b >> 1
    }) ==> a == b) by (bit_vector);
}

proof fn lemma_shift_injective(a: u32, b: u32, bits: nat)
    requires
        crc32_shift(a, bits) == crc32_shift(b, bits),
    ensures
        a == b,
    decreases bits,
{
    if bits > 0 {
        let below = (bits - 1) as nat;
        lemma_bit_injective(crc32_shift(a, below), crc32_shift(b, below));
        lemma_shift_injective(a, b, below);
    }
}

proof fn lemma_byte_injective(a: u32, b: u32, byte: u8)
    requires
        crc32_byte(a, byte) == crc32_byte(b, byte),
    ensures
        a == b,
{
    lemma_shift_injective(a ^ (byte as u32), b ^ (byte as u32), 8);
    assert(a ^ (byte as u32) == b ^ (byte as u32) ==> a == b) by (bit_vector);
}

/// Bits that lie above those that are shifted out are only moved down by the shifts.
proof fn lemma_shift_moves_down(v: u32, w: u32, bits: u32)
    requires
        bits <= 8,
        w < 0x0100_0000,
    ensures
        crc32_shift(v ^ (w << 8), bits as nat) == crc32_shift(v, bits as nat) ^ (w << ((8
            - bits) as u32)),
    decreases bits,
{
    if bits > 0 {
        let below = (bits - 1) as u32;
        lemma_shift_moves_down(v, w, below);
        let r = crc32_shift(v, below as nat);
        let up = (8 - below) as u32;
        let down = (8 - bits) as u32;
        assert(({
            let a = r ^ (w << up);
            if a & 1 == 1 {
                (a >> 1) ^ 0xEDB8_8320u32
            } else {
                a >> 1
            }
        }) == (if r & 1 == 1 {
            (r >> 1) ^ 0xEDB8_8320u32
        } else {
            r >> 1
        }) ^ (w << down)) by (bit_vector)
            requires
                w < 0x0100_0000,
                1 <= up <= 8,
                up == down + 1,
        ;
    }
}

/// A byte's worth of shifts.
pub open spec fn crc32_turn(register: u32) -> u32 {
    crc32_shift(register, 8)
}

proof fn lemma_turn_moves_down(v: u32, w: u32)
    requires
        w < 0x0100_0000,
    ensures
        crc32_turn(v ^ (w << 8)) == crc32_turn(v) ^ w,
{
    lemma_shift_moves_down(v, w, 8);
    assert(w << 0u32 == w) by (bit_vector);
}

/// Four bytes as one number, the first of them in its low bits.
pub open spec fn crc32_word(b0: u8, b1: u8, b2: u8, b3: u8) -> u32 {
    (b0 as u32) ^ ((b1 as u32) << 8) ^ ((b2 as u32) << 16) ^ ((b3 as u32) << 24)
}

/// Taking in four bytes is mixing them in at once, and then shifting.
pub proof fn lemma_four_bytes(register: u32, b0: u8, b1: u8, b2: u8, b3: u8)
    ensures
        crc32_byte(crc32_byte(crc32_byte(crc32_byte(register, b0), b1), b2), b3) == crc32_turn(
            crc32_turn(crc32_turn(crc32_turn(register ^ crc32_word(b0, b1, b2, b3)))),
        ),
{
    let w1 = b1 as u32;
    let w2 = b2 as u32;
    let w3 = b3 as u32;
    let v0 = register ^ (b0 as u32);
    let v1 = v0 ^ (w1 << 8);
    let v2 = v1 ^ (w2 << 16);
    let v3 = v2 ^ (w3 << 24);
    assert(w2 << 8 < 0x0100_0000 && w3 << 8 < 0x0100_0000 && w3 << 16 < 0x0100_0000 && (w2 << 8)
        << 8 == w2 << 16 && (w3 << 8) << 8 == w3 << 16 && (w3 << 16) << 8 == w3 << 24)
        by (bit_vector)
        requires
            w2 < 0x100,
            w3 < 0x100,
    ;
    lemma_turn_moves_down(v0, w1);
    lemma_turn_moves_down(crc32_turn(v1), w2);
    lemma_turn_moves_down(v1, w2 << 8);
    lemma_turn_moves_down(crc32_turn(crc32_turn(v2)), w3);
    lemma_turn_moves_down(crc32_turn(v2), w3 << 8);
    lemma_turn_moves_down(v2, w3 << 16);
    let b = b0 as u32;
    assert(register ^ (b ^ (w1 << 8) ^ (w2 << 16) ^ (w3 << 24)) == (((register ^ b) ^ (w1 << 8)) ^ (
    w2 << 16)) ^ (w3 << 24)) by (bit_vector);
}

proof fn lemma_four_bytes_distinguish(register: u32, x: Seq<u8>, y: Seq<u8>)
    requires
        x.len() == 4,
        y.len() == 4,
        crc32_byte(
            crc32_byte(crc32_byte(crc32_byte(register, x[0]), x[1]), x[2]),
            x[3],
        ) == crc32_byte(crc32_byte(crc32_byte(crc32_byte(register, y[0]), y[1]), y[2]), y[3]),
    ensures
        x == y,
{
    lemma_four_bytes(register, x[0], x[1], x[2], x[3]);
    lemma_four_bytes(register, y[0], y[1], y[2], y[3]);
    let a = register ^ crc32_word(x[0], x[1], x[2], x[3]);
    let b = register ^ crc32_word(y[0], y[1], y[2], y[3]);
    lemma_shift_injective(
        crc32_turn(crc32_turn(crc32_turn(a))),
        crc32_turn(crc32_turn(crc32_turn(b))),
        8,
    );
    lemma_shift_injective(crc32_turn(crc32_turn(a)), crc32_turn(crc32_turn(b)), 8);
    lemma_shift_injective(crc32_turn(a), crc32_turn(b), 8);
    lemma_shift_injective(a, b, 8);
    let (x0, x1, x2, x3) = (x[0], x[1], x[2], x[3]);
    let (y0, y1, y2, y3) = (y[0], y[1], y[2], y[3]);
    assert(register ^ ((x0 as u32) ^ ((x1 as u32) << 8) ^ ((x2 as u32) << 16) ^ ((x3 as u32)
        << 24)) == register ^ ((y0 as u32) ^ ((y1 as u32) << 8) ^ ((y2 as u32) << 16) ^ ((
    y3 as u32) << 24)) ==> x0 == y0 && x1 == y1 && x2 == y2 && x3 == y3) by (bit_vector);
    assert(x =~= y);
}

/// The register behind four bytes.
pub proof fn lemma_register_of_four(data: Seq<u8>, at: int)
    requires
        0 <= at,
        at + 4 <= data.len(),
    ensures
        crc32_register(data.take(at + 4)) == crc32_byte(
            crc32_byte(
                crc32_byte(crc32_byte(crc32_register(data.take(at)), data[at]), data[at + 1]),
                data[at + 2],
            ),
            data[at + 3],
        ),
{
    reveal_with_fuel(crc32_register, 5);
    assert(data.take(at + 4).drop_last() =~= data.take(at + 3));
    assert(data.take(at + 3).drop_last() =~= data.take(at + 2));
    assert(data.take(at + 2).drop_last() =~= data.take(at + 1));
    assert(data.take(at + 1).drop_last() =~= data.take(at));
}

/// Equal bytes at the end cannot make up for a difference before them.
proof fn lemma_equal_end(x: Seq<u8>, y: Seq<u8>, from: int)
    requires
        x.len() == y.len(),
        0 <= from <= x.len(),
        forall|i: int| from <= i < x.len() ==> x[i] == y[i],
        crc32_register(x) == crc32_register(y),
    ensures
        crc32_register(x.take(from)) == crc32_register(y.take(from)),
    decreases x.len(),
{
    if from == x.len() {
        assert(x.take(from) =~= x);
        assert(y.take(from) =~= y);
    } else {
        let a = x.drop_last();
        let b = y.drop_last();
        lemma_byte_injective(crc32_register(a), crc32_register(b), x.last());
        lemma_equal_end(a, b, from);
        assert(a.take(from) =~= x.take(from));
        assert(b.take(from) =~= y.take(from));
    }
}

proof fn lemma_register_tells_apart(x: Seq<u8>, y: Seq<u8>, at: int)
    requires
        x.len() == y.len(),
        0 <= at,
        at + 4 <= x.len(),
        forall|i: int| 0 <= i < x.len() && !(at <= i < at + 4) ==> x[i] == y[i],
        crc32_register(x) == crc32_register(y),
    ensures
        x == y,
{
    lemma_equal_end(x, y, at + 4);
    lemma_register_of_four(x, at);
    lemma_register_of_four(y, at);
    assert(x.take(at) =~= y.take(at));
    let a = x.subrange(at, at + 4);
    let b = y.subrange(at, at + 4);
    lemma_four_bytes_distinguish(crc32_register(x.take(at)), a, b);
    assert forall|i: int| 0 <= i < x.len() implies x[i] == y[i] by {
        if at <= i < at + 4 {
            assert(a[i - at] == b[i - at]);
        }
    }
    assert(x =~= y);
}

/// Equal bytes behind two messages with one register leave them with one register.
proof fn lemma_same_end(x: Seq<u8>, y: Seq<u8>, end: Seq<u8>)
    requires
        crc32_register(x) == crc32_register(y),
    ensures
        crc32_register(x + end) == crc32_register(y + end),
    decreases end.len(),
{
    if end.len() == 0 {
        assert(x + end =~= x);
        assert(y + end =~= y);
    } else {
        lemma_same_end(x, y, end.drop_last());
        assert((x + end).drop_last() =~= x + end.drop_last());
        assert((y + end).drop_last() =~= y + end.drop_last());
    }
}

/// Whatever happens to four bytes in a row, or to some of them, and to nothing else of a message,
/// changes its checksum: every burst of errors of up to 32 bits is noticed.
pub proof fn law_crc32_detects_bursts(x: Seq<u8>, y: Seq<u8>, at: int)
    requires
        x.len() == y.len(),
        x != y,
        forall|i: int| 0 <= i < x.len() && !(at <= i < at + 4) ==> x[i] == y[i],
    ensures
        crc32(x) != crc32(y),
{
    let a = crc32_register(x);
    let b = crc32_register(y);
    assert(!a == !b ==> a == b) by (bit_vector);
    if a == b {
        // With bytes behind the message, the burst never reaches over its end.
        let end = seq![0u8, 0, 0, 0];
        lemma_same_end(x, y, end);
        let start = if at < 0 {
            0int
        } else if at > x.len() {
            x.len() as int
        } else {
            at
        };
        lemma_register_tells_apart(x + end, y + end, start);
        assert(x =~= (x + end).take(x.len() as int));
        assert(y =~= (y + end).take(y.len() as int));
    }
}

/// Whatever happens to one byte of a message, and to that byte alone, changes its checksum.
pub proof fn law_crc32_detects_one_changed_byte(x: Seq<u8>, y: Seq<u8>, at: int)
    requires
        x.len() == y.len(),
        0 <= at < x.len(),
        x[at] != y[at],
        forall|i: int| 0 <= i < x.len() && i != at ==> x[i] == y[i],
    ensures
        crc32(x) != crc32(y),
{
    law_crc32_detects_bursts(x, y, at);
}

} // verus!
