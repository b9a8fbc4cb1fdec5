//! What holds of decoded tensors: that decoding gives back what was encoded, element for element,
//! and that a tensor is decoded piece by piece.
use vstd::prelude::*;
use crate::quants::{
    DequantizedTensorModel, QuantBlockModel, QuantValue, GGML_TYPE_BF16, GGML_TYPE_F16,
    GGML_TYPE_F32, GGML_TYPE_Q4_K, GGML_TYPE_Q5_K, GGML_TYPE_Q6_K,
};

verus! {

/// Whether there are so many numbers, each at least `least` and less than `limit`.
pub open spec fn within(numbers: Seq<int>, count: nat, least: int, limit: int) -> bool {
    numbers.len() == count && forall|i: int|
        0 <= i < count ==> least <= #[trigger] numbers[i] < limit
}

/// Eight scales and eight minima of six bits each, packed into twelve bytes. The first four of
/// each have a byte of their own; the upper two bits of these bytes, and four more bytes, hold the
/// others.
pub open spec fn packed_scales(scales: Seq<int>, mins: Seq<int>) -> Seq<u8> {
    Seq::new(
        12,
        |i: int|
            (if i < 4 {
                scales[i] + 64 * (scales[i + 4] / 16)
            } else if i < 8 {
                mins[i - 4] + 64 * (mins[i] / 16)
            } else {
                scales[i - 4] % 16 + 16 * (mins[i - 4] % 16)
            }) as u8,
    )
}

/// Packed scales and minima are found again, each under its own group.
pub proof fn lemma_packed_scales_are_found(scales: Seq<int>, mins: Seq<int>, group: int)
    requires
        within(scales, 8, 0, 64),
        within(mins, 8, 0, 64),
        0 <= group < 8,
    ensures
        crate::quants::scale_and_min(group, packed_scales(scales, mins)) == (
            scales[group],
            mins[group],
        ),
{
    let packed = packed_scales(scales, mins);
    if group < 4 {
        let s = scales[group];
        let t = scales[group + 4];
        let m = mins[group];
        let n = mins[group + 4];
        assert(packed[group] as int == s + 64 * (t / 16));
        assert(packed[group + 4] as int == m + 64 * (n / 16));
        assert((s + 64 * (t / 16)) % 64 == s);
        assert((m + 64 * (n / 16)) % 64 == m);
    } else {
        let s = scales[group - 4];
        let t = scales[group];
        let m = mins[group - 4];
        let n = mins[group];
        assert(packed[group - 4] as int == s + 64 * (t / 16));
        assert(packed[group] as int == m + 64 * (n / 16));
        assert(packed[group + 4] as int == t % 16 + 16 * (n % 16));
        assert((s + 64 * (t / 16)) / 64 == t / 16);
        assert((m + 64 * (n / 16)) / 64 == n / 16);
        assert((t % 16 + 16 * (n % 16)) % 16 == t % 16);
        assert((t % 16 + 16 * (n % 16)) / 16 == n % 16);
    }
}

/// The two bytes of a number, least significant first.
pub open spec fn two_bytes_of(number: u16) -> Seq<u8> {
    seq![(number % 256) as u8, (number / 256) as u8]
}

/// A `Q4_K` block of the given scales and four-bit numbers. Of each 64 elements the first 32 stand
/// in the lower halves of 32 bytes and the others in the upper halves.
pub open spec fn encoded_q4_k(
    d: u16,
    dmin: u16,
    scales: Seq<int>,
    mins: Seq<int>,
    quants: Seq<int>,
) -> Seq<u8> {
    two_bytes_of(d) + two_bytes_of(dmin) + packed_scales(scales, mins) + Seq::new(
        128,
        |i: int| (quants[i / 32 * 64 + i % 32] + 16 * quants[i / 32 * 64 + 32 + i % 32]) as u8,
    )
}

/// A `Q5_K` block of the given scales and five-bit numbers. Neighbours share a byte; the fifth
/// bits stand in 32 bytes of their own, those of the elements that are 64 apart in one byte.
pub open spec fn encoded_q5_k(
    d: u16,
    dmin: u16,
    scales: Seq<int>,
    mins: Seq<int>,
    quants: Seq<int>,
) -> Seq<u8> {
    two_bytes_of(d) + two_bytes_of(dmin) + packed_scales(scales, mins) + Seq::new(
        32,
        |i: int|
            (quants[2 * i] / 16 + 2 * (quants[2 * i + 1] / 16) + 4 * (quants[64 + 2 * i] / 16) + 8
                * (quants[64 + 2 * i + 1] / 16) + 16 * (quants[128 + 2 * i] / 16) + 32 * (quants[128
                + 2 * i + 1] / 16) + 64 * (quants[192 + 2 * i] / 16) + 128 * (quants[192 + 2 * i
                + 1] / 16)) as u8,
    ) + Seq::new(128, |i: int| (quants[2 * i] % 16 + 16 * (quants[2 * i + 1] % 16)) as u8)
}

/// A `Q6_K` block of the given scales and six-bit numbers. Of each 128 elements the lower four
/// bits of the first 64 stand in the lower halves of 64 bytes and those of the others in the upper
/// halves; the upper two bits of the elements that are 32 apart share a byte. A scale stands in a
/// byte for each sixteen elements.
pub open spec fn encoded_q6_k(d: u16, scales: Seq<int>, quants: Seq<int>) -> Seq<u8> {
    Seq::new(
        128,
        |i: int|
            (quants[i / 64 * 128 + i % 64] % 16 + 16 * (quants[i / 64 * 128 + 64 + i % 64]
                % 16)) as u8,
    ) + Seq::new(
        64,
        |i: int|
            (quants[i / 32 * 128 + i % 32] / 16 + 4 * (quants[i / 32 * 128 + 32 + i % 32] / 16) + 16
                * (quants[i / 32 * 128 + 64 + i % 32] / 16) + 64 * (quants[i / 32 * 128 + 96 + i
                % 32] / 16)) as u8,
    ) + Seq::new(
        16,
        |i: int|
            (if scales[i] >= 0 {
                scales[i]
            } else {
                scales[i] + 256
            }) as u8,
    ) + two_bytes_of(d)
}

proof fn lemma_two_bytes_are_found(number: u16)
    ensures
        ({
            let bytes = two_bytes_of(number);
            bytes[0] as int + 0x100 * bytes[1] as int == number as int
        }),
{
}

/// Decoding a `Q4_K` block gives back what was encoded: each 32 elements have their own scale and
/// minimum, and each element its own number.
pub proof fn lemma_q4_k_round_trip(
    d: u16,
    dmin: u16,
    scales: Seq<int>,
    mins: Seq<int>,
    quants: Seq<int>,
    entry: int,
)
    requires
        within(scales, 8, 0, 64),
        within(mins, 8, 0, 64),
        within(quants, 256, 0, 16),
        0 <= entry < 256,
    ensures
        ({
            let decoded = QuantBlockModel::q4_k(encoded_q4_k(d, dmin, scales, mins, quants));
            let value = decoded.values[entry];
            &&& encoded_q4_k(d, dmin, scales, mins, quants).len() == 144
            &&& decoded.d == d && decoded.dmin == dmin
            &&& decoded.values.len() == 256
            &&& value.position < 256
            &&& value.scale == scales[value.position as int / 32]
            &&& value.min == mins[value.position as int / 32]
            &&& value.quant == quants[value.position as int]
        }),
{
    let block = encoded_q4_k(d, dmin, scales, mins, quants);
    let run = entry / 64;
    let lane = entry % 64 / 2;
    let half = entry % 2;
    let position = 64 * run + 32 * half + lane;
    assert(block.subrange(4, 16) =~= packed_scales(scales, mins));
    lemma_packed_scales_are_found(scales, mins, 2 * run + half);
    assert(position / 32 == 2 * run + half);
    let i = 32 * run + lane;
    assert(i / 32 == run && i % 32 == lane);
    let low = quants[run * 64 + lane];
    let high = quants[run * 64 + 32 + lane];
    assert(block[16 + i] == (low + 16 * high) as u8);
    assert(0 <= low < 16 && 0 <= high < 16);
    assert((low + 16 * high) % 16 == low && (low + 16 * high) / 16 == high);
}

/// Decoding a `Q5_K` block gives back what was encoded: of each 64 elements those at even places
/// and those at odd ones have their own scale and minimum, and each element its own number.
#[verifier::spinoff_prover]
#[verifier::rlimit(40)]
pub proof fn lemma_q5_k_round_trip(
    d: u16,
    dmin: u16,
    scales: Seq<int>,
    mins: Seq<int>,
    quants: Seq<int>,
    entry: int,
)
    requires
        within(scales, 8, 0, 64),
        within(mins, 8, 0, 64),
        within(quants, 256, 0, 32),
        0 <= entry < 256,
    ensures
        ({
            let decoded = QuantBlockModel::q5_k(encoded_q5_k(d, dmin, scales, mins, quants));
            let value = decoded.values[entry];
            let group = value.position as int / 64 * 2 + value.position as int % 2;
            &&& encoded_q5_k(d, dmin, scales, mins, quants).len() == 176
            &&& decoded.d == d && decoded.dmin == dmin
            &&& decoded.values.len() == 256
            &&& value.position < 256
            &&& value.scale == scales[group]
            &&& value.min == mins[group]
            &&& value.quant == quants[value.position as int]
        }),
{
    let block = encoded_q5_k(d, dmin, scales, mins, quants);
    let run = entry / 64;
    let lane = entry % 64 / 2;
    let half = entry % 2;
    assert(block.subrange(4, 16) =~= packed_scales(scales, mins));
    lemma_packed_scales_are_found(scales, mins, 2 * run + half);
    assert(64 * run + 2 * lane + half == entry);
    let i = 32 * run + lane;
    let low = quants[2 * i];
    let high = quants[2 * i + 1];
    assert(0 <= low < 32 && 0 <= high < 32);
    assert(block[48 + i] == (low % 16 + 16 * (high % 16)) as u8);
    assert((low % 16 + 16 * (high % 16)) % 16 == low % 16);
    assert((low % 16 + 16 * (high % 16)) / 16 == high % 16);
    lemma_fifth_bit_is_found(quants, lane, 2 * run + half);
    let bits = Seq::new(
        32,
        |i: int|
            (quants[2 * i] / 16 + 2 * (quants[2 * i + 1] / 16) + 4 * (quants[64 + 2 * i] / 16) + 8
                * (quants[64 + 2 * i + 1] / 16) + 16 * (quants[128 + 2 * i] / 16) + 32 * (quants[128
                + 2 * i + 1] / 16) + 64 * (quants[192 + 2 * i] / 16) + 128 * (quants[192 + 2 * i
                + 1] / 16)) as u8,
    );
    assert(block[16 + lane] == bits[lane]);
    assert(quants[entry] == quants[64 * run + 2 * lane + half]);
}

proof fn lemma_fifth_bit_is_found(quants: Seq<int>, lane: int, bit: int)
    requires
        within(quants, 256, 0, 32),
        0 <= lane < 32,
        0 <= bit < 8,
    ensures
        ({
            let byte = quants[2 * lane] / 16 + 2 * (quants[2 * lane + 1] / 16) + 4 * (quants[64 + 2
                * lane] / 16) + 8 * (quants[64 + 2 * lane + 1] / 16) + 16 * (quants[128 + 2 * lane]
                / 16) + 32 * (quants[128 + 2 * lane + 1] / 16) + 64 * (quants[192 + 2 * lane] / 16)
                + 128 * (quants[192 + 2 * lane + 1] / 16);
            &&& 0 <= byte < 256
            &&& byte / crate::quants::weight(bit) % 2 == quants[64 * (bit / 2) + 2 * lane + bit % 2]
                / 16
        }),
{
    reveal_with_fuel(crate::quants::weight, 8);
    let b0 = quants[2 * lane] / 16;
    let b1 = quants[2 * lane + 1] / 16;
    let b2 = quants[64 + 2 * lane] / 16;
    let b3 = quants[64 + 2 * lane + 1] / 16;
    let b4 = quants[128 + 2 * lane] / 16;
    let b5 = quants[128 + 2 * lane + 1] / 16;
    let b6 = quants[192 + 2 * lane] / 16;
    let b7 = quants[192 + 2 * lane + 1] / 16;
    assert(0 <= b0 < 2 && 0 <= b1 < 2 && 0 <= b2 < 2 && 0 <= b3 < 2);
    assert(0 <= b4 < 2 && 0 <= b5 < 2 && 0 <= b6 < 2 && 0 <= b7 < 2);
    let byte = b0 + 2 * b1 + 4 * b2 + 8 * b3 + 16 * b4 + 32 * b5 + 64 * b6 + 128 * b7;
    if bit == 0 {
        assert(byte % 2 == b0);
    } else if bit == 1 {
        assert(byte / 2 == b1 + 2 * b2 + 4 * b3 + 8 * b4 + 16 * b5 + 32 * b6 + 64 * b7);
    } else if bit == 2 {
        assert(byte / 4 == b2 + 2 * b3 + 4 * b4 + 8 * b5 + 16 * b6 + 32 * b7);
    } else if bit == 3 {
        assert(byte / 8 == b3 + 2 * b4 + 4 * b5 + 8 * b6 + 16 * b7);
    } else if bit == 4 {
        assert(byte / 16 == b4 + 2 * b5 + 4 * b6 + 8 * b7);
    } else if bit == 5 {
        assert(byte / 32 == b5 + 2 * b6 + 4 * b7);
    } else if bit == 6 {
        assert(byte / 64 == b6 + 2 * b7);
    } else {
        assert(byte / 128 == b7);
    }
}

proof fn lemma_upper_bits_are_found(u0: int, u1: int, u2: int, u3: int, quarter: int)
    requires
        0 <= u0 < 4,
        0 <= u1 < 4,
        0 <= u2 < 4,
        0 <= u3 < 4,
        0 <= quarter < 4,
    ensures
        0 <= u0 + 4 * u1 + 16 * u2 + 64 * u3 < 256,
        (u0 + 4 * u1 + 16 * u2 + 64 * u3) / crate::quants::weight(2 * quarter) % 4 == if quarter
            == 0 {
            u0
        } else if quarter == 1 {
            u1
        } else if quarter == 2 {
            u2
        } else {
            u3
        },
{
    reveal_with_fuel(crate::quants::weight, 8);
    let byte = u0 + 4 * u1 + 16 * u2 + 64 * u3;
    if quarter == 1 {
        assert(byte / 4 == u1 + 4 * u2 + 16 * u3);
    } else if quarter == 2 {
        assert(byte / 16 == u2 + 4 * u3);
    } else if quarter == 3 {
        assert(byte / 64 == u3);
    }
}

/// Decoding a `Q6_K` block gives back what was encoded: each sixteen elements have their own
/// scale, and each element its own number, less thirty-two.
#[verifier::spinoff_prover]
#[verifier::rlimit(40)]
pub proof fn lemma_q6_k_round_trip(d: u16, scales: Seq<int>, quants: Seq<int>, entry: int)
    requires
        within(scales, 16, -128, 128),
        within(quants, 256, 0, 64),
        0 <= entry < 256,
    ensures
        ({
            let decoded = QuantBlockModel::q6_k(encoded_q6_k(d, scales, quants));
            let value = decoded.values[entry];
            &&& encoded_q6_k(d, scales, quants).len() == 210
            &&& decoded.d == d && decoded.dmin == 0
            &&& decoded.values.len() == 256
            &&& value.position < 256
            &&& value.scale == scales[value.position as int / 16]
            &&& value.quant == quants[value.position as int] - 32
            &&& value.min == 0
        }),
{
    let block = encoded_q6_k(d, scales, quants);
    let run = entry / 128;
    let lane = entry % 128 / 4;
    let quarter = entry % 4;
    let position = 128 * run + 32 * quarter + lane;
    let at = 8 * run + lane / 16 + 2 * quarter;
    assert(position / 16 == at);
    assert(block[192 + at] == (if scales[at] >= 0 {
        scales[at]
    } else {
        scales[at] + 256
    }) as u8);
    let i = 64 * run + 32 * (quarter % 2) + lane;
    assert(i / 64 == run && i % 64 == 32 * (quarter % 2) + lane);
    let low = quants[run * 128 + i % 64];
    let high = quants[run * 128 + 64 + i % 64];
    assert(0 <= low < 64 && 0 <= high < 64);
    assert(block[i] == (low % 16 + 16 * (high % 16)) as u8);
    assert((low % 16 + 16 * (high % 16)) % 16 == low % 16);
    assert((low % 16 + 16 * (high % 16)) / 16 == high % 16);
    let j = 32 * run + lane;
    assert(j / 32 == run && j % 32 == lane);
    let u0 = quants[run * 128 + lane] / 16;
    let u1 = quants[run * 128 + 32 + lane] / 16;
    let u2 = quants[run * 128 + 64 + lane] / 16;
    let u3 = quants[run * 128 + 96 + lane] / 16;
    assert(0 <= u0 < 4 && 0 <= u1 < 4 && 0 <= u2 < 4 && 0 <= u3 < 4);
    let byte = u0 + 4 * u1 + 16 * u2 + 64 * u3;
    assert(block[128 + j] == byte as u8);
    lemma_upper_bits_are_found(u0, u1, u2, u3, quarter);
    assert(quants[position] == 16 * (quants[position] / 16) + quants[position] % 16);
}

/// The elements of a block come in the order of its bytes: those that share a byte, or the upper
/// bits of one, come one after the other.
pub proof fn lemma_elements_come_in_order_of_bytes(block: Seq<u8>, run: int, lane: int)
    requires
        0 <= run < 4,
        0 <= lane < 32,
    ensures
        ({
            let q4 = QuantBlockModel::q4_k(block).values;
            let q5 = QuantBlockModel::q5_k(block).values;
            let q6 = QuantBlockModel::q6_k(block).values;
            let first = 64 * run + 2 * lane;
            &&& q4[first].position == 64 * run + lane
            &&& q4[first + 1].position == 64 * run + 32 + lane
            &&& q5[first].position == first
            &&& q5[first + 1].position == first + 1
            &&& run < 2 ==> {
                let start = 128 * run + 4 * lane;
                &&& q6[start].position == 128 * run + lane
                &&& q6[start + 1].position == 128 * run + 32 + lane
                &&& q6[start + 2].position == 128 * run + 64 + lane
                &&& q6[start + 3].position == 128 * run + 96 + lane
            }
        }),
{
    let first = 64 * run + 2 * lane;
    assert(first / 64 == run && first % 64 == 2 * lane);
    assert((first + 1) / 64 == run && (first + 1) % 64 == 2 * lane + 1);
    if run < 2 {
        let start = 128 * run + 4 * lane;
        assert(start / 128 == run && start % 128 == 4 * lane);
        assert((start + 1) / 128 == run && (start + 1) % 128 == 4 * lane + 1);
        assert((start + 2) / 128 == run && (start + 2) % 128 == 4 * lane + 2);
        assert((start + 3) / 128 == run && (start + 3) % 128 == 4 * lane + 3);
    }
}

/// A byte of a block that scales sixteen elements scales no other: two `Q6_K` blocks that differ
/// in that byte alone differ in the scales of these elements alone.
pub proof fn lemma_scale_bytes_are_separate(block: Seq<u8>, at: int, byte: u8, entry: int)
    requires
        block.len() == 210,
        0 <= at < 16,
        0 <= entry < 256,
    ensures
        ({
            let before = QuantBlockModel::q6_k(block);
            let after = QuantBlockModel::q6_k(block.update(192 + at, byte));
            &&& before.d == after.d && before.dmin == after.dmin
            &&& before.values[entry].position == after.values[entry].position
            &&& before.values[entry].quant == after.values[entry].quant
            &&& before.values[entry].min == after.values[entry].min
            &&& before.values[entry].position as int / 16 != at ==> before.values[entry]
                == after.values[entry]
            &&& before.values[entry].position as int / 16 == at ==> after.values[entry].scale
                == crate::quants::signed(byte)
        }),
{
    let run = entry / 128;
    let lane = entry % 128 / 4;
    let quarter = entry % 4;
    let position = 128 * run + 32 * quarter + lane;
    assert(position / 16 == 8 * run + lane / 16 + 2 * quarter);
}

/// A byte read as a signed number is itself, or 256 less: whichever is at least -128 and less than
/// 128.
pub proof fn lemma_signed_byte(byte: u8)
    ensures
        -128 <= crate::quants::signed(byte) < 128,
        (byte - crate::quants::signed(byte)) % 256 == 0,
{
}

/// Plain numbers are read with their least significant byte first, each from its own bytes.
pub proof fn lemma_plain_numbers_hold_their_bytes(bytes: Seq<u8>, at: int)
    requires
        0 <= at,
    ensures
        4 * at + 3 < bytes.len() ==> ({
            let number = crate::quants::f32_numbers(bytes)[at] as int;
            &&& at < crate::quants::f32_numbers(bytes).len()
            &&& number % 256 == bytes[4 * at]
            &&& number / 256 % 256 == bytes[4 * at + 1]
            &&& number / 65536 % 256 == bytes[4 * at + 2]
            &&& number / 16777216 == bytes[4 * at + 3]
        }),
        2 * at + 1 < bytes.len() ==> ({
            let half = crate::quants::half_numbers(bytes)[at] as int;
            let wide = crate::quants::bf16_numbers(bytes)[at] as int;
            &&& at < crate::quants::half_numbers(bytes).len()
            &&& at < crate::quants::bf16_numbers(bytes).len()
            &&& half % 256 == bytes[2 * at]
            &&& half / 256 == bytes[2 * at + 1]
            &&& wide % 65536 == 0
            &&& wide / 65536 % 256 == bytes[2 * at]
            &&& wide / 16777216 == bytes[2 * at + 1]
        }),
{
    if 4 * at + 3 < bytes.len() {
        let a = bytes[4 * at] as int;
        let b = bytes[4 * at + 1] as int;
        let c = bytes[4 * at + 2] as int;
        let d = bytes[4 * at + 3] as int;
        let number = crate::quants::f32_numbers(bytes)[at] as int;
        assert(number == a + 256 * b + 65536 * c + 16777216 * d);
        assert(number / 256 == b + 256 * c + 65536 * d);
        assert(number / 65536 == c + 256 * d);
    }
    if 2 * at + 1 < bytes.len() {
        let a = bytes[2 * at] as int;
        let b = bytes[2 * at + 1] as int;
        let wide = crate::quants::bf16_numbers(bytes)[at] as int;
        assert(crate::quants::half_numbers(bytes)[at] as int == a + 256 * b);
        assert(wide == 65536 * a + 16777216 * b);
        assert(wide / 65536 == a + 256 * b);
    }
}

/// The bytes of one block of a type, and the elements that they stand for.
pub open spec fn unit_of(ggml_type: u32) -> (nat, nat) {
    if ggml_type == 0 {
        (4, 1)
    } else if ggml_type == 1 || ggml_type == 30 {
        (2, 1)
    } else if ggml_type == 12 {
        (144, 256)
    } else if ggml_type == 13 {
        (176, 256)
    } else {
        (210, 256)
    }
}

/// Whether tensors of the type can be decoded.
pub open spec fn is_decodable(ggml_type: u32) -> bool {
    ggml_type == 0 || ggml_type == 1 || ggml_type == 30 || ggml_type == 12 || ggml_type == 13
        || ggml_type == 14
}

/// A tensor decodes without fault exactly where its type is known and it is made of whole units,
/// and then has as many elements as these stand for.
pub proof fn lemma_whole_units_decode(ggml_type: u32, bytes: Seq<u8>)
    ensures
        DequantizedTensorModel::fault(ggml_type, bytes.len()) is None <==> is_decodable(ggml_type)
            && bytes.len() % unit_of(ggml_type).0 == 0,
        is_decodable(ggml_type) && bytes.len() % unit_of(ggml_type).0 == 0
            ==> DequantizedTensorModel::of_bytes(ggml_type, bytes).elements() == bytes.len()
            / unit_of(ggml_type).0 * unit_of(ggml_type).1,
{
}

/// A tensor of quantized blocks is decoded block by block: that of two tensors one after the other
/// gives the blocks of the first and then those of the second, and one block gives one block.
pub proof fn lemma_blocks_are_decoded_one_by_one(ggml_type: u32, front: Seq<u8>, back: Seq<u8>)
    requires
        ggml_type == 12 || ggml_type == 13 || ggml_type == 14,
        front.len() % unit_of(ggml_type).0 == 0,
    ensures
        QuantBlockModel::blocks(ggml_type, front + back) == QuantBlockModel::blocks(
            ggml_type,
            front,
        ) + QuantBlockModel::blocks(ggml_type, back),
        back.len() == unit_of(ggml_type).0 ==> QuantBlockModel::blocks(ggml_type, back) == seq![
            if ggml_type == 12 {
                QuantBlockModel::q4_k(back)
            } else if ggml_type == 13 {
                QuantBlockModel::q5_k(back)
            } else {
                QuantBlockModel::q6_k(back)
            },
        ],
{
    let size = unit_of(ggml_type).0 as int;
    let whole = front + back;
    let first = front.len() as int / size;
    let second = back.len() as int / size;
    assert(front.len() == size * first);
    assert((size * first + back.len()) / size == first + second) by (nonlinear_arith)
        requires
            second == back.len() as int / size,
            size > 0,
    ;
    let expected = QuantBlockModel::blocks(ggml_type, front) + QuantBlockModel::blocks(
        ggml_type,
        back,
    );
    let actual = QuantBlockModel::blocks(ggml_type, whole);
    assert(actual.len() == expected.len());
    assert forall|i: int| 0 <= i < actual.len() implies #[trigger] actual[i] == expected[i] by {
        if i < first {
            assert(0 <= size * i && size * i + size <= size * first) by (nonlinear_arith)
                requires
                    0 <= i < first,
                    size > 0,
            ;
            assert(whole.subrange(size * i, size * i + size) =~= front.subrange(
                size * i,
                size * i + size,
            ));
        } else {
            let j = i - first;
            assert(size * i == size * first + size * j) by (nonlinear_arith)
                requires
                    j == i - first,
            ;
            assert(0 <= size * j && size * j + size <= back.len()) by (nonlinear_arith)
                requires
                    0 <= j < second,
                    second == back.len() as int / size,
                    size > 0,
            ;
            assert(whole.subrange(size * i, size * i + size) =~= back.subrange(
                size * j,
                size * j + size,
            ));
        }
    }
    assert(actual =~= expected);
    if back.len() == size {
        assert(back.subrange(0, size) =~= back);
        assert(QuantBlockModel::blocks(ggml_type, back) =~= seq![
            QuantBlockModel::of_type(ggml_type, back),
        ]);
    }
}

/// A row has a size exactly where its type is known and it is made of whole units; rows of that
/// size have as many elements as were asked for, and two rows end to end are as long as one of
/// both lengths.
pub proof fn lemma_row_sizes(ggml_type: u32, elements: nat, more: nat)
    ensures
        crate::quants::row_fault(ggml_type, elements) is None <==> is_decodable(ggml_type)
            && elements % unit_of(ggml_type).1 == 0,
        crate::quants::row_fault(ggml_type, elements) is None ==> crate::quants::row_size(
            ggml_type,
            elements,
        ) == elements / unit_of(ggml_type).1 * unit_of(ggml_type).0,
        crate::quants::row_fault(ggml_type, elements) is None && crate::quants::row_fault(
            ggml_type,
            more,
        ) is None ==> crate::quants::row_size(ggml_type, elements + more)
            == crate::quants::row_size(ggml_type, elements) + crate::quants::row_size(
            ggml_type,
            more,
        ),
{
    if ggml_type == 12 || ggml_type == 13 || ggml_type == 14 {
        let size = unit_of(ggml_type).0;
        assert(QuantBlockModel::size(ggml_type) == size);
        if elements % 256 == 0 && more % 256 == 0 {
            assert((elements + more) / 256 == elements / 256 + more / 256);
            assert((elements / 256 + more / 256) * size == elements / 256 * size + more / 256
                * size) by (nonlinear_arith);
        }
    } else if is_decodable(ggml_type) {
        let size = unit_of(ggml_type).0;
        assert(elements / unit_of(ggml_type).1 == elements);
        assert((elements + more) * size == elements * size + more * size) by (nonlinear_arith);
    }
}

/// A row goes with an input exactly where it decodes, and to as many elements as the input has.
pub proof fn lemma_products_need_equal_lengths(ggml_type: u32, row: Seq<u8>, input_len: nat)
    ensures
        crate::quants::dot_fault(ggml_type, row.len(), input_len) is None
            <==> DequantizedTensorModel::fault(ggml_type, row.len()) is None
            && DequantizedTensorModel::of_bytes(ggml_type, row).elements() == input_len,
{
}

/// The products of a row and several inputs can be formed exactly where each of them can be, and
/// there is a place for each; without inputs there is nothing to do.
pub proof fn lemma_several_products_need_each_one(
    ggml_type: u32,
    row_len: nat,
    inputs: Seq<usize>,
    sums_len: nat,
)
    ensures
        inputs.len() > 0 ==> (crate::quants::dot_many_fault(
            ggml_type,
            row_len,
            inputs,
            sums_len,
        ) is None <==> sums_len == inputs.len() && forall|i: int|
            0 <= i < inputs.len() ==> crate::quants::dot_fault(
                ggml_type,
                row_len,
                #[trigger] inputs[i] as nat,
            ) is None),
        inputs.len() == 0 ==> crate::quants::dot_many_fault(
            ggml_type,
            row_len,
            inputs,
            sums_len,
        ) is None,
{
    if inputs.len() > 0 {
        if crate::quants::dot_many_fault(ggml_type, row_len, inputs, sums_len) is None {
            assert forall|i: int| 0 <= i < inputs.len() implies crate::quants::dot_fault(
                ggml_type,
                row_len,
                #[trigger] inputs[i] as nat,
            ) is None by {
                assert(inputs[i] == inputs[0]);
            }
        } else if sums_len == inputs.len() && (forall|i: int|
            0 <= i < inputs.len() ==> crate::quants::dot_fault(
                ggml_type,
                row_len,
                #[trigger] inputs[i] as nat,
            ) is None) {
            let first = inputs[0] as nat;
            assert(crate::quants::dot_fault(ggml_type, row_len, inputs[0] as nat) is None);
            assert forall|i: int| 0 <= i < inputs.len() implies #[trigger] inputs[i]
                == inputs[0] by {
                assert(crate::quants::dot_fault(ggml_type, row_len, inputs[i] as nat) is None);
            }
        }
    }
}

/// How products are added up goes by the type and the number of inputs: one row and one input one
/// by one, but for `Q5_K`, in pairs; six inputs with single roundings, for `Q6_K` with one row and
/// for every type with more; all others in groups, of four for `Q6_K` and of two for the others.
/// Elements are rounded once for `Q4_K` only.
pub proof fn lemma_summation_goes_by_type(ggml_type: u32, inputs: usize)
    ensures
        (crate::quants::Summation::of_row(ggml_type) is OneByOne) == (ggml_type != 13),
        ggml_type == 13 ==> crate::quants::Summation::of_row(ggml_type)
            == crate::quants::Summation::GroupsPerBlock(2),
        (crate::quants::Summation::of_inputs(ggml_type, inputs) is Fused) == (ggml_type == 14
            && inputs == 6),
        (crate::quants::Summation::of_rows(ggml_type, inputs) is Fused) == (inputs == 6),
        inputs != 6 ==> crate::quants::Summation::of_rows(ggml_type, inputs)
            == crate::quants::Summation::of_inputs(ggml_type, inputs),
        inputs != 6 && ggml_type == 14 ==> crate::quants::Summation::of_inputs(ggml_type, inputs)
            == crate::quants::Summation::Groups(4),
        ggml_type != 14 ==> crate::quants::Summation::of_inputs(ggml_type, inputs)
            == crate::quants::Summation::Groups(2),
        ggml_type == 14 && inputs == 6 ==> crate::quants::Summation::of_inputs(ggml_type, inputs)
            == (crate::quants::Summation::Fused { elements: false }),
        inputs == 6 ==> crate::quants::Summation::of_rows(ggml_type, inputs)
            == (crate::quants::Summation::Fused { elements: ggml_type == 12 }),
{
}

/// The products of several quantized rows and several inputs can be formed exactly where those of
/// each row and each input can be, and each row has a place for the product with each input.
pub proof fn lemma_several_rows_need_each_product(
    ggml_type: u32,
    label: Seq<char>,
    rows: Seq<usize>,
    inputs: Seq<usize>,
    sums: Seq<usize>,
)
    requires
        ggml_type == 12 || ggml_type == 13 || ggml_type == 14,
        rows.len() > 0,
        inputs.len() <= usize::MAX,
    ensures
        ({
            let each = forall|row: int, input: int|
                0 <= row < rows.len() && 0 <= input < inputs.len() ==> crate::quants::dot_fault(
                    ggml_type,
                    #[trigger] rows[row] as nat,
                    #[trigger] inputs[input] as nat,
                ) is None;
            let room = forall|row: int|
                0 <= row < sums.len() ==> #[trigger] sums[row] == inputs.len();
            inputs.len() > 0 ==> (crate::quants::dot_rows_fault(
                ggml_type,
                label,
                rows,
                inputs,
                sums,
            ) is None <==> each && room)
        }),
        inputs.len() == 0 ==> crate::quants::dot_rows_fault(ggml_type, label, rows, inputs, sums)
            is None,
{
    if inputs.len() > 0 {
        let each = forall|row: int, input: int|
            0 <= row < rows.len() && 0 <= input < inputs.len() ==> crate::quants::dot_fault(
                ggml_type,
                #[trigger] rows[row] as nat,
                #[trigger] inputs[input] as nat,
            ) is None;
        if each {
            assert(crate::quants::dot_fault(ggml_type, rows[0] as nat, inputs[0] as nat) is None);
            assert forall|row: int| 0 <= row < rows.len() implies #[trigger] rows[row]
                == rows[0] by {
                assert(crate::quants::dot_fault(ggml_type, rows[row] as nat, inputs[0] as nat)
                    is None);
                lemma_rows_of_an_input(ggml_type, rows[row] as nat, rows[0] as nat, inputs[0] as nat);
            }
            assert forall|input: int| 0 <= input < inputs.len() implies #[trigger] inputs[input]
                == inputs[0] by {
                assert(crate::quants::dot_fault(ggml_type, rows[0] as nat, inputs[input] as nat)
                    is None);
            }
        }
        if crate::quants::dot_rows_fault(ggml_type, label, rows, inputs, sums) is None {
            assert forall|row: int, input: int|
                0 <= row < rows.len() && 0 <= input < inputs.len() implies crate::quants::dot_fault(
                ggml_type,
                #[trigger] rows[row] as nat,
                #[trigger] inputs[input] as nat,
            ) is None by {
                assert(rows[row] == rows[0]);
                assert(inputs[input] == inputs[0]);
            }
        }
    }
}

proof fn lemma_rows_of_an_input(ggml_type: u32, a: nat, b: nat, input: nat)
    requires
        ggml_type == 12 || ggml_type == 13 || ggml_type == 14,
        crate::quants::dot_fault(ggml_type, a, input) is None,
        crate::quants::dot_fault(ggml_type, b, input) is None,
    ensures
        a == b,
{
}

/// A row can be read exactly where its type and length make a row and the tensor has the bytes of
/// that many rows and one more; what it is read into must have a place for each element.
pub proof fn lemma_rows_are_read_within_their_tensor(
    ggml_type: u32,
    length: nat,
    row: nat,
    elements: nat,
    room: nat,
)
    ensures
        ({
            let size = crate::quants::row_size(ggml_type, elements);
            crate::quants::row_request_fault(ggml_type, length, row, elements) is None
                <==> crate::quants::row_fault(ggml_type, elements) is None && (row + 1) * size
                <= length
        }),
        crate::quants::room_fault(room, elements) is None <==> room == elements,
{
    let size = crate::quants::row_size(ggml_type, elements);
    assert((row + 1) * size == row * size + size) by (nonlinear_arith);
}

/// The rows of a tensor lie one after the other: the first at the beginning, and each other where
/// the one before it ends.
pub proof fn lemma_rows_lie_one_after_the_other(
    ggml_type: u32,
    raw: Seq<u8>,
    row: nat,
    elements: nat,
    at: int,
)
    requires
        (row + 1) * crate::quants::row_size(ggml_type, elements) <= raw.len(),
        0 <= at < crate::quants::row_size(ggml_type, elements),
    ensures
        ({
            let size = crate::quants::row_size(ggml_type, elements);
            let bytes = crate::quants::row_bytes(ggml_type, raw, row, elements);
            &&& bytes.len() == size
            &&& bytes[at] == raw[row * size + at]
            &&& row > 0 ==> crate::quants::row_bytes(ggml_type, raw, (row - 1) as nat, elements)
                + bytes == raw.subrange((row * size - size) as int, (row * size + size) as int)
            &&& row == 0 ==> bytes == raw.take(size as int)
        }),
{
    let size = crate::quants::row_size(ggml_type, elements);
    let bytes = crate::quants::row_bytes(ggml_type, raw, row, elements);
    assert((row + 1) * size == row * size + size) by (nonlinear_arith);
    assert(row * size >= 0) by (nonlinear_arith);
    if row > 0 {
        assert((row - 1) * size == row * size - size) by (nonlinear_arith);
        assert((row - 1) * size >= 0) by (nonlinear_arith)
            requires
                row > 0,
        ;
        assert(crate::quants::row_bytes(ggml_type, raw, (row - 1) as nat, elements) + bytes
            =~= raw.subrange((row * size - size) as int, (row * size + size) as int));
    } else {
        assert(row * size == 0) by (nonlinear_arith)
            requires
                row == 0,
        ;
        assert(bytes =~= raw.take(size as int));
    }
}

} // verus!
