//! Quantized tensors: how their bytes are laid out, and what they decode to. A number is held as
//! its bit pattern, of single or of half precision; an element of a quantized block as the
//! integers that it is computed from.
use vstd::prelude::*;
use vstd::slice::*;
use vstd::string::*;
use crate::model::{fail, fail_with, StageError};
use crate::text::{decimal, size_text};

verus! {

/// The elements of one block.
pub const QK_K: usize = 256;

/// The bytes that hold the scales and minima of one block.
pub const K_SCALE_SIZE: usize = 12;

pub const GGML_TYPE_F32: u32 = 0;

pub const GGML_TYPE_F16: u32 = 1;

pub const GGML_TYPE_Q4_K: u32 = 12;

pub const GGML_TYPE_Q5_K: u32 = 13;

pub const GGML_TYPE_Q6_K: u32 = 14;

pub const GGML_TYPE_BF16: u32 = 30;

/// The bytes of one `Q4_K` block: two scales of two bytes, the packed scales and minima, and four
/// bits for each element.
pub const BLOCK_Q4_K_SIZE: usize = 144;

/// The bytes of one `Q5_K` block: as `Q4_K`, and one bit more for each element.
pub const BLOCK_Q5_K_SIZE: usize = 176;

/// The bytes of one `Q6_K` block: six bits for each element, a scale for each sixteen of them, and
/// one scale of two bytes.
pub const BLOCK_Q6_K_SIZE: usize = 210;

/// The name of a tensor type.
pub open spec fn label_of(ggml_type: u32) -> Seq<char> {
    if ggml_type == 0 {
        "F32"@
    } else if ggml_type == 1 {
        "F16"@
    } else if ggml_type == 2 {
        "Q4_0"@
    } else if ggml_type == 3 {
        "Q4_1"@
    } else if ggml_type == 6 {
        "Q5_0"@
    } else if ggml_type == 7 {
        "Q5_1"@
    } else if ggml_type == 8 {
        "Q8_0"@
    } else if ggml_type == 9 {
        "Q8_1"@
    } else if ggml_type == 10 {
        "Q2_K"@
    } else if ggml_type == 11 {
        "Q3_K"@
    } else if ggml_type == 12 {
        "Q4_K"@
    } else if ggml_type == 13 {
        "Q5_K"@
    } else if ggml_type == 14 {
        "Q6_K"@
    } else if ggml_type == 15 {
        "Q8_K"@
    } else if ggml_type == 30 {
        "BF16"@
    } else {
        "UNKNOWN"@
    }
}

/// The name of a tensor type.
pub fn ggml_type_name(ggml_type: u32) -> (r: &'static str)
    ensures
        r@ == label_of(ggml_type),
{
    match ggml_type {
        0 => "F32",
        1 => "F16",
        2 => "Q4_0",
        3 => "Q4_1",
        6 => "Q5_0",
        7 => "Q5_1",
        8 => "Q8_0",
        9 => "Q8_1",
        10 => "Q2_K",
        11 => "Q3_K",
        12 => "Q4_K",
        13 => "Q5_K",
        14 => "Q6_K",
        15 => "Q8_K",
        30 => "BF16",
        _ => "UNKNOWN",
    }
}

/// The number that two bytes stand for, least significant first.
pub open spec fn two_bytes(bytes: Seq<u8>, at: int) -> u16 {
    (bytes[at] + 0x100 * bytes[at + 1]) as u16
}

fn read_two_bytes(bytes: &[u8], at: usize) -> (r: u16)
    requires
        at + 2 <= bytes@.len(),
    ensures
        r == two_bytes(bytes@, at as int),
{
    bytes[at] as u16 + 0x100 * (bytes[at + 1] as u16)
}

/// The number that four bytes stand for, least significant first.
pub open spec fn four_bytes(bytes: Seq<u8>, at: int) -> u32 {
    (bytes[at] + 0x100 * bytes[at + 1] + 0x1_0000 * bytes[at + 2] + 0x100_0000 * bytes[at
        + 3]) as u32
}

pub(crate) fn read_four_bytes(bytes: &[u8], at: usize) -> (r: u32)
    requires
        at + 4 <= bytes@.len(),
    ensures
        r == four_bytes(bytes@, at as int),
{
    bytes[at] as u32 + 0x100 * (bytes[at + 1] as u32) + 0x1_0000 * (bytes[at + 2] as u32)
        + 0x100_0000 * (bytes[at + 3] as u32)
}

/// The numbers of a tensor of single-precision numbers.
pub open spec fn f32_numbers(bytes: Seq<u8>) -> Seq<u32> {
    Seq::new(bytes.len() / 4, |i: int| four_bytes(bytes, 4 * i))
}

/// The numbers of a tensor of half-precision numbers.
pub open spec fn half_numbers(bytes: Seq<u8>) -> Seq<u16> {
    Seq::new(bytes.len() / 2, |i: int| two_bytes(bytes, 2 * i))
}

/// The numbers of a tensor of numbers that are the upper halves of single-precision ones.
pub open spec fn bf16_numbers(bytes: Seq<u8>) -> Seq<u32> {
    Seq::new(bytes.len() / 2, |i: int| (0x1_0000 * two_bytes(bytes, 2 * i)) as u32)
}

/// That a tensor's length is not made of whole parts.
pub open spec fn length_fault(name: Seq<char>, length: nat, what: Seq<char>, size: nat) -> Option<
    Seq<char>,
> {
    if length % size != 0 {
        Some(
            name + " tensor length "@ + crate::text::dec(length) + " is not divisible by "@ + what
                + crate::text::dec(size),
        )
    } else {
        None
    }
}

fn check_length(name: &str, length: usize, what: &str, size: usize) -> (r: Result<(), StageError>)
    requires
        size > 0,
    ensures
        crate::model::failure(r) == length_fault(name@, length as nat, what@, size as nat),
{
    if length % size != 0 {
        return fail_with(
            name.to_owned().concat(" tensor length ").concat(size_text(length).as_str()).concat(
                " is not divisible by ",
            ).concat(what).concat(size_text(size).as_str()),
        );
    }
    Ok(())
}

/// Decodes a tensor of single-precision numbers.
pub fn dequantize_f32_tensor(bytes: &[u8]) -> (r: Result<Vec<u32>, StageError>)
    ensures
        crate::model::failure(r) == length_fault("F32"@, bytes@.len(), ""@, 4),
        r matches Ok(numbers) ==> numbers@ == f32_numbers(bytes@),
{
    if let Err(error) = check_length("F32", bytes.len(), "", 4) {
        return Err(error);
    }
    let length: usize = bytes.len();
    let count: usize = length / 4;
    let mut out: Vec<u32> = Vec::new();
    let mut index: usize = 0;
    while index < count
        invariant
            index <= count,
            length == bytes@.len(),
            4 * count <= length,
            out@.len() == index,
            forall|i: int| 0 <= i < index ==> #[trigger] out@[i] == four_bytes(bytes@, 4 * i),
        decreases count - index,
    {
        out.push(read_four_bytes(bytes, 4 * index));
        index += 1;
    }
    assert(out@ =~= f32_numbers(bytes@));
    Ok(out)
}

/// Decodes a tensor of half-precision numbers.
pub fn dequantize_f16_tensor(bytes: &[u8]) -> (r: Result<Vec<u16>, StageError>)
    ensures
        crate::model::failure(r) == length_fault("F16"@, bytes@.len(), ""@, 2),
        r matches Ok(numbers) ==> numbers@ == half_numbers(bytes@),
{
    if let Err(error) = check_length("F16", bytes.len(), "", 2) {
        return Err(error);
    }
    let length: usize = bytes.len();
    let count: usize = length / 2;
    let mut out: Vec<u16> = Vec::new();
    let mut index: usize = 0;
    while index < count
        invariant
            index <= count,
            length == bytes@.len(),
            2 * count <= length,
            out@.len() == index,
            forall|i: int| 0 <= i < index ==> #[trigger] out@[i] == two_bytes(bytes@, 2 * i),
        decreases count - index,
    {
        out.push(read_two_bytes(bytes, 2 * index));
        index += 1;
    }
    assert(out@ =~= half_numbers(bytes@));
    Ok(out)
}

/// Decodes a tensor of numbers that are the upper halves of single-precision ones.
pub fn dequantize_bf16_tensor(bytes: &[u8]) -> (r: Result<Vec<u32>, StageError>)
    ensures
        crate::model::failure(r) == length_fault("BF16"@, bytes@.len(), ""@, 2),
        r matches Ok(numbers) ==> numbers@ == bf16_numbers(bytes@),
{
    if let Err(error) = check_length("BF16", bytes.len(), "", 2) {
        return Err(error);
    }
    let length: usize = bytes.len();
    let count: usize = length / 2;
    let mut out: Vec<u32> = Vec::new();
    let mut index: usize = 0;
    while index < count
        invariant
            index <= count,
            length == bytes@.len(),
            2 * count <= length,
            out@.len() == index,
            forall|i: int|
                0 <= i < index ==> #[trigger] out@[i] == (0x1_0000 * two_bytes(
                    bytes@,
                    2 * i,
                )) as u32,
        decreases count - index,
    {
        out.push(0x1_0000 * (read_two_bytes(bytes, 2 * index) as u32));
        index += 1;
    }
    assert(out@ =~= bf16_numbers(bytes@));
    Ok(out)
}

/// One element of a quantized block: its place in the block, and the integers that it is computed
/// from. Its value is the block's scale times `scale` times `quant`, less the block's minimum
/// scale times `min`.
#[derive(Debug, Clone, Copy, PartialEq, Eq, Structural)]
pub struct QuantValue {
    pub position: usize,
    pub scale: i32,
    pub quant: i32,
    pub min: i32,
}

/// A decoded block: its two scales, as half-precision bit patterns, and its elements in the
/// order in which the block holds them.
#[derive(Debug)]
pub struct QuantBlock {
    pub d: u16,
    pub dmin: u16,
    pub values: Vec<QuantValue>,
}

/// What a [`QuantBlock`] holds, as mathematical values.
#[verifier::ext_equal]
pub struct QuantBlockModel {
    pub d: u16,
    pub dmin: u16,
    pub values: Seq<QuantValue>,
}

impl View for QuantBlock {
    type V = QuantBlockModel;

    open spec fn view(&self) -> QuantBlockModel {
        QuantBlockModel { d: self.d, dmin: self.dmin, values: self.values@ }
    }
}

/// The scale and the minimum of the group `group` of a block, out of its packed scales: six bits
/// each, those of the later groups spread over two bytes.
pub open spec fn scale_and_min(group: int, scales: Seq<u8>) -> (int, int) {
    if group < 4 {
        (scales[group] as int % 64, scales[group + 4] as int % 64)
    } else {
        (
            scales[group + 4] as int % 16 + scales[group - 4] as int / 64 * 16,
            scales[group + 4] as int / 16 + scales[group] as int / 64 * 16,
        )
    }
}

/// The scale and the minimum of a group, out of the packed scales.
pub fn get_scale_min_k4(j: usize, q: &[u8]) -> (r: (u8, u8))
    requires
        j + 4 < q.len(),
    ensures
        (r.0 as int, r.1 as int) == scale_and_min(j as int, q@),
{
    if j < 4 {
        (q[j] % 64, q[j + 4] % 64)
    } else {
        (q[j + 4] % 16 + q[j - 4] / 64 * 16, q[j + 4] / 16 + q[j] / 64 * 16)
    }
}

/// The lower (`0`) or upper (`1`) four bits of a byte.
pub open spec fn nibble(byte: u8, half: int) -> int {
    if half == 0 {
        byte as int % 16
    } else {
        byte as int / 16
    }
}

fn half_byte(byte: u8, upper: bool) -> (r: u8)
    ensures
        r as int == nibble(
            byte,
            if upper {
                1
            } else {
                0
            },
        ),
        r < 16,
{
    if upper {
        byte / 16
    } else {
        byte % 16
    }
}

/// The weight of a bit.
pub open spec fn weight(bit: int) -> int
    decreases bit,
{
    if bit <= 0 {
        1
    } else {
        2 * weight(bit - 1)
    }
}

fn bit_weight(bit: usize) -> (r: u8)
    requires
        bit < 8,
    ensures
        r as int == weight(bit as int),
        r > 0,
{
    proof {
        reveal_with_fuel(weight, 8);
    }
    match bit {
        0 => 1,
        1 => 2,
        2 => 4,
        3 => 8,
        4 => 16,
        5 => 32,
        6 => 64,
        _ => 128,
    }
}

/// The element at `entry` of a `Q4_K` block. The block has four runs of 64 elements. A byte holds
/// two of them, which lie 32 apart: its lower half one of the first 32, its upper half one of the
/// others. Each 32 have a scale and a minimum of their own.
pub open spec fn q4_k_value(block: Seq<u8>, entry: int) -> QuantValue {
    let run = entry / 64;
    let lane = entry % 64 / 2;
    let half = entry % 2;
    let group = scale_and_min(2 * run + half, block.subrange(4, 16));
    QuantValue {
        position: (64 * run + 32 * half + lane) as usize,
        scale: group.0 as i32,
        quant: nibble(block[16 + 32 * run + lane], half) as i32,
        min: group.1 as i32,
    }
}

/// The element at `entry` of a `Q5_K` block. The block has four runs of 64 elements. A byte holds
/// the lower four bits of two neighbours; their fifth bits stand in a byte of their own, two bits
/// of it for each run.
pub open spec fn q5_k_value(block: Seq<u8>, entry: int) -> QuantValue {
    let run = entry / 64;
    let lane = entry % 64 / 2;
    let half = entry % 2;
    let group = scale_and_min(2 * run + half, block.subrange(4, 16));
    let fifth = block[16 + lane] as int / weight(2 * run + half) % 2;
    QuantValue {
        position: (64 * run + 2 * lane + half) as usize,
        scale: group.0 as i32,
        quant: (nibble(block[48 + 32 * run + lane], half) + 16 * fifth) as i32,
        min: group.1 as i32,
    }
}

/// A byte read as a signed number.
pub open spec fn signed(byte: u8) -> int {
    if byte < 128 {
        byte as int
    } else {
        byte - 256
    }
}

/// The element at `entry` of a `Q6_K` block. The block has two runs of 128 elements. Four of them,
/// 32 apart, take their upper two bits from one byte, and their lower four bits from the halves of
/// two bytes. Each 16 have a scale of their own.
pub open spec fn q6_k_value(block: Seq<u8>, entry: int) -> QuantValue {
    let run = entry / 128;
    let lane = entry % 128 / 4;
    let quarter = entry % 4;
    let low = nibble(block[64 * run + 32 * (quarter % 2) + lane], quarter / 2);
    let high = block[128 + 32 * run + lane] as int / weight(2 * quarter) % 4;
    QuantValue {
        position: (128 * run + 32 * quarter + lane) as usize,
        scale: signed(block[192 + 8 * run + lane / 16 + 2 * quarter]) as i32,
        quant: (low + 16 * high - 32) as i32,
        min: 0,
    }
}

impl QuantBlockModel {
    /// The block that the bytes of a `Q4_K` block stand for.
    pub open spec fn q4_k(block: Seq<u8>) -> Self {
        QuantBlockModel {
            d: two_bytes(block, 0),
            dmin: two_bytes(block, 2),
            values: Seq::new(256, |entry: int| q4_k_value(block, entry)),
        }
    }

    /// The block that the bytes of a `Q5_K` block stand for.
    pub open spec fn q5_k(block: Seq<u8>) -> Self {
        QuantBlockModel {
            d: two_bytes(block, 0),
            dmin: two_bytes(block, 2),
            values: Seq::new(256, |entry: int| q5_k_value(block, entry)),
        }
    }

    /// The block that the bytes of a `Q6_K` block stand for.
    pub open spec fn q6_k(block: Seq<u8>) -> Self {
        QuantBlockModel {
            d: two_bytes(block, 208),
            dmin: 0,
            values: Seq::new(256, |entry: int| q6_k_value(block, entry)),
        }
    }

    /// The bytes of one block of a quantized type.
    pub open spec fn size(ggml_type: u32) -> nat {
        if ggml_type == GGML_TYPE_Q4_K {
            144
        } else if ggml_type == GGML_TYPE_Q5_K {
            176
        } else {
            210
        }
    }

    /// The block that bytes stand for.
    pub open spec fn of_type(ggml_type: u32, block: Seq<u8>) -> Self {
        if ggml_type == GGML_TYPE_Q4_K {
            Self::q4_k(block)
        } else if ggml_type == GGML_TYPE_Q5_K {
            Self::q5_k(block)
        } else {
            Self::q6_k(block)
        }
    }

    /// The blocks that the bytes of a tensor stand for.
    pub open spec fn blocks(ggml_type: u32, bytes: Seq<u8>) -> Seq<Self> {
        let size = Self::size(ggml_type) as int;
        Seq::new(
            bytes.len() / Self::size(ggml_type),
            |i: int| Self::of_type(ggml_type, bytes.subrange(size * i, size * i + size)),
        )
    }
}

/// Whether the type is one of the quantized ones.
pub open spec fn is_quantized(ggml_type: u32) -> bool {
    ggml_type == GGML_TYPE_Q4_K || ggml_type == GGML_TYPE_Q5_K || ggml_type == GGML_TYPE_Q6_K
}

/// Decodes a `Q4_K` block.
pub fn dequantize_q4_k_block(block: &[u8]) -> (r: Result<QuantBlock, StageError>)
    ensures
        if block@.len() == BLOCK_Q4_K_SIZE {
            r matches Ok(decoded) && decoded@ == QuantBlockModel::q4_k(block@)
        } else {
            crate::model::failure(r) == Some("Q4_K block decode shape mismatch"@)
        },
{
    if block.len() != BLOCK_Q4_K_SIZE {
        return fail("Q4_K block decode shape mismatch");
    }
    let scales = slice_subrange(block, 4, 16);
    let mut values: Vec<QuantValue> = Vec::new();
    let mut entry: usize = 0;
    while entry < QK_K
        invariant
            entry <= 256,
            block@.len() == 144,
            scales@ == block@.subrange(4, 16),
            values@.len() == entry,
            forall|i: int| 0 <= i < entry ==> #[trigger] values@[i] == q4_k_value(block@, i),
        decreases 256 - entry,
    {
        let run: usize = entry / 64;
        let lane: usize = entry % 64 / 2;
        let half: usize = entry % 2;
        let (scale, min) = get_scale_min_k4(2 * run + half, scales);
        let quant: u8 = half_byte(block[16 + 32 * run + lane], half == 1);
        values.push(
            QuantValue {
                position: 64 * run + 32 * half + lane,
                scale: scale as i32,
                quant: quant as i32,
                min: min as i32,
            },
        );
        entry += 1;
    }
    assert(values@ =~= QuantBlockModel::q4_k(block@).values);
    Ok(
        QuantBlock {
            d: read_two_bytes(block, 0),
            dmin: read_two_bytes(block, 2),
            values,
        },
    )
}

/// Decodes a `Q5_K` block.
pub fn dequantize_q5_k_block(block: &[u8]) -> (r: Result<QuantBlock, StageError>)
    ensures
        if block@.len() == BLOCK_Q5_K_SIZE {
            r matches Ok(decoded) && decoded@ == QuantBlockModel::q5_k(block@)
        } else {
            crate::model::failure(r) == Some("Q5_K block decode shape mismatch"@)
        },
{
    if block.len() != BLOCK_Q5_K_SIZE {
        return fail("Q5_K block decode shape mismatch");
    }
    let scales = slice_subrange(block, 4, 16);
    let mut values: Vec<QuantValue> = Vec::new();
    let mut entry: usize = 0;
    while entry < QK_K
        invariant
            entry <= 256,
            block@.len() == 176,
            scales@ == block@.subrange(4, 16),
            values@.len() == entry,
            forall|i: int| 0 <= i < entry ==> #[trigger] values@[i] == q5_k_value(block@, i),
        decreases 256 - entry,
    {
        let run: usize = entry / 64;
        let lane: usize = entry % 64 / 2;
        let half: usize = entry % 2;
        let (scale, min) = get_scale_min_k4(2 * run + half, scales);
        let fifth: u8 = block[16 + lane] / bit_weight(2 * run + half) % 2;
        let low: u8 = half_byte(block[48 + 32 * run + lane], half == 1);
        values.push(
            QuantValue {
                position: 64 * run + 2 * lane + half,
                scale: scale as i32,
                quant: low as i32 + 16 * (fifth as i32),
                min: min as i32,
            },
        );
        entry += 1;
    }
    assert(values@ =~= QuantBlockModel::q5_k(block@).values);
    Ok(
        QuantBlock {
            d: read_two_bytes(block, 0),
            dmin: read_two_bytes(block, 2),
            values,
        },
    )
}

/// Decodes a `Q6_K` block.
pub fn dequantize_q6_k_block(block: &[u8]) -> (r: Result<QuantBlock, StageError>)
    ensures
        if block@.len() == BLOCK_Q6_K_SIZE {
            r matches Ok(decoded) && decoded@ == QuantBlockModel::q6_k(block@)
        } else {
            crate::model::failure(r) == Some("Q6_K block decode shape mismatch"@)
        },
{
    if block.len() != BLOCK_Q6_K_SIZE {
        return fail("Q6_K block decode shape mismatch");
    }
    let mut values: Vec<QuantValue> = Vec::new();
    let mut entry: usize = 0;
    while entry < QK_K
        invariant
            entry <= 256,
            block@.len() == 210,
            values@.len() == entry,
            forall|i: int| 0 <= i < entry ==> #[trigger] values@[i] == q6_k_value(block@, i),
        decreases 256 - entry,
    {
        let run: usize = entry / 128;
        let lane: usize = entry % 128 / 4;
        let quarter: usize = entry % 4;
        let low: u8 = half_byte(block[64 * run + 32 * (quarter % 2) + lane], quarter / 2 == 1);
        let high: u8 = block[128 + 32 * run + lane] / bit_weight(2 * quarter) % 4;
        let scale: u8 = block[192 + 8 * run + lane / 16 + 2 * quarter];
        values.push(
            QuantValue {
                position: 128 * run + 32 * quarter + lane,
                scale: if scale < 128 {
                    scale as i32
                } else {
                    scale as i32 - 256
                },
                quant: low as i32 + 16 * (high as i32) - 32,
                min: 0,
            },
        );
        entry += 1;
    }
    assert(values@ =~= QuantBlockModel::q6_k(block@).values);
    Ok(QuantBlock { d: read_two_bytes(block, 208), dmin: 0, values })
}

fn dequantize_block(ggml_type: u32, block: &[u8]) -> (r: Result<QuantBlock, StageError>)
    requires
        is_quantized(ggml_type),
        block@.len() == QuantBlockModel::size(ggml_type),
    ensures
        r matches Ok(decoded) && decoded@ == QuantBlockModel::of_type(ggml_type, block@),
{
    if ggml_type == GGML_TYPE_Q4_K {
        dequantize_q4_k_block(block)
    } else if ggml_type == GGML_TYPE_Q5_K {
        dequantize_q5_k_block(block)
    } else {
        dequantize_q6_k_block(block)
    }
}

fn block_size(ggml_type: u32) -> (r: usize)
    ensures
        r == QuantBlockModel::size(ggml_type),
{
    if ggml_type == GGML_TYPE_Q4_K {
        BLOCK_Q4_K_SIZE
    } else if ggml_type == GGML_TYPE_Q5_K {
        BLOCK_Q5_K_SIZE
    } else {
        BLOCK_Q6_K_SIZE
    }
}

fn dequantize_blocks(ggml_type: u32, bytes: &[u8]) -> (r: Result<Vec<QuantBlock>, StageError>)
    requires
        is_quantized(ggml_type),
    ensures
        r matches Ok(blocks) && crate::model::views(blocks@) == QuantBlockModel::blocks(
            ggml_type,
            bytes@,
        ),
{
    let size: usize = block_size(ggml_type);
    let length: usize = bytes.len();
    let count: usize = length / size;
    let ghost expected = QuantBlockModel::blocks(ggml_type, bytes@);
    let mut blocks: Vec<QuantBlock> = Vec::new();
    let mut index: usize = 0;
    let mut start: usize = 0;
    while index < count
        invariant
            is_quantized(ggml_type),
            size == QuantBlockModel::size(ggml_type),
            144 <= size <= 210,
            index <= count,
            length == bytes@.len(),
            count == bytes@.len() / size as nat,
            start == size * index,
            expected == QuantBlockModel::blocks(ggml_type, bytes@),
            blocks@.len() == index,
            forall|i: int| 0 <= i < index ==> (#[trigger] blocks@[i])@ == expected[i],
        decreases count - index,
    {
        assert(size * index + size <= bytes@.len()) by (nonlinear_arith)
            requires
                index < count,
                count == bytes@.len() / size as nat,
                size > 0,
        ;
        let block = slice_subrange(bytes, start, start + size);
        match dequantize_block(ggml_type, block) {
            Ok(decoded) => {
                blocks.push(decoded);
            },
            Err(error) => {
                return Err(error);
            },
        }
        proof {
            assert(size * (index + 1) == size * index + size) by (nonlinear_arith);
            assert(blocks@[index as int]@ == expected[index as int]);
        }
        index += 1;
        start += size;
    }
    assert(crate::model::views(blocks@) =~= expected);
    Ok(blocks)
}

/// Decodes a `Q4_K` tensor.
pub fn dequantize_q4_k_tensor(bytes: &[u8]) -> (r: Result<Vec<QuantBlock>, StageError>)
    ensures
        crate::model::failure(r) == length_fault("Q4_K"@, bytes@.len(), "block size "@, 144),
        r matches Ok(blocks) ==> crate::model::views(blocks@) == QuantBlockModel::blocks(
            GGML_TYPE_Q4_K,
            bytes@,
        ),
{
    if let Err(error) = check_length("Q4_K", bytes.len(), "block size ", BLOCK_Q4_K_SIZE) {
        return Err(error);
    }
    dequantize_blocks(GGML_TYPE_Q4_K, bytes)
}

/// Decodes a `Q5_K` tensor.
pub fn dequantize_q5_k_tensor(bytes: &[u8]) -> (r: Result<Vec<QuantBlock>, StageError>)
    ensures
        crate::model::failure(r) == length_fault("Q5_K"@, bytes@.len(), "block size "@, 176),
        r matches Ok(blocks) ==> crate::model::views(blocks@) == QuantBlockModel::blocks(
            GGML_TYPE_Q5_K,
            bytes@,
        ),
{
    if let Err(error) = check_length("Q5_K", bytes.len(), "block size ", BLOCK_Q5_K_SIZE) {
        return Err(error);
    }
    dequantize_blocks(GGML_TYPE_Q5_K, bytes)
}

/// Decodes a `Q6_K` tensor.
pub fn dequantize_q6_k_tensor(bytes: &[u8]) -> (r: Result<Vec<QuantBlock>, StageError>)
    ensures
        crate::model::failure(r) == length_fault("Q6_K"@, bytes@.len(), "block size "@, 210),
        r matches Ok(blocks) ==> crate::model::views(blocks@) == QuantBlockModel::blocks(
            GGML_TYPE_Q6_K,
            bytes@,
        ),
{
    if let Err(error) = check_length("Q6_K", bytes.len(), "block size ", BLOCK_Q6_K_SIZE) {
        return Err(error);
    }
    dequantize_blocks(GGML_TYPE_Q6_K, bytes)
}

/// A decoded tensor: numbers of single or half precision, or quantized blocks.
#[derive(Debug)]
pub enum DequantizedTensor {
    Numbers(Vec<u32>),
    Halves(Vec<u16>),
    Blocks(Vec<QuantBlock>),
}

/// What a [`DequantizedTensor`] holds, as mathematical values.
pub enum DequantizedTensorModel {
    Numbers(Seq<u32>),
    Halves(Seq<u16>),
    Blocks(Seq<QuantBlockModel>),
}

impl View for DequantizedTensor {
    type V = DequantizedTensorModel;

    open spec fn view(&self) -> DequantizedTensorModel {
        match *self {
            DequantizedTensor::Numbers(numbers) => DequantizedTensorModel::Numbers(numbers@),
            DequantizedTensor::Halves(numbers) => DequantizedTensorModel::Halves(numbers@),
            DequantizedTensor::Blocks(blocks) => DequantizedTensorModel::Blocks(
                crate::model::views(blocks@),
            ),
        }
    }
}

impl DequantizedTensorModel {
    /// What the bytes of a tensor of a supported type stand for.
    pub open spec fn of_bytes(ggml_type: u32, bytes: Seq<u8>) -> Self {
        if ggml_type == GGML_TYPE_F32 {
            DequantizedTensorModel::Numbers(f32_numbers(bytes))
        } else if ggml_type == GGML_TYPE_F16 {
            DequantizedTensorModel::Halves(half_numbers(bytes))
        } else if ggml_type == GGML_TYPE_BF16 {
            DequantizedTensorModel::Numbers(bf16_numbers(bytes))
        } else {
            DequantizedTensorModel::Blocks(QuantBlockModel::blocks(ggml_type, bytes))
        }
    }

    /// What is wrong with the length of a tensor, or with its type.
    pub open spec fn fault(ggml_type: u32, length: nat) -> Option<Seq<char>> {
        if ggml_type == GGML_TYPE_F32 {
            length_fault("F32"@, length, ""@, 4)
        } else if ggml_type == GGML_TYPE_F16 {
            length_fault("F16"@, length, ""@, 2)
        } else if ggml_type == GGML_TYPE_BF16 {
            length_fault("BF16"@, length, ""@, 2)
        } else if ggml_type == GGML_TYPE_Q4_K {
            length_fault("Q4_K"@, length, "block size "@, 144)
        } else if ggml_type == GGML_TYPE_Q5_K {
            length_fault("Q5_K"@, length, "block size "@, 176)
        } else if ggml_type == GGML_TYPE_Q6_K {
            length_fault("Q6_K"@, length, "block size "@, 210)
        } else {
            Some(unsupported(ggml_type))
        }
    }

    /// The number of elements.
    pub open spec fn elements(self) -> nat {
        match self {
            DequantizedTensorModel::Numbers(numbers) => numbers.len(),
            DequantizedTensorModel::Halves(numbers) => numbers.len(),
            DequantizedTensorModel::Blocks(blocks) => 256 * blocks.len(),
        }
    }
}

/// That a type is not supported.
pub open spec fn unsupported(ggml_type: u32) -> Seq<char> {
    "Unsupported GGML type "@ + crate::text::dec(ggml_type as nat) + " ("@ + label_of(ggml_type)
        + ")"@
}

fn refuse_type<T>(ggml_type: u32) -> (r: Result<T, StageError>)
    ensures
        crate::model::failure(r) == Some(unsupported(ggml_type)),
{
    fail_with(
        "Unsupported GGML type ".to_owned().concat(decimal(ggml_type as u64).as_str()).concat(
            " (",
        ).concat(ggml_type_name(ggml_type)).concat(")"),
    )
}

impl DequantizedTensor {
    fn numbers(decoded: Result<Vec<u32>, StageError>) -> (r: Result<Self, StageError>)
        ensures
            crate::model::failure(r) == crate::model::failure(decoded),
            decoded matches Ok(numbers) ==> r matches Ok(tensor) && tensor@
                == DequantizedTensorModel::Numbers(numbers@),
    {
        match decoded {
            Ok(numbers) => Ok(DequantizedTensor::Numbers(numbers)),
            Err(error) => Err(error),
        }
    }

    fn blocks(decoded: Result<Vec<QuantBlock>, StageError>) -> (r: Result<Self, StageError>)
        ensures
            crate::model::failure(r) == crate::model::failure(decoded),
            decoded matches Ok(blocks) ==> r matches Ok(tensor) && tensor@
                == DequantizedTensorModel::Blocks(crate::model::views(blocks@)),
    {
        match decoded {
            Ok(blocks) => Ok(DequantizedTensor::Blocks(blocks)),
            Err(error) => Err(error),
        }
    }

    /// The number of elements; none where there are more than fit.
    pub fn element_count(&self) -> (r: Option<usize>)
        ensures
            r == (if self@.elements() <= usize::MAX {
                Some(self@.elements() as usize)
            } else {
                None
            }),
    {
        match self {
            DequantizedTensor::Numbers(numbers) => Some(numbers.len()),
            DequantizedTensor::Halves(numbers) => Some(numbers.len()),
            DequantizedTensor::Blocks(blocks) => blocks.len().checked_mul(QK_K),
        }
    }
}

/// Decodes a tensor.
pub fn dequantize_tensor(ggml_type: u32, bytes: &[u8]) -> (r: Result<DequantizedTensor, StageError>)
    ensures
        crate::model::failure(r) == DequantizedTensorModel::fault(ggml_type, bytes@.len()),
        r matches Ok(tensor) ==> tensor@ == DequantizedTensorModel::of_bytes(ggml_type, bytes@),
{
    if ggml_type == GGML_TYPE_F32 {
        DequantizedTensor::numbers(dequantize_f32_tensor(bytes))
    } else if ggml_type == GGML_TYPE_F16 {
        match dequantize_f16_tensor(bytes) {
            Ok(numbers) => Ok(DequantizedTensor::Halves(numbers)),
            Err(error) => Err(error),
        }
    } else if ggml_type == GGML_TYPE_Q4_K {
        DequantizedTensor::blocks(dequantize_q4_k_tensor(bytes))
    } else if ggml_type == GGML_TYPE_Q5_K {
        DequantizedTensor::blocks(dequantize_q5_k_tensor(bytes))
    } else if ggml_type == GGML_TYPE_Q6_K {
        DequantizedTensor::blocks(dequantize_q6_k_tensor(bytes))
    } else if ggml_type == GGML_TYPE_BF16 {
        DequantizedTensor::numbers(dequantize_bf16_tensor(bytes))
    } else {
        refuse_type(ggml_type)
    }
}

/// The bytes of a row, where the type is supported and the row is made of whole blocks.
pub open spec fn row_size(ggml_type: u32, row_elements: nat) -> nat {
    if ggml_type == GGML_TYPE_F32 {
        row_elements * 4
    } else if ggml_type == GGML_TYPE_F16 || ggml_type == GGML_TYPE_BF16 {
        row_elements * 2
    } else {
        row_elements / 256 * QuantBlockModel::size(ggml_type)
    }
}

/// What is wrong with a row: its length, or the type.
pub open spec fn row_fault(ggml_type: u32, row_elements: nat) -> Option<Seq<char>> {
    if ggml_type == GGML_TYPE_F32 || ggml_type == GGML_TYPE_F16 || ggml_type == GGML_TYPE_BF16 {
        None
    } else if is_quantized(ggml_type) {
        if row_elements % 256 != 0 {
            Some(
                label_of(ggml_type) + " row length "@ + crate::text::dec(row_elements)
                    + " not divisible by "@ + crate::text::dec(256),
            )
        } else {
            None
        }
    } else {
        Some(
            "Unsupported GGML type "@ + crate::text::dec(ggml_type as nat) + " for row size"@,
        )
    }
}

/// The bytes of a row.
pub fn bytes_per_row(ggml_type: u32, row_elements: usize) -> (r: Result<usize, StageError>)
    requires
        row_size(ggml_type, row_elements as nat) <= usize::MAX,
    ensures
        crate::model::failure(r) == row_fault(ggml_type, row_elements as nat),
        r matches Ok(size) ==> size == row_size(ggml_type, row_elements as nat),
{
    if ggml_type == GGML_TYPE_F32 {
        Ok(row_elements * 4)
    } else if ggml_type == GGML_TYPE_F16 || ggml_type == GGML_TYPE_BF16 {
        Ok(row_elements * 2)
    } else if ggml_type == GGML_TYPE_Q4_K || ggml_type == GGML_TYPE_Q5_K || ggml_type
        == GGML_TYPE_Q6_K {
        if row_elements % QK_K != 0 {
            return fail_with(
                ggml_type_name(ggml_type).to_owned().concat(" row length ").concat(
                    size_text(row_elements).as_str(),
                ).concat(" not divisible by ").concat(size_text(QK_K).as_str()),
            );
        }
        let size: usize = block_size(ggml_type);
        let blocks: usize = row_elements / QK_K;
        assert(blocks * size == (row_elements as nat / 256) * QuantBlockModel::size(ggml_type));
        Ok(blocks * size)
    } else {
        fail_with(
            "Unsupported GGML type ".to_owned().concat(decimal(ggml_type as u64).as_str()).concat(
                " for row size",
            ),
        )
    }
}

/// That a row reaches past the end of its tensor.
pub open spec fn range_fault(row_idx: nat, size: nat, length: nat) -> Option<Seq<char>> {
    if row_idx * size + size > length {
        Some(
            "Row "@ + crate::text::dec(row_idx) + " needs bytes "@ + crate::text::dec(
                row_idx * size,
            ) + ".."@ + crate::text::dec(row_idx * size + size) + " but tensor has only "@
                + crate::text::dec(length) + " bytes"@,
        )
    } else {
        None
    }
}

/// That the room for a row is not as long as the row.
pub open spec fn room_fault(room: nat, row_elements: nat) -> Option<Seq<char>> {
    if room != row_elements {
        Some(
            "dequantize_row_into output len "@ + crate::text::dec(room)
                + " does not match row_elements "@ + crate::text::dec(row_elements),
        )
    } else {
        None
    }
}

/// What is wrong with a request for a row of a tensor.
pub open spec fn row_request_fault(
    ggml_type: u32,
    length: nat,
    row_idx: nat,
    row_elements: nat,
) -> Option<Seq<char>> {
    crate::model::then_check(
        row_fault(ggml_type, row_elements),
        range_fault(row_idx, row_size(ggml_type, row_elements), length),
    )
}

/// The bytes of a row of a tensor.
pub open spec fn row_bytes(ggml_type: u32, raw: Seq<u8>, row_idx: nat, row_elements: nat) -> Seq<u8> {
    let size = row_size(ggml_type, row_elements);
    raw.subrange((row_idx * size) as int, (row_idx * size + size) as int)
}

/// Whether a row that has no fault ends within the machine's sizes.
pub open spec fn row_is_addressable(ggml_type: u32, row_idx: nat, row_elements: nat) -> bool {
    row_size(ggml_type, row_elements) <= usize::MAX && (row_fault(ggml_type, row_elements) is None
        ==> row_idx * row_size(ggml_type, row_elements) + row_size(ggml_type, row_elements)
        <= usize::MAX)
}

/// Decodes a row of a tensor.
pub fn dequantize_row(ggml_type: u32, raw: &[u8], row_idx: usize, row_elements: usize) -> (r:
    Result<DequantizedTensor, StageError>)
    requires
        row_is_addressable(ggml_type, row_idx as nat, row_elements as nat),
    ensures
        crate::model::failure(r) == row_request_fault(
            ggml_type,
            raw@.len(),
            row_idx as nat,
            row_elements as nat,
        ),
        r matches Ok(row) ==> row@ == DequantizedTensorModel::of_bytes(
            ggml_type,
            row_bytes(ggml_type, raw@, row_idx as nat, row_elements as nat),
        ),
{
    let size: usize = match bytes_per_row(ggml_type, row_elements) {
        Ok(size) => size,
        Err(error) => return Err(error),
    };
    let start: usize = row_idx * size;
    let end: usize = start + size;
    if end > raw.len() {
        return fail_with(
            "Row ".to_owned().concat(size_text(row_idx).as_str()).concat(" needs bytes ").concat(
                size_text(start).as_str(),
            ).concat("..").concat(size_text(end).as_str()).concat(" but tensor has only ").concat(
                size_text(raw.len()).as_str(),
            ).concat(" bytes"),
        );
    }
    let row = slice_subrange(raw, start, end);
    proof {
        lemma_row_has_no_fault(ggml_type, row_elements as nat);
    }
    dequantize_tensor(ggml_type, row)
}

/// Decodes a row of a tensor for a place with room for `room` elements, which must be as many as
/// the row has.
pub fn dequantize_row_into(
    ggml_type: u32,
    raw: &[u8],
    row_idx: usize,
    row_elements: usize,
    room: usize,
) -> (r: Result<DequantizedTensor, StageError>)
    requires
        room == row_elements ==> row_is_addressable(
            ggml_type,
            row_idx as nat,
            row_elements as nat,
        ),
    ensures
        crate::model::failure(r) == crate::model::then_check(
            room_fault(room as nat, row_elements as nat),
            row_request_fault(ggml_type, raw@.len(), row_idx as nat, row_elements as nat),
        ),
        r matches Ok(row) ==> row@ == DequantizedTensorModel::of_bytes(
            ggml_type,
            row_bytes(ggml_type, raw@, row_idx as nat, row_elements as nat),
        ),
{
    if room != row_elements {
        return fail_with(
            "dequantize_row_into output len ".to_owned().concat(size_text(room).as_str()).concat(
                " does not match row_elements ",
            ).concat(size_text(row_elements).as_str()),
        );
    }
    dequantize_row(ggml_type, raw, row_idx, row_elements)
}

/// The bytes of a row decode without fault, and to as many elements as the row has.
pub proof fn lemma_row_has_no_fault(ggml_type: u32, row_elements: nat)
    requires
        row_fault(ggml_type, row_elements) is None,
    ensures
        DequantizedTensorModel::fault(ggml_type, row_size(ggml_type, row_elements)) is None,
        forall|bytes: Seq<u8>|
            bytes.len() == row_size(ggml_type, row_elements)
                ==> #[trigger] DequantizedTensorModel::of_bytes(ggml_type, bytes).elements()
                == row_elements,
{
    let size = QuantBlockModel::size(ggml_type);
    let blocks = row_elements / 256;
    if is_quantized(ggml_type) {
        assert((blocks * size) % size == 0) by (nonlinear_arith)
            requires
                size > 0,
        ;
        assert((blocks * size) / size == blocks) by (nonlinear_arith)
            requires
                size > 0,
        ;
    }
}

/// Decoding a row of a tensor gives the elements that decoding the tensor gives at its place.
pub proof fn lemma_row_is_part_of_tensor(
    ggml_type: u32,
    raw: Seq<u8>,
    row_idx: nat,
    row_elements: nat,
)
    requires
        row_request_fault(ggml_type, raw.len(), row_idx, row_elements) is None,
    ensures
        match (
            DequantizedTensorModel::of_bytes(
                ggml_type,
                row_bytes(ggml_type, raw, row_idx, row_elements),
            ),
            DequantizedTensorModel::of_bytes(ggml_type, raw),
        ) {
            (
                DequantizedTensorModel::Numbers(row),
                DequantizedTensorModel::Numbers(whole),
            ) => (row_idx + 1) * row_elements <= whole.len() && row == whole.subrange(
                (row_idx * row_elements) as int,
                ((row_idx + 1) * row_elements) as int,
            ),
            (
                DequantizedTensorModel::Halves(row),
                DequantizedTensorModel::Halves(whole),
            ) => (row_idx + 1) * row_elements <= whole.len() && row == whole.subrange(
                (row_idx * row_elements) as int,
                ((row_idx + 1) * row_elements) as int,
            ),
            (
                DequantizedTensorModel::Blocks(row),
                DequantizedTensorModel::Blocks(whole),
            ) => (row_idx + 1) * (row_elements / 256) <= whole.len() && row == whole.subrange(
                (row_idx * (row_elements / 256)) as int,
                ((row_idx + 1) * (row_elements / 256)) as int,
            ),
            _ => false,
        },
{
    let row = row_bytes(ggml_type, raw, row_idx, row_elements);
    let size = row_size(ggml_type, row_elements);
    if is_quantized(ggml_type) {
        let unit = QuantBlockModel::size(ggml_type);
        let count = row_elements / 256;
        let first = row_idx * count;
        assert(row_idx * (count * unit) == (row_idx * count) * unit) by (nonlinear_arith);
        assert((row_idx * count) * unit + count * unit == ((row_idx + 1) * count) * unit)
            by (nonlinear_arith);
        assert((row_idx + 1) * count == first + count) by (nonlinear_arith)
            requires
                first == row_idx * count,
        ;
        assert((row_idx + 1) * count <= raw.len() / unit) by (nonlinear_arith)
            requires
                ((row_idx + 1) * count) * unit <= raw.len(),
                unit > 0,
        ;
        assert((count * unit) / unit == count) by (nonlinear_arith)
            requires
                unit > 0,
        ;
        let whole = QuantBlockModel::blocks(ggml_type, raw);
        let part = QuantBlockModel::blocks(ggml_type, row);
        assert forall|i: int| 0 <= i < count implies #[trigger] part[i] == whole[first + i] by {
            assert(unit * (first + i) == first * unit + unit * i) by (nonlinear_arith);
            assert(0 <= unit * i && unit * i + unit <= count * unit) by (nonlinear_arith)
                requires
                    0 <= i < count,
                    unit > 0,
            ;
            assert(unit * (first + i) + unit <= raw.len());
            assert(row.subrange((unit * i) as int, (unit * i + unit) as int) =~= raw.subrange(
                (unit * (first + i)) as int,
                (unit * (first + i) + unit) as int,
            ));
        }
        assert(part =~= whole.subrange(first as int, (first + count) as int));
    } else {
        let unit: nat = if ggml_type == GGML_TYPE_F32 {
            4
        } else {
            2
        };
        assert(row_idx * (row_elements * unit) == (row_idx * row_elements) * unit)
            by (nonlinear_arith);
        assert((row_idx + 1) * row_elements == row_idx * row_elements + row_elements)
            by (nonlinear_arith);
        let first = row_idx * row_elements;
        assert(forall|i: int|
            0 <= i < row.len() ==> #[trigger] row[i] == raw[(first * unit) as int + i]);
        if ggml_type == GGML_TYPE_F32 {
            assert(f32_numbers(row) =~= f32_numbers(raw).subrange(
                first as int,
                (first + row_elements) as int,
            ));
        } else if ggml_type == GGML_TYPE_F16 {
            assert(half_numbers(row) =~= half_numbers(raw).subrange(
                first as int,
                (first + row_elements) as int,
            ));
        } else {
            assert(bf16_numbers(row) =~= bf16_numbers(raw).subrange(
                first as int,
                (first + row_elements) as int,
            ));
        }
    }
}

/// Where in the order of a block the element with the given place stands.
pub open spec fn entry_of(ggml_type: u32, position: int) -> int {
    if ggml_type == GGML_TYPE_Q4_K {
        position / 64 * 64 + position % 32 * 2 + position % 64 / 32
    } else if ggml_type == GGML_TYPE_Q5_K {
        position
    } else {
        position / 128 * 128 + position % 32 * 4 + position % 128 / 32
    }
}

/// The place of the element that stands at `entry` in the order of a block.
pub open spec fn place_of(ggml_type: u32, entry: int) -> int {
    if ggml_type == GGML_TYPE_Q4_K {
        64 * (entry / 64) + 32 * (entry % 2) + entry % 64 / 2
    } else if ggml_type == GGML_TYPE_Q5_K {
        64 * (entry / 64) + 2 * (entry % 64 / 2) + entry % 2
    } else {
        128 * (entry / 128) + 32 * (entry % 4) + entry % 128 / 4
    }
}

proof fn lemma_q4_k_place(entry: int)
    requires
        0 <= entry < 256,
    ensures
        0 <= place_of(GGML_TYPE_Q4_K, entry) < 256,
        entry_of(GGML_TYPE_Q4_K, place_of(GGML_TYPE_Q4_K, entry)) == entry,
{
    let run = entry / 64;
    let lane = entry % 64 / 2;
    let half = entry % 2;
    let position = 64 * run + 32 * half + lane;
    assert(entry == 64 * run + 2 * lane + half);
    assert(position / 64 == run);
    assert(position % 64 == 32 * half + lane);
    assert(position % 32 == lane);
}

proof fn lemma_q4_k_entry(position: int)
    requires
        0 <= position < 256,
    ensures
        0 <= entry_of(GGML_TYPE_Q4_K, position) < 256,
        place_of(GGML_TYPE_Q4_K, entry_of(GGML_TYPE_Q4_K, position)) == position,
{
    let run = position / 64;
    let half = position % 64 / 32;
    let lane = position % 32;
    let entry = run * 64 + lane * 2 + half;
    assert(position == 64 * run + 32 * half + lane);
    assert(entry / 64 == run);
    assert(entry % 64 == 2 * lane + half);
    assert(entry % 2 == half);
}

proof fn lemma_q6_k_place(entry: int)
    requires
        0 <= entry < 256,
    ensures
        0 <= place_of(GGML_TYPE_Q6_K, entry) < 256,
        entry_of(GGML_TYPE_Q6_K, place_of(GGML_TYPE_Q6_K, entry)) == entry,
{
    let run = entry / 128;
    let lane = entry % 128 / 4;
    let quarter = entry % 4;
    let position = 128 * run + 32 * quarter + lane;
    assert(entry == 128 * run + 4 * lane + quarter);
    assert(position / 128 == run);
    assert(position % 128 == 32 * quarter + lane);
    assert(position % 32 == lane);
}

proof fn lemma_q6_k_entry(position: int)
    requires
        0 <= position < 256,
    ensures
        0 <= entry_of(GGML_TYPE_Q6_K, position) < 256,
        place_of(GGML_TYPE_Q6_K, entry_of(GGML_TYPE_Q6_K, position)) == position,
{
    let run = position / 128;
    let quarter = position % 128 / 32;
    let lane = position % 32;
    let entry = run * 128 + lane * 4 + quarter;
    assert(position == 128 * run + 32 * quarter + lane);
    assert(entry / 128 == run);
    assert(entry % 128 == 4 * lane + quarter);
    assert(entry % 4 == quarter);
}

/// A block has an element for each place, and only one: the element at each place is found where
/// [`entry_of`] says.
pub proof fn lemma_block_fills_every_place(ggml_type: u32, block: Seq<u8>, position: int, entry: int)
    requires
        is_quantized(ggml_type),
        0 <= position < 256,
        0 <= entry < 256,
    ensures
        0 <= entry_of(ggml_type, position) < 256,
        QuantBlockModel::of_type(ggml_type, block).values[entry].position == position <==> entry
            == entry_of(ggml_type, position),
{
    if ggml_type == GGML_TYPE_Q4_K {
        lemma_q4_k_place(entry);
        lemma_q4_k_entry(position);
        assert(QuantBlockModel::q4_k(block).values[entry].position == place_of(ggml_type, entry));
    } else if ggml_type == GGML_TYPE_Q5_K {
        assert(place_of(ggml_type, entry) == entry);
        assert(QuantBlockModel::q5_k(block).values[entry].position == place_of(ggml_type, entry));
    } else {
        lemma_q6_k_place(entry);
        lemma_q6_k_entry(position);
        assert(QuantBlockModel::q6_k(block).values[entry].position == place_of(ggml_type, entry));
    }
}

/// How the products of a quantized block and an input are added up. They come in the order of the
/// block's elements.
#[derive(Debug, Clone, Copy, PartialEq, Eq, Structural)]
pub enum Summation {
    /// Each product on its own, to a sum that starts anew with each block.
    OneByOne,
    /// So many products at a time, whose sum is added to one that starts anew with each block.
    GroupsPerBlock(usize),
    /// So many products at a time, whose sum is added to one that runs on through the row.
    Groups(usize),
    /// Each product with a single rounding, to a sum that runs on through the row; each element
    /// with a single rounding too where `elements` says so.
    Fused { elements: bool },
}

impl Summation {
    /// How many products of a block are added up before they join the sum.
    pub open spec fn group(ggml_type: u32) -> usize {
        if ggml_type == GGML_TYPE_Q6_K {
            4
        } else {
            2
        }
    }

    /// For the product of one row and one input.
    pub open spec fn of_row(ggml_type: u32) -> Summation {
        if ggml_type == GGML_TYPE_Q5_K {
            Summation::GroupsPerBlock(2)
        } else {
            Summation::OneByOne
        }
    }

    /// For the products of one row and so many inputs.
    pub open spec fn of_inputs(ggml_type: u32, inputs: usize) -> Summation {
        if ggml_type == GGML_TYPE_Q6_K && inputs == 6 {
            Summation::Fused { elements: false }
        } else {
            Summation::Groups(Self::group(ggml_type))
        }
    }

    /// For the products of two or four rows and so many inputs.
    pub open spec fn of_rows(ggml_type: u32, inputs: usize) -> Summation {
        if inputs == 6 {
            Summation::Fused { elements: ggml_type == GGML_TYPE_Q4_K }
        } else {
            Summation::Groups(Self::group(ggml_type))
        }
    }

    /// For the product of one row and one input.
    pub fn for_row(ggml_type: u32) -> (r: Summation)
        ensures
            r == Self::of_row(ggml_type),
    {
        if ggml_type == GGML_TYPE_Q5_K {
            Summation::GroupsPerBlock(2)
        } else {
            Summation::OneByOne
        }
    }

    /// For the products of one row and so many inputs.
    pub fn for_inputs(ggml_type: u32, inputs: usize) -> (r: Summation)
        ensures
            r == Self::of_inputs(ggml_type, inputs),
    {
        if ggml_type == GGML_TYPE_Q6_K {
            if inputs == 6 {
                Summation::Fused { elements: false }
            } else {
                Summation::Groups(4)
            }
        } else {
            Summation::Groups(2)
        }
    }

    /// For the products of two or four rows and so many inputs.
    pub fn for_rows(ggml_type: u32, inputs: usize) -> (r: Summation)
        ensures
            r == Self::of_rows(ggml_type, inputs),
    {
        if inputs == 6 {
            Summation::Fused { elements: ggml_type == GGML_TYPE_Q4_K }
        } else if ggml_type == GGML_TYPE_Q6_K {
            Summation::Groups(4)
        } else {
            Summation::Groups(2)
        }
    }
}

/// That a row and an input do not go together.
pub open spec fn dot_fault(ggml_type: u32, row_len: nat, input_len: nat) -> Option<Seq<char>> {
    if ggml_type == GGML_TYPE_F32 || ggml_type == GGML_TYPE_F16 || ggml_type == GGML_TYPE_BF16 {
        if row_len != row_size(ggml_type, input_len) {
            Some(
                label_of(ggml_type) + " dot row length "@ + crate::text::dec(row_len)
                    + " does not match input len "@ + crate::text::dec(input_len),
            )
        } else {
            None
        }
    } else if is_quantized(ggml_type) {
        if fits_blocks(ggml_type, row_len, input_len) {
            None
        } else {
            Some(label_of(ggml_type) + " dot row shape mismatch"@)
        }
    } else {
        Some(unsupported(ggml_type))
    }
}

/// Whether a row of whole blocks has as many elements as the input.
pub open spec fn fits_blocks(ggml_type: u32, row_len: nat, input_len: nat) -> bool {
    row_len % QuantBlockModel::size(ggml_type) == 0 && input_len == row_len
        / QuantBlockModel::size(ggml_type) * 256
}

/// Whether a row has as many elements as the input.
pub open spec fn fits_row(ggml_type: u32, row_len: nat, input_len: nat) -> bool {
    if is_quantized(ggml_type) {
        fits_blocks(ggml_type, row_len, input_len)
    } else {
        row_len == row_size(ggml_type, input_len)
    }
}

fn row_fits(ggml_type: u32, row_len: usize, input_len: usize) -> (r: bool)
    requires
        row_fault(ggml_type, 0) is None,
    ensures
        r == fits_row(ggml_type, row_len as nat, input_len as nat),
{
    if ggml_type == GGML_TYPE_F32 {
        row_len % 4 == 0 && row_len / 4 == input_len
    } else if ggml_type == GGML_TYPE_F16 || ggml_type == GGML_TYPE_BF16 {
        row_len % 2 == 0 && row_len / 2 == input_len
    } else {
        let size: usize = block_size(ggml_type);
        row_len % size == 0 && input_len % QK_K == 0 && input_len / QK_K == row_len / size
    }
}

fn is_supported(ggml_type: u32) -> (r: bool)
    ensures
        r == (row_fault(ggml_type, 0) is None),
{
    ggml_type == GGML_TYPE_F32 || ggml_type == GGML_TYPE_F16 || ggml_type == GGML_TYPE_BF16
        || ggml_type == GGML_TYPE_Q4_K || ggml_type == GGML_TYPE_Q5_K || ggml_type
        == GGML_TYPE_Q6_K
}

/// Checks that the product of a row and an input can be formed.
pub fn check_dot_row(ggml_type: u32, row_len: usize, input_len: usize) -> (r: Result<(), StageError>)
    ensures
        crate::model::failure(r) == dot_fault(ggml_type, row_len as nat, input_len as nat),
{
    if !is_supported(ggml_type) {
        return refuse_type(ggml_type);
    }
    if row_fits(ggml_type, row_len, input_len) {
        return Ok(());
    }
    if ggml_type == GGML_TYPE_F32 || ggml_type == GGML_TYPE_F16 || ggml_type == GGML_TYPE_BF16 {
        fail_with(
            ggml_type_name(ggml_type).to_owned().concat(" dot row length ").concat(
                size_text(row_len).as_str(),
            ).concat(" does not match input len ").concat(size_text(input_len).as_str()),
        )
    } else {
        fail_with(ggml_type_name(ggml_type).to_owned().concat(" dot row shape mismatch"))
    }
}

/// Whether each input has `length` numbers.
pub open spec fn all_as_long(inputs: Seq<usize>, length: usize) -> bool {
    forall|i: int| 0 <= i < inputs.len() ==> #[trigger] inputs[i] == length
}

fn same_lengths(inputs: &[usize], length: usize) -> (r: bool)
    ensures
        r == all_as_long(inputs@, length),
{
    let mut index: usize = 0;
    while index < inputs.len()
        invariant
            index <= inputs@.len(),
            forall|i: int| 0 <= i < index ==> #[trigger] inputs@[i] == length,
        decreases inputs.len() - index,
    {
        if inputs[index] != length {
            return false;
        }
        index += 1;
    }
    true
}

/// That a row, several inputs and the places for their products do not go together. Without
/// inputs there is nothing to do, and nothing wrong.
pub open spec fn dot_many_fault(
    ggml_type: u32,
    row_len: nat,
    inputs: Seq<usize>,
    sums_len: nat,
) -> Option<Seq<char>> {
    if inputs.len() == 0 {
        None
    } else if sums_len != inputs.len() {
        Some(
            "dot_many_row_into sums len "@ + crate::text::dec(sums_len)
                + " does not match input count "@ + crate::text::dec(inputs.len()),
        )
    } else if row_fault(ggml_type, 0) is Some {
        Some(unsupported(ggml_type))
    } else if fits_row(ggml_type, row_len, inputs[0] as nat) && all_as_long(inputs, inputs[0]) {
        None
    } else {
        Some(label_of(ggml_type) + " batched dot row shape mismatch"@)
    }
}

/// Checks that the products of a row and several inputs, given by their lengths, can be formed.
pub fn check_dot_many_row(ggml_type: u32, row_len: usize, inputs: &[usize], sums_len: usize) -> (r:
    Result<(), StageError>)
    ensures
        crate::model::failure(r) == dot_many_fault(
            ggml_type,
            row_len as nat,
            inputs@,
            sums_len as nat,
        ),
{
    if inputs.len() == 0 {
        return Ok(());
    }
    if sums_len != inputs.len() {
        return fail_with(
            "dot_many_row_into sums len ".to_owned().concat(size_text(sums_len).as_str()).concat(
                " does not match input count ",
            ).concat(size_text(inputs.len()).as_str()),
        );
    }
    if !is_supported(ggml_type) {
        return refuse_type(ggml_type);
    }
    if row_fits(ggml_type, row_len, inputs[0]) && same_lengths(inputs, inputs[0]) {
        Ok(())
    } else {
        fail_with(ggml_type_name(ggml_type).to_owned().concat(" batched dot row shape mismatch"))
    }
}

/// Lengths, written one after the other with a stroke between them.
pub open spec fn stroked(lengths: Seq<usize>) -> Seq<char>
    decreases lengths.len(),
{
    if lengths.len() == 0 {
        ""@
    } else if lengths.len() == 1 {
        crate::text::dec(lengths[0] as nat)
    } else {
        stroked(lengths.drop_last()) + " / "@ + crate::text::dec(lengths.last() as nat)
    }
}

fn stroked_text(lengths: &[usize]) -> (r: String)
    requires
        lengths@.len() > 0,
    ensures
        r@ == stroked(lengths@),
{
    let mut out: String = size_text(lengths[0]);
    let mut index: usize = 1;
    assert(lengths@.take(1) =~= seq![lengths@[0]]);
    while index < lengths.len()
        invariant
            1 <= index <= lengths@.len(),
            out@ == stroked(lengths@.take(index as int)),
        decreases lengths.len() - index,
    {
        proof {
            assert(lengths@.take(index + 1).drop_last() =~= lengths@.take(index as int));
            assert(lengths@.take(index + 1).last() == lengths@[index as int]);
        }
        out = out.concat(" / ").concat(size_text(lengths[index]).as_str());
        index += 1;
    }
    assert(lengths@.take(index as int) =~= lengths@);
    out
}

/// That several quantized rows, several inputs and the places for their products do not go
/// together.
pub open spec fn dot_rows_fault(
    ggml_type: u32,
    label: Seq<char>,
    rows: Seq<usize>,
    inputs: Seq<usize>,
    sums: Seq<usize>,
) -> Option<Seq<char>> {
    if inputs.len() == 0 {
        None
    } else if !all_as_long(sums, inputs.len() as usize) {
        Some(
            label_of(ggml_type) + " "@ + label + " batched dot sums lens "@ + stroked(sums)
                + " do not match input count "@ + crate::text::dec(inputs.len()),
        )
    } else if all_as_long(rows, rows[0]) && fits_blocks(
        ggml_type,
        rows[0] as nat,
        inputs[0] as nat,
    ) && all_as_long(inputs, inputs[0]) {
        None
    } else {
        Some(label_of(ggml_type) + " "@ + label + " batched dot row shape mismatch"@)
    }
}

fn check_dot_rows(ggml_type: u32, label: &str, rows: &[usize], inputs: &[usize], sums: &[usize]) -> (r:
    Result<(), StageError>)
    requires
        is_quantized(ggml_type),
        rows@.len() > 0,
        sums@.len() > 0,
    ensures
        crate::model::failure(r) == dot_rows_fault(ggml_type, label@, rows@, inputs@, sums@),
{
    if inputs.len() == 0 {
        return Ok(());
    }
    if !same_lengths(sums, inputs.len()) {
        return fail_with(
            ggml_type_name(ggml_type).to_owned().concat(" ").concat(label).concat(
                " batched dot sums lens ",
            ).concat(stroked_text(sums).as_str()).concat(" do not match input count ").concat(
                size_text(inputs.len()).as_str(),
            ),
        );
    }
    if same_lengths(rows, rows[0]) && row_fits(ggml_type, rows[0], inputs[0]) && same_lengths(
        inputs,
        inputs[0],
    ) {
        Ok(())
    } else {
        fail_with(
            ggml_type_name(ggml_type).to_owned().concat(" ").concat(label).concat(
                " batched dot row shape mismatch",
            ),
        )
    }
}

/// Checks that the products of two quantized rows and several inputs can be formed.
pub fn check_dot_two_rows(
    ggml_type: u32,
    rows: [usize; 2],
    inputs: &[usize],
    sums: [usize; 2],
) -> (r: Result<(), StageError>)
    requires
        is_quantized(ggml_type),
    ensures
        crate::model::failure(r) == dot_rows_fault(ggml_type, "paired"@, rows@, inputs@, sums@),
{
    check_dot_rows(ggml_type, "paired", &rows, inputs, &sums)
}

/// Checks that the products of four quantized rows and several inputs can be formed.
pub fn check_dot_four_rows(
    ggml_type: u32,
    rows: [usize; 4],
    inputs: &[usize],
    sums: [usize; 4],
) -> (r: Result<(), StageError>)
    requires
        is_quantized(ggml_type),
    ensures
        crate::model::failure(r) == dot_rows_fault(ggml_type, "four-row"@, rows@, inputs@, sums@),
{
    check_dot_rows(ggml_type, "four-row", &rows, inputs, &sums)
}

/// Checks that the products of four `Q4_K` rows and one input can be formed.
pub fn check_dot_q4_k_four_rows(rows: [usize; 4], input_len: usize) -> (r: Result<(), StageError>)
    ensures
        crate::model::failure(r) == (if all_as_long(rows@, rows[0]) && fits_blocks(
            GGML_TYPE_Q4_K,
            rows[0] as nat,
            input_len as nat,
        ) {
            None
        } else {
            Some("Q4_K four-row single-input dot row shape mismatch"@)
        }),
{
    if same_lengths(&rows, rows[0]) && row_fits(GGML_TYPE_Q4_K, rows[0], input_len) {
        Ok(())
    } else {
        fail("Q4_K four-row single-input dot row shape mismatch")
    }
}

} // verus!
