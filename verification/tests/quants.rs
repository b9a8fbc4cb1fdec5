//! Quantized tensors.
use stage_forward_lab::quants::{
    BLOCK_Q4_K_SIZE, BLOCK_Q5_K_SIZE, BLOCK_Q6_K_SIZE, DequantizedTensor, GGML_TYPE_BF16,
    GGML_TYPE_F16, GGML_TYPE_F32, GGML_TYPE_Q4_K, GGML_TYPE_Q5_K, GGML_TYPE_Q6_K, K_SCALE_SIZE,
    QK_K, QuantBlock, Summation, bytes_per_row, check_dot_four_rows, check_dot_many_row,
    check_dot_q4_k_four_rows, check_dot_row, check_dot_two_rows, dequantize_bf16_tensor,
    dequantize_f16_tensor, dequantize_f32_tensor, dequantize_q4_k_block, dequantize_q4_k_tensor,
    dequantize_q5_k_block, dequantize_q5_k_tensor, dequantize_q6_k_block, dequantize_q6_k_tensor,
    dequantize_row, dequantize_row_into, dequantize_tensor, get_scale_min_k4, ggml_type_name,
};

/// The bit patterns of numbers.
fn bits(values: &[f32]) -> Vec<u32> {
    values.iter().map(|value| value.to_bits()).collect()
}

/// Fills in the numbers that a block stands for.
fn numbers_into(block: &QuantBlock, out: &mut [f32]) {
    let d = half::f16::from_bits(block.d).to_f32();
    let dmin = half::f16::from_bits(block.dmin).to_f32();
    for value in &block.values {
        out[value.position] =
            d * value.scale as f32 * value.quant as f32 - dmin * value.min as f32;
    }
}

/// The numbers that a decoded tensor stands for.
fn numbers_of(tensor: &DequantizedTensor) -> Vec<f32> {
    match tensor {
        DequantizedTensor::Numbers(values) => {
            values.iter().map(|value| f32::from_bits(*value)).collect()
        }
        DequantizedTensor::Halves(values) => {
            values.iter().map(|value| half::f16::from_bits(*value).to_f32()).collect()
        }
        DequantizedTensor::Blocks(blocks) => {
            let mut numbers = vec![0.0f32; QK_K * blocks.len()];
            for (block, out) in blocks.iter().zip(numbers.chunks_mut(QK_K)) {
                numbers_into(block, out);
            }
            numbers
        }
    }
}

/// The products of a row's numbers and an input's, added up in the given way.
fn added_up(summation: Summation, ggml_type: u32, row: &[u8], input: &[f32]) -> f32 {
    let DequantizedTensor::Blocks(blocks) = dequantize_tensor(ggml_type, row).unwrap() else {
        panic!("the row is not made of blocks");
    };
    let mut sum = 0.0f32;
    for (block, input) in blocks.iter().zip(input.chunks(QK_K)) {
        let mut numbers = vec![0.0f32; QK_K];
        numbers_into(block, &mut numbers);
        let products: Vec<f32> = block
            .values
            .iter()
            .map(|value| numbers[value.position] * input[value.position])
            .collect();
        let grouped = |start: f32, group: usize| {
            products.chunks(group).fold(start, |sum, part| sum + part.iter().sum::<f32>())
        };
        sum = match summation {
            Summation::OneByOne => sum + grouped(0.0, 1),
            Summation::GroupsPerBlock(group) => sum + grouped(0.0, group),
            Summation::Groups(group) => grouped(sum, group),
            Summation::Fused { .. } => block
                .values
                .iter()
                .fold(sum, |sum, value| numbers[value.position].mul_add(input[value.position], sum)),
        };
    }
    sum
}

/// The sum of the products of a row's numbers and an input's.
fn dot_row(ggml_type: u32, row: &[u8], input: &[f32]) -> f32 {
    check_dot_row(ggml_type, row.len(), input.len()).unwrap();
    added_up(Summation::for_row(ggml_type), ggml_type, row, input)
}

/// For each input, the sum of the products of a row's numbers and the input's.
fn dot_many_row_refs_into(ggml_type: u32, row: &[u8], inputs: &[&[f32]], sums: &mut [f32]) {
    let lengths: Vec<usize> = inputs.iter().map(|input| input.len()).collect();
    check_dot_many_row(ggml_type, row.len(), &lengths, sums.len()).unwrap();
    let summation = Summation::for_inputs(ggml_type, inputs.len());
    for (sum, input) in sums.iter_mut().zip(inputs) {
        *sum = added_up(summation, ggml_type, row, input);
    }
}

fn dot_many_row_into(ggml_type: u32, row: &[u8], inputs: &[Vec<f32>], sums: &mut [f32]) {
    let inputs: Vec<&[f32]> = inputs.iter().map(|input| input.as_slice()).collect();
    dot_many_row_refs_into(ggml_type, row, &inputs, sums);
}

fn dot_many_row(ggml_type: u32, row: &[u8], inputs: &[Vec<f32>]) -> Vec<f32> {
    let mut sums = vec![0.0f32; inputs.len()];
    dot_many_row_into(ggml_type, row, inputs, &mut sums);
    sums
}

fn constructed_q4_k_row() -> Vec<u8> {
    let mut row = vec![0u8; BLOCK_Q4_K_SIZE];
    row[..2].copy_from_slice(&half::f16::from_f32(1.0).to_bits().to_le_bytes());
    row[4] = 1;
    row[5] = 1;
    row[6] = 1;
    row[7] = 1;
    for byte in row[4 + K_SCALE_SIZE..].iter_mut() {
        *byte = 0x11;
    }
    row
}

fn constructed_q5_k_row() -> Vec<u8> {
    let mut row = vec![0u8; BLOCK_Q5_K_SIZE];
    row[..2].copy_from_slice(&half::f16::from_f32(1.0).to_bits().to_le_bytes());
    row[4] = 1;
    row[5] = 1;
    row[6] = 1;
    row[7] = 1;
    for byte in row[4 + K_SCALE_SIZE + QK_K / 8..].iter_mut() {
        *byte = 0x11;
    }
    row
}

#[test]
fn q6_k_zero_block_dequantizes_to_zeroes() {
    let block = vec![0u8; BLOCK_Q6_K_SIZE];
    let mut out = vec![1.0f32; QK_K];
    numbers_into(&dequantize_q6_k_block(&block).unwrap(), &mut out);
    assert!(out.iter().all(|value| *value == 0.0));
}

#[test]
fn q4_k_zero_block_dequantizes_to_zeroes() {
    let block = vec![0u8; BLOCK_Q4_K_SIZE];
    let mut out = vec![1.0f32; QK_K];
    numbers_into(&dequantize_q4_k_block(&block).unwrap(), &mut out);
    assert!(out.iter().all(|value| *value == 0.0));
}

#[test]
fn q4_k_dot_matches_constructed_row() {
    let row = constructed_q4_k_row();
    let input = vec![1.0f32; QK_K];
    assert_eq!(dot_row(GGML_TYPE_Q4_K, &row, &input), 128.0);
    let half = vec![0.5f32; QK_K];
    assert_eq!(
        dot_many_row(GGML_TYPE_Q4_K, &row, &[input.clone(), half.clone()]),
        vec![128.0, 64.0]
    );
    let mut sums = vec![0.0f32; 2];
    dot_many_row_into(GGML_TYPE_Q4_K, &row, &[input.clone(), half.clone()], &mut sums);
    assert_eq!(sums, vec![128.0, 64.0]);
    let inputs = [input.as_slice(), half.as_slice()];
    dot_many_row_refs_into(GGML_TYPE_Q4_K, &row, &inputs, &mut sums);
    assert_eq!(sums, vec![128.0, 64.0]);
}

#[test]
fn q6_k_dot_matches_constructed_row() {
    let mut row = vec![0u8; BLOCK_Q6_K_SIZE];
    row[BLOCK_Q6_K_SIZE - 2..].copy_from_slice(&half::f16::from_f32(1.0).to_bits().to_le_bytes());
    for scale in row[QK_K / 2 + QK_K / 4..QK_K / 2 + QK_K / 4 + QK_K / 16].iter_mut() {
        *scale = 1;
    }
    let input = vec![1.0f32; QK_K];
    assert_eq!(dot_row(GGML_TYPE_Q6_K, &row, &input), -32.0 * QK_K as f32);
    assert_eq!(
        dot_many_row(GGML_TYPE_Q6_K, &row, &[input.clone(), vec![0.5; QK_K]]),
        vec![-32.0 * QK_K as f32, -16.0 * QK_K as f32]
    );
}

#[test]
fn q5_k_dot_matches_constructed_row() {
    let row = constructed_q5_k_row();
    let input = vec![1.0f32; QK_K];
    assert_eq!(dot_row(GGML_TYPE_Q5_K, &row, &input), 128.0);
    let half = vec![0.5f32; QK_K];
    assert_eq!(
        dot_many_row(GGML_TYPE_Q5_K, &row, &[input.clone(), half.clone()]),
        vec![128.0, 64.0]
    );
    let mut sums = vec![0.0f32; 2];
    dot_many_row_into(GGML_TYPE_Q5_K, &row, &[input.clone(), half.clone()], &mut sums);
    assert_eq!(sums, vec![128.0, 64.0]);
    let inputs = [input.as_slice(), half.as_slice()];
    dot_many_row_refs_into(GGML_TYPE_Q5_K, &row, &inputs, &mut sums);
    assert_eq!(sums, vec![128.0, 64.0]);
}

#[test]
fn q5_k_row_into_matches_allocating_decode() {
    let row = constructed_q5_k_row();
    let expected = dequantize_row(GGML_TYPE_Q5_K, &row, 0, QK_K).unwrap();
    let actual = dequantize_row_into(GGML_TYPE_Q5_K, &row, 0, QK_K, QK_K).unwrap();
    assert_eq!(numbers_of(&actual), numbers_of(&expected));
}

#[test]
fn q4_k_values_are_scaled_by_their_sub_block() {
    let mut block = vec![0u8; BLOCK_Q4_K_SIZE];
    block[..2].copy_from_slice(&half::f16::from_f32(2.0).to_bits().to_le_bytes());
    block[2..4].copy_from_slice(&half::f16::from_f32(0.5).to_bits().to_le_bytes());
    block[4] = 3;
    block[5] = 5;
    block[8] = 1;
    block[9] = 7;
    block[16] = 0xa4;
    block[17] = 0x0f;
    let decoded = dequantize_q4_k_block(&block).unwrap();
    let mut out = vec![0.0f32; QK_K];
    numbers_into(&decoded, &mut out);
    assert_eq!(out[0], 2.0 * 3.0 * 4.0 - 0.5 * 1.0);
    assert_eq!(out[1], 2.0 * 3.0 * 15.0 - 0.5 * 1.0);
    assert_eq!(out[32], 2.0 * 5.0 * 10.0 - 0.5 * 7.0);
    assert_eq!(out[33], -0.5 * 7.0);
    assert_eq!(out[64], 0.0);
}

#[test]
fn q5_k_values_have_a_fifth_bit() {
    let mut block = vec![0u8; BLOCK_Q5_K_SIZE];
    block[..2].copy_from_slice(&half::f16::from_f32(1.0).to_bits().to_le_bytes());
    block[4] = 2;
    block[5] = 1;
    block[16] = 0x03;
    block[48] = 0x21;
    let decoded = dequantize_q5_k_block(&block).unwrap();
    let mut out = vec![0.0f32; QK_K];
    numbers_into(&decoded, &mut out);
    assert_eq!(out[0], 2.0 * 17.0);
    assert_eq!(out[1], 18.0);
    assert_eq!(out[2], 0.0);
}

#[test]
fn q6_k_values_are_centred_on_thirty_two() {
    let mut block = vec![0u8; BLOCK_Q6_K_SIZE];
    block[208..].copy_from_slice(&half::f16::from_f32(0.25).to_bits().to_le_bytes());
    block[0] = 0x5f;
    block[128] = 0x02;
    block[192] = 4;
    block[196] = 0xff;
    let decoded = dequantize_q6_k_block(&block).unwrap();
    let mut out = vec![0.0f32; QK_K];
    numbers_into(&decoded, &mut out);
    assert_eq!(out[0], 0.25 * 4.0 * (47.0 - 32.0));
    assert_eq!(out[1], 0.25 * 4.0 * -32.0);
    assert_eq!(out[64], -0.25 * (5.0 - 32.0));
}

#[test]
fn every_place_of_a_block_is_filled_once() {
    for (ggml_type, size) in [
        (GGML_TYPE_Q4_K, BLOCK_Q4_K_SIZE),
        (GGML_TYPE_Q5_K, BLOCK_Q5_K_SIZE),
        (GGML_TYPE_Q6_K, BLOCK_Q6_K_SIZE),
    ] {
        let block: Vec<u8> = (0..size).map(|index| (index * 37 % 251) as u8).collect();
        let decoded = match dequantize_tensor(ggml_type, &block).unwrap() {
            DequantizedTensor::Blocks(blocks) => blocks,
            other => panic!("{other:?}"),
        };
        assert_eq!(decoded.len(), 1);
        let mut places: Vec<usize> =
            decoded[0].values.iter().map(|value| value.position).collect();
        places.sort();
        assert_eq!(places, (0..QK_K).collect::<Vec<usize>>());
    }
}

#[test]
fn plain_numbers_are_read_little_end_first() {
    assert_eq!(
        dequantize_f32_tensor(&[0, 0, 0x80, 0x3f, 1, 0, 0, 0]).unwrap(),
        [1.0f32.to_bits(), 1]
    );
    assert_eq!(dequantize_f16_tensor(&[0x00, 0x3c, 0x34, 0x12]).unwrap(), [0x3c00, 0x1234]);
    assert_eq!(half::f16::from_bits(0x3c00).to_f32(), 1.0);
    assert_eq!(
        dequantize_bf16_tensor(&[0x80, 0x3f]).unwrap(),
        [half::bf16::from_bits(0x3f80).to_f32().to_bits()]
    );
}

#[test]
fn tensors_of_odd_lengths_are_refused() {
    assert_eq!(
        dequantize_f32_tensor(&[0; 7]).unwrap_err().to_string(),
        "F32 tensor length 7 is not divisible by 4"
    );
    assert_eq!(
        dequantize_f16_tensor(&[0; 3]).unwrap_err().to_string(),
        "F16 tensor length 3 is not divisible by 2"
    );
    assert_eq!(
        dequantize_bf16_tensor(&[0; 1]).unwrap_err().to_string(),
        "BF16 tensor length 1 is not divisible by 2"
    );
    assert_eq!(
        dequantize_q4_k_tensor(&[0; 145]).unwrap_err().to_string(),
        "Q4_K tensor length 145 is not divisible by block size 144"
    );
    assert_eq!(
        dequantize_q5_k_tensor(&[0; 1]).unwrap_err().to_string(),
        "Q5_K tensor length 1 is not divisible by block size 176"
    );
    assert_eq!(
        dequantize_q6_k_tensor(&[0; 420]).unwrap().len(),
        2
    );
    assert_eq!(
        dequantize_q6_k_tensor(&[0; 211]).unwrap_err().to_string(),
        "Q6_K tensor length 211 is not divisible by block size 210"
    );
    assert_eq!(
        dequantize_q4_k_block(&[0; 143]).unwrap_err().to_string(),
        "Q4_K block decode shape mismatch"
    );
    assert_eq!(
        dequantize_q5_k_block(&[0; 177]).unwrap_err().to_string(),
        "Q5_K block decode shape mismatch"
    );
    assert_eq!(
        dequantize_q6_k_block(&[]).unwrap_err().to_string(),
        "Q6_K block decode shape mismatch"
    );
    assert_eq!(
        dequantize_tensor(8, &[0; 34]).unwrap_err().to_string(),
        "Unsupported GGML type 8 (Q8_0)"
    );
}

#[test]
fn a_row_is_cut_out_of_its_tensor() {
    let raw: Vec<u8> = (0..24).collect();
    assert_eq!(bytes_per_row(GGML_TYPE_F32, 3).unwrap(), 12);
    assert_eq!(
        numbers_of(&dequantize_row(GGML_TYPE_F32, &raw, 1, 3).unwrap()),
        numbers_of(&dequantize_tensor(GGML_TYPE_F32, &raw[12..]).unwrap())
    );
    assert_eq!(
        dequantize_row(GGML_TYPE_F32, &raw, 2, 3).unwrap_err().to_string(),
        "Row 2 needs bytes 24..36 but tensor has only 24 bytes"
    );
    assert_eq!(
        dequantize_row_into(GGML_TYPE_F32, &raw, 1, 3, 4).unwrap_err().to_string(),
        "dequantize_row_into output len 4 does not match row_elements 3"
    );
    assert_eq!(bytes_per_row(GGML_TYPE_F16, 3).unwrap(), 6);
    assert_eq!(bytes_per_row(GGML_TYPE_BF16, 3).unwrap(), 6);
    assert_eq!(bytes_per_row(GGML_TYPE_Q4_K, 512).unwrap(), 288);
    assert_eq!(bytes_per_row(GGML_TYPE_Q5_K, 512).unwrap(), 352);
    assert_eq!(bytes_per_row(GGML_TYPE_Q6_K, 512).unwrap(), 420);
    assert_eq!(
        bytes_per_row(GGML_TYPE_Q6_K, 255).unwrap_err().to_string(),
        "Q6_K row length 255 not divisible by 256"
    );
    assert_eq!(
        bytes_per_row(2, 32).unwrap_err().to_string(),
        "Unsupported GGML type 2 for row size"
    );
}

#[test]
fn scales_and_minimums_are_six_bits_each() {
    let scales: [u8; 12] = [1, 2, 3, 0xc4, 5, 6, 7, 0x88, 0x21, 0x43, 0x65, 0x87];
    assert_eq!(get_scale_min_k4(0, &scales), (1, 5));
    assert_eq!(get_scale_min_k4(3, &scales), (4, 8));
    assert_eq!(get_scale_min_k4(4, &scales), (1, 2));
    assert_eq!(get_scale_min_k4(7, &scales), (7 | 0x30, 8 | 0x20));
}

#[test]
fn types_have_names() {
    assert_eq!(ggml_type_name(GGML_TYPE_F32), "F32");
    assert_eq!(ggml_type_name(GGML_TYPE_BF16), "BF16");
    assert_eq!(ggml_type_name(15), "Q8_K");
    assert_eq!(ggml_type_name(4), "UNKNOWN");
}

#[test]
fn rows_that_do_not_fit_their_input_are_refused() {
    check_dot_row(GGML_TYPE_F32, 8, 2).unwrap();
    assert_eq!(
        check_dot_row(GGML_TYPE_F32, 8, 3).unwrap_err().to_string(),
        "F32 dot row length 8 does not match input len 3"
    );
    assert_eq!(
        check_dot_row(GGML_TYPE_Q4_K, 144, 255).unwrap_err().to_string(),
        "Q4_K dot row shape mismatch"
    );
    assert_eq!(
        check_dot_row(3, 144, 255).unwrap_err().to_string(),
        "Unsupported GGML type 3 (Q4_1)"
    );
    assert_eq!(
        check_dot_many_row(GGML_TYPE_F32, 8, &[2, 2], 1).unwrap_err().to_string(),
        "dot_many_row_into sums len 1 does not match input count 2"
    );
    assert_eq!(
        check_dot_many_row(GGML_TYPE_Q6_K, 210, &[256, 255], 2).unwrap_err().to_string(),
        "Q6_K batched dot row shape mismatch"
    );
    check_dot_two_rows(GGML_TYPE_Q4_K, [144, 144], &[256], [1, 1]).unwrap();
    assert_eq!(
        check_dot_two_rows(GGML_TYPE_Q4_K, [144, 144], &[256], [1, 2]).unwrap_err().to_string(),
        "Q4_K paired batched dot sums lens 1 / 2 do not match input count 1"
    );
    assert_eq!(
        check_dot_four_rows(GGML_TYPE_Q6_K, [210, 210, 210, 209], &[256], [1; 4])
            .unwrap_err()
            .to_string(),
        "Q6_K four-row batched dot row shape mismatch"
    );
    check_dot_q4_k_four_rows([288; 4], 512).unwrap();
    assert_eq!(
        check_dot_q4_k_four_rows([288; 4], 256).unwrap_err().to_string(),
        "Q4_K four-row single-input dot row shape mismatch"
    );
}

#[test]
fn products_are_added_up_as_type_and_inputs_ask_for() {
    assert_eq!(Summation::for_row(GGML_TYPE_Q4_K), Summation::OneByOne);
    assert_eq!(Summation::for_row(GGML_TYPE_Q5_K), Summation::GroupsPerBlock(2));
    assert_eq!(Summation::for_row(GGML_TYPE_Q6_K), Summation::OneByOne);
    assert_eq!(Summation::for_inputs(GGML_TYPE_Q4_K, 6), Summation::Groups(2));
    assert_eq!(Summation::for_inputs(GGML_TYPE_Q5_K, 2), Summation::Groups(2));
    assert_eq!(Summation::for_inputs(GGML_TYPE_Q6_K, 5), Summation::Groups(4));
    assert_eq!(Summation::for_inputs(GGML_TYPE_Q6_K, 6), Summation::Fused { elements: false });
    assert_eq!(Summation::for_rows(GGML_TYPE_Q4_K, 6), Summation::Fused { elements: true });
    assert_eq!(Summation::for_rows(GGML_TYPE_Q6_K, 6), Summation::Fused { elements: false });
    assert_eq!(Summation::for_rows(GGML_TYPE_Q4_K, 1), Summation::Groups(2));
    assert_eq!(Summation::for_rows(GGML_TYPE_Q6_K, 2), Summation::Groups(4));
}
