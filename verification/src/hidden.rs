//! Hidden states on the wire: each number's bit pattern, least significant byte first.
use vstd::prelude::*;
use vstd::string::*;
use crate::model::{fail_with, StageError};
use crate::quants::read_four_bytes;
use crate::text::size_text;

verus! {

/// The bytes of a hidden state: four for each number.
pub open spec fn encoded_state(values: Seq<u32>) -> Seq<u8>
    decreases values.len(),
{
    if values.len() == 0 {
        Seq::empty()
    } else {
        encoded_state(values.drop_last()) + crate::framing::le_bytes(values.last() as int)
    }
}

/// The numbers that the bytes of a hidden state stand for.
pub open spec fn decoded_state(bytes: Seq<u8>) -> Seq<u32> {
    crate::quants::f32_numbers(bytes)
}

/// That bytes are not those of a hidden state with the given dimension.
pub open spec fn state_fault(length: nat, hidden_dim: nat) -> Option<Seq<char>> {
    if length != hidden_dim * 4 {
        Some(
            "Hidden-state byte length "@ + crate::text::dec(length)
                + " does not match hidden_dim "@ + crate::text::dec(hidden_dim),
        )
    } else {
        None
    }
}

/// The bytes of a hidden state.
pub fn encode_hidden_state(values: &[u32]) -> (r: Vec<u8>)
    ensures
        r@ == encoded_state(values@),
{
    let mut bytes: Vec<u8> = Vec::new();
    let mut index: usize = 0;
    assert(values@.take(0) =~= Seq::empty());
    while index < values.len()
        invariant
            index <= values@.len(),
            bytes@ == encoded_state(values@.take(index as int)),
        decreases values.len() - index,
    {
        proof {
            assert(values@.take(index + 1).drop_last() =~= values@.take(index as int));
            assert(values@.take(index + 1).last() == values@[index as int]);
        }
        let value: u32 = values[index];
        let ghost before = bytes@;
        bytes.push((value % 0x100) as u8);
        bytes.push((value / 0x100 % 0x100) as u8);
        bytes.push((value / 0x1_0000 % 0x100) as u8);
        bytes.push((value / 0x100_0000 % 0x100) as u8);
        assert(bytes@ =~= before + crate::framing::le_bytes(value as int));
        index += 1;
    }
    assert(values@.take(index as int) =~= values@);
    bytes
}

/// The numbers of a hidden state; an error where the bytes are not four for each dimension.
pub fn decode_hidden_state(bytes: &[u8], hidden_dim: usize) -> (r: Result<Vec<u32>, StageError>)
    ensures
        crate::model::failure(r) == state_fault(bytes@.len(), hidden_dim as nat),
        r matches Ok(values) ==> values@ == decoded_state(bytes@),
{
    let length: usize = bytes.len();
    if length % 4 != 0 || length / 4 != hidden_dim {
        return fail_with(
            "Hidden-state byte length ".to_owned().concat(size_text(length).as_str()).concat(
                " does not match hidden_dim ",
            ).concat(size_text(hidden_dim).as_str()),
        );
    }
    let mut values: Vec<u32> = Vec::new();
    let mut index: usize = 0;
    while index < hidden_dim
        invariant
            index <= hidden_dim,
            length == bytes@.len(),
            length == 4 * hidden_dim,
            values@.len() == index,
            forall|i: int|
                0 <= i < index ==> #[trigger] values@[i] == crate::quants::four_bytes(
                    bytes@,
                    4 * i,
                ),
        decreases hidden_dim - index,
    {
        values.push(read_four_bytes(bytes, 4 * index));
        index += 1;
    }
    assert(values@ =~= decoded_state(bytes@));
    Ok(values)
}

/// A hidden state that is encoded decodes to itself.
pub proof fn lemma_state_round_trip(values: Seq<u32>)
    ensures
        state_fault(encoded_state(values).len(), values.len()) is None,
        decoded_state(encoded_state(values)) == values,
    decreases values.len(),
{
    if values.len() > 0 {
        let front = values.drop_last();
        let bytes = encoded_state(values);
        lemma_state_round_trip(front);
        crate::framing::lemma_le_round_trip(values.last() as int);
        let before = encoded_state(front);
        assert forall|i: int| 0 <= i < values.len() implies decoded_state(bytes)[i] == values[i] by {
            if i < front.len() {
                assert(decoded_state(before)[i] == front[i]);
                assert(bytes[4 * i] == before[4 * i] && bytes[4 * i + 1] == before[4 * i + 1]
                    && bytes[4 * i + 2] == before[4 * i + 2] && bytes[4 * i + 3] == before[4 * i
                    + 3]);
            } else {
                let last = crate::framing::le_bytes(values.last() as int);
                assert(bytes[4 * i] == last[0] && bytes[4 * i + 1] == last[1] && bytes[4 * i + 2]
                    == last[2] && bytes[4 * i + 3] == last[3]);
            }
        }
        assert(decoded_state(bytes) =~= values);
    } else {
        assert(decoded_state(encoded_state(values)) =~= values);
    }
}

} // verus!
