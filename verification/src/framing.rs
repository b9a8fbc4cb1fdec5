//! The byte layout of a tensor payload: hidden-state bytes alone, or a header that tells where
//! they end and auxiliary bytes begin.
use vstd::prelude::*;
use vstd::slice::*;

verus! {

/// The length of the header: four magic bytes and two lengths of four bytes each.
pub const STAGE_TENSOR_BYTES_HEADER_LEN: usize = 12;

/// The four bytes that a framed payload starts with: `stb1`.
pub open spec fn magic() -> Seq<u8> {
    seq![0x73u8, 0x74u8, 0x62u8, 0x31u8]
}

/// The hidden-state and auxiliary bytes of a framed payload.
#[derive(Debug, Clone, Copy, PartialEq, Eq)]
pub struct StageTensorByteSections<'a> {
    pub hidden_bytes: &'a [u8],
    pub aux_bytes: Option<&'a [u8]>,
}

/// The number that four bytes stand for, least significant first.
pub open spec fn le_value(bytes: Seq<u8>) -> int {
    bytes[0] + 0x100 * bytes[1] + 0x1_0000 * bytes[2] + 0x100_0000 * bytes[3]
}

/// The four bytes of a number, least significant first.
pub open spec fn le_bytes(value: int) -> Seq<u8> {
    seq![
        (value % 0x100) as u8,
        (value / 0x100 % 0x100) as u8,
        (value / 0x1_0000 % 0x100) as u8,
        (value / 0x100_0000 % 0x100) as u8,
    ]
}

/// A length as the header holds it: at most the largest 32-bit number.
pub open spec fn header_length(length: nat) -> int {
    if length <= u32::MAX {
        length as int
    } else {
        u32::MAX as int
    }
}

/// Whether `bytes` are framed: the magic bytes, and lengths that account for every byte.
pub open spec fn is_framed(bytes: Seq<u8>) -> bool {
    &&& bytes.len() >= STAGE_TENSOR_BYTES_HEADER_LEN
    &&& bytes.take(4) == magic()
    &&& bytes.len() == STAGE_TENSOR_BYTES_HEADER_LEN + le_value(bytes.subrange(4, 8)) + le_value(
        bytes.subrange(8, 12),
    )
}

/// The hidden-state bytes of a framed payload.
pub open spec fn framed_hidden(bytes: Seq<u8>) -> Seq<u8> {
    bytes.subrange(12, 12 + le_value(bytes.subrange(4, 8)))
}

/// The auxiliary bytes of a framed payload; none where their length is zero.
pub open spec fn framed_aux(bytes: Seq<u8>) -> Option<Seq<u8>> {
    if le_value(bytes.subrange(8, 12)) == 0 {
        None
    } else {
        Some(bytes.subrange(12 + le_value(bytes.subrange(4, 8)), bytes.len() as int))
    }
}

/// The payload of the given parts: the hidden-state bytes alone where there are no auxiliary
/// bytes, else both behind a header.
pub open spec fn framed(hidden: Seq<u8>, aux: Option<Seq<u8>>) -> Seq<u8> {
    match aux {
        Some(aux) if aux.len() > 0 => magic() + le_bytes(header_length(hidden.len())) + le_bytes(
            header_length(aux.len()),
        ) + hidden + aux,
        _ => hidden,
    }
}

/// The length of the hidden-state bytes of a payload.
pub open spec fn hidden_length(bytes: Seq<u8>) -> int {
    if is_framed(bytes) {
        le_value(bytes.subrange(4, 8))
    } else {
        bytes.len() as int
    }
}

fn read_length(bytes: &[u8], at: usize) -> (r: u32)
    requires
        at + 4 <= bytes@.len(),
    ensures
        r as int == le_value(bytes@.subrange(at as int, at + 4)),
{
    bytes[at] as u32 + 0x100 * (bytes[at + 1] as u32) + 0x1_0000 * (bytes[at + 2] as u32)
        + 0x100_0000 * (bytes[at + 3] as u32)
}

/// The sections of a framed payload; nothing where the bytes are not framed.
pub fn stage_tensor_byte_sections(bytes: &[u8]) -> (r: Option<StageTensorByteSections<'_>>)
    ensures
        r is Some == is_framed(bytes@),
        match r {
            Some(sections) => {
                &&& sections.hidden_bytes@ == framed_hidden(bytes@)
                &&& match sections.aux_bytes {
                    Some(aux) => framed_aux(bytes@) == Some(aux@),
                    None => framed_aux(bytes@) is None,
                }
            },
            None => true,
        },
{
    if bytes.len() < STAGE_TENSOR_BYTES_HEADER_LEN {
        return None;
    }
    if !(bytes[0] == 0x73 && bytes[1] == 0x74 && bytes[2] == 0x62 && bytes[3] == 0x31) {
        proof {
            assert(bytes@.take(4)[0] == bytes@[0] && bytes@.take(4)[1] == bytes@[1]
                && bytes@.take(4)[2] == bytes@[2] && bytes@.take(4)[3] == bytes@[3]);
        }
        return None;
    }
    assert(bytes@.take(4) =~= magic());
    let hidden_len: u32 = read_length(bytes, 4);
    let aux_len: u32 = read_length(bytes, 8);
    let total_len: u64 = 12 + hidden_len as u64 + aux_len as u64;
    if total_len != bytes.len() as u64 {
        return None;
    }
    let hidden_end: usize = 12 + hidden_len as usize;
    let hidden_bytes = slice_subrange(bytes, 12, hidden_end);
    let aux_bytes = if aux_len == 0 {
        None
    } else {
        Some(slice_subrange(bytes, hidden_end, bytes.len()))
    };
    Some(StageTensorByteSections { hidden_bytes, aux_bytes })
}

fn push_length(out: &mut Vec<u8>, length: usize)
    ensures
        final(out)@ == old(out)@ + le_bytes(header_length(length as nat)),
{
    let value: u32 = if length as u64 <= u32::MAX as u64 {
        length as u32
    } else {
        u32::MAX
    };
    out.push((value % 0x100) as u8);
    out.push((value / 0x100 % 0x100) as u8);
    out.push((value / 0x1_0000 % 0x100) as u8);
    out.push((value / 0x100_0000 % 0x100) as u8);
    assert(out@ =~= old(out)@ + le_bytes(header_length(length as nat)));
}

fn push_bytes(out: &mut Vec<u8>, bytes: &[u8])
    ensures
        final(out)@ == old(out)@ + bytes@,
{
    out.extend_from_slice(bytes);
    assert(out@ =~= old(out)@ + bytes@);
}

/// The payload of the given parts.
pub fn encode_stage_tensor_bytes(hidden_bytes: &[u8], aux_bytes: Option<&[u8]>) -> (r: Vec<u8>)
    ensures
        r@ == framed(
            hidden_bytes@,
            match aux_bytes {
                Some(aux) => Some(aux@),
                None => None,
            },
        ),
{
    let mut out: Vec<u8> = Vec::new();
    if let Some(aux) = aux_bytes {
        if aux.len() > 0 {
            out.push(0x73);
            out.push(0x74);
            out.push(0x62);
            out.push(0x31);
            assert(out@ =~= magic());
            push_length(&mut out, hidden_bytes.len());
            push_length(&mut out, aux.len());
            push_bytes(&mut out, hidden_bytes);
            push_bytes(&mut out, aux);
            return out;
        }
    }
    push_bytes(&mut out, hidden_bytes);
    assert(out@ =~= hidden_bytes@);
    out
}

/// Four bytes written least significant first read back as the number.
pub proof fn lemma_le_round_trip(value: int)
    requires
        0 <= value <= u32::MAX,
    ensures
        le_value(le_bytes(value)) == value,
{
}

/// What was framed with auxiliary bytes is read back: both sections, byte for byte.
pub proof fn lemma_framing_round_trip(hidden: Seq<u8>, aux: Seq<u8>)
    requires
        aux.len() > 0,
        hidden.len() <= u32::MAX,
        aux.len() <= u32::MAX,
    ensures
        is_framed(framed(hidden, Some(aux))),
        framed_hidden(framed(hidden, Some(aux))) == hidden,
        framed_aux(framed(hidden, Some(aux))) == Some(aux),
        hidden_length(framed(hidden, Some(aux))) == hidden.len(),
{
    let bytes = framed(hidden, Some(aux));
    lemma_le_round_trip(hidden.len() as int);
    lemma_le_round_trip(aux.len() as int);
    assert(bytes.take(4) =~= magic());
    assert(bytes.subrange(4, 8) =~= le_bytes(hidden.len() as int));
    assert(bytes.subrange(8, 12) =~= le_bytes(aux.len() as int));
    assert(framed_hidden(bytes) =~= hidden);
    assert(framed_aux(bytes)->0 =~= aux);
}

/// Without auxiliary bytes the payload is the hidden-state bytes, and its hidden-state length
/// is their number unless they happen to be framed themselves.
pub proof fn lemma_unframed_round_trip(hidden: Seq<u8>)
    requires
        !is_framed(hidden),
    ensures
        framed(hidden, None) == hidden,
        framed(hidden, Some(Seq::empty())) == hidden,
        hidden_length(framed(hidden, None)) == hidden.len(),
{
}

} // verus!
