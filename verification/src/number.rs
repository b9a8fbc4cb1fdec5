//! Single-precision numbers, held as their bit patterns.
use vstd::prelude::*;

verus! {

/// The bit pattern without its sign.
pub open spec fn magnitude(bits: u32) -> int {
    bits as int % 0x8000_0000
}

/// Whether the bit pattern stands for no number.
pub open spec fn is_nan(bits: u32) -> bool {
    magnitude(bits) > 0x7f80_0000
}

/// Whether two bit patterns compare equal as numbers: neither is "not a number", and they are
/// the same, or both zero whatever their signs.
pub open spec fn same_number(a: u32, b: u32) -> bool {
    !is_nan(a) && !is_nan(b) && (a == b || (magnitude(a) == 0 && magnitude(b) == 0))
}

/// Whether two vectors compare equal, number by number.
pub open spec fn same_numbers(a: Seq<u32>, b: Seq<u32>) -> bool {
    a.len() == b.len() && forall|i: int| 0 <= i < a.len() ==> same_number(#[trigger] a[i], b[i])
}

/// Whether each entry is a number.
pub open spec fn all_numbers(values: Seq<u32>) -> bool {
    forall|i: int| 0 <= i < values.len() ==> !is_nan(#[trigger] values[i])
}

/// Whether two bit patterns compare equal as numbers.
pub(crate) fn equal_number(a: u32, b: u32) -> (r: bool)
    ensures
        r == same_number(a, b),
{
    let left: u32 = a % 0x8000_0000;
    let right: u32 = b % 0x8000_0000;
    left <= 0x7f80_0000 && right <= 0x7f80_0000 && (a == b || (left == 0 && right == 0))
}

/// Whether two vectors compare equal, number by number.
pub(crate) fn equal_numbers(a: &[u32], b: &[u32]) -> (r: bool)
    ensures
        r == same_numbers(a@, b@),
{
    if a.len() != b.len() {
        return false;
    }
    let mut index: usize = 0;
    while index < a.len()
        invariant
            index <= a@.len(),
            a@.len() == b@.len(),
            forall|i: int| 0 <= i < index ==> same_number(#[trigger] a@[i], b@[i]),
        decreases a.len() - index,
    {
        if !equal_number(a[index], b[index]) {
            return false;
        }
        index += 1;
    }
    true
}

/// Whether two lists of bytes are equal.
pub(crate) fn equal_bytes(a: &[u8], b: &[u8]) -> (r: bool)
    ensures
        r == (a@ == b@),
{
    if a.len() != b.len() {
        return false;
    }
    let mut index: usize = 0;
    while index < a.len()
        invariant
            index <= a@.len(),
            a@.len() == b@.len(),
            forall|i: int| 0 <= i < index ==> #[trigger] a@[i] == b@[i],
        decreases a.len() - index,
    {
        if a[index] != b[index] {
            return false;
        }
        index += 1;
    }
    assert(a@ =~= b@);
    true
}

/// Whether two lists of sizes are equal.
pub(crate) fn equal_sizes(a: &[usize], b: &[usize]) -> (r: bool)
    ensures
        r == (a@ == b@),
{
    if a.len() != b.len() {
        return false;
    }
    let mut index: usize = 0;
    while index < a.len()
        invariant
            index <= a@.len(),
            a@.len() == b@.len(),
            forall|i: int| 0 <= i < index ==> #[trigger] a@[i] == b@[i],
        decreases a.len() - index,
    {
        if a[index] != b[index] {
            return false;
        }
        index += 1;
    }
    assert(a@ =~= b@);
    true
}

} // verus!
