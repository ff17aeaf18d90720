//! Byte-sequence helpers shared by the codec-configuration parsers.

use vstd::prelude::*;

verus! {

/// The four-byte Annex B start code that precedes every NAL unit Vivi emits.
pub open spec fn start_code() -> Seq<u8> {
    seq![0u8, 0u8, 0u8, 1u8]
}

/// The unsigned big-endian value of `bytes`.
pub open spec fn be_value(bytes: Seq<u8>) -> nat
    decreases bytes.len(),
{
    if bytes.len() == 0 {
        0
    } else {
        be_value(bytes.drop_last()) * 256 + bytes.last() as nat
    }
}

/// `256` to the power `n`.
pub open spec fn pow256(n: nat) -> nat
    decreases n,
{
    if n == 0 { 1 } else { 256 * pow256((n - 1) as nat) }
}

/// The big-endian value of the two bytes at `offset`.
pub open spec fn be16_at(data: Seq<u8>, offset: int) -> int {
    data[offset] as int * 256 + data[offset + 1] as int
}

/// `bytes` starts with `prefix`.
pub open spec fn has_prefix(bytes: Seq<u8>, prefix: Seq<u8>) -> bool {
    prefix.len() <= bytes.len() && bytes.subrange(0, prefix.len() as int) == prefix
}

/// A big-endian value of `n` bytes is below `256^n`.
pub proof fn lemma_be_value_bound(bytes: Seq<u8>)
    ensures
        be_value(bytes) < pow256(bytes.len()),
    decreases bytes.len(),
{
    if bytes.len() > 0 {
        lemma_be_value_bound(bytes.drop_last());
        let v = be_value(bytes.drop_last());
        let p = pow256(bytes.drop_last().len());
        let b = bytes.last() as nat;
        assert(v * 256 + b < 256 * p) by (nonlinear_arith)
            requires
                v < p,
                b < 256,
        ;
    }
}

/// Appends `data[start..end]` to `output`.
pub fn append_range(output: &mut Vec<u8>, data: &[u8], start: usize, end: usize)
    requires
        start <= end <= data@.len(),
    ensures
        final(output)@ == old(output)@ + data@.subrange(start as int, end as int),
{
    let mut index = start;
    while index < end
        invariant
            start <= index <= end <= data@.len(),
            output@ == old(output)@ + data@.subrange(start as int, index as int),
        decreases end - index,
    {
        output.push(data[index]);
        index = index + 1;
        assert(data@.subrange(start as int, index as int) == data@.subrange(start as int, index - 1).push(
            data@[index - 1],
        ));
    }
}

/// Appends the Annex B start code to `output`.
pub fn append_start_code(output: &mut Vec<u8>)
    ensures
        final(output)@ == old(output)@ + start_code(),
{
    output.push(0);
    output.push(0);
    output.push(0);
    output.push(1);
    assert(output@ == old(output)@ + start_code());
}

/// A copy of `data`.
pub fn copy_bytes(data: &[u8]) -> (copy: Vec<u8>)
    ensures
        copy@ == data@,
{
    let mut copy = Vec::new();
    append_range(&mut copy, data, 0, data.len());
    assert(data@.subrange(0, data@.len() as int) == data@);
    copy
}


/// `a` and `b` hold the same bytes.
pub fn slices_equal(a: &[u8], b: &[u8]) -> (equal: bool)
    ensures
        equal == (a@ == b@),
{
    if a.len() != b.len() {
        return false;
    }
    let mut index: usize = 0;
    while index < a.len()
        invariant
            a@.len() == b@.len(),
            index <= a@.len(),
            forall|i: int| 0 <= i < index ==> a@[i] == b@[i],
        decreases a@.len() - index,
    {
        if a[index] != b[index] {
            return false;
        }
        index = index + 1;
    }
    assert(a@ =~= b@);
    true
}

} // verus!
