//! Byte strings: fixed-width big-endian integers and comparison.

use vstd::prelude::*;

verus! {

/// A 20-byte account address.
pub type Address = [u8; 20];

/// A 32-byte word: a chain-agnostic address or a digest.
pub type Bytes32 = [u8; 32];

/// The big-endian encoding of `value` in exactly `width` bytes
/// (the low `width` bytes of `value`, most significant first).
pub open spec fn be_bytes(value: nat, width: nat) -> Seq<u8>
    decreases width,
{
    if width == 0 {
        Seq::empty()
    } else {
        be_bytes(value / 256, (width - 1) as nat).push((value % 256) as u8)
    }
}

/// The encoding has the width asked for.
pub proof fn lemma_be_bytes_len(value: nat, width: nat)
    ensures
        be_bytes(value, width).len() == width,
    decreases width,
{
    if width > 0 {
        lemma_be_bytes_len(value / 256, (width - 1) as nat);
    }
}

/// The number that `bytes` spells, most significant byte first.
pub open spec fn be_value(bytes: Seq<u8>) -> nat
    decreases bytes.len(),
{
    if bytes.len() == 0 {
        0
    } else {
        be_value(bytes.drop_last()) * 256 + bytes.last() as nat
    }
}

/// Appends the `width` low bytes of `value` to `out`, most significant first.
fn push_be(out: &mut Vec<u8>, value: u64, width: usize)
    requires
        width <= 8,
    ensures
        final(out)@ == old(out)@ + be_bytes(value as nat, width as nat),
{
    let mut buf = [0u8; 8];
    let mut rest: u64 = value;
    let mut i: usize = width;
    while i > 0
        invariant
            i <= width <= 8,
            be_bytes(value as nat, width as nat) =~= be_bytes(rest as nat, i as nat) + buf@.subrange(
                i as int,
                width as int,
            ),
        decreases i,
    {
        i -= 1;
        buf[i] = (rest % 256) as u8;
        rest = rest / 256;
    }
    assert(be_bytes(rest as nat, 0) =~= Seq::<u8>::empty());
    let tail = &buf[0..width];
    let ghost before = out@;
    out.extend_from_slice(tail);
    assert(out@ =~= before + be_bytes(value as nat, width as nat));
}

/// Appends the eight bytes of `value`, most significant first.
pub fn push_u64_be(out: &mut Vec<u8>, value: u64)
    ensures
        final(out)@ == old(out)@ + be_bytes(value as nat, 8),
{
    push_be(out, value, 8)
}

/// Appends the four bytes of `value`, most significant first.
pub fn push_u32_be(out: &mut Vec<u8>, value: u32)
    ensures
        final(out)@ == old(out)@ + be_bytes(value as nat, 4),
{
    push_be(out, value as u64, 4)
}

/// Reads a big-endian unsigned integer of four bytes.
pub fn read_u32_be(bytes: &[u8]) -> (value: u32)
    requires
        bytes@.len() == 4,
    ensures
        value as nat == be_value(bytes@),
{
    let mut value: u32 = 0;
    let mut i: usize = 0;
    while i < 4
        invariant
            i <= 4,
            bytes@.len() == 4,
            value as nat == be_value(bytes@.subrange(0, i as int)),
            i < 4 ==> value < 0x100_0000,
            i < 3 ==> value < 0x1_0000,
            i < 2 ==> value < 0x100,
        decreases 4 - i,
    {
        let ghost prefix = bytes@.subrange(0, i + 1);
        assert(prefix.drop_last() =~= bytes@.subrange(0, i as int));
        assert(prefix.last() == bytes@[i as int]);
        value = value * 256 + bytes[i] as u32;
        i += 1;
    }
    assert(bytes@.subrange(0, 4) =~= bytes@);
    value
}

/// Do the two byte strings hold the same bytes?
pub fn bytes_eq(a: &[u8], b: &[u8]) -> (same: bool)
    ensures
        same == (a@ == b@),
{
    if a.len() != b.len() {
        return false;
    }
    let mut i: usize = 0;
    while i < a.len()
        invariant
            i <= a@.len(),
            a@.len() == b@.len(),
            forall|j: int| 0 <= j < i ==> a@[j] == b@[j],
        decreases a@.len() - i,
    {
        if a[i] != b[i] {
            return false;
        }
        i += 1;
    }
    assert(a@ =~= b@);
    true
}

/// Appends a copy of `bytes` to `out`.
pub fn push_bytes(out: &mut Vec<u8>, bytes: &[u8])
    ensures
        final(out)@ == old(out)@ + bytes@,
{
    let ghost before = out@;
    out.extend_from_slice(bytes);
    assert(out@ =~= before + bytes@);
}

/// A fresh vector holding the bytes of `bytes`.
pub fn to_vec(bytes: &[u8]) -> (out: Vec<u8>)
    ensures
        out@ == bytes@,
{
    let mut out: Vec<u8> = Vec::new();
    push_bytes(&mut out, bytes);
    assert(out@ =~= bytes@);
    out
}

} // verus!
