use vstd::prelude::*;

verus! {

/// Big-endian bytes of a 16-bit value.
#[verifier::opaque]
pub open spec fn be16(v: u16) -> Seq<u8> {
    seq![(v / 0x100) as u8, (v % 0x100) as u8]
}

/// Big-endian bytes of a 32-bit value.
#[verifier::opaque]
pub open spec fn be32(v: u32) -> Seq<u8> {
    seq![
        (v / 0x100_0000) as u8,
        (v / 0x1_0000 % 0x100) as u8,
        (v / 0x100 % 0x100) as u8,
        (v % 0x100) as u8,
    ]
}

/// Big-endian bytes of the low 48 bits of a 64-bit value.
#[verifier::opaque]
pub open spec fn be48(v: u64) -> Seq<u8> {
    seq![
        (v / 0x100 / 0x100 / 0x100 / 0x100 / 0x100 % 0x100) as u8,
        (v / 0x100 / 0x100 / 0x100 / 0x100 % 0x100) as u8,
        (v / 0x100 / 0x100 / 0x100 % 0x100) as u8,
        (v / 0x100 / 0x100 % 0x100) as u8,
        (v / 0x100 % 0x100) as u8,
        (v % 0x100) as u8,
    ]
}

/// The big-endian 16-bit value at `i`.
pub open spec fn read16(b: Seq<u8>, i: int) -> u16 {
    (b[i] as int * 0x100 + b[i + 1] as int) as u16
}

/// The big-endian 32-bit value at `i`.
pub open spec fn read32(b: Seq<u8>, i: int) -> u32 {
    (b[i] as int * 0x100_0000 + b[i + 1] as int * 0x1_0000 + b[i + 2] as int * 0x100
        + b[i + 3] as int) as u32
}

/// The big-endian 48-bit value at `i`.
pub open spec fn read48(b: Seq<u8>, i: int) -> u64 {
    (b[i] as int * 0x100_0000_0000 + b[i + 1] as int * 0x1_0000_0000 + b[i + 2] as int
        * 0x100_0000 + b[i + 3] as int * 0x1_0000 + b[i + 4] as int * 0x100 + b[i + 5] as int) as u64
}

/// The big-endian encodings are two, four and six bytes long.
pub proof fn lemma_be_len(a: u16, b: u32, c: u64)
    ensures
        be16(a).len() == 2,
        be32(b).len() == 4,
        be48(c).len() == 6,
{
    reveal(be16);
    reveal(be32);
    reveal(be48);
}

/// Reading back a 16-bit encoding gives the value.
pub proof fn lemma_read16_be16(v: u16)
    ensures
        read16(be16(v), 0) == v,
{
    reveal(be16);
    assert((v / 0x100) * 0x100 + v % 0x100 == v) by (nonlinear_arith);
}

/// Reading back a 32-bit encoding gives the value.
pub proof fn lemma_read32_be32(v: u32)
    ensures
        read32(be32(v), 0) == v,
{
    reveal(be32);
    assert(v / 0x100_0000 * 0x100_0000 + (v / 0x1_0000 % 0x100) * 0x1_0000 + (v / 0x100 % 0x100)
        * 0x100 + v % 0x100 == v) by (nonlinear_arith);
}

/// Reading back a 48-bit encoding gives the value, where it fits 48 bits.
pub proof fn lemma_read48_be48(v: u64)
    requires
        v < 0x1_0000_0000_0000,
    ensures
        read48(be48(v), 0) == v,
{
    reveal(be48);
    let v1 = v / 0x100;
    let v2 = v1 / 0x100;
    let v3 = v2 / 0x100;
    let v4 = v3 / 0x100;
    let v5 = v4 / 0x100;
    assert(v == v1 * 0x100 + v % 0x100);
    assert(v1 == v2 * 0x100 + v1 % 0x100);
    assert(v2 == v3 * 0x100 + v2 % 0x100);
    assert(v3 == v4 * 0x100 + v3 % 0x100);
    assert(v4 == v5 * 0x100 + v4 % 0x100);
    assert(v5 < 0x100);
    assert(v5 % 0x100 == v5);
}

/// Appends the big-endian bytes of `v`.
pub fn push_be16(out: &mut Vec<u8>, v: u16)
    ensures
        final(out)@ == old(out)@ + be16(v),
{
    reveal(be16);
    out.push((v / 0x100) as u8);
    out.push((v % 0x100) as u8);
    assert(out@ =~= old(out)@ + be16(v));
}

} // verus!
