use std::collections::hash_map::DefaultHasher;
use std::hash::Hasher;
use vstd::prelude::*;
use vstd::std_specs::hash::DefaultHasherAdditionalSpecFns;

use crate::nodes::Digest;

verus! {

/// The digest of a byte string: what a fresh `DefaultHasher` of std yields after the bytes
/// are written to it once.
pub open spec fn digest_of(bytes: Seq<u8>) -> Digest {
    DefaultHasher::spec_finish(seq![bytes])
}

/// The `n` low bytes of `x`, least significant first.
pub open spec fn le_bytes(x: nat, n: nat) -> Seq<u8>
    decreases n,
{
    if n == 0 {
        Seq::empty()
    } else {
        seq![(x % 256) as u8] + le_bytes(x / 256, (n - 1) as nat)
    }
}

/// Eight little-endian bytes.
pub open spec fn enc_u64(x: u64) -> Seq<u8> {
    le_bytes(x as nat, 8)
}

/// One byte, 1 for true and 0 for false.
pub open spec fn enc_bool(b: bool) -> Seq<u8> {
    if b {
        seq![1u8]
    } else {
        seq![0u8]
    }
}

/// A flag for presence, followed by the value if present.
pub open spec fn enc_opt(x: Option<u64>) -> Seq<u8> {
    match x {
        Some(v) => enc_bool(true) + enc_u64(v),
        None => enc_bool(false),
    }
}

/// The bits one byte each, without a length.
pub open spec fn enc_bits(s: Seq<bool>) -> Seq<u8>
    decreases s.len(),
{
    if s.len() == 0 {
        Seq::empty()
    } else {
        enc_bits(s.drop_last()) + enc_bool(s.last())
    }
}

/// The optional values one after another, without a length.
pub open spec fn enc_opts(s: Seq<Option<u64>>) -> Seq<u8>
    decreases s.len(),
{
    if s.len() == 0 {
        Seq::empty()
    } else {
        enc_opts(s.drop_last()) + enc_opt(s.last())
    }
}

/// Appends the little-endian bytes of `x`.
pub fn push_u64(out: &mut Vec<u8>, x: u64)
    ensures
        final(out)@ == old(out)@ + enc_u64(x),
{
    let ghost start = out@;
    let mut v: u64 = x;
    let mut i: usize = 0;
    while i < 8
        invariant
            i <= 8,
            out@ + le_bytes(v as nat, (8 - i) as nat) == start + le_bytes(x as nat, 8),
        decreases 8 - i,
    {
        let ghost before = out@;
        let b: u8 = (v % 256) as u8;
        assert(le_bytes(v as nat, (8 - i) as nat) == seq![b] + le_bytes((v / 256) as nat, (
        8 - i - 1) as nat));
        out.push(b);
        assert(out@ + le_bytes((v / 256) as nat, (8 - i - 1) as nat) =~= before + le_bytes(
            v as nat,
            (8 - i) as nat,
        ));
        v = v / 256;
        i += 1;
    }
    assert(le_bytes(v as nat, 0) =~= Seq::<u8>::empty());
    assert(out@ =~= start + enc_u64(x));
}

/// Appends one byte for `b`.
pub fn push_bool(out: &mut Vec<u8>, b: bool)
    ensures
        final(out)@ == old(out)@ + enc_bool(b),
{
    let ghost start = out@;
    if b {
        out.push(1u8);
    } else {
        out.push(0u8);
    }
    assert(out@ =~= start + enc_bool(b));
}

/// Appends the encoding of an optional value.
pub fn push_opt(out: &mut Vec<u8>, x: Option<u64>)
    ensures
        final(out)@ == old(out)@ + enc_opt(x),
{
    let ghost start = out@;
    match x {
        Some(v) => {
            push_bool(out, true);
            push_u64(out, v);
        },
        None => {
            push_bool(out, false);
        },
    }
    assert(out@ =~= start + enc_opt(x));
}

/// Appends the length of `bits` and then each bit.
pub fn push_bits(out: &mut Vec<u8>, bits: &Vec<bool>)
    ensures
        final(out)@ == old(out)@ + enc_u64(bits@.len() as u64) + enc_bits(bits@),
{
    push_u64(out, bits.len() as u64);
    let ghost start = out@;
    let mut i: usize = 0;
    while i < bits.len()
        invariant
            i <= bits.len(),
            out@ == start + enc_bits(bits@.subrange(0, i as int)),
        decreases bits.len() - i,
    {
        assert(bits@.subrange(0, i as int + 1).drop_last() =~= bits@.subrange(0, i as int));
        push_bool(out, bits[i]);
        i += 1;
        assert(out@ =~= start + enc_bits(bits@.subrange(0, i as int)));
    }
    assert(bits@.subrange(0, i as int) =~= bits@);
}

/// Appends the length of `slots` and then each optional value.
pub fn push_opts(out: &mut Vec<u8>, slots: &Vec<Option<u64>>)
    ensures
        final(out)@ == old(out)@ + enc_u64(slots@.len() as u64) + enc_opts(slots@),
{
    push_u64(out, slots.len() as u64);
    let ghost start = out@;
    let mut i: usize = 0;
    while i < slots.len()
        invariant
            i <= slots.len(),
            out@ == start + enc_opts(slots@.subrange(0, i as int)),
        decreases slots.len() - i,
    {
        assert(slots@.subrange(0, i as int + 1).drop_last() =~= slots@.subrange(0, i as int));
        push_opt(out, slots[i]);
        i += 1;
        assert(out@ =~= start + enc_opts(slots@.subrange(0, i as int)));
    }
    assert(slots@.subrange(0, i as int) =~= slots@);
}

/// The digest of `bytes`.
pub fn hash_bytes(bytes: &Vec<u8>) -> (r: Digest)
    ensures
        r == digest_of(bytes@),
{
    let mut hasher = DefaultHasher::new();
    hasher.write(bytes.as_slice());
    assert(hasher@ =~= seq![bytes@]);
    hasher.finish()
}

} // verus!

verus! {

/// Appends the length of `b` and then its bytes.
pub fn push_bytes(out: &mut Vec<u8>, b: &Vec<u8>)
    ensures
        final(out)@ == old(out)@ + enc_u64(b@.len() as u64) + b@,
{
    push_u64(out, b.len() as u64);
    let ghost start = out@;
    let mut i: usize = 0;
    while i < b.len()
        invariant
            i <= b.len(),
            out@ == start + b@.subrange(0, i as int),
        decreases b.len() - i,
    {
        out.push(b[i]);
        i += 1;
        assert(out@ =~= start + b@.subrange(0, i as int));
    }
    assert(b@.subrange(0, i as int) =~= b@);
}

} // verus!
