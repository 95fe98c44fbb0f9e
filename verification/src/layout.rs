//! Little-endian encodings and byte-buffer helpers for the fixed-size
//! record layout.

use vstd::prelude::*;

verus! {

/// `s` followed by zero bytes up to a total length of `n`.
pub open spec fn zero_pad(s: Seq<u8>, n: int) -> Seq<u8>
    recommends
        s.len() <= n,
{
    s + Seq::new((n - s.len()) as nat, |i: int| 0u8)
}

/// The unsigned 64-bit value with the same two's-complement bit pattern
/// as `x`.
pub open spec fn i64_as_u64(x: i64) -> u64 {
    if x >= 0 {
        x as u64
    } else {
        (x + 0x1_0000_0000_0000_0000) as u64
    }
}

/// Reinterprets a signed 64-bit integer as its two's-complement bit pattern.
pub fn timestamp_bits(x: i64) -> (r: u64)
    ensures
        r == i64_as_u64(x),
{
    if x >= 0 {
        x as u64
    } else {
        ((x - i64::MIN) as u64) + 0x8000_0000_0000_0000
    }
}

/// Reinterpretation keeps distinct values distinct.
pub proof fn lemma_i64_as_u64_injective(a: i64, b: i64)
    requires
        i64_as_u64(a) == i64_as_u64(b),
    ensures
        a == b,
{
}

/// Appends every byte of `src` to `dst`, in order.
pub fn append_bytes(dst: &mut Vec<u8>, src: &Vec<u8>)
    ensures
        final(dst)@ == old(dst)@ + src@,
{
    proof {
        assert(dst@ =~= dst@ + src@.subrange(0, 0));
    }
    let mut j: usize = 0;
    while j < src.len()
        invariant
            j <= src@.len(),
            dst@ == old(dst)@ + src@.subrange(0, j as int),
        decreases src@.len() - j,
    {
        proof {
            assert(old(dst)@ + src@.subrange(0, j + 1) =~= (old(dst)@ + src@.subrange(
                0,
                j as int,
            )).push(src@[j as int]));
        }
        dst.push(src[j]);
        j = j + 1;
    }
    proof {
        assert(src@.subrange(0, src@.len() as int) =~= src@);
    }
}

/// Appends `n` zero bytes to `dst`.
pub fn append_zeros(dst: &mut Vec<u8>, n: usize)
    ensures
        final(dst)@ == old(dst)@ + Seq::new(n as nat, |i: int| 0u8),
{
    let mut j: usize = 0;
    proof {
        assert(dst@ =~= dst@ + Seq::new(0, |i: int| 0u8));
    }
    while j < n
        invariant
            j <= n,
            dst@ == old(dst)@ + Seq::new(j as nat, |i: int| 0u8),
        decreases n - j,
    {
        proof {
            assert(old(dst)@ + Seq::new((j + 1) as nat, |i: int| 0u8) =~= (old(dst)@ + Seq::new(
                j as nat,
                |i: int| 0u8,
            )).push(0u8));
        }
        dst.push(0u8);
        j = j + 1;
    }
}

/// Splitting equal concatenations at the same point yields equal parts.
pub proof fn lemma_concat_eq(a1: Seq<u8>, b1: Seq<u8>, a2: Seq<u8>, b2: Seq<u8>)
    requires
        a1 + b1 == a2 + b2,
        a1.len() == a2.len(),
    ensures
        a1 == a2,
        b1 == b2,
{
    assert(a1 =~= (a1 + b1).subrange(0, a1.len() as int));
    assert(a2 =~= (a2 + b2).subrange(0, a2.len() as int));
    assert(b1 =~= (a1 + b1).subrange(a1.len() as int, (a1 + b1).len() as int));
    assert(b2 =~= (a2 + b2).subrange(a2.len() as int, (a2 + b2).len() as int));
}

} // verus!
