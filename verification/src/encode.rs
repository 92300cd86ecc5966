//! Byte-level encoders for the instruction arguments this library submits.
//!
//! Every argument layout is little-endian and length-prefixed exactly as the
//! target program deserializes it. The spec functions state each layout as a
//! sequence concatenation; the executable writers are proved to append
//! exactly those bytes.

use vstd::prelude::*;

use crate::types::Addr;

verus! {

/// The `n` little-endian bytes of `v`.
pub open spec fn le_bytes(v: int, n: nat) -> Seq<u8>
    decreases n,
{
    if n == 0 {
        Seq::empty()
    } else {
        seq![(v % 256) as u8] + le_bytes(v / 256, (n - 1) as nat)
    }
}

pub proof fn lemma_le_bytes_len(v: int, n: nat)
    ensures
        le_bytes(v, n).len() == n,
    decreases n,
{
    if n > 0 {
        lemma_le_bytes_len(v / 256, (n - 1) as nat);
    }
}

/// The first `i` bytes of an `n`-byte little-endian encoding are the
/// `i`-byte encoding.
pub proof fn lemma_le_bytes_take(v: int, n: nat, i: nat)
    requires
        i <= n,
    ensures
        le_bytes(v, n).take(i as int) =~= le_bytes(v, i),
    decreases i,
{
    lemma_le_bytes_len(v, n);
    lemma_le_bytes_len(v, i);
    if i > 0 {
        lemma_le_bytes_take(v / 256, (n - 1) as nat, (i - 1) as nat);
        lemma_le_bytes_len(v / 256, (n - 1) as nat);
        lemma_le_bytes_len(v / 256, (i - 1) as nat);
        assert(le_bytes(v, n).take(i as int)
            =~= seq![(v % 256) as u8] + le_bytes(v / 256, (n - 1) as nat).take(i - 1));
    }
}

/// Appends the `n <= 8` little-endian bytes of `v`.
pub fn push_le(buf: &mut Vec<u8>, v: u64, n: usize)
    requires
        n <= 8,
    ensures
        final(buf)@ == old(buf)@ + le_bytes(v as int, n as nat),
{
    proof {
        lemma_le_bytes_len(v as int, n as nat);
    }
    let mut cur: u64 = v;
    let mut i: usize = 0;
    while i < n
        invariant
            i <= n <= 8,
            buf@ == old(buf)@ + le_bytes(v as int, i as nat),
            le_bytes(v as int, i as nat) + le_bytes(cur as int, (n - i) as nat)
                == le_bytes(v as int, n as nat),
        decreases n - i,
    {
        proof {
            lemma_le_bytes_len(v as int, i as nat);
            lemma_le_bytes_len(v as int, n as nat);
            lemma_le_bytes_len(cur as int, (n - i) as nat);
            lemma_le_bytes_take(v as int, n as nat, i as nat);
            lemma_le_bytes_take(v as int, n as nat, (i + 1) as nat);
            assert(le_bytes(cur as int, (n - i) as nat)
                == seq![(cur % 256) as u8] + le_bytes(cur as int / 256, (n - i - 1) as nat));
            assert(le_bytes(v as int, n as nat)[i as int] == (cur % 256) as u8);
            assert(le_bytes(v as int, (i + 1) as nat)
                =~= le_bytes(v as int, i as nat) + seq![(cur % 256) as u8]) by {
                assert(le_bytes(v as int, n as nat).take(i + 1)
                    =~= le_bytes(v as int, n as nat).take(i as int)
                    + seq![le_bytes(v as int, n as nat)[i as int]]);
            }
            assert(le_bytes(v as int, (i + 1) as nat)
                + le_bytes(cur as int / 256, (n - i - 1) as nat)
                =~= le_bytes(v as int, n as nat));
        }
        buf.push((cur % 256) as u8);
        proof {
            assert(buf@ =~= old(buf)@ + le_bytes(v as int, (i + 1) as nat));
        }
        cur = cur / 256;
        i = i + 1;
    }
    proof {
        assert(buf@ =~= old(buf)@ + le_bytes(v as int, n as nat));
    }
}

/// Appends one byte.
pub fn push_byte(buf: &mut Vec<u8>, b: u8)
    ensures
        final(buf)@ == old(buf)@ + seq![b],
{
    buf.push(b);
    proof {
        assert(buf@ =~= old(buf)@ + seq![b]);
    }
}

/// Appends the 32 bytes of an address.
pub fn push_addr(buf: &mut Vec<u8>, a: &Addr)
    ensures
        final(buf)@ == old(buf)@ + a@,
{
    let mut i: usize = 0;
    while i < 32
        invariant
            i <= 32,
            buf@ == old(buf)@ + a@.take(i as int),
        decreases 32 - i,
    {
        buf.push(a.bytes[i]);
        proof {
            assert(buf@ =~= old(buf)@ + a@.take(i + 1));
        }
        i = i + 1;
    }
    proof {
        assert(a@.take(32) =~= a@);
    }
}

/// Appends the bytes of `s`.
pub fn push_bytes(buf: &mut Vec<u8>, s: &Vec<u8>)
    ensures
        final(buf)@ == old(buf)@ + s@,
{
    let mut i: usize = 0;
    while i < s.len()
        invariant
            i <= s@.len(),
            buf@ == old(buf)@ + s@.take(i as int),
        decreases s@.len() - i,
    {
        buf.push(s[i]);
        proof {
            assert(buf@ =~= old(buf)@ + s@.take(i + 1));
        }
        i = i + 1;
    }
    proof {
        assert(s@.take(s@.len() as int) =~= s@);
    }
}

} // verus!
