//! Small executable helpers for comparing and slicing byte strings.
//!
//! Identities, addresses, hashes and contract call data are all carried as
//! plain byte vectors; the verified logic compares them with the functions
//! here instead of derived trait implementations.

use vstd::prelude::*;

verus! {

/// Returns whether two byte strings hold the same bytes.
pub fn bytes_eq(a: &Vec<u8>, b: &Vec<u8>) -> (r: bool)
    ensures
        r == (a@ == b@),
{
    if a.len() != b.len() {
        assert(a@ != b@) by {
            assert(a@.len() != b@.len());
        }
        return false;
    }
    let n = a.len();
    let mut i: usize = 0;
    while i < n
        invariant
            n == a@.len() == b@.len(),
            i <= n,
            forall|j: int| 0 <= j < i ==> a@[j] == b@[j],
        decreases n - i,
    {
        if a[i] != b[i] {
            return false;
        }
        i += 1;
    }
    proof {
        assert(a@ =~= b@);
    }
    true
}

/// Returns the bytes of `a` from `from` (inclusive) to `to` (exclusive).
pub fn bytes_slice(a: &Vec<u8>, from: usize, to: usize) -> (r: Vec<u8>)
    requires
        from <= to <= a@.len(),
    ensures
        r@ == a@.subrange(from as int, to as int),
{
    let mut r: Vec<u8> = Vec::new();
    let mut i: usize = from;
    while i < to
        invariant
            from <= i <= to <= a@.len(),
            r@ == a@.subrange(from as int, i as int),
        decreases to - i,
    {
        r.push(a[i]);
        proof {
            assert(r@ =~= a@.subrange(from as int, i + 1 as int));
        }
        i += 1;
    }
    r
}

/// Returns a copy of a byte string.
pub fn bytes_clone(a: &Vec<u8>) -> (r: Vec<u8>)
    ensures
        r@ == a@,
{
    bytes_slice(a, 0, a.len())
}

/// The big-endian encoding of `n` in `count` bytes, most significant
/// first; `n` is truncated to the low `count` bytes.
pub open spec fn spec_be_bytes(n: nat, count: nat) -> Seq<u8>
    decreases count,
{
    if count == 0 {
        Seq::<u8>::empty()
    } else {
        spec_be_bytes(n / 256, (count - 1) as nat) + seq![(n % 256) as u8]
    }
}

/// Encodes `n` big-endian into `count` bytes.
pub fn u128_be_bytes(n: u128, count: usize) -> (r: Vec<u8>)
    ensures
        r@ == spec_be_bytes(n as nat, count as nat),
        r@.len() == count,
    decreases count,
{
    if count == 0 {
        let r: Vec<u8> = Vec::new();
        proof {
            assert(r@ =~= spec_be_bytes(n as nat, 0));
        }
        r
    } else {
        let mut r = u128_be_bytes(n / 256, count - 1);
        r.push((n % 256) as u8);
        proof {
            assert(r@ =~= spec_be_bytes(n as nat, count as nat));
        }
        r
    }
}

/// Appends all bytes of `src` to `dst`.
pub fn bytes_extend(dst: &mut Vec<u8>, src: &Vec<u8>)
    ensures
        final(dst)@ == old(dst)@ + src@,
{
    let n = src.len();
    let mut i: usize = 0;
    while i < n
        invariant
            n == src@.len(),
            i <= n,
            dst@ == old(dst)@ + src@.subrange(0, i as int),
        decreases n - i,
    {
        dst.push(src[i]);
        proof {
            assert(dst@ =~= old(dst)@ + src@.subrange(0, i + 1 as int));
        }
        i += 1;
    }
    proof {
        assert(dst@ =~= old(dst)@ + src@);
    }
}

} // verus!
