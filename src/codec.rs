//! Little-endian layout of unsigned integers, the byte order of the guest's memory.
use vstd::prelude::*;

verus! {

/// `256` to the power `n`.
pub open spec fn pow256(n: nat) -> nat
    decreases n,
{
    if n == 0 {
        1
    } else {
        256 * pow256((n - 1) as nat)
    }
}

/// The `n` lowest bytes of `x`, least significant first.
pub open spec fn le_bytes(x: nat, n: nat) -> Seq<u8>
    decreases n,
{
    if n == 0 {
        Seq::empty()
    } else {
        seq![(x % 256) as u8] + le_bytes(x / 256, (n - 1) as nat)
    }
}

/// The number whose bytes, least significant first, are `s`.
pub open spec fn le_value(s: Seq<u8>) -> nat
    decreases s.len(),
{
    if s.len() == 0 {
        0
    } else {
        s[0] as nat + 256 * le_value(s.drop_first())
    }
}

pub proof fn lemma_le_bytes_len(x: nat, n: nat)
    ensures
        le_bytes(x, n).len() == n,
    decreases n,
{
    if n > 0 {
        lemma_le_bytes_len(x / 256, (n - 1) as nat);
    }
}

pub proof fn lemma_pow256_positive(n: nat)
    ensures
        pow256(n) >= 1,
    decreases n,
{
    if n > 0 {
        lemma_pow256_positive((n - 1) as nat);
    }
}

pub proof fn lemma_pow256_monotonic(m: nat, n: nat)
    requires
        m <= n,
    ensures
        pow256(m) <= pow256(n),
    decreases n,
{
    if m < n {
        lemma_pow256_monotonic(m, (n - 1) as nat);
        lemma_pow256_positive((n - 1) as nat);
    }
}

/// The powers that the element widths and the `u64` bound need.
pub proof fn lemma_pow256_widths()
    ensures
        pow256(1) == 0x100,
        pow256(2) == 0x1_0000,
        pow256(4) == 0x1_0000_0000,
        pow256(7) == 0x100_0000_0000_0000,
        pow256(8) == 0x1_0000_0000_0000_0000,
{
    assert(pow256(0) == 1);
    assert(pow256(1) == 0x100);
    assert(pow256(2) == 0x1_0000);
    assert(pow256(3) == 0x100_0000);
    assert(pow256(4) == 0x1_0000_0000);
    assert(pow256(5) == 0x100_0000_0000);
    assert(pow256(6) == 0x1_0000_0000_0000);
    assert(pow256(7) == 0x100_0000_0000_0000);
}

/// Reading back the bytes of a number that fits in them gives the number.
pub proof fn lemma_le_round_trip(x: nat, n: nat)
    requires
        x < pow256(n),
    ensures
        le_value(le_bytes(x, n)) == x,
    decreases n,
{
    if n > 0 {
        let rest = le_bytes(x / 256, (n - 1) as nat);
        assert(le_bytes(x, n).drop_first() =~= rest);
        lemma_le_round_trip(x / 256, (n - 1) as nat);
    }
}

/// A number read from `k` bytes is below `256^k`.
pub proof fn lemma_le_value_bound(s: Seq<u8>)
    ensures
        le_value(s) < pow256(s.len()),
    decreases s.len(),
{
    if s.len() > 0 {
        lemma_le_value_bound(s.drop_first());
    }
}

/// Appends the `n` lowest bytes of `x` to `out`, least significant first.
pub fn push_le(out: &mut Vec<u8>, x: u64, n: usize)
    ensures
        final(out)@ == old(out)@ + le_bytes(x as nat, n as nat),
{
    let mut rest: u64 = x;
    let mut i: usize = 0;
    while i < n
        invariant
            i <= n,
            out@ + le_bytes(rest as nat, (n - i) as nat) == old(out)@ + le_bytes(x as nat, n as nat),
        decreases n - i,
    {
        let ghost before = out@;
        out.push((rest % 256) as u8);
        assert(before + le_bytes(rest as nat, (n - i) as nat) =~= out@ + le_bytes(
            (rest / 256) as nat,
            (n - i - 1) as nat,
        ));
        rest = rest / 256;
        i = i + 1;
    }
    assert(le_bytes(rest as nat, 0) =~= Seq::empty());
    assert(out@ + le_bytes(rest as nat, 0) =~= out@);
}

/// Reads the number stored least significant first in `b[start..start + n]`.
pub fn read_le(b: &[u8], start: usize, n: usize) -> (r: u64)
    requires
        start + n <= b@.len(),
        n <= 8,
    ensures
        r == le_value(b@.subrange(start as int, start + n)),
{
    let mut acc: u64 = 0;
    let mut k: usize = n;
    proof {
        lemma_pow256_positive(0);
    }
    while k > 0
        invariant
            k <= n <= 8,
            start + n <= b.len(),
            acc == le_value(b@.subrange(start + k, start + n)),
        decreases k,
    {
        let ghost tail = b@.subrange(start + k, start + n);
        let ghost longer = b@.subrange(start + k - 1, start + n);
        proof {
            assert(longer.drop_first() =~= tail);
            lemma_le_value_bound(tail);
            lemma_pow256_monotonic(tail.len(), 7);
            lemma_pow256_widths();
        }
        let byte = b[start + (k - 1)];
        acc = byte as u64 + 256 * acc;
        k = k - 1;
    }
    acc
}

} // verus!
