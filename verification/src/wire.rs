use vstd::prelude::*;

verus! {

/// `256^n`.
pub open spec fn pow256(n: nat) -> nat
    decreases n,
{
    if n == 0 {
        1
    } else {
        256 * pow256((n - 1) as nat)
    }
}

/// The unsigned number whose little-endian bytes are `b`.
pub open spec fn le_value(b: Seq<u8>) -> nat
    decreases b.len(),
{
    if b.len() == 0 {
        0
    } else {
        b[0] as nat + 256 * le_value(b.drop_first())
    }
}

/// The signed number whose little-endian two's-complement bytes are `b`.
pub open spec fn le_signed(b: Seq<u8>) -> int {
    if le_value(b) * 2 < pow256(b.len()) {
        le_value(b) as int
    } else {
        le_value(b) - pow256(b.len())
    }
}

/// The `n` little-endian bytes of `v` (taken modulo `256^n`).
pub open spec fn le_bytes(v: nat, n: nat) -> Seq<u8>
    decreases n,
{
    if n == 0 {
        Seq::empty()
    } else {
        seq![(v % 256) as u8] + le_bytes(v / 256, (n - 1) as nat)
    }
}

pub proof fn lemma_pow256_positive(n: nat)
    ensures
        pow256(n) >= 1,
    decreases n,
{
    if n > 0 {
        lemma_pow256_positive((n - 1) as nat);
    }
}

pub proof fn lemma_pow256_values()
    ensures
        pow256(1) == 0x100,
        pow256(2) == 0x1_0000,
        pow256(8) == 0x1_0000_0000_0000_0000,
{
    reveal_with_fuel(pow256, 9);
}

pub proof fn lemma_pow256_monotonic(m: nat, n: nat)
    requires
        m <= n,
    ensures
        pow256(m) <= pow256(n),
    decreases n - m,
{
    if m < n {
        lemma_pow256_monotonic(m, (n - 1) as nat);
        lemma_pow256_positive((n - 1) as nat);
    }
}

/// A little-endian number of `b.len()` bytes is below `256^b.len()`.
pub proof fn lemma_le_value_bound(b: Seq<u8>)
    ensures
        le_value(b) < pow256(b.len()),
    decreases b.len(),
{
    if b.len() > 0 {
        lemma_le_value_bound(b.drop_first());
        assert(le_value(b.drop_first()) + 1 <= pow256((b.len() - 1) as nat));
        assert(le_value(b) == b[0] as nat + 256 * le_value(b.drop_first()));
        assert(256 * (le_value(b.drop_first()) + 1) <= 256 * pow256((b.len() - 1) as nat));
    }
}

pub proof fn lemma_le_bytes_len(v: nat, n: nat)
    ensures
        le_bytes(v, n).len() == n,
    decreases n,
{
    if n > 0 {
        lemma_le_bytes_len(v / 256, (n - 1) as nat);
    }
}

/// Writing a number in `n` bytes and reading them back gives the number,
/// when it is below `256^n`.
pub proof fn lemma_le_value_of_bytes(v: nat, n: nat)
    requires
        v < pow256(n),
    ensures
        le_bytes(v, n).len() == n,
        le_value(le_bytes(v, n)) == v,
    decreases n,
{
    lemma_le_bytes_len(v, n);
    if n > 0 {
        let rest = le_bytes(v / 256, (n - 1) as nat);
        assert(v / 256 < pow256((n - 1) as nat));
        lemma_le_value_of_bytes(v / 256, (n - 1) as nat);
        let b = le_bytes(v, n);
        assert(b.drop_first() =~= rest);
        assert(b[0] as nat == v % 256);
    }
}

/// Reading bytes as a number and writing it back in as many bytes gives the
/// bytes.
pub proof fn lemma_le_bytes_of_value(b: Seq<u8>)
    ensures
        le_bytes(le_value(b), b.len()) == b,
    decreases b.len(),
{
    if b.len() > 0 {
        let v = le_value(b);
        let tail = b.drop_first();
        lemma_le_bytes_of_value(tail);
        assert(v == b[0] as nat + 256 * le_value(tail));
        assert(v % 256 == b[0] as nat);
        assert(v / 256 == le_value(tail));
        lemma_le_bytes_len(v / 256, (b.len() - 1) as nat);
        assert(le_bytes(v, b.len()) =~= b);
    }
}

/// The number held in the `n` bytes of `data` from `pos` on, read little-endian.
pub fn read_le(data: &[u8], pos: usize, n: usize) -> (r: u64)
    requires
        n <= 8,
        pos + n <= data@.len(),
    ensures
        r as nat == le_value(data@.subrange(pos as int, pos + n)),
{
    let len = data.len();
    let mut acc: u64 = 0;
    let mut i: usize = n;
    proof {
        assert(data@.subrange((pos + n) as int, (pos + n) as int) =~= Seq::<u8>::empty());
    }
    while i > 0
        invariant
            0 <= i <= n <= 8,
            pos + n <= data@.len(),
            len == data@.len(),
            acc as nat == le_value(data@.subrange(pos + i, pos + n)),
        decreases i,
    {
        let ghost tail = data@.subrange(pos + i, pos + n);
        let ghost whole = data@.subrange(pos + i - 1, pos + n);
        proof {
            assert(whole.drop_first() =~= tail);
            lemma_le_value_bound(tail);
            lemma_pow256_monotonic((n - i) as nat, 7);
            reveal_with_fuel(pow256, 8);
            assert(pow256(7) == 0x100_0000_0000_0000);
        }
        let b = data[pos + (i - 1)];
        acc = acc * 256 + (b as u64);
        i = i - 1;
    }
    acc
}

} // verus!
