use vstd::prelude::*;

use vstd::arithmetic::div_mod::lemma_div_denominator;

verus! {

/// 256 to the power `n`.
pub open spec fn pow256(n: nat) -> nat
    decreases n,
{
    if n == 0 {
        1
    } else {
        256 * pow256((n - 1) as nat)
    }
}

/// The number that little-endian bytes `s` stand for.
pub open spec fn le_value(s: Seq<u8>) -> nat
    decreases s.len(),
{
    if s.len() == 0 {
        0
    } else {
        (s[0] + 256 * le_value(s.drop_first())) as nat
    }
}

/// The `n` little-endian bytes of `x` (of `x` modulo `256^n`).
pub open spec fn le_bytes(x: nat, n: nat) -> Seq<u8> {
    Seq::new(n, |k: int| ((x / pow256(k as nat)) % 256) as u8)
}

pub proof fn lemma_pow256_positive(n: nat)
    ensures
        pow256(n) > 0,
    decreases n,
{
    if n > 0 {
        lemma_pow256_positive((n - 1) as nat);
    }
}

pub proof fn lemma_pow256_monotonic(a: nat, b: nat)
    requires
        a <= b,
    ensures
        pow256(a) <= pow256(b),
    decreases b,
{
    if a < b {
        lemma_pow256_monotonic(a, (b - 1) as nat);
        lemma_pow256_positive((b - 1) as nat);
    }
}

pub proof fn lemma_pow256_values()
    ensures
        pow256(8) == 0x1_0000_0000_0000_0000nat,
        pow256(16) == 0x1_0000_0000_0000_0000_0000_0000_0000_0000nat,
{
    reveal_with_fuel(pow256, 17);
}

/// Bytes stand for a number below `256^len`.
pub proof fn lemma_le_value_bound(s: Seq<u8>)
    ensures
        le_value(s) < pow256(s.len()),
    decreases s.len(),
{
    if s.len() > 0 {
        lemma_le_value_bound(s.drop_first());
    }
}

/// Reading back the bytes of `x` gives `x`, when `x` fits in them.
pub proof fn lemma_le_round_trip(x: nat, n: nat)
    requires
        x < pow256(n),
    ensures
        le_value(le_bytes(x, n)) == x,
    decreases n,
{
    let s = le_bytes(x, n);
    if n == 0 {
        assert(x == 0);
    } else {
        let q = x / 256;
        assert(q < pow256((n - 1) as nat)) by (nonlinear_arith)
            requires
                x < 256 * pow256((n - 1) as nat),
                q == x / 256,
        ;
        lemma_le_round_trip(q, (n - 1) as nat);
        assert forall|k: int| 0 <= k < n - 1 implies #[trigger] s.drop_first()[k] == le_bytes(q, (n - 1) as nat)[k] by {
            lemma_pow256_positive(k as nat);
            lemma_div_denominator(x as int, 256, pow256(k as nat) as int);
        }
        assert(s.drop_first() =~= le_bytes(q, (n - 1) as nat));
        assert(pow256(0) == 1);
        assert(x / 1 == x);
        assert(s[0] == x % 256);
        assert(x == x % 256 + 256 * q);
    }
}

/// The 16 little-endian bytes of a `u128`.
pub fn u128_to_le_bytes(x: u128) -> (b: [u8; 16])
    ensures
        b@ == le_bytes(x as nat, 16),
{
    let mut b = [0u8; 16];
    let mut rest: u128 = x;
    let mut i: usize = 0;
    assert(pow256(0) == 1);
    assert((x as nat) / 1 == x as nat);
    while i < 16
        invariant
            i <= 16,
            b@.len() == 16,
            rest == (x as nat) / pow256(i as nat),
            forall|k: int| 0 <= k < i ==> #[trigger] b@[k] == le_bytes(x as nat, 16)[k],
        decreases 16 - i,
    {
        proof {
            lemma_pow256_positive(i as nat);
            lemma_div_denominator(x as int, pow256(i as nat) as int, 256);
            assert(pow256(i as nat) * 256 == pow256((i + 1) as nat));
        }
        b[i] = (rest % 256) as u8;
        rest = rest / 256;
        i = i + 1;
    }
    assert(b@ =~= le_bytes(x as nat, 16));
    b
}

/// The `u128` that 16 little-endian bytes stand for.
pub fn u128_from_le_bytes(b: &[u8; 16]) -> (x: u128)
    ensures
        x == le_value(b@),
{
    let mut v: u128 = 0;
    let mut i: usize = 16;
    proof {
        assert(b@.subrange(16, 16) =~= Seq::<u8>::empty());
    }
    while i > 0
        invariant
            i <= 16,
            b@.len() == 16,
            v == le_value(b@.subrange(i as int, 16)),
        decreases i,
    {
        let ghost next = b@.subrange(i - 1, 16);
        proof {
            assert(next.drop_first() =~= b@.subrange(i as int, 16));
            lemma_le_value_bound(next);
            lemma_pow256_monotonic((17 - i) as nat, 16);
            lemma_pow256_values();
        }
        v = v * 256 + b[i - 1] as u128;
        i = i - 1;
    }
    assert(b@.subrange(0, 16) =~= b@);
    v
}

/// The 8 little-endian bytes of a `u64`.
pub fn u64_to_le_bytes(x: u64) -> (b: Vec<u8>)
    ensures
        b@ == le_bytes(x as nat, 8),
{
    let mut b: Vec<u8> = Vec::new();
    let mut rest: u64 = x;
    let mut i: usize = 0;
    assert(pow256(0) == 1);
    assert((x as nat) / 1 == x as nat);
    while i < 8
        invariant
            i <= 8,
            b@.len() == i,
            rest == (x as nat) / pow256(i as nat),
            forall|k: int| 0 <= k < i ==> #[trigger] b@[k] == le_bytes(x as nat, 8)[k],
        decreases 8 - i,
    {
        proof {
            lemma_pow256_positive(i as nat);
            lemma_div_denominator(x as int, pow256(i as nat) as int, 256);
            assert(pow256(i as nat) * 256 == pow256((i + 1) as nat));
        }
        b.push((rest % 256) as u8);
        rest = rest / 256;
        i = i + 1;
    }
    assert(b@ =~= le_bytes(x as nat, 8));
    b
}

} // verus!
