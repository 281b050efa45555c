//! Little-endian byte strings and the numbers they stand for.

use vstd::prelude::*;

verus! {

/// 256 to the power `n`.
pub open spec fn radix_pow(n: nat) -> nat
    decreases n,
{
    if n == 0 {
        1
    } else {
        256 * radix_pow((n - 1) as nat)
    }
}

/// The number that `bytes` stands for, least significant byte first.
pub open spec fn le_value(bytes: Seq<u8>) -> nat
    decreases bytes.len(),
{
    if bytes.len() == 0 {
        0
    } else {
        bytes[0] as nat + 256 * le_value(bytes.drop_first())
    }
}

/// The `n` lowest base-256 digits of `x`, least significant first.
pub open spec fn le_bytes(x: nat, n: nat) -> Seq<u8>
    decreases n,
{
    if n == 0 {
        Seq::<u8>::empty()
    } else {
        seq![(x % 256) as u8] + le_bytes(x / 256, (n - 1) as nat)
    }
}

pub proof fn lemma_le_bytes_len(x: nat, n: nat)
    ensures
        le_bytes(x, n).len() == n,
    decreases n,
{
    if n > 0 {
        lemma_le_bytes_len(x / 256, (n - 1) as nat);
    }
}

/// A byte string of length `n` stands for a number below `256^n`.
pub proof fn lemma_le_value_bound(bytes: Seq<u8>)
    ensures
        le_value(bytes) < radix_pow(bytes.len()),
    decreases bytes.len(),
{
    if bytes.len() > 0 {
        lemma_le_value_bound(bytes.drop_first());
        let rest = le_value(bytes.drop_first());
        let p = radix_pow((bytes.len() - 1) as nat);
        assert(bytes[0] as nat + 256 * rest < 256 * p) by (nonlinear_arith)
            requires
                rest < p,
                (bytes[0] as nat) < 256,
        ;
    }
}

/// Writing a number below `256^n` on `n` bytes and reading it back gives the number.
pub proof fn lemma_value_of_bytes(x: nat, n: nat)
    requires
        x < radix_pow(n),
    ensures
        le_value(le_bytes(x, n)) == x,
    decreases n,
{
    if n > 0 {
        let m = (n - 1) as nat;
        assert(x / 256 < radix_pow(m)) by (nonlinear_arith)
            requires
                x < 256 * radix_pow(m),
        ;
        lemma_value_of_bytes(x / 256, m);
        lemma_le_bytes_len(x / 256, m);
        let s = le_bytes(x, n);
        assert(s.drop_first() =~= le_bytes(x / 256, m));
    }
}

/// Reading a byte string and writing the number on as many bytes gives the string.
pub proof fn lemma_bytes_of_value(bytes: Seq<u8>)
    ensures
        le_bytes(le_value(bytes), bytes.len()) == bytes,
    decreases bytes.len(),
{
    if bytes.len() > 0 {
        let rest = bytes.drop_first();
        lemma_bytes_of_value(rest);
        let x = le_value(bytes);
        let b = bytes[0] as nat;
        let r = le_value(rest);
        assert((b + 256 * r) % 256 == b && (b + 256 * r) / 256 == r) by (nonlinear_arith)
            requires
                b < 256,
        ;
    }
}

/// One more digit is one more byte at the end.
pub proof fn lemma_le_bytes_push(x: nat, n: nat)
    ensures
        le_bytes(x, n + 1) == le_bytes(x, n).push(((x / radix_pow(n)) % 256) as u8),
    decreases n,
{
    if n == 0 {
        assert(le_bytes(x / 256, 0) =~= Seq::<u8>::empty());
        assert(le_bytes(x, 1) =~= le_bytes(x, 0).push(((x / 1) % 256) as u8));
    } else {
        let m = (n - 1) as nat;
        lemma_le_bytes_push(x / 256, m);
        lemma_radix_pow_positive(m);
        assert((x / 256) / radix_pow(m) == x / (256 * radix_pow(m))) by (nonlinear_arith)
            requires
                radix_pow(m) > 0,
        ;
    }
}

pub proof fn lemma_radix_pow_positive(n: nat)
    ensures
        radix_pow(n) > 0,
    decreases n,
{
    if n > 0 {
        lemma_radix_pow_positive((n - 1) as nat);
    }
}

pub proof fn lemma_radix_pow_monotonic(a: nat, b: nat)
    requires
        a <= b,
    ensures
        radix_pow(a) <= radix_pow(b),
    decreases b,
{
    if a < b {
        lemma_radix_pow_monotonic(a, (b - 1) as nat);
        lemma_radix_pow_positive((b - 1) as nat);
    }
}

/// `256^4` and `256^16` are the sizes of `u32` and `u128`.
pub proof fn lemma_radix_pow_words()
    ensures
        radix_pow(4) == 0x1_0000_0000,
        radix_pow(16) == 0x1_0000_0000_0000_0000_0000_0000_0000_0000,
{
    reveal_with_fuel(radix_pow, 17);
}

/// Reads at most sixteen bytes as one number, least significant byte first.
pub fn read_le(bytes: &[u8]) -> (value: u128)
    requires
        bytes@.len() <= 16,
    ensures
        value as nat == le_value(bytes@),
{
    let n: usize = bytes.len();
    let mut acc: u128 = 0;
    let mut i: usize = n;
    while i > 0
        invariant
            n == bytes@.len(),
            n <= 16,
            i <= n,
            acc as nat == le_value(bytes@.subrange(i as int, n as int)),
        decreases i,
    {
        i -= 1;
        proof {
            let tail = bytes@.subrange(i as int, n as int);
            let rest = bytes@.subrange(i as int + 1, n as int);
            assert(tail.drop_first() =~= rest);
            lemma_le_value_bound(rest);
            lemma_le_value_bound(tail);
            lemma_radix_pow_monotonic(tail.len(), 16);
            lemma_radix_pow_words();
        }
        acc = acc * 256 + bytes[i] as u128;
    }
    proof {
        assert(bytes@.subrange(0, n as int) =~= bytes@);
    }
    acc
}

/// Writes the `n` lowest bytes of `x`, least significant byte first.
pub fn write_le(x: u128, n: usize) -> (bytes: Vec<u8>)
    ensures
        bytes@ == le_bytes(x as nat, n as nat),
{
    let mut out: Vec<u8> = Vec::new();
    let mut rest: u128 = x;
    let mut i: usize = 0;
    proof {
        assert(x as nat / 1 == x as nat);
    }
    while i < n
        invariant
            i <= n,
            out@ == le_bytes(x as nat, i as nat),
            rest as nat == x as nat / radix_pow(i as nat),
        decreases n - i,
    {
        proof {
            lemma_le_bytes_push(x as nat, i as nat);
            lemma_radix_pow_positive(i as nat);
            let p = radix_pow(i as nat);
            assert((x as nat / p) / 256 == x as nat / (256 * p)) by (nonlinear_arith)
                requires
                    p > 0,
            ;
        }
        out.push((rest % 256) as u8);
        rest = rest / 256;
        i += 1;
    }
    out
}

} // verus!
