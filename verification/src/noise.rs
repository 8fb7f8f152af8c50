//! Deterministic integer hashing behind the screen-shake noise.
use vstd::prelude::*;
use vstd::arithmetic::div_mod::{lemma_add_mod_noop, lemma_mod_multiples_vanish, lemma_mul_mod_noop_left, lemma_small_mod};

verus! {

/// The modulus of 64-bit wrapping arithmetic.
pub open spec fn two_pow_64() -> nat {
    0x1_0000_0000_0000_0000
}

/// The number of distinct noise values: the noise is `bits / 2^53`, in [0, 1).
pub open spec fn two_pow_53() -> nat {
    0x20_0000_0000_0000
}

/// `a * b` taken modulo 2^64.
pub open spec fn mul_mod64(a: u64, b: u64) -> u64 {
    ((a as nat * b as nat) % two_pow_64()) as u64
}

/// `a + b` taken modulo 2^64.
pub open spec fn add_mod64(a: u64, b: u64) -> u64 {
    ((a as nat + b as nat) % two_pow_64()) as u64
}

/// Folds the high bits of `h` into its low bits.
pub open spec fn fold_high(h: u64, shift: u64) -> u64 {
    h ^ (h >> shift)
}

/// Multiplier applied to the seed: the 64-bit golden ratio.
pub const GOLDEN_GAMMA: u64 = 0x9e3779b97f4a7c15;

/// First mixing multiplier.
pub const MIX_A: u64 = 0xbf58476d1ce4e5b9;

/// Second mixing multiplier.
pub const MIX_B: u64 = 0x94d049bb133111eb;

/// The 64-bit hash of `(seed, channel)`: the seed is scaled by the golden
/// ratio, offset by the channel, then passed through the splitmix64 finalizer.
pub open spec fn noise_hash(seed: u64, channel: u64) -> u64 {
    let h0 = add_mod64(mul_mod64(seed, GOLDEN_GAMMA), channel);
    let h1 = mul_mod64(fold_high(h0, 30), MIX_A);
    let h2 = mul_mod64(fold_high(h1, 27), MIX_B);
    fold_high(h2, 31)
}

/// The top 53 bits of the hash: the numerator of the noise value.
pub open spec fn noise_bits(seed: u64, channel: u64) -> u64 {
    noise_hash(seed, channel) >> 11
}

/// The splitmix64 finalizer, written out on integers: three xor-shift folds
/// with two multiplications modulo 2^64 between them.
pub open spec fn splitmix64_finalize(z: u64) -> u64 {
    let a = z ^ (z >> 30);
    let b = ((a as int * 0xbf58476d1ce4e5b9int) % 0x1_0000_0000_0000_0000int) as u64;
    let c = b ^ (b >> 27);
    let d = ((c as int * 0x94d049bb133111ebint) % 0x1_0000_0000_0000_0000int) as u64;
    d ^ (d >> 31)
}

/// The 64-bit state that `(seed, channel)` feeds to the finalizer:
/// `seed * 0x9e3779b97f4a7c15 + channel`, modulo 2^64.
pub open spec fn finalizer_input(seed: u64, channel: u64) -> u64 {
    ((seed as int * 0x9e3779b97f4a7c15int + channel as int) % 0x1_0000_0000_0000_0000int) as u64
}

/// Hashes `(seed, channel)` to an integer in `[0, 2^53)`; divided by `2^53`
/// it is the camera shake's pseudo-random value in `[0, 1)`.
pub fn pseudo_noise_bits(seed: u64, channel: u64) -> (r: u64)
    ensures
        r == noise_bits(seed, channel),
        r == splitmix64_finalize(finalizer_input(seed, channel)) >> 11,
        r < two_pow_53(),
{
    proof {
        lemma_noise_hash_formula(seed, channel);
    }
    let mut h = seed.wrapping_mul(GOLDEN_GAMMA);
    h = h.wrapping_add(channel);
    h ^= h >> 30;
    h = h.wrapping_mul(MIX_A);
    h ^= h >> 27;
    h = h.wrapping_mul(MIX_B);
    h ^= h >> 31;
    let r = h >> 11;
    assert(r < 0x20_0000_0000_0000u64) by (bit_vector)
        requires
            r == h >> 11,
    ;
    r
}

/// The noise hash is the splitmix64 finalizer applied to
/// `seed * 0x9e3779b97f4a7c15 + channel` modulo 2^64.
pub proof fn lemma_noise_hash_formula(seed: u64, channel: u64)
    ensures
        noise_hash(seed, channel) == splitmix64_finalize(finalizer_input(seed, channel)),
{
    let m: int = 0x1_0000_0000_0000_0000;
    let p: int = seed as int * 0x9e3779b97f4a7c15int;
    lemma_add_mod_noop(p, channel as int, m);
    lemma_small_mod(channel as nat, m as nat);
    assert(mul_mod64(seed, GOLDEN_GAMMA) as int == p % m);
    assert(add_mod64(mul_mod64(seed, GOLDEN_GAMMA), channel) == finalizer_input(seed, channel));
}

/// Multiplying by `c` modulo 2^64 is undone by multiplying by `c_inv`
/// when `c * c_inv` is 1 modulo 2^64.
proof fn lemma_mul_mod64_cancel(x: u64, c: int, c_inv: int, k: int)
    requires
        c >= 0,
        c_inv >= 0,
        k >= 0,
        c * c_inv == k * 0x1_0000_0000_0000_0000int + 1,
    ensures
        (((x as int * c) % 0x1_0000_0000_0000_0000int) * c_inv) % 0x1_0000_0000_0000_0000int == x,
{
    let m: int = 0x1_0000_0000_0000_0000;
    lemma_mul_mod_noop_left(x as int * c, c_inv, m);
    assert((x as int * c) * c_inv == (x as int * k) * m + x as int) by (nonlinear_arith)
        requires
            c * c_inv == k * m + 1,
    ;
    lemma_mod_multiples_vanish(x as int * k, x as int, m);
    lemma_small_mod(x as nat, m as nat);
}

/// Multiplication by `c` modulo 2^64 is one-to-one when `c` has an inverse.
proof fn lemma_mul_mod64_injective(x: u64, y: u64, c: int, c_inv: int, k: int)
    requires
        c >= 0,
        c_inv >= 0,
        k >= 0,
        c * c_inv == k * 0x1_0000_0000_0000_0000int + 1,
        (x as int * c) % 0x1_0000_0000_0000_0000int == (y as int * c) % 0x1_0000_0000_0000_0000int,
    ensures
        x == y,
{
    lemma_mul_mod64_cancel(x, c, c_inv, k);
    lemma_mul_mod64_cancel(y, c, c_inv, k);
}

/// The splitmix64 finalizer is one-to-one: distinct states give distinct hashes.
pub proof fn lemma_finalize_injective(x: u64, y: u64)
    requires
        splitmix64_finalize(x) == splitmix64_finalize(y),
    ensures
        x == y,
{
    let m: int = 0x1_0000_0000_0000_0000;
    let ax = x ^ (x >> 30);
    let ay = y ^ (y >> 30);
    let bx = ((ax as int * 0xbf58476d1ce4e5b9int) % m) as u64;
    let by = ((ay as int * 0xbf58476d1ce4e5b9int) % m) as u64;
    let cx = bx ^ (bx >> 27);
    let cy = by ^ (by >> 27);
    let dx = ((cx as int * 0x94d049bb133111ebint) % m) as u64;
    let dy = ((cy as int * 0x94d049bb133111ebint) % m) as u64;
    assert(dx == dy) by (bit_vector)
        requires
            dx ^ (dx >> 31) == dy ^ (dy >> 31),
    ;
    lemma_mul_mod64_injective(
        cx,
        cy,
        0x94d049bb133111ebint,
        0x319642b2d24d8ec3int,
        2077064247507883091int,
    );
    assert(bx == by) by (bit_vector)
        requires
            bx ^ (bx >> 27) == by ^ (by >> 27),
    ;
    lemma_mul_mod64_injective(
        ax,
        ay,
        0xbf58476d1ce4e5b9int,
        0x96de1b173f119089int,
        8125545580553827436int,
    );
    assert(x == y) by (bit_vector)
        requires
            x ^ (x >> 30) == y ^ (y >> 30),
    ;
}

/// Two channels of one seed are hashed from different states, so their
/// 64-bit hashes differ: the x and y offsets of a shake are drawn
/// independently.
pub proof fn lemma_channels_distinct(seed: u64, c1: u64, c2: u64)
    requires
        c1 != c2,
    ensures
        finalizer_input(seed, c1) != finalizer_input(seed, c2),
        noise_hash(seed, c1) != noise_hash(seed, c2),
{
    let m: int = 0x1_0000_0000_0000_0000;
    let p: int = seed as int * 0x9e3779b97f4a7c15int;
    lemma_add_mod_noop(p, c1 as int, m);
    lemma_add_mod_noop(p, c2 as int, m);
    lemma_small_mod(c1 as nat, m as nat);
    lemma_small_mod(c2 as nat, m as nat);
    lemma_noise_hash_formula(seed, c1);
    lemma_noise_hash_formula(seed, c2);
    if noise_hash(seed, c1) == noise_hash(seed, c2) {
        lemma_finalize_injective(finalizer_input(seed, c1), finalizer_input(seed, c2));
    }
}

/// Two seeds on one channel are hashed from different states, so their
/// 64-bit hashes differ: successive shake frames get distinct noise states.
pub proof fn lemma_seeds_distinct(s1: u64, s2: u64, channel: u64)
    requires
        s1 != s2,
    ensures
        finalizer_input(s1, channel) != finalizer_input(s2, channel),
        noise_hash(s1, channel) != noise_hash(s2, channel),
{
    let m: int = 0x1_0000_0000_0000_0000;
    let g: int = 0x9e3779b97f4a7c15;
    lemma_add_mod_noop(s1 as int * g, channel as int, m);
    lemma_add_mod_noop(s2 as int * g, channel as int, m);
    lemma_small_mod(channel as nat, m as nat);
    if finalizer_input(s1, channel) == finalizer_input(s2, channel) {
        // equal sums of the same channel force equal products modulo 2^64
        let q1 = (s1 as int * g) % m;
        let q2 = (s2 as int * g) % m;
        assert(0 <= q1 < m && 0 <= q2 < m);
        assert((q1 + channel as int) % m == (q2 + channel as int) % m);
        assert(q1 == q2) by {
            if q1 != q2 {
                assert((q1 + channel as int) % m == (q2 + channel as int) % m);
            }
        }
        lemma_mul_mod64_injective(s1, s2, g, 0xf1de83e19937733dint, 10771413168148108919int);
    }
    lemma_noise_hash_formula(s1, channel);
    lemma_noise_hash_formula(s2, channel);
    if noise_hash(s1, channel) == noise_hash(s2, channel) {
        lemma_finalize_injective(finalizer_input(s1, channel), finalizer_input(s2, channel));
    }
}

} // verus!
