//! Numeric utilities around circuit sizes.

use vstd::prelude::*;

use vstd::arithmetic::power2::{lemma2_to64, lemma_pow2_pos, lemma_pow2_strictly_increases, pow2};

verus! {

/// `n` is an exact power of two.
pub open spec fn is_power_of_two(n: int) -> bool {
    exists|k: nat| n == pow2(k)
}

/// `s` is the smallest power of two at least as large as `circuit_size`.
pub open spec fn is_subgroup_size(s: u32, circuit_size: u32) -> bool {
    &&& is_power_of_two(s as int)
    &&& circuit_size <= s
    &&& forall|m: u32| is_power_of_two(m as int) && circuit_size <= m ==> s <= m
}

/// Powers of two grow monotonically with the exponent.
proof fn lemma_pow2_monotonic(a: nat, b: nat)
    requires
        a <= b,
    ensures
        pow2(a) <= pow2(b),
{
    if a < b {
        lemma_pow2_strictly_increases(a, b);
    }
}

/// The proving subgroup for a circuit of `circuit_size` constraints: the
/// smallest power of two at least as large as `circuit_size`.
///
/// A circuit of size zero has no subgroup, and the largest power of two a
/// `u32` can hold caps the admissible sizes.
pub fn compute_subgroup_size(circuit_size: u32) -> (subgroup_size: u32)
    requires
        1 <= circuit_size <= 0x8000_0000u32,
    ensures
        is_subgroup_size(subgroup_size, circuit_size),
        subgroup_size <= 0x8000_0000u32,
{
    let mut r: u32 = 1;
    let ghost mut k: nat = 0;
    proof {
        lemma2_to64();
    }
    while r < circuit_size
        invariant
            1 <= circuit_size <= 0x8000_0000u32,
            r == pow2(k),
            r <= 0x8000_0000u32,
            k == 0 || pow2((k - 1) as nat) < circuit_size,
        decreases 0x8000_0000u32 - r,
    {
        proof {
            // r < circuit_size <= 2^31 == pow2(31), so k < 31 and doubling
            // stays within u32.
            lemma2_to64();
            if k >= 31 {
                lemma_pow2_monotonic(31, k);
                assert(false);
            }
            lemma_pow2_monotonic(k, 30);
            k = k + 1;
        }
        r = r * 2;
    }
    proof {
        assert forall|m: u32| is_power_of_two(m as int) && circuit_size <= m implies r <= m by {
            let j = choose|j: nat| m == pow2(j);
            lemma_pow2_pos(j);
            if k > 0 {
                // pow2(k - 1) < circuit_size <= m == pow2(j) forces k <= j.
                if j < k {
                    lemma_pow2_monotonic(j, (k - 1) as nat);
                    assert(false);
                }
                lemma_pow2_monotonic(k, j);
            }
        }
    }
    r
}

/// Retrieving an UltraHonk verification key takes a native composer handle,
/// which this library does not hold; the request is always refused.
pub fn get_honk_verification_key(circuit_bytecode: &str, recursive: bool) -> (r: Result<
    Vec<u8>,
    String,
>)
    ensures
        r is Err,
{
    let _ = circuit_bytecode;
    let _ = recursive;
    Err("honk verification key retrieval needs a native composer handle".to_owned())
}

} // verus!
