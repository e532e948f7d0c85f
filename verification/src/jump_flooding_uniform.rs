//! The strides of the jump flooding.
//!
//! The flooding runs one pass for each stride `2^k, 2^(k-1), .., 1`, where `k`
//! is the smallest number for which `2^(k+1)` reaches the larger extent of
//! the grid.
use crate::definition::{JumpFloodingUniform, JumpFloodingUniformBuffer};
use vstd::arithmetic::power2::{lemma2_to64, lemma_pow2_strictly_increases, lemma_pow2_unfold, pow2};
use vstd::prelude::*;

verus! {

/// The larger of the two extents of the grid.
pub open spec fn larger_extent(size: (u32, u32)) -> nat {
    if size.0 >= size.1 {
        size.0 as nat
    } else {
        size.1 as nat
    }
}

/// `k` is the smallest number for which `2^(k+1)` reaches `extent`.
pub open spec fn is_top_power(k: nat, extent: nat) -> bool {
    &&& pow2(k + 1) >= extent
    &&& k == 0 || pow2(k) < extent
}

/// The strides `2^k, .., 2, 1` for the top power `k` of the extent.
pub open spec fn is_stride_sequence(steps: Seq<JumpFloodingUniform>, extent: nat) -> bool {
    &&& steps.len() >= 1
    &&& is_top_power((steps.len() - 1) as nat, extent)
    &&& forall|i: int|
        0 <= i < steps.len() ==> (#[trigger] steps[i]).step == pow2((steps.len() - 1 - i) as nat)
}

/// The top power of an extent is unique.
pub proof fn lemma_top_power_unique(a: nat, b: nat, extent: nat)
    requires
        is_top_power(a, extent),
        is_top_power(b, extent),
    ensures
        a == b,
{
    if a < b {
        if a + 1 < b {
            lemma_pow2_strictly_increases(a + 1, b);
        }
    }
    if b < a {
        if b + 1 < a {
            lemma_pow2_strictly_increases(b + 1, a);
        }
    }
}

/// Computes the strides of the jump flooding for a grid of the given size.
pub fn prepare_jump_flood_resource(size: (u32, u32)) -> (uniforms: JumpFloodingUniformBuffer)
    ensures
        is_stride_sequence(uniforms.buffer@, larger_extent(size)),
{
    let extent: u64 = if size.0 >= size.1 {
        size.0 as u64
    } else {
        size.1 as u64
    };
    let mut power: usize = 0;
    let mut reach: u64 = 2;
    proof {
        lemma2_to64();
    }
    while reach < extent
        invariant
            extent == larger_extent(size),
            reach == pow2((power + 1) as nat),
            power == 0 || pow2(power as nat) < extent,
            2 <= reach <= 0x1_0000_0000,
            power < 32,
        decreases 32 - power,
    {
        proof {
            // The reach lies below the extent, which is below two to the
            // thirty-second, so the exponent can still grow.
            lemma2_to64();
            if power + 1 > 32 {
                lemma_pow2_strictly_increases(32, (power + 1) as nat);
            }
            lemma_pow2_unfold((power + 2) as nat);
            if power + 2 < 32 {
                lemma_pow2_strictly_increases((power + 2) as nat, 32);
            }
        }
        reach = reach * 2;
        power = power + 1;
    }
    let mut buffer: Vec<JumpFloodingUniform> = Vec::new();
    let mut step: u64 = reach / 2;
    proof {
        lemma_pow2_unfold((power + 1) as nat);
    }
    let mut k: usize = 0;
    while k <= power
        invariant
            k <= power + 1,
            power < 32,
            buffer@.len() == k,
            k <= power ==> step == pow2((power - k) as nat),
            step <= 0x8000_0000,
            forall|i: int| 0 <= i < k ==> (#[trigger] buffer@[i]).step == pow2((power - i) as nat),
        decreases power + 1 - k,
    {
        buffer.push(JumpFloodingUniform { step: step as u32 });
        if k < power {
            proof {
                lemma_pow2_unfold((power - k) as nat);
            }
        }
        step = step / 2;
        k = k + 1;
    }
    JumpFloodingUniformBuffer { buffer }
}

} // verus!
