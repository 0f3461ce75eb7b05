//! The integer side of the background starfield: how stars are shared out
//! among the parallax layers, and the generator that places them.
use vstd::prelude::*;

verus! {

/// Multiplier of the linear congruential generator.
pub const LCG_MULTIPLIER: u64 = 6_364_136_223_846_793_005u64;

/// Increment of the linear congruential generator.
pub const LCG_INCREMENT: u64 = 1_442_695_040_888_963_407u64;

/// One step of the generator: `x * a + c` modulo 2^64.
pub open spec fn lcg_step(x: u64) -> u64 {
    ((x as nat * LCG_MULTIPLIER as nat + LCG_INCREMENT as nat) % 0x1_0000_0000_0000_0000nat) as u64
}

/// Minimal linear congruential random number generator.
pub struct LcgRng(pub u64);

impl LcgRng {
    pub fn new(seed: u64) -> (r: Self)
        ensures
            r.0 == seed,
    {
        LcgRng(seed)
    }

    /// Advances the state by one step and returns it.
    pub fn next_u64(&mut self) -> (x: u64)
        ensures
            x == lcg_step(old(self).0),
            final(self).0 == x,
    {
        let m = self.0.wrapping_mul(LCG_MULTIPLIER);
        let x = m.wrapping_add(LCG_INCREMENT);
        proof {
            let big: int = 0x1_0000_0000_0000_0000;
            let p = (old(self).0 as int * LCG_MULTIPLIER as int) % big;
            assert(m as int == p);
            vstd::arithmetic::div_mod::lemma_add_mod_noop(
                old(self).0 as int * LCG_MULTIPLIER as int,
                LCG_INCREMENT as int,
                big,
            );
            vstd::arithmetic::div_mod::lemma_small_mod(LCG_INCREMENT as nat, big as nat);
            if p + LCG_INCREMENT as int >= big {
                vstd::arithmetic::div_mod::lemma_mod_sub_multiples_vanish(
                    p + LCG_INCREMENT as int,
                    big,
                );
                vstd::arithmetic::div_mod::lemma_small_mod(
                    (p + LCG_INCREMENT as int - big) as nat,
                    big as nat,
                );
            } else {
                vstd::arithmetic::div_mod::lemma_small_mod((p + LCG_INCREMENT as int) as nat, big as nat);
            }
        }
        self.0 = x;
        x
    }
}

/// Stars of each parallax layer (far, mid, near) out of `total`: six tenths
/// far, three tenths mid, the rest near.
pub open spec fn spec_layer_counts(total: nat) -> (nat, nat, nat) {
    let far = total * 6 / 10;
    let mid = total * 3 / 10;
    (far, mid, (total - far - mid) as nat)
}

/// Splits `total` stars among the far, mid and near layers.
pub fn star_layer_counts(total: usize) -> (counts: (usize, usize, usize))
    requires
        total * 6 <= usize::MAX,
    ensures
        (counts.0 as nat, counts.1 as nat, counts.2 as nat) == spec_layer_counts(total as nat),
        counts.0 + counts.1 + counts.2 == total,
{
    let far = total * 6 / 10;
    let mid = total * 3 / 10;
    assert(far + mid <= total) by (nonlinear_arith)
        requires
            far == total * 6 / 10,
            mid == total * 3 / 10,
    ;
    let near = total - far - mid;
    (far, mid, near)
}

/// The far layer has at least as many stars as the mid layer, and the mid
/// layer at least as many as the near one; except for totals of 1, 2, 3 and
/// 6 stars, where the remainder left to the near layer outnumbers the mid
/// layer.
pub proof fn lemma_layers_thin_out(total: nat)
    requires
        total != 1 && total != 2 && total != 3 && total != 6,
    ensures
        ({
            let (far, mid, near) = spec_layer_counts(total);
            far >= mid && mid >= near
        }),
{
    let far = total * 6 / 10;
    let mid = total * 3 / 10;
    assert(far * 10 <= total * 6 < far * 10 + 10);
    assert(mid * 10 <= total * 3 < mid * 10 + 10);
}

} // verus!
