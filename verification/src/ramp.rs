//! Gamma ramp tables for the software brightness strategy.
//!
//! A ramp table holds 256 intensity levels per color channel. Entry `i` of a
//! table scaled by `percent` is `round(i * (percent / 100) * 255)`, computed
//! in integers as `(i * percent * 255 + 50) / 100` (round half up). All three
//! channels carry identical values: the dimming is monochrome.

use vstd::arithmetic::div_mod::lemma_div_is_ordered;
use vstd::arithmetic::div_mod::lemma_div_multiples_vanish_fancy;
use vstd::arithmetic::mul::lemma_mul_inequality;
use vstd::prelude::*;

verus! {

/// The intensity level at ramp index `i` for a brightness of `percent`
/// percent: `round(i * (percent / 100) * 255)`, rounding half up.
pub open spec fn ramp_level(i: int, percent: int) -> int {
    (i * percent * 255 + 50) / 100
}

/// One software gamma ramp: 256 intensity levels for each color channel.
pub struct GammaRampTable {
    pub red: Vec<u16>,
    pub green: Vec<u16>,
    pub blue: Vec<u16>,
}

impl GammaRampTable {
    /// Well-formed table: full length, monochrome (all channels identical),
    /// and monotonically non-decreasing within each channel.
    pub open spec fn wf(self) -> bool {
        &&& self.red@.len() == 256
        &&& self.green@ == self.red@
        &&& self.blue@ == self.red@
        &&& forall|i: int, j: int| 0 <= i <= j < 256 ==> self.red@[i] <= self.red@[j]
    }

    /// The table is uniformly scaled by the single factor `percent / 100`:
    /// every entry follows the rounded ramp formula.
    pub open spec fn scaled_by(self, percent: int) -> bool {
        &&& self.red@.len() == 256
        &&& self.green@ == self.red@
        &&& self.blue@ == self.red@
        &&& forall|i: int| 0 <= i < 256 ==> self.red@[i] == ramp_level(i, percent)
    }

    /// Build the ramp table for a brightness of `percent` percent.
    pub fn build(percent: u32) -> (table: GammaRampTable)
        requires
            percent <= 100,
        ensures
            table.wf(),
            table.scaled_by(percent as int),
    {
        let mut red: Vec<u16> = Vec::new();
        let mut green: Vec<u16> = Vec::new();
        let mut blue: Vec<u16> = Vec::new();
        let mut i: usize = 0;
        while i < 256
            invariant
                percent <= 100,
                i <= 256,
                red@.len() == i,
                green@ == red@,
                blue@ == red@,
                forall|k: int| 0 <= k < i ==> red@[k] == ramp_level(k, percent as int),
            decreases 256 - i,
        {
            proof {
                lemma_ramp_level_bounds(i as int, percent as int);
            }
            assert((i as int) * (percent as int) <= 25500) by (nonlinear_arith)
                requires
                    i < 256,
                    percent <= 100,
            ;
            let wide: u32 = ((i as u32) * percent * 255 + 50) / 100;
            let level: u16 = wide as u16;
            red.push(level);
            green.push(level);
            blue.push(level);
            i = i + 1;
        }
        proof {
            assert forall|a: int, b: int| 0 <= a <= b < 256 implies red@[a] <= red@[b] by {
                lemma_ramp_level_monotone(percent as int, a, b);
            }
        }
        GammaRampTable { red, green, blue }
    }

    /// An exact copy of this table.
    pub fn duplicate(&self) -> (copy: GammaRampTable)
        ensures
            copy.red@ == self.red@,
            copy.green@ == self.green@,
            copy.blue@ == self.blue@,
    {
        GammaRampTable {
            red: copy_levels(&self.red),
            green: copy_levels(&self.green),
            blue: copy_levels(&self.blue),
        }
    }
}

/// An exact copy of one channel's levels.
fn copy_levels(levels: &Vec<u16>) -> (copy: Vec<u16>)
    ensures
        copy@ == levels@,
{
    let mut out: Vec<u16> = Vec::new();
    let mut k: usize = 0;
    while k < levels.len()
        invariant
            k <= levels@.len(),
            out@ == levels@.subrange(0, k as int),
        decreases levels@.len() - k,
    {
        out.push(levels[k]);
        proof {
            assert(levels@.subrange(0, k as int + 1) =~= levels@.subrange(0, k as int).push(
                levels@[k as int],
            ));
        }
        k = k + 1;
    }
    proof {
        assert(levels@.subrange(0, levels@.len() as int) =~= levels@);
    }
    out
}

/// Every ramp level lies within the 16-bit intensity range; at index 255 and
/// full brightness the level is 65025, well below `u16::MAX`.
pub proof fn lemma_ramp_level_bounds(i: int, percent: int)
    requires
        0 <= i < 256,
        0 <= percent <= 100,
    ensures
        0 <= ramp_level(i, percent) <= 65025,
{
    assert(i * percent * 255 <= 6502500) by (nonlinear_arith)
        requires
            0 <= i < 256,
            0 <= percent <= 100,
    ;
    assert(i * percent * 255 >= 0) by (nonlinear_arith)
        requires
            0 <= i,
            0 <= percent,
    ;
    lemma_div_is_ordered(0, i * percent * 255 + 50, 100);
    lemma_div_is_ordered(i * percent * 255 + 50, 6502550, 100);
}

/// Within one table the levels never decrease with the index: a brighter
/// input intensity is never mapped below a darker one.
pub proof fn lemma_ramp_level_monotone(percent: int, i: int, j: int)
    requires
        0 <= percent,
        0 <= i <= j,
    ensures
        ramp_level(i, percent) <= ramp_level(j, percent),
{
    lemma_mul_inequality(i, j, percent);
    lemma_mul_inequality(i * percent, j * percent, 255);
    lemma_div_is_ordered(i * percent * 255 + 50, j * percent * 255 + 50, 100);
}

/// Round trip to neutral: a table scaled by 100 percent is exactly the
/// linear identity ramp, entry `i` mapping to `i * 255` on every channel.
pub proof fn lemma_full_scale_is_identity(table: GammaRampTable)
    requires
        table.scaled_by(100),
    ensures
        forall|i: int| 0 <= i < 256 ==> table.red@[i] == 255 * i,
        forall|i: int| 0 <= i < 256 ==> table.green@[i] == 255 * i,
        forall|i: int| 0 <= i < 256 ==> table.blue@[i] == 255 * i,
{
    assert forall|i: int| 0 <= i < 256 implies table.red@[i] == 255 * i by {
        lemma_ramp_level_full_is_identity(i);
    }
}

/// Full brightness restores the neutral linear ramp exactly: at 100 percent
/// the level at index `i` is `i * 255`, the identity map onto the 16-bit
/// intensity scale used here.
pub proof fn lemma_ramp_level_full_is_identity(i: int)
    requires
        0 <= i,
    ensures
        ramp_level(i, 100) == 255 * i,
{
    assert(i * 100 * 255 + 50 == 100 * (255 * i) + 50) by (nonlinear_arith);
    lemma_div_multiples_vanish_fancy(255 * i, 50, 100);
}

} // verus!
