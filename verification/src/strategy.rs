//! Per-display write plans for the two brightness strategies.
//!
//! A strategy application is best effort across all attached displays, not
//! atomic: the engine lays out one write per enumerated display, and the
//! caller carries each write out independently, skipping a display whose
//! context cannot be reached without touching the others. Each planned
//! write depends only on its own display handle and the requested level,
//! so a failure on one display can never change what another receives.

use crate::display::GammaTarget;
use crate::ramp::GammaRampTable;
use vstd::prelude::*;

verus! {

/// The VCP feature code of the DDC/CI hardware brightness control.
pub const VCP_BRIGHTNESS_FEATURE: u8 = 0x10;

/// One planned gamma write: install `table` on the display `target`.
pub struct GammaWrite {
    pub target: GammaTarget,
    pub table: GammaRampTable,
}

/// One planned DDC/CI write: set the VCP feature `feature_code` to `value`
/// on every physical monitor that exposes a DDC/CI channel.
pub struct VcpCommand {
    pub feature_code: u8,
    pub value: u16,
}

/// Plan the software strategy over the displays enumerated at call time:
/// one gamma write per target, in enumeration order, every write carrying
/// the one `table` the dispatch produced. Zero enumerated displays yield an
/// empty plan, a complete no-op.
pub fn plan_gamma_apply(targets: &Vec<GammaTarget>, table: &GammaRampTable) -> (writes: Vec<
    GammaWrite,
>)
    ensures
        writes@.len() == targets@.len(),
        forall|k: int| 0 <= k < targets@.len() ==> {
            &&& (#[trigger] writes@[k]).target.device_name@ == targets@[k].device_name@
            &&& writes@[k].table.red@ == table.red@
            &&& writes@[k].table.green@ == table.green@
            &&& writes@[k].table.blue@ == table.blue@
        },
{
    let mut writes: Vec<GammaWrite> = Vec::new();
    let mut k: usize = 0;
    while k < targets.len()
        invariant
            k <= targets@.len(),
            writes@.len() == k,
            forall|j: int| 0 <= j < k ==> {
                &&& (#[trigger] writes@[j]).target.device_name@ == targets@[j].device_name@
                &&& writes@[j].table.red@ == table.red@
                &&& writes@[j].table.green@ == table.green@
                &&& writes@[j].table.blue@ == table.blue@
            },
        decreases targets@.len() - k,
    {
        let target = targets[k].duplicate();
        let copy = table.duplicate();
        writes.push(GammaWrite { target, table: copy });
        k = k + 1;
    }
    writes
}

/// Plan the hardware strategy: a single DDC/CI write of the brightness
/// feature, carrying `percent` truncated to the protocol's 16-bit value
/// width, to be issued to every enumerated physical monitor.
pub fn plan_vcp_apply(percent: u32) -> (command: VcpCommand)
    requires
        percent <= 100,
    ensures
        command.feature_code == VCP_BRIGHTNESS_FEATURE,
        command.value as int == percent as int,
{
    VcpCommand { feature_code: VCP_BRIGHTNESS_FEATURE, value: percent as u16 }
}

} // verus!
