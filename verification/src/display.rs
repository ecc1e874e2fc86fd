//! Display handles for the software gamma strategy.
//!
//! The display enumerator walks the OS display topology and reports each
//! active display's device name as a fixed-size, NUL-padded UTF-16 buffer.
//! The engine turns such a buffer into a [`GammaTarget`]: the NUL-free name
//! prefix, the handle under which the gamma strategy addresses the display.
//! Handles are scoped by type to their strategy; a gamma target can never be
//! handed to the hardware strategy, whose writes take no handle from the
//! engine at all.

use vstd::prelude::*;

verus! {

/// Handle of one display for the software gamma strategy: its device name
/// as UTF-16 code units, without a NUL terminator.
pub struct GammaTarget {
    pub device_name: Vec<u16>,
}

impl GammaTarget {
    /// A well-formed handle carries no NUL code unit inside the name.
    pub open spec fn wf(self) -> bool {
        forall|k: int| 0 <= k < self.device_name@.len() ==> self.device_name@[k] != 0
    }

    /// An exact copy of this handle.
    pub fn duplicate(&self) -> (copy: GammaTarget)
        ensures
            copy.device_name@ == self.device_name@,
    {
        let mut units: Vec<u16> = Vec::new();
        let mut k: usize = 0;
        while k < self.device_name.len()
            invariant
                k <= self.device_name@.len(),
                units@ == self.device_name@.subrange(0, k as int),
            decreases self.device_name@.len() - k,
        {
            units.push(self.device_name[k]);
            proof {
                assert(self.device_name@.subrange(0, k as int + 1) =~= self.device_name@.subrange(
                    0,
                    k as int,
                ).push(self.device_name@[k as int]));
            }
            k = k + 1;
        }
        proof {
            assert(self.device_name@.subrange(0, self.device_name@.len() as int)
                =~= self.device_name@);
        }
        GammaTarget { device_name: units }
    }

    /// The name with a single NUL terminator appended, as the OS call that
    /// opens a device context by name expects it.
    pub fn to_nul_terminated(&self) -> (units: Vec<u16>)
        ensures
            units@ == self.device_name@.push(0u16),
    {
        let copy = self.duplicate();
        let mut units = copy.device_name;
        units.push(0u16);
        units
    }
}

/// Build the gamma handle for one display from the NUL-padded UTF-16 device
/// name buffer that the topology enumeration reports: the handle's name is
/// the longest NUL-free prefix of the buffer.
pub fn gamma_target_from_buffer(buffer: &Vec<u16>) -> (target: GammaTarget)
    ensures
        target.wf(),
        target.device_name@.len() <= buffer@.len(),
        target.device_name@ == buffer@.subrange(0, target.device_name@.len() as int),
        target.device_name@.len() < buffer@.len() ==> buffer@[target.device_name@.len() as int]
            == 0,
{
    let mut units: Vec<u16> = Vec::new();
    let n = buffer.len();
    let mut k: usize = 0;
    while k < n && buffer[k] != 0
        invariant
            n == buffer@.len(),
            k <= n,
            units@ == buffer@.subrange(0, k as int),
            forall|j: int| 0 <= j < k ==> buffer@[j] != 0,
        decreases n - k,
    {
        units.push(buffer[k]);
        proof {
            assert(buffer@.subrange(0, k as int + 1) =~= buffer@.subrange(0, k as int).push(
                buffer@[k as int],
            ));
        }
        k = k + 1;
    }
    GammaTarget { device_name: units }
}

} // verus!
