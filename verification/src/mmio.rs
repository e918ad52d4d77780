//! The MMIO bus: guest physical address ranges routed to devices.

use vstd::prelude::*;
use crate::Error;

verus! {

/// One device slot: a half-open guest physical range.
#[derive(Debug, Clone, Copy, PartialEq, Eq, Structural)]
pub struct MmioRange {
    pub base: u64,
    pub size: u64,
}

/// Whether `addr` falls inside the range.
pub open spec fn covers(r: MmioRange, addr: u64) -> bool {
    r.base <= addr < r.base + r.size
}

/// The bus: ranges in registration order, the index into this list names
/// the device.
pub struct MmioBus {
    pub ranges: Vec<MmioRange>,
}

impl MmioBus {
    /// An empty bus.
    pub fn new() -> (r: MmioBus)
        ensures
            r.ranges@ == Seq::<MmioRange>::empty(),
    {
        MmioBus { ranges: Vec::new() }
    }

    /// Register a device range; the returned index names the device on
    /// lookups.
    pub fn register(&mut self, base: u64, size: u64) -> (r: usize)
        requires
            base + size <= u64::MAX,
        ensures
            final(self).ranges@ == old(self).ranges@.push(MmioRange { base, size }),
            r == old(self).ranges@.len(),
    {
        let idx = self.ranges.len();
        self.ranges.push(MmioRange { base, size });
        idx
    }

    /// The first registered device whose range covers `addr`, or none.
    pub fn lookup(&self, addr: u64) -> (r: Option<usize>)
        ensures
            r matches Some(i) ==> i < self.ranges@.len() && covers(self.ranges@[i as int], addr)
                && (forall|k: int| 0 <= k < i ==> !covers(self.ranges@[k], addr)),
            r is None ==> forall|k: int| 0 <= k < self.ranges@.len() ==> !covers(self.ranges@[k], addr),
    {
        let mut i: usize = 0;
        while i < self.ranges.len()
            invariant
                i <= self.ranges@.len(),
                forall|k: int| 0 <= k < i ==> !covers(self.ranges@[k], addr),
            decreases self.ranges@.len() - i,
        {
            let r = self.ranges[i];
            if r.base <= addr && addr - r.base < r.size {
                return Some(i);
            }
            i = i + 1;
        }
        None
    }
}

} // verus!
