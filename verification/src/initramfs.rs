//! Initramfs placement: the highest page-aligned address that keeps the
//! whole payload inside guest memory.

use vstd::prelude::*;
use crate::Error;
use crate::bootparams::RamdiskPlacement;
use crate::mem::{bytes_at, GuestRam};

verus! {

/// The page-aligned floor of the highest address at which `size` bytes
/// still fit below `mem_size`.
pub open spec fn spec_initramfs_addr(mem_size: int, size: int) -> int {
    ((mem_size - size) / 4096) * 4096
}

/// Whether an initramfs of `len` bytes fits a guest of `mem_size` bytes,
/// with a placement the ramdisk fields of the zero page can carry.
pub open spec fn spec_initramfs_fits(mem_size: int, len: int) -> bool {
    &&& len < mem_size
    &&& spec_initramfs_addr(mem_size, len) <= u32::MAX
    &&& len <= u32::MAX
}

/// Pick the load address for an initramfs of `size` bytes in a guest with
/// `mem_size` bytes of memory.  A payload that would reach the end of
/// guest memory, or fill it entirely, is refused.
pub fn initramfs_load_addr(mem_size: u64, size: u64) -> (r: Result<u64, Error>)
    ensures
        r is Ok <==> size < mem_size,
        r is Err ==> r->Err_0 == Error::InitramfsTooLarge,
        r is Ok ==> r->Ok_0 == spec_initramfs_addr(mem_size as int, size as int),
        r is Ok ==> r->Ok_0 + size <= mem_size,
        r is Ok ==> r->Ok_0 % 4096 == 0,
{
    if size >= mem_size {
        return Err(Error::InitramfsTooLarge);
    }
    let d: u64 = mem_size - size;
    let addr: u64 = d - (d % 4096);
    proof {
        assert(addr == spec_initramfs_addr(mem_size as int, size as int)) by (nonlinear_arith)
            requires
                addr == d - (d % 4096),
                d == mem_size - size,
                d >= 0,
        ;
        assert(addr % 4096 == 0) by (nonlinear_arith)
            requires
                addr == d - (d % 4096),
                d >= 0,
        ;
    }
    Ok(addr)
}

/// Load the initramfs into guest memory at its place and report where it
/// went, ready for the ramdisk fields of the boot parameters.
pub fn load_initramfs(ram: &mut GuestRam, data: &[u8]) -> (r: Result<RamdiskPlacement, Error>)
    requires
        old(ram).wf(),
    ensures
        final(ram).wf(),
        final(ram)@.len() == old(ram)@.len(),
        r is Ok <==> spec_initramfs_fits(old(ram)@.len() as int, data@.len() as int),
        r is Err ==> final(ram)@ == old(ram)@ && r->Err_0 == Error::InitramfsTooLarge,
        r is Ok ==> r->Ok_0.addr == spec_initramfs_addr(old(ram)@.len() as int, data@.len() as int),
        r is Ok ==> r->Ok_0.size == data@.len(),
        r is Ok ==> bytes_at(final(ram)@, r->Ok_0.addr as int, data@),
        r is Ok ==> forall|j: int|
            0 <= j < old(ram)@.len() && !(r->Ok_0.addr <= j < r->Ok_0.addr + data@.len())
                ==> final(ram)@[j] == old(ram)@[j],
{
    let mem_size: u64 = ram.len() as u64;
    let size: u64 = data.len() as u64;
    let addr = match initramfs_load_addr(mem_size, size) {
        Ok(a) => a,
        Err(e) => {
            return Err(e);
        },
    };
    if addr > 0xffff_ffff || size > 0xffff_ffff {
        return Err(Error::InitramfsTooLarge);
    }
    let w = ram.write_slice(addr, data);
    proof {
        assert(w is Ok);
    }
    Ok(RamdiskPlacement { addr: addr as u32, size: size as u32 })
}

} // verus!
