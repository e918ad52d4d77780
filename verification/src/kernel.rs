//! The ELF kernel loader: validate the image, then copy every loadable
//! segment into guest memory above the 1 MiB mark.

use vstd::prelude::*;
use vstd::bytes::{spec_u16_from_le_bytes, spec_u32_from_le_bytes, spec_u64_from_le_bytes,
    u16_from_le_bytes, u32_from_le_bytes, u64_from_le_bytes};
use vstd::slice::slice_subrange;
use crate::Error;
use crate::layout::HIMEM_START;
use crate::mem::{bytes_at, GuestRam};

verus! {

/// Where the kernel starts executing.
#[derive(Debug, Clone, Copy, PartialEq, Eq, Structural)]
pub struct KernelLoadResult {
    /// The ELF entry point, placed into the boot CPU's instruction
    /// pointer.
    pub entry: u64,
}

/// The ELF entry point field.
pub open spec fn elf_entry(k: Seq<u8>) -> u64 {
    spec_u64_from_le_bytes(k.subrange(24, 32))
}

/// The program header table offset field.
pub open spec fn elf_phoff(k: Seq<u8>) -> u64 {
    spec_u64_from_le_bytes(k.subrange(32, 40))
}

/// The program header entry size field.
pub open spec fn elf_phentsize(k: Seq<u8>) -> u16 {
    spec_u16_from_le_bytes(k.subrange(54, 56))
}

/// The program header count field.
pub open spec fn elf_phnum(k: Seq<u8>) -> u16 {
    spec_u16_from_le_bytes(k.subrange(56, 58))
}

/// Offset of program header `i`.
pub open spec fn ph_base(k: Seq<u8>, i: int) -> int {
    elf_phoff(k) + 56 * i
}

/// The type field of program header `i`.
pub open spec fn ph_type(k: Seq<u8>, i: int) -> u32 {
    spec_u32_from_le_bytes(k.subrange(ph_base(k, i), ph_base(k, i) + 4))
}

/// The file offset field of program header `i`.
pub open spec fn ph_offset(k: Seq<u8>, i: int) -> u64 {
    spec_u64_from_le_bytes(k.subrange(ph_base(k, i) + 8, ph_base(k, i) + 16))
}

/// The physical address field of program header `i`.
pub open spec fn ph_paddr(k: Seq<u8>, i: int) -> u64 {
    spec_u64_from_le_bytes(k.subrange(ph_base(k, i) + 24, ph_base(k, i) + 32))
}

/// The file size field of program header `i`.
pub open spec fn ph_filesz(k: Seq<u8>, i: int) -> u64 {
    spec_u64_from_le_bytes(k.subrange(ph_base(k, i) + 32, ph_base(k, i) + 40))
}

/// A well-formed 64-bit little-endian ELF executable whose entry point
/// sits in high memory and whose program header table lies inside the
/// file.
pub open spec fn elf_header_ok(k: Seq<u8>) -> bool {
    &&& k.len() >= 64
    &&& k[0] == 0x7f
    &&& k[1] == 0x45
    &&& k[2] == 0x4c
    &&& k[3] == 0x46
    &&& k[4] == 2
    &&& k[5] == 1
    &&& elf_phentsize(k) == 56
    &&& elf_phoff(k) + 56 * elf_phnum(k) <= k.len()
    &&& elf_entry(k) >= HIMEM_START
}

/// Loadable segment `i` lies inside the file.
pub open spec fn seg_file_ok(k: Seq<u8>, i: int) -> bool {
    ph_type(k, i) == 1 ==> ph_offset(k, i) + ph_filesz(k, i) <= k.len()
}

/// Loadable segment `i` lands in guest memory of `mem_len` bytes, at or
/// above the high-memory mark.
pub open spec fn seg_range_ok(k: Seq<u8>, i: int, mem_len: int) -> bool {
    ph_type(k, i) == 1 ==> ph_paddr(k, i) >= HIMEM_START && ph_paddr(k, i) + ph_filesz(k, i)
        <= mem_len
}

/// The whole image can be loaded.
pub open spec fn elf_loadable(k: Seq<u8>, mem_len: int) -> bool {
    &&& elf_header_ok(k)
    &&& forall|i: int| 0 <= i < elf_phnum(k) ==> seg_file_ok(k, i)
    &&& forall|i: int| 0 <= i < elf_phnum(k) ==> seg_range_ok(k, i, mem_len)
}

/// Guest address `j` falls inside some loadable segment.
pub open spec fn in_loaded_segment(k: Seq<u8>, j: int) -> bool {
    exists|i: int|
        0 <= i < elf_phnum(k) && ph_type(k, i) == 1 && ph_paddr(k, i) <= j < ph_paddr(k, i)
            + ph_filesz(k, i)
}

/// No two loadable segments overlap in guest memory.
pub open spec fn segments_disjoint(k: Seq<u8>) -> bool {
    forall|i1: int, i2: int|
        0 <= i1 < elf_phnum(k) && 0 <= i2 < elf_phnum(k) && i1 != i2 && ph_type(k, i1) == 1
            && ph_type(k, i2) == 1 ==> ph_paddr(k, i1) + ph_filesz(k, i1) <= ph_paddr(k, i2)
            || ph_paddr(k, i2) + ph_filesz(k, i2) <= ph_paddr(k, i1)
}

fn read_u16_at(k: &[u8], off: usize) -> (r: u16)
    requires
        off + 2 <= k@.len(),
        k@.len() <= usize::MAX,
    ensures
        r == spec_u16_from_le_bytes(k@.subrange(off as int, off + 2)),
{
    u16_from_le_bytes(slice_subrange(k, off, off + 2))
}

fn read_u32_at(k: &[u8], off: usize) -> (r: u32)
    requires
        off + 4 <= k@.len(),
        k@.len() <= usize::MAX,
    ensures
        r == spec_u32_from_le_bytes(k@.subrange(off as int, off + 4)),
{
    u32_from_le_bytes(slice_subrange(k, off, off + 4))
}

fn read_u64_at(k: &[u8], off: usize) -> (r: u64)
    requires
        off + 8 <= k@.len(),
        k@.len() <= usize::MAX,
    ensures
        r == spec_u64_from_le_bytes(k@.subrange(off as int, off + 8)),
{
    u64_from_le_bytes(slice_subrange(k, off, off + 8))
}

/// Load an ELF kernel image into guest memory.  A malformed image is
/// refused without touching memory; an image whose segments fall below
/// the high-memory mark or past the end of guest memory is refused the
/// same way.  On success every loadable segment stands in guest memory at
/// its physical address and the entry point is returned.
#[verifier::loop_isolation(false)]
pub fn load_elf(ram: &mut GuestRam, kernel: &[u8]) -> (r: Result<KernelLoadResult, Error>)
    requires
        old(ram).wf(),
    ensures
        final(ram).wf(),
        final(ram)@.len() == old(ram)@.len(),
        r is Ok <==> elf_loadable(kernel@, old(ram)@.len() as int),
        r is Ok ==> r->Ok_0.entry == elf_entry(kernel@) && r->Ok_0.entry >= HIMEM_START,
        r is Err ==> final(ram)@ == old(ram)@,
        !elf_header_ok(kernel@) ==> r == Err::<KernelLoadResult, Error>(Error::KernelLoadElf),
        elf_header_ok(kernel@) && (exists|i: int|
            0 <= i < elf_phnum(kernel@) && !seg_file_ok(kernel@, i)) ==> r == Err::<
            KernelLoadResult,
            Error,
        >(Error::KernelLoadElf),
        elf_header_ok(kernel@) && (forall|i: int|
            0 <= i < elf_phnum(kernel@) ==> seg_file_ok(kernel@, i)) && (exists|i: int|
            0 <= i < elf_phnum(kernel@) && !seg_range_ok(kernel@, i, old(ram)@.len() as int)) ==> r
            == Err::<KernelLoadResult, Error>(Error::KernelLoadRange),
        r is Ok ==> forall|j: int|
            0 <= j < old(ram)@.len() && !in_loaded_segment(kernel@, j) ==> final(ram)@[j] == old(
                ram,
            )@[j],
        r is Ok && segments_disjoint(kernel@) ==> forall|i: int|
            0 <= i < elf_phnum(kernel@) && ph_type(kernel@, i) == 1 ==> bytes_at(
                final(ram)@,
                ph_paddr(kernel@, i) as int,
                kernel@.subrange(
                    ph_offset(kernel@, i) as int,
                    ph_offset(kernel@, i) + ph_filesz(kernel@, i),
                ),
            ),
{
    let klen: usize = kernel.len();
    if klen < 64 {
        return Err(Error::KernelLoadElf);
    }
    if *vstd::slice::slice_index_get(kernel, 0) != 0x7f || *vstd::slice::slice_index_get(kernel, 1)
        != 0x45 || *vstd::slice::slice_index_get(kernel, 2) != 0x4c || *vstd::slice::slice_index_get(
        kernel,
        3,
    ) != 0x46 || *vstd::slice::slice_index_get(kernel, 4) != 2 || *vstd::slice::slice_index_get(
        kernel,
        5,
    ) != 1 {
        return Err(Error::KernelLoadElf);
    }
    let phentsize = read_u16_at(kernel, 54);
    if phentsize != 56 {
        return Err(Error::KernelLoadElf);
    }
    let phoff = read_u64_at(kernel, 32);
    let phnum = read_u16_at(kernel, 56);
    if phoff > klen as u64 || 56 * (phnum as u64) > klen as u64 - phoff {
        return Err(Error::KernelLoadElf);
    }
    let entry = read_u64_at(kernel, 24);
    if entry < HIMEM_START {
        return Err(Error::KernelLoadElf);
    }
    // Every loadable segment must lie inside the file.
    let mut i: usize = 0;
    while i < phnum as usize
        invariant
            forall|p: int| 0 <= p < i ==> seg_file_ok(kernel@, p),
        decreases phnum as int - i,
    {
        let base: usize = (phoff as usize) + 56 * i;
        let ptype = read_u32_at(kernel, base);
        if ptype == 1 {
            let offset = read_u64_at(kernel, base + 8);
            let filesz = read_u64_at(kernel, base + 32);
            if filesz > klen as u64 || offset > klen as u64 - filesz {
                proof {
                    assert(!seg_file_ok(kernel@, i as int));
                }
                return Err(Error::KernelLoadElf);
            }
        }
        i = i + 1;
    }
    // Every loadable segment must land inside guest memory, above the
    // high-memory mark.
    let mem_len: u64 = ram.len() as u64;
    let mut i2: usize = 0;
    while i2 < phnum as usize
        invariant
            forall|p: int| 0 <= p < i2 ==> seg_range_ok(kernel@, p, old(ram)@.len() as int),
        decreases phnum as int - i2,
    {
        let base: usize = (phoff as usize) + 56 * i2;
        let ptype = read_u32_at(kernel, base);
        if ptype == 1 {
            let paddr = read_u64_at(kernel, base + 24);
            let filesz = read_u64_at(kernel, base + 32);
            if paddr < HIMEM_START || filesz > mem_len || paddr > mem_len - filesz {
                proof {
                    assert(!seg_range_ok(kernel@, i2 as int, old(ram)@.len() as int));
                }
                return Err(Error::KernelLoadRange);
            }
        }
        i2 = i2 + 1;
    }
    // Copy the segments.
    let mut i3: usize = 0;
    while i3 < phnum as usize
        invariant
            ram.wf(),
            ram@.len() == old(ram)@.len(),
            forall|j: int|
                0 <= j < old(ram)@.len() && !in_loaded_segment(kernel@, j) ==> ram@[j] == old(
                    ram,
                )@[j],
            forall|j: int|
                0 <= j < old(ram)@.len() && !(exists|p: int|
                    0 <= p < i3 && ph_type(kernel@, p) == 1 && ph_paddr(kernel@, p) <= j < ph_paddr(
                        kernel@,
                        p,
                    ) + ph_filesz(kernel@, p)) ==> ram@[j] == old(ram)@[j],
            segments_disjoint(kernel@) ==> forall|p: int|
                0 <= p < i3 && ph_type(kernel@, p) == 1 ==> bytes_at(
                    ram@,
                    ph_paddr(kernel@, p) as int,
                    kernel@.subrange(
                        ph_offset(kernel@, p) as int,
                        ph_offset(kernel@, p) + ph_filesz(kernel@, p),
                    ),
                ),
        decreases phnum as int - i3,
    {
        let base: usize = (phoff as usize) + 56 * i3;
        let ptype = read_u32_at(kernel, base);
        if ptype == 1 {
            let offset = read_u64_at(kernel, base + 8);
            let paddr = read_u64_at(kernel, base + 24);
            let filesz = read_u64_at(kernel, base + 32);
            proof {
                assert(base as int == ph_base(kernel@, i3 as int));
                assert(offset == ph_offset(kernel@, i3 as int));
                assert(paddr == ph_paddr(kernel@, i3 as int));
                assert(filesz == ph_filesz(kernel@, i3 as int));
                assert(seg_file_ok(kernel@, i3 as int));
                assert(seg_range_ok(kernel@, i3 as int, old(ram)@.len() as int));
            }
            let seg = slice_subrange(kernel, offset as usize, (offset + filesz) as usize);
            proof {
                assert(seg@ == kernel@.subrange(offset as int, offset as int + filesz as int));
            }
            let ghost pre = ram@;
            let w = ram.write_slice(paddr, seg);
            proof {
                assert(w is Ok);
                assert forall|j: int|
                    0 <= j < old(ram)@.len() && !(exists|p: int|
                        0 <= p < i3 + 1 && ph_type(kernel@, p) == 1 && ph_paddr(kernel@, p) <= j
                            < ph_paddr(kernel@, p) + ph_filesz(kernel@, p)) implies ram@[j] == old(
                    ram,
                )@[j] by {
                    assert(!(ph_type(kernel@, i3 as int) == 1 && ph_paddr(kernel@, i3 as int) <= j
                        && j < ph_paddr(kernel@, i3 as int) + ph_filesz(kernel@, i3 as int)));
                    assert(seg@.len() == ph_filesz(kernel@, i3 as int));
                    assert(!(paddr <= j < paddr + seg@.len()));
                    assert(ram@[j] == pre[j]);
                }
                if segments_disjoint(kernel@) {
                    assert forall|p: int|
                        0 <= p < i3 + 1 && ph_type(kernel@, p) == 1 implies bytes_at(
                        ram@,
                        ph_paddr(kernel@, p) as int,
                        kernel@.subrange(
                            ph_offset(kernel@, p) as int,
                            ph_offset(kernel@, p) + ph_filesz(kernel@, p),
                        ),
                    ) by {
                        if p < i3 {
                            assert(bytes_at(
                                pre,
                                ph_paddr(kernel@, p) as int,
                                kernel@.subrange(
                                    ph_offset(kernel@, p) as int,
                                    ph_offset(kernel@, p) + ph_filesz(kernel@, p),
                                ),
                            ));
                            let a1 = ph_paddr(kernel@, p) as int;
                            let f1 = ph_filesz(kernel@, p) as int;
                            let a2 = ph_paddr(kernel@, i3 as int) as int;
                            let f2 = ph_filesz(kernel@, i3 as int) as int;
                            assert(0 <= p < elf_phnum(kernel@) && i3 < elf_phnum(kernel@) && p
                                != i3 as int && ph_type(kernel@, p) == 1 && ph_type(
                                kernel@,
                                i3 as int,
                            ) == 1);
                            assert(a1 + f1 <= a2 || a2 + f2 <= a1);
                            assert(seg@.len() == f2);
                            assert(seg_range_ok(kernel@, p, old(ram)@.len() as int));
                            assert(seg_file_ok(kernel@, p));
                            assert(a1 + f1 <= pre.len());
                            assert(kernel@.subrange(
                                ph_offset(kernel@, p) as int,
                                ph_offset(kernel@, p) + ph_filesz(kernel@, p),
                            ).len() == f1);
                            assert forall|j: int|
                                0 <= j < f1 implies #[trigger] ram@[a1 + j] == pre[a1 + j] by {
                                assert(!(paddr <= a1 + j < paddr + seg@.len()));
                            }
                        } else {
                            assert(seg@ =~= kernel@.subrange(
                                ph_offset(kernel@, p) as int,
                                ph_offset(kernel@, p) + ph_filesz(kernel@, p),
                            ));
                        }
                    }
                }
            }
        }
        i3 = i3 + 1;
    }
    Ok(KernelLoadResult { entry })
}

} // verus!
