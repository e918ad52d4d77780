//! The zero page: boot parameters and the e820 memory map, written to
//! guest memory exactly as the Linux boot protocol lays them out.

use vstd::prelude::*;
use vstd::bytes::{spec_u16_to_le_bytes, spec_u32_to_le_bytes, spec_u64_to_le_bytes};
use crate::Error;
use crate::layout::ZEROPG_START;
use crate::mem::{bytes_at, u8_at, u16_at, u32_at, u64_at, GuestRam};

verus! {

/// e820 type of usable RAM.
pub const E820_RAM: u32 = 1;

/// Capacity of the zero page's e820 table.
pub const E820_MAX_ENTRIES: usize = 128;

/// Value of `boot_params.hdr.boot_flag`.
pub const KERNEL_BOOT_FLAG_MAGIC: u16 = 0xaa55;

/// Value of `boot_params.hdr.header`, the magic `HdrS`.
pub const KERNEL_HDR_MAGIC: u32 = 0x5372_6448;

/// Value of `boot_params.hdr.type_of_loader` for an unregistered loader.
pub const KERNEL_LOADER_OTHER: u8 = 0xff;

/// Value of `boot_params.hdr.kernel_alignment`.
pub const KERNEL_MIN_ALIGNMENT_BYTES: u32 = 0x0100_0000;

/// Offset of `e820_entries` in the zero page.
pub const E820_ENTRIES_OFFSET: u64 = 0x1e8;

/// Offset of `hdr.boot_flag` in the zero page.
pub const BOOT_FLAG_OFFSET: u64 = 0x1fe;

/// Offset of `hdr.header` in the zero page.
pub const HEADER_OFFSET: u64 = 0x202;

/// Offset of `hdr.type_of_loader` in the zero page.
pub const TYPE_OF_LOADER_OFFSET: u64 = 0x210;

/// Offset of `hdr.ramdisk_image` in the zero page.
pub const RAMDISK_IMAGE_OFFSET: u64 = 0x218;

/// Offset of `hdr.ramdisk_size` in the zero page.
pub const RAMDISK_SIZE_OFFSET: u64 = 0x21c;

/// Offset of `hdr.cmd_line_ptr` in the zero page.
pub const CMD_LINE_PTR_OFFSET: u64 = 0x228;

/// Offset of `hdr.kernel_alignment` in the zero page.
pub const KERNEL_ALIGNMENT_OFFSET: u64 = 0x230;

/// Offset of `hdr.cmdline_size` in the zero page.
pub const CMDLINE_SIZE_OFFSET: u64 = 0x238;

/// Offset of the e820 table in the zero page.
pub const E820_TABLE_OFFSET: u64 = 0x2d0;

/// One e820 memory-map entry: 20 bytes in the table.
#[derive(Debug, Clone, Copy, PartialEq, Eq, Structural)]
pub struct E820Entry {
    pub addr: u64,
    pub size: u64,
    pub type_: u32,
}

/// Where the initramfs was placed in guest memory.
#[derive(Debug, Clone, Copy, PartialEq, Eq, Structural)]
pub struct RamdiskPlacement {
    pub addr: u32,
    pub size: u32,
}

/// The boot parameters this monitor fills in: header fields and the e820
/// table.  Everything else in the zero page stays zero.
pub struct BootParams {
    pub e820: Vec<E820Entry>,
    pub cmdline_size: u32,
    pub ramdisk: Option<RamdiskPlacement>,
}

/// The 20 bytes of one e820 entry stand in `m` at offset `a`.
pub open spec fn e820_entry_at(m: Seq<u8>, a: int, e: E820Entry) -> bool {
    u64_at(m, a, e.addr) && u64_at(m, a + 8, e.size) && u32_at(m, a + 16, e.type_)
}

impl BootParams {
    /// The e820 table never outgrows its capacity.
    pub open spec fn wf(&self) -> bool {
        self.e820@.len() <= E820_MAX_ENTRIES
    }

    /// Boot parameters with an empty e820 table.
    pub fn new(cmdline_size: u32, ramdisk: Option<RamdiskPlacement>) -> (r: BootParams)
        ensures
            r.wf(),
            r.e820@ == Seq::<E820Entry>::empty(),
            r.cmdline_size == cmdline_size,
            r.ramdisk == ramdisk,
    {
        BootParams { e820: Vec::new(), cmdline_size, ramdisk }
    }

    /// Append one e820 entry; a full table refuses it.
    pub fn add_e820_entry(&mut self, addr: u64, size: u64, mem_type: u32) -> (r: Result<(), Error>)
        requires
            old(self).wf(),
        ensures
            final(self).wf(),
            r is Ok <==> old(self).e820@.len() < E820_MAX_ENTRIES,
            r is Ok ==> final(self).e820@ == old(self).e820@.push(
                E820Entry { addr, size, type_: mem_type },
            ),
            r is Err ==> *final(self) == *old(self) && r->Err_0 == Error::E820Full,
            final(self).cmdline_size == old(self).cmdline_size,
            final(self).ramdisk == old(self).ramdisk,
    {
        if self.e820.len() >= E820_MAX_ENTRIES {
            return Err(Error::E820Full);
        }
        self.e820.push(E820Entry { addr, size, type_: mem_type });
        Ok(())
    }

    /// Write the zero page into guest memory at its fixed address: the
    /// header magics, loader type, alignment, command-line pointer and
    /// size, ramdisk placement, and the e820 table with its count.
    pub fn write_to(&self, ram: &mut GuestRam) -> (r: Result<(), Error>)
        requires
            old(ram).wf(),
            self.wf(),
            old(ram)@.len() >= 0x8000,
        ensures
            final(ram).wf(),
            final(ram)@.len() == old(ram)@.len(),
            r is Ok,
            u8_at(final(ram)@, ZEROPG_START + E820_ENTRIES_OFFSET, self.e820@.len() as u8),
            u16_at(final(ram)@, ZEROPG_START + BOOT_FLAG_OFFSET, KERNEL_BOOT_FLAG_MAGIC),
            u32_at(final(ram)@, ZEROPG_START + HEADER_OFFSET, KERNEL_HDR_MAGIC),
            u8_at(final(ram)@, ZEROPG_START + TYPE_OF_LOADER_OFFSET, KERNEL_LOADER_OTHER),
            u32_at(
                final(ram)@,
                ZEROPG_START + RAMDISK_IMAGE_OFFSET,
                match self.ramdisk {
                    Some(rd) => rd.addr,
                    None => 0u32,
                },
            ),
            u32_at(
                final(ram)@,
                ZEROPG_START + RAMDISK_SIZE_OFFSET,
                match self.ramdisk {
                    Some(rd) => rd.size,
                    None => 0u32,
                },
            ),
            u32_at(final(ram)@, ZEROPG_START + CMD_LINE_PTR_OFFSET, crate::layout::CMDLINE_START as u32),
            u32_at(final(ram)@, ZEROPG_START + KERNEL_ALIGNMENT_OFFSET, KERNEL_MIN_ALIGNMENT_BYTES),
            u32_at(final(ram)@, ZEROPG_START + CMDLINE_SIZE_OFFSET, self.cmdline_size),
            forall|k: int|
                0 <= k < self.e820@.len() ==> e820_entry_at(
                    final(ram)@,
                    ZEROPG_START + E820_TABLE_OFFSET + 20 * k,
                    self.e820@[k],
                ),
            forall|j: int|
                0 <= j < old(ram)@.len() && !(ZEROPG_START <= j < ZEROPG_START + 0x1000)
                    ==> final(ram)@[j] == old(ram)@[j],
    {
        let ghost m0 = ram@;
        let mut k: usize = 0;
        while k < self.e820.len()
            invariant
                ram.wf(),
                ram@.len() == m0.len(),
                m0.len() >= 0x8000,
                self.wf(),
                k <= self.e820@.len(),
                forall|i: int|
                    0 <= i < k ==> e820_entry_at(
                        ram@,
                        ZEROPG_START + E820_TABLE_OFFSET + 20 * i,
                        self.e820@[i],
                    ),
                forall|j: int|
                    0 <= j < m0.len() && !(ZEROPG_START + E820_TABLE_OFFSET <= j < ZEROPG_START
                        + E820_TABLE_OFFSET + 20 * k) ==> ram@[j] == m0[j],
            decreases self.e820@.len() - k,
        {
            proof {
                vstd::bytes::lemma_auto_spec_u64_to_from_le_bytes();
                vstd::bytes::lemma_auto_spec_u32_to_from_le_bytes();
            }
            let e = self.e820[k];
            let base: u64 = ZEROPG_START + E820_TABLE_OFFSET + 20 * (k as u64);
            let r1 = ram.write_u64(base, e.addr);
            proof {
                assert(r1 is Ok);
            }
            let r2 = ram.write_u64(base + 8, e.size);
            proof {
                assert(r2 is Ok);
            }
            let r3 = ram.write_u32(base + 16, e.type_);
            proof {
                assert(r3 is Ok);
            }
            k = k + 1;
        }
        proof {
            vstd::bytes::lemma_auto_spec_u64_to_from_le_bytes();
            vstd::bytes::lemma_auto_spec_u32_to_from_le_bytes();
            vstd::bytes::lemma_auto_spec_u16_to_from_le_bytes();
        }
        let count: u8 = self.e820.len() as u8;
        let w1 = ram.write_u8(ZEROPG_START + E820_ENTRIES_OFFSET, count);
        proof {
            assert(w1 is Ok);
        }
        let w2 = ram.write_u16(ZEROPG_START + BOOT_FLAG_OFFSET, KERNEL_BOOT_FLAG_MAGIC);
        proof {
            assert(w2 is Ok);
        }
        let w3 = ram.write_u32(ZEROPG_START + HEADER_OFFSET, KERNEL_HDR_MAGIC);
        proof {
            assert(w3 is Ok);
        }
        let w4 = ram.write_u8(ZEROPG_START + TYPE_OF_LOADER_OFFSET, KERNEL_LOADER_OTHER);
        proof {
            assert(w4 is Ok);
        }
        let (rd_addr, rd_size) = match &self.ramdisk {
            Some(rd) => (rd.addr, rd.size),
            None => (0u32, 0u32),
        };
        let w5 = ram.write_u32(ZEROPG_START + RAMDISK_IMAGE_OFFSET, rd_addr);
        proof {
            assert(w5 is Ok);
        }
        let w6 = ram.write_u32(ZEROPG_START + RAMDISK_SIZE_OFFSET, rd_size);
        proof {
            assert(w6 is Ok);
        }
        let w7 = ram.write_u32(ZEROPG_START + CMD_LINE_PTR_OFFSET, crate::layout::CMDLINE_START as u32);
        proof {
            assert(w7 is Ok);
        }
        let w8 = ram.write_u32(ZEROPG_START + KERNEL_ALIGNMENT_OFFSET, KERNEL_MIN_ALIGNMENT_BYTES);
        proof {
            assert(w8 is Ok);
        }
        let w9 = ram.write_u32(ZEROPG_START + CMDLINE_SIZE_OFFSET, self.cmdline_size);
        proof {
            assert(w9 is Ok);
        }
        Ok(())
    }
}

/// The boot parameters for a guest with `mem_size` bytes of RAM: two RAM
/// ranges in the e820 table (conventional low memory, and everything from
/// the 1 MiB mark to the end of guest memory), the command line accounted
/// with its terminator, and the ramdisk placement when one was loaded.
pub fn build_bootparams(
    mem_size: u64,
    cmdline_len: u32,
    ramdisk: Option<RamdiskPlacement>,
) -> (r: Result<BootParams, Error>)
    requires
        cmdline_len <= 4095,
    ensures
        r is Ok <==> mem_size >= crate::layout::HIMEM_START,
        r is Err ==> r->Err_0 == Error::HimemPastEnd,
        r is Ok ==> {
            let p = r->Ok_0;
            &&& p.wf()
            &&& p.e820@.len() == 2
            &&& p.e820@[0] == E820Entry { addr: 0, size: crate::layout::EBDA_START, type_: E820_RAM }
            &&& p.e820@[1] == E820Entry {
                addr: crate::layout::HIMEM_START,
                size: (mem_size - crate::layout::HIMEM_START) as u64,
                type_: E820_RAM,
            }
            &&& p.cmdline_size == cmdline_len + 1
            &&& p.ramdisk == ramdisk
        },
{
    if mem_size < crate::layout::HIMEM_START {
        return Err(Error::HimemPastEnd);
    }
    let mut params = BootParams::new(cmdline_len + 1, ramdisk);
    let a1 = params.add_e820_entry(0, crate::layout::EBDA_START, E820_RAM);
    proof {
        assert(a1 is Ok);
    }
    let a2 = params.add_e820_entry(
        crate::layout::HIMEM_START,
        mem_size - crate::layout::HIMEM_START,
        E820_RAM,
    );
    proof {
        assert(a2 is Ok);
    }
    Ok(params)
}

} // verus!
