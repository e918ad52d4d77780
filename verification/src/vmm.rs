//! The machine builder: everything `configure` does that is a function of
//! plain values — guest memory image, devices, command line, kernel and
//! initramfs payloads — leaving only the hypervisor and host-I/O calls to
//! the embedding program.

use vstd::prelude::*;
use vstd::bytes::spec_u32_to_le_bytes;
use crate::Error;
use crate::bootparams::{build_bootparams, e820_entry_at, E820Entry, RamdiskPlacement,
    CMDLINE_SIZE_OFFSET, RAMDISK_IMAGE_OFFSET, RAMDISK_SIZE_OFFSET, BOOT_FLAG_OFFSET,
    HEADER_OFFSET, KERNEL_BOOT_FLAG_MAGIC, KERNEL_HDR_MAGIC, E820_ENTRIES_OFFSET,
    E820_TABLE_OFFSET, E820_RAM};
use crate::cmdline::Cmdline;
use crate::dispatch::VmDevices;
use crate::initramfs::{load_initramfs, spec_initramfs_fits};
use crate::kernel::{elf_entry, elf_header_ok, elf_loadable, load_elf};
use crate::layout::{CMDLINE_START, EBDA_START, HIMEM_START, MIB, MMIO_BASE, MMIO_IRQ, MMIO_SIZE,
    MPTABLE_START, ZEROPG_START};
use crate::mem::{bytes_at, lemma_bytes_at_preserved, u8_at, u16_at, u32_at, GuestRam};
use crate::cmdline::{spec_dec_bytes, spec_hex_bytes};
use crate::mmio::{MmioBus, MmioRange};
use crate::mptable::{mptable_at, setup_mptable};
use crate::serial::Uart;
use crate::virtio::VirtioNetDevice;
use vstd::string::StringSliceAdditionalSpecFns;

verus! {

/// The base of the virtio-mmio slot for a guest of `mem_size` bytes: at
/// or above the end of guest memory (which is whole mebibytes here), and
/// never below the traditional gap.
pub open spec fn spec_mmio_base(mem_size: int) -> int {
    if mem_size > MMIO_BASE {
        mem_size
    } else {
        MMIO_BASE as int
    }
}

/// The command-line clause naming the virtio-mmio slot at `base`, without
/// its leading separator.
pub open spec fn spec_net_cmdline_clause(base: u64) -> Seq<u8> {
    "virtio_mmio.device=4K@0x".spec_bytes() + spec_hex_bytes(base) + seq![58u8]
        + spec_dec_bytes(MMIO_IRQ)
}

/// A configured machine: populated guest memory, quiet devices, and what
/// the per-CPU setup still needs.
pub struct Machine {
    /// Guest memory with all boot artifacts written.
    pub ram: GuestRam,
    /// The shared devices.
    pub devices: VmDevices,
    /// The kernel entry point for the boot CPU.
    pub entry: u64,
    /// How many vCPUs to create.
    pub num_vcpus: u8,
    /// The final command line, as written to guest memory.
    pub cmdline: Cmdline,
    /// Where the initramfs was loaded, when one was given.
    pub ramdisk: Option<RamdiskPlacement>,
}

/// Build the whole guest memory image and device set for one launch:
/// allocate zeroed memory, finish the command line (with the virtio-mmio
/// clause when networking is asked for), load the ELF kernel above the
/// 1 MiB mark, write the command line and the optional initramfs, write
/// the zero page with its e820 map and command-line accounting, and
/// install the MP table.  Everything the guest will read is pinned by the
/// clauses below; the caller only registers memory and file descriptors
/// with the hypervisor.
#[verifier::rlimit(60)]
pub fn configure_machine(
    num_vcpus: u8,
    mem_mib: u32,
    base_cmdline: Cmdline,
    net: bool,
    kernel: &[u8],
    initramfs: Option<&[u8]>,
) -> (r: Result<Machine, Error>)
    requires
        num_vcpus >= 1,
        base_cmdline.wf(),
    ensures
        r is Ok ==> ({
            let m = r->Ok_0;
            &&& m.ram.wf()
            &&& m.ram@.len() == mem_mib as int * MIB
            &&& m.num_vcpus == num_vcpus
            &&& m.entry == elf_entry(kernel@) && m.entry >= HIMEM_START
            &&& m.cmdline.wf()
            &&& (net ==> m.devices.net is Some && m.devices.bus.ranges@ == seq![
                MmioRange {
                    base: spec_mmio_base(mem_mib as int * MIB) as u64,
                    size: MMIO_SIZE,
                },
            ] && m.cmdline@ == base_cmdline@ + seq![32u8] + spec_net_cmdline_clause(
                spec_mmio_base(mem_mib as int * MIB) as u64,
            ))
            &&& (!net ==> m.devices.net is None && m.devices.bus.ranges@
                == Seq::<MmioRange>::empty() && m.cmdline@ == base_cmdline@)
            &&& m.devices.serial.rx@ == Seq::<u8>::empty()
            &&& mptable_at(m.ram@, MPTABLE_START as int, num_vcpus)
            &&& u16_at(m.ram@, ZEROPG_START + BOOT_FLAG_OFFSET, KERNEL_BOOT_FLAG_MAGIC)
            &&& u32_at(m.ram@, ZEROPG_START + HEADER_OFFSET, KERNEL_HDR_MAGIC)
            &&& u32_at(
                m.ram@,
                ZEROPG_START + CMDLINE_SIZE_OFFSET,
                (m.cmdline@.len() + 1) as u32,
            )
            &&& u8_at(m.ram@, ZEROPG_START + E820_ENTRIES_OFFSET, 2)
            &&& e820_entry_at(
                m.ram@,
                ZEROPG_START + E820_TABLE_OFFSET,
                E820Entry { addr: 0, size: EBDA_START, type_: E820_RAM },
            )
            &&& e820_entry_at(
                m.ram@,
                ZEROPG_START + E820_TABLE_OFFSET + 20,
                E820Entry {
                    addr: HIMEM_START,
                    size: (mem_mib as int * MIB - HIMEM_START) as u64,
                    type_: E820_RAM,
                },
            )
            &&& (m.ramdisk matches Some(rd) ==> u32_at(
                m.ram@,
                ZEROPG_START + RAMDISK_IMAGE_OFFSET,
                rd.addr,
            ) && u32_at(m.ram@, ZEROPG_START + RAMDISK_SIZE_OFFSET, rd.size))
            &&& (initramfs is Some <==> m.ramdisk is Some)
            &&& (m.ramdisk matches Some(rd) ==> rd.addr % 4096 == 0 && rd.size
                == initramfs->0@.len())
            &&& (m.ramdisk matches Some(rd) && rd.addr >= CMDLINE_START + m.cmdline@.len() + 1
                ==> bytes_at(m.ram@, CMDLINE_START as int, m.cmdline@.push(0u8)))
            &&& (m.ramdisk is None ==> bytes_at(m.ram@, CMDLINE_START as int, m.cmdline@.push(0u8)))
        }),
        !(mem_mib as int * MIB >= HIMEM_START) ==> r is Err,
        mem_mib as int * MIB >= HIMEM_START && mem_mib as int * MIB <= usize::MAX && !elf_loadable(
            kernel@,
            mem_mib as int * MIB,
        ) ==> r is Err,
        r is Err ==> ({
            ||| r->Err_0 == Error::MemoryAlloc
            ||| (net && r->Err_0 == Error::CmdlineTooLong && base_cmdline@.len() + 1
                + spec_net_cmdline_clause(spec_mmio_base(mem_mib as int * MIB) as u64).len()
                > 4095)
            ||| ((r->Err_0 == Error::KernelLoadElf || r->Err_0 == Error::KernelLoadRange)
                && !elf_loadable(kernel@, mem_mib as int * MIB))
            ||| (initramfs matches Some(d) && r->Err_0 == Error::InitramfsTooLarge
                && !spec_initramfs_fits(mem_mib as int * MIB, d@.len() as int))
        }),
        !elf_header_ok(kernel@) && (net ==> base_cmdline@.len() + 1 + spec_net_cmdline_clause(
            spec_mmio_base(mem_mib as int * MIB) as u64,
        ).len() <= 4095) ==> (r == Err::<Machine, Error>(Error::KernelLoadElf) || r == Err::<
            Machine,
            Error,
        >(Error::MemoryAlloc)),
        mem_mib >= 1 && mem_mib as int * MIB <= usize::MAX && (net ==> base_cmdline@.len() + 1
            + spec_net_cmdline_clause(spec_mmio_base(mem_mib as int * MIB) as u64).len() <= 4095)
            && elf_loadable(kernel@, mem_mib as int * MIB) && (initramfs matches Some(d)
            ==> spec_initramfs_fits(mem_mib as int * MIB, d@.len() as int)) ==> (r is Ok || r
            == Err::<Machine, Error>(Error::MemoryAlloc)),
{
    let mut ram = GuestRam::new(mem_mib)?;
    proof {
        ram.lemma_len_bound();
        assert(mem_mib >= 1);
        assert(ram@.len() >= 0x100000);
    }
    // The command line, with the virtio-mmio clause when a network
    // interface is configured; the slot sits at the end of guest memory,
    // never below the traditional gap.
    let mem_size: u64 = ram.len() as u64;
    let mmio_base: u64 = if mem_size > MMIO_BASE {
        mem_size
    } else {
        MMIO_BASE
    };
    let mut cmdline = base_cmdline;
    let mut devices = VmDevices { serial: Uart::new(), bus: MmioBus::new(), net: None };
    if net {
        cmdline.add_virtio_mmio_device(mmio_base, MMIO_IRQ)?;
        devices.bus.register(mmio_base, MMIO_SIZE);
        devices.net = Some(VirtioNetDevice::new());
    }
    // The kernel, loaded above the 1 MiB mark.
    let load = load_elf(&mut ram, kernel)?;
    // The command line blob, NUL-terminated.
    proof {
        cmdline.lemma_wf_len();
    }
    let cmdline_bytes = cmdline.as_bytes_nul();
    let wc = ram.write_slice(CMDLINE_START, cmdline_bytes.as_slice());
    proof {
        assert(wc is Ok);
    }
    // The optional initramfs, at the highest page-aligned address that
    // holds it.
    let ghost m_cmd = ram@;
    let ramdisk: Option<RamdiskPlacement> = match initramfs {
        Some(data) => Some(load_initramfs(&mut ram, data)?),
        None => None,
    };
    let ghost m_rd = ram@;
    // The zero page.
    let cmdline_len: u32 = cmdline.len() as u32;
    let params = build_bootparams(ram.len() as u64, cmdline_len, ramdisk)?;
    let wp = params.write_to(&mut ram);
    proof {
        assert(wp is Ok);
    }
    let ghost m_zp = ram@;
    // The MP table.
    let wm = setup_mptable(&mut ram, num_vcpus);
    proof {
        assert(wm is Ok);
        vstd::bytes::lemma_auto_spec_u16_to_from_le_bytes();
        vstd::bytes::lemma_auto_spec_u32_to_from_le_bytes();
        assert(ram@.len() == mem_mib as int * MIB);
        assert(mptable_at(ram@, MPTABLE_START as int, num_vcpus));
        // The zero page survives the MP table install: its addresses lie
        // below the table.
        assert forall|j: int| ZEROPG_START <= j < ZEROPG_START + 0x1000 implies ram@[j]
            == m_zp[j] by {}
        lemma_bytes_at_preserved(
            m_zp,
            ram@,
            ZEROPG_START + BOOT_FLAG_OFFSET,
            vstd::bytes::spec_u16_to_le_bytes(KERNEL_BOOT_FLAG_MAGIC),
        );
        lemma_bytes_at_preserved(
            m_zp,
            ram@,
            ZEROPG_START + HEADER_OFFSET,
            spec_u32_to_le_bytes(KERNEL_HDR_MAGIC),
        );
        lemma_bytes_at_preserved(
            m_zp,
            ram@,
            ZEROPG_START + CMDLINE_SIZE_OFFSET,
            spec_u32_to_le_bytes((cmdline@.len() + 1) as u32),
        );
        assert(u16_at(ram@, ZEROPG_START + BOOT_FLAG_OFFSET, KERNEL_BOOT_FLAG_MAGIC));
        assert(u32_at(ram@, ZEROPG_START + HEADER_OFFSET, KERNEL_HDR_MAGIC));
        assert(u32_at(ram@, ZEROPG_START + CMDLINE_SIZE_OFFSET, (cmdline@.len() + 1) as u32));
        assert forall|j: int| 0 <= j < 1 implies #[trigger] ram@[ZEROPG_START + E820_ENTRIES_OFFSET
            + j] == m_zp[ZEROPG_START + E820_ENTRIES_OFFSET + j] by {}
        assert(u8_at(ram@, ZEROPG_START + E820_ENTRIES_OFFSET, 2));
        vstd::bytes::lemma_auto_spec_u64_to_from_le_bytes();
        let e1 = ZEROPG_START + E820_TABLE_OFFSET;
        lemma_bytes_at_preserved(m_zp, ram@, e1, vstd::bytes::spec_u64_to_le_bytes(0));
        lemma_bytes_at_preserved(m_zp, ram@, e1 + 8, vstd::bytes::spec_u64_to_le_bytes(EBDA_START));
        lemma_bytes_at_preserved(m_zp, ram@, e1 + 16, spec_u32_to_le_bytes(E820_RAM));
        lemma_bytes_at_preserved(
            m_zp,
            ram@,
            e1 + 20,
            vstd::bytes::spec_u64_to_le_bytes(HIMEM_START),
        );
        lemma_bytes_at_preserved(
            m_zp,
            ram@,
            e1 + 28,
            vstd::bytes::spec_u64_to_le_bytes((mem_mib as int * MIB - HIMEM_START) as u64),
        );
        lemma_bytes_at_preserved(m_zp, ram@, e1 + 36, spec_u32_to_le_bytes(E820_RAM));
        if ramdisk is Some {
            let rd = ramdisk->0;
            lemma_bytes_at_preserved(
                m_zp,
                ram@,
                ZEROPG_START + RAMDISK_IMAGE_OFFSET,
                spec_u32_to_le_bytes(rd.addr),
            );
            lemma_bytes_at_preserved(
                m_zp,
                ram@,
                ZEROPG_START + RAMDISK_SIZE_OFFSET,
                spec_u32_to_le_bytes(rd.size),
            );
        }
        // The command line survives the later writers: the initramfs when
        // it sits above it, the zero page and the MP table always.
        let cbytes = cmdline@.push(0u8);
        if (ramdisk matches Some(rd) && rd.addr >= CMDLINE_START + cmdline@.len() + 1) || ramdisk is None {
            assert(bytes_at(m_cmd, CMDLINE_START as int, cbytes));
            assert forall|j: int|
                CMDLINE_START <= j < CMDLINE_START + cbytes.len() implies m_rd[j] == m_cmd[j] by {}
            lemma_bytes_at_preserved(m_cmd, m_rd, CMDLINE_START as int, cbytes);
            assert forall|j: int|
                CMDLINE_START <= j < CMDLINE_START + cbytes.len() implies m_zp[j] == m_rd[j] by {}
            lemma_bytes_at_preserved(m_rd, m_zp, CMDLINE_START as int, cbytes);
            assert forall|j: int|
                CMDLINE_START <= j < CMDLINE_START + cbytes.len() implies ram@[j] == m_zp[j] by {}
            lemma_bytes_at_preserved(m_zp, ram@, CMDLINE_START as int, cbytes);
        }
    }
    Ok(Machine { ram, devices, entry: load.entry, num_vcpus, cmdline, ramdisk })
}

} // verus!
