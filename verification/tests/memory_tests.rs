use vmm::bootparams::{build_bootparams, BootParams, E820_RAM, CMDLINE_SIZE_OFFSET,
    RAMDISK_IMAGE_OFFSET, RAMDISK_SIZE_OFFSET, BOOT_FLAG_OFFSET, HEADER_OFFSET,
    E820_ENTRIES_OFFSET, E820_TABLE_OFFSET};
use vmm::cmdline::{dec_bytes, hex_bytes, Cmdline};
use vmm::cpu::{boot_fpu, boot_regs, configure_sregs, create_boot_msr_entries, filter_cpuid,
    set_apic_delivery_mode, CpuidEntry, LapicState, VcpuSregs, APIC_LVT0, APIC_LVT1};
use vmm::gdt::{gdt_entry, gdt_entry_base, gdt_entry_flags, gdt_entry_limit, SegmentRegister};
use vmm::initramfs::{initramfs_load_addr, load_initramfs};
use vmm::mem::GuestRam;
use vmm::mptable::build_mptable;
use vmm::serial::Uart;
use vmm::Error;

#[test]
fn guest_memory_has_exact_size_and_reads_zero() {
    let ram = GuestRam::new(1).unwrap();
    assert_eq!(ram.len(), 1 << 20);
    let bytes = ram.read_vec(0, 4096).unwrap();
    assert!(bytes.iter().all(|&b| b == 0));
    let tail = ram.read_vec((1 << 20) - 16, 16).unwrap();
    assert!(tail.iter().all(|&b| b == 0));
}

#[test]
fn zero_mib_is_refused() {
    assert_eq!(GuestRam::new(0).err().unwrap(), Error::MemoryAlloc);
}

#[test]
fn write_then_read_returns_same_bytes() {
    let mut ram = GuestRam::new(1).unwrap();
    let data = [1u8, 2, 3, 4, 5, 250];
    ram.write_slice(0x1234, &data).unwrap();
    let back = ram.read_vec(0x1234, data.len()).unwrap();
    assert_eq!(&back[..], &data[..]);
}

#[test]
fn typed_words_round_trip() {
    let mut ram = GuestRam::new(1).unwrap();
    ram.write_u64(0x10, 0x1122334455667788).unwrap();
    assert_eq!(ram.read_u64(0x10).unwrap(), 0x1122334455667788);
    ram.write_u32(0x20, 0xdeadbeef).unwrap();
    assert_eq!(ram.read_u32(0x20).unwrap(), 0xdeadbeef);
    ram.write_u16(0x30, 0xaa55).unwrap();
    assert_eq!(ram.read_u16(0x30).unwrap(), 0xaa55);
    ram.write_u8(0x40, 0x7f).unwrap();
    assert_eq!(ram.read_u8(0x40).unwrap(), 0x7f);
    // Unaligned access is byte-exact.
    ram.write_u64(0x51, 0x0102030405060708).unwrap();
    assert_eq!(ram.read_u64(0x51).unwrap(), 0x0102030405060708);
}

#[test]
fn out_of_bounds_write_fails_and_leaves_memory_unchanged() {
    let mut ram = GuestRam::new(1).unwrap();
    let end = ram.len() as u64;
    ram.write_slice(end - 4, &[9, 9, 9, 9]).unwrap();
    let e = ram.write_slice(end - 3, &[1, 2, 3, 4]).unwrap_err();
    assert_eq!(e, Error::MemoryOob);
    let back = ram.read_vec(end - 4, 4).unwrap();
    assert_eq!(&back[..], &[9, 9, 9, 9]);
    assert!(ram.read_vec(end, 1).is_err());
    assert!(ram.read_u8(end).is_err());
}

#[test]
fn gdt_entry_round_trips() {
    for &(flags, base, limit) in
        &[(0xa09bu16, 0u32, 0xfffffu32), (0xc093, 0, 0xfffff), (0x8b, 0, 0xfffff), (0, 0, 0),
          (0x209a, 0x12345678, 0xabcde)] {
        let e = gdt_entry(flags, base, limit);
        assert_eq!(gdt_entry_flags(e), flags);
        assert_eq!(gdt_entry_base(e), base);
        assert_eq!(gdt_entry_limit(e), limit);
    }
}

#[test]
fn gdt_code64_descriptor_is_bit_exact() {
    assert_eq!(gdt_entry(0xa09b, 0, 0xfffff), 0x00af_9b00_0000_ffff);
    assert_eq!(gdt_entry(0xc093, 0, 0xfffff), 0x00cf_9300_0000_ffff);
    // The TSS descriptor carries access 0x8b with a clear flags nibble.
    assert_eq!(gdt_entry(0x8b, 0, 0xfffff), 0x000f_8b00_0000_ffff);
}

#[test]
fn segment_from_gdt_decodes_code_segment() {
    let e = gdt_entry(0xa09b, 0, 0xfffff);
    let s = SegmentRegister::from_gdt(e, 1);
    assert_eq!(s.selector, 8);
    assert_eq!(s.base, 0);
    assert_eq!(s.limit, 0xfffff);
    assert_eq!(s.type_, 0xb);
    assert_eq!(s.present, 1);
    assert_eq!(s.dpl, 0);
    assert_eq!(s.l, 1);
    assert_eq!(s.g, 1);
    assert_eq!(s.unusable, 0);
}

#[test]
fn hex_and_dec_formatting() {
    assert_eq!(hex_bytes(0xd0000000), b"d0000000".to_vec());
    assert_eq!(hex_bytes(0), b"0".to_vec());
    assert_eq!(hex_bytes(0xff), b"ff".to_vec());
    assert_eq!(dec_bytes(5), b"5".to_vec());
    assert_eq!(dec_bytes(1234567890), b"1234567890".to_vec());
}

#[test]
fn cmdline_insert_and_terminate() {
    let mut c = Cmdline::new();
    c.insert_str("console=ttyS0").unwrap();
    c.insert_str("panic=1").unwrap();
    assert_eq!(c.as_bytes_nul(), b"console=ttyS0 panic=1\0".to_vec());
    assert_eq!(c.len(), 21);
}

#[test]
fn cmdline_rejects_nul_and_overflow() {
    let mut c = Cmdline::new();
    assert_eq!(c.insert_str("a\0b").unwrap_err(), Error::CmdlineNotUtf8);
    let long = "x".repeat(4096);
    assert_eq!(c.insert_str(&long).unwrap_err(), Error::CmdlineTooLong);
    let fits = "x".repeat(4095);
    assert!(c.insert_str(&fits).is_ok());
    assert_eq!(c.insert_str("y").unwrap_err(), Error::CmdlineTooLong);
}

#[test]
fn cmdline_virtio_mmio_clause() {
    let mut c = Cmdline::new();
    c.insert_str("root=/dev/vda").unwrap();
    c.add_virtio_mmio_device(0xd000_0000, 5).unwrap();
    assert_eq!(c.as_bytes_nul(), b"root=/dev/vda virtio_mmio.device=4K@0xd0000000:5\0".to_vec());
}

#[test]
fn e820_table_fills_up_then_refuses() {
    let mut p = BootParams::new(1, None);
    for i in 0..128u64 {
        p.add_e820_entry(i << 20, 1 << 20, E820_RAM).unwrap();
    }
    assert_eq!(p.add_e820_entry(0, 1, E820_RAM).unwrap_err(), Error::E820Full);
}

#[test]
fn bootparams_covers_low_and_high_ram() {
    let p = build_bootparams(512 << 20, 50, None).unwrap();
    assert_eq!(p.e820.len(), 2);
    assert_eq!((p.e820[0].addr, p.e820[0].size, p.e820[0].type_), (0, 0x9fc00, E820_RAM));
    assert_eq!(
        (p.e820[1].addr, p.e820[1].size, p.e820[1].type_),
        (0x100000, (512 << 20) - 0x100000, E820_RAM),
    );
    assert_eq!(p.cmdline_size, 51);
}

#[test]
fn bootparams_refuses_tiny_memory() {
    assert_eq!(build_bootparams(0x1000, 0, None).err().unwrap(), Error::HimemPastEnd);
}

#[test]
fn zero_page_fields_land_at_their_offsets() {
    let mut ram = GuestRam::new(1).unwrap();
    let mut p = build_bootparams(1 << 20, 50, None).unwrap();
    p.ramdisk = Some(vmm::bootparams::RamdiskPlacement { addr: 0x7f000, size: 0x1000 });
    p.write_to(&mut ram).unwrap();
    let zp = 0x7000u64;
    assert_eq!(ram.read_u16(zp + BOOT_FLAG_OFFSET).unwrap(), 0xaa55);
    assert_eq!(ram.read_u32(zp + HEADER_OFFSET).unwrap(), 0x5372_6448);
    assert_eq!(ram.read_u32(zp + CMDLINE_SIZE_OFFSET).unwrap(), 51);
    assert_eq!(ram.read_u32(zp + RAMDISK_IMAGE_OFFSET).unwrap(), 0x7f000);
    assert_eq!(ram.read_u32(zp + RAMDISK_SIZE_OFFSET).unwrap(), 0x1000);
    assert_eq!(ram.read_u8(zp + E820_ENTRIES_OFFSET).unwrap(), 2);
    assert_eq!(ram.read_u64(zp + E820_TABLE_OFFSET).unwrap(), 0);
    assert_eq!(ram.read_u64(zp + E820_TABLE_OFFSET + 8).unwrap(), 0x9fc00);
    assert_eq!(ram.read_u32(zp + E820_TABLE_OFFSET + 16).unwrap(), E820_RAM);
}

#[test]
fn initramfs_of_mem_size_rejected() {
    assert_eq!(initramfs_load_addr(1 << 20, 1 << 20).unwrap_err(), Error::InitramfsTooLarge);
    let mut ram = GuestRam::new(1).unwrap();
    let huge = vec![0u8; 1 << 20];
    assert_eq!(load_initramfs(&mut ram, &huge).unwrap_err(), Error::InitramfsTooLarge);
}

#[test]
fn initramfs_of_mem_size_minus_one_loads_at_zero() {
    assert_eq!(initramfs_load_addr(1 << 20, (1 << 20) - 1).unwrap(), 0);
    let mut ram = GuestRam::new(1).unwrap();
    let data = vec![7u8; (1 << 20) - 1];
    let rd = load_initramfs(&mut ram, &data).unwrap();
    assert_eq!(rd.addr, 0);
    assert_eq!(rd.size as usize, data.len());
    assert_eq!(ram.read_u8(0).unwrap(), 7);
}

#[test]
fn initramfs_lands_page_aligned() {
    let addr = initramfs_load_addr(128 << 20, 0x2345).unwrap();
    assert_eq!(addr % 4096, 0);
    assert!(addr + 0x2345 <= 128 << 20);
    assert_eq!(addr, ((128 << 20) - 0x2345u64) & !0xfff);
}

#[test]
fn mptable_checksums_are_zero_for_every_cpu_count() {
    for n in [1u8, 2, 4, 32, 255] {
        let t = build_mptable(n);
        assert_eq!(&t[0..4], b"_MP_");
        assert_eq!(&t[16..20], b"PCMP");
        let mpf_sum: u32 = t[0..16].iter().map(|&b| b as u32).sum();
        assert_eq!(mpf_sum % 256, 0, "mpf checksum for {} cpus", n);
        let mpc_len = 204 + 20 * (n as usize);
        assert_eq!(t.len(), 16 + mpc_len);
        let mpc_sum: u32 = t[16..16 + mpc_len].iter().map(|&b| b as u32).sum();
        assert_eq!(mpc_sum % 256, 0, "mpc checksum for {} cpus", n);
        // One processor entry per CPU, APIC id dense from zero.
        for k in 0..n as usize {
            let e = &t[60 + 20 * k..60 + 20 * k + 20];
            assert_eq!(e[0], 0);
            assert_eq!(e[1], k as u8);
            assert_eq!(e[3], if k == 0 { 3 } else { 1 });
        }
    }
}

#[test]
fn sregs_enter_long_mode() {
    let mut ram = GuestRam::new(1).unwrap();
    let base = VcpuSregs {
        cs: SegmentRegister::from_gdt(0, 0),
        ds: SegmentRegister::from_gdt(0, 0),
        es: SegmentRegister::from_gdt(0, 0),
        fs: SegmentRegister::from_gdt(0, 0),
        gs: SegmentRegister::from_gdt(0, 0),
        ss: SegmentRegister::from_gdt(0, 0),
        tr: SegmentRegister::from_gdt(0, 0),
        gdt_base: 0,
        gdt_limit: 0,
        idt_base: 0,
        idt_limit: 0,
        cr0: 0x10,
        cr3: 0,
        cr4: 0,
        efer: 0,
    };
    let s = configure_sregs(base, &mut ram).unwrap();
    assert_eq!(s.cr0 & 0x8000_0001, 0x8000_0001);
    assert_eq!(s.cr4 & 0x20, 0x20);
    assert_eq!(s.efer & 0x500, 0x500);
    assert_eq!(s.cr3, 0x9000);
    assert_eq!(s.cs.selector, 8);
    assert_eq!(s.ds.selector, 16);
    assert_eq!(s.tr.selector, 24);
    assert_eq!(s.gdt_base, 0x500);
    assert_eq!(s.gdt_limit, 31);
    assert_eq!(s.idt_base, 0x520);
    assert_eq!(s.idt_limit, 7);
    // Page tables: identity map of the first GiB with 2 MiB pages.
    assert_eq!(ram.read_u64(0x9000).unwrap(), 0xa003);
    assert_eq!(ram.read_u64(0xa000).unwrap(), 0xb003);
    assert_eq!(ram.read_u64(0xb000).unwrap(), 0x83);
    assert_eq!(ram.read_u64(0xb000 + 8 * 511).unwrap(), (511u64 << 21) | 0x83);
    // The GDT as written to guest memory.
    assert_eq!(ram.read_u64(0x500).unwrap(), 0);
    assert_eq!(ram.read_u64(0x508).unwrap(), gdt_entry(0xa09b, 0, 0xfffff));
    assert_eq!(ram.read_u64(0x518).unwrap(), gdt_entry(0x8b, 0, 0xfffff));
    assert_eq!(s.tr.g, 0);
    assert_eq!(ram.read_u64(0x520).unwrap(), 0);
}

#[test]
fn boot_regs_point_at_kernel_and_zero_page() {
    let r = boot_regs(0x100_0000);
    assert_eq!(r.rflags, 2);
    assert_eq!(r.rip, 0x100_0000);
    assert_eq!(r.rsp, 0x8ff0);
    assert_eq!(r.rbp, 0x8ff0);
    assert_eq!(r.rsi, 0x7000);
    let f = boot_fpu();
    assert_eq!(f.fcw, 0x37f);
    assert_eq!(f.mxcsr, 0x1f80);
}

#[test]
fn boot_msrs_zero_the_syscall_machinery() {
    let msrs = create_boot_msr_entries();
    assert_eq!(msrs.len(), 10);
    assert_eq!(msrs[0].index, 0x174);
    assert!(msrs[..9].iter().all(|m| m.data == 0));
    assert_eq!(msrs[9].index, 0x1a0);
    assert_eq!(msrs[9].data, 1);
}

#[test]
fn cpuid_leaf_one_carries_apic_id_and_hypervisor_bit() {
    let mut entries = vec![
        CpuidEntry { function: 0, index: 0, flags: 0, eax: 13, ebx: 0, ecx: 0, edx: 0 },
        CpuidEntry { function: 1, index: 0, flags: 0, eax: 0, ebx: 0x00ff_0000, ecx: 0, edx: 0 },
        CpuidEntry { function: 0xb, index: 1, flags: 0, eax: 5, ebx: 6, ecx: 7, edx: 8 },
    ];
    filter_cpuid(3, 4, &mut entries);
    assert_eq!(entries[0].eax, 13);
    assert_eq!(entries[1].ebx >> 24, 3);
    assert_eq!((entries[1].ebx >> 16) & 0xff, 4);
    assert_eq!(entries[1].ecx & 0x8000_0000, 0x8000_0000);
    assert_eq!(entries[2].eax, 0);
    assert_eq!(entries[2].ebx, 0);
    assert_eq!(entries[2].ecx, 1);
    assert_eq!(entries[2].edx, 3);
}

#[test]
fn lapic_lines_programmed_and_idempotent() {
    let mut regs = vec![0u8; 1024];
    regs[APIC_LVT0] = 0xff;
    regs[APIC_LVT1] = 0xff;
    let mut lapic = LapicState::new(regs).unwrap();
    lapic.configure();
    let lvt0 = lapic.get_reg(APIC_LVT0);
    let lvt1 = lapic.get_reg(APIC_LVT1);
    assert_eq!((lvt0 >> 8) & 0x7, 0x7, "LINT0 is ExtINT");
    assert_eq!((lvt1 >> 8) & 0x7, 0x4, "LINT1 is NMI");
    // Programming again changes nothing: set, get, set round-trips.
    let before = (lapic.get_reg(APIC_LVT0), lapic.get_reg(APIC_LVT1), lapic.get_reg(0x320));
    lapic.configure();
    let after = (lapic.get_reg(APIC_LVT0), lapic.get_reg(APIC_LVT1), lapic.get_reg(0x320));
    assert_eq!(before, after);
    assert_eq!(set_apic_delivery_mode(set_apic_delivery_mode(0xff, 4), 4),
        set_apic_delivery_mode(0xff, 4));
}

#[test]
fn lapic_wrong_size_is_refused() {
    assert_eq!(LapicState::new(vec![0u8; 100]).err().unwrap(), Error::KvmIoctl);
}

#[test]
fn uart_transmit_and_receive() {
    let mut u = Uart::new();
    // Line status: transmitter idle, no data.
    assert_eq!(u.read(5), 0x60);
    // A byte written to the holding register goes to the sink.
    let w = u.write(0, b'A');
    assert_eq!(w.tx, Some(b'A'));
    // Host input raises data-ready and is drained in order.
    u.write(1, 0x01);
    let irq = u.enqueue_rx(b"hi");
    assert!(irq);
    assert_eq!(u.read(5), 0x61);
    assert_eq!(u.read(0), b'h');
    assert_eq!(u.read(0), b'i');
    assert_eq!(u.read(5), 0x60);
    assert_eq!(u.read(0), 0);
}

#[test]
fn uart_divisor_latch_and_scratch() {
    let mut u = Uart::new();
    u.write(3, 0x80);
    let w = u.write(0, 0x12);
    assert_eq!(w.tx, None);
    u.write(1, 0x34);
    assert_eq!(u.read(0), 0x12);
    assert_eq!(u.read(1), 0x34);
    u.write(3, 0x03);
    assert_eq!(u.read(3), 0x03);
    u.write(7, 0x5a);
    assert_eq!(u.read(7), 0x5a);
}

#[test]
fn uart_fifo_drops_overflow_without_irq_when_disabled() {
    let mut u = Uart::new();
    let data = vec![b'x'; 100];
    // Receive interrupt disabled: no irq.
    let irq = u.enqueue_rx(&data);
    assert!(!irq);
    // Only the FIFO capacity was kept.
    let mut drained = 0;
    while u.read(5) & 1 == 1 {
        u.read(0);
        drained += 1;
    }
    assert_eq!(drained, 64);
}
