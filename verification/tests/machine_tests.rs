use vmm::dispatch::{VcpuAction, VcpuExitEvent, VmDevices};
use vmm::kernel::load_elf;
use vmm::mem::GuestRam;
use vmm::mmio::MmioBus;
use vmm::serial::Uart;
use vmm::virtio::{virtio_flags_to_tuntap_flags, VirtioNetDevice, QUEUE_MAX_SIZE, VIRTIO_FEATURES};
use vmm::vmm::configure_machine;
use vmm::cmdline::Cmdline;
use vmm::Error;

/// A minimal 64-bit little-endian ELF with one loadable segment.
fn tiny_elf(entry: u64, paddr: u64, payload: &[u8]) -> Vec<u8> {
    let mut f = vec![0u8; 64 + 56];
    f[0..4].copy_from_slice(&[0x7f, b'E', b'L', b'F']);
    f[4] = 2;
    f[5] = 1;
    f[24..32].copy_from_slice(&entry.to_le_bytes());
    f[32..40].copy_from_slice(&64u64.to_le_bytes());
    f[54..56].copy_from_slice(&56u16.to_le_bytes());
    f[56..58].copy_from_slice(&1u16.to_le_bytes());
    let ph = 64;
    f[ph..ph + 4].copy_from_slice(&1u32.to_le_bytes());
    f[ph + 8..ph + 16].copy_from_slice(&120u64.to_le_bytes());
    f[ph + 24..ph + 32].copy_from_slice(&paddr.to_le_bytes());
    f[ph + 32..ph + 40].copy_from_slice(&(payload.len() as u64).to_le_bytes());
    f[ph + 40..ph + 48].copy_from_slice(&(payload.len() as u64).to_le_bytes());
    f.extend_from_slice(payload);
    f
}

#[test]
fn elf_kernel_loads_above_one_mib() {
    let mut ram = GuestRam::new(4).unwrap();
    let payload = b"\x90\x90\xf4";
    let image = tiny_elf(0x20_0000, 0x20_0000, payload);
    let r = load_elf(&mut ram, &image).unwrap();
    assert_eq!(r.entry, 0x20_0000);
    assert!(r.entry >= 0x10_0000);
    let back = ram.read_vec(0x20_0000, payload.len()).unwrap();
    assert_eq!(&back[..], &payload[..]);
}

#[test]
fn malformed_elf_is_refused_without_touching_memory() {
    let mut ram = GuestRam::new(1).unwrap();
    let mut image = tiny_elf(0x20_0000, 0x20_0000, b"abc");
    image[1] = b'X';
    assert_eq!(load_elf(&mut ram, &image).unwrap_err(), Error::KernelLoadElf);
    assert_eq!(load_elf(&mut ram, b"short").unwrap_err(), Error::KernelLoadElf);
    let low_entry = tiny_elf(0x1000, 0x20_0000, b"abc");
    assert_eq!(load_elf(&mut ram, &low_entry).unwrap_err(), Error::KernelLoadElf);
    let all = ram.read_vec(0, 0x1000).unwrap();
    assert!(all.iter().all(|&b| b == 0));
}

#[test]
fn one_mib_guest_cannot_hold_the_kernel() {
    let mut ram = GuestRam::new(1).unwrap();
    let image = tiny_elf(0x10_0000, 0x10_0000, b"abc");
    assert_eq!(load_elf(&mut ram, &image).unwrap_err(), Error::KernelLoadRange);
    let low_paddr = tiny_elf(0x10_0000, 0x500, b"abc");
    assert_eq!(load_elf(&mut ram, &low_paddr).unwrap_err(), Error::KernelLoadRange);
}

#[test]
fn virtio_registers_read_bit_exact() {
    let mut d = VirtioNetDevice::new();
    assert_eq!(d.mmio_read(0x00), 0x7472_6976);
    assert_eq!(d.mmio_read(0x04), 2);
    assert_eq!(d.mmio_read(0x08), 1);
    assert_eq!(d.mmio_read(0x0c), 0);
    assert_eq!(d.mmio_read(0x34), QUEUE_MAX_SIZE as u32);
    assert_eq!(d.mmio_read(0x10), (VIRTIO_FEATURES & 0xffff_ffff) as u32);
    d.mmio_write(0x14, 1);
    assert_eq!(d.mmio_read(0x10), (VIRTIO_FEATURES >> 32) as u32);
    d.mmio_write(0x14, 2);
    assert_eq!(d.mmio_read(0x10), 0);
    // Queue ready is per selected queue.
    d.mmio_write(0x30, 1);
    assert_eq!(d.mmio_read(0x44), 0);
    d.mmio_write(0x44, 1);
    assert_eq!(d.mmio_read(0x44), 1);
    assert!(d.tx_q.ready);
    assert!(!d.rx_q.ready);
    // Status round-trips; writing zero resets everything.
    d.mmio_write(0x70, 0xf);
    assert_eq!(d.mmio_read(0x70), 0xf);
    d.mmio_write(0x70, 0);
    assert_eq!(d.mmio_read(0x70), 0);
    assert!(!d.tx_q.ready);
}

#[test]
fn virtio_driver_features_and_interrupt_ack() {
    let mut d = VirtioNetDevice::new();
    d.mmio_write(0x24, 0);
    d.mmio_write(0x20, 0x5d83);
    d.mmio_write(0x24, 1);
    d.mmio_write(0x20, 0x9);
    assert_eq!(d.driver_features, (0x9u64 << 32) | 0x5d83);
    d.interrupt_status = 0x3;
    d.mmio_write(0x64, 0x1);
    assert_eq!(d.mmio_read(0x60), 0x2);
}

/// Lay out a split queue in guest memory: descriptor table, available
/// ring and used ring at the given bases.
fn queue_setup(d: &mut VirtioNetDevice, ram: &mut GuestRam, sel: u32, desc: u64, avail: u64, used: u64) {
    d.mmio_write(0x30, sel);
    d.mmio_write(0x38, 4);
    d.mmio_write(0x80, desc as u32);
    d.mmio_write(0x84, (desc >> 32) as u32);
    d.mmio_write(0x90, avail as u32);
    d.mmio_write(0x94, (avail >> 32) as u32);
    d.mmio_write(0xa0, used as u32);
    d.mmio_write(0xa4, (used >> 32) as u32);
    d.mmio_write(0x44, 1);
    ram.write_u16(avail, 0).unwrap();
    ram.write_u16(avail + 2, 0).unwrap();
}

fn write_desc(ram: &mut GuestRam, table: u64, i: u64, addr: u64, len: u32, flags: u16, next: u16) {
    ram.write_u64(table + 16 * i, addr).unwrap();
    ram.write_u32(table + 16 * i + 8, len).unwrap();
    ram.write_u16(table + 16 * i + 12, flags).unwrap();
    ram.write_u16(table + 16 * i + 14, next).unwrap();
}

#[test]
fn tx_queue_hands_out_frames_and_returns_chains() {
    let mut ram = GuestRam::new(1).unwrap();
    let mut d = VirtioNetDevice::new();
    queue_setup(&mut d, &mut ram, 1, 0x1000, 0x2000, 0x3000);
    // One chain: a 12-byte virtio-net header, then the 5-byte frame.
    write_desc(&mut ram, 0x1000, 0, 0x5000, 12, 1, 1);
    write_desc(&mut ram, 0x1000, 1, 0x6000, 5, 0, 0);
    ram.write_slice(0x6000, b"hello").unwrap();
    ram.write_u16(0x2004, 0).unwrap();
    ram.write_u16(0x2002, 1).unwrap();
    // Nothing queued before the available index moves.
    let frame = d.tx_next_frame(&mut ram).unwrap().unwrap();
    assert_eq!(frame.head, 0);
    assert_eq!(&frame.bytes[..], b"hello");
    assert!(d.tx_next_frame(&mut ram).unwrap().is_none());
    // Returning the chain fills the used ring and kicks the line.
    let irq = d.tx_complete(&mut ram, frame.head).unwrap();
    assert!(irq);
    assert_eq!(d.interrupt_status & 1, 1);
    assert_eq!(ram.read_u16(0x3002).unwrap(), 1);
    assert_eq!(ram.read_u32(0x3004).unwrap(), 0);
    assert_eq!(ram.read_u32(0x3008).unwrap(), 0);
}

#[test]
fn tx_queue_refuses_a_cyclic_chain() {
    let mut ram = GuestRam::new(1).unwrap();
    let mut d = VirtioNetDevice::new();
    queue_setup(&mut d, &mut ram, 1, 0x1000, 0x2000, 0x3000);
    write_desc(&mut ram, 0x1000, 0, 0x5000, 4, 1, 0);
    ram.write_u16(0x2004, 0).unwrap();
    ram.write_u16(0x2002, 1).unwrap();
    assert_eq!(d.tx_next_frame(&mut ram).err().unwrap(), Error::VirtioNetQueue);
}

#[test]
fn tx_queue_refuses_rings_outside_memory() {
    let mut ram = GuestRam::new(1).unwrap();
    let mut d = VirtioNetDevice::new();
    d.tx_q.size = 4;
    d.tx_q.ready = true;
    d.tx_q.desc = 1 << 20;
    d.tx_q.avail = 0x2000;
    d.tx_q.used = 0x3000;
    assert_eq!(d.tx_next_frame(&mut ram).err().unwrap(), Error::VirtioNetMemory);
}

#[test]
fn rx_queue_takes_a_frame_and_reports_length() {
    let mut ram = GuestRam::new(1).unwrap();
    let mut d = VirtioNetDevice::new();
    queue_setup(&mut d, &mut ram, 0, 0x1000, 0x2000, 0x3000);
    write_desc(&mut ram, 0x1000, 0, 0x8000, 2048, 0, 0);
    ram.write_u16(0x2004, 0).unwrap();
    ram.write_u16(0x2002, 1).unwrap();
    let frame = b"\0\0\0\0\0\0\0\0\0\0\0\0ping";
    let out = d.rx_deliver(&mut ram, frame).unwrap();
    assert!(out.delivered);
    assert_eq!(out.written as usize, frame.len());
    assert!(out.irq);
    let back = ram.read_vec(0x8000, frame.len()).unwrap();
    assert_eq!(&back[..], &frame[..]);
    assert_eq!(ram.read_u16(0x3002).unwrap(), 1);
    assert_eq!(ram.read_u32(0x3004).unwrap(), 0);
    assert_eq!(ram.read_u32(0x3008).unwrap(), frame.len() as u32);
    // No second chain: the next frame is dropped.
    let out2 = d.rx_deliver(&mut ram, frame).unwrap();
    assert!(!out2.delivered);
}

#[test]
fn dispatch_routes_halt_serial_and_mmio() {
    let mut devs = VmDevices { serial: Uart::new(), bus: MmioBus::new(), net: None };
    devs.bus.register(0xd000_0000, 0x1000);
    devs.net = Some(VirtioNetDevice::new());

    let halt = devs.handle_exit(VcpuExitEvent::Hlt);
    assert_eq!(halt.action, VcpuAction::Terminate);

    let tx = devs.handle_exit(VcpuExitEvent::IoOut { port: 0x3f8, data: b'Z' });
    assert_eq!(tx.action, VcpuAction::Continue);
    assert_eq!(tx.tx_byte, Some(b'Z'));

    let lsr = devs.handle_exit(VcpuExitEvent::IoIn { port: 0x3fd });
    assert_eq!(lsr.io_value, Some(0x60));

    let other = devs.handle_exit(VcpuExitEvent::IoOut { port: 0x80, data: 1 });
    assert_eq!(other.tx_byte, None);

    let magic = devs.handle_exit(VcpuExitEvent::MmioRead { addr: 0xd000_0000 });
    assert_eq!(magic.mmio_value, Some(0x7472_6976));

    let miss = devs.handle_exit(VcpuExitEvent::MmioRead { addr: 0xc000_0000 });
    assert_eq!(miss.mmio_value, Some(0));

    let notify = devs.handle_exit(VcpuExitEvent::MmioWrite { addr: 0xd000_0050, value: 1 });
    assert!(notify.notify_tx);
    let quiet = devs.handle_exit(VcpuExitEvent::MmioWrite { addr: 0xd000_0050, value: 0 });
    assert!(!quiet.notify_tx);
}

#[test]
fn configure_machine_builds_the_boot_image() {
    let image = tiny_elf(0x20_0000, 0x20_0000, b"\xf4");
    let mut cmdline = Cmdline::new();
    cmdline.insert_str("console=ttyS0").unwrap();
    let m = configure_machine(2, 128, cmdline, true, &image, None).unwrap();
    assert_eq!(m.entry, 0x20_0000);
    assert_eq!(m.num_vcpus, 2);
    assert_eq!(m.ram.len(), 128 << 20);
    assert!(m.devices.net.is_some());
    // The command line gained the virtio-mmio clause and sits in guest
    // memory, NUL-terminated, with its size in the zero page.
    let cbytes = m.cmdline.as_bytes_nul();
    assert_eq!(&cbytes[..], b"console=ttyS0 virtio_mmio.device=4K@0xd0000000:5\0");
    let in_guest = m.ram.read_vec(0x20000, cbytes.len()).unwrap();
    assert_eq!(in_guest, cbytes);
    assert_eq!(m.ram.read_u32(0x7000 + 0x238).unwrap() as usize, cbytes.len());
    // Zero page magics and the MP table signature.
    assert_eq!(m.ram.read_u16(0x7000 + 0x1fe).unwrap(), 0xaa55);
    assert_eq!(m.ram.read_u32(0x7000 + 0x202).unwrap(), 0x5372_6448);
    assert_eq!(&m.ram.read_vec(0x9fc00, 4).unwrap()[..], b"_MP_");
    // The kernel payload.
    assert_eq!(m.ram.read_u8(0x20_0000).unwrap(), 0xf4);
}

#[test]
fn configure_machine_places_the_initramfs() {
    let image = tiny_elf(0x20_0000, 0x20_0000, b"\xf4");
    let initrd = vec![0xabu8; 0x3456];
    let m = configure_machine(1, 256, Cmdline::new(), false, &image, Some(&initrd)).unwrap();
    let rd = m.ramdisk.unwrap();
    assert_eq!(rd.addr % 4096, 0);
    assert_eq!(rd.size as usize, initrd.len());
    assert_eq!(m.ram.read_u32(0x7000 + 0x218).unwrap(), rd.addr);
    assert_eq!(m.ram.read_u32(0x7000 + 0x21c).unwrap(), rd.size);
    let back = m.ram.read_vec(rd.addr as u64, 16).unwrap();
    assert!(back.iter().all(|&b| b == 0xab));
    assert!(m.devices.net.is_none());
}

#[test]
fn configure_machine_refuses_bad_kernels_and_oversized_initramfs() {
    let mut bad = tiny_elf(0x20_0000, 0x20_0000, b"\xf4");
    bad[0] = 0;
    assert_eq!(
        configure_machine(1, 128, Cmdline::new(), false, &bad, None).err().unwrap(),
        Error::KernelLoadElf,
    );
    let image = tiny_elf(0x20_0000, 0x20_0000, b"\xf4");
    assert_eq!(
        configure_machine(1, 1, Cmdline::new(), false, &image, None).err().unwrap(),
        Error::KernelLoadRange,
    );
    let initrd = vec![0u8; 128 << 20];
    assert_eq!(
        configure_machine(1, 128, Cmdline::new(), false, &image, Some(&initrd)).err().unwrap(),
        Error::InitramfsTooLarge,
    );
}

#[test]
fn tuntap_flags_follow_the_negotiated_features() {
    // Checksum and all segmentation offloads are on offer.
    assert_eq!(virtio_flags_to_tuntap_flags(VIRTIO_FEATURES), 1 | 16 | 2 | 4);
    // No features, no offloads; checksum alone maps alone.
    assert_eq!(virtio_flags_to_tuntap_flags(0), 0);
    assert_eq!(virtio_flags_to_tuntap_flags(1), 1);
}

#[test]
fn configure_machine_writes_the_e820_map() {
    let image = tiny_elf(0x20_0000, 0x20_0000, b"\xf4");
    let m = configure_machine(1, 128, Cmdline::new(), false, &image, None).unwrap();
    let zp = 0x7000u64;
    assert_eq!(m.ram.read_u8(zp + 0x1e8).unwrap(), 2);
    assert_eq!(m.ram.read_u64(zp + 0x2d0).unwrap(), 0);
    assert_eq!(m.ram.read_u64(zp + 0x2d0 + 8).unwrap(), 0x9fc00);
    assert_eq!(m.ram.read_u32(zp + 0x2d0 + 16).unwrap(), 1);
    assert_eq!(m.ram.read_u64(zp + 0x2d0 + 20).unwrap(), 0x100000);
    assert_eq!(m.ram.read_u64(zp + 0x2d0 + 28).unwrap(), (128u64 << 20) - 0x100000);
    assert_eq!(m.ram.read_u32(zp + 0x2d0 + 36).unwrap(), 1);
}

#[test]
fn rx_frame_scatters_across_a_chain() {
    let mut ram = GuestRam::new(1).unwrap();
    let mut d = VirtioNetDevice::new();
    queue_setup(&mut d, &mut ram, 0, 0x1000, 0x2000, 0x3000);
    // Two buffers: 16 bytes, then room for the rest.
    write_desc(&mut ram, 0x1000, 0, 0x8000, 16, 1, 1);
    write_desc(&mut ram, 0x1000, 1, 0x9000, 1024, 0, 0);
    ram.write_u16(0x2004, 0).unwrap();
    ram.write_u16(0x2002, 1).unwrap();
    let mut frame = vec![0u8; 12];
    frame.extend_from_slice(b"a frame that needs both buffers");
    let out = d.rx_deliver(&mut ram, &frame).unwrap();
    assert!(out.delivered);
    assert_eq!(out.written as usize, frame.len());
    let first = ram.read_vec(0x8000, 16).unwrap();
    assert_eq!(&first[..], &frame[..16]);
    let second = ram.read_vec(0x9000, frame.len() - 16).unwrap();
    assert_eq!(&second[..], &frame[16..]);
    assert_eq!(ram.read_u32(0x3008).unwrap(), frame.len() as u32);
}

#[test]
fn empty_drain_arms_the_event_index() {
    let mut ram = GuestRam::new(1).unwrap();
    let mut d = VirtioNetDevice::new();
    // Negotiate the event-index feature, then set up an empty queue.
    d.mmio_write(0x24, 0);
    d.mmio_write(0x20, 0x2000_0000);
    queue_setup(&mut d, &mut ram, 1, 0x1000, 0x2000, 0x3000);
    // The event word sits after the used ring: 0x3000 + 4 + 8*4.
    ram.write_u16(0x3024, 0xbeef).unwrap();
    assert!(d.tx_next_frame(&mut ram).unwrap().is_none());
    assert_eq!(ram.read_u16(0x3024).unwrap(), 0);
    // Without the feature the word is left alone.
    let mut plain = VirtioNetDevice::new();
    queue_setup(&mut plain, &mut ram, 1, 0x1000, 0x2000, 0x3000);
    ram.write_u16(0x3024, 0xbeef).unwrap();
    assert!(plain.tx_next_frame(&mut ram).unwrap().is_none());
    assert_eq!(ram.read_u16(0x3024).unwrap(), 0xbeef);
}
