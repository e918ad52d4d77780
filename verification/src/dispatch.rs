//! The vCPU exit dispatch rules: what each exit does to the devices and
//! what goes back to the guest or the host.

use vstd::prelude::*;
use crate::layout::{SERIAL_PORT_BASE, SERIAL_PORT_LAST_REGISTER};
use crate::mmio::{covers, MmioBus};
use crate::serial::Uart;
use crate::virtio::VirtioNetDevice;

verus! {

/// One hypervisor exit, as the run loop hands it over.
pub enum VcpuExitEvent {
    /// The guest halted.
    Hlt,
    /// The guest shut the machine down.
    Shutdown,
    /// A port read; the answer byte goes back into the guest.
    IoIn { port: u16 },
    /// A port write of one byte.
    IoOut { port: u16, data: u8 },
    /// A read of a memory-mapped register.
    MmioRead { addr: u64 },
    /// A write of a memory-mapped register.
    MmioWrite { addr: u64, value: u32 },
    /// The run was interrupted; nothing happened.
    Interrupted,
    /// An exit this monitor does not handle.
    Unknown,
}

/// Whether the vCPU keeps running.
#[derive(Debug, Clone, Copy, PartialEq, Eq, Structural)]
pub enum VcpuAction {
    Continue,
    Terminate,
}

/// The shared devices every vCPU dispatches into.
pub struct VmDevices {
    /// The UART on the serial ports.
    pub serial: Uart,
    /// The MMIO ranges, index 0 belonging to the virtio-net device.
    pub bus: MmioBus,
    /// The virtio-net device, when the machine has one.
    pub net: Option<VirtioNetDevice>,
}

/// What the dispatched exit asks of the caller.
pub struct ExitOutcome {
    /// Whether the vCPU thread goes on.
    pub action: VcpuAction,
    /// The byte to hand back for a port read.
    pub io_value: Option<u8>,
    /// The word to hand back for an MMIO read.
    pub mmio_value: Option<u32>,
    /// The byte the UART sent to its sink.
    pub tx_byte: Option<u8>,
    /// Whether the guest kicked the transmit queue: the caller drains it
    /// and writes the frames to the TAP device.
    pub notify_tx: bool,
}

/// Whether `port` belongs to the UART.
pub open spec fn serial_port(port: u16) -> bool {
    SERIAL_PORT_BASE <= port <= SERIAL_PORT_LAST_REGISTER
}

/// Whether `addr` hits the net device: some bus range covers it and the
/// first one that does is range 0.
pub open spec fn net_hit(devs: &VmDevices, addr: u64) -> bool {
    &&& devs.net is Some
    &&& devs.bus.ranges@.len() > 0
    &&& covers(devs.bus.ranges@[0], addr)
}

impl VmDevices {
    /// Dispatch one exit, as the exit table prescribes: halts terminate
    /// the vCPU; serial-port traffic goes to the UART; MMIO traffic goes
    /// to the device whose range covers the address, reads of unclaimed
    /// addresses answer zero, and everything else is a no-op.
    pub fn handle_exit(&mut self, event: VcpuExitEvent) -> (r: ExitOutcome)
        requires
            old(self).serial.wf(),
            old(self).bus.ranges@.len() <= 1,
        ensures
            final(self).serial.wf(),
            final(self).bus.ranges@ == old(self).bus.ranges@,
            r.action is Terminate <==> (event is Hlt || event is Shutdown),
            event is Hlt || event is Shutdown || event is Interrupted || event is Unknown
                ==> final(self).serial == old(self).serial && final(self).net == old(self).net,
            ({
                &&& (event matches VcpuExitEvent::IoOut { port, data } ==> {
                    &&& final(self).net == old(self).net
                    &&& (serial_port(port) ==> ({
                        let off = (port - SERIAL_PORT_BASE) as u8;
                        &&& (r.tx_byte is Some <==> off == 0 && !old(self).serial.dlab())
                        &&& (off == 0 && !old(self).serial.dlab() ==> r.tx_byte == Some(data)
                            && final(self).serial == old(self).serial)
                        &&& final(self).serial.rx@ == old(self).serial.rx@
                    }))
                    &&& (!serial_port(port) ==> final(self).serial == old(self).serial
                        && r.tx_byte is None)
                })
                &&& (event matches VcpuExitEvent::IoIn { port } ==> {
                    &&& final(self).net == old(self).net
                    &&& (serial_port(port) ==> ({
                        let off = (port - SERIAL_PORT_BASE) as u8;
                        &&& r.io_value is Some
                        &&& (off == 5 ==> r.io_value == Some(old(self).serial.spec_lsr())
                            && final(self).serial == old(self).serial)
                        &&& (off == 0 && !old(self).serial.dlab() && old(self).serial.rx@.len() > 0
                            ==> r.io_value == Some(old(self).serial.rx@[0])
                            && final(self).serial.rx@ == old(self).serial.rx@.drop_first())
                        &&& (off == 0 && !old(self).serial.dlab() && old(self).serial.rx@.len()
                            == 0 ==> r.io_value == Some(0u8) && final(self).serial.rx@ == old(
                            self,
                        ).serial.rx@)
                    }))
                    &&& (!serial_port(port) ==> final(self).serial == old(self).serial
                        && r.io_value is None)
                })
                &&& (event matches VcpuExitEvent::MmioWrite { addr, value } ==> {
                    &&& final(self).serial == old(self).serial
                    &&& (net_hit(&old(self), addr) ==> ({
                        let base = old(self).bus.ranges@[0].base;
                        &&& final(self).net == Some(
                            old(self).net->0.spec_mmio_write((addr - base) as u64, value),
                        )
                        &&& (r.notify_tx <==> (addr - base) as u64 == 0x50 && value != 0)
                    }))
                    &&& (!net_hit(&old(self), addr) ==> final(self).net == old(self).net
                        && !r.notify_tx)
                })
                &&& (event matches VcpuExitEvent::MmioRead { addr } ==> {
                    &&& final(self).serial == old(self).serial
                    &&& final(self).net == old(self).net
                    &&& (net_hit(&old(self), addr) ==> r.mmio_value == Some(
                        old(self).net->0.spec_mmio_read((addr - old(self).bus.ranges@[0].base) as u64),
                    ))
                    &&& (!net_hit(&old(self), addr) ==> r.mmio_value == Some(0u32))
                })
            }),
    {
        match event {
            VcpuExitEvent::Hlt | VcpuExitEvent::Shutdown => ExitOutcome {
                action: VcpuAction::Terminate,
                io_value: None,
                mmio_value: None,
                tx_byte: None,
                notify_tx: false,
            },
            VcpuExitEvent::IoOut { port, data } => {
                let mut tx: Option<u8> = None;
                if SERIAL_PORT_BASE <= port && port <= SERIAL_PORT_LAST_REGISTER {
                    let w = self.serial.write((port - SERIAL_PORT_BASE) as u8, data);
                    tx = w.tx;
                }
                ExitOutcome {
                    action: VcpuAction::Continue,
                    io_value: None,
                    mmio_value: None,
                    tx_byte: tx,
                    notify_tx: false,
                }
            },
            VcpuExitEvent::IoIn { port } => {
                let mut v: Option<u8> = None;
                if SERIAL_PORT_BASE <= port && port <= SERIAL_PORT_LAST_REGISTER {
                    v = Some(self.serial.read((port - SERIAL_PORT_BASE) as u8));
                }
                ExitOutcome {
                    action: VcpuAction::Continue,
                    io_value: v,
                    mmio_value: None,
                    tx_byte: None,
                    notify_tx: false,
                }
            },
            VcpuExitEvent::MmioWrite { addr, value } => {
                let mut notify: bool = false;
                let hit = self.bus.lookup(addr);
                if let Some(slot) = hit {
                    let base = self.bus.ranges[slot].base;
                    if slot == 0 {
                        match &mut self.net {
                            Some(net) => {
                                let n = net.mmio_write(addr - base, value);
                                notify = match n {
                                    Some(v) => v != 0,
                                    None => false,
                                };
                            },
                            None => {},
                        }
                    }
                }
                ExitOutcome {
                    action: VcpuAction::Continue,
                    io_value: None,
                    mmio_value: None,
                    tx_byte: None,
                    notify_tx: notify,
                }
            },
            VcpuExitEvent::MmioRead { addr } => {
                let mut v: u32 = 0;
                let hit = self.bus.lookup(addr);
                if let Some(slot) = hit {
                    let base = self.bus.ranges[slot].base;
                    if slot == 0 {
                        match &self.net {
                            Some(net) => {
                                v = net.mmio_read(addr - base);
                            },
                            None => {},
                        }
                    }
                }
                ExitOutcome {
                    action: VcpuAction::Continue,
                    io_value: None,
                    mmio_value: Some(v),
                    tx_byte: None,
                    notify_tx: false,
                }
            },
            VcpuExitEvent::Interrupted | VcpuExitEvent::Unknown => ExitOutcome {
                action: VcpuAction::Continue,
                io_value: None,
                mmio_value: None,
                tx_byte: None,
                notify_tx: false,
            },
        }
    }
}

} // verus!
