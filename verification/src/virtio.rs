//! The virtio-net MMIO device: the register file of the virtio MMIO
//! transport, and the split virtqueues it drives over guest memory.

use vstd::prelude::*;
use vstd::bytes::spec_u16_from_le_bytes;
use crate::Error;
use crate::mem::{bytes_at, splice_bytes, u16_at, u32_at, GuestRam};

verus! {

/// The feature bits this device offers: virtio 1.0, event-index and
/// in-order ring handling, and checksum/TSO/UFO offloads both ways.
pub const VIRTIO_FEATURES: u64 = (1u64 << 32) | (1u64 << 29) | (1u64 << 35) | (1u64 << 0) | (1u64
    << 1) | (1u64 << 7) | (1u64 << 8) | (1u64 << 10) | (1u64 << 11) | (1u64 << 12) | (1u64 << 14);

/// The event-index feature bit.
pub const VIRTIO_F_RING_EVENT_IDX: u64 = 1u64 << 29;

/// TUN checksum offload flag.
pub const TUN_F_CSUM: u32 = 1;

/// TUN TCPv4 segmentation offload flag.
pub const TUN_F_TSO4: u32 = 2;

/// TUN TCPv6 segmentation offload flag.
pub const TUN_F_TSO6: u32 = 4;

/// TUN UDP fragmentation offload flag.
pub const TUN_F_UFO: u32 = 16;

/// The TUN offload flags matching the virtio features: checksum offload
/// for the checksum feature, and the segmentation and fragmentation
/// offloads whenever host UFO is offered.
pub open spec fn spec_tuntap_flags(virtio_flags: u64) -> u32 {
    ((if virtio_flags & (1u64 << 0) != 0 {
        TUN_F_CSUM
    } else {
        0u32
    }) | (if virtio_flags & (1u64 << 14) != 0 {
        TUN_F_UFO | TUN_F_TSO4 | TUN_F_TSO6
    } else {
        0u32
    })) as u32
}

/// Compute the TUN offload flags for a feature set.
pub fn virtio_flags_to_tuntap_flags(virtio_flags: u64) -> (r: u32)
    ensures
        r == spec_tuntap_flags(virtio_flags),
{
    let csum: u32 = if virtio_flags & (1u64 << 0) != 0 {
        TUN_F_CSUM
    } else {
        0
    };
    let seg: u32 = if virtio_flags & (1u64 << 14) != 0 {
        TUN_F_UFO | TUN_F_TSO4 | TUN_F_TSO6
    } else {
        0
    };
    csum | seg
}

/// The virtio-mmio magic, "virt" little-endian.
pub const MMIO_MAGIC_VALUE: u32 = 0x7472_6976;

/// Modern virtio-mmio device version.
pub const MMIO_VERSION: u32 = 2;

/// Device id of a network card.
pub const NET_DEVICE_ID: u32 = 1;

/// Largest queue size the device offers.
pub const QUEUE_MAX_SIZE: u16 = 256;

/// Length of the virtio-net header in front of every frame.
pub const VIRTIO_NET_HDR_LEN: usize = 12;

/// One split virtqueue as the driver programs it, with the device's two
/// ring cursors.
#[derive(Debug, Clone, Copy, PartialEq, Eq, Structural)]
pub struct VirtQueue {
    /// Queue size the driver chose.
    pub size: u16,
    /// Whether the driver marked the queue ready.
    pub ready: bool,
    /// Guest address of the descriptor table.
    pub desc: u64,
    /// Guest address of the driver (available) ring.
    pub avail: u64,
    /// Guest address of the device (used) ring.
    pub used: u64,
    /// Next available-ring slot the device will read.
    pub next_avail: u16,
    /// Next used-ring slot the device will write.
    pub next_used: u16,
}

impl VirtQueue {
    /// A queue as it stands after reset.
    pub open spec fn spec_reset() -> VirtQueue {
        VirtQueue {
            size: QUEUE_MAX_SIZE,
            ready: false,
            desc: 0,
            avail: 0,
            used: 0,
            next_avail: 0,
            next_used: 0,
        }
    }

    /// A fresh queue.
    pub fn new() -> (r: VirtQueue)
        ensures
            r == VirtQueue::spec_reset(),
    {
        VirtQueue {
            size: QUEUE_MAX_SIZE,
            ready: false,
            desc: 0,
            avail: 0,
            used: 0,
            next_avail: 0,
            next_used: 0,
        }
    }
}

/// The virtio-net MMIO device state: transport registers and the two
/// queues, receive first.
#[derive(Debug, Clone, Copy, PartialEq, Eq, Structural)]
pub struct VirtioNetDevice {
    /// Which 32-bit half of the device features is selected.
    pub device_features_sel: u32,
    /// Which 32-bit half of the driver features is selected.
    pub driver_features_sel: u32,
    /// The features the driver acknowledged.
    pub driver_features: u64,
    /// The queue the register window addresses.
    pub queue_sel: u32,
    /// The receive queue.
    pub rx_q: VirtQueue,
    /// The transmit queue.
    pub tx_q: VirtQueue,
    /// Device status as the driver wrote it.
    pub status: u32,
    /// Pending interrupt causes; bit 0 is a used-ring update.
    pub interrupt_status: u32,
    /// Bumped when the device configuration changes; it never does here.
    pub config_generation: u32,
}

impl VirtioNetDevice {
    /// A device in its reset state.
    pub open spec fn spec_reset() -> VirtioNetDevice {
        VirtioNetDevice {
            device_features_sel: 0,
            driver_features_sel: 0,
            driver_features: 0,
            queue_sel: 0,
            rx_q: VirtQueue::spec_reset(),
            tx_q: VirtQueue::spec_reset(),
            status: 0,
            interrupt_status: 0,
            config_generation: 0,
        }
    }

    /// A fresh device.
    pub fn new() -> (r: VirtioNetDevice)
        ensures
            r == VirtioNetDevice::spec_reset(),
    {
        VirtioNetDevice {
            device_features_sel: 0,
            driver_features_sel: 0,
            driver_features: 0,
            queue_sel: 0,
            rx_q: VirtQueue::new(),
            tx_q: VirtQueue::new(),
            status: 0,
            interrupt_status: 0,
            config_generation: 0,
        }
    }

    /// The queue the register window addresses: 0 is receive, 1 is
    /// transmit; any other selector reads as a dead queue.
    pub open spec fn spec_selected(&self) -> VirtQueue {
        if self.queue_sel == 0 {
            self.rx_q
        } else if self.queue_sel == 1 {
            self.tx_q
        } else {
            VirtQueue { size: 0, ready: false, desc: 0, avail: 0, used: 0, next_avail: 0, next_used: 0 }
        }
    }

    /// The value a read of register `offset` returns, bit-exact per the
    /// virtio MMIO layout: magic, version 2, network device id, the
    /// selected half of the feature words, the selected queue's size
    /// ceiling and readiness, interrupt status, device status and
    /// configuration generation; write-only and reserved registers read
    /// as zero, as does the empty device-specific configuration.
    pub open spec fn spec_mmio_read(&self, offset: u64) -> u32 {
        if offset == 0x00 {
            MMIO_MAGIC_VALUE
        } else if offset == 0x04 {
            MMIO_VERSION
        } else if offset == 0x08 {
            NET_DEVICE_ID
        } else if offset == 0x0c {
            0u32
        } else if offset == 0x10 {
            if self.device_features_sel == 0 {
                (VIRTIO_FEATURES & 0xffff_ffff) as u32
            } else if self.device_features_sel == 1 {
                (VIRTIO_FEATURES >> 32) as u32
            } else {
                0u32
            }
        } else if offset == 0x34 {
            if self.queue_sel <= 1 {
                QUEUE_MAX_SIZE as u32
            } else {
                0u32
            }
        } else if offset == 0x44 {
            if self.spec_selected().ready {
                1u32
            } else {
                0u32
            }
        } else if offset == 0x60 {
            self.interrupt_status
        } else if offset == 0x70 {
            self.status
        } else if offset == 0xfc {
            self.config_generation
        } else {
            0u32
        }
    }

    /// Read one register.
    pub fn mmio_read(&self, offset: u64) -> (r: u32)
        ensures
            r == self.spec_mmio_read(offset),
    {
        if offset == 0x00 {
            MMIO_MAGIC_VALUE
        } else if offset == 0x04 {
            MMIO_VERSION
        } else if offset == 0x08 {
            NET_DEVICE_ID
        } else if offset == 0x0c {
            0
        } else if offset == 0x10 {
            if self.device_features_sel == 0 {
                (VIRTIO_FEATURES & 0xffff_ffff) as u32
            } else if self.device_features_sel == 1 {
                (VIRTIO_FEATURES >> 32) as u32
            } else {
                0
            }
        } else if offset == 0x34 {
            if self.queue_sel <= 1 {
                QUEUE_MAX_SIZE as u32
            } else {
                0
            }
        } else if offset == 0x44 {
            let q = if self.queue_sel == 0 {
                self.rx_q
            } else if self.queue_sel == 1 {
                self.tx_q
            } else {
                VirtQueue {
                    size: 0,
                    ready: false,
                    desc: 0,
                    avail: 0,
                    used: 0,
                    next_avail: 0,
                    next_used: 0,
                }
            };
            if q.ready {
                1
            } else {
                0
            }
        } else if offset == 0x60 {
            self.interrupt_status
        } else if offset == 0x70 {
            self.status
        } else if offset == 0xfc {
            self.config_generation
        } else {
            0
        }
    }

    /// The device after a write of `v` to register `offset`: selectors,
    /// acknowledged
    /// features half by half, queue geometry for the selected queue,
    /// interrupt acknowledgement, and status, where writing zero resets
    /// the whole device.  Queue-notify carries no state change; it is
    /// reported by `mmio_write` instead.
    pub open spec fn spec_mmio_write(&self, offset: u64, v: u32) -> VirtioNetDevice {
        if offset == 0x14 {
            VirtioNetDevice { device_features_sel: v, ..*self }
        } else if offset == 0x20 {
            if self.driver_features_sel == 0 {
                VirtioNetDevice {
                    driver_features: (self.driver_features & 0xffff_ffff_0000_0000) | (v as u64),
                    ..*self
                }
            } else if self.driver_features_sel == 1 {
                VirtioNetDevice {
                    driver_features: (self.driver_features & 0xffff_ffff) | ((v as u64) << 32),
                    ..*self
                }
            } else {
                *self
            }
        } else if offset == 0x24 {
            VirtioNetDevice { driver_features_sel: v, ..*self }
        } else if offset == 0x30 {
            VirtioNetDevice { queue_sel: v, ..*self }
        } else if offset == 0x38 {
            self.spec_update_queue(VirtQueue { size: v as u16, ..self.spec_selected() })
        } else if offset == 0x44 {
            self.spec_update_queue(VirtQueue { ready: v == 1, ..self.spec_selected() })
        } else if offset == 0x64 {
            VirtioNetDevice { interrupt_status: self.interrupt_status & !v, ..*self }
        } else if offset == 0x70 {
            if v == 0 {
                VirtioNetDevice::spec_reset()
            } else {
                VirtioNetDevice { status: v, ..*self }
            }
        } else if offset == 0x80 {
            self.spec_update_queue(
                VirtQueue {
                    desc: (self.spec_selected().desc & 0xffff_ffff_0000_0000) | (v as u64),
                    ..self.spec_selected()
                },
            )
        } else if offset == 0x84 {
            self.spec_update_queue(
                VirtQueue {
                    desc: (self.spec_selected().desc & 0xffff_ffff) | ((v as u64) << 32),
                    ..self.spec_selected()
                },
            )
        } else if offset == 0x90 {
            self.spec_update_queue(
                VirtQueue {
                    avail: (self.spec_selected().avail & 0xffff_ffff_0000_0000) | (v as u64),
                    ..self.spec_selected()
                },
            )
        } else if offset == 0x94 {
            self.spec_update_queue(
                VirtQueue {
                    avail: (self.spec_selected().avail & 0xffff_ffff) | ((v as u64) << 32),
                    ..self.spec_selected()
                },
            )
        } else if offset == 0xa0 {
            self.spec_update_queue(
                VirtQueue {
                    used: (self.spec_selected().used & 0xffff_ffff_0000_0000) | (v as u64),
                    ..self.spec_selected()
                },
            )
        } else if offset == 0xa4 {
            self.spec_update_queue(
                VirtQueue {
                    used: (self.spec_selected().used & 0xffff_ffff) | ((v as u64) << 32),
                    ..self.spec_selected()
                },
            )
        } else {
            *self
        }
    }

    /// The device with the selected queue replaced; selecting neither
    /// queue makes the write a no-op.
    pub open spec fn spec_update_queue(&self, q: VirtQueue) -> VirtioNetDevice {
        if self.queue_sel == 0 {
            VirtioNetDevice { rx_q: q, ..*self }
        } else if self.queue_sel == 1 {
            VirtioNetDevice { tx_q: q, ..*self }
        } else {
            *self
        }
    }

    /// Write one register; a queue-notify write is handed back for the
    /// caller to drain the named queue.
    pub fn mmio_write(&mut self, offset: u64, v: u32) -> (notify: Option<u32>)
        ensures
            *final(self) == old(self).spec_mmio_write(offset, v),
            notify == (if offset == 0x50 {
                Some(v)
            } else {
                Option::<u32>::None
            }),
    {
        if offset == 0x14 {
            self.device_features_sel = v;
        } else if offset == 0x20 {
            if self.driver_features_sel == 0 {
                self.driver_features = (self.driver_features & 0xffff_ffff_0000_0000) | (v as u64);
            } else if self.driver_features_sel == 1 {
                self.driver_features = (self.driver_features & 0xffff_ffff) | ((v as u64) << 32);
            }
        } else if offset == 0x24 {
            self.driver_features_sel = v;
        } else if offset == 0x30 {
            self.queue_sel = v;
        } else if offset == 0x38 {
            let mut q = self.selected();
            q.size = v as u16;
            self.update_queue(q);
        } else if offset == 0x44 {
            let mut q = self.selected();
            q.ready = v == 1;
            self.update_queue(q);
        } else if offset == 0x50 {
            return Some(v);
        } else if offset == 0x64 {
            self.interrupt_status = self.interrupt_status & !v;
        } else if offset == 0x70 {
            if v == 0 {
                *self = VirtioNetDevice::new();
            } else {
                self.status = v;
            }
        } else if offset == 0x80 {
            let mut q = self.selected();
            q.desc = (q.desc & 0xffff_ffff_0000_0000) | (v as u64);
            self.update_queue(q);
        } else if offset == 0x84 {
            let mut q = self.selected();
            q.desc = (q.desc & 0xffff_ffff) | ((v as u64) << 32);
            self.update_queue(q);
        } else if offset == 0x90 {
            let mut q = self.selected();
            q.avail = (q.avail & 0xffff_ffff_0000_0000) | (v as u64);
            self.update_queue(q);
        } else if offset == 0x94 {
            let mut q = self.selected();
            q.avail = (q.avail & 0xffff_ffff) | ((v as u64) << 32);
            self.update_queue(q);
        } else if offset == 0xa0 {
            let mut q = self.selected();
            q.used = (q.used & 0xffff_ffff_0000_0000) | (v as u64);
            self.update_queue(q);
        } else if offset == 0xa4 {
            let mut q = self.selected();
            q.used = (q.used & 0xffff_ffff) | ((v as u64) << 32);
            self.update_queue(q);
        }
        None
    }

    /// The selected queue, as `spec_selected` describes it.
    fn selected(&self) -> (r: VirtQueue)
        ensures
            r == self.spec_selected(),
    {
        if self.queue_sel == 0 {
            self.rx_q
        } else if self.queue_sel == 1 {
            self.tx_q
        } else {
            VirtQueue { size: 0, ready: false, desc: 0, avail: 0, used: 0, next_avail: 0, next_used: 0 }
        }
    }

    /// Replace the selected queue, as `spec_update_queue` describes it.
    fn update_queue(&mut self, q: VirtQueue)
        ensures
            *final(self) == old(self).spec_update_queue(q),
    {
        if self.queue_sel == 0 {
            self.rx_q = q;
        } else if self.queue_sel == 1 {
            self.tx_q = q;
        }
    }

    /// Whether the driver negotiated the event-index feature.
    pub open spec fn spec_event_idx(&self) -> bool {
        self.driver_features & VIRTIO_F_RING_EVENT_IDX != 0
    }
}

/// The address field of descriptor `i`.
pub open spec fn spec_desc_addr(m: Seq<u8>, dq: int, i: int) -> u64 {
    vstd::bytes::spec_u64_from_le_bytes(m.subrange(dq + 16 * i, dq + 16 * i + 8))
}

/// The length field of descriptor `i`.
pub open spec fn spec_desc_len(m: Seq<u8>, dq: int, i: int) -> u32 {
    vstd::bytes::spec_u32_from_le_bytes(m.subrange(dq + 16 * i + 8, dq + 16 * i + 12))
}

/// The flags field of descriptor `i`; bit 0 chains to the next one.
pub open spec fn spec_desc_flags(m: Seq<u8>, dq: int, i: int) -> u16 {
    spec_u16_from_le_bytes(m.subrange(dq + 16 * i + 12, dq + 16 * i + 14))
}

/// The next field of descriptor `i`.
pub open spec fn spec_desc_next(m: Seq<u8>, dq: int, i: int) -> u16 {
    spec_u16_from_le_bytes(m.subrange(dq + 16 * i + 14, dq + 16 * i + 16))
}

/// The available ring's flags word.
pub open spec fn spec_avail_flags(m: Seq<u8>, aq: int) -> u16 {
    spec_u16_from_le_bytes(m.subrange(aq, aq + 2))
}

/// The available ring's index: one past the last slot the driver filled.
pub open spec fn spec_avail_idx(m: Seq<u8>, aq: int) -> u16 {
    spec_u16_from_le_bytes(m.subrange(aq + 2, aq + 4))
}

/// The head descriptor index in available-ring slot `slot`.
pub open spec fn spec_avail_entry(m: Seq<u8>, aq: int, slot: int) -> u16 {
    spec_u16_from_le_bytes(m.subrange(aq + 4 + 2 * slot, aq + 4 + 2 * slot + 2))
}

/// The used-event word after the available ring: the device signals when
/// its used index passes it.
pub open spec fn spec_used_event(m: Seq<u8>, aq: int, qsize: int) -> u16 {
    spec_u16_from_le_bytes(m.subrange(aq + 4 + 2 * qsize, aq + 4 + 2 * qsize + 2))
}

/// A descriptor chain starting at `i` can be walked: every index stays
/// inside the table, every buffer inside guest memory, and the chain ends
/// within `fuel` steps.
pub open spec fn spec_chain_ok(m: Seq<u8>, dq: int, i: int, qsize: int, fuel: nat) -> bool
    decreases fuel,
{
    if fuel == 0 {
        false
    } else {
        &&& 0 <= i < qsize
        &&& spec_desc_addr(m, dq, i) + spec_desc_len(m, dq, i) <= m.len()
        &&& (spec_desc_flags(m, dq, i) & 1 == 1 ==> spec_chain_ok(
            m,
            dq,
            spec_desc_next(m, dq, i) as int,
            qsize,
            (fuel - 1) as nat,
        ))
    }
}

/// The bytes a descriptor chain covers, buffer after buffer.
pub open spec fn spec_chain_bytes(m: Seq<u8>, dq: int, i: int, fuel: nat) -> Seq<u8>
    decreases fuel,
{
    if fuel == 0 {
        Seq::<u8>::empty()
    } else {
        let b = m.subrange(
            spec_desc_addr(m, dq, i) as int,
            spec_desc_addr(m, dq, i) + spec_desc_len(m, dq, i),
        );
        if spec_desc_flags(m, dq, i) & 1 == 1 {
            b + spec_chain_bytes(m, dq, spec_desc_next(m, dq, i) as int, (fuel - 1) as nat)
        } else {
            b
        }
    }
}

/// The rings of queue `q` fit inside guest memory of `mlen` bytes.
pub open spec fn spec_rings_ok(q: VirtQueue, mlen: int) -> bool {
    &&& q.size > 0
    &&& q.desc + 16 * q.size <= mlen
    &&& q.avail + 4 + 2 * q.size + 2 <= mlen
    &&& q.used + 4 + 8 * q.size + 2 <= mlen
}

/// One frame the guest queued for transmission.
pub struct TxFrame {
    /// The head descriptor index, handed back when the chain is returned.
    pub head: u16,
    /// The frame bytes, virtio-net header stripped.
    pub bytes: Vec<u8>,
}

/// What delivering a host frame to the guest did.
#[derive(Debug, Clone, Copy, PartialEq, Eq, Structural)]
pub struct RxOutcome {
    /// Whether a chain was available and the frame was written.
    pub delivered: bool,
    /// How many bytes went into the chain.
    pub written: u32,
    /// Whether the interrupt line must be kicked.
    pub irq: bool,
}

impl VirtioNetDevice {
    /// Read one descriptor, bounds-checked against the table.
    fn read_desc(ram: &GuestRam, dq: u64, i: u16, qsize: u16) -> (r: (u64, u32, u16, u16))
        requires
            ram.wf(),
            i < qsize,
            dq + 16 * qsize <= ram@.len(),
        ensures
            r.0 == spec_desc_addr(ram@, dq as int, i as int),
            r.1 == spec_desc_len(ram@, dq as int, i as int),
            r.2 == spec_desc_flags(ram@, dq as int, i as int),
            r.3 == spec_desc_next(ram@, dq as int, i as int),
    {
        proof {
            ram.lemma_len_bound();
        }
        let base: u64 = dq + 16 * (i as u64);
        let addr = ram.read_u64(base);
        let len = ram.read_u32(base + 8);
        let flags = ram.read_u16(base + 12);
        let next = ram.read_u16(base + 14);
        proof {
            assert(addr is Ok && len is Ok && flags is Ok && next is Ok);
        }
        (
            match addr {
                Ok(v) => v,
                Err(_) => 0,
            },
            match len {
                Ok(v) => v,
                Err(_) => 0,
            },
            match flags {
                Ok(v) => v,
                Err(_) => 0,
            },
            match next {
                Ok(v) => v,
                Err(_) => 0,
            },
        )
    }

    /// Gather the bytes of the chain headed by `head`, or refuse a chain
    /// that escapes the table, escapes guest memory, or does not end.
    fn chain_gather(ram: &GuestRam, dq: u64, head: u16, qsize: u16) -> (r: Result<Vec<u8>, Error>)
        requires
            ram.wf(),
            qsize > 0,
            dq + 16 * qsize <= ram@.len(),
        ensures
            r is Ok <==> spec_chain_ok(ram@, dq as int, head as int, qsize as int, qsize as nat),
            r is Ok ==> r->Ok_0@ == spec_chain_bytes(ram@, dq as int, head as int, qsize as nat),
            r is Err ==> r->Err_0 == Error::VirtioNetQueue,
    {
        proof {
            ram.lemma_len_bound();
        }
        let mut bytes: Vec<u8> = Vec::new();
        let mut cur: u16 = head;
        let mut fuel: u16 = qsize;
        loop
            invariant
                ram.wf(),
                qsize > 0,
                dq + 16 * qsize <= ram@.len(),
                fuel <= qsize,
                spec_chain_ok(ram@, dq as int, head as int, qsize as int, qsize as nat)
                    <==> spec_chain_ok(ram@, dq as int, cur as int, qsize as int, fuel as nat),
                spec_chain_ok(ram@, dq as int, head as int, qsize as int, qsize as nat)
                    ==> spec_chain_bytes(ram@, dq as int, head as int, qsize as nat) == bytes@
                    + spec_chain_bytes(ram@, dq as int, cur as int, fuel as nat),
            decreases fuel,
        {
            if fuel == 0 || cur >= qsize {
                return Err(Error::VirtioNetQueue);
            }
            let (addr, len, flags, next) = Self::read_desc(ram, dq, cur, qsize);
            match ram.read_vec(addr, len as usize) {
                Ok(mut b) => {
                    let ghost before = bytes@;
                    bytes.append(&mut b);
                    proof {
                        assert(bytes@ =~= before + ram@.subrange(addr as int, addr + len));
                    }
                    if flags & 1 == 1 {
                        cur = next;
                        fuel = fuel - 1;
                    } else {
                        proof {
                            assert(spec_chain_ok(
                                ram@,
                                dq as int,
                                cur as int,
                                qsize as int,
                                fuel as nat,
                            ));
                            assert(spec_chain_bytes(ram@, dq as int, cur as int, fuel as nat)
                                =~= ram@.subrange(addr as int, addr + len));
                        }
                        return Ok(bytes);
                    }
                },
                Err(_) => {
                    return Err(Error::VirtioNetQueue);
                },
            }
        }
    }

    /// Pop the next frame the guest queued for transmission, advancing
    /// the device's available-ring cursor past it.  `None` when the
    /// transmit queue is quiet or not ready; a chain that cannot be
    /// decoded, or a frame shorter than its own header, is refused with
    /// the device unchanged.  When an event-index driver finds the ring
    /// empty, the used ring's event word is armed so the next queued
    /// frame brings a notification; nothing else in memory moves.
    pub fn tx_next_frame(&mut self, ram: &mut GuestRam) -> (r: Result<Option<TxFrame>, Error>)
        requires
            old(ram).wf(),
        ensures
            final(ram).wf(),
            final(ram)@.len() == old(ram)@.len(),
            final(self).rx_q == old(self).rx_q,
            final(self).driver_features == old(self).driver_features,
            final(self).status == old(self).status,
            final(self).interrupt_status == old(self).interrupt_status,
            final(self).tx_q == (VirtQueue {
                next_avail: final(self).tx_q.next_avail,
                ..old(self).tx_q
            }),
            ({
                let q = old(self).tx_q;
                let m = old(ram)@;
                &&& (!q.ready ==> r == Ok::<Option<TxFrame>, Error>(None) && *final(self) == *old(self)
                    && final(ram)@ == m)
                &&& (q.ready && !spec_rings_ok(q, m.len() as int) ==> r == Err::<
                    Option<TxFrame>,
                    Error,
                >(Error::VirtioNetMemory) && *final(self) == *old(self) && final(ram)@ == m)
                &&& (q.ready && spec_rings_ok(q, m.len() as int) && q.next_avail == spec_avail_idx(
                    m,
                    q.avail as int,
                ) ==> r == Ok::<Option<TxFrame>, Error>(None) && *final(self) == *old(self) && (
                if old(self).spec_event_idx() {
                    u16_at(final(ram)@, q.used + 4 + 8 * q.size, q.next_avail) && (forall|j: int|
                        0 <= j < m.len() && !(q.used + 4 + 8 * q.size <= j < q.used + 4 + 8
                            * q.size + 2) ==> final(ram)@[j] == m[j])
                } else {
                    final(ram)@ == m
                }))
                &&& (q.ready && spec_rings_ok(q, m.len() as int) && q.next_avail != spec_avail_idx(
                    m,
                    q.avail as int,
                ) ==> final(ram)@ == m && {
                    let head = spec_avail_entry(m, q.avail as int, (q.next_avail % q.size) as int);
                    let chain = spec_chain_bytes(m, q.desc as int, head as int, q.size as nat);
                    &&& (!spec_chain_ok(m, q.desc as int, head as int, q.size as int, q.size as nat)
                        ==> r == Err::<Option<TxFrame>, Error>(Error::VirtioNetQueue) && *final(self) == *old(self))
                    &&& (spec_chain_ok(m, q.desc as int, head as int, q.size as int, q.size as nat)
                        && chain.len() < VIRTIO_NET_HDR_LEN ==> r == Err::<Option<TxFrame>, Error>(
                        Error::VirtioNetQueue,
                    ) && *final(self) == *old(self))
                    &&& (spec_chain_ok(m, q.desc as int, head as int, q.size as int, q.size as nat)
                        && chain.len() >= VIRTIO_NET_HDR_LEN ==> r is Ok && r->Ok_0 is Some && ({
                        let f = r->Ok_0->0;
                        &&& f.head == head
                        &&& f.bytes@ == chain.skip(VIRTIO_NET_HDR_LEN as int)
                        &&& final(self).tx_q.next_avail == ((q.next_avail + 1) % 0x10000)
                    }))
                })
            }),
    {
        let q = self.tx_q;
        if !q.ready {
            return Ok(None);
        }
        let mlen: u64 = ram.len() as u64;
        if q.size == 0 || q.desc > mlen || 16 * (q.size as u64) > mlen - q.desc || q.avail > mlen
            || 4 + 2 * (q.size as u64) + 2 > mlen - q.avail || q.used > mlen || 4 + 8 * (q.size
            as u64) + 2 > mlen - q.used {
            return Err(Error::VirtioNetMemory);
        }
        let avail_idx = match ram.read_u16(q.avail + 2) {
            Ok(v) => v,
            Err(_) => {
                return Err(Error::VirtioNetMemory);
            },
        };
        if q.next_avail == avail_idx {
            if self.driver_features & VIRTIO_F_RING_EVENT_IDX != 0 {
                write_avail_event(ram, q, q.next_avail);
            }
            return Ok(None);
        }
        let slot: u16 = q.next_avail % q.size;
        let head = match ram.read_u16(q.avail + 4 + 2 * (slot as u64)) {
            Ok(v) => v,
            Err(_) => {
                return Err(Error::VirtioNetMemory);
            },
        };
        let chain = Self::chain_gather(ram, q.desc, head, q.size)?;
        if chain.len() < VIRTIO_NET_HDR_LEN {
            return Err(Error::VirtioNetQueue);
        }
        let mut bytes: Vec<u8> = Vec::new();
        let mut i: usize = VIRTIO_NET_HDR_LEN;
        while i < chain.len()
            invariant
                VIRTIO_NET_HDR_LEN <= i <= chain@.len(),
                bytes@ == chain@.subrange(VIRTIO_NET_HDR_LEN as int, i as int),
            decreases chain@.len() - i,
        {
            bytes.push(chain[i]);
            proof {
                assert(chain@.subrange(VIRTIO_NET_HDR_LEN as int, i + 1) =~= chain@.subrange(
                    VIRTIO_NET_HDR_LEN as int,
                    i as int,
                ).push(chain@[i as int]));
            }
            i = i + 1;
        }
        proof {
            assert(bytes@ =~= chain@.skip(VIRTIO_NET_HDR_LEN as int));
        }
        let na: u16 = if q.next_avail == 0xffff {
            0
        } else {
            q.next_avail + 1
        };
        self.tx_q.next_avail = na;
        Ok(Some(TxFrame { head, bytes }))
    }
}

/// The descriptors of a chain: address and length of each buffer.
pub open spec fn spec_chain_descs(m: Seq<u8>, dq: int, i: int, fuel: nat) -> Seq<(u64, u32)>
    decreases fuel,
{
    if fuel == 0 {
        Seq::<(u64, u32)>::empty()
    } else {
        let d = (spec_desc_addr(m, dq, i), spec_desc_len(m, dq, i));
        if spec_desc_flags(m, dq, i) & 1 == 1 {
            seq![d] + spec_chain_descs(m, dq, spec_desc_next(m, dq, i) as int, (fuel - 1) as nat)
        } else {
            seq![d]
        }
    }
}

/// Offset into the frame at which buffer `k` starts when a frame of
/// `flen` bytes is scattered across `descs` in order.
pub open spec fn spec_scatter_off(descs: Seq<(u64, u32)>, flen: int, k: int) -> int
    decreases k,
{
    if k <= 0 {
        0
    } else {
        vstd::math::min(flen, spec_scatter_off(descs, flen, k - 1) + descs[k - 1].1)
    }
}

/// The buffers of `descs` neither overlap one another nor the used ring
/// of `q`: only then does scattering land each piece intact.
pub open spec fn spec_descs_clean(descs: Seq<(u64, u32)>, q: VirtQueue) -> bool {
    &&& forall|k1: int, k2: int|
        0 <= k1 < descs.len() && 0 <= k2 < descs.len() && k1 != k2 ==> (#[trigger] descs[k1]).0
            + descs[k1].1 <= (#[trigger] descs[k2]).0 || descs[k2].0 + descs[k2].1 <= descs[k1].0
    &&& forall|k: int|
        0 <= k < descs.len() ==> (#[trigger] descs[k]).0 + descs[k].1 <= q.used || q.used + 4 + 8
            * q.size + 2 <= descs[k].0
}

/// The used-ring bytes touched when slot `slot` of queue `q` is written.
pub open spec fn spec_used_spot(q: VirtQueue, j: int) -> bool {
    let epos = q.used + 4 + 8 * ((q.next_used % q.size) as int);
    (epos <= j < epos + 8) || (q.used + 2 <= j < q.used + 4)
}

/// Whether returning the next used element must kick the interrupt: by
/// used-event when the driver negotiated event-index, by the available
/// ring's no-interrupt flag otherwise.
fn read_irq_decision(ram: &GuestRam, q: VirtQueue, event_idx: bool) -> (r: bool)
    requires
        ram.wf(),
        spec_rings_ok(q, ram@.len() as int),
    ensures
        r == (if event_idx {
            spec_used_event(ram@, q.avail as int, q.size as int) == q.next_used
        } else {
            spec_avail_flags(ram@, q.avail as int) & 1 == 0
        }),
{
    proof {
        ram.lemma_len_bound();
    }
    if event_idx {
        let ue = ram.read_u16(q.avail + 4 + 2 * (q.size as u64));
        proof {
            assert(ue is Ok);
        }
        match ue {
            Ok(v) => v == q.next_used,
            Err(_) => false,
        }
    } else {
        let fl = ram.read_u16(q.avail);
        proof {
            assert(fl is Ok);
        }
        match fl {
            Ok(v) => v & 1 == 0,
            Err(_) => false,
        }
    }
}

/// Publish in the used ring's event word which available index the
/// device will read next, so an event-index driver knows when to notify
/// again.
fn write_avail_event(ram: &mut GuestRam, q: VirtQueue, val: u16)
    requires
        old(ram).wf(),
        spec_rings_ok(q, old(ram)@.len() as int),
    ensures
        final(ram).wf(),
        final(ram)@.len() == old(ram)@.len(),
        u16_at(final(ram)@, q.used + 4 + 8 * q.size, val),
        forall|j: int|
            0 <= j < old(ram)@.len() && !(q.used + 4 + 8 * q.size <= j < q.used + 4 + 8 * q.size
                + 2) ==> final(ram)@[j] == old(ram)@[j],
{
    proof {
        ram.lemma_len_bound();
        vstd::bytes::lemma_auto_spec_u16_to_from_le_bytes();
    }
    let w = ram.write_u16(q.used + 4 + 8 * (q.size as u64), val);
    proof {
        assert(w is Ok);
    }
}

/// Append one element to the used ring of `q` and bump its index.
fn push_used(ram: &mut GuestRam, q: VirtQueue, head: u16, len: u32)
    requires
        old(ram).wf(),
        spec_rings_ok(q, old(ram)@.len() as int),
    ensures
        final(ram).wf(),
        final(ram)@.len() == old(ram)@.len(),
        u32_at(final(ram)@, q.used + 4 + 8 * ((q.next_used % q.size) as int), head as u32),
        u32_at(final(ram)@, q.used + 4 + 8 * ((q.next_used % q.size) as int) + 4, len),
        u16_at(final(ram)@, q.used + 2, ((q.next_used + 1) % 0x10000) as u16),
        forall|j: int|
            0 <= j < old(ram)@.len() && !spec_used_spot(q, j) ==> final(ram)@[j] == old(ram)@[j],
{
    proof {
        ram.lemma_len_bound();
        vstd::bytes::lemma_auto_spec_u16_to_from_le_bytes();
        vstd::bytes::lemma_auto_spec_u32_to_from_le_bytes();
    }
    let slot: u16 = q.next_used % q.size;
    let epos: u64 = q.used + 4 + 8 * (slot as u64);
    let w1 = ram.write_u32(epos, head as u32);
    proof {
        assert(w1 is Ok);
    }
    let w2 = ram.write_u32(epos + 4, len);
    proof {
        assert(w2 is Ok);
    }
    let next: u16 = if q.next_used == 0xffff {
        0
    } else {
        q.next_used + 1
    };
    let w3 = ram.write_u16(q.used + 2, next);
    proof {
        assert(w3 is Ok);
    }
}

impl VirtioNetDevice {
    /// Return a transmitted chain to the guest: append `(head, 0)` to the
    /// transmit queue's used ring, bump its index, and say whether the
    /// interrupt line must be kicked, which is then already recorded in
    /// the interrupt status.
    pub fn tx_complete(&mut self, ram: &mut GuestRam, head: u16) -> (r: Result<bool, Error>)
        requires
            old(ram).wf(),
        ensures
            final(ram).wf(),
            final(ram)@.len() == old(ram)@.len(),
            ({
                let q = old(self).tx_q;
                let m = old(ram)@;
                &&& (!spec_rings_ok(q, m.len() as int) ==> r == Err::<bool, Error>(
                    Error::VirtioNetMemory,
                ) && final(ram)@ == m && *final(self) == *old(self))
                &&& (spec_rings_ok(q, m.len() as int) ==> {
                    let irq = if old(self).spec_event_idx() {
                        spec_used_event(m, q.avail as int, q.size as int) == q.next_used
                    } else {
                        spec_avail_flags(m, q.avail as int) & 1 == 0
                    };
                    &&& r == Ok::<bool, Error>(irq)
                    &&& u32_at(
                        final(ram)@,
                        q.used + 4 + 8 * ((q.next_used % q.size) as int),
                        head as u32,
                    )
                    &&& u32_at(
                        final(ram)@,
                        q.used + 4 + 8 * ((q.next_used % q.size) as int) + 4,
                        0u32,
                    )
                    &&& u16_at(final(ram)@, q.used + 2, ((q.next_used + 1) % 0x10000) as u16)
                    &&& forall|j: int|
                        0 <= j < m.len() && !spec_used_spot(q, j) ==> final(ram)@[j] == m[j]
                    &&& *final(self) == (VirtioNetDevice {
                        tx_q: VirtQueue { next_used: ((q.next_used + 1) % 0x10000) as u16, ..q },
                        interrupt_status: old(self).interrupt_status | (if irq {
                            1u32
                        } else {
                            0u32
                        }),
                        ..*old(self)
                    })
                })
            }),
    {
        let q = self.tx_q;
        let mlen: u64 = ram.len() as u64;
        if q.size == 0 || q.desc > mlen || 16 * (q.size as u64) > mlen - q.desc || q.avail > mlen
            || 4 + 2 * (q.size as u64) + 2 > mlen - q.avail || q.used > mlen || 4 + 8 * (q.size
            as u64) + 2 > mlen - q.used {
            return Err(Error::VirtioNetMemory);
        }
        let event_idx = self.driver_features & VIRTIO_F_RING_EVENT_IDX != 0;
        let irq = read_irq_decision(ram, q, event_idx);
        push_used(ram, q, head, 0);
        self.tx_q.next_used = if q.next_used == 0xffff {
            0
        } else {
            q.next_used + 1
        };
        if irq {
            self.interrupt_status = self.interrupt_status | 1;
        } else {
            self.interrupt_status = self.interrupt_status | 0;
        }
        Ok(irq)
    }

    /// Collect the chain headed by `head` as `(address, length)` pairs.
    fn chain_descs(ram: &GuestRam, dq: u64, head: u16, qsize: u16) -> (r: Result<
        Vec<(u64, u32)>,
        Error,
    >)
        requires
            ram.wf(),
            qsize > 0,
            dq + 16 * qsize <= ram@.len(),
        ensures
            r is Ok <==> spec_chain_ok(ram@, dq as int, head as int, qsize as int, qsize as nat),
            r is Ok ==> r->Ok_0@ == spec_chain_descs(ram@, dq as int, head as int, qsize as nat),
            r is Err ==> r->Err_0 == Error::VirtioNetQueue,
    {
        proof {
            ram.lemma_len_bound();
        }
        let mut descs: Vec<(u64, u32)> = Vec::new();
        let mut cur: u16 = head;
        let mut fuel: u16 = qsize;
        loop
            invariant
                ram.wf(),
                qsize > 0,
                dq + 16 * qsize <= ram@.len(),
                ram@.len() <= usize::MAX,
                fuel <= qsize,
                spec_chain_ok(ram@, dq as int, head as int, qsize as int, qsize as nat)
                    <==> spec_chain_ok(ram@, dq as int, cur as int, qsize as int, fuel as nat),
                spec_chain_ok(ram@, dq as int, head as int, qsize as int, qsize as nat)
                    ==> spec_chain_descs(ram@, dq as int, head as int, qsize as nat) == descs@
                    + spec_chain_descs(ram@, dq as int, cur as int, fuel as nat),
            decreases fuel,
        {
            if fuel == 0 || cur >= qsize {
                return Err(Error::VirtioNetQueue);
            }
            let (addr, len, flags, next) = Self::read_desc(ram, dq, cur, qsize);
            if addr > ram.len() as u64 || len as u64 > ram.len() as u64 - addr {
                return Err(Error::VirtioNetQueue);
            }
            let ghost before = descs@;
            descs.push((addr, len));
            if flags & 1 == 1 {
                proof {
                    assert(before.push((addr, len)) =~= before + seq![(addr, len)]);
                }
                cur = next;
                fuel = fuel - 1;
            } else {
                proof {
                    assert(spec_chain_ok(ram@, dq as int, cur as int, qsize as int, fuel as nat));
                    assert(spec_chain_descs(ram@, dq as int, cur as int, fuel as nat) =~= seq![
                        (addr, len),
                    ]);
                    assert(before.push((addr, len)) =~= before + seq![(addr, len)]);
                }
                return Ok(descs);
            }
        }
    }

    /// Hand a host frame to the guest: pop the next available receive
    /// chain, scatter the frame across its buffers in order, and return
    /// the chain with the byte count through the used ring.  Without a
    /// ready queue or an available chain the frame is dropped and the
    /// device says so.
    #[verifier::rlimit(100)]
    #[verifier::spinoff_prover]
    pub fn rx_deliver(&mut self, ram: &mut GuestRam, frame: &[u8]) -> (r: Result<RxOutcome, Error>)
        requires
            old(ram).wf(),
            frame@.len() <= 65565,
        ensures
            final(ram).wf(),
            final(ram)@.len() == old(ram)@.len(),
            ({
                let q = old(self).rx_q;
                let m = old(ram)@;
                &&& (!q.ready ==> r == Ok::<RxOutcome, Error>(
                    RxOutcome { delivered: false, written: 0, irq: false },
                ) && final(ram)@ == m && *final(self) == *old(self))
                &&& (q.ready && !spec_rings_ok(q, m.len() as int) ==> r == Err::<RxOutcome, Error>(
                    Error::VirtioNetMemory,
                ) && final(ram)@ == m && *final(self) == *old(self))
                &&& (q.ready && spec_rings_ok(q, m.len() as int) && q.next_avail == spec_avail_idx(
                    m,
                    q.avail as int,
                ) ==> r == Ok::<RxOutcome, Error>(
                    RxOutcome { delivered: false, written: 0, irq: false },
                ) && *final(self) == *old(self) && (if old(self).spec_event_idx() {
                    u16_at(final(ram)@, q.used + 4 + 8 * q.size, q.next_avail) && (forall|j: int|
                        0 <= j < m.len() && !(q.used + 4 + 8 * q.size <= j < q.used + 4 + 8
                            * q.size + 2) ==> final(ram)@[j] == m[j])
                } else {
                    final(ram)@ == m
                }))
                &&& (q.ready && spec_rings_ok(q, m.len() as int) && q.next_avail != spec_avail_idx(
                    m,
                    q.avail as int,
                ) ==> {
                    let head = spec_avail_entry(m, q.avail as int, (q.next_avail % q.size) as int);
                    let descs = spec_chain_descs(m, q.desc as int, head as int, q.size as nat);
                    let written = spec_scatter_off(descs, frame@.len() as int, descs.len() as int);
                    &&& (!spec_chain_ok(m, q.desc as int, head as int, q.size as int, q.size as nat)
                        ==> r == Err::<RxOutcome, Error>(Error::VirtioNetQueue) && final(ram)@ == m
                        && *final(self) == *old(self))
                    &&& (spec_chain_ok(m, q.desc as int, head as int, q.size as int, q.size as nat)
                        ==> {
                        let irq = if old(self).spec_event_idx() {
                            spec_used_event(m, q.avail as int, q.size as int) == q.next_used
                        } else {
                            spec_avail_flags(m, q.avail as int) & 1 == 0
                        };
                        &&& r == Ok::<RxOutcome, Error>(
                            RxOutcome { delivered: true, written: written as u32, irq },
                        )
                        &&& u32_at(
                            final(ram)@,
                            q.used + 4 + 8 * ((q.next_used % q.size) as int),
                            head as u32,
                        )
                        &&& u32_at(
                            final(ram)@,
                            q.used + 4 + 8 * ((q.next_used % q.size) as int) + 4,
                            written as u32,
                        )
                        &&& u16_at(final(ram)@, q.used + 2, ((q.next_used + 1) % 0x10000) as u16)
                        &&& *final(self) == (VirtioNetDevice {
                            rx_q: VirtQueue {
                                next_avail: ((q.next_avail + 1) % 0x10000) as u16,
                                next_used: ((q.next_used + 1) % 0x10000) as u16,
                                ..q
                            },
                            interrupt_status: old(self).interrupt_status | (if irq {
                                1u32
                            } else {
                                0u32
                            }),
                            ..*old(self)
                        })
                        &&& (spec_descs_clean(descs, q) ==> forall|p: int|
                            0 <= p < descs.len() ==> bytes_at(
                                final(ram)@,
                                (#[trigger] descs[p]).0 as int,
                                frame@.subrange(
                                    spec_scatter_off(descs, frame@.len() as int, p),
                                    spec_scatter_off(descs, frame@.len() as int, p + 1),
                                ),
                            ))
                    })
                })
            }),
    {
        let q = self.rx_q;
        if !q.ready {
            return Ok(RxOutcome { delivered: false, written: 0, irq: false });
        }
        let mlen: u64 = ram.len() as u64;
        if q.size == 0 || q.desc > mlen || 16 * (q.size as u64) > mlen - q.desc || q.avail > mlen
            || 4 + 2 * (q.size as u64) + 2 > mlen - q.avail || q.used > mlen || 4 + 8 * (q.size
            as u64) + 2 > mlen - q.used {
            return Err(Error::VirtioNetMemory);
        }
        let avail_idx = match ram.read_u16(q.avail + 2) {
            Ok(v) => v,
            Err(_) => {
                return Err(Error::VirtioNetMemory);
            },
        };
        if q.next_avail == avail_idx {
            if self.driver_features & VIRTIO_F_RING_EVENT_IDX != 0 {
                write_avail_event(ram, q, q.next_avail);
            }
            return Ok(RxOutcome { delivered: false, written: 0, irq: false });
        }
        let slot: u16 = q.next_avail % q.size;
        let head = match ram.read_u16(q.avail + 4 + 2 * (slot as u64)) {
            Ok(v) => v,
            Err(_) => {
                return Err(Error::VirtioNetMemory);
            },
        };
        let descs = Self::chain_descs(ram, q.desc, head, q.size)?;
        let event_idx = self.driver_features & VIRTIO_F_RING_EVENT_IDX != 0;
        let irq = read_irq_decision(ram, q, event_idx);
        let ghost m0 = ram@;
        let ghost dseq = descs@;
        let ghost flen = frame@.len() as int;
        proof {
            lemma_chain_descs_in_bounds(m0, q.desc as int, head as int, q.size as int, q.size as nat);
            ram.lemma_len_bound();
        }
        let mut count: usize = 0;
        let mut k: usize = 0;
        while k < descs.len()
            invariant
                ram.wf(),
                ram@.len() == m0.len(),
                descs@ == dseq,
                k <= dseq.len(),
                count == spec_scatter_off(dseq, flen, k as int),
                count <= frame@.len(),
                flen == frame@.len(),
                frame@.len() <= 65565,
                forall|p: int| 0 <= p < dseq.len() ==> (#[trigger] dseq[p]).0 + dseq[p].1 <= m0.len(),
                spec_descs_clean(dseq, q) ==> forall|p: int|
                    0 <= p < k ==> bytes_at(
                        ram@,
                        (#[trigger] dseq[p]).0 as int,
                        frame@.subrange(
                            spec_scatter_off(dseq, flen, p),
                            spec_scatter_off(dseq, flen, p + 1),
                        ),
                    ),
            decreases dseq.len() - k,
        {
            let (addr, dlen) = descs[k];
            let left: usize = frame.len() - count;
            let n: usize = if left < dlen as usize {
                left
            } else {
                dlen as usize
            };
            let piece = vstd::slice::slice_subrange(frame, count, count + n);
            let ghost pre = ram@;
            let w = ram.write_slice(addr, piece);
            proof {
                assert(w is Ok);
                assert(spec_scatter_off(dseq, flen, k + 1) == count + n);
                assert(piece@ =~= frame@.subrange(
                    spec_scatter_off(dseq, flen, k as int),
                    spec_scatter_off(dseq, flen, k + 1),
                ));
                if spec_descs_clean(dseq, q) {
                    lemma_scatter_step(pre, ram@, dseq, frame@, q, k as int);
                }
            }
            count = count + n;
            k = k + 1;
        }
        let ghost mscattered = ram@;
        push_used(ram, q, head, count as u32);
        proof {
            assert(count == spec_scatter_off(dseq, flen, dseq.len() as int));
            if spec_descs_clean(dseq, q) {
                lemma_scatter_survives_used(mscattered, ram@, dseq, frame@, q);
            }
        }
        self.rx_q.next_avail = if q.next_avail == 0xffff {
            0
        } else {
            q.next_avail + 1
        };
        self.rx_q.next_used = if q.next_used == 0xffff {
            0
        } else {
            q.next_used + 1
        };
        if irq {
            self.interrupt_status = self.interrupt_status | 1;
        } else {
            self.interrupt_status = self.interrupt_status | 0;
        }
        Ok(RxOutcome { delivered: true, written: count as u32, irq })
    }
}

/// Every buffer a well-formed chain names lies inside guest memory.
proof fn lemma_chain_descs_in_bounds(m: Seq<u8>, dq: int, i: int, qsize: int, fuel: nat)
    requires
        spec_chain_ok(m, dq, i, qsize, fuel),
    ensures
        forall|k: int|
            0 <= k < spec_chain_descs(m, dq, i, fuel).len() ==> (#[trigger] spec_chain_descs(
                m,
                dq,
                i,
                fuel,
            )[k]).0 + spec_chain_descs(m, dq, i, fuel)[k].1 <= m.len(),
    decreases fuel,
{
    if spec_desc_flags(m, dq, i) & 1 == 1 {
        lemma_chain_descs_in_bounds(m, dq, spec_desc_next(m, dq, i) as int, qsize, (fuel - 1) as nat);
        let rest = spec_chain_descs(m, dq, spec_desc_next(m, dq, i) as int, (fuel - 1) as nat);
        let whole = spec_chain_descs(m, dq, i, fuel);
        assert forall|k: int| 0 <= k < whole.len() implies (#[trigger] whole[k]).0 + whole[k].1
            <= m.len() by {
            if k > 0 {
                assert(whole[k] == rest[k - 1]);
            }
        }
    }
}

/// Writing piece `k` of the frame into buffer `k` keeps every earlier
/// buffer intact when the buffers do not overlap: after the write, pieces
/// 0 through `k` all stand in memory.
proof fn lemma_scatter_step(
    pre: Seq<u8>,
    post: Seq<u8>,
    dseq: Seq<(u64, u32)>,
    frame: Seq<u8>,
    q: VirtQueue,
    k: int,
)
    requires
        spec_descs_clean(dseq, q),
        0 <= k < dseq.len(),
        forall|p: int| 0 <= p < dseq.len() ==> (#[trigger] dseq[p]).0 + dseq[p].1 <= pre.len(),
        post == splice_bytes(
            pre,
            dseq[k].0 as int,
            frame.subrange(
                spec_scatter_off(dseq, frame.len() as int, k),
                spec_scatter_off(dseq, frame.len() as int, k + 1),
            ),
        ),
        forall|p: int|
            0 <= p < k ==> bytes_at(
                pre,
                (#[trigger] dseq[p]).0 as int,
                frame.subrange(
                    spec_scatter_off(dseq, frame.len() as int, p),
                    spec_scatter_off(dseq, frame.len() as int, p + 1),
                ),
            ),
    ensures
        forall|p: int|
            0 <= p < k + 1 ==> bytes_at(
                post,
                (#[trigger] dseq[p]).0 as int,
                frame.subrange(
                    spec_scatter_off(dseq, frame.len() as int, p),
                    spec_scatter_off(dseq, frame.len() as int, p + 1),
                ),
            ),
{
    let flen = frame.len() as int;
    lemma_scatter_off_bounds(dseq, flen, k);
    let piece = frame.subrange(
        spec_scatter_off(dseq, flen, k),
        spec_scatter_off(dseq, flen, k + 1),
    );
    let ak = dseq[k].0 as int;
    assert forall|p: int| 0 <= p < k + 1 implies bytes_at(
        post,
        (#[trigger] dseq[p]).0 as int,
        frame.subrange(
            spec_scatter_off(dseq, flen, p),
            spec_scatter_off(dseq, flen, p + 1),
        ),
    ) by {
        lemma_scatter_off_bounds(dseq, flen, p);
        let a1 = dseq[p].0 as int;
        let w1 = spec_scatter_off(dseq, flen, p);
        let w2 = spec_scatter_off(dseq, flen, p + 1);
        if p < k {
            assert(bytes_at(pre, a1, frame.subrange(w1, w2)));
            assert(dseq[p].0 + dseq[p].1 <= dseq[k].0 || dseq[k].0 + dseq[k].1 <= dseq[p].0);
            assert forall|j: int| 0 <= j < w2 - w1 implies #[trigger] post[a1 + j] == pre[a1
                + j] by {
                assert(!(ak <= a1 + j < ak + piece.len()));
            }
        } else {
            assert forall|j: int| 0 <= j < piece.len() implies #[trigger] post[ak + j]
                == piece[j] by {
                assert(ak + j < pre.len());
            }
        }
    }
}

/// Returning the chain through the used ring does not touch its buffers:
/// every scattered piece survives the two used-ring writes.
proof fn lemma_scatter_survives_used(
    pre: Seq<u8>,
    post: Seq<u8>,
    dseq: Seq<(u64, u32)>,
    frame: Seq<u8>,
    q: VirtQueue,
)
    requires
        spec_descs_clean(dseq, q),
        q.size > 0,
        pre.len() == post.len(),
        forall|p: int| 0 <= p < dseq.len() ==> (#[trigger] dseq[p]).0 + dseq[p].1 <= pre.len(),
        forall|j: int| 0 <= j < pre.len() && !spec_used_spot(q, j) ==> post[j] == pre[j],
        forall|p: int|
            0 <= p < dseq.len() ==> bytes_at(
                pre,
                (#[trigger] dseq[p]).0 as int,
                frame.subrange(
                    spec_scatter_off(dseq, frame.len() as int, p),
                    spec_scatter_off(dseq, frame.len() as int, p + 1),
                ),
            ),
    ensures
        forall|p: int|
            0 <= p < dseq.len() ==> bytes_at(
                post,
                (#[trigger] dseq[p]).0 as int,
                frame.subrange(
                    spec_scatter_off(dseq, frame.len() as int, p),
                    spec_scatter_off(dseq, frame.len() as int, p + 1),
                ),
            ),
{
    let flen = frame.len() as int;
    assert forall|p: int| 0 <= p < dseq.len() implies bytes_at(
        post,
        (#[trigger] dseq[p]).0 as int,
        frame.subrange(
            spec_scatter_off(dseq, flen, p),
            spec_scatter_off(dseq, flen, p + 1),
        ),
    ) by {
        lemma_scatter_off_bounds(dseq, flen, p);
        let a1 = dseq[p].0 as int;
        let w1 = spec_scatter_off(dseq, flen, p);
        let w2 = spec_scatter_off(dseq, flen, p + 1);
        assert(dseq[p].0 + dseq[p].1 <= q.used || q.used + 4 + 8 * q.size + 2 <= dseq[p].0);
        assert forall|j: int| 0 <= j < w2 - w1 implies #[trigger] post[a1 + j] == pre[a1 + j] by {
            assert((q.next_used % q.size) < q.size);
            assert(!spec_used_spot(q, a1 + j));
        }
    }
}

/// Scatter offsets are monotone and each step fits its descriptor.
proof fn lemma_scatter_off_bounds(descs: Seq<(u64, u32)>, flen: int, k: int)
    requires
        0 <= k < descs.len(),
        flen >= 0,
    ensures
        0 <= spec_scatter_off(descs, flen, k) <= spec_scatter_off(descs, flen, k + 1),
        spec_scatter_off(descs, flen, k + 1) - spec_scatter_off(descs, flen, k) <= descs[k].1,
        spec_scatter_off(descs, flen, k + 1) <= flen,
    decreases k,
{
    if k > 0 {
        lemma_scatter_off_bounds(descs, flen, k - 1);
    }
}

} // verus!
