//! The receive combinator: binds a batch to a receive queue and fills it
//! on every tick.

use vstd::prelude::*;
use crate::batch::Batch;
use crate::driver::Driver;
use crate::interface::ZCSIError;
use crate::mbuf::MBuf;
use crate::packet_batch::PacketBatch;
use crate::pmd::{sat_add, PmdPort};

verus! {

/// The default capacity of a fresh receive root.
pub const DEFAULT_CAPACITY: usize = 32;

/// The root combinator of a chain: each tick pulls a burst from its queue
/// into the batch and counts the arrivals.
pub struct ReceiveBatch {
    parent: PacketBatch,
    queue: i32,
    /// Packets received over the life of this node (saturating).
    pub received: u64,
}

impl ReceiveBatch {
    /// The queue this node receives from.
    pub closed spec fn spec_queue(&self) -> int {
        self.queue as int
    }

    /// The value of the `received` counter.
    pub closed spec fn spec_received(&self) -> nat {
        self.received as nat
    }

    /// Wrap an existing batch.
    pub fn new_with_parent(parent: PacketBatch, queue: i32) -> (r: ReceiveBatch)
        requires
            parent.spec_wf(),
        ensures
            r.wf(),
            r.slots() == parent.spec_slots(),
            r.cap() == parent.spec_cap(),
            r.spec_queue() == queue,
            r.spec_received() == 0,
            r.rcvd() == 0,
            r.dropped() == parent.spec_dropped(),
            r.sent() == parent.spec_sent(),
            r.freed() == parent.spec_freed(),
    {
        ReceiveBatch { parent, queue, received: 0 }
    }

    /// A receive node over a fresh batch of the default capacity.
    pub fn new(queue: i32) -> (r: ReceiveBatch)
        ensures
            r.wf(),
            r.slots().len() == 0,
            r.cap() == DEFAULT_CAPACITY,
            r.spec_queue() == queue,
            r.spec_received() == 0,
            r.rcvd() == 0,
            r.dropped() == 0,
            r.sent() == 0,
            r.freed() == 0,
            r.sat_free(),
    {
        ReceiveBatch { parent: PacketBatch::new(DEFAULT_CAPACITY), queue, received: 0 }
    }
}

impl Batch for ReceiveBatch {
    closed spec fn slots(&self) -> Seq<MBuf> {
        self.parent.slots()
    }

    closed spec fn cap(&self) -> nat {
        self.parent.cap()
    }

    closed spec fn off(&self) -> nat {
        self.parent.off()
    }

    closed spec fn rcvd(&self) -> nat {
        (self.parent.rcvd() + self.received) as nat
    }

    closed spec fn dropped(&self) -> nat {
        self.parent.dropped()
    }

    closed spec fn sent(&self) -> nat {
        self.parent.sent()
    }

    closed spec fn freed(&self) -> nat {
        self.parent.freed()
    }

    closed spec fn sat_free(&self) -> bool {
        self.parent.sat_free() && self.received < u64::MAX
    }

    closed spec fn wf(&self) -> bool {
        self.parent.wf()
    }

    /// Fill the free room of the batch from the bound queue; the count of
    /// arrivals joins `received`.
    fn act<D: Driver>(&mut self, port: &mut PmdPort, d: &mut D) -> (r: Result<(), ZCSIError>) {
        match self.parent.act(port, d) {
            Ok(()) => {},
            Err(e) => {
                return Err(e);
            },
        }
        match self.parent.recv_queue(port, self.queue, d) {
            Ok(n) => {
                self.received = sat_add(self.received, n as u64);
                Ok(())
            },
            Err(e) => Err(e),
        }
    }

    fn done(&mut self) {
        self.parent.deallocate_batch();
    }

    fn send_queue<D: Driver>(&mut self, port: &mut PmdPort, queue: i32, d: &mut D) -> (r: Result<
        u32,
        ZCSIError,
    >) {
        self.parent.send_queue(port, queue, d)
    }

    fn capacity(&self) -> (r: usize) {
        self.parent.capacity()
    }

    fn pkt_count(&self) -> (r: usize) {
        self.parent.pkt_count()
    }

    fn drop_packets(&mut self, idxs: Vec<usize>) -> (r: Option<usize>) {
        self.parent.drop_packets(idxs)
    }

    fn adjust_payload_size(&mut self, idx: usize, delta: isize) -> (r: Option<isize>) {
        self.parent.adjust_payload_size(idx, delta)
    }

    fn adjust_headroom(&mut self, idx: usize, delta: isize) -> (r: Option<isize>) {
        self.parent.adjust_headroom(idx, delta)
    }

    fn payload(&self, idx: usize) -> (r: &[u8]) {
        self.parent.payload(idx)
    }

    fn base_payload(&self, idx: usize) -> (r: &[u8]) {
        self.parent.base_payload(idx)
    }
}

} // verus!
