//! The reset-parse combinator: a pass-through node that re-exposes the
//! base (un-parsed) payload to everything downstream, whatever offset the
//! nodes above it have advanced to.

use vstd::prelude::*;
use crate::batch::Batch;
use crate::driver::Driver;
use crate::interface::ZCSIError;
use crate::mbuf::MBuf;
use crate::pmd::PmdPort;

verus! {

/// Discards the current parse offset: downstream nodes see every payload
/// from its first byte. All mutators pass through unchanged.
pub struct ResetParsingBatch<V: Batch> {
    parent: V,
}

impl<V: Batch> ResetParsingBatch<V> {
    pub fn new(parent: V) -> (r: ResetParsingBatch<V>)
        requires
            parent.wf(),
        ensures
            r.wf(),
            r.slots() == parent.slots(),
            r.cap() == parent.cap(),
            r.off() == 0,
            r.rcvd() == parent.rcvd(),
            r.dropped() == parent.dropped(),
            r.sent() == parent.sent(),
            r.freed() == parent.freed(),
            r.sat_free() == parent.sat_free(),
    {
        ResetParsingBatch { parent }
    }
}

impl<V: Batch> Batch for ResetParsingBatch<V> {
    closed spec fn slots(&self) -> Seq<MBuf> {
        self.parent.slots()
    }

    closed spec fn cap(&self) -> nat {
        self.parent.cap()
    }

    closed spec fn off(&self) -> nat {
        0
    }

    closed spec fn rcvd(&self) -> nat {
        self.parent.rcvd()
    }

    closed spec fn dropped(&self) -> nat {
        self.parent.dropped()
    }

    closed spec fn sent(&self) -> nat {
        self.parent.sent()
    }

    closed spec fn freed(&self) -> nat {
        self.parent.freed()
    }

    closed spec fn sat_free(&self) -> bool {
        self.parent.sat_free()
    }

    closed spec fn wf(&self) -> bool {
        self.parent.wf()
    }

    fn act<D: Driver>(&mut self, port: &mut PmdPort, d: &mut D) -> (r: Result<(), ZCSIError>) {
        self.parent.act(port, d)
    }

    fn done(&mut self) {
        self.parent.done()
    }

    fn send_queue<D: Driver>(&mut self, port: &mut PmdPort, queue: i32, d: &mut D) -> (r: Result<
        u32,
        ZCSIError,
    >) {
        self.parent.send_queue(port, queue, d)
    }

    fn capacity(&self) -> (r: usize) {
        self.parent.capacity()
    }

    fn pkt_count(&self) -> (r: usize) {
        self.parent.pkt_count()
    }

    fn drop_packets(&mut self, idxs: Vec<usize>) -> (r: Option<usize>) {
        self.parent.drop_packets(idxs)
    }

    fn adjust_payload_size(&mut self, idx: usize, delta: isize) -> (r: Option<isize>) {
        self.parent.adjust_payload_size(idx, delta)
    }

    fn adjust_headroom(&mut self, idx: usize, delta: isize) -> (r: Option<isize>) {
        self.parent.adjust_headroom(idx, delta)
    }

    /// The payload from its first byte: the reset in action.
    fn payload(&self, idx: usize) -> (r: &[u8]) {
        let b = self.parent.base_payload(idx);
        proof {
            assert(b@ =~= crate::mbuf::pay_view(self.slots()[idx as int].spec_data(), 0));
        }
        b
    }

    fn base_payload(&self, idx: usize) -> (r: &[u8]) {
        self.parent.base_payload(idx)
    }
}

} // verus!
