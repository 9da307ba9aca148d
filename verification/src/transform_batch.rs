//! The header-transform combinator: advances the parse offset past one
//! header layer of a declared length, so downstream nodes see the next
//! layer's payload. Resize operations pass through to the parent.

use vstd::prelude::*;
use crate::batch::Batch;
use crate::driver::Driver;
use crate::interface::ZCSIError;
use crate::mbuf::{pay_view, MBuf};
use crate::pmd::PmdPort;
use vstd::slice::slice_subrange;

verus! {

/// Exposes each payload `advance` bytes further in than its parent does:
/// the declared encoded length of the header layer being stepped over.
pub struct TransformBatch<V: Batch> {
    parent: V,
    advance: usize,
}

impl<V: Batch> TransformBatch<V> {
    /// Step over a header layer of `advance` bytes.
    pub fn new(parent: V, advance: usize) -> (r: TransformBatch<V>)
        requires
            parent.wf(),
        ensures
            r.wf(),
            r.slots() == parent.slots(),
            r.cap() == parent.cap(),
            r.off() == parent.off() + advance,
            r.rcvd() == parent.rcvd(),
            r.dropped() == parent.dropped(),
            r.sent() == parent.sent(),
            r.freed() == parent.freed(),
            r.sat_free() == parent.sat_free(),
    {
        TransformBatch { parent, advance }
    }
}

impl<V: Batch> Batch for TransformBatch<V> {
    closed spec fn slots(&self) -> Seq<MBuf> {
        self.parent.slots()
    }

    closed spec fn cap(&self) -> nat {
        self.parent.cap()
    }

    closed spec fn off(&self) -> nat {
        (self.parent.off() + self.advance) as nat
    }

    closed spec fn rcvd(&self) -> nat {
        self.parent.rcvd()
    }

    closed spec fn dropped(&self) -> nat {
        self.parent.dropped()
    }

    closed spec fn sent(&self) -> nat {
        self.parent.sent()
    }

    closed spec fn freed(&self) -> nat {
        self.parent.freed()
    }

    closed spec fn sat_free(&self) -> bool {
        self.parent.sat_free()
    }

    closed spec fn wf(&self) -> bool {
        self.parent.wf()
    }

    fn act<D: Driver>(&mut self, port: &mut PmdPort, d: &mut D) -> (r: Result<(), ZCSIError>) {
        self.parent.act(port, d)
    }

    fn done(&mut self) {
        self.parent.done()
    }

    fn send_queue<D: Driver>(&mut self, port: &mut PmdPort, queue: i32, d: &mut D) -> (r: Result<
        u32,
        ZCSIError,
    >) {
        self.parent.send_queue(port, queue, d)
    }

    fn capacity(&self) -> (r: usize) {
        self.parent.capacity()
    }

    fn pkt_count(&self) -> (r: usize) {
        self.parent.pkt_count()
    }

    fn drop_packets(&mut self, idxs: Vec<usize>) -> (r: Option<usize>) {
        self.parent.drop_packets(idxs)
    }

    fn adjust_payload_size(&mut self, idx: usize, delta: isize) -> (r: Option<isize>) {
        self.parent.adjust_payload_size(idx, delta)
    }

    fn adjust_headroom(&mut self, idx: usize, delta: isize) -> (r: Option<isize>) {
        self.parent.adjust_headroom(idx, delta)
    }

    /// The parent's payload with this node's header layer stepped over.
    fn payload(&self, idx: usize) -> (r: &[u8]) {
        let b = self.parent.payload(idx);
        let ghost data = self.slots()[idx as int].spec_data();
        if self.advance <= b.len() {
            let r = slice_subrange(b, self.advance, b.len());
            proof {
                assert(r@ =~= pay_view(data, self.off() as int));
            }
            r
        } else {
            let r = slice_subrange(b, 0, 0);
            proof {
                assert(r@ =~= pay_view(data, self.off() as int));
            }
            r
        }
    }

    fn base_payload(&self, idx: usize) -> (r: &[u8]) {
        self.parent.base_payload(idx)
    }
}

} // verus!
