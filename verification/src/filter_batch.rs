//! The filter combinator: runs a user predicate over each slot's parsed
//! header and payload, and removes the slots the predicate marks,
//! preserving the relative order of the survivors.

use vstd::prelude::*;
use core::marker::PhantomData;
use crate::batch::{Batch, EndOffset, Predicate};
use crate::driver::Driver;
use crate::interface::ZCSIError;
use crate::mbuf::MBuf;
use crate::packet_batch::{kept, lemma_kept_empty};
use crate::pmd::PmdPort;
use vstd::slice::slice_subrange;

verus! {

/// Drops the slots whose predicate returns `true` ("remove"), after
/// parsing a header of type `H` at the parent's parse offset. A slot
/// whose payload does not parse as `H` is kept.
pub struct FilterBatch<H: EndOffset, V: Batch, P: Predicate<H>> {
    parent: V,
    filter: P,
    capacity: usize,
    header: PhantomData<H>,
}

impl<H: EndOffset, V: Batch, P: Predicate<H>> FilterBatch<H, V, P> {
    pub fn new(parent: V, filter: P) -> (r: FilterBatch<H, V, P>)
        requires
            parent.wf(),
        ensures
            r.wf(),
            r.slots() == parent.slots(),
            r.cap() == parent.cap(),
            r.off() == parent.off(),
            r.rcvd() == parent.rcvd(),
            r.dropped() == parent.dropped(),
            r.sent() == parent.sent(),
            r.freed() == parent.freed(),
            r.sat_free() == parent.sat_free(),
    {
        let capacity = parent.capacity();
        FilterBatch { parent, filter, capacity, header: PhantomData }
    }

    /// One predicate pass: the surviving slots are exactly the batch minus
    /// the dropped subset, in their original relative order.
    pub fn filter_once(&mut self)
        requires
            old(self).wf(),
        ensures
            final(self).wf(),
            final(self).cap() == old(self).cap(),
            final(self).off() == old(self).off(),
            final(self).rcvd() == old(self).rcvd(),
            final(self).sent() == old(self).sent(),
            final(self).freed() == old(self).freed(),
            exists|dr: Seq<usize>|
                final(self).slots() == kept(old(self).slots(), dr),
            final(self).slots().len() <= old(self).slots().len(),
            final(self).dropped() >= old(self).dropped(),
            final(self).sat_free() ==> old(self).sat_free(),
            final(self).sat_free() ==> final(self).dropped() == old(self).dropped() + (old(self).slots().len() - final(self).slots().len()),
    {
        let cnt = self.parent.pkt_count();
        let mut remove: Vec<usize> = Vec::new();
        let mut i: usize = 0;
        while i < cnt
            invariant
                self.parent == old(self).parent,
                self.capacity == old(self).capacity,
                old(self).wf(),
                cnt == self.parent.slots().len(),
                i <= cnt,
                forall|a: int, b: int|
                    0 <= a < b < remove@.len() ==> remove@[a] < remove@[b],
                forall|a: int| 0 <= a < remove@.len() ==> remove@[a] < i,
            decreases cnt - i,
        {
            let b = self.parent.payload(i);
            match H::parse(b) {
                Some(h) => {
                    let k = h.offset();
                    if k <= b.len() {
                        let rest = slice_subrange(b, k, b.len());
                        if self.filter.check(&h, rest) {
                            remove.push(i);
                        }
                    }
                },
                None => {},
            }
            i = i + 1;
        }
        if remove.len() > 0 {
            let ghost dr = remove@;
            let dropped = self.parent.drop_packets(remove);
            proof {
                assert(self.slots() == kept(old(self).slots(), dr));
            }
        } else {
            proof {
                lemma_kept_empty(old(self).slots());
                assert(self.slots() == kept(old(self).slots(), Seq::<usize>::empty()));
            }
        }
    }
}

impl<H: EndOffset, V: Batch, P: Predicate<H>> Batch for FilterBatch<H, V, P> {
    closed spec fn slots(&self) -> Seq<MBuf> {
        self.parent.slots()
    }

    closed spec fn cap(&self) -> nat {
        self.parent.cap()
    }

    closed spec fn off(&self) -> nat {
        self.parent.off()
    }

    closed spec fn rcvd(&self) -> nat {
        self.parent.rcvd()
    }

    closed spec fn dropped(&self) -> nat {
        self.parent.dropped()
    }

    closed spec fn sent(&self) -> nat {
        self.parent.sent()
    }

    closed spec fn freed(&self) -> nat {
        self.parent.freed()
    }

    closed spec fn sat_free(&self) -> bool {
        self.parent.sat_free()
    }

    closed spec fn wf(&self) -> bool {
        self.parent.wf()
    }

    /// Let the upstream act, then run the predicate pass.
    fn act<D: Driver>(&mut self, port: &mut PmdPort, d: &mut D) -> (r: Result<(), ZCSIError>) {
        match self.parent.act(port, d) {
            Ok(()) => {},
            Err(e) => {
                return Err(e);
            },
        }
        self.filter_once();
        Ok(())
    }

    fn done(&mut self) {
        self.parent.done()
    }

    fn send_queue<D: Driver>(&mut self, port: &mut PmdPort, queue: i32, d: &mut D) -> (r: Result<
        u32,
        ZCSIError,
    >) {
        self.parent.send_queue(port, queue, d)
    }

    fn capacity(&self) -> (r: usize) {
        self.parent.capacity()
    }

    fn pkt_count(&self) -> (r: usize) {
        self.parent.pkt_count()
    }

    fn drop_packets(&mut self, idxs: Vec<usize>) -> (r: Option<usize>) {
        self.parent.drop_packets(idxs)
    }

    fn adjust_payload_size(&mut self, idx: usize, delta: isize) -> (r: Option<isize>) {
        self.parent.adjust_payload_size(idx, delta)
    }

    fn adjust_headroom(&mut self, idx: usize, delta: isize) -> (r: Option<isize>) {
        self.parent.adjust_headroom(idx, delta)
    }

    fn payload(&self, idx: usize) -> (r: &[u8]) {
        self.parent.payload(idx)
    }

    fn base_payload(&self, idx: usize) -> (r: &[u8]) {
        self.parent.base_payload(idx)
    }
}

} // verus!
