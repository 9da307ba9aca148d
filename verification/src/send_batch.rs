//! The send combinator: the terminal sink of a chain. Each tick lets the
//! upstream settle, drains the batch to its transmit queue, and releases
//! whatever the driver did not take.
//!
//! The sink deliberately has its own narrow interface instead of the
//! [`Batch`] one: iterating or mutating a batch that has been sent is an
//! application bug, so those operations do not exist here.

use vstd::prelude::*;
use crate::batch::{balance, Batch};
use crate::driver::Driver;
use crate::interface::ZCSIError;
use crate::mbuf::MBuf;
use crate::pmd::{sat_add, stats_monotone, PmdPort};

verus! {

/// Drains its parent chain to a transmit queue and counts what the driver
/// accepted.
pub struct SendBatch<V: Batch> {
    queue: i32,
    parent: V,
    /// Packets the driver accepted over the life of this node
    /// (saturating).
    pub sent: u64,
}

impl<V: Batch> SendBatch<V> {
    /// The queue this node sends to.
    pub closed spec fn spec_queue(&self) -> int {
        self.queue as int
    }

    /// The value of the `sent` counter.
    pub closed spec fn spec_sent(&self) -> nat {
        self.sent as nat
    }

    /// The descriptor sequence of the chain under this sink.
    pub closed spec fn spec_slots(&self) -> Seq<MBuf> {
        self.parent.slots()
    }

    pub closed spec fn spec_rcvd(&self) -> nat {
        self.parent.rcvd()
    }

    pub closed spec fn spec_dropped(&self) -> nat {
        self.parent.dropped()
    }

    /// What the chain has accounted as sent — the root's counter, which
    /// this node's `sent` mirrors while neither saturates.
    pub closed spec fn spec_sent_total(&self) -> nat {
        self.parent.sent()
    }

    pub closed spec fn spec_freed(&self) -> nat {
        self.parent.freed()
    }

    pub closed spec fn spec_sat_free(&self) -> bool {
        self.parent.sat_free() && self.sent < u64::MAX
    }

    pub closed spec fn wf(&self) -> bool {
        self.parent.wf()
    }

    /// A view of the chain under this sink, for reading its counters.
    pub fn chain(&self) -> (r: &V)
        ensures
            r.slots() == self.spec_slots(),
            r.rcvd() == self.spec_rcvd(),
            r.dropped() == self.spec_dropped(),
            r.sent() == self.spec_sent_total(),
            r.freed() == self.spec_freed(),
            r.wf() == self.wf(),
    {
        &self.parent
    }

    pub fn new(parent: V, queue: i32) -> (r: SendBatch<V>)
        requires
            parent.wf(),
        ensures
            r.wf(),
            r.spec_queue() == queue,
            r.spec_sent() == 0,
            r.spec_slots() == parent.slots(),
            r.spec_rcvd() == parent.rcvd(),
            r.spec_dropped() == parent.dropped(),
            r.spec_sent_total() == parent.sent(),
            r.spec_freed() == parent.freed(),
            r.spec_sat_free() == parent.sat_free(),
    {
        SendBatch { queue, parent, sent: 0 }
    }

    /// One full tick: upstream work, then the drain, then the release of
    /// every remaining buffer. On success the chain ends empty; while no
    /// counter saturates, the buffer balance is exactly preserved and
    /// `sent` grows by exactly what the chain accounted as sent.
    pub fn act<D: Driver>(&mut self, port: &mut PmdPort, d: &mut D) -> (r: Result<(), ZCSIError>)
        requires
            old(self).wf(),
            old(port).wf(),
        ensures
            final(self).wf(),
            final(port).wf(),
            final(port).same_config(old(port)),
            stats_monotone(old(port), final(port)),
            r is Ok ==> final(self).spec_slots().len() == 0,
            final(self).spec_sent() >= old(self).spec_sent(),
            final(self).spec_sat_free() ==> old(self).spec_sat_free(),
            final(self).spec_sat_free() ==> balance(
                final(self).spec_rcvd(),
                final(self).spec_dropped(),
                final(self).spec_sent_total(),
                final(self).spec_freed(),
                final(self).spec_slots().len(),
            ) == balance(
                old(self).spec_rcvd(),
                old(self).spec_dropped(),
                old(self).spec_sent_total(),
                old(self).spec_freed(),
                old(self).spec_slots().len(),
            ),
            final(self).spec_sat_free() ==> final(self).spec_sent() - old(self).spec_sent()
                == final(self).spec_sent_total() - old(self).spec_sent_total(),
    {
        match self.parent.act(port, d) {
            Ok(()) => {},
            Err(e) => {
                return Err(e);
            },
        }
        let n = match self.parent.send_queue(port, self.queue, d) {
            Ok(n) => n,
            Err(e) => {
                return Err(e);
            },
        };
        self.sent = sat_add(self.sent, n as u64);
        self.parent.done();
        Ok(())
    }

    /// Drive one tick of the whole pipeline.
    pub fn process<D: Driver>(&mut self, port: &mut PmdPort, d: &mut D) -> (r: Result<
        (),
        ZCSIError,
    >)
        requires
            old(self).wf(),
            old(port).wf(),
        ensures
            final(self).wf(),
            final(port).wf(),
            final(port).same_config(old(port)),
            stats_monotone(old(port), final(port)),
            r is Ok ==> final(self).spec_slots().len() == 0,
            final(self).spec_sent() >= old(self).spec_sent(),
            final(self).spec_sat_free() ==> old(self).spec_sat_free(),
            final(self).spec_sat_free() ==> balance(
                final(self).spec_rcvd(),
                final(self).spec_dropped(),
                final(self).spec_sent_total(),
                final(self).spec_freed(),
                final(self).spec_slots().len(),
            ) == balance(
                old(self).spec_rcvd(),
                old(self).spec_dropped(),
                old(self).spec_sent_total(),
                old(self).spec_freed(),
                old(self).spec_slots().len(),
            ),
            final(self).spec_sat_free() ==> final(self).spec_sent() - old(self).spec_sent()
                == final(self).spec_sent_total() - old(self).spec_sent_total(),
    {
        self.act(port, d)
    }
}

} // verus!
