//! The operational surface every pipeline node exposes.
//!
//! A combinator chain is a stack of nodes ending in the root
//! [`crate::packet_batch::PacketBatch`]. Every node exposes the same
//! operations — run the tick, release buffers, drain to a queue, drop
//! selected slots, resize headroom and payload, and read per-slot payloads
//! at the node's parse offset. The contracts below tie each operation to
//! the shared abstract state: the descriptor sequence, the capacity bound,
//! the parse offset, and the conservation counters.

use vstd::prelude::*;
use crate::driver::Driver;
use crate::interface::ZCSIError;
use crate::mbuf::{hr_after, len_after, pay_view, MBuf};
use crate::pmd::{sat_add64, stats_monotone, PmdPort};
use crate::packet_batch::kept;

verus! {

/// The net buffer balance of a node: everything that arrived minus
/// everything accounted as dropped, sent, freed, or still held. Every
/// operation of a well-formed chain keeps this at zero as long as no
/// counter has saturated.
pub open spec fn balance(rcvd: nat, dropped: nat, sent: nat, freed: nat, held: nat) -> int {
    rcvd - dropped - sent - freed - held
}


/// Buffer conservation, read off the balance: whenever a chain's balance
/// is zero — as it is for a fresh chain, and as every operation keeps it
/// while no counter saturates — everything that was ever received is
/// accounted for as dropped by a filter, sent to the driver, freed back
/// to the pool, or still held in the batch.
pub proof fn lemma_conservation(rcvd: nat, dropped: nat, sent: nat, freed: nat, held: nat)
    requires
        balance(rcvd, dropped, sent, freed, held) == 0,
    ensures
        rcvd == dropped + sent + freed + held,
{
}

/// A header layer: parses itself from the bytes at the current parse
/// offset and reports its encoded length. Concrete headers live outside
/// the core; implementations carry no proof obligations.
pub trait EndOffset: Sized {
    /// Read one header from the start of `data`, or `None` when the bytes
    /// do not form one.
    fn parse(data: &[u8]) -> Option<Self>;

    /// The encoded length of this header.
    fn offset(&self) -> usize;
}

/// The zero-length header: parsing always succeeds and consumes nothing.
/// It lets a filter look at the raw payload.
pub struct NullHeader;

impl EndOffset for NullHeader {
    fn parse(data: &[u8]) -> Option<Self> {
        Some(NullHeader)
    }

    fn offset(&self) -> usize {
        0
    }
}

/// A filter predicate over a parsed header and the payload behind it.
/// `true` marks the slot for removal. The receiver is mutable so a
/// predicate can carry state across packets.
pub trait Predicate<H> {
    fn check(&mut self, header: &H, payload: &[u8]) -> bool;
}

/// One node of a combinator chain.
///
/// The spec functions describe the node's abstract state: `slots` is the
/// descriptor sequence of the underlying batch, `cap` its fixed capacity,
/// `off` the parse offset this node exposes payloads at, and
/// `rcvd`/`dropped`/`sent`/`freed` the conservation counters accumulated
/// below this node. `sat_free` says no counter has reached its ceiling,
/// the regime in which the counters are exact.
pub trait Batch: Sized {
    spec fn slots(&self) -> Seq<MBuf>;

    spec fn cap(&self) -> nat;

    spec fn off(&self) -> nat;

    spec fn rcvd(&self) -> nat;

    spec fn dropped(&self) -> nat;

    spec fn sent(&self) -> nat;

    spec fn freed(&self) -> nat;

    spec fn sat_free(&self) -> bool;

    spec fn wf(&self) -> bool;

    /// Run one tick of this node and everything above it: parents act
    /// first, then local work. The batch never outgrows its capacity, the
    /// port keeps its identity, every port counter is non-decreasing, and
    /// while no counter saturates the buffer balance is exactly preserved.
    fn act<D: Driver>(&mut self, port: &mut PmdPort, d: &mut D) -> (r: Result<(), ZCSIError>)
        requires
            old(self).wf(),
            old(port).wf(),
        ensures
            final(self).wf(),
            final(port).wf(),
            final(self).cap() == old(self).cap(),
            final(self).off() == old(self).off(),
            final(self).slots().len() <= final(self).cap(),
            final(port).same_config(old(port)),
            stats_monotone(old(port), final(port)),
            final(self).rcvd() >= old(self).rcvd(),
            final(self).dropped() >= old(self).dropped(),
            final(self).sent() == old(self).sent(),
            final(self).freed() == old(self).freed(),
            final(self).sat_free() ==> old(self).sat_free(),
            final(self).sat_free() ==> balance(
                final(self).rcvd(),
                final(self).dropped(),
                final(self).sent(),
                final(self).freed(),
                final(self).slots().len(),
            ) == balance(
                old(self).rcvd(),
                old(self).dropped(),
                old(self).sent(),
                old(self).freed(),
                old(self).slots().len(),
            ),
    ;

    /// Release every buffer still held, returning it to the pool.
    fn done(&mut self)
        requires
            old(self).wf(),
        ensures
            final(self).wf(),
            final(self).slots().len() == 0,
            final(self).cap() == old(self).cap(),
            final(self).off() == old(self).off(),
            final(self).rcvd() == old(self).rcvd(),
            final(self).dropped() == old(self).dropped(),
            final(self).sent() == old(self).sent(),
            final(self).freed() == sat_add64(
                old(self).freed(),
                old(self).slots().len(),
            ),
            final(self).sat_free() ==> old(self).sat_free(),
            final(self).sat_free() ==> balance(
                final(self).rcvd(),
                final(self).dropped(),
                final(self).sent(),
                final(self).freed(),
                final(self).slots().len(),
            ) == balance(
                old(self).rcvd(),
                old(self).dropped(),
                old(self).sent(),
                old(self).freed(),
                old(self).slots().len(),
            ),
    ;

    /// Drain the batch to `(port, queue)`. An out-of-range queue is
    /// `BadQueue` and changes nothing. On success the accepted prefix
    /// moves to the driver and the rejected suffix stays in the batch.
    fn send_queue<D: Driver>(&mut self, port: &mut PmdPort, queue: i32, d: &mut D) -> (r: Result<
        u32,
        ZCSIError,
    >)
        requires
            old(self).wf(),
            old(port).wf(),
        ensures
            final(self).wf(),
            final(port).wf(),
            final(port).same_config(old(port)),
            stats_monotone(old(port), final(port)),
            final(port).rx_stats() == old(port).rx_stats(),
            final(self).cap() == old(self).cap(),
            final(self).off() == old(self).off(),
            final(self).rcvd() == old(self).rcvd(),
            final(self).dropped() == old(self).dropped(),
            final(self).freed() == old(self).freed(),
            r == Err::<u32, ZCSIError>(ZCSIError::BadQueue) <==> !(0 <= queue < old(port).txq()),
            match r {
                Ok(n) => n <= old(self).slots().len() && final(self).slots() == old(self).slots().skip(n as int) && final(self).sent() == sat_add64(
                    old(self).sent(),
                    n as nat,
                ) && final(port).tx_stats() == old(port).tx_stats().update(
                    queue as int,
                    sat_add64(old(port).tx_stats()[queue as int] as nat, n as nat) as u64,
                ),
                Err(e) => final(self).slots() == old(self).slots() && final(self).sent() == old(self).sent() && final(port).tx_stats() == old(port).tx_stats() && (e
                    == ZCSIError::BadQueue || e == ZCSIError::SendFailure),
            },
            final(self).sat_free() ==> old(self).sat_free(),
            final(self).sat_free() ==> balance(
                final(self).rcvd(),
                final(self).dropped(),
                final(self).sent(),
                final(self).freed(),
                final(self).slots().len(),
            ) == balance(
                old(self).rcvd(),
                old(self).dropped(),
                old(self).sent(),
                old(self).freed(),
                old(self).slots().len(),
            ),
    ;

    /// The fixed capacity of the underlying batch.
    fn capacity(&self) -> (r: usize)
        requires
            self.wf(),
        ensures
            r == self.cap(),
    ;

    /// How many slots the batch currently holds.
    fn pkt_count(&self) -> (r: usize)
        requires
            self.wf(),
        ensures
            r == self.slots().len(),
    ;

    /// Free the buffers at the given indices — which must be unique and in
    /// range — and compact the batch, keeping the relative order of the
    /// survivors. The result is the number of slots removed.
    fn drop_packets(&mut self, idxs: Vec<usize>) -> (r: Option<usize>)
        requires
            old(self).wf(),
            forall|a: int, b: int|
                0 <= a < b < idxs@.len() ==> idxs@[a] != idxs@[b],
            forall|a: int| 0 <= a < idxs@.len() ==> idxs@[a] < old(self).slots().len(),
        ensures
            final(self).wf(),
            final(self).cap() == old(self).cap(),
            final(self).off() == old(self).off(),
            final(self).rcvd() == old(self).rcvd(),
            final(self).sent() == old(self).sent(),
            final(self).freed() == old(self).freed(),
            final(self).slots() == kept(old(self).slots(), idxs@),
            final(self).slots().len() <= old(self).slots().len(),
            final(self).dropped() == sat_add64(
                old(self).dropped(),
                (old(self).slots().len() - final(self).slots().len()) as nat,
            ),
            r == Some((old(self).slots().len() - final(self).slots().len()) as usize),
            final(self).dropped() >= old(self).dropped(),
            final(self).sat_free() ==> old(self).sat_free(),
            final(self).sat_free() ==> balance(
                final(self).rcvd(),
                final(self).dropped(),
                final(self).sent(),
                final(self).freed(),
                final(self).slots().len(),
            ) == balance(
                old(self).rcvd(),
                old(self).dropped(),
                old(self).sent(),
                old(self).freed(),
                old(self).slots().len(),
            ),
    ;

    /// Resize the payload of slot `idx` in place (zero-padded growth,
    /// truncating shrink); other slots are untouched. `None` reports an
    /// adjustment the buffer cannot hold, leaving it unchanged.
    fn adjust_payload_size(&mut self, idx: usize, delta: isize) -> (r: Option<isize>)
        requires
            old(self).wf(),
            idx < old(self).slots().len(),
        ensures
            final(self).wf(),
            final(self).cap() == old(self).cap(),
            final(self).off() == old(self).off(),
            final(self).rcvd() == old(self).rcvd(),
            final(self).dropped() == old(self).dropped(),
            final(self).sent() == old(self).sent(),
            final(self).freed() == old(self).freed(),
            final(self).sat_free() == old(self).sat_free(),
            final(self).slots().len() == old(self).slots().len(),
            forall|j: int|
                0 <= j < old(self).slots().len() && j != idx ==> final(self).slots()[j] == old(self).slots()[j],
            final(self).slots()[idx as int].spec_headroom() == old(self).slots()[
                idx as int
            ].spec_headroom(),
            final(self).slots()[idx as int].spec_size() == old(self).slots()[
                idx as int
            ].spec_size(),
            match len_after(
                old(self).slots()[idx as int].spec_headroom() as int,
                old(self).slots()[idx as int].spec_data().len() as int,
                old(self).slots()[idx as int].spec_size() as int,
                delta as int,
            ) {
                Some(nl) => final(self).slots()[idx as int].spec_data().len() == nl && r == Some(
                    nl as isize,
                ),
                None => final(self).slots()[idx as int] == old(self).slots()[idx as int] && r
                    == None::<isize>,
            },
    ;

    /// Consume or release headroom of slot `idx`; other slots are
    /// untouched. `None` reports an adjustment outside the reserve,
    /// leaving the buffer unchanged.
    fn adjust_headroom(&mut self, idx: usize, delta: isize) -> (r: Option<isize>)
        requires
            old(self).wf(),
            idx < old(self).slots().len(),
        ensures
            final(self).wf(),
            final(self).cap() == old(self).cap(),
            final(self).off() == old(self).off(),
            final(self).rcvd() == old(self).rcvd(),
            final(self).dropped() == old(self).dropped(),
            final(self).sent() == old(self).sent(),
            final(self).freed() == old(self).freed(),
            final(self).sat_free() == old(self).sat_free(),
            final(self).slots().len() == old(self).slots().len(),
            forall|j: int|
                0 <= j < old(self).slots().len() && j != idx ==> final(self).slots()[j] == old(self).slots()[j],
            final(self).slots()[idx as int].spec_data() == old(self).slots()[
                idx as int
            ].spec_data(),
            final(self).slots()[idx as int].spec_size() == old(self).slots()[
                idx as int
            ].spec_size(),
            match hr_after(
                old(self).slots()[idx as int].spec_headroom() as int,
                old(self).slots()[idx as int].spec_data().len() as int,
                old(self).slots()[idx as int].spec_size() as int,
                delta as int,
            ) {
                Some(nh) => final(self).slots()[idx as int].spec_headroom() == nh && r == Some(
                    nh as isize,
                ),
                None => final(self).slots()[idx as int] == old(self).slots()[idx as int] && r
                    == None::<isize>,
            },
    ;

    /// The payload of slot `idx` as this node exposes it: the slot's bytes
    /// after this node's parse offset.
    fn payload(&self, idx: usize) -> (r: &[u8])
        requires
            self.wf(),
            idx < self.slots().len(),
        ensures
            r@ == pay_view(self.slots()[idx as int].spec_data(), self.off() as int),
    ;

    /// The base (un-parsed) payload of slot `idx`, regardless of how far
    /// parsing has advanced.
    fn base_payload(&self, idx: usize) -> (r: &[u8])
        requires
            self.wf(),
            idx < self.slots().len(),
        ensures
            r@ == self.slots()[idx as int].spec_data(),
    ;
}

} // verus!
