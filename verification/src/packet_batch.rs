//! The root of every chain: a bounded array of packet descriptors that is
//! filled from a receive queue, drained to a transmit queue, compacted by
//! dropping selected slots, and finally released.

use vstd::prelude::*;
use crate::batch::Batch;
use crate::driver::Driver;
use crate::interface::ZCSIError;
use crate::mbuf::MBuf;
use crate::pmd::{sat_add, sat_add64, PmdPort};

verus! {

/// The slots of `s` that survive dropping the indices in `drop`, in their
/// original relative order.
pub open spec fn kept<T>(s: Seq<T>, drop: Seq<usize>) -> Seq<T>
    decreases s.len(),
{
    if s.len() == 0 {
        Seq::empty()
    } else {
        kept(s.drop_last(), drop) + (if drop.contains((s.len() - 1) as usize) {
            Seq::empty()
        } else {
            seq![s.last()]
        })
    }
}

/// Dropping nothing keeps everything.
pub proof fn lemma_kept_empty<T>(s: Seq<T>)
    ensures
        kept(s, Seq::empty()) == s,
    decreases s.len(),
{
    if s.len() > 0 {
        lemma_kept_empty(s.drop_last());
        assert(kept(s, Seq::empty()) =~= s);
    } else {
        assert(kept(s, Seq::empty()) =~= s);
    }
}

/// How many of the positions `0 .. n` appear in `idxs`.
spec fn hits(idxs: Seq<usize>, n: nat) -> int
    decreases n,
{
    if n == 0 {
        0
    } else {
        hits(idxs, (n - 1) as nat) + if idxs.contains((n - 1) as usize) {
            1int
        } else {
            0int
        }
    }
}

proof fn lemma_kept_len_hits<T>(s: Seq<T>, idxs: Seq<usize>)
    ensures
        kept(s, idxs).len() == s.len() - hits(idxs, s.len()),
        0 <= hits(idxs, s.len()) <= s.len(),
    decreases s.len(),
{
    if s.len() > 0 {
        lemma_kept_len_hits(s.drop_last(), idxs);
    }
}

proof fn lemma_hits_push(idxs: Seq<usize>, x: usize, n: nat)
    requires
        n <= usize::MAX,
    ensures
        hits(idxs.push(x), n) == hits(idxs, n) + if (x as int) < n && !idxs.contains(x) {
            1int
        } else {
            0int
        },
    decreases n,
{
    if n > 0 {
        lemma_hits_push(idxs, x, (n - 1) as nat);
        assert(idxs.push(x).contains((n - 1) as usize) <==> (idxs.contains((n - 1) as usize) || x
            == (n - 1) as usize)) by {
            if idxs.push(x).contains((n - 1) as usize) {
                let w = choose|w: int|
                    0 <= w < idxs.push(x).len() && idxs.push(x)[w] == (n - 1) as usize;
                if w < idxs.len() {
                    assert(idxs[w] == (n - 1) as usize);
                }
            } else {
                if idxs.contains((n - 1) as usize) {
                    let w = choose|w: int| 0 <= w < idxs.len() && idxs[w] == (n - 1) as usize;
                    assert(idxs.push(x)[w] == (n - 1) as usize);
                }
                if x == (n - 1) as usize {
                    assert(idxs.push(x)[idxs.len() as int] == (n - 1) as usize);
                }
            }
        }
    }
}

proof fn lemma_hits_none(idxs: Seq<usize>, n: nat)
    requires
        idxs.len() == 0,
    ensures
        hits(idxs, n) == 0,
    decreases n,
{
    if n > 0 {
        lemma_hits_none(idxs, (n - 1) as nat);
    }
}

proof fn lemma_hits_distinct(idxs: Seq<usize>, n: nat)
    requires
        n <= usize::MAX,
        forall|a: int, b: int| 0 <= a < b < idxs.len() ==> idxs[a] != idxs[b],
        forall|a: int| 0 <= a < idxs.len() ==> (idxs[a] as int) < n,
    ensures
        hits(idxs, n) == idxs.len(),
    decreases idxs.len(),
{
    if idxs.len() == 0 {
        lemma_hits_none(idxs, n);
    } else {
        let pre = idxs.drop_last();
        let x = idxs.last();
        assert(forall|a: int| 0 <= a < pre.len() ==> pre[a] == idxs[a]);
        lemma_hits_distinct(pre, n);
        assert(!pre.contains(x)) by {
            if pre.contains(x) {
                let w = choose|w: int| 0 <= w < pre.len() && pre[w] == x;
                assert(idxs[w] == idxs[idxs.len() - 1]);
            }
        }
        lemma_hits_push(pre, x, n);
        assert(x == idxs[idxs.len() - 1]);
        assert((x as int) < n);
        assert(hits(pre.push(x), n) == pre.len() + 1);
        assert(idxs =~= pre.push(x));
        assert(hits(idxs, n) == hits(pre.push(x), n));
    }
}

/// Dropping `k` distinct in-range indices removes exactly `k` slots: the
/// survivors number the original length minus the dropped set's size.
pub proof fn lemma_kept_len<T>(s: Seq<T>, idxs: Seq<usize>)
    requires
        s.len() <= usize::MAX,
        forall|a: int, b: int| 0 <= a < b < idxs.len() ==> idxs[a] != idxs[b],
        forall|a: int| 0 <= a < idxs.len() ==> idxs[a] < s.len(),
    ensures
        kept(s, idxs).len() == s.len() - idxs.len(),
{
    lemma_kept_len_hits(s, idxs);
    lemma_hits_distinct(idxs, s.len());
}

/// Linear scan for an index.
fn contains_idx(idxs: &Vec<usize>, x: usize) -> (r: bool)
    ensures
        r == idxs@.contains(x),
{
    let mut k: usize = 0;
    while k < idxs.len()
        invariant
            k <= idxs@.len(),
            forall|t: int| 0 <= t < k ==> idxs@[t] != x,
        decreases idxs@.len() - k,
    {
        if idxs[k] == x {
            return true;
        }
        k = k + 1;
    }
    false
}

/// A bounded, ordered collection of packet descriptors processed as a
/// unit, together with the counters that account for every buffer that
/// ever entered it.
pub struct PacketBatch {
    array: Vec<MBuf>,
    capacity: usize,
    dropped_cnt: u64,
    sent_cnt: u64,
    freed_cnt: u64,
}

impl PacketBatch {
    pub closed spec fn spec_slots(&self) -> Seq<MBuf> {
        self.array@
    }

    pub closed spec fn spec_cap(&self) -> nat {
        self.capacity as nat
    }

    pub closed spec fn spec_dropped(&self) -> nat {
        self.dropped_cnt as nat
    }

    pub closed spec fn spec_sent(&self) -> nat {
        self.sent_cnt as nat
    }

    pub closed spec fn spec_freed(&self) -> nat {
        self.freed_cnt as nat
    }

    /// Slots within capacity, capacity within the count range, every
    /// descriptor well-formed.
    pub open spec fn spec_wf(&self) -> bool {
        self.spec_slots().len() <= self.spec_cap() && self.spec_cap() <= u32::MAX
            && (forall|i: int| 0 <= i < self.spec_slots().len() ==> #[trigger] self.spec_slots()[i].wf())
    }

    /// An empty batch of the given capacity.
    pub fn new(capacity: usize) -> (r: PacketBatch)
        requires
            capacity <= u32::MAX,
        ensures
            r.spec_wf(),
            r.spec_cap() == capacity,
            r.spec_slots().len() == 0,
            r.spec_dropped() == 0,
            r.spec_sent() == 0,
            r.spec_freed() == 0,
    {
        PacketBatch {
            array: Vec::new(),
            capacity,
            dropped_cnt: 0,
            sent_cnt: 0,
            freed_cnt: 0,
        }
    }

    /// Fill the empty slots from `(port, queue)`: the existing slots stay,
    /// the burst is appended, and at most the free room is requested. The
    /// count of new arrivals is returned; queue and driver failures
    /// surface unchanged from the port.
    pub fn recv_queue<D: Driver>(&mut self, port: &mut PmdPort, queue: i32, d: &mut D) -> (r:
        Result<u32, ZCSIError>)
        requires
            old(self).spec_wf(),
            old(port).wf(),
        ensures
            final(self).spec_wf(),
            final(port).wf(),
            final(port).same_config(old(port)),
            crate::pmd::stats_monotone(old(port), final(port)),
            final(port).tx_stats() == old(port).tx_stats(),
            final(self).spec_cap() == old(self).spec_cap(),
            final(self).spec_dropped() == old(self).spec_dropped(),
            final(self).spec_sent() == old(self).spec_sent(),
            final(self).spec_freed() == old(self).spec_freed(),
            r == Err::<u32, ZCSIError>(ZCSIError::BadQueue) <==> !(0 <= queue < old(port).rxq()),
            match r {
                Ok(n) => final(self).spec_slots().len() == old(self).spec_slots().len() + n
                    && final(self).spec_slots().take(old(self).spec_slots().len() as int) == old(self).spec_slots() && final(port).rx_stats() == old(port).rx_stats().update(
                    queue as int,
                    sat_add64(old(port).rx_stats()[queue as int] as nat, n as nat) as u64,
                ),
                Err(e) => final(self).spec_slots() == old(self).spec_slots()
                    && final(port).rx_stats() == old(port).rx_stats() && (e
                    == ZCSIError::BadQueue || e == ZCSIError::RecvFailure),
            },
    {
        let room = self.capacity - self.array.len();
        match port.recv_queue(d, queue, room) {
            Ok(mut v) => {
                let n = v.len() as u32;
                self.array.append(&mut v);
                proof {
                    assert(final(self).spec_slots().take(old(self).spec_slots().len() as int)
                        =~= old(self).spec_slots());
                }
                Ok(n)
            },
            Err(e) => Err(e),
        }
    }

    /// Free every remaining buffer and account it; the batch ends empty.
    pub fn deallocate_batch(&mut self)
        requires
            old(self).spec_wf(),
        ensures
            final(self).spec_wf(),
            final(self).spec_cap() == old(self).spec_cap(),
            final(self).spec_slots().len() == 0,
            final(self).spec_dropped() == old(self).spec_dropped(),
            final(self).spec_sent() == old(self).spec_sent(),
            final(self).spec_freed() == sat_add64(
                old(self).spec_freed(),
                old(self).spec_slots().len(),
            ),
    {
        let n = self.array.len();
        self.array = Vec::new();
        self.freed_cnt = sat_add(self.freed_cnt, n as u64);
    }
}

impl Batch for PacketBatch {
    open spec fn slots(&self) -> Seq<MBuf> {
        self.spec_slots()
    }

    open spec fn cap(&self) -> nat {
        self.spec_cap()
    }

    open spec fn off(&self) -> nat {
        0
    }

    open spec fn rcvd(&self) -> nat {
        0
    }

    open spec fn dropped(&self) -> nat {
        self.spec_dropped()
    }

    open spec fn sent(&self) -> nat {
        self.spec_sent()
    }

    open spec fn freed(&self) -> nat {
        self.spec_freed()
    }

    open spec fn sat_free(&self) -> bool {
        self.spec_dropped() < u64::MAX && self.spec_sent() < u64::MAX && self.spec_freed()
            < u64::MAX
    }

    open spec fn wf(&self) -> bool {
        self.spec_wf()
    }

    /// The root has no parent and no work of its own: a tick starts here.
    fn act<D: Driver>(&mut self, port: &mut PmdPort, d: &mut D) -> (r: Result<(), ZCSIError>) {
        Ok(())
    }

    fn done(&mut self) {
        self.deallocate_batch();
    }

    fn send_queue<D: Driver>(&mut self, port: &mut PmdPort, queue: i32, d: &mut D) -> (r: Result<
        u32,
        ZCSIError,
    >) {
        match port.send_queue(d, queue, &mut self.array) {
            Ok(n) => {
                self.sent_cnt = sat_add(self.sent_cnt, n as u64);
                Ok(n)
            },
            Err(e) => Err(e),
        }
    }

    fn capacity(&self) -> (r: usize) {
        self.capacity
    }

    fn pkt_count(&self) -> (r: usize) {
        self.array.len()
    }

    fn drop_packets(&mut self, idxs: Vec<usize>) -> (r: Option<usize>) {
        let ghost orig = self.array@;
        let n = self.array.len();
        let mut rev: Vec<MBuf> = Vec::new();
        while self.array.len() > 0
            invariant
                rev@.len() + self.array@.len() == n,
                self.array@ == orig.take(self.array@.len() as int),
                forall|j: int| 0 <= j < rev@.len() ==> rev@[j] == orig[n - 1 - j],
                orig.len() == n,
                self.capacity == old(self).capacity,
                self.dropped_cnt == old(self).dropped_cnt,
                self.sent_cnt == old(self).sent_cnt,
                self.freed_cnt == old(self).freed_cnt,
            decreases self.array@.len(),
        {
            let ghost alen = self.array@.len() as int;
            proof {
                assert(self.array@[alen - 1] == orig.take(alen)[alen - 1]);
                assert(orig.take(alen).drop_last() =~= orig.take(alen - 1));
            }
            let b = self.array.pop().unwrap();
            rev.push(b);
        }
        let mut out: Vec<MBuf> = Vec::new();
        let mut i: usize = 0;
        while i < n
            invariant
                i <= n,
                orig.len() == n,
                rev@.len() == n - i,
                forall|j: int| 0 <= j < rev@.len() ==> rev@[j] == orig[n - 1 - j],
                out@ == kept(orig.take(i as int), idxs@),
                out@.len() <= i,
                forall|j: int| 0 <= j < out@.len() ==> #[trigger] out@[j].wf(),
                forall|j: int| 0 <= j < n ==> #[trigger] orig[j].wf(),
                self.capacity == old(self).capacity,
                self.dropped_cnt == old(self).dropped_cnt,
                self.sent_cnt == old(self).sent_cnt,
                self.freed_cnt == old(self).freed_cnt,
            decreases n - i,
        {
            let b = rev.pop().unwrap();
            proof {
                assert(b == orig[i as int]);
                assert(orig.take(i + 1).drop_last() =~= orig.take(i as int));
                assert(orig.take(i + 1).last() == orig[i as int]);
            }
            if contains_idx(&idxs, i) {
                // the buffer at a dropped index is released here
                proof {
                    assert(kept(orig.take(i + 1), idxs@) =~= out@);
                }
            } else {
                out.push(b);
                proof {
                    assert(kept(orig.take(i + 1), idxs@) =~= out@);
                }
            }
            i = i + 1;
        }
        proof {
            assert(orig.take(n as int) =~= orig);
        }
        let freed_n = n - out.len();
        self.array = out;
        self.dropped_cnt = sat_add(self.dropped_cnt, freed_n as u64);
        Some(freed_n)
    }

    fn adjust_payload_size(&mut self, idx: usize, delta: isize) -> (r: Option<isize>) {
        let b = &mut self.array[idx];
        let r = b.adjust_payload_size(delta);
        proof {
            assert(self.spec_slots() =~= old(self).spec_slots().update(
                idx as int,
                self.spec_slots()[idx as int],
            ));
        }
        r
    }

    fn adjust_headroom(&mut self, idx: usize, delta: isize) -> (r: Option<isize>) {
        let b = &mut self.array[idx];
        let r = b.adjust_headroom(delta);
        proof {
            assert(final(self).spec_slots() == old(self).spec_slots().update(
                idx as int,
                final(self).spec_slots()[idx as int],
            ));
        }
        r
    }

    fn payload(&self, idx: usize) -> (r: &[u8]) {
        self.array[idx].payload(0)
    }

    fn base_payload(&self, idx: usize) -> (r: &[u8]) {
        let b = self.array[idx].payload(0);
        proof {
            assert(self.slots()[idx as int].spec_data().skip(0) =~= self.slots()[
                idx as int
            ].spec_data());
        }
        b
    }
}

} // verus!
