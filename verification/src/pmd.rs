//! The port abstraction over the driver: lifecycle, queue-checked receive
//! and send bursts, and per-queue counters.

use vstd::prelude::*;
use crate::driver::{Driver, MacAddress, SendOutcome};
use crate::interface::ZCSIError;
use crate::mbuf::MBuf;

verus! {

/// 64-bit saturating addition, the arithmetic every counter uses.
pub open spec fn sat_add64(a: nat, k: nat) -> nat {
    if a + k <= u64::MAX {
        (a + k) as nat
    } else {
        u64::MAX as nat
    }
}

/// Saturating counter update.
pub fn sat_add(a: u64, k: u64) -> (r: u64)
    ensures
        r == sat_add64(a as nat, k as nat),
        r >= a,
{
    if a <= u64::MAX - k {
        a + k
    } else {
        u64::MAX
    }
}

/// All-zero counters for `n` queues.
pub open spec fn fresh_stats(n: nat) -> Seq<u64> {
    Seq::new(n, |i: int| 0u64)
}

/// Counters only ever grow: every queue's pair in `b` is at least what it
/// was in `a`.
pub open spec fn stats_monotone(a: &PmdPort, b: &PmdPort) -> bool {
    b.rx_stats().len() == a.rx_stats().len() && b.tx_stats().len() == a.tx_stats().len() && (
    forall|q: int|
        0 <= q < a.rx_stats().len() ==> a.rx_stats()[q] <= #[trigger] b.rx_stats()[q]) && (
    forall|q: int|
        0 <= q < a.tx_stats().len() ==> a.tx_stats()[q] <= #[trigger] b.tx_stats()[q])
}

/// Default ring sizes for the convenience constructors.
const NUM_RXD: i32 = 256 * 4;
const NUM_TXD: i32 = 256;

/// A handle to one driver port with `R` receive queues and `T` transmit
/// queues and a saturating 64-bit counter pair per queue.
///
/// The owning handle (`should_close` set) releases the driver port in
/// [`PmdPort::close`]; a [`PmdPort::copy`] never does, so the port is
/// released at most once.
pub struct PmdPort {
    connected: bool,
    port: i32,
    rxqs: usize,
    txqs: usize,
    should_close: bool,
    stats_rx: Vec<u64>,
    stats_tx: Vec<u64>,
}

impl PmdPort {
    /// The driver port id.
    pub closed spec fn id(&self) -> int {
        self.port as int
    }

    /// Declared receive-queue count `R`.
    pub closed spec fn rxq(&self) -> nat {
        self.rxqs as nat
    }

    /// Declared transmit-queue count `T`.
    pub closed spec fn txq(&self) -> nat {
        self.txqs as nat
    }

    /// Whether this handle owns the driver port and releases it on close.
    pub closed spec fn closes(&self) -> bool {
        self.should_close
    }

    /// Whether the driver side is attached.
    pub closed spec fn is_connected(&self) -> bool {
        self.connected
    }

    /// Packets received so far, per receive queue.
    pub closed spec fn rx_stats(&self) -> Seq<u64> {
        self.stats_rx@
    }

    /// Packets sent so far, per transmit queue.
    pub closed spec fn tx_stats(&self) -> Seq<u64> {
        self.stats_tx@
    }

    /// One counter per declared queue.
    pub open spec fn wf(&self) -> bool {
        self.rx_stats().len() == self.rxq() && self.tx_stats().len() == self.txq()
    }

    /// The identity of a port: everything but the counters.
    pub open spec fn same_config(&self, o: &PmdPort) -> bool {
        self.id() == o.id() && self.rxq() == o.rxq() && self.txq() == o.txq()
            && self.closes() == o.closes() && self.is_connected() == o.is_connected()
    }

    /// Open a physical port with `rxqs` receive rings of `nrxd` slots and
    /// `txqs` transmit rings of `ntxd` slots, pinned to the given cores.
    /// The resulting handle owns the port. Fails with
    /// `FailedToInitializePort` when the driver rejects the configuration.
    pub fn new<D: Driver>(
        d: &mut D,
        port: i32,
        rxqs: usize,
        txqs: usize,
        rx_cores: &[i32],
        tx_cores: &[i32],
        nrxd: i32,
        ntxd: i32,
        loopback: bool,
        tso: bool,
        csumoffload: bool,
    ) -> (r: Result<PmdPort, ZCSIError>)
        requires
            rx_cores@.len() == rxqs,
            tx_cores@.len() == txqs,
        ensures
            match r {
                Ok(p) => p.wf() && p.id() == port && p.rxq() == rxqs && p.txq() == txqs
                    && p.closes() && p.is_connected() && p.rx_stats() == fresh_stats(rxqs as nat)
                    && p.tx_stats() == fresh_stats(txqs as nat),
                Err(e) => e == ZCSIError::FailedToInitializePort,
            },
    {
        let ok = d.init_port(port, rxqs, txqs, rx_cores, tx_cores, nrxd, ntxd, loopback, tso,
            csumoffload);
        if ok {
            let p = PmdPort {
                connected: true,
                port,
                rxqs,
                txqs,
                should_close: true,
                stats_rx: vec![0u64; rxqs],
                stats_tx: vec![0u64; txqs],
            };
            proof {
                assert(p.rx_stats() =~= fresh_stats(rxqs as nat));
                assert(p.tx_stats() =~= fresh_stats(txqs as nat));
            }
            Ok(p)
        } else {
            Err(ZCSIError::FailedToInitializePort)
        }
    }

    /// Open a port with one receive and one transmit queue.
    pub fn new_with_one_queue<D: Driver>(
        d: &mut D,
        port: i32,
        rxcore: i32,
        txcore: i32,
        nrxd: i32,
        ntxd: i32,
        loopback: bool,
        tso: bool,
        csumoffload: bool,
    ) -> (r: Result<PmdPort, ZCSIError>)
        ensures
            match r {
                Ok(p) => p.wf() && p.id() == port && p.rxq() == 1 && p.txq() == 1 && p.closes()
                    && p.is_connected() && p.rx_stats() == fresh_stats(1)
                    && p.tx_stats() == fresh_stats(1),
                Err(e) => e == ZCSIError::FailedToInitializePort,
            },
    {
        let rx_cores = vec![rxcore];
        let tx_cores = vec![txcore];
        PmdPort::new(d, port, 1, 1, rx_cores.as_slice(), tx_cores.as_slice(), nrxd, ntxd,
            loopback, tso, csumoffload)
    }

    /// Open a single-queue port with loopback enabled and the default ring
    /// sizes.
    pub fn new_loopback_port<D: Driver>(d: &mut D, port: i32, core: i32) -> (r: Result<
        PmdPort,
        ZCSIError,
    >)
        ensures
            match r {
                Ok(p) => p.wf() && p.id() == port && p.rxq() == 1 && p.txq() == 1 && p.closes()
                    && p.is_connected() && p.rx_stats() == fresh_stats(1)
                    && p.tx_stats() == fresh_stats(1),
                Err(e) => e == ZCSIError::FailedToInitializePort,
            },
    {
        PmdPort::new_with_one_queue(d, port, core, core, NUM_RXD, NUM_TXD, true, false, false)
    }

    /// Open a single-queue port with offloads and loopback off and the
    /// default ring sizes.
    pub fn new_simple_port<D: Driver>(d: &mut D, port: i32, core: i32) -> (r: Result<
        PmdPort,
        ZCSIError,
    >)
        ensures
            match r {
                Ok(p) => p.wf() && p.id() == port && p.rxq() == 1 && p.txq() == 1 && p.closes()
                    && p.is_connected() && p.rx_stats() == fresh_stats(1)
                    && p.tx_stats() == fresh_stats(1),
                Err(e) => e == ZCSIError::FailedToInitializePort,
            },
    {
        PmdPort::new_with_one_queue(d, port, core, core, NUM_RXD, NUM_TXD, false, false, false)
    }

    /// Open a multi-queue port with the default ring sizes and offloads
    /// off.
    pub fn new_mq_port<D: Driver>(
        d: &mut D,
        port: i32,
        rxqs: usize,
        txqs: usize,
        rx_cores: &[i32],
        tx_cores: &[i32],
    ) -> (r: Result<PmdPort, ZCSIError>)
        requires
            rx_cores@.len() == rxqs,
            tx_cores@.len() == txqs,
        ensures
            match r {
                Ok(p) => p.wf() && p.id() == port && p.rxq() == rxqs && p.txq() == txqs
                    && p.closes() && p.is_connected() && p.rx_stats() == fresh_stats(rxqs as nat)
                    && p.tx_stats() == fresh_stats(txqs as nat),
                Err(e) => e == ZCSIError::FailedToInitializePort,
            },
    {
        PmdPort::new(d, port, rxqs, txqs, rx_cores, tx_cores, NUM_RXD, NUM_TXD, false, false,
            false)
    }

    /// A dummy handle with no queues that never performs I/O, usable as a
    /// sentinel.
    pub fn null_port() -> (r: Result<PmdPort, ZCSIError>)
        ensures
            match r {
                Ok(p) => p.wf() && p.id() == 0 && p.rxq() == 0 && p.txq() == 0 && !p.closes()
                    && !p.is_connected(),
                Err(_) => false,
            },
    {
        Ok(PmdPort {
            connected: false,
            port: 0,
            rxqs: 0,
            txqs: 0,
            should_close: false,
            stats_rx: Vec::new(),
            stats_tx: Vec::new(),
        })
    }

    /// A single-queue handle onto an externally owned virtual ring: the
    /// ring stays alive after this handle is closed.
    pub(crate) fn vring_port(dport: i32) -> (r: PmdPort)
        ensures
            r.wf(),
            r.id() == dport,
            r.rxq() == 1 && r.txq() == 1,
            !r.closes(),
            r.is_connected(),
            r.rx_stats() == fresh_stats(1),
            r.tx_stats() == fresh_stats(1),
    {
        let p = PmdPort {
            connected: true,
            port: dport,
            rxqs: 1,
            txqs: 1,
            should_close: false,
            stats_rx: vec![0u64],
            stats_tx: vec![0u64],
        };
        proof {
            assert(p.rx_stats() =~= fresh_stats(1));
            assert(p.tx_stats() =~= fresh_stats(1));
        }
        p
    }

    /// A non-owning alias of this port: same id and queue layout, counters
    /// starting from the present values, and it never closes the driver
    /// port — at most one handle releases it.
    pub fn copy(&self) -> (r: PmdPort)
        requires
            self.wf(),
        ensures
            r.wf(),
            r.id() == self.id() && r.rxq() == self.rxq() && r.txq() == self.txq(),
            r.is_connected() == self.is_connected(),
            !r.closes(),
            r.rx_stats() == self.rx_stats(),
            r.tx_stats() == self.tx_stats(),
    {
        PmdPort {
            connected: self.connected,
            port: self.port,
            rxqs: self.rxqs,
            txqs: self.txqs,
            should_close: false,
            stats_rx: self.stats_rx.clone(),
            stats_tx: self.stats_tx.clone(),
        }
    }

    /// The driver port id this handle is bound to.
    pub fn name(&self) -> (r: i32)
        ensures
            r == self.id(),
    {
        self.port
    }

    /// Snapshot of the (received, sent) counters of one queue.
    pub fn stats(&self, queue: i32) -> (r: (u64, u64))
        requires
            self.wf(),
            0 <= queue < self.rxq(),
            queue < self.txq(),
        ensures
            r.0 == self.rx_stats()[queue as int],
            r.1 == self.tx_stats()[queue as int],
    {
        let idx = queue as usize;
        (self.stats_rx[idx], self.stats_tx[idx])
    }

    /// Number of ports the driver has brought up.
    pub fn num_pmd_ports<D: Driver>(d: &D) -> i32 {
        d.num_ports()
    }

    /// The port's hardware address, as the driver reports it.
    pub fn mac_address<D: Driver>(&self, d: &D) -> MacAddress {
        d.mac_addr(self.port)
    }

    /// Receive up to `max` buffers on `queue`. A queue index outside
    /// `[0, R)` is refused with `BadQueue` and touches no counter; a driver
    /// failure is surfaced as `RecvFailure`, also leaving the counters
    /// alone. On success the queue's receive counter grows (saturating) by
    /// the burst length.
    pub fn recv_queue<D: Driver>(&mut self, d: &mut D, queue: i32, max: usize) -> (r: Result<
        Vec<MBuf>,
        ZCSIError,
    >)
        requires
            old(self).wf(),
        ensures
            final(self).wf(),
            final(self).same_config(old(self)),
            final(self).tx_stats() == old(self).tx_stats(),
            r == Err::<Vec<MBuf>, ZCSIError>(ZCSIError::BadQueue) <==> !(0 <= queue
                < old(self).rxq()),
            match r {
                Ok(v) => 0 <= queue < old(self).rxq() && v@.len() <= max && (forall|i: int|
                    0 <= i < v@.len() ==> #[trigger] v@[i].wf()) && final(self).rx_stats()
                    == old(self).rx_stats().update(
                    queue as int,
                    sat_add64(old(self).rx_stats()[queue as int] as nat, v@.len()) as u64,
                ),
                Err(e) => final(self).rx_stats() == old(self).rx_stats() && (e
                    == ZCSIError::BadQueue || e == ZCSIError::RecvFailure),
            },
    {
        if queue < 0 || queue as usize >= self.rxqs {
            Err(ZCSIError::BadQueue)
        } else {
            let q = queue as usize;
            match d.recv(self.port, q, max) {
                Some(v) => {
                    let cur = self.stats_rx[q];
                    let n = v.len() as u64;
                    self.stats_rx[q] = sat_add(cur, n);
                    Ok(v)
                },
                None => Err(ZCSIError::RecvFailure),
            }
        }
    }

    /// Send the buffers in `bufs` on `queue`. A queue index outside
    /// `[0, T)` is refused with `BadQueue` and touches neither counters nor
    /// buffers. On success the accepted prefix moves to the driver, the
    /// rejected suffix stays in `bufs`, and the queue's send counter grows
    /// (saturating) by the accepted count. On `SendFailure` every buffer
    /// stays in `bufs`.
    pub fn send_queue<D: Driver>(&mut self, d: &mut D, queue: i32, bufs: &mut Vec<MBuf>) -> (r:
        Result<u32, ZCSIError>)
        requires
            old(self).wf(),
            old(bufs)@.len() <= u32::MAX,
        ensures
            final(self).wf(),
            final(self).same_config(old(self)),
            final(self).rx_stats() == old(self).rx_stats(),
            r == Err::<u32, ZCSIError>(ZCSIError::BadQueue) <==> !(0 <= queue < old(self).txq()),
            match r {
                Ok(n) => 0 <= queue < old(self).txq() && n <= old(bufs)@.len() && final(bufs)@
                    == old(bufs)@.skip(n as int) && final(self).tx_stats()
                    == old(self).tx_stats().update(
                    queue as int,
                    sat_add64(old(self).tx_stats()[queue as int] as nat, n as nat) as u64,
                ),
                Err(e) => final(bufs)@ == old(bufs)@ && final(self).tx_stats()
                    == old(self).tx_stats() && (e == ZCSIError::BadQueue || e
                    == ZCSIError::SendFailure),
            },
    {
        if queue < 0 || queue as usize >= self.txqs {
            Err(ZCSIError::BadQueue)
        } else {
            let q = queue as usize;
            let total = bufs.len();
            let mut burst: Vec<MBuf> = Vec::new();
            core::mem::swap(bufs, &mut burst);
            match d.send(self.port, q, burst) {
                SendOutcome::Accepted(rej) => {
                    let accepted = total - rej.len();
                    *bufs = rej;
                    let cur = self.stats_tx[q];
                    self.stats_tx[q] = sat_add(cur, accepted as u64);
                    Ok(accepted as u32)
                },
                SendOutcome::Failed(back) => {
                    *bufs = back;
                    Err(ZCSIError::SendFailure)
                },
            }
        }
    }

    /// Receive on queue 0.
    pub fn recv<D: Driver>(&mut self, d: &mut D, max: usize) -> (r: Result<Vec<MBuf>, ZCSIError>)
        requires
            old(self).wf(),
        ensures
            final(self).wf(),
            final(self).same_config(old(self)),
            final(self).tx_stats() == old(self).tx_stats(),
            r == Err::<Vec<MBuf>, ZCSIError>(ZCSIError::BadQueue) <==> old(self).rxq() == 0,
            match r {
                Ok(v) => old(self).rxq() > 0 && v@.len() <= max && (forall|i: int|
                    0 <= i < v@.len() ==> #[trigger] v@[i].wf()) && final(self).rx_stats()
                    == old(self).rx_stats().update(
                    0,
                    sat_add64(old(self).rx_stats()[0] as nat, v@.len()) as u64,
                ),
                Err(e) => final(self).rx_stats() == old(self).rx_stats() && (e
                    == ZCSIError::BadQueue || e == ZCSIError::RecvFailure),
            },
    {
        self.recv_queue(d, 0, max)
    }

    /// Send on queue 0.
    pub fn send<D: Driver>(&mut self, d: &mut D, bufs: &mut Vec<MBuf>) -> (r: Result<
        u32,
        ZCSIError,
    >)
        requires
            old(self).wf(),
            old(bufs)@.len() <= u32::MAX,
        ensures
            final(self).wf(),
            final(self).same_config(old(self)),
            final(self).rx_stats() == old(self).rx_stats(),
            r == Err::<u32, ZCSIError>(ZCSIError::BadQueue) <==> old(self).txq() == 0,
            match r {
                Ok(n) => old(self).txq() > 0 && n <= old(bufs)@.len() && final(bufs)@
                    == old(bufs)@.skip(n as int) && final(self).tx_stats()
                    == old(self).tx_stats().update(
                    0,
                    sat_add64(old(self).tx_stats()[0] as nat, n as nat) as u64,
                ),
                Err(e) => final(bufs)@ == old(bufs)@ && final(self).tx_stats()
                    == old(self).tx_stats() && (e == ZCSIError::BadQueue || e
                    == ZCSIError::SendFailure),
            },
    {
        self.send_queue(d, 0, bufs)
    }

    /// Release the driver port if this handle owns it and is still
    /// attached: the driver side is freed at most once, and closing a copy
    /// does nothing.
    pub fn close<D: Driver>(&mut self, d: &mut D)
        requires
            old(self).wf(),
        ensures
            final(self).wf(),
            final(self).id() == old(self).id(),
            final(self).rxq() == old(self).rxq(),
            final(self).txq() == old(self).txq(),
            final(self).closes() == old(self).closes(),
            final(self).rx_stats() == old(self).rx_stats(),
            final(self).tx_stats() == old(self).tx_stats(),
            final(self).is_connected() == (old(self).is_connected() && !old(self).closes()),
    {
        if self.should_close && self.connected {
            d.free_port(self.port);
            self.connected = false;
        }
    }
}

} // verus!
