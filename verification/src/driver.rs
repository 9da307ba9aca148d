//! The narrow driver interface the core consumes.
//!
//! The underlying poll-mode driver — buffer pool, NIC drivers, ring
//! management — is an external collaborator. The core calls it only through
//! this trait: initialize or free a port, receive or send a burst on a
//! queue, read a MAC address, and open the virtual-ring backends. A caller
//! supplies the implementation; the contracts below record what every
//! implementation is relied upon to guarantee, and the verified pipeline is
//! proved sound for any driver that meets them.

use vstd::prelude::*;
use crate::mbuf::MBuf;

verus! {

/// A hardware address read from a port.
pub struct MacAddress {
    pub addr: [u8; 6],
}

/// What a send burst did with the buffers handed to the driver.
pub enum SendOutcome {
    /// The driver accepted a prefix of the burst; the field holds the
    /// rejected suffix, still owned by the caller.
    Accepted(Vec<MBuf>),
    /// The driver failed and accepted nothing; every buffer comes back.
    Failed(Vec<MBuf>),
}

/// The driver contract. Each method is trusted to meet its contract for
/// every implementation; the core's own proofs build only on what is
/// stated here.
pub trait Driver {
    /// Allocate `rxqs` receive rings of `nrxd` descriptors and `txqs`
    /// transmit rings of `ntxd` descriptors on `port`; `true` on success.
    fn init_port(
        &mut self,
        port: i32,
        rxqs: usize,
        txqs: usize,
        rx_cores: &[i32],
        tx_cores: &[i32],
        nrxd: i32,
        ntxd: i32,
        loopback: bool,
        tso: bool,
        csumoffload: bool,
    ) -> bool;

    /// Release the driver-side resources of `port`.
    fn free_port(&mut self, port: i32);

    /// Receive up to `max` buffers on `queue`. `None` reports a driver
    /// failure. A successful burst yields at most `max` buffers, each
    /// well-formed.
    fn recv(&mut self, port: i32, queue: usize, max: usize) -> (r: Option<Vec<MBuf>>)
        ensures
            match r {
                Some(v) => v@.len() <= max && (forall|i: int|
                    0 <= i < v@.len() ==> #[trigger] v@[i].wf()),
                None => true,
            },
    ;

    /// Send a burst on `queue`. The driver accepts a prefix of the burst
    /// and returns the rejected suffix; on failure it returns every buffer,
    /// so ownership of unsent buffers always stays with the caller.
    fn send(&mut self, port: i32, queue: usize, bufs: Vec<MBuf>) -> (r: SendOutcome)
        ensures
            match r {
                SendOutcome::Accepted(rej) => rej@.len() <= bufs@.len()
                    && rej@ == bufs@.skip(bufs@.len() - rej@.len()),
                SendOutcome::Failed(back) => back@ == bufs@,
            },
    ;

    /// Number of ports the driver has brought up.
    fn num_ports(&self) -> i32;

    /// Read the hardware address of `port`.
    fn mac_addr(&self, port: i32) -> MacAddress;

    /// Attach a ring shared with a BESS process; returns the driver port
    /// id, negative on failure.
    fn init_bess_ring(&mut self, name: &str, core: i32) -> i32;

    /// Attach a ring shared with an OVS datapath by interface id; returns
    /// the driver port id, negative on failure.
    fn init_ovs_ring(&mut self, iface: i32, core: i32) -> i32;
}

/// A driver that performs no I/O at all: every receive burst is empty,
/// every send burst is accepted whole, and port setup always succeeds.
/// It backs the null port and gives the trait a verified implementation.
pub struct NullDriver {
    pub freed: u64,
}

impl Driver for NullDriver {
    fn init_port(
        &mut self,
        port: i32,
        rxqs: usize,
        txqs: usize,
        rx_cores: &[i32],
        tx_cores: &[i32],
        nrxd: i32,
        ntxd: i32,
        loopback: bool,
        tso: bool,
        csumoffload: bool,
    ) -> bool {
        true
    }

    fn free_port(&mut self, port: i32) {
        self.freed = if self.freed < u64::MAX {
            self.freed + 1
        } else {
            u64::MAX
        };
    }

    fn recv(&mut self, port: i32, queue: usize, max: usize) -> (r: Option<Vec<MBuf>>) {
        Some(Vec::new())
    }

    fn send(&mut self, port: i32, queue: usize, bufs: Vec<MBuf>) -> (r: SendOutcome) {
        let rej: Vec<MBuf> = Vec::new();
        assert(rej@ =~= bufs@.skip(bufs@.len() as int));
        SendOutcome::Accepted(rej)
    }

    fn num_ports(&self) -> i32 {
        0
    }

    fn mac_addr(&self, port: i32) -> MacAddress {
        MacAddress { addr: [0u8; 6] }
    }

    fn init_bess_ring(&mut self, name: &str, core: i32) -> i32 {
        -1
    }

    fn init_ovs_ring(&mut self, iface: i32, core: i32) -> i32 {
        -1
    }
}

} // verus!
