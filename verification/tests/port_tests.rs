//! Port lifecycle, queue validation, counters, and driver error
//! propagation against a scripted stub driver.

use e2d2::driver::{Driver, MacAddress, SendOutcome};
use e2d2::interface::ZCSIError;
use e2d2::mbuf::MBuf;
use e2d2::pmd::PmdPort;

struct InitCall {
    port: i32,
    rxqs: usize,
    txqs: usize,
    rx_cores: Vec<i32>,
    tx_cores: Vec<i32>,
    nrxd: i32,
    ntxd: i32,
    loopback: bool,
    tso: bool,
    csumoffload: bool,
}

/// Scripted driver: a fixed burst per receive, a cap on accepted sends,
/// optional failures, and a record of every lifecycle call.
struct Stub {
    init_ok: bool,
    init_calls: Vec<InitCall>,
    freed: Vec<i32>,
    recv_burst: usize,
    fail_recv: bool,
    fail_send: bool,
    accept_limit: usize,
    sent_first_bytes: Vec<u8>,
}

impl Stub {
    fn new() -> Stub {
        Stub {
            init_ok: true,
            init_calls: Vec::new(),
            freed: Vec::new(),
            recv_burst: 0,
            fail_recv: false,
            fail_send: false,
            accept_limit: usize::MAX,
            sent_first_bytes: Vec::new(),
        }
    }
}

impl Driver for Stub {
    fn init_port(
        &mut self,
        port: i32,
        rxqs: usize,
        txqs: usize,
        rx_cores: &[i32],
        tx_cores: &[i32],
        nrxd: i32,
        ntxd: i32,
        loopback: bool,
        tso: bool,
        csumoffload: bool,
    ) -> bool {
        self.init_calls.push(InitCall {
            port,
            rxqs,
            txqs,
            rx_cores: rx_cores.to_vec(),
            tx_cores: tx_cores.to_vec(),
            nrxd,
            ntxd,
            loopback,
            tso,
            csumoffload,
        });
        self.init_ok
    }

    fn free_port(&mut self, port: i32) {
        self.freed.push(port);
    }

    fn recv(&mut self, _port: i32, _queue: usize, max: usize) -> Option<Vec<MBuf>> {
        if self.fail_recv {
            return None;
        }
        let n = self.recv_burst.min(max);
        let mut v = Vec::new();
        for i in 0..n {
            v.push(MBuf::new(2048, 64, vec![i as u8, 1, 2, 3]).unwrap());
        }
        Some(v)
    }

    fn send(&mut self, _port: i32, _queue: usize, bufs: Vec<MBuf>) -> SendOutcome {
        if self.fail_send {
            return SendOutcome::Failed(bufs);
        }
        let accept = bufs.len().min(self.accept_limit);
        let mut rejected = Vec::new();
        for (i, b) in bufs.into_iter().enumerate() {
            if i < accept {
                let p = b.payload(0);
                if !p.is_empty() {
                    self.sent_first_bytes.push(p[0]);
                }
            } else {
                rejected.push(b);
            }
        }
        SendOutcome::Accepted(rejected)
    }

    fn num_ports(&self) -> i32 {
        2
    }

    fn mac_addr(&self, _port: i32) -> MacAddress {
        MacAddress { addr: [1, 2, 3, 4, 5, 6] }
    }

    fn init_bess_ring(&mut self, _name: &str, _core: i32) -> i32 {
        -1
    }

    fn init_ovs_ring(&mut self, _iface: i32, _core: i32) -> i32 {
        -1
    }
}

#[test]
fn loopback_port_uses_default_rings_and_loopback() {
    let mut d = Stub::new();
    let p = PmdPort::new_loopback_port(&mut d, 4, 2).unwrap();
    assert_eq!(p.name(), 4);
    let c = &d.init_calls[0];
    assert_eq!((c.port, c.rxqs, c.txqs), (4, 1, 1));
    assert_eq!((c.nrxd, c.ntxd), (1024, 256));
    assert!(c.loopback && !c.tso && !c.csumoffload);
    assert_eq!(c.rx_cores, vec![2]);
    assert_eq!(c.tx_cores, vec![2]);
}

#[test]
fn simple_port_has_offloads_off() {
    let mut d = Stub::new();
    PmdPort::new_simple_port(&mut d, 0, 5).unwrap();
    let c = &d.init_calls[0];
    assert!(!c.loopback && !c.tso && !c.csumoffload);
    assert_eq!((c.nrxd, c.ntxd), (1024, 256));
}

#[test]
fn one_queue_port_passes_flags_through() {
    let mut d = Stub::new();
    PmdPort::new_with_one_queue(&mut d, 1, 2, 3, 512, 128, false, true, true).unwrap();
    let c = &d.init_calls[0];
    assert_eq!((c.rxqs, c.txqs), (1, 1));
    assert_eq!(c.rx_cores, vec![2]);
    assert_eq!(c.tx_cores, vec![3]);
    assert_eq!((c.nrxd, c.ntxd), (512, 128));
    assert!(!c.loopback && c.tso && c.csumoffload);
}

#[test]
fn mq_port_keeps_queue_counts() {
    let mut d = Stub::new();
    let rx = vec![0, 1];
    let tx = vec![2, 3];
    let p = PmdPort::new_mq_port(&mut d, 6, 2, 2, &rx, &tx).unwrap();
    assert_eq!(p.name(), 6);
    let c = &d.init_calls[0];
    assert_eq!((c.rxqs, c.txqs), (2, 2));
    assert_eq!(c.rx_cores, vec![0, 1]);
    assert_eq!(c.tx_cores, vec![2, 3]);
}

#[test]
fn rejected_open_is_init_failure() {
    let mut d = Stub::new();
    d.init_ok = false;
    match PmdPort::new_simple_port(&mut d, 0, 0) {
        Err(e) => assert_eq!(e, ZCSIError::FailedToInitializePort),
        Ok(_) => panic!("expected failure"),
    }
}

#[test]
fn null_port_never_touches_the_driver() {
    let mut d = Stub::new();
    let mut p = PmdPort::null_port().unwrap();
    assert_eq!(p.name(), 0);
    assert!(d.init_calls.is_empty());
    match p.recv(&mut d, 32) {
        Err(e) => assert_eq!(e, ZCSIError::BadQueue),
        Ok(_) => panic!("null port has no queues"),
    }
    let mut bufs = Vec::new();
    match p.send(&mut d, &mut bufs) {
        Err(e) => assert_eq!(e, ZCSIError::BadQueue),
        Ok(_) => panic!("null port has no queues"),
    }
    p.close(&mut d);
    assert!(d.freed.is_empty());
}

#[test]
fn out_of_range_queue_is_bad_queue_and_counters_untouched() {
    let mut d = Stub::new();
    d.recv_burst = 4;
    let mut p = PmdPort::new_simple_port(&mut d, 0, 0).unwrap();
    // boundary: queue == R is already out of range
    match p.recv_queue(&mut d, 1, 32) {
        Err(e) => assert_eq!(e, ZCSIError::BadQueue),
        Ok(_) => panic!("queue 1 of 1 must be refused"),
    }
    match p.recv_queue(&mut d, -1, 32) {
        Err(e) => assert_eq!(e, ZCSIError::BadQueue),
        Ok(_) => panic!("negative queue must be refused"),
    }
    let mut bufs = Vec::new();
    match p.send_queue(&mut d, 1, &mut bufs) {
        Err(e) => assert_eq!(e, ZCSIError::BadQueue),
        Ok(_) => panic!("queue 1 of 1 must be refused"),
    }
    assert_eq!(p.stats(0), (0, 0));
}

#[test]
fn recv_and_send_move_the_counters() {
    let mut d = Stub::new();
    d.recv_burst = 4;
    let mut p = PmdPort::new_simple_port(&mut d, 0, 0).unwrap();
    let mut got = p.recv_queue(&mut d, 0, 32).unwrap();
    assert_eq!(got.len(), 4);
    assert_eq!(p.stats(0), (4, 0));
    let sent = p.send_queue(&mut d, 0, &mut got).unwrap();
    assert_eq!(sent, 4);
    assert!(got.is_empty());
    assert_eq!(p.stats(0), (4, 4));
}

#[test]
fn partial_send_returns_the_suffix() {
    let mut d = Stub::new();
    d.recv_burst = 5;
    d.accept_limit = 3;
    let mut p = PmdPort::new_simple_port(&mut d, 0, 0).unwrap();
    let mut got = p.recv_queue(&mut d, 0, 32).unwrap();
    let sent = p.send_queue(&mut d, 0, &mut got).unwrap();
    assert_eq!(sent, 3);
    assert_eq!(got.len(), 2);
    assert_eq!(got[0].payload(0)[0], 3);
    assert_eq!(got[1].payload(0)[0], 4);
    assert_eq!(p.stats(0), (5, 3));
}

#[test]
fn driver_recv_failure_surfaces_and_spares_counters() {
    let mut d = Stub::new();
    d.fail_recv = true;
    let mut p = PmdPort::new_simple_port(&mut d, 0, 0).unwrap();
    match p.recv_queue(&mut d, 0, 32) {
        Err(e) => assert_eq!(e, ZCSIError::RecvFailure),
        Ok(_) => panic!("expected RecvFailure"),
    }
    assert_eq!(p.stats(0), (0, 0));
}

#[test]
fn driver_send_failure_returns_every_buffer() {
    let mut d = Stub::new();
    d.recv_burst = 3;
    let mut p = PmdPort::new_simple_port(&mut d, 0, 0).unwrap();
    let mut got = p.recv_queue(&mut d, 0, 32).unwrap();
    d.fail_send = true;
    match p.send_queue(&mut d, 0, &mut got) {
        Err(e) => assert_eq!(e, ZCSIError::SendFailure),
        Ok(_) => panic!("expected SendFailure"),
    }
    assert_eq!(got.len(), 3);
    assert_eq!(p.stats(0), (3, 0));
}

#[test]
fn copy_does_not_close_and_owner_closes_once() {
    let mut d = Stub::new();
    let mut p = PmdPort::new_simple_port(&mut d, 8, 0).unwrap();
    let mut c = p.copy();
    assert_eq!(c.name(), 8);
    c.close(&mut d);
    assert!(d.freed.is_empty());
    p.close(&mut d);
    assert_eq!(d.freed, vec![8]);
    p.close(&mut d);
    assert_eq!(d.freed, vec![8]);
}

#[test]
fn copy_snapshots_the_counters() {
    let mut d = Stub::new();
    d.recv_burst = 2;
    let mut p = PmdPort::new_simple_port(&mut d, 0, 0).unwrap();
    p.recv_queue(&mut d, 0, 32).unwrap();
    let c = p.copy();
    assert_eq!(c.stats(0), (2, 0));
}

#[test]
fn mac_address_comes_from_the_driver() {
    let mut d = Stub::new();
    let p = PmdPort::new_simple_port(&mut d, 0, 0).unwrap();
    assert_eq!(p.mac_address(&d).addr, [1, 2, 3, 4, 5, 6]);
}

#[test]
fn num_pmd_ports_comes_from_the_driver() {
    let d = Stub::new();
    assert_eq!(PmdPort::num_pmd_ports(&d), 2);
}
