//! Virtual-device name parsing against a recording stub driver.

use e2d2::driver::{Driver, MacAddress, SendOutcome};
use e2d2::interface::ZCSIError;
use e2d2::mbuf::MBuf;
use e2d2::pmd::PmdPort;

/// Records every backend call; virtual rings come up as port `ring_port`.
struct RingStub {
    ring_port: i32,
    bess_calls: Vec<(String, i32)>,
    ovs_calls: Vec<(i32, i32)>,
    freed: u32,
}

impl RingStub {
    fn new(ring_port: i32) -> RingStub {
        RingStub { ring_port, bess_calls: Vec::new(), ovs_calls: Vec::new(), freed: 0 }
    }
}

impl Driver for RingStub {
    fn init_port(
        &mut self,
        _port: i32,
        _rxqs: usize,
        _txqs: usize,
        _rx_cores: &[i32],
        _tx_cores: &[i32],
        _nrxd: i32,
        _ntxd: i32,
        _loopback: bool,
        _tso: bool,
        _csumoffload: bool,
    ) -> bool {
        true
    }

    fn free_port(&mut self, _port: i32) {
        self.freed += 1;
    }

    fn recv(&mut self, _port: i32, _queue: usize, _max: usize) -> Option<Vec<MBuf>> {
        Some(Vec::new())
    }

    fn send(&mut self, _port: i32, _queue: usize, bufs: Vec<MBuf>) -> SendOutcome {
        let _ = bufs;
        SendOutcome::Accepted(Vec::new())
    }

    fn num_ports(&self) -> i32 {
        1
    }

    fn mac_addr(&self, _port: i32) -> MacAddress {
        MacAddress { addr: [0; 6] }
    }

    fn init_bess_ring(&mut self, name: &str, core: i32) -> i32 {
        self.bess_calls.push((name.to_string(), core));
        self.ring_port
    }

    fn init_ovs_ring(&mut self, iface: i32, core: i32) -> i32 {
        self.ovs_calls.push((iface, core));
        self.ring_port
    }
}

fn expect_bad_vdev(r: Result<PmdPort, ZCSIError>) {
    match r {
        Err(e) => assert_eq!(e, ZCSIError::BadVdev),
        Ok(_) => panic!("expected BadVdev"),
    }
}

#[test]
fn bess_vdev_succeeds() {
    let mut d = RingStub::new(3);
    let p = PmdPort::new_vdev(&mut d, "bess:foo", 7).unwrap();
    assert_eq!(p.name(), 3);
    assert_eq!(d.bess_calls, vec![("foo".to_string(), 7)]);
    assert!(d.ovs_calls.is_empty());
}

#[test]
fn ovs_vdev_succeeds() {
    let mut d = RingStub::new(3);
    let p = PmdPort::new_vdev(&mut d, "ovs:7", 0).unwrap();
    assert_eq!(p.name(), 3);
    assert_eq!(d.ovs_calls, vec![(7, 0)]);
    assert!(d.bess_calls.is_empty());
}

#[test]
fn ovs_vdev_passes_parsed_iface() {
    let mut d = RingStub::new(9);
    let p = PmdPort::new_vdev(&mut d, "ovs:3", 0).unwrap();
    assert_eq!(p.name(), 9);
    assert_eq!(d.ovs_calls, vec![(3, 0)]);
}

#[test]
fn missing_colon_is_bad_vdev() {
    let mut d = RingStub::new(3);
    expect_bad_vdev(PmdPort::new_vdev(&mut d, "bess", 0));
    assert!(d.bess_calls.is_empty() && d.ovs_calls.is_empty());
}

#[test]
fn unknown_prefix_is_bad_vdev() {
    let mut d = RingStub::new(3);
    expect_bad_vdev(PmdPort::new_vdev(&mut d, "xyz:foo", 0));
    assert!(d.bess_calls.is_empty() && d.ovs_calls.is_empty());
}

#[test]
fn non_numeric_ovs_id_skips_driver() {
    let mut d = RingStub::new(3);
    expect_bad_vdev(PmdPort::new_vdev(&mut d, "ovs:abc", 0));
    assert!(d.ovs_calls.is_empty());
}

#[test]
fn negative_ovs_id_is_bad_vdev() {
    let mut d = RingStub::new(3);
    expect_bad_vdev(PmdPort::new_vdev(&mut d, "ovs:-1", 0));
    assert!(d.ovs_calls.is_empty());
}

#[test]
fn empty_ovs_id_is_bad_vdev() {
    let mut d = RingStub::new(3);
    expect_bad_vdev(PmdPort::new_vdev(&mut d, "ovs:", 0));
}

#[test]
fn two_colons_are_bad_vdev() {
    let mut d = RingStub::new(3);
    expect_bad_vdev(PmdPort::new_vdev(&mut d, "bess:a:b", 0));
}

#[test]
fn uppercase_prefix_is_bad_vdev() {
    let mut d = RingStub::new(3);
    expect_bad_vdev(PmdPort::new_vdev(&mut d, "BESS:foo", 0));
}

#[test]
fn ovs_id_with_leading_zeroes_parses() {
    let mut d = RingStub::new(3);
    PmdPort::new_vdev(&mut d, "ovs:007", 1).unwrap();
    assert_eq!(d.ovs_calls, vec![(7, 1)]);
}

#[test]
fn ovs_id_at_i32_max_parses() {
    let mut d = RingStub::new(3);
    PmdPort::new_vdev(&mut d, "ovs:2147483647", 0).unwrap();
    assert_eq!(d.ovs_calls, vec![(2147483647, 0)]);
}

#[test]
fn ovs_id_above_i32_max_is_bad_vdev() {
    let mut d = RingStub::new(3);
    expect_bad_vdev(PmdPort::new_vdev(&mut d, "ovs:2147483648", 0));
    assert!(d.ovs_calls.is_empty());
}

#[test]
fn empty_bess_name_reaches_driver() {
    let mut d = RingStub::new(3);
    PmdPort::new_vdev(&mut d, "bess:", 2).unwrap();
    assert_eq!(d.bess_calls, vec![(String::new(), 2)]);
}

#[test]
fn rejected_ring_is_init_failure() {
    let mut d = RingStub::new(-1);
    match PmdPort::new_vdev(&mut d, "ovs:5", 0) {
        Err(e) => assert_eq!(e, ZCSIError::FailedToInitializePort),
        Ok(_) => panic!("expected failure"),
    }
    assert_eq!(d.ovs_calls, vec![(5, 0)]);
}

#[test]
fn vdev_port_does_not_close_ring() {
    let mut d = RingStub::new(3);
    let mut p = PmdPort::new_vdev(&mut d, "bess:ring0", 0).unwrap();
    p.close(&mut d);
    assert_eq!(d.freed, 0);
}
