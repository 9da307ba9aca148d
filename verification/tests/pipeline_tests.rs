//! End-to-end combinator chains over a stub driver: loopback, filtering,
//! partial sends, parse offsets, and buffer conservation.

use e2d2::batch::{Batch, EndOffset, NullHeader, Predicate};
use e2d2::driver::{Driver, MacAddress, NullDriver, SendOutcome};
use e2d2::filter_batch::FilterBatch;
use e2d2::interface::ZCSIError;
use e2d2::mbuf::MBuf;
use e2d2::pmd::PmdPort;
use e2d2::receive_batch::ReceiveBatch;
use e2d2::reset_parse::ResetParsingBatch;
use e2d2::send_batch::SendBatch;
use e2d2::transform_batch::TransformBatch;

/// Every receive burst delivers `burst` buffers whose first payload byte
/// is the slot index; sends accept at most `accept_limit` buffers.
struct LoopStub {
    burst: usize,
    accept_limit: usize,
    payload_len: usize,
    sent_first_bytes: Vec<u8>,
}

impl LoopStub {
    fn new(burst: usize) -> LoopStub {
        LoopStub { burst, accept_limit: usize::MAX, payload_len: 4, sent_first_bytes: Vec::new() }
    }
}

impl Driver for LoopStub {
    fn init_port(
        &mut self,
        _port: i32,
        _rxqs: usize,
        _txqs: usize,
        _rx_cores: &[i32],
        _tx_cores: &[i32],
        _nrxd: i32,
        _ntxd: i32,
        _loopback: bool,
        _tso: bool,
        _csumoffload: bool,
    ) -> bool {
        true
    }

    fn free_port(&mut self, _port: i32) {}

    fn recv(&mut self, _port: i32, _queue: usize, max: usize) -> Option<Vec<MBuf>> {
        let n = self.burst.min(max);
        let mut v = Vec::new();
        for i in 0..n {
            let mut payload = Vec::new();
            for j in 0..self.payload_len {
                payload.push(if j == 0 { i as u8 } else { j as u8 });
            }
            v.push(MBuf::new(2048, 64, payload).unwrap());
        }
        Some(v)
    }

    fn send(&mut self, _port: i32, _queue: usize, bufs: Vec<MBuf>) -> SendOutcome {
        let accept = bufs.len().min(self.accept_limit);
        let mut rejected = Vec::new();
        for (i, b) in bufs.into_iter().enumerate() {
            if i < accept {
                let p = b.payload(0);
                if !p.is_empty() {
                    self.sent_first_bytes.push(p[0]);
                }
            } else {
                rejected.push(b);
            }
        }
        SendOutcome::Accepted(rejected)
    }

    fn num_ports(&self) -> i32 {
        1
    }

    fn mac_addr(&self, _port: i32) -> MacAddress {
        MacAddress { addr: [0; 6] }
    }

    fn init_bess_ring(&mut self, _name: &str, _core: i32) -> i32 {
        -1
    }

    fn init_ovs_ring(&mut self, _iface: i32, _core: i32) -> i32 {
        -1
    }
}

/// Marks for removal every slot whose first payload byte is odd.
struct DropOddFirstByte;

impl Predicate<NullHeader> for DropOddFirstByte {
    fn check(&mut self, _header: &NullHeader, payload: &[u8]) -> bool {
        !payload.is_empty() && payload[0] % 2 == 1
    }
}

#[test]
fn receive_send_loopback_counts_forty() {
    let mut d = LoopStub::new(4);
    let mut port = PmdPort::new_simple_port(&mut d, 0, 0).unwrap();
    let rx = ReceiveBatch::new(0);
    let mut chain = SendBatch::new(rx, 0);
    for _ in 0..10 {
        chain.process(&mut port, &mut d).unwrap();
    }
    assert_eq!(chain.chain().received, 40);
    assert_eq!(chain.sent, 40);
    assert_eq!(port.stats(0), (40, 40));
}

#[test]
fn filter_drops_odd_first_bytes() {
    let mut d = LoopStub::new(4);
    let mut port = PmdPort::new_simple_port(&mut d, 0, 0).unwrap();
    let rx = ReceiveBatch::new(0);
    let fl: FilterBatch<NullHeader, _, _> = FilterBatch::new(rx, DropOddFirstByte);
    let mut chain = SendBatch::new(fl, 0);
    chain.process(&mut port, &mut d).unwrap();
    assert_eq!(chain.sent, 2);
    assert_eq!(d.sent_first_bytes, vec![0, 2]);
    assert_eq!(port.stats(0), (4, 2));
}

#[test]
fn partial_send_releases_the_rest() {
    let mut d = LoopStub::new(5);
    d.accept_limit = 3;
    let mut port = PmdPort::new_simple_port(&mut d, 0, 0).unwrap();
    let rx = ReceiveBatch::new(0);
    let mut chain = SendBatch::new(rx, 0);
    chain.process(&mut port, &mut d).unwrap();
    assert_eq!(chain.sent, 3);
    assert_eq!(chain.chain().received, 5);
    assert_eq!(chain.chain().pkt_count(), 0);
    assert_eq!(port.stats(0), (5, 3));
}

#[test]
fn transform_advances_and_reset_parse_rewinds() {
    let mut d = LoopStub::new(1);
    d.payload_len = 20;
    let mut port = PmdPort::new_simple_port(&mut d, 0, 0).unwrap();
    let mut rx = ReceiveBatch::new(0);
    rx.act(&mut port, &mut d).unwrap();
    assert_eq!(rx.pkt_count(), 1);
    let tr = TransformBatch::new(rx, 14);
    assert_eq!(tr.payload(0).len(), 6);
    assert_eq!(tr.payload(0)[0], 14);
    let rp = ResetParsingBatch::new(tr);
    assert_eq!(rp.payload(0).len(), 20);
    assert_eq!(rp.payload(0)[0], 0);
}

#[test]
fn transform_past_the_payload_is_empty() {
    let mut d = LoopStub::new(1);
    d.payload_len = 4;
    let mut port = PmdPort::new_simple_port(&mut d, 0, 0).unwrap();
    let mut rx = ReceiveBatch::new(0);
    rx.act(&mut port, &mut d).unwrap();
    let tr = TransformBatch::new(rx, 9);
    assert_eq!(tr.payload(0).len(), 0);
}

#[test]
fn drop_packets_keeps_survivors_in_order() {
    let mut d = LoopStub::new(5);
    let mut port = PmdPort::new_simple_port(&mut d, 0, 0).unwrap();
    let mut rx = ReceiveBatch::new(0);
    rx.act(&mut port, &mut d).unwrap();
    let dropped = rx.drop_packets(vec![1, 3]).unwrap();
    assert_eq!(dropped, 2);
    assert_eq!(rx.pkt_count(), 3);
    assert_eq!(rx.payload(0)[0], 0);
    assert_eq!(rx.payload(1)[0], 2);
    assert_eq!(rx.payload(2)[0], 4);
}

#[test]
fn drop_packets_accepts_unsorted_indices() {
    let mut d = LoopStub::new(5);
    let mut port = PmdPort::new_simple_port(&mut d, 0, 0).unwrap();
    let mut rx = ReceiveBatch::new(0);
    rx.act(&mut port, &mut d).unwrap();
    let dropped = rx.drop_packets(vec![3, 1]).unwrap();
    assert_eq!(dropped, 2);
    assert_eq!(rx.pkt_count(), 3);
    assert_eq!(rx.payload(1)[0], 2);
}

#[test]
fn batch_never_exceeds_capacity() {
    let mut d = LoopStub::new(100);
    let mut port = PmdPort::new_simple_port(&mut d, 0, 0).unwrap();
    let mut rx = ReceiveBatch::new(0);
    for _ in 0..3 {
        rx.act(&mut port, &mut d).unwrap();
        assert!(rx.pkt_count() <= rx.capacity());
    }
    assert_eq!(rx.pkt_count(), 32);
    assert_eq!(rx.capacity(), 32);
}

#[test]
fn stats_are_monotone_across_ticks() {
    let mut d = LoopStub::new(3);
    let mut port = PmdPort::new_simple_port(&mut d, 0, 0).unwrap();
    let rx = ReceiveBatch::new(0);
    let mut chain = SendBatch::new(rx, 0);
    let mut last = (0u64, 0u64);
    for _ in 0..5 {
        chain.process(&mut port, &mut d).unwrap();
        let now = port.stats(0);
        assert!(now.0 >= last.0 && now.1 >= last.1);
        last = now;
    }
    assert_eq!(last, (15, 15));
}

#[test]
fn conservation_over_a_filtered_run() {
    let mut d = LoopStub::new(4);
    let mut port = PmdPort::new_simple_port(&mut d, 0, 0).unwrap();
    let rx = ReceiveBatch::new(0);
    let fl: FilterBatch<NullHeader, _, _> = FilterBatch::new(rx, DropOddFirstByte);
    let mut chain = SendBatch::new(fl, 0);
    for _ in 0..10 {
        chain.process(&mut port, &mut d).unwrap();
    }
    // everything received was either dropped by the filter or sent
    assert_eq!(chain.sent, 20);
    assert_eq!(d.sent_first_bytes.len(), 20);
    assert_eq!(port.stats(0), (40, 20));
}

#[test]
fn header_parse_governs_the_filter_payload() {
    struct TwoByteHeader {
        first: u8,
    }

    impl EndOffset for TwoByteHeader {
        fn parse(data: &[u8]) -> Option<TwoByteHeader> {
            if data.len() >= 2 {
                Some(TwoByteHeader { first: data[0] })
            } else {
                None
            }
        }

        fn offset(&self) -> usize {
            2
        }
    }

    /// Removes slots whose post-header payload starts with an even byte.
    struct DropEvenAfterHeader;

    impl Predicate<TwoByteHeader> for DropEvenAfterHeader {
        fn check(&mut self, header: &TwoByteHeader, payload: &[u8]) -> bool {
            let _ = header.first;
            !payload.is_empty() && payload[0] % 2 == 0
        }
    }

    let mut d = LoopStub::new(3);
    // payloads are [i, 1, 2, 3]: after a 2-byte header every payload is [2, 3]
    let mut port = PmdPort::new_simple_port(&mut d, 0, 0).unwrap();
    let rx = ReceiveBatch::new(0);
    let fl: FilterBatch<TwoByteHeader, _, _> = FilterBatch::new(rx, DropEvenAfterHeader);
    let mut chain = SendBatch::new(fl, 0);
    chain.process(&mut port, &mut d).unwrap();
    assert_eq!(chain.sent, 0);
    assert_eq!(port.stats(0), (3, 0));
}

#[test]
fn adjust_ops_reach_the_right_slot_through_a_chain() {
    let mut d = LoopStub::new(3);
    let mut port = PmdPort::new_simple_port(&mut d, 0, 0).unwrap();
    let rx = ReceiveBatch::new(0);
    let mut rp = ResetParsingBatch::new(rx);
    rp.act(&mut port, &mut d).unwrap();
    // headroom: consume 5 of the 64 reserved bytes, then give them back
    assert_eq!(rp.adjust_headroom(1, 5), Some(59));
    assert_eq!(rp.adjust_headroom(1, -5), Some(64));
    // payload: grow slot 2 by two zero bytes, others untouched
    assert_eq!(rp.adjust_payload_size(2, 2), Some(6));
    assert_eq!(rp.payload(2), &[2, 1, 2, 3, 0, 0]);
    assert_eq!(rp.payload(1), &[1, 1, 2, 3]);
}

#[test]
fn null_driver_receives_nothing_and_accepts_everything() {
    let mut d = NullDriver { freed: 0 };
    let mut port = PmdPort::new_simple_port(&mut d, 0, 0).unwrap();
    let rx = ReceiveBatch::new(0);
    let mut chain = SendBatch::new(rx, 0);
    chain.process(&mut port, &mut d).unwrap();
    assert_eq!(chain.chain().received, 0);
    assert_eq!(chain.sent, 0);
    assert_eq!(port.stats(0), (0, 0));
    port.close(&mut d);
    assert_eq!(d.freed, 1);
}
