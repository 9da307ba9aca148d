//! Packet buffer descriptors.
//!
//! A descriptor owns one packet's bytes together with the bookkeeping the
//! combinators rely on: a payload region, a mutable headroom (bytes held in
//! reserve before the payload, consumed to prepend headers and released to
//! strip them), and a fixed physical bound on the whole buffer.

use vstd::prelude::*;
use vstd::slice::slice_subrange;

verus! {

/// The payload bytes visible once the first `off` bytes are skipped.
pub open spec fn pay_view(data: Seq<u8>, off: int) -> Seq<u8> {
    if 0 <= off <= data.len() {
        data.skip(off)
    } else {
        Seq::empty()
    }
}

/// The headroom left after adjusting by `delta` (positive consumes,
/// negative releases), or `None` when the adjustment leaves the valid
/// range `[0, size - len]`.
pub open spec fn hr_after(hm: int, len: int, size: int, delta: int) -> Option<int> {
    if 0 <= hm - delta && hm - delta + len <= size {
        Some(hm - delta)
    } else {
        None
    }
}

/// The payload length after adjusting by `delta` (positive grows,
/// negative shrinks), or `None` when it would leave `[0, size - hm]`.
pub open spec fn len_after(hm: int, len: int, size: int, delta: int) -> Option<int> {
    if 0 <= len + delta && hm + len + delta <= size {
        Some(len + delta)
    } else {
        None
    }
}

/// One packet buffer descriptor. Descriptors are never cloned: they move
/// from the receive path to the send path or to an explicit free.
pub struct MBuf {
    headroom: usize,
    data: Vec<u8>,
    size: usize,
}

impl MBuf {
    /// Bytes currently reserved before the payload.
    pub closed spec fn spec_headroom(&self) -> nat {
        self.headroom as nat
    }

    /// The current payload bytes.
    pub closed spec fn spec_data(&self) -> Seq<u8> {
        self.data@
    }

    /// The fixed physical bound on headroom plus payload.
    pub closed spec fn spec_size(&self) -> nat {
        self.size as nat
    }

    /// Well-formed: headroom and payload fit in the physical size, and the
    /// size itself fits the signed machine word the adjust results use.
    pub open spec fn wf(&self) -> bool {
        self.spec_headroom() + self.spec_data().len() <= self.spec_size()
            && self.spec_size() <= isize::MAX as nat
    }

    /// Build a descriptor; fails when the regions do not fit `size` or the
    /// size exceeds the signed machine word.
    pub fn new(size: usize, headroom: usize, data: Vec<u8>) -> (r: Option<MBuf>)
        ensures
            match r {
                Some(b) => b.wf() && b.spec_headroom() == headroom && b.spec_data() == data@
                    && b.spec_size() == size,
                None => headroom + data@.len() > size || size > isize::MAX as nat,
            },
    {
        if size <= (isize::MAX as usize) && headroom <= size && data.len() <= size - headroom {
            Some(MBuf { headroom, data, size })
        } else {
            None
        }
    }

    pub fn headroom(&self) -> (r: usize)
        ensures
            r == self.spec_headroom(),
    {
        self.headroom
    }

    pub fn size(&self) -> (r: usize)
        ensures
            r == self.spec_size(),
    {
        self.size
    }

    pub fn data_len(&self) -> (r: usize)
        ensures
            r == self.spec_data().len(),
    {
        self.data.len()
    }

    /// Read-only view of the payload after skipping the first `off` bytes;
    /// empty when `off` lies past the payload.
    pub fn payload(&self, off: usize) -> (r: &[u8])
        ensures
            r@ == pay_view(self.spec_data(), off as int),
    {
        if off <= self.data.len() {
            slice_subrange(self.data.as_slice(), off, self.data.len())
        } else {
            slice_subrange(self.data.as_slice(), 0, 0)
        }
    }

    /// Consume (`delta > 0`) or release (`delta < 0`) headroom; returns the
    /// new headroom, or `None` when it would go negative or exceed the
    /// space the physical size leaves beside the payload.
    pub fn adjust_headroom(&mut self, delta: isize) -> (r: Option<isize>)
        requires
            old(self).wf(),
        ensures
            final(self).wf(),
            final(self).spec_data() == old(self).spec_data(),
            final(self).spec_size() == old(self).spec_size(),
            match hr_after(
                old(self).spec_headroom() as int,
                old(self).spec_data().len() as int,
                old(self).spec_size() as int,
                delta as int,
            ) {
                Some(nh) => final(self).spec_headroom() == nh && r == Some(nh as isize),
                None => *final(self) == *old(self) && r == None::<isize>,
            },
    {
        if delta >= 0 {
            let d = delta as usize;
            if d <= self.headroom {
                self.headroom = self.headroom - d;
                Some(self.headroom as isize)
            } else {
                None
            }
        } else {
            let d: usize = if delta == isize::MIN {
                (isize::MAX as usize) + 1
            } else {
                (-delta) as usize
            };
            let avail = self.size - self.data.len();
            if d <= avail - self.headroom {
                self.headroom = self.headroom + d;
                Some(self.headroom as isize)
            } else {
                None
            }
        }
    }

    /// Grow (`delta > 0`, padding with zero bytes) or shrink (`delta < 0`)
    /// the trailing payload; returns the new payload length, or `None` when
    /// it would go negative or exceed the physical size.
    pub fn adjust_payload_size(&mut self, delta: isize) -> (r: Option<isize>)
        requires
            old(self).wf(),
        ensures
            final(self).wf(),
            final(self).spec_headroom() == old(self).spec_headroom(),
            final(self).spec_size() == old(self).spec_size(),
            match len_after(
                old(self).spec_headroom() as int,
                old(self).spec_data().len() as int,
                old(self).spec_size() as int,
                delta as int,
            ) {
                Some(nl) => final(self).spec_data().len() == nl && r == Some(nl as isize)
                    && (delta >= 0 ==> final(self).spec_data()
                        == old(self).spec_data() + Seq::new(delta as nat, |i: int| 0u8))
                    && (delta < 0 ==> final(self).spec_data() == old(self).spec_data().take(nl)),
                None => *final(self) == *old(self) && r == None::<isize>,
            },
    {
        if delta >= 0 {
            let d = delta as usize;
            let room = self.size - self.headroom;
            if self.data.len() <= room && d <= room - self.data.len() {
                let mut pushed: usize = 0;
                while pushed < d
                    invariant
                        pushed <= d,
                        self.data@ == old(self).spec_data() + Seq::new(pushed as nat, |i: int| 0u8),
                        self.headroom == old(self).spec_headroom(),
                        self.size == old(self).spec_size(),
                    decreases d - pushed,
                {
                    self.data.push(0u8);
                    pushed = pushed + 1;
                }
                assert(self.data@ =~= old(self).spec_data() + Seq::new(d as nat, |i: int| 0u8));
                Some(self.data.len() as isize)
            } else {
                None
            }
        } else {
            let d: usize = if delta == isize::MIN {
                (isize::MAX as usize) + 1
            } else {
                (-delta) as usize
            };
            if d <= self.data.len() {
                let nl = self.data.len() - d;
                self.data.truncate(nl);
                Some(nl as isize)
            } else {
                None
            }
        }
    }
}

/// Adjusting headroom by `+k` and then by `-k` restores the original
/// headroom: the two adjustments are exact inverses whenever the first one
/// succeeds (the second then always succeeds).
pub proof fn lemma_headroom_roundtrip(hm: int, len: int, size: int, k: int)
    requires
        0 <= hm,
        hm + len <= size,
        hr_after(hm, len, size, k) is Some,
    ensures
        hr_after(hr_after(hm, len, size, k)->Some_0, len, size, -k) == Some(hm),
{
}

/// Growing the payload by `+k` and shrinking it by `-k` restores the
/// original payload length, the mirror of the headroom round trip.
pub proof fn lemma_payload_len_roundtrip(hm: int, len: int, size: int, k: int)
    requires
        0 <= len,
        hm + len <= size,
        len_after(hm, len, size, k) is Some,
    ensures
        len_after(hm, len_after(hm, len, size, k)->Some_0, size, -k) == Some(len),
{
}

} // verus!
