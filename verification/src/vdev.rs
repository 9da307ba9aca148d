//! Virtual-device names.
//!
//! A virtual port is named `"bess:<name>"` or `"ovs:<id>"`. Exactly one
//! colon must appear; the prefix picks the backend; for OVS the part after
//! the colon must be a non-negative decimal integer that fits `i32`. Any
//! other shape is `BadVdev`.

use vstd::prelude::*;
use vstd::string::StrSliceExecFns;
use crate::driver::Driver;
use crate::interface::ZCSIError;
use crate::pmd::{fresh_stats, PmdPort};

verus! {

/// Index of the first colon at or after `i`, or -1 when there is none.
pub open spec fn find_colon(s: Seq<char>, i: int) -> int
    decreases s.len() - i,
{
    if i < 0 || i >= s.len() {
        -1
    } else if s[i] == ':' {
        i
    } else {
        find_colon(s, i + 1)
    }
}

/// One or more decimal digits.
pub open spec fn is_digits(t: Seq<char>) -> bool {
    t.len() > 0 && (forall|i: int| 0 <= i < t.len() ==> 48 <= #[trigger] t[i] as int <= 57)
}

/// The value of a decimal digit string.
pub open spec fn digits_val(t: Seq<char>) -> int
    decreases t.len(),
{
    if t.len() == 0 {
        0
    } else {
        digits_val(t.drop_last()) * 10 + (t.last() as int - 48)
    }
}

pub open spec fn bess_seq() -> Seq<char> {
    seq!['b', 'e', 's', 's']
}

pub open spec fn ovs_seq() -> Seq<char> {
    seq!['o', 'v', 's']
}

/// The name has exactly one colon.
pub open spec fn vdev_split_ok(s: Seq<char>) -> bool {
    find_colon(s, 0) >= 0 && find_colon(s, find_colon(s, 0) + 1) == -1
}

/// The part before the (first) colon.
pub open spec fn vdev_prefix(s: Seq<char>) -> Seq<char> {
    s.take(find_colon(s, 0))
}

/// The part after the (first) colon.
pub open spec fn vdev_rest(s: Seq<char>) -> Seq<char> {
    s.skip(find_colon(s, 0) + 1)
}

/// A well-formed BESS ring name: one colon, prefix `bess`.
pub open spec fn is_bess_vdev(s: Seq<char>) -> bool {
    vdev_split_ok(s) && vdev_prefix(s) == bess_seq()
}

/// A well-formed OVS ring name: one colon, prefix `ovs`, and an interface
/// id that is a non-negative decimal integer fitting `i32`.
pub open spec fn is_ovs_vdev(s: Seq<char>) -> bool {
    vdev_split_ok(s) && vdev_prefix(s) == ovs_seq() && is_digits(vdev_rest(s)) && digits_val(
        vdev_rest(s),
    ) <= i32::MAX
}

/// Every virtual-device name the core accepts.
pub open spec fn vdev_well_formed(s: Seq<char>) -> bool {
    is_bess_vdev(s) || is_ovs_vdev(s)
}

proof fn lemma_find_colon_none(s: Seq<char>, i: int)
    requires
        0 <= i <= s.len(),
        forall|j: int| i <= j < s.len() ==> s[j] != ':',
    ensures
        find_colon(s, i) == -1,
    decreases s.len() - i,
{
    if i < s.len() {
        lemma_find_colon_none(s, i + 1);
    }
}

proof fn lemma_find_colon_at(s: Seq<char>, i: int, k: int)
    requires
        0 <= i <= k < s.len(),
        s[k] == ':',
        forall|j: int| i <= j < k ==> s[j] != ':',
    ensures
        find_colon(s, i) == k,
    decreases k - i,
{
    if i < k {
        lemma_find_colon_at(s, i + 1, k);
    }
}

proof fn lemma_digits_val_nonneg(t: Seq<char>)
    requires
        forall|i: int| 0 <= i < t.len() ==> 48 <= #[trigger] t[i] as int <= 57,
    ensures
        digits_val(t) >= 0,
    decreases t.len(),
{
    if t.len() > 0 {
        lemma_digits_val_nonneg(t.drop_last());
    }
}

proof fn lemma_digits_val_prefix_le(t: Seq<char>, k: int)
    requires
        forall|i: int| 0 <= i < t.len() ==> 48 <= #[trigger] t[i] as int <= 57,
        0 <= k <= t.len(),
    ensures
        digits_val(t.take(k)) <= digits_val(t),
    decreases t.len(),
{
    if k == t.len() {
        assert(t.take(k) =~= t);
    } else {
        assert(t.drop_last().take(k) =~= t.take(k));
        lemma_digits_val_prefix_le(t.drop_last(), k);
        lemma_digits_val_nonneg(t.drop_last());
    }
}

impl PmdPort {
    /// Attach to a ring shared with a BESS process. The driver decides
    /// whether `name` denotes a live ring; a rejected attach surfaces as
    /// `FailedToInitializePort`. The handle never closes the ring.
    fn new_bess_port<D: Driver>(d: &mut D, name: &str, core: i32) -> (r: Result<
        PmdPort,
        ZCSIError,
    >)
        ensures
            match r {
                Ok(p) => p.wf() && p.rxq() == 1 && p.txq() == 1 && !p.closes()
                    && p.is_connected() && p.rx_stats() == fresh_stats(1) && p.tx_stats()
                    == fresh_stats(1),
                Err(e) => e == ZCSIError::FailedToInitializePort,
            },
    {
        let dport = d.init_bess_ring(name, core);
        if dport >= 0 {
            Ok(PmdPort::vring_port(dport))
        } else {
            Err(ZCSIError::FailedToInitializePort)
        }
    }

    /// Attach to an OVS ring by decimal interface id. A `name` that is not
    /// a non-negative decimal integer fitting `i32` is `BadVdev`; the
    /// driver is consulted only for a well-formed id.
    fn new_ovs_port<D: Driver>(d: &mut D, name: &str, core: i32) -> (r: Result<
        PmdPort,
        ZCSIError,
    >)
        ensures
            r == Err::<PmdPort, ZCSIError>(ZCSIError::BadVdev) <==> !(is_digits(name@)
                && digits_val(name@) <= i32::MAX),
            match r {
                Ok(p) => p.wf() && p.rxq() == 1 && p.txq() == 1 && !p.closes()
                    && p.is_connected() && p.rx_stats() == fresh_stats(1) && p.tx_stats()
                    == fresh_stats(1),
                Err(e) => e == ZCSIError::BadVdev || e == ZCSIError::FailedToInitializePort,
            },
    {
        let n = name.unicode_len();
        if n == 0 {
            return Err(ZCSIError::BadVdev);
        }
        let mut j: usize = 0;
        let mut val: i64 = 0;
        while j < n
            invariant
                0 <= j <= n,
                n == name@.len(),
                forall|t: int| 0 <= t < j ==> 48 <= #[trigger] name@[t] as int <= 57,
                val == digits_val(name@.take(j as int)),
                0 <= val <= i32::MAX,
            decreases n - j,
        {
            let c = name.get_char(j);
            let cu = c as u32;
            if cu < 48 || cu > 57 {
                return Err(ZCSIError::BadVdev);
            }
            let nv: i64 = val * 10 + ((cu - 48) as i64);
            proof {
                assert(name@.take(j + 1).drop_last() =~= name@.take(j as int));
                assert(name@.take(j + 1).last() == name@[j as int]);
            }
            if nv > (i32::MAX as i64) {
                proof {
                    if is_digits(name@) && digits_val(name@) <= i32::MAX {
                        lemma_digits_val_prefix_le(name@, j + 1);
                    }
                }
                return Err(ZCSIError::BadVdev);
            }
            val = nv;
            j = j + 1;
        }
        proof {
            assert(name@.take(n as int) =~= name@);
        }
        let dport = d.init_ovs_ring(val as i32, core);
        if dport >= 0 {
            Ok(PmdPort::vring_port(dport))
        } else {
            Err(ZCSIError::FailedToInitializePort)
        }
    }

    /// Open a virtual device named `"bess:<name>"` or `"ovs:<id>"`. A
    /// malformed name — no colon, two colons, an unknown prefix, or an OVS
    /// id that is not a non-negative integer — is `BadVdev`, and the driver
    /// is not consulted. For a well-formed name the chosen backend decides;
    /// its refusal surfaces as `FailedToInitializePort`.
    pub fn new_vdev<D: Driver>(d: &mut D, name: &str, core: i32) -> (r: Result<
        PmdPort,
        ZCSIError,
    >)
        ensures
            r == Err::<PmdPort, ZCSIError>(ZCSIError::BadVdev) <==> !vdev_well_formed(name@),
            match r {
                Ok(p) => p.wf() && p.rxq() == 1 && p.txq() == 1 && !p.closes()
                    && p.is_connected() && p.rx_stats() == fresh_stats(1) && p.tx_stats()
                    == fresh_stats(1),
                Err(e) => e == ZCSIError::BadVdev || e == ZCSIError::FailedToInitializePort,
            },
    {
        let n = name.unicode_len();
        let mut i: usize = 0;
        let mut found = false;
        let mut col: usize = 0;
        let mut dup = false;
        let mut col2: usize = 0;
        while i < n
            invariant
                0 <= i <= n,
                n == name@.len(),
                !found ==> !dup && (forall|j: int| 0 <= j < i ==> name@[j] != ':'),
                found ==> col < i && name@[col as int] == ':' && (forall|j: int|
                    0 <= j < col ==> name@[j] != ':'),
                found && !dup ==> (forall|j: int| col < j < i ==> name@[j] != ':'),
                dup ==> found && col < col2 < i && name@[col2 as int] == ':' && (forall|j: int|
                    col < j < col2 ==> name@[j] != ':'),
            decreases n - i,
        {
            let c = name.get_char(i);
            if c == ':' {
                if found {
                    if !dup {
                        dup = true;
                        col2 = i;
                    }
                } else {
                    found = true;
                    col = i;
                }
            }
            i = i + 1;
        }
        if !found {
            proof {
                lemma_find_colon_none(name@, 0);
            }
            return Err(ZCSIError::BadVdev);
        }
        proof {
            lemma_find_colon_at(name@, 0, col as int);
        }
        if dup {
            proof {
                lemma_find_colon_at(name@, col + 1, col2 as int);
            }
            return Err(ZCSIError::BadVdev);
        }
        proof {
            lemma_find_colon_none(name@, col + 1);
        }
        let is_bess = col == 4 && name.get_char(0) == 'b' && name.get_char(1) == 'e'
            && name.get_char(2) == 's' && name.get_char(3) == 's';
        let is_ovs = col == 3 && name.get_char(0) == 'o' && name.get_char(1) == 'v'
            && name.get_char(2) == 's';
        proof {
            assert(bess_seq().len() == 4);
            assert(ovs_seq().len() == 3);
            if is_bess {
                assert(vdev_prefix(name@) =~= bess_seq());
            } else {
                assert(vdev_prefix(name@) != bess_seq());
            }
            if is_ovs {
                assert(vdev_prefix(name@) =~= ovs_seq());
            } else {
                assert(vdev_prefix(name@) != ovs_seq());
            }
        }
        if is_bess {
            let rest = name.substring_char(col + 1, n);
            Self::new_bess_port(d, rest, core)
        } else if is_ovs {
            let rest = name.substring_char(col + 1, n);
            proof {
                assert(rest@ =~= vdev_rest(name@));
            }
            Self::new_ovs_port(d, rest, core)
        } else {
            Err(ZCSIError::BadVdev)
        }
    }
}

} // verus!
