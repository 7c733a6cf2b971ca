//! The guest-side external-interrupt injection gate: a per-vCPU, per-ID
//! allow/deny switch. Every new vCPU starts with all external interrupt IDs
//! denied, and the host-side injection of an ID must fail unless the guest
//! has previously allowed that ID: the monitor never injects an interrupt
//! the guest has not opted into.

use vstd::prelude::*;

use crate::error::Error;

verus! {

/// The ID value that stands for all external interrupt IDs at once.
pub const ALL_INTERRUPT_IDS: i64 = -1;

/// The injection gate of one vCPU: which external interrupt IDs the guest
/// currently allows the host to inject.
///
/// One boolean gives the answer for most IDs at once; the vector lists
/// the IDs whose answer is the other one.
pub struct InterruptGate {
    allow_by_default: bool,
    exceptions: Vec<u64>,
}

impl InterruptGate {
    /// Whether injection of the given interrupt ID is currently allowed.
    pub closed spec fn spec_allows(self, id: u64) -> bool {
        self.allow_by_default != self.exceptions@.contains(id)
    }

    /// A fresh vCPU's gate: injection of every external interrupt ID is
    /// denied.
    pub fn new() -> (r: InterruptGate)
        ensures
            forall|id: u64| !r.spec_allows(id),
    {
        InterruptGate { allow_by_default: false, exceptions: Vec::new() }
    }

    /// Allows injection of the given interrupt ID, or of all IDs when the
    /// ID is -1. Any other negative ID is invalid. The policy for every
    /// other ID is unchanged.
    pub fn allow(&mut self, id: i64) -> (r: Result<(), Error>)
        ensures
            id == ALL_INTERRUPT_IDS ==> r is Ok && forall|j: u64| final(self).spec_allows(j),
            id >= 0 ==> r is Ok && forall|j: u64|
                final(self).spec_allows(j) == (j == id as u64 || old(self).spec_allows(j)),
            id < -1 ==> r == Err::<(), Error>(Error::InvalidParam) && forall|j: u64|
                final(self).spec_allows(j) == old(self).spec_allows(j),
    {
        if id == ALL_INTERRUPT_IDS {
            self.allow_by_default = true;
            self.exceptions = Vec::new();
            Ok(())
        } else if id >= 0 {
            self.set_policy(id as u64, true);
            Ok(())
        } else {
            Err(Error::InvalidParam)
        }
    }

    /// Denies injection of the given interrupt ID, or of all IDs when the
    /// ID is -1. Any other negative ID is invalid. The policy for every
    /// other ID is unchanged.
    pub fn deny(&mut self, id: i64) -> (r: Result<(), Error>)
        ensures
            id == ALL_INTERRUPT_IDS ==> r is Ok && forall|j: u64| !final(self).spec_allows(j),
            id >= 0 ==> r is Ok && forall|j: u64|
                final(self).spec_allows(j) == (j != id as u64 && old(self).spec_allows(j)),
            id < -1 ==> r == Err::<(), Error>(Error::InvalidParam) && forall|j: u64|
                final(self).spec_allows(j) == old(self).spec_allows(j),
    {
        if id == ALL_INTERRUPT_IDS {
            self.allow_by_default = false;
            self.exceptions = Vec::new();
            Ok(())
        } else if id >= 0 {
            self.set_policy(id as u64, false);
            Ok(())
        } else {
            Err(Error::InvalidParam)
        }
    }

    /// Sets the policy of one ID to `allow`, leaving every other ID as it
    /// was.
    fn set_policy(&mut self, id: u64, allow: bool)
        ensures
            final(self).spec_allows(id) == allow,
            forall|j: u64| j != id ==> final(self).spec_allows(j) == old(self).spec_allows(j),
    {
        let base = self.allow_by_default;
        if base == allow {
            remove_value(&mut self.exceptions, id);
        } else {
            insert_value(&mut self.exceptions, id);
        }
    }

    /// The host-side check before injecting an external interrupt:
    /// succeeds exactly when the guest has allowed the ID, and is denied
    /// otherwise.
    pub fn check_inject(&self, id: u64) -> (r: Result<(), Error>)
        ensures
            r is Ok <==> self.spec_allows(id),
            !self.spec_allows(id) ==> r == Err::<(), Error>(Error::Denied),
    {
        let in_exceptions = contains_value(&self.exceptions, id);
        if self.allow_by_default != in_exceptions {
            Ok(())
        } else {
            Err(Error::Denied)
        }
    }
}

/// Whether the vector contains the given value.
fn contains_value(v: &Vec<u64>, x: u64) -> (r: bool)
    ensures
        r == v@.contains(x),
{
    let mut i: usize = 0;
    while i < v.len()
        invariant
            i <= v@.len(),
            forall|k: int| 0 <= k < i ==> v@[k] != x,
        decreases v@.len() - i,
    {
        if v[i] == x {
            assert(v@.contains(x));
            return true;
        }
        i += 1;
    }
    false
}

/// Adds the value to the vector if it is not already present.
fn insert_value(v: &mut Vec<u64>, x: u64)
    ensures
        final(v)@.contains(x),
        forall|j: u64| j != x ==> final(v)@.contains(j) == old(v)@.contains(j),
{
    if !contains_value(v, x) {
        let ghost before = v@;
        v.push(x);
        assert(v@.contains(x)) by {
            assert(v@[before.len() as int] == x);
        }
        assert forall|j: u64| j != x implies v@.contains(j) == before.contains(j) by {
            if v@.contains(j) {
                let k = choose|k: int| 0 <= k < v@.len() && v@[k] == j;
                assert(before[k] == j);
            } else {
                if before.contains(j) {
                    let k = choose|k: int| 0 <= k < before.len() && before[k] == j;
                    assert(v@[k] == j);
                }
            }
        }
    }
}

/// Removes every occurrence of the value from the vector.
fn remove_value(v: &mut Vec<u64>, x: u64)
    ensures
        !final(v)@.contains(x),
        forall|j: u64| j != x ==> final(v)@.contains(j) == old(v)@.contains(j),
{
    let mut out: Vec<u64> = Vec::new();
    let mut i: usize = 0;
    while i < v.len()
        invariant
            i <= v@.len(),
            !out@.contains(x),
            forall|j: u64|
                j != x ==> out@.contains(j) == v@.subrange(0, i as int).contains(j),
        decreases v@.len() - i,
    {
        let ghost out_before = out@;
        let ghost prefix = v@.subrange(0, i as int);
        let e = v[i];
        if e != x {
            out.push(e);
        }
        proof {
            assert(v@.subrange(0, i + 1 as int) =~= prefix.push(v@[i as int]));
            assert forall|j: u64| j != x implies out@.contains(j) == v@.subrange(
                0,
                i + 1 as int,
            ).contains(j) by {
                let next = v@.subrange(0, i + 1 as int);
                if out@.contains(j) {
                    let k = choose|k: int| 0 <= k < out@.len() && out@[k] == j;
                    if k < out_before.len() {
                        assert(out_before.contains(j));
                        assert(prefix.contains(j));
                        let m = choose|m: int| 0 <= m < prefix.len() && prefix[m] == j;
                        assert(next[m] == j);
                    } else {
                        assert(out@[k] == e && e == j);
                        assert(next[i as int] == j);
                    }
                } else {
                    if next.contains(j) {
                        let k = choose|k: int| 0 <= k < next.len() && next[k] == j;
                        if k < i {
                            assert(prefix[k] == j);
                            assert(out_before.contains(j));
                            let m = choose|m: int|
                                0 <= m < out_before.len() && out_before[m] == j;
                            assert(out@[m] == j);
                            assert(false);
                        } else {
                            assert(e == j);
                            assert(out@[out_before.len() as int] == j);
                            assert(false);
                        }
                    }
                }
            }
        }
        i += 1;
    }
    proof {
        assert(v@.subrange(0, v@.len() as int) =~= v@);
    }
    *v = out;
}

} // verus!
