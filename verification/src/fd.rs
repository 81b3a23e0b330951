//! Exclusively owned kernel handles and the ledger that tracks which
//! descriptor values are live.
//!
//! An `Fd` wraps one raw descriptor value. The type has no `Clone` or `Copy`,
//! so a value is only ever moved: whoever holds it owns the descriptor. The
//! `FdLedger` models the supervisor's view of which descriptor values are
//! currently live, and its contracts make a second release of the same value
//! impossible.

use vstd::prelude::*;

verus! {

/// One exclusively owned kernel descriptor. Constructing an `Fd` takes
/// ownership of the raw value; `into_raw` gives it up again, exactly once,
/// because it consumes the handle.
pub struct Fd(pub u32);

impl Fd {
    /// Wraps a raw descriptor value.
    pub fn new(raw: u32) -> (r: Fd)
        ensures
            r.0 == raw,
    {
        Fd(raw)
    }

    /// Consumes the handle and hands the raw value back, for the one point
    /// where the descriptor is closed or passed to the kernel for good.
    pub fn into_raw(self) -> (r: u32)
        ensures
            r == self.0,
    {
        self.0
    }

    /// The raw value, for building kernel call arguments without giving up
    /// ownership.
    pub fn raw(&self) -> (r: u32)
        ensures
            r == self.0,
    {
        self.0
    }
}

/// The set of descriptor values the supervisor currently holds. Acquiring a
/// value twice without releasing it, or releasing a value that is not live,
/// is ruled out by the contracts.
pub struct FdLedger {
    live: Vec<u32>,
}

impl FdLedger {
    /// The live descriptor values as a set.
    pub closed spec fn live_set(&self) -> Set<u32> {
        self.live@.to_set()
    }

    /// No descriptor value appears twice in the ledger.
    pub closed spec fn wf(&self) -> bool {
        forall|i: int, j: int|
            0 <= i < j < self.live@.len() ==> self.live@[i] != self.live@[j]
    }

    /// An empty ledger: no descriptor is live.
    pub fn empty() -> (r: FdLedger)
        ensures
            r.wf(),
            r.live_set() == Set::<u32>::empty(),
    {
        let r = FdLedger { live: Vec::new() };
        proof {
            assert(r.live@.to_set() =~= Set::<u32>::empty());
        }
        r
    }

    /// Whether the given descriptor value is live.
    pub fn is_live(&self, raw: u32) -> (r: bool)
        ensures
            r == self.live_set().contains(raw),
    {
        let n = self.live.len();
        let mut i: usize = 0;
        while i < n
            invariant
                n == self.live@.len(),
                0 <= i <= n,
                forall|k: int| 0 <= k < i ==> self.live@[k] != raw,
            decreases n - i,
        {
            if self.live[i] == raw {
                proof {
                    assert(self.live@.contains(raw));
                }
                return true;
            }
            i += 1;
        }
        proof {
            if self.live@.contains(raw) {
                let k = choose|k: int| 0 <= k < self.live@.len() && self.live@[k] == raw;
                assert(false);
            }
        }
        false
    }

    /// Records that the supervisor now owns the descriptor value `raw`.
    pub fn acquire(&mut self, raw: u32)
        requires
            old(self).wf(),
            !old(self).live_set().contains(raw),
        ensures
            final(self).wf(),
            final(self).live_set() == old(self).live_set().insert(raw),
    {
        self.live.push(raw);
        proof {
            let s = old(self).live@;
            let t = self.live@;
            assert(t == s.push(raw));
            assert(!s.contains(raw));
            assert forall|p: int, q: int| 0 <= p < q < t.len() implies t[p] != t[q] by {
                if q < s.len() {
                    assert(t[p] == s[p] && t[q] == s[q]);
                } else {
                    assert(t[q] == raw);
                    assert(t[p] == s[p]);
                    if s[p] == raw {
                        assert(s.contains(raw));
                    }
                }
            }
            assert forall|v: u32| t.contains(v) implies s.to_set().insert(raw).contains(v) by {
                let k = choose|k: int| 0 <= k < t.len() && t[k] == v;
                if k < s.len() {
                    assert(s[k] == v);
                    assert(s.contains(v));
                } else {
                    assert(v == raw);
                }
            }
            assert forall|v: u32| s.to_set().insert(raw).contains(v) implies t.contains(v) by {
                if v == raw {
                    assert(t[s.len() as int] == raw);
                } else {
                    assert(s.contains(v));
                    let k = choose|k: int| 0 <= k < s.len() && s[k] == v;
                    assert(t[k] == v);
                }
            }
            assert(t.to_set() =~= s.to_set().insert(raw));
        }
    }

    /// Records that the descriptor value `raw` has been released. After the
    /// call the value is no longer live, so the `requires` of a second
    /// release of the same value can never be met.
    pub fn release(&mut self, raw: u32)
        requires
            old(self).wf(),
            old(self).live_set().contains(raw),
        ensures
            final(self).wf(),
            final(self).live_set() == old(self).live_set().remove(raw),
    {
        proof {
            assert(self.live@.contains(raw));
        }
        let n = self.live.len();
        let mut i: usize = 0;
        while i < n
            invariant
                self == old(self),
                old(self).wf(),
                old(self).live_set().contains(raw),
                n == self.live@.len(),
                0 <= i <= n,
                forall|k: int| 0 <= k < i ==> self.live@[k] != raw,
            decreases n - i,
        {
            if self.live[i] == raw {
                let ghost s = self.live@;
                self.live.remove(i);
                proof {
                    let t = self.live@;
                    assert(t == s.remove(i as int));
                    assert forall|p: int, q: int| 0 <= p < q < t.len() implies t[p] != t[q] by {
                        if q < i {
                            assert(t[p] == s[p] && t[q] == s[q]);
                        } else if p < i {
                            assert(t[p] == s[p] && t[q] == s[q + 1]);
                        } else {
                            assert(t[p] == s[p + 1] && t[q] == s[q + 1]);
                        }
                    }
                    assert forall|v: u32| t.contains(v) implies s.to_set().remove(raw).contains(v)
                    by {
                        let k = choose|k: int| 0 <= k < t.len() && t[k] == v;
                        if k < i {
                            assert(s[k] == v);
                        } else {
                            assert(s[k + 1] == v);
                        }
                        assert(s.contains(v));
                        if v == raw {
                            // raw stands only at index i of s, and that index was removed
                            if k < i {
                                assert(s[k] == raw && s[i as int] == raw);
                                assert(false);
                            } else {
                                assert(s[k + 1] == raw && s[i as int] == raw);
                                assert(false);
                            }
                        }
                    }
                    assert forall|v: u32| s.to_set().remove(raw).contains(v) implies t.contains(v)
                    by {
                        assert(s.contains(v));
                        let k = choose|k: int| 0 <= k < s.len() && s[k] == v;
                        if k < i {
                            assert(t[k] == v);
                        } else if k > i {
                            assert(t[k - 1] == v);
                        } else {
                            assert(v == raw);
                        }
                    }
                    assert(t.to_set() =~= s.to_set().remove(raw));
                }
                return;
            }
            i += 1;
        }
        proof {
            let k = choose|k: int| 0 <= k < self.live@.len() && self.live@[k] == raw;
            assert(false);
        }
    }
}

/// Handle uniqueness: once a descriptor value has been released, it is no
/// longer live, so a second release of the same value is refused by the
/// ledger until the value is acquired again.
pub proof fn lemma_release_at_most_once(ledger_after: FdLedger, before_live: Set<u32>, raw: u32)
    requires
        ledger_after.live_set() == before_live.remove(raw),
    ensures
        !ledger_after.live_set().contains(raw),
{
}

} // verus!
