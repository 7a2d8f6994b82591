//! A registry that models the ownership discipline for the string
//! handles the shim hands across the foreign boundary.
//!
//! Every output string crosses the boundary as a handle the caller owns
//! until it passes the handle back to be released, exactly once. The
//! registry tracks the set of live handles: issuing adds a fresh handle,
//! releasing a live handle removes it, releasing no handle at all is a
//! no-op, and releasing a handle the registry never issued (or one
//! already released) reclaims nothing and changes nothing — so a
//! release can never double-free, and a full issue/release round trip
//! leaves the registry exactly as it was.

use vstd::prelude::*;

verus! {

/// What a release request did.
#[derive(Clone, Copy, PartialEq, Eq, Structural, Debug)]
pub enum ReleaseOutcome {
    /// No handle was passed: nothing to reclaim, nothing changed.
    NullNoop,
    /// The handle was live and has been reclaimed.
    Released,
    /// The handle is not live: it was never issued here, or it was
    /// already released. Nothing changed.
    NotLive,
}

/// Tracks which handles are currently owned by the foreign caller.
pub struct HandleRegistry {
    /// The live handles, each exactly once.
    live: Vec<u64>,
    /// The next handle value to hand out; larger than every handle
    /// ever issued.
    next: u64,
}

impl HandleRegistry {
    /// The set of handles the caller currently owns.
    pub closed spec fn live(self) -> Set<u64> {
        self.live@.to_set()
    }

    /// How many handles the registry has ever issued. Handles are
    /// numbered in order of issue, so no handle value is ever reused.
    pub closed spec fn issued(self) -> nat {
        self.next as nat
    }

    /// The registry's invariant: no handle is tracked twice, and every
    /// tracked handle is below the next one to be issued.
    pub closed spec fn wf(self) -> bool {
        &&& self.live@.no_duplicates()
        &&& forall|i: int| 0 <= i < self.live@.len() ==> self.live@[i] < self.next
    }

    /// An empty registry: no handle is live, none was ever issued.
    pub fn new() -> (r: Self)
        ensures
            r.wf(),
            r.live() == Set::<u64>::empty(),
            r.issued() == 0,
    {
        let r = HandleRegistry { live: Vec::new(), next: 0 };
        proof {
            assert(r.live() =~= Set::<u64>::empty());
        }
        r
    }

    /// Hands out the next handle in issue order, one the caller does
    /// not already own. `None` exactly when every handle value has been
    /// issued already, in which case nothing changes.
    pub fn issue(&mut self) -> (r: Option<u64>)
        requires
            old(self).wf(),
        ensures
            final(self).wf(),
            r is Some <==> old(self).issued() < u64::MAX,
            match r {
                Option::Some(h) => {
                    &&& h == old(self).issued()
                    &&& !old(self).live().contains(h)
                    &&& final(self).live() == old(self).live().insert(h)
                    &&& final(self).issued() == old(self).issued() + 1
                },
                Option::None => final(self).live() == old(self).live() && final(self).issued()
                    == old(self).issued(),
            },
    {
        if self.next == u64::MAX {
            return None;
        }
        let h = self.next;
        self.next = self.next + 1;
        proof {
            let s = self.live@;
            assert(!s.contains(h));
            s.lemma_push_to_set_commute(h);
            assert(s.push(h).to_set() == s.to_set().insert(h));
            assert forall|i: int, j: int|
                0 <= i < s.push(h).len() && 0 <= j < s.push(h).len() && i != j implies s.push(h)[i]
                != s.push(h)[j] by {
                if i < s.len() && j < s.len() {
                    assert(s[i] != s[j]);
                }
            }
        }
        self.live.push(h);
        Some(h)
    }

    /// Releases a handle: a no-op without a handle, reclaims a live
    /// handle, and refuses (changing nothing) a handle that is not
    /// live — so no handle can ever be reclaimed twice, and a released
    /// handle value is never handed out again.
    pub fn release(&mut self, handle: Option<u64>) -> (r: ReleaseOutcome)
        requires
            old(self).wf(),
        ensures
            final(self).wf(),
            final(self).issued() == old(self).issued(),
            match handle {
                Option::None => r == ReleaseOutcome::NullNoop && final(self).live() == old(
                    self,
                ).live(),
                Option::Some(h) => if old(self).live().contains(h) {
                    r == ReleaseOutcome::Released && final(self).live() == old(
                        self,
                    ).live().remove(h)
                } else {
                    r == ReleaseOutcome::NotLive && final(self).live() == old(self).live()
                },
            },
    {
        match handle {
            None => ReleaseOutcome::NullNoop,
            Some(h) => {
                match find_handle(&self.live, h) {
                    Some(i) => {
                        proof {
                            lemma_remove_from_distinct(self.live@, i as int);
                        }
                        self.live.remove(i);
                        ReleaseOutcome::Released
                    },
                    None => ReleaseOutcome::NotLive,
                }
            },
        }
    }

    /// Whether the caller currently owns `h`.
    pub fn is_live(&self, h: u64) -> (r: bool)
        ensures
            r == self.live().contains(h),
    {
        find_handle(&self.live, h).is_some()
    }

    /// How many handles the caller currently owns; zero means nothing
    /// issued is still outstanding.
    pub fn live_count(&self) -> (n: usize)
        requires
            self.wf(),
        ensures
            n == self.live().len(),
    {
        proof {
            self.live@.unique_seq_to_set();
        }
        self.live.len()
    }
}

/// The index of `h` in `v`, or `None` when `v` does not hold it.
fn find_handle(v: &Vec<u64>, h: u64) -> (r: Option<usize>)
    ensures
        match r {
            Option::Some(i) => i < v@.len() && v@[i as int] == h,
            Option::None => !v@.contains(h),
        },
{
    let mut idx: usize = 0;
    while idx < v.len()
        invariant
            idx <= v@.len(),
            forall|j: int| 0 <= j < idx ==> v@[j] != h,
        decreases v@.len() - idx,
    {
        if v[idx] == h {
            return Some(idx);
        }
        idx = idx + 1;
    }
    None
}

/// Removing the element at `i` from a duplicate-free sequence keeps it
/// duplicate-free, drops exactly that element from the set of values,
/// and introduces no value that was not already there.
proof fn lemma_remove_from_distinct(s: Seq<u64>, i: int)
    requires
        s.no_duplicates(),
        0 <= i < s.len(),
    ensures
        s.remove(i).no_duplicates(),
        s.remove(i).to_set() == s.to_set().remove(s[i]),
{
    let t = s.remove(i);
    s.remove_ensures(i);
    assert forall|j1: int, j2: int|
        0 <= j1 < t.len() && 0 <= j2 < t.len() && j1 != j2 implies t[j1] != t[j2] by {
        let k1: int = if j1 < i { j1 } else { j1 + 1 };
        let k2: int = if j2 < i { j2 } else { j2 + 1 };
        assert(t[j1] == s[k1]);
        assert(t[j2] == s[k2]);
    }
    assert forall|x: u64| t.contains(x) implies s.to_set().remove(s[i]).contains(x) by {
        let j = choose|j: int| 0 <= j < t.len() && t[j] == x;
        let k: int = if j < i { j } else { j + 1 };
        assert(s[k] == x);
        assert(k != i ==> s[k] != s[i]);
    }
    assert forall|x: u64| s.to_set().remove(s[i]).contains(x) implies t.contains(x) by {
        let k = choose|k: int| 0 <= k < s.len() && s[k] == x;
        if k < i {
            assert(t[k] == x);
        } else {
            assert(k != i);
            assert(t[k - 1] == x);
        }
    }
    assert(t.to_set() =~= s.to_set().remove(s[i]));
}

/// A handle issued fresh and then released exactly once leaves the set
/// of live handles exactly as it was — nothing leaks — and the handle
/// is no longer live afterwards, so a second release of the same handle
/// finds nothing to reclaim.
pub proof fn lemma_exactly_once_release(live: Set<u64>, h: u64)
    requires
        !live.contains(h),
    ensures
        live.insert(h).remove(h) == live,
        !live.insert(h).remove(h).contains(h),
{
    assert(live.insert(h).remove(h) =~= live);
}

} // verus!
