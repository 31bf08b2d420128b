//! The liveness monitor's failure accounting.
//!
//! Each peer carries a consecutive-failure counter: created at its
//! first failed probe, incremented on every further failure, discarded
//! on any success. A peer whose counter reaches the eviction threshold
//! is evicted (and its counter discarded); the registry removal and the
//! discovery-service notification follow outside.

use vstd::prelude::*;
use vstd::pervasive::VecAdditionalExecFns;
use vstd::string::StringExecFns;
use crate::text::str_eq;

verus! {

/// Consecutive failed probes after which a peer is evicted.
pub const EVICTION_THRESHOLD: u8 = 3;

/// Pause between two probe rounds, in seconds.
pub const PROBE_INTERVAL_SECS: u64 = 5;

/// Deadline for one reachability probe, in seconds.
pub const PROBE_TIMEOUT_SECS: u64 = 5;

/// Some entry of `s` carries the key `k`.
pub open spec fn spec_has_key(s: Seq<(Seq<char>, u8)>, k: Seq<char>) -> bool {
    exists|i: int| 0 <= i < s.len() && s[i].0 == k
}

/// The index of the entry carrying `k` (unique when keys are unique).
pub open spec fn spec_index_of_key(s: Seq<(Seq<char>, u8)>, k: Seq<char>) -> int {
    choose|i: int| 0 <= i < s.len() && s[i].0 == k
}

/// No two entries of `s` carry the same key.
pub open spec fn spec_unique_keys(s: Seq<(Seq<char>, u8)>) -> bool {
    forall|i: int, j: int| 0 <= i < j < s.len() ==> s[i].0 != s[j].0
}

/// The consecutive-failure count recorded for `k`: its entry's value,
/// or zero when no entry exists.
pub open spec fn spec_count_of(s: Seq<(Seq<char>, u8)>, k: Seq<char>) -> int {
    if spec_has_key(s, k) {
        s[spec_index_of_key(s, k)].1 as int
    } else {
        0
    }
}

/// With unique keys, the index found for `s[i].0` is `i` itself.
pub proof fn lemma_key_index_unique(s: Seq<(Seq<char>, u8)>, i: int)
    requires
        spec_unique_keys(s),
        0 <= i < s.len(),
    ensures
        spec_has_key(s, s[i].0),
        spec_index_of_key(s, s[i].0) == i,
{
    assert(spec_has_key(s, s[i].0)) by {
        assert(0 <= i < s.len() && s[i].0 == s[i].0);
    }
    let k = spec_index_of_key(s, s[i].0);
    assert(0 <= k < s.len() && s[k].0 == s[i].0);
    if k < i {
        assert(s[k].0 != s[i].0);
    }
    if i < k {
        assert(s[i].0 != s[k].0);
    }
}

/// The per-peer failure counters owned by the liveness monitor.
pub struct LivenessMonitor {
    counters: Vec<(String, u8)>,
}

impl View for LivenessMonitor {
    type V = Seq<(Seq<char>, u8)>;

    closed spec fn view(&self) -> Seq<(Seq<char>, u8)> {
        self.counters@.map_values(|p: (String, u8)| (p.0@, p.1))
    }
}

impl LivenessMonitor {
    /// Keys are unique, and a recorded count is always at least one
    /// failed probe and below the eviction threshold: a peer that
    /// reaches the threshold is evicted at once and its entry dropped.
    pub open spec fn wf(&self) -> bool {
        spec_unique_keys(self@) && forall|i: int|
            0 <= i < self@.len() ==> 1 <= #[trigger] self@[i].1 < EVICTION_THRESHOLD
    }

    /// A fresh monitor: no failures recorded for anyone.
    pub fn new() -> (r: LivenessMonitor)
        ensures
            r.wf(),
            r@ =~= Seq::<(Seq<char>, u8)>::empty(),
    {
        LivenessMonitor { counters: Vec::new() }
    }

    /// The recorded consecutive-failure count for `id` (zero when none
    /// is recorded).
    pub fn count_for(&self, id: &str) -> (c: u8)
        requires
            self.wf(),
        ensures
            c as int == spec_count_of(self@, id@),
    {
        let n = self.counters.len();
        let mut i: usize = 0;
        while i < n
            invariant
                n == self.counters@.len(),
                self.wf(),
                i <= n,
                forall|j: int| 0 <= j < i ==> self@[j].0 != id@,
            decreases n - i,
        {
            if str_eq(self.counters[i].0.as_str(), id) {
                proof {
                    assert(self@[i as int].0 == id@);
                    lemma_key_index_unique(self@, i as int);
                }
                return self.counters[i].1;
            }
            i = i + 1;
        }
        proof {
            assert(!spec_has_key(self@, id@));
        }
        0
    }

    /// Record one probe of the peer `id`. A success discards the
    /// peer's counter (reset to zero) and never evicts. A failure
    /// increments it; when the new count reaches the eviction
    /// threshold the peer is evicted and its counter discarded,
    /// otherwise the new count is kept.
    pub fn record_probe(&mut self, id: &str, ok: bool) -> (evict: bool)
        requires
            old(self).wf(),
        ensures
            final(self).wf(),
            evict == (!ok && spec_count_of(old(self)@, id@) + 1 >= EVICTION_THRESHOLD as int),
            ok || evict ==> spec_count_of(final(self)@, id@) == 0,
            !ok && !evict ==> spec_count_of(final(self)@, id@) == spec_count_of(old(self)@, id@)
                + 1,
            ok && spec_has_key(old(self)@, id@) ==> final(self)@ == old(self)@.remove(
                spec_index_of_key(old(self)@, id@),
            ),
            ok && !spec_has_key(old(self)@, id@) ==> final(self)@ == old(self)@,
            evict ==> final(self)@ == old(self)@.remove(spec_index_of_key(old(self)@, id@)),
            !ok && !evict && spec_has_key(old(self)@, id@) ==> final(self)@ == old(self)@.update(
                spec_index_of_key(old(self)@, id@),
                (id@, (spec_count_of(old(self)@, id@) + 1) as u8),
            ),
            !ok && !evict && !spec_has_key(old(self)@, id@) ==> final(self)@ == old(self)@.push(
                (id@, 1u8),
            ),
    {
        let n = self.counters.len();
        let mut i: usize = 0;
        while i < n
            invariant
                n == self.counters@.len(),
                *self == *old(self),
                old(self).wf(),
                i <= n,
                forall|j: int| 0 <= j < i ==> self@[j].0 != id@,
            decreases n - i,
        {
            if str_eq(self.counters[i].0.as_str(), id) {
                proof {
                    assert(self@[i as int].0 == id@);
                    lemma_key_index_unique(self@, i as int);
                }
                if ok {
                    self.counters.remove(i);
                    proof {
                        assert(self@ =~= old(self)@.remove(i as int));
                        self.lemma_after_remove(old(self)@, i as int, id@);
                    }
                    return false;
                }
                let c = self.counters[i].1;
                if c >= EVICTION_THRESHOLD - 1 {
                    self.counters.remove(i);
                    proof {
                        assert(self@ =~= old(self)@.remove(i as int));
                        self.lemma_after_remove(old(self)@, i as int, id@);
                    }
                    return true;
                }
                let key = self.counters[i].0.clone();
                self.counters.set(i, (key, c + 1));
                proof {
                    assert(final(self)@ =~= old(self)@.update(i as int, (id@, (c + 1) as u8)));
                    assert forall|a: int, b: int|
                        0 <= a < b < final(self)@.len() implies final(self)@[a].0
                        != final(self)@[b].0 by {
                        assert(old(self)@[a].0 != old(self)@[b].0);
                    }
                    lemma_key_index_unique(final(self)@, i as int);
                }
                return false;
            }
            i = i + 1;
        }
        proof {
            assert(!spec_has_key(self@, id@));
        }
        if ok {
            return false;
        }
        let key = String::from_str(id);
        self.counters.push((key, 1));
        proof {
            assert(final(self)@ =~= old(self)@.push((id@, 1u8)));
            assert forall|a: int, b: int|
                0 <= a < b < final(self)@.len() implies final(self)@[a].0 != final(self)@[b].0 by {
                if b < old(self)@.len() {
                    assert(old(self)@[a].0 != old(self)@[b].0);
                } else {
                    assert(!(old(self)@[a].0 == id@));
                }
            }
            lemma_key_index_unique(final(self)@, old(self)@.len() as int);
        }
        false
    }

    /// After removing the unique entry for `k` at index `i`, keys stay
    /// unique and no entry for `k` remains.
    proof fn lemma_after_remove(&self, prior: Seq<(Seq<char>, u8)>, i: int, k: Seq<char>)
        requires
            spec_unique_keys(prior),
            0 <= i < prior.len(),
            prior[i].0 == k,
            self@ == prior.remove(i),
        ensures
            spec_unique_keys(self@),
            !spec_has_key(self@, k),
            spec_count_of(self@, k) == 0,
    {
        assert forall|a: int, b: int|
            0 <= a < b < self@.len() implies self@[a].0 != self@[b].0 by {
            assert(self@[a] == if a < i {
                prior[a]
            } else {
                prior[a + 1]
            });
            assert(self@[b] == if b < i {
                prior[b]
            } else {
                prior[b + 1]
            });
        }
        assert forall|j: int| 0 <= j < self@.len() implies self@[j].0 != k by {
            if j < i {
                assert(self@[j] == prior[j]);
            } else {
                assert(self@[j] == prior[j + 1]);
            }
        }
    }
}

} // verus!
