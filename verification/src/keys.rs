//! The key-state tracker: the set of currently held keys, mutated by press
//! and release notifications from the device event source.

use vstd::prelude::*;

verus! {

/// The set of keys currently held down. A key is a member exactly when its
/// most recent event was a press not yet followed by a release. Unknown key
/// codes are stored like any other and simply never matched by the
/// translation engine.
pub struct ActiveKeySet {
    held: Vec<u16>,
}

impl View for ActiveKeySet {
    type V = Set<u16>;

    closed spec fn view(&self) -> Set<u16> {
        self.held@.to_set()
    }
}

impl ActiveKeySet {
    /// The backing vector holds each key code at most once.
    pub closed spec fn wf(&self) -> bool {
        forall|p: int, q: int|
            0 <= p < q < self.held@.len() ==> self.held@[p] != self.held@[q]
    }

    /// An empty tracker: no key is held.
    pub fn new() -> (s: Self)
        ensures
            s.wf(),
            s@ == Set::<u16>::empty(),
    {
        let s = ActiveKeySet { held: Vec::new() };
        proof {
            assert(s@ =~= Set::<u16>::empty());
        }
        s
    }

    /// Whether `key` is currently held.
    pub fn contains(&self, key: u16) -> (held: bool)
        ensures
            held == self@.contains(key),
    {
        let mut i: usize = 0;
        while i < self.held.len()
            invariant
                i <= self.held.len(),
                forall|k: int| 0 <= k < i ==> self.held@[k] != key,
            decreases self.held.len() - i,
        {
            if self.held[i] == key {
                assert(self.held@.contains(key));
                return true;
            }
            i += 1;
        }
        assert(!self.held@.contains(key));
        false
    }

    /// Record a key press: inserts `key`, a no-op when it is already held.
    pub fn on_key_press(&mut self, key: u16)
        requires
            old(self).wf(),
        ensures
            final(self).wf(),
            final(self)@ == old(self)@.insert(key),
    {
        if !self.contains(key) {
            proof {
                assert(!self.held@.contains(key));
            }
            self.held.push(key);
            proof {
                let s = old(self).held@;
                assert forall|p: int, q: int|
                    0 <= p < q < self.held@.len() implies self.held@[p] != self.held@[q] by {
                    if q == s.len() {
                        assert(s[p] == self.held@[p]);
                        if self.held@[p] == key {
                            assert(s.contains(key));
                        }
                    }
                }
                s.lemma_push_to_set_commute(key);
                assert(self@ =~= old(self)@.insert(key));
            }
        } else {
            proof {
                assert(self@ =~= old(self)@.insert(key));
            }
        }
    }

    /// Record a key release: removes `key`, a no-op when it is not held.
    pub fn on_key_release(&mut self, key: u16)
        requires
            old(self).wf(),
        ensures
            final(self).wf(),
            final(self)@ == old(self)@.remove(key),
    {
        let mut i: usize = 0;
        while i < self.held.len()
            invariant
                i <= self.held.len(),
                old(self).wf(),
                self.held@ == old(self).held@,
                forall|k: int| 0 <= k < i ==> self.held@[k] != key,
            decreases self.held.len() - i,
        {
            if self.held[i] == key {
                let ghost s = self.held@;
                let ghost idx = i as int;
                self.held.remove(i);
                proof {
                    lemma_remove_held_index(s, idx, key);
                    assert(self@ =~= old(self)@.remove(key));
                }
                return;
            }
            i += 1;
        }
        proof {
            assert(!self.held@.contains(key));
            assert(self@ =~= old(self)@.remove(key));
        }
    }
}

/// Removing the one index that holds `key` from a duplicate-free sequence
/// removes exactly `key` from the induced set and keeps the sequence
/// duplicate-free.
proof fn lemma_remove_held_index(s: Seq<u16>, i: int, key: u16)
    requires
        0 <= i < s.len(),
        s[i] == key,
        forall|p: int, q: int| 0 <= p < q < s.len() ==> s[p] != s[q],
    ensures
        s.remove(i).to_set() =~= s.to_set().remove(key),
        forall|p: int, q: int|
            0 <= p < q < s.remove(i).len() ==> s.remove(i)[p] != s.remove(i)[q],
{
    let t = s.remove(i);
    assert(t.len() == s.len() - 1);
    assert forall|j: int| 0 <= j < t.len() implies t[j] == (if j < i {
        s[j]
    } else {
        s[j + 1]
    }) by {}
    assert forall|x: u16| t.to_set().contains(x) implies s.to_set().remove(key).contains(
        x,
    ) by {
        let j = choose|j: int| 0 <= j < t.len() && t[j] == x;
        if j < i {
            assert(s[j] == x);
            assert(s.contains(x));
            if x == key {
                assert(s[j] == s[i]);
            }
        } else {
            assert(s[j + 1] == x);
            assert(s.contains(x));
            if x == key {
                assert(s[i] == s[j + 1]);
            }
        }
    }
    assert forall|x: u16| s.to_set().remove(key).contains(x) implies t.to_set().contains(
        x,
    ) by {
        let j = choose|j: int| 0 <= j < s.len() && s[j] == x;
        assert(x != key);
        assert(j != i);
        if j < i {
            assert(t[j] == x);
            assert(t.contains(x));
        } else {
            assert(t[j - 1] == x);
            assert(t.contains(x));
        }
    }
    assert forall|p: int, q: int| 0 <= p < q < t.len() implies t[p] != t[q] by {
        let p2: int = if p < i {
            p
        } else {
            p + 1
        };
        let q2: int = if q < i {
            q
        } else {
            q + 1
        };
        assert(t[p] == s[p2]);
        assert(t[q] == s[q2]);
        assert(p2 < q2);
    }
}

/// Apply one keyboard event to the tracker: a press inserts the key, a
/// release removes it.
pub fn apply_key_event(active: &mut ActiveKeySet, key: u16, pressed: bool)
    requires
        old(active).wf(),
    ensures
        final(active).wf(),
        final(active)@ == (if pressed {
            old(active)@.insert(key)
        } else {
            old(active)@.remove(key)
        }),
{
    if pressed {
        active.on_key_press(key);
    } else {
        active.on_key_release(key);
    }
}

} // verus!
