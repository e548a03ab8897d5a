//! Per-run mutable state: the `closed` flag, the set of currently held key
//! identifiers, the absolute mouse position and the start instant.
//!
//! Key identifiers are plain `i32` codes. Mouse buttons share the same
//! identifier space through dedicated pseudo-key codes, so one set tracks
//! everything that is currently held.

use vstd::prelude::*;

verus! {

/// The set of raw key identifiers currently held down, backed by a vector
/// without duplicates.
pub struct KeySet {
    keys: Vec<i32>,
}

impl View for KeySet {
    type V = Set<i32>;

    closed spec fn view(&self) -> Set<i32> {
        self.keys@.to_set()
    }
}

impl KeySet {
    /// No key identifier occurs twice in the backing vector.
    pub closed spec fn wf(&self) -> bool {
        self.keys@.no_duplicates()
    }

    pub fn new() -> (s: KeySet)
        ensures
            s.wf(),
            s@ == Set::<i32>::empty(),
    {
        let s = KeySet { keys: Vec::new() };
        proof {
            assert(s@ =~= Set::<i32>::empty());
        }
        s
    }

    pub fn contains(&self, code: i32) -> (r: bool)
        ensures
            r == self@.contains(code),
    {
        let mut i: usize = 0;
        while i < self.keys.len()
            invariant
                0 <= i <= self.keys@.len(),
                forall|j: int| 0 <= j < i ==> self.keys@[j] != code,
            decreases self.keys@.len() - i,
        {
            if self.keys[i] == code {
                return true;
            }
            i = i + 1;
        }
        proof {
            assert(!self.keys@.contains(code));
        }
        false
    }

    /// Add a key identifier; holding an already held key changes nothing.
    pub fn insert(&mut self, code: i32)
        requires
            old(self).wf(),
        ensures
            final(self).wf(),
            final(self)@ == old(self)@.insert(code),
    {
        if !self.contains(code) {
            self.keys.push(code);
            proof {
                old(self).keys@.lemma_push_to_set_commute(code);
            }
        } else {
            proof {
                assert(self@ =~= self@.insert(code));
            }
        }
    }

    /// Drop a key identifier; releasing a key that is not held changes
    /// nothing.
    pub fn remove(&mut self, code: i32)
        requires
            old(self).wf(),
        ensures
            final(self).wf(),
            final(self)@ == old(self)@.remove(code),
    {
        let ghost s = self.keys@;
        let mut i: usize = 0;
        while i < self.keys.len()
            invariant
                self.keys@ == s,
                old(self).keys@ == s,
                s.no_duplicates(),
                0 <= i <= s.len(),
                forall|j: int| 0 <= j < i ==> s[j] != code,
            decreases s.len() - i,
        {
            if self.keys[i] == code {
                self.keys.remove(i);
                proof {
                    lemma_unique_seq_remove_to_set(s, i as int);
                }
                return;
            }
            i = i + 1;
        }
        proof {
            assert(!s.contains(code));
            assert(self@ =~= self@.remove(code));
        }
    }

    /// How many keys are currently held.
    pub fn len(&self) -> (n: usize)
        requires
            self.wf(),
        ensures
            n == self@.len(),
    {
        proof {
            self.keys@.unique_seq_to_set();
        }
        self.keys.len()
    }
}

/// Removing one occurrence of an element from a duplicate-free sequence
/// removes exactly that element from the induced set, and keeps the sequence
/// duplicate-free.
proof fn lemma_unique_seq_remove_to_set(s: Seq<i32>, i: int)
    requires
        s.no_duplicates(),
        0 <= i < s.len(),
    ensures
        s.remove(i).no_duplicates(),
        s.remove(i).to_set() == s.to_set().remove(s[i]),
{
    let t = s.remove(i);
    s.remove_ensures(i);
    assert forall|j1: int, j2: int| 0 <= j1 < j2 < t.len() implies t[j1] != t[j2] by {
        let k1: int = if j1 < i { j1 } else { j1 + 1 };
        let k2: int = if j2 < i { j2 } else { j2 + 1 };
        assert(t[j1] == s[k1]);
        assert(t[j2] == s[k2]);
    }
    assert forall|x: i32| t.to_set().contains(x) implies s.to_set().contains(x) && x != s[i] by {
        let j = choose|j: int| 0 <= j < t.len() && t[j] == x;
        let k: int = if j < i { j } else { j + 1 };
        assert(s[k] == x);
        assert(s.contains(x));
    }
    assert forall|x: i32| s.to_set().contains(x) && x != s[i] implies t.to_set().contains(x) by {
        let k = choose|k: int| 0 <= k < s.len() && s[k] == x;
        let j: int = if k < i { k } else { k - 1 };
        assert(t[j] == x);
        assert(t.contains(x));
    }
    assert(t.to_set() =~= s.to_set().remove(s[i]));
}

/// The state of a run as the contracts see it.
#[verifier::ext_equal]
pub ghost struct ContextView {
    pub closed: bool,
    pub keys: Set<i32>,
    pub mouse: (i32, i32),
    pub started_time: u64,
}

/// Mutable per-run state container, handed to every application callback.
///
/// `closed` only ever moves from `false` to `true`; `keys_state` holds
/// exactly the identifiers seen in a down event with no later up event;
/// `mouse_state` is the absolute pointer position, refreshed every frame by
/// the host; `started_time` is the instant the run began, in microseconds of
/// the host's monotonic clock.
pub struct Context {
    closed: bool,
    keys_state: KeySet,
    pub mouse_state: (i32, i32),
    pub started_time: u64,
}

impl View for Context {
    type V = ContextView;

    closed spec fn view(&self) -> ContextView {
        ContextView {
            closed: self.closed,
            keys: self.keys_state@,
            mouse: self.mouse_state,
            started_time: self.started_time,
        }
    }
}

impl Context {
    /// The held-key set holds no duplicate entry.
    pub closed spec fn wf(&self) -> bool {
        self.keys_state.wf()
    }

    pub fn new(started_time: u64) -> (ctx: Context)
        ensures
            ctx.wf(),
            ctx@ == (ContextView {
                closed: false,
                keys: Set::<i32>::empty(),
                mouse: (0, 0),
                started_time,
            }),
    {
        Context { closed: false, keys_state: KeySet::new(), mouse_state: (0, 0), started_time }
    }

    /// Request the loop to stop. Idempotent: closing an already closed
    /// context changes nothing.
    pub fn close(&mut self)
        ensures
            final(self).wf() == old(self).wf(),
            final(self)@ == (ContextView { closed: true, ..old(self)@ }),
    {
        self.closed = true;
    }

    pub fn is_closed(&self) -> (r: bool)
        ensures
            r == self@.closed,
    {
        self.closed
    }

    /// Whether the key with the given raw identifier is currently held.
    pub fn get_key(&mut self, code: i32) -> (r: bool)
        ensures
            *final(self) == *old(self),
            r == old(self)@.keys.contains(code),
    {
        self.keys_state.contains(code)
    }

    /// How many keys (pseudo-keys included) are currently held.
    pub fn held_key_count(&self) -> (n: usize)
        requires
            self.wf(),
        ensures
            n == self@.keys.len(),
    {
        self.keys_state.len()
    }

    /// Record a key or pseudo-key as held.
    pub fn press_key(&mut self, code: i32)
        requires
            old(self).wf(),
        ensures
            final(self).wf(),
            final(self)@ == (ContextView { keys: old(self)@.keys.insert(code), ..old(self)@ }),
    {
        self.keys_state.insert(code);
    }

    /// Record a key or pseudo-key as released.
    pub fn release_key(&mut self, code: i32)
        requires
            old(self).wf(),
        ensures
            final(self).wf(),
            final(self)@ == (ContextView { keys: old(self)@.keys.remove(code), ..old(self)@ }),
    {
        self.keys_state.remove(code);
    }

    /// Refresh the absolute pointer position.
    pub fn set_mouse_state(&mut self, x: i32, y: i32)
        ensures
            final(self).wf() == old(self).wf(),
            final(self)@ == (ContextView { mouse: (x, y), ..old(self)@ }),
    {
        self.mouse_state = (x, y);
    }
}

} // verus!
