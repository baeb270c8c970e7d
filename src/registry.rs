//! The connection registry: the single source of truth for which user keys
//! are attached to a live connection.
use crate::account::{Status, UserState};
use crate::channel::clone_handle;
use tokio::sync::mpsc::UnboundedSender;
use vstd::prelude::*;

verus! {

/// The registry's model: each known user key with its entry.
pub type RegistryMap = Map<Seq<char>, UserState>;

/// `k` is known to the registry and attached to a connection.
pub open spec fn is_connected_in(m: RegistryMap, k: Seq<char>) -> bool {
    m.contains_key(k) && m[k].status == Status::Connected
}

/// Every entry of `m` keeps its handle exactly while it is connected.
pub open spec fn entries_wf(m: RegistryMap) -> bool {
    forall|k: Seq<char>| #[trigger] m.contains_key(k) ==> m[k].wf()
}

/// `k` receives a broadcast from `sender`: it is connected, and it is not
/// the sender unless the sender's own messages are echoed back to it.
pub open spec fn is_recipient(m: RegistryMap, sender: Seq<char>, echo_to_sender: bool, k: Seq<char>) -> bool {
    is_connected_in(m, k) && (echo_to_sender || k != sender)
}

/// A user key together with a copy of its outbound handle, taken from the
/// registry so that frames can be queued after the registry is released.
pub struct Target {
    pub key: String,
    pub handle: UnboundedSender<String>,
}

/// The keys of a list of targets, in order.
pub open spec fn target_keys(ts: Seq<Target>) -> Seq<Seq<char>> {
    ts.map_values(|t: Target| t.key@)
}

/// An in-memory map from user key to connection entry. Keys are unique and
/// kept in order of first insertion. The entries sit in a vector with a
/// ghost map as their model: vstd specifies `HashMap` only for keys that
/// obey its key model (integers and `bool`), which `String` keys do not.
pub struct Registry {
    entries: Vec<(String, UserState)>,
    model: Ghost<RegistryMap>,
}

impl View for Registry {
    type V = RegistryMap;

    closed spec fn view(&self) -> RegistryMap {
        self.model@
    }
}

impl Registry {
    /// The entries are well formed, their keys are unique and the model is
    /// exactly the map that they spell out.
    pub closed spec fn wf(&self) -> bool {
        &&& forall|i: int| 0 <= i < self.entries@.len() ==> #[trigger] self.entries@[i].1.wf()
        &&& forall|i: int, j: int|
            0 <= i < self.entries@.len() && 0 <= j < self.entries@.len() && i != j
                ==> #[trigger] self.entries@[i].0@ != #[trigger] self.entries@[j].0@
        &&& forall|i: int|
            0 <= i < self.entries@.len() ==> {
                &&& self.model@.contains_key(#[trigger] self.entries@[i].0@)
                &&& self.model@[self.entries@[i].0@] == self.entries@[i].1
            }
        &&& forall|k: Seq<char>|
            #[trigger] self.model@.contains_key(k) ==> exists|i: int|
                0 <= i < self.entries@.len() && #[trigger] self.entries@[i].0@ == k
    }

    /// Every entry of a well-formed registry is itself well formed.
    pub proof fn lemma_entries_wf(&self)
        requires
            self.wf(),
        ensures
            entries_wf(self@),
    {
        assert forall|k: Seq<char>| #[trigger] self@.contains_key(k) implies self@[k].wf() by {
            let i = choose|i: int| 0 <= i < self.entries@.len() && #[trigger] self.entries@[i].0@ == k;
            assert(self.entries@[i].1.wf());
        }
    }

    /// An empty registry.
    pub fn new() -> (r: Registry)
        ensures
            r.wf(),
            r@ == RegistryMap::empty(),
    {
        Registry { entries: Vec::new(), model: Ghost(RegistryMap::empty()) }
    }

    /// Snapshot read of the entry for `key`.
    pub fn get(&self, key: &String) -> (r: Option<&UserState>)
        requires
            self.wf(),
        ensures
            match r {
                Some(e) => self@.contains_key(key@) && *e == self@[key@],
                None => !self@.contains_key(key@),
            },
    {
        match self.position(key) {
            Some(i) => Some(&self.entries[i].1),
            None => None,
        }
    }

    /// Inserts or replaces the entry for `key`, and hands back the entry it
    /// replaced so that a caller can tell an attach conflict.
    pub fn upsert(&mut self, key: String, entry: UserState) -> (r: Option<UserState>)
        requires
            old(self).wf(),
            entry.wf(),
        ensures
            final(self).wf(),
            final(self)@ == old(self)@.insert(key@, entry),
            r == (if old(self)@.contains_key(key@) {
                Some(old(self)@[key@])
            } else {
                None
            }),
    {
        let ghost k = key@;
        let ghost before = self.entries@;
        match self.position(&key) {
            Some(i) => {
                let mut prev = (key, entry);
                std::mem::swap(&mut self.entries[i], &mut prev);
                self.model = Ghost(self.model@.insert(k, self.entries@[i as int].1));
                assert forall|j: int| 0 <= j < self.entries@.len() implies #[trigger] self.entries@[j].1.wf() by {
                    if j != i {
                        assert(self.entries@[j] == before[j]);
                    }
                }
                assert forall|j: int|
                    0 <= j < self.entries@.len() implies {
                        &&& self.model@.contains_key(#[trigger] self.entries@[j].0@)
                        &&& self.model@[self.entries@[j].0@] == self.entries@[j].1
                    } by {
                    if j != i {
                        assert(self.entries@[j] == before[j]);
                        assert(before[j].0@ != before[i as int].0@);
                    }
                }
                assert forall|q: Seq<char>|
                    #[trigger] self.model@.contains_key(q) implies exists|j: int|
                        0 <= j < self.entries@.len() && #[trigger] self.entries@[j].0@ == q by {
                    if q == k {
                        assert(self.entries@[i as int].0@ == q);
                    } else {
                        let j = choose|j: int| 0 <= j < before.len() && #[trigger] before[j].0@ == q;
                        assert(self.entries@[j] == before[j]);
                    }
                }
                Some(prev.1)
            },
            None => {
                self.entries.push((key, entry));
                self.model = Ghost(self.model@.insert(k, entry));
                let ghost n = before.len() as int;
                assert(self.entries@[n].0@ == k);
                assert forall|j: int| 0 <= j < n implies #[trigger] self.entries@[j] == before[j] by {}
                assert forall|j: int| 0 <= j < n implies #[trigger] before[j].0@ != k by {
                    assert(old(self)@.contains_key(before[j].0@));
                }
                assert forall|q: Seq<char>|
                    #[trigger] self.model@.contains_key(q) implies exists|j: int|
                        0 <= j < self.entries@.len() && #[trigger] self.entries@[j].0@ == q by {
                    if q == k {
                        assert(self.entries@[n].0@ == q);
                    } else {
                        let j = choose|j: int| 0 <= j < before.len() && #[trigger] before[j].0@ == q;
                        assert(self.entries@[j] == before[j]);
                    }
                }
                None
            },
        }
    }

    /// Updates the status of `key` in place. Marking an entry disconnected
    /// drops the registry's copy of its handle; an entry becomes connected
    /// only through `upsert` with a fresh handle, so asking for `Connected`
    /// leaves the registry as it is. An absent key is not an error: the
    /// call then changes nothing and returns `false`.
    pub fn set_status(&mut self, key: &String, status: Status) -> (found: bool)
        requires
            old(self).wf(),
        ensures
            final(self).wf(),
            found == old(self)@.contains_key(key@),
            final(self)@ == (if found && status == Status::Disconnected {
                old(self)@.insert(key@, UserState::spec_disconnected())
            } else {
                old(self)@
            }),
    {
        match self.position(key) {
            Some(_) => {
                if status == Status::Disconnected {
                    let _prev = self.upsert(key.clone(), UserState::disconnected());
                }
                true
            },
            None => false,
        }
    }

    /// Drops the entry for `key` entirely and hands it back.
    pub fn remove(&mut self, key: &String) -> (r: Option<UserState>)
        requires
            old(self).wf(),
        ensures
            final(self).wf(),
            final(self)@ == old(self)@.remove(key@),
            r == (if old(self)@.contains_key(key@) {
                Some(old(self)@[key@])
            } else {
                None
            }),
    {
        let ghost before = self.entries@;
        match self.position(key) {
            Some(i) => {
                let prev = self.entries.remove(i);
                self.model = Ghost(self.model@.remove(key@));
                assert forall|j: int| 0 <= j < self.entries@.len() implies
                    #[trigger] self.entries@[j] == (if j < i { before[j] } else { before[j + 1] }) by {}
                assert forall|j: int| 0 <= j < self.entries@.len() implies
                    #[trigger] self.entries@[j].0@ != key@ by {
                    if j < i {
                        assert(before[j].0@ != before[i as int].0@);
                    } else {
                        assert(before[j + 1].0@ != before[i as int].0@);
                    }
                }
                assert forall|q: Seq<char>|
                    #[trigger] self.model@.contains_key(q) implies exists|j: int|
                        0 <= j < self.entries@.len() && #[trigger] self.entries@[j].0@ == q by {
                    let j = choose|j: int| 0 <= j < before.len() && #[trigger] before[j].0@ == q;
                    if j < i {
                        assert(self.entries@[j].0@ == q);
                    } else {
                        assert(j != i);
                        assert(self.entries@[j - 1].0@ == q);
                    }
                }
                Some(prev.1)
            },
            None => {
                assert(self.model@.remove(key@) =~= self.model@);
                None
            },
        }
    }

    /// A point-in-time snapshot of the connected entries whose key receives
    /// a broadcast from `sender`: every connected key, the sender's own
    /// only when `echo_to_sender` holds. Each such key comes exactly once,
    /// with a copy of the handle that the registry holds for it.
    pub fn fan_out_targets(&self, sender: &String, echo_to_sender: bool) -> (r: Vec<Target>)
        requires
            self.wf(),
        ensures
            target_keys(r@).no_duplicates(),
            forall|k: Seq<char>|
                target_keys(r@).contains(k) <==> is_recipient(self@, sender@, echo_to_sender, k),
            forall|i: int|
                0 <= i < r@.len() ==> {
                    &&& self@.contains_key(#[trigger] r@[i].key@)
                    &&& self@[r@[i].key@].sender == Some(r@[i].handle)
                },
    {
        let mut out: Vec<Target> = Vec::new();
        let ghost mut picked: Seq<int> = Seq::empty();
        let mut i: usize = 0;
        while i < self.entries.len()
            invariant
                self.wf(),
                i <= self.entries@.len(),
                picked.len() == out@.len(),
                forall|a: int, b: int| 0 <= a < b < picked.len() ==> picked[a] < picked[b],
                forall|a: int|
                    0 <= a < picked.len() ==> {
                        &&& 0 <= #[trigger] picked[a] < i
                        &&& out@[a].key@ == self.entries@[picked[a]].0@
                        &&& self.entries@[picked[a]].1.sender == Some(out@[a].handle)
                        &&& is_recipient(self@, sender@, echo_to_sender, self.entries@[picked[a]].0@)
                    },
                forall|t: int|
                    0 <= t < i && is_recipient(self@, sender@, echo_to_sender, #[trigger] self.entries@[t].0@)
                        ==> exists|a: int| 0 <= a < picked.len() && picked[a] == t,
            decreases self.entries@.len() - i,
        {
            let ghost k = self.entries@[i as int].0@;
            let ghost before = picked;
            assert(self@.contains_key(k) && self@[k] == self.entries@[i as int].1);
            let entry = &self.entries[i].1;
            if entry.is_connected() && (echo_to_sender || self.entries[i].0 != *sender) {
                assert(self.entries@[i as int].1.wf());
                match &entry.sender {
                    Some(h) => {
                        let handle = clone_handle(h);
                        out.push(Target { key: self.entries[i].0.clone(), handle });
                        proof {
                            picked = picked.push(i as int);
                        }
                    },
                    None => {},
                }
            }
            assert forall|t: int|
                0 <= t < i + 1 && is_recipient(self@, sender@, echo_to_sender, #[trigger] self.entries@[t].0@)
                    implies exists|a: int| 0 <= a < picked.len() && picked[a] == t by {
                if t < i {
                    let a = choose|a: int| 0 <= a < before.len() && before[a] == t;
                    assert(picked[a] == t);
                } else {
                    assert(picked[picked.len() - 1] == t);
                }
            }
            i = i + 1;
        }
        proof {
            assert forall|a: int| 0 <= a < out@.len() implies {
                &&& self@.contains_key(#[trigger] out@[a].key@)
                &&& self@[out@[a].key@].sender == Some(out@[a].handle)
            } by {
                assert(0 <= picked[a] < self.entries@.len());
            }
            let keys = target_keys(out@);
            assert forall|a: int, b: int| 0 <= a < keys.len() && 0 <= b < keys.len() && a != b implies
                keys[a] != keys[b] by {
                assert(picked[a] != picked[b]);
            }
            assert forall|k: Seq<char>| keys.contains(k) <==> is_recipient(self@, sender@, echo_to_sender, k) by {
                if keys.contains(k) {
                    let a = choose|a: int| 0 <= a < keys.len() && keys[a] == k;
                    assert(keys[a] == out@[a].key@);
                    assert(0 <= picked[a] < self.entries@.len());
                    assert(is_recipient(self@, sender@, echo_to_sender, self.entries@[picked[a]].0@));
                }
                if is_recipient(self@, sender@, echo_to_sender, k) {
                    assert(self.model@.contains_key(k));
                    let t = choose|t: int| 0 <= t < self.entries@.len() && #[trigger] self.entries@[t].0@ == k;
                    let a = choose|a: int| 0 <= a < picked.len() && picked[a] == t;
                    assert(keys[a] == out@[a].key@);
                    assert(keys[a] == k);
                }
            }
        }
        out
    }

    /// The position of `key` among the entries, if it is there.
    fn position(&self, key: &String) -> (r: Option<usize>)
        requires
            self.wf(),
        ensures
            match r {
                Some(i) => i < self.entries@.len() && self.entries@[i as int].0@ == key@,
                None => !self@.contains_key(key@),
            },
    {
        let mut i: usize = 0;
        while i < self.entries.len()
            invariant
                self.wf(),
                i <= self.entries@.len(),
                forall|j: int| 0 <= j < i ==> #[trigger] self.entries@[j].0@ != key@,
            decreases self.entries@.len() - i,
        {
            if self.entries[i].0 == *key {
                return Some(i);
            }
            i = i + 1;
        }
        None
    }
}

} // verus!
