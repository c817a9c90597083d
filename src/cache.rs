use vstd::prelude::*;

use crate::domains::same_text;

verus! {

/// How long a fetched actor stays valid, in seconds.
pub const ACTOR_TTL: u64 = 86400;

/// What the relay knows of a remote actor.
pub struct Actor {
    pub id: String,
    pub inbox: String,
    pub public_key_id: String,
    pub public_key_pem: String,
    /// Seconds since the epoch at which it was fetched.
    pub cached_at: u64,
}

/// An actor fetched at most [`ACTOR_TTL`] seconds before `now` may be used.
pub open spec fn live(a: Actor, now: u64) -> bool {
    now < a.cached_at + ACTOR_TTL
}

/// The actors fetched from remote servers, at most one per IRI.
pub struct ActorCache {
    items: Vec<Actor>,
}

impl ActorCache {
    pub closed spec fn wf(&self) -> bool {
        forall|i: int, j: int|
            0 <= i < j < self.items@.len() ==> #[trigger] self.items@[i].id@ != #[trigger] self.items@[j].id@
    }

    /// The cached entries.
    pub closed spec fn entries(&self) -> Seq<Actor> {
        self.items@
    }

    pub fn new() -> (r: ActorCache)
        ensures
            r.wf(),
            r.entries() == Seq::<Actor>::empty(),
    {
        ActorCache { items: Vec::new() }
    }

    fn position(&self, key: &str) -> (r: Option<usize>)
        ensures
            r matches Some(j) ==> j < self.items@.len() && self.items@[j as int].id@ == key@,
            r is None ==> forall|j: int| 0 <= j < self.items@.len() ==> #[trigger] self.items@[j].id@ != key@,
    {
        let mut i: usize = 0;
        while i < self.items.len()
            invariant
                i <= self.items@.len(),
                forall|j: int| 0 <= j < i ==> #[trigger] self.items@[j].id@ != key@,
            decreases self.items.len() - i,
        {
            if same_text(self.items[i].id.as_str(), key) {
                return Some(i);
            }
            i = i + 1;
        }
        None
    }

    /// Evicts the entry with this key, if there is one.
    pub fn remove(&mut self, key: &str)
        requires
            old(self).wf(),
        ensures
            final(self).wf(),
            forall|e: Actor| #[trigger] final(self).entries().contains(e) <==> old(self).entries().contains(e) && e.id@ != key@,
    {
        match self.position(key) {
            Some(j) => {
                let ghost before = self.items@;
                self.items.remove(j);
                proof {
                    assert(self.items@ =~= before.remove(j as int));
                    assert forall|e: Actor| #[trigger] self.items@.contains(e) <==> before.contains(e) && e.id@ != key@ by {
                        if self.items@.contains(e) {
                            let k = choose|k: int| 0 <= k < self.items@.len() && self.items@[k] == e;
                            if k < j {
                                assert(before[k] == e);
                            } else {
                                assert(before[k + 1] == e);
                            }
                        }
                        if before.contains(e) && e.id@ != key@ {
                            let k = choose|k: int| 0 <= k < before.len() && before[k] == e;
                            if k < j {
                                assert(self.items@[k] == e);
                            } else {
                                assert(self.items@[k - 1] == e);
                            }
                        }
                    }
                }
            },
            None => {
                proof {
                    assert forall|e: Actor| #[trigger] self.items@.contains(e) implies e.id@ != key@ by {
                        let k = choose|k: int| 0 <= k < self.items@.len() && self.items@[k] == e;
                    }
                }
            },
        }
    }

    /// Stores an entry, in place of any earlier one with the same key.
    pub fn insert(&mut self, a: Actor)
        requires
            old(self).wf(),
        ensures
            final(self).wf(),
            forall|e: Actor| #[trigger] final(self).entries().contains(e) <==> (old(self).entries().contains(e) && e.id@ != a.id@) || e == a,
    {
        self.remove(a.id.as_str());
        let ghost before = self.entries();
        assert(forall|e| #[trigger] before.contains(e) ==> old(self).entries().contains(e));
        self.items.push(a);
        proof {
            assert(self.items@[before.len() as int] == a);
            assert forall|e: Actor| #[trigger] self.items@.contains(e) <==> before.contains(e) || e == a by {
                if self.items@.contains(e) && e != a {
                    let k = choose|k: int| 0 <= k < self.items@.len() && self.items@[k] == e;
                    assert(before[k] == e);
                }
                if before.contains(e) {
                    let k = choose|k: int| 0 <= k < before.len() && before[k] == e;
                    assert(self.items@[k] == e);
                }
            }
            assert forall|i: int, j: int|
                0 <= i < j < self.items@.len() implies #[trigger] self.items@[i].id@ != #[trigger] self.items@[j].id@ by {
                if j == before.len() {
                    assert(before.contains(before[i]));
                    assert(self.items@[i] == before[i]);
                }
            }
        }
    }

    /// The cached actor with this IRI, if it was fetched within the TTL.
    pub fn get(&self, key: &str, now: u64) -> (r: Option<&Actor>)
        requires
            self.wf(),
        ensures
            r matches Some(a) ==> self.entries().contains(*a) && a.id@ == key@ && live(*a, now),
            r is None ==> forall|a: Actor| #[trigger] self.entries().contains(a) && a.id@ == key@ ==> !live(a, now),
    {
        match self.position(key) {
            Some(j) => {
                let a = &self.items[j];
                if now >= a.cached_at && now - a.cached_at >= ACTOR_TTL {
                    proof {
                        assert forall|b: Actor| #[trigger] self.entries().contains(b) && b.id@ == key@ implies !live(b, now) by {
                            let k = choose|k: int| 0 <= k < self.items@.len() && self.items@[k] == b;
                            assert(k == j as int);
                        }
                    }
                    None
                } else {
                    assert(self.items@.contains(*a));
                    Some(a)
                }
            },
            None => {
                proof {
                    assert forall|b: Actor| #[trigger] self.entries().contains(b) && b.id@ == key@ implies !live(b, now) by {
                        let k = choose|k: int| 0 <= k < self.items@.len() && self.items@[k] == b;
                    }
                }
                None
            },
        }
    }
}

/// Per-instance metadata of a listener.
pub struct Node {
    pub id: u128,
    pub listener: String,
    pub software: String,
    pub version: String,
}

/// The node records, at most one per id.
pub struct NodeCache {
    items: Vec<Node>,
}

impl NodeCache {
    pub closed spec fn wf(&self) -> bool {
        forall|i: int, j: int|
            0 <= i < j < self.items@.len() ==> #[trigger] self.items@[i].id != #[trigger] self.items@[j].id
    }

    /// The cached entries.
    pub closed spec fn entries(&self) -> Seq<Node> {
        self.items@
    }

    pub fn new() -> (r: NodeCache)
        ensures
            r.wf(),
            r.entries() == Seq::<Node>::empty(),
    {
        NodeCache { items: Vec::new() }
    }

    fn position(&self, key: u128) -> (r: Option<usize>)
        ensures
            r matches Some(j) ==> j < self.items@.len() && self.items@[j as int].id == key,
            r is None ==> forall|j: int| 0 <= j < self.items@.len() ==> #[trigger] self.items@[j].id != key,
    {
        let mut i: usize = 0;
        while i < self.items.len()
            invariant
                i <= self.items@.len(),
                forall|j: int| 0 <= j < i ==> #[trigger] self.items@[j].id != key,
            decreases self.items.len() - i,
        {
            if self.items[i].id == key {
                return Some(i);
            }
            i = i + 1;
        }
        None
    }

    /// Evicts the entry with this key, if there is one.
    pub fn remove(&mut self, key: u128)
        requires
            old(self).wf(),
        ensures
            final(self).wf(),
            forall|e: Node| #[trigger] final(self).entries().contains(e) <==> old(self).entries().contains(e) && e.id != key,
    {
        match self.position(key) {
            Some(j) => {
                let ghost before = self.items@;
                self.items.remove(j);
                proof {
                    assert(self.items@ =~= before.remove(j as int));
                    assert forall|e: Node| #[trigger] self.items@.contains(e) <==> before.contains(e) && e.id != key by {
                        if self.items@.contains(e) {
                            let k = choose|k: int| 0 <= k < self.items@.len() && self.items@[k] == e;
                            if k < j {
                                assert(before[k] == e);
                            } else {
                                assert(before[k + 1] == e);
                            }
                        }
                        if before.contains(e) && e.id != key {
                            let k = choose|k: int| 0 <= k < before.len() && before[k] == e;
                            if k < j {
                                assert(self.items@[k] == e);
                            } else {
                                assert(self.items@[k - 1] == e);
                            }
                        }
                    }
                }
            },
            None => {
                proof {
                    assert forall|e: Node| #[trigger] self.items@.contains(e) implies e.id != key by {
                        let k = choose|k: int| 0 <= k < self.items@.len() && self.items@[k] == e;
                    }
                }
            },
        }
    }

    /// Stores an entry, in place of any earlier one with the same key.
    pub fn insert(&mut self, a: Node)
        requires
            old(self).wf(),
        ensures
            final(self).wf(),
            forall|e: Node| #[trigger] final(self).entries().contains(e) <==> (old(self).entries().contains(e) && e.id != a.id) || e == a,
    {
        self.remove(a.id);
        let ghost before = self.entries();
        assert(forall|e| #[trigger] before.contains(e) ==> old(self).entries().contains(e));
        self.items.push(a);
        proof {
            assert(self.items@[before.len() as int] == a);
            assert forall|e: Node| #[trigger] self.items@.contains(e) <==> before.contains(e) || e == a by {
                if self.items@.contains(e) && e != a {
                    let k = choose|k: int| 0 <= k < self.items@.len() && self.items@[k] == e;
                    assert(before[k] == e);
                }
                if before.contains(e) {
                    let k = choose|k: int| 0 <= k < before.len() && before[k] == e;
                    assert(self.items@[k] == e);
                }
            }
            assert forall|i: int, j: int|
                0 <= i < j < self.items@.len() implies #[trigger] self.items@[i].id != #[trigger] self.items@[j].id by {
                if j == before.len() {
                    assert(before.contains(before[i]));
                    assert(self.items@[i] == before[i]);
                }
            }
        }
    }

    /// The cached record with this id.
    pub fn get(&self, key: u128) -> (r: Option<&Node>)
        requires
            self.wf(),
        ensures
            r matches Some(n) ==> self.entries().contains(*n) && n.id == key,
            r is None ==> forall|n: Node| #[trigger] self.entries().contains(n) ==> n.id != key,
    {
        match self.position(key) {
            Some(j) => {
                assert(self.items@.contains(self.items@[j as int]));
                Some(&self.items[j])
            },
            None => {
                proof {
                    assert forall|n: Node| #[trigger] self.entries().contains(n) implies n.id != key by {
                        let k = choose|k: int| 0 <= k < self.items@.len() && self.items@[k] == n;
                    }
                }
                None
            },
        }
    }
}

} // verus!
