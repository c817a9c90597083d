use vstd::prelude::*;

use crate::domains::{domain_matches, host_matches, same_text};

verus! {

/// A set of names (domains or IRIs), kept as a vector without repeats.
pub struct NameSet {
    items: Vec<String>,
}

impl View for NameSet {
    type V = Set<Seq<char>>;

    closed spec fn view(&self) -> Set<Seq<char>> {
        Set::new(|s: Seq<char>| exists|i: int| 0 <= i < self.items@.len() && #[trigger] self.items@[i]@ == s)
    }
}

/// The character sequences of a sequence of strings.
pub open spec fn views(v: Seq<String>) -> Seq<Seq<char>> {
    v.map_values(|s: String| s@)
}

impl NameSet {
    pub closed spec fn wf(&self) -> bool {
        forall|i: int, j: int|
            0 <= i < j < self.items@.len() ==> #[trigger] self.items@[i]@ != #[trigger] self.items@[j]@
    }

    /// The names in the order in which they were first added.
    pub closed spec fn ordered(&self) -> Seq<Seq<char>> {
        views(self.items@)
    }

    /// The ordered names are exactly the names of the set.
    pub proof fn lemma_ordered(&self)
        ensures
            forall|s: Seq<char>| self@.contains(s) <==> self.ordered().contains(s),
            self.wf() ==> self.ordered().no_duplicates(),
    {
        assert forall|s: Seq<char>| self@.contains(s) <==> self.ordered().contains(s) by {
            if self@.contains(s) {
                let i = choose|i: int| 0 <= i < self.items@.len() && #[trigger] self.items@[i]@ == s;
                assert(self.ordered()[i] == s);
            }
            if self.ordered().contains(s) {
                let i = choose|i: int| 0 <= i < self.ordered().len() && self.ordered()[i] == s;
                assert(self.items@[i]@ == s);
            }
        }
    }

    pub fn new() -> (r: NameSet)
        ensures
            r.wf(),
            r@ == Set::<Seq<char>>::empty(),
    {
        let r = NameSet { items: Vec::new() };
        assert(r@ =~= Set::<Seq<char>>::empty());
        r
    }

    pub fn contains(&self, name: &str) -> (r: bool)
        ensures
            r == self@.contains(name@),
    {
        let mut i: usize = 0;
        while i < self.items.len()
            invariant
                i <= self.items@.len(),
                forall|j: int| 0 <= j < i ==> self.items@[j]@ != name@,
            decreases self.items.len() - i,
        {
            if same_text(self.items[i].as_str(), name) {
                return true;
            }
            i = i + 1;
        }
        false
    }

    pub fn insert(&mut self, name: &str)
        requires
            old(self).wf(),
        ensures
            final(self).wf(),
            final(self)@ == old(self)@.insert(name@),
            old(self)@.contains(name@) ==> final(self).ordered() == old(self).ordered(),
            !old(self)@.contains(name@) ==> final(self).ordered() == old(self).ordered().push(name@),
    {
        if !self.contains(name) {
            let ghost before = self.items@;
            self.items.push(name.to_owned());
            assert(self@ =~= old(self)@.insert(name@)) by {
                assert(self.items@[before.len() as int]@ == name@);
                assert forall|s: Seq<char>| #[trigger] old(self)@.contains(s) implies self@.contains(s) by {
                    let i = choose|i: int| 0 <= i < before.len() && #[trigger] before[i]@ == s;
                    assert(self.items@[i]@ == s);
                }
                assert forall|s: Seq<char>| #[trigger] self@.contains(s) && s != name@ implies old(self)@.contains(s) by {
                    let i = choose|i: int| 0 <= i < self.items@.len() && #[trigger] self.items@[i]@ == s;
                    assert(before[i]@ == s);
                }
            }
            assert(self.ordered() =~= old(self).ordered().push(name@));
        } else {
            assert(old(self)@.insert(name@) =~= old(self)@);
        }
    }

    pub fn remove(&mut self, name: &str)
        requires
            old(self).wf(),
        ensures
            final(self).wf(),
            final(self)@ == old(self)@.remove(name@),
    {
        let mut kept: Vec<String> = Vec::new();
        let mut i: usize = 0;
        while i < self.items.len()
            invariant
                i <= self.items@.len(),
                self.wf(),
                forall|a: int, b: int|
                    0 <= a < b < kept@.len() ==> #[trigger] kept@[a]@ != #[trigger] kept@[b]@,
                forall|a: int| 0 <= a < kept@.len() ==> exists|j: int| 0 <= j < i && #[trigger] self.items@[j]@ == #[trigger] kept@[a]@,
                forall|a: int| 0 <= a < kept@.len() ==> #[trigger] kept@[a]@ != name@,
                forall|j: int| 0 <= j < i && #[trigger] self.items@[j]@ != name@ ==> exists|a: int| 0 <= a < kept@.len() && kept@[a]@ == self.items@[j]@,
            decreases self.items.len() - i,
        {
            if !same_text(self.items[i].as_str(), name) {
                let ghost k0 = kept@;
                kept.push(self.items[i].clone());
                proof {
                    assert forall|a: int| 0 <= a < kept@.len() implies exists|j: int| 0 <= j < i + 1 && #[trigger] self.items@[j]@ == #[trigger] kept@[a]@ by {
                        if a == k0.len() {
                            assert(self.items@[i as int]@ == kept@[a]@);
                        } else {
                            assert(kept@[a] == k0[a]);
                        }
                    }
                    assert forall|j: int| 0 <= j < i + 1 && #[trigger] self.items@[j]@ != name@ implies exists|a: int| 0 <= a < kept@.len() && kept@[a]@ == self.items@[j]@ by {
                        if j == i {
                            assert(kept@[k0.len() as int]@ == self.items@[j]@);
                        } else {
                            let a = choose|a: int| 0 <= a < k0.len() && k0[a]@ == self.items@[j]@;
                            assert(kept@[a]@ == self.items@[j]@);
                        }
                    }
                }
            }
            i = i + 1;
        }
        let ghost before = *self;
        self.items = kept;
        proof {
            assert(self@ =~= before@.remove(name@)) by {
                assert forall|s: Seq<char>| #[trigger] self@.contains(s) implies before@.remove(name@).contains(s) by {
                    let a = choose|a: int| 0 <= a < kept@.len() && #[trigger] kept@[a]@ == s;
                    let j = choose|j: int| 0 <= j < before.items@.len() && #[trigger] before.items@[j]@ == kept@[a]@;
                }
                assert forall|s: Seq<char>| #[trigger] before@.remove(name@).contains(s) implies self@.contains(s) by {
                    let j = choose|j: int| 0 <= j < before.items@.len() && #[trigger] before.items@[j]@ == s;
                    let a = choose|a: int| 0 <= a < kept@.len() && kept@[a]@ == before.items@[j]@;
                    assert(self.items@[a]@ == s);
                }
            }
        }
    }

    /// Whether `host` is one of the names or lies below one of them.
    pub fn covers(&self, host: &str) -> (r: bool)
        ensures
            r == exists|d: Seq<char>| self@.contains(d) && domain_matches(host@, d),
    {
        let mut i: usize = 0;
        while i < self.items.len()
            invariant
                i <= self.items@.len(),
                forall|j: int| 0 <= j < i ==> !domain_matches(host@, #[trigger] self.items@[j]@),
            decreases self.items.len() - i,
        {
            if host_matches(host, self.items[i].as_str()) {
                assert(self@.contains(self.items@[i as int]@));
                return true;
            }
            i = i + 1;
        }
        proof {
            assert forall|d: Seq<char>| self@.contains(d) implies !domain_matches(host@, d) by {
                let j = choose|j: int| 0 <= j < self.items@.len() && #[trigger] self.items@[j]@ == d;
            }
        }
        false
    }

    pub fn is_empty(&self) -> (r: bool)
        ensures
            r == (self@ == Set::<Seq<char>>::empty()),
    {
        if self.items.len() == 0 {
            assert(self@ =~= Set::<Seq<char>>::empty());
            true
        } else {
            assert(self@.contains(self.items@[0]@));
            false
        }
    }

    /// The names in the order in which they were first added.
    pub fn to_vec(&self) -> (r: Vec<String>)
        ensures
            views(r@) == self.ordered(),
            forall|s: Seq<char>| self@.contains(s) <==> views(r@).contains(s),
    {
        proof {
            self.lemma_ordered();
        }
        let mut out: Vec<String> = Vec::new();
        let mut i: usize = 0;
        while i < self.items.len()
            invariant
                i <= self.items@.len(),
                views(out@) == self.ordered().take(i as int),
            decreases self.items.len() - i,
        {
            let c = self.items[i].clone();
            assert(c@ == self.items@[i as int]@);
            let ghost o0 = out@;
            out.push(c);
            assert(views(out@) =~= views(o0).push(c@));
            assert(views(out@) =~= self.ordered().take(i as int + 1));
            i = i + 1;
        }
        assert(self.ordered().take(i as int) =~= self.ordered());
        out
    }
}

/// Some name in `names` is `host` or a parent domain of it.
pub open spec fn covered(names: Set<Seq<char>>, host: Seq<char>) -> bool {
    exists|d: Seq<char>| names.contains(d) && domain_matches(host, d)
}

/// The relay's in-memory projection of its policy: blocked domains,
/// whitelisted domains and the inboxes of accepted listeners.
pub struct State {
    pub blocks: NameSet,
    pub whitelists: NameSet,
    pub listeners: NameSet,
}

impl State {
    pub open spec fn wf(&self) -> bool {
        self.blocks.wf() && self.whitelists.wf() && self.listeners.wf()
    }

    /// `host` is refused as a peer.
    pub open spec fn blocked(&self, host: Seq<char>) -> bool {
        covered(self.blocks@, host)
    }

    /// `host` may follow: the whitelist is empty or covers it.
    pub open spec fn whitelisted(&self, host: Seq<char>) -> bool {
        self.whitelists@ == Set::<Seq<char>>::empty() || covered(self.whitelists@, host)
    }

    pub fn new() -> (r: State)
        ensures
            r.wf(),
            r.blocks@ == Set::<Seq<char>>::empty(),
            r.whitelists@ == Set::<Seq<char>>::empty(),
            r.listeners@ == Set::<Seq<char>>::empty(),
    {
        State { blocks: NameSet::new(), whitelists: NameSet::new(), listeners: NameSet::new() }
    }

    pub fn is_blocked(&self, host: &str) -> (r: bool)
        ensures
            r == self.blocked(host@),
    {
        self.blocks.covers(host)
    }

    pub fn is_whitelisted(&self, host: &str) -> (r: bool)
        ensures
            r == self.whitelisted(host@),
    {
        self.whitelists.is_empty() || self.whitelists.covers(host)
    }

    pub fn is_listener(&self, inbox: &str) -> (r: bool)
        ensures
            r == self.listeners@.contains(inbox@),
    {
        self.listeners.contains(inbox)
    }

    /// The listener inboxes, in the order in which they were accepted.
    pub fn listeners(&self) -> (r: Vec<String>)
        ensures
            views(r@) == self.listeners.ordered(),
            forall|s: Seq<char>| self.listeners@.contains(s) <==> views(r@).contains(s),
    {
        self.listeners.to_vec()
    }

    pub fn cache_block(&mut self, host: &str)
        requires
            old(self).wf(),
        ensures
            final(self).wf(),
            final(self).blocks@ == old(self).blocks@.insert(host@),
            final(self).whitelists == old(self).whitelists,
            final(self).listeners == old(self).listeners,
    {
        self.blocks.insert(host);
    }

    pub fn bust_block(&mut self, host: &str)
        requires
            old(self).wf(),
        ensures
            final(self).wf(),
            final(self).blocks@ == old(self).blocks@.remove(host@),
            final(self).whitelists == old(self).whitelists,
            final(self).listeners == old(self).listeners,
    {
        self.blocks.remove(host);
    }

    pub fn cache_whitelist(&mut self, host: &str)
        requires
            old(self).wf(),
        ensures
            final(self).wf(),
            final(self).whitelists@ == old(self).whitelists@.insert(host@),
            final(self).blocks == old(self).blocks,
            final(self).listeners == old(self).listeners,
    {
        self.whitelists.insert(host);
    }

    pub fn bust_whitelist(&mut self, host: &str)
        requires
            old(self).wf(),
        ensures
            final(self).wf(),
            final(self).whitelists@ == old(self).whitelists@.remove(host@),
            final(self).blocks == old(self).blocks,
            final(self).listeners == old(self).listeners,
    {
        self.whitelists.remove(host);
    }

    pub fn cache_listener(&mut self, inbox: &str)
        requires
            old(self).wf(),
        ensures
            final(self).wf(),
            final(self).listeners@ == old(self).listeners@.insert(inbox@),
            final(self).blocks == old(self).blocks,
            final(self).whitelists == old(self).whitelists,
    {
        self.listeners.insert(inbox);
    }

    pub fn bust_listener(&mut self, inbox: &str)
        requires
            old(self).wf(),
        ensures
            final(self).wf(),
            final(self).listeners@ == old(self).listeners@.remove(inbox@),
            final(self).blocks == old(self).blocks,
            final(self).whitelists == old(self).whitelists,
    {
        self.listeners.remove(inbox);
    }
}

/// Adding a block for `d` and then removing it: `d` is blocked in between,
/// and afterwards it is no longer blocked, provided no other entry of the
/// blocklist is a parent domain of `d`.
pub proof fn lemma_block_then_unblock(blocks: Set<Seq<char>>, d: Seq<char>)
    requires
        forall|e: Seq<char>| blocks.contains(e) && e != d ==> !domain_matches(d, e),
    ensures
        covered(blocks.insert(d), d),
        !covered(blocks.insert(d).remove(d), d),
{
    assert(blocks.insert(d).contains(d) && domain_matches(d, d));
}

} // verus!
