use vstd::prelude::*;

use crate::cache::{Actor, ActorCache, Node, NodeCache};
use crate::inbox::Task;
use crate::notify::{CacheUpdate, UpdateView};
use crate::state::{views, State};

verus! {

/// The in-memory caches of one process.
pub struct Replica {
    pub state: State,
    pub actors: ActorCache,
    pub nodes: NodeCache,
}

/// Only the policy state changed, and no work follows.
pub open spec fn policy_only(a: Replica, b: Replica, r: Seq<Task>) -> bool {
    b.actors == a.actors && b.nodes == a.nodes && r.len() == 0
}

/// `r` is exactly the one task of loading the actor `iri`.
pub open spec fn loads_actor(r: Seq<Task>, iri: Seq<char>) -> bool {
    r.len() == 1 && match r[0] { Task::LoadActor(a) => a@ == iri, _ => false }
}

/// `r` is exactly the one task of loading the node `id`.
pub open spec fn loads_node(r: Seq<Task>, id: u128) -> bool {
    r.len() == 1 && match r[0] { Task::LoadNode(n) => n == id, _ => false }
}

impl Replica {
    pub open spec fn wf(&self) -> bool {
        self.state.wf() && self.actors.wf() && self.nodes.wf()
    }

    pub fn new() -> (r: Replica)
        ensures
            r.wf(),
            r.state.blocks@ == Set::<Seq<char>>::empty(),
            r.state.whitelists@ == Set::<Seq<char>>::empty(),
            r.state.listeners@ == Set::<Seq<char>>::empty(),
            r.actors.entries() == Seq::<Actor>::empty(),
            r.nodes.entries() == Seq::<Node>::empty(),
    {
        Replica { state: State::new(), actors: ActorCache::new(), nodes: NodeCache::new() }
    }

    /// Applies one cache update; returns the work that must follow it.
    pub fn apply(&mut self, u: CacheUpdate) -> (r: Vec<Task>)
        requires
            old(self).wf(),
        ensures
            final(self).wf(),
            u@ matches UpdateView::CacheBlock(h) ==> policy_only(*old(self), *final(self), r@)
                && final(self).state.blocks@ == old(self).state.blocks@.insert(h)
                && final(self).state.whitelists == old(self).state.whitelists
                && final(self).state.listeners == old(self).state.listeners,
            u@ matches UpdateView::BustBlock(h) ==> policy_only(*old(self), *final(self), r@)
                && final(self).state.blocks@ == old(self).state.blocks@.remove(h)
                && final(self).state.whitelists == old(self).state.whitelists
                && final(self).state.listeners == old(self).state.listeners,
            u@ matches UpdateView::CacheWhitelist(h) ==> policy_only(*old(self), *final(self), r@)
                && final(self).state.whitelists@ == old(self).state.whitelists@.insert(h)
                && final(self).state.blocks == old(self).state.blocks
                && final(self).state.listeners == old(self).state.listeners,
            u@ matches UpdateView::BustWhitelist(h) ==> policy_only(*old(self), *final(self), r@)
                && final(self).state.whitelists@ == old(self).state.whitelists@.remove(h)
                && final(self).state.blocks == old(self).state.blocks
                && final(self).state.listeners == old(self).state.listeners,
            u@ matches UpdateView::CacheListener(l) ==> policy_only(*old(self), *final(self), r@)
                && final(self).state.listeners@ == old(self).state.listeners@.insert(l)
                && final(self).state.blocks == old(self).state.blocks
                && final(self).state.whitelists == old(self).state.whitelists,
            u@ matches UpdateView::BustListener(l) ==> policy_only(*old(self), *final(self), r@)
                && final(self).state.listeners@ == old(self).state.listeners@.remove(l)
                && final(self).state.blocks == old(self).state.blocks
                && final(self).state.whitelists == old(self).state.whitelists,
            u@ matches UpdateView::CacheActor(a) ==> loads_actor(r@, a) && *final(self) == *old(self),
            u@ matches UpdateView::CacheNode(n) ==> loads_node(r@, n) && *final(self) == *old(self),
            u@ matches UpdateView::BustActor(a) ==> r@.len() == 0
                && final(self).state == old(self).state
                && final(self).nodes == old(self).nodes
                && forall|e: Actor| #[trigger] final(self).actors.entries().contains(e)
                    <==> old(self).actors.entries().contains(e) && e.id@ != a,
            u@ matches UpdateView::BustNode(n) ==> r@.len() == 0
                && final(self).state == old(self).state
                && final(self).actors == old(self).actors
                && forall|e: Node| #[trigger] final(self).nodes.entries().contains(e)
                    <==> old(self).nodes.entries().contains(e) && e.id != n,
    {
        let mut r: Vec<Task> = Vec::new();
        match u {
            CacheUpdate::CacheBlock(h) => self.state.cache_block(h.as_str()),
            CacheUpdate::BustBlock(h) => self.state.bust_block(h.as_str()),
            CacheUpdate::CacheWhitelist(h) => self.state.cache_whitelist(h.as_str()),
            CacheUpdate::BustWhitelist(h) => self.state.bust_whitelist(h.as_str()),
            CacheUpdate::CacheListener(l) => self.state.cache_listener(l.as_str()),
            CacheUpdate::BustListener(l) => self.state.bust_listener(l.as_str()),
            CacheUpdate::CacheActor(a) => r.push(Task::LoadActor(a)),
            CacheUpdate::BustActor(a) => self.actors.remove(a.as_str()),
            CacheUpdate::CacheNode(n) => r.push(Task::LoadNode(n)),
            CacheUpdate::BustNode(n) => self.nodes.remove(n),
        }
        r
    }
}

/// The periodic refresh: a NodeInfo query and an instance query for every
/// listener, in listener order.
pub open spec fn refresh_spec(ls: Seq<Seq<char>>, t: Seq<Task>) -> bool {
    &&& t.len() == 2 * ls.len()
    &&& forall|i: int| 0 <= i < ls.len() ==> match #[trigger] t[2 * i] {
        Task::QueryNodeinfo(a) => a@ == ls[i],
        _ => false,
    }
    &&& forall|i: int| 0 <= i < ls.len() ==> match #[trigger] t[2 * i + 1] {
        Task::QueryInstance(a) => a@ == ls[i],
        _ => false,
    }
}

/// The work of the periodic refresh of what is known of every listener.
pub fn refresh_tasks(state: &State) -> (r: Vec<Task>)
    ensures
        refresh_spec(state.listeners.ordered(), r@),
{
    let ls = state.listeners();
    let mut r: Vec<Task> = Vec::new();
    let mut i: usize = 0;
    while i < ls.len()
        invariant
            i <= ls@.len(),
            views(ls@) == state.listeners.ordered(),
            refresh_spec(views(ls@).take(i as int), r@),
        decreases ls.len() - i,
    {
        let ghost r0 = r@;
        r.push(Task::QueryNodeinfo(ls[i].clone()));
        r.push(Task::QueryInstance(ls[i].clone()));
        proof {
            let l = views(ls@).take(i as int + 1);
            assert forall|j: int| 0 <= j < l.len() implies match #[trigger] r@[2 * j] {
                Task::QueryNodeinfo(a) => a@ == l[j],
                _ => false,
            } by {
                if j < i {
                    assert(r@[2 * j] == r0[2 * j]);
                }
            }
            assert forall|j: int| 0 <= j < l.len() implies match #[trigger] r@[2 * j + 1] {
                Task::QueryInstance(a) => a@ == l[j],
                _ => false,
            } by {
                if j < i {
                    assert(r@[2 * j + 1] == r0[2 * j + 1]);
                }
            }
        }
        i = i + 1;
    }
    assert(views(ls@).take(i as int) =~= views(ls@));
    r
}

} // verus!
