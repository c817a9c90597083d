use vstd::prelude::*;

use crate::ids::{format_uuid, host_of, iri_host, uuid_text};
use crate::state::{covered, views, NameSet, State};

verus! {

/// The largest accepted distance between a request's `Date` and now, in seconds.
pub const MAX_SKEW: u64 = 3600;

/// Why an inbox request is refused.
#[derive(PartialEq, Eq, Structural, Clone, Copy, Debug)]
pub enum Rejection {
    SignatureStale,
    DigestMismatch,
    SignatureInvalid,
    Blocked,
    NotWhitelisted,
}

pub open spec fn status_of(r: Rejection) -> u16 {
    match r {
        Rejection::Blocked | Rejection::NotWhitelisted => 403,
        _ => 401,
    }
}

impl Rejection {
    /// The HTTP status that answers the request.
    pub fn status(&self) -> (r: u16)
        ensures
            r == status_of(*self),
    {
        match self {
            Rejection::Blocked | Rejection::NotWhitelisted => 403,
            _ => 401,
        }
    }
}

pub open spec fn fresh(date: u64, now: u64) -> bool {
    if date <= now { now - date <= MAX_SKEW } else { date - now <= MAX_SKEW }
}

/// The checks that run before the handler: the `Date` is within an hour of
/// now, the body matches its `Digest`, and the `Signature` verifies.
pub fn check_request(date: u64, now: u64, digest_ok: bool, signature_ok: bool) -> (r: Result<(), Rejection>)
    ensures
        r is Ok <==> fresh(date, now) && digest_ok && signature_ok,
        !fresh(date, now) ==> r == Err::<(), Rejection>(Rejection::SignatureStale),
        fresh(date, now) && !digest_ok ==> r == Err::<(), Rejection>(Rejection::DigestMismatch),
        fresh(date, now) && digest_ok && !signature_ok ==> r == Err::<(), Rejection>(Rejection::SignatureInvalid),
{
    let skew = if date <= now { now - date } else { date - now };
    if skew > MAX_SKEW {
        Err(Rejection::SignatureStale)
    } else if !digest_ok {
        Err(Rejection::DigestMismatch)
    } else if !signature_ok {
        Err(Rejection::SignatureInvalid)
    } else {
        Ok(())
    }
}

/// What the verifier does after checking a signature against a key.
#[derive(PartialEq, Eq, Structural, Clone, Copy, Debug)]
pub enum KeyStep {
    Verified,
    /// Evict the actor, fetch it anew and check once more.
    Refetch,
    Refused,
}

/// A key taken from the cache may have been rotated: a failure with it is
/// followed by one retry with a freshly fetched key; any other failure is final.
pub fn after_key_check(verified: bool, from_cache: bool, retried: bool) -> (r: KeyStep)
    ensures
        verified ==> r == KeyStep::Verified,
        !verified && from_cache && !retried ==> r == KeyStep::Refetch,
        !verified && (!from_cache || retried) ==> r == KeyStep::Refused,
{
    if verified {
        KeyStep::Verified
    } else if from_cache && !retried {
        KeyStep::Refetch
    } else {
        KeyStep::Refused
    }
}

/// Background work that an inbox activity calls for.
#[derive(Debug)]
pub enum Task {
    /// Deliver an `Accept` of a follow to this inbox.
    DeliverAccept(String),
    /// Fetch the instance description of this listener.
    QueryInstance(String),
    /// Fetch the NodeInfo of this listener.
    QueryNodeinfo(String),
    /// Load this actor from the database into the actor cache.
    LoadActor(String),
    /// Load this node record from the database into the node cache.
    LoadNode(u128),
}

/// Exactly one `Accept` to the follower's inbox, then the two queries
/// about its instance.
pub open spec fn follow_tasks(t: Seq<Task>, inbox: Seq<char>) -> bool {
    &&& t.len() == 3
    &&& match t[0] { Task::DeliverAccept(a) => a@ == inbox, _ => false }
    &&& match t[1] { Task::QueryInstance(a) => a@ == inbox, _ => false }
    &&& match t[2] { Task::QueryNodeinfo(a) => a@ == inbox, _ => false }
}

/// A follow by `host` is refused: it is blocked, or the relay is restricted
/// and the host is not whitelisted.
pub open spec fn follow_refusal(state: State, host: Seq<char>, restricted: bool) -> Option<Rejection> {
    if state.blocked(host) {
        Some(Rejection::Blocked)
    } else if restricted && !state.whitelisted(host) {
        Some(Rejection::NotWhitelisted)
    } else {
        None
    }
}

/// A `Follow` of the relay by the actor at `host` with inbox `inbox`: either
/// refused with nothing changed, or the inbox becomes a listener and an
/// `Accept` and the two instance queries are scheduled.
pub fn handle_follow(state: &mut State, host: &str, inbox: &str, restricted: bool) -> (r: Result<Vec<Task>, Rejection>)
    requires
        old(state).wf(),
    ensures
        final(state).wf(),
        follow_refusal(*old(state), host@, restricted) matches Some(e) ==> r == Err::<Vec<Task>, Rejection>(e)
            && *final(state) == *old(state),
        follow_refusal(*old(state), host@, restricted) is None ==> {
            &&& r matches Ok(t) && follow_tasks(t@, inbox@)
            &&& final(state).listeners@ == old(state).listeners@.insert(inbox@)
            &&& final(state).blocks == old(state).blocks
            &&& final(state).whitelists == old(state).whitelists
        },
{
    if state.is_blocked(host) {
        return Err(Rejection::Blocked);
    }
    if restricted && !state.is_whitelisted(host) {
        return Err(Rejection::NotWhitelisted);
    }
    state.cache_listener(inbox);
    let mut t: Vec<Task> = Vec::new();
    t.push(Task::DeliverAccept(inbox.to_owned()));
    t.push(Task::QueryInstance(inbox.to_owned()));
    t.push(Task::QueryNodeinfo(inbox.to_owned()));
    Ok(t)
}

/// An `Undo` of a follow, or the deletion of a listening actor: the inbox
/// stops being a listener.
pub fn handle_unfollow(state: &mut State, inbox: &str)
    requires
        old(state).wf(),
    ensures
        final(state).wf(),
        final(state).listeners@ == old(state).listeners@.remove(inbox@),
        final(state).blocks == old(state).blocks,
        final(state).whitelists == old(state).whitelists,
{
    state.bust_listener(inbox);
}

/// The listener `l`, whose host is `host` if known, gets a copy of what
/// `sender` relays: it is another listener, and its host is not blocked.
pub open spec fn receives(l: Seq<char>, host: Option<Seq<char>>, sender: Seq<char>, blocks: Set<Seq<char>>) -> bool {
    l != sender && match host {
        Some(h) => !covered(blocks, h),
        None => false,
    }
}

/// The host of `l` is known and not blocked.
pub open spec fn host_allowed(l: Seq<char>, blocks: Set<Seq<char>>) -> bool {
    match iri_host(l) {
        Some(h) => !covered(blocks, h),
        None => false,
    }
}

/// The inboxes `ls`, in order, that receive what `sender` relays, where
/// `hs[i]` is the host of `ls[i]`.
pub open spec fn recipients(
    ls: Seq<Seq<char>>,
    hs: Seq<Option<Seq<char>>>,
    sender: Seq<char>,
    blocks: Set<Seq<char>>,
) -> Seq<Seq<char>>
    decreases ls.len(),
{
    if ls.len() == 0 {
        Seq::empty()
    } else {
        let rest = recipients(ls.drop_last(), hs.drop_last(), sender, blocks);
        if receives(ls.last(), hs.last(), sender, blocks) { rest.push(ls.last()) } else { rest }
    }
}

/// The hosts of the IRIs `ls`.
pub open spec fn hosts_of(ls: Seq<Seq<char>>) -> Seq<Option<Seq<char>>> {
    ls.map_values(|l: Seq<char>| iri_host(l))
}

pub open spec fn opt_views(hs: Seq<Option<String>>) -> Seq<Option<Seq<char>>> {
    hs.map_values(|h: Option<String>| match h {
        Some(s) => Some(s@),
        None => None,
    })
}

/// The inboxes, in order, that receive what `sender` relays.
pub open spec fn audience(ls: Seq<Seq<char>>, sender: Seq<char>, blocks: Set<Seq<char>>) -> Seq<Seq<char>> {
    recipients(ls, hosts_of(ls), sender, blocks)
}

/// One step of [`audience`]: the last listener is added when it receives.
pub proof fn lemma_audience_step(ls: Seq<Seq<char>>, sender: Seq<char>, blocks: Set<Seq<char>>)
    requires
        ls.len() > 0,
    ensures
        audience(ls, sender, blocks) == if ls.last() != sender && host_allowed(ls.last(), blocks) {
            audience(ls.drop_last(), sender, blocks).push(ls.last())
        } else {
            audience(ls.drop_last(), sender, blocks)
        },
{
    assert(hosts_of(ls).drop_last() =~= hosts_of(ls.drop_last()));
}

/// The recipients among `listeners`, given the host of each (`hosts[i]` of
/// `listeners[i]`): every listener other than `sender` whose host is known
/// and not blocked, in order.
pub fn fan_out(state: &State, listeners: &Vec<String>, hosts: &Vec<Option<String>>, sender: &str) -> (r: Vec<String>)
    requires
        listeners@.len() == hosts@.len(),
    ensures
        views(r@) == recipients(views(listeners@), opt_views(hosts@), sender@, state.blocks@),
{
    let mut out: Vec<String> = Vec::new();
    let mut i: usize = 0;
    while i < listeners.len()
        invariant
            i <= listeners@.len(),
            listeners@.len() == hosts@.len(),
            views(out@) == recipients(views(listeners@).take(i as int), opt_views(hosts@).take(i as int), sender@, state.blocks@),
        decreases listeners.len() - i,
    {
        proof {
            assert(views(listeners@).take(i as int + 1).drop_last() =~= views(listeners@).take(i as int));
            assert(opt_views(hosts@).take(i as int + 1).drop_last() =~= opt_views(hosts@).take(i as int));
            assert(views(listeners@).take(i as int + 1).last() == listeners@[i as int]@);
            assert(opt_views(hosts@).take(i as int + 1).last() == opt_views(hosts@)[i as int]);
        }
        if !crate::domains::same_text(listeners[i].as_str(), sender) {
            match &hosts[i] {
                Some(h) => {
                    if !state.is_blocked(h.as_str()) {
                        let ghost o0 = out@;
                        out.push(listeners[i].clone());
                        assert(views(out@) =~= views(o0).push(listeners@[i as int]@));
                    }
                },
                None => {},
            }
        }
        i = i + 1;
    }
    assert(views(listeners@).take(i as int) =~= views(listeners@));
    assert(opt_views(hosts@).take(i as int) =~= opt_views(hosts@));
    out
}

/// The recipients of an `Announce` or `Create` from the listener `sender`
/// with activity id `id`. Nothing is sent where the sender is not a listener,
/// its host is blocked, or the id was relayed before; otherwise the id is
/// recorded and every other listener whose host is not blocked receives it,
/// each once.
pub fn handle_announce(state: &State, seen: &mut NameSet, sender: &str, sender_host: &str, id: &str) -> (r: Vec<String>)
    requires
        state.wf(),
        old(seen).wf(),
    ensures
        final(seen).wf(),
        views(r@).no_duplicates(),
        !state.listeners@.contains(sender@) || state.blocked(sender_host@) || old(seen)@.contains(id@) ==> {
            &&& r@.len() == 0
            &&& *final(seen) == *old(seen)
        },
        state.listeners@.contains(sender@) && !state.blocked(sender_host@) && !old(seen)@.contains(id@) ==> {
            &&& views(r@) == audience(state.listeners.ordered(), sender@, state.blocks@)
            &&& final(seen)@ == old(seen)@.insert(id@)
        },
{
    if !state.is_listener(sender) || state.is_blocked(sender_host) || seen.contains(id) {
        let r: Vec<String> = Vec::new();
        assert(views(r@) =~= Seq::<Seq<char>>::empty());
        return r;
    }
    seen.insert(id);
    let ls = state.listeners();
    let mut hosts: Vec<Option<String>> = Vec::new();
    let mut i: usize = 0;
    while i < ls.len()
        invariant
            i <= ls@.len(),
            hosts@.len() == i,
            opt_views(hosts@) == hosts_of(views(ls@)).take(i as int),
        decreases ls.len() - i,
    {
        let ghost h0 = hosts@;
        hosts.push(host_of(ls[i].as_str()));
        assert(opt_views(hosts@) =~= opt_views(h0).push(opt_views(hosts@)[i as int]));
        assert(opt_views(hosts@) =~= hosts_of(views(ls@)).take(i as int + 1));
        i = i + 1;
    }
    assert(hosts_of(views(ls@)).take(i as int) =~= hosts_of(views(ls@)));
    let out = fan_out(state, &ls, &hosts, sender);
    proof {
        state.listeners.lemma_ordered();
        lemma_audience_no_duplicates(views(ls@), sender@, state.blocks@);
    }
    out
}

/// Where the listeners are listed once each, so are the recipients: a
/// relayed activity reaches each recipient once.
pub proof fn lemma_audience_no_duplicates(ls: Seq<Seq<char>>, sender: Seq<char>, blocks: Set<Seq<char>>)
    requires
        ls.no_duplicates(),
    ensures
        audience(ls, sender, blocks).no_duplicates(),
    decreases ls.len(),
{
    if ls.len() > 0 {
        lemma_audience_step(ls, sender, blocks);
        let prev = ls.drop_last();
        assert(prev.no_duplicates());
        lemma_audience_no_duplicates(prev, sender, blocks);
        if !prev.contains(ls.last()) {
            lemma_audience_only_listeners(prev, sender, blocks, ls.last());
        } else {
            let j = choose|j: int| 0 <= j < prev.len() && prev[j] == ls.last();
            assert(ls[j] == ls[ls.len() - 1]);
        }
    }
}

/// No inbox under a blocked domain, and not the sender's own, is among the
/// recipients, whatever listeners existed before the block.
pub proof fn lemma_audience_respects_blocks(ls: Seq<Seq<char>>, sender: Seq<char>, blocks: Set<Seq<char>>, k: int)
    requires
        0 <= k < audience(ls, sender, blocks).len(),
    ensures
        audience(ls, sender, blocks)[k] != sender,
        host_allowed(audience(ls, sender, blocks)[k], blocks),
        ls.contains(audience(ls, sender, blocks)[k]),
    decreases ls.len(),
{
    lemma_audience_step(ls, sender, blocks);
    let rest = audience(ls.drop_last(), sender, blocks);
    if k < rest.len() {
        lemma_audience_respects_blocks(ls.drop_last(), sender, blocks, k);
        let x = rest[k];
        let j = choose|j: int| 0 <= j < ls.drop_last().len() && ls.drop_last()[j] == x;
        assert(ls[j] == x);
    } else {
        assert(ls[ls.len() - 1] == ls.last());
    }
}

/// Only listeners receive relayed activities.
pub proof fn lemma_audience_only_listeners(ls: Seq<Seq<char>>, sender: Seq<char>, blocks: Set<Seq<char>>, x: Seq<char>)
    requires
        !ls.contains(x),
    ensures
        !audience(ls, sender, blocks).contains(x),
{
    if audience(ls, sender, blocks).contains(x) {
        let k = choose|k: int| 0 <= k < audience(ls, sender, blocks).len() && audience(ls, sender, blocks)[k] == x;
        lemma_audience_respects_blocks(ls, sender, blocks, k);
    }
}

/// The id of an `Announce` that the relay authors: `<relay>/announce/<uuid>`.
pub fn announce_id(relay: &str, id: u128) -> (r: String)
    ensures
        r@ == relay@ + "/announce/"@ + uuid_text(id),
{
    let mut s = relay.to_owned();
    s.append("/announce/");
    let u = format_uuid(id);
    s.append(u.as_str());
    s
}

/// An authenticated inbox activity, reduced to what the relay acts on.
pub enum Activity {
    /// A `Follow` of `object` by an actor on `host` whose inbox is `inbox`.
    Follow { host: String, inbox: String, object: String },
    /// An `Undo` by `principal` of a `Follow` of `object` by `actor`.
    UndoFollow { actor: String, principal: String, inbox: String, object: String },
    /// An `Announce`, or a `Create` of a public note, from the listener `sender`.
    Relay { sender: String, sender_host: String, id: String },
    /// A `Delete` or `Update` of the actor whose inbox is `inbox`.
    ActorGone { inbox: String },
    Other,
}

/// What an accepted activity leads to.
pub struct Accepted {
    pub tasks: Vec<Task>,
    /// The inboxes that get a copy of a relayed activity.
    pub recipients: Vec<String>,
}

pub open spec fn nothing_follows(r: Result<Accepted, Rejection>) -> bool {
    r matches Ok(a) && a.tasks@.len() == 0 && a.recipients@.len() == 0
}

pub open spec fn follow_effect(r: Result<Accepted, Rejection>, inbox: Seq<char>) -> bool {
    r matches Ok(a) && follow_tasks(a.tasks@, inbox) && a.recipients@.len() == 0
}

/// An activity from `sender` with id `id` is relayed: the sender is a
/// listener, its host is not blocked, and the id is new.
pub open spec fn relayed(state: State, seen: NameSet, sender: Seq<char>, host: Seq<char>, id: Seq<char>) -> bool {
    state.listeners@.contains(sender) && !state.blocked(host) && !seen@.contains(id)
}

pub open spec fn relay_effect(r: Result<Accepted, Rejection>, relayed: bool, to: Seq<Seq<char>>) -> bool {
    match r {
        Ok(a) => a.tasks@.len() == 0 && if relayed {
            views(a.recipients@) == to
        } else {
            a.recipients@.len() == 0
        },
        Err(_) => false,
    }
}

/// The inbox's dispatch by activity type. Follows of the relay are accepted
/// or refused by policy; an undo by the follower itself, or the deletion of
/// the actor, drops the listener; relayed activities go to the audience;
/// anything else is accepted and ignored.
pub fn handle_activity(state: &mut State, seen: &mut NameSet, relay: &str, restricted: bool, act: Activity) -> (r: Result<Accepted, Rejection>)
    requires
        old(state).wf(),
        old(seen).wf(),
    ensures
        final(state).wf(),
        final(seen).wf(),
        final(state).blocks == old(state).blocks,
        final(state).whitelists == old(state).whitelists,
        !(act is Relay) ==> *final(seen) == *old(seen),
        act matches Activity::Follow { host, inbox, object } ==> {
            if object@ != relay@ {
                nothing_follows(r) && *final(state) == *old(state)
            } else {
                match follow_refusal(*old(state), host@, restricted) {
                    Some(e) => r == Err::<Accepted, Rejection>(e) && *final(state) == *old(state),
                    None => follow_effect(r, inbox@) && final(state).listeners@ == old(state).listeners@.insert(inbox@),
                }
            }
        },
        act matches Activity::UndoFollow { actor, principal, inbox, object } ==> nothing_follows(r) && if object@ == relay@
            && actor@ == principal@ {
            final(state).listeners@ == old(state).listeners@.remove(inbox@)
        } else {
            *final(state) == *old(state)
        },
        act matches Activity::ActorGone { inbox } ==> nothing_follows(r) && final(state).listeners@
            == old(state).listeners@.remove(inbox@),
        act matches Activity::Other ==> nothing_follows(r) && *final(state) == *old(state),
        act matches Activity::Relay { sender, sender_host, id } ==> *final(state) == *old(state)
            && relay_effect(r, relayed(*old(state), *old(seen), sender@, sender_host@, id@),
                audience(old(state).listeners.ordered(), sender@, old(state).blocks@)),
        act matches Activity::Relay { sender, sender_host, id } ==> if relayed(*old(state), *old(seen), sender@, sender_host@, id@) {
            final(seen)@ == old(seen)@.insert(id@)
        } else {
            *final(seen) == *old(seen)
        },
{
    match act {
        Activity::Follow { host, inbox, object } => {
            if !crate::domains::same_text(object.as_str(), relay) {
                return Ok(Accepted { tasks: Vec::new(), recipients: Vec::new() });
            }
            match handle_follow(state, host.as_str(), inbox.as_str(), restricted) {
                Ok(tasks) => Ok(Accepted { tasks, recipients: Vec::new() }),
                Err(e) => Err(e),
            }
        },
        Activity::UndoFollow { actor, principal, inbox, object } => {
            if crate::domains::same_text(object.as_str(), relay) && crate::domains::same_text(actor.as_str(), principal.as_str()) {
                handle_unfollow(state, inbox.as_str());
            }
            Ok(Accepted { tasks: Vec::new(), recipients: Vec::new() })
        },
        Activity::Relay { sender, sender_host, id } => {
            let recipients = handle_announce(state, seen, sender.as_str(), sender_host.as_str(), id.as_str());
            Ok(Accepted { tasks: Vec::new(), recipients })
        },
        Activity::ActorGone { inbox } => {
            handle_unfollow(state, inbox.as_str());
            Ok(Accepted { tasks: Vec::new(), recipients: Vec::new() })
        },
        Activity::Other => Ok(Accepted { tasks: Vec::new(), recipients: Vec::new() }),
    }
}

/// Following and then undoing the follow leaves the inbox out of the
/// listeners, and no activity relayed afterwards is addressed to it.
pub proof fn lemma_follow_then_undo(
    listeners: Set<Seq<char>>,
    order: Seq<Seq<char>>,
    inbox: Seq<char>,
    sender: Seq<char>,
    blocks: Set<Seq<char>>,
)
    requires
        forall|x: Seq<char>| order.contains(x) <==> listeners.insert(inbox).remove(inbox).contains(x),
    ensures
        !listeners.insert(inbox).remove(inbox).contains(inbox),
        !audience(order, sender, blocks).contains(inbox),
{
    lemma_audience_only_listeners(order, sender, blocks, inbox);
}

} // verus!
