use vstd::prelude::*;

use bb8_postgres::tokio_postgres::Config;

use crate::domains::same_text;
use crate::ids::{parse_iri, parse_uuid, parsed_iri, parsed_uuid};

verus! {

/// Declares tokio-postgres's `Config`, the connection settings of the
/// notification session, which the notifier carries without reading.
#[verifier::external_type_specification]
#[verifier::external_body]
pub struct ExConfig(Config);

/// A change to one of the in-memory caches, announced on a channel.
pub enum CacheUpdate {
    CacheBlock(String),
    CacheWhitelist(String),
    CacheListener(String),
    CacheActor(String),
    CacheNode(u128),
    BustBlock(String),
    BustWhitelist(String),
    BustListener(String),
    BustActor(String),
    BustNode(u128),
}

/// What a [`CacheUpdate`] says, with its texts as character sequences.
pub enum UpdateView {
    CacheBlock(Seq<char>),
    CacheWhitelist(Seq<char>),
    CacheListener(Seq<char>),
    CacheActor(Seq<char>),
    CacheNode(u128),
    BustBlock(Seq<char>),
    BustWhitelist(Seq<char>),
    BustListener(Seq<char>),
    BustActor(Seq<char>),
    BustNode(u128),
}

impl View for CacheUpdate {
    type V = UpdateView;

    open spec fn view(&self) -> UpdateView {
        match self {
            CacheUpdate::CacheBlock(x) => UpdateView::CacheBlock(x@),
            CacheUpdate::CacheWhitelist(x) => UpdateView::CacheWhitelist(x@),
            CacheUpdate::CacheListener(x) => UpdateView::CacheListener(x@),
            CacheUpdate::CacheActor(x) => UpdateView::CacheActor(x@),
            CacheUpdate::CacheNode(x) => UpdateView::CacheNode(*x),
            CacheUpdate::BustBlock(x) => UpdateView::BustBlock(x@),
            CacheUpdate::BustWhitelist(x) => UpdateView::BustWhitelist(x@),
            CacheUpdate::BustListener(x) => UpdateView::BustListener(x@),
            CacheUpdate::BustActor(x) => UpdateView::BustActor(x@),
            CacheUpdate::BustNode(x) => UpdateView::BustNode(*x),
        }
    }
}

pub open spec fn opt_view(o: Option<CacheUpdate>) -> Option<UpdateView> {
    match o {
        Some(u) => Some(u@),
        None => None,
    }
}

pub open spec fn update_views(s: Seq<CacheUpdate>) -> Seq<UpdateView> {
    s.map_values(|u: CacheUpdate| u@)
}

/// A handler of the notifications published on one channel.
pub trait Listener {
    /// The channel this handler listens on.
    spec fn channel(&self) -> Seq<char>;

    /// The cache update that a notification with this payload calls for.
    spec fn update_for(&self, payload: Seq<char>) -> Option<UpdateView>;

    fn key(&self) -> (r: &str)
        ensures
            r@ == self.channel(),
    ;

    fn execute(&self, payload: &str) -> (r: Option<CacheUpdate>)
        ensures
            opt_view(r) == self.update_for(payload@),
    ;
}

/// A domain was blocked: cache the block.
pub struct NewBlocks;

/// A domain was whitelisted: cache the entry.
pub struct NewWhitelists;

/// A listener was accepted: cache its inbox.
pub struct NewListeners;

/// An actor was stored: warm the actor cache.
pub struct NewActors;

/// A node record was stored: warm the node cache.
pub struct NewNodes;

/// A block was lifted: drop it from the cache.
pub struct RmBlocks;

/// A whitelist entry was removed: drop it from the cache.
pub struct RmWhitelists;

/// A listener was removed: drop its inbox from the cache.
pub struct RmListeners;

/// An actor was removed: evict it from the actor cache.
pub struct RmActors;

/// A node record was removed: evict it from the node cache.
pub struct RmNodes;

impl Listener for NewBlocks {
    open spec fn channel(&self) -> Seq<char> {
        "new_blocks"@
    }

    open spec fn update_for(&self, payload: Seq<char>) -> Option<UpdateView> {
        Some(UpdateView::CacheBlock(payload))
    }

    fn key(&self) -> (r: &str) {
        "new_blocks"
    }

    fn execute(&self, payload: &str) -> (r: Option<CacheUpdate>) {
        Some(CacheUpdate::CacheBlock(payload.to_owned()))
    }
}

impl Listener for NewWhitelists {
    open spec fn channel(&self) -> Seq<char> {
        "new_whitelists"@
    }

    open spec fn update_for(&self, payload: Seq<char>) -> Option<UpdateView> {
        Some(UpdateView::CacheWhitelist(payload))
    }

    fn key(&self) -> (r: &str) {
        "new_whitelists"
    }

    fn execute(&self, payload: &str) -> (r: Option<CacheUpdate>) {
        Some(CacheUpdate::CacheWhitelist(payload.to_owned()))
    }
}

impl Listener for NewListeners {
    open spec fn channel(&self) -> Seq<char> {
        "new_listeners"@
    }

    open spec fn update_for(&self, payload: Seq<char>) -> Option<UpdateView> {
        match parsed_iri(payload) {
            Some(x) => Some(UpdateView::CacheListener(x)),
            None => None,
        }
    }

    fn key(&self) -> (r: &str) {
        "new_listeners"
    }

    fn execute(&self, payload: &str) -> (r: Option<CacheUpdate>) {
        match parse_iri(payload) {
            Some(x) => Some(CacheUpdate::CacheListener(x)),
            None => None,
        }
    }
}

impl Listener for NewActors {
    open spec fn channel(&self) -> Seq<char> {
        "new_actors"@
    }

    open spec fn update_for(&self, payload: Seq<char>) -> Option<UpdateView> {
        match parsed_iri(payload) {
            Some(x) => Some(UpdateView::CacheActor(x)),
            None => None,
        }
    }

    fn key(&self) -> (r: &str) {
        "new_actors"
    }

    fn execute(&self, payload: &str) -> (r: Option<CacheUpdate>) {
        match parse_iri(payload) {
            Some(x) => Some(CacheUpdate::CacheActor(x)),
            None => None,
        }
    }
}

impl Listener for NewNodes {
    open spec fn channel(&self) -> Seq<char> {
        "new_nodes"@
    }

    open spec fn update_for(&self, payload: Seq<char>) -> Option<UpdateView> {
        match parsed_uuid(payload) {
            Some(x) => Some(UpdateView::CacheNode(x)),
            None => None,
        }
    }

    fn key(&self) -> (r: &str) {
        "new_nodes"
    }

    fn execute(&self, payload: &str) -> (r: Option<CacheUpdate>) {
        match parse_uuid(payload) {
            Some(x) => Some(CacheUpdate::CacheNode(x)),
            None => None,
        }
    }
}

impl Listener for RmBlocks {
    open spec fn channel(&self) -> Seq<char> {
        "rm_blocks"@
    }

    open spec fn update_for(&self, payload: Seq<char>) -> Option<UpdateView> {
        Some(UpdateView::BustBlock(payload))
    }

    fn key(&self) -> (r: &str) {
        "rm_blocks"
    }

    fn execute(&self, payload: &str) -> (r: Option<CacheUpdate>) {
        Some(CacheUpdate::BustBlock(payload.to_owned()))
    }
}

impl Listener for RmWhitelists {
    open spec fn channel(&self) -> Seq<char> {
        "rm_whitelists"@
    }

    open spec fn update_for(&self, payload: Seq<char>) -> Option<UpdateView> {
        Some(UpdateView::BustWhitelist(payload))
    }

    fn key(&self) -> (r: &str) {
        "rm_whitelists"
    }

    fn execute(&self, payload: &str) -> (r: Option<CacheUpdate>) {
        Some(CacheUpdate::BustWhitelist(payload.to_owned()))
    }
}

impl Listener for RmListeners {
    open spec fn channel(&self) -> Seq<char> {
        "rm_listeners"@
    }

    open spec fn update_for(&self, payload: Seq<char>) -> Option<UpdateView> {
        match parsed_iri(payload) {
            Some(x) => Some(UpdateView::BustListener(x)),
            None => None,
        }
    }

    fn key(&self) -> (r: &str) {
        "rm_listeners"
    }

    fn execute(&self, payload: &str) -> (r: Option<CacheUpdate>) {
        match parse_iri(payload) {
            Some(x) => Some(CacheUpdate::BustListener(x)),
            None => None,
        }
    }
}

impl Listener for RmActors {
    open spec fn channel(&self) -> Seq<char> {
        "rm_actors"@
    }

    open spec fn update_for(&self, payload: Seq<char>) -> Option<UpdateView> {
        match parsed_iri(payload) {
            Some(x) => Some(UpdateView::BustActor(x)),
            None => None,
        }
    }

    fn key(&self) -> (r: &str) {
        "rm_actors"
    }

    fn execute(&self, payload: &str) -> (r: Option<CacheUpdate>) {
        match parse_iri(payload) {
            Some(x) => Some(CacheUpdate::BustActor(x)),
            None => None,
        }
    }
}

impl Listener for RmNodes {
    open spec fn channel(&self) -> Seq<char> {
        "rm_nodes"@
    }

    open spec fn update_for(&self, payload: Seq<char>) -> Option<UpdateView> {
        match parsed_uuid(payload) {
            Some(x) => Some(UpdateView::BustNode(x)),
            None => None,
        }
    }

    fn key(&self) -> (r: &str) {
        "rm_nodes"
    }

    fn execute(&self, payload: &str) -> (r: Option<CacheUpdate>) {
        match parse_uuid(payload) {
            Some(x) => Some(CacheUpdate::BustNode(x)),
            None => None,
        }
    }
}

/// One registered handler: the closed set of channel handlers.
pub enum Handler {
    NewBlocks(NewBlocks),
    NewWhitelists(NewWhitelists),
    NewListeners(NewListeners),
    NewActors(NewActors),
    NewNodes(NewNodes),
    RmBlocks(RmBlocks),
    RmWhitelists(RmWhitelists),
    RmListeners(RmListeners),
    RmActors(RmActors),
    RmNodes(RmNodes),
}

impl Listener for Handler {
    open spec fn channel(&self) -> Seq<char> {
        match self {
            Handler::NewBlocks(l) => l.channel(),
            Handler::NewWhitelists(l) => l.channel(),
            Handler::NewListeners(l) => l.channel(),
            Handler::NewActors(l) => l.channel(),
            Handler::NewNodes(l) => l.channel(),
            Handler::RmBlocks(l) => l.channel(),
            Handler::RmWhitelists(l) => l.channel(),
            Handler::RmListeners(l) => l.channel(),
            Handler::RmActors(l) => l.channel(),
            Handler::RmNodes(l) => l.channel(),
        }
    }

    open spec fn update_for(&self, payload: Seq<char>) -> Option<UpdateView> {
        match self {
            Handler::NewBlocks(l) => l.update_for(payload),
            Handler::NewWhitelists(l) => l.update_for(payload),
            Handler::NewListeners(l) => l.update_for(payload),
            Handler::NewActors(l) => l.update_for(payload),
            Handler::NewNodes(l) => l.update_for(payload),
            Handler::RmBlocks(l) => l.update_for(payload),
            Handler::RmWhitelists(l) => l.update_for(payload),
            Handler::RmListeners(l) => l.update_for(payload),
            Handler::RmActors(l) => l.update_for(payload),
            Handler::RmNodes(l) => l.update_for(payload),
        }
    }

    fn key(&self) -> (r: &str) {
        match self {
            Handler::NewBlocks(l) => l.key(),
            Handler::NewWhitelists(l) => l.key(),
            Handler::NewListeners(l) => l.key(),
            Handler::NewActors(l) => l.key(),
            Handler::NewNodes(l) => l.key(),
            Handler::RmBlocks(l) => l.key(),
            Handler::RmWhitelists(l) => l.key(),
            Handler::RmListeners(l) => l.key(),
            Handler::RmActors(l) => l.key(),
            Handler::RmNodes(l) => l.key(),
        }
    }

    fn execute(&self, payload: &str) -> (r: Option<CacheUpdate>) {
        match self {
            Handler::NewBlocks(l) => l.execute(payload),
            Handler::NewWhitelists(l) => l.execute(payload),
            Handler::NewListeners(l) => l.execute(payload),
            Handler::NewActors(l) => l.execute(payload),
            Handler::NewNodes(l) => l.execute(payload),
            Handler::RmBlocks(l) => l.execute(payload),
            Handler::RmWhitelists(l) => l.execute(payload),
            Handler::RmListeners(l) => l.execute(payload),
            Handler::RmActors(l) => l.execute(payload),
            Handler::RmNodes(l) => l.execute(payload),
        }
    }
}

/// The updates that a notification on `channel` calls for: one per handler
/// registered on that channel whose payload check passes, in registration order.
pub open spec fn dispatched(hs: Seq<Handler>, channel: Seq<char>, payload: Seq<char>) -> Seq<UpdateView>
    decreases hs.len(),
{
    if hs.len() == 0 {
        Seq::empty()
    } else {
        let rest = dispatched(hs.drop_last(), channel, payload);
        if hs.last().channel() == channel {
            match hs.last().update_for(payload) {
                Some(u) => rest.push(u),
                None => rest,
            }
        } else {
            rest
        }
    }
}

/// Routes the notifications of the database's change channels to handlers.
pub struct Notifier {
    config: Config,
    listeners: Vec<Handler>,
}

impl Notifier {
    /// The handlers, in the order in which they were registered.
    pub closed spec fn handlers(&self) -> Seq<Handler> {
        self.listeners@
    }

    /// The connection settings the session is opened with.
    pub closed spec fn settings(&self) -> Config {
        self.config
    }

    pub fn new(config: Config) -> (r: Notifier)
        ensures
            r.handlers() == Seq::<Handler>::empty(),
            r.settings() == config,
    {
        Notifier { config, listeners: Vec::new() }
    }

    pub fn register(self, l: Handler) -> (r: Notifier)
        ensures
            r.handlers() == self.handlers().push(l),
            r.settings() == self.settings(),
    {
        let mut n = self;
        n.listeners.push(l);
        n
    }

    /// The connection settings of the notification session.
    pub fn config(&self) -> (r: &Config)
        ensures
            *r == self.settings(),
    {
        &self.config
    }

    /// The cache updates that one notification calls for.
    pub fn dispatch(&self, channel: &str, payload: &str) -> (r: Vec<CacheUpdate>)
        ensures
            update_views(r@) == dispatched(self.handlers(), channel@, payload@),
    {
        let mut out: Vec<CacheUpdate> = Vec::new();
        let mut i: usize = 0;
        while i < self.listeners.len()
            invariant
                i <= self.listeners@.len(),
                update_views(out@) == dispatched(self.listeners@.take(i as int), channel@, payload@),
            decreases self.listeners.len() - i,
        {
            let l = &self.listeners[i];
            proof {
                assert(self.listeners@.take(i as int + 1).drop_last() =~= self.listeners@.take(i as int));
                assert(self.listeners@.take(i as int + 1).last() == *l);
            }
            if same_text(l.key(), channel) {
                match l.execute(payload) {
                    Some(u) => {
                        let ghost o0 = out@;
                        out.push(u);
                        assert(update_views(out@) =~= update_views(o0).push(u@));
                    },
                    None => {},
                }
            }
            i = i + 1;
        }
        assert(self.listeners@.take(i as int) =~= self.listeners@);
        out
    }
}

/// Seconds to wait before connecting again after a failed connection.
pub const RECONNECT_DELAY: u64 = 5;

/// What happened to the notification session.
#[derive(PartialEq, Eq, Structural, Clone, Copy, Debug)]
pub enum BusEvent {
    Started,
    ConnectFailed,
    Connected,
    /// Subscribing to the channels failed.
    SubscribeFailed,
    /// The connection closed or failed while listening.
    StreamEnded,
}

/// What the session does next.
#[derive(PartialEq, Eq, Structural, Clone, Copy, Debug)]
pub enum BusStep {
    Connect,
    /// Sleep this many seconds, then connect.
    WaitThenConnect(u64),
    /// Subscribe to every channel and route notifications until the stream ends.
    Listen,
}

/// The supervision of the notification session: it connects, listens, and
/// after any failure or loss waits [`RECONNECT_DELAY`] seconds and connects
/// again, so it never stops.
pub fn next_step(ev: BusEvent) -> (r: BusStep)
    ensures
        ev == BusEvent::Connected <==> r == BusStep::Listen,
        ev == BusEvent::Started <==> r == BusStep::Connect,
        ev == BusEvent::ConnectFailed ==> r == BusStep::WaitThenConnect(RECONNECT_DELAY),
        ev == BusEvent::SubscribeFailed ==> r == BusStep::WaitThenConnect(RECONNECT_DELAY),
        ev == BusEvent::StreamEnded ==> r == BusStep::WaitThenConnect(RECONNECT_DELAY),
        r matches BusStep::WaitThenConnect(d) ==> d <= RECONNECT_DELAY,
{
    match ev {
        BusEvent::Started => BusStep::Connect,
        BusEvent::ConnectFailed => BusStep::WaitThenConnect(RECONNECT_DELAY),
        BusEvent::Connected => BusStep::Listen,
        BusEvent::SubscribeFailed => BusStep::WaitThenConnect(RECONNECT_DELAY),
        BusEvent::StreamEnded => BusStep::WaitThenConnect(RECONNECT_DELAY),
    }
}

} // verus!
