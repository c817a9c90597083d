use bb8_postgres::tokio_postgres::Config;
use relay::cache::{Actor, ActorCache, Node, NodeCache};
use relay::domains::host_matches;
use relay::inbox::{
    after_key_check, announce_id, check_request, fan_out, handle_activity, handle_announce, handle_follow,
    handle_unfollow, Activity, KeyStep, Rejection, Task,
};
use relay::jobs::{
    after_attempt, backoff_secs, is_retryable, pick_next, reclaim, JobState, Outcome, Schedule,
    Step,
};
use relay::notify::{
    next_step, BusEvent, BusStep, CacheUpdate, Handler, Listener, NewActors, NewBlocks,
    NewListeners, NewNodes, NewWhitelists, Notifier, RmActors, RmBlocks, RmListeners, RmNodes,
    RmWhitelists,
};
use relay::replica::{refresh_tasks, Replica};
use relay::state::{NameSet, State};

const NOW: u64 = 1_700_000_000;

fn full_notifier() -> Notifier {
    Notifier::new(Config::new())
        .register(Handler::NewBlocks(NewBlocks))
        .register(Handler::NewWhitelists(NewWhitelists))
        .register(Handler::NewListeners(NewListeners))
        .register(Handler::NewActors(NewActors))
        .register(Handler::NewNodes(NewNodes))
        .register(Handler::RmBlocks(RmBlocks))
        .register(Handler::RmWhitelists(RmWhitelists))
        .register(Handler::RmListeners(RmListeners))
        .register(Handler::RmActors(RmActors))
        .register(Handler::RmNodes(RmNodes))
}

fn state_with_listeners(inboxes: &[&str]) -> State {
    let mut s = State::new();
    for i in inboxes {
        s.cache_listener(i);
    }
    s
}

#[test]
fn channel_keys() {
    assert_eq!(NewBlocks.key(), "new_blocks");
    assert_eq!(NewWhitelists.key(), "new_whitelists");
    assert_eq!(NewListeners.key(), "new_listeners");
    assert_eq!(NewActors.key(), "new_actors");
    assert_eq!(NewNodes.key(), "new_nodes");
    assert_eq!(RmBlocks.key(), "rm_blocks");
    assert_eq!(RmWhitelists.key(), "rm_whitelists");
    assert_eq!(RmListeners.key(), "rm_listeners");
    assert_eq!(RmActors.key(), "rm_actors");
    assert_eq!(RmNodes.key(), "rm_nodes");
    assert_eq!(Handler::RmNodes(RmNodes).key(), "rm_nodes");
}

#[test]
fn text_payloads_are_taken_as_they_are() {
    assert!(matches!(NewBlocks.execute("evil.example"), Some(CacheUpdate::CacheBlock(h)) if h == "evil.example"));
    assert!(matches!(RmBlocks.execute("evil.example"), Some(CacheUpdate::BustBlock(h)) if h == "evil.example"));
    assert!(matches!(NewWhitelists.execute("good.example"), Some(CacheUpdate::CacheWhitelist(h)) if h == "good.example"));
    assert!(matches!(RmWhitelists.execute("good.example"), Some(CacheUpdate::BustWhitelist(h)) if h == "good.example"));
}

#[test]
fn iri_payloads_are_parsed_and_normalised() {
    assert!(matches!(
        NewListeners.execute("HTTPS://A.Example/inbox"),
        Some(CacheUpdate::CacheListener(u)) if u == "https://a.example/inbox"
    ));
    assert!(matches!(
        NewActors.execute("https://a.example"),
        Some(CacheUpdate::CacheActor(u)) if u == "https://a.example/"
    ));
    assert!(matches!(
        RmListeners.execute("https://a.example/inbox"),
        Some(CacheUpdate::BustListener(u)) if u == "https://a.example/inbox"
    ));
    assert!(matches!(
        RmActors.execute("https://a.example/actor"),
        Some(CacheUpdate::BustActor(u)) if u == "https://a.example/actor"
    ));
}

#[test]
fn unparseable_payloads_are_ignored() {
    assert!(NewListeners.execute("not an iri").is_none());
    assert!(RmListeners.execute("").is_none());
    assert!(NewActors.execute("a.example/actor").is_none());
    assert!(RmActors.execute("::").is_none());
    assert!(NewNodes.execute("not-a-uuid").is_none());
    assert!(RmNodes.execute("").is_none());
}

#[test]
fn uuid_payloads_are_parsed() {
    let v: u128 = 0x67e5504410b1426f9247bb680e5fe0c8;
    assert!(matches!(NewNodes.execute("67e55044-10b1-426f-9247-bb680e5fe0c8"), Some(CacheUpdate::CacheNode(n)) if n == v));
    assert!(matches!(RmNodes.execute("67e5504410b1426f9247bb680e5fe0c8"), Some(CacheUpdate::BustNode(n)) if n == v));
}

#[test]
fn dispatch_routes_by_channel_in_registration_order() {
    let mut config = Config::new();
    config.host("db.example");
    let n = Notifier::new(config)
        .register(Handler::NewBlocks(NewBlocks))
        .register(Handler::RmBlocks(RmBlocks))
        .register(Handler::NewBlocks(NewBlocks));
    assert_eq!(n.config().get_hosts().len(), 1);
    let r = n.dispatch("new_blocks", "evil.example");
    assert_eq!(r.len(), 2);
    assert!(r.iter().all(|u| matches!(u, CacheUpdate::CacheBlock(h) if h == "evil.example")));
    assert!(n.dispatch("unknown", "evil.example").is_empty());
    assert!(full_notifier().dispatch("new_listeners", "not an iri").is_empty());
}

#[test]
fn block_announced_on_one_replica_reaches_another() {
    let bus = full_notifier();
    let mut r2 = Replica::new();
    assert!(!r2.state.is_blocked("evil.example"));
    for u in bus.dispatch("new_blocks", "evil.example") {
        assert!(r2.apply(u).is_empty());
    }
    assert!(r2.state.is_blocked("evil.example"));
    for u in bus.dispatch("rm_blocks", "evil.example") {
        r2.apply(u);
    }
    assert!(!r2.state.is_blocked("evil.example"));
}

#[test]
fn new_listener_notification_only_caches() {
    let bus = full_notifier();
    let mut r = Replica::new();
    let mut tasks = Vec::new();
    for u in bus.dispatch("new_listeners", "https://a.example/inbox") {
        tasks.extend(r.apply(u));
    }
    assert!(r.state.is_listener("https://a.example/inbox"));
    assert!(tasks.is_empty());
    let mut more = Vec::new();
    for u in bus.dispatch("new_nodes", "67e55044-10b1-426f-9247-bb680e5fe0c8") {
        more.extend(r.apply(u));
    }
    assert!(matches!(more[..], [Task::LoadNode(0x67e5504410b1426f9247bb680e5fe0c8)]));
}

#[test]
fn follow_and_its_notification_schedule_each_task_once() {
    let mut r = Replica::new();
    let mut tasks = handle_follow(&mut r.state, "a.example", "https://a.example/inbox", false).ok().unwrap();
    for u in full_notifier().dispatch("new_listeners", "https://a.example/inbox") {
        tasks.extend(r.apply(u));
    }
    assert_eq!(tasks.len(), 3);
    assert_eq!(tasks.iter().filter(|t| matches!(t, Task::DeliverAccept(_))).count(), 1);
    assert_eq!(tasks.iter().filter(|t| matches!(t, Task::QueryInstance(_))).count(), 1);
    assert_eq!(tasks.iter().filter(|t| matches!(t, Task::QueryNodeinfo(_))).count(), 1);
}

#[test]
fn actor_and_node_eviction() {
    let mut r = Replica::new();
    r.actors.insert(Actor {
        id: "https://a.example/actor".to_string(),
        inbox: "https://a.example/inbox".to_string(),
        public_key_id: "https://a.example/actor#main-key".to_string(),
        public_key_pem: "pem".to_string(),
        cached_at: NOW,
    });
    r.nodes.insert(Node { id: 7, listener: "https://a.example/inbox".to_string(), software: "x".to_string(), version: "1".to_string() });
    assert!(r.actors.get("https://a.example/actor", NOW + 10).is_some());
    assert!(r.nodes.get(7).is_some());
    for u in full_notifier().dispatch("rm_actors", "https://a.example/actor") {
        r.apply(u);
    }
    assert!(r.actors.get("https://a.example/actor", NOW + 10).is_none());
    r.apply(CacheUpdate::BustNode(7));
    assert!(r.nodes.get(7).is_none());
}

#[test]
fn actor_cache_honours_ttl_and_replaces() {
    let mut c = ActorCache::new();
    let mk = |k: &str, at: u64| Actor {
        id: "https://a.example/actor".to_string(),
        inbox: "https://a.example/inbox".to_string(),
        public_key_id: k.to_string(),
        public_key_pem: "pem".to_string(),
        cached_at: at,
    };
    c.insert(mk("k1", NOW));
    assert_eq!(c.get("https://a.example/actor", NOW + 86399).unwrap().public_key_id, "k1");
    assert!(c.get("https://a.example/actor", NOW + 86400).is_none());
    assert!(c.get("https://b.example/actor", NOW).is_none());
    c.insert(mk("k2", NOW + 100));
    assert_eq!(c.get("https://a.example/actor", NOW + 86450).unwrap().public_key_id, "k2");
    c.remove("https://a.example/actor");
    assert!(c.get("https://a.example/actor", NOW + 100).is_none());
}

#[test]
fn node_cache_replaces_by_id() {
    let mut c = NodeCache::new();
    c.insert(Node { id: 1, listener: "https://a.example/inbox".to_string(), software: "a".to_string(), version: "1".to_string() });
    c.insert(Node { id: 1, listener: "https://a.example/inbox".to_string(), software: "a".to_string(), version: "2".to_string() });
    assert_eq!(c.get(1).unwrap().version, "2");
    c.remove(2);
    assert!(c.get(1).is_some());
    c.remove(1);
    assert!(c.get(1).is_none());
}

#[test]
fn domain_matching_is_by_suffix_label() {
    assert!(host_matches("evil.example", "evil.example"));
    assert!(host_matches("sub.evil.example", "evil.example"));
    assert!(!host_matches("notevil.example", "evil.example"));
    assert!(!host_matches("example", "evil.example"));
    assert!(!host_matches("evil.example.org", "evil.example"));
}

#[test]
fn name_set_behaves_as_a_set() {
    let mut s = NameSet::new();
    assert!(s.is_empty());
    s.insert("b");
    s.insert("a");
    s.insert("b");
    assert_eq!(s.to_vec(), vec!["b".to_string(), "a".to_string()]);
    assert!(s.contains("a"));
    s.remove("b");
    assert_eq!(s.to_vec(), vec!["a".to_string()]);
    assert!(!s.contains("b"));
    assert!(s.covers("x.a"));
}

#[test]
fn block_then_unblock() {
    let mut s = State::new();
    assert!(!s.is_blocked("d.example"));
    s.cache_block("d.example");
    assert!(s.is_blocked("d.example"));
    assert!(s.is_blocked("www.d.example"));
    s.bust_block("d.example");
    assert!(!s.is_blocked("d.example"));
}

#[test]
fn whitelist_empty_admits_everyone() {
    let mut s = State::new();
    assert!(s.is_whitelisted("a.example"));
    s.cache_whitelist("b.example");
    assert!(!s.is_whitelisted("a.example"));
    assert!(s.is_whitelisted("b.example"));
    s.bust_whitelist("b.example");
    assert!(s.is_whitelisted("a.example"));
}

#[test]
fn follow_accepted() {
    let mut s = State::new();
    let r = handle_follow(&mut s, "a.example", "https://a.example/inbox", false);
    let tasks = r.ok().unwrap();
    assert_eq!(tasks.len(), 3);
    assert!(matches!(&tasks[0], Task::DeliverAccept(u) if u == "https://a.example/inbox"));
    assert!(matches!(&tasks[1], Task::QueryInstance(u) if u == "https://a.example/inbox"));
    assert!(matches!(&tasks[2], Task::QueryNodeinfo(u) if u == "https://a.example/inbox"));
    assert!(s.is_listener("https://a.example/inbox"));
}

#[test]
fn follow_rejected_by_blocklist() {
    let mut s = State::new();
    s.cache_block("a.example");
    let r = handle_follow(&mut s, "a.example", "https://a.example/inbox", false);
    assert!(matches!(r, Err(Rejection::Blocked)));
    assert_eq!(Rejection::Blocked.status(), 403);
    assert!(!s.is_listener("https://a.example/inbox"));
    assert!(s.listeners().is_empty());
}

#[test]
fn follow_rejected_when_not_whitelisted_in_restricted_mode() {
    let mut s = State::new();
    s.cache_whitelist("b.example");
    let r = handle_follow(&mut s, "a.example", "https://a.example/inbox", true);
    assert!(matches!(r, Err(Rejection::NotWhitelisted)));
    assert_eq!(Rejection::NotWhitelisted.status(), 403);
    assert!(handle_follow(&mut s, "a.example", "https://a.example/inbox", false).is_ok());
}

#[test]
fn follow_then_undo() {
    let mut s = State::new();
    assert!(handle_follow(&mut s, "a.example", "https://a.example/inbox", false).is_ok());
    s.cache_listener("https://b.example/inbox");
    handle_unfollow(&mut s, "https://a.example/inbox");
    assert!(!s.is_listener("https://a.example/inbox"));
    let mut seen = NameSet::new();
    let r = handle_announce(&s, &mut seen, "https://b.example/inbox", "b.example", "https://b.example/n/1");
    assert!(r.is_empty());
}

#[test]
fn announce_fan_out() {
    let s = state_with_listeners(&[
        "https://a.example/inbox",
        "https://b.example/inbox",
        "https://c.example/inbox",
    ]);
    let mut seen = NameSet::new();
    let r = handle_announce(&s, &mut seen, "https://a.example/inbox", "a.example", "https://a.example/n/7");
    assert_eq!(r, vec!["https://b.example/inbox".to_string(), "https://c.example/inbox".to_string()]);
    let again = handle_announce(&s, &mut seen, "https://a.example/inbox", "a.example", "https://a.example/n/7");
    assert!(again.is_empty());
}

#[test]
fn announce_from_non_listener_is_dropped() {
    let s = state_with_listeners(&["https://b.example/inbox"]);
    let mut seen = NameSet::new();
    let r = handle_announce(&s, &mut seen, "https://x.example/inbox", "x.example", "https://x.example/n/1");
    assert!(r.is_empty());
    assert!(!seen.contains("https://x.example/n/1"));
}

#[test]
fn announce_skips_blocked_listeners() {
    let mut s = state_with_listeners(&[
        "https://a.example/inbox",
        "https://m.evil.example/inbox",
        "not an iri",
        "https://c.example/inbox",
    ]);
    s.cache_block("evil.example");
    let mut seen = NameSet::new();
    let r = handle_announce(&s, &mut seen, "https://a.example/inbox", "a.example", "https://a.example/n/8");
    assert_eq!(r, vec!["https://c.example/inbox".to_string()]);
    let r2 = handle_announce(&s, &mut seen, "https://m.evil.example/inbox", "m.evil.example", "https://m.evil.example/n/1");
    assert!(r2.is_empty());
}

#[test]
fn signature_checks() {
    assert!(check_request(NOW, NOW, true, true).is_ok());
    assert!(check_request(NOW - 3600, NOW, true, true).is_ok());
    assert!(check_request(NOW + 3600, NOW, true, true).is_ok());
    let stale = check_request(NOW - 61 * 60, NOW, true, true);
    assert!(matches!(stale, Err(Rejection::SignatureStale)));
    assert_eq!(Rejection::SignatureStale.status(), 401);
    assert!(matches!(check_request(NOW + 61 * 60, NOW, true, true), Err(Rejection::SignatureStale)));
    assert!(matches!(check_request(NOW, NOW, false, true), Err(Rejection::DigestMismatch)));
    assert!(matches!(check_request(NOW, NOW, true, false), Err(Rejection::SignatureInvalid)));
    assert_eq!(Rejection::DigestMismatch.status(), 401);
    assert_eq!(Rejection::SignatureInvalid.status(), 401);
}

#[test]
fn signature_key_rotation() {
    assert_eq!(after_key_check(false, true, false), KeyStep::Refetch);
    assert_eq!(after_key_check(true, false, true), KeyStep::Verified);
    assert_eq!(after_key_check(false, false, true), KeyStep::Refused);
    assert_eq!(after_key_check(false, false, false), KeyStep::Refused);
}

#[test]
fn worker_backoff() {
    let job = Schedule { state: JobState::Running, attempts: 0, next_run: NOW };
    let first = after_attempt(job, Outcome::Status(503), NOW, 0);
    let mut s = match first {
        Step::Keep(s) => s,
        Step::Remove => panic!("job removed"),
    };
    assert_eq!(s.state, JobState::Pending);
    assert_eq!(s.attempts, 1);
    assert_eq!(s.next_run, NOW + 54);
    for draw in 0..13u64 {
        match after_attempt(job, Outcome::Status(503), NOW, draw) {
            Step::Keep(k) => assert!(k.next_run >= NOW + 54 && k.next_run <= NOW + 66),
            Step::Remove => panic!("job removed"),
        }
    }
    for _ in 0..9 {
        s = match after_attempt(s, Outcome::ConnectError, NOW, 7) {
            Step::Keep(k) => k,
            Step::Remove => panic!("job removed"),
        };
    }
    assert_eq!(s.state, JobState::Failed);
    assert_eq!(s.attempts, 10);
}

#[test]
fn permanent_failures_and_success() {
    let job = Schedule { state: JobState::Running, attempts: 3, next_run: NOW };
    assert_eq!(after_attempt(job, Outcome::Done, NOW, 0), Step::Remove);
    assert_eq!(after_attempt(job, Outcome::Status(202), NOW, 0), Step::Remove);
    assert_eq!(after_attempt(job, Outcome::Status(200), NOW, 0), Step::Remove);
    assert_eq!(
        after_attempt(job, Outcome::Status(404), NOW, 0),
        Step::Keep(Schedule { state: JobState::Failed, attempts: 4, next_run: NOW })
    );
    assert!(is_retryable(408));
    assert!(is_retryable(429));
    assert!(is_retryable(500));
    assert!(is_retryable(599));
    assert!(!is_retryable(400));
    assert!(!is_retryable(410));
    assert!(!is_retryable(600));
}

#[test]
fn backoff_doubles_up_to_an_hour() {
    assert_eq!(backoff_secs(0), 60);
    assert_eq!(backoff_secs(1), 120);
    assert_eq!(backoff_secs(5), 1920);
    assert_eq!(backoff_secs(6), 3600);
    assert_eq!(backoff_secs(9), 3600);
}

#[test]
fn bus_reconnects() {
    assert_eq!(next_step(BusEvent::Started), BusStep::Connect);
    assert_eq!(next_step(BusEvent::ConnectFailed), BusStep::WaitThenConnect(5));
    assert_eq!(next_step(BusEvent::Connected), BusStep::Listen);
    assert_eq!(next_step(BusEvent::StreamEnded), BusStep::WaitThenConnect(5));
    assert_eq!(next_step(BusEvent::SubscribeFailed), BusStep::WaitThenConnect(5));
}

#[test]
fn next_job_is_the_earliest_due() {
    let p = |n: u64| Schedule { state: JobState::Pending, attempts: 0, next_run: n };
    let jobs = vec![
        p(NOW + 5),
        Schedule { state: JobState::Running, attempts: 0, next_run: NOW - 100 },
        p(NOW - 10),
        Schedule { state: JobState::Failed, attempts: 10, next_run: NOW - 200 },
        p(NOW - 30),
        p(NOW - 30),
    ];
    assert_eq!(pick_next(&jobs, NOW), Some(4));
    assert_eq!(pick_next(&jobs, NOW - 40), None);
    assert_eq!(pick_next(&Vec::new(), NOW), None);
}

#[test]
fn stale_leases_are_reclaimed() {
    let run = Schedule { state: JobState::Running, attempts: 2, next_run: NOW };
    assert_eq!(reclaim(run, NOW, NOW + 600), Schedule { state: JobState::Pending, attempts: 2, next_run: NOW });
    assert_eq!(reclaim(run, NOW, NOW + 599), run);
    let pending = Schedule { state: JobState::Pending, attempts: 2, next_run: NOW };
    assert_eq!(reclaim(pending, NOW, NOW + 6000), pending);
}

#[test]
fn refresh_queries_every_listener() {
    let s = state_with_listeners(&["https://a.example/inbox", "https://b.example/inbox"]);
    let t = refresh_tasks(&s);
    assert_eq!(t.len(), 4);
    assert!(matches!(&t[0], Task::QueryNodeinfo(u) if u == "https://a.example/inbox"));
    assert!(matches!(&t[1], Task::QueryInstance(u) if u == "https://a.example/inbox"));
    assert!(matches!(&t[2], Task::QueryNodeinfo(u) if u == "https://b.example/inbox"));
    assert!(matches!(&t[3], Task::QueryInstance(u) if u == "https://b.example/inbox"));
    assert!(refresh_tasks(&State::new()).is_empty());
}

#[test]
fn activity_dispatch() {
    let relay_actor = "https://relay.test/actor";
    let mut s = State::new();
    let mut seen = NameSet::new();
    let follow = |object: &str| Activity::Follow {
        host: "a.example".to_string(),
        inbox: "https://a.example/inbox".to_string(),
        object: object.to_string(),
    };
    let r = handle_activity(&mut s, &mut seen, relay_actor, false, follow("https://other.test/actor")).ok().unwrap();
    assert!(r.tasks.is_empty() && r.recipients.is_empty());
    assert!(!s.is_listener("https://a.example/inbox"));
    let r = handle_activity(&mut s, &mut seen, relay_actor, false, follow(relay_actor)).ok().unwrap();
    assert_eq!(r.tasks.len(), 3);
    assert!(s.is_listener("https://a.example/inbox"));
    s.cache_listener("https://b.example/inbox");

    let relay = Activity::Relay {
        sender: "https://a.example/inbox".to_string(),
        sender_host: "a.example".to_string(),
        id: "https://a.example/n/1".to_string(),
    };
    let r = handle_activity(&mut s, &mut seen, relay_actor, false, relay).ok().unwrap();
    assert_eq!(r.recipients, vec!["https://b.example/inbox".to_string()]);

    let undo_by_other = Activity::UndoFollow {
        actor: "https://a.example/actor".to_string(),
        principal: "https://b.example/actor".to_string(),
        inbox: "https://a.example/inbox".to_string(),
        object: relay_actor.to_string(),
    };
    assert!(handle_activity(&mut s, &mut seen, relay_actor, false, undo_by_other).is_ok());
    assert!(s.is_listener("https://a.example/inbox"));
    let undo = Activity::UndoFollow {
        actor: "https://a.example/actor".to_string(),
        principal: "https://a.example/actor".to_string(),
        inbox: "https://a.example/inbox".to_string(),
        object: relay_actor.to_string(),
    };
    assert!(handle_activity(&mut s, &mut seen, relay_actor, false, undo).is_ok());
    assert!(!s.is_listener("https://a.example/inbox"));

    let gone = Activity::ActorGone { inbox: "https://b.example/inbox".to_string() };
    assert!(handle_activity(&mut s, &mut seen, relay_actor, false, gone).is_ok());
    assert!(s.listeners().is_empty());

    let r = handle_activity(&mut s, &mut seen, relay_actor, false, Activity::Other).ok().unwrap();
    assert!(r.tasks.is_empty() && r.recipients.is_empty());

    s.cache_block("a.example");
    let refused = handle_activity(&mut s, &mut seen, relay_actor, false, follow(relay_actor));
    assert!(matches!(refused, Err(Rejection::Blocked)));
}

#[test]
fn announce_ids_are_minted_under_the_relay() {
    assert_eq!(
        announce_id("https://relay.test", 0x67e5504410b1426f9247bb680e5fe0c8),
        "https://relay.test/announce/67e55044-10b1-426f-9247-bb680e5fe0c8"
    );
}

#[test]
fn signing_string_joins_covered_headers() {
    let hs = vec![
        ("(request-target)".to_string(), "post /inbox".to_string()),
        ("host".to_string(), "relay.test".to_string()),
        ("date".to_string(), "Tue, 07 Jun 2022 20:51:35 GMT".to_string()),
    ];
    assert_eq!(
        relay::signing::signing_string(&hs),
        "(request-target): post /inbox\nhost: relay.test\ndate: Tue, 07 Jun 2022 20:51:35 GMT"
    );
    assert_eq!(relay::signing::signing_string(&Vec::new()), "");
    assert_eq!(relay::signing::signing_string(&vec![("host".to_string(), "x".to_string())]), "host: x");
}

#[test]
fn covered_headers_for_get_and_post() {
    assert_eq!(relay::signing::covered_headers(false), vec!["(request-target)", "host", "date"]);
    assert_eq!(relay::signing::covered_headers(true), vec!["(request-target)", "host", "date", "digest"]);
}

#[test]
fn fan_out_uses_the_given_hosts() {
    let mut s = State::new();
    s.cache_block("evil.example");
    let ls = vec![
        "https://a.example/inbox".to_string(),
        "https://b.example/inbox".to_string(),
        "https://c.example/inbox".to_string(),
        "https://d.example/inbox".to_string(),
        "https://e.example/inbox".to_string(),
    ];
    let hosts = vec![
        Some("a.example".to_string()),
        Some("b.example".to_string()),
        Some("c.example".to_string()),
        Some("x.evil.example".to_string()),
        None,
    ];
    let r = fan_out(&s, &ls, &hosts, "https://a.example/inbox");
    assert_eq!(r, vec!["https://b.example/inbox".to_string(), "https://c.example/inbox".to_string()]);
    assert!(fan_out(&s, &Vec::new(), &Vec::new(), "https://a.example/inbox").is_empty());
}
