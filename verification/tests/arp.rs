use catnip::fail::Fail;
use catnip::protocols::arp::cache::ArpCache;
use catnip::protocols::arp::options::ArpOptions;
use catnip::protocols::arp::pdu::{ArpOp, ArpPdu};
use catnip::protocols::arp::peer::{ArpPeer, ArpQuery, QueryStep};
use catnip::protocols::ethernet2::MacAddress;
use catnip::protocols::ipv4::Ipv4Addr;
use futures::task::noop_waker_ref;
use hashbrown::HashMap;
use std::collections::VecDeque;
use std::sync::{Arc, Mutex};
use std::task::{Context, Poll, Wake, Waker};

const ALICE_MAC: MacAddress = MacAddress { octets: [0x12, 0x23, 0x45, 0x67, 0x89, 0xab] };
const ALICE_IPV4: Ipv4Addr = Ipv4Addr { bits: 0xc0a8_0101 };
const BOB_MAC: MacAddress = MacAddress { octets: [0xab, 0x89, 0x67, 0x45, 0x23, 0x12] };
const BOB_IPV4: Ipv4Addr = Ipv4Addr { bits: 0xc0a8_0102 };
const CARRIE_MAC: MacAddress = MacAddress { octets: [0xef, 0xcd, 0xab, 0x89, 0x67, 0x45] };
const CARRIE_IPV4: Ipv4Addr = Ipv4Addr { bits: 0xc0a8_0103 };

const MICROSECOND: u64 = 1_000;
const SECOND: u64 = 1_000_000_000;
const START: u64 = 5 * SECOND;

/// One node of the simulated link: a resolver, the clock that the test
/// steps, and the frames that wait to be carried to the other nodes.
struct Node {
    peer: ArpPeer,
    now: u64,
    frames: VecDeque<ArpPdu>,
}

impl Node {
    fn new(now: u64, link_addr: MacAddress, ipv4_addr: Ipv4Addr) -> Node {
        let options = ArpOptions::default().retry_count(2).request_timeout(SECOND);
        Node { peer: ArpPeer::new(options, ipv4_addr, link_addr), now, frames: VecDeque::new() }
    }

    fn arp_options(&self) -> ArpOptions {
        self.peer.options()
    }

    fn import_arp_cache(&mut self, table: HashMap<u32, [u8; 6]>) {
        self.peer.import_cache(table);
    }

    fn export_arp_cache(&self) -> HashMap<u32, [u8; 6]> {
        self.peer.export_cache()
    }

    fn arp_query(&mut self, target: Ipv4Addr) -> ArpQuery {
        assert!(self.now.checked_add(self.peer.options().request_timeout).is_some());
        let (query, frame) = self.peer.resolve(target, self.now);
        self.frames.extend(frame);
        query
    }

    fn poll(&mut self, query: &mut ArpQuery, cx: &mut Context<'_>) -> Poll<Result<MacAddress, Fail>> {
        assert!(self.peer.owns(query));
        assert!(self.now.checked_add(self.peer.options().request_timeout).is_some());
        let (status, frame) = self.peer.poll(query, self.now, cx);
        self.frames.extend(frame);
        status
    }

    fn advance_clock(&mut self, now: u64) {
        assert!(now >= self.now);
        self.now = now;
    }

    fn pop_frame(&mut self) -> ArpPdu {
        self.frames.pop_front().unwrap()
    }

    fn receive(&mut self, frame: &ArpPdu) -> Result<(), Fail> {
        let reply = self.peer.receive(*frame)?;
        self.frames.extend(reply);
        Ok(())
    }
}

fn new_alice(now: u64) -> Node {
    Node::new(now, ALICE_MAC, ALICE_IPV4)
}

fn new_bob(now: u64) -> Node {
    Node::new(now, BOB_MAC, BOB_IPV4)
}

fn new_carrie(now: u64) -> Node {
    Node::new(now, CARRIE_MAC, CARRIE_IPV4)
}

/// A waker that counts how often it is called.
struct Counter {
    calls: Mutex<usize>,
}

impl Wake for Counter {
    fn wake(self: Arc<Self>) {
        *self.calls.lock().unwrap() += 1;
    }
}

#[test]
fn immediate_reply() {
    // tests to ensure that an are request results in a reply.
    let now = START;
    let mut alice = new_alice(now);
    alice.import_arp_cache(HashMap::new());
    let mut bob = new_bob(now);
    bob.import_arp_cache(HashMap::new());
    let mut carrie = new_carrie(now);
    carrie.import_arp_cache(HashMap::new());

    // this test is written based on certain assumptions.
    let options = alice.arp_options();
    assert_eq!(options.request_timeout, SECOND);

    let mut ctx = Context::from_waker(noop_waker_ref());
    let mut fut = alice.arp_query(CARRIE_IPV4);
    let now = now + MICROSECOND;
    assert!(alice.poll(&mut fut, &mut ctx).is_pending());

    alice.advance_clock(now);
    let request = alice.pop_frame();
    assert_eq!(request, ArpPdu::request(ALICE_MAC, ALICE_IPV4, CARRIE_IPV4));

    // bob hasn't heard of alice before, so he will ignore the request.
    println!("passing ARP request to bob (should be ignored)...");
    assert!(matches!(bob.receive(&request), Err(Fail::Ignored)));
    let cache = bob.export_arp_cache();
    assert!(cache.get(&ALICE_IPV4.bits).is_none());

    carrie.receive(&request).unwrap();
    println!("passing ARP request to carrie...");
    let cache = carrie.export_arp_cache();
    assert_eq!(cache.get(&ALICE_IPV4.bits), Some(&ALICE_MAC.octets));

    carrie.advance_clock(now);
    let reply = carrie.pop_frame();

    println!("passing ARP reply back to alice...");
    alice.receive(&reply).unwrap();
    let now = now + MICROSECOND;
    alice.advance_clock(now);
    let status = alice.poll(&mut fut, &mut ctx);
    assert!(matches!(status, Poll::Ready(Ok(_))));
    if let Poll::Ready(Ok(link_addr)) = status {
        assert_eq!(CARRIE_MAC, link_addr);
    }
}

#[test]
fn slow_reply() {
    // tests to ensure that an are request results in a reply.
    let mut now = START;
    let mut alice = new_alice(now);
    alice.import_arp_cache(HashMap::new());
    let mut bob = new_bob(now);
    bob.import_arp_cache(HashMap::new());
    let mut carrie = new_carrie(now);
    carrie.import_arp_cache(HashMap::new());

    // this test is written based on certain assumptions.
    let options = alice.arp_options();
    assert!(options.retry_count > 0);
    assert_eq!(options.request_timeout, SECOND);

    let mut ctx = Context::from_waker(noop_waker_ref());
    let mut fut = alice.arp_query(CARRIE_IPV4);

    // move time forward enough to trigger a timeout.
    now += SECOND;
    alice.advance_clock(now);
    assert!(alice.poll(&mut fut, &mut ctx).is_pending());

    let request = alice.pop_frame();
    assert_eq!(request, ArpPdu::request(ALICE_MAC, ALICE_IPV4, CARRIE_IPV4));

    // bob hasn't heard of alice before, so he will ignore the request.
    println!("passing ARP request to bob (should be ignored)...");
    assert!(matches!(bob.receive(&request), Err(Fail::Ignored)));

    let cache = bob.export_arp_cache();
    assert!(cache.get(&ALICE_IPV4.bits).is_none());

    carrie.receive(&request).unwrap();
    println!("passing ARP request to carrie...");
    let cache = carrie.export_arp_cache();
    assert_eq!(cache.get(&ALICE_IPV4.bits), Some(&ALICE_MAC.octets));

    carrie.advance_clock(now);
    let reply = carrie.pop_frame();

    println!("passing ARP reply back to alice...");
    alice.receive(&reply).unwrap();
    now += MICROSECOND;
    alice.advance_clock(now);
    let status = alice.poll(&mut fut, &mut ctx);
    assert!(matches!(status, Poll::Ready(Ok(_))));
    if let Poll::Ready(Ok(link_addr)) = status {
        assert_eq!(CARRIE_MAC, link_addr);
    }
}

#[test]
fn no_reply() {
    // tests to ensure that an are request results in a reply.
    let mut now = START;
    let mut alice = new_alice(now);
    alice.import_arp_cache(HashMap::new());
    let options = alice.arp_options();

    assert_eq!(options.retry_count, 2);
    assert_eq!(options.request_timeout, SECOND);

    let mut ctx = Context::from_waker(noop_waker_ref());
    let mut fut = alice.arp_query(CARRIE_IPV4);
    assert!(alice.poll(&mut fut, &mut ctx).is_pending());
    let arp = alice.pop_frame();
    assert_eq!(arp.op, ArpOp::ArpRequest);

    for i in 0..options.retry_count {
        now += options.request_timeout;
        alice.advance_clock(now);
        assert!(alice.poll(&mut fut, &mut ctx).is_pending());
        println!("no_reply(): retry #{}", i + 1);
        let arp = alice.pop_frame();
        assert_eq!(arp.op, ArpOp::ArpRequest);
    }

    // timeout
    now += options.request_timeout;
    alice.advance_clock(now);

    assert!(matches!(alice.poll(&mut fut, &mut ctx), Poll::Ready(Err(Fail::Timeout))));
}

#[test]
fn unanswered_query_sends_one_request_per_deadline_and_fails_after_the_last() {
    let mut alice = new_alice(START);
    let mut ctx = Context::from_waker(noop_waker_ref());
    let request = ArpPdu::request(ALICE_MAC, ALICE_IPV4, CARRIE_IPV4);

    let mut query = alice.arp_query(CARRIE_IPV4);
    assert_eq!(alice.frames, VecDeque::from(vec![request]));
    assert_eq!(query.target(), CARRIE_IPV4);
    assert_eq!(query.deadline(), START + SECOND);
    assert_eq!(query.retries_remaining(), 2);
    alice.frames.clear();

    // nothing happens before the first deadline.
    assert!(alice.poll(&mut query, &mut ctx).is_pending());
    alice.advance_clock(START + SECOND - 1);
    assert!(alice.poll(&mut query, &mut ctx).is_pending());
    assert!(alice.frames.is_empty());
    assert_eq!(query.retries_remaining(), 2);

    // first deadline: first retransmission.
    alice.advance_clock(START + SECOND);
    assert!(alice.poll(&mut query, &mut ctx).is_pending());
    assert_eq!(alice.frames, VecDeque::from(vec![request]));
    assert_eq!(query.deadline(), START + 2 * SECOND);
    assert_eq!(query.retries_remaining(), 1);
    alice.frames.clear();

    // polled again at the same instant: no second retransmission.
    assert!(alice.poll(&mut query, &mut ctx).is_pending());
    assert!(alice.frames.is_empty());

    // second deadline: second and last retransmission.
    alice.advance_clock(START + 2 * SECOND);
    assert!(alice.poll(&mut query, &mut ctx).is_pending());
    assert_eq!(alice.frames, VecDeque::from(vec![request]));
    assert_eq!(query.deadline(), START + 3 * SECOND);
    assert_eq!(query.retries_remaining(), 0);
    alice.frames.clear();

    // no failure before the third deadline.
    alice.advance_clock(START + 3 * SECOND - 1);
    assert!(alice.poll(&mut query, &mut ctx).is_pending());
    assert_eq!(alice.peer.waiters(), 1);

    // third deadline: the query fails and leaves the wait list.
    alice.advance_clock(START + 3 * SECOND);
    assert_eq!(alice.poll(&mut query, &mut ctx), Poll::Ready(Err(Fail::Timeout)));
    assert!(alice.frames.is_empty());
    assert_eq!(alice.peer.waiters(), 0);
}

#[test]
fn late_poll_sets_the_deadline_from_the_instant_of_the_poll() {
    let mut alice = new_alice(START);
    let mut ctx = Context::from_waker(noop_waker_ref());
    let mut query = alice.arp_query(CARRIE_IPV4);
    alice.advance_clock(START + SECOND + 250 * MICROSECOND);
    assert!(alice.poll(&mut query, &mut ctx).is_pending());
    assert_eq!(query.deadline(), START + 2 * SECOND + 250 * MICROSECOND);
    alice.peer.cancel(query);
}

#[test]
fn query_without_retries_fails_at_the_first_deadline() {
    let options = ArpOptions::default().retry_count(0).request_timeout(SECOND);
    let mut peer = ArpPeer::new(options, ALICE_IPV4, ALICE_MAC);
    let mut ctx = Context::from_waker(noop_waker_ref());
    let (mut query, frame) = peer.resolve(CARRIE_IPV4, START);
    assert_eq!(frame, Some(ArpPdu::request(ALICE_MAC, ALICE_IPV4, CARRIE_IPV4)));
    assert_eq!(peer.poll(&mut query, START + SECOND - 1, &mut ctx), (Poll::Pending, None));
    assert_eq!(
        peer.poll(&mut query, START + SECOND, &mut ctx),
        (Poll::Ready(Err(Fail::Timeout)), None)
    );
}

#[test]
fn query_for_a_known_address_sends_nothing_and_is_ready_at_once() {
    let mut alice = new_alice(START);
    let mut table = HashMap::new();
    table.insert(CARRIE_IPV4.bits, CARRIE_MAC.octets);
    alice.import_arp_cache(table);

    let mut ctx = Context::from_waker(noop_waker_ref());
    let mut query = alice.arp_query(CARRIE_IPV4);
    assert!(alice.frames.is_empty());
    assert_eq!(alice.poll(&mut query, &mut ctx), Poll::Ready(Ok(CARRIE_MAC)));
    assert!(alice.frames.is_empty());
    assert_eq!(alice.peer.waiters(), 0);
}

#[test]
fn reply_at_the_instant_of_the_deadline_wins_over_the_timeout() {
    let options = ArpOptions::default().retry_count(0).request_timeout(SECOND);
    let mut peer = ArpPeer::new(options, ALICE_IPV4, ALICE_MAC);
    let mut ctx = Context::from_waker(noop_waker_ref());
    let (mut query, frame) = peer.resolve(CARRIE_IPV4, START);
    let request = frame.unwrap();
    assert!(peer.poll(&mut query, START, &mut ctx).0.is_pending());

    let reply = ArpPdu::reply(CARRIE_MAC, CARRIE_IPV4, &request);
    assert_eq!(peer.receive(reply), Ok(None));
    assert_eq!(peer.poll(&mut query, START + SECOND, &mut ctx), (Poll::Ready(Ok(CARRIE_MAC)), None));
}

#[test]
fn request_for_another_node_is_ignored() {
    let mut bob = new_bob(START);
    let mut table = HashMap::new();
    table.insert(CARRIE_IPV4.bits, CARRIE_MAC.octets);
    bob.import_arp_cache(table.clone());
    let mut ctx = Context::from_waker(noop_waker_ref());
    let mut waiting = bob.arp_query(ALICE_IPV4);
    assert!(bob.poll(&mut waiting, &mut ctx).is_pending());
    bob.frames.clear();

    let request = ArpPdu::request(ALICE_MAC, ALICE_IPV4, CARRIE_IPV4);
    assert_eq!(bob.peer.receive(request), Err(Fail::Ignored));
    assert_eq!(bob.export_arp_cache(), table);
    assert_eq!(bob.peer.lookup(ALICE_IPV4), None);
    assert!(bob.frames.is_empty());
    // nobody was woken: the query still waits on the node it had.
    assert_eq!(bob.peer.waiters(), 1);
    assert!(bob.poll(&mut waiting, &mut ctx).is_pending());
    bob.peer.cancel(waiting);
}

#[test]
fn request_for_this_node_is_answered_with_one_reply() {
    let mut carrie = new_carrie(START);
    let request = ArpPdu::request(ALICE_MAC, ALICE_IPV4, CARRIE_IPV4);
    let answer = carrie.peer.receive(request);
    assert_eq!(
        answer,
        Ok(Some(ArpPdu {
            op: ArpOp::ArpReply,
            sender_link_addr: CARRIE_MAC,
            sender_ip_addr: CARRIE_IPV4,
            target_link_addr: ALICE_MAC,
            target_ip_addr: ALICE_IPV4,
        }))
    );
    assert_eq!(carrie.peer.lookup(ALICE_IPV4), Some(ALICE_MAC));
    assert_eq!(carrie.peer.lookup(BOB_IPV4), None);
    let mut expected = HashMap::new();
    expected.insert(ALICE_IPV4.bits, ALICE_MAC.octets);
    assert_eq!(carrie.export_arp_cache(), expected);
}

#[test]
fn reply_is_cached_whether_it_was_asked_for_or_not() {
    let mut alice = new_alice(START);
    let reply = ArpPdu {
        op: ArpOp::ArpReply,
        sender_link_addr: BOB_MAC,
        sender_ip_addr: BOB_IPV4,
        target_link_addr: CARRIE_MAC,
        target_ip_addr: CARRIE_IPV4,
    };
    assert_eq!(alice.peer.receive(reply), Ok(None));
    assert_eq!(alice.peer.lookup(BOB_IPV4), Some(BOB_MAC));
    assert!(alice.frames.is_empty());
}

#[test]
fn reply_for_another_address_wakes_the_query_and_leaves_it_pending() {
    let counter = Arc::new(Counter { calls: Mutex::new(0) });
    let waker = Waker::from(counter.clone());
    let mut ctx = Context::from_waker(&waker);
    let mut alice = new_alice(START);
    let mut query = alice.arp_query(CARRIE_IPV4);
    assert!(alice.poll(&mut query, &mut ctx).is_pending());
    assert_eq!(*counter.calls.lock().unwrap(), 0);

    let reply = ArpPdu::reply(BOB_MAC, BOB_IPV4, &ArpPdu::request(ALICE_MAC, ALICE_IPV4, BOB_IPV4));
    alice.receive(&reply).unwrap();
    assert_eq!(*counter.calls.lock().unwrap(), 1);
    assert_eq!(alice.peer.waiters(), 0);

    // the query looks again, finds nothing, and waits for the next change.
    assert!(alice.poll(&mut query, &mut ctx).is_pending());
    assert_eq!(alice.peer.waiters(), 1);

    let reply = ArpPdu::reply(CARRIE_MAC, CARRIE_IPV4, &alice.pop_frame());
    alice.receive(&reply).unwrap();
    assert_eq!(*counter.calls.lock().unwrap(), 2);
    assert_eq!(alice.poll(&mut query, &mut ctx), Poll::Ready(Ok(CARRIE_MAC)));
    assert_eq!(alice.peer.waiters(), 0);
}

#[test]
fn cancelled_query_leaves_the_wait_list() {
    let counter = Arc::new(Counter { calls: Mutex::new(0) });
    let waker = Waker::from(counter.clone());
    let mut ctx = Context::from_waker(&waker);
    let mut alice = new_alice(START);
    let mut first = alice.arp_query(CARRIE_IPV4);
    let mut second = alice.arp_query(BOB_IPV4);
    assert!(alice.poll(&mut first, &mut ctx).is_pending());
    assert!(alice.poll(&mut second, &mut ctx).is_pending());
    assert_eq!(alice.peer.waiters(), 2);

    assert!(alice.peer.owns(&first));
    alice.peer.cancel(first);
    assert_eq!(alice.peer.waiters(), 1);

    let reply = ArpPdu::reply(BOB_MAC, BOB_IPV4, &ArpPdu::request(ALICE_MAC, ALICE_IPV4, BOB_IPV4));
    alice.receive(&reply).unwrap();
    assert_eq!(*counter.calls.lock().unwrap(), 1);
    assert_eq!(alice.poll(&mut second, &mut ctx), Poll::Ready(Ok(BOB_MAC)));
    // the requests that were sent stay sent.
    assert_eq!(alice.frames.len(), 2);
}

#[test]
fn query_steps_follow_cache_then_deadline_then_retries() {
    let options = ArpOptions::default().retry_count(1).request_timeout(SECOND);
    let mut peer = ArpPeer::new(options, ALICE_IPV4, ALICE_MAC);
    let (query, _) = peer.resolve(CARRIE_IPV4, START);
    assert_eq!(query.decide(None, START), QueryStep::Wait);
    assert_eq!(query.decide(None, START + SECOND - 1), QueryStep::Wait);
    assert_eq!(query.decide(None, START + SECOND), QueryStep::Retry);
    assert_eq!(query.decide(None, START + 2 * SECOND), QueryStep::Retry);
    assert_eq!(query.decide(Some(BOB_MAC), START), QueryStep::Resolved(BOB_MAC));
    assert_eq!(query.decide(Some(BOB_MAC), START + SECOND), QueryStep::Resolved(BOB_MAC));

    let options = ArpOptions::default().retry_count(0).request_timeout(SECOND);
    let mut peer = ArpPeer::new(options, ALICE_IPV4, ALICE_MAC);
    let (query, _) = peer.resolve(CARRIE_IPV4, START);
    assert_eq!(query.decide(None, START + SECOND - 1), QueryStep::Wait);
    assert_eq!(query.decide(None, START + SECOND), QueryStep::TimedOut);
    assert_eq!(query.decide(Some(BOB_MAC), START + SECOND), QueryStep::Resolved(BOB_MAC));
    peer.cancel(query);
}

#[test]
fn new_cache_knows_nobody() {
    let cache = ArpCache::new();
    assert_eq!(cache.lookup(ALICE_IPV4), None);
    assert_eq!(cache.lookup(Ipv4Addr::new(0, 0, 0, 0)), None);
    assert!(cache.export().is_empty());
    assert_eq!(cache.waiters(), 0);
}

#[test]
fn cache_insert_and_lookup() {
    let mut cache = ArpCache::new();
    assert_eq!(cache.insert(ALICE_IPV4, ALICE_MAC), None);
    assert_eq!(cache.insert(BOB_IPV4, BOB_MAC), None);
    assert_eq!(cache.lookup(ALICE_IPV4), Some(ALICE_MAC));
    assert_eq!(cache.lookup(BOB_IPV4), Some(BOB_MAC));
    assert_eq!(cache.lookup(CARRIE_IPV4), None);

    // a second entry for an address replaces the first and hands it back.
    assert_eq!(cache.insert(ALICE_IPV4, CARRIE_MAC), Some(ALICE_MAC));
    assert_eq!(cache.lookup(ALICE_IPV4), Some(CARRIE_MAC));
    assert_eq!(cache.lookup(BOB_IPV4), Some(BOB_MAC));
    assert_eq!(cache.export().len(), 2);
}

#[test]
fn cache_insert_wakes_every_watcher() {
    let counter = Arc::new(Counter { calls: Mutex::new(0) });
    let waker = Waker::from(counter.clone());
    let mut ctx = Context::from_waker(&waker);
    let mut cache = ArpCache::new();
    let mut first = cache.watch();
    let mut second = cache.watch();
    assert!(cache.owns(&first));
    assert!(cache.poll_watch(&mut first, &mut ctx).is_pending());
    assert!(cache.poll_watch(&mut second, &mut ctx).is_pending());
    assert_eq!(cache.waiters(), 2);

    cache.insert(BOB_IPV4, BOB_MAC);
    assert_eq!(*counter.calls.lock().unwrap(), 2);
    assert_eq!(cache.waiters(), 0);
    assert!(cache.poll_watch(&mut first, &mut ctx).is_ready());
    assert!(cache.poll_watch(&mut second, &mut ctx).is_ready());
    cache.drop_watch(first);
    cache.drop_watch(second);
}

#[test]
fn cache_import_replaces_the_entries_and_wakes_nobody() {
    let counter = Arc::new(Counter { calls: Mutex::new(0) });
    let waker = Waker::from(counter.clone());
    let mut ctx = Context::from_waker(&waker);
    let mut cache = ArpCache::new();
    cache.insert(ALICE_IPV4, ALICE_MAC);
    let mut watch = cache.watch();
    assert!(cache.poll_watch(&mut watch, &mut ctx).is_pending());

    let mut table = HashMap::new();
    table.insert(BOB_IPV4.bits, BOB_MAC.octets);
    table.insert(CARRIE_IPV4.bits, CARRIE_MAC.octets);
    cache.import(table.clone());

    assert_eq!(*counter.calls.lock().unwrap(), 0);
    assert_eq!(cache.waiters(), 1);
    assert_eq!(cache.lookup(ALICE_IPV4), None);
    assert_eq!(cache.lookup(BOB_IPV4), Some(BOB_MAC));
    assert_eq!(cache.lookup(CARRIE_IPV4), Some(CARRIE_MAC));
    assert_eq!(cache.export(), table);
    cache.drop_watch(watch);
}

#[test]
fn cache_export_is_a_copy() {
    let mut cache = ArpCache::new();
    cache.insert(ALICE_IPV4, ALICE_MAC);
    let mut table = cache.export();
    assert_eq!(table.get(&ALICE_IPV4.bits), Some(&ALICE_MAC.octets));
    table.insert(BOB_IPV4.bits, BOB_MAC.octets);
    assert_eq!(cache.lookup(BOB_IPV4), None);
    cache.insert(CARRIE_IPV4, CARRIE_MAC);
    assert_eq!(table.get(&CARRIE_IPV4.bits), None);
}
