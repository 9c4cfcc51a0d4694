//! The resolver: it answers the requests that are meant for this node, learns
//! from what it hears, and drives each query of its own through request,
//! retry and timeout.
//!
//! The resolver transmits nothing and keeps no clock. Each entry point is
//! handed the current instant where it needs one, and hands back the frame
//! that the caller is to transmit, if there is one. A query is polled again
//! when its waker is called, which every write to the cache does, and when
//! the clock reaches the query's deadline, which is for the caller's
//! scheduler to see to.

use crate::collections::watched::{WatchFuture, WatchModel, WatchState};
use crate::fail::Fail;
use crate::protocols::arp::cache::{mapping_of, next_version, ArpCache};
use crate::protocols::arp::options::ArpOptions;
use crate::protocols::arp::pdu::{ArpOp, ArpPdu};
use crate::protocols::ethernet2::MacAddress;
use crate::protocols::ipv4::Ipv4Addr;
use std::task::{Context, Poll, Waker};
use vstd::prelude::*;

verus! {

/// What a query is, apart from its place in the wait list: whom it asks for,
/// when its current request is given up, and how many requests it may still
/// send after that.
pub struct QueryModel {
    pub target: Ipv4Addr,
    pub deadline: int,
    pub retries_remaining: nat,
}

/// What one poll of a query decides.
#[derive(Clone, Copy, Debug, PartialEq, Eq)]
pub enum QueryStep {
    /// The cache knows the target: the query succeeds with this address.
    Resolved(MacAddress),
    /// The deadline has passed and a retry is left: the request goes out
    /// again and the query waits for the next deadline.
    Retry,
    /// The deadline has passed and no retry is left: the query fails.
    TimedOut,
    /// Nothing to do before the cache changes or the deadline comes.
    Wait,
}

/// What `cache` says of `addr`.
pub open spec fn known(cache: Map<Ipv4Addr, MacAddress>, addr: Ipv4Addr) -> Option<MacAddress> {
    if cache.contains_key(addr) {
        Some(cache[addr])
    } else {
        None
    }
}

impl QueryStep {
    /// Whether the query goes on after this step.
    pub open spec fn is_pending(self) -> bool {
        self is Retry || self is Wait
    }

    /// What the poll that decided this step reports.
    pub open spec fn outcome(self) -> Poll<Result<MacAddress, Fail>> {
        match self {
            QueryStep::Resolved(link_addr) => Poll::Ready(Ok(link_addr)),
            QueryStep::TimedOut => Poll::Ready(Err(Fail::Timeout)),
            QueryStep::Retry => Poll::Pending,
            QueryStep::Wait => Poll::Pending,
        }
    }
}

impl QueryModel {
    /// What a poll at the instant `now` decides, given what the cache said
    /// of the target. The cache comes first: a reply that came in at the
    /// very instant of the deadline still wins.
    pub open spec fn step(self, cached: Option<MacAddress>, now: int) -> QueryStep {
        match cached {
            Some(link_addr) => QueryStep::Resolved(link_addr),
            None => if now >= self.deadline {
                if self.retries_remaining > 0 {
                    QueryStep::Retry
                } else {
                    QueryStep::TimedOut
                }
            } else {
                QueryStep::Wait
            },
        }
    }

    /// The query after a poll at `now` that decided `step`: a retry uses
    /// one retry up and moves the deadline one timeout past `now`; nothing
    /// else changes the query.
    pub open spec fn advance(self, step: QueryStep, now: int, request_timeout: int) -> Self {
        if step == QueryStep::Retry {
            QueryModel {
                target: self.target,
                deadline: now + request_timeout,
                retries_remaining: (self.retries_remaining - 1) as nat,
            }
        } else {
            self
        }
    }

    /// The query that starts at `now`.
    pub open spec fn start(target: Ipv4Addr, now: int, options: ArpOptions) -> Self {
        QueryModel {
            target,
            deadline: now + options.request_timeout,
            retries_remaining: options.retry_count as nat,
        }
    }

    /// The query after `polls` polls that nobody answered, each made at the
    /// deadline that the one before it had set.
    pub open spec fn after_unanswered(self, polls: nat, request_timeout: int) -> Self
        decreases polls,
    {
        if polls == 0 {
            self
        } else {
            let before = self.after_unanswered((polls - 1) as nat, request_timeout);
            before.advance(QueryStep::Retry, before.deadline, request_timeout)
        }
    }
}

/// The wait list after a query that held the node `held` has made sure that
/// it waits, and holds the node `h` with the waker `task` now: a node that
/// still waits is polled and kept, a node that a write to the cache has
/// completed is given up for a new one.
pub open spec fn waiting(
    watchers: WatchModel<u64>,
    held: Option<usize>,
    h: usize,
    task: Waker,
) -> WatchModel<u64> {
    match held {
        Some(g) => if watchers.nodes[g] == WatchState::Completed {
            watchers.release(g).watch(h).poll(h, task)
        } else {
            watchers.poll(g, task)
        },
        None => watchers.watch(h).poll(h, task),
    }
}

/// The wait list after a query that held the node `held` has given it up.
pub open spec fn stopped(watchers: WatchModel<u64>, held: Option<usize>) -> WatchModel<u64> {
    match held {
        Some(g) => watchers.release(g),
        None => watchers,
    }
}

/// One outstanding query.
pub struct ArpQuery {
    target: Ipv4Addr,
    deadline: u64,
    retries_remaining: u64,
    watch: Option<WatchFuture>,
}

impl View for ArpQuery {
    type V = QueryModel;

    closed spec fn view(&self) -> QueryModel {
        QueryModel {
            target: self.target,
            deadline: self.deadline as int,
            retries_remaining: self.retries_remaining as nat,
        }
    }
}

impl ArpQuery {
    /// The node by which the query waits on the cache, if it waits.
    pub closed spec fn held(&self) -> Option<usize> {
        match self.watch {
            Some(future) => Some(future.handle()),
            None => None,
        }
    }

    /// The address that the query asks for.
    pub fn target(&self) -> (target: Ipv4Addr)
        ensures
            target == self@.target,
    {
        self.target
    }

    /// The instant at which the query wants to be polled again, whether
    /// the cache has changed by then or not.
    pub fn deadline(&self) -> (deadline: u64)
        ensures
            deadline == self@.deadline,
    {
        self.deadline
    }

    /// The number of requests that the query may still send.
    pub fn retries_remaining(&self) -> (retries: u64)
        ensures
            retries == self@.retries_remaining,
    {
        self.retries_remaining
    }

    /// What a poll at `now` decides, given what the cache said of the
    /// target.
    pub fn decide(&self, cached: Option<MacAddress>, now: u64) -> (step: QueryStep)
        ensures
            step == self@.step(cached, now as int),
    {
        match cached {
            Some(link_addr) => QueryStep::Resolved(link_addr),
            None => {
                if now >= self.deadline {
                    if self.retries_remaining > 0 {
                        QueryStep::Retry
                    } else {
                        QueryStep::TimedOut
                    }
                } else {
                    QueryStep::Wait
                }
            },
        }
    }
}

/// What a resolver is, to its callers.
pub struct PeerModel {
    pub options: ArpOptions,
    pub local_ipv4_addr: Ipv4Addr,
    pub local_link_addr: MacAddress,
    pub cache: Map<Ipv4Addr, MacAddress>,
    pub watchers: WatchModel<u64>,
}

impl PeerModel {
    /// The request that this node sends for `target`.
    pub open spec fn request(self, target: Ipv4Addr) -> ArpPdu {
        ArpPdu::spec_request(self.local_link_addr, self.local_ipv4_addr, target)
    }

    /// The frame that goes out when a query for `target` starts: a request,
    /// unless the cache knows the target already.
    pub open spec fn first_frame(self, target: Ipv4Addr) -> Option<ArpPdu> {
        if self.cache.contains_key(target) {
            None
        } else {
            Some(self.request(target))
        }
    }

    /// The frame that goes out with a poll that decided `step`: the
    /// request once more with a retry, and nothing otherwise.
    pub open spec fn frame_of(self, target: Ipv4Addr, step: QueryStep) -> Option<ArpPdu> {
        if step is Retry {
            Some(self.request(target))
        } else {
            None
        }
    }

    /// The wait list after a poll that decided `step`, of a query that held
    /// the node `held` before the poll and holds `holds` after it, to be
    /// woken through `task`: a query that goes on waits, a query that is
    /// over has left.
    pub open spec fn watchers_after(
        self,
        step: QueryStep,
        held: Option<usize>,
        holds: Option<usize>,
        task: Waker,
    ) -> WatchModel<u64> {
        if step.is_pending() {
            waiting(self.watchers, held, holds.unwrap(), task)
        } else {
            stopped(self.watchers, held)
        }
    }

    /// Whether this node has an answer to give to `pdu`, or something to
    /// learn from it: every reply, and the requests that ask for this node.
    pub open spec fn accepts(self, pdu: ArpPdu) -> bool {
        pdu.op == ArpOp::ArpReply || pdu.target_ip_addr == self.local_ipv4_addr
    }

    /// The node after it has received `pdu`: an accepted frame teaches the
    /// cache its sender, which wakes all who wait; any other leaves the
    /// node as it was.
    pub open spec fn receive(self, pdu: ArpPdu) -> Self {
        if self.accepts(pdu) {
            PeerModel {
                cache: self.cache.insert(pdu.sender_ip_addr, pdu.sender_link_addr),
                watchers: self.watchers.mutate(next_version(self.watchers.value)),
                ..self
            }
        } else {
            self
        }
    }

    /// What the node answers to `pdu`: a reply to a request that asks for
    /// it, nothing to a reply, and `Ignored` to a request for somebody else.
    pub open spec fn answer(self, pdu: ArpPdu) -> Result<Option<ArpPdu>, Fail> {
        if pdu.op == ArpOp::ArpReply {
            Ok(None)
        } else if pdu.target_ip_addr == self.local_ipv4_addr {
            Ok(Some(ArpPdu::spec_reply(self.local_link_addr, self.local_ipv4_addr, pdu)))
        } else {
            Err(Fail::Ignored)
        }
    }
}

impl PeerModel {
    /// A query for an address that the cache knows sends nothing and is
    /// ready at its first poll, whenever that poll comes, with the address
    /// that the cache holds.
    pub proof fn lemma_known_target_resolves_at_once(self, target: Ipv4Addr, start: int, now: int)
        requires
            self.cache.contains_key(target),
        ensures
            self.first_frame(target) is None,
            QueryModel::start(target, start, self.options).step(known(self.cache, target), now)
                == QueryStep::Resolved(self.cache[target]),
            QueryStep::Resolved(self.cache[target]).outcome() == Poll::<
                Result<MacAddress, Fail>,
            >::Ready(Ok(self.cache[target])),
            self.frame_of(target, QueryStep::Resolved(self.cache[target])) is None,
    {
    }

    /// A query that nobody answers sends its request when it starts and
    /// once more at each deadline for as long as a retry is left, and
    /// fails at the deadline that follows the last retry: with `n` retries
    /// and a timeout of `d`, the request goes out at the start and at
    /// `d`, `2d`, .. `n * d` after it, and the failure comes at
    /// `(n + 1) * d`. Before a deadline a poll neither sends nor fails.
    pub proof fn lemma_unanswered_query_times_out(self, target: Ipv4Addr, start: int, polls: nat)
        requires
            !self.cache.contains_key(target),
            polls <= self.options.retry_count,
        ensures
            self.first_frame(target) == Some(self.request(target)),
            ({
                let d = self.options.request_timeout as int;
                let query = QueryModel::start(target, start, self.options).after_unanswered(
                    polls,
                    d,
                );
                let at_deadline = query.step(known(self.cache, target), query.deadline);
                &&& query.target == target
                &&& query.deadline == start + (polls + 1) * d
                &&& query.retries_remaining == self.options.retry_count - polls
                &&& polls < self.options.retry_count ==> at_deadline == QueryStep::Retry
                    && self.frame_of(target, at_deadline) == Some(self.request(target))
                &&& polls == self.options.retry_count ==> at_deadline == QueryStep::TimedOut
                    && at_deadline.outcome() == Poll::<Result<MacAddress, Fail>>::Ready(
                    Err(Fail::Timeout),
                )
                &&& forall|now: int|
                    now < query.deadline ==> #[trigger] query.step(
                        known(self.cache, target),
                        now,
                    ) == QueryStep::Wait
            }),
        decreases polls,
    {
        let d = self.options.request_timeout as int;
        if polls > 0 {
            self.lemma_unanswered_query_times_out(target, start, (polls - 1) as nat);
            assert((polls + 1) * d == polls * d + d) by (nonlinear_arith);
        } else {
            assert((polls + 1) * d == d) by (nonlinear_arith)
                requires
                    polls == 0,
            ;
        }
    }

    /// A request that asks for another node's address is ignored: the
    /// answer is `Ignored`, the cache and those who wait on it are as they
    /// were, and nothing is to be transmitted.
    pub proof fn lemma_request_for_another_is_ignored(self, pdu: ArpPdu)
        requires
            pdu.op == ArpOp::ArpRequest,
            pdu.target_ip_addr != self.local_ipv4_addr,
        ensures
            self.answer(pdu) == Err::<Option<ArpPdu>, Fail>(Fail::Ignored),
            self.receive(pdu) == self,
    {
    }

    /// A request that asks for this node's address teaches the cache who
    /// sent it and is answered with exactly one reply, from this node to
    /// the sender of the request.
    pub proof fn lemma_request_for_this_node_is_answered(self, pdu: ArpPdu)
        requires
            pdu.op == ArpOp::ArpRequest,
            pdu.target_ip_addr == self.local_ipv4_addr,
        ensures
            self.receive(pdu).cache == self.cache.insert(pdu.sender_ip_addr, pdu.sender_link_addr),
            known(self.receive(pdu).cache, pdu.sender_ip_addr) == Some(pdu.sender_link_addr),
            self.answer(pdu) matches Ok(Some(reply)) && reply.op == ArpOp::ArpReply
                && reply.sender_ip_addr == self.local_ipv4_addr && reply.sender_link_addr
                == self.local_link_addr && reply.target_ip_addr == pdu.sender_ip_addr
                && reply.target_link_addr == pdu.sender_link_addr,
    {
    }

    /// A reply is believed whoever asked: the cache learns its sender, all
    /// who wait are woken, and nothing is to be transmitted. A query for
    /// the sender's address is ready at its next poll, deadline or not.
    pub proof fn lemma_reply_resolves_query(self, pdu: ArpPdu, query: QueryModel, now: int)
        requires
            self.watchers.wf(),
            pdu.op == ArpOp::ArpReply,
            query.target == pdu.sender_ip_addr,
        ensures
            self.answer(pdu) == Ok::<Option<ArpPdu>, Fail>(None),
            self.receive(pdu).cache == self.cache.insert(pdu.sender_ip_addr, pdu.sender_link_addr),
            self.receive(pdu).watchers.waiters.len() == 0,
            forall|h: usize|
                self.watchers.is_registered(h) ==> #[trigger] self.receive(pdu).watchers.nodes[h]
                    == WatchState::Completed,
            query.step(known(self.receive(pdu).cache, query.target), now) == QueryStep::Resolved(
                pdu.sender_link_addr,
            ),
    {
        self.watchers.lemma_mutate_completes_registered(next_version(self.watchers.value));
    }
}

/// The address-resolution engine of one node.
pub struct ArpPeer {
    options: ArpOptions,
    local_ipv4_addr: Ipv4Addr,
    local_link_addr: MacAddress,
    cache: ArpCache,
}

impl View for ArpPeer {
    type V = PeerModel;

    closed spec fn view(&self) -> PeerModel {
        PeerModel {
            options: self.options,
            local_ipv4_addr: self.local_ipv4_addr,
            local_link_addr: self.local_link_addr,
            cache: self.cache@,
            watchers: self.cache.watchers(),
        }
    }
}

impl ArpPeer {
    /// The cache and its wait list are in order.
    pub closed spec fn wf(&self) -> bool {
        self.cache.wf()
    }

    /// Whether `query` can be polled against this resolver: the node by
    /// which it waits, if it waits, is one of this resolver's cache.
    pub open spec fn holds(&self, query: &ArpQuery) -> bool {
        query.held() matches Some(h) ==> self@.watchers.nodes.contains_key(h)
    }

    /// A well-formed resolver has well-formed watchers.
    pub proof fn lemma_watchers_wf(&self)
        requires
            self.wf(),
        ensures
            self@.watchers.wf(),
    {
        self.cache.lemma_watchers_wf();
    }

    /// The resolver of the node with the given addresses. Its cache is
    /// empty.
    pub fn new(options: ArpOptions, local_ipv4_addr: Ipv4Addr, local_link_addr: MacAddress) -> (peer:
        Self)
        ensures
            peer.wf(),
            peer@.options == options,
            peer@.local_ipv4_addr == local_ipv4_addr,
            peer@.local_link_addr == local_link_addr,
            peer@.cache == Map::<Ipv4Addr, MacAddress>::empty(),
            peer@.watchers == WatchModel::initial(0u64),
    {
        ArpPeer { options, local_ipv4_addr, local_link_addr, cache: ArpCache::new() }
    }

    /// The options that the resolver was made with.
    pub fn options(&self) -> (options: ArpOptions)
        ensures
            options == self@.options,
    {
        self.options
    }

    /// The link address that the cache holds for `addr`, if it holds one.
    pub fn lookup(&self, addr: Ipv4Addr) -> (found: Option<MacAddress>)
        ensures
            found == known(self@.cache, addr),
    {
        self.cache.lookup(addr)
    }

    /// How many queries wait for the cache to change.
    pub fn waiters(&self) -> (count: usize)
        requires
            self.wf(),
        ensures
            count == self@.watchers.waiters.len(),
    {
        self.cache.waiters()
    }

    /// Whether `query` can be polled against this resolver.
    pub fn owns(&self, query: &ArpQuery) -> (held: bool)
        ensures
            held == self.holds(query),
    {
        match &query.watch {
            Some(future) => self.cache.owns(future),
            None => true,
        }
    }

    /// Takes an inbound frame.
    ///
    /// A reply is believed: its sender goes into the cache, asked for or
    /// not. A request for this node's address teaches the cache its sender
    /// too, and is answered: the reply to transmit is handed back. A
    /// request for another address is `Ignored` and leaves no trace.
    pub fn receive(&mut self, pdu: ArpPdu) -> (answer: Result<Option<ArpPdu>, Fail>)
        requires
            old(self).wf(),
        ensures
            final(self).wf(),
            final(self)@ == old(self)@.receive(pdu),
            answer == old(self)@.answer(pdu),
    {
        match pdu.op {
            ArpOp::ArpReply => {
                self.cache.insert(pdu.sender_ip_addr, pdu.sender_link_addr);
                Ok(None)
            },
            ArpOp::ArpRequest => {
                if pdu.target_ip_addr == self.local_ipv4_addr {
                    self.cache.insert(pdu.sender_ip_addr, pdu.sender_link_addr);
                    Ok(Some(ArpPdu::reply(self.local_link_addr, self.local_ipv4_addr, &pdu)))
                } else {
                    Err(Fail::Ignored)
                }
            },
        }
    }

    /// Replaces what the cache knows by what `table` holds, without waking
    /// anybody.
    pub fn import_cache(&mut self, table: hashbrown::HashMap<u32, [u8; 6]>)
        requires
            old(self).wf(),
        ensures
            final(self).wf(),
            final(self)@ == (PeerModel { cache: mapping_of(table), ..old(self)@ }),
    {
        self.cache.import(table);
    }

    /// A copy of what the cache knows.
    pub fn export_cache(&self) -> (table: hashbrown::HashMap<u32, [u8; 6]>)
        ensures
            mapping_of(table) == self@.cache,
    {
        self.cache.export()
    }

    /// Starts a query for the link address of `target`.
    ///
    /// Hands back the query and the frame to transmit: a request, unless
    /// the cache knows the target already. The request is given up one
    /// timeout after `now`; the query may repeat it as often as the
    /// options say. The query is driven by [`ArpPeer::poll`].
    pub fn resolve(&self, target: Ipv4Addr, now: u64) -> (out: (ArpQuery, Option<ArpPdu>))
        requires
            now + self@.options.request_timeout <= u64::MAX,
        ensures
            out.0@ == QueryModel::start(target, now as int, self@.options),
            out.0.held() is None,
            out.1 == self@.first_frame(target),
    {
        let frame = match self.cache.lookup(target) {
            Some(_) => None,
            None => Some(ArpPdu::request(self.local_link_addr, self.local_ipv4_addr, target)),
        };
        let query = ArpQuery {
            target,
            deadline: now + self.options.request_timeout,
            retries_remaining: self.options.retry_count,
            watch: None,
        };
        (query, frame)
    }

    /// Polls `query` at the instant `now`.
    ///
    /// The cache is asked first: if it knows the target, the query is
    /// ready with the link address. Otherwise, if `now` has reached the
    /// deadline, the query either uses up a retry, hands back the request
    /// to transmit again and sets its deadline one timeout past `now`, or,
    /// with no retry left, is ready with `Timeout`. A query that is not
    /// ready waits on the cache with the waker of `cx`; a query that is
    /// ready has left the wait list.
    pub fn poll(&mut self, query: &mut ArpQuery, now: u64, cx: &mut Context<'_>) -> (out: (
        Poll<Result<MacAddress, Fail>>,
        Option<ArpPdu>,
    ))
        requires
            old(self).wf(),
            old(self).holds(old(query)),
            now + old(self)@.options.request_timeout <= u64::MAX,
        ensures
            final(self).wf(),
            final(self).holds(final(query)),
            ({
                let before = old(self)@;
                let step = old(query)@.step(known(before.cache, old(query)@.target), now as int);
                &&& out.0 == step.outcome()
                &&& out.1 == before.frame_of(old(query)@.target, step)
                &&& final(query)@ == old(query)@.advance(
                    step,
                    now as int,
                    before.options.request_timeout as int,
                )
                &&& final(query).held() is Some == step.is_pending()
                &&& final(self)@ == (PeerModel {
                    watchers: before.watchers_after(
                        step,
                        old(query).held(),
                        final(query).held(),
                        final(self)@.watchers.tasks[final(query).held().unwrap()],
                    ),
                    ..before
                })
                &&& step.is_pending() ==> final(self)@.watchers.is_registered(
                    final(query).held().unwrap(),
                )
            }),
    {
        let cached = self.cache.lookup(query.target);
        match query.decide(cached, now) {
            QueryStep::Resolved(link_addr) => {
                self.stop_waiting(query);
                (Poll::Ready(Ok(link_addr)), None)
            },
            QueryStep::TimedOut => {
                self.stop_waiting(query);
                (Poll::Ready(Err(Fail::Timeout)), None)
            },
            QueryStep::Retry => {
                query.retries_remaining = query.retries_remaining - 1;
                query.deadline = now + self.options.request_timeout;
                self.wait_for_change(query, cx);
                let frame = ArpPdu::request(self.local_link_addr, self.local_ipv4_addr, query.target);
                (Poll::Pending, Some(frame))
            },
            QueryStep::Wait => {
                self.wait_for_change(query, cx);
                (Poll::Pending, None)
            },
        }
    }

    /// Gives `query` up: it leaves the wait list of the cache and is woken
    /// no more. A request that it has sent stays sent.
    pub fn cancel(&mut self, query: ArpQuery)
        requires
            old(self).wf(),
            old(self).holds(&query),
        ensures
            final(self).wf(),
            final(self)@ == (PeerModel {
                watchers: stopped(old(self)@.watchers, query.held()),
                ..old(self)@
            }),
            query.held() matches Some(h) ==> final(self)@.watchers.has_left(
                old(self)@.watchers,
                h,
            ),
    {
        let mut query = query;
        self.stop_waiting(&mut query);
    }

    /// Makes sure that `query` waits on the cache with the waker of `cx`.
    fn wait_for_change(&mut self, query: &mut ArpQuery, cx: &mut Context<'_>)
        requires
            old(self).wf(),
            old(self).holds(old(query)),
        ensures
            final(self).wf(),
            final(self).holds(final(query)),
            final(query)@ == old(query)@,
            final(query).held() is Some,
            final(self)@ == (PeerModel {
                watchers: waiting(
                    old(self)@.watchers,
                    old(query).held(),
                    final(query).held().unwrap(),
                    final(self)@.watchers.tasks[final(query).held().unwrap()],
                ),
                ..old(self)@
            }),
            final(self)@.watchers.is_registered(final(query).held().unwrap()),
    {
        let mut held = query.watch.take();
        let renew = match &mut held {
            Some(future) => match self.cache.poll_watch(future, cx) {
                Poll::Ready(()) => true,
                Poll::Pending => false,
            },
            None => true,
        };
        if renew {
            if let Some(future) = held {
                self.cache.drop_watch(future);
            }
            let mut future = self.cache.watch();
            let _ = self.cache.poll_watch(&mut future, cx);
            query.watch = Some(future);
        } else {
            query.watch = held;
        }
    }

    /// Takes `query` out of the wait list of the cache, if it is in it.
    fn stop_waiting(&mut self, query: &mut ArpQuery)
        requires
            old(self).wf(),
            old(self).holds(old(query)),
        ensures
            final(self).wf(),
            final(query)@ == old(query)@,
            final(query).held() is None,
            final(self)@ == (PeerModel {
                watchers: stopped(old(self)@.watchers, old(query).held()),
                ..old(self)@
            }),
            old(query).held() matches Some(h) ==> final(self)@.watchers.has_left(
                old(self)@.watchers,
                h,
            ),
    {
        if let Some(future) = query.watch.take() {
            self.cache.drop_watch(future);
        }
    }
}

} // verus!
