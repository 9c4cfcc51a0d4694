//! A watched value: a cell whose every mutation wakes the tasks that were
//! waiting on it when the mutation happened.
//!
//! The cell keeps its wait nodes in an arena of its own. A [`WatchFuture`] is
//! the handle of one node; it is polled, asked and dropped through the cell it
//! came from, so no node is ever reached through a pointer that the cell does
//! not own.

use crate::collections::wait_list::WaitList;
pub use crate::collections::wait_list::WatchState;
use std::task::{Context, Poll, Waker};
use vstd::prelude::*;

verus! {

/// `std::task::Context`, what a poll is handed by its executor. Nothing inside
/// it is visible here.
#[verifier::external_type_specification]
#[verifier::external_body]
pub struct ExContext<'a>(Context<'a>);

/// `std::task::Poll`, with its two variants `Ready` and `Pending`.
#[verifier::external_type_specification]
#[verifier::reject_recursive_types(T)]
pub struct ExPoll<T>(Poll<T>);

/// `Context::waker` hands out the waker of the task that is being polled.
/// Nothing is claimed of it.
pub assume_specification<'a>[ Context::<'a>::waker ](cx: &Context<'a>) -> (waker: &'a Waker);

/// `Waker::clone` makes another handle. Nothing is claimed of it, not even that
/// it wakes the same task: the code below only stores it.
pub assume_specification[ <Waker as Clone>::clone ](waker: &Waker) -> (copy: Waker);

/// `Waker::wake` schedules the task for another poll; it consumes the handle
/// and gives nothing back. What the executor does with the request is outside
/// this library.
pub assume_specification[ Waker::wake ](waker: Waker);

/// What a watched value is, to its callers.
#[verifier::ext_equal]
pub struct WatchModel<T> {
    /// The current snapshot.
    pub value: T,
    /// The state of every node that a live future holds, by handle.
    pub nodes: Map<usize, WatchState>,
    /// The waker that each node that waits is to be woken through.
    pub tasks: Map<usize, Waker>,
    /// The wait list in order of registration, oldest first.
    pub waiters: Seq<usize>,
    /// The handles that the latest mutation woke, in the order in which it
    /// woke them.
    pub woken: Seq<usize>,
}

impl<T> WatchModel<T> {
    /// A fresh cell: no node, nobody waiting, nobody woken.
    pub open spec fn initial(value: T) -> Self {
        WatchModel {
            value,
            nodes: Map::empty(),
            tasks: Map::empty(),
            waiters: Seq::empty(),
            woken: Seq::empty(),
        }
    }

    /// Node `h` exists and waits.
    pub open spec fn is_registered(self, h: usize) -> bool {
        self.nodes.contains_key(h) && self.nodes[h] == WatchState::Registered
    }

    /// The wait list holds the registered nodes and nothing else, each once,
    /// and each of them has a waker.
    pub open spec fn wf(self) -> bool {
        &&& self.waiters.no_duplicates()
        &&& forall|h: usize| #[trigger] self.waiters.contains(h) <==> self.is_registered(h)
        &&& forall|h: usize| #[trigger] self.tasks.contains_key(h) <==> self.is_registered(h)
    }

    /// A new node `h` is handed out, unregistered.
    pub open spec fn watch(self, h: usize) -> Self {
        WatchModel { nodes: self.nodes.insert(h, WatchState::Unregistered), ..self }
    }

    /// The value is replaced: every registered node gives its waker up to
    /// be called, last registered first, and is completed; the wait list is
    /// left empty.
    pub open spec fn mutate(self, value: T) -> Self {
        WatchModel {
            value,
            nodes: Map::new(
                |h: usize| self.nodes.contains_key(h),
                |h: usize|
                    if self.nodes[h] == WatchState::Registered {
                        WatchState::Completed
                    } else {
                        self.nodes[h]
                    },
            ),
            tasks: Map::empty(),
            waiters: Seq::empty(),
            woken: self.waiters.reverse(),
        }
    }

    /// Node `h` is polled and holds `task` afterwards: an unregistered node
    /// joins the wait list as its newest member; a registered one keeps its
    /// place; a completed one stays as it is, with no waker.
    pub open spec fn poll(self, h: usize, task: Waker) -> Self {
        match self.nodes[h] {
            WatchState::Unregistered => WatchModel {
                nodes: self.nodes.insert(h, WatchState::Registered),
                tasks: self.tasks.insert(h, task),
                waiters: self.waiters.push(h),
                ..self
            },
            WatchState::Registered => WatchModel { tasks: self.tasks.insert(h, task), ..self },
            WatchState::Completed => self,
        }
    }

    /// Since `before`, the node `h` has left the wait list: it is in the
    /// list no more, and the list is shorter by that node if it was in it.
    pub open spec fn has_left(self, before: Self, h: usize) -> bool {
        &&& !self.waiters.contains(h)
        &&& self.waiters.len() == before.waiters.len() - (if before.is_registered(h) {
            1int
        } else {
            0int
        })
    }

    /// Node `h` is given up: it leaves the wait list, if it was in it, and
    /// ceases to exist.
    pub open spec fn release(self, h: usize) -> Self {
        WatchModel {
            nodes: self.nodes.remove(h),
            tasks: self.tasks.remove(h),
            waiters: self.waiters.remove_value(h),
            ..self
        }
    }
}

impl<T> WatchModel<T> {
    /// A run of mutations, applied in turn; each takes the next of `values`.
    pub open spec fn mutate_all(self, values: Seq<T>) -> Self
        decreases values.len(),
    {
        if values.len() == 0 {
            self
        } else {
            self.mutate_all(values.drop_last()).mutate(values.last())
        }
    }

    /// A mutation completes exactly the nodes that were registered before
    /// it: it wakes each of them once, the last registered first, leaves
    /// nobody waiting, and neither makes nor touches any other node.
    pub proof fn lemma_mutate_completes_registered(self, value: T)
        requires
            self.wf(),
        ensures
            self.mutate(value).wf(),
            self.mutate(value).value == value,
            self.mutate(value).waiters.len() == 0,
            self.mutate(value).tasks.len() == 0,
            self.mutate(value).nodes.dom() == self.nodes.dom(),
            forall|h: usize|
                self.is_registered(h) ==> #[trigger] self.mutate(value).nodes[h]
                    == WatchState::Completed,
            forall|h: usize|
                self.nodes.contains_key(h) && !self.is_registered(h) ==> #[trigger] self.mutate(
                    value,
                ).nodes[h] == self.nodes[h],
            forall|h: usize| #[trigger]
                self.mutate(value).woken.contains(h) <==> self.is_registered(h),
            self.mutate(value).woken.no_duplicates(),
            forall|i: int, j: int|
                0 <= i < j < self.waiters.len() ==> self.mutate(value).woken.index_of(
                    #[trigger] self.waiters[j],
                ) < self.mutate(value).woken.index_of(#[trigger] self.waiters[i]),
    {
        let after = self.mutate(value);
        let n = self.waiters.len() as int;
        assert forall|h: usize| #[trigger] after.woken.contains(h) <==> self.is_registered(h) by {
            if after.woken.contains(h) {
                let i = choose|i: int| 0 <= i < after.woken.len() && after.woken[i] == h;
                assert(self.waiters[n - 1 - i] == h);
                assert(self.waiters.contains(h));
            }
            if self.is_registered(h) {
                assert(self.waiters.contains(h));
                let i = choose|i: int| 0 <= i < n && self.waiters[i] == h;
                assert(after.woken[n - 1 - i] == h);
            }
        }
        assert forall|i: int, j: int| 0 <= i < j < n implies after.woken.index_of(
            #[trigger] self.waiters[j],
        ) < after.woken.index_of(#[trigger] self.waiters[i]) by {
            assert(after.woken[n - 1 - i] == self.waiters[i]);
            assert(after.woken[n - 1 - j] == self.waiters[j]);
        }
    }

    /// Whatever run of mutations follows, a node that was registered before
    /// the first of them is completed when the run returns, and a node that
    /// was not yet registered is where it was.
    pub proof fn lemma_mutations_complete_registered(self, values: Seq<T>, h: usize)
        requires
            self.wf(),
            values.len() > 0,
            self.nodes.contains_key(h),
        ensures
            self.mutate_all(values).wf(),
            self.mutate_all(values).nodes.contains_key(h),
            self.nodes[h] == WatchState::Unregistered ==> self.mutate_all(values).nodes[h]
                == WatchState::Unregistered,
            self.nodes[h] != WatchState::Unregistered ==> self.mutate_all(values).nodes[h]
                == WatchState::Completed,
        decreases values.len(),
    {
        if values.len() == 1 {
            assert(self.mutate_all(values.drop_last()) == self);
            self.lemma_mutate_completes_registered(values.last());
        } else {
            self.lemma_mutations_complete_registered(values.drop_last(), h);
            self.mutate_all(values.drop_last()).lemma_mutate_completes_registered(values.last());
        }
    }

    /// A node made after a mutation owes that mutation nothing: it was not
    /// among the woken, it starts out unregistered, and its first poll
    /// makes it wait for the next mutation.
    pub proof fn lemma_node_made_after_mutation_waits(self, value: T, h: usize, task: Waker)
        requires
            self.wf(),
            !self.nodes.contains_key(h),
        ensures
            !self.mutate(value).nodes.contains_key(h),
            !self.mutate(value).woken.contains(h),
            self.mutate(value).watch(h).wf(),
            self.mutate(value).watch(h).nodes[h] == WatchState::Unregistered,
            self.mutate(value).watch(h).poll(h, task).wf(),
            self.mutate(value).watch(h).poll(h, task).nodes[h] == WatchState::Registered,
            self.mutate(value).watch(h).poll(h, task).waiters == seq![h],
    {
        self.lemma_mutate_completes_registered(value);
        let polled = self.mutate(value).watch(h).poll(h, task);
        assert forall|g: usize| #[trigger] polled.waiters.contains(g) <==> polled.is_registered(
            g,
        ) by {
            if g == h {
                assert(polled.waiters[0] == h);
            }
        }
    }

    /// Giving up a registered node takes exactly that node out of the wait
    /// list: the list is one shorter, the others keep their order, and
    /// every entry left is a registered node.
    pub proof fn lemma_release_registered(self, h: usize)
        requires
            self.wf(),
            self.is_registered(h),
        ensures
            self.release(h).wf(),
            self.release(h).waiters.len() == self.waiters.len() - 1,
            self.release(h).waiters == self.waiters.remove(self.waiters.index_of(h)),
            !self.release(h).waiters.contains(h),
            !self.release(h).nodes.contains_key(h),
            forall|g: usize|
                g != h ==> (#[trigger] self.release(h).waiters.contains(g)
                    <==> self.waiters.contains(g)),
            forall|i: int|
                0 <= i < self.release(h).waiters.len() ==> self.release(h).is_registered(
                    #[trigger] self.release(h).waiters[i],
                ),
    {
        let after = self.release(h);
        self.waiters.index_of_first_ensures(h);
        let k = self.waiters.index_of_first(h).unwrap();
        self.waiters.remove_ensures(k);
        assert forall|g: usize| g != h implies (#[trigger] after.waiters.contains(g)
            <==> self.waiters.contains(g)) by {
            if self.waiters.contains(g) {
                let i = choose|i: int| 0 <= i < self.waiters.len() && self.waiters[i] == g;
                if i < k {
                    assert(after.waiters[i] == g);
                } else {
                    assert(after.waiters[i - 1] == g);
                }
            }
        }
        assert forall|i: int| 0 <= i < after.waiters.len() implies after.is_registered(
            #[trigger] after.waiters[i],
        ) by {
            assert(after.waiters.contains(after.waiters[i]));
        }
    }

    /// Giving up a node that does not wait leaves the wait list alone.
    pub proof fn lemma_release_unregistered(self, h: usize)
        requires
            self.wf(),
            !self.is_registered(h),
        ensures
            self.release(h).wf(),
            self.release(h).waiters == self.waiters,
            !self.release(h).nodes.contains_key(h),
    {
        self.waiters.index_of_first_ensures(h);
    }

    /// Handing out a node and polling one keep the model well formed.
    pub proof fn lemma_watch_and_poll_wf(self, h: usize, task: Waker)
        requires
            self.wf(),
        ensures
            !self.nodes.contains_key(h) ==> self.watch(h).wf(),
            self.nodes.contains_key(h) ==> self.poll(h, task).wf(),
    {
        if self.nodes.contains_key(h) {
            let after = self.poll(h, task);
            if self.nodes[h] == WatchState::Unregistered {
                assert(!self.waiters.contains(h));
                assert forall|g: usize| #[trigger] after.waiters.contains(g)
                    <==> after.is_registered(g) by {
                    if after.waiters.contains(g) {
                        let i = choose|i: int| 0 <= i < after.waiters.len() && after.waiters[i] == g;
                        if i < self.waiters.len() {
                            assert(self.waiters.contains(g));
                        }
                    }
                    if after.is_registered(g) {
                        if g == h {
                            assert(after.waiters[self.waiters.len() as int] == h);
                        } else {
                            assert(self.waiters.contains(g));
                            let i = choose|i: int| 0 <= i < self.waiters.len() && self.waiters[i] == g;
                            assert(after.waiters[i] == g);
                        }
                    }
                }
            }
        }
    }
}

/// The state behind a [`WatchedValue`].
pub struct Inner<T> {
    value: T,
    waiters: WaitList,
    /// The order in which the latest mutation woke its waiters.
    woken: Ghost<Seq<usize>>,
}

/// A value that can be watched: `set` and `modify` wake every task that
/// waits on it.
pub struct WatchedValue<T> {
    inner: Inner<T>,
}

/// A single-shot handle on the next mutation of one [`WatchedValue`].
///
/// It is ready once the value has been mutated after the handle's first
/// poll. It names a node in the arena of the cell that made it and must be
/// used with that cell only.
pub struct WatchFuture {
    node: usize,
}

impl<T> View for WatchedValue<T> {
    type V = WatchModel<T>;

    closed spec fn view(&self) -> WatchModel<T> {
        WatchModel {
            value: self.inner.value,
            nodes: self.inner.waiters.states(),
            tasks: self.inner.waiters.tasks(),
            waiters: self.inner.waiters.waiters(),
            woken: self.inner.woken@,
        }
    }
}

impl<T> WatchedValue<T> {
    /// The arena and the wait list agree: see [`WatchModel::wf`] for what
    /// callers can rely on.
    pub closed spec fn wf(&self) -> bool {
        self.inner.waiters.wf()
    }

    /// A well-formed cell has a well-formed model.
    pub proof fn lemma_view_wf(&self)
        requires
            self.wf(),
        ensures
            self@.wf(),
    {
        self.inner.waiters.lemma_waiters_are_the_registered();
    }

    /// How many futures wait on the value.
    pub fn waiters(&self) -> (count: usize)
        requires
            self.wf(),
        ensures
            count == self@.waiters.len(),
    {
        self.inner.waiters.len()
    }

    /// Whether `future` names a node of this cell.
    pub fn owns(&self, future: &WatchFuture) -> (held: bool)
        ensures
            held == self@.nodes.contains_key(future.handle()),
    {
        self.inner.waiters.owns(future.node)
    }
}

impl<T: Copy> WatchedValue<T> {
    /// A cell that holds `value`, with nobody waiting.
    pub fn new(value: T) -> (cell: Self)
        ensures
            cell.wf(),
            cell@ == WatchModel::initial(value),
    {
        let inner = Inner { value, waiters: WaitList::new(), woken: Ghost(Seq::empty()) };
        Self { inner }
    }

    /// The current value.
    pub fn get(&self) -> (value: T)
        ensures
            value == self@.value,
    {
        self.inner.value
    }

    /// Replaces the value and wakes every waiter.
    pub fn set(&mut self, new_value: T)
        requires
            old(self).wf(),
        ensures
            final(self).wf(),
            final(self)@ == old(self)@.mutate(new_value),
    {
        self.modify(|_current: T| -> (next: T) ensures next == new_value { new_value })
    }

    /// Replaces the value by what `f` makes of it and wakes every waiter:
    /// each registered node has its waker taken and called, the node that
    /// registered last first, and is completed. The wait list is empty
    /// afterwards. A mutation that leaves the value as it was wakes them too.
    pub fn modify(&mut self, f: impl FnOnce(T) -> T)
        requires
            old(self).wf(),
            f.requires((old(self)@.value,)),
        ensures
            final(self).wf(),
            f.ensures((old(self)@.value,), final(self)@.value),
            final(self)@ == old(self)@.mutate(final(self)@.value),
    {
        let ghost before = self@;
        let ghost total = before.waiters.len() as int;
        proof {
            self.lemma_view_wf();
        }
        let new_value = f(self.inner.value);
        self.inner.value = new_value;
        self.inner.woken = Ghost(Seq::empty());
        loop
            invariant_except_break
                self.inner.waiters.waiters() == before.waiters.take(
                    total - self.inner.woken@.len(),
                ),
            invariant
                before.wf(),
                total == before.waiters.len(),
                self.wf(),
                self.inner.value == new_value,
                self.inner.woken@.len() <= total,
                forall|j: int|
                    0 <= j < self.inner.woken@.len() ==> #[trigger] self.inner.woken@[j]
                        == before.waiters[total - 1 - j],
                self@.nodes.dom() == before.nodes.dom(),
                forall|h: usize| #[trigger]
                    before.nodes.contains_key(h) ==> self@.nodes[h] == (if self.inner.woken@.contains(
                        h,
                    ) {
                        WatchState::Completed
                    } else {
                        before.nodes[h]
                    }),
            ensures
                self.inner.woken@.len() == total,
                self.inner.waiters.waiters().len() == 0,
            decreases total - self.inner.woken@.len(),
        {
            let ghost woken = self.inner.woken@;
            match self.inner.waiters.pop_front() {
                Some((h, task)) => {
                    task.wake();
                    proof {
                        self.inner.woken@ = woken.push(h);
                        assert(before.waiters.contains(h));
                        assert forall|g: usize| #[trigger]
                            before.nodes.contains_key(g) implies self@.nodes[g] == (
                        if self.inner.woken@.contains(g) {
                            WatchState::Completed
                        } else {
                            before.nodes[g]
                        }) by {
                            if g == h {
                                assert(self.inner.woken@[woken.len() as int] == h);
                            } else {
                                if woken.contains(g) {
                                    let j = choose|j: int| 0 <= j < woken.len() && woken[j] == g;
                                    assert(self.inner.woken@[j] == g);
                                }
                                if self.inner.woken@.contains(g) {
                                    let j = choose|j: int|
                                        0 <= j < self.inner.woken@.len() && self.inner.woken@[j]
                                            == g;
                                    assert(woken[j] == g);
                                }
                            }
                        }
                    }
                },
                None => {
                    break ;
                },
            }
        }
        proof {
            let after = self@;
            let expected = before.mutate(after.value);
            assert(after.tasks =~= expected.tasks) by {
                self.inner.waiters.lemma_waiters_are_the_registered();
            }
            assert(after.nodes =~= expected.nodes) by {
                assert forall|h: usize| before.nodes.contains_key(h) implies after.nodes[h]
                    == expected.nodes[h] by {
                    if before.is_registered(h) {
                        assert(before.waiters.contains(h));
                        let i = choose|i: int| 0 <= i < total && before.waiters[i] == h;
                        assert(after.woken[total - 1 - i] == h);
                    } else if after.woken.contains(h) {
                        let j = choose|j: int| 0 <= j < total && after.woken[j] == h;
                        assert(before.waiters[total - 1 - j] == h);
                        assert(before.waiters.contains(h));
                    }
                }
            }
        }
    }

    /// The current value, and a future that is ready once the value has
    /// been mutated after the future's first poll. The future starts out
    /// unregistered: it waits for nothing until it is polled.
    pub fn watch(&mut self) -> (out: (T, WatchFuture))
        requires
            old(self).wf(),
        ensures
            final(self).wf(),
            out.0 == old(self)@.value,
            !old(self)@.nodes.contains_key(out.1.handle()),
            final(self)@ == old(self)@.watch(out.1.handle()),
    {
        let value = self.inner.value;
        let node = self.inner.waiters.acquire();
        (value, WatchFuture { node })
    }
}

impl WatchFuture {
    /// The handle of this future's node in the arena of its cell.
    pub closed spec fn handle(&self) -> usize {
        self.node
    }

    /// Polls the future against its cell.
    ///
    /// An unregistered node takes the waker of the polling task and joins
    /// the wait list. A registered node keeps its place; it takes the
    /// polling task's waker unless the one it holds would wake that task
    /// already. Both report `Pending`. A completed node reports `Ready`.
    ///
    /// Of the waker that the node holds afterwards the contract says that
    /// there is one: which one is for `std` to say, and it says it in
    /// words only.
    pub fn poll<T>(&mut self, watch: &mut WatchedValue<T>, cx: &mut Context<'_>) -> (status: Poll<()>)
        requires
            old(watch).wf(),
            old(watch)@.nodes.contains_key(old(self).handle()),
        ensures
            final(watch).wf(),
            final(self).handle() == old(self).handle(),
            final(watch)@ == old(watch)@.poll(
                old(self).handle(),
                final(watch)@.tasks[old(self).handle()],
            ),
            status == (if old(watch)@.nodes[old(self).handle()] == WatchState::Completed {
                Poll::Ready(())
            } else {
                Poll::Pending
            }),
    {
        let list = &mut watch.inner.waiters;
        proof {
            list.lemma_waiters_are_the_registered();
        }
        match list.state(self.node) {
            WatchState::Unregistered => {
                list.add_front(self.node, cx.waker().clone());
                Poll::Pending
            },
            WatchState::Registered => {
                if !list.will_wake(self.node, cx.waker()) {
                    list.set_task(self.node, cx.waker().clone());
                }
                assert(watch@.tasks =~= old(watch)@.tasks.insert(self.node, watch@.tasks[self.node]));
                Poll::Pending
            },
            WatchState::Completed => Poll::Ready(()),
        }
    }

    /// Whether the future has completed: polling it again can only report
    /// `Ready`.
    pub fn is_terminated<T>(&self, watch: &WatchedValue<T>) -> (done: bool)
        requires
            watch@.nodes.contains_key(self.handle()),
        ensures
            done == (watch@.nodes[self.handle()] == WatchState::Completed),
    {
        match watch.inner.waiters.state(self.node) {
            WatchState::Completed => true,
            _ => false,
        }
    }

    /// Gives the future up. A node that still waits is taken out of the
    /// wait list of its cell first, so that no later mutation reaches it;
    /// the other waiters keep their order.
    pub fn drop<T>(self, watch: &mut WatchedValue<T>)
        requires
            old(watch).wf(),
            old(watch)@.nodes.contains_key(self.handle()),
        ensures
            final(watch).wf(),
            final(watch)@ == old(watch)@.release(self.handle()),
            final(watch)@.has_left(old(watch)@, self.handle()),
    {
        let list = &mut watch.inner.waiters;
        proof {
            list.lemma_waiters_are_the_registered();
            list.waiters().index_of_first_ensures(self.node);
        }
        if let WatchState::Registered = list.state(self.node) {
            list.remove(self.node);
        }
        list.release(self.node);
        proof {
            watch.lemma_view_wf();
        }
    }
}

} // verus!
