//! The wait list of a watched value: an arena of wait nodes, and a doubly
//! linked list threaded through the nodes that wait.
//!
//! A node is named by its handle, the index of its slot in the arena. Joining
//! the list, leaving it from any place and taking the newest node off it each
//! touch the node and its two neighbours only.

use std::task::Waker;
use vstd::prelude::*;

verus! {

/// `std::task::Waker`, the handle by which a task is scheduled for another
/// poll. Nothing inside it is visible here.
#[verifier::external_type_specification]
#[verifier::external_body]
pub struct ExWaker(Waker);

/// `Waker::will_wake` compares two handles on a best-effort basis. Nothing is
/// claimed of the answer.
pub assume_specification[ Waker::will_wake ](waker: &Waker, other: &Waker) -> (same: bool);

/// Where a wait node stands.
#[derive(Clone, Copy, Debug, PartialEq, Eq, Structural)]
pub enum WatchState {
    /// Created, never polled: in no wait list.
    Unregistered,
    /// Polled and waiting: in the wait list of its cell, exactly once.
    Registered,
    /// Woken by a mutation: in no wait list.
    Completed,
}

/// One slot of the arena.
struct WaitNode {
    /// The waker to call at the next mutation; set while the node waits.
    task: Option<Waker>,
    state: WatchState,
    /// A future holds this slot.
    live: bool,
    /// The node that joined the list just before this one.
    older: Option<usize>,
    /// The node that joined the list just after this one.
    newer: Option<usize>,
}

/// The wait nodes of one cell.
pub struct WaitList {
    /// The arena: a handle is the index of its node.
    nodes: Vec<WaitNode>,
    /// The node that joined the list last: the front of the list.
    newest: Option<usize>,
    /// The number of nodes in the list.
    count: usize,
    /// The slots that no future holds, ready to be handed out again.
    vacant: Vec<usize>,
    /// The list, in the order in which its nodes joined it.
    order: Ghost<Seq<usize>>,
}

impl WaitList {
    spec fn live(&self, h: usize) -> bool {
        h < self.nodes.len() && self.nodes[h as int].live
    }

    spec fn registered(&self, h: usize) -> bool {
        self.live(h) && self.nodes[h as int].state == WatchState::Registered
    }

    /// The `i`-th node of the list waits, holds a waker, and points at its
    /// two neighbours.
    spec fn linked(&self, i: int) -> bool {
        let order = self.order@;
        let node = self.nodes[order[i] as int];
        &&& self.registered(order[i])
        &&& node.task is Some
        &&& node.older == (if i > 0 {
            Some(order[i - 1])
        } else {
            None
        })
        &&& node.newer == (if i + 1 < order.len() {
            Some(order[i + 1])
        } else {
            None
        })
    }

    /// The links spell the list, the list holds the nodes that wait, each
    /// once, only they hold a waker, and the free slots are the ones that
    /// no future holds.
    pub closed spec fn wf(&self) -> bool {
        let order = self.order@;
        &&& order.no_duplicates()
        &&& self.count == order.len()
        &&& self.newest == (if order.len() > 0 {
            Some(order.last())
        } else {
            None
        })
        &&& forall|i: int| 0 <= i < order.len() ==> #[trigger] self.linked(i)
        &&& forall|h: usize| #[trigger] self.registered(h) ==> order.contains(h)
        &&& forall|h: usize|
            h < self.nodes.len() && !self.registered(h) ==> (#[trigger] self.nodes[h as int]).task
                is None
        &&& self.vacant@.no_duplicates()
        &&& forall|i: int|
            0 <= i < self.vacant.len() ==> (#[trigger] self.vacant[i]) < self.nodes.len()
                && !self.nodes[self.vacant[i] as int].live
        &&& forall|h: usize|
            h < self.nodes.len() && !(#[trigger] self.nodes[h as int]).live
                ==> self.vacant@.contains(h)
    }

    /// The state of every node that a future holds, by handle.
    pub closed spec fn states(&self) -> Map<usize, WatchState> {
        Map::new(|h: usize| self.live(h), |h: usize| self.nodes[h as int].state)
    }

    /// The nodes that wait, in the order in which they joined the list.
    pub closed spec fn waiters(&self) -> Seq<usize> {
        self.order@
    }

    /// The waker that each node holds. In a well-formed list the nodes
    /// that hold one are the nodes that wait: each is woken through its own.
    pub closed spec fn tasks(&self) -> Map<usize, Waker> {
        Map::new(
            |h: usize| self.live(h) && self.nodes[h as int].task is Some,
            |h: usize| self.nodes[h as int].task.unwrap(),
        )
    }

    /// In a well-formed list the nodes that wait are the registered ones,
    /// each once, and they are the nodes that hold a waker.
    pub proof fn lemma_waiters_are_the_registered(&self)
        requires
            self.wf(),
        ensures
            self.waiters().no_duplicates(),
            forall|h: usize| #[trigger]
                self.waiters().contains(h) <==> (self.states().contains_key(h) && self.states()[h]
                    == WatchState::Registered),
            forall|h: usize| #[trigger] self.tasks().contains_key(h) <==> self.waiters().contains(h),
    {
        assert forall|h: usize| #[trigger]
            self.waiters().contains(h) <==> (self.states().contains_key(h) && self.states()[h]
                == WatchState::Registered) by {
            if self.waiters().contains(h) {
                let i = choose|i: int| 0 <= i < self.order@.len() && self.order@[i] == h;
                assert(self.linked(i));
            }
            if self.states().contains_key(h) && self.states()[h] == WatchState::Registered {
                assert(self.registered(h));
            }
        }
        assert forall|h: usize| #[trigger] self.tasks().contains_key(h) <==> self.waiters().contains(
            h,
        ) by {
            if self.waiters().contains(h) {
                let i = choose|i: int| 0 <= i < self.order@.len() && self.order@[i] == h;
                assert(self.linked(i));
            }
            if self.tasks().contains_key(h) {
                assert(self.nodes[h as int].task is Some);
                assert(self.registered(h));
            }
        }
    }

    /// An arena with no node.
    pub fn new() -> (list: Self)
        ensures
            list.wf(),
            list.states() == Map::<usize, WatchState>::empty(),
            list.waiters() == Seq::<usize>::empty(),
            list.tasks() == Map::<usize, Waker>::empty(),
    {
        WaitList {
            nodes: Vec::new(),
            newest: None,
            count: 0,
            vacant: Vec::new(),
            order: Ghost(Seq::empty()),
        }
    }

    /// How many nodes wait.
    pub fn len(&self) -> (count: usize)
        requires
            self.wf(),
        ensures
            count == self.waiters().len(),
    {
        self.count
    }

    /// Whether `h` names a node that a future holds.
    pub fn owns(&self, h: usize) -> (held: bool)
        ensures
            held == self.states().contains_key(h),
    {
        h < self.nodes.len() && self.nodes[h].live
    }

    /// The state of the node `h`.
    pub fn state(&self, h: usize) -> (state: WatchState)
        requires
            self.states().contains_key(h),
        ensures
            state == self.states()[h],
    {
        self.nodes[h].state
    }

    /// Hands out a node, unregistered. Its handle names no other node.
    pub fn acquire(&mut self) -> (h: usize)
        requires
            old(self).wf(),
        ensures
            final(self).wf(),
            !old(self).states().contains_key(h),
            final(self).states() == old(self).states().insert(h, WatchState::Unregistered),
            final(self).waiters() == old(self).waiters(),
            final(self).tasks() == old(self).tasks(),
    {
        let node = WaitNode {
            task: None,
            state: WatchState::Unregistered,
            live: true,
            older: None,
            newer: None,
        };
        let ghost before = *self;
        let h = match self.vacant.pop() {
            Some(h) => {
                proof {
                    let n = before.vacant@.len() as int;
                    assert forall|g: usize| g != h && before.vacant@.contains(g) implies
                        self.vacant@.contains(g) by {
                        let i = choose|i: int| 0 <= i < n && before.vacant@[i] == g;
                        assert(self.vacant@[i] == g);
                    }
                }
                let slot = &mut self.nodes[h];
                *slot = node;
                h
            },
            None => {
                let h = self.nodes.len();
                self.nodes.push(node);
                h
            },
        };
        proof {
            self.lemma_same_list(before, h);
        }
        h
    }

    /// Gives back a node that does not wait. Its handle names nothing
    /// afterwards, until it is handed out again.
    pub fn release(&mut self, h: usize)
        requires
            old(self).wf(),
            old(self).states().contains_key(h),
            old(self).states()[h] != WatchState::Registered,
        ensures
            final(self).wf(),
            final(self).states() == old(self).states().remove(h),
            final(self).waiters() == old(self).waiters(),
            final(self).tasks() == old(self).tasks(),
    {
        let ghost before = *self;
        let node = &mut self.nodes[h];
        node.task = None;
        node.state = WatchState::Unregistered;
        node.live = false;
        self.vacant.push(h);
        proof {
            self.lemma_same_list(before, h);
            assert forall|g: usize|
                g < self.nodes.len() && !(#[trigger] self.nodes[g as int]).live implies
                self.vacant@.contains(g) by {
                if g != h {
                    let k = choose|k: int| 0 <= k < before.vacant@.len() && before.vacant@[k] == g;
                    assert(self.vacant@[k] == g);
                } else {
                    assert(self.vacant@[before.vacant@.len() as int] == h);
                }
            }
        }
    }

    /// Puts the unregistered node `h` at the front of the list, to be woken
    /// through `task`.
    pub fn add_front(&mut self, h: usize, task: Waker)
        requires
            old(self).wf(),
            old(self).states().contains_key(h),
            old(self).states()[h] == WatchState::Unregistered,
        ensures
            final(self).wf(),
            final(self).states() == old(self).states().insert(h, WatchState::Registered),
            final(self).waiters() == old(self).waiters().push(h),
            final(self).tasks() == old(self).tasks().insert(h, task),
    {
        let ghost before = *self;
        let ghost n = before.order@.len() as int;
        proof {
            assert(!before.order@.contains(h)) by {
                if before.order@.contains(h) {
                    let i = choose|i: int| 0 <= i < n && before.order@[i] == h;
                    assert(before.linked(i));
                }
            }
            if n > 0 {
                assert(before.linked(n - 1));
            }
            assert(n < before.nodes.len()) by {
                let longer = before.order@.push(h);
                assert forall|i: int| 0 <= i < longer.len() implies (#[trigger] longer[i])
                    < before.nodes.len() by {
                    if i < n {
                        assert(before.linked(i));
                    }
                }
                Self::lemma_handles_fit(longer, before.nodes.len() as nat);
            }
        }
        let front = self.newest;
        let node = &mut self.nodes[h];
        node.task = Some(task);
        node.state = WatchState::Registered;
        node.older = front;
        node.newer = None;
        if let Some(f) = front {
            let neighbour = &mut self.nodes[f];
            neighbour.newer = Some(h);
        }
        self.newest = Some(h);
        self.count = self.count + 1;
        proof {
            self.order@ = before.order@.push(h);
            assert forall|i: int| 0 <= i < self.order@.len() implies #[trigger] self.linked(i) by {
                if i < n {
                    assert(before.linked(i));
                }
            }
            assert forall|g: usize| #[trigger] self.registered(g) implies self.order@.contains(
                g,
            ) by {
                if g != h {
                    assert(before.registered(g));
                    let i = choose|i: int| 0 <= i < n && before.order@[i] == g;
                    assert(self.order@[i] == g);
                } else {
                    assert(self.order@[n] == h);
                }
            }
        }
    }

    /// Whether the waker that the node `h` holds would wake the task of
    /// `waker` too. A node that holds no waker wakes nobody: the answer is
    /// `false`. Of a node that holds one, the answer is what the two wakers
    /// make of each other, of which nothing is claimed.
    pub fn will_wake(&self, h: usize, waker: &Waker) -> (same: bool)
        requires
            self.states().contains_key(h),
        ensures
            !self.tasks().contains_key(h) ==> !same,
    {
        match &self.nodes[h].task {
            Some(task) => task.will_wake(waker),
            None => false,
        }
    }

    /// Gives the registered node `h` another waker. The node keeps its
    /// place in the list.
    pub fn set_task(&mut self, h: usize, task: Waker)
        requires
            old(self).wf(),
            old(self).states().contains_key(h),
            old(self).states()[h] == WatchState::Registered,
        ensures
            final(self).wf(),
            final(self).states() == old(self).states(),
            final(self).waiters() == old(self).waiters(),
            final(self).tasks() == old(self).tasks().insert(h, task),
    {
        let ghost before = *self;
        let node = &mut self.nodes[h];
        node.task = Some(task);
        proof {
            assert forall|i: int| 0 <= i < self.order@.len() implies #[trigger] self.linked(i) by {
                assert(before.linked(i));
            }
            assert forall|g: usize| #[trigger] self.registered(g) implies self.order@.contains(
                g,
            ) by {
                assert(before.registered(g));
            }
        }
    }

    /// Takes the registered node `h` out of the list, wherever it stands,
    /// and leaves it unregistered. The others keep their order.
    pub fn remove(&mut self, h: usize)
        requires
            old(self).wf(),
            old(self).states().contains_key(h),
            old(self).states()[h] == WatchState::Registered,
        ensures
            final(self).wf(),
            final(self).states() == old(self).states().insert(h, WatchState::Unregistered),
            final(self).waiters() == old(self).waiters().remove_value(h),
            final(self).waiters().len() == old(self).waiters().len() - 1,
            final(self).tasks() == old(self).tasks().remove(h),
    {
        let ghost before = *self;
        let ghost n = before.order@.len() as int;
        let ghost at = before.order@.index_of(h);
        proof {
            assert(before.registered(h));
            before.order@.index_of_first_ensures(h);
            before.order@.remove_ensures(at);
            assert(before.linked(at));
            if at > 0 {
                assert(before.linked(at - 1));
            }
            if at + 1 < n {
                assert(before.linked(at + 1));
            }
        }
        let older = self.nodes[h].older;
        let newer = self.nodes[h].newer;
        if let Some(o) = older {
            let neighbour = &mut self.nodes[o];
            neighbour.newer = newer;
        }
        match newer {
            Some(w) => {
                let neighbour = &mut self.nodes[w];
                neighbour.older = older;
            },
            None => {
                self.newest = older;
            },
        }
        let node = &mut self.nodes[h];
        node.task = None;
        node.state = WatchState::Unregistered;
        node.older = None;
        node.newer = None;
        self.count = self.count - 1;
        proof {
            self.order@ = before.order@.remove(at);
            let order = self.order@;
            assert forall|i: int| 0 <= i < order.len() implies #[trigger] self.linked(i) by {
                let j = if i < at {
                    i
                } else {
                    i + 1
                };
                assert(before.linked(j));
            }
            assert forall|g: usize| #[trigger] self.registered(g) implies order.contains(g) by {
                assert(before.registered(g));
                let k = choose|k: int| 0 <= k < n && before.order@[k] == g;
                if k < at {
                    assert(order[k] == g);
                } else {
                    assert(order[k - 1] == g);
                }
            }
        }
    }

    /// Takes the node at the front of the list off it: the node that
    /// joined last is completed, and its handle and its waker are handed
    /// out. `None` when nobody waits.
    pub fn pop_front(&mut self) -> (front: Option<(usize, Waker)>)
        requires
            old(self).wf(),
        ensures
            final(self).wf(),
            old(self).waiters().len() == 0 ==> front is None && final(self).states() == old(
                self,
            ).states() && final(self).waiters() == old(self).waiters() && final(self).tasks()
                == old(self).tasks(),
            old(self).waiters().len() > 0 ==> front == Some(
                (old(self).waiters().last(), old(self).tasks()[old(self).waiters().last()]),
            ) && final(self).waiters() == old(self).waiters().drop_last() && final(self).states()
                == old(self).states().insert(old(self).waiters().last(), WatchState::Completed)
                && final(self).tasks() == old(self).tasks().remove(old(self).waiters().last()),
    {
        let ghost before = *self;
        let ghost n = before.order@.len() as int;
        let h = match self.newest {
            Some(h) => h,
            None => {
                return None;
            },
        };
        proof {
            assert(before.linked(n - 1));
            if n > 1 {
                assert(before.linked(n - 2));
            }
        }
        let node = &mut self.nodes[h];
        let task = node.task.take();
        let older = node.older;
        node.state = WatchState::Completed;
        node.older = None;
        node.newer = None;
        if let Some(o) = older {
            let neighbour = &mut self.nodes[o];
            neighbour.newer = None;
        }
        self.newest = older;
        self.count = self.count - 1;
        proof {
            self.order@ = before.order@.drop_last();
            let order = self.order@;
            assert forall|i: int| 0 <= i < order.len() implies #[trigger] self.linked(i) by {
                assert(before.linked(i));
            }
            assert forall|g: usize| #[trigger] self.registered(g) implies order.contains(g) by {
                assert(before.registered(g));
                let k = choose|k: int| 0 <= k < n && before.order@[k] == g;
                assert(order[k] == g);
            }
        }
        match task {
            Some(task) => Some((h, task)),
            None => None,
        }
    }

    /// Distinct handles below `n` are at most `n`.
    proof fn lemma_handles_fit(handles: Seq<usize>, n: nat)
        requires
            n <= usize::MAX,
            handles.no_duplicates(),
            forall|i: int| 0 <= i < handles.len() ==> (#[trigger] handles[i]) < n,
        ensures
            handles.len() <= n,
    {
        let named = handles.to_set();
        let slots = Set::new(|h: usize| h < n);
        handles.unique_seq_to_set();
        Self::lemma_slots(n);
        vstd::set_lib::lemma_len_subset(named, slots);
    }

    /// There are `n` handles below `n`.
    proof fn lemma_slots(n: nat)
        requires
            n <= usize::MAX,
        ensures
            Set::new(|h: usize| h < n).finite(),
            Set::new(|h: usize| h < n).len() == n,
        decreases n,
    {
        let slots = Set::new(|h: usize| h < n);
        if n == 0 {
            assert(slots =~= Set::<usize>::empty());
        } else {
            let fewer = Set::new(|h: usize| h < (n - 1) as nat);
            Self::lemma_slots((n - 1) as nat);
            assert(slots =~= fewer.insert((n - 1) as usize));
        }
    }

    /// What a change to the node `h` alone leaves as it was: the list, when
    /// `h` neither waited before nor waits now.
    proof fn lemma_same_list(&self, before: Self, h: usize)
        requires
            before.wf(),
            !before.registered(h),
            !self.registered(h),
            self.order@ == before.order@,
            self.newest == before.newest,
            self.count == before.count,
            self.nodes.len() >= before.nodes.len(),
            forall|g: usize|
                g != h && g < before.nodes.len() ==> #[trigger] self.nodes[g as int]
                    == before.nodes[g as int],
            h < self.nodes.len(),
            self.nodes.len() > before.nodes.len() ==> h == before.nodes.len()
                && self.nodes.len() == before.nodes.len() + 1,
        ensures
            self.order@.no_duplicates(),
            forall|i: int| 0 <= i < self.order@.len() ==> #[trigger] self.linked(i),
            forall|g: usize| #[trigger] self.registered(g) ==> self.order@.contains(g),
    {
        assert forall|i: int| 0 <= i < self.order@.len() implies #[trigger] self.linked(i) by {
            assert(before.linked(i));
        }
        assert forall|g: usize| #[trigger] self.registered(g) implies self.order@.contains(g) by {
            assert(before.registered(g));
        }
    }
}

} // verus!
