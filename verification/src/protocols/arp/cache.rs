//! The resolution cache: which link-layer address answers for which
//! network-layer address.
//!
//! The entries live in a hash map. Beside it stands a watched version tag
//! that every insertion bumps, so that whoever waits for an address is woken
//! by any insertion and looks again.

use crate::collections::watched::{WatchFuture, WatchModel, WatchState, WatchedValue};
use crate::protocols::ethernet2::MacAddress;
use crate::protocols::ipv4::Ipv4Addr;
use hashbrown::HashMap;
use std::task::{Context, Poll};
use vstd::prelude::*;

verus! {

/// `hashbrown::HashMap`. Nothing inside it is visible here; what it holds
/// is named by [`table_entries`].
#[verifier::external_type_specification]
#[verifier::external_body]
#[verifier::reject_recursive_types(K)]
#[verifier::reject_recursive_types(V)]
#[verifier::reject_recursive_types(S)]
pub struct ExHashMap<K, V, S>(HashMap<K, V, S>);

/// `hashbrown::hash_map::DefaultHashBuilder`, the hasher that
/// `HashMap::new` picks.
#[verifier::external_type_specification]
#[verifier::external_body]
pub struct ExDefaultHashBuilder(hashbrown::hash_map::DefaultHashBuilder);

/// What a table holds: the octets stored under each key. The keys are the
/// numbers of the addresses, which hash and compare as integers do.
pub uninterp spec fn table_entries(table: HashMap<u32, [u8; 6]>) -> Map<u32, [u8; 6]>;

/// `HashMap::new`: a table that holds nothing.
#[verifier::external_body]
fn table_new() -> (table: HashMap<u32, [u8; 6]>)
    ensures
        (table_entries(table) == Map::<u32, [u8; 6]>::empty()),
{
    HashMap::new()
}

/// `HashMap::get`: the value stored under `key`, if there is one.
#[verifier::external_body]
fn table_get(table: &HashMap<u32, [u8; 6]>, key: u32) -> (found: Option<[u8; 6]>)
    ensures
        found == (if table_entries(*table).contains_key(key) {
            Some(table_entries(*table)[key])
        } else {
            None
        }),
{
    table.get(&key).copied()
}

/// `HashMap::insert`: afterwards `key` maps to `value` and every other key
/// to what it mapped to before; the value that `key` had is handed back.
#[verifier::external_body]
fn table_insert(table: &mut HashMap<u32, [u8; 6]>, key: u32, value: [u8; 6]) -> (previous: Option<
    [u8; 6],
>)
    ensures
        table_entries(*final(table)) == table_entries(*old(table)).insert(key, value),
        previous == (if table_entries(*old(table)).contains_key(key) {
            Some(table_entries(*old(table))[key])
        } else {
            None
        }),
{
    table.insert(key, value)
}

/// `HashMap::clone`: a table of its own that holds the same entries.
#[verifier::external_body]
fn table_clone(table: &HashMap<u32, [u8; 6]>) -> (copy: HashMap<u32, [u8; 6]>)
    ensures
        table_entries(copy) == table_entries(*table),
{
    table.clone()
}

/// The mapping from addresses to addresses that a table spells.
pub open spec fn mapping_of(table: HashMap<u32, [u8; 6]>) -> Map<Ipv4Addr, MacAddress> {
    Map::new(
        |addr: Ipv4Addr| table_entries(table).contains_key(addr.bits),
        |addr: Ipv4Addr| MacAddress { octets: table_entries(table)[addr.bits] },
    )
}

/// The version tag that follows `version`. It wraps round; only that it
/// was written matters to those who wait.
pub open spec fn next_version(version: u64) -> u64 {
    if version == u64::MAX {
        0
    } else {
        (version + 1) as u64
    }
}

/// The resolution cache.
pub struct ArpCache {
    table: HashMap<u32, [u8; 6]>,
    version: WatchedValue<u64>,
}

impl View for ArpCache {
    type V = Map<Ipv4Addr, MacAddress>;

    closed spec fn view(&self) -> Map<Ipv4Addr, MacAddress> {
        mapping_of(self.table)
    }
}

impl ArpCache {
    /// The watched version tag and those who wait on it.
    pub closed spec fn watchers(&self) -> WatchModel<u64> {
        self.version@
    }

    /// The wait list of the version tag is in order.
    pub closed spec fn wf(&self) -> bool {
        self.version.wf()
    }

    /// A well-formed cache has well-formed watchers.
    pub proof fn lemma_watchers_wf(&self)
        requires
            self.wf(),
        ensures
            self.watchers().wf(),
    {
        self.version.lemma_view_wf();
    }

    /// A cache that knows nobody, with nobody waiting.
    pub fn new() -> (cache: Self)
        ensures
            cache.wf(),
            cache@ == Map::<Ipv4Addr, MacAddress>::empty(),
            cache.watchers() == WatchModel::initial(0u64),
    {
        ArpCache { table: table_new(), version: WatchedValue::new(0) }
    }

    /// The link address that answers for `addr`, if the cache knows one.
    pub fn lookup(&self, addr: Ipv4Addr) -> (found: Option<MacAddress>)
        ensures
            found == (if self@.contains_key(addr) {
                Some(self@[addr])
            } else {
                None
            }),
    {
        match table_get(&self.table, addr.bits) {
            Some(octets) => Some(MacAddress { octets }),
            None => None,
        }
    }

    /// Records that `link_addr` answers for `addr`, and wakes everybody who
    /// waits on the cache, whether this entry is the one they wait for or
    /// not. Hands back the link address that `addr` had.
    pub fn insert(&mut self, addr: Ipv4Addr, link_addr: MacAddress) -> (previous: Option<
        MacAddress,
    >)
        requires
            old(self).wf(),
        ensures
            final(self).wf(),
            final(self)@ == old(self)@.insert(addr, link_addr),
            final(self).watchers() == old(self).watchers().mutate(
                next_version(old(self).watchers().value),
            ),
            previous == (if old(self)@.contains_key(addr) {
                Some(old(self)@[addr])
            } else {
                None
            }),
    {
        let previous = match table_insert(&mut self.table, addr.bits, link_addr.octets) {
            Some(octets) => Some(MacAddress { octets }),
            None => None,
        };
        let current = self.version.get();
        let next = if current == u64::MAX {
            0
        } else {
            current + 1
        };
        self.version.set(next);
        previous
    }

    /// Replaces what the cache knows by what `table` holds. Nobody is
    /// woken: this is for setting a cache up, before anybody waits.
    pub fn import(&mut self, table: HashMap<u32, [u8; 6]>)
        requires
            old(self).wf(),
        ensures
            final(self).wf(),
            final(self)@ == mapping_of(table),
            final(self).watchers() == old(self).watchers(),
    {
        self.table = table;
    }

    /// A copy of what the cache knows.
    pub fn export(&self) -> (table: HashMap<u32, [u8; 6]>)
        ensures
            mapping_of(table) == self@,
    {
        table_clone(&self.table)
    }

    /// A future that is ready once the cache has been written to after the
    /// future's first poll.
    pub fn watch(&mut self) -> (future: WatchFuture)
        requires
            old(self).wf(),
        ensures
            final(self).wf(),
            final(self)@ == old(self)@,
            !old(self).watchers().nodes.contains_key(future.handle()),
            final(self).watchers() == old(self).watchers().watch(future.handle()),
    {
        let (_version, future) = self.version.watch();
        future
    }

    /// How many futures wait for the cache to change.
    pub fn waiters(&self) -> (count: usize)
        requires
            self.wf(),
        ensures
            count == self.watchers().waiters.len(),
    {
        self.version.waiters()
    }

    /// Whether `future` came from this cache and has not been dropped.
    pub fn owns(&self, future: &WatchFuture) -> (held: bool)
        ensures
            held == self.watchers().nodes.contains_key(future.handle()),
    {
        self.version.owns(future)
    }

    /// Polls a future that [`ArpCache::watch`] made.
    pub fn poll_watch(&mut self, future: &mut WatchFuture, cx: &mut Context<'_>) -> (status: Poll<
        (),
    >)
        requires
            old(self).wf(),
            old(self).watchers().nodes.contains_key(old(future).handle()),
        ensures
            final(self).wf(),
            final(self)@ == old(self)@,
            final(future).handle() == old(future).handle(),
            final(self).watchers() == old(self).watchers().poll(
                old(future).handle(),
                final(self).watchers().tasks[old(future).handle()],
            ),
            status == (if old(self).watchers().nodes[old(future).handle()]
                == WatchState::Completed {
                Poll::Ready(())
            } else {
                Poll::Pending
            }),
    {
        future.poll(&mut self.version, cx)
    }

    /// Gives up a future that [`ArpCache::watch`] made.
    pub fn drop_watch(&mut self, future: WatchFuture)
        requires
            old(self).wf(),
            old(self).watchers().nodes.contains_key(future.handle()),
        ensures
            final(self).wf(),
            final(self)@ == old(self)@,
            final(self).watchers() == old(self).watchers().release(future.handle()),
            final(self).watchers().has_left(old(self).watchers(), future.handle()),
    {
        future.drop(&mut self.version)
    }
}

} // verus!
