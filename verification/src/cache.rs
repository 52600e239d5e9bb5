//! The caches that stand before the key-value store: task configurations
//! and bearer tokens by task, and HPKE receiver configurations by version.
//!
//! A cache decides; the caller fetches. A lookup either hits or names the
//! key to fetch; the caller hands back what it fetched.

use vstd::prelude::*;
use vstd::utf8::encode_utf8;
use crate::admin::HpkeReceiverConfig;
use crate::base64url::{encode, encoded};
use crate::messages::{DapVersion, TaskId};
use crate::names::{append_bytes, version_as_bytes, version_text};

verus! {

/// What is cached by task.
pub struct TaskCache<V> {
    entries: Vec<(TaskId, V)>,
    map: Ghost<Map<Seq<u8>, V>>,
}

impl<V> View for TaskCache<V> {
    type V = Map<Seq<u8>, V>;

    closed spec fn view(&self) -> Map<Seq<u8>, V> {
        self.map@
    }
}

/// The key under which the value for a task stands in the key-value store:
/// the prefix, a slash, and the task identifier in URL-safe base64.
pub open spec fn kv_key_for(prefix: Seq<char>, task_id: Seq<u8>) -> Seq<u8> {
    encode_utf8(prefix) + encode_utf8("/"@) + encoded(task_id)
}

/// The key under which the HPKE receiver configurations of a version
/// stand in the key-value store.
pub open spec fn kv_key_for_version(prefix: Seq<char>, version: DapVersion) -> Seq<u8> {
    encode_utf8(prefix) + encode_utf8("/"@) + version_text(version)
}

/// Writes the key under which the value for a task stands.
pub fn kv_key(prefix: &str, task_id: &TaskId) -> (r: Vec<u8>)
    ensures
        r@ == kv_key_for(prefix@, task_id@),
{
    let mut out: Vec<u8> = Vec::new();
    append_bytes(&mut out, prefix.as_bytes());
    append_bytes(&mut out, "/".as_bytes());
    let id = encode(task_id.bytes.as_slice());
    append_bytes(&mut out, id.as_slice());
    out
}

/// Writes the key under which the HPKE receiver configurations of a
/// version stand.
pub fn kv_key_version(prefix: &str, version: DapVersion) -> (r: Vec<u8>)
    requires
        version != DapVersion::Unknown,
    ensures
        r@ == kv_key_for_version(prefix@, version),
{
    let mut out: Vec<u8> = Vec::new();
    append_bytes(&mut out, prefix.as_bytes());
    append_bytes(&mut out, "/".as_bytes());
    let name = version_as_bytes(version);
    append_bytes(&mut out, name.as_slice());
    out
}

impl<V> TaskCache<V> {
    /// Whether what is stored is what `view` says.
    pub closed spec fn wf(&self) -> bool {
        &&& forall|i: int|
            0 <= i < self.entries@.len() ==> self.map@.dom().contains(
                (#[trigger] self.entries@[i]).0@,
            ) && self.map@[self.entries@[i].0@] == self.entries@[i].1
        &&& forall|k: Seq<u8>| #[trigger]
            self.map@.dom().contains(k) ==> exists|i: int|
                0 <= i < self.entries@.len() && (#[trigger] self.entries@[i]).0@ == k
        &&& forall|i: int, j: int|
            0 <= i < j < self.entries@.len() ==> self.entries@[i].0@ != self.entries@[j].0@
    }

    /// A cache that holds nothing.
    pub fn new() -> (r: TaskCache<V>)
        ensures
            r.wf(),
            r@ == Map::<Seq<u8>, V>::empty(),
    {
        TaskCache { entries: Vec::new(), map: Ghost(Map::empty()) }
    }

    /// The place of a task's value, if the cache holds one.
    fn find(&self, task_id: &TaskId) -> (r: Option<usize>)
        requires
            self.wf(),
        ensures
            match r {
                Some(i) => i < self.entries@.len() && self.entries@[i as int].0@ == task_id@,
                None => !self@.dom().contains(task_id@),
            },
    {
        let mut i: usize = 0;
        while i < self.entries.len()
            invariant
                self.wf(),
                i <= self.entries@.len(),
                forall|k: int| 0 <= k < i ==> (#[trigger] self.entries@[k]).0@ != task_id@,
            decreases self.entries@.len() - i,
        {
            if self.entries[i].0.same(task_id) {
                return Some(i);
            }
            i += 1;
        }
        proof {
            if self@.dom().contains(task_id@) {
                let k = choose|k: int|
                    0 <= k < self.entries@.len() && (#[trigger] self.entries@[k]).0@ == task_id@;
                assert(self.entries@[k].0@ == task_id@);
            }
        }
        None
    }

    /// The value that is cached for a task.
    pub fn get(&self, task_id: &TaskId) -> (r: Option<&V>)
        requires
            self.wf(),
        ensures
            match r {
                Some(value) => self@.dom().contains(task_id@) && *value == self@[task_id@],
                None => !self@.dom().contains(task_id@),
            },
    {
        match self.find(task_id) {
            Some(i) => Some(&self.entries[i].1),
            None => None,
        }
    }

    /// Caches a value for a task, in place of the one that was cached.
    pub fn insert(&mut self, task_id: TaskId, value: V)
        requires
            old(self).wf(),
        ensures
            final(self).wf(),
            final(self)@ == old(self)@.insert(task_id@, value),
    {
        let ghost before = self.entries@;
        let ghost after = self.map@.insert(task_id@, value);
        let place = self.find(&task_id);
        match place {
            Some(i) => {
                self.entries.set(i, (task_id, value));
            },
            None => {
                self.entries.push((task_id, value));
            },
        }
        self.map = Ghost(after);
        proof {
            assert forall|k: Seq<u8>| #[trigger] after.dom().contains(k) implies exists|i: int|
                0 <= i < self.entries@.len() && (#[trigger] self.entries@[i]).0@ == k by {
                if k == task_id@ {
                    match place {
                        Some(i) => {
                            assert(self.entries@[i as int].0@ == k);
                        },
                        None => {
                            assert(self.entries@[before.len() as int].0@ == k);
                        },
                    }
                } else {
                    let i = choose|i: int| 0 <= i < before.len() && (#[trigger] before[i]).0@ == k;
                    assert(self.entries@[i].0@ == k);
                }
            }
            assert forall|i: int, j: int| 0 <= i < j < self.entries@.len() implies self.entries@[i].0@
                != self.entries@[j].0@ by {
                if j < before.len() {
                    assert(before[i].0@ != before[j].0@);
                } else {
                    assert(old(self).map@.dom().contains(before[i].0@));
                }
            }
        }
    }

    /// Forgets everything.
    pub fn clear(&mut self)
        ensures
            final(self).wf(),
            final(self)@ == Map::<Seq<u8>, V>::empty(),
    {
        self.entries = Vec::new();
        self.map = Ghost(Map::empty());
    }
}

/// What a lookup in a cache comes to.
#[derive(Debug)]
pub enum CacheLookup<'a, V> {
    /// The value is cached.
    Hit(&'a V),
    /// The value is not cached; it is to be fetched under this key.
    Fetch(Vec<u8>),
}

/// Looks a task's value up: the cached value, or the key under which it is
/// to be fetched.
pub fn kv_get_cached<'a, V>(cache: &'a TaskCache<V>, kv_key_prefix: &str, task_id: &TaskId) -> (r:
    CacheLookup<'a, V>)
    requires
        cache.wf(),
    ensures
        match r {
            CacheLookup::Hit(value) => cache@.dom().contains(task_id@) && *value
                == cache@[task_id@],
            CacheLookup::Fetch(key) => !cache@.dom().contains(task_id@) && key@ == kv_key_for(
                kv_key_prefix@,
                task_id@,
            ),
        },
{
    match cache.get(task_id) {
        Some(value) => CacheLookup::Hit(value),
        None => CacheLookup::Fetch(kv_key(kv_key_prefix, task_id)),
    }
}

/// Takes what was fetched for a task into the cache, and hands out what the
/// cache holds for the task after that: what was fetched, or what was there
/// where nothing was fetched.
pub fn kv_fill_cached<V>(cache: &mut TaskCache<V>, task_id: &TaskId, fetched: Option<V>) -> (r: bool)
    requires
        old(cache).wf(),
    ensures
        final(cache).wf(),
        final(cache)@ == match fetched {
            Some(value) => old(cache)@.insert(task_id@, value),
            None => old(cache)@,
        },
        r == final(cache)@.dom().contains(task_id@),
{
    match fetched {
        Some(value) => {
            cache.insert(*task_id, value);
            true
        },
        None => cache.get(task_id).is_some(),
    }
}

/// What is to be done with a value that is to be set unless one exists.
#[derive(Debug)]
pub enum SetIfNotExists<V> {
    /// A value exists; it stays, and is handed back.
    Keep(V),
    /// No value exists; the new one is to be stored.
    Put(V),
}

/// Decides what to do with a value that is to be set unless one exists,
/// from what the key-value store holds under its key.
pub fn kv_set_if_not_exists<V>(existing: Option<V>, value: V) -> (r: SetIfNotExists<V>)
    ensures
        r == match existing {
            Some(found) => SetIfNotExists::Keep(found),
            None => SetIfNotExists::Put(value),
        },
{
    match existing {
        Some(found) => SetIfNotExists::Keep(found),
        None => SetIfNotExists::Put(value),
    }
}

/// The HPKE receiver configurations that are cached, by version.
pub struct HpkeConfigCache {
    pub draft02: Option<Vec<HpkeReceiverConfig>>,
    pub draft05: Option<Vec<HpkeReceiverConfig>>,
}

/// The place of the first configuration with the given identifier; the
/// length of the list where there is none.
pub open spec fn receiver_place(list: Seq<HpkeReceiverConfig>, id: u8) -> int
    decreases list.len(),
{
    if list.len() == 0 {
        0
    } else if list[0].config.id == id {
        0
    } else {
        1 + receiver_place(list.drop_first(), id)
    }
}

/// Finds the receiver configuration that a report names by identifier.
pub fn select_receiver(list: &Vec<HpkeReceiverConfig>, id: u8) -> (r: Option<usize>)
    ensures
        match r {
            Some(i) => i == receiver_place(list@, id) && i < list@.len() && list@[i as int].config.id
                == id,
            None => receiver_place(list@, id) == list@.len(),
        },
{
    let ghost all = list@;
    let mut i: usize = 0;
    assert(all.subrange(0, all.len() as int) =~= all);
    while i < list.len()
        invariant
            i <= list@.len(),
            list@ == all,
            receiver_place(all, id) == i + receiver_place(
                all.subrange(i as int, all.len() as int),
                id,
            ),
        decreases list@.len() - i,
    {
        let ghost rest = all.subrange(i as int, all.len() as int);
        assert(rest[0] == all[i as int]);
        assert(rest.drop_first() =~= all.subrange(i + 1, all.len() as int));
        if list[i].config.id == id {
            return Some(i);
        }
        i += 1;
    }
    assert(all.subrange(i as int, all.len() as int).len() == 0);
    None
}

impl HpkeConfigCache {
    /// A cache that holds nothing.
    pub fn new() -> (r: HpkeConfigCache)
        ensures
            r.draft02.is_none(),
            r.draft05.is_none(),
    {
        HpkeConfigCache { draft02: None, draft05: None }
    }

    /// The configurations that are cached for a version.
    pub open spec fn cached(&self, version: DapVersion) -> Option<Vec<HpkeReceiverConfig>> {
        match version {
            DapVersion::Draft02 => self.draft02,
            DapVersion::Draft05 => self.draft05,
            DapVersion::Unknown => None,
        }
    }

    /// The configurations that are cached for a version.
    pub fn get(&self, version: DapVersion) -> (r: Option<&Vec<HpkeReceiverConfig>>)
        ensures
            match r {
                Some(list) => self.cached(version) == Some(*list),
                None => self.cached(version).is_none(),
            },
    {
        match version {
            DapVersion::Draft02 => self.draft02.as_ref(),
            DapVersion::Draft05 => self.draft05.as_ref(),
            DapVersion::Unknown => None,
        }
    }

    /// Caches the configurations of a version, in place of those that were
    /// cached. Nothing is cached for an unknown version.
    pub fn insert(&mut self, version: DapVersion, list: Vec<HpkeReceiverConfig>)
        ensures
            final(self).cached(version) == if version == DapVersion::Unknown {
                None
            } else {
                Some(list)
            },
            forall|other: DapVersion|
                other != version ==> final(self).cached(other) == old(self).cached(other),
    {
        match version {
            DapVersion::Draft02 => {
                self.draft02 = Some(list);
            },
            DapVersion::Draft05 => {
                self.draft05 = Some(list);
            },
            DapVersion::Unknown => {},
        }
    }

    /// Forgets everything.
    pub fn clear(&mut self)
        ensures
            final(self).draft02.is_none(),
            final(self).draft05.is_none(),
    {
        self.draft02 = None;
        self.draft05 = None;
    }
}

/// What the process keeps between requests: the caches.
pub struct DaphneWorkerIsolateState {
    pub hpke_receiver_configs: HpkeConfigCache,
    pub leader_bearer_tokens: TaskCache<String>,
    pub collector_bearer_tokens: TaskCache<String>,
    pub tasks: TaskCache<crate::task::DapTaskConfig>,
}

impl DaphneWorkerIsolateState {
    /// Whether every cache is well formed.
    pub open spec fn wf(&self) -> bool {
        self.leader_bearer_tokens.wf() && self.collector_bearer_tokens.wf() && self.tasks.wf()
    }

    /// A state with empty caches.
    pub fn new() -> (r: DaphneWorkerIsolateState)
        ensures
            r.wf(),
            r.hpke_receiver_configs.draft02.is_none(),
            r.hpke_receiver_configs.draft05.is_none(),
            r.leader_bearer_tokens@ == Map::<Seq<u8>, String>::empty(),
            r.collector_bearer_tokens@ == Map::<Seq<u8>, String>::empty(),
            r.tasks@ == Map::<Seq<u8>, crate::task::DapTaskConfig>::empty(),
    {
        DaphneWorkerIsolateState {
            hpke_receiver_configs: HpkeConfigCache::new(),
            leader_bearer_tokens: TaskCache::new(),
            collector_bearer_tokens: TaskCache::new(),
            tasks: TaskCache::new(),
        }
    }

    /// Empties every cache.
    pub fn delete_all(&mut self)
        ensures
            final(self).wf(),
            final(self).hpke_receiver_configs.draft02.is_none(),
            final(self).hpke_receiver_configs.draft05.is_none(),
            final(self).leader_bearer_tokens@ == Map::<Seq<u8>, String>::empty(),
            final(self).collector_bearer_tokens@ == Map::<Seq<u8>, String>::empty(),
            final(self).tasks@ == Map::<Seq<u8>, crate::task::DapTaskConfig>::empty(),
    {
        self.hpke_receiver_configs.clear();
        self.leader_bearer_tokens.clear();
        self.collector_bearer_tokens.clear();
        self.tasks.clear();
    }
}

} // verus!
