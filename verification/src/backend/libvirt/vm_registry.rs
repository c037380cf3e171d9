//! A registry of the VMs this host is building, to find orphans (whose
//! creator process is gone) and stale builds. Reading and writing the
//! registry file, the clock and process lookups happen outside; this type
//! holds the entries and their rules.
use vstd::prelude::*;
use crate::path::path_join;
use crate::path::join_path;
use crate::text::{owned, str_eq};

verus! {

/// One registered VM.
#[derive(Debug, Clone)]
pub struct VmRegistryEntry {
    /// VM name.
    pub name: String,
    /// Creation time, Unix seconds.
    pub created_at: u64,
    /// Static IP address, if assigned.
    pub static_ip: Option<String>,
    /// PID of the process that created the VM.
    pub creator_pid: u32,
    /// Build status.
    pub status: VmStatus,
    /// Last update time, Unix seconds.
    pub updated_at: u64,
}

/// Build status of a registered VM.
#[derive(Debug, Clone, Copy, PartialEq, Eq, Structural)]
pub enum VmStatus {
    /// Being created.
    Creating,
    /// Being built.
    Building,
    /// Running.
    Running,
    /// Failed.
    Failed,
    /// Completed.
    Completed,
}

/// A copy of an entry with the same field values.
pub open spec fn same_entry(a: VmRegistryEntry, b: VmRegistryEntry) -> bool {
    &&& a.name@ == b.name@
    &&& a.created_at == b.created_at
    &&& a.static_ip == b.static_ip
    &&& a.creator_pid == b.creator_pid
    &&& a.status == b.status
    &&& a.updated_at == b.updated_at
}

impl VmRegistryEntry {
    /// A copy of the entry.
    pub fn duplicate(&self) -> (r: Self)
        ensures
            same_entry(r, *self),
            r.name == self.name,
    {
        VmRegistryEntry {
            name: self.name.clone(),
            created_at: self.created_at,
            static_ip: match &self.static_ip {
                Some(s) => Some(s.clone()),
                None => None,
            },
            creator_pid: self.creator_pid,
            status: self.status,
            updated_at: self.updated_at,
        }
    }
}

/// The VM registry: its file and its entries, at most one per name.
pub struct VmRegistry {
    registry_path: String,
    entries: Vec<VmRegistryEntry>,
}

/// No two entries share a name.
pub open spec fn distinct_names(es: Seq<VmRegistryEntry>) -> bool {
    forall|i: int, j: int| 0 <= i < j < es.len() ==> #[trigger] es[i].name@ != #[trigger] es[j].name@
}

/// The position of the entry named `name`, if there is one.
pub open spec fn index_of(es: Seq<VmRegistryEntry>, name: Seq<char>) -> Option<int> {
    if exists|i: int| 0 <= i < es.len() && #[trigger] es[i].name@ == name {
        Some(choose|i: int| 0 <= i < es.len() && #[trigger] es[i].name@ == name)
    } else {
        None
    }
}

/// The entry named `name`, if there is one.
pub open spec fn lookup(es: Seq<VmRegistryEntry>, name: Seq<char>) -> Option<VmRegistryEntry> {
    match index_of(es, name) {
        Some(i) => Some(es[i]),
        None => None,
    }
}

/// The entries still being created or built whose last update is more than
/// `max_age` seconds before `now`, in registry order.
pub open spec fn stale_entries(es: Seq<VmRegistryEntry>, max_age: u64, now: u64) -> Seq<VmRegistryEntry>
    decreases es.len(),
{
    if es.len() == 0 {
        Seq::empty()
    } else {
        let rest = stale_entries(es.drop_last(), max_age, now);
        let e = es.last();
        if (e.status == VmStatus::Creating || e.status == VmStatus::Building) && now - e.updated_at
            > max_age {
            rest.push(e)
        } else {
            rest
        }
    }
}

/// The entries whose creator process is not among `live`, in registry
/// order.
pub open spec fn orphan_entries(es: Seq<VmRegistryEntry>, live: Seq<u32>) -> Seq<VmRegistryEntry>
    decreases es.len(),
{
    if es.len() == 0 {
        Seq::empty()
    } else {
        let rest = orphan_entries(es.drop_last(), live);
        if live.contains(es.last().creator_pid) {
            rest
        } else {
            rest.push(es.last())
        }
    }
}

/// Every entry still being created or built was updated no later than
/// `now`, so its age can be taken.
pub open spec fn ages_defined(es: Seq<VmRegistryEntry>, now: u64) -> bool {
    forall|i: int|
        0 <= i < es.len() && (#[trigger] es[i].status == VmStatus::Creating || es[i].status
            == VmStatus::Building) ==> es[i].updated_at <= now
}

/// `e` holds the values of one of the `loaded` entries.
pub open spec fn loaded_from(e: VmRegistryEntry, loaded: Seq<VmRegistryEntry>) -> bool {
    exists|j: int| 0 <= j < loaded.len() && same_entry(e, loaded[j])
}

/// Every entry holds the values of one of the `loaded` entries.
pub open spec fn all_loaded(es: Seq<VmRegistryEntry>, loaded: Seq<VmRegistryEntry>) -> bool {
    forall|i: int| 0 <= i < es.len() ==> #[trigger] loaded_from(es[i], loaded)
}

/// Entry-wise sameness of two entry lists.
pub open spec fn same_entries(a: Seq<VmRegistryEntry>, b: Seq<VmRegistryEntry>) -> bool {
    a.len() == b.len() && forall|i: int| 0 <= i < a.len() ==> same_entry(#[trigger] a[i], b[i])
}

/// Where the registry lives by default: `benchscale/vm_registry.json` in
/// the user's cache directory, else in `/tmp`.
pub open spec fn default_registry_path(cache_dir: Option<Seq<char>>) -> Seq<char> {
    let base = match cache_dir {
        Some(d) => d,
        None => "/tmp"@,
    };
    path_join(path_join(base, "benchscale"@), "vm_registry.json"@)
}

impl VmRegistry {
    #[verifier::type_invariant]
    spec fn names_distinct(&self) -> bool {
        distinct_names(self.entries@)
    }

    /// The entries, in registry order.
    pub closed spec fn entries_spec(&self) -> Seq<VmRegistryEntry> {
        self.entries@
    }

    /// The registry file.
    pub closed spec fn path_spec(&self) -> Seq<char> {
        self.registry_path@
    }

    /// The default registry file, given the user's cache directory.
    pub fn default_path(cache_dir: Option<&str>) -> (r: String)
        ensures
            r@ == default_registry_path(match cache_dir {
                Some(d) => Some(d@),
                None => None,
            }),
    {
        let base = match cache_dir {
            Some(d) => owned(d),
            None => owned("/tmp"),
        };
        let dir = join_path(base.as_str(), "benchscale");
        join_path(dir.as_str(), "vm_registry.json")
    }

    /// An empty registry kept in `path`.
    pub fn new(path: &str) -> (r: Self)
        ensures
            r.entries_spec().len() == 0,
            r.path_spec() == path@,
    {
        VmRegistry { registry_path: owned(path), entries: Vec::new() }
    }

    /// A registry kept in `path` holding the loaded entries; of entries
    /// that share a name the later one wins.
    pub fn from_entries(path: &str, loaded: Vec<VmRegistryEntry>) -> (r: Self)
        ensures
            r.path_spec() == path@,
            all_loaded(r.entries_spec(), loaded@),
            forall|j: int| 0 <= j < loaded@.len() ==> #[trigger] lookup(r.entries_spec(), loaded@[j].name@) is Some,
    {
        let mut reg = VmRegistry::new(path);
        let mut k: usize = 0;
        while k < loaded.len()
            invariant
                k <= loaded.len(),
                reg.path_spec() == path@,
                all_loaded(reg.entries_spec(), loaded@),
                forall|j: int| 0 <= j < k ==> #[trigger] lookup(reg.entries_spec(), loaded@[j].name@) is Some,
            decreases loaded.len() - k,
        {
            let e = loaded[k].duplicate();
            let ghost before = reg.entries_spec();
            proof {
                use_type_invariant(&reg);
            }
            reg.insert_entry(e);
            proof {
                use_type_invariant(&reg);
                let after = reg.entries_spec();
                assert forall|i: int| 0 <= i < after.len() implies #[trigger] loaded_from(after[i], loaded@) by {
                    if after[i] == e {
                        assert(same_entry(after[i], loaded@[k as int]));
                    } else {
                        assert(before.contains(after[i]));
                        let m = choose|m: int| 0 <= m < before.len() && before[m] == after[i];
                        assert(loaded_from(before[m], loaded@));
                    }
                }
                assert forall|j: int| 0 <= j < k + 1 implies #[trigger] lookup(after, loaded@[j].name@) is Some by {
                    if loaded@[j].name@ != e.name@ {
                        lemma_lookup_other(before, after, e, loaded@[j].name@);
                    }
                }
            }
            k = k + 1;
        }
        reg
    }

    /// Adds an entry, replacing the one of the same name if there is one.
    pub fn insert_entry(&mut self, entry: VmRegistryEntry)
        ensures
            final(self).path_spec() == old(self).path_spec(),
            match index_of(old(self).entries_spec(), entry.name@) {
                Some(i) => final(self).entries_spec() == old(self).entries_spec().update(i, entry),
                None => final(self).entries_spec() == old(self).entries_spec().push(entry),
            },
            lookup(final(self).entries_spec(), entry.name@) == Some(entry),
            forall|i: int| 0 <= i < final(self).entries_spec().len() ==> (#[trigger] final(self).entries_spec()[i] == entry
                || old(self).entries_spec().contains(final(self).entries_spec()[i])),
    {
        proof {
            use_type_invariant(&*self);
        }
        let ghost old_es = self.entries@;
        match self.position(entry.name.as_str()) {
            Some(i) => {
                let ghost n = entry.name@;
                let mut entries: Vec<VmRegistryEntry> = Vec::new();
                std::mem::swap(&mut entries, &mut self.entries);
                entries.set(i, entry);
                proof {
                    assert(entries@ == old_es.update(i as int, entry));
                    assert(old_es[i as int].name@ == n);
                    assert forall|a: int, b: int| 0 <= a < b < entries@.len() implies #[trigger] entries@[a].name@
                        != #[trigger] entries@[b].name@ by {
                        if a != i && b != i {
                            assert(old_es[a].name@ != old_es[b].name@);
                        } else if a == i {
                            assert(old_es[a].name@ != old_es[b].name@);
                        } else {
                            assert(old_es[a].name@ != old_es[b].name@);
                        }
                    }
                    assert(entries@[i as int].name@ == n);
                    let c = choose|c: int| 0 <= c < entries@.len() && #[trigger] entries@[c].name@ == n;
                    if c != i {
                        assert(entries@[c].name@ != entries@[i as int].name@);
                    }
                    assert(index_of(entries@, n) == Some(i as int));
                }
                self.entries = entries;
            },
            None => {
                let mut entries: Vec<VmRegistryEntry> = Vec::new();
                std::mem::swap(&mut entries, &mut self.entries);
                entries.push(entry);
                proof {
                    assert(entries@ == old_es.push(entry));
                    assert forall|a: int, b: int| 0 <= a < b < entries@.len() implies #[trigger] entries@[a].name@
                        != #[trigger] entries@[b].name@ by {
                        if b == old_es.len() {
                            assert(old_es[a].name@ != entry.name@);
                        }
                    }
                    assert(entries@[old_es.len() as int].name@ == entry.name@);
                    assert(index_of(entries@, entry.name@) == Some(old_es.len() as int));
                }
                self.entries = entries;
            },
        }
        proof {
            assert forall|i: int| 0 <= i < self.entries@.len() implies (#[trigger] self.entries@[i] == entry
                || old_es.contains(self.entries@[i])) by {
                if self.entries@[i] != entry {
                    assert(old_es[i] == self.entries@[i]);
                }
            }
        }
    }

    fn position(&self, name: &str) -> (r: Option<usize>)
        ensures
            match r {
                Some(i) => index_of(self.entries_spec(), name@) == Some(i as int),
                None => index_of(self.entries_spec(), name@) is None,
            },
    {
        proof {
            use_type_invariant(self);
        }
        let mut i: usize = 0;
        while i < self.entries.len()
            invariant
                i <= self.entries.len(),
                distinct_names(self.entries@),
                forall|j: int| 0 <= j < i ==> #[trigger] self.entries@[j].name@ != name@,
            decreases self.entries.len() - i,
        {
            if str_eq(self.entries[i].name.as_str(), name) {
                proof {
                    let c = choose|c: int| 0 <= c < self.entries@.len() && #[trigger] self.entries@[c].name@ == name@;
                    if c != i {
                        assert(self.entries@[c].name@ == self.entries@[i as int].name@);
                    }
                }
                return Some(i);
            }
            i = i + 1;
        }
        None
    }

    /// Registers a VM as being created by process `creator_pid` at `now`,
    /// replacing an entry of the same name.
    pub fn register(&mut self, name: String, static_ip: Option<String>, now: u64, creator_pid: u32)
        ensures
            final(self).path_spec() == old(self).path_spec(),
            lookup(final(self).entries_spec(), name@) matches Some(e) && e.name == name && e.created_at == now
                && e.updated_at == now && e.static_ip == static_ip && e.creator_pid == creator_pid
                && e.status == VmStatus::Creating,
            forall|n: Seq<char>| n != name@ ==> lookup(final(self).entries_spec(), n) == lookup(
                old(self).entries_spec(),
                n,
            ),
    {
        let entry = VmRegistryEntry {
            name,
            created_at: now,
            static_ip,
            creator_pid,
            status: VmStatus::Creating,
            updated_at: now,
        };
        let ghost e = entry;
        let ghost old_es = self.entries_spec();
        proof {
            use_type_invariant(&*self);
        }
        self.insert_entry(entry);
        proof {
            use_type_invariant(&*self);
            let new_es = self.entries_spec();
            assert forall|n: Seq<char>| n != e.name@ implies lookup(new_es, n) == lookup(old_es, n) by {
                lemma_lookup_other(old_es, new_es, e, n);
            }
        }
    }

    /// Sets a registered VM's status, stamped `now`. Returns whether the VM
    /// was registered; otherwise nothing changes.
    pub fn update_status(&mut self, name: &str, status: VmStatus, now: u64) -> (r: bool)
        ensures
            final(self).path_spec() == old(self).path_spec(),
            r == (index_of(old(self).entries_spec(), name@) is Some),
            match index_of(old(self).entries_spec(), name@) {
                Some(i) => final(self).entries_spec() == old(self).entries_spec().update(
                    i,
                    VmRegistryEntry { status, updated_at: now, ..old(self).entries_spec()[i] },
                ),
                None => final(self).entries_spec() == old(self).entries_spec(),
            },
    {
        proof {
            use_type_invariant(&*self);
        }
        let ghost old_es = self.entries@;
        match self.position(name) {
            Some(i) => {
                let mut entries: Vec<VmRegistryEntry> = Vec::new();
                std::mem::swap(&mut entries, &mut self.entries);
                let old_e = entries[i].duplicate();
                let e = VmRegistryEntry {
                    name: entries[i].name.clone(),
                    created_at: old_e.created_at,
                    static_ip: old_e.static_ip,
                    creator_pid: old_e.creator_pid,
                    status,
                    updated_at: now,
                };
                let ghost ee = e;
                entries.set(i, e);
                proof {
                    assert(ee == VmRegistryEntry { status, updated_at: now, ..old_es[i as int] });
                    assert forall|a: int, b: int| 0 <= a < b < entries@.len() implies #[trigger] entries@[a].name@
                        != #[trigger] entries@[b].name@ by {
                        assert(old_es[a].name@ != old_es[b].name@);
                    }
                }
                self.entries = entries;
                true
            },
            None => false,
        }
    }

    /// Removes a VM. Returns whether it was registered.
    pub fn unregister(&mut self, name: &str) -> (r: bool)
        ensures
            final(self).path_spec() == old(self).path_spec(),
            r == (index_of(old(self).entries_spec(), name@) is Some),
            match index_of(old(self).entries_spec(), name@) {
                Some(i) => final(self).entries_spec() == old(self).entries_spec().remove(i),
                None => final(self).entries_spec() == old(self).entries_spec(),
            },
            lookup(final(self).entries_spec(), name@) is None,
    {
        proof {
            use_type_invariant(&*self);
        }
        let ghost old_es = self.entries@;
        match self.position(name) {
            Some(i) => {
                let mut entries: Vec<VmRegistryEntry> = Vec::new();
                std::mem::swap(&mut entries, &mut self.entries);
                let _removed = entries.remove(i);
                proof {
                    assert(entries@ == old_es.remove(i as int));
                    assert forall|a: int, b: int| 0 <= a < b < entries@.len() implies #[trigger] entries@[a].name@
                        != #[trigger] entries@[b].name@ by {
                        let a0 = if a < i { a } else { a + 1 };
                        let b0 = if b < i { b } else { b + 1 };
                        assert(old_es[a0].name@ != old_es[b0].name@);
                    }
                    if exists|k: int| 0 <= k < entries@.len() && #[trigger] entries@[k].name@ == name@ {
                        let k = choose|k: int| 0 <= k < entries@.len() && #[trigger] entries@[k].name@ == name@;
                        let k0 = if k < i { k } else { k + 1 };
                        assert(old_es[k0].name@ == name@);
                        assert(old_es[i as int].name@ == name@);
                    }
                }
                self.entries = entries;
                true
            },
            None => false,
        }
    }

    /// Copies of all entries, in registry order.
    pub fn list_all(&self) -> (r: Vec<VmRegistryEntry>)
        ensures
            same_entries(r@, self.entries_spec()),
    {
        let mut out: Vec<VmRegistryEntry> = Vec::new();
        let mut i: usize = 0;
        while i < self.entries.len()
            invariant
                i <= self.entries.len(),
                same_entries(out@, self.entries@.take(i as int)),
            decreases self.entries.len() - i,
        {
            out.push(self.entries[i].duplicate());
            i = i + 1;
        }
        out
    }

    /// The creator PIDs of the entries, in registry order (whose liveness
    /// the caller looks up for [`VmRegistry::find_orphans`]).
    pub fn creator_pids(&self) -> (r: Vec<u32>)
        ensures
            r@ == self.entries_spec().map_values(|e: VmRegistryEntry| e.creator_pid),
    {
        let mut out: Vec<u32> = Vec::new();
        let mut i: usize = 0;
        while i < self.entries.len()
            invariant
                i <= self.entries.len(),
                out@ == self.entries@.take(i as int).map_values(|e: VmRegistryEntry| e.creator_pid),
            decreases self.entries.len() - i,
        {
            out.push(self.entries[i].creator_pid);
            proof {
                assert(self.entries@.take(i + 1).map_values(|e: VmRegistryEntry| e.creator_pid)
                    =~= self.entries@.take(i as int).map_values(|e: VmRegistryEntry| e.creator_pid).push(
                    self.entries@[i as int].creator_pid,
                ));
            }
            i = i + 1;
        }
        proof {
            assert(self.entries@.take(self.entries@.len() as int) =~= self.entries@);
        }
        out
    }

    /// The entries whose creator process is no longer alive, given the
    /// PIDs that are.
    pub fn find_orphans(&self, live_pids: &[u32]) -> (r: Vec<VmRegistryEntry>)
        ensures
            same_entries(r@, orphan_entries(self.entries_spec(), live_pids@)),
    {
        let mut out: Vec<VmRegistryEntry> = Vec::new();
        let mut i: usize = 0;
        while i < self.entries.len()
            invariant
                i <= self.entries.len(),
                same_entries(out@, orphan_entries(self.entries@.take(i as int), live_pids@)),
            decreases self.entries.len() - i,
        {
            proof {
                assert(self.entries@.take(i + 1).drop_last() =~= self.entries@.take(i as int));
            }
            let pid = self.entries[i].creator_pid;
            let mut alive = false;
            let mut j: usize = 0;
            while j < live_pids.len()
                invariant
                    j <= live_pids.len(),
                    alive == (exists|k: int| 0 <= k < j && live_pids@[k] == pid),
                decreases live_pids.len() - j,
            {
                if live_pids[j] == pid {
                    alive = true;
                }
                j = j + 1;
            }
            proof {
                if alive {
                    let k = choose|k: int| 0 <= k < live_pids@.len() && live_pids@[k] == pid;
                    assert(live_pids@.contains(pid));
                }
            }
            if !alive {
                out.push(self.entries[i].duplicate());
            }
            i = i + 1;
        }
        proof {
            assert(self.entries@.take(self.entries@.len() as int) =~= self.entries@);
        }
        out
    }

    /// The entries still being created or built whose last update is more
    /// than `max_age_secs` before `now`.
    pub fn find_stale(&self, max_age_secs: u64, now: u64) -> (r: Vec<VmRegistryEntry>)
        requires
            ages_defined(self.entries_spec(), now),
        ensures
            same_entries(r@, stale_entries(self.entries_spec(), max_age_secs, now)),
    {
        let mut out: Vec<VmRegistryEntry> = Vec::new();
        let mut i: usize = 0;
        while i < self.entries.len()
            invariant
                i <= self.entries.len(),
                ages_defined(self.entries@, now),
                same_entries(out@, stale_entries(self.entries@.take(i as int), max_age_secs, now)),
            decreases self.entries.len() - i,
        {
            proof {
                assert(self.entries@.take(i + 1).drop_last() =~= self.entries@.take(i as int));
            }
            let e = &self.entries[i];
            if (e.status == VmStatus::Creating || e.status == VmStatus::Building) && now - e.updated_at
                > max_age_secs {
                out.push(e.duplicate());
            }
            i = i + 1;
        }
        proof {
            assert(self.entries@.take(self.entries@.len() as int) =~= self.entries@);
        }
        out
    }

    /// The registry file.
    pub fn path(&self) -> (r: &str)
        ensures
            r@ == self.path_spec(),
    {
        self.registry_path.as_str()
    }

    /// Removes every entry.
    pub fn clear(&mut self)
        ensures
            final(self).entries_spec().len() == 0,
            final(self).path_spec() == old(self).path_spec(),
    {
        self.entries = Vec::new();
    }

    /// The number of entries.
    pub fn len(&self) -> (r: usize)
        ensures
            r == self.entries_spec().len(),
    {
        self.entries.len()
    }

    /// The entry named `name`, copied, if there is one.
    pub fn get(&self, name: &str) -> (r: Option<VmRegistryEntry>)
        ensures
            match lookup(self.entries_spec(), name@) {
                Some(e) => r matches Some(c) && same_entry(c, e),
                None => r is None,
            },
    {
        match self.position(name) {
            Some(i) => Some(self.entries[i].duplicate()),
            None => None,
        }
    }
}

proof fn lemma_lookup_other(old_es: Seq<VmRegistryEntry>, new_es: Seq<VmRegistryEntry>, e: VmRegistryEntry, n: Seq<char>)
    requires
        distinct_names(old_es),
        distinct_names(new_es),
        n != e.name@,
        match index_of(old_es, e.name@) {
            Some(i) => new_es == old_es.update(i, e),
            None => new_es == old_es.push(e),
        },
    ensures
        lookup(new_es, n) == lookup(old_es, n),
{
    if exists|i: int| 0 <= i < old_es.len() && #[trigger] old_es[i].name@ == n {
        let i = choose|i: int| 0 <= i < old_es.len() && #[trigger] old_es[i].name@ == n;
        assert(new_es[i] == old_es[i]);
        let k = choose|k: int| 0 <= k < new_es.len() && #[trigger] new_es[k].name@ == n;
        assert(new_es[k].name@ == new_es[i].name@);
    } else {
        if exists|k: int| 0 <= k < new_es.len() && #[trigger] new_es[k].name@ == n {
            let k = choose|k: int| 0 <= k < new_es.len() && #[trigger] new_es[k].name@ == n;
            assert(new_es[k] != e);
            assert(old_es[k] == new_es[k]);
        }
    }
}

/// A VM registered and then looked up is found with what was registered;
/// every other name keeps what it had.
pub proof fn law_register_then_lookup(
    before: Seq<VmRegistryEntry>,
    after: Seq<VmRegistryEntry>,
    e: VmRegistryEntry,
    other: Seq<char>,
)
    requires
        distinct_names(before),
        distinct_names(after),
        match index_of(before, e.name@) {
            Some(i) => after == before.update(i, e),
            None => after == before.push(e),
        },
    ensures
        lookup(after, e.name@) == Some(e),
        other != e.name@ ==> lookup(after, other) == lookup(before, other),
{
    match index_of(before, e.name@) {
        Some(i) => {
            assert(after[i].name@ == e.name@);
            let k = choose|k: int| 0 <= k < after.len() && #[trigger] after[k].name@ == e.name@;
            assert(after[k].name@ == after[i].name@);
        },
        None => {
            assert(after[before.len() as int].name@ == e.name@);
            let k = choose|k: int| 0 <= k < after.len() && #[trigger] after[k].name@ == e.name@;
            if k != before.len() {
                assert(before[k].name@ == e.name@);
            }
        },
    }
    if other != e.name@ {
        lemma_lookup_other(before, after, e, other);
    }
}


/// A VM unregistered is no longer found; every other name keeps what it
/// had.
pub proof fn law_unregister_keeps_others(
    before: Seq<VmRegistryEntry>,
    after: Seq<VmRegistryEntry>,
    name: Seq<char>,
    other: Seq<char>,
)
    requires
        distinct_names(before),
        match index_of(before, name) {
            Some(i) => after == before.remove(i),
            None => after == before,
        },
    ensures
        lookup(after, name) is None,
        other != name ==> lookup(after, other) == lookup(before, other),
{
    match index_of(before, name) {
        Some(i) => {
            assert(before[i].name@ == name);
            if exists|k: int| 0 <= k < after.len() && #[trigger] after[k].name@ == name {
                let k = choose|k: int| 0 <= k < after.len() && #[trigger] after[k].name@ == name;
                let k0 = if k < i { k } else { k + 1 };
                assert(after[k] == before[k0]);
                assert(before[k0].name@ == before[i].name@);
            }
            if other != name {
                if exists|j: int| 0 <= j < before.len() && #[trigger] before[j].name@ == other {
                    let c = choose|j: int| 0 <= j < before.len() && #[trigger] before[j].name@ == other;
                    assert(c != i);
                    let c1 = if c < i { c } else { c - 1 };
                    assert(after[c1] == before[c]);
                    assert(after[c1].name@ == other);
                    let k = choose|k: int| 0 <= k < after.len() && #[trigger] after[k].name@ == other;
                    let k0 = if k < i { k } else { k + 1 };
                    assert(after[k] == before[k0]);
                    assert(before[k0].name@ == before[c].name@);
                    assert(k0 == c);
                } else {
                    if exists|k: int| 0 <= k < after.len() && #[trigger] after[k].name@ == other {
                        let k = choose|k: int| 0 <= k < after.len() && #[trigger] after[k].name@ == other;
                        let k0 = if k < i { k } else { k + 1 };
                        assert(after[k] == before[k0]);
                        assert(before[k0].name@ == other);
                    }
                }
            }
        },
        None => {},
    }
}


/// The stale builds are exactly the entries still being created or built
/// whose last update lies more than `max_age` seconds before `now`: every
/// such entry is reported, and every reported entry is one of them.
pub proof fn law_stale_entries_are_old_builds(es: Seq<VmRegistryEntry>, max_age: u64, now: u64)
    ensures
        forall|i: int|
            0 <= i < es.len() && (es[i].status == VmStatus::Creating || es[i].status == VmStatus::Building)
                && now - es[i].updated_at > max_age ==> #[trigger] stale_entries(es, max_age, now).contains(es[i]),
        forall|k: int|
            0 <= k < stale_entries(es, max_age, now).len() ==> {
                let e = #[trigger] stale_entries(es, max_age, now)[k];
                &&& es.contains(e)
                &&& e.status == VmStatus::Creating || e.status == VmStatus::Building
                &&& now - e.updated_at > max_age
            },
    decreases es.len(),
{
    if es.len() > 0 {
        let init = es.drop_last();
        law_stale_entries_are_old_builds(init, max_age, now);
        let rest = stale_entries(init, max_age, now);
        let st = stale_entries(es, max_age, now);
        assert forall|i: int|
            0 <= i < es.len() && (es[i].status == VmStatus::Creating || es[i].status == VmStatus::Building)
                && now - es[i].updated_at > max_age implies #[trigger] st.contains(es[i]) by {
            if i < es.len() - 1 {
                assert(init[i] == es[i]);
                assert(rest.contains(es[i]));
                let j = choose|j: int| 0 <= j < rest.len() && rest[j] == es[i];
                assert(st[j] == rest[j]);
            } else {
                assert(st[st.len() - 1] == es[i]);
            }
        }
        assert forall|k: int| 0 <= k < st.len() implies {
            let e = #[trigger] st[k];
            &&& es.contains(e)
            &&& e.status == VmStatus::Creating || e.status == VmStatus::Building
            &&& now - e.updated_at > max_age
        } by {
            if k < rest.len() {
                assert(st[k] == rest[k]);
                let e = rest[k];
                assert(init.contains(e));
                let j = choose|j: int| 0 <= j < init.len() && init[j] == e;
                assert(es[j] == e);
            } else {
                assert(st[k] == es.last());
                assert(es[es.len() - 1] == es.last());
            }
        }
    }
}

} // verus!
