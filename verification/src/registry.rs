use vstd::prelude::*;
use vstd::string::StringExecFns;

use crate::device::{DeviceManifest, DeviceManifestView};
use crate::time::system_time_millis;

verus! {

/// A manifest that has not been refreshed for this long (five minutes) is stale:
/// the device must re-broadcast.
pub const STALE_MILLIS: u64 = 300_000;

/// Whether an entry last seen at `last_seen_ms` is still fresh at `now_ms`
/// (a clock that reads earlier than `last_seen_ms` counts as no time passed).
pub open spec fn is_fresh(last_seen_ms: u64, now_ms: u64) -> bool {
    now_ms < last_seen_ms + STALE_MILLIS
}

struct RegistryEntry {
    manifest: DeviceManifest,
    last_seen_ms: u64,
}

/// The value of a registered device: its manifest and when it was last seen.
pub struct RegistryEntryView {
    pub manifest: DeviceManifestView,
    pub last_seen_ms: u64,
}

spec fn entry_view(e: RegistryEntry) -> RegistryEntryView {
    RegistryEntryView { manifest: e.manifest@, last_seen_ms: e.last_seen_ms }
}

spec fn key_at(s: Seq<RegistryEntry>, i: int) -> Seq<char> {
    s[i].manifest.device_id@
}

spec fn keys_unique(s: Seq<RegistryEntry>) -> bool {
    forall|i: int, j: int|
        0 <= i < s.len() && 0 <= j < s.len() && i != j ==> key_at(s, i) != key_at(s, j)
}

spec fn has_key(s: Seq<RegistryEntry>, k: Seq<char>) -> bool {
    exists|i: int| 0 <= i < s.len() && key_at(s, i) == k
}

spec fn index_of(s: Seq<RegistryEntry>, k: Seq<char>) -> int {
    choose|i: int| 0 <= i < s.len() && key_at(s, i) == k
}

spec fn entries_map(s: Seq<RegistryEntry>) -> Map<Seq<char>, RegistryEntryView> {
    Map::new(|k: Seq<char>| has_key(s, k), |k: Seq<char>| entry_view(s[index_of(s, k)]))
}

proof fn lemma_index_of(s: Seq<RegistryEntry>, i: int)
    requires
        keys_unique(s),
        0 <= i < s.len(),
    ensures
        has_key(s, key_at(s, i)),
        index_of(s, key_at(s, i)) == i,
        entries_map(s).contains_key(key_at(s, i)),
        entries_map(s)[key_at(s, i)] == entry_view(s[i]),
{
    assert(has_key(s, key_at(s, i)));
}

// ── laws ─────────────────────────────────────────────────────────────────────

/// A registration reads back as long as it is fresh: for five minutes after
/// it, and not after that.
pub proof fn law_register_then_get(
    m: Map<Seq<char>, RegistryEntryView>,
    manifest: DeviceManifestView,
    seen_ms: u64,
    now_ms: u64,
)
    ensures
        seen_ms <= now_ms < seen_ms + 300_000 ==> fresh_manifest(
            m.insert(manifest.device_id, RegistryEntryView { manifest, last_seen_ms: seen_ms }),
            manifest.device_id,
            now_ms,
        ) == Some(manifest),
        now_ms >= seen_ms + 300_000 ==> fresh_manifest(
            m.insert(manifest.device_id, RegistryEntryView { manifest, last_seen_ms: seen_ms }),
            manifest.device_id,
            now_ms,
        ) is None,
{
}

/// Registering one device changes no lookup of another.
pub proof fn law_register_keeps_others(
    m: Map<Seq<char>, RegistryEntryView>,
    manifest: DeviceManifestView,
    seen_ms: u64,
    other: Seq<char>,
    now_ms: u64,
)
    requires
        other != manifest.device_id,
    ensures
        fresh_manifest(
            m.insert(manifest.device_id, RegistryEntryView { manifest, last_seen_ms: seen_ms }),
            other,
            now_ms,
        ) == fresh_manifest(m, other, now_ms),
{
}

/// Pruning at a time keeps every lookup at that time as it was, and leaves no
/// stale registration behind.
pub proof fn law_prune(m: Map<Seq<char>, RegistryEntryView>, now_ms: u64, k: Seq<char>)
    ensures
        fresh_manifest(fresh_part(m, now_ms), k, now_ms) == fresh_manifest(m, k, now_ms),
        fresh_part(m, now_ms).contains_key(k) ==> is_fresh(
            fresh_part(m, now_ms)[k].last_seen_ms,
            now_ms,
        ),
        fresh_part(m, now_ms).contains_key(k) <==> fresh_manifest(m, k, now_ms) is Some,
{
}

/// Registered device manifests by device id, each with when it was last seen.
pub struct DeviceRegistry {
    entries: Vec<RegistryEntry>,
}

impl DeviceRegistry {
    #[verifier::type_invariant]
    spec fn ids_unique(self) -> bool {
        keys_unique(self.entries@)
    }
}

impl View for DeviceRegistry {
    type V = Map<Seq<char>, RegistryEntryView>;

    closed spec fn view(&self) -> Map<Seq<char>, RegistryEntryView> {
        entries_map(self.entries@)
    }
}

/// The manifest of a device that is registered and fresh at `now_ms`.
pub open spec fn fresh_manifest(
    m: Map<Seq<char>, RegistryEntryView>,
    device_id: Seq<char>,
    now_ms: u64,
) -> Option<DeviceManifestView> {
    if m.contains_key(device_id) && is_fresh(m[device_id].last_seen_ms, now_ms) {
        Some(m[device_id].manifest)
    } else {
        None
    }
}

/// The registrations that are still fresh at `now_ms`.
pub open spec fn fresh_part(m: Map<Seq<char>, RegistryEntryView>, now_ms: u64) -> Map<
    Seq<char>,
    RegistryEntryView,
> {
    m.restrict(Set::new(|k: Seq<char>| m.contains_key(k) && is_fresh(m[k].last_seen_ms, now_ms)))
}

/// The values of a list of manifests.
pub open spec fn manifests_view(v: Seq<DeviceManifest>) -> Seq<DeviceManifestView> {
    Seq::new(v.len(), |i: int| v[i]@)
}

/// `list` holds exactly the manifests of the fresh registrations, one per device.
pub open spec fn lists_fresh(
    m: Map<Seq<char>, RegistryEntryView>,
    now_ms: u64,
    list: Seq<DeviceManifestView>,
) -> bool {
    &&& forall|i: int|
        0 <= i < list.len() ==> #[trigger] fresh_manifest(m, list[i].device_id, now_ms) == Some(
            list[i],
        )
    &&& forall|k: Seq<char>|
        #[trigger] fresh_manifest(m, k, now_ms) is Some ==> exists|i: int|
            0 <= i < list.len() && list[i].device_id == k
    &&& forall|i: int, j: int|
        0 <= i < list.len() && 0 <= j < list.len() && i != j ==> list[i].device_id
            != list[j].device_id
}

impl DeviceRegistry {
    /// A registry with no devices.
    pub fn new() -> (r: Self)
        ensures
            r@ == Map::<Seq<char>, RegistryEntryView>::empty(),
    {
        let r = DeviceRegistry { entries: Vec::new() };
        assert(r@ =~= Map::<Seq<char>, RegistryEntryView>::empty());
        r
    }

    fn find(&self, device_id: &String) -> (r: Option<usize>)
        ensures
            match r {
                Some(i) => i < self.entries@.len() && key_at(self.entries@, i as int) == device_id@,
                None => !has_key(self.entries@, device_id@),
            },
    {
        let mut i: usize = 0;
        while i < self.entries.len()
            invariant
                i <= self.entries@.len(),
                forall|j: int| 0 <= j < i ==> key_at(self.entries@, j) != device_id@,
            decreases self.entries@.len() - i,
        {
            if self.entries[i].manifest.device_id == *device_id {
                return Some(i);
            }
            i = i + 1;
        }
        None
    }

    /// Registers a device, or refreshes it: its manifest replaces any earlier one
    /// and it counts as seen at `now_ms`.
    pub fn register_at(&mut self, manifest: DeviceManifest, now_ms: u64)
        ensures
            final(self)@ == old(self)@.insert(
                manifest.device_id@,
                RegistryEntryView { manifest: manifest@, last_seen_ms: now_ms },
            ),
    {
        proof {
            use_type_invariant(&*self);
        }
        let ghost old_entries = self.entries@;
        let ghost k = manifest.device_id@;
        let ghost ev = RegistryEntryView { manifest: manifest@, last_seen_ms: now_ms };
        let id = manifest.device_id.clone();
        let found = self.find(&id);
        let entry = RegistryEntry { manifest, last_seen_ms: now_ms };
        match found {
            Some(i) => {
                let mut entries = Vec::new();
                std::mem::swap(&mut entries, &mut self.entries);
                entries.set(i, entry);
                let ghost ne = entries@;
                assert(keys_unique(ne)) by {
                    assert forall|a: int, b: int|
                        0 <= a < ne.len() && 0 <= b < ne.len() && a != b implies key_at(ne, a)
                        != key_at(ne, b) by {
                        assert(key_at(old_entries, a) != key_at(old_entries, b));
                    }
                }
                self.entries = entries;
                proof {
                    lemma_index_of(ne, i as int);
                    assert forall|kk: Seq<char>| #[trigger] has_key(ne, kk) == (has_key(
                        old_entries,
                        kk,
                    ) || kk == k) by {
                        if has_key(old_entries, kk) {
                            let j = choose|j: int| 0 <= j < old_entries.len() && key_at(old_entries, j) == kk;
                            assert(key_at(ne, j) == kk);
                        }
                        if has_key(ne, kk) {
                            let j = choose|j: int| 0 <= j < ne.len() && key_at(ne, j) == kk;
                            if j != i {
                                assert(key_at(old_entries, j) == kk);
                            }
                        }
                    }
                    assert forall|kk: Seq<char>| has_key(ne, kk) && kk != k implies entry_view(
                        ne[index_of(ne, kk)],
                    ) == entry_view(old_entries[index_of(old_entries, kk)]) by {
                        let j = index_of(ne, kk);
                        assert(j != i);
                        assert(key_at(old_entries, j) == kk);
                        lemma_index_of(old_entries, j);
                    }
                    assert(entries_map(ne) =~= entries_map(old_entries).insert(k, ev));
                }
            },
            None => {
                let mut entries = Vec::new();
                std::mem::swap(&mut entries, &mut self.entries);
                entries.push(entry);
                let ghost ne = entries@;
                assert(keys_unique(ne)) by {
                    assert forall|a: int, b: int|
                        0 <= a < ne.len() && 0 <= b < ne.len() && a != b implies key_at(ne, a)
                        != key_at(ne, b) by {
                        if a < old_entries.len() && b < old_entries.len() {
                            assert(key_at(old_entries, a) != key_at(old_entries, b));
                        } else if a < old_entries.len() {
                            assert(key_at(old_entries, a) == key_at(ne, a));
                        } else {
                            assert(key_at(old_entries, b) == key_at(ne, b));
                        }
                    }
                }
                self.entries = entries;
                proof {
                    let n = old_entries.len() as int;
                    lemma_index_of(ne, n);
                    assert forall|kk: Seq<char>| #[trigger] has_key(ne, kk) == (has_key(
                        old_entries,
                        kk,
                    ) || kk == k) by {
                        if has_key(old_entries, kk) {
                            let j = choose|j: int| 0 <= j < old_entries.len() && key_at(old_entries, j) == kk;
                            assert(key_at(ne, j) == kk);
                        }
                        if has_key(ne, kk) {
                            let j = choose|j: int| 0 <= j < ne.len() && key_at(ne, j) == kk;
                            if j != n {
                                assert(key_at(old_entries, j) == kk);
                            }
                        }
                    }
                    assert forall|kk: Seq<char>| has_key(ne, kk) && kk != k implies entry_view(
                        ne[index_of(ne, kk)],
                    ) == entry_view(old_entries[index_of(old_entries, kk)]) by {
                        let j = index_of(ne, kk);
                        assert(j != n);
                        assert(key_at(old_entries, j) == kk);
                        lemma_index_of(old_entries, j);
                    }
                    assert(entries_map(ne) =~= entries_map(old_entries).insert(k, ev));
                }
            },
        }
    }

    /// Registers a device, or refreshes it, as seen now by the system clock.
    pub fn register(&mut self, manifest: DeviceManifest)
        ensures
            exists|now_ms: u64|
                final(self)@ == old(self)@.insert(
                    manifest.device_id@,
                    RegistryEntryView { manifest: manifest@, last_seen_ms: now_ms },
                ),
    {
        let now = system_time_millis();
        self.register_at(manifest, now);
    }

    /// The manifest of `device_id` if it is registered and fresh at `now_ms`.
    pub fn get_at(&self, device_id: &str, now_ms: u64) -> (r: Option<DeviceManifest>)
        ensures
            match r {
                Some(m) => fresh_manifest(self@, device_id@, now_ms) == Some(m@),
                None => fresh_manifest(self@, device_id@, now_ms) is None,
            },
    {
        proof {
            use_type_invariant(self);
        }
        let id = String::from_str(device_id);
        match self.find(&id) {
            Some(i) => {
                proof {
                    lemma_index_of(self.entries@, i as int);
                }
                let e = &self.entries[i];
                if (now_ms as u128) < (e.last_seen_ms as u128) + (STALE_MILLIS as u128) {
                    Some(e.manifest.clone())
                } else {
                    None
                }
            },
            None => None,
        }
    }

    /// The manifest of `device_id` if it is registered and fresh now by the
    /// system clock: never for an unregistered device, and only ever the
    /// registered manifest.
    pub fn get(&self, device_id: &str) -> (r: Option<DeviceManifest>)
        ensures
            exists|now_ms: u64|
                match r {
                    Some(m) => fresh_manifest(self@, device_id@, now_ms) == Some(m@),
                    None => fresh_manifest(self@, device_id@, now_ms) is None,
                },
            !self@.contains_key(device_id@) ==> r is None,
            r matches Some(m) ==> self@.contains_key(device_id@) && m@ == self@[device_id@].manifest,
    {
        let now = system_time_millis();
        self.get_at(device_id, now)
    }

    /// The manifests of all devices that are fresh at `now_ms`, one per device.
    pub fn list_fresh_at(&self, now_ms: u64) -> (r: Vec<DeviceManifest>)
        ensures
            lists_fresh(self@, now_ms, manifests_view(r@)),
    {
        proof {
            use_type_invariant(self);
        }
        let ghost s = self.entries@;
        let mut out: Vec<DeviceManifest> = Vec::new();
        let ghost mut from: Seq<int> = Seq::empty();
        let mut i: usize = 0;
        while i < self.entries.len()
            invariant
                s == self.entries@,
                keys_unique(s),
                i <= s.len(),
                from.len() == out@.len(),
                forall|a: int| 0 <= a < from.len() ==> 0 <= #[trigger] from[a] < i,
                forall|a: int, b: int| 0 <= a < b < from.len() ==> from[a] < from[b],
                forall|a: int|
                    0 <= a < from.len() ==> #[trigger] out@[a]@ == s[from[a]].manifest@
                        && is_fresh(s[from[a]].last_seen_ms, now_ms),
                forall|j: int|
                    0 <= j < i && is_fresh(#[trigger] s[j].last_seen_ms, now_ms) ==> exists|a: int|
                        0 <= a < from.len() && from[a] == j,
            decreases s.len() - i,
        {
            let ghost from0 = from;
            let ghost out0 = out@;
            let e = &self.entries[i];
            if (now_ms as u128) < (e.last_seen_ms as u128) + (STALE_MILLIS as u128) {
                out.push(e.manifest.clone());
                proof {
                    from = from.push(i as int);
                }
            }
            proof {
                assert forall|a: int| 0 <= a < from0.len() implies from[a] == from0[a] && out@[a]
                    == out0[a] by {}
                assert forall|j: int|
                    0 <= j < i + 1 && is_fresh(#[trigger] s[j].last_seen_ms, now_ms) implies exists|
                    a: int,
                | 0 <= a < from.len() && from[a] == j by {
                    if j < i {
                        let a = choose|a: int| 0 <= a < from0.len() && from0[a] == j;
                        assert(from[a] == j);
                    } else {
                        assert(from[from.len() - 1] == j);
                    }
                }
            }
            i = i + 1;
        }
        proof {
            let list = manifests_view(out@);
            assert forall|a: int| 0 <= a < list.len() implies #[trigger] fresh_manifest(
                self@,
                list[a].device_id,
                now_ms,
            ) == Some(list[a]) by {
                lemma_index_of(s, from[a]);
            }
            assert forall|k: Seq<char>| #[trigger] fresh_manifest(self@, k, now_ms) is Some implies exists|
                a: int,
            | 0 <= a < list.len() && list[a].device_id == k by {
                let j = index_of(s, k);
                lemma_index_of(s, j);
                assert(is_fresh(s[j].last_seen_ms, now_ms));
                let a = choose|a: int| 0 <= a < from.len() && from[a] == j;
                assert(list[a].device_id == k);
            }
            assert forall|a: int, b: int|
                0 <= a < list.len() && 0 <= b < list.len() && a != b implies list[a].device_id
                != list[b].device_id by {
                assert(from[a] != from[b]);
                assert(key_at(s, from[a]) != key_at(s, from[b]));
            }
        }
        out
    }

    /// The manifests of all devices that are fresh now by the system clock.
    pub fn list_fresh(&self) -> (r: Vec<DeviceManifest>)
        ensures
            exists|now_ms: u64| #[trigger] lists_fresh(self@, now_ms, manifests_view(r@)),
    {
        let now = system_time_millis();
        self.list_fresh_at(now)
    }

    /// Evicts every registration that is stale at `now_ms`.
    pub fn prune_at(&mut self, now_ms: u64)
        ensures
            final(self)@ == fresh_part(old(self)@, now_ms),
    {
        proof {
            use_type_invariant(&*self);
        }
        let ghost s = self.entries@;
        let mut entries = Vec::new();
        std::mem::swap(&mut entries, &mut self.entries);
        let mut kept: Vec<RegistryEntry> = Vec::new();
        let ghost mut from: Seq<int> = Seq::empty();
        let mut rest = entries;
        // Walk the old entries front to back, keeping the fresh ones in order.
        let mut i: usize = 0;
        let n = rest.len();
        while i < n
            invariant
                n == s.len(),
                keys_unique(s),
                i <= n,
                rest@ == s.subrange(i as int, n as int),
                from.len() == kept@.len(),
                forall|a: int| 0 <= a < from.len() ==> 0 <= #[trigger] from[a] < i,
                forall|a: int, b: int| 0 <= a < b < from.len() ==> from[a] < from[b],
                forall|a: int|
                    0 <= a < from.len() ==> #[trigger] kept@[a] == s[from[a]] && is_fresh(
                        s[from[a]].last_seen_ms,
                        now_ms,
                    ),
                forall|j: int|
                    0 <= j < i && is_fresh(#[trigger] s[j].last_seen_ms, now_ms) ==> exists|a: int|
                        0 <= a < from.len() && from[a] == j,
            decreases n - i,
        {
            let ghost from0 = from;
            let ghost kept0 = kept@;
            let e = rest.remove(0);
            assert(e == s[i as int]);
            assert(rest@ =~= s.subrange(i + 1, n as int));
            if (now_ms as u128) < (e.last_seen_ms as u128) + (STALE_MILLIS as u128) {
                kept.push(e);
                proof {
                    from = from.push(i as int);
                }
            }
            proof {
                assert forall|a: int| 0 <= a < from0.len() implies from[a] == from0[a] && kept@[a]
                    == kept0[a] by {}
                assert forall|j: int|
                    0 <= j < i + 1 && is_fresh(#[trigger] s[j].last_seen_ms, now_ms) implies exists|
                    a: int,
                | 0 <= a < from.len() && from[a] == j by {
                    if j < i {
                        let a = choose|a: int| 0 <= a < from0.len() && from0[a] == j;
                        assert(from[a] == j);
                    } else {
                        assert(from[from.len() - 1] == j);
                    }
                }
            }
            i = i + 1;
        }
        let ghost ks = kept@;
        assert(keys_unique(ks)) by {
            assert forall|a: int, b: int|
                0 <= a < ks.len() && 0 <= b < ks.len() && a != b implies key_at(ks, a) != key_at(
                ks,
                b,
            ) by {
                assert(from[a] != from[b]);
                assert(key_at(s, from[a]) != key_at(s, from[b]));
            }
        }
        self.entries = kept;
        proof {
            let old_map = entries_map(s);
            assert forall|k: Seq<char>| #[trigger] has_key(ks, k) == (old_map.contains_key(k)
                && is_fresh(old_map[k].last_seen_ms, now_ms)) by {
                if has_key(ks, k) {
                    let a = choose|a: int| 0 <= a < ks.len() && key_at(ks, a) == k;
                    lemma_index_of(s, from[a]);
                }
                if old_map.contains_key(k) && is_fresh(old_map[k].last_seen_ms, now_ms) {
                    let j = index_of(s, k);
                    lemma_index_of(s, j);
                    let a = choose|a: int| 0 <= a < from.len() && from[a] == j;
                    assert(key_at(ks, a) == k);
                }
            }
            assert forall|k: Seq<char>| has_key(ks, k) implies entry_view(ks[index_of(ks, k)])
                == old_map[k] by {
                let a = index_of(ks, k);
                lemma_index_of(s, from[a]);
            }
            assert(entries_map(ks) =~= fresh_part(old_map, now_ms));
        }
    }

    /// Evicts every registration that is stale now by the system clock.
    pub fn prune(&mut self)
        ensures
            exists|now_ms: u64| final(self)@ == fresh_part(old(self)@, now_ms),
    {
        let now = system_time_millis();
        self.prune_at(now);
    }
}

impl Default for DeviceRegistry {
    fn default() -> (r: Self)
        ensures
            r@ == Map::<Seq<char>, RegistryEntryView>::empty(),
    {
        Self::new()
    }
}

} // verus!
