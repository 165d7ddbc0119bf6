//! The system tray: how the service is configured, how a registration string maps to an
//! item's identity, and the registrar that owns the ordered list of items.
use vstd::prelude::*;
use crate::model::strings_view;
use crate::text::{chars_of, owned, slice_from, slice_range, str_eq, string_from_chars};

verus! {

/// The object path of a `StatusNotifierItem` registered by bus name.
pub open spec fn item_object_path() -> Seq<char> {
    "/StatusNotifierItem"@
}

/// The well-known name of the `StatusNotifierWatcher`.
pub open spec fn watcher_bus_name() -> Seq<char> {
    "org.kde.StatusNotifierWatcher"@
}

/// How the tray service operates.
#[derive(Debug, Clone, Copy, PartialEq, Eq, Structural)]
pub enum TrayMode {
    /// Become the watcher if the name is free, else a host.
    Auto,
    /// Act as the `StatusNotifierWatcher` registry.
    Watcher,
    /// Act as a `StatusNotifierHost` consumer of an existing watcher.
    Host,
}

/// Builder for configuring the system tray service.
pub struct SystemTrayServiceBuilder {
    mode: TrayMode,
    register_daemon: bool,
}

impl SystemTrayServiceBuilder {
    /// The configured mode.
    pub closed spec fn mode_spec(&self) -> TrayMode {
        self.mode
    }

    /// Whether the CLI daemon is registered.
    pub closed spec fn daemon_spec(&self) -> bool {
        self.register_daemon
    }

    /// A builder in `Auto` mode without the CLI daemon.
    pub fn new() -> (r: Self)
        ensures
            r.mode_spec() == TrayMode::Auto,
            !r.daemon_spec(),
    {
        SystemTrayServiceBuilder { mode: TrayMode::Auto, register_daemon: false }
    }

    /// Sets the operating mode.
    pub fn mode(self, mode: TrayMode) -> (r: Self)
        ensures
            r.mode_spec() == mode,
            r.daemon_spec() == self.daemon_spec(),
    {
        SystemTrayServiceBuilder { mode, register_daemon: self.register_daemon }
    }

    /// Enables the CLI control daemon (`com.wayle.SystemTray1`).
    pub fn with_daemon(self) -> (r: Self)
        ensures
            r.mode_spec() == self.mode_spec(),
            r.daemon_spec(),
    {
        SystemTrayServiceBuilder { mode: self.mode, register_daemon: true }
    }

    /// The configured mode.
    pub fn configured_mode(&self) -> (r: TrayMode)
        ensures
            r == self.mode_spec(),
    {
        self.mode
    }

    /// Whether the CLI daemon is to be registered.
    pub fn registers_daemon(&self) -> (r: bool)
        ensures
            r == self.daemon_spec(),
    {
        self.register_daemon
    }
}

impl Default for SystemTrayServiceBuilder {
    fn default() -> (r: Self)
        ensures
            r.mode_spec() == TrayMode::Auto,
            !r.daemon_spec(),
    {
        Self::new()
    }
}

/// What the service does once it knows whether it could take the watcher name: `Host` never
/// tries and is a host; `Watcher` and `Auto` are the watcher when they acquired the name;
/// otherwise `Auto` falls back to a host and `Watcher` fails.
pub open spec fn role_for(mode: TrayMode, acquired: bool) -> Result<bool, ()> {
    match mode {
        TrayMode::Host => Ok(false),
        _ => if acquired {
            Ok(true)
        } else if mode == TrayMode::Auto {
            Ok(false)
        } else {
            Err(())
        },
    }
}

/// Whether the mode tries to take the watcher name first.
pub fn tries_watcher(mode: TrayMode) -> (r: bool)
    ensures
        r == (mode != TrayMode::Host),
{
    match mode {
        TrayMode::Host => false,
        _ => true,
    }
}

/// Whether the service acts as the watcher (`Ok(true)`) or a host (`Ok(false)`), or the error
/// when `Watcher` mode finds the name already owned.
pub fn resolve_role(mode: TrayMode, acquired: bool) -> (r: Result<bool, String>)
    ensures
        match role_for(mode, acquired) {
            Ok(w) => r == Ok::<bool, String>(w),
            Err(_) => r matches Err(m) && m@ == "D-Bus name 'org.kde.StatusNotifierWatcher' is already owned"@,
        },
{
    match mode {
        TrayMode::Host => Ok(false),
        _ => {
            if acquired {
                Ok(true)
            } else {
                match mode {
                    TrayMode::Auto => Ok(false),
                    _ => Err(owned("D-Bus name 'org.kde.StatusNotifierWatcher' is already owned")),
                }
            }
        },
    }
}

/// The callable service string and object path of a registration made by `owner`: the
/// object-path form `"/path"` becomes `"{owner}/path"` at that path; a bus name is callable
/// as-is at the default item path.
pub open spec fn split_registered_spec(service: Seq<char>, owner: Seq<char>) -> (Seq<char>, Seq<char>) {
    if service.len() > 0 && service[0] == '/' {
        (owner + service, service)
    } else {
        (service, item_object_path())
    }
}

/// Splits a registration string, given its resolved owner.
pub fn split_registered(service: &str, owner: &str) -> (r: (String, String))
    ensures
        (r.0@, r.1@) == split_registered_spec(service@, owner@),
{
    let chars = chars_of(service);
    if chars.len() > 0 && chars[0] == '/' {
        let mut callable = owned(owner);
        callable.append(service);
        (callable, owned(service))
    } else {
        (owned(service), owned("/StatusNotifierItem"))
    }
}

/// The first position of `c` in `s`.
pub open spec fn first_slash(s: Seq<char>) -> Option<int> {
    if exists|i: int| 0 <= i < s.len() && s[i] == '/' {
        Some(choose|i: int| 0 <= i < s.len() && s[i] == '/' && forall|j: int| 0 <= j < i ==> s[j] != '/')
    } else {
        None
    }
}

/// The owning bus name and path of a stored callable string `"{name}/path"`, or of a bare
/// bus name at the default path.
pub open spec fn split_stored_spec(service: Seq<char>) -> (Seq<char>, Seq<char>) {
    match first_slash(service) {
        Some(i) => (service.take(i), service.skip(i)),
        None => (service, item_object_path()),
    }
}

/// Splits a stored callable service string into its bus name and path.
pub fn split_stored(service: &str) -> (r: (String, String))
    ensures
        (r.0@, r.1@) == split_stored_spec(service@),
{
    let chars = chars_of(service);
    let mut i: usize = 0;
    while i < chars.len()
        invariant
            i <= chars@.len(),
            chars@ == service@,
            forall|j: int| 0 <= j < i ==> chars@[j] != '/',
        decreases chars@.len() - i,
    {
        if chars[i] == '/' {
            let name = slice_range(chars.as_slice(), 0, i);
            let path = slice_from(chars.as_slice(), i);
            proof {
                let s = service@;
                assert(exists|k: int| 0 <= k < s.len() && s[k] == '/');
                let k = choose|k: int| 0 <= k < s.len() && s[k] == '/' && forall|j: int| 0 <= j < k ==> s[j] != '/';
                assert(k == i) by {
                    if k < i {
                        assert(s[k] != '/');
                    }
                    if k > i {
                        assert(s[i as int] == '/');
                    }
                }
                assert(name@ =~= s.take(i as int));
            }
            return (string_from_chars(name.as_slice()), string_from_chars(path.as_slice()));
        }
        i = i + 1;
    }
    proof {
        assert(!(exists|k: int| 0 <= k < service@.len() && service@[k] == '/'));
    }
    (owned(service), owned("/StatusNotifierItem"))
}

/// Whether a bus name is a startup-discovery candidate: a unique connection name (`:…`)
/// that is not one of our own.
pub open spec fn is_candidate(name: Seq<char>, own: Seq<String>) -> bool {
    name.len() > 0 && name[0] == ':' && !(exists|i: int| 0 <= i < own.len() && #[trigger] own[i]@ == name)
}

/// The startup-discovery candidates among the bus names, in order.
pub open spec fn candidates_spec(names: Seq<String>, own: Seq<String>) -> Seq<Seq<char>>
    decreases names.len(),
{
    if names.len() == 0 {
        Seq::empty()
    } else if is_candidate(names.last()@, own) {
        candidates_spec(names.drop_last(), own).push(names.last()@)
    } else {
        candidates_spec(names.drop_last(), own)
    }
}

/// The unique connection names, other than our own, to probe for orphaned items.
pub fn discovery_candidates(names: &[String], own: &[String]) -> (r: Vec<String>)
    ensures
        strings_view(r@) == candidates_spec(names@, own@),
{
    let mut out: Vec<String> = Vec::new();
    let mut i: usize = 0;
    while i < names.len()
        invariant
            i <= names@.len(),
            strings_view(out@) == candidates_spec(names@.take(i as int), own@),
        decreases names@.len() - i,
    {
        proof {
            assert(names@.take(i + 1).drop_last() =~= names@.take(i as int));
            assert(names@.take(i + 1).last() == names@[i as int]);
        }
        let name = names[i].as_str();
        let chars = chars_of(name);
        let unique = chars.len() > 0 && chars[0] == ':';
        if unique && !crate::text::contains_str(own, name) {
            let ghost before = out@;
            out.push(owned(name));
            proof {
                assert(strings_view(out@) =~= strings_view(before).push(
                    name@,
                ));
            }
        }
        i = i + 1;
    }
    proof {
        assert(names@.take(names@.len() as int) =~= names@);
    }
    out
}

/// An item's identity: its owner connection and object path.
pub struct ItemKey {
    /// The owner's unique name.
    pub owner: String,
    /// The object path.
    pub path: String,
}

/// The view of an item key.
pub open spec fn key_view(k: ItemKey) -> (Seq<char>, Seq<char>) {
    (k.owner@, k.path@)
}

/// A published tray item.
pub struct Entry<T> {
    /// Its identity.
    pub key: ItemKey,
    /// The callable service string, as the watcher exposes it.
    pub service: String,
    /// The live item.
    pub item: T,
}

/// What to do with a registration whose owner is known.
pub enum RegisterPlan {
    /// The identity is already registered: nothing.
    AlreadyRegistered,
    /// Run a lifecycle for the callable service string under this identity.
    Spawn { callable: String, key: ItemKey },
}

/// The ordered list of published items, each identity once.
pub struct Registrar<T> {
    entries: Vec<Entry<T>>,
}

/// The identities of the entries.
pub open spec fn entry_keys<T>(s: Seq<Entry<T>>) -> Seq<(Seq<char>, Seq<char>)> {
    s.map_values(|e: Entry<T>| key_view(e.key))
}

/// The service strings of the entries.
pub open spec fn entry_services<T>(s: Seq<Entry<T>>) -> Seq<Seq<char>> {
    s.map_values(|e: Entry<T>| e.service@)
}

impl<T> Registrar<T> {
    /// The entries, in registration order.
    pub closed spec fn entries_spec(&self) -> Seq<Entry<T>> {
        self.entries@
    }

    /// Each identity occurs once.
    pub open spec fn wf(&self) -> bool {
        forall|i: int, j: int|
            0 <= i < self.entries_spec().len() && 0 <= j < self.entries_spec().len() && i != j
                ==> key_view(self.entries_spec()[i].key) != key_view(self.entries_spec()[j].key)
    }

    /// No items.
    pub fn new() -> (r: Self)
        ensures
            r.entries_spec().len() == 0,
            r.wf(),
    {
        Registrar { entries: Vec::new() }
    }

    /// The position of the entry with this identity.
    fn position(&self, owner: &str, path: &str) -> (r: Option<usize>)
        ensures
            match r {
                Some(i) => i < self.entries_spec().len() && key_view(self.entries_spec()[i as int].key) == (owner@, path@),
                None => forall|i: int| 0 <= i < self.entries_spec().len() ==> key_view(#[trigger] self.entries_spec()[i].key) != (owner@, path@),
            },
    {
        let mut i: usize = 0;
        while i < self.entries.len()
            invariant
                i <= self.entries@.len(),
                forall|j: int| 0 <= j < i ==> key_view(#[trigger] self.entries@[j].key) != (owner@, path@),
            decreases self.entries@.len() - i,
        {
            if str_eq(self.entries[i].key.owner.as_str(), owner) && str_eq(self.entries[i].key.path.as_str(), path) {
                return Some(i);
            }
            i = i + 1;
        }
        None
    }

    /// Whether an item with this identity is published.
    pub fn contains(&self, owner: &str, path: &str) -> (r: bool)
        ensures
            r == exists|i: int| 0 <= i < self.entries_spec().len() && key_view(#[trigger] self.entries_spec()[i].key) == (owner@, path@),
    {
        match self.position(owner, path) {
            Some(_) => true,
            None => false,
        }
    }

    /// A registration whose owner is known: nothing when its identity is already published,
    /// else a lifecycle for its callable string.
    pub fn plan_register(&self, service: &str, owner: &str) -> (r: RegisterPlan)
        ensures
            ({
                let (callable, path) = split_registered_spec(service@, owner@);
                if exists|i: int| 0 <= i < self.entries_spec().len() && key_view(#[trigger] self.entries_spec()[i].key) == (owner@, path) {
                    r is AlreadyRegistered
                } else {
                    r matches RegisterPlan::Spawn { callable: c, key } && c@ == callable && key_view(key) == (owner@, path)
                }
            }),
    {
        let (callable, path) = split_registered(service, owner);
        if self.contains(owner, path.as_str()) {
            RegisterPlan::AlreadyRegistered
        } else {
            RegisterPlan::Spawn { callable, key: ItemKey { owner: owned(owner), path } }
        }
    }

    /// Publishes a prepared item, unless its identity already is (the duplicate loses and is
    /// handed back to be cancelled). On publishing, the watcher announces the service string.
    pub fn insert(&mut self, key: ItemKey, service: String, item: T) -> (r: Option<T>)
        requires
            old(self).wf(),
        ensures
            final(self).wf(),
            final(self).entries_spec() == registrar_step(
                old(self).entries_spec(),
                RegistrarOp::Insert((Entry { key, service, item })),
            ),
            (exists|i: int| 0 <= i < old(self).entries_spec().len() && key_view(#[trigger] old(self).entries_spec()[i].key) == key_view(key)) ==> {
                &&& r == Some(item)
                &&& final(self).entries_spec() == old(self).entries_spec()
            },
            !(exists|i: int| 0 <= i < old(self).entries_spec().len() && key_view(#[trigger] old(self).entries_spec()[i].key) == key_view(key)) ==> {
                &&& r is None
                &&& final(self).entries_spec() == old(self).entries_spec().push(Entry { key, service, item })
            },
    {
        proof {
            lemma_key_pos(self.entries@, key_view(key));
        }
        match self.position(key.owner.as_str(), key.path.as_str()) {
            Some(_) => Some(item),
            None => {
                let ghost before = self.entries@;
                self.entries.push(Entry { key, service, item });
                proof {
                    let s = self.entries@;
                    assert forall|i: int, j: int| 0 <= i < s.len() && 0 <= j < s.len() && i != j implies key_view(s[i].key) != key_view(s[j].key) by {
                        if i < before.len() && j < before.len() {
                            assert(s[i] == before[i] && s[j] == before[j]);
                        } else if i < before.len() {
                            assert(s[i] == before[i]);
                        } else if j < before.len() {
                            assert(s[j] == before[j]);
                        }
                    }
                }
                None
            },
        }
    }

    /// Removes the item with this identity (its owner disappeared), yielding it so its
    /// lifecycle is cancelled and the watcher announces its removal.
    pub fn remove(&mut self, owner: &str, path: &str) -> (r: Option<Entry<T>>)
        requires
            old(self).wf(),
        ensures
            final(self).wf(),
            final(self).entries_spec() == registrar_step(old(self).entries_spec(), RegistrarOp::Remove(owner@, path@)),
            match r {
                Some(e) => exists|i: int| 0 <= i < old(self).entries_spec().len() && old(self).entries_spec()[i] == e && key_view(e.key) == (owner@, path@) && final(self).entries_spec() == old(self).entries_spec().remove(i),
                None => final(self).entries_spec() == old(self).entries_spec() && forall|i: int| 0 <= i < old(self).entries_spec().len() ==> key_view(#[trigger] old(self).entries_spec()[i].key) != (owner@, path@),
            },
    {
        proof {
            lemma_key_pos(self.entries@, (owner@, path@));
        }
        match self.position(owner, path) {
            Some(i) => {
                let ghost before = self.entries@;
                let e = self.entries.remove(i);
                proof {
                    let s = self.entries@;
                    assert forall|a: int, b: int| 0 <= a < s.len() && 0 <= b < s.len() && a != b implies key_view(s[a].key) != key_view(s[b].key) by {
                        let a0 = if a < i { a } else { a + 1 };
                        let b0 = if b < i { b } else { b + 1 };
                        assert(s[a] == before[a0] && s[b] == before[b0]);
                    }
                }
                Some(e)
            },
            None => None,
        }
    }

    /// Removes the first item registered under exactly this service string (host mode: the
    /// external watcher names it after its owner is gone); the external watcher announces it.
    pub fn remove_by_service(&mut self, service: &str) -> (r: Option<Entry<T>>)
        requires
            old(self).wf(),
        ensures
            final(self).wf(),
            final(self).entries_spec() == registrar_step(old(self).entries_spec(), RegistrarOp::RemoveByService(service@)),
            match r {
                Some(e) => exists|i: int| 0 <= i < old(self).entries_spec().len() && old(self).entries_spec()[i] == e && e.service@ == service@ && (forall|j: int| 0 <= j < i ==> (#[trigger] old(self).entries_spec()[j]).service@ != service@) && final(self).entries_spec() == old(self).entries_spec().remove(i),
                None => final(self).entries_spec() == old(self).entries_spec() && forall|i: int| 0 <= i < old(self).entries_spec().len() ==> (#[trigger] old(self).entries_spec()[i]).service@ != service@,
            },
    {
        proof {
            lemma_service_pos(self.entries@, service@);
        }
        let mut i: usize = 0;
        while i < self.entries.len()
            invariant
                i <= self.entries@.len(),
                self.entries@ == old(self).entries@,
                match service_pos(old(self).entries@, service@) {
                    Some(k) => 0 <= k < old(self).entries@.len() && old(self).entries@[k].service@ == service@ && forall|j: int| 0 <= j < k ==> (#[trigger] old(self).entries@[j]).service@ != service@,
                    None => forall|j: int| 0 <= j < old(self).entries@.len() ==> (#[trigger] old(self).entries@[j]).service@ != service@,
                },
                old(self).wf(),
                forall|j: int| 0 <= j < i ==> (#[trigger] self.entries@[j]).service@ != service@,
            decreases self.entries@.len() - i,
        {
            if str_eq(self.entries[i].service.as_str(), service) {
                let ghost before = self.entries@;
                let e = self.entries.remove(i);
                proof {
                    let s = self.entries@;
                    assert forall|a: int, b: int| 0 <= a < s.len() && 0 <= b < s.len() && a != b implies key_view(s[a].key) != key_view(s[b].key) by {
                        let a0 = if a < i { a } else { a + 1 };
                        let b0 = if b < i { b } else { b + 1 };
                        assert(s[a] == before[a0] && s[b] == before[b0]);
                    }
                    assert(before[i as int] == e);
                }
                return Some(e);
            }
            i = i + 1;
        }
        None
    }

    /// The registered service strings, in order (the watcher's `RegisteredStatusNotifierItems`).
    pub fn services(&self) -> (r: Vec<String>)
        ensures
            strings_view(r@) == entry_services(self.entries_spec()),
    {
        let mut out: Vec<String> = Vec::new();
        let mut i: usize = 0;
        while i < self.entries.len()
            invariant
                i <= self.entries@.len(),
                strings_view(out@) == entry_services(self.entries@.take(i as int)),
            decreases self.entries@.len() - i,
        {
            let ghost before = out@;
            out.push(owned(self.entries[i].service.as_str()));
            proof {
                assert(self.entries@.take(i + 1) =~= self.entries@.take(i as int).push(self.entries@[i as int]));
                assert(entry_services(self.entries@.take(i + 1)) =~= entry_services(self.entries@.take(i as int)).push(self.entries@[i as int].service@));
                assert(strings_view(out@) =~= strings_view(before).push(self.entries@[i as int].service@));
            }
            i = i + 1;
        }
        proof {
            assert(self.entries@.take(self.entries@.len() as int) =~= self.entries@);
        }
        out
    }

    /// The items, in order (the reactive list the service publishes).
    pub fn items(&self) -> (r: Vec<&T>)
        ensures
            r@.len() == self.entries_spec().len(),
            forall|i: int| 0 <= i < r@.len() ==> *r@[i] == (#[trigger] self.entries_spec()[i]).item,
    {
        let mut out: Vec<&T> = Vec::new();
        let mut i: usize = 0;
        while i < self.entries.len()
            invariant
                i <= self.entries@.len(),
                out@.len() == i,
                forall|j: int| 0 <= j < i ==> *out@[j] == (#[trigger] self.entries@[j]).item,
            decreases self.entries@.len() - i,
        {
            out.push(&self.entries[i].item);
            i = i + 1;
        }
        out
    }

    /// Takes every entry out (on shutdown, each lifecycle is cancelled).
    pub fn drain(&mut self) -> (r: Vec<Entry<T>>)
        ensures
            r@ == old(self).entries_spec(),
            final(self).entries_spec().len() == 0,
            final(self).wf(),
    {
        let mut out: Vec<Entry<T>> = Vec::new();
        std::mem::swap(&mut out, &mut self.entries);
        out
    }
}

/// An item is published at most once per identity: inserting an identity that is already
/// there publishes nothing new, and the registrar stays free of duplicates.
pub proof fn law_one_entry_per_identity<T>(entries: Seq<Entry<T>>, key: ItemKey, service: String, item: T)
    requires
        forall|i: int, j: int| 0 <= i < entries.len() && 0 <= j < entries.len() && i != j ==> key_view(entries[i].key) != key_view(entries[j].key),
        !(exists|i: int| 0 <= i < entries.len() && key_view(#[trigger] entries[i].key) == key_view(key)),
    ensures
        ({
            let s = entries.push(Entry { key, service, item });
            forall|i: int, j: int| 0 <= i < s.len() && 0 <= j < s.len() && i != j ==> key_view(s[i].key) != key_view(s[j].key)
        }),
{
    let s = entries.push(Entry { key, service, item });
    assert forall|i: int, j: int| 0 <= i < s.len() && 0 <= j < s.len() && i != j implies key_view(s[i].key) != key_view(s[j].key) by {
        if i < entries.len() && j < entries.len() {
            assert(s[i] == entries[i] && s[j] == entries[j]);
        } else if i < entries.len() {
            assert(s[i] == entries[i]);
        } else if j < entries.len() {
            assert(s[j] == entries[j]);
        }
    }
}

/// The three shapes an app may register under name the same item: a bare unique name, the
/// object-path form, and the stored callable string all resolve to one identity.
pub proof fn law_registration_shapes_agree(owner: Seq<char>, path: Seq<char>)
    requires
        path.len() > 0 && path[0] == '/',
        forall|i: int| 0 <= i < owner.len() ==> owner[i] != '/',
    ensures
        ({
            let (callable, p) = split_registered_spec(path, owner);
            &&& p == path
            &&& split_stored_spec(callable) == (owner, path)
        }),
{
    let (callable, p) = split_registered_spec(path, owner);
    assert(callable == owner + path);
    assert(callable[owner.len() as int] == '/');
    assert(exists|k: int| 0 <= k < callable.len() && callable[k] == '/');
    let k = choose|k: int| 0 <= k < callable.len() && callable[k] == '/' && forall|j: int| 0 <= j < k ==> callable[j] != '/';
    assert(k == owner.len()) by {
        if k < owner.len() {
            assert(callable[k] == owner[k]);
        }
        if k > owner.len() {
            assert(callable[owner.len() as int] == '/');
        }
    }
    assert(callable.take(k) =~= owner);
    assert(callable.skip(k) =~= path);
}

/// A change to the registrar, as its actor receives them.
pub enum RegistrarOp<T> {
    /// Publish this prepared entry (unless its identity already is).
    Insert(Entry<T>),
    /// Withdraw the entry with this identity (owner, path).
    Remove(Seq<char>, Seq<char>),
    /// Withdraw the first entry registered under this service string.
    RemoveByService(Seq<char>),
}

/// The first position of an entry with identity `k`.
pub open spec fn key_pos<T>(s: Seq<Entry<T>>, k: (Seq<char>, Seq<char>)) -> Option<int>
    decreases s.len(),
{
    if s.len() == 0 {
        None
    } else if key_view(s[0].key) == k {
        Some(0)
    } else {
        match key_pos(s.drop_first(), k) {
            Some(i) => Some(i + 1),
            None => None,
        }
    }
}

/// The first position of an entry registered under `service`.
pub open spec fn service_pos<T>(s: Seq<Entry<T>>, service: Seq<char>) -> Option<int>
    decreases s.len(),
{
    if s.len() == 0 {
        None
    } else if s[0].service@ == service {
        Some(0)
    } else {
        match service_pos(s.drop_first(), service) {
            Some(i) => Some(i + 1),
            None => None,
        }
    }
}

/// The entries after one change.
pub open spec fn registrar_step<T>(s: Seq<Entry<T>>, op: RegistrarOp<T>) -> Seq<Entry<T>> {
    match op {
        RegistrarOp::Insert(e) => if key_pos(s, key_view(e.key)) is Some {
            s
        } else {
            s.push(e)
        },
        RegistrarOp::Remove(owner, path) => match key_pos(s, (owner, path)) {
            Some(i) => s.remove(i),
            None => s,
        },
        RegistrarOp::RemoveByService(service) => match service_pos(s, service) {
            Some(i) => s.remove(i),
            None => s,
        },
    }
}

/// The entries after a sequence of changes, applied in order.
pub open spec fn registrar_fold<T>(s: Seq<Entry<T>>, ops: Seq<RegistrarOp<T>>) -> Seq<Entry<T>>
    decreases ops.len(),
{
    if ops.len() == 0 {
        s
    } else {
        registrar_step(registrar_fold(s, ops.drop_last()), ops.last())
    }
}

/// The entries the changes offer for publishing, in order.
pub open spec fn inserted<T>(ops: Seq<RegistrarOp<T>>) -> Seq<Entry<T>>
    decreases ops.len(),
{
    if ops.len() == 0 {
        Seq::empty()
    } else {
        match ops.last() {
            RegistrarOp::Insert(e) => inserted(ops.drop_last()).push(e),
            _ => inserted(ops.drop_last()),
        }
    }
}

/// No identity occurs twice among the entries.
pub open spec fn keys_distinct<T>(s: Seq<Entry<T>>) -> bool {
    forall|i: int, j: int| 0 <= i < s.len() && 0 <= j < s.len() && i != j ==> key_view(s[i].key) != key_view(s[j].key)
}

/// `f` places the elements of `a` in `b`, in order.
pub open spec fn embeds<A>(a: Seq<A>, b: Seq<A>, f: spec_fn(int) -> int) -> bool {
    &&& forall|i: int| 0 <= i < a.len() ==> 0 <= #[trigger] f(i) < b.len() && a[i] == b[f(i)]
    &&& forall|i: int, j: int| 0 <= i < j < a.len() ==> #[trigger] f(i) < #[trigger] f(j)
}

/// `a` is `b` with some elements left out, the rest in the same order.
pub open spec fn is_subsequence<A>(a: Seq<A>, b: Seq<A>) -> bool {
    exists|f: spec_fn(int) -> int| embeds(a, b, f)
}

/// `key_pos` finds the first entry with the identity, or there is none.
pub proof fn lemma_key_pos<T>(s: Seq<Entry<T>>, k: (Seq<char>, Seq<char>))
    ensures
        match key_pos(s, k) {
            Some(i) => 0 <= i < s.len() && key_view(s[i].key) == k && forall|j: int| 0 <= j < i ==> key_view(#[trigger] s[j].key) != k,
            None => forall|j: int| 0 <= j < s.len() ==> key_view(#[trigger] s[j].key) != k,
        },
    decreases s.len(),
{
    if s.len() > 0 && key_view(s[0].key) != k {
        lemma_key_pos(s.drop_first(), k);
        assert forall|j: int| 1 <= j < s.len() implies s[j] == s.drop_first()[j - 1] by {}
    }
}

/// `service_pos` finds the first entry under the service string, or there is none.
pub proof fn lemma_service_pos<T>(s: Seq<Entry<T>>, service: Seq<char>)
    ensures
        match service_pos(s, service) {
            Some(i) => 0 <= i < s.len() && s[i].service@ == service && forall|j: int| 0 <= j < i ==> (#[trigger] s[j]).service@ != service,
            None => forall|j: int| 0 <= j < s.len() ==> (#[trigger] s[j]).service@ != service,
        },
    decreases s.len(),
{
    if s.len() > 0 && s[0].service@ != service {
        lemma_service_pos(s.drop_first(), service);
        assert forall|j: int| 1 <= j < s.len() implies s[j] == s.drop_first()[j - 1] by {}
    }
}

/// Removing an entry keeps the identities distinct.
proof fn lemma_remove_keeps_distinct<T>(s: Seq<Entry<T>>, i: int)
    requires
        keys_distinct(s),
        0 <= i < s.len(),
    ensures
        keys_distinct(s.remove(i)),
{
    let r = s.remove(i);
    assert forall|a: int, b: int| 0 <= a < r.len() && 0 <= b < r.len() && a != b implies key_view(r[a].key) != key_view(r[b].key) by {
        let a0 = if a < i { a } else { a + 1 };
        let b0 = if b < i { b } else { b + 1 };
        assert(r[a] == s[a0] && r[b] == s[b0]);
    }
}

/// Every change keeps the identities distinct.
pub proof fn lemma_step_keeps_distinct<T>(s: Seq<Entry<T>>, op: RegistrarOp<T>)
    requires
        keys_distinct(s),
    ensures
        keys_distinct(registrar_step(s, op)),
{
    match op {
        RegistrarOp::Insert(e) => {
            lemma_key_pos(s, key_view(e.key));
            if key_pos(s, key_view(e.key)) is None {
                let t = s.push(e);
                assert forall|i: int, j: int| 0 <= i < t.len() && 0 <= j < t.len() && i != j implies key_view(t[i].key) != key_view(t[j].key) by {
                    if i < s.len() {
                        assert(t[i] == s[i]);
                    }
                    if j < s.len() {
                        assert(t[j] == s[j]);
                    }
                }
            }
        },
        RegistrarOp::Remove(owner, path) => {
            lemma_key_pos(s, (owner, path));
            if let Some(i) = key_pos(s, (owner, path)) {
                lemma_remove_keeps_distinct(s, i);
            }
        },
        RegistrarOp::RemoveByService(service) => {
            lemma_service_pos(s, service);
            if let Some(i) = service_pos(s, service) {
                lemma_remove_keeps_distinct(s, i);
            }
        },
    }
}

/// Over any sequence of changes, the registrar never holds one identity twice.
pub proof fn law_registrar_keys_stay_distinct<T>(s: Seq<Entry<T>>, ops: Seq<RegistrarOp<T>>)
    requires
        keys_distinct(s),
    ensures
        keys_distinct(registrar_fold(s, ops)),
    decreases ops.len(),
{
    if ops.len() > 0 {
        law_registrar_keys_stay_distinct(s, ops.drop_last());
        lemma_step_keeps_distinct(registrar_fold(s, ops.drop_last()), ops.last());
    }
}

/// Over any sequence of changes, the registrar holds only entries it started with or was
/// offered, in the order they came: its entries are a subsequence of the starting entries
/// followed by the offered ones.
pub proof fn law_registrar_keeps_insertion_order<T>(s: Seq<Entry<T>>, ops: Seq<RegistrarOp<T>>)
    ensures
        is_subsequence(registrar_fold(s, ops), s + inserted(ops)),
    decreases ops.len(),
{
    if ops.len() == 0 {
        let f = |i: int| i;
        assert(s + inserted(ops) =~= s);
        assert(embeds(registrar_fold(s, ops), s + inserted(ops), f));
    } else {
        let prev = ops.drop_last();
        law_registrar_keeps_insertion_order(s, prev);
        let a = registrar_fold(s, prev);
        let b = s + inserted(prev);
        let f = choose|f: spec_fn(int) -> int| embeds(a, b, f);
        let r = registrar_fold(s, ops);
        let c = s + inserted(ops);
        match ops.last() {
            RegistrarOp::Insert(e) => {
                assert(c =~= b.push(e));
                if key_pos(a, key_view(e.key)) is Some {
                    assert(r == a);
                    assert forall|i: int| 0 <= i < r.len() implies 0 <= #[trigger] f(i) < c.len() && r[i] == c[f(i)] by {
                        assert(c[f(i)] == b[f(i)]);
                    }
                    assert(embeds(r, c, f));
                } else {
                    assert(r == a.push(e));
                    let g = |i: int| if i < a.len() { f(i) } else { b.len() as int };
                    assert forall|i: int| 0 <= i < r.len() implies 0 <= #[trigger] g(i) < c.len() && r[i] == c[g(i)] by {
                        if i < a.len() {
                            assert(c[f(i)] == b[f(i)]);
                        }
                    }
                    assert forall|i: int, j: int| 0 <= i < j < r.len() implies #[trigger] g(i) < #[trigger] g(j) by {
                        if j < a.len() {
                            assert(f(i) < f(j));
                        } else {
                            assert(0 <= f(i) < b.len());
                        }
                    }
                    assert(embeds(r, c, g));
                }
            },
            RegistrarOp::Remove(owner, path) => {
                assert(c =~= b);
                lemma_key_pos(a, (owner, path));
                match key_pos(a, (owner, path)) {
                    Some(k) => {
                        let g = |i: int| if i < k { f(i) } else { f(i + 1) };
                        assert forall|i: int| 0 <= i < r.len() implies 0 <= #[trigger] g(i) < c.len() && r[i] == c[g(i)] by {
                            if i >= k {
                                assert(r[i] == a[i + 1]);
                            }
                        }
                        assert forall|i: int, j: int| 0 <= i < j < r.len() implies #[trigger] g(i) < #[trigger] g(j) by {
                            if i < k && j >= k {
                                assert(f(i) < f(j + 1));
                            } else if i >= k {
                                assert(f(i + 1) < f(j + 1));
                            } else {
                                assert(f(i) < f(j));
                            }
                        }
                        assert(embeds(r, c, g));
                    },
                    None => {
                        assert(embeds(r, c, f));
                    },
                }
            },
            RegistrarOp::RemoveByService(service) => {
                assert(c =~= b);
                lemma_service_pos(a, service);
                match service_pos(a, service) {
                    Some(k) => {
                        let g = |i: int| if i < k { f(i) } else { f(i + 1) };
                        assert forall|i: int| 0 <= i < r.len() implies 0 <= #[trigger] g(i) < c.len() && r[i] == c[g(i)] by {
                            if i >= k {
                                assert(r[i] == a[i + 1]);
                            }
                        }
                        assert forall|i: int, j: int| 0 <= i < j < r.len() implies #[trigger] g(i) < #[trigger] g(j) by {
                            if i < k && j >= k {
                                assert(f(i) < f(j + 1));
                            } else if i >= k {
                                assert(f(i + 1) < f(j + 1));
                            } else {
                                assert(f(i) < f(j));
                            }
                        }
                        assert(embeds(r, c, g));
                    },
                    None => {
                        assert(embeds(r, c, f));
                    },
                }
            },
        }
    }
}

/// After a change, what it asked for holds: an offered identity is published (by that entry,
/// or by the one already there), a withdrawn identity is gone, and a withdrawal by service
/// string takes away at most one entry, the first under that string.
pub proof fn law_registrar_step_effect<T>(s: Seq<Entry<T>>, op: RegistrarOp<T>)
    requires
        keys_distinct(s),
    ensures
        op matches RegistrarOp::Insert(e) ==> exists|i: int|
            0 <= i < registrar_step(s, op).len() && key_view(#[trigger] registrar_step(s, op)[i].key) == key_view(e.key),
        op matches RegistrarOp::Remove(owner, path) ==> forall|i: int|
            0 <= i < registrar_step(s, op).len() ==> key_view(#[trigger] registrar_step(s, op)[i].key) != (owner, path),
        op matches RegistrarOp::RemoveByService(service) ==> match service_pos(s, service) {
            Some(k) => registrar_step(s, op) == s.remove(k),
            None => registrar_step(s, op) == s,
        },
{
    match op {
        RegistrarOp::Insert(e) => {
            lemma_key_pos(s, key_view(e.key));
            match key_pos(s, key_view(e.key)) {
                Some(i) => {
                    assert(key_view(registrar_step(s, op)[i].key) == key_view(e.key));
                },
                None => {
                    let t = s.push(e);
                    assert(key_view(t[s.len() as int].key) == key_view(e.key));
                },
            }
        },
        RegistrarOp::Remove(owner, path) => {
            lemma_key_pos(s, (owner, path));
            if let Some(k) = key_pos(s, (owner, path)) {
                let r = s.remove(k);
                assert forall|i: int| 0 <= i < r.len() implies key_view(#[trigger] r[i].key) != (owner, path) by {
                    let i0 = if i < k { i } else { i + 1 };
                    assert(r[i] == s[i0]);
                }
            }
        },
        RegistrarOp::RemoveByService(service) => {},
    }
}

/// Where a tray item's lifecycle stands.
#[derive(Debug, Clone, Copy, PartialEq, Eq, Structural)]
pub enum ItemPhase {
    /// Arming the watch on the owner's disappearance.
    Arming,
    /// Asking once whether the owner is still on the bus.
    Checking,
    /// Loading the item's properties.
    Loading,
    /// Published; waiting for the owner to go away.
    Live,
    /// Over: nothing more happens.
    Finished,
}

/// What the bus reported to an item's lifecycle.
#[derive(Debug, Clone, Copy, PartialEq, Eq, Structural)]
pub enum ItemEvent {
    /// Whether the owner's death watch could be armed.
    WatchArmed(bool),
    /// Whether the owner is on the bus (an owner whose name does not parse counts as alive).
    Alive(bool),
    /// Whether the item's properties loaded.
    Loaded(bool),
    /// The owner left the bus.
    OwnerGone,
    /// The lifecycle was cancelled (shutdown, or a duplicate lost the race).
    Cancelled,
}

/// What a lifecycle asks for next.
#[derive(Debug, Clone, Copy, PartialEq, Eq, Structural)]
pub enum ItemAction {
    /// Ask whether the owner is on the bus.
    CheckLiveness,
    /// Load the item's properties.
    LoadItem,
    /// Ask the registrar to publish the item.
    Insert,
    /// Ask the registrar to withdraw the item.
    Remove,
    /// End the lifecycle.
    Stop,
    /// Nothing: the event does not concern this phase.
    Wait,
}

/// One step of an item's lifecycle: the death watch is armed before the single liveness
/// check, so an owner that is gone before publishing is never published; a loaded item is
/// published and withdrawn when its owner goes, and a cancellation ends it quietly.
pub open spec fn item_step_spec(phase: ItemPhase, event: ItemEvent) -> (ItemPhase, ItemAction) {
    match (phase, event) {
        (ItemPhase::Arming, ItemEvent::WatchArmed(true)) => (ItemPhase::Checking, ItemAction::CheckLiveness),
        (ItemPhase::Arming, ItemEvent::WatchArmed(false)) => (ItemPhase::Finished, ItemAction::Stop),
        (ItemPhase::Checking, ItemEvent::Alive(true)) => (ItemPhase::Loading, ItemAction::LoadItem),
        (ItemPhase::Checking, ItemEvent::Alive(false)) => (ItemPhase::Finished, ItemAction::Stop),
        (ItemPhase::Loading, ItemEvent::Loaded(true)) => (ItemPhase::Live, ItemAction::Insert),
        (ItemPhase::Loading, ItemEvent::Loaded(false)) => (ItemPhase::Finished, ItemAction::Stop),
        (ItemPhase::Loading, ItemEvent::OwnerGone) => (ItemPhase::Finished, ItemAction::Stop),
        (ItemPhase::Loading, ItemEvent::Cancelled) => (ItemPhase::Finished, ItemAction::Stop),
        (ItemPhase::Live, ItemEvent::OwnerGone) => (ItemPhase::Finished, ItemAction::Remove),
        (ItemPhase::Live, ItemEvent::Cancelled) => (ItemPhase::Finished, ItemAction::Stop),
        _ => (phase, ItemAction::Wait),
    }
}

/// One step of an item's lifecycle (see [`item_step_spec`]).
pub fn item_step(phase: ItemPhase, event: ItemEvent) -> (r: (ItemPhase, ItemAction))
    ensures
        r == item_step_spec(phase, event),
{
    match (phase, event) {
        (ItemPhase::Arming, ItemEvent::WatchArmed(armed)) => if armed {
            (ItemPhase::Checking, ItemAction::CheckLiveness)
        } else {
            (ItemPhase::Finished, ItemAction::Stop)
        },
        (ItemPhase::Checking, ItemEvent::Alive(alive)) => if alive {
            (ItemPhase::Loading, ItemAction::LoadItem)
        } else {
            (ItemPhase::Finished, ItemAction::Stop)
        },
        (ItemPhase::Loading, ItemEvent::Loaded(loaded)) => if loaded {
            (ItemPhase::Live, ItemAction::Insert)
        } else {
            (ItemPhase::Finished, ItemAction::Stop)
        },
        (ItemPhase::Loading, ItemEvent::OwnerGone) => (ItemPhase::Finished, ItemAction::Stop),
        (ItemPhase::Loading, ItemEvent::Cancelled) => (ItemPhase::Finished, ItemAction::Stop),
        (ItemPhase::Live, ItemEvent::OwnerGone) => (ItemPhase::Finished, ItemAction::Remove),
        (ItemPhase::Live, ItemEvent::Cancelled) => (ItemPhase::Finished, ItemAction::Stop),
        _ => (phase, ItemAction::Wait),
    }
}

/// The phase reached and the actions asked for, one per event, when a lifecycle that starts
/// arming its watch receives `events` in order.
pub open spec fn item_run(events: Seq<ItemEvent>) -> (ItemPhase, Seq<ItemAction>)
    decreases events.len(),
{
    if events.len() == 0 {
        (ItemPhase::Arming, Seq::empty())
    } else {
        let (phase, actions) = item_run(events.drop_last());
        let (next, action) = item_step_spec(phase, events.last());
        (next, actions.push(action))
    }
}

/// How many times `a` occurs in `actions`.
pub open spec fn occurrences(actions: Seq<ItemAction>, a: ItemAction) -> nat
    decreases actions.len(),
{
    if actions.len() == 0 {
        0
    } else {
        occurrences(actions.drop_last(), a) + if actions.last() == a { 1nat } else { 0nat }
    }
}

/// What has been asked of the registrar in each phase: nothing before the item is live;
/// exactly one publication and no withdrawal while it is live; at most one of each, the
/// withdrawal only with a publication, once it is over.
pub open spec fn registrar_calls_agree(phase: ItemPhase, actions: Seq<ItemAction>) -> bool {
    let ins = occurrences(actions, ItemAction::Insert);
    let rem = occurrences(actions, ItemAction::Remove);
    match phase {
        ItemPhase::Live => ins == 1 && rem == 0,
        ItemPhase::Finished => ins <= 1 && rem <= ins,
        _ => ins == 0 && rem == 0,
    }
}

/// The registrar calls of a run agree with its phase (see [`registrar_calls_agree`]).
proof fn lemma_run_calls(events: Seq<ItemEvent>)
    ensures
        registrar_calls_agree(item_run(events).0, item_run(events).1),
        item_run(events).1.len() == events.len(),
    decreases events.len(),
{
    if events.len() > 0 {
        lemma_run_calls(events.drop_last());
        let (phase, actions) = item_run(events.drop_last());
        let (next, action) = item_step_spec(phase, events.last());
        assert(actions.push(action).drop_last() =~= actions);
    }
}

/// A run's actions for a prefix of the events are the prefix of its actions.
proof fn lemma_run_prefix(events: Seq<ItemEvent>, i: int)
    requires
        0 <= i <= events.len(),
    ensures
        item_run(events.take(i)).1 == item_run(events).1.take(i),
    decreases events.len(),
{
    lemma_run_calls(events);
    if i < events.len() {
        assert(events.drop_last().take(i) =~= events.take(i));
        lemma_run_prefix(events.drop_last(), i);
        lemma_run_calls(events.drop_last());
        assert(item_run(events).1.take(i) =~= item_run(events.drop_last()).1.take(i));
    } else {
        assert(events.take(i) =~= events);
        assert(item_run(events).1.take(i) =~= item_run(events).1);
    }
}

/// Whatever the bus reports, and in whatever order, a tray item is published at most once
/// and withdrawn at most once, and only once it was published: every withdrawal follows
/// the publication.
pub proof fn law_item_published_once_and_withdrawn_after(events: Seq<ItemEvent>)
    ensures
        occurrences(item_run(events).1, ItemAction::Insert) <= 1,
        occurrences(item_run(events).1, ItemAction::Remove) <= 1,
        forall|i: int|
            0 <= i < item_run(events).1.len() && #[trigger] item_run(events).1[i] == ItemAction::Remove
                ==> occurrences(item_run(events).1.take(i), ItemAction::Insert) == 1,
{
    lemma_run_calls(events);
    let acts = item_run(events).1;
    assert forall|i: int|
        0 <= i < acts.len() && #[trigger] acts[i] == ItemAction::Remove implies occurrences(
        acts.take(i),
        ItemAction::Insert,
    ) == 1 by {
        lemma_run_prefix(events, i);
        lemma_run_prefix(events, i + 1);
        lemma_run_calls(events.take(i));
        let before = item_run(events.take(i));
        assert(events.take(i + 1).drop_last() =~= events.take(i));
        assert(events.take(i + 1).last() == events[i]);
        assert(item_run(events.take(i + 1)).1.last() == acts.take(i + 1).last());
        assert(acts.take(i + 1).last() == acts[i]);
        assert(before.0 == ItemPhase::Live);
    }
}

} // verus!
