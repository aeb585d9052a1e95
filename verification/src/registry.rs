//! The registry of MCP servers: adding and removing servers and editing their
//! allowlists and denylists, over a store that loads and saves the entries.

use vstd::prelude::*;
use crate::configuration::model::McpServerEntry;
use crate::filter::{is_listed, listed};
use crate::strmap::StrMap;

verus! {

/// Why a registry request was refused.
#[derive(Debug, Clone, PartialEq, Eq)]
pub enum RegistryError {
    NotFound { name: String },
    AlreadyExists { name: String },
    Storage(String),
}

/// The message shown for each refusal.
pub open spec fn registry_error_message(e: RegistryError) -> Seq<char> {
    match e {
        RegistryError::NotFound { name } => "server '"@ + name@ + "' not found"@,
        RegistryError::AlreadyExists { name } => "server '"@ + name@ + "' already exists"@,
        RegistryError::Storage(message) => message@,
    }
}

impl RegistryError {
    /// The message shown to the user.
    pub fn to_string(&self) -> (s: String)
        ensures
            s@ == registry_error_message(*self),
    {
        match self {
            RegistryError::NotFound { name } => {
                let mut s = String::from_str("server '");
                s.append(name.as_str());
                s.append("' not found");
                s
            },
            RegistryError::AlreadyExists { name } => {
                let mut s = String::from_str("server '");
                s.append(name.as_str());
                s.append("' already exists");
                s
            },
            RegistryError::Storage(message) => message.clone(),
        }
    }
}

/// What a load of the store gave, as plain values.
pub open spec fn load_view(r: Result<StrMap<McpServerEntry>, String>) -> Result<Map<Seq<char>, McpServerEntry>, Seq<char>> {
    match r {
        Ok(m) => Ok(m@),
        Err(s) => Err(s@),
    }
}

/// What a save into the store answered, as plain values.
pub open spec fn save_view(r: Result<(), String>) -> Result<(), Seq<char>> {
    match r {
        Ok(()) => Ok(()),
        Err(s) => Err(s@),
    }
}

/// Where the registry keeps its entries (a file, or anything else a caller
/// provides). Each store says, in terms it defines itself, which results a
/// load may give and which answers a save of given entries may give, so that
/// what the registry does with them can be stated.
pub trait ProviderConfigStore {
    /// Holds of each result that a load of this store may give; a store that
    /// does not define it says nothing of its loads.
    closed spec fn loads(&self, r: Result<Map<Seq<char>, McpServerEntry>, Seq<char>>) -> bool {
        true
    }

    /// Holds of each answer that a save of `entries` into this store may give;
    /// a store that does not define it says nothing of its saves.
    closed spec fn saves(&self, entries: Map<Seq<char>, McpServerEntry>, r: Result<(), Seq<char>>) -> bool {
        true
    }

    fn load_entries(&self) -> (r: Result<StrMap<McpServerEntry>, String>)
        ensures
            self.loads(load_view(r)),
    ;

    fn save_entries(&self, entries: StrMap<McpServerEntry>) -> (r: Result<(), String>)
        ensures
            self.saves(entries@, save_view(r)),
    ;
}

/// Whether a load of `store` may give the entries `m`.
pub open spec fn gives<S: ProviderConfigStore>(store: S, m: Map<Seq<char>, McpServerEntry>) -> bool {
    store.loads(Ok(m))
}

/// Whether `r` is the storage error of a load of `store` that failed.
pub open spec fn load_refused<S: ProviderConfigStore, T>(store: S, r: Result<T, RegistryError>) -> bool {
    r matches Err(RegistryError::Storage(s)) && store.loads(Err(s@))
}

/// Whether `r` is what saving `m` into `store` may answer: success, or the
/// save's failure as a storage error.
pub open spec fn stored<S: ProviderConfigStore>(store: S, m: Map<Seq<char>, McpServerEntry>, r: Result<(), RegistryError>) -> bool {
    match r {
        Ok(()) => store.saves(m, Ok(())),
        Err(RegistryError::Storage(s)) => store.saves(m, Err(s@)),
        Err(_) => false,
    }
}

/// The outcome of adding `entry` as `name` once the load gave `m`: a taken
/// name is refused, else `m` with the entry is saved.
pub open spec fn add_outcome<S: ProviderConfigStore>(store: S, m: Map<Seq<char>, McpServerEntry>, name: Seq<char>, entry: McpServerEntry, r: Result<(), RegistryError>) -> bool {
    if m.contains_key(name) {
        r matches Err(e) && already_exists(e, name)
    } else {
        stored(store, m.insert(name, entry), r)
    }
}

/// The outcome of removing `name` once the load gave `m`: an unknown name is
/// refused, else `m` without it is saved.
pub open spec fn remove_outcome<S: ProviderConfigStore>(store: S, m: Map<Seq<char>, McpServerEntry>, name: Seq<char>, r: Result<(), RegistryError>) -> bool {
    if m.contains_key(name) {
        stored(store, m.remove(name), r)
    } else {
        r matches Err(e) && not_found(e, name)
    }
}

/// The outcome of editing a list of `name` once the load gave `m`: an unknown
/// name is refused, else the edited entries are saved.
pub open spec fn edit_outcome<S: ProviderConfigStore>(store: S, m: Map<Seq<char>, McpServerEntry>, name: Seq<char>,
    tools: Seq<String>, kind: ListKind, edit: ListEdit, r: Result<(), RegistryError>) -> bool {
    if m.contains_key(name) {
        exists|m2: Map<Seq<char>, McpServerEntry>| #[trigger] map_edited(m, m2, name, tools, kind, edit) && stored(store, m2, r)
    } else {
        r matches Err(e) && not_found(e, name)
    }
}

/// The outcome of reading a list of `name` once the load gave `m`.
pub open spec fn list_outcome(m: Map<Seq<char>, McpServerEntry>, name: Seq<char>, kind: ListKind, r: Result<Vec<String>, RegistryError>) -> bool {
    if m.contains_key(name) {
        r matches Ok(v) && v@ == match kind {
            ListKind::Allowed => m[name].allowed(),
            ListKind::Denied => m[name].denied(),
        }
    } else {
        r matches Err(e) && not_found(e, name)
    }
}

/// The allowlist and denylist of a registered server.
pub trait ProviderEntry {
    spec fn allowed_spec(&self) -> Seq<String>;

    spec fn denied_spec(&self) -> Seq<String>;

    fn allowed_operations(&self) -> (r: &[String])
        ensures
            r@ == self.allowed_spec(),
    ;

    fn allowed_operations_mut(&mut self) -> (r: &mut Vec<String>)
        ensures
            r@ == old(self).allowed_spec(),
            final(self).allowed_spec() == final(r)@,
            final(self).denied_spec() == old(self).denied_spec(),
    ;

    fn denied_operations(&self) -> (r: &[String])
        ensures
            r@ == self.denied_spec(),
    ;

    fn denied_operations_mut(&mut self) -> (r: &mut Vec<String>)
        ensures
            r@ == old(self).denied_spec(),
            final(self).denied_spec() == final(r)@,
            final(self).allowed_spec() == old(self).allowed_spec(),
    ;
}

impl ProviderEntry for McpServerEntry {
    open spec fn allowed_spec(&self) -> Seq<String> {
        self.allowed()
    }

    open spec fn denied_spec(&self) -> Seq<String> {
        self.denied()
    }

    fn allowed_operations(&self) -> (r: &[String]) {
        McpServerEntry::allowed_operations(self)
    }

    fn allowed_operations_mut(&mut self) -> (r: &mut Vec<String>) {
        McpServerEntry::allowed_operations_mut(self)
    }

    fn denied_operations(&self) -> (r: &[String]) {
        McpServerEntry::denied_operations(self)
    }

    fn denied_operations_mut(&mut self) -> (r: &mut Vec<String>) {
        McpServerEntry::denied_operations_mut(self)
    }
}

/// `list` with each of `tools` appended that it does not hold yet, in order.
pub open spec fn add_missing(list: Seq<String>, tools: Seq<String>) -> Seq<String>
    decreases tools.len(),
{
    if tools.len() == 0 {
        list
    } else {
        let next = if listed(list, tools[0]@) { list } else { list.push(tools[0]) };
        add_missing(next, tools.drop_first())
    }
}

/// `list` without any of `tools`, in its order.
pub open spec fn without(list: Seq<String>, tools: Seq<String>) -> Seq<String> {
    list.filter(|t: String| !listed(tools, t@))
}

/// Appends to `list` each of `tools` that it does not hold yet.
pub fn append_missing(list: &mut Vec<String>, tools: &[String])
    ensures
        final(list)@ == add_missing(old(list)@, tools@),
{
    let n = tools.len();
    let mut i: usize = 0;
    let ghost orig = list@;
    assert(tools@.skip(0) == tools@);
    while i < n
        invariant
            i <= n,
            n == tools@.len(),
            add_missing(orig, tools@) == add_missing(list@, tools@.skip(i as int)),
        decreases n - i,
    {
        assert(tools@.skip(i as int)[0] == tools@[i as int]);
        assert(tools@.skip(i as int).drop_first() =~= tools@.skip(i + 1));
        if !is_listed(list.as_slice(), tools[i].as_str()) {
            list.push(tools[i].clone());
        }
        i = i + 1;
    }
}

/// Keeps in `list` only what `tools` does not name.
pub fn remove_listed(list: &mut Vec<String>, tools: &[String])
    ensures
        final(list)@ == without(old(list)@, tools@),
{
    let ghost orig = list@;
    let ghost pred = |t: String| !listed(tools@, t@);
    let n = list.len();
    let mut kept: Vec<String> = Vec::new();
    let mut i: usize = 0;
    while i < n
        invariant
            i <= n,
            n == list@.len(),
            list@ == orig,
            pred == (|t: String| !listed(tools@, t@)),
            kept@ == orig.take(i as int).filter(pred),
        decreases n - i,
    {
        assert(orig.take(i + 1) =~= orig.take(i as int).push(list@[i as int]));
        proof { orig.take(i as int).lemma_filter_push(list@[i as int], pred); }
        let ghost before = kept@;
        let keep = !is_listed(tools, list[i].as_str());
        assert(keep == pred(list@[i as int]));
        if keep {
            let c = list[i].clone();
            kept.push(c);
            assert(kept@ == before.push(list@[i as int]));
        }
        assert(kept@ == orig.take(i + 1).filter(pred));
        i = i + 1;
    }
    assert(orig.take(n as int) =~= orig);
    *list = kept;
}

/// Which list of a server an edit changes.
#[derive(Debug, Clone, Copy, PartialEq, Eq)]
pub enum ListKind {
    Allowed,
    Denied,
}

/// Whether an edit adds tools to a list or removes them.
#[derive(Debug, Clone, Copy, PartialEq, Eq)]
pub enum ListEdit {
    Add,
    Remove,
}

/// The list that an edit produces.
pub open spec fn edited(list: Seq<String>, tools: Seq<String>, edit: ListEdit) -> Seq<String> {
    match edit {
        ListEdit::Add => add_missing(list, tools),
        ListEdit::Remove => without(list, tools),
    }
}

/// Whether `after` is `before` with the chosen list edited and all else kept.
pub open spec fn entry_edited(before: McpServerEntry, after: McpServerEntry, tools: Seq<String>, kind: ListKind, edit: ListEdit) -> bool {
    match kind {
        ListKind::Allowed => after == before.with_allowed(after.allowed_vec())
            && after.allowed() == edited(before.allowed(), tools, edit),
        ListKind::Denied => after == before.with_denied(after.denied_vec())
            && after.denied() == edited(before.denied(), tools, edit),
    }
}

/// Whether `after` is `before` with one list of server `name` edited, as
/// `edit_entry` does it.
pub open spec fn map_edited(before: Map<Seq<char>, McpServerEntry>, after: Map<Seq<char>, McpServerEntry>,
    name: Seq<char>, tools: Seq<String>, kind: ListKind, edit: ListEdit) -> bool {
    &&& before.contains_key(name)
    &&& after.dom() == before.dom()
    &&& forall|k: Seq<char>| k != name && #[trigger] before.contains_key(k) ==> after[k] == before[k]
    &&& entry_edited(before[name], after[name], tools, kind, edit)
}

/// Whether `e` is the not-found error for `name`.
pub open spec fn not_found(e: RegistryError, name: Seq<char>) -> bool {
    e matches RegistryError::NotFound { name: n } && n@ == name
}

/// Whether `e` is the already-exists error for `name`.
pub open spec fn already_exists(e: RegistryError, name: Seq<char>) -> bool {
    e matches RegistryError::AlreadyExists { name: n } && n@ == name
}

/// Registers `entry` under `name`, unless a server of that name exists.
pub fn add_entry(entries: &mut StrMap<McpServerEntry>, name: String, entry: McpServerEntry) -> (r: Result<(), RegistryError>)
    ensures
        match r {
            Ok(()) => !old(entries)@.contains_key(name@) && final(entries)@ == old(entries)@.insert(name@, entry),
            Err(e) => old(entries)@.contains_key(name@) && already_exists(e, name@) && final(entries)@ == old(entries)@,
        },
{
    if entries.contains_key(name.as_str()) {
        return Err(RegistryError::AlreadyExists { name });
    }
    entries.insert(name, entry);
    Ok(())
}

/// Unregisters the server `name`, which must exist.
pub fn remove_entry(entries: &mut StrMap<McpServerEntry>, name: &str) -> (r: Result<(), RegistryError>)
    ensures
        match r {
            Ok(()) => old(entries)@.contains_key(name@) && final(entries)@ == old(entries)@.remove(name@),
            Err(e) => !old(entries)@.contains_key(name@) && not_found(e, name@) && final(entries)@ == old(entries)@,
        },
{
    match entries.remove(name) {
        Some(_) => Ok(()),
        None => {
            assert(entries@ =~= old(entries)@);
            Err(RegistryError::NotFound { name: String::from_str(name) })
        },
    }
}

/// Adds `tools` to, or removes them from, one list of the server `name`.
pub fn edit_entry(entries: &mut StrMap<McpServerEntry>, name: &str, tools: &[String], kind: ListKind, edit: ListEdit) -> (r: Result<(), RegistryError>)
    ensures
        match r {
            Ok(()) => map_edited(old(entries)@, final(entries)@, name@, tools@, kind, edit),
            Err(e) => !old(entries)@.contains_key(name@) && not_found(e, name@) && final(entries)@ == old(entries)@,
        },
{
    let mut entry = match entries.remove(name) {
        Some(e) => e,
        None => {
            assert(entries@ =~= old(entries)@);
            return Err(RegistryError::NotFound { name: String::from_str(name) });
        },
    };
    let ghost before = entry;
    match kind {
        ListKind::Allowed => {
            let list = entry.allowed_operations_mut();
            match edit {
                ListEdit::Add => append_missing(list, tools),
                ListEdit::Remove => remove_listed(list, tools),
            }
        },
        ListKind::Denied => {
            let list = entry.denied_operations_mut();
            match edit {
                ListEdit::Add => append_missing(list, tools),
                ListEdit::Remove => remove_listed(list, tools),
            }
        },
    }
    let ghost mid = entries@;
    entries.insert(String::from_str(name), entry);
    assert(entries@.dom() =~= old(entries)@.dom());
    Ok(())
}

/// The chosen list of the server `name`.
pub fn entry_list(entries: &StrMap<McpServerEntry>, name: &str, kind: ListKind) -> (r: Result<Vec<String>, RegistryError>)
    ensures
        match r {
            Ok(v) => entries@.contains_key(name@) && v@ == match kind {
                ListKind::Allowed => entries@[name@].allowed(),
                ListKind::Denied => entries@[name@].denied(),
            },
            Err(e) => !entries@.contains_key(name@) && not_found(e, name@),
        },
{
    match entries.get(name) {
        None => Err(RegistryError::NotFound { name: String::from_str(name) }),
        Some(entry) => {
            let list = match kind {
                ListKind::Allowed => entry.allowed_operations(),
                ListKind::Denied => entry.denied_operations(),
            };
            let mut v: Vec<String> = Vec::new();
            let n = list.len();
            let mut i: usize = 0;
            while i < n
                invariant
                    i <= n,
                    n == list@.len(),
                    v@ == list@.take(i as int),
                decreases n - i,
            {
                v.push(list[i].clone());
                assert(list@.take(i + 1) =~= list@.take(i as int).push(list@[i as int]));
                i = i + 1;
            }
            assert(list@.take(n as int) =~= list@);
            Ok(v)
        },
    }
}

/// The registry over a store: each request loads the entries, applies its
/// change, and saves them back.
pub struct RegistryService<S: ProviderConfigStore> {
    store: S,
}

impl<S: ProviderConfigStore> RegistryService<S> {
    pub closed spec fn spec_store(&self) -> S {
        self.store
    }

    pub fn new(store: S) -> (r: Self)
        ensures
            r.spec_store() == store,
    {
        RegistryService { store }
    }

    pub fn store(&self) -> (s: &S)
        ensures
            *s == self.spec_store(),
    {
        &self.store
    }

    fn load(&self) -> (r: Result<StrMap<McpServerEntry>, RegistryError>)
        ensures
            match r {
                Ok(m) => gives(self.spec_store(), m@),
                Err(_) => load_refused(self.spec_store(), r),
            },
    {
        match self.store.load_entries() {
            Ok(m) => Ok(m),
            Err(e) => Err(RegistryError::Storage(e)),
        }
    }

    fn save(&self, entries: StrMap<McpServerEntry>) -> (r: Result<(), RegistryError>)
        ensures
            stored(self.spec_store(), entries@, r),
    {
        match self.store.save_entries(entries) {
            Ok(()) => Ok(()),
            Err(e) => Err(RegistryError::Storage(e)),
        }
    }

    /// The registered servers: what the store's load gave.
    pub fn list_providers(&self) -> (r: Result<StrMap<McpServerEntry>, RegistryError>)
        ensures
            match r {
                Ok(m) => gives(self.spec_store(), m@),
                Err(_) => load_refused(self.spec_store(), r),
            },
    {
        self.load()
    }

    /// Registers `entry` as `name`: the loaded entries with it added are
    /// saved; a taken name is refused.
    pub fn add_provider(&self, name: String, entry: McpServerEntry) -> (r: Result<(), RegistryError>)
        ensures
            load_refused(self.spec_store(), r) || exists|m: Map<Seq<char>, McpServerEntry>|
                #[trigger] gives(self.spec_store(), m) && add_outcome(self.spec_store(), m, name@, entry, r),
    {
        let mut entries = self.load()?;
        add_entry(&mut entries, name, entry)?;
        self.save(entries)
    }

    /// Unregisters `name`: the loaded entries without it are saved; an
    /// unknown name is refused.
    pub fn remove_provider(&self, name: &str) -> (r: Result<(), RegistryError>)
        ensures
            load_refused(self.spec_store(), r) || exists|m: Map<Seq<char>, McpServerEntry>|
                #[trigger] gives(self.spec_store(), m) && remove_outcome(self.spec_store(), m, name@, r),
    {
        let mut entries = self.load()?;
        remove_entry(&mut entries, name)?;
        self.save(entries)
    }

    fn edit(&self, name: &str, tools: &[String], kind: ListKind, edit: ListEdit) -> (r: Result<(), RegistryError>)
        ensures
            load_refused(self.spec_store(), r) || exists|m: Map<Seq<char>, McpServerEntry>|
                #[trigger] gives(self.spec_store(), m) && edit_outcome(self.spec_store(), m, name@, tools@, kind, edit, r),
    {
        let mut entries = self.load()?;
        let ghost before = entries@;
        edit_entry(&mut entries, name, tools, kind, edit)?;
        let ghost after = entries@;
        let r = self.save(entries);
        proof {
            assert(map_edited(before, after, name@, tools@, kind, edit) && stored(self.spec_store(), after, r));
        }
        r
    }

    /// Adds the tools that `name`'s allowlist lacks, and saves the result.
    pub fn add_allowed_operations(&self, name: &str, tools: &[String]) -> (r: Result<(), RegistryError>)
        ensures
            load_refused(self.spec_store(), r) || exists|m: Map<Seq<char>, McpServerEntry>|
                #[trigger] gives(self.spec_store(), m)
                && edit_outcome(self.spec_store(), m, name@, tools@, ListKind::Allowed, ListEdit::Add, r),
    {
        self.edit(name, tools, ListKind::Allowed, ListEdit::Add)
    }

    /// Removes the tools from `name`'s allowlist, and saves the result.
    pub fn remove_allowed_operations(&self, name: &str, tools: &[String]) -> (r: Result<(), RegistryError>)
        ensures
            load_refused(self.spec_store(), r) || exists|m: Map<Seq<char>, McpServerEntry>|
                #[trigger] gives(self.spec_store(), m)
                && edit_outcome(self.spec_store(), m, name@, tools@, ListKind::Allowed, ListEdit::Remove, r),
    {
        self.edit(name, tools, ListKind::Allowed, ListEdit::Remove)
    }

    /// Adds the tools that `name`'s denylist lacks, and saves the result.
    pub fn add_denied_operations(&self, name: &str, tools: &[String]) -> (r: Result<(), RegistryError>)
        ensures
            load_refused(self.spec_store(), r) || exists|m: Map<Seq<char>, McpServerEntry>|
                #[trigger] gives(self.spec_store(), m)
                && edit_outcome(self.spec_store(), m, name@, tools@, ListKind::Denied, ListEdit::Add, r),
    {
        self.edit(name, tools, ListKind::Denied, ListEdit::Add)
    }

    /// Removes the tools from `name`'s denylist, and saves the result.
    pub fn remove_denied_operations(&self, name: &str, tools: &[String]) -> (r: Result<(), RegistryError>)
        ensures
            load_refused(self.spec_store(), r) || exists|m: Map<Seq<char>, McpServerEntry>|
                #[trigger] gives(self.spec_store(), m)
                && edit_outcome(self.spec_store(), m, name@, tools@, ListKind::Denied, ListEdit::Remove, r),
    {
        self.edit(name, tools, ListKind::Denied, ListEdit::Remove)
    }

    /// The allowlist of `name` in the loaded entries.
    pub fn get_allowed_operations(&self, name: &str) -> (r: Result<Vec<String>, RegistryError>)
        ensures
            load_refused(self.spec_store(), r) || exists|m: Map<Seq<char>, McpServerEntry>|
                #[trigger] gives(self.spec_store(), m) && list_outcome(m, name@, ListKind::Allowed, r),
    {
        let entries = self.load()?;
        entry_list(&entries, name, ListKind::Allowed)
    }

    /// The denylist of `name` in the loaded entries.
    pub fn get_denied_operations(&self, name: &str) -> (r: Result<Vec<String>, RegistryError>)
        ensures
            load_refused(self.spec_store(), r) || exists|m: Map<Seq<char>, McpServerEntry>|
                #[trigger] gives(self.spec_store(), m) && list_outcome(m, name@, ListKind::Denied, r),
    {
        let entries = self.load()?;
        entry_list(&entries, name, ListKind::Denied)
    }
}

/// Adding a server registers it, and refuses a name that is taken.
pub proof fn law_add_then_lookup(before: Map<Seq<char>, McpServerEntry>, name: Seq<char>, entry: McpServerEntry)
    requires
        !before.contains_key(name),
    ensures
        before.insert(name, entry).contains_key(name),
        before.insert(name, entry)[name] == entry,
        before.insert(name, entry).remove(name) == before,
{
    assert(before.insert(name, entry).remove(name) =~= before);
}

/// After tools are added to a list, each of them is on it; after they are
/// removed, none of them is; tools already on the list keep their place.
pub proof fn law_list_edits(list: Seq<String>, tools: Seq<String>)
    ensures
        forall|i: int| 0 <= i < tools.len() ==> listed(add_missing(list, tools), #[trigger] tools[i]@),
        forall|i: int| 0 <= i < list.len() ==> add_missing(list, tools)[i] == list[i],
        forall|i: int| 0 <= i < tools.len() ==> !listed(without(list, tools), #[trigger] tools[i]@),
    decreases tools.len(),
{
    lemma_add_missing(list, tools);
    let pred = |t: String| !listed(tools, t@);
    list.filter_lemma(pred);
    assert forall|i: int| 0 <= i < tools.len() implies !listed(without(list, tools), #[trigger] tools[i]@) by {
        let w = without(list, tools);
        if listed(w, tools[i]@) {
            let j = choose|j: int| 0 <= j < w.len() && w[j]@ == tools[i]@;
            assert(pred(w[j]));
        }
    }
}

/// What appending the missing tools keeps and adds.
pub proof fn lemma_add_missing(list: Seq<String>, tools: Seq<String>)
    ensures
        forall|i: int| 0 <= i < tools.len() ==> listed(add_missing(list, tools), #[trigger] tools[i]@),
        add_missing(list, tools).len() >= list.len(),
        forall|i: int| 0 <= i < list.len() ==> add_missing(list, tools)[i] == list[i],
        forall|x: Seq<char>| listed(list, x) ==> listed(add_missing(list, tools), x),
    decreases tools.len(),
{
    if tools.len() > 0 {
        let next = if listed(list, tools[0]@) { list } else { list.push(tools[0]) };
        lemma_add_missing(next, tools.drop_first());
        assert forall|x: Seq<char>| listed(list, x) implies listed(next, x) by {
            if listed(list, x) {
                let j = choose|j: int| 0 <= j < list.len() && list[j]@ == x;
                assert(next[j] == list[j]);
            }
        }
        if !listed(list, tools[0]@) {
            assert(next[list.len() as int] == tools[0]);
        }
        assert forall|i: int| 0 <= i < list.len() implies add_missing(list, tools)[i] == list[i] by {
            assert(next[i] == list[i]);
        }
        assert forall|i: int| 0 <= i < tools.len() implies listed(add_missing(list, tools), #[trigger] tools[i]@) by {
            if i > 0 {
                assert(tools.drop_first()[i - 1] == tools[i]);
            }
        }
    }
}

/// Adding tools that a list already holds leaves it as it is.
pub proof fn lemma_add_listed(list: Seq<String>, tools: Seq<String>)
    requires
        forall|i: int| 0 <= i < tools.len() ==> listed(list, #[trigger] tools[i]@),
    ensures
        add_missing(list, tools) == list,
    decreases tools.len(),
{
    if tools.len() > 0 {
        assert(listed(list, tools[0]@));
        let rest = tools.drop_first();
        assert forall|i: int| 0 <= i < rest.len() implies listed(list, #[trigger] rest[i]@) by {
            assert(rest[i] == tools[i + 1]);
        }
        lemma_add_listed(list, rest);
    }
}

/// Filtering a sequence whose items all pass keeps it as it is.
proof fn lemma_filter_keeps_all(s: Seq<String>, pred: spec_fn(String) -> bool)
    requires
        forall|i: int| 0 <= i < s.len() ==> pred(#[trigger] s[i]),
    ensures
        s.filter(pred) == s,
    decreases s.len(),
{
    reveal(Seq::filter);
    if s.len() > 0 {
        let init = s.drop_last();
        assert forall|i: int| 0 <= i < init.len() implies pred(#[trigger] init[i]) by {
            assert(init[i] == s[i]);
        }
        lemma_filter_keeps_all(init, pred);
        assert(pred(s[s.len() - 1]));
        assert(init.push(s.last()) =~= s);
    }
}

/// Editing a list twice with the same tools is editing it once: adding tools
/// already added, or removing tools already removed, changes nothing.
pub proof fn law_edits_idempotent(list: Seq<String>, tools: Seq<String>)
    ensures
        add_missing(add_missing(list, tools), tools) == add_missing(list, tools),
        without(without(list, tools), tools) == without(list, tools),
{
    lemma_add_missing(list, tools);
    lemma_add_listed(add_missing(list, tools), tools);
    let pred = |t: String| !listed(tools, t@);
    list.filter_lemma(pred);
    let w = without(list, tools);
    assert forall|i: int| 0 <= i < w.len() implies pred(#[trigger] w[i]) by {}
    lemma_filter_keeps_all(w, pred);
}

} // verus!
