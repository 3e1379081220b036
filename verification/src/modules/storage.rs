//! `storage` native module: a persistent key-value store.
//!
//! The store lives in `<sandbox_root>/storage.json` as a JSON object of
//! string values. This module holds the in-memory store and its JSON text;
//! the host reads and writes the file.
//!
//! Methods: `storage.get` — `{ key } → { value | null }`,
//! `storage.set` — `{ key, value } → {}`, `storage.remove` — `{ key } → {}`.
use std::collections::HashMap;
use std::path::PathBuf;

use vstd::prelude::*;

use crate::permissions::engine::{spec_require, PermissionEngine, PermissionKey};
use crate::table::{
    find_key, lemma_push_fresh, lemma_table_lookup, lemma_table_push, lemma_table_remove,
    lemma_table_update, table_map, unique_keys,
};

verus! {

/// `serde_json::Error`, carried opaquely.
#[verifier::external_type_specification]
#[verifier::external_body]
pub struct ExJsonError(serde_json::Error);

/// The object that `serde_json` reads from `text` as a map of strings to
/// strings, or `None` when `text` is not such an object.
pub uninterp spec fn spec_parse_string_map(text: Seq<char>) -> Option<Map<Seq<char>, Seq<char>>>;

/// The text of each value of a map.
pub open spec fn value_views(m: Map<Seq<char>, String>) -> Map<Seq<char>, Seq<char>> {
    m.map_values(|s: String| s@)
}

/// `serde_json::from_str::<HashMap<String, String>>`: parses `text` as a
/// JSON object whose values are strings; the pairs are handed back in the
/// map's iteration order. Succeeds exactly when the text is such an object;
/// a map has no key twice.
#[verifier::external_body]
fn parse_string_map(text: &str) -> (r: Result<Vec<(String, String)>, serde_json::Error>)
    ensures
        r is Ok <==> spec_parse_string_map(text@) is Some,
        r matches Ok(pairs) ==> unique_keys(pairs@) && value_views(table_map(pairs@))
            == spec_parse_string_map(text@)->Some_0,
{
    serde_json::from_str::<HashMap<String, String>>(text).map(|m| m.into_iter().collect())
}

/// `serde_json::to_string_pretty` of the map built from `pairs`: the pretty
/// JSON text of an object with those keys and string values, in the map's
/// iteration order. Its documentation gives only two causes of failure, a
/// `Serialize` impl that fails or a map with non-string keys; neither can
/// occur for a map of strings to strings, so it always succeeds. What is
/// stated of the text is that reading it back gives the same map; the text
/// itself varies with the order.
#[verifier::external_body]
fn to_pretty_json(pairs: &Vec<(String, String)>) -> (r: Result<String, serde_json::Error>)
    requires
        unique_keys(pairs@),
    ensures
        r is Ok,
        r matches Ok(text) ==> spec_parse_string_map(text@) == Some(value_views(table_map(pairs@))),
{
    let map: HashMap<&String, &String> = pairs.iter().map(|(k, v)| (k, v)).collect();
    serde_json::to_string_pretty(&map)
}

/// `<serde_json::Error as Display>::to_string`: the error's message. Nothing
/// about the text is stated.
#[verifier::external_body]
fn json_error_text(e: &serde_json::Error) -> String {
    e.to_string()
}

/// The contents a store starts with, given the text of its file (`None` when
/// there is no file): empty without a file, else what the text parses to.
pub open spec fn loaded_contents(text: Option<Seq<char>>) -> Option<Map<Seq<char>, Seq<char>>> {
    match text {
        None => Some(Map::empty()),
        Some(t) => spec_parse_string_map(t),
    }
}

/// In-process key-value store backed by a JSON file.
pub struct Store {
    path: PathBuf,
    data: Vec<(String, String)>,
}

impl Store {
    #[verifier::type_invariant]
    spec fn inv(self) -> bool {
        unique_keys(self.data@)
    }

    /// The file the store persists to.
    pub closed spec fn spec_path(&self) -> PathBuf {
        self.path
    }

    /// The stored values by key.
    pub closed spec fn entries(&self) -> Map<Seq<char>, String> {
        table_map(self.data@)
    }

    /// The stored values by key, as text.
    pub open spec fn contents(&self) -> Map<Seq<char>, Seq<char>> {
        value_views(self.entries())
    }

    /// An empty store persisting to `path`.
    pub fn empty(path: PathBuf) -> (r: Self)
        ensures
            r.spec_path() == path,
            r.entries() == Map::<Seq<char>, String>::empty(),
    {
        Store { path, data: Vec::new() }
    }

    /// The store persisting to `path`, from the text of its file (`None` when
    /// the file does not exist, which gives an empty store).
    ///
    /// Text that is not a JSON object of strings is an error whose message
    /// begins `storage: failed to parse store: `.
    pub fn load(path: PathBuf, text: Option<&str>) -> (r: Result<Self, String>)
        ensures
            r is Ok <==> loaded_contents(
                match text {
                    Some(t) => Some(t@),
                    None => None,
                },
            ) is Some,
            r matches Ok(s) ==> s.spec_path() == path && Some(s.contents()) == loaded_contents(
                match text {
                    Some(t) => Some(t@),
                    None => None,
                },
            ),
            r matches Err(m) ==> m@.len() >= 32 && m@.take(32) == "storage: failed to parse store: "@,
    {
        match text {
            None => {
                let s = Self::empty(path);
                assert(s.contents() =~= Map::empty());
                Ok(s)
            },
            Some(t) => match parse_string_map(t) {
                Ok(data) => Ok(Store { path, data }),
                Err(e) => {
                    let mut m = String::from_str("storage: failed to parse store: ");
                    let detail = json_error_text(&e);
                    proof {
                        reveal_strlit("storage: failed to parse store: ");
                    }
                    let ghost prefix = m@;
                    m.append(detail.as_str());
                    assert(m@.take(32) =~= prefix);
                    assert(m@.len() >= 32);
                    Err(m)
                },
            },
        }
    }

    /// The file the store persists to.
    pub fn path(&self) -> (r: &PathBuf)
        ensures
            *r == self.spec_path(),
    {
        &self.path
    }

    /// The value for `key`, or `None` if absent.
    pub fn get(&self, key: &str) -> (r: Option<&String>)
        ensures
            r is Some <==> self.entries().contains_key(key@),
            r matches Some(v) ==> *v == self.entries()[key@],
    {
        proof {
            use_type_invariant(self);
        }
        match find_key(&self.data, key) {
            Some(i) => {
                proof {
                    lemma_table_lookup(self.data@, i as int);
                }
                Some(&self.data[i].1)
            },
            None => None,
        }
    }

    /// Set `key` to `value` in memory; the host then writes the store out.
    pub fn set(&mut self, key: String, value: String)
        ensures
            final(self).entries() == old(self).entries().insert(key@, value),
            final(self).spec_path() == old(self).spec_path(),
    {
        proof {
            use_type_invariant(&*self);
        }
        let mut data: Vec<(String, String)> = Vec::new();
        std::mem::swap(&mut data, &mut self.data);
        match find_key(&data, key.as_str()) {
            Some(i) => {
                let entry = (key, value);
                proof {
                    lemma_table_update(data@, i as int, entry);
                }
                data.set(i, entry);
            },
            None => {
                let entry = (key, value);
                proof {
                    lemma_push_fresh(data@, entry);
                    lemma_table_push(data@, entry);
                }
                data.push(entry);
            },
        }
        self.data = data;
    }

    /// Remove `key` in memory (nothing happens if it is absent); the host then
    /// writes the store out.
    pub fn remove(&mut self, key: &str)
        ensures
            final(self).entries() == old(self).entries().remove(key@),
            final(self).spec_path() == old(self).spec_path(),
    {
        proof {
            use_type_invariant(&*self);
        }
        let mut data: Vec<(String, String)> = Vec::new();
        std::mem::swap(&mut data, &mut self.data);
        match find_key(&data, key) {
            Some(i) => {
                proof {
                    lemma_table_remove(data@, i as int);
                }
                data.remove(i);
            },
            None => {
                assert(table_map(data@).remove(key@) =~= table_map(data@));
            },
        }
        self.data = data;
    }

    /// The JSON text the store is written as: always produced, and reading it
    /// back gives the same contents. (A serialization failure would be an
    /// error whose message begins `storage: failed to serialize store: `; a
    /// map of strings cannot fail to serialize.)
    pub fn serialized(&self) -> (r: Result<String, String>)
        ensures
            r is Ok,
            r matches Ok(text) ==> spec_parse_string_map(text@) == Some(self.contents()),
    {
        proof {
            use_type_invariant(self);
        }
        match to_pretty_json(&self.data) {
            Ok(text) => Ok(text),
            Err(e) => {
                let mut m = String::from_str("storage: failed to serialize store: ");
                let detail = json_error_text(&e);
                m.append(detail.as_str());
                Err(m)
            },
        }
    }
}

/// The entries after the writes `writes` are applied in order, each as
/// [`Store::set`] applies one.
pub open spec fn apply_writes(
    entries: Map<Seq<char>, String>,
    writes: Seq<(Seq<char>, String)>,
) -> Map<Seq<char>, String>
    decreases writes.len(),
{
    if writes.len() == 0 {
        entries
    } else {
        apply_writes(entries, writes.drop_last()).insert(writes.last().0, writes.last().1)
    }
}

/// No two writes are to the same key.
pub open spec fn distinct_keys(writes: Seq<(Seq<char>, String)>) -> bool {
    forall|i: int, j: int|
        0 <= i < writes.len() && 0 <= j < writes.len() && i != j ==> #[trigger] writes[i].0
            != #[trigger] writes[j].0
}

/// No write is lost: after writes to distinct keys, each key holds the value
/// written to it, and every other key keeps what it held.
pub proof fn lemma_writes_all_kept(entries: Map<Seq<char>, String>, writes: Seq<(Seq<char>, String)>)
    requires
        distinct_keys(writes),
    ensures
        forall|i: int|
            0 <= i < writes.len() ==> #[trigger] apply_writes(entries, writes).contains_key(
                writes[i].0,
            ) && apply_writes(entries, writes)[writes[i].0] == writes[i].1,
        forall|k: Seq<char>|
            (forall|i: int| 0 <= i < writes.len() ==> writes[i].0 != k) ==> (#[trigger] apply_writes(
                entries,
                writes,
            ).contains_key(k) == entries.contains_key(k) && (entries.contains_key(k)
                ==> apply_writes(entries, writes)[k] == entries[k])),
    decreases writes.len(),
{
    if writes.len() > 0 {
        let p = writes.drop_last();
        assert(distinct_keys(p)) by {
            assert forall|i: int, j: int|
                0 <= i < p.len() && 0 <= j < p.len() && i != j implies #[trigger] p[i].0
                != #[trigger] p[j].0 by {
                assert(p[i] == writes[i] && p[j] == writes[j]);
            }
        }
        lemma_writes_all_kept(entries, p);
        let last = writes[writes.len() - 1];
        assert(apply_writes(entries, writes) == apply_writes(entries, p).insert(last.0, last.1));
        assert forall|i: int| 0 <= i < writes.len() implies #[trigger] apply_writes(
            entries,
            writes,
        ).contains_key(writes[i].0) && apply_writes(entries, writes)[writes[i].0]
            == writes[i].1 by {
            if i < writes.len() - 1 {
                assert(p[i] == writes[i]);
                assert(writes[i].0 != writes[writes.len() - 1].0);
                assert(apply_writes(entries, p).contains_key(p[i].0));
            }
        }
        assert forall|k: Seq<char>|
            (forall|i: int| 0 <= i < writes.len() ==> writes[i].0 != k) implies (
            #[trigger] apply_writes(entries, writes).contains_key(k) == entries.contains_key(k)
                && (entries.contains_key(k) ==> apply_writes(entries, writes)[k] == entries[k])) by {
            assert(writes[writes.len() - 1].0 != k);
            assert forall|i: int| 0 <= i < p.len() implies p[i].0 != k by {
                assert(p[i] == writes[i]);
            }
            assert(apply_writes(entries, p).contains_key(k) == entries.contains_key(k));
        }
    }
}

/// The order of writes to distinct keys does not matter: two runs of the same
/// writes, in any two orders (as concurrent callers may interleave them),
/// leave the same entries.
pub proof fn lemma_write_order_irrelevant(
    entries: Map<Seq<char>, String>,
    a: Seq<(Seq<char>, String)>,
    b: Seq<(Seq<char>, String)>,
)
    requires
        distinct_keys(a),
        distinct_keys(b),
        forall|i: int| 0 <= i < a.len() ==> b.contains(#[trigger] a[i]),
        forall|j: int| 0 <= j < b.len() ==> a.contains(#[trigger] b[j]),
    ensures
        apply_writes(entries, a) == apply_writes(entries, b),
{
    lemma_writes_all_kept(entries, a);
    lemma_writes_all_kept(entries, b);
    let ma = apply_writes(entries, a);
    let mb = apply_writes(entries, b);
    assert forall|k: Seq<char>| #[trigger] ma.contains_key(k) == mb.contains_key(k) && (
    ma.contains_key(k) ==> ma[k] == mb[k]) by {
        if exists|i: int| 0 <= i < a.len() && a[i].0 == k {
            let i = choose|i: int| 0 <= i < a.len() && a[i].0 == k;
            assert(b.contains(a[i]));
            let j = choose|j: int| 0 <= j < b.len() && b[j] == a[i];
            assert(ma.contains_key(a[i].0));
            assert(mb.contains_key(b[j].0));
        } else if exists|j: int| 0 <= j < b.len() && b[j].0 == k {
            let j = choose|j: int| 0 <= j < b.len() && b[j].0 == k;
            assert(a.contains(b[j]));
            let i = choose|i: int| 0 <= i < a.len() && a[i] == b[j];
            assert(false);
        } else {
            assert(forall|i: int| 0 <= i < a.len() ==> a[i].0 != k);
            assert(forall|j: int| 0 <= j < b.len() ==> b[j].0 != k);
        }
    }
    assert(ma =~= mb);
}

/// Text that [`Store::serialized`] produced for a store, loaded back with
/// [`Store::load`], gives that store's contents.
pub proof fn lemma_serialized_reloads(s: Store, text: Seq<char>)
    requires
        spec_parse_string_map(text) == Some(s.contents()),
    ensures
        loaded_contents(Some(text)) == Some(s.contents()),
{
}

/// The requirements after the `storage` module declares its methods.
pub open spec fn storage_requirements(reqs: Map<Seq<char>, PermissionKey>) -> Map<
    Seq<char>,
    PermissionKey,
> {
    spec_require(
        spec_require(
            spec_require(reqs, "storage.get"@, PermissionKey::Storage),
            "storage.set"@,
            PermissionKey::Storage,
        ),
        "storage.remove"@,
        PermissionKey::Storage,
    )
}

/// The name of the store file inside the sandbox.
pub const STORE_FILE_NAME: &'static str = "storage.json";

/// The `storage` module, persisting to `<sandbox>/storage.json`.
pub struct StorageModule {
    sandbox_root: PathBuf,
}

impl StorageModule {
    /// The sandbox directory that holds the store file.
    pub closed spec fn spec_sandbox_root(&self) -> PathBuf {
        self.sandbox_root
    }

    /// A `StorageModule` whose store file is [`STORE_FILE_NAME`] in
    /// `sandbox_root`.
    pub fn new(sandbox_root: PathBuf) -> (r: Self)
        ensures
            r.spec_sandbox_root() == sandbox_root,
    {
        StorageModule { sandbox_root }
    }

    /// The sandbox directory that holds the store file.
    pub fn sandbox_root(&self) -> (r: &PathBuf)
        ensures
            *r == self.spec_sandbox_root(),
    {
        &self.sandbox_root
    }

    /// The store file's name inside the sandbox: `storage.json`.
    pub fn store_file_name(&self) -> (r: &'static str)
        ensures
            r@ == STORE_FILE_NAME@,
    {
        STORE_FILE_NAME
    }

    /// Stable module identifier.
    pub fn name(&self) -> (r: &'static str)
        ensures
            r@ == "storage"@,
    {
        "storage"
    }

    /// Declare that `storage.get`, `storage.set` and `storage.remove` need the
    /// `storage` permission.
    pub fn declare_permissions(&self, engine: &mut PermissionEngine)
        ensures
            final(engine).requirements() == storage_requirements(old(engine).requirements()),
            final(engine).perms() == old(engine).perms(),
    {
        engine.require("storage.get", PermissionKey::Storage);
        engine.require("storage.set", PermissionKey::Storage);
        engine.require("storage.remove", PermissionKey::Storage);
    }
}

} // verus!
