//! Permission Engine: validates every RPC call against the app's declared
//! permissions before its handler is invoked.
//!
//! 1. At startup each native module declares, with [`PermissionEngine::require`],
//!    which [`PermissionKey`] each of its RPC methods needs.
//! 2. On every request the dispatcher calls [`PermissionEngine::check`] before
//!    routing to the handler.
//! 3. A denied call yields a [`PermissionDenied`]; it is never silently dropped.
//!
//! There is no development-mode bypass.
use vstd::prelude::*;

use super::{FsPermissions, PermissionError, Permissions};
use crate::table::{
    find_key, lemma_push_fresh, lemma_table_len, lemma_table_lookup, lemma_table_push, table_map,
    unique_keys,
};

verus! {

/// A grantable permission flag from `permissions.json`. Each native module
/// method maps to exactly one key.
#[derive(Debug, Clone, Copy, PartialEq, Eq, Hash, Structural)]
pub enum PermissionKey {
    /// `fs.appData`: the app's AppData sandbox.
    FsAppData,
    /// `fs.userSelected`: user-picked directories.
    FsUserSelected,
    /// `fs.absolutePath`: arbitrary absolute paths.
    FsAbsolutePath,
    /// `storage`: persistent key-value storage.
    Storage,
    /// `notifications`: desktop notifications.
    Notifications,
    /// `system`: read-only system information.
    System,
    /// `window`: window management.
    Window,
}

/// The key's name as it appears in `permissions.json`.
pub open spec fn key_name(k: PermissionKey) -> Seq<char> {
    match k {
        PermissionKey::FsAppData => "fs.appData"@,
        PermissionKey::FsUserSelected => "fs.userSelected"@,
        PermissionKey::FsAbsolutePath => "fs.absolutePath"@,
        PermissionKey::Storage => "storage"@,
        PermissionKey::Notifications => "notifications"@,
        PermissionKey::System => "system"@,
        PermissionKey::Window => "window"@,
    }
}

/// Whether `p` grants `k`: each key is granted by its own flag and no other.
pub open spec fn key_granted(p: Permissions, k: PermissionKey) -> bool {
    match k {
        PermissionKey::FsAppData => p.fs matches Some(f) && f.app_data,
        PermissionKey::FsUserSelected => p.fs matches Some(f) && f.user_selected,
        PermissionKey::FsAbsolutePath => p.fs matches Some(f) && f.absolute_path,
        PermissionKey::Storage => p.storage,
        PermissionKey::Notifications => p.notifications,
        PermissionKey::System => p.system,
        PermissionKey::Window => p.window,
    }
}

impl PermissionKey {
    /// The human-readable key name as it appears in `permissions.json`.
    pub fn as_str(&self) -> (r: &'static str)
        ensures
            r@ == key_name(*self),
    {
        match self {
            PermissionKey::FsAppData => "fs.appData",
            PermissionKey::FsUserSelected => "fs.userSelected",
            PermissionKey::FsAbsolutePath => "fs.absolutePath",
            PermissionKey::Storage => "storage",
            PermissionKey::Notifications => "notifications",
            PermissionKey::System => "system",
            PermissionKey::Window => "window",
        }
    }
}

/// Returned by [`PermissionEngine::check`] when a call is not permitted.
#[derive(Debug, Clone, PartialEq, Eq)]
pub struct PermissionDenied {
    /// The RPC method that was denied, e.g. `"fs.write"`.
    pub method: String,
    /// The permission key that was missing, e.g. `"fs.appData"`.
    pub required: String,
    /// What needs to be added to `permissions.json`.
    pub message: String,
}

impl View for PermissionDenied {
    /// `(method, required, message)`.
    type V = (Seq<char>, Seq<char>, Seq<char>);

    open spec fn view(&self) -> (Seq<char>, Seq<char>, Seq<char>) {
        (self.method@, self.required@, self.message@)
    }
}

/// The denial for a registered `method` whose key `k` is not granted.
pub open spec fn not_granted_view(method: Seq<char>, k: PermissionKey) -> (
    Seq<char>,
    Seq<char>,
    Seq<char>,
) {
    (
        method,
        key_name(k),
        "add \""@ + key_name(k) + ": true\" to your permissions.json to enable '"@ + method
            + "'"@,
    )
}

/// The denial for a `method` that no module registered.
pub open spec fn not_registered_view(method: Seq<char>) -> (Seq<char>, Seq<char>, Seq<char>) {
    (
        method,
        "(none registered)"@,
        "'"@ + method
            + "' has not been registered by any module — ensure the module is initialised before the first RPC call"@,
    )
}

/// The one-line description of a denial.
pub open spec fn denied_text(v: (Seq<char>, Seq<char>, Seq<char>)) -> Seq<char> {
    "Permission denied for '"@ + v.0 + "': requires '"@ + v.1 + "' — "@ + v.2
}

impl PermissionDenied {
    fn not_granted(method: &str, key: &PermissionKey) -> (r: Self)
        ensures
            r@ == not_granted_view(method@, *key),
    {
        let name = key.as_str();
        let mut message = String::from_str("add \"");
        message.append(name);
        message.append(": true\" to your permissions.json to enable '");
        message.append(method);
        message.append("'");
        PermissionDenied {
            method: String::from_str(method),
            required: String::from_str(name),
            message,
        }
    }

    fn not_registered(method: &str) -> (r: Self)
        ensures
            r@ == not_registered_view(method@),
    {
        let mut message = String::from_str("'");
        message.append(method);
        message.append(
            "' has not been registered by any module — ensure the module is initialised before the first RPC call",
        );
        PermissionDenied {
            method: String::from_str(method),
            required: String::from_str("(none registered)"),
            message,
        }
    }

    /// `Permission denied for '<method>': requires '<required>' — <message>`.
    pub fn describe(&self) -> (r: String)
        ensures
            r@ == denied_text(self@),
    {
        let mut r = String::from_str("Permission denied for '");
        r.append(self.method.as_str());
        r.append("': requires '");
        r.append(self.required.as_str());
        r.append("' — ");
        r.append(self.message.as_str());
        r
    }
}

/// The requirement table after declaring that `method` needs `key`: the first
/// declaration of a method wins.
pub open spec fn spec_require(
    reqs: Map<Seq<char>, PermissionKey>,
    method: Seq<char>,
    key: PermissionKey,
) -> Map<Seq<char>, PermissionKey> {
    if reqs.contains_key(method) {
        reqs
    } else {
        reqs.insert(method, key)
    }
}

/// The security enforcement layer: the app's loaded [`Permissions`] and the
/// `method → PermissionKey` requirements contributed by the native modules.
pub struct PermissionEngine {
    permissions: Permissions,
    requirements: Vec<(String, PermissionKey)>,
}

impl PermissionEngine {
    #[verifier::type_invariant]
    spec fn inv(self) -> bool {
        unique_keys(self.requirements@)
    }

    /// The loaded configuration.
    pub closed spec fn perms(&self) -> Permissions {
        self.permissions
    }

    /// The registered requirements: method name to the key it needs.
    pub closed spec fn requirements(&self) -> Map<Seq<char>, PermissionKey> {
        table_map(self.requirements@)
    }

    /// Whether a call of `method` is permitted: it is registered and the key
    /// it needs is granted.
    pub open spec fn permits(&self, method: Seq<char>) -> bool {
        self.requirements().contains_key(method) && key_granted(
            self.perms(),
            self.requirements()[method],
        )
    }

    /// Create an engine from an already-loaded configuration, with no method
    /// requirements registered yet.
    pub fn new(permissions: Permissions) -> (r: Self)
        ensures
            r.perms() == permissions,
            r.requirements() == Map::<Seq<char>, PermissionKey>::empty(),
    {
        PermissionEngine { permissions, requirements: Vec::new() }
    }

    /// Build an engine from the outcome of loading `permissions.json`; a
    /// loading error is passed on unchanged, to be treated as fatal at startup.
    pub fn load(loaded: Result<Permissions, PermissionError>) -> (r: Result<Self, PermissionError>)
        ensures
            loaded is Ok <==> r is Ok,
            r matches Ok(e) ==> e.perms() == loaded->Ok_0 && e.requirements().is_empty(),
            r matches Err(err) ==> loaded == Err::<Permissions, PermissionError>(err),
    {
        match loaded {
            Ok(permissions) => Ok(Self::new(permissions)),
            Err(e) => Err(e),
        }
    }

    /// Register the key required to invoke `method`.
    ///
    /// Returns `true` on success, `false` (leaving the existing entry in
    /// place) if `method` was already registered: the first registration wins.
    pub fn require(&mut self, method: &str, key: PermissionKey) -> (r: bool)
        ensures
            r == !old(self).requirements().contains_key(method@),
            final(self).requirements() == spec_require(old(self).requirements(), method@, key),
            final(self).perms() == old(self).perms(),
            old(self).requirements().dom().finite(),
            final(self).requirements().dom().finite(),
    {
        proof {
            use_type_invariant(&*self);
            lemma_table_len(self.requirements@);
        }
        match find_key(&self.requirements, method) {
            Some(i) => {
                proof {
                    lemma_table_lookup(self.requirements@, i as int);
                }
                false
            },
            None => {
                let entry = (String::from_str(method), key);
                proof {
                    lemma_push_fresh(self.requirements@, entry);
                    lemma_table_push(self.requirements@, entry);
                }
                let mut reqs: Vec<(String, PermissionKey)> = Vec::new();
                std::mem::swap(&mut reqs, &mut self.requirements);
                reqs.push(entry);
                self.requirements = reqs;
                true
            },
        }
    }

    fn is_granted(&self, key: &PermissionKey) -> (r: bool)
        ensures
            r == key_granted(self.perms(), *key),
    {
        let p = &self.permissions;
        match key {
            PermissionKey::FsAppData => match &p.fs {
                Some(f) => f.app_data,
                None => false,
            },
            PermissionKey::FsUserSelected => match &p.fs {
                Some(f) => f.user_selected,
                None => false,
            },
            PermissionKey::FsAbsolutePath => match &p.fs {
                Some(f) => f.absolute_path,
                None => false,
            },
            PermissionKey::Storage => p.storage,
            PermissionKey::Notifications => p.notifications,
            PermissionKey::System => p.system,
            PermissionKey::Window => p.window,
        }
    }

    /// Check whether `method` may be invoked under the loaded permissions.
    ///
    /// `Ok(())` exactly when the method is registered and its key is granted.
    /// Otherwise the denial names the method, the missing key (or that none
    /// is registered) and what to add to `permissions.json`.
    pub fn check(&self, method: &str) -> (r: Result<(), PermissionDenied>)
        ensures
            r is Ok <==> self.permits(method@),
            !self.requirements().contains_key(method@) ==> (r matches Err(e) && e@
                == not_registered_view(method@)),
            self.requirements().contains_key(method@) && !self.permits(method@) ==> (r matches Err(
                e,
            ) && e@ == not_granted_view(method@, self.requirements()[method@])),
    {
        proof {
            use_type_invariant(self);
        }
        match find_key(&self.requirements, method) {
            None => Err(PermissionDenied::not_registered(method)),
            Some(i) => {
                proof {
                    lemma_table_lookup(self.requirements@, i as int);
                }
                let key = &self.requirements[i].1;
                if self.is_granted(key) {
                    Ok(())
                } else {
                    Err(PermissionDenied::not_granted(method, key))
                }
            },
        }
    }

    /// The loaded configuration.
    pub fn permissions(&self) -> (r: &Permissions)
        ensures
            *r == self.perms(),
    {
        &self.permissions
    }

    /// The number of registered method requirements.
    pub fn registered_count(&self) -> (r: usize)
        ensures
            self.requirements().dom().finite(),
            r == self.requirements().len(),
    {
        proof {
            use_type_invariant(self);
            lemma_table_len(self.requirements@);
        }
        self.requirements.len()
    }
}

/// Each permission key is granted by its own flag in `permissions.json` and
/// by nothing else: a flag that is on always grants its key, whatever the
/// other flags say, and a flag that is off (or an absent `fs` section) never
/// does.
pub proof fn lemma_key_granted_by_own_flag(p: Permissions)
    ensures
        key_granted(p, PermissionKey::FsAppData) <==> (p.fs is Some && p.fs->Some_0.app_data),
        key_granted(p, PermissionKey::FsUserSelected) <==> (p.fs is Some
            && p.fs->Some_0.user_selected),
        key_granted(p, PermissionKey::FsAbsolutePath) <==> (p.fs is Some
            && p.fs->Some_0.absolute_path),
        key_granted(p, PermissionKey::Storage) <==> p.storage,
        key_granted(p, PermissionKey::Notifications) <==> p.notifications,
        key_granted(p, PermissionKey::System) <==> p.system,
        key_granted(p, PermissionKey::Window) <==> p.window,
{
}

/// Turning a flag on never takes a permission away: every key granted before
/// is still granted after any one flag is switched on.
pub proof fn lemma_more_flags_grant_more(p: Permissions, f: FsPermissions, k: PermissionKey)
    requires
        p.fs matches Some(g) ==> (g.app_data ==> f.app_data) && (g.user_selected
            ==> f.user_selected) && (g.absolute_path ==> f.absolute_path),
    ensures
        key_granted(p, k) ==> key_granted(Permissions { fs: Some(f), ..p }, k),
        key_granted(p, k) ==> key_granted(Permissions { storage: true, ..p }, k),
        key_granted(p, k) ==> key_granted(Permissions { notifications: true, ..p }, k),
        key_granted(p, k) ==> key_granted(Permissions { system: true, ..p }, k),
        key_granted(p, k) ==> key_granted(Permissions { window: true, ..p }, k),
{
}

/// First registration wins: declaring a method a second time, with any key,
/// leaves the requirements as the first declaration made them.
pub proof fn lemma_first_registration_wins(
    reqs: Map<Seq<char>, PermissionKey>,
    method: Seq<char>,
    first: PermissionKey,
    second: PermissionKey,
)
    ensures
        spec_require(spec_require(reqs, method, first), method, second) == spec_require(
            reqs,
            method,
            first,
        ),
        spec_require(reqs, method, first)[method] == (if reqs.contains_key(method) {
            reqs[method]
        } else {
            first
        }),
{
}

/// Declaring a new method adds one requirement; declaring a known one adds
/// none (the table of a [`PermissionEngine`] is always finite, as `require`
/// and `registered_count` state).
pub proof fn lemma_require_count(
    reqs: Map<Seq<char>, PermissionKey>,
    method: Seq<char>,
    key: PermissionKey,
)
    requires
        reqs.dom().finite(),
    ensures
        spec_require(reqs, method, key).dom().finite(),
        spec_require(reqs, method, key).len() == (if reqs.contains_key(method) {
            reqs.len()
        } else {
            reqs.len() + 1
        }),
{
}

/// Declaring a method leaves every other method's requirement as it was.
pub proof fn lemma_require_leaves_others(
    reqs: Map<Seq<char>, PermissionKey>,
    method: Seq<char>,
    key: PermissionKey,
    other: Seq<char>,
)
    requires
        other != method,
    ensures
        spec_require(reqs, method, key).contains_key(other) == reqs.contains_key(other),
        reqs.contains_key(other) ==> spec_require(reqs, method, key)[other] == reqs[other],
{
}

/// Each filesystem key is granted by its own flag alone: with that flag off,
/// no setting of the other two flags grants it.
pub proof fn lemma_fs_flags_isolated(p: Permissions, f: FsPermissions)
    ensures
        !key_granted(
            Permissions { fs: Some(FsPermissions { app_data: false, ..f }), ..p },
            PermissionKey::FsAppData,
        ),
        !key_granted(
            Permissions { fs: Some(FsPermissions { user_selected: false, ..f }), ..p },
            PermissionKey::FsUserSelected,
        ),
        !key_granted(
            Permissions { fs: Some(FsPermissions { absolute_path: false, ..f }), ..p },
            PermissionKey::FsAbsolutePath,
        ),
{
}

/// The module whose flags a key belongs to.
pub open spec fn key_module(k: PermissionKey) -> Seq<char> {
    match k {
        PermissionKey::FsAppData => "fs"@,
        PermissionKey::FsUserSelected => "fs"@,
        PermissionKey::FsAbsolutePath => "fs"@,
        PermissionKey::Storage => "storage"@,
        PermissionKey::Notifications => "notifications"@,
        PermissionKey::System => "system"@,
        PermissionKey::Window => "window"@,
    }
}

/// The engine is never more permissive than the coarse module-level check:
/// for a method in the module that its key belongs to, a granted key means
/// the method is allowed; for the single-flag modules (all but `fs`, whose
/// flags are finer) the two checks agree exactly.
pub proof fn lemma_engine_refines_allows(p: Permissions, method: Seq<char>, i: int, k: PermissionKey)
    requires
        crate::text::first_index_at(method, '.', i),
        method.take(i) == key_module(k),
    ensures
        key_granted(p, k) ==> p.spec_allows(method),
        key_module(k) != "fs"@ ==> (key_granted(p, k) == p.spec_allows(method)),
{
    reveal_strlit("fs");
    reveal_strlit("storage");
    reveal_strlit("notifications");
    reveal_strlit("system");
    reveal_strlit("window");
    assert("storage"@ != "fs"@) by {
        assert("storage"@.len() != "fs"@.len());
    }
    assert("notifications"@ != "fs"@ && "notifications"@ != "storage"@) by {
        assert("notifications"@.len() != "fs"@.len());
        assert("notifications"@.len() != "storage"@.len());
    }
    assert("system"@ != "fs"@ && "system"@ != "storage"@ && "system"@ != "notifications"@) by {
        assert("system"@.len() != "fs"@.len());
        assert("system"@.len() != "storage"@.len());
        assert("system"@.len() != "notifications"@.len());
    }
    assert("window"@ != "fs"@ && "window"@ != "storage"@ && "window"@ != "notifications"@
        && "window"@ != "system"@) by {
        assert("window"@.len() != "fs"@.len());
        assert("window"@.len() != "storage"@.len());
        assert("window"@.len() != "notifications"@.len());
        assert("window"@[0] != "system"@[0]);
    }
    if p.spec_allows(method) {
        let j = choose|j: int|
            crate::text::first_index_at(method, '.', j) && p.grants_module(method.take(j));
        crate::text::lemma_first_index_unique(method, '.', i, j);
    }
}

} // verus!
