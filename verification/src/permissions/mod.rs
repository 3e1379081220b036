//! The permission schema an app declares in `permissions.json`, and the
//! coarse, module-level check of an RPC method against it.
//!
//! Reading and parsing the file is done by the host; this module holds what
//! the parsed file means.
use vstd::prelude::*;

use crate::text::{first_index_at, prefix_before_first, str_eq};

pub mod engine;

verus! {

/// Errors that can occur while loading or validating `permissions.json`.
///
/// The host reads the file and parses it; it reports the outcome with the
/// text of the underlying error.
#[derive(Debug, Clone, PartialEq, Eq)]
pub enum PermissionError {
    /// The file does not exist or could not be read.
    NotFound {
        /// The path that was tried.
        path: String,
        /// What the operating system reported.
        source: String,
    },
    /// The file exists but is not valid JSON or does not match the schema.
    Invalid(String),
}

/// The human-readable text of a [`PermissionError`].
pub open spec fn permission_error_text(e: PermissionError) -> Seq<char> {
    match e {
        PermissionError::NotFound { path, source } => "permissions.json not found at '"@ + path@
            + "': "@ + source@,
        PermissionError::Invalid(detail) => "permissions.json is invalid: "@ + detail@,
    }
}

impl PermissionError {
    /// The message shown to the developer, e.g.
    /// `permissions.json not found at '<path>': <io error>`.
    pub fn message(&self) -> (r: String)
        ensures
            r@ == permission_error_text(*self),
    {
        match self {
            PermissionError::NotFound { path, source } => {
                let mut r = String::from_str("permissions.json not found at '");
                r.append(path.as_str());
                r.append("': ");
                r.append(source.as_str());
                r
            },
            PermissionError::Invalid(detail) => {
                let mut r = String::from_str("permissions.json is invalid: ");
                r.append(detail.as_str());
                r
            },
        }
    }
}

/// Granular filesystem permission flags.
///
/// Omitting `fs` from `permissions.json` denies all filesystem access;
/// including it with every flag `false` has the same effect.
#[derive(Debug, Clone, Copy, PartialEq, Eq, Structural)]
pub struct FsPermissions {
    /// Read/write access to the app's AppData sandbox
    /// (`fs.read`, `fs.write`, `fs.delete`).
    pub app_data: bool,
    /// Access to directories the user picks (`fs.pickDirectory`).
    pub user_selected: bool,
    /// Access to arbitrary absolute paths.
    pub absolute_path: bool,
}

impl Default for FsPermissions {
    /// Every flag denied.
    fn default() -> (r: Self)
        ensures
            !r.app_data && !r.user_selected && !r.absolute_path,
    {
        FsPermissions { app_data: false, user_selected: false, absolute_path: false }
    }
}

impl FsPermissions {
    /// At least one filesystem flag is enabled.
    pub open spec fn spec_any_enabled(self) -> bool {
        self.app_data || self.user_selected || self.absolute_path
    }

    /// Returns `true` if at least one filesystem flag is enabled.
    pub fn any_enabled(&self) -> (r: bool)
        ensures
            r == self.spec_any_enabled(),
    {
        self.app_data || self.user_selected || self.absolute_path
    }
}

/// The full set of permissions an app may declare. Every field defaults to
/// denied when omitted.
#[derive(Debug, Clone, Copy, PartialEq, Eq)]
pub struct Permissions {
    /// Filesystem access; `None` denies all `fs.*` calls.
    pub fs: Option<FsPermissions>,
    /// Persistent key-value storage (`storage.*`).
    pub storage: bool,
    /// Desktop notifications (`notifications.show`).
    pub notifications: bool,
    /// Read-only system information (`system.*`).
    pub system: bool,
    /// Window management (`window.*`).
    pub window: bool,
}

impl Default for Permissions {
    /// Nothing granted.
    fn default() -> (r: Self)
        ensures
            r.fs is None,
            !r.storage && !r.notifications && !r.system && !r.window,
    {
        Permissions { fs: None, storage: false, notifications: false, system: false, window: false }
    }
}

impl Permissions {
    /// Whether this configuration grants the built-in module named `module`.
    pub open spec fn grants_module(self, module: Seq<char>) -> bool {
        if module == "fs"@ {
            match self.fs {
                Some(f) => f.spec_any_enabled(),
                None => false,
            }
        } else if module == "storage"@ {
            self.storage
        } else if module == "notifications"@ {
            self.notifications
        } else if module == "system"@ {
            self.system
        } else if module == "window"@ {
            self.window
        } else {
            false
        }
    }

    /// Whether the dot-namespaced `method` is permitted: it has a `.`, and the
    /// module named before its first `.` is granted.
    pub open spec fn spec_allows(self, method: Seq<char>) -> bool {
        exists|i: int| first_index_at(method, '.', i) && self.grants_module(method.take(i))
    }

    fn module_granted(&self, module: &str) -> (r: bool)
        ensures
            r == self.grants_module(module@),
    {
        if str_eq(module, "fs") {
            match &self.fs {
                Some(f) => f.any_enabled(),
                None => false,
            }
        } else if str_eq(module, "storage") {
            self.storage
        } else if str_eq(module, "notifications") {
            self.notifications
        } else if str_eq(module, "system") {
            self.system
        } else if str_eq(module, "window") {
            self.window
        } else {
            false
        }
    }

    /// Returns `true` if the RPC `method` is permitted by this configuration.
    ///
    /// Method names are dot-namespaced, `"<module>.<capability>"`. This is a
    /// coarse module-level check; a name without a dot, or whose module is not
    /// one of the five built-in modules, is denied.
    pub fn allows(&self, method: &str) -> (r: bool)
        ensures
            r == self.spec_allows(method@),
    {
        match crate::text::find_first(method, '.') {
            Some(i) => {
                let module = prefix_before_first(method, '.');
                proof {
                    let k = choose|k: int| first_index_at(method@, '.', k);
                    crate::text::lemma_first_index_unique(method@, '.', i as int, k);
                    assert forall|j: int|
                        first_index_at(method@, '.', j) implies method@.take(j) == module@ by {
                        crate::text::lemma_first_index_unique(method@, '.', i as int, j);
                    }
                }
                self.module_granted(module)
            },
            None => false,
        }
    }
}

/// Declaring `fs` with every flag off means the same as leaving `fs` out:
/// no method is allowed differently.
pub proof fn lemma_fs_all_off_same_as_absent(p: Permissions, method: Seq<char>)
    requires
        p.fs == Some(FsPermissions { app_data: false, user_selected: false, absolute_path: false }),
    ensures
        p.spec_allows(method) == (Permissions { fs: None, ..p }).spec_allows(method),
        forall|k: engine::PermissionKey|
            engine::key_granted(p, k) == engine::key_granted(Permissions { fs: None, ..p }, k),
{
    let q = Permissions { fs: None, ..p };
    assert forall|i: int| first_index_at(method, '.', i) implies p.grants_module(method.take(i))
        == q.grants_module(method.take(i)) by {}
}

/// The names of the five built-in modules.
pub open spec fn builtin_module(module: Seq<char>) -> bool {
    module == "fs"@ || module == "storage"@ || module == "notifications"@ || module == "system"@
        || module == "window"@
}

/// Only the five built-in modules can be granted: whatever `permissions.json`
/// says, a module with any other name is denied, and so is every method of
/// it. Each built-in module is granted by its own setting alone.
pub proof fn lemma_only_builtin_modules(p: Permissions, module: Seq<char>, method: Seq<char>)
    ensures
        !builtin_module(module) ==> !p.grants_module(module),
        p.spec_allows(method) ==> exists|i: int|
            first_index_at(method, '.', i) && builtin_module(#[trigger] method.take(i)),
        p.grants_module("fs"@) <==> (p.fs matches Some(f) && (f.app_data || f.user_selected
            || f.absolute_path)),
        p.grants_module("storage"@) <==> p.storage,
        p.grants_module("notifications"@) <==> p.notifications,
        p.grants_module("system"@) <==> p.system,
        p.grants_module("window"@) <==> p.window,
{
    reveal_strlit("fs");
    reveal_strlit("storage");
    reveal_strlit("notifications");
    reveal_strlit("system");
    reveal_strlit("window");
    assert("storage"@ != "fs"@) by {
        assert("storage"@.len() != "fs"@.len());
    }
    assert("notifications"@ != "fs"@ && "notifications"@ != "storage"@) by {
        assert("notifications"@.len() != "fs"@.len());
        assert("notifications"@.len() != "storage"@.len());
    }
    assert("system"@ != "fs"@ && "system"@ != "storage"@ && "system"@ != "notifications"@) by {
        assert("system"@.len() != "fs"@.len());
        assert("system"@.len() != "storage"@.len());
        assert("system"@.len() != "notifications"@.len());
    }
    assert("window"@ != "fs"@ && "window"@ != "storage"@ && "window"@ != "notifications"@
        && "window"@ != "system"@) by {
        assert("window"@.len() != "fs"@.len());
        assert("window"@.len() != "storage"@.len());
        assert("window"@.len() != "notifications"@.len());
        assert("window"@[0] != "system"@[0]);
    }
    if p.spec_allows(method) {
        let i = choose|i: int| first_index_at(method, '.', i) && p.grants_module(method.take(i));
        assert(builtin_module(method.take(i)));
    }
}

/// A method name without a dot is never allowed, whatever is granted.
pub proof fn lemma_undotted_method_denied(p: Permissions, method: Seq<char>)
    requires
        crate::text::lacks(method, '.'),
    ensures
        !p.spec_allows(method),
{
}

} // verus!
