use std::path::{Component, Path, PathBuf};
use std::sync::Arc;

use axion_core::module::ModuleRegistry;
use axion_core::modules::fs::{
    pick_directory_unsupported, reject_absolute, resolve_begin, resolve_start, sandbox_denied,
    starts_with_parts, traversal, unresolvable, FsModule, Part, Resolution,
};
use axion_core::modules::notifications::{
    app_id, build_toast_xml, show_notification_blocking, NotificationsModule,
};
use axion_core::modules::storage::{StorageModule, Store, STORE_FILE_NAME};
use axion_core::modules::system::SystemModule;
use axion_core::modules::window::{
    show_command, unsupported_platform, window_op_precheck, ShowCommand, WindowHandle,
    WindowModule, WindowOp,
};
use axion_core::permissions::engine::{PermissionEngine, PermissionKey};
use axion_core::permissions::{FsPermissions, Permissions};
use axion_core::rpc::schema::error_codes::{INTERNAL_ERROR, PERMISSION_DENIED};
use tokio::sync::Notify;

// ── notifications ────────────────────────────────────────────────────────────

#[test]
fn app_id_is_derived_from_app_name() {
    assert_eq!(app_id("MyApp"), "axion.myapp");
    assert_eq!(app_id("My Cool App"), "axion.my-cool-app");
}

#[test]
fn module_name_is_notifications() {
    let m = NotificationsModule::new("test");
    assert_eq!(m.name(), "notifications");
    assert_eq!(m.app_user_model_id(), "axion.test");
}

#[test]
fn toast_xml_escapes_title_and_body() {
    assert_eq!(
        build_toast_xml("Saved", "Your file has been saved."),
        "<toast><visual><binding template=\"ToastGeneric\"><text>Saved</text><text>Your file has been saved.</text></binding></visual></toast>"
    );
    assert_eq!(
        build_toast_xml("<b>&'\"", "a>b"),
        "<toast><visual><binding template=\"ToastGeneric\"><text>&lt;b&gt;&amp;&apos;&quot;</text><text>a&gt;b</text></binding></visual></toast>"
    );
}

#[test]
fn notifications_declares_its_permission() {
    let mut engine = PermissionEngine::new(Permissions { notifications: true, ..Default::default() });
    NotificationsModule::new("test-app").declare_permissions(&mut engine);
    assert_eq!(engine.registered_count(), 1);
    assert!(engine.check("notifications.show").is_ok());
    let mut denied = PermissionEngine::new(Permissions::default());
    NotificationsModule::new("test-app").declare_permissions(&mut denied);
    assert_eq!(denied.check("notifications.show").unwrap_err().required, "notifications");
}

#[test]
fn notifications_show_with_permission_does_not_panic() {
    let err = show_notification_blocking("axion.test", "Test", "Integration test").unwrap_err();
    assert_ne!(err.code, PERMISSION_DENIED);
    assert_eq!(err.code, INTERNAL_ERROR);
}

// ── system ───────────────────────────────────────────────────────────────────

#[test]
fn module_name_is_system() {
    assert_eq!(SystemModule.name(), "system");
    assert_eq!(SystemModule.platform(), "windows");
}

#[test]
fn system_module_declares_no_permissions() {
    let mut engine = PermissionEngine::new(Permissions::default());
    SystemModule.declare_permissions(&mut engine);
    assert_eq!(engine.registered_count(), 0, "system module must not declare any permissions");
}

// ── window ───────────────────────────────────────────────────────────────────

#[test]
fn module_name_is_window() {
    assert_eq!(WindowModule::null().name(), "window");
}

#[test]
fn window_module_declares_no_permissions() {
    let mut engine = PermissionEngine::new(Permissions::default());
    WindowModule::null().declare_permissions(&mut engine);
    assert_eq!(engine.registered_count(), 0, "window module must not declare any permissions");
}

#[test]
fn null_handle_is_not_valid() {
    assert!(!WindowHandle::null().is_valid());
}

#[test]
fn non_zero_handle_is_valid() {
    let h = WindowHandle::new(1, Arc::new(Notify::new()));
    assert!(h.is_valid());
    assert_eq!(h.hwnd(), 1);
}

#[test]
fn all_methods_callable_without_panic_no_window() {
    let module = WindowModule::null();
    let err = window_op_precheck(module.handle()).unwrap_err();
    assert_eq!(err.code, INTERNAL_ERROR);
    assert_eq!(err.message, "window operation unavailable: no native window handle");
    let h = WindowHandle::new(7, Arc::new(Notify::new()));
    assert!(window_op_precheck(&h).is_ok());
    assert_eq!(unsupported_platform().code, INTERNAL_ERROR);
}

#[test]
fn maximize_toggles_between_maximize_and_restore() {
    assert_eq!(show_command(&WindowOp::Maximize, false), Some(ShowCommand::Maximize));
    assert_eq!(show_command(&WindowOp::Maximize, true), Some(ShowCommand::Restore));
    assert_eq!(show_command(&WindowOp::Minimize, true), Some(ShowCommand::Minimize));
    assert_eq!(show_command(&WindowOp::Close, false), None);
    assert_eq!(show_command(&WindowOp::SetTitle("t".to_string()), false), None);
}

// ── storage ──────────────────────────────────────────────────────────────────

fn store_path() -> PathBuf {
    PathBuf::from("sandbox").join("storage.json")
}

#[test]
fn store_get_returns_none_for_missing_key() {
    let store = Store::load(store_path(), None).unwrap();
    assert!(store.get("missing").is_none());
}

#[test]
fn store_set_and_get_round_trip() {
    let mut store = Store::load(store_path(), None).unwrap();
    store.set("theme".into(), "dark".into());
    assert_eq!(store.get("theme").unwrap(), "dark");
    store.set("theme".into(), "light".into());
    assert_eq!(store.get("theme").unwrap(), "light");
}

#[test]
fn store_remove_deletes_key() {
    let mut store = Store::load(store_path(), None).unwrap();
    store.set("x".into(), "1".into());
    store.set("y".into(), "2".into());
    store.remove("x");
    assert!(store.get("x").is_none());
    assert_eq!(store.get("y").unwrap(), "2");
}

#[test]
fn store_remove_does_not_panic_on_missing_key() {
    let mut store = Store::load(store_path(), None).unwrap();
    store.remove("never_set");
    assert!(store.get("never_set").is_none());
}

#[test]
fn store_persists_to_disk_and_reloads() {
    let mut store = Store::load(store_path(), None).unwrap();
    store.set("color".into(), "blue".into());
    store.set("size".into(), "large".into());
    let text = store.serialized().unwrap();

    let reloaded = Store::load(store_path(), Some(&text)).unwrap();
    assert_eq!(reloaded.get("color").unwrap(), "blue");
    assert_eq!(reloaded.get("size").unwrap(), "large");
    assert_eq!(reloaded.path(), &store_path());
}

#[test]
fn store_rejects_malformed_file() {
    let err = Store::load(store_path(), Some("{ not json")).err().unwrap();
    assert!(err.starts_with("storage: failed to parse store: "));
    let err = Store::load(store_path(), Some("{\"a\": 1}")).err().unwrap();
    assert!(err.starts_with("storage: failed to parse store: "));
    let ok = Store::load(store_path(), Some("{\"a\": \"b\"}")).unwrap();
    assert_eq!(ok.get("a").unwrap(), "b");
}

#[test]
fn storage_module_uses_storage_json_and_declares_permissions() {
    let m = StorageModule::new(PathBuf::from("sandbox"));
    assert_eq!(m.sandbox_root(), &PathBuf::from("sandbox"));
    assert_eq!(m.sandbox_root().join(m.store_file_name()), store_path());
    assert_eq!(STORE_FILE_NAME, "storage.json");
    assert_eq!(m.name(), "storage");
    let mut engine = PermissionEngine::new(Permissions { storage: true, ..Default::default() });
    m.declare_permissions(&mut engine);
    assert_eq!(engine.registered_count(), 3);
    assert!(engine.check("storage.get").is_ok());
    assert!(engine.check("storage.set").is_ok());
    assert!(engine.check("storage.remove").is_ok());
}

// ── fs ───────────────────────────────────────────────────────────────────────

#[test]
fn fs_module_declares_its_permissions() {
    let m = FsModule::new(PathBuf::from("sandbox"));
    assert_eq!(m.name(), "fs");
    assert_eq!(m.sandbox(), &PathBuf::from("sandbox"));
    let mut engine = PermissionEngine::new(Permissions {
        fs: Some(FsPermissions { app_data: true, ..Default::default() }),
        ..Default::default()
    });
    m.declare_permissions(&mut engine);
    assert_eq!(engine.registered_count(), 4);
    assert!(engine.check("fs.read").is_ok());
    assert!(engine.check("fs.write").is_ok());
    assert!(engine.check("fs.delete").is_ok());
    assert_eq!(engine.check("fs.pickDirectory").unwrap_err().required, "fs.userSelected");
    // Declaring twice changes nothing: first registration wins.
    m.declare_permissions(&mut engine);
    assert_eq!(engine.registered_count(), 4);
    let _ = PermissionKey::FsAppData;
}

/// The path text of `parts`, with `/` between components.
fn render(parts: &[Part]) -> String {
    let mut s = String::new();
    for part in parts {
        match part {
            Part::Prefix(p) => s.push_str(p),
            Part::Root => s.push('/'),
            Part::Cur => s.push_str("./"),
            Part::Parent => s.push_str("../"),
            Part::Normal(n) => {
                s.push_str(n);
                s.push('/');
            }
        }
    }
    if s.len() > 1 && s.ends_with('/') && !s.ends_with(":/") {
        s.pop();
    }
    s
}

/// The components of a path text written with `/`, an optional `C:`-style
/// prefix first.
fn parse(text: &str) -> Vec<Part> {
    let mut parts = Vec::new();
    let mut rest = text;
    if rest.len() >= 2 && rest.as_bytes()[1] == b':' {
        parts.push(Part::Prefix(rest[..2].to_string()));
        rest = &rest[2..];
    }
    if rest.starts_with('/') {
        parts.push(Part::Root);
    }
    for name in rest.split('/').filter(|n| !n.is_empty()) {
        parts.push(match name {
            "." => Part::Cur,
            ".." => Part::Parent,
            n => Part::Normal(n.to_string()),
        });
    }
    parts
}

fn to_parts(p: &Path) -> Vec<Part> {
    p.components()
        .map(|c| match c {
            Component::Prefix(x) => Part::Prefix(x.as_os_str().to_string_lossy().into_owned()),
            Component::RootDir => Part::Root,
            Component::CurDir => Part::Cur,
            Component::ParentDir => Part::Parent,
            Component::Normal(x) => Part::Normal(x.to_string_lossy().into_owned()),
        })
        .collect()
}

/// Run a resolution against a host on which exactly the paths in `existing`
/// exist, each its own canonical form. Also returns the questions asked.
fn drive(mut step: Resolution, existing: &[&str]) -> (Result<String, String>, Vec<String>) {
    let mut asked = Vec::new();
    loop {
        step = match step {
            Resolution::Exists(w) => {
                let p = render(&w.path());
                asked.push(format!("exists {p}"));
                w.answer(existing.contains(&p.as_str()))
            }
            Resolution::Canonicalize(c) => {
                let p = render(&c.path());
                asked.push(format!("canonicalize {p}"));
                let answer = if existing.contains(&p.as_str()) {
                    Ok(parse(&p))
                } else {
                    Err("No such file or directory".to_string())
                };
                c.answer(answer)
            }
            Resolution::Done(r) => return (r.map(|parts| render(&parts)), asked),
        }
    }
}

/// Resolve `rel` inside `root` on this platform, against a simulated host.
fn resolve_in(root: &str, rel: &str, existing: &[&str]) -> (Result<String, String>, Vec<String>) {
    drive(resolve_start(&PathBuf::from(root), rel), existing)
}

#[test]
fn resolve_sandboxed_allows_simple_relative_path() {
    let (r, _) = resolve_in("/tmp/sandbox", "notes.txt", &["/tmp/sandbox"]);
    assert!(r.is_ok(), "simple relative path must be allowed: {:?}", r);
    let resolved = r.unwrap();
    assert!(Path::new(&resolved).starts_with("/tmp/sandbox"));
    assert_eq!(resolved, "/tmp/sandbox/notes.txt");
}

#[test]
fn resolve_sandboxed_allows_nested_relative_path() {
    let (r, _) = resolve_in("/tmp/sandbox", "data/cache/file.json", &["/tmp/sandbox"]);
    assert_eq!(r, Ok("/tmp/sandbox/data/cache/file.json".to_string()));
}

#[test]
fn resolve_sandboxed_blocks_path_traversal() {
    let (r, _) = resolve_in("/tmp/sandbox", "../../etc/passwd", &["/", "/etc", "/tmp", "/tmp/sandbox"]);
    let err = r.unwrap_err();
    assert!(err.contains("traversal") || err.contains("outside"));
    assert_eq!(err, "path traversal detected: '../../etc/passwd' resolves outside the sandbox");
}

#[test]
fn resolve_sandboxed_blocks_absolute_path() {
    let (r, asked) = resolve_in("/tmp/sandbox", "/etc/passwd", &["/tmp/sandbox"]);
    assert_eq!(r, Err("absolute paths are not allowed inside the sandbox: /etc/passwd".to_string()));
    assert!(asked.is_empty());
}

#[test]
fn resolve_sandboxed_blocks_encoded_traversal() {
    let (r, _) = resolve_in("/tmp/sandbox", "foo/../../../secret", &["/tmp/sandbox"]);
    assert!(r.is_err(), "traversal via foo/../../../ must be blocked");
}

#[test]
fn resolve_walks_up_to_the_deepest_existing_ancestor() {
    let (r, asked) = resolve_in("/tmp/sandbox", "data/new/file.txt", &["/tmp/sandbox", "/tmp/sandbox/data"]);
    assert_eq!(r, Ok("/tmp/sandbox/data/new/file.txt".to_string()));
    assert_eq!(
        asked,
        vec![
            "exists /tmp/sandbox/data/new/file.txt",
            "exists /tmp/sandbox/data/new",
            "exists /tmp/sandbox/data",
            "canonicalize /tmp/sandbox/data",
            "canonicalize /tmp/sandbox",
        ]
    );
}

#[test]
fn resolve_existing_target_is_canonicalized_strictly() {
    let (r, asked) = resolve_in("/tmp/sandbox", "notes.txt", &["/tmp/sandbox", "/tmp/sandbox/notes.txt"]);
    assert_eq!(r, Ok("/tmp/sandbox/notes.txt".to_string()));
    assert_eq!(asked[1], "canonicalize /tmp/sandbox/notes.txt");
    // A target that exists but cannot be canonicalized is an error.
    let mut step = resolve_start(&PathBuf::from("/tmp/sandbox"), "x");
    if let Resolution::Exists(w) = step {
        step = w.answer(true);
    }
    match step {
        Resolution::Canonicalize(c) => match c.answer(Err("denied".to_string())) {
            Resolution::Done(Err(m)) => assert_eq!(m, "cannot resolve path 'x': denied"),
            _ => panic!("expected an error"),
        },
        _ => panic!("expected a canonicalization"),
    }
}

#[test]
fn resolve_rooted_path_keeps_the_prefix_of_the_sandbox() {
    // On Windows, `\Users\app\f.txt` joined to `C:\Users\app` keeps only the
    // prefix: the candidate is `C:\Users\app\f.txt`, inside the sandbox.
    let root = parse("C:/Users/app");
    let candidate = parse("C:/Users/app/f.txt");
    let (r, asked) = drive(resolve_begin(root, candidate, false, "\\Users\\app\\f.txt"), &["C:/Users/app"]);
    assert_eq!(r, Ok("C:/Users/app/f.txt".to_string()));
    assert_eq!(asked, vec!["exists C:/Users/app/f.txt", "canonicalize C:/Users/app", "canonicalize C:/Users/app"]);
}

#[test]
fn resolve_rooted_path_outside_the_sandbox_is_refused() {
    let root = parse("C:/Users/app");
    let candidate = parse("C:/Windows/x");
    let (r, _) = drive(resolve_begin(root, candidate, false, "\\Windows\\x"), &["C:/", "C:/Windows", "C:/Users/app"]);
    assert_eq!(r, Err("path traversal detected: '\\Windows\\x' resolves outside the sandbox".to_string()));
}

#[test]
fn resolve_falls_back_to_the_root_from_an_ancestor_without_parent() {
    // Nothing exists, not even `C:\`: the walk reaches `C:\`, which has no
    // parent, and continues from the sandbox root with the names walked past.
    let root = parse("C:/Users/app");
    let candidate = parse("C:/Windows/x");
    let (r, asked) = drive(resolve_begin(root, candidate, false, "\\Windows\\x"), &[]);
    assert_eq!(r, Ok("C:/Users/app/Windows/x".to_string()));
    assert_eq!(
        asked,
        vec![
            "exists C:/Windows/x",
            "exists C:/Windows",
            "exists C:/",
            "canonicalize C:/Users/app",
            "canonicalize C:/Users/app",
        ]
    );
}

#[test]
fn sandbox_prefix_is_component_wise() {
    let root = to_parts(Path::new("/tmp/sandbox"));
    assert!(!starts_with_parts(&to_parts(Path::new("/tmp/sandbox2/x")), &root));
    assert!(starts_with_parts(&root, &root));
    assert!(!starts_with_parts(&to_parts(Path::new("/tmp")), &root));
}

#[test]
fn fs_errors_have_exact_messages() {
    assert_eq!(unresolvable("a.txt", "denied"), "cannot resolve path 'a.txt': denied");
    assert_eq!(reject_absolute("/etc/passwd", true).unwrap_err(), "absolute paths are not allowed inside the sandbox: /etc/passwd");
    assert!(reject_absolute("notes.txt", false).is_ok());
    assert_eq!(traversal("../x"), "path traversal detected: '../x' resolves outside the sandbox");
    let p = sandbox_denied("nope");
    assert_eq!(p.code, INTERNAL_ERROR);
    assert_eq!(p.message, "nope");
    assert_eq!(
        pick_directory_unsupported().message,
        "fs.pickDirectory is only supported on Windows"
    );
}

// ── Routing through the modules' declared permissions ───────────────────────

use axion_core::rpc::dispatcher::Dispatcher;
use axion_core::rpc::params::require_string;
use axion_core::rpc::schema::error_codes::INVALID_PARAMS;

fn routed_code(d: &Dispatcher<()>, method: &str) -> Option<i32> {
    d.route(method).err().map(|e| e.code)
}

#[test]
fn notifications_notifications_denied_when_permission_not_granted() {
    let module = NotificationsModule::new("test-app");
    let mut engine = PermissionEngine::new(Permissions { notifications: false, ..Default::default() });
    module.declare_permissions(&mut engine);
    let mut d = Dispatcher::new();
    d.register("notifications.show", ());
    let d = d.with_engine(Arc::new(engine));
    assert_eq!(routed_code(&d, "notifications.show"), Some(PERMISSION_DENIED));
}

#[test]
fn notifications_show_missing_title_returns_invalid_params() {
    // `{ "body": "No title here" }`: the title is checked first.
    let title = require_string(None, "title");
    let err = title.unwrap_err();
    assert_eq!(err.code, INVALID_PARAMS);
    assert_eq!(err.message, "'title' (string) is required");
}

#[test]
fn notifications_show_missing_body_returns_invalid_params() {
    // `{ "title": "Title only" }`.
    assert!(require_string(Some("Title only"), "title").is_ok());
    let err = require_string(None, "body").unwrap_err();
    assert_eq!(err.code, INVALID_PARAMS);
    assert_eq!(err.message, "'body' (string) is required");
}

#[test]
fn set_title_missing_param_returns_invalid_params() {
    let err = require_string(None, "title").unwrap_err();
    assert_eq!(err.code, INVALID_PARAMS);
}

#[test]
fn fs_denied_when_app_data_not_granted() {
    let module = FsModule::new(PathBuf::from("sandbox"));
    let mut engine = PermissionEngine::new(Permissions::default());
    module.declare_permissions(&mut engine);
    let mut d = Dispatcher::new();
    d.register("fs.write", ());
    let d = d.with_engine(Arc::new(engine));
    assert_eq!(routed_code(&d, "fs.write"), Some(PERMISSION_DENIED));
}

#[test]
fn storage_denied_when_permission_not_granted() {
    let module = StorageModule::new(PathBuf::from("sandbox"));
    let mut engine = PermissionEngine::new(Permissions::default());
    module.declare_permissions(&mut engine);
    let mut d = Dispatcher::new();
    d.register("storage.get", ());
    let d = d.with_engine(Arc::new(engine));
    assert_eq!(routed_code(&d, "storage.get"), Some(PERMISSION_DENIED));
}

#[test]
fn system_methods_accessible_without_permission_engine() {
    let mut d = Dispatcher::new();
    for method in ["system.platform", "system.version", "system.info"] {
        assert!(d.register(method, ()));
    }
    for method in ["system.platform", "system.version", "system.info"] {
        assert!(d.route(method).is_ok(), "{method} must succeed without a permission engine");
    }
}

#[test]
fn fs_absolute_path_permission_gates_out_of_sandbox() {
    let module = FsModule::new(PathBuf::from("sandbox"));
    let mut engine = PermissionEngine::new(Permissions {
        fs: Some(FsPermissions { app_data: true, absolute_path: false, ..Default::default() }),
        ..Default::default()
    });
    module.declare_permissions(&mut engine);
    engine.require("fs.readAbsolute", PermissionKey::FsAbsolutePath);
    // No handler is registered for `fs.readAbsolute`: the engine answers first.
    let mut d = Dispatcher::new();
    d.register("fs.write", ());
    let d = d.with_engine(Arc::new(engine));
    assert!(d.route("fs.write").is_ok(), "fs.write must succeed with appData granted");
    assert_eq!(routed_code(&d, "fs.readAbsolute"), Some(PERMISSION_DENIED));
}

// ── Module registry ──────────────────────────────────────────────────────────

#[test]
fn empty_registry_has_zero_modules() {
    let registry: ModuleRegistry<&str> = ModuleRegistry::new();
    assert_eq!(registry.module_count(), 0);
    assert!(registry.module(0).is_none());
}

#[test]
fn register_increments_module_count() {
    let mut registry = ModuleRegistry::new();
    registry.register("echo");
    assert_eq!(registry.module_count(), 1);
    registry.register("storage_stub");
    assert_eq!(registry.module_count(), 2);
}

#[test]
fn module_names_are_returned_in_insertion_order() {
    let mut registry = ModuleRegistry::new();
    registry.register("echo");
    registry.register("storage_stub");
    let names: Vec<&str> =
        (0..registry.module_count()).filter_map(|i| registry.module(i).copied()).collect();
    assert_eq!(names, vec!["echo", "storage_stub"]);
}

// ── Store: many writes to distinct keys ─────────────────────────────────────

#[test]
fn concurrent_writes_do_not_corrupt_data() {
    // The host serialises the writes; in whatever order they land, none is lost.
    for order in [(0..10).collect::<Vec<usize>>(), (0..10).rev().collect::<Vec<usize>>()] {
        let mut store = Store::empty(PathBuf::from("storage.json"));
        for i in order {
            store.set(format!("key_{i}"), format!("val_{i}"));
        }
        for i in 0..10 {
            assert_eq!(store.get(&format!("key_{i}")), Some(&format!("val_{i}")));
        }
        let text = store.serialized().unwrap();
        let reloaded = Store::load(PathBuf::from("storage.json"), Some(&text)).unwrap();
        for i in 0..10 {
            assert_eq!(reloaded.get(&format!("key_{i}")), Some(&format!("val_{i}")));
        }
    }
}
