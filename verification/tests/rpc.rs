use std::sync::Arc;

use axion_core::permissions::engine::{PermissionEngine, PermissionKey};
use axion_core::permissions::{FsPermissions, Permissions};
use axion_core::rpc::dispatcher::{
    finish, parse_error_response, reject, Dispatcher, HandlerOutcome, SERIALIZATION_FALLBACK,
};
use axion_core::rpc::params::{internal_failure, require_string};
use axion_core::rpc::schema::error_codes::{
    INTERNAL_ERROR, INVALID_PARAMS, INVALID_REQUEST, METHOD_NOT_FOUND, PARSE_ERROR,
    PERMISSION_DENIED,
};
use axion_core::rpc::schema::{RpcErrorPayload, RpcRequest, RpcResponse};
use serde_json::Value;

/// The response a dispatcher gives to `method`, when the handler would
/// return `handler_result`.
fn respond(
    d: &Dispatcher<()>,
    id: u64,
    method: &str,
    handler_result: Result<&str, RpcErrorPayload>,
) -> (RpcResponse<String>, bool) {
    match d.route(method) {
        Err(error) => (reject(id, error), false),
        Ok(()) => {
            let outcome = match handler_result {
                Ok(v) => HandlerOutcome::Returned(v.to_string()),
                Err(e) => HandlerOutcome::Failed(e),
            };
            (finish(id, outcome), true)
        }
    }
}

// ── Error codes ──────────────────────────────────────────────────────────────

#[test]
fn error_codes_match_jsonrpc_spec() {
    assert_eq!(PARSE_ERROR, -32700);
    assert_eq!(INVALID_REQUEST, -32600);
    assert_eq!(METHOD_NOT_FOUND, -32601);
    assert_eq!(INVALID_PARAMS, -32602);
    assert_eq!(INTERNAL_ERROR, -32603);
    assert!(PERMISSION_DENIED >= -32099 && PERMISSION_DENIED <= -32000);
}

// ── RpcResponse helpers ──────────────────────────────────────────────────────

#[test]
fn response_id_returns_correct_id_for_both_variants() {
    let ok: RpcResponse<Value> = RpcResponse::success(42, Value::Null);
    let err: RpcResponse<Value> = RpcResponse::error(43, INTERNAL_ERROR, "oops");
    assert_eq!(ok.id(), 42);
    assert_eq!(err.id(), 43);
}

#[test]
fn is_ok_and_is_err_are_consistent() {
    let ok: RpcResponse<Value> = RpcResponse::success(1, Value::Null);
    let err: RpcResponse<Value> = RpcResponse::error(2, INTERNAL_ERROR, "fail");
    assert!(ok.is_ok() && !ok.is_err());
    assert!(err.is_err() && !err.is_ok());
}

#[test]
fn error_response_carries_code_and_message() {
    let resp: RpcResponse<Value> =
        RpcResponse::error(12, METHOD_NOT_FOUND, "Method not found: fs.write");
    match resp {
        RpcResponse::Error { id, error } => {
            assert_eq!(id, 12);
            assert_eq!(error.code, -32601);
            assert_eq!(error.message, "Method not found: fs.write");
        }
        RpcResponse::Success { .. } => panic!("expected an error response"),
    }
    let req = RpcRequest { id: 99, method: "storage.get".to_string(), params: 5u8 };
    assert_eq!(req.clone(), req);
}

// ── Dispatcher registration ──────────────────────────────────────────────────

#[test]
fn register_returns_true_for_new_method() {
    let mut d = Dispatcher::new();
    assert!(d.register("test.method", ()));
}

#[test]
fn register_returns_false_for_duplicate_method() {
    let mut d = Dispatcher::new();
    d.register("test.method", ());
    assert!(!d.register("test.method", ()), "duplicate registration must be rejected");
    assert!(d.is_registered("test.method"));
    assert!(!d.is_registered("test.other"));
}

#[test]
fn existing_handler_is_not_overwritten_on_duplicate() {
    let mut d = Dispatcher::new();
    assert!(d.register("test.op", "first"));
    assert!(!d.register("test.op", "second"));
    assert_eq!(d.handler("test.op"), Some(&"first"));
    assert_eq!(d.handler("test.other"), None);
}

#[test]
fn engine_is_consulted_before_handler_lookup() {
    // A method that the engine does not permit is denied even when no handler
    // is registered for it; a permitted method without one is not found.
    let mut engine = PermissionEngine::new(Permissions { storage: true, ..Default::default() });
    engine.require("notifications.show", PermissionKey::Notifications);
    engine.require("storage.get", PermissionKey::Storage);
    let d: Dispatcher<()> = Dispatcher::new().with_engine(Arc::new(engine));
    assert_eq!(d.route("notifications.show").unwrap_err().code, PERMISSION_DENIED);
    assert_eq!(d.route("unknown.method").unwrap_err().code, PERMISSION_DENIED);
    let e = d.route("storage.get").unwrap_err();
    assert_eq!(e.code, METHOD_NOT_FOUND);
    assert_eq!(e.message, "Method not found: storage.get");
}

// ── Routing ──────────────────────────────────────────────────────────────────

#[test]
fn registered_handler_is_called() {
    let mut d = Dispatcher::new();
    d.register("echo", ());
    let (resp, invoked) = respond(&d, 7, "echo", Ok("hi"));
    assert!(invoked);
    assert_eq!(resp, RpcResponse::success(7, "hi".to_string()));
}

#[test]
fn unknown_method_returns_method_not_found() {
    let d = Dispatcher::new();
    let (resp, invoked) = respond(&d, 1, "no.such.method", Ok("x"));
    assert!(!invoked);
    assert!(resp.is_err());
    assert_eq!(resp.id(), 1);
    if let RpcResponse::Error { error, .. } = resp {
        assert_eq!(error.code, METHOD_NOT_FOUND);
        assert_eq!(error.message, "Method not found: no.such.method");
    }
}

#[test]
fn handler_returning_err_produces_error_response() {
    let mut d = Dispatcher::new();
    d.register("failing.op", ());
    let (resp, _) = respond(
        &d,
        3,
        "failing.op",
        Err(RpcErrorPayload::new(INVALID_PARAMS, "path is required")),
    );
    assert!(resp.is_err());
    assert_eq!(resp.id(), 3);
    if let RpcResponse::Error { error, .. } = resp {
        assert_eq!(error.code, INVALID_PARAMS);
        assert_eq!(error.message, "path is required");
    }
}

#[test]
fn panicking_handler_returns_internal_error() {
    let resp: RpcResponse<String> = finish(99, HandlerOutcome::Panicked);
    assert!(resp.is_err(), "panic must produce an error response");
    assert_eq!(resp.id(), 99);
    if let RpcResponse::Error { error, .. } = resp {
        assert_eq!(error.code, INTERNAL_ERROR);
        assert!(!error.message.contains("simulated"));
        assert_eq!(error.message, "Internal error");
    }
}

#[test]
fn wire_to_bridge_returns_parse_error_for_invalid_json() {
    let resp: RpcResponse<Value> = parse_error_response();
    assert!(resp.is_err());
    assert_eq!(resp.id(), 0);
    if let RpcResponse::Error { error, .. } = resp {
        assert_eq!(error.code, PARSE_ERROR);
        assert_eq!(error.message, "Parse error");
    }
    assert_eq!(
        SERIALIZATION_FALLBACK,
        r#"{"id":0,"error":{"code":-32603,"message":"Internal error"}}"#
    );
}

// ── Permission enforcement in the dispatcher ─────────────────────────────────

#[test]
fn granted_permission_rpc_call_succeeds() {
    let mut engine = PermissionEngine::new(Permissions { storage: true, ..Default::default() });
    engine.require("storage.get", PermissionKey::Storage);
    let mut d = Dispatcher::new().with_engine(Arc::new(engine));
    d.register("storage.get", ());

    let (resp, invoked) = respond(&d, 1, "storage.get", Ok("dark"));
    assert!(invoked);
    assert!(resp.is_ok(), "granted permission must allow the RPC call");
    assert_eq!(resp.id(), 1);
    assert_eq!(resp, RpcResponse::success(1, "dark".to_string()));
}

#[test]
fn missing_permission_returns_permission_denied_error() {
    let mut engine = PermissionEngine::new(Permissions { storage: true, ..Default::default() });
    engine.require("fs.write", PermissionKey::FsAppData);
    let mut d = Dispatcher::new().with_engine(Arc::new(engine));
    d.register("fs.write", ());

    let (resp, invoked) = respond(&d, 2, "fs.write", Ok("written"));
    assert!(!invoked);
    assert!(resp.is_err(), "missing permission must return an error");
    assert_eq!(resp.id(), 2);
    if let RpcResponse::Error { error, .. } = resp {
        assert_eq!(error.code, PERMISSION_DENIED, "error code must be PERMISSION_DENIED");
        assert!(error.message.contains("fs.appData"), "error message must name the missing permission key");
    }
}

#[test]
fn end_to_end_denied_permission_never_calls_handler() {
    let mut engine = PermissionEngine::new(Permissions::default());
    engine.require("notifications.show", PermissionKey::Notifications);
    let mut d = Dispatcher::new().with_engine(Arc::new(engine));
    d.register("notifications.show", ());

    let (resp, invoked) = respond(&d, 30, "notifications.show", Ok("{}"));
    assert!(!invoked, "handler must never be called when permission is denied");
    assert!(resp.is_err());
    assert_eq!(resp.id(), 30);
    if let RpcResponse::Error { error, .. } = resp {
        assert_eq!(error.code, PERMISSION_DENIED);
        assert!(error.message.contains("notifications"));
    }
}

#[test]
fn end_to_end_only_granted_modules_succeed() {
    let mut engine = PermissionEngine::new(Permissions {
        storage: true,
        notifications: false,
        system: true,
        ..Default::default()
    });
    engine.require("storage.set", PermissionKey::Storage);
    engine.require("notifications.show", PermissionKey::Notifications);
    engine.require("system.info", PermissionKey::System);
    let mut d = Dispatcher::new().with_engine(Arc::new(engine));
    d.register("storage.set", ());
    d.register("notifications.show", ());
    d.register("system.info", ());

    assert!(respond(&d, 40, "storage.set", Ok("{}")).0.is_ok());
    let (resp, _) = respond(&d, 41, "notifications.show", Ok("{}"));
    assert!(resp.is_err());
    if let RpcResponse::Error { error, .. } = resp {
        assert_eq!(error.code, PERMISSION_DENIED);
    }
    assert!(respond(&d, 42, "system.info", Ok("{}")).0.is_ok());
}

#[test]
fn fs_app_data_granted_but_absolute_path_denied() {
    let mut engine = PermissionEngine::new(Permissions {
        fs: Some(FsPermissions { app_data: true, absolute_path: false, user_selected: false }),
        ..Default::default()
    });
    engine.require("fs.read", PermissionKey::FsAppData);
    engine.require("fs.write", PermissionKey::FsAppData);
    engine.require("fs.readAbsolute", PermissionKey::FsAbsolutePath);
    let mut d = Dispatcher::new().with_engine(Arc::new(engine));
    d.register("fs.read", ());
    d.register("fs.write", ());
    d.register("fs.readAbsolute", ());

    assert!(respond(&d, 10, "fs.read", Ok("content")).0.is_ok());
    assert!(respond(&d, 11, "fs.write", Ok("{}")).0.is_ok());
    let (resp, invoked) = respond(&d, 12, "fs.readAbsolute", Ok("absolute content"));
    assert!(!invoked);
    if let RpcResponse::Error { error, .. } = resp {
        assert_eq!(error.code, PERMISSION_DENIED);
        assert!(error.message.contains("fs.absolutePath"));
    } else {
        panic!("fs.readAbsolute must be denied when absolutePath is not granted");
    }
}

#[test]
fn user_selected_granted_allows_pick_directory_only() {
    let mut engine = PermissionEngine::new(Permissions {
        fs: Some(FsPermissions { user_selected: true, app_data: false, absolute_path: false }),
        ..Default::default()
    });
    engine.require("fs.pickDirectory", PermissionKey::FsUserSelected);
    engine.require("fs.read", PermissionKey::FsAppData);
    let mut d = Dispatcher::new().with_engine(Arc::new(engine));
    d.register("fs.pickDirectory", ());
    d.register("fs.read", ());

    assert!(respond(&d, 20, "fs.pickDirectory", Ok("C:\\Users\\docs")).0.is_ok());
    let (resp, _) = respond(&d, 21, "fs.read", Ok("content"));
    assert!(resp.is_err());
    if let RpcResponse::Error { error, .. } = resp {
        assert_eq!(error.code, PERMISSION_DENIED);
    }
}

#[test]
fn engine_denies_registered_method_it_does_not_know() {
    // A method the dispatcher knows but no module declared a permission for is
    // denied by an attached engine.
    let engine = PermissionEngine::new(Permissions::default());
    let mut d = Dispatcher::new().with_engine(Arc::new(engine));
    d.register("system.platform", ());
    let (resp, invoked) = respond(&d, 6, "system.platform", Ok("windows"));
    assert!(!invoked);
    if let RpcResponse::Error { error, .. } = resp {
        assert_eq!(error.code, PERMISSION_DENIED);
        assert!(error.message.contains("has not been registered"));
    } else {
        panic!("expected a denial");
    }
}

// ── Parameter checks ─────────────────────────────────────────────────────────

#[test]
fn required_string_param_present_or_invalid_params() {
    assert_eq!(require_string(Some("notes.txt"), "path").unwrap(), "notes.txt");
    let err = require_string(None, "title").unwrap_err();
    assert_eq!(err.code, INVALID_PARAMS);
    assert_eq!(err.message, "'title' (string) is required");
}

#[test]
fn internal_failure_joins_prefix_and_detail() {
    let err = internal_failure("fs.read failed: ", "No such file");
    assert_eq!(err.code, INTERNAL_ERROR);
    assert_eq!(err.message, "fs.read failed: No such file");
}
