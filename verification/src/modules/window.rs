//! `window` native module: native window control.
//!
//! No permission is declared: window control is implicit for any app.
//! Methods: `window.minimize`, `window.maximize` (toggles maximize/restore),
//! `window.close` (also signals the runtime to shut down) and
//! `window.setTitle`.
//!
//! Without a native window (tests, headless runs) every operation ends in a
//! structured `INTERNAL_ERROR` instead of a panic.
use std::sync::Arc;

use tokio::sync::Notify;
use vstd::prelude::*;

use crate::permissions::engine::PermissionEngine;
use crate::rpc::schema::error_codes::INTERNAL_ERROR;
use crate::rpc::schema::RpcErrorPayload;

verus! {

/// `tokio::sync::Notify`, carried opaquely: `window.close` uses it to signal
/// the runtime to shut down.
#[verifier::external_type_specification]
#[verifier::external_body]
pub struct ExNotify(Notify);

/// `tokio::sync::Notify::new`: a fresh notifier with no stored permit. Nothing
/// about the value is stated; it is only handed on.
#[verifier::external_body]
fn new_notify() -> Notify {
    Notify::new()
}

/// A native window handle (the Win32 `HWND` as a pointer-sized integer, `0`
/// when there is no window) and the notifier that `window.close` signals.
pub struct WindowHandle {
    hwnd: isize,
    shutdown: Arc<Notify>,
}

impl WindowHandle {
    /// The window handle value; `0` means no window.
    pub closed spec fn spec_hwnd(&self) -> isize {
        self.hwnd
    }

    /// The shutdown notifier.
    pub closed spec fn spec_shutdown(&self) -> Arc<Notify> {
        self.shutdown
    }

    /// A handle for the native window `hwnd`, signalling `shutdown` on close.
    ///
    /// The caller keeps `hwnd` a valid window for the handle's lifetime.
    pub fn new(hwnd: isize, shutdown: Arc<Notify>) -> (r: Self)
        ensures
            r.spec_hwnd() == hwnd,
            r.spec_shutdown() == shutdown,
    {
        WindowHandle { hwnd, shutdown }
    }

    /// A handle with no window, for tests and pre-window contexts.
    pub fn null() -> (r: Self)
        ensures
            r.spec_hwnd() == 0,
    {
        WindowHandle { hwnd: 0, shutdown: Arc::new(new_notify()) }
    }

    /// Whether the handle refers to a real window.
    pub fn is_valid(&self) -> (r: bool)
        ensures
            r == (self.spec_hwnd() != 0),
    {
        self.hwnd != 0
    }

    /// The window handle value.
    pub fn hwnd(&self) -> (r: isize)
        ensures
            r == self.spec_hwnd(),
    {
        self.hwnd
    }

    /// The notifier that `window.close` signals.
    pub fn shutdown(&self) -> (r: &Arc<Notify>)
        ensures
            *r == self.spec_shutdown(),
    {
        &self.shutdown
    }
}

/// A window operation requested over RPC.
pub enum WindowOp {
    /// Minimize to the taskbar.
    Minimize,
    /// Maximize, or restore if already maximized.
    Maximize,
    /// Close the window.
    Close,
    /// Set the title bar text.
    SetTitle(String),
}

/// How to show the window.
#[derive(Debug, Clone, Copy, PartialEq, Eq, Structural)]
pub enum ShowCommand {
    /// Minimize.
    Minimize,
    /// Maximize.
    Maximize,
    /// Restore from maximized.
    Restore,
}

/// The show command for an operation that shows the window differently:
/// maximize toggles between maximized and restored.
pub fn show_command(op: &WindowOp, is_zoomed: bool) -> (r: Option<ShowCommand>)
    ensures
        op is Minimize ==> r == Some(ShowCommand::Minimize),
        op is Maximize ==> r == Some(if is_zoomed { ShowCommand::Restore } else { ShowCommand::Maximize }),
        op is Close || op is SetTitle ==> r is None,
{
    match op {
        WindowOp::Minimize => Some(ShowCommand::Minimize),
        WindowOp::Maximize => if is_zoomed {
            Some(ShowCommand::Restore)
        } else {
            Some(ShowCommand::Maximize)
        },
        WindowOp::Close => None,
        WindowOp::SetTitle(_) => None,
    }
}

/// Whether a window operation can proceed on `handle`: only with a real
/// window; otherwise a graceful `INTERNAL_ERROR`.
pub fn window_op_precheck(handle: &WindowHandle) -> (r: Result<(), RpcErrorPayload>)
    ensures
        r is Ok <==> handle.spec_hwnd() != 0,
        r matches Err(p) ==> p@ == (
            INTERNAL_ERROR,
            "window operation unavailable: no native window handle"@,
        ),
{
    if handle.is_valid() {
        Ok(())
    } else {
        Err(
            RpcErrorPayload::new(
                INTERNAL_ERROR,
                "window operation unavailable: no native window handle",
            ),
        )
    }
}

/// The answer to a window operation on a platform without native windows.
pub fn unsupported_platform() -> (r: RpcErrorPayload)
    ensures
        r@ == (INTERNAL_ERROR, "window operations are only supported on Windows"@),
{
    RpcErrorPayload::new(INTERNAL_ERROR, "window operations are only supported on Windows")
}

/// The `window` module, backed by a shared window handle.
pub struct WindowModule {
    handle: Arc<WindowHandle>,
}

impl WindowModule {
    /// The window handle the module operates on.
    pub closed spec fn spec_handle(&self) -> WindowHandle {
        *self.handle
    }

    /// A `WindowModule` backed by `handle`.
    pub fn new(handle: Arc<WindowHandle>) -> (r: Self)
        ensures
            r.spec_handle() == *handle,
    {
        WindowModule { handle }
    }

    /// A `WindowModule` with no window (for tests and pre-window use).
    pub fn null() -> (r: Self)
        ensures
            r.spec_handle().spec_hwnd() == 0,
    {
        Self::new(Arc::new(WindowHandle::null()))
    }

    /// The shared window handle.
    pub fn handle(&self) -> (r: &Arc<WindowHandle>)
        ensures
            **r == self.spec_handle(),
    {
        &self.handle
    }

    /// Stable module identifier.
    pub fn name(&self) -> (r: &'static str)
        ensures
            r@ == "window"@,
    {
        "window"
    }

    /// `window` methods require no permission, so nothing is declared.
    pub fn declare_permissions(&self, engine: &mut PermissionEngine)
        ensures
            final(engine).requirements() == old(engine).requirements(),
            final(engine).perms() == old(engine).perms(),
    {
    }
}

} // verus!
