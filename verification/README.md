# axion_core

The verified core of Axion, a permission-gated desktop runtime: React apps
run in a WebView2 window and reach native capabilities (filesystem, storage,
notifications, system information, window control) through JSON RPC calls
that the runtime checks against the app's `permissions.json`.

- `src/` is the library, verified with Verus: the permission schema and the
  Permission Engine, the RPC message shapes and routing decisions, the native
  modules' permission declarations and handler logic, the asset and
  `axion://` scheme rules, and the IPC size policy. Contracts are stated over
  `Seq`/`Map` views; the laws that relate operations are proof functions.
- `app/` is the host around it: `main`, reading `permissions.json`, the async
  dispatcher that runs handlers on Tokio tasks, file and Win32/WebView2 calls,
  and the serde/ts-rs wire types.
- `tests/` exercises the library on concrete values.
