//! Frontend assets: which bundle file a URL path names, what MIME type it is
//! served as, and whether the runtime serves the embedded bundle or a live
//! dev server.
//!
//! In production the Vite bundle is embedded in the binary and served from
//! memory; in dev mode the web view navigates to the Vite dev server so hot
//! module replacement works. The embedded files themselves are the host's.
use vstd::prelude::*;

use crate::text::{
    after_last, lacks, last_index_at, lemma_last_index_unique, suffix_after_last, str_eq,
    trim_leading, trim_start_char,
};

verus! {

/// The default URL of the Vite dev server.
pub const DEFAULT_DEV_URL: &'static str = "http://localhost:5173";

/// A resolved asset ready to send to the browser.
pub struct Asset {
    /// Raw file bytes.
    pub data: Vec<u8>,
    /// MIME type, e.g. `"text/html; charset=utf-8"`.
    pub mime: String,
}

/// Runtime mode: embedded assets or a live dev server.
#[derive(Debug, Clone)]
pub enum RuntimeMode {
    /// Serve assets from the embedded bundle.
    Production,
    /// Navigate the web view to a live dev server.
    Dev {
        /// Full URL of the dev server, e.g. `http://localhost:5173`.
        url: String,
    },
}

impl RuntimeMode {
    /// The mode for the given environment: dev mode when `AXION_DEV` is set
    /// (`explicit_dev`) or in a debug build, with the URL from `AXION_DEV_URL`
    /// (`dev_url`) or `http://localhost:5173` by default; production otherwise.
    pub fn detect_from(explicit_dev: bool, debug_build: bool, dev_url: Option<String>) -> (r: Self)
        ensures
            (explicit_dev || debug_build) <==> r is Dev,
            r matches RuntimeMode::Dev { url } ==> url@ == (match dev_url {
                Some(u) => u@,
                None => DEFAULT_DEV_URL@,
            }),
    {
        if explicit_dev || debug_build {
            let url = match dev_url {
                Some(u) => u,
                None => String::from_str(DEFAULT_DEV_URL),
            };
            RuntimeMode::Dev { url }
        } else {
            RuntimeMode::Production
        }
    }

    /// The dev server URL in dev mode, `None` in production.
    pub fn dev_url(&self) -> (r: Option<&str>)
        ensures
            r is None <==> self is Production,
            r matches Some(u) ==> (self matches RuntimeMode::Dev { url } && u@ == url@),
    {
        match self {
            RuntimeMode::Dev { url } => Some(url.as_str()),
            RuntimeMode::Production => None,
        }
    }

    /// Whether assets are served from the binary.
    pub fn is_production(&self) -> (r: bool)
        ensures
            r == (self is Production),
    {
        match self {
            RuntimeMode::Production => true,
            RuntimeMode::Dev { .. } => false,
        }
    }
}

/// The bundle key for a URL path: leading slashes removed, and the root
/// (`/` or empty) mapped to `index.html`.
pub open spec fn normalised_path(path: Seq<char>) -> Seq<char> {
    let trimmed = trim_leading(path, '/');
    if trimmed.len() == 0 {
        "index.html"@
    } else {
        trimmed
    }
}

/// Normalise a URL path such as `/` or `/assets/app.js` to the key of a file
/// in the bundle: `index.html`, `assets/app.js`.
pub fn normalise_path<'a>(path: &'a str) -> (r: &'a str)
    ensures
        r@ == normalised_path(path@),
{
    let trimmed = trim_start_char(path, '/');
    if trimmed.unicode_len() == 0 {
        "index.html"
    } else {
        trimmed
    }
}

/// The MIME type served for a file extension.
pub open spec fn mime_for_extension(ext: Seq<char>) -> Seq<char> {
    if ext == "html"@ {
        "text/html; charset=utf-8"@
    } else if ext == "js"@ || ext == "mjs"@ {
        "application/javascript"@
    } else if ext == "css"@ {
        "text/css"@
    } else if ext == "json"@ {
        "application/json"@
    } else if ext == "svg"@ {
        "image/svg+xml"@
    } else if ext == "png"@ {
        "image/png"@
    } else if ext == "jpg"@ || ext == "jpeg"@ {
        "image/jpeg"@
    } else if ext == "gif"@ {
        "image/gif"@
    } else if ext == "webp"@ {
        "image/webp"@
    } else if ext == "ico"@ {
        "image/x-icon"@
    } else if ext == "woff"@ {
        "font/woff"@
    } else if ext == "woff2"@ {
        "font/woff2"@
    } else if ext == "ttf"@ {
        "font/ttf"@
    } else if ext == "otf"@ {
        "font/otf"@
    } else if ext == "map"@ {
        "application/json"@
    } else {
        "application/octet-stream"@
    }
}

/// A path is served by its extension: for a path made of any text, a `.`,
/// and an extension without `.`, the MIME type is the extension's; a path
/// with no `.` at all is looked up as a whole.
pub proof fn lemma_mime_by_extension(stem: Seq<char>, ext: Seq<char>)
    requires
        lacks(ext, '.'),
    ensures
        mime_spec(stem + seq!['.'] + ext) == mime_for_extension(ext),
        lacks(stem, '.') ==> mime_spec(stem) == mime_for_extension(stem),
{
    let path = stem + seq!['.'] + ext;
    let n = stem.len() as int;
    assert(path[n] == '.');
    assert(last_index_at(path, '.', n)) by {
        assert forall|j: int| n < j < path.len() implies path[j] != '.' by {
            assert(path[j] == ext[j - n - 1]);
        }
    }
    assert(!lacks(path, '.'));
    let k = choose|i: int| last_index_at(path, '.', i);
    lemma_last_index_unique(path, '.', k, n);
    assert(path.skip(n + 1) =~= ext);
}

/// The extensions with a MIME type of their own, each with that type.
pub open spec fn known_mime_types() -> Seq<(Seq<char>, Seq<char>)> {
    seq![
        ("html"@, "text/html; charset=utf-8"@),
        ("js"@, "application/javascript"@),
        ("mjs"@, "application/javascript"@),
        ("css"@, "text/css"@),
        ("json"@, "application/json"@),
        ("svg"@, "image/svg+xml"@),
        ("png"@, "image/png"@),
        ("jpg"@, "image/jpeg"@),
        ("jpeg"@, "image/jpeg"@),
        ("gif"@, "image/gif"@),
        ("webp"@, "image/webp"@),
        ("ico"@, "image/x-icon"@),
        ("woff"@, "font/woff"@),
        ("woff2"@, "font/woff2"@),
        ("ttf"@, "font/ttf"@),
        ("otf"@, "font/otf"@),
        ("map"@, "application/json"@),
    ]
}

/// The MIME table: each known extension is served with its own type, and any
/// other extension as `application/octet-stream`.
pub proof fn lemma_mime_table(ext: Seq<char>)
    ensures
        forall|i: int|
            0 <= i < known_mime_types().len() ==> mime_for_extension(
                #[trigger] known_mime_types()[i].0,
            ) == known_mime_types()[i].1,
        (forall|i: int| 0 <= i < known_mime_types().len() ==> known_mime_types()[i].0 != ext)
            ==> mime_for_extension(ext) == "application/octet-stream"@,
{
    reveal_strlit("html");
    reveal_strlit("js");
    reveal_strlit("mjs");
    reveal_strlit("css");
    reveal_strlit("json");
    reveal_strlit("svg");
    reveal_strlit("png");
    reveal_strlit("jpg");
    reveal_strlit("jpeg");
    reveal_strlit("gif");
    reveal_strlit("webp");
    reveal_strlit("ico");
    reveal_strlit("woff");
    reveal_strlit("woff2");
    reveal_strlit("ttf");
    reveal_strlit("otf");
    reveal_strlit("map");
    let t = known_mime_types();
    assert("js"@ != "html"@) by {
        assert("js"@.len() != "html"@.len());
    }
    assert("mjs"@ != "html"@) by {
        assert("mjs"@.len() != "html"@.len());
    }
    assert("mjs"@ != "js"@) by {
        assert("mjs"@.len() != "js"@.len());
    }
    assert("css"@ != "html"@) by {
        assert("css"@.len() != "html"@.len());
    }
    assert("css"@ != "js"@) by {
        assert("css"@.len() != "js"@.len());
    }
    assert("css"@ != "mjs"@) by {
        assert("css"@[0] != "mjs"@[0]);
    }
    assert("json"@ != "html"@) by {
        assert("json"@[0] != "html"@[0]);
    }
    assert("json"@ != "js"@) by {
        assert("json"@.len() != "js"@.len());
    }
    assert("json"@ != "mjs"@) by {
        assert("json"@.len() != "mjs"@.len());
    }
    assert("json"@ != "css"@) by {
        assert("json"@.len() != "css"@.len());
    }
    assert("svg"@ != "html"@) by {
        assert("svg"@.len() != "html"@.len());
    }
    assert("svg"@ != "js"@) by {
        assert("svg"@.len() != "js"@.len());
    }
    assert("svg"@ != "mjs"@) by {
        assert("svg"@[0] != "mjs"@[0]);
    }
    assert("svg"@ != "css"@) by {
        assert("svg"@[0] != "css"@[0]);
    }
    assert("svg"@ != "json"@) by {
        assert("svg"@.len() != "json"@.len());
    }
    assert("png"@ != "html"@) by {
        assert("png"@.len() != "html"@.len());
    }
    assert("png"@ != "js"@) by {
        assert("png"@.len() != "js"@.len());
    }
    assert("png"@ != "mjs"@) by {
        assert("png"@[0] != "mjs"@[0]);
    }
    assert("png"@ != "css"@) by {
        assert("png"@[0] != "css"@[0]);
    }
    assert("png"@ != "json"@) by {
        assert("png"@.len() != "json"@.len());
    }
    assert("png"@ != "svg"@) by {
        assert("png"@[0] != "svg"@[0]);
    }
    assert("jpg"@ != "html"@) by {
        assert("jpg"@.len() != "html"@.len());
    }
    assert("jpg"@ != "js"@) by {
        assert("jpg"@.len() != "js"@.len());
    }
    assert("jpg"@ != "mjs"@) by {
        assert("jpg"@[0] != "mjs"@[0]);
    }
    assert("jpg"@ != "css"@) by {
        assert("jpg"@[0] != "css"@[0]);
    }
    assert("jpg"@ != "json"@) by {
        assert("jpg"@.len() != "json"@.len());
    }
    assert("jpg"@ != "svg"@) by {
        assert("jpg"@[0] != "svg"@[0]);
    }
    assert("jpg"@ != "png"@) by {
        assert("jpg"@[0] != "png"@[0]);
    }
    assert("jpeg"@ != "html"@) by {
        assert("jpeg"@[0] != "html"@[0]);
    }
    assert("jpeg"@ != "js"@) by {
        assert("jpeg"@.len() != "js"@.len());
    }
    assert("jpeg"@ != "mjs"@) by {
        assert("jpeg"@.len() != "mjs"@.len());
    }
    assert("jpeg"@ != "css"@) by {
        assert("jpeg"@.len() != "css"@.len());
    }
    assert("jpeg"@ != "json"@) by {
        assert("jpeg"@[1] != "json"@[1]);
    }
    assert("jpeg"@ != "svg"@) by {
        assert("jpeg"@.len() != "svg"@.len());
    }
    assert("jpeg"@ != "png"@) by {
        assert("jpeg"@.len() != "png"@.len());
    }
    assert("jpeg"@ != "jpg"@) by {
        assert("jpeg"@.len() != "jpg"@.len());
    }
    assert("gif"@ != "html"@) by {
        assert("gif"@.len() != "html"@.len());
    }
    assert("gif"@ != "js"@) by {
        assert("gif"@.len() != "js"@.len());
    }
    assert("gif"@ != "mjs"@) by {
        assert("gif"@[0] != "mjs"@[0]);
    }
    assert("gif"@ != "css"@) by {
        assert("gif"@[0] != "css"@[0]);
    }
    assert("gif"@ != "json"@) by {
        assert("gif"@.len() != "json"@.len());
    }
    assert("gif"@ != "svg"@) by {
        assert("gif"@[0] != "svg"@[0]);
    }
    assert("gif"@ != "png"@) by {
        assert("gif"@[0] != "png"@[0]);
    }
    assert("gif"@ != "jpg"@) by {
        assert("gif"@[0] != "jpg"@[0]);
    }
    assert("gif"@ != "jpeg"@) by {
        assert("gif"@.len() != "jpeg"@.len());
    }
    assert("webp"@ != "html"@) by {
        assert("webp"@[0] != "html"@[0]);
    }
    assert("webp"@ != "js"@) by {
        assert("webp"@.len() != "js"@.len());
    }
    assert("webp"@ != "mjs"@) by {
        assert("webp"@.len() != "mjs"@.len());
    }
    assert("webp"@ != "css"@) by {
        assert("webp"@.len() != "css"@.len());
    }
    assert("webp"@ != "json"@) by {
        assert("webp"@[0] != "json"@[0]);
    }
    assert("webp"@ != "svg"@) by {
        assert("webp"@.len() != "svg"@.len());
    }
    assert("webp"@ != "png"@) by {
        assert("webp"@.len() != "png"@.len());
    }
    assert("webp"@ != "jpg"@) by {
        assert("webp"@.len() != "jpg"@.len());
    }
    assert("webp"@ != "jpeg"@) by {
        assert("webp"@[0] != "jpeg"@[0]);
    }
    assert("webp"@ != "gif"@) by {
        assert("webp"@.len() != "gif"@.len());
    }
    assert("ico"@ != "html"@) by {
        assert("ico"@.len() != "html"@.len());
    }
    assert("ico"@ != "js"@) by {
        assert("ico"@.len() != "js"@.len());
    }
    assert("ico"@ != "mjs"@) by {
        assert("ico"@[0] != "mjs"@[0]);
    }
    assert("ico"@ != "css"@) by {
        assert("ico"@[0] != "css"@[0]);
    }
    assert("ico"@ != "json"@) by {
        assert("ico"@.len() != "json"@.len());
    }
    assert("ico"@ != "svg"@) by {
        assert("ico"@[0] != "svg"@[0]);
    }
    assert("ico"@ != "png"@) by {
        assert("ico"@[0] != "png"@[0]);
    }
    assert("ico"@ != "jpg"@) by {
        assert("ico"@[0] != "jpg"@[0]);
    }
    assert("ico"@ != "jpeg"@) by {
        assert("ico"@.len() != "jpeg"@.len());
    }
    assert("ico"@ != "gif"@) by {
        assert("ico"@[0] != "gif"@[0]);
    }
    assert("ico"@ != "webp"@) by {
        assert("ico"@.len() != "webp"@.len());
    }
    assert("woff"@ != "html"@) by {
        assert("woff"@[0] != "html"@[0]);
    }
    assert("woff"@ != "js"@) by {
        assert("woff"@.len() != "js"@.len());
    }
    assert("woff"@ != "mjs"@) by {
        assert("woff"@.len() != "mjs"@.len());
    }
    assert("woff"@ != "css"@) by {
        assert("woff"@.len() != "css"@.len());
    }
    assert("woff"@ != "json"@) by {
        assert("woff"@[0] != "json"@[0]);
    }
    assert("woff"@ != "svg"@) by {
        assert("woff"@.len() != "svg"@.len());
    }
    assert("woff"@ != "png"@) by {
        assert("woff"@.len() != "png"@.len());
    }
    assert("woff"@ != "jpg"@) by {
        assert("woff"@.len() != "jpg"@.len());
    }
    assert("woff"@ != "jpeg"@) by {
        assert("woff"@[0] != "jpeg"@[0]);
    }
    assert("woff"@ != "gif"@) by {
        assert("woff"@.len() != "gif"@.len());
    }
    assert("woff"@ != "webp"@) by {
        assert("woff"@[1] != "webp"@[1]);
    }
    assert("woff"@ != "ico"@) by {
        assert("woff"@.len() != "ico"@.len());
    }
    assert("woff2"@ != "html"@) by {
        assert("woff2"@.len() != "html"@.len());
    }
    assert("woff2"@ != "js"@) by {
        assert("woff2"@.len() != "js"@.len());
    }
    assert("woff2"@ != "mjs"@) by {
        assert("woff2"@.len() != "mjs"@.len());
    }
    assert("woff2"@ != "css"@) by {
        assert("woff2"@.len() != "css"@.len());
    }
    assert("woff2"@ != "json"@) by {
        assert("woff2"@.len() != "json"@.len());
    }
    assert("woff2"@ != "svg"@) by {
        assert("woff2"@.len() != "svg"@.len());
    }
    assert("woff2"@ != "png"@) by {
        assert("woff2"@.len() != "png"@.len());
    }
    assert("woff2"@ != "jpg"@) by {
        assert("woff2"@.len() != "jpg"@.len());
    }
    assert("woff2"@ != "jpeg"@) by {
        assert("woff2"@.len() != "jpeg"@.len());
    }
    assert("woff2"@ != "gif"@) by {
        assert("woff2"@.len() != "gif"@.len());
    }
    assert("woff2"@ != "webp"@) by {
        assert("woff2"@.len() != "webp"@.len());
    }
    assert("woff2"@ != "ico"@) by {
        assert("woff2"@.len() != "ico"@.len());
    }
    assert("woff2"@ != "woff"@) by {
        assert("woff2"@.len() != "woff"@.len());
    }
    assert("ttf"@ != "html"@) by {
        assert("ttf"@.len() != "html"@.len());
    }
    assert("ttf"@ != "js"@) by {
        assert("ttf"@.len() != "js"@.len());
    }
    assert("ttf"@ != "mjs"@) by {
        assert("ttf"@[0] != "mjs"@[0]);
    }
    assert("ttf"@ != "css"@) by {
        assert("ttf"@[0] != "css"@[0]);
    }
    assert("ttf"@ != "json"@) by {
        assert("ttf"@.len() != "json"@.len());
    }
    assert("ttf"@ != "svg"@) by {
        assert("ttf"@[0] != "svg"@[0]);
    }
    assert("ttf"@ != "png"@) by {
        assert("ttf"@[0] != "png"@[0]);
    }
    assert("ttf"@ != "jpg"@) by {
        assert("ttf"@[0] != "jpg"@[0]);
    }
    assert("ttf"@ != "jpeg"@) by {
        assert("ttf"@.len() != "jpeg"@.len());
    }
    assert("ttf"@ != "gif"@) by {
        assert("ttf"@[0] != "gif"@[0]);
    }
    assert("ttf"@ != "webp"@) by {
        assert("ttf"@.len() != "webp"@.len());
    }
    assert("ttf"@ != "ico"@) by {
        assert("ttf"@[0] != "ico"@[0]);
    }
    assert("ttf"@ != "woff"@) by {
        assert("ttf"@.len() != "woff"@.len());
    }
    assert("ttf"@ != "woff2"@) by {
        assert("ttf"@.len() != "woff2"@.len());
    }
    assert("otf"@ != "html"@) by {
        assert("otf"@.len() != "html"@.len());
    }
    assert("otf"@ != "js"@) by {
        assert("otf"@.len() != "js"@.len());
    }
    assert("otf"@ != "mjs"@) by {
        assert("otf"@[0] != "mjs"@[0]);
    }
    assert("otf"@ != "css"@) by {
        assert("otf"@[0] != "css"@[0]);
    }
    assert("otf"@ != "json"@) by {
        assert("otf"@.len() != "json"@.len());
    }
    assert("otf"@ != "svg"@) by {
        assert("otf"@[0] != "svg"@[0]);
    }
    assert("otf"@ != "png"@) by {
        assert("otf"@[0] != "png"@[0]);
    }
    assert("otf"@ != "jpg"@) by {
        assert("otf"@[0] != "jpg"@[0]);
    }
    assert("otf"@ != "jpeg"@) by {
        assert("otf"@.len() != "jpeg"@.len());
    }
    assert("otf"@ != "gif"@) by {
        assert("otf"@[0] != "gif"@[0]);
    }
    assert("otf"@ != "webp"@) by {
        assert("otf"@.len() != "webp"@.len());
    }
    assert("otf"@ != "ico"@) by {
        assert("otf"@[0] != "ico"@[0]);
    }
    assert("otf"@ != "woff"@) by {
        assert("otf"@.len() != "woff"@.len());
    }
    assert("otf"@ != "woff2"@) by {
        assert("otf"@.len() != "woff2"@.len());
    }
    assert("otf"@ != "ttf"@) by {
        assert("otf"@[0] != "ttf"@[0]);
    }
    assert("map"@ != "html"@) by {
        assert("map"@.len() != "html"@.len());
    }
    assert("map"@ != "js"@) by {
        assert("map"@.len() != "js"@.len());
    }
    assert("map"@ != "mjs"@) by {
        assert("map"@[1] != "mjs"@[1]);
    }
    assert("map"@ != "css"@) by {
        assert("map"@[0] != "css"@[0]);
    }
    assert("map"@ != "json"@) by {
        assert("map"@.len() != "json"@.len());
    }
    assert("map"@ != "svg"@) by {
        assert("map"@[0] != "svg"@[0]);
    }
    assert("map"@ != "png"@) by {
        assert("map"@[0] != "png"@[0]);
    }
    assert("map"@ != "jpg"@) by {
        assert("map"@[0] != "jpg"@[0]);
    }
    assert("map"@ != "jpeg"@) by {
        assert("map"@.len() != "jpeg"@.len());
    }
    assert("map"@ != "gif"@) by {
        assert("map"@[0] != "gif"@[0]);
    }
    assert("map"@ != "webp"@) by {
        assert("map"@.len() != "webp"@.len());
    }
    assert("map"@ != "ico"@) by {
        assert("map"@[0] != "ico"@[0]);
    }
    assert("map"@ != "woff"@) by {
        assert("map"@.len() != "woff"@.len());
    }
    assert("map"@ != "woff2"@) by {
        assert("map"@.len() != "woff2"@.len());
    }
    assert("map"@ != "ttf"@) by {
        assert("map"@[0] != "ttf"@[0]);
    }
    assert("map"@ != "otf"@) by {
        assert("map"@[0] != "otf"@[0]);
    }
    assert(mime_for_extension(t[0].0) == t[0].1);
    assert(mime_for_extension(t[1].0) == t[1].1);
    assert(mime_for_extension(t[2].0) == t[2].1);
    assert(mime_for_extension(t[3].0) == t[3].1);
    assert(mime_for_extension(t[4].0) == t[4].1);
    assert(mime_for_extension(t[5].0) == t[5].1);
    assert(mime_for_extension(t[6].0) == t[6].1);
    assert(mime_for_extension(t[7].0) == t[7].1);
    assert(mime_for_extension(t[8].0) == t[8].1);
    assert(mime_for_extension(t[9].0) == t[9].1);
    assert(mime_for_extension(t[10].0) == t[10].1);
    assert(mime_for_extension(t[11].0) == t[11].1);
    assert(mime_for_extension(t[12].0) == t[12].1);
    assert(mime_for_extension(t[13].0) == t[13].1);
    assert(mime_for_extension(t[14].0) == t[14].1);
    assert(mime_for_extension(t[15].0) == t[15].1);
    assert(mime_for_extension(t[16].0) == t[16].1);
    assert forall|i: int| 0 <= i < t.len() implies mime_for_extension(#[trigger] t[i].0)
        == t[i].1 by {
        if i == 0 {
            assert(mime_for_extension(t[0].0) == t[0].1);
        }
        if i == 1 {
            assert(mime_for_extension(t[1].0) == t[1].1);
        }
        if i == 2 {
            assert(mime_for_extension(t[2].0) == t[2].1);
        }
        if i == 3 {
            assert(mime_for_extension(t[3].0) == t[3].1);
        }
        if i == 4 {
            assert(mime_for_extension(t[4].0) == t[4].1);
        }
        if i == 5 {
            assert(mime_for_extension(t[5].0) == t[5].1);
        }
        if i == 6 {
            assert(mime_for_extension(t[6].0) == t[6].1);
        }
        if i == 7 {
            assert(mime_for_extension(t[7].0) == t[7].1);
        }
        if i == 8 {
            assert(mime_for_extension(t[8].0) == t[8].1);
        }
        if i == 9 {
            assert(mime_for_extension(t[9].0) == t[9].1);
        }
        if i == 10 {
            assert(mime_for_extension(t[10].0) == t[10].1);
        }
        if i == 11 {
            assert(mime_for_extension(t[11].0) == t[11].1);
        }
        if i == 12 {
            assert(mime_for_extension(t[12].0) == t[12].1);
        }
        if i == 13 {
            assert(mime_for_extension(t[13].0) == t[13].1);
        }
        if i == 14 {
            assert(mime_for_extension(t[14].0) == t[14].1);
        }
        if i == 15 {
            assert(mime_for_extension(t[15].0) == t[15].1);
        }
        if i == 16 {
            assert(mime_for_extension(t[16].0) == t[16].1);
        }
    }
    if forall|i: int| 0 <= i < t.len() ==> t[i].0 != ext {
        assert(t[0].0 != ext);
        assert(t[1].0 != ext);
        assert(t[2].0 != ext);
        assert(t[3].0 != ext);
        assert(t[4].0 != ext);
        assert(t[5].0 != ext);
        assert(t[6].0 != ext);
        assert(t[7].0 != ext);
        assert(t[8].0 != ext);
        assert(t[9].0 != ext);
        assert(t[10].0 != ext);
        assert(t[11].0 != ext);
        assert(t[12].0 != ext);
        assert(t[13].0 != ext);
        assert(t[14].0 != ext);
        assert(t[15].0 != ext);
        assert(t[16].0 != ext);
    }
}

/// The MIME type of a path: that of the text after its last `.` (the whole
/// path when it has none).
pub open spec fn mime_spec(path: Seq<char>) -> Seq<char> {
    mime_for_extension(after_last(path, '.'))
}

fn mime_for_ext(ext: &str) -> (r: &'static str)
    ensures
        r@ == mime_for_extension(ext@),
{
    if str_eq(ext, "html") {
        "text/html; charset=utf-8"
    } else if str_eq(ext, "js") || str_eq(ext, "mjs") {
        "application/javascript"
    } else if str_eq(ext, "css") {
        "text/css"
    } else if str_eq(ext, "json") {
        "application/json"
    } else if str_eq(ext, "svg") {
        "image/svg+xml"
    } else if str_eq(ext, "png") {
        "image/png"
    } else if str_eq(ext, "jpg") || str_eq(ext, "jpeg") {
        "image/jpeg"
    } else if str_eq(ext, "gif") {
        "image/gif"
    } else if str_eq(ext, "webp") {
        "image/webp"
    } else if str_eq(ext, "ico") {
        "image/x-icon"
    } else if str_eq(ext, "woff") {
        "font/woff"
    } else if str_eq(ext, "woff2") {
        "font/woff2"
    } else if str_eq(ext, "ttf") {
        "font/ttf"
    } else if str_eq(ext, "otf") {
        "font/otf"
    } else if str_eq(ext, "map") {
        "application/json"
    } else {
        "application/octet-stream"
    }
}

/// Infer a MIME type from the path's extension; unknown extensions are
/// `application/octet-stream`.
pub fn mime_for(path: &str) -> (r: String)
    ensures
        r@ == mime_spec(path@),
{
    let ext = suffix_after_last(path, '.');
    String::from_str(mime_for_ext(ext))
}

/// The asset served for the bundle key `key`, given the bytes embedded under
/// that key (`None` when the bundle has no such file).
pub fn make_asset(key: &str, embedded: Option<Vec<u8>>) -> (r: Option<Asset>)
    ensures
        r is Some <==> embedded is Some,
        r matches Some(a) ==> a.data@ == embedded->Some_0@ && a.mime@ == mime_spec(key@),
{
    match embedded {
        Some(data) => Some(Asset { data, mime: mime_for(key) }),
        None => None,
    }
}

/// Normalising is idempotent, and a normalised key never starts with `/` and
/// is never empty.
pub proof fn lemma_normalised_path_is_a_key(path: Seq<char>)
    ensures
        normalised_path(path).len() > 0,
        normalised_path(path)[0] != '/',
        normalised_path(normalised_path(path)) == normalised_path(path),
{
    reveal_strlit("index.html");
    let t = trim_leading(path, '/');
    let k = crate::text::leading_count(path, '/');
    if !(forall|j: int| 0 <= j < path.len() ==> path[j] == '/') {
        let w = choose|j: int| 0 <= j < path.len() && path[j] != '/';
        crate::text::lemma_first_other_exists(path, '/', w);
        assert(0 <= k < path.len() && path[k] != '/');
        assert(t.len() > 0 && t[0] == path[k]);
    } else {
        assert(t.len() == 0);
    }
    let n = normalised_path(path);
    assert(n.len() > 0 && n[0] != '/');
    assert(!(forall|j: int| 0 <= j < n.len() ==> n[j] == '/'));
    let i = crate::text::leading_count(n, '/');
    assert(0 <= i < n.len() && n[i] != '/' && forall|j: int| 0 <= j < i ==> n[j] == '/') by {
        crate::text::lemma_first_other_exists(n, '/', 0);
    }
    assert(i == 0);
    assert(n.skip(0) =~= n);
}

} // verus!
