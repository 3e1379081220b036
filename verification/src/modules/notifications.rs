//! `notifications` native module: desktop toast notifications.
//!
//! Requires `"notifications": true` in `permissions.json`.
//! Method: `notifications.show` — `{ title: string, body: string } → {}`.
use vstd::prelude::*;

use crate::permissions::engine::{spec_require, PermissionEngine, PermissionKey};
use crate::rpc::schema::error_codes::INTERNAL_ERROR;
use crate::rpc::schema::RpcErrorPayload;
use vstd::string::*;

verus! {

/// `s` lower-cased by `str::to_lowercase` (Unicode lower case).
pub uninterp spec fn spec_to_lowercase(s: Seq<char>) -> Seq<char>;

/// `str::to_lowercase` (std): the lowercase equivalent of the string, as a
/// new `String`. Its result depends on the string alone.
#[verifier::external_body]
fn to_lowercase(s: &str) -> (r: String)
    ensures
        r@ == spec_to_lowercase(s@),
{
    s.to_lowercase()
}

/// `s` with every space replaced by `-`.
pub open spec fn dash_spaces(s: Seq<char>) -> Seq<char> {
    s.map_values(|c: char| if c == ' ' { '-' } else { c })
}

/// The Application User Model ID for `app_name`: `axion.` followed by the
/// lower-cased name with spaces turned into dashes.
pub open spec fn app_id_spec(app_name: Seq<char>) -> Seq<char> {
    "axion."@ + dash_spaces(spec_to_lowercase(app_name))
}

fn replace_spaces(s: &str) -> (r: String)
    ensures
        r@ == dash_spaces(s@),
{
    let n = s.unicode_len();
    let mut out = String::new();
    let mut i: usize = 0;
    while i < n
        invariant
            n == s@.len(),
            i <= n,
            out@ == dash_spaces(s@.take(i as int)),
        decreases n - i,
    {
        let c = s.get_char(i);
        if c == ' ' {
            out.push('-');
        } else {
            out.push(c);
        }
        assert(dash_spaces(s@.take(i + 1)) =~= dash_spaces(s@.take(i as int)).push(
            if c == ' ' {
                '-'
            } else {
                c
            },
        ));
        i = i + 1;
    }
    assert(s@.take(n as int) =~= s@);
    out
}

/// The Application User Model ID used to attribute toast notifications to
/// the app named `app_name`, e.g. `"My Cool App"` → `"axion.my-cool-app"`.
pub fn app_id(app_name: &str) -> (r: String)
    ensures
        r@ == app_id_spec(app_name@),
{
    let lower = to_lowercase(app_name);
    app_id_from_lowercase(lower.as_str())
}

/// The Application User Model ID for an app name already lower-cased:
/// `axion.` followed by `lower` with spaces turned into dashes.
pub fn app_id_from_lowercase(lower: &str) -> (r: String)
    ensures
        r@ == "axion."@ + dash_spaces(lower@),
{
    let dashed = replace_spaces(lower);
    let mut r = String::from_str("axion.");
    r.append(dashed.as_str());
    r
}

/// The XML escape of one character.
pub open spec fn escape_char(c: char) -> Seq<char> {
    if c == '&' {
        "&amp;"@
    } else if c == '<' {
        "&lt;"@
    } else if c == '>' {
        "&gt;"@
    } else if c == '"' {
        "&quot;"@
    } else if c == '\'' {
        "&apos;"@
    } else {
        seq![c]
    }
}

/// `s` with the five XML special characters replaced by their entities.
pub open spec fn escape_xml_spec(s: Seq<char>) -> Seq<char>
    decreases s.len(),
{
    if s.len() == 0 {
        Seq::empty()
    } else {
        escape_xml_spec(s.drop_last()) + escape_char(s.last())
    }
}

/// Escaping is done character by character: the escape of two texts joined
/// is the two escapes joined, and a single character becomes its entity if it
/// is one of the five XML special characters (`&` → `&amp;`, `<` → `&lt;`,
/// `>` → `&gt;`, `"` → `&quot;`, `'` → `&apos;`) and stays itself otherwise.
pub proof fn lemma_escape_per_character(s: Seq<char>, t: Seq<char>, c: char)
    ensures
        escape_xml_spec(s + t) == escape_xml_spec(s) + escape_xml_spec(t),
        escape_xml_spec(seq![c]) == (if c == '&' {
            "&amp;"@
        } else if c == '<' {
            "&lt;"@
        } else if c == '>' {
            "&gt;"@
        } else if c == '"' {
            "&quot;"@
        } else if c == '\'' {
            "&apos;"@
        } else {
            seq![c]
        }),
        escape_xml_spec(Seq::empty()) == Seq::<char>::empty(),
    decreases t.len(),
{
    assert(seq![c].drop_last() =~= Seq::<char>::empty());
    assert(seq![c].last() == c);
    assert(Seq::<char>::empty() + escape_char(c) =~= escape_char(c));
    assert(escape_xml_spec(seq![c]) == escape_xml_spec(seq![c].drop_last()) + escape_char(c));
    reveal_strlit("&amp;");
    reveal_strlit("&lt;");
    reveal_strlit("&gt;");
    reveal_strlit("&quot;");
    reveal_strlit("&apos;");
    if t.len() > 0 {
        lemma_escape_per_character(s, t.drop_last(), c);
        assert((s + t).drop_last() =~= s + t.drop_last());
        assert((s + t).last() == t.last());
        assert(escape_xml_spec(s) + escape_xml_spec(t.drop_last()) + escape_char(t.last())
            =~= escape_xml_spec(s) + (escape_xml_spec(t.drop_last()) + escape_char(t.last())));
    } else {
        assert(s + t =~= s);
        assert(escape_xml_spec(s) + escape_xml_spec(t) =~= escape_xml_spec(s));
    }
}

fn escape_xml(s: &str) -> (r: String)
    ensures
        r@ == escape_xml_spec(s@),
{
    let n = s.unicode_len();
    let mut out = String::new();
    let mut i: usize = 0;
    while i < n
        invariant
            n == s@.len(),
            i <= n,
            out@ == escape_xml_spec(s@.take(i as int)),
        decreases n - i,
    {
        let c = s.get_char(i);
        assert(s@.take(i + 1).drop_last() =~= s@.take(i as int));
        if c == '&' {
            out.append("&amp;");
        } else if c == '<' {
            out.append("&lt;");
        } else if c == '>' {
            out.append("&gt;");
        } else if c == '"' {
            out.append("&quot;");
        } else if c == '\'' {
            out.append("&apos;");
        } else {
            out.push(c);
            assert(out@ =~= escape_xml_spec(s@.take(i as int)) + seq![c]);
        }
        i = i + 1;
    }
    assert(s@.take(n as int) =~= s@);
    out
}

/// The toast document for a notification with `title` and `body`.
pub open spec fn toast_xml_spec(title: Seq<char>, body: Seq<char>) -> Seq<char> {
    "<toast><visual><binding template=\"ToastGeneric\"><text>"@ + escape_xml_spec(title)
        + "</text><text>"@ + escape_xml_spec(body) + "</text></binding></visual></toast>"@
}

/// Build the toast XML for `title` and `body`, escaping both.
pub fn build_toast_xml(title: &str, body: &str) -> (r: String)
    ensures
        r@ == toast_xml_spec(title@, body@),
{
    let t = escape_xml(title);
    let b = escape_xml(body);
    let mut r = String::from_str("<toast><visual><binding template=\"ToastGeneric\"><text>");
    r.append(t.as_str());
    r.append("</text><text>");
    r.append(b.as_str());
    r.append("</text></binding></visual></toast>");
    r
}

/// The escaped text holds no markup character: no `<`, `>`, `"` or `'`, so a
/// title or body can never close or open an element of the toast document.
pub proof fn lemma_escaped_has_no_markup(s: Seq<char>)
    ensures
        forall|i: int|
            0 <= i < escape_xml_spec(s).len() ==> {
                let c = #[trigger] escape_xml_spec(s)[i];
                c != '<' && c != '>' && c != '"' && c != '\''
            },
    decreases s.len(),
{
    reveal_strlit("&amp;");
    reveal_strlit("&lt;");
    reveal_strlit("&gt;");
    reveal_strlit("&quot;");
    reveal_strlit("&apos;");
    if s.len() > 0 {
        lemma_escaped_has_no_markup(s.drop_last());
        let a = escape_xml_spec(s.drop_last());
        let b = escape_char(s.last());
        assert forall|i: int| 0 <= i < (a + b).len() implies {
            let c = #[trigger] (a + b)[i];
            c != '<' && c != '>' && c != '"' && c != '\''
        } by {
            if i >= a.len() {
                assert((a + b)[i] == b[i - a.len()]);
            } else {
                assert((a + b)[i] == a[i]);
            }
        }
    }
}

/// The `notifications` module.
pub struct NotificationsModule {
    app_id: String,
}

impl NotificationsModule {
    /// The Application User Model ID that notifications are attributed to.
    pub closed spec fn spec_app_user_model_id(&self) -> Seq<char> {
        self.app_id@
    }

    /// A `NotificationsModule` for the app named `app_name`.
    pub fn new(app_name: &str) -> (r: Self)
        ensures
            r.spec_app_user_model_id() == app_id_spec(app_name@),
    {
        NotificationsModule { app_id: app_id(app_name) }
    }

    /// The Application User Model ID that notifications are attributed to.
    pub fn app_user_model_id(&self) -> (r: &str)
        ensures
            r@ == self.spec_app_user_model_id(),
    {
        self.app_id.as_str()
    }

    /// Stable module identifier.
    pub fn name(&self) -> (r: &'static str)
        ensures
            r@ == "notifications"@,
    {
        "notifications"
    }

    /// Declare that `notifications.show` requires the `notifications` permission.
    pub fn declare_permissions(&self, engine: &mut PermissionEngine)
        ensures
            final(engine).requirements() == spec_require(
                old(engine).requirements(),
                "notifications.show"@,
                PermissionKey::Notifications,
            ),
            final(engine).perms() == old(engine).perms(),
    {
        engine.require("notifications.show", PermissionKey::Notifications);
    }
}

/// Show a toast in this build: the live WinRT path is not compiled in, so
/// the request ends in a structured `INTERNAL_ERROR` rather than a panic.
pub fn show_notification_blocking(app_id: &str, title: &str, body: &str) -> (r: Result<
    (),
    RpcErrorPayload,
>)
    ensures
        r matches Err(p) && p@ == (
            INTERNAL_ERROR,
            "notifications.show: WinRT UI_Notifications feature not compiled in this build"@,
        ),
{
    Err(
        RpcErrorPayload::new(
            INTERNAL_ERROR,
            "notifications.show: WinRT UI_Notifications feature not compiled in this build",
        ),
    )
}

} // verus!
