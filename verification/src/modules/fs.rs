//! `fs` native module: sandboxed filesystem access.
//!
//! The default sandbox is the app's AppData folder. Path traversal is blocked
//! by resolving the requested path and verifying that it stays under the
//! sandbox root; the host performs the filesystem lookups, this module decides.
//!
//! Methods: `fs.read`, `fs.write`, `fs.delete` (need `fs.appData`) and
//! `fs.pickDirectory` (needs `fs.userSelected`).
use std::path::{Component, PathBuf};
use std::sync::Arc;

use vstd::prelude::*;

use crate::permissions::engine::{spec_require, PermissionEngine, PermissionKey};
use crate::rpc::schema::error_codes::INTERNAL_ERROR;
use crate::rpc::schema::RpcErrorPayload;
use crate::text::str_eq;

verus! {

/// One component of a path, as `std::path::Component` distinguishes them.
pub enum Part {
    /// A Windows path prefix such as `C:`.
    Prefix(String),
    /// The root directory.
    Root,
    /// `.`
    Cur,
    /// `..`
    Parent,
    /// A file or directory name.
    Normal(String),
}

/// A path component as text.
pub enum PartView {
    /// A Windows path prefix.
    Prefix(Seq<char>),
    /// The root directory.
    Root,
    /// `.`
    Cur,
    /// `..`
    Parent,
    /// A file or directory name.
    Normal(Seq<char>),
}

/// The text of a path component.
pub open spec fn part_view(p: Part) -> PartView {
    match p {
        Part::Prefix(s) => PartView::Prefix(s@),
        Part::Root => PartView::Root,
        Part::Cur => PartView::Cur,
        Part::Parent => PartView::Parent,
        Part::Normal(s) => PartView::Normal(s@),
    }
}

/// The text of each component of a path.
pub open spec fn parts_view(s: Seq<Part>) -> Seq<PartView> {
    s.map_values(|p: Part| part_view(p))
}

/// `root` is a leading run of `path`, component by component (as
/// `Path::starts_with` compares).
pub open spec fn parts_prefix(path: Seq<PartView>, root: Seq<PartView>) -> bool {
    root.len() <= path.len() && forall|i: int| 0 <= i < root.len() ==> path[i] == root[i]
}

/// Whether two path components are the same.
pub fn part_eq(a: &Part, b: &Part) -> (r: bool)
    ensures
        r == (part_view(*a) == part_view(*b)),
{
    match (a, b) {
        (Part::Prefix(x), Part::Prefix(y)) => str_eq(x.as_str(), y.as_str()),
        (Part::Root, Part::Root) => true,
        (Part::Cur, Part::Cur) => true,
        (Part::Parent, Part::Parent) => true,
        (Part::Normal(x), Part::Normal(y)) => str_eq(x.as_str(), y.as_str()),
        _ => false,
    }
}

/// A copy of a path component.
pub fn part_copy(a: &Part) -> (r: Part)
    ensures
        part_view(r) == part_view(*a),
{
    match a {
        Part::Prefix(x) => Part::Prefix(String::from_str(x.as_str())),
        Part::Root => Part::Root,
        Part::Cur => Part::Cur,
        Part::Parent => Part::Parent,
        Part::Normal(x) => Part::Normal(String::from_str(x.as_str())),
    }
}

/// The components `from..to` of `parts`, copied.
fn copy_parts(parts: &Vec<Part>, from: usize, to: usize) -> (r: Vec<Part>)
    requires
        from <= to <= parts@.len(),
    ensures
        parts_view(r@) == parts_view(parts@).subrange(from as int, to as int),
{
    let mut r: Vec<Part> = Vec::new();
    let mut i = from;
    while i < to
        invariant
            from <= i <= to <= parts@.len(),
            parts_view(r@) =~= parts_view(parts@).subrange(from as int, i as int),
        decreases to - i,
    {
        let ghost before = r@;
        r.push(part_copy(&parts[i]));
        assert(parts_view(r@) =~= parts_view(before).push(parts_view(parts@)[i as int]));
        i = i + 1;
    }
    r
}

/// Whether the path with components `path` lies under the one with
/// components `root`.
pub fn starts_with_parts(path: &Vec<Part>, root: &Vec<Part>) -> (r: bool)
    ensures
        r == parts_prefix(parts_view(path@), parts_view(root@)),
{
    let n = root.len();
    if n > path.len() {
        return false;
    }
    let mut i: usize = 0;
    while i < n
        invariant
            n == root@.len(),
            n <= path@.len(),
            i <= n,
            forall|j: int| 0 <= j < i ==> parts_view(path@)[j] == parts_view(root@)[j],
        decreases n - i,
    {
        if !part_eq(&path[i], &root[i]) {
            assert(parts_view(path@)[i as int] != parts_view(root@)[i as int]);
            return false;
        }
        i = i + 1;
    }
    true
}

/// `base` with one more component appended, resolving `.` and `..`
/// lexically: `.` changes nothing; `..` drops a trailing name, stays at a
/// root or prefix, and is kept otherwise. A root or prefix component has no
/// file name and adds nothing.
pub open spec fn push_lex(base: Seq<PartView>, p: PartView) -> Seq<PartView> {
    match p {
        PartView::Cur => base,
        PartView::Root => base,
        PartView::Prefix(_) => base,
        PartView::Parent => if base.len() > 0 && base.last() is Normal {
            base.drop_last()
        } else if base.len() > 0 && (base.last() is Root || base.last() is Prefix) {
            base
        } else {
            base.push(p)
        },
        _ => base.push(p),
    }
}

/// `base` with the components of `tail` appended in order, lexically.
pub open spec fn append_lex(base: Seq<PartView>, tail: Seq<PartView>) -> Seq<PartView>
    decreases tail.len(),
{
    if tail.len() == 0 {
        base
    } else {
        push_lex(append_lex(base, tail.drop_last()), tail.last())
    }
}

/// `base` followed by the components `from..` of `parts`, appended lexically.
fn append_parts_lex(base: Vec<Part>, parts: &Vec<Part>, from: usize) -> (r: Vec<Part>)
    requires
        from <= parts@.len(),
    ensures
        parts_view(r@) == append_lex(parts_view(base@), parts_view(parts@).skip(from as int)),
{
    let ghost b = parts_view(base@);
    let ghost all = parts_view(parts@);
    let mut r = base;
    let mut i = from;
    assert(all.subrange(from as int, from as int) =~= Seq::<PartView>::empty());
    while i < parts.len()
        invariant
            from <= i <= parts@.len(),
            all == parts_view(parts@),
            parts_view(r@) == append_lex(b, all.subrange(from as int, i as int)),
        decreases parts@.len() - i,
    {
        let ghost before = parts_view(r@);
        assert(all.subrange(from as int, i + 1).drop_last() =~= all.subrange(from as int, i as int));
        match &parts[i] {
            Part::Cur => {},
            Part::Root => {},
            Part::Prefix(_) => {},
            Part::Parent => {
                let n = r.len();
                if n > 0 && matches!(r[n - 1], Part::Normal(_)) {
                    r.pop();
                    assert(parts_view(r@) =~= before.drop_last());
                } else if n > 0 && (matches!(r[n - 1], Part::Root) || matches!(r[n - 1], Part::Prefix(_))) {
                } else {
                    r.push(Part::Parent);
                    assert(parts_view(r@) =~= before.push(PartView::Parent));
                }
            },
            p => {
                r.push(part_copy(p));
                assert(parts_view(r@) =~= before.push(all[i as int]));
            },
        }
        i = i + 1;
    }
    assert(all.subrange(from as int, parts@.len() as int) =~= all.skip(from as int));
    r
}

/// The message for a requested path that is absolute.
pub open spec fn absolute_path_message(rel_path: Seq<char>) -> Seq<char> {
    "absolute paths are not allowed inside the sandbox: "@ + rel_path
}

/// The message for a requested path that resolves outside the sandbox.
pub open spec fn traversal_message(rel_path: Seq<char>) -> Seq<char> {
    "path traversal detected: '"@ + rel_path + "' resolves outside the sandbox"@
}

/// The message for a requested path that cannot be resolved.
pub open spec fn unresolvable_message(rel_path: Seq<char>, detail: Seq<char>) -> Seq<char> {
    "cannot resolve path '"@ + rel_path + "': "@ + detail
}

/// Reject a requested path that is absolute: sandboxed paths are relative to
/// the sandbox root.
pub fn reject_absolute(rel_path: &str, is_absolute: bool) -> (r: Result<(), String>)
    ensures
        r is Ok <==> !is_absolute,
        r matches Err(m) ==> m@ == absolute_path_message(rel_path@),
{
    if is_absolute {
        let mut m = String::from_str("absolute paths are not allowed inside the sandbox: ");
        m.append(rel_path);
        Err(m)
    } else {
        Ok(())
    }
}

/// The refusal of a requested path that resolves outside the sandbox.
pub fn traversal(rel_path: &str) -> (r: String)
    ensures
        r@ == traversal_message(rel_path@),
{
    let mut m = String::from_str("path traversal detected: '");
    m.append(rel_path);
    m.append("' resolves outside the sandbox");
    m
}

/// The message for a path that exists but cannot be canonicalized.
pub fn unresolvable(rel_path: &str, detail: &str) -> (r: String)
    ensures
        r@ == unresolvable_message(rel_path@, detail@),
{
    let mut m = String::from_str("cannot resolve path '");
    m.append(rel_path);
    m.append("': ");
    m.append(detail);
    m
}

/// Where a resolution stands, as text: the sandbox root, the requested path
/// joined to it (the candidate), how many leading components of the candidate
/// the walk has kept, whether the walk has fallen back to the root (after an
/// ancestor with no parent), and the requested path as given.
pub struct WalkView {
    /// The sandbox root's components.
    pub root: Seq<PartView>,
    /// The requested path joined to the root, as components.
    pub candidate: Seq<PartView>,
    /// How many leading components of the candidate the walk has kept.
    pub len: nat,
    /// Whether the walk has fallen back to the sandbox root.
    pub at_root: bool,
    /// The requested path, for messages.
    pub rel_path: Seq<char>,
}

/// What a canonicalization is asked for.
pub enum CanonKindView {
    /// The candidate itself, which exists.
    Target,
    /// The ancestor where the walk stopped.
    Ancestor,
    /// The sandbox root, with the path resolved so far.
    Root(Seq<PartView>),
}

/// The next step of a resolution, as text.
pub enum StepView {
    /// Ask whether the current ancestor exists.
    Exists(WalkView),
    /// Ask for a canonical path.
    Canonicalize(WalkView, CanonKindView),
    /// The outcome: the resolved path, or why it is refused.
    Done(Result<Seq<PartView>, Seq<char>>),
}

/// The ancestor the walk stands on: the root once it has fallen back to it,
/// otherwise the kept leading components of the candidate.
pub open spec fn current(w: WalkView) -> Seq<PartView> {
    if w.at_root {
        w.root
    } else {
        w.candidate.take(w.len as int)
    }
}

/// A path without a parent, as `Path::parent` gives none: one that is empty
/// or ends in a root or prefix.
pub open spec fn has_no_parent(p: Seq<PartView>) -> bool {
    p.len() == 0 || p.last() is Root || p.last() is Prefix
}

/// The path a step asks the host about.
pub open spec fn queried(w: WalkView, k: CanonKindView) -> Seq<PartView> {
    match k {
        CanonKindView::Target => w.candidate,
        CanonKindView::Ancestor => current(w),
        CanonKindView::Root(_) => w.root,
    }
}

/// The first step of resolving `rel_path` inside `root`, given the components
/// of the root and of the candidate (the requested path joined to the root by
/// the platform) and whether the requested path is absolute. An absolute path
/// is refused; otherwise the walk starts at the whole candidate.
pub open spec fn begin_step(
    root: Seq<PartView>,
    candidate: Seq<PartView>,
    rel_is_absolute: bool,
    rel_path: Seq<char>,
) -> StepView {
    if rel_is_absolute {
        StepView::Done(Err(absolute_path_message(rel_path)))
    } else {
        StepView::Exists(
            WalkView { root, candidate, len: candidate.len(), at_root: false, rel_path },
        )
    }
}

/// The walk's move from an ancestor that does not exist. At the root it
/// stops. From an ancestor without a parent it falls back to the root, the
/// ancestor's last component (if any) joining the components walked past.
/// Otherwise it moves up one component: to the root, where it stops without
/// asking, or to an ancestor whose existence is asked next.
pub open spec fn step_up(w: WalkView) -> StepView {
    if current(w) == w.root {
        StepView::Canonicalize(w, CanonKindView::Ancestor)
    } else if has_no_parent(current(w)) {
        StepView::Canonicalize(
            WalkView {
                len: if w.len == 0 {
                    0
                } else {
                    (w.len - 1) as nat
                },
                at_root: true,
                ..w
            },
            CanonKindView::Ancestor,
        )
    } else {
        let up = WalkView { len: (w.len - 1) as nat, ..w };
        if current(up) == w.root {
            StepView::Canonicalize(up, CanonKindView::Ancestor)
        } else {
            StepView::Exists(up)
        }
    }
}

/// The step after learning whether the current ancestor exists. If it does,
/// it is canonicalized: strictly when it is the whole candidate, otherwise as
/// the base for the rest. If not, the walk moves up.
pub open spec fn after_exists(w: WalkView, exists: bool) -> StepView {
    if exists {
        if !w.at_root && w.len == w.candidate.len() {
            StepView::Canonicalize(w, CanonKindView::Target)
        } else {
            StepView::Canonicalize(w, CanonKindView::Ancestor)
        }
    } else {
        step_up(w)
    }
}

/// The step after a canonicalization answered `c` (the canonical path, or
/// the error's text).
/// - The candidate: its canonical form is the resolved path; an error means
///   the path cannot be resolved.
/// - An ancestor: the resolved path is its canonical form (or, on error, the
///   ancestor as it is) followed lexically by the components walked past.
/// - The root: the resolved path is accepted exactly when the canonical root
///   (or, on error, the root as it is) is a leading run of it.
pub open spec fn after_canonical(
    w: WalkView,
    k: CanonKindView,
    c: Result<Seq<PartView>, Seq<char>>,
) -> StepView {
    match k {
        CanonKindView::Target => match c {
            Ok(p) => StepView::Canonicalize(w, CanonKindView::Root(p)),
            Err(e) => StepView::Done(Err(unresolvable_message(w.rel_path, e))),
        },
        CanonKindView::Ancestor => {
            let base = match c {
                Ok(p) => p,
                Err(_) => current(w),
            };
            StepView::Canonicalize(
                w,
                CanonKindView::Root(append_lex(base, w.candidate.skip(w.len as int))),
            )
        },
        CanonKindView::Root(resolved) => {
            let croot = match c {
                Ok(p) => p,
                Err(_) => w.root,
            };
            if parts_prefix(resolved, croot) {
                StepView::Done(Ok(resolved))
            } else {
                StepView::Done(Err(traversal_message(w.rel_path)))
            }
        },
    }
}

/// A resolution waiting for the host to say whether the current ancestor
/// exists.
pub struct Walk {
    root: Vec<Part>,
    candidate: Vec<Part>,
    len: usize,
    at_root: bool,
    rel_path: String,
}

/// What a canonicalization is asked for.
pub enum CanonKind {
    /// The candidate itself.
    Target,
    /// The ancestor where the walk stopped.
    Ancestor,
    /// The sandbox root, with the path resolved so far.
    Root(Vec<Part>),
}

/// A resolution waiting for the host to canonicalize a path.
pub struct Canon {
    walk: Walk,
    kind: CanonKind,
}

/// The next step of resolving a requested path inside the sandbox.
pub enum Resolution {
    /// The host reports whether [`Walk::path`] exists, through [`Walk::answer`].
    Exists(Walk),
    /// The host canonicalizes [`Canon::path`] and hands the outcome to
    /// [`Canon::answer`].
    Canonicalize(Canon),
    /// The outcome: the resolved path's components, or the refusal.
    Done(Result<Vec<Part>, String>),
}

/// The text of a canonicalization's kind.
pub open spec fn kind_view(k: CanonKind) -> CanonKindView {
    match k {
        CanonKind::Target => CanonKindView::Target,
        CanonKind::Ancestor => CanonKindView::Ancestor,
        CanonKind::Root(p) => CanonKindView::Root(parts_view(p@)),
    }
}

/// The text of an outcome.
pub open spec fn outcome_view(r: Result<Vec<Part>, String>) -> Result<Seq<PartView>, Seq<char>> {
    match r {
        Ok(p) => Ok(parts_view(p@)),
        Err(e) => Err(e@),
    }
}

/// The text of a resolution step.
pub open spec fn step_view(r: Resolution) -> StepView {
    match r {
        Resolution::Exists(w) => StepView::Exists(w@),
        Resolution::Canonicalize(c) => StepView::Canonicalize(c@.0, c@.1),
        Resolution::Done(o) => StepView::Done(outcome_view(o)),
    }
}

impl View for Walk {
    type V = WalkView;

    closed spec fn view(&self) -> WalkView {
        WalkView {
            root: parts_view(self.root@),
            candidate: parts_view(self.candidate@),
            len: self.len as nat,
            at_root: self.at_root,
            rel_path: self.rel_path@,
        }
    }
}

/// Whether the first `len` components of `parts` are exactly `root`.
fn leads_with_exactly(parts: &Vec<Part>, len: usize, root: &Vec<Part>) -> (r: bool)
    requires
        len <= parts@.len(),
    ensures
        r == (parts_view(parts@).take(len as int) == parts_view(root@)),
{
    if len != root.len() {
        assert(parts_view(parts@).take(len as int).len() != parts_view(root@).len());
        return false;
    }
    let r = starts_with_parts(parts, root);
    if r {
        assert(parts_view(parts@).take(len as int) =~= parts_view(root@));
    } else {
        proof {
            if parts_view(parts@).take(len as int) == parts_view(root@) {
                assert(forall|i: int|
                    0 <= i < len ==> parts_view(parts@)[i] == parts_view(parts@).take(
                        len as int,
                    )[i]);
            }
        }
    }
    r
}

impl Walk {
    #[verifier::type_invariant]
    spec fn inv(self) -> bool {
        self.len <= self.candidate@.len()
    }

    /// Whether the walk stands on the sandbox root.
    fn at_the_root(&self) -> (r: bool)
        ensures
            r == (current(self@) == self@.root),
    {
        proof {
            use_type_invariant(self);
        }
        if self.at_root {
            true
        } else {
            leads_with_exactly(&self.candidate, self.len, &self.root)
        }
    }

    /// Whether the current ancestor has no parent.
    fn without_parent(&self) -> (r: bool)
        ensures
            r == has_no_parent(current(self@)),
    {
        proof {
            use_type_invariant(self);
        }
        let (parts, n) = if self.at_root {
            (&self.root, self.root.len())
        } else {
            (&self.candidate, self.len)
        };
        if n == 0 {
            return true;
        }
        assert(current(self@).last() == parts_view(parts@)[n - 1]);
        match &parts[n - 1] {
            Part::Root => true,
            Part::Prefix(_) => true,
            _ => false,
        }
    }

    /// The ancestor whose existence is asked about.
    pub fn path(&self) -> (r: Vec<Part>)
        ensures
            parts_view(r@) == current(self@),
    {
        proof {
            use_type_invariant(self);
        }
        if self.at_root {
            let r = copy_parts(&self.root, 0, self.root.len());
            assert(parts_view(self.root@).subrange(0, self.root@.len() as int) =~= parts_view(
                self.root@,
            ));
            r
        } else {
            let r = copy_parts(&self.candidate, 0, self.len);
            assert(parts_view(self.candidate@).subrange(0, self.len as int)
                =~= self@.candidate.take(self@.len as int));
            r
        }
    }

    /// Continue once the host has said whether [`Walk::path`] exists.
    pub fn answer(self, exists: bool) -> (r: Resolution)
        ensures
            step_view(r) == after_exists(self@, exists),
    {
        proof {
            use_type_invariant(&self);
        }
        if exists {
            let kind = if !self.at_root && self.len == self.candidate.len() {
                CanonKind::Target
            } else {
                CanonKind::Ancestor
            };
            return Resolution::Canonicalize(Canon { walk: self, kind });
        }
        if self.at_the_root() {
            return Resolution::Canonicalize(Canon { walk: self, kind: CanonKind::Ancestor });
        }
        if self.without_parent() {
            let Walk { root, candidate, len, at_root, rel_path } = self;
            let len = if len == 0 {
                0
            } else {
                len - 1
            };
            return Resolution::Canonicalize(
                Canon {
                    walk: Walk { root, candidate, len, at_root: true, rel_path },
                    kind: CanonKind::Ancestor,
                },
            );
        }
        let Walk { root, candidate, len, at_root, rel_path } = self;
        assert(!at_root);
        let up = Walk { root, candidate, len: len - 1, at_root, rel_path };
        if up.at_the_root() {
            Resolution::Canonicalize(Canon { walk: up, kind: CanonKind::Ancestor })
        } else {
            Resolution::Exists(up)
        }
    }
}

impl View for Canon {
    type V = (WalkView, CanonKindView);

    closed spec fn view(&self) -> (WalkView, CanonKindView) {
        (self.walk@, kind_view(self.kind))
    }
}

impl Canon {
    /// The path to canonicalize.
    pub fn path(&self) -> (r: Vec<Part>)
        ensures
            parts_view(r@) == queried(self@.0, self@.1),
    {
        proof {
            use_type_invariant(&self.walk);
        }
        let w = &self.walk;
        match &self.kind {
            CanonKind::Target => {
                let r = copy_parts(&w.candidate, 0, w.candidate.len());
                assert(parts_view(w.candidate@).subrange(0, w.candidate@.len() as int)
                    =~= parts_view(w.candidate@));
                r
            },
            CanonKind::Ancestor => w.path(),
            CanonKind::Root(_) => {
                let r = copy_parts(&w.root, 0, w.root.len());
                assert(parts_view(w.root@).subrange(0, w.root@.len() as int) =~= parts_view(
                    w.root@,
                ));
                r
            },
        }
    }

    /// Continue with the host's canonicalization of [`Canon::path`]: its
    /// components, or the error's text.
    pub fn answer(self, canonical: Result<Vec<Part>, String>) -> (r: Resolution)
        ensures
            step_view(r) == after_canonical(self@.0, self@.1, outcome_view(canonical)),
    {
        proof {
            use_type_invariant(&self.walk);
        }
        let Canon { walk, kind } = self;
        match kind {
            CanonKind::Target => match canonical {
                Ok(p) => Resolution::Canonicalize(Canon { walk, kind: CanonKind::Root(p) }),
                Err(e) => Resolution::Done(Err(unresolvable(walk.rel_path.as_str(), e.as_str()))),
            },
            CanonKind::Ancestor => {
                let base = match canonical {
                    Ok(p) => p,
                    Err(_) => walk.path(),
                };
                let resolved = append_parts_lex(base, &walk.candidate, walk.len);
                Resolution::Canonicalize(Canon { walk, kind: CanonKind::Root(resolved) })
            },
            CanonKind::Root(resolved) => {
                let inside = match &canonical {
                    Ok(p) => starts_with_parts(&resolved, p),
                    Err(_) => starts_with_parts(&resolved, &walk.root),
                };
                if inside {
                    Resolution::Done(Ok(resolved))
                } else {
                    Resolution::Done(Err(traversal(walk.rel_path.as_str())))
                }
            },
        }
    }
}

/// Begin resolving `rel_path` (`rel_is_absolute` says whether it is absolute)
/// inside the sandbox root with components `root`, where `candidate` holds the
/// components of the requested path joined to the root.
pub fn resolve_begin(root: Vec<Part>, candidate: Vec<Part>, rel_is_absolute: bool, rel_path: &str) -> (r:
    Resolution)
    ensures
        step_view(r) == begin_step(
            parts_view(root@),
            parts_view(candidate@),
            rel_is_absolute,
            rel_path@,
        ),
{
    if let Err(m) = reject_absolute(rel_path, rel_is_absolute) {
        return Resolution::Done(Err(m));
    }
    let len = candidate.len();
    Resolution::Exists(
        Walk { root, candidate, len, at_root: false, rel_path: String::from_str(rel_path) },
    )
}

/// `std::path::Path::is_absolute` (std). Whether a path is absolute depends on
/// the platform (on Windows it needs a prefix and a root), so nothing is
/// stated of the result.
#[verifier::external_body]
fn is_absolute_path(p: &PathBuf) -> bool {
    p.is_absolute()
}

/// `PathBuf::from(&str)` (std): the path with the given text. The value is
/// opaque, so nothing is stated of it.
#[verifier::external_body]
fn path_from_str(s: &str) -> PathBuf {
    PathBuf::from(s)
}

/// `std::path::Path::join` (std): `rel` appended to `base` as the platform
/// joins paths (an absolute `rel` replaces `base`; on Windows a rooted `rel`
/// keeps only the prefix of `base`). The value is opaque, so nothing is
/// stated of it.
#[verifier::external_body]
fn join_path(base: &PathBuf, rel: &PathBuf) -> PathBuf {
    base.join(rel)
}

/// `std::path::Path::components` (std), each component converted to a
/// [`Part`]. How a text splits into components depends on the platform's
/// separators and prefixes, so nothing is stated of the result.
#[verifier::external_body]
fn path_parts(p: &PathBuf) -> Vec<Part> {
    let mut v = Vec::new();
    for c in p.components() {
        v.push(match c {
            Component::Prefix(x) => Part::Prefix(x.as_os_str().to_string_lossy().into_owned()),
            Component::RootDir => Part::Root,
            Component::CurDir => Part::Cur,
            Component::ParentDir => Part::Parent,
            Component::Normal(x) => Part::Normal(x.to_string_lossy().into_owned()),
        });
    }
    v
}

/// Begin resolving `rel_path` inside the sandbox `root`: the requested path
/// is joined to the root, both are split into components and the requested
/// path's absoluteness is read off, all as the platform does; then
/// [`resolve_begin`] decides. Whatever the platform answers, the first step is
/// either the refusal of an absolute path, with that message for `rel_path`,
/// or the question whether the whole candidate exists, for `rel_path`.
pub fn resolve_start(root: &PathBuf, rel_path: &str) -> (r: Resolution)
    ensures
        step_view(r) is Exists || step_view(r) == StepView::Done(
            Err(absolute_path_message(rel_path@)),
        ),
        step_view(r) matches StepView::Exists(w) ==> w.rel_path == rel_path@ && !w.at_root && w.len
            == w.candidate.len(),
{
    let rel = path_from_str(rel_path);
    let rel_is_absolute = is_absolute_path(&rel);
    let candidate = join_path(root, &rel);
    resolve_begin(path_parts(root), path_parts(&candidate), rel_is_absolute, rel_path)
}

/// Every accepted path passed the sandbox test: no step but the one that
/// compares against the canonical root ever accepts a path, and that step
/// accepts only a path that the canonical root (or, if it could not be
/// canonicalized, the root as given) leads.
pub proof fn lemma_accepted_path_is_inside(
    root: Seq<PartView>,
    candidate: Seq<PartView>,
    rel_is_absolute: bool,
    rel_path: Seq<char>,
    w: WalkView,
    exists: bool,
    k: CanonKindView,
    c: Result<Seq<PartView>, Seq<char>>,
)
    ensures
        !(begin_step(root, candidate, rel_is_absolute, rel_path) is Done && begin_step(
            root,
            candidate,
            rel_is_absolute,
            rel_path,
        )->Done_0 is Ok),
        !(after_exists(w, exists) is Done),
        after_canonical(w, k, c) matches StepView::Done(Ok(p)) ==> k matches CanonKindView::Root(
            resolved,
        ) && p == resolved && parts_prefix(
            p,
            match c {
                Ok(q) => q,
                Err(_) => w.root,
            },
        ),
{
}

/// The sandbox test is exact: at the root step, a resolved path is accepted,
/// unchanged, exactly when the canonical root (or, if it could not be
/// canonicalized, the root as given) leads it component by component, however
/// deep below the root it lies; otherwise it is refused as traversal.
pub proof fn lemma_sandbox_test_is_exact(
    w: WalkView,
    resolved: Seq<PartView>,
    c: Result<Seq<PartView>, Seq<char>>,
)
    ensures
        ({
            let croot = match c {
                Ok(q) => q,
                Err(_) => w.root,
            };
            &&& (croot.len() <= resolved.len() && resolved.take(croot.len() as int) == croot)
                ==> after_canonical(w, CanonKindView::Root(resolved), c) == StepView::Done(
                Ok(resolved),
            )
            &&& !(croot.len() <= resolved.len() && resolved.take(croot.len() as int) == croot)
                ==> after_canonical(w, CanonKindView::Root(resolved), c) == StepView::Done(
                Err(traversal_message(w.rel_path)),
            )
        }),
{
    let croot = match c {
        Ok(q) => q,
        Err(_) => w.root,
    };
    if croot.len() <= resolved.len() && resolved.take(croot.len() as int) == croot {
        assert forall|i: int| 0 <= i < croot.len() implies resolved[i] == croot[i] by {
            assert(resolved.take(croot.len() as int)[i] == resolved[i]);
        }
    } else if parts_prefix(resolved, croot) {
        assert(resolved.take(croot.len() as int) =~= croot);
    }
}

/// Appending plain names is concatenation: lexical appending changes nothing
/// about a tail without `.`, `..`, root or prefix components.
pub proof fn lemma_append_plain_names(base: Seq<PartView>, tail: Seq<PartView>)
    requires
        forall|i: int| 0 <= i < tail.len() ==> #[trigger] tail[i] is Normal,
    ensures
        append_lex(base, tail) == base + tail,
    decreases tail.len(),
{
    if tail.len() > 0 {
        let p = tail.drop_last();
        assert forall|i: int| 0 <= i < p.len() implies #[trigger] p[i] is Normal by {
            assert(p[i] == tail[i]);
        }
        lemma_append_plain_names(base, p);
        assert(tail[tail.len() - 1] is Normal);
        assert((base + p).push(tail.last()) =~= base + tail);
    }
}

/// What the canonicalizations give: an existing candidate resolves to its
/// canonical form, and an ancestor's canonical form (or the ancestor itself,
/// if it cannot be canonicalized) is followed by the names walked past, none
/// dropped or changed, when those are plain names.
pub proof fn lemma_canonical_forms_carry_over(
    w: WalkView,
    c: Result<Seq<PartView>, Seq<char>>,
)
    requires
        forall|i: int| w.len <= i < w.candidate.len() ==> #[trigger] w.candidate[i] is Normal,
    ensures
        c matches Ok(p) ==> after_canonical(w, CanonKindView::Target, c) == StepView::Canonicalize(
            w,
            CanonKindView::Root(p),
        ),
        w.len <= w.candidate.len() ==> after_canonical(w, CanonKindView::Ancestor, c)
            == StepView::Canonicalize(
            w,
            CanonKindView::Root(
                match c {
                    Ok(p) => p,
                    Err(_) => current(w),
                } + w.candidate.skip(w.len as int),
            ),
        ),
{
    if w.len <= w.candidate.len() {
        let tail = w.candidate.skip(w.len as int);
        assert forall|i: int| 0 <= i < tail.len() implies #[trigger] tail[i] is Normal by {
            assert(tail[i] == w.candidate[i + w.len]);
        }
        let base = match c {
            Ok(p) => p,
            Err(_) => current(w),
        };
        lemma_append_plain_names(base, tail);
    }
}

/// `..` undoes a name: appending a name and then `..` gives back the path.
/// `.` changes nothing.
pub proof fn lemma_parent_undoes_name(base: Seq<PartView>, name: Seq<char>)
    ensures
        push_lex(push_lex(base, PartView::Normal(name)), PartView::Parent) == base,
        push_lex(base, PartView::Cur) == base,
{
    assert(base.push(PartView::Normal(name)).drop_last() =~= base);
}

/// Every resolution ends: each existence question that follows another is
/// about an ancestor one component shorter, of the same candidate, so at most
/// one question per component of the candidate is asked; after the first
/// canonicalization comes only the root's, and after that the outcome.
pub proof fn lemma_resolution_ends(
    w: WalkView,
    exists: bool,
    k: CanonKindView,
    c: Result<Seq<PartView>, Seq<char>>,
)
    ensures
        after_exists(w, exists) matches StepView::Exists(next) ==> next.len + 1 == w.len
            && next.candidate == w.candidate && next.root == w.root && next.rel_path == w.rel_path
            && next.at_root == w.at_root,
        !(k is Root) ==> (after_canonical(w, k, c) is Done || after_canonical(w, k, c) matches StepView::Canonicalize(
            _,
            CanonKindView::Root(_),
        )),
        k is Root ==> after_canonical(w, k, c) is Done,
{
}

/// A sandbox violation answered to the caller: `INTERNAL_ERROR` with the
/// violation's message. `PERMISSION_DENIED` is kept for grants missing from
/// `permissions.json`; a refused path is the sandbox check's own error.
pub fn sandbox_denied(message: &str) -> (r: RpcErrorPayload)
    ensures
        r@ == (INTERNAL_ERROR, message@),
{
    RpcErrorPayload::new(INTERNAL_ERROR, message)
}

/// The answer to `fs.pickDirectory` where no native folder picker exists.
pub fn pick_directory_unsupported() -> (r: RpcErrorPayload)
    ensures
        r@ == (INTERNAL_ERROR, "fs.pickDirectory is only supported on Windows"@),
{
    RpcErrorPayload::new(INTERNAL_ERROR, "fs.pickDirectory is only supported on Windows")
}

/// The requirements after the `fs` module declares its methods.
pub open spec fn fs_requirements(reqs: Map<Seq<char>, PermissionKey>) -> Map<
    Seq<char>,
    PermissionKey,
> {
    spec_require(
        spec_require(
            spec_require(
                spec_require(reqs, "fs.read"@, PermissionKey::FsAppData),
                "fs.write"@,
                PermissionKey::FsAppData,
            ),
            "fs.delete"@,
            PermissionKey::FsAppData,
        ),
        "fs.pickDirectory"@,
        PermissionKey::FsUserSelected,
    )
}

/// The `fs` module, sandboxed to one directory.
pub struct FsModule {
    sandbox: Arc<PathBuf>,
}

impl FsModule {
    /// The sandbox directory.
    pub closed spec fn spec_sandbox(&self) -> PathBuf {
        *self.sandbox
    }

    /// An `FsModule` sandboxed to `sandbox_path`.
    pub fn new(sandbox_path: PathBuf) -> (r: Self)
        ensures
            r.spec_sandbox() == sandbox_path,
    {
        FsModule { sandbox: Arc::new(sandbox_path) }
    }

    /// The sandbox directory.
    pub fn sandbox(&self) -> (r: &PathBuf)
        ensures
            *r == self.spec_sandbox(),
    {
        &*self.sandbox
    }

    /// Stable module identifier.
    pub fn name(&self) -> (r: &'static str)
        ensures
            r@ == "fs"@,
    {
        "fs"
    }

    /// Declare the permission each `fs` method needs: `fs.read`, `fs.write`
    /// and `fs.delete` need `fs.appData`; `fs.pickDirectory` needs
    /// `fs.userSelected`.
    pub fn declare_permissions(&self, engine: &mut PermissionEngine)
        ensures
            final(engine).requirements() == fs_requirements(old(engine).requirements()),
            final(engine).perms() == old(engine).perms(),
    {
        engine.require("fs.read", PermissionKey::FsAppData);
        engine.require("fs.write", PermissionKey::FsAppData);
        engine.require("fs.delete", PermissionKey::FsAppData);
        engine.require("fs.pickDirectory", PermissionKey::FsUserSelected);
    }
}

} // verus!
