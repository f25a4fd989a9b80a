//! Finding Deadlock's `console.log` among the Steam libraries: the decisions
//! taken while the libraries are scanned, which install wins, and how a
//! failed search is reported.
use vstd::prelude::*;

use crate::text::{chars_of, push_str};

verus! {

/// Deadlock's Steam application id.
pub const DEADLOCK_APP_ID: u32 = 1422450;
/// The game directory inside an install.
pub const DEADLOCK_GAME_RELATIVE_PATH: &'static str = "game/citadel";
/// The console log inside an install.
pub const DEADLOCK_LOG_RELATIVE_PATH: &'static str = "game/citadel/console.log";
/// Why a discovered Steam root that is a plain file was passed over.
pub const ROOT_NOT_A_DIRECTORY: &'static str = "the discovered Steam root is not a directory";
/// Why an app manifest that names another app or an unsafe directory was
/// passed over.
pub const MANIFEST_MISMATCH: &'static str = "appid or installdir does not match the manifest location";

/// A console log that was found.
#[derive(Clone, Debug, PartialEq, Eq)]
pub enum Detection {
    /// The log exists.
    Ready { path: String },
    /// The game is installed but has not written its log yet.
    NotCreated { path: String },
}

impl Detection {
    pub fn path(&self) -> (r: &String)
        ensures
            r == match self {
                Detection::Ready { path } => path,
                Detection::NotCreated { path } => path,
            },
    {
        match self {
            Detection::Ready { path } => path,
            Detection::NotCreated { path } => path,
        }
    }
}

/// Why no console log could be chosen.
#[derive(Clone, Debug, PartialEq, Eq)]
pub enum DetectionError {
    UnsupportedPlatform,
    SteamNotFound,
    SteamUnreadable { path: String, details: String },
    DeadlockNotInstalled,
    InvalidInstall { paths: Vec<String> },
    MalformedMetadata { path: String, details: String },
    AmbiguousInstalls { paths: Vec<String> },
}

/// The texts of a list of strings.
pub open spec fn texts(v: Seq<String>) -> Seq<Seq<char>> {
    v.map_values(|p: String| p@)
}

/// Paths listed with ", " between them.
pub open spec fn joined(paths: Seq<Seq<char>>) -> Seq<char>
    decreases paths.len(),
{
    if paths.len() == 0 {
        Seq::empty()
    } else if paths.len() == 1 {
        paths[0]
    } else {
        joined(paths.drop_last()) + ", "@ + paths.last()
    }
}

/// What a detection error says to the user.
pub open spec fn detection_error_text(e: DetectionError) -> Seq<char> {
    match e {
        DetectionError::UnsupportedPlatform => "Deadlock auto-detection is supported only on Windows and Linux"@,
        DetectionError::SteamNotFound => "Steam was not found; verify that Steam is installed for the current user"@,
        DetectionError::SteamUnreadable { path, details } => "Steam data at "@ + path@ + " could not be read: "@
            + details@,
        DetectionError::DeadlockNotInstalled => "Deadlock is not installed in any Steam library visible to this user"@,
        DetectionError::InvalidInstall { paths } =>
            "Deadlock metadata exists, but no valid game/citadel directory was found at "@ + joined(texts(paths@)),
        DetectionError::MalformedMetadata { path, details } => "Steam metadata at "@ + path@ + " is malformed: "@
            + details@,
        DetectionError::AmbiguousInstalls { paths } => "multiple Deadlock installations are equally plausible ("@
            + joined(texts(paths@)) + "); enter the log path manually"@,
    }
}

/// Lists paths for a message, with ", " between them.
pub fn display_paths(paths: &Vec<String>) -> (r: String)
    ensures
        r@ == joined(texts(paths@)),
{
    let mut out = String::new();
    let mut i: usize = 0;
    while i < paths.len()
        invariant
            i <= paths@.len(),
            out@ == joined(texts(paths@.take(i as int))),
        decreases paths@.len() - i,
    {
        assert(texts(paths@.take(i + 1)).drop_last() =~= texts(paths@.take(i as int)));
        if i > 0 {
            push_str(&mut out, ", ");
        }
        push_str(&mut out, paths[i].as_str());
        i += 1;
    }
    assert(paths@.take(paths@.len() as int) =~= paths@);
    out
}

impl DetectionError {
    pub fn message(&self) -> (r: String)
        ensures
            r@ == detection_error_text(*self),
    {
        let mut out = String::new();
        match self {
            DetectionError::UnsupportedPlatform => push_str(
                &mut out,
                "Deadlock auto-detection is supported only on Windows and Linux",
            ),
            DetectionError::SteamNotFound => push_str(
                &mut out,
                "Steam was not found; verify that Steam is installed for the current user",
            ),
            DetectionError::SteamUnreadable { path, details } => {
                push_str(&mut out, "Steam data at ");
                push_str(&mut out, path.as_str());
                push_str(&mut out, " could not be read: ");
                push_str(&mut out, details.as_str());
            },
            DetectionError::DeadlockNotInstalled => push_str(
                &mut out,
                "Deadlock is not installed in any Steam library visible to this user",
            ),
            DetectionError::InvalidInstall { paths } => {
                push_str(&mut out, "Deadlock metadata exists, but no valid game/citadel directory was found at ");
                let listed = display_paths(paths);
                push_str(&mut out, listed.as_str());
            },
            DetectionError::MalformedMetadata { path, details } => {
                push_str(&mut out, "Steam metadata at ");
                push_str(&mut out, path.as_str());
                push_str(&mut out, " is malformed: ");
                push_str(&mut out, details.as_str());
            },
            DetectionError::AmbiguousInstalls { paths } => {
                push_str(&mut out, "multiple Deadlock installations are equally plausible (");
                let listed = display_paths(paths);
                push_str(&mut out, listed.as_str());
                push_str(&mut out, "); enter the log path manually");
            },
        }
        out
    }
}

/// An install whose game directory exists: the path of its log, and the
/// log's modification time (nanoseconds since the Unix epoch) when the log
/// exists.
#[derive(Clone, Debug, PartialEq, Eq)]
pub struct Candidate {
    pub path: String,
    pub modified: Option<u128>,
}

/// The newest modification time among the candidates, if any log exists.
pub open spec fn newest_time(s: Seq<Candidate>) -> Option<u128>
    decreases s.len(),
{
    if s.len() == 0 {
        None
    } else {
        let rest = newest_time(s.drop_last());
        match (rest, s.last().modified) {
            (None, m) => m,
            (Some(a), None) => Some(a),
            (Some(a), Some(b)) => Some(if a >= b { a } else { b }),
        }
    }
}

/// The paths of the candidates whose log was modified at `t`, in order.
pub open spec fn paths_modified_at(s: Seq<Candidate>, t: u128) -> Seq<Seq<char>>
    decreases s.len(),
{
    if s.len() == 0 {
        Seq::empty()
    } else {
        let rest = paths_modified_at(s.drop_last(), t);
        if s.last().modified == Some(t) {
            rest.push(s.last().path@)
        } else {
            rest
        }
    }
}

pub open spec fn candidate_paths(s: Seq<Candidate>) -> Seq<Seq<char>> {
    s.map_values(|c: Candidate| c.path@)
}

proof fn lemma_newest_time(c: Seq<Candidate>)
    ensures
        newest_time(c) is None ==> forall|j: int| 0 <= j < c.len() ==> (#[trigger] c[j]).modified is None,
        newest_time(c) matches Some(t) ==> {
            &&& forall|j: int| 0 <= j < c.len() ==> ((#[trigger] c[j]).modified matches Some(m) ==> m <= t)
            &&& exists|i: int| 0 <= i < c.len() && (#[trigger] c[i]).modified == Some(t)
        },
    decreases c.len(),
{
    if c.len() > 0 {
        let d = c.drop_last();
        let n = c.len() - 1;
        lemma_newest_time(d);
        assert(c.last() == c[n]);
        match newest_time(c) {
            None => {
                assert forall|j: int| 0 <= j < c.len() implies (#[trigger] c[j]).modified is None by {
                    if j < n {
                        assert(c[j] == d[j]);
                    }
                }
            },
            Some(t) => {
                assert forall|j: int| 0 <= j < c.len() implies ((#[trigger] c[j]).modified matches Some(m) ==> m
                    <= t) by {
                    if j < n {
                        assert(c[j] == d[j]);
                    }
                }
                if c[n].modified == Some(t) {
                    assert(c[n].modified == Some(t));
                } else {
                    let i = choose|i: int| 0 <= i < d.len() && (#[trigger] d[i]).modified == Some(t);
                    assert(c[i] == d[i]);
                }
            },
        }
    }
}

/// Some candidate has path `p` and a log modified at `t`.
pub open spec fn has_log_at(c: Seq<Candidate>, t: u128, p: Seq<char>) -> bool {
    exists|i: int| 0 <= i < c.len() && #[trigger] c[i].modified == Some(t) && c[i].path@ == p
}

proof fn lemma_paths_modified_at(c: Seq<Candidate>, t: u128)
    ensures
        forall|k: int| 0 <= k < paths_modified_at(c, t).len() ==> has_log_at(c, t, #[trigger] paths_modified_at(c, t)[k]),
    decreases c.len(),
{
    if c.len() > 0 {
        let d = c.drop_last();
        let n = c.len() - 1;
        lemma_paths_modified_at(d, t);
        let pd = paths_modified_at(d, t);
        let pc = paths_modified_at(c, t);
        assert(c.last() == c[n]);
        assert(pc == if c[n].modified == Some(t) {
            pd.push(c[n].path@)
        } else {
            pd
        });
        assert forall|k: int| 0 <= k < pc.len() implies has_log_at(c, t, #[trigger] pc[k]) by {
            if k < pd.len() {
                assert(pc[k] == pd[k]);
                assert(has_log_at(d, t, pd[k]));
                let i = choose|i: int| 0 <= i < d.len() && #[trigger] d[i].modified == Some(t) && d[i].path@ == pd[k];
                assert(c[i] == d[i]);
            } else {
                assert(c[n].modified == Some(t) && pc[k] == c[n].path@);
            }
        }
    }
}

/// The install chosen as ready has the newest log: its log exists, and no
/// candidate's log was modified later. An install taken as not created yet
/// is the only candidate, and no log exists.
pub proof fn lemma_chosen_log_is_newest(c: Seq<Candidate>, r: Result<Detection, DetectionError>, windows: bool)
    requires
        is_selection(c, r, windows),
    ensures
        r matches Ok(Detection::Ready { path }) ==> exists|i: int|
            0 <= i < c.len() && (#[trigger] c[i]).path@ == path@ && c[i].modified is Some && (forall|j: int|
                0 <= j < c.len() ==> ((#[trigger] c[j]).modified matches Some(m) ==> m <= c[i].modified->0)),
        r matches Ok(Detection::NotCreated { path }) ==> c.len() == 1 && c[0].path@ == path@ && c[0].modified is None,
{
    lemma_newest_time(c);
    if let Some(t) = newest_time(c) {
        lemma_paths_modified_at(c, t);
        if paths_modified_at(c, t).len() == 1 {
            let p = paths_modified_at(c, t)[0];
            assert(has_log_at(c, t, p));
            let i = choose|i: int| 0 <= i < c.len() && #[trigger] c[i].modified == Some(t) && c[i].path@ == p;
            assert(c[i].modified->0 == t);
        }
    } else {
        if c.len() == 1 {
            assert(c[0].modified is None);
        }
    }
}

/// Which install wins. Logs that exist beat installs without one, and the
/// newest log wins; without any log a single install is taken as not
/// created yet. Anything left tied is ambiguous, listing the tied paths in
/// path order.
pub open spec fn is_selection(c: Seq<Candidate>, r: Result<Detection, DetectionError>, windows: bool) -> bool {
    match newest_time(c) {
        None => if c.len() == 1 {
            r matches Ok(Detection::NotCreated { path }) && path@ == c[0].path@
        } else {
            r matches Err(DetectionError::AmbiguousInstalls { paths }) && texts(paths@) == sorted_paths(
                candidate_paths(c), windows)
        },
        Some(t) => if paths_modified_at(c, t).len() == 1 {
            r matches Ok(Detection::Ready { path }) && path@ == paths_modified_at(c, t)[0]
        } else {
            r matches Err(DetectionError::AmbiguousInstalls { paths }) && texts(paths@) == sorted_paths(
                paths_modified_at(c, t), windows)
        },
    }
}

/// A path separator: `/`, and on Windows (`windows`) also `\`. Throughout,
/// `windows` says that paths are read as Windows reads them.
pub open spec fn is_separator(c: char, windows: bool) -> bool {
    c == '/' || (windows && c == '\\')
}

/// The rank of a character in path order: a separator before any other
/// character, the others by code point.
pub open spec fn path_key(c: char, windows: bool) -> int {
    if is_separator(c, windows) {
        -1
    } else {
        c as int
    }
}

/// `a` comes no later than `b` in path order: character by character, a
/// separator before any other character, so the entries of a directory come
/// before a longer name that shares its start, and a path before the paths
/// it is a prefix of.
pub open spec fn path_le(a: Seq<char>, b: Seq<char>, windows: bool) -> bool
    decreases a.len(),
{
    if a.len() == 0 {
        true
    } else if b.len() == 0 {
        false
    } else if path_key(a[0], windows) != path_key(b[0], windows) {
        path_key(a[0], windows) < path_key(b[0], windows)
    } else {
        path_le(a.drop_first(), b.drop_first(), windows)
    }
}

/// `x` placed after the leading paths of `s` that come no later than it.
pub open spec fn insert_path(s: Seq<Seq<char>>, x: Seq<char>, windows: bool) -> Seq<Seq<char>>
    decreases s.len(),
{
    if s.len() == 0 {
        seq![x]
    } else if path_le(s[0], x, windows) {
        seq![s[0]] + insert_path(s.drop_first(), x, windows)
    } else {
        seq![x] + s
    }
}

/// The paths in path order; paths that rank alike keep their order.
pub open spec fn sorted_paths(s: Seq<Seq<char>>, windows: bool) -> Seq<Seq<char>>
    decreases s.len(),
{
    if s.len() == 0 {
        s
    } else {
        insert_path(sorted_paths(s.drop_last(), windows), s.last(), windows)
    }
}

pub open spec fn paths_sorted(s: Seq<Seq<char>>, windows: bool) -> bool {
    forall|i: int, j: int| 0 <= i < j < s.len() ==> path_le(#[trigger] s[i], #[trigger] s[j], windows)
}

/// Of any two paths, one comes no later than the other.
pub proof fn lemma_path_le_total(a: Seq<char>, b: Seq<char>, windows: bool)
    ensures
        path_le(a, b, windows) || path_le(b, a, windows),
    decreases a.len(),
{
    if a.len() > 0 && b.len() > 0 && path_key(a[0], windows) == path_key(b[0], windows) {
        lemma_path_le_total(a.drop_first(), b.drop_first(), windows);
    }
}

/// Path order is transitive.
pub proof fn lemma_path_le_transitive(a: Seq<char>, b: Seq<char>, c: Seq<char>, windows: bool)
    requires
        path_le(a, b, windows),
        path_le(b, c, windows),
    ensures
        path_le(a, c, windows),
    decreases a.len(),
{
    if a.len() > 0 && path_key(a[0], windows) == path_key(b[0], windows) && path_key(b[0], windows) == path_key(c[0], windows) {
        lemma_path_le_transitive(a.drop_first(), b.drop_first(), c.drop_first(), windows);
    }
}

proof fn lemma_insert_path(s: Seq<Seq<char>>, x: Seq<char>, windows: bool)
    requires
        paths_sorted(s, windows),
    ensures
        paths_sorted(insert_path(s, x, windows), windows),
        insert_path(s, x, windows).to_multiset() == s.to_multiset().insert(x),
        insert_path(s, x, windows).len() == s.len() + 1,
    decreases s.len(),
{
    broadcast use vstd::seq_lib::group_to_multiset_ensures;

    if s.len() == 0 {
        assert(seq![x] =~= s.insert(0, x));
    } else if path_le(s[0], x, windows) {
        let t = s.drop_first();
        assert(paths_sorted(t, windows)) by {
            assert forall|i: int, j: int| 0 <= i < j < t.len() implies path_le(#[trigger] t[i], #[trigger] t[j], windows) by {
                assert(t[i] == s[i + 1] && t[j] == s[j + 1]);
            }
        }
        lemma_insert_path(t, x, windows);
        let rest = insert_path(t, x, windows);
        let r = seq![s[0]] + rest;
        assert(r =~= rest.insert(0, s[0]));
        assert(s =~= t.insert(0, s[0]));
        assert forall|j: int| 0 <= j < rest.len() implies path_le(s[0], #[trigger] rest[j], windows) by {
            assert(rest.to_multiset().count(rest[j]) > 0);
            assert(s.to_multiset().insert(x) == rest.to_multiset().insert(s[0]));
            if rest[j] != x {
                assert(t.to_multiset().count(rest[j]) > 0);
                assert(t.contains(rest[j]));
                let k = choose|k: int| 0 <= k < t.len() && t[k] == rest[j];
                assert(s[k + 1] == rest[j]);
            }
        }
        assert forall|i: int, j: int| 0 <= i < j < r.len() implies path_le(#[trigger] r[i], #[trigger] r[j], windows) by {
            if i == 0 {
                assert(r[j] == rest[j - 1]);
            } else {
                assert(r[i] == rest[i - 1] && r[j] == rest[j - 1]);
            }
        }
    } else {
        lemma_path_le_total(s[0], x, windows);
        let r = seq![x] + s;
        assert(r =~= s.insert(0, x));
        assert forall|i: int, j: int| 0 <= i < j < r.len() implies path_le(#[trigger] r[i], #[trigger] r[j], windows) by {
            if i == 0 {
                assert(r[j] == s[j - 1]);
                if j - 1 > 0 {
                    lemma_path_le_transitive(x, s[0], s[j - 1], windows);
                }
            } else {
                assert(r[i] == s[i - 1] && r[j] == s[j - 1]);
            }
        }
    }
}

/// Sorting lists the same paths, each as often, in path order.
pub proof fn lemma_sorted_paths(s: Seq<Seq<char>>, windows: bool)
    ensures
        paths_sorted(sorted_paths(s, windows), windows),
        sorted_paths(s, windows).to_multiset() == s.to_multiset(),
        sorted_paths(s, windows).len() == s.len(),
    decreases s.len(),
{
    broadcast use vstd::seq_lib::group_to_multiset_ensures;

    if s.len() > 0 {
        lemma_sorted_paths(s.drop_last(), windows);
        lemma_insert_path(sorted_paths(s.drop_last(), windows), s.last(), windows);
        assert(s =~= s.drop_last().push(s.last()));
    }
}

/// When every path before `k` comes no later than `x` and the path at `k`
/// (if any) comes later, `x` is inserted at `k`.
proof fn lemma_insert_path_at(s: Seq<Seq<char>>, x: Seq<char>, k: int, windows: bool)
    requires
        0 <= k <= s.len(),
        forall|j: int| 0 <= j < k ==> path_le(#[trigger] s[j], x, windows),
        k < s.len() ==> !path_le(s[k], x, windows),
    ensures
        insert_path(s, x, windows) == s.insert(k, x),
    decreases k,
{
    if k == 0 {
        if s.len() == 0 {
            assert(seq![x] =~= s.insert(0, x));
        } else {
            assert(seq![x] + s =~= s.insert(0, x));
        }
    } else {
        let t = s.drop_first();
        assert(path_le(s[0], x, windows));
        assert forall|j: int| 0 <= j < k - 1 implies path_le(#[trigger] t[j], x, windows) by {
            assert(t[j] == s[j + 1]);
        }
        lemma_insert_path_at(t, x, k - 1, windows);
        assert(seq![s[0]] + t.insert(k - 1, x) =~= s.insert(k, x));
    }
}

fn path_key_of(c: char, windows: bool) -> (r: i64)
    ensures
        r == path_key(c, windows),
{
    if c == '/' || (windows && c == '\\') {
        -1
    } else {
        (c as u32) as i64
    }
}

/// Whether `a` comes no later than `b` in path order.
pub fn path_precedes(a: &String, b: &String, windows: bool) -> (r: bool)
    ensures
        r == path_le(a@, b@, windows),
{
    let ca = chars_of(a.as_str());
    let cb = chars_of(b.as_str());
    assert(a@.skip(0) =~= a@);
    assert(b@.skip(0) =~= b@);
    let mut i: usize = 0;
    while i < ca.len() && i < cb.len()
        invariant
            i <= ca@.len(),
            i <= cb@.len(),
            ca@ == a@,
            cb@ == b@,
            path_le(a@, b@, windows) == path_le(a@.skip(i as int), b@.skip(i as int), windows),
        decreases ca@.len() - i,
    {
        let ka = path_key_of(ca[i], windows);
        let kb = path_key_of(cb[i], windows);
        assert(a@.skip(i as int)[0] == a@[i as int]);
        assert(b@.skip(i as int)[0] == b@[i as int]);
        if ka != kb {
            return ka < kb;
        }
        assert(a@.skip(i as int).drop_first() =~= a@.skip(i + 1));
        assert(b@.skip(i as int).drop_first() =~= b@.skip(i + 1));
        i += 1;
    }
    i == ca.len()
}

fn insert_path_into(out: &mut Vec<String>, x: String, windows: bool)
    ensures
        texts(final(out)@) == insert_path(texts(old(out)@), x@, windows),
{
    let ghost s = texts(out@);
    let mut k: usize = 0;
    loop
        invariant_except_break
            k <= out@.len(),
            texts(out@) == s,
            forall|j: int| 0 <= j < k ==> path_le(#[trigger] s[j], x@, windows),
        ensures
            k <= out@.len(),
            texts(out@) == s,
            forall|j: int| 0 <= j < k ==> path_le(#[trigger] s[j], x@, windows),
            k < out@.len() ==> !path_le(s[k as int], x@, windows),
        decreases out@.len() - k,
    {
        if k >= out.len() {
            break;
        }
        if !path_precedes(&out[k], &x, windows) {
            break;
        }
        k += 1;
    }
    proof {
        lemma_insert_path_at(s, x@, k as int, windows);
    }
    let ghost xv = x@;
    out.insert(k, x);
    assert(texts(out@) =~= s.insert(k as int, xv));
}

/// The paths in path order (see [`sorted_paths`]).
pub fn sort_paths(paths: &Vec<String>, windows: bool) -> (r: Vec<String>)
    ensures
        texts(r@) == sorted_paths(texts(paths@), windows),
{
    let ghost t = texts(paths@);
    let mut out: Vec<String> = Vec::new();
    let mut i: usize = 0;
    while i < paths.len()
        invariant
            i <= paths@.len(),
            t == texts(paths@),
            texts(out@) == sorted_paths(t.take(i as int), windows),
        decreases paths@.len() - i,
    {
        assert(t.take(i + 1).drop_last() =~= t.take(i as int));
        assert(t.take(i + 1).last() == paths@[i as int]@);
        insert_path_into(&mut out, paths[i].clone(), windows);
        i += 1;
    }
    assert(t.take(paths@.len() as int) =~= t);
    out
}

/// Each path with the form under which two paths name the same place.
pub open spec fn keyed_paths(paths: Seq<String>, keys: Seq<String>) -> Seq<(Seq<char>, Seq<char>)> {
    Seq::new(paths.len(), |i: int| (paths[i]@, keys[i]@))
}

/// The paths whose key was not met earlier in the list, in order.
pub open spec fn first_of_each_key(s: Seq<(Seq<char>, Seq<char>)>) -> Seq<Seq<char>>
    decreases s.len(),
{
    if s.len() == 0 {
        Seq::empty()
    } else {
        let rest = first_of_each_key(s.drop_last());
        if exists|j: int| 0 <= j < s.len() - 1 && #[trigger] s[j].1 == s.last().1 {
            rest
        } else {
            rest.push(s.last().0)
        }
    }
}

/// The places to look in: each place once, as it was first named, in path
/// order. `keys[i]` is the form of `paths[i]` under which two paths name the
/// same place.
pub fn unique_paths(paths: &Vec<String>, keys: &Vec<String>, windows: bool) -> (r: Vec<String>)
    requires
        paths@.len() == keys@.len(),
    ensures
        texts(r@) == sorted_paths(first_of_each_key(keyed_paths(paths@, keys@)), windows),
{
    let ghost s = keyed_paths(paths@, keys@);
    let mut firsts: Vec<String> = Vec::new();
    let mut i: usize = 0;
    while i < paths.len()
        invariant
            i <= paths@.len(),
            paths@.len() == keys@.len(),
            s == keyed_paths(paths@, keys@),
            texts(firsts@) == first_of_each_key(s.take(i as int)),
        decreases paths@.len() - i,
    {
        let ghost t = s.take(i + 1);
        assert(t.drop_last() =~= s.take(i as int));
        assert(t.last() == (paths@[i as int]@, keys@[i as int]@));
        let mut seen = false;
        let ghost mut w: int = 0;
        let mut j: usize = 0;
        while j < i
            invariant
                j <= i < paths@.len(),
                paths@.len() == keys@.len(),
                s == keyed_paths(paths@, keys@),
                t == s.take(i + 1),
                t.last() == (paths@[i as int]@, keys@[i as int]@),
                seen ==> 0 <= w < j && t[w].1 == t.last().1,
                !seen ==> forall|m: int| 0 <= m < j ==> #[trigger] t[m].1 != t.last().1,
            decreases i - j,
        {
            assert(t[j as int] == (paths@[j as int]@, keys@[j as int]@));
            if key_eq(&keys[j], &keys[i]) {
                seen = true;
                proof {
                    w = j as int;
                }
            }
            j += 1;
        }
        if seen {
            assert(t[w].1 == t.last().1);
        }
        if !seen {
            let p = paths[i].clone();
            let ghost before = firsts@;
            firsts.push(p);
            assert(texts(firsts@) =~= texts(before).push(p@));
        }
        i += 1;
    }
    assert(s.take(paths@.len() as int) =~= s);
    sort_paths(&firsts, windows)
}

fn newest_of(candidates: &Vec<Candidate>) -> (r: Option<u128>)
    ensures
        r == newest_time(candidates@),
{
    let mut newest: Option<u128> = None;
    let mut i: usize = 0;
    while i < candidates.len()
        invariant
            i <= candidates@.len(),
            newest == newest_time(candidates@.take(i as int)),
        decreases candidates@.len() - i,
    {
        assert(candidates@.take(i + 1).drop_last() =~= candidates@.take(i as int));
        let m = candidates[i].modified;
        newest = match (newest, m) {
            (None, m) => m,
            (Some(a), None) => Some(a),
            (Some(a), Some(b)) => Some(if a >= b { a } else { b }),
        };
        i += 1;
    }
    assert(candidates@.take(candidates@.len() as int) =~= candidates@);
    newest
}

fn paths_at(candidates: &Vec<Candidate>, t: u128) -> (r: Vec<String>)
    ensures
        texts(r@) == paths_modified_at(candidates@, t),
{
    let mut out: Vec<String> = Vec::new();
    let mut i: usize = 0;
    while i < candidates.len()
        invariant
            i <= candidates@.len(),
            texts(out@) == paths_modified_at(candidates@.take(i as int), t),
        decreases candidates@.len() - i,
    {
        assert(candidates@.take(i + 1).drop_last() =~= candidates@.take(i as int));
        if candidates[i].modified == Some(t) {
            let p = candidates[i].path.clone();
            out.push(p);
            assert(texts(out@) =~= texts(out@.drop_last()).push(p@));
        }
        i += 1;
    }
    assert(candidates@.take(candidates@.len() as int) =~= candidates@);
    out
}

fn all_paths(candidates: &Vec<Candidate>) -> (r: Vec<String>)
    ensures
        texts(r@) == candidate_paths(candidates@),
{
    let mut out: Vec<String> = Vec::new();
    let mut i: usize = 0;
    while i < candidates.len()
        invariant
            i <= candidates@.len(),
            texts(out@) == candidate_paths(candidates@.take(i as int)),
        decreases candidates@.len() - i,
    {
        let p = candidates[i].path.clone();
        let ghost prev = out@;
        out.push(p);
        assert(texts(out@) =~= texts(prev).push(p@));
        assert(candidate_paths(candidates@.take(i + 1)) =~= candidate_paths(candidates@.take(i as int)).push(
            candidates@[i as int].path@,
        ));
        i += 1;
    }
    assert(candidates@.take(candidates@.len() as int) =~= candidates@);
    out
}

/// Chooses among the installs whose game directory exists.
pub fn select_candidate(candidates: Vec<Candidate>, windows: bool) -> (r: Result<Detection, DetectionError>)
    ensures
        is_selection(candidates@, r, windows),
{
    match newest_of(&candidates) {
        None => {
            if candidates.len() == 1 {
                Ok(Detection::NotCreated { path: candidates[0].path.clone() })
            } else {
                let all = all_paths(&candidates);
                Err(DetectionError::AmbiguousInstalls { paths: sort_paths(&all, windows) })
            }
        },
        Some(t) => {
            let newest = paths_at(&candidates, t);
            if newest.len() == 1 {
                let path = newest[0].clone();
                assert(texts(newest@)[0] == newest@[0]@);
                Ok(Detection::Ready { path })
            } else {
                Err(DetectionError::AmbiguousInstalls { paths: sort_paths(&newest, windows) })
            }
        },
    }
}

/// `s[i..j]` is one of the parts of `s` between separators.
pub open spec fn is_segment(s: Seq<char>, i: int, j: int, windows: bool) -> bool {
    &&& 0 <= i <= j <= s.len()
    &&& (i == 0 || is_separator(s[i - 1], windows))
    &&& (j == s.len() || is_separator(s[j], windows))
    &&& forall|k: int| i <= k < j ==> !is_separator(s[k], windows)
}

/// A drive prefix such as `C:` opens `s`, on Windows.
pub open spec fn has_drive_prefix(s: Seq<char>, windows: bool) -> bool {
    windows && s.len() >= 2 && s[1] == ':' && (('a' <= s[0] && s[0] <= 'z') || ('A' <= s[0] && s[0] <= 'Z'))
}

/// An app manifest's `installdir` is safe to join under a library when, as
/// a path, it is relative and made of plain names only: it is not empty, it
/// does not start at a separator, at a drive (Windows only) or at `.`, and
/// no part of it is `..`.
pub open spec fn safe_install_dir(s: Seq<char>, windows: bool) -> bool {
    &&& s.len() > 0
    &&& !has_drive_prefix(s, windows)
    &&& !is_separator(s[0], windows)
    &&& !(s[0] == '.' && is_segment(s, 0, 1, windows))
    &&& forall|i: int, j: int| #[trigger] is_segment(s, i, j, windows) && j == i + 2 ==> !(s[i] == '.' && s[i + 1] == '.')
}

proof fn lemma_segment_ends_at(s: Seq<char>, start: int, i: int, a: int, windows: bool)
    requires
        0 <= start <= i <= s.len(),
        start == 0 || is_separator(s[start - 1], windows),
        forall|k: int| start <= k < i ==> !is_separator(s[k], windows),
        is_segment(s, a, i, windows),
    ensures
        a == start,
{
    if a < start {
        assert(is_separator(s[start - 1], windows));
        assert(a <= start - 1 < i);
    } else if a > start {
        assert(is_separator(s[a - 1], windows));
        assert(start <= a - 1 < i);
    }
}

fn is_sep(c: char, windows: bool) -> (r: bool)
    ensures
        r == is_separator(c, windows),
{
    c == '/' || (windows && c == '\\')
}

/// Whether an app manifest's `installdir` is safe to join under its library.
pub fn is_safe_install_dir(install_dir: &str, windows: bool) -> (r: bool)
    ensures
        r == safe_install_dir(install_dir@, windows),
{
    let cs = chars_of(install_dir);
    let ghost s = install_dir@;
    let n = cs.len();
    if n == 0 || is_sep(cs[0], windows) {
        return false;
    }
    if windows && n >= 2 && cs[1] == ':' && (('a' <= cs[0] && cs[0] <= 'z') || ('A' <= cs[0] && cs[0] <= 'Z')) {
        return false;
    }
    if cs[0] == '.' && (n == 1 || is_sep(cs[1], windows)) {
        assert(is_segment(s, 0, 1, windows));
        return false;
    }
    assert(!is_segment(s, 0, 1, windows) || s[0] != '.');
    assert(!has_drive_prefix(s, windows));
    let mut start: usize = 0;
    let mut i: usize = 0;
    while i < n
        invariant
            cs@ == s,
            s == install_dir@,
            n == s.len(),
            n > 0,
            !is_separator(s[0], windows),
            !has_drive_prefix(s, windows),
            start <= i <= n,
            start == 0 || is_separator(s[start - 1], windows),
            forall|k: int| start <= k < i ==> !is_separator(s[k], windows),
            forall|a: int, b: int| #[trigger] is_segment(s, a, b, windows) && b < start && b == a + 2 ==> !(s[a] == '.' && s[a
                + 1] == '.'),
        decreases n - i,
    {
        if is_sep(cs[i], windows) {
            if i - start == 2 && cs[start] == '.' && cs[start + 1] == '.' {
                assert(is_segment(s, start as int, i as int, windows));
                return false;
            }
            assert forall|a: int, b: int| #[trigger] is_segment(s, a, b, windows) && b < i + 1 && b == a + 2 implies !(s[a]
                == '.' && s[a + 1] == '.') by {
                if b == i {
                    lemma_segment_ends_at(s, start as int, i as int, a, windows);
                } else if b >= start {
                    assert(is_separator(s[b], windows));
                }
            }
            start = i + 1;
        }
        i += 1;
    }
    if n - start == 2 && cs[start] == '.' && cs[start + 1] == '.' {
        assert(is_segment(s, start as int, n as int, windows));
        return false;
    }
    assert forall|a: int, b: int| #[trigger] is_segment(s, a, b, windows) && b == a + 2 implies !(s[a] == '.' && s[a + 1]
        == '.') by {
        if b >= start {
            if b < n {
                assert(is_separator(s[b], windows));
            } else {
                lemma_segment_ends_at(s, start as int, n as int, a, windows);
            }
        }
    }
    true
}

/// Whether an app manifest belongs where it was found: it names Deadlock
/// and a safe install directory.
pub fn manifest_matches(app_id: u32, install_dir: &str, windows: bool) -> (r: bool)
    ensures
        r == (app_id == DEADLOCK_APP_ID && safe_install_dir(install_dir@, windows)),
{
    app_id == DEADLOCK_APP_ID && is_safe_install_dir(install_dir, windows)
}

/// What a scan of the Steam roots and libraries has found so far. Of the
/// unreadable places and of the malformed metadata only the first one met
/// is kept.
#[derive(Debug)]
pub struct DetectionScan {
    pub readable_root_found: bool,
    pub first_unreadable: Option<DetectionError>,
    pub first_malformed: Option<DetectionError>,
    pub manifest_found: bool,
    pub invalid_installs: Vec<String>,
    pub candidates: Vec<Candidate>,
    /// For each candidate, the form of its path under which two paths name
    /// the same file.
    pub candidate_keys: Vec<String>,
}

/// How a finished scan ends: the chosen install when any install has a
/// game directory; otherwise the first malformed metadata, then the first
/// unreadable place, then the installs whose game directory is missing when
/// a manifest was seen, and else that Deadlock is not installed.
pub open spec fn scan_outcome(scan: DetectionScan, r: Result<Detection, DetectionError>, windows: bool) -> bool {
    if scan.candidates@.len() > 0 {
        is_selection(scan.candidates@, r, windows)
    } else if scan.first_malformed is Some {
        r == Err::<Detection, DetectionError>(scan.first_malformed->0)
    } else if scan.first_unreadable is Some {
        r == Err::<Detection, DetectionError>(scan.first_unreadable->0)
    } else if scan.manifest_found {
        r matches Err(DetectionError::InvalidInstall { paths }) && paths@ == scan.invalid_installs@
    } else {
        r == Err::<Detection, DetectionError>(DetectionError::DeadlockNotInstalled)
    }
}

/// The newer of two modification times, a time beating none.
pub open spec fn newer_time(a: Option<u128>, b: Option<u128>) -> Option<u128> {
    match (a, b) {
        (None, m) => m,
        (Some(x), None) => Some(x),
        (Some(x), Some(y)) => Some(if y > x { y } else { x }),
    }
}

fn key_eq(a: &String, b: &String) -> (r: bool)
    ensures
        r == (a@ == b@),
{
    a.eq(b)
}

impl DetectionScan {
    pub fn new() -> (r: Self)
        ensures
            !r.readable_root_found,
            r.first_unreadable is None,
            r.first_malformed is None,
            !r.manifest_found,
            r.invalid_installs@.len() == 0,
            r.candidates@.len() == 0,
            r.candidate_keys@.len() == 0,
    {
        DetectionScan {
            readable_root_found: false,
            first_unreadable: None,
            first_malformed: None,
            manifest_found: false,
            invalid_installs: Vec::new(),
            candidates: Vec::new(),
            candidate_keys: Vec::new(),
        }
    }

    /// Records a place that could not be read, unless one was recorded
    /// before.
    pub fn note_unreadable(&mut self, path: String, details: String)
        ensures
            final(self).first_unreadable == if old(self).first_unreadable is None {
                Some(DetectionError::SteamUnreadable { path, details })
            } else {
                old(self).first_unreadable
            },
            final(self).readable_root_found == old(self).readable_root_found,
            final(self).first_malformed == old(self).first_malformed,
            final(self).manifest_found == old(self).manifest_found,
            final(self).invalid_installs == old(self).invalid_installs,
            final(self).candidates == old(self).candidates,
            final(self).candidate_keys == old(self).candidate_keys,
    {
        if self.first_unreadable.is_none() {
            self.first_unreadable = Some(DetectionError::SteamUnreadable { path, details });
        }
    }

    /// Records malformed Steam metadata, unless some was recorded before.
    pub fn note_malformed(&mut self, path: String, details: String)
        ensures
            final(self).first_malformed == if old(self).first_malformed is None {
                Some(DetectionError::MalformedMetadata { path, details })
            } else {
                old(self).first_malformed
            },
            final(self).readable_root_found == old(self).readable_root_found,
            final(self).first_unreadable == old(self).first_unreadable,
            final(self).manifest_found == old(self).manifest_found,
            final(self).invalid_installs == old(self).invalid_installs,
            final(self).candidates == old(self).candidates,
            final(self).candidate_keys == old(self).candidate_keys,
    {
        if self.first_malformed.is_none() {
            self.first_malformed = Some(DetectionError::MalformedMetadata { path, details });
        }
    }

    /// Records an install whose game directory is missing.
    pub fn note_invalid_install(&mut self, path: String)
        ensures
            final(self).invalid_installs@ == old(self).invalid_installs@.push(path),
            final(self).readable_root_found == old(self).readable_root_found,
            final(self).first_unreadable == old(self).first_unreadable,
            final(self).first_malformed == old(self).first_malformed,
            final(self).manifest_found == old(self).manifest_found,
            final(self).candidates == old(self).candidates,
            final(self).candidate_keys == old(self).candidate_keys,
    {
        self.invalid_installs.push(path);
    }

    /// Records an install whose game directory exists, under `key`, the
    /// form of its path under which two paths name the same file. A log
    /// met before under the same key is kept once, with the newer of the
    /// two modification times (a time beats none).
    pub fn note_candidate(&mut self, path: String, modified: Option<u128>, key: String)
        requires
            old(self).candidate_keys@.len() == old(self).candidates@.len(),
        ensures
            final(self).candidate_keys@.len() == final(self).candidates@.len(),
            (forall|j: int| 0 <= j < old(self).candidate_keys@.len() ==> #[trigger] old(
                self,
            ).candidate_keys@[j]@ != key@) ==> {
                &&& final(self).candidates@ == old(self).candidates@.push(Candidate { path, modified })
                &&& final(self).candidate_keys@ == old(self).candidate_keys@.push(key)
            },
            forall|i: int|
                0 <= i < old(self).candidate_keys@.len() && #[trigger] old(self).candidate_keys@[i]@ == key@ && (
                forall|j: int| 0 <= j < i ==> #[trigger] old(self).candidate_keys@[j]@ != key@) ==> {
                    &&& final(self).candidates@ == old(self).candidates@.update(
                        i,
                        Candidate {
                            path: old(self).candidates@[i].path,
                            modified: newer_time(old(self).candidates@[i].modified, modified),
                        },
                    )
                    &&& final(self).candidate_keys@ == old(self).candidate_keys@
                },
            final(self).readable_root_found == old(self).readable_root_found,
            final(self).first_unreadable == old(self).first_unreadable,
            final(self).first_malformed == old(self).first_malformed,
            final(self).manifest_found == old(self).manifest_found,
            final(self).invalid_installs == old(self).invalid_installs,
    {
        let mut i: usize = 0;
        while i < self.candidate_keys.len()
            invariant_except_break
                i <= self.candidate_keys@.len(),
                forall|j: int| 0 <= j < i ==> #[trigger] self.candidate_keys@[j]@ != key@,
            ensures
                i <= self.candidate_keys@.len(),
                forall|j: int| 0 <= j < i ==> #[trigger] self.candidate_keys@[j]@ != key@,
                i < self.candidate_keys@.len() ==> self.candidate_keys@[i as int]@ == key@,
            decreases self.candidate_keys@.len() - i,
        {
            if key_eq(&self.candidate_keys[i], &key) {
                break;
            }
            i += 1;
        }
        if i < self.candidate_keys.len() {
            let existing = self.candidates[i].modified;
            let merged = match (existing, modified) {
                (None, m) => m,
                (Some(a), None) => Some(a),
                (Some(a), Some(b)) => Some(if b > a { b } else { a }),
            };
            let p = self.candidates[i].path.clone();
            self.candidates.set(i, Candidate { path: p, modified: merged });
        } else {
            self.candidates.push(Candidate { path, modified });
            self.candidate_keys.push(key);
        }
    }

    /// Ends a scan that found no Steam root at all, or none it could read:
    /// with the first unreadable root, or else with Steam not found.
    /// Otherwise the scan goes on.
    pub fn after_roots(self, root_count: usize) -> (r: Result<Self, DetectionError>)
        ensures
            root_count == 0 ==> r == Err::<Self, DetectionError>(DetectionError::SteamNotFound),
            root_count > 0 && !self.readable_root_found ==> r == Err::<Self, DetectionError>(
                match self.first_unreadable {
                    Some(e) => e,
                    None => DetectionError::SteamNotFound,
                },
            ),
            root_count > 0 && self.readable_root_found ==> r == Ok::<Self, DetectionError>(self),
    {
        if root_count == 0 {
            return Err(DetectionError::SteamNotFound);
        }
        if !self.readable_root_found {
            return Err(
                match self.first_unreadable {
                    Some(e) => e,
                    None => DetectionError::SteamNotFound,
                },
            );
        }
        Ok(self)
    }

    /// Ends a scan of the libraries.
    pub fn finish(self, windows: bool) -> (r: Result<Detection, DetectionError>)
        ensures
            scan_outcome(self, r, windows),
    {
        let ghost scan = self;
        if self.candidates.len() > 0 {
            return select_candidate(self.candidates, windows);
        }
        if let Some(e) = self.first_malformed {
            return Err(e);
        }
        if let Some(e) = self.first_unreadable {
            return Err(e);
        }
        if self.manifest_found {
            return Err(DetectionError::InvalidInstall { paths: self.invalid_installs });
        }
        Err(DetectionError::DeadlockNotInstalled)
    }
}

} // verus!
