//! Paths: where files stand, and which of them may be touched.

use vstd::prelude::*;
use crate::api::ApiError;
use crate::api::ApiErrorView;
use crate::api::bad_request;
use crate::json::Json;
use crate::json::JsonView;
use crate::json::array_view;
use crate::json::member;
use crate::json::text_of;
use crate::json::trees;
use crate::json_ops::Fields;
use crate::order::precedes;
use crate::order::text_precedes;
use crate::pieces::keep_non_empty;
use crate::pieces::non_empty;
use crate::pieces::split_char;
use crate::pieces::split_on;
use crate::settings::number_data;
use crate::text::begins;
use crate::text::chars_of;
use crate::text::ends;
use crate::text::ends_with;
use crate::text::join;
use crate::text::joined;
use crate::text::same;
use crate::text::starts_with;
use crate::text::take_chars;
use crate::text::texts;
use crate::text::texts_empty;
use crate::text::texts_push;
use crate::text::trim;
use crate::text::trimmed;
use crate::views::Duplicate;
use crate::views::views;
use crate::views::views_empty;
use crate::views::views_push;

verus! {

broadcast use {texts_push, texts_empty, views_push, views_empty, array_view};

/// An entry of a directory.
#[derive(Debug)]
pub struct FileEntry {
    pub name: String,
    pub is_dir: bool,
    pub size: u64,
    pub modified: u64,
}

/// What a `FileEntry` holds.
#[verifier::ext_equal]
pub struct FileEntryView {
    pub name: Seq<char>,
    pub is_dir: bool,
    pub size: u64,
    pub modified: u64,
}

impl View for FileEntry {
    type V = FileEntryView;

    open spec fn view(&self) -> FileEntryView {
        FileEntryView {
            name: self.name@,
            is_dir: self.is_dir,
            size: self.size,
            modified: self.modified,
        }
    }
}

impl Duplicate for FileEntry {
    fn duplicate(&self) -> (result: Self) {
        FileEntry {
            name: self.name.clone(),
            is_dir: self.is_dir,
            size: self.size,
            modified: self.modified,
        }
    }
}

// ---------------------------------------------------------------------------
// Places
// ---------------------------------------------------------------------------

/// A path below another one. A part that is absolute stands for itself.
pub open spec fn under(base: Seq<char>, part: Seq<char>) -> Seq<char> {
    if starts_with(part, "/"@) || base.len() == 0 {
        part
    } else if ends_with(base, "/"@) {
        base + part
    } else {
        base + "/"@ + part
    }
}

/// Returns a path below another one.
pub fn path_under(base: &str, part: &str) -> (result: String)
    ensures
        result@ == under(base@, part@),
{
    if begins(part, "/") || base.is_empty() {
        return part.to_owned();
    }
    if ends(base, "/") {
        return base.to_owned().concat(part);
    }
    base.to_owned().concat("/").concat(part)
}

/// The file of the task checkpoints.
pub fn task_checkpoints_path(home: &str) -> (result: String)
    ensures
        result@ == under(home@, "task_checkpoints.json"@),
{
    path_under(home, "task_checkpoints.json")
}

/// The file of the settings.
pub fn settings_path(home: &str) -> (result: String)
    ensures
        result@ == under(under(home@, "config"@), "settings.json"@),
{
    path_under(&path_under(home, "config"), "settings.json")
}

/// The file that the registry is kept in.
pub fn registry_disk_cache_path(home: &str) -> (result: String)
    ensures
        result@ == under(under(home@, "cache"@), "registry.json"@),
{
    path_under(&path_under(home, "cache"), "registry.json")
}

/// The file of the hooks.
pub fn hooks_path(home: &str) -> (result: String)
    ensures
        result@ == under(under(home@, "config"@), "hooks.json"@),
{
    path_under(&path_under(home, "config"), "hooks.json")
}

/// The directory of the extension for lives.
pub fn cognitive_extension_root(home: &str) -> (result: String)
    ensures
        result@ == under(under(under(under(under(home@, "runtime-v2"@), "home"@), ".coomi"@), "extensions"@), "coomi-life"@),
{
    path_under(&path_under(&path_under(&path_under(&path_under(home, "runtime-v2"), "home"), ".coomi"), "extensions"), "coomi-life")
}

/// The directory of what the extension for lives keeps.
pub fn cognitive_state_root(home: &str) -> (result: String)
    ensures
        result@ == under(under(under(under(home@, "runtime-v2"@), "home"@), ".coomi"@), "life"@),
{
    path_under(&path_under(&path_under(&path_under(home, "runtime-v2"), "home"), ".coomi"), "life")
}

/// The file of the usage totals.
pub fn usage_summary_path(home: &str) -> (result: String)
    ensures
        result@ == under(under(home@, "usage"@), "summary.json"@),
{
    path_under(&path_under(home, "usage"), "summary.json")
}

/// The file of the providers.
pub fn providers_path(home: &str) -> (result: String)
    ensures
        result@ == under(under(home@, "config"@), "providers.json"@),
{
    path_under(&path_under(home, "config"), "providers.json")
}

/// The file of the permission mode.
pub fn permission_settings_path(home: &str) -> (result: String)
    ensures
        result@ == under(under(home@, "config"@), "web-settings.json"@),
{
    path_under(&path_under(home, "config"), "web-settings.json")
}

/// The directories that tools may not read while past sessions are kept from them.
pub open spec fn private_dirs(home: Seq<char>) -> Seq<Seq<char>> {
    seq![
        under(home, "sessions"@),
        under(home, "config"@),
        under(home, "memory"@),
        under(home, "projects"@),
        under(home, "cache"@),
    ]
}

/// Returns the directories that tools may not read while past sessions are kept from them.
pub fn blocked_private_dirs(home: &str) -> (result: Vec<String>)
    ensures
        texts(result@) == private_dirs(home@),
{
    let mut dirs: Vec<String> = Vec::new();
    dirs.push(path_under(home, "sessions"));
    dirs.push(path_under(home, "config"));
    dirs.push(path_under(home, "memory"));
    dirs.push(path_under(home, "projects"));
    dirs.push(path_under(home, "cache"));
    assert(texts(dirs@) =~= private_dirs(home@));
    dirs
}

/// The position behind the last slash of a text.
pub open spec fn behind_last_slash(s: Seq<char>) -> int
    decreases s.len(),
{
    if s.len() == 0 {
        0
    } else if s.last() == '/' {
        s.len() as int
    } else {
        behind_last_slash(s.drop_last())
    }
}

/// The address beside an address: its last part is replaced.
pub open spec fn sibling(url: Seq<char>, name: Seq<char>) -> Seq<char> {
    if url.contains('/') {
        url.take(behind_last_slash(url)) + name
    } else {
        url + name
    }
}

/// Returns the address beside an address: its last part is replaced. Where there is no slash
/// the name is put behind the whole text.
pub fn sibling_url(url: &str, name: &str) -> (result: String)
    ensures
        result@ == sibling(url@, name@),
{
    let chars = chars_of(url);
    let mut end: usize = chars.len();
    assert(chars@.take(end as int) =~= chars@);
    while end > 0 && chars[end - 1] != '/'
        invariant
            end <= chars@.len(),
            behind_last_slash(chars@) == behind_last_slash(chars@.take(end as int)),
            forall|k: int| end <= k < chars@.len() ==> chars@[k] != '/',
        decreases end,
    {
        assert(chars@.take(end as int).last() == chars@[end - 1]);
        assert(chars@.take(end as int).drop_last() =~= chars@.take(end - 1));
        end = end - 1;
    }
    if end == 0 {
        assert(!chars@.contains('/'));
        return url.to_owned().concat(name);
    }
    assert(chars@.take(end as int).last() == chars@[end - 1]);
    assert(chars@.contains('/')) by {
        assert(chars@[end - 1] == '/');
    }
    let front = take_chars(url, end);
    assert(front@ =~= url@.take(end as int));
    front.concat(name)
}

// ---------------------------------------------------------------------------
// Parts
// ---------------------------------------------------------------------------

/// The pieces between the slashes of a path, without the empty ones.
pub open spec fn pieces_of(path: Seq<char>) -> Seq<Seq<char>> {
    non_empty(split_on(path, |c: char| c == '/'))
}

/// The pieces that do not stand for the directory itself.
pub open spec fn without_dots(parts: Seq<Seq<char>>) -> Seq<Seq<char>>
    decreases parts.len(),
{
    if parts.len() == 0 {
        Seq::empty()
    } else if parts.last() == "."@ {
        without_dots(parts.drop_last())
    } else {
        without_dots(parts.drop_last()).push(parts.last())
    }
}

/// The parts of a path, with what leads upward.
pub open spec fn path_parts(path: Seq<char>) -> Seq<Seq<char>> {
    without_dots(pieces_of(path))
}

/// The parts of a path without what leads upward, or nothing where it leads above the root.
pub open spec fn resolved(parts: Seq<Seq<char>>) -> Option<Seq<Seq<char>>>
    decreases parts.len(),
{
    if parts.len() == 0 {
        Some(Seq::empty())
    } else {
        match resolved(parts.drop_last()) {
            None => None,
            Some(before) => if parts.last() == ".."@ {
                if before.len() == 0 {
                    None
                } else {
                    Some(before.drop_last())
                }
            } else {
                Some(before.push(parts.last()))
            },
        }
    }
}

/// The text of an absolute path.
pub open spec fn path_text(parts: Seq<Seq<char>>) -> Seq<char> {
    "/"@ + joined(parts, "/"@)
}

/// Returns the text of an absolute path.
pub fn write_path(parts: &Vec<String>) -> (result: String)
    ensures
        result@ == path_text(texts(parts@)),
{
    "/".to_owned().concat(&join(parts, "/"))
}

/// Returns the parts of a path, with what leads upward.
pub fn split_path(path: &str) -> (result: Vec<String>)
    ensures
        texts(result@) == path_parts(path@),
{
    let pieces = keep_non_empty(split_char(path, '/'));
    let ghost all = texts(pieces@);
    let mut parts: Vec<String> = Vec::new();
    let mut i: usize = 0;
    while i < pieces.len()
        invariant
            i <= pieces@.len(),
            all == texts(pieces@),
            texts(parts@) == without_dots(all.take(i as int)),
        decreases pieces@.len() - i,
    {
        let ghost now = all.take(i + 1);
        assert(now.drop_last() =~= all.take(i as int));
        assert(now.last() == pieces@[i as int]@);
        if !same(&pieces[i], ".") {
            parts.push(pieces[i].clone());
        }
        i = i + 1;
    }
    assert(all.take(i as int) =~= all);
    parts
}

/// An absolute path that a request names.
pub open spec fn absolute(path: Seq<char>) -> Result<Seq<char>, ApiErrorView> {
    if starts_with(trimmed(path), "/"@) {
        Ok(trimmed(path))
    } else {
        Err(bad_request("path must be absolute"@))
    }
}

/// A text or a fault, as its view.
pub open spec fn text_result(result: Result<String, ApiError>) -> Result<Seq<char>, ApiErrorView> {
    match result {
        Ok(text) => Ok(text@),
        Err(error) => Err(error@),
    }
}

/// Reads an absolute path that a request names.
pub fn abs_path(path: &str) -> (result: Result<String, ApiError>)
    ensures
        text_result(result) == absolute(path@),
{
    let text = trim(path);
    if !begins(&text, "/") {
        return Err(ApiError::bad_request("path must be absolute"));
    }
    Ok(text)
}

/// Reads the text that a request gives under a name.
pub fn requested_text(body: &Json, key: &str) -> (result: Result<String, ApiError>)
    ensures
        text_result(result) == match text_of(member(body@, key@)) {
            Some(text) => Ok(text),
            None => Err(bad_request("missing "@ + key@)),
        },
{
    match body.text_member(key) {
        Some(text) => Ok(text),
        None => Err(ApiError::bad_request(&"missing ".to_owned().concat(key))),
    }
}

/// The parts of the path that a request names, without what leads upward.
pub open spec fn requested_parts(path: Seq<char>) -> Result<Seq<Seq<char>>, ApiErrorView> {
    match absolute(path) {
        Err(error) => Err(error),
        Ok(text) => match resolved(path_parts(text)) {
            Some(parts) => Ok(parts),
            None => Err(bad_request("path escapes sandbox"@)),
        },
    }
}

/// Reads the parts of the path that a request names, without what leads upward.
pub fn normalize_path(path: &str) -> (result: Result<Vec<String>, ApiError>)
    ensures
        match result {
            Ok(parts) => requested_parts(path@) == Ok::<Seq<Seq<char>>, ApiErrorView>(
                texts(parts@),
            ),
            Err(error) => requested_parts(path@) == Err::<Seq<Seq<char>>, ApiErrorView>(error@),
        },
{
    let text = match abs_path(path) {
        Ok(text) => text,
        Err(error) => {
            return Err(error);
        },
    };
    let pieces = split_path(&text);
    let ghost all = texts(pieces@);
    let mut parts: Vec<String> = Vec::new();
    let mut i: usize = 0;
    assert(all.take(0) =~= Seq::empty());
    while i < pieces.len()
        invariant
            i <= pieces@.len(),
            all == texts(pieces@),
            all == path_parts(text@),
            absolute(path@) == Ok::<Seq<char>, ApiErrorView>(text@),
            resolved(all.take(i as int)) == Some(texts(parts@)),
        decreases pieces@.len() - i,
    {
        let ghost now = all.take(i + 1);
        assert(now.drop_last() =~= all.take(i as int));
        assert(now.last() == pieces@[i as int]@);
        if same(&pieces[i], "..") {
            if parts.len() == 0 {
                assert(texts(parts@).len() == 0);
                proof {
                    stays_unresolved(all, i + 1);
                }
                return Err(ApiError::bad_request("path escapes sandbox"));
            }
            let ghost before = parts@;
            parts.pop();
            assert(texts(parts@) =~= texts(before).drop_last());
        } else {
            parts.push(pieces[i].clone());
        }
        i = i + 1;
    }
    assert(all.take(i as int) =~= all);
    Ok(parts)
}

proof fn stays_unresolved(parts: Seq<Seq<char>>, n: int)
    requires
        0 <= n <= parts.len(),
        resolved(parts.take(n)) is None,
    ensures
        resolved(parts) is None,
    decreases parts.len() - n,
{
    if n == parts.len() {
        assert(parts.take(n) =~= parts);
    } else {
        assert(parts.take(n + 1).drop_last() =~= parts.take(n));
        stays_unresolved(parts, n + 1);
    }
}

// ---------------------------------------------------------------------------
// The sandbox
// ---------------------------------------------------------------------------

/// A path with the one name of the data of apps: the system shows them under two.
pub open spec fn android_path(path: Seq<char>) -> Seq<char> {
    if starts_with(path, "/data/data/"@) {
        "/data/user/0/"@ + path.skip("/data/data/"@.len() as int)
    } else {
        path
    }
}

/// Gives a path the one name of the data of apps. `canonical` is the path as the file system
/// resolves it.
pub fn canonicalize_android_path(canonical: &str) -> (result: String)
    ensures
        result@ == android_path(canonical@),
{
    if begins(canonical, "/data/data/") {
        let count: usize = canonical.unicode_len();
        let skip: usize = "/data/data/".unicode_len();
        let rest = canonical.substring_char(skip, count).to_owned();
        assert(rest@ =~= canonical@.skip(skip as int));
        return "/data/user/0/".to_owned().concat(&rest);
    }
    canonical.to_owned()
}

/// A path with parts behind it.
pub open spec fn extended(base: Seq<char>, parts: Seq<Seq<char>>) -> Seq<char>
    decreases parts.len(),
{
    if parts.len() == 0 {
        base
    } else {
        under(extended(base, parts.drop_last()), parts.last())
    }
}

/// The number of leading parts that exist: the longest path whose mark is set. `marks[k]`
/// tells whether the path of the first `k` parts exists.
pub open spec fn deepest(marks: Seq<bool>, n: int) -> Option<int>
    decreases n + 1,
{
    if n < 0 {
        None
    } else if n < marks.len() && marks[n] {
        Some(n)
    } else {
        deepest(marks, n - 1)
    }
}

/// The path that parts name where only some of them exist: the deepest that exists as the file
/// system resolves it, and the others behind it.
pub open spec fn placed_path(
    parts: Seq<Seq<char>>,
    marks: Seq<bool>,
    canonical: Seq<Seq<char>>,
) -> Result<Seq<char>, ApiErrorView> {
    match deepest(marks, parts.len() as int) {
        None => Err(bad_request("invalid path"@)),
        Some(k) => Ok(extended(android_path(canonical[k]), parts.skip(k))),
    }
}

/// Resolves a path of which only some parts exist. `exists[k]` tells whether the path of the
/// first `k` parts exists, `canonical[k]` is that path as the file system resolves it.
pub fn canonicalize_with_existing_parent(
    parts: &Vec<String>,
    exists: &Vec<bool>,
    canonical: &Vec<String>,
) -> (result: Result<String, ApiError>)
    requires
        exists@.len() == parts@.len() + 1,
        canonical@.len() == parts@.len() + 1,
    ensures
        text_result(result) == placed_path(texts(parts@), exists@, texts(canonical@)),
{
    let ghost all = texts(parts@);
    let mut k: usize = parts.len();
    while !exists[k]
        invariant
            k <= parts@.len(),
            exists@.len() == parts@.len() + 1,
            all == texts(parts@),
            deepest(exists@, parts@.len() as int) == deepest(exists@, k as int),
            placed_path(all, exists@, texts(canonical@)) == match deepest(exists@, k as int) {
                None => Err::<Seq<char>, ApiErrorView>(bad_request("invalid path"@)),
                Some(d) => Ok(extended(android_path(texts(canonical@)[d]), all.skip(d))),
            },
        decreases k,
    {
        if k == 0 {
            assert(deepest(exists@, -1) is None);
            return Err(ApiError::bad_request("invalid path"));
        }
        k = k - 1;
    }
    assert(deepest(exists@, k as int) == Some(k as int));
    let mut path = canonicalize_android_path(&canonical[k]);
    let ghost base = path@;
    let ghost missing = all.skip(k as int);
    assert(texts(canonical@)[k as int] == canonical@[k as int]@);
    let mut i: usize = k;
    assert(missing.take(0) =~= Seq::empty());
    while i < parts.len()
        invariant
            k <= i <= parts@.len(),
            all == texts(parts@),
            missing == all.skip(k as int),
            path@ == extended(base, missing.take(i - k)),
        decreases parts@.len() - i,
    {
        let ghost now = missing.take(i - k + 1);
        assert(now.drop_last() =~= missing.take(i - k));
        assert(now.last() == parts@[i as int]@);
        path = path_under(&path, &parts[i]);
        i = i + 1;
    }
    assert(missing.take(i - k) =~= missing);
    Ok(path)
}

/// Whether a path stands in a directory, or is the directory.
pub open spec fn within(path: Seq<char>, root: Seq<char>) -> bool {
    let inner = path_parts(path);
    let outer = path_parts(root);
    outer.len() <= inner.len() && inner.take(outer.len() as int) == outer
}

/// Whether two paths have the same parts.
pub open spec fn same_place(a: Seq<char>, b: Seq<char>) -> bool {
    path_parts(a) == path_parts(b)
}

/// Tells whether a path stands in a directory, or is the directory.
pub fn is_within(path: &str, root: &str) -> (result: bool)
    ensures
        result == within(path@, root@),
{
    let inner = split_path(path);
    let outer = split_path(root);
    let ghost a = texts(inner@);
    let ghost b = texts(outer@);
    if outer.len() > inner.len() {
        return false;
    }
    let mut i: usize = 0;
    while i < outer.len()
        invariant
            i <= outer@.len(),
            outer@.len() <= inner@.len(),
            a == texts(inner@),
            b == texts(outer@),
            a == path_parts(path@),
            b == path_parts(root@),
            forall|k: int| 0 <= k < i ==> #[trigger] a[k] == b[k],
        decreases outer@.len() - i,
    {
        if !same(&inner[i], &outer[i]) {
            assert(a.take(b.len() as int)[i as int] == a[i as int]);
            assert(a[i as int] == inner@[i as int]@ && b[i as int] == outer@[i as int]@);
            return false;
        }
        i = i + 1;
    }
    assert(a.take(b.len() as int) =~= b);
    true
}

/// Tells whether two paths have the same parts.
pub fn is_same_place(a: &str, b: &str) -> (result: bool)
    ensures
        result == same_place(a@, b@),
{
    let inner = is_within(a, b);
    let outer = is_within(b, a);
    proof {
        let x = path_parts(a@);
        let y = path_parts(b@);
        if inner && outer {
            assert(x =~= x.take(y.len() as int));
        }
        if x == y {
            assert(x.take(y.len() as int) =~= y);
        }
    }
    inner && outer
}

/// The fault of a path that stands outside the sandbox.
pub open spec fn outside(path: Seq<char>) -> ApiErrorView {
    bad_request("path outside allowed area: "@ + path)
}

/// The path that a request may touch.
pub open spec fn sandboxed(
    path: Seq<char>,
    marks: Seq<bool>,
    canonical: Seq<Seq<char>>,
    root: Seq<char>,
) -> Result<Seq<char>, ApiErrorView> {
    match requested_parts(path) {
        Err(error) => Err(error),
        Ok(parts) => match placed_path(parts, marks, canonical) {
            Err(error) => Err(error),
            Ok(placed) => if within(placed, android_path(root)) {
                Ok(placed)
            } else {
                Err(outside(placed))
            },
        },
    }
}

/// Checks that a request may touch a path. `exists` and `canonical` tell of the leading parts
/// of the normalised path what the file system knows of them; `root` is the sandbox as the
/// file system resolves it.
pub fn sandboxed_path(path: &str, exists: &Vec<bool>, canonical: &Vec<String>, root: &str) -> (result:
    Result<String, ApiError>)
    requires
        requested_parts(path@) is Ok ==> exists@.len() == requested_parts(path@)->Ok_0.len() + 1
            && canonical@.len() == requested_parts(path@)->Ok_0.len() + 1,
    ensures
        text_result(result) == sandboxed(path@, exists@, texts(canonical@), root@),
{
    let parts = match normalize_path(path) {
        Ok(parts) => parts,
        Err(error) => {
            return Err(error);
        },
    };
    assert(texts(parts@).len() == parts@.len());
    let placed = match canonicalize_with_existing_parent(&parts, exists, canonical) {
        Ok(placed) => placed,
        Err(error) => {
            return Err(error);
        },
    };
    if !is_within(&placed, &canonicalize_android_path(root)) {
        return Err(
            ApiError::bad_request(&"path outside allowed area: ".to_owned().concat(&placed)),
        );
    }
    Ok(placed)
}

/// Checks that a link may be removed: the directory in which it stands is in the sandbox.
/// `parent` and `root` are these directories as the file system resolves them.
pub fn sandboxed_link(path: &str, parent: Option<&String>, root: &str) -> (result: Result<
    String,
    ApiError,
>)
    ensures
        text_result(result) == match absolute(path@) {
            Err(error) => Err(error),
            Ok(raw) => match parent {
                None => Err(bad_request("invalid path"@)),
                Some(dir) => if within(android_path(dir@), android_path(root@)) {
                    Ok(raw)
                } else {
                    Err(outside(raw))
                },
            },
        },
{
    let raw = match abs_path(path) {
        Ok(raw) => raw,
        Err(error) => {
            return Err(error);
        },
    };
    match parent {
        None => Err(ApiError::bad_request("invalid path")),
        Some(dir) => {
            if !is_within(&canonicalize_android_path(dir), &canonicalize_android_path(root)) {
                return Err(
                    ApiError::bad_request(&"path outside allowed area: ".to_owned().concat(&raw)),
                );
            }
            Ok(raw)
        },
    }
}

/// What stands against deleting a path: it is a directory that the bridge needs.
pub open spec fn deletion_fault(
    target: Seq<char>,
    cwd: Seq<char>,
    home: Seq<char>,
    root: Option<Seq<char>>,
) -> Option<ApiErrorView> {
    if same_place(target, android_path(cwd)) {
        Some(bad_request("cannot delete the engine working root"@))
    } else if same_place(target, android_path(home)) {
        Some(bad_request("cannot delete the config root"@))
    } else if root is Some && same_place(target, android_path(root->0)) {
        Some(bad_request("cannot delete the virtual environment root"@))
    } else {
        None
    }
}

/// Checks that a path may be deleted.
pub fn check_deletable(target: &str, cwd: &str, home: &str, root: Option<&String>) -> (result: Result<
    (),
    ApiError,
>)
    ensures
        match result {
            Ok(_) => deletion_fault(
                target@,
                cwd@,
                home@,
                match root {
                    Some(dir) => Some(dir@),
                    None => None,
                },
            ) is None,
            Err(error) => deletion_fault(
                target@,
                cwd@,
                home@,
                match root {
                    Some(dir) => Some(dir@),
                    None => None,
                },
            ) == Some(error@),
        },
{
    if is_same_place(target, &canonicalize_android_path(cwd)) {
        return Err(ApiError::bad_request("cannot delete the engine working root"));
    }
    if is_same_place(target, &canonicalize_android_path(home)) {
        return Err(ApiError::bad_request("cannot delete the config root"));
    }
    if let Some(dir) = root {
        if is_same_place(target, &canonicalize_android_path(dir)) {
            return Err(ApiError::bad_request("cannot delete the virtual environment root"));
        }
    }
    Ok(())
}

/// The directory that a request lists: the working directory where it names none or the root.
pub fn listed_directory(path: &str, cwd: &str) -> (result: Result<String, ApiError>)
    ensures
        text_result(result) == if path@.len() == 0 || path@ == "/"@ {
            Ok(cwd@)
        } else {
            absolute(path@)
        },
{
    if path.is_empty() || same(path, "/") {
        Ok(cwd.to_owned())
    } else {
        abs_path(path)
    }
}

/// The working directory that a request gives a session.
pub open spec fn requested_cwd(cwd: Option<Seq<char>>) -> Result<Seq<char>, ApiErrorView> {
    match cwd {
        None => Err(bad_request("missing cwd"@)),
        Some(text) => if starts_with(trimmed(text), "/"@) {
            Ok(trimmed(text))
        } else {
            Err(bad_request("cwd must be an absolute path"@))
        },
    }
}

/// Reads the working directory that a request gives a session.
pub fn session_cwd(cwd: Option<&String>) -> (result: Result<String, ApiError>)
    ensures
        text_result(result) == requested_cwd(
            match cwd {
                Some(text) => Some(text@),
                None => None,
            },
        ),
{
    match cwd {
        None => Err(ApiError::bad_request("missing cwd")),
        Some(text) => {
            let path = trim(text);
            if !begins(&path, "/") {
                return Err(ApiError::bad_request("cwd must be an absolute path"));
            }
            Ok(path)
        },
    }
}

// ---------------------------------------------------------------------------
// Files
// ---------------------------------------------------------------------------

/// The position of the last dot of a name.
pub open spec fn last_dot(name: Seq<char>) -> Option<int>
    decreases name.len(),
{
    if name.len() == 0 {
        None
    } else if name.last() == '.' {
        Some(name.len() - 1)
    } else {
        last_dot(name.drop_last())
    }
}

/// What stands behind the last dot of the name of a file; a dot at the start does not count.
pub open spec fn extension_of(path: Seq<char>) -> Option<Seq<char>> {
    let parts = path_parts(path);
    if parts.len() == 0 || parts.last() == ".."@ {
        None
    } else {
        match last_dot(parts.last()) {
            Some(at) => if at == 0 {
                None
            } else {
                Some(parts.last().skip(at + 1))
            },
            None => None,
        }
    }
}

/// Returns what stands behind the last dot of the name of a file.
pub fn path_extension(path: &str) -> (result: Option<String>)
    ensures
        match result {
            Some(text) => extension_of(path@) == Some(text@),
            None => extension_of(path@) is None,
        },
{
    let parts = split_path(path);
    assert(texts(parts@).len() == parts@.len());
    if parts.len() == 0 {
        return None;
    }
    let name = &parts[parts.len() - 1];
    assert(texts(parts@).last() == name@);
    if same(name, "..") {
        return None;
    }
    let chars = chars_of(name);
    let mut at: usize = chars.len();
    assert(chars@.take(at as int) =~= chars@);
    while at > 0 && chars[at - 1] != '.'
        invariant
            at <= chars@.len(),
            last_dot(chars@) == last_dot(chars@.take(at as int)),
        decreases at,
    {
        assert(chars@.take(at as int).last() == chars@[at - 1]);
        assert(chars@.take(at as int).drop_last() =~= chars@.take(at - 1));
        at = at - 1;
    }
    if at == 0 {
        assert(last_dot(chars@.take(0)) is None);
        return None;
    }
    assert(chars@.take(at as int).last() == chars@[at - 1]);
    if at == 1 {
        return None;
    }
    let text = name.as_str().substring_char(at, chars.len()).to_owned();
    assert(text@ =~= chars@.skip(at as int));
    Some(text)
}

/// The kind of content that a file is served as.
pub open spec fn media_type(extension: Seq<char>) -> Seq<char> {
    if extension == "png"@ {
        "image/png"@
    } else if extension == "jpg"@ || extension == "jpeg"@ {
        "image/jpeg"@
    } else if extension == "gif"@ {
        "image/gif"@
    } else if extension == "webp"@ {
        "image/webp"@
    } else if extension == "pdf"@ {
        "application/pdf"@
    } else if extension == "json"@ {
        "application/json"@
    } else if extension == "md"@ || extension == "markdown"@ {
        "text/markdown"@
    } else if is_plain_text(extension) {
        "text/plain; charset=utf-8"@
    } else {
        "application/octet-stream"@
    }
}

/// Whether files with an extension are plain text.
pub open spec fn is_plain_text(extension: Seq<char>) -> bool {
    extension == "txt"@ || extension == "log"@ || extension == "toml"@ || extension == "yaml"@ || extension == "yml"@ || extension == "sh"@ || extension == "py"@ || extension == "rs"@ || extension == "js"@ || extension == "ts"@ || extension == "vue"@ || extension == "html"@ || extension == "css"@ || extension == "xml"@ || extension == "conf"@ || extension == "env"@ || extension == "ini"@
}

fn plain_text(extension: &str) -> (result: bool)
    ensures
        result == is_plain_text(extension@),
{
    same(extension, "txt") || same(extension, "log") || same(extension, "toml") || same(extension, "yaml") || same(extension, "yml") || same(extension, "sh") || same(extension, "py") || same(extension, "rs") || same(extension, "js") || same(extension, "ts") || same(extension, "vue") || same(extension, "html") || same(extension, "css") || same(extension, "xml") || same(extension, "conf") || same(extension, "env") || same(extension, "ini")
}

/// Returns the kind of content that a file is served as. A drawing that may hold a program is
/// served as bytes.
pub fn mime_for(path: &str) -> (result: String)
    ensures
        result@ == media_type(
            match extension_of(path@) {
                Some(text) => text,
                None => ""@,
            },
        ),
{
    let extension = match path_extension(path) {
        Some(text) => text,
        None => "".to_owned(),
    };
    let kind = if same(&extension, "png") {
        "image/png"
    } else if same(&extension, "jpg") || same(&extension, "jpeg") {
        "image/jpeg"
    } else if same(&extension, "gif") {
        "image/gif"
    } else if same(&extension, "webp") {
        "image/webp"
    } else if same(&extension, "pdf") {
        "application/pdf"
    } else if same(&extension, "json") {
        "application/json"
    } else if same(&extension, "md") || same(&extension, "markdown") {
        "text/markdown"
    } else if plain_text(&extension) {
        "text/plain; charset=utf-8"
    } else {
        "application/octet-stream"
    };
    kind.to_owned()
}

/// Whether an entry of a directory comes before another one: directories first, then by name.
pub open spec fn listed_before(a: FileEntryView, b: FileEntryView) -> bool {
    if a.is_dir != b.is_dir {
        a.is_dir
    } else {
        precedes(a.name, b.name)
    }
}

/// Entries in order with one more, which goes behind all that it does not come before.
pub open spec fn entered(entries: Seq<FileEntryView>, entry: FileEntryView) -> Seq<FileEntryView>
    decreases entries.len(),
{
    if entries.len() > 0 && listed_before(entry, entries.last()) {
        entered(entries.drop_last(), entry).push(entries.last())
    } else {
        entries.push(entry)
    }
}

/// Entries in order.
pub open spec fn directory_order(entries: Seq<FileEntryView>) -> Seq<FileEntryView>
    decreases entries.len(),
{
    if entries.len() == 0 {
        Seq::empty()
    } else {
        entered(directory_order(entries.drop_last()), entries.last())
    }
}

fn enter(entries: &mut Vec<FileEntry>, entry: FileEntry)
    ensures
        views(final(entries)@) == entered(views(old(entries)@), entry@),
{
    let ghost all = views(entries@);
    let mut at: usize = entries.len();
    assert(all.take(at as int) =~= all);
    assert(entered(all, entry@) + all.skip(at as int) =~= entered(all, entry@));
    while at > 0 && comes_before(&entry, &entries[at - 1])
        invariant
            at <= entries.len(),
            entries@ == old(entries)@,
            all == views(entries@),
            entered(all, entry@) == entered(all.take(at as int), entry@) + all.skip(at as int),
        decreases at,
    {
        let ghost part = all.take(at as int);
        assert(part.last() == entries@[at - 1]@);
        assert(part.drop_last() =~= all.take(at - 1));
        assert(entered(all.take(at - 1), entry@).push(part.last()) + all.skip(at as int)
            =~= entered(all.take(at - 1), entry@) + all.skip(at - 1));
        at = at - 1;
    }
    proof {
        let part = all.take(at as int);
        if at > 0 {
            assert(part.last() == entries@[at - 1]@);
        }
        assert(entered(part, entry@) == part.push(entry@));
        assert(part.push(entry@) + all.skip(at as int) =~= all.insert(at as int, entry@));
    }
    entries.insert(at, entry);
    assert(views(entries@) =~= all.insert(at as int, entry@));
}

fn comes_before(a: &FileEntry, b: &FileEntry) -> (result: bool)
    ensures
        result == listed_before(a@, b@),
{
    if a.is_dir != b.is_dir {
        a.is_dir
    } else {
        text_precedes(&a.name, &b.name)
    }
}

/// The entries of a directory as clients see them.
pub open spec fn directory_data(path: Seq<char>, entries: Seq<FileEntryView>) -> JsonView {
    JsonView::Object(
        seq![
            ("path"@, JsonView::Text(path)),
            (
                "entries"@,
                JsonView::Array(Seq::new(entries.len(), |i: int| entry_data(entries[i]))),
            ),
        ],
    )
}

/// An entry of a directory as clients see it.
pub open spec fn entry_data(entry: FileEntryView) -> JsonView {
    JsonView::Object(
        seq![
            ("name"@, JsonView::Text(entry.name)),
            ("is_dir"@, JsonView::Bool(entry.is_dir)),
            ("size"@, number_data(entry.size as nat)),
            ("modified"@, number_data(entry.modified as nat)),
        ],
    )
}

fn show_entry(entry: &FileEntry) -> (result: Json)
    ensures
        result@ == entry_data(entry@),
{
    let mut fields = Fields::new();
    fields.add("name", Json::text(&entry.name));
    fields.add("is_dir", Json::Bool(entry.is_dir));
    fields.add("size", Json::number(entry.size));
    fields.add("modified", Json::number(entry.modified));
    assert(fields@ =~= entry_data(entry@)->Object_0);
    fields.done()
}

/// Shows the entries of a directory, in order.
pub fn fs_list(path: &str, entries: &Vec<FileEntry>) -> (result: Json)
    ensures
        result@ == directory_data(path@, directory_order(views(entries@))),
{
    let ghost all = views(entries@);
    let mut sorted: Vec<FileEntry> = Vec::new();
    let mut i: usize = 0;
    while i < entries.len()
        invariant
            i <= entries@.len(),
            all == views(entries@),
            views(sorted@) == directory_order(all.take(i as int)),
        decreases entries@.len() - i,
    {
        let ghost part = all.take(i + 1);
        assert(part.drop_last() =~= all.take(i as int));
        assert(part.last() == entries@[i as int]@);
        enter(&mut sorted, entries[i].duplicate());
        i = i + 1;
    }
    assert(all.take(i as int) =~= all);
    let ghost ordered = views(sorted@);
    let ghost wanted = Seq::new(ordered.len(), |i: int| entry_data(ordered[i]));
    let mut items: Vec<Json> = Vec::new();
    let mut k: usize = 0;
    assert(trees(items@) =~= wanted.take(0));
    while k < sorted.len()
        invariant
            k <= sorted@.len(),
            ordered == views(sorted@),
            wanted == Seq::new(ordered.len(), |i: int| entry_data(ordered[i])),
            trees(items@) == wanted.take(k as int),
        decreases sorted@.len() - k,
    {
        let ghost before = items@;
        let item = show_entry(&sorted[k]);
        items.push(item);
        assert(trees(items@) =~= trees(before).push(item@));
        assert(wanted.take(k + 1) =~= wanted.take(k as int).push(wanted[k as int]));
        k = k + 1;
    }
    assert(wanted.take(k as int) =~= wanted);
    let mut fields = Fields::new();
    fields.add("path", Json::text(path));
    fields.add("entries", Json::Array(items));
    assert(fields@ =~= directory_data(path@, ordered)->Object_0);
    fields.done()
}

// ---------------------------------------------------------------------------
// Laws
// ---------------------------------------------------------------------------

/// A path that a request may touch stands in the sandbox, whatever the file system holds.
pub proof fn sandboxed_paths_stay_inside(
    path: Seq<char>,
    marks: Seq<bool>,
    canonical: Seq<Seq<char>>,
    root: Seq<char>,
)
    ensures
        match sandboxed(path, marks, canonical, root) {
            Ok(placed) => within(placed, android_path(root)),
            Err(_) => true,
        },
{
}

/// A path that a request names holds no part that leads upward once it is normalised.
pub proof fn normalised_paths_lead_down(parts: Seq<Seq<char>>)
    ensures
        match resolved(parts) {
            Some(left) => forall|i: int| 0 <= i < left.len() ==> #[trigger] left[i] != ".."@,
            None => true,
        },
    decreases parts.len(),
{
    if parts.len() > 0 {
        normalised_paths_lead_down(parts.drop_last());
        if let Some(left) = resolved(parts) {
            let before = resolved(parts.drop_last())->0;
            assert forall|i: int| 0 <= i < left.len() implies #[trigger] left[i] != ".."@ by {
                if i < before.len() {
                    assert(left[i] == before[i]);
                }
            }
        }
    }
}

/// The one name of the data of apps is not changed again.
pub proof fn one_name_stays(path: Seq<char>)
    ensures
        android_path(android_path(path)) == android_path(path),
{
    reveal_strlit("/data/data/");
    reveal_strlit("/data/user/0/");
    let once = android_path(path);
    if starts_with(path, "/data/data/"@) {
        assert(once[6] == 'u');
        if starts_with(once, "/data/data/"@) {
            assert(once.take(11)[6] == once[6]);
            assert("/data/data/"@[6] == 'd');
        }
    }
}

/// The directories that the bridge needs are never deleted.
pub proof fn needed_directories_stay(
    target: Seq<char>,
    cwd: Seq<char>,
    home: Seq<char>,
    root: Option<Seq<char>>,
)
    ensures
        deletion_fault(target, cwd, home, root) is None ==> !same_place(target, android_path(cwd))
            && !same_place(target, android_path(home)) && (root is Some ==> !same_place(
            target,
            android_path(root->0),
        )),
        deletion_fault(android_path(home), cwd, home, root) is Some,
{
}

} // verus!
