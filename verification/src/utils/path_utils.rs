//! The workspace jail and the path arithmetic around it.
//!
//! A path is text whose components are the non-empty pieces between `/`
//! separators. Nothing here touches the file system: where a canonical form is
//! needed, the caller resolves it and hands it in.

use vstd::prelude::*;
use crate::file_system::document_manager::VersionedDocument;
use crate::text::chars_eq;
use crate::text::chars_eq_str;
use crate::text::chars_of;
use crate::text::string_from_chars;

verus! {

/// Why a path was turned down.
#[derive(Clone, Copy, Debug, PartialEq, Eq, Structural)]
pub enum PathError {
    /// The canonical path does not lie beneath the workspace root.
    OutsideWorkspace,
    /// The path has no canonical form: nothing exists there.
    NotFound,
    /// The path exists but is not a regular file.
    NotAFile,
}

impl PathError {
    /// The message shown to the client.
    pub fn message(&self) -> (r: String)
        ensures
            r@ == (match *self {
                PathError::OutsideWorkspace => "Path is outside of workspace"@,
                PathError::NotFound => "No such file or directory"@,
                PathError::NotAFile => "Path is not a file"@,
            }),
    {
        match self {
            PathError::OutsideWorkspace => "Path is outside of workspace".to_owned(),
            PathError::NotFound => "No such file or directory".to_owned(),
            PathError::NotAFile => "Path is not a file".to_owned(),
        }
    }
}

/// Whether what lies at a path can be opened as a file: something has to exist
/// there, and it has to be a regular file.
pub fn check_file(exists: bool, is_file: bool) -> (r: Result<(), PathError>)
    ensures
        r == (if !exists {
            Err::<(), PathError>(PathError::NotFound)
        } else if !is_file {
            Err::<(), PathError>(PathError::NotAFile)
        } else {
            Ok::<(), PathError>(())
        }),
{
    if !exists {
        Err(PathError::NotFound)
    } else if !is_file {
        Err(PathError::NotAFile)
    } else {
        Ok(())
    }
}

/// Whether `path` starts at the file-system root.
pub open spec fn is_absolute(path: Seq<char>) -> bool {
    path.len() > 0 && path[0] == '/'
}

/// One pass over `path`: the components that a separator has closed, and the
/// characters of the component still open at the end.
pub open spec fn scan(path: Seq<char>) -> (Seq<Seq<char>>, Seq<char>)
    decreases path.len(),
{
    if path.len() == 0 {
        (Seq::empty(), Seq::empty())
    } else {
        let (done, open) = scan(path.drop_last());
        if path.last() == '/' {
            (
                if open.len() > 0 {
                    done.push(open)
                } else {
                    done
                },
                Seq::empty(),
            )
        } else {
            (done, open.push(path.last()))
        }
    }
}

/// The components of `path`: its non-empty pieces between separators.
pub open spec fn components(path: Seq<char>) -> Seq<Seq<char>> {
    let (done, open) = scan(path);
    if open.len() > 0 {
        done.push(open)
    } else {
        done
    }
}

/// Whether `path` is `root` itself or lies beneath it, component by component.
pub open spec fn is_descendant(root: Seq<char>, path: Seq<char>) -> bool {
    &&& is_absolute(root) == is_absolute(path)
    &&& components(root).is_prefix_of(components(path))
}

/// `comps` written with one separator between neighbours.
pub open spec fn join_components(comps: Seq<Seq<char>>) -> Seq<char>
    decreases comps.len(),
{
    if comps.len() == 0 {
        Seq::empty()
    } else if comps.len() == 1 {
        comps[0]
    } else {
        join_components(comps.drop_last()) + seq!['/'] + comps.last()
    }
}

/// The text of the path with these components, absolute or relative.
pub open spec fn path_text(absolute: bool, comps: Seq<Seq<char>>) -> Seq<char> {
    if absolute {
        seq!['/'] + join_components(comps)
    } else {
        join_components(comps)
    }
}

/// Whether a component stands for the directory itself or for its parent.
pub open spec fn is_dot_component(c: Seq<char>) -> bool {
    c == "."@ || c == ".."@
}

/// Whether some component of `path` is `.` or `..`. A canonical path has none.
pub open spec fn has_dot_component(path: Seq<char>) -> bool {
    exists|i: int| 0 <= i < components(path).len() && is_dot_component(components(path)[i])
}

/// `comps` with `.` and `..` worked out by the text alone: a `.` is dropped, a
/// `..` takes the component before it away, and at the top it stays at the top.
pub open spec fn normalized(comps: Seq<Seq<char>>) -> Seq<Seq<char>>
    decreases comps.len(),
{
    if comps.len() == 0 {
        Seq::empty()
    } else {
        let before = normalized(comps.drop_last());
        if comps.last() == "."@ {
            before
        } else if comps.last() == ".."@ {
            if before.len() > 0 {
                before.drop_last()
            } else {
                before
            }
        } else {
            before.push(comps.last())
        }
    }
}

/// Whether `path`, with its `.` and `..` worked out by the text alone, is
/// `root` or lies beneath it. No look at the file system is needed to tell.
pub open spec fn lexically_within(root: Seq<char>, path: Seq<char>) -> bool {
    &&& is_absolute(root) == is_absolute(path)
    &&& components(root).is_prefix_of(normalized(components(path)))
}

/// Whether `path` is a canonical path that is `root` or lies beneath it: a
/// descendant without `.` or `..` among its components.
pub open spec fn is_within(root: Seq<char>, path: Seq<char>) -> bool {
    is_descendant(root, path) && !has_dot_component(path)
}

/// The path that `relative_path` names inside the workspace, before it is made
/// canonical: the root for the empty path, an absolute path as it is where the
/// components of the root open it, anything else appended to the root. An
/// absolute path that the root does not open is outside the workspace.
pub open spec fn joined(root: Seq<char>, relative_path: Seq<char>) -> Result<
    Seq<char>,
    PathError,
> {
    if relative_path.len() == 0 {
        Ok(root)
    } else if is_absolute(relative_path) {
        if is_descendant(root, relative_path) {
            Ok(relative_path)
        } else {
            Err(PathError::OutsideWorkspace)
        }
    } else if root.len() == 0 {
        Ok(relative_path)
    } else if root.last() == '/' {
        Ok(root + relative_path)
    } else {
        Ok(root + seq!['/'] + relative_path)
    }
}

/// Whether the components from position `i` on start by going up: a `..`
/// stands there, with nothing but `.` before it.
pub open spec fn leaves_from(comps: Seq<Seq<char>>, i: int) -> bool
    decreases comps.len() - i,
{
    0 <= i < comps.len() && (comps[i] == ".."@ || (comps[i] == "."@ && leaves_from(
        comps,
        i + 1,
    )))
}

/// Whether `path`, which the components of `root` open, leaves the root at
/// its first step: what follows the root's components starts by going up.
/// The root is canonical, so no link can lead such a path back inside.
pub open spec fn leaves_at_once(root: Seq<char>, path: Seq<char>) -> bool {
    leaves_from(components(path), components(root).len() as int)
}

/// The path to ask the file system about when `relative_path` is resolved, or
/// the refusal that needs no look at the file system: a path is outside the
/// workspace where it cannot be joined, or where it leaves the root at its
/// first step.
pub open spec fn resolution_target(root: Seq<char>, relative_path: Seq<char>) -> Result<
    Seq<char>,
    PathError,
> {
    if relative_path.len() == 0 {
        Ok(root)
    } else {
        match joined(root, relative_path) {
            Err(e) => Err(e),
            Ok(path) => if leaves_at_once(root, path) {
                Err(PathError::OutsideWorkspace)
            } else {
                Ok(path)
            },
        }
    }
}

/// The outcome of resolving `relative_path`, given the canonical form that the
/// file system has for the joined path (`None` where it has none).
///
/// The empty path is the root. A path that cannot be joined, or that leaves
/// the root at its first step, is outside, whether or not anything exists
/// where it leads. Of the others the canonical form decides: it has to be
/// canonical and within the root. Where there is none, the path is outside
/// if its text leads out of the root, and not found otherwise.
pub open spec fn resolved(
    root: Seq<char>,
    relative_path: Seq<char>,
    canonical: Option<Seq<char>>,
) -> Result<Seq<char>, PathError> {
    if relative_path.len() == 0 {
        Ok(root)
    } else {
        match resolution_target(root, relative_path) {
            Err(e) => Err(e),
            Ok(path) => match canonical {
                None => if lexically_within(root, path) {
                    Err(PathError::NotFound)
                } else {
                    Err(PathError::OutsideWorkspace)
                },
                Some(c) => if is_within(root, c) {
                    Ok(c)
                } else {
                    Err(PathError::OutsideWorkspace)
                },
            },
        }
    }
}

/// The directory that holds `path`: `None` where `path` has no component.
pub open spec fn parent_of(path: Seq<char>) -> Option<Seq<char>> {
    let comps = components(path);
    if comps.len() == 0 {
        None
    } else {
        Some(path_text(is_absolute(path), comps.drop_last()))
    }
}

/// The last component of `path`, empty where it has none.
pub open spec fn file_name_of(path: Seq<char>) -> Seq<char> {
    let comps = components(path);
    if comps.len() == 0 {
        Seq::empty()
    } else {
        comps.last()
    }
}

/// Whether `name` has a dot that is not its first character.
pub open spec fn has_inner_dot(name: Seq<char>) -> bool {
    exists|i: int| 0 < i < name.len() && name[i] == '.'
}

/// The position of the last dot of `name` that is not its first character.
pub open spec fn last_dot(name: Seq<char>) -> int
    recommends
        has_inner_dot(name),
{
    choose|i: int|
        0 < i < name.len() && name[i] == '.' && forall|j: int|
            i < j < name.len() ==> name[j] != '.'
}

/// The extension of the file that `path` names: what follows the last dot of
/// its file name, where that dot is not the name's first character.
pub open spec fn extension_of(path: Seq<char>) -> Option<Seq<char>> {
    let name = file_name_of(path);
    if has_inner_dot(name) {
        Some(name.skip(last_dot(name) + 1))
    } else {
        None
    }
}

/// Whether a component marks a directory that searches leave out.
pub open spec fn is_ignored_component(c: Seq<char>) -> bool {
    c == ".git"@ || c == "node_modules"@ || c == "target"@
}

/// Whether some component of `path` is `.git`, `node_modules` or `target`.
pub open spec fn ignored(path: Seq<char>) -> bool {
    exists|i: int| 0 <= i < components(path).len() && is_ignored_component(components(path)[i])
}

/// The views of a vector of components.
pub open spec fn comps_view(v: Seq<Vec<char>>) -> Seq<Seq<char>> {
    Seq::new(v.len(), |i: int| v[i]@)
}

/// Splits `path` into its components.
pub fn split_components(path: &str) -> (r: Vec<Vec<char>>)
    ensures
        comps_view(r@) == components(path@),
{
    let chars = chars_of(path);
    let mut done: Vec<Vec<char>> = Vec::new();
    let mut open: Vec<char> = Vec::new();
    let mut i: usize = 0;
    assert(path@.take(0) =~= Seq::<char>::empty());
    assert(comps_view(done@) =~= Seq::<Seq<char>>::empty());
    while i < chars.len()
        invariant
            i <= chars.len(),
            chars@ == path@,
            scan(path@.take(i as int)) == (comps_view(done@), open@),
        decreases chars.len() - i,
    {
        let c = chars[i];
        let ghost before = comps_view(done@);
        let ghost open_before = open@;
        assert(path@.take(i + 1).drop_last() =~= path@.take(i as int));
        assert(path@.take(i + 1).last() == c);
        if c == '/' {
            if open.len() > 0 {
                done.push(open);
                assert(comps_view(done@) =~= before.push(open_before));
            }
            open = Vec::new();
        } else {
            open.push(c);
        }
        i += 1;
    }
    assert(path@.take(chars.len() as int) =~= path@);
    if open.len() > 0 {
        let ghost before = comps_view(done@);
        let ghost open_before = open@;
        done.push(open);
        assert(comps_view(done@) =~= before.push(open_before));
    }
    done
}

/// Whether the components `prefix` open the components `whole`.
fn components_start_with(whole: &Vec<Vec<char>>, prefix: &Vec<Vec<char>>) -> (r: bool)
    ensures
        r == comps_view(prefix@).is_prefix_of(comps_view(whole@)),
{
    if prefix.len() > whole.len() {
        return false;
    }
    let mut i: usize = 0;
    while i < prefix.len()
        invariant
            i <= prefix.len() <= whole.len(),
            forall|j: int| 0 <= j < i ==> prefix@[j]@ == whole@[j]@,
        decreases prefix.len() - i,
    {
        if !chars_eq(&prefix[i], &whole[i]) {
            assert(comps_view(prefix@)[i as int] != comps_view(whole@)[i as int]);
            return false;
        }
        i += 1;
    }
    assert(comps_view(prefix@) =~= comps_view(whole@).subrange(0, prefix.len() as int));
    true
}

/// Whether `path` starts with a separator.
fn starts_at_root(path: &Vec<char>) -> (r: bool)
    ensures
        r == is_absolute(path@),
{
    path.len() > 0 && path[0] == '/'
}

/// Whether `path` is `workspace_root` or lies beneath it.
pub fn is_within_workspace(workspace_root: &str, path: &str) -> (r: bool)
    ensures
        r == is_descendant(workspace_root@, path@),
{
    let root_chars = chars_of(workspace_root);
    let path_chars = chars_of(path);
    if starts_at_root(&root_chars) != starts_at_root(&path_chars) {
        return false;
    }
    let root_comps = split_components(workspace_root);
    let path_comps = split_components(path);
    components_start_with(&path_comps, &root_comps)
}

/// The text of a path with the components `comps[from..]`.
fn build_path(absolute: bool, comps: &Vec<Vec<char>>, from: usize, to: usize) -> (r: String)
    requires
        from <= to <= comps.len(),
    ensures
        r@ == path_text(absolute, comps_view(comps@).subrange(from as int, to as int)),
{
    let ghost all = comps_view(comps@);
    let mut out: Vec<char> = Vec::new();
    let mut i: usize = from;
    assert(all.subrange(from as int, from as int) =~= Seq::<Seq<char>>::empty());
    while i < to
        invariant
            from <= i <= to <= comps.len(),
            all == comps_view(comps@),
            out@ == join_components(all.subrange(from as int, i as int)),
        decreases to - i,
    {
        let ghost sofar = all.subrange(from as int, i as int);
        let ghost next = all.subrange(from as int, i + 1);
        assert(next.drop_last() =~= sofar);
        assert(next.last() == comps@[i as int]@);
        if i > from {
            out.push('/');
        }
        let ghost base = out@;
        let piece = &comps[i];
        let mut k: usize = 0;
        while k < piece.len()
            invariant
                k <= piece.len(),
                out@ == base + piece@.take(k as int),
            decreases piece.len() - k,
        {
            out.push(piece[k]);
            assert(piece@.take(k + 1) =~= piece@.take(k as int).push(piece@[k as int]));
            k += 1;
        }
        assert(piece@.take(piece.len() as int) =~= piece@);
        assert(out@ =~= join_components(next)) by {
            if i > from {
                assert(base =~= join_components(sofar) + seq!['/']);
            } else {
                assert(base =~= Seq::<char>::empty());
                assert(next.len() == 1);
            }
        }
        i += 1;
    }
    if absolute {
        let mut text: Vec<char> = Vec::new();
        text.push('/');
        let ghost body = out@;
        let mut k: usize = 0;
        while k < out.len()
            invariant
                k <= out.len(),
                out@ == body,
                text@ == seq!['/'] + body.take(k as int),
            decreases out.len() - k,
        {
            text.push(out[k]);
            assert(body.take(k + 1) =~= body.take(k as int).push(body[k as int]));
            k += 1;
        }
        assert(body.take(out.len() as int) =~= body);
        string_from_chars(text)
    } else {
        string_from_chars(out)
    }
}

/// A copy of a component.
fn copy_component(c: &Vec<char>) -> (r: Vec<char>)
    ensures
        r@ == c@,
{
    let mut out: Vec<char> = Vec::new();
    let mut i: usize = 0;
    while i < c.len()
        invariant
            i <= c.len(),
            out@ == c@.take(i as int),
        decreases c.len() - i,
    {
        out.push(c[i]);
        assert(c@.take(i + 1) =~= c@.take(i as int).push(c@[i as int]));
        i += 1;
    }
    assert(c@.take(c.len() as int) =~= c@);
    out
}

/// Works out `.` and `..` in `comps` by the text alone.
fn normalize_components(comps: &Vec<Vec<char>>) -> (r: Vec<Vec<char>>)
    ensures
        comps_view(r@) == normalized(comps_view(comps@)),
{
    let ghost all = comps_view(comps@);
    let mut out: Vec<Vec<char>> = Vec::new();
    let mut i: usize = 0;
    assert(all.take(0) =~= Seq::<Seq<char>>::empty());
    assert(comps_view(out@) =~= Seq::<Seq<char>>::empty());
    while i < comps.len()
        invariant
            i <= comps.len(),
            all == comps_view(comps@),
            comps_view(out@) == normalized(all.take(i as int)),
        decreases comps.len() - i,
    {
        let c = &comps[i];
        let ghost before = comps_view(out@);
        assert(all.take(i + 1).drop_last() =~= all.take(i as int));
        assert(all.take(i + 1).last() == c@);
        if chars_eq_str(c, ".") {
        } else if chars_eq_str(c, "..") {
            if out.len() > 0 {
                out.pop();
                assert(comps_view(out@) =~= before.drop_last());
            }
        } else {
            out.push(copy_component(c));
            assert(comps_view(out@) =~= before.push(c@));
        }
        i += 1;
    }
    assert(all.take(comps.len() as int) =~= all);
    out
}

/// Whether some component of `path` is `.` or `..`.
pub fn has_dot_components(path: &str) -> (r: bool)
    ensures
        r == has_dot_component(path@),
{
    let comps = split_components(path);
    let mut i: usize = 0;
    while i < comps.len()
        invariant
            i <= comps.len(),
            comps_view(comps@) == components(path@),
            forall|j: int| 0 <= j < i ==> !is_dot_component(#[trigger] components(path@)[j]),
        decreases comps.len() - i,
    {
        let c = &comps[i];
        assert(c@ == components(path@)[i as int]);
        if chars_eq_str(c, ".") || chars_eq_str(c, "..") {
            return true;
        }
        i += 1;
    }
    false
}

/// Whether `path`, with its `.` and `..` worked out by the text alone, is
/// `workspace_root` or lies beneath it.
pub fn is_lexically_within(workspace_root: &str, path: &str) -> (r: bool)
    ensures
        r == lexically_within(workspace_root@, path@),
{
    let root_chars = chars_of(workspace_root);
    let path_chars = chars_of(path);
    if starts_at_root(&root_chars) != starts_at_root(&path_chars) {
        return false;
    }
    let root_comps = split_components(workspace_root);
    let path_comps = normalize_components(&split_components(path));
    components_start_with(&path_comps, &root_comps)
}

/// Whether `path` is a canonical path within the workspace: `workspace_root`
/// or beneath it, without `.` or `..` among its components.
pub fn is_canonical_within(workspace_root: &str, path: &str) -> (r: bool)
    ensures
        r == is_within(workspace_root@, path@),
{
    is_within_workspace(workspace_root, path) && !has_dot_components(path)
}

/// The path that `relative_path` names inside the workspace, not yet canonical.
///
/// The empty path names the root, a relative path is appended to the root, and
/// an absolute path stands for itself where the components of the root open
/// it. Any other absolute path is outside the workspace.
pub fn join_workspace_path(workspace_root: &str, relative_path: &str) -> (r: Result<
    String,
    PathError,
>)
    ensures
        match joined(workspace_root@, relative_path@) {
            Ok(path) => r is Ok && r->Ok_0@ == path,
            Err(e) => r == Err::<String, PathError>(e),
        },
{
    let rel = chars_of(relative_path);
    let root = chars_of(workspace_root);
    if rel.len() == 0 {
        return Ok(workspace_root.to_owned());
    }
    if starts_at_root(&rel) {
        return if is_within_workspace(workspace_root, relative_path) {
            Ok(relative_path.to_owned())
        } else {
            Err(PathError::OutsideWorkspace)
        };
    }
    if root.len() == 0 {
        return Ok(relative_path.to_owned());
    }
    let mut out = root;
    if out[out.len() - 1] != '/' {
        out.push('/');
    }
    let ghost base = out@;
    let mut k: usize = 0;
    while k < rel.len()
        invariant
            k <= rel.len(),
            out@ == base + rel@.take(k as int),
        decreases rel.len() - k,
    {
        out.push(rel[k]);
        assert(rel@.take(k + 1) =~= rel@.take(k as int).push(rel@[k as int]));
        k += 1;
    }
    assert(rel@.take(rel.len() as int) =~= rel@);
    Ok(string_from_chars(out))
}

/// Whether `path` leaves `workspace_root` at its first step.
pub fn goes_up_at_once(workspace_root: &str, path: &str) -> (r: bool)
    ensures
        r == leaves_at_once(workspace_root@, path@),
{
    let root_comps = split_components(workspace_root);
    let comps = split_components(path);
    let ghost all = components(path@);
    let start = root_comps.len();
    assert(start == comps_view(root_comps@).len());
    let mut i: usize = start;
    while i < comps.len()
        invariant
            start <= i,
            start == components(workspace_root@).len(),
            all == components(path@),
            comps_view(comps@) == all,
            leaves_from(all, start as int) == leaves_from(all, i as int),
        decreases comps.len() - i,
    {
        let c = &comps[i];
        assert(c@ == all[i as int]);
        if chars_eq_str(c, "..") {
            return true;
        }
        if !chars_eq_str(c, ".") {
            return false;
        }
        i += 1;
    }
    false
}

/// The path to make canonical when `relative_path` is resolved, or the
/// refusal of a path that cannot be joined or leaves the root at its first
/// step. A caller asks the file system only about what this hands out.
pub fn path_to_resolve(workspace_root: &str, relative_path: &str) -> (r: Result<String, PathError>)
    ensures
        match resolution_target(workspace_root@, relative_path@) {
            Ok(path) => r is Ok && r->Ok_0@ == path,
            Err(e) => r == Err::<String, PathError>(e),
        },
{
    if relative_path.unicode_len() == 0 {
        return Ok(workspace_root.to_owned());
    }
    match join_workspace_path(workspace_root, relative_path) {
        Err(e) => Err(e),
        Ok(path) => if goes_up_at_once(workspace_root, path.as_str()) {
            Err(PathError::OutsideWorkspace)
        } else {
            Ok(path)
        },
    }
}

/// Accepts `path`, a canonical path, where it is the workspace root or lies
/// beneath it. A path with `.` or `..` among its components is not canonical
/// and is turned down.
pub fn validate_workspace_path(workspace_root: &str, path: &str) -> (r: Result<(), PathError>)
    ensures
        r is Ok <==> is_within(workspace_root@, path@),
        r is Err ==> r == Err::<(), PathError>(PathError::OutsideWorkspace),
{
    if is_canonical_within(workspace_root, path) {
        Ok(())
    } else {
        Err(PathError::OutsideWorkspace)
    }
}

/// Resolves `relative_path` against the workspace.
///
/// `canonical` is the canonical form of `path_to_resolve(workspace_root,
/// relative_path)` as the file system gives it, `None` where nothing exists
/// there. The empty path is the root itself. A path that cannot be joined,
/// or that leaves the root at its first step, is outside, whatever
/// `canonical` holds. Of the others, one with a canonical form is accepted
/// only where that form is the root or lies beneath it, and one without is
/// outside where its text leads out of the root, and not found otherwise.
pub fn get_full_path(workspace_root: &str, relative_path: &str, canonical: Option<String>) -> (r:
    Result<String, PathError>)
    ensures
        match resolved(
            workspace_root@,
            relative_path@,
            match canonical {
                Some(c) => Some(c@),
                None => None,
            },
        ) {
            Ok(p) => r is Ok && r->Ok_0@ == p,
            Err(e) => r == Err::<String, PathError>(e),
        },
        r is Ok ==> is_descendant(workspace_root@, r->Ok_0@),
        r is Ok && relative_path@.len() > 0 ==> !has_dot_component(r->Ok_0@),
{
    if relative_path.unicode_len() == 0 {
        proof {
            lemma_descendant_of_itself(workspace_root@);
        }
        return Ok(workspace_root.to_owned());
    }
    match path_to_resolve(workspace_root, relative_path) {
        Err(e) => Err(e),
        Ok(path) => match canonical {
            None => if is_lexically_within(workspace_root, path.as_str()) {
                Err(PathError::NotFound)
            } else {
                Err(PathError::OutsideWorkspace)
            },
            Some(c) => {
                if is_canonical_within(workspace_root, c.as_str()) {
                    Ok(c)
                } else {
                    Err(PathError::OutsideWorkspace)
                }
            },
        },
    }
}

/// Resolves the path of a document as `get_full_path` resolves any other.
pub fn canonicalize_document_path(
    workspace_root: &str,
    doc: &VersionedDocument,
    canonical: Option<String>,
) -> (r: Result<String, PathError>)
    ensures
        match resolved(
            workspace_root@,
            doc.uri@,
            match canonical {
                Some(c) => Some(c@),
                None => None,
            },
        ) {
            Ok(p) => r is Ok && r->Ok_0@ == p,
            Err(e) => r == Err::<String, PathError>(e),
        },
        r is Ok ==> is_descendant(workspace_root@, r->Ok_0@),
        r is Ok && doc.uri@.len() > 0 ==> !has_dot_component(r->Ok_0@),
{
    get_full_path(workspace_root, doc.uri.as_str(), canonical)
}

/// `path` as seen from the workspace root: its components after those of the
/// root, or `None` where it does not lie beneath the root.
pub fn to_relative_path(workspace_root: &str, path: &str) -> (r: Option<String>)
    ensures
        r is Some <==> is_descendant(workspace_root@, path@),
        r is Some ==> r->Some_0@ == path_text(
            false,
            components(path@).skip(components(workspace_root@).len() as int),
        ),
{
    let root_chars = chars_of(workspace_root);
    let path_chars = chars_of(path);
    if starts_at_root(&root_chars) != starts_at_root(&path_chars) {
        return None;
    }
    let root_comps = split_components(workspace_root);
    let path_comps = split_components(path);
    if !components_start_with(&path_comps, &root_comps) {
        return None;
    }
    assert(comps_view(path_comps@).subrange(root_comps.len() as int, path_comps.len() as int)
        =~= components(path@).skip(components(workspace_root@).len() as int));
    Some(build_path(false, &path_comps, root_comps.len(), path_comps.len()))
}

/// The directory that holds `path`.
pub fn parent_directory(path: &str) -> (r: Option<String>)
    ensures
        match parent_of(path@) {
            Some(p) => r is Some && r->Some_0@ == p,
            None => r is None,
        },
{
    let chars = chars_of(path);
    let comps = split_components(path);
    if comps.len() == 0 {
        return None;
    }
    assert(comps_view(comps@).subrange(0, comps.len() - 1) =~= components(path@).drop_last());
    Some(build_path(starts_at_root(&chars), &comps, 0, comps.len() - 1))
}

/// The last component of `path`, empty where it has none.
pub fn file_name(path: &str) -> (r: String)
    ensures
        r@ == file_name_of(path@),
{
    let comps = split_components(path);
    if comps.len() == 0 {
        return String::new();
    }
    assert(comps_view(comps@).subrange(comps.len() - 1, comps.len() as int) =~= seq![
        components(path@).last(),
    ]);
    build_path(false, &comps, comps.len() - 1, comps.len())
}

/// The extension of the file that `path` names.
pub fn extension(path: &str) -> (r: Option<String>)
    ensures
        match extension_of(path@) {
            Some(e) => r is Some && r->Some_0@ == e,
            None => r is None,
        },
{
    let comps = split_components(path);
    if comps.len() == 0 {
        assert(!has_inner_dot(file_name_of(path@)));
        return None;
    }
    let name = &comps[comps.len() - 1];
    assert(name@ == file_name_of(path@));
    let mut i: usize = name.len();
    while i > 1
        invariant
            i <= name.len(),
            name@ == file_name_of(path@),
            forall|j: int| i <= j < name.len() ==> name@[j] != '.',
        decreases i,
    {
        i -= 1;
        if name[i] == '.' {
            let ghost dot = i as int;
            assert(has_inner_dot(name@));
            assert(last_dot(name@) == dot) by {
                let d = last_dot(name@);
                assert(0 < d < name@.len() && name@[d] == '.' && forall|j: int|
                    d < j < name@.len() ==> name@[j] != '.');
                if d < dot {
                    assert(name@[dot] != '.');
                }
            }
            let mut out: Vec<char> = Vec::new();
            let mut k: usize = i + 1;
            while k < name.len()
                invariant
                    i < k <= name.len(),
                    out@ == name@.subrange(i + 1, k as int),
                decreases name.len() - k,
            {
                out.push(name[k]);
                assert(name@.subrange(i + 1, k + 1) =~= name@.subrange(i + 1, k as int).push(
                    name@[k as int],
                ));
                k += 1;
            }
            assert(name@.subrange(i + 1, name.len() as int) =~= name@.skip(dot + 1));
            return Some(string_from_chars(out));
        }
    }
    assert(!has_inner_dot(name@));
    None
}

/// Whether a search leaves `path` out: some component of it is `.git`,
/// `node_modules` or `target`.
pub fn is_ignored(path: &str) -> (r: bool)
    ensures
        r == ignored(path@),
{
    let comps = split_components(path);
    let mut i: usize = 0;
    while i < comps.len()
        invariant
            i <= comps.len(),
            comps_view(comps@) == components(path@),
            forall|j: int| 0 <= j < i ==> !is_ignored_component(#[trigger] components(path@)[j]),
        decreases comps.len() - i,
    {
        let c = &comps[i];
        assert(c@ == components(path@)[i as int]);
        if chars_eq_str(c, ".git") || chars_eq_str(c, "node_modules") || chars_eq_str(c, "target") {
            return true;
        }
        i += 1;
    }
    false
}

/// A path that is not there and whose text leads out of the root is outside,
/// not missing.
pub proof fn lemma_escape_is_outside(root: Seq<char>, relative_path: Seq<char>)
    requires
        relative_path.len() > 0,
        joined(root, relative_path) matches Ok(path) ==> !lexically_within(root, path),
    ensures
        resolved(root, relative_path, None) == Err::<Seq<char>, PathError>(
            PathError::OutsideWorkspace,
        ),
{
}

/// Where a path stays in the root at its first step and the file system has
/// a canonical form for it, that form alone decides: it is accepted where it
/// is canonical and within the root, also where the text of the path went
/// through a linked directory and seemed to lead out.
pub proof fn lemma_canonical_form_decides(
    root: Seq<char>,
    relative_path: Seq<char>,
    canonical: Seq<char>,
)
    requires
        relative_path.len() > 0,
        joined(root, relative_path) matches Ok(path) && !leaves_at_once(root, path),
    ensures
        resolved(root, relative_path, Some(canonical)) == (if is_within(root, canonical) {
            Ok::<Seq<char>, PathError>(canonical)
        } else {
            Err::<Seq<char>, PathError>(PathError::OutsideWorkspace)
        }),
{
}

/// An absolute path that the components of the root do not open is outside
/// the workspace: it cannot be joined, and resolving it gives
/// `OutsideWorkspace` whatever exists there.
pub proof fn lemma_foreign_path_is_outside(
    root: Seq<char>,
    path: Seq<char>,
    canonical: Option<Seq<char>>,
)
    requires
        is_absolute(path),
        !is_descendant(root, path),
    ensures
        joined(root, path) == Err::<Seq<char>, PathError>(PathError::OutsideWorkspace),
        resolved(root, path, canonical) == Err::<Seq<char>, PathError>(
            PathError::OutsideWorkspace,
        ),
{
}

/// Scanning on from a point where no component is open adds the components
/// of what follows to those that were closed before.
pub proof fn lemma_scan_continues(before: Seq<char>, after: Seq<char>)
    requires
        scan(before).1.len() == 0,
    ensures
        scan(before + after) == (scan(before).0 + scan(after).0, scan(after).1),
    decreases after.len(),
{
    if after.len() == 0 {
        assert(before + after =~= before);
        assert(scan(before).0 + scan(after).0 =~= scan(before).0);
    } else {
        let shorter = after.drop_last();
        lemma_scan_continues(before, shorter);
        assert((before + after).drop_last() =~= before + shorter);
        assert((before + after).last() == after.last());
        let (closed, open) = scan(shorter);
        if after.last() == '/' && open.len() > 0 {
            assert((scan(before).0 + closed).push(open) =~= scan(before).0 + closed.push(open));
        }
    }
}

/// The components of two paths with a separator between them are those of
/// the first followed by those of the second.
pub proof fn lemma_components_after_separator(first: Seq<char>, second: Seq<char>)
    ensures
        components(first + seq!['/'] + second) == components(first) + components(second),
{
    let head = first + seq!['/'];
    assert(head.drop_last() =~= first);
    assert(scan(head) == (components(first), Seq::<char>::empty()));
    lemma_scan_continues(head, second);
    let (closed, open) = scan(second);
    if open.len() > 0 {
        assert((components(first) + closed).push(open) =~= components(first) + closed.push(
            open,
        ));
    }
}

/// A name without a separator is one component.
pub proof fn lemma_single_component(name: Seq<char>)
    requires
        name.len() > 0,
        forall|i: int| 0 <= i < name.len() ==> name[i] != '/',
    ensures
        components(name) == seq![name],
{
    lemma_scan_of_name(name);
    assert(Seq::<Seq<char>>::empty().push(name) =~= seq![name]);
}

/// In a name without a separator the scan closes nothing.
pub proof fn lemma_scan_of_name(name: Seq<char>)
    requires
        forall|i: int| 0 <= i < name.len() ==> name[i] != '/',
    ensures
        scan(name) == (Seq::<Seq<char>>::empty(), name),
    decreases name.len(),
{
    if name.len() > 0 {
        lemma_scan_of_name(name.drop_last());
        assert(name.drop_last().push(name.last()) =~= name);
    } else {
        assert(name =~= Seq::<char>::empty());
    }
}

/// The parent of the workspace is outside: a relative path that starts with
/// `../` is outside the workspace, whatever follows and whether or not
/// anything exists where it leads.
pub proof fn lemma_parent_is_outside(
    root: Seq<char>,
    rest: Seq<char>,
    canonical: Option<Seq<char>>,
)
    ensures
        resolved(root, ".."@ + seq!['/'] + rest, canonical) == Err::<Seq<char>, PathError>(
            PathError::OutsideWorkspace,
        ),
{
    reveal_strlit("..");
    let up = ".."@;
    let rel = up + seq!['/'] + rest;
    let own = components(root);
    assert(rel[0] == '.');
    assert(!is_absolute(rel));
    lemma_single_component(up);
    lemma_components_after_separator(up, rest);
    assert(components(rel)[0] == up);
    let path = joined(root, rel)->Ok_0;
    assert(components(path) == own + components(rel)) by {
        if root.len() == 0 {
            assert(own =~= Seq::<Seq<char>>::empty());
            assert(own + components(rel) =~= components(rel));
        } else if root.last() == '/' {
            assert(scan(root).1.len() == 0) by {
                assert(root.drop_last().push(root.last()) =~= root);
            }
            lemma_scan_continues(root, rel);
            let (closed, open) = scan(rel);
            assert(components(root) == scan(root).0);
            if open.len() > 0 {
                assert((own + closed).push(open) =~= own + closed.push(open));
            }
        } else {
            lemma_components_after_separator(root, rel);
        }
    }
    assert(components(path)[own.len() as int] == up);
}

/// Every path is a descendant of itself.
pub proof fn lemma_descendant_of_itself(path: Seq<char>)
    ensures
        is_descendant(path, path),
{
    assert(components(path).is_prefix_of(components(path)));
}

} // verus!
