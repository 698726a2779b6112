//! Staging and unstaging a file in a git repository's index.

use vstd::prelude::*;
use std::path::Path;
use git2::{Blob, Index, Oid, Reference, Repository, Tree, TreeEntry};
use crate::error::TuicrError;
use vstd::string::StringSliceAdditionalSpecFns;

verus! {

/// `git2::Repository`.
#[verifier::external_type_specification]
#[verifier::external_body]
pub struct ExRepository(Repository);

/// `git2::Index`.
#[verifier::external_type_specification]
#[verifier::external_body]
pub struct ExIndex(Index);

/// `git2::Oid`.
#[verifier::external_type_specification]
#[verifier::external_body]
pub struct ExOid(Oid);

/// `git2::Reference`.
#[verifier::external_type_specification]
#[verifier::external_body]
pub struct ExReference<'repo>(Reference<'repo>);

/// `git2::Tree`.
#[verifier::external_type_specification]
#[verifier::external_body]
pub struct ExTree<'repo>(Tree<'repo>);

/// `git2::TreeEntry`.
#[verifier::external_type_specification]
#[verifier::external_body]
pub struct ExTreeEntry<'tree>(TreeEntry<'tree>);

/// `git2::Blob`.
#[verifier::external_type_specification]
#[verifier::external_body]
pub struct ExBlob<'repo>(Blob<'repo>);


/// The fields of a `git2::IndexEntry`, with the times split into seconds
/// and nanoseconds.
pub struct IndexEntryFields {
    pub ctime_seconds: i32,
    pub ctime_nanoseconds: u32,
    pub mtime_seconds: i32,
    pub mtime_nanoseconds: u32,
    pub dev: u32,
    pub ino: u32,
    pub mode: u32,
    pub uid: u32,
    pub gid: u32,
    pub file_size: u32,
    pub id: Oid,
    pub flags: u16,
    pub flags_extended: u16,
    pub path: Vec<u8>,
}

/// A path that git2 refuses as a path relative to the working directory
/// before it looks at the repository: an empty path, an absolute one, one
/// whose first component is `.` or `..`, or one holding a NUL character.
pub open spec fn refused_repo_path(p: Seq<char>) -> bool {
    ||| p.len() == 0
    ||| p[0] == '/'
    ||| p == seq!['.']
    ||| (p.len() >= 2 && p[0] == '.' && p[1] == '/')
    ||| p == seq!['.', '.']
    ||| (p.len() >= 3 && p[0] == '.' && p[1] == '.' && p[2] == '/')
    ||| p.contains('\0')
}

/// A path that git2 takes, on every platform, as relative to the working
/// directory and as naming its index entry by its own bytes: not refused,
/// and holding neither `\` nor `:` (Windows separators and drive
/// prefixes).
pub open spec fn ordinary_repo_path(p: Seq<char>) -> bool {
    &&& !refused_repo_path(p)
    &&& !p.contains('\\')
    &&& !p.contains(':')
}

/// The stage-0 entries of an index (those that are not merge conflicts):
/// for each path, as bytes, the entry's file mode and object id bytes.
pub uninterp spec fn index_entries(index: Index) -> Map<Seq<u8>, (u32, Seq<u8>)>;

/// The object id that git gives a blob holding `data`.
pub uninterp spec fn git_blob_id(data: Seq<u8>) -> Seq<u8>;

/// The file modes an index entry made from a buffer can have: a regular
/// file, an executable file, or a symbolic link.
pub open spec fn is_file_or_link_mode(mode: u32) -> bool {
    mode == 0o100644 || mode == 0o100755 || mode == 0o120000
}

/// ASCII letters in lower case; other bytes as they are.
pub open spec fn fold_byte(b: u8) -> u8 {
    if 65 <= b <= 90 {
        (b + 32) as u8
    } else {
        b
    }
}

/// Bytes that a case-insensitive index may take for the same: equal, equal
/// once ASCII letters are folded, or both outside ASCII.
pub open spec fn bytes_alike(a: u8, b: u8) -> bool {
    a == b || fold_byte(a) == fold_byte(b) || (a >= 128 && b >= 128)
}

/// Paths that a case-insensitive index may take for the same path.
pub open spec fn paths_alike(a: Seq<u8>, b: Seq<u8>) -> bool {
    &&& a.len() == b.len()
    &&& forall|i: int| 0 <= i < a.len() ==> bytes_alike(a[i], b[i])
}

/// Whether an entry at `k` may give way to an entry at `p`: the two paths
/// are alike, or one of them is alike to a leading directory of the other
/// (a file cannot also be a directory in the index).
pub open spec fn paths_clash(k: Seq<u8>, p: Seq<u8>) -> bool {
    ||| paths_alike(k, p)
    ||| (k.len() > p.len() && k[p.len() as int] == 47u8 && paths_alike(k.take(p.len() as int), p))
    ||| (p.len() > k.len() && p[k.len() as int] == 47u8 && paths_alike(p.take(k.len() as int), k))
}

/// No other entry path is alike to `key`.
pub open spec fn no_alike_entry(entries: Map<Seq<u8>, (u32, Seq<u8>)>, key: Seq<u8>) -> bool {
    forall|k: Seq<u8>| #[trigger] entries.contains_key(k) && k != key ==> !paths_alike(k, key)
}

/// No other entry path clashes with `key`.
pub open spec fn no_clashing_entry(entries: Map<Seq<u8>, (u32, Seq<u8>)>, key: Seq<u8>) -> bool {
    forall|k: Seq<u8>| #[trigger] entries.contains_key(k) && k != key ==> !paths_clash(k, key)
}

/// Entries at paths other than `key` are only ever dropped: none is added
/// or changed.
pub open spec fn others_only_dropped(
    old_entries: Map<Seq<u8>, (u32, Seq<u8>)>,
    new_entries: Map<Seq<u8>, (u32, Seq<u8>)>,
    key: Seq<u8>,
) -> bool {
    forall|k: Seq<u8>| #[trigger]
        new_entries.contains_key(k) && k != key ==> old_entries.contains_key(k)
            && new_entries[k] == old_entries[k]
}

/// Entries at paths that do not clash with `key` are kept as they were.
pub open spec fn unclashing_kept(
    old_entries: Map<Seq<u8>, (u32, Seq<u8>)>,
    new_entries: Map<Seq<u8>, (u32, Seq<u8>)>,
    key: Seq<u8>,
) -> bool {
    forall|k: Seq<u8>| #[trigger]
        old_entries.contains_key(k) && !paths_clash(k, key) ==> new_entries.contains_key(k)
            && new_entries[k] == old_entries[k]
}

/// `Repository::index`: the repository's index.
#[verifier::external_body]
fn repo_index(repo: &Repository) -> (r: Result<Index, git2::Error>) {
    repo.index()
}

/// `Index::add_path`: adds or updates the entry of a working-tree file. It
/// fails on a path that git2 refuses as relative to the working directory.
/// On success at most one entry is added or changed, and only entries whose
/// paths clash with it are dropped. Where that entry sits (a case-insensitive
/// index may keep an existing spelling of the path; a submodule directory is
/// added to the repository's own index object) and what it holds (read from
/// the working tree) are left unsaid.
#[verifier::external_body]
fn index_add_path(index: &mut Index, path: &str) -> (r: Result<(), git2::Error>)
    ensures
        refused_repo_path(path@) ==> r is Err,
        r is Ok ==> exists|k: Seq<u8>|
            others_only_dropped(index_entries(*old(index)), index_entries(*final(index)), k)
                && unclashing_kept(index_entries(*old(index)), index_entries(*final(index)), k),
{
    index.add_path(Path::new(path))
}

/// `Index::remove_path`: removes the stage-0 entry of a file (and its
/// merge conflicts). It fails on a path that git2 refuses as relative to
/// the working directory. On success no entry is added or changed; the one
/// entry dropped is the one the index finds for the path, which is the
/// path's own entry when no other entry is alike to it. A `\` in the path
/// is a separator on Windows, so the path's bytes name the entry only when
/// it holds none.
///
/// Removing touches only the index in memory, so git2 fails on an ordinary
/// path (see `ordinary_repo_path`) only when libgit2 cannot allocate memory
/// while moving the path's merge conflicts aside; that case is set aside.
#[verifier::external_body]
fn index_remove_path(index: &mut Index, path: &str) -> (r: Result<(), git2::Error>)
    ensures
        refused_repo_path(path@) ==> r is Err,
        ordinary_repo_path(path@) ==> r is Ok,
        r is Ok ==> forall|k: Seq<u8>| #[trigger]
            index_entries(*final(index)).contains_key(k) ==> index_entries(
                *old(index),
            ).contains_key(k) && index_entries(*final(index))[k] == index_entries(*old(index))[k],
        r is Ok && !path@.contains('\\') ==> forall|k: Seq<u8>| #[trigger]
            index_entries(*old(index)).contains_key(k) && !paths_alike(k, path.spec_bytes())
                ==> index_entries(*final(index)).contains_key(k),
        r is Ok && !path@.contains('\\') && no_alike_entry(
            index_entries(*old(index)),
            path.spec_bytes(),
        ) ==> !index_entries(*final(index)).contains_key(path.spec_bytes()),
{
    index.remove_path(Path::new(path))
}

/// `Index::write`: writes the index back to disk. It leaves the entries'
/// paths, modes and ids as they are.
#[verifier::external_body]
fn index_write(index: &mut Index) -> (r: Result<(), git2::Error>)
    ensures
        index_entries(*final(index)) == index_entries(*old(index)),
{
    index.write()
}

/// `Repository::head`: the reference that HEAD resolves to.
#[verifier::external_body]
fn repo_head(repo: &Repository) -> (r: Result<Reference<'_>, git2::Error>) {
    repo.head()
}

/// `Reference::peel_to_tree`: the tree that a reference leads to.
#[verifier::external_body]
fn reference_peel_to_tree<'repo>(reference: &Reference<'repo>) -> (r: Result<
    Tree<'repo>,
    git2::Error,
>) {
    reference.peel_to_tree()
}

/// `Tree::get_path`: the entry at a path in a tree or its subtrees.
#[verifier::external_body]
fn tree_get_path(tree: &Tree<'_>, path: &str) -> (r: Result<TreeEntry<'static>, git2::Error>) {
    tree.get_path(Path::new(path))
}

/// `TreeEntry::id`: the id of the object that an entry names.
#[verifier::external_body]
fn tree_entry_id(entry: &TreeEntry<'_>) -> (r: Oid) {
    entry.id()
}

/// `TreeEntry::filemode`: the Unix file mode of an entry.
#[verifier::external_body]
fn tree_entry_filemode(entry: &TreeEntry<'_>) -> (r: i32) {
    entry.filemode()
}

/// `Repository::find_blob`: looks a blob up by id.
#[verifier::external_body]
fn repo_find_blob(repo: &Repository, id: Oid) -> (r: Result<Blob<'_>, git2::Error>) {
    repo.find_blob(id)
}

/// `Blob::content`: the bytes of a blob.
#[verifier::external_body]
fn blob_content<'a>(blob: &'a Blob<'_>) -> (r: &'a [u8]) {
    blob.content()
}

/// `Index::add_frombuffer`: writes `data` as a blob and adds or replaces the
/// stage-0 entry at `entry.path` with it: the entry's mode, and the blob's
/// id in place of `entry.id`. It fails unless the mode is that of a file or
/// a link. On success no other entry is added or changed, and only entries
/// whose paths clash with the new one are dropped. When no other entry is
/// alike to the path, the entry sits at exactly that path.
#[verifier::external_body]
fn index_add_frombuffer(index: &mut Index, entry: &IndexEntryFields, data: &[u8]) -> (r: Result<
    (),
    git2::Error,
>)
    ensures
        r is Ok ==> is_file_or_link_mode(entry.mode),
        r is Ok ==> others_only_dropped(
            index_entries(*old(index)),
            index_entries(*final(index)),
            entry.path@,
        ),
        r is Ok ==> unclashing_kept(
            index_entries(*old(index)),
            index_entries(*final(index)),
            entry.path@,
        ),
        r is Ok && no_alike_entry(index_entries(*old(index)), entry.path@) ==> index_entries(
            *final(index),
        ).contains_key(entry.path@) && index_entries(*final(index))[entry.path@] == (
            entry.mode,
            git_blob_id(data@),
        ),
{
    let raw = git2::IndexEntry {
        ctime: git2::IndexTime::new(entry.ctime_seconds, entry.ctime_nanoseconds),
        mtime: git2::IndexTime::new(entry.mtime_seconds, entry.mtime_nanoseconds),
        dev: entry.dev, ino: entry.ino, mode: entry.mode, uid: entry.uid, gid: entry.gid,
        file_size: entry.file_size, id: entry.id, flags: entry.flags,
        flags_extended: entry.flags_extended, path: entry.path.clone(),
    };
    index.add_frombuffer(&raw, data)
}

/// The index entry that restores a file as HEAD has it: HEAD's mode and
/// blob id at the file's path, with every time, device, owner, size and
/// flag field zero.
pub fn head_index_entry(mode: i32, id: Oid, path: &str) -> (e: IndexEntryFields)
    ensures
        e.ctime_seconds == 0 && e.ctime_nanoseconds == 0,
        e.mtime_seconds == 0 && e.mtime_nanoseconds == 0,
        e.dev == 0 && e.ino == 0 && e.uid == 0 && e.gid == 0,
        e.mode == mode as u32,
        e.file_size == 0,
        e.id == id,
        e.flags == 0 && e.flags_extended == 0,
        e.path@ == path.spec_bytes(),
{
    IndexEntryFields {
        ctime_seconds: 0,
        ctime_nanoseconds: 0,
        mtime_seconds: 0,
        mtime_nanoseconds: 0,
        dev: 0,
        ino: 0,
        mode: mode as u32,
        uid: 0,
        gid: 0,
        file_size: 0,
        id,
        flags: 0,
        flags_extended: 0,
        path: path.as_bytes_vec(),
    }
}

/// Stages the working-tree file at `path` in `index`: adds or updates its
/// entry from the working tree. A refused path is a git error. On success
/// at most one entry is added or changed, and only entries whose paths
/// clash with it are dropped.
pub fn stage_in_index(index: &mut Index, path: &str) -> (r: Result<(), TuicrError>)
    ensures
        r matches Err(e) ==> e is Git,
        refused_repo_path(path@) ==> r is Err,
        r is Ok ==> exists|k: Seq<u8>|
            others_only_dropped(index_entries(*old(index)), index_entries(*final(index)), k)
                && unclashing_kept(index_entries(*old(index)), index_entries(*final(index)), k),
{
    match index_add_path(index, path) {
        Ok(()) => Ok(()),
        Err(e) => Err(TuicrError::Git(e)),
    }
}

/// Stages a working-tree file: adds or updates its index entry (see
/// `stage_in_index`) and writes the index. `path` is relative to the repository's working directory; a
/// path that is not (see `refused_repo_path`) is a git error.
pub fn stage_file(repo: &Repository, path: &str) -> (r: Result<(), TuicrError>)
    ensures
        r matches Err(e) ==> e is Git,
        refused_repo_path(path@) ==> r is Err,
{
    let mut index = match repo_index(repo) {
        Ok(index) => index,
        Err(e) => return Err(TuicrError::Git(e)),
    };
    if let Err(e) = stage_in_index(&mut index, path) {
        return Err(e);
    }
    if let Err(e) = index_write(&mut index) {
        return Err(TuicrError::Git(e));
    }
    Ok(())
}

/// The file that HEAD's tree has at a path: its mode, blob id and content.
pub struct HeadFile<'a> {
    pub mode: i32,
    pub id: Oid,
    pub content: &'a [u8],
}

/// The index entry value that restores a file as HEAD has it: HEAD's mode,
/// and the id of a blob holding HEAD's content. `HeadFile.id` plays no
/// part: libgit2 gives the entry the id of the content it writes.
pub open spec fn head_entry_value(head: Option<HeadFile<'_>>) -> Option<(u32, Seq<u8>)> {
    match head {
        Some(h) => Some((h.mode as u32, git_blob_id(h.content@))),
        None => None,
    }
}

/// The entries once the one at `key` is unstaged: the entry HEAD gives, or
/// none when HEAD has no such file; every other entry as it was.
pub open spec fn unstaged_entries(
    entries: Map<Seq<u8>, (u32, Seq<u8>)>,
    key: Seq<u8>,
    head: Option<(u32, Seq<u8>)>,
) -> Map<Seq<u8>, (u32, Seq<u8>)> {
    match head {
        Some(v) => entries.insert(key, v),
        None => entries.remove(key),
    }
}

/// What unstaging the entry at `key` (for the text path `path`) does to the
/// entries, given the entry value HEAD gives (none when HEAD has no such
/// file): no other entry is added or changed; with no `\` in the path, only
/// entries whose paths clash with it may be dropped; when no other entry is
/// alike to it, the path holds HEAD's value or nothing; and when no entry
/// clashes, the result is exactly `unstaged_entries`.
pub open spec fn unstaged_as(
    old_entries: Map<Seq<u8>, (u32, Seq<u8>)>,
    new_entries: Map<Seq<u8>, (u32, Seq<u8>)>,
    path: Seq<char>,
    key: Seq<u8>,
    head: Option<(u32, Seq<u8>)>,
) -> bool {
    &&& others_only_dropped(old_entries, new_entries, key)
    &&& !path.contains('\\') ==> unclashing_kept(old_entries, new_entries, key)
    &&& !path.contains('\\') && no_alike_entry(old_entries, key) ==> match head {
        Some(v) => new_entries.contains_key(key) && new_entries[key] == v,
        None => !new_entries.contains_key(key),
    }
    &&& !path.contains('\\') && no_clashing_entry(old_entries, key) ==> new_entries
        == unstaged_entries(old_entries, key, head)
}

/// Unstages `path` in `index`, given what HEAD's tree has at that path:
/// drops the path's entry and, when HEAD has the file, adds HEAD's version
/// back. On success the path has no entry when HEAD has none, and HEAD's
/// mode with the id of HEAD's content when HEAD has one; no other entry is
/// added or changed, and only entries whose paths clash with this one may
/// be dropped. When no entry clashes, every other entry stays.
pub fn unstage_in_index(index: &mut Index, path: &str, head: Option<HeadFile<'_>>) -> (r: Result<
    (),
    TuicrError,
>)
    ensures
        r matches Err(e) ==> e is Git,
        refused_repo_path(path@) ==> r is Err,
        r is Ok && head is Some ==> is_file_or_link_mode(head->0.mode as u32),
        head is None && ordinary_repo_path(path@) ==> r is Ok,
        r is Ok ==> unstaged_as(
            index_entries(*old(index)),
            index_entries(*final(index)),
            path@,
            path.spec_bytes(),
            head_entry_value(head),
        ),
{
    let ghost key = path.spec_bytes();
    let ghost before = index_entries(*index);
    if let Err(e) = index_remove_path(index, path) {
        return Err(TuicrError::Git(e));
    }
    let ghost removed = index_entries(*index);
    assert(no_alike_entry(before, key) ==> no_alike_entry(removed, key));
    match head {
        None => {
            assert(!path@.contains('\\') && no_clashing_entry(before, key) ==> index_entries(
                *index,
            ) =~= before.remove(key)) by {
                if !path@.contains('\\') && no_clashing_entry(before, key) {
                    assert forall|k: Seq<u8>| #[trigger]
                        before.contains_key(k) && k != key implies removed.contains_key(k) by {
                        assert(!paths_clash(k, key));
                    }
                }
            }
            Ok(())
        },
        Some(h) => {
            let entry = head_index_entry(h.mode, h.id, path);
            if let Err(e) = index_add_frombuffer(index, &entry, h.content) {
                return Err(TuicrError::Git(e));
            }
            let ghost after = index_entries(*index);
            assert(!path@.contains('\\') ==> unclashing_kept(before, after, key)) by {
                if !path@.contains('\\') {
                    assert forall|k: Seq<u8>| #[trigger]
                        before.contains_key(k) && !paths_clash(k, key) implies after.contains_key(k)
                        && after[k] == before[k] by {
                        assert(!paths_alike(k, key));
                        assert(removed.contains_key(k));
                    }
                }
            }
            assert(!path@.contains('\\') && no_clashing_entry(before, key) ==> after
                =~= before.insert(key, (h.mode as u32, git_blob_id(h.content@)))) by {
                if !path@.contains('\\') && no_clashing_entry(before, key) {
                    assert forall|k: Seq<u8>| #[trigger]
                        before.contains_key(k) && k != key implies after.contains_key(k) by {
                        assert(!paths_clash(k, key));
                    }
                }
            }
            Ok(())
        },
    }
}

/// Unstaging a path again, with the same HEAD, changes nothing more: when
/// no entry clashes with the path, two unstagings in a row leave the
/// entries as the first one left them.
pub proof fn law_unstage_twice(
    first: Map<Seq<u8>, (u32, Seq<u8>)>,
    second: Map<Seq<u8>, (u32, Seq<u8>)>,
    third: Map<Seq<u8>, (u32, Seq<u8>)>,
    path: Seq<char>,
    key: Seq<u8>,
    head: Option<(u32, Seq<u8>)>,
)
    requires
        unstaged_as(first, second, path, key, head),
        unstaged_as(second, third, path, key, head),
        !path.contains('\\'),
        no_clashing_entry(first, key),
    ensures
        third == second,
{
    assert forall|k: Seq<u8>| #[trigger] second.contains_key(k) && k != key implies !paths_clash(
        k,
        key,
    ) by {
        assert(first.contains_key(k));
    }
    assert(unstaged_entries(second, key, head) =~= second);
}

/// What looking HEAD's file up gave: the tree entry's mode and id, and the
/// content of the blob found for that id, or why none was found.
pub struct HeadLookup<'a> {
    pub mode: i32,
    pub id: Oid,
    pub blob: Result<&'a [u8], git2::Error>,
}

/// The entry value that a HEAD lookup gives: HEAD's mode and the id of the
/// blob's content; none when HEAD has no such file (or its blob was not
/// found).
pub open spec fn lookup_entry_value(head: Option<HeadLookup<'_>>) -> Option<(u32, Seq<u8>)> {
    match head {
        Some(h) => match h.blob {
            Ok(c) => Some((h.mode as u32, git_blob_id(c@))),
            Err(_) => None,
        },
        None => None,
    }
}

/// Unstages `path` in `index`, given what looking the path up in HEAD gave
/// (`None` when HEAD, its tree or the path in it could not be read). When
/// the blob of HEAD's file could not be found, that error is the result and
/// the index is left as it was; otherwise this is `unstage_in_index` with
/// HEAD's mode, id and content.
pub fn unstage_with_head(index: &mut Index, path: &str, head: Option<HeadLookup<'_>>) -> (r:
    Result<(), TuicrError>)
    ensures
        r matches Err(e) ==> e is Git,
        refused_repo_path(path@) ==> r is Err,
        head is None && ordinary_repo_path(path@) ==> r is Ok,
        head matches Some(h) ==> (h.blob matches Err(e) ==> r == Err::<(), TuicrError>(
            TuicrError::Git(e),
        ) && *final(index) == *old(index)),
        r is Ok && head is Some ==> is_file_or_link_mode(head->0.mode as u32),
        r is Ok ==> unstaged_as(
            index_entries(*old(index)),
            index_entries(*final(index)),
            path@,
            path.spec_bytes(),
            lookup_entry_value(head),
        ),
{
    match head {
        None => unstage_in_index(index, path, None),
        Some(h) => match h.blob {
            Ok(content) => unstage_in_index(
                index,
                path,
                Some(HeadFile { mode: h.mode, id: h.id, content }),
            ),
            Err(e) => Err(TuicrError::Git(e)),
        },
    }
}

/// Unstages a file, as `git restore --staged -- path` does: drops its
/// index entry and, when HEAD's tree has the file, puts HEAD's version back
/// in the index (see `unstage_in_index`); then writes the index. An
/// untracked file, or a repository whose HEAD is unborn, is left with no
/// entry. A path that is not relative to the working directory (see
/// `refused_repo_path`) is a git error.
pub fn unstage_file(repo: &Repository, path: &str) -> (r: Result<(), TuicrError>)
    ensures
        r matches Err(e) ==> e is Git,
        refused_repo_path(path@) ==> r is Err,
{
    let mut index = match repo_index(repo) {
        Ok(index) => index,
        Err(e) => return Err(TuicrError::Git(e)),
    };
    let mut found: Option<(i32, Oid)> = None;
    if let Ok(head) = repo_head(repo) {
        if let Ok(head_tree) = reference_peel_to_tree(&head) {
            if let Ok(tree_entry) = tree_get_path(&head_tree, path) {
                found = Some((tree_entry_filemode(&tree_entry), tree_entry_id(&tree_entry)));
            }
        }
    }
    let result = match found {
        None => unstage_with_head(&mut index, path, None),
        Some((mode, id)) => match repo_find_blob(repo, id) {
            Ok(blob) => unstage_with_head(
                &mut index,
                path,
                Some(HeadLookup { mode, id, blob: Ok(blob_content(&blob)) }),
            ),
            Err(e) => unstage_with_head(&mut index, path, Some(HeadLookup { mode, id, blob: Err(e) })),
        },
    };
    if let Err(e) = result {
        return Err(e);
    }
    if let Err(e) = index_write(&mut index) {
        return Err(TuicrError::Git(e));
    }
    Ok(())
}

} // verus!
