//! Path handling and directory lookups shared by the dispatched commands:
//! splitting a slash-separated path into tokens, walking the directory store
//! along such tokens, and flattening a directory listing into the response
//! shape handed back across the boundary.

use vstd::prelude::*;

use crate::client::Client;
use crate::errors::FfiError;
use crate::nfs::first_sub_dir_from;
use crate::nfs::AccessLevel;
use crate::nfs::DirectoryKey;
use crate::nfs::DirectoryListing;
use crate::nfs::DirectoryMetadata;
use crate::nfs::DirectoryStore;
use crate::nfs::FileMetadata;
use crate::serialisation::b64_encode;
use crate::serialisation::b64_of;

verus! {

use vstd::string::StrSliceExecFns;
use vstd::string::StringExecFns;

/// Tokens of `s` split at every `/`, with `cur` the token being read;
/// every token is kept, the empty ones included.
pub open spec fn split_acc(s: Seq<char>, cur: Seq<char>) -> Seq<Seq<char>>
    decreases s.len(),
{
    if s.len() == 0 {
        seq![cur]
    } else if s[0] == '/' {
        seq![cur] + split_acc(s.drop_first(), Seq::<char>::empty())
    } else {
        split_acc(s.drop_first(), cur.push(s[0]))
    }
}

/// The same tokens with the empty ones removed.
pub open spec fn drop_empty_tokens(ts: Seq<Seq<char>>) -> Seq<Seq<char>>
    decreases ts.len(),
{
    if ts.len() == 0 {
        Seq::empty()
    } else {
        let rest = drop_empty_tokens(ts.drop_last());
        if ts.last().len() != 0 {
            rest.push(ts.last())
        } else {
            rest
        }
    }
}

/// What tokenising a path yields: all slash-separated pieces, keeping or
/// dropping the empty ones.
pub open spec fn spec_tokenise(s: Seq<char>, keep_empty: bool) -> Seq<Seq<char>> {
    if keep_empty {
        split_acc(s, Seq::empty())
    } else {
        drop_empty_tokens(split_acc(s, Seq::empty()))
    }
}

/// Splits `path` at every `/` into owned tokens; empty tokens are kept only
/// when `keep_empty_splits` is set.
pub fn tokenise_path(path: &str, keep_empty_splits: bool) -> (r: Vec<String>)
    ensures
        r.deep_view() == spec_tokenise(path@, keep_empty_splits),
{
    let n = path.unicode_len();
    let mut raw: Vec<String> = Vec::new();
    let mut start: usize = 0;
    let mut i: usize = 0;
    proof {
        assert(path@.subrange(0, n as int) =~= path@);
        assert(path@.subrange(0, 0) =~= Seq::<char>::empty());
        assert(raw.deep_view() =~= Seq::<Seq<char>>::empty());
        assert(raw.deep_view() + split_acc(path@, Seq::empty()) =~= split_acc(
            path@,
            Seq::empty(),
        ));
    }
    while i < n
        invariant
            n == path@.len(),
            start <= i <= n,
            split_acc(path@, Seq::empty()) == raw.deep_view() + split_acc(
                path@.subrange(i as int, n as int),
                path@.subrange(start as int, i as int),
            ),
        decreases n - i,
    {
        let c = path.get_char(i);
        if c == '/' {
            let tok = String::from_str(path.substring_char(start, i));
            let ghost old_raw = raw.deep_view();
            raw.push(tok);
            proof {
                let rem = path@.subrange(i as int, n as int);
                assert(rem.len() > 0);
                assert(rem[0] == path@[i as int]);
                assert(rem.drop_first() =~= path@.subrange(i + 1, n as int));
                assert(split_acc(rem, path@.subrange(start as int, i as int)) == seq![
                    path@.subrange(start as int, i as int),
                ] + split_acc(rem.drop_first(), Seq::<char>::empty()));
                assert(raw.deep_view() =~= old_raw.push(path@.subrange(start as int, i as int)));
                assert(path@.subrange(i + 1, i + 1) =~= Seq::<char>::empty());
            }
            start = i + 1;
        } else {
            proof {
                let rem = path@.subrange(i as int, n as int);
                assert(rem.len() > 0);
                assert(rem[0] == path@[i as int]);
                assert(rem.drop_first() =~= path@.subrange(i + 1, n as int));
                assert(path@.subrange(start as int, i as int).push(path@[i as int])
                    =~= path@.subrange(start as int, i + 1));
            }
        }
        i += 1;
    }
    let tok = String::from_str(path.substring_char(start, n));
    let ghost old_raw = raw.deep_view();
    raw.push(tok);
    proof {
        assert(path@.subrange(n as int, n as int).len() == 0);
        assert(split_acc(path@.subrange(n as int, n as int), path@.subrange(start as int, n as int))
            == seq![path@.subrange(start as int, n as int)]);
        assert(raw.deep_view() =~= old_raw.push(path@.subrange(start as int, n as int)));
        assert(raw.deep_view() =~= split_acc(path@, Seq::empty()));
    }
    if keep_empty_splits {
        return raw;
    }
    let m = raw.len();
    let mut out: Vec<String> = Vec::new();
    let mut k: usize = 0;
    proof {
        assert(raw.deep_view().subrange(0, 0) =~= Seq::<Seq<char>>::empty());
        assert(out.deep_view() =~= Seq::<Seq<char>>::empty());
    }
    while k < m
        invariant
            m == raw@.len(),
            k <= m,
            raw.deep_view() == split_acc(path@, Seq::empty()),
            out.deep_view() == drop_empty_tokens(raw.deep_view().subrange(0, k as int)),
        decreases m - k,
    {
        let ghost old_out = out.deep_view();
        proof {
            let pre = raw.deep_view().subrange(0, k + 1);
            assert(pre.drop_last() =~= raw.deep_view().subrange(0, k as int));
            assert(pre.last() == raw.deep_view()[k as int]);
        }
        if !raw[k].as_str().is_empty() {
            let tok = raw[k].clone();
            out.push(tok);
            proof {
                assert(out.deep_view() =~= old_out.push(raw.deep_view()[k as int]));
            }
        }
        k += 1;
    }
    proof {
        assert(raw.deep_view().subrange(0, m as int) =~= raw.deep_view());
    }
    out
}

/// Where a walk from directory `cur` along `tokens` ends: the position of
/// the final directory in the store, or `None` as soon as a token names no
/// sub-directory.  Each step follows the first sub-directory entry carrying
/// the token's name.
pub open spec fn spec_walk(store: DirectoryStore, cur: int, tokens: Seq<Seq<char>>) -> Option<int>
    decreases tokens.len(),
{
    if tokens.len() == 0 {
        Some(cur)
    } else {
        let entries = store.dirs@[cur].sub_directories@;
        let f = first_sub_dir_from(entries, tokens[0], 0);
        if f == -1 {
            None
        } else {
            spec_walk(store, entries[f].key.id as int, tokens.drop_first())
        }
    }
}

/// Walks from `starting_directory` (the user root when absent) along
/// `tokens` and returns the listing the walk ends at.  A token that names no
/// sub-directory yields `PathNotFound`; a starting key absent from the store
/// yields the subsystem's `DirectoryNotFound`.
pub fn get_final_subdirectory<'a>(
    client: &'a Client,
    tokens: &Vec<String>,
    starting_directory: Option<&DirectoryKey>,
) -> (r: Result<&'a DirectoryListing, FfiError>)
    requires
        client.wf(),
    ensures
        match r {
            Ok(l) => {
                &&& (starting_directory matches Some(k) ==> client.store.has_key(*k))
                &&& {
                    let s = (match starting_directory {
                        Some(k) => k.id as int,
                        None => 0,
                    });
                    let w = spec_walk(client.store, s, tokens.deep_view());
                    w is Some && 0 <= w.unwrap() < client.store.dirs@.len() && *l
                        == client.store.dirs@[w.unwrap()]
                }
            },
            Err(e) => match starting_directory {
                Some(k) if !client.store.has_key(*k) => e == FfiError::NfsError(
                    crate::errors::NfsError::DirectoryNotFound,
                ),
                _ => {
                    let s = (match starting_directory {
                        Some(k) => k.id as int,
                        None => 0,
                    });
                    &&& spec_walk(client.store, s, tokens.deep_view()) is None
                    &&& e == FfiError::PathNotFound
                },
            },
        },
{
    let mut cur: usize = match starting_directory {
        Some(directory_key) => {
            match client.store.get(directory_key) {
                Ok(_) => {
                    let n_dirs = client.store.dirs.len();
                    proof {
                        assert(n_dirs == client.store.dirs@.len());
                        assert(directory_key.id < client.store.dirs@.len());
                    }
                    directory_key.id as usize
                },
                Err(e) => {
                    return Err(e);
                },
            }
        },
        None => 0,
    };
    let ghost s0 = cur as int;
    let n = tokens.len();
    let mut t: usize = 0;
    proof {
        assert(tokens.deep_view().subrange(0, n as int) =~= tokens.deep_view());
    }
    while t < n
        invariant
            client.wf(),
            n == tokens@.len(),
            n == tokens.deep_view().len(),
            t <= n,
            cur < client.store.dirs@.len(),
            (starting_directory matches Some(k) ==> client.store.has_key(*k) && s0
                == k.id as int),
            (starting_directory is None ==> s0 == 0),
            spec_walk(client.store, s0, tokens.deep_view()) == spec_walk(
                client.store,
                cur as int,
                tokens.deep_view().subrange(t as int, n as int),
            ),
        decreases n - t,
    {
        let ghost rem = tokens.deep_view().subrange(t as int, n as int);
        proof {
            assert(rem.len() > 0);
            assert(rem[0] == tokens.deep_view()[t as int]);
            assert(tokens.deep_view()[t as int] == tokens@[t as int]@);
            assert(rem.drop_first() =~= tokens.deep_view().subrange(t + 1, n as int));
        }
        let listing = &client.store.dirs[cur];
        match listing.find_sub_directory(&tokens[t]) {
            Some(entry) => {
                let next_id = entry.key.id;
                proof {
                    assert(client.store.dirs@[cur as int].sub_directories@[first_sub_dir_from(
                        client.store.dirs@[cur as int].sub_directories@,
                        tokens.deep_view()[t as int],
                        0,
                    )].key.id < client.store.dirs@.len());
                    assert(next_id < client.store.dirs@.len());
                }
                let n_dirs = client.store.dirs.len();
                proof {
                    assert(n_dirs == client.store.dirs@.len());
                }
                cur = next_id as usize;
            },
            None => {
                proof {
                    assert(spec_walk(client.store, cur as int, rem) is None);
                    assert(spec_walk(client.store, s0, tokens.deep_view()) is None);
                }
                return Err(FfiError::PathNotFound);
            },
        }
        t += 1;
    }
    proof {
        assert(tokens.deep_view().subrange(n as int, n as int).len() == 0);
    }
    Ok(&client.store.dirs[cur])
}

/// Boundary shape of one directory's descriptive data.
pub struct DirectoryInfo {
    /// The directory's name.
    pub name: String,
    /// Whether the directory is private to its owner.
    pub is_private: bool,
    /// Whether earlier versions are kept.
    pub is_versioned: bool,
    /// The caller-supplied metadata bytes, base64-encoded.
    pub user_metadata: String,
    /// Seconds part of the creation time.
    pub creation_time_sec: i64,
    /// Nanoseconds part of the creation time.
    pub creation_time_nsec: i64,
    /// Seconds part of the last modification time.
    pub modification_time_sec: i64,
    /// Nanoseconds part of the last modification time.
    pub modification_time_nsec: i64,
}

/// Boundary shape of one file's descriptive data.
pub struct FileInfo {
    /// The file's name.
    pub name: String,
    /// The file's size in bytes.
    pub size: i64,
    /// The caller-supplied metadata bytes, base64-encoded.
    pub user_metadata: String,
    /// Seconds part of the creation time.
    pub creation_time_sec: i64,
    /// Nanoseconds part of the creation time.
    pub creation_time_nsec: i64,
    /// Seconds part of the last modification time.
    pub modification_time_sec: i64,
    /// Nanoseconds part of the last modification time.
    pub modification_time_nsec: i64,
}

/// Boundary shape of a whole directory listing.
pub struct GetDirResponse {
    /// The directory's own descriptive data.
    pub info: DirectoryInfo,
    /// The files inside the directory.
    pub files: Vec<FileInfo>,
    /// The directories immediately below it.
    pub sub_directories: Vec<DirectoryInfo>,
}

/// How a `DirectoryInfo` reflects a directory's metadata.
pub open spec fn dir_info_matches(info: DirectoryInfo, md: DirectoryMetadata) -> bool {
    &&& info.name@ == md.name@
    &&& info.is_private == (md.key.access_level is Private)
    &&& info.is_versioned == md.key.versioned
    &&& info.user_metadata@ == b64_of(md.user_metadata@)
    &&& info.creation_time_sec == md.created_time_sec
    &&& info.creation_time_nsec == md.created_time_nsec
    &&& info.modification_time_sec == md.modified_time_sec
    &&& info.modification_time_nsec == md.modified_time_nsec
}

/// How a `FileInfo` reflects a file's metadata and size.
pub open spec fn file_info_matches(info: FileInfo, md: FileMetadata, size: int) -> bool {
    &&& info.name@ == md.name@
    &&& info.size == size
    &&& info.user_metadata@ == b64_of(md.user_metadata@)
    &&& info.creation_time_sec == md.created_time_sec
    &&& info.creation_time_nsec == md.created_time_nsec
    &&& info.modification_time_sec == md.modified_time_sec
    &&& info.modification_time_nsec == md.modified_time_nsec
}

/// How a whole response reflects a listing.
pub open spec fn dir_response_matches(r: GetDirResponse, l: DirectoryListing) -> bool {
    &&& dir_info_matches(r.info, l.metadata)
    &&& r.sub_directories@.len() == l.sub_directories@.len()
    &&& forall|i: int|
        0 <= i < l.sub_directories@.len() ==> dir_info_matches(
            #[trigger] r.sub_directories@[i],
            l.sub_directories@[i],
        )
    &&& r.files@.len() == l.files@.len()
    &&& forall|i: int|
        0 <= i < l.files@.len() ==> file_info_matches(
            #[trigger] r.files@[i],
            l.files@[i].metadata,
            l.files@[i].content@.len() as int,
        )
}

/// Flattens one directory's metadata into its boundary shape.
fn get_directory_info(dir_metadata: &DirectoryMetadata) -> (r: DirectoryInfo)
    ensures
        dir_info_matches(r, *dir_metadata),
{
    DirectoryInfo {
        name: dir_metadata.name.clone(),
        is_private: match dir_metadata.key.access_level {
            AccessLevel::Private => true,
            AccessLevel::Public => false,
        },
        is_versioned: dir_metadata.key.versioned,
        user_metadata: b64_encode(&dir_metadata.user_metadata),
        creation_time_sec: dir_metadata.created_time_sec,
        creation_time_nsec: dir_metadata.created_time_nsec,
        modification_time_sec: dir_metadata.modified_time_sec,
        modification_time_nsec: dir_metadata.modified_time_nsec,
    }
}

/// Flattens one file's metadata into its boundary shape.  A length beyond
/// `i64` cannot arise from sizes held in memory.
pub fn get_file_info(file_metadata: &FileMetadata, size: usize) -> (r: FileInfo)
    requires
        size <= i64::MAX,
    ensures
        file_info_matches(r, *file_metadata, size as int),
{
    FileInfo {
        name: file_metadata.name.clone(),
        size: size as i64,
        user_metadata: b64_encode(&file_metadata.user_metadata),
        creation_time_sec: file_metadata.created_time_sec,
        creation_time_nsec: file_metadata.created_time_nsec,
        modification_time_sec: file_metadata.modified_time_sec,
        modification_time_nsec: file_metadata.modified_time_nsec,
    }
}

/// Flattens a whole listing into the response shape handed across the
/// boundary.
pub fn convert_to_dir_response(directory_listing: &DirectoryListing) -> (r: GetDirResponse)
    requires
        forall|i: int|
            0 <= i < directory_listing.files@.len()
                ==> (#[trigger] directory_listing.files@[i]).content@.len() <= i64::MAX,
    ensures
        dir_response_matches(r, *directory_listing),
{
    let dir_info = get_directory_info(&directory_listing.metadata);
    let n_dirs = directory_listing.sub_directories.len();
    let mut sub_dirs: Vec<DirectoryInfo> = Vec::new();
    let mut i: usize = 0;
    while i < n_dirs
        invariant
            n_dirs == directory_listing.sub_directories@.len(),
            i <= n_dirs,
            sub_dirs@.len() == i,
            forall|j: int|
                0 <= j < i ==> dir_info_matches(
                    #[trigger] sub_dirs@[j],
                    directory_listing.sub_directories@[j],
                ),
        decreases n_dirs - i,
    {
        let info = get_directory_info(&directory_listing.sub_directories[i]);
        sub_dirs.push(info);
        i += 1;
    }
    let n_files = directory_listing.files.len();
    let mut files: Vec<FileInfo> = Vec::new();
    let mut k: usize = 0;
    while k < n_files
        invariant
            n_files == directory_listing.files@.len(),
            k <= n_files,
            files@.len() == k,
            forall|j: int|
                0 <= j < directory_listing.files@.len()
                    ==> (#[trigger] directory_listing.files@[j]).content@.len() <= i64::MAX,
            forall|j: int|
                0 <= j < k ==> file_info_matches(
                    #[trigger] files@[j],
                    directory_listing.files@[j].metadata,
                    directory_listing.files@[j].content@.len() as int,
                ),
        decreases n_files - k,
    {
        let file = &directory_listing.files[k];
        let info = get_file_info(&file.metadata, file.content.len());
        files.push(info);
        k += 1;
    }
    GetDirResponse { info: dir_info, files, sub_directories: sub_dirs }
}

/// Fetches the listing a key addresses and flattens it, as the read
/// operation hands it back.
pub fn get_dir_response(client: &Client, directory_key: &DirectoryKey) -> (r: Result<
    GetDirResponse,
    FfiError,
>)
    requires
        client.wf(),
    ensures
        match r {
            Ok(resp) => client.store.has_key(*directory_key) && dir_response_matches(
                resp,
                client.store.dirs@[directory_key.id as int],
            ),
            Err(e) => !client.store.has_key(*directory_key) && e == FfiError::NfsError(
                crate::errors::NfsError::DirectoryNotFound,
            ),
        },
{
    let listing = match client.store.get(directory_key) {
        Ok(l) => l,
        Err(e) => {
            return Err(e);
        },
    };
    Ok(convert_to_dir_response(listing))
}

/// Returns the key of the root's sub-directory called `name`, creating an
/// empty, private, unversioned one on first use.
pub fn find_or_create_root_child(client: &mut Client, name: &String) -> (r: Result<
    DirectoryKey,
    FfiError,
>)
    requires
        old(client).wf(),
    ensures
        final(client).wf(),
        final(client).account == old(client).account,
        final(client).services@ == old(client).services@,
        match r {
            Ok(key) => {
                &&& final(client).store.has_key(key)
                &&& final(client).store.dirs@[key.id as int].metadata.name@ == name@
                &&& final(client).store.dirs@[key.id as int].metadata.key == key
                &&& if old(client).store.dirs@[0].has_sub_dir(name@) {
                    &&& final(client).store == old(client).store
                    &&& 0 <= crate::nfs::first_sub_dir_from(
                        old(client).store.dirs@[0].sub_directories@,
                        name@,
                        0,
                    ) < old(client).store.dirs@[0].sub_directories@.len()
                    &&& key == old(client).store.dirs@[0].sub_directories@[
                        crate::nfs::first_sub_dir_from(
                            old(client).store.dirs@[0].sub_directories@,
                            name@,
                            0,
                        )
                    ].key
                } else {
                    &&& key == (DirectoryKey {
                        id: old(client).store.dirs@.len() as u64,
                        type_tag: 0,
                        versioned: false,
                        access_level: AccessLevel::Private,
                    })
                    &&& crate::nfs::spec_created_under(
                        old(client).store,
                        final(client).store,
                        0,
                        name@,
                        false,
                        AccessLevel::Private,
                    )
                }
            },
            Err(_) => false,
        },
{
    let ghost root_entries = client.store.dirs@[0].sub_directories@;
    let found = match client.store.root().find_sub_directory(name) {
        Some(entry) => Some(*entry.get_key()),
        None => None,
    };
    match found {
        Some(key) => {
            proof {
                let f = first_sub_dir_from(root_entries, name@, 0);
                assert(client.store.dirs@[0].sub_directories@[f].key.id
                    < client.store.dirs@.len());
            }
            Ok(key)
        },
        None => {
            let root_key = DirectoryKey {
                id: 0,
                type_tag: 0,
                versioned: false,
                access_level: AccessLevel::Private,
            };
            match client.store.create_sub_directory(&root_key, name, false, AccessLevel::Private) {
                Ok(key) => Ok(key),
                Err(e) => Err(e),
            }
        },
    }
}

/// Returns the key of the shared drive directory: the root's sub-directory
/// named `SAFEDrive`, created on first use.
pub fn get_safe_drive_key(client: &mut Client) -> (r: Result<DirectoryKey, FfiError>)
    requires
        old(client).wf(),
    ensures
        final(client).wf(),
        final(client).account == old(client).account,
        final(client).services@ == old(client).services@,
        match r {
            Ok(key) => {
                &&& final(client).store.has_key(key)
                &&& final(client).store.dirs@[key.id as int].metadata.name@ == "SAFEDrive"@
                &&& (old(client).store.dirs@[0].has_sub_dir("SAFEDrive"@) ==> final(client).store
                    == old(client).store)
            },
            Err(_) => false,
        },
{
    let name = String::from_str("SAFEDrive");
    find_or_create_root_child(client, &name)
}

} // verus!
