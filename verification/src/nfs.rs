//! Model of the directory/file subsystem that the dispatched commands act
//! on.  The remote directory network is held as plain values: a store of
//! directory listings addressed by the numeric identity inside a
//! `DirectoryKey`.  Drivers fill the store from the real collaborator and
//! read mutations back out of it; every rule about paths, names and keys is
//! verified here.

use vstd::prelude::*;

use crate::errors::{FfiError, NfsError};
use crate::json_support::json_bool_field;
use crate::json_support::json_bool_field_of;
use crate::json_support::json_string_field;
use crate::json_support::json_string_field_of;
use crate::json_support::spec_bool_field_or;
use crate::ParameterPacket;
use crate::ResponseType;

verus! {

use vstd::string::StringExecFns;

/// Whether a directory is readable by everyone or only by its owner.
#[derive(Clone, Copy, Debug, PartialEq, Eq, Structural)]
pub enum AccessLevel {
    /// Readable only with the owner's keys.
    Private,
    /// Readable by everyone.
    Public,
}

/// Self-describing reference to one directory: its numeric identity in the
/// store, the network type tag, and the versioning and access flags.
#[derive(Clone, Copy, Debug, PartialEq, Eq, Structural)]
pub struct DirectoryKey {
    /// Identity of the directory inside the store.
    pub id: u64,
    /// Network type tag the directory was stored under.
    pub type_tag: u64,
    /// Whether earlier versions of the directory are kept.
    pub versioned: bool,
    /// Who may read the directory.
    pub access_level: AccessLevel,
}

impl DirectoryKey {
    /// Whether earlier versions of the directory are kept.
    pub fn is_versioned(&self) -> (r: bool)
        ensures
            r == self.versioned,
    {
        self.versioned
    }

    /// Who may read the directory.
    pub fn get_access_level(&self) -> (r: &AccessLevel)
        ensures
            *r == self.access_level,
    {
        &self.access_level
    }
}

/// Descriptive data of one directory as its parent lists it.
pub struct DirectoryMetadata {
    /// Name of the directory inside its parent.
    pub name: String,
    /// Key under which the directory's own listing is stored.
    pub key: DirectoryKey,
    /// Caller-supplied opaque bytes attached to the directory.
    pub user_metadata: Vec<u8>,
    /// Seconds part of the creation time.
    pub created_time_sec: i64,
    /// Nanoseconds part of the creation time.
    pub created_time_nsec: i64,
    /// Seconds part of the last modification time.
    pub modified_time_sec: i64,
    /// Nanoseconds part of the last modification time.
    pub modified_time_nsec: i64,
}

impl DirectoryMetadata {
    /// Name of the directory inside its parent.
    pub fn get_name(&self) -> (r: &String)
        ensures
            r@ == self.name@,
    {
        &self.name
    }

    /// Key under which the directory's own listing is stored.
    pub fn get_key(&self) -> (r: &DirectoryKey)
        ensures
            *r == self.key,
    {
        &self.key
    }
}

impl Clone for DirectoryMetadata {
    /// A clone carries the same name, key, metadata bytes and times.
    fn clone(&self) -> (res: Self)
        ensures
            metadata_eq(*self, res),
    {
        let res = DirectoryMetadata {
            name: self.name.clone(),
            key: self.key,
            user_metadata: self.user_metadata.clone(),
            created_time_sec: self.created_time_sec,
            created_time_nsec: self.created_time_nsec,
            modified_time_sec: self.modified_time_sec,
            modified_time_nsec: self.modified_time_nsec,
        };
        proof {
            assert(res.user_metadata@ =~= self.user_metadata@);
        }
        res
    }
}

/// Descriptive data of one file inside a directory.
pub struct FileMetadata {
    /// Name of the file inside its directory.
    pub name: String,
    /// Caller-supplied opaque bytes attached to the file.
    pub user_metadata: Vec<u8>,
    /// Seconds part of the creation time.
    pub created_time_sec: i64,
    /// Nanoseconds part of the creation time.
    pub created_time_nsec: i64,
    /// Seconds part of the last modification time.
    pub modified_time_sec: i64,
    /// Nanoseconds part of the last modification time.
    pub modified_time_nsec: i64,
}

impl Clone for FileMetadata {
    /// A clone carries the same name, metadata bytes and times.
    fn clone(&self) -> (res: Self)
        ensures
            file_metadata_eq(*self, res),
    {
        let res = FileMetadata {
            name: self.name.clone(),
            user_metadata: self.user_metadata.clone(),
            created_time_sec: self.created_time_sec,
            created_time_nsec: self.created_time_nsec,
            modified_time_sec: self.modified_time_sec,
            modified_time_nsec: self.modified_time_nsec,
        };
        proof {
            assert(res.user_metadata@ =~= self.user_metadata@);
        }
        res
    }
}

/// One file: its metadata and its content bytes.
pub struct File {
    /// Descriptive data of the file.
    pub metadata: FileMetadata,
    /// The file's bytes.
    pub content: Vec<u8>,
}

impl File {
    /// Name of the file inside its directory.
    pub fn get_name(&self) -> (r: &String)
        ensures
            r@ == self.metadata.name@,
    {
        &self.metadata.name
    }

    /// Descriptive data of the file.
    pub fn get_metadata(&self) -> (r: &FileMetadata)
        ensures
            *r == self.metadata,
    {
        &self.metadata
    }
}

impl Clone for File {
    /// A clone carries the same metadata and the same bytes.
    fn clone(&self) -> (res: Self)
        ensures
            file_eq(*self, res),
    {
        let res = File { metadata: self.metadata.clone(), content: self.content.clone() };
        proof {
            assert(res.content@ =~= self.content@);
        }
        res
    }
}

/// One directory: its own metadata, the metadata of its sub-directories and
/// its files.
pub struct DirectoryListing {
    /// The directory's own descriptive data.
    pub metadata: DirectoryMetadata,
    /// The directories immediately below this one.
    pub sub_directories: Vec<DirectoryMetadata>,
    /// The files immediately inside this one.
    pub files: Vec<File>,
}

/// Two metadata values describing the same directory, compared by views.
pub open spec fn metadata_eq(a: DirectoryMetadata, b: DirectoryMetadata) -> bool {
    &&& a.name@ == b.name@
    &&& a.key == b.key
    &&& a.user_metadata@ == b.user_metadata@
    &&& a.created_time_sec == b.created_time_sec
    &&& a.created_time_nsec == b.created_time_nsec
    &&& a.modified_time_sec == b.modified_time_sec
    &&& a.modified_time_nsec == b.modified_time_nsec
}

/// Two metadata values describing the same file, compared by views.
pub open spec fn file_metadata_eq(a: FileMetadata, b: FileMetadata) -> bool {
    &&& a.name@ == b.name@
    &&& a.user_metadata@ == b.user_metadata@
    &&& a.created_time_sec == b.created_time_sec
    &&& a.created_time_nsec == b.created_time_nsec
    &&& a.modified_time_sec == b.modified_time_sec
    &&& a.modified_time_nsec == b.modified_time_nsec
}

/// Two equal files: same metadata and same bytes.
pub open spec fn file_eq(a: File, b: File) -> bool {
    file_metadata_eq(a.metadata, b.metadata) && a.content@ == b.content@
}

/// Two equal listings: same own metadata, same entries, same files.
pub open spec fn listing_eq(a: DirectoryListing, b: DirectoryListing) -> bool {
    &&& metadata_eq(a.metadata, b.metadata)
    &&& a.sub_directories@.len() == b.sub_directories@.len()
    &&& forall|i: int|
        0 <= i < a.sub_directories@.len() ==> metadata_eq(
            #[trigger] a.sub_directories@[i],
            b.sub_directories@[i],
        )
    &&& a.files@.len() == b.files@.len()
    &&& forall|i: int| 0 <= i < a.files@.len() ==> file_eq(#[trigger] a.files@[i], b.files@[i])
}

/// Two equal stores: the same listings throughout.
pub open spec fn store_eq(a: DirectoryStore, b: DirectoryStore) -> bool {
    &&& a.dirs@.len() == b.dirs@.len()
    &&& forall|i: int| 0 <= i < a.dirs@.len() ==> listing_eq(#[trigger] a.dirs@[i], b.dirs@[i])
}

impl Clone for DirectoryListing {
    /// A clone lists the same directory: same metadata, entries and files.
    fn clone(&self) -> (res: Self)
        ensures
            listing_eq(*self, res),
    {
        let res = DirectoryListing {
            metadata: self.metadata.clone(),
            sub_directories: self.sub_directories.clone(),
            files: self.files.clone(),
        };
        proof {
            assert forall|i: int| 0 <= i < self.sub_directories@.len() implies metadata_eq(
                #[trigger] self.sub_directories@[i],
                res.sub_directories@[i],
            ) by {
                assert(cloned::<DirectoryMetadata>(
                    self.sub_directories@[i],
                    res.sub_directories@[i],
                ));
            }
            assert forall|i: int| 0 <= i < self.files@.len() implies file_eq(
                #[trigger] self.files@[i],
                res.files@[i],
            ) by {
                assert(cloned::<File>(self.files@[i], res.files@[i]));
            }
        }
        res
    }
}

impl Clone for DirectoryStore {
    /// A clone holds the same listings throughout.
    fn clone(&self) -> (res: Self)
        ensures
            store_eq(*self, res),
    {
        let res = DirectoryStore { dirs: self.dirs.clone() };
        proof {
            assert forall|i: int| 0 <= i < self.dirs@.len() implies listing_eq(
                #[trigger] self.dirs@[i],
                res.dirs@[i],
            ) by {
                assert(cloned::<DirectoryListing>(self.dirs@[i], res.dirs@[i]));
            }
        }
        res
    }
}

/// Position of the first entry at or after `from` whose name is `name`, or
/// -1 where there is none.
pub open spec fn first_sub_dir_from(
    entries: Seq<DirectoryMetadata>,
    name: Seq<char>,
    from: int,
) -> int
    decreases entries.len() - from,
{
    if from < 0 || from >= entries.len() {
        -1
    } else if entries[from].name@ == name {
        from
    } else {
        first_sub_dir_from(entries, name, from + 1)
    }
}

/// Position of the first file at or after `from` whose name is `name`, or
/// -1 where there is none.
pub open spec fn first_file_from(files: Seq<File>, name: Seq<char>, from: int) -> int
    decreases files.len() - from,
{
    if from < 0 || from >= files.len() {
        -1
    } else if files[from].metadata.name@ == name {
        from
    } else {
        first_file_from(files, name, from + 1)
    }
}

impl DirectoryListing {
    /// Whether some immediate sub-directory carries this name.
    pub open spec fn has_sub_dir(self, name: Seq<char>) -> bool {
        exists|j: int|
            0 <= j < self.sub_directories@.len() && self.sub_directories@[j].name@ == name
    }

    /// Whether some file in this directory carries this name.
    pub open spec fn has_file(self, name: Seq<char>) -> bool {
        exists|j: int| 0 <= j < self.files@.len() && self.files@[j].metadata.name@ == name
    }

    /// The directory's own descriptive data.
    pub fn get_metadata(&self) -> (r: &DirectoryMetadata)
        ensures
            *r == self.metadata,
    {
        &self.metadata
    }

    /// The directories immediately below this one.
    pub fn get_sub_directories(&self) -> (r: &Vec<DirectoryMetadata>)
        ensures
            r@ == self.sub_directories@,
    {
        &self.sub_directories
    }

    /// The files immediately inside this one.
    pub fn get_files(&self) -> (r: &Vec<File>)
        ensures
            r@ == self.files@,
    {
        &self.files
    }

    /// Finds the first file with the given name, if any.
    pub fn find_file<'a>(&'a self, name: &String) -> (r: Option<&'a File>)
        ensures
            match r {
                Some(f) => {
                    &&& self.has_file(name@)
                    &&& 0 <= first_file_from(self.files@, name@, 0) < self.files@.len()
                    &&& *f == self.files@[first_file_from(self.files@, name@, 0)]
                    &&& f.metadata.name@ == name@
                },
                None => {
                    &&& !self.has_file(name@)
                    &&& first_file_from(self.files@, name@, 0) == -1
                },
            },
    {
        let n = self.files.len();
        let mut j: usize = 0;
        while j < n
            invariant
                n == self.files@.len(),
                j <= n,
                forall|k: int| 0 <= k < j ==> self.files@[k].metadata.name@ != name@,
                first_file_from(self.files@, name@, 0) == first_file_from(
                    self.files@,
                    name@,
                    j as int,
                ),
            decreases n - j,
        {
            if self.files[j].metadata.name.eq(name) {
                return Some(&self.files[j]);
            }
            j += 1;
        }
        None
    }

    /// Finds the first immediate sub-directory with the given name, if any.
    pub fn find_sub_directory<'a>(&'a self, name: &String) -> (r: Option<&'a DirectoryMetadata>)
        ensures
            match r {
                Some(m) => {
                    &&& self.has_sub_dir(name@)
                    &&& 0 <= first_sub_dir_from(self.sub_directories@, name@, 0)
                        < self.sub_directories@.len()
                    &&& *m == self.sub_directories@[first_sub_dir_from(
                        self.sub_directories@,
                        name@,
                        0,
                    )]
                    &&& m.name@ == name@
                },
                None => {
                    &&& !self.has_sub_dir(name@)
                    &&& first_sub_dir_from(self.sub_directories@, name@, 0) == -1
                },
            },
    {
        let n = self.sub_directories.len();
        let mut j: usize = 0;
        while j < n
            invariant
                n == self.sub_directories@.len(),
                j <= n,
                forall|k: int| 0 <= k < j ==> self.sub_directories@[k].name@ != name@,
                first_sub_dir_from(self.sub_directories@, name@, 0) == first_sub_dir_from(
                    self.sub_directories@,
                    name@,
                    j as int,
                ),
            decreases n - j,
        {
            if self.sub_directories[j].name.eq(name) {
                return Some(&self.sub_directories[j]);
            }
            j += 1;
        }
        None
    }
}

/// The store of directory listings: the crate's plain-value stand-in for the
/// remote directory network.  The listing at position `i` is the directory
/// whose key carries identity `i`; position 0 is the user's root directory.
pub struct DirectoryStore {
    /// All listings, addressed by the identity in their keys.
    pub dirs: Vec<DirectoryListing>,
}

impl DirectoryStore {
    /// Well-formedness: the root exists, every listing sits at the position
    /// its key names, and every sub-directory entry points inside the store.
    pub open spec fn wf(self) -> bool {
        &&& self.dirs@.len() >= 1
        &&& forall|i: int|
            0 <= i < self.dirs@.len() ==> (#[trigger] self.dirs@[i]).metadata.key.id == i
        &&& forall|i: int, j: int|
            0 <= i < self.dirs@.len() && 0 <= j < (#[trigger] self.dirs@[i]).sub_directories@.len()
                ==> {
                let entry = #[trigger] self.dirs@[i].sub_directories@[j];
                &&& entry.key.id < self.dirs@.len()
                &&& self.dirs@[entry.key.id as int].metadata.key == entry.key
                &&& self.dirs@[entry.key.id as int].metadata.name@ == entry.name@
            }
        &&& forall|i: int, j: int|
            0 <= i < self.dirs@.len() && 0 <= j < (#[trigger] self.dirs@[i]).files@.len()
                ==> (#[trigger] self.dirs@[i].files@[j]).content@.len() <= i64::MAX
    }

    /// Whether this key addresses a directory present in the store.
    pub open spec fn has_key(self, key: DirectoryKey) -> bool {
        key.id < self.dirs@.len()
    }

    /// A fresh store holding only an empty root directory.
    pub fn new_root() -> (r: DirectoryStore)
        ensures
            r.wf(),
            r.dirs@.len() == 1,
            r.dirs@[0].sub_directories@.len() == 0,
            r.dirs@[0].files@.len() == 0,
    {
        let root = DirectoryListing {
            metadata: DirectoryMetadata {
                name: String::new(),
                key: DirectoryKey {
                    id: 0,
                    type_tag: 0,
                    versioned: false,
                    access_level: AccessLevel::Private,
                },
                user_metadata: Vec::new(),
                created_time_sec: 0,
                created_time_nsec: 0,
                modified_time_sec: 0,
                modified_time_nsec: 0,
            },
            sub_directories: Vec::new(),
            files: Vec::new(),
        };
        let mut dirs: Vec<DirectoryListing> = Vec::new();
        dirs.push(root);
        DirectoryStore { dirs }
    }

    /// The root directory's listing.
    pub fn root<'a>(&'a self) -> (r: &'a DirectoryListing)
        requires
            self.wf(),
        ensures
            *r == self.dirs@[0],
    {
        &self.dirs[0]
    }

    /// Fetches the listing a key addresses, as the directory helper of the
    /// collaborating subsystem would.
    pub fn get<'a>(&'a self, directory_key: &DirectoryKey) -> (r: Result<
        &'a DirectoryListing,
        FfiError,
    >)
        ensures
            match r {
                Ok(l) => self.has_key(*directory_key) && *l == self.dirs@[directory_key.id as int],
                Err(e) => !self.has_key(*directory_key) && e == FfiError::NfsError(
                    NfsError::DirectoryNotFound,
                ),
            },
    {
        if directory_key.id < self.dirs.len() as u64 {
            Ok(&self.dirs[directory_key.id as usize])
        } else {
            Err(FfiError::NfsError(NfsError::DirectoryNotFound))
        }
    }

    /// Creates an empty directory with the given name below the directory
    /// that `parent_key` addresses, and returns the new directory's key.
    /// Fails with `DirectoryNotFound` when the parent is absent and with
    /// `DirectoryAlreadyExistsWithSameName` when the name is taken.
    pub fn create_sub_directory(
        &mut self,
        parent_key: &DirectoryKey,
        name: &String,
        versioned: bool,
        access_level: AccessLevel,
    ) -> (r: Result<DirectoryKey, FfiError>)
        requires
            old(self).wf(),
        ensures
            final(self).wf(),
            match r {
                Ok(key) => {
                    &&& old(self).has_key(*parent_key)
                    &&& !old(self).dirs@[parent_key.id as int].has_sub_dir(name@)
                    &&& key.id == old(self).dirs@.len()
                    &&& key.type_tag == 0
                    &&& key.versioned == versioned
                    &&& key.access_level == access_level
                    &&& final(self).dirs@.len() == old(self).dirs@.len() + 1
                    &&& final(self).dirs@[key.id as int].metadata.name@ == name@
                    &&& final(self).dirs@[key.id as int].metadata.key == key
                    &&& final(self).dirs@[key.id as int].sub_directories@.len() == 0
                    &&& final(self).dirs@[key.id as int].files@.len() == 0
                    &&& final(self).dirs@[parent_key.id as int].sub_directories@.len() == old(
                        self,
                    ).dirs@[parent_key.id as int].sub_directories@.len() + 1
                    &&& forall|j: int|
                        0 <= j < old(self).dirs@[parent_key.id as int].sub_directories@.len()
                            ==> final(self).dirs@[parent_key.id as int].sub_directories@[j] == old(
                            self,
                        ).dirs@[parent_key.id as int].sub_directories@[j]
                    &&& final(self).dirs@[parent_key.id as int].sub_directories@.last().name@
                        == name@
                    &&& final(self).dirs@[parent_key.id as int].sub_directories@.last().key == key
                    &&& final(self).dirs@[parent_key.id as int].metadata == old(
                        self,
                    ).dirs@[parent_key.id as int].metadata
                    &&& final(self).dirs@[parent_key.id as int].files@ == old(
                        self,
                    ).dirs@[parent_key.id as int].files@
                    &&& final(self).dirs@[parent_key.id as int].has_sub_dir(name@)
                    &&& forall|i: int|
                        0 <= i < old(self).dirs@.len() && i != parent_key.id as int ==> final(self).dirs@[i] == old(self).dirs@[i]
                },
                Err(e) => {
                    &&& final(self).dirs@ == old(self).dirs@
                    &&& !old(self).has_key(*parent_key) || old(self).dirs@[parent_key.id as int].has_sub_dir(name@)
                    &&& (e == FfiError::NfsError(NfsError::DirectoryNotFound) <==> !old(self).has_key(*parent_key))
                    &&& (e == FfiError::NfsError(NfsError::DirectoryAlreadyExistsWithSameName)
                        <==> old(self).has_key(*parent_key) && old(self).dirs@[parent_key.id as int].has_sub_dir(name@))
                },
            },
    {
        if parent_key.id >= self.dirs.len() as u64 {
            return Err(FfiError::NfsError(NfsError::DirectoryNotFound));
        }
        let parent_idx = parent_key.id as usize;
        if self.dirs[parent_idx].find_sub_directory(name).is_some() {
            return Err(FfiError::NfsError(NfsError::DirectoryAlreadyExistsWithSameName));
        }
        let new_id = self.dirs.len() as u64;
        let key = DirectoryKey { id: new_id, type_tag: 0, versioned, access_level };
        let metadata = DirectoryMetadata {
            name: name.clone(),
            key,
            user_metadata: Vec::new(),
            created_time_sec: 0,
            created_time_nsec: 0,
            modified_time_sec: 0,
            modified_time_nsec: 0,
        };
        let entry = DirectoryMetadata {
            name: name.clone(),
            key,
            user_metadata: Vec::new(),
            created_time_sec: 0,
            created_time_nsec: 0,
            modified_time_sec: 0,
            modified_time_nsec: 0,
        };
        let listing = DirectoryListing {
            metadata,
            sub_directories: Vec::new(),
            files: Vec::new(),
        };
        self.dirs.push(listing);
        let ghost pushed = self.dirs@;
        let parent = &mut self.dirs[parent_idx];
        parent.sub_directories.push(entry);
        proof {
            assert(self.dirs@ == pushed.update(
                parent_idx as int,
                self.dirs@[parent_idx as int],
            ));
            assert(self.dirs@[parent_idx as int].sub_directories@.last().name@ == name@);
            assert(self.dirs@[parent_idx as int].has_sub_dir(name@)) by {
                let j = self.dirs@[parent_idx as int].sub_directories@.len() - 1;
                assert(self.dirs@[parent_idx as int].sub_directories@[j].name@ == name@);
            }
        }
        Ok(key)
    }

    /// Adds a file with the given name and content to the directory that
    /// `parent_key` addresses.  Fails with `DirectoryNotFound` when the
    /// parent is absent and with `FileAlreadyExistsWithSameName` when the
    /// name is taken.
    pub fn add_file(&mut self, parent_key: &DirectoryKey, name: &String, content: Vec<u8>) -> (r:
        Result<(), FfiError>)
        requires
            old(self).wf(),
            content@.len() <= i64::MAX,
        ensures
            final(self).wf(),
            match r {
                Ok(()) => {
                    &&& old(self).has_key(*parent_key)
                    &&& !old(self).dirs@[parent_key.id as int].has_file(name@)
                    &&& final(self).dirs@.len() == old(self).dirs@.len()
                    &&& final(self).dirs@[parent_key.id as int].files@ == old(self).dirs@[parent_key.id as int].files@.push(
                        final(self).dirs@[parent_key.id as int].files@.last(),
                    )
                    &&& final(self).dirs@[parent_key.id as int].files@.last().metadata.name@
                        == name@
                    &&& final(self).dirs@[parent_key.id as int].files@.last().content@ == content@
                    &&& forall|i: int|
                        0 <= i < old(self).dirs@.len() && i != parent_key.id as int ==> final(self).dirs@[i] == old(self).dirs@[i]
                },
                Err(e) => {
                    &&& final(self).dirs@ == old(self).dirs@
                    &&& !old(self).has_key(*parent_key) || old(self).dirs@[parent_key.id as int].has_file(name@)
                    &&& (e == FfiError::NfsError(NfsError::DirectoryNotFound) <==> !old(self).has_key(*parent_key))
                    &&& (e == FfiError::NfsError(NfsError::FileAlreadyExistsWithSameName) <==> old(self).has_key(*parent_key) && old(self).dirs@[parent_key.id as int].has_file(
                        name@,
                    ))
                },
            },
    {
        if parent_key.id >= self.dirs.len() as u64 {
            return Err(FfiError::NfsError(NfsError::DirectoryNotFound));
        }
        let parent_idx = parent_key.id as usize;
        if self.dirs[parent_idx].find_file(name).is_some() {
            return Err(FfiError::NfsError(NfsError::FileAlreadyExistsWithSameName));
        }
        let ghost before = self.dirs@;
        let file = File {
            metadata: FileMetadata {
                name: name.clone(),
                user_metadata: Vec::new(),
                created_time_sec: 0,
                created_time_nsec: 0,
                modified_time_sec: 0,
                modified_time_nsec: 0,
            },
            content,
        };
        let parent = &mut self.dirs[parent_idx];
        parent.files.push(file);
        proof {
            assert(self.dirs@ == before.update(parent_idx as int, self.dirs@[parent_idx as int]));
        }
        Ok(())
    }
}


/// The directory-location reference an action starts from: the shared
/// drive's for a shared path, the application's root otherwise; `None`
/// stands for the user root.
pub open spec fn spec_start_key(packet: crate::ParameterPacket, is_path_shared: bool) -> Option<
    DirectoryKey,
> {
    if is_path_shared {
        packet.safe_drive_dir_key
    } else {
        packet.app_root_dir_key
    }
}

/// How a store looks after a directory named `name` was created under the
/// directory at position `parent`: one fresh, empty listing appended whose
/// key is fully determined, the parent's entry list grown by it, and
/// everything else untouched.
pub open spec fn spec_created_under(
    old_store: DirectoryStore,
    new_store: DirectoryStore,
    parent: int,
    name: Seq<char>,
    versioned: bool,
    access_level: AccessLevel,
) -> bool {
    let key = DirectoryKey {
        id: old_store.dirs@.len() as u64,
        type_tag: 0,
        versioned,
        access_level,
    };
    let fresh = old_store.dirs@.len() as int;
    &&& new_store.dirs@.len() == old_store.dirs@.len() + 1
    &&& new_store.dirs@[fresh].metadata.name@ == name
    &&& new_store.dirs@[fresh].metadata.key == key
    &&& new_store.dirs@[fresh].sub_directories@.len() == 0
    &&& new_store.dirs@[fresh].files@.len() == 0
    &&& new_store.dirs@[parent].sub_directories@.len() == old_store.dirs@[
        parent
    ].sub_directories@.len() + 1
    &&& forall|j: int|
        0 <= j < old_store.dirs@[parent].sub_directories@.len() ==> new_store.dirs@[
            parent
        ].sub_directories@[j] == old_store.dirs@[parent].sub_directories@[j]
    &&& new_store.dirs@[parent].sub_directories@.last().name@ == name
    &&& new_store.dirs@[parent].sub_directories@.last().key == key
    &&& new_store.dirs@[parent].metadata == old_store.dirs@[parent].metadata
    &&& new_store.dirs@[parent].files@ == old_store.dirs@[parent].files@
    &&& forall|i: int|
        0 <= i < old_store.dirs@.len() && i != parent ==> new_store.dirs@[i] == old_store.dirs@[i]
}

/// The exact behaviour of creating a directory at `path` with the given
/// flags: how the context after (`p1`) relates to the context before
/// (`p0`) and what the result is.  An empty path is an invalid path; a
/// shared path needs the capability flag; a missing parent is
/// `PathNotFound`; a taken name is the subsystem's "already exists"; and
/// on success the store grows exactly by the created directory.
pub open spec fn spec_create_directory_outcome(
    path: Seq<char>,
    is_private: bool,
    is_versioned: bool,
    is_path_shared: bool,
    p0: crate::ParameterPacket,
    p1: crate::ParameterPacket,
    r: crate::ResponseType,
) -> bool {
    let toks = crate::helper::spec_tokenise(path, false);
    let start = spec_start_key(p0, is_path_shared);
    let store = p0.client.store;
    let s0 = (match start {
        Some(k) => k.id as int,
        None => 0,
    });
    let w = crate::helper::spec_walk(store, s0, toks.drop_last());
    &&& p1.client.account == p0.client.account
    &&& p1.client.services@ == p0.client.services@
    &&& p1.app_root_dir_key == p0.app_root_dir_key
    &&& p1.safe_drive_access == p0.safe_drive_access
    &&& p1.safe_drive_dir_key == p0.safe_drive_dir_key
    &&& match r {
        Ok(p) => {
            &&& p is None
            &&& toks.len() > 0
            &&& !(is_path_shared && !p0.safe_drive_access)
            &&& (start matches Some(k) ==> store.has_key(k))
            &&& w is Some
            &&& !store.dirs@[w.unwrap()].has_sub_dir(toks.last())
            &&& spec_created_under(
                store,
                p1.client.store,
                w.unwrap(),
                toks.last(),
                is_versioned,
                if is_private {
                    AccessLevel::Private
                } else {
                    AccessLevel::Public
                },
            )
        },
        Err(e) => {
            &&& p1.client.store.dirs@ == store.dirs@
            &&& if toks.len() == 0 {
                e == FfiError::InvalidPath
            } else if is_path_shared && !p0.safe_drive_access {
                e matches FfiError::Unexpected(m) && m@ == "Permission denied"@
            } else if start matches Some(k) && !store.has_key(k) {
                e == FfiError::NfsError(NfsError::DirectoryNotFound)
            } else if w is None {
                e == FfiError::PathNotFound
            } else {
                &&& store.dirs@[w.unwrap()].has_sub_dir(toks.last())
                &&& e == FfiError::NfsError(NfsError::DirectoryAlreadyExistsWithSameName)
            }
        },
    }
}

/// Creating a directory at a slash-separated path, relative to the
/// request's start directory.
pub struct CreateDirectory {
    /// The path whose last token names the new directory.
    pub path: String,
    /// Whether the new directory is private to its owner.
    pub is_private: bool,
    /// Whether earlier versions of the new directory are kept.
    pub is_versioned: bool,
    /// Whether the path is relative to the shared drive.
    pub is_path_shared: bool,
}

impl CreateDirectory {
    /// Reads the action's fields from the payload text: `path` must be a
    /// string; the flags default to a private, unversioned directory on an
    /// unshared path.
    pub fn decode(payload: &str) -> (r: Result<CreateDirectory, FfiError>)
        ensures
            match r {
                Ok(op) => {
                    &&& json_string_field_of(payload@, "path"@) == Some(op.path@)
                    &&& op.is_private == spec_bool_field_or(payload@, "is_private"@, true)
                    &&& op.is_versioned == spec_bool_field_or(payload@, "is_versioned"@, false)
                    &&& op.is_path_shared == spec_bool_field_or(
                        payload@,
                        "is_path_shared"@,
                        false,
                    )
                },
                Err(e) => {
                    &&& json_string_field_of(payload@, "path"@) is None
                    &&& e matches FfiError::Unexpected(m) && m@ == ""@
                },
            },
    {
        let path = match json_string_field(payload, "path") {
            Some(p) => p,
            None => {
                return Err(FfiError::unexpected(""));
            },
        };
        let is_private = match json_bool_field(payload, "is_private") {
            Some(b) => b,
            None => true,
        };
        let is_versioned = match json_bool_field(payload, "is_versioned") {
            Some(b) => b,
            None => false,
        };
        let is_path_shared = match json_bool_field(payload, "is_path_shared") {
            Some(b) => b,
            None => false,
        };
        Ok(CreateDirectory { path, is_private, is_versioned, is_path_shared })
    }

    /// Creates the directory the path names: walks to the path's parent
    /// from the request's start directory and adds an empty directory
    /// carrying the last token's name, exactly as
    /// `spec_create_directory_outcome` states.
    pub fn execute(&mut self, params: &mut ParameterPacket) -> (r: ResponseType)
        requires
            old(params).client.wf(),
        ensures
            final(params).client.wf(),
            *final(self) == *old(self),
            spec_create_directory_outcome(
                old(self).path@,
                old(self).is_private,
                old(self).is_versioned,
                old(self).is_path_shared,
                *old(params),
                *final(params),
                r,
            ),
    {
        let mut tokens = crate::helper::tokenise_path(self.path.as_str(), false);
        let name = match tokens.pop() {
            Some(n) => n,
            None => {
                return Err(FfiError::InvalidPath);
            },
        };
        if self.is_path_shared && !params.safe_drive_access {
            return Err(FfiError::unexpected("Permission denied"));
        }
        let start_opt: Option<DirectoryKey> = if self.is_path_shared {
            params.safe_drive_dir_key
        } else {
            params.app_root_dir_key
        };
        proof {
            let toks = crate::helper::spec_tokenise(self.path@, false);
            assert(tokens.deep_view() =~= toks.drop_last());
            assert(name@ == toks.last());
        }
        let parent_key: DirectoryKey = {
            let listing = match crate::helper::get_final_subdirectory(
                &params.client,
                &tokens,
                start_opt.as_ref(),
            ) {
                Ok(l) => l,
                Err(e) => {
                    return Err(e);
                },
            };
            listing.metadata.key
        };
        let access_level = if self.is_private {
            AccessLevel::Private
        } else {
            AccessLevel::Public
        };
        match params.client.store.create_sub_directory(
            &parent_key,
            &name,
            self.is_versioned,
            access_level,
        ) {
            Ok(_) => Ok(None),
            Err(e) => Err(e),
        }
    }
}

impl crate::Action for CreateDirectory {
    fn execute(&mut self, params: &mut ParameterPacket) -> ResponseType {
        CreateDirectory::execute(self, params)
    }
}

/// The exact behaviour of reading the listing at `path`: the context is
/// handed back untouched, and on success the payload is the walked
/// directory's JSON document.
pub open spec fn spec_get_directory_outcome(
    path: Seq<char>,
    is_path_shared: bool,
    p0: crate::ParameterPacket,
    p1: crate::ParameterPacket,
    r: crate::ResponseType,
) -> bool {
    let toks = crate::helper::spec_tokenise(path, false);
    let start = spec_start_key(p0, is_path_shared);
    let store = p0.client.store;
    let s0 = (match start {
        Some(k) => k.id as int,
        None => 0,
    });
    let w = crate::helper::spec_walk(store, s0, toks);
    &&& p1 == p0
    &&& match r {
        Ok(p) => {
            &&& !(is_path_shared && !p0.safe_drive_access)
            &&& (start matches Some(k) ==> store.has_key(k))
            &&& w is Some
            &&& p matches Some(s) && s@ == crate::response::spec_json_of_listing(
                store.dirs@[w.unwrap()],
            )
        },
        Err(e) => {
            if is_path_shared && !p0.safe_drive_access {
                e matches FfiError::Unexpected(m) && m@ == "Permission denied"@
            } else if start matches Some(k) && !store.has_key(k) {
                e == FfiError::NfsError(NfsError::DirectoryNotFound)
            } else {
                w is None && e == FfiError::PathNotFound
            }
        },
    }
}

/// Reading a whole directory listing at a slash-separated path, relative
/// to the request's start directory.
pub struct GetDirectory {
    /// The path of the directory to read; empty means the start directory.
    pub path: String,
    /// Whether the path is relative to the shared drive.
    pub is_path_shared: bool,
}

impl GetDirectory {
    /// Reads the action's fields from the payload text: `path` must be a
    /// string; the shared flag defaults to unshared.
    pub fn decode(payload: &str) -> (r: Result<GetDirectory, FfiError>)
        ensures
            match r {
                Ok(op) => {
                    &&& json_string_field_of(payload@, "path"@) == Some(op.path@)
                    &&& op.is_path_shared == spec_bool_field_or(
                        payload@,
                        "is_path_shared"@,
                        false,
                    )
                },
                Err(e) => {
                    &&& json_string_field_of(payload@, "path"@) is None
                    &&& e matches FfiError::Unexpected(m) && m@ == ""@
                },
            },
    {
        let path = match json_string_field(payload, "path") {
            Some(p) => p,
            None => {
                return Err(FfiError::unexpected(""));
            },
        };
        let is_path_shared = match json_bool_field(payload, "is_path_shared") {
            Some(b) => b,
            None => false,
        };
        Ok(GetDirectory { path, is_path_shared })
    }

    /// Walks to the directory the path names and returns its listing,
    /// rendered as its JSON document, exactly as
    /// `spec_get_directory_outcome` states.
    pub fn execute(&mut self, params: &mut ParameterPacket) -> (r: ResponseType)
        requires
            old(params).client.wf(),
        ensures
            final(params).client.wf(),
            *final(self) == *old(self),
            spec_get_directory_outcome(
                old(self).path@,
                old(self).is_path_shared,
                *old(params),
                *final(params),
                r,
            ),
    {
        let tokens = crate::helper::tokenise_path(self.path.as_str(), false);
        if self.is_path_shared && !params.safe_drive_access {
            return Err(FfiError::unexpected("Permission denied"));
        }
        let start_opt: Option<DirectoryKey> = if self.is_path_shared {
            params.safe_drive_dir_key
        } else {
            params.app_root_dir_key
        };
        let listing = match crate::helper::get_final_subdirectory(
            &params.client,
            &tokens,
            start_opt.as_ref(),
        ) {
            Ok(l) => l,
            Err(e) => {
                return Err(e);
            },
        };
        let response = crate::helper::convert_to_dir_response(listing);
        let payload = crate::response::encode_dir_response(&response);
        proof {
            crate::response::lemma_json_dir_response_of(response, *listing);
        }
        Ok(Some(payload))
    }
}

impl crate::Action for GetDirectory {
    fn execute(&mut self, params: &mut ParameterPacket) -> ResponseType {
        GetDirectory::execute(self, params)
    }
}

/// The exact behaviour of the storage family on a request: which action
/// the name resolves to, how its fields come out of the payload text, and
/// the resolved operation's own outcome.  An unknown action is terminal
/// for the request only.
pub open spec fn spec_storage_dispatch(
    action: Seq<char>,
    s: Seq<char>,
    p0: crate::ParameterPacket,
    p1: crate::ParameterPacket,
    r: crate::ResponseType,
) -> bool {
    if action == "create_directory"@ {
        match json_string_field_of(s, "path"@) {
            Some(path) => spec_create_directory_outcome(
                path,
                spec_bool_field_or(s, "is_private"@, true),
                spec_bool_field_or(s, "is_versioned"@, false),
                spec_bool_field_or(s, "is_path_shared"@, false),
                p0,
                p1,
                r,
            ),
            None => p1 == p0 && (r matches Err(e) && (e matches FfiError::Unexpected(m) && m@
                == ""@)),
        }
    } else if action == "get_directory"@ {
        match json_string_field_of(s, "path"@) {
            Some(path) => spec_get_directory_outcome(
                path,
                spec_bool_field_or(s, "is_path_shared"@, false),
                p0,
                p1,
                r,
            ),
            None => p1 == p0 && (r matches Err(e) && (e matches FfiError::Unexpected(m) && m@
                == ""@)),
        }
    } else {
        p1 == p0 && (r matches Err(e) && (e matches FfiError::Unexpected(m) && m@
            == "not implemented"@))
    }
}

/// Routes an action of the storage family, behaving exactly as
/// `spec_storage_dispatch` states.
pub fn action_dispatcher(action: &String, params: &mut ParameterPacket, payload: &str) -> (r:
    crate::ResponseType)
    requires
        old(params).client.wf(),
    ensures
        final(params).client.wf(),
        final(params).client.account == old(params).client.account,
        final(params).client.services@ == old(params).client.services@,
        final(params).app_root_dir_key == old(params).app_root_dir_key,
        final(params).safe_drive_access == old(params).safe_drive_access,
        final(params).safe_drive_dir_key == old(params).safe_drive_dir_key,
        spec_storage_dispatch(action@, payload@, *old(params), *final(params), r),
{
    let create = String::from_str("create_directory");
    let get = String::from_str("get_directory");
    if action.eq(&create) {
        let mut op = match CreateDirectory::decode(payload) {
            Ok(op) => op,
            Err(e) => {
                return Err(e);
            },
        };
        CreateDirectory::execute(&mut op, params)
    } else if action.eq(&get) {
        let mut op = match GetDirectory::decode(payload) {
            Ok(op) => op,
            Err(e) => {
                return Err(e);
            },
        };
        GetDirectory::execute(&mut op, params)
    } else {
        Err(FfiError::unexpected("not implemented"))
    }
}

/// Appending an entry named `name` to entries that nowhere carry it makes
/// it the first carrier.
pub proof fn lemma_first_sub_dir_push(
    entries: Seq<DirectoryMetadata>,
    e: DirectoryMetadata,
    name: Seq<char>,
    from: int,
)
    requires
        0 <= from <= entries.len(),
        forall|j: int| from <= j < entries.len() ==> (#[trigger] entries[j]).name@ != name,
        e.name@ == name,
    ensures
        first_sub_dir_from(entries.push(e), name, from) == entries.len(),
    decreases entries.len() - from,
{
    let p = entries.push(e);
    if from == entries.len() {
        assert(p[from].name@ == name);
    } else {
        assert(p[from] == entries[from]);
        lemma_first_sub_dir_push(entries, e, name, from + 1);
    }
}

} // verus!
