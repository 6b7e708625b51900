//! File access for the dispatched commands: locating a file inside a
//! directory listing and reading its size or content through a reader, plus
//! the path tokeniser used by the file operations.

use vstd::prelude::*;

use crate::client::Client;
use crate::errors::FfiError;
use crate::errors::NfsError;
use crate::helper::spec_tokenise;
use crate::helper::tokenise_path;

pub use crate::helper::get_final_subdirectory;
use crate::nfs::first_file_from;
use crate::nfs::DirectoryListing;
use crate::nfs::File;

verus! {

/// Splits a slash-separated path into its non-empty tokens.
pub fn path_tokeniser(path: &str) -> (r: Vec<String>)
    ensures
        r.deep_view() == spec_tokenise(path@, false),
{
    tokenise_path(path, false)
}

/// Sequential reader over one file's content, as the file helper of the
/// collaborating subsystem hands it out.
pub struct Reader<'a> {
    /// The file being read.
    pub file: &'a File,
}

impl<'a> Reader<'a> {
    /// The file's size in bytes.
    pub fn size(&self) -> (r: u64)
        requires
            self.file.content@.len() <= u64::MAX,
        ensures
            r == self.file.content@.len(),
    {
        self.file.content.len() as u64
    }

    /// Reads `length` bytes starting at `position`.  A range that runs past
    /// the end of the file yields the subsystem's `InvalidRangeSpecified`.
    pub fn read(&mut self, position: u64, length: u64) -> (r: Result<Vec<u8>, FfiError>)
        ensures
            *final(self) == *old(self),
            match r {
                Ok(v) => {
                    &&& position + length <= old(self).file.content@.len()
                    &&& v@ == old(self).file.content@.subrange(
                        position as int,
                        position + length,
                    )
                },
                Err(e) => {
                    &&& position + length > old(self).file.content@.len()
                    &&& e == FfiError::NfsError(NfsError::InvalidRangeSpecified)
                },
            },
    {
        let size = self.file.content.len();
        if position > size as u64 || length > size as u64 - position {
            return Err(FfiError::NfsError(NfsError::InvalidRangeSpecified));
        }
        let start = position as usize;
        let count = length as usize;
        let mut out: Vec<u8> = Vec::new();
        let mut k: usize = 0;
        while k < count
            invariant
                self.file.content@.len() <= usize::MAX,
                start + count <= self.file.content@.len(),
                k <= count,
                out@ =~= self.file.content@.subrange(start as int, start + k),
            decreases count - k,
        {
            out.push(self.file.content[start + k]);
            proof {
                assert(out@ =~= self.file.content@.subrange(start as int, start + k + 1));
            }
            k += 1;
        }
        Ok(out)
    }
}

/// Locates `name` inside `parent_directory` and opens a reader on it; a
/// missing file yields `FileNotFound`.
fn get_reader<'a>(_client: &Client, name: &String, parent_directory: &'a DirectoryListing) -> (r:
    Result<Reader<'a>, FfiError>)
    ensures
        match r {
            Ok(reader) => {
                &&& parent_directory.has_file(name@)
                &&& 0 <= first_file_from(parent_directory.files@, name@, 0)
                    < parent_directory.files@.len()
                &&& *reader.file == parent_directory.files@[first_file_from(
                    parent_directory.files@,
                    name@,
                    0,
                )]
            },
            Err(e) => !parent_directory.has_file(name@) && e == FfiError::FileNotFound,
        },
{
    let file = match parent_directory.find_file(name) {
        Some(f) => f,
        None => {
            return Err(FfiError::FileNotFound);
        },
    };
    Ok(Reader { file })
}

/// The size in bytes of the file called `name` inside `parent_directory`.
pub fn get_file_size(client: &Client, name: &String, parent_directory: &DirectoryListing) -> (r:
    Result<u64, FfiError>)
    requires
        forall|i: int|
            0 <= i < parent_directory.files@.len()
                ==> (#[trigger] parent_directory.files@[i]).content@.len() <= u64::MAX,
    ensures
        match r {
            Ok(size) => {
                &&& parent_directory.has_file(name@)
                &&& size == parent_directory.files@[first_file_from(
                    parent_directory.files@,
                    name@,
                    0,
                )].content@.len()
            },
            Err(e) => !parent_directory.has_file(name@) && e == FfiError::FileNotFound,
        },
{
    let reader = match get_reader(client, name, parent_directory) {
        Ok(reader) => reader,
        Err(e) => {
            return Err(e);
        },
    };
    Ok(reader.size())
}

/// The whole content of the file called `name` inside `parent_directory`.
pub fn get_file_content(client: &Client, name: &String, parent_directory: &DirectoryListing) -> (r:
    Result<Vec<u8>, FfiError>)
    requires
        forall|i: int|
            0 <= i < parent_directory.files@.len()
                ==> (#[trigger] parent_directory.files@[i]).content@.len() <= u64::MAX,
    ensures
        match r {
            Ok(v) => {
                &&& parent_directory.has_file(name@)
                &&& v@ == parent_directory.files@[first_file_from(
                    parent_directory.files@,
                    name@,
                    0,
                )].content@
            },
            Err(e) => !parent_directory.has_file(name@) && e == FfiError::FileNotFound,
        },
{
    let mut reader = match get_reader(client, name, parent_directory) {
        Ok(reader) => reader,
        Err(e) => {
            return Err(e);
        },
    };
    let size = reader.size();
    let content = match reader.read(0, size) {
        Ok(v) => v,
        Err(e) => {
            return Err(e);
        },
    };
    proof {
        assert(content@ =~= reader.file.content@);
    }
    Ok(content)
}

} // verus!
