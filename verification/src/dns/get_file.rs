//! Reading a file published under a registered long name and service.

use vstd::prelude::*;

use crate::dns::first_service_from;
use crate::dns::has_long_name;
use crate::dns::has_service;
use crate::dns::DnsOperations;
use crate::errors::DnsError;
use crate::errors::FfiError;
use crate::errors::NfsError;
use crate::helper::file_info_matches;
use crate::helper::get_file_info;
use crate::helper::spec_tokenise;
use crate::helper::tokenise_path;
use crate::implementation::Reader;
use crate::json_support::json_bool_field;
use crate::json_support::json_bool_field_of;
use crate::json_support::json_i64_field;
use crate::json_support::json_i64_field_of;
use crate::json_support::json_string_field;
use crate::json_support::json_string_field_of;
use crate::nfs::first_file_from;
use crate::response::encode_file_response;
use crate::response::lemma_json_file_info_of;
use crate::response::spec_json_file_read;
use crate::serialisation::b64_encode;
use crate::serialisation::b64_of;
use crate::ParameterPacket;
use crate::ResponseType;

verus! {

use vstd::string::StrSliceExecFns;
use vstd::string::StringExecFns;

/// The byte range a read request covers in a file of `size` bytes: from
/// `offset`, for `length` bytes, where a negative length means the rest of
/// the file.  `None` where the range falls outside the file.
pub open spec fn spec_read_range(size: int, offset: int, length: int) -> Option<(int, int)> {
    if offset < 0 || offset > size {
        None
    } else {
        let len = if length < 0 {
            size - offset
        } else {
            length
        };
        if offset + len > size {
            None
        } else {
            Some((offset, len))
        }
    }
}

/// The exact behaviour of reading a published file: the context is handed
/// back untouched; the service's home directory comes from the
/// name-service records, the file from the path's last token inside it,
/// and the payload is the requested range, base64-encoded, in its JSON
/// document.
pub open spec fn spec_get_file_outcome(
    long_name: Seq<char>,
    service_name: Seq<char>,
    offset: int,
    length: int,
    file_path: Seq<char>,
    include_metadata: bool,
    p0: ParameterPacket,
    p1: ParameterPacket,
    r: ResponseType,
) -> bool {
    let services = p0.client.services@;
    let store = p0.client.store;
    let toks = spec_tokenise(file_path, false);
    let svc = first_service_from(services, long_name, service_name, 0);
    &&& p1 == p0
    &&& match r {
        Ok(p) => {
            &&& has_service(services, long_name, service_name)
            &&& toks.len() > 0
            &&& {
                let key = services[svc].home_directory_key;
                &&& store.has_key(key)
                &&& {
                    let listing = store.dirs@[key.id as int];
                    let fname = toks.last();
                    &&& listing.has_file(fname)
                    &&& {
                        let f = listing.files@[first_file_from(listing.files@, fname, 0)];
                        let rng = spec_read_range(f.content@.len() as int, offset, length);
                        &&& rng is Some
                        &&& p matches Some(s) && s@ == spec_json_file_read(
                            b64_of(
                                f.content@.subrange(
                                    rng.unwrap().0,
                                    rng.unwrap().0 + rng.unwrap().1,
                                ),
                            ),
                            if include_metadata {
                                Some(f)
                            } else {
                                None
                            },
                        )
                    }
                }
            }
        },
        Err(e) => {
            if !has_long_name(services, long_name) {
                e == FfiError::DnsError(DnsError::DnsRecordNotFound)
            } else if !has_service(services, long_name, service_name) {
                e == FfiError::DnsError(DnsError::ServiceNotFound)
            } else if toks.len() == 0 {
                e == FfiError::InvalidPath
            } else if !store.has_key(services[svc].home_directory_key) {
                e == FfiError::NfsError(NfsError::DirectoryNotFound)
            } else if !store.dirs@[services[svc].home_directory_key.id as int].has_file(
                toks.last(),
            ) {
                e == FfiError::InvalidPath
            } else {
                let listing = store.dirs@[services[svc].home_directory_key.id as int];
                let f = listing.files@[first_file_from(listing.files@, toks.last(), 0)];
                &&& spec_read_range(f.content@.len() as int, offset, length) is None
                &&& e == FfiError::NfsError(NfsError::InvalidRangeSpecified)
            }
        },
    }
}

/// Reading a range of a file served under a registered long name.
pub struct GetFile {
    /// The registered long name the file is served under.
    pub long_name: String,
    /// The service under that long name.
    pub service_name: String,
    /// First byte of the range to read.
    pub offset: i64,
    /// Number of bytes to read; negative means the rest of the file.
    pub length: i64,
    /// Path of the file inside the service's home directory; only the last
    /// token names the file.
    pub file_path: String,
    /// Whether the path was meant relative to the shared drive.
    pub is_path_shared: bool,
    /// Whether the file's descriptive data is included in the response.
    pub include_metadata: bool,
}

impl GetFile {
    /// Reads the action's fields from the payload text; every field must
    /// be present with its type.
    pub fn decode(payload: &str) -> (r: Result<GetFile, FfiError>)
        ensures
            match r {
                Ok(op) => {
                    &&& json_string_field_of(payload@, "long_name"@) == Some(op.long_name@)
                    &&& json_string_field_of(payload@, "service_name"@) == Some(op.service_name@)
                    &&& json_i64_field_of(payload@, "offset"@) == Some(op.offset)
                    &&& json_i64_field_of(payload@, "length"@) == Some(op.length)
                    &&& json_string_field_of(payload@, "file_path"@) == Some(op.file_path@)
                    &&& json_bool_field_of(payload@, "is_path_shared"@) == Some(
                        op.is_path_shared,
                    )
                    &&& json_bool_field_of(payload@, "include_metadata"@) == Some(
                        op.include_metadata,
                    )
                },
                Err(e) => {
                    &&& !(json_string_field_of(payload@, "long_name"@) is Some
                        && json_string_field_of(payload@, "service_name"@) is Some
                        && json_i64_field_of(payload@, "offset"@) is Some && json_i64_field_of(
                        payload@,
                        "length"@,
                    ) is Some && json_string_field_of(payload@, "file_path"@) is Some
                        && json_bool_field_of(payload@, "is_path_shared"@) is Some
                        && json_bool_field_of(payload@, "include_metadata"@) is Some)
                    &&& e matches FfiError::Unexpected(m) && m@ == ""@
                },
            },
    {
        let long_name = match json_string_field(payload, "long_name") {
            Some(v) => v,
            None => {
                return Err(FfiError::unexpected(""));
            },
        };
        let service_name = match json_string_field(payload, "service_name") {
            Some(v) => v,
            None => {
                return Err(FfiError::unexpected(""));
            },
        };
        let offset = match json_i64_field(payload, "offset") {
            Some(v) => v,
            None => {
                return Err(FfiError::unexpected(""));
            },
        };
        let length = match json_i64_field(payload, "length") {
            Some(v) => v,
            None => {
                return Err(FfiError::unexpected(""));
            },
        };
        let file_path = match json_string_field(payload, "file_path") {
            Some(v) => v,
            None => {
                return Err(FfiError::unexpected(""));
            },
        };
        let is_path_shared = match json_bool_field(payload, "is_path_shared") {
            Some(v) => v,
            None => {
                return Err(FfiError::unexpected(""));
            },
        };
        let include_metadata = match json_bool_field(payload, "include_metadata") {
            Some(v) => v,
            None => {
                return Err(FfiError::unexpected(""));
            },
        };
        Ok(
            GetFile {
                long_name,
                service_name,
                offset,
                length,
                file_path,
                is_path_shared,
                include_metadata,
            },
        )
    }

    /// Resolves the service's home directory through the name service,
    /// locates the file named by the path's last token inside it, reads
    /// the requested range and renders it, exactly as
    /// `spec_get_file_outcome` states.
    pub fn execute(&mut self, params: &mut ParameterPacket) -> (r: ResponseType)
        requires
            old(params).client.wf(),
        ensures
            final(params).client.wf(),
            *final(self) == *old(self),
            spec_get_file_outcome(
                old(self).long_name@,
                old(self).service_name@,
                old(self).offset as int,
                old(self).length as int,
                old(self).file_path@,
                old(self).include_metadata,
                *old(params),
                *final(params),
                r,
            ),
    {
        let dns_operations = DnsOperations::new(&params.client);
        let directory_key = match dns_operations.get_service_home_directory_key(
            &self.long_name,
            &self.service_name,
        ) {
            Ok(k) => k,
            Err(e) => {
                return Err(e);
            },
        };
        let mut tokens = tokenise_path(self.file_path.as_str(), false);
        let file_name = match tokens.pop() {
            Some(n) => n,
            None => {
                return Err(FfiError::InvalidPath);
            },
        };
        proof {
            let toks = spec_tokenise(self.file_path@, false);
            assert(file_name@ == toks.last());
        }
        let file_dir = match params.client.store.get(&directory_key) {
            Ok(l) => l,
            Err(e) => {
                return Err(e);
            },
        };
        let file = match file_dir.find_file(&file_name) {
            Some(f) => f,
            None => {
                return Err(FfiError::InvalidPath);
            },
        };
        let size = file.content.len();
        if self.offset < 0 || (self.offset as u64) > (size as u64) {
            return Err(FfiError::NfsError(NfsError::InvalidRangeSpecified));
        }
        let off = self.offset as usize;
        let len: usize = if self.length < 0 {
            size - off
        } else {
            if (self.length as u64) > ((size - off) as u64) {
                return Err(FfiError::NfsError(NfsError::InvalidRangeSpecified));
            }
            self.length as usize
        };
        let mut reader = Reader { file };
        let bytes = match reader.read(off as u64, len as u64) {
            Ok(v) => v,
            Err(e) => {
                return Err(e);
            },
        };
        let content_b64 = b64_encode(&bytes);
        let payload = if self.include_metadata {
            let info = get_file_info(&file.metadata, size);
            let out = encode_file_response(&content_b64, Some(&info));
            proof {
                lemma_json_file_info_of(info, *file);
            }
            out
        } else {
            encode_file_response(&content_b64, None)
        };
        Ok(Some(payload))
    }
}

impl crate::Action for GetFile {
    fn execute(&mut self, params: &mut ParameterPacket) -> ResponseType {
        GetFile::execute(self, params)
    }
}

} // verus!
