//! Byte-level form of a directory key as it crosses the boundary, and the
//! base64 text coat it travels in.
//!
//! A directory-location reference inside a request envelope is the
//! length-prefixed byte serialisation of a `DirectoryKey`, base64-encoded.
//! The byte framing is this crate's own and is verified together with its
//! round trip; the base64 coat is done by the `rustc-serialize` crate behind
//! trusted wrappers.

use vstd::prelude::*;

use rustc_serialize::base64::FromBase64;
use rustc_serialize::base64::ToBase64;

use crate::errors::CoreError;
use crate::errors::FfiError;
use crate::nfs::AccessLevel;
use crate::nfs::DirectoryKey;

verus! {

use vstd::bytes::*;
use vstd::slice::slice_subrange;

/// What `ToBase64::to_base64` returns for these bytes under the standard
/// configuration.
pub uninterp spec fn b64_of(b: Seq<u8>) -> Seq<char>;

/// What `FromBase64::from_base64` returns for this text: the decoded bytes,
/// or `None` where the text is not valid base64.
pub uninterp spec fn b64_decode_of(s: Seq<char>) -> Option<Seq<u8>>;

/// Relies on rustc-serialize's `ToBase64::to_base64` under the `STANDARD`
/// configuration (RFC 4648, padded, unwrapped): the output is a function of
/// the input bytes alone, and `FromBase64::from_base64` decodes it back to
/// exactly the input, as the crate's own round-trip example documents.
#[verifier::external_body]
pub fn b64_encode(b: &Vec<u8>) -> (r: String)
    ensures
        r@ == b64_of(b@),
        b64_decode_of(r@) == Some(b@),
{
    b.as_slice().to_base64(rustc_serialize::base64::STANDARD)
}

/// Relies on rustc-serialize's `FromBase64::from_base64`: the result is a
/// function of the input characters alone; invalid base64 yields `None`.
#[verifier::external_body]
pub fn b64_decode(s: &str) -> (r: Option<Vec<u8>>)
    ensures
        match r {
            Some(v) => b64_decode_of(s@) == Some(v@),
            None => b64_decode_of(s@) is None,
        },
{
    s.from_base64().ok()
}

/// Number of bytes that follow the four-byte length prefix.
pub const KEY_BODY_LEN: u32 = 18;

/// The serialised form of a directory key: a four-byte little-endian length
/// prefix holding 18, the identity and the type tag as eight little-endian
/// bytes each, then one byte for each of the two flags.
pub open spec fn spec_serialised_key(k: DirectoryKey) -> Seq<u8> {
    spec_u32_to_le_bytes(KEY_BODY_LEN) + spec_u64_to_le_bytes(k.id) + spec_u64_to_le_bytes(
        k.type_tag,
    ) + seq![
        if k.versioned {
            1u8
        } else {
            0u8
        },
        if k.access_level is Private {
            0u8
        } else {
            1u8
        },
    ]
}

/// The key a byte sequence deserialises to, or `None` where the bytes are
/// not a well-formed serialised key.
pub open spec fn spec_deserialised_key(data: Seq<u8>) -> Option<DirectoryKey> {
    if data.len() == 22 && spec_u32_from_le_bytes(data.subrange(0, 4)) == KEY_BODY_LEN && (
    data[20] == 0 || data[20] == 1) && (data[21] == 0 || data[21] == 1) {
        Some(
            DirectoryKey {
                id: spec_u64_from_le_bytes(data.subrange(4, 12)),
                type_tag: spec_u64_from_le_bytes(data.subrange(12, 20)),
                versioned: data[20] == 1,
                access_level: if data[21] == 0 {
                    AccessLevel::Private
                } else {
                    AccessLevel::Public
                },
            },
        )
    } else {
        None
    }
}

/// Serialises a directory key to its length-prefixed byte form.
pub fn serialise_directory_key(key: &DirectoryKey) -> (r: Vec<u8>)
    ensures
        r@ == spec_serialised_key(*key),
        r@.len() == 22,
{
    let mut out = u32_to_le_bytes(KEY_BODY_LEN);
    let mut id_bytes = u64_to_le_bytes(key.id);
    let mut tag_bytes = u64_to_le_bytes(key.type_tag);
    out.append(&mut id_bytes);
    out.append(&mut tag_bytes);
    out.push(if key.versioned { 1u8 } else { 0u8 });
    out.push(
        match key.access_level {
            AccessLevel::Private => 0u8,
            AccessLevel::Public => 1u8,
        },
    );
    proof {
        assert(out@ =~= spec_serialised_key(*key));
    }
    out
}

/// Deserialises a length-prefixed byte form back to a directory key.
/// Malformed bytes are reported as the connection subsystem's
/// encode/decode failure, as the serialisation collaborator would.
pub fn deserialise_directory_key(data: &Vec<u8>) -> (r: Result<DirectoryKey, FfiError>)
    ensures
        match r {
            Ok(k) => spec_deserialised_key(data@) == Some(k),
            Err(e) => {
                &&& spec_deserialised_key(data@) is None
                &&& e == FfiError::CoreError(CoreError::UnsuccessfulEncodeDecode)
            },
        },
{
    if data.len() != 22 {
        return Err(FfiError::CoreError(CoreError::UnsuccessfulEncodeDecode));
    }
    let prefix = u32_from_le_bytes(slice_subrange(data.as_slice(), 0, 4));
    if prefix != KEY_BODY_LEN {
        return Err(FfiError::CoreError(CoreError::UnsuccessfulEncodeDecode));
    }
    let versioned_byte = data[20];
    let access_byte = data[21];
    if versioned_byte > 1 || access_byte > 1 {
        return Err(FfiError::CoreError(CoreError::UnsuccessfulEncodeDecode));
    }
    let id = u64_from_le_bytes(slice_subrange(data.as_slice(), 4, 12));
    let type_tag = u64_from_le_bytes(slice_subrange(data.as_slice(), 12, 20));
    Ok(
        DirectoryKey {
            id,
            type_tag,
            versioned: versioned_byte == 1,
            access_level: if access_byte == 0 {
                AccessLevel::Private
            } else {
                AccessLevel::Public
            },
        },
    )
}

/// A directory key serialised and deserialised again is returned unchanged:
/// the byte framing loses nothing.
pub proof fn lemma_key_round_trip(k: DirectoryKey)
    ensures
        spec_deserialised_key(spec_serialised_key(k)) == Some(k),
{
    lemma_auto_spec_u32_to_from_le_bytes();
    lemma_auto_spec_u64_to_from_le_bytes();
    let data = spec_serialised_key(k);
    assert(data.subrange(0, 4) =~= spec_u32_to_le_bytes(KEY_BODY_LEN));
    assert(data.subrange(4, 12) =~= spec_u64_to_le_bytes(k.id));
    assert(data.subrange(12, 20) =~= spec_u64_to_le_bytes(k.type_tag));
}

} // verus!
