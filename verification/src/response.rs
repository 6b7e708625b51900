//! Rendering of operation results as JSON text.
//!
//! The payload a content-returning operation hands across the boundary is a
//! JSON document built here character by character, with its exact text
//! stated in specification functions: string escaping, decimal numbers, and
//! the document shapes for directory listings and file reads.

use vstd::prelude::*;

use crate::helper::DirectoryInfo;
use crate::helper::FileInfo;
use crate::helper::GetDirResponse;

verus! {

use vstd::string::StrSliceExecFns;
use vstd::string::StringExecFns;

/// The decimal digit character for `d` (0 to 9).
pub open spec fn spec_digit(d: int) -> char {
    "0123456789"@[d]
}

/// The lower-case hexadecimal digit character for `d` (0 to 15).
pub open spec fn spec_hex_digit(d: int) -> char {
    "0123456789abcdef"@[d]
}

/// The decimal text of a non-negative number.
pub open spec fn spec_dec_nat(n: int) -> Seq<char>
    decreases n,
{
    if n < 10 {
        seq![spec_digit(n)]
    } else {
        spec_dec_nat(n / 10) + seq![spec_digit(n % 10)]
    }
}

/// The decimal text of a signed number.
pub open spec fn spec_dec_int(n: int) -> Seq<char> {
    if n < 0 {
        seq!['-'] + spec_dec_nat(-n)
    } else {
        spec_dec_nat(n)
    }
}

/// How one character appears inside a JSON string literal: quote and
/// backslash get a backslash, control characters become `\u00..`, the rest
/// stand as they are.
pub open spec fn spec_escape_char(c: char) -> Seq<char> {
    if c == '"' {
        seq!['\\', '"']
    } else if c == '\\' {
        seq!['\\', '\\']
    } else if (c as int) < 32 {
        seq!['\\', 'u', '0', '0', spec_hex_digit((c as int) / 16), spec_hex_digit((c as int) % 16)]
    } else {
        seq![c]
    }
}

/// Whether a character stands for itself inside a JSON string literal.
pub open spec fn spec_char_is_plain(c: char) -> bool {
    c != '"' && c != '\\' && (c as int) >= 32
}

/// The escaped body of a JSON string literal.
pub open spec fn spec_escaped(s: Seq<char>) -> Seq<char>
    decreases s.len(),
{
    if s.len() == 0 {
        Seq::empty()
    } else {
        spec_escaped(s.drop_last()) + spec_escape_char(s.last())
    }
}

/// A whole JSON string literal, quotes included.
pub open spec fn spec_json_string(s: Seq<char>) -> Seq<char> {
    seq!['"'] + spec_escaped(s) + seq!['"']
}

/// The JSON text of a boolean.
pub open spec fn spec_json_bool(b: bool) -> Seq<char> {
    if b {
        "true"@
    } else {
        "false"@
    }
}

/// A run of plain characters is escaped to itself.
proof fn lemma_escaped_plain_run(s: Seq<char>, a: int, b: int)
    requires
        0 <= a <= b <= s.len(),
        forall|k: int| a <= k < b ==> spec_char_is_plain(#[trigger] s[k]),
    ensures
        spec_escaped(s.subrange(0, b)) == spec_escaped(s.subrange(0, a)) + s.subrange(a, b),
    decreases b - a,
{
    if a == b {
        assert(s.subrange(a, b).len() == 0);
        assert(spec_escaped(s.subrange(0, a)) + s.subrange(a, b) =~= spec_escaped(
            s.subrange(0, a),
        ));
    } else {
        lemma_escaped_plain_run(s, a, b - 1);
        let pre = s.subrange(0, b);
        assert(pre.drop_last() =~= s.subrange(0, b - 1));
        assert(pre.last() == s[b - 1]);
        assert(spec_char_is_plain(s[b - 1]));
        assert(spec_escape_char(s[b - 1]) == seq![s[b - 1]]);
        assert(spec_escaped(s.subrange(0, a)) + s.subrange(a, b - 1) + seq![s[b - 1]]
            =~= spec_escaped(s.subrange(0, a)) + s.subrange(a, b));
    }
}

/// Appends the decimal text of `n`.
fn append_dec_u64(out: &mut String, n: u64)
    ensures
        final(out)@ == old(out)@ + spec_dec_nat(n as int),
    decreases n,
{
    let digits = "0123456789";
    proof {
        reveal_strlit("0123456789");
    }
    if n < 10 {
        let d = n as usize;
        out.append(digits.substring_char(d, d + 1));
        proof {
            assert(digits@.subrange(d as int, d as int + 1) =~= seq![spec_digit(n as int)]);
        }
    } else {
        append_dec_u64(out, n / 10);
        let d = (n % 10) as usize;
        out.append(digits.substring_char(d, d + 1));
        proof {
            assert(digits@.subrange(d as int, d as int + 1) =~= seq![spec_digit(n as int % 10)]);
            assert(final(out)@ =~= old(out)@ + spec_dec_nat(n as int));
        }
    }
}

/// Appends the decimal text of `n`, sign included.
fn append_dec_i64(out: &mut String, n: i64)
    ensures
        final(out)@ == old(out)@ + spec_dec_int(n as int),
{
    if n >= 0 {
        append_dec_u64(out, n as u64);
    } else {
        out.append("-");
        proof {
            reveal_strlit("-");
        }
        let mag: u64 = ((-(n + 1)) as u64) + 1;
        proof {
            assert(mag as int == -(n as int));
        }
        append_dec_u64(out, mag);
        proof {
            assert(old(out)@ + seq!['-'] + spec_dec_nat(mag as int) =~= old(out)@ + spec_dec_int(
                n as int,
            ));
        }
    }
}

/// Appends the JSON text of a boolean.
fn append_bool(out: &mut String, b: bool)
    ensures
        final(out)@ == old(out)@ + spec_json_bool(b),
{
    if b {
        out.append("true");
    } else {
        out.append("false");
    }
}

/// Appends `s` as a JSON string literal, escaping as needed.
fn append_json_string(out: &mut String, s: &str)
    ensures
        final(out)@ == old(out)@ + spec_json_string(s@),
{
    out.append("\"");
    proof {
        reveal_strlit("\"");
        assert(s@.subrange(0, 0) =~= Seq::<char>::empty());
        assert(old(out)@ + seq!['"'] + spec_escaped(s@.subrange(0, 0)) =~= old(out)@ + seq!['"']);
    }
    let n = s.unicode_len();
    let mut start: usize = 0;
    let mut i: usize = 0;
    while i < n
        invariant
            n == s@.len(),
            start <= i <= n,
            forall|k: int| start <= k < i ==> spec_char_is_plain(#[trigger] s@[k]),
            out@ == old(out)@ + seq!['"'] + spec_escaped(s@.subrange(0, start as int)),
        decreases n - i,
    {
        let c = s.get_char(i);
        if c == '"' || c == '\\' || (c as u32) < 32 {
            out.append(s.substring_char(start, i));
            proof {
                lemma_escaped_plain_run(s@, start as int, i as int);
                assert(out@ =~= old(out)@ + seq!['"'] + spec_escaped(s@.subrange(0, i as int)));
            }
            if c == '"' {
                out.append("\\\"");
                proof {
                    reveal_strlit("\\\"");
                    assert("\\\""@ =~= spec_escape_char('"'));
                }
            } else if c == '\\' {
                out.append("\\\\");
                proof {
                    reveal_strlit("\\\\");
                    assert("\\\\"@ =~= spec_escape_char('\\'));
                }
            } else {
                out.append("\\u00");
                proof {
                    reveal_strlit("\\u00");
                }
                let hex = "0123456789abcdef";
                proof {
                    reveal_strlit("0123456789abcdef");
                }
                let code = c as u32;
                let hi = (code / 16) as usize;
                let lo = (code % 16) as usize;
                out.append(hex.substring_char(hi, hi + 1));
                out.append(hex.substring_char(lo, lo + 1));
                proof {
                    assert(hex@.subrange(hi as int, hi + 1) =~= seq![
                        spec_hex_digit((c as int) / 16),
                    ]);
                    assert(hex@.subrange(lo as int, lo + 1) =~= seq![
                        spec_hex_digit((c as int) % 16),
                    ]);
                    assert("\\u00"@ + seq![spec_hex_digit((c as int) / 16)] + seq![
                        spec_hex_digit((c as int) % 16),
                    ] =~= spec_escape_char(c));
                }
            }
            proof {
                let pre = s@.subrange(0, i + 1);
                assert(pre.drop_last() =~= s@.subrange(0, i as int));
                assert(pre.last() == s@[i as int]);
                assert(out@ =~= old(out)@ + seq!['"'] + spec_escaped(s@.subrange(0, i + 1)));
            }
            start = i + 1;
        }
        i += 1;
    }
    out.append(s.substring_char(start, n));
    proof {
        lemma_escaped_plain_run(s@, start as int, n as int);
        assert(s@.subrange(0, n as int) =~= s@);
    }
    out.append("\"");
    proof {
        reveal_strlit("\"");
        assert(out@ =~= old(out)@ + spec_json_string(s@));
    }
}

/// The JSON object for one directory's descriptive data.
pub open spec fn spec_json_dir_info(i: DirectoryInfo) -> Seq<char> {
    "{\"name\":"@ + spec_json_string(i.name@) + ",\"is_private\":"@ + spec_json_bool(i.is_private)
        + ",\"is_versioned\":"@ + spec_json_bool(i.is_versioned) + ",\"user_metadata\":"@
        + spec_json_string(i.user_metadata@) + ",\"creation_time_sec\":"@ + spec_dec_int(
        i.creation_time_sec as int,
    ) + ",\"creation_time_nsec\":"@ + spec_dec_int(i.creation_time_nsec as int)
        + ",\"modification_time_sec\":"@ + spec_dec_int(i.modification_time_sec as int)
        + ",\"modification_time_nsec\":"@ + spec_dec_int(i.modification_time_nsec as int) + "}"@
}

/// The JSON object for one file's descriptive data.
pub open spec fn spec_json_file_info(i: FileInfo) -> Seq<char> {
    "{\"name\":"@ + spec_json_string(i.name@) + ",\"size\":"@ + spec_dec_int(i.size as int)
        + ",\"user_metadata\":"@ + spec_json_string(i.user_metadata@)
        + ",\"creation_time_sec\":"@ + spec_dec_int(i.creation_time_sec as int)
        + ",\"creation_time_nsec\":"@ + spec_dec_int(i.creation_time_nsec as int)
        + ",\"modification_time_sec\":"@ + spec_dec_int(i.modification_time_sec as int)
        + ",\"modification_time_nsec\":"@ + spec_dec_int(i.modification_time_nsec as int) + "}"@
}

/// A comma-separated JSON array body of directory objects.
pub open spec fn spec_json_dir_infos(v: Seq<DirectoryInfo>) -> Seq<char>
    decreases v.len(),
{
    if v.len() == 0 {
        Seq::empty()
    } else if v.len() == 1 {
        spec_json_dir_info(v[0])
    } else {
        spec_json_dir_infos(v.drop_last()) + seq![','] + spec_json_dir_info(v.last())
    }
}

/// A comma-separated JSON array body of file objects.
pub open spec fn spec_json_file_infos(v: Seq<FileInfo>) -> Seq<char>
    decreases v.len(),
{
    if v.len() == 0 {
        Seq::empty()
    } else if v.len() == 1 {
        spec_json_file_info(v[0])
    } else {
        spec_json_file_infos(v.drop_last()) + seq![','] + spec_json_file_info(v.last())
    }
}

/// The whole JSON document for a directory listing response.
pub open spec fn spec_json_dir_response(r: GetDirResponse) -> Seq<char> {
    "{\"info\":"@ + spec_json_dir_info(r.info) + ",\"files\":["@ + spec_json_file_infos(r.files@)
        + "],\"sub_directories\":["@ + spec_json_dir_infos(r.sub_directories@) + "]}"@
}

/// Appends the JSON object for one directory's descriptive data.
fn append_dir_info(out: &mut String, i: &DirectoryInfo)
    ensures
        final(out)@ == old(out)@ + spec_json_dir_info(*i),
{
    out.append("{\"name\":");
    append_json_string(out, i.name.as_str());
    out.append(",\"is_private\":");
    append_bool(out, i.is_private);
    out.append(",\"is_versioned\":");
    append_bool(out, i.is_versioned);
    out.append(",\"user_metadata\":");
    append_json_string(out, i.user_metadata.as_str());
    out.append(",\"creation_time_sec\":");
    append_dec_i64(out, i.creation_time_sec);
    out.append(",\"creation_time_nsec\":");
    append_dec_i64(out, i.creation_time_nsec);
    out.append(",\"modification_time_sec\":");
    append_dec_i64(out, i.modification_time_sec);
    out.append(",\"modification_time_nsec\":");
    append_dec_i64(out, i.modification_time_nsec);
    out.append("}");
    proof {
        assert(out@ =~= old(out)@ + spec_json_dir_info(*i));
    }
}

/// Appends the JSON object for one file's descriptive data.
fn append_file_info(out: &mut String, i: &FileInfo)
    ensures
        final(out)@ == old(out)@ + spec_json_file_info(*i),
{
    out.append("{\"name\":");
    append_json_string(out, i.name.as_str());
    out.append(",\"size\":");
    append_dec_i64(out, i.size);
    out.append(",\"user_metadata\":");
    append_json_string(out, i.user_metadata.as_str());
    out.append(",\"creation_time_sec\":");
    append_dec_i64(out, i.creation_time_sec);
    out.append(",\"creation_time_nsec\":");
    append_dec_i64(out, i.creation_time_nsec);
    out.append(",\"modification_time_sec\":");
    append_dec_i64(out, i.modification_time_sec);
    out.append(",\"modification_time_nsec\":");
    append_dec_i64(out, i.modification_time_nsec);
    out.append("}");
    proof {
        assert(out@ =~= old(out)@ + spec_json_file_info(*i));
    }
}

/// Renders a directory listing response as its JSON document.
pub fn encode_dir_response(r: &GetDirResponse) -> (s: String)
    ensures
        s@ == spec_json_dir_response(*r),
{
    let mut out = String::new();
    out.append("{\"info\":");
    append_dir_info(&mut out, &r.info);
    out.append(",\"files\":[");
    let n_files = r.files.len();
    let mut i: usize = 0;
    let ghost mark = out@;
    proof {
        assert(r.files@.subrange(0, 0) =~= Seq::<FileInfo>::empty());
        assert(mark + spec_json_file_infos(r.files@.subrange(0, 0)) =~= mark);
    }
    while i < n_files
        invariant
            n_files == r.files@.len(),
            i <= n_files,
            out@ == mark + spec_json_file_infos(r.files@.subrange(0, i as int)),
        decreases n_files - i,
    {
        if i > 0 {
            out.append(",");
            proof {
                reveal_strlit(",");
            }
        }
        append_file_info(&mut out, &r.files[i]);
        proof {
            let pre = r.files@.subrange(0, i + 1);
            assert(pre.drop_last() =~= r.files@.subrange(0, i as int));
            assert(pre.last() == r.files@[i as int]);
            if i > 0 {
                assert(out@ =~= mark + spec_json_file_infos(pre));
            } else {
                assert(out@ =~= mark + spec_json_file_infos(pre));
            }
        }
        i += 1;
    }
    proof {
        assert(r.files@.subrange(0, n_files as int) =~= r.files@);
    }
    out.append("],\"sub_directories\":[");
    let n_dirs = r.sub_directories.len();
    let mut k: usize = 0;
    let ghost mark2 = out@;
    proof {
        assert(r.sub_directories@.subrange(0, 0) =~= Seq::<DirectoryInfo>::empty());
        assert(mark2 + spec_json_dir_infos(r.sub_directories@.subrange(0, 0)) =~= mark2);
    }
    while k < n_dirs
        invariant
            n_dirs == r.sub_directories@.len(),
            k <= n_dirs,
            out@ == mark2 + spec_json_dir_infos(r.sub_directories@.subrange(0, k as int)),
        decreases n_dirs - k,
    {
        if k > 0 {
            out.append(",");
            proof {
                reveal_strlit(",");
            }
        }
        append_dir_info(&mut out, &r.sub_directories[k]);
        proof {
            let pre = r.sub_directories@.subrange(0, k + 1);
            assert(pre.drop_last() =~= r.sub_directories@.subrange(0, k as int));
            assert(pre.last() == r.sub_directories@[k as int]);
            assert(out@ =~= mark2 + spec_json_dir_infos(pre));
        }
        k += 1;
    }
    proof {
        assert(r.sub_directories@.subrange(0, n_dirs as int) =~= r.sub_directories@);
    }
    out.append("]}");
    proof {
        assert(out@ =~= spec_json_dir_response(*r));
    }
    out
}

/// The JSON object a directory's metadata is rendered as, stated over the
/// model directly.
pub open spec fn spec_json_of_metadata(md: crate::nfs::DirectoryMetadata) -> Seq<char> {
    "{\"name\":"@ + spec_json_string(md.name@) + ",\"is_private\":"@ + spec_json_bool(
        md.key.access_level is Private,
    ) + ",\"is_versioned\":"@ + spec_json_bool(md.key.versioned) + ",\"user_metadata\":"@
        + spec_json_string(crate::serialisation::b64_of(md.user_metadata@))
        + ",\"creation_time_sec\":"@ + spec_dec_int(md.created_time_sec as int)
        + ",\"creation_time_nsec\":"@ + spec_dec_int(md.created_time_nsec as int)
        + ",\"modification_time_sec\":"@ + spec_dec_int(md.modified_time_sec as int)
        + ",\"modification_time_nsec\":"@ + spec_dec_int(md.modified_time_nsec as int) + "}"@
}

/// The JSON object a file is rendered as, stated over the model directly.
pub open spec fn spec_json_of_file(f: crate::nfs::File) -> Seq<char> {
    "{\"name\":"@ + spec_json_string(f.metadata.name@) + ",\"size\":"@ + spec_dec_int(
        f.content@.len() as int,
    ) + ",\"user_metadata\":"@ + spec_json_string(
        crate::serialisation::b64_of(f.metadata.user_metadata@),
    ) + ",\"creation_time_sec\":"@ + spec_dec_int(f.metadata.created_time_sec as int)
        + ",\"creation_time_nsec\":"@ + spec_dec_int(f.metadata.created_time_nsec as int)
        + ",\"modification_time_sec\":"@ + spec_dec_int(f.metadata.modified_time_sec as int)
        + ",\"modification_time_nsec\":"@ + spec_dec_int(f.metadata.modified_time_nsec as int)
        + "}"@
}

/// The array body for a listing's sub-directories, over the model.
pub open spec fn spec_json_of_metadatas(v: Seq<crate::nfs::DirectoryMetadata>) -> Seq<char>
    decreases v.len(),
{
    if v.len() == 0 {
        Seq::empty()
    } else if v.len() == 1 {
        spec_json_of_metadata(v[0])
    } else {
        spec_json_of_metadatas(v.drop_last()) + seq![','] + spec_json_of_metadata(v.last())
    }
}

/// The array body for a listing's files, over the model.
pub open spec fn spec_json_of_files(v: Seq<crate::nfs::File>) -> Seq<char>
    decreases v.len(),
{
    if v.len() == 0 {
        Seq::empty()
    } else if v.len() == 1 {
        spec_json_of_file(v[0])
    } else {
        spec_json_of_files(v.drop_last()) + seq![','] + spec_json_of_file(v.last())
    }
}

/// The whole JSON document a directory listing is rendered as, over the
/// model.
pub open spec fn spec_json_of_listing(l: crate::nfs::DirectoryListing) -> Seq<char> {
    "{\"info\":"@ + spec_json_of_metadata(l.metadata) + ",\"files\":["@ + spec_json_of_files(
        l.files@,
    ) + "],\"sub_directories\":["@ + spec_json_of_metadatas(l.sub_directories@) + "]}"@
}

/// A response shape that reflects a directory's metadata renders as that
/// metadata's document.
pub proof fn lemma_json_dir_info_of(i: DirectoryInfo, md: crate::nfs::DirectoryMetadata)
    requires
        crate::helper::dir_info_matches(i, md),
    ensures
        spec_json_dir_info(i) == spec_json_of_metadata(md),
{
}

/// A response shape that reflects a file's metadata and size renders as
/// that file's document.
pub proof fn lemma_json_file_info_of(i: FileInfo, f: crate::nfs::File)
    requires
        crate::helper::file_info_matches(i, f.metadata, f.content@.len() as int),
    ensures
        spec_json_file_info(i) == spec_json_of_file(f),
{
}

/// Pointwise matching array bodies render as the same text.
pub proof fn lemma_json_dir_infos_of(
    v: Seq<DirectoryInfo>,
    w: Seq<crate::nfs::DirectoryMetadata>,
)
    requires
        v.len() == w.len(),
        forall|i: int|
            0 <= i < w.len() ==> crate::helper::dir_info_matches(#[trigger] v[i], w[i]),
    ensures
        spec_json_dir_infos(v) == spec_json_of_metadatas(w),
    decreases v.len(),
{
    if v.len() == 0 {
    } else if v.len() == 1 {
        lemma_json_dir_info_of(v[0], w[0]);
    } else {
        assert forall|i: int| 0 <= i < w.drop_last().len() implies crate::helper::dir_info_matches(
            #[trigger] v.drop_last()[i],
            w.drop_last()[i],
        ) by {
            assert(v.drop_last()[i] == v[i]);
            assert(w.drop_last()[i] == w[i]);
        }
        lemma_json_dir_infos_of(v.drop_last(), w.drop_last());
        lemma_json_dir_info_of(v.last(), w.last());
    }
}

/// Pointwise matching file array bodies render as the same text.
pub proof fn lemma_json_file_infos_of(v: Seq<FileInfo>, w: Seq<crate::nfs::File>)
    requires
        v.len() == w.len(),
        forall|i: int|
            0 <= i < w.len() ==> crate::helper::file_info_matches(
                #[trigger] v[i],
                w[i].metadata,
                w[i].content@.len() as int,
            ),
    ensures
        spec_json_file_infos(v) == spec_json_of_files(w),
    decreases v.len(),
{
    if v.len() == 0 {
    } else if v.len() == 1 {
        lemma_json_file_info_of(v[0], w[0]);
    } else {
        assert forall|i: int| 0 <= i
            < w.drop_last().len() implies crate::helper::file_info_matches(
            #[trigger] v.drop_last()[i],
            w.drop_last()[i].metadata,
            w.drop_last()[i].content@.len() as int,
        ) by {
            assert(v.drop_last()[i] == v[i]);
            assert(w.drop_last()[i] == w[i]);
        }
        lemma_json_file_infos_of(v.drop_last(), w.drop_last());
        lemma_json_file_info_of(v.last(), w.last());
    }
}

/// A response shape that reflects a whole listing renders as the listing's
/// document.
pub proof fn lemma_json_dir_response_of(r: GetDirResponse, l: crate::nfs::DirectoryListing)
    requires
        crate::helper::dir_response_matches(r, l),
    ensures
        spec_json_dir_response(r) == spec_json_of_listing(l),
{
    lemma_json_dir_info_of(r.info, l.metadata);
    lemma_json_dir_infos_of(r.sub_directories@, l.sub_directories@);
    lemma_json_file_infos_of(r.files@, l.files@);
}

/// The whole JSON document for a file read: the read bytes base64-encoded,
/// and the file's descriptive data or `null`.
pub open spec fn spec_json_file_response(content_b64: Seq<char>, metadata: Option<FileInfo>) -> Seq<
    char,
> {
    "{\"content\":"@ + spec_json_string(content_b64) + ",\"metadata\":"@ + (match metadata {
        Some(i) => spec_json_file_info(i),
        None => "null"@,
    }) + "}"@
}

/// The same document stated over the model: the base64 text of the read
/// bytes, and the file itself when its data is included.
pub open spec fn spec_json_file_read(
    content_b64: Seq<char>,
    metadata: Option<crate::nfs::File>,
) -> Seq<char> {
    "{\"content\":"@ + spec_json_string(content_b64) + ",\"metadata\":"@ + (match metadata {
        Some(f) => spec_json_of_file(f),
        None => "null"@,
    }) + "}"@
}

/// Renders a file read response as its JSON document.
pub fn encode_file_response(content_b64: &String, metadata: Option<&FileInfo>) -> (s: String)
    ensures
        s@ == spec_json_file_response(content_b64@, match metadata {
            Some(i) => Some(*i),
            None => None,
        }),
{
    let mut out = String::new();
    out.append("{\"content\":");
    append_json_string(&mut out, content_b64.as_str());
    out.append(",\"metadata\":");
    match metadata {
        Some(i) => append_file_info(&mut out, i),
        None => out.append("null"),
    }
    out.append("}");
    proof {
        assert(out@ =~= spec_json_file_response(content_b64@, match metadata {
            Some(i) => Some(*i),
            None => None,
        }));
    }
    out
}

} // verus!
