//! The trusted boundary around the `zip` crate.
//!
//! Everything the library believes about the container codec is stated here:
//! type declarations for the codec's opaque values, names for what those
//! values hold, and thin wrappers whose contracts Verus takes on trust.  Each
//! wrapper's doc comment names the outside functions it relies on.

use vstd::prelude::*;

use crate::CompressionKind;
use std::io::Cursor;
use zip::read::ZipArchive;
use zip::write::ZipWriter;

verus! {

#[verifier::external_type_specification]
#[verifier::external_body]
#[verifier::reject_recursive_types(T)]
pub struct ExCursor<T>(Cursor<T>);

#[verifier::external_type_specification]
#[verifier::external_body]
#[verifier::reject_recursive_types(R)]
pub struct ExZipArchive<R>(ZipArchive<R>);

/// An owned container writer over an in-memory buffer.
///
/// The codec's writer type carries bounds Verus refuses to declare, so it is
/// held opaquely in this struct; what it holds is named by `written_names`,
/// `current_bytes` and `finished_bytes` below.
#[verifier::external_body]
pub struct WriterHandle {
    inner: ZipWriter<Cursor<Vec<u8>>>,
}

#[verifier::external_type_specification]
#[verifier::external_body]
pub struct ExZipError(zip::result::ZipError);

/// A plain mirror of the codec's error cases, so that verified code can map
/// them into the library's taxonomy.
#[derive(Debug, Clone, Copy, Eq, PartialEq, Structural)]
pub enum CodecFault {
    /// An input/output failure, including corruption found while decoding.
    Io,
    /// The container or an entry is structurally invalid.
    InvalidArchive,
    /// The container uses a capability the codec does not support.
    UnsupportedArchive,
    /// The requested entry does not exist.
    FileNotFound,
    /// The password was rejected.
    InvalidPassword,
    /// The entry's compression method is not compiled in.
    MethodNotSupported,
    /// A case this mirror does not name.
    Other,
}

/// Relies on the variant structure of zip::result::ZipError: one mirror case
/// for each variant, payloads dropped.
#[verifier::external_body]
fn fault_of(e: zip::result::ZipError) -> CodecFault {
    match e {
        zip::result::ZipError::Io(_) => CodecFault::Io,
        zip::result::ZipError::InvalidArchive(_) => CodecFault::InvalidArchive,
        zip::result::ZipError::UnsupportedArchive(_) => CodecFault::UnsupportedArchive,
        zip::result::ZipError::FileNotFound => CodecFault::FileNotFound,
        zip::result::ZipError::InvalidPassword => CodecFault::InvalidPassword,
        zip::result::ZipError::CompressionMethodNotSupported(_) => CodecFault::MethodNotSupported,
        _ => CodecFault::Other,
    }
}

/// The decoded entry names a parsed archive holds, in central-directory order.
pub uninterp spec fn names_of(a: ZipArchive<Cursor<Vec<u8>>>) -> Seq<Seq<char>>;

/// Whether entry `i` of a parsed archive is marked encrypted.
pub uninterp spec fn encrypted_at(a: ZipArchive<Cursor<Vec<u8>>>, i: int) -> bool;

/// The decompressed contents of unencrypted entry `i` of a parsed archive.
pub uninterp spec fn plain_at(a: ZipArchive<Cursor<Vec<u8>>>, i: int) -> Seq<u8>;

/// The bytes decoding encrypted entry `i` under password `pwd` yields.
pub uninterp spec fn decrypted_at(a: ZipArchive<Cursor<Vec<u8>>>, i: int, pwd: Seq<u8>) -> Seq<u8>;

/// The names of the entries started on a writer so far, in order.
pub uninterp spec fn written_names(w: WriterHandle) -> Seq<Seq<char>>;

/// The bytes written to the writer's currently open entry.
pub uninterp spec fn current_bytes(w: WriterHandle) -> Seq<u8>;

/// The complete container bytes that finalizing a writer produces.
pub uninterp spec fn finished_bytes(w: WriterHandle) -> Seq<u8>;

/// Whether the codec parses the given bytes as a valid container.
pub uninterp spec fn parse_ok(data: Seq<u8>) -> bool;

/// Whether peeking entry `i`'s metadata succeeds on this archive.
pub uninterp spec fn probe_ok_at(a: ZipArchive<Cursor<Vec<u8>>>, i: int) -> bool;

/// Whether fully decoding unencrypted entry `i` succeeds on this archive.
pub uninterp spec fn plain_ok_at(a: ZipArchive<Cursor<Vec<u8>>>, i: int) -> bool;

/// Whether fully decoding encrypted entry `i` under `pwd` succeeds.
pub uninterp spec fn sealed_ok_at(a: ZipArchive<Cursor<Vec<u8>>>, i: int, pwd: Seq<u8>) -> bool;

/// The compression-method codes of the entries started on a writer, one per
/// started entry, in order.
pub uninterp spec fn written_methods(w: WriterHandle) -> Seq<u8>;

/// The levels the codec was asked to use for the started entries, in order.
pub uninterp spec fn written_levels(w: WriterHandle) -> Seq<Option<u8>>;

/// Whether starting a new entry with this name, method code and level
/// succeeds on this writer.
pub uninterp spec fn begin_ok(w: WriterHandle, name: Seq<char>, code: u8, level: Option<u8>) -> bool;

/// Whether appending these bytes to the writer's open entry succeeds.
pub uninterp spec fn append_ok(w: WriterHandle, data: Seq<u8>) -> bool;

/// Whether finalizing this writer into container bytes succeeds.
pub uninterp spec fn finish_ok(w: WriterHandle) -> bool;

/// Entry `i` is the first entry of the archive carrying `name`.
pub open spec fn found_at(a: ZipArchive<Cursor<Vec<u8>>>, name: Seq<char>, i: int) -> bool {
    &&& 0 <= i < names_of(a).len()
    &&& names_of(a)[i] == name
    &&& (forall|j: int| 0 <= j < i ==> #[trigger] names_of(a)[j] != name)
}

/// At most one entry is the first carrying a given name.
pub(crate) proof fn lemma_found_at_unique(
    a: ZipArchive<Cursor<Vec<u8>>>,
    name: Seq<char>,
    i: int,
    j: int,
)
    requires
        found_at(a, name, i),
        found_at(a, name, j),
    ensures
        i == j,
{
    if i < j {
        assert(names_of(a)[i] == name);
        assert(names_of(a)[i] != name);
    } else if j < i {
        assert(names_of(a)[j] == name);
        assert(names_of(a)[j] != name);
    }
}

/// Two parsed archives hold the same entry table: same names, same encryption
/// flags, same contents and the same decode outcomes under every password.
/// Decoding moves the underlying reader, so a wrapper taking the archive
/// mutably preserves this rather than plain equality; every codec operation
/// seeks before it reads, so none depends on where the reader was left.
pub open spec fn table_unchanged(a: ZipArchive<Cursor<Vec<u8>>>, b: ZipArchive<Cursor<Vec<u8>>>) -> bool {
    &&& names_of(b) == names_of(a)
    &&& forall|i: int| #[trigger] encrypted_at(b, i) == encrypted_at(a, i)
    &&& forall|i: int| #[trigger] plain_at(b, i) == plain_at(a, i)
    &&& forall|i: int, p: Seq<u8>| #[trigger] decrypted_at(b, i, p) == decrypted_at(a, i, p)
    &&& forall|i: int| #[trigger] probe_ok_at(b, i) == probe_ok_at(a, i)
    &&& forall|i: int| #[trigger] plain_ok_at(b, i) == plain_ok_at(a, i)
    &&& forall|i: int, p: Seq<u8>| #[trigger] sealed_ok_at(b, i, p) == sealed_ok_at(a, i, p)
}

/// Relies on zip::ZipArchive::new over an in-memory cursor: parsing is a
/// deterministic function of the bytes, succeeding exactly when they form a
/// valid container.
#[verifier::external_body]
pub(crate) fn open_codec(data: Vec<u8>) -> (r: Result<ZipArchive<Cursor<Vec<u8>>>, CodecFault>)
    ensures
        r is Ok <==> parse_ok(data@),
{
    ZipArchive::new(Cursor::new(data)).map_err(fault_of)
}

/// Relies on zip::ZipArchive::file_names: the decoded entry names in
/// central-directory order.  Picks the first entry carrying the given name.
#[verifier::external_body]
pub(crate) fn find_index(a: &ZipArchive<Cursor<Vec<u8>>>, name: &str) -> (r: Option<usize>)
    ensures
        match r {
            Some(i) => found_at(*a, name@, i as int),
            None => forall|i: int|
                0 <= i < names_of(*a).len() ==> #[trigger] names_of(*a)[i] != name@,
        },
{
    a.file_names().position(|n| n == name)
}

/// Relies on zip::ZipArchive::file_names: the decoded entry names in
/// central-directory order, as owned strings.
#[verifier::external_body]
pub(crate) fn list_names(a: &ZipArchive<Cursor<Vec<u8>>>) -> (r: Vec<String>)
    ensures
        r@.len() == names_of(*a).len(),
        forall|i: int| 0 <= i < r@.len() ==> #[trigger] r@[i]@ == names_of(*a)[i],
{
    a.file_names().map(|n| n.to_string()).collect()
}

/// Relies on zip::ZipArchive::by_index_raw and zip::read::ZipFile::encrypted:
/// peeks the encryption flag of entry `i` without committing to decode.
/// Reading moves the underlying cursor but leaves the entry table as it was;
/// on a valid index the codec reports neither a missing entry nor a password
/// failure here.
#[verifier::external_body]
pub(crate) fn probe_encrypted(a: &mut ZipArchive<Cursor<Vec<u8>>>, i: usize) -> (r: Result<
    bool,
    CodecFault,
>)
    requires
        0 <= i < names_of(*old(a)).len(),
    ensures
        table_unchanged(*old(a), *final(a)),
        r is Ok <==> probe_ok_at(*old(a), i as int),
        r matches Ok(b) ==> b == encrypted_at(*old(a), i as int),
        r matches Err(f) ==> f != CodecFault::FileNotFound && f != CodecFault::InvalidPassword,
{
    match a.by_index_raw(i) {
        Ok(f) => Ok(f.encrypted()),
        Err(e) => Err(fault_of(e)),
    }
}

/// Relies on zip::ZipArchive::by_index and std::io::Read::read_to_end: drains
/// the decompressed contents of unencrypted entry `i`, sized by the codec's
/// size hint.  Corruption surfaces as the codec's own failure kind; on a
/// valid index the codec never reports a missing entry.
#[verifier::external_body]
pub(crate) fn decode_plain(a: &mut ZipArchive<Cursor<Vec<u8>>>, i: usize) -> (r: Result<
    Vec<u8>,
    CodecFault,
>)
    requires
        0 <= i < names_of(*old(a)).len(),
        !encrypted_at(*old(a), i as int),
    ensures
        table_unchanged(*old(a), *final(a)),
        r is Ok <==> plain_ok_at(*old(a), i as int),
        r matches Ok(v) ==> v@ == plain_at(*old(a), i as int),
        r matches Err(f) ==> f != CodecFault::FileNotFound,
{
    match a.by_index(i) {
        Ok(mut f) => {
            let mut buf = Vec::with_capacity(usize::try_from(f.size()).unwrap_or(0));
            match std::io::Read::read_to_end(&mut f, &mut buf) {
                Ok(_) => Ok(buf),
                Err(_) => Err(CodecFault::Io),
            }
        },
        Err(e) => Err(fault_of(e)),
    }
}

/// Relies on zip::ZipArchive::by_index_decrypt and std::io::Read::read_to_end:
/// drains the contents of encrypted entry `i` as decoded under `pwd`.  A
/// rejected password surfaces as the codec's password failure; on a valid
/// index the codec never reports a missing entry.
#[verifier::external_body]
pub(crate) fn decode_sealed(a: &mut ZipArchive<Cursor<Vec<u8>>>, i: usize, pwd: &[u8]) -> (r:
    Result<Vec<u8>, CodecFault>)
    requires
        0 <= i < names_of(*old(a)).len(),
        encrypted_at(*old(a), i as int),
    ensures
        table_unchanged(*old(a), *final(a)),
        r is Ok <==> sealed_ok_at(*old(a), i as int, pwd@),
        r matches Ok(v) ==> v@ == decrypted_at(*old(a), i as int, pwd@),
        r matches Err(f) ==> f != CodecFault::FileNotFound,
{
    match a.by_index_decrypt(i, pwd) {
        Ok(mut f) => {
            let mut buf = Vec::with_capacity(usize::try_from(f.size()).unwrap_or(0));
            match std::io::Read::read_to_end(&mut f, &mut buf) {
                Ok(_) => Ok(buf),
                Err(_) => Err(CodecFault::Io),
            }
        },
        Err(e) => Err(fault_of(e)),
    }
}

/// Relies on zip::ZipWriter::new over an empty in-memory cursor: a fresh
/// container with no entries started.
#[verifier::external_body]
pub(crate) fn new_writer() -> (w: WriterHandle)
    ensures
        written_names(w) == Seq::<Seq<char>>::empty(),
        written_methods(w) == Seq::<u8>::empty(),
        written_levels(w) == Seq::<Option<u8>>::empty(),
        current_bytes(w) == Seq::<u8>::empty(),
{
    WriterHandle { inner: ZipWriter::new(Cursor::new(Vec::new())) }
}

/// Relies on zip::ZipWriter::start_file with options built from the given
/// method and level: finishes any previously open entry and registers a new
/// one carrying exactly this name, method and level.  Success is a
/// deterministic function of the writer's state and the arguments (a
/// duplicate name, among other things, is refused); on failure the writer's
/// progress is unspecified.
#[verifier::external_body]
pub(crate) fn begin_entry(
    w: &mut WriterHandle,
    name: &str,
    kind: CompressionKind,
    level: Option<u8>,
) -> (r: Result<(), CodecFault>)
    ensures
        r is Ok <==> begin_ok(*old(w), name@, kind.spec_code(), level),
        r matches Ok(()) ==> {
            &&& written_names(*final(w)) == written_names(*old(w)).push(name@)
            &&& written_methods(*final(w)) == written_methods(*old(w)).push(kind.spec_code())
            &&& written_levels(*final(w)) == written_levels(*old(w)).push(level)
            &&& current_bytes(*final(w)) == Seq::<u8>::empty()
        },
{
    let method = match kind {
        CompressionKind::Stored => zip::CompressionMethod::Stored,
        CompressionKind::Deflated => zip::CompressionMethod::Deflated,
        CompressionKind::Bzip2 => zip::CompressionMethod::Bzip2,
        CompressionKind::Lzma => zip::CompressionMethod::Lzma,
    };
    let lvl = match level {
        Some(v) => Some(v as i64),
        None => None,
    };
    let opts = zip::write::SimpleFileOptions::default().compression_method(method)
        .compression_level(lvl);
    w.inner.start_file(name, opts).map_err(fault_of)
}

/// Relies on the std::io::Write impl of zip::ZipWriter: write_all appends the
/// whole buffer to the entry being written.  Success is a deterministic
/// function of the writer's state and the bytes (the in-memory writer fails
/// only past the codec's large-file threshold or after an earlier abort); on
/// failure nothing is promised of the writer's progress.
#[verifier::external_body]
pub(crate) fn append_chunk(w: &mut WriterHandle, buf: &[u8]) -> (r: Result<
    (),
    CodecFault,
>)
    ensures
        r is Ok <==> append_ok(*old(w), buf@),
        r matches Ok(()) ==> {
            &&& written_names(*final(w)) == written_names(*old(w))
            &&& written_methods(*final(w)) == written_methods(*old(w))
            &&& written_levels(*final(w)) == written_levels(*old(w))
            &&& current_bytes(*final(w)) == current_bytes(*old(w)) + buf@
        },
{
    match std::io::Write::write_all(&mut w.inner, buf) {
        Ok(()) => Ok(()),
        Err(_) => Err(CodecFault::Io),
    }
}

/// Relies on zip::ZipWriter::finish and std::io::Cursor::into_inner: writes
/// the trailing central directory and hands back the complete container
/// bytes.  The writer only ever touches its in-memory buffer, so success is a
/// deterministic function of the writer's state.
#[verifier::external_body]
pub(crate) fn finish_writer(w: WriterHandle) -> (r: Result<Vec<u8>, CodecFault>)
    ensures
        r is Ok <==> finish_ok(w),
        r matches Ok(b) ==> b@ == finished_bytes(w),
{
    match w.inner.finish() {
        Ok(c) => Ok(c.into_inner()),
        Err(e) => Err(fault_of(e)),
    }
}

/// Maps a codec fault into the library's error taxonomy.
pub open spec fn spec_fault_error(f: CodecFault) -> crate::ArchiveError {
    match f {
        CodecFault::Io => crate::ArchiveError::Io,
        CodecFault::InvalidArchive => crate::ArchiveError::MalformedArchive,
        CodecFault::UnsupportedArchive => crate::ArchiveError::UnsupportedMode,
        CodecFault::FileNotFound => crate::ArchiveError::EntryNotFound,
        CodecFault::InvalidPassword => crate::ArchiveError::DecryptionFailed,
        CodecFault::MethodNotSupported => crate::ArchiveError::UnsupportedMode,
        CodecFault::Other => crate::ArchiveError::Io,
    }
}

/// Maps a codec fault into the library's error taxonomy.
pub(crate) fn fault_error(f: CodecFault) -> (e: crate::ArchiveError)
    ensures
        e == spec_fault_error(f),
{
    match f {
        CodecFault::Io => crate::ArchiveError::Io,
        CodecFault::InvalidArchive => crate::ArchiveError::MalformedArchive,
        CodecFault::UnsupportedArchive => crate::ArchiveError::UnsupportedMode,
        CodecFault::FileNotFound => crate::ArchiveError::EntryNotFound,
        CodecFault::InvalidPassword => crate::ArchiveError::DecryptionFailed,
        CodecFault::MethodNotSupported => crate::ArchiveError::UnsupportedMode,
        CodecFault::Other => crate::ArchiveError::Io,
    }
}

} // verus!
