//! An in-memory ZIP container access layer with a single-cursor discipline.
//!
//! An archive handle (`ZipFile`) guards one codec instance; at most one entry
//! cursor (`ZipExtFile`) may be open against it at a time.  A second open, or a
//! metadata operation while a cursor is live, fails fast with `ArchiveError::Busy`
//! instead of blocking.  The byte-level container format is delegated to the
//! `zip` crate behind the trusted boundary in `codec`.

use vstd::prelude::*;

pub mod codec;
pub mod read;
pub mod write;

verus! {

/// Numeric code for entries stored without compression.
pub const ZIP_STORED: u8 = 0;

/// Numeric code for Deflate compression.
pub const ZIP_DEFLATED: u8 = 8;

/// Numeric code for Bzip2 compression.
pub const ZIP_BZIP2: u8 = 12;

/// Numeric code for LZMA compression.
pub const ZIP_LZMA: u8 = 14;

/// The closed set of compression kinds an entry may use.
#[derive(Debug, Clone, Copy, Eq, PartialEq, Hash, Structural)]
pub enum CompressionKind {
    Stored,
    Deflated,
    Bzip2,
    Lzma,
}

impl CompressionKind {
    /// The numeric code of this kind.
    pub open spec fn spec_code(self) -> u8 {
        match self {
            CompressionKind::Stored => ZIP_STORED,
            CompressionKind::Deflated => ZIP_DEFLATED,
            CompressionKind::Bzip2 => ZIP_BZIP2,
            CompressionKind::Lzma => ZIP_LZMA,
        }
    }

    /// The kind a numeric code denotes, if any.
    pub open spec fn spec_from_code(code: u8) -> Option<CompressionKind> {
        if code == ZIP_STORED {
            Some(CompressionKind::Stored)
        } else if code == ZIP_DEFLATED {
            Some(CompressionKind::Deflated)
        } else if code == ZIP_BZIP2 {
            Some(CompressionKind::Bzip2)
        } else if code == ZIP_LZMA {
            Some(CompressionKind::Lzma)
        } else {
            None
        }
    }

    /// Returns the numeric code of this kind.
    pub fn code(self) -> (c: u8)
        ensures
            c == self.spec_code(),
    {
        match self {
            CompressionKind::Stored => ZIP_STORED,
            CompressionKind::Deflated => ZIP_DEFLATED,
            CompressionKind::Bzip2 => ZIP_BZIP2,
            CompressionKind::Lzma => ZIP_LZMA,
        }
    }

    /// Resolves a numeric code to a kind; an unknown code is rejected as
    /// unsupported.
    pub fn from_code(code: u8) -> (r: Result<CompressionKind, ArchiveError>)
        ensures
            match r {
                Ok(k) => Self::spec_from_code(code) == Some(k),
                Err(e) => Self::spec_from_code(code) is None && e == ArchiveError::UnsupportedMode,
            },
    {
        if code == ZIP_STORED {
            Ok(CompressionKind::Stored)
        } else if code == ZIP_DEFLATED {
            Ok(CompressionKind::Deflated)
        } else if code == ZIP_BZIP2 {
            Ok(CompressionKind::Bzip2)
        } else if code == ZIP_LZMA {
            Ok(CompressionKind::Lzma)
        } else {
            Err(ArchiveError::UnsupportedMode)
        }
    }
}

/// The closed error taxonomy of the library.
///
/// Every public operation either succeeds or reports exactly one of these
/// kinds; no error is retried internally.
#[derive(Debug, Clone, Copy, Eq, PartialEq, Structural)]
pub enum ArchiveError {
    /// The container's index could not be parsed on open.
    MalformedArchive,
    /// An operation was attempted against a drained archive or cursor.
    AlreadyClosed,
    /// The archive's exclusive lock is held by a live entry cursor.
    Busy,
    /// No entry with the requested name exists.
    EntryNotFound,
    /// The entry is encrypted and no password was supplied.
    PasswordRequired,
    /// The supplied password was rejected.
    DecryptionFailed,
    /// The operation is not supported for this mode, selector or kind.
    UnsupportedMode,
    /// The requested compression level is out of range for its kind.
    InvalidCompressionLevel,
    /// A pass-through input/output or corruption failure from the codec.
    Io,
}

/// Whether an archive handle was opened for reading or for writing.
#[derive(Debug, Clone, Copy, Eq, PartialEq, Structural)]
pub enum ArchiveMode {
    Read,
    Write,
}

/// The lifecycle state of an archive handle's guarded codec slot.
///
/// `Available`: the codec is present and no cursor is live.
/// `Engaged`: the exclusive lock is held by a live entry cursor.
/// `Closed`: the slot has been drained.
#[derive(Debug, Clone, Copy, Eq, PartialEq, Structural)]
pub enum ArchiveStatus {
    Available,
    Engaged,
    Closed,
}

/// Whether `level` is a valid compression level for `kind`.
///
/// Stored and LZMA ignore the level entirely; Deflate accepts 0 through 9;
/// Bzip2 accepts 1 through 9.
pub open spec fn level_ok(kind: CompressionKind, level: Option<u8>) -> bool {
    match (kind, level) {
        (CompressionKind::Deflated, Some(l)) => l <= 9,
        (CompressionKind::Bzip2, Some(l)) => 1 <= l && l <= 9,
        _ => true,
    }
}

/// The level actually handed to the codec: kinds that ignore levels get none.
pub open spec fn spec_effective_level(kind: CompressionKind, level: Option<u8>) -> Option<u8> {
    match kind {
        CompressionKind::Deflated => level,
        CompressionKind::Bzip2 => level,
        CompressionKind::Stored => None,
        CompressionKind::Lzma => None,
    }
}

/// Validates a compression level against its kind.
pub fn validate(kind: CompressionKind, level: Option<u8>) -> (r: Result<(), ArchiveError>)
    ensures
        r is Ok <==> level_ok(kind, level),
        r is Err ==> r == Err::<(), ArchiveError>(ArchiveError::InvalidCompressionLevel),
{
    match (kind, level) {
        (CompressionKind::Deflated, Some(l)) => {
            if l <= 9 {
                Ok(())
            } else {
                Err(ArchiveError::InvalidCompressionLevel)
            }
        },
        (CompressionKind::Bzip2, Some(l)) => {
            if 1 <= l && l <= 9 {
                Ok(())
            } else {
                Err(ArchiveError::InvalidCompressionLevel)
            }
        },
        _ => Ok(()),
    }
}

/// Resolves the codec parameter for a kind: the level to pass on, with levels
/// dropped for the kinds that ignore them.
pub fn resolve(kind: CompressionKind, level: Option<u8>) -> (r: Option<u8>)
    ensures
        r == spec_effective_level(kind, level),
{
    match kind {
        CompressionKind::Deflated => level,
        CompressionKind::Bzip2 => level,
        CompressionKind::Stored => None,
        CompressionKind::Lzma => None,
    }
}

/// A valid effective level is always valid for its kind, and kinds that ignore
/// levels always resolve to none.
pub proof fn lemma_effective_level_ok(kind: CompressionKind, level: Option<u8>)
    requires
        level_ok(kind, level),
    ensures
        level_ok(kind, spec_effective_level(kind, level)),
        kind == CompressionKind::Stored || kind == CompressionKind::Lzma
            ==> spec_effective_level(kind, level) is None,
{
}

/// A metadata value object describing an entry to be created on write.
///
/// The compression level is validated against the kind at entry-open time, not
/// here, so a descriptor can be built before an archive exists.
#[derive(Debug)]
pub struct ZipInfo {
    /// The entry's display name.
    pub filename: String,
    /// Numeric compression-kind code for the entry.
    pub compress_type: u8,
    /// Optional compression level for the entry.
    pub compress_level: Option<u8>,
}

impl ZipInfo {
    /// A descriptor with the given name, stored without compression and with
    /// no explicit level.
    pub fn new(filename: &str) -> (z: ZipInfo)
        ensures
            z.filename@ == filename@,
            z.compress_type == ZIP_STORED,
            z.compress_level is None,
    {
        ZipInfo { filename: filename.to_owned(), compress_type: ZIP_STORED, compress_level: None }
    }
}

/// How a caller names the entry to open on a write handle: by plain name
/// (archive-wide defaults apply) or by full descriptor (its settings win).
pub enum EntrySelector {
    Name(String),
    Info(ZipInfo),
}

impl EntrySelector {
    /// The entry name this selector denotes.
    pub open spec fn spec_name(&self) -> Seq<char> {
        match self {
            EntrySelector::Name(n) => n@,
            EntrySelector::Info(zi) => zi.filename@,
        }
    }

    /// The compression-kind code this selector requests, given the
    /// archive-wide default.
    pub open spec fn spec_kind_code(&self, default_code: u8) -> u8 {
        match self {
            EntrySelector::Name(_) => default_code,
            EntrySelector::Info(zi) => zi.compress_type,
        }
    }

    /// The compression level this selector requests, given the archive-wide
    /// default.
    pub open spec fn spec_level(&self, default_level: Option<u8>) -> Option<u8> {
        match self {
            EntrySelector::Name(_) => default_level,
            EntrySelector::Info(zi) => zi.compress_level,
        }
    }
}

} // verus!

verus! {

/// True when the mode string is exactly the one-character mode `c`.
pub open spec fn is_mode(m: Seq<char>, c: char) -> bool {
    m.len() == 1 && m[0] == c
}

/// The single character of a mode string, if it has exactly one.
fn mode_char(mode: &str) -> (c: Option<char>)
    ensures
        match c {
            Some(ch) => mode@.len() == 1 && mode@[0] == ch,
            None => mode@.len() != 1,
        },
{
    if mode.unicode_len() == 1 {
        Some(mode.get_char(0))
    } else {
        None
    }
}

/// The mode-tagged body of an archive handle.
pub enum ZipFileInner {
    Read(read::ReadZipFile),
    Write(write::WriteZipFile),
}

/// An archive handle over one container, read- or write-mode.
///
/// The handle guards a single codec slot; at most one entry cursor may be
/// open against it at a time, and contention is reported as `Busy` rather
/// than hidden behind blocking.
pub struct ZipFile {
    pub file: ZipFileInner,
}

impl ZipFile {
    /// Whether this handle reads an existing container or builds a new one.
    pub open spec fn mode(&self) -> ArchiveMode {
        match self.file {
            ZipFileInner::Read(_) => ArchiveMode::Read,
            ZipFileInner::Write(_) => ArchiveMode::Write,
        }
    }

    /// The lifecycle state of the guarded slot.
    pub open spec fn status(&self) -> ArchiveStatus {
        match self.file {
            ZipFileInner::Read(h) => h.status(),
            ZipFileInner::Write(h) => h.status(),
        }
    }

    /// The read codec in the slot; meaningful only for an available read handle.
    pub open spec fn codec(&self) -> zip::read::ZipArchive<std::io::Cursor<Vec<u8>>> {
        match self.file {
            ZipFileInner::Read(h) => h.codec(),
            ZipFileInner::Write(_) => vstd::pervasive::arbitrary(),
        }
    }

    /// The read-mode handle inside; meaningful only in read mode.
    pub open spec fn read_handle(&self) -> read::ReadZipFile {
        match self.file {
            ZipFileInner::Read(h) => h,
            ZipFileInner::Write(_) => vstd::pervasive::arbitrary(),
        }
    }

    /// The writer in the slot; meaningful only for an available write handle.
    pub open spec fn writer(&self) -> codec::WriterHandle {
        match self.file {
            ZipFileInner::Write(h) => h.writer(),
            ZipFileInner::Read(_) => vstd::pervasive::arbitrary(),
        }
    }

    /// The entry names of a read handle's container, in archive order.
    pub open spec fn entries(&self) -> Seq<Seq<char>> {
        codec::names_of(self.codec())
    }

    /// Whether entry `i` of a read handle's container is marked encrypted.
    pub open spec fn encrypted(&self, i: int) -> bool {
        codec::encrypted_at(self.codec(), i)
    }

    /// The decoded contents of unencrypted entry `i`.
    pub open spec fn plain(&self, i: int) -> Seq<u8> {
        codec::plain_at(self.codec(), i)
    }

    /// The bytes decoding encrypted entry `i` under `pwd` yields.
    pub open spec fn decrypted(&self, i: int, pwd: Seq<u8>) -> Seq<u8> {
        codec::decrypted_at(self.codec(), i, pwd)
    }

    /// A write handle's archive-wide default compression kind.
    pub open spec fn default_kind(&self) -> CompressionKind {
        match self.file {
            ZipFileInner::Write(h) => h.compression_kind,
            ZipFileInner::Read(_) => vstd::pervasive::arbitrary(),
        }
    }

    /// A write handle's archive-wide default compression level.
    pub open spec fn default_level(&self) -> Option<u8> {
        match self.file {
            ZipFileInner::Write(h) => h.compression_level,
            ZipFileInner::Read(_) => vstd::pervasive::arbitrary(),
        }
    }

    /// The names of the entries started on a write handle, in order.
    pub open spec fn started(&self) -> Seq<Seq<char>> {
        codec::written_names(self.writer())
    }

    /// The method codes the started entries were created with, in order.
    pub open spec fn started_methods(&self) -> Seq<u8> {
        codec::written_methods(self.writer())
    }

    /// The levels the codec was asked to use for the started entries.
    pub open spec fn started_levels(&self) -> Seq<Option<u8>> {
        codec::written_levels(self.writer())
    }

    /// The bytes written to a write handle's entry currently being built.
    pub open spec fn current(&self) -> Seq<u8> {
        codec::current_bytes(self.writer())
    }
}

} // verus!

verus! {

impl ZipFile {
    /// Opens an archive handle over the given container bytes.
    ///
    /// Mode `"r"` parses the bytes as an existing container, succeeding
    /// exactly when the codec accepts them; any parse failure is
    /// `MalformedArchive`.  Mode `"w"` begins a new, empty
    /// container (the bytes are not consulted) under the given archive-wide
    /// compression defaults; an unknown kind code is rejected.  Modes `"x"`
    /// and `"a"`, any other mode string, and `allow_zip64 == false` are
    /// unsupported.
    pub fn new(
        file: Vec<u8>,
        mode: &str,
        compression: u8,
        allow_zip64: bool,
        compresslevel: Option<u8>,
    ) -> (r: Result<ZipFile, ArchiveError>)
        ensures
            !allow_zip64 ==> (r matches Err(e) && e == ArchiveError::UnsupportedMode),
            allow_zip64 && is_mode(mode@, 'r') ==> match r {
                Ok(z) => z.mode() == ArchiveMode::Read && z.status() == ArchiveStatus::Available
                    && codec::parse_ok(file@),
                Err(e) => e == ArchiveError::MalformedArchive && !codec::parse_ok(file@),
            },
            allow_zip64 && is_mode(mode@, 'w') ==> match r {
                Ok(z) => {
                    &&& z.mode() == ArchiveMode::Write
                    &&& z.status() == ArchiveStatus::Available
                    &&& CompressionKind::spec_from_code(compression) == Some(z.default_kind())
                    &&& z.default_level() == compresslevel
                    &&& z.started() == Seq::<Seq<char>>::empty()
                    &&& z.current() == Seq::<u8>::empty()
                },
                Err(e) => e == ArchiveError::UnsupportedMode && CompressionKind::spec_from_code(
                    compression,
                ) is None,
            },
            allow_zip64 && !is_mode(mode@, 'r') && !is_mode(mode@, 'w') ==> (r matches Err(e) && e
                == ArchiveError::UnsupportedMode),
    {
        if !allow_zip64 {
            return Err(ArchiveError::UnsupportedMode);
        }
        let ch = match mode_char(mode) {
            Some(c) => c,
            None => {
                return Err(ArchiveError::UnsupportedMode);
            },
        };
        if ch == 'r' {
            match read::ReadZipFile::new(file) {
                Ok(h) => Ok(ZipFile { file: ZipFileInner::Read(h) }),
                Err(e) => Err(e),
            }
        } else if ch == 'w' {
            let kind = match CompressionKind::from_code(compression) {
                Ok(k) => k,
                Err(e) => {
                    return Err(e);
                },
            };
            Ok(ZipFile { file: ZipFileInner::Write(write::WriteZipFile::new(kind, compresslevel)) })
        } else {
            // modes "x" and "a" are deliberately rejected, as is anything else
            Err(ArchiveError::UnsupportedMode)
        }
    }

    /// Closes the archive.  A read handle just drains its slot; a write
    /// handle finalizes the trailing index and hands back the finished
    /// container bytes.  Fails fast with `Busy` while an entry cursor is
    /// live; a close after close is a silent no-op success; a write-mode
    /// finalize failure is surfaced and the handle is left closed regardless.
    /// Success is owed on an available read handle, and on an available write
    /// handle whose writer finalizes cleanly.
    pub fn close(&mut self) -> (r: Result<Option<Vec<u8>>, ArchiveError>)
        ensures
            final(self).mode() == old(self).mode(),
            old(self).status() == ArchiveStatus::Available && (old(self).mode()
                == ArchiveMode::Read || codec::finish_ok(old(self).writer())) ==> r is Ok,
            match r {
                Ok(b) => {
                    &&& old(self).status() != ArchiveStatus::Engaged
                    &&& final(self).status() == ArchiveStatus::Closed
                    &&& (old(self).status() == ArchiveStatus::Closed ==> *final(self) == *old(self)
                        && b is None)
                    &&& (old(self).mode() == ArchiveMode::Read ==> b is None)
                    &&& (b matches Some(bytes) ==> {
                        &&& old(self).mode() == ArchiveMode::Write
                        &&& old(self).status() == ArchiveStatus::Available
                        &&& bytes@ == codec::finished_bytes(old(self).writer())
                    })
                    &&& (old(self).mode() == ArchiveMode::Write && old(self).status()
                        == ArchiveStatus::Available ==> b is Some)
                },
                Err(e) => {
                    &&& (e == ArchiveError::Busy <==> old(self).status() == ArchiveStatus::Engaged)
                    &&& (e == ArchiveError::Busy ==> *final(self) == *old(self))
                    &&& (e != ArchiveError::Busy ==> old(self).mode() == ArchiveMode::Write && old(
                        self,
                    ).status() == ArchiveStatus::Available && final(self).status()
                        == ArchiveStatus::Closed && !codec::finish_ok(old(self).writer()))
                    &&& e != ArchiveError::AlreadyClosed
                },
            },
    {
        match &mut self.file {
            ZipFileInner::Read(h) => {
                match h.close() {
                    Ok(()) => Ok(None),
                    Err(e) => Err(e),
                }
            },
            ZipFileInner::Write(h) => h.close(),
        }
    }

    /// Lists the entry names of a read archive; on an available read handle
    /// the listing always succeeds.  A write handle is refused as
    /// unsupported; a read handle fails fast with `Busy` while a cursor is
    /// live and with `AlreadyClosed` after close.
    pub fn namelist(&self) -> (r: Result<Vec<String>, ArchiveError>)
        ensures
            self.mode() == ArchiveMode::Read && self.status() == ArchiveStatus::Available ==> r
                is Ok,
            match r {
                Ok(names) => {
                    &&& self.mode() == ArchiveMode::Read
                    &&& self.status() == ArchiveStatus::Available
                    &&& names@.len() == self.entries().len()
                    &&& (forall|i: int|
                        0 <= i < names@.len() ==> #[trigger] names@[i]@ == self.entries()[i])
                },
                Err(e) => {
                    &&& (self.mode() == ArchiveMode::Write ==> e == ArchiveError::UnsupportedMode)
                    &&& (self.mode() == ArchiveMode::Read ==> {
                        &&& (e == ArchiveError::Busy <==> self.status() == ArchiveStatus::Engaged)
                        &&& (e == ArchiveError::AlreadyClosed <==> self.status()
                            == ArchiveStatus::Closed)
                    })
                },
            },
    {
        match &self.file {
            ZipFileInner::Read(h) => h.namelist(),
            ZipFileInner::Write(_) => Err(ArchiveError::UnsupportedMode),
        }
    }
}

} // verus!

verus! {

impl ZipFile {
    /// Opens an entry cursor.  Mode `"r"` on a read handle resolves the
    /// named entry and decodes its bytes (with `pwd` when it is encrypted);
    /// mode `"w"` on a write handle starts the entry the selector describes.
    /// Cross-mode use, other mode strings, a descriptor selector on read, and
    /// a password on write are unsupported.  While a cursor is live the call
    /// fails fast with `Busy`, and every failure leaves the slot released
    /// with its contents intact.  Success is owed whenever the slot is
    /// available and the request is one the codec accepts: on read, a named
    /// entry that opens cleanly; on write, a valid descriptor whose start the
    /// codec accepts.
    pub fn open(&mut self, name: &EntrySelector, mode: &str, pwd: Option<&Vec<u8>>) -> (r: Result<
        ZipExtFile,
        ArchiveError,
    >)
        ensures
            final(self).mode() == old(self).mode(),
            is_mode(mode@, 'r') && old(self).mode() == ArchiveMode::Read && name is Name && old(
                self,
            ).status() == ArchiveStatus::Available && read::opens_cleanly(
                old(self).read_handle(),
                name.spec_name(),
                pwd,
            ) ==> r is Ok,
            is_mode(mode@, 'r') && old(self).mode() == ArchiveMode::Read && name is Name && old(
                self,
            ).status() == ArchiveStatus::Available && pwd is None && read::encrypted_hit(
                old(self).read_handle(),
                name.spec_name(),
            ) ==> (r matches Err(e) && e == ArchiveError::PasswordRequired),
            is_mode(mode@, 'w') && old(self).mode() == ArchiveMode::Write && pwd is None && old(
                self,
            ).status() == ArchiveStatus::Available && (CompressionKind::spec_from_code(
                name.spec_kind_code(old(self).default_kind().spec_code()),
            ) matches Some(k) && level_ok(k, name.spec_level(old(self).default_level()))
                && codec::begin_ok(
                old(self).writer(),
                name.spec_name(),
                k.spec_code(),
                spec_effective_level(k, name.spec_level(old(self).default_level())),
            )) ==> r is Ok,
            !is_mode(mode@, 'r') && !is_mode(mode@, 'w') ==> (r matches Err(e) && e
                == ArchiveError::UnsupportedMode) && *final(self) == *old(self),
            is_mode(mode@, 'r') && old(self).mode() == ArchiveMode::Write ==> (r matches Err(e)
                && e == ArchiveError::UnsupportedMode) && *final(self) == *old(self),
            is_mode(mode@, 'w') && old(self).mode() == ArchiveMode::Read ==> (r matches Err(e)
                && e == ArchiveError::UnsupportedMode) && *final(self) == *old(self),
            is_mode(mode@, 'r') && old(self).mode() == ArchiveMode::Read && name is Info ==> (
            r matches Err(e) && e == ArchiveError::UnsupportedMode) && *final(self) == *old(self),
            is_mode(mode@, 'w') && old(self).mode() == ArchiveMode::Write && pwd is Some ==> (
            r matches Err(e) && e == ArchiveError::UnsupportedMode) && *final(self) == *old(self),
            is_mode(mode@, 'r') && old(self).mode() == ArchiveMode::Read && name is Name
                ==> match r {
                Ok(cursor) => {
                    &&& old(self).status() == ArchiveStatus::Available
                    &&& final(self).status() == ArchiveStatus::Engaged
                    &&& cursor.mode() == ArchiveMode::Read
                    &&& cursor.is_open()
                    &&& codec::table_unchanged(old(self).codec(), cursor.codec())
                    &&& read::selects_entry(
                        old(self).read_handle(),
                        name.spec_name(),
                        pwd,
                        cursor.remaining(),
                    )
                },
                Err(e) => {
                    &&& (e == ArchiveError::Busy <==> old(self).status() == ArchiveStatus::Engaged)
                    &&& (e == ArchiveError::AlreadyClosed <==> old(self).status()
                        == ArchiveStatus::Closed)
                    &&& (e == ArchiveError::Busy || e == ArchiveError::AlreadyClosed ==> *final(self) == *old(self))
                    &&& (e != ArchiveError::Busy && e != ArchiveError::AlreadyClosed ==> {
                        &&& old(self).status() == ArchiveStatus::Available
                        &&& final(self).status() == ArchiveStatus::Available
                        &&& codec::table_unchanged(old(self).codec(), final(self).codec())
                    })
                    &&& (old(self).status() == ArchiveStatus::Available && !old(
                        self,
                    ).entries().contains(name.spec_name()) ==> e == ArchiveError::EntryNotFound)
                    &&& (e == ArchiveError::EntryNotFound ==> !old(self).entries().contains(
                        name.spec_name(),
                    ))
                    &&& (e == ArchiveError::PasswordRequired ==> pwd is None
                        && read::names_encrypted_entry(old(self).read_handle(), name.spec_name()))
                    &&& e != ArchiveError::InvalidCompressionLevel
                },
            },
            is_mode(mode@, 'w') && old(self).mode() == ArchiveMode::Write && pwd is None
                ==> final(self).default_kind() == old(self).default_kind() && final(self).default_level() == old(self).default_level() && match r {
                Ok(cursor) => {
                    &&& old(self).status() == ArchiveStatus::Available
                    &&& final(self).status() == ArchiveStatus::Engaged
                    &&& cursor.mode() == ArchiveMode::Write
                    &&& cursor.is_open()
                    &&& cursor.started() == old(self).started().push(name.spec_name())
                    &&& cursor.current() == Seq::<u8>::empty()
                    &&& (CompressionKind::spec_from_code(
                        name.spec_kind_code(old(self).default_kind().spec_code()),
                    ) matches Some(k) && level_ok(k, name.spec_level(old(self).default_level()))
                        && cursor.started_methods() == old(self).started_methods().push(
                        k.spec_code(),
                    ) && cursor.started_levels() == old(self).started_levels().push(
                        spec_effective_level(k, name.spec_level(old(self).default_level())),
                    ))
                },
                Err(e) => {
                    &&& (e == ArchiveError::Busy <==> old(self).status() == ArchiveStatus::Engaged)
                    &&& (e == ArchiveError::AlreadyClosed <==> old(self).status()
                        == ArchiveStatus::Closed)
                    &&& (e == ArchiveError::Busy || e == ArchiveError::AlreadyClosed ==> *final(self) == *old(self))
                    &&& (e != ArchiveError::Busy && e != ArchiveError::AlreadyClosed ==> old(
                        self,
                    ).status() == ArchiveStatus::Available && final(self).status()
                        == ArchiveStatus::Available)
                    &&& (e == ArchiveError::InvalidCompressionLevel ==> (
                    CompressionKind::spec_from_code(
                        name.spec_kind_code(old(self).default_kind().spec_code()),
                    ) matches Some(k) && !level_ok(
                        k,
                        name.spec_level(old(self).default_level()),
                    )))
                    &&& (old(self).status() == ArchiveStatus::Available
                        && CompressionKind::spec_from_code(
                        name.spec_kind_code(old(self).default_kind().spec_code()),
                    ) is None ==> e == ArchiveError::UnsupportedMode && *final(self) == *old(self))
                    &&& (old(self).status() == ArchiveStatus::Available && (
                    CompressionKind::spec_from_code(
                        name.spec_kind_code(old(self).default_kind().spec_code()),
                    ) matches Some(k) && !level_ok(k, name.spec_level(old(self).default_level())))
                        ==> e == ArchiveError::InvalidCompressionLevel && *final(self) == *old(
                        self,
                    ))
                    &&& e != ArchiveError::PasswordRequired
                },
            },
    {
        let ch = match mode_char(mode) {
            Some(c) => c,
            None => {
                return Err(ArchiveError::UnsupportedMode);
            },
        };
        if ch == 'r' {
            match &mut self.file {
                ZipFileInner::Read(h) => {
                    match name {
                        EntrySelector::Name(n) => {
                            match h.open(n.as_str(), pwd) {
                                Ok(cur) => Ok(ZipExtFile { inner: ZipExtFileInner::Read(cur) }),
                                Err(e) => Err(e),
                            }
                        },
                        EntrySelector::Info(_) => Err(ArchiveError::UnsupportedMode),
                    }
                },
                ZipFileInner::Write(_) => Err(ArchiveError::UnsupportedMode),
            }
        } else if ch == 'w' {
            match &mut self.file {
                ZipFileInner::Read(_) => Err(ArchiveError::UnsupportedMode),
                ZipFileInner::Write(h) => {
                    if pwd.is_some() {
                        return Err(ArchiveError::UnsupportedMode);
                    }
                    match h.open(name) {
                        Ok(cur) => Ok(ZipExtFile { inner: ZipExtFileInner::Write(cur) }),
                        Err(e) => Err(e),
                    }
                },
            }
        } else {
            Err(ArchiveError::UnsupportedMode)
        }
    }
}

/// The mode-tagged body of an entry cursor.
pub enum ZipExtFileInner {
    Read(read::ReadZipExtFile),
    Write(write::WriteZipExtFile),
}

/// An entry cursor: a short-lived handle streaming bytes out of or into
/// exactly one entry.  While it is open it holds the archive's exclusive
/// slot; closing it hands the slot back.
pub struct ZipExtFile {
    pub inner: ZipExtFileInner,
}

impl ZipExtFile {
    /// Whether this cursor reads an entry or writes one.
    pub open spec fn mode(&self) -> ArchiveMode {
        match self.inner {
            ZipExtFileInner::Read(_) => ArchiveMode::Read,
            ZipExtFileInner::Write(_) => ArchiveMode::Write,
        }
    }

    /// Whether the cursor still holds the archive's slot.
    pub open spec fn is_open(&self) -> bool {
        match self.inner {
            ZipExtFileInner::Read(c) => c.is_open(),
            ZipExtFileInner::Write(c) => c.is_open(),
        }
    }

    /// The codec a read cursor holds; meaningful only while open.
    pub open spec fn codec(&self) -> zip::read::ZipArchive<std::io::Cursor<Vec<u8>>> {
        match self.inner {
            ZipExtFileInner::Read(c) => c.codec(),
            ZipExtFileInner::Write(_) => vstd::pervasive::arbitrary(),
        }
    }

    /// The writer a write cursor holds; meaningful only while open.
    pub open spec fn writer(&self) -> codec::WriterHandle {
        match self.inner {
            ZipExtFileInner::Write(c) => c.writer(),
            ZipExtFileInner::Read(_) => vstd::pervasive::arbitrary(),
        }
    }

    /// The entry bytes a read cursor has not yet handed to the caller.
    pub open spec fn remaining(&self) -> Seq<u8> {
        match self.inner {
            ZipExtFileInner::Read(c) => c.remaining(),
            ZipExtFileInner::Write(_) => Seq::<u8>::empty(),
        }
    }

    /// The names of the entries started on a write cursor's container.
    pub open spec fn started(&self) -> Seq<Seq<char>> {
        codec::written_names(self.writer())
    }

    /// The method codes the started entries were created with, in order.
    pub open spec fn started_methods(&self) -> Seq<u8> {
        codec::written_methods(self.writer())
    }

    /// The levels the codec was asked to use for the started entries.
    pub open spec fn started_levels(&self) -> Seq<Option<u8>> {
        codec::written_levels(self.writer())
    }

    /// The bytes written to a write cursor's entry being built.
    pub open spec fn current(&self) -> Seq<u8> {
        codec::current_bytes(self.writer())
    }

    /// Drains the remaining bytes of the selected entry into one buffer; a
    /// second read yields an empty buffer.  A write cursor is refused as
    /// unsupported; a closed cursor as already closed.
    pub fn read(&mut self) -> (r: Result<Vec<u8>, ArchiveError>)
        ensures
            final(self).mode() == old(self).mode(),
            match r {
                Ok(v) => {
                    &&& old(self).mode() == ArchiveMode::Read
                    &&& old(self).is_open()
                    &&& v@ == old(self).remaining()
                    &&& final(self).is_open()
                    &&& final(self).remaining() == Seq::<u8>::empty()
                    &&& final(self).codec() == old(self).codec()
                },
                Err(e) => (e == ArchiveError::UnsupportedMode && old(self).mode()
                    == ArchiveMode::Write && *final(self) == *old(self)) || (e
                    == ArchiveError::AlreadyClosed && old(self).mode() == ArchiveMode::Read && !old(
                    self,
                ).is_open() && *final(self) == *old(self)),
            },
    {
        match &mut self.inner {
            ZipExtFileInner::Read(c) => c.read(),
            ZipExtFileInner::Write(_) => Err(ArchiveError::UnsupportedMode),
        }
    }

    /// Appends the buffer to the entry's encode stream; may be called many
    /// times.  A read cursor is refused as unsupported; a closed cursor as
    /// already closed; a codec failure passes through as an input/output
    /// error with the progress of the current entry unspecified.  Success is
    /// owed whenever the cursor is open and the writer accepts the bytes.
    pub fn write(&mut self, buffer: &[u8]) -> (r: Result<(), ArchiveError>)
        ensures
            final(self).mode() == old(self).mode(),
            old(self).mode() == ArchiveMode::Write && old(self).is_open() && codec::append_ok(
                old(self).writer(),
                buffer@,
            ) ==> r is Ok,
            match r {
                Ok(()) => {
                    &&& old(self).mode() == ArchiveMode::Write
                    &&& old(self).is_open()
                    &&& final(self).is_open()
                    &&& final(self).started() == old(self).started()
                    &&& final(self).started_methods() == old(self).started_methods()
                    &&& final(self).started_levels() == old(self).started_levels()
                    &&& final(self).current() == old(self).current() + buffer@
                },
                Err(e) => (e == ArchiveError::UnsupportedMode && old(self).mode()
                    == ArchiveMode::Read && *final(self) == *old(self)) || (e
                    == ArchiveError::AlreadyClosed && old(self).mode() == ArchiveMode::Write
                    && !old(self).is_open() && *final(self) == *old(self)) || (e
                    == ArchiveError::Io && old(self).mode() == ArchiveMode::Write && old(
                    self,
                ).is_open() && final(self).is_open() && !codec::append_ok(
                    old(self).writer(),
                    buffer@,
                )),
            },
    {
        match &mut self.inner {
            ZipExtFileInner::Read(_) => Err(ArchiveError::UnsupportedMode),
            ZipExtFileInner::Write(c) => c.write(buffer),
        }
    }

    /// Discards the data view, then hands the archive's slot back, releasing
    /// the exclusive lock: the read codec or the writer returns to `archive`.
    /// Closing an already closed cursor is a no-op success; an archive of the
    /// other mode, or one whose slot is not engaged, is refused unchanged.
    pub fn close(&mut self, archive: &mut ZipFile) -> (r: Result<(), ArchiveError>)
        ensures
            final(self).mode() == old(self).mode(),
            final(archive).mode() == old(archive).mode(),
            match r {
                Ok(()) => (!old(self).is_open() && *final(self) == *old(self) && *final(archive)
                    == *old(archive)) || (old(self).is_open() && old(self).mode() == old(
                    archive,
                ).mode() && old(archive).status() == ArchiveStatus::Engaged && !final(self).is_open() && final(archive).status() == ArchiveStatus::Available && (old(
                    self,
                ).mode() == ArchiveMode::Read ==> final(archive).codec() == old(self).codec()) && (
                old(self).mode() == ArchiveMode::Write ==> final(archive).writer() == old(
                    self,
                ).writer() && final(archive).default_kind() == old(archive).default_kind()
                    && final(archive).default_level() == old(archive).default_level())),
                Err(e) => {
                    &&& e == ArchiveError::UnsupportedMode
                    &&& old(self).is_open()
                    &&& (old(self).mode() != old(archive).mode() || old(archive).status()
                        != ArchiveStatus::Engaged)
                    &&& *final(self) == *old(self)
                    &&& *final(archive) == *old(archive)
                },
            },
    {
        match (&mut self.inner, &mut archive.file) {
            (ZipExtFileInner::Read(c), ZipFileInner::Read(h)) => c.close(h),
            (ZipExtFileInner::Write(c), ZipFileInner::Write(h)) => c.close(h),
            (ZipExtFileInner::Read(c), ZipFileInner::Write(_)) => {
                if c.inner.is_none() {
                    Ok(())
                } else {
                    Err(ArchiveError::UnsupportedMode)
                }
            },
            (ZipExtFileInner::Write(c), ZipFileInner::Read(_)) => {
                if c.lock.is_none() {
                    Ok(())
                } else {
                    Err(ArchiveError::UnsupportedMode)
                }
            },
        }
    }
}

} // verus!
