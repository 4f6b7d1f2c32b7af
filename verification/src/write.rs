//! The write-mode archive handle and its entry cursor.
//!
//! Opening an entry validates its descriptor against the compression policy,
//! asks the codec to start the entry, and only then moves the writer into the
//! cursor, leaving the slot engaged.  Closing the archive finalizes the
//! trailing index and hands back the finished container bytes.

use vstd::prelude::*;

use crate::ArchiveError;
use crate::ArchiveStatus;
use crate::CompressionKind;
use crate::EntrySelector;
use crate::ZipInfo;
use crate::codec;
use crate::codec::WriterHandle;
use crate::level_ok;
use crate::resolve;
use crate::validate;

verus! {

/// The guarded writer slot of a write archive: present, lent to a live
/// cursor, or drained by close.
pub enum WriteSlot {
    Available(WriterHandle),
    Engaged,
    Closed,
}

/// A write-mode archive handle building one container, with archive-wide
/// compression defaults.
pub struct WriteZipFile {
    pub file: WriteSlot,
    pub compression_kind: CompressionKind,
    pub compression_level: Option<u8>,
}

impl WriteZipFile {
    /// The lifecycle state of the guarded slot.
    pub open spec fn status(&self) -> ArchiveStatus {
        match self.file {
            WriteSlot::Available(_) => ArchiveStatus::Available,
            WriteSlot::Engaged => ArchiveStatus::Engaged,
            WriteSlot::Closed => ArchiveStatus::Closed,
        }
    }

    /// The writer in the slot; meaningful only while available.
    pub open spec fn writer(&self) -> WriterHandle {
        match self.file {
            WriteSlot::Available(w) => w,
            _ => vstd::pervasive::arbitrary(),
        }
    }

    /// The names of the entries started so far, in order.
    pub open spec fn started(&self) -> Seq<Seq<char>> {
        codec::written_names(self.writer())
    }

    /// The method codes the started entries were created with, in order.
    pub open spec fn started_methods(&self) -> Seq<u8> {
        codec::written_methods(self.writer())
    }

    /// The levels the codec was asked to use for the started entries.
    pub open spec fn started_levels(&self) -> Seq<Option<u8>> {
        codec::written_levels(self.writer())
    }

    /// The bytes written to the entry currently being built.
    pub open spec fn current(&self) -> Seq<u8> {
        codec::current_bytes(self.writer())
    }

    /// Begins a new, empty container with the given archive-wide defaults.
    /// The defaults' level is validated at entry-open time, not here.
    pub fn new(compression_kind: CompressionKind, compression_level: Option<u8>) -> (z:
        WriteZipFile)
        ensures
            z.status() == ArchiveStatus::Available,
            z.started() == Seq::<Seq<char>>::empty(),
            z.started_methods() == Seq::<u8>::empty(),
            z.started_levels() == Seq::<Option<u8>>::empty(),
            z.current() == Seq::<u8>::empty(),
            z.compression_kind == compression_kind,
            z.compression_level == compression_level,
    {
        WriteZipFile {
            file: WriteSlot::Available(codec::new_writer()),
            compression_kind,
            compression_level,
        }
    }

    /// Finalizes the trailing index and drains the slot, handing back the
    /// finished container bytes.  Fails fast with `Busy` while a cursor is
    /// live; a second close is a silent no-op success; a finalize failure is
    /// surfaced and the archive is left closed regardless.  Success is owed
    /// whenever the slot is available and the writer finalizes cleanly.
    pub fn close(&mut self) -> (r: Result<Option<Vec<u8>>, ArchiveError>)
        ensures
            final(self).compression_kind == old(self).compression_kind,
            final(self).compression_level == old(self).compression_level,
            old(self).status() == ArchiveStatus::Available && codec::finish_ok(
                old(self).writer(),
            ) ==> r is Ok,
            match r {
                Ok(b) => match b {
                    Some(bytes) => {
                        &&& old(self).status() == ArchiveStatus::Available
                        &&& final(self).status() == ArchiveStatus::Closed
                        &&& bytes@ == codec::finished_bytes(old(self).writer())
                    },
                    None => {
                        &&& old(self).status() == ArchiveStatus::Closed
                        &&& *final(self) == *old(self)
                    },
                },
                Err(e) => {
                    &&& (e == ArchiveError::Busy <==> old(self).status() == ArchiveStatus::Engaged)
                    &&& (e == ArchiveError::Busy ==> *final(self) == *old(self))
                    &&& (e != ArchiveError::Busy ==> old(self).status() == ArchiveStatus::Available
                        && final(self).status() == ArchiveStatus::Closed && !codec::finish_ok(
                        old(self).writer(),
                    ))
                    &&& e != ArchiveError::AlreadyClosed
                },
            },
    {
        let engaged = match &self.file {
            WriteSlot::Engaged => true,
            _ => false,
        };
        if engaged {
            return Err(ArchiveError::Busy);
        }
        let closed = match &self.file {
            WriteSlot::Closed => true,
            _ => false,
        };
        if closed {
            return Ok(None);
        }
        let mut slot = WriteSlot::Closed;
        core::mem::swap(&mut self.file, &mut slot);
        match slot {
            WriteSlot::Available(w) => {
                match codec::finish_writer(w) {
                    Ok(bytes) => Ok(Some(bytes)),
                    Err(f) => Err(codec::fault_error(f)),
                }
            },
            _ => vstd::pervasive::unreached(),
        }
    }

    /// Starts the entry the selector describes: a plain name takes the
    /// archive-wide defaults, a full descriptor's settings win.  The kind code
    /// and level are validated before the codec is asked to start the entry,
    /// so a rejected descriptor leaves the container untouched; on success the
    /// entry is registered with exactly the selector's name, kind and
    /// effective level, and the writer moves into the returned cursor, the
    /// slot staying engaged until the cursor is closed.  Success is owed
    /// whenever the slot is available, the descriptor is valid and the codec
    /// accepts the start.
    pub fn open(&mut self, name: &EntrySelector) -> (r: Result<WriteZipExtFile, ArchiveError>)
        ensures
            final(self).compression_kind == old(self).compression_kind,
            final(self).compression_level == old(self).compression_level,
            old(self).status() == ArchiveStatus::Available && (CompressionKind::spec_from_code(
                name.spec_kind_code(old(self).compression_kind.spec_code()),
            ) matches Some(k) && level_ok(k, name.spec_level(old(self).compression_level))
                && codec::begin_ok(
                old(self).writer(),
                name.spec_name(),
                k.spec_code(),
                crate::spec_effective_level(k, name.spec_level(old(self).compression_level)),
            )) ==> r is Ok,
            old(self).status() == ArchiveStatus::Engaged ==> (r matches Err(e) && e
                == ArchiveError::Busy) && *final(self) == *old(self),
            old(self).status() == ArchiveStatus::Closed ==> (r matches Err(e) && e
                == ArchiveError::AlreadyClosed) && *final(self) == *old(self),
            old(self).status() == ArchiveStatus::Available && CompressionKind::spec_from_code(
                name.spec_kind_code(old(self).compression_kind.spec_code()),
            ) is None ==> (r matches Err(e) && e == ArchiveError::UnsupportedMode) && *final(self)
                == *old(self),
            old(self).status() == ArchiveStatus::Available && (CompressionKind::spec_from_code(
                name.spec_kind_code(old(self).compression_kind.spec_code()),
            ) matches Some(k) && !level_ok(k, name.spec_level(old(self).compression_level))) ==> (
            r matches Err(e) && e == ArchiveError::InvalidCompressionLevel) && *final(self)
                == *old(self),
            match r {
                Ok(cursor) => {
                    &&& old(self).status() == ArchiveStatus::Available
                    &&& final(self).status() == ArchiveStatus::Engaged
                    &&& cursor.is_open()
                    &&& cursor.started() == old(self).started().push(name.spec_name())
                    &&& cursor.current() == Seq::<u8>::empty()
                    &&& (CompressionKind::spec_from_code(
                        name.spec_kind_code(old(self).compression_kind.spec_code()),
                    ) matches Some(k) && level_ok(k, name.spec_level(old(self).compression_level))
                        && cursor.started_methods() == old(self).started_methods().push(
                        k.spec_code(),
                    ) && cursor.started_levels() == old(self).started_levels().push(
                        crate::spec_effective_level(
                            k,
                            name.spec_level(old(self).compression_level),
                        ),
                    ))
                },
                Err(e) => {
                    &&& (e == ArchiveError::Busy <==> old(self).status() == ArchiveStatus::Engaged)
                    &&& (e == ArchiveError::AlreadyClosed <==> old(self).status()
                        == ArchiveStatus::Closed)
                    &&& (e != ArchiveError::Busy && e != ArchiveError::AlreadyClosed ==> old(
                        self,
                    ).status() == ArchiveStatus::Available && final(self).status()
                        == ArchiveStatus::Available)
                    &&& (e == ArchiveError::InvalidCompressionLevel ==> (
                    CompressionKind::spec_from_code(
                        name.spec_kind_code(old(self).compression_kind.spec_code()),
                    ) matches Some(k) && !level_ok(
                        k,
                        name.spec_level(old(self).compression_level),
                    )))
                    &&& (e != ArchiveError::Busy && e != ArchiveError::AlreadyClosed && e
                        != ArchiveError::UnsupportedMode && e
                        != ArchiveError::InvalidCompressionLevel ==> (
                    CompressionKind::spec_from_code(
                        name.spec_kind_code(old(self).compression_kind.spec_code()),
                    ) matches Some(k) && !codec::begin_ok(
                        old(self).writer(),
                        name.spec_name(),
                        k.spec_code(),
                        crate::spec_effective_level(
                            k,
                            name.spec_level(old(self).compression_level),
                        ),
                    )))
                    &&& e != ArchiveError::PasswordRequired
                },
            },
    {
        match &self.file {
            WriteSlot::Engaged => {
                return Err(ArchiveError::Busy);
            },
            WriteSlot::Closed => {
                return Err(ArchiveError::AlreadyClosed);
            },
            WriteSlot::Available(_) => {},
        }
        let info = match name {
            EntrySelector::Name(s) => {
                let mut zi = ZipInfo::new(s.as_str());
                zi.compress_type = self.compression_kind.code();
                zi.compress_level = self.compression_level;
                zi
            },
            EntrySelector::Info(zi) => ZipInfo {
                filename: zi.filename.clone(),
                compress_type: zi.compress_type,
                compress_level: zi.compress_level,
            },
        };
        let kind = match CompressionKind::from_code(info.compress_type) {
            Ok(k) => k,
            Err(e) => {
                return Err(e);
            },
        };
        match validate(kind, info.compress_level) {
            Ok(()) => {},
            Err(e) => {
                return Err(e);
            },
        }
        let eff = resolve(kind, info.compress_level);
        let begun = match &mut self.file {
            WriteSlot::Available(w) => codec::begin_entry(w, info.filename.as_str(), kind, eff),
            _ => vstd::pervasive::unreached(),
        };
        match begun {
            Err(f) => Err(codec::fault_error(f)),
            Ok(()) => {
                let mut slot = WriteSlot::Engaged;
                core::mem::swap(&mut self.file, &mut slot);
                match slot {
                    WriteSlot::Available(w) => Ok(WriteZipExtFile { lock: Some(w) }),
                    _ => vstd::pervasive::unreached(),
                }
            },
        }
    }
}

/// A write-mode entry cursor.  It holds the archive's writer for as long as
/// it is open; closing it hands the writer back and releases the slot, which
/// is what allows the next entry open to proceed.
pub struct WriteZipExtFile {
    pub lock: Option<WriterHandle>,
}

impl WriteZipExtFile {
    /// Whether the cursor still holds the writer.
    pub open spec fn is_open(&self) -> bool {
        self.lock is Some
    }

    /// The writer lent to this cursor; meaningful only while open.
    pub open spec fn writer(&self) -> WriterHandle {
        match self.lock {
            Some(w) => w,
            None => vstd::pervasive::arbitrary(),
        }
    }

    /// The names of the entries started so far, in order.
    pub open spec fn started(&self) -> Seq<Seq<char>> {
        codec::written_names(self.writer())
    }

    /// The method codes the started entries were created with, in order.
    pub open spec fn started_methods(&self) -> Seq<u8> {
        codec::written_methods(self.writer())
    }

    /// The levels the codec was asked to use for the started entries.
    pub open spec fn started_levels(&self) -> Seq<Option<u8>> {
        codec::written_levels(self.writer())
    }

    /// The bytes written to the entry currently being built.
    pub open spec fn current(&self) -> Seq<u8> {
        codec::current_bytes(self.writer())
    }

    /// Appends the buffer to the entry's encode stream; may be called many
    /// times.  A closed cursor is refused; a codec failure passes through and
    /// leaves the progress of the current entry unspecified.  Success is owed
    /// whenever the cursor is open and the writer accepts the bytes.
    pub fn write(&mut self, buffer: &[u8]) -> (r: Result<(), ArchiveError>)
        ensures
            old(self).is_open() && codec::append_ok(old(self).writer(), buffer@) ==> r is Ok,
            match r {
                Ok(()) => {
                    &&& old(self).is_open()
                    &&& final(self).is_open()
                    &&& final(self).started() == old(self).started()
                    &&& final(self).started_methods() == old(self).started_methods()
                    &&& final(self).started_levels() == old(self).started_levels()
                    &&& final(self).current() == old(self).current() + buffer@
                },
                Err(e) => (e == ArchiveError::AlreadyClosed && !old(self).is_open() && *final(self)
                    == *old(self)) || (e == ArchiveError::Io && old(self).is_open()
                    && final(self).is_open() && !codec::append_ok(old(self).writer(), buffer@)),
            },
    {
        match &mut self.lock {
            None => Err(ArchiveError::AlreadyClosed),
            Some(w) => {
                match codec::append_chunk(w, buffer) {
                    Ok(()) => Ok(()),
                    Err(_) => Err(ArchiveError::Io),
                }
            },
        }
    }

    /// Hands the writer back to `archive`, releasing its slot; the codec's
    /// per-entry bookkeeping happens on the next entry open or on archive
    /// close, not here.  Closing an already closed cursor is a no-op success;
    /// a handle whose slot is not engaged is refused unchanged.
    pub fn close(&mut self, archive: &mut WriteZipFile) -> (r: Result<(), ArchiveError>)
        ensures
            final(archive).compression_kind == old(archive).compression_kind,
            final(archive).compression_level == old(archive).compression_level,
            match r {
                Ok(()) => (!old(self).is_open() && *final(self) == *old(self) && *final(archive)
                    == *old(archive)) || (old(self).is_open() && old(archive).status()
                    == ArchiveStatus::Engaged && !final(self).is_open() && final(archive).status()
                    == ArchiveStatus::Available && final(archive).writer() == old(self).writer()),
                Err(e) => {
                    &&& e == ArchiveError::UnsupportedMode
                    &&& old(self).is_open()
                    &&& old(archive).status() != ArchiveStatus::Engaged
                    &&& *final(self) == *old(self)
                    &&& *final(archive) == *old(archive)
                },
            },
    {
        if self.lock.is_none() {
            return Ok(());
        }
        let engaged = match &archive.file {
            WriteSlot::Engaged => true,
            _ => false,
        };
        if !engaged {
            return Err(ArchiveError::UnsupportedMode);
        }
        match self.lock.take() {
            Some(w) => {
                archive.file = WriteSlot::Available(w);
                Ok(())
            },
            None => vstd::pervasive::unreached(),
        }
    }
}

} // verus!
