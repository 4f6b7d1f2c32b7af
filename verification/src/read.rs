//! The read-mode archive handle and its entry cursor.
//!
//! The handle owns the guarded codec slot.  Opening an entry resolves it,
//! decodes its bytes, and only then moves the codec into the cursor, leaving
//! the slot engaged: a second open, a listing or a close while the cursor is
//! live fails fast with `Busy`.  Every failed resolution leaves the slot
//! available, so the lock is never leaked on an error path.

use vstd::prelude::*;

use crate::ArchiveError;
use crate::ArchiveStatus;
use crate::codec;
use std::io::Cursor;
use zip::read::ZipArchive;

verus! {

/// The guarded codec slot of a read archive: present, lent to a live cursor,
/// or drained by close.
pub enum ReadSlot {
    Available(ZipArchive<Cursor<Vec<u8>>>),
    Engaged,
    Closed,
}

/// A read-mode archive handle over one parsed container.
pub struct ReadZipFile {
    pub file: ReadSlot,
}

impl ReadZipFile {
    /// The lifecycle state of the guarded slot.
    pub open spec fn status(&self) -> ArchiveStatus {
        match self.file {
            ReadSlot::Available(_) => ArchiveStatus::Available,
            ReadSlot::Engaged => ArchiveStatus::Engaged,
            ReadSlot::Closed => ArchiveStatus::Closed,
        }
    }

    /// The codec instance in the slot; meaningful only while available.
    pub open spec fn codec(&self) -> ZipArchive<Cursor<Vec<u8>>> {
        match self.file {
            ReadSlot::Available(c) => c,
            _ => vstd::pervasive::arbitrary(),
        }
    }

    /// The entry names of the held container, in archive order.
    pub open spec fn entries(&self) -> Seq<Seq<char>> {
        codec::names_of(self.codec())
    }

    /// Whether entry `i` of the held container is marked encrypted.
    pub open spec fn encrypted(&self, i: int) -> bool {
        codec::encrypted_at(self.codec(), i)
    }

    /// The decoded contents of unencrypted entry `i`.
    pub open spec fn plain(&self, i: int) -> Seq<u8> {
        codec::plain_at(self.codec(), i)
    }

    /// The bytes decoding encrypted entry `i` under `pwd` yields.
    pub open spec fn decrypted(&self, i: int, pwd: Seq<u8>) -> Seq<u8> {
        codec::decrypted_at(self.codec(), i, pwd)
    }

    /// Parses the given container bytes into a fresh handle: a handle over
    /// valid container bytes, a malformed-archive failure over anything else,
    /// and no other outcome.
    pub fn new(data: Vec<u8>) -> (r: Result<ReadZipFile, ArchiveError>)
        ensures
            r is Ok <==> codec::parse_ok(data@),
            r matches Ok(z) ==> z.status() == ArchiveStatus::Available,
            r matches Err(e) ==> e == ArchiveError::MalformedArchive,
    {
        match codec::open_codec(data) {
            Ok(c) => Ok(ReadZipFile { file: ReadSlot::Available(c) }),
            Err(_) => Err(ArchiveError::MalformedArchive),
        }
    }

    /// Drains the slot.  Fails fast with `Busy` while a cursor is live;
    /// closing an already drained handle is a silent no-op success.
    pub fn close(&mut self) -> (r: Result<(), ArchiveError>)
        ensures
            match r {
                Ok(()) => {
                    &&& old(self).status() != ArchiveStatus::Engaged
                    &&& final(self).status() == ArchiveStatus::Closed
                    &&& (old(self).status() == ArchiveStatus::Closed ==> *final(self) == *old(
                        self,
                    ))
                },
                Err(e) => {
                    &&& e == ArchiveError::Busy
                    &&& old(self).status() == ArchiveStatus::Engaged
                    &&& *final(self) == *old(self)
                },
            },
    {
        let engaged = match &self.file {
            ReadSlot::Engaged => true,
            _ => false,
        };
        if engaged {
            return Err(ArchiveError::Busy);
        }
        self.file = ReadSlot::Closed;
        Ok(())
    }

    /// Lists the entry names: on an available handle the listing always
    /// succeeds.  Fails fast with `Busy` while a cursor is live and with
    /// `AlreadyClosed` after close.
    pub fn namelist(&self) -> (r: Result<Vec<String>, ArchiveError>)
        ensures
            self.status() == ArchiveStatus::Available ==> r is Ok,
            match r {
                Ok(names) => {
                    &&& self.status() == ArchiveStatus::Available
                    &&& names@.len() == self.entries().len()
                    &&& (forall|i: int|
                        0 <= i < names@.len() ==> #[trigger] names@[i]@ == self.entries()[i])
                },
                Err(e) => {
                    &&& (e == ArchiveError::Busy <==> self.status() == ArchiveStatus::Engaged)
                    &&& (e == ArchiveError::AlreadyClosed <==> self.status()
                        == ArchiveStatus::Closed)
                },
            },
    {
        match &self.file {
            ReadSlot::Available(c) => Ok(codec::list_names(c)),
            ReadSlot::Engaged => Err(ArchiveError::Busy),
            ReadSlot::Closed => Err(ArchiveError::AlreadyClosed),
        }
    }

    /// Opens the named entry: resolves it under the exclusive slot, decodes
    /// its bytes (with `pwd` when it is encrypted), and hands back a cursor
    /// holding the codec, leaving the slot engaged.
    ///
    /// Failures never engage the slot: contention reports `Busy`, a drained
    /// slot `AlreadyClosed`, a missing name `EntryNotFound`, a missing
    /// password `PasswordRequired`, a rejected one `DecryptionFailed`, and
    /// codec failures pass through; in each case the slot keeps its table.
    /// Success is owed whenever the slot is available and the named entry
    /// opens cleanly.
    pub fn open(&mut self, name: &str, pwd: Option<&Vec<u8>>) -> (r: Result<
        ReadZipExtFile,
        ArchiveError,
    >)
        ensures
            old(self).status() == ArchiveStatus::Available && opens_cleanly(
                *old(self),
                name@,
                pwd,
            ) ==> r is Ok,
            old(self).status() == ArchiveStatus::Available && pwd is None && encrypted_hit(
                *old(self),
                name@,
            ) ==> (r matches Err(e) && e == ArchiveError::PasswordRequired),
            old(self).status() == ArchiveStatus::Engaged ==> (r matches Err(e) && e
                == ArchiveError::Busy) && *final(self) == *old(self),
            old(self).status() == ArchiveStatus::Closed ==> (r matches Err(e) && e
                == ArchiveError::AlreadyClosed) && *final(self) == *old(self),
            old(self).status() == ArchiveStatus::Available && !old(self).entries().contains(name@)
                ==> (r matches Err(e) && e == ArchiveError::EntryNotFound),
            match r {
                Ok(cursor) => {
                    &&& old(self).status() == ArchiveStatus::Available
                    &&& final(self).status() == ArchiveStatus::Engaged
                    &&& cursor.is_open()
                    &&& codec::table_unchanged(old(self).codec(), cursor.codec())
                    &&& selects_entry(*old(self), name@, pwd, cursor.remaining())
                },
                Err(e) => {
                    &&& (e == ArchiveError::Busy <==> old(self).status() == ArchiveStatus::Engaged)
                    &&& (e == ArchiveError::AlreadyClosed <==> old(self).status()
                        == ArchiveStatus::Closed)
                    &&& (e != ArchiveError::Busy && e != ArchiveError::AlreadyClosed ==> {
                        &&& old(self).status() == ArchiveStatus::Available
                        &&& final(self).status() == ArchiveStatus::Available
                        &&& codec::table_unchanged(old(self).codec(), final(self).codec())
                    })
                    &&& (e == ArchiveError::EntryNotFound ==> !old(self).entries().contains(
                        name@,
                    ))
                    &&& (e == ArchiveError::PasswordRequired ==> pwd is None
                        && names_encrypted_entry(*old(self), name@))
                    &&& e != ArchiveError::InvalidCompressionLevel
                },
            },
    {
        let outcome: Result<(Vec<u8>, usize), ArchiveError> = match &mut self.file {
            ReadSlot::Engaged => Err(ArchiveError::Busy),
            ReadSlot::Closed => Err(ArchiveError::AlreadyClosed),
            ReadSlot::Available(c) => {
                match codec::find_index(c, name) {
                    None => {
                        proof {
                            lemma_absent_not_cleanly(*old(self), name@, pwd);
                        }
                        Err(ArchiveError::EntryNotFound)
                    },
                    Some(i) => {
                        match codec::probe_encrypted(c, i) {
                            Err(f) => {
                                proof {
                                    lemma_probe_failed(*old(self), name@, pwd, i as int);
                                }
                                Err(codec::fault_error(f))
                            },
                            Ok(enc) => {
                                if enc {
                                    match pwd {
                                        None => {
                                            proof {
                                                assert(old(self).encrypted(i as int));
                                                assert(exists|j: int|
                                                    0 <= j < old(self).entries().len() && old(
                                                        self,
                                                    ).entries()[j] == name@ && #[trigger] old(
                                                        self,
                                                    ).encrypted(j));
                                                lemma_blocked_not_cleanly(
                                                    *old(self),
                                                    name@,
                                                    pwd,
                                                    i as int,
                                                );
                                            }
                                            Err(ArchiveError::PasswordRequired)
                                        },
                                        Some(p) => {
                                            match codec::decode_sealed(c, i, p.as_slice()) {
                                                Ok(v) => Ok((v, i)),
                                                Err(f) => {
                                                    proof {
                                                        lemma_blocked_not_cleanly(
                                                            *old(self),
                                                            name@,
                                                            pwd,
                                                            i as int,
                                                        );
                                                    }
                                                    Err(codec::fault_error(f))
                                                },
                                            }
                                        },
                                    }
                                } else {
                                    proof {
                                        lemma_unencrypted_first(*old(self), name@, i as int);
                                    }
                                    match codec::decode_plain(c, i) {
                                        Ok(v) => Ok((v, i)),
                                        Err(f) => {
                                            proof {
                                                lemma_blocked_not_cleanly(
                                                    *old(self),
                                                    name@,
                                                    pwd,
                                                    i as int,
                                                );
                                            }
                                            Err(codec::fault_error(f))
                                        },
                                    }
                                }
                            },
                        }
                    },
                }
            },
        };
        let (data, idx) = match outcome {
            Err(e) => {
                return Err(e);
            },
            Ok(v) => v,
        };
        let mut slot = ReadSlot::Engaged;
        core::mem::swap(&mut self.file, &mut slot);
        match slot {
            ReadSlot::Available(c) => {
                let cursor = ReadZipExtFile { inner: Some(ReadCursorInner { codec: c, data }) };
                proof {
                    let wi = idx as int;
                    assert(0 <= wi < old(self).entries().len() && old(self).entries()[wi]
                        == name@);
                    assert(old(self).encrypted(wi) ==> (pwd matches Some(p) && cursor.remaining()
                        == old(self).decrypted(wi, p@)));
                    assert(!old(self).encrypted(wi) ==> cursor.remaining() == old(self).plain(wi));
                }
                Ok(cursor)
            },
            _ => vstd::pervasive::unreached(),
        }
    }
}


/// `got` is the decode of some entry of `pre` carrying `name`: its plaintext
/// when the entry is unencrypted, its decode under the supplied password
/// otherwise (in which case a password must have been supplied).
pub open spec fn selects_entry(
    pre: ReadZipFile,
    name: Seq<char>,
    pwd: Option<&Vec<u8>>,
    got: Seq<u8>,
) -> bool {
    exists|i: int|
        {
            &&& 0 <= i < pre.entries().len()
            &&& pre.entries()[i] == name
            &&& (pre.encrypted(i) ==> (pwd matches Some(p) && got == pre.decrypted(i, p@)))
            &&& (!pre.encrypted(i) ==> got == pre.plain(i))
        }
}

/// Some entry of `pre` carries `name` and is marked encrypted.
pub open spec fn names_encrypted_entry(pre: ReadZipFile, name: Seq<char>) -> bool {
    exists|i: int|
        0 <= i < pre.entries().len() && pre.entries()[i] == name && #[trigger] pre.encrypted(i)
}

/// Opening `name` on `pre` is bound to succeed: the first entry carrying the
/// name can be probed, and decoding it — plainly when it is unencrypted, under
/// the supplied password otherwise — succeeds.
pub open spec fn opens_cleanly(pre: ReadZipFile, name: Seq<char>, pwd: Option<&Vec<u8>>) -> bool {
    exists|i: int|
        {
            &&& #[trigger] codec::found_at(pre.codec(), name, i)
            &&& codec::probe_ok_at(pre.codec(), i)
            &&& if codec::encrypted_at(pre.codec(), i) {
                pwd matches Some(p) && codec::sealed_ok_at(pre.codec(), i, p@)
            } else {
                codec::plain_ok_at(pre.codec(), i)
            }
        }
}

/// The first entry carrying `name` can be probed and is marked encrypted, so
/// opening it requires a password.
pub open spec fn encrypted_hit(pre: ReadZipFile, name: Seq<char>) -> bool {
    exists|i: int|
        #[trigger] codec::found_at(pre.codec(), name, i) && codec::probe_ok_at(pre.codec(), i)
            && codec::encrypted_at(pre.codec(), i)
}

/// An unchanged entry table preserves clean opens: whatever would open
/// cleanly against `a` still opens cleanly against `b`.  Together with the
/// contract of `ReadZipFile::open` — a failed resolution leaves the slot
/// available with its table unchanged, and a clean open is owed success —
/// this is the lock-release guarantee: after `EntryNotFound` (or any other
/// resolution failure) a retry for a name that opens cleanly must succeed
/// and cannot see `Busy`.
pub proof fn lemma_unchanged_table_preserves_clean(
    a: ReadZipFile,
    b: ReadZipFile,
    name: Seq<char>,
    pwd: Option<&Vec<u8>>,
)
    requires
        codec::table_unchanged(a.codec(), b.codec()),
        opens_cleanly(a, name, pwd),
    ensures
        opens_cleanly(b, name, pwd),
{
    let i = choose|i: int|
        {
            &&& #[trigger] codec::found_at(a.codec(), name, i)
            &&& codec::probe_ok_at(a.codec(), i)
            &&& if codec::encrypted_at(a.codec(), i) {
                pwd matches Some(p) && codec::sealed_ok_at(a.codec(), i, p@)
            } else {
                codec::plain_ok_at(a.codec(), i)
            }
        };
    assert(codec::names_of(b.codec()) == codec::names_of(a.codec()));
    assert(codec::found_at(b.codec(), name, i));
    assert(codec::probe_ok_at(b.codec(), i) == codec::probe_ok_at(a.codec(), i));
    assert(codec::encrypted_at(b.codec(), i) == codec::encrypted_at(a.codec(), i));
    assert(codec::plain_ok_at(b.codec(), i) == codec::plain_ok_at(a.codec(), i));
    match pwd {
        Some(p) => {
            assert(codec::sealed_ok_at(b.codec(), i, p@) == codec::sealed_ok_at(a.codec(), i, p@));
        },
        None => {},
    }
}

/// No entry carries the name, so a clean open is impossible and no encrypted
/// entry is hit.
proof fn lemma_absent_not_cleanly(pre: ReadZipFile, name: Seq<char>, pwd: Option<&Vec<u8>>)
    requires
        forall|i: int|
            0 <= i < codec::names_of(pre.codec()).len() ==> #[trigger] codec::names_of(
                pre.codec(),
            )[i] != name,
    ensures
        !opens_cleanly(pre, name, pwd),
        !encrypted_hit(pre, name),
{
    assert forall|i: int| !(#[trigger] codec::found_at(pre.codec(), name, i)) by {
        if codec::found_at(pre.codec(), name, i) {
            assert(codec::names_of(pre.codec())[i] != name);
        }
    }
}

/// The first entry carrying the name cannot even be probed, so a clean open
/// is impossible and no encrypted entry is hit.
proof fn lemma_probe_failed(pre: ReadZipFile, name: Seq<char>, pwd: Option<&Vec<u8>>, i0: int)
    requires
        codec::found_at(pre.codec(), name, i0),
        !codec::probe_ok_at(pre.codec(), i0),
    ensures
        !opens_cleanly(pre, name, pwd),
        !encrypted_hit(pre, name),
{
    lemma_blocked_not_cleanly(pre, name, pwd, i0);
    assert forall|i: int|
        !(#[trigger] codec::found_at(pre.codec(), name, i) && codec::probe_ok_at(pre.codec(), i)
            && codec::encrypted_at(pre.codec(), i)) by {
        if codec::found_at(pre.codec(), name, i) {
            codec::lemma_found_at_unique(pre.codec(), name, i, i0);
        }
    }
}

/// The first entry carrying the name is unencrypted, so no encrypted entry
/// is hit.
proof fn lemma_unencrypted_first(pre: ReadZipFile, name: Seq<char>, i0: int)
    requires
        codec::found_at(pre.codec(), name, i0),
        !codec::encrypted_at(pre.codec(), i0),
    ensures
        !encrypted_hit(pre, name),
{
    assert forall|i: int|
        !(#[trigger] codec::found_at(pre.codec(), name, i) && codec::probe_ok_at(pre.codec(), i)
            && codec::encrypted_at(pre.codec(), i)) by {
        if codec::found_at(pre.codec(), name, i) {
            codec::lemma_found_at_unique(pre.codec(), name, i, i0);
        }
    }
}

/// The first entry carrying the name is blocked — its probe or its decode
/// under the given password fails — so a clean open is impossible.
proof fn lemma_blocked_not_cleanly(
    pre: ReadZipFile,
    name: Seq<char>,
    pwd: Option<&Vec<u8>>,
    i0: int,
)
    requires
        codec::found_at(pre.codec(), name, i0),
        !(codec::probe_ok_at(pre.codec(), i0) && if codec::encrypted_at(pre.codec(), i0) {
            pwd matches Some(p) && codec::sealed_ok_at(pre.codec(), i0, p@)
        } else {
            codec::plain_ok_at(pre.codec(), i0)
        }),
    ensures
        !opens_cleanly(pre, name, pwd),
{
    assert forall|i: int|
        !({
            &&& #[trigger] codec::found_at(pre.codec(), name, i)
            &&& codec::probe_ok_at(pre.codec(), i)
            &&& if codec::encrypted_at(pre.codec(), i) {
                pwd matches Some(p) && codec::sealed_ok_at(pre.codec(), i, p@)
            } else {
                codec::plain_ok_at(pre.codec(), i)
            }
        }) by {
        if codec::found_at(pre.codec(), name, i) {
            codec::lemma_found_at_unique(pre.codec(), name, i, i0);
        }
    }
}

/// The live payload of an open read cursor: the codec lent out by the archive
/// handle, and the entry's decoded bytes still to be handed to the caller.
pub struct ReadCursorInner {
    pub codec: ZipArchive<Cursor<Vec<u8>>>,
    pub data: Vec<u8>,
}

/// A read-mode entry cursor.  It holds the archive's codec for as long as it
/// is open; closing it hands the codec back and releases the slot.
pub struct ReadZipExtFile {
    pub inner: Option<ReadCursorInner>,
}

impl ReadZipExtFile {
    /// Whether the cursor still holds the codec.
    pub open spec fn is_open(&self) -> bool {
        self.inner is Some
    }

    /// The codec lent to this cursor; meaningful only while open.
    pub open spec fn codec(&self) -> ZipArchive<Cursor<Vec<u8>>> {
        match self.inner {
            Some(inn) => inn.codec,
            None => vstd::pervasive::arbitrary(),
        }
    }

    /// The entry names of the lent container.
    pub open spec fn entries(&self) -> Seq<Seq<char>> {
        codec::names_of(self.codec())
    }

    /// The entry bytes not yet handed to the caller.
    pub open spec fn remaining(&self) -> Seq<u8> {
        match self.inner {
            Some(inn) => inn.data@,
            None => Seq::<u8>::empty(),
        }
    }

    /// Drains the remaining bytes of the selected entry into one buffer; a
    /// second read yields an empty buffer, and a closed cursor is refused.
    pub fn read(&mut self) -> (r: Result<Vec<u8>, ArchiveError>)
        ensures
            match r {
                Ok(v) => {
                    &&& old(self).is_open()
                    &&& v@ == old(self).remaining()
                    &&& final(self).is_open()
                    &&& final(self).remaining() == Seq::<u8>::empty()
                    &&& final(self).codec() == old(self).codec()
                },
                Err(e) => {
                    &&& e == ArchiveError::AlreadyClosed
                    &&& !old(self).is_open()
                    &&& *final(self) == *old(self)
                },
            },
    {
        match &mut self.inner {
            None => Err(ArchiveError::AlreadyClosed),
            Some(inn) => {
                let mut out: Vec<u8> = Vec::new();
                core::mem::swap(&mut inn.data, &mut out);
                Ok(out)
            },
        }
    }

    /// Discards the data view, then hands the codec back to `archive`,
    /// releasing its slot.  Closing an already closed cursor is a no-op
    /// success; a handle whose slot is not engaged is refused unchanged.
    pub fn close(&mut self, archive: &mut ReadZipFile) -> (r: Result<(), ArchiveError>)
        ensures
            match r {
                Ok(()) => (!old(self).is_open() && *final(self) == *old(self) && *final(archive)
                    == *old(archive)) || (old(self).is_open() && old(archive).status()
                    == ArchiveStatus::Engaged && !final(self).is_open() && final(archive).status()
                    == ArchiveStatus::Available && final(archive).codec() == old(self).codec()),
                Err(e) => {
                    &&& e == ArchiveError::UnsupportedMode
                    &&& old(self).is_open()
                    &&& old(archive).status() != ArchiveStatus::Engaged
                    &&& *final(self) == *old(self)
                    &&& *final(archive) == *old(archive)
                },
            },
    {
        if self.inner.is_none() {
            return Ok(());
        }
        let engaged = match &archive.file {
            ReadSlot::Engaged => true,
            _ => false,
        };
        if !engaged {
            return Err(ArchiveError::UnsupportedMode);
        }
        match self.inner.take() {
            Some(inn) => {
                archive.file = ReadSlot::Available(inn.codec);
                Ok(())
            },
            None => vstd::pervasive::unreached(),
        }
    }
}

} // verus!
