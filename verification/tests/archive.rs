//! Archive handles and entry cursors: round trips, the single-cursor
//! discipline, and the error taxonomy.

use nd_zipfile::ArchiveError;
use nd_zipfile::EntrySelector;
use nd_zipfile::ZipFile;
use nd_zipfile::ZipInfo;
use nd_zipfile::ZIP_DEFLATED;
use nd_zipfile::ZIP_STORED;

fn name(s: &str) -> EntrySelector {
    EntrySelector::Name(s.to_string())
}

fn pseudo_random_bytes(n: usize, mut seed: u64) -> Vec<u8> {
    let mut out = Vec::with_capacity(n);
    for _ in 0..n {
        seed = seed.wrapping_mul(6364136223846793005).wrapping_add(1442695040888963407);
        out.push((seed >> 33) as u8);
    }
    out
}

/// Builds the two-entry archive used by several tests: `a.txt` stored,
/// `b.bin` deflated, and returns the finished bytes with `b.bin`'s payload.
fn two_entry_archive() -> (Vec<u8>, Vec<u8>) {
    let mut zf = ZipFile::new(Vec::new(), "w", ZIP_STORED, true, None).unwrap();
    let mut cur = zf.open(&name("a.txt"), "w", None).unwrap();
    cur.write(b"hello").unwrap();
    cur.close(&mut zf).unwrap();

    let mut info = ZipInfo::new("b.bin");
    info.compress_type = ZIP_DEFLATED;
    info.compress_level = Some(6);
    let payload = pseudo_random_bytes(1000, 42);
    let mut cur = zf.open(&EntrySelector::Info(info), "w", None).unwrap();
    cur.write(&payload).unwrap();
    cur.close(&mut zf).unwrap();

    let bytes = zf.close().unwrap().expect("write close hands back the bytes");
    (bytes, payload)
}

#[test]
fn round_trip_stored_and_deflated() {
    let (bytes, payload) = two_entry_archive();
    let mut rf = ZipFile::new(bytes, "r", ZIP_STORED, true, None).unwrap();
    assert_eq!(rf.namelist().unwrap(), vec!["a.txt".to_string(), "b.bin".to_string()]);

    let mut cur = rf.open(&name("a.txt"), "r", None).unwrap();
    assert_eq!(cur.read().unwrap(), b"hello".to_vec());
    cur.close(&mut rf).unwrap();

    let mut cur = rf.open(&name("b.bin"), "r", None).unwrap();
    assert_eq!(cur.read().unwrap(), payload);
    cur.close(&mut rf).unwrap();
    rf.close().unwrap();
}

#[test]
fn second_read_yields_empty_buffer() {
    let (bytes, _) = two_entry_archive();
    let mut rf = ZipFile::new(bytes, "r", ZIP_STORED, true, None).unwrap();
    let mut cur = rf.open(&name("a.txt"), "r", None).unwrap();
    assert_eq!(cur.read().unwrap(), b"hello".to_vec());
    assert_eq!(cur.read().unwrap(), Vec::<u8>::new());
    cur.close(&mut rf).unwrap();
}

#[test]
fn second_open_while_cursor_live_is_busy() {
    let (bytes, _) = two_entry_archive();
    let mut rf = ZipFile::new(bytes, "r", ZIP_STORED, true, None).unwrap();
    let mut cur = rf.open(&name("a.txt"), "r", None).unwrap();
    assert_eq!(rf.open(&name("b.bin"), "r", None).err().unwrap(), ArchiveError::Busy);
    cur.close(&mut rf).unwrap();
    // after release the second open succeeds
    let mut cur = rf.open(&name("b.bin"), "r", None).unwrap();
    cur.close(&mut rf).unwrap();
}

#[test]
fn metadata_ops_while_cursor_live_are_busy() {
    let (bytes, _) = two_entry_archive();
    let mut rf = ZipFile::new(bytes, "r", ZIP_STORED, true, None).unwrap();
    let mut cur = rf.open(&name("a.txt"), "r", None).unwrap();
    assert_eq!(rf.namelist().err().unwrap(), ArchiveError::Busy);
    assert_eq!(rf.close().err().unwrap(), ArchiveError::Busy);
    cur.close(&mut rf).unwrap();
    rf.close().unwrap();
}

#[test]
fn write_handle_second_open_is_busy() {
    let mut zf = ZipFile::new(Vec::new(), "w", ZIP_STORED, true, None).unwrap();
    let mut cur = zf.open(&name("a.txt"), "w", None).unwrap();
    assert_eq!(zf.open(&name("b.txt"), "w", None).err().unwrap(), ArchiveError::Busy);
    assert_eq!(zf.close().err().unwrap(), ArchiveError::Busy);
    cur.close(&mut zf).unwrap();
    assert!(zf.close().unwrap().is_some());
}

#[test]
fn closed_archive_refuses_entry_and_metadata_ops() {
    let (bytes, _) = two_entry_archive();
    let mut rf = ZipFile::new(bytes, "r", ZIP_STORED, true, None).unwrap();
    rf.close().unwrap();
    assert_eq!(rf.open(&name("a.txt"), "r", None).err().unwrap(), ArchiveError::AlreadyClosed);
    assert_eq!(rf.namelist().err().unwrap(), ArchiveError::AlreadyClosed);

    let mut zf = ZipFile::new(Vec::new(), "w", ZIP_STORED, true, None).unwrap();
    zf.close().unwrap();
    assert_eq!(zf.open(&name("a.txt"), "w", None).err().unwrap(), ArchiveError::AlreadyClosed);
}

#[test]
fn close_twice_is_a_silent_no_op() {
    let (bytes, _) = two_entry_archive();
    let mut rf = ZipFile::new(bytes, "r", ZIP_STORED, true, None).unwrap();
    assert_eq!(rf.close().unwrap(), None);
    assert_eq!(rf.close().unwrap(), None);

    let mut zf = ZipFile::new(Vec::new(), "w", ZIP_STORED, true, None).unwrap();
    assert!(zf.close().unwrap().is_some());
    assert_eq!(zf.close().unwrap(), None);
}

#[test]
fn cursor_close_twice_is_a_no_op() {
    let (bytes, _) = two_entry_archive();
    let mut rf = ZipFile::new(bytes, "r", ZIP_STORED, true, None).unwrap();
    let mut cur = rf.open(&name("a.txt"), "r", None).unwrap();
    cur.close(&mut rf).unwrap();
    cur.close(&mut rf).unwrap();
    assert_eq!(cur.read().err().unwrap(), ArchiveError::AlreadyClosed);
    rf.close().unwrap();

    let mut zf = ZipFile::new(Vec::new(), "w", ZIP_STORED, true, None).unwrap();
    let mut cur = zf.open(&name("a.txt"), "w", None).unwrap();
    cur.close(&mut zf).unwrap();
    cur.close(&mut zf).unwrap();
    assert_eq!(cur.write(b"x").err().unwrap(), ArchiveError::AlreadyClosed);
}

#[test]
fn entry_not_found_releases_the_lock() {
    let (bytes, _) = two_entry_archive();
    let mut rf = ZipFile::new(bytes, "r", ZIP_STORED, true, None).unwrap();
    assert_eq!(rf.open(&name("missing.txt"), "r", None).err().unwrap(), ArchiveError::EntryNotFound);
    // the failed resolution left the slot available
    let mut cur = rf.open(&name("a.txt"), "r", None).unwrap();
    assert_eq!(cur.read().unwrap(), b"hello".to_vec());
    cur.close(&mut rf).unwrap();
}

#[test]
fn invalid_deflate_level_rejected_before_registration() {
    let mut zf = ZipFile::new(Vec::new(), "w", ZIP_STORED, true, None).unwrap();
    let mut info = ZipInfo::new("too-high.bin");
    info.compress_type = ZIP_DEFLATED;
    info.compress_level = Some(15);
    assert_eq!(
        zf.open(&EntrySelector::Info(info), "w", None).err().unwrap(),
        ArchiveError::InvalidCompressionLevel
    );
    // the rejected entry never reached the container index
    let bytes = zf.close().unwrap().unwrap();
    let rf = ZipFile::new(bytes, "r", ZIP_STORED, true, None).unwrap();
    assert_eq!(rf.namelist().unwrap(), Vec::<String>::new());
}

#[test]
fn unknown_entry_kind_code_is_unsupported() {
    let mut zf = ZipFile::new(Vec::new(), "w", ZIP_STORED, true, None).unwrap();
    let mut info = ZipInfo::new("odd.bin");
    info.compress_type = 99;
    assert_eq!(
        zf.open(&EntrySelector::Info(info), "w", None).err().unwrap(),
        ArchiveError::UnsupportedMode
    );
}

#[test]
fn malformed_bytes_are_rejected_on_open() {
    let garbage = vec![0x50, 0x4b, 0x99, 0x99, 1, 2, 3, 4, 5];
    assert_eq!(
        ZipFile::new(garbage, "r", ZIP_STORED, true, None).err().unwrap(),
        ArchiveError::MalformedArchive
    );
}

#[test]
fn unsupported_modes_are_rejected() {
    assert_eq!(
        ZipFile::new(Vec::new(), "a", ZIP_STORED, true, None).err().unwrap(),
        ArchiveError::UnsupportedMode
    );
    assert_eq!(
        ZipFile::new(Vec::new(), "x", ZIP_STORED, true, None).err().unwrap(),
        ArchiveError::UnsupportedMode
    );
    assert_eq!(
        ZipFile::new(Vec::new(), "rw", ZIP_STORED, true, None).err().unwrap(),
        ArchiveError::UnsupportedMode
    );
    assert_eq!(
        ZipFile::new(Vec::new(), "w", ZIP_STORED, false, None).err().unwrap(),
        ArchiveError::UnsupportedMode
    );
    // unknown archive-wide kind code in write mode
    assert_eq!(
        ZipFile::new(Vec::new(), "w", 3, true, None).err().unwrap(),
        ArchiveError::UnsupportedMode
    );
}

#[test]
fn cross_mode_use_is_unsupported() {
    let (bytes, _) = two_entry_archive();
    let mut rf = ZipFile::new(bytes, "r", ZIP_STORED, true, None).unwrap();
    assert_eq!(rf.open(&name("a.txt"), "w", None).err().unwrap(), ArchiveError::UnsupportedMode);
    assert_eq!(rf.open(&name("a.txt"), "z", None).err().unwrap(), ArchiveError::UnsupportedMode);

    let mut zf = ZipFile::new(Vec::new(), "w", ZIP_STORED, true, None).unwrap();
    assert_eq!(zf.open(&name("a.txt"), "r", None).err().unwrap(), ArchiveError::UnsupportedMode);
    assert_eq!(zf.namelist().err().unwrap(), ArchiveError::UnsupportedMode);

    // a descriptor selector is not accepted when reading
    let (bytes, _) = two_entry_archive();
    let mut rf = ZipFile::new(bytes, "r", ZIP_STORED, true, None).unwrap();
    let info = ZipInfo::new("a.txt");
    assert_eq!(
        rf.open(&EntrySelector::Info(info), "r", None).err().unwrap(),
        ArchiveError::UnsupportedMode
    );
}

#[test]
fn cursor_mode_misuse_is_unsupported() {
    let (bytes, _) = two_entry_archive();
    let mut rf = ZipFile::new(bytes, "r", ZIP_STORED, true, None).unwrap();
    let mut cur = rf.open(&name("a.txt"), "r", None).unwrap();
    assert_eq!(cur.write(b"x").err().unwrap(), ArchiveError::UnsupportedMode);
    cur.close(&mut rf).unwrap();

    let mut zf = ZipFile::new(Vec::new(), "w", ZIP_STORED, true, None).unwrap();
    let mut cur = zf.open(&name("a.txt"), "w", None).unwrap();
    assert_eq!(cur.read().err().unwrap(), ArchiveError::UnsupportedMode);
    cur.close(&mut zf).unwrap();
}

#[test]
fn cursor_close_against_wrong_archive_is_refused() {
    let (bytes, _) = two_entry_archive();
    let mut rf = ZipFile::new(bytes, "r", ZIP_STORED, true, None).unwrap();
    let mut cur = rf.open(&name("a.txt"), "r", None).unwrap();
    // an archive of the other mode cannot take the cursor's codec back
    let mut zf = ZipFile::new(Vec::new(), "w", ZIP_STORED, true, None).unwrap();
    assert_eq!(cur.close(&mut zf).err().unwrap(), ArchiveError::UnsupportedMode);
    // a read archive whose slot is not engaged is refused too
    let (other_bytes, _) = two_entry_archive();
    let mut other = ZipFile::new(other_bytes, "r", ZIP_STORED, true, None).unwrap();
    assert_eq!(cur.close(&mut other).err().unwrap(), ArchiveError::UnsupportedMode);
    // the right archive still takes it back
    cur.close(&mut rf).unwrap();
    rf.close().unwrap();
}

#[test]
fn encrypted_write_is_unsupported() {
    let mut zf = ZipFile::new(Vec::new(), "w", ZIP_STORED, true, None).unwrap();
    let pwd = b"secret".to_vec();
    assert_eq!(
        zf.open(&name("a.txt"), "w", Some(&pwd)).err().unwrap(),
        ArchiveError::UnsupportedMode
    );
}

#[test]
fn corrupted_entry_surfaces_as_io() {
    let (mut bytes, _) = two_entry_archive();
    // flip one byte of the stored "hello" payload so its checksum no longer
    // matches; the container index itself stays intact
    let pos = bytes.windows(5).position(|w| w == b"hello").unwrap();
    bytes[pos] ^= 0xff;
    let mut rf = ZipFile::new(bytes, "r", ZIP_STORED, true, None).unwrap();
    assert_eq!(rf.open(&name("a.txt"), "r", None).err().unwrap(), ArchiveError::Io);
    // the failure released the lock: the intact entry still opens
    let mut cur = rf.open(&name("b.bin"), "r", None).unwrap();
    cur.close(&mut rf).unwrap();
}

#[test]
fn empty_write_archive_round_trips() {
    let mut zf = ZipFile::new(Vec::new(), "w", ZIP_STORED, true, None).unwrap();
    let bytes = zf.close().unwrap().unwrap();
    let rf = ZipFile::new(bytes, "r", ZIP_STORED, true, None).unwrap();
    assert_eq!(rf.namelist().unwrap(), Vec::<String>::new());
}

#[test]
fn archive_defaults_apply_to_plain_names() {
    // archive-wide Deflate level 3 applies when an entry is opened by name
    let mut zf = ZipFile::new(Vec::new(), "w", ZIP_DEFLATED, true, Some(3)).unwrap();
    let mut cur = zf.open(&name("x.bin"), "w", None).unwrap();
    let payload = pseudo_random_bytes(500, 7);
    cur.write(&payload).unwrap();
    cur.close(&mut zf).unwrap();
    let bytes = zf.close().unwrap().unwrap();

    let mut rf = ZipFile::new(bytes, "r", ZIP_STORED, true, None).unwrap();
    let mut cur = rf.open(&name("x.bin"), "r", None).unwrap();
    assert_eq!(cur.read().unwrap(), payload);
    cur.close(&mut rf).unwrap();
}

#[test]
fn invalid_archive_default_level_fails_at_entry_open() {
    // the archive-wide level is validated at entry-open time, not at creation
    let mut zf = ZipFile::new(Vec::new(), "w", ZIP_DEFLATED, true, Some(12)).unwrap();
    assert_eq!(
        zf.open(&name("a.txt"), "w", None).err().unwrap(),
        ArchiveError::InvalidCompressionLevel
    );
}

#[test]
fn chunked_writes_accumulate() {
    let mut zf = ZipFile::new(Vec::new(), "w", ZIP_STORED, true, None).unwrap();
    let mut cur = zf.open(&name("chunks.txt"), "w", None).unwrap();
    cur.write(b"one ").unwrap();
    cur.write(b"two ").unwrap();
    cur.write(b"three").unwrap();
    cur.close(&mut zf).unwrap();
    let bytes = zf.close().unwrap().unwrap();

    let mut rf = ZipFile::new(bytes, "r", ZIP_STORED, true, None).unwrap();
    let mut cur = rf.open(&name("chunks.txt"), "r", None).unwrap();
    assert_eq!(cur.read().unwrap(), b"one two three".to_vec());
    cur.close(&mut rf).unwrap();
}
