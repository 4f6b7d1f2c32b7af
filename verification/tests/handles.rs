//! The mode-specific handles used directly, and the remaining compression
//! kinds.

use nd_zipfile::ArchiveError;
use nd_zipfile::CompressionKind;
use nd_zipfile::EntrySelector;
use nd_zipfile::ZipFile;
use nd_zipfile::ZipInfo;
use nd_zipfile::ZIP_BZIP2;
use nd_zipfile::ZIP_STORED;
use nd_zipfile::read::ReadZipFile;
use nd_zipfile::write::WriteZipFile;

fn one_entry_bytes() -> Vec<u8> {
    let mut w = WriteZipFile::new(CompressionKind::Stored, None);
    let mut cur = w.open(&EntrySelector::Name("direct.txt".to_string())).unwrap();
    cur.write(b"through the mode handle").unwrap();
    cur.close(&mut w).unwrap();
    w.close().unwrap().unwrap()
}

#[test]
fn write_handle_builds_and_read_handle_reads() {
    let bytes = one_entry_bytes();
    let mut r = ReadZipFile::new(bytes).unwrap();
    assert_eq!(r.namelist().unwrap(), vec!["direct.txt".to_string()]);
    let mut cur = r.open("direct.txt", None).unwrap();
    assert_eq!(cur.read().unwrap(), b"through the mode handle".to_vec());
    cur.close(&mut r).unwrap();
    r.close().unwrap();
}

#[test]
fn read_handle_discipline_matches_the_facade() {
    let bytes = one_entry_bytes();
    let mut r = ReadZipFile::new(bytes).unwrap();
    let mut cur = r.open("direct.txt", None).unwrap();
    assert_eq!(r.open("direct.txt", None).err().unwrap(), ArchiveError::Busy);
    assert_eq!(r.namelist().err().unwrap(), ArchiveError::Busy);
    assert_eq!(r.close().err().unwrap(), ArchiveError::Busy);
    cur.close(&mut r).unwrap();
    assert_eq!(r.open("gone.txt", None).err().unwrap(), ArchiveError::EntryNotFound);
    r.close().unwrap();
    assert_eq!(r.open("direct.txt", None).err().unwrap(), ArchiveError::AlreadyClosed);
    r.close().unwrap();
}

#[test]
fn write_handle_second_close_returns_nothing() {
    let mut w = WriteZipFile::new(CompressionKind::Stored, None);
    assert!(w.close().unwrap().is_some());
    assert_eq!(w.close().unwrap(), None);
    assert_eq!(
        w.open(&EntrySelector::Name("late.txt".to_string())).err().unwrap(),
        ArchiveError::AlreadyClosed
    );
}

#[test]
fn bzip2_entry_round_trips() {
    let mut zf = ZipFile::new(Vec::new(), "w", ZIP_STORED, true, None).unwrap();
    let mut info = ZipInfo::new("packed.bz2");
    info.compress_type = ZIP_BZIP2;
    info.compress_level = Some(5);
    let mut cur = zf.open(&EntrySelector::Info(info), "w", None).unwrap();
    let payload: Vec<u8> = (0..2000u32).map(|i| (i % 251) as u8).collect();
    cur.write(&payload).unwrap();
    cur.close(&mut zf).unwrap();
    let bytes = zf.close().unwrap().unwrap();

    let mut rf = ZipFile::new(bytes, "r", ZIP_STORED, true, None).unwrap();
    assert_eq!(rf.namelist().unwrap(), vec!["packed.bz2".to_string()]);
    let mut cur = rf.open(&EntrySelector::Name("packed.bz2".to_string()), "r", None).unwrap();
    assert_eq!(cur.read().unwrap(), payload);
    cur.close(&mut rf).unwrap();
}
