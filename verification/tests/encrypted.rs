//! Encrypted entries: the password discipline of the read path.
//!
//! The fixture archive is produced with the codec itself, since the library
//! deliberately refuses to write encrypted entries.

use nd_zipfile::ArchiveError;
use nd_zipfile::EntrySelector;
use nd_zipfile::ZipFile;
use nd_zipfile::ZIP_STORED;
use std::io::Cursor;
use std::io::Write;

const PLAINTEXT: &[u8] = b"attack at dawn";
const PASSWORD: &[u8] = b"correct horse battery staple";

fn encrypted_fixture() -> Vec<u8> {
    let mut w = zip::ZipWriter::new(Cursor::new(Vec::new()));
    let pwd = std::str::from_utf8(PASSWORD).unwrap();
    let opts = zip::write::SimpleFileOptions::default()
        .compression_method(zip::CompressionMethod::Stored)
        .with_aes_encryption(zip::AesMode::Aes256, pwd);
    w.start_file("secret.txt", opts).unwrap();
    w.write_all(PLAINTEXT).unwrap();
    let plain_opts = zip::write::SimpleFileOptions::default()
        .compression_method(zip::CompressionMethod::Stored);
    w.start_file("open.txt", plain_opts).unwrap();
    w.write_all(b"no secrets here").unwrap();
    w.finish().unwrap().into_inner()
}

fn secret() -> EntrySelector {
    EntrySelector::Name("secret.txt".to_string())
}

#[test]
fn encrypted_entry_without_password_is_refused() {
    let mut rf = ZipFile::new(encrypted_fixture(), "r", ZIP_STORED, true, None).unwrap();
    assert_eq!(rf.open(&secret(), "r", None).err().unwrap(), ArchiveError::PasswordRequired);
    // the failed open released the lock
    let mut cur = rf.open(&EntrySelector::Name("open.txt".to_string()), "r", None).unwrap();
    assert_eq!(cur.read().unwrap(), b"no secrets here".to_vec());
    cur.close(&mut rf).unwrap();
}

#[test]
fn wrong_password_fails_decryption() {
    let mut rf = ZipFile::new(encrypted_fixture(), "r", ZIP_STORED, true, None).unwrap();
    let wrong = b"not the password".to_vec();
    assert_eq!(
        rf.open(&secret(), "r", Some(&wrong)).err().unwrap(),
        ArchiveError::DecryptionFailed
    );
    // and the lock is free again afterwards
    let mut cur = rf.open(&EntrySelector::Name("open.txt".to_string()), "r", None).unwrap();
    cur.close(&mut rf).unwrap();
}

#[test]
fn correct_password_yields_the_plaintext() {
    let mut rf = ZipFile::new(encrypted_fixture(), "r", ZIP_STORED, true, None).unwrap();
    let pwd = PASSWORD.to_vec();
    let mut cur = rf.open(&secret(), "r", Some(&pwd)).unwrap();
    assert_eq!(cur.read().unwrap(), PLAINTEXT.to_vec());
    cur.close(&mut rf).unwrap();
    rf.close().unwrap();
}

#[test]
fn unencrypted_entry_ignores_a_supplied_password() {
    // a password handed to an unencrypted entry does not get in the way
    let mut rf = ZipFile::new(encrypted_fixture(), "r", ZIP_STORED, true, None).unwrap();
    let pwd = PASSWORD.to_vec();
    let mut cur = rf
        .open(&EntrySelector::Name("open.txt".to_string()), "r", Some(&pwd))
        .unwrap();
    assert_eq!(cur.read().unwrap(), b"no secrets here".to_vec());
    cur.close(&mut rf).unwrap();
}
