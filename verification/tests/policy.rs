//! Compression-kind codes, level validation and parameter resolution.

use nd_zipfile::ArchiveError;
use nd_zipfile::CompressionKind;
use nd_zipfile::ZipInfo;
use nd_zipfile::ZIP_BZIP2;
use nd_zipfile::ZIP_DEFLATED;
use nd_zipfile::ZIP_LZMA;
use nd_zipfile::ZIP_STORED;
use nd_zipfile::resolve;
use nd_zipfile::validate;

#[test]
fn kind_codes_round_trip() {
    assert_eq!(CompressionKind::from_code(ZIP_STORED).unwrap(), CompressionKind::Stored);
    assert_eq!(CompressionKind::from_code(ZIP_DEFLATED).unwrap(), CompressionKind::Deflated);
    assert_eq!(CompressionKind::from_code(ZIP_BZIP2).unwrap(), CompressionKind::Bzip2);
    assert_eq!(CompressionKind::from_code(ZIP_LZMA).unwrap(), CompressionKind::Lzma);
    assert_eq!(CompressionKind::Stored.code(), 0);
    assert_eq!(CompressionKind::Deflated.code(), 8);
    assert_eq!(CompressionKind::Bzip2.code(), 12);
    assert_eq!(CompressionKind::Lzma.code(), 14);
}

#[test]
fn unknown_kind_code_is_unsupported() {
    assert_eq!(CompressionKind::from_code(99).err().unwrap(), ArchiveError::UnsupportedMode);
    assert_eq!(CompressionKind::from_code(1).err().unwrap(), ArchiveError::UnsupportedMode);
}

#[test]
fn deflate_levels_zero_through_nine() {
    assert!(validate(CompressionKind::Deflated, None).is_ok());
    assert!(validate(CompressionKind::Deflated, Some(0)).is_ok());
    assert!(validate(CompressionKind::Deflated, Some(9)).is_ok());
    assert_eq!(
        validate(CompressionKind::Deflated, Some(10)).err().unwrap(),
        ArchiveError::InvalidCompressionLevel
    );
    assert_eq!(
        validate(CompressionKind::Deflated, Some(15)).err().unwrap(),
        ArchiveError::InvalidCompressionLevel
    );
}

#[test]
fn bzip2_levels_one_through_nine() {
    assert!(validate(CompressionKind::Bzip2, None).is_ok());
    assert!(validate(CompressionKind::Bzip2, Some(1)).is_ok());
    assert!(validate(CompressionKind::Bzip2, Some(9)).is_ok());
    assert_eq!(
        validate(CompressionKind::Bzip2, Some(0)).err().unwrap(),
        ArchiveError::InvalidCompressionLevel
    );
    assert_eq!(
        validate(CompressionKind::Bzip2, Some(10)).err().unwrap(),
        ArchiveError::InvalidCompressionLevel
    );
}

#[test]
fn stored_and_lzma_ignore_levels() {
    assert!(validate(CompressionKind::Stored, Some(255)).is_ok());
    assert!(validate(CompressionKind::Lzma, Some(255)).is_ok());
    assert_eq!(resolve(CompressionKind::Stored, Some(5)), None);
    assert_eq!(resolve(CompressionKind::Lzma, Some(3)), None);
}

#[test]
fn deflate_and_bzip2_keep_levels() {
    assert_eq!(resolve(CompressionKind::Deflated, Some(7)), Some(7));
    assert_eq!(resolve(CompressionKind::Deflated, None), None);
    assert_eq!(resolve(CompressionKind::Bzip2, Some(1)), Some(1));
    assert_eq!(resolve(CompressionKind::Bzip2, None), None);
}

#[test]
fn zip_info_defaults_to_stored() {
    let info = ZipInfo::new("notes.txt");
    assert_eq!(info.filename, "notes.txt".to_string());
    assert_eq!(info.compress_type, ZIP_STORED);
    assert_eq!(info.compress_level, None);
}
