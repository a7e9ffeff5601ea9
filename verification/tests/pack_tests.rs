use jump::pack::{
    archive_entry_name, cannot_create_message, check_supported, resolve_archive_type,
    zip_dest_path,
};
use jump::{ArchiveType, Compression};

#[test]
fn test_resolve_archive_type() {
    assert_eq!(resolve_archive_type(None), ArchiveType::Zip);
    assert_eq!(resolve_archive_type(Some(ArchiveType::Tar)), ArchiveType::Tar);
    assert_eq!(
        resolve_archive_type(Some(ArchiveType::CompressedTar(Compression::Zstd))),
        ArchiveType::CompressedTar(Compression::Zstd)
    );
}

#[test]
fn test_check_supported() {
    assert_eq!(check_supported(&ArchiveType::Zip), Ok(()));
    let err = check_supported(&ArchiveType::Tar).unwrap_err();
    assert!(err.contains("not implemented"));
    assert!(err.contains("tar"));
    let err = check_supported(&ArchiveType::CompressedTar(Compression::Gzip)).unwrap_err();
    assert!(err.contains("tar.gz"));
}

#[test]
fn test_zip_dest_path() {
    assert_eq!(zip_dest_path("/work/app"), "/work/app.zip");
    assert_eq!(zip_dest_path("/work/v1.2"), "/work/v1.zip");
    assert_eq!(zip_dest_path("/work/.hidden"), "/work/.hidden.zip");
    assert_eq!(zip_dest_path("plain"), "plain.zip");
    assert_eq!(zip_dest_path("/trailing/"), "/trailing/");
}

#[test]
fn test_archive_entry_name() {
    assert_eq!(
        archive_entry_name(&vec!["a".to_string(), "b.txt".to_string()]),
        "a/b.txt"
    );
    assert_eq!(archive_entry_name(&vec!["c.txt".to_string()]), "c.txt");
    assert_eq!(archive_entry_name(&Vec::new()), "");
    assert_eq!(
        archive_entry_name(&vec!["a".to_string(), "b".to_string(), "c".to_string()]),
        "a/b/c"
    );
}

#[test]
fn test_cannot_create_message() {
    assert_eq!(
        cannot_create_message(&ArchiveType::Zip, "app", "Directory does not exist"),
        "Cannot create an zip archive from app: Directory does not exist"
    );
}
