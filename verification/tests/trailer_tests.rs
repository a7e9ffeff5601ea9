use std::io::Write;

use jump::codec::serialize_config;
use jump::trailer::{end_of_zip, load, MAXIMUM_CONFIG_SIZE};
use jump::{Blob, Cmd, Config, File, Fingerprint, HashAlgorithm, Locator, Scie};
use zip::write::SimpleFileOptions;
use zip::ZipWriter;

/// The smallest valid zip: an empty end-of-central-directory record.
fn empty_zip() -> Vec<u8> {
    let mut z = vec![0x50u8, 0x4b, 0x05, 0x06];
    z.extend_from_slice(&[0u8; 18]);
    z
}

fn zip_with_entries(entries: &[(&str, &[u8])]) -> Vec<u8> {
    let cursor = std::io::Cursor::new(Vec::new());
    let mut writer = ZipWriter::new(cursor);
    for (name, content) in entries {
        writer
            .start_file(name.to_string(), SimpleFileOptions::default())
            .unwrap();
        writer.write_all(content).unwrap();
    }
    writer.finish().unwrap().into_inner()
}

fn minimal_config() -> Config {
    Config {
        scie: Scie {
            version: "0.1.0".to_string(),
            root: "~/.nce".to_string(),
        },
        files: vec![File::Blob(Blob {
            locator: Locator::Size(3),
            fingerprint: Fingerprint {
                algorithm: HashAlgorithm::Sha256,
                hash: "abc".to_string(),
            },
            name: "data".to_string(),
            always_extract: false,
        })],
        command: Cmd {
            exe: "python".to_string(),
            args: Vec::new(),
            env: Vec::new(),
            additional_files: Vec::new(),
        },
        additional_commands: Vec::new(),
    }
}

#[test]
fn test_end_of_zip_empty_archive() {
    let zip_bytes = empty_zip();
    let mut buf = zip_bytes.clone();
    buf.extend_from_slice(b"{\"some\": \"json\"}");
    assert_eq!(end_of_zip(&buf, MAXIMUM_CONFIG_SIZE), Ok(zip_bytes.len()));
}

#[test]
fn test_end_of_zip_one_entry() {
    let zip_bytes = zip_with_entries(&[("a.txt", b"hello")]);
    let mut buf = zip_bytes.clone();
    buf.extend_from_slice(b"{\"trailing\": 1}");
    assert_eq!(end_of_zip(&buf, MAXIMUM_CONFIG_SIZE), Ok(zip_bytes.len()));
}

#[test]
fn test_end_of_zip_many_entries() {
    let zip_bytes = zip_with_entries(&[
        ("a.txt", b"hello".as_slice()),
        ("b/c.txt", b"world".as_slice()),
        ("d.bin", [0x50u8, 0x4b, 0x05, 0x06].repeat(8).as_slice()),
    ]);
    let mut buf = zip_bytes.clone();
    buf.extend_from_slice(b"[1, 2, 3]");
    assert_eq!(end_of_zip(&buf, MAXIMUM_CONFIG_SIZE), Ok(zip_bytes.len()));
}

#[test]
fn test_end_of_zip_with_comment() {
    let cursor = std::io::Cursor::new(Vec::new());
    let mut writer = ZipWriter::new(cursor);
    writer.set_comment("packaged by tests").unwrap();
    writer
        .start_file("a.txt".to_string(), SimpleFileOptions::default())
        .unwrap();
    writer.write_all(b"hi").unwrap();
    let zip_bytes = writer.finish().unwrap().into_inner();
    let mut buf = zip_bytes.clone();
    buf.extend_from_slice(b"{}");
    assert_eq!(end_of_zip(&buf, MAXIMUM_CONFIG_SIZE), Ok(zip_bytes.len()));
}

#[test]
fn test_end_of_zip_comment_length_field() {
    // A hand-built record declaring a 3-byte comment: the trailer starts
    // right after the record and that comment.
    let mut buf = vec![0x50u8, 0x4b, 0x05, 0x06];
    buf.extend_from_slice(&[0u8; 16]);
    buf.extend_from_slice(&[3, 0]);
    buf.extend_from_slice(b"xyz");
    buf.extend_from_slice(b"{\"manifest\": true}");
    assert_eq!(end_of_zip(&buf, MAXIMUM_CONFIG_SIZE), Ok(25));
}

#[test]
fn test_end_of_zip_bounded_scan() {
    let zip_bytes = zip_with_entries(&[("a.txt", b"hello")]);
    let mut buf = zip_bytes.clone();
    // A trailer larger than the whole scan window hides the record.
    buf.extend_from_slice(&vec![b'x'; 70_000]);
    let err = end_of_zip(&buf, 0).unwrap_err();
    assert!(err.contains("Invalid NCE"));
    // The scan window for a zero trailer bound: the fixed record plus
    // the largest possible comment.
    assert!(err.contains("65557"));
}

#[test]
fn test_end_of_zip_no_signature() {
    let buf = vec![7u8; 4096];
    let err = end_of_zip(&buf, MAXIMUM_CONFIG_SIZE).unwrap_err();
    assert!(err.contains("Invalid NCE"));
}

#[test]
fn test_end_of_zip_truncated_record() {
    // The signature sits so close to the end that the fixed record
    // cannot fit behind it.
    let mut buf = vec![0u8; 64];
    buf.extend_from_slice(&[0x50, 0x4b, 0x05, 0x06]);
    let err = end_of_zip(&buf, MAXIMUM_CONFIG_SIZE).unwrap_err();
    assert!(err.contains("Invalid NCE"));
}

#[test]
fn test_load_end_to_end() {
    let zip_bytes = zip_with_entries(&[("a/b.txt", b"hi"), ("c.txt", b"bye")]);
    let config = minimal_config();
    let mut buf = zip_bytes.clone();
    buf.extend_from_slice(&serialize_config(&config));
    assert_eq!(load(&buf), Ok(config));
}

#[test]
fn test_load_rejects_bad_manifest() {
    let zip_bytes = zip_with_entries(&[("a.txt", b"hi")]);
    let mut buf = zip_bytes.clone();
    buf.extend_from_slice(b"this is not a manifest");
    assert!(load(&buf).is_err());
}

#[test]
fn test_load_needs_a_zip() {
    assert!(load(b"no archive here").is_err());
}
