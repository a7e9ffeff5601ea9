use jump::codec::{deserialize_config, serialize_config};
use jump::{
    Archive, ArchiveType, Blob, Cmd, Compression, Config, File, Fingerprint, HashAlgorithm,
    Locator, Scie,
};

fn sample_config() -> Config {
    Config {
        scie: Scie {
            version: "0.1.0".to_string(),
            root: "~/.nce".to_string(),
        },
        files: vec![
            File::Blob(Blob {
                locator: Locator::Size(1137),
                fingerprint: Fingerprint {
                    algorithm: HashAlgorithm::Sha256,
                    hash: "abc".to_string(),
                },
                name: "pants-client".to_string(),
                always_extract: true,
            }),
            File::Archive(Archive {
                locator: Locator::Size(123),
                fingerprint: Fingerprint {
                    algorithm: HashAlgorithm::Sha256,
                    hash: "345".to_string(),
                },
                archive_type: ArchiveType::CompressedTar(Compression::Zstd),
                name: Some("python".to_string()),
                always_extract: false,
            }),
            File::Archive(Archive {
                locator: Locator::Size(42),
                fingerprint: Fingerprint {
                    algorithm: HashAlgorithm::Sha256,
                    hash: "def".to_string(),
                },
                archive_type: ArchiveType::Zip,
                name: None,
                always_extract: false,
            }),
        ],
        command: Cmd {
            exe: "bob/exe".to_string(),
            args: Vec::new(),
            env: Vec::new(),
            additional_files: Vec::new(),
        },
        additional_commands: Vec::new(),
    }
}

#[test]
fn test_serialized_form() {
    let bytes = serialize_config(&sample_config());
    println!("{}", String::from_utf8(bytes).unwrap());
}

#[test]
fn test_deserialize_defaults() {
    let text = r#"
            {
              "scie": {
                "version": "0.1.0",
                "root": "~/.nce"
              },
              "files": [
                {
                  "type": "blob",
                  "name": "pants-client",
                  "size": 1,
                  "fingerprint": {
                    "algorithm": "sha256",
                    "hash": "789"
                  }
                },
                {
                  "type": "archive",
                  "size": 1137,
                  "fingerprint": {
                    "algorithm": "sha256",
                    "hash": "abc"
                  },
                  "archive_type": "tar.gz"
                },
                {
                  "type": "archive",
                  "name": "app",
                  "size": 42,
                  "fingerprint": {
                    "algorithm": "sha256",
                    "hash": "xyz"
                  },
                  "archive_type": "zip"
                }
              ],
              "command": {
                  "env": {
                    "PEX_VERBOSE": "1"
                  },
                  "exe":"{python}/bin/python",
                  "args": [
                    "{app}"
                  ]
              }
            }
        "#;
    println!("{:#?}", deserialize_config(text.as_bytes()).unwrap());
}

#[test]
fn test_deserialize_defaults_values() {
    let text = r#"
            {
              "scie": { "version": "0.1.0", "root": "~/.nce" },
              "files": [
                {
                  "type": "blob",
                  "name": "pants-client",
                  "size": 1,
                  "fingerprint": { "algorithm": "sha256", "hash": "789" }
                },
                {
                  "type": "archive",
                  "size": 1137,
                  "fingerprint": { "algorithm": "sha256", "hash": "abc" },
                  "archive_type": "tar.gz"
                }
              ],
              "command": { "exe": "python" }
            }
        "#;
    let config = deserialize_config(text.as_bytes()).unwrap();
    match &config.files[0] {
        File::Blob(blob) => {
            assert!(!blob.always_extract);
            assert_eq!(blob.locator, Locator::Size(1));
        }
        other => panic!("expected a blob entry, got {:?}", other),
    }
    match &config.files[1] {
        File::Archive(archive) => {
            assert_eq!(archive.name, None);
            assert!(!archive.always_extract);
            assert_eq!(
                archive.archive_type,
                ArchiveType::CompressedTar(Compression::Gzip)
            );
        }
        other => panic!("expected an archive entry, got {:?}", other),
    }
    assert_eq!(config.command.args, Vec::<String>::new());
    assert_eq!(config.command.env, Vec::<(String, String)>::new());
    assert_eq!(config.command.additional_files, Vec::<String>::new());
    assert!(config.additional_commands.is_empty());
}

#[test]
fn test_archive_type_round_trip() {
    let variants = [
        ArchiveType::Zip,
        ArchiveType::Tar,
        ArchiveType::CompressedTar(Compression::Bzip2),
        ArchiveType::CompressedTar(Compression::Gzip),
        ArchiveType::CompressedTar(Compression::Lzma),
        ArchiveType::CompressedTar(Compression::Xz),
        ArchiveType::CompressedTar(Compression::Zlib),
        ArchiveType::CompressedTar(Compression::Zstd),
    ];
    for t in variants {
        assert_eq!(ArchiveType::from_ext(t.as_ext()), Ok(t));
    }
}

#[test]
fn test_archive_type_aliases() {
    let cases = [
        ("zip", ArchiveType::Zip, "zip"),
        ("tar", ArchiveType::Tar, "tar"),
        ("tbz2", ArchiveType::CompressedTar(Compression::Bzip2), "tar.bz2"),
        ("tar.bz2", ArchiveType::CompressedTar(Compression::Bzip2), "tar.bz2"),
        ("tgz", ArchiveType::CompressedTar(Compression::Gzip), "tar.gz"),
        ("tar.gz", ArchiveType::CompressedTar(Compression::Gzip), "tar.gz"),
        ("tlz", ArchiveType::CompressedTar(Compression::Lzma), "tar.lzma"),
        ("tar.lzma", ArchiveType::CompressedTar(Compression::Lzma), "tar.lzma"),
        ("tar.xz", ArchiveType::CompressedTar(Compression::Xz), "tar.xz"),
        ("tar.Z", ArchiveType::CompressedTar(Compression::Zlib), "tar.Z"),
        ("tzst", ArchiveType::CompressedTar(Compression::Zstd), "tar.zst"),
        ("tar.zst", ArchiveType::CompressedTar(Compression::Zstd), "tar.zst"),
    ];
    for (alias, expected, canonical) in cases {
        let parsed = ArchiveType::from_ext(alias).unwrap();
        assert_eq!(parsed, expected);
        assert_eq!(parsed.as_ext(), canonical);
        // The canonical form is stable across repeated round trips.
        assert_eq!(ArchiveType::from_ext(parsed.as_ext()).unwrap().as_ext(), canonical);
    }
}

#[test]
fn test_unknown_archive_type() {
    let err = ArchiveType::from_ext("rar").unwrap_err();
    assert!(err.contains("rar"));
    assert!(err.contains(
        "zip, tar, tbz2, tar.bz2, tgz, tar.gz, tlz, tar.lzma, tar.xz, tar.Z, tzst or tar.zst"
    ));
    let text = r#"
            {
              "scie": { "version": "0.1.0", "root": "~/.nce" },
              "files": [
                {
                  "type": "archive",
                  "size": 1,
                  "fingerprint": { "algorithm": "sha256", "hash": "a" },
                  "archive_type": "rar"
                }
              ],
              "command": { "exe": "python" }
            }
        "#;
    let err = deserialize_config(text.as_bytes()).unwrap_err();
    assert!(err.contains("rar"));
    assert!(err.contains("tzst or tar.zst"));
}

#[test]
fn test_config_round_trip() {
    let config = Config {
        scie: Scie {
            version: "0.2.1".to_string(),
            root: "/opt/nce".to_string(),
        },
        files: vec![
            File::Blob(Blob {
                locator: Locator::Entry("inner/path".to_string()),
                fingerprint: Fingerprint {
                    algorithm: HashAlgorithm::Sha256,
                    hash: "0ff".to_string(),
                },
                name: "data".to_string(),
                always_extract: false,
            }),
            File::Archive(Archive {
                locator: Locator::Size(7),
                fingerprint: Fingerprint {
                    algorithm: HashAlgorithm::Sha256,
                    hash: "123".to_string(),
                },
                archive_type: ArchiveType::CompressedTar(Compression::Xz),
                name: None,
                always_extract: true,
            }),
        ],
        command: Cmd {
            exe: "{python}/bin/python".to_string(),
            args: vec!["-m".to_string(), "venv".to_string()],
            env: vec![("PEX_VERBOSE".to_string(), "1".to_string())],
            additional_files: vec!["lib.so".to_string()],
        },
        additional_commands: vec![(
            "repl".to_string(),
            Cmd {
                exe: "python".to_string(),
                args: Vec::new(),
                env: Vec::new(),
                additional_files: Vec::new(),
            },
        )],
    };
    let bytes = serialize_config(&config);
    let back = deserialize_config(&bytes).unwrap();
    assert_eq!(back, config);
}

#[test]
fn test_deserialize_rejects_bad_documents() {
    assert!(deserialize_config(b"not json at all").is_err());
    assert!(deserialize_config(b"[1, 2, 3]").is_err());
    assert!(deserialize_config(b"{\"scie\": {\"version\": \"1\", \"root\": \"r\"}}").is_err());
}
