//! The manifest data model: the types that describe a packaged application
//! (referenced files, their locators and fingerprints, archive kinds and
//! commands), together with the string codec for [`ArchiveType`].
//!
//! Every type has a mathematical mirror (`*V`) reached through `DeepView`;
//! the codec's contracts are stated over those mirrors.

use vstd::prelude::*;
use vstd::string::StringExecFns;
use crate::strutil::str_eq;

verus! {

/// Digest algorithm of a [`Fingerprint`]. Encoded as a lowercase token.
#[derive(Clone, Copy, Debug, PartialEq, Eq, Structural)]
pub enum HashAlgorithm {
    Sha256,
}

/// An expected content digest for a referenced file. The hash text is
/// opaque here: it is carried, not validated.
#[derive(Clone, Debug, PartialEq, Eq)]
pub struct Fingerprint {
    pub algorithm: HashAlgorithm,
    pub hash: String,
}

pub struct FingerprintV {
    pub algorithm: HashAlgorithm,
    pub hash: Seq<char>,
}

impl DeepView for Fingerprint {
    type V = FingerprintV;

    open spec fn deep_view(&self) -> FingerprintV {
        FingerprintV { algorithm: self.algorithm, hash: self.hash@ }
    }
}

/// How a consumer finds a referenced file's bytes: either the next
/// `Size` bytes of the trailer region, or an existing relative path.
#[derive(Clone, Debug, PartialEq, Eq)]
pub enum Locator {
    Size(u64),
    Entry(String),
}

pub enum LocatorV {
    Size(u64),
    Entry(Seq<char>),
}

impl DeepView for Locator {
    type V = LocatorV;

    open spec fn deep_view(&self) -> LocatorV {
        match self {
            Locator::Size(n) => LocatorV::Size(*n),
            Locator::Entry(p) => LocatorV::Entry(p@),
        }
    }
}

/// Compression applied over a tar archive.
#[derive(Clone, Copy, Debug, PartialEq, Eq, Structural)]
pub enum Compression {
    Bzip2,
    Gzip,
    Lzma,
    Xz,
    Zlib,
    Zstd,
}

/// The kind of a packed archive. Its string form follows the GNU tar
/// extension tokens; see [`ArchiveType::as_ext`] and [`parse_ext_chars`].
#[derive(Clone, Copy, Debug, PartialEq, Eq, Structural)]
pub enum ArchiveType {
    Zip,
    Tar,
    CompressedTar(Compression),
}

/// The canonical extension token an archive type serializes to.
pub open spec fn ext_chars(t: ArchiveType) -> Seq<char> {
    match t {
        ArchiveType::Zip => "zip"@,
        ArchiveType::Tar => "tar"@,
        ArchiveType::CompressedTar(c) => match c {
            Compression::Bzip2 => "tar.bz2"@,
            Compression::Gzip => "tar.gz"@,
            Compression::Lzma => "tar.lzma"@,
            Compression::Xz => "tar.xz"@,
            Compression::Zlib => "tar.Z"@,
            Compression::Zstd => "tar.zst"@,
        },
    }
}

/// The archive type a token decodes to: each canonical token and the
/// short aliases `tbz2`, `tgz`, `tlz` and `tzst` are accepted; every
/// other string is rejected.
pub open spec fn parse_ext_chars(s: Seq<char>) -> Option<ArchiveType> {
    if s == "zip"@ {
        Some(ArchiveType::Zip)
    } else if s == "tar"@ {
        Some(ArchiveType::Tar)
    } else if s == "tbz2"@ || s == "tar.bz2"@ {
        Some(ArchiveType::CompressedTar(Compression::Bzip2))
    } else if s == "tgz"@ || s == "tar.gz"@ {
        Some(ArchiveType::CompressedTar(Compression::Gzip))
    } else if s == "tlz"@ || s == "tar.lzma"@ {
        Some(ArchiveType::CompressedTar(Compression::Lzma))
    } else if s == "tar.xz"@ {
        Some(ArchiveType::CompressedTar(Compression::Xz))
    } else if s == "tar.Z"@ {
        Some(ArchiveType::CompressedTar(Compression::Zlib))
    } else if s == "tzst"@ || s == "tar.zst"@ {
        Some(ArchiveType::CompressedTar(Compression::Zstd))
    } else {
        None
    }
}

impl ArchiveType {
    /// The canonical extension token: what this archive type serializes to.
    pub fn as_ext(&self) -> (r: &'static str)
        ensures
            r@ == ext_chars(*self),
    {
        match self {
            ArchiveType::Zip => "zip",
            ArchiveType::Tar => "tar",
            ArchiveType::CompressedTar(Compression::Bzip2) => "tar.bz2",
            ArchiveType::CompressedTar(Compression::Gzip) => "tar.gz",
            ArchiveType::CompressedTar(Compression::Lzma) => "tar.lzma",
            ArchiveType::CompressedTar(Compression::Xz) => "tar.xz",
            ArchiveType::CompressedTar(Compression::Zlib) => "tar.Z",
            ArchiveType::CompressedTar(Compression::Zstd) => "tar.zst",
        }
    }
}

/// The message an unknown archive type token is rejected with: it names
/// the token and enumerates every accepted one.
pub open spec fn invalid_ext_message(s: Seq<char>) -> Seq<char> {
    "unknown archive type \""@ + s
        + "\", expected one of: zip, tar, tbz2, tar.bz2, tgz, tar.gz, tlz, tar.lzma, tar.xz, tar.Z, tzst or tar.zst"@
}

impl ArchiveType {
    /// Decode an extension token; the short aliases are accepted too.
    pub fn from_ext(s: &str) -> (r: Result<ArchiveType, String>)
        ensures
            r is Ok <==> parse_ext_chars(s@) is Some,
            r is Ok ==> Some(r->Ok_0) == parse_ext_chars(s@),
            r is Err ==> r->Err_0@ == invalid_ext_message(s@),
    {
        if str_eq(s, "zip") {
            Ok(ArchiveType::Zip)
        } else if str_eq(s, "tar") {
            Ok(ArchiveType::Tar)
        } else if str_eq(s, "tbz2") || str_eq(s, "tar.bz2") {
            Ok(ArchiveType::CompressedTar(Compression::Bzip2))
        } else if str_eq(s, "tgz") || str_eq(s, "tar.gz") {
            Ok(ArchiveType::CompressedTar(Compression::Gzip))
        } else if str_eq(s, "tlz") || str_eq(s, "tar.lzma") {
            Ok(ArchiveType::CompressedTar(Compression::Lzma))
        } else if str_eq(s, "tar.xz") {
            Ok(ArchiveType::CompressedTar(Compression::Xz))
        } else if str_eq(s, "tar.Z") {
            Ok(ArchiveType::CompressedTar(Compression::Zlib))
        } else if str_eq(s, "tzst") || str_eq(s, "tar.zst") {
            Ok(ArchiveType::CompressedTar(Compression::Zstd))
        } else {
            let mut m = String::new();
            m.append("unknown archive type \"");
            m.append(s);
            m.append(
                "\", expected one of: zip, tar, tbz2, tar.bz2, tgz, tar.gz, tlz, tar.lzma, tar.xz, tar.Z, tzst or tar.zst",
            );
            proof {
                assert(m@ =~= invalid_ext_message(s@));
            }
            Err(m)
        }
    }
}

/// Decoding a canonical token gives back the archive type it came from:
/// the string form of every variant survives a round trip, and decoding
/// is stable across repeated serialize/deserialize cycles.
pub proof fn lemma_archive_type_round_trip(t: ArchiveType)
    ensures
        parse_ext_chars(ext_chars(t)) == Some(t),
{
    reveal_strlit("zip");
    reveal_strlit("tar");
    reveal_strlit("tbz2");
    reveal_strlit("tar.bz2");
    reveal_strlit("tgz");
    reveal_strlit("tar.gz");
    reveal_strlit("tlz");
    reveal_strlit("tar.lzma");
    reveal_strlit("tar.xz");
    reveal_strlit("tar.Z");
    reveal_strlit("tzst");
    reveal_strlit("tar.zst");
    assert("zip"@.len() == 3);
    assert("tar"@.len() == 3);
    assert("tbz2"@.len() == 4);
    assert("tar.bz2"@.len() == 7);
    assert("tgz"@.len() == 3);
    assert("tar.gz"@.len() == 6);
    assert("tlz"@.len() == 3);
    assert("tar.lzma"@.len() == 8);
    assert("tar.xz"@.len() == 6);
    assert("tar.Z"@.len() == 5);
    assert("tzst"@.len() == 4);
    assert("tar.zst"@.len() == 7);
    assert("zip"@[0] != "tar"@[0]);
    assert("tar.xz"@[4] != "tar.gz"@[4]);
    assert("tar.zst"@[4] != "tar.bz2"@[4]);
}

/// An accepted alias always decodes to a type whose canonical form
/// decodes back to the same type: `parse(serialize(parse(alias)))` is
/// the same as `parse(alias)`.
pub proof fn lemma_alias_parse_stable(s: Seq<char>)
    requires
        parse_ext_chars(s) is Some,
    ensures
        parse_ext_chars(ext_chars(parse_ext_chars(s)->Some_0)) == parse_ext_chars(s),
{
    lemma_archive_type_round_trip(parse_ext_chars(s)->Some_0);
}

/// Identity of the packaged application: schema version and the root
/// directory the consumer unpacks under.
#[derive(Clone, Debug, PartialEq, Eq)]
pub struct Scie {
    pub version: String,
    pub root: String,
}

pub struct ScieV {
    pub version: Seq<char>,
    pub root: Seq<char>,
}

impl DeepView for Scie {
    type V = ScieV;

    open spec fn deep_view(&self) -> ScieV {
        ScieV { version: self.version@, root: self.root@ }
    }
}

/// A referenced opaque file.
#[derive(Clone, Debug, PartialEq, Eq)]
pub struct Blob {
    pub locator: Locator,
    pub fingerprint: Fingerprint,
    pub name: String,
    pub always_extract: bool,
}

pub struct BlobV {
    pub locator: LocatorV,
    pub fingerprint: FingerprintV,
    pub name: Seq<char>,
    pub always_extract: bool,
}

impl DeepView for Blob {
    type V = BlobV;

    open spec fn deep_view(&self) -> BlobV {
        BlobV {
            locator: self.locator.deep_view(),
            fingerprint: self.fingerprint.deep_view(),
            name: self.name@,
            always_extract: self.always_extract,
        }
    }
}

/// A referenced packed directory.
#[derive(Clone, Debug, PartialEq, Eq)]
pub struct Archive {
    pub locator: Locator,
    pub fingerprint: Fingerprint,
    pub archive_type: ArchiveType,
    pub name: Option<String>,
    pub always_extract: bool,
}

pub struct ArchiveV {
    pub locator: LocatorV,
    pub fingerprint: FingerprintV,
    pub archive_type: ArchiveType,
    pub name: Option<Seq<char>>,
    pub always_extract: bool,
}

impl DeepView for Archive {
    type V = ArchiveV;

    open spec fn deep_view(&self) -> ArchiveV {
        ArchiveV {
            locator: self.locator.deep_view(),
            fingerprint: self.fingerprint.deep_view(),
            archive_type: self.archive_type,
            name: self.name.deep_view(),
            always_extract: self.always_extract,
        }
    }
}

/// A manifest file entry: a packed directory or an opaque blob.
#[derive(Clone, Debug, PartialEq, Eq)]
pub enum File {
    Archive(Archive),
    Blob(Blob),
}

pub enum FileV {
    Archive(ArchiveV),
    Blob(BlobV),
}

impl DeepView for File {
    type V = FileV;

    open spec fn deep_view(&self) -> FileV {
        match self {
            File::Archive(a) => FileV::Archive(a.deep_view()),
            File::Blob(b) => FileV::Blob(b.deep_view()),
        }
    }
}

/// A command the consumer can run, with its arguments, environment and
/// the extra files it needs. The environment and the argument list keep
/// their declared order.
#[derive(Clone, Debug, PartialEq, Eq)]
pub struct Cmd {
    pub exe: String,
    pub args: Vec<String>,
    pub env: Vec<(String, String)>,
    pub additional_files: Vec<String>,
}

pub struct CmdV {
    pub exe: Seq<char>,
    pub args: Seq<Seq<char>>,
    pub env: Seq<(Seq<char>, Seq<char>)>,
    pub additional_files: Seq<Seq<char>>,
}

impl DeepView for Cmd {
    type V = CmdV;

    open spec fn deep_view(&self) -> CmdV {
        CmdV {
            exe: self.exe@,
            args: self.args.deep_view(),
            env: self.env.deep_view(),
            additional_files: self.additional_files.deep_view(),
        }
    }
}

/// The root manifest appended after the archive. The order of `files`
/// is meaningful and survives a codec round trip.
#[derive(Clone, Debug, PartialEq, Eq)]
pub struct Config {
    pub scie: Scie,
    pub files: Vec<File>,
    pub command: Cmd,
    pub additional_commands: Vec<(String, Cmd)>,
}

pub struct ConfigV {
    pub scie: ScieV,
    pub files: Seq<FileV>,
    pub command: CmdV,
    pub additional_commands: Seq<(Seq<char>, CmdV)>,
}

impl DeepView for Config {
    type V = ConfigV;

    open spec fn deep_view(&self) -> ConfigV {
        ConfigV {
            scie: self.scie.deep_view(),
            files: self.files.deep_view(),
            command: self.command.deep_view(),
            additional_commands: self.additional_commands.deep_view(),
        }
    }
}

} // verus!
