//! Packaging of a directory tree into a self-contained executable payload:
//! a zip archive with a JSON manifest appended after it, a locator that finds
//! where the appended manifest begins, and the manifest's data model and codec.

pub mod codec;
pub mod config;
pub mod json;
pub mod pack;
pub mod strutil;
pub mod trailer;

pub use config::Archive;
pub use config::ArchiveType;
pub use config::Blob;
pub use config::Cmd;
pub use config::Compression;
pub use config::Config;
pub use config::File;
pub use config::Fingerprint;
pub use config::HashAlgorithm;
pub use config::Locator;
pub use config::Scie;
pub use trailer::end_of_zip;
pub use trailer::load;
