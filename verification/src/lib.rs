//! Index of GNU build-ids over a tree of RPM packages.
//!
//! The library analyses RPM package files, correlates every `-debuginfo`
//! package with its binary and `-debugsource` siblings, and answers look-ups
//! by build-id: the debug file, the executable, a section of either, or a
//! source file.  Package files are handed in as byte slices; the library
//! itself never touches the file system.

pub mod analyze;
pub mod build_id;
pub mod dwz;
pub mod framing;
pub mod index;
pub mod lookup;
pub mod outside;
pub mod package;
pub mod paths;
pub mod payload;
pub mod records;
pub mod scan;
pub mod section;
pub mod server;
pub mod siblings;
pub mod text;

pub use analyze::AnalyzeError;
pub use build_id::{BuildId, BuildIdError, BUILD_CHARS};
pub use package::{AnalyzeFailure, FileEntry, RPMFile, RPMKind, DEBUG_INFO_PATH};
pub use paths::{BuildIdPaths, PathEntry};
pub use payload::{Compression, PayloadError};
pub use records::{DebugInfoRPM, IndexWarning};
pub use server::Server;
