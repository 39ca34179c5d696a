//! Reading one file out of the payload of a package.
//!
//! The payload is an archive of the files of the package, compressed as
//! the header says.  It is decoded as a whole, and the archive is then
//! gone through entry by entry.

use vstd::prelude::*;
use vstd::string::StringExecFns;

use crate::framing::{open_package, package_of};
use crate::outside::{
    archive_content, archive_entry, archive_rest, bzip2_decode, bzip2_decoded,
    get_payload_compressor, gzip_decode, gzip_decoded, package_compressor, read_archive_content,
    read_archive_entry, skip_archive_entry, xz_decode, xz_decoded, zstd_decode, zstd_decoded,
};
use crate::server::Server;
use crate::text::str_eq;

verus! {

/// How the payload of a package is compressed.
#[derive(Debug, Clone, Copy, PartialEq, Eq)]
pub enum Compression {
    Uncompressed,
    Gzip,
    Zstd,
    Xz,
    Bzip2,
}

/// Why no file came out of a payload.
#[derive(Debug, Clone, Copy, PartialEq, Eq)]
pub enum PayloadError {
    /// The lead or a header of the package is malformed.
    Header,
    /// The header names a compression that is not supported.
    Compression,
    /// The payload cannot be decoded: no decoder could be set up for it,
    /// or its stream breaks before its end.
    Decoder,
    /// The archive in the payload is malformed, or ends too early.
    Archive,
    /// The archive has no entry that was asked for.
    NotFound,
}

/// The name of the entry that closes an archive.
pub const TRAILER_NAME: &'static str = "TRAILER!!!";

/// The head of one archive entry.
#[derive(Debug, Clone, PartialEq, Eq)]
pub struct ArchiveEntry {
    /// The name, as the archive spells it.
    pub name: String,
    /// The length of the file content.
    pub file_size: u32,
    /// Whether this is the entry that closes the archive.
    pub trailer: bool,
}

/// The mathematical value of a `ArchiveEntry`.
pub struct ArchiveEntryView {
    pub name: Seq<char>,
    pub file_size: u32,
    pub trailer: bool,
}

impl View for ArchiveEntry {
    type V = ArchiveEntryView;

    open spec fn view(&self) -> ArchiveEntryView {
        ArchiveEntryView { name: self.name@, file_size: self.file_size, trailer: self.trailer }
    }
}

/// The payload path that an archive name stands for: package payloads
/// spell their names with a leading `.`, which is dropped, once.
pub open spec fn entry_path(name: Seq<char>) -> Seq<char> {
    if name.len() > 0 && name[0] == '.' {
        name.subrange(1, name.len() as int)
    } else {
        name
    }
}

/// The selector `f` decides as the predicate `wanted` does.
pub open spec fn selects<F: Fn(&str) -> bool>(f: F, wanted: spec_fn(Seq<char>) -> bool) -> bool {
    forall|name: &str, chosen: bool| call_ensures(f, (name,), chosen) ==> chosen == wanted(name@)
}

/// The first entry of an archive whose path is wanted and whose content is
/// not empty: its path and its content.
///
/// Entries are taken in order up to the trailer, which is the entry named
/// `TRAILER!!!`.  An entry that cannot be read, or cannot be passed over,
/// ends the search with `Archive`, and so does the entry that is looked
/// for where the archive holds fewer bytes of it than it announces: a
/// file comes whole or not at all.  The trailer ends the search with
/// `NotFound`.
pub open spec fn found_in_archive(archive: Seq<u8>, wanted: spec_fn(Seq<char>) -> bool) -> Result<
    (Seq<char>, Seq<u8>),
    PayloadError,
>
    decreases archive.len(),
{
    match archive_entry(archive) {
        None => Err(PayloadError::Archive),
        Some(entry) => {
            if entry.name == TRAILER_NAME@ {
                Err(PayloadError::NotFound)
            } else if wanted(entry_path(entry.name)) && entry.file_size > 0 {
                match archive_content(archive) {
                    Some(content) => if content.len() == entry.file_size {
                        Ok((entry_path(entry.name), content))
                    } else {
                        Err(PayloadError::Archive)
                    },
                    None => Err(PayloadError::Archive),
                }
            } else {
                match archive_rest(archive) {
                    Some(rest) => if rest.len() < archive.len() {
                        found_in_archive(rest, wanted)
                    } else {
                        Err(PayloadError::Archive)
                    },
                    None => Err(PayloadError::Archive),
                }
            }
        },
    }
}

/// What a search finds is wanted and is not empty.
pub proof fn lemma_found_is_wanted(archive: Seq<u8>, wanted: spec_fn(Seq<char>) -> bool)
    ensures
        found_in_archive(archive, wanted) matches Ok((path, content)) ==> wanted(path)
            && content.len() > 0,
    decreases archive.len(),
{
    match archive_entry(archive) {
        Some(entry) => {
            if entry.name != TRAILER_NAME@ && !(wanted(entry_path(entry.name)) && entry.file_size
                > 0) {
                match archive_rest(archive) {
                    Some(rest) => {
                        if rest.len() < archive.len() {
                            lemma_found_is_wanted(rest, wanted);
                        }
                    },
                    None => {},
                }
            }
        },
        None => {},
    }
}

/// What a search in a package finds is wanted and is not empty.
pub proof fn lemma_found_in_package_is_wanted(rpm: Seq<u8>, wanted: spec_fn(Seq<char>) -> bool)
    ensures
        found_in_package(rpm, wanted) matches Ok((path, content)) ==> wanted(path)
            && content.len() > 0,
{
    match package_of(rpm) {
        Some((meta, payload)) => match package_compressor(meta) {
            Some(kind) => match decoded(kind, payload) {
                Some(archive) => lemma_found_is_wanted(archive, wanted),
                None => {},
            },
            None => {},
        },
        None => {},
    }
}

/// The archive in a payload that is compressed as `kind` says; `None`
/// where the payload cannot be decoded to its end.
pub open spec fn decoded(kind: Compression, payload: Seq<u8>) -> Option<Seq<u8>> {
    match kind {
        Compression::Uncompressed => Some(payload),
        Compression::Gzip => gzip_decoded(payload),
        Compression::Zstd => zstd_decoded(payload),
        Compression::Xz => xz_decoded(payload),
        Compression::Bzip2 => bzip2_decoded(payload),
    }
}

/// The same search in a payload that is compressed as `kind` says.  A
/// payload that cannot be decoded to its end gives `Decoder`, wherever in
/// it the entry may lie.
pub open spec fn found_in_payload(
    kind: Compression,
    payload: Seq<u8>,
    wanted: spec_fn(Seq<char>) -> bool,
) -> Result<(Seq<char>, Seq<u8>), PayloadError> {
    match decoded(kind, payload) {
        Some(archive) => found_in_archive(archive, wanted),
        None => Err(PayloadError::Decoder),
    }
}

/// The same search in a whole package file.
pub open spec fn found_in_package(rpm: Seq<u8>, wanted: spec_fn(Seq<char>) -> bool) -> Result<
    (Seq<char>, Seq<u8>),
    PayloadError,
> {
    match package_of(rpm) {
        None => Err(PayloadError::Header),
        Some((meta, payload)) => match package_compressor(meta) {
            None => Err(PayloadError::Compression),
            Some(kind) => found_in_payload(kind, payload, wanted),
        },
    }
}

/// What a search has come to, set beside what it should come to.
pub open spec fn is_outcome(
    r: Result<(Vec<u8>, String), PayloadError>,
    expected: Result<(Seq<char>, Seq<u8>), PayloadError>,
) -> bool {
    match r {
        Ok((content, path)) => expected == Ok::<(Seq<char>, Seq<u8>), PayloadError>(
            (path@, content@),
        ),
        Err(e) => expected == Err::<(Seq<char>, Seq<u8>), PayloadError>(e),
    }
}

/// Searches an archive for the first entry that `file_selector` accepts and
/// that has content.  Returns the content, whole, and the path of the
/// entry.
pub fn find_in_archive<F: Fn(&str) -> bool>(archive: &[u8], file_selector: F) -> (r: Result<
    (Vec<u8>, String),
    PayloadError,
>)
    requires
        forall|name: &str| call_requires(file_selector, (name,)),
    ensures
        forall|wanted: spec_fn(Seq<char>) -> bool| #[trigger]
            selects(file_selector, wanted) ==> is_outcome(r, found_in_archive(archive@, wanted)),
{
    let mut rest: &[u8] = archive;
    loop
        invariant
            forall|name: &str| call_requires(file_selector, (name,)),
            forall|wanted: spec_fn(Seq<char>) -> bool| #[trigger]
                selects(file_selector, wanted) ==> found_in_archive(archive@, wanted)
                    == found_in_archive(rest@, wanted),
        decreases rest@.len(),
    {
        let entry = match read_archive_entry(rest) {
            Some(entry) => entry,
            None => {
                return Err(PayloadError::Archive);
            },
        };
        if entry.trailer {
            return Err(PayloadError::NotFound);
        }
        let name = entry.name.as_str();
        let n = name.unicode_len();
        let path = if n > 0 && name.get_char(0) == '.' {
            name.substring_char(1, n)
        } else {
            name
        };
        assert(path@ == entry_path(entry@.name));
        if file_selector(path) && entry.file_size > 0 {
            return match read_archive_content(rest) {
                Some(content) => {
                    if content.len() == entry.file_size as usize {
                        Ok((content, String::from_str(path)))
                    } else {
                        Err(PayloadError::Archive)
                    }
                },
                None => Err(PayloadError::Archive),
            };
        }
        match skip_archive_entry(rest) {
            Some(next) => {
                rest = next;
            },
            None => {
                return Err(PayloadError::Archive);
            },
        }
    }
}

/// Searches a payload that is compressed as `kind` says.
pub fn find_in_payload<F: Fn(&str) -> bool>(
    kind: Compression,
    payload: &[u8],
    file_selector: F,
) -> (r: Result<(Vec<u8>, String), PayloadError>)
    requires
        forall|name: &str| call_requires(file_selector, (name,)),
    ensures
        forall|wanted: spec_fn(Seq<char>) -> bool| #[trigger]
            selects(file_selector, wanted) ==> is_outcome(
                r,
                found_in_payload(kind, payload@, wanted),
            ),
{
    let archive = match kind {
        Compression::Uncompressed => {
            return find_in_archive(payload, file_selector);
        },
        Compression::Gzip => gzip_decode(payload),
        Compression::Zstd => zstd_decode(payload),
        Compression::Xz => xz_decode(payload),
        Compression::Bzip2 => bzip2_decode(payload),
    };
    match archive {
        Some(archive) => find_in_archive(archive.as_slice(), file_selector),
        None => Err(PayloadError::Decoder),
    }
}

/// The predicate that holds of `file` and of no other path.
pub open spec fn exactly(file: Seq<char>) -> spec_fn(Seq<char>) -> bool {
    |path: Seq<char>| path == file
}

/// The content that a package holds under the path `file`.
pub open spec fn file_in_package(rpm: Seq<u8>, file: Seq<char>) -> Option<Seq<u8>> {
    match found_in_package(rpm, exactly(file)) {
        Ok((_, content)) => Some(content),
        Err(_) => None,
    }
}

impl Server {
    /// Searches the payload of the package `rpm` for the first entry that
    /// `file_selector` accepts and that has content.  Returns the content,
    /// whole, and the path of the entry.
    pub fn get_rpm_file_stream<F: Fn(&str) -> bool>(&self, rpm: &[u8], file_selector: F) -> (r:
        Result<(Vec<u8>, String), PayloadError>)
        requires
            forall|name: &str| call_requires(file_selector, (name,)),
        ensures
            forall|wanted: spec_fn(Seq<char>) -> bool| #[trigger]
                selects(file_selector, wanted) ==> is_outcome(r, found_in_package(rpm@, wanted)),
    {
        let (meta, payload) = match open_package(rpm) {
            Some(parsed) => parsed,
            None => {
                return Err(PayloadError::Header);
            },
        };
        match get_payload_compressor(&meta) {
            Ok(kind) => find_in_payload(kind, payload, file_selector),
            Err(_) => Err(PayloadError::Compression),
        }
    }

    /// Reads the file at the payload path `file` out of the package `rpm`.
    /// `None` where the package cannot be read, or holds no such file with
    /// content, or does not hold all of it.
    pub fn read_rpm_file(&self, rpm: &[u8], file: &str) -> (r: Option<Vec<u8>>)
        ensures
            match r {
                Some(content) => file_in_package(rpm@, file@) == Some(content@),
                None => file_in_package(rpm@, file@) is None,
            },
    {
        let selector = |path: &str| -> (chosen: bool)
            ensures
                chosen == (path@ == file@),
            { str_eq(path, file) };
        assert(selects(selector, exactly(file@)));
        match self.get_rpm_file_stream(rpm, selector) {
            Ok((content, _)) => Some(content),
            Err(_) => None,
        }
    }
}

} // verus!
