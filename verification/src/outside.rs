//! The calls into other crates.
//!
//! Every function here is a thin shell around one foreign operation.  Its
//! contract is taken on trust: it restates what the foreign source code
//! does, and the verifier takes it as given.  The spec functions without a
//! body give names to what the foreign operations return, so that the
//! contracts of the library can speak of it.

use vstd::prelude::*;

use std::io::Read;

use path_absolutize::Absolutize;

use crate::build_id::{hex_decoded, is_hex};
use crate::framing::package_framed;
use crate::package::{entry_views, FileEntry, FileEntryView};
use crate::payload::{ArchiveEntry, ArchiveEntryView, Compression, TRAILER_NAME};

verus! {

/// `hex::FromHexError`, which is passed on and never looked into.
#[verifier::external_type_specification]
#[verifier::external_body]
pub struct ExFromHexError(hex::FromHexError);

/// `hex::decode` on a string.
///
/// The call succeeds exactly on strings of an even number of hexadecimal
/// digits, upper or lower case; any other string, one with a character
/// outside ASCII included, is refused.  On success every pair of digits has
/// become one byte, the first digit being the high nibble.
#[verifier::external_body]
pub(crate) fn hex_decode(text: &str) -> (r: Result<Vec<u8>, hex::FromHexError>)
    ensures
        r is Ok <==> is_hex(text@),
        r matches Ok(bytes) ==> bytes@ == hex_decoded(text@),
{
    hex::decode(text)
}

/// A path is canonical when it starts at the root and no segment of it is
/// `.` or `..`.
pub open spec fn is_canonical(path: Seq<char>) -> bool {
    &&& path.len() > 0
    &&& path[0] == '/'
    &&& forall|i: int|
        0 <= i < path.len() && #[trigger] path[i] == '.' && (i == 0 || path[i - 1] == '/') ==> {
            &&& i + 1 < path.len()
            &&& path[i + 1] != '/'
            &&& !(path[i + 1] == '.' && (i + 2 == path.len() || path[i + 2] == '/'))
        }
}

/// What `absolutize` makes of an absolute path.
pub uninterp spec fn absolutized(path: Seq<char>) -> Seq<char>;

/// `path_absolutize::Absolutize::absolutize` on an absolute path.
///
/// For a path that starts at the root the call consults nothing but the
/// path, and does not fail: it drops empty and `.` segments, lets every
/// `..` remove the segment before it, and joins what is left below the
/// root.  What it joins are pieces of the path it was given, which is
/// text, so the result is text again.  The result is therefore there, and
/// canonical.
#[verifier::external_body]
pub(crate) fn absolutize(path: &str) -> (r: Option<String>)
    requires
        path@.len() > 0,
        path@[0] == '/',
    ensures
        match r {
            Some(resolved) => resolved@ == absolutized(path@) && is_canonical(resolved@),
            None => false,
        },
{
    let resolved = std::path::Path::new(path).absolutize().ok()?;
    resolved.to_str().map(|s| s.to_string())
}

/// `rpm::PackageMetadata`: the parsed lead and headers of a package.  The
/// library reads them through the functions below only.
#[verifier::external_type_specification]
#[verifier::external_body]
pub struct ExPackageMetadata(rpm::PackageMetadata);

/// `rpm::Error`, which is passed on and never looked into.
#[verifier::external_type_specification]
#[verifier::external_body]
pub struct ExRpmError(rpm::Error);

/// The lead and headers that a package file starts with, and the payload
/// bytes that follow them; `None` for bytes that are no package.
pub uninterp spec fn parsed_package(data: Seq<u8>) -> Option<(rpm::PackageMetadata, Seq<u8>)>;

/// `rpm::PackageMetadata::parse` on a byte slice.
///
/// The call reads the lead, the signature header and the main header from
/// the front of the slice and leaves the slice at the first byte after
/// them, which is where the payload starts.  It indexes the store of a
/// header at the offsets that the entries give, and reserves room for as
/// many items as they count, without holding either against the size of
/// the store: the bytes must be framed.
#[verifier::external_body]
pub(crate) fn parse_package<'a>(data: &'a [u8]) -> (r: Result<
    (rpm::PackageMetadata, &'a [u8]),
    rpm::Error,
>)
    requires
        package_framed(data@),
    ensures
        match r {
            Ok((meta, payload)) => parsed_package(data@) == Some((meta, payload@)),
            Err(_) => parsed_package(data@) is None,
        },
{
    let mut rest = data;
    let meta = rpm::PackageMetadata::parse(&mut rest)?;
    Ok((meta, rest))
}

/// The package name in a header, if it has one.
pub uninterp spec fn package_name(meta: rpm::PackageMetadata) -> Option<Seq<char>>;

/// `rpm::PackageMetadata::get_name`.
#[verifier::external_body]
pub(crate) fn get_name(meta: &rpm::PackageMetadata) -> (r: Result<String, rpm::Error>)
    ensures
        match r {
            Ok(name) => package_name(*meta) == Some(name@),
            Err(_) => package_name(*meta) is None,
        },
{
    meta.get_name().map(|s| s.to_string())
}

/// The source package that a header names, if it names one.
pub uninterp spec fn package_source_rpm(meta: rpm::PackageMetadata) -> Option<Seq<char>>;

/// `rpm::PackageMetadata::get_source_rpm`.
#[verifier::external_body]
pub(crate) fn get_source_rpm(meta: &rpm::PackageMetadata) -> (r: Result<String, rpm::Error>)
    ensures
        match r {
            Ok(source_rpm) => package_source_rpm(*meta) == Some(source_rpm@),
            Err(_) => package_source_rpm(*meta) is None,
        },
{
    meta.get_source_rpm().map(|s| s.to_string())
}

/// The architecture in a header, if it has one.
pub uninterp spec fn package_arch(meta: rpm::PackageMetadata) -> Option<Seq<char>>;

/// `rpm::PackageMetadata::get_arch`.
#[verifier::external_body]
pub(crate) fn get_arch(meta: &rpm::PackageMetadata) -> (r: Result<String, rpm::Error>)
    ensures
        match r {
            Ok(arch) => package_arch(*meta) == Some(arch@),
            Err(_) => package_arch(*meta) is None,
        },
{
    meta.get_arch().map(|s| s.to_string())
}

/// The files that a header lists, in its order; `None` where the file tags
/// of the header do not fit together.
pub uninterp spec fn package_files(meta: rpm::PackageMetadata) -> Option<Seq<FileEntryView>>;

/// `rpm::PackageMetadata::get_file_entries`, each entry reduced to its
/// path, its link target and whether its mode says symbolic link.
#[verifier::external_body]
pub(crate) fn get_file_entries(meta: &rpm::PackageMetadata) -> (r: Result<
    Vec<FileEntry>,
    rpm::Error,
>)
    ensures
        match r {
            Ok(entries) => package_files(*meta) == Some(entry_views(entries@)),
            Err(_) => package_files(*meta) is None,
        },
{
    let entries = meta.get_file_entries()?;
    Ok(
        entries.iter().map(
            |e|
                FileEntry {
                    path: e.path().to_string_lossy().into_owned(),
                    link_target: e.linkto().map(|t| t.to_string()),
                    symlink: matches!(e.file_type(), rpm::FileType::SymbolicLink),
                },
        ).collect(),
    )
}

/// How a header says its payload is compressed; `None` where it names a
/// scheme that the `rpm` crate does not know.
pub uninterp spec fn package_compressor(meta: rpm::PackageMetadata) -> Option<Compression>;

/// `rpm::PackageMetadata::get_payload_compressor`.
#[verifier::external_body]
pub(crate) fn get_payload_compressor(meta: &rpm::PackageMetadata) -> (r: Result<
    Compression,
    rpm::Error,
>)
    ensures
        match r {
            Ok(kind) => package_compressor(*meta) == Some(kind),
            Err(_) => package_compressor(*meta) is None,
        },
{
    Ok(
        match meta.get_payload_compressor()? {
            rpm::CompressionType::None => Compression::Uncompressed,
            rpm::CompressionType::Gzip => Compression::Gzip,
            rpm::CompressionType::Zstd => Compression::Zstd,
            rpm::CompressionType::Xz => Compression::Xz,
            rpm::CompressionType::Bzip2 => Compression::Bzip2,
        },
    )
}

/// What a zstd stream decodes to; `None` where no decoder could be set up
/// or the stream breaks before its end.
pub uninterp spec fn zstd_decoded(data: Seq<u8>) -> Option<Seq<u8>>;

/// `zstd::stream::Decoder::new` on a byte slice, read to its end.
#[verifier::external_body]
pub(crate) fn zstd_decode(data: &[u8]) -> (r: Option<Vec<u8>>)
    ensures
        match r {
            Some(out) => zstd_decoded(data@) == Some(out@),
            None => zstd_decoded(data@) is None,
        },
{
    let mut decoder = zstd::stream::Decoder::new(data).ok()?;
    let mut out = Vec::new();
    decoder.read_to_end(&mut out).ok()?;
    Some(out)
}

/// What a gzip stream decodes to; `None` where the stream breaks before
/// its end.
pub uninterp spec fn gzip_decoded(data: Seq<u8>) -> Option<Seq<u8>>;

/// `flate2::read::GzDecoder::new` on a byte slice, read to its end.
#[verifier::external_body]
pub(crate) fn gzip_decode(data: &[u8]) -> (r: Option<Vec<u8>>)
    ensures
        match r {
            Some(out) => gzip_decoded(data@) == Some(out@),
            None => gzip_decoded(data@) is None,
        },
{
    let mut out = Vec::new();
    flate2::read::GzDecoder::new(data).read_to_end(&mut out).ok()?;
    Some(out)
}

/// What a bzip2 stream decodes to; `None` where the stream breaks before
/// its end.
pub uninterp spec fn bzip2_decoded(data: Seq<u8>) -> Option<Seq<u8>>;

/// `bzip2::bufread::BzDecoder::new` on a byte slice, read to its end.
#[verifier::external_body]
pub(crate) fn bzip2_decode(data: &[u8]) -> (r: Option<Vec<u8>>)
    ensures
        match r {
            Some(out) => bzip2_decoded(data@) == Some(out@),
            None => bzip2_decoded(data@) is None,
        },
{
    let mut out = Vec::new();
    bzip2::bufread::BzDecoder::new(data).read_to_end(&mut out).ok()?;
    Some(out)
}

/// What an xz stream decodes to; `None` where the stream breaks before
/// its end.
pub uninterp spec fn xz_decoded(data: Seq<u8>) -> Option<Seq<u8>>;

/// `xz2::read::XzDecoder::new` on a byte slice, read to its end.
#[verifier::external_body]
pub(crate) fn xz_decode(data: &[u8]) -> (r: Option<Vec<u8>>)
    ensures
        match r {
            Some(out) => xz_decoded(data@) == Some(out@),
            None => xz_decoded(data@) is None,
        },
{
    let mut out = Vec::new();
    xz2::read::XzDecoder::new(data).read_to_end(&mut out).ok()?;
    Some(out)
}

/// The entry that a newc archive starts with; `None` where the bytes do
/// not start with a well-formed entry header and name.
pub uninterp spec fn archive_entry(archive: Seq<u8>) -> Option<ArchiveEntryView>;

/// `cpio::NewcReader::new` on a byte slice, with what the entry it read
/// says of itself.  An entry says that it is the trailer exactly if its
/// name is `TRAILER!!!`.
#[verifier::external_body]
pub(crate) fn read_archive_entry(archive: &[u8]) -> (r: Option<ArchiveEntry>)
    ensures
        match r {
            Some(entry) => archive_entry(archive@) == Some(entry@),
            None => archive_entry(archive@) is None,
        },
        r matches Some(entry) ==> entry.trailer == (entry.name@ == TRAILER_NAME@),
{
    let reader = cpio::NewcReader::new(archive).ok()?;
    let entry = reader.entry();
    Some(
        ArchiveEntry {
            name: entry.name().to_string(),
            file_size: entry.file_size(),
            trailer: entry.is_trailer(),
        },
    )
}

/// The bytes that a newc archive holds of the file content of its first
/// entry: all that the entry announces, or fewer where the archive ends
/// before them.  `None` where the archive does not start with an entry, or
/// the bytes cannot be read.
pub uninterp spec fn archive_content(archive: Seq<u8>) -> Option<Seq<u8>>;

/// `std::io::Read::read_to_end` on a `cpio::NewcReader` over a byte slice.
#[verifier::external_body]
pub(crate) fn read_archive_content(archive: &[u8]) -> (r: Option<Vec<u8>>)
    ensures
        match r {
            Some(content) => archive_content(archive@) == Some(content@),
            None => archive_content(archive@) is None,
        },
{
    let mut reader = cpio::NewcReader::new(archive).ok()?;
    let mut content = Vec::new();
    reader.read_to_end(&mut content).ok()?;
    Some(content)
}

/// What follows the first entry of a newc archive; `None` where the archive
/// ends before the entry does.
pub uninterp spec fn archive_rest(archive: Seq<u8>) -> Option<Seq<u8>>;

/// `cpio::NewcReader::finish` on a reader over a byte slice.
///
/// A reader exists only once the 110 bytes of an entry header have been
/// taken from the slice, so what is handed back is shorter than what was
/// handed in.
#[verifier::external_body]
pub(crate) fn skip_archive_entry<'a>(archive: &'a [u8]) -> (r: Option<&'a [u8]>)
    ensures
        match r {
            Some(rest) => archive_rest(archive@) == Some(rest@) && rest@.len() < archive@.len(),
            None => archive_rest(archive@) is None,
        },
{
    cpio::NewcReader::new(archive).ok()?.finish().ok()
}

/// `elf::section::SectionHeader`, with its fields: the ten numbers of a
/// section header.
#[verifier::external_type_specification]
pub struct ExSectionHeader(elf::section::SectionHeader);

/// The header of the section called `name` in an ELF image; `None` where
/// the image cannot be parsed or has no section of that name.
pub uninterp spec fn elf_section_header(image: Seq<u8>, name: Seq<char>) -> Option<
    elf::section::SectionHeader,
>;

/// `elf::ElfBytes::section_header_by_name` on an image parsed with
/// `elf::ElfBytes::minimal_parse`, in the byte order that the image
/// declares.
#[verifier::external_body]
pub(crate) fn find_section_header(image: &[u8], name: &str) -> (r: Option<
    elf::section::SectionHeader,
>)
    ensures
        r == elf_section_header(image@, name@),
{
    let file = elf::ElfBytes::<elf::endian::AnyEndian>::minimal_parse(image).ok()?;
    file.section_header_by_name(name).ok()?
}

/// The bytes that an ELF image holds for the section that `header`
/// describes; `None` where the image cannot be parsed or the section does
/// not lie within it.
pub uninterp spec fn elf_section_data(image: Seq<u8>, header: elf::section::SectionHeader) -> Option<
    Seq<u8>,
>;

/// The bytes of an image from `sh_offset` on, `sh_size` of them.
pub open spec fn file_range(image: Seq<u8>, header: elf::section::SectionHeader) -> Seq<u8> {
    image.subrange(header.sh_offset as int, header.sh_offset + header.sh_size)
}

/// The section is one that takes up bytes in the file, and holds them as
/// they are: its type is not 8 (`SHT_NOBITS`) and its flags lack the bit
/// 0x800 (`SHF_COMPRESSED`).
pub open spec fn is_stored(header: elf::section::SectionHeader) -> bool {
    header.sh_type != 8 && header.sh_flags & 0x800 == 0
}

/// `elf::ElfBytes::section_data` on an image parsed with
/// `elf::ElfBytes::minimal_parse`; of the pair that it returns, the bytes.
///
/// For a section that is stored as it is, the call hands out the range of
/// the image that the header names, and nothing where that range runs
/// over the end of the image.  It does hand the range out where it lies
/// within an image that parses; an image in which a section was found by
/// name is one that parses.
#[verifier::external_body]
pub(crate) fn read_section_data(image: &[u8], header: &elf::section::SectionHeader) -> (r: Option<
    Vec<u8>,
>)
    ensures
        match r {
            Some(bytes) => elf_section_data(image@, *header) == Some(bytes@),
            None => elf_section_data(image@, *header) is None,
        },
        r matches Some(bytes) ==> (is_stored(*header) ==> header.sh_offset + header.sh_size
            <= image@.len() && bytes@ == file_range(image@, *header)),
        is_stored(*header) && header.sh_offset + header.sh_size <= image@.len() && (exists|
            name: Seq<char>,
        | #[trigger] elf_section_header(image@, name) is Some) ==> r is Some,
{
    let file = elf::ElfBytes::<elf::endian::AnyEndian>::minimal_parse(image).ok()?;
    file.section_data(header).ok().map(|data| data.0.to_vec())
}

} // verus!
