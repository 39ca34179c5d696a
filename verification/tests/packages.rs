use std::collections::HashMap;
use std::io::Write;

use debuginfod_rs::framing::is_framed;
use debuginfod_rs::payload::{find_in_archive, find_in_payload};
use debuginfod_rs::section::read_section;
use debuginfod_rs::{
    AnalyzeFailure, BuildId, Compression, PayloadError, RPMFile, RPMKind, Server,
};
use rpm::{Header, HeaderEntry, IndexData, IndexTag, PackageMetadata};

const NAME: u32 = 1000;
const ARCH: u32 = 1022;
const FILESIZES: u32 = 1028;
const FILEMODES: u32 = 1030;
const FILERDEVS: u32 = 1033;
const FILEMTIMES: u32 = 1034;
const FILEDIGESTS: u32 = 1035;
const FILELINKTOS: u32 = 1036;
const FILEFLAGS: u32 = 1037;
const FILEUSERNAME: u32 = 1039;
const FILEGROUPNAME: u32 = 1040;
const SOURCERPM: u32 = 1044;
const DIRINDEXES: u32 = 1116;
const BASENAMES: u32 = 1117;
const DIRNAMES: u32 = 1118;
const PAYLOADCOMPRESSOR: u32 = 1125;

const REGULAR: u16 = 0o100644;
const SYMLINK: u16 = 0o120777;

const SOURCE: &str = "hello-1.0-1.src.rpm";
const DEBUG_FILE: &str = "/usr/lib/debug/usr/bin/hello.debug";
const MARK: [u8; 8] = [0x03, 0x00, 0x00, 0x00, 0x47, 0x4e, 0x55, 0x00];

/// One file of a header: directory, base name, mode and link target.
type Listed<'a> = (&'a str, &'a str, u16, &'a str);

fn sample() -> BuildId {
    [
        0xab, 0xcd, 0xef, 0x01, 0x23, 0x45, 0x67, 0x89, 0xab, 0xcd, 0xef, 0x01, 0x23, 0x45, 0x67,
        0x89, 0xab, 0xcd, 0xef, 0x00,
    ]
}

fn dwz_id() -> BuildId {
    let mut id = [0u8; 20];
    for (i, byte) in id.iter_mut().enumerate() {
        *byte = 0x11u8.wrapping_mul(i as u8 + 1);
    }
    id
}

fn text(tag: u32, value: &str) -> HeaderEntry {
    HeaderEntry::new(tag, IndexData::StringTag(value.to_string()))
}

fn texts(tag: u32, values: Vec<String>) -> HeaderEntry {
    HeaderEntry::new(tag, IndexData::StringArray(values))
}

fn file_tags(files: &[Listed]) -> Vec<HeaderEntry> {
    if files.is_empty() {
        return Vec::new();
    }
    let mut dirs: Vec<String> = Vec::new();
    let mut indexes = Vec::new();
    for (dir, _, _, _) in files {
        let at = match dirs.iter().position(|d| d == dir) {
            Some(at) => at,
            None => {
                dirs.push(dir.to_string());
                dirs.len() - 1
            }
        };
        indexes.push(at as u32);
    }
    let n = files.len();
    vec![
        texts(BASENAMES, files.iter().map(|f| f.1.to_string()).collect()),
        texts(DIRNAMES, dirs),
        HeaderEntry::new(DIRINDEXES, IndexData::Int32(indexes)),
        HeaderEntry::new(FILEMODES, IndexData::Int16(files.iter().map(|f| f.2).collect())),
        texts(FILEUSERNAME, vec!["root".to_string(); n]),
        texts(FILEGROUPNAME, vec!["root".to_string(); n]),
        texts(FILEDIGESTS, vec![String::new(); n]),
        HeaderEntry::new(FILEMTIMES, IndexData::Int32(vec![0; n])),
        HeaderEntry::new(FILESIZES, IndexData::Int32(vec![1; n])),
        HeaderEntry::new(FILEFLAGS, IndexData::Int32(vec![0; n])),
        texts(FILELINKTOS, files.iter().map(|f| f.3.to_string()).collect()),
        HeaderEntry::new(FILERDEVS, IndexData::Int16(vec![0; n])),
    ]
}

fn lead() -> Vec<u8> {
    let mut bytes = vec![0xed, 0xab, 0xee, 0xdb, 3, 0, 0, 0, 0, 0];
    bytes.resize(76, 0);
    bytes.extend([0, 1, 0, 5]);
    bytes.resize(96, 0);
    bytes
}

fn empty_section() -> Vec<u8> {
    vec![0x8e, 0xad, 0xe8, 0x01, 0, 0, 0, 0, 0, 0, 0, 0, 0, 0, 0, 0]
}

/// The lead and the headers of a package with the given main header tags.
fn headers(tags: Vec<HeaderEntry>) -> Vec<u8> {
    let mut skeleton = lead();
    skeleton.extend(empty_section());
    skeleton.extend(empty_section());
    let mut meta = PackageMetadata::parse(&mut &skeleton[..]).unwrap();
    meta.header = Header::from_entries(tags, IndexTag::RPMTAG_HEADERIMMUTABLE);
    let mut out = Vec::new();
    meta.write(&mut out).unwrap();
    out
}

fn tags(name: &str, compressor: Option<&str>, files: &[Listed]) -> Vec<HeaderEntry> {
    let mut tags = vec![text(NAME, name), text(SOURCERPM, SOURCE), text(ARCH, "x86_64")];
    if let Some(compressor) = compressor {
        tags.push(text(PAYLOADCOMPRESSOR, compressor));
    }
    tags.extend(file_tags(files));
    tags
}

fn archive(files: &[(&str, &[u8])]) -> Vec<u8> {
    let mut out = Vec::new();
    for (name, content) in files {
        let builder = cpio::NewcBuilder::new(name).mode(0o100644);
        let mut writer = builder.write(&mut out, content.len() as u32);
        writer.write_all(content).unwrap();
        writer.finish().unwrap();
    }
    cpio::newc::trailer(&mut out).unwrap();
    out
}

fn compressed(kind: Compression, data: &[u8]) -> Vec<u8> {
    match kind {
        Compression::Uncompressed => data.to_vec(),
        Compression::Gzip => {
            let mut encoder =
                flate2::write::GzEncoder::new(Vec::new(), flate2::Compression::default());
            encoder.write_all(data).unwrap();
            encoder.finish().unwrap()
        }
        Compression::Zstd => zstd::stream::encode_all(data, 3).unwrap(),
        Compression::Xz => {
            let mut encoder = xz2::write::XzEncoder::new(Vec::new(), 6);
            encoder.write_all(data).unwrap();
            encoder.finish().unwrap()
        }
        Compression::Bzip2 => {
            let mut encoder =
                bzip2::write::BzEncoder::new(Vec::new(), bzip2::Compression::default());
            encoder.write_all(data).unwrap();
            encoder.finish().unwrap()
        }
    }
}

fn compressor_name(kind: Compression) -> Option<&'static str> {
    match kind {
        Compression::Uncompressed => None,
        Compression::Gzip => Some("gzip"),
        Compression::Zstd => Some("zstd"),
        Compression::Xz => Some("xz"),
        Compression::Bzip2 => Some("bzip2"),
    }
}

fn package(name: &str, kind: Compression, listed: &[Listed], files: &[(&str, &[u8])]) -> Vec<u8> {
    let mut bytes = headers(tags(name, compressor_name(kind), listed));
    bytes.extend(compressed(kind, &archive(files)));
    bytes
}

fn debug_content() -> Vec<u8> {
    (0..4096u32).map(|i| (i % 251) as u8).collect()
}

fn binary_content() -> Vec<u8> {
    (0..2048u32).map(|i| (i % 241) as u8).collect()
}

fn build_id_link() -> Listed<'static> {
    (
        "/usr/lib/debug/.build-id/ab/",
        "cdef0123456789abcdef0123456789abcdef00.debug",
        SYMLINK,
        "../../usr/bin/hello.debug",
    )
}

fn debuginfo_package(kind: Compression, content: &[u8]) -> Vec<u8> {
    package(
        "hello-debuginfo",
        kind,
        &[build_id_link(), ("/usr/lib/debug/usr/bin/", "hello.debug", REGULAR, "")],
        &[
            ("./usr/lib/debug/.build-id/ab/cdef0123456789abcdef0123456789abcdef00.debug", b""),
            ("./usr/lib/debug/usr/bin/hello.debug", content),
        ],
    )
}

fn binary_package(content: &[u8]) -> Vec<u8> {
    package(
        "hello",
        Compression::Zstd,
        &[("/usr/bin/", "hello", 0o100755, "")],
        &[("./usr/bin/hello", content)],
    )
}

fn source_package() -> Vec<u8> {
    package(
        "hello-debugsource",
        Compression::Gzip,
        &[("/usr/src/debug/hello-1.0/", "main.c", REGULAR, "")],
        &[("./usr/src/debug/hello-1.0/main.c", b"int main(void) { return 0; }\n")],
    )
}

fn dwz_image() -> Vec<u8> {
    let mut image = vec![0x7fu8, b'E', b'L', b'F'];
    image.resize(90, 0xee);
    image.extend(MARK);
    image.extend(dwz_id());
    image.resize(600, 0xdd);
    image
}

fn dwz_package() -> Vec<u8> {
    package(
        "libfoo-debuginfo",
        Compression::Xz,
        &[("/usr/lib/debug/.dwz/", "libfoo-1.2.3.x86_64", REGULAR, "")],
        &[("./usr/lib/debug/.dwz/libfoo-1.2.3.x86_64", &dwz_image())],
    )
}

fn server() -> Server {
    Server::new("/srv/rpms")
}

fn build_ids(package: &RPMFile) -> Vec<(BuildId, String)> {
    match &package.kind {
        RPMKind::DebugInfo { build_ids } => (0..build_ids.len())
            .map(|i| (*build_ids.id_at(i), build_ids.path_at(i).to_string()))
            .collect(),
        other => panic!("{other:?}"),
    }
}

fn section_header(name: u32, kind: u32, offset: usize, size: usize) -> Vec<u8> {
    let mut header = Vec::new();
    header.extend(name.to_le_bytes());
    header.extend(kind.to_le_bytes());
    header.extend(0u64.to_le_bytes());
    header.extend(0u64.to_le_bytes());
    header.extend((offset as u64).to_le_bytes());
    header.extend((size as u64).to_le_bytes());
    header.extend(0u32.to_le_bytes());
    header.extend(0u32.to_le_bytes());
    header.extend(1u64.to_le_bytes());
    header.extend(0u64.to_le_bytes());
    header
}

/// A 64-bit little-endian ELF image with the given sections: name, type and
/// bytes.  A section of type 8 takes up no bytes in the file.
fn elf(sections: &[(&str, u32, &[u8])]) -> Vec<u8> {
    let mut names = vec![0u8];
    let mut out = vec![0u8; 64];
    let mut table = vec![0u8; 64];
    for (name, kind, data) in sections {
        let name_at = names.len() as u32;
        names.extend(name.as_bytes());
        names.push(0);
        table.extend(section_header(name_at, *kind, out.len(), data.len()));
        if *kind != 8 {
            out.extend(*data);
        }
    }
    let name_at = names.len() as u32;
    names.extend(b".shstrtab\0");
    table.extend(section_header(name_at, 3, out.len(), names.len()));
    out.extend(&names);
    while out.len() % 8 != 0 {
        out.push(0);
    }
    let table_at = out.len() as u64;
    out.extend(&table);
    let count = sections.len() as u16 + 2;
    out[..8].copy_from_slice(&[0x7f, b'E', b'L', b'F', 2, 1, 1, 0]);
    out[16..18].copy_from_slice(&2u16.to_le_bytes());
    out[18..20].copy_from_slice(&62u16.to_le_bytes());
    out[20..24].copy_from_slice(&1u32.to_le_bytes());
    out[40..48].copy_from_slice(&table_at.to_le_bytes());
    out[52..54].copy_from_slice(&64u16.to_le_bytes());
    out[54..56].copy_from_slice(&56u16.to_le_bytes());
    out[58..60].copy_from_slice(&64u16.to_le_bytes());
    out[60..62].copy_from_slice(&count.to_le_bytes());
    out[62..64].copy_from_slice(&(count - 1).to_le_bytes());
    out
}

fn debug_elf() -> Vec<u8> {
    elf(&[(".debug_info", 1, b"dwarf of hello"), (".text", 8, &[0u8; 32])])
}

fn binary_elf() -> Vec<u8> {
    elf(&[(".text", 1, b"\x55\x48\x89\xe5\xc3"), (".bss", 8, &[0u8; 16])])
}

fn tree(files: Vec<(&str, Vec<u8>)>) -> HashMap<String, Vec<u8>> {
    files.into_iter().map(|(path, bytes)| (path.to_string(), bytes)).collect()
}

fn hello_tree(debug: Vec<u8>, binary: Vec<u8>) -> (Server, HashMap<String, Vec<u8>>) {
    let files = tree(vec![
        ("/srv/rpms/hello-1.0-1.x86_64.rpm", binary_package(&binary)),
        ("/srv/rpms/hello-debuginfo-1.0-1.x86_64.rpm", debuginfo_package(Compression::Zstd, &debug)),
        ("/srv/rpms/hello-debugsource-1.0-1.x86_64.rpm", source_package()),
    ]);
    let mut server = server();
    let mut paths: Vec<&String> = files.keys().collect();
    paths.sort();
    let mut rpms = Vec::new();
    let mut total = 0;
    for path in paths {
        total += files[path].len() as u64;
        rpms.push(server.analyze_file(path, &files[path]).unwrap());
    }
    assert!(server.walk(total, &rpms).is_empty());
    assert_eq!(server.total_byte_size(), total);
    (server, files)
}

#[test]
fn analyses_a_debuginfo_package() {
    let rpm = debuginfo_package(Compression::Zstd, &debug_content());
    let package = server().analyze_file("/srv/rpms/hello-debuginfo-1.0-1.x86_64.rpm", &rpm).unwrap();
    assert_eq!(package.name, "hello");
    assert_eq!(package.arch, "x86_64");
    assert_eq!(package.source_rpm, SOURCE);
    assert_eq!(package.path, "/srv/rpms/hello-debuginfo-1.0-1.x86_64.rpm");
    assert_eq!(build_ids(&package), vec![(sample(), DEBUG_FILE.to_string())]);
}

#[test]
fn analyses_binary_and_source_packages() {
    let package = server().analyze_file("/srv/b.rpm", &binary_package(b"x")).unwrap();
    assert_eq!(package.name, "hello");
    assert_eq!(package.kind, RPMKind::Binary);
    let package = server().analyze_file("/srv/s.rpm", &source_package()).unwrap();
    assert_eq!(package.name, "hello-debugsource");
    assert_eq!(package.kind, RPMKind::DebugSource);
    assert_eq!(package.path, "/srv/s.rpm");
}

#[test]
fn build_id_links_of_other_packages_are_not_looked_at() {
    let rpm = package("hello", Compression::Uncompressed, &[build_id_link()], &[]);
    assert_eq!(server().analyze_file("/srv/b.rpm", &rpm).unwrap().kind, RPMKind::Binary);
}

#[test]
fn analysing_twice_gives_the_same() {
    for rpm in [debuginfo_package(Compression::Gzip, &debug_content()), dwz_package(), source_package()] {
        let first = server().analyze_file("/srv/p.rpm", &rpm);
        let second = server().analyze_file("/srv/p.rpm", &rpm);
        assert!(first.is_ok());
        assert_eq!(first, second);
    }
    let first = server().analyze_file("/srv/p.rpm", b"no package");
    assert_eq!(first, server().analyze_file("/srv/p.rpm", b"no package"));
}

#[test]
fn a_file_without_headers_fails() {
    for bytes in [&b""[..], &b"no package"[..], &lead()[..], &vec![0u8; 4096][..]] {
        let error = server().analyze_file("/srv/broken.rpm", bytes).unwrap_err();
        assert_eq!(error.path, "/srv/broken.rpm");
        assert_eq!(error.reason, AnalyzeFailure::Header);
    }
    let mut cut = debuginfo_package(Compression::Zstd, &debug_content());
    cut.truncate(150);
    assert_eq!(
        server().analyze_file("/srv/cut.rpm", &cut).unwrap_err().reason,
        AnalyzeFailure::Header
    );
    let mut wrong = binary_package(b"x");
    wrong[0] = 0;
    assert_eq!(
        server().analyze_file("/srv/wrong.rpm", &wrong).unwrap_err().reason,
        AnalyzeFailure::Header
    );
    let mut wrong = binary_package(b"x");
    wrong[96 + 16] = 0;
    assert_eq!(
        server().analyze_file("/srv/wrong.rpm", &wrong).unwrap_err().reason,
        AnalyzeFailure::Header
    );
}

#[test]
fn a_missing_field_fails() {
    let cases = [
        (vec![text(SOURCERPM, SOURCE), text(ARCH, "x86_64")], AnalyzeFailure::Name),
        (vec![text(NAME, "hello"), text(ARCH, "x86_64")], AnalyzeFailure::SourceRpm),
        (vec![text(NAME, "hello"), text(SOURCERPM, SOURCE)], AnalyzeFailure::Arch),
        (vec![text(ARCH, "x86_64")], AnalyzeFailure::Name),
        (vec![], AnalyzeFailure::Name),
    ];
    for (tags, reason) in cases {
        let mut rpm = headers(tags);
        rpm.extend(archive(&[]));
        let error = server().analyze_file("/srv/p.rpm", &rpm).unwrap_err();
        assert_eq!(error.reason, reason);
        assert_eq!(error.path, "/srv/p.rpm");
    }
}

#[test]
fn an_inconsistent_file_list_fails() {
    let mut tags = tags("hello-debuginfo", None, &[build_id_link()]);
    tags.retain(|tag| tag.tag != FILELINKTOS);
    tags.push(texts(FILELINKTOS, vec![String::new(), String::new()]));
    let rpm = headers(tags);
    assert_eq!(
        server().analyze_file("/srv/p.rpm", &rpm).unwrap_err().reason,
        AnalyzeFailure::Files
    );
    let mut tags = tags_without(DIRNAMES);
    tags.push(texts(DIRNAMES, Vec::new()));
    let rpm = headers(tags);
    assert_eq!(
        server().analyze_file("/srv/p.rpm", &rpm).unwrap_err().reason,
        AnalyzeFailure::Files
    );
}

fn tags_without(tag: u32) -> Vec<HeaderEntry> {
    let mut tags = tags("hello", None, &[("/usr/bin/", "hello", REGULAR, "")]);
    tags.retain(|entry| entry.tag != tag);
    tags
}

#[test]
fn a_package_without_files_is_fine() {
    let rpm = package("empty-debuginfo", Compression::Uncompressed, &[], &[]);
    let package = server().analyze_file("/srv/e.rpm", &rpm).unwrap();
    assert_eq!(package.name, "empty");
    assert!(build_ids(&package).is_empty());
}

#[test]
fn entries_that_point_outside_the_store_are_refused() {
    let rpm = binary_package(b"x");
    assert!(is_framed(&rpm));
    let main = 96 + 16;
    let count = u32::from_be_bytes(rpm[main + 8..main + 12].try_into().unwrap()) as usize;
    assert!(count > 3);
    for entry in 0..count {
        let at = main + 16 + 16 * entry;
        for value in [0xffff_ffffu32, 0x7fff_ffff, 0x8000_0000, 0x0010_0000] {
            let mut broken = rpm.clone();
            broken[at + 8..at + 12].copy_from_slice(&value.to_be_bytes());
            assert!(!is_framed(&broken));
            assert_eq!(
                server().analyze_file("/srv/p.rpm", &broken).unwrap_err().reason,
                AnalyzeFailure::Header
            );
            assert_eq!(server().read_rpm_file(&broken, "/usr/bin/hello"), None);
        }
        let mut broken = rpm.clone();
        broken[at + 12..at + 16].copy_from_slice(&0xffff_fff0u32.to_be_bytes());
        assert!(!is_framed(&broken));
        assert!(server().analyze_file("/srv/p.rpm", &broken).is_err());
    }
}

#[test]
fn sections_that_overrun_the_file_are_refused() {
    let rpm = binary_package(b"x");
    let main = 96 + 16;
    let mut broken = rpm.clone();
    broken[main + 12..main + 16].copy_from_slice(&0xffff_ff00u32.to_be_bytes());
    assert!(!is_framed(&broken));
    assert!(server().analyze_file("/srv/p.rpm", &broken).is_err());
    let mut broken = rpm.clone();
    broken[main + 8..main + 12].copy_from_slice(&0x1000_0000u32.to_be_bytes());
    assert!(!is_framed(&broken));
    assert!(server().analyze_file("/srv/p.rpm", &broken).is_err());
    let mut broken = rpm.clone();
    broken[96 + 8..96 + 12].copy_from_slice(&0xffff_ffffu32.to_be_bytes());
    assert!(!is_framed(&broken));
    assert!(server().analyze_file("/srv/p.rpm", &broken).is_err());
    assert!(!is_framed(&rpm[..main + 15]));
    assert!(!is_framed(&rpm[..90]));
    assert!(!is_framed(&[]));
    let end_of_headers = rpm.len() - compressed(Compression::Zstd, &archive(&[("./usr/bin/hello", b"x")])).len();
    assert!(is_framed(&rpm[..end_of_headers]));
    assert!(!is_framed(&rpm[..end_of_headers - 1]));
}

#[test]
fn reads_the_build_id_of_a_dwz_image() {
    let package = server().analyze_file("/srv/libfoo-debuginfo.rpm", &dwz_package()).unwrap();
    assert_eq!(package.name, "libfoo");
    assert_eq!(
        build_ids(&package),
        vec![(dwz_id(), "/usr/lib/debug/.dwz/libfoo-1.2.3.x86_64".to_string())]
    );
    assert_eq!(
        server().get_build_id_for_dwz(&dwz_package()),
        Some((dwz_id(), "/usr/lib/debug/.dwz/libfoo-1.2.3.x86_64".to_string()))
    );
}

#[test]
fn the_dwz_id_comes_after_the_ids_of_the_links() {
    let rpm = package(
        "hello-debuginfo",
        Compression::Bzip2,
        &[("/usr/lib/debug/.dwz/", "hello.x86_64", REGULAR, ""), build_id_link()],
        &[
            ("./usr/lib/debug/.dwz/empty", b""),
            ("./usr/lib/debug/.dwz/hello.x86_64", &dwz_image()),
            ("./usr/lib/debug/.dwz/second", &dwz_image()),
        ],
    );
    let package = server().analyze_file("/srv/p.rpm", &rpm).unwrap();
    assert_eq!(
        build_ids(&package),
        vec![
            (sample(), DEBUG_FILE.to_string()),
            (dwz_id(), "/usr/lib/debug/.dwz/hello.x86_64".to_string())
        ]
    );
}

#[test]
fn a_dwz_image_without_note_gives_no_id() {
    let listed = [("/usr/lib/debug/.dwz/", "image", REGULAR, "")];
    let plain = vec![0x42u8; 700];
    let rpm = package(
        "x-debuginfo",
        Compression::Zstd,
        &listed,
        &[("./usr/lib/debug/.dwz/image", &plain)],
    );
    assert!(build_ids(&server().analyze_file("/srv/p.rpm", &rpm).unwrap()).is_empty());
    assert_eq!(server().get_build_id_for_dwz(&rpm), None);

    let rpm = package("x-debuginfo", Compression::Zstd, &listed, &[("./usr/bin/x", b"x")]);
    assert!(build_ids(&server().analyze_file("/srv/p.rpm", &rpm).unwrap()).is_empty());

    let mut late = vec![0x42u8; 700];
    late[300..308].copy_from_slice(&MARK);
    let rpm =
        package("x-debuginfo", Compression::Zstd, &listed, &[("./usr/lib/debug/.dwz/image", &late)]);
    assert!(build_ids(&server().analyze_file("/srv/p.rpm", &rpm).unwrap()).is_empty());
}

#[test]
fn the_payload_is_not_read_without_a_dwz_file_in_the_header() {
    let rpm = package(
        "x-debuginfo",
        Compression::Zstd,
        &[build_id_link()],
        &[("./usr/lib/debug/.dwz/image", &dwz_image())],
    );
    let package = server().analyze_file("/srv/p.rpm", &rpm).unwrap();
    assert_eq!(build_ids(&package), vec![(sample(), DEBUG_FILE.to_string())]);
}

#[test]
fn takes_the_first_entry_that_is_selected() {
    let rpm = package(
        "hello",
        Compression::Gzip,
        &[],
        &[
            ("./etc/a", b"first"),
            ("./usr/share/b", b"second"),
            ("./usr/share/c", b"third"),
            ("./usr/share/b", b"again"),
        ],
    );
    let server = server();
    let found = server.get_rpm_file_stream(&rpm, |name: &str| name.starts_with("/usr/share/"));
    assert_eq!(found, Ok((b"second".to_vec(), "/usr/share/b".to_string())));
    let found = server.get_rpm_file_stream(&rpm, |name: &str| name.ends_with('c'));
    assert_eq!(found, Ok((b"third".to_vec(), "/usr/share/c".to_string())));
    let found = server.get_rpm_file_stream(&rpm, |_: &str| true);
    assert_eq!(found, Ok((b"first".to_vec(), "/etc/a".to_string())));
    let found = server.get_rpm_file_stream(&rpm, |_: &str| false);
    assert_eq!(found, Err(PayloadError::NotFound));
    assert_eq!(server.read_rpm_file(&rpm, "/usr/share/b"), Some(b"second".to_vec()));
    assert_eq!(server.read_rpm_file(&rpm, "./usr/share/b"), None);
    assert_eq!(server.read_rpm_file(&rpm, "usr/share/b"), None);
    assert_eq!(server.read_rpm_file(&rpm, "/usr/share"), None);
}

#[test]
fn entries_without_content_are_passed_over() {
    let files: [(&str, &[u8]); 3] = [("./a", b""), ("./b", b"x"), ("./a", b"later")];
    let found = find_in_archive(&archive(&files), |name: &str| name == "/a");
    assert_eq!(found, Ok((b"later".to_vec(), "/a".to_string())));
    let files: [(&str, &[u8]); 2] = [("./a", b""), ("./b", b"x")];
    let found = find_in_archive(&archive(&files), |name: &str| name == "/a");
    assert_eq!(found, Err(PayloadError::NotFound));
}

#[test]
fn one_leading_dot_is_dropped() {
    let files: [(&str, &[u8]); 5] =
        [("./a", b"1"), ("b", b"2"), ("..c", b"3"), (".", b"4"), ("/d", b"5")];
    let bytes = archive(&files);
    let names = ["/a", "b", ".c", "", "/d"];
    for (i, name) in names.iter().enumerate() {
        let found = find_in_archive(&bytes, |n: &str| n == *name);
        assert_eq!(found, Ok((files[i].1.to_vec(), name.to_string())));
    }
    assert_eq!(find_in_archive(&bytes, |n: &str| n == "./a"), Err(PayloadError::NotFound));
}

#[test]
fn nothing_is_found_past_the_trailer() {
    let mut bytes = archive(&[("./a", b"1")]);
    bytes.extend(archive(&[("./b", b"2")]));
    assert_eq!(find_in_archive(&bytes, |n: &str| n == "/b"), Err(PayloadError::NotFound));
    assert_eq!(find_in_archive(&archive(&[]), |_: &str| true), Err(PayloadError::NotFound));
}

#[test]
fn a_broken_archive_is_reported() {
    let whole = archive(&[("./a", b"first"), ("./b", b"second")]);
    assert_eq!(find_in_archive(&[], |_: &str| true), Err(PayloadError::Archive));
    assert_eq!(find_in_archive(b"070701", |_: &str| true), Err(PayloadError::Archive));
    assert_eq!(find_in_archive(&vec![b'x'; 500], |_: &str| true), Err(PayloadError::Archive));
    let cut = &whole[..whole.len() - 130];
    assert_eq!(find_in_archive(cut, |n: &str| n == "/a"), Ok((b"first".to_vec(), "/a".to_string())));
    assert_eq!(find_in_archive(cut, |n: &str| n == "/c"), Err(PayloadError::Archive));
    let cut = &whole[..116];
    assert_eq!(find_in_archive(cut, |n: &str| n == "/b"), Err(PayloadError::Archive));
}

#[test]
fn a_file_that_is_cut_short_does_not_come() {
    let whole = archive(&[("./a", b"0123456789")]);
    assert_eq!(
        find_in_archive(&whole, |n: &str| n == "/a"),
        Ok((b"0123456789".to_vec(), "/a".to_string()))
    );
    for held in 0..10 {
        let cut = &whole[..116 + held];
        assert_eq!(find_in_archive(cut, |n: &str| n == "/a"), Err(PayloadError::Archive));
    }
    let cut = &whole[..116 + 10];
    assert_eq!(
        find_in_archive(cut, |n: &str| n == "/a"),
        Ok((b"0123456789".to_vec(), "/a".to_string()))
    );
    let rpm = package("hello", Compression::Uncompressed, &[], &[("./a", b"0123456789")]);
    assert_eq!(server().read_rpm_file(&rpm, "/a"), Some(b"0123456789".to_vec()));
    let headers = rpm.len() - whole.len();
    assert_eq!(server().read_rpm_file(&rpm[..headers + 116 + 4], "/a"), None);
}

#[test]
fn reads_every_supported_compression() {
    let content = debug_content();
    let plain = archive(&[("./usr/lib/debug/usr/bin/hello.debug", &content)]);
    let kinds = [
        Compression::Uncompressed,
        Compression::Gzip,
        Compression::Zstd,
        Compression::Xz,
        Compression::Bzip2,
    ];
    for kind in kinds {
        let packed = compressed(kind, &plain);
        if kind != Compression::Uncompressed {
            assert_ne!(packed, plain);
        }
        let found = find_in_payload(kind, &packed, |n: &str| n == DEBUG_FILE);
        assert_eq!(found, Ok((content.clone(), DEBUG_FILE.to_string())), "{kind:?}");
        let rpm = debuginfo_package(kind, &content);
        assert_eq!(server().read_rpm_file(&rpm, DEBUG_FILE), Some(content.clone()), "{kind:?}");
    }
}

#[test]
fn a_payload_under_the_wrong_compression_is_refused() {
    let plain = archive(&[("./a", b"content")]);
    let kinds = [Compression::Gzip, Compression::Zstd, Compression::Xz, Compression::Bzip2];
    for kind in kinds {
        assert_eq!(
            find_in_payload(kind, &plain, |_: &str| true),
            Err(PayloadError::Decoder),
            "{kind:?}"
        );
        let packed = compressed(kind, &plain);
        assert_eq!(
            find_in_payload(Compression::Uncompressed, &packed, |_: &str| true),
            Err(PayloadError::Archive),
            "{kind:?}"
        );
    }
}

#[test]
fn a_compressed_payload_that_is_cut_short_is_refused() {
    let noise: Vec<u8> = (0..200_000u32).map(|i| (i.wrapping_mul(2654435761) >> 13) as u8).collect();
    let plain = archive(&[("./a", b"first"), ("./big", &noise), ("./z", b"last")]);
    let kinds = [Compression::Gzip, Compression::Zstd, Compression::Xz, Compression::Bzip2];
    for kind in kinds {
        let packed = compressed(kind, &plain);
        for name in ["/a", "/big", "/z"] {
            let cut = &packed[..packed.len() - 1000];
            assert_eq!(
                find_in_payload(kind, cut, |n: &str| n == name),
                Err(PayloadError::Decoder),
                "{kind:?}"
            );
            assert_eq!(
                find_in_payload(kind, &packed[..packed.len() / 2], |n: &str| n == name),
                Err(PayloadError::Decoder),
                "{kind:?}"
            );
            assert_eq!(
                find_in_payload(kind, &[], |n: &str| n == name),
                Err(PayloadError::Decoder),
                "{kind:?}"
            );
        }
        assert_eq!(
            find_in_payload(kind, &packed, |n: &str| n == "/z"),
            Ok((b"last".to_vec(), "/z".to_string())),
            "{kind:?}"
        );
        let rpm = debuginfo_package(kind, &noise);
        assert_eq!(server().read_rpm_file(&rpm, DEBUG_FILE), Some(noise.clone()));
        assert_eq!(server().read_rpm_file(&rpm[..rpm.len() - 1000], DEBUG_FILE), None);
    }
}

#[test]
fn an_unknown_compression_is_refused() {
    let mut rpm = headers(tags("hello", Some("lzma"), &[]));
    rpm.extend(archive(&[("./a", b"content")]));
    assert_eq!(
        server().get_rpm_file_stream(&rpm, |_: &str| true),
        Err(PayloadError::Compression)
    );
    assert_eq!(server().read_rpm_file(&rpm, "/a"), None);
    assert_eq!(server().analyze_file("/srv/h.rpm", &rpm).unwrap().kind, RPMKind::Binary);
}

#[test]
fn a_file_without_headers_has_no_payload() {
    assert_eq!(server().get_rpm_file_stream(b"junk", |_: &str| true), Err(PayloadError::Header));
    assert_eq!(server().read_rpm_file(&archive(&[("./a", b"x")]), "/a"), None);
    assert_eq!(server().read_rpm_file_section(b"junk", "/a", ".text"), None);
    assert_eq!(server().get_build_id_for_dwz(b"junk"), None);
}

#[test]
fn reads_a_section_of_an_elf_image() {
    let image = binary_elf();
    assert_eq!(read_section(&image, ".text"), Some(b"\x55\x48\x89\xe5\xc3".to_vec()));
    assert_eq!(read_section(&image, ".shstrtab").map(|s| s.len()), Some(22));
    assert_eq!(read_section(&image, ".bss"), None);
    assert_eq!(read_section(&image, ".data"), None);
    assert_eq!(read_section(&image, ""), Some(Vec::new()));
    assert_eq!(read_section(&debug_elf(), ".debug_info"), Some(b"dwarf of hello".to_vec()));
    assert_eq!(read_section(&debug_elf(), ".text"), None);
}

#[test]
fn an_image_that_is_no_elf_has_no_sections() {
    assert_eq!(read_section(b"", ".text"), None);
    assert_eq!(read_section(b"not an elf image at all, but long enough to hold a header......", ".text"), None);
    let mut image = binary_elf();
    image.truncate(image.len() - 70);
    assert_eq!(read_section(&image, ".text"), None);
    let mut image = binary_elf();
    image[4] = 9;
    assert_eq!(read_section(&image, ".text"), None);
}

#[test]
fn a_section_that_overruns_the_image_is_not_read() {
    let mut image = binary_elf();
    let table = u64::from_le_bytes(image[40..48].try_into().unwrap()) as usize;
    let text = table + 64;
    image[text + 32..text + 40].copy_from_slice(&1_000_000u64.to_le_bytes());
    assert_eq!(read_section(&image, ".text"), None);
}

#[test]
fn reads_a_section_out_of_a_package() {
    let rpm = binary_package(&binary_elf());
    let server = server();
    assert_eq!(
        server.read_rpm_file_section(&rpm, "/usr/bin/hello", ".text"),
        Some(b"\x55\x48\x89\xe5\xc3".to_vec())
    );
    assert_eq!(server.read_rpm_file_section(&rpm, "/usr/bin/hello", ".bss"), None);
    assert_eq!(server.read_rpm_file_section(&rpm, "/usr/bin/hello", ".debug_info"), None);
    assert_eq!(server.read_rpm_file_section(&rpm, "/usr/bin/other", ".text"), None);
    let rpm = binary_package(b"plain text");
    assert_eq!(server.read_rpm_file_section(&rpm, "/usr/bin/hello", ".text"), None);
}

#[test]
fn serves_the_debug_file() {
    let (server, files) = hello_tree(debug_content(), binary_content());
    let served = server.debuginfo(&sample(), |path: &str| files.get(path).cloned());
    assert_eq!(served.as_ref().map(|b| b.len()), Some(4096));
    assert_eq!(served, Some(debug_content()));
}

#[test]
fn serves_the_executable() {
    let (server, files) = hello_tree(debug_content(), binary_content());
    let served = server.executable(&sample(), |path: &str| files.get(path).cloned());
    assert_eq!(served.as_ref().map(|b| b.len()), Some(2048));
    assert_eq!(served, Some(binary_content()));
}

#[test]
fn serves_a_source_file() {
    let (server, files) = hello_tree(debug_content(), binary_content());
    let fetch = |path: &str| files.get(path).cloned();
    assert_eq!(
        server.source(&sample(), "usr/src/debug/hello-1.0/main.c", fetch),
        Some(b"int main(void) { return 0; }\n".to_vec())
    );
    assert_eq!(server.source(&sample(), "usr/src/debug/hello-1.0/other.c", fetch), None);
    assert_eq!(server.source(&sample(), "/usr/src/debug/hello-1.0/main.c", fetch), None);
}

#[test]
fn serves_a_section_of_the_debug_file_or_else_of_the_executable() {
    let (server, files) = hello_tree(debug_elf(), binary_elf());
    let fetch = |path: &str| files.get(path).cloned();
    assert_eq!(server.section(&sample(), ".text", fetch), Some(b"\x55\x48\x89\xe5\xc3".to_vec()));
    assert_eq!(server.section(&sample(), ".debug_info", fetch), Some(b"dwarf of hello".to_vec()));
    assert_eq!(server.section(&sample(), ".bss", fetch), None);
    assert_eq!(server.section(&sample(), ".data", fetch), None);
}

#[test]
fn the_debug_file_comes_first_for_a_section() {
    let debug = elf(&[(".note", 7, b"from the debug file")]);
    let binary = elf(&[(".note", 7, b"from the executable")]);
    let (server, files) = hello_tree(debug, binary);
    let fetch = |path: &str| files.get(path).cloned();
    assert_eq!(server.section(&sample(), ".note", fetch), Some(b"from the debug file".to_vec()));
}

#[test]
fn an_unknown_build_id_has_nothing() {
    let (server, files) = hello_tree(debug_elf(), binary_elf());
    let fetch = |path: &str| files.get(path).cloned();
    let unknown: BuildId = [7; 20];
    assert_eq!(server.debuginfo(&unknown, fetch), None);
    assert_eq!(server.executable(&unknown, fetch), None);
    assert_eq!(server.section(&unknown, ".text", fetch), None);
    assert_eq!(server.source(&unknown, "usr/src/debug/hello-1.0/main.c", fetch), None);
    let empty = Server::new("/srv/rpms");
    assert_eq!(empty.debuginfo(&sample(), fetch), None);
    assert_eq!(empty.executable(&sample(), fetch), None);
    assert_eq!(empty.section(&sample(), ".text", fetch), None);
    assert_eq!(empty.source(&sample(), "usr/src/debug/hello-1.0/main.c", fetch), None);
}

#[test]
fn a_package_that_cannot_be_had_serves_nothing() {
    let (server, files) = hello_tree(debug_elf(), binary_elf());
    let nothing = |_: &str| -> Option<Vec<u8>> { None };
    assert_eq!(server.debuginfo(&sample(), nothing), None);
    assert_eq!(server.executable(&sample(), nothing), None);
    assert_eq!(server.section(&sample(), ".text", nothing), None);
    assert_eq!(server.source(&sample(), "usr/src/debug/hello-1.0/main.c", nothing), None);
    let only_binary = |path: &str| {
        if path.contains("debuginfo") {
            None
        } else {
            files.get(path).cloned()
        }
    };
    assert_eq!(server.section(&sample(), ".text", only_binary), Some(b"\x55\x48\x89\xe5\xc3".to_vec()));
    assert_eq!(server.section(&sample(), ".debug_info", only_binary), None);
}

#[test]
fn repeated_lookups_agree() {
    let (server, files) = hello_tree(debug_elf(), binary_elf());
    let fetch = |path: &str| files.get(path).cloned();
    let first = (
        server.debuginfo(&sample(), fetch),
        server.executable(&sample(), fetch),
        server.section(&sample(), ".text", fetch),
        server.source(&sample(), "usr/src/debug/hello-1.0/main.c", fetch),
    );
    for _ in 0..3 {
        let again = (
            server.debuginfo(&sample(), fetch),
            server.executable(&sample(), fetch),
            server.section(&sample(), ".text", fetch),
            server.source(&sample(), "usr/src/debug/hello-1.0/main.c", fetch),
        );
        assert_eq!(first, again);
    }
    assert!(first.0.is_some() && first.1.is_some() && first.2.is_some() && first.3.is_some());
}

#[test]
fn the_index_holds_the_id_of_a_dwz_image() {
    let files = tree(vec![("/srv/rpms/libfoo-debuginfo-1.2.3.x86_64.rpm", dwz_package())]);
    let mut server = server();
    let mut rpms = Vec::new();
    for (path, bytes) in &files {
        rpms.push(server.analyze_file(path, bytes).unwrap());
    }
    assert!(server.walk(0, &rpms).is_empty());
    assert_eq!(
        server.get_debuginfo_rpm_for_build_id(&dwz_id()),
        Some((
            "/srv/rpms/libfoo-debuginfo-1.2.3.x86_64.rpm".to_string(),
            "/usr/lib/debug/.dwz/libfoo-1.2.3.x86_64".to_string()
        ))
    );
    let fetch = |path: &str| files.get(path).cloned();
    assert_eq!(server.debuginfo(&dwz_id(), fetch), Some(dwz_image()));
    assert_eq!(server.executable(&dwz_id(), fetch), None);
}

fn scrambler(seed: u32) -> impl FnMut(u32) -> u32 {
    let mut state = seed;
    move |bound: u32| {
        state ^= state << 13;
        state ^= state >> 17;
        state ^= state << 5;
        state % bound
    }
}

#[test]
fn damaged_headers_are_survived() {
    let rpms = [
        debuginfo_package(Compression::Uncompressed, b"content"),
        dwz_package(),
        package(
            "many-debuginfo",
            Compression::Gzip,
            &[
                build_id_link(),
                ("/usr/lib/debug/.dwz/", "image", REGULAR, ""),
                ("/usr/bin/", "many", REGULAR, ""),
                ("/usr/lib/debug/usr/bin/", "many.debug", REGULAR, ""),
            ],
            &[("./usr/lib/debug/.dwz/image", &dwz_image())],
        ),
    ];
    let server = server();
    let mut next = scrambler(0x9e37_79b9);
    let mut fine = 0;
    let mut refused = 0;
    for rpm in &rpms {
        let headers = rpm.len().min(2000) as u32;
        for _ in 0..1500 {
            let mut damaged = rpm.clone();
            for _ in 0..=next(3) {
                let at = next(headers) as usize;
                damaged[at] = match next(4) {
                    0 => 0x00,
                    1 => 0xff,
                    2 => 0x7f,
                    _ => next(256) as u8,
                };
            }
            match server.analyze_file("/srv/p.rpm", &damaged) {
                Ok(_) => fine += 1,
                Err(error) => {
                    assert_eq!(error.path, "/srv/p.rpm");
                    refused += 1;
                }
            }
            let _ = server.read_rpm_file(&damaged, "/usr/lib/debug/.dwz/image");
            let _ = server.get_build_id_for_dwz(&damaged);
        }
    }
    assert!(fine > 100);
    assert!(refused > 100);
}

#[test]
fn damaged_archives_are_survived() {
    let plain = archive(&[
        ("./usr/bin/hello", &binary_elf()),
        ("./usr/lib/debug/.dwz/image", &dwz_image()),
        ("./etc/hello.conf", b"key = value\n"),
    ]);
    let mut next = scrambler(0x85eb_ca6b);
    let mut found = 0;
    let mut lost = 0;
    for _ in 0..3000 {
        let mut damaged = plain.clone();
        for _ in 0..=next(3) {
            let at = next(damaged.len() as u32) as usize;
            damaged[at] = next(256) as u8;
        }
        if next(4) == 0 {
            damaged.truncate(next(damaged.len() as u32) as usize);
        }
        match find_in_archive(&damaged, |n: &str| n == "/etc/hello.conf") {
            Ok(_) => found += 1,
            Err(_) => lost += 1,
        }
    }
    assert!(found > 100);
    assert!(lost > 100);
}

#[test]
fn damaged_images_are_survived() {
    let image = binary_elf();
    let mut next = scrambler(0xc2b2_ae35);
    let mut found = 0;
    let mut lost = 0;
    for _ in 0..3000 {
        let mut damaged = image.clone();
        for _ in 0..=next(3) {
            let at = next(damaged.len() as u32) as usize;
            damaged[at] = next(256) as u8;
        }
        if next(4) == 0 {
            damaged.truncate(next(damaged.len() as u32) as usize);
        }
        match read_section(&damaged, ".text") {
            Some(_) => found += 1,
            None => lost += 1,
        }
    }
    assert!(found > 100);
    assert!(lost > 100);
}

#[test]
fn damaged_streams_are_survived() {
    let plain = archive(&[("./usr/bin/hello", &binary_content()), ("./etc/hello.conf", b"key = value\n")]);
    let kinds = [Compression::Gzip, Compression::Zstd, Compression::Xz, Compression::Bzip2];
    let mut next = scrambler(0x27d4_eb2f);
    for kind in kinds {
        let packed = compressed(kind, &plain);
        for _ in 0..300 {
            let mut damaged = packed.clone();
            for _ in 0..=next(3) {
                let at = next(damaged.len() as u32) as usize;
                damaged[at] = next(256) as u8;
            }
            if next(4) == 0 {
                damaged.truncate(next(damaged.len() as u32) as usize);
            }
            let _ = find_in_payload(kind, &damaged, |n: &str| n == "/etc/hello.conf");
        }
    }
}
