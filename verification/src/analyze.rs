//! The analysis of one package file.

use vstd::prelude::*;
use vstd::string::StringExecFns;

use crate::build_id::BuildId;
use crate::dwz::{dwz_build_id, lemma_dwz_path};
use crate::framing::{open_package, package_of};
use crate::outside::{
    get_arch, get_file_entries, get_name, get_source_rpm, is_canonical, package_arch,
    package_files, package_name, package_source_rpm,
};
use crate::package::{
    all_canonical, collect_build_ids, dwz_dir, entry_views, links_of, AnalyzeFailure, FileEntry,
    FileEntryView, RPMFile, RPMFileView, RPMKind, RPMKindView,
};
use crate::records::build_ids_of;
use crate::server::Server;
use crate::text::{ends_with, has_prefix, has_suffix};

verus! {

/// A package that could not be analysed, and why.
#[derive(Debug, Clone, PartialEq, Eq)]
pub struct AnalyzeError {
    /// Where the package file lies.
    pub path: String,
    pub reason: AnalyzeFailure,
}

/// The name under which a package is correlated with its siblings: its own
/// name without a trailing `-debuginfo`.
pub open spec fn canonical_name(name: Seq<char>) -> Seq<char> {
    if has_suffix(name, "-debuginfo"@) {
        name.subrange(0, name.len() - 10)
    } else {
        name
    }
}

/// What the header of a package says of it, and whether its payload holds
/// deduplicated debug images that still have to be looked into.
///
/// A name that ends in `-debuginfo` makes a debuginfo package, which has
/// the build-ids of its links; else a name that ends in `-debugsource`
/// makes a debug-source package; any other name makes a binary package.
pub open spec fn header_package(
    path: Seq<char>,
    name: Seq<char>,
    source_rpm: Seq<char>,
    arch: Seq<char>,
    entries: Seq<FileEntryView>,
) -> (RPMFileView, bool) {
    if has_suffix(name, "-debuginfo"@) {
        let links = links_of(entries);
        (
            RPMFileView {
                arch,
                source_rpm,
                name: canonical_name(name),
                path,
                kind: RPMKindView::DebugInfo { build_ids: links.build_ids },
            },
            links.has_dwz,
        )
    } else if has_suffix(name, "-debugsource"@) {
        (RPMFileView { arch, source_rpm, name, path, kind: RPMKindView::DebugSource }, false)
    } else {
        (RPMFileView { arch, source_rpm, name, path, kind: RPMKindView::Binary }, false)
    }
}

/// A package with one more build-id: the one read from a deduplicated
/// debug image, if one was read and the package is a debuginfo package.
pub open spec fn with_dwz(package: RPMFileView, dwz: Option<(Seq<u8>, Seq<char>)>) -> RPMFileView {
    match (package.kind, dwz) {
        (RPMKindView::DebugInfo { build_ids }, Some(found)) => RPMFileView {
            arch: package.arch,
            source_rpm: package.source_rpm,
            name: package.name,
            path: package.path,
            kind: RPMKindView::DebugInfo { build_ids: build_ids.push(found) },
        },
        _ => package,
    }
}

/// What the analysis of the package file `rpm`, found at `path`, yields.
///
/// The header must parse and must hold a name, a source package, an
/// architecture and a consistent file list, in this order; the first that
/// is missing is the failure, and there is no other.
pub open spec fn analysis(path: Seq<char>, rpm: Seq<u8>) -> Result<RPMFileView, AnalyzeFailure> {
    match package_of(rpm) {
        None => Err(AnalyzeFailure::Header),
        Some((meta, _)) => match package_name(meta) {
            None => Err(AnalyzeFailure::Name),
            Some(name) => match package_source_rpm(meta) {
                None => Err(AnalyzeFailure::SourceRpm),
                Some(source_rpm) => match package_arch(meta) {
                    None => Err(AnalyzeFailure::Arch),
                    Some(arch) => match package_files(meta) {
                        None => Err(AnalyzeFailure::Files),
                        Some(entries) => {
                            let (package, has_dwz) = header_package(
                                path,
                                name,
                                source_rpm,
                                arch,
                                entries,
                            );
                            Ok(
                                if has_dwz {
                                    with_dwz(package, dwz_build_id(rpm))
                                } else {
                                    package
                                },
                            )
                        },
                    },
                },
            },
        },
    }
}

/// `r` is what the analysis of the package file `rpm`, found at `path`,
/// comes to: the package, or the failure with the path attached.
pub open spec fn is_analysis(path: Seq<char>, rpm: Seq<u8>, r: Result<RPMFile, AnalyzeError>)
    -> bool {
    match r {
        Ok(package) => analysis(path, rpm) == Ok::<RPMFileView, AnalyzeFailure>(package@),
        Err(e) => e.path@ == path && analysis(path, rpm) == Err::<RPMFileView, AnalyzeFailure>(
            e.reason,
        ),
    }
}

/// The analysis is deterministic: whatever it comes to for a package file
/// at a path, it comes to the same whenever it is repeated.
pub proof fn lemma_analysis_is_deterministic(
    path: Seq<char>,
    rpm: Seq<u8>,
    first: Result<RPMFile, AnalyzeError>,
    second: Result<RPMFile, AnalyzeError>,
)
    requires
        is_analysis(path, rpm, first),
        is_analysis(path, rpm, second),
    ensures
        match (first, second) {
            (Ok(a), Ok(b)) => a@ == b@,
            (Err(a), Err(b)) => a.path@ == b.path@ && a.reason == b.reason,
            _ => false,
        },
{
}

/// Every path of the entries starts at the root.
pub open spec fn all_absolute(entries: Seq<(Seq<u8>, Seq<char>)>) -> bool {
    forall|i: int|
        0 <= i < entries.len() ==> (#[trigger] entries[i].1).len() > 0 && entries[i].1[0] == '/'
}

/// Every path of the entries is canonical, unless it is the path `image`.
pub open spec fn canonical_but(entries: Seq<(Seq<u8>, Seq<char>)>, image: Option<Seq<char>>)
    -> bool {
    forall|i: int|
        0 <= i < entries.len() ==> is_canonical(#[trigger] entries[i].1) || image == Some(
            entries[i].1,
        )
}

/// The path of the deduplicated debug image that a build-id was read
/// from, if one was read.
pub open spec fn image_path(dwz: Option<(Seq<u8>, Seq<char>)>) -> Option<Seq<char>> {
    match dwz {
        Some((_, path)) => Some(path),
        None => None,
    }
}

/// Paths that are canonical or lie below the dwz directory start at the
/// root.
pub proof fn lemma_paths_are_absolute(entries: Seq<(Seq<u8>, Seq<char>)>, image: Option<Seq<char>>)
    requires
        canonical_but(entries, image),
        image matches Some(path) ==> has_prefix(path, dwz_dir()),
    ensures
        all_absolute(entries),
{
    reveal_strlit("/usr/lib/debug/.dwz/");
    assert forall|i: int| 0 <= i < entries.len() implies (#[trigger] entries[i].1).len() > 0
        && entries[i].1[0] == '/' by {
        if !is_canonical(entries[i].1) {
            assert(entries[i].1.subrange(0, 20)[0] == dwz_dir()[0]);
        }
    }
}

/// Makes the package that the values of a header describe.  The flag tells
/// whether the payload holds deduplicated debug images.  The paths of the
/// build-ids are canonical.
pub fn package_from_header(
    path: &str,
    name: &str,
    source_rpm: String,
    arch: String,
    entries: &Vec<FileEntry>,
) -> (r: (RPMFile, bool))
    ensures
        header_package(path@, name@, source_rpm@, arch@, entry_views(entries@)) == (r.0@, r.1),
        all_canonical(build_ids_of(r.0@)),
{
    if ends_with(name, "-debuginfo") {
        proof {
            reveal_strlit("-debuginfo");
        }
        let n = name.unicode_len();
        let canonical = String::from_str(name.substring_char(0, n - 10));
        let (build_ids, has_dwz) = collect_build_ids(entries);
        (
            RPMFile {
                arch,
                source_rpm,
                name: canonical,
                path: String::from_str(path),
                kind: RPMKind::DebugInfo { build_ids },
            },
            has_dwz,
        )
    } else {
        let kind = if ends_with(name, "-debugsource") {
            RPMKind::DebugSource
        } else {
            RPMKind::Binary
        };
        (
            RPMFile {
                arch,
                source_rpm,
                name: String::from_str(name),
                path: String::from_str(path),
                kind,
            },
            false,
        )
    }
}

/// The mathematical value of what was read from a deduplicated debug
/// image.
pub open spec fn dwz_view(dwz: Option<(BuildId, String)>) -> Option<(Seq<u8>, Seq<char>)> {
    match dwz {
        Some((build_id, path)) => Some((build_id@, path@)),
        None => None,
    }
}

/// Adds the build-id read from a deduplicated debug image to a debuginfo
/// package.  The paths that were canonical stay so, and the one that is
/// added is the path of the image.
pub fn add_dwz_build_id(package: RPMFile, dwz: Option<(BuildId, String)>) -> (r: RPMFile)
    ensures
        r@ == with_dwz(package@, dwz_view(dwz)),
        all_canonical(build_ids_of(package@)) ==> canonical_but(
            build_ids_of(r@),
            image_path(dwz_view(dwz)),
        ),
{
    proof {
        let before = build_ids_of(package@);
        let after = build_ids_of(with_dwz(package@, dwz_view(dwz)));
        assert forall|i: int| 0 <= i < after.len() && i < before.len() implies after[i]
            == before[i] by {}
    }
    let RPMFile { arch, source_rpm, name, path, kind } = package;
    match (kind, dwz) {
        (RPMKind::DebugInfo { build_ids }, Some((build_id, image))) => {
            let mut build_ids = build_ids;
            build_ids.insert(build_id, image);
            RPMFile { arch, source_rpm, name, path, kind: RPMKind::DebugInfo { build_ids } }
        },
        (kind, _) => RPMFile { arch, source_rpm, name, path, kind },
    }
}

impl AnalyzeError {
    /// The failure of the package at `path` for the reason `reason`.
    pub fn new(path: &str, reason: AnalyzeFailure) -> (r: Self)
        ensures
            r.path@ == path@,
            r.reason == reason,
    {
        AnalyzeError { path: String::from_str(path), reason }
    }
}

impl Server {
    /// Analyses the package file `rpm`, which was found at `rpm_path`.
    ///
    /// The outcome depends on the two arguments alone: analysing the same
    /// file twice gives the same package, or the same failure.
    ///
    /// Every payload path in the package starts at the root, and is
    /// canonical unless it is the path of a deduplicated debug image,
    /// which is kept as the payload spells it.
    pub fn analyze_file(&self, rpm_path: &str, rpm: &[u8]) -> (r: Result<RPMFile, AnalyzeError>)
        ensures
            is_analysis(rpm_path@, rpm@, r),
            r matches Ok(package) ==> all_absolute(build_ids_of(package@)) && canonical_but(
                build_ids_of(package@),
                image_path(dwz_build_id(rpm@)),
            ),
    {
        let (meta, _) = match open_package(rpm) {
            Some(parsed) => parsed,
            None => {
                return Err(AnalyzeError::new(rpm_path, AnalyzeFailure::Header));
            },
        };
        let name = match get_name(&meta) {
            Ok(name) => name,
            Err(_) => {
                return Err(AnalyzeError::new(rpm_path, AnalyzeFailure::Name));
            },
        };
        let source_rpm = match get_source_rpm(&meta) {
            Ok(source_rpm) => source_rpm,
            Err(_) => {
                return Err(AnalyzeError::new(rpm_path, AnalyzeFailure::SourceRpm));
            },
        };
        let arch = match get_arch(&meta) {
            Ok(arch) => arch,
            Err(_) => {
                return Err(AnalyzeError::new(rpm_path, AnalyzeFailure::Arch));
            },
        };
        let entries = match get_file_entries(&meta) {
            Ok(entries) => entries,
            Err(_) => {
                return Err(AnalyzeError::new(rpm_path, AnalyzeFailure::Files));
            },
        };
        let (package, has_dwz) = package_from_header(
            rpm_path,
            name.as_str(),
            source_rpm,
            arch,
            &entries,
        );
        let package = if has_dwz {
            add_dwz_build_id(package, self.get_build_id_for_dwz(rpm))
        } else {
            package
        };
        proof {
            lemma_dwz_path(rpm@);
            lemma_paths_are_absolute(build_ids_of(package@), image_path(dwz_build_id(rpm@)));
        }
        Ok(package)
    }
}

} // verus!
