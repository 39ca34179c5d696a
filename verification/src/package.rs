//! What the header of one package says about build-ids.

use vstd::prelude::*;
use vstd::string::StringExecFns;

use crate::build_id::{parse_build_id, parsed_build_id};
use crate::outside::{absolutize, absolutized, is_canonical};
use crate::paths::BuildIdPaths;
use crate::text::{
    ends_with, find_last, has_prefix, has_suffix, last_index_of, lemma_last_index_of, starts_with,
};

verus! {

/// Root of the debug files in a payload.
pub const DEBUG_INFO_PATH: &'static str = "/usr/lib/debug";

/// The directory of the build-id links in a payload.
pub const DEBUG_INFO_BUILD_ID_PATH: &'static str = "/usr/lib/debug/.build-id/";

/// The directory of the deduplicated debug images in a payload.
pub const DWZ_DEBUG_INFO_PATH: &'static str = "/usr/lib/debug/.dwz/";

/// One file of a package, as its header lists it.
#[derive(Debug, Clone, PartialEq, Eq)]
pub struct FileEntry {
    /// The path at which the file is installed.
    pub path: String,
    /// Where the file points to, if the header records a link target.
    pub link_target: Option<String>,
    /// Whether the file is a symbolic link.
    pub symlink: bool,
}

/// The mathematical value of a `FileEntry`.
pub struct FileEntryView {
    pub path: Seq<char>,
    pub link_target: Option<Seq<char>>,
    pub symlink: bool,
}

impl View for FileEntry {
    type V = FileEntryView;

    open spec fn view(&self) -> FileEntryView {
        FileEntryView {
            path: self.path@,
            link_target: match self.link_target {
                Some(target) => Some(target@),
                None => None,
            },
            symlink: self.symlink,
        }
    }
}

/// The views of a list of file entries.
pub open spec fn entry_views(entries: Seq<FileEntry>) -> Seq<FileEntryView> {
    entries.map_values(|e: FileEntry| e@)
}

/// The three sorts of package.
#[derive(Debug, Clone, PartialEq, Eq)]
pub enum RPMKind {
    Binary,
    DebugInfo { build_ids: BuildIdPaths },
    DebugSource,
}

/// The mathematical value of a `RPMKind`.
pub enum RPMKindView {
    Binary,
    DebugInfo { build_ids: Seq<(Seq<u8>, Seq<char>)> },
    DebugSource,
}

impl View for RPMKind {
    type V = RPMKindView;

    open spec fn view(&self) -> RPMKindView {
        match self {
            RPMKind::Binary => RPMKindView::Binary,
            RPMKind::DebugInfo { build_ids } => RPMKindView::DebugInfo { build_ids: build_ids@ },
            RPMKind::DebugSource => RPMKindView::DebugSource,
        }
    }
}

/// One analysed package.
#[derive(Debug, Clone, PartialEq, Eq)]
pub struct RPMFile {
    /// Architecture tag of the header.
    pub arch: String,
    /// File name of the source package that the header records.
    pub source_rpm: String,
    /// Package name, without a trailing `-debuginfo`.
    pub name: String,
    /// Where the package file lies.
    pub path: String,
    pub kind: RPMKind,
}

/// The mathematical value of a `RPMFile`.
pub struct RPMFileView {
    pub arch: Seq<char>,
    pub source_rpm: Seq<char>,
    pub name: Seq<char>,
    pub path: Seq<char>,
    pub kind: RPMKindView,
}

impl View for RPMFile {
    type V = RPMFileView;

    open spec fn view(&self) -> RPMFileView {
        RPMFileView {
            arch: self.arch@,
            source_rpm: self.source_rpm@,
            name: self.name@,
            path: self.path@,
            kind: self.kind@,
        }
    }
}

/// Why a package could not be analysed.
#[derive(Debug, Clone, Copy, PartialEq, Eq)]
pub enum AnalyzeFailure {
    /// The lead or a header of the package is malformed.
    Header,
    /// The header has no package name.
    Name,
    /// The header does not name a source package.
    SourceRpm,
    /// The header has no architecture.
    Arch,
    /// The file list of the header is inconsistent.
    Files,
}

/// The position of the last `/` among the first `end` characters, or -1.
pub open spec fn slash_before(path: Seq<char>, end: int) -> int {
    match last_index_of(path, '/', end) {
        Some(i) => i,
        None => -1,
    }
}

/// What follows the last `/` of a path.
pub open spec fn file_name(path: Seq<char>) -> Seq<char> {
    path.subrange(slash_before(path, path.len() as int) + 1, path.len() as int)
}

/// What precedes the last `/` of a path.
pub open spec fn parent(path: Seq<char>) -> Seq<char> {
    let slash = slash_before(path, path.len() as int);
    if slash <= 0 {
        Seq::empty()
    } else {
        path.subrange(0, slash)
    }
}

/// The name of the directory that holds the file: what stands between the
/// last two `/` of a path.
pub open spec fn parent_name(path: Seq<char>) -> Seq<char> {
    let slash = slash_before(path, path.len() as int);
    if slash <= 0 {
        Seq::empty()
    } else {
        path.subrange(slash_before(path, slash) + 1, slash)
    }
}

/// `/usr/lib/debug/.build-id/`, under which the build-id links of a
/// debuginfo package lie.
pub open spec fn build_id_dir() -> Seq<char> {
    DEBUG_INFO_BUILD_ID_PATH@
}

/// `/usr/lib/debug/.dwz/`, under which deduplicated debug images lie.
pub open spec fn dwz_dir() -> Seq<char> {
    DWZ_DEBUG_INFO_PATH@
}

/// A build-id link: a symbolic link below the build-id directory whose file
/// name has the extension `debug` after a stem that is not empty.
pub open spec fn is_build_id_link(entry: FileEntryView) -> bool {
    &&& entry.symlink
    &&& has_prefix(entry.path, build_id_dir())
    &&& has_suffix(entry.path, ".debug"@)
    &&& file_name(entry.path).len() > 6
}

/// The hexadecimal text that the path of a build-id link spells: the name
/// of its directory followed by the file name without `.debug`.
pub open spec fn build_id_text(path: Seq<char>) -> Seq<char> {
    parent_name(path) + file_name(path).subrange(0, file_name(path).len() - 6)
}

/// Where a link points, before dots are resolved: its target if that is
/// absolute, else the target appended to the directory of the link.
pub open spec fn link_destination(entry: FileEntryView) -> Seq<char> {
    let target = match entry.link_target {
        Some(t) => t,
        None => Seq::empty(),
    };
    if target.len() > 0 && target[0] == '/' {
        target
    } else {
        parent(entry.path) + seq!['/'] + target
    }
}

/// What the file list of a debuginfo package yields.
pub struct Links {
    /// The build-ids of the links, each with the path it resolves to.
    pub build_ids: Seq<(Seq<u8>, Seq<char>)>,
    /// Whether a file lies below the dwz directory.
    pub has_dwz: bool,
}

/// What one more file entry adds to `links`.
///
/// A build-id link whose path spells a build-id is recorded with its
/// resolved destination; one whose path spells none is passed over.  Any
/// file below the dwz directory raises the flag.
pub open spec fn links_with(links: Links, entry: FileEntryView) -> Links {
    if is_build_id_link(entry) {
        match parsed_build_id(build_id_text(entry.path)) {
            Ok(id) => Links {
                build_ids: links.build_ids.push((id, absolutized(link_destination(entry)))),
                has_dwz: links.has_dwz,
            },
            Err(_) => links,
        }
    } else if has_prefix(entry.path, dwz_dir()) {
        Links { build_ids: links.build_ids, has_dwz: true }
    } else {
        links
    }
}

/// What a file list yields, entry by entry.
pub open spec fn links_of(entries: Seq<FileEntryView>) -> Links
    decreases entries.len(),
{
    if entries.len() == 0 {
        Links { build_ids: Seq::empty(), has_dwz: false }
    } else {
        links_with(links_of(entries.drop_last()), entries.last())
    }
}

/// Every path of the entries is canonical.
pub open spec fn all_canonical(entries: Seq<(Seq<u8>, Seq<char>)>) -> bool {
    forall|i: int| 0 <= i < entries.len() ==> is_canonical(#[trigger] entries[i].1)
}

/// Spells the build-id text of the path of a build-id link, whose last
/// `/` stands at `slash`.
fn spell_build_id_text(path: &str, slash: usize) -> (r: String)
    requires
        slash_before(path@, path@.len() as int) == slash,
        path@.len() - slash - 1 > 6,
    ensures
        r@ == build_id_text(path@),
{
    let n = path.unicode_len();
    let before = find_last(path, '/', slash);
    proof {
        lemma_last_index_of(path@, '/', slash as int);
    }
    let name_start = match before {
        Some(i) => i + 1,
        None => 0,
    };
    let mut text = String::from_str(path.substring_char(name_start, slash));
    text.append(path.substring_char(slash + 1, n - 6));
    proof {
        let name = file_name(path@);
        assert(name.subrange(0, name.len() - 6) =~= path@.subrange(slash + 1, n - 6));
        assert(text@ =~= build_id_text(path@));
    }
    text
}

/// Spells the destination of a link whose path has its last `/` at
/// `slash`.
fn spell_link_destination(entry: &FileEntry, slash: usize) -> (r: String)
    requires
        slash_before(entry@.path, entry@.path.len() as int) == slash,
    ensures
        r@ == link_destination(entry@),
{
    proof {
        reveal_strlit("");
        reveal_strlit("/");
        lemma_last_index_of(entry@.path, '/', entry@.path.len() as int);
    }
    let directory = entry.path.as_str().substring_char(0, slash);
    let mut destination = String::from_str("");
    match &entry.link_target {
        Some(target) => {
            let target = target.as_str();
            if target.unicode_len() > 0 && target.get_char(0) == '/' {
                destination.append(target);
            } else {
                destination.append(directory);
                destination.append("/");
                destination.append(target);
            }
        },
        None => {
            destination.append(directory);
            destination.append("/");
        },
    }
    assert(destination@ =~= link_destination(entry@));
    destination
}

/// Adds what `entry` yields to `build_ids` and `has_dwz`.  A path that is
/// added is canonical.
pub fn scan_entry(entry: &FileEntry, build_ids: &mut BuildIdPaths, has_dwz: &mut bool)
    ensures
        links_with(Links { build_ids: old(build_ids)@, has_dwz: *old(has_dwz) }, entry@) == (Links {
            build_ids: final(build_ids)@,
            has_dwz: *final(has_dwz),
        }),
        all_canonical(old(build_ids)@) ==> all_canonical(final(build_ids)@),
{
    let path = entry.path.as_str();
    if entry.symlink && starts_with(path, DEBUG_INFO_BUILD_ID_PATH) && ends_with(path, ".debug") {
        let n = path.unicode_len();
        proof {
            reveal_strlit("/usr/lib/debug/.build-id/");
            reveal_strlit("/usr/lib/debug/.dwz/");
            reveal_strlit(".debug");
            assert(path@[0] == build_id_dir()[0]);
            assert(path@.subrange(0, 25)[16] == build_id_dir()[16]);
            assert(has_prefix(path@, dwz_dir()) ==> path@.subrange(0, 20)[16] == dwz_dir()[16]);
            lemma_last_index_of(path@, '/', n as int);
        }
        match find_last(path, '/', n) {
            Some(slash) => {
                if n - slash - 1 > 6 {
                    let text = spell_build_id_text(path, slash);
                    match parse_build_id(text.as_str()) {
                        Ok(id) => {
                            let destination = spell_link_destination(entry, slash);
                            assert(destination@[0] == '/');
                            // The call does not fail on a path that starts at the root.
                            match absolutize(destination.as_str()) {
                                Some(target) => build_ids.insert(id, target),
                                None => {},
                            }
                        },
                        Err(_) => {},
                    }
                }
            },
            None => {},
        }
    } else if starts_with(path, DWZ_DEBUG_INFO_PATH) {
        *has_dwz = true;
    }
}

/// Goes through the file list of a debuginfo package and collects its
/// build-id links, and whether it holds deduplicated debug images.  The
/// paths that the links resolve to are canonical.
pub fn collect_build_ids(entries: &Vec<FileEntry>) -> (r: (BuildIdPaths, bool))
    ensures
        links_of(entry_views(entries@)) == (Links { build_ids: r.0@, has_dwz: r.1 }),
        all_canonical(r.0@),
{
    let mut build_ids = BuildIdPaths::new();
    let mut has_dwz = false;
    let mut i: usize = 0;
    let ghost views = entry_views(entries@);
    assert(views.subrange(0, 0) =~= Seq::<FileEntryView>::empty());
    while i < entries.len()
        invariant
            i <= entries.len(),
            views == entry_views(entries@),
            links_of(views.subrange(0, i as int)) == (Links { build_ids: build_ids@, has_dwz }),
            all_canonical(build_ids@),
        decreases entries.len() - i,
    {
        proof {
            let next = views.subrange(0, i + 1);
            assert(next.drop_last() =~= views.subrange(0, i as int));
            assert(next.last() == entries@[i as int]@);
        }
        scan_entry(&entries[i], &mut build_ids, &mut has_dwz);
        i += 1;
    }
    assert(views.subrange(0, i as int) =~= views);
    (build_ids, has_dwz)
}

} // verus!
