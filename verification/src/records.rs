//! The records of the debuginfo packages and the index over them.

use vstd::prelude::*;
use vstd::string::StringExecFns;

use crate::build_id::BuildId;
use crate::index::BuildIdIndex;
use crate::package::{RPMFile, RPMFileView, RPMKindView};
use crate::paths::{ids_of, lemma_path_of_some, path_of, BuildIdPaths};
use crate::siblings::{last_sibling, package_views, sibling_path, SourceChains};

verus! {

/// One debuginfo package with its siblings.
#[derive(Debug, Clone, PartialEq, Eq)]
pub struct DebugInfoRPM {
    /// Where the debuginfo package lies.
    pub rpm_path: String,
    /// Where the package with the stripped binaries lies, if it was found.
    pub binary_rpm_path: Option<String>,
    /// Where the package with the sources lies, if it was found.
    pub source_rpm: Option<String>,
    /// The build-ids of the package, each with the payload path of its
    /// debug file.
    pub build_id_to_path: BuildIdPaths,
}

/// The mathematical value of a `DebugInfoRPM`.
pub struct DebugInfoRPMView {
    pub rpm_path: Seq<char>,
    pub binary_rpm_path: Option<Seq<char>>,
    pub source_rpm: Option<Seq<char>>,
    pub build_id_to_path: Seq<(Seq<u8>, Seq<char>)>,
}

/// The characters of a string that may be absent.
pub open spec fn text_of(text: Option<String>) -> Option<Seq<char>> {
    match text {
        Some(t) => Some(t@),
        None => None,
    }
}

impl View for DebugInfoRPM {
    type V = DebugInfoRPMView;

    open spec fn view(&self) -> DebugInfoRPMView {
        DebugInfoRPMView {
            rpm_path: self.rpm_path@,
            binary_rpm_path: text_of(self.binary_rpm_path),
            source_rpm: text_of(self.source_rpm),
            build_id_to_path: self.build_id_to_path@,
        }
    }
}

/// Something that a maintainer of the package tree should hear of.
#[derive(Debug, Clone, PartialEq, Eq)]
pub enum IndexWarning {
    /// The build-id is held by the debuginfo package at `rpm_path` and by
    /// one that was indexed before it; the later package has taken it over.
    DuplicateBuildId { build_id: BuildId, rpm_path: String },
    /// The binary package at `rpm_path` has the architecture, the source
    /// package and the name of a binary package before it; where a
    /// debuginfo package matches both, the later one is taken.
    DuplicateBinary { rpm_path: String },
}

/// The mathematical value of a `IndexWarning`.
pub enum IndexWarningView {
    DuplicateBuildId { build_id: Seq<u8>, rpm_path: Seq<char> },
    DuplicateBinary { rpm_path: Seq<char> },
}

impl View for IndexWarning {
    type V = IndexWarningView;

    open spec fn view(&self) -> IndexWarningView {
        match self {
            IndexWarning::DuplicateBuildId { build_id, rpm_path } => IndexWarningView::DuplicateBuildId {
                build_id: build_id@,
                rpm_path: rpm_path@,
            },
            IndexWarning::DuplicateBinary { rpm_path } => IndexWarningView::DuplicateBinary {
                rpm_path: rpm_path@,
            },
        }
    }
}

/// The views of a list of warnings.
pub open spec fn warning_views(warnings: Seq<IndexWarning>) -> Seq<IndexWarningView> {
    warnings.map_values(|w: IndexWarning| w@)
}

/// The build-ids of a package: those of a debuginfo package, none of any
/// other.
pub open spec fn build_ids_of(package: RPMFileView) -> Seq<(Seq<u8>, Seq<char>)> {
    match package.kind {
        RPMKindView::DebugInfo { build_ids } => build_ids,
        _ => Seq::empty(),
    }
}

/// The record of the debuginfo package `debug` among the packages `rpms`.
pub open spec fn record_of(rpms: Seq<RPMFileView>, debug: RPMFileView) -> DebugInfoRPMView {
    DebugInfoRPMView {
        rpm_path: debug.path,
        binary_rpm_path: sibling_path(rpms, debug, true),
        source_rpm: sibling_path(rpms, debug, false),
        build_id_to_path: build_ids_of(debug),
    }
}

/// The records of the debuginfo packages among the first `n` packages, in
/// the order of the packages.
pub open spec fn records_upto(rpms: Seq<RPMFileView>, n: int) -> Seq<DebugInfoRPMView>
    decreases n,
{
    if n <= 0 {
        Seq::empty()
    } else if rpms[n - 1].kind is DebugInfo {
        records_upto(rpms, n - 1).push(record_of(rpms, rpms[n - 1]))
    } else {
        records_upto(rpms, n - 1)
    }
}

/// The record holds the build-id.
pub open spec fn holds(record: DebugInfoRPMView, id: Seq<u8>) -> bool {
    path_of(record.build_id_to_path, id) is Some
}

/// The position of the last record that holds the build-id.
pub open spec fn last_holder(records: Seq<DebugInfoRPMView>, id: Seq<u8>) -> Option<int>
    decreases records.len(),
{
    if records.len() == 0 {
        None
    } else if holds(records.last(), id) {
        Some(records.len() - 1)
    } else {
        last_holder(records.drop_last(), id)
    }
}

/// The index over a list of records: every build-id that a record holds
/// leads to the last record that holds it.
pub open spec fn index_of(records: Seq<DebugInfoRPMView>) -> Map<Seq<u8>, int> {
    Map::new(
        |id: Seq<u8>| last_holder(records, id) is Some,
        |id: Seq<u8>| last_holder(records, id).unwrap(),
    )
}

/// An index after the first `n` of `entries` have been inserted for the
/// record at `position`.
pub open spec fn index_with(
    index: Map<Seq<u8>, int>,
    entries: Seq<(Seq<u8>, Seq<char>)>,
    position: int,
    n: int,
) -> Map<Seq<u8>, int>
    decreases n,
{
    if n <= 0 {
        index
    } else {
        index_with(index, entries, position, n - 1).insert(entries[n - 1].0, position)
    }
}

/// The warnings that inserting the first `n` of `entries` for the record
/// at `position` gives rise to: one for each build-id that led to another
/// record when it was inserted.
pub open spec fn clashes(
    index: Map<Seq<u8>, int>,
    entries: Seq<(Seq<u8>, Seq<char>)>,
    position: int,
    rpm_path: Seq<char>,
    n: int,
) -> Seq<IndexWarningView>
    decreases n,
{
    if n <= 0 {
        Seq::empty()
    } else {
        let before = index_with(index, entries, position, n - 1);
        let id = entries[n - 1].0;
        if before.contains_key(id) && before[id] != position {
            clashes(index, entries, position, rpm_path, n - 1).push(
                IndexWarningView::DuplicateBuildId { build_id: id, rpm_path },
            )
        } else {
            clashes(index, entries, position, rpm_path, n - 1)
        }
    }
}

/// The warnings that indexing the first `n` packages gives rise to, on
/// top of the records `before`, in the order of the packages.  A binary
/// package is reported where a binary package before it has the same
/// architecture, source package and name.  Of a debuginfo package, each
/// build-id is reported that an earlier record held.
pub open spec fn warnings_upto(before: Seq<DebugInfoRPMView>, rpms: Seq<RPMFileView>, n: int)
    -> Seq<IndexWarningView>
    decreases n,
{
    if n <= 0 {
        Seq::empty()
    } else {
        let package = rpms[n - 1];
        match package.kind {
            RPMKindView::DebugInfo { build_ids } => {
                let records = before + records_upto(rpms, n - 1);
                warnings_upto(before, rpms, n - 1) + clashes(
                    index_of(records),
                    build_ids,
                    records.len() as int,
                    package.path,
                    build_ids.len() as int,
                )
            },
            RPMKindView::Binary => if last_sibling(rpms, package, true, n - 1) is Some {
                warnings_upto(before, rpms, n - 1).push(
                    IndexWarningView::DuplicateBinary { rpm_path: package.path },
                )
            } else {
                warnings_upto(before, rpms, n - 1)
            },
            RPMKindView::DebugSource => warnings_upto(before, rpms, n - 1),
        }
    }
}

/// What the last holder of a build-id is.
pub proof fn lemma_last_holder(records: Seq<DebugInfoRPMView>, id: Seq<u8>)
    ensures
        match last_holder(records, id) {
            Some(at) => 0 <= at < records.len() && holds(records[at], id) && forall|j: int|
                at < j < records.len() ==> !holds(#[trigger] records[j], id),
            None => forall|j: int| 0 <= j < records.len() ==> !holds(#[trigger] records[j], id),
        },
    decreases records.len(),
{
    if records.len() > 0 && !holds(records.last(), id) {
        lemma_last_holder(records.drop_last(), id);
        assert forall|j: int| 0 <= j < records.len() - 1 implies records.drop_last()[j]
            == records[j] by {}
        match last_holder(records.drop_last(), id) {
            Some(at) => {
                assert(records.drop_last()[at] == records[at]);
                assert forall|j: int| at < j < records.len() implies !holds(
                    #[trigger] records[j],
                    id,
                ) by {
                    if j < records.len() - 1 {
                        assert(records.drop_last()[j] == records[j]);
                    }
                }
            },
            None => {
                assert forall|j: int| 0 <= j < records.len() implies !holds(
                    #[trigger] records[j],
                    id,
                ) by {
                    if j < records.len() - 1 {
                        assert(records.drop_last()[j] == records[j]);
                    }
                }
            },
        }
    }
}

/// What `index_with` comes to: the inserted build-ids lead to `position`,
/// all others lead where they led before.
pub proof fn lemma_index_with(
    index: Map<Seq<u8>, int>,
    entries: Seq<(Seq<u8>, Seq<char>)>,
    position: int,
    n: int,
    id: Seq<u8>,
)
    requires
        0 <= n <= entries.len(),
    ensures
        ({
            let after = index_with(index, entries, position, n);
            let inserted = ids_of(entries.subrange(0, n)).contains(id);
            &&& after.contains_key(id) <==> inserted || index.contains_key(id)
            &&& inserted ==> after[id] == position
            &&& !inserted && index.contains_key(id) ==> after[id] == index[id]
        }),
    decreases n,
{
    let ids = ids_of(entries.subrange(0, n));
    if n > 0 {
        lemma_index_with(index, entries, position, n - 1, id);
        let shorter = ids_of(entries.subrange(0, n - 1));
        assert(ids.drop_last() =~= shorter);
        assert(ids.last() == entries[n - 1].0);
        if shorter.contains(id) {
            let j = choose|j: int| 0 <= j < shorter.len() && shorter[j] == id;
            assert(ids[j] == id);
        }
        if entries[n - 1].0 == id {
            assert(ids[n - 1] == id);
        }
        if ids.contains(id) && entries[n - 1].0 != id {
            let j = choose|j: int| 0 <= j < ids.len() && ids[j] == id;
            assert(shorter[j] == id);
        }
    }
}

/// Inserting all build-ids of a new record into the index over a list of
/// records gives the index over the list with the record appended.
pub proof fn lemma_index_of_push(records: Seq<DebugInfoRPMView>, record: DebugInfoRPMView)
    ensures
        index_with(
            index_of(records),
            record.build_id_to_path,
            records.len() as int,
            record.build_id_to_path.len() as int,
        ) == index_of(records.push(record)),
{
    let entries = record.build_id_to_path;
    let after = index_with(index_of(records), entries, records.len() as int, entries.len() as int);
    let longer = records.push(record);
    assert(longer.drop_last() =~= records);
    assert(entries.subrange(0, entries.len() as int) =~= entries);
    assert forall|id: Seq<u8>|
        (#[trigger] after.contains_key(id) <==> index_of(longer).contains_key(id)) && (
        after.contains_key(id) ==> after[id] == index_of(longer)[id]) by {
        lemma_index_with(index_of(records), entries, records.len() as int, entries.len() as int, id);
        lemma_path_of_some(entries, id);
    }
    assert(after =~= index_of(longer));
}

/// A copy of the path of the package at `at`, if there is a position.
fn path_at(rpms: &Vec<RPMFile>, at: Option<usize>) -> (r: Option<String>)
    requires
        at matches Some(k) ==> k < rpms.len(),
    ensures
        text_of(r) == match at {
            Some(k) => Some(package_views(rpms@)[k as int].path),
            None => None,
        },
{
    match at {
        Some(k) => Some(rpms[k].path.clone()),
        None => None,
    }
}

/// Makes the record of the debuginfo package `debug`, which has the
/// build-ids `build_ids`, among the packages `rpms`.
pub fn make_record(
    rpms: &Vec<RPMFile>,
    chains: &SourceChains,
    debug: &RPMFile,
    build_ids: &BuildIdPaths,
) -> (r: DebugInfoRPM)
    requires
        chains.chains(package_views(rpms@), rpms.len() as int),
        debug@.kind == (RPMKindView::DebugInfo { build_ids: build_ids@ }),
    ensures
        r@ == record_of(package_views(rpms@), debug@),
{
    let binary = chains.find_sibling(rpms, debug, true);
    let source = chains.find_sibling(rpms, debug, false);
    DebugInfoRPM {
        rpm_path: debug.path.clone(),
        binary_rpm_path: path_at(rpms, binary),
        source_rpm: path_at(rpms, source),
        build_id_to_path: build_ids.duplicate(),
    }
}

/// Lets every build-id of `entries` lead to `position`, and reports each
/// that led elsewhere before.
pub fn index_build_ids(
    index: &mut BuildIdIndex,
    entries: &BuildIdPaths,
    position: usize,
    rpm_path: &str,
    warnings: &mut Vec<IndexWarning>,
)
    requires
        old(index).wf(),
    ensures
        final(index).wf(),
        final(index)@ == index_with(
            old(index)@,
            entries@,
            position as int,
            entries@.len() as int,
        ),
        warning_views(final(warnings)@) == warning_views(old(warnings)@) + clashes(
            old(index)@,
            entries@,
            position as int,
            rpm_path@,
            entries@.len() as int,
        ),
{
    let mut e: usize = 0;
    assert(warning_views(warnings@) =~= warning_views(old(warnings)@) + clashes(
        old(index)@,
        entries@,
        position as int,
        rpm_path@,
        0,
    ));
    while e < entries.len()
        invariant
            e <= entries@.len(),
            index.wf(),
            index@ == index_with(old(index)@, entries@, position as int, e as int),
            warning_views(warnings@) == warning_views(old(warnings)@) + clashes(
                old(index)@,
                entries@,
                position as int,
                rpm_path@,
                e as int,
            ),
        decreases entries@.len() - e,
    {
        let build_id = entries.id_at(e);
        let ghost reported = warning_views(warnings@);
        match index.insert(build_id, position) {
            Some(other) => {
                if other != position {
                    let warning = IndexWarning::DuplicateBuildId {
                        build_id: *build_id,
                        rpm_path: String::from_str(rpm_path),
                    };
                    warnings.push(warning);
                    assert(warning_views(warnings@) =~= reported.push(warning@));
                }
            },
            None => {},
        }
        e += 1;
        assert(warning_views(warnings@) =~= warning_views(old(warnings)@) + clashes(
            old(index)@,
            entries@,
            position as int,
            rpm_path@,
            e as int,
        ));
    }
}

} // verus!
