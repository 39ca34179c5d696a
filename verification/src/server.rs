//! The server: the records, the index over them, and how both are built.

use vstd::prelude::*;
use vstd::string::StringExecFns;

use crate::build_id::BuildId;
use crate::index::{count_of, BuildIdIndex};
use crate::package::{RPMFile, RPMKind};
use crate::records::{
    holds, index_build_ids, index_of, lemma_index_of_push, lemma_last_holder, make_record,
    records_upto, warning_views, warnings_upto, DebugInfoRPM, DebugInfoRPMView, IndexWarning,
};
use crate::siblings::{package_views, SourceChains};

verus! {

/// The index over a tree of packages.
pub struct Server {
    root_path: String,
    debug_info_rpms: Vec<DebugInfoRPM>,
    build_ids: BuildIdIndex,
    total_byte_size: u64,
}

/// The mathematical value of a `Server`.
pub struct ServerView {
    /// The root of the package tree.
    pub root_path: Seq<char>,
    /// The records, one for each debuginfo package.
    pub debug_info_rpms: Seq<DebugInfoRPMView>,
    /// The position of the record that each build-id leads to.
    pub build_ids: Map<Seq<u8>, int>,
    /// The sum of the sizes of the package files.
    pub total_byte_size: u64,
}

impl ServerView {
    /// The build-ids lead where the records say: each id that a record
    /// holds leads to the last record that holds it, and no other id leads
    /// anywhere.
    pub open spec fn wf(self) -> bool {
        self.build_ids == index_of(self.debug_info_rpms)
    }
}

impl View for Server {
    type V = ServerView;

    closed spec fn view(&self) -> ServerView {
        ServerView {
            root_path: self.root_path@,
            debug_info_rpms: self.debug_info_rpms@.map_values(|r: DebugInfoRPM| r@),
            build_ids: self.build_ids@,
            total_byte_size: self.total_byte_size,
        }
    }
}

/// Every build-id of the index leads to a record that holds it.
pub proof fn lemma_indexed_record_holds_id(server: ServerView, id: Seq<u8>)
    requires
        server.wf(),
        server.build_ids.contains_key(id),
    ensures
        0 <= server.build_ids[id] < server.debug_info_rpms.len(),
        holds(server.debug_info_rpms[server.build_ids[id]], id),
{
    lemma_last_holder(server.debug_info_rpms, id);
}

/// The index leads to records of the list and to nothing else: every
/// position in it is a position of the list of records.
pub proof fn lemma_index_within_records(server: ServerView)
    requires
        server.wf(),
    ensures
        forall|id: Seq<u8>| #[trigger]
            server.build_ids.contains_key(id) ==> 0 <= server.build_ids[id]
                < server.debug_info_rpms.len(),
{
    assert forall|id: Seq<u8>| #[trigger] server.build_ids.contains_key(id) implies 0
        <= server.build_ids[id] < server.debug_info_rpms.len() by {
        lemma_last_holder(server.debug_info_rpms, id);
    }
}

/// Every build-id that a record holds is in the index, and leads to that
/// record unless a later record holds it too: the later record wins.
pub proof fn lemma_held_id_is_indexed(server: ServerView, at: int, id: Seq<u8>)
    requires
        server.wf(),
        0 <= at < server.debug_info_rpms.len(),
        holds(server.debug_info_rpms[at], id),
    ensures
        server.build_ids.contains_key(id),
        at <= server.build_ids[id] < server.debug_info_rpms.len(),
        (forall|j: int|
            at < j < server.debug_info_rpms.len() ==> !holds(
                #[trigger] server.debug_info_rpms[j],
                id,
            )) ==> server.build_ids[id] == at,
{
    lemma_last_holder(server.debug_info_rpms, id);
}

impl Server {
    /// Whether the build-ids lead where the records say.
    pub closed spec fn wf(&self) -> bool {
        self@.wf() && self.build_ids.wf()
    }

    /// The view of a well-formed server is well-formed.
    pub proof fn lemma_view_wf(&self)
        requires
            self.wf(),
        ensures
            self@.wf(),
    {
    }

    /// A server for the package tree below `root_folder`, with an empty
    /// index.
    pub fn new(root_folder: &str) -> (r: Self)
        ensures
            r.wf(),
            r@.root_path == root_folder@,
            r@.debug_info_rpms == Seq::<DebugInfoRPMView>::empty(),
            r@.build_ids == Map::<Seq<u8>, int>::empty(),
            r@.total_byte_size == 0,
    {
        let r = Server {
            root_path: String::from_str(root_folder),
            debug_info_rpms: Vec::new(),
            build_ids: BuildIdIndex::new(),
            total_byte_size: 0,
        };
        assert(r@.debug_info_rpms =~= Seq::<DebugInfoRPMView>::empty());
        assert(r@.build_ids =~= index_of(r@.debug_info_rpms));
        r
    }

    /// Builds the index over the analysed packages `rpms`, whose files
    /// take up `total_byte_size` bytes.
    ///
    /// Every debuginfo package gets a record, in the order of the
    /// packages, with the paths of its binary and its debug-source
    /// sibling as far as `rpms` holds them; the records are appended to
    /// those that the server has.  Every build-id of a new record then
    /// leads to that record.  The warnings tell of build-ids that two
    /// debuginfo packages hold and of binary packages that cannot be
    /// told apart; they are no failure, the index is complete.
    pub fn walk(&mut self, total_byte_size: u64, rpms: &Vec<RPMFile>) -> (warnings: Vec<
        IndexWarning,
    >)
        requires
            old(self).wf(),
        ensures
            final(self).wf(),
            final(self)@.root_path == old(self)@.root_path,
            final(self)@.total_byte_size == total_byte_size,
            final(self)@.debug_info_rpms == old(self)@.debug_info_rpms + records_upto(
                package_views(rpms@),
                rpms.len() as int,
            ),
            warning_views(warnings@) == warnings_upto(
                old(self)@.debug_info_rpms,
                package_views(rpms@),
                rpms.len() as int,
            ),
    {
        let mut warnings: Vec<IndexWarning> = Vec::new();
        let chains = SourceChains::new(rpms);
        self.total_byte_size = total_byte_size;
        let ghost packages = package_views(rpms@);
        let ghost before = old(self)@.debug_info_rpms;
        assert(self@.debug_info_rpms =~= before + records_upto(packages, 0));
        assert(warning_views(warnings@) =~= warnings_upto(before, packages, 0));
        let mut i: usize = 0;
        while i < rpms.len()
            invariant
                i <= rpms.len(),
                packages == package_views(rpms@),
                chains.chains(packages, rpms.len() as int),
                self.wf(),
                self@.root_path == old(self)@.root_path,
                self@.total_byte_size == total_byte_size,
                self@.debug_info_rpms == before + records_upto(packages, i as int),
                warning_views(warnings@) == warnings_upto(before, packages, i as int),
            decreases rpms.len() - i,
        {
            let rpm = &rpms[i];
            assert(packages[i as int] == rpm@);
            match &rpm.kind {
                RPMKind::DebugInfo { build_ids } => {
                    let ghost records = self@.debug_info_rpms;
                    let record = make_record(rpms, &chains, rpm, build_ids);
                    let position = self.debug_info_rpms.len();
                    let ghost record_view = record@;
                    self.debug_info_rpms.push(record);
                    assert(self@.debug_info_rpms =~= records.push(record_view));
                    index_build_ids(
                        &mut self.build_ids,
                        build_ids,
                        position,
                        rpm.path.as_str(),
                        &mut warnings,
                    );
                    proof {
                        lemma_index_of_push(records, record_view);
                        assert(records.push(record_view) =~= before + records_upto(
                            packages,
                            i + 1,
                        ));
                    }
                },
                RPMKind::Binary => {
                    if chains.find_earlier_binary(rpms, i).is_some() {
                        let ghost reported = warning_views(warnings@);
                        let warning = IndexWarning::DuplicateBinary { rpm_path: rpm.path.clone() };
                        warnings.push(warning);
                        assert(warning_views(warnings@) =~= reported.push(warning@));
                    }
                },
                RPMKind::DebugSource => {},
            }
            i += 1;
        }
        warnings
    }
}

/// The record that a build-id leads to.
pub open spec fn record_for(server: ServerView, id: Seq<u8>) -> Option<DebugInfoRPMView> {
    if server.build_ids.contains_key(id) {
        Some(server.debug_info_rpms[server.build_ids[id]])
    } else {
        None
    }
}

impl Server {
    /// The root of the package tree.
    pub fn root_path(&self) -> (r: &str)
        ensures
            r@ == self@.root_path,
    {
        self.root_path.as_str()
    }

    /// The sum of the sizes of the package files that were indexed last.
    pub fn total_byte_size(&self) -> (r: u64)
        ensures
            r == self@.total_byte_size,
    {
        self.total_byte_size
    }

    /// The number of build-ids that lead to a record.
    pub fn build_id_count(&self) -> (r: usize)
        requires
            self.wf(),
        ensures
            self@.build_ids.dom().finite(),
            r == count_of(self@.build_ids.dom().len()),
    {
        self.build_ids.len()
    }

    /// The number of records.
    pub fn record_count(&self) -> (r: usize)
        ensures
            r == self@.debug_info_rpms.len(),
    {
        self.debug_info_rpms.len()
    }

    /// The record at `position`.
    pub fn record_at(&self, position: usize) -> (r: &DebugInfoRPM)
        requires
            position < self@.debug_info_rpms.len(),
        ensures
            r@ == self@.debug_info_rpms[position as int],
    {
        &self.debug_info_rpms[position]
    }

    /// The record that `build_id` leads to, if it leads to one.
    pub fn record(&self, build_id: &BuildId) -> (r: Option<&DebugInfoRPM>)
        requires
            self.wf(),
        ensures
            match r {
                Some(record) => record_for(self@, build_id@) == Some(record@),
                None => record_for(self@, build_id@) is None,
            },
    {
        match self.build_ids.get(build_id) {
            Some(position) => {
                proof {
                    lemma_indexed_record_holds_id(self@, build_id@);
                }
                Some(&self.debug_info_rpms[position])
            },
            None => None,
        }
    }
}

} // verus!
