//! The paths that the build-ids of one package lead to.
//!
//! A package has few build-ids, and they are gone through in order when
//! the index is built: they are kept as a list, in which a later entry for
//! an id overrides an earlier one.

use vstd::prelude::*;

use crate::build_id::{same_build_id, BuildId};

verus! {

/// One build-id and the payload path of the file it names.
#[derive(Debug, Clone, PartialEq, Eq)]
pub struct PathEntry {
    pub build_id: BuildId,
    pub path: String,
}

impl View for PathEntry {
    type V = (Seq<u8>, Seq<char>);

    open spec fn view(&self) -> Self::V {
        (self.build_id@, self.path@)
    }
}

/// The path recorded for `id`: the one of the last entry that names it.
pub open spec fn path_of(entries: Seq<(Seq<u8>, Seq<char>)>, id: Seq<u8>) -> Option<Seq<char>>
    decreases entries.len(),
{
    if entries.len() == 0 {
        None
    } else if entries.last().0 == id {
        Some(entries.last().1)
    } else {
        path_of(entries.drop_last(), id)
    }
}

/// The first components of a sequence of entries: the ids, in order.
pub open spec fn ids_of(entries: Seq<(Seq<u8>, Seq<char>)>) -> Seq<Seq<u8>> {
    entries.map_values(|e: (Seq<u8>, Seq<char>)| e.0)
}

/// A path is recorded for exactly the ids that some entry names.
pub proof fn lemma_path_of_some(entries: Seq<(Seq<u8>, Seq<char>)>, id: Seq<u8>)
    ensures
        path_of(entries, id) is Some <==> ids_of(entries).contains(id),
    decreases entries.len(),
{
    let ids = ids_of(entries);
    if entries.len() > 0 {
        let shorter = entries.drop_last();
        lemma_path_of_some(shorter, id);
        assert(ids_of(shorter) =~= ids.drop_last());
        if entries.last().0 == id {
            assert(ids[ids.len() - 1] == id);
        } else if ids.contains(id) {
            let i = choose|i: int| 0 <= i < ids.len() && ids[i] == id;
            assert(ids.drop_last()[i] == id);
        } else if ids.drop_last().contains(id) {
            let i = choose|i: int| 0 <= i < ids.drop_last().len() && ids.drop_last()[i] == id;
            assert(ids[i] == id);
        }
    }
}

/// Build-ids with their paths, in the order in which they were recorded.
/// An id recorded twice keeps its later path.
#[derive(Debug, Clone, PartialEq, Eq)]
pub struct BuildIdPaths {
    entries: Vec<PathEntry>,
}

impl View for BuildIdPaths {
    type V = Seq<(Seq<u8>, Seq<char>)>;

    closed spec fn view(&self) -> Self::V {
        self.entries@.map_values(|e: PathEntry| e@)
    }
}

impl BuildIdPaths {
    /// No entries.
    pub fn new() -> (r: Self)
        ensures
            r@ == Seq::<(Seq<u8>, Seq<char>)>::empty(),
    {
        let r = BuildIdPaths { entries: Vec::new() };
        assert(r@ =~= Seq::<(Seq<u8>, Seq<char>)>::empty());
        r
    }

    /// Records `path` for `build_id`.
    pub fn insert(&mut self, build_id: BuildId, path: String)
        ensures
            final(self)@ == old(self)@.push((build_id@, path@)),
    {
        self.entries.push(PathEntry { build_id, path });
        assert(self@ =~= old(self)@.push((build_id@, path@)));
    }

    /// The number of entries.
    pub fn len(&self) -> (r: usize)
        ensures
            r == self@.len(),
    {
        self.entries.len()
    }

    /// The build-id of the entry at `i`.
    pub fn id_at(&self, i: usize) -> (r: &BuildId)
        requires
            i < self@.len(),
        ensures
            r@ == self@[i as int].0,
    {
        &self.entries[i].build_id
    }

    /// The path of the entry at `i`.
    pub fn path_at(&self, i: usize) -> (r: &str)
        requires
            i < self@.len(),
        ensures
            r@ == self@[i as int].1,
    {
        self.entries[i].path.as_str()
    }

    /// The path recorded for `build_id`, if there is one.
    pub fn get(&self, build_id: &BuildId) -> (r: Option<&str>)
        ensures
            match r {
                Some(path) => path_of(self@, build_id@) == Some(path@),
                None => path_of(self@, build_id@) is None,
            },
    {
        let mut i: usize = self.entries.len();
        assert(self@.subrange(0, i as int) =~= self@);
        while i > 0
            invariant
                i <= self.entries.len(),
                path_of(self@, build_id@) == path_of(self@.subrange(0, i as int), build_id@),
            decreases i,
        {
            let ghost prefix = self@.subrange(0, i as int);
            assert(prefix.last() == self@[i - 1]);
            assert(prefix.drop_last() =~= self@.subrange(0, i - 1));
            if same_build_id(&self.entries[i - 1].build_id, build_id) {
                return Some(self.entries[i - 1].path.as_str());
            }
            i -= 1;
        }
        assert(self@.subrange(0, 0).len() == 0);
        None
    }

    /// A copy with the same entries.
    pub fn duplicate(&self) -> (r: Self)
        ensures
            r@ == self@,
    {
        let mut entries: Vec<PathEntry> = Vec::new();
        let mut i: usize = 0;
        while i < self.entries.len()
            invariant
                i <= self.entries.len(),
                entries.len() == i,
                forall|j: int| 0 <= j < i ==> entries@[j]@ == self.entries@[j]@,
            decreases self.entries.len() - i,
        {
            let entry = &self.entries[i];
            entries.push(PathEntry { build_id: entry.build_id, path: entry.path.clone() });
            i += 1;
        }
        let r = BuildIdPaths { entries };
        assert(r@ =~= self@);
        r
    }
}

} // verus!
