//! The siblings of a debuginfo package: the binary package and the
//! debug-source package that were built from the same source package.
//!
//! Siblings name the same source package.  The packages that do are
//! chained, so that the search for a sibling goes through those packages
//! only and not through all.

use vstd::hash_map::StringHashMap;
use vstd::prelude::*;

use crate::package::{RPMFile, RPMFileView, RPMKind};
use crate::text::str_eq;

verus! {

/// The views of a list of packages.
pub open spec fn package_views(rpms: Seq<RPMFile>) -> Seq<RPMFileView> {
    rpms.map_values(|p: RPMFile| p@)
}

/// `candidate` is the sibling of the debuginfo package `debug`: the binary
/// package of the same architecture, source package and name, or the
/// debug-source package of the same architecture and source package.
pub open spec fn is_sibling(candidate: RPMFileView, debug: RPMFileView, binary: bool) -> bool {
    &&& candidate.arch == debug.arch
    &&& candidate.source_rpm == debug.source_rpm
    &&& if binary {
        candidate.kind is Binary && candidate.name == debug.name
    } else {
        candidate.kind is DebugSource
    }
}

/// The position of the last sibling of `debug` among the first `n`
/// packages.
pub open spec fn last_sibling(rpms: Seq<RPMFileView>, debug: RPMFileView, binary: bool, n: int)
    -> Option<int>
    decreases n,
{
    if n <= 0 {
        None
    } else if is_sibling(rpms[n - 1], debug, binary) {
        Some(n - 1)
    } else {
        last_sibling(rpms, debug, binary, n - 1)
    }
}

/// How many of the first `n` packages are siblings of `debug`.
pub open spec fn sibling_count(rpms: Seq<RPMFileView>, debug: RPMFileView, binary: bool, n: int)
    -> nat
    decreases n,
{
    if n <= 0 {
        0
    } else if is_sibling(rpms[n - 1], debug, binary) {
        sibling_count(rpms, debug, binary, n - 1) + 1
    } else {
        sibling_count(rpms, debug, binary, n - 1)
    }
}

/// The path of the sibling of `debug`.  Where several packages match, the
/// last one is the sibling.
pub open spec fn sibling_path(rpms: Seq<RPMFileView>, debug: RPMFileView, binary: bool) -> Option<
    Seq<char>,
> {
    match last_sibling(rpms, debug, binary, rpms.len() as int) {
        Some(k) => Some(rpms[k].path),
        None => None,
    }
}

/// What the last sibling is: a sibling after which no sibling comes.
pub proof fn lemma_last_sibling(rpms: Seq<RPMFileView>, debug: RPMFileView, binary: bool, n: int)
    requires
        0 <= n <= rpms.len(),
    ensures
        match last_sibling(rpms, debug, binary, n) {
            Some(k) => 0 <= k < n && is_sibling(rpms[k], debug, binary) && forall|j: int|
                k < j < n ==> !is_sibling(#[trigger] rpms[j], debug, binary),
            None => forall|j: int| 0 <= j < n ==> !is_sibling(#[trigger] rpms[j], debug, binary),
        },
        last_sibling(rpms, debug, binary, n) is Some <==> sibling_count(rpms, debug, binary, n)
            >= 1,
    decreases n,
{
    if n > 0 {
        lemma_last_sibling(rpms, debug, binary, n - 1);
    }
}

/// Where a debuginfo package has one sibling and no more, that one is its
/// sibling wherever it stands among the packages.
pub proof fn lemma_only_sibling(
    rpms: Seq<RPMFileView>,
    debug: RPMFileView,
    binary: bool,
    n: int,
    k: int,
)
    requires
        0 <= k < n <= rpms.len(),
        is_sibling(rpms[k], debug, binary),
        sibling_count(rpms, debug, binary, n) == 1,
    ensures
        last_sibling(rpms, debug, binary, n) == Some(k),
    decreases n,
{
    lemma_last_sibling(rpms, debug, binary, n - 1);
    if k < n - 1 {
        assert(is_sibling(rpms[k], debug, binary));
        lemma_only_sibling(rpms, debug, binary, n - 1, k);
    }
}

/// The position of the last of the first `n` packages that names the
/// source package `source`.
pub open spec fn last_with_source(rpms: Seq<RPMFileView>, source: Seq<char>, n: int) -> Option<int>
    decreases n,
{
    if n <= 0 {
        None
    } else if rpms[n - 1].source_rpm == source {
        Some(n - 1)
    } else {
        last_with_source(rpms, source, n - 1)
    }
}

/// What `last_with_source` finds is the last package below `n` that names
/// the source package.
pub proof fn lemma_last_with_source(rpms: Seq<RPMFileView>, source: Seq<char>, n: int)
    requires
        0 <= n <= rpms.len(),
    ensures
        match last_with_source(rpms, source, n) {
            Some(k) => 0 <= k < n && rpms[k].source_rpm == source && forall|j: int|
                k < j < n ==> (#[trigger] rpms[j]).source_rpm != source,
            None => forall|j: int| 0 <= j < n ==> (#[trigger] rpms[j]).source_rpm != source,
        },
    decreases n,
{
    if n > 0 && rpms[n - 1].source_rpm != source {
        lemma_last_with_source(rpms, source, n - 1);
    }
}

/// An optional position as an optional number.
pub open spec fn position_of(at: Option<usize>) -> Option<int> {
    match at {
        Some(k) => Some(k as int),
        None => None,
    }
}

/// The packages chained by their source package: from the last package
/// that names a source package, each leads to the one before it that
/// names the same.
pub struct SourceChains {
    last: StringHashMap<usize>,
    previous: Vec<Option<usize>>,
}

impl SourceChains {
    /// The chains are those of the first `n` of the packages `rpms`.
    pub closed spec fn chains(&self, rpms: Seq<RPMFileView>, n: int) -> bool {
        &&& 0 <= n <= rpms.len()
        &&& self.previous@.len() == n
        &&& forall|i: int|
            0 <= i < n ==> position_of(#[trigger] self.previous@[i]) == last_with_source(
                rpms,
                rpms[i].source_rpm,
                i,
            )
        &&& forall|source: Seq<char>| #[trigger]
            self.last@.contains_key(source) <==> last_with_source(rpms, source, n) is Some
        &&& forall|source: Seq<char>| #[trigger]
            self.last@.contains_key(source) ==> last_with_source(rpms, source, n) == Some(
                self.last@[source] as int,
            )
    }

    /// Chains the packages `rpms`.
    pub fn new(rpms: &Vec<RPMFile>) -> (r: Self)
        ensures
            r.chains(package_views(rpms@), rpms.len() as int),
    {
        let ghost packages = package_views(rpms@);
        let mut chains = SourceChains { last: StringHashMap::new(), previous: Vec::new() };
        let mut i: usize = 0;
        while i < rpms.len()
            invariant
                i <= rpms.len(),
                packages == package_views(rpms@),
                chains.chains(packages, i as int),
            decreases rpms.len() - i,
        {
            let source = &rpms[i].source_rpm;
            assert(packages[i as int].source_rpm == source@);
            let before = match chains.last.get(source.as_str()) {
                Some(position) => Some(*position),
                None => None,
            };
            chains.previous.push(before);
            chains.last.insert(source.clone(), i);
            i += 1;
        }
        chains
    }

    /// Searches the first `below` of the packages `rpms` for the last
    /// sibling of `debug`, along the chain that begins at `start`.
    fn search(
        &self,
        rpms: &Vec<RPMFile>,
        debug: &RPMFile,
        binary: bool,
        start: Option<usize>,
        below: usize,
    ) -> (r: Option<usize>)
        requires
            self.chains(package_views(rpms@), rpms.len() as int),
            below <= rpms.len(),
            position_of(start) == last_with_source(
                package_views(rpms@),
                debug@.source_rpm,
                below as int,
            ),
        ensures
            position_of(r) == last_sibling(package_views(rpms@), debug@, binary, below as int),
            r matches Some(k) ==> k < below,
    {
        let ghost packages = package_views(rpms@);
        let ghost source = debug@.source_rpm;
        let mut next = start;
        let ghost mut limit = below as int;
        proof {
            lemma_last_sibling(packages, debug@, binary, below as int);
        }
        loop
            invariant
                packages == package_views(rpms@),
                source == debug@.source_rpm,
                self.chains(packages, rpms.len() as int),
                0 <= limit <= below <= rpms.len(),
                position_of(next) == last_with_source(packages, source, limit),
                forall|j: int|
                    limit <= j < below ==> !is_sibling(#[trigger] packages[j], debug@, binary),
                match last_sibling(packages, debug@, binary, below as int) {
                    Some(k) => 0 <= k < below && is_sibling(packages[k], debug@, binary)
                        && forall|j: int|
                        k < j < below ==> !is_sibling(#[trigger] packages[j], debug@, binary),
                    None => forall|j: int|
                        0 <= j < below ==> !is_sibling(#[trigger] packages[j], debug@, binary),
                },
            decreases limit,
        {
            proof {
                lemma_last_with_source(packages, source, limit);
            }
            let at = match next {
                Some(at) => at,
                None => {
                    return None;
                },
            };
            let candidate = &rpms[at];
            assert(packages[at as int] == candidate@);
            let kind_fits = if binary {
                match &candidate.kind {
                    RPMKind::Binary => str_eq(candidate.name.as_str(), debug.name.as_str()),
                    _ => false,
                }
            } else {
                match &candidate.kind {
                    RPMKind::DebugSource => true,
                    _ => false,
                }
            };
            if kind_fits && str_eq(candidate.arch.as_str(), debug.arch.as_str()) {
                assert(is_sibling(packages[at as int], debug@, binary));
                return Some(at);
            }
            next = self.previous[at];
            proof {
                limit = at as int;
            }
        }
    }

    /// Searches `rpms` for the sibling of the debuginfo package `debug`:
    /// a binary package if `binary` is set, a debug-source package
    /// otherwise.  Where several packages match, the last is the sibling.
    pub fn find_sibling(&self, rpms: &Vec<RPMFile>, debug: &RPMFile, binary: bool) -> (r: Option<
        usize,
    >)
        requires
            self.chains(package_views(rpms@), rpms.len() as int),
        ensures
            position_of(r) == last_sibling(
                package_views(rpms@),
                debug@,
                binary,
                rpms.len() as int,
            ),
            r matches Some(k) ==> k < rpms.len(),
    {
        let start = match self.last.get(debug.source_rpm.as_str()) {
            Some(position) => Some(*position),
            None => None,
        };
        self.search(rpms, debug, binary, start, rpms.len())
    }

    /// Searches the packages before the binary package at `at` for one of
    /// the same architecture, source package and name.  Returns the
    /// position of the last.
    pub fn find_earlier_binary(&self, rpms: &Vec<RPMFile>, at: usize) -> (r: Option<usize>)
        requires
            self.chains(package_views(rpms@), rpms.len() as int),
            at < rpms.len(),
        ensures
            position_of(r) == last_sibling(
                package_views(rpms@),
                package_views(rpms@)[at as int],
                true,
                at as int,
            ),
            r matches Some(k) ==> k < at,
    {
        assert(package_views(rpms@)[at as int] == rpms@[at as int]@);
        self.search(rpms, &rpms[at], true, self.previous[at], at)
    }
}

} // verus!
