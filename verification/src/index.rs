//! The map from build-ids to the positions of their records.
//!
//! vstd specifies hash maps whose keys are integers or text.  A build-id
//! is 20 bytes, which is neither, so the map is kept under the hexadecimal
//! spelling of the ids: each spelling stands for one id and no other.

use vstd::hash_map::StringHashMap;
use vstd::prelude::*;

use crate::build_id::{lemma_lower_hex_injective, lower_hex, to_hex, BuildId};

verus! {

/// A count as a machine word: the number itself, or the largest word
/// where the number is larger.
pub open spec fn count_of(n: nat) -> usize {
    if n <= usize::MAX {
        n as usize
    } else {
        usize::MAX
    }
}

/// A map from build-ids to positions.  It is kept as a hash map under the
/// hexadecimal form of the ids, beside the number of its ids.
pub struct BuildIdIndex {
    slots: StringHashMap<usize>,
    count: usize,
}

impl View for BuildIdIndex {
    type V = Map<Seq<u8>, int>;

    closed spec fn view(&self) -> Map<Seq<u8>, int> {
        Map::new(
            |id: Seq<u8>| self.slots@.contains_key(lower_hex(id)),
            |id: Seq<u8>| self.slots@[lower_hex(id)] as int,
        )
    }
}

impl BuildIdIndex {
    /// The map has finitely many ids, and knows how many.
    pub closed spec fn wf(&self) -> bool {
        &&& self@.dom().finite()
        &&& self.count == count_of(self@.dom().len())
    }

    /// The empty map.
    pub fn new() -> (r: Self)
        ensures
            r.wf(),
            r@ == Map::<Seq<u8>, int>::empty(),
    {
        let r = BuildIdIndex { slots: StringHashMap::new(), count: 0 };
        assert(r@ =~= Map::<Seq<u8>, int>::empty());
        assert(r@.dom() =~= Set::<Seq<u8>>::empty());
        r
    }

    /// Maps `build_id` to `position`.  Returns the position that it was
    /// mapped to before, if it was mapped.
    pub fn insert(&mut self, build_id: &BuildId, position: usize) -> (previous: Option<usize>)
        requires
            old(self).wf(),
        ensures
            final(self).wf(),
            final(self)@ == old(self)@.insert(build_id@, position as int),
            match previous {
                Some(before) => old(self)@.contains_key(build_id@) && old(self)@[build_id@]
                    == before,
                None => !old(self)@.contains_key(build_id@),
            },
    {
        let key = to_hex(build_id);
        let previous = match self.slots.get(key.as_str()) {
            Some(before) => Some(*before),
            None => None,
        };
        self.slots.insert(key, position);
        if previous.is_none() && self.count < usize::MAX {
            self.count = self.count + 1;
        }
        proof {
            assert forall|id: Seq<u8>| id != build_id@ implies #[trigger] lower_hex(id)
                != lower_hex(build_id@) by {
                if lower_hex(id) == lower_hex(build_id@) {
                    lemma_lower_hex_injective(id, build_id@);
                }
            }
            assert(self@ =~= old(self)@.insert(build_id@, position as int));
            assert(self@.dom() =~= old(self)@.dom().insert(build_id@));
        }
        previous
    }

    /// The position that `build_id` is mapped to, if it is mapped.
    pub fn get(&self, build_id: &BuildId) -> (r: Option<usize>)
        ensures
            match r {
                Some(position) => self@.contains_key(build_id@) && self@[build_id@] == position,
                None => !self@.contains_key(build_id@),
            },
    {
        let key = to_hex(build_id);
        match self.slots.get(key.as_str()) {
            Some(position) => Some(*position),
            None => None,
        }
    }

    /// The number of build-ids in the map.
    pub fn len(&self) -> (r: usize)
        requires
            self.wf(),
        ensures
            self@.dom().finite(),
            r == count_of(self@.dom().len()),
    {
        self.count
    }
}

} // verus!
