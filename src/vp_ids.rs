//! Enumeration of a saved state's virtual processors by id.

use vstd::prelude::*;

use crate::result_code::ResultCode;

verus! {

/// The ids from `start` up to, not including, `end`.
pub open spec fn id_range(start: u32, end: u32) -> Seq<u32> {
    Seq::new((end - start) as nat, |i: int| (start + i) as u32)
}

/// Walks the ids `0 .. count` of a saved state's virtual processors, in ascending order,
/// once. The count is fetched once, when the walk is made: a saved state is frozen.
#[derive(Debug, Clone, Copy, PartialEq, Eq, Structural)]
pub struct VirtualProcessorIds {
    current_id: u32,
    count: u32,
}

impl VirtualProcessorIds {
    /// The next id never passes the count.
    #[verifier::type_invariant]
    closed spec fn wf(&self) -> bool {
        self.current_id <= self.count
    }

    /// The ids that are still to come.
    pub closed spec fn remaining(&self) -> Seq<u32> {
        id_range(self.current_id, self.count)
    }

    /// The number of virtual processors being walked.
    pub closed spec fn spec_count(&self) -> u32 {
        self.count
    }

    /// How many ids the walk has given so far; the next one is this number.
    pub closed spec fn given(&self) -> u32 {
        self.current_id
    }

    /// A walk over the ids of `count` virtual processors.
    pub fn new(count: u32) -> (r: VirtualProcessorIds)
        ensures
            r.spec_count() == count,
            r.given() == 0,
            r.remaining() == id_range(0, count),
    {
        VirtualProcessorIds { current_id: 0, count }
    }

    /// A walk over the ids that the processor-count query answered; when that query
    /// failed there is no walk, only its error.
    pub fn from_count(count: Result<u32, ResultCode>) -> (r: Result<VirtualProcessorIds, ResultCode>)
        ensures
            count is Ok ==> r is Ok && r->Ok_0.spec_count() == count->Ok_0 && r->Ok_0.given() == 0
                && r->Ok_0.remaining() == id_range(0, count->Ok_0),
            count is Err ==> r == Err::<VirtualProcessorIds, ResultCode>(count->Err_0),
    {
        match count {
            Ok(count) => Ok(VirtualProcessorIds::new(count)),
            Err(error) => Err(error),
        }
    }

    /// The number of virtual processors being walked.
    pub fn count(&self) -> (r: u32)
        ensures
            r == self.spec_count(),
    {
        self.count
    }

    /// The next id, or `None` once every id has been given; a finished walk stays finished.
    pub fn next_id(&mut self) -> (r: Option<u32>)
        ensures
            final(self).spec_count() == old(self).spec_count(),
            old(self).given() < old(self).spec_count() ==> r == Some(old(self).given())
                && final(self).given() == old(self).given() + 1,
            old(self).given() >= old(self).spec_count() ==> r is None,
            final(self).remaining() == id_range(final(self).given(), final(self).spec_count()),
            old(self).remaining().len() == 0 ==> r is None && *final(self) == *old(self),
            old(self).remaining().len() > 0 ==> r == Some(old(self).remaining()[0])
                && final(self).remaining() == old(self).remaining().drop_first(),
    {
        proof {
            use_type_invariant(&*self);
        }
        if self.current_id < self.count {
            let id = self.current_id;
            self.current_id = self.current_id + 1;
            assert(self.remaining() =~= old(self).remaining().drop_first());
            Some(id)
        } else {
            None
        }
    }
}

/// A fresh walk gives exactly `count` ids: `0, 1, ..., count - 1`, each once, strictly
/// ascending.
pub proof fn lemma_walk_is_ascending_from_zero(count: u32)
    ensures
        id_range(0, count).len() == count,
        forall|i: int| 0 <= i < count ==> #[trigger] id_range(0, count)[i] == i,
        forall|i: int, j: int|
            0 <= i < j < count ==> #[trigger] id_range(0, count)[i] < #[trigger] id_range(
                0,
                count,
            )[j],
{
}

} // verus!
