use vstd::prelude::*;
use crate::error::StoreError;

verus! {

/// What resolving a run of base records gives: every derived value, in the
/// order of the run, or the first failure met.
pub open spec fn find_outcome<R, E>(resolved: Seq<Result<R, E>>) -> Result<Seq<R>, E>
    decreases resolved.len(),
{
    if resolved.len() == 0 {
        Ok(Seq::empty())
    } else {
        match find_outcome(resolved.drop_last()) {
            Err(e) => Err(e),
            Ok(done) => match resolved.last() {
                Ok(x) => Ok(done.push(x)),
                Err(e) => Err(e),
            },
        }
    }
}

/// A resolution of a run succeeds with one derived value per base record,
/// in the run's order, and fails as a whole as soon as one record fails.
pub proof fn lemma_find_all_or_nothing<R, E>(resolved: Seq<Result<R, E>>)
    ensures
        find_outcome(resolved) is Ok ==> {
            let done = find_outcome(resolved)->Ok_0;
            &&& done.len() == resolved.len()
            &&& forall|i: int| 0 <= i < resolved.len() ==> resolved[i] == Ok::<R, E>(#[trigger] done[i])
        },
        (exists|i: int| 0 <= i < resolved.len() && resolved[i] is Err) ==> find_outcome(resolved) is Err,
    decreases resolved.len(),
{
    if resolved.len() > 0 {
        let front = resolved.drop_last();
        lemma_find_all_or_nothing(front);
        if find_outcome(resolved) is Ok {
            let done = find_outcome(resolved)->Ok_0;
            let before = find_outcome(front)->Ok_0;
            assert forall|i: int| 0 <= i < resolved.len() implies resolved[i] == Ok::<R, E>(#[trigger] done[i]) by {
                if i < front.len() {
                    assert(front[i] == resolved[i]);
                    assert(front[i] == Ok::<R, E>(before[i]));
                }
            }
        }
        if exists|i: int| 0 <= i < resolved.len() && resolved[i] is Err {
            let i = choose|i: int| 0 <= i < resolved.len() && resolved[i] is Err;
            if i < front.len() {
                assert(front[i] == resolved[i]);
            }
        }
    }
}

/// Collects the values derived from a stream of base records, one record at
/// a time, and stops at the first failure.
pub struct Batch<R, E> {
    results: Vec<R>,
    seen: Ghost<Seq<Result<R, E>>>,
}

impl<R, E> Batch<R, E> {
    /// The resolutions handed to the batch so far.
    pub closed spec fn seen(&self) -> Seq<Result<R, E>> {
        self.seen@
    }

    /// The batch holds the values of every resolution handed to it.
    pub closed spec fn wf(&self) -> bool {
        find_outcome(self.seen@) == Ok::<Seq<R>, E>(self.results@)
    }

    pub fn new() -> (r: Self)
        ensures
            r.wf(),
            r.seen() == Seq::<Result<R, E>>::empty(),
    {
        Batch { results: Vec::new(), seen: Ghost(Seq::empty()) }
    }

    /// Hands the batch the resolution of the next base record. A failure is
    /// handed back, wrapped as the store's, and ends the batch.
    pub fn push(&mut self, resolved: Result<R, E>) -> (r: Option<StoreError<E>>)
        requires
            old(self).wf(),
        ensures
            final(self).seen() == old(self).seen().push(resolved),
            find_outcome(final(self).seen()) is Ok <==> r is None,
            r is None ==> final(self).wf(),
            resolved is Err ==> r == Some(StoreError::<E>::Upstream(resolved->Err_0)),
    {
        let ghost before = self.seen@;
        self.seen = Ghost(before.push(resolved));
        assert(self.seen@.drop_last() =~= before);
        match resolved {
            Ok(x) => {
                self.results.push(x);
                None
            },
            Err(e) => Some(StoreError::Upstream(e)),
        }
    }

    /// The values derived so far, in the order their records came.
    pub fn finish(self) -> (r: Vec<R>)
        requires
            self.wf(),
        ensures
            find_outcome(self.seen()) == Ok::<Seq<R>, E>(r@),
    {
        self.results
    }
}

} // verus!
