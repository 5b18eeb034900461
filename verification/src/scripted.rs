//! A deterministic body source whose two operations play back fixed scripts
//! of step outcomes. It is the concrete source this crate ships for driving
//! the adapter, and every claim the `AsyncBody` contract makes is proved of
//! it.
use vstd::prelude::*;

use crate::AsyncBody;
use crate::PollOutcome;

verus! {

/// A body source that yields, step by step, exactly the outcomes it was
/// built from: first entry first, nothing replayed, dropped or reordered.
pub struct ScriptedBody<D, E> {
    data: Vec<PollOutcome<Option<Result<D, E>>>>,
    trailers: Vec<PollOutcome<Result<Option<http::HeaderMap>, E>>>,
}

impl<D, E> ScriptedBody<D, E> {
    /// A source that will yield `data` on its data path and `trailers` on
    /// its trailers path, each in order.
    pub fn new(
        data: Vec<PollOutcome<Option<Result<D, E>>>>,
        trailers: Vec<PollOutcome<Result<Option<http::HeaderMap>, E>>>,
    ) -> (r: Self)
        ensures
            r.data_script() == data@,
            r.trailers_script() == trailers@,
    {
        ScriptedBody { data, trailers }
    }

    /// How many step outcomes the data path still owes. Callers outside the
    /// verified world test this before advancing the data operation.
    pub fn remaining_data(&self) -> (r: usize)
        ensures
            r == self.data_script().len(),
    {
        self.data.len()
    }

    /// How many step outcomes the trailers path still owes. Callers outside
    /// the verified world test this before advancing the trailers operation.
    pub fn remaining_trailers(&self) -> (r: usize)
        ensures
            r == self.trailers_script().len(),
    {
        self.trailers.len()
    }
}

impl<D, E> AsyncBody for ScriptedBody<D, E> {
    type Data = D;
    type Error = E;

    closed spec fn data_script(&self) -> Seq<PollOutcome<Option<Result<D, E>>>> {
        self.data@
    }

    closed spec fn trailers_script(&self) -> Seq<PollOutcome<Result<Option<http::HeaderMap>, E>>> {
        self.trailers@
    }

    fn data(&mut self) -> (r: PollOutcome<Option<Result<D, E>>>) {
        let r = self.data.remove(0);
        proof {
            assert(self.data@ =~= old(self).data@.skip(1));
        }
        r
    }

    fn trailers(&mut self) -> (r: PollOutcome<Result<Option<http::HeaderMap>, E>>) {
        let r = self.trailers.remove(0);
        proof {
            assert(self.trailers@ =~= old(self).trailers@.skip(1));
        }
        r
    }
}

} // verus!
