//! The adapter proper: a three-state machine over the owned body source,
//! driven by the consumer's poll calls.
use vstd::prelude::*;

use crate::AsyncBody;
use crate::PollOutcome;

verus! {

/// Which operation, if any, is currently in flight. Exactly one variant
/// holds at every observation point: a pending data operation and a pending
/// trailers operation can never coexist.
#[derive(PartialEq, Eq, Structural)]
pub enum AdapterState {
    /// A data operation is in flight and must be advanced until it completes.
    ProcessingData,
    /// A trailers operation is in flight and must be advanced until it
    /// completes.
    ProcessingTrailers,
    /// No operation is in flight: the initial state, and the state reached
    /// again the moment any operation completes.
    Empty,
}

impl AdapterState {
    pub fn is_empty(&self) -> (r: bool)
        ensures
            r == (self is Empty),
    {
        if let AdapterState::Empty = self {
            true
        } else {
            false
        }
    }
}

/// At no observable point is more than one operation in flight: the three
/// states are mutually exclusive and exhaustive.
pub proof fn lemma_state_exclusive(s: AdapterState)
    ensures
        (s is Empty) || (s is ProcessingData) || (s is ProcessingTrailers),
        s is Empty ==> !(s is ProcessingData) && !(s is ProcessingTrailers),
        s is ProcessingData ==> !(s is Empty) && !(s is ProcessingTrailers),
        s is ProcessingTrailers ==> !(s is Empty) && !(s is ProcessingData),
{
}

/// Owns a body source and adapts its two suspending operations onto a
/// poll-driven interface: each poll call lazily starts the matching
/// operation if none is in flight, advances it exactly one step, and resets
/// to `Empty` the moment the operation completes, so the next poll call
/// starts a fresh operation rather than replaying a stale one.
pub struct AsyncBodyAdapter<B: AsyncBody> {
    /// The underlying source. Created once, owned for the adapter's whole
    /// life, and dropped only after any in-flight operation state.
    pub body: B,
    /// Which operation is currently in flight.
    pub state: AdapterState,
}

impl<B: AsyncBody> AsyncBodyAdapter<B> {
    /// Wrap a body source; no operation is in flight yet.
    pub fn new(body: B) -> (r: Self)
        ensures
            r.state is Empty,
            r.body == body,
    {
        AsyncBodyAdapter { body, state: AdapterState::Empty }
    }

    /// Poll for the next data chunk: start a data operation if none is in
    /// flight, advance it one step, and either hand its completion value
    /// through unchanged (resetting to `Empty`) or report not-ready and keep
    /// the same operation in flight for the next poll.
    ///
    /// Callers must not interleave this with an unfinished trailers
    /// operation, and must still owe the source a data outcome; the poll
    /// protocol makes both conditions the caller's responsibility.
    pub fn poll_data(&mut self) -> (r: PollOutcome<Option<Result<B::Data, B::Error>>>)
        requires
            !(old(self).state is ProcessingTrailers),
            old(self).body.data_script().len() > 0,
        ensures
            r == old(self).body.data_script()[0],
            final(self).body.data_script() == old(self).body.data_script().skip(1),
            final(self).body.trailers_script() == old(self).body.trailers_script(),
            (r is Ready) <==> (final(self).state is Empty),
            (r is Pending) <==> (final(self).state is ProcessingData),
    {
        if self.state.is_empty() {
            self.state = AdapterState::ProcessingData;
        }
        let r = self.body.data();
        let completed = match &r {
            PollOutcome::Ready(_) => true,
            PollOutcome::Pending => false,
        };
        if completed {
            self.state = AdapterState::Empty;
        }
        r
    }

    /// Poll for the trailing header map: start a trailers operation if none
    /// is in flight, advance it one step, and either hand its completion
    /// value through unchanged (resetting to `Empty`) or report not-ready
    /// and keep the same operation in flight for the next poll.
    ///
    /// Callers must first drive the data path to a terminal outcome, so no
    /// data operation may be in flight, and must still owe the source a
    /// trailers outcome.
    pub fn poll_trailers(&mut self) -> (r: PollOutcome<Result<Option<http::HeaderMap>, B::Error>>)
        requires
            !(old(self).state is ProcessingData),
            old(self).body.trailers_script().len() > 0,
        ensures
            r == old(self).body.trailers_script()[0],
            final(self).body.trailers_script() == old(self).body.trailers_script().skip(1),
            final(self).body.data_script() == old(self).body.data_script(),
            (r is Ready) <==> (final(self).state is Empty),
            (r is Pending) <==> (final(self).state is ProcessingTrailers),
    {
        if self.state.is_empty() {
            self.state = AdapterState::ProcessingTrailers;
        }
        let r = self.body.trailers();
        let completed = match &r {
            PollOutcome::Ready(_) => true,
            PollOutcome::Pending => false,
        };
        if completed {
            self.state = AdapterState::Empty;
        }
        r
    }
}

} // verus!
