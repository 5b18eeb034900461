//! Adapts a suspending, capability-style body source (one call per logical
//! operation, which may stay pending across many advances) onto a poll-driven
//! consumer interface (repeated non-blocking calls, each answered at once with
//! ready-with-value or not-ready).
//!
//! The adapter owns the source, tracks which operation (data or trailers) is
//! in flight, advances it one step per poll call, and resets to the empty
//! state the moment an operation completes.
use vstd::prelude::*;

mod adapter;
mod scripted;

pub use adapter::AdapterState;
pub use adapter::AsyncBodyAdapter;
pub use scripted::ScriptedBody;

verus! {

/// Relies on http::HeaderValue: values of trailer entries. The adapter never
/// inspects one; the type is declared only so that trailer sets can be
/// carried through.
#[verifier::external_type_specification]
#[verifier::external_body]
pub struct ExHeaderValue(http::HeaderValue);

/// Relies on http::HeaderMap: the trailer set a body source may yield after
/// its data is exhausted. The adapter never inspects or alters one; the type
/// is declared only so that trailer sets can be carried through unchanged.
#[verifier::external_type_specification]
#[verifier::external_body]
#[verifier::reject_recursive_types(T)]
pub struct ExHeaderMap<T>(http::HeaderMap<T>);

/// The immediate answer of advancing a suspended operation one step: either
/// it completed with a value, or it is still pending and must be advanced
/// again later.
#[derive(PartialEq, Eq)]
pub enum PollOutcome<V> {
    Ready(V),
    Pending,
}

/// A body source: two suspending operations, "next data chunk" and "trailing
/// header map", each advanced one step at a time.
///
/// The behaviour still owed by the source is modelled as two scripts, one per
/// operation: the sequence of step outcomes it will yield from its current
/// state on. Each advance consumes exactly the script's first entry, so a
/// conforming source can neither replay, drop nor reorder an outcome.
pub trait AsyncBody {
    type Data;
    type Error;

    /// The outcomes the data path will yield, in order, from this state on.
    spec fn data_script(&self) -> Seq<PollOutcome<Option<Result<Self::Data, Self::Error>>>>;

    /// The outcomes the trailers path will yield, in order, from this state on.
    spec fn trailers_script(&self) -> Seq<PollOutcome<Result<Option<http::HeaderMap>, Self::Error>>>;

    /// Advance the data operation one step. `Ready(None)` signals the end of
    /// the data stream.
    fn data(&mut self) -> (r: PollOutcome<Option<Result<Self::Data, Self::Error>>>)
        requires
            old(self).data_script().len() > 0,
        ensures
            r == old(self).data_script()[0],
            final(self).data_script() == old(self).data_script().skip(1),
            final(self).trailers_script() == old(self).trailers_script(),
    ;

    /// Advance the trailers operation one step.
    fn trailers(&mut self) -> (r: PollOutcome<Result<Option<http::HeaderMap>, Self::Error>>)
        requires
            old(self).trailers_script().len() > 0,
        ensures
            r == old(self).trailers_script()[0],
            final(self).trailers_script() == old(self).trailers_script().skip(1),
            final(self).data_script() == old(self).data_script(),
    ;
}

/// Every advance of a suspended operation answers at once: it either hands
/// back a completion value or parks the caller with a not-ready signal; there
/// is no third outcome and no blocking.
pub proof fn lemma_progress_or_park<V>(r: PollOutcome<V>)
    ensures
        (r is Ready) <==> !(r is Pending),
{
}

} // verus!
