//! One query over a connection that is kept for later ones: a kept connection that has
//! gone stale is given up and replaced once.

use crate::upstream::error::{UpstreamResolveError, UpstreamResolveErrorView};
use vstd::prelude::*;

verus! {

/// What a query does next.
#[derive(Clone, Copy, Debug, PartialEq, Eq, Structural)]
pub enum Phase {
    /// Send it over the kept connection.
    AskKept,
    /// Make a new connection.
    Connect,
    /// Send it over the new connection.
    AskFresh,
    /// Nothing: it is over.
    Finished,
}

/// What happens to the kept connection.
#[derive(Clone, Copy, Debug, PartialEq, Eq, Structural)]
pub enum CacheChange {
    /// It stays as it is.
    Keep,
    /// It is given up.
    Evict,
    /// The new connection takes its place.
    Store,
}

/// What came of an action.
#[derive(Debug)]
pub enum Event {
    /// A connection came about.
    Connected,
    /// No connection came about.
    NotConnected(UpstreamResolveError),
    /// An answer came; the bytes are there unless it could not be encoded.
    Answered(Result<Vec<u8>, String>),
    /// No answer came in time.
    TimedOut,
    /// The connection failed.
    Failed(String),
}

/// What comes out of a query.
#[derive(Debug)]
pub struct Step {
    pub next: Phase,
    pub cache: CacheChange,
    /// What the query came to, once it is over.
    pub result: Option<Result<Vec<u8>, UpstreamResolveError>>,
}

/// The bytes or the error of a result, with its text.
pub open spec fn bytes_result(r: Result<Vec<u8>, UpstreamResolveError>) -> Result<
    Seq<u8>,
    UpstreamResolveErrorView,
> {
    match r {
        Ok(b) => Ok(b@),
        Err(e) => Err(e@),
    }
}

/// A step with its texts.
pub struct StepView {
    pub next: Phase,
    pub cache: CacheChange,
    pub result: Option<Result<Seq<u8>, UpstreamResolveErrorView>>,
}

impl View for Step {
    type V = StepView;

    open spec fn view(&self) -> StepView {
        StepView {
            next: self.next,
            cache: self.cache,
            result: match self.result {
                Some(r) => Some(bytes_result(r)),
                None => None,
            },
        }
    }
}

/// The bytes of an answer, where it could be encoded.
pub open spec fn encoded_answer(r: Result<Vec<u8>, String>) -> Result<
    Seq<u8>,
    UpstreamResolveErrorView,
> {
    match r {
        Ok(b) => Ok(b@),
        Err(m) => Err(UpstreamResolveErrorView::Protocol(m@)),
    }
}

/// Whether an event can come of the action of a phase.
pub open spec fn fits(phase: Phase, event: Event) -> bool {
    match phase {
        Phase::AskKept | Phase::AskFresh => event is Answered || event is TimedOut || event is Failed,
        Phase::Connect => event is Connected || event is NotConnected,
        Phase::Finished => false,
    }
}

/// What a query does after an event.
pub open spec fn stepped(phase: Phase, event: Event) -> StepView {
    match (phase, event) {
        (Phase::AskKept, Event::Answered(r)) => StepView {
            next: Phase::Finished,
            cache: CacheChange::Keep,
            result: Some(encoded_answer(r)),
        },
        (Phase::AskKept, _) => StepView {
            next: Phase::Connect,
            cache: CacheChange::Evict,
            result: None,
        },
        (Phase::Connect, Event::NotConnected(e)) => StepView {
            next: Phase::Finished,
            cache: CacheChange::Keep,
            result: Some(Err(e@)),
        },
        (Phase::Connect, _) => StepView {
            next: Phase::AskFresh,
            cache: CacheChange::Keep,
            result: None,
        },
        (Phase::AskFresh, Event::Answered(r)) => StepView {
            next: Phase::Finished,
            cache: CacheChange::Store,
            result: Some(encoded_answer(r)),
        },
        (Phase::AskFresh, Event::Failed(m)) => StepView {
            next: Phase::Finished,
            cache: CacheChange::Keep,
            result: Some(Err(UpstreamResolveErrorView::Protocol(m@))),
        },
        (Phase::AskFresh, _) => StepView {
            next: Phase::Finished,
            cache: CacheChange::Keep,
            result: Some(Err(UpstreamResolveErrorView::Timeout)),
        },
        (Phase::Finished, _) => StepView {
            next: Phase::Finished,
            cache: CacheChange::Keep,
            result: None,
        },
    }
}

/// What a query does first.
pub open spec fn first_phase(has_kept_connection: bool) -> Phase {
    if has_kept_connection {
        Phase::AskKept
    } else {
        Phase::Connect
    }
}

/// What a query does first.
pub fn begin(has_kept_connection: bool) -> (r: Phase)
    ensures
        r == first_phase(has_kept_connection),
        r == if has_kept_connection {
            Phase::AskKept
        } else {
            Phase::Connect
        },
{
    if has_kept_connection {
        Phase::AskKept
    } else {
        Phase::Connect
    }
}

fn answer(r: Result<Vec<u8>, String>) -> (s: Option<Result<Vec<u8>, UpstreamResolveError>>)
    ensures
        s matches Some(x) && bytes_result(x) == encoded_answer(r),
{
    match r {
        Ok(b) => Some(Ok(b)),
        Err(m) => Some(Err(UpstreamResolveError::Protocol(m))),
    }
}

/// What a query does after an event.
pub fn advance(phase: Phase, event: Event) -> (r: Step)
    requires
        fits(phase, event),
    ensures
        r@ == stepped(phase, event),
{
    match (phase, event) {
        (Phase::AskKept, Event::Answered(r)) => Step {
            next: Phase::Finished,
            cache: CacheChange::Keep,
            result: answer(r),
        },
        (Phase::AskKept, _) => Step {
            next: Phase::Connect,
            cache: CacheChange::Evict,
            result: None,
        },
        (Phase::Connect, Event::NotConnected(e)) => Step {
            next: Phase::Finished,
            cache: CacheChange::Keep,
            result: Some(Err(e)),
        },
        (Phase::Connect, _) => Step {
            next: Phase::AskFresh,
            cache: CacheChange::Keep,
            result: None,
        },
        (Phase::AskFresh, Event::Answered(r)) => Step {
            next: Phase::Finished,
            cache: CacheChange::Store,
            result: answer(r),
        },
        (Phase::AskFresh, Event::Failed(m)) => Step {
            next: Phase::Finished,
            cache: CacheChange::Keep,
            result: Some(Err(UpstreamResolveError::Protocol(m))),
        },
        (Phase::AskFresh, _) => Step {
            next: Phase::Finished,
            cache: CacheChange::Keep,
            result: Some(Err(UpstreamResolveError::Timeout)),
        },
        (Phase::Finished, _) => Step {
            next: Phase::Finished,
            cache: CacheChange::Keep,
            result: None,
        },
    }
}

/// How many actions a query can still take.
pub open spec fn remaining(phase: Phase) -> nat {
    match phase {
        Phase::AskKept => 3,
        Phase::Connect => 2,
        Phase::AskFresh => 1,
        Phase::Finished => 0,
    }
}

/// A query is over after at most three actions, and it has a result exactly when it is.
pub proof fn law_query_ends(phase: Phase, event: Event)
    requires
        fits(phase, event),
    ensures
        remaining(stepped(phase, event).next) < remaining(phase) <= 3,
        stepped(phase, event).result is Some <==> stepped(phase, event).next is Finished,
{
}

/// A connection is kept for later queries only after an answer came over it, and a kept
/// one that did not answer is always given up.
pub proof fn law_kept_connections_have_answered(phase: Phase, event: Event)
    requires
        fits(phase, event),
    ensures
        stepped(phase, event).cache is Store <==> phase is AskFresh && event is Answered,
        stepped(phase, event).cache is Evict <==> phase is AskKept && !(event is Answered),
{
}

/// A kept connection that has gone stale costs no answer: whatever but an answer comes of a
/// query over it, the connection is given up and the query goes on over a new one, as if no
/// connection had been kept.
pub proof fn law_stale_connections_are_replaced(event: Event)
    requires
        fits(Phase::AskKept, event),
        !(event is Answered),
    ensures
        stepped(Phase::AskKept, event).next == Phase::Connect,
        stepped(Phase::AskKept, event).next == first_phase(false),
        stepped(Phase::AskKept, event).cache == CacheChange::Evict,
        stepped(Phase::AskKept, event).result is None,
{
}

/// A query fails only by what happens on a connection that was made for it, or by an answer
/// that cannot be encoded.
pub proof fn law_errors_come_of_new_connections(phase: Phase, event: Event)
    requires
        fits(phase, event),
        stepped(phase, event).result matches Some(Err(_)),
    ensures
        phase == Phase::Connect || phase == Phase::AskFresh || (event matches Event::Answered(Err(_))),
        phase == Phase::Connect ==> event is NotConnected,
{
}

/// An answer is handed on as it came, over a kept connection as over a new one, and nothing
/// else is taken for an answer.
pub proof fn law_answers_are_handed_on(phase: Phase, event: Event)
    requires
        fits(phase, event),
    ensures
        event matches Event::Answered(Ok(b)) ==> stepped(phase, event).result == Some(
            Ok::<Seq<u8>, UpstreamResolveErrorView>(b@),
        ),
        stepped(phase, event).result matches Some(Ok(b)) ==> (event matches Event::Answered(Ok(a))
            && a@ == b),
        event is Answered ==> stepped(phase, event).next == Phase::Finished,
{
}

/// An error says what happened: why there is no connection, that time ran out, or what the
/// connection or the encoding failed with.
pub proof fn law_errors_say_what_happened(phase: Phase, event: Event)
    requires
        fits(phase, event),
        stepped(phase, event).result matches Some(Err(_)),
    ensures
        stepped(phase, event).result == Some(
            Err::<Seq<u8>, UpstreamResolveErrorView>(
                match event {
                    Event::NotConnected(e) => e@,
                    Event::TimedOut => UpstreamResolveErrorView::Timeout,
                    Event::Failed(m) => UpstreamResolveErrorView::Protocol(m@),
                    Event::Answered(Err(m)) => UpstreamResolveErrorView::Protocol(m@),
                    _ => UpstreamResolveErrorView::AllFailed,
                },
            ),
        ),
        !(event is Connected),
        !(event matches Event::Answered(Ok(_))),
{
}

/// A query asks over the kept connection where there is one, and makes a new one where there
/// is none; once it has one it asks over it.
pub proof fn law_connections_are_reused(kept: bool)
    ensures
        first_phase(kept) == Phase::AskKept <==> kept,
        first_phase(kept) == Phase::Connect <==> !kept,
        stepped(Phase::Connect, Event::Connected).next == Phase::AskFresh,
        stepped(Phase::Connect, Event::Connected).result is None,
{
}

/// A step is seen with its result exactly where it has one.
pub proof fn law_results_are_seen(s: Step)
    ensures
        s@.next == s.next && s@.cache == s.cache,
        s.result is None <==> s@.result is None,
        s.result matches Some(r) ==> s@.result == Some(bytes_result(r)),
{
}

} // verus!
