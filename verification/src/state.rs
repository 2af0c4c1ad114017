//! Shared service state: the queue gate and the request counters.
use std::sync::Arc;
use vstd::prelude::*;

use crate::error::ApiError;

verus! {

/// tokio's counting semaphore.
#[verifier::external_type_specification]
#[verifier::external_body]
pub struct ExSemaphore(tokio::sync::Semaphore);

/// A permit of tokio's semaphore, given back when it is dropped.
#[verifier::external_type_specification]
#[verifier::external_body]
pub struct ExSemaphorePermit<'a>(tokio::sync::SemaphorePermit<'a>);

/// Why tokio's semaphore gave no permit.
#[verifier::external_type_specification]
#[verifier::external_body]
pub struct ExTryAcquireError(tokio::sync::TryAcquireError);

/// The number of permits that a semaphore was made with.
pub uninterp spec fn permit_limit(queue: tokio::sync::Semaphore) -> nat;

/// The number of permits of its semaphore that a permit holds.
pub uninterp spec fn permits_held(permit: tokio::sync::SemaphorePermit<'_>) -> nat;

/// Whether an answer of a semaphore that is a permit holds just one.
pub open spec fn holds_one<E>(answer: Result<tokio::sync::SemaphorePermit<'_>, E>) -> bool {
    answer matches Ok(permit) ==> permits_held(permit) == 1
}

/// `tokio::sync::Semaphore::new`: a semaphore with `permits` permits. It panics above
/// `Semaphore::MAX_PERMITS`, an eighth of the largest `usize`.
pub assume_specification[ tokio::sync::Semaphore::new ](permits: usize) -> (r:
    tokio::sync::Semaphore)
    requires
        permits <= usize::MAX / 8,
    ensures
        permit_limit(r) == permits,
;

/// `tokio::sync::Semaphore::try_acquire`: takes a permit if one is free at this moment. Whether
/// one is rests on the permits that other tasks hold, so nothing is said of which way it goes; what
/// it gives is one permit.
pub assume_specification[ tokio::sync::Semaphore::try_acquire ](
    queue: &tokio::sync::Semaphore,
) -> (r: Result<tokio::sync::SemaphorePermit<'_>, tokio::sync::TryAcquireError>)
    ensures
        r matches Ok(permit) ==> permits_held(permit) == 1,
;

/// Service state shared by all requests. The pipeline runs one request at a time; `queue` only
/// bounds how many requests wait before rejection.
pub struct ServerState {
    pub queue: Arc<tokio::sync::Semaphore>,
    pub received: u64,
    pub completed: u64,
    pub rejected: u64,
}

/// The numbers of requests that arrived, that were admitted and have been answered, and that
/// were turned away.
pub struct Counters {
    pub received: u64,
    pub completed: u64,
    pub rejected: u64,
}

/// What a step of a request changes in the counters.
#[derive(Clone, Copy, PartialEq, Eq, Structural)]
pub enum Tally {
    Unchanged,
    Completed,
}

/// The counters after a request arrived.
pub open spec fn arrival(counters: Counters, is_admitted: bool) -> Counters {
    Counters {
        received: counters.received.wrapping_add(1),
        completed: counters.completed,
        rejected: if is_admitted {
            counters.rejected
        } else {
            counters.rejected.wrapping_add(1)
        },
    }
}

/// The counters after a step of a request.
pub open spec fn recorded(counters: Counters, tally: Tally) -> Counters {
    match tally {
        Tally::Unchanged => counters,
        Tally::Completed => Counters {
            received: counters.received,
            completed: counters.completed.wrapping_add(1),
            rejected: counters.rejected,
        },
    }
}

impl ServerState {
    /// The counters of this state.
    pub open spec fn counters(self) -> Counters {
        Counters { received: self.received, completed: self.completed, rejected: self.rejected }
    }

    pub fn new(max_queued: usize) -> (r: Self)
        requires
            max_queued <= usize::MAX / 8,
        ensures
            permit_limit(*r.queue) == max_queued,
            r.counters() == (Counters { received: 0, completed: 0, rejected: 0 }),
            r.received == 0,
            r.completed == 0,
            r.rejected == 0,
    {
        ServerState {
            queue: Arc::new(tokio::sync::Semaphore::new(max_queued)),
            received: 0,
            completed: 0,
            rejected: 0,
        }
    }

    /// Counts an admitted request; called when a handler finishes.
    pub fn finish(&mut self)
        ensures
            final(self).counters() == recorded(old(self).counters(), Tally::Completed),
            final(self).completed == old(self).completed.wrapping_add(1),
            final(self).received == old(self).received,
            final(self).rejected == old(self).rejected,
            final(self).queue == old(self).queue,
    {
        self.completed = self.completed.wrapping_add(1);
    }

    /// Records what a step of a request changes.
    pub fn record(&mut self, tally: Tally)
        ensures
            final(self).counters() == recorded(old(self).counters(), tally),
            tally is Completed ==> final(self).completed == old(self).completed.wrapping_add(1),
            tally is Unchanged ==> final(self).completed == old(self).completed,
            final(self).received == old(self).received,
            final(self).rejected == old(self).rejected,
            final(self).queue == old(self).queue,
    {
        match tally {
            Tally::Unchanged => {},
            Tally::Completed => self.finish(),
        }
    }
}

/// What the queue's answer means for a request: a permit admits it, anything else rejects it as
/// beyond the queue's limit.
pub open spec fn admitted<P, E>(permit: Result<P, E>) -> Result<P, ApiError> {
    match permit {
        Ok(permit) => Ok(permit),
        Err(_) => Err(ApiError::QueueFull),
    }
}

/// Takes the queue's answer to a request.
pub fn admission<P, E>(permit: Result<P, E>) -> (r: Result<P, ApiError>)
    ensures
        r == admitted(permit),
        permit matches Ok(place) ==> r == Ok::<P, ApiError>(place),
        permit is Err ==> r == Err::<P, ApiError>(ApiError::QueueFull),
{
    match permit {
        Ok(permit) => Ok(permit),
        Err(_) => Err(ApiError::QueueFull),
    }
}

/// Admits a request or rejects it once all permits are held. The permit is held for the whole
/// request: queue wait and inference. The result is what `queue` itself answered when it was asked
/// for a permit: its permit, or that it is full. Which of the two rests on the permits that other
/// tasks hold, and is left unsaid.
pub fn acquire(queue: &tokio::sync::Semaphore) -> (r: Result<
    tokio::sync::SemaphorePermit<'_>,
    ApiError,
>)
    ensures
        exists|answer: Result<tokio::sync::SemaphorePermit<'_>, tokio::sync::TryAcquireError>|
            #[trigger] call_ensures(tokio::sync::Semaphore::try_acquire, (queue,), answer) && r
                == admitted(answer),
        holds_one(r),
        r matches Err(error) ==> error is QueueFull,
{
    admission(queue.try_acquire())
}

/// A permit admits the request that asked for it, with that very permit, and whatever else the
/// queue answers refuses it as beyond the queue's limit.
pub proof fn permit_admits_and_nothing_else_does<P, E>(permit: P, error: E)
    ensures
        admitted(Ok::<P, E>(permit)) == Ok::<P, ApiError>(permit),
        admitted(Err::<P, E>(error)) == Err::<P, ApiError>(ApiError::QueueFull),
{
}

/// Every arrival is received, a refused one is rejected too, and nothing but a completed step
/// changes the number of completions.
pub proof fn each_counter_counts_its_own(counters: Counters, is_admitted: bool)
    ensures
        arrival(counters, is_admitted).received == counters.received.wrapping_add(1),
        arrival(counters, is_admitted).completed == counters.completed,
        arrival(counters, true).rejected == counters.rejected,
        arrival(counters, false).rejected == counters.rejected.wrapping_add(1),
        recorded(counters, Tally::Unchanged) == counters,
        recorded(counters, Tally::Completed).completed == counters.completed.wrapping_add(1),
        recorded(counters, Tally::Completed).received == counters.received,
        recorded(counters, Tally::Completed).rejected == counters.rejected,
{
}

/// The counters of a state are its own.
pub proof fn counters_are_shown_as_they_are(state: ServerState)
    ensures
        state.counters().received == state.received,
        state.counters().completed == state.completed,
        state.counters().rejected == state.rejected,
{
}

} // verus!
