//! The events of the price stream: what a new connection is sent first, and
//! what each update becomes.
use vstd::prelude::*;

verus! {

/// How long the latest price stays in the cache, in seconds.
pub const REDIS_EXPIRATION: usize = 2700;

/// An event of the stream, before its data is written out.
pub enum SseEvent<T> {
    /// Data to show (status `success`).
    Success(T),
    /// No data yet (status `waiting`).
    Waiting,
    /// The data could not be read (status `error`).
    Error,
}

/// The first step for a new connection (and for the consumer task when the
/// message stream fails): the locally cached data is sent at once; without
/// it the shared cache is asked.
pub enum FirstStep<T> {
    Send(SseEvent<T>),
    AskSharedCache,
}

/// The first step for a new connection.
pub fn first_step<T>(local: Option<T>) -> (res: FirstStep<T>)
    ensures
        match local {
            Some(t) => res == FirstStep::Send(SseEvent::Success(t)),
            None => res is AskSharedCache,
        },
{
    match local {
        Some(t) => FirstStep::Send(SseEvent::Success(t)),
        None => FirstStep::AskSharedCache,
    }
}

/// The first event after asking the shared cache, and whether its data is
/// to be kept in the local cache.
pub fn event_from_shared_cache<T: Clone, E>(lookup: Result<Option<T>, E>) -> (res: (SseEvent<T>, bool))
    ensures
        match lookup {
            Ok(Some(t)) => res.0 == SseEvent::<T>::Success(t) && res.1,
            Ok(None) => res.0 is Waiting && !res.1,
            Err(_) => res.0 is Error && !res.1,
        },
{
    match lookup {
        Ok(Some(t)) => (SseEvent::Success(t), true),
        Ok(None) => (SseEvent::Waiting, false),
        Err(_) => (SseEvent::Error, false),
    }
}

/// The event for an update received from the broadcast channel.
pub fn event_from_update<T, E>(update: Result<T, E>) -> (res: SseEvent<T>)
    ensures
        match update {
            Ok(t) => res == SseEvent::<T>::Success(t),
            Err(_) => res is Error,
        },
{
    match update {
        Ok(t) => SseEvent::Success(t),
        Err(_) => SseEvent::Error,
    }
}

/// The status text of an event.
pub open spec fn spec_status(e: SseEvent<()>) -> Seq<char> {
    match e {
        SseEvent::Success(_) => "success"@,
        SseEvent::Waiting => "waiting"@,
        SseEvent::Error => "error"@,
    }
}

impl<T> SseEvent<T> {
    /// The shape of the event, without its data.
    pub open spec fn shape(&self) -> SseEvent<()> {
        match self {
            SseEvent::Success(_) => SseEvent::Success(()),
            SseEvent::Waiting => SseEvent::Waiting,
            SseEvent::Error => SseEvent::Error,
        }
    }

    /// The status text of the event: `success`, `waiting` or `error`.
    pub fn status(&self) -> (res: String)
        ensures
            res@ == spec_status(self.shape()),
    {
        match self {
            SseEvent::Success(_) => String::from_str("success"),
            SseEvent::Waiting => String::from_str("waiting"),
            SseEvent::Error => String::from_str("error"),
        }
    }
}

} // verus!
