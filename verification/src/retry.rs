//! The retry policies of the Kafka clients.
use vstd::prelude::*;

verus! {

/// Attempts to read the latest message before giving up.
pub const CONSUME_MAX_ATTEMPTS: u32 = 5;

/// Seconds to wait between two attempts to read the latest message.
pub const CONSUME_RETRY_DELAY_SECS: u64 = 10;

/// Polls of the latest offset within one attempt.
pub const LATEST_MESSAGE_POLLS: u32 = 5;

/// Attempts to fetch and send the price information before giving up.
pub const PRODUCE_MAX_ATTEMPTS: u32 = 3;

/// Seconds to wait between two attempts to fetch and send.
pub const PRODUCE_RETRY_DELAY_SECS: u64 = 5;

/// What to do after an attempt.
pub enum RetryStep<T, E> {
    /// The attempt succeeded: hand its result on.
    Done(T),
    /// It was the last attempt and it failed: give up with its error.
    GiveUp(E),
    /// Wait the delay, then try again.
    RetryAfterDelay,
}

/// The step after attempt number `attempt` (counted from 0) of at most
/// `max_attempts`.
pub fn retry_step<T, E>(attempt: u32, max_attempts: u32, outcome: Result<T, E>) -> (res: RetryStep<T, E>)
    requires
        attempt < max_attempts,
    ensures
        match outcome {
            Ok(t) => res == RetryStep::<T, E>::Done(t),
            Err(e) => if attempt + 1 == max_attempts {
                res == RetryStep::<T, E>::GiveUp(e)
            } else {
                res is RetryAfterDelay
            },
        },
{
    match outcome {
        Ok(t) => RetryStep::Done(t),
        Err(e) => {
            if attempt + 1 == max_attempts {
                RetryStep::GiveUp(e)
            } else {
                RetryStep::RetryAfterDelay
            }
        },
    }
}

/// The offset of the latest message of a partition whose high watermark is
/// `high_watermark`; `None` when the partition is empty (the consumer then
/// waits for the next message).
pub fn latest_offset(high_watermark: i64) -> (res: Option<i64>)
    ensures
        high_watermark > 0 ==> res == Some((high_watermark - 1) as i64),
        high_watermark <= 0 ==> res is None,
{
    if high_watermark > 0 {
        Some(high_watermark - 1)
    } else {
        None
    }
}

/// What one round of reading the latest price message gave.
pub enum RoundOutcome<T, E> {
    /// No payload came: the offsets, the seek or the receive failed, the
    /// receive timed out, or the message had no payload.
    NoMessage,
    /// A payload came, with what parsing it gave.
    Payload(Result<T, E>),
}

/// What to do after a round of reading the latest price message.
pub enum PollAction<T, E> {
    /// End the attempt with this result.
    Return(Result<Option<T>, E>),
    /// Wait a second, then start the next round.
    NextRound,
}

/// The decision after round `round` (counted from 0) of at most
/// `LATEST_MESSAGE_POLLS`: a payload ends the attempt at once, with the
/// parsed value or with the parse error; a round without one leads to the
/// next round, and after the last round to `Ok(None)`.
pub fn latest_message_step<T, E>(round: u32, outcome: RoundOutcome<T, E>) -> (res: PollAction<T, E>)
    requires
        round < LATEST_MESSAGE_POLLS,
    ensures
        match outcome {
            RoundOutcome::Payload(Ok(b)) => res == PollAction::<T, E>::Return(Ok(Some(b))),
            RoundOutcome::Payload(Err(e)) => res == PollAction::<T, E>::Return(Err(e)),
            RoundOutcome::NoMessage => if round + 1 == LATEST_MESSAGE_POLLS {
                res == PollAction::<T, E>::Return(Ok(None))
            } else {
                res is NextRound
            },
        },
{
    match outcome {
        RoundOutcome::Payload(Ok(b)) => PollAction::Return(Ok(Some(b))),
        RoundOutcome::Payload(Err(e)) => PollAction::Return(Err(e)),
        RoundOutcome::NoMessage => {
            if round + 1 == LATEST_MESSAGE_POLLS {
                PollAction::Return(Ok(None))
            } else {
                PollAction::NextRound
            }
        },
    }
}

} // verus!
