//! Decision kernel of the readiness-driven socket adapter.
//!
//! The adapter turns a non-blocking descriptor into a cancellable,
//! deadline-bounded read or write: wait for readiness, attempt the
//! operation once, and on a would-block indication suspend again rather
//! than spin; the whole wait races against the configured deadline. The
//! waiting itself is scheduler work outside this crate; the functions here
//! fix what each observation must lead to, so the driver loop contains no
//! policy of its own.

use vstd::prelude::*;

use crate::errors::SocketError;

verus! {

/// What one non-blocking read attempt on a ready descriptor produced.
#[derive(Debug)]
pub enum ReadAttempt {
    Data(Vec<u8>),
    WouldBlock,
    Failed(String),
}

/// What one non-blocking write attempt on a ready descriptor produced.
#[derive(Debug)]
pub enum WriteAttempt {
    Written,
    WouldBlock,
    Failed(String),
}

/// What the adapter does next with a read: suspend until the descriptor is
/// ready again, or finish with the operation's outcome.
#[derive(Debug)]
pub enum ReadStep {
    Suspend,
    Finish(Result<Vec<u8>, SocketError>),
}

/// What the adapter does next with a write.
#[derive(Debug)]
pub enum WriteStep {
    Suspend,
    Finish(Result<(), SocketError>),
}

/// Decide a read from one attempt's outcome: data completes the read, a
/// would-block indication suspends again (never busy-spins, never fails),
/// and a real I/O error completes the read with that failure.
pub fn read_step(attempt: ReadAttempt) -> (r: ReadStep)
    ensures
        attempt matches ReadAttempt::Data(bytes) ==> r == ReadStep::Finish(
            Ok::<Vec<u8>, SocketError>(bytes),
        ),
        attempt is WouldBlock ==> r == ReadStep::Suspend,
        attempt matches ReadAttempt::Failed(message) ==> r == ReadStep::Finish(
            Err::<Vec<u8>, SocketError>(SocketError::Io(message)),
        ),
{
    match attempt {
        ReadAttempt::Data(bytes) => ReadStep::Finish(Ok(bytes)),
        ReadAttempt::WouldBlock => ReadStep::Suspend,
        ReadAttempt::Failed(message) => ReadStep::Finish(Err(SocketError::Io(message))),
    }
}

/// Decide a write from one attempt's outcome, symmetrically to `read_step`.
pub fn write_step(attempt: WriteAttempt) -> (r: WriteStep)
    ensures
        attempt is Written ==> r == WriteStep::Finish(Ok::<(), SocketError>(())),
        attempt is WouldBlock ==> r == WriteStep::Suspend,
        attempt matches WriteAttempt::Failed(message) ==> r == WriteStep::Finish(
            Err::<(), SocketError>(SocketError::Io(message)),
        ),
{
    match attempt {
        WriteAttempt::Written => WriteStep::Finish(Ok(())),
        WriteAttempt::WouldBlock => WriteStep::Suspend,
        WriteAttempt::Failed(message) => WriteStep::Finish(Err(SocketError::Io(message))),
    }
}

/// Resolve a read raced against its configured deadline (milliseconds):
/// the read's own outcome stands when it finished first; the deadline
/// elapsing first abandons the operation and reports the timeout with the
/// configured duration. The descriptor stays usable either way.
pub fn resolve_read_race(finished: Option<Result<Vec<u8>, String>>, timeout_ms: u64) -> (r: Result<
    Vec<u8>,
    SocketError,
>)
    ensures
        finished matches Some(Ok(bytes)) ==> r == Ok::<Vec<u8>, SocketError>(bytes),
        finished matches Some(Err(message)) ==> r == Err::<Vec<u8>, SocketError>(
            SocketError::Io(message),
        ),
        finished is None ==> r == Err::<Vec<u8>, SocketError>(SocketError::Timeout(timeout_ms)),
{
    match finished {
        Some(Ok(bytes)) => Ok(bytes),
        Some(Err(message)) => Err(SocketError::Io(message)),
        None => Err(SocketError::Timeout(timeout_ms)),
    }
}

/// Resolve a write raced against its configured deadline, symmetrically to
/// `resolve_read_race`.
pub fn resolve_write_race(finished: Option<Result<(), String>>, timeout_ms: u64) -> (r: Result<
    (),
    SocketError,
>)
    ensures
        finished matches Some(Ok(_)) ==> r == Ok::<(), SocketError>(()),
        finished matches Some(Err(message)) ==> r == Err::<(), SocketError>(
            SocketError::Io(message),
        ),
        finished is None ==> r == Err::<(), SocketError>(SocketError::Timeout(timeout_ms)),
{
    match finished {
        Some(Ok(_)) => Ok(()),
        Some(Err(message)) => Err(SocketError::Io(message)),
        None => Err(SocketError::Timeout(timeout_ms)),
    }
}

} // verus!
