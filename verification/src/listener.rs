//! The decisions of a property listener: which of the values that arrived
//! since the last check is the latest, and which error a failed wait gives.

use vstd::prelude::*;
use crate::errors::{error_value, CoreAudioError, ErrorKind};

verus! {

/// The most recent of the values that arrived since the last check, in
/// arrival order, or `None` if none arrived.
pub fn latest<T>(mut arrived: Vec<T>) -> (r: Option<T>)
    ensures
        arrived@.len() == 0 ==> r is None,
        arrived@.len() > 0 ==> r == Some(arrived@.last()),
{
    arrived.pop()
}

/// Why a wait for a change ended without one.
#[derive(Debug, Clone, Copy, PartialEq, Eq, Structural)]
pub enum WaitFailure {
    /// The time allowed passed.
    Timeout,
    /// The channel that carries the changes was closed.
    Disconnected,
}

/// The error that a failed wait gives: `ListenerTimeout` when the time
/// passed, `ListenerHangUp` when the channel was closed.
pub fn wait_error(failure: WaitFailure) -> (e: CoreAudioError)
    ensures
        e == error_value(
            match failure {
                WaitFailure::Timeout => ErrorKind::ListenerTimeout,
                WaitFailure::Disconnected => ErrorKind::ListenerHangUp,
            },
            -1i32,
        ),
{
    match failure {
        WaitFailure::Timeout => CoreAudioError::from_error_kind(ErrorKind::ListenerTimeout),
        WaitFailure::Disconnected => CoreAudioError::from_error_kind(ErrorKind::ListenerHangUp),
    }
}

/// The status that a listener callback reports to the HAL: the code of
/// the error if the new value could not be read, `0` if it was delivered,
/// `-1` if the channel was closed.
pub fn callback_status(read_error: Option<CoreAudioError>, delivered: bool) -> (status: i32)
    ensures
        read_error matches Some(e) ==> status == e@.1,
        read_error is None ==> status == if delivered { 0i32 } else { -1i32 },
{
    match read_error {
        Some(e) => e.code(),
        None => if delivered { 0 } else { -1 },
    }
}

} // verus!
