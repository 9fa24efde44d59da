//! The decisions of an I/O proc: whether `play` and `pause` may start or
//! stop the device, what their outcome is once the HAL has answered, and the
//! shape of each buffer handed to the render callback.

use vstd::prelude::*;
use crate::errors::{error_value, kind_of_status, CoreAudioError, ErrorKind};

verus! {

/// Whether the I/O cycle of a registered I/O proc is running.
#[derive(Debug, Clone, Copy, PartialEq, Eq, Structural)]
pub struct IOProcState {
    is_running: bool,
}

impl View for IOProcState {
    type V = bool;

    /// Whether the I/O cycle is running.
    closed spec fn view(&self) -> bool {
        self.is_running
    }
}

/// The state and the result after asking to start or stop the cycle.
///
/// `running` is the state before, `to_running` whether the request is
/// `play` (`true`) or `pause` (`false`), and `status` what the HAL answered
/// to the start or stop call, which is made only when the state differs
/// from the one asked for.
pub open spec fn transition(running: bool, to_running: bool, status: i32) -> (
    bool,
    Result<(), CoreAudioError>,
) {
    if running == to_running {
        (
            running,
            Err(
                error_value(
                    if to_running {
                        ErrorKind::AlreadyRunning
                    } else {
                        ErrorKind::AlreadyPaused
                    },
                    -1i32,
                ),
            ),
        )
    } else if status == 0 {
        (to_running, Ok(()))
    } else {
        (running, Err(error_value(kind_of_status(status), status)))
    }
}

impl IOProcState {
    /// The state of a freshly registered proc: stopped.
    pub fn new() -> (s: Self)
        ensures
            !s@,
    {
        IOProcState { is_running: false }
    }

    /// Whether the I/O cycle is running.
    pub fn is_running(&self) -> (r: bool)
        ensures
            r == self@,
    {
        self.is_running
    }

    /// The first step of `play`: an `AlreadyRunning` error if the cycle
    /// runs, else `Ok`, and the device is to be started.
    pub fn begin_play(&self) -> (r: Result<(), CoreAudioError>)
        ensures
            r is Ok <==> !self@,
            r matches Err(e) ==> e == error_value(ErrorKind::AlreadyRunning, -1i32),
    {
        if self.is_running {
            return Err(CoreAudioError::from_error_kind(ErrorKind::AlreadyRunning));
        }
        Ok(())
    }

    /// The last step of `play`, with the status that starting the device
    /// gave: on success the cycle runs, otherwise the state is unchanged and
    /// the status is the error.
    pub fn finish_play(&mut self, status: i32) -> (r: Result<(), CoreAudioError>)
        requires
            !old(self)@,
        ensures
            (final(self)@, r) == transition(false, true, status),
    {
        if status != 0 {
            return Err(CoreAudioError::from_os_status(status));
        }
        self.is_running = true;
        Ok(())
    }

    /// The first step of `pause`: an `AlreadyPaused` error if the cycle is
    /// stopped, else `Ok`, and the device is to be stopped.
    pub fn begin_pause(&self) -> (r: Result<(), CoreAudioError>)
        ensures
            r is Ok <==> self@,
            r matches Err(e) ==> e == error_value(ErrorKind::AlreadyPaused, -1i32),
    {
        if !self.is_running {
            return Err(CoreAudioError::from_error_kind(ErrorKind::AlreadyPaused));
        }
        Ok(())
    }

    /// The last step of `pause`, with the status that stopping the device
    /// gave: on success the cycle is stopped, otherwise the state is
    /// unchanged and the status is the error.
    pub fn finish_pause(&mut self, status: i32) -> (r: Result<(), CoreAudioError>)
        requires
            old(self)@,
        ensures
            (final(self)@, r) == transition(true, false, status),
    {
        if status != 0 {
            return Err(CoreAudioError::from_os_status(status));
        }
        self.is_running = false;
        Ok(())
    }
}

/// `play` and `pause` as a whole: a request for the state the cycle is
/// already in fails and changes nothing; a request that the HAL grants
/// reaches the state asked for; one that it refuses leaves the state and
/// reports the refusal. So `play` then `pause`, both granted, come back to
/// the state before.
pub proof fn lemma_play_pause(running: bool, status: i32)
    ensures
        transition(running, running, status).0 == running,
        transition(running, running, status).1 is Err,
        transition(running, !running, 0) == (!running, Ok::<(), CoreAudioError>(())),
        status != 0 ==> transition(running, !running, status).0 == running,
        status != 0 ==> transition(running, !running, status).1 == Err::<(), CoreAudioError>(
            error_value(kind_of_status(status), status),
        ),
        transition(transition(false, true, 0).0, false, 0).0 == false,
{
}

// ---- Buffers handed to the render callback ----

/// How the render callback sees one output buffer.
#[derive(Debug, Clone, Copy, PartialEq, Eq, Structural)]
pub struct BufferShape {
    /// The number of `f32` samples the buffer holds.
    pub sample_count: usize,
    /// The number of channels in the buffer.
    pub channels: u32,
    /// `true` if several channels share the buffer.
    pub is_interleaved: bool,
    /// The number of frames in this I/O cycle.
    pub frame_count: u32,
}

/// The shape of a buffer of `byte_size` bytes carrying `channels` channels
/// of `f32` samples. A buffer with no channel, or with so many that four
/// bytes per channel exceed a `u32`, is not served.
pub fn buffer_shape(byte_size: u32, channels: u32) -> (s: BufferShape)
    requires
        0 < channels,
        channels * 4 <= u32::MAX,
    ensures
        s.sample_count == byte_size / 4,
        s.channels == channels,
        s.is_interleaved == (channels > 1),
        s.frame_count == byte_size as int / (channels * 4),
{
    BufferShape {
        sample_count: (byte_size / 4) as usize,
        channels,
        is_interleaved: channels > 1,
        frame_count: byte_size / (channels * 4),
    }
}

} // verus!
