//! What one call on a non-blocking socket brought, and what a driver makes
//! of it.
//!
//! A driver reads into a buffer of `READ_BUFFER_LEN` bytes and passes on what
//! one read brought as one payload, so a payload holds less than that. A read
//! that fills the buffer may have cut a message short, and a write that took
//! less than the whole payload has: both end the channel.

use crate::channel::ChannelError;
use vstd::array::array_as_slice;
use vstd::prelude::*;
use vstd::slice::{slice_subrange, slice_to_vec};

verus! {

/// The size of the buffer that a driver reads into.
pub const READ_BUFFER_LEN: usize = 4096;

/// The most bytes that one payload holds.
pub const MAX_PAYLOAD_LEN: usize = 4095;

/// The outcome of one read or write on a non-blocking socket.
#[derive(Debug, Clone, Copy, PartialEq, Eq, Structural)]
pub enum IoOutcome {
    /// The call moved this many bytes.
    Done(usize),
    /// The call would have had to wait.
    WouldBlock,
    /// The call failed.
    Failed,
}

/// The first `count` bytes of the buffer.
pub(crate) fn filled(buffer: &[u8; 4096], count: usize) -> (bytes: Vec<u8>)
    requires
        count <= READ_BUFFER_LEN,
    ensures
        bytes@ == buffer@.take(count as int),
{
    let whole = array_as_slice(buffer);
    slice_to_vec(slice_subrange(whole, 0, count))
}

/// What a driver answers to `send` once its socket has been asked to write a
/// payload of `len` bytes: success if the socket took all of it.
pub fn stream_sent(len: usize, outcome: IoOutcome) -> (done: Result<(), ChannelError>)
    ensures
        done == match outcome {
            IoOutcome::Done(count) => if count == len {
                Ok::<(), ChannelError>(())
            } else {
                Err::<(), ChannelError>(ChannelError::PacketTooLarge)
            },
            IoOutcome::WouldBlock => Err::<(), ChannelError>(ChannelError::Io),
            IoOutcome::Failed => Err::<(), ChannelError>(ChannelError::Io),
        },
{
    match outcome {
        IoOutcome::Done(count) => if count == len {
            Ok(())
        } else {
            Err(ChannelError::PacketTooLarge)
        },
        IoOutcome::WouldBlock => Err(ChannelError::Io),
        IoOutcome::Failed => Err(ChannelError::Io),
    }
}

/// What a driver's `receive` is to answer, as a contract's value.
pub open spec fn stream_payload(buffer: Seq<u8>, outcome: IoOutcome) -> Result<
    Option<Seq<u8>>,
    ChannelError,
> {
    match outcome {
        IoOutcome::Done(count) => if count == 0 {
            Err(ChannelError::Disconnected)
        } else if count >= READ_BUFFER_LEN {
            Err(ChannelError::PacketTooLarge)
        } else {
            Ok(Some(buffer.take(count as int)))
        },
        IoOutcome::WouldBlock => Ok(None),
        IoOutcome::Failed => Err(ChannelError::Io),
    }
}

/// What a driver answers to `receive` once its socket has been asked to read
/// into `buffer`. A read of no bytes means that the target has closed; a read
/// that filled the buffer is too large; any other read is one payload. A read
/// that would have had to wait has nothing ready.
pub fn stream_received(buffer: &[u8; 4096], outcome: IoOutcome) -> (payload: Result<
    Option<Vec<u8>>,
    ChannelError,
>)
    ensures
        match payload {
            Ok(Some(bytes)) => stream_payload(buffer@, outcome) == Ok::<
                Option<Seq<u8>>,
                ChannelError,
            >(Some(bytes@)),
            Ok(None) => stream_payload(buffer@, outcome) == Ok::<Option<Seq<u8>>, ChannelError>(
                None,
            ),
            Err(error) => stream_payload(buffer@, outcome) == Err::<
                Option<Seq<u8>>,
                ChannelError,
            >(error),
        },
{
    match outcome {
        IoOutcome::Done(count) => if count == 0 {
            Err(ChannelError::Disconnected)
        } else if count >= READ_BUFFER_LEN {
            Err(ChannelError::PacketTooLarge)
        } else {
            Ok(Some(filled(buffer, count)))
        },
        IoOutcome::WouldBlock => Ok(None),
        IoOutcome::Failed => Err(ChannelError::Io),
    }
}

/// A payload that a driver passes on is never empty and never longer than
/// `MAX_PAYLOAD_LEN`.
pub proof fn stream_payload_is_bounded(buffer: Seq<u8>, outcome: IoOutcome)
    requires
        buffer.len() == READ_BUFFER_LEN,
    ensures
        stream_payload(buffer, outcome) matches Ok(Some(bytes)) ==> 0 < bytes.len()
            <= MAX_PAYLOAD_LEN,
{
}

} // verus!
