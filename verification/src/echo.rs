//! The loopback driver: it hands back what it is sent, and closes after a
//! fixed time.

use crate::channel::{ChannelError, ChannelStatus, ChannelStream};
use crate::clock::{elapsed, nanos, now};
use std::collections::VecDeque;
use vstd::prelude::*;
use web_time::Instant;

verus! {

/// How long a loopback stays connected, in nanoseconds: three seconds.
pub const ECHO_LIFETIME_NANOS: u128 = 3_000_000_000;

/// The status of a loopback that was made `waited` nanoseconds ago: connected
/// until its lifetime is over, disconnected from then on.
pub fn echo_status(waited: u128) -> (status: ChannelStatus)
    ensures
        status == if waited > ECHO_LIFETIME_NANOS {
            ChannelStatus::Disconnected
        } else {
            ChannelStatus::Connected
        },
{
    if waited > ECHO_LIFETIME_NANOS {
        ChannelStatus::Disconnected
    } else {
        ChannelStatus::Connected
    }
}

/// A driver without a target: a queue of the payloads that were sent and not
/// yet received back.
pub struct EchoChannelStream {
    instant: Instant,
    packets: VecDeque<Vec<u8>>,
}

impl View for EchoChannelStream {
    type V = Seq<Seq<u8>>;

    /// The payloads in the queue, oldest first.
    closed spec fn view(&self) -> Seq<Seq<u8>> {
        Seq::new(self.packets@.len(), |i: int| self.packets@[i]@)
    }
}

impl EchoChannelStream {
    /// The moment at which the loopback was made, from which its lifetime
    /// runs. No operation moves it.
    pub closed spec fn made(&self) -> Instant {
        self.instant
    }

    /// A loopback with an empty queue, whose lifetime starts now.
    pub fn new() -> (stream: EchoChannelStream)
        ensures
            stream@ == Seq::<Seq<u8>>::empty(),
    {
        let stream = EchoChannelStream { instant: now(), packets: VecDeque::new() };
        proof {
            assert(stream@ =~= Seq::<Seq<u8>>::empty());
        }
        stream
    }
}

impl ChannelStream for EchoChannelStream {
    /// Connected or disconnected, as `echo_status` says of the time that the
    /// clock gives since the moment at which the loopback was made; the queue
    /// and that moment stay as they are.
    fn status(&mut self) -> (status: Result<ChannelStatus, ChannelError>)
        ensures
            final(self)@ == old(self)@,
            final(self).made() == old(self).made(),
            status == Ok::<ChannelStatus, ChannelError>(ChannelStatus::Connected) || status == Ok::<
                ChannelStatus,
                ChannelError,
            >(ChannelStatus::Disconnected),
    {
        let waited: u128 = nanos(&elapsed(&self.instant));
        Ok(echo_status(waited))
    }

    /// Puts the payload at the end of the queue.
    fn send(&mut self, data: Vec<u8>) -> (done: Result<(), ChannelError>)
        ensures
            done is Ok,
            final(self)@ == old(self)@.push(data@),
            final(self).made() == old(self).made(),
    {
        self.packets.push_back(data);
        proof {
            assert(final(self)@ =~= old(self)@.push(data@));
        }
        Ok(())
    }

    /// Takes the oldest payload from the queue, if there is one.
    fn receive(&mut self) -> (payload: Result<Option<Vec<u8>>, ChannelError>)
        ensures
            match payload {
                Ok(Some(data)) => old(self)@.len() > 0 && data@ == old(self)@[0] && final(self)@
                    == old(self)@.skip(1),
                Ok(None) => old(self)@.len() == 0 && final(self)@ == old(self)@,
                Err(_) => false,
            },
            final(self).made() == old(self).made(),
    {
        let payload = self.packets.pop_front();
        proof {
            if payload is Some {
                assert(final(self)@ =~= old(self)@.skip(1));
            } else {
                assert(final(self)@ =~= old(self)@);
            }
        }
        Ok(payload)
    }
}

} // verus!
