//! Decisions of the streaming pipeline's producer loop.
//!
//! One execution context owns the camera and loops reading frames,
//! forwarding them over a channel to a consumer; a separate one-shot
//! channel carries a stop signal back, polled without blocking between
//! reads so the producer exits promptly.  The loop itself — the transfers,
//! the channels, the threads — is unverified plumbing; what the producer
//! decides after each read is fixed here.

use crate::frame::Frame;
use crate::Error;
use vstd::prelude::*;

verus! {

/// What a non-blocking poll of the stop channel found.
#[derive(Copy, Clone, Debug, PartialEq, Eq, Structural)]
pub enum StopPoll {
    /// No signal yet: keep going.
    Empty,
    /// The consumer asked the producer to stop.
    Requested,
    /// The stop channel is gone; treat it as a stop.
    Disconnected,
}

/// Decide the producer's next move after one read and one stop poll:
/// which frame to forward, and whether to leave the loop.
///
/// A frame is always forwarded; the benign first truncated frame is
/// discarded and the loop goes on; any other error ends the loop at once,
/// with no retry.  A pending or lost stop signal ends the loop as soon as
/// the read in flight returns.  Whoever leaves the loop still owes the
/// camera a stop.
/// The backpressure policy of the frame hand-off.  The channel itself is
/// unbounded, so the consumer drains everything that queued up since its
/// last iteration and keeps only the newest frame: older frames are
/// dropped rather than letting the queue grow without bound or the
/// producer ever block on a send.  The result pairs the frame kept, if
/// any arrived, with how many were dropped.
pub fn latest_frame(drained: Vec<Frame>) -> (r: (Option<Frame>, usize))
    ensures
        drained@.len() == 0 ==> r.0 is None && r.1 == 0,
        drained@.len() > 0 ==> (r.0 == Some(drained@[drained@.len() - 1])
            && r.1 == drained@.len() - 1),
{
    let mut drained = drained;
    let dropped = if drained.len() > 0 {
        drained.len() - 1
    } else {
        0
    };
    (drained.pop(), dropped)
}

pub fn producer_step(read: Result<Frame, Error>, stop: StopPoll) -> (r: (Option<Frame>, bool))
    ensures
        read matches Ok(f) ==> r.0 == Some(f) && r.1 == !(stop is Empty),
        read matches Err(e) && e == Error::FirstFrame ==> r.0 is None && r.1 == !(stop is Empty),
        read matches Err(e) && e != Error::FirstFrame ==> r.0 is None && r.1,
{
    let keep_going = match stop {
        StopPoll::Empty => true,
        StopPoll::Requested => false,
        StopPoll::Disconnected => false,
    };
    match read {
        Ok(f) => (Some(f), !keep_going),
        Err(Error::FirstFrame) => (None, !keep_going),
        Err(_) => (None, true),
    }
}

} // verus!
