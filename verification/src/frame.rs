//! Frame assembly: collecting bulk-transfer chunks into one raw frame and
//! detecting the frame boundary.
//!
//! The device marks the end of a frame implicitly: a bulk read that returns
//! fewer bytes than requested.  The assembler accumulates every chunk,
//! truncating whatever would run past the frame length, and reports when a
//! short read ended the frame.

use vstd::prelude::*;

verus! {

/// Container for a frame of raw image data returned by the device.
#[derive(Debug)]
pub struct Frame {
    /// Raw image data (in bytes).
    pub data: Vec<u8>,
    /// Number of rows.
    pub height: usize,
    /// Number of columns.
    pub width: usize,
    /// Number of bytes per pixel.
    pub bpp: usize,
    /// How long the read-out took, in milliseconds, for diagnostics.
    pub elapsed_ms: u64,
}

/// Accumulates bulk-read chunks until a short read ends the frame.
pub struct FrameAssembler {
    /// Frame bytes collected so far, capped at `target`.
    data: Vec<u8>,
    /// Length in bytes of a complete frame.
    target: usize,
    /// Whether a short read has ended this frame.
    done: bool,
    /// Every byte handed in, before truncation.
    received: Ghost<Seq<u8>>,
}

impl FrameAssembler {
    /// Length in bytes of the frame being assembled.
    pub closed spec fn spec_target(self) -> usize {
        self.target
    }

    /// All bytes handed to `accept` so far, in order.
    pub closed spec fn received(self) -> Seq<u8> {
        self.received@
    }

    /// Whether a short read has ended this frame.
    pub closed spec fn spec_done(self) -> bool {
        self.done
    }

    /// The assembled frame bytes: what was received, truncated to the
    /// frame length.
    pub closed spec fn spec_data(self) -> Seq<u8> {
        self.data@
    }

    /// How many bytes of the frame buffer are filled.
    pub open spec fn assembled_len(self) -> int {
        if self.received().len() < self.spec_target() {
            self.received().len() as int
        } else {
            self.spec_target() as int
        }
    }

    /// The buffer holds exactly the received bytes, truncated to the frame
    /// length.
    pub open spec fn wf(self) -> bool {
        &&& self.spec_data().len() == self.assembled_len()
        &&& self.spec_data() == self.received().take(self.assembled_len())
    }

    /// Whether a full frame's worth of bytes has arrived.
    pub open spec fn complete(self) -> bool {
        self.spec_data().len() == self.spec_target()
    }

    /// Start assembling a frame of `frame_len` bytes.
    pub fn new(frame_len: usize) -> (r: Self)
        ensures
            r.wf(),
            r.spec_target() == frame_len,
            r.received() == Seq::<u8>::empty(),
            !r.spec_done(),
    {
        let r = FrameAssembler {
            data: Vec::new(),
            target: frame_len,
            done: false,
            received: Ghost(Seq::empty()),
        };
        proof {
            assert(r.spec_data() =~= r.received().take(r.assembled_len()));
        }
        r
    }

    /// Take one bulk-read result: `chunk` is what arrived of a transfer
    /// that asked for `requested` bytes.
    ///
    /// Bytes past the frame length are dropped; a chunk shorter than what
    /// was requested is the device's end-of-frame mark and ends assembly,
    /// whatever has accumulated.
    pub fn accept(&mut self, chunk: &[u8], requested: usize) -> (done: bool)
        requires
            old(self).wf(),
            !old(self).spec_done(),
            chunk@.len() <= requested,
        ensures
            final(self).wf(),
            final(self).spec_target() == old(self).spec_target(),
            final(self).received() == old(self).received() + chunk@,
            done == (chunk@.len() < requested),
            final(self).spec_done() == done,
    {
        let rem = self.target - self.data.len();
        let copy_len = if chunk.len() > rem {
            rem
        } else {
            chunk.len()
        };
        self.data.extend_from_slice(&chunk[0..copy_len]);
        let done = chunk.len() < requested;
        if done {
            self.done = true;
        }
        proof {
            self.received@ = self.received@ + chunk@;
            assert(self.data@ =~= self.received@.take(self.assembled_len()));
        }
        done
    }

    /// The assembled bytes, consumed to build a `Frame`.
    pub fn into_data(self) -> (r: Vec<u8>)
        ensures
            r@ == self.spec_data(),
    {
        self.data
    }

    /// Filled length so far.
    pub fn len(&self) -> (r: usize)
        requires
            self.wf(),
        ensures
            r == self.assembled_len(),
            r == self.spec_data().len(),
    {
        self.data.len()
    }
}

} // verus!
