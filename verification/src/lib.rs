//! Driver core for a vendor-specific CMOS camera reached over USB control
//! and bulk transfers.
//!
//! Everything that decides something lives here and is verified: the command
//! tables that bring the sensor to a streaming-ready operating point, the
//! camera lifecycle state machine, the frame assembler that detects frame
//! boundaries through short bulk reads, and the producer-loop decisions of
//! the streaming pipeline.  The USB transfers themselves, and the delays
//! between them, are carried out by an unverified shell that executes the
//! commands this library hands it and feeds the outcomes back in.

pub mod capture;
pub mod frame;
pub mod pipeline;
pub mod sensor;
pub mod usb;

pub use frame::Frame;
pub use frame::FrameAssembler;

use vstd::prelude::*;

verus! {

use crate::usb::Cmd;

/// Bit depth of raw sensor data.
#[derive(Copy, Clone, Debug, PartialEq, Eq, Structural)]
pub enum BitDepth {
    BitDepth8,
    BitDepth12,
}

impl BitDepth {
    /// Number of bytes that one pixel occupies in a raw frame.
    pub fn bytes_per_pixel(self) -> (r: usize)
        ensures
            r == self.spec_bytes_per_pixel(),
    {
        match self {
            BitDepth::BitDepth8 => 1,
            BitDepth::BitDepth12 => 2,
        }
    }

    pub open spec fn spec_bytes_per_pixel(self) -> usize {
        match self {
            BitDepth::BitDepth8 => 1,
            BitDepth::BitDepth12 => 2,
        }
    }
}

/// Supported sensor/readout resolution.
#[derive(Copy, Clone, Debug, PartialEq, Eq, Structural)]
pub enum CameraMode {
    Mode0,
    Mode1,
    Mode2,
}

impl CameraMode {
    /// Width and height, in pixels, of a frame read out in this mode.
    pub fn dimensions(self) -> (r: (usize, usize))
        ensures
            r.0 == self.spec_width(),
            r.1 == self.spec_height(),
    {
        match self {
            CameraMode::Mode0 => (4632, 3488),
            CameraMode::Mode1 => (2320, 1740),
            CameraMode::Mode2 => (1536, 1160),
        }
    }

    pub open spec fn spec_width(self) -> usize {
        match self {
            CameraMode::Mode0 => 4632,
            CameraMode::Mode1 => 2320,
            CameraMode::Mode2 => 1536,
        }
    }

    pub open spec fn spec_height(self) -> usize {
        match self {
            CameraMode::Mode0 => 3488,
            CameraMode::Mode1 => 1740,
            CameraMode::Mode2 => 1160,
        }
    }
}

/// Length in bytes of one complete raw frame: width x height x bytes per pixel.
pub open spec fn spec_frame_len(mode: CameraMode, depth: BitDepth) -> int {
    mode.spec_width() * mode.spec_height() * depth.spec_bytes_per_pixel()
}

/// Compute the frame length for a mode/depth pair.
///
/// The largest value, full resolution at two bytes per pixel, is 32 312 832,
/// so the product never overflows.
pub fn frame_len_for(mode: CameraMode, depth: BitDepth) -> (r: usize)
    ensures
        r == spec_frame_len(mode, depth),
{
    let (width, height) = mode.dimensions();
    let bpp = depth.bytes_per_pixel();
    (width * height) * bpp
}

/// Kind of a USB-layer failure, as the transport reports it.
#[derive(Copy, Clone, Debug, PartialEq, Eq, Structural)]
pub enum TransportKind {
    Io,
    InvalidParam,
    Access,
    NoDevice,
    NotFound,
    Busy,
    Timeout,
    Overflow,
    Pipe,
    Interrupted,
    NoMem,
    NotSupported,
    BadDescriptor,
    Other,
}

/// Everything an operation on the camera can fail with.
#[derive(Copy, Clone, Debug, PartialEq, Eq, Structural)]
pub enum Error {
    /// No attached device carries the supported identifier.
    DeviceNotFound,
    /// A USB-layer failure; never retried internally.
    Transport(TransportKind),
    /// Mode or depth change attempted while streaming.
    ConfigurationLocked,
    /// Benign: the truncated frame expected once right after a start.
    FirstFrame,
    /// Operation unsupported in the current state.
    Unimplemented,
}

/// Vendor identifier of the one supported device.
pub const VENDOR_ID: u16 = 0x0547;

/// Product identifier of the one supported device.
pub const PRODUCT_ID: u16 = 0x3016;

/// Whether a device identifier is the one this driver supports.
pub fn is_supported_device(vid: u16, pid: u16) -> (r: bool)
    ensures
        r == (vid == VENDOR_ID && pid == PRODUCT_ID),
{
    vid == VENDOR_ID && pid == PRODUCT_ID
}

/// The commands that take an idle camera to streaming: clear the
/// obfuscation key, enable configuration, two pairs of read probes, the
/// full sensor initialization sequence, the bulk-unlock enable, and a
/// 10 ms settle.
pub open spec fn start_script() -> Seq<Cmd> {
    seq![
        Cmd::vendor_in(0x16, 0x0000, 0x0000, 2),
        Cmd::vendor_out(0x01, 0x0001, 0x000f),
        Cmd::vendor_in(0x0a, 0x0000, 0xffff, 2),
        Cmd::vendor_in(0x0a, 0x0000, 0xffff, 2),
        Cmd::vendor_in(0x0a, 0x0000, 0xfeff, 2),
        Cmd::vendor_in(0x0a, 0x0000, 0xfeff, 2),
    ] + sensor::sensor_init_script() + seq![
        Cmd::vendor_out(0x01, 0x0003, 0x000f),
        Cmd::sleep(10),
    ]
}

/// The commands that take a streaming camera back to idle: a stop
/// indication to both register spaces, the disable command, a final
/// status read, and a settle delay.
pub open spec fn stop_script() -> Seq<Cmd> {
    seq![
        Cmd::sys(0x0a00, 0x0000),
        Cmd::sensor(0x1000, 0x0000),
        Cmd::vendor_out(0x01, 0x0000, 0x000f),
        Cmd::vendor_in(0x17, 0x0000, 0x0000, 4),
        Cmd::sleep(10),
    ]
}

fn build_start_script() -> (v: Vec<Cmd>)
    ensures
        v@ == start_script(),
{
    let mut v: Vec<Cmd> = Vec::new();
    v.push(Cmd::VendorIn { req: 0x16, val: 0x0000, idx: 0x0000, read_len: 2 });
    v.push(Cmd::VendorOut { req: 0x01, val: 0x0001, idx: 0x000f });
    v.push(Cmd::VendorIn { req: 0x0a, val: 0x0000, idx: 0xffff, read_len: 2 });
    v.push(Cmd::VendorIn { req: 0x0a, val: 0x0000, idx: 0xffff, read_len: 2 });
    v.push(Cmd::VendorIn { req: 0x0a, val: 0x0000, idx: 0xfeff, read_len: 2 });
    v.push(Cmd::VendorIn { req: 0x0a, val: 0x0000, idx: 0xfeff, read_len: 2 });
    let mut init = sensor::sensor_init_commands();
    v.append(&mut init);
    v.push(Cmd::VendorOut { req: 0x01, val: 0x0003, idx: 0x000f });
    v.push(Cmd::Sleep { ms: 10 });
    assert(v@ =~= start_script());
    v
}

fn build_stop_script() -> (v: Vec<Cmd>)
    ensures
        v@ == stop_script(),
{
    let mut v: Vec<Cmd> = Vec::new();
    v.push(Cmd::SysWrite { addr: 0x0a00, val: 0x0000 });
    v.push(Cmd::SensorWrite { addr: 0x1000, val: 0x0000 });
    v.push(Cmd::VendorOut { req: 0x01, val: 0x0000, idx: 0x000f });
    v.push(Cmd::VendorIn { req: 0x17, val: 0x0000, idx: 0x0000, read_len: 4 });
    v.push(Cmd::Sleep { ms: 10 });
    assert(v@ =~= stop_script());
    v
}

/// The camera lifecycle state machine.
///
/// It owns the driver's view of the device — mode, bit depth, whether the
/// device is streaming, and whether the benign first truncated frame is
/// still expected — and decides which commands to issue for each
/// transition.  An unverified shell executes the commands and reports the
/// outcome back through the `finish_*` methods.
pub struct Camera {
    /// Set when the camera is streaming data.
    streaming: bool,
    /// The current sensor/readout mode.
    mode: CameraMode,
    /// The current bit depth.
    depth: BitDepth,
    /// Whether no frame read-out has happened since the last start, so
    /// that one truncated frame is still expected and benign.
    first_read_pending: bool,
}

impl Camera {
    pub closed spec fn spec_streaming(self) -> bool {
        self.streaming
    }

    pub closed spec fn spec_mode(self) -> CameraMode {
        self.mode
    }

    pub closed spec fn spec_depth(self) -> BitDepth {
        self.depth
    }

    pub closed spec fn spec_first_read_pending(self) -> bool {
        self.first_read_pending
    }

    /// The camera state after a fully successful start script.
    pub closed spec fn started(self) -> Camera {
        Camera { streaming: true, first_read_pending: true, ..self }
    }

    /// The camera state after the stop script ran, whatever it returned.
    pub closed spec fn stopped(self) -> Camera {
        Camera { streaming: false, ..self }
    }

    /// The camera state after one frame read-out was classified.
    pub closed spec fn after_read(self) -> Camera {
        Camera { first_read_pending: false, ..self }
    }

    /// Length in bytes of one complete frame at the current mode/depth.
    pub open spec fn spec_frame_len(self) -> int {
        spec_frame_len(self.spec_mode(), self.spec_depth())
    }

    /// A fresh idle camera state with the default mode and depth.
    pub fn new() -> (r: Camera)
        ensures
            !r.spec_streaming(),
            r.spec_mode() == CameraMode::Mode1,
            r.spec_depth() == BitDepth::BitDepth12,
            !r.spec_first_read_pending(),
    {
        Camera {
            streaming: false,
            mode: CameraMode::Mode1,
            depth: BitDepth::BitDepth12,
            first_read_pending: false,
        }
    }

    pub fn get_mode(&self) -> (r: CameraMode)
        ensures
            r == self.spec_mode(),
    {
        self.mode
    }

    pub fn get_depth(&self) -> (r: BitDepth)
        ensures
            r == self.spec_depth(),
    {
        self.depth
    }

    /// Change the bit depth.  Permitted only while idle: a streaming
    /// camera refuses with `ConfigurationLocked` and keeps its values.
    pub fn set_depth(&mut self, depth: BitDepth) -> (r: Result<(), Error>)
        ensures
            old(self).spec_streaming() ==> r == Err::<(), Error>(Error::ConfigurationLocked)
                && *final(self) == *old(self),
            !old(self).spec_streaming() ==> r is Ok && final(self).spec_depth() == depth
                && final(self).spec_mode() == old(self).spec_mode()
                && !final(self).spec_streaming(),
    {
        if self.streaming {
            return Err(Error::ConfigurationLocked);
        }
        self.depth = depth;
        Ok(())
    }

    /// Change the readout mode.  Permitted only while idle: a streaming
    /// camera refuses with `ConfigurationLocked` and keeps its values.
    pub fn set_mode(&mut self, mode: CameraMode) -> (r: Result<(), Error>)
        ensures
            old(self).spec_streaming() ==> r == Err::<(), Error>(Error::ConfigurationLocked)
                && *final(self) == *old(self),
            !old(self).spec_streaming() ==> r is Ok && final(self).spec_mode() == mode
                && final(self).spec_depth() == old(self).spec_depth()
                && !final(self).spec_streaming(),
    {
        if self.streaming {
            return Err(Error::ConfigurationLocked);
        }
        self.mode = mode;
        Ok(())
    }

    /// Compute the frame length for the current mode and depth.
    pub fn frame_len(&self) -> (r: usize)
        ensures
            r == self.spec_frame_len(),
    {
        frame_len_for(self.mode, self.depth)
    }

    /// What a start must run: `None` when already streaming.
    pub open spec fn start_plan(self) -> Option<Seq<Cmd>> {
        if self.spec_streaming() {
            None
        } else {
            Some(start_script())
        }
    }

    /// Commands that take the camera to streaming, in order; `None` when
    /// the camera already streams, which makes a second start a no-op
    /// that never re-runs the sequencer.
    pub fn start_stream(&self) -> (r: Option<Vec<Cmd>>)
        ensures
            r is None <==> self.spec_streaming(),
            r matches Some(v) ==> v@ == start_script(),
            r is None <==> self.start_plan() is None,
    {
        if self.streaming {
            None
        } else {
            Some(build_start_script())
        }
    }

    /// Record the outcome of running the start script.
    ///
    /// Only a fully successful run reaches the streaming state, with the
    /// benign first truncated frame pending; any step failure leaves the
    /// recorded state unchanged and surfaces the transport error — the
    /// device itself is then in an undefined intermediate state and needs
    /// a close and reopen.
    pub fn finish_start(&mut self, outcome: Result<(), TransportKind>) -> (r: Result<(), Error>)
        requires
            !old(self).spec_streaming(),
        ensures
            outcome is Ok ==> *final(self) == old(self).started() && r is Ok
                && final(self).spec_streaming() && final(self).spec_first_read_pending()
                && final(self).spec_mode() == old(self).spec_mode()
                && final(self).spec_depth() == old(self).spec_depth(),
            outcome matches Err(k) ==> *final(self) == *old(self)
                && r == Err::<(), Error>(Error::Transport(k)),
    {
        match outcome {
            Ok(()) => {
                self.streaming = true;
                self.first_read_pending = true;
                Ok(())
            },
            Err(k) => Err(Error::Transport(k)),
        }
    }

    /// What a stop must run: `None` when already idle.
    pub open spec fn stop_plan(self) -> Option<Seq<Cmd>> {
        if self.spec_streaming() {
            Some(stop_script())
        } else {
            None
        }
    }

    /// Commands that take the camera back to idle, in order; `None` when
    /// the camera is already idle, which makes the stop a no-op.
    pub fn stop_stream(&self) -> (r: Option<Vec<Cmd>>)
        ensures
            r is None <==> !self.spec_streaming(),
            r matches Some(v) ==> v@ == stop_script(),
            r is None <==> self.stop_plan() is None,
    {
        if self.streaming {
            Some(build_stop_script())
        } else {
            None
        }
    }

    /// Record that the stop script ran.
    ///
    /// The camera reaches idle unconditionally — even when the final
    /// status read failed — since the device could otherwise never close
    /// cleanly; the error is still surfaced to the caller.
    pub fn finish_stop(&mut self, outcome: Result<(), TransportKind>) -> (r: Result<(), Error>)
        requires
            old(self).spec_streaming(),
        ensures
            *final(self) == old(self).stopped(),
            !final(self).spec_streaming(),
            final(self).spec_mode() == old(self).spec_mode(),
            final(self).spec_depth() == old(self).spec_depth(),
            outcome is Ok ==> r is Ok,
            outcome matches Err(k) ==> r == Err::<(), Error>(Error::Transport(k)),
    {
        self.streaming = false;
        match outcome {
            Ok(()) => Ok(()),
            Err(k) => Err(Error::Transport(k)),
        }
    }

    /// Start assembling one frame at the current mode and depth.
    pub fn begin_frame(&self) -> (r: FrameAssembler)
        ensures
            r.wf(),
            r.spec_target() == self.spec_frame_len(),
            r.received() == Seq::<u8>::empty(),
            !r.spec_done(),
    {
        FrameAssembler::new(self.frame_len())
    }

    /// Classify one assembled read-out.
    ///
    /// A complete frame comes back with the current dimensions and its
    /// buffer exactly `frame_len` bytes long.  A truncated read-out is
    /// `FirstFrame` — benign, the caller retries — only on the first
    /// read after a start; on any later read it is a transport-level
    /// failure.  Either way the first-read allowance is consumed.
    pub fn finish_frame(&mut self, assembled: FrameAssembler, elapsed_ms: u64) -> (r: Result<
        Frame,
        Error,
    >)
        requires
            assembled.wf(),
            assembled.spec_target() == old(self).spec_frame_len(),
        ensures
            *final(self) == old(self).after_read(),
            !final(self).spec_first_read_pending(),
            final(self).spec_streaming() == old(self).spec_streaming(),
            final(self).spec_mode() == old(self).spec_mode(),
            final(self).spec_depth() == old(self).spec_depth(),
            assembled.complete() ==> (r matches Ok(f) && f.data@ == assembled.spec_data()
                && f.data@.len() == old(self).spec_frame_len()
                && f.width == old(self).spec_mode().spec_width()
                && f.height == old(self).spec_mode().spec_height()
                && f.bpp == old(self).spec_depth().spec_bytes_per_pixel()
                && f.elapsed_ms == elapsed_ms),
            !assembled.complete() && old(self).spec_first_read_pending() ==> r == Err::<Frame, Error>(
                Error::FirstFrame,
            ),
            !assembled.complete() && !old(self).spec_first_read_pending() ==> r == Err::<Frame, Error>(
                Error::Transport(TransportKind::Io),
            ),
    {
        let first = self.first_read_pending;
        self.first_read_pending = false;
        let target = self.frame_len();
        let filled = assembled.len();
        if filled == target {
            let (width, height) = self.mode.dimensions();
            let bpp = self.depth.bytes_per_pixel();
            let data = assembled.into_data();
            Ok(Frame { data, height, width, bpp, elapsed_ms })
        } else if first {
            Err(Error::FirstFrame)
        } else {
            Err(Error::Transport(TransportKind::Io))
        }
    }
}

/// Law: starting is idempotent.  A successful start leaves the camera
/// streaming, and a streaming camera's start plan is `None`: a second
/// start succeeds without re-running the sequencer.
pub proof fn lemma_start_stream_idempotent(c: Camera)
    requires
        !c.spec_streaming(),
    ensures
        c.started().spec_streaming(),
        c.started().start_plan() is None,
{
}

/// Law: a stop on an idle camera plans nothing, and after streaming the
/// camera reaches idle whatever the stop script's outcome was, with mode
/// and depth untouched.
pub proof fn lemma_stop_stream_reaches_idle(c: Camera)
    ensures
        !c.spec_streaming() ==> c.stop_plan() is None,
        !c.stopped().spec_streaming(),
        c.stopped().spec_mode() == c.spec_mode(),
        c.stopped().spec_depth() == c.spec_depth(),
{
}

/// Law: every planned start runs the full sensor initialization
/// sequence, in one piece, after the enable and probes and before the
/// bulk unlock; an idle camera cannot reach streaming around it.
pub proof fn lemma_start_plan_runs_sequencer(c: Camera)
    requires
        !c.spec_streaming(),
    ensures
        c.start_plan() matches Some(s) && s.subrange(6, s.len() - 2)
            == sensor::sensor_init_script(),
{
    let s = start_script();
    assert(s.subrange(6, s.len() - 2) =~= sensor::sensor_init_script());
}

/// Law: a successful start opens the window for exactly one benign
/// truncated read-out: it is pending right after the start, and consumed
/// by the first classification.
pub proof fn lemma_first_read_window(c: Camera)
    requires
        !c.spec_streaming(),
    ensures
        c.started().spec_first_read_pending(),
        !c.started().after_read().spec_first_read_pending(),
{
}

} // verus!
