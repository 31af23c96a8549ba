//! The control-transfer conventions of the device: the commands the driver
//! issues, their fixed wire encoding, and the acknowledgment protocol of
//! sensor-register writes.
//!
//! Every exchange with the device is a vendor control transfer with the
//! device as recipient.  Register writes, to either of the two logical
//! address spaces, ride on request `0x0b` with the value field carrying the
//! register value and the index field carrying the register address; a
//! sensor-space write additionally reads one status byte back and, when it
//! equals the ready sentinel, confirms the write with a second read at a
//! fixed index.

use vstd::prelude::*;

verus! {

/// Request type byte of an IN vendor control transfer to the device.
pub const REQUEST_TYPE_VENDOR_IN: u8 = 0xc0;

/// Request type byte of an OUT vendor control transfer to the device.
pub const REQUEST_TYPE_VENDOR_OUT: u8 = 0x40;

/// Status byte a sensor-register write answers with when it took effect.
pub const SENSOR_READY: u8 = 0x08;

/// Endpoint that carries raw frame data as bulk IN transfers.
pub const BULK_ENDPOINT_IN: u8 = 0x81;

/// Number of bytes one bulk read asks for; a transfer answering with
/// fewer marks the end of a frame.
pub const BULK_CHUNK_LEN: usize = 0x0004_0000;

/// Timeout of one bulk read, in milliseconds; shutdown latency is bounded
/// by one such read still in flight.
pub const BULK_READ_TIMEOUT_MS: u64 = 500;

/// Default timeout of a control transfer, in milliseconds.
pub const CONTROL_TIMEOUT_MS: u64 = 5000;

/// Index of the confirmation read that follows an acknowledged
/// sensor-register write.
pub const SENSOR_CONFIRM_INDEX: u16 = 0x1100;

/// One step of a device script: a single control transfer, or a mandatory
/// delay before the next step.
///
/// The register values and their order are an opaque command table taken
/// verbatim from the device protocol; the delays are part of the contract
/// with the device and may not be shortened.
#[derive(Copy, Clone, Debug, PartialEq, Eq, Structural)]
pub enum Cmd {
    /// IN vendor control transfer reading `read_len` bytes.
    VendorIn { req: u8, val: u16, idx: u16, read_len: usize },
    /// OUT vendor control transfer with an empty data stage.
    VendorOut { req: u8, val: u16, idx: u16 },
    /// Write to a sensor-space register, with the acknowledgment protocol.
    SensorWrite { addr: u16, val: u16 },
    /// Write to a system-space register, with no confirmation read.
    SysWrite { addr: u16, val: u16 },
    /// Wait at least this many milliseconds before the next step.
    Sleep { ms: u64 },
}

impl Cmd {
    pub open spec fn vendor_in(req: u8, val: u16, idx: u16, read_len: usize) -> Cmd {
        Cmd::VendorIn { req, val, idx, read_len }
    }

    pub open spec fn vendor_out(req: u8, val: u16, idx: u16) -> Cmd {
        Cmd::VendorOut { req, val, idx }
    }

    pub open spec fn sensor(addr: u16, val: u16) -> Cmd {
        Cmd::SensorWrite { addr, val }
    }

    pub open spec fn sys(addr: u16, val: u16) -> Cmd {
        Cmd::SysWrite { addr, val }
    }

    pub open spec fn sleep(ms: u64) -> Cmd {
        Cmd::Sleep { ms }
    }
}

/// Wire form of one control transfer: what goes into the setup packet, and
/// how many bytes the data stage reads back.
#[derive(Copy, Clone, Debug, PartialEq, Eq, Structural)]
pub struct ControlRequest {
    /// Direction: `true` reads from the device, `false` writes to it.
    pub dir_in: bool,
    /// Request type byte, always a vendor request to the device.
    pub request_type: u8,
    /// Vendor request code.
    pub request: u8,
    /// Value field of the setup packet.
    pub value: u16,
    /// Index field of the setup packet.
    pub index: u16,
    /// Bytes to read in the data stage of an IN transfer; 0 for OUT.
    pub read_len: usize,
}

impl Cmd {
    /// The control transfer a command stands for; `None` for a delay.
    ///
    /// Sensor- and system-space writes encode identically: request `0x0b`,
    /// the register value in the value field, the register address in the
    /// index field, one status byte read back.  Which helper issued the
    /// write, not the address range, tells the two spaces apart.
    pub open spec fn wire(self) -> Option<ControlRequest> {
        match self {
            Cmd::VendorIn { req, val, idx, read_len } => Some(
                ControlRequest {
                    dir_in: true,
                    request_type: REQUEST_TYPE_VENDOR_IN,
                    request: req,
                    value: val,
                    index: idx,
                    read_len,
                },
            ),
            Cmd::VendorOut { req, val, idx } => Some(
                ControlRequest {
                    dir_in: false,
                    request_type: REQUEST_TYPE_VENDOR_OUT,
                    request: req,
                    value: val,
                    index: idx,
                    read_len: 0,
                },
            ),
            Cmd::SensorWrite { addr, val } => Some(register_write_request(addr, val)),
            Cmd::SysWrite { addr, val } => Some(register_write_request(addr, val)),
            Cmd::Sleep { .. } => None,
        }
    }
}

/// Setup packet of a register write in either address space.
pub open spec fn register_write_request(addr: u16, val: u16) -> ControlRequest {
    ControlRequest {
        dir_in: true,
        request_type: REQUEST_TYPE_VENDOR_IN,
        request: 0x0b,
        value: val,
        index: addr,
        read_len: 1,
    }
}

/// Confirmation read that follows an acknowledged sensor-register write:
/// the same request and value, at the fixed confirmation index.
pub open spec fn sensor_confirm_request(val: u16) -> ControlRequest {
    ControlRequest {
        dir_in: true,
        request_type: REQUEST_TYPE_VENDOR_IN,
        request: 0x0b,
        value: val,
        index: SENSOR_CONFIRM_INDEX,
        read_len: 1,
    }
}

/// Lower a command to the control transfer that carries it out.
pub fn control_request(cmd: &Cmd) -> (r: Option<ControlRequest>)
    ensures
        r == cmd.wire(),
{
    match *cmd {
        Cmd::VendorIn { req, val, idx, read_len } => Some(
            ControlRequest {
                dir_in: true,
                request_type: REQUEST_TYPE_VENDOR_IN,
                request: req,
                value: val,
                index: idx,
                read_len,
            },
        ),
        Cmd::VendorOut { req, val, idx } => Some(
            ControlRequest {
                dir_in: false,
                request_type: REQUEST_TYPE_VENDOR_OUT,
                request: req,
                value: val,
                index: idx,
                read_len: 0,
            },
        ),
        Cmd::SensorWrite { addr, val } => Some(
            ControlRequest {
                dir_in: true,
                request_type: REQUEST_TYPE_VENDOR_IN,
                request: 0x0b,
                value: val,
                index: addr,
                read_len: 1,
            },
        ),
        Cmd::SysWrite { addr, val } => Some(
            ControlRequest {
                dir_in: true,
                request_type: REQUEST_TYPE_VENDOR_IN,
                request: 0x0b,
                value: val,
                index: addr,
                read_len: 1,
            },
        ),
        Cmd::Sleep { .. } => None,
    }
}

/// Decide what follows the status byte of a sensor-register write: the
/// ready sentinel earns a confirmation read, anything else is logged by the
/// caller and the write is not treated as fatal.
pub fn sensor_write_followup(val: u16, status: u8) -> (r: Option<ControlRequest>)
    ensures
        status == SENSOR_READY ==> r == Some(sensor_confirm_request(val)),
        status != SENSOR_READY ==> r is None,
{
    if status == SENSOR_READY {
        Some(
            ControlRequest {
                dir_in: true,
                request_type: REQUEST_TYPE_VENDOR_IN,
                request: 0x0b,
                value: val,
                index: SENSOR_CONFIRM_INDEX,
                read_len: 1,
            },
        )
    } else {
        None
    }
}

/// Value of a 16-bit little-endian reply, as register reads return it.
pub open spec fn spec_u16_le(lo: u8, hi: u8) -> u16 {
    (lo + hi * 0x100) as u16
}

/// Decode the 2-byte little-endian reply of a register read.
pub fn u16_from_le_reply(lo: u8, hi: u8) -> (r: u16)
    ensures
        r == spec_u16_le(lo, hi),
{
    lo as u16 + hi as u16 * 0x100
}

} // verus!
