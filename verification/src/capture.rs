//! Offline decoder for link-layer captures of the camera's control
//! traffic.
//!
//! A capture record begins with a 64-byte transfer header; control-transfer
//! submissions carry the setup packet at fixed offsets inside it.  The
//! device lazily obfuscates later register traffic: a `0x16` request seeds
//! a session key (its value field rotated right by four bit positions) and
//! the value and index fields of subsequent `0x0a`/`0x0b` requests are
//! XORed with that key until a `0x17` request clears it.  The key is
//! explicit state threaded through the record processor, since every
//! capture stream is processed independently.

use crate::usb::spec_u16_le;
use crate::usb::u16_from_le_reply;
use vstd::prelude::*;

verus! {

/// Transfer type of a captured record.
#[derive(Copy, Clone, Debug, PartialEq, Eq, Structural)]
pub enum UrbTransferType {
    Intr,
    Ctrl,
    Bulk,
}

impl UrbTransferType {
    /// The transfer-type codes the capture format defines.
    pub fn from_code(x: u8) -> (r: Option<UrbTransferType>)
        ensures
            x == 0x01 ==> r == Some(UrbTransferType::Intr),
            x == 0x02 ==> r == Some(UrbTransferType::Ctrl),
            x == 0x03 ==> r == Some(UrbTransferType::Bulk),
            !(x == 0x01 || x == 0x02 || x == 0x03) ==> r is None,
    {
        match x {
            0x01 => Some(UrbTransferType::Intr),
            0x02 => Some(UrbTransferType::Ctrl),
            0x03 => Some(UrbTransferType::Bulk),
            _ => None,
        }
    }
}

/// The logical content of one captured control-transfer submission.
#[derive(Copy, Clone, Debug, PartialEq, Eq, Structural)]
pub struct ControlPacket {
    /// Endpoint the transfer addressed.
    pub ep: u8,
    /// Request type byte of the setup packet.
    pub rt: u8,
    /// Vendor request code.
    pub req: u8,
    /// Value field, little-endian.
    pub val: u16,
    /// Index field, little-endian.
    pub idx: u16,
    /// Data-stage length, little-endian.
    pub len: u16,
}

impl ControlPacket {
    /// Where each field sits in a captured record.
    pub open spec fn parsed(data: Seq<u8>) -> ControlPacket
        recommends
            data.len() >= 0x30,
    {
        ControlPacket {
            ep: data[0x0a],
            rt: data[0x28],
            req: data[0x29],
            val: spec_u16_le(data[0x2a], data[0x2b]),
            idx: spec_u16_le(data[0x2c], data[0x2d]),
            len: spec_u16_le(data[0x2e], data[0x2f]),
        }
    }

    /// Read the setup-packet fields out of a captured record.
    pub fn parse(data: &[u8]) -> (r: ControlPacket)
        requires
            data@.len() >= 0x30,
        ensures
            r == ControlPacket::parsed(data@),
    {
        ControlPacket {
            ep: data[0x0a],
            rt: data[0x28],
            req: data[0x29],
            val: u16_from_le_reply(data[0x2a], data[0x2b]),
            idx: u16_from_le_reply(data[0x2c], data[0x2d]),
            len: u16_from_le_reply(data[0x2e], data[0x2f]),
        }
    }
}

/// A 16-bit value rotated right by four bit positions, as the `0x16`
/// request carries the session key.
pub open spec fn spec_rotate_right4(v: u16) -> u16 {
    (v >> 4) | (v << 12)
}

/// Rotate a 16-bit value right by four bit positions.
pub fn rotate_right4(v: u16) -> (r: u16)
    ensures
        r == spec_rotate_right4(v),
{
    (v >> 4) | (v << 12)
}

/// One step of de-obfuscation: how a control packet updates the session
/// key, and how the current key rewrites the packet's value and index
/// fields.
pub open spec fn spec_decode_step(key: Option<u16>, p: ControlPacket) -> (Option<u16>, ControlPacket) {
    if p.req == 0x17 {
        (None::<u16>, p)
    } else if p.req == 0x16 {
        (Some(spec_rotate_right4(p.val)), p)
    } else if p.req == 0x0a || p.req == 0x0b {
        match key {
            Some(k) => (key, ControlPacket { val: p.val ^ k, idx: p.idx ^ k, ..p }),
            None => (key, p),
        }
    } else {
        (key, p)
    }
}

/// Apply one control packet to the session key and de-obfuscate it.
pub fn decode_step(key: Option<u16>, p: ControlPacket) -> (r: (Option<u16>, ControlPacket))
    ensures
        r == spec_decode_step(key, p),
{
    if p.req == 0x17 {
        (None, p)
    } else if p.req == 0x16 {
        (Some(rotate_right4(p.val)), p)
    } else if p.req == 0x0a || p.req == 0x0b {
        match key {
            Some(k) => (key, ControlPacket { val: p.val ^ k, idx: p.idx ^ k, ..p }),
            None => (key, p),
        }
    } else {
        (key, p)
    }
}

/// What one captured record contributes: only control-transfer
/// submissions are decoded; everything else leaves the key untouched and
/// yields no packet.  Offset `0x08` holds the record's event type, where
/// `0x43` marks a completion, and offset `0x09` its transfer type.
pub open spec fn spec_record_step(key: Option<u16>, data: Seq<u8>) -> (
    Option<u16>,
    Option<ControlPacket>,
)
    recommends
        data.len() >= 0x40,
{
    if data[0x09] != 0x02 || data[0x08] == 0x43 {
        (key, None::<ControlPacket>)
    } else {
        let (k, p) = spec_decode_step(key, ControlPacket::parsed(data));
        (k, Some(p))
    }
}

/// Law: the obfuscation is an involution.  With a key in place, applying
/// the decode step twice to a register-space packet restores it: the
/// de-obfuscating XOR is the same transform the device applied.
pub proof fn lemma_decode_step_involutive(k: u16, p: ControlPacket)
    requires
        p.req == 0x0a || p.req == 0x0b,
    ensures
        spec_decode_step(Some(k), spec_decode_step(Some(k), p).1) == (Some(k), p),
{
    let q = spec_decode_step(Some(k), p).1;
    let v = p.val;
    let i = p.idx;
    assert((v ^ k) ^ k == v) by (bit_vector);
    assert((i ^ k) ^ k == i) by (bit_vector);
    assert(spec_decode_step(Some(k), q).1 == p);
}

/// Process one captured record: skip everything but control-transfer
/// submissions, and thread the de-obfuscation key through.
///
/// The record must carry one of the transfer-type codes the capture
/// format defines.
pub fn process_record(key: Option<u16>, data: &[u8]) -> (r: (Option<u16>, Option<ControlPacket>))
    requires
        data@.len() >= 0x40,
        data@[0x09] == 0x01 || data@[0x09] == 0x02 || data@[0x09] == 0x03,
    ensures
        r == spec_record_step(key, data@),
{
    let tt = UrbTransferType::from_code(data[0x09]);
    let is_ctrl = match tt {
        Some(UrbTransferType::Ctrl) => true,
        _ => false,
    };
    if !is_ctrl || data[0x08] == 0x43 {
        (key, None)
    } else {
        let p = ControlPacket::parse(data);
        let (k, q) = decode_step(key, p);
        (k, Some(q))
    }
}

} // verus!
