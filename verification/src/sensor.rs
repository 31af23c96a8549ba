//! The sensor/protocol sequencer: ordered, timing-sensitive command tables
//! that bring the CMOS sensor to a streaming-ready operating point.
//!
//! The register protocol has no discoverable semantic structure.  The
//! tables below reproduce an observed working sequence verbatim — values,
//! order and minimum delays — and the contracts pin every entry, so that no
//! step can be dropped, reordered or altered without the proof failing.
//! Shortening a delay risks silent corruption or a device hang; the
//! physical rationale behind individual writes is unknown and no
//! descriptive names are invented for them.

use crate::usb::Cmd;
use vstd::prelude::*;

verus! {

/// Number of bytes of the first EEPROM read window.
pub const EEPROM_WINDOW_1_LEN: usize = 0x1000;

/// Number of bytes of the second EEPROM read window.
pub const EEPROM_WINDOW_2_LEN: usize = 0x0cbb;

/// The two fixed EEPROM read windows, as `0x20` requests: `0x1000` bytes
/// at offset `0x0000`, then `0x0cbb` bytes at offset `0x1000`.
pub open spec fn eeprom_script() -> Seq<Cmd> {
    seq![
        Cmd::vendor_in(0x20, 0x0000, 0x0000, EEPROM_WINDOW_1_LEN),
        Cmd::vendor_in(0x20, 0x1000, 0x0000, EEPROM_WINDOW_2_LEN),
    ]
}

/// Commands that read the whole EEPROM.
pub fn eeprom_read_commands() -> (v: Vec<Cmd>)
    ensures
        v@ == eeprom_script(),
{
    let mut v: Vec<Cmd> = Vec::new();
    v.push(Cmd::VendorIn { req: 0x20, val: 0x0000, idx: 0x0000, read_len: EEPROM_WINDOW_1_LEN });
    v.push(Cmd::VendorIn { req: 0x20, val: 0x1000, idx: 0x0000, read_len: EEPROM_WINDOW_2_LEN });
    assert(v@ =~= eeprom_script());
    v
}

/// The lowercase hexadecimal SHA-1 digest of a byte sequence, a function
/// of the bytes alone.
pub uninterp spec fn sha1_hex_of(bytes: Seq<u8>) -> Seq<char>;

/// Relies on crypto::sha1::Sha1 with crypto::digest::Digest::input and
/// result_str: input calls digest the concatenation of their bytes, and
/// result_str renders the 160-bit result as 40 lowercase hex characters,
/// a function of the input bytes alone.
#[verifier::external_body]
fn sha1_hex(first: &Vec<u8>, second: &Vec<u8>) -> (r: String)
    ensures
        r@ == sha1_hex_of(first@ + second@),
        r@.len() == 40,
{
    let mut d = crypto::sha1::Sha1::new();
    crypto::digest::Digest::input(&mut d, first.as_slice());
    crypto::digest::Digest::input(&mut d, second.as_slice());
    crypto::digest::Digest::result_str(&mut d)
}

/// Identifying digest of the EEPROM contents, read as the two fixed
/// windows: the SHA-1 of their concatenation, in hex.
pub fn eeprom_digest(first: &Vec<u8>, second: &Vec<u8>) -> (r: String)
    ensures
        r@ == sha1_hex_of(first@ + second@),
        r@.len() == 40,
{
    sha1_hex(first, second)
}

fn push_sensor(v: &mut Vec<Cmd>, addr: u16, val: u16)
    ensures
        final(v)@ == old(v)@.push(Cmd::sensor(addr, val)),
{
    v.push(Cmd::SensorWrite { addr, val });
}

fn push_sys(v: &mut Vec<Cmd>, addr: u16, val: u16)
    ensures
        final(v)@ == old(v)@.push(Cmd::sys(addr, val)),
{
    v.push(Cmd::SysWrite { addr, val });
}

fn push_sleep(v: &mut Vec<Cmd>, ms: u64)
    ensures
        final(v)@ == old(v)@.push(Cmd::sleep(ms)),
{
    v.push(Cmd::Sleep { ms });
}

/// The atomic exposure sub-sequence: select, exposure time, commit, gain.
///
/// Only the `0x1064` and `0x5000` values vary between uses; the sequence
/// must run as one block with no other sequencer commands interleaved.
pub open spec fn exposure_script(val1064: u16, val5000: u16) -> Seq<Cmd> {
    seq![
        Cmd::sensor(0x1063, 0x0000),
        Cmd::sensor(0x1064, val1064),
        Cmd::sys(0x4000, 0x0000),
        Cmd::sys(0x5000, val5000),
    ]
}

fn push_exposure(v: &mut Vec<Cmd>, val1064: u16, val5000: u16)
    ensures
        final(v)@ == old(v)@ + exposure_script(val1064, val5000),
{
    push_sensor(v, 0x1063, 0x0000);
    push_sensor(v, 0x1064, val1064);
    push_sys(v, 0x4000, 0x0000);
    push_sys(v, 0x5000, val5000);
    assert(v@ =~= old(v)@ + exposure_script(val1064, val5000));
}

/// Commands that set the exposure parameters.
pub fn set_exposure_commands(val1064: u16, val5000: u16) -> (v: Vec<Cmd>)
    ensures
        v@ == exposure_script(val1064, val5000),
{
    let mut v: Vec<Cmd> = Vec::new();
    push_exposure(&mut v, val1064, val5000);
    assert(v@ =~= exposure_script(val1064, val5000));
    v
}

/// The command that sets the analog gain.
pub fn set_analog_gain_command(val1061: u16) -> (c: Cmd)
    ensures
        c == Cmd::sensor(0x1061, val1061),
{
    Cmd::SensorWrite { addr: 0x1061, val: val1061 }
}

/// The full sensor-register block written twice during initialization.
///
/// The two passes differ only in the values of registers `0x1004` and
/// `0x1006`; everything else, including the two 5 ms settle delays, is
/// identical.
pub open spec fn reg_block_script(val1004: u16, val1006: u16) -> Seq<Cmd> {
    seq![
        Cmd::sensor(0x1008, 0x4299),
        Cmd::sensor(0x100f, 0x7fff),
        Cmd::sensor(0x1001, 0x0030),
        Cmd::sensor(0x1002, 0x0003),
        Cmd::sensor(0x1003, 0x07e9),
        Cmd::sensor(0x1000, 0x0003),
        Cmd::sensor(0x1004, val1004),
        Cmd::sensor(0x1006, val1006),
        Cmd::sensor(0x1009, 0x02c0),
        Cmd::sensor(0x1005, 0x0001),
        Cmd::sensor(0x1007, 0x7fff),
        Cmd::sensor(0x100a, 0x0000),
        Cmd::sensor(0x100b, 0x0100),
        Cmd::sensor(0x100c, 0x0000),
        Cmd::sensor(0x100d, 0x2090),
        Cmd::sensor(0x100e, 0x0103),
        Cmd::sensor(0x1010, 0x0000),
        Cmd::sensor(0x1011, 0x0000),
        Cmd::sleep(5),
        Cmd::sensor(0x1000, 0x0053),
        Cmd::sensor(0x1008, 0x0298),
        Cmd::sleep(5),
    ]
}

fn push_reg_block(v: &mut Vec<Cmd>, val1004: u16, val1006: u16)
    ensures
        final(v)@ == old(v)@ + reg_block_script(val1004, val1006),
{
    push_sensor(v, 0x1008, 0x4299);
    push_sensor(v, 0x100f, 0x7fff);
    push_sensor(v, 0x1001, 0x0030);
    push_sensor(v, 0x1002, 0x0003);
    push_sensor(v, 0x1003, 0x07e9);
    push_sensor(v, 0x1000, 0x0003);
    push_sensor(v, 0x1004, val1004);
    push_sensor(v, 0x1006, val1006);
    push_sensor(v, 0x1009, 0x02c0);
    push_sensor(v, 0x1005, 0x0001);
    push_sensor(v, 0x1007, 0x7fff);
    push_sensor(v, 0x100a, 0x0000);
    push_sensor(v, 0x100b, 0x0100);
    push_sensor(v, 0x100c, 0x0000);
    push_sensor(v, 0x100d, 0x2090);
    push_sensor(v, 0x100e, 0x0103);
    push_sensor(v, 0x1010, 0x0000);
    push_sensor(v, 0x1011, 0x0000);
    push_sleep(v, 5);
    push_sensor(v, 0x1000, 0x0053);
    push_sensor(v, 0x1008, 0x0298);
    push_sleep(v, 5);
    assert(v@ =~= old(v)@ + reg_block_script(val1004, val1006));
}

/// The mode-transition block, with its mandatory 20 ms inter-command
/// delays.
pub open spec fn mode_transition_script() -> Seq<Cmd> {
    seq![
        Cmd::sys(0x1200, 0x0001),
        Cmd::sleep(20),
        Cmd::sys(0x2000, 0x0000),
        Cmd::sys(0x1200, 0x0002),
        Cmd::sleep(20),
        Cmd::sys(0x0200, 0x0001),
        Cmd::sys(0x0a00, 0x0001),
        Cmd::sleep(20),
        Cmd::sys(0x0a00, 0x0000),
        Cmd::sleep(20),
    ]
}

fn push_mode_transition(v: &mut Vec<Cmd>)
    ensures
        final(v)@ == old(v)@ + mode_transition_script(),
{
    push_sys(v, 0x1200, 0x0001);
    push_sleep(v, 20);
    push_sys(v, 0x2000, 0x0000);
    push_sys(v, 0x1200, 0x0002);
    push_sleep(v, 20);
    push_sys(v, 0x0200, 0x0001);
    push_sys(v, 0x0a00, 0x0001);
    push_sleep(v, 20);
    push_sys(v, 0x0a00, 0x0000);
    push_sleep(v, 20);
    assert(v@ =~= old(v)@ + mode_transition_script());
}

/// The final resolution/exposure/gain commit.
pub open spec fn commit_script() -> Seq<Cmd> {
    seq![
        Cmd::sys(0x103b, 0x0000),
        Cmd::sys(0x2000, 0x0001),
        Cmd::sys(0x1200, 0x0003),
        Cmd::sleep(10),
        Cmd::sys(0x8000, 0x060c),
    ] + exposure_script(0x000a, 0x0cbd) + seq![Cmd::sys(0x0a00, 0x0001)]
        + exposure_script(0x000a, 0x0cbd) + seq![Cmd::sensor(0x1061, 0x610c)]
}

fn push_commit(v: &mut Vec<Cmd>)
    ensures
        final(v)@ == old(v)@ + commit_script(),
{
    push_sys(v, 0x103b, 0x0000);
    push_sys(v, 0x2000, 0x0001);
    push_sys(v, 0x1200, 0x0003);
    push_sleep(v, 10);
    push_sys(v, 0x8000, 0x060c);
    push_exposure(v, 0x000a, 0x0cbd);
    push_sys(v, 0x0a00, 0x0001);
    push_exposure(v, 0x000a, 0x0cbd);
    push_sensor(v, 0x1061, 0x610c);
    assert(v@ =~= old(v)@ + commit_script());
}

/// The whole initialization sequence: global enable and initial exposure
/// profile, the default register block, the mode transition, the register
/// block again with its two mode-dependent values, and the final commit.
pub open spec fn sensor_init_script() -> Seq<Cmd> {
    seq![Cmd::sys(0x0200, 0x0001), Cmd::sys(0x8000, 0x09b0)]
        + exposure_script(0x0637, 0x0e24) + reg_block_script(0x0087, 0x1104)
        + mode_transition_script() + reg_block_script(0x0083, 0x11dc) + commit_script()
}

/// Build the initialization sequence.
///
/// Any step failure while running it must abort the remaining sequence and
/// surface the transport error; the device is then in an undefined
/// intermediate state and needs a full close/reopen.
pub fn sensor_init_commands() -> (v: Vec<Cmd>)
    ensures
        v@ == sensor_init_script(),
{
    let mut v: Vec<Cmd> = Vec::new();
    push_sys(&mut v, 0x0200, 0x0001);
    push_sys(&mut v, 0x8000, 0x09b0);
    push_exposure(&mut v, 0x0637, 0x0e24);
    push_reg_block(&mut v, 0x0087, 0x1104);
    push_mode_transition(&mut v);
    push_reg_block(&mut v, 0x0083, 0x11dc);
    push_commit(&mut v);
    assert(v@ =~= sensor_init_script());
    v
}

} // verus!
