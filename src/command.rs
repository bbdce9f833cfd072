//! Command packets of the headset's control protocol and the parameters of
//! the control transfers that carry them.

use vstd::prelude::*;
use crate::hex::{pad_packet, pad_to_packet, PACKET_LEN};

verus! {

/// `bmRequestType` of a command write: host to device, class, interface.
pub const WRITE_REQUEST_TYPE: u8 = 0x21;

/// `bRequest` of a command write.
pub const WRITE_REQUEST: u8 = 9;

/// `bmRequestType` of a response read: device to host, class, interface.
pub const READ_REQUEST_TYPE: u8 = 0xa1;

/// `bRequest` of a response read.
pub const READ_REQUEST: u8 = 1;

/// `wValue` of every control transfer.
pub const CONTROL_VALUE: u16 = 0x03ff;

/// `wIndex` of every control transfer.
pub const CONTROL_INDEX: u16 = 5;

/// Timeout of every control transfer, in seconds.
pub const TIMEOUT_SECS: u64 = 4;

/// Lowest microphone-monitor level that the device accepts.
pub const MIC_LEVEL_MIN: u8 = 0xc0;

/// First microphone-monitor level above the accepted range.
pub const MIC_LEVEL_END: u8 = 0xec;

/// Largest accepted percentage for brightness and haptics.
pub const PERCENT_MAX: u8 = 100;

pub open spec fn mic_monitor_prefix() -> Seq<u8> {
    seq![0xffu8, 0x0a, 0x00, 0xff, 0x04, 0x0e, 0xf1, 0x05, 0x01, 0x04, 0x00]
}

pub open spec fn haptic_prefix() -> Seq<u8> {
    seq![0xffu8, 0x0a, 0x00, 0xff, 0x04, 0x02, 0xf1, 0x06, 0x20]
}

pub open spec fn brightness_prefix() -> Seq<u8> {
    seq![0xffu8, 0x0a, 0x00, 0xff, 0x04, 0x12, 0xf1, 0x03, 0x71]
}

/// Prefix of the lighting commands that set a colour; alone it turns the
/// lighting off.
pub open spec fn color_prefix() -> Seq<u8> {
    seq![0xffu8, 0x0a, 0x00, 0xff, 0x04, 0x12, 0xf1, 0x05, 0x72]
}

pub open spec fn voltage_query_prefix() -> Seq<u8> {
    seq![0xffu8, 0x0a, 0x00, 0xfd, 0x04, 0x12, 0xf1, 0x02, 0x05]
}

/// The microphone-monitor level that is sent for a requested one: levels
/// outside `[MIC_LEVEL_MIN, MIC_LEVEL_END)` fall back to `MIC_LEVEL_MIN`.
pub open spec fn spec_mic_monitor_level(value: u8) -> u8 {
    if MIC_LEVEL_MIN <= value && value < MIC_LEVEL_END {
        value
    } else {
        MIC_LEVEL_MIN
    }
}

/// The percentage that is sent for a requested one: anything above
/// `PERCENT_MAX` is taken as zero.
pub open spec fn spec_guard_percentage(percentage: u8) -> u8 {
    if percentage <= PERCENT_MAX {
        percentage
    } else {
        0
    }
}

pub fn mic_monitor_level(value: u8) -> (r: u8)
    ensures
        r == spec_mic_monitor_level(value),
{
    if MIC_LEVEL_MIN <= value && value < MIC_LEVEL_END {
        value
    } else {
        MIC_LEVEL_MIN
    }
}

pub fn guard_percentage(percentage: u8) -> (r: u8)
    ensures
        r == spec_guard_percentage(percentage),
{
    if percentage <= PERCENT_MAX {
        percentage
    } else {
        0
    }
}

/// Appends `params` to the command prefix `packet` and pads it to a packet.
fn finish_packet(packet: Vec<u8>, params: &[u8]) -> (r: Vec<u8>)
    requires
        packet@.len() + params@.len() <= PACKET_LEN,
    ensures
        r@ == pad_packet(packet@ + params@),
        r@.len() == PACKET_LEN,
{
    let mut out = packet;
    let ghost start = out@;
    let mut i: usize = 0;
    while i < params.len()
        invariant
            i <= params@.len(),
            start.len() + params@.len() <= PACKET_LEN,
            out@ =~= start + params@.take(i as int),
        decreases params@.len() - i,
    {
        out.push(params[i]);
        i += 1;
        assert(out@ =~= start + params@.take(i as int));
    }
    assert(params@.take(i as int) =~= params@);
    pad_to_packet(&mut out);
    out
}

/// Packet that sets the microphone-monitor (sidetone) level.
pub fn mic_monitor_packet(value: u8) -> (r: Vec<u8>)
    ensures
        r@ == pad_packet(mic_monitor_prefix() + seq![spec_mic_monitor_level(value)]),
        r@.len() == PACKET_LEN,
{
    let level = mic_monitor_level(value);
    let prefix = vec![0xffu8, 0x0a, 0x00, 0xff, 0x04, 0x0e, 0xf1, 0x05, 0x01, 0x04, 0x00];
    let params = [level];
    assert(prefix@ =~= mic_monitor_prefix());
    assert(params@ =~= seq![level]);
    finish_packet(prefix, &params)
}

/// Packet that sets the haptic intensity and switches haptics on or off.
pub fn haptic_intensity_packet(percentage: u8, enable: bool) -> (r: Vec<u8>)
    ensures
        r@ == pad_packet(
            haptic_prefix() + seq![
                if enable { 1u8 } else { 0u8 },
                spec_guard_percentage(percentage),
            ],
        ),
        r@.len() == PACKET_LEN,
{
    let level = guard_percentage(percentage);
    let flag: u8 = if enable { 1 } else { 0 };
    let prefix = vec![0xffu8, 0x0a, 0x00, 0xff, 0x04, 0x02, 0xf1, 0x06, 0x20];
    let params = [flag, level];
    assert(prefix@ =~= haptic_prefix());
    assert(params@ =~= seq![flag, level]);
    finish_packet(prefix, &params)
}

/// Packet that sets the lighting brightness.
pub fn brightness_packet(percentage: u8) -> (r: Vec<u8>)
    ensures
        r@ == pad_packet(brightness_prefix() + seq![spec_guard_percentage(percentage)]),
        r@.len() == PACKET_LEN,
{
    let level = guard_percentage(percentage);
    let prefix = vec![0xffu8, 0x0a, 0x00, 0xff, 0x04, 0x12, 0xf1, 0x03, 0x71];
    let params = [level];
    assert(prefix@ =~= brightness_prefix());
    assert(params@ =~= seq![level]);
    finish_packet(prefix, &params)
}

/// Packet that turns the lighting off.
pub fn off_packet() -> (r: Vec<u8>)
    ensures
        r@ == pad_packet(color_prefix()),
        r@.len() == PACKET_LEN,
{
    let prefix = vec![0xffu8, 0x0a, 0x00, 0xff, 0x04, 0x12, 0xf1, 0x05, 0x72];
    let params: [u8; 0] = [];
    assert(prefix@ =~= color_prefix());
    assert(prefix@ + params@ =~= prefix@);
    finish_packet(prefix, &params)
}

/// Packet that sets the lighting to one fixed colour.
pub fn fixed_color_packet(r: u8, g: u8, b: u8) -> (p: Vec<u8>)
    ensures
        p@ == pad_packet(color_prefix() + seq![r, g, b]),
        p@.len() == PACKET_LEN,
{
    let prefix = vec![0xffu8, 0x0a, 0x00, 0xff, 0x04, 0x12, 0xf1, 0x05, 0x72];
    let params = [r, g, b];
    assert(prefix@ =~= color_prefix());
    assert(params@ =~= seq![r, g, b]);
    finish_packet(prefix, &params)
}

/// Packet that asks the device for its battery voltage.
pub fn voltage_query_packet() -> (r: Vec<u8>)
    ensures
        r@ == pad_packet(voltage_query_prefix()),
        r@.len() == PACKET_LEN,
{
    let prefix = vec![0xffu8, 0x0a, 0x00, 0xfd, 0x04, 0x12, 0xf1, 0x02, 0x05];
    let params: [u8; 0] = [];
    assert(prefix@ =~= voltage_query_prefix());
    assert(prefix@ + params@ =~= prefix@);
    finish_packet(prefix, &params)
}

} // verus!
