//! Hexadecimal command text to fixed-size packet buffers.

use vstd::prelude::*;
use vstd::string::StringSliceAdditionalSpecFns;

verus! {

/// Size of every packet exchanged with the device, in bytes.
pub const PACKET_LEN: usize = 64;

/// Whether an ASCII byte is a hexadecimal digit (either case).
pub open spec fn is_hex_digit(c: u8) -> bool {
    (0x30 <= c && c <= 0x39) || (0x61 <= c && c <= 0x66) || (0x41 <= c && c <= 0x46)
}

/// The value of a hexadecimal digit.
pub open spec fn hex_value(c: u8) -> int {
    if 0x30 <= c && c <= 0x39 {
        c - 0x30
    } else if 0x61 <= c && c <= 0x66 {
        c - 0x61 + 10
    } else {
        c - 0x41 + 10
    }
}

/// A text that encodes a packet payload: a non-empty, even number of hex
/// digits that decodes to at most one packet's worth of bytes.
pub open spec fn valid_hex_text(t: Seq<u8>) -> bool {
    &&& t.len() % 2 == 0
    &&& 0 < t.len() <= 2 * PACKET_LEN
    &&& forall|i: int| 0 <= i < t.len() ==> #[trigger] is_hex_digit(t[i])
}

/// The byte spelled by the digit pair starting at position `2 * i`.
pub open spec fn hex_pair(t: Seq<u8>, i: int) -> u8 {
    (16 * hex_value(t[2 * i]) + hex_value(t[2 * i + 1])) as u8
}

/// The bytes spelled by consecutive digit pairs of `t`.
pub open spec fn hex_decoded(t: Seq<u8>) -> Seq<u8> {
    Seq::new((t.len() / 2) as nat, |i: int| hex_pair(t, i))
}

/// `p` followed by zeros up to the packet size.
pub open spec fn pad_packet(p: Seq<u8>) -> Seq<u8> {
    p + Seq::new((PACKET_LEN - p.len()) as nat, |i: int| 0u8)
}

fn hex_digit(c: u8) -> (r: Option<u8>)
    ensures
        r is Some <==> is_hex_digit(c),
        r matches Some(v) ==> v as int == hex_value(c) && v < 16,
{
    if 0x30 <= c && c <= 0x39 {
        Some(c - 0x30)
    } else if 0x61 <= c && c <= 0x66 {
        Some(c - 0x61 + 10)
    } else if 0x41 <= c && c <= 0x46 {
        Some(c - 0x41 + 10)
    } else {
        None
    }
}

/// Appends zeros to `v` until it holds exactly one packet.
pub fn pad_to_packet(v: &mut Vec<u8>)
    requires
        old(v)@.len() <= PACKET_LEN,
    ensures
        final(v)@ == pad_packet(old(v)@),
{
    let ghost start = v@;
    while v.len() < PACKET_LEN
        invariant
            start.len() <= v@.len() <= PACKET_LEN,
            v@.subrange(0, start.len() as int) == start,
            forall|k: int| start.len() <= k < v@.len() ==> v@[k] == 0u8,
        decreases PACKET_LEN - v@.len(),
    {
        v.push(0);
    }
    assert(v@ =~= pad_packet(start));
}

/// Decodes a text of hexadecimal digit pairs into a packet, zero-padded on the
/// right to exactly `PACKET_LEN` bytes. Empty text, an odd number of digits,
/// a character that is not a hex digit, or more than `PACKET_LEN` bytes of
/// payload give `None`.
pub fn decode(data: &str) -> (r: Option<Vec<u8>>)
    ensures
        r is Some <==> valid_hex_text(data.spec_bytes()),
        r matches Some(v) ==> v@ == pad_packet(hex_decoded(data.spec_bytes())),
        r matches Some(v) ==> v@.len() == PACKET_LEN,
{
    let text = data.as_bytes();
    let n = text.len();
    if n == 0 || n % 2 != 0 || n > 2 * PACKET_LEN {
        return None;
    }
    let mut out: Vec<u8> = Vec::new();
    let mut i: usize = 0;
    while i < n / 2
        invariant
            n == text@.len(),
            n == data.spec_bytes().len(),
            text@ == data.spec_bytes(),
            n % 2 == 0,
            0 < n <= 2 * PACKET_LEN,
            i <= n / 2,
            out@ =~= hex_decoded(text@).take(i as int),
            forall|k: int| 0 <= k < 2 * i ==> #[trigger] is_hex_digit(text@[k]),
        decreases n / 2 - i,
    {
        let hi = hex_digit(text[2 * i]);
        let lo = hex_digit(text[2 * i + 1]);
        match (hi, lo) {
            (Some(h), Some(l)) => {
                out.push(h * 16 + l);
            },
            _ => {
                return None;
            },
        }
        i += 1;
        assert(out@ =~= hex_decoded(text@).take(i as int));
    }
    assert(out@ =~= hex_decoded(text@));
    pad_to_packet(&mut out);
    Some(out)
}

} // verus!
