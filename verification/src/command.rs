//! The fixed-layout binary command buffer exchanged with the device.
//!
//! A command is a (group, request, argument-0, argument-1, footer) tuple;
//! it travels as a 91-byte HID feature report whose layout is fixed:
//! report id, status byte, three reserved bytes, four little-endian 16-bit
//! fields, padding, a request-specific footer byte, and a final pad byte.

use vstd::prelude::*;

verus! {

/// Total length of the feature report exchanged with the device.
pub const BUFFER_LEN: usize = 91;

/// Offset of the status byte the device writes into its response.
pub const STATUS_OFFSET: usize = 1;

/// Offset of the request-specific footer byte.
pub const FOOTER_OFFSET: usize = 89;

/// One fully determined command: the values of every non-zero field of the
/// buffer. A setting request is translated into one of these by a fixed
/// lookup before it is encoded.
#[derive(Clone, Copy, Debug, PartialEq, Eq, Structural)]
pub struct Command {
    pub group: u16,
    pub request: u16,
    pub arg0: u16,
    pub arg1: u16,
    pub footer: u8,
}

/// Low byte of a 16-bit field, as it appears on the wire.
pub open spec fn lo_byte(x: u16) -> u8 {
    x as u8
}

/// High byte of a 16-bit field, as it appears on the wire.
pub open spec fn hi_byte(x: u16) -> u8 {
    (x >> 8) as u8
}

/// The 16-bit value encoded little-endian by two wire bytes.
pub open spec fn u16_le(lo: u8, hi: u8) -> u16 {
    (lo as u16) | ((hi as u16) << 8)
}

/// The byte at offset `i` of the encoded buffer for command `c`.
pub open spec fn encoded_byte(c: Command, i: int) -> u8 {
    if i == 5 {
        lo_byte(c.group)
    } else if i == 6 {
        hi_byte(c.group)
    } else if i == 7 {
        lo_byte(c.request)
    } else if i == 8 {
        hi_byte(c.request)
    } else if i == 9 {
        lo_byte(c.arg0)
    } else if i == 10 {
        hi_byte(c.arg0)
    } else if i == 11 {
        lo_byte(c.arg1)
    } else if i == 12 {
        hi_byte(c.arg1)
    } else if i == 89 {
        c.footer
    } else {
        0
    }
}

/// The full 91-byte wire image of command `c`.
pub open spec fn encoded(c: Command) -> Seq<u8> {
    Seq::new(BUFFER_LEN as nat, |i: int| encoded_byte(c, i))
}

/// Builds the 91-byte feature-report buffer for command `c`, ready to be
/// handed to the set-feature ioctl. Every byte is pinned by `encoded`.
pub fn encode_command(c: &Command) -> (buf: Vec<u8>)
    ensures
        buf@ == encoded(*c),
{
    let mut buf: Vec<u8> = Vec::new();
    // Report id, then the status byte (zero on send).
    buf.push(0);
    buf.push(0);
    // Reserved bytes.
    buf.push(0);
    buf.push(0);
    buf.push(0);
    buf.push(#[verifier::truncate] (c.group as u8));
    buf.push(#[verifier::truncate] ((c.group >> 8) as u8));
    buf.push(#[verifier::truncate] (c.request as u8));
    buf.push(#[verifier::truncate] ((c.request >> 8) as u8));
    buf.push(#[verifier::truncate] (c.arg0 as u8));
    buf.push(#[verifier::truncate] ((c.arg0 >> 8) as u8));
    buf.push(#[verifier::truncate] (c.arg1 as u8));
    buf.push(#[verifier::truncate] ((c.arg1 >> 8) as u8));
    let mut i: usize = 0;
    while i < 76
        invariant
            i <= 76,
            buf@.len() == 13 + i,
            forall|j: int| 0 <= j < 13 + i ==> buf@[j] == encoded_byte(*c, j),
        decreases 76 - i,
    {
        buf.push(0);
        i = i + 1;
    }
    buf.push(c.footer);
    buf.push(0);
    proof {
        assert(buf@ =~= encoded(*c));
    }
    buf
}

/// The command tuple spelled out by the fixed fields of a wire buffer.
pub open spec fn decoded(s: Seq<u8>) -> Command {
    Command {
        group: u16_le(s[5], s[6]),
        request: u16_le(s[7], s[8]),
        arg0: u16_le(s[9], s[10]),
        arg1: u16_le(s[11], s[12]),
        footer: s[89],
    }
}

/// Reads the fixed command fields back out of a wire buffer, inverting
/// `encode_command` on the positions that carry data.
pub fn decode_fields(buf: &Vec<u8>) -> (c: Command)
    requires
        buf@.len() == BUFFER_LEN,
    ensures
        c == decoded(buf@),
{
    Command {
        group: (buf[5] as u16) | ((buf[6] as u16) << 8),
        request: (buf[7] as u16) | ((buf[8] as u16) << 8),
        arg0: (buf[9] as u16) | ((buf[10] as u16) << 8),
        arg1: (buf[11] as u16) | ((buf[12] as u16) << 8),
        footer: buf[89],
    }
}

/// Splitting a 16-bit field into its two wire bytes and reassembling them
/// little-endian gives the field back.
pub proof fn lemma_le_round_trip(x: u16)
    ensures
        u16_le(lo_byte(x), hi_byte(x)) == x,
{
    assert((((x as u8) as u16) | ((((x >> 8) as u8) as u16) << 8)) == x) by (bit_vector);
}

/// The buffer layout invariant: the wire image is exactly 91 bytes; the
/// report id, the status byte, the reserved bytes, the long padding run and
/// the final byte are zero; the four 16-bit fields sit little-endian at
/// their fixed offsets; the footer sits at offset 89.
pub proof fn lemma_buffer_layout(c: Command)
    ensures
        encoded(c).len() == 91,
        encoded(c)[0] == 0,
        encoded(c)[1] == 0,
        encoded(c)[2] == 0,
        encoded(c)[3] == 0,
        encoded(c)[4] == 0,
        encoded(c)[5] == lo_byte(c.group),
        encoded(c)[6] == hi_byte(c.group),
        encoded(c)[7] == lo_byte(c.request),
        encoded(c)[8] == hi_byte(c.request),
        encoded(c)[9] == lo_byte(c.arg0),
        encoded(c)[10] == hi_byte(c.arg0),
        encoded(c)[11] == lo_byte(c.arg1),
        encoded(c)[12] == hi_byte(c.arg1),
        forall|i: int| 13 <= i < 89 ==> encoded(c)[i] == 0,
        encoded(c)[89] == c.footer,
        encoded(c)[90] == 0,
{
}

/// Round trip: decoding the buffer encoded from a command recovers the
/// command's group, request, argument-0, argument-1 and footer exactly.
pub proof fn lemma_command_round_trip(c: Command)
    ensures
        decoded(encoded(c)) == c,
{
    lemma_le_round_trip(c.group);
    lemma_le_round_trip(c.request);
    lemma_le_round_trip(c.arg0);
    lemma_le_round_trip(c.arg1);
}

} // verus!
