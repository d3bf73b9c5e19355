//! The mathematical model of a UNPI frame:
//! `SOF(0xFE) | LEN | TYPE/SUBSYSTEM | COMMAND | DATA[LEN] | FCS`,
//! where FCS is the XOR of every byte after SOF and before FCS.
use vstd::prelude::*;

use super::kinds::{CmdType, Subsystem};

verus! {

/// The start-of-frame marker.
pub const SOF: u8 = 0xfe;

/// The bytes of a frame that are not payload: SOF, LEN, TYPE/SUBSYSTEM, COMMAND, FCS.
pub const FRAME_OVERHEAD: usize = 5;

/// The XOR of all bytes of `s` (0 for no bytes).
pub open spec fn xor_all(s: Seq<u8>) -> u8
    decreases s.len(),
{
    if s.len() == 0 {
        0
    } else {
        xor_all(s.drop_last()) ^ s.last()
    }
}

/// The frame check sequence of a frame: the XOR of its length byte, its
/// type/subsystem byte, its command byte and its payload.
pub open spec fn frame_check(subsystem: u8, command_id: u8, data: Seq<u8>) -> u8 {
    xor_all(seq![data.len() as u8, subsystem, command_id] + data)
}

/// The type/subsystem byte: the command type in the high three bits and the
/// subsystem in the low five.
pub open spec fn type_byte(cmd_type: CmdType, subsystem: Subsystem) -> u8 {
    (cmd_type.code_spec() << 5u8) | subsystem.code_spec()
}

/// A frame as its fields: the type/subsystem byte, the command, the payload and
/// the check byte as they stand on the wire.
pub struct RawFrame {
    pub subsystem: u8,
    pub command_id: u8,
    pub data: Seq<u8>,
    pub check: u8,
}

impl RawFrame {
    /// The frame that carries a message, with the check byte that matches it.
    pub open spec fn of_message(
        cmd_type: CmdType,
        subsystem: Subsystem,
        command_id: u8,
        data: Seq<u8>,
    ) -> RawFrame {
        RawFrame {
            subsystem: type_byte(cmd_type, subsystem),
            command_id,
            data,
            check: frame_check(type_byte(cmd_type, subsystem), command_id, data),
        }
    }

    /// The bytes on the wire: the length byte holds the payload length modulo 256.
    pub open spec fn encode(self) -> Seq<u8> {
        seq![SOF, self.data.len() as u8, self.subsystem, self.command_id] + self.data + seq![
            self.check,
        ]
    }

    /// Whether the check byte matches the rest of the frame.
    pub open spec fn check_ok(self) -> bool {
        self.check == frame_check(self.subsystem, self.command_id, self.data)
    }

    /// The command type named by the high three bits of the type/subsystem byte.
    pub open spec fn cmd_type_spec(self) -> Option<CmdType> {
        CmdType::from_code_spec(self.subsystem >> 5u8)
    }

    /// The subsystem named by the low five bits of the type/subsystem byte.
    pub open spec fn subsystem_spec(self) -> Option<Subsystem> {
        Subsystem::from_code_spec(self.subsystem & 0x1fu8)
    }

    /// Whether both the command type and the subsystem are known ones.
    pub open spec fn kinds_known(self) -> bool {
        self.cmd_type_spec() is Some && self.subsystem_spec() is Some
    }
}

/// Whether `buf` starts with a whole frame: at least five bytes, and as many
/// more as its length byte announces.
pub open spec fn holds_frame(buf: Seq<u8>) -> bool {
    buf.len() >= 5 && buf.len() >= buf[1] + 5
}

/// The number of bytes the frame at the front of `buf` takes.
pub open spec fn frame_size(buf: Seq<u8>) -> int {
    buf[1] + 5
}

/// The frame at the front of `buf`, read field by field.
pub open spec fn front_frame(buf: Seq<u8>) -> RawFrame {
    RawFrame {
        subsystem: buf[2],
        command_id: buf[3],
        data: buf.subrange(4, 4 + buf[1]),
        check: buf[4 + buf[1]],
    }
}

/// Whether decoding the front of `buf` runs to its end: a whole frame with the
/// right start marker and check byte names a known command type and subsystem.
pub open spec fn decodable(buf: Seq<u8>) -> bool {
    (holds_frame(buf) && buf[0] == SOF && front_frame(buf).check_ok()) ==> front_frame(
        buf,
    ).kinds_known()
}

/// Appending one byte XORs it into the running check.
pub proof fn lemma_xor_all_push(s: Seq<u8>, x: u8)
    ensures
        xor_all(s.push(x)) == xor_all(s) ^ x,
{
    assert(s.push(x).drop_last() =~= s);
}

/// The XOR of two runs of bytes put together is the XOR of their XORs.
pub proof fn lemma_xor_all_concat(head: Seq<u8>, tail: Seq<u8>)
    ensures
        xor_all(head + tail) == xor_all(head) ^ xor_all(tail),
    decreases tail.len(),
{
    let a: u8 = xor_all(head);
    if tail.len() == 0 {
        assert(head + tail =~= head);
        assert(a ^ 0u8 == a) by (bit_vector);
    } else {
        lemma_xor_all_concat(head, tail.drop_last());
        assert((head + tail).drop_last() =~= head + tail.drop_last());
        assert((head + tail).last() == tail.last());
        let b: u8 = xor_all(tail.drop_last());
        let x: u8 = tail.last();
        assert((a ^ b) ^ x == a ^ (b ^ x)) by (bit_vector);
    }
}

/// The type/subsystem byte of a command type and a subsystem gives each back.
pub proof fn lemma_type_byte_fields(cmd_type: CmdType, subsystem: Subsystem)
    ensures
        type_byte(cmd_type, subsystem) >> 5u8 == cmd_type.code_spec(),
        type_byte(cmd_type, subsystem) & 0x1fu8 == subsystem.code_spec(),
{
    let a: u8 = cmd_type.code_spec();
    let b: u8 = subsystem.code_spec();
    assert(1 <= a <= 3 && b < 32);
    assert(((a << 5u8) | b) >> 5u8 == a && ((a << 5u8) | b) & 0x1fu8 == b) by (bit_vector)
        requires
            a <= 3,
            b < 32,
    ;
}

/// A byte is rebuilt from its high three and low five bits.
pub proof fn lemma_type_byte_split(x: u8)
    ensures
        ((x >> 5u8) << 5u8) | (x & 0x1fu8) == x,
        x >> 5u8 < 8,
        x & 0x1fu8 < 32,
{
    assert(((x >> 5u8) << 5u8) | (x & 0x1fu8) == x && x >> 5u8 < 8 && x & 0x1fu8 < 32)
        by (bit_vector);
}

} // verus!
