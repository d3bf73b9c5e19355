//! What holds across the operations of the codec.
use vstd::prelude::*;

use super::buffer::bytes_view;
use super::frame::{
    decodable, frame_check, frame_size, front_frame, holds_frame, lemma_type_byte_fields,
    lemma_type_byte_split, lemma_xor_all_concat, lemma_xor_all_push, type_byte, xor_all, RawFrame,
    SOF,
};
use super::kinds::{law_cmd_type_code, law_subsystem_code, CmdType, Subsystem};
use super::message::{Message, RawMessage};

verus! {

/// Parsing the bytes that `write_to` wrote for a frame with at most 255 payload
/// bytes gives that frame back, whatever follows it, and leaves exactly what
/// followed.
pub proof fn law_parse_after_write(frame: RawFrame, rest: Seq<u8>)
    requires
        frame.data.len() <= 255,
    ensures
        ({
            let buf = frame.encode() + rest;
            &&& holds_frame(buf)
            &&& buf[0] == SOF
            &&& front_frame(buf) == frame
            &&& buf.skip(frame_size(buf)) == rest
        }),
{
    let buf = frame.encode() + rest;
    let n: int = frame.data.len() as int;
    assert(buf[1] == n);
    assert(buf.subrange(4, 4 + n) =~= frame.data);
    assert(buf[4 + n] == frame.check);
    assert(front_frame(buf) =~= frame);
    assert(buf.skip(frame_size(buf)) =~= rest);
}

/// What `parse` takes off a buffer for a whole frame is exactly what
/// `write_to` writes for the frame it returns.
pub proof fn law_write_after_parse(buf: Seq<u8>)
    requires
        holds_frame(buf),
        buf[0] == SOF,
    ensures
        front_frame(buf).data.len() <= 255,
        front_frame(buf).encode() == buf.take(frame_size(buf)),
{
    let frame = front_frame(buf);
    assert(frame.data.len() == buf[1]);
    assert(frame.encode() =~= buf.take(frame_size(buf)));
}

/// No strict prefix of a frame's bytes holds a whole frame, so a frame that has
/// not fully arrived is left in the buffer.
pub proof fn law_partial_frame_waits(frame: RawFrame, k: int)
    requires
        frame.data.len() <= 255,
        0 <= k < frame.encode().len(),
    ensures
        !holds_frame(frame.encode().take(k)),
{
    let part = frame.encode().take(k);
    if part.len() >= 5 {
        assert(part[1] == frame.encode()[1]);
    }
}

/// The frame built for a message passes the check, and its type/subsystem
/// byte names the message's command type and subsystem.
pub proof fn law_message_frame_valid(
    cmd_type: CmdType,
    subsystem: Subsystem,
    command_id: u8,
    data: Seq<u8>,
)
    ensures
        RawFrame::of_message(cmd_type, subsystem, command_id, data).check_ok(),
        RawFrame::of_message(cmd_type, subsystem, command_id, data).cmd_type_spec() == Some(
            cmd_type,
        ),
        RawFrame::of_message(cmd_type, subsystem, command_id, data).subsystem_spec() == Some(
            subsystem,
        ),
        RawFrame::of_message(cmd_type, subsystem, command_id, data).kinds_known(),
{
    lemma_type_byte_fields(cmd_type, subsystem);
    law_cmd_type_code(cmd_type, 0);
    law_subsystem_code(subsystem, 0);
}

/// Decoding what `encode` appended for a message with at most 255 payload bytes
/// succeeds with that message (same command type, subsystem, command and
/// payload), whatever follows, and leaves exactly what followed.
pub proof fn law_decode_after_encode(
    cmd_type: CmdType,
    subsystem: Subsystem,
    command_id: u8,
    data: Seq<u8>,
    rest: Seq<u8>,
)
    requires
        data.len() <= 255,
    ensures
        ({
            let buf = RawFrame::of_message(cmd_type, subsystem, command_id, data).encode() + rest;
            let frame = front_frame(buf);
            &&& decodable(buf)
            &&& holds_frame(buf)
            &&& buf[0] == SOF
            &&& frame.check_ok()
            &&& frame.cmd_type_spec() == Some(cmd_type)
            &&& frame.subsystem_spec() == Some(subsystem)
            &&& frame.command_id == command_id
            &&& frame.data == data
            &&& buf.skip(frame_size(buf)) == rest
        }),
{
    let frame = RawFrame::of_message(cmd_type, subsystem, command_id, data);
    law_parse_after_write(frame, rest);
    law_message_frame_valid(cmd_type, subsystem, command_id, data);
}

/// Turning a message into a frame and back gives the same message: the frame
/// passes the check, names the message's command type and subsystem, and
/// carries its command and payload.
pub proof fn law_message_to_raw_and_back(msg: Message)
    ensures
        ({
            let raw = <RawMessage as vstd::std_specs::convert::FromSpec<Message>>::from_spec(msg);
            &&& raw@.check_ok()
            &&& raw@.kinds_known()
            &&& raw@.cmd_type_spec() == Some(msg.cmd_type)
            &&& raw@.subsystem_spec() == Some(msg.subsystem)
            &&& raw.command_id == msg.command_id
            &&& raw.data == msg.data
        }),
{
    law_message_frame_valid(msg.cmd_type, msg.subsystem, msg.command_id, bytes_view(msg.data));
}

/// A frame that passes the check and names a known command type and subsystem
/// is exactly the frame built for the message it carries.
pub proof fn law_raw_to_message_and_back(frame: RawFrame)
    requires
        frame.check_ok(),
        frame.kinds_known(),
    ensures
        RawFrame::of_message(
            frame.cmd_type_spec().unwrap(),
            frame.subsystem_spec().unwrap(),
            frame.command_id,
            frame.data,
        ) == frame,
{
    let t = frame.cmd_type_spec().unwrap();
    let s = frame.subsystem_spec().unwrap();
    law_cmd_type_code(t, frame.subsystem >> 5u8);
    law_subsystem_code(s, frame.subsystem & 0x1fu8);
    lemma_type_byte_split(frame.subsystem);
    assert(type_byte(t, s) == frame.subsystem);
}

/// The frame check over the bytes after SOF: with no payload it is the XOR of
/// the type/subsystem and command bytes (the length byte is 0); appending a
/// payload byte XORs that byte in and swaps the old length byte for the new one.
/// Every payload byte counts, whatever the payload's length.
pub proof fn law_frame_check_bytes(subsystem: u8, command_id: u8, data: Seq<u8>, x: u8)
    ensures
        frame_check(subsystem, command_id, Seq::empty()) == subsystem ^ command_id,
        frame_check(subsystem, command_id, data.push(x)) == frame_check(
            subsystem,
            command_id,
            data,
        ) ^ (data.len() as u8) ^ ((data.len() + 1) as u8) ^ x,
{
    let l0: u8 = data.len() as u8;
    let l1: u8 = (data.len() + 1) as u8;
    let z: u8 = 0;
    lemma_xor_all_push(Seq::empty(), z);
    lemma_xor_all_push(seq![z], subsystem);
    lemma_xor_all_push(seq![z, subsystem], command_id);
    assert(Seq::<u8>::empty().push(z) =~= seq![z]);
    assert(seq![z].push(subsystem) =~= seq![z, subsystem]);
    assert(seq![z, subsystem].push(command_id) =~= seq![z, subsystem, command_id]);
    assert(xor_all(Seq::<u8>::empty()) == 0);
    assert(seq![z, subsystem, command_id] + Seq::<u8>::empty() =~= seq![z, subsystem, command_id]);
    assert(((0u8 ^ 0u8) ^ subsystem) ^ command_id == subsystem ^ command_id) by (bit_vector);

    lemma_xor_all_push(Seq::empty(), l0);
    lemma_xor_all_push(seq![l0], subsystem);
    lemma_xor_all_push(seq![l0, subsystem], command_id);
    assert(Seq::<u8>::empty().push(l0) =~= seq![l0]);
    assert(seq![l0].push(subsystem) =~= seq![l0, subsystem]);
    assert(seq![l0, subsystem].push(command_id) =~= seq![l0, subsystem, command_id]);
    lemma_xor_all_push(Seq::empty(), l1);
    lemma_xor_all_push(seq![l1], subsystem);
    lemma_xor_all_push(seq![l1, subsystem], command_id);
    assert(Seq::<u8>::empty().push(l1) =~= seq![l1]);
    assert(seq![l1].push(subsystem) =~= seq![l1, subsystem]);
    assert(seq![l1, subsystem].push(command_id) =~= seq![l1, subsystem, command_id]);
    lemma_xor_all_concat(seq![l0, subsystem, command_id], data);
    lemma_xor_all_concat(seq![l1, subsystem, command_id], data.push(x));
    lemma_xor_all_push(data, x);
    assert(data.push(x).len() as u8 == l1);
    let d: u8 = xor_all(data);
    assert(((0u8 ^ l1) ^ subsystem) ^ command_id ^ (d ^ x) == ((((0u8 ^ l0) ^ subsystem)
        ^ command_id) ^ d) ^ l0 ^ l1 ^ x) by (bit_vector);
}

/// The bytes of a frame, position by position: the start marker 0xFE, the
/// payload length modulo 256, the type/subsystem byte, the command, the payload
/// bytes in order, and last the check byte.
pub proof fn law_frame_layout(frame: RawFrame, i: int)
    ensures
        frame.encode().len() == frame.data.len() + 5,
        frame.encode()[0] == 0xfeu8,
        frame.encode()[1] == frame.data.len() as u8,
        frame.encode()[2] == frame.subsystem,
        frame.encode()[3] == frame.command_id,
        0 <= i < frame.data.len() ==> frame.encode()[4 + i] == frame.data[i],
        frame.encode()[frame.data.len() as int + 4] == frame.check,
{
}

/// The type/subsystem byte holds the command type's code times 32 plus the
/// subsystem's code, and is read back the same way: the command type from the
/// byte divided by 32, the subsystem from the remainder.
pub proof fn law_type_byte_layout(cmd_type: CmdType, subsystem: Subsystem, frame: RawFrame)
    ensures
        type_byte(cmd_type, subsystem) as int == 32 * cmd_type.code_spec()
            + subsystem.code_spec(),
        frame.cmd_type_spec() == CmdType::from_code_spec((frame.subsystem / 32) as u8),
        frame.subsystem_spec() == Subsystem::from_code_spec((frame.subsystem % 32) as u8),
{
    let a: u8 = cmd_type.code_spec();
    let b: u8 = subsystem.code_spec();
    law_cmd_type_code(cmd_type, 0);
    law_subsystem_code(subsystem, 0);
    assert(((a << 5u8) | b) as int == 32 * a + b) by (bit_vector)
        requires
            a <= 3,
            b < 32,
    ;
    let x: u8 = frame.subsystem;
    assert(x >> 5u8 == (x / 32) as u8 && x & 0x1fu8 == (x % 32) as u8) by (bit_vector);
}

} // verus!
