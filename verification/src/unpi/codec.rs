//! The UNPI codec: messages to frames and back.
use vstd::prelude::*;

use tokio_util::bytes::{Bytes, BytesMut};

use super::buffer::{buf_byte_at, buf_len, bytes_len, bytes_mut_view, bytes_view};
use super::error::Error;
use super::frame::{
    decodable, frame_check, frame_size, front_frame, holds_frame, lemma_xor_all_push, xor_all,
    RawFrame, FRAME_OVERHEAD, SOF,
};
use super::kinds::{CmdType, Subsystem};
use super::message::{Message, RawMessage};

verus! {

/// Frames UNPI messages on a byte stream.
pub struct UnpiCodec;

impl UnpiCodec {
    /// Appends the frame that carries `item` to `dst`; it never fails.
    pub fn encode(&mut self, item: Message, dst: &mut BytesMut) -> (r: Result<(), Error>)
        requires
            bytes_mut_view(*old(dst)).len() + bytes_view(item.data).len() + FRAME_OVERHEAD
                <= isize::MAX,
        ensures
            r matches Ok(()),
            bytes_mut_view(*final(dst)) == bytes_mut_view(*old(dst)) + RawFrame::of_message(
                item.cmd_type,
                item.subsystem,
                item.command_id,
                bytes_view(item.data),
            ).encode(),
    {
        let raw = RawMessage::from(item);
        raw.write_to(dst);
        Ok(())
    }

    /// Takes the next message off the front of `src`.
    ///
    /// `Ok(None)` while `src` holds no whole frame (nothing is taken);
    /// `InvalidSof` when a whole frame lacks the start marker (its first byte
    /// is taken); `InvalidFcs` when its check byte does not match (the frame is
    /// taken); the message otherwise (the frame is taken). A frame whose check
    /// matches but whose command type or subsystem is unknown makes the
    /// conversion panic, which `requires` leaves out.
    pub fn decode(&mut self, src: &mut BytesMut) -> (r: Result<Option<Message>, Error>)
        requires
            decodable(bytes_mut_view(*old(src))),
        ensures
            ({
                let buf = bytes_mut_view(*old(src));
                let rest = bytes_mut_view(*final(src));
                let frame = front_frame(buf);
                &&& !holds_frame(buf) ==> ((r matches Ok(None)) && rest == buf)
                &&& holds_frame(buf) && buf[0] != SOF ==> r == Err::<Option<Message>, Error>(
                    Error::InvalidSof(buf[0]),
                ) && rest == buf.drop_first()
                &&& holds_frame(buf) && buf[0] == SOF && !frame.check_ok() ==> r == Err::<
                    Option<Message>,
                    Error,
                >(
                    Error::InvalidFcs(
                        frame_check(frame.subsystem, frame.command_id, frame.data) ^ frame.check,
                    ),
                ) && rest == buf.skip(frame_size(buf))
                &&& holds_frame(buf) && buf[0] == SOF && frame.check_ok() ==> {
                    &&& r matches Ok(Some(m))
                    &&& Some(m.cmd_type) == frame.cmd_type_spec()
                    &&& Some(m.subsystem) == frame.subsystem_spec()
                    &&& m.command_id == frame.command_id
                    &&& bytes_view(m.data) == frame.data
                    &&& rest == buf.skip(frame_size(buf))
                }
            }),
    {
        let raw = match RawMessage::parse(src) {
            Ok(Some(raw)) => raw,
            Ok(None) => return Ok(None),
            Err(e) => return Err(e),
        };
        match raw.verify() {
            Ok(()) => {},
            Err(e) => return Err(e),
        }
        Ok(Some(Message::from(raw)))
    }
}

/// Whether a frame with `data` as payload can be appended to `dst` without the
/// buffer growing past `isize::MAX` bytes: the condition under which `encode`
/// and `write_to` may be called.
pub fn frame_fits(dst: &BytesMut, data: &Bytes) -> (fits: bool)
    ensures
        fits == (bytes_mut_view(*dst).len() + bytes_view(*data).len() + FRAME_OVERHEAD
            <= isize::MAX),
{
    let limit: usize = isize::MAX as usize;
    let n: usize = buf_len(dst);
    let d: usize = bytes_len(data);
    if n > limit || d > limit - n {
        return false;
    }
    d + n <= limit - FRAME_OVERHEAD
}

/// Whether `decode` may be called on `src`: a whole frame at its front with the
/// start marker and a matching check byte names a known command type and a
/// known subsystem.
pub fn is_decodable(src: &BytesMut) -> (d: bool)
    ensures
        d == decodable(bytes_mut_view(*src)),
{
    let ghost buf = bytes_mut_view(*src);
    let n: usize = buf_len(src);
    if n < FRAME_OVERHEAD {
        return true;
    }
    let len: u8 = buf_byte_at(src, 1);
    if n < len as usize + FRAME_OVERHEAD {
        return true;
    }
    if buf_byte_at(src, 0) != SOF {
        return true;
    }
    let subsystem: u8 = buf_byte_at(src, 2);
    let command_id: u8 = buf_byte_at(src, 3);
    let ghost data = buf.subrange(4, 4 + len);
    let ghost head = seq![len, subsystem, command_id];
    let mut check: u8 = 0;
    check ^= len;
    check ^= subsystem;
    check ^= command_id;
    proof {
        lemma_xor_all_push(Seq::empty(), len);
        lemma_xor_all_push(seq![len], subsystem);
        lemma_xor_all_push(seq![len, subsystem], command_id);
        assert(Seq::<u8>::empty().push(len) =~= seq![len]);
        assert(seq![len].push(subsystem) =~= seq![len, subsystem]);
        assert(seq![len, subsystem].push(command_id) =~= head);
        assert(xor_all(Seq::<u8>::empty()) == 0);
        assert(head + data.take(0) =~= head);
    }
    let mut i: usize = 0;
    while i < len as usize
        invariant
            i <= len,
            n == buf.len(),
            buf == bytes_mut_view(*src),
            len + 5 <= n,
            len == buf[1],
            data == buf.subrange(4, 4 + len),
            head == seq![len, subsystem, command_id],
            check == xor_all(head + data.take(i as int)),
        decreases len - i,
    {
        let b: u8 = buf_byte_at(src, 4 + i);
        proof {
            assert(data[i as int] == b);
            assert(head + data.take(i + 1) =~= (head + data.take(i as int)).push(b));
            lemma_xor_all_push(head + data.take(i as int), b);
        }
        check = check ^ b;
        i = i + 1;
    }
    let received: u8 = buf_byte_at(src, 4 + len as usize);
    proof {
        assert(data.take(len as int) =~= data);
        assert(data.len() as u8 == len);
        assert(front_frame(buf).data == data);
        assert(frame_check(subsystem, command_id, data) == check);
    }
    if check != received {
        return true;
    }
    let kind_ok: bool = CmdType::try_from(subsystem >> 5).is_ok();
    let subsystem_ok: bool = Subsystem::try_from(subsystem & 0x1f).is_ok();
    kind_ok && subsystem_ok
}

} // verus!
