//! UNPI messages: `RawMessage` as it stands on the wire, `Message` with its
//! command type and subsystem decoded.
use vstd::prelude::*;

use tokio_util::bytes::{Bytes, BytesMut};

use super::buffer::{
    buf_byte_at, buf_freeze, buf_get_u8, buf_len, buf_put_bytes, buf_put_u8, buf_split_to,
    bytes_at, bytes_len, bytes_mut_view, bytes_view,
};
use super::error::Error;
use super::frame::{
    frame_check, frame_size, front_frame, holds_frame, lemma_xor_all_push, type_byte, xor_all,
    RawFrame, FRAME_OVERHEAD, SOF,
};
use super::kinds::{CmdType, Subsystem};

verus! {

/// A command with its type and subsystem decoded.
#[derive(Debug, Clone, PartialEq)]
pub struct Message {
    pub cmd_type: CmdType,
    pub subsystem: Subsystem,
    pub command_id: u8,
    pub data: Bytes,
}

/// A frame as read from or written to the wire.
#[derive(Debug, Clone, PartialEq)]
pub struct RawMessage {
    pub subsystem: u8,
    pub command_id: u8,
    pub data: Bytes,
    pub check: u8,
}

impl View for RawMessage {
    type V = RawFrame;

    open spec fn view(&self) -> RawFrame {
        RawFrame {
            subsystem: self.subsystem,
            command_id: self.command_id,
            data: bytes_view(self.data),
            check: self.check,
        }
    }
}

/// The check byte of a frame with these fields.
fn compute_check(subsystem: u8, command_id: u8, data: &Bytes) -> (c: u8)
    ensures
        c == frame_check(subsystem, command_id, bytes_view(*data)),
{
    let ghost view = bytes_view(*data);
    let n: usize = bytes_len(data);
    let len_byte: u8 = n as u8;
    let mut check: u8 = 0;
    check ^= subsystem;
    check ^= command_id;
    check ^= len_byte;
    let ghost head = seq![len_byte, subsystem, command_id];
    proof {
        lemma_xor_all_push(Seq::empty(), len_byte);
        lemma_xor_all_push(seq![len_byte], subsystem);
        lemma_xor_all_push(seq![len_byte, subsystem], command_id);
        assert(Seq::<u8>::empty().push(len_byte) =~= seq![len_byte]);
        assert(seq![len_byte].push(subsystem) =~= seq![len_byte, subsystem]);
        assert(seq![len_byte, subsystem].push(command_id) =~= head);
        assert(xor_all(Seq::<u8>::empty()) == 0);
        assert(((0u8 ^ subsystem) ^ command_id) ^ len_byte == ((0u8 ^ len_byte) ^ subsystem)
            ^ command_id) by (bit_vector);
        assert(head + view.take(0) =~= head);
    }
    let mut i: usize = 0;
    while i < n
        invariant
            i <= n,
            n == view.len(),
            view == bytes_view(*data),
            check == xor_all(head + view.take(i as int)),
        decreases n - i,
    {
        let b: u8 = bytes_at(data, i);
        proof {
            assert(head + view.take(i + 1) =~= (head + view.take(i as int)).push(b));
            lemma_xor_all_push(head + view.take(i as int), b);
        }
        check = check ^ b;
        i = i + 1;
    }
    proof {
        assert(view.take(n as int) =~= view);
    }
    check
}

impl RawMessage {
    /// Takes the frame at the front of `src` off it.
    ///
    /// While `src` holds no whole frame, nothing is taken and `Ok(None)` comes
    /// back. A whole frame that does not start with the start marker loses its
    /// first byte and gives `InvalidSof`. Otherwise the whole frame is taken
    /// and its fields come back; the check byte is not looked at here.
    pub fn parse(src: &mut BytesMut) -> (r: Result<Option<Self>, Error>)
        ensures
            !holds_frame(bytes_mut_view(*old(src))) ==> {
                &&& r matches Ok(None)
                &&& bytes_mut_view(*final(src)) == bytes_mut_view(*old(src))
            },
            holds_frame(bytes_mut_view(*old(src))) && bytes_mut_view(*old(src))[0] != SOF ==> {
                &&& r == Err::<Option<Self>, Error>(Error::InvalidSof(bytes_mut_view(*old(src))[0]))
                &&& bytes_mut_view(*final(src)) == bytes_mut_view(*old(src)).drop_first()
            },
            holds_frame(bytes_mut_view(*old(src))) && bytes_mut_view(*old(src))[0] == SOF ==> {
                &&& r matches Ok(Some(m))
                &&& m@ == front_frame(bytes_mut_view(*old(src)))
                &&& bytes_mut_view(*final(src)) == bytes_mut_view(*old(src)).skip(
                    frame_size(bytes_mut_view(*old(src))),
                )
            },
    {
        let ghost whole = bytes_mut_view(*src);
        let n: usize = buf_len(src);
        if n < FRAME_OVERHEAD {
            return Ok(None);
        }
        let len: u8 = buf_byte_at(src, 1);
        if n < len as usize + FRAME_OVERHEAD {
            return Ok(None);
        }

        let sof: u8 = buf_get_u8(src);

        if sof != SOF {
            return Err(Error::InvalidSof(sof));
        }

        let len: u8 = buf_get_u8(src);
        let subsystem: u8 = buf_get_u8(src);
        let command_id: u8 = buf_get_u8(src);
        proof {
            assert(bytes_mut_view(*src) =~= whole.skip(4));
        }

        let data = buf_freeze(buf_split_to(src, len as usize));
        proof {
            assert(bytes_view(data) =~= whole.subrange(4, 4 + len));
            assert(bytes_mut_view(*src) =~= whole.skip(4 + len));
        }

        let check: u8 = buf_get_u8(src);
        proof {
            assert(bytes_mut_view(*src) =~= whole.skip(5 + len));
        }

        let raw = RawMessage { subsystem, command_id, data, check };
        proof {
            assert(raw@ =~= front_frame(whole));
        }
        Ok(Some(raw))
    }

    /// Appends the frame's bytes to `dst`. The length byte holds the payload
    /// length modulo 256.
    pub fn write_to(&self, dst: &mut BytesMut)
        requires
            bytes_mut_view(*old(dst)).len() + bytes_view(self.data).len() + FRAME_OVERHEAD
                <= isize::MAX,
        ensures
            bytes_mut_view(*final(dst)) == bytes_mut_view(*old(dst)) + self@.encode(),
    {
        let ghost before = bytes_mut_view(*dst);
        let len_byte: u8 = bytes_len(&self.data) as u8;
        buf_put_u8(dst, SOF);
        buf_put_u8(dst, len_byte);
        buf_put_u8(dst, self.subsystem);
        buf_put_u8(dst, self.command_id);
        buf_put_bytes(dst, self.data.clone());
        buf_put_u8(dst, self.check);
        proof {
            assert(bytes_mut_view(*dst) =~= before + self@.encode());
        }
    }

    /// Checks the frame check sequence: `Ok` exactly when the check byte is the
    /// XOR of the length, type/subsystem, command and payload bytes; otherwise
    /// `InvalidFcs` with the XOR of the computed check and the received one.
    pub fn verify(&self) -> (r: Result<(), Error>)
        ensures
            self@.check_ok() ==> r matches Ok(()),
            !self@.check_ok() ==> r == Err::<(), Error>(
                Error::InvalidFcs(
                    frame_check(self.subsystem, self.command_id, bytes_view(self.data))
                        ^ self.check,
                ),
            ),
            !self@.check_ok() ==> frame_check(self.subsystem, self.command_id, bytes_view(self.data))
                ^ self.check != 0,
    {
        let computed: u8 = compute_check(self.subsystem, self.command_id, &self.data);
        let check: u8 = computed ^ self.check;
        proof {
            let received: u8 = self.check;
            assert((computed ^ received == 0) == (computed == received)) by (bit_vector);
        }
        if check == 0 {
            Ok(())
        } else {
            Err(Error::InvalidFcs(check))
        }
    }

    /// The command type in the high three bits of the type/subsystem byte.
    pub fn cmd_type(&self) -> (r: Result<CmdType, Error>)
        ensures
            r == (match self@.cmd_type_spec() {
                Some(t) => Ok(t),
                None => Err(Error::InvalidCmdType(self.subsystem >> 5u8)),
            }),
    {
        CmdType::try_from(self.subsystem >> 5)
    }

    /// The subsystem in the low five bits of the type/subsystem byte.
    pub fn subsystem(&self) -> (r: Result<Subsystem, Error>)
        ensures
            r == (match self@.subsystem_spec() {
                Some(s) => Ok(s),
                None => Err(Error::InvalidSubsystem(self.subsystem & 0x1fu8)),
            }),
    {
        Subsystem::try_from(self.subsystem & 0x1f)
    }

    /// The command byte.
    pub fn command_id(&self) -> (c: u8)
        ensures
            c == self.command_id,
    {
        self.command_id
    }
}

impl From<Message> for RawMessage {
    fn from(msg: Message) -> (raw: Self) {
        let subsystem: u8 = (msg.cmd_type.code() << 5) | msg.subsystem.code();
        let mut raw = Self { subsystem, command_id: msg.command_id, data: msg.data, check: 0 };
        raw.check = compute_check(raw.subsystem, raw.command_id, &raw.data);
        raw
    }
}

impl vstd::std_specs::convert::FromSpecImpl<Message> for RawMessage {
    open spec fn obeys_from_spec() -> bool {
        true
    }

    open spec fn from_spec(msg: Message) -> Self {
        RawMessage {
            subsystem: type_byte(msg.cmd_type, msg.subsystem),
            command_id: msg.command_id,
            data: msg.data,
            check: frame_check(
                type_byte(msg.cmd_type, msg.subsystem),
                msg.command_id,
                bytes_view(msg.data),
            ),
        }
    }
}

impl Message {
    /// The message a frame carries. Its command type and subsystem must be
    /// known ones (the conversion panics otherwise, which `requires` leaves out).
    pub fn from(raw: RawMessage) -> (msg: Message)
        requires
            raw@.kinds_known(),
        ensures
            Some(msg.cmd_type) == raw@.cmd_type_spec(),
            Some(msg.subsystem) == raw@.subsystem_spec(),
            msg.command_id == raw.command_id,
            msg.data == raw.data,
    {
        Message {
            cmd_type: raw.cmd_type().unwrap(),
            subsystem: raw.subsystem().unwrap(),
            command_id: raw.command_id(),
            data: raw.data,
        }
    }
}

} // verus!
