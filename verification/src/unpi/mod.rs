//! UNPI, the framing Z-Stack speaks over a serial line.
pub mod buffer;
mod codec;
mod error;
mod frame;
mod kinds;
mod laws;
mod message;

pub use self::codec::{frame_fits, is_decodable, UnpiCodec};
pub use self::error::{decimal_text, digit_text, Error};
pub use self::frame::{
    decodable, frame_check, frame_size, front_frame, holds_frame, type_byte, xor_all, RawFrame,
    FRAME_OVERHEAD, SOF,
};
pub use self::kinds::{
    law_cmd_type_code, law_cmd_type_wire_codes, law_subsystem_code, law_subsystem_wire_codes,
    CmdType, Subsystem,
};
pub use self::laws::{
    law_decode_after_encode, law_frame_check_bytes, law_frame_layout, law_message_frame_valid, law_message_to_raw_and_back,
    law_parse_after_write, law_partial_frame_waits, law_raw_to_message_and_back, law_type_byte_layout,
    law_write_after_parse,
};
pub use self::message::{Message, RawMessage};
