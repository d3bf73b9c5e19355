use vstd::prelude::*;

verus! {

/// `std::io::Error`, carried through opaque.
#[verifier::external_type_specification]
#[verifier::external_body]
pub struct ExIoError(std::io::Error);

/// What can go wrong while decoding or encoding a UNPI frame.
#[derive(Debug)]
pub enum Error {
    /// The first byte of a frame is not the start-of-frame marker; it holds that byte.
    InvalidSof(u8),
    /// The frame check sequence does not match; it holds the XOR of the computed
    /// check with the received one, which is never 0.
    InvalidFcs(u8),
    /// The low five bits of the type/subsystem byte name no known subsystem.
    InvalidSubsystem(u8),
    /// The high three bits of the type/subsystem byte name no known command type.
    InvalidCmdType(u8),
    /// The underlying transport failed.
    Io(std::io::Error),
}

impl From<std::io::Error> for Error {
    fn from(e: std::io::Error) -> (r: Self) {
        Error::Io(e)
    }
}

impl vstd::std_specs::convert::FromSpecImpl<std::io::Error> for Error {
    open spec fn obeys_from_spec() -> bool {
        true
    }

    open spec fn from_spec(e: std::io::Error) -> Self {
        Error::Io(e)
    }
}

/// The text of a decimal digit.
pub open spec fn digit_text(d: u8) -> Seq<char> {
    if d == 0 {
        "0"@
    } else if d == 1 {
        "1"@
    } else if d == 2 {
        "2"@
    } else if d == 3 {
        "3"@
    } else if d == 4 {
        "4"@
    } else if d == 5 {
        "5"@
    } else if d == 6 {
        "6"@
    } else if d == 7 {
        "7"@
    } else if d == 8 {
        "8"@
    } else {
        "9"@
    }
}

/// A byte written in decimal, without leading zeros.
pub open spec fn decimal_text(x: u8) -> Seq<char> {
    if x < 10 {
        digit_text(x)
    } else if x < 100 {
        digit_text(x / 10) + digit_text(x % 10)
    } else {
        digit_text(x / 100) + digit_text((x / 10) % 10) + digit_text(x % 10)
    }
}

fn digit_str(d: u8) -> (s: &'static str)
    requires
        d < 10,
    ensures
        s@ == digit_text(d),
{
    match d {
        0 => "0",
        1 => "1",
        2 => "2",
        3 => "3",
        4 => "4",
        5 => "5",
        6 => "6",
        7 => "7",
        8 => "8",
        _ => "9",
    }
}

fn append_decimal(text: &mut String, x: u8)
    ensures
        final(text)@ == old(text)@ + decimal_text(x),
{
    if x >= 100 {
        text.append(digit_str(x / 100));
    }
    if x >= 10 {
        text.append(digit_str((x / 10) % 10));
    }
    text.append(digit_str(x % 10));
    assert(text@ =~= old(text)@ + decimal_text(x));
}

impl Error {
    /// The error as a line of text, as it is shown to people.
    pub fn to_string(&self) -> (text: String)
        ensures
            match self {
                Error::InvalidSof(sof) => text@ == "Invalid SOF: "@ + decimal_text(*sof),
                Error::InvalidFcs(check) => text@ == "Invalid check: "@ + decimal_text(*check),
                Error::InvalidSubsystem(subsys) => text@ == "Invalid subsystem: "@ + decimal_text(
                    *subsys,
                ),
                Error::InvalidCmdType(cmd_type) => text@ == "Invalid command type: "@
                    + decimal_text(*cmd_type),
                Error::Io(e) => exists|detail: String|
                    vstd::string::to_string_from_display_ensures::<std::io::Error>(e, detail)
                        && text@ == "IO error: "@ + detail@,
            },
    {
        match self {
            Error::InvalidSof(sof) => {
                let mut text = String::from_str("Invalid SOF: ");
                append_decimal(&mut text, *sof);
                text
            },
            Error::InvalidFcs(check) => {
                let mut text = String::from_str("Invalid check: ");
                append_decimal(&mut text, *check);
                text
            },
            Error::InvalidSubsystem(subsys) => {
                let mut text = String::from_str("Invalid subsystem: ");
                append_decimal(&mut text, *subsys);
                text
            },
            Error::InvalidCmdType(cmd_type) => {
                let mut text = String::from_str("Invalid command type: ");
                append_decimal(&mut text, *cmd_type);
                text
            },
            Error::Io(e) => {
                let mut text = String::from_str("IO error: ");
                let detail = e.to_string();
                text.append(detail.as_str());
                assert(text@ =~= "IO error: "@ + detail@);
                text
            },
        }
    }
}

} // verus!
