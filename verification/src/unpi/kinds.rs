//! The command type and the subsystem that share the second header byte of a
//! UNPI frame: the type in the high three bits, the subsystem in the low five.
use vstd::prelude::*;

use super::error::Error;

verus! {

/// The type of a UNPI command.
#[derive(Debug, Clone, Copy, PartialEq, Eq, Structural)]
pub enum CmdType {
    SyncRequest,
    AsyncRequest,
    SyncResponse,
}

/// The Z-Stack subsystem a UNPI command belongs to.
#[derive(Debug, Clone, Copy, PartialEq, Eq, Structural)]
pub enum Subsystem {
    Sys,
    Mac,
    Nwk,
    Af,
    Zdo,
    Sapi,
    Util,
    Debug,
    App,
    AppConfig,
    GreenPower,
}

impl CmdType {
    /// The number that stands for this command type on the wire.
    pub open spec fn code_spec(self) -> u8 {
        match self {
            CmdType::SyncRequest => 0x01,
            CmdType::AsyncRequest => 0x02,
            CmdType::SyncResponse => 0x03,
        }
    }

    /// The command type that `value` stands for, if any.
    pub open spec fn from_code_spec(value: u8) -> Option<CmdType> {
        if value == 0x01 {
            Some(CmdType::SyncRequest)
        } else if value == 0x02 {
            Some(CmdType::AsyncRequest)
        } else if value == 0x03 {
            Some(CmdType::SyncResponse)
        } else {
            None
        }
    }

    /// The number that stands for this command type on the wire.
    pub fn code(self) -> (c: u8)
        ensures
            c == self.code_spec(),
    {
        match self {
            CmdType::SyncRequest => 0x01,
            CmdType::AsyncRequest => 0x02,
            CmdType::SyncResponse => 0x03,
        }
    }
}

impl Subsystem {
    /// The number that stands for this subsystem on the wire.
    pub open spec fn code_spec(self) -> u8 {
        match self {
            Subsystem::Sys => 0x01,
            Subsystem::Mac => 0x02,
            Subsystem::Nwk => 0x03,
            Subsystem::Af => 0x04,
            Subsystem::Zdo => 0x05,
            Subsystem::Sapi => 0x06,
            Subsystem::Util => 0x07,
            Subsystem::Debug => 0x08,
            Subsystem::App => 0x09,
            Subsystem::AppConfig => 0x0f,
            Subsystem::GreenPower => 0x15,
        }
    }

    /// The subsystem that `value` stands for, if any.
    pub open spec fn from_code_spec(value: u8) -> Option<Subsystem> {
        if value == 0x01 {
            Some(Subsystem::Sys)
        } else if value == 0x02 {
            Some(Subsystem::Mac)
        } else if value == 0x03 {
            Some(Subsystem::Nwk)
        } else if value == 0x04 {
            Some(Subsystem::Af)
        } else if value == 0x05 {
            Some(Subsystem::Zdo)
        } else if value == 0x06 {
            Some(Subsystem::Sapi)
        } else if value == 0x07 {
            Some(Subsystem::Util)
        } else if value == 0x08 {
            Some(Subsystem::Debug)
        } else if value == 0x09 {
            Some(Subsystem::App)
        } else if value == 0x0f {
            Some(Subsystem::AppConfig)
        } else if value == 0x15 {
            Some(Subsystem::GreenPower)
        } else {
            None
        }
    }

    /// The number that stands for this subsystem on the wire.
    pub fn code(self) -> (c: u8)
        ensures
            c == self.code_spec(),
    {
        match self {
            Subsystem::Sys => 0x01,
            Subsystem::Mac => 0x02,
            Subsystem::Nwk => 0x03,
            Subsystem::Af => 0x04,
            Subsystem::Zdo => 0x05,
            Subsystem::Sapi => 0x06,
            Subsystem::Util => 0x07,
            Subsystem::Debug => 0x08,
            Subsystem::App => 0x09,
            Subsystem::AppConfig => 0x0f,
            Subsystem::GreenPower => 0x15,
        }
    }
}

impl TryFrom<u8> for CmdType {
    type Error = Error;

    fn try_from(value: u8) -> (r: Result<Self, Self::Error>) {
        match value {
            0x01 => Ok(CmdType::SyncRequest),
            0x02 => Ok(CmdType::AsyncRequest),
            0x03 => Ok(CmdType::SyncResponse),
            _ => Err(Error::InvalidCmdType(value)),
        }
    }
}

impl vstd::std_specs::convert::TryFromSpecImpl<u8> for CmdType {
    open spec fn obeys_try_from_spec() -> bool {
        true
    }

    open spec fn try_from_spec(v: u8) -> Result<Self, Self::Error> {
        match CmdType::from_code_spec(v) {
            Some(t) => Ok(t),
            None => Err(Error::InvalidCmdType(v)),
        }
    }
}

impl TryFrom<u8> for Subsystem {
    type Error = Error;

    fn try_from(value: u8) -> (r: Result<Self, Self::Error>) {
        match value {
            0x01 => Ok(Subsystem::Sys),
            0x02 => Ok(Subsystem::Mac),
            0x03 => Ok(Subsystem::Nwk),
            0x04 => Ok(Subsystem::Af),
            0x05 => Ok(Subsystem::Zdo),
            0x06 => Ok(Subsystem::Sapi),
            0x07 => Ok(Subsystem::Util),
            0x08 => Ok(Subsystem::Debug),
            0x09 => Ok(Subsystem::App),
            0x0f => Ok(Subsystem::AppConfig),
            0x15 => Ok(Subsystem::GreenPower),
            _ => Err(Error::InvalidSubsystem(value)),
        }
    }
}

impl vstd::std_specs::convert::TryFromSpecImpl<u8> for Subsystem {
    open spec fn obeys_try_from_spec() -> bool {
        true
    }

    open spec fn try_from_spec(v: u8) -> Result<Self, Self::Error> {
        match Subsystem::from_code_spec(v) {
            Some(s) => Ok(s),
            None => Err(Error::InvalidSubsystem(v)),
        }
    }
}

/// Reading back the code of a command type gives that command type, and a code
/// names a command type only if it is that type's code.
pub proof fn law_cmd_type_code(t: CmdType, v: u8)
    ensures
        CmdType::from_code_spec(t.code_spec()) == Some(t),
        CmdType::from_code_spec(v) matches Some(u) ==> u.code_spec() == v,
        1 <= t.code_spec() <= 3,
{
}

/// Reading back the code of a subsystem gives that subsystem, and a code names a
/// subsystem only if it is that subsystem's code.
pub proof fn law_subsystem_code(s: Subsystem, v: u8)
    ensures
        Subsystem::from_code_spec(s.code_spec()) == Some(s),
        Subsystem::from_code_spec(v) matches Some(u) ==> u.code_spec() == v,
        1 <= s.code_spec() < 32,
{
}

/// The Z-Stack wire codes of the command types: SREQ 1, AREQ 2, SRSP 3, in both
/// directions; no other code names a command type.
pub proof fn law_cmd_type_wire_codes(k: CmdType, v: u8)
    ensures
        (k == CmdType::SyncRequest) == (k.code_spec() == 0x01),
        (k == CmdType::AsyncRequest) == (k.code_spec() == 0x02),
        (k == CmdType::SyncResponse) == (k.code_spec() == 0x03),
        (CmdType::from_code_spec(v) == Some(CmdType::SyncRequest)) == (v == 0x01),
        (CmdType::from_code_spec(v) == Some(CmdType::AsyncRequest)) == (v == 0x02),
        (CmdType::from_code_spec(v) == Some(CmdType::SyncResponse)) == (v == 0x03),
        CmdType::from_code_spec(v) is Some == (v == 0x01 || v == 0x02 || v == 0x03),
{
}

/// The Z-Stack wire codes of the subsystems: SYS 0x01, MAC 0x02, NWK 0x03,
/// AF 0x04, ZDO 0x05, SAPI 0x06, UTIL 0x07, DEBUG 0x08, APP 0x09, APP_CNF 0x0f,
/// GREENPOWER 0x15, in both directions; no other code names a subsystem.
pub proof fn law_subsystem_wire_codes(k: Subsystem, v: u8)
    ensures
        (k == Subsystem::Sys) == (k.code_spec() == 0x01),
        (k == Subsystem::Mac) == (k.code_spec() == 0x02),
        (k == Subsystem::Nwk) == (k.code_spec() == 0x03),
        (k == Subsystem::Af) == (k.code_spec() == 0x04),
        (k == Subsystem::Zdo) == (k.code_spec() == 0x05),
        (k == Subsystem::Sapi) == (k.code_spec() == 0x06),
        (k == Subsystem::Util) == (k.code_spec() == 0x07),
        (k == Subsystem::Debug) == (k.code_spec() == 0x08),
        (k == Subsystem::App) == (k.code_spec() == 0x09),
        (k == Subsystem::AppConfig) == (k.code_spec() == 0x0f),
        (k == Subsystem::GreenPower) == (k.code_spec() == 0x15),
        (Subsystem::from_code_spec(v) == Some(Subsystem::Sys)) == (v == 0x01),
        (Subsystem::from_code_spec(v) == Some(Subsystem::Mac)) == (v == 0x02),
        (Subsystem::from_code_spec(v) == Some(Subsystem::Nwk)) == (v == 0x03),
        (Subsystem::from_code_spec(v) == Some(Subsystem::Af)) == (v == 0x04),
        (Subsystem::from_code_spec(v) == Some(Subsystem::Zdo)) == (v == 0x05),
        (Subsystem::from_code_spec(v) == Some(Subsystem::Sapi)) == (v == 0x06),
        (Subsystem::from_code_spec(v) == Some(Subsystem::Util)) == (v == 0x07),
        (Subsystem::from_code_spec(v) == Some(Subsystem::Debug)) == (v == 0x08),
        (Subsystem::from_code_spec(v) == Some(Subsystem::App)) == (v == 0x09),
        (Subsystem::from_code_spec(v) == Some(Subsystem::AppConfig)) == (v == 0x0f),
        (Subsystem::from_code_spec(v) == Some(Subsystem::GreenPower)) == (v == 0x15),
        Subsystem::from_code_spec(v) is Some == (v == 0x01 || v == 0x02 || v == 0x03 || v == 0x04 || v == 0x05 || v == 0x06 || v == 0x07 || v == 0x08 || v == 0x09 || v == 0x0f || v == 0x15),
{
}

} // verus!
