//! Packet identifiers of the four-key keypad family.

use vstd::prelude::*;
use vstd::std_specs::convert::FromSpecImpl;

verus! {

/// The identifiers that the four-key keypad firmware knows.
#[derive(Copy, Clone, Debug, PartialEq, Eq, Structural)]
pub enum PacketID {
    /// No packet: what an empty report reads as.
    Null,
    /// The success marker of every reply.
    Okay,
    /// The failure marker of a reply.
    Bad,
    Ping,
    SetConfig,
    GetConfig,
    GetFirmwareVersion,
    GetDeviceName,
    CalibrationKey,
    EraseFirmware,
    Debug,
    AutoConfig,
    SetMiddlePoint,
    ToggleKeyboard,
    Reset,
    GetStatus,
    GetKeyConfig,
    GetLightConfig,
    SetKeyConfig,
    SetLightConfig,
    SaveKeyConfig,
    SaveLightConfig,
    ClearKeyConfig,
    ClearLightConfig,
    GetHallConfig,
    ClearHallConfig,
}

impl PacketID {
    /// The byte that stands for the identifier on the wire.
    pub open spec fn code(self) -> u8 {
        match self {
            PacketID::Null => 0,
            PacketID::Okay => 1,
            PacketID::Bad => 2,
            PacketID::Ping => 3,
            PacketID::SetConfig => 5,
            PacketID::GetConfig => 6,
            PacketID::GetFirmwareVersion => 7,
            PacketID::GetDeviceName => 8,
            PacketID::CalibrationKey => 9,
            PacketID::EraseFirmware => 10,
            PacketID::Debug => 11,
            PacketID::AutoConfig => 12,
            PacketID::SetMiddlePoint => 13,
            PacketID::ToggleKeyboard => 14,
            PacketID::Reset => 15,
            PacketID::GetStatus => 16,
            PacketID::GetKeyConfig => 100,
            PacketID::GetLightConfig => 101,
            PacketID::SetKeyConfig => 102,
            PacketID::SetLightConfig => 103,
            PacketID::SaveKeyConfig => 104,
            PacketID::SaveLightConfig => 105,
            PacketID::ClearKeyConfig => 106,
            PacketID::ClearLightConfig => 107,
            PacketID::GetHallConfig => 108,
            PacketID::ClearHallConfig => 109,
        }
    }

    /// The identifier that a byte stands for, if any.
    pub open spec fn of_code(code: u8) -> Option<PacketID> {
        if code == 0 {
            Some(PacketID::Null)
        } else if code == 1 {
            Some(PacketID::Okay)
        } else if code == 2 {
            Some(PacketID::Bad)
        } else if code == 3 {
            Some(PacketID::Ping)
        } else if code == 5 {
            Some(PacketID::SetConfig)
        } else if code == 6 {
            Some(PacketID::GetConfig)
        } else if code == 7 {
            Some(PacketID::GetFirmwareVersion)
        } else if code == 8 {
            Some(PacketID::GetDeviceName)
        } else if code == 9 {
            Some(PacketID::CalibrationKey)
        } else if code == 10 {
            Some(PacketID::EraseFirmware)
        } else if code == 11 {
            Some(PacketID::Debug)
        } else if code == 12 {
            Some(PacketID::AutoConfig)
        } else if code == 13 {
            Some(PacketID::SetMiddlePoint)
        } else if code == 14 {
            Some(PacketID::ToggleKeyboard)
        } else if code == 15 {
            Some(PacketID::Reset)
        } else if code == 16 {
            Some(PacketID::GetStatus)
        } else if code == 100 {
            Some(PacketID::GetKeyConfig)
        } else if code == 101 {
            Some(PacketID::GetLightConfig)
        } else if code == 102 {
            Some(PacketID::SetKeyConfig)
        } else if code == 103 {
            Some(PacketID::SetLightConfig)
        } else if code == 104 {
            Some(PacketID::SaveKeyConfig)
        } else if code == 105 {
            Some(PacketID::SaveLightConfig)
        } else if code == 106 {
            Some(PacketID::ClearKeyConfig)
        } else if code == 107 {
            Some(PacketID::ClearLightConfig)
        } else if code == 108 {
            Some(PacketID::GetHallConfig)
        } else if code == 109 {
            Some(PacketID::ClearHallConfig)
        } else {
            None
        }
    }

    pub fn to_u8(self) -> (r: u8)
        ensures
            r == self.code(),
    {
        match self {
            PacketID::Null => 0,
            PacketID::Okay => 1,
            PacketID::Bad => 2,
            PacketID::Ping => 3,
            PacketID::SetConfig => 5,
            PacketID::GetConfig => 6,
            PacketID::GetFirmwareVersion => 7,
            PacketID::GetDeviceName => 8,
            PacketID::CalibrationKey => 9,
            PacketID::EraseFirmware => 10,
            PacketID::Debug => 11,
            PacketID::AutoConfig => 12,
            PacketID::SetMiddlePoint => 13,
            PacketID::ToggleKeyboard => 14,
            PacketID::Reset => 15,
            PacketID::GetStatus => 16,
            PacketID::GetKeyConfig => 100,
            PacketID::GetLightConfig => 101,
            PacketID::SetKeyConfig => 102,
            PacketID::SetLightConfig => 103,
            PacketID::SaveKeyConfig => 104,
            PacketID::SaveLightConfig => 105,
            PacketID::ClearKeyConfig => 106,
            PacketID::ClearLightConfig => 107,
            PacketID::GetHallConfig => 108,
            PacketID::ClearHallConfig => 109,
        }
    }

    pub fn from_u8(code: u8) -> (r: Option<PacketID>)
        ensures
            r == PacketID::of_code(code),
    {
        match code {
            0 => Some(PacketID::Null),
            1 => Some(PacketID::Okay),
            2 => Some(PacketID::Bad),
            3 => Some(PacketID::Ping),
            5 => Some(PacketID::SetConfig),
            6 => Some(PacketID::GetConfig),
            7 => Some(PacketID::GetFirmwareVersion),
            8 => Some(PacketID::GetDeviceName),
            9 => Some(PacketID::CalibrationKey),
            10 => Some(PacketID::EraseFirmware),
            11 => Some(PacketID::Debug),
            12 => Some(PacketID::AutoConfig),
            13 => Some(PacketID::SetMiddlePoint),
            14 => Some(PacketID::ToggleKeyboard),
            15 => Some(PacketID::Reset),
            16 => Some(PacketID::GetStatus),
            100 => Some(PacketID::GetKeyConfig),
            101 => Some(PacketID::GetLightConfig),
            102 => Some(PacketID::SetKeyConfig),
            103 => Some(PacketID::SetLightConfig),
            104 => Some(PacketID::SaveKeyConfig),
            105 => Some(PacketID::SaveLightConfig),
            106 => Some(PacketID::ClearKeyConfig),
            107 => Some(PacketID::ClearLightConfig),
            108 => Some(PacketID::GetHallConfig),
            109 => Some(PacketID::ClearHallConfig),
            _ => None,
        }
    }
}

/// Every identifier is found again from its byte, and no byte stands for two.
pub proof fn lemma_code_round_trip(id: PacketID, code: u8)
    ensures
        PacketID::of_code(id.code()) == Some(id),
        PacketID::of_code(code) matches Some(found) ==> found.code() == code,
{
}

impl From<PacketID> for u8 {
    fn from(value: PacketID) -> (r: u8) {
        value.to_u8()
    }
}

impl FromSpecImpl<PacketID> for u8 {
    open spec fn obeys_from_spec() -> bool {
        true
    }

    open spec fn from_spec(value: PacketID) -> u8 {
        value.code()
    }
}

} // verus!
