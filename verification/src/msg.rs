//! The message protocol: one identifier byte, then the payload of that
//! message.

use vstd::prelude::*;

pub mod ps;
pub mod wire;

verus! {

/// The messages of the protocol.
#[derive(Clone, Copy, Debug, PartialEq, Eq, Structural)]
pub enum MessageId {
    Unknown,
    GetStatusReq,
    GetStatusResp,
    GetAdcValueReq,
    GetAdcValueResp,
    GetHygrometerStatusReq,
    GetHygrometerStatusResp,
    GetTemperatureReq,
    GetTemperatureResp,
}

impl MessageId {
    /// The identifier byte of a message.
    pub open spec fn spec_code(self) -> u8 {
        match self {
            MessageId::Unknown => 0,
            MessageId::GetStatusReq => 1,
            MessageId::GetStatusResp => 2,
            MessageId::GetAdcValueReq => 3,
            MessageId::GetAdcValueResp => 4,
            MessageId::GetHygrometerStatusReq => 5,
            MessageId::GetHygrometerStatusResp => 6,
            MessageId::GetTemperatureReq => 7,
            MessageId::GetTemperatureResp => 8,
        }
    }

    /// The message that an identifier byte names; a byte that names none
    /// stands for `Unknown`.
    pub open spec fn spec_from_code(code: u8) -> MessageId {
        if code == 1 {
            MessageId::GetStatusReq
        } else if code == 2 {
            MessageId::GetStatusResp
        } else if code == 3 {
            MessageId::GetAdcValueReq
        } else if code == 4 {
            MessageId::GetAdcValueResp
        } else if code == 5 {
            MessageId::GetHygrometerStatusReq
        } else if code == 6 {
            MessageId::GetHygrometerStatusResp
        } else if code == 7 {
            MessageId::GetTemperatureReq
        } else if code == 8 {
            MessageId::GetTemperatureResp
        } else {
            MessageId::Unknown
        }
    }

    /// The identifier byte of a message.
    pub fn code(&self) -> (code: u8)
        ensures
            code == self.spec_code(),
            code <= 8,
    {
        match self {
            MessageId::Unknown => 0,
            MessageId::GetStatusReq => 1,
            MessageId::GetStatusResp => 2,
            MessageId::GetAdcValueReq => 3,
            MessageId::GetAdcValueResp => 4,
            MessageId::GetHygrometerStatusReq => 5,
            MessageId::GetHygrometerStatusResp => 6,
            MessageId::GetTemperatureReq => 7,
            MessageId::GetTemperatureResp => 8,
        }
    }

    /// The message that an identifier byte names.
    pub fn from_code(code: u8) -> (id: MessageId)
        ensures
            id == MessageId::spec_from_code(code),
    {
        match code {
            1 => MessageId::GetStatusReq,
            2 => MessageId::GetStatusResp,
            3 => MessageId::GetAdcValueReq,
            4 => MessageId::GetAdcValueResp,
            5 => MessageId::GetHygrometerStatusReq,
            6 => MessageId::GetHygrometerStatusResp,
            7 => MessageId::GetTemperatureReq,
            8 => MessageId::GetTemperatureResp,
            _ => MessageId::Unknown,
        }
    }

    /// Every message is the one that its identifier byte names, and a byte
    /// that names a message is that message's identifier.
    pub proof fn lemma_code_round_trip(id: MessageId, code: u8)
        ensures
            MessageId::spec_from_code(id.spec_code()) == id,
            code <= 8 ==> MessageId::spec_from_code(code).spec_code() == code,
            code > 8 ==> MessageId::spec_from_code(code) == MessageId::Unknown,
    {
    }
}

} // verus!
