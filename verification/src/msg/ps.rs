//! The payloads of the protocol's messages and their binary form.

use vstd::prelude::*;
use crate::msg::wire::{
    deserialize_byte, deserialize_flag_and_byte, deserialize_signed_word, deserialize_text,
    deserialize_word, flag_byte, holds_text, payload_or_zero, serialize_byte,
    serialize_flag_and_byte, serialize_signed_word, serialize_text, serialize_word,
    signed_word_bytes, signed_word_value, text_bytes, text_value, word_bytes, word_value,
};
use crate::msg::MessageId;

verus! {

/// A payload that does not have the layout of its message.
#[derive(Clone, Copy, Debug, PartialEq, Eq, Structural)]
pub struct ProtocolDecodeError {
    /// The message that the payload was read as.
    pub message: MessageId,
}

/// What a status request asks about.
#[derive(Clone, Copy, Debug, PartialEq, Eq, Structural)]
pub enum StatusType {
    Unknown,
    I2C,
    ADC,
}

impl StatusType {
    /// The byte that stands for a status type.
    pub open spec fn spec_code(self) -> u8 {
        match self {
            StatusType::Unknown => 0,
            StatusType::I2C => 1,
            StatusType::ADC => 2,
        }
    }

    /// The status type that a byte stands for; a byte that stands for none
    /// gives `Unknown`.
    pub open spec fn spec_from_code(code: u8) -> StatusType {
        if code == 1 {
            StatusType::I2C
        } else if code == 2 {
            StatusType::ADC
        } else {
            StatusType::Unknown
        }
    }

    /// The byte that stands for a status type.
    pub fn code(&self) -> (code: u8)
        ensures
            code == self.spec_code(),
    {
        match self {
            StatusType::Unknown => 0,
            StatusType::I2C => 1,
            StatusType::ADC => 2,
        }
    }
}

/// Asks for a status text.
#[derive(Debug, PartialEq, Eq)]
pub struct GetStatusReq {
    status_type: u8,
}

impl GetStatusReq {
    /// The byte that names the status asked for.
    pub closed spec fn code(self) -> u8 {
        self.status_type
    }

    /// The payload of this message.
    pub open spec fn payload(self) -> Seq<u8> {
        seq![self.code()]
    }

    pub fn new(status_type_arg: StatusType) -> (req: GetStatusReq)
        ensures
            req.code() == status_type_arg.spec_code(),
    {
        GetStatusReq { status_type: status_type_arg.code() }
    }

    /// The status asked for.
    pub fn get_status(&self) -> (status_type: StatusType)
        ensures
            status_type == StatusType::spec_from_code(self.code()),
    {
        match self.status_type {
            1 => StatusType::I2C,
            2 => StatusType::ADC,
            _ => StatusType::Unknown,
        }
    }

    /// Encodes the payload.
    pub fn to_bytes(&self) -> (bytes: Vec<u8>)
        ensures
            bytes@ == self.payload(),
    {
        payload_or_zero(serialize_byte(self.status_type))
    }

    /// Decodes a payload: it must hold one byte.
    pub fn from_bytes(buffer: &[u8]) -> (decoded: Result<GetStatusReq, ProtocolDecodeError>)
        ensures
            match decoded {
                Ok(req) => buffer@.len() >= 1 && req.code() == buffer@[0],
                Err(e) => buffer@.len() < 1 && e.message == MessageId::GetStatusReq,
            },
    {
        match deserialize_byte(buffer) {
            Ok(status_type) => Ok(GetStatusReq { status_type }),
            Err(_) => Err(ProtocolDecodeError { message: MessageId::GetStatusReq }),
        }
    }
}

/// Answers a status request.
#[derive(Debug, PartialEq, Eq)]
pub struct GetStatusResp {
    pub status: String,
}

impl GetStatusResp {
    /// The payload of this message.
    pub open spec fn payload(self) -> Seq<u8> {
        text_bytes(self.status@)
    }

    pub fn new(status: String) -> (resp: GetStatusResp)
        ensures
            resp.status == status,
    {
        GetStatusResp { status }
    }

    /// Encodes the payload.
    pub fn to_bytes(&self) -> (bytes: Vec<u8>)
        ensures
            bytes@ == self.payload(),
    {
        payload_or_zero(serialize_text(self.status.as_str()))
    }

    /// Decodes a payload: it must hold a text.
    pub fn from_bytes(buffer: &[u8]) -> (decoded: Result<GetStatusResp, ProtocolDecodeError>)
        ensures
            match decoded {
                Ok(resp) => holds_text(buffer@) && resp.status@ == text_value(buffer@),
                Err(e) => !holds_text(buffer@) && e.message == MessageId::GetStatusResp,
            },
    {
        match deserialize_text(buffer) {
            Ok(status) => Ok(GetStatusResp { status }),
            Err(_) => Err(ProtocolDecodeError { message: MessageId::GetStatusResp }),
        }
    }
}

/// Asks for a sample of one ADC channel, raw or converted to millivolts.
#[derive(Debug, PartialEq, Eq)]
pub struct GetAdcValueReq {
    converted: bool,
    channel: u8,
}

impl GetAdcValueReq {
    /// Whether the sample is asked for in millivolts.
    pub closed spec fn converted(self) -> bool {
        self.converted
    }

    /// The channel to sample.
    pub closed spec fn selected(self) -> u8 {
        self.channel
    }

    /// The payload of this message.
    pub open spec fn payload(self) -> Seq<u8> {
        seq![flag_byte(self.converted()), self.selected()]
    }

    pub fn new(converted: bool, channel: u8) -> (req: GetAdcValueReq)
        ensures
            req.converted() == converted,
            req.selected() == channel,
    {
        GetAdcValueReq { converted, channel }
    }

    /// The channel to sample.
    pub fn channel(&self) -> (channel: u8)
        ensures
            channel == self.selected(),
    {
        self.channel
    }

    /// Whether the sample is asked for in millivolts.
    pub fn is_converted(&self) -> (converted: bool)
        ensures
            converted == self.converted(),
    {
        self.converted
    }

    /// Encodes the payload.
    pub fn to_bytes(&self) -> (bytes: Vec<u8>)
        ensures
            bytes@ == self.payload(),
    {
        payload_or_zero(serialize_flag_and_byte(self.converted, self.channel))
    }

    /// Decodes a payload: it must hold a flag byte that is 0 or 1, then the
    /// channel byte.
    pub fn from_bytes(buffer: &[u8]) -> (decoded: Result<GetAdcValueReq, ProtocolDecodeError>)
        ensures
            match decoded {
                Ok(req) => buffer@.len() >= 2 && buffer@[0] <= 1 && req.converted() == (buffer@[0]
                    == 1) && req.selected() == buffer@[1],
                Err(e) => (buffer@.len() < 2 || buffer@[0] > 1) && e.message
                    == MessageId::GetAdcValueReq,
            },
    {
        match deserialize_flag_and_byte(buffer) {
            Ok(pair) => Ok(GetAdcValueReq { converted: pair.0, channel: pair.1 }),
            Err(_) => Err(ProtocolDecodeError { message: MessageId::GetAdcValueReq }),
        }
    }
}

/// Answers an ADC request.
#[derive(Debug, PartialEq, Eq)]
pub struct GetAdcValueResp {
    pub value: u16,
}

impl GetAdcValueResp {
    /// The payload of this message.
    pub open spec fn payload(self) -> Seq<u8> {
        word_bytes(self.value)
    }

    pub fn new(value: u16) -> (resp: GetAdcValueResp)
        ensures
            resp.value == value,
    {
        GetAdcValueResp { value }
    }

    /// Encodes the payload.
    pub fn to_bytes(&self) -> (bytes: Vec<u8>)
        ensures
            bytes@ == self.payload(),
    {
        payload_or_zero(serialize_word(self.value))
    }

    /// Decodes a payload: it must hold two bytes.
    pub fn from_bytes(buffer: &[u8]) -> (decoded: Result<GetAdcValueResp, ProtocolDecodeError>)
        ensures
            match decoded {
                Ok(resp) => buffer@.len() >= 2 && resp.value == word_value(buffer@[0], buffer@[1]),
                Err(e) => buffer@.len() < 2 && e.message == MessageId::GetAdcValueResp,
            },
    {
        match deserialize_word(buffer) {
            Ok(value) => Ok(GetAdcValueResp { value }),
            Err(_) => Err(ProtocolDecodeError { message: MessageId::GetAdcValueResp }),
        }
    }
}

/// Asks for the humidity that the sensor on one ADC channel reports.
#[derive(Debug, PartialEq, Eq)]
pub struct GetHygrometerStatusReq {
    pub channel: u8,
}

impl GetHygrometerStatusReq {
    /// The payload of this message.
    pub open spec fn payload(self) -> Seq<u8> {
        seq![self.channel]
    }

    pub fn new(channel: u8) -> (req: GetHygrometerStatusReq)
        ensures
            req.channel == channel,
    {
        GetHygrometerStatusReq { channel }
    }

    /// Encodes the payload.
    pub fn to_bytes(&self) -> (bytes: Vec<u8>)
        ensures
            bytes@ == self.payload(),
    {
        payload_or_zero(serialize_byte(self.channel))
    }

    /// Decodes a payload: it must hold one byte.
    pub fn from_bytes(buffer: &[u8]) -> (decoded: Result<
        GetHygrometerStatusReq,
        ProtocolDecodeError,
    >)
        ensures
            match decoded {
                Ok(req) => buffer@.len() >= 1 && req.channel == buffer@[0],
                Err(e) => buffer@.len() < 1 && e.message == MessageId::GetHygrometerStatusReq,
            },
    {
        match deserialize_byte(buffer) {
            Ok(channel) => Ok(GetHygrometerStatusReq { channel }),
            Err(_) => Err(ProtocolDecodeError { message: MessageId::GetHygrometerStatusReq }),
        }
    }
}

/// Answers a humidity request.
#[derive(Debug, PartialEq, Eq)]
pub struct GetHygrometerStatusResp {
    pub humidity: u8,
}

impl GetHygrometerStatusResp {
    /// The payload of this message.
    pub open spec fn payload(self) -> Seq<u8> {
        seq![self.humidity]
    }

    pub fn new(humidity: u8) -> (resp: GetHygrometerStatusResp)
        ensures
            resp.humidity == humidity,
    {
        GetHygrometerStatusResp { humidity }
    }

    /// Encodes the payload.
    pub fn to_bytes(&self) -> (bytes: Vec<u8>)
        ensures
            bytes@ == self.payload(),
    {
        payload_or_zero(serialize_byte(self.humidity))
    }

    /// Decodes a payload: it must hold one byte.
    pub fn from_bytes(buffer: &[u8]) -> (decoded: Result<
        GetHygrometerStatusResp,
        ProtocolDecodeError,
    >)
        ensures
            match decoded {
                Ok(resp) => buffer@.len() >= 1 && resp.humidity == buffer@[0],
                Err(e) => buffer@.len() < 1 && e.message == MessageId::GetHygrometerStatusResp,
            },
    {
        match deserialize_byte(buffer) {
            Ok(humidity) => Ok(GetHygrometerStatusResp { humidity }),
            Err(_) => Err(ProtocolDecodeError { message: MessageId::GetHygrometerStatusResp }),
        }
    }
}

/// Asks for the temperature. Its one byte carries nothing.
#[derive(Debug, PartialEq, Eq)]
pub struct GetTemperatureReq {
    dummy: u8,
}

impl GetTemperatureReq {
    /// The byte that the request carries.
    pub closed spec fn filler(self) -> u8 {
        self.dummy
    }

    /// The payload of this message.
    pub open spec fn payload(self) -> Seq<u8> {
        seq![self.filler()]
    }

    pub fn new(dummy: u8) -> (req: GetTemperatureReq)
        ensures
            req.filler() == dummy,
    {
        GetTemperatureReq { dummy }
    }

    /// Encodes the payload.
    pub fn to_bytes(&self) -> (bytes: Vec<u8>)
        ensures
            bytes@ == self.payload(),
    {
        payload_or_zero(serialize_byte(self.dummy))
    }

    /// Decodes a payload: it must hold one byte.
    pub fn from_bytes(buffer: &[u8]) -> (decoded: Result<GetTemperatureReq, ProtocolDecodeError>)
        ensures
            match decoded {
                Ok(req) => buffer@.len() >= 1 && req.filler() == buffer@[0],
                Err(e) => buffer@.len() < 1 && e.message == MessageId::GetTemperatureReq,
            },
    {
        match deserialize_byte(buffer) {
            Ok(dummy) => Ok(GetTemperatureReq { dummy }),
            Err(_) => Err(ProtocolDecodeError { message: MessageId::GetTemperatureReq }),
        }
    }
}

/// Answers a temperature request, in degrees Celsius.
#[derive(Debug, PartialEq, Eq)]
pub struct GetTemperatureResp {
    pub temperature: i16,
}

impl GetTemperatureResp {
    /// The payload of this message.
    pub open spec fn payload(self) -> Seq<u8> {
        signed_word_bytes(self.temperature)
    }

    pub fn new(temperature: i16) -> (resp: GetTemperatureResp)
        ensures
            resp.temperature == temperature,
    {
        GetTemperatureResp { temperature }
    }

    /// Encodes the payload.
    pub fn to_bytes(&self) -> (bytes: Vec<u8>)
        ensures
            bytes@ == self.payload(),
    {
        payload_or_zero(serialize_signed_word(self.temperature))
    }

    /// Decodes a payload: it must hold two bytes.
    pub fn from_bytes(buffer: &[u8]) -> (decoded: Result<GetTemperatureResp, ProtocolDecodeError>)
        ensures
            match decoded {
                Ok(resp) => buffer@.len() >= 2 && resp.temperature == signed_word_value(
                    buffer@[0],
                    buffer@[1],
                ),
                Err(e) => buffer@.len() < 2 && e.message == MessageId::GetTemperatureResp,
            },
    {
        match deserialize_signed_word(buffer) {
            Ok(temperature) => Ok(GetTemperatureResp { temperature }),
            Err(_) => Err(ProtocolDecodeError { message: MessageId::GetTemperatureResp }),
        }
    }
}

} // verus!
