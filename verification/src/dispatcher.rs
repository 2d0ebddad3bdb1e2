//! The dispatcher: it decodes a request, asks the facade and encodes the
//! response. It keeps nothing between datagrams.
//!
//! A payload that cannot be decoded and an identifier that names no request
//! are answered with no bytes. Where the hardware fails, the response holds
//! a fixed value in place of the reading.

use vstd::prelude::*;
use crate::hw::adc::{lemma_sampling_settles, Adc, Ads1115};
use crate::hw::i2c_mgmt::{bytes_model, BusReply, Progress, Step};
use crate::hw::thermometer::{lemma_thermometer_settles, Lps331ap, Thermometer};
use crate::hw::Hw;
use crate::msg::ps::{
    GetAdcValueReq, GetAdcValueResp, GetHygrometerStatusReq, GetHygrometerStatusResp, GetStatusReq,
    GetStatusResp, GetTemperatureReq, GetTemperatureResp, StatusType,
};
use crate::msg::wire::{signed_word_bytes, text_bytes, word_bytes};
use crate::msg::MessageId;

verus! {

/// The sample that stands in an ADC response where the reading failed.
pub const ADC_VALUE_SENTINEL: u16 = 0;

/// The humidity that stands in a response where the reading failed.
pub const HUMIDITY_SENTINEL: u8 = 0;

/// The temperature that stands in a response where the reading failed.
pub const TEMPERATURE_SENTINEL: i16 = -273;

/// A message on the wire: its identifier byte, then its payload.
pub open spec fn framed(id: MessageId, payload: Seq<u8>) -> Seq<u8> {
    seq![id.spec_code()] + payload
}

/// The status text that a status request with the type byte `code` asks for.
pub open spec fn status_text<A: Adc, T: Thermometer>(
    code: u8,
    hw: Hw<A, T>,
    replies: Seq<BusReply>,
) -> Progress<Seq<char>> {
    match StatusType::spec_from_code(code) {
        StatusType::I2C => hw.spec_i2c_status(replies),
        StatusType::ADC => hw.spec_adc_status(replies),
        StatusType::Unknown => Progress::Finished("Unknown"@),
    }
}

/// The response to a status request.
pub open spec fn status_response<A: Adc, T: Thermometer>(
    code: u8,
    hw: Hw<A, T>,
    replies: Seq<BusReply>,
) -> Progress<Seq<u8>> {
    match status_text(code, hw, replies) {
        Progress::Issue(command) => Progress::Issue(command),
        Progress::Finished(text) => Progress::Finished(
            framed(MessageId::GetStatusResp, text_bytes(text)),
        ),
    }
}

/// The response to an ADC request: the sample, or 0 where the reading failed.
pub open spec fn adc_value_response<A: Adc, T: Thermometer>(
    converted: bool,
    channel: u8,
    hw: Hw<A, T>,
    replies: Seq<BusReply>,
) -> Progress<Seq<u8>> {
    match hw.spec_read_adc_value(converted, channel, replies) {
        Progress::Issue(command) => Progress::Issue(command),
        Progress::Finished(Ok(value)) => Progress::Finished(
            framed(MessageId::GetAdcValueResp, word_bytes(value)),
        ),
        Progress::Finished(Err(_)) => Progress::Finished(
            framed(MessageId::GetAdcValueResp, word_bytes(ADC_VALUE_SENTINEL)),
        ),
    }
}

/// The response to a humidity request: the humidity, or 0 where the reading
/// failed.
pub open spec fn humidity_response<A: Adc, T: Thermometer>(
    channel: u8,
    hw: Hw<A, T>,
    replies: Seq<BusReply>,
) -> Progress<Seq<u8>> {
    match hw.spec_read_humidity(channel, replies) {
        Progress::Issue(command) => Progress::Issue(command),
        Progress::Finished(Ok(humidity)) => Progress::Finished(
            framed(MessageId::GetHygrometerStatusResp, seq![humidity]),
        ),
        Progress::Finished(Err(_)) => Progress::Finished(
            framed(MessageId::GetHygrometerStatusResp, seq![HUMIDITY_SENTINEL]),
        ),
    }
}

/// The response to a temperature request: the temperature, or -273 where the
/// reading failed.
pub open spec fn temperature_response<A: Adc, T: Thermometer>(
    hw: Hw<A, T>,
    replies: Seq<BusReply>,
) -> Progress<Seq<u8>> {
    match hw.spec_read_temperature(replies) {
        Progress::Issue(command) => Progress::Issue(command),
        Progress::Finished(Ok(temperature)) => Progress::Finished(
            framed(MessageId::GetTemperatureResp, signed_word_bytes(temperature)),
        ),
        Progress::Finished(Err(_)) => Progress::Finished(
            framed(MessageId::GetTemperatureResp, signed_word_bytes(TEMPERATURE_SENTINEL)),
        ),
    }
}

/// The answer to the datagram with the identifier `msg_id` and the payload
/// `buffer`, after `replies` of the bus.
pub open spec fn spec_route<A: Adc, T: Thermometer>(
    msg_id: u8,
    buffer: Seq<u8>,
    hw: Hw<A, T>,
    replies: Seq<BusReply>,
) -> Progress<Seq<u8>> {
    match MessageId::spec_from_code(msg_id) {
        MessageId::GetStatusReq => if buffer.len() < 1 {
            Progress::Finished(Seq::empty())
        } else {
            status_response(buffer[0], hw, replies)
        },
        MessageId::GetAdcValueReq => if buffer.len() < 2 || buffer[0] > 1 {
            Progress::Finished(Seq::empty())
        } else {
            adc_value_response(buffer[0] == 1, buffer[1], hw, replies)
        },
        MessageId::GetHygrometerStatusReq => if buffer.len() < 1 {
            Progress::Finished(Seq::empty())
        } else {
            humidity_response(buffer[0], hw, replies)
        },
        MessageId::GetTemperatureReq => if buffer.len() < 1 {
            Progress::Finished(Seq::empty())
        } else {
            temperature_response(hw, replies)
        },
        _ => Progress::Finished(Seq::empty()),
    }
}

/// Puts the identifier byte in front of a payload.
pub fn frame(id: MessageId, payload: Vec<u8>) -> (out: Vec<u8>)
    ensures
        out@ == framed(id, payload@),
{
    let mut out = payload;
    out.insert(0, id.code());
    assert(out@ =~= framed(id, payload@));
    out
}

/// Answers a status request.
pub fn handle_get_status_req<A: Adc, T: Thermometer>(
    req: &GetStatusReq,
    plantstation_hw: &Hw<A, T>,
    replies: &Vec<BusReply>,
) -> (step: Step<Vec<u8>>)
    ensures
        bytes_model(step) == status_response(req.code(), *plantstation_hw, replies@),
{
    let status = match req.get_status() {
        StatusType::I2C => plantstation_hw.i2c_status(replies),
        StatusType::ADC => plantstation_hw.adc_status(replies),
        StatusType::Unknown => Step::Finished(String::from_str("Unknown")),
    };
    match status {
        Step::Issue(command) => Step::Issue(command),
        Step::Finished(text) => {
            let resp = GetStatusResp::new(text);
            Step::Finished(frame(MessageId::GetStatusResp, resp.to_bytes()))
        },
    }
}

/// Answers an ADC request.
pub fn handle_get_adc_value_req<A: Adc, T: Thermometer>(
    req: &GetAdcValueReq,
    plantstation_hw: &Hw<A, T>,
    replies: &Vec<BusReply>,
) -> (step: Step<Vec<u8>>)
    ensures
        bytes_model(step) == adc_value_response(
            req.converted(),
            req.selected(),
            *plantstation_hw,
            replies@,
        ),
{
    let mut resp = GetAdcValueResp::new(ADC_VALUE_SENTINEL);
    match plantstation_hw.read_adc_value(req.is_converted(), req.channel(), replies) {
        Step::Issue(command) => return Step::Issue(command),
        Step::Finished(Ok(val)) => {
            resp.value = val;
        },
        Step::Finished(Err(_)) => {},
    }
    Step::Finished(frame(MessageId::GetAdcValueResp, resp.to_bytes()))
}

/// Answers a humidity request.
pub fn handle_get_higrometer_status_req<A: Adc, T: Thermometer>(
    req: &GetHygrometerStatusReq,
    plantstation_hw: &Hw<A, T>,
    replies: &Vec<BusReply>,
) -> (step: Step<Vec<u8>>)
    ensures
        bytes_model(step) == humidity_response(req.channel, *plantstation_hw, replies@),
{
    let humidity = match plantstation_hw.read_humidity(req.channel, replies) {
        Step::Issue(command) => return Step::Issue(command),
        Step::Finished(Ok(humidity)) => humidity,
        Step::Finished(Err(_)) => HUMIDITY_SENTINEL,
    };
    let resp = GetHygrometerStatusResp::new(humidity);
    Step::Finished(frame(MessageId::GetHygrometerStatusResp, resp.to_bytes()))
}

/// Answers a temperature request. The thermometer must have been initialized.
pub fn handle_get_temperature_req<A: Adc, T: Thermometer>(
    plantstation_hw: &Hw<A, T>,
    replies: &Vec<BusReply>,
) -> (step: Step<Vec<u8>>)
    requires
        plantstation_hw.is_ready(),
    ensures
        bytes_model(step) == temperature_response(*plantstation_hw, replies@),
{
    let temperature = match plantstation_hw.read_temperature(replies) {
        Step::Issue(command) => return Step::Issue(command),
        Step::Finished(Ok(temperature)) => temperature,
        Step::Finished(Err(_)) => TEMPERATURE_SENTINEL,
    };
    let resp = GetTemperatureResp::new(temperature);
    Step::Finished(frame(MessageId::GetTemperatureResp, resp.to_bytes()))
}

/// Answers one datagram: `msg_id` is its first byte, `buffer` the rest. The
/// facade must be ready, that is, the thermometer initialized.
pub fn route<A: Adc, T: Thermometer>(
    msg_id: u8,
    buffer: &[u8],
    ps_hw: &Hw<A, T>,
    replies: &Vec<BusReply>,
) -> (step: Step<Vec<u8>>)
    requires
        ps_hw.is_ready(),
    ensures
        bytes_model(step) == spec_route(msg_id, buffer@, *ps_hw, replies@),
{
    match MessageId::from_code(msg_id) {
        MessageId::GetStatusReq => {
            match GetStatusReq::from_bytes(buffer) {
                Ok(msg) => handle_get_status_req(&msg, ps_hw, replies),
                Err(_) => Step::Finished(Vec::new()),
            }
        },
        MessageId::GetAdcValueReq => {
            match GetAdcValueReq::from_bytes(buffer) {
                Ok(msg) => handle_get_adc_value_req(&msg, ps_hw, replies),
                Err(_) => Step::Finished(Vec::new()),
            }
        },
        MessageId::GetHygrometerStatusReq => {
            match GetHygrometerStatusReq::from_bytes(buffer) {
                Ok(msg) => handle_get_higrometer_status_req(&msg, ps_hw, replies),
                Err(_) => Step::Finished(Vec::new()),
            }
        },
        MessageId::GetTemperatureReq => {
            match GetTemperatureReq::from_bytes(buffer) {
                Ok(_) => handle_get_temperature_req(ps_hw, replies),
                Err(_) => Step::Finished(Vec::new()),
            }
        },
        _ => Step::Finished(Vec::new()),
    }
}

/// Where the temperature cannot be read, a temperature request is answered
/// with a response that holds -273.
pub proof fn lemma_temperature_failure_gives_sentinel<A: Adc, T: Thermometer>(
    buffer: Seq<u8>,
    hw: Hw<A, T>,
    replies: Seq<BusReply>,
)
    requires
        buffer.len() >= 1,
        hw.spec_read_temperature(replies) matches Progress::Finished(Err(_)),
    ensures
        spec_route(7, buffer, hw, replies) == Progress::<Seq<u8>>::Finished(
            framed(MessageId::GetTemperatureResp, signed_word_bytes(TEMPERATURE_SENTINEL)),
        ),
        framed(MessageId::GetTemperatureResp, signed_word_bytes(TEMPERATURE_SENTINEL)) == seq![
            8u8,
            0xEFu8,
            0xFEu8,
        ],
{
    assert(framed(MessageId::GetTemperatureResp, signed_word_bytes(TEMPERATURE_SENTINEL)) =~= seq![
        8u8,
        0xEFu8,
        0xFEu8,
    ]);
}

/// Where an ADC channel cannot be read, an ADC request and a humidity
/// request are answered with a response that holds 0.
pub proof fn lemma_adc_failure_gives_sentinel<A: Adc, T: Thermometer>(
    converted: bool,
    channel: u8,
    hw: Hw<A, T>,
    replies: Seq<BusReply>,
)
    requires
        hw.adc().sampling(channel, replies) matches Progress::Finished(Err(_)),
    ensures
        adc_value_response(converted, channel, hw, replies) == Progress::<Seq<u8>>::Finished(
            seq![4u8, 0u8, 0u8],
        ),
        humidity_response(channel, hw, replies) == Progress::<Seq<u8>>::Finished(seq![6u8, 0u8]),
{
    assert(framed(MessageId::GetAdcValueResp, word_bytes(0)) =~= seq![4u8, 0u8, 0u8]);
    assert(framed(MessageId::GetHygrometerStatusResp, seq![0u8]) =~= seq![6u8, 0u8]);
}

/// A payload that does not have the layout of its request is answered with
/// no bytes, and so is every identifier that names no request: 0, the
/// identifiers of the responses, and 9 and above.
pub proof fn lemma_unanswered_datagrams<A: Adc, T: Thermometer>(
    msg_id: u8,
    buffer: Seq<u8>,
    hw: Hw<A, T>,
    replies: Seq<BusReply>,
)
    ensures
        msg_id == 0 || msg_id >= 9 ==> spec_route(msg_id, buffer, hw, replies) == Progress::<
            Seq<u8>,
        >::Finished(Seq::empty()),
        msg_id == 2 || msg_id == 4 || msg_id == 6 || msg_id == 8 ==> spec_route(
            msg_id,
            buffer,
            hw,
            replies,
        ) == Progress::<Seq<u8>>::Finished(Seq::empty()),
        buffer.len() == 0 ==> spec_route(msg_id, buffer, hw, replies) == Progress::<
            Seq<u8>,
        >::Finished(Seq::empty()),
        msg_id == 3 && (buffer.len() < 2 || buffer[0] > 1) ==> spec_route(
            msg_id,
            buffer,
            hw,
            replies,
        ) == Progress::<Seq<u8>>::Finished(Seq::empty()),
{
}

/// An answer that holds bytes starts with the identifier of the response
/// that belongs to the request.
pub proof fn lemma_response_identifier<A: Adc, T: Thermometer>(
    msg_id: u8,
    buffer: Seq<u8>,
    hw: Hw<A, T>,
    replies: Seq<BusReply>,
)
    ensures
        spec_route(msg_id, buffer, hw, replies) matches Progress::Finished(bytes) ==> bytes.len()
            == 0 || (bytes[0] == msg_id + 1 && (msg_id == 1 || msg_id == 3 || msg_id == 5 || msg_id
            == 7)),
{
}

/// With the two supported devices every exchange needs at most two
/// transfers, and its answer does not depend on what the bus answers after
/// the exchange has ended.
pub proof fn lemma_exchange_settles(
    msg_id: u8,
    buffer: Seq<u8>,
    hw: Hw<Ads1115, Lps331ap>,
    replies: Seq<BusReply>,
    more: Seq<BusReply>,
)
    ensures
        replies.len() >= 2 ==> spec_route(msg_id, buffer, hw, replies) is Finished,
        spec_route(msg_id, buffer, hw, replies) is Finished ==> spec_route(
            msg_id,
            buffer,
            hw,
            replies + more,
        ) == spec_route(msg_id, buffer, hw, replies),
{
    let longer = replies + more;
    if replies.len() >= 1 {
        assert(longer[0] == replies[0]);
    }
    if buffer.len() >= 2 {
        lemma_sampling_settles(hw.adc().address(), hw.adc().seed(), buffer[1], replies, more);
    }
    if buffer.len() >= 1 {
        lemma_sampling_settles(hw.adc().address(), hw.adc().seed(), buffer[0], replies, more);
    }
    lemma_thermometer_settles(
        hw.thermometer().address(),
        hw.thermometer().control(),
        replies,
        more,
    );
}

} // verus!
