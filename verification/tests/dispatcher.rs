use plantstation::app_context::{
    AdcConfig, AdcSupported, AppContext, DeviceData, ThermometerConfig, ThermometerSupported,
};
use plantstation::dispatcher::{
    frame, handle_get_adc_value_req, handle_get_higrometer_status_req, handle_get_status_req,
    handle_get_temperature_req, route,
};
use plantstation::hw::adc::Ads1115;
use plantstation::hw::i2c_mgmt::{BusCommand, BusReply, Step};
use plantstation::hw::thermometer::Lps331ap;
use plantstation::hw::Hw;
use plantstation::msg::ps::{GetAdcValueReq, GetHygrometerStatusReq, GetStatusReq, StatusType};
use plantstation::msg::MessageId;

fn context() -> AppContext {
    AppContext {
        i2c_dev_path: String::from("/dev/i2c-1"),
        adc_config: AdcConfig {
            adc_address: 0x48,
            adc_type: AdcSupported::ADS1115,
            registers: vec![(String::from("Config"), 0x01)],
            registers_values: vec![(String::from("Config"), vec![0x84, 0x83])],
        },
        thermometer_config: ThermometerConfig {
            thermometer_type: ThermometerSupported::LPS331AP,
            device_data: DeviceData {
                address: 0x5C,
                registers: vec![(String::from("CtrlReg1"), 0x20)],
                registers_values: vec![(String::from("CtrlReg1"), vec![0x90])],
            },
        },
    }
}

fn byte(value: u8) -> BusReply {
    BusReply::Block { size: 1, buffer: [value, 0, 0, 0] }
}

fn sample(high: u8, low: u8) -> Vec<BusReply> {
    vec![BusReply::Written, BusReply::Block { size: 2, buffer: [high, low, 0, 0] }]
}

fn ready_facade() -> Hw<Ads1115, Lps331ap> {
    let mut hw = Hw::new(context()).unwrap();
    assert_eq!(hw.initialize(&vec![byte(0xBB), BusReply::Written]), Step::Finished(Ok(())));
    assert!(hw.ready());
    hw
}

fn done(bytes: Vec<u8>) -> Step<Vec<u8>> {
    Step::Finished(bytes)
}

#[test]
fn frame_puts_the_identifier_first() {
    assert_eq!(frame(MessageId::GetAdcValueResp, vec![0x34, 0x12]), vec![4, 0x34, 0x12]);
    assert_eq!(frame(MessageId::GetStatusResp, Vec::new()), vec![2]);
}

#[test]
fn temperature_request_is_answered_with_the_temperature() {
    let hw = ready_facade();
    assert_eq!(
        route(7, &[0], &hw, &Vec::new()),
        Step::Issue(BusCommand::ReadBlock { slave_address: 0x5C, register: 0x2B })
    );
    assert_eq!(
        route(7, &[0], &hw, &vec![byte(0)]),
        Step::Issue(BusCommand::ReadBlock { slave_address: 0x5C, register: 0x2C })
    );
    assert_eq!(route(7, &[0], &hw, &vec![byte(0), byte(0)]), done(vec![8, 43, 0]));
    // raw -32768 -> -26
    assert_eq!(route(7, &[0], &hw, &vec![byte(0x00), byte(0x80)]), done(vec![8, 0xE6, 0xFF]));
}

#[test]
fn temperature_failure_is_answered_with_minus_273() {
    let hw = ready_facade();
    let sentinel = done(vec![8, 0xEF, 0xFE]);
    assert_eq!(i16::from_le_bytes([0xEF, 0xFE]), -273);
    assert_eq!(route(7, &[0], &hw, &vec![BusReply::ReadRejected]), sentinel);
    assert_eq!(route(7, &[0], &hw, &vec![BusReply::AddressRejected]), sentinel);
    assert_eq!(route(7, &[0], &hw, &vec![byte(1), BusReply::ReadRejected]), sentinel);
    assert_eq!(
        route(7, &[0], &hw, &vec![BusReply::Block { size: 0, buffer: [0; 4] }]),
        sentinel
    );
    assert_eq!(handle_get_temperature_req(&hw, &vec![BusReply::ReadRejected]), sentinel);
}

#[test]
fn malformed_payloads_are_answered_with_no_bytes() {
    let hw = ready_facade();
    for id in [1u8, 3, 5, 7] {
        assert_eq!(route(id, &[], &hw, &Vec::new()), done(Vec::new()));
    }
    assert_eq!(route(3, &[1], &hw, &Vec::new()), done(Vec::new()));
    assert_eq!(route(3, &[2, 0], &hw, &Vec::new()), done(Vec::new()));
    assert_eq!(route(3, &[255, 0], &hw, &Vec::new()), done(Vec::new()));
}

#[test]
fn identifiers_that_name_no_request_are_answered_with_no_bytes() {
    let hw = ready_facade();
    let payloads: [&[u8]; 3] = [&[], &[0], &[1, 2, 3]];
    for id in (0..=255u8).filter(|id| ![1, 3, 5, 7].contains(id)) {
        for payload in payloads {
            assert_eq!(route(id, payload, &hw, &Vec::new()), done(Vec::new()));
            assert_eq!(route(id, payload, &hw, &vec![BusReply::Written]), done(Vec::new()));
        }
    }
}

#[test]
fn adc_request_is_answered_with_the_sample() {
    let hw = ready_facade();
    assert_eq!(
        route(3, &[0, 2], &hw, &Vec::new()),
        Step::Issue(BusCommand::Write {
            slave_address: 0x48,
            register: 0x01,
            value: vec![0xA4, 0x83]
        })
    );
    assert_eq!(
        route(3, &[0, 2], &hw, &vec![BusReply::Written]),
        Step::Issue(BusCommand::ReadBlock { slave_address: 0x48, register: 0x00 })
    );
    assert_eq!(route(3, &[0, 2], &hw, &sample(0x40, 0x00)), done(vec![4, 0x00, 0x40]));
    // Converted: 1024 mV.
    assert_eq!(route(3, &[1, 2], &hw, &sample(0x40, 0x00)), done(vec![4, 0x00, 0x04]));
}

#[test]
fn adc_failure_is_answered_with_zero() {
    let hw = ready_facade();
    let sentinel = done(vec![4, 0, 0]);
    assert_eq!(route(3, &[1, 8], &hw, &Vec::new()), sentinel);
    assert_eq!(route(3, &[0, 0], &hw, &vec![BusReply::WriteRejected]), sentinel);
    assert_eq!(route(3, &[0, 0], &hw, &vec![BusReply::Written, BusReply::ReadRejected]), sentinel);
    assert_eq!(
        handle_get_adc_value_req(&GetAdcValueReq::new(true, 200), &hw, &Vec::new()),
        sentinel
    );
}

#[test]
fn humidity_request_is_answered_with_the_humidity() {
    let hw = ready_facade();
    assert_eq!(route(5, &[1], &hw, &sample(0x40, 0x00)), done(vec![6, 68]));
    assert_eq!(route(5, &[1], &hw, &sample(0x00, 0x00)), done(vec![6, 100]));
    // 4096 mV lies above the reference: -24, which is 232 in eight bits.
    assert_eq!(route(5, &[1], &hw, &sample(0xFF, 0xFF)), done(vec![6, 232]));
    assert_eq!(
        handle_get_higrometer_status_req(&GetHygrometerStatusReq::new(1), &hw, &sample(0, 0)),
        done(vec![6, 100])
    );
}

#[test]
fn humidity_failure_is_answered_with_zero() {
    let hw = ready_facade();
    assert_eq!(route(5, &[9], &hw, &Vec::new()), done(vec![6, 0]));
    assert_eq!(route(5, &[1], &hw, &vec![BusReply::WriteRejected]), done(vec![6, 0]));
}

fn status_frame(text: &str) -> Step<Vec<u8>> {
    let mut bytes = vec![2u8];
    bytes.extend_from_slice(&(text.len() as u64).to_le_bytes());
    bytes.extend_from_slice(text.as_bytes());
    Step::Finished(bytes)
}

#[test]
fn status_requests_are_answered_with_a_text() {
    let hw = ready_facade();
    assert_eq!(route(1, &[0], &hw, &Vec::new()), status_frame("Unknown"));
    assert_eq!(route(1, &[3], &hw, &Vec::new()), status_frame("Unknown"));
    assert_eq!(route(1, &[1], &hw, &Vec::new()), Step::Issue(BusCommand::Functionality));
    assert_eq!(
        route(1, &[1], &hw, &vec![BusReply::Functionality { descriptor: String::from("I2C") }]),
        status_frame("/dev/i2c-1 | I2C")
    );
    assert_eq!(
        route(1, &[2], &hw, &Vec::new()),
        Step::Issue(BusCommand::ReadBlock { slave_address: 0x48, register: 0x01 })
    );
    assert_eq!(
        route(1, &[2], &hw, &vec![BusReply::Block { size: 2, buffer: [0x84, 0x83, 0, 0] }]),
        status_frame("0x8483")
    );
}

#[test]
fn status_failures_are_answered_with_their_text() {
    let hw = ready_facade();
    assert_eq!(
        route(1, &[2], &hw, &vec![BusReply::ReadRejected]),
        status_frame("Read failed for 1")
    );
    assert_eq!(
        route(1, &[1], &hw, &vec![BusReply::FunctionalityFailed { reason: String::from("!") }]),
        status_frame("I2C functionality error!")
    );
    assert_eq!(
        handle_get_status_req(&GetStatusReq::new(StatusType::Unknown), &hw, &Vec::new()),
        status_frame("Unknown")
    );
}

#[test]
fn every_exchange_ends_after_two_transfers() {
    let hw = ready_facade();
    let requests: [(u8, &[u8]); 6] =
        [(1, &[0]), (1, &[1]), (1, &[2]), (3, &[1, 0]), (5, &[0]), (7, &[0])];
    let answers = [
        BusReply::Written,
        BusReply::Block { size: 4, buffer: [0xBB, 1, 2, 3] },
        BusReply::ReadRejected,
        BusReply::Functionality { descriptor: String::from("I2C") },
    ];
    for (id, payload) in requests {
        for first in &answers {
            for second in &answers {
                let replies = vec![first.clone(), second.clone()];
                assert!(matches!(route(id, payload, &hw, &replies), Step::Finished(_)));
            }
        }
    }
}
