use plantstation::hw::i2c_mgmt::{
    reply_at, BusCommand, BusReply, Fault, I2cDevice, Step, TransactionError,
};

fn device() -> I2cDevice {
    I2cDevice::new(String::from("/dev/i2c-1"))
}

#[test]
fn device_keeps_its_path() {
    assert_eq!(device().dev_path(), "/dev/i2c-1");
}

#[test]
fn read_without_reply_issues_block_read() {
    let step = device().get_register(0x48, 0x01, 2, None);
    assert_eq!(step, Step::Issue(BusCommand::ReadBlock { slave_address: 0x48, register: 0x01 }));
}

#[test]
fn read_returns_first_bytes_of_scratch_buffer() {
    let reply = BusReply::Block { size: 4, buffer: [0x12, 0x34, 0x56, 0x78] };
    let d = device();
    assert_eq!(d.get_register(0x48, 0, 0, Some(&reply)), Step::Finished(Ok(vec![])));
    assert_eq!(d.get_register(0x48, 0, 1, Some(&reply)), Step::Finished(Ok(vec![0x12])));
    assert_eq!(d.get_register(0x48, 0, 2, Some(&reply)), Step::Finished(Ok(vec![0x12, 0x34])));
    assert_eq!(
        d.get_register(0x48, 0, 4, Some(&reply)),
        Step::Finished(Ok(vec![0x12, 0x34, 0x56, 0x78]))
    );
}

#[test]
fn read_of_exactly_the_requested_size_succeeds() {
    let reply = BusReply::Block { size: 2, buffer: [0xAB, 0xCD, 0, 0] };
    assert_eq!(
        device().get_register(0x48, 0, 2, Some(&reply)),
        Step::Finished(Ok(vec![0xAB, 0xCD]))
    );
}

#[test]
fn short_read_is_an_error_for_every_size() {
    for requested in 1..=4usize {
        for size in 0..requested {
            let reply = BusReply::Block { size, buffer: [1, 2, 3, 4] };
            assert_eq!(
                device().get_register(0x5C, 0x2B, requested, Some(&reply)),
                Step::Finished(Err(TransactionError { fault: Fault::ShortRead, register: 0x2B }))
            );
        }
    }
}

#[test]
fn short_read_is_an_error_however_many_bytes_are_requested() {
    for requested in [5usize, 8, 32, usize::MAX] {
        for size in [0usize, 1, 4] {
            let reply = BusReply::Block { size, buffer: [1, 2, 3, 4] };
            assert_eq!(
                device().get_register(0x5C, 0x2B, requested, Some(&reply)),
                Step::Finished(Err(TransactionError { fault: Fault::ShortRead, register: 0x2B }))
            );
        }
    }
}

#[test]
fn short_read_message_names_the_register() {
    let reply = BusReply::Block { size: 1, buffer: [1, 2, 3, 4] };
    match device().get_register(0x5C, 0x2B, 2, Some(&reply)) {
        Step::Finished(Err(e)) => {
            assert_eq!(e.to_string(), "Read less bytes than expected for 43")
        }
        other => panic!("{:?}", other),
    }
}

#[test]
fn rejected_read_is_an_error() {
    assert_eq!(
        device().get_register(0x5C, 0x0F, 1, Some(&BusReply::ReadRejected)),
        Step::Finished(Err(TransactionError { fault: Fault::ReadFailed, register: 0x0F }))
    );
}

#[test]
fn read_answered_by_another_kind_of_reply_is_an_error() {
    assert_eq!(
        device().get_register(0x5C, 0x0F, 1, Some(&BusReply::Written)),
        Step::Finished(Err(TransactionError { fault: Fault::ReadFailed, register: 0x0F }))
    );
    assert_eq!(
        device().get_register(0x5C, 0x0F, 1, Some(&BusReply::Byte { value: 3 })),
        Step::Finished(Err(TransactionError { fault: Fault::ReadFailed, register: 0x0F }))
    );
}

#[test]
fn rejected_address_is_an_error_of_its_own() {
    let d = device();
    let expected = TransactionError { fault: Fault::AddressSelection, register: 7 };
    assert_eq!(
        d.get_register(0x5C, 7, 1, Some(&BusReply::AddressRejected)),
        Step::Finished(Err(expected))
    );
    assert_eq!(
        d.write_register(0x5C, 7, &vec![1], Some(&BusReply::AddressRejected)),
        Step::Finished(Err(expected))
    );
    assert_eq!(
        d.get_byte_from_register(0x5C, 7, Some(&BusReply::AddressRejected)),
        Step::Finished(Err(expected))
    );
}

#[test]
fn write_without_reply_issues_write_of_the_value() {
    let step = device().write_register(0x48, 0x01, &vec![0xC4, 0x83], None);
    assert_eq!(
        step,
        Step::Issue(BusCommand::Write {
            slave_address: 0x48,
            register: 0x01,
            value: vec![0xC4, 0x83]
        })
    );
}

#[test]
fn write_outcomes() {
    let d = device();
    assert_eq!(
        d.write_register(0x48, 1, &vec![0], Some(&BusReply::Written)),
        Step::Finished(Ok(()))
    );
    assert_eq!(
        d.write_register(0x48, 1, &vec![0], Some(&BusReply::WriteRejected)),
        Step::Finished(Err(TransactionError { fault: Fault::WriteFailed, register: 1 }))
    );
    assert_eq!(
        d.write_register(0x48, 1, &vec![0], Some(&BusReply::ReadRejected)),
        Step::Finished(Err(TransactionError { fault: Fault::WriteFailed, register: 1 }))
    );
}

#[test]
fn byte_read_outcomes() {
    let d = device();
    assert_eq!(
        d.get_byte_from_register(0x5C, 0x0F, None),
        Step::Issue(BusCommand::ReadByte { slave_address: 0x5C, register: 0x0F })
    );
    assert_eq!(
        d.get_byte_from_register(0x5C, 0x0F, Some(&BusReply::Byte { value: 0xBB })),
        Step::Finished(Ok(0xBB))
    );
    assert_eq!(
        d.get_byte_from_register(0x5C, 0x0F, Some(&BusReply::ReadRejected)),
        Step::Finished(Err(TransactionError { fault: Fault::ReadFailed, register: 0x0F }))
    );
}

#[test]
fn functionality_outcomes() {
    let d = device();
    assert_eq!(d.functionality(None), Step::Issue(BusCommand::Functionality));
    assert_eq!(
        d.functionality(Some(&BusReply::Functionality { descriptor: String::from("I2C | SMBUS") })),
        Step::Finished(Ok(String::from("I2C | SMBUS")))
    );
    assert_eq!(
        d.functionality(Some(&BusReply::FunctionalityFailed { reason: String::from(": denied") })),
        Step::Finished(Err(String::from("I2C functionality error: denied")))
    );
    assert_eq!(
        d.functionality(Some(&BusReply::Written)),
        Step::Finished(Err(String::from("I2C functionality error")))
    );
}

#[test]
fn transaction_error_messages() {
    let message = |fault, register| TransactionError { fault, register }.to_string();
    assert_eq!(message(Fault::ShortRead, 43), "Read less bytes than expected for 43");
    assert_eq!(message(Fault::ReadFailed, 0), "Read failed for 0");
    assert_eq!(message(Fault::WriteFailed, 32), "Write failed for 32");
    assert_eq!(message(Fault::AddressSelection, 255), "Error during setting slave address for 255");
}

#[test]
fn reply_at_follows_the_history() {
    let replies = vec![BusReply::Written, BusReply::ReadRejected];
    assert_eq!(reply_at(&replies, 0), Some(&BusReply::Written));
    assert_eq!(reply_at(&replies, 1), Some(&BusReply::ReadRejected));
    assert_eq!(reply_at(&replies, 2), None);
    assert_eq!(reply_at(&Vec::new(), 0), None);
}
