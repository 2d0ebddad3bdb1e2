use plantstation::app_context::ConfigurationError;
use plantstation::hw::adc::{config_for_mux, pga_to_fsr, Adc, AdcError, Ads1115};
use plantstation::hw::i2c_mgmt::{BusCommand, BusReply, Fault, I2cDevice, Step, TransactionError};

fn seeds(config: Vec<u8>) -> Vec<(String, Vec<u8>)> {
    vec![(String::from("Config"), config)]
}

fn adc_with(first: u8) -> Ads1115 {
    Ads1115::new(0x48, &seeds(vec![first, 0x83])).unwrap()
}

fn bus() -> I2cDevice {
    I2cDevice::new(String::from("/dev/i2c-1"))
}

#[test]
fn config_word_replaces_only_the_channel_bits() {
    for seed in 0..=255u8 {
        for channel in 0..=7u8 {
            let word = config_for_mux(channel, &vec![seed, 0x83]);
            assert_eq!(word.len(), 2);
            assert_eq!((word[0] >> 4) & 0x07, channel);
            assert_eq!(word[0] & 0x8F, seed & 0x8F);
            assert_eq!(word[1], 0x83);
        }
    }
}

#[test]
fn channel_above_seven_spills_out_of_the_channel_bits() {
    assert_eq!(config_for_mux(8, &vec![0x04, 0x83]), vec![0x84, 0x83]);
    assert_eq!(config_for_mux(15, &vec![0x04, 0x83]), vec![0xF4, 0x83]);
    assert_eq!(config_for_mux(16, &vec![0x04, 0x83]), vec![0x04, 0x83]);
    assert_eq!(config_for_mux(255, &vec![0x04, 0x83]), vec![0xF4, 0x83]);
}

#[test]
fn config_word_examples() {
    assert_eq!(config_for_mux(0, &vec![0xFF, 0x00]), vec![0x8F, 0x00]);
    assert_eq!(config_for_mux(5, &vec![0x84, 0x83]), vec![0xD4, 0x83]);
    assert_eq!(config_for_mux(7, &vec![0x00, 0x83]), vec![0x70, 0x83]);
    assert_eq!(config_for_mux(3, &vec![0xC5]), vec![0xB5]);
}

#[test]
fn gain_codes_map_to_ranges() {
    assert_eq!(pga_to_fsr(0), 6144);
    assert_eq!(pga_to_fsr(1), 4096);
    assert_eq!(pga_to_fsr(2), 2048);
    assert_eq!(pga_to_fsr(3), 1024);
    assert_eq!(pga_to_fsr(4), 512);
    assert_eq!(pga_to_fsr(5), 256);
    assert_eq!(pga_to_fsr(6), 2048);
    assert_eq!(pga_to_fsr(7), 2048);
    assert_eq!(pga_to_fsr(8), 2048);
    assert_eq!(pga_to_fsr(255), 2048);
}

#[test]
fn full_scale_sample_gives_the_range_of_the_gain_field() {
    let ranges = [6144u16, 4096, 2048, 1024, 512, 256, 2048, 2048];
    for seed in 0..=255u8 {
        let code = (seed >> 1) & 0x07;
        assert_eq!(adc_with(seed).raw_to_voltage(32767), ranges[code as usize]);
    }
}

#[test]
fn voltage_examples() {
    // Gain code 2: 2048 mV at full scale.
    let adc = adc_with(0x04);
    assert_eq!(adc.raw_to_voltage(0), 0);
    assert_eq!(adc.raw_to_voltage(1), 0);
    assert_eq!(adc.raw_to_voltage(15), 0);
    assert_eq!(adc.raw_to_voltage(16), 1);
    assert_eq!(adc.raw_to_voltage(16384), 1024);
    assert_eq!(adc.raw_to_voltage(32767), 2048);
    assert_eq!(adc.raw_to_voltage(65535), 4096);
    // Gain code 0: 6144 mV at full scale.
    let adc = adc_with(0x00);
    assert_eq!(adc.raw_to_voltage(10000), 1875);
    assert_eq!(adc.raw_to_voltage(65535), 12288);
    // Gain code 5: 256 mV at full scale.
    let adc = adc_with(0x0A);
    assert_eq!(adc.raw_to_voltage(32767), 256);
    assert_eq!(adc.raw_to_voltage(127), 0);
    assert_eq!(adc.raw_to_voltage(128), 1);
}

#[test]
fn voltage_is_monotonic_in_the_sample() {
    for seed in [0x00u8, 0x02, 0x04, 0x06, 0x08, 0x0A, 0x0C, 0x0E] {
        let adc = adc_with(seed);
        let mut last = 0u16;
        for raw in 0..=65535u16 {
            let now = adc.raw_to_voltage(raw);
            assert!(now >= last);
            last = now;
        }
    }
}

#[test]
fn driver_needs_a_two_byte_config_seed() {
    assert_eq!(Ads1115::new(0x48, &Vec::new()).err(), Some(ConfigurationError::AdcConfigMissing));
    assert_eq!(
        Ads1115::new(0x48, &vec![(String::from("config"), vec![1, 2])]).err(),
        Some(ConfigurationError::AdcConfigMissing)
    );
    assert_eq!(
        Ads1115::new(0x48, &seeds(vec![1])).err(),
        Some(ConfigurationError::AdcConfigLength)
    );
    assert_eq!(
        Ads1115::new(0x48, &seeds(vec![1, 2, 3])).err(),
        Some(ConfigurationError::AdcConfigLength)
    );
    assert!(Ads1115::new(0x48, &seeds(vec![1, 2])).is_ok());
}

#[test]
fn adc_refuses_a_map_with_a_repeated_name() {
    let entries = vec![
        (String::from("Other"), vec![9]),
        (String::from("Config"), vec![0x02, 0x83]),
        (String::from("Config"), vec![0x00, 0x00]),
    ];
    assert_eq!(
        Ads1115::new(0x48, &entries).err(),
        Some(ConfigurationError::DuplicateRegisterName)
    );
    let entries = vec![(String::from("Other"), vec![9]), (String::from("Other"), vec![9])];
    assert_eq!(
        Ads1115::new(0x48, &entries).err(),
        Some(ConfigurationError::DuplicateRegisterName)
    );
}

#[test]
fn driver_finds_its_seed_wherever_it_stands_in_the_map() {
    let entries = vec![
        (String::from("Other"), vec![9]),
        (String::from("Config"), vec![0x02, 0x83]),
        (String::from("Last"), vec![]),
    ];
    let adc = Ads1115::new(0x48, &entries).unwrap();
    assert_eq!(adc.config_value(), &vec![0x02, 0x83]);
    // Gain code 1: 4096 mV at full scale.
    assert_eq!(adc.raw_to_voltage(32767), 4096);
}

#[test]
fn channels_above_seven_are_rejected_before_any_transfer() {
    let adc = adc_with(0x84);
    for channel in 8..=255u8 {
        assert_eq!(
            adc.read_val(&bus(), channel, &Vec::new()),
            Step::Finished(Err(AdcError::InvalidChannel))
        );
        assert_eq!(
            adc.read_val(&bus(), channel, &vec![BusReply::Written]),
            Step::Finished(Err(AdcError::InvalidChannel))
        );
    }
}

#[test]
fn sampling_writes_the_config_word_first() {
    let adc = adc_with(0x84);
    for channel in 0..=7u8 {
        assert_eq!(
            adc.read_val(&bus(), channel, &Vec::new()),
            Step::Issue(BusCommand::Write {
                slave_address: 0x48,
                register: 0x01,
                value: vec![0x84 | (channel << 4), 0x83],
            })
        );
    }
}

#[test]
fn sampling_reads_the_conversion_register_after_the_write() {
    let adc = adc_with(0x84);
    assert_eq!(
        adc.read_val(&bus(), 2, &vec![BusReply::Written]),
        Step::Issue(BusCommand::ReadBlock { slave_address: 0x48, register: 0x00 })
    );
}

#[test]
fn sample_is_big_endian() {
    let adc = adc_with(0x84);
    let replies = vec![BusReply::Written, BusReply::Block { size: 2, buffer: [0x12, 0x34, 0, 0] }];
    assert_eq!(adc.read_val(&bus(), 0, &replies), Step::Finished(Ok(0x1234)));
    let replies =
        vec![BusReply::Written, BusReply::Block { size: 4, buffer: [0xFF, 0xFE, 9, 9] }];
    assert_eq!(adc.read_val(&bus(), 7, &replies), Step::Finished(Ok(0xFFFE)));
}

#[test]
fn failed_config_write_ends_the_sampling() {
    let adc = adc_with(0x84);
    let failure = TransactionError { fault: Fault::WriteFailed, register: 0x01 };
    assert_eq!(
        adc.read_val(&bus(), 0, &vec![BusReply::WriteRejected]),
        Step::Finished(Err(AdcError::ConfigWrite(failure)))
    );
    // Whatever follows does not matter.
    let replies =
        vec![BusReply::WriteRejected, BusReply::Block { size: 2, buffer: [1, 2, 0, 0] }];
    assert_eq!(
        adc.read_val(&bus(), 0, &replies),
        Step::Finished(Err(AdcError::ConfigWrite(failure)))
    );
}

#[test]
fn failed_conversion_read_is_passed_on() {
    let adc = adc_with(0x84);
    let replies = vec![BusReply::Written, BusReply::Block { size: 1, buffer: [1, 2, 0, 0] }];
    assert_eq!(
        adc.read_val(&bus(), 0, &replies),
        Step::Finished(Err(AdcError::Conversion(TransactionError {
            fault: Fault::ShortRead,
            register: 0x00
        })))
    );
    let replies = vec![BusReply::Written, BusReply::ReadRejected];
    assert_eq!(
        adc.read_val(&bus(), 0, &replies),
        Step::Finished(Err(AdcError::Conversion(TransactionError {
            fault: Fault::ReadFailed,
            register: 0x00
        })))
    );
}

#[test]
fn adc_error_messages() {
    assert_eq!(AdcError::InvalidChannel.to_string(), "Invalid channel for ADS1115");
    assert_eq!(
        AdcError::ConfigWrite(TransactionError { fault: Fault::WriteFailed, register: 1 })
            .to_string(),
        "Failed to write config to ADS1115: Write failed for 1"
    );
    assert_eq!(
        AdcError::Conversion(TransactionError { fault: Fault::ShortRead, register: 0 }).to_string(),
        "Read less bytes than expected for 0"
    );
}
