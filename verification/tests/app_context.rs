use plantstation::app_context::{
    adc_type_of, get_adc_type, get_thermometer_type, has_unique_names, position,
    register_address, register_value, thermometer_type_of, AdcSupported, ConfigurationError,
    ThermometerSupported,
};

#[test]
fn maps_without_a_repeated_name() {
    assert!(has_unique_names(&Vec::<(String, u8)>::new()));
    assert!(has_unique_names(&vec![(String::from("Config"), 1u8)]));
    assert!(has_unique_names(&vec![
        (String::from("Config"), 1u8),
        (String::from("config"), 1u8),
        (String::from("Conversion"), 0u8),
    ]));
}

#[test]
fn maps_with_a_repeated_name() {
    assert!(!has_unique_names(&vec![(String::from("Config"), 1u8), (String::from("Config"), 1u8)]));
    assert!(!has_unique_names(&vec![
        (String::from("Config"), 1u8),
        (String::from("Conversion"), 0u8),
        (String::from("Config"), 2u8),
    ]));
    assert!(!has_unique_names(&vec![
        (String::from("A"), vec![1u8]),
        (String::from("B"), vec![]),
        (String::from("B"), vec![]),
    ]));
}

#[test]
fn adc_type_tags() {
    assert_eq!(get_adc_type("ADS1115"), AdcSupported::ADS1115);
    assert_eq!(get_adc_type("ads1115"), AdcSupported::ADS1115);
    assert_eq!(get_adc_type("Ads1115"), AdcSupported::ADS1115);
    assert_eq!(get_adc_type("ADS1015"), AdcSupported::Unknown);
    assert_eq!(get_adc_type(" ADS1115"), AdcSupported::Unknown);
    assert_eq!(get_adc_type(""), AdcSupported::Unknown);
}

#[test]
fn thermometer_type_tags() {
    assert_eq!(get_thermometer_type("LPS331AP"), ThermometerSupported::LPS331AP);
    assert_eq!(get_thermometer_type("lps331ap"), ThermometerSupported::LPS331AP);
    assert_eq!(get_thermometer_type("Lps331Ap"), ThermometerSupported::LPS331AP);
    assert_eq!(get_thermometer_type("LPS331"), ThermometerSupported::Unknown);
    assert_eq!(get_thermometer_type("ADS1115"), ThermometerSupported::Unknown);
}

#[test]
fn upper_case_tags_are_compared_exactly() {
    assert_eq!(adc_type_of(&String::from("ADS1115")), AdcSupported::ADS1115);
    assert_eq!(adc_type_of(&String::from("ads1115")), AdcSupported::Unknown);
    assert_eq!(
        thermometer_type_of(&String::from("LPS331AP")),
        ThermometerSupported::LPS331AP
    );
    assert_eq!(thermometer_type_of(&String::from("lps331ap")), ThermometerSupported::Unknown);
}

#[test]
fn position_is_that_of_the_first_entry_of_the_name() {
    let entries = vec![
        (String::from("Conversion"), 0u8),
        (String::from("Config"), 1u8),
        (String::from("Config"), 9u8),
    ];
    assert_eq!(position(&entries, "Conversion"), Some(0));
    assert_eq!(position(&entries, "Config"), Some(1));
    assert_eq!(position(&entries, "config"), None);
    assert_eq!(position(&entries, ""), None);
    assert_eq!(position(&Vec::<(String, u8)>::new(), "Config"), None);
}

#[test]
fn register_addresses_by_name() {
    let entries = vec![(String::from("Conversion"), 0u8), (String::from("Config"), 1u8)];
    assert_eq!(register_address(&entries, "Config"), Some(1));
    assert_eq!(register_address(&entries, "Conversion"), Some(0));
    assert_eq!(register_address(&entries, "CtrlReg1"), None);
}

#[test]
fn register_values_by_name() {
    let entries =
        vec![(String::from("Config"), vec![0x84u8, 0x83]), (String::from("CtrlReg1"), vec![0x90])];
    assert_eq!(register_value(&entries, "Config"), Some(&vec![0x84u8, 0x83]));
    assert_eq!(register_value(&entries, "CtrlReg1"), Some(&vec![0x90u8]));
    assert_eq!(register_value(&entries, "Ctrl"), None);
}

#[test]
fn configuration_error_messages() {
    assert_eq!(
        ConfigurationError::UnsupportedAdc.to_string(),
        "Unsupported ADC type in configuration"
    );
    assert_eq!(
        ConfigurationError::UnsupportedThermometer.to_string(),
        "Unsupported thermometer type in configuration"
    );
    assert_eq!(
        ConfigurationError::DuplicateRegisterName.to_string(),
        "Register name occurs twice in configuration"
    );
    assert_eq!(
        ConfigurationError::AdcConfigMissing.to_string(),
        "Config register not found in init_config"
    );
    assert_eq!(
        ConfigurationError::AdcConfigLength.to_string(),
        "Config value must be 2 bytes for ADS1115"
    );
    assert_eq!(
        ConfigurationError::ThermometerControlMissing.to_string(),
        "CTRL_REG1 not found in init_config"
    );
    assert_eq!(
        ConfigurationError::ThermometerControlLength.to_string(),
        "CTRL_REG1 value must be 1 byte for LPS331AP"
    );
}
