//! The configuration that the hardware facade is built from.
//!
//! Registers are looked up by name. A register map is a list of named
//! entries in which no name occurs twice; the facade and the drivers refuse a
//! map that breaks this. A lookup takes the first entry of the name, which
//! in such a map is the only one.

use vstd::prelude::*;

verus! {

/// The ADC devices that are supported.
#[derive(Clone, Copy, Debug, PartialEq, Eq, Structural)]
pub enum AdcSupported {
    Unknown,
    ADS1115,
}

/// The thermometer devices that are supported.
#[derive(Clone, Copy, Debug, PartialEq, Eq, Structural)]
pub enum ThermometerSupported {
    Unknown,
    LPS331AP,
}

/// Why a configuration cannot be used.
#[derive(Clone, Copy, Debug, PartialEq, Eq, Structural)]
pub enum ConfigurationError {
    /// The type tag of the ADC names no supported device.
    UnsupportedAdc,
    /// The type tag of the thermometer names no supported device.
    UnsupportedThermometer,
    /// A register map holds a name twice.
    DuplicateRegisterName,
    /// The ADC has no seed value named "Config".
    AdcConfigMissing,
    /// The ADC's "Config" seed value is not two bytes long.
    AdcConfigLength,
    /// The thermometer has no seed value named "CtrlReg1".
    ThermometerControlMissing,
    /// The thermometer's "CtrlReg1" seed value is not one byte long.
    ThermometerControlLength,
}

impl ConfigurationError {
    /// The message of this error.
    pub open spec fn text(self) -> Seq<char> {
        match self {
            ConfigurationError::UnsupportedAdc => "Unsupported ADC type in configuration"@,
            ConfigurationError::UnsupportedThermometer =>
                "Unsupported thermometer type in configuration"@,
            ConfigurationError::DuplicateRegisterName =>
                "Register name occurs twice in configuration"@,
            ConfigurationError::AdcConfigMissing => "Config register not found in init_config"@,
            ConfigurationError::AdcConfigLength => "Config value must be 2 bytes for ADS1115"@,
            ConfigurationError::ThermometerControlMissing => "CTRL_REG1 not found in init_config"@,
            ConfigurationError::ThermometerControlLength =>
                "CTRL_REG1 value must be 1 byte for LPS331AP"@,
        }
    }

    /// Renders the error as its message.
    pub fn to_string(&self) -> (s: String)
        ensures
            s@ == self.text(),
    {
        let message = match self {
            ConfigurationError::UnsupportedAdc => "Unsupported ADC type in configuration",
            ConfigurationError::UnsupportedThermometer =>
                "Unsupported thermometer type in configuration",
            ConfigurationError::DuplicateRegisterName =>
                "Register name occurs twice in configuration",
            ConfigurationError::AdcConfigMissing => "Config register not found in init_config",
            ConfigurationError::AdcConfigLength => "Config value must be 2 bytes for ADS1115",
            ConfigurationError::ThermometerControlMissing => "CTRL_REG1 not found in init_config",
            ConfigurationError::ThermometerControlLength =>
                "CTRL_REG1 value must be 1 byte for LPS331AP",
        };
        String::from_str(message)
    }
}

/// One slave device: its bus address, the addresses of its named registers
/// and the seed values of its named registers.
#[derive(Clone, Debug)]
pub struct DeviceData {
    pub address: u16,
    pub registers: Vec<(String, u8)>,
    pub registers_values: Vec<(String, Vec<u8>)>,
}

/// The ADC's entry of the configuration.
#[derive(Clone, Debug)]
pub struct AdcConfig {
    pub adc_address: u16,
    pub adc_type: AdcSupported,
    pub registers: Vec<(String, u8)>,
    pub registers_values: Vec<(String, Vec<u8>)>,
}

/// The thermometer's entry of the configuration.
#[derive(Clone, Debug)]
pub struct ThermometerConfig {
    pub thermometer_type: ThermometerSupported,
    pub device_data: DeviceData,
}

/// The whole configuration: the bus device path and the two sensors.
#[derive(Clone, Debug)]
pub struct AppContext {
    pub i2c_dev_path: String,
    pub adc_config: AdcConfig,
    pub thermometer_config: ThermometerConfig,
}

/// No name occurs twice in `entries`: the list is a mapping from names.
pub open spec fn names_are_unique<V>(entries: Seq<(String, V)>) -> bool {
    forall|i: int, j: int|
        0 <= i < j < entries.len() ==> (#[trigger] entries[i]).0@ != (#[trigger] entries[j]).0@
}

impl AppContext {
    /// Each of the four register maps of the configuration is a mapping from
    /// names.
    pub open spec fn names_are_unique(self) -> bool {
        &&& names_are_unique(self.adc_config.registers@)
        &&& names_are_unique(self.adc_config.registers_values@)
        &&& names_are_unique(self.thermometer_config.device_data.registers@)
        &&& names_are_unique(self.thermometer_config.device_data.registers_values@)
    }

    /// Tells whether each of the four register maps is a mapping from names.
    pub fn has_unique_names(&self) -> (unique: bool)
        ensures
            unique == self.names_are_unique(),
    {
        has_unique_names(&self.adc_config.registers) && has_unique_names(
            &self.adc_config.registers_values,
        ) && has_unique_names(&self.thermometer_config.device_data.registers)
            && has_unique_names(&self.thermometer_config.device_data.registers_values)
    }
}

/// Tells whether no name occurs twice in `entries`.
pub fn has_unique_names<V>(entries: &Vec<(String, V)>) -> (unique: bool)
    ensures
        unique == names_are_unique(entries@),
{
    let mut j: usize = 0;
    while j < entries.len()
        invariant
            j <= entries.len(),
            forall|a: int, b: int|
                0 <= a < b < j ==> (#[trigger] entries@[a]).0@ != (#[trigger] entries@[b]).0@,
        decreases entries.len() - j,
    {
        let mut i: usize = 0;
        while i < j
            invariant
                i <= j < entries.len(),
                forall|a: int| 0 <= a < i ==> (#[trigger] entries@[a]).0@ != entries@[j as int].0@,
            decreases j - i,
        {
            if entries[i].0 == entries[j].0 {
                assert(entries@[i as int].0@ == entries@[j as int].0@);
                return false;
            }
            i = i + 1;
        }
        j = j + 1;
    }
    true
}

/// `i` is the index of the first entry of `entries` that is named `name`.
pub open spec fn is_first_named<V>(entries: Seq<(String, V)>, name: Seq<char>, i: int) -> bool {
    &&& 0 <= i < entries.len()
    &&& entries[i].0@ == name
    &&& forall|j: int| 0 <= j < i ==> (#[trigger] entries[j]).0@ != name
}

/// The index of the first entry named `name`, if there is one.
pub open spec fn spec_position<V>(entries: Seq<(String, V)>, name: Seq<char>) -> Option<int> {
    if exists|i: int| is_first_named(entries, name, i) {
        Some(choose|i: int| is_first_named(entries, name, i))
    } else {
        None
    }
}

/// The address of the register named `name`, if the map has one.
pub open spec fn spec_register_address(entries: Seq<(String, u8)>, name: Seq<char>) -> Option<u8> {
    match spec_position(entries, name) {
        Some(i) => Some(entries[i].1),
        None => None,
    }
}

/// The seed value of the register named `name`, if the map has one.
pub open spec fn spec_register_value(entries: Seq<(String, Vec<u8>)>, name: Seq<char>) -> Option<
    Seq<u8>,
> {
    match spec_position(entries, name) {
        Some(i) => Some(entries[i].1@),
        None => None,
    }
}

/// The first entry with a given name is determined by the map: a position
/// that is one is the position that lookups use.
pub proof fn lemma_first_named_is_position<V>(entries: Seq<(String, V)>, name: Seq<char>, i: int)
    requires
        is_first_named(entries, name, i),
    ensures
        spec_position(entries, name) == Some(i),
{
    let k = choose|k: int| is_first_named(entries, name, k);
    assert(is_first_named(entries, name, k));
    if k < i {
        assert(entries[k].0@ != name);
    } else if i < k {
        assert(entries[i].0@ != name);
    }
}

/// In a map without a repeated name a lookup does not depend on the order of
/// the entries: whichever entry has the name is the one that is found.
pub proof fn lemma_unique_name_is_found<V>(entries: Seq<(String, V)>, name: Seq<char>, i: int)
    requires
        names_are_unique(entries),
        0 <= i < entries.len(),
        entries[i].0@ == name,
    ensures
        spec_position(entries, name) == Some(i),
{
    assert forall|j: int| 0 <= j < i implies (#[trigger] entries[j]).0@ != name by {
        assert(entries[j].0@ != entries[i].0@);
    }
    lemma_first_named_is_position(entries, name, i);
}

/// A map without an entry of a given name has no position for it.
pub proof fn lemma_unnamed_has_no_position<V>(entries: Seq<(String, V)>, name: Seq<char>)
    requires
        forall|j: int| 0 <= j < entries.len() ==> (#[trigger] entries[j]).0@ != name,
    ensures
        spec_position(entries, name) is None,
{
    if exists|i: int| is_first_named(entries, name, i) {
        let k = choose|k: int| is_first_named(entries, name, k);
        assert(entries[k].0@ != name);
    }
}

/// Finds the first entry named `name`.
pub fn position<V>(entries: &Vec<(String, V)>, name: &str) -> (found: Option<usize>)
    ensures
        match found {
            Some(i) => spec_position(entries@, name@) == Some(i as int),
            None => spec_position(entries@, name@) is None,
        },
{
    let key = String::from_str(name);
    let mut i: usize = 0;
    while i < entries.len()
        invariant
            i <= entries.len(),
            key@ == name@,
            forall|j: int| 0 <= j < i ==> (#[trigger] entries@[j]).0@ != name@,
        decreases entries.len() - i,
    {
        if entries[i].0 == key {
            proof {
                lemma_first_named_is_position(entries@, name@, i as int);
            }
            return Some(i);
        }
        i = i + 1;
    }
    proof {
        lemma_unnamed_has_no_position(entries@, name@);
    }
    None
}

/// Looks up the address of the register named `name`.
pub fn register_address(entries: &Vec<(String, u8)>, name: &str) -> (found: Option<u8>)
    ensures
        found == spec_register_address(entries@, name@),
{
    match position(entries, name) {
        Some(i) => Some(entries[i].1),
        None => None,
    }
}

/// Looks up the seed value of the register named `name`.
pub fn register_value<'a>(entries: &'a Vec<(String, Vec<u8>)>, name: &str) -> (found: Option<
    &'a Vec<u8>,
>)
    ensures
        match found {
            Some(bytes) => spec_register_value(entries@, name@) == Some(bytes@),
            None => spec_register_value(entries@, name@) is None,
        },
{
    match position(entries, name) {
        Some(i) => Some(&entries[i].1),
        None => None,
    }
}

/// The upper-case form of a text, as `str::to_uppercase` gives it.
pub uninterp spec fn uppercase(text: Seq<char>) -> Seq<char>;

/// `str::to_uppercase`: the result is the upper-case form of the argument,
/// which depends on the argument alone.
#[verifier::external_body]
fn to_uppercase(text: &str) -> (upper: String)
    ensures
        upper@ == uppercase(text@),
{
    text.to_uppercase()
}

/// The ADC that an upper-case type tag names.
pub open spec fn spec_adc_type(upper: Seq<char>) -> AdcSupported {
    if upper == "ADS1115"@ {
        AdcSupported::ADS1115
    } else {
        AdcSupported::Unknown
    }
}

/// The thermometer that an upper-case type tag names.
pub open spec fn spec_thermometer_type(upper: Seq<char>) -> ThermometerSupported {
    if upper == "LPS331AP"@ {
        ThermometerSupported::LPS331AP
    } else {
        ThermometerSupported::Unknown
    }
}

/// The ADC that an upper-case type tag names.
pub fn adc_type_of(upper: &String) -> (adc_type: AdcSupported)
    ensures
        adc_type == spec_adc_type(upper@),
{
    if *upper == String::from_str("ADS1115") {
        AdcSupported::ADS1115
    } else {
        AdcSupported::Unknown
    }
}

/// The thermometer that an upper-case type tag names.
pub fn thermometer_type_of(upper: &String) -> (thermometer_type: ThermometerSupported)
    ensures
        thermometer_type == spec_thermometer_type(upper@),
{
    if *upper == String::from_str("LPS331AP") {
        ThermometerSupported::LPS331AP
    } else {
        ThermometerSupported::Unknown
    }
}

/// The ADC that a type tag names, whatever its letter case.
pub fn get_adc_type(type_str: &str) -> (adc_type: AdcSupported)
    ensures
        adc_type == spec_adc_type(uppercase(type_str@)),
{
    let upper = to_uppercase(type_str);
    adc_type_of(&upper)
}

/// The thermometer that a type tag names, whatever its letter case.
pub fn get_thermometer_type(type_str: &str) -> (thermometer_type: ThermometerSupported)
    ensures
        thermometer_type == spec_thermometer_type(uppercase(type_str@)),
{
    let upper = to_uppercase(type_str);
    thermometer_type_of(&upper)
}

} // verus!
