//! The hardware facade: it owns the configuration, the bus layer and the two
//! sensor drivers, and turns domain requests into driver calls.
//!
//! An operation that needs the bus is a function of the replies that the bus
//! has given to it so far. It names the next transfer, or gives its result:
//! the caller performs the transfer, appends the reply and asks again.

use vstd::prelude::*;
use crate::app_context::{
    register_address, spec_register_address, spec_register_value, AdcSupported, AppContext,
    ConfigurationError, ThermometerSupported,
};
use crate::hw::adc::{Adc, AdcError, Ads1115};
use crate::hw::i2c_mgmt::{
    block_outcome, functionality_outcome, reply_at, text_model, BusReply, Command, I2cDevice,
    Progress, Step,
};
use crate::hw::thermometer::{
    lemma_identity_mismatch_fails, lemma_thermometer_settles, Lps331ap, Thermometer,
    ThermometerError, WHO_AM_I, WHO_AM_I_VALUE,
};
use crate::text::{upper_hex, upper_hex_string};

pub mod adc;
pub mod bits;
pub mod i2c_mgmt;
pub mod thermometer;

verus! {

/// The supply voltage, in millivolts, that the humidity transform scales by.
pub const HUMIDITY_REFERENCE_MILLIVOLTS: u16 = 3300;

/// The thermometer could not be initialized.
#[derive(Clone, Copy, Debug, PartialEq, Eq, Structural)]
pub struct InitializationError {
    pub cause: ThermometerError,
}

impl InitializationError {
    /// The message of this error.
    pub open spec fn text(self) -> Seq<char> {
        "Thermometer initialization failed: "@ + self.cause.text()
    }

    /// Renders the error as its message.
    pub fn to_string(&self) -> (s: String)
        ensures
            s@ == self.text(),
    {
        String::from_str("Thermometer initialization failed: ").concat(
            self.cause.to_string().as_str(),
        )
    }
}

/// The first rule that a configuration breaks, if it breaks one: both type
/// tags must name a supported device, no register map may hold a name twice,
/// the ADC needs a two-byte "Config" seed and the thermometer a one-byte
/// "CtrlReg1" seed.
pub open spec fn configuration_fault(context: AppContext) -> Option<ConfigurationError> {
    if context.adc_config.adc_type == AdcSupported::Unknown {
        Some(ConfigurationError::UnsupportedAdc)
    } else if context.thermometer_config.thermometer_type == ThermometerSupported::Unknown {
        Some(ConfigurationError::UnsupportedThermometer)
    } else if !context.names_are_unique() {
        Some(ConfigurationError::DuplicateRegisterName)
    } else {
        match spec_register_value(context.adc_config.registers_values@, "Config"@) {
            None => Some(ConfigurationError::AdcConfigMissing),
            Some(config) => if config.len() != 2 {
                Some(ConfigurationError::AdcConfigLength)
            } else {
                match spec_register_value(
                    context.thermometer_config.device_data.registers_values@,
                    "CtrlReg1"@,
                ) {
                    None => Some(ConfigurationError::ThermometerControlMissing),
                    Some(control) => if control.len() != 1 {
                        Some(ConfigurationError::ThermometerControlLength)
                    } else {
                        None
                    },
                }
            },
        }
    }
}

/// The value of the provisional humidity formula for a sensor voltage: the
/// share of the reference voltage that the sensor does not reach, in percent,
/// truncated toward zero. It is negative for a voltage far enough above the
/// reference.
pub open spec fn humidity_value(millivolts: u16) -> int {
    if millivolts <= HUMIDITY_REFERENCE_MILLIVOLTS {
        (HUMIDITY_REFERENCE_MILLIVOLTS - millivolts) * 100 / 3300
    } else {
        -((millivolts - HUMIDITY_REFERENCE_MILLIVOLTS) * 100 / 3300)
    }
}

/// The provisional humidity of a sensor voltage: the low eight bits of the
/// formula's value. Nothing is clamped: a voltage above the reference gives a
/// humidity that is out of range.
pub open spec fn humidity_percent(millivolts: u16) -> u8 {
    (humidity_value(millivolts) % 256) as u8
}

/// The status text of two register bytes.
pub open spec fn hex_status(bytes: Seq<u8>) -> Seq<char> {
    "0x"@ + upper_hex(bytes[0] as nat) + upper_hex(bytes[1] as nat)
}

/// Converts a sensor voltage to the provisional humidity.
pub fn voltage_to_humidity(voltage_mv: u16) -> (humidity: u8)
    ensures
        humidity == humidity_percent(voltage_mv),
{
    if voltage_mv <= HUMIDITY_REFERENCE_MILLIVOLTS {
        let missing: u32 = (HUMIDITY_REFERENCE_MILLIVOLTS - voltage_mv) as u32;
        (missing * 100 / 3300) as u8
    } else {
        let excess: u32 = (voltage_mv - HUMIDITY_REFERENCE_MILLIVOLTS) as u32;
        let below_zero: u32 = excess * 100 / 3300;
        ((256 - below_zero % 256) % 256) as u8
    }
}

/// The hardware facade.
#[derive(Debug)]
pub struct Hw<A, T> {
    app_context: AppContext,
    i2c: I2cDevice,
    adc: A,
    thermometer: T,
    ready: bool,
}

impl Hw<Ads1115, Lps331ap> {
    /// Builds the facade from a configuration, which must break no rule. No
    /// transfer takes place; the thermometer is not initialized yet.
    pub fn new(context: AppContext) -> (made: Result<Hw<Ads1115, Lps331ap>, ConfigurationError>)
        ensures
            match configuration_fault(context) {
                Some(fault) => made matches Err(e) && e == fault,
                None => {
                    &&& made matches Ok(hw)
                    &&& hw.context() == context
                    &&& hw.bus().path() == context.i2c_dev_path@
                    &&& !hw.is_ready()
                    &&& context.names_are_unique()
                    &&& hw.adc().address() == context.adc_config.adc_address
                    &&& hw.adc().seed().len() == 2
                    &&& Some(hw.adc().seed()) == spec_register_value(
                        context.adc_config.registers_values@,
                        "Config"@,
                    )
                    &&& hw.thermometer().address() == context.thermometer_config.device_data.address
                    &&& spec_register_value(
                        context.thermometer_config.device_data.registers_values@,
                        "CtrlReg1"@,
                    ) matches Some(control)
                    &&& hw.thermometer().control() == control[0]
                },
            },
    {
        if context.adc_config.adc_type == AdcSupported::Unknown {
            return Err(ConfigurationError::UnsupportedAdc);
        }
        if context.thermometer_config.thermometer_type == ThermometerSupported::Unknown {
            return Err(ConfigurationError::UnsupportedThermometer);
        }
        if !context.has_unique_names() {
            return Err(ConfigurationError::DuplicateRegisterName);
        }
        let adc = match Ads1115::new(
            context.adc_config.adc_address,
            &context.adc_config.registers_values,
        ) {
            Ok(adc) => adc,
            Err(e) => return Err(e),
        };
        let thermometer = match Lps331ap::new(
            context.thermometer_config.device_data.address,
            &context.thermometer_config.device_data.registers_values,
        ) {
            Ok(thermometer) => thermometer,
            Err(e) => return Err(e),
        };
        let i2c = I2cDevice::new(context.i2c_dev_path.clone());
        Ok(Hw { app_context: context, i2c, adc, thermometer, ready: false })
    }
}

impl<A, T> Hw<A, T> {
    #[verifier::type_invariant]
    spec fn well_formed(self) -> bool {
        self.app_context.names_are_unique()
    }
}

impl<A: Adc, T: Thermometer> Hw<A, T> {
    /// The configuration that the facade was built from.
    pub closed spec fn context(self) -> AppContext {
        self.app_context
    }

    /// The bus layer.
    pub closed spec fn bus(self) -> I2cDevice {
        self.i2c
    }

    /// The ADC driver.
    pub closed spec fn adc(self) -> A {
        self.adc
    }

    /// The thermometer driver.
    pub closed spec fn thermometer(self) -> T {
        self.thermometer
    }

    /// Whether the last initialization has succeeded.
    pub closed spec fn is_ready(self) -> bool {
        self.ready
    }

    /// How far the initialization has come after `replies`.
    pub open spec fn spec_initialize(self, replies: Seq<BusReply>) -> Progress<
        Result<(), InitializationError>,
    > {
        match self.thermometer().initializing(replies) {
            Progress::Issue(command) => Progress::Issue(command),
            Progress::Finished(Ok(_)) => Progress::Finished(Ok(())),
            Progress::Finished(Err(cause)) => Progress::Finished(
                Err(InitializationError { cause }),
            ),
        }
    }

    /// How far the bus status query has come after `replies`: the device
    /// path and the adapter's descriptor, or the message of the failure.
    pub open spec fn spec_i2c_status(self, replies: Seq<BusReply>) -> Progress<Seq<char>> {
        if replies.len() == 0 {
            Progress::Issue(Command::Functionality)
        } else {
            match functionality_outcome(replies[0]) {
                Ok(descriptor) => Progress::Finished(self.bus().path() + " | "@ + descriptor),
                Err(message) => Progress::Finished(message),
            }
        }
    }

    /// How far the ADC status query has come after `replies`: without a
    /// "Config" register address it ends at once; else the register's two
    /// bytes are read and shown, or the message of the failure.
    pub open spec fn spec_adc_status(self, replies: Seq<BusReply>) -> Progress<Seq<char>> {
        match spec_register_address(self.context().adc_config.registers@, "Config"@) {
            None => Progress::Finished("Error: ADC Config register not defined"@),
            Some(register) => if replies.len() == 0 {
                Progress::Issue(
                    Command::ReadBlock {
                        slave_address: self.context().adc_config.adc_address,
                        register,
                    },
                )
            } else {
                match block_outcome(replies[0], register, 2) {
                    Ok(bytes) => Progress::Finished(hex_status(bytes)),
                    Err(e) => Progress::Finished(e.text()),
                }
            },
        }
    }

    /// How far the reading of an ADC channel has come after `replies`: the
    /// raw sample, or its millivolts where `converted` is set.
    pub open spec fn spec_read_adc_value(
        self,
        converted: bool,
        channel: u8,
        replies: Seq<BusReply>,
    ) -> Progress<Result<u16, AdcError>> {
        match self.adc().sampling(channel, replies) {
            Progress::Issue(command) => Progress::Issue(command),
            Progress::Finished(Err(e)) => Progress::Finished(Err(e)),
            Progress::Finished(Ok(raw)) => Progress::Finished(
                Ok(
                    if converted {
                        self.adc().millivolts(raw)
                    } else {
                        raw
                    },
                ),
            ),
        }
    }

    /// How far the reading of the humidity has come after `replies`.
    pub open spec fn spec_read_humidity(self, channel: u8, replies: Seq<BusReply>) -> Progress<
        Result<u8, AdcError>,
    > {
        match self.spec_read_adc_value(true, channel, replies) {
            Progress::Issue(command) => Progress::Issue(command),
            Progress::Finished(Err(e)) => Progress::Finished(Err(e)),
            Progress::Finished(Ok(millivolts)) => Progress::Finished(
                Ok(humidity_percent(millivolts)),
            ),
        }
    }

    /// How far the reading of the temperature has come after `replies`.
    pub open spec fn spec_read_temperature(self, replies: Seq<BusReply>) -> Progress<
        Result<i16, ThermometerError>,
    > {
        self.thermometer().measuring(replies)
    }

    /// The configuration that the facade was built from. Each of its
    /// register maps is a mapping from names.
    pub fn app_context(&self) -> (context: &AppContext)
        ensures
            *context == self.context(),
            self.context().names_are_unique(),
    {
        proof {
            use_type_invariant(self);
        }
        &self.app_context
    }

    /// Whether the last initialization has succeeded.
    pub fn ready(&self) -> (ready: bool)
        ensures
            ready == self.is_ready(),
    {
        self.ready
    }

    /// Initializes the thermometer. The facade is ready when, and only when,
    /// the initialization has ended in success.
    pub fn initialize(&mut self, replies: &Vec<BusReply>) -> (step: Step<
        Result<(), InitializationError>,
    >)
        ensures
            step.model() == old(self).spec_initialize(replies@),
            final(self).is_ready() == (step matches Step::Finished(Ok(_))),
            final(self).context() == old(self).context(),
            final(self).bus() == old(self).bus(),
            final(self).adc() == old(self).adc(),
            final(self).thermometer() == old(self).thermometer(),
    {
        proof {
            use_type_invariant(&*self);
        }
        match self.thermometer.initialize(&self.i2c, replies) {
            Step::Issue(command) => {
                self.ready = false;
                Step::Issue(command)
            },
            Step::Finished(Ok(_)) => {
                self.ready = true;
                Step::Finished(Ok(()))
            },
            Step::Finished(Err(cause)) => {
                self.ready = false;
                Step::Finished(Err(InitializationError { cause }))
            },
        }
    }

    /// The status of the bus as a text. A failure becomes the text.
    pub fn i2c_status(&self, replies: &Vec<BusReply>) -> (step: Step<String>)
        ensures
            text_model(step) == self.spec_i2c_status(replies@),
    {
        match self.i2c.functionality(reply_at(replies, 0)) {
            Step::Issue(command) => Step::Issue(command),
            Step::Finished(Ok(functionality)) => {
                let status = self.i2c.dev_path().clone().concat(" | ").concat(
                    functionality.as_str(),
                );
                Step::Finished(status)
            },
            Step::Finished(Err(error)) => Step::Finished(error),
        }
    }

    /// The status of the ADC as a text: its configuration register in
    /// hexadecimal. A failure becomes the text.
    pub fn adc_status(&self, replies: &Vec<BusReply>) -> (step: Step<String>)
        ensures
            text_model(step) == self.spec_adc_status(replies@),
    {
        let register = match register_address(&self.app_context.adc_config.registers, "Config") {
            None => {
                return Step::Finished(String::from_str("Error: ADC Config register not defined"));
            },
            Some(register) => register,
        };
        match self.i2c.get_register(
            self.app_context.adc_config.adc_address,
            register,
            2,
            reply_at(replies, 0),
        ) {
            Step::Issue(command) => Step::Issue(command),
            Step::Finished(Ok(status_reg)) => {
                let status_hex = String::from_str("0x").concat(
                    upper_hex_string(status_reg[0]).as_str(),
                ).concat(upper_hex_string(status_reg[1]).as_str());
                Step::Finished(status_hex)
            },
            Step::Finished(Err(error)) => Step::Finished(error.to_string()),
        }
    }

    /// Reads an ADC channel: the raw sample, or its millivolts where
    /// `converted` is set.
    pub fn read_adc_value(&self, converted: bool, channel: u8, replies: &Vec<BusReply>) -> (step:
        Step<Result<u16, AdcError>>)
        ensures
            step.model() == self.spec_read_adc_value(converted, channel, replies@),
    {
        match self.adc.read_val(&self.i2c, channel, replies) {
            Step::Issue(command) => Step::Issue(command),
            Step::Finished(Err(err)) => Step::Finished(Err(err)),
            Step::Finished(Ok(raw)) => {
                if converted {
                    Step::Finished(Ok(self.adc.raw_to_voltage(raw)))
                } else {
                    Step::Finished(Ok(raw))
                }
            },
        }
    }

    /// Reads the humidity, in percent, that the sensor on an ADC channel
    /// reports.
    pub fn read_humidity(&self, channel: u8, replies: &Vec<BusReply>) -> (step: Step<
        Result<u8, AdcError>,
    >)
        ensures
            step.model() == self.spec_read_humidity(channel, replies@),
    {
        match self.read_adc_value(true, channel, replies) {
            Step::Issue(command) => Step::Issue(command),
            Step::Finished(Err(err)) => Step::Finished(Err(err)),
            Step::Finished(Ok(voltage_mv)) => Step::Finished(Ok(voltage_to_humidity(voltage_mv))),
        }
    }

    /// Reads the temperature in degrees Celsius. The thermometer must have
    /// been initialized.
    pub fn read_temperature(&self, replies: &Vec<BusReply>) -> (step: Step<
        Result<i16, ThermometerError>,
    >)
        requires
            self.is_ready(),
        ensures
            step.model() == self.spec_read_temperature(replies@),
    {
        self.thermometer.read_temperature(&self.i2c, replies)
    }
}

/// Without an address for the "Config" register the ADC status is a fixed
/// error text, whatever the bus has answered: no transfer is ever asked for.
pub proof fn lemma_adc_status_without_config<A: Adc, T: Thermometer>(
    hw: Hw<A, T>,
    replies: Seq<BusReply>,
)
    requires
        spec_register_address(hw.context().adc_config.registers@, "Config"@) is None,
    ensures
        hw.spec_adc_status(replies) == Progress::<Seq<char>>::Finished(
            "Error: ADC Config register not defined"@,
        ),
{
}

/// The status queries never fail: once the bus has answered, they give a
/// text.
pub proof fn lemma_status_is_a_text<A: Adc, T: Thermometer>(hw: Hw<A, T>, replies: Seq<BusReply>)
    requires
        replies.len() >= 1,
    ensures
        hw.spec_i2c_status(replies) is Finished,
        hw.spec_adc_status(replies) is Finished,
{
}

/// A thermometer that reports another identity than the expected one fails
/// the initialization of the facade with that mismatch.
pub proof fn lemma_identity_mismatch_fails_initialization<A: Adc>(
    hw: Hw<A, Lps331ap>,
    replies: Seq<BusReply>,
)
    requires
        replies.len() >= 1,
        block_outcome(replies[0], WHO_AM_I, 1) matches Ok(bytes) && bytes[0] != WHO_AM_I_VALUE,
    ensures
        hw.spec_initialize(replies) == Progress::<Result<(), InitializationError>>::Finished(
            Err(
                InitializationError {
                    cause: ThermometerError::IdentityMismatch {
                        expected: WHO_AM_I_VALUE,
                        observed: block_outcome(replies[0], WHO_AM_I, 1)->Ok_0[0],
                    },
                },
            ),
        ),
{
    lemma_identity_mismatch_fails(hw.thermometer().address(), hw.thermometer().control(), replies);
}

/// A raw reading is the sample itself; a converted reading is its
/// millivolts. Errors of the driver pass unchanged.
pub proof fn lemma_adc_value_follows_driver<A: Adc, T: Thermometer>(
    hw: Hw<A, T>,
    converted: bool,
    channel: u8,
    replies: Seq<BusReply>,
)
    ensures
        hw.adc().sampling(channel, replies) matches Progress::Finished(Err(e))
            ==> hw.spec_read_adc_value(converted, channel, replies) == Progress::<
            Result<u16, AdcError>,
        >::Finished(Err(e)) && hw.spec_read_humidity(channel, replies) == Progress::<
            Result<u8, AdcError>,
        >::Finished(Err(e)),
        hw.adc().sampling(channel, replies) matches Progress::Finished(Ok(raw))
            ==> hw.spec_read_adc_value(false, channel, replies) == Progress::<
            Result<u16, AdcError>,
        >::Finished(Ok(raw)) && hw.spec_read_adc_value(true, channel, replies) == Progress::<
            Result<u16, AdcError>,
        >::Finished(Ok(hw.adc().millivolts(raw))),
{
}

/// Up to the reference voltage the humidity is the formula's value, from 0
/// to 100. Above it the value is negative and is not clamped: where the
/// formula gives `-m`, the humidity is `256 - m` reduced to eight bits.
pub proof fn lemma_humidity_is_not_clamped(millivolts: u16)
    ensures
        millivolts <= HUMIDITY_REFERENCE_MILLIVOLTS ==> humidity_percent(millivolts)
            == humidity_value(millivolts) && 0 <= humidity_value(millivolts) <= 100,
        millivolts > HUMIDITY_REFERENCE_MILLIVOLTS ==> humidity_value(millivolts) <= 0
            && humidity_percent(millivolts) == (256 - (-humidity_value(millivolts)) % 256) % 256,
        millivolts >= 3333 ==> humidity_value(millivolts) < 0,
{
}

/// With the LPS331AP the initialization needs at most two transfers, and its
/// outcome does not depend on what the bus answers after it has ended.
pub proof fn lemma_initialization_settles<A: Adc>(
    hw: Hw<A, Lps331ap>,
    replies: Seq<BusReply>,
    more: Seq<BusReply>,
)
    ensures
        replies.len() >= 2 ==> hw.spec_initialize(replies) is Finished,
        hw.spec_initialize(replies) is Finished ==> hw.spec_initialize(replies + more)
            == hw.spec_initialize(replies),
{
    lemma_thermometer_settles(
        hw.thermometer().address(),
        hw.thermometer().control(),
        replies,
        more,
    );
}

} // verus!
