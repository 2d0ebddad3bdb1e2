//! The thermometer capability and its LPS331AP driver.

use vstd::prelude::*;
use crate::app_context::{
    has_unique_names, names_are_unique, register_value, spec_register_value, ConfigurationError,
};
use crate::hw::i2c_mgmt::{
    block_outcome, reply_at, write_outcome, BusReply, Command, I2cDevice, Progress, Step,
    TransactionError,
};
use crate::text::{upper_hex, upper_hex_string};

verus! {

/// Address of the identity register.
pub const WHO_AM_I: u8 = 0x0F;

/// The identity that an LPS331AP reports.
pub const WHO_AM_I_VALUE: u8 = 0xBB;

/// Address of the first control register.
pub const CTRL_REG1: u8 = 0x20;

/// Address of the low byte of the temperature.
pub const TEMP_OUT_L: u8 = 0x2B;

/// Address of the high byte of the temperature.
pub const TEMP_OUT_H: u8 = 0x2C;

/// Why the thermometer could not be initialized or read.
#[derive(Clone, Copy, Debug, PartialEq, Eq, Structural)]
pub enum ThermometerError {
    /// The identity register could not be read.
    IdentityRead(TransactionError),
    /// The device reports another identity than an LPS331AP does.
    IdentityMismatch { expected: u8, observed: u8 },
    /// The control register could not be written.
    ControlWrite(TransactionError),
    /// The low byte of the temperature could not be read.
    LowByteRead(TransactionError),
    /// The high byte of the temperature could not be read.
    HighByteRead(TransactionError),
}

impl ThermometerError {
    /// The message of this error.
    pub open spec fn text(self) -> Seq<char> {
        match self {
            ThermometerError::IdentityRead(e) => "Failed to read WHO_AM_I from LPS331AP: "@
                + e.text(),
            ThermometerError::IdentityMismatch { expected, observed } =>
                "LPS331AP WHO_AM_I mismatch: expected "@ + upper_hex(expected as nat) + ", got "@
                    + upper_hex(observed as nat),
            ThermometerError::ControlWrite(e) => "Failed to write CTRL_REG1 to LPS331AP: "@
                + e.text(),
            ThermometerError::LowByteRead(e) => "Failed to read TEMP_OUT_L from LPS331AP: "@
                + e.text(),
            ThermometerError::HighByteRead(e) => "Failed to read TEMP_OUT_H from LPS331AP: "@
                + e.text(),
        }
    }

    /// Renders the error as its message.
    pub fn to_string(&self) -> (s: String)
        ensures
            s@ == self.text(),
    {
        match self {
            ThermometerError::IdentityRead(e) => String::from_str(
                "Failed to read WHO_AM_I from LPS331AP: ",
            ).concat(e.to_string().as_str()),
            ThermometerError::IdentityMismatch { expected, observed } => String::from_str(
                "LPS331AP WHO_AM_I mismatch: expected ",
            ).concat(upper_hex_string(*expected).as_str()).concat(", got ").concat(
                upper_hex_string(*observed).as_str(),
            ),
            ThermometerError::ControlWrite(e) => String::from_str(
                "Failed to write CTRL_REG1 to LPS331AP: ",
            ).concat(e.to_string().as_str()),
            ThermometerError::LowByteRead(e) => String::from_str(
                "Failed to read TEMP_OUT_L from LPS331AP: ",
            ).concat(e.to_string().as_str()),
            ThermometerError::HighByteRead(e) => String::from_str(
                "Failed to read TEMP_OUT_H from LPS331AP: ",
            ).concat(e.to_string().as_str()),
        }
    }
}

/// A thermometer: it is initialized once, then read.
pub trait Thermometer {
    /// How far the initialization has come after `replies`.
    spec fn initializing(&self, replies: Seq<BusReply>) -> Progress<Result<(), ThermometerError>>;

    /// How far a temperature reading has come after `replies`.
    spec fn measuring(&self, replies: Seq<BusReply>) -> Progress<Result<i16, ThermometerError>>;

    /// Initializes the device: names the next transfer, or gives the outcome.
    fn initialize(&self, i2c: &I2cDevice, replies: &Vec<BusReply>) -> (step: Step<
        Result<(), ThermometerError>,
    >)
        ensures
            step.model() == self.initializing(replies@),
    ;

    /// Reads the temperature in degrees Celsius: names the next transfer, or
    /// gives the outcome.
    fn read_temperature(&self, i2c: &I2cDevice, replies: &Vec<BusReply>) -> (step: Step<
        Result<i16, ThermometerError>,
    >)
        ensures
            step.model() == self.measuring(replies@),
    ;
}

/// The signed sixteen-bit value whose high byte is `high` and whose low byte
/// is `low`.
pub open spec fn signed_sample(low: u8, high: u8) -> int {
    if high >= 128 {
        high as int * 256 + low as int - 65536
    } else {
        high as int * 256 + low as int
    }
}

/// `numerator / denominator` rounded to the nearest integer, a tie away from
/// zero.
pub open spec fn round_half_away(numerator: int, denominator: int) -> int
    recommends
        denominator > 0,
{
    if numerator >= 0 {
        (2 * numerator + denominator) / (2 * denominator)
    } else {
        -((denominator - 2 * numerator) / (2 * denominator))
    }
}

/// Degrees Celsius of a raw temperature: `raw / 480 + 42.5`, rounded to the
/// nearest integer, a tie away from zero.
pub open spec fn celsius(low: u8, high: u8) -> int {
    round_half_away(signed_sample(low, high) + 20400, 480)
}

/// How far the initialization of the LPS331AP at `address` has come after
/// `replies`: the identity is read and compared, then the control byte is
/// written.
pub open spec fn lps331ap_initializing(
    address: u16,
    control: u8,
    replies: Seq<BusReply>,
) -> Progress<Result<(), ThermometerError>> {
    if replies.len() == 0 {
        Progress::Issue(Command::ReadBlock { slave_address: address, register: WHO_AM_I })
    } else {
        match block_outcome(replies[0], WHO_AM_I, 1) {
            Err(e) => Progress::Finished(Err(ThermometerError::IdentityRead(e))),
            Ok(bytes) => if bytes[0] != WHO_AM_I_VALUE {
                Progress::Finished(
                    Err(
                        ThermometerError::IdentityMismatch {
                            expected: WHO_AM_I_VALUE,
                            observed: bytes[0],
                        },
                    ),
                )
            } else if replies.len() == 1 {
                Progress::Issue(
                    Command::Write {
                        slave_address: address,
                        register: CTRL_REG1,
                        value: seq![control],
                    },
                )
            } else {
                match write_outcome(replies[1], CTRL_REG1) {
                    Err(e) => Progress::Finished(Err(ThermometerError::ControlWrite(e))),
                    Ok(_) => Progress::Finished(Ok(())),
                }
            },
        }
    }
}

/// How far a temperature reading of the LPS331AP at `address` has come after
/// `replies`: the low byte is read, then the high byte.
pub open spec fn lps331ap_measuring(address: u16, replies: Seq<BusReply>) -> Progress<
    Result<i16, ThermometerError>,
> {
    if replies.len() == 0 {
        Progress::Issue(Command::ReadBlock { slave_address: address, register: TEMP_OUT_L })
    } else {
        match block_outcome(replies[0], TEMP_OUT_L, 1) {
            Err(e) => Progress::Finished(Err(ThermometerError::LowByteRead(e))),
            Ok(low) => if replies.len() == 1 {
                Progress::Issue(
                    Command::ReadBlock { slave_address: address, register: TEMP_OUT_H },
                )
            } else {
                match block_outcome(replies[1], TEMP_OUT_H, 1) {
                    Err(e) => Progress::Finished(Err(ThermometerError::HighByteRead(e))),
                    Ok(high) => Progress::Finished(Ok(celsius(low[0], high[0]) as i16)),
                }
            },
        }
    }
}

/// Converts the two bytes of a raw temperature to degrees Celsius.
pub fn raw_to_celsius(low: u8, high: u8) -> (degrees: i16)
    ensures
        degrees == celsius(low, high),
        -26 <= degrees <= 111,
{
    let unsigned: u32 = high as u32 * 256 + low as u32;
    // The sample plus 20400, which is 42.5 times 480, split by its sign.
    if high >= 128 {
        if unsigned >= 65536 - 20400 {
            let scaled: u32 = unsigned - (65536 - 20400);
            ((2 * scaled + 480) / 960) as i16
        } else {
            let magnitude: u32 = (65536 - 20400) - unsigned;
            let rounded: u32 = (480 + 2 * magnitude) / 960;
            -(rounded as i16)
        }
    } else {
        let scaled: u32 = unsigned + 20400;
        ((2 * scaled + 480) / 960) as i16
    }
}

/// Driver of the LPS331AP.
#[derive(Debug)]
pub struct Lps331ap {
    address: u16,
    ctrl_reg1_value: u8,
}

impl Lps331ap {
    /// The bus address of the device.
    pub closed spec fn address(self) -> u16 {
        self.address
    }

    /// The seed value of the control register.
    pub closed spec fn control(self) -> u8 {
        self.ctrl_reg1_value
    }

    /// Builds the driver from the seed values of the device's registers. No
    /// name may occur twice in the map, and it must hold a one-byte value
    /// named "CtrlReg1".
    pub fn new(addr: u16, init_config: &Vec<(String, Vec<u8>)>) -> (made: Result<
        Lps331ap,
        ConfigurationError,
    >)
        ensures
            if !names_are_unique(init_config@) {
                made matches Err(e) && e == ConfigurationError::DuplicateRegisterName
            } else {
                match spec_register_value(init_config@, "CtrlReg1"@) {
                    None => made matches Err(e) && e
                        == ConfigurationError::ThermometerControlMissing,
                    Some(bytes) => if bytes.len() == 1 {
                        made matches Ok(thermometer) && thermometer.address() == addr
                            && thermometer.control() == bytes[0]
                    } else {
                        made matches Err(e) && e == ConfigurationError::ThermometerControlLength
                    },
                }
            },
    {
        if !has_unique_names(init_config) {
            return Err(ConfigurationError::DuplicateRegisterName);
        }
        match register_value(init_config, "CtrlReg1") {
            None => Err(ConfigurationError::ThermometerControlMissing),
            Some(ctrl_reg1) => {
                if ctrl_reg1.len() != 1 {
                    return Err(ConfigurationError::ThermometerControlLength);
                }
                Ok(Lps331ap { address: addr, ctrl_reg1_value: ctrl_reg1[0] })
            },
        }
    }
}

impl Thermometer for Lps331ap {
    open spec fn initializing(&self, replies: Seq<BusReply>) -> Progress<
        Result<(), ThermometerError>,
    > {
        lps331ap_initializing(self.address(), self.control(), replies)
    }

    open spec fn measuring(&self, replies: Seq<BusReply>) -> Progress<
        Result<i16, ThermometerError>,
    > {
        lps331ap_measuring(self.address(), replies)
    }

    fn initialize(&self, i2c: &I2cDevice, replies: &Vec<BusReply>) -> (step: Step<
        Result<(), ThermometerError>,
    >) {
        let who_am_i = match i2c.get_register(self.address, WHO_AM_I, 1, reply_at(replies, 0)) {
            Step::Issue(command) => return Step::Issue(command),
            Step::Finished(Err(e)) => return Step::Finished(
                Err(ThermometerError::IdentityRead(e)),
            ),
            Step::Finished(Ok(val)) => val[0],
        };
        if who_am_i != WHO_AM_I_VALUE {
            return Step::Finished(
                Err(
                    ThermometerError::IdentityMismatch {
                        expected: WHO_AM_I_VALUE,
                        observed: who_am_i,
                    },
                ),
            );
        }
        let mut control: Vec<u8> = Vec::new();
        control.push(self.ctrl_reg1_value);
        assert(control@ =~= seq![self.ctrl_reg1_value]);
        match i2c.write_register(self.address, CTRL_REG1, &control, reply_at(replies, 1)) {
            Step::Issue(command) => Step::Issue(command),
            Step::Finished(Err(e)) => Step::Finished(Err(ThermometerError::ControlWrite(e))),
            Step::Finished(Ok(_)) => Step::Finished(Ok(())),
        }
    }

    fn read_temperature(&self, i2c: &I2cDevice, replies: &Vec<BusReply>) -> (step: Step<
        Result<i16, ThermometerError>,
    >) {
        let temp_out_l = match i2c.get_register(self.address, TEMP_OUT_L, 1, reply_at(replies, 0)) {
            Step::Issue(command) => return Step::Issue(command),
            Step::Finished(Err(e)) => return Step::Finished(Err(ThermometerError::LowByteRead(e))),
            Step::Finished(Ok(val)) => val[0],
        };
        let temp_out_h = match i2c.get_register(self.address, TEMP_OUT_H, 1, reply_at(replies, 1)) {
            Step::Issue(command) => return Step::Issue(command),
            Step::Finished(Err(e)) => return Step::Finished(
                Err(ThermometerError::HighByteRead(e)),
            ),
            Step::Finished(Ok(val)) => val[0],
        };
        Step::Finished(Ok(raw_to_celsius(temp_out_l, temp_out_h)))
    }
}

/// The degrees of a raw temperature are the integer nearest to
/// `raw / 480 + 42.5`: they differ from it by at most one half, and by
/// exactly one half only on the side away from zero.
pub proof fn lemma_celsius_is_nearest(low: u8, high: u8)
    ensures
        ({
            let scaled = signed_sample(low, high) + 20400;
            let degrees = celsius(low, high);
            if scaled >= 0 {
                480 * degrees - 240 <= scaled < 480 * degrees + 240
            } else {
                480 * degrees - 240 < scaled <= 480 * degrees + 240
            }
        }),
        -26 <= celsius(low, high) <= 111,
{
}

/// A device that reports another identity than the expected one fails the
/// initialization, whatever follows: the control register is not written.
pub proof fn lemma_identity_mismatch_fails(address: u16, control: u8, replies: Seq<BusReply>)
    requires
        replies.len() >= 1,
        block_outcome(replies[0], WHO_AM_I, 1) matches Ok(bytes) && bytes[0] != WHO_AM_I_VALUE,
    ensures
        lps331ap_initializing(address, control, replies) == Progress::<
            Result<(), ThermometerError>,
        >::Finished(
            Err(
                ThermometerError::IdentityMismatch {
                    expected: WHO_AM_I_VALUE,
                    observed: block_outcome(replies[0], WHO_AM_I, 1)->Ok_0[0],
                },
            ),
        ),
{
}

/// The initialization succeeds exactly when the device reports the expected
/// identity and then accepts the control byte.
pub proof fn lemma_initialization_success(address: u16, control: u8, replies: Seq<BusReply>)
    ensures
        lps331ap_initializing(address, control, replies) == Progress::<
            Result<(), ThermometerError>,
        >::Finished(Ok(())) <==> {
            &&& replies.len() >= 2
            &&& block_outcome(replies[0], WHO_AM_I, 1) matches Ok(bytes)
            &&& bytes[0] == WHO_AM_I_VALUE
            &&& write_outcome(replies[1], CTRL_REG1) is Ok
        },
{
}

/// A failed read of either temperature byte ends the reading with the error
/// of that step.
pub proof fn lemma_failed_byte_ends_measurement(address: u16, replies: Seq<BusReply>)
    ensures
        replies.len() >= 1 && block_outcome(replies[0], TEMP_OUT_L, 1) is Err
            ==> lps331ap_measuring(address, replies) == Progress::<
            Result<i16, ThermometerError>,
        >::Finished(
            Err(ThermometerError::LowByteRead(block_outcome(replies[0], TEMP_OUT_L, 1)->Err_0)),
        ),
        replies.len() >= 2 && block_outcome(replies[0], TEMP_OUT_L, 1) is Ok && block_outcome(
            replies[1],
            TEMP_OUT_H,
            1,
        ) is Err ==> lps331ap_measuring(address, replies) == Progress::<
            Result<i16, ThermometerError>,
        >::Finished(
            Err(ThermometerError::HighByteRead(block_outcome(replies[1], TEMP_OUT_H, 1)->Err_0)),
        ),
{
}

/// Initialization and reading need at most two transfers each, and their
/// results do not depend on what the bus answers after they have ended.
pub proof fn lemma_thermometer_settles(
    address: u16,
    control: u8,
    replies: Seq<BusReply>,
    more: Seq<BusReply>,
)
    ensures
        replies.len() >= 2 ==> lps331ap_initializing(address, control, replies) is Finished,
        replies.len() >= 2 ==> lps331ap_measuring(address, replies) is Finished,
        lps331ap_initializing(address, control, replies) is Finished ==> lps331ap_initializing(
            address,
            control,
            replies + more,
        ) == lps331ap_initializing(address, control, replies),
        lps331ap_measuring(address, replies) is Finished ==> lps331ap_measuring(
            address,
            replies + more,
        ) == lps331ap_measuring(address, replies),
{
    let longer = replies + more;
    if replies.len() >= 1 {
        assert(longer[0] == replies[0]);
    }
    if replies.len() >= 2 {
        assert(longer[1] == replies[1]);
    }
}

} // verus!
