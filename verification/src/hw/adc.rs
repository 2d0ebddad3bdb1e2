//! The ADC capability and its ADS1115 driver.

use vstd::prelude::*;
use crate::app_context::{
    has_unique_names, names_are_unique, register_value, spec_register_value, ConfigurationError,
};
use crate::hw::bits::{
    bits, bits_from_bytes, bits_of_bytes, bits_to_bytes, bit_of_byte, byte_of_bits, set_bit,
};
use crate::hw::i2c_mgmt::{
    block_outcome, reply_at, write_outcome, BusReply, Command, I2cDevice, Progress, Step,
    TransactionError,
};

verus! {

/// Address of the ADS1115's configuration register.
pub const CONFIG_REGISTER: u8 = 0x01;

/// Address of the ADS1115's conversion register.
pub const CONVERSION_REGISTER: u8 = 0x00;

/// The largest raw sample of the positive input range.
pub const FULL_SCALE_RAW: u32 = 32767;

/// Why a sample could not be taken.
#[derive(Clone, Copy, Debug, PartialEq, Eq, Structural)]
pub enum AdcError {
    /// The channel is not one of 0 to 7.
    InvalidChannel,
    /// The configuration word could not be written.
    ConfigWrite(TransactionError),
    /// The conversion register could not be read.
    Conversion(TransactionError),
}

impl AdcError {
    /// The message of this error.
    pub open spec fn text(self) -> Seq<char> {
        match self {
            AdcError::InvalidChannel => "Invalid channel for ADS1115"@,
            AdcError::ConfigWrite(e) => "Failed to write config to ADS1115: "@ + e.text(),
            AdcError::Conversion(e) => e.text(),
        }
    }

    /// Renders the error as its message.
    pub fn to_string(&self) -> (s: String)
        ensures
            s@ == self.text(),
    {
        match self {
            AdcError::InvalidChannel => String::from_str("Invalid channel for ADS1115"),
            AdcError::ConfigWrite(e) => String::from_str(
                "Failed to write config to ADS1115: ",
            ).concat(e.to_string().as_str()),
            AdcError::Conversion(e) => e.to_string(),
        }
    }
}

/// An analog-to-digital converter: it samples a channel and converts a raw
/// sample to millivolts.
pub trait Adc {
    /// How far the sampling of `channel` has come after `replies`.
    spec fn sampling(&self, channel: u8, replies: Seq<BusReply>) -> Progress<Result<u16, AdcError>>;

    /// The millivolts that a raw sample stands for.
    spec fn millivolts(&self, raw_val: u16) -> u16;

    /// Samples `channel`: names the next transfer, or gives the raw sample.
    fn read_val(&self, i2c: &I2cDevice, channel: u8, replies: &Vec<BusReply>) -> (step: Step<
        Result<u16, AdcError>,
    >)
        ensures
            step.model() == self.sampling(channel, replies@),
    ;

    /// Converts a raw sample to millivolts.
    fn raw_to_voltage(&self, raw_val: u16) -> (millivolts: u16)
        ensures
            millivolts == self.millivolts(raw_val),
    ;
}

/// The gain selector of a configuration byte: bit 1 of the byte is bit 0 of
/// the code, bit 2 is bit 1, bit 3 is bit 2.
pub open spec fn gain_code(seed: u8) -> u8 {
    ((if seed & 0x02 != 0 {
        1int
    } else {
        0int
    }) + (if seed & 0x04 != 0 {
        2int
    } else {
        0int
    }) + (if seed & 0x08 != 0 {
        4int
    } else {
        0int
    })) as u8
}

/// The full-scale range, in millivolts, that a gain code selects.
pub open spec fn full_scale_millivolts(pga: u8) -> u16 {
    if pga == 0 {
        6144
    } else if pga == 1 {
        4096
    } else if pga == 2 {
        2048
    } else if pga == 3 {
        1024
    } else if pga == 4 {
        512
    } else if pga == 5 {
        256
    } else {
        2048
    }
}

/// The millivolts of a raw sample under a configuration byte: the sample's
/// share of 32767, times the full-scale range, truncated.
pub open spec fn spec_raw_to_voltage(seed: u8, raw_val: u16) -> int {
    (raw_val as int * full_scale_millivolts(gain_code(seed)) as int) / 32767
}

/// The first byte of the configuration word for one read: bits 4 to 6 hold
/// the channel, the others are those of the seed byte.
pub open spec fn mux_byte(seed: u8, channel: u8) -> u8 {
    (seed & 0b1000_1111) | (channel << 4)
}

/// The configuration word for one read of `channel`.
pub open spec fn mux_config(channel: u8, base_config: Seq<u8>) -> Seq<u8> {
    base_config.update(0, mux_byte(base_config[0], channel))
}

/// The sample that two bytes hold, the first the more significant.
pub open spec fn big_endian(high: u8, low: u8) -> u16 {
    (high as int * 256 + low as int) as u16
}

/// How far a sampling of the ADS1115 at `address` with the seed word `seed`
/// has come after `replies`: the channel is checked, the configuration word
/// is written, the conversion register is read.
pub open spec fn ads1115_sampling(
    address: u16,
    seed: Seq<u8>,
    channel: u8,
    replies: Seq<BusReply>,
) -> Progress<Result<u16, AdcError>> {
    if channel > 7 {
        Progress::Finished(Err(AdcError::InvalidChannel))
    } else if replies.len() == 0 {
        Progress::Issue(
            Command::Write {
                slave_address: address,
                register: CONFIG_REGISTER,
                value: mux_config(channel, seed),
            },
        )
    } else {
        match write_outcome(replies[0], CONFIG_REGISTER) {
            Err(e) => Progress::Finished(Err(AdcError::ConfigWrite(e))),
            Ok(_) => if replies.len() == 1 {
                Progress::Issue(
                    Command::ReadBlock { slave_address: address, register: CONVERSION_REGISTER },
                )
            } else {
                match block_outcome(replies[1], CONVERSION_REGISTER, 2) {
                    Err(e) => Progress::Finished(Err(AdcError::Conversion(e))),
                    Ok(bytes) => Progress::Finished(Ok(big_endian(bytes[0], bytes[1]))),
                }
            },
        }
    }
}

/// The full-scale range, in millivolts, that a gain code selects. Codes
/// without a range of their own select 2048.
pub fn pga_to_fsr(pga: u8) -> (range: u16)
    ensures
        range == full_scale_millivolts(pga),
{
    match pga {
        0b000 => 6144,
        0b001 => 4096,
        0b010 => 2048,
        0b011 => 1024,
        0b100 => 512,
        0b101 => 256,
        _ => 2048,
    }
}

/// The configuration word for one read of `channel`: the seed word with bits
/// 4 to 6 of its first byte replaced by the channel. The word must not be
/// empty. A channel above 7 does not fit the three bits and spills into bit 7.
pub fn config_for_mux(channel: u8, base_config: &Vec<u8>) -> (config: Vec<u8>)
    requires
        base_config.len() >= 1,
    ensures
        config@ == mux_config(channel, base_config@),
{
    let mut config = base_config.clone();
    let first = (config[0] & 0b1000_1111) | (channel << 4);
    config.set(0, first);
    assert(config@ =~= mux_config(channel, base_config@));
    config
}

/// Driver of the ADS1115.
#[derive(Debug)]
pub struct Ads1115 {
    address: u16,
    config_value: Vec<u8>,
}

impl Ads1115 {
    #[verifier::type_invariant]
    spec fn well_formed(self) -> bool {
        self.config_value@.len() == 2
    }

    /// The bus address of the device.
    pub closed spec fn address(self) -> u16 {
        self.address
    }

    /// The seed configuration word.
    pub closed spec fn seed(self) -> Seq<u8> {
        self.config_value@
    }

    /// Builds the driver from the seed values of the device's registers. No
    /// name may occur twice in the map, and it must hold a two-byte value
    /// named "Config".
    pub fn new(addr: u16, init_config: &Vec<(String, Vec<u8>)>) -> (made: Result<
        Ads1115,
        ConfigurationError,
    >)
        ensures
            if !names_are_unique(init_config@) {
                made matches Err(e) && e == ConfigurationError::DuplicateRegisterName
            } else {
                match spec_register_value(init_config@, "Config"@) {
                    None => made matches Err(e) && e == ConfigurationError::AdcConfigMissing,
                    Some(bytes) => if bytes.len() == 2 {
                        made matches Ok(adc) && adc.address() == addr && adc.seed() == bytes
                    } else {
                        made matches Err(e) && e == ConfigurationError::AdcConfigLength
                    },
                }
            },
    {
        if !has_unique_names(init_config) {
            return Err(ConfigurationError::DuplicateRegisterName);
        }
        match register_value(init_config, "Config") {
            None => Err(ConfigurationError::AdcConfigMissing),
            Some(config) => {
                if config.len() != 2 {
                    return Err(ConfigurationError::AdcConfigLength);
                }
                let mut config_value: Vec<u8> = Vec::new();
                config_value.push(config[0]);
                config_value.push(config[1]);
                assert(config_value@ =~= config@);
                Ok(Ads1115 { address: addr, config_value })
            },
        }
    }

    /// The seed configuration word, which has two bytes.
    pub fn config_value(&self) -> (word: &Vec<u8>)
        ensures
            word@ == self.seed(),
            self.seed().len() == 2,
    {
        proof {
            use_type_invariant(self);
        }
        &self.config_value
    }

    /// Reads the gain selector out of the seed configuration.
    fn gain(&self) -> (code: u8)
        ensures
            self.seed().len() == 2,
            code == gain_code(self.seed()[0]),
    {
        proof {
            use_type_invariant(self);
        }
        let seed = self.config_value[0];
        let zero: [u8; 1] = [0x00];
        let mut pga_bitset = bits_from_bytes(zero.as_slice());
        set_bit(&mut pga_bitset, 5, (seed & 0x08) != 0);
        set_bit(&mut pga_bitset, 6, (seed & 0x04) != 0);
        set_bit(&mut pga_bitset, 7, (seed & 0x02) != 0);
        let bytes = bits_to_bytes(&pga_bitset);
        proof {
            let clear = bits_of_bytes(zero@);
            assert(clear.len() == 8);
            assert forall|i: int| 0 <= i < 8 implies !clear[i] by {
                assert(!bit_of_byte(0u8, i)) by {
                    let shift = (7 - i) as u8;
                    assert((0u8 >> shift) & 1 == 0) by (bit_vector);
                }
            }
            let held = bits(pga_bitset);
            assert(held.len() == 8);
            assert(bytes@.len() == 1);
            assert(bytes@[0] == byte_of_bits(held, 0));
        }
        bytes[0]
    }
}

impl Adc for Ads1115 {
    open spec fn sampling(&self, channel: u8, replies: Seq<BusReply>) -> Progress<
        Result<u16, AdcError>,
    > {
        ads1115_sampling(self.address(), self.seed(), channel, replies)
    }

    open spec fn millivolts(&self, raw_val: u16) -> u16 {
        spec_raw_to_voltage(self.seed()[0], raw_val) as u16
    }

    fn read_val(&self, i2c: &I2cDevice, channel: u8, replies: &Vec<BusReply>) -> (step: Step<
        Result<u16, AdcError>,
    >)
        ensures
            self.seed().len() == 2,
    {
        proof {
            use_type_invariant(self);
        }
        if channel > 7 {
            return Step::Finished(Err(AdcError::InvalidChannel));
        }
        let config_value = config_for_mux(channel, &self.config_value);
        match i2c.write_register(
            self.address,
            CONFIG_REGISTER,
            &config_value,
            reply_at(replies, 0),
        ) {
            Step::Issue(command) => return Step::Issue(command),
            Step::Finished(Err(e)) => return Step::Finished(Err(AdcError::ConfigWrite(e))),
            Step::Finished(Ok(_)) => (),
        }
        match i2c.get_register(self.address, CONVERSION_REGISTER, 2, reply_at(replies, 1)) {
            Step::Issue(command) => Step::Issue(command),
            Step::Finished(Err(e)) => Step::Finished(Err(AdcError::Conversion(e))),
            Step::Finished(Ok(raw_bytes)) => {
                let raw = (raw_bytes[0] as u16) * 256 + (raw_bytes[1] as u16);
                Step::Finished(Ok(raw))
            },
        }
    }

    fn raw_to_voltage(&self, raw_val: u16) -> (millivolts: u16)
        ensures
            self.seed().len() == 2,
            millivolts == spec_raw_to_voltage(self.seed()[0], raw_val),
    {
        proof {
            lemma_voltage_is_bounded(self.config_value@[0], raw_val);
        }
        let range = pga_to_fsr(self.gain());
        let scaled: u32 = raw_val as u32 * range as u32;
        (scaled / FULL_SCALE_RAW) as u16
    }
}

/// The configuration word for a read of a channel from 0 to 7 is the seed
/// word with bits 4 to 6 of its first byte replaced by the channel: those
/// three bits hold the channel, every other bit of the byte and every other
/// byte are those of the seed.
pub proof fn lemma_mux_config_replaces_channel_bits(channel: u8, base_config: Seq<u8>)
    requires
        channel <= 7,
        base_config.len() >= 1,
    ensures
        mux_config(channel, base_config).len() == base_config.len(),
        (mux_config(channel, base_config)[0] & 0b0111_0000) >> 4 == channel,
        mux_config(channel, base_config)[0] & 0b1000_1111 == base_config[0] & 0b1000_1111,
        forall|i: int|
            1 <= i < base_config.len() ==> #[trigger] mux_config(channel, base_config)[i]
                == base_config[i],
{
    let seed = base_config[0];
    assert(((((seed & 0b1000_1111) | (channel << 4)) & 0b0111_0000) >> 4) == channel
        && (((seed & 0b1000_1111) | (channel << 4)) & 0b1000_1111) == seed & 0b1000_1111)
        by (bit_vector)
        requires
            channel <= 7,
    ;
}

/// The sampling of a channel from 0 to 7 starts by writing the configuration
/// word of that channel to the configuration register.
pub proof fn lemma_sampling_starts_with_config_write(address: u16, seed: Seq<u8>, channel: u8)
    requires
        channel <= 7,
    ensures
        ads1115_sampling(address, seed, channel, Seq::empty()) == Progress::<
            Result<u16, AdcError>,
        >::Issue(
            Command::Write {
                slave_address: address,
                register: CONFIG_REGISTER,
                value: mux_config(channel, seed),
            },
        ),
{
}

/// A channel above 7 is rejected whatever the bus has answered, so also
/// before any transfer.
pub proof fn lemma_invalid_channel_is_rejected(
    address: u16,
    seed: Seq<u8>,
    channel: u8,
    replies: Seq<BusReply>,
)
    requires
        channel > 7,
    ensures
        ads1115_sampling(address, seed, channel, replies) == Progress::<
            Result<u16, AdcError>,
        >::Finished(Err(AdcError::InvalidChannel)),
{
}

/// A failed write of the configuration word ends the sampling: the
/// conversion register is not read.
pub proof fn lemma_config_write_failure_ends_sampling(
    address: u16,
    seed: Seq<u8>,
    channel: u8,
    replies: Seq<BusReply>,
)
    requires
        channel <= 7,
        replies.len() >= 1,
        write_outcome(replies[0], CONFIG_REGISTER) is Err,
    ensures
        ads1115_sampling(address, seed, channel, replies) == Progress::<
            Result<u16, AdcError>,
        >::Finished(Err(AdcError::ConfigWrite(write_outcome(replies[0], CONFIG_REGISTER)->Err_0))),
{
}

/// A sampling needs at most two transfers, and its result does not depend
/// on what the bus answers after it has ended.
pub proof fn lemma_sampling_settles(
    address: u16,
    seed: Seq<u8>,
    channel: u8,
    replies: Seq<BusReply>,
    more: Seq<BusReply>,
)
    ensures
        replies.len() >= 2 ==> ads1115_sampling(address, seed, channel, replies) is Finished,
        ads1115_sampling(address, seed, channel, replies) is Finished ==> ads1115_sampling(
            address,
            seed,
            channel,
            replies + more,
        ) == ads1115_sampling(address, seed, channel, replies),
{
    let longer = replies + more;
    if replies.len() >= 1 {
        assert(longer[0] == replies[0]);
    }
    if replies.len() >= 2 {
        assert(longer[1] == replies[1]);
    }
}

/// The gain selector is the three-bit field in bits 1 to 3 of the
/// configuration byte.
pub proof fn lemma_gain_code_is_bit_field(seed: u8)
    ensures
        gain_code(seed) == (seed >> 1) & 0x07,
        gain_code(seed) <= 7,
{
    assert(seed & 0x02 != 0 <==> ((seed >> 1) & 0x07) & 1 == 1) by (bit_vector);
    assert(seed & 0x04 != 0 <==> ((seed >> 1) & 0x07) & 2 == 2) by (bit_vector);
    assert(seed & 0x08 != 0 <==> ((seed >> 1) & 0x07) & 4 == 4) by (bit_vector);
    let field = (seed >> 1) & 0x07;
    assert(((seed >> 1) & 0x07) <= 7) by (bit_vector);
    assert(field == (if field & 1 == 1 {
        1u8
    } else {
        0u8
    }) + (if field & 2 == 2 {
        2u8
    } else {
        0u8
    }) + (if field & 4 == 4 {
        4u8
    } else {
        0u8
    })) by (bit_vector)
        requires
            field <= 7,
    ;
}

/// Every gain code selects a range: the codes 0 to 5 the ranges 6144, 4096,
/// 2048, 1024, 512 and 256 millivolts, every other code 2048 millivolts. So
/// every configuration byte selects one of these six ranges.
pub proof fn lemma_full_scale_is_total(pga: u8, seed: u8)
    ensures
        pga == 0 ==> full_scale_millivolts(pga) == 6144,
        pga == 1 ==> full_scale_millivolts(pga) == 4096,
        pga == 2 ==> full_scale_millivolts(pga) == 2048,
        pga == 3 ==> full_scale_millivolts(pga) == 1024,
        pga == 4 ==> full_scale_millivolts(pga) == 512,
        pga == 5 ==> full_scale_millivolts(pga) == 256,
        pga >= 6 ==> full_scale_millivolts(pga) == 2048,
        256 <= full_scale_millivolts(gain_code(seed)) <= 6144,
        set![6144u16, 4096u16, 2048u16, 1024u16, 512u16, 256u16].contains(
            full_scale_millivolts(gain_code(seed)),
        ),
{
}

/// The millivolts of a sample never exceed twice the largest full-scale
/// range, so they fit the sixteen bits of the result.
pub proof fn lemma_voltage_is_bounded(seed: u8, raw_val: u16)
    ensures
        0 <= spec_raw_to_voltage(seed, raw_val) <= 12288,
{
    lemma_full_scale_is_total(0, seed);
    let range = full_scale_millivolts(gain_code(seed)) as int;
    assert(0 <= raw_val as int * range <= 65535 * 6144) by (nonlinear_arith)
        requires
            0 <= raw_val as int <= 65535,
            0 <= range <= 6144,
    ;
}

/// Under one configuration byte, a larger raw sample never gives fewer
/// millivolts.
pub proof fn lemma_voltage_is_monotonic(seed: u8, smaller: u16, larger: u16)
    requires
        smaller <= larger,
    ensures
        spec_raw_to_voltage(seed, smaller) <= spec_raw_to_voltage(seed, larger),
{
    let range = full_scale_millivolts(gain_code(seed)) as int;
    assert(smaller as int * range <= larger as int * range) by (nonlinear_arith)
        requires
            smaller <= larger,
            range >= 0,
    ;
}

/// What the driver converts is monotonic too: a larger raw sample never
/// gives fewer millivolts.
pub proof fn lemma_millivolts_is_monotonic(adc: Ads1115, smaller: u16, larger: u16)
    requires
        smaller <= larger,
    ensures
        adc.millivolts(smaller) <= adc.millivolts(larger),
        adc.millivolts(larger) <= 12288,
{
    lemma_voltage_is_bounded(adc.seed()[0], smaller);
    lemma_voltage_is_bounded(adc.seed()[0], larger);
    lemma_voltage_is_monotonic(adc.seed()[0], smaller, larger);
}

} // verus!
