//! The bus transaction layer.
//!
//! The physical bus is driven by the caller. This layer says which transfer
//! has to be performed next (a [`BusCommand`]) and turns what the transfer
//! gave (a [`BusReply`]) into the result of a register operation. Every
//! command but the functionality query names the slave that has to be
//! selected before the transfer.

use vstd::prelude::*;
use crate::text::{decimal, decimal_string};

verus! {

/// Size of the scratch buffer that a block read fills.
pub const SCRATCH_LEN: usize = 4;

/// A transfer that the caller has to perform on the physical bus.
#[derive(Clone, Debug, PartialEq, Eq)]
pub enum BusCommand {
    /// Ask the adapter what it supports.
    Functionality,
    /// Select `slave_address`, then write `value` to `register`.
    Write { slave_address: u16, register: u8, value: Vec<u8> },
    /// Select `slave_address`, then read a block from `register` into the scratch buffer.
    ReadBlock { slave_address: u16, register: u8 },
    /// Select `slave_address`, then read one byte from `register`.
    ReadByte { slave_address: u16, register: u8 },
}

/// Mathematical model of a [`BusCommand`].
pub enum Command {
    Functionality,
    Write { slave_address: u16, register: u8, value: Seq<u8> },
    ReadBlock { slave_address: u16, register: u8 },
    ReadByte { slave_address: u16, register: u8 },
}

impl View for BusCommand {
    type V = Command;

    open spec fn view(&self) -> Command {
        match *self {
            BusCommand::Functionality => Command::Functionality,
            BusCommand::Write { slave_address, register, value } => Command::Write {
                slave_address,
                register,
                value: value@,
            },
            BusCommand::ReadBlock { slave_address, register } => Command::ReadBlock {
                slave_address,
                register,
            },
            BusCommand::ReadByte { slave_address, register } => Command::ReadByte {
                slave_address,
                register,
            },
        }
    }
}

/// What a transfer on the physical bus gave.
#[derive(Clone, Debug, PartialEq, Eq)]
pub enum BusReply {
    /// The slave address could not be selected; no transfer took place.
    AddressRejected,
    /// The adapter described what it supports.
    Functionality { descriptor: String },
    /// The functionality query failed for the given reason.
    FunctionalityFailed { reason: String },
    /// The write was accepted.
    Written,
    /// The write was rejected.
    WriteRejected,
    /// A block read put `size` bytes into the scratch buffer.
    Block { size: usize, buffer: [u8; 4] },
    /// A byte read gave `value`.
    Byte { value: u8 },
    /// The read was rejected.
    ReadRejected,
}

/// How a register transaction failed.
#[derive(Clone, Copy, Debug, PartialEq, Eq, Structural)]
pub enum Fault {
    /// The slave address could not be selected.
    AddressSelection,
    /// The transfer returned fewer bytes than were asked for.
    ShortRead,
    /// The read was rejected, or was answered by something that is no read.
    ReadFailed,
    /// The write was rejected, or was answered by something that is no write.
    WriteFailed,
}

/// A failed register transaction, with the register it was aimed at.
#[derive(Clone, Copy, Debug, PartialEq, Eq, Structural)]
pub struct TransactionError {
    pub fault: Fault,
    pub register: u8,
}

impl TransactionError {
    /// The message of this error.
    pub open spec fn text(self) -> Seq<char> {
        match self.fault {
            Fault::AddressSelection => "Error during setting slave address for "@ + decimal(
                self.register as nat,
            ),
            Fault::ShortRead => "Read less bytes than expected for "@ + decimal(
                self.register as nat,
            ),
            Fault::ReadFailed => "Read failed for "@ + decimal(self.register as nat),
            Fault::WriteFailed => "Write failed for "@ + decimal(self.register as nat),
        }
    }

    /// Renders the error as its message.
    pub fn to_string(&self) -> (s: String)
        ensures
            s@ == self.text(),
    {
        let prefix = match self.fault {
            Fault::AddressSelection => "Error during setting slave address for ",
            Fault::ShortRead => "Read less bytes than expected for ",
            Fault::ReadFailed => "Read failed for ",
            Fault::WriteFailed => "Write failed for ",
        };
        String::from_str(prefix).concat(decimal_string(self.register).as_str())
    }
}

/// The next thing to happen in an operation that needs the bus: either a
/// transfer that the caller must perform, or the operation's result.
#[derive(Debug, PartialEq, Eq)]
pub enum Step<T> {
    Issue(BusCommand),
    Finished(T),
}

/// Mathematical model of a [`Step`].
pub enum Progress<T> {
    Issue(Command),
    Finished(T),
}

impl<T> Step<T> {
    /// The model of a step whose result is a plain value.
    pub open spec fn model(self) -> Progress<T> {
        match self {
            Step::Issue(command) => Progress::Issue(command@),
            Step::Finished(value) => Progress::Finished(value),
        }
    }
}

/// The model of a step whose result is a text.
pub open spec fn text_model(step: Step<String>) -> Progress<Seq<char>> {
    match step {
        Step::Issue(command) => Progress::Issue(command@),
        Step::Finished(value) => Progress::Finished(value@),
    }
}

/// The model of a step whose result is a byte sequence.
pub open spec fn bytes_model(step: Step<Vec<u8>>) -> Progress<Seq<u8>> {
    match step {
        Step::Issue(command) => Progress::Issue(command@),
        Step::Finished(value) => Progress::Finished(value@),
    }
}

/// The reply at `index`, if the bus has answered that often.
pub open spec fn spec_reply_at(replies: Seq<BusReply>, index: int) -> Option<BusReply> {
    if 0 <= index < replies.len() {
        Some(replies[index])
    } else {
        None
    }
}

/// The reply at `index`, if the bus has answered that often.
pub fn reply_at(replies: &Vec<BusReply>, index: usize) -> (reply: Option<&BusReply>)
    ensures
        match reply {
            Some(r) => spec_reply_at(replies@, index as int) == Some(*r),
            None => spec_reply_at(replies@, index as int) is None,
        },
{
    if index < replies.len() {
        Some(&replies[index])
    } else {
        None
    }
}

/// What a functionality query gave: the adapter's descriptor, or the message
/// of the failure.
pub open spec fn functionality_outcome(reply: BusReply) -> Result<Seq<char>, Seq<char>> {
    match reply {
        BusReply::Functionality { descriptor } => Ok(descriptor@),
        BusReply::FunctionalityFailed { reason } => Err("I2C functionality error"@ + reason@),
        _ => Err("I2C functionality error"@),
    }
}

/// What a register write gave.
pub open spec fn write_outcome(reply: BusReply, register: u8) -> Result<(), TransactionError> {
    match reply {
        BusReply::Written => Ok(()),
        BusReply::AddressRejected => Err(
            TransactionError { fault: Fault::AddressSelection, register },
        ),
        _ => Err(TransactionError { fault: Fault::WriteFailed, register }),
    }
}

/// What a block read of `num_of_bytes` bytes gave: the first `num_of_bytes`
/// bytes of the scratch buffer, if the transfer returned at least that many.
pub open spec fn block_outcome(reply: BusReply, register: u8, num_of_bytes: nat) -> Result<
    Seq<u8>,
    TransactionError,
> {
    match reply {
        BusReply::Block { size, buffer } => if size < num_of_bytes {
            Err(TransactionError { fault: Fault::ShortRead, register })
        } else {
            Ok(buffer@.subrange(0, num_of_bytes as int))
        },
        BusReply::AddressRejected => Err(
            TransactionError { fault: Fault::AddressSelection, register },
        ),
        _ => Err(TransactionError { fault: Fault::ReadFailed, register }),
    }
}

/// What a byte read gave.
pub open spec fn byte_outcome(reply: BusReply, register: u8) -> Result<u8, TransactionError> {
    match reply {
        BusReply::Byte { value } => Ok(value),
        BusReply::AddressRejected => Err(
            TransactionError { fault: Fault::AddressSelection, register },
        ),
        _ => Err(TransactionError { fault: Fault::ReadFailed, register }),
    }
}

/// The model of the result of a functionality query.
pub open spec fn text_result(result: Result<String, String>) -> Result<Seq<char>, Seq<char>> {
    match result {
        Ok(text) => Ok(text@),
        Err(text) => Err(text@),
    }
}

/// The model of the result of a block read.
pub open spec fn bytes_result(result: Result<Vec<u8>, TransactionError>) -> Result<
    Seq<u8>,
    TransactionError,
> {
    match result {
        Ok(bytes) => Ok(bytes@),
        Err(error) => Err(error),
    }
}

/// The static side of the bus: the path of the device that the caller opens.
#[derive(Debug)]
pub struct I2cDevice {
    dev_path: String,
}

impl I2cDevice {
    pub closed spec fn path(&self) -> Seq<char> {
        self.dev_path@
    }

    pub fn new(device_path: String) -> (device: I2cDevice)
        ensures
            device.path() == device_path@,
    {
        I2cDevice { dev_path: device_path }
    }

    pub fn dev_path(&self) -> (path: &String)
        ensures
            path@ == self.path(),
    {
        &self.dev_path
    }

    /// Queries what the adapter supports. Without a reply the query is issued;
    /// with one, the descriptor or the failure message is the result.
    pub fn functionality(&self, reply: Option<&BusReply>) -> (step: Step<Result<String, String>>)
        ensures
            match reply {
                None => step matches Step::Issue(command) && command@ == Command::Functionality,
                Some(r) => step matches Step::Finished(result) && text_result(result)
                    == functionality_outcome(*r),
            },
    {
        match reply {
            None => Step::Issue(BusCommand::Functionality),
            Some(BusReply::Functionality { descriptor }) => Step::Finished(Ok(descriptor.clone())),
            Some(BusReply::FunctionalityFailed { reason }) => Step::Finished(
                Err(String::from_str("I2C functionality error").concat(reason.as_str())),
            ),
            Some(_) => Step::Finished(Err(String::from_str("I2C functionality error"))),
        }
    }

    /// Writes `value` to `register` of the slave at `slave_address`.
    pub fn write_register(
        &self,
        slave_address: u16,
        register: u8,
        value: &Vec<u8>,
        reply: Option<&BusReply>,
    ) -> (step: Step<Result<(), TransactionError>>)
        ensures
            match reply {
                None => step matches Step::Issue(command) && command@ == (Command::Write {
                    slave_address,
                    register,
                    value: value@,
                }),
                Some(r) => step matches Step::Finished(result) && result == write_outcome(
                    *r,
                    register,
                ),
            },
    {
        match reply {
            None => Step::Issue(
                BusCommand::Write { slave_address, register, value: value.clone() },
            ),
            Some(BusReply::Written) => Step::Finished(Ok(())),
            Some(BusReply::AddressRejected) => Step::Finished(
                Err(TransactionError { fault: Fault::AddressSelection, register }),
            ),
            Some(_) => Step::Finished(
                Err(TransactionError { fault: Fault::WriteFailed, register }),
            ),
        }
    }

    /// Reads `num_of_bytes` bytes from `register` of the slave at
    /// `slave_address`. A transfer that returned fewer bytes is an error,
    /// however many were asked for. Callers ask for no more bytes than the
    /// scratch buffer holds: a transfer that returned as many bytes as were
    /// asked for must fit it.
    pub fn get_register(
        &self,
        slave_address: u16,
        register: u8,
        num_of_bytes: usize,
        reply: Option<&BusReply>,
    ) -> (step: Step<Result<Vec<u8>, TransactionError>>)
        requires
            reply matches Some(BusReply::Block { size, .. }) && size >= num_of_bytes
                ==> num_of_bytes <= SCRATCH_LEN,
        ensures
            match reply {
                None => step matches Step::Issue(command) && command@ == (Command::ReadBlock {
                    slave_address,
                    register,
                }),
                Some(r) => step matches Step::Finished(result) && bytes_result(result)
                    == block_outcome(*r, register, num_of_bytes as nat),
            },
    {
        match reply {
            None => Step::Issue(BusCommand::ReadBlock { slave_address, register }),
            Some(BusReply::Block { size, buffer }) => {
                if *size < num_of_bytes {
                    return Step::Finished(
                        Err(TransactionError { fault: Fault::ShortRead, register }),
                    );
                }
                let mut bytes: Vec<u8> = Vec::new();
                let mut i: usize = 0;
                while i < num_of_bytes
                    invariant
                        i <= num_of_bytes <= SCRATCH_LEN,
                        bytes@ == buffer@.subrange(0, i as int),
                    decreases num_of_bytes - i,
                {
                    bytes.push(buffer[i]);
                    i = i + 1;
                }
                Step::Finished(Ok(bytes))
            },
            Some(BusReply::AddressRejected) => Step::Finished(
                Err(TransactionError { fault: Fault::AddressSelection, register }),
            ),
            Some(_) => Step::Finished(Err(TransactionError { fault: Fault::ReadFailed, register })),
        }
    }

    /// Reads one byte from `register` of the slave at `slave_address`.
    pub fn get_byte_from_register(
        &self,
        slave_address: u16,
        register: u8,
        reply: Option<&BusReply>,
    ) -> (step: Step<Result<u8, TransactionError>>)
        ensures
            match reply {
                None => step matches Step::Issue(command) && command@ == (Command::ReadByte {
                    slave_address,
                    register,
                }),
                Some(r) => step matches Step::Finished(result) && result == byte_outcome(
                    *r,
                    register,
                ),
            },
    {
        match reply {
            None => Step::Issue(BusCommand::ReadByte { slave_address, register }),
            Some(BusReply::Byte { value }) => Step::Finished(Ok(*value)),
            Some(BusReply::AddressRejected) => Step::Finished(
                Err(TransactionError { fault: Fault::AddressSelection, register }),
            ),
            Some(_) => Step::Finished(Err(TransactionError { fault: Fault::ReadFailed, register })),
        }
    }
}

/// A transfer that returned fewer bytes than requested never gives bytes,
/// however many were requested: the read fails with a short-read error that
/// carries the register, and whose message names it.
pub proof fn lemma_short_read_is_error(
    size: usize,
    buffer: [u8; 4],
    register: u8,
    num_of_bytes: nat,
)
    requires
        size < num_of_bytes,
    ensures
        block_outcome(BusReply::Block { size, buffer }, register, num_of_bytes) == Err::<
            Seq<u8>,
            TransactionError,
        >(TransactionError { fault: Fault::ShortRead, register }),
        (TransactionError { fault: Fault::ShortRead, register }).text()
            == "Read less bytes than expected for "@ + decimal(register as nat),
{
}

/// A successful block read gives exactly the number of bytes requested.
pub proof fn lemma_block_read_length(reply: BusReply, register: u8, num_of_bytes: nat)
    requires
        num_of_bytes <= SCRATCH_LEN,
    ensures
        block_outcome(reply, register, num_of_bytes) matches Ok(bytes) ==> {
            &&& bytes.len() == num_of_bytes
            &&& reply matches BusReply::Block { size, .. }
            &&& size >= num_of_bytes
        },
{
}

} // verus!
