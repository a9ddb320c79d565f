//! The codes that the serial port driver and its clients exchange, and the
//! settings of the port.

use vstd::prelude::*;

verus! {

/// The first of the response codes that tell that the server died.
pub const FIRST_DEAD_CODE: u32 = 0xffff_ff00;

/// Errors of the serial port.
#[derive(Copy, Clone, Debug, PartialEq, Eq, Structural)]
pub enum Error {
    Frame,
    Parity,
    Noise,
    BufFull,
}

/// The cause of an interrupt, as the interrupt identification register
/// encodes it.
#[derive(Copy, Clone, Debug, PartialEq, Eq, Structural)]
pub enum InterruptDecoding {
    ModemStatusChange,
    TxEmpty,
    RxDataAvailable,
    LineStatusChange,
    CharacterTimeout,
    Unknown,
}

impl InterruptDecoding {
    /// The cause that the low three bits of `value` encode, if they encode
    /// one.
    pub open spec fn decode(value: u8) -> Option<InterruptDecoding> {
        let low = value % 8;
        if low == 0 {
            Some(InterruptDecoding::ModemStatusChange)
        } else if low == 1 {
            Some(InterruptDecoding::TxEmpty)
        } else if low == 2 {
            Some(InterruptDecoding::RxDataAvailable)
        } else if low == 3 {
            Some(InterruptDecoding::LineStatusChange)
        } else if low == 6 {
            Some(InterruptDecoding::CharacterTimeout)
        } else {
            None
        }
    }

    /// The cause that the low three bits of `value` encode; `Unknown` where
    /// they encode none.
    pub fn from_status(value: u8) -> (cause: InterruptDecoding)
        ensures
            cause == (match InterruptDecoding::decode(value) {
                Some(c) => c,
                None => InterruptDecoding::Unknown,
            }),
    {
        match InterruptDecoding::try_from(value) {
            Ok(c) => c,
            Err(_) => InterruptDecoding::Unknown,
        }
    }
}

impl TryFrom<u8> for InterruptDecoding {
    type Error = ();

    fn try_from(value: u8) -> (r: Result<Self, ()>) {
        assert(value & 0x07 == value % 8) by (bit_vector);
        match value & 0x07 {
            0 => Ok(InterruptDecoding::ModemStatusChange),
            1 => Ok(InterruptDecoding::TxEmpty),
            2 => Ok(InterruptDecoding::RxDataAvailable),
            3 => Ok(InterruptDecoding::LineStatusChange),
            6 => Ok(InterruptDecoding::CharacterTimeout),
            _ => Err(()),
        }
    }
}

impl vstd::std_specs::convert::TryFromSpecImpl<u8> for InterruptDecoding {
    open spec fn obeys_try_from_spec() -> bool {
        true
    }

    open spec fn try_from_spec(value: u8) -> Result<Self, ()> {
        match InterruptDecoding::decode(value) {
            Some(c) => Ok(c),
            None => Err(()),
        }
    }
}

/// Receiver FIFO interrupt trigger level.
#[derive(Copy, Clone, Debug, PartialEq, Eq, Structural)]
pub enum FifoTriggerLevel {
    OneByte,
    FourByte,
    EightByte,
    FourteenByte,
}

impl FifoTriggerLevel {
    /// The two bits that select the level in the FIFO control register.
    pub fn bits(self) -> (b: u8)
        ensures
            b == (match self {
                FifoTriggerLevel::OneByte => 0u8,
                FifoTriggerLevel::FourByte => 1u8,
                FifoTriggerLevel::EightByte => 2u8,
                FifoTriggerLevel::FourteenByte => 3u8,
            }),
    {
        match self {
            FifoTriggerLevel::OneByte => 0b00,
            FifoTriggerLevel::FourByte => 0b01,
            FifoTriggerLevel::EightByte => 0b10,
            FifoTriggerLevel::FourteenByte => 0b11,
        }
    }
}

/// The baud rates the port can be set to.
#[derive(Copy, Clone, Debug, PartialEq, Eq, Structural)]
pub enum Rate {
    Baud9600,
    Baud19200,
    MBaud1_5,
}

impl Rate {
    /// The divisor latch for the rate, high byte and low byte, with the
    /// port's clock at 24 MHz.
    pub fn divisor(self) -> (latch: (u8, u8))
        ensures
            latch == (match self {
                Rate::Baud9600 => (0u8, 12u8),
                Rate::Baud19200 => (0u8, 6u8),
                Rate::MBaud1_5 => (0u8, 1u8),
            }),
    {
        match self {
            Rate::Baud9600 => (0, 12),
            Rate::Baud19200 => (0, 6),
            Rate::MBaud1_5 => (0, 1),
        }
    }
}

/// The operations of the driver.
#[derive(Copy, Clone, Debug, PartialEq, Eq, Structural)]
pub enum OpCode {
    Write,
    Read,
    EnableRxNotification,
    DisableRxNotification,
}

impl OpCode {
    /// The number of the operation.
    pub open spec fn spec_code(self) -> u16 {
        match self {
            OpCode::Write => 1,
            OpCode::Read => 2,
            OpCode::EnableRxNotification => 3,
            OpCode::DisableRxNotification => 4,
        }
    }

    /// The number of the operation.
    pub fn code(self) -> (c: u16)
        ensures
            c == self.spec_code(),
    {
        match self {
            OpCode::Write => 1,
            OpCode::Read => 2,
            OpCode::EnableRxNotification => 3,
            OpCode::DisableRxNotification => 4,
        }
    }
}

impl TryFrom<u32> for OpCode {
    type Error = ();

    fn try_from(value: u32) -> (r: Result<Self, ()>) {
        match value {
            1 => Ok(OpCode::Write),
            2 => Ok(OpCode::Read),
            3 => Ok(OpCode::EnableRxNotification),
            4 => Ok(OpCode::DisableRxNotification),
            _ => Err(()),
        }
    }
}

impl vstd::std_specs::convert::TryFromSpecImpl<u32> for OpCode {
    open spec fn obeys_try_from_spec() -> bool {
        true
    }

    open spec fn try_from_spec(value: u32) -> Result<Self, ()> {
        if value == 1 {
            Ok(OpCode::Write)
        } else if value == 2 {
            Ok(OpCode::Read)
        } else if value == 3 {
            Ok(OpCode::EnableRxNotification)
        } else if value == 4 {
            Ok(OpCode::DisableRxNotification)
        } else {
            Err(())
        }
    }
}

/// The answers of the driver.
#[derive(Copy, Clone, Debug, PartialEq, Eq, Structural)]
pub enum ResponseCode {
    Success,
    BadOp,
    BadArg,
    Busy,
    WouldBlock,
    Overflow,
    ServerDeath,
}

impl ResponseCode {
    /// The number of the answer. The death of the server has many numbers;
    /// this is the first of them.
    pub open spec fn spec_code(self) -> u32 {
        match self {
            ResponseCode::Success => 0,
            ResponseCode::BadOp => 1,
            ResponseCode::BadArg => 2,
            ResponseCode::Busy => 3,
            ResponseCode::WouldBlock => 4,
            ResponseCode::Overflow => 5,
            ResponseCode::ServerDeath => FIRST_DEAD_CODE,
        }
    }

    /// The number of the answer.
    pub fn code(self) -> (c: u32)
        ensures
            c == self.spec_code(),
            ResponseCode::decode(c) == Some(self),
    {
        match self {
            ResponseCode::Success => 0,
            ResponseCode::BadOp => 1,
            ResponseCode::BadArg => 2,
            ResponseCode::Busy => 3,
            ResponseCode::WouldBlock => 4,
            ResponseCode::Overflow => 5,
            ResponseCode::ServerDeath => FIRST_DEAD_CODE,
        }
    }

    /// The answer that a number stands for, if it stands for one. Every
    /// number from `FIRST_DEAD_CODE` on tells that the server died.
    pub open spec fn decode(value: u32) -> Option<ResponseCode> {
        if value == 0 {
            Some(ResponseCode::Success)
        } else if value == 1 {
            Some(ResponseCode::BadOp)
        } else if value == 2 {
            Some(ResponseCode::BadArg)
        } else if value == 3 {
            Some(ResponseCode::Busy)
        } else if value == 4 {
            Some(ResponseCode::WouldBlock)
        } else if value == 5 {
            Some(ResponseCode::Overflow)
        } else if value >= FIRST_DEAD_CODE {
            Some(ResponseCode::ServerDeath)
        } else {
            None
        }
    }
}

impl TryFrom<u32> for ResponseCode {
    type Error = ();

    fn try_from(value: u32) -> (r: Result<Self, ()>) {
        assert((value & 0xffff_ff00u32 == 0xffff_ff00u32) == (value >= 0xffff_ff00u32))
            by (bit_vector);
        match value {
            0 => Ok(ResponseCode::Success),
            1 => Ok(ResponseCode::BadOp),
            2 => Ok(ResponseCode::BadArg),
            3 => Ok(ResponseCode::Busy),
            4 => Ok(ResponseCode::WouldBlock),
            5 => Ok(ResponseCode::Overflow),
            x => if x & FIRST_DEAD_CODE == FIRST_DEAD_CODE {
                Ok(ResponseCode::ServerDeath)
            } else {
                Err(())
            },
        }
    }
}

impl vstd::std_specs::convert::TryFromSpecImpl<u32> for ResponseCode {
    open spec fn obeys_try_from_spec() -> bool {
        true
    }

    open spec fn try_from_spec(value: u32) -> Result<Self, ()> {
        match ResponseCode::decode(value) {
            Some(c) => Ok(c),
            None => Err(()),
        }
    }
}

/// What a client of the driver reports.
#[derive(Copy, Clone, Debug, PartialEq, Eq, Structural)]
pub enum UartError {
    BadOp,
    BadArg,
    Busy,
    Overflow,
    ServerDeath,
    Other,
}

impl TryFrom<ResponseCode> for UartError {
    type Error = ();

    fn try_from(value: ResponseCode) -> (r: Result<Self, ()>) {
        match value {
            ResponseCode::BadOp => Ok(UartError::BadOp),
            ResponseCode::BadArg => Ok(UartError::BadArg),
            ResponseCode::Busy => Ok(UartError::Busy),
            ResponseCode::Overflow => Ok(UartError::Overflow),
            ResponseCode::ServerDeath => Ok(UartError::ServerDeath),
            _ => Err(()),
        }
    }
}

impl vstd::std_specs::convert::TryFromSpecImpl<ResponseCode> for UartError {
    open spec fn obeys_try_from_spec() -> bool {
        true
    }

    /// An answer that tells of a failure is the error of the same name.
    /// `Success` and `WouldBlock` are no errors.
    open spec fn try_from_spec(value: ResponseCode) -> Result<Self, ()> {
        match value {
            ResponseCode::BadOp => Ok(UartError::BadOp),
            ResponseCode::BadArg => Ok(UartError::BadArg),
            ResponseCode::Busy => Ok(UartError::Busy),
            ResponseCode::Overflow => Ok(UartError::Overflow),
            ResponseCode::ServerDeath => Ok(UartError::ServerDeath),
            ResponseCode::Success => Err(()),
            ResponseCode::WouldBlock => Err(()),
        }
    }
}

/// A transmission in progress: `pos` of the `len` bytes that the client
/// lent have been sent.
#[derive(Copy, Clone, Debug, PartialEq, Eq, Structural)]
pub struct Transmit {
    pub len: usize,
    pub pos: usize,
}

/// What came of the attempt to send the next byte.
#[derive(Copy, Clone, Debug, PartialEq, Eq, Structural)]
pub enum TransmitEvent {
    /// The byte could not be read from the client's buffer.
    BorrowFailed,
    /// The byte went into the transmitter.
    Sent,
    /// The transmitter was full.
    WouldBlock,
}

/// Steps a transmission forward after an attempt to send the next byte.
/// The result is the answer for the client when the transmission is over:
/// `BadArg` when the byte could not be read, which is also how a
/// transmission of no bytes ends; `Success` when the last byte has been
/// sent. Until then there is no answer. A byte can only have been sent
/// while one was left to send.
pub fn step_transmit(txs: &mut Transmit, event: TransmitEvent) -> (answer: Option<ResponseCode>)
    requires
        event == TransmitEvent::Sent ==> old(txs).pos < old(txs).len,
    ensures
        final(txs).len == old(txs).len,
        final(txs).pos == (if event == TransmitEvent::Sent {
            old(txs).pos + 1
        } else {
            old(txs).pos as int
        }),
        answer == (match event {
            TransmitEvent::BorrowFailed => Some(ResponseCode::BadArg),
            TransmitEvent::Sent => if old(txs).pos + 1 == old(txs).len {
                Some(ResponseCode::Success)
            } else {
                None
            },
            TransmitEvent::WouldBlock => None,
        }),
        event == TransmitEvent::Sent && answer is None ==> final(txs).pos < final(txs).len,
{
    match event {
        TransmitEvent::BorrowFailed => Some(ResponseCode::BadArg),
        TransmitEvent::Sent => {
            txs.pos = txs.pos + 1;
            if txs.pos == txs.len {
                Some(ResponseCode::Success)
            } else {
                None
            }
        },
        TransmitEvent::WouldBlock => None,
    }
}

} // verus!
