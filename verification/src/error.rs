//! The error taxonomy of the library: Modbus exception codes relayed by the
//! device, validation failures, malformed data, transport failures, and the
//! queueing faults of the transaction-id demultiplexer.

use vstd::prelude::*;

verus! {

/// Relies on `std::io::Error` from the standard library: the type is carried
/// opaquely inside [`Error::Io`] so that callers performing socket I/O can
/// surface the underlying failure; nothing in the verified code reads it.
#[verifier::external_type_specification]
#[verifier::external_body]
pub struct ExIoError(std::io::Error);

/// Modbus exception codes returned from the server.
///
/// On the wire each code is one byte; the pairing between variants and bytes
/// is given by [`ExceptionCode::from_u8`] and [`ExceptionCode::code`].
#[derive(Debug, Clone, Copy, PartialEq, Eq, Structural)]
pub enum ExceptionCode {
    IllegalFunction,
    IllegalDataAddress,
    IllegalDataValue,
    SlaveOrServerFailure,
    Acknowledge,
    SlaveOrServerBusy,
    NegativeAcknowledge,
    MemoryParity,
    NotDefined,
    GatewayPath,
    GatewayTarget,
}

/// The byte that stands for an exception code on the wire.
pub open spec fn spec_exception_byte(code: ExceptionCode) -> u8 {
    match code {
        ExceptionCode::IllegalFunction => 0x01,
        ExceptionCode::IllegalDataAddress => 0x02,
        ExceptionCode::IllegalDataValue => 0x03,
        ExceptionCode::SlaveOrServerFailure => 0x04,
        ExceptionCode::Acknowledge => 0x05,
        ExceptionCode::SlaveOrServerBusy => 0x06,
        ExceptionCode::NegativeAcknowledge => 0x07,
        ExceptionCode::MemoryParity => 0x08,
        ExceptionCode::NotDefined => 0x09,
        ExceptionCode::GatewayPath => 0x0a,
        ExceptionCode::GatewayTarget => 0x0b,
    }
}

/// The exception code a byte stands for, if any: the table covers exactly
/// `0x01..=0x0b`.
pub open spec fn spec_exception_of_byte(value: u8) -> Option<ExceptionCode> {
    if value == 0x01 {
        Some(ExceptionCode::IllegalFunction)
    } else if value == 0x02 {
        Some(ExceptionCode::IllegalDataAddress)
    } else if value == 0x03 {
        Some(ExceptionCode::IllegalDataValue)
    } else if value == 0x04 {
        Some(ExceptionCode::SlaveOrServerFailure)
    } else if value == 0x05 {
        Some(ExceptionCode::Acknowledge)
    } else if value == 0x06 {
        Some(ExceptionCode::SlaveOrServerBusy)
    } else if value == 0x07 {
        Some(ExceptionCode::NegativeAcknowledge)
    } else if value == 0x08 {
        Some(ExceptionCode::MemoryParity)
    } else if value == 0x09 {
        Some(ExceptionCode::NotDefined)
    } else if value == 0x0a {
        Some(ExceptionCode::GatewayPath)
    } else if value == 0x0b {
        Some(ExceptionCode::GatewayTarget)
    } else {
        None
    }
}

impl ExceptionCode {
    /// Decodes the exception byte of a reply; `None` for a byte outside the
    /// table `0x01..=0x0b`.
    pub fn from_u8(value: u8) -> (r: Option<ExceptionCode>)
        ensures
            r == spec_exception_of_byte(value),
    {
        match value {
            0x01 => Some(ExceptionCode::IllegalFunction),
            0x02 => Some(ExceptionCode::IllegalDataAddress),
            0x03 => Some(ExceptionCode::IllegalDataValue),
            0x04 => Some(ExceptionCode::SlaveOrServerFailure),
            0x05 => Some(ExceptionCode::Acknowledge),
            0x06 => Some(ExceptionCode::SlaveOrServerBusy),
            0x07 => Some(ExceptionCode::NegativeAcknowledge),
            0x08 => Some(ExceptionCode::MemoryParity),
            0x09 => Some(ExceptionCode::NotDefined),
            0x0a => Some(ExceptionCode::GatewayPath),
            0x0b => Some(ExceptionCode::GatewayTarget),
            _ => None,
        }
    }

    /// The byte this exception code stands for on the wire.
    pub fn code(&self) -> (r: u8)
        ensures
            r == spec_exception_byte(*self),
            spec_exception_of_byte(r) == Some(*self),
    {
        match self {
            ExceptionCode::IllegalFunction => 0x01,
            ExceptionCode::IllegalDataAddress => 0x02,
            ExceptionCode::IllegalDataValue => 0x03,
            ExceptionCode::SlaveOrServerFailure => 0x04,
            ExceptionCode::Acknowledge => 0x05,
            ExceptionCode::SlaveOrServerBusy => 0x06,
            ExceptionCode::NegativeAcknowledge => 0x07,
            ExceptionCode::MemoryParity => 0x08,
            ExceptionCode::NotDefined => 0x09,
            ExceptionCode::GatewayPath => 0x0a,
            ExceptionCode::GatewayTarget => 0x0b,
        }
    }
}

/// The precise reason behind an [`Error::InvalidData`] failure.
#[derive(Debug)]
pub enum Reason {
    UnexpectedReplySize,
    BytecountNotEven,
    SendBufferEmpty,
    RecvBufferEmpty,
    SendBufferTooBig,
    DecodingError,
    EncodingError,
    InvalidByteorder,
    RegisterMismatch,
    Custom(String),
}

/// Faults of the transaction-id demultiplexer and its frame queue.
#[derive(Debug, Clone, Copy, PartialEq, Eq, Structural)]
pub enum QueueError {
    FrameSizeTooLarge,
    QueueEmptyWhenRead,
    TooManyInFlight,
    Cancelled,
}

/// Every failure the library surfaces.
#[derive(Debug)]
pub enum Error {
    Exception(ExceptionCode),
    Io(std::io::Error),
    InvalidResponse,
    InvalidData(Reason),
    InvalidFunction,
    ParseCoilError,
    ParseInfoError,
    DeviceNotFound,
    Queue(QueueError),
}

impl core::convert::From<Reason> for Error {
    fn from(reason: Reason) -> Self {
        Error::InvalidData(reason)
    }
}

impl vstd::std_specs::convert::FromSpecImpl<Reason> for Error {
    open spec fn obeys_from_spec() -> bool {
        true
    }

    open spec fn from_spec(reason: Reason) -> Self {
        Error::InvalidData(reason)
    }
}

impl core::convert::From<ExceptionCode> for Error {
    fn from(err: ExceptionCode) -> Self {
        Error::Exception(err)
    }
}

impl vstd::std_specs::convert::FromSpecImpl<ExceptionCode> for Error {
    open spec fn obeys_from_spec() -> bool {
        true
    }

    open spec fn from_spec(err: ExceptionCode) -> Self {
        Error::Exception(err)
    }
}

impl core::convert::From<std::io::Error> for Error {
    fn from(err: std::io::Error) -> Self {
        Error::Io(err)
    }
}

impl vstd::std_specs::convert::FromSpecImpl<std::io::Error> for Error {
    open spec fn obeys_from_spec() -> bool {
        true
    }

    open spec fn from_spec(err: std::io::Error) -> Self {
        Error::Io(err)
    }
}

} // verus!
