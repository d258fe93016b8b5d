//! Request descriptions: read a register, write a register a value, or bundle
//! several reads and writes into one vendor-specific Feedback round trip.

use vstd::prelude::*;

use crate::data_types::LabJackDataValue;
use crate::register::Register;

verus! {

/// Read all registers corresponding to the entity (function code `0x03`).
#[derive(Debug, Clone, Copy)]
pub struct ReadFunction(pub Register);

/// Write all registers corresponding to the entity, with given value
/// (function code `0x10`). The value's type must match the register's.
#[derive(Debug, Clone, Copy)]
pub struct WriteFunction(pub Register, pub LabJackDataValue);

/// One sub-frame of a Feedback request: a read of a register, or a write of a
/// value to a register.
#[derive(Debug, Clone, Copy)]
pub enum FeedbackFunction {
    ReadRegister(Register),
    WriteRegister(Register, LabJackDataValue),
}

impl FeedbackFunction {
    /// The register this frame addresses.
    pub open spec fn spec_register(self) -> Register {
        match self {
            FeedbackFunction::ReadRegister(r) => r,
            FeedbackFunction::WriteRegister(r, _) => r,
        }
    }

    /// The register this frame addresses.
    pub fn register(&self) -> (r: Register)
        ensures
            r == self.spec_register(),
    {
        match self {
            FeedbackFunction::ReadRegister(r) => *r,
            FeedbackFunction::WriteRegister(r, _) => *r,
        }
    }
}

/// A request description with a function code on the wire.
pub trait Function {
    /// The code spec functions state for this description.
    spec fn spec_code(&self) -> u8;

    /// The function code written on the wire for this description.
    fn code(&self) -> (r: u8)
        ensures
            r == self.spec_code(),
    ;
}

impl Function for ReadFunction {
    open spec fn spec_code(&self) -> u8 {
        0x03
    }

    fn code(&self) -> (r: u8) {
        0x03
    }
}

impl Function for WriteFunction {
    open spec fn spec_code(&self) -> u8 {
        0x10
    }

    fn code(&self) -> (r: u8) {
        0x10
    }
}

impl Function for FeedbackFunction {
    /// The sub-frame code: `0x00` for a read frame, `0x01` for a write frame.
    open spec fn spec_code(&self) -> u8 {
        match *self {
            FeedbackFunction::ReadRegister(..) => 0x00,
            FeedbackFunction::WriteRegister(..) => 0x01,
        }
    }

    fn code(&self) -> (r: u8) {
        match *self {
            FeedbackFunction::ReadRegister(..) => 0x00,
            FeedbackFunction::WriteRegister(..) => 0x01,
        }
    }
}

} // verus!
