//! Registers: a device-addressable slot with a 16-bit address, a data type,
//! and an optional catalog default, plus the access-control wrapper that
//! records whether a catalog entry may be read, written, or both.

use vstd::prelude::*;

use crate::data_types::LabJackDataType;

verus! {

/// A named register of the device catalog, as a flyweight value.
///
/// `default_value` holds the catalog's default as an IEEE-754 double bit
/// pattern (the catalog states defaults as floating-point numbers); it plays
/// no part in the wire protocol.
#[derive(Debug, Clone, Copy, PartialEq, Eq, Structural)]
pub struct Register {
    pub address: u16,
    pub data_type: LabJackDataType,
    pub default_value: Option<u64>,
}

impl Register {
    /// A register with no catalog default.
    pub fn new(address: u16, data_type: LabJackDataType) -> (r: Register)
        ensures
            r == (Register { address, data_type, default_value: None }),
    {
        Register { address, data_type, default_value: None }
    }
}

/// Defines the ability for a register to be written or read from: the
/// access-control discriminant a catalog entry is wrapped with.
#[derive(Debug, Clone, Copy, PartialEq, Eq, Structural)]
pub enum AccessControl {
    AllCtrl,
    ReadableCtrl,
    WritableCtrl,
}

impl AccessControl {
    /// Whether a register under this control may be read.
    pub open spec fn spec_readable(self) -> bool {
        self is AllCtrl || self is ReadableCtrl
    }

    /// Whether a register under this control may be written.
    pub open spec fn spec_writable(self) -> bool {
        self is AllCtrl || self is WritableCtrl
    }

    /// Whether a register under this control may be read.
    pub fn readable(&self) -> (r: bool)
        ensures
            r == self.spec_readable(),
    {
        matches!(self, AccessControl::AllCtrl | AccessControl::ReadableCtrl)
    }

    /// Whether a register under this control may be written.
    pub fn writable(&self) -> (r: bool)
        ensures
            r == self.spec_writable(),
    {
        matches!(self, AccessControl::AllCtrl | AccessControl::WritableCtrl)
    }
}

/// A register paired with the access control of its catalog entry, which
/// specifies the access possibility of the register itself.
#[derive(Debug, Clone, Copy, PartialEq, Eq, Structural)]
pub struct AccessLimitedRegister {
    pub access: AccessControl,
    pub register: Register,
}

impl AccessLimitedRegister {
    /// Allows the consuming application to unravel an access-controlled
    /// register into its inner [`Register`].
    pub fn register(self) -> (r: Register)
        ensures
            r == self.register,
    {
        self.register
    }
}

/// A catalog entity: a register entry together with its full catalog address
/// (the catalog counts addresses beyond the 16-bit Modbus space) and its data
/// type.
#[derive(Debug, Clone, Copy, PartialEq, Eq, Structural)]
pub struct LabJackEntity {
    pub entry: Register,
    pub address: u32,
    pub data_type: LabJackDataType,
}

impl LabJackEntity {
    pub fn new(address: u32, entry: Register, data_type: LabJackDataType) -> (r: LabJackEntity)
        ensures
            r == (LabJackEntity { entry, address, data_type }),
    {
        LabJackEntity { address, entry, data_type }
    }
}

} // verus!
