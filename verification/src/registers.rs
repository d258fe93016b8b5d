//! The register catalog: the named registers the library and its tests use,
//! each a compile-time-known [`Register`] wrapped with the access control of
//! its catalog entry, plus the sum tag enumerating the entries.

use vstd::prelude::*;

use crate::data_types::LabJackDataType;
use crate::register::{AccessControl, AccessLimitedRegister, Register};

verus! {

/// The sum tag over the catalog entries.
#[derive(Debug, Clone, Copy, PartialEq, Eq, Structural)]
pub enum RegisterName {
    Ain55,
    Ain56,
    Dac0,
    Fio0,
    TestUint16,
    TestUint32,
    ProductId,
    SerialNumber,
}

impl RegisterName {
    /// The catalog entry this name stands for.
    pub open spec fn spec_entry(self) -> AccessLimitedRegister {
        match self {
            RegisterName::Ain55 => AccessLimitedRegister {
                access: AccessControl::ReadableCtrl,
                register: Register {
                    address: 110,
                    data_type: LabJackDataType::Float32,
                    default_value: None,
                },
            },
            RegisterName::Ain56 => AccessLimitedRegister {
                access: AccessControl::ReadableCtrl,
                register: Register {
                    address: 112,
                    data_type: LabJackDataType::Float32,
                    default_value: None,
                },
            },
            RegisterName::Dac0 => AccessLimitedRegister {
                access: AccessControl::AllCtrl,
                register: Register {
                    address: 1000,
                    data_type: LabJackDataType::Float32,
                    default_value: None,
                },
            },
            RegisterName::Fio0 => AccessLimitedRegister {
                access: AccessControl::AllCtrl,
                register: Register {
                    address: 2000,
                    data_type: LabJackDataType::Uint16,
                    default_value: None,
                },
            },
            RegisterName::TestUint16 => AccessLimitedRegister {
                access: AccessControl::AllCtrl,
                register: Register {
                    address: 55110,
                    data_type: LabJackDataType::Uint16,
                    default_value: None,
                },
            },
            RegisterName::TestUint32 => AccessLimitedRegister {
                access: AccessControl::AllCtrl,
                register: Register {
                    address: 55120,
                    data_type: LabJackDataType::Uint32,
                    default_value: None,
                },
            },
            RegisterName::ProductId => AccessLimitedRegister {
                access: AccessControl::ReadableCtrl,
                register: Register {
                    address: 60000,
                    data_type: LabJackDataType::Float32,
                    default_value: None,
                },
            },
            RegisterName::SerialNumber => AccessLimitedRegister {
                access: AccessControl::ReadableCtrl,
                register: Register {
                    address: 60028,
                    data_type: LabJackDataType::Uint32,
                    default_value: None,
                },
            },
        }
    }

    /// The catalog entry this name stands for.
    pub fn entry(self) -> (r: AccessLimitedRegister)
        ensures
            r == self.spec_entry(),
    {
        match self {
            RegisterName::Ain55 => ain55(),
            RegisterName::Ain56 => ain56(),
            RegisterName::Dac0 => dac0(),
            RegisterName::Fio0 => fio0(),
            RegisterName::TestUint16 => test_uint16(),
            RegisterName::TestUint32 => test_uint32(),
            RegisterName::ProductId => product_id(),
            RegisterName::SerialNumber => serial_number(),
        }
    }
}

/// Analog input channel 55: a read-only 32-bit float at address 110.
pub fn ain55() -> (r: AccessLimitedRegister)
    ensures
        r == RegisterName::Ain55.spec_entry(),
{
    AccessLimitedRegister {
        access: AccessControl::ReadableCtrl,
        register: Register {
            address: 110,
            data_type: LabJackDataType::Float32,
            default_value: None,
        },
    }
}

/// Analog input channel 56: a read-only 32-bit float at address 112.
pub fn ain56() -> (r: AccessLimitedRegister)
    ensures
        r == RegisterName::Ain56.spec_entry(),
{
    AccessLimitedRegister {
        access: AccessControl::ReadableCtrl,
        register: Register {
            address: 112,
            data_type: LabJackDataType::Float32,
            default_value: None,
        },
    }
}

/// Analog output channel 0: a readable and writable 32-bit float at address
/// 1000.
pub fn dac0() -> (r: AccessLimitedRegister)
    ensures
        r == RegisterName::Dac0.spec_entry(),
{
    AccessLimitedRegister {
        access: AccessControl::AllCtrl,
        register: Register {
            address: 1000,
            data_type: LabJackDataType::Float32,
            default_value: None,
        },
    }
}

/// Flexible digital I/O channel 0: a readable and writable 16-bit value at
/// address 2000.
pub fn fio0() -> (r: AccessLimitedRegister)
    ensures
        r == RegisterName::Fio0.spec_entry(),
{
    AccessLimitedRegister {
        access: AccessControl::AllCtrl,
        register: Register {
            address: 2000,
            data_type: LabJackDataType::Uint16,
            default_value: None,
        },
    }
}

/// The 16-bit test register at address 55110.
pub fn test_uint16() -> (r: AccessLimitedRegister)
    ensures
        r == RegisterName::TestUint16.spec_entry(),
{
    AccessLimitedRegister {
        access: AccessControl::AllCtrl,
        register: Register {
            address: 55110,
            data_type: LabJackDataType::Uint16,
            default_value: None,
        },
    }
}

/// The 32-bit test register at address 55120.
pub fn test_uint32() -> (r: AccessLimitedRegister)
    ensures
        r == RegisterName::TestUint32.spec_entry(),
{
    AccessLimitedRegister {
        access: AccessControl::AllCtrl,
        register: Register {
            address: 55120,
            data_type: LabJackDataType::Uint32,
            default_value: None,
        },
    }
}

/// The product identifier register at address 60000: discovery reads it to
/// learn the device kind.
pub fn product_id() -> (r: AccessLimitedRegister)
    ensures
        r == RegisterName::ProductId.spec_entry(),
{
    AccessLimitedRegister {
        access: AccessControl::ReadableCtrl,
        register: Register {
            address: 60000,
            data_type: LabJackDataType::Float32,
            default_value: None,
        },
    }
}

/// The serial number register at address 60028: discovery reads it to tell
/// devices apart.
pub fn serial_number() -> (r: AccessLimitedRegister)
    ensures
        r == RegisterName::SerialNumber.spec_entry(),
{
    AccessLimitedRegister {
        access: AccessControl::ReadableCtrl,
        register: Register {
            address: 60028,
            data_type: LabJackDataType::Uint32,
            default_value: None,
        },
    }
}

} // verus!
