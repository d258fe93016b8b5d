//! The emulated transport: an in-memory address-to-value map with
//! transparent write and read, used to exercise clients without a device.

use vstd::prelude::*;

use std::collections::HashMap;

use crate::data_types::LabJackDataValue;
use crate::device::LabJackDevice;
use crate::error::{Error, Reason};
use crate::function::{ReadFunction, WriteFunction};
use crate::register::Register;
use crate::transport::Transport;

verus! {

broadcast use vstd::std_specs::hash::group_hash_axioms;

/// One stored register value of the emulated device.
#[derive(Debug, Clone, Copy)]
pub struct EmulatedValue {
    pub base: LabJackDataValue,
}

impl EmulatedValue {
    /// A value that reads back exactly as it was written.
    fn transparent(base: LabJackDataValue) -> (r: EmulatedValue)
        ensures
            r == (EmulatedValue { base }),
    {
        EmulatedValue { base }
    }
}

/// What a read of `reg` returns against the stored map `m`: the stored value
/// where one exists and its type agrees with the register's, the type's
/// default where nothing was stored, and a register-mismatch error where the
/// stored value belongs to another type.
pub open spec fn spec_emulated_read(m: Map<u16, EmulatedValue>, reg: Register) -> Result<
    LabJackDataValue,
    Error,
> {
    if m.contains_key(reg.address) {
        if m[reg.address].base.spec_type() == reg.data_type {
            Ok(m[reg.address].base)
        } else {
            Err(Error::InvalidData(Reason::RegisterMismatch))
        }
    } else {
        Ok(reg.data_type.spec_floating())
    }
}

/// An in-process transport holding register values in memory. Construction
/// sets no entries; an address reads as its type's default until written.
#[derive(Debug)]
pub struct EmulatedTransport {
    addresses: HashMap<u16, EmulatedValue>,
    pub device: LabJackDevice,
}

impl EmulatedTransport {
    /// The stored values, by register address.
    pub closed spec fn spec_addresses(self) -> Map<u16, EmulatedValue> {
        self.addresses@
    }

    /// The device record this transport was connected for.
    pub closed spec fn spec_device(self) -> LabJackDevice {
        self.device
    }

    fn new(device: LabJackDevice) -> (r: EmulatedTransport)
        ensures
            r.spec_addresses() == Map::<u16, EmulatedValue>::empty(),
            r.spec_device() == device,
    {
        EmulatedTransport { addresses: HashMap::new(), device }
    }

    /// Stores the value of a write request at the register's address.
    /// Succeeds exactly when the value's type is the register's; a mismatch
    /// changes nothing.
    pub fn write_function(&mut self, function: WriteFunction) -> (r: Result<(), Error>)
        ensures
            r is Ok <==> function.1.spec_type() == function.0.data_type,
            r is Ok ==> final(self).spec_addresses() == old(self).spec_addresses().insert(
                function.0.address,
                EmulatedValue { base: function.1 },
            ),
            r matches Err(e) ==> e matches Error::InvalidData(Reason::RegisterMismatch)
                && final(self).spec_addresses() == old(self).spec_addresses(),
            final(self).spec_device() == old(self).spec_device(),
    {
        if function.1.data_type() != function.0.data_type {
            return Err(Error::InvalidData(Reason::RegisterMismatch));
        }
        self.addresses.insert(function.0.address, EmulatedValue::transparent(function.1));
        Ok(())
    }

    /// Answers a read request from the stored map: exactly
    /// [`spec_emulated_read`] of the current state.
    pub fn read_function(&mut self, function: ReadFunction) -> (r: Result<LabJackDataValue, Error>)
        ensures
            final(self).spec_addresses() == old(self).spec_addresses(),
            final(self).spec_device() == old(self).spec_device(),
            r == spec_emulated_read(old(self).spec_addresses(), function.0),
    {
        match self.addresses.get(&function.0.address) {
            Some(value) => {
                let stored = value.base;
                if stored.data_type() != function.0.data_type {
                    return Err(Error::InvalidData(Reason::RegisterMismatch));
                }
                Ok(stored)
            },
            None => Ok(function.0.data_type.floating()),
        }
    }
}

impl Transport for EmulatedTransport {
    /// A write stores the value at the register's address exactly when the
    /// value's type is the register's; a mismatch is refused and stores
    /// nothing.
    open spec fn spec_write_post(
        pre: EmulatedTransport,
        post: EmulatedTransport,
        function: WriteFunction,
        r: Result<(), Error>,
    ) -> bool {
        &&& post.spec_device() == pre.spec_device()
        &&& (r is Ok <==> function.1.spec_type() == function.0.data_type)
        &&& (r is Ok ==> post.spec_addresses() == pre.spec_addresses().insert(
            function.0.address,
            EmulatedValue { base: function.1 },
        ))
        &&& (r matches Err(e) ==> e matches Error::InvalidData(Reason::RegisterMismatch)
            && post.spec_addresses() == pre.spec_addresses())
    }

    /// A read changes nothing and returns exactly what the stored map holds
    /// for the register.
    open spec fn spec_read_post(
        pre: EmulatedTransport,
        post: EmulatedTransport,
        function: ReadFunction,
        r: Result<LabJackDataValue, Error>,
    ) -> bool {
        &&& post.spec_addresses() == pre.spec_addresses()
        &&& post.spec_device() == pre.spec_device()
        &&& r == spec_emulated_read(pre.spec_addresses(), function.0)
    }

    fn write(&mut self, function: WriteFunction) -> (r: Result<(), Error>) {
        self.write_function(function)
    }

    fn read(&mut self, function: ReadFunction) -> (r: Result<LabJackDataValue, Error>) {
        self.read_function(function)
    }
}

/// The transport selector for the emulated device.
pub struct Emulated;

impl Emulated {
    /// Connects to the in-process emulated device: no I/O, an empty value
    /// map.
    pub fn connect(device: LabJackDevice) -> (r: Result<EmulatedTransport, Error>)
        ensures
            r matches Ok(t) && t.spec_addresses() == Map::<u16, EmulatedValue>::empty()
                && t.spec_device() == device,
    {
        Ok(EmulatedTransport::new(device))
    }
}

/// Write/read invariance of the emulated transport: after a successful write
/// of `v` to `reg`, a read of `reg` returns exactly `v` — same type, same
/// value.
pub proof fn lemma_write_read_invariance(
    m: Map<u16, EmulatedValue>,
    reg: Register,
    v: LabJackDataValue,
)
    requires
        v.spec_type() == reg.data_type,
    ensures
        spec_emulated_read(m.insert(reg.address, EmulatedValue { base: v }), reg) == Ok::<
            LabJackDataValue,
            Error,
        >(v),
{
}

/// Write/read invariance as a caller sees it through the transport
/// contract: whenever a write of `v` to `reg` succeeded and a read of `reg`
/// follows on the resulting state, the read returns exactly `Ok(v)`. The
/// client's register operations guarantee precisely these two relations, so
/// the law holds through the client as well.
pub proof fn lemma_client_write_read_invariance(
    pre: EmulatedTransport,
    mid: EmulatedTransport,
    post: EmulatedTransport,
    reg: Register,
    v: LabJackDataValue,
    r: Result<LabJackDataValue, Error>,
)
    requires
        <EmulatedTransport as Transport>::spec_write_post(pre, mid, WriteFunction(reg, v), Ok(())),
        <EmulatedTransport as Transport>::spec_read_post(mid, post, ReadFunction(reg), r),
    ensures
        r == Ok::<LabJackDataValue, Error>(v),
{
    lemma_write_read_invariance(pre.spec_addresses(), reg, v);
}

} // verus!
