//! The transport abstraction: anything that can carry a write request and a
//! read request to a device and bring back the outcome.

use vstd::prelude::*;

use crate::data_types::LabJackDataValue;
use crate::error::Error;
use crate::function::{ReadFunction, WriteFunction};

verus! {

/// A polymorphic contract over device transports: each call is atomic from
/// the caller's perspective, and concurrent calls on one transport return
/// each caller the outcome of its own request.
///
/// What a call returns is the implementation's to say: each implementor
/// defines the two relations below, and every call is guaranteed to satisfy
/// its relation between the transport's state before and after, the request
/// it was given, and the result it returned. A caller generic over the
/// transport passes exactly this guarantee on.
pub trait Transport: Sized {
    /// What this transport guarantees of a write call: how `post` and `r`
    /// relate to `pre` and the request.
    spec fn spec_write_post(
        pre: Self,
        post: Self,
        function: WriteFunction,
        r: Result<(), Error>,
    ) -> bool;

    /// What this transport guarantees of a read call: how `post` and `r`
    /// relate to `pre` and the request.
    spec fn spec_read_post(
        pre: Self,
        post: Self,
        function: ReadFunction,
        r: Result<LabJackDataValue, Error>,
    ) -> bool;

    /// Performs a write request against the device.
    fn write(&mut self, function: WriteFunction) -> (r: Result<(), Error>)
        ensures
            Self::spec_write_post(*old(self), *final(self), function, r),
    ;

    /// Performs a read request against the device and returns the value
    /// read.
    fn read(&mut self, function: ReadFunction) -> (r: Result<LabJackDataValue, Error>)
        ensures
            Self::spec_read_post(*old(self), *final(self), function, r),
    ;
}

/// The transport selector for Modbus TCP over Ethernet. Establishing the
/// socket, pumping the stream and waking waiters is I/O that an application
/// drives with the composition, validation and demultiplexer building
/// blocks of this crate.
pub struct Tcp;

} // verus!
