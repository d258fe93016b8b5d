//! Extended-feature channel kinds: the thermocouple and load-cell families
//! whose conversion curves an application plugs into the client's read and
//! write hooks. The curves themselves are floating-point fits and live with
//! the application; the library carries the channel kinds.

use vstd::prelude::*;

verus! {

/// The thermocouple families with standard NIST conversion coefficients.
#[derive(Debug, Clone, Copy, PartialEq, Eq, Structural)]
pub enum Thermocouple {
    TypeE,
    TypeJ,
    TypeK,
    TypeR,
    TypeS,
    TypeT,
}

/// The supported load-cell bridge kinds.
#[derive(Debug, Clone, Copy, PartialEq, Eq, Structural)]
pub enum LoadCell {
    Standard,
}

} // verus!
