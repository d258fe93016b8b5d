//! Conversion hooks between raw register values and domain quantities: the
//! ADC direction turns a read value into a digital quantity, the DAC
//! direction turns a digital quantity into a value to write. The unit type
//! is the identity conversion for both directions.

use vstd::prelude::*;

use crate::data_types::LabJackDataValue;

verus! {

/// An analog-to-digital conversion: interprets a value read from a register
/// as a domain quantity, given a conversion context. Each implementor
/// defines what its conversion returns, and the call is held to it; an
/// implementation that leaves the default in place promises only that its
/// conversion is a function of its inputs.
pub trait Adc<Ctx> {
    type Digital;

    /// The quantity this conversion yields for a raw value under a context.
    open spec fn spec_digital(&self, context: Ctx, voltage: LabJackDataValue) -> Self::Digital {
        vstd::pervasive::arbitrary()
    }

    /// Converts a raw register value into the domain quantity.
    fn to_digital(&self, context: Ctx, voltage: LabJackDataValue) -> (r: Self::Digital)
        ensures
            r == self.spec_digital(context, voltage),
    ;
}

/// The pass-through conversion: the raw value is the quantity.
impl Adc<()> for () {
    type Digital = LabJackDataValue;

    open spec fn spec_digital(&self, context: (), voltage: LabJackDataValue) -> LabJackDataValue {
        voltage
    }

    fn to_digital(&self, _context: (), voltage: LabJackDataValue) -> (r: LabJackDataValue) {
        voltage
    }
}

/// A digital-to-analog conversion: turns a domain quantity into the raw
/// value written to a register. Each implementor defines what its
/// conversion returns, and the call is held to it; an implementation that
/// leaves the default in place promises only that its conversion is a
/// function of its input.
pub trait Dac {
    type Digital;

    /// The raw value this conversion yields for a domain quantity.
    open spec fn spec_voltage(&self, digital: Self::Digital) -> LabJackDataValue {
        vstd::pervasive::arbitrary()
    }

    /// Converts the domain quantity into a raw register value.
    fn to_voltage(&self, digital: Self::Digital) -> (r: LabJackDataValue)
        ensures
            r == self.spec_voltage(digital),
    ;
}

/// The pass-through conversion: the quantity is the raw value.
impl Dac for () {
    type Digital = LabJackDataValue;

    open spec fn spec_voltage(&self, digital: LabJackDataValue) -> LabJackDataValue {
        digital
    }

    fn to_voltage(&self, digital: LabJackDataValue) -> (r: LabJackDataValue) {
        digital
    }
}

/// A data-acquisition channel that converts in both directions.
pub trait Daq<Ctx>: Adc<Ctx> + Dac {

}

impl<T, Ctx> Daq<Ctx> for T where T: Adc<Ctx> + Dac {

}

} // verus!
