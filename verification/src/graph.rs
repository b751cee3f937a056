//! The measured quantity a detail view displays.

use vstd::prelude::*;

verus! {

/// One of the three measured quantities.
#[derive(Debug, Eq, PartialEq, Clone, Copy, Structural)]
pub enum Unit {
    Temperature,
    Humidity,
    Pressure,
}

impl Default for Unit {
    /// A detail view opens on the temperature graph.
    fn default() -> (r: Self)
        ensures
            r == Unit::Temperature,
    {
        Unit::Temperature
    }
}

impl Unit {
    /// A stable small index for each quantity, in declaration order.
    pub fn as_usize(self) -> (r: usize)
        ensures
            self is Temperature ==> r == 0,
            self is Humidity ==> r == 1,
            self is Pressure ==> r == 2,
    {
        match self {
            Unit::Temperature => 0,
            Unit::Humidity => 1,
            Unit::Pressure => 2,
        }
    }

    /// The quantity's display name.
    pub fn label(self) -> (r: &'static str)
        ensures
            self is Temperature ==> r@ == "Temperature"@,
            self is Humidity ==> r@ == "Humidity"@,
            self is Pressure ==> r@ == "Pressure"@,
    {
        match self {
            Unit::Temperature => "Temperature",
            Unit::Humidity => "Humidity",
            Unit::Pressure => "Pressure",
        }
    }
}

} // verus!
