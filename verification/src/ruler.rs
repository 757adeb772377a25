//! The unit in which the ruler at the edge of the view names its length.

use vstd::prelude::*;

verus! {

/// A unit of length that the ruler can show.
#[derive(Clone, Copy, Debug, PartialEq, Eq, Structural)]
pub enum ScaleUnit {
    Meters,
    Kilometers,
    ThousandKilometers,
    MillionKilometers,
    BillionKilometers,
}

impl ScaleUnit {
    /// The unit for a length whose number of meters has `log10_of_meter + 1`
    /// digits before the point: it changes with every third digit, up to
    /// billions of kilometers.
    pub open spec fn of(log10_of_meter: int) -> ScaleUnit {
        if log10_of_meter < 3 {
            ScaleUnit::Meters
        } else if log10_of_meter < 6 {
            ScaleUnit::Kilometers
        } else if log10_of_meter < 9 {
            ScaleUnit::ThousandKilometers
        } else if log10_of_meter < 12 {
            ScaleUnit::MillionKilometers
        } else {
            ScaleUnit::BillionKilometers
        }
    }

    /// The power of ten of meters that makes one of this unit.
    pub open spec fn power_of(self) -> int {
        match self {
            ScaleUnit::Meters => 0,
            ScaleUnit::Kilometers => 3,
            ScaleUnit::ThousandKilometers => 6,
            ScaleUnit::MillionKilometers => 9,
            ScaleUnit::BillionKilometers => 12,
        }
    }

    /// The unit's name as the ruler prints it.
    pub open spec fn name_of(self) -> Seq<char> {
        match self {
            ScaleUnit::Meters => "m"@,
            ScaleUnit::Kilometers => "km"@,
            ScaleUnit::ThousandKilometers => "tnd. km"@,
            ScaleUnit::MillionKilometers => "mln. km"@,
            ScaleUnit::BillionKilometers => "bln. km"@,
        }
    }

    /// Picks the unit for a length of which `log10_of_meter` is the whole
    /// part of the decimal logarithm of its number of meters.
    pub fn for_length(log10_of_meter: i32) -> (unit: ScaleUnit)
        ensures
            unit == ScaleUnit::of(log10_of_meter as int),
    {
        if log10_of_meter < 3 {
            ScaleUnit::Meters
        } else if log10_of_meter < 6 {
            ScaleUnit::Kilometers
        } else if log10_of_meter < 9 {
            ScaleUnit::ThousandKilometers
        } else if log10_of_meter < 12 {
            ScaleUnit::MillionKilometers
        } else {
            ScaleUnit::BillionKilometers
        }
    }

    /// The power of ten of meters that makes one of this unit.
    pub fn power(&self) -> (power: u32)
        ensures
            power == self.power_of(),
    {
        match self {
            ScaleUnit::Meters => 0,
            ScaleUnit::Kilometers => 3,
            ScaleUnit::ThousandKilometers => 6,
            ScaleUnit::MillionKilometers => 9,
            ScaleUnit::BillionKilometers => 12,
        }
    }

    /// The unit's name as the ruler prints it.
    pub fn name(&self) -> (name: &'static str)
        ensures
            name@ == self.name_of(),
    {
        match self {
            ScaleUnit::Meters => "m",
            ScaleUnit::Kilometers => "km",
            ScaleUnit::ThousandKilometers => "tnd. km",
            ScaleUnit::MillionKilometers => "mln. km",
            ScaleUnit::BillionKilometers => "bln. km",
        }
    }
}

/// A length of at least one meter is never shown with a fraction, and one
/// below a thousand billion kilometers never with more than three digits
/// before the point: the unit's power of ten lies at most two below that of
/// the length, and never above it.
pub proof fn lemma_unit_fits(log10_of_meter: int)
    requires
        0 <= log10_of_meter,
    ensures
        ScaleUnit::of(log10_of_meter).power_of() <= log10_of_meter,
        log10_of_meter < 15 ==> log10_of_meter - ScaleUnit::of(log10_of_meter).power_of() <= 2,
{
}

} // verus!
