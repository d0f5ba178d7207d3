//! Units of the International System (steps of 1000).

use vstd::prelude::*;
use super::iec::IECSize;

verus! {

/// Sizes in the International System of Units.
#[derive(Debug, Clone, Copy, PartialEq, Eq, Structural)]
pub enum SISize {
    Byte,
    Kilobyte,
    Megabyte,
    Gigabyte,
    Terabyte,
    Petabyte,
    Exabyte,
}

/// The IEC size of the same rank as an SI size.
pub open spec fn iec_of(s: SISize) -> IECSize {
    match s {
        SISize::Byte => IECSize::Byte,
        SISize::Kilobyte => IECSize::Kibibyte,
        SISize::Megabyte => IECSize::Mebibyte,
        SISize::Gigabyte => IECSize::Gibibyte,
        SISize::Terabyte => IECSize::Tebibyte,
        SISize::Petabyte => IECSize::Pebibyte,
        SISize::Exabyte => IECSize::Exbibyte,
    }
}

impl From<SISize> for IECSize {
    fn from(si_size: SISize) -> (r: IECSize)
        ensures
            r == iec_of(si_size),
    {
        match si_size {
            SISize::Byte => IECSize::Byte,
            SISize::Kilobyte => IECSize::Kibibyte,
            SISize::Megabyte => IECSize::Mebibyte,
            SISize::Gigabyte => IECSize::Gibibyte,
            SISize::Terabyte => IECSize::Tebibyte,
            SISize::Petabyte => IECSize::Pebibyte,
            SISize::Exabyte => IECSize::Exbibyte,
        }
    }
}

impl vstd::std_specs::convert::FromSpecImpl<SISize> for IECSize {
    open spec fn obeys_from_spec() -> bool {
        true
    }

    open spec fn from_spec(v: SISize) -> IECSize {
        iec_of(v)
    }
}

} // verus!
