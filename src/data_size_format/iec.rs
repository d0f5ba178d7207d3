//! Units of the International Electrotechnical Commission (steps of 1024).

use vstd::prelude::*;
use super::si::SISize;

verus! {

/// Sizes in the units of the International Electrotechnical Commission.
#[derive(Debug, Clone, Copy, PartialEq, Eq, Structural)]
pub enum IECSize {
    Byte,
    Kibibyte,
    Mebibyte,
    Gibibyte,
    Tebibyte,
    Pebibyte,
    Exbibyte,
}

/// The SI size of the same rank as an IEC size.
pub open spec fn si_of(s: IECSize) -> SISize {
    match s {
        IECSize::Byte => SISize::Byte,
        IECSize::Kibibyte => SISize::Kilobyte,
        IECSize::Mebibyte => SISize::Megabyte,
        IECSize::Gibibyte => SISize::Gigabyte,
        IECSize::Tebibyte => SISize::Terabyte,
        IECSize::Pebibyte => SISize::Petabyte,
        IECSize::Exbibyte => SISize::Exabyte,
    }
}

impl From<IECSize> for SISize {
    fn from(iec_size: IECSize) -> (r: SISize)
        ensures
            r == si_of(iec_size),
    {
        match iec_size {
            IECSize::Byte => SISize::Byte,
            IECSize::Kibibyte => SISize::Kilobyte,
            IECSize::Mebibyte => SISize::Megabyte,
            IECSize::Gibibyte => SISize::Gigabyte,
            IECSize::Tebibyte => SISize::Terabyte,
            IECSize::Pebibyte => SISize::Petabyte,
            IECSize::Exbibyte => SISize::Exabyte,
        }
    }
}

impl vstd::std_specs::convert::FromSpecImpl<IECSize> for SISize {
    open spec fn obeys_from_spec() -> bool {
        true
    }

    open spec fn from_spec(v: IECSize) -> SISize {
        si_of(v)
    }
}

} // verus!
