//! Byte quantities and the scale at which a human-readable rendering shows
//! them: decimal and binary unit constants, and the threshold logic that
//! picks the largest binary unit not exceeding a value.

use vstd::prelude::*;

verus! {

/// One byte.
pub const B: u64 = 1;

/// One kilobyte.
pub const KB: u64 = 1000 * B;

/// One megabyte.
pub const MB: u64 = 1000 * KB;

/// One gigabyte.
pub const GB: u64 = 1000 * MB;

/// One terabyte.
pub const TB: u64 = 1000 * GB;

/// One petabyte.
pub const PB: u64 = 1000 * TB;

/// One exabyte.
pub const EB: u64 = 1000 * PB;

/// One zettabyte.
pub const ZB: u128 = 1_000_000_000_000_000_000_000;

/// One yottabyte.
pub const YB: u128 = 1000 * ZB;

/// One kibibyte.
pub const KIB: u64 = 1024 * B;

/// One mebibyte.
pub const MIB: u64 = 1024 * KIB;

/// One gibibyte.
pub const GIB: u64 = 1024 * MIB;

/// One tebibyte.
pub const TIB: u64 = 1024 * GIB;

/// One pebibyte.
pub const PIB: u64 = 1024 * TIB;

/// One exbibyte.
pub const EIB: u64 = 1024 * PIB;

/// One zebibyte.
pub const ZIB: u128 = 1_180_591_620_717_411_303_424;

/// One yobibyte.
pub const YIB: u128 = 1024 * ZIB;

/// A byte count to be shown at the largest binary unit it reaches.
#[derive(Debug)]
pub struct BinarySize(pub u128);

/// A byte count to be shown at the largest binary unit it reaches, rounded
/// to a number of decimal places.
#[derive(Debug)]
pub struct RoundedBinarySize(pub u128, pub u8);

impl BinarySize {
    /// Attaches a decimal-place count for rounded rendering; the byte count
    /// is kept as it is.
    pub fn rounded_to(self, decimal_places: u8) -> (r: RoundedBinarySize)
        ensures
            r.0 == self.0,
            r.1 == decimal_places,
    {
        RoundedBinarySize(self.0, decimal_places)
    }

    /// Rounds to 2 decimal places.
    pub fn rounded(self) -> (r: RoundedBinarySize)
        ensures
            r.0 == self.0,
            r.1 == 2,
    {
        self.rounded_to(2)
    }
}

impl From<u128> for BinarySize {
    /// Wraps the byte count unchanged.
    fn from(value: u128) -> (r: Self) {
        BinarySize(value)
    }
}

impl vstd::std_specs::convert::FromSpecImpl<u128> for BinarySize {
    open spec fn obeys_from_spec() -> bool {
        true
    }

    open spec fn from_spec(value: u128) -> Self {
        BinarySize(value)
    }
}

impl From<u64> for BinarySize {
    /// Wraps the byte count unchanged.
    fn from(value: u64) -> (r: Self) {
        BinarySize(value as u128)
    }
}

impl vstd::std_specs::convert::FromSpecImpl<u64> for BinarySize {
    open spec fn obeys_from_spec() -> bool {
        true
    }

    open spec fn from_spec(value: u64) -> Self {
        BinarySize(value as u128)
    }
}

impl From<u32> for BinarySize {
    /// Wraps the byte count unchanged.
    fn from(value: u32) -> (r: Self) {
        BinarySize(value as u128)
    }
}

impl vstd::std_specs::convert::FromSpecImpl<u32> for BinarySize {
    open spec fn obeys_from_spec() -> bool {
        true
    }

    open spec fn from_spec(value: u32) -> Self {
        BinarySize(value as u128)
    }
}

impl From<u16> for BinarySize {
    /// Wraps the byte count unchanged.
    fn from(value: u16) -> (r: Self) {
        BinarySize(value as u128)
    }
}

impl vstd::std_specs::convert::FromSpecImpl<u16> for BinarySize {
    open spec fn obeys_from_spec() -> bool {
        true
    }

    open spec fn from_spec(value: u16) -> Self {
        BinarySize(value as u128)
    }
}

impl From<u8> for BinarySize {
    /// Wraps the byte count unchanged.
    fn from(value: u8) -> (r: Self) {
        BinarySize(value as u128)
    }
}

impl vstd::std_specs::convert::FromSpecImpl<u8> for BinarySize {
    open spec fn obeys_from_spec() -> bool {
        true
    }

    open spec fn from_spec(value: u8) -> Self {
        BinarySize(value as u128)
    }
}

impl From<usize> for BinarySize {
    /// Wraps the byte count unchanged.
    fn from(value: usize) -> (r: Self) {
        BinarySize(value as u128)
    }
}

impl vstd::std_specs::convert::FromSpecImpl<usize> for BinarySize {
    open spec fn obeys_from_spec() -> bool {
        true
    }

    open spec fn from_spec(value: usize) -> Self {
        BinarySize(value as u128)
    }
}

/// The binary units a byte count can be shown at.
#[derive(Clone, Copy, Debug, PartialEq, Eq, Structural)]
pub enum BinaryUnit {
    /// Plain bytes.
    Bytes,
    /// Kibibytes.
    Kibi,
    /// Mebibytes.
    Mebi,
    /// Gibibytes.
    Gibi,
    /// Tebibytes.
    Tebi,
    /// Pebibytes.
    Pebi,
    /// Exbibytes.
    Exbi,
    /// Zebibytes.
    Zebi,
    /// Yobibytes.
    Yobi,
}

/// The quotient and unit a byte count is shown at: the largest binary unit
/// not exceeding the value, and the value divided by it; values below one
/// kibibyte stay plain bytes.
pub open spec fn spec_binary_scale(v: u128) -> (u128, BinaryUnit) {
    if v >= YIB {
        (v / YIB, BinaryUnit::Yobi)
    } else if v >= ZIB {
        (v / ZIB, BinaryUnit::Zebi)
    } else if v >= EIB as u128 {
        (v / (EIB as u128), BinaryUnit::Exbi)
    } else if v >= PIB as u128 {
        (v / (PIB as u128), BinaryUnit::Pebi)
    } else if v >= TIB as u128 {
        (v / (TIB as u128), BinaryUnit::Tebi)
    } else if v >= GIB as u128 {
        (v / (GIB as u128), BinaryUnit::Gibi)
    } else if v >= MIB as u128 {
        (v / (MIB as u128), BinaryUnit::Mebi)
    } else if v >= KIB as u128 {
        (v / (KIB as u128), BinaryUnit::Kibi)
    } else {
        (v, BinaryUnit::Bytes)
    }
}

/// Picks the unit a byte count is rendered at and the quotient shown before
/// the unit's suffix.
pub fn binary_scale(v: u128) -> (r: (u128, BinaryUnit))
    ensures
        r == spec_binary_scale(v),
{
    if v >= YIB {
        (v / YIB, BinaryUnit::Yobi)
    } else if v >= ZIB {
        (v / ZIB, BinaryUnit::Zebi)
    } else if v >= EIB as u128 {
        (v / (EIB as u128), BinaryUnit::Exbi)
    } else if v >= PIB as u128 {
        (v / (PIB as u128), BinaryUnit::Pebi)
    } else if v >= TIB as u128 {
        (v / (TIB as u128), BinaryUnit::Tebi)
    } else if v >= GIB as u128 {
        (v / (GIB as u128), BinaryUnit::Gibi)
    } else if v >= MIB as u128 {
        (v / (MIB as u128), BinaryUnit::Mebi)
    } else if v >= KIB as u128 {
        (v / (KIB as u128), BinaryUnit::Kibi)
    } else {
        (v, BinaryUnit::Bytes)
    }
}

/// The suffix a unit is rendered with.
pub fn binary_unit_suffix(u: BinaryUnit) -> (r: &'static str)
    ensures
        u is Bytes ==> r@ == " B"@,
        u is Kibi ==> r@ == " KiB"@,
        u is Mebi ==> r@ == " MiB"@,
        u is Gibi ==> r@ == " GiB"@,
        u is Tebi ==> r@ == " TiB"@,
        u is Pebi ==> r@ == " PiB"@,
        u is Exbi ==> r@ == " EiB"@,
        u is Zebi ==> r@ == " ZiB"@,
        u is Yobi ==> r@ == " YiB"@,
{
    match u {
        BinaryUnit::Bytes => " B",
        BinaryUnit::Kibi => " KiB",
        BinaryUnit::Mebi => " MiB",
        BinaryUnit::Gibi => " GiB",
        BinaryUnit::Tebi => " TiB",
        BinaryUnit::Pebi => " PiB",
        BinaryUnit::Exbi => " EiB",
        BinaryUnit::Zebi => " ZiB",
        BinaryUnit::Yobi => " YiB",
    }
}

} // verus!
