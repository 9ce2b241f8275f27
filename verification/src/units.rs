//! Binary-unit selection for human-readable sizes: bytes, KB, MB or GB,
//! chosen by strict 1024-based thresholds.
use vstd::prelude::*;
use vstd::string::StringExecFns;

verus! {

/// One binary (1024-based) step between units.
pub const SIZE: usize = 1024;

/// The unit a byte count is reported in.
#[derive(Clone, Copy, Debug, PartialEq, Eq, Structural)]
pub enum SizeUnit {
    Bytes,
    Kilobytes,
    Megabytes,
    Gigabytes,
}

/// The unit chosen for a byte count: the largest unit whose threshold the
/// count strictly exceeds, so a count of exactly 1024 still reads as bytes.
pub open spec fn size_unit_of(bytes: usize) -> SizeUnit {
    if bytes > SIZE * SIZE * SIZE {
        SizeUnit::Gigabytes
    } else if bytes > SIZE * SIZE {
        SizeUnit::Megabytes
    } else if bytes > SIZE {
        SizeUnit::Kilobytes
    } else {
        SizeUnit::Bytes
    }
}

/// How many bytes one whole unit stands for.
pub open spec fn spec_unit_divisor(unit: SizeUnit) -> usize {
    match unit {
        SizeUnit::Bytes => 1,
        SizeUnit::Kilobytes => SIZE,
        SizeUnit::Megabytes => (SIZE * SIZE) as usize,
        SizeUnit::Gigabytes => (SIZE * SIZE * SIZE) as usize,
    }
}

/// The suffix printed after the scaled value.
pub open spec fn unit_suffix(unit: SizeUnit) -> Seq<char> {
    match unit {
        SizeUnit::Bytes => " bytes"@,
        SizeUnit::Kilobytes => " KB"@,
        SizeUnit::Megabytes => " MB"@,
        SizeUnit::Gigabytes => " GB"@,
    }
}

/// Picks the unit a byte count is reported in, by strict 1024-based
/// thresholds.
pub fn get_size_unit(bytes: usize) -> (unit: SizeUnit)
    ensures
        unit == size_unit_of(bytes),
{
    if bytes > SIZE * SIZE * SIZE {
        SizeUnit::Gigabytes
    } else if bytes > SIZE * SIZE {
        SizeUnit::Megabytes
    } else if bytes > SIZE {
        SizeUnit::Kilobytes
    } else {
        SizeUnit::Bytes
    }
}

/// How many bytes one whole unit stands for; a byte count is scaled by this
/// divisor before printing.
pub fn unit_divisor(unit: SizeUnit) -> (divisor: usize)
    ensures
        divisor == spec_unit_divisor(unit),
{
    match unit {
        SizeUnit::Bytes => 1,
        SizeUnit::Kilobytes => SIZE,
        SizeUnit::Megabytes => SIZE * SIZE,
        SizeUnit::Gigabytes => SIZE * SIZE * SIZE,
    }
}

/// Appends the unit's suffix to an already-rendered numeric value.
pub fn render_size(value: String, unit: SizeUnit) -> (formatted: String)
    ensures
        formatted@ == value@ + unit_suffix(unit),
{
    let mut s = value;
    match unit {
        SizeUnit::Bytes => s.append(" bytes"),
        SizeUnit::Kilobytes => s.append(" KB"),
        SizeUnit::Megabytes => s.append(" MB"),
        SizeUnit::Gigabytes => s.append(" GB"),
    }
    s
}

} // verus!
