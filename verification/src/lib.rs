//! Disk usage reporting: entries with aggregated byte sizes, a verified
//! descending sort, recursive size accumulation, and binary-unit formatting.

pub mod entry;
pub mod size;
pub mod units;
