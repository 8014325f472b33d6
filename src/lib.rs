//! Validation of one safety deposit box of a fractionalized vault: the record
//! graph is checked, the custody transfer is planned, and the campaign's
//! progress is advanced.

pub mod address;
pub mod records;
pub mod checks;
pub mod process;
pub mod laws;
