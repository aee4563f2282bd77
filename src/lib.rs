//! Puts idle disks into standby by sending them ATA commands through the SCSI
//! generic pass-through, deciding per disk and per poll whether it is idle.

pub mod ata;
pub mod config;
pub mod decimal;
pub mod errors;
pub mod monitor;
pub mod sysfs;
